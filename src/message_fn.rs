use std::sync::Arc;
use vstd::prelude::*;

verus! {

/// The messages that a call of `f` may return.
pub open spec fn messages_of<F: Fn() -> String>(f: F) -> Set<Seq<char>> {
    Set::new(|m: Seq<char>| exists|s: String| f.ensures((), s) && s@ == m)
}

/// The stored function itself, behind a shared, thread-safe handle.
///
/// Verus cannot hold a `dyn Fn` trait object, so this holder is opaque to it.
#[verifier::external_body]
struct Handle {
    produce: Arc<dyn Fn() -> String + Send + Sync>,
}

/// A shared handle on a function that produces a message, with the set of
/// messages that the function may return.
///
/// The fields are private to this module, and only `store_message` and
/// `share_message` make a value: each sets the handle and its messages
/// together.
pub(crate) struct MessageFn {
    handle: Handle,
    messages: Ghost<Set<Seq<char>>>,
}

impl MessageFn {
    /// The messages that the stored function may return.
    pub(crate) closed spec fn messages(&self) -> Set<Seq<char>> {
        self.messages@
    }
}

/// Relies on `Arc::new` and the coercion to a trait object: `f` is stored,
/// not called, and the handle calls `f` alone.
#[verifier::external_body]
pub(crate) fn store_message<F: Fn() -> String + Send + Sync + 'static>(f: F) -> (r: MessageFn)
    requires
        f.requires(()),
    ensures
        r.messages() == messages_of(f),
{
    MessageFn { handle: Handle { produce: Arc::new(f) }, messages: Ghost(messages_of(f)) }
}

/// Relies on `Arc::clone`: the copy calls the same function.
#[verifier::external_body]
pub(crate) fn share_message(m: &MessageFn) -> (r: MessageFn)
    ensures
        r.messages() == m.messages(),
{
    MessageFn { handle: Handle { produce: Arc::clone(&m.handle.produce) }, messages: m.messages }
}

/// Calls the stored function through the `dyn Fn` handle. `store_message`
/// recorded the messages of that very function, so the result is one of them.
#[verifier::external_body]
pub(crate) fn call_message(m: &MessageFn) -> (r: String)
    ensures
        m.messages().contains(r@),
{
    (m.handle.produce)()
}

} // verus!
