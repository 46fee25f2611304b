use crate::message_fn::{MessageFn, call_message, messages_of, share_message, store_message};
use vstd::prelude::*;

verus! {

/// A lazy error made from a function that only ever returns `m` gives `m`
/// as each message it computes (`message`, `to_string`).
pub proof fn lemma_constant_message<F: Fn() -> String>(
    f: F,
    m: String,
    e: ConstraintError,
    computed: String,
)
    requires
        forall|s: String| #[trigger] f.ensures((), s) ==> s@ == m@,
        e@ == messages_of(f),
        e@.contains(computed@),
    ensures
        computed@ == m@,
{
}

/// An error whose message is computed on demand by a stored function.
///
/// Its view is the set of messages that the stored function may return; for a
/// function that only ever returns one text it holds no other.
pub struct ConstraintError {
    lazy_message: MessageFn,
}

impl View for ConstraintError {
    type V = Set<Seq<char>>;

    closed spec fn view(&self) -> Set<Seq<char>> {
        self.lazy_message.messages()
    }
}

impl ConstraintError {
    /// Every message that the error may compute is `m`.
    pub open spec fn only_says(&self, m: Seq<char>) -> bool {
        forall|x: Seq<char>| #[trigger] self@.contains(x) ==> x == m
    }

    /// Stores `lazy_message` without calling it.
    pub fn new<F: Fn() -> String + Send + Sync + 'static>(lazy_message: F) -> (r: Self)
        requires
            lazy_message.requires(()),
        ensures
            r@ == messages_of(lazy_message),
    {
        ConstraintError { lazy_message: store_message(lazy_message) }
    }

    /// An error whose message is `description`, verbatim.
    pub fn describing(description: String) -> (r: Self)
        ensures
            r.only_says(description@),
    {
        let f = move || -> (s: String)
            ensures
                s@ == description@,
            { description.clone() };
        ConstraintError::new(f)
    }

    /// Calls the stored function; each call calls it again.
    pub fn message(&self) -> (r: String)
        ensures
            self@.contains(r@),
    {
        call_message(&self.lazy_message)
    }

    /// The text of the error: its message.
    pub fn to_string(&self) -> (r: String)
        ensures
            self@.contains(r@),
    {
        self.message()
    }

    /// Computes both messages now and compares them.
    pub fn same_message(&self, other: &ConstraintError) -> (r: bool)
        ensures
            exists|a: Seq<char>, b: Seq<char>|
                #![trigger self@.contains(a), other@.contains(b)]
                self@.contains(a) && other@.contains(b) && r == (a == b),
    {
        let a = self.message();
        let b = other.message();
        a == b
    }

    /// A copy that shares the stored function.
    pub fn share(&self) -> (r: Self)
        ensures
            r@ == self@,
    {
        ConstraintError { lazy_message: share_message(&self.lazy_message) }
    }
}

/// An error of a constraint over a collection, with a message computed on
/// demand by a stored function. Its view is as for `ConstraintError`.
pub struct CollectionConstraintError {
    lazy_message: MessageFn,
}

impl View for CollectionConstraintError {
    type V = Set<Seq<char>>;

    closed spec fn view(&self) -> Set<Seq<char>> {
        self.lazy_message.messages()
    }
}

impl CollectionConstraintError {
    /// Stores `lazy_message` without calling it.
    pub fn new<F: Fn() -> String + Send + Sync + 'static>(lazy_message: F) -> (r: Self)
        requires
            lazy_message.requires(()),
        ensures
            r@ == messages_of(lazy_message),
    {
        CollectionConstraintError { lazy_message: store_message(lazy_message) }
    }

    /// Calls the stored function; each call calls it again.
    pub fn message(&self) -> (r: String)
        ensures
            self@.contains(r@),
    {
        call_message(&self.lazy_message)
    }

    /// The text of the error: its message.
    pub fn to_string(&self) -> (r: String)
        ensures
            self@.contains(r@),
    {
        self.message()
    }
}

impl Clone for ConstraintError {
    fn clone(&self) -> (r: Self)
        ensures
            r@ == self@,
    {
        self.share()
    }
}

impl PartialEq for ConstraintError {
    /// Two errors are equal when the messages they compute now are equal.
    fn eq(&self, other: &Self) -> (r: bool)
        ensures
            exists|a: Seq<char>, b: Seq<char>|
                #![trigger self@.contains(a), other@.contains(b)]
                self@.contains(a) && other@.contains(b) && r == (a == b),
    {
        self.same_message(other)
    }
}

impl vstd::std_specs::cmp::PartialEqSpecImpl for ConstraintError {
    open spec fn obeys_eq_spec() -> bool {
        false
    }

    open spec fn eq_spec(&self, other: &ConstraintError) -> bool {
        self@ == other@
    }
}

} // verus!
