use crate::errors::ConstraintError;
use vstd::prelude::*;

verus! {

/// The name that the text of a composite gives the type of its errors: the
/// name that Rust gives the std error trait object, `dyn core::error::Error`.
pub const ERROR_KIND: &'static str = "dyn core::error::Error";

/// One or more errors reported as one.
pub struct CompositeError {
    errors: Vec<ConstraintError>,
}

/// The views of `errors`, in order.
pub open spec fn views_of(errors: Seq<ConstraintError>) -> Seq<Set<Seq<char>>> {
    errors.map_values(|e: ConstraintError| e@)
}

/// `"[" kind "] " message`.
pub open spec fn tagged(kind: Seq<char>, message: Seq<char>) -> Seq<char> {
    "["@ + kind + "] "@ + message
}

/// The entries `{ [kind] message }` of the first `n` messages, each
/// after the first preceded by `",\n"`.
pub open spec fn joined(kind: Seq<char>, messages: Seq<Seq<char>>, n: nat) -> Seq<char>
    decreases n,
{
    if n == 0 {
        Seq::empty()
    } else if n == 1 {
        "{ "@ + tagged(kind, messages[0]) + " }"@
    } else {
        joined(kind, messages, (n - 1) as nat) + ",\n"@ + "{ "@ + tagged(
            kind,
            messages[n - 1],
        ) + " }"@
    }
}

/// The text of a composite of errors of type `kind` with `messages`.
pub open spec fn rendered(kind: Seq<char>, messages: Seq<Seq<char>>) -> Seq<char> {
    if messages.len() == 1 {
        "An error occurred -- "@ + tagged(kind, messages[0])
    } else {
        "Multiple errors occurred -- "@ + joined(kind, messages, messages.len())
    }
}

/// Writes `"{ [kind] message }"` at the end of `out`.
fn push_entry(out: &mut String, kind: &str, message: &str)
    ensures
        final(out)@ == old(out)@ + "{ "@ + tagged(kind@, message@) + " }"@,
{
    out.append("{ ");
    push_tagged(out, kind, message);
    out.append(" }");
    assert(final(out)@ =~= old(out)@ + "{ "@ + tagged(kind@, message@) + " }"@);
}

/// Writes `"[kind] message"` at the end of `out`.
fn push_tagged(out: &mut String, kind: &str, message: &str)
    ensures
        final(out)@ == old(out)@ + tagged(kind@, message@),
{
    out.append("[");
    out.append(kind);
    out.append("] ");
    out.append(message);
    assert(final(out)@ =~= old(out)@ + tagged(kind@, message@));
}

/// The text of a composite of errors of type `kind` with `messages`:
/// `"An error occurred -- [type] message"` for one message, else
/// `"Multiple errors occurred -- "` and the entries `"{ [type] message }"`
/// joined by `",\n"`, in order.
pub fn render(kind: &str, messages: &Vec<String>) -> (r: String)
    requires
        messages.len() > 0,
    ensures
        r@ == rendered(kind@, messages@.map_values(|m: String| m@)),
{
    let ghost ms = messages@.map_values(|m: String| m@);
    let mut out = String::new();
    if messages.len() == 1 {
        out.append("An error occurred -- ");
        push_tagged(&mut out, kind, messages[0].as_str());
        assert(out@ =~= rendered(kind@, ms));
        return out;
    }
    out.append("Multiple errors occurred -- ");
    let mut i: usize = 0;
    while i < messages.len()
        invariant
            0 <= i <= messages.len(),
            messages.len() > 1,
            ms == messages@.map_values(|m: String| m@),
            out@ == "Multiple errors occurred -- "@ + joined(kind@, ms, i as nat),
        decreases messages.len() - i,
    {
        if i > 0 {
            out.append(",\n");
        }
        push_entry(&mut out, kind, messages[i].as_str());
        proof {
            if i == 0 {
                assert(joined(kind@, ms, 1) =~= "{ "@ + tagged(kind@, ms[0]) + " }"@);
            }
        }
        i = i + 1;
        assert(out@ =~= "Multiple errors occurred -- "@ + joined(kind@, ms, i as nat));
    }
    out
}

impl CompositeError {
    /// A composite always holds at least one error.
    #[verifier::type_invariant]
    spec fn well_formed(&self) -> bool {
        self.errors@.len() > 0
    }

    /// The errors held, in order.
    pub closed spec fn errors_view(&self) -> Seq<ConstraintError> {
        self.errors@
    }

    /// Holds `errors`, in order; an empty list is refused by the precondition.
    pub fn new(errors: Vec<ConstraintError>) -> (r: Self)
        requires
            errors.len() > 0,
        ensures
            r.errors_view() == errors@,
    {
        CompositeError { errors }
    }

    /// The errors held, in order; there is at least one.
    pub fn errors(&self) -> (r: &Vec<ConstraintError>)
        ensures
            r@ == self.errors_view(),
            r@.len() > 0,
    {
        proof {
            use_type_invariant(self);
        }
        &self.errors
    }

    /// The text of the composite: each error's message, computed now, tagged
    /// with the error type's name, as `render` lays them out.
    pub fn to_string(&self) -> (r: String)
        ensures
            exists|messages: Seq<Seq<char>>|
                {
                    &&& messages.len() == self.errors_view().len()
                    &&& forall|i: int|
                        0 <= i < messages.len() ==> #[trigger] self.errors_view()[i]@.contains(
                            messages[i],
                        )
                    &&& r@ == rendered(ERROR_KIND@, messages)
                },
    {
        proof {
            use_type_invariant(self);
        }
        let mut messages: Vec<String> = Vec::new();
        let mut i: usize = 0;
        while i < self.errors.len()
            invariant
                0 <= i <= self.errors@.len(),
                messages@.len() == i,
                forall|j: int| 0 <= j < i ==> #[trigger] self.errors@[j]@.contains(messages@[j]@),
            decreases self.errors@.len() - i,
        {
            messages.push(self.errors[i].message());
            i = i + 1;
        }
        let r = render(ERROR_KIND, &messages);
        let ghost ms = messages@.map_values(|m: String| m@);
        assert(forall|j: int| 0 <= j < ms.len() ==> #[trigger] self.errors@[j]@.contains(ms[j]));
        r
    }
}

/// A composite made from `errors` holds as many errors as were given, in the
/// same order, each with the same set of possible messages as the error given
/// at its place.
pub proof fn lemma_composite_keeps_errors(
    errors: Seq<ConstraintError>,
    composite: CompositeError,
    held: Seq<ConstraintError>,
)
    requires
        errors.len() > 0,
        composite.errors_view() == errors,
        held == composite.errors_view(),
    ensures
        held.len() == errors.len(),
        views_of(held) == views_of(errors),
        forall|i: int| 0 <= i < held.len() ==> #[trigger] held[i]@ == errors[i]@,
{
}

} // verus!
