use crate::errors::{CollectionConstraintError, ConstraintError};
use vstd::prelude::*;

verus! {

/// A check over values of type `T`, with the error it raises when it is not met.
pub trait Constraint<T> {
    /// `validate` may be called on `value`.
    spec fn can_validate(&self, value: &T) -> bool;

    /// `outcome` is a result that `validate(value)` may give.
    spec fn outcome(&self, value: &T, outcome: bool) -> bool;

    /// `e` is an error that `generate_exception(description)` may give.
    spec fn raises(&self, description: Seq<char>, e: ConstraintError) -> bool;

    /// Decides whether `value` meets the constraint.
    fn validate(&self, value: &T) -> (r: bool)
        requires
            self.can_validate(value),
        ensures
            self.outcome(value, r),
    ;

    /// The error to record when the constraint is not met.
    fn generate_exception(&self, description: String) -> (e: ConstraintError)
        ensures
            self.raises(description@, e),
    ;

    /// `message`, a colon, and the message of the error raised with `message`
    /// as its description.
    fn generate_error_message(&self, message: &str) -> (r: String)
        ensures
            exists|e: ConstraintError, m: Seq<char>|
                #![trigger self.raises(message@, e), e@.contains(m)]
                self.raises(message@, e) && e@.contains(m) && r@ == message@ + ": "@ + m,
    {
        let e = self.generate_exception(message.to_owned());
        let m = e.message();
        let mut r = message.to_owned();
        r.append(": ");
        r.append(m.as_str());
        r
    }
}

/// Any predicate over `&T` is a constraint whose error echoes the description.
impl<T, F: Fn(&T) -> bool> Constraint<T> for F {
    open spec fn can_validate(&self, value: &T) -> bool {
        self.requires((value,))
    }

    open spec fn outcome(&self, value: &T, outcome: bool) -> bool {
        self.ensures((value,), outcome)
    }

    open spec fn raises(&self, description: Seq<char>, e: ConstraintError) -> bool {
        e.only_says(description)
    }

    fn validate(&self, value: &T) -> (r: bool) {
        self(value)
    }

    fn generate_exception(&self, description: String) -> (e: ConstraintError) {
        ConstraintError::describing(description)
    }
}

/// A constraint over a collection, whose error is a `CollectionConstraintError`.
pub trait CollectionConstraint<T>: Constraint<Vec<T>> {
    /// An error whose message is `description`, verbatim.
    fn generate_collection_exception(&self, description: String) -> (e: CollectionConstraintError)
        ensures
            forall|x: Seq<char>| #[trigger] e@.contains(x) ==> x == description@,
    {
        let f = move || -> (s: String)
            ensures
                s@ == description@,
            { description.clone() };
        CollectionConstraintError::new(f)
    }
}

/// A decision on the size of a collection.
pub trait SizePredicate {
    /// `test` may be called on `size`.
    spec fn can_test(&self, size: usize) -> bool;

    /// `outcome` is a result that `test(size)` may give.
    spec fn outcome(&self, size: usize, outcome: bool) -> bool;

    fn test(&self, size: usize) -> (r: bool)
        requires
            self.can_test(size),
        ensures
            self.outcome(size, r),
    ;
}

impl<F: Fn(usize) -> bool> SizePredicate for F {
    open spec fn can_test(&self, size: usize) -> bool {
        self.requires((size,))
    }

    open spec fn outcome(&self, size: usize, outcome: bool) -> bool {
        self.ensures((size,), outcome)
    }

    fn test(&self, size: usize) -> (r: bool) {
        self(size)
    }
}

/// Holds of exactly one size.
pub struct ExactSize {
    pub size: usize,
}

impl SizePredicate for ExactSize {
    open spec fn can_test(&self, size: usize) -> bool {
        true
    }

    open spec fn outcome(&self, size: usize, outcome: bool) -> bool {
        outcome == (size == self.size)
    }

    fn test(&self, size: usize) -> (r: bool) {
        size == self.size
    }
}

/// A constraint on the number of elements of a `Vec`.
pub struct HaveSize<P> {
    predicate: P,
}

impl<P: SizePredicate> HaveSize<P> {
    /// The decision on sizes that the constraint applies.
    pub closed spec fn predicate(&self) -> P {
        self.predicate
    }

    /// A constraint that holds of a collection whose length meets `predicate`.
    pub fn new(predicate: P) -> (r: Self)
        ensures
            r.predicate() == predicate,
    {
        HaveSize { predicate }
    }
}

impl HaveSize<ExactSize> {
    /// A constraint that holds of a collection of exactly `size` elements.
    pub fn with_exact_size(size: usize) -> (r: Self)
        ensures
            r.predicate().size == size,
    {
        HaveSize::new(ExactSize { size })
    }
}

impl<F: Fn(usize) -> bool> HaveSize<F> {
    /// `validate` for a size predicate that is a plain function, stated over
    /// the function's own contract.
    pub fn validate_size<T>(&self, value: &Vec<T>) -> (r: bool)
        requires
            self.predicate().requires((value.len(),)),
        ensures
            self.predicate().ensures((value.len(),), r),
    {
        self.validate(value)
    }
}

impl<T, P: SizePredicate> Constraint<Vec<T>> for HaveSize<P> {
    open spec fn can_validate(&self, value: &Vec<T>) -> bool {
        self.predicate().can_test(value.len())
    }

    open spec fn outcome(&self, value: &Vec<T>, outcome: bool) -> bool {
        self.predicate().outcome(value.len(), outcome)
    }

    open spec fn raises(&self, description: Seq<char>, e: ConstraintError) -> bool {
        e.only_says(description)
    }

    fn validate(&self, value: &Vec<T>) -> (r: bool) {
        self.predicate.test(value.len())
    }

    fn generate_exception(&self, description: String) -> (e: ConstraintError) {
        ConstraintError::describing(description)
    }
}

impl<T, P: SizePredicate> CollectionConstraint<T> for HaveSize<P> {}

/// A constraint made by `with_exact_size(size)` accepts a collection if and
/// only if it has `size` elements.
pub proof fn lemma_exact_size_validates<T>(
    constraint: HaveSize<ExactSize>,
    size: usize,
    value: Vec<T>,
    outcome: bool,
)
    requires
        constraint.predicate().size == size,
        Constraint::<Vec<T>>::outcome(&constraint, &value, outcome),
    ensures
        outcome == (value.len() == size),
{
}

} // verus!
