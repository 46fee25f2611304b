use crate::constraints::Constraint;
use crate::errors::ConstraintError;
use vstd::prelude::*;

verus! {

/// What a recorded outcome says: success, or the messages its error may compute.
pub open spec fn outcome_view(r: Result<(), ConstraintError>) -> Result<(), Set<Seq<char>>> {
    match r {
        Ok(()) => Ok(()),
        Err(e) => Err(e@),
    }
}

/// The views of the outcomes of `log`, in order.
pub open spec fn log_view(log: Seq<Result<(), ConstraintError>>) -> Seq<Result<(), Set<Seq<char>>>> {
    log.map_values(|r: Result<(), ConstraintError>| outcome_view(r))
}

/// Makes the error recorded for a failed check in place of the constraint's own.
pub trait ExceptionGenerator {
    /// `generate` may be called on `label`.
    spec fn can_generate(&self, label: String) -> bool;

    /// `e` is an error that `generate(label)` may give.
    spec fn generates(&self, label: String, e: ConstraintError) -> bool;

    fn generate(&self, label: String) -> (e: ConstraintError)
        requires
            self.can_generate(label),
        ensures
            self.generates(label, e),
    ;
}

impl<F: Fn(String) -> ConstraintError> ExceptionGenerator for F {
    open spec fn can_generate(&self, label: String) -> bool {
        self.requires((label,))
    }

    open spec fn generates(&self, label: String, e: ConstraintError) -> bool {
        self.ensures((label,), e)
    }

    fn generate(&self, label: String) -> (e: ConstraintError) {
        self(label)
    }
}

/// The generator type of a scope that has none: failures use the
/// constraint's own error.
pub struct NoGenerator;

impl ExceptionGenerator for NoGenerator {
    open spec fn can_generate(&self, label: String) -> bool {
        true
    }

    open spec fn generates(&self, label: String, e: ConstraintError) -> bool {
        e.only_says(label@)
    }

    fn generate(&self, label: String) -> (e: ConstraintError) {
        ConstraintError::describing(label)
    }
}

/// A validation block bound to one label: each check records one outcome.
///
/// The outcomes recorded here are handed to the session that opened the scope
/// when the block ends, after those it already held.
pub struct StringScope<G> {
    message: String,
    results: Vec<Result<(), ConstraintError>>,
    exception_generator: Option<G>,
}

impl<G: ExceptionGenerator> StringScope<G> {
    /// The label of the scope.
    pub closed spec fn label(&self) -> String {
        self.message
    }

    /// The outcomes recorded by the scope, in order.
    pub closed spec fn entries(&self) -> Seq<Result<(), ConstraintError>> {
        self.results@
    }

    /// The generator that replaces the constraints' own errors, if any.
    pub closed spec fn generator(&self) -> Option<G> {
        self.exception_generator
    }

    /// The checks of the scope may use `constraint`'s own error or the generator.
    pub open spec fn can_fail(&self) -> bool {
        self.generator() matches Some(g) ==> g.can_generate(self.label())
    }

    /// `e` is an error that a failed check against `constraint` may record.
    pub open spec fn failure<T, C: Constraint<T>>(&self, constraint: C, e: ConstraintError) -> bool {
        match self.generator() {
            Some(g) => g.generates(self.label(), e),
            None => constraint.raises(self.label()@, e),
        }
    }

    /// `entry` is what a check of `value` against `constraint` may record when
    /// the check expects `validate` to give `condition`.
    pub open spec fn checked<T, C: Constraint<T>>(
        &self,
        value: T,
        constraint: C,
        condition: bool,
        entry: Result<(), ConstraintError>,
    ) -> bool {
        exists|satisfied: bool|
            #![trigger constraint.outcome(&value, satisfied)]
            constraint.outcome(&value, satisfied) && if satisfied == condition {
                entry is Ok
            } else {
                entry matches Err(e) && self.failure(constraint, e)
            }
    }

    /// `entry` is what a check of `value` against `predicate` may record when
    /// the check expects the predicate to give `condition`: `Ok`, or else the
    /// generator's error if the scope has one, or else an error whose message
    /// is the scope's label.
    pub open spec fn predicate_checked<T, F: Fn(&T) -> bool>(
        &self,
        value: T,
        predicate: F,
        condition: bool,
        entry: Result<(), ConstraintError>,
    ) -> bool {
        exists|satisfied: bool|
            #![trigger predicate.ensures((&value,), satisfied)]
            predicate.ensures((&value,), satisfied) && if satisfied == condition {
                entry is Ok
            } else {
                entry matches Err(e) && match self.generator() {
                    Some(g) => g.generates(self.label(), e),
                    None => e.only_says(self.label()@),
                }
            }
    }

    /// A scope with label `message`, no outcomes yet, and no generator.
    pub fn new(message: String) -> (r: Self)
        ensures
            r.label() == message,
            r.entries() == Seq::<Result<(), ConstraintError>>::empty(),
            r.generator() is None,
    {
        StringScope { message, results: Vec::new(), exception_generator: None }
    }

    /// A scope with label `message`, no outcomes yet, whose failures are made
    /// by `exception_generator`.
    pub fn new_with_exception_generator(message: String, exception_generator: G) -> (r: Self)
        ensures
            r.label() == message,
            r.entries() == Seq::<Result<(), ConstraintError>>::empty(),
            r.generator() == Some(exception_generator),
    {
        StringScope { message, results: Vec::new(), exception_generator: Some(exception_generator) }
    }

    /// Records `Ok` when `validate(value)` gives `condition`, else the error of
    /// the generator if the scope has one, or else the constraint's own, both
    /// made with the scope's label.
    fn validate<T, C: Constraint<T>>(&mut self, value: T, constraint: C, condition: bool)
        requires
            constraint.can_validate(&value),
            old(self).can_fail(),
        ensures
            final(self).label() == old(self).label(),
            final(self).generator() == old(self).generator(),
            final(self).entries().len() == old(self).entries().len() + 1,
            final(self).entries().drop_last() == old(self).entries(),
            old(self).checked(value, constraint, condition, final(self).entries().last()),
    {
        let satisfied = constraint.validate(&value);
        let entry = if satisfied == condition {
            Ok(())
        } else {
            let e = match &self.exception_generator {
                Some(g) => g.generate(self.message.clone()),
                None => constraint.generate_exception(self.message.clone()),
            };
            Err(e)
        };
        let ghost before = self.results@;
        self.results.push(entry);
        assert(self.results@.drop_last() =~= before);
        assert(old(self).checked(value, constraint, condition, self.results@.last()));
    }

    /// Records whether `value` meets `constraint`: `Ok` if it does, else the
    /// failure's error.
    pub fn must<T, C: Constraint<T>>(&mut self, value: T, constraint: C)
        requires
            constraint.can_validate(&value),
            old(self).can_fail(),
        ensures
            final(self).label() == old(self).label(),
            final(self).generator() == old(self).generator(),
            final(self).entries().len() == old(self).entries().len() + 1,
            final(self).entries().drop_last() == old(self).entries(),
            old(self).checked(value, constraint, true, final(self).entries().last()),
    {
        self.validate(value, constraint, true);
    }

    /// Records whether `value` fails `constraint`: `Ok` if it does, else the
    /// failure's error.
    pub fn must_not<T, C: Constraint<T>>(&mut self, value: T, constraint: C)
        requires
            constraint.can_validate(&value),
            old(self).can_fail(),
        ensures
            final(self).label() == old(self).label(),
            final(self).generator() == old(self).generator(),
            final(self).entries().len() == old(self).entries().len() + 1,
            final(self).entries().drop_last() == old(self).entries(),
            old(self).checked(value, constraint, false, final(self).entries().last()),
    {
        self.validate(value, constraint, false);
    }

    /// `must` for a plain predicate over `&T`, stated over the predicate's own
    /// contract.
    pub fn must_hold<T, F: Fn(&T) -> bool>(&mut self, value: T, predicate: F)
        requires
            predicate.requires((&value,)),
            old(self).can_fail(),
        ensures
            final(self).label() == old(self).label(),
            final(self).generator() == old(self).generator(),
            final(self).entries().len() == old(self).entries().len() + 1,
            final(self).entries().drop_last() == old(self).entries(),
            old(self).predicate_checked(value, predicate, true, final(self).entries().last()),
    {
        self.validate(value, predicate, true);
    }

    /// `must_not` for a plain predicate over `&T`, stated over the predicate's
    /// own contract.
    pub fn must_not_hold<T, F: Fn(&T) -> bool>(&mut self, value: T, predicate: F)
        requires
            predicate.requires((&value,)),
            old(self).can_fail(),
        ensures
            final(self).label() == old(self).label(),
            final(self).generator() == old(self).generator(),
            final(self).entries().len() == old(self).entries().len() + 1,
            final(self).entries().drop_last() == old(self).entries(),
            old(self).predicate_checked(value, predicate, false, final(self).entries().last()),
    {
        self.validate(value, predicate, false);
    }

    /// Records `Ok` if `predicate()` holds, else an error whose message is the
    /// scope's label.
    pub fn constraint<P: Fn() -> bool>(&mut self, predicate: P)
        requires
            predicate.requires(()),
        ensures
            final(self).label() == old(self).label(),
            final(self).generator() == old(self).generator(),
            final(self).entries().len() == old(self).entries().len() + 1,
            final(self).entries().drop_last() == old(self).entries(),
            exists|holds: bool|
                #![trigger predicate.ensures((), holds)]
                predicate.ensures((), holds) && if holds {
                    final(self).entries().last() is Ok
                } else {
                    final(self).entries().last() matches Err(e) && e.only_says(old(self).label()@)
                },
    {
        let holds = predicate();
        let entry = if holds {
            Ok(())
        } else {
            Err(ConstraintError::describing(self.message.clone()))
        };
        let ghost before = self.results@;
        self.results.push(entry);
        assert(self.results@.drop_last() =~= before);
    }

    /// `"StringScope(label)"`.
    pub fn to_string(&self) -> (r: String)
        ensures
            r@ == "StringScope("@ + self.label()@ + ")"@,
    {
        let mut r = "StringScope(".to_owned();
        r.append(self.message.as_str());
        r.append(")");
        r
    }

    /// The recorded outcomes, in order, given up by the scope.
    pub fn into_results(self) -> (r: Vec<Result<(), ConstraintError>>)
        ensures
            r@ == self.entries(),
    {
        self.results
    }
}

/// In a scope with a generator, a check that fails records an error that the
/// generator gives for the scope's label, whatever the constraint's own error
/// would be.
pub proof fn lemma_generator_overrides<T, C: Constraint<T>, G: ExceptionGenerator>(
    scope: StringScope<G>,
    generator: G,
    value: T,
    constraint: C,
    condition: bool,
    entry: Result<(), ConstraintError>,
)
    requires
        scope.generator() == Some(generator),
        scope.checked(value, constraint, condition, entry),
        entry is Err,
    ensures
        generator.generates(scope.label(), entry->Err_0),
{
}

} // verus!
