use crate::errors::ConstraintError;
use crate::scope::{ExceptionGenerator, NoGenerator, StringScope, log_view, outcome_view};
use vstd::prelude::*;

verus! {

/// The messages of the errors of the failed outcomes of `log`, in order.
pub open spec fn failures_of(log: Seq<Result<(), ConstraintError>>) -> Seq<Set<Seq<char>>>
    decreases log.len(),
{
    if log.len() == 0 {
        Seq::empty()
    } else {
        match log.last() {
            Ok(()) => failures_of(log.drop_last()),
            Err(e) => failures_of(log.drop_last()).push(e@),
        }
    }
}

/// The number of failed outcomes in `log`.
pub open spec fn count_failures(log: Seq<Result<(), Set<Seq<char>>>>) -> nat {
    log.filter(|r: Result<(), Set<Seq<char>>>| r is Err).len()
}

/// The failures of a log are as many as the failed outcomes of any copy of
/// it (`failures` and `results` of one session).
pub proof fn lemma_failures_count(
    log: Seq<Result<(), ConstraintError>>,
    copy: Seq<Result<(), ConstraintError>>,
)
    requires
        log_view(copy) == log_view(log),
    ensures
        failures_of(log).len() == count_failures(log_view(copy)),
    decreases log.len(),
{
    reveal(Seq::filter);
    if log.len() > 0 {
        let rest = log.drop_last();
        assert(log_view(rest) =~= log_view(log).drop_last());
        lemma_failures_count(rest, rest);
        assert(log_view(log)[log.len() - 1] == outcome_view(log.last()));
    }
}

/// After `n` checks, each recording one entry at the end, a scope that began
/// empty holds the first `n` entries, in the order issued.
proof fn lemma_scope_holds_checks(
    states: Seq<Seq<Result<(), ConstraintError>>>,
    recorded: Seq<Result<(), ConstraintError>>,
    n: int,
)
    requires
        states.len() == recorded.len() + 1,
        states[0].len() == 0,
        forall|i: int|
            0 <= i < recorded.len() ==> #[trigger] states[i + 1] == states[i].push(recorded[i]),
        0 <= n <= recorded.len(),
    ensures
        states[n] == recorded.subrange(0, n),
    decreases n,
{
    if n > 0 {
        lemma_scope_holds_checks(states, recorded, n - 1);
        assert(states[(n - 1) + 1] == states[n - 1].push(recorded[n - 1]));
        assert(recorded.subrange(0, n) =~= recorded.subrange(0, n - 1).push(recorded[n - 1]));
    } else {
        assert(states[0] =~= recorded.subrange(0, 0));
    }
}

/// Checks issued one after another in one scope, each recording one entry at
/// the end of the scope (`must`, `must_not`, `constraint`), leave the
/// session's log as the old log followed by exactly those entries, in the
/// order issued (`validate_string`).
///
/// `states` are the scope's entries before each check and after the last;
/// `recorded` are the entries that the checks recorded.
pub proof fn lemma_checks_recorded_in_order(
    states: Seq<Seq<Result<(), ConstraintError>>>,
    recorded: Seq<Result<(), ConstraintError>>,
    before: Seq<Result<(), ConstraintError>>,
    after: Seq<Result<(), ConstraintError>>,
)
    requires
        states.len() == recorded.len() + 1,
        states[0].len() == 0,
        forall|i: int|
            0 <= i < recorded.len() ==> #[trigger] states[i + 1] == states[i].push(recorded[i]),
        after == before + states.last(),
    ensures
        after.len() == before.len() + recorded.len(),
        after.subrange(0, before.len() as int) == before,
        forall|i: int|
            0 <= i < recorded.len() ==> #[trigger] after[before.len() + i] == recorded[i],
{
    lemma_scope_holds_checks(states, recorded, recorded.len() as int);
    assert(recorded.subrange(0, recorded.len() as int) =~= recorded);
    assert(after.subrange(0, before.len() as int) =~= before);
}

/// In a block run with a generator, where each failed check recorded an error
/// that the generator gives for the label (`lemma_generator_overrides`), every
/// failure that the block adds to the session's log is such an error, and the
/// outcomes held before are kept.
pub proof fn lemma_session_failures_from_generator<G: ExceptionGenerator>(
    generator: G,
    label: String,
    recorded: Seq<Result<(), ConstraintError>>,
    before: Seq<Result<(), ConstraintError>>,
    after: Seq<Result<(), ConstraintError>>,
)
    requires
        after == before + recorded,
        forall|i: int|
            0 <= i < recorded.len() && (#[trigger] recorded[i]) is Err ==> generator.generates(
                label,
                recorded[i]->Err_0,
            ),
    ensures
        after.subrange(0, before.len() as int) == before,
        forall|j: int|
            before.len() <= j < after.len() && (#[trigger] after[j]) is Err ==> generator.generates(
                label,
                after[j]->Err_0,
            ),
{
    assert(after.subrange(0, before.len() as int) =~= before);
    assert forall|j: int| before.len() <= j < after.len() && (#[trigger] after[j]) is Err implies generator.generates(
        label,
        after[j]->Err_0,
    ) by {
        assert(after[j] == recorded[j - before.len()]);
    }
}

/// A validation session: the outcomes of all its scopes, in the order recorded.
///
/// Entries are only ever added at the end. Scopes borrow the session for the
/// length of their block; threads that share one session hold it behind a
/// lock, which every check then goes through.
pub struct RustrictScope {
    results: Vec<Result<(), ConstraintError>>,
}

impl RustrictScope {
    /// The outcomes recorded so far, in order.
    pub closed spec fn entries(&self) -> Seq<Result<(), ConstraintError>> {
        self.results@
    }

    /// A session with no outcomes.
    pub fn new() -> (r: RustrictScope)
        ensures
            r.entries() == Seq::<Result<(), ConstraintError>>::empty(),
    {
        RustrictScope { results: Vec::new() }
    }

    /// A copy of every outcome, in order; the errors share their functions.
    pub fn results(&self) -> (r: Vec<Result<(), ConstraintError>>)
        ensures
            log_view(r@) == log_view(self.entries()),
    {
        let mut r: Vec<Result<(), ConstraintError>> = Vec::new();
        let mut i: usize = 0;
        while i < self.results.len()
            invariant
                0 <= i <= self.results@.len(),
                r@.len() == i,
                forall|j: int|
                    0 <= j < i ==> outcome_view(#[trigger] r@[j]) == outcome_view(
                        self.results@[j],
                    ),
            decreases self.results@.len() - i,
        {
            let entry = match &self.results[i] {
                Ok(()) => Ok(()),
                Err(e) => Err(e.share()),
            };
            r.push(entry);
            i = i + 1;
        }
        assert(log_view(r@) =~= log_view(self.results@));
        r
    }

    /// The errors of the failed outcomes, in order, as owned copies.
    pub fn failures(&self) -> (r: Vec<ConstraintError>)
        ensures
            r@.map_values(|e: ConstraintError| e@) == failures_of(self.entries()),
    {
        let mut r: Vec<ConstraintError> = Vec::new();
        let mut i: usize = 0;
        while i < self.results.len()
            invariant
                0 <= i <= self.results@.len(),
                r@.map_values(|e: ConstraintError| e@) =~= failures_of(
                    self.results@.subrange(0, i as int),
                ),
            decreases self.results@.len() - i,
        {
            let ghost prefix = self.results@.subrange(0, i as int + 1);
            assert(prefix.drop_last() =~= self.results@.subrange(0, i as int));
            match &self.results[i] {
                Ok(()) => {},
                Err(e) => {
                    r.push(e.share());
                },
            }
            i = i + 1;
            assert(r@.map_values(|e: ConstraintError| e@) =~= failures_of(
                self.results@.subrange(0, i as int),
            ));
        }
        assert(self.results@.subrange(0, i as int) =~= self.results@);
        r
    }

    /// Opens a scope labelled `message`, without a generator, and runs
    /// `predicate` on it; the outcomes it records follow those already held.
    pub fn validate_string<F: FnOnce(&mut StringScope<NoGenerator>)>(
        &mut self,
        message: &str,
        predicate: F,
    )
        requires
            forall|s: &mut StringScope<NoGenerator>|
                s.label()@ == message@ && s.entries().len() == 0 && s.generator() is None
                    ==> #[trigger] predicate.requires((s,)),
        ensures
            exists|s: &mut StringScope<NoGenerator>|
                #![trigger predicate.ensures((s,), ())]
                {
                    &&& s.label()@ == message@
                    &&& s.entries().len() == 0
                    &&& s.generator() is None
                    &&& predicate.ensures((s,), ())
                    &&& final(self).entries() == old(self).entries() + final(s).entries()
                },
    {
        let mut scope: StringScope<NoGenerator> = StringScope::new(message.to_owned());
        let s = &mut scope;
        let ghost s0 = s;
        predicate(s);
        let mut added = scope.into_results();
        self.results.append(&mut added);
        assert(self.entries() == old(self).entries() + final(s0).entries());
    }

    /// Opens a scope labelled `message` whose failures are made by
    /// `exception_generator`, and runs `predicate` on it; the outcomes it
    /// records follow those already held.
    pub fn validate_string_with_custom_exception<
        G: ExceptionGenerator,
        F: FnOnce(&mut StringScope<G>),
    >(&mut self, message: &str, exception_generator: G, predicate: F)
        requires
            forall|s: &mut StringScope<G>|
                s.label()@ == message@ && s.entries().len() == 0 && s.generator() == Some(
                    exception_generator,
                ) ==> #[trigger] predicate.requires((s,)),
        ensures
            exists|s: &mut StringScope<G>|
                #![trigger predicate.ensures((s,), ())]
                {
                    &&& s.label()@ == message@
                    &&& s.entries().len() == 0
                    &&& s.generator() == Some(exception_generator)
                    &&& predicate.ensures((s,), ())
                    &&& final(self).entries() == old(self).entries() + final(s).entries()
                },
    {
        let mut scope = StringScope::new_with_exception_generator(
            message.to_owned(),
            exception_generator,
        );
        let s = &mut scope;
        let ghost s0 = s;
        predicate(s);
        let mut added = scope.into_results();
        self.results.append(&mut added);
        assert(self.entries() == old(self).entries() + final(s0).entries());
    }
}

} // verus!
