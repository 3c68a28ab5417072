//! The order in which a list of statements is run against the engine, and
//! what each answer of the engine leads to.
//!
//! The decisions are kept apart from the calls: `next_step` says, from the
//! step just taken and how it went, which step comes next. A run inside a
//! transaction commits only when every statement has succeeded, and rolls
//! back at the first that fails.

use vstd::prelude::*;

verus! {

/// One step of a run.
#[derive(Debug, Clone, Copy, PartialEq, Eq, Structural)]
pub enum Step {
    /// Start the transaction.
    Begin,
    /// Run the statement at this position of the list.
    Run(usize),
    /// Commit the transaction.
    Commit,
    /// Roll the transaction back.
    Rollback,
    /// Nothing is left to do.
    Done,
}

/// Where a run failed, with the engine's words.
#[derive(Debug, PartialEq, Eq)]
pub enum Failure {
    Begin { detail: String },
    Statement { index: usize, detail: String },
    Commit { detail: String },
}

/// The step that follows the last statement, or the statement at `index`
/// when there is one.
pub open spec fn step_at(transactional: bool, len: nat, index: nat) -> Step {
    if index < len {
        Step::Run(index as usize)
    } else if transactional {
        Step::Commit
    } else {
        Step::Done
    }
}

/// The first step of a run of `len` statements.
pub open spec fn first_step(transactional: bool, len: nat) -> Step {
    if transactional {
        Step::Begin
    } else {
        step_at(transactional, len, 0)
    }
}

/// The step that follows `step`, given whether `step` succeeded.
pub open spec fn next_step(transactional: bool, len: nat, step: Step, ok: bool) -> Step {
    match step {
        Step::Begin => if ok {
            step_at(transactional, len, 0)
        } else {
            Step::Done
        },
        Step::Run(i) => if ok {
            step_at(transactional, len, (i + 1) as nat)
        } else if transactional {
            Step::Rollback
        } else {
            Step::Done
        },
        Step::Commit => Step::Done,
        Step::Rollback => Step::Done,
        Step::Done => Step::Done,
    }
}

/// The step that is due once the steps before it have gone as `outcomes`
/// says, one entry for each step taken, in order.
pub open spec fn step_after(transactional: bool, len: nat, outcomes: Seq<bool>) -> Step
    decreases outcomes.len(),
{
    if outcomes.len() == 0 {
        first_step(transactional, len)
    } else {
        next_step(
            transactional,
            len,
            step_after(transactional, len, outcomes.drop_last()),
            outcomes.last(),
        )
    }
}

/// Every entry of `outcomes` is a success.
pub open spec fn all_succeeded(outcomes: Seq<bool>) -> bool {
    forall|i: int| 0 <= i < outcomes.len() ==> outcomes[i]
}

/// In a transaction whose steps have all succeeded so far, the step that
/// is due depends on their number alone: `Begin`, then each statement in
/// turn, then `Commit`, then nothing.
pub proof fn steps_while_succeeding(len: nat, outcomes: Seq<bool>)
    requires
        len <= usize::MAX,
        all_succeeded(outcomes),
    ensures
        step_after(true, len, outcomes) == (if outcomes.len() == 0 {
            Step::Begin
        } else if outcomes.len() <= len {
            Step::Run((outcomes.len() - 1) as usize)
        } else if outcomes.len() == len + 1 {
            Step::Commit
        } else {
            Step::Done
        }),
    decreases outcomes.len(),
{
    if outcomes.len() > 0 {
        let before = outcomes.drop_last();
        assert(all_succeeded(before)) by {
            assert forall|i: int| 0 <= i < before.len() implies before[i] by {
                assert(before[i] == outcomes[i]);
            }
        }
        steps_while_succeeding(len, before);
        assert(outcomes.last() == outcomes[outcomes.len() - 1]);
    }
}

/// Once a step has failed in a transaction, the step that is due is
/// `Rollback` right after a failed statement, and nothing otherwise: a
/// commit never follows a failure.
pub proof fn steps_after_failure(len: nat, outcomes: Seq<bool>)
    requires
        len <= usize::MAX,
        !all_succeeded(outcomes),
    ensures
        step_after(true, len, outcomes) == Step::Rollback || step_after(true, len, outcomes)
            == Step::Done,
        step_after(true, len, outcomes) == Step::Rollback <==> (!outcomes.last() && all_succeeded(
            outcomes.drop_last(),
        ) && 2 <= outcomes.len() <= len + 1),
    decreases outcomes.len(),
{
    let before = outcomes.drop_last();
    assert(outcomes.len() > 0);
    assert(outcomes.last() == outcomes[outcomes.len() - 1]);
    if all_succeeded(before) {
        steps_while_succeeding(len, before);
        assert(!outcomes.last()) by {
            if outcomes.last() {
                assert forall|i: int| 0 <= i < outcomes.len() implies outcomes[i] by {
                    if i < before.len() {
                        assert(before[i] == outcomes[i]);
                    }
                }
            }
        }
    } else {
        steps_after_failure(len, before);
    }
}

/// A transaction is atomic: `Commit` is due exactly when the transaction
/// has begun and each of its `len` statements has succeeded, and from the
/// first failure on no commit is ever due.
pub proof fn commit_needs_every_success(len: nat, outcomes: Seq<bool>)
    requires
        len <= usize::MAX,
    ensures
        step_after(true, len, outcomes) == Step::Commit <==> (outcomes.len() == len + 1
            && all_succeeded(outcomes)),
{
    if all_succeeded(outcomes) {
        steps_while_succeeding(len, outcomes);
    } else {
        steps_after_failure(len, outcomes);
    }
}

/// A run in progress: the step that is due and the failure met, if any.
#[derive(Debug, PartialEq, Eq)]
pub struct Session {
    pub transactional: bool,
    pub len: usize,
    pub due: Step,
    pub failure: Option<Failure>,
}

impl Session {
    /// The due step names a statement of the list, if it names one.
    pub open spec fn wf(&self) -> bool {
        self.due matches Step::Run(i) ==> i < self.len
    }

    /// A run of `len` statements, before its first step.
    pub fn start(transactional: bool, len: usize) -> (s: Session)
        ensures
            s.wf(),
            s.transactional == transactional,
            s.len == len,
            s.due == first_step(transactional, len as nat),
            s.failure is None,
            s == started(transactional, len),
    {
        let due = if transactional {
            Step::Begin
        } else if len > 0 {
            Step::Run(0)
        } else {
            Step::Done
        };
        Session { transactional, len, due, failure: None }
    }

    /// Records how the due step went and moves to the step that follows.
    /// A failed begin, statement or commit is kept as the run's failure;
    /// how a rollback went changes nothing.
    pub fn advance(&mut self, outcome: Result<(), String>)
        requires
            old(self).wf(),
        ensures
            final(self).wf(),
            final(self).transactional == old(self).transactional,
            final(self).len == old(self).len,
            final(self).due == next_step(
                old(self).transactional,
                old(self).len as nat,
                old(self).due,
                outcome is Ok,
            ),
            final(self).failure == (match (old(self).due, outcome) {
                (Step::Begin, Err(detail)) => Some(Failure::Begin { detail }),
                (Step::Run(index), Err(detail)) => Some(Failure::Statement { index, detail }),
                (Step::Commit, Err(detail)) => Some(Failure::Commit { detail }),
                _ => old(self).failure,
            }),
            *final(self) == advanced(*old(self), outcome),
    {
        let due = self.due;
        match due {
            Step::Begin => match outcome {
                Ok(_) => {
                    self.due = self.from(0);
                },
                Err(detail) => {
                    self.failure = Some(Failure::Begin { detail });
                    self.due = Step::Done;
                },
            },
            Step::Run(index) => match outcome {
                Ok(_) => {
                    self.due = self.from(index + 1);
                },
                Err(detail) => {
                    self.failure = Some(Failure::Statement { index, detail });
                    self.due = if self.transactional {
                        Step::Rollback
                    } else {
                        Step::Done
                    };
                },
            },
            Step::Commit => match outcome {
                Ok(_) => {
                    self.due = Step::Done;
                },
                Err(detail) => {
                    self.failure = Some(Failure::Commit { detail });
                    self.due = Step::Done;
                },
            },
            Step::Rollback => {
                self.due = Step::Done;
            },
            Step::Done => {},
        }
    }

    fn from(&self, index: usize) -> (step: Step)
        requires
            index <= self.len,
        ensures
            step == step_at(self.transactional, self.len as nat, index as nat),
    {
        if index < self.len {
            Step::Run(index)
        } else if self.transactional {
            Step::Commit
        } else {
            Step::Done
        }
    }

    /// How the run ended: the failure that was met, or success.
    pub fn verdict(self) -> (r: Result<(), Failure>)
        ensures
            r == verdict_of(self),
    {
        match self.failure {
            Some(f) => Err(f),
            None => Ok(()),
        }
    }
}

/// A session of `len` statements before its first step.
pub open spec fn started(transactional: bool, len: usize) -> Session {
    Session { transactional, len, due: first_step(transactional, len as nat), failure: None }
}

/// The session after its due step has gone as `outcome` says: the step
/// that follows is due, and a failed begin, statement or commit is kept
/// as the run's failure.
pub open spec fn advanced(s: Session, outcome: Result<(), String>) -> Session {
    Session {
        transactional: s.transactional,
        len: s.len,
        due: next_step(s.transactional, s.len as nat, s.due, outcome is Ok),
        failure: match (s.due, outcome) {
            (Step::Begin, Err(detail)) => Some(Failure::Begin { detail }),
            (Step::Run(index), Err(detail)) => Some(Failure::Statement { index, detail }),
            (Step::Commit, Err(detail)) => Some(Failure::Commit { detail }),
            _ => s.failure,
        },
    }
}

/// The session `s` after further steps have gone as `outcomes` says, one
/// entry for each step taken, in order.
pub open spec fn carried_on(s: Session, outcomes: Seq<Result<(), String>>) -> Session
    decreases outcomes.len(),
{
    if outcomes.len() == 0 {
        s
    } else {
        advanced(carried_on(s, outcomes.drop_last()), outcomes.last())
    }
}

/// How a session ended: the failure that was met, or success.
pub open spec fn verdict_of(s: Session) -> Result<(), Failure> {
    match s.failure {
        Some(f) => Err(f),
        None => Ok(()),
    }
}

/// `s` is where the session that began as `start` stands after steps that
/// went as `outcomes` says, none of them taken when nothing was due.
pub open spec fn in_course(start: Session, outcomes: Seq<Result<(), String>>, s: Session) -> bool {
    &&& s == carried_on(start, outcomes)
    &&& forall|k: int|
        0 <= k < outcomes.len() ==> carried_on(start, #[trigger] outcomes.take(k)).due
            != Step::Done
}

/// `r` is the verdict of a whole run of `len` statements whose steps went
/// as `outcomes` says: every step was taken in its turn, one entry for
/// each, until nothing was due.
pub open spec fn ran(
    transactional: bool,
    len: usize,
    outcomes: Seq<Result<(), String>>,
    r: Result<(), Failure>,
) -> bool {
    let end = carried_on(started(transactional, len), outcomes);
    &&& in_course(started(transactional, len), outcomes, end)
    &&& end.due == Step::Done
    &&& r == verdict_of(end)
}

/// One more step, taken while something is due, carries the course on.
pub proof fn in_course_push(
    start: Session,
    outcomes: Seq<Result<(), String>>,
    s: Session,
    outcome: Result<(), String>,
)
    requires
        in_course(start, outcomes, s),
        s.due != Step::Done,
    ensures
        in_course(start, outcomes.push(outcome), advanced(s, outcome)),
{
    let longer = outcomes.push(outcome);
    assert(longer.drop_last() =~= outcomes);
    assert(longer.last() == outcome);
    assert forall|k: int| 0 <= k < longer.len() implies carried_on(
        start,
        #[trigger] longer.take(k),
    ).due != Step::Done by {
        if k < outcomes.len() {
            assert(longer.take(k) =~= outcomes.take(k));
        } else {
            assert(longer.take(k) =~= outcomes);
        }
    }
}

/// Which entries of `outcomes` are successes.
pub open spec fn successes(outcomes: Seq<Result<(), String>>) -> Seq<bool> {
    Seq::new(outcomes.len(), |i: int| outcomes[i] is Ok)
}

/// The step that is due in a session depends on which of its steps
/// succeeded alone: it is the step that `step_after` names.
pub proof fn session_follows_steps(
    transactional: bool,
    len: usize,
    outcomes: Seq<Result<(), String>>,
)
    ensures
        carried_on(started(transactional, len), outcomes).due == step_after(
            transactional,
            len as nat,
            successes(outcomes),
        ),
        carried_on(started(transactional, len), outcomes).transactional == transactional,
        carried_on(started(transactional, len), outcomes).len == len,
    decreases outcomes.len(),
{
    if outcomes.len() > 0 {
        session_follows_steps(transactional, len, outcomes.drop_last());
        assert(successes(outcomes).drop_last() =~= successes(outcomes.drop_last()));
        assert(successes(outcomes).last() == (outcomes.last() is Ok));
    } else {
        assert(successes(outcomes).len() == 0);
    }
}

/// The part of a course up to any point is a course.
pub proof fn in_course_prefix(start: Session, outcomes: Seq<Result<(), String>>, n: int)
    requires
        in_course(start, outcomes, carried_on(start, outcomes)),
        0 <= n <= outcomes.len(),
    ensures
        in_course(start, outcomes.take(n), carried_on(start, outcomes.take(n))),
{
    let part = outcomes.take(n);
    assert forall|k: int| 0 <= k < part.len() implies carried_on(start, #[trigger] part.take(k)).due
        != Step::Done by {
        assert(part.take(k) =~= outcomes.take(k));
    }
}

/// In the course of a transaction, no failure has been met exactly as
/// long as every step has succeeded.
pub proof fn failure_means_a_failed_step(len: usize, outcomes: Seq<Result<(), String>>)
    requires
        in_course(started(true, len), outcomes, carried_on(started(true, len), outcomes)),
    ensures
        carried_on(started(true, len), outcomes).failure is None <==> all_succeeded(
            successes(outcomes),
        ),
    decreases outcomes.len(),
{
    let start = started(true, len);
    if outcomes.len() > 0 {
        let before = outcomes.drop_last();
        assert(before =~= outcomes.take(outcomes.len() - 1));
        in_course_prefix(start, outcomes, outcomes.len() - 1);
        failure_means_a_failed_step(len, before);
        session_follows_steps(true, len, before);
        let s = carried_on(start, before);
        assert(s.due != Step::Done);
        assert(successes(outcomes).drop_last() =~= successes(before));
        assert(successes(outcomes).last() == (outcomes.last() is Ok));
        if all_succeeded(successes(before)) {
            steps_while_succeeding(len as nat, successes(before));
            if outcomes.last() is Ok {
                assert forall|i: int| 0 <= i < successes(outcomes).len() implies successes(
                    outcomes,
                )[i] by {
                    if i < before.len() {
                        assert(successes(before)[i]);
                    }
                }
            } else {
                assert(!successes(outcomes)[outcomes.len() - 1]);
            }
        } else {
            let i = choose|i: int| 0 <= i < successes(before).len() && !successes(before)[i];
            assert(!successes(outcomes)[i]);
        }
    }
}

/// A transaction is atomic: a run ends in success exactly when the
/// transaction was begun, each of its `len` statements went through and
/// the commit succeeded, which are `len + 2` steps and no more. Any other
/// run ends in the failure that was met, and took no commit after it.
pub proof fn transaction_succeeds_when_every_step_does(
    len: usize,
    outcomes: Seq<Result<(), String>>,
    r: Result<(), Failure>,
)
    requires
        ran(true, len, outcomes, r),
    ensures
        r is Ok <==> (outcomes.len() == len + 2 && all_succeeded(successes(outcomes))),
{
    let start = started(true, len);
    failure_means_a_failed_step(len, outcomes);
    session_follows_steps(true, len, outcomes);
    if all_succeeded(successes(outcomes)) {
        steps_while_succeeding(len as nat, successes(outcomes));
        if outcomes.len() > len + 2 {
            let part = outcomes.take(len + 2);
            session_follows_steps(true, len, part);
            assert(successes(part) =~= successes(outcomes).take(len + 2));
            assert(all_succeeded(successes(part))) by {
                assert forall|i: int| 0 <= i < successes(part).len() implies successes(part)[i] by {
                    assert(successes(outcomes)[i]);
                }
            }
            steps_while_succeeding(len as nat, successes(part));
        }
    }
}

/// Outside a transaction, as long as every statement has succeeded, the
/// step that is due is the next statement, and nothing after the last.
pub proof fn plain_steps_while_succeeding(len: nat, outcomes: Seq<bool>)
    requires
        len <= usize::MAX,
        all_succeeded(outcomes),
    ensures
        step_after(false, len, outcomes) == (if outcomes.len() < len {
            Step::Run(outcomes.len() as usize)
        } else {
            Step::Done
        }),
    decreases outcomes.len(),
{
    if outcomes.len() > 0 {
        let before = outcomes.drop_last();
        assert(all_succeeded(before)) by {
            assert forall|i: int| 0 <= i < before.len() implies before[i] by {
                assert(before[i] == outcomes[i]);
            }
        }
        plain_steps_while_succeeding(len, before);
        assert(outcomes.last() == outcomes[outcomes.len() - 1]);
    }
}

/// In the course of a run outside a transaction, no failure has been met
/// exactly as long as every statement has succeeded.
pub proof fn plain_failure_means_a_failed_statement(
    len: usize,
    outcomes: Seq<Result<(), String>>,
)
    requires
        in_course(started(false, len), outcomes, carried_on(started(false, len), outcomes)),
    ensures
        carried_on(started(false, len), outcomes).failure is None <==> all_succeeded(
            successes(outcomes),
        ),
    decreases outcomes.len(),
{
    let start = started(false, len);
    if outcomes.len() > 0 {
        let before = outcomes.drop_last();
        assert(before =~= outcomes.take(outcomes.len() - 1));
        in_course_prefix(start, outcomes, outcomes.len() - 1);
        plain_failure_means_a_failed_statement(len, before);
        session_follows_steps(false, len, before);
        let s = carried_on(start, before);
        assert(s.due != Step::Done);
        assert(successes(outcomes).drop_last() =~= successes(before));
        assert(successes(outcomes).last() == (outcomes.last() is Ok));
        if all_succeeded(successes(before)) {
            plain_steps_while_succeeding(len as nat, successes(before));
            if outcomes.last() is Ok {
                assert forall|i: int| 0 <= i < successes(outcomes).len() implies successes(
                    outcomes,
                )[i] by {
                    if i < before.len() {
                        assert(successes(before)[i]);
                    }
                }
            } else {
                assert(!successes(outcomes)[outcomes.len() - 1]);
            }
        } else {
            let i = choose|i: int| 0 <= i < successes(before).len() && !successes(before)[i];
            assert(!successes(outcomes)[i]);
        }
    }
}

/// Outside a transaction, a run ends in success exactly when each of its
/// `len` statements was run and succeeded; any other run ends at its
/// first failure.
pub proof fn plain_run_succeeds_when_every_statement_does(
    len: usize,
    outcomes: Seq<Result<(), String>>,
    r: Result<(), Failure>,
)
    requires
        ran(false, len, outcomes, r),
    ensures
        r is Ok <==> (outcomes.len() == len && all_succeeded(successes(outcomes))),
        r is Err ==> !successes(outcomes).last() && all_succeeded(successes(outcomes).drop_last()),
{
    let start = started(false, len);
    plain_failure_means_a_failed_statement(len, outcomes);
    session_follows_steps(false, len, outcomes);
    if all_succeeded(successes(outcomes)) {
        plain_steps_while_succeeding(len as nat, successes(outcomes));
        if outcomes.len() > len {
            let part = outcomes.take(len as int);
            session_follows_steps(false, len, part);
            assert(successes(part) =~= successes(outcomes).take(len as int));
            assert(all_succeeded(successes(part))) by {
                assert forall|i: int| 0 <= i < successes(part).len() implies successes(part)[i] by {
                    assert(successes(outcomes)[i]);
                }
            }
            plain_steps_while_succeeding(len as nat, successes(part));
        }
    } else {
        // The failure is the last step: a run outside a transaction ends
        // at its first failure.
        let before = outcomes.drop_last();
        assert(outcomes.len() > 0);
        assert(before =~= outcomes.take(outcomes.len() - 1));
        in_course_prefix(start, outcomes, outcomes.len() - 1);
        plain_failure_means_a_failed_statement(len, before);
        session_follows_steps(false, len, before);
        assert(successes(outcomes).drop_last() =~= successes(before));
        if !all_succeeded(successes(before)) {
            // A failure before the last step would have ended the run
            // there.
            plain_run_ends_at_failure(len, before);
        } else if successes(outcomes).last() {
            assert forall|i: int| 0 <= i < successes(outcomes).len() implies successes(
                outcomes,
            )[i] by {
                if i < before.len() {
                    assert(successes(before)[i]);
                }
            }
        }
    }
}

/// Outside a transaction, nothing is due once a statement has failed.
pub proof fn plain_run_ends_at_failure(len: usize, outcomes: Seq<Result<(), String>>)
    requires
        in_course(started(false, len), outcomes, carried_on(started(false, len), outcomes)),
        !all_succeeded(successes(outcomes)),
    ensures
        carried_on(started(false, len), outcomes).due == Step::Done,
    decreases outcomes.len(),
{
    let start = started(false, len);
    let before = outcomes.drop_last();
    assert(outcomes.len() > 0);
    assert(before =~= outcomes.take(outcomes.len() - 1));
    in_course_prefix(start, outcomes, outcomes.len() - 1);
    session_follows_steps(false, len, before);
    session_follows_steps(false, len, outcomes);
    assert(successes(outcomes).drop_last() =~= successes(before));
    assert(successes(outcomes).last() == (outcomes.last() is Ok));
    if all_succeeded(successes(before)) {
        plain_steps_while_succeeding(len as nat, successes(before));
        if outcomes.last() is Ok {
            assert forall|i: int| 0 <= i < successes(outcomes).len() implies successes(
                outcomes,
            )[i] by {
                if i < before.len() {
                    assert(successes(before)[i]);
                }
            }
        }
    } else {
        plain_run_ends_at_failure(len, before);
    }
}

} // verus!
