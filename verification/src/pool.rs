//! The worker pool's bookkeeping: how the ends of the workers of one phase
//! fold into one tally.

use vstd::prelude::*;

verus! {

/// How a worker ended, as the join of its task tells.
#[derive(Clone, Copy, Debug, PartialEq, Eq, Structural)]
pub enum JoinOutcome {
    /// The worker ran to its end and reports this many successes.
    Finished(u32),
    /// The worker gave up with an error of its own, such as a connection
    /// that could not be opened.
    Failed,
    /// The worker's task panicked or was cancelled.
    Aborted,
}

/// The worker at fault when a phase cannot be joined.
#[derive(Clone, Copy, Debug, PartialEq, Eq, Structural)]
pub struct WorkerFault {
    /// The place of the worker among those joined.
    pub worker: usize,
    /// How it ended: `Failed` or `Aborted`.
    pub outcome: JoinOutcome,
}

/// The successes that `outcome` reports; none unless the worker finished.
pub open spec fn successes_of(outcome: JoinOutcome) -> nat {
    match outcome {
        JoinOutcome::Finished(n) => n as nat,
        _ => 0,
    }
}

/// The sum of the successes that `outcomes` report.
pub open spec fn total_successes(outcomes: Seq<JoinOutcome>) -> nat
    decreases outcomes.len(),
{
    if outcomes.len() == 0 {
        0
    } else {
        total_successes(outcomes.drop_last()) + successes_of(outcomes.last())
    }
}

/// Whether every worker of `outcomes` finished.
pub open spec fn all_finished(outcomes: Seq<JoinOutcome>) -> bool {
    forall|i: int| 0 <= i < outcomes.len() ==> #[trigger] outcomes[i] is Finished
}

/// Whether `worker` is the first of `outcomes` that did not finish.
pub open spec fn is_first_fault(outcomes: Seq<JoinOutcome>, worker: int) -> bool {
    &&& 0 <= worker < outcomes.len()
    &&& !(outcomes[worker] is Finished)
    &&& forall|i: int| 0 <= i < worker ==> #[trigger] outcomes[i] is Finished
}

/// The tally of a longer list of workers is at least that of a part of it.
pub proof fn lemma_total_grows(outcomes: Seq<JoinOutcome>, n: int)
    requires
        0 <= n <= outcomes.len(),
    ensures
        total_successes(outcomes.take(n)) <= total_successes(outcomes),
    decreases outcomes.len(),
{
    if n == outcomes.len() {
        assert(outcomes.take(n) =~= outcomes);
    } else {
        lemma_total_grows(outcomes.drop_last(), n);
        assert(outcomes.drop_last().take(n) =~= outcomes.take(n));
    }
}

/// Joins the workers of one phase. If all of them finished, the result is
/// the sum of their tallies. If one did not, the phase has failed, and the
/// result names the first such worker: a worker that broke down is a fault
/// of the run and is never passed over.
pub fn join_all(outcomes: &Vec<JoinOutcome>) -> (joined: Result<u32, WorkerFault>)
    requires
        total_successes(outcomes@) <= u32::MAX,
    ensures
        match joined {
            Ok(total) => all_finished(outcomes@) && total == total_successes(outcomes@),
            Err(fault) => is_first_fault(outcomes@, fault.worker as int) && fault.outcome
                == outcomes@[fault.worker as int],
        },
{
    let mut total: u32 = 0;
    let mut i: usize = 0;
    while i < outcomes.len()
        invariant
            i <= outcomes.len(),
            total == total_successes(outcomes@.take(i as int)),
            total_successes(outcomes@) <= u32::MAX,
            forall|k: int| 0 <= k < i ==> #[trigger] outcomes@[k] is Finished,
        decreases outcomes.len() - i,
    {
        proof {
            assert(outcomes@.take(i + 1).drop_last() =~= outcomes@.take(i as int));
            lemma_total_grows(outcomes@, i + 1);
        }
        match outcomes[i] {
            JoinOutcome::Finished(n) => {
                total = total + n;
            },
            other => {
                return Err(WorkerFault { worker: i, outcome: other });
            },
        }
        i = i + 1;
    }
    proof {
        assert(outcomes@.take(i as int) =~= outcomes@);
    }
    Ok(total)
}

/// Whether the tallies of `outcomes` add up to a number that a tally can
/// hold, which is what [`join_all`] asks of its caller.
pub fn tally_fits(outcomes: &Vec<JoinOutcome>) -> (fits: bool)
    ensures
        fits == (total_successes(outcomes@) <= u32::MAX),
{
    let mut total: u64 = 0;
    let mut i: usize = 0;
    while i < outcomes.len()
        invariant
            i <= outcomes.len(),
            total == total_successes(outcomes@.take(i as int)),
            total <= u32::MAX,
        decreases outcomes.len() - i,
    {
        proof {
            assert(outcomes@.take(i + 1).drop_last() =~= outcomes@.take(i as int));
            lemma_total_grows(outcomes@, i + 1);
        }
        if let JoinOutcome::Finished(n) = outcomes[i] {
            total = total + n as u64;
            if total > u32::MAX as u64 {
                return false;
            }
        }
        i = i + 1;
    }
    proof {
        assert(outcomes@.take(i as int) =~= outcomes@);
    }
    true
}

/// Workers that made no iteration add nothing: a phase whose workers all
/// finished with a tally of zero has a tally of zero.
pub proof fn lemma_idle_workers_tally_zero(outcomes: Seq<JoinOutcome>)
    requires
        forall|i: int| 0 <= i < outcomes.len() ==> #[trigger] outcomes[i] == JoinOutcome::Finished(0),
    ensures
        all_finished(outcomes),
        total_successes(outcomes) == 0,
    decreases outcomes.len(),
{
    if outcomes.len() > 0 {
        lemma_idle_workers_tally_zero(outcomes.drop_last());
    }
}

/// The tally of a phase is bounded by its plan: if no worker reports more
/// successes than it had iterations, the workers together report no more
/// than their number times the iterations of each.
pub proof fn lemma_tally_is_bounded(outcomes: Seq<JoinOutcome>, iterations: nat)
    requires
        forall|i: int| 0 <= i < outcomes.len() ==> successes_of(#[trigger] outcomes[i]) <= iterations,
    ensures
        total_successes(outcomes) <= outcomes.len() * iterations,
    decreases outcomes.len(),
{
    if outcomes.len() > 0 {
        let shorter = outcomes.drop_last();
        lemma_tally_is_bounded(shorter, iterations);
        assert(successes_of(outcomes[outcomes.len() - 1]) <= iterations);
        assert(shorter.len() * iterations + iterations == outcomes.len() * iterations)
            by (nonlinear_arith)
            requires
                shorter.len() + 1 == outcomes.len(),
        ;
    }
}

} // verus!
