//! Workers: the units of repeated work that a run schedules concurrently.
//!
//! A worker here is the bookkeeping of one such unit. The caller executes
//! the statements and reports each outcome; the worker decides whether
//! another statement is due, counts, and says what is worth logging.

use vstd::prelude::*;

verus! {

/// The number of iterations between two progress reports of a worker that
/// runs `iterations` times: a hundredth of them, and never less than one.
pub open spec fn progress_step(iterations: nat) -> nat {
    if iterations >= 100 {
        iterations / 100
    } else {
        1
    }
}

/// The number of iterations between two progress reports.
pub fn progress_interval(iterations: u32) -> (step: u32)
    ensures
        step == progress_step(iterations as nat),
        step >= 1,
{
    if iterations >= 100 {
        iterations / 100
    } else {
        1
    }
}

/// The share of `total` that `done` makes up, in whole percent, rounded
/// down.
pub fn progress_percent(done: u32, total: u32) -> (percent: u32)
    requires
        total > 0,
        done <= total,
    ensures
        percent == (done * 100) / (total as int),
        percent <= 100,
{
    let scaled: u64 = (done as u64) * 100;
    let share: u64 = scaled / (total as u64);
    assert(share <= 100) by (nonlinear_arith)
        requires
            share == (done * 100) / (total as int),
            done <= total,
            total > 0,
    ;
    share as u32
}

/// The number of `true` entries in `outcomes`.
pub open spec fn count_successes(outcomes: Seq<bool>) -> nat
    decreases outcomes.len(),
{
    if outcomes.len() == 0 {
        0
    } else {
        count_successes(outcomes.drop_last()) + if outcomes.last() {
            1nat
        } else {
            0nat
        }
    }
}

/// What is known of a bounded worker: how often it is to run, how often it
/// has run, and how often with success.
pub struct BoundedProgress {
    pub iterations: nat,
    pub attempted: nat,
    pub succeeded: nat,
    pub verbose: bool,
}

impl BoundedProgress {
    /// A worker that has not run yet.
    pub open spec fn start(iterations: nat, verbose: bool) -> Self {
        BoundedProgress { iterations, attempted: 0, succeeded: 0, verbose }
    }

    /// Whether every planned iteration has been made.
    pub open spec fn finished(self) -> bool {
        self.attempted >= self.iterations
    }

    /// The worker after one more iteration that ended as `ok` says.
    pub open spec fn record(self, ok: bool) -> Self {
        BoundedProgress {
            attempted: self.attempted + 1,
            succeeded: if ok {
                self.succeeded + 1
            } else {
                self.succeeded
            },
            ..self
        }
    }

    /// The worker after iterations that ended as `outcomes` say, in order.
    pub open spec fn after(self, outcomes: Seq<bool>) -> Self
        decreases outcomes.len(),
    {
        if outcomes.len() == 0 {
            self
        } else {
            self.after(outcomes.drop_last()).record(outcomes.last())
        }
    }

    /// Whether the iteration that was just recorded ends a progress step.
    pub open spec fn at_progress_mark(self) -> bool {
        self.attempted % progress_step(self.iterations) == 0
    }
}

/// What the caller should log after one iteration of a bounded worker.
#[derive(Clone, Copy, Debug, PartialEq, Eq, Structural)]
pub struct IterationReport {
    /// The number of the iteration, counted from zero.
    pub iteration: u32,
    /// The statement failed and the worker was asked to show failures.
    pub failure: bool,
    /// The iteration ends a progress step.
    pub progress: bool,
}

/// A worker that runs a fixed number of iterations and counts those that
/// succeed. A failed iteration is counted as attempted and nothing more:
/// it never ends the worker.
pub struct BoundedWorker {
    iterations: u32,
    attempted: u32,
    succeeded: u32,
    verbose: bool,
}

impl View for BoundedWorker {
    type V = BoundedProgress;

    closed spec fn view(&self) -> BoundedProgress {
        BoundedProgress {
            iterations: self.iterations as nat,
            attempted: self.attempted as nat,
            succeeded: self.succeeded as nat,
            verbose: self.verbose,
        }
    }
}

impl BoundedWorker {
    #[verifier::type_invariant]
    spec fn well_formed(self) -> bool {
        self.succeeded <= self.attempted <= self.iterations
    }

    /// A worker that is to run `iterations` times. With `verbose` set it
    /// asks for every failed statement to be logged.
    pub fn new(iterations: u32, verbose: bool) -> (worker: Self)
        ensures
            worker@ == BoundedProgress::start(iterations as nat, verbose),
    {
        BoundedWorker { iterations, attempted: 0, succeeded: 0, verbose }
    }

    /// Whether the worker has made all its iterations.
    pub fn is_finished(&self) -> (done: bool)
        ensures
            done == self@.finished(),
    {
        proof {
            use_type_invariant(self);
        }
        self.attempted == self.iterations
    }

    /// Takes note of one iteration that ended as `ok` says.
    pub fn record(&mut self, ok: bool) -> (report: IterationReport)
        requires
            !old(self)@.finished(),
        ensures
            final(self)@ == old(self)@.record(ok),
            report.iteration == old(self)@.attempted,
            report.failure == (!ok && old(self)@.verbose),
            report.progress == final(self)@.at_progress_mark(),
    {
        proof {
            use_type_invariant(&*self);
        }
        let iteration = self.attempted;
        let step = progress_interval(self.iterations);
        let succeeded = if ok {
            self.succeeded + 1
        } else {
            self.succeeded
        };
        *self = BoundedWorker {
            iterations: self.iterations,
            attempted: iteration + 1,
            succeeded,
            verbose: self.verbose,
        };
        IterationReport {
            iteration,
            failure: !ok && self.verbose,
            progress: (iteration + 1) % step == 0,
        }
    }

    /// The number of iterations the worker is to make.
    pub fn iterations(&self) -> (n: u32)
        ensures
            n == self@.iterations,
    {
        self.iterations
    }

    /// The number of iterations made so far.
    pub fn attempted(&self) -> (n: u32)
        ensures
            n == self@.attempted,
    {
        self.attempted
    }

    /// The number of iterations that succeeded so far.
    pub fn successes(&self) -> (n: u32)
        ensures
            n == self@.succeeded,
    {
        self.succeeded
    }
}

/// A worker counts exactly the iterations that succeeded: after any
/// sequence of outcomes it has attempted as many iterations as there are
/// outcomes, and its tally is the number of successes among them.
pub proof fn lemma_bounded_tally(start: BoundedProgress, outcomes: Seq<bool>)
    ensures
        start.after(outcomes).iterations == start.iterations,
        start.after(outcomes).verbose == start.verbose,
        start.after(outcomes).attempted == start.attempted + outcomes.len(),
        start.after(outcomes).succeeded == start.succeeded + count_successes(outcomes),
        count_successes(outcomes) <= outcomes.len(),
    decreases outcomes.len(),
{
    if outcomes.len() > 0 {
        lemma_bounded_tally(start, outcomes.drop_last());
    }
}

/// A worker is finished exactly when it has seen as many outcomes as it has
/// iterations; until then it is not.
pub proof fn lemma_bounded_finishes(iterations: nat, verbose: bool, outcomes: Seq<bool>)
    requires
        outcomes.len() <= iterations,
    ensures
        BoundedProgress::start(iterations, verbose).after(outcomes).finished() <==> outcomes.len()
            == iterations,
{
    lemma_bounded_tally(BoundedProgress::start(iterations, verbose), outcomes);
}

/// A worker with no iterations is finished before it runs: it asks for no
/// statement and its tally is zero.
pub proof fn lemma_zero_iterations(verbose: bool)
    ensures
        BoundedProgress::start(0, verbose).finished(),
        BoundedProgress::start(0, verbose).succeeded == 0,
        BoundedProgress::start(0, verbose).attempted == 0,
{
}

/// What is known of an unbounded worker. Such a worker repeats a round of
/// `round_len` statements until it is told to stop; it looks at the
/// shutdown flag between two rounds and nowhere else.
pub struct UnboundedProgress {
    /// The number of statements in one round; at least one.
    pub round_len: nat,
    /// Whether the worker keeps count of its statements.
    pub counted: bool,
    /// The statement of the round that is due next.
    pub position: nat,
    /// A statement has been handed out and its outcome is awaited.
    pub busy: bool,
    /// The worker has seen the shutdown flag raised and has left its loop.
    pub stopped: bool,
    /// The number of statements executed, if counted.
    pub attempted: nat,
    /// The number of statements that succeeded, if counted.
    pub succeeded: nat,
}

impl UnboundedProgress {
    /// A worker that has not run yet.
    pub open spec fn start(round_len: nat, counted: bool) -> Self {
        UnboundedProgress {
            round_len,
            counted,
            position: 0,
            busy: false,
            stopped: false,
            attempted: 0,
            succeeded: 0,
        }
    }

    /// Whether a look at the flag, which reads `stop_requested`, ends the
    /// worker: it does so between two rounds if the flag is raised, and
    /// always once the worker has stopped.
    pub open spec fn leaves(self, stop_requested: bool) -> bool {
        self.stopped || (self.position == 0 && stop_requested)
    }

    /// The worker after it was asked for its next statement.
    pub open spec fn poll(self, stop_requested: bool) -> Self {
        if self.leaves(stop_requested) {
            UnboundedProgress { stopped: true, ..self }
        } else {
            UnboundedProgress { busy: true, ..self }
        }
    }

    /// The worker after the statement in flight ended as `ok` says.
    pub open spec fn record(self, ok: bool) -> Self {
        UnboundedProgress {
            busy: false,
            position: if self.position + 1 == self.round_len {
                0
            } else {
                self.position + 1
            },
            attempted: if self.counted {
                self.attempted + 1
            } else {
                self.attempted
            },
            succeeded: if self.counted && ok {
                self.succeeded + 1
            } else {
                self.succeeded
            },
            ..self
        }
    }
}

/// A worker that repeats a round of statements until the shutdown flag is
/// raised. The flag is polled once per round, before its first statement;
/// a round that has begun is completed. A statement that fails is counted
/// and the loop goes on.
pub struct UnboundedWorker {
    round_len: usize,
    counted: bool,
    position: usize,
    busy: bool,
    stopped: bool,
    attempted: u32,
    succeeded: u32,
}

impl View for UnboundedWorker {
    type V = UnboundedProgress;

    closed spec fn view(&self) -> UnboundedProgress {
        UnboundedProgress {
            round_len: self.round_len as nat,
            counted: self.counted,
            position: self.position as nat,
            busy: self.busy,
            stopped: self.stopped,
            attempted: self.attempted as nat,
            succeeded: self.succeeded as nat,
        }
    }
}

impl UnboundedWorker {
    #[verifier::type_invariant]
    spec fn well_formed(self) -> bool {
        &&& self.position < self.round_len
        &&& self.succeeded <= self.attempted
        &&& !(self.busy && self.stopped)
    }

    /// A worker whose round has `round_len` statements. With `counted` set
    /// it keeps count of the statements it executes and of their successes.
    pub fn new(round_len: usize, counted: bool) -> (worker: Self)
        requires
            round_len >= 1,
        ensures
            worker@ == UnboundedProgress::start(round_len as nat, counted),
    {
        UnboundedWorker {
            round_len,
            counted,
            position: 0,
            busy: false,
            stopped: false,
            attempted: 0,
            succeeded: 0,
        }
    }

    /// The statement of the round to execute now, or `None` if the worker
    /// leaves its loop. `stop_requested` is what a look at the shutdown flag
    /// gave; it counts only between two rounds.
    pub fn next(&mut self, stop_requested: bool) -> (statement: Option<usize>)
        requires
            !old(self)@.busy,
        ensures
            final(self)@ == old(self)@.poll(stop_requested),
            match statement {
                None => old(self)@.leaves(stop_requested),
                Some(i) => !old(self)@.leaves(stop_requested) && i == old(self)@.position && i
                    < old(self)@.round_len,
            },
    {
        proof {
            use_type_invariant(&*self);
        }
        if self.stopped || (self.position == 0 && stop_requested) {
            self.stopped = true;
            None
        } else {
            self.busy = true;
            Some(self.position)
        }
    }

    /// Takes note of the outcome of the statement in flight.
    pub fn record(&mut self, ok: bool)
        requires
            old(self)@.busy,
            old(self)@.counted ==> old(self)@.attempted < u32::MAX,
        ensures
            final(self)@ == old(self)@.record(ok),
    {
        proof {
            use_type_invariant(&*self);
        }
        let position = if self.position + 1 == self.round_len {
            0
        } else {
            self.position + 1
        };
        let attempted = if self.counted {
            self.attempted + 1
        } else {
            self.attempted
        };
        let succeeded = if self.counted && ok {
            self.succeeded + 1
        } else {
            self.succeeded
        };
        *self = UnboundedWorker {
            round_len: self.round_len,
            counted: self.counted,
            position,
            busy: false,
            stopped: self.stopped,
            attempted,
            succeeded,
        };
    }

    /// Whether the worker has left its loop.
    pub fn is_stopped(&self) -> (stopped: bool)
        ensures
            stopped == self@.stopped,
    {
        self.stopped
    }

    /// Whether a statement is in flight.
    pub fn is_busy(&self) -> (busy: bool)
        ensures
            busy == self@.busy,
    {
        self.busy
    }

    /// The number of statements executed so far, if the worker counts.
    pub fn attempted(&self) -> (n: u32)
        ensures
            n == self@.attempted,
    {
        self.attempted
    }

    /// The number of statements that succeeded so far, if the worker counts.
    pub fn successes(&self) -> (n: u32)
        ensures
            n == self@.succeeded,
    {
        self.succeeded
    }

    /// Whether the statements executed so far are a multiple of `every`.
    pub fn at_report_mark(&self, every: u32) -> (due: bool)
        requires
            every > 0,
        ensures
            due == (self@.attempted % (every as nat) == 0),
    {
        self.attempted % every == 0
    }
}

/// Shutdown is final: a worker that has stopped hands out no statement
/// again, whatever the flag reads, and stays as it is.
pub proof fn lemma_stopped_is_final(worker: UnboundedProgress, stop_requested: bool)
    requires
        worker.stopped,
    ensures
        worker.leaves(stop_requested),
        worker.poll(stop_requested) == worker,
{
}

/// Shutdown is cooperative: within a round the flag is not consulted, so a
/// round that has begun is completed.
pub proof fn lemma_round_is_completed(worker: UnboundedProgress, stop_requested: bool)
    requires
        !worker.stopped,
        worker.position > 0,
    ensures
        !worker.leaves(stop_requested),
        worker.poll(stop_requested).busy,
{
}

/// A failed statement never ends an unbounded worker: after it the worker
/// is as ready to go on as after a success, and only its tally differs.
pub proof fn lemma_failure_is_not_final(worker: UnboundedProgress)
    ensures
        worker.record(false).stopped == worker.stopped,
        worker.record(false).position == worker.record(true).position,
        worker.record(false).attempted == worker.record(true).attempted,
        worker.record(false).succeeded == worker.succeeded,
{
}

} // verus!
