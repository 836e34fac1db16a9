//! The course of one run: the phases a scenario goes through, in the one
//! order in which it may go through them.
//!
//! The caller does the work of each phase and reports how it ended. The run
//! accepts a report only for the phase it is in, so that no phase can be
//! skipped or repeated: the bounded workers are joined before the shutdown
//! flag is raised, the flag is raised before the unbounded workers are
//! joined, they are joined before the drain, and the drain is done before
//! anything is verified.

use vstd::prelude::*;
use crate::pool::{all_finished, join_all, total_successes, JoinOutcome};
use crate::shutdown::{ShutdownSignal, ShutdownWatch};
use crate::verification::{evaluate, violations_of, VerificationAssertion, VerificationReport};

verus! {

/// The phases of a run, in their order.
#[derive(Clone, Copy, Debug, PartialEq, Eq, Structural)]
pub enum Phase {
    /// The schema is dropped and created anew.
    Setup,
    /// The unbounded workers are spawned.
    StartBackground,
    /// What the bounded workers need is created while the unbounded ones
    /// are at work.
    Prepare,
    /// The bounded workers are spawned.
    StartBounded,
    /// The bounded workers are joined and their successes added up.
    AwaitBounded,
    /// The shutdown flag is raised.
    SignalShutdown,
    /// The unbounded workers are joined.
    AwaitBackground,
    /// What is left unconsumed is consumed, once and in sequence.
    Drain,
    /// The final state is checked.
    Verify,
    /// The run has passed.
    Done,
}

/// Why a run failed.
#[derive(Clone, Copy, Debug, PartialEq, Eq, Structural)]
pub enum RunFailure {
    /// Setup, a connection or a statement outside of a worker's loop failed.
    Fatal,
    /// A worker broke down: the fault lies with the run, not with the store.
    Defect,
    /// The final state breaks an invariant.
    Violation,
}

/// A report that the run did not accept, because it was not for the phase
/// the run is in, or because the run is over.
#[derive(Clone, Copy, Debug, PartialEq, Eq, Structural)]
pub struct OutOfOrder {
    /// The phase the run is in.
    pub phase: Phase,
    /// Whether the run is over.
    pub over: bool,
}

/// The place of a phase in the order of phases.
pub open spec fn rank(phase: Phase) -> nat {
    match phase {
        Phase::Setup => 0,
        Phase::StartBackground => 1,
        Phase::Prepare => 2,
        Phase::StartBounded => 3,
        Phase::AwaitBounded => 4,
        Phase::SignalShutdown => 5,
        Phase::AwaitBackground => 6,
        Phase::Drain => 7,
        Phase::Verify => 8,
        Phase::Done => 9,
    }
}

/// The phase that follows `phase`; `Done` is followed by nothing.
pub open spec fn phase_after(phase: Phase) -> Phase {
    match phase {
        Phase::Setup => Phase::StartBackground,
        Phase::StartBackground => Phase::Prepare,
        Phase::Prepare => Phase::StartBounded,
        Phase::StartBounded => Phase::AwaitBounded,
        Phase::AwaitBounded => Phase::SignalShutdown,
        Phase::SignalShutdown => Phase::AwaitBackground,
        Phase::AwaitBackground => Phase::Drain,
        Phase::Drain => Phase::Verify,
        Phase::Verify => Phase::Done,
        Phase::Done => Phase::Done,
    }
}

/// Whether a phase ends with a plain report of success or failure.
pub open spec fn is_plain(phase: Phase) -> bool {
    phase is Setup || phase is StartBackground || phase is Prepare || phase is StartBounded
        || phase is Drain
}

/// The state of a run.
pub struct RunState {
    /// The phase the run is in; for a failed run, the phase that failed.
    pub phase: Phase,
    /// Why the run failed, if it did.
    pub failure: Option<RunFailure>,
    /// Whether the shutdown flag has been raised.
    pub shutdown_raised: bool,
    /// The successes of the bounded workers, once they are joined.
    pub bounded_successes: nat,
    /// The successes of the unbounded workers, once they are joined.
    pub background_successes: nat,
}

impl RunState {
    /// A run that has not begun.
    pub open spec fn start() -> Self {
        RunState {
            phase: Phase::Setup,
            failure: None,
            shutdown_raised: false,
            bounded_successes: 0,
            background_successes: 0,
        }
    }

    /// Whether the run has passed or failed.
    pub open spec fn over(self) -> bool {
        self.failure is Some || self.phase is Done
    }

    /// Whether the run takes a report for `phase`.
    pub open spec fn accepts(self, phase: Phase) -> bool {
        !self.over() && self.phase == phase
    }

    /// The run in its next phase.
    pub open spec fn moved_on(self) -> Self {
        RunState { phase: phase_after(self.phase), ..self }
    }

    /// The run failed in the phase it is in.
    pub open spec fn failed(self, failure: RunFailure) -> Self {
        RunState { failure: Some(failure), ..self }
    }

    /// The run after a plain phase was reported to have ended as `ok` says.
    pub open spec fn complete(self, phase: Phase, ok: bool) -> Self {
        if self.accepts(phase) && is_plain(phase) {
            if ok {
                self.moved_on()
            } else {
                self.failed(RunFailure::Fatal)
            }
        } else {
            self
        }
    }

    /// The run after its bounded workers were joined.
    pub open spec fn join_bounded(self, outcomes: Seq<JoinOutcome>) -> Self {
        if self.accepts(Phase::AwaitBounded) {
            if all_finished(outcomes) {
                RunState { bounded_successes: total_successes(outcomes), ..self.moved_on() }
            } else {
                self.failed(RunFailure::Defect)
            }
        } else {
            self
        }
    }

    /// The run after it was asked to raise the shutdown flag.
    pub open spec fn raise_shutdown(self) -> Self {
        if self.accepts(Phase::SignalShutdown) {
            RunState { shutdown_raised: true, ..self.moved_on() }
        } else {
            self
        }
    }

    /// The run after its unbounded workers were joined.
    pub open spec fn join_background(self, outcomes: Seq<JoinOutcome>) -> Self {
        if self.accepts(Phase::AwaitBackground) {
            if all_finished(outcomes) {
                RunState { background_successes: total_successes(outcomes), ..self.moved_on() }
            } else {
                self.failed(RunFailure::Defect)
            }
        } else {
            self
        }
    }

    /// The run after its final state was held against `battery`.
    pub open spec fn conclude(self, battery: Seq<VerificationAssertion>) -> Self {
        if self.accepts(Phase::Verify) {
            if violations_of(battery).len() == 0 {
                self.moved_on()
            } else {
                self.failed(RunFailure::Violation)
            }
        } else {
            self
        }
    }

    /// What holds of every run: the flag is raised exactly in the phases
    /// that follow the raising of the flag, and tallies are there only once
    /// their workers are joined.
    pub open spec fn well_formed(self) -> bool {
        &&& self.shutdown_raised <==> rank(self.phase) > rank(Phase::SignalShutdown)
        &&& rank(self.phase) <= rank(Phase::AwaitBounded) ==> self.bounded_successes == 0
        &&& rank(self.phase) <= rank(Phase::AwaitBackground) ==> self.background_successes == 0
        &&& self.failure is Some ==> !(self.phase is Done)
    }
}

/// What can be reported to a run.
pub enum Report {
    /// A plain phase ended as the flag says.
    Completed(Phase, bool),
    /// The bounded workers ended as the outcomes say.
    BoundedJoined(Seq<JoinOutcome>),
    /// The shutdown flag is to be raised.
    ShutdownRaised,
    /// The unbounded workers ended as the outcomes say.
    BackgroundJoined(Seq<JoinOutcome>),
    /// The final state was read into the battery.
    Verified(Seq<VerificationAssertion>),
}

impl RunState {
    /// The run after `report`.
    pub open spec fn on(self, report: Report) -> Self {
        match report {
            Report::Completed(phase, ok) => self.complete(phase, ok),
            Report::BoundedJoined(outcomes) => self.join_bounded(outcomes),
            Report::ShutdownRaised => self.raise_shutdown(),
            Report::BackgroundJoined(outcomes) => self.join_background(outcomes),
            Report::Verified(battery) => self.conclude(battery),
        }
    }

    /// The run after `reports`, in order.
    pub open spec fn after(self, reports: Seq<Report>) -> Self
        decreases reports.len(),
    {
        if reports.len() == 0 {
            self
        } else {
            self.after(reports.drop_last()).on(reports.last())
        }
    }
}

/// One run of a scenario.
pub struct ScenarioRun {
    phase: Phase,
    failure: Option<RunFailure>,
    signal: ShutdownSignal,
    bounded_successes: u32,
    background_successes: u32,
}

impl View for ScenarioRun {
    type V = RunState;

    closed spec fn view(&self) -> RunState {
        RunState {
            phase: self.phase,
            failure: self.failure,
            shutdown_raised: self.signal.raised(),
            bounded_successes: self.bounded_successes as nat,
            background_successes: self.background_successes as nat,
        }
    }
}

impl ScenarioRun {
    /// A run that has not begun: it is in its first phase and its shutdown
    /// flag is not raised.
    pub fn new() -> (run: Self)
        ensures
            run@ == RunState::start(),
    {
        ScenarioRun {
            phase: Phase::Setup,
            failure: None,
            signal: ShutdownSignal::new(),
            bounded_successes: 0,
            background_successes: 0,
        }
    }

    /// The phase the run is in; for a failed run, the phase that failed.
    pub fn phase(&self) -> (phase: Phase)
        ensures
            phase == self@.phase,
    {
        self.phase
    }

    /// Why the run failed, if it did.
    pub fn failure(&self) -> (failure: Option<RunFailure>)
        ensures
            failure == self@.failure,
    {
        self.failure
    }

    /// Whether the run has passed or failed.
    pub fn is_over(&self) -> (over: bool)
        ensures
            over == self@.over(),
    {
        self.failure.is_some() || self.phase == Phase::Done
    }

    /// Whether the run has passed.
    pub fn has_passed(&self) -> (passed: bool)
        ensures
            passed == (self@.phase is Done),
    {
        self.phase == Phase::Done
    }

    /// The successes of the bounded workers; zero until they are joined.
    pub fn bounded_successes(&self) -> (n: u32)
        ensures
            n == self@.bounded_successes,
    {
        self.bounded_successes
    }

    /// The successes of the unbounded workers; zero until they are joined.
    pub fn background_successes(&self) -> (n: u32)
        ensures
            n == self@.background_successes,
    {
        self.background_successes
    }

    /// Whether the run has raised its shutdown flag.
    pub fn shutdown_raised(&self) -> (raised: bool)
        ensures
            raised == self@.shutdown_raised,
    {
        self.signal.is_raised()
    }

    /// The writer's end of the run's shutdown flag, which the run keeps to
    /// itself.
    pub closed spec fn signal(&self) -> ShutdownSignal {
        self.signal
    }

    /// A reader's end of the run's shutdown flag, for an unbounded worker.
    pub fn watch(&self) -> (watch: ShutdownWatch)
        ensures
            watch.watches(&self.signal()),
    {
        self.signal.watch()
    }

    /// The answer to a report: accepted if it is for the phase the run is in.
    fn admit_report(&self, phase: Phase) -> (answer: Result<(), OutOfOrder>)
        ensures
            answer is Ok <==> self@.accepts(phase),
            answer matches Err(e) ==> e.phase == self@.phase && e.over == self@.over(),
    {
        let over = self.is_over();
        if !over && self.phase == phase {
            Ok(())
        } else {
            Err(OutOfOrder { phase: self.phase, over })
        }
    }

    /// Reports the end of a plain phase: setup, the spawning of workers,
    /// preparation, or the drain. With `ok` the run moves on; without, it
    /// has failed fatally. A report for another phase than the one the run
    /// is in is refused and changes nothing.
    pub fn complete(&mut self, phase: Phase, ok: bool) -> (answer: Result<(), OutOfOrder>)
        ensures
            final(self)@ == old(self)@.complete(phase, ok),
            answer is Ok <==> old(self)@.accepts(phase) && is_plain(phase),
            answer matches Err(e) ==> e.phase == old(self)@.phase && e.over == old(self)@.over(),
    {
        let over = self.is_over();
        let next = match phase {
            Phase::Setup => Phase::StartBackground,
            Phase::StartBackground => Phase::Prepare,
            Phase::Prepare => Phase::StartBounded,
            Phase::StartBounded => Phase::AwaitBounded,
            Phase::Drain => Phase::Verify,
            _ => {
                return Err(OutOfOrder { phase: self.phase, over });
            },
        };
        if over || self.phase != phase {
            return Err(OutOfOrder { phase: self.phase, over });
        }
        if ok {
            self.phase = next;
        } else {
            self.failure = Some(RunFailure::Fatal);
        }
        Ok(())
    }

    /// Joins the bounded workers. If all of them finished, their successes
    /// are added up and the run moves on to raise the shutdown flag; if one
    /// broke down, the run has failed with a defect.
    pub fn join_bounded(&mut self, outcomes: &Vec<JoinOutcome>) -> (answer: Result<
        (),
        OutOfOrder,
    >)
        requires
            total_successes(outcomes@) <= u32::MAX,
        ensures
            final(self)@ == old(self)@.join_bounded(outcomes@),
            answer is Ok <==> old(self)@.accepts(Phase::AwaitBounded),
            answer matches Err(e) ==> e.phase == old(self)@.phase && e.over == old(self)@.over(),
    {
        self.admit_report(Phase::AwaitBounded)?;
        match join_all(outcomes) {
            Ok(total) => {
                self.bounded_successes = total;
                self.phase = Phase::SignalShutdown;
            },
            Err(_) => {
                self.failure = Some(RunFailure::Defect);
            },
        }
        Ok(())
    }

    /// Raises the shutdown flag, once the bounded workers are joined.
    pub fn raise_shutdown(&mut self) -> (answer: Result<(), OutOfOrder>)
        ensures
            final(self)@ == old(self)@.raise_shutdown(),
            answer is Ok <==> old(self)@.accepts(Phase::SignalShutdown),
            answer matches Err(e) ==> e.phase == old(self)@.phase && e.over == old(self)@.over(),
    {
        self.admit_report(Phase::SignalShutdown)?;
        self.signal.raise();
        self.phase = Phase::AwaitBackground;
        Ok(())
    }

    /// Joins the unbounded workers, once the shutdown flag is raised.
    pub fn join_background(&mut self, outcomes: &Vec<JoinOutcome>) -> (answer: Result<
        (),
        OutOfOrder,
    >)
        requires
            total_successes(outcomes@) <= u32::MAX,
        ensures
            final(self)@ == old(self)@.join_background(outcomes@),
            answer is Ok <==> old(self)@.accepts(Phase::AwaitBackground),
            answer matches Err(e) ==> e.phase == old(self)@.phase && e.over == old(self)@.over(),
    {
        self.admit_report(Phase::AwaitBackground)?;
        match join_all(outcomes) {
            Ok(total) => {
                self.background_successes = total;
                self.phase = Phase::Drain;
            },
            Err(_) => {
                self.failure = Some(RunFailure::Defect);
            },
        }
        Ok(())
    }

    /// Holds the final state against `battery`, once the drain is done. The
    /// whole battery is evaluated; the run has passed if nothing is
    /// violated and has failed with a violation otherwise.
    pub fn conclude(&mut self, battery: &Vec<VerificationAssertion>) -> (answer: Result<
        VerificationReport,
        OutOfOrder,
    >)
        ensures
            final(self)@ == old(self)@.conclude(battery@),
            answer is Ok <==> old(self)@.accepts(Phase::Verify),
            answer matches Ok(report) ==> report.violations@ == violations_of(battery@)
                && report.notes@ == crate::verification::notes_of(battery@),
            answer matches Err(e) ==> e.phase == old(self)@.phase && e.over == old(self)@.over(),
    {
        self.admit_report(Phase::Verify)?;
        let report = evaluate(battery);
        if report.is_passed() {
            self.phase = Phase::Done;
        } else {
            self.failure = Some(RunFailure::Violation);
        }
        Ok(report)
    }
}

/// A run is well formed from its start on, and stays so whatever is
/// reported to it.
pub proof fn lemma_run_stays_well_formed(
    run: RunState,
    phase: Phase,
    ok: bool,
    outcomes: Seq<JoinOutcome>,
    battery: Seq<VerificationAssertion>,
)
    requires
        run.well_formed(),
    ensures
        RunState::start().well_formed(),
        run.complete(phase, ok).well_formed(),
        run.join_bounded(outcomes).well_formed(),
        run.raise_shutdown().well_formed(),
        run.join_background(outcomes).well_formed(),
        run.conclude(battery).well_formed(),
{
}

/// The phases follow each other in their order: whatever is reported, the
/// run stays in its phase or moves to the next one, and it moves only on a
/// report for the phase it is in.
pub proof fn lemma_phases_in_order(
    run: RunState,
    phase: Phase,
    ok: bool,
    outcomes: Seq<JoinOutcome>,
    battery: Seq<VerificationAssertion>,
)
    ensures
        ({
            let after = run.complete(phase, ok);
            after.phase == run.phase || (run.accepts(phase) && after.phase == phase_after(phase))
        }),
        ({
            let after = run.join_bounded(outcomes);
            after.phase == run.phase || (run.accepts(Phase::AwaitBounded) && after.phase
                == Phase::SignalShutdown)
        }),
        ({
            let after = run.raise_shutdown();
            after.phase == run.phase || (run.accepts(Phase::SignalShutdown) && after.phase
                == Phase::AwaitBackground)
        }),
        ({
            let after = run.join_background(outcomes);
            after.phase == run.phase || (run.accepts(Phase::AwaitBackground) && after.phase
                == Phase::Drain)
        }),
        ({
            let after = run.conclude(battery);
            after.phase == run.phase || (run.accepts(Phase::Verify) && after.phase == Phase::Done)
        }),
{
}

/// A run that is over stays as it is: neither a pass nor a failure is
/// ever taken back.
pub proof fn lemma_over_is_final(
    run: RunState,
    phase: Phase,
    ok: bool,
    outcomes: Seq<JoinOutcome>,
    battery: Seq<VerificationAssertion>,
)
    requires
        run.over(),
    ensures
        run.complete(phase, ok) == run,
        run.join_bounded(outcomes) == run,
        run.raise_shutdown() == run,
        run.join_background(outcomes) == run,
        run.conclude(battery) == run,
{
}

/// Verification never overlaps with mutation: a run that verifies, or has
/// passed, has raised its shutdown flag before, and it raised the flag only
/// after it had joined its bounded workers.
pub proof fn lemma_verification_after_shutdown(run: RunState)
    requires
        run.well_formed(),
    ensures
        run.accepts(Phase::Verify) || run.phase is Done ==> run.shutdown_raised,
        run.shutdown_raised ==> rank(run.phase) > rank(Phase::AwaitBounded),
        !run.shutdown_raised ==> rank(run.phase) < rank(Phase::AwaitBackground),
{
}

/// A run passes only through verification: it is done only after a battery
/// without violation was held against its final state.
pub proof fn lemma_pass_means_verified(
    run: RunState,
    battery: Seq<VerificationAssertion>,
)
    requires
        !(run.phase is Done),
    ensures
        run.conclude(battery).phase is Done <==> run.accepts(Phase::Verify) && violations_of(
            battery,
        ).len() == 0,
        run.conclude(battery).failure == if run.accepts(Phase::Verify) && violations_of(
            battery,
        ).len() > 0 {
            Some(RunFailure::Violation)
        } else {
            run.failure
        },
{
}

/// Verification follows the drain: a run comes to verify only by the
/// report that its drain is done, whatever else is reported to it.
pub proof fn lemma_verify_follows_drain(run: RunState, report: Report)
    requires
        !(run.phase is Verify),
        run.on(report).phase is Verify,
    ensures
        run.accepts(Phase::Drain),
        report == Report::Completed(Phase::Drain, true),
{
}

/// No phase is skipped: after any reports a run is well formed and has
/// moved on by no more phases than there were reports. A run that has
/// passed has therefore taken a report for each of its nine phases, and a
/// run whose flag is raised has taken one for each phase up to the joining
/// of its bounded workers.
pub proof fn lemma_no_phase_is_skipped(reports: Seq<Report>)
    ensures
        RunState::start().after(reports).well_formed(),
        rank(RunState::start().after(reports).phase) <= reports.len(),
        RunState::start().after(reports).phase is Done ==> reports.len() >= 9,
        RunState::start().after(reports).shutdown_raised ==> reports.len() >= 6,
    decreases reports.len(),
{
    if reports.len() > 0 {
        lemma_no_phase_is_skipped(reports.drop_last());
    }
}

} // verus!
