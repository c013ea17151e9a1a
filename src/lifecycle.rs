//! The lifecycle of a run: which script hook to call when, how a hook's
//! outcome is reported, and when the loop stops.
//!
//! The host drives it: it calls `start`, then for each frame `begin_frame`
//! (run the returned ticks, then the frame hook) and `end_frame`, until
//! `end_frame` says stop, and then `finish`.
use crate::timestep::{frame_rest, frame_ticks, Scheduler, TimeStep};
use vstd::prelude::*;

verus! {

/// Where a run stands.
#[derive(Debug, Clone, Copy, PartialEq, Eq, Structural)]
pub enum Phase {
    Uninitialized,
    Running,
    ShuttingDown,
    Terminated,
}

/// The script entry points that the host calls.
#[derive(Debug, Clone, Copy, PartialEq, Eq, Structural)]
pub enum Hook {
    Init,
    Tick,
    Frame,
    Shutdown,
}

/// What came of calling a hook.
#[derive(Debug, Clone, PartialEq, Eq)]
pub enum HookOutcome {
    /// The hook ran to its end.
    Completed,
    /// The script defines no such hook; not an error.
    Absent,
    /// The hook raised an error, with its message.
    Failed(String),
}

/// A structured report of a hook that raised an error.
#[derive(Debug, Clone, PartialEq, Eq)]
pub struct HookFailure {
    pub hook: Hook,
    pub message: String,
}

/// What the host must do in one frame.
#[derive(Debug, Clone, Copy, PartialEq, Eq, Structural)]
pub struct FramePlan {
    /// Ticks to run before the frame hook.
    pub ticks: u64,
    /// Measured time since the previous frame, handed to the frame hook.
    pub delta_nanos: u64,
}

/// The report owed for a hook's outcome: one for a failure, none otherwise.
pub open spec fn report_of(hook: Hook, outcome: HookOutcome) -> Option<HookFailure> {
    match outcome {
        HookOutcome::Failed(m) => Some(HookFailure { hook, message: m }),
        _ => None,
    }
}

/// Builds the report owed for a hook's outcome.
pub fn failure_report(hook: Hook, outcome: HookOutcome) -> (r: Option<HookFailure>)
    ensures
        r == report_of(hook, outcome),
{
    match outcome {
        HookOutcome::Failed(message) => Some(HookFailure { hook, message }),
        _ => None,
    }
}

/// Phase after a frame ends, given whether the host asked to stop.
pub open spec fn phase_after_frame(p: Phase, should_stop: bool) -> Phase {
    if p == Phase::Running && should_stop {
        Phase::ShuttingDown
    } else {
        p
    }
}

/// Whether the loop goes on after a frame ends.
pub open spec fn continues_after_frame(p: Phase, should_stop: bool) -> bool {
    p == Phase::Running && !should_stop
}

/// Phase after a frame ends, whether the loop goes on, and the report owed for
/// the frame hook's outcome.
pub open spec fn frame_end(p: Phase, outcome: HookOutcome, should_stop: bool) -> (
    Phase,
    bool,
    Option<HookFailure>,
) {
    (
        phase_after_frame(p, should_stop),
        continues_after_frame(p, should_stop),
        report_of(Hook::Frame, outcome),
    )
}

/// Phase and hook to call when the run is started.
pub open spec fn start_step(p: Phase) -> (Phase, Option<Hook>) {
    if p == Phase::Uninitialized {
        (Phase::Running, Some(Hook::Init))
    } else {
        (p, None)
    }
}

/// Phase and hook to call when the run is finished.
pub open spec fn finish_step(p: Phase) -> (Phase, Option<Hook>) {
    if p == Phase::ShuttingDown {
        (Phase::Terminated, Some(Hook::Shutdown))
    } else {
        (p, None)
    }
}

/// A hook that the script does not define is no error: it leaves no report.
pub proof fn lemma_absent_hook_is_silent(hook: Hook)
    ensures
        report_of(hook, HookOutcome::Absent).is_none(),
        start_step(Phase::Uninitialized) == (Phase::Running, Some(Hook::Init)),
        finish_step(Phase::ShuttingDown) == (Phase::Terminated, Some(Hook::Shutdown)),
{
}

/// A frame hook that fails, whatever its message, does not stop the loop: the
/// run stays `Running`, so the next frame is still planned, and the failure is
/// reported once.
pub proof fn lemma_failed_frame_keeps_running(message: String)
    ensures
        frame_end(Phase::Running, HookOutcome::Failed(message), false) == (
            Phase::Running,
            true,
            Some(HookFailure { hook: Hook::Frame, message }),
        ),
{
}

/// Once a frame ends with the stop signal, the loop ends with that frame: no
/// further frame is planned, `finish` then yields the shutdown hook exactly
/// once, and neither hook comes again afterwards.
pub proof fn lemma_stop_ends_loop(outcome: HookOutcome)
    ensures
        ({
            let (p, goes_on, _) = frame_end(Phase::Running, outcome, true);
            &&& p == Phase::ShuttingDown
            &&& !goes_on
            &&& finish_step(p) == (Phase::Terminated, Some(Hook::Shutdown))
            &&& finish_step(finish_step(p).0).1.is_none()
            &&& start_step(finish_step(p).0).1.is_none()
            &&& forall|o: HookOutcome, s: bool| #[trigger]
                frame_end(finish_step(p).0, o, s).0 == Phase::Terminated
                    && !frame_end(finish_step(p).0, o, s).1
        }),
        forall|o: HookOutcome| #[trigger] frame_end(Phase::Running, o, false).0 == Phase::Running,
{
}

/// A run: its phase and the scheduler that paces its ticks.
#[derive(Debug)]
pub struct Lifecycle {
    phase: Phase,
    scheduler: Scheduler,
}

impl Lifecycle {
    pub closed spec fn phase_of(self) -> Phase {
        self.phase
    }

    pub closed spec fn scheduler_of(self) -> Scheduler {
        self.scheduler
    }

    pub fn new(step: TimeStep) -> (r: Lifecycle)
        ensures
            r.phase_of() == Phase::Uninitialized,
            r.scheduler_of().rate() == step.rate(),
            r.scheduler_of().carried() == 0,
    {
        Lifecycle { phase: Phase::Uninitialized, scheduler: Scheduler::new(step) }
    }

    pub fn phase(&self) -> (r: Phase)
        ensures
            r == self.phase_of(),
    {
        self.phase
    }

    /// Starts the run: the first call returns the init hook and moves to
    /// `Running`; any later call returns `None` and changes nothing.
    pub fn start(&mut self) -> (r: Option<Hook>)
        ensures
            (final(self).phase_of(), r) == start_step(old(self).phase_of()),
            final(self).scheduler_of() == old(self).scheduler_of(),
    {
        if self.phase == Phase::Uninitialized {
            self.phase = Phase::Running;
            Some(Hook::Init)
        } else {
            None
        }
    }

    /// Plans a frame from the time measured since the previous one: while
    /// running, how many ticks to run and the delta for the frame hook;
    /// otherwise `None`, and nothing changes.
    pub fn begin_frame(&mut self, elapsed_nanos: u64) -> (r: Option<FramePlan>)
        ensures
            final(self).phase_of() == old(self).phase_of(),
            final(self).scheduler_of().rate() == old(self).scheduler_of().rate(),
            old(self).phase_of() == Phase::Running <==> r.is_some(),
            r matches Some(plan) ==> {
                &&& plan.delta_nanos == elapsed_nanos
                &&& plan.ticks as nat == frame_ticks(
                    old(self).scheduler_of().carried(),
                    old(self).scheduler_of().rate(),
                    elapsed_nanos as nat,
                )
                &&& final(self).scheduler_of().carried() == frame_rest(
                    old(self).scheduler_of().carried(),
                    old(self).scheduler_of().rate(),
                    elapsed_nanos as nat,
                )
            },
            r.is_none() ==> final(self).scheduler_of() == old(self).scheduler_of(),
    {
        if self.phase == Phase::Running {
            let ticks = self.scheduler.advance(elapsed_nanos);
            Some(FramePlan { ticks, delta_nanos: elapsed_nanos })
        } else {
            None
        }
    }

    /// Ends a frame with the frame hook's outcome and the host's stop signal.
    /// A failed hook is reported and never stops the loop; only the stop
    /// signal does, which moves the run to `ShuttingDown`. Returns whether the
    /// loop goes on, and the report owed.
    pub fn end_frame(&mut self, outcome: HookOutcome, should_stop: bool) -> (r: (
        bool,
        Option<HookFailure>,
    ))
        ensures
            (final(self).phase_of(), r.0, r.1) == frame_end(
                old(self).phase_of(),
                outcome,
                should_stop,
            ),
            final(self).scheduler_of() == old(self).scheduler_of(),
    {
        let report = failure_report(Hook::Frame, outcome);
        if self.phase == Phase::Running {
            if should_stop {
                self.phase = Phase::ShuttingDown;
                (false, report)
            } else {
                (true, report)
            }
        } else {
            (false, report)
        }
    }

    /// Finishes the run: once the loop has stopped, the first call returns the
    /// shutdown hook and moves to `Terminated`; any other call returns `None`
    /// and changes nothing.
    pub fn finish(&mut self) -> (r: Option<Hook>)
        ensures
            (final(self).phase_of(), r) == finish_step(old(self).phase_of()),
            final(self).scheduler_of() == old(self).scheduler_of(),
    {
        if self.phase == Phase::ShuttingDown {
            self.phase = Phase::Terminated;
            Some(Hook::Shutdown)
        } else {
            None
        }
    }
}

} // verus!
