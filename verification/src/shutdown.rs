//! The bounded teardown: one total budget over an ordered list of steps.
//!
//! Signalling comes first and completely, because a drain can only finish
//! once the worker feeding it was told to stop. The application performs each
//! step and hands back whether it finished inside the time it was given.

use vstd::prelude::*;

use crate::actor_model::{ActorView, SHUTDOWN_GROUP_BUDGET_NANOS};
use crate::controller::ControllerActor;
use crate::event::{DiagnosticPayload, PayloadView, Severity};
use crate::time::{elapsed, instant_after, Duration, Instant};

verus! {

/// One step of the teardown.
#[derive(Clone, Copy, Debug, PartialEq, Eq, Structural)]
pub enum ShutdownStep {
    /// Hand the platform notification handle back.
    StopNetworkMonitor,
    /// Tell capture to stop; it owns the PCM bridge.
    SignalCapture,
    /// Tell the session to shut down, then release its request handle.
    SignalSession,
    /// Tell discovery to shut down.
    SignalDiscovery,
    /// Drain the discovery updates.
    DrainDiscovery,
    /// Drain the capture updates.
    DrainCapture,
    /// Drain the session updates.
    DrainSession,
}


/// The teardown steps in order.
pub open spec fn shutdown_steps() -> Seq<ShutdownStep> {
    seq![
        ShutdownStep::StopNetworkMonitor,
        ShutdownStep::SignalCapture,
        ShutdownStep::SignalSession,
        ShutdownStep::SignalDiscovery,
        ShutdownStep::DrainDiscovery,
        ShutdownStep::DrainCapture,
        ShutdownStep::DrainSession,
    ]
}

/// Whether a step drains an update stream.
pub open spec fn is_drain(step: ShutdownStep) -> bool {
    step == ShutdownStep::DrainDiscovery || step == ShutdownStep::DrainCapture || step
        == ShutdownStep::DrainSession
}

/// Time left before a deadline, never negative.
///
/// One deadline for the whole exit rather than a fresh budget per stage.
pub fn remaining_budget(deadline: Instant, now: Instant) -> (r: Duration)
    ensures
        r.nanos == elapsed(now, deadline),
{
    deadline.duration_since(now)
}

/// Progress of a teardown.
#[derive(Clone, Copy, Debug)]
pub struct Teardown {
    started: Instant,
    deadline: Instant,
    done: usize,
    timed_out: bool,
}

/// What a teardown has reached.
pub struct TeardownView {
    /// When it started.
    pub started: Instant,
    /// When its budget ends.
    pub deadline: Instant,
    /// Steps finished or given up.
    pub done: int,
    /// Whether any of them ran out of time.
    pub timed_out: bool,
}

impl View for Teardown {
    type V = TeardownView;

    closed spec fn view(&self) -> TeardownView {
        TeardownView {
            started: self.started,
            deadline: self.deadline,
            done: self.done as int,
            timed_out: self.timed_out,
        }
    }
}

impl Teardown {
    /// Starts a teardown whose steps share one budget.
    pub fn start(now: Instant) -> (r: Self)
        ensures
            r@ == (TeardownView {
                started: now,
                deadline: instant_after(now, SHUTDOWN_GROUP_BUDGET_NANOS),
                done: 0,
                timed_out: false,
            }),
    {
        Teardown {
            started: now,
            deadline: now.after(Duration { nanos: SHUTDOWN_GROUP_BUDGET_NANOS }),
            done: 0,
            timed_out: false,
        }
    }

    /// The step to perform next and the time it has at `now`.
    pub fn next_step(&self, now: Instant) -> (r: Option<(ShutdownStep, Duration)>)
        ensures
            r == (if 0 <= self@.done < shutdown_steps().len() {
                Some(
                    (
                        shutdown_steps()[self@.done],
                        (Duration { nanos: elapsed(now, self@.deadline) }),
                    ),
                )
            } else {
                None
            }),
    {
        let step: ShutdownStep = match self.done {
            0 => ShutdownStep::StopNetworkMonitor,
            1 => ShutdownStep::SignalCapture,
            2 => ShutdownStep::SignalSession,
            3 => ShutdownStep::SignalDiscovery,
            4 => ShutdownStep::DrainDiscovery,
            5 => ShutdownStep::DrainCapture,
            6 => ShutdownStep::DrainSession,
            _ => {
                return None;
            },
        };
        Some((step, remaining_budget(self.deadline, now)))
    }

    /// Records whether the current step finished inside its time. A lock that
    /// could not be taken in time counts as an overrun like any other.
    pub fn note(&mut self, finished: bool)
        requires
            old(self)@.done < shutdown_steps().len(),
        ensures
            final(self)@ == (TeardownView {
                done: old(self)@.done + 1,
                timed_out: old(self)@.timed_out || !finished,
                ..old(self)@
            }),
    {
        self.done = self.done + 1;
        self.timed_out = self.timed_out || !finished;
    }
}

impl ActorView {
    /// The controller after recording how its teardown went.
    pub open spec fn torn_down(self, teardown: TeardownView, now: Instant) -> ActorView {
        self.emitting(
            None,
            if teardown.timed_out { Severity::Warning } else { Severity::Info },
            PayloadView::WorkerShutdown {
                duration: Duration { nanos: elapsed(teardown.started, now) },
                timed_out: teardown.timed_out,
            },
        )
    }

    /// The controller after recording how many commands a drain superseded.
    pub open spec fn coalescing_noted(self, dropped: u32) -> ActorView {
        if dropped > 0 {
            self.emitting(None, Severity::Info, PayloadView::CommandCoalesced { dropped })
        } else {
            self
        }
    }
}

impl ControllerActor {
    /// Records how the teardown went, so a reader does not have to guess from
    /// a duration.
    pub fn note_shutdown(&mut self, teardown: &Teardown, now: Instant)
        ensures
            final(self)@ == old(self)@.torn_down(teardown@, now),
            final(self).policy == old(self).policy,
    {
        let timed_out: bool = teardown.timed_out;
        self.emit_diagnostics(
            None,
            if timed_out { Severity::Warning } else { Severity::Info },
            DiagnosticPayload::WorkerShutdown {
                duration: now.duration_since(teardown.started),
                timed_out,
            },
        );
    }

    /// Records how many commands a drain superseded, if any.
    pub fn note_coalesced(&mut self, dropped: u32)
        ensures
            final(self)@ == old(self)@.coalescing_noted(dropped),
            final(self).policy == old(self).policy,
    {
        if dropped > 0 {
            self.emit_diagnostics(
                None,
                Severity::Info,
                DiagnosticPayload::CommandCoalesced { dropped },
            );
        }
    }
}

/// The exit budget leaves room for the session teardown it contains.
pub proof fn law_exit_budget_outlasts_the_session_teardown()
    ensures
        SHUTDOWN_GROUP_BUDGET_NANOS > crate::session::TEARDOWN_GROUP_NANOS,
{
}

/// Every worker is signalled before the first update stream is drained.
pub proof fn law_signals_precede_drains(i: int, j: int)
    requires
        0 <= i < shutdown_steps().len(),
        0 <= j < shutdown_steps().len(),
        !is_drain(shutdown_steps()[i]),
        is_drain(shutdown_steps()[j]),
    ensures
        i < j,
{
}

/// No step is given time beyond the one deadline of the whole exit.
pub proof fn law_steps_share_one_deadline(teardown: TeardownView, now: Instant)
    requires
        now.nanos <= teardown.deadline.nanos,
    ensures
        now.nanos + elapsed(now, teardown.deadline) == teardown.deadline.nanos,
{
}

} // verus!
