//! Receiver state machine: lifecycle, attempt bookkeeping, and last failure.

use vstd::prelude::*;

use crate::model::{
    error_text, LifecycleView, ReceiverLifecycle, ReceiverRole, SetupPhase, UserFacingError,
};
use crate::time::SystemTime;

verus! {

/// A rejected receiver-lifecycle transition.
///
/// Both ends are rendered as static variant labels, never as payloads, so the
/// invariant diagnostic derived from this value stays presentation-safe.
#[derive(Clone, Copy, Debug, PartialEq, Eq)]
pub struct InvalidTransition {
    /// Label of the state the receiver was in.
    pub from: &'static str,
    /// Label of the state that was rejected.
    pub to: &'static str,
}

impl InvalidTransition {
    /// Renders the rejection.
    pub fn to_string(&self) -> (r: String)
        ensures
            r@ == "invalid receiver transition "@ + self.from@ + " -> "@ + self.to@,
    {
        let mut text: String = "invalid receiver transition ".to_owned();
        text.append(self.from);
        text.append(" -> ");
        text.append(self.to);
        text
    }
}

/// Static variant label of a lifecycle state.
pub open spec fn label_text(state: LifecycleView) -> Seq<char> {
    match state {
        LifecycleView::Discovered => "Discovered"@,
        LifecycleView::Connecting { .. } => "Connecting"@,
        LifecycleView::SettingUp { .. } => "SettingUp"@,
        LifecycleView::Ready { .. } => "Ready"@,
        LifecycleView::Streaming { .. } => "Streaming"@,
        LifecycleView::RetryWaiting { .. } => "RetryWaiting"@,
        LifecycleView::Unavailable => "Unavailable"@,
        LifecycleView::Failed { .. } => "Failed"@,
    }
}

/// Static variant label of a lifecycle state.
pub fn label(state: &ReceiverLifecycle) -> (r: &'static str)
    ensures
        r@ == label_text(state@),
{
    match state {
        ReceiverLifecycle::Discovered => "Discovered",
        ReceiverLifecycle::Connecting { .. } => "Connecting",
        ReceiverLifecycle::SettingUp { .. } => "SettingUp",
        ReceiverLifecycle::Ready { .. } => "Ready",
        ReceiverLifecycle::Streaming { .. } => "Streaming",
        ReceiverLifecycle::RetryWaiting { .. } => "RetryWaiting",
        ReceiverLifecycle::Unavailable => "Unavailable",
        ReceiverLifecycle::Failed { .. } => "Failed",
    }
}

/// Whether a session generation owns a receiver in this state.
pub open spec fn owned(state: LifecycleView) -> bool {
    state is Connecting || state is SettingUp || state is Ready || state is Streaming
}

/// The permitted edges of the receiver lifecycle.
///
/// Discovery may lose the service from any state; setup advances step by
/// step; a live receiver may fail; a retryable failure may wait; and a waiting
/// or failed receiver may connect again.
pub open spec fn edge_permitted(from: LifecycleView, to: LifecycleView) -> bool {
    ||| to is Unavailable
    ||| from is Unavailable && to is Discovered
    ||| from is Discovered && to is Connecting
    ||| from is Connecting && to is SettingUp
    ||| from is SettingUp && (to is SettingUp || to is Ready)
    ||| from is Ready && to is Streaming
    ||| owned(from) && to is Failed
    ||| (from matches LifecycleView::Failed { retryable, .. } && retryable && to is RetryWaiting)
    ||| from is RetryWaiting && to is Connecting
    ||| from is Failed && to is Connecting
}

/// Whether `from -> to` is one of the permitted edges.
///
/// This governs the transitions decided here (discovery availability, setup
/// progress, backoff). Session-authoritative operations and the generation
/// boundary are not edges of this relation: they report what the transport
/// actually did, so they re-anchor the row instead of vetoing it.
pub fn permitted(from: &ReceiverLifecycle, to: &ReceiverLifecycle) -> (r: bool)
    ensures
        r == edge_permitted(from@, to@),
{
    match (from, to) {
        (_, ReceiverLifecycle::Unavailable) => true,
        (ReceiverLifecycle::Unavailable, ReceiverLifecycle::Discovered) => true,
        (ReceiverLifecycle::Discovered, ReceiverLifecycle::Connecting { .. }) => true,
        (ReceiverLifecycle::Connecting { .. }, ReceiverLifecycle::SettingUp { .. }) => true,
        (ReceiverLifecycle::SettingUp { .. }, ReceiverLifecycle::SettingUp { .. }) => true,
        (ReceiverLifecycle::SettingUp { .. }, ReceiverLifecycle::Ready { .. }) => true,
        (ReceiverLifecycle::Ready { .. }, ReceiverLifecycle::Streaming { .. }) => true,
        (ReceiverLifecycle::Connecting { .. }, ReceiverLifecycle::Failed { .. }) => true,
        (ReceiverLifecycle::SettingUp { .. }, ReceiverLifecycle::Failed { .. }) => true,
        (ReceiverLifecycle::Ready { .. }, ReceiverLifecycle::Failed { .. }) => true,
        (ReceiverLifecycle::Streaming { .. }, ReceiverLifecycle::Failed { .. }) => true,
        (ReceiverLifecycle::Failed { retryable, .. }, ReceiverLifecycle::RetryWaiting { .. }) =>
            *retryable,
        (ReceiverLifecycle::RetryWaiting { .. }, ReceiverLifecycle::Connecting { .. }) => true,
        (ReceiverLifecycle::Failed { .. }, ReceiverLifecycle::Connecting { .. }) => true,
        _ => false,
    }
}

/// Whether a session generation currently owns this receiver.
pub fn owned_by_generation(state: &ReceiverLifecycle) -> (r: bool)
    ensures
        r == owned(state@),
{
    match state {
        ReceiverLifecycle::Connecting { .. } => true,
        ReceiverLifecycle::SettingUp { .. } => true,
        ReceiverLifecycle::Ready { .. } => true,
        ReceiverLifecycle::Streaming { .. } => true,
        _ => false,
    }
}

/// What a receiver machine holds.
#[verifier::ext_equal]
pub struct MachineView {
    /// Published lifecycle.
    pub state: LifecycleView,
    /// Consecutive failed attempts.
    pub attempt: u32,
    /// Deadline of the pending retry.
    pub next_retry: Option<SystemTime>,
    /// Text of the most recent failure.
    pub last_error: Option<Seq<char>>,
    /// Generation last taken part in.
    pub generation: u64,
    /// Whether discovery offers a castable service.
    pub service_available: bool,
    /// Role in the current generation.
    pub role: Option<ReceiverRole>,
}

/// The idle state of a receiver with or without a castable service.
pub open spec fn idle_state(service_available: bool) -> LifecycleView {
    if service_available { LifecycleView::Discovered } else { LifecycleView::Unavailable }
}

impl MachineView {
    /// The machine of a receiver nothing has happened to.
    pub open spec fn fresh(service_available: bool) -> MachineView {
        MachineView {
            state: idle_state(service_available),
            attempt: 0,
            next_retry: None,
            last_error: None,
            generation: 0,
            service_available,
            role: None,
        }
    }

    /// Whether moving to `to` is a repetition or a permitted edge.
    pub open spec fn accepts(self, to: LifecycleView) -> bool {
        self.state == to || edge_permitted(self.state, to)
    }

    /// The machine after an attempted transition; a rejected one changes
    /// nothing.
    pub open spec fn moved(self, to: LifecycleView) -> MachineView {
        if self.accepts(to) { MachineView { state: to, ..self } } else { self }
    }

    /// The machine after discovery reports availability.
    pub open spec fn with_service(self, available: bool) -> MachineView {
        let known = MachineView { service_available: available, ..self };
        if available {
            if self.state is Unavailable {
                MachineView { state: LifecycleView::Discovered, ..known }
            } else {
                known
            }
        } else if owned(self.state) {
            known
        } else {
            MachineView { state: LifecycleView::Unavailable, role: None, ..known }
        }
    }

    /// The machine entering a new session generation.
    pub open spec fn begun(self, generation: u64, attempt: u32) -> MachineView {
        MachineView {
            generation,
            attempt,
            role: None,
            state: LifecycleView::Connecting { attempt },
            ..self
        }
    }

    /// The machine after transport-observed setup progress.
    pub open spec fn in_setup(self, role: ReceiverRole, phase: SetupPhase) -> MachineView {
        MachineView { role: Some(role), ..self }.moved(LifecycleView::SettingUp { role, phase })
    }

    /// The machine after the transport reports membership with `role`: the
    /// row is re-anchored whatever it said.
    pub open spec fn streaming(self, role: ReceiverRole) -> MachineView {
        MachineView { role: Some(role), state: LifecycleView::Streaming { role }, ..self }
    }

    /// The machine after a failure.
    pub open spec fn failed(self, retryable: bool, error: Seq<char>) -> MachineView {
        MachineView {
            last_error: Some(error),
            role: None,
            state: LifecycleView::Failed { retryable, error },
            ..self
        }
    }

    /// The machine after its backoff is scheduled.
    pub open spec fn waiting(self, attempt: u32, retry_at: SystemTime) -> MachineView {
        MachineView { attempt, next_retry: Some(retry_at), ..self }
            .moved(LifecycleView::RetryWaiting { attempt, retry_at })
    }

    /// Whether reconciliation leaves the receiver out.
    pub open spec fn in_backoff(self) -> bool {
        self.state is RetryWaiting || self.state is Failed
    }

    /// Whether an automatic rejoin could pull the receiver back in.
    pub open spec fn awaiting_rejoin(self) -> bool {
        ||| self.state is Discovered
        ||| self.state is RetryWaiting
        ||| (self.state matches LifecycleView::Failed { retryable, .. } && retryable)
    }

    /// The machine after an immediate retry.
    pub open spec fn retried(self) -> MachineView {
        if self.in_backoff() {
            MachineView {
                next_retry: None,
                state: LifecycleView::Connecting { attempt: self.attempt },
                ..self
            }
        } else {
            MachineView { next_retry: None, ..self }
        }
    }

    /// The machine after its session generation ended.
    pub open spec fn left_session(self) -> MachineView {
        if owned(self.state) {
            MachineView { role: None, state: idle_state(self.service_available), ..self }
        } else {
            self
        }
    }

    /// The machine after leaving the desired set.
    pub open spec fn released(self) -> MachineView {
        MachineView {
            role: None,
            next_retry: None,
            state: if self.state is Unavailable {
                LifecycleView::Unavailable
            } else {
                idle_state(self.service_available)
            },
            ..self
        }
    }
}

/// Per-receiver lifecycle, attempt bookkeeping, and last failure reason.
///
/// The machine owns the receiver's published [`ReceiverLifecycle`]; the
/// controller never assembles one by hand. A rejected transition leaves that
/// lifecycle as it was and surfaces as [`InvalidTransition`], which the caller
/// turns into an invariant diagnostic.
#[derive(Debug)]
pub struct ReceiverMachine {
    state: ReceiverLifecycle,
    attempt: u32,
    next_retry: Option<SystemTime>,
    last_error: Option<UserFacingError>,
    generation: u64,
    service_available: bool,
    role: Option<ReceiverRole>,
}

impl View for ReceiverMachine {
    type V = MachineView;

    closed spec fn view(&self) -> MachineView {
        MachineView {
            state: self.state@,
            attempt: self.attempt,
            next_retry: self.next_retry,
            last_error: error_text(self.last_error),
            generation: self.generation,
            service_available: self.service_available,
            role: self.role,
        }
    }
}

/// Whether a rejection names the states of the transition it rejected.
pub open spec fn names_edge(e: InvalidTransition, from: LifecycleView, to: LifecycleView) -> bool {
    e.from@ == label_text(from) && e.to@ == label_text(to)
}

impl ReceiverMachine {
    /// Creates a machine for a receiver whose service availability is known.
    pub fn new(service_available: bool) -> (r: Self)
        ensures
            r@ == MachineView::fresh(service_available),
    {
        ReceiverMachine {
            state: if service_available {
                ReceiverLifecycle::Discovered
            } else {
                ReceiverLifecycle::Unavailable
            },
            attempt: 0,
            next_retry: None,
            last_error: None,
            generation: 0,
            service_available,
            role: None,
        }
    }

    /// Currently published lifecycle state.
    pub fn state(&self) -> (r: &ReceiverLifecycle)
        ensures
            r@ == self@.state,
    {
        &self.state
    }

    /// Consecutive failed attempts recorded for this receiver.
    pub fn attempt(&self) -> (r: u32)
        ensures
            r == self@.attempt,
    {
        self.attempt
    }

    /// Wall-clock deadline of the pending retry, if one is scheduled.
    pub fn next_retry(&self) -> (r: Option<SystemTime>)
        ensures
            r == self@.next_retry,
    {
        self.next_retry
    }

    /// Pre-redacted summary of the most recent failure.
    pub fn last_error(&self) -> (r: Option<&UserFacingError>)
        ensures
            r matches Some(e) ==> self@.last_error == Some(e@),
            r is None ==> self@.last_error is None,
    {
        self.last_error.as_ref()
    }

    /// Session generation this receiver last participated in.
    pub fn generation(&self) -> (r: u64)
        ensures
            r == self@.generation,
    {
        self.generation
    }

    /// Whether discovery currently offers a castable AirPlay service.
    pub fn service_available(&self) -> (r: bool)
        ensures
            r == self@.service_available,
    {
        self.service_available
    }

    /// Role negotiated in the current generation, if any.
    pub fn role(&self) -> (r: Option<ReceiverRole>)
        ensures
            r == self@.role,
    {
        self.role
    }

    /// Whether the receiver may be dropped from the snapshot.
    ///
    /// Inventory cleanup, not a lifecycle variant: a receiver that is no
    /// longer desired stays visible until it is unavailable.
    pub fn removable(&self) -> (r: bool)
        ensures
            r == (self@.state is Unavailable),
    {
        matches!(self.state, ReceiverLifecycle::Unavailable)
    }

    /// Whether this receiver is desired-but-outside the running generation
    /// and could therefore be pulled back in by an automatic rejoin.
    ///
    /// Covers both halves of the gap that a discovery-driven rejoin has to
    /// close: a receiver still serving its backoff, and one whose service
    /// vanished and came back, which left backoff for `Discovered` without
    /// anything ever reconnecting it. A terminal failure stays out; only a
    /// manual retry releases that.
    pub fn awaiting_rejoin(&self) -> (r: bool)
        ensures
            r == self@.awaiting_rejoin(),
    {
        match &self.state {
            ReceiverLifecycle::Discovered => true,
            ReceiverLifecycle::RetryWaiting { .. } => true,
            ReceiverLifecycle::Failed { retryable, .. } => *retryable,
            _ => false,
        }
    }

    /// Whether reconciliation must currently leave this receiver out.
    ///
    /// Receivers serving their backoff (or terminally failed) are excluded
    /// from the desired set handed to the transport, so the ladder actually
    /// governs when they are tried again. A terminal failure is not an
    /// absorbing state: [`Self::retry_now`] releases it on demand.
    pub fn in_backoff(&self) -> (r: bool)
        ensures
            r == self@.in_backoff(),
    {
        match &self.state {
            ReceiverLifecycle::RetryWaiting { .. } => true,
            ReceiverLifecycle::Failed { .. } => true,
            _ => false,
        }
    }

    /// Applies one permitted transition; repeating the current state is not a
    /// transition and always succeeds.
    pub fn transition(&mut self, to: ReceiverLifecycle) -> (r: Result<(), InvalidTransition>)
        ensures
            final(self)@ == old(self)@.moved(to@),
            r is Ok <==> old(self)@.accepts(to@),
            r matches Err(e) ==> names_edge(e, old(self)@.state, to@),
    {
        if self.state.same_as(&to) {
            return Ok(());
        }
        if !permitted(&self.state, &to) {
            return Err(InvalidTransition { from: label(&self.state), to: label(&to) });
        }
        self.state = to;
        Ok(())
    }

    /// Records discovery availability, moving to/from `Unavailable`.
    ///
    /// Losing the service is a discovery fact, never a session fact: while a
    /// generation owns this receiver the loss is only remembered, because the
    /// transport is still streaming to it and the row must not contradict
    /// the active set. [`Self::leave_session`] applies the deferred loss at
    /// the generation boundary.
    pub fn set_service_available(&mut self, available: bool) -> (r: Result<(), InvalidTransition>)
        ensures
            r is Ok,
            final(self)@ == old(self)@.with_service(available),
    {
        self.service_available = available;
        if available {
            if matches!(self.state, ReceiverLifecycle::Unavailable) {
                return self.transition(ReceiverLifecycle::Discovered);
            }
            Ok(())
        } else if owned_by_generation(&self.state) {
            Ok(())
        } else {
            self.role = None;
            self.transition(ReceiverLifecycle::Unavailable)
        }
    }

    /// Enters `Connecting` for a newly started session generation.
    ///
    /// Session-authoritative and therefore not a permitted edge: the
    /// supervisor is connecting this receiver right now, so `Connecting` is
    /// the truthful row no matter what the previous one said.
    pub fn begin_generation(
        &mut self,
        generation: u64,
        attempt: u32,
    ) -> (r: Result<(), InvalidTransition>)
        ensures
            r is Ok,
            final(self)@ == old(self)@.begun(generation, attempt),
    {
        self.generation = generation;
        self.attempt = attempt;
        self.role = None;
        self.state = ReceiverLifecycle::Connecting { attempt };
        Ok(())
    }

    /// Reports transport-observed setup progress.
    pub fn enter_setup(
        &mut self,
        role: ReceiverRole,
        phase: SetupPhase,
    ) -> (r: Result<(), InvalidTransition>)
        ensures
            final(self)@ == old(self)@.in_setup(role, phase),
            r is Ok <==> old(self)@.accepts(LifecycleView::SettingUp { role, phase }),
            r matches Err(e) ==> names_edge(
                e,
                old(self)@.state,
                LifecycleView::SettingUp { role, phase },
            ),
    {
        self.role = Some(role);
        self.transition(ReceiverLifecycle::SettingUp { role, phase })
    }

    /// Walks the receiver up to `Streaming` along permitted edges only.
    ///
    /// The group transport reports membership, not each intermediate step, so
    /// the skipped states are traversed here instead of being jumped over.
    /// Like [`Self::begin_generation`] this is session-authoritative: a row
    /// that drifted out of the chain while the start was in flight, or that
    /// streams in another role, is re-anchored, because the transport really
    /// did add this member.
    pub fn enter_streaming(&mut self, role: ReceiverRole) -> (r: Result<(), InvalidTransition>)
        ensures
            r is Ok,
            final(self)@ == old(self)@.streaming(role),
    {
        self.role = Some(role);
        if let ReceiverLifecycle::Streaming { role: held } = &self.state {
            if *held == role {
                return Ok(());
            }
            self.state = ReceiverLifecycle::Ready { role };
        }
        if !owned_by_generation(&self.state) {
            self.state = ReceiverLifecycle::Connecting { attempt: self.attempt };
        }
        if matches!(self.state, ReceiverLifecycle::Connecting { .. }) {
            let step = self.transition(
                ReceiverLifecycle::SettingUp { role, phase: SetupPhase::StartAudio },
            );
            if step.is_err() {
                return step;
            }
        }
        if matches!(self.state, ReceiverLifecycle::SettingUp { .. }) {
            let step = self.transition(ReceiverLifecycle::Ready { role });
            if step.is_err() {
                return step;
            }
        }
        self.transition(ReceiverLifecycle::Streaming { role })
    }

    /// Records a terminal-for-now failure with its pre-redacted reason.
    ///
    /// Session-authoritative like the two operations above: the transport
    /// reports the failure it observed, so the reason is recorded whatever the
    /// row happened to say.
    pub fn fail(
        &mut self,
        retryable: bool,
        error: UserFacingError,
    ) -> (r: Result<(), InvalidTransition>)
        ensures
            r is Ok,
            final(self)@ == old(self)@.failed(retryable, error@),
    {
        self.last_error = Some(error.clone());
        self.role = None;
        self.state = ReceiverLifecycle::Failed { retryable, error };
        Ok(())
    }

    /// Moves a retryable failure into its scheduled backoff window.
    pub fn wait_retry(
        &mut self,
        attempt: u32,
        retry_at: SystemTime,
    ) -> (r: Result<(), InvalidTransition>)
        ensures
            final(self)@ == old(self)@.waiting(attempt, retry_at),
            r is Ok <==> old(self)@.accepts(LifecycleView::RetryWaiting { attempt, retry_at }),
            r matches Err(e) ==> names_edge(
                e,
                old(self)@.state,
                LifecycleView::RetryWaiting { attempt, retry_at },
            ),
    {
        self.attempt = attempt;
        self.next_retry = Some(retry_at);
        self.transition(ReceiverLifecycle::RetryWaiting { attempt, retry_at })
    }

    /// Clears the pending deadline and re-enters `Connecting` immediately.
    ///
    /// Backs the manual retry command and the deadline-driven automatic
    /// retry: only this receiver's deadline is dropped, its attempt history
    /// stays intact. A terminal failure is released too; otherwise nothing
    /// could ever free it again. Retrying an idle receiver is a no-op.
    pub fn retry_now(&mut self) -> (r: Result<(), InvalidTransition>)
        ensures
            r is Ok,
            final(self)@ == old(self)@.retried(),
    {
        self.next_retry = None;
        if !self.in_backoff() {
            return Ok(());
        }
        let attempt: u32 = self.attempt;
        self.transition(ReceiverLifecycle::Connecting { attempt })
    }

    /// Returns the receiver to its idle state when its session generation
    /// ends.
    ///
    /// A generation boundary rather than a failure edge; waiting and failed
    /// receivers are untouched. A service loss that
    /// [`Self::set_service_available`] deferred while the generation was
    /// running is applied here.
    pub fn leave_session(&mut self)
        ensures
            final(self)@ == old(self)@.left_session(),
    {
        if owned_by_generation(&self.state) {
            self.role = None;
            self.state = if self.service_available {
                ReceiverLifecycle::Discovered
            } else {
                ReceiverLifecycle::Unavailable
            };
        }
    }

    /// Drops every session-related state because the receiver left the
    /// desired set.
    ///
    /// Stronger than [`Self::leave_session`]: a receiver nobody wants any more
    /// must not keep a backoff deadline or a terminal failure that would keep
    /// it out of (or visible in) the next generation.
    pub fn release(&mut self)
        ensures
            final(self)@ == old(self)@.released(),
    {
        self.role = None;
        self.next_retry = None;
        if matches!(self.state, ReceiverLifecycle::Unavailable) {
            return;
        }
        self.state = if self.service_available {
            ReceiverLifecycle::Discovered
        } else {
            ReceiverLifecycle::Unavailable
        };
    }
}

/// Discovery availability, setup progress, backoff, and retry only ever
/// repeat the current state or follow a permitted edge.
pub proof fn law_own_decisions_follow_permitted_edges(
    machine: MachineView,
    available: bool,
    role: ReceiverRole,
    phase: SetupPhase,
    attempt: u32,
    retry_at: SystemTime,
)
    ensures
        machine.accepts(machine.with_service(available).state),
        machine.accepts(machine.in_setup(role, phase).state),
        machine.accepts(machine.waiting(attempt, retry_at).state),
        machine.accepts(machine.retried().state),
{
}

/// Losing the service while a generation owns the receiver changes its row
/// only when that generation ends; outside a generation it changes at once.
pub proof fn law_service_loss_waits_for_the_generation_to_end(machine: MachineView)
    ensures
        owned(machine.state) ==> machine.with_service(false).state == machine.state
            && machine.with_service(false).left_session().state is Unavailable,
        !owned(machine.state) ==> machine.with_service(false).state is Unavailable,
{
}

/// A castable service takes an unavailable receiver back to `Discovered`.
pub proof fn law_returning_service_is_discovered(machine: MachineView)
    requires
        !owned(machine.state),
    ensures
        machine.with_service(false).with_service(true).state is Discovered,
{
}

/// Entering a generation and reporting membership or a failure re-anchor the
/// row whatever it said: membership always ends in `Streaming` with exactly
/// the reported role.
pub proof fn law_session_reports_reanchor_the_row(
    machine: MachineView,
    generation: u64,
    attempt: u32,
    role: ReceiverRole,
    retryable: bool,
    error: Seq<char>,
)
    ensures
        machine.begun(generation, attempt).state == (LifecycleView::Connecting { attempt }),
        machine.streaming(role).state == (LifecycleView::Streaming { role }),
        machine.streaming(role).role == Some(role),
        machine.failed(retryable, error).state == (LifecycleView::Failed { retryable, error }),
{
}

/// A failure is released by a retry, keeps its attempt history, and a
/// retryable one can serve its backoff first.
pub proof fn law_failure_backoff_and_retry(
    machine: MachineView,
    retryable: bool,
    error: Seq<char>,
    attempt: u32,
    retry_at: SystemTime,
)
    ensures
        ({
            let failed = machine.failed(retryable, error);
            let waiting = failed.waiting(attempt, retry_at);
            &&& failed.in_backoff()
            &&& failed.last_error == Some(error)
            &&& !failed.retried().in_backoff()
            &&& failed.retried().attempt == machine.attempt
            &&& retryable ==> waiting.state == (LifecycleView::RetryWaiting { attempt, retry_at })
            &&& retryable ==> waiting.in_backoff() && waiting.next_retry == Some(retry_at)
            &&& retryable ==> waiting.retried().state == (LifecycleView::Connecting { attempt })
            &&& waiting.retried().next_retry is None
            &&& waiting.retried().attempt == attempt
        }),
{
}

/// Leaving a session releases only live receivers; releasing an undesired one
/// drops its backoff and leaves it idle.
pub proof fn law_leaving_and_releasing(machine: MachineView)
    ensures
        !owned(machine.left_session().state),
        machine.in_backoff() ==> machine.left_session() == machine,
        !machine.released().in_backoff(),
        !owned(machine.released().state),
        machine.released().next_retry is None,
        machine.released().role is None,
{
}

/// Whether an unavailable receiver has no castable service on offer.
pub open spec fn offer_agrees(machine: MachineView) -> bool {
    machine.state is Unavailable ==> !machine.service_available
}

/// A receiver that is unavailable, and so may be dropped from the snapshot,
/// has no castable service on offer: a fresh machine says so truthfully, and
/// every operation keeps it so.
pub proof fn law_unavailable_receivers_have_no_service(
    machine: MachineView,
    available: bool,
    generation: u64,
    attempt: u32,
    role: ReceiverRole,
    phase: SetupPhase,
    retryable: bool,
    error: Seq<char>,
    retry_at: SystemTime,
)
    ensures
        offer_agrees(MachineView::fresh(available)),
        offer_agrees(machine) ==> {
            &&& offer_agrees(machine.with_service(available))
            &&& offer_agrees(machine.begun(generation, attempt))
            &&& offer_agrees(machine.in_setup(role, phase))
            &&& offer_agrees(machine.streaming(role))
            &&& offer_agrees(machine.failed(retryable, error))
            &&& offer_agrees(machine.waiting(attempt, retry_at))
            &&& offer_agrees(machine.retried())
            &&& offer_agrees(machine.left_session())
            &&& offer_agrees(machine.released())
        },
{
}

/// One operation on a receiver's machine.
pub enum MachineStep {
    /// Discovery reports availability.
    Service(bool),
    /// A generation begins.
    Begin {
        /// Generation.
        generation: u64,
        /// Attempt.
        attempt: u32,
    },
    /// Setup progresses.
    Setup {
        /// Role.
        role: ReceiverRole,
        /// Phase.
        phase: SetupPhase,
    },
    /// The transport reports membership.
    Stream(ReceiverRole),
    /// The transport reports a failure.
    Fail {
        /// Whether it may be retried.
        retryable: bool,
        /// Reason text.
        error: Seq<char>,
    },
    /// The backoff is scheduled.
    Wait {
        /// Attempt.
        attempt: u32,
        /// Deadline.
        retry_at: SystemTime,
    },
    /// The receiver is retried at once.
    Retry,
    /// The generation ends.
    Leave,
    /// The receiver is no longer desired.
    Release,
}

/// The machine after one operation.
pub open spec fn machine_stepped(machine: MachineView, step: MachineStep) -> MachineView {
    match step {
        MachineStep::Service(available) => machine.with_service(available),
        MachineStep::Begin { generation, attempt } => machine.begun(generation, attempt),
        MachineStep::Setup { role, phase } => machine.in_setup(role, phase),
        MachineStep::Stream(role) => machine.streaming(role),
        MachineStep::Fail { retryable, error } => machine.failed(retryable, error),
        MachineStep::Wait { attempt, retry_at } => machine.waiting(attempt, retry_at),
        MachineStep::Retry => machine.retried(),
        MachineStep::Leave => machine.left_session(),
        MachineStep::Release => machine.released(),
    }
}

/// A fresh machine after a run of operations.
pub open spec fn machine_ran(service_available: bool, steps: Seq<MachineStep>) -> MachineView
    decreases steps.len(),
{
    if steps.len() == 0 {
        MachineView::fresh(service_available)
    } else {
        machine_stepped(machine_ran(service_available, steps.drop_last()), steps.last())
    }
}

/// Whatever happened to a receiver, it is unavailable only while discovery
/// offers no castable service of it.
pub proof fn law_every_run_is_unavailable_only_without_a_service(
    service_available: bool,
    steps: Seq<MachineStep>,
)
    ensures
        machine_ran(service_available, steps).state is Unavailable ==> !machine_ran(
            service_available,
            steps,
        ).service_available,
    decreases steps.len(),
{
    if steps.len() > 0 {
        law_every_run_is_unavailable_only_without_a_service(service_available, steps.drop_last());
    }
}

/// What each operation leaves of a receiver's machine, field by field: reports
/// of the session put it where they say, discovery moves it only outside a
/// session, a retry frees only what was held back, and the attempt history,
/// the last error, and the service are touched by nothing else.
pub proof fn law_each_operation_changes_only_what_it_reports(
    machine: MachineView,
    available: bool,
    generation: u64,
    attempt: u32,
    role: ReceiverRole,
    retryable: bool,
    error: Seq<char>,
    retry_at: SystemTime,
)
    ensures
        ({
            let held = machine.state is Connecting || machine.state is SettingUp
                || machine.state is Ready || machine.state is Streaming;
            let back = machine.state is RetryWaiting || machine.state is Failed;
            let idle = if machine.service_available {
                LifecycleView::Discovered
            } else {
                LifecycleView::Unavailable
            };
            &&& machine.with_service(available) == (MachineView {
                service_available: available,
                state: if available {
                    if machine.state is Unavailable {
                        LifecycleView::Discovered
                    } else {
                        machine.state
                    }
                } else if held {
                    machine.state
                } else {
                    LifecycleView::Unavailable
                },
                role: if !available && !held { None } else { machine.role },
                ..machine
            })
            &&& machine.begun(generation, attempt) == (MachineView {
                generation,
                attempt,
                role: None,
                state: LifecycleView::Connecting { attempt },
                ..machine
            })
            &&& machine.streaming(role) == (MachineView {
                role: Some(role),
                state: LifecycleView::Streaming { role },
                ..machine
            })
            &&& machine.failed(retryable, error) == (MachineView {
                last_error: Some(error),
                role: None,
                state: LifecycleView::Failed { retryable, error },
                ..machine
            })
            &&& machine.waiting(attempt, retry_at) == (MachineView {
                attempt,
                next_retry: Some(retry_at),
                state: if (machine.state matches LifecycleView::Failed { retryable: may, .. } && may)
                    || machine.state == (LifecycleView::RetryWaiting { attempt, retry_at }) {
                    LifecycleView::RetryWaiting { attempt, retry_at }
                } else {
                    machine.state
                },
                ..machine
            })
            &&& machine.retried() == (MachineView {
                next_retry: None,
                state: if back {
                    LifecycleView::Connecting { attempt: machine.attempt }
                } else {
                    machine.state
                },
                ..machine
            })
            &&& machine.left_session() == (MachineView {
                role: if held { None } else { machine.role },
                state: if held { idle } else { machine.state },
                ..machine
            })
            &&& machine.released() == (MachineView {
                role: None,
                next_retry: None,
                state: if machine.state is Unavailable { LifecycleView::Unavailable } else { idle },
                ..machine
            })
            &&& machine.in_backoff() <==> back
            &&& machine.awaiting_rejoin() <==> machine.state is Discovered
                || machine.state is RetryWaiting || (machine.state matches LifecycleView::Failed {
                retryable: may,
                ..
            } && may)
        }),
{
}

/// Setup progress is taken exactly while connecting or setting up; elsewhere
/// the lifecycle stays.
pub proof fn law_setup_progress_needs_a_connection(
    machine: MachineView,
    role: ReceiverRole,
    phase: SetupPhase,
)
    ensures
        ({
            let after = machine.in_setup(role, phase);
            &&& after == (MachineView { role: Some(role), state: after.state, ..machine })
            &&& after.state == if machine.state is Connecting || machine.state is SettingUp {
                LifecycleView::SettingUp { role, phase }
            } else {
                machine.state
            }
        }),
{
}

} // verus!
