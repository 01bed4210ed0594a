//! Controller operations on the session: volumes, reconciliation, automatic
//! rejoins, suspend and resume, network recovery, and the launch policy.

use vstd::prelude::*;

use crate::actor_model::{
    derived_phase, later, ActorView, RESUME_SETTLE_NANOS, SUSPEND_WATCHDOG_NANOS,
};
use crate::capture::CaptureControl;
use crate::controller::{ControllerActor, Effect, LiveParts, MachineOp, ReconcileCause};
use crate::discovery::{device_views, Device, DiscoveryControl};
use crate::event::{DiagnosticPayload, Severity, SystemTransition};
use crate::idmap::{group_value_views, IdSet};
use crate::ids::ReceiverId;
use crate::model::{AudioFlow, LatencyConfig, RunIntent, SessionPhase, SnapshotView, Volume};
use crate::session::{Gain, SessionRequest};
use crate::time::{Duration, Instant};

verus! {

broadcast use group_value_views;

/// Streaming/Degraded/Stopped from desired versus active membership; while
/// nothing is active the generation is still starting.
pub fn derive_phase(
    desired: &IdSet,
    active: &IdSet,
    intent: RunIntent,
    generation: u64,
) -> (r: SessionPhase)
    ensures
        r@ == derived_phase(desired@, active@, intent, generation),
{
    if intent == RunIntent::Stopped {
        return SessionPhase::Stopped;
    }
    if !desired.is_empty() && active.same_as(desired) {
        SessionPhase::Streaming { generation }
    } else if !active.is_empty() {
        SessionPhase::Degraded { generation }
    } else {
        SessionPhase::Starting { generation }
    }
}

impl ControllerActor {
    /// The volume a receiver plays at: silence while muted, otherwise master
    /// volume times its level, full scale when none is stored.
    pub fn gain_of(&self, receiver: ReceiverId) -> (r: Gain)
        ensures
            r == self@.gain_of(receiver),
    {
        if self.persisted.muted {
            return Gain::Silent;
        }
        let level: Volume = match self.persisted.receiver_levels.get(receiver) {
            Some(level) => *level,
            None => Volume::unity(),
        };
        Gain::Product { master: self.persisted.master_volume, level }
    }

    /// Forwards every active receiver's volume to the running stream.
    pub fn forward_effective_volumes(&mut self)
        ensures
            final(self)@ == old(self)@.forwarding(),
            *final(self) == (ControllerActor { effects: final(self).effects, ..*old(self) }),
    {
        if !self.session_open {
            return;
        }
        let ids: Vec<ReceiverId> = self.active.to_list();
        let ghost start = *self;
        let mut i: usize = 0;
        assert(ids@.take(0) =~= Seq::empty());
        while i < ids.len()
            invariant
                i <= ids@.len(),
                *self == (ControllerActor { effects: self.effects, ..start }),
                self@ == start@.volumes_forwarded(ids@.take(i as int)),
            decreases ids@.len() - i,
        {
            let receiver: ReceiverId = ids[i];
            proof {
                assert(ids@.take(i + 1).drop_last() =~= ids@.take(i as int));
                assert(ids@.take(i + 1).last() == receiver);
            }
            let gain: Gain = self.gain_of(receiver);
            self.push_effect(Effect::Session(SessionRequest::SetVolume { receiver, gain }));
            i = i + 1;
        }
        assert(ids@.take(ids@.len() as int) =~= ids@);
    }

    /// Refreshes the setup-time levels without touching the running stream.
    /// Every desired receiver is included so a pending connection observes
    /// durable changes made while it is pairing.
    pub fn remember_effective_volumes(&mut self)
        ensures
            final(self)@ == old(self)@.remembering(),
            *final(self) == (ControllerActor { effects: final(self).effects, ..*old(self) }),
    {
        if !self.session_open {
            return;
        }
        let ids: Vec<ReceiverId> = self.snapshot.desired_members.to_list();
        let ghost start = *self;
        let mut i: usize = 0;
        assert(ids@.take(0) =~= Seq::empty());
        while i < ids.len()
            invariant
                i <= ids@.len(),
                *self == (ControllerActor { effects: self.effects, ..start }),
                self@ == start@.volumes_remembered(ids@.take(i as int)),
            decreases ids@.len() - i,
        {
            let receiver: ReceiverId = ids[i];
            proof {
                assert(ids@.take(i + 1).drop_last() =~= ids@.take(i as int));
                assert(ids@.take(i + 1).last() == receiver);
            }
            let gain: Gain = self.gain_of(receiver);
            self.push_effect(Effect::RememberVolume(receiver, gain));
            i = i + 1;
        }
        assert(ids@.take(ids@.len() as int) =~= ids@);
    }

    /// Whether a receiver is handed to the transport.
    ///
    /// Receivers serving their backoff stay out until their deadline or a
    /// manual retry releases them, and an undiscoverable receiver cannot be
    /// connected at all.
    fn is_connectable(&self, id: ReceiverId) -> (r: bool)
        ensures
            r == self@.connectable(id),
    {
        let backed_off: bool = match self.machines.get(id) {
            Some(machine) => machine.in_backoff(),
            None => false,
        };
        match self.inventory.get(id) {
            Some(entry) => entry.available && entry.castable && !backed_off && entry.device.is_some(),
            None => false,
        }
    }

    /// The receivers the next reconcile hands down.
    fn wanted(&self) -> (r: Vec<ReceiverId>)
        ensures
            r@ == self@.wanted_now(),
            forall|i: int| 0 <= i < r@.len() ==> self@.connectable(#[trigger] r@[i]),
    {
        let mut wanted: Vec<ReceiverId> = Vec::new();
        if self.snapshot.run_intent == RunIntent::Stopped {
            return wanted;
        }
        let ids: Vec<ReceiverId> = self.snapshot.desired_members.to_list();
        let mut i: usize = 0;
        assert(ids@.take(0) =~= Seq::empty());
        while i < ids.len()
            invariant
                i <= ids@.len(),
                wanted@ == self@.connectable_of(ids@.take(i as int)),
                forall|k: int| 0 <= k < wanted@.len() ==> self@.connectable(#[trigger] wanted@[k]),
            decreases ids@.len() - i,
        {
            proof {
                assert(ids@.take(i + 1).drop_last() =~= ids@.take(i as int));
                assert(ids@.take(i + 1).last() == ids@[i as int]);
            }
            if self.is_connectable(ids[i]) {
                wanted.push(ids[i]);
            }
            i = i + 1;
        }
        assert(ids@.take(ids@.len() as int) =~= ids@);
        wanted
    }

    /// The newest service records of connectable receivers.
    fn records(&self, ids: &Vec<ReceiverId>) -> (r: Vec<Device>)
        requires
            forall|i: int| 0 <= i < ids@.len() ==> self@.connectable(#[trigger] ids@[i]),
        ensures
            device_views(r@) == self@.records_of(ids@),
    {
        let mut records: Vec<Device> = Vec::new();
        let mut i: usize = 0;
        while i < ids.len()
            invariant
                i <= ids@.len(),
                forall|k: int| 0 <= k < ids@.len() ==> self@.connectable(#[trigger] ids@[k]),
                records@.len() == i,
                forall|k: int|
                    0 <= k < i ==> (#[trigger] records@[k])@ == self@.inventory[ids@[k]].device->0,
            decreases ids@.len() - i,
        {
            assert(self@.connectable(ids@[i as int]));
            if let Some(entry) = self.inventory.get(ids[i]) {
                if let Some(device) = &entry.device {
                    records.push(device.clone());
                }
            }
            i = i + 1;
        }
        assert(device_views(records@) =~= self@.records_of(ids@));
        records
    }

    /// Requests one new session generation against the newest desired set.
    ///
    /// A sleeping machine reconciles nothing, and a stopped app builds
    /// nothing whatever the cause: the selection stays visible, and what the
    /// stopped intent hands down is the empty set, which is also how a Stop
    /// tears the live session down.
    pub fn request_reconcile(&mut self, cause: ReconcileCause)
        ensures
            final(self)@ == old(self)@.reconciled(cause),
            final(self).snapshot == old(self).snapshot,
            final(self).policy == old(self).policy,
    {
        proof {
            reveal(ActorView::reconciled);
        }
        if !self.session_open || self.suspended {
            return;
        }
        let stopped: bool = self.snapshot.run_intent == RunIntent::Stopped;
        if stopped && self.active.is_empty() && self.pending_desired.is_empty() {
            return;
        }
        let ghost start = self@;
        let wanted: Vec<ReceiverId> = self.wanted();
        let desired: Vec<Device> = self.records(&wanted);
        let replaced: u64 = self.generations().session;
        self.session_generation = self.session_generation.saturating_add(1);
        self.live_session_generation = Some(self.session_generation);
        if cause == ReconcileCause::CalibrationChanged {
            self.calibration_pending_generation = Some(self.session_generation);
        }
        self.publish_generations();
        self.pending_desired = set_of(&wanted);
        self.remember_effective_volumes();
        let preferred_primary: Option<ReceiverId> = match self.primary {
            Some(primary) => {
                if self.snapshot.desired_members.contains(primary) {
                    Some(primary)
                } else {
                    None
                }
            },
            None => None,
        };
        let latency: LatencyConfig = match self.persisted.latency_preset.enabled_config() {
            Some(config) => config,
            None => LatencyConfig { sender_buffer_ms: 2_000, render_delay_ms: 200 },
        };
        let generation: u64 = self.session_generation;
        self.emit_diagnostics(
            None,
            Severity::Info,
            DiagnosticPayload::SessionRestart { generation: replaced, reason: cause.reason() },
        );
        let calibration = self.calibration.clone();
        self.push_effect(Effect::Session(SessionRequest::Reconcile {
            generation,
            desired,
            preferred_primary,
            latency,
            calibration,
            teardown_only: stopped,
        }));
    }

    /// When an automatic rejoin may pull a receiver back in.
    ///
    /// Three gates apply together, and the latest of them wins: the
    /// receiver's own backoff rung, two continuous seconds of castable
    /// discovery, and thirty seconds since the last rejoin restart.
    fn rejoin_instant(&self, id: ReceiverId) -> (r: Option<Instant>)
        ensures
            r == self@.rejoin_at(id),
    {
        let awaiting: bool = match self.machines.get(id) {
            Some(machine) => machine.awaiting_rejoin(),
            None => false,
        };
        if !awaiting {
            return None;
        }
        match self.rejoin.rejoin_eligible_at(id) {
            None => None,
            Some(window) => {
                let served: Instant = match self.retry.next_retry(id) {
                    Some(deadline) => later_of(window, deadline),
                    None => window,
                };
                match self.rejoin.group_allowed_at() {
                    Some(allowed) => Some(later_of(served, allowed)),
                    None => Some(served),
                }
            },
        }
    }

    /// Receivers an automatic rejoin may pull back in at `now`, plus the
    /// earliest instant at which the next one could become eligible.
    ///
    /// One predicate serves both the timer arm and the firing path, so the
    /// arm can never wake on a deadline the firing path then declines.
    pub fn rejoin_candidates(&self, now: Instant) -> (r: (Vec<ReceiverId>, Option<Instant>))
        ensures
            r.0@ == self@.due_now(now),
            r.1 == self@.next_due(now),
    {
        let mut due: Vec<ReceiverId> = Vec::new();
        let mut next: Option<Instant> = None;
        if self.suspended || self.snapshot.run_intent != RunIntent::Running {
            return (due, next);
        }
        let ids: Vec<ReceiverId> = self.snapshot.desired_members.to_list();
        let mut i: usize = 0;
        assert(ids@.take(0) =~= Seq::empty());
        while i < ids.len()
            invariant
                i <= ids@.len(),
                due@ == self@.due_of(now, ids@.take(i as int)),
                next == self@.next_of(now, ids@.take(i as int)),
            decreases ids@.len() - i,
        {
            let id: ReceiverId = ids[i];
            proof {
                assert(ids@.take(i + 1).drop_last() =~= ids@.take(i as int));
                assert(ids@.take(i + 1).last() == id);
            }
            if let Some(at) = self.rejoin_instant(id) {
                if at.nanos <= now.nanos {
                    due.push(id);
                } else {
                    next = match next {
                        Some(earliest) => {
                            if at.nanos < earliest.nanos {
                                Some(at)
                            } else {
                                Some(earliest)
                            }
                        },
                        None => Some(at),
                    };
                }
            }
            i = i + 1;
        }
        assert(ids@.take(ids@.len() as int) =~= ids@);
        (due, next)
    }

    /// Time left until the next automatic rejoin becomes possible.
    ///
    /// `None` disables the arm entirely, so an idle backend parks on its
    /// event sources instead of waking on a timer that has nothing to do.
    pub fn next_retry_delay(&self, now: Instant) -> (r: Option<Duration>)
        ensures
            r == self@.retry_delay_at(now),
    {
        let (due, next) = self.rejoin_candidates(now);
        if due.len() > 0 {
            return Some(Duration { nanos: 0 });
        }
        match next {
            Some(at) => Some(at.duration_since(now)),
            None => None,
        }
    }

    /// Drops a receiver's deadline and re-enters it.
    pub fn release_receiver(&mut self, receiver: ReceiverId)
        ensures
            final(self)@ == old(self)@.retried(receiver),
            final(self).snapshot == old(self).snapshot,
            final(self).policy == old(self).policy,
    {
        self.retry.clear_deadline(receiver);
        self.drive(receiver, MachineOp::Retry);
    }

    /// Drops the deadlines of several receivers and re-enters them.
    fn release_receivers(&mut self, ids: &Vec<ReceiverId>)
        ensures
            final(self)@ == old(self)@.all_retried(ids@),
            final(self).snapshot == old(self).snapshot,
            final(self).policy == old(self).policy,
    {
        let ghost start = self@;
        let ghost snapshot = self.snapshot;
        let mut i: usize = 0;
        assert(ids@.take(0) =~= Seq::empty());
        while i < ids.len()
            invariant
                i <= ids@.len(),
                self.snapshot == snapshot,
                self.policy == start.policy,
                self@ == start.all_retried(ids@.take(i as int)),
            decreases ids@.len() - i,
        {
            proof {
                assert(ids@.take(i + 1).drop_last() =~= ids@.take(i as int));
                assert(ids@.take(i + 1).last() == ids@[i as int]);
            }
            self.release_receiver(ids[i]);
            i = i + 1;
        }
        assert(ids@.take(ids@.len() as int) =~= ids@);
    }

    /// Rejoins every eligible receiver through one coordinated full restart.
    ///
    /// One request per due batch, never one per receiver: should best-effort
    /// setup omit a receiver again, only that receiver continues its own
    /// backoff while the successful subset keeps streaming.
    pub fn fire_due_retries(&mut self, now: Instant)
        requires
            old(self).snapshot.revision < u64::MAX,
        ensures
            final(self)@ == old(self)@.retries_fired(now),
            final(self).policy == old(self).policy,
            final(self).snapshot.revision <= old(self).snapshot.revision + 1,
    {
        proof {
            reveal(ActorView::retries_fired);
        }
        let (due, _next) = self.rejoin_candidates(now);
        if due.len() == 0 {
            return;
        }
        self.release_receivers(&due);
        self.rejoin.note_restart(now);
        self.republish_rows();
        self.request_reconcile(ReconcileCause::Retry);
    }

    /// Frees every receiver serving a backoff rung so a platform-level
    /// recovery rebuilds the complete desired set instead of a subset.
    pub fn release_backoff(&mut self)
        ensures
            final(self)@ == old(self)@.backoff_released(),
            final(self).snapshot == old(self).snapshot,
            final(self).policy == old(self).policy,
    {
        proof {
            reveal(ActorView::backoff_released);
        }
        let held: IdSet = self.machines_where(false);
        let ids: Vec<ReceiverId> = held.to_list();
        self.release_receivers(&ids);
    }

    /// Suspend: stop producing and streaming, keep wanting to.
    ///
    /// The barrier rises before anything is requested, so the automatic rejoin
    /// arm is dead for the whole teardown. Capture is silenced first so the
    /// bounded session teardown streams silence, and desired membership plus
    /// run intent are retained. The watchdog is the second way out.
    pub fn begin_suspend(&mut self, now: Instant)
        requires
            old(self).snapshot.revision < u64::MAX,
        ensures
            final(self)@ == old(self)@.suspending(now),
            final(self).snapshot.revision <= old(self).snapshot.revision + 1,
            final(self).policy == old(self).policy,
    {
        proof {
            reveal(ActorView::suspending);
        }
        self.suspended = true;
        self.resume_at = Some(now.after(Duration { nanos: SUSPEND_WATCHDOG_NANOS }));
        self.push_effect(Effect::Capture(CaptureControl::Suspend));
        if self.session_open {
            self.push_effect(Effect::Session(SessionRequest::Suspend));
        }
        let mut next: LiveParts = self.live_parts();
        next.session.resume_pending = true;
        next.session.audio_flow = AudioFlow::SilenceBridged;
        let ghost held = self@;
        proof {
            assert(next.over(held.snapshot) =~= (SnapshotView {
                session: crate::model::SessionView {
                    resume_pending: true,
                    audio_flow: AudioFlow::SilenceBridged,
                    ..held.snapshot.session
                },
                ..held.snapshot
            }));
        }
        self.maybe_publish(next);
        self.emit_diagnostics(
            None,
            Severity::Info,
            DiagnosticPayload::SystemTransition { transition: SystemTransition::Suspending },
        );
    }

    /// Resume: arm the interface settle; the suspend gate stays shut until it
    /// elapses.
    pub fn begin_resume(&mut self, now: Instant)
        ensures
            final(self)@ == old(self)@.resuming(now),
            final(self).snapshot == old(self).snapshot,
            final(self).snapshot.revision <= old(self).snapshot.revision + 1,
            final(self).policy == old(self).policy,
    {
        self.resume_at = Some(now.after(Duration { nanos: RESUME_SETTLE_NANOS }));
    }

    /// Time left on the post-resume interface settle, if one is armed.
    pub fn resume_delay(&self, now: Instant) -> (r: Option<Duration>)
        ensures
            r == self@.resume_delay_at(now),
    {
        match self.resume_at {
            Some(deadline) => Some(deadline.duration_since(now)),
            None => None,
        }
    }

    /// Opens the suspend gate and asks the supervisors to start over.
    fn awaken(&mut self)
        ensures
            final(self)@ == old(self)@.awakened(),
            final(self).snapshot == old(self).snapshot,
            final(self).policy == old(self).policy,
    {
        proof {
            reveal(ActorView::awakened);
        }
        self.resume_at = None;
        self.suspended = false;
        self.push_effect(Effect::Discovery(DiscoveryControl::RestartAfterNetworkChange));
        self.push_effect(Effect::Capture(CaptureControl::Resume));
        self.release_backoff();
    }

    /// Shows that no resume is pending any more.
    fn announce_resume(&mut self)
        requires
            old(self).snapshot.revision < u64::MAX,
        ensures
            final(self)@ == old(self)@.resume_announced(),
            final(self).policy == old(self).policy,
            final(self).snapshot.revision <= old(self).snapshot.revision + 1,
    {
        proof {
            reveal(ActorView::resume_announced);
        }
        let mut next: LiveParts = self.live_parts();
        next.session.resume_pending = false;
        let ghost held = self@;
        proof {
            assert(next.over(held.snapshot) =~= (SnapshotView {
                session: crate::model::SessionView { resume_pending: false, ..held.snapshot.session },
                ..held.snapshot
            }));
        }
        self.maybe_publish(next);
        self.emit_diagnostics(
            None,
            Severity::Info,
            DiagnosticPayload::SystemTransition { transition: SystemTransition::Resumed },
        );
    }

    /// The interface settle elapsed: rebuild everything that slept.
    ///
    /// Backoff rungs are policy for a running machine; a sleep is not a
    /// failed attempt, so nothing is held back from the rebuild, and the
    /// rebuild is the restart the rejoin spacing counts.
    pub fn finish_resume(&mut self, now: Instant)
        requires
            old(self).snapshot.revision < u64::MAX,
        ensures
            final(self)@ == old(self)@.resumed(now),
            final(self).policy == old(self).policy,
            final(self).snapshot.revision <= old(self).snapshot.revision + 1,
    {
        proof {
            reveal(ActorView::resumed);
        }
        self.awaken();
        self.announce_resume();
        if self.snapshot.run_intent == RunIntent::Running {
            self.rejoin.note_restart(now);
            self.request_reconcile(ReconcileCause::Resume);
        }
    }

    /// Applies one coalesced network edge.
    ///
    /// Discovery always restarts: a new generation is how stale addresses are
    /// invalidated. The group is rebuilt only when an active local binding
    /// actually moved, and the automatic-rejoin spacing never delays that.
    pub fn apply_network_change(&mut self, local_binding_changed: bool, now: Instant)
        ensures
            final(self)@ == old(self)@.network_changed(local_binding_changed, now),
            final(self).snapshot == old(self).snapshot,
            final(self).snapshot.revision <= old(self).snapshot.revision + 1,
            final(self).policy == old(self).policy,
    {
        proof {
            reveal(ActorView::network_changed);
        }
        self.emit_diagnostics(
            None,
            Severity::Info,
            DiagnosticPayload::SystemTransition {
                transition: SystemTransition::NetworkChanged { local_binding_changed },
            },
        );
        if self.suspended {
            return;
        }
        self.push_effect(Effect::Discovery(DiscoveryControl::RestartAfterNetworkChange));
        if local_binding_changed && self.snapshot.run_intent == RunIntent::Running {
            self.release_backoff();
            self.rejoin.note_restart(now);
            self.request_reconcile(ReconcileCause::NetworkRebind);
        }
    }

    /// Time left until the persisted auto-connect policy could act.
    ///
    /// `None` disables the arm: either the policy is spent, or no desired
    /// receiver currently offers a castable service, or the window would
    /// close before the first one settles.
    pub fn auto_connect_delay(&self, now: Instant) -> (r: Option<Duration>)
        ensures
            r == self@.auto_connect_delay_at(now),
    {
        let until: Instant = match self.startup_auto_connect_until {
            Some(until) => until,
            None => {
                return None;
            },
        };
        if self.suspended || now.nanos > until.nanos {
            return None;
        }
        let ids: Vec<ReceiverId> = self.snapshot.desired_members.to_list();
        let mut first: Option<Instant> = None;
        let mut i: usize = 0;
        assert(ids@.take(0) =~= Seq::empty());
        while i < ids.len()
            invariant
                i <= ids@.len(),
                first == self@.first_eligible(ids@.take(i as int)),
            decreases ids@.len() - i,
        {
            proof {
                assert(ids@.take(i + 1).drop_last() =~= ids@.take(i as int));
                assert(ids@.take(i + 1).last() == ids@[i as int]);
            }
            if let Some(at) = self.rejoin.rejoin_eligible_at(ids[i]) {
                first = match first {
                    Some(earliest) => {
                        if at.nanos < earliest.nanos {
                            Some(at)
                        } else {
                            Some(earliest)
                        }
                    },
                    None => Some(at),
                };
            }
            i = i + 1;
        }
        assert(ids@.take(ids@.len() as int) =~= ids@);
        match first {
            Some(at) => {
                if at.nanos <= until.nanos {
                    Some(at.duration_since(now))
                } else {
                    None
                }
            },
            None => None,
        }
    }

    /// Whether some desired receiver has been castable long enough.
    fn some_member_ready(&self, now: Instant) -> (r: bool)
        ensures
            r == self@.some_member_ready(now),
    {
        let ids: Vec<ReceiverId> = self.snapshot.desired_members.to_list();
        let mut i: usize = 0;
        while i < ids.len()
            invariant
                i <= ids@.len(),
                ids@.to_set() == self.snapshot.desired_members@,
                forall|k: int| 0 <= k < i ==> !crate::recovery::rejoin_allowed(
                    self.rejoin@,
                    now,
                    #[trigger] ids@[k],
                ),
            decreases ids@.len() - i,
        {
            if self.rejoin.may_rejoin(ids[i], now) {
                proof {
                    assert(ids@.contains(ids@[i as int]));
                    assert(ids@.to_set().contains(ids@[i as int]));
                    assert(self@.snapshot.desired_members.contains(ids@[i as int]));
                }
                return true;
            }
            i = i + 1;
        }
        proof {
            assert forall|id: ReceiverId| #[trigger] self@.snapshot.desired_members.contains(id) implies
                !crate::recovery::rejoin_allowed(self@.rejoin, now, id) by {
                assert(ids@.to_set().contains(id));
                let k = ids@.index_of(id);
                assert(ids@[k] == id);
            }
        }
        false
    }

    /// Spends the one automatic start this process owes its persisted policy.
    ///
    /// Membership is deliberately untouched: the only state this changes is
    /// the run intent, so a receiver the user never selected can never be
    /// pulled in by a launch.
    pub fn apply_startup_auto_connect(&mut self, now: Instant)
        requires
            old(self).snapshot.revision < u64::MAX,
        ensures
            final(self)@ == old(self)@.auto_connected(now),
            final(self).policy == old(self).policy,
            final(self).snapshot.revision <= old(self).snapshot.revision + 1,
    {
        proof {
            reveal(ActorView::auto_connected);
        }
        let until: Instant = match self.startup_auto_connect_until {
            Some(until) => until,
            None => {
                return;
            },
        };
        if self.suspended {
            return;
        }
        if now.nanos > until.nanos {
            self.startup_auto_connect_until = None;
            return;
        }
        if self.snapshot.run_intent != RunIntent::Stopped {
            self.startup_auto_connect_until = None;
            return;
        }
        if !self.some_member_ready(now) {
            return;
        }
        self.startup_auto_connect_until = None;
        self.snapshot.run_intent = RunIntent::Running;
        self.publish();
        self.request_reconcile(ReconcileCause::Membership);
    }
}

/// The later of two instants.
fn later_of(a: Instant, b: Instant) -> (r: Instant)
    ensures
        r == later(a, b),
{
    if a.nanos < b.nanos { b } else { a }
}

/// The set of a list of receivers.
pub fn set_of(ids: &Vec<ReceiverId>) -> (r: IdSet)
    ensures
        r@ == ids@.to_set(),
{
    let mut set: IdSet = IdSet::new();
    let mut i: usize = 0;
    assert(ids@.take(0).to_set() =~= Set::empty());
    while i < ids.len()
        invariant
            i <= ids@.len(),
            set@ == ids@.take(i as int).to_set(),
        decreases ids@.len() - i,
    {
        set.insert(ids[i]);
        proof {
            let before = ids@.take(i as int);
            assert(ids@.take(i + 1) =~= before.push(ids@[i as int]));
            before.lemma_push_to_set_commute(ids@[i as int]);
        }
        i = i + 1;
    }
    assert(ids@.take(ids@.len() as int) =~= ids@);
    set
}

} // verus!
