//! The single-owner device backend controller.
//!
//! The controller is the only mutator of device domain state. It consumes
//! coalesced command batches and supervisor updates, persists every accepted
//! durable intent before publishing it, and publishes complete snapshot
//! revisions. It performs no I/O itself: each operation appends what has to be
//! done to an ordered list of effects.

use vstd::prelude::*;

use crate::actor_model::{
    invariant_text, op_applied, op_rejection, ActorView, EffectView, EntryView,
    OpView,
};
use crate::calibration::CalibrationProfile;
use crate::capture::CaptureControl;
use crate::discovery::{Device, DiscoveryControl};
use crate::event::{
    category_of_kind, kind_category, BackendEvent, DiagnosticCategory, DiagnosticDraft,
    DiagnosticKind, DiagnosticPayload, Generations, Severity,
};
use crate::idmap::{ascending, ascending_list, group_value_views, value_views, IdMap, IdSet};
use crate::ids::ReceiverId;
use crate::listening_check::ListeningTestGuard;
use crate::machine::{InvalidTransition, ReceiverMachine};
use crate::model::{
    row_views, AudioEndpointPreference, AudioSourceSnapshot, CommandOutcomes, DeviceSnapshot,
    DiscoverySnapshot, ReceiverLifecycle, ReceiverRole, ReceiverSnapshot, SessionPhase,
    SessionSnapshot, SnapshotView, UserFacingError,
};
use crate::persistence::PersistedStateV1;
use crate::recovery::{RejoinRestartLimiter, RetryPolicy, RetryState};
use crate::session::{Gain, SessionRequest};
use crate::snapshot::{clone_rows, same_phase, same_rows};
use crate::text::{lemma_listing_projects, sort_for_listing};
use crate::time::{Instant, SystemTime};

pub use crate::actor_model::{CommitOutcome, Moment, ReconcileCause};

verus! {

broadcast use group_value_views;

/// One thing the application does for the controller.
#[derive(Debug)]
pub enum Effect {
    /// Broadcast a shell event.
    Event(BackendEvent),
    /// Stamp and emit a diagnostic record.
    Diagnostic(DiagnosticDraft),
    /// Publish a snapshot.
    Publish(DeviceSnapshot),
    /// Hand the controller's counters to the shared view.
    PublishGenerations(Generations),
    /// Ask the session supervisor.
    Session(SessionRequest),
    /// Seed a receiver's setup-time volume.
    RememberVolume(ReceiverId, Gain),
    /// Ask the capture supervisor.
    Capture(CaptureControl),
    /// Hand the endpoint preference to the capture supervisor.
    CapturePreference(AudioEndpointPreference),
    /// Ask the discovery supervisor.
    Discovery(DiscoveryControl),
    /// Request an endpoint scan.
    ScanEndpoints,
    /// Cancel the playing listening tone.
    CancelTone,
    /// Inject the alignment click pattern.
    InjectClicks,
}

impl View for Effect {
    type V = EffectView;

    open spec fn view(&self) -> EffectView {
        match *self {
            Effect::Event(event) => EffectView::Event(event@),
            Effect::Diagnostic(draft) => EffectView::Diagnostic(draft@),
            Effect::Publish(snapshot) => EffectView::Publish(snapshot@),
            Effect::PublishGenerations(generations) => EffectView::PublishGenerations(generations),
            Effect::Session(request) => EffectView::Session(request@),
            Effect::RememberVolume(receiver, gain) => EffectView::RememberVolume(receiver, gain),
            Effect::Capture(control) => EffectView::Capture(control),
            Effect::CapturePreference(preference) => EffectView::CapturePreference(preference@),
            Effect::Discovery(control) => EffectView::Discovery(control),
            Effect::ScanEndpoints => EffectView::ScanEndpoints,
            Effect::CancelTone => EffectView::CancelTone,
            Effect::InjectClicks => EffectView::InjectClicks,
        }
    }
}

/// The effects of a list, each as values.
pub open spec fn effect_views(effects: Seq<Effect>) -> Seq<EffectView> {
    effects.map_values(|effect: Effect| effect@)
}

/// One receiver record mirrored from discovery events.
#[derive(Debug)]
pub struct InventoryEntry {
    /// Display name.
    pub name: String,
    /// Castable service.
    pub castable: bool,
    /// Currently present.
    pub available: bool,
    /// Newest service record.
    pub device: Option<Device>,
}

impl View for InventoryEntry {
    type V = EntryView;

    open spec fn view(&self) -> EntryView {
        EntryView {
            name: self.name@,
            castable: self.castable,
            available: self.available,
            device: match self.device {
                Some(device) => Some(device@),
                None => None,
            },
        }
    }
}

/// A lifecycle operation driven by the controller.
#[derive(Debug)]
pub enum MachineOp {
    /// Discovery availability.
    SetService(bool),
    /// Entering a session generation.
    Begin {
        /// Generation.
        generation: u64,
        /// Attempt.
        attempt: u32,
    },
    /// Reported membership.
    Streaming(ReceiverRole),
    /// Reported failure.
    Fail {
        /// Whether it may be retried.
        retryable: bool,
        /// Pre-redacted reason.
        error: UserFacingError,
    },
    /// Scheduled backoff.
    Wait {
        /// Attempt.
        attempt: u32,
        /// Deadline.
        retry_at: SystemTime,
    },
    /// Immediate retry.
    Retry,
}

impl View for MachineOp {
    type V = OpView;

    open spec fn view(&self) -> OpView {
        match *self {
            MachineOp::SetService(available) => OpView::SetService(available),
            MachineOp::Begin { generation, attempt } => OpView::Begin { generation, attempt },
            MachineOp::Streaming(role) => OpView::Streaming(role),
            MachineOp::Fail { retryable, error } => OpView::Fail { retryable, error: error@ },
            MachineOp::Wait { attempt, retry_at } => OpView::Wait { attempt, retry_at },
            MachineOp::Retry => OpView::Retry,
        }
    }
}

/// The snapshot parts that supervisor updates change.
#[derive(Debug)]
pub struct LiveParts {
    /// Discovery state.
    pub discovery: DiscoverySnapshot,
    /// Receiver rows.
    pub receivers: Vec<ReceiverSnapshot>,
    /// Session state.
    pub session: SessionSnapshot,
    /// Capture state.
    pub audio_source: AudioSourceSnapshot,
}

impl LiveParts {
    /// A snapshot with these parts.
    pub open spec fn over(self, snapshot: SnapshotView) -> SnapshotView {
        SnapshotView {
            discovery: self.discovery,
            receivers: row_views(self.receivers@),
            session: self.session@,
            audio_source: self.audio_source@,
            ..snapshot
        }
    }
}

/// The single-owner controller state.
#[derive(Debug)]
pub struct ControllerActor {
    /// Configuration the playing tone is bound to.
    pub listening_test: Option<ListeningTestGuard>,
    /// Session generation that already played a tone.
    pub last_listening_test_generation: Option<u64>,
    /// Authoritative snapshot.
    pub snapshot: DeviceSnapshot,
    /// Completion history of the latest publication.
    pub published_outcomes: CommandOutcomes,
    /// Durable state.
    pub persisted: PersistedStateV1,
    /// Durable manual calibration intent; deliberately not part of the
    /// published snapshot.
    pub calibration: CalibrationProfile,
    /// Session generation minted for a calibration change that has not yet
    /// been seen to carry a live session.
    pub calibration_pending_generation: Option<u64>,
    /// Discovery inventory.
    pub inventory: IdMap<InventoryEntry>,
    /// Last-known names of saved members.
    pub saved_names: IdMap<String>,
    /// Monotonic session generation mint.
    pub session_generation: u64,
    /// Generation of the session that is actually live, or `None` while none
    /// is.
    pub live_session_generation: Option<u64>,
    /// Newest capture generation reported, or zero while none runs.
    pub capture_generation: u64,
    /// Browse generation published by the discovery supervisor.
    pub browse_generation: u64,
    /// Newest browse generation reported.
    pub seen_discovery_generation: u64,
    /// Current primary.
    pub primary: Option<ReceiverId>,
    /// Connected receivers.
    pub active: IdSet,
    /// Discovery failures reported.
    pub discovery_failures: u32,
    /// One lifecycle machine per known receiver; the sole author of the
    /// lifecycles published in the snapshot.
    pub machines: IdMap<ReceiverMachine>,
    /// Attempt counters, backoff deadlines, and healthy-streaming windows.
    pub retry: RetryState,
    /// Retry ladder.
    pub policy: RetryPolicy,
    /// Discovery-stability window and spacing gate of automatic rejoins.
    pub rejoin: RejoinRestartLimiter,
    /// Desired set of the reconcile currently in flight.
    pub pending_desired: IdSet,
    /// Whether the platform announced a suspend that no resume has ended yet.
    pub suspended: bool,
    /// Deadline at which the suspend ends, whatever raised it.
    pub resume_at: Option<Instant>,
    /// Instant past which the persisted auto-connect policy may no longer
    /// act, or `None` once this process has settled the question for good.
    pub startup_auto_connect_until: Option<Instant>,
    /// Whether the session supervisor takes requests.
    pub session_open: bool,
    /// Effects in order.
    pub effects: Vec<Effect>,
}

impl View for ControllerActor {
    type V = ActorView;

    open spec fn view(&self) -> ActorView {
        ActorView {
            listening_test: match self.listening_test {
                Some(guard) => Some(guard@),
                None => None,
            },
            last_listening_test_generation: self.last_listening_test_generation,
            snapshot: self.snapshot@,
            published_outcomes: self.published_outcomes@,
            persisted: self.persisted@,
            calibration: self.calibration@,
            calibration_pending_generation: self.calibration_pending_generation,
            inventory: value_views(self.inventory@),
            saved_names: value_views(self.saved_names@),
            session_generation: self.session_generation,
            live_session_generation: self.live_session_generation,
            capture_generation: self.capture_generation,
            browse_generation: self.browse_generation,
            seen_discovery_generation: self.seen_discovery_generation,
            primary: self.primary,
            active: self.active@,
            discovery_failures: self.discovery_failures,
            machines: value_views(self.machines@),
            retry: self.retry@,
            policy: self.policy,
            rejoin: self.rejoin@,
            pending_desired: self.pending_desired@,
            suspended: self.suspended,
            resume_at: self.resume_at,
            startup_auto_connect_until: self.startup_auto_connect_until,
            session_open: self.session_open,
            effects: effect_views(self.effects@),
        }
    }
}

/// Category of a controller diagnostic.
pub fn category_of(kind: DiagnosticKind) -> (r: DiagnosticCategory)
    ensures
        r == kind_category(kind),
{
    category_of_kind(kind)
}

impl ControllerActor {
    /// Appends one effect.
    pub fn push_effect(&mut self, effect: Effect)
        ensures
            final(self)@ == old(self)@.doing(effect@),
            *final(self) == (ControllerActor { effects: final(self).effects, ..*old(self) }),
    {
        let ghost before = self.effects@;
        self.effects.push(effect);
        proof {
            assert(effect_views(self.effects@) =~= effect_views(before).push(effect@));
        }
    }

    /// Hands out the effects collected so far.
    pub fn take_effects(&mut self) -> (r: Vec<Effect>)
        ensures
            effect_views(r@) == old(self)@.effects,
            final(self)@ == (ActorView { effects: Seq::empty(), ..old(self)@ }),
            final(self).policy == old(self).policy,
    {
        let mut taken: Vec<Effect> = Vec::new();
        core::mem::swap(&mut self.effects, &mut taken);
        proof {
            assert(effect_views(self.effects@) =~= Seq::empty());
        }
        taken
    }

    /// The three generation counters every diagnostic is correlated by.
    ///
    /// Read from the controller's own view rather than from the snapshot: the
    /// snapshot is the published state and lags by one publication during the
    /// window in which most failure diagnostics are written.
    pub fn generations(&self) -> (r: Generations)
        ensures
            r == self@.generations(),
    {
        Generations {
            session: match self.live_session_generation {
                Some(generation) => generation,
                None => 0,
            },
            discovery: if self.browse_generation < self.seen_discovery_generation {
                self.seen_discovery_generation
            } else {
                self.browse_generation
            },
            capture: self.capture_generation,
        }
    }

    /// Records the browse generation its supervisor published.
    pub fn note_browse_generation(&mut self, generation: u64)
        ensures
            final(self)@ == (ActorView { browse_generation: generation, ..old(self)@ }),
            final(self).policy == old(self).policy,
    {
        self.browse_generation = generation;
    }

    /// Emits one diagnostic under the live generations.
    pub fn emit_diagnostics(
        &mut self,
        receiver: Option<ReceiverId>,
        severity: Severity,
        payload: DiagnosticPayload,
    )
        ensures
            final(self)@ == old(self)@.emitting(receiver, severity, payload@),
            *final(self) == (ControllerActor { effects: final(self).effects, ..*old(self) }),
    {
        let category: DiagnosticCategory = category_of(payload.kind());
        let generations: Generations = self.generations();
        self.push_effect(Effect::Diagnostic(
            DiagnosticDraft { generations, receiver, severity, category, payload },
        ));
    }

    /// Hands the counters the controller owns to the supervisors' shared
    /// view.
    pub fn publish_generations(&mut self)
        ensures
            final(self)@ == old(self)@.sharing_generations(),
            *final(self) == (ControllerActor { effects: final(self).effects, ..*old(self) }),
    {
        let generations: Generations = self.generations();
        self.push_effect(Effect::PublishGenerations(generations));
    }

    /// Publishes the current snapshot as a new revision; a listening tone
    /// whose configuration changed is cancelled first.
    pub fn publish(&mut self)
        requires
            old(self).snapshot.revision < u64::MAX,
        ensures
            final(self)@ == old(self)@.published(),
            final(self).snapshot.revision == old(self).snapshot.revision + 1,
            final(self).snapshot.run_intent == old(self).snapshot.run_intent,
            final(self).policy == old(self).policy,
    {
        proof {
            reveal(ActorView::published);
        }
        let stale: bool = match &self.listening_test {
            Some(guard) => !guard.matches(&self.snapshot),
            None => false,
        };
        if stale {
            self.listening_test = None;
            self.push_effect(Effect::CancelTone);
        }
        self.snapshot.revision = self.snapshot.revision + 1;
        self.snapshot.sort_for_publication();
        self.published_outcomes = self.snapshot.command_outcomes.clone();
        let copy: DeviceSnapshot = self.snapshot.clone();
        self.push_effect(Effect::Publish(copy));
    }

    /// Copies of the snapshot parts that supervisor updates change.
    pub fn live_parts(&self) -> (r: LiveParts)
        ensures
            r.discovery == self.snapshot.discovery,
            r.receivers@ == self.snapshot.receivers@,
            r.session@ == self.snapshot.session@,
            r.audio_source@ == self.snapshot.audio_source@,
            r.over(self@.snapshot) == self@.snapshot,
    {
        LiveParts {
            discovery: self.snapshot.discovery,
            receivers: clone_rows(&self.snapshot.receivers),
            session: self.snapshot.session.clone(),
            audio_source: self.snapshot.audio_source.clone(),
        }
    }

    /// Applies a supervisor-driven change only when it alters visible state.
    ///
    /// Every session start, degrade, restart, and stop passes through here,
    /// so a phase change is always announced.
    pub fn maybe_publish(&mut self, next: LiveParts)
        requires
            old(self).snapshot.revision < u64::MAX,
        ensures
            final(self)@ == old(self)@.showing(next.over(old(self)@.snapshot)),
            final(self).snapshot.revision <= old(self).snapshot.revision + 1,
            final(self).snapshot.run_intent == old(self).snapshot.run_intent,
            final(self).policy == old(self).policy,
    {
        proof {
            reveal(ActorView::showing);
        }
        let ghost target = next.over(self@.snapshot);
        let same: bool = next.discovery == self.snapshot.discovery
            && same_rows(&next.receivers, &self.snapshot.receivers)
            && next.session.same_as(&self.snapshot.session)
            && next.audio_source.same_as(&self.snapshot.audio_source);
        if same {
            proof {
                assert(target =~= self@.snapshot);
            }
            return;
        }
        proof {
            assert(target != self@.snapshot);
        }
        let phase_changed: bool = !same_phase(&next.session.phase, &self.snapshot.session.phase);
        let phase: SessionPhase = next.session.phase.clone();
        let len: usize = next.session.active.len();
        let active_members: u32 = if len > u32::MAX as usize { u32::MAX } else { len as u32 };
        self.snapshot.discovery = next.discovery;
        self.snapshot.receivers = next.receivers;
        self.snapshot.session = next.session;
        self.snapshot.audio_source = next.audio_source;
        proof {
            assert(self@.snapshot =~= target);
            assert(self@ =~= (ActorView { snapshot: target, ..old(self)@ }));
        }
        self.publish();
        if !phase_changed {
            return;
        }
        let severity: Severity = match &phase {
            SessionPhase::Failed { .. } => Severity::Error,
            SessionPhase::Degraded { .. } => Severity::Warning,
            SessionPhase::Restarting { .. } => Severity::Warning,
            _ => Severity::Info,
        };
        self.emit_diagnostics(
            None,
            severity,
            DiagnosticPayload::SessionTransition { phase, active_members },
        );
    }

    /// Whether discovery currently offers a castable AirPlay service.
    pub fn castable(&self, id: ReceiverId) -> (r: bool)
        ensures
            r == self@.castable(id),
    {
        match self.inventory.get(id) {
            Some(entry) => entry.available && entry.castable,
            None => false,
        }
    }

    /// Drops inventory records that are neither wanted nor castable.
    fn prune_inventory(&mut self)
        ensures
            final(self)@ == old(self)@.pruned(),
            *final(self) == (ControllerActor { inventory: final(self).inventory, ..*old(self) }),
    {
        let keys: Vec<ReceiverId> = self.inventory.keys();
        let ghost before = *self;
        let ghost held = self.inventory@;
        let mut i: usize = 0;
        while i < keys.len()
            invariant
                i <= keys@.len(),
                ascending(keys@),
                keys@.to_set() == held.dom(),
                held == before.inventory@,
                *self == (ControllerActor { inventory: self.inventory, ..before }),
                forall|id: ReceiverId| #[trigger] self.inventory@.contains_key(id)
                    ==> held.contains_key(id) && self.inventory@[id] == held[id],
                forall|k: int| 0 <= k < i ==> (self.inventory@.contains_key(#[trigger] keys@[k]) <==>
                    before.snapshot.desired_members@.contains(keys@[k]) || before@.castable(keys@[k])),
                forall|k: int| i <= k < keys@.len() ==> self.inventory@.contains_key(#[trigger] keys@[k]),
            decreases keys@.len() - i,
        {
            let id: ReceiverId = keys[i];
            proof {
                assert(self.inventory@.contains_key(keys@[i as int]));
                assert(held[id] == self.inventory@[id]);
                assert(self@.castable(id) == before@.castable(id));
            }
            let ghost current = self.inventory@;
            if !self.snapshot.desired_members.contains(id) && !self.castable(id) {
                let _dropped = self.inventory.take(id);
                proof {
                    assert forall|k: int| 0 <= k < keys@.len() && k != i implies
                        #[trigger] keys@[k] != id by {
                        if k < i {
                            assert(keys@[k].key() < keys@[i as int].key());
                        } else {
                            assert(keys@[i as int].key() < keys@[k].key());
                        }
                    }
                    assert forall|r: ReceiverId| #[trigger] self.inventory@.contains_key(r) implies
                        held.contains_key(r) && self.inventory@[r] == held[r] by {
                        assert(current.contains_key(r));
                    }
                }
            }
            i = i + 1;
        }
        proof {
            assert forall|id: ReceiverId| self.inventory@.contains_key(id) <==> (
                held.contains_key(id) && (before.snapshot.desired_members@.contains(id)
                    || before@.castable(id))) by {
                if held.contains_key(id) {
                    assert(keys@.to_set().contains(id));
                    let k = keys@.index_of(id);
                    assert(keys@[k] == id);
                }
                if self.inventory@.contains_key(id) {
                    assert(held[id] == self.inventory@[id]);
                }
            }
            assert(value_views(self.inventory@) =~= before@.pruned().inventory) by {
                assert forall|id: ReceiverId| self.inventory@.contains_key(id) implies
                    self.inventory@[id] == held[id] by {
                    assert(held[id] == held[id]);
                }
            }
        }
    }

    /// Receivers that are known or wanted.
    fn scope(&self) -> (r: IdSet)
        ensures
            r@ == self@.scope(),
    {
        let mut scope: IdSet = self.snapshot.desired_members.copied();
        let keys: Vec<ReceiverId> = self.inventory.keys();
        let mut i: usize = 0;
        while i < keys.len()
            invariant
                i <= keys@.len(),
                forall|id: ReceiverId| #[trigger] scope@.contains(id) <==>
                    self.snapshot.desired_members@.contains(id) || keys@.take(i as int).contains(id),
            decreases keys@.len() - i,
        {
            let ghost before = scope@;
            scope.insert(keys[i]);
            proof {
                let id = keys@[i as int];
                assert(keys@.take(i + 1) =~= keys@.take(i as int).push(id));
                assert forall|x: ReceiverId| keys@.take(i + 1).contains(x) <==>
                    keys@.take(i as int).contains(x) || x == id by {
                    if keys@.take(i as int).contains(x) {
                        let k = keys@.take(i as int).index_of(x);
                        assert(keys@.take(i + 1)[k] == x);
                    }
                    if x == id {
                        assert(keys@.take(i + 1)[i as int] == x);
                    }
                    if keys@.take(i + 1).contains(x) {
                        let k = keys@.take(i + 1).index_of(x);
                        if k < i {
                            assert(keys@.take(i as int)[k] == x);
                        }
                    }
                }
                assert forall|x: ReceiverId| #[trigger] scope@.contains(x) <==>
                    self.snapshot.desired_members@.contains(x) || keys@.take(i + 1).contains(x) by {
                    assert(before.contains(x) <==> self.snapshot.desired_members@.contains(x)
                        || keys@.take(i as int).contains(x));
                }
            }
            i = i + 1;
        }
        proof {
            assert(keys@.take(keys@.len() as int) =~= keys@);
            assert forall|id: ReceiverId| keys@.contains(id) <==> self.inventory@.contains_key(id) by {
                assert(keys@.to_set().contains(id) <==> keys@.contains(id));
            }
            assert(scope@ =~= self@.scope());
        }
        scope
    }
}

impl ControllerActor {
    /// Keeps machines for exactly the receivers in scope; undesired ones are
    /// released and lose their pending deadline.
    #[verifier::rlimit(50)]
    fn regroup_machines(&mut self)
        ensures
            final(self)@ == old(self)@.regrouped(),
            *final(self) == (ControllerActor {
                machines: final(self).machines,
                retry: final(self).retry,
                ..*old(self)
            }),
    {
        let ghost before = *self;
        let ghost target = before@.regrouped();
        let scope: IdSet = self.scope();
        let ids: Vec<ReceiverId> = scope.to_list();
        let mut kept: IdMap<ReceiverMachine> = IdMap::new();
        let mut i: usize = 0;
        while i < ids.len()
            invariant
                i <= ids@.len(),
                ascending(ids@),
                ids@.to_set() == before@.scope(),
                target == before@.regrouped(),
                *self == (ControllerActor { machines: self.machines, retry: self.retry, ..before }),
                forall|id: ReceiverId| #[trigger] kept@.contains_key(id) <==> ids@.take(i as int).contains(id),
                forall|k: int| 0 <= k < i ==> kept@[#[trigger] ids@[k]]@ == target.machines[ids@[k]],
                forall|k: int| i <= k < ids@.len() ==> (
                    self.machines@.contains_key(#[trigger] ids@[k]) <==> before.machines@.contains_key(ids@[k])),
                forall|k: int| i <= k < ids@.len() && before.machines@.contains_key(#[trigger] ids@[k])
                    ==> self.machines@[ids@[k]] == before.machines@[ids@[k]],
                self.retry@.dom() == before.retry@.dom(),
                forall|id: ReceiverId| #[trigger] before.retry@.contains_key(id) ==> self.retry@[id]
                    == if ids@.take(i as int).contains(id) { target.retry[id] } else { before.retry@[id] },
            decreases ids@.len() - i,
        {
            let id: ReceiverId = ids[i];
            let ghost kept_before = kept@;
            let ghost retry_before = self.retry@;
            let ghost machines_before = self.machines@;
            proof {
                assert(ids@.contains(ids@[i as int]));
                assert(ids@.to_set().contains(id));
                assert(before@.scope().contains(id));
                assert(ids@.take(i + 1) =~= ids@.take(i as int).push(id));
                assert forall|k: int| 0 <= k < ids@.len() && k != i implies #[trigger] ids@[k] != id by {
                    if k < i {
                        assert(ids@[k].key() < ids@[i as int].key());
                    } else {
                        assert(ids@[i as int].key() < ids@[k].key());
                    }
                }
                assert forall|x: ReceiverId| #[trigger] ids@.take(i + 1).contains(x) <==>
                    ids@.take(i as int).contains(x) || x == id by {
                    if ids@.take(i as int).contains(x) {
                        let k = ids@.take(i as int).index_of(x);
                        assert(ids@.take(i + 1)[k] == x);
                    }
                    if x == id {
                        assert(ids@.take(i + 1)[i as int] == x);
                    }
                    if ids@.take(i + 1).contains(x) {
                        let k = ids@.take(i + 1).index_of(x);
                        if k < i {
                            assert(ids@.take(i as int)[k] == x);
                        }
                    }
                }
                assert(!ids@.take(i as int).contains(id)) by {
                    if ids@.take(i as int).contains(id) {
                        let k = ids@.take(i as int).index_of(id);
                        assert(ids@[k] == id);
                    }
                }
            }
            let castable: bool = self.castable(id);
            let taken: Option<ReceiverMachine> = self.machines.take(id);
            let mut machine: ReceiverMachine = match taken {
                Some(machine) => machine,
                None => ReceiverMachine::new(castable),
            };
            proof {
                assert(machine@ == before@.machine_of(id));
            }
            if !self.snapshot.desired_members.contains(id) {
                machine.release();
                self.retry.clear_deadline(id);
            }
            proof {
                assert(machine@ == target.machines[id]);
                assert(self.retry@.dom() =~= before.retry@.dom());
                assert forall|x: ReceiverId| #[trigger] before.retry@.contains_key(x) implies
                    self.retry@[x] == if ids@.take(i + 1).contains(x) {
                        target.retry[x]
                    } else {
                        before.retry@[x]
                    } by {
                    assert(ids@.take(i + 1).contains(x) <==> ids@.take(i as int).contains(x) || x == id);
                }
            }
            kept.insert(id, machine);
            proof {
                assert forall|k: int| 0 <= k < i + 1 implies
                    kept@[#[trigger] ids@[k]]@ == target.machines[ids@[k]] by {
                    if k < i {
                        assert(kept_before[ids@[k]]@ == target.machines[ids@[k]]);
                    }
                }
            }
            i = i + 1;
        }
        self.machines = kept;
        proof {
            assert(ids@.take(ids@.len() as int) =~= ids@);
            assert forall|x: ReceiverId| ids@.contains(x) <==> before@.scope().contains(x) by {
                assert(ids@.to_set().contains(x) <==> ids@.contains(x));
            }
            assert(value_views(self.machines@) =~= target.machines) by {
                assert forall|x: ReceiverId| self.machines@.contains_key(x) implies
                    #[trigger] value_views(self.machines@)[x] == target.machines[x] by {
                    assert(ids@.contains(x));
                    let k = ids@.index_of(x);
                    assert(ids@[k] == x);
                }
                assert forall|x: ReceiverId| value_views(self.machines@).contains_key(x) <==>
                    target.machines.contains_key(x) by {
                    assert(self.machines@.contains_key(x) <==> ids@.contains(x));
                }
            }
            assert(self.retry@ =~= target.retry) by {
                assert forall|x: ReceiverId| before.retry@.contains_key(x) implies
                    #[trigger] self.retry@[x] == target.retry[x] by {
                    if !ids@.contains(x) {
                        assert(!before@.scope().contains(x));
                    }
                }
            }
        }
    }

    /// Brings the machines in line with inventory and desired membership.
    ///
    /// A receiver that is no longer desired disappears only once it is
    /// actually unavailable, and is released at once, so the active set and
    /// its row can never disagree about whether it still streams.
    pub(crate) fn realign(&mut self)
        ensures
            final(self)@ == old(self)@.realigned(),
            *final(self) == (ControllerActor {
                inventory: final(self).inventory,
                machines: final(self).machines,
                retry: final(self).retry,
                ..*old(self)
            }),
    {
        self.prune_inventory();
        self.regroup_machines();
    }

    /// The row of one receiver.
    fn row(&self, id: ReceiverId) -> (r: ReceiverSnapshot)
        requires
            self.machines@.contains_key(id),
        ensures
            r@ == self@.row(id),
    {
        let saved: String = match self.saved_names.get(id) {
            Some(name) => name.clone(),
            None => String::new(),
        };
        let (name, model): (String, String) = match self.inventory.get(id) {
            Some(entry) => {
                let name: String = if entry.name.as_str().is_empty() {
                    saved
                } else {
                    entry.name.clone()
                };
                let model: String = match &entry.device {
                    Some(device) => device.model.clone(),
                    None => String::new(),
                };
                (name, model)
            },
            None => (saved, String::new()),
        };
        let lifecycle: ReceiverLifecycle = match self.machines.get(id) {
            Some(machine) => machine.state().clone(),
            None => ReceiverLifecycle::Unavailable,
        };
        ReceiverSnapshot { id, name, model, lifecycle }
    }

    /// The rows of every receiver in scope, in identity order.
    pub(crate) fn build_rows(&self) -> (r: Vec<ReceiverSnapshot>)
        requires
            self@.machines.dom() == self@.scope(),
        ensures
            row_views(r@) == self@.rows(ascending_list(self@.scope())),
    {
        let scope: IdSet = self.scope();
        let ids: Vec<ReceiverId> = scope.to_list();
        let mut rows: Vec<ReceiverSnapshot> = Vec::new();
        let mut i: usize = 0;
        while i < ids.len()
            invariant
                i <= ids@.len(),
                ids@.to_set() == self@.scope(),
                self@.machines.dom() == self@.scope(),
                rows@.len() == i,
                forall|k: int| 0 <= k < i ==> (#[trigger] rows@[k])@ == self@.row(ids@[k]),
            decreases ids@.len() - i,
        {
            proof {
                assert(ids@.contains(ids@[i as int]));
                assert(ids@.to_set().contains(ids@[i as int]));
                assert(self@.machines.dom().contains(ids@[i as int]));
            }
            rows.push(self.row(ids[i]));
            i = i + 1;
        }
        proof {
            assert(row_views(rows@) =~= self@.rows(ids@));
        }
        rows
    }

    /// Receivers whose machine satisfies a test: waiting for a retry, or in
    /// backoff at all.
    pub(crate) fn machines_where(&self, waiting_only: bool) -> (r: IdSet)
        ensures
            r@ == if waiting_only { self@.waiting() } else { self@.backed_off() },
    {
        let keys: Vec<ReceiverId> = self.machines.keys();
        let mut found: IdSet = IdSet::new();
        let mut i: usize = 0;
        let ghost wanted = if waiting_only { self@.waiting() } else { self@.backed_off() };
        while i < keys.len()
            invariant
                i <= keys@.len(),
                keys@.to_set() == self.machines@.dom(),
                wanted == if waiting_only { self@.waiting() } else { self@.backed_off() },
                forall|id: ReceiverId| #[trigger] found@.contains(id) ==> wanted.contains(id),
                forall|k: int| 0 <= k < i && wanted.contains(#[trigger] keys@[k]) ==> found@.contains(keys@[k]),
            decreases keys@.len() - i,
        {
            let id: ReceiverId = keys[i];
            let hit: bool = match self.machines.get(id) {
                Some(machine) => {
                    if waiting_only {
                        matches!(machine.state(), ReceiverLifecycle::RetryWaiting { .. })
                    } else {
                        machine.in_backoff()
                    }
                },
                None => false,
            };
            let ghost before = found@;
            if hit {
                found.insert(id);
            }
            proof {
                assert forall|k: int| 0 <= k < i + 1 && wanted.contains(#[trigger] keys@[k]) implies
                    found@.contains(keys@[k]) by {
                    if k < i {
                        assert(before.contains(keys@[k]));
                    }
                }
                assert forall|x: ReceiverId| #[trigger] found@.contains(x) implies wanted.contains(x) by {
                    if x != id {
                        assert(before.contains(x));
                    }
                }
            }
            i = i + 1;
        }
        proof {
            assert forall|id: ReceiverId| wanted.contains(id) implies found@.contains(id) by {
                assert(self.machines@.contains_key(id));
                assert(keys@.to_set().contains(id));
                let k = keys@.index_of(id);
                assert(keys@[k] == id);
            }
            assert(found@ =~= wanted);
        }
        found
    }

    /// Rebuilds the rows of `next` from the machines and publishes when
    /// anything moved.
    ///
    /// The backoff set is derived, never maintained separately, so row and
    /// session views can never disagree.
    pub(crate) fn show_rows(&mut self, next: LiveParts)
        requires
            old(self).snapshot.revision < u64::MAX,
        ensures
            final(self)@ == old(self)@.showing_rows(next.over(old(self)@.snapshot)),
            final(self).snapshot.revision <= old(self).snapshot.revision + 1,
            final(self).snapshot.run_intent == old(self).snapshot.run_intent,
            final(self).policy == old(self).policy,
    {
        proof {
            reveal(ActorView::showing_rows);
        }
        let mut next: LiveParts = next;
        let ghost target = next.over(self@.snapshot);
        self.realign();
        proof {
            assert(self@.machines.dom() =~= self@.scope());
        }
        let mut rows: Vec<ReceiverSnapshot> = self.build_rows();
        proof {
            lemma_listing_projects(rows@, |row: ReceiverSnapshot| row@);
        }
        sort_for_listing(&mut rows);
        next.receivers = rows;
        next.session.retry_waiting = self.machines_where(true);
        proof {
            assert(next.over(self@.snapshot) =~= self@.with_listed_rows(target));
        }
        self.maybe_publish(next);
    }

    /// Refreshes the rows from the machines and publishes when anything
    /// moved.
    pub fn republish_rows(&mut self)
        requires
            old(self).snapshot.revision < u64::MAX,
        ensures
            final(self)@ == old(self)@.rows_republished(),
            final(self).snapshot.revision <= old(self).snapshot.revision + 1,
            final(self).policy == old(self).policy,
    {
        let parts: LiveParts = self.live_parts();
        self.show_rows(parts);
    }

    /// Applies one lifecycle operation, reporting rejections truthfully.
    pub fn drive(&mut self, receiver: ReceiverId, op: MachineOp)
        ensures
            final(self)@ == old(self)@.driven(receiver, op@),
            *final(self) == (ControllerActor {
                machines: final(self).machines,
                effects: final(self).effects,
                ..*old(self)
            }),
    {
        proof {
            reveal(ActorView::driven);
        }
        let ghost start = self@;
        let ghost op_view = op@;
        let castable: bool = self.castable(receiver);
        let taken: Option<ReceiverMachine> = self.machines.take(receiver);
        let mut machine: ReceiverMachine = match taken {
            Some(machine) => machine,
            None => ReceiverMachine::new(castable),
        };
        let ghost before_view = machine@;
        proof {
            assert(before_view == start.machine_of(receiver));
        }
        let before: ReceiverLifecycle = machine.state().clone();
        let outcome: Result<(), InvalidTransition> = match op {
            MachineOp::SetService(available) => machine.set_service_available(available),
            MachineOp::Begin { generation, attempt } => machine.begin_generation(generation, attempt),
            MachineOp::Streaming(role) => machine.enter_streaming(role),
            MachineOp::Fail { retryable, error } => machine.fail(retryable, error),
            MachineOp::Wait { attempt, retry_at } => machine.wait_retry(attempt, retry_at),
            MachineOp::Retry => machine.retry_now(),
        };
        let state: ReceiverLifecycle = machine.state().clone();
        proof {
            assert(machine@ == op_applied(before_view, op_view));
        }
        self.machines.insert(receiver, machine);
        proof {
            assert(self@.machines =~= start.machines.insert(receiver, machine@));
        }
        match outcome {
            Ok(_) => {
                if !state.same_as(&before) {
                    self.emit_diagnostics(
                        Some(receiver),
                        Severity::Info,
                        DiagnosticPayload::ReceiverTransition { receiver, to: state },
                    );
                }
            },
            Err(rejected) => {
                let mut text: String = "receiver invariant violated: ".to_owned();
                text.append(rejected.to_string().as_str());
                proof {
                    assert(op_rejection(before_view, op_view) is Some);
                    assert(text@ =~= invariant_text(
                        before_view.state,
                        op_rejection(before_view, op_view)->0,
                    ));
                }
                self.emit_diagnostics(
                    Some(receiver),
                    Severity::Warning,
                    DiagnosticPayload::Message(text),
                );
            },
        }
    }

    /// Mirrors discovery availability into every machine.
    ///
    /// The discoverability window is a discovery fact and is maintained even
    /// when the machine's own state does not move; otherwise a receiver that
    /// flaps while a generation owns it would keep a window it never held.
    fn sync_service_availability(&mut self, now: Instant)
        ensures
            final(self)@ == old(self)@.services_synced(
                now,
                ascending_list(old(self)@.machines.dom()),
            ),
            final(self).snapshot == old(self).snapshot,
            final(self).policy == old(self).policy,
    {
        let ids: Vec<ReceiverId> = self.machines.keys();
        let ghost start = self@;
        let ghost snapshot = self.snapshot;
        let mut i: usize = 0;
        assert(ids@.take(0) =~= Seq::empty());
        while i < ids.len()
            invariant
                i <= ids@.len(),
                self.snapshot == snapshot,
                self.policy == start.policy,
                self@ == start.services_synced(now, ids@.take(i as int)),
            decreases ids@.len() - i,
        {
            let id: ReceiverId = ids[i];
            let ghost current = self@;
            proof {
                assert(ids@.take(i + 1).drop_last() =~= ids@.take(i as int));
                assert(ids@.take(i + 1).last() == id);
            }
            let castable: bool = self.castable(id);
            if castable {
                self.rejoin.note_discovered(id, now);
            } else {
                self.rejoin.note_lost(id);
            }
            let settled: bool = match self.machines.get(id) {
                Some(machine) => machine.service_available() == castable,
                None => false,
            };
            if !settled {
                self.drive(id, MachineOp::SetService(castable));
            }
            proof {
                assert(self@ == current.service_synced(now, id));
            }
            i = i + 1;
        }
        assert(ids@.take(ids@.len() as int) =~= ids@);
    }

    /// Registers newly discovered receivers, mirrors service availability
    /// into their machines, and publishes the resulting rows once.
    pub fn refresh_receivers(&mut self, now: Instant)
        requires
            old(self).snapshot.revision < u64::MAX,
        ensures
            final(self)@ == old(self)@.refreshed(now),
            final(self).policy == old(self).policy,
            final(self).snapshot.revision <= old(self).snapshot.revision + 1,
    {
        proof {
            reveal(ActorView::refreshed);
        }
        self.realign();
        self.sync_service_availability(now);
        self.republish_rows();
    }
}

} // verus!
