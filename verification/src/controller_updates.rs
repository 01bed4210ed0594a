//! Controller launch and the application of supervisor updates.

use vstd::prelude::*;

use crate::actor_model::{
    blank_actor, failed_receivers, launch_snapshot, launched, member_role, names_with_members,
    saved_names_of, terminally_failed, ActorView, ControllerEventView, EffectView,
    AUTO_CONNECT_WINDOW_NANOS,
};
use crate::calibration::{
    no_calibration, CalibrationApplyState, CalibrationProfile, CalibrationStateV2,
};
use crate::capture::{sort_endpoints, CaptureUpdate};
use crate::command::SystemEvent;
use crate::controller::{
    effect_views, ControllerActor, Effect, InventoryEntry, LiveParts, MachineOp, Moment,
    ReconcileCause,
};
use crate::controller_session::derive_phase;
use crate::discovery::{is_castable, BrowseEvent, Device, DiscoveryUpdate};
use crate::event::{
    BackendEvent, DiagnosticPayload, ErrorScope, EventView, NoticeCode, Severity,
};
use crate::idmap::{ascending_list, group_value_views, value_views, IdMap, IdSet};
use crate::ids::ReceiverId;
use crate::model::{
    endpoint_views, group_views, member_views, AudioEndpoint, AudioFlow, AudioSourceSnapshot,
    AudioSourceState, CommandOutcomes, DeviceSnapshot, DiscoveryPhase, DiscoverySnapshot,
    PersistenceSnapshot, ReceiverRole, SavedGroup, SavedGroupMember, SavedGroupSnapshot,
    SessionPhase, SessionView, SnapshotView, UserFacingError, clone_members, group_row_views,
};
use crate::persistence::PersistedStateV1;
use crate::recovery::{
    entry_of, is_baseline_policy, law_delays_are_bounded, RejoinRestartLimiter, RetryPolicy,
    RetryState,
};
use crate::session::{setup_failure_error, MemberFailure, ReconfigureCause, SessionUpdate};
use crate::time::{Duration, Instant, SystemTime};

verus! {

broadcast use group_value_views;

/// Role of a member of a live group: the only member is single, the clock
/// source primary, every other one secondary.
pub fn role_of(primary: ReceiverId, members: &IdSet, receiver: ReceiverId) -> (r: ReceiverRole)
    ensures
        r == member_role(primary, members@, receiver),
{
    if members.len() <= 1 {
        ReceiverRole::Single
    } else if primary == receiver {
        ReceiverRole::Primary
    } else {
        ReceiverRole::Secondary
    }
}

/// Last-known names of the members of saved groups; the latest mention wins.
pub fn collect_saved_names(groups: &Vec<SavedGroup>) -> (r: IdMap<String>)
    ensures
        value_views(r@) == saved_names_of(group_views(groups@)),
{
    let ghost views = group_views(groups@);
    let mut names: IdMap<String> = IdMap::new();
    let mut i: usize = 0;
    assert(views.take(0) =~= Seq::empty());
    assert(value_views(names@) =~= Map::empty());
    while i < groups.len()
        invariant
            i <= groups@.len(),
            views == group_views(groups@),
            value_views(names@) == saved_names_of(views.take(i as int)),
        decreases groups@.len() - i,
    {
        let group: &SavedGroup = &groups[i];
        let ghost start = value_views(names@);
        let ghost members = group@.members;
        proof {
            assert(views.take(i + 1).drop_last() =~= views.take(i as int));
            assert(views.take(i + 1).last() == group@);
            assert(members.take(0) =~= Seq::empty());
        }
        let mut j: usize = 0;
        while j < group.members.len()
            invariant
                j <= group.members@.len(),
                members == member_views(group.members@),
                value_views(names@) == names_with_members(start, members.take(j as int)),
            decreases group.members@.len() - j,
        {
            let member: &SavedGroupMember = &group.members[j];
            proof {
                assert(members.take(j + 1).drop_last() =~= members.take(j as int));
                assert(members.take(j + 1).last() == member@);
            }
            names.insert(member.receiver, member.last_known_name.clone());
            j = j + 1;
        }
        assert(members.take(members.len() as int) =~= members);
        i = i + 1;
    }
    assert(views.take(views.len() as int) =~= views);
    names
}

/// Saved groups as the shell renders them.
fn group_rows(groups: &Vec<SavedGroup>) -> (r: Vec<SavedGroupSnapshot>)
    ensures
        group_row_views(r@) == group_views(groups@),
{
    let mut rows: Vec<SavedGroupSnapshot> = Vec::new();
    let mut i: usize = 0;
    while i < groups.len()
        invariant
            i <= groups@.len(),
            rows@.len() == i,
            forall|k: int| 0 <= k < i ==> (#[trigger] rows@[k])@ == groups@[k]@,
        decreases groups@.len() - i,
    {
        rows.push(SavedGroupSnapshot {
            id: groups[i].id,
            name: groups[i].name.clone(),
            members: clone_members(&groups[i].members),
        });
        i = i + 1;
    }
    assert(group_row_views(rows@) =~= group_views(groups@));
    rows
}

impl ControllerActor {
    /// Builds initial state from loaded persisted values: desired members are
    /// restored as selected/unavailable rows before any discovery arrives.
    ///
    /// The auto-connect window is measured from the launch and not from the
    /// first castable sighting, so the policy cannot outlive the start it
    /// belongs to.
    #[verifier::rlimit(40)]
    pub fn from_persisted(persisted: PersistedStateV1, now: Instant) -> (r: Self)
        ensures
            is_baseline_policy(r.policy),
            r@ == launched(persisted@, r.policy, now),
    {
        let saved_names: IdMap<String> = collect_saved_names(&persisted.saved_groups);
        let mut snapshot: DeviceSnapshot = DeviceSnapshot::default();
        snapshot.master_volume = persisted.master_volume;
        snapshot.receiver_levels = persisted.receiver_levels.copied();
        snapshot.muted = persisted.muted;
        snapshot.latency_preset = persisted.latency_preset;
        snapshot.auto_connect = persisted.auto_connect;
        snapshot.audio_source.preference = persisted.audio_endpoint.clone();
        snapshot.saved_groups = group_rows(&persisted.saved_groups);
        snapshot.desired_members = persisted.last_desired_members.copied();
        let startup_auto_connect_until: Option<Instant> = if persisted.auto_connect {
            Some(now.after(Duration { nanos: AUTO_CONNECT_WINDOW_NANOS }))
        } else {
            None
        };
        let policy: RetryPolicy = RetryPolicy::default();
        let mut actor = ControllerActor {
            listening_test: None,
            last_listening_test_generation: None,
            snapshot,
            published_outcomes: CommandOutcomes::default(),
            persisted,
            calibration: CalibrationProfile::default(),
            calibration_pending_generation: None,
            inventory: IdMap::new(),
            saved_names,
            session_generation: 0,
            live_session_generation: None,
            capture_generation: 0,
            browse_generation: 0,
            seen_discovery_generation: 0,
            primary: None,
            active: IdSet::new(),
            discovery_failures: 0,
            machines: IdMap::new(),
            retry: RetryState::new(),
            policy,
            rejoin: RejoinRestartLimiter::new(),
            pending_desired: IdSet::new(),
            suspended: false,
            resume_at: None,
            startup_auto_connect_until,
            session_open: true,
            effects: Vec::new(),
        };
        proof {
            assert(value_views(actor.inventory@) =~= Map::empty());
            assert(value_views(actor.machines@) =~= Map::empty());
            assert(effect_views(actor.effects@) =~= Seq::empty());
            assert(actor@.snapshot =~= launch_snapshot(persisted@));
            assert(actor@ =~= blank_actor(persisted@, policy, now));
        }
        actor.restore_rows();
        actor
    }

    /// Builds the first rows and sorts them for publication.
    fn restore_rows(&mut self)
        ensures
            final(self)@ == ({
                let aligned = old(self)@.realigned();
                ActorView { snapshot: aligned.with_rows(old(self)@.snapshot).sorted(), ..aligned }
            }),
            final(self).policy == old(self).policy,
    {
        let ghost start = self@;
        self.realign();
        proof {
            assert(self@.machines.dom() =~= self@.scope());
        }
        let rows = self.build_rows();
        let waiting: IdSet = self.machines_where(true);
        let ghost aligned = self@;
        self.snapshot.receivers = rows;
        self.snapshot.session.retry_waiting = waiting;
        proof {
            assert(self@.snapshot =~= aligned.with_rows(start.snapshot));
        }
        self.snapshot.sort_for_publication();
    }

    /// Announces what kind of load this launch was. The persistence outcome
    /// itself is only healthy or not, so a quarantined state file, an
    /// unreadable alignment, and a one-time import are said separately, and
    /// none of the messages names a path.
    pub fn announce_launch(&mut self, corrupted: bool, calibration_unreadable: bool, migrated: bool)
        ensures
            final(self)@ == old(self)@.launch_announced(corrupted, calibration_unreadable, migrated),
            final(self).policy == old(self).policy,
    {
        proof {
            reveal(ActorView::launch_announced);
        }
        self.emit_diagnostics(
            None,
            if corrupted { Severity::Warning } else { Severity::Info },
            DiagnosticPayload::Persistence { outcome: PersistenceSnapshot::Healthy },
        );
        if corrupted {
            self.emit_diagnostics(
                None,
                Severity::Warning,
                DiagnosticPayload::Message(
                    "stored device state was unreadable; it was set aside and defaults restored".to_owned(),
                ),
            );
        }
        if calibration_unreadable {
            self.emit_diagnostics(
                None,
                Severity::Warning,
                DiagnosticPayload::Message(
                    "the stored speaker alignment could not be read; this session runs without it".to_owned(),
                ),
            );
        }
        if migrated {
            self.emit_diagnostics(
                None,
                Severity::Info,
                DiagnosticPayload::Message(
                    "master volume was imported once from the previous release's settings".to_owned(),
                ),
            );
        }
        if corrupted {
            self.storage_notice("the previous state file was damaged; defaults were restored");
        }
        if calibration_unreadable {
            self.storage_notice("the saved speaker alignment could not be read and is not in use");
        }
    }

    /// Restores the stored calibration, if there is one.
    pub fn restore_calibration(&mut self, section: Option<CalibrationStateV2>)
        ensures
            final(self)@ == (ActorView {
                calibration: match section {
                    Some(stored) => stored@,
                    None => no_calibration(),
                },
                ..old(self)@
            }),
            final(self).policy == old(self).policy,
    {
        self.calibration = match section {
            Some(stored) => CalibrationProfile::from_section(&stored),
            None => CalibrationProfile::default(),
        };
    }

    /// Tells the shell that interface changes go unobserved, which degrades
    /// recovery but does not keep the backend from starting.
    pub fn note_monitor_unavailable(&mut self, error: &str)
        ensures
            final(self)@ == old(self)@.doing(
                EffectView::Event(
                    EventView::Notice {
                        severity: Severity::Warning,
                        code: NoticeCode::DiscoveryFailed,
                        scope: ErrorScope::Discovery,
                        message: "network change monitoring is unavailable: "@ + error@,
                    },
                ),
            ),
            final(self).policy == old(self).policy,
    {
        let mut message: String = "network change monitoring is unavailable: ".to_owned();
        message.append(error);
        self.push_effect(Effect::Event(BackendEvent::Notice {
            severity: Severity::Warning,
            code: NoticeCode::DiscoveryFailed,
            scope: ErrorScope::Discovery,
            message,
        }));
    }

    fn storage_notice(&mut self, message: &str)
        ensures
            final(self)@ == old(self)@.storage_notice(message@),
            final(self).policy == old(self).policy,
    {
        self.push_effect(Effect::Event(BackendEvent::Notice {
            severity: Severity::Warning,
            code: NoticeCode::PersistenceWrite,
            scope: ErrorScope::Persistence,
            message: message.to_owned(),
        }));
    }

    /// Folds one browse event into the inventory.
    fn note_browse(&mut self, event: BrowseEvent)
        ensures
            final(self)@ == old(self)@.browsed(event@),
            final(self).snapshot == old(self).snapshot,
            final(self).policy == old(self).policy,
    {
        match event {
            BrowseEvent::Added(device) => self.note_device(device),
            BrowseEvent::Updated(device) => self.note_device(device),
            BrowseEvent::Removed(id) => {
                let ghost start = self@;
                let taken: Option<InventoryEntry> = self.inventory.take(id);
                match taken {
                    Some(mut entry) => {
                        entry.available = false;
                        self.inventory.insert(id, entry);
                    },
                    None => {},
                }
                proof {
                    assert(self@.inventory =~= start.browsed(event@).inventory);
                }
            },
        }
    }

    fn note_device(&mut self, device: Device)
        ensures
            final(self)@ == old(self)@.sighted(device@),
            final(self).snapshot == old(self).snapshot,
            final(self).policy == old(self).policy,
    {
        let castable: bool = is_castable(&device);
        self.inventory.insert(
            device.id,
            InventoryEntry {
                name: device.name.clone(),
                castable,
                available: true,
                device: Some(device),
            },
        );
    }

    /// Applies a discovery update; updates older than the newest generation
    /// seen change nothing.
    pub fn apply_discovery_update(&mut self, update: DiscoveryUpdate, at: Moment)
        requires
            old(self).snapshot.revision < u64::MAX,
        ensures
            final(self)@ == old(self)@.discovery_updated(update@, at),
            final(self).policy == old(self).policy,
            final(self).snapshot.revision <= old(self).snapshot.revision + 1,
    {
        proof {
            reveal(ActorView::discovery_updated);
        }
        match update {
            DiscoveryUpdate::Started { generation } => {
                if generation < self.seen_discovery_generation {
                    return;
                }
                self.seen_discovery_generation = generation;
                self.publish_generations();
                let mut next: LiveParts = self.live_parts();
                next.discovery = DiscoverySnapshot { generation, phase: DiscoveryPhase::Running };
                self.maybe_publish(next);
            },
            DiscoveryUpdate::Receiver { generation, event } => {
                if generation < self.seen_discovery_generation {
                    return;
                }
                self.note_browse(event);
                self.refresh_receivers(at.now);
            },
            DiscoveryUpdate::Failed { generation, retry_at, .. } => {
                if generation < self.seen_discovery_generation {
                    return;
                }
                self.discovery_failures = self.discovery_failures.saturating_add(1);
                let mut next: LiveParts = self.live_parts();
                let phase: DiscoveryPhase = DiscoveryPhase::Retrying {
                    attempt: self.discovery_failures,
                    retry_at: at.wall.after(retry_at.duration_since(at.now)),
                };
                let changed: bool = phase != self.snapshot.discovery.phase;
                next.discovery = DiscoverySnapshot {
                    generation: self.snapshot.discovery.generation,
                    phase,
                };
                self.maybe_publish(next);
                if changed {
                    self.push_effect(Effect::Event(BackendEvent::Notice {
                        severity: Severity::Warning,
                        code: NoticeCode::DiscoveryFailed,
                        scope: ErrorScope::Discovery,
                        message: "receiver discovery is retrying in the background".to_owned(),
                    }));
                }
            },
        }
    }

    /// Shows a changed audio source and flow.
    fn show_audio(&mut self, source: AudioSourceSnapshot, flow: AudioFlow)
        requires
            old(self).snapshot.revision < u64::MAX,
        ensures
            final(self)@ == old(self)@.showing_audio(source@, flow),
            final(self).policy == old(self).policy,
            final(self).snapshot.revision <= old(self).snapshot.revision + 1,
    {
        proof {
            reveal(ActorView::showing_audio);
        }
        let mut next: LiveParts = self.live_parts();
        next.audio_source = source;
        next.session.audio_flow = flow;
        proof {
            assert(next.over(self@.snapshot) =~= (SnapshotView {
                audio_source: source@,
                session: SessionView { audio_flow: flow, ..self@.snapshot.session },
                ..self@.snapshot
            }));
        }
        self.maybe_publish(next);
    }

    /// Applies an endpoint scan; a failed refresh keeps the last successful
    /// inventory and says so.
    pub fn apply_endpoints(&mut self, scan: Option<Vec<AudioEndpoint>>)
        requires
            old(self).snapshot.revision < u64::MAX,
        ensures
            final(self)@ == old(self)@.endpoints_applied(
                match scan {
                    Some(endpoints) => Some(endpoint_views(endpoints@)),
                    None => None,
                },
            ),
            final(self).policy == old(self).policy,
            final(self).snapshot.revision <= old(self).snapshot.revision + 1,
    {
        proof {
            reveal(ActorView::endpoints_applied);
        }
        let mut source: AudioSourceSnapshot = self.snapshot.audio_source.clone();
        let flow: AudioFlow = self.snapshot.session.audio_flow;
        match scan {
            Some(mut endpoints) => {
                sort_endpoints(&mut endpoints);
                source.active_endpoints = Some(endpoints);
                source.refresh_failed = false;
            },
            None => {
                source.refresh_failed = true;
            },
        }
        self.show_audio(source, flow);
    }

    /// Advances the capture counter; the newest generation wins, so a late
    /// edge from a cancelled worker cannot pull the correlation key backwards,
    /// and a stop ends the last generation.
    fn count_capture(&mut self, update: &CaptureUpdate)
        ensures
            final(self)@ == old(self)@.capture_counted(update@),
            final(self).snapshot == old(self).snapshot,
            final(self).policy == old(self).policy,
    {
        let reported: Option<u64> = match update {
            CaptureUpdate::Started { capture_generation, .. } => Some(*capture_generation),
            CaptureUpdate::Ready { capture_generation, .. } => Some(*capture_generation),
            CaptureUpdate::FrameDrop { capture_generation, .. } => Some(*capture_generation),
            CaptureUpdate::Recovering { capture_generation, .. } => Some(*capture_generation),
            CaptureUpdate::Suspended { capture_generation, .. } => Some(*capture_generation),
            CaptureUpdate::Stopped { .. } => None,
        };
        match reported {
            Some(generation) => {
                if self.capture_generation < generation {
                    self.capture_generation = generation;
                }
            },
            None => {
                self.capture_generation = 0;
            },
        }
        self.publish_generations();
    }

    /// Applies a capture update.
    pub fn apply_capture_update(&mut self, update: CaptureUpdate)
        requires
            old(self).snapshot.revision < u64::MAX,
        ensures
            final(self)@ == old(self)@.capture_updated(update@),
            final(self).policy == old(self).policy,
            final(self).snapshot.revision <= old(self).snapshot.revision + 1,
    {
        proof {
            reveal(ActorView::capture_updated);
        }
        self.count_capture(&update);
        let mut source: AudioSourceSnapshot = self.snapshot.audio_source.clone();
        let mut flow: AudioFlow = self.snapshot.session.audio_flow;
        match update {
            CaptureUpdate::Ready { endpoint, .. } => {
                source.state = AudioSourceState::Capturing;
                source.captured_endpoint = Some(endpoint);
                source.windows_input_peak_permille = None;
                flow = if self.active.is_empty() {
                    AudioFlow::SilenceBridged
                } else {
                    AudioFlow::Live
                };
            },
            CaptureUpdate::Suspended { .. } => {
                source.state = AudioSourceState::Unavailable;
                source.captured_endpoint = None;
                source.windows_input_peak_permille = None;
                flow = AudioFlow::SilenceBridged;
            },
            CaptureUpdate::Recovering { .. } => {
                source.state = AudioSourceState::Recovering;
                source.captured_endpoint = None;
                source.windows_input_peak_permille = None;
                flow = AudioFlow::SilenceBridged;
            },
            CaptureUpdate::Stopped { .. } => {
                source.state = AudioSourceState::Unavailable;
                source.captured_endpoint = None;
                source.windows_input_peak_permille = None;
                flow = AudioFlow::SilenceBridged;
            },
            CaptureUpdate::Started { .. } => {
                source.windows_input_peak_permille = None;
            },
            CaptureUpdate::FrameDrop { dropped, .. } => {
                if source.pcm_frames_dropped_total < dropped {
                    source.pcm_frames_dropped_total = dropped;
                }
            },
        }
        self.show_audio(source, flow);
    }

    /// Applies a telemetry sample; the lifetime drop total never goes back.
    pub fn apply_capture_telemetry(&mut self, peak: Option<u16>, dropped: u64)
        requires
            old(self).snapshot.revision < u64::MAX,
        ensures
            final(self)@ == old(self)@.telemetry_applied(peak, dropped),
            final(self).policy == old(self).policy,
            final(self).snapshot.revision <= old(self).snapshot.revision + 1,
    {
        proof {
            reveal(ActorView::telemetry_applied);
        }
        let mut source: AudioSourceSnapshot = self.snapshot.audio_source.clone();
        let flow: AudioFlow = self.snapshot.session.audio_flow;
        source.windows_input_peak_permille = peak;
        if source.pcm_frames_dropped_total < dropped {
            source.pcm_frames_dropped_total = dropped;
        }
        self.show_audio(source, flow);
    }

    /// Records one calibration lifecycle edge.
    pub fn note_calibration_state(&mut self, state: CalibrationApplyState)
        ensures
            final(self)@ == old(self)@.calibration_noted(state),
            *final(self) == (ControllerActor { effects: final(self).effects, ..*old(self) }),
    {
        let severity: Severity = match state {
            CalibrationApplyState::Failed => Severity::Warning,
            _ => Severity::Info,
        };
        self.emit_diagnostics(None, severity, DiagnosticPayload::CalibrationState(state));
    }

    /// Closes an open calibration lifecycle once a session at or after the
    /// generation minted for it reports itself live.
    ///
    /// A newer generation counts: every reconcile hands the same stored
    /// profile down. A session that stops before ever becoming active does
    /// not clear the mark.
    pub fn settle_calibration_generation(&mut self, generation: u64)
        ensures
            final(self)@ == old(self)@.calibration_settled(generation),
            final(self).snapshot == old(self).snapshot,
            final(self).policy == old(self).policy,
    {
        if let Some(pending) = self.calibration_pending_generation {
            if generation >= pending {
                self.calibration_pending_generation = None;
                self.note_calibration_state(CalibrationApplyState::Applied);
            }
        }
    }
}

impl ControllerActor {
    /// Records one receiver-local failure: terminal state, backoff deadline,
    /// and the scheduled-retry diagnostic. Never restarts anything by itself.
    ///
    /// Continuous health is exactly the span between this receiver's latest
    /// streaming report and this failure, so the healthy window is evaluated
    /// here, right before the failure is counted.
    pub fn note_receiver_failure(
        &mut self,
        receiver: ReceiverId,
        retryable: bool,
        error: UserFacingError,
        at: Moment,
    )
        requires
            old(self).policy.sound(),
        ensures
            final(self)@ == old(self)@.receiver_failed(receiver, retryable, error@, at),
            final(self).snapshot == old(self).snapshot,
            final(self).policy == old(self).policy,
    {
        proof {
            reveal(ActorView::receiver_failed);
        }
        self.drive(receiver, MachineOp::Fail { retryable, error });
        if !retryable {
            return;
        }
        let policy: RetryPolicy = self.policy;
        let _reset: bool = self.retry.note_streaming(&policy, at.now, receiver);
        proof {
            law_delays_are_bounded(
                policy,
                receiver,
                (crate::recovery::bumped(entry_of(self.retry@, receiver).attempt) - 1) as u32,
            );
        }
        let deadline: Instant = self.retry.note_failure(&policy, at.now, receiver);
        let attempt: u32 = self.retry.attempt(receiver);
        let retry_at: SystemTime = at.wall.after(deadline.duration_since(at.now));
        self.drive(receiver, MachineOp::Wait { attempt, retry_at });
        self.emit_diagnostics(
            Some(receiver),
            Severity::Info,
            DiagnosticPayload::Retry { receiver: Some(receiver), attempt, next_at: retry_at },
        );
    }

    /// Records the failures of a partially built group.
    fn note_member_failures(&mut self, failures: &Vec<MemberFailure>, at: Moment)
        requires
            old(self).policy.sound(),
        ensures
            final(self)@ == old(self)@.members_failed(failures@, at),
            final(self).snapshot == old(self).snapshot,
            final(self).policy == old(self).policy,
    {
        let ghost start = *self;
        let mut i: usize = 0;
        assert(failures@.take(0) =~= Seq::empty());
        while i < failures.len()
            invariant
                i <= failures@.len(),
                self.snapshot == start.snapshot,
                self.policy == start.policy,
                self.policy.sound(),
                self@ == start@.members_failed(failures@.take(i as int), at),
            decreases failures@.len() - i,
        {
            let failure: MemberFailure = failures[i];
            proof {
                assert(failures@.take(i + 1).drop_last() =~= failures@.take(i as int));
                assert(failures@.take(i + 1).last() == failure);
            }
            let error: UserFacingError = setup_failure_error(&failure);
            self.note_receiver_failure(failure.receiver, failure.retryable, error, at);
            i = i + 1;
        }
        assert(failures@.take(failures@.len() as int) =~= failures@);
    }

    /// Fails receivers that were asked to join but are in neither list.
    fn note_missing(&mut self, missing: &Vec<ReceiverId>, at: Moment)
        requires
            old(self).policy.sound(),
        ensures
            final(self)@ == old(self)@.missing_failed(missing@, at),
            final(self).snapshot == old(self).snapshot,
            final(self).policy == old(self).policy,
    {
        let ghost start = *self;
        let mut i: usize = 0;
        assert(missing@.take(0) =~= Seq::empty());
        while i < missing.len()
            invariant
                i <= missing@.len(),
                self.snapshot == start.snapshot,
                self.policy == start.policy,
                self.policy.sound(),
                self@ == start@.missing_failed(missing@.take(i as int), at),
            decreases missing@.len() - i,
        {
            proof {
                assert(missing@.take(i + 1).drop_last() =~= missing@.take(i as int));
                assert(missing@.take(i + 1).last() == missing@[i as int]);
            }
            let error: UserFacingError = UserFacingError::new("the receiver did not join the group");
            self.note_receiver_failure(missing[i], true, error, at);
            i = i + 1;
        }
        assert(missing@.take(missing@.len() as int) =~= missing@);
    }

    /// Enters several receivers into a session generation.
    fn begin_members(&mut self, generation: u64, ids: &Vec<ReceiverId>)
        ensures
            final(self)@ == old(self)@.generation_begun(generation, ids@),
            final(self).snapshot == old(self).snapshot,
            final(self).policy == old(self).policy,
    {
        let ghost start = *self;
        let mut i: usize = 0;
        assert(ids@.take(0) =~= Seq::empty());
        while i < ids.len()
            invariant
                i <= ids@.len(),
                self.snapshot == start.snapshot,
                self.retry == start.retry,
                self.policy == start.policy,
                self@ == start@.generation_begun(generation, ids@.take(i as int)),
            decreases ids@.len() - i,
        {
            let receiver: ReceiverId = ids[i];
            proof {
                assert(ids@.take(i + 1).drop_last() =~= ids@.take(i as int));
                assert(ids@.take(i + 1).last() == receiver);
            }
            let attempt: u32 = self.retry.attempt(receiver);
            self.drive(receiver, MachineOp::Begin { generation, attempt });
            i = i + 1;
        }
        assert(ids@.take(ids@.len() as int) =~= ids@);
    }

    /// Walks reported members up to streaming.
    fn stream_members(&mut self, primary: ReceiverId, members: &IdSet, ids: &Vec<ReceiverId>)
        ensures
            final(self)@ == old(self)@.members_streaming(primary, members@, ids@),
            final(self).snapshot == old(self).snapshot,
            final(self).policy == old(self).policy,
    {
        let ghost start = *self;
        let mut i: usize = 0;
        assert(ids@.take(0) =~= Seq::empty());
        while i < ids.len()
            invariant
                i <= ids@.len(),
                self.snapshot == start.snapshot,
                self.policy == start.policy,
                self@ == start@.members_streaming(primary, members@, ids@.take(i as int)),
            decreases ids@.len() - i,
        {
            let receiver: ReceiverId = ids[i];
            proof {
                assert(ids@.take(i + 1).drop_last() =~= ids@.take(i as int));
                assert(ids@.take(i + 1).last() == receiver);
            }
            let role: ReceiverRole = role_of(primary, members, receiver);
            self.drive(receiver, MachineOp::Streaming(role));
            i = i + 1;
        }
        assert(ids@.take(ids@.len() as int) =~= ids@);
    }

    /// Arms or advances the healthy window of every reported member.
    fn note_healthy(&mut self, now: Instant, ids: &Vec<ReceiverId>)
        ensures
            final(self)@ == old(self)@.healthy_noted(now, ids@),
            final(self).snapshot == old(self).snapshot,
            final(self).policy == old(self).policy,
    {
        let ghost start = *self;
        let policy: RetryPolicy = self.policy;
        let mut i: usize = 0;
        assert(ids@.take(0) =~= Seq::empty());
        while i < ids.len()
            invariant
                i <= ids@.len(),
                self.snapshot == start.snapshot,
                self.policy == start.policy,
                policy == start.policy,
                self@ == start@.healthy_noted(now, ids@.take(i as int)),
            decreases ids@.len() - i,
        {
            proof {
                assert(ids@.take(i + 1).drop_last() =~= ids@.take(i as int));
                assert(ids@.take(i + 1).last() == ids@[i as int]);
            }
            let _reset: bool = self.retry.note_streaming(&policy, now, ids[i]);
            i = i + 1;
        }
        assert(ids@.take(ids@.len() as int) =~= ids@);
    }

    /// Receivers asked to connect that turn up in neither list.
    fn missing_members(&self, failed: &IdSet) -> (r: Vec<ReceiverId>)
        ensures
            r@ == ascending_list(self@.unaccounted(failed@)),
    {
        let ids: Vec<ReceiverId> = self.pending_desired.to_list();
        let mut missing: IdSet = IdSet::new();
        let ghost wanted = self@.unaccounted(failed@);
        let mut i: usize = 0;
        while i < ids.len()
            invariant
                i <= ids@.len(),
                ids@.to_set() == self.pending_desired@,
                wanted == self@.unaccounted(failed@),
                forall|id: ReceiverId| #[trigger] missing@.contains(id) ==> wanted.contains(id),
                forall|k: int| 0 <= k < i && wanted.contains(#[trigger] ids@[k]) ==> missing@.contains(ids@[k]),
            decreases ids@.len() - i,
        {
            let id: ReceiverId = ids[i];
            let ghost before = missing@;
            proof {
                assert(ids@.contains(ids@[i as int]));
                assert(ids@.to_set().contains(id));
            }
            if !self.active.contains(id) && !failed.contains(id) {
                missing.insert(id);
            }
            proof {
                assert forall|k: int| 0 <= k < i + 1 && wanted.contains(#[trigger] ids@[k]) implies
                    missing@.contains(ids@[k]) by {
                    if k < i {
                        assert(before.contains(ids@[k]));
                    }
                }
                assert forall|x: ReceiverId| #[trigger] missing@.contains(x) implies wanted.contains(x) by {
                    if x != id {
                        assert(before.contains(x));
                    }
                }
            }
            i = i + 1;
        }
        proof {
            assert forall|id: ReceiverId| wanted.contains(id) implies missing@.contains(id) by {
                assert(ids@.to_set().contains(id));
                let k = ids@.index_of(id);
                assert(ids@[k] == id);
            }
            assert(missing@ =~= wanted);
        }
        missing.to_list()
    }

    /// Applies a live generation: members stream, failures and unaccounted
    /// receivers enter their backoff, and the session view follows.
    #[verifier::rlimit(60)]
    fn apply_active(
        &mut self,
        generation: u64,
        primary: ReceiverId,
        members: IdSet,
        partial_failures: Vec<MemberFailure>,
        at: Moment,
    )
        requires
            old(self).policy.sound(),
            old(self).snapshot.revision < u64::MAX,
        ensures
            final(self)@ == old(self)@.session_active(
                generation,
                primary,
                members@,
                partial_failures@,
                at,
            ),
            final(self).policy == old(self).policy,
            final(self).snapshot.revision <= old(self).snapshot.revision + 1,
    {
        proof {
            reveal(ActorView::session_active);
        }
        let ghost start = self@;
        self.primary = Some(primary);
        self.active = members.copied();
        self.forward_effective_volumes();
        self.settle_calibration_generation(generation);
        proof {
            assert(self@ == (ActorView {
                primary: Some(primary),
                active: members@,
                ..start
            }).forwarding().calibration_settled(generation));
        }
        let ids: Vec<ReceiverId> = members.to_list();
        self.stream_members(primary, &members, &ids);
        self.note_healthy(at.now, &ids);
        let failed: IdSet = failure_set(&partial_failures);
        self.note_member_failures(&partial_failures, at);
        let missing: Vec<ReceiverId> = self.missing_members(&failed);
        self.note_missing(&missing, at);
        let mut next: LiveParts = self.live_parts();
        let ghost settled = self@;
        next.session.phase = derive_phase(
            &self.snapshot.desired_members,
            &members,
            self.snapshot.run_intent,
            generation,
        );
        next.session.desired = self.snapshot.desired_members.copied();
        next.session.active = members;
        next.session.failed = terminal_set(&partial_failures, &self.snapshot.desired_members);
        next.session.primary = Some(primary);
        next.session.audio_flow = if self.snapshot.audio_source.state == AudioSourceState::Capturing {
            AudioFlow::Live
        } else {
            AudioFlow::SilenceBridged
        };
        self.show_rows(next);
    }
}

/// The receivers of a list of failures.
fn failure_set(failures: &Vec<MemberFailure>) -> (r: IdSet)
    ensures
        r@ == failed_receivers(failures@),
{
    let mut set: IdSet = IdSet::new();
    let mut i: usize = 0;
    while i < failures.len()
        invariant
            i <= failures@.len(),
            forall|id: ReceiverId| #[trigger] set@.contains(id) <==> exists|k: int|
                0 <= k < i && (#[trigger] failures@[k]).receiver == id,
        decreases failures@.len() - i,
    {
        let ghost before = set@;
        set.insert(failures[i].receiver);
        proof {
            assert forall|id: ReceiverId| #[trigger] set@.contains(id) <==> exists|k: int|
                0 <= k < i + 1 && (#[trigger] failures@[k]).receiver == id by {
                if before.contains(id) {
                    let k = choose|k: int| 0 <= k < i && (#[trigger] failures@[k]).receiver == id;
                    assert(0 <= k < i + 1 && failures@[k].receiver == id);
                }
                if id == failures@[i as int].receiver {
                    assert(0 <= i < i + 1 && failures@[i as int].receiver == id);
                }
            }
        }
        i = i + 1;
    }
    assert(set@ =~= failed_receivers(failures@));
    set
}

/// The desired receivers whose latest failure of a list was terminal.
fn terminal_set(failures: &Vec<MemberFailure>, desired: &IdSet) -> (r: IdSet)
    ensures
        r@ == terminally_failed(failures@).intersect(desired@),
{
    let mut set: IdSet = IdSet::new();
    let mut i: usize = 0;
    assert(failures@.take(0) =~= Seq::empty());
    assert(set@ =~= terminally_failed(failures@.take(0)).intersect(desired@));
    while i < failures.len()
        invariant
            i <= failures@.len(),
            set@ == terminally_failed(failures@.take(i as int)).intersect(desired@),
        decreases failures@.len() - i,
    {
        let receiver: ReceiverId = failures[i].receiver;
        proof {
            assert(failures@.take(i + 1).drop_last() =~= failures@.take(i as int));
            assert(failures@.take(i + 1).last() == failures@[i as int]);
        }
        if failures[i].retryable {
            set.remove(receiver);
        } else if desired.contains(receiver) {
            set.insert(receiver);
        }
        i = i + 1;
        assert(set@ =~= terminally_failed(failures@.take(i as int)).intersect(desired@));
    }
    assert(failures@.take(failures@.len() as int) =~= failures@);
    set
}

/// A supervisor event other than a command.
#[derive(Debug)]
pub enum ControllerEvent {
    /// Discovery reported.
    Discovery(DiscoveryUpdate),
    /// Capture reported.
    Capture(CaptureUpdate),
    /// A capture telemetry sample.
    Telemetry {
        /// Input peak.
        peak: Option<u16>,
        /// Lifetime drops.
        dropped: u64,
    },
    /// An endpoint scan finished; none means it failed or its worker ended.
    Endpoints(Option<Vec<AudioEndpoint>>),
    /// The session supervisor reported.
    Session(SessionUpdate),
    /// At least one receiver's backoff deadline has passed.
    RetryDue,
    /// A platform edge arrived from the network monitor.
    System(SystemEvent),
    /// The post-resume interface-settle period elapsed.
    ResumeSettled,
    /// A desired receiver has been castable long enough for the persisted
    /// auto-connect policy to act on this launch.
    AutoConnectDue,
}

impl View for ControllerEvent {
    type V = ControllerEventView;

    open spec fn view(&self) -> ControllerEventView {
        match *self {
            ControllerEvent::Discovery(update) => ControllerEventView::Discovery(update@),
            ControllerEvent::Capture(update) => ControllerEventView::Capture(update@),
            ControllerEvent::Telemetry { peak, dropped } =>
                ControllerEventView::Telemetry { peak, dropped },
            ControllerEvent::Endpoints(scan) => ControllerEventView::Endpoints(
                match scan {
                    Some(endpoints) => Some(endpoint_views(endpoints@)),
                    None => None,
                },
            ),
            ControllerEvent::Session(update) => ControllerEventView::Session(update@),
            ControllerEvent::RetryDue => ControllerEventView::RetryDue,
            ControllerEvent::System(event) => ControllerEventView::System(event),
            ControllerEvent::ResumeSettled => ControllerEventView::ResumeSettled,
            ControllerEvent::AutoConnectDue => ControllerEventView::AutoConnectDue,
        }
    }
}

/// How long the main loop may sleep on each of its timers; none disables one.
#[derive(Clone, Copy, Debug, PartialEq, Eq, Structural)]
pub struct TimerArms {
    /// Until the next automatic rejoin.
    pub retry_in: Option<Duration>,
    /// Until the armed suspend or resume deadline.
    pub resume_in: Option<Duration>,
    /// Until the launch policy may act.
    pub auto_connect_in: Option<Duration>,
}

impl ControllerActor {
    /// Adopts a session generation. The supervisor mints its own generation
    /// for platform edges; adopting it keeps the two counters aligned, so the
    /// next reconcile never re-sends an already accepted number.
    fn adopt_generation(&mut self, generation: u64)
        ensures
            final(self)@ == old(self)@.generation_adopted(generation),
            final(self).snapshot == old(self).snapshot,
            final(self).pending_desired == old(self).pending_desired,
            final(self).policy == old(self).policy,
    {
        proof {
            reveal(ActorView::generation_adopted);
        }
        if self.session_generation < generation {
            self.session_generation = generation;
        }
        self.live_session_generation = Some(self.session_generation);
        self.publish_generations();
    }

    /// Returns every machine to its idle state.
    fn leave_sessions(&mut self)
        ensures
            final(self)@ == old(self)@.session_left(),
            final(self).snapshot == old(self).snapshot,
            final(self).policy == old(self).policy,
    {
        proof {
            reveal(ActorView::session_left);
        }
        let keys: Vec<ReceiverId> = self.machines.keys();
        let ghost start = *self;
        let ghost held = self.machines@;
        let mut i: usize = 0;
        while i < keys.len()
            invariant
                i <= keys@.len(),
                crate::idmap::ascending(keys@),
                keys@.to_set() == held.dom(),
                held == start.machines@,
                *self == (ControllerActor { machines: self.machines, ..start }),
                self.machines@.dom() == held.dom(),
                forall|k: int| 0 <= k < i ==> self.machines@[#[trigger] keys@[k]]@
                    == held[keys@[k]]@.left_session(),
                forall|k: int| i <= k < keys@.len() ==> self.machines@[#[trigger] keys@[k]] == held[keys@[k]],
            decreases keys@.len() - i,
        {
            let id: ReceiverId = keys[i];
            proof {
                assert(keys@.contains(keys@[i as int]));
                assert(keys@.to_set().contains(id));
                assert forall|k: int| 0 <= k < keys@.len() && k != i implies #[trigger] keys@[k] != id by {
                    if k < i {
                        assert(keys@[k].key() < keys@[i as int].key());
                    } else {
                        assert(keys@[i as int].key() < keys@[k].key());
                    }
                }
            }
            let taken = self.machines.take(id);
            if let Some(mut machine) = taken {
                machine.leave_session();
                self.machines.insert(id, machine);
            }
            proof {
                assert(self.machines@.dom() =~= held.dom());
            }
            i = i + 1;
        }
        proof {
            assert(value_views(self.machines@) =~= start@.session_left().machines) by {
                assert forall|id: ReceiverId| held.contains_key(id) implies
                    self.machines@[id]@ == held[id]@.left_session() by {
                    assert(keys@.to_set().contains(id));
                    let k = keys@.index_of(id);
                    assert(keys@[k] == id);
                }
            }
        }
    }

    /// Applies a generation that began its setup.
    fn apply_starting(&mut self, generation: u64)
        requires
            old(self).snapshot.revision < u64::MAX,
        ensures
            final(self)@ == old(self)@.session_starting(generation),
            final(self).policy == old(self).policy,
            final(self).snapshot.revision <= old(self).snapshot.revision + 1,
    {
        proof {
            reveal(ActorView::session_starting);
        }
        self.adopt_generation(generation);
        let ids: Vec<ReceiverId> = self.pending_desired.to_list();
        self.begin_members(generation, &ids);
        let mut next: LiveParts = self.live_parts();
        next.session.phase = SessionPhase::Starting { generation };
        next.session.desired = self.snapshot.desired_members.copied();
        next.session.failed = IdSet::new();
        self.show_rows(next);
    }

    /// Shows the session without a failed member.
    fn show_member_failure(&mut self, generation: u64, receiver: ReceiverId, primary: bool)
        requires
            old(self).snapshot.revision < u64::MAX,
        ensures
            final(self)@ == old(self)@.member_failure_shown(generation, receiver, primary),
            final(self).policy == old(self).policy,
            final(self).snapshot.revision <= old(self).snapshot.revision + 1,
    {
        proof {
            reveal(ActorView::member_failure_shown);
        }
        let mut next: LiveParts = self.live_parts();
        next.session.phase = derive_phase(
            &self.snapshot.desired_members,
            &self.active,
            self.snapshot.run_intent,
            generation,
        );
        next.session.active = self.active.copied();
        next.session.failed.remove(receiver);
        if primary {
            next.session.primary = None;
        }
        proof {
            assert(next.over(self@.snapshot) =~= self@.session_without(generation, receiver, primary));
        }
        self.show_rows(next);
    }

    /// Applies the loss of one member.
    ///
    /// The full-restart matrix decides, nothing else: losing the primary
    /// invalidates group timing, while a secondary failure leaves the
    /// survivors streaming. The rebuild takes the whole desired set with it,
    /// so it is the restart the rejoin spacing counts.
    fn apply_member_failed(
        &mut self,
        generation: u64,
        receiver: ReceiverId,
        primary: bool,
        error: UserFacingError,
        at: Moment,
    )
        requires
            old(self).policy.sound(),
            old(self).snapshot.revision < u64::MAX,
        ensures
            final(self)@ == old(self)@.member_lost(generation, receiver, primary, error@, at),
            final(self).policy == old(self).policy,
            final(self).snapshot.revision <= old(self).snapshot.revision + 1,
    {
        proof {
            reveal(ActorView::member_lost);
        }
        let _was_active: bool = self.active.remove(receiver);
        let was_primary: bool = match self.primary {
            Some(held) => held == receiver,
            None => false,
        };
        if primary && was_primary {
            self.primary = None;
        }
        self.note_receiver_failure(receiver, true, error, at);
        self.show_member_failure(generation, receiver, primary);
        let row: ReconfigureCause = if primary {
            ReconfigureCause::PrimaryFailure
        } else {
            ReconfigureCause::SecondaryFailure
        };
        if row.requires_full_restart() {
            self.rejoin.note_restart(at.now);
            self.request_reconcile(ReconcileCause::PrimaryFailure);
        }
    }

    /// Applies the end of the live generation.
    fn apply_stopped(&mut self)
        requires
            old(self).snapshot.revision < u64::MAX,
        ensures
            final(self)@ == old(self)@.session_stopped(),
            final(self).policy == old(self).policy,
            final(self).snapshot.revision <= old(self).snapshot.revision + 1,
    {
        proof {
            reveal(ActorView::session_stopped);
        }
        self.live_session_generation = None;
        self.publish_generations();
        self.active = IdSet::new();
        self.primary = None;
        self.leave_sessions();
        let mut next: LiveParts = self.live_parts();
        next.session.phase = SessionPhase::Stopped;
        next.session.active = IdSet::new();
        next.session.primary = None;
        next.session.audio_flow = AudioFlow::SilenceBridged;
        self.show_rows(next);
    }

    /// Applies a session update.
    #[verifier::rlimit(40)]
    pub fn apply_session_update(&mut self, update: SessionUpdate, at: Moment)
        requires
            old(self).policy.sound(),
            old(self).snapshot.revision < u64::MAX,
        ensures
            final(self)@ == old(self)@.session_updated(update@, at),
            final(self).policy == old(self).policy,
            final(self).snapshot.revision <= old(self).snapshot.revision + 1,
    {
        proof {
            reveal(ActorView::session_recovering);
        }
        match update {
            SessionUpdate::Starting { generation } => self.apply_starting(generation),
            SessionUpdate::Active { generation, primary, members, partial_failures } =>
                self.apply_active(generation, primary, members, partial_failures, at),
            SessionUpdate::MemberControlFailed { generation, receiver, error } => {
                if generation < self.session_generation {
                    return;
                }
                self.emit_diagnostics(
                    Some(receiver),
                    Severity::Warning,
                    DiagnosticPayload::Message(error.to_string()),
                );
            },
            SessionUpdate::MemberFailed { generation, receiver, primary, error } =>
                self.apply_member_failed(generation, receiver, primary, error, at),
            SessionUpdate::Recovering { generation, reason } => {
                self.adopt_generation(generation);
                let mut next: LiveParts = self.live_parts();
                next.session.phase = SessionPhase::Restarting { generation, reason };
                self.maybe_publish(next);
            },
            SessionUpdate::Stopped { .. } => self.apply_stopped(),
        }
    }

    /// Applies one platform edge in the order the design mandates.
    pub fn handle_system_event(&mut self, event: SystemEvent, now: Instant)
        requires
            old(self).snapshot.revision < u64::MAX,
        ensures
            final(self)@ == old(self)@.system_handled(event, now),
            final(self).snapshot.revision <= old(self).snapshot.revision + 1,
            final(self).policy == old(self).policy,
    {
        match event {
            SystemEvent::Suspending => self.begin_suspend(now),
            SystemEvent::Resumed => self.begin_resume(now),
            SystemEvent::NetworkChanged { local_binding_changed } =>
                self.apply_network_change(local_binding_changed, now),
        }
    }

    /// How long the main loop may sleep on each of its timers at `now`.
    pub fn timer_arms(&self, now: Instant) -> (r: TimerArms)
        ensures
            r == (TimerArms {
                retry_in: self@.retry_delay_at(now),
                resume_in: self@.resume_delay_at(now),
                auto_connect_in: self@.auto_connect_delay_at(now),
            }),
    {
        TimerArms {
            retry_in: self.next_retry_delay(now),
            resume_in: self.resume_delay(now),
            auto_connect_in: self.auto_connect_delay(now),
        }
    }

    /// Handles one event of the main loop.
    #[verifier::rlimit(40)]
    pub fn handle_event(&mut self, event: ControllerEvent, at: Moment)
        requires
            old(self).policy.sound(),
            old(self).snapshot.revision < u64::MAX,
        ensures
            final(self)@ == old(self)@.event_handled(event@, at),
            final(self).policy == old(self).policy,
            final(self).snapshot.revision <= old(self).snapshot.revision + 1,
    {
        match event {
            ControllerEvent::Discovery(update) => self.apply_discovery_update(update, at),
            ControllerEvent::Capture(update) => {
                let refresh: bool = match &update {
                    CaptureUpdate::Ready { .. } => true,
                    CaptureUpdate::Recovering { .. } => true,
                    _ => false,
                };
                if refresh {
                    self.push_effect(Effect::ScanEndpoints);
                }
                self.apply_capture_update(update);
            },
            ControllerEvent::Telemetry { peak, dropped } =>
                self.apply_capture_telemetry(peak, dropped),
            ControllerEvent::Endpoints(scan) => self.apply_endpoints(scan),
            ControllerEvent::Session(update) => self.apply_session_update(update, at),
            ControllerEvent::RetryDue => self.fire_due_retries(at.now),
            ControllerEvent::System(edge) => self.handle_system_event(edge, at.now),
            ControllerEvent::ResumeSettled => {
                self.push_effect(Effect::ScanEndpoints);
                self.finish_resume(at.now);
            },
            ControllerEvent::AutoConnectDue => self.apply_startup_auto_connect(at.now),
        }
        self.publish_generations();
    }
}

} // verus!
