//! Mathematical model of the controller: its state, its effects, and every
//! transition as a function from state to state.

use vstd::prelude::*;

use crate::calibration::{no_calibration, CalibrationApplyState, CalibrationView};
use crate::capture::{CaptureControl, CaptureUpdateView};
use crate::command::SystemEvent;
use crate::discovery::{
    castable_device, BrowseView, DeviceView, DiscoveryControl, UpdateView,
};
use crate::event::{
    kind_category, payload_kind, DraftView, ErrorScope, EventView,
    Generations, NoticeCode, PayloadView, Severity, SystemTransition,
};
use crate::idmap::ascending_list;
use crate::ids::ReceiverId;
use crate::listening_check::{guard_holds, GuardView};
use crate::machine::{label_text, MachineView};
use crate::model::{
    idle_session, offered_presets, outcome_recorded, preset_config, unmeasured_source, AudioFlow, AudioSourceState,
    AudioSourceView, CommandFailure, DiscoveryPhase, DiscoverySnapshot, EndpointView, GroupView,
    LatencyConfig, LatencyPreset, LifecycleView, MemberView, OutcomesView, PersistenceSnapshot,
    PhaseView, PreferenceView, ReceiverRole, RestartReason, RowView, RunIntent, SavedGroupId,
    SessionView, SnapshotView, Volume,
};
use crate::persistence::{document_problem, same_state, PersistedView};
use crate::recovery::{
    deadline_cleared, discovered_noted, eligible_at, entry_of, failure_deadline, failure_noted,
    group_at, rejoin_allowed, streaming_noted, LimiterView, ReceiverRetryEntry, RetryPolicy,
};
use crate::session::{
    setup_failure_text, Gain, MemberFailure, ReconfigureCause, SessionRequestView,
    SessionUpdateView,
};
use crate::text::listed;
use crate::time::{elapsed, instant_after, wall_after, Duration, Instant, SystemTime};
use crate::volume::unity_volume;

verus! {

/// Interface/default-endpoint settle period observed after a system resume,
/// in nanoseconds.
///
/// The session is handed back before the network stack has finished
/// rebinding: reconnecting inside this window reliably fails on addresses that
/// are about to change again.
pub const RESUME_SETTLE_NANOS: u64 = 2_000_000_000;

/// Longest a suspend may last without a resume broadcast before the backend
/// concludes on its own that the machine is awake again, in nanoseconds.
///
/// The suspend gate must not have a single exit: resume broadcasts are not
/// guaranteed to arrive, and every automatic path and every reconciling
/// command is gated on the same flag.
pub const SUSPEND_WATCHDOG_NANOS: u64 = 300_000_000_000;

/// How long after launch the persisted auto-connect policy may still act, in
/// nanoseconds.
pub const AUTO_CONNECT_WINDOW_NANOS: u64 = 60_000_000_000;

/// What the controller keeps for itself on top of the session teardown it
/// contains, in nanoseconds.
pub const SHUTDOWN_JOIN_SLACK_NANOS: u64 = 1_000_000_000;

/// Total teardown budget honored while draining supervisors at shutdown, in
/// nanoseconds.
///
/// Strictly larger than the session teardown because it contains it: the
/// session's update channel closes only after the supervisor has finished its
/// final bounded stop.
pub const SHUTDOWN_GROUP_BUDGET_NANOS: u64 =
    crate::session::TEARDOWN_GROUP_NANOS + SHUTDOWN_JOIN_SLACK_NANOS;

/// Why the next reconciliation generation was requested.
#[derive(Clone, Copy, Debug, PartialEq, Eq, Structural)]
pub enum ReconcileCause {
    /// The desired membership or the run intent changed.
    Membership,
    /// A saved group was activated.
    SavedGroup,
    /// A latency preset was applied.
    LatencyPreset,
    /// A receiver is retried or rejoins.
    Retry,
    /// The PTP primary was lost; group timing is invalidated.
    PrimaryFailure,
    /// The system resumed; every pre-suspend transport object is invalid.
    Resume,
    /// An active local binding/address moved.
    NetworkRebind,
    /// A manual calibration profile was applied or reset.
    CalibrationChanged,
}

impl ReconcileCause {
    /// The announced restart reason.
    pub open spec fn restart_reason(self) -> RestartReason {
        match self {
            ReconcileCause::Membership => RestartReason::MembershipChange,
            ReconcileCause::SavedGroup => RestartReason::SavedGroupActivated,
            ReconcileCause::LatencyPreset => RestartReason::LatencyPresetChanged,
            ReconcileCause::Retry => RestartReason::SecondaryRejoin,
            ReconcileCause::PrimaryFailure => RestartReason::PrimaryReplaced,
            ReconcileCause::Resume => RestartReason::SystemResume,
            ReconcileCause::NetworkRebind => RestartReason::LocalInterfaceChanged,
            ReconcileCause::CalibrationChanged => RestartReason::CalibrationChanged,
        }
    }

    /// The full-restart matrix row this cause belongs to.
    pub open spec fn row(self) -> ReconfigureCause {
        match self {
            ReconcileCause::Membership => ReconfigureCause::Membership,
            ReconcileCause::SavedGroup => ReconfigureCause::Membership,
            ReconcileCause::LatencyPreset => ReconfigureCause::LatencyChanged,
            ReconcileCause::Retry => ReconfigureCause::SecondaryRejoin,
            ReconcileCause::PrimaryFailure => ReconfigureCause::PrimaryFailure,
            ReconcileCause::Resume => ReconfigureCause::Resume,
            ReconcileCause::NetworkRebind => ReconfigureCause::NetworkRebind,
            ReconcileCause::CalibrationChanged => ReconfigureCause::CalibrationChanged,
        }
    }

    /// The announced restart reason.
    pub fn reason(self) -> (r: RestartReason)
        ensures
            r == self.restart_reason(),
    {
        match self {
            ReconcileCause::Membership => RestartReason::MembershipChange,
            ReconcileCause::SavedGroup => RestartReason::SavedGroupActivated,
            ReconcileCause::LatencyPreset => RestartReason::LatencyPresetChanged,
            ReconcileCause::Retry => RestartReason::SecondaryRejoin,
            ReconcileCause::PrimaryFailure => RestartReason::PrimaryReplaced,
            ReconcileCause::Resume => RestartReason::SystemResume,
            ReconcileCause::NetworkRebind => RestartReason::LocalInterfaceChanged,
            ReconcileCause::CalibrationChanged => RestartReason::CalibrationChanged,
        }
    }

    /// The full-restart matrix row this cause belongs to.
    pub fn matrix_row(self) -> (r: ReconfigureCause)
        ensures
            r == self.row(),
    {
        match self {
            ReconcileCause::Membership => ReconfigureCause::Membership,
            ReconcileCause::SavedGroup => ReconfigureCause::Membership,
            ReconcileCause::LatencyPreset => ReconfigureCause::LatencyChanged,
            ReconcileCause::Retry => ReconfigureCause::SecondaryRejoin,
            ReconcileCause::PrimaryFailure => ReconfigureCause::PrimaryFailure,
            ReconcileCause::Resume => ReconfigureCause::Resume,
            ReconcileCause::NetworkRebind => ReconfigureCause::NetworkRebind,
            ReconcileCause::CalibrationChanged => ReconfigureCause::CalibrationChanged,
        }
    }
}

/// Every reconciliation the controller requests is a full-restart row.
pub proof fn law_every_reconcile_cause_is_a_restart_row(cause: ReconcileCause)
    ensures
        cause.row().restarts(),
{
}

/// Clock readings of one step.
#[derive(Clone, Copy, Debug, PartialEq, Eq, Structural)]
pub struct Moment {
    /// Monotonic reading.
    pub now: Instant,
    /// Wall-clock reading.
    pub wall: SystemTime,
}

/// One receiver record mirrored from discovery events.
#[verifier::ext_equal]
pub struct EntryView {
    /// Display name.
    pub name: Seq<char>,
    /// Castable service.
    pub castable: bool,
    /// Currently present.
    pub available: bool,
    /// Newest service record.
    pub device: Option<DeviceView>,
}

/// One thing the application does for the controller, as values.
pub enum EffectView {
    /// Broadcast a shell event.
    Event(EventView),
    /// Emit a diagnostic record.
    Diagnostic(DraftView),
    /// Publish a snapshot.
    Publish(SnapshotView),
    /// Hand the controller's counters to the shared view.
    PublishGenerations(Generations),
    /// Ask the session supervisor.
    Session(SessionRequestView),
    /// Seed a receiver's setup-time volume.
    RememberVolume(ReceiverId, Gain),
    /// Ask the capture supervisor.
    Capture(CaptureControl),
    /// Hand the endpoint preference to the capture supervisor.
    CapturePreference(PreferenceView),
    /// Ask the discovery supervisor.
    Discovery(DiscoveryControl),
    /// Request an endpoint scan.
    ScanEndpoints,
    /// Cancel the playing listening tone.
    CancelTone,
    /// Inject the alignment click pattern.
    InjectClicks,
}

/// What the controller knows, and what it has asked for so far.
#[verifier::ext_equal]
pub struct ActorView {
    /// Configuration the playing tone is bound to.
    pub listening_test: Option<GuardView>,
    /// Session generation that already played a tone.
    pub last_listening_test_generation: Option<u64>,
    /// Authoritative snapshot.
    pub snapshot: SnapshotView,
    /// Completion history of the latest publication.
    pub published_outcomes: OutcomesView,
    /// Durable state.
    pub persisted: PersistedView,
    /// Durable calibration intent.
    pub calibration: CalibrationView,
    /// Session generation minted for a calibration change that has not yet
    /// been seen to carry a live session.
    pub calibration_pending_generation: Option<u64>,
    /// Discovery inventory.
    pub inventory: Map<ReceiverId, EntryView>,
    /// Last-known names of saved members.
    pub saved_names: Map<ReceiverId, Seq<char>>,
    /// Newest session generation minted or adopted.
    pub session_generation: u64,
    /// Generation of the session that is live.
    pub live_session_generation: Option<u64>,
    /// Newest capture generation reported.
    pub capture_generation: u64,
    /// Browse generation published by the discovery supervisor.
    pub browse_generation: u64,
    /// Newest browse generation reported.
    pub seen_discovery_generation: u64,
    /// Current primary.
    pub primary: Option<ReceiverId>,
    /// Connected receivers.
    pub active: Set<ReceiverId>,
    /// Discovery failures reported.
    pub discovery_failures: u32,
    /// One lifecycle machine per known receiver.
    pub machines: Map<ReceiverId, MachineView>,
    /// Attempt counters, deadlines, and healthy windows.
    pub retry: Map<ReceiverId, ReceiverRetryEntry>,
    /// Retry ladder.
    pub policy: RetryPolicy,
    /// Discovery-stability window and spacing gate of automatic rejoins.
    pub rejoin: LimiterView,
    /// Desired set of the reconcile in flight.
    pub pending_desired: Set<ReceiverId>,
    /// Whether a suspend is in force.
    pub suspended: bool,
    /// Deadline at which the suspend ends.
    pub resume_at: Option<Instant>,
    /// Instant past which the launch policy may no longer act.
    pub startup_auto_connect_until: Option<Instant>,
    /// Whether the session supervisor takes requests.
    pub session_open: bool,
    /// Effects in order.
    pub effects: Seq<EffectView>,
}

/// A lifecycle operation driven by the controller.
pub enum OpView {
    /// Discovery availability.
    SetService(bool),
    /// Entering a session generation.
    Begin {
        /// Generation.
        generation: u64,
        /// Attempt.
        attempt: u32,
    },
    /// Reported membership.
    Streaming(ReceiverRole),
    /// Reported failure.
    Fail {
        /// Whether it may be retried.
        retryable: bool,
        /// Reason text.
        error: Seq<char>,
    },
    /// Scheduled backoff.
    Wait {
        /// Attempt.
        attempt: u32,
        /// Deadline.
        retry_at: SystemTime,
    },
    /// Immediate retry.
    Retry,
}

/// The machine after an operation.
pub open spec fn op_applied(machine: MachineView, op: OpView) -> MachineView {
    match op {
        OpView::SetService(available) => machine.with_service(available),
        OpView::Begin { generation, attempt } => machine.begun(generation, attempt),
        OpView::Streaming(role) => machine.streaming(role),
        OpView::Fail { retryable, error } => machine.failed(retryable, error),
        OpView::Wait { attempt, retry_at } => machine.waiting(attempt, retry_at),
        OpView::Retry => machine.retried(),
    }
}

/// The state an operation was rejected from entering, if it was rejected.
pub open spec fn op_rejection(machine: MachineView, op: OpView) -> Option<LifecycleView> {
    match op {
        OpView::Wait { attempt, retry_at } => {
            let to = LifecycleView::RetryWaiting { attempt, retry_at };
            if machine.accepts(to) { None } else { Some(to) }
        },
        _ => None,
    }
}

/// Text of an invariant diagnostic.
pub open spec fn invariant_text(from: LifecycleView, to: LifecycleView) -> Seq<char> {
    "receiver invariant violated: "@ + ("invalid receiver transition "@ + label_text(from) + " -> "@
        + label_text(to))
}

/// Last-known names after the members of one group from position `i` on.
pub open spec fn names_with_members(
    names: Map<ReceiverId, Seq<char>>,
    members: Seq<MemberView>,
) -> Map<ReceiverId, Seq<char>>
    decreases members.len(),
{
    if members.len() == 0 {
        names
    } else {
        names_with_members(names, members.drop_last()).insert(
            members.last().receiver,
            members.last().last_known_name,
        )
    }
}

/// Last-known names of the members of saved groups; the latest mention wins.
pub open spec fn saved_names_of(groups: Seq<GroupView>) -> Map<ReceiverId, Seq<char>>
    decreases groups.len(),
{
    if groups.len() == 0 {
        Map::empty()
    } else {
        names_with_members(saved_names_of(groups.drop_last()), groups.last().members)
    }
}

/// Role of a member of a live group.
pub open spec fn member_role(
    primary: ReceiverId,
    members: Set<ReceiverId>,
    receiver: ReceiverId,
) -> ReceiverRole {
    if members.len() <= 1 {
        ReceiverRole::Single
    } else if primary == receiver {
        ReceiverRole::Primary
    } else {
        ReceiverRole::Secondary
    }
}

/// Streaming/Degraded/Stopped from desired versus active membership.
pub open spec fn derived_phase(
    desired: Set<ReceiverId>,
    active: Set<ReceiverId>,
    intent: RunIntent,
    generation: u64,
) -> PhaseView {
    if intent == RunIntent::Stopped {
        PhaseView::Stopped
    } else if desired != Set::<ReceiverId>::empty() && active == desired {
        PhaseView::Streaming { generation }
    } else if active != Set::<ReceiverId>::empty() {
        PhaseView::Degraded { generation }
    } else {
        PhaseView::Starting { generation }
    }
}

/// The receivers of a list of failures.
pub open spec fn failed_receivers(failures: Seq<MemberFailure>) -> Set<ReceiverId> {
    Set::new(|id: ReceiverId| exists|i: int|
        0 <= i < failures.len() && (#[trigger] failures[i]).receiver == id)
}

/// The receivers whose latest failure of a list was terminal: ordinary policy
/// may not retry it.
pub open spec fn terminally_failed(failures: Seq<MemberFailure>) -> Set<ReceiverId>
    decreases failures.len(),
{
    if failures.len() == 0 {
        Set::empty()
    } else {
        let rest = terminally_failed(failures.drop_last());
        if failures.last().retryable {
            rest.remove(failures.last().receiver)
        } else {
            rest.insert(failures.last().receiver)
        }
    }
}

/// The larger of two numbers.
pub open spec fn larger(a: u64, b: u64) -> u64 {
    if a < b { b } else { a }
}

/// The later of two instants.
pub open spec fn later(a: Instant, b: Instant) -> Instant {
    if a.nanos < b.nanos { b } else { a }
}

/// What a committed change announces on the snapshot.
pub enum AnnounceView {
    /// Nothing beyond the levels.
    Nothing,
    /// New membership, counted as a change or not.
    Members {
        /// Members.
        members: Set<ReceiverId>,
        /// Whether the membership revision advances.
        counts: bool,
    },
    /// New master volume.
    MasterVolume(Volume),
    /// New mute flag.
    Muted(bool),
    /// New endpoint preference.
    Endpoint(PreferenceView),
    /// New latency preset.
    Latency(LatencyPreset),
    /// New auto-connect policy.
    AutoConnect(bool),
    /// A group was saved.
    GroupSaved(GroupView),
    /// A group was deleted.
    GroupDeleted(SavedGroupId),
}

/// The groups without the one with `id`.
pub open spec fn without_group(groups: Seq<GroupView>, id: SavedGroupId) -> Seq<GroupView>
    decreases groups.len(),
{
    if groups.len() == 0 {
        Seq::empty()
    } else {
        let rest = without_group(groups.drop_last(), id);
        if groups.last().id == id { rest } else { rest.push(groups.last()) }
    }
}

/// A snapshot with an announcement applied.
pub open spec fn announced(snapshot: SnapshotView, announce: AnnounceView) -> SnapshotView {
    match announce {
        AnnounceView::Nothing => snapshot,
        AnnounceView::Members { members, counts } => SnapshotView {
            desired_members: members,
            desired_revision: if counts {
                next_count(snapshot.desired_revision)
            } else {
                snapshot.desired_revision
            },
            ..snapshot
        },
        AnnounceView::MasterVolume(volume) => SnapshotView { master_volume: volume, ..snapshot },
        AnnounceView::Muted(muted) => SnapshotView { muted, ..snapshot },
        AnnounceView::Endpoint(preference) => SnapshotView {
            audio_source: AudioSourceView { preference, ..snapshot.audio_source },
            ..snapshot
        },
        AnnounceView::Latency(preset) => SnapshotView { latency_preset: preset, ..snapshot },
        AnnounceView::AutoConnect(enabled) => SnapshotView { auto_connect: enabled, ..snapshot },
        AnnounceView::GroupSaved(group) => SnapshotView {
            saved_groups: without_group(snapshot.saved_groups, group.id).push(group),
            ..snapshot
        },
        AnnounceView::GroupDeleted(id) => SnapshotView {
            saved_groups: without_group(snapshot.saved_groups, id),
            ..snapshot
        },
    }
}

/// `n` plus one, stopping at the largest value.
pub open spec fn next_count(n: u64) -> u64 {
    if n == u64::MAX { n } else { (n + 1) as u64 }
}

/// `n` plus one, stopping at the largest value.
pub open spec fn next_failures(n: u32) -> u32 {
    if n == u32::MAX { n } else { (n + 1) as u32 }
}

/// How a durable change ended.
///
/// The three outcomes besides `Applied` are deliberately distinct: a caller
/// that has to undo an in-memory side effect must be able to tell "the save
/// failed" from "there was nothing to save".
#[derive(Clone, Copy, Debug, PartialEq, Eq, Structural)]
pub enum CommitOutcome {
    /// The candidate was written and announced.
    Applied,
    /// The candidate equalled the stored document.
    Unchanged,
    /// The candidate failed validation; nothing was written.
    Rejected,
    /// The store rejected the write; nothing was written or announced.
    Failed,
}

impl CommitOutcome {
    /// Whether a semantic change was applied.
    pub fn applied(self) -> (r: bool)
        ensures
            r == (self == CommitOutcome::Applied),
    {
        match self {
            CommitOutcome::Applied => true,
            _ => false,
        }
    }

    /// Whether the durable state is exactly what the caller asked for, either
    /// because it was written now or because it already was.
    pub open spec fn intended(self) -> bool {
        self == CommitOutcome::Applied || self == CommitOutcome::Unchanged
    }

    /// Whether the durable state is exactly what the caller asked for.
    ///
    /// This is the condition for in-memory side effects that belong to the same
    /// user intent: they may run when nothing needed writing, but not when a
    /// write was attempted and failed.
    pub fn state_is_intended(self) -> (r: bool)
        ensures
            r == self.intended(),
    {
        match self {
            CommitOutcome::Applied => true,
            CommitOutcome::Unchanged => true,
            _ => false,
        }
    }
}

/// A durable change waiting for its write.
#[verifier::ext_equal]
pub struct CommitView {
    /// Command it belongs to.
    pub id: u64,
    /// State to write.
    pub candidate: PersistedView,
    /// What a successful write announces.
    pub announce: AnnounceView,
    /// Whether rows are rebuilt afterwards.
    pub refresh_rows: bool,
    /// Whether saved names are refreshed afterwards.
    pub sync_names: bool,
}

impl ActorView {
    /// The same controller with one more effect.
    pub open spec fn doing(self, effect: EffectView) -> ActorView {
        ActorView { effects: self.effects.push(effect), ..self }
    }

    /// The three generation counters every diagnostic is correlated by.
    ///
    /// The browse counter is published by the supervisor that owns it, which
    /// may be ahead of what was reported; the larger of the two was live.
    pub open spec fn generations(self) -> Generations {
        Generations {
            session: match self.live_session_generation {
                Some(generation) => generation,
                None => 0,
            },
            discovery: larger(self.browse_generation, self.seen_discovery_generation),
            capture: self.capture_generation,
        }
    }

    /// The same controller having emitted a diagnostic.
    pub open spec fn emitting(
        self,
        receiver: Option<ReceiverId>,
        severity: Severity,
        payload: PayloadView,
    ) -> ActorView {
        self.doing(
            EffectView::Diagnostic(
                DraftView {
                    generations: self.generations(),
                    receiver,
                    severity,
                    category: kind_category(payload_kind(payload)),
                    payload,
                },
            ),
        )
    }

    /// The same controller having handed out its counters.
    pub open spec fn sharing_generations(self) -> ActorView {
        self.doing(EffectView::PublishGenerations(self.generations()))
    }

    /// The same controller with a listening tone that no longer fits
    /// cancelled.
    pub open spec fn tone_checked(self) -> ActorView {
        match self.listening_test {
            Some(guard) => if guard_holds(guard, self.snapshot) {
                self
            } else {
                ActorView { listening_test: None, ..self }.doing(EffectView::CancelTone)
            },
            None => self,
        }
    }

    /// The controller after publishing its snapshot as a new revision.
    #[verifier::opaque]
    pub open spec fn published(self) -> ActorView {
        let checked = self.tone_checked();
        let snapshot = SnapshotView {
            revision: (checked.snapshot.revision + 1) as u64,
            ..checked.snapshot
        }.sorted();
        ActorView { snapshot, published_outcomes: snapshot.command_outcomes, ..checked }.doing(
            EffectView::Publish(snapshot),
        )
    }

    /// The controller after replacing its snapshot by `next`, published only
    /// when that alters anything; a changed session phase is also announced.
    #[verifier::opaque]
    pub open spec fn showing(self, next: SnapshotView) -> ActorView {
        if next == self.snapshot {
            self
        } else {
            let shown = ActorView { snapshot: next, ..self }.published();
            if next.session.phase == self.snapshot.session.phase {
                shown
            } else {
                shown.emitting(
                    None,
                    phase_severity(next.session.phase),
                    PayloadView::SessionTransition {
                        phase: next.session.phase,
                        active_members: clamped_count(next.session.active.len()),
                    },
                )
            }
        }
    }

    /// Whether discovery currently offers a castable service.
    pub open spec fn castable(self, id: ReceiverId) -> bool {
        self.inventory.contains_key(id) && self.inventory[id].available
            && self.inventory[id].castable
    }

    /// Receivers that are known or wanted.
    pub open spec fn scope(self) -> Set<ReceiverId> {
        self.inventory.dom().union(self.snapshot.desired_members)
    }

    /// The machine of `id`, a fresh one when there is none.
    pub open spec fn machine_of(self, id: ReceiverId) -> MachineView {
        if self.machines.contains_key(id) {
            self.machines[id]
        } else {
            MachineView::fresh(self.castable(id))
        }
    }

    /// Inventory without receivers that are neither wanted nor castable.
    pub open spec fn pruned(self) -> ActorView {
        ActorView {
            inventory: Map::new(
                |id: ReceiverId| self.inventory.contains_key(id)
                    && (self.snapshot.desired_members.contains(id) || self.castable(id)),
                |id: ReceiverId| self.inventory[id],
            ),
            ..self
        }
    }

    /// Machines for exactly the receivers in scope; undesired ones are
    /// released and lose their pending deadline.
    pub open spec fn regrouped(self) -> ActorView {
        let scope = self.scope();
        let desired = self.snapshot.desired_members;
        ActorView {
            machines: Map::new(
                |id: ReceiverId| scope.contains(id),
                |id: ReceiverId| if desired.contains(id) {
                    self.machine_of(id)
                } else {
                    self.machine_of(id).released()
                },
            ),
            retry: Map::new(
                |id: ReceiverId| self.retry.contains_key(id),
                |id: ReceiverId| if scope.contains(id) && !desired.contains(id) {
                    ReceiverRetryEntry { next_retry: None, ..self.retry[id] }
                } else {
                    self.retry[id]
                },
            ),
            ..self
        }
    }

    /// The row of `id`: names prefer discovery metadata, then saved-group
    /// labels, and are otherwise empty; the identity is never a display name.
    pub open spec fn row(self, id: ReceiverId) -> RowView {
        let known = self.inventory.contains_key(id);
        RowView {
            id,
            name: if known && self.inventory[id].name.len() > 0 {
                self.inventory[id].name
            } else if self.saved_names.contains_key(id) {
                self.saved_names[id]
            } else {
                Seq::empty()
            },
            model: if known && self.inventory[id].device is Some {
                self.inventory[id].device->0.model
            } else {
                Seq::empty()
            },
            lifecycle: self.machine_of(id).state,
        }
    }

    /// The rows of a list of receivers.
    pub open spec fn rows(self, ids: Seq<ReceiverId>) -> Seq<RowView> {
        Seq::new(ids.len(), |i: int| self.row(ids[i]))
    }

    /// Receivers serving their backoff.
    pub open spec fn waiting(self) -> Set<ReceiverId> {
        Set::new(|id: ReceiverId| self.machines.contains_key(id)
            && self.machines[id].state is RetryWaiting)
    }

    /// The controller with its machines brought in line with inventory and
    /// desired membership.
    pub open spec fn realigned(self) -> ActorView {
        self.pruned().regrouped()
    }

    /// A snapshot with rows and backoff set rebuilt from the machines.
    pub open spec fn with_rows(self, snapshot: SnapshotView) -> SnapshotView {
        SnapshotView {
            receivers: self.rows(ascending_list(self.scope())),
            session: SessionView { retry_waiting: self.waiting(), ..snapshot.session },
            ..snapshot
        }
    }

    /// The same snapshot with its rows in the order they are published in.
    pub open spec fn with_listed_rows(self, snapshot: SnapshotView) -> SnapshotView {
        let rebuilt = self.with_rows(snapshot);
        SnapshotView { receivers: listed(rebuilt.receivers), ..rebuilt }
    }

    /// The controller after refreshing rows on `next` and publishing when
    /// anything visible moved; the order the rows were rebuilt in is not
    /// visible.
    #[verifier::opaque]
    pub open spec fn showing_rows(self, next: SnapshotView) -> ActorView {
        let aligned = self.realigned();
        aligned.showing(aligned.with_listed_rows(next))
    }

    /// The controller after refreshing its own rows.
    pub open spec fn rows_republished(self) -> ActorView {
        self.showing_rows(self.snapshot)
    }

    /// The controller after driving one lifecycle operation.
    ///
    /// An accepted operation that lands where it started reports nothing; a
    /// rejected one reports the violated invariant.
    #[verifier::opaque]
    pub open spec fn driven(self, receiver: ReceiverId, op: OpView) -> ActorView {
        let before = self.machine_of(receiver);
        let after = op_applied(before, op);
        let held = ActorView { machines: self.machines.insert(receiver, after), ..self };
        match op_rejection(before, op) {
            Some(to) => held.emitting(
                Some(receiver),
                Severity::Warning,
                PayloadView::Message(invariant_text(before.state, to)),
            ),
            None => if after.state == before.state {
                held
            } else {
                held.emitting(
                    Some(receiver),
                    Severity::Info,
                    PayloadView::ReceiverTransition { receiver, to: after.state },
                )
            },
        }
    }

    /// The controller after mirroring discovery availability into one
    /// machine.
    pub open spec fn service_synced(self, now: Instant, id: ReceiverId) -> ActorView {
        let castable = self.castable(id);
        let noted = ActorView {
            rejoin: if castable {
                discovered_noted(self.rejoin, now, id)
            } else {
                LimiterView { online_since: self.rejoin.online_since.remove(id), ..self.rejoin }
            },
            ..self
        };
        if self.machines.contains_key(id) && self.machines[id].service_available == castable {
            noted
        } else {
            noted.driven(id, OpView::SetService(castable))
        }
    }

    /// The controller after mirroring availability into several machines.
    pub open spec fn services_synced(self, now: Instant, ids: Seq<ReceiverId>) -> ActorView
        decreases ids.len(),
    {
        if ids.len() == 0 {
            self
        } else {
            self.services_synced(now, ids.drop_last()).service_synced(now, ids.last())
        }
    }

    /// The controller after registering newly discovered receivers,
    /// mirroring availability, and publishing the resulting rows once.
    #[verifier::opaque]
    pub open spec fn refreshed(self, now: Instant) -> ActorView {
        let aligned = self.realigned();
        aligned.services_synced(now, ascending_list(aligned.machines.dom())).rows_republished()
    }

    /// The controller after a command succeeded.
    pub open spec fn completed(self, id: u64) -> ActorView {
        ActorView {
            snapshot: SnapshotView {
                command_outcomes: outcome_recorded(self.snapshot.command_outcomes, id, None),
                ..self.snapshot
            },
            ..self
        }.doing(EffectView::Event(EventView::CommandCompleted { id })).emitting(
            None,
            Severity::Info,
            PayloadView::CommandResult { id, error: None },
        )
    }

    /// The controller after a command failed.
    pub open spec fn failing(self, id: u64, message: Seq<char>, kind: CommandFailure) -> ActorView {
        ActorView {
            snapshot: SnapshotView {
                command_outcomes: outcome_recorded(self.snapshot.command_outcomes, id, Some(kind)),
                ..self.snapshot
            },
            ..self
        }.doing(EffectView::Event(EventView::CommandFailed { id, error: message })).emitting(
            None,
            Severity::Warning,
            PayloadView::CommandResult { id, error: Some(message) },
        )
    }

    /// The controller after rejecting a command.
    pub open spec fn rejecting(self, id: u64, message: Seq<char>) -> ActorView {
        self.failing(id, message, CommandFailure::Rejected)
    }

    /// The controller after a save failed: the change is applied neither on
    /// disk nor in memory, and the user is told so.
    #[verifier::opaque]
    pub open spec fn save_failed(self, id: u64) -> ActorView {
        ActorView {
            snapshot: SnapshotView { persistence: PersistenceSnapshot::Error, ..self.snapshot },
            ..self
        }.doing(
            EffectView::Event(
                EventView::Notice {
                    severity: Severity::Error,
                    code: NoticeCode::PersistenceWrite,
                    scope: ErrorScope::Persistence,
                    message: "saving device state failed; the change was not applied"@,
                },
            ),
        ).failing(
            id,
            "the change could not be saved to disk"@,
            CommandFailure::Persistence,
        ).emitting(
            None,
            Severity::Error,
            PayloadView::Persistence { outcome: PersistenceSnapshot::Error },
        )
    }

    /// How a durable change ends before anything is written, if it does.
    pub open spec fn early_outcome(self, candidate: PersistedView) -> Option<CommitOutcome> {
        if document_problem(candidate, 1) is Some {
            Some(CommitOutcome::Rejected)
        } else if same_state(candidate, self.persisted) {
            Some(CommitOutcome::Unchanged)
        } else {
            None
        }
    }

    /// The controller after a durable change was proposed: an invalid
    /// candidate is rejected, an unchanged one is an accepted no-op, and any
    /// other one waits for its write.
    pub open spec fn proposing(self, id: u64, candidate: PersistedView) -> ActorView {
        match self.early_outcome(candidate) {
            Some(CommitOutcome::Rejected) =>
                self.rejecting(id, "the requested change could not be applied"@),
            Some(_) => self.completed(id),
            None => self,
        }
    }

    /// The controller with `candidate` as its durable state and the change
    /// announced.
    #[verifier::opaque]
    pub open spec fn change_stored(self, candidate: PersistedView, announce: AnnounceView) -> ActorView {
        ActorView {
            persisted: candidate,
            snapshot: announced(
                SnapshotView {
                    receiver_levels: candidate.receiver_levels,
                    persistence: PersistenceSnapshot::Healthy,
                    ..self.snapshot
                },
                announce,
            ),
            ..self
        }
    }

    /// The controller with the snapshot's rows rebuilt from the machines.
    #[verifier::opaque]
    pub open spec fn rows_rebuilt(self) -> ActorView {
        let aligned = self.realigned();
        ActorView { snapshot: aligned.with_rows(self.snapshot), ..aligned }
    }

    /// The controller with its last-known names taken from the stored groups.
    pub open spec fn names_synced(self) -> ActorView {
        ActorView { saved_names: saved_names_of(self.persisted.saved_groups), ..self }
    }

    /// The controller after the write of a durable change was answered.
    ///
    /// Only a successful write changes durable or announced state; a failed
    /// one leaves both as they were and reports itself.
    #[verifier::opaque]
    pub open spec fn committed(self, commit: CommitView, saved: bool) -> ActorView {
        if saved {
            let stored = self.change_stored(commit.candidate, commit.announce);
            let rowed = if commit.refresh_rows { stored.rows_rebuilt() } else { stored };
            let named = if commit.sync_names { rowed.names_synced() } else { rowed };
            named.completed(commit.id).published()
        } else {
            self.save_failed(commit.id).published()
        }
    }

    /// Level of a receiver, full scale when none is stored.
    pub open spec fn gain_of(self, receiver: ReceiverId) -> Gain {
        if self.persisted.muted {
            Gain::Silent
        } else {
            Gain::Product {
                master: self.persisted.master_volume,
                level: if self.persisted.receiver_levels.contains_key(receiver) {
                    self.persisted.receiver_levels[receiver]
                } else {
                    unity_volume()
                },
            }
        }
    }

    /// The controller after forwarding volumes of `receivers` to the running
    /// stream.
    pub open spec fn volumes_forwarded(self, receivers: Seq<ReceiverId>) -> ActorView
        decreases receivers.len(),
    {
        if receivers.len() == 0 {
            self
        } else {
            let rest = self.volumes_forwarded(receivers.drop_last());
            rest.doing(
                EffectView::Session(
                    SessionRequestView::SetVolume {
                        receiver: receivers.last(),
                        gain: self.gain_of(receivers.last()),
                    },
                ),
            )
        }
    }

    /// The controller after seeding the setup-time volumes of `receivers`.
    pub open spec fn volumes_remembered(self, receivers: Seq<ReceiverId>) -> ActorView
        decreases receivers.len(),
    {
        if receivers.len() == 0 {
            self
        } else {
            let rest = self.volumes_remembered(receivers.drop_last());
            rest.doing(
                EffectView::RememberVolume(
                    receivers.last(),
                    self.gain_of(receivers.last()),
                ),
            )
        }
    }

    /// The controller after forwarding every active receiver's volume.
    pub open spec fn forwarding(self) -> ActorView {
        if self.session_open {
            self.volumes_forwarded(ascending_list(self.active))
        } else {
            self
        }
    }

    /// The controller after seeding every desired receiver's volume.
    pub open spec fn remembering(self) -> ActorView {
        if self.session_open {
            self.volumes_remembered(ascending_list(self.snapshot.desired_members))
        } else {
            self
        }
    }

    /// Whether a receiver is handed to the transport: castable, not serving
    /// its backoff, and with a known service record.
    pub open spec fn connectable(self, id: ReceiverId) -> bool {
        &&& self.castable(id)
        &&& !(self.machines.contains_key(id) && self.machines[id].in_backoff())
        &&& self.inventory[id].device is Some
    }

    /// The connectable receivers of a list, in its order.
    pub open spec fn connectable_of(self, ids: Seq<ReceiverId>) -> Seq<ReceiverId>
        decreases ids.len(),
    {
        if ids.len() == 0 {
            Seq::empty()
        } else {
            let rest = self.connectable_of(ids.drop_last());
            if self.connectable(ids.last()) { rest.push(ids.last()) } else { rest }
        }
    }

    /// Whether a reconcile would do nothing: the session supervisor is gone,
    /// the machine sleeps, or a stopped app has nothing to take down.
    pub open spec fn reconcile_gated(self) -> bool {
        ||| !self.session_open
        ||| self.suspended
        ||| self.snapshot.run_intent == RunIntent::Stopped
            && self.active == Set::<ReceiverId>::empty()
            && self.pending_desired == Set::<ReceiverId>::empty()
    }

    /// The receivers the next reconcile hands down: none while stopped.
    pub open spec fn wanted_now(self) -> Seq<ReceiverId> {
        if self.snapshot.run_intent == RunIntent::Stopped {
            Seq::empty()
        } else {
            self.connectable_of(ascending_list(self.snapshot.desired_members))
        }
    }

    /// The newest service records of a list of receivers.
    pub open spec fn records_of(self, ids: Seq<ReceiverId>) -> Seq<DeviceView> {
        Seq::new(ids.len(), |i: int| self.inventory[ids[i]].device->0)
    }

    /// The controller having minted the next session generation for `cause`.
    pub open spec fn generation_minted(self, cause: ReconcileCause) -> ActorView {
        let generation = next_count(self.session_generation);
        let minted = ActorView {
            session_generation: generation,
            live_session_generation: Some(generation),
            calibration_pending_generation: if cause == ReconcileCause::CalibrationChanged {
                Some(generation)
            } else {
                self.calibration_pending_generation
            },
            ..self
        }.sharing_generations();
        ActorView { pending_desired: self.wanted_now().to_set(), ..minted }
    }

    /// The controller after requesting a reconcile.
    #[verifier::opaque]
    pub open spec fn reconciled(self, cause: ReconcileCause) -> ActorView {
        if self.reconcile_gated() {
            self
        } else {
            let generation = next_count(self.session_generation);
            self.generation_minted(cause).remembering().emitting(
                None,
                Severity::Info,
                PayloadView::SessionRestart {
                    generation: self.generations().session,
                    reason: cause.restart_reason(),
                },
            ).doing(
                EffectView::Session(
                    SessionRequestView::Reconcile {
                        generation,
                        desired: self.records_of(self.wanted_now()),
                        preferred_primary: match self.primary {
                            Some(primary) => if self.snapshot.desired_members.contains(primary) {
                                Some(primary)
                            } else {
                                None
                            },
                            None => None,
                        },
                        latency: match preset_config(self.persisted.latency_preset) {
                            Some(config) => config,
                            None => LatencyConfig { sender_buffer_ms: 2_000, render_delay_ms: 200 },
                        },
                        calibration: self.calibration,
                        teardown_only: self.snapshot.run_intent == RunIntent::Stopped,
                    },
                ),
            )
        }
    }

    /// When an automatic rejoin may pull `id` back in: the latest of its
    /// discovery window, its own backoff, and the spacing of rejoin restarts.
    pub open spec fn rejoin_at(self, id: ReceiverId) -> Option<Instant> {
        if !(self.machines.contains_key(id) && self.machines[id].awaiting_rejoin()) {
            None
        } else {
            match eligible_at(self.rejoin, id) {
                None => None,
                Some(window) => {
                    let served = match entry_of(self.retry, id).next_retry {
                        Some(deadline) => later(window, deadline),
                        None => window,
                    };
                    Some(
                        match group_at(self.rejoin) {
                            Some(allowed) => later(served, allowed),
                            None => served,
                        },
                    )
                },
            }
        }
    }

    /// Whether `id` is due for an automatic rejoin at `now`.
    pub open spec fn rejoin_due(self, now: Instant, id: ReceiverId) -> bool {
        self.rejoin_at(id) matches Some(at) && at.nanos <= now.nanos
    }

    /// The due receivers of a list, in its order.
    pub open spec fn due_of(self, now: Instant, ids: Seq<ReceiverId>) -> Seq<ReceiverId>
        decreases ids.len(),
    {
        if ids.len() == 0 {
            Seq::empty()
        } else {
            let rest = self.due_of(now, ids.drop_last());
            if self.rejoin_due(now, ids.last()) { rest.push(ids.last()) } else { rest }
        }
    }

    /// The earliest instant at which a receiver of a list that is not due yet
    /// becomes eligible.
    pub open spec fn next_of(self, now: Instant, ids: Seq<ReceiverId>) -> Option<Instant>
        decreases ids.len(),
    {
        if ids.len() == 0 {
            None
        } else {
            let rest = self.next_of(now, ids.drop_last());
            match self.rejoin_at(ids.last()) {
                Some(at) => if at.nanos <= now.nanos {
                    rest
                } else {
                    match rest {
                        Some(earliest) => if at.nanos < earliest.nanos {
                            Some(at)
                        } else {
                            Some(earliest)
                        },
                        None => Some(at),
                    }
                },
                None => rest,
            }
        }
    }

    /// Whether automatic rejoins are closed altogether.
    pub open spec fn rejoin_closed(self) -> bool {
        self.suspended || self.snapshot.run_intent != RunIntent::Running
    }

    /// Receivers an automatic rejoin may pull back in at `now`.
    pub open spec fn due_now(self, now: Instant) -> Seq<ReceiverId> {
        if self.rejoin_closed() {
            Seq::empty()
        } else {
            self.due_of(now, ascending_list(self.snapshot.desired_members))
        }
    }

    /// When the next receiver becomes eligible.
    pub open spec fn next_due(self, now: Instant) -> Option<Instant> {
        if self.rejoin_closed() {
            None
        } else {
            self.next_of(now, ascending_list(self.snapshot.desired_members))
        }
    }

    /// Time left until the next automatic rejoin becomes possible.
    pub open spec fn retry_delay_at(self, now: Instant) -> Option<Duration> {
        if self.due_now(now).len() > 0 {
            Some(Duration { nanos: 0 })
        } else {
            match self.next_due(now) {
                Some(at) => Some(Duration { nanos: elapsed(now, at) }),
                None => None,
            }
        }
    }

    /// The controller after releasing one receiver from its backoff.
    pub open spec fn retried(self, receiver: ReceiverId) -> ActorView {
        ActorView { retry: deadline_cleared(self.retry, receiver), ..self }.driven(
            receiver,
            OpView::Retry,
        )
    }

    /// The controller after releasing several receivers.
    pub open spec fn all_retried(self, receivers: Seq<ReceiverId>) -> ActorView
        decreases receivers.len(),
    {
        if receivers.len() == 0 {
            self
        } else {
            self.all_retried(receivers.drop_last()).retried(receivers.last())
        }
    }

    /// Receivers serving a backoff or stuck in a failure.
    pub open spec fn backed_off(self) -> Set<ReceiverId> {
        Set::new(|id: ReceiverId| self.machines.contains_key(id) && self.machines[id].in_backoff())
    }

    /// The controller after freeing every backed-off receiver.
    #[verifier::opaque]
    pub open spec fn backoff_released(self) -> ActorView {
        self.all_retried(ascending_list(self.backed_off()))
    }

    /// The controller having counted a rejoin restart at `now`.
    pub open spec fn restart_noted(self, now: Instant) -> ActorView {
        ActorView {
            rejoin: LimiterView { last_rejoin_restart: Some(now), ..self.rejoin },
            ..self
        }
    }

    /// The controller after rejoining every due receiver through one restart.
    #[verifier::opaque]
    pub open spec fn retries_fired(self, now: Instant) -> ActorView {
        let due = self.due_now(now);
        if due.len() == 0 {
            self
        } else {
            self.all_retried(due).restart_noted(now).rows_republished().reconciled(
                ReconcileCause::Retry,
            )
        }
    }

    /// The controller after a suspend was announced: the barrier is raised
    /// before anything is requested, capture is silenced first, and run
    /// intent and membership are kept.
    #[verifier::opaque]
    pub open spec fn suspending(self, now: Instant) -> ActorView {
        let gated = ActorView {
            suspended: true,
            resume_at: Some(instant_after(now, SUSPEND_WATCHDOG_NANOS)),
            ..self
        }.doing(EffectView::Capture(CaptureControl::Suspend));
        let requested = if gated.session_open {
            gated.doing(EffectView::Session(SessionRequestView::Suspend))
        } else {
            gated
        };
        requested.showing(
            SnapshotView {
                session: SessionView {
                    resume_pending: true,
                    audio_flow: AudioFlow::SilenceBridged,
                    ..requested.snapshot.session
                },
                ..requested.snapshot
            },
        ).emitting(
            None,
            Severity::Info,
            PayloadView::SystemTransition { transition: SystemTransition::Suspending },
        )
    }

    /// The controller after a resume broadcast: the interface settle is
    /// armed, the barrier stays up.
    pub open spec fn resuming(self, now: Instant) -> ActorView {
        ActorView { resume_at: Some(instant_after(now, RESUME_SETTLE_NANOS)), ..self }
    }

    /// The controller with the suspend gate open, its supervisors asked to
    /// start over, and every backoff released.
    #[verifier::opaque]
    pub open spec fn awakened(self) -> ActorView {
        ActorView { resume_at: None, suspended: false, ..self }.doing(
            EffectView::Discovery(DiscoveryControl::RestartAfterNetworkChange),
        ).doing(EffectView::Capture(CaptureControl::Resume)).backoff_released()
    }

    /// The controller showing that no resume is pending any more.
    #[verifier::opaque]
    pub open spec fn resume_announced(self) -> ActorView {
        self.showing(
            SnapshotView {
                session: SessionView { resume_pending: false, ..self.snapshot.session },
                ..self.snapshot
            },
        ).emitting(
            None,
            Severity::Info,
            PayloadView::SystemTransition { transition: SystemTransition::Resumed },
        )
    }

    /// The controller after the settle elapsed: everything that slept is
    /// rebuilt against the newest desired set.
    #[verifier::opaque]
    pub open spec fn resumed(self, now: Instant) -> ActorView {
        let shown = self.awakened().resume_announced();
        if shown.snapshot.run_intent == RunIntent::Running {
            shown.restart_noted(now).reconciled(ReconcileCause::Resume)
        } else {
            shown
        }
    }

    /// Time left on the armed deadline of a suspend or resume.
    pub open spec fn resume_delay_at(self, now: Instant) -> Option<Duration> {
        match self.resume_at {
            Some(deadline) => Some(Duration { nanos: elapsed(now, deadline) }),
            None => None,
        }
    }

    /// The controller after one coalesced network edge.
    #[verifier::opaque]
    pub open spec fn network_changed(
        self,
        local_binding_changed: bool,
        now: Instant,
    ) -> ActorView {
        let told = self.emitting(
            None,
            Severity::Info,
            PayloadView::SystemTransition {
                transition: SystemTransition::NetworkChanged { local_binding_changed },
            },
        );
        if self.suspended {
            told
        } else {
            let restarted = told.doing(
                EffectView::Discovery(DiscoveryControl::RestartAfterNetworkChange),
            );
            if local_binding_changed && self.snapshot.run_intent == RunIntent::Running {
                restarted.backoff_released().restart_noted(now).reconciled(
                    ReconcileCause::NetworkRebind,
                )
            } else {
                restarted
            }
        }
    }

    /// The earliest instant at which a receiver of a list has been castable
    /// long enough.
    pub open spec fn first_eligible(self, ids: Seq<ReceiverId>) -> Option<Instant>
        decreases ids.len(),
    {
        if ids.len() == 0 {
            None
        } else {
            let rest = self.first_eligible(ids.drop_last());
            match eligible_at(self.rejoin, ids.last()) {
                Some(at) => match rest {
                    Some(earliest) => if at.nanos < earliest.nanos { Some(at) } else { Some(earliest) },
                    None => Some(at),
                },
                None => rest,
            }
        }
    }

    /// Time left until the persisted auto-connect policy could act.
    pub open spec fn auto_connect_delay_at(self, now: Instant) -> Option<Duration> {
        match self.startup_auto_connect_until {
            Some(until) => if self.suspended || now.nanos > until.nanos {
                None
            } else {
                match self.first_eligible(ascending_list(self.snapshot.desired_members)) {
                    Some(at) => if at.nanos <= until.nanos {
                        Some(Duration { nanos: elapsed(now, at) })
                    } else {
                        None
                    },
                    None => None,
                }
            },
            None => None,
        }
    }

    /// Whether some desired receiver has been castable long enough.
    pub open spec fn some_member_ready(self, now: Instant) -> bool {
        exists|id: ReceiverId| #[trigger] self.snapshot.desired_members.contains(id)
            && rejoin_allowed(self.rejoin, now, id)
    }

    /// The controller after the launch policy had its turn: it starts
    /// playback at most once, only inside its window, only while stopped, and
    /// never touches membership.
    #[verifier::opaque]
    pub open spec fn auto_connected(self, now: Instant) -> ActorView {
        match self.startup_auto_connect_until {
            None => self,
            Some(until) => if self.suspended {
                self
            } else if now.nanos > until.nanos || self.snapshot.run_intent != RunIntent::Stopped {
                ActorView { startup_auto_connect_until: None, ..self }
            } else if !self.some_member_ready(now) {
                self
            } else {
                ActorView {
                    startup_auto_connect_until: None,
                    snapshot: SnapshotView { run_intent: RunIntent::Running, ..self.snapshot },
                    ..self
                }.published().reconciled(ReconcileCause::Membership)
            },
        }
    }

    /// The controller after a calibration lifecycle edge.
    pub open spec fn calibration_noted(self, state: CalibrationApplyState) -> ActorView {
        self.emitting(
            None,
            if state == CalibrationApplyState::Failed { Severity::Warning } else { Severity::Info },
            PayloadView::CalibrationState(state),
        )
    }

    /// The controller after a session at `generation` went live: a waiting
    /// calibration that this session carries is applied.
    pub open spec fn calibration_settled(self, generation: u64) -> ActorView {
        match self.calibration_pending_generation {
            Some(pending) => if generation < pending {
                self
            } else {
                ActorView { calibration_pending_generation: None, ..self }.calibration_noted(
                    CalibrationApplyState::Applied,
                )
            },
            None => self,
        }
    }

    /// The inventory after a receiver was seen.
    pub open spec fn sighted(self, device: DeviceView) -> ActorView {
        ActorView {
            inventory: self.inventory.insert(
                device.id,
                EntryView {
                    name: device.name,
                    castable: castable_device(device),
                    available: true,
                    device: Some(device),
                },
            ),
            ..self
        }
    }

    /// The inventory after a browse event.
    pub open spec fn browsed(self, event: BrowseView) -> ActorView {
        match event {
            BrowseView::Added(device) => self.sighted(device),
            BrowseView::Updated(device) => self.sighted(device),
            BrowseView::Removed(id) => if self.inventory.contains_key(id) {
                ActorView {
                    inventory: self.inventory.insert(
                        id,
                        EntryView { available: false, ..self.inventory[id] },
                    ),
                    ..self
                }
            } else {
                self
            },
        }
    }

    /// The controller after a discovery update; updates older than the newest
    /// generation seen change nothing.
    #[verifier::opaque]
    pub open spec fn discovery_updated(self, update: UpdateView, at: Moment) -> ActorView {
        match update {
            UpdateView::Started { generation } =>
                if generation < self.seen_discovery_generation {
                    self
                } else {
                    let seen = ActorView {
                        seen_discovery_generation: generation,
                        ..self
                    }.sharing_generations();
                    seen.showing(
                        SnapshotView {
                            discovery: DiscoverySnapshot {
                                generation,
                                phase: DiscoveryPhase::Running,
                            },
                            ..seen.snapshot
                        },
                    )
                },
            UpdateView::Receiver { generation, event } =>
                if generation < self.seen_discovery_generation {
                    self
                } else {
                    self.browsed(event).refreshed(at.now)
                },
            UpdateView::Failed { generation, retry_at, .. } =>
                if generation < self.seen_discovery_generation {
                    self
                } else {
                    let failures = next_failures(self.discovery_failures);
                    let counted = ActorView { discovery_failures: failures, ..self };
                    let next = SnapshotView {
                        discovery: DiscoverySnapshot {
                            phase: DiscoveryPhase::Retrying {
                                attempt: failures,
                                retry_at: wall_after(at.wall, elapsed(at.now, retry_at)),
                            },
                            ..self.snapshot.discovery
                        },
                        ..self.snapshot
                    };
                    let shown = counted.showing(next);
                    if next == self.snapshot {
                        shown
                    } else {
                        shown.doing(
                            EffectView::Event(
                                EventView::Notice {
                                    severity: Severity::Warning,
                                    code: NoticeCode::DiscoveryFailed,
                                    scope: ErrorScope::Discovery,
                                    message: "receiver discovery is retrying in the background"@,
                                },
                            ),
                        )
                    }
                },
        }
    }

    /// The controller showing a changed audio source and flow.
    #[verifier::opaque]
    pub open spec fn showing_audio(self, source: AudioSourceView, flow: AudioFlow) -> ActorView {
        self.showing(
            SnapshotView {
                audio_source: source,
                session: SessionView { audio_flow: flow, ..self.snapshot.session },
                ..self.snapshot
            },
        )
    }

    /// The controller after an endpoint scan: a failed refresh keeps the last
    /// successful inventory.
    #[verifier::opaque]
    pub open spec fn endpoints_applied(self, scan: Option<Seq<EndpointView>>) -> ActorView {
        self.showing_audio(
            match scan {
                Some(endpoints) => AudioSourceView {
                    active_endpoints: Some(listed(endpoints)),
                    refresh_failed: false,
                    ..self.snapshot.audio_source
                },
                None => AudioSourceView { refresh_failed: true, ..self.snapshot.audio_source },
            },
            self.snapshot.session.audio_flow,
        )
    }

    /// The capture counter after an update: the newest generation wins, and a
    /// stop ends the last one.
    pub open spec fn capture_counted(self, update: CaptureUpdateView) -> ActorView {
        ActorView {
            capture_generation: match update {
                CaptureUpdateView::Started { capture_generation, .. } =>
                    larger(self.capture_generation, capture_generation),
                CaptureUpdateView::Ready { capture_generation, .. } =>
                    larger(self.capture_generation, capture_generation),
                CaptureUpdateView::FrameDrop { capture_generation, .. } =>
                    larger(self.capture_generation, capture_generation),
                CaptureUpdateView::Recovering { capture_generation, .. } =>
                    larger(self.capture_generation, capture_generation),
                CaptureUpdateView::Suspended { capture_generation, .. } =>
                    larger(self.capture_generation, capture_generation),
                CaptureUpdateView::Stopped { .. } => 0,
            },
            ..self
        }.sharing_generations()
    }

    /// The audio source without a capturing worker.
    pub open spec fn source_without_worker(self, state: AudioSourceState) -> AudioSourceView {
        AudioSourceView {
            state,
            captured_endpoint: None,
            windows_input_peak_permille: None,
            ..self.snapshot.audio_source
        }
    }

    /// The controller after a capture update.
    #[verifier::opaque]
    pub open spec fn capture_updated(self, update: CaptureUpdateView) -> ActorView {
        let counted = self.capture_counted(update);
        let source = self.snapshot.audio_source;
        match update {
            CaptureUpdateView::Ready { endpoint, .. } => counted.showing_audio(
                AudioSourceView {
                    state: AudioSourceState::Capturing,
                    captured_endpoint: Some(endpoint),
                    windows_input_peak_permille: None,
                    ..source
                },
                if self.active == Set::<ReceiverId>::empty() {
                    AudioFlow::SilenceBridged
                } else {
                    AudioFlow::Live
                },
            ),
            CaptureUpdateView::Suspended { .. } => counted.showing_audio(
                self.source_without_worker(AudioSourceState::Unavailable),
                AudioFlow::SilenceBridged,
            ),
            CaptureUpdateView::Recovering { .. } => counted.showing_audio(
                self.source_without_worker(AudioSourceState::Recovering),
                AudioFlow::SilenceBridged,
            ),
            CaptureUpdateView::Stopped { .. } => counted.showing_audio(
                self.source_without_worker(AudioSourceState::Unavailable),
                AudioFlow::SilenceBridged,
            ),
            CaptureUpdateView::Started { .. } => counted.showing_audio(
                AudioSourceView { windows_input_peak_permille: None, ..source },
                self.snapshot.session.audio_flow,
            ),
            CaptureUpdateView::FrameDrop { dropped, .. } => counted.showing_audio(
                AudioSourceView {
                    pcm_frames_dropped_total: larger(source.pcm_frames_dropped_total, dropped),
                    ..source
                },
                self.snapshot.session.audio_flow,
            ),
        }
    }

    /// The controller after a telemetry sample; the lifetime drop total never
    /// goes back.
    #[verifier::opaque]
    pub open spec fn telemetry_applied(self, peak: Option<u16>, dropped: u64) -> ActorView {
        let source = self.snapshot.audio_source;
        self.showing_audio(
            AudioSourceView {
                windows_input_peak_permille: peak,
                pcm_frames_dropped_total: larger(source.pcm_frames_dropped_total, dropped),
                ..source
            },
            self.snapshot.session.audio_flow,
        )
    }

    /// The controller after one receiver-local failure: a retryable one is
    /// scheduled on the ladder. Nothing restarts by itself.
    #[verifier::opaque]
    pub open spec fn receiver_failed(
        self,
        receiver: ReceiverId,
        retryable: bool,
        error: Seq<char>,
        at: Moment,
    ) -> ActorView {
        let failed = self.driven(receiver, OpView::Fail { retryable, error });
        if !retryable {
            failed
        } else {
            let streamed = streaming_noted(failed.retry, failed.policy, at.now, receiver);
            let deadline = failure_deadline(streamed, failed.policy, at.now, receiver);
            let noted = ActorView {
                retry: failure_noted(streamed, failed.policy, at.now, receiver),
                ..failed
            };
            let attempt = entry_of(noted.retry, receiver).attempt;
            let retry_at = wall_after(at.wall, elapsed(at.now, deadline));
            noted.driven(receiver, OpView::Wait { attempt, retry_at }).emitting(
                Some(receiver),
                Severity::Info,
                PayloadView::Retry { receiver: Some(receiver), attempt, next_at: retry_at },
            )
        }
    }

    /// The controller after the failures of a partially built group.
    pub open spec fn members_failed(self, failures: Seq<MemberFailure>, at: Moment) -> ActorView
        decreases failures.len(),
    {
        if failures.len() == 0 {
            self
        } else {
            let failure = failures.last();
            self.members_failed(failures.drop_last(), at).receiver_failed(
                failure.receiver,
                failure.retryable,
                setup_failure_text(failure),
                at,
            )
        }
    }

    /// The controller after receivers that joined neither list were failed.
    pub open spec fn missing_failed(self, missing: Seq<ReceiverId>, at: Moment) -> ActorView
        decreases missing.len(),
    {
        if missing.len() == 0 {
            self
        } else {
            self.missing_failed(missing.drop_last(), at).receiver_failed(
                missing.last(),
                true,
                "the receiver did not join the group"@,
                at,
            )
        }
    }

    /// The controller after several receivers entered a generation.
    pub open spec fn generation_begun(self, generation: u64, ids: Seq<ReceiverId>) -> ActorView
        decreases ids.len(),
    {
        if ids.len() == 0 {
            self
        } else {
            let rest = self.generation_begun(generation, ids.drop_last());
            rest.driven(
                ids.last(),
                OpView::Begin { generation, attempt: entry_of(self.retry, ids.last()).attempt },
            )
        }
    }

    /// The controller after several receivers were reported as members.
    pub open spec fn members_streaming(
        self,
        primary: ReceiverId,
        members: Set<ReceiverId>,
        ids: Seq<ReceiverId>,
    ) -> ActorView
        decreases ids.len(),
    {
        if ids.len() == 0 {
            self
        } else {
            self.members_streaming(primary, members, ids.drop_last()).driven(
                ids.last(),
                OpView::Streaming(member_role(primary, members, ids.last())),
            )
        }
    }

    /// Bookkeeping after several receivers reported streaming.
    pub open spec fn healthy_noted(self, now: Instant, ids: Seq<ReceiverId>) -> ActorView
        decreases ids.len(),
    {
        if ids.len() == 0 {
            self
        } else {
            let rest = self.healthy_noted(now, ids.drop_last());
            ActorView { retry: streaming_noted(rest.retry, rest.policy, now, ids.last()), ..rest }
        }
    }

    /// Receivers this generation was asked to connect that turn up neither
    /// among its members nor among its failures.
    pub open spec fn unaccounted(self, failed: Set<ReceiverId>) -> Set<ReceiverId> {
        Set::new(|id: ReceiverId| self.pending_desired.contains(id) && !self.active.contains(id)
            && !failed.contains(id))
    }

    /// The controller after everyone a live generation was asked to connect
    /// has been accounted for.
    pub open spec fn session_joined(
        self,
        generation: u64,
        primary: ReceiverId,
        members: Set<ReceiverId>,
        failures: Seq<MemberFailure>,
        at: Moment,
    ) -> ActorView {
        let live = ActorView { primary: Some(primary), active: members, ..self }.forwarding()
            .calibration_settled(generation);
        let ids = ascending_list(members);
        let streaming = live.members_streaming(primary, members, ids).healthy_noted(at.now, ids);
        let accounted = streaming.members_failed(failures, at);
        accounted.missing_failed(
            ascending_list(accounted.unaccounted(failed_receivers(failures))),
            at,
        )
    }

    /// The controller after a generation went live.
    #[verifier::opaque]
    pub open spec fn session_active(
        self,
        generation: u64,
        primary: ReceiverId,
        members: Set<ReceiverId>,
        failures: Seq<MemberFailure>,
        at: Moment,
    ) -> ActorView {
        let settled = self.session_joined(generation, primary, members, failures, at);
        settled.showing_rows(
            SnapshotView {
                session: SessionView {
                    phase: derived_phase(
                        settled.snapshot.desired_members,
                        members,
                        settled.snapshot.run_intent,
                        generation,
                    ),
                    desired: settled.snapshot.desired_members,
                    active: members,
                    failed: terminally_failed(failures).intersect(
                        settled.snapshot.desired_members,
                    ),
                    primary: Some(primary),
                    audio_flow: if settled.snapshot.audio_source.state == AudioSourceState::Capturing {
                        AudioFlow::Live
                    } else {
                        AudioFlow::SilenceBridged
                    },
                    ..settled.snapshot.session
                },
                ..settled.snapshot
            },
        )
    }

    /// The controller without a lost member.
    pub open spec fn member_removed(self, receiver: ReceiverId, primary: bool) -> ActorView {
        ActorView {
            active: self.active.remove(receiver),
            primary: if primary && self.primary == Some(receiver) { None } else { self.primary },
            ..self
        }
    }

    /// The session as it stands after a member failed. Losing a member is
    /// always retryable, so it waits for its retry and is not listed as
    /// failed.
    pub open spec fn session_without(
        self,
        generation: u64,
        receiver: ReceiverId,
        primary: bool,
    ) -> SnapshotView {
        SnapshotView {
            session: SessionView {
                phase: derived_phase(
                    self.snapshot.desired_members,
                    self.active,
                    self.snapshot.run_intent,
                    generation,
                ),
                active: self.active,
                failed: self.snapshot.session.failed.remove(receiver),
                primary: if primary { None } else { self.snapshot.session.primary },
                ..self.snapshot.session
            },
            ..self.snapshot
        }
    }

    /// The controller showing the session without a failed member.
    #[verifier::opaque]
    pub open spec fn member_failure_shown(
        self,
        generation: u64,
        receiver: ReceiverId,
        primary: bool,
    ) -> ActorView {
        self.showing_rows(self.session_without(generation, receiver, primary))
    }

    /// The controller after a member was lost. Losing the primary invalidates
    /// group timing and rebuilds; losing a secondary leaves the survivors
    /// streaming.
    #[verifier::opaque]
    pub open spec fn member_lost(
        self,
        generation: u64,
        receiver: ReceiverId,
        primary: bool,
        error: Seq<char>,
        at: Moment,
    ) -> ActorView {
        let failed = self.member_removed(receiver, primary).receiver_failed(
            receiver,
            true,
            error,
            at,
        );
        let shown = failed.member_failure_shown(generation, receiver, primary);
        if primary {
            shown.restart_noted(at.now).reconciled(ReconcileCause::PrimaryFailure)
        } else {
            shown
        }
    }

    /// The controller having adopted a session generation.
    #[verifier::opaque]
    pub open spec fn generation_adopted(self, generation: u64) -> ActorView {
        let newest = larger(self.session_generation, generation);
        ActorView { session_generation: newest, live_session_generation: Some(newest), ..self }
            .sharing_generations()
    }

    /// The controller after every machine left its session.
    #[verifier::opaque]
    pub open spec fn session_left(self) -> ActorView {
        ActorView {
            machines: Map::new(
                |id: ReceiverId| self.machines.contains_key(id),
                |id: ReceiverId| self.machines[id].left_session(),
            ),
            ..self
        }
    }

    /// The controller after a generation began its setup.
    #[verifier::opaque]
    pub open spec fn session_starting(self, generation: u64) -> ActorView {
        let begun = self.generation_adopted(generation).generation_begun(
            generation,
            ascending_list(self.pending_desired),
        );
        begun.showing_rows(
            SnapshotView {
                session: SessionView {
                    phase: PhaseView::Starting { generation },
                    desired: begun.snapshot.desired_members,
                    failed: Set::empty(),
                    ..begun.snapshot.session
                },
                ..begun.snapshot
            },
        )
    }

    /// The controller while a generation is torn down and replaced; the phase
    /// names that generation.
    #[verifier::opaque]
    pub open spec fn session_recovering(self, generation: u64, reason: RestartReason) -> ActorView {
        let adopted = self.generation_adopted(generation);
        adopted.showing(
            SnapshotView {
                session: SessionView {
                    phase: PhaseView::Restarting { generation, reason },
                    ..adopted.snapshot.session
                },
                ..adopted.snapshot
            },
        )
    }

    /// The controller after the live generation ended.
    #[verifier::opaque]
    pub open spec fn session_stopped(self) -> ActorView {
        let ended = ActorView {
            live_session_generation: None,
            ..self
        }.sharing_generations();
        let left = ActorView {
            active: Set::empty(),
            primary: None,
            ..ended
        }.session_left();
        left.showing_rows(
            SnapshotView {
                session: SessionView {
                    phase: PhaseView::Stopped,
                    active: Set::empty(),
                    primary: None,
                    audio_flow: AudioFlow::SilenceBridged,
                    ..left.snapshot.session
                },
                ..left.snapshot
            },
        )
    }

    /// The controller after a session update.
    pub open spec fn session_updated(
        self,
        update: SessionUpdateView,
        at: Moment,
    ) -> ActorView {
        match update {
            SessionUpdateView::Starting { generation } => self.session_starting(generation),
            SessionUpdateView::Active { generation, primary, members, partial_failures } =>
                self.session_active(generation, primary, members, partial_failures, at),
            SessionUpdateView::MemberControlFailed { generation, receiver, error } =>
                if generation < self.session_generation {
                    self
                } else {
                    self.emitting(Some(receiver), Severity::Warning, PayloadView::Message(error))
                },
            SessionUpdateView::MemberFailed { generation, receiver, primary, error } =>
                self.member_lost(generation, receiver, primary, error, at),
            SessionUpdateView::Recovering { generation, reason } =>
                self.session_recovering(generation, reason),
            SessionUpdateView::Stopped { .. } => self.session_stopped(),
        }
    }
}

/// A supervisor event other than a command, as values.
pub enum ControllerEventView {
    /// Discovery reported.
    Discovery(UpdateView),
    /// Capture reported.
    Capture(CaptureUpdateView),
    /// A capture telemetry sample.
    Telemetry {
        /// Input peak.
        peak: Option<u16>,
        /// Lifetime drops.
        dropped: u64,
    },
    /// An endpoint scan finished; none means it failed.
    Endpoints(Option<Seq<EndpointView>>),
    /// The session supervisor reported.
    Session(SessionUpdateView),
    /// A backoff deadline passed.
    RetryDue,
    /// A platform edge arrived.
    System(SystemEvent),
    /// The armed suspend or resume deadline passed.
    ResumeSettled,
    /// The launch policy may act.
    AutoConnectDue,
}

impl ActorView {
    /// The controller after a platform edge.
    pub open spec fn system_handled(self, event: SystemEvent, now: Instant) -> ActorView {
        match event {
            SystemEvent::Suspending => self.suspending(now),
            SystemEvent::Resumed => self.resuming(now),
            SystemEvent::NetworkChanged { local_binding_changed } =>
                self.network_changed(local_binding_changed, now),
        }
    }

    /// The controller after one event of its main loop.
    ///
    /// A worker that became ready or started recovering, and a finished
    /// resume, also refresh the endpoint inventory. Every event ends by
    /// handing out the counters.
    pub open spec fn event_handled(self, event: ControllerEventView, at: Moment) -> ActorView {
        let handled = match event {
            ControllerEventView::Discovery(update) => self.discovery_updated(update, at),
            ControllerEventView::Capture(update) => {
                let scanned = if update is Ready || update is Recovering {
                    self.doing(EffectView::ScanEndpoints)
                } else {
                    self
                };
                scanned.capture_updated(update)
            },
            ControllerEventView::Telemetry { peak, dropped } => self.telemetry_applied(peak, dropped),
            ControllerEventView::Endpoints(scan) => self.endpoints_applied(scan),
            ControllerEventView::Session(update) => self.session_updated(update, at),
            ControllerEventView::RetryDue => self.retries_fired(at.now),
            ControllerEventView::System(event) => self.system_handled(event, at.now),
            ControllerEventView::ResumeSettled =>
                self.doing(EffectView::ScanEndpoints).resumed(at.now),
            ControllerEventView::AutoConnectDue => self.auto_connected(at.now),
        };
        handled.sharing_generations()
    }

    /// A warning notice about durable state.
    pub open spec fn storage_notice(self, message: Seq<char>) -> ActorView {
        self.doing(
            EffectView::Event(
                EventView::Notice {
                    severity: Severity::Warning,
                    code: NoticeCode::PersistenceWrite,
                    scope: ErrorScope::Persistence,
                    message,
                },
            ),
        )
    }

    /// The controller after announcing what kind of load this launch was.
    #[verifier::opaque]
    pub open spec fn launch_announced(
        self,
        corrupted: bool,
        calibration_unreadable: bool,
        migrated: bool,
    ) -> ActorView {
        let loaded = self.emitting(
            None,
            if corrupted { Severity::Warning } else { Severity::Info },
            PayloadView::Persistence { outcome: PersistenceSnapshot::Healthy },
        );
        let told = if corrupted {
            loaded.emitting(
                None,
                Severity::Warning,
                PayloadView::Message(
                    "stored device state was unreadable; it was set aside and defaults restored"@,
                ),
            )
        } else {
            loaded
        };
        let aligned = if calibration_unreadable {
            told.emitting(
                None,
                Severity::Warning,
                PayloadView::Message(
                    "the stored speaker alignment could not be read; this session runs without it"@,
                ),
            )
        } else {
            told
        };
        let imported = if migrated {
            aligned.emitting(
                None,
                Severity::Info,
                PayloadView::Message(
                    "master volume was imported once from the previous release's settings"@,
                ),
            )
        } else {
            aligned
        };
        let noticed = if corrupted {
            imported.storage_notice("the previous state file was damaged; defaults were restored"@)
        } else {
            imported
        };
        if calibration_unreadable {
            noticed.storage_notice("the saved speaker alignment could not be read and is not in use"@)
        } else {
            noticed
        }
    }
}

/// The snapshot a launch starts from, before its rows are built.
pub open spec fn launch_snapshot(persisted: PersistedView) -> SnapshotView {
    SnapshotView {
        command_outcomes: OutcomesView { recent: Seq::empty(), evicted_through: 0 },
        revision: 0,
        desired_revision: 0,
        discovery: DiscoverySnapshot { generation: 0, phase: DiscoveryPhase::Stopped },
        receivers: Seq::empty(),
        saved_groups: persisted.saved_groups,
        desired_members: persisted.last_desired_members,
        run_intent: RunIntent::Stopped,
        session: idle_session(),
        audio_source: AudioSourceView {
            preference: persisted.audio_endpoint,
            ..unmeasured_source()
        },
        master_volume: persisted.master_volume,
        receiver_levels: persisted.receiver_levels,
        muted: persisted.muted,
        latency_preset: persisted.latency_preset,
        latency_presets: offered_presets(),
        auto_connect: persisted.auto_connect,
        persistence: PersistenceSnapshot::Idle,
    }
}

/// The controller at launch, before its rows are built. Nothing runs, and the
/// launch policy has one bounded window.
pub open spec fn blank_actor(persisted: PersistedView, policy: RetryPolicy, now: Instant) -> ActorView {
    ActorView {
        listening_test: None,
        last_listening_test_generation: None,
        snapshot: launch_snapshot(persisted),
        published_outcomes: OutcomesView { recent: Seq::empty(), evicted_through: 0 },
        persisted,
        calibration: no_calibration(),
        calibration_pending_generation: None,
        inventory: Map::empty(),
        saved_names: saved_names_of(persisted.saved_groups),
        session_generation: 0,
        live_session_generation: None,
        capture_generation: 0,
        browse_generation: 0,
        seen_discovery_generation: 0,
        primary: None,
        active: Set::empty(),
        discovery_failures: 0,
        machines: Map::empty(),
        retry: Map::empty(),
        policy,
        rejoin: LimiterView { online_since: Map::empty(), last_rejoin_restart: None },
        pending_desired: Set::empty(),
        suspended: false,
        resume_at: None,
        startup_auto_connect_until: if persisted.auto_connect {
            Some(instant_after(now, AUTO_CONNECT_WINDOW_NANOS))
        } else {
            None
        },
        session_open: true,
        effects: Seq::empty(),
    }
}

/// The controller at launch: desired members are rows before any discovery
/// arrives.
pub open spec fn launched(persisted: PersistedView, policy: RetryPolicy, now: Instant) -> ActorView {
    let blank = blank_actor(persisted, policy, now);
    let aligned = blank.realigned();
    ActorView { snapshot: aligned.with_rows(blank.snapshot).sorted(), ..aligned }
}

/// Severity of a session phase announcement.
pub open spec fn phase_severity(phase: PhaseView) -> Severity {
    match phase {
        PhaseView::Failed { .. } => Severity::Error,
        PhaseView::Degraded { .. } => Severity::Warning,
        PhaseView::Restarting { .. } => Severity::Warning,
        _ => Severity::Info,
    }
}

/// A count that stops at the largest 32-bit value.
pub open spec fn clamped_count(n: nat) -> u32 {
    if n > u32::MAX { u32::MAX } else { n as u32 }
}

} // verus!
