//! What every controller operation keeps.
//!
//! Supervisor reports change what is shown about the world. They never change
//! what the user asked for, what is stored, or an effect already requested.

use vstd::prelude::*;

use crate::actor_model::{
    failed_receivers, member_role, next_failures, ActorView,
    ControllerEventView, EffectView, Moment, OpView, ReconcileCause, SUSPEND_WATCHDOG_NANOS,
};
use crate::capture::{CaptureControl, CaptureUpdateView};
use crate::command::SystemEvent;
use crate::discovery::{DiscoveryControl, UpdateView};
use crate::event::{PayloadView, Severity, SystemTransition};
use crate::idmap::ascending_list;
use crate::ids::ReceiverId;
use crate::model::{
    AudioFlow, AudioSourceView, DiscoveryPhase, DiscoverySnapshot, EndpointView, PhaseView,
    RestartReason, SessionView, SnapshotView,
};
use crate::recovery::{deadline_cleared, entry_of};
use crate::session::{setup_failure_text, MemberFailure, SessionRequestView, SessionUpdateView};
use crate::text::law_listing_sorts;
use crate::time::{elapsed, instant_after, wall_after, Instant};

verus! {

/// Whether two snapshots show the same user settings; saved groups may be
/// listed in another order.
pub open spec fn same_settings(a: SnapshotView, b: SnapshotView) -> bool {
    &&& a.desired_members == b.desired_members
    &&& a.desired_revision == b.desired_revision
    &&& a.master_volume == b.master_volume
    &&& a.receiver_levels == b.receiver_levels
    &&& a.muted == b.muted
    &&& a.latency_preset == b.latency_preset
    &&& a.auto_connect == b.auto_connect
    &&& a.audio_source.preference == b.audio_source.preference
    &&& a.saved_groups.to_multiset() == b.saved_groups.to_multiset()
}

impl ActorView {
    /// Whether a suspend in force has a deadline that ends it.
    pub open spec fn wakes(self) -> bool {
        self.suspended ==> self.resume_at is Some
    }

    /// Whether `next` keeps everything the user decided and everything already
    /// requested: settings, durable state, run intent, command results, the
    /// launch policy, and the effects so far. Counters never go back, and a
    /// suspend never loses the deadline that ends it.
    pub open spec fn keeps(self, next: ActorView) -> bool {
        &&& same_intent(self.snapshot, next.snapshot)
        &&& self.persisted == next.persisted
        &&& self.calibration == next.calibration
        &&& self.saved_names == next.saved_names
        &&& self.policy == next.policy
        &&& self.session_open == next.session_open
        &&& self.startup_auto_connect_until == next.startup_auto_connect_until
        &&& self.session_generation <= next.session_generation
        &&& self.seen_discovery_generation <= next.seen_discovery_generation
        &&& self.wakes() ==> next.wakes()
        &&& self.effects.len() <= next.effects.len()
        &&& forall|i: int| 0 <= i < self.effects.len() ==> #[trigger] next.effects[i]
            == self.effects[i]
    }
}

/// Whether `next` shows the same settings, run intent, command results, and
/// persistence health, and no smaller drop total.
pub open spec fn same_intent(a: SnapshotView, next: SnapshotView) -> bool {
    &&& same_settings(a, next)
    &&& a.run_intent == next.run_intent
    &&& a.command_outcomes == next.command_outcomes
    &&& a.persistence == next.persistence
    &&& a.audio_source.pcm_frames_dropped_total <= next.audio_source.pcm_frames_dropped_total
}

pub(crate) proof fn lemma_published_keeps(a: ActorView)
    ensures
        a.keeps(a.published()),
{
    reveal(ActorView::published);
    law_listing_sorts(a.tone_checked().snapshot.saved_groups);
}

proof fn lemma_showing_keeps(a: ActorView, next: SnapshotView)
    requires
        same_intent(a.snapshot, next),
    ensures
        a.keeps(a.showing(next)),
{
    reveal(ActorView::showing);
    lemma_published_keeps(ActorView { snapshot: next, ..a });
}

pub(crate) proof fn lemma_showing_rows_keeps(a: ActorView, next: SnapshotView)
    requires
        same_intent(a.snapshot, next),
    ensures
        a.keeps(a.showing_rows(next)),
{
    reveal(ActorView::showing_rows);
    let aligned = a.realigned();
    lemma_showing_keeps(aligned, aligned.with_listed_rows(next));
}

pub(crate) proof fn lemma_driven_keeps(a: ActorView, receiver: ReceiverId, op: OpView)
    ensures
        a.keeps(a.driven(receiver, op)),
        a.driven(receiver, op).snapshot == a.snapshot,
        a.driven(receiver, op).inventory == a.inventory,
        a.driven(receiver, op).rejoin == a.rejoin,
        a.driven(receiver, op).retry == a.retry,
        a.driven(receiver, op).suspended == a.suspended,
{
    reveal(ActorView::driven);
}

proof fn lemma_services_synced_keeps(a: ActorView, now: Instant, ids: Seq<ReceiverId>)
    ensures
        a.keeps(a.services_synced(now, ids)),
    decreases ids.len(),
{
    if ids.len() > 0 {
        let rest = a.services_synced(now, ids.drop_last());
        lemma_services_synced_keeps(a, now, ids.drop_last());
        let id = ids.last();
        let noted = ActorView { rejoin: rest.service_synced(now, id).rejoin, ..rest };
        reveal(ActorView::driven);
        assert(rest.keeps(rest.service_synced(now, id)));
    }
}

proof fn lemma_refreshed_keeps(a: ActorView, now: Instant)
    ensures
        a.keeps(a.refreshed(now)),
{
    reveal(ActorView::refreshed);
    let aligned = a.realigned();
    let ids = ascending_list(aligned.machines.dom());
    lemma_services_synced_keeps(aligned, now, ids);
    let synced = aligned.services_synced(now, ids);
    lemma_showing_rows_keeps(synced, synced.snapshot);
}

pub(crate) proof fn lemma_volumes_keep(a: ActorView, receivers: Seq<ReceiverId>)
    ensures
        a.keeps(a.volumes_forwarded(receivers)),
        a.keeps(a.volumes_remembered(receivers)),
        a.volumes_forwarded(receivers).snapshot == a.snapshot,
        a.volumes_remembered(receivers).snapshot == a.snapshot,
        a.volumes_remembered(receivers).suspended == a.suspended,
    decreases receivers.len(),
{
    if receivers.len() > 0 {
        lemma_volumes_keep(a, receivers.drop_last());
    }
}

pub(crate) proof fn lemma_reconciled_keeps(a: ActorView, cause: ReconcileCause)
    ensures
        a.keeps(a.reconciled(cause)),
        a.reconciled(cause).snapshot == a.snapshot,
{
    reveal(ActorView::reconciled);
    if !a.reconcile_gated() {
        let pending = a.generation_minted(cause);
        lemma_volumes_keep(pending, ascending_list(pending.snapshot.desired_members));
    }
}

proof fn lemma_all_retried_keeps(a: ActorView, receivers: Seq<ReceiverId>)
    ensures
        a.keeps(a.all_retried(receivers)),
        a.all_retried(receivers).snapshot == a.snapshot,
    decreases receivers.len(),
{
    if receivers.len() > 0 {
        let rest = a.all_retried(receivers.drop_last());
        lemma_all_retried_keeps(a, receivers.drop_last());
        let cleared = ActorView {
            retry: deadline_cleared(rest.retry, receivers.last()),
            ..rest
        };
        lemma_driven_keeps(cleared, receivers.last(), OpView::Retry);
    }
}

proof fn lemma_retries_fired_keeps(a: ActorView, now: Instant)
    ensures
        a.keeps(a.retries_fired(now)),
{
    reveal(ActorView::retries_fired);
    let due = a.due_now(now);
    if due.len() > 0 {
        lemma_all_retried_keeps(a, due);
        let noted = a.all_retried(due).restart_noted(now);
        lemma_showing_rows_keeps(noted, noted.snapshot);
        lemma_reconciled_keeps(noted.rows_republished(), ReconcileCause::Retry);
    }
}

proof fn lemma_backoff_released_keeps(a: ActorView)
    ensures
        a.keeps(a.backoff_released()),
        a.backoff_released().snapshot == a.snapshot,
{
    reveal(ActorView::backoff_released);
    lemma_all_retried_keeps(a, ascending_list(a.backed_off()));
}

proof fn lemma_suspending_keeps(a: ActorView, now: Instant)
    ensures
        a.keeps(a.suspending(now)),
{
    reveal(ActorView::suspending);
    let gated = ActorView {
        suspended: true,
        resume_at: Some(
            instant_after(now, SUSPEND_WATCHDOG_NANOS),
        ),
        ..a
    }.doing(EffectView::Capture(CaptureControl::Suspend));
    let requested = if gated.session_open {
        gated.doing(
            EffectView::Session(SessionRequestView::Suspend),
        )
    } else {
        gated
    };
    lemma_showing_keeps(
        requested,
        SnapshotView {
            session: SessionView {
                resume_pending: true,
                audio_flow: AudioFlow::SilenceBridged,
                ..requested.snapshot.session
            },
            ..requested.snapshot
        },
    );
}

proof fn lemma_resumed_keeps(a: ActorView, now: Instant)
    ensures
        a.keeps(a.resumed(now)),
{
    reveal(ActorView::awakened);
    reveal(ActorView::resume_announced);
    reveal(ActorView::resumed);
    let asked = ActorView { resume_at: None, suspended: false, ..a }.doing(
        EffectView::Discovery(
            DiscoveryControl::RestartAfterNetworkChange,
        ),
    ).doing(EffectView::Capture(CaptureControl::Resume));
    lemma_backoff_released_keeps(asked);
    let awake = a.awakened();
    lemma_showing_keeps(
        awake,
        SnapshotView {
            session: SessionView { resume_pending: false, ..awake.snapshot.session },
            ..awake.snapshot
        },
    );
    let shown = awake.resume_announced();
    assert(a.keeps(shown));
    lemma_reconciled_keeps(shown.restart_noted(now), ReconcileCause::Resume);
}

proof fn lemma_network_changed_keeps(a: ActorView, moved: bool, now: Instant)
    ensures
        a.keeps(a.network_changed(moved, now)),
{
    reveal(ActorView::network_changed);
    let told = a.emitting(
        None,
        Severity::Info,
        PayloadView::SystemTransition {
            transition: SystemTransition::NetworkChanged {
                local_binding_changed: moved,
            },
        },
    );
    let restarted = told.doing(
        EffectView::Discovery(
            DiscoveryControl::RestartAfterNetworkChange,
        ),
    );
    lemma_backoff_released_keeps(restarted);
    lemma_reconciled_keeps(
        restarted.backoff_released().restart_noted(now),
        ReconcileCause::NetworkRebind,
    );
}

/// A platform edge keeps the run intent, the membership, and everything else
/// the user decided: a suspend is not a stop.
pub proof fn law_platform_edges_keep_what_the_user_decided(
    a: ActorView,
    event: SystemEvent,
    now: Instant,
)
    ensures
        a.keeps(a.system_handled(event, now)),
{
    lemma_suspending_keeps(a, now);
    if let SystemEvent::NetworkChanged { local_binding_changed } = event {
        lemma_network_changed_keeps(a, local_binding_changed, now);
    }
}

proof fn lemma_discovery_updated_keeps(a: ActorView, update: UpdateView, at: Moment)
    ensures
        a.keeps(a.discovery_updated(update, at)),
{
    reveal(ActorView::discovery_updated);
    match update {
        UpdateView::Started { generation } => {
            let seen = ActorView {
                seen_discovery_generation: generation,
                ..a
            }.sharing_generations();
            lemma_showing_keeps(
                seen,
                SnapshotView {
                    discovery: DiscoverySnapshot {
                        generation,
                        phase: DiscoveryPhase::Running,
                    },
                    ..seen.snapshot
                },
            );
        },
        UpdateView::Receiver { generation, event } => {
            lemma_refreshed_keeps(a.browsed(event), at.now);
        },
        UpdateView::Failed { retry_at, .. } => {
            let failures = next_failures(a.discovery_failures);
            let counted = ActorView { discovery_failures: failures, ..a };
            lemma_showing_keeps(
                counted,
                SnapshotView {
                    discovery: DiscoverySnapshot {
                        phase: DiscoveryPhase::Retrying {
                            attempt: failures,
                            retry_at: wall_after(at.wall, elapsed(at.now, retry_at)),
                        },
                        ..a.snapshot.discovery
                    },
                    ..a.snapshot
                },
            );
        },
    }
}

proof fn lemma_showing_audio_keeps(a: ActorView, source: AudioSourceView, flow: AudioFlow)
    requires
        source.preference == a.snapshot.audio_source.preference,
        a.snapshot.audio_source.pcm_frames_dropped_total <= source.pcm_frames_dropped_total,
    ensures
        a.keeps(a.showing_audio(source, flow)),
{
    reveal(ActorView::showing_audio);
    lemma_showing_keeps(
        a,
        SnapshotView {
            audio_source: source,
            session: SessionView { audio_flow: flow, ..a.snapshot.session },
            ..a.snapshot
        },
    );
}

proof fn lemma_capture_keeps(a: ActorView, update: CaptureUpdateView)
    ensures
        a.keeps(a.capture_updated(update)),
{
    reveal(ActorView::capture_updated);
    let counted = a.capture_counted(update);
    assert forall|source: AudioSourceView, flow: AudioFlow|
        source.preference == counted.snapshot.audio_source.preference
            && counted.snapshot.audio_source.pcm_frames_dropped_total
            <= source.pcm_frames_dropped_total implies counted.keeps(
        #[trigger] counted.showing_audio(source, flow),
    ) by {
        lemma_showing_audio_keeps(counted, source, flow);
    }
}

proof fn lemma_source_reports_keep(
    a: ActorView,
    scan: Option<Seq<EndpointView>>,
    peak: Option<u16>,
    dropped: u64,
)
    ensures
        a.keeps(a.endpoints_applied(scan)),
        a.keeps(a.telemetry_applied(peak, dropped)),
{
    reveal(ActorView::endpoints_applied);
    reveal(ActorView::telemetry_applied);
    assert forall|source: AudioSourceView, flow: AudioFlow|
        source.preference == a.snapshot.audio_source.preference
            && a.snapshot.audio_source.pcm_frames_dropped_total
            <= source.pcm_frames_dropped_total implies a.keeps(
        #[trigger] a.showing_audio(source, flow),
    ) by {
        lemma_showing_audio_keeps(a, source, flow);
    }
}

proof fn lemma_receiver_failed_keeps(
    a: ActorView,
    receiver: ReceiverId,
    retryable: bool,
    error: Seq<char>,
    at: Moment,
)
    ensures
        a.keeps(a.receiver_failed(receiver, retryable, error, at)),
        a.receiver_failed(receiver, retryable, error, at).snapshot == a.snapshot,
        a.receiver_failed(receiver, retryable, error, at).session_generation
            == a.session_generation,
{
    reveal(ActorView::receiver_failed);
    reveal(ActorView::driven);
}

proof fn lemma_failures_keep(
    a: ActorView,
    failures: Seq<MemberFailure>,
    missing: Seq<ReceiverId>,
    at: Moment,
)
    ensures
        a.keeps(a.members_failed(failures, at)),
        a.members_failed(failures, at).snapshot == a.snapshot,
        a.keeps(a.missing_failed(missing, at)),
        a.missing_failed(missing, at).snapshot == a.snapshot,
    decreases failures.len() + missing.len(),
{
    if failures.len() > 0 {
        lemma_failures_keep(a, failures.drop_last(), Seq::empty(), at);
        let failure = failures.last();
        lemma_receiver_failed_keeps(
            a.members_failed(failures.drop_last(), at),
            failure.receiver,
            failure.retryable,
            setup_failure_text(failure),
            at,
        );
    }
    if missing.len() > 0 {
        lemma_failures_keep(a, Seq::empty(), missing.drop_last(), at);
        lemma_receiver_failed_keeps(
            a.missing_failed(missing.drop_last(), at),
            missing.last(),
            true,
            "the receiver did not join the group"@,
            at,
        );
    }
}

proof fn lemma_members_keep(
    a: ActorView,
    generation: u64,
    primary: ReceiverId,
    members: Set<ReceiverId>,
    now: Instant,
    ids: Seq<ReceiverId>,
)
    ensures
        a.keeps(a.generation_begun(generation, ids)),
        a.generation_begun(generation, ids).snapshot == a.snapshot,
        a.keeps(a.members_streaming(primary, members, ids)),
        a.members_streaming(primary, members, ids).snapshot == a.snapshot,
        a.keeps(a.healthy_noted(now, ids)),
        a.healthy_noted(now, ids).snapshot == a.snapshot,
    decreases ids.len(),
{
    if ids.len() > 0 {
        lemma_members_keep(a, generation, primary, members, now, ids.drop_last());
        let id = ids.last();
        lemma_driven_keeps(
            a.generation_begun(generation, ids.drop_last()),
            id,
            OpView::Begin {
                generation,
                attempt: entry_of(a.retry, id).attempt,
            },
        );
        lemma_driven_keeps(
            a.members_streaming(primary, members, ids.drop_last()),
            id,
            OpView::Streaming(member_role(primary, members, id)),
        );
    }
}

pub(crate) proof fn lemma_session_joined_keeps(
    a: ActorView,
    generation: u64,
    primary: ReceiverId,
    members: Set<ReceiverId>,
    failures: Seq<MemberFailure>,
    at: Moment,
)
    ensures
        a.keeps(a.session_joined(generation, primary, members, failures, at)),
        a.session_joined(generation, primary, members, failures, at).snapshot == a.snapshot,
{
    let joined = ActorView { primary: Some(primary), active: members, ..a };
    lemma_volumes_keep(joined, ascending_list(joined.active));
    let live = joined.forwarding().calibration_settled(generation);
    assert(a.keeps(live) && live.snapshot == a.snapshot);
    let ids = ascending_list(members);
    lemma_members_keep(live, generation, primary, members, at.now, ids);
    let joining = live.members_streaming(primary, members, ids);
    lemma_members_keep(joining, generation, primary, members, at.now, ids);
    let streaming = joining.healthy_noted(at.now, ids);
    assert(a.keeps(streaming) && streaming.snapshot == a.snapshot);
    lemma_failures_keep(streaming, failures, Seq::empty(), at);
    let accounted = streaming.members_failed(failures, at);
    let missing = ascending_list(accounted.unaccounted(failed_receivers(failures)));
    lemma_failures_keep(accounted, Seq::empty(), missing, at);
}

proof fn lemma_session_active_keeps(
    a: ActorView,
    generation: u64,
    primary: ReceiverId,
    members: Set<ReceiverId>,
    failures: Seq<MemberFailure>,
    at: Moment,
)
    ensures
        a.keeps(a.session_active(generation, primary, members, failures, at)),
{
    reveal(ActorView::session_active);
    lemma_session_joined_keeps(a, generation, primary, members, failures, at);
    let settled = a.session_joined(generation, primary, members, failures, at);
    assert forall|next: SnapshotView| same_intent(settled.snapshot, next) implies settled.keeps(
        #[trigger] settled.showing_rows(next),
    ) by {
        lemma_showing_rows_keeps(settled, next);
    }
}

proof fn lemma_member_lost_keeps(
    a: ActorView,
    generation: u64,
    receiver: ReceiverId,
    primary: bool,
    error: Seq<char>,
    at: Moment,
)
    ensures
        a.keeps(a.member_lost(generation, receiver, primary, error, at)),
{
    reveal(ActorView::member_lost);
    reveal(ActorView::member_failure_shown);
    let removed = a.member_removed(receiver, primary);
    lemma_receiver_failed_keeps(removed, receiver, true, error, at);
    let failed = removed.receiver_failed(receiver, true, error, at);
    lemma_showing_rows_keeps(failed, failed.session_without(generation, receiver, primary));
    let shown = failed.member_failure_shown(generation, receiver, primary);
    lemma_reconciled_keeps(shown.restart_noted(at.now), ReconcileCause::PrimaryFailure);
}

proof fn lemma_session_starting_keeps(a: ActorView, generation: u64)
    ensures
        a.keeps(a.session_starting(generation)),
{
    reveal(ActorView::session_starting);
    reveal(ActorView::generation_adopted);
    let adopted = a.generation_adopted(generation);
    let ids = ascending_list(a.pending_desired);
    if ids.len() > 0 {
        lemma_members_keep(
            adopted,
            generation,
            ids.last(),
            Set::empty(),
            Instant { nanos: 0 },
            ids,
        );
    }
    let begun = adopted.generation_begun(generation, ids);
    assert(a.keeps(begun) && begun.snapshot == a.snapshot);
    assert forall|next: SnapshotView|
        same_intent(begun.snapshot, next) implies begun.keeps(
        #[trigger] begun.showing_rows(next),
    ) by {
        lemma_showing_rows_keeps(begun, next);
    }
}

proof fn lemma_session_ends_keep(a: ActorView, generation: u64, reason: RestartReason)
    ensures
        a.keeps(a.session_recovering(generation, reason)),
        a.keeps(a.session_stopped()),
{
    reveal(ActorView::session_recovering);
    reveal(ActorView::generation_adopted);
    reveal(ActorView::session_stopped);
    reveal(ActorView::session_left);
    let adopted = a.generation_adopted(generation);
    lemma_showing_keeps(
        adopted,
        SnapshotView {
            session: SessionView {
                phase: PhaseView::Restarting { generation, reason },
                ..adopted.snapshot.session
            },
            ..adopted.snapshot
        },
    );
    let ended = ActorView { live_session_generation: None, ..a }.sharing_generations();
    let left = ActorView { active: Set::empty(), primary: None, ..ended }.session_left();
    assert(a.keeps(left) && left.snapshot == a.snapshot);
    assert forall|next: SnapshotView|
        same_intent(left.snapshot, next) implies left.keeps(
        #[trigger] left.showing_rows(next),
    ) by {
        lemma_showing_rows_keeps(left, next);
    }
}

/// No session report changes what the user decided.
pub proof fn law_session_reports_keep_what_the_user_decided(
    a: ActorView,
    update: SessionUpdateView,
    at: Moment,
)
    ensures
        a.keeps(a.session_updated(update, at)),
{
    match update {
        SessionUpdateView::Starting { generation } => lemma_session_starting_keeps(a, generation),
        SessionUpdateView::Active { generation, primary, members, partial_failures } =>
            lemma_session_active_keeps(a, generation, primary, members, partial_failures, at),
        SessionUpdateView::MemberControlFailed { .. } => {},
        SessionUpdateView::MemberFailed { generation, receiver, primary, error } =>
            lemma_member_lost_keeps(a, generation, receiver, primary, error, at),
        SessionUpdateView::Recovering { generation, reason } =>
            lemma_session_ends_keep(a, generation, reason),
        SessionUpdateView::Stopped { .. } =>
            lemma_session_ends_keep(a, 0, RestartReason::MembershipChange),
    }
}

/// No event of the main loop changes what the user decided, except that the
/// launch policy may start playback.
pub proof fn law_events_keep_what_the_user_decided(
    a: ActorView,
    event: ControllerEventView,
    at: Moment,
)
    requires
        !(event is AutoConnectDue),
    ensures
        a.keeps(a.event_handled(event, at)),
{
    match event {
        ControllerEventView::Discovery(update) => lemma_discovery_updated_keeps(a, update, at),
        ControllerEventView::Capture(update) => {
            lemma_capture_keeps(a, update);
            lemma_capture_keeps(a.doing(EffectView::ScanEndpoints), update);
        },
        ControllerEventView::Telemetry { peak, dropped } =>
            lemma_source_reports_keep(a, None, peak, dropped),
        ControllerEventView::Endpoints(scan) => lemma_source_reports_keep(a, scan, None, 0),
        ControllerEventView::Session(update) =>
            law_session_reports_keep_what_the_user_decided(a, update, at),
        ControllerEventView::RetryDue => lemma_retries_fired_keeps(a, at.now),
        ControllerEventView::System(edge) =>
            law_platform_edges_keep_what_the_user_decided(a, edge, at.now),
        ControllerEventView::ResumeSettled =>
            lemma_resumed_keeps(a.doing(EffectView::ScanEndpoints), at.now),
        ControllerEventView::AutoConnectDue => {},
    }
}

} // verus!
