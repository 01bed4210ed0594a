//! When the controller restarts, rejoins, sleeps, wakes, and publishes.

use vstd::prelude::*;

use crate::actor_model::{
    launched, next_count, ActorView, EffectView, Moment, OpView, ReconcileCause,
    SUSPEND_WATCHDOG_NANOS,
};
use crate::controller_laws::same_settings;
use crate::discovery::{update_generation, BrowseView, UpdateView};
use crate::event::PayloadView;
use crate::idmap::{ascending_list, law_finite_sets_are_listed};
use crate::ids::ReceiverId;
use crate::listening_check::guard_holds;
use crate::model::{EndpointView, RunIntent, SnapshotView};
use crate::persistence::PersistedView;
use crate::recovery::{group_at, RetryPolicy, REJOIN_RESTART_SPACING_NANOS};
use crate::session::{Gain, SessionRequestView};
use crate::text::{in_publication_order, law_listing_keeps_sorted_items, law_listing_sorts, listed};
use crate::time::{instant_after, Duration, Instant};

verus! {

/// A machine that sleeps, a supervisor that is gone, and a stopped app with
/// nothing to take down are left alone by every reconcile.
pub proof fn law_gated_reconcile_does_nothing(a: ActorView, cause: ReconcileCause)
    requires
        a.suspended || !a.session_open || a.snapshot.run_intent == RunIntent::Stopped
            && a.active == Set::<ReceiverId>::empty()
            && a.pending_desired == Set::<ReceiverId>::empty(),
    ensures
        a.reconciled(cause) == a,
{
    reveal(ActorView::reconciled);
}

/// The request a reconcile ends with.
pub open spec fn last_request(a: ActorView) -> SessionRequestView
    recommends
        a.effects.len() > 0,
{
    a.effects.last()->Session_0
}

/// The record a reconcile emits before its request.
pub open spec fn restart_record(a: ActorView) -> PayloadView
    recommends
        a.effects.len() > 1,
{
    a.effects[a.effects.len() - 2]->Diagnostic_0.payload
}

/// A reconcile that is not gated mints the next generation and ends by asking
/// for it under its own number, once its record has named the generation that
/// is replaced. A stopped app hands down nobody and asks only for the
/// teardown.
pub proof fn law_reconcile_mints_one_generation(a: ActorView, cause: ReconcileCause)
    requires
        !a.reconcile_gated(),
    ensures
        a.reconciled(cause).session_generation == next_count(a.session_generation),
        a.reconciled(cause).live_session_generation == Some(next_count(a.session_generation)),
        a.reconciled(cause).effects.last() is Session,
        last_request(a.reconciled(cause)) is Reconcile,
        last_request(a.reconciled(cause))->generation == next_count(a.session_generation),
        restart_record(a.reconciled(cause)) == (PayloadView::SessionRestart {
            generation: a.generations().session,
            reason: cause.restart_reason(),
        }),
        last_request(a.reconciled(cause))->desired == a.records_of(a.wanted_now()),
        last_request(a.reconciled(cause))->calibration == a.calibration,
        last_request(a.reconciled(cause))->teardown_only <==> a.snapshot.run_intent
            == RunIntent::Stopped,
        a.snapshot.run_intent == RunIntent::Stopped ==> last_request(
            a.reconciled(cause),
        )->desired.len() == 0,
        cause == ReconcileCause::CalibrationChanged ==> a.reconciled(
            cause,
        ).calibration_pending_generation == Some(next_count(a.session_generation)),
{
    reveal(ActorView::reconciled);
    lemma_remembering_only_asks(a.generation_minted(cause));
}

proof fn lemma_connectable_members(a: ActorView, ids: Seq<ReceiverId>, i: int)
    requires
        0 <= i < a.connectable_of(ids).len(),
    ensures
        ids.contains(a.connectable_of(ids)[i]),
        a.connectable(a.connectable_of(ids)[i]),
    decreases ids.len(),
{
    if ids.len() > 0 {
        let rest = a.connectable_of(ids.drop_last());
        if i < rest.len() {
            lemma_connectable_members(a, ids.drop_last(), i);
            let k = choose|k: int| 0 <= k < ids.drop_last().len() && ids.drop_last()[k] == rest[i];
            assert(ids[k] == rest[i]);
        } else {
            assert(ids[ids.len() - 1] == ids.last());
        }
    }
}

/// Every receiver handed to the transport is wanted, castable, known, and not
/// serving a backoff.
pub proof fn law_only_connectable_members_are_handed_down(a: ActorView, i: int)
    requires
        a.snapshot.desired_members.finite(),
        0 <= i < a.wanted_now().len(),
    ensures
        a.snapshot.desired_members.contains(a.wanted_now()[i]),
        a.castable(a.wanted_now()[i]),
        !(a.machines.contains_key(a.wanted_now()[i])
            && a.machines[a.wanted_now()[i]].in_backoff()),
{
    let desired = a.snapshot.desired_members;
    lemma_connectable_members(a, ascending_list(desired), i);
    law_finite_sets_are_listed(desired);
    assert(ascending_list(desired).to_set().contains(a.wanted_now()[i]));
}

/// Whether every receiver's service record carries its own identity.
pub open spec fn records_named(a: ActorView) -> bool {
    forall|id: ReceiverId| #[trigger]
        a.inventory.contains_key(id) && a.inventory[id].device is Some
            ==> a.inventory[id].device->0.id == id
}

/// A receiver's record always carries its own identity: browse events and the
/// pruning of the inventory keep it so.
pub proof fn law_records_carry_their_identity(a: ActorView, event: BrowseView)
    requires
        records_named(a),
    ensures
        records_named(a.browsed(event)),
        records_named(a.pruned()),
{
}

/// A reconcile hands down, for each wanted receiver in identity order, the
/// newest service record that discovery reported of it.
pub proof fn law_newest_records_are_handed_down(a: ActorView, i: int)
    requires
        records_named(a),
        a.snapshot.desired_members.finite(),
        0 <= i < a.wanted_now().len(),
    ensures
        a.records_of(a.wanted_now()).len() == a.wanted_now().len(),
        a.inventory[a.wanted_now()[i]].device == Some(a.records_of(a.wanted_now())[i]),
        a.records_of(a.wanted_now())[i].id == a.wanted_now()[i],
{
    lemma_connectable_members(a, ascending_list(a.snapshot.desired_members), i);
}

proof fn lemma_rejoin_survives_showing(a: ActorView, next: SnapshotView)
    ensures
        a.showing(next).rejoin == a.rejoin,
        a.showing_rows(next).rejoin == a.rejoin,
{
    reveal(ActorView::showing);
    reveal(ActorView::published);
    reveal(ActorView::showing_rows);
}

proof fn lemma_rejoin_survives_reconcile(a: ActorView, cause: ReconcileCause)
    ensures
        a.reconciled(cause).rejoin == a.rejoin,
{
    reveal(ActorView::reconciled);
    if !a.reconcile_gated() {
        lemma_remembering_only_asks(a.generation_minted(cause));
    }
}

/// Seeding volumes only adds requests.
pub(crate) proof fn lemma_remembering_only_asks(a: ActorView)
    ensures
        a.remembering() == (ActorView { effects: a.remembering().effects, ..a }),
{
    lemma_volumes_only_ask(a, ascending_list(a.snapshot.desired_members));
}

proof fn lemma_volumes_only_ask(a: ActorView, receivers: Seq<ReceiverId>)
    ensures
        a.volumes_remembered(receivers) == (ActorView {
            effects: a.volumes_remembered(receivers).effects,
            ..a
        }),
    decreases receivers.len(),
{
    if receivers.len() > 0 {
        lemma_volumes_only_ask(a, receivers.drop_last());
    }
}

proof fn lemma_nobody_due(a: ActorView, now: Instant, ids: Seq<ReceiverId>)
    requires
        group_at(a.rejoin) matches Some(at) && at.nanos > now.nanos,
    ensures
        a.due_of(now, ids).len() == 0,
    decreases ids.len(),
{
    if ids.len() > 0 {
        lemma_nobody_due(a, now, ids.drop_last());
    }
}

/// The rejoin timer and what it fires agree: it is due at once exactly when
/// somebody is, and after it fired nobody is due at the same instant, so the
/// loop never spins on it.
pub proof fn law_rejoin_timer_fires_once(a: ActorView, now: Instant)
    requires
        now.nanos + REJOIN_RESTART_SPACING_NANOS <= u64::MAX,
        a.due_now(now).len() > 0,
    ensures
        a.retry_delay_at(now) == Some(Duration { nanos: 0 }),
        a.retries_fired(now).due_now(now).len() == 0,
        a.retries_fired(now).rejoin.last_rejoin_restart == Some(now),
{
    reveal(ActorView::retries_fired);
    let due = a.due_now(now);
    let noted = a.all_retried(due).restart_noted(now);
    lemma_rejoin_survives_showing(noted, noted.snapshot);
    let shown = noted.rows_republished();
    lemma_rejoin_survives_reconcile(shown, ReconcileCause::Retry);
    let fired = a.retries_fired(now);
    assert(fired == shown.reconciled(ReconcileCause::Retry));
    assert(fired.rejoin == noted.rejoin);
    lemma_nobody_due(fired, now, ascending_list(fired.snapshot.desired_members));
}

/// A timer that was armed for an instant lets nobody wait past it: when
/// nobody is due yet, the delay ends exactly when the first receiver becomes
/// eligible.
pub proof fn law_rejoin_timer_is_armed_for_the_first_receiver(
    a: ActorView,
    now: Instant,
    id: ReceiverId,
    at: Instant,
)
    requires
        a.snapshot.desired_members.finite(),
        !a.rejoin_closed(),
        a.snapshot.desired_members.contains(id),
        a.rejoin_at(id) == Some(at),
    ensures
        a.retry_delay_at(now) is Some,
        a.retry_delay_at(now)->0.nanos <= crate::time::elapsed(now, at),
{
    let ids = ascending_list(a.snapshot.desired_members);
    law_finite_sets_are_listed(a.snapshot.desired_members);
    assert(ids.to_set().contains(id));
    lemma_armed(a, now, ids, id, at);
}

proof fn lemma_armed(a: ActorView, now: Instant, ids: Seq<ReceiverId>, id: ReceiverId, at: Instant)
    requires
        ids.contains(id),
        a.rejoin_at(id) == Some(at),
    ensures
        at.nanos <= now.nanos ==> a.due_of(now, ids).len() > 0,
        at.nanos > now.nanos ==> (a.next_of(now, ids) matches Some(next) && next.nanos <= at.nanos
            && next.nanos > now.nanos),
    decreases ids.len(),
{
    let k = choose|k: int| 0 <= k < ids.len() && ids[k] == id;
    lemma_next_lies_ahead(a, now, ids.drop_last());
    if ids.last() != id {
        assert(ids.drop_last()[k] == id);
        lemma_armed(a, now, ids.drop_last(), id, at);
    }
}

proof fn lemma_next_lies_ahead(a: ActorView, now: Instant, ids: Seq<ReceiverId>)
    ensures
        a.next_of(now, ids) matches Some(next) ==> next.nanos > now.nanos,
    decreases ids.len(),
{
    if ids.len() > 0 {
        lemma_next_lies_ahead(a, now, ids.drop_last());
    }
}

proof fn lemma_showing_only_shows(a: ActorView, next: SnapshotView)
    ensures
        a.showing(next).suspended == a.suspended,
        a.showing(next).resume_at == a.resume_at,
        a.showing(next).session_generation == a.session_generation,
        a.showing(next).startup_auto_connect_until == a.startup_auto_connect_until,
        a.showing(next).snapshot.run_intent == next.run_intent,
        a.showing(next).session_open == a.session_open,
{
    reveal(ActorView::showing);
    reveal(ActorView::published);
}

/// A suspend shuts every automatic path: nothing rejoins, the launch policy
/// waits, and every reconcile is left alone. It also arms its own end, so a
/// resume broadcast that never arrives cannot wedge the backend.
pub proof fn law_suspend_closes_every_automatic_path(
    a: ActorView,
    now: Instant,
    later: Instant,
    cause: ReconcileCause,
)
    ensures
        a.suspending(now).suspended,
        a.suspending(now).resume_at == Some(instant_after(now, SUSPEND_WATCHDOG_NANOS)),
        a.suspending(now).resume_delay_at(later) is Some,
        a.suspending(now).retry_delay_at(later) is None,
        a.suspending(now).due_now(later).len() == 0,
        a.suspending(now).auto_connect_delay_at(later) is None,
        a.suspending(now).reconciled(cause) == a.suspending(now),
        a.suspending(now).auto_connected(later) == a.suspending(now),
{
    reveal(ActorView::suspending);
    reveal(ActorView::auto_connected);
    assert(a.suspending(now).suspended && a.suspending(now).resume_at == Some(
        instant_after(now, SUSPEND_WATCHDOG_NANOS),
    )) by {
        let gated = ActorView {
            suspended: true,
            resume_at: Some(instant_after(now, SUSPEND_WATCHDOG_NANOS)),
            ..a
        }.doing(EffectView::Capture(crate::capture::CaptureControl::Suspend));
        let requested = if gated.session_open {
            gated.doing(EffectView::Session(SessionRequestView::Suspend))
        } else {
            gated
        };
        lemma_showing_only_shows(
            requested,
            SnapshotView {
                session: crate::model::SessionView {
                    resume_pending: true,
                    audio_flow: crate::model::AudioFlow::SilenceBridged,
                    ..requested.snapshot.session
                },
                ..requested.snapshot
            },
        );
    }
    law_gated_reconcile_does_nothing(a.suspending(now), cause);
}

/// The end of a suspend lifts the barrier again, whichever deadline raised it.
pub proof fn law_resume_lifts_the_barrier(a: ActorView, now: Instant)
    ensures
        !a.resumed(now).suspended,
        a.resumed(now).resume_at is None,
{
    reveal(ActorView::resumed);
    reveal(ActorView::resume_announced);
    reveal(ActorView::awakened);
    reveal(ActorView::backoff_released);
    reveal(ActorView::reconciled);
    let asked = ActorView { resume_at: None, suspended: false, ..a }.doing(
        EffectView::Discovery(crate::discovery::DiscoveryControl::RestartAfterNetworkChange),
    ).doing(EffectView::Capture(crate::capture::CaptureControl::Resume));
    lemma_retries_keep_the_barrier(asked, ascending_list(asked.backed_off()));
    let awake = a.awakened();
    lemma_showing_only_shows(
        awake,
        SnapshotView {
            session: crate::model::SessionView { resume_pending: false, ..awake.snapshot.session },
            ..awake.snapshot
        },
    );
    let shown = awake.resume_announced().restart_noted(now);
    lemma_remembering_only_asks(shown.generation_minted(ReconcileCause::Resume));
}

proof fn lemma_retries_keep_the_barrier(a: ActorView, receivers: Seq<ReceiverId>)
    ensures
        a.all_retried(receivers).suspended == a.suspended,
        a.all_retried(receivers).resume_at == a.resume_at,
    decreases receivers.len(),
{
    if receivers.len() > 0 {
        lemma_retries_keep_the_barrier(a, receivers.drop_last());
        reveal(ActorView::driven);
    }
}

/// The launch policy never touches membership, levels, or stored state. It
/// starts playback only out of a stop, inside its window, while awake, and
/// with a member that has been castable long enough; and once it has acted it
/// is spent for the life of the process.
pub proof fn law_launch_policy_starts_at_most_once(a: ActorView, now: Instant)
    ensures
        same_settings(a.snapshot, a.auto_connected(now).snapshot),
        a.auto_connected(now).persisted == a.persisted,
        a.auto_connected(now).snapshot.run_intent != a.snapshot.run_intent ==> {
            &&& a.snapshot.run_intent == RunIntent::Stopped
            &&& a.startup_auto_connect_until matches Some(until) && now.nanos <= until.nanos
            &&& !a.suspended
            &&& a.some_member_ready(now)
            &&& a.auto_connected(now).startup_auto_connect_until is None
        },
        a.startup_auto_connect_until is None ==> a.auto_connected(now) == a,
{
    reveal(ActorView::auto_connected);
    reveal(ActorView::published);
    let started = ActorView {
        startup_auto_connect_until: None,
        snapshot: SnapshotView { run_intent: RunIntent::Running, ..a.snapshot },
        ..a
    };
    law_listing_sorts(started.tone_checked().snapshot.saved_groups);
    let published = started.published();
    reveal(ActorView::reconciled);
    lemma_remembering_only_asks(published.generation_minted(ReconcileCause::Membership));
}

/// Every publication carries the next revision, lists its rows in order,
/// shows the settings unchanged, and leaves the tone playing exactly while
/// its configuration still holds.
pub proof fn law_publications_are_ordered_revisions(a: ActorView)
    requires
        a.snapshot.revision < u64::MAX,
    ensures
        a.published().snapshot.revision == a.snapshot.revision + 1,
        a.published().effects.last() == EffectView::Publish(a.published().snapshot),
        a.published().published_outcomes == a.published().snapshot.command_outcomes,
        in_publication_order(a.published().snapshot.receivers),
        in_publication_order(a.published().snapshot.saved_groups),
        same_settings(a.snapshot, a.published().snapshot),
        match a.listening_test {
            Some(guard) => a.published().listening_test is Some <==> guard_holds(guard, a.snapshot),
            None => a.published().listening_test is None,
        },
{
    reveal(ActorView::published);
    law_listing_sorts(a.tone_checked().snapshot.saved_groups);
    law_listing_sorts(a.tone_checked().snapshot.receivers);
}

/// Rebuilt rows show every wanted receiver and every known one, each once,
/// and nobody else.
pub proof fn law_every_receiver_in_scope_is_one_row(a: ActorView, snapshot: SnapshotView)
    requires
        a.inventory.dom().finite(),
        a.snapshot.desired_members.finite(),
    ensures
        forall|id: ReceiverId| (a.snapshot.desired_members.contains(id)
            || a.inventory.contains_key(id)) <==> exists|i: int|
            0 <= i < a.with_rows(snapshot).receivers.len()
                && #[trigger] a.with_rows(snapshot).receivers[i].id == id,
        forall|i: int, j: int|
            0 <= i < j < a.with_rows(snapshot).receivers.len() ==> (#[trigger] a.with_rows(
                snapshot,
            ).receivers[i]).id != (#[trigger] a.with_rows(snapshot).receivers[j]).id,
{
    let scope = a.scope();
    let ids = ascending_list(scope);
    law_finite_sets_are_listed(scope);
    let rows = a.with_rows(snapshot).receivers;
    assert forall|id: ReceiverId| (a.snapshot.desired_members.contains(id)
        || a.inventory.contains_key(id)) <==> exists|i: int|
        0 <= i < rows.len() && #[trigger] rows[i].id == id by {
        assert(scope.contains(id) <==> ids.to_set().contains(id));
        if ids.contains(id) {
            let k = ids.index_of(id);
            assert(rows[k].id == id);
        }
        if exists|i: int| 0 <= i < rows.len() && #[trigger] rows[i].id == id {
            let k = choose|i: int| 0 <= i < rows.len() && #[trigger] rows[i].id == id;
            assert(ids[k] == id);
        }
    }
    assert forall|i: int, j: int| 0 <= i < j < rows.len() implies (#[trigger] rows[i]).id != (
    #[trigger] rows[j]).id by {
        assert(ids[i].key() < ids[j].key());
    }
}

/// A receiver is shown under its discovered name, else under its name in a
/// saved group, else under none; its identity is never its name.
pub proof fn law_rows_are_never_named_after_identities(a: ActorView, id: ReceiverId)
    ensures
        !a.inventory.contains_key(id) && !a.saved_names.contains_key(id) ==> a.row(id).name.len()
            == 0,
        a.inventory.contains_key(id) && a.inventory[id].name.len() > 0 ==> a.row(id).name
            == a.inventory[id].name,
        !(a.inventory.contains_key(id) && a.inventory[id].name.len() > 0)
            && a.saved_names.contains_key(id) ==> a.row(id).name == a.saved_names[id],
{
}

/// Rows are published only when something visible moved: refreshing them
/// again right after a refresh neither publishes nor changes anything,
/// whatever order the receivers were discovered in.
pub proof fn law_unmoved_rows_are_not_published_again(a: ActorView, next: SnapshotView)
    requires
        a.snapshot.desired_members == next.desired_members,
        in_publication_order(next.saved_groups),
    ensures
        a.showing_rows(next).rows_republished() == a.showing_rows(next),
{
    reveal(ActorView::showing_rows);
    reveal(ActorView::showing);
    reveal(ActorView::published);
    let aligned = a.realigned();
    let target = aligned.with_listed_rows(next);
    let rows = aligned.with_rows(next).receivers;
    law_listing_sorts(rows);
    law_listing_keeps_sorted_items(listed(rows));
    law_listing_keeps_sorted_items(next.saved_groups);
    let shown = a.showing_rows(next);
    assert(shown.snapshot.receivers == listed(rows));
    assert(shown.machines == aligned.machines && shown.inventory == aligned.inventory);
    assert(shown.pruned().inventory =~= shown.inventory);
    assert(shown.scope() =~= aligned.scope());
    assert(shown.realigned().machines =~= shown.machines);
    assert(shown.realigned().retry =~= shown.retry);
    assert(shown.realigned() =~= shown);
    assert(shown.rows(ascending_list(shown.scope())) =~= rows);
    assert(shown.waiting() =~= aligned.waiting());
    assert(shown.with_listed_rows(shown.snapshot) =~= shown.snapshot);
}

/// Reports of a browse generation older than the newest one seen change
/// nothing.
pub proof fn law_stale_browse_reports_change_nothing(a: ActorView, update: UpdateView, at: Moment)
    requires
        update_generation(update) < a.seen_discovery_generation,
    ensures
        a.discovery_updated(update, at) == a,
{
    reveal(ActorView::discovery_updated);
}

/// A failed endpoint scan keeps the last successful inventory, or its
/// absence, and only flags itself.
pub proof fn law_failed_scan_keeps_the_inventory(a: ActorView)
    ensures
        a.endpoints_applied(None).snapshot.audio_source.active_endpoints
            == a.snapshot.audio_source.active_endpoints,
        a.endpoints_applied(None).snapshot.audio_source.refresh_failed,
{
    reveal(ActorView::endpoints_applied);
    reveal(ActorView::showing_audio);
    reveal(ActorView::showing);
    reveal(ActorView::published);
}

/// A successful scan replaces the inventory, which may now be empty, and
/// clears the flag.
pub proof fn law_successful_scan_replaces_the_inventory(a: ActorView, scan: Seq<EndpointView>)
    ensures
        a.endpoints_applied(Some(scan)).snapshot.audio_source.active_endpoints == Some(
            listed(scan),
        ),
        !a.endpoints_applied(Some(scan)).snapshot.audio_source.refresh_failed,
{
    reveal(ActorView::endpoints_applied);
    reveal(ActorView::showing_audio);
    reveal(ActorView::showing);
    reveal(ActorView::published);
}

/// A calibration waits for a session at or after the generation minted for
/// it; a newer session carries the same profile and settles it too.
pub proof fn law_calibration_settles_with_its_generation(a: ActorView, generation: u64)
    ensures
        a.calibration_settled(generation).calibration_pending_generation is None
            <==> (a.calibration_pending_generation matches Some(pending) ==> generation >= pending),
{
}

/// A muted backend is silent to every receiver.
pub proof fn law_mute_silences_every_receiver(a: ActorView, receiver: ReceiverId)
    requires
        a.persisted.muted,
    ensures
        a.gain_of(receiver) == Gain::Silent,
{
}

/// A launch restores what was stored, is stopped, and asks for nothing.
pub proof fn law_launch_restores_and_waits(
    persisted: PersistedView,
    policy: RetryPolicy,
    now: Instant,
)
    ensures
        launched(persisted, policy, now).snapshot.run_intent == RunIntent::Stopped,
        launched(persisted, policy, now).snapshot.desired_members
            == persisted.last_desired_members,
        launched(persisted, policy, now).persisted == persisted,
        launched(persisted, policy, now).effects.len() == 0,
        !launched(persisted, policy, now).suspended,
        !persisted.auto_connect ==> launched(persisted, policy, now).startup_auto_connect_until
            is None,
{
}

/// Whether `next` extends the effects of `a` without asking the session
/// supervisor for anything.
pub open spec fn asks_no_session(a: ActorView, next: ActorView) -> bool {
    &&& a.effects.len() <= next.effects.len()
    &&& forall|i: int| 0 <= i < a.effects.len() ==> #[trigger] next.effects[i] == a.effects[i]
    &&& forall|i: int|
        a.effects.len() <= i < next.effects.len() ==> !((#[trigger] next.effects[i]) is Session)
    &&& next.session_generation == a.session_generation
    &&& next.pending_desired == a.pending_desired
}

proof fn lemma_failure_asks_nothing(
    a: ActorView,
    receiver: ReceiverId,
    error: Seq<char>,
    at: Moment,
)
    ensures
        asks_no_session(a, a.receiver_failed(receiver, true, error, at)),
{
    reveal(ActorView::receiver_failed);
    let failed = a.driven(receiver, OpView::Fail { retryable: true, error });
    assert(asks_no_session(a, failed)) by {
        reveal(ActorView::driven);
    }
    assert forall|held: ActorView, op: OpView| asks_no_session(
        held,
        #[trigger] held.driven(receiver, op),
    ) by {
        reveal(ActorView::driven);
    }
}

proof fn lemma_showing_rows_asks_nothing(a: ActorView, next: SnapshotView)
    ensures
        asks_no_session(a, a.showing_rows(next)),
{
    reveal(ActorView::showing_rows);
    reveal(ActorView::showing);
    reveal(ActorView::published);
}

/// Losing a secondary leaves the survivors streaming: no generation is minted
/// and the session supervisor is asked for nothing.
pub proof fn law_secondary_loss_restarts_nothing(
    a: ActorView,
    generation: u64,
    receiver: ReceiverId,
    error: Seq<char>,
    at: Moment,
)
    ensures
        asks_no_session(a, a.member_lost(generation, receiver, false, error, at)),
{
    reveal(ActorView::member_lost);
    reveal(ActorView::member_failure_shown);
    let removed = a.member_removed(receiver, false);
    lemma_failure_asks_nothing(removed, receiver, error, at);
    let failed = removed.receiver_failed(receiver, true, error, at);
    lemma_showing_rows_asks_nothing(failed, failed.session_without(generation, receiver, false));
}

} // verus!
