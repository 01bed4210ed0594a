//! What the controller hands to the transport: receivers, volumes, and the
//! generation they belong to.

use vstd::prelude::*;

use crate::actor_model::{ActorView, EffectView, OpView, ReconcileCause};
use crate::event::{PayloadView, Severity};
use crate::idmap::{ascending, ascending_list, law_finite_sets_are_listed};
use crate::ids::ReceiverId;
use crate::model::{CommandFailure, LatencyConfig, RestartReason, RunIntent, SnapshotView};
use crate::requests::{asked, lemma_requested_push, Requests};
use crate::session::{Gain, SessionRequestView};

verus! {

broadcast use lemma_requested_push;

pub(crate) proof fn lemma_published_asks_nothing(a: ActorView)
    ensures
        asked(a.published()) == asked(a),
{
    reveal(ActorView::published);
}

pub(crate) proof fn lemma_showing_asks_nothing(a: ActorView, next: SnapshotView)
    ensures
        asked(a.showing(next)) == asked(a),
{
    reveal(ActorView::showing);
    lemma_published_asks_nothing(ActorView { snapshot: next, ..a });
}

pub(crate) proof fn lemma_showing_rows_asks_nothing(a: ActorView, next: SnapshotView)
    ensures
        asked(a.showing_rows(next)) == asked(a),
{
    reveal(ActorView::showing_rows);
    let aligned = a.realigned();
    lemma_showing_asks_nothing(aligned, aligned.with_listed_rows(next));
}

pub(crate) proof fn lemma_driven_asks_nothing(a: ActorView, receiver: ReceiverId, op: OpView)
    ensures
        asked(a.driven(receiver, op)) == asked(a),
{
    reveal(ActorView::driven);
}

pub(crate) proof fn lemma_retries_ask_nothing(a: ActorView, ids: Seq<ReceiverId>)
    ensures
        asked(a.all_retried(ids)) == asked(a),
    decreases ids.len(),
{
    if ids.len() > 0 {
        lemma_retries_ask_nothing(a, ids.drop_last());
        let rest = a.all_retried(ids.drop_last());
        let cleared = ActorView {
            retry: crate::recovery::deadline_cleared(rest.retry, ids.last()),
            ..rest
        };
        lemma_driven_asks_nothing(cleared, ids.last(), OpView::Retry);
    }
}

pub(crate) proof fn lemma_backoff_release_asks_nothing(a: ActorView)
    ensures
        asked(a.backoff_released()) == asked(a),
{
    reveal(ActorView::backoff_released);
    lemma_retries_ask_nothing(a, crate::idmap::ascending_list(a.backed_off()));
}

pub(crate) proof fn lemma_results_ask_nothing(
    a: ActorView,
    id: u64,
    message: Seq<char>,
    kind: CommandFailure,
)
    ensures
        asked(a.completed(id)) == asked(a),
        asked(a.failing(id, message, kind)) == asked(a),
        asked(a.rejecting(id, message)) == asked(a),
        asked(a.save_failed(id)) == asked(a),
{
    reveal(ActorView::save_failed);
}

/// Whether a receiver can be streamed to right now: it is selected, discovery
/// offers it as a present and castable service whose record is known, and it
/// neither waits for a retry nor stands in a failure.
pub open spec fn can_stream(a: ActorView, id: ReceiverId) -> bool {
    &&& a.snapshot.desired_members.contains(id)
    &&& a.inventory.contains_key(id)
    &&& a.inventory[id].available
    &&& a.inventory[id].castable
    &&& a.inventory[id].device is Some
    &&& a.machines.contains_key(id) ==> !(a.machines[id].state is RetryWaiting)
        && !(a.machines[id].state is Failed)
}

proof fn lemma_connectable_filter(a: ActorView, ids: Seq<ReceiverId>, id: ReceiverId)
    ensures
        a.connectable_of(ids).contains(id) <==> ids.contains(id) && a.connectable(id),
    decreases ids.len(),
{
    if ids.len() > 0 {
        let front = ids.drop_last();
        let rest = a.connectable_of(front);
        let all = a.connectable_of(ids);
        lemma_connectable_filter(a, front, id);
        assert(ids =~= front.push(ids.last()));
        if front.contains(id) {
            let k = front.index_of(id);
            assert(ids[k] == id);
        }
        if id == ids.last() {
            assert(ids[ids.len() - 1] == id);
        }
        if rest.contains(id) {
            let k = rest.index_of(id);
            assert(all[k] == id);
        }
        if a.connectable(ids.last()) {
            assert(all[all.len() - 1] == ids.last());
            if all.contains(id) && id != ids.last() {
                let k = all.index_of(id);
                assert(rest[k] == id);
            }
        }
        if ids.contains(id) && id != ids.last() {
            let k = ids.index_of(id);
            assert(front[k] == id);
        }
    }
}

proof fn lemma_connectable_order(a: ActorView, ids: Seq<ReceiverId>)
    requires
        ascending(ids),
    ensures
        ascending(a.connectable_of(ids)),
    decreases ids.len(),
{
    if ids.len() > 0 {
        let front = ids.drop_last();
        assert(ascending(front)) by {
            assert forall|i: int, j: int| 0 <= i < j < front.len() implies (
            #[trigger] front[i]).key() < (#[trigger] front[j]).key() by {
                assert(ids[i].key() < ids[j].key());
            }
        }
        lemma_connectable_order(a, front);
        let all = a.connectable_of(ids);
        let rest = a.connectable_of(front);
        assert forall|i: int, j: int| 0 <= i < j < all.len() implies (#[trigger] all[i]).key() < (
        #[trigger] all[j]).key() by {
            if j < rest.len() {
                assert(rest[i].key() < rest[j].key());
            } else {
                lemma_connectable_filter(a, front, all[i]);
                assert(rest[i] == all[i]);
                let k = front.index_of(all[i]);
                assert(ids[k].key() < ids[ids.len() - 1].key());
            }
        }
    }
}

/// While audio should run, a reconcile hands down exactly the receivers that
/// can be streamed to: each of them with its newest service record, nobody
/// else, once each, in the order of their identities.
pub proof fn law_a_running_reconcile_hands_down_every_receiver_that_can_stream(
    a: ActorView,
    cause: ReconcileCause,
    id: ReceiverId,
)
    requires
        a.session_open,
        !a.suspended,
        a.snapshot.run_intent == RunIntent::Running,
        a.snapshot.desired_members.finite(),
    ensures
        ({
            let after = a.reconciled(cause);
            &&& after.effects.last() matches EffectView::Session(
                SessionRequestView::Reconcile { desired, .. },
            ) && {
                &&& can_stream(a, id) ==> desired.contains(a.inventory[id].device->0)
                &&& forall|i: int|
                    0 <= i < desired.len() ==> exists|handed: ReceiverId|
                        can_stream(a, handed) && #[trigger] desired[i]
                            == #[trigger] a.inventory[handed].device->0
                &&& (forall|known: ReceiverId| #[trigger]
                    a.inventory.contains_key(known) && a.inventory[known].device is Some
                        ==> a.inventory[known].device->0.id == known) ==> forall|i: int, j: int|
                    0 <= i < j < desired.len() ==> (#[trigger] desired[i]).id.key() < (
                    #[trigger] desired[j]).id.key()
            }
            &&& after.pending_desired.contains(id) <==> can_stream(a, id)
        }),
{
    reveal(ActorView::reconciled);
    crate::restart_laws::lemma_remembering_only_asks(a.generation_minted(cause));
    let ids = ascending_list(a.snapshot.desired_members);
    law_finite_sets_are_listed(a.snapshot.desired_members);
    let wanted = a.wanted_now();
    assert forall|x: ReceiverId| #[trigger] wanted.contains(x) <==> can_stream(a, x) by {
        lemma_connectable_filter(a, ids, x);
        assert(ids.to_set().contains(x) <==> ids.contains(x));
    }
    lemma_connectable_order(a, ids);
    let desired = a.records_of(wanted);
    if can_stream(a, id) {
        assert(wanted.contains(id));
        let k = wanted.index_of(id);
        assert(desired[k] == a.inventory[id].device->0);
    }
    assert forall|i: int| 0 <= i < desired.len() implies exists|handed: ReceiverId|
        can_stream(a, handed) && #[trigger] desired[i] == #[trigger] a.inventory[handed].device->0 by {
        assert(wanted.contains(wanted[i]));
        assert(desired[i] == a.inventory[wanted[i]].device->0);
    }
    assert(wanted.to_set().contains(id) <==> wanted.contains(id));
    if forall|known: ReceiverId| #[trigger]
        a.inventory.contains_key(known) && a.inventory[known].device is Some
            ==> a.inventory[known].device->0.id == known {
        assert forall|i: int, j: int| 0 <= i < j < desired.len() implies (
        #[trigger] desired[i]).id.key() < (#[trigger] desired[j]).id.key() by {
            assert(wanted.contains(wanted[i]) && wanted.contains(wanted[j]));
        }
    }
}

/// A receiver plays at the stored master volume times its own stored level,
/// at full scale where no level is stored, and is silent exactly while the
/// backend is muted.
pub proof fn law_every_receiver_plays_at_master_times_its_own_level(a: ActorView, id: ReceiverId)
    ensures
        a.gain_of(id) is Silent <==> a.persisted.muted,
        a.gain_of(id) matches Gain::Product { master, level } ==> {
            &&& master == a.persisted.master_volume
            &&& a.persisted.receiver_levels.contains_key(id) ==> level
                == a.persisted.receiver_levels[id]
            &&& !a.persisted.receiver_levels.contains_key(id) ==> level.bits() == 0x3F80_0000
        },
{
    crate::volume::law_full_scale_is_one();
}

/// Each of a list of receivers with its gain.
pub open spec fn gains_of(a: ActorView, ids: Seq<ReceiverId>) -> Seq<(ReceiverId, Gain)> {
    Seq::new(ids.len(), |i: int| (ids[i], a.gain_of(ids[i])))
}

/// A volume request for each of a list of receivers.
pub open spec fn volume_requests(a: ActorView, ids: Seq<ReceiverId>) -> Seq<SessionRequestView> {
    Seq::new(
        ids.len(),
        |i: int| SessionRequestView::SetVolume { receiver: ids[i], gain: a.gain_of(ids[i]) },
    )
}

pub(crate) proof fn lemma_forwarded_volumes(a: ActorView, ids: Seq<ReceiverId>)
    ensures
        asked(a.volumes_forwarded(ids)) == (Requests {
            session: asked(a).session + volume_requests(a, ids),
            ..asked(a)
        }),
        a.volumes_forwarded(ids) == (ActorView { effects: a.volumes_forwarded(ids).effects, ..a }),
    decreases ids.len(),
{
    if ids.len() > 0 {
        lemma_forwarded_volumes(a, ids.drop_last());
        assert(volume_requests(a, ids) =~= volume_requests(a, ids.drop_last()).push(
            SessionRequestView::SetVolume { receiver: ids.last(), gain: a.gain_of(ids.last()) },
        ));
        assert(asked(a.volumes_forwarded(ids)).session =~= asked(a).session + volume_requests(
            a,
            ids,
        ));
    } else {
        assert(asked(a).session + volume_requests(a, ids) =~= asked(a).session);
    }
}

pub(crate) proof fn lemma_seeded_volumes(a: ActorView, ids: Seq<ReceiverId>)
    ensures
        asked(a.volumes_remembered(ids)) == (Requests {
            seeded: asked(a).seeded + gains_of(a, ids),
            ..asked(a)
        }),
    decreases ids.len(),
{
    if ids.len() > 0 {
        lemma_seeded_volumes(a, ids.drop_last());
        assert(gains_of(a, ids) =~= gains_of(a, ids.drop_last()).push(
            (ids.last(), a.gain_of(ids.last())),
        ));
        assert(asked(a.volumes_remembered(ids)).seeded =~= asked(a).seeded + gains_of(a, ids));
    } else {
        assert(asked(a).seeded + gains_of(a, ids) =~= asked(a).seeded);
    }
}

/// Forwarding volumes asks the running stream for every active receiver's
/// volume, once each, and for nothing else; with no session supervisor left
/// nothing is asked.
pub proof fn law_forwarding_sets_every_active_receivers_volume(a: ActorView)
    ensures
        a.session_open ==> asked(a.forwarding()) == (Requests {
            session: asked(a).session + volume_requests(a, ascending_list(a.active)),
            ..asked(a)
        }),
        !a.session_open ==> a.forwarding() == a,
        a.active.finite() ==> ascending_list(a.active).to_set() == a.active,
        a.active.finite() ==> ascending(ascending_list(a.active)),
{
    lemma_forwarded_volumes(a, ascending_list(a.active));
    if a.active.finite() {
        law_finite_sets_are_listed(a.active);
    }
}

/// Seeding volumes stores every desired receiver's setup volume, once each,
/// and asks for nothing else.
pub proof fn law_seeding_stores_every_desired_receivers_volume(a: ActorView)
    ensures
        a.session_open ==> asked(a.remembering()) == (Requests {
            seeded: asked(a).seeded + gains_of(a, ascending_list(a.snapshot.desired_members)),
            ..asked(a)
        }),
        !a.session_open ==> a.remembering() == a,
        a.snapshot.desired_members.finite() ==> ascending_list(
            a.snapshot.desired_members,
        ).to_set() == a.snapshot.desired_members,
{
    lemma_seeded_volumes(a, ascending_list(a.snapshot.desired_members));
    if a.snapshot.desired_members.finite() {
        law_finite_sets_are_listed(a.snapshot.desired_members);
    }
}

/// A reconcile happens exactly while the session supervisor takes requests,
/// the machine is awake, and there is something to build or to take down. It
/// then seeds every desired receiver's volume and makes one request, under the
/// next generation, with the timing, the calibration, and the still desired
/// primary; a stopped app hands down nobody and asks for the teardown alone.
pub proof fn law_a_reconcile_makes_exactly_one_request(a: ActorView, cause: ReconcileCause)
    ensures
        ({
            let after = a.reconciled(cause);
            let nothing_to_do = a.snapshot.run_intent == RunIntent::Stopped && a.active
                == Set::<ReceiverId>::empty() && a.pending_desired == Set::<ReceiverId>::empty();
            if !a.session_open || a.suspended || nothing_to_do {
                after == a
            } else {
                &&& asked(after).session.len() == asked(a).session.len() + 1
                &&& asked(after).session.drop_last() == asked(a).session
                &&& asked(after).seeded == asked(a).seeded + gains_of(
                    a,
                    ascending_list(a.snapshot.desired_members),
                )
                &&& asked(after) == (Requests {
                    session: asked(after).session,
                    seeded: asked(after).seeded,
                    ..asked(a)
                })
                &&& asked(after).session.last() matches SessionRequestView::Reconcile {
                    generation,
                    desired,
                    preferred_primary,
                    latency,
                    calibration,
                    teardown_only,
                } && {
                    &&& a.session_generation < u64::MAX ==> generation == a.session_generation + 1
                    &&& generation == after.session_generation
                    &&& after.live_session_generation == Some(generation)
                    &&& calibration == a.calibration
                    &&& latency == (LatencyConfig { sender_buffer_ms: 2_000, render_delay_ms: 200 })
                    &&& teardown_only <==> a.snapshot.run_intent == RunIntent::Stopped
                    &&& teardown_only ==> desired.len() == 0 && after.pending_desired
                        == Set::<ReceiverId>::empty()
                    &&& preferred_primary matches Some(primary) ==> a.primary == Some(primary)
                        && a.snapshot.desired_members.contains(primary)
                    &&& (a.primary matches Some(primary) && a.snapshot.desired_members.contains(
                        primary,
                    )) ==> preferred_primary == a.primary
                    &&& cause == ReconcileCause::CalibrationChanged
                        ==> after.calibration_pending_generation == Some(generation)
                    &&& cause != ReconcileCause::CalibrationChanged
                        ==> after.calibration_pending_generation == a.calibration_pending_generation
                }
                &&& after == (ActorView {
                    session_generation: after.session_generation,
                    live_session_generation: after.live_session_generation,
                    calibration_pending_generation: after.calibration_pending_generation,
                    pending_desired: after.pending_desired,
                    effects: after.effects,
                    ..a
                })
            }
        }),
{
    reveal(ActorView::reconciled);
    let minted = a.generation_minted(cause);
    lemma_seeded_volumes(minted, ascending_list(a.snapshot.desired_members));
    crate::restart_laws::lemma_remembering_only_asks(minted);
    assert(gains_of(minted, ascending_list(a.snapshot.desired_members)) =~= gains_of(
        a,
        ascending_list(a.snapshot.desired_members),
    ));
    let after = a.reconciled(cause);
    if !a.reconcile_gated() {
        assert(asked(after).session.drop_last() =~= asked(a).session);
        assert(a.snapshot.run_intent == RunIntent::Stopped ==> after.pending_desired =~= Set::<
            ReceiverId,
        >::empty());
    }
}

/// What showing rows leaves of the controller.
pub(crate) proof fn lemma_rows_shown_frame(a: ActorView, next: SnapshotView)
    ensures
        ({
            let b = a.showing_rows(next);
            let aligned = a.realigned();
            &&& b.machines == aligned.machines
            &&& b.inventory == aligned.inventory
            &&& b.retry == aligned.retry
            &&& b.persisted == a.persisted
            &&& b.rejoin == a.rejoin
            &&& b.active == a.active
            &&& b.primary == a.primary
            &&& b.pending_desired == a.pending_desired
            &&& b.session_generation == a.session_generation
            &&& b.live_session_generation == a.live_session_generation
            &&& b.suspended == a.suspended
            &&& b.session_open == a.session_open
            &&& b.snapshot.run_intent == next.run_intent
            &&& b.snapshot.desired_members == next.desired_members
            &&& b.snapshot.command_outcomes == next.command_outcomes
            &&& b.snapshot.audio_source == next.audio_source
            &&& b.snapshot.session.phase == next.session.phase
            &&& b.snapshot.session.desired == next.session.desired
            &&& b.snapshot.session.active == next.session.active
            &&& b.snapshot.session.failed == next.session.failed
            &&& b.snapshot.session.primary == next.session.primary
            &&& b.snapshot.session.audio_flow == next.session.audio_flow
            &&& b.snapshot.session.resume_pending == next.session.resume_pending
        }),
{
    reveal(ActorView::showing_rows);
    reveal(ActorView::showing);
    reveal(ActorView::published);
}

/// What one lifecycle operation leaves of the controller.
pub(crate) proof fn lemma_driven_frame(a: ActorView, receiver: ReceiverId, op: OpView)
    ensures
        a.driven(receiver, op) == (ActorView {
            machines: a.machines.insert(
                receiver,
                crate::actor_model::op_applied(a.machine_of(receiver), op),
            ),
            effects: a.driven(receiver, op).effects,
            ..a
        }),
{
    reveal(ActorView::driven);
}

/// Whether the newest request is a rebuild announced just before it with this
/// reason.
pub open spec fn rebuilt_because(b: ActorView, reason: RestartReason) -> bool {
    let n = b.effects.len() as int;
    &&& n >= 2
    &&& b.effects[n - 1] matches EffectView::Session(request) && request is Reconcile
    &&& b.effects[n - 2] matches EffectView::Diagnostic(record) && record.severity == Severity::Info
        && (record.payload matches PayloadView::SessionRestart { reason: said, .. } && said == reason)
}

/// Every rebuild says why it happens, just before it is asked for.
pub proof fn law_a_rebuild_says_why(a: ActorView, cause: ReconcileCause)
    ensures
        a.reconciled(cause) == a || rebuilt_because(a.reconciled(cause), cause.restart_reason()),
{
    reveal(ActorView::reconciled);
}

} // verus!
