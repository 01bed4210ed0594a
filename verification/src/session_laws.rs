//! What the reports of the session supervisor do.

use vstd::prelude::*;

use crate::actor_model::{
    failed_receivers, op_applied, terminally_failed, ActorView, EffectView, Moment, OpView,
    ReconcileCause,
};
use crate::calibration::CalibrationApplyState;
use crate::event::{PayloadView, Severity};
use crate::idmap::{ascending_list, law_finite_sets_are_listed};
use crate::ids::ReceiverId;
use crate::model::{
    AudioFlow, AudioSourceState, LifecycleView, PhaseView, ReceiverRole, RestartReason, RunIntent,
    SessionView, SnapshotView,
};
use crate::recovery::{law_delays_are_bounded, retry_delay};
use crate::requests::{asked, lemma_requested_push, Requests};
use crate::restart_laws::lemma_remembering_only_asks;
use crate::session::{MemberFailure, SessionUpdateView};
use crate::time::Instant;
use crate::transport_laws::{
    law_a_rebuild_says_why, law_a_reconcile_makes_exactly_one_request, lemma_driven_asks_nothing,
    lemma_driven_frame, lemma_forwarded_volumes, lemma_rows_shown_frame,
    lemma_showing_asks_nothing, lemma_showing_rows_asks_nothing, rebuilt_because, volume_requests,
};

verus! {

broadcast use lemma_requested_push;

/// Whether a receiver's machine stands in a failure that ordinary policy may
/// not retry.
pub open spec fn stuck(a: ActorView, id: ReceiverId) -> bool {
    &&& a.machines.contains_key(id)
    &&& a.machines[id].state matches LifecycleView::Failed { retryable, .. } && !retryable
}

/// Whether a receiver's machine waits for a scheduled retry.
pub open spec fn scheduled(a: ActorView, id: ReceiverId) -> bool {
    a.machines.contains_key(id) && a.machines[id].state is RetryWaiting
}

/// Whether a receiver has the same machine, or none, in both.
spec fn same_machine(a: ActorView, b: ActorView, id: ReceiverId) -> bool {
    &&& a.machines.contains_key(id) <==> b.machines.contains_key(id)
    &&& a.machines[id] == b.machines[id]
}

proof fn lemma_driven_moves_one_machine(a: ActorView, receiver: ReceiverId, op: OpView)
    ensures
        a.driven(receiver, op).machines == a.machines.insert(
            receiver,
            op_applied(a.machine_of(receiver), op),
        ),
        a.driven(receiver, op).snapshot == a.snapshot,
        a.driven(receiver, op).pending_desired == a.pending_desired,
{
    reveal(ActorView::driven);
}

proof fn lemma_failure_moves_one_machine(
    a: ActorView,
    receiver: ReceiverId,
    retryable: bool,
    error: Seq<char>,
    at: Moment,
)
    ensures
        ({
            let b = a.receiver_failed(receiver, retryable, error, at);
            &&& b.snapshot == a.snapshot
            &&& b.pending_desired == a.pending_desired
            &&& retryable ==> scheduled(b, receiver)
            &&& !retryable ==> stuck(b, receiver)
            &&& forall|id: ReceiverId| id != receiver ==> #[trigger] same_machine(a, b, id)
        }),
{
    reveal(ActorView::receiver_failed);
    lemma_driven_moves_one_machine(a, receiver, OpView::Fail { retryable, error });
    let failed = a.driven(receiver, OpView::Fail { retryable, error });
    assert forall|noted: ActorView, op: OpView|
        noted.machines == failed.machines && noted.snapshot == failed.snapshot
            && noted.pending_desired == failed.pending_desired implies (
    #[trigger] noted.driven(receiver, op)).machines == failed.machines.insert(
        receiver,
        op_applied(failed.machines[receiver], op),
    ) && noted.driven(receiver, op).snapshot == a.snapshot && noted.driven(
        receiver,
        op,
    ).pending_desired == a.pending_desired by {
        lemma_driven_moves_one_machine(noted, receiver, op);
    }
}

proof fn lemma_failures_are_told_apart(a: ActorView, failures: Seq<MemberFailure>, at: Moment)
    ensures
        ({
            let b = a.members_failed(failures, at);
            &&& b.snapshot == a.snapshot
            &&& b.pending_desired == a.pending_desired
            &&& forall|id: ReceiverId| #[trigger]
                failed_receivers(failures).contains(id) ==> if terminally_failed(
                    failures,
                ).contains(id) {
                    stuck(b, id)
                } else {
                    scheduled(b, id)
                }
            &&& forall|id: ReceiverId| #[trigger]
                terminally_failed(failures).contains(id) ==> failed_receivers(failures).contains(id)
            &&& forall|id: ReceiverId|
                !failed_receivers(failures).contains(id) ==> #[trigger] same_machine(a, b, id)
        }),
    decreases failures.len(),
{
    if failures.len() > 0 {
        let front = failures.drop_last();
        let last = failures.last();
        let rest = a.members_failed(front, at);
        lemma_failures_are_told_apart(a, front, at);
        let error = crate::session::setup_failure_text(last);
        lemma_failure_moves_one_machine(rest, last.receiver, last.retryable, error, at);
        let b = rest.receiver_failed(last.receiver, last.retryable, error, at);
        assert forall|id: ReceiverId| #[trigger] failed_receivers(failures).contains(id) implies if terminally_failed(
            failures,
        ).contains(id) {
            stuck(b, id)
        } else {
            scheduled(b, id)
        } by {
            if id != last.receiver {
                let i = choose|i: int|
                    0 <= i < failures.len() && (#[trigger] failures[i]).receiver == id;
                assert(front[i].receiver == id);
                assert(failed_receivers(front).contains(id));
                assert(same_machine(rest, b, id));
            }
        }
        assert forall|id: ReceiverId| !failed_receivers(failures).contains(id) implies #[trigger] same_machine(
            a,
            b,
            id,
        ) by {
            if failed_receivers(front).contains(id) {
                let i = choose|i: int| 0 <= i < front.len() && (#[trigger] front[i]).receiver == id;
                assert(failures[i].receiver == id);
            }
            assert(failures[failures.len() - 1].receiver == last.receiver);
            assert(same_machine(a, rest, id));
            assert(same_machine(rest, b, id));
        }
        assert forall|id: ReceiverId| #[trigger]
            terminally_failed(failures).contains(id) implies failed_receivers(failures).contains(
            id,
        ) by {
            if id == last.receiver {
                assert(failures[failures.len() - 1].receiver == id);
            } else {
                assert(terminally_failed(front).contains(id));
                assert(failed_receivers(front).contains(id));
                let i = choose|i: int| 0 <= i < front.len() && (#[trigger] front[i]).receiver == id;
                assert(failures[i].receiver == id);
            }
        }
    }
}

proof fn lemma_missing_leave_the_others(a: ActorView, missing: Seq<ReceiverId>, at: Moment)
    ensures
        a.missing_failed(missing, at).snapshot == a.snapshot,
        forall|id: ReceiverId| #[trigger]
            missing.contains(id) ==> scheduled(a.missing_failed(missing, at), id),
        forall|id: ReceiverId| !missing.contains(id) ==> #[trigger] same_machine(
            a,
            a.missing_failed(missing, at),
            id,
        ),
    decreases missing.len(),
{
    if missing.len() > 0 {
        let front = missing.drop_last();
        let rest = a.missing_failed(front, at);
        lemma_missing_leave_the_others(a, front, at);
        let error = "the receiver did not join the group"@;
        lemma_failure_moves_one_machine(rest, missing.last(), true, error, at);
        let b = rest.receiver_failed(missing.last(), true, error, at);
        assert forall|id: ReceiverId| #[trigger] missing.contains(id) implies scheduled(b, id) by {
            if id != missing.last() {
                let i = missing.index_of(id);
                assert(front[i] == id);
                assert(front.contains(id));
                assert(same_machine(rest, b, id));
            }
        }
        assert forall|id: ReceiverId| !missing.contains(id) implies #[trigger] same_machine(
            a,
            b,
            id,
        ) by {
            assert(missing[missing.len() - 1] == missing.last());
            if front.contains(id) {
                let i = choose|i: int| 0 <= i < front.len() && front[i] == id;
                assert(missing[i] == id);
            }
            assert(same_machine(a, rest, id));
            assert(same_machine(rest, b, id));
        }
    }
}

/// Rows shown of desired receivers follow their machines.
proof fn lemma_shown_rows_follow_the_machines(a: ActorView, next: SnapshotView)
    ensures
        a.showing_rows(next).snapshot.session.failed == next.session.failed,
        a.showing_rows(next).snapshot.desired_members == next.desired_members,
        forall|id: ReceiverId|
            a.snapshot.desired_members.contains(id) && a.machines.contains_key(id) ==> #[trigger]
                same_machine(a, a.showing_rows(next), id),
        forall|id: ReceiverId|
            #![trigger a.showing_rows(next).snapshot.session.retry_waiting.contains(id)]
            a.showing_rows(next).snapshot.session.retry_waiting.contains(id) <==> scheduled(
                a.showing_rows(next),
                id,
            ),
{
    reveal(ActorView::showing_rows);
    reveal(ActorView::showing);
    reveal(ActorView::published);
}

/// The session lists as failed exactly the desired receivers whose latest
/// attempt failed terminally. Such a receiver waits for no retry, and a
/// desired one that may be retried waits for its retry and is not listed.
pub proof fn law_only_terminal_failures_are_listed_as_failed(
    a: ActorView,
    generation: u64,
    primary: ReceiverId,
    members: Set<ReceiverId>,
    failures: Seq<MemberFailure>,
    at: Moment,
    id: ReceiverId,
)
    requires
        a.pending_desired.finite(),
        a.snapshot.desired_members.contains(id),
        failed_receivers(failures).contains(id),
    ensures
        ({
            let live = a.session_active(generation, primary, members, failures, at);
            let session = live.snapshot.session;
            &&& session.failed.contains(id) <==> terminally_failed(failures).contains(id)
            &&& session.failed.contains(id) <==> stuck(live, id)
            &&& session.retry_waiting.contains(id) <==> !session.failed.contains(id)
            &&& live.snapshot.desired_members == a.snapshot.desired_members
            &&& session.failed.subset_of(live.snapshot.desired_members)
        }),
{
    reveal(ActorView::session_active);
    crate::controller_laws::lemma_session_joined_keeps(a, generation, primary, members, failures, at);
    let live = ActorView { primary: Some(primary), active: members, ..a }.forwarding()
        .calibration_settled(generation);
    let ids = ascending_list(members);
    let streaming = live.members_streaming(primary, members, ids).healthy_noted(at.now, ids);
    let accounted = streaming.members_failed(failures, at);
    lemma_failures_are_told_apart(streaming, failures, at);
    let missing = accounted.unaccounted(failed_receivers(failures));
    lemma_joining_keeps_the_request(a, generation, primary, members, at);
    assert(missing.subset_of(a.pending_desired));
    vstd::set_lib::lemma_set_subset_finite(a.pending_desired, missing);
    law_finite_sets_are_listed(missing);
    assert(ascending_list(missing).to_set().contains(id) <==> missing.contains(id));
    lemma_missing_leave_the_others(accounted, ascending_list(missing), at);
    let settled = a.session_joined(generation, primary, members, failures, at);
    assert(same_machine(accounted, settled, id));
    assert forall|next: SnapshotView|
        next.desired_members == settled.snapshot.desired_members implies (#[trigger] settled.showing_rows(
        next,
    )).snapshot.session.failed == next.session.failed && settled.showing_rows(
        next,
    ).snapshot.desired_members == next.desired_members && same_machine(
        settled,
        settled.showing_rows(next),
        id,
    ) && (settled.showing_rows(next).snapshot.session.retry_waiting.contains(id) <==> scheduled(
        settled.showing_rows(next),
        id,
    )) by {
        lemma_shown_rows_follow_the_machines(settled, next);
        assert(same_machine(settled, settled.showing_rows(next), id));
    }
}

proof fn lemma_joining_keeps_the_request(
    a: ActorView,
    generation: u64,
    primary: ReceiverId,
    members: Set<ReceiverId>,
    at: Moment,
)
    ensures
        ({
            let live = ActorView { primary: Some(primary), active: members, ..a }.forwarding()
                .calibration_settled(generation);
            let ids = ascending_list(members);
            let streaming = live.members_streaming(primary, members, ids).healthy_noted(
                at.now,
                ids,
            );
            streaming.pending_desired == a.pending_desired && streaming.active == members
        }),
{
    let joined = ActorView { primary: Some(primary), active: members, ..a };
    lemma_forwarding_keeps_the_request(joined, ascending_list(joined.active));
    let live = joined.forwarding().calibration_settled(generation);
    let ids = ascending_list(members);
    lemma_streaming_keeps_the_request(live, primary, members, at, ids);
    lemma_streaming_keeps_the_request(
        live.members_streaming(primary, members, ids),
        primary,
        members,
        at,
        ids,
    );
}

proof fn lemma_forwarding_keeps_the_request(a: ActorView, ids: Seq<ReceiverId>)
    ensures
        a.volumes_forwarded(ids).pending_desired == a.pending_desired,
        a.volumes_forwarded(ids).active == a.active,
    decreases ids.len(),
{
    if ids.len() > 0 {
        lemma_forwarding_keeps_the_request(a, ids.drop_last());
    }
}

proof fn lemma_streaming_keeps_the_request(
    a: ActorView,
    primary: ReceiverId,
    members: Set<ReceiverId>,
    at: Moment,
    ids: Seq<ReceiverId>,
)
    ensures
        a.members_streaming(primary, members, ids).pending_desired == a.pending_desired,
        a.healthy_noted(at.now, ids).pending_desired == a.pending_desired,
        a.members_streaming(primary, members, ids).active == a.active,
        a.healthy_noted(at.now, ids).active == a.active,
    decreases ids.len(),
{
    if ids.len() > 0 {
        lemma_streaming_keeps_the_request(a, primary, members, at, ids.drop_last());
        reveal(ActorView::driven);
    }
}

/// A lost member may always be retried: it is not listed as failed, and while
/// it is desired it waits for its retry.
pub proof fn law_lost_members_wait_for_their_retry(
    a: ActorView,
    generation: u64,
    receiver: ReceiverId,
    primary: bool,
    error: Seq<char>,
    at: Moment,
)
    ensures
        ({
            let session = a.member_lost(generation, receiver, primary, error, at).snapshot.session;
            &&& session.failed == a.snapshot.session.failed.remove(receiver)
            &&& a.snapshot.desired_members.contains(receiver) ==> session.retry_waiting.contains(
                receiver,
            )
        }),
{
    reveal(ActorView::member_lost);
    reveal(ActorView::member_failure_shown);
    reveal(ActorView::reconciled);
    let removed = a.member_removed(receiver, primary);
    lemma_failure_moves_one_machine(removed, receiver, true, error, at);
    let failed = removed.receiver_failed(receiver, true, error, at);
    let next = failed.session_without(generation, receiver, primary);
    lemma_shown_rows_follow_the_machines(failed, next);
    let shown = failed.showing_rows(next);
    if failed.snapshot.desired_members.contains(receiver) {
        assert(same_machine(failed, shown, receiver));
    }
    lemma_remembering_only_asks(
        shown.restart_noted(at.now).generation_minted(ReconcileCause::PrimaryFailure),
    );
}

proof fn lemma_begun_machines(a: ActorView, generation: u64, ids: Seq<ReceiverId>, id: ReceiverId)
    ensures
        ({
            let b = a.generation_begun(generation, ids);
            &&& b == (ActorView { machines: b.machines, effects: b.effects, ..a })
            &&& asked(b) == asked(a)
            &&& ids.contains(id) ==> {
                &&& b.machines.contains_key(id)
                &&& b.machines[id].state == (LifecycleView::Connecting {
                    attempt: if a.retry.contains_key(id) { a.retry[id].attempt } else { 0 },
                })
                &&& b.machines[id].generation == generation
                &&& b.machines[id].role is None
            }
            &&& !ids.contains(id) ==> same_machine(a, b, id)
        }),
    decreases ids.len(),
{
    if ids.len() > 0 {
        let front = ids.drop_last();
        lemma_begun_machines(a, generation, front, id);
        let rest = a.generation_begun(generation, front);
        let attempt = crate::recovery::entry_of(a.retry, ids.last()).attempt;
        lemma_driven_frame(rest, ids.last(), OpView::Begin { generation, attempt });
        lemma_driven_asks_nothing(rest, ids.last(), OpView::Begin { generation, attempt });
        assert(ids[ids.len() - 1] == ids.last());
        if front.contains(id) {
            let k = front.index_of(id);
            assert(ids[k] == id);
        }
        if ids.contains(id) && id != ids.last() {
            let k = ids.index_of(id);
            assert(front[k] == id);
        }
    }
}

/// When a generation begins its setup, every receiver it was asked to connect
/// is connecting under its number with its own attempt count, nobody else is
/// touched, the session shows the setup with the whole selection and no
/// failures, and nothing more is asked for.
pub proof fn law_a_starting_generation_connects_its_receivers(
    a: ActorView,
    generation: u64,
    id: ReceiverId,
)
    requires
        a.pending_desired.finite(),
        a.snapshot.desired_members.contains(id),
    ensures
        ({
            let b = a.session_starting(generation);
            let newest = if a.session_generation < generation {
                generation
            } else {
                a.session_generation
            };
            &&& a.pending_desired.contains(id) ==> {
                &&& b.machines.contains_key(id)
                &&& b.machines[id].state == (LifecycleView::Connecting {
                    attempt: if a.retry.contains_key(id) { a.retry[id].attempt } else { 0 },
                })
                &&& b.machines[id].generation == generation
            }
            &&& !a.pending_desired.contains(id) && a.machines.contains_key(id)
                ==> b.machines.contains_key(id) && b.machines[id] == a.machines[id]
            &&& b.snapshot.session.phase == (PhaseView::Starting { generation })
            &&& b.snapshot.session.desired == a.snapshot.desired_members
            &&& b.snapshot.session.failed == Set::<ReceiverId>::empty()
            &&& b.snapshot.session.active == a.snapshot.session.active
            &&& b.session_generation == newest
            &&& b.live_session_generation == Some(newest)
            &&& asked(b) == asked(a)
        }),
{
    reveal(ActorView::session_starting);
    reveal(ActorView::generation_adopted);
    let adopted = a.generation_adopted(generation);
    let ids = ascending_list(a.pending_desired);
    law_finite_sets_are_listed(a.pending_desired);
    assert(ids.to_set().contains(id) <==> ids.contains(id));
    lemma_begun_machines(adopted, generation, ids, id);
    let begun = adopted.generation_begun(generation, ids);
    let next = SnapshotView {
        session: SessionView {
            phase: PhaseView::Starting { generation },
            desired: begun.snapshot.desired_members,
            failed: Set::empty(),
            ..begun.snapshot.session
        },
        ..begun.snapshot
    };
    lemma_rows_shown_frame(begun, next);
    lemma_showing_rows_asks_nothing(begun, next);
}

proof fn lemma_streaming_machines(
    a: ActorView,
    primary: ReceiverId,
    members: Set<ReceiverId>,
    ids: Seq<ReceiverId>,
    id: ReceiverId,
)
    ensures
        ({
            let b = a.members_streaming(primary, members, ids);
            &&& b == (ActorView { machines: b.machines, effects: b.effects, ..a })
            &&& asked(b) == asked(a)
            &&& ids.contains(id) ==> b.machines.contains_key(id) && b.machines[id].state == (
            LifecycleView::Streaming {
                role: if members.len() <= 1 {
                    ReceiverRole::Single
                } else if id == primary {
                    ReceiverRole::Primary
                } else {
                    ReceiverRole::Secondary
                },
            })
            &&& !ids.contains(id) ==> same_machine(a, b, id)
        }),
    decreases ids.len(),
{
    if ids.len() > 0 {
        let front = ids.drop_last();
        lemma_streaming_machines(a, primary, members, front, id);
        let rest = a.members_streaming(primary, members, front);
        let op = OpView::Streaming(crate::actor_model::member_role(primary, members, ids.last()));
        lemma_driven_frame(rest, ids.last(), op);
        lemma_driven_asks_nothing(rest, ids.last(), op);
        assert(ids[ids.len() - 1] == ids.last());
        if front.contains(id) {
            let k = front.index_of(id);
            assert(ids[k] == id);
        }
        if ids.contains(id) && id != ids.last() {
            let k = ids.index_of(id);
            assert(front[k] == id);
        }
    }
}

proof fn lemma_healthy_frame(a: ActorView, now: Instant, ids: Seq<ReceiverId>)
    ensures
        a.healthy_noted(now, ids) == (ActorView { retry: a.healthy_noted(now, ids).retry, ..a }),
    decreases ids.len(),
{
    if ids.len() > 0 {
        lemma_healthy_frame(a, now, ids.drop_last());
    }
}

proof fn lemma_failure_asks_nothing(
    a: ActorView,
    receiver: ReceiverId,
    retryable: bool,
    error: Seq<char>,
    at: Moment,
)
    ensures
        asked(a.receiver_failed(receiver, retryable, error, at)) == asked(a),
        a.receiver_failed(receiver, retryable, error, at).active == a.active,
        a.receiver_failed(receiver, retryable, error, at).primary == a.primary,
        a.receiver_failed(receiver, retryable, error, at).session_open == a.session_open,
        a.receiver_failed(receiver, retryable, error, at).suspended == a.suspended,
{
    reveal(ActorView::receiver_failed);
    reveal(ActorView::driven);
}

proof fn lemma_failures_ask_nothing(
    a: ActorView,
    failures: Seq<MemberFailure>,
    missing: Seq<ReceiverId>,
    at: Moment,
)
    ensures
        asked(a.members_failed(failures, at)) == asked(a),
        a.members_failed(failures, at).active == a.active,
        a.members_failed(failures, at).primary == a.primary,
        asked(a.missing_failed(missing, at)) == asked(a),
        a.missing_failed(missing, at).active == a.active,
        a.missing_failed(missing, at).primary == a.primary,
    decreases failures.len() + missing.len(),
{
    if failures.len() > 0 {
        lemma_failures_ask_nothing(a, failures.drop_last(), Seq::empty(), at);
        lemma_failure_asks_nothing(
            a.members_failed(failures.drop_last(), at),
            failures.last().receiver,
            failures.last().retryable,
            crate::session::setup_failure_text(failures.last()),
            at,
        );
    }
    if missing.len() > 0 {
        lemma_failures_ask_nothing(a, Seq::empty(), missing.drop_last(), at);
        lemma_failure_asks_nothing(
            a.missing_failed(missing.drop_last(), at),
            missing.last(),
            true,
            "the receiver did not join the group"@,
            at,
        );
    }
}

/// When a generation goes live, every member that did not also fail streams in
/// its role: alone, as the primary, or as a secondary. A receiver that was
/// asked for and joined neither list waits for a retry. The session shows exactly the members, the
/// primary, the selection, and the phase they amount to, sound flows live only
/// with a capturing source, and each member's volume is set once.
pub proof fn law_a_live_generation_streams_to_its_members(
    a: ActorView,
    generation: u64,
    primary: ReceiverId,
    members: Set<ReceiverId>,
    failures: Seq<MemberFailure>,
    at: Moment,
    id: ReceiverId,
)
    requires
        a.pending_desired.finite(),
        members.finite(),
        a.snapshot.desired_members.contains(id),
        !failed_receivers(failures).contains(id),
    ensures
        ({
            let b = a.session_active(generation, primary, members, failures, at);
            let desired = a.snapshot.desired_members;
            let session = b.snapshot.session;
            &&& members.contains(id) ==> b.machines.contains_key(id) && b.machines[id].state == (
            LifecycleView::Streaming {
                role: if members.len() <= 1 {
                    ReceiverRole::Single
                } else if id == primary {
                    ReceiverRole::Primary
                } else {
                    ReceiverRole::Secondary
                },
            })
            &&& !members.contains(id) && a.pending_desired.contains(id) ==> scheduled(b, id)
                && session.retry_waiting.contains(id)
            &&& !members.contains(id) && !a.pending_desired.contains(id) && a.machines.contains_key(
                id,
            ) ==> b.machines[id] == a.machines[id]
            &&& b.active == members
            &&& b.primary == Some(primary)
            &&& session.active == members
            &&& session.primary == Some(primary)
            &&& session.desired == desired
            &&& session.phase == if a.snapshot.run_intent == RunIntent::Stopped {
                PhaseView::Stopped
            } else if members == desired {
                PhaseView::Streaming { generation }
            } else if members != Set::<ReceiverId>::empty() {
                PhaseView::Degraded { generation }
            } else {
                PhaseView::Starting { generation }
            }
            &&& session.audio_flow == if a.snapshot.audio_source.state
                == AudioSourceState::Capturing {
                AudioFlow::Live
            } else {
                AudioFlow::SilenceBridged
            }
            &&& asked(b) == if a.session_open {
                Requests {
                    session: asked(a).session + volume_requests(a, ascending_list(members)),
                    ..asked(a)
                }
            } else {
                asked(a)
            }
        }),
{
    reveal(ActorView::session_active);
    crate::controller_laws::lemma_session_joined_keeps(a, generation, primary, members, failures, at);
    let joined = ActorView { primary: Some(primary), active: members, ..a };
    lemma_forwarded_volumes(joined, ascending_list(members));
    assert(volume_requests(joined, ascending_list(members)) =~= volume_requests(
        a,
        ascending_list(members),
    ));
    let live = joined.forwarding().calibration_settled(generation);
    assert(asked(live) == asked(joined.forwarding()));
    assert(live.machines == a.machines && live.active == members && live.primary == Some(primary));
    let ids = ascending_list(members);
    law_finite_sets_are_listed(members);
    assert(ids.to_set().contains(id) <==> ids.contains(id));
    lemma_streaming_machines(live, primary, members, ids, id);
    let roles = live.members_streaming(primary, members, ids);
    lemma_healthy_frame(roles, at.now, ids);
    let streaming = roles.healthy_noted(at.now, ids);
    lemma_failures_are_told_apart(streaming, failures, at);
    lemma_failures_ask_nothing(streaming, failures, Seq::empty(), at);
    let accounted = streaming.members_failed(failures, at);
    let missing = accounted.unaccounted(failed_receivers(failures));
    lemma_joining_keeps_the_request(a, generation, primary, members, at);
    assert(missing.subset_of(a.pending_desired));
    vstd::set_lib::lemma_set_subset_finite(a.pending_desired, missing);
    law_finite_sets_are_listed(missing);
    let list = ascending_list(missing);
    assert(list.to_set().contains(id) <==> list.contains(id));
    lemma_missing_leave_the_others(accounted, list, at);
    lemma_failures_ask_nothing(accounted, Seq::empty(), list, at);
    let settled = a.session_joined(generation, primary, members, failures, at);
    assert(same_machine(streaming, accounted, id));
    assert(!missing.contains(id) ==> same_machine(accounted, settled, id));
    let next = SnapshotView {
        session: SessionView {
            phase: crate::actor_model::derived_phase(
                settled.snapshot.desired_members,
                members,
                settled.snapshot.run_intent,
                generation,
            ),
            desired: settled.snapshot.desired_members,
            active: members,
            failed: terminally_failed(failures).intersect(settled.snapshot.desired_members),
            primary: Some(primary),
            audio_flow: if settled.snapshot.audio_source.state == AudioSourceState::Capturing {
                AudioFlow::Live
            } else {
                AudioFlow::SilenceBridged
            },
            ..settled.snapshot.session
        },
        ..settled.snapshot
    };
    lemma_rows_shown_frame(settled, next);
    lemma_showing_rows_asks_nothing(settled, next);
    lemma_shown_rows_follow_the_machines(settled, next);
    let b = settled.showing_rows(next);
    if settled.machines.contains_key(id) {
        assert(same_machine(settled, b, id));
    }
}

/// When the live generation ends, nobody is active, no primary is held, no
/// generation is live, silence is bridged, and every desired receiver that a
/// session held is discovered or unavailable again as discovery last said;
/// whoever waits or failed is left alone. Nothing is asked for.
pub proof fn law_a_stopped_session_releases_its_receivers(a: ActorView, id: ReceiverId)
    requires
        a.snapshot.desired_members.contains(id),
        a.machines.contains_key(id),
    ensures
        ({
            let b = a.session_stopped();
            let before = a.machines[id];
            let held = before.state is Connecting || before.state is SettingUp
                || before.state is Ready || before.state is Streaming;
            &&& b.active == Set::<ReceiverId>::empty()
            &&& b.primary is None
            &&& b.live_session_generation is None
            &&& b.session_generation == a.session_generation
            &&& b.snapshot.session.phase == PhaseView::Stopped
            &&& b.snapshot.session.active == Set::<ReceiverId>::empty()
            &&& b.snapshot.session.primary is None
            &&& b.snapshot.session.audio_flow == AudioFlow::SilenceBridged
            &&& b.snapshot.run_intent == a.snapshot.run_intent
            &&& b.machines.contains_key(id)
            &&& held && before.service_available ==> b.machines[id].state is Discovered
            &&& held && !before.service_available ==> b.machines[id].state is Unavailable
            &&& held ==> b.machines[id].role is None
            &&& !held ==> b.machines[id] == before
            &&& asked(b) == asked(a)
        }),
{
    reveal(ActorView::session_stopped);
    reveal(ActorView::session_left);
    let ended = ActorView { live_session_generation: None, ..a }.sharing_generations();
    let left = ActorView { active: Set::empty(), primary: None, ..ended }.session_left();
    let next = SnapshotView {
        session: SessionView {
            phase: PhaseView::Stopped,
            active: Set::empty(),
            primary: None,
            audio_flow: AudioFlow::SilenceBridged,
            ..left.snapshot.session
        },
        ..left.snapshot
    };
    lemma_rows_shown_frame(left, next);
    lemma_showing_rows_asks_nothing(left, next);
}

/// While a generation is replaced the session says so with its reason, the
/// counters never fall behind, and nothing else changes.
pub proof fn law_a_recovering_session_says_why(a: ActorView, generation: u64, reason: RestartReason)
    ensures
        ({
            let b = a.session_recovering(generation, reason);
            let newest = if a.session_generation < generation {
                generation
            } else {
                a.session_generation
            };
            &&& b.snapshot.session.phase == (PhaseView::Restarting { generation, reason })
            &&& b.snapshot.session.active == a.snapshot.session.active
            &&& b.session_generation == newest
            &&& b.live_session_generation == Some(newest)
            &&& b.machines == a.machines
            &&& b.active == a.active
            &&& asked(b) == asked(a)
        }),
{
    reveal(ActorView::session_recovering);
    reveal(ActorView::generation_adopted);
    let adopted = a.generation_adopted(generation);
    let next = SnapshotView {
        session: SessionView {
            phase: PhaseView::Restarting { generation, reason },
            ..adopted.snapshot.session
        },
        ..adopted.snapshot
    };
    lemma_showing_asks_nothing(adopted, next);
    reveal(ActorView::showing);
    reveal(ActorView::published);
}

/// A failed control request is only told of, and only while its generation
/// still stands: one warning about that receiver with the reported text.
pub proof fn law_a_failed_control_request_is_only_told(
    a: ActorView,
    generation: u64,
    receiver: ReceiverId,
    error: Seq<char>,
    at: Moment,
)
    ensures
        ({
            let b = a.session_updated(
                SessionUpdateView::MemberControlFailed { generation, receiver, error },
                at,
            );
            &&& generation < a.session_generation ==> b == a
            &&& generation >= a.session_generation ==> {
                &&& b == (ActorView { effects: b.effects, ..a })
                &&& b.effects.len() == a.effects.len() + 1
                &&& b.effects.last() matches EffectView::Diagnostic(record) && {
                    &&& record.receiver == Some(receiver)
                    &&& record.severity == Severity::Warning
                    &&& record.payload == PayloadView::Message(error)
                }
            }
        }),
{
}

/// A lost member is no longer active, the session shows the rest and the phase
/// they amount to, and only the loss of the primary asks for anything: one
/// rebuild.
pub proof fn law_a_lost_member_leaves_the_session(
    a: ActorView,
    generation: u64,
    receiver: ReceiverId,
    primary: bool,
    error: Seq<char>,
    at: Moment,
)
    ensures
        ({
            let b = a.member_lost(generation, receiver, primary, error, at);
            let rest = a.active.remove(receiver);
            let desired = a.snapshot.desired_members;
            let nothing_to_do = a.snapshot.run_intent == RunIntent::Stopped && rest == Set::<
                ReceiverId,
            >::empty() && a.pending_desired == Set::<ReceiverId>::empty();
            let rebuilds = primary && a.session_open && !a.suspended && !nothing_to_do;
            &&& b.active == rest
            &&& b.snapshot.session.active == rest
            &&& primary ==> b.snapshot.session.primary is None
            &&& !primary ==> b.snapshot.session.primary == a.snapshot.session.primary
            &&& b.primary == if primary && a.primary == Some(receiver) { None } else { a.primary }
            &&& b.snapshot.session.phase == if a.snapshot.run_intent == RunIntent::Stopped {
                PhaseView::Stopped
            } else if desired != Set::<ReceiverId>::empty() && rest == desired {
                PhaseView::Streaming { generation }
            } else if rest != Set::<ReceiverId>::empty() {
                PhaseView::Degraded { generation }
            } else {
                PhaseView::Starting { generation }
            }
            &&& !rebuilds ==> asked(b) == asked(a)
            &&& rebuilds ==> asked(b).session.len() == asked(a).session.len() + 1 && asked(
                b,
            ).session.drop_last() == asked(a).session && asked(b).session.last() is Reconcile
                && rebuilt_because(b, RestartReason::PrimaryReplaced)
            &&& asked(b).capture == asked(a).capture
            &&& asked(b).discovery == asked(a).discovery
            &&& primary ==> b.rejoin.last_rejoin_restart == Some(at.now)
        }),
{
    reveal(ActorView::member_lost);
    reveal(ActorView::member_failure_shown);
    let removed = a.member_removed(receiver, primary);
    lemma_failure_moves_one_machine(removed, receiver, true, error, at);
    lemma_failure_asks_nothing(removed, receiver, true, error, at);
    let failed = removed.receiver_failed(receiver, true, error, at);
    let next = failed.session_without(generation, receiver, primary);
    lemma_rows_shown_frame(failed, next);
    lemma_showing_rows_asks_nothing(failed, next);
    let shown = failed.showing_rows(next).restart_noted(at.now);
    law_a_reconcile_makes_exactly_one_request(shown, ReconcileCause::PrimaryFailure);
    law_a_rebuild_says_why(shown, ReconcileCause::PrimaryFailure);
}

/// A retryable failure counts one attempt, or starts counting anew after a
/// healthy minute, schedules the receiver at the delay of its attempt, and
/// shows and records that deadline on the wall clock; a terminal one schedules
/// nothing.
pub proof fn law_a_failed_receiver_is_scheduled_by_its_attempt(
    a: ActorView,
    receiver: ReceiverId,
    retryable: bool,
    error: Seq<char>,
    at: Moment,
)
    requires
        a.retry.contains_key(receiver) ==> a.retry[receiver].attempt < u32::MAX,
        a.policy.sound(),
    ensures
        ({
            let b = a.receiver_failed(receiver, retryable, error, at);
            let held = a.retry.contains_key(receiver);
            let healthy = held && (a.retry[receiver].streaming_since matches Some(since)
                && at.now.nanos >= since.nanos && at.now.nanos - since.nanos
                >= a.policy.healthy_reset_after.nanos) || held && (
            a.retry[receiver].streaming_since matches Some(since) && at.now.nanos < since.nanos
                && a.policy.healthy_reset_after.nanos == 0);
            let attempt = if held && !healthy { a.retry[receiver].attempt + 1 } else { 1 };
            let delay = retry_delay(a.policy, receiver, (attempt - 1) as u32);
            &&& !retryable ==> b.retry == a.retry
            &&& retryable ==> {
                &&& b.retry.contains_key(receiver)
                &&& b.retry[receiver].attempt == attempt
                &&& b.retry[receiver].streaming_since is None
                &&& b.retry[receiver].next_retry == Some(
                    Instant {
                        nanos: if at.now.nanos + delay > u64::MAX {
                            u64::MAX
                        } else {
                            (at.now.nanos + delay) as u64
                        },
                    },
                )
                &&& b.machines[receiver].state matches LifecycleView::RetryWaiting {
                    attempt: shown,
                    retry_at,
                } && shown == attempt && (at.now.nanos + delay <= u64::MAX && at.wall.nanos + delay
                    <= u64::MAX ==> retry_at.nanos == at.wall.nanos + delay) && (b.effects.last() matches EffectView::Diagnostic(
                    record,
                ) && record.receiver == Some(receiver) && record.payload == (PayloadView::Retry {
                    receiver: Some(receiver),
                    attempt: shown,
                    next_at: retry_at,
                }))
            }
        }),
{
    reveal(ActorView::receiver_failed);
    reveal(ActorView::driven);
    law_delays_are_bounded(
        a.policy,
        receiver,
        if a.retry.contains_key(receiver) { a.retry[receiver].attempt } else { 0 },
    );
    law_delays_are_bounded(a.policy, receiver, 0);
}

/// Whether two controllers keep the same retry history of a receiver.
spec fn same_history(a: ActorView, b: ActorView, id: ReceiverId) -> bool {
    &&& a.retry.contains_key(id) <==> b.retry.contains_key(id)
    &&& a.retry.contains_key(id) ==> a.retry[id] == b.retry[id]
}

proof fn lemma_failure_keeps_other_histories(
    a: ActorView,
    receiver: ReceiverId,
    retryable: bool,
    error: Seq<char>,
    at: Moment,
    id: ReceiverId,
)
    requires
        id != receiver,
    ensures
        same_history(a, a.receiver_failed(receiver, retryable, error, at), id),
{
    reveal(ActorView::receiver_failed);
    reveal(ActorView::driven);
}

proof fn lemma_failures_keep_other_histories(
    a: ActorView,
    failures: Seq<MemberFailure>,
    at: Moment,
    id: ReceiverId,
)
    requires
        !failed_receivers(failures).contains(id),
    ensures
        same_history(a, a.members_failed(failures, at), id),
    decreases failures.len(),
{
    if failures.len() > 0 {
        let front = failures.drop_last();
        let last = failures.last();
        assert(failures[failures.len() - 1] == last);
        assert forall|i: int| 0 <= i < front.len() implies (#[trigger] front[i]).receiver != id by {
            assert(failures[i] == front[i]);
        }
        lemma_failures_keep_other_histories(a, front, at, id);
        lemma_failure_keeps_other_histories(
            a.members_failed(front, at),
            last.receiver,
            last.retryable,
            crate::session::setup_failure_text(last),
            at,
            id,
        );
    }
}

proof fn lemma_missing_keep_other_histories(
    a: ActorView,
    missing: Seq<ReceiverId>,
    at: Moment,
    id: ReceiverId,
)
    requires
        !missing.contains(id),
    ensures
        same_history(a, a.missing_failed(missing, at), id),
    decreases missing.len(),
{
    if missing.len() > 0 {
        let front = missing.drop_last();
        assert(missing[missing.len() - 1] == missing.last());
        assert forall|i: int| 0 <= i < front.len() implies front[i] != id by {
            assert(missing[i] == front[i]);
        }
        lemma_missing_keep_other_histories(a, front, at, id);
        lemma_failure_keeps_other_histories(
            a.missing_failed(front, at),
            missing.last(),
            true,
            "the receiver did not join the group"@,
            at,
            id,
        );
    }
}

proof fn lemma_healthy_window_open(a: ActorView, now: Instant, ids: Seq<ReceiverId>, id: ReceiverId)
    ensures
        ids.contains(id) || (a.retry.contains_key(id) && a.retry[id].streaming_since is Some)
            ==> a.healthy_noted(now, ids).retry.contains_key(id) && a.healthy_noted(
            now,
            ids,
        ).retry[id].streaming_since is Some,
    decreases ids.len(),
{
    if ids.len() > 0 {
        let front = ids.drop_last();
        lemma_healthy_window_open(a, now, front, id);
        if ids.contains(id) && ids.last() != id {
            let k = ids.index_of(id);
            assert(front[k] == id);
        }
    }
}

/// A member that is live and did not fail has a healthy window running, so
/// that its failures can be forgiven.
pub proof fn law_a_live_member_earns_its_healthy_window(
    a: ActorView,
    generation: u64,
    primary: ReceiverId,
    members: Set<ReceiverId>,
    failures: Seq<MemberFailure>,
    at: Moment,
    id: ReceiverId,
)
    requires
        a.pending_desired.finite(),
        members.finite(),
        members.contains(id),
        a.snapshot.desired_members.contains(id),
        !failed_receivers(failures).contains(id),
    ensures
        ({
            let b = a.session_active(generation, primary, members, failures, at);
            b.retry.contains_key(id) && b.retry[id].streaming_since is Some
        }),
{
    reveal(ActorView::session_active);
    crate::controller_laws::lemma_session_joined_keeps(a, generation, primary, members, failures, at);
    let joined = ActorView { primary: Some(primary), active: members, ..a };
    let live = joined.forwarding().calibration_settled(generation);
    let ids = ascending_list(members);
    law_finite_sets_are_listed(members);
    assert(ids.to_set().contains(id));
    let roles = live.members_streaming(primary, members, ids);
    lemma_healthy_window_open(roles, at.now, ids, id);
    let streaming = roles.healthy_noted(at.now, ids);
    lemma_failures_keep_other_histories(streaming, failures, at, id);
    lemma_failures_are_told_apart(streaming, failures, at);
    let accounted = streaming.members_failed(failures, at);
    let missing = accounted.unaccounted(failed_receivers(failures));
    lemma_joining_keeps_the_request(a, generation, primary, members, at);
    assert(missing.subset_of(a.pending_desired));
    vstd::set_lib::lemma_set_subset_finite(a.pending_desired, missing);
    law_finite_sets_are_listed(missing);
    let list = ascending_list(missing);
    lemma_failures_keep_the_members(streaming, failures, at);
    assert(accounted.active == members);
    assert(!missing.contains(id));
    assert(!list.contains(id)) by {
        if list.contains(id) {
            assert(list.to_set().contains(id));
        }
    }
    lemma_missing_keep_other_histories(accounted, list, at, id);
    let settled = a.session_joined(generation, primary, members, failures, at);
    let next = SnapshotView {
        session: SessionView {
            phase: crate::actor_model::derived_phase(
                settled.snapshot.desired_members,
                members,
                settled.snapshot.run_intent,
                generation,
            ),
            desired: settled.snapshot.desired_members,
            active: members,
            failed: terminally_failed(failures).intersect(settled.snapshot.desired_members),
            primary: Some(primary),
            audio_flow: if settled.snapshot.audio_source.state == AudioSourceState::Capturing {
                AudioFlow::Live
            } else {
                AudioFlow::SilenceBridged
            },
            ..settled.snapshot.session
        },
        ..settled.snapshot
    };
    lemma_rows_shown_frame(settled, next);
}

proof fn lemma_failures_keep_the_members(a: ActorView, failures: Seq<MemberFailure>, at: Moment)
    ensures
        a.members_failed(failures, at).active == a.active,
    decreases failures.len(),
{
    if failures.len() > 0 {
        lemma_failures_keep_the_members(a, failures.drop_last(), at);
        reveal(ActorView::receiver_failed);
        reveal(ActorView::driven);
    }
}

/// A waiting calibration is applied by the first live generation that is at
/// least its own, is announced once, and until then keeps waiting.
pub proof fn law_a_calibration_is_applied_by_its_generation(a: ActorView, generation: u64)
    ensures
        ({
            let b = a.calibration_settled(generation);
            let applies = a.calibration_pending_generation matches Some(pending) && pending
                <= generation;
            &&& !applies ==> b == a
            &&& applies ==> {
                &&& b.calibration_pending_generation is None
                &&& b == (ActorView {
                    calibration_pending_generation: None,
                    effects: b.effects,
                    ..a
                })
                &&& b.effects.len() == a.effects.len() + 1
                &&& b.effects.last() matches EffectView::Diagnostic(record) && record.payload == (
                PayloadView::CalibrationState(CalibrationApplyState::Applied)) && record.severity
                    == Severity::Info
            }
        }),
{
}

/// A failed receiver remembers why, whether or not it may be retried, and one
/// that may not shows it.
pub proof fn law_a_failed_receiver_remembers_why(
    a: ActorView,
    receiver: ReceiverId,
    retryable: bool,
    error: Seq<char>,
    at: Moment,
)
    ensures
        ({
            let b = a.receiver_failed(receiver, retryable, error, at);
            &&& b.machines.contains_key(receiver)
            &&& b.machines[receiver].last_error == Some(error)
            &&& !retryable ==> b.machines[receiver].state == (LifecycleView::Failed {
                retryable: false,
                error,
            })
        }),
{
    reveal(ActorView::receiver_failed);
    reveal(ActorView::driven);
}

/// A lost member that is still wanted remembers why it was lost.
pub proof fn law_a_lost_member_remembers_why(
    a: ActorView,
    generation: u64,
    receiver: ReceiverId,
    primary: bool,
    error: Seq<char>,
    at: Moment,
)
    requires
        a.snapshot.desired_members.contains(receiver),
    ensures
        ({
            let b = a.member_lost(generation, receiver, primary, error, at);
            b.machines.contains_key(receiver) && b.machines[receiver].last_error == Some(error)
        }),
{
    reveal(ActorView::member_lost);
    reveal(ActorView::member_failure_shown);
    let removed = a.member_removed(receiver, primary);
    lemma_failure_moves_one_machine(removed, receiver, true, error, at);
    law_a_failed_receiver_remembers_why(removed, receiver, true, error, at);
    let failed = removed.receiver_failed(receiver, true, error, at);
    let next = failed.session_without(generation, receiver, primary);
    lemma_rows_shown_frame(failed, next);
    let shown = failed.showing_rows(next).restart_noted(at.now);
    law_a_reconcile_makes_exactly_one_request(shown, ReconcileCause::PrimaryFailure);
}

} // verus!
