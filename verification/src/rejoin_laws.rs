//! Who rejoins when, what the launch policy does, and what a launch restores.

use vstd::prelude::*;

use crate::actor_model::{launched, ActorView, ReconcileCause};
use crate::idmap::{ascending_list, law_finite_sets_are_listed};
use crate::ids::ReceiverId;
use crate::model::{
    LifecycleView, PersistenceSnapshot, PhaseView, RestartReason, RunIntent, SnapshotView,
};
use crate::persistence::PersistedView;
use crate::recovery::RetryPolicy;
use crate::requests::{asked, lemma_requested_push};
use crate::sleep_laws::lemma_retries_release;
use crate::time::Instant;
use crate::transport_laws::{
    law_a_rebuild_says_why, law_a_reconcile_makes_exactly_one_request,
    lemma_published_asks_nothing, lemma_retries_ask_nothing, lemma_rows_shown_frame,
    lemma_showing_rows_asks_nothing, rebuilt_because,
};

verus! {

broadcast use lemma_requested_push;

/// A nanosecond count later, stopping at the clock's end.
pub open spec fn later_by(nanos: u64, span: int) -> int {
    if nanos + span > u64::MAX { u64::MAX as int } else { nanos + span }
}

/// Whether a receiver may be pulled back in automatically at `now`: it is out
/// of the session and not stuck in a terminal failure, discovery has offered
/// it for two seconds, its own backoff is served, and the last automatic
/// restart is thirty seconds old.
pub open spec fn may_return(a: ActorView, now: Instant, id: ReceiverId) -> bool {
    &&& out_of_session(a, id)
    &&& a.rejoin.online_since.contains_key(id)
    &&& later_by(a.rejoin.online_since[id].nanos, 2_000_000_000) <= now.nanos
    &&& a.retry.contains_key(id) ==> (a.retry[id].next_retry matches Some(deadline)
        ==> deadline.nanos <= now.nanos)
    &&& a.rejoin.last_rejoin_restart matches Some(last) ==> later_by(last.nanos, 30_000_000_000)
        <= now.nanos
}

/// Whether a receiver is idle, waiting for a retry, or in a failure that may
/// be retried.
pub open spec fn out_of_session(a: ActorView, id: ReceiverId) -> bool {
    &&& a.machines.contains_key(id)
    &&& match a.machines[id].state {
        LifecycleView::Discovered => true,
        LifecycleView::RetryWaiting { .. } => true,
        LifecycleView::Failed { retryable, .. } => retryable,
        _ => false,
    }
}

proof fn lemma_due_filter(a: ActorView, now: Instant, ids: Seq<ReceiverId>, id: ReceiverId)
    ensures
        a.due_of(now, ids).contains(id) <==> ids.contains(id) && a.rejoin_due(now, id),
    decreases ids.len(),
{
    if ids.len() > 0 {
        let front = ids.drop_last();
        let rest = a.due_of(now, front);
        let all = a.due_of(now, ids);
        lemma_due_filter(a, now, front, id);
        if front.contains(id) {
            let k = front.index_of(id);
            assert(ids[k] == id);
        }
        if id == ids.last() {
            assert(ids[ids.len() - 1] == id);
        }
        if rest.contains(id) {
            let k = rest.index_of(id);
            assert(all[k] == id);
        }
        if a.rejoin_due(now, ids.last()) {
            assert(all[all.len() - 1] == ids.last());
            if all.contains(id) && id != ids.last() {
                let k = all.index_of(id);
                assert(rest[k] == id);
            }
        }
        if ids.contains(id) && id != ids.last() {
            let k = ids.index_of(id);
            assert(front[k] == id);
        }
    }
}

/// An automatic rejoin is due for exactly the desired receivers that may
/// return, and for nobody while the machine sleeps or audio should not run.
pub proof fn law_exactly_the_receivers_that_may_return_are_due(
    a: ActorView,
    now: Instant,
    id: ReceiverId,
)
    requires
        a.snapshot.desired_members.finite(),
    ensures
        a.due_now(now).contains(id) <==> {
            &&& !a.suspended
            &&& a.snapshot.run_intent == RunIntent::Running
            &&& a.snapshot.desired_members.contains(id)
            &&& may_return(a, now, id)
        },
{
    let ids = ascending_list(a.snapshot.desired_members);
    law_finite_sets_are_listed(a.snapshot.desired_members);
    assert(ids.to_set().contains(id) <==> ids.contains(id));
    lemma_due_filter(a, now, ids, id);
}

/// A receiver becomes eligible at the latest of its three conditions: two
/// seconds on offer, its own deadline, and thirty seconds after the last
/// automatic restart.
pub proof fn law_a_receiver_returns_at_the_latest_of_its_conditions(a: ActorView, id: ReceiverId)
    ensures
        a.rejoin_at(id) is Some <==> out_of_session(a, id) && a.rejoin.online_since.contains_key(id),
        a.rejoin_at(id) matches Some(at) ==> {
            let stable = later_by(a.rejoin.online_since[id].nanos, 2_000_000_000);
            let served = a.retry.contains_key(id) && a.retry[id].next_retry is Some;
            let spaced = a.rejoin.last_rejoin_restart is Some;
            let deadline = a.retry[id].next_retry->0.nanos;
            let allowed = later_by(a.rejoin.last_rejoin_restart->0.nanos, 30_000_000_000);
            &&& at.nanos >= stable
            &&& served ==> at.nanos >= deadline
            &&& spaced ==> at.nanos >= allowed
            &&& at.nanos == stable || (served && at.nanos == deadline) || (spaced && at.nanos
                == allowed)
        },
{
}

/// The rejoin timer sleeps exactly until the first receiver becomes eligible,
/// not at all while one is due, and is off while nobody can become eligible.
pub proof fn law_the_rejoin_timer_wakes_for_the_first_receiver(
    a: ActorView,
    now: Instant,
)
    requires
        a.snapshot.desired_members.finite(),
    ensures
        a.suspended || a.snapshot.run_intent != RunIntent::Running ==> a.retry_delay_at(now) is None,
        a.retry_delay_at(now) matches Some(delay) ==> exists|id: ReceiverId|
            a.snapshot.desired_members.contains(id) && (#[trigger] a.rejoin_at(id) matches Some(at)
                && delay.nanos == (if at.nanos <= now.nanos { 0 } else { at.nanos - now.nanos })),
{
    let ids = ascending_list(a.snapshot.desired_members);
    law_finite_sets_are_listed(a.snapshot.desired_members);
    if !a.rejoin_closed() {
        lemma_next_is_somebodys(a, now, ids);
        let due = a.due_of(now, ids);
        if due.len() > 0 {
            assert(due.contains(due[0]));
            lemma_due_filter(a, now, ids, due[0]);
            assert(ids.to_set().contains(due[0]));
            assert(a.rejoin_at(due[0]) is Some);
        } else if a.next_of(now, ids) is Some {
            let k = choose|k: int|
                0 <= k < ids.len() && a.rejoin_at(#[trigger] ids[k]) == a.next_of(now, ids)
                    && a.rejoin_at(ids[k])->0.nanos > now.nanos;
            assert(ids.to_set().contains(ids[k]));
        }
    }
}

proof fn lemma_next_is_somebodys(a: ActorView, now: Instant, ids: Seq<ReceiverId>)
    ensures
        a.next_of(now, ids) is Some ==> exists|k: int|
            0 <= k < ids.len() && a.rejoin_at(#[trigger] ids[k]) == a.next_of(now, ids)
                && a.rejoin_at(ids[k])->0.nanos > now.nanos,
    decreases ids.len(),
{
    if ids.len() > 0 {
        let front = ids.drop_last();
        lemma_next_is_somebodys(a, now, front);
        if a.next_of(now, ids) == a.next_of(now, front) {
            if a.next_of(now, front) is Some {
                let k = choose|k: int|
                    0 <= k < front.len() && a.rejoin_at(#[trigger] front[k]) == a.next_of(now, front)
                        && a.rejoin_at(front[k])->0.nanos > now.nanos;
                assert(ids[k] == front[k]);
            }
        } else {
            assert(ids[ids.len() - 1] == ids.last());
        }
    }
}

/// When the timer fires, every due receiver is freed of its deadline and, if
/// it was held back, connecting; the restart is counted; and however many are
/// due, one rebuild is asked for. With nobody due nothing happens.
pub proof fn law_due_receivers_return_through_one_rebuild(a: ActorView, now: Instant, id: ReceiverId)
    requires
        a.snapshot.desired_members.finite(),
        a.snapshot.desired_members.contains(id),
        a.machines.contains_key(id),
    ensures
        ({
            let b = a.retries_fired(now);
            let due = a.due_now(now);
            let held = a.machines[id].state is RetryWaiting || a.machines[id].state is Failed;
            &&& due.len() == 0 ==> b == a
            &&& due.len() > 0 ==> {
                &&& b.rejoin.last_rejoin_restart == Some(now)
                &&& b.rejoin.online_since == a.rejoin.online_since
                &&& due.contains(id) ==> {
                    &&& b.machines.contains_key(id)
                    &&& held ==> b.machines[id].state is Connecting
                    &&& b.machines[id].next_retry is None
                    &&& b.retry.contains_key(id) ==> b.retry[id].next_retry is None
                }
                &&& !due.contains(id) ==> b.machines.contains_key(id) && b.machines[id]
                    == a.machines[id]
                &&& a.session_open ==> asked(b).session.len() == asked(a).session.len() + 1
                    && asked(b).session.last() is Reconcile && asked(b).session.drop_last()
                    == asked(a).session && rebuilt_because(b, RestartReason::SecondaryRejoin)
                &&& !a.session_open ==> asked(b) == asked(a)
            }
        }),
{
    reveal(ActorView::retries_fired);
    let due = a.due_now(now);
    if due.len() > 0 {
        lemma_retries_release(a, due, id);
        lemma_retries_ask_nothing(a, due);
        let noted = a.all_retried(due).restart_noted(now);
        lemma_rows_shown_frame(noted, noted.snapshot);
        lemma_showing_rows_asks_nothing(noted, noted.snapshot);
        law_a_reconcile_makes_exactly_one_request(noted.rows_republished(), ReconcileCause::Retry);
        law_a_rebuild_says_why(noted.rows_republished(), ReconcileCause::Retry);
    }
}

/// Whether some desired receiver has been on offer for two seconds.
pub open spec fn somebody_is_stable(a: ActorView, now: Instant) -> bool {
    exists|id: ReceiverId| #[trigger]
        a.snapshot.desired_members.contains(id) && a.rejoin.online_since.contains_key(id)
            && later_by(a.rejoin.online_since[id].nanos, 2_000_000_000) <= now.nanos
}

/// The launch policy starts playback exactly if it is still armed, the machine
/// is awake, its window is open, nothing runs, and a desired receiver has been
/// stable. It then spends itself and asks for one rebuild of the unchanged
/// selection. Past its window, or once something runs, it only spends itself.
pub proof fn law_the_launch_policy_starts_exactly_then(a: ActorView, now: Instant)
    ensures
        ({
            let b = a.auto_connected(now);
            let armed = a.startup_auto_connect_until is Some && !a.suspended;
            let open = armed && now.nanos <= a.startup_auto_connect_until->0.nanos;
            let starts = open && a.snapshot.run_intent == RunIntent::Stopped && somebody_is_stable(
                a,
                now,
            );
            let spent = armed && (!open || a.snapshot.run_intent != RunIntent::Stopped);
            &&& starts ==> {
                &&& b.snapshot.run_intent == RunIntent::Running
                &&& b.startup_auto_connect_until is None
                &&& b.snapshot.desired_members == a.snapshot.desired_members
                &&& b.persisted == a.persisted
                &&& a.session_open ==> asked(b).session.len() == asked(a).session.len() + 1
                    && asked(b).session.last() is Reconcile && rebuilt_because(
                    b,
                    RestartReason::MembershipChange,
                )
                &&& !a.session_open ==> asked(b) == asked(a)
            }
            &&& spent ==> b == (ActorView { startup_auto_connect_until: None, ..a })
            &&& !starts && !spent ==> b == a
        }),
{
    reveal(ActorView::auto_connected);
    assert(a.some_member_ready(now) <==> somebody_is_stable(a, now));
    let meant = ActorView {
        startup_auto_connect_until: None,
        snapshot: SnapshotView { run_intent: RunIntent::Running, ..a.snapshot },
        ..a
    };
    lemma_published_asks_nothing(meant);
    law_a_reconcile_makes_exactly_one_request(meant.published(), ReconcileCause::Membership);
    law_a_rebuild_says_why(meant.published(), ReconcileCause::Membership);
    reveal(ActorView::published);
}

proof fn lemma_first_eligible(a: ActorView, ids: Seq<ReceiverId>)
    ensures
        a.first_eligible(ids) matches Some(first) ==> exists|k: int|
            0 <= k < ids.len() && a.rejoin.online_since.contains_key(#[trigger] ids[k])
                && first.nanos == later_by(a.rejoin.online_since[ids[k]].nanos, 2_000_000_000),
        forall|k: int|
            0 <= k < ids.len() && a.rejoin.online_since.contains_key(#[trigger] ids[k]) ==> (
            a.first_eligible(ids) matches Some(first) && first.nanos <= later_by(
                a.rejoin.online_since[ids[k]].nanos,
                2_000_000_000,
            )),
    decreases ids.len(),
{
    if ids.len() > 0 {
        let front = ids.drop_last();
        lemma_first_eligible(a, front);
        assert(ids[ids.len() - 1] == ids.last());
        assert(forall|k: int| 0 <= k < front.len() ==> front[k] == ids[k]);
        if let Some(first) = a.first_eligible(front) {
            let k = choose|k: int|
                0 <= k < front.len() && a.rejoin.online_since.contains_key(#[trigger] front[k])
                    && first.nanos == later_by(a.rejoin.online_since[front[k]].nanos, 2_000_000_000);
            assert(ids[k] == front[k]);
        }
        assert forall|k: int|
            0 <= k < ids.len() && a.rejoin.online_since.contains_key(#[trigger] ids[k]) implies (
        a.first_eligible(ids) matches Some(first) && first.nanos <= later_by(
            a.rejoin.online_since[ids[k]].nanos,
            2_000_000_000,
        )) by {
            if k < front.len() {
                assert(front[k] == ids[k]);
            }
        }
    }
}

/// The launch timer sleeps until the first desired receiver has been stable,
/// provided that is still inside the window, and is off otherwise.
pub proof fn law_the_launch_timer_waits_for_the_first_stable_receiver(
    a: ActorView,
    now: Instant,
    id: ReceiverId,
)
    requires
        a.snapshot.desired_members.finite(),
    ensures
        a.auto_connect_delay_at(now) matches Some(delay) ==> {
            &&& a.startup_auto_connect_until is Some
            &&& !a.suspended
            &&& now.nanos <= a.startup_auto_connect_until->0.nanos
            &&& exists|first: ReceiverId| #[trigger]
                a.snapshot.desired_members.contains(first) && a.rejoin.online_since.contains_key(
                    first,
                ) && {
                    let at = later_by(a.rejoin.online_since[first].nanos, 2_000_000_000);
                    &&& at <= a.startup_auto_connect_until->0.nanos
                    &&& delay.nanos == (if at <= now.nanos { 0 } else { at - now.nanos })
                }
        },
        ({
            let at = later_by(a.rejoin.online_since[id].nanos, 2_000_000_000);
            a.snapshot.desired_members.contains(id) && a.rejoin.online_since.contains_key(id)
                && !a.suspended && (a.startup_auto_connect_until matches Some(until) && now.nanos
                <= until.nanos && at <= until.nanos) ==> (a.auto_connect_delay_at(now) matches Some(
                delay,
            ) && delay.nanos <= (if at <= now.nanos { 0 } else { at - now.nanos }))
        }),
{
    let ids = ascending_list(a.snapshot.desired_members);
    law_finite_sets_are_listed(a.snapshot.desired_members);
    lemma_first_eligible(a, ids);
    if a.snapshot.desired_members.contains(id) {
        assert(ids.to_set().contains(id));
        let k = ids.index_of(id);
        assert(ids[k] == id);
    }
    if let Some(first) = a.first_eligible(ids) {
        let k = choose|k: int|
            0 <= k < ids.len() && a.rejoin.online_since.contains_key(#[trigger] ids[k])
                && first.nanos == later_by(a.rejoin.online_since[ids[k]].nanos, 2_000_000_000);
        assert(ids.to_set().contains(ids[k]));
        assert(a.snapshot.desired_members.contains(ids[k]));
    }
}

/// A launch restores what was stored, runs nothing, has asked for nothing, and
/// holds every selected receiver, and nobody else, as unavailable.
/// The launch policy is armed for one minute exactly if it was stored.
pub proof fn law_a_launch_restores_and_waits_for_discovery(
    persisted: PersistedView,
    policy: RetryPolicy,
    now: Instant,
    id: ReceiverId,
)
    ensures
        ({
            let a = launched(persisted, policy, now);
            &&& a.persisted == persisted
            &&& a.policy == policy
            &&& a.snapshot.master_volume == persisted.master_volume
            &&& a.snapshot.receiver_levels == persisted.receiver_levels
            &&& a.snapshot.muted == persisted.muted
            &&& a.snapshot.latency_preset == persisted.latency_preset
            &&& a.snapshot.auto_connect == persisted.auto_connect
            &&& a.snapshot.audio_source.preference == persisted.audio_endpoint
            &&& a.snapshot.desired_members == persisted.last_desired_members
            &&& a.snapshot.run_intent == RunIntent::Stopped
            &&& a.snapshot.session.phase == PhaseView::Stopped
            &&& a.snapshot.persistence == PersistenceSnapshot::Idle
            &&& a.snapshot.revision == 0
            &&& a.snapshot.desired_revision == 0
            &&& a.session_generation == 0
            &&& a.live_session_generation is None
            &&& a.active == Set::<ReceiverId>::empty()
            &&& a.pending_desired == Set::<ReceiverId>::empty()
            &&& a.primary is None
            &&& !a.suspended
            &&& a.session_open
            &&& a.effects.len() == 0
            &&& a.calibration.reference is None
            &&& a.rejoin.last_rejoin_restart is None
            &&& a.machines.contains_key(id) <==> persisted.last_desired_members.contains(id)
            &&& a.machines.contains_key(id) ==> a.machines[id].state is Unavailable
                && !a.machines[id].service_available
            &&& a.startup_auto_connect_until == if persisted.auto_connect {
                Some(Instant { nanos: later_by(now.nanos, 60_000_000_000) as u64 })
            } else {
                None
            }
        }),
{
}

proof fn lemma_next_is_the_first(a: ActorView, now: Instant, ids: Seq<ReceiverId>, k: int)
    requires
        0 <= k < ids.len(),
        a.rejoin_at(ids[k]) is Some,
        a.rejoin_at(ids[k])->0.nanos > now.nanos,
    ensures
        a.next_of(now, ids) is Some,
        a.next_of(now, ids)->0.nanos <= a.rejoin_at(ids[k])->0.nanos,
    decreases ids.len(),
{
    let front = ids.drop_last();
    if k < front.len() {
        assert(front[k] == ids[k]);
        lemma_next_is_the_first(a, now, front, k);
    } else {
        assert(ids.last() == ids[k]);
    }
}

/// The rejoin timer never oversleeps: whichever selected receiver may return at
/// some instant, a running and awake controller wakes by then.
pub proof fn law_the_rejoin_timer_never_oversleeps(a: ActorView, now: Instant, id: ReceiverId)
    requires
        a.snapshot.desired_members.finite(),
        a.snapshot.desired_members.contains(id),
        a.snapshot.run_intent == RunIntent::Running,
        !a.suspended,
        a.rejoin_at(id) is Some,
    ensures
        a.retry_delay_at(now) matches Some(delay) && now.nanos + delay.nanos <= (if a.rejoin_at(
            id,
        )->0.nanos <= now.nanos {
            now.nanos
        } else {
            a.rejoin_at(id)->0.nanos
        }),
{
    let ids = ascending_list(a.snapshot.desired_members);
    law_finite_sets_are_listed(a.snapshot.desired_members);
    assert(ids.to_set().contains(id));
    let k = ids.index_of(id);
    assert(ids[k] == id);
    if a.rejoin_at(id)->0.nanos <= now.nanos {
        lemma_due_filter(a, now, ids, id);
        assert(a.due_of(now, ids).contains(id));
    } else {
        lemma_next_is_the_first(a, now, ids, k);
    }
}

} // verus!
