//! Sleep, wake, and network changes: what is asked for and what is kept.

use vstd::prelude::*;

use crate::actor_model::{ActorView, ControllerEventView, Moment, ReconcileCause};
use crate::capture::CaptureControl;
use crate::command::SystemEvent;
use crate::discovery::DiscoveryControl;
use crate::idmap::{ascending_list, law_finite_sets_are_listed};
use crate::ids::ReceiverId;
use crate::model::{AudioFlow, RestartReason, RunIntent, SessionView, SnapshotView};
use crate::requests::{asked, lemma_requested_push, Requests};
use crate::session::SessionRequestView;
use crate::time::Instant;
use crate::transport_laws::{
    law_a_rebuild_says_why, law_a_reconcile_makes_exactly_one_request,
    lemma_backoff_release_asks_nothing, lemma_showing_asks_nothing, rebuilt_because,
};

verus! {

broadcast use lemma_requested_push;

/// Whether two sessions differ in nothing but the flow and the pending resume.
pub open spec fn same_session_but_flow(a: SessionView, b: SessionView) -> bool {
    &&& a.phase == b.phase
    &&& a.desired == b.desired
    &&& a.active == b.active
    &&& a.failed == b.failed
    &&& a.retry_waiting == b.retry_waiting
    &&& a.primary == b.primary
}

/// A suspend asks capture to park and the session to tear down, once each,
/// raises the barrier, arms the watchdog five minutes ahead, shows silence and
/// a pending resume, and keeps what the user wants.
pub proof fn law_a_suspend_parks_capture_and_session(a: ActorView, now: Instant)
    ensures
        ({
            let b = a.suspending(now);
            &&& asked(b) == if a.session_open {
                asked(a).with_capture(CaptureControl::Suspend).with_session(
                    SessionRequestView::Suspend,
                )
            } else {
                asked(a).with_capture(CaptureControl::Suspend)
            }
            &&& b.suspended
            &&& b.resume_at matches Some(deadline) && deadline.nanos == if now.nanos
                + 300_000_000_000 > u64::MAX {
                u64::MAX as int
            } else {
                now.nanos + 300_000_000_000
            }
            &&& b.snapshot.session.resume_pending
            &&& b.snapshot.session.audio_flow == AudioFlow::SilenceBridged
            &&& same_session_but_flow(b.snapshot.session, a.snapshot.session)
            &&& b.snapshot.run_intent == a.snapshot.run_intent
            &&& b.snapshot.desired_members == a.snapshot.desired_members
            &&& b.machines == a.machines
            &&& b.inventory == a.inventory
            &&& b.active == a.active
            &&& b.primary == a.primary
            &&& b.session_generation == a.session_generation
            &&& b.persisted == a.persisted
        }),
{
    reveal(ActorView::suspending);
    let parked = ActorView {
        suspended: true,
        resume_at: Some(
            crate::time::instant_after(now, crate::actor_model::SUSPEND_WATCHDOG_NANOS),
        ),
        ..a
    }.doing(crate::actor_model::EffectView::Capture(CaptureControl::Suspend));
    let requested = if a.session_open {
        parked.doing(crate::actor_model::EffectView::Session(SessionRequestView::Suspend))
    } else {
        parked
    };
    let next = SnapshotView {
        session: SessionView {
            resume_pending: true,
            audio_flow: AudioFlow::SilenceBridged,
            ..requested.snapshot.session
        },
        ..requested.snapshot
    };
    lemma_showing_asks_nothing(requested, next);
    reveal(ActorView::showing);
    reveal(ActorView::published);
}

/// A resume broadcast asks for nothing and lifts nothing: it only replaces the
/// watchdog by the interface settle, two seconds ahead.
pub proof fn law_a_resume_broadcast_only_arms_the_settle(a: ActorView, now: Instant)
    ensures
        ({
            let b = a.resuming(now);
            &&& b == (ActorView { resume_at: b.resume_at, ..a })
            &&& b.resume_at matches Some(deadline) && deadline.nanos == if now.nanos + 2_000_000_000
                > u64::MAX {
                u64::MAX as int
            } else {
                now.nanos + 2_000_000_000
            }
        }),
{
}

pub(crate) proof fn lemma_retries_release(a: ActorView, ids: Seq<ReceiverId>, id: ReceiverId)
    ensures
        ({
            let b = a.all_retried(ids);
            &&& b == (ActorView {
                machines: b.machines,
                retry: b.retry,
                effects: b.effects,
                ..a
            })
            &&& ids.contains(id) ==> {
                &&& b.machines.contains_key(id)
                &&& !(b.machines[id].state is RetryWaiting)
                &&& !(b.machines[id].state is Failed)
                &&& b.machines[id].next_retry is None
                &&& b.retry.contains_key(id) ==> b.retry[id].next_retry is None
                &&& a.machines.contains_key(id) && (a.machines[id].state is RetryWaiting
                    || a.machines[id].state is Failed) ==> b.machines[id].state is Connecting
            }
            &&& !ids.contains(id) ==> {
                &&& a.machines.contains_key(id) <==> b.machines.contains_key(id)
                &&& a.machines[id] == b.machines[id]
                &&& a.retry.contains_key(id) <==> b.retry.contains_key(id)
                &&& a.retry[id] == b.retry[id]
            }
        }),
    decreases ids.len(),
{
    if ids.len() > 0 {
        let front = ids.drop_last();
        lemma_retries_release(a, front, id);
        lemma_retries_release(a, front, ids.last());
        reveal(ActorView::driven);
        assert(ids[ids.len() - 1] == ids.last());
        if front.contains(id) {
            let k = front.index_of(id);
            assert(ids[k] == id);
        }
        if ids.contains(id) && id != ids.last() {
            let k = ids.index_of(id);
            assert(front[k] == id);
        }
    }
}

/// A platform recovery holds nobody back: whoever waited for a retry or stood
/// in a failure is connecting, without a deadline, and nobody else is touched.
pub proof fn law_recovery_releases_every_backoff(a: ActorView, id: ReceiverId)
    requires
        a.machines.dom().finite(),
    ensures
        ({
            let b = a.backoff_released();
            let held = a.machines.contains_key(id) && (a.machines[id].state is RetryWaiting
                || a.machines[id].state is Failed);
            &&& b == (ActorView {
                machines: b.machines,
                retry: b.retry,
                effects: b.effects,
                ..a
            })
            &&& asked(b) == asked(a)
            &&& held ==> {
                &&& b.machines.contains_key(id)
                &&& b.machines[id].state is Connecting
                &&& b.machines[id].next_retry is None
                &&& b.retry.contains_key(id) ==> b.retry[id].next_retry is None
            }
            &&& !held ==> {
                &&& a.machines.contains_key(id) <==> b.machines.contains_key(id)
                &&& a.machines[id] == b.machines[id]
                &&& a.retry.contains_key(id) <==> b.retry.contains_key(id)
                &&& a.retry[id] == b.retry[id]
            }
        }),
{
    reveal(ActorView::backoff_released);
    let held = a.backed_off();
    assert(held.subset_of(a.machines.dom()));
    vstd::set_lib::lemma_set_subset_finite(a.machines.dom(), held);
    law_finite_sets_are_listed(held);
    let ids = ascending_list(held);
    assert(ids.to_set().contains(id) <==> ids.contains(id));
    lemma_retries_release(a, ids, id);
    lemma_backoff_release_asks_nothing(a);
}

/// What a finished resume asks for besides the rebuild.
pub open spec fn resume_requests(before: Requests) -> Requests {
    before.with_discovery(DiscoveryControl::RestartAfterNetworkChange).with_capture(
        CaptureControl::Resume,
    )
}

/// A finished resume undoes the suspend: it lifts the barrier, asks discovery
/// to browse anew and capture to resume, once each, releases every backoff,
/// and shows that no resume is pending. While audio should run it also counts
/// a restart and asks for one rebuild; otherwise it asks for nothing more.
pub proof fn law_a_finished_resume_brings_everything_back(a: ActorView, now: Instant, id: ReceiverId)
    requires
        a.machines.dom().finite(),
    ensures
        ({
            let b = a.resumed(now);
            let rebuilds = a.snapshot.run_intent == RunIntent::Running && a.session_open;
            &&& !b.suspended
            &&& b.resume_at is None
            &&& !b.snapshot.session.resume_pending
            &&& b.snapshot.session.audio_flow == a.snapshot.session.audio_flow
            &&& same_session_but_flow(b.snapshot.session, a.snapshot.session)
            &&& b.snapshot.run_intent == a.snapshot.run_intent
            &&& b.snapshot.desired_members == a.snapshot.desired_members
            &&& a.machines.contains_key(id) <==> b.machines.contains_key(id)
            &&& b.machines.contains_key(id) ==> !(b.machines[id].state is RetryWaiting) && !(
            b.machines[id].state is Failed)
            &&& asked(b).capture == resume_requests(asked(a)).capture
            &&& asked(b).discovery == resume_requests(asked(a)).discovery
            &&& asked(b).scans == asked(a).scans
            &&& asked(b).preferences == asked(a).preferences
            &&& !rebuilds ==> asked(b) == resume_requests(asked(a))
            &&& rebuilds ==> asked(b).session.len() == asked(a).session.len() + 1
                && asked(b).session.last() is Reconcile && asked(b).session.drop_last() == asked(
                a,
            ).session
            &&& rebuilds ==> rebuilt_because(b, RestartReason::SystemResume)
            &&& a.snapshot.run_intent == RunIntent::Running ==> b.rejoin.last_rejoin_restart == Some(
                now,
            )
        }),
{
    reveal(ActorView::resumed);
    reveal(ActorView::awakened);
    reveal(ActorView::resume_announced);
    let opened = ActorView { resume_at: None, suspended: false, ..a }.doing(
        crate::actor_model::EffectView::Discovery(DiscoveryControl::RestartAfterNetworkChange),
    ).doing(crate::actor_model::EffectView::Capture(CaptureControl::Resume));
    law_recovery_releases_every_backoff(opened, id);
    let awake = a.awakened();
    let next = SnapshotView {
        session: SessionView { resume_pending: false, ..awake.snapshot.session },
        ..awake.snapshot
    };
    lemma_showing_asks_nothing(awake, next);
    let shown = awake.resume_announced();
    assert(asked(shown) == resume_requests(asked(a)));
    assert(shown.machines == awake.machines && shown.snapshot.session.resume_pending == false
        && shown.snapshot.run_intent == a.snapshot.run_intent && shown.session_open == a.session_open
        && !shown.suspended && shown.resume_at is None && shown.snapshot.desired_members
        == a.snapshot.desired_members && same_session_but_flow(
        shown.snapshot.session,
        a.snapshot.session,
    ) && shown.snapshot.session.audio_flow == a.snapshot.session.audio_flow) by {
        reveal(ActorView::showing);
        reveal(ActorView::published);
    }
    law_a_reconcile_makes_exactly_one_request(shown.restart_noted(now), ReconcileCause::Resume);
    law_a_rebuild_says_why(shown.restart_noted(now), ReconcileCause::Resume);
}

/// A network change restarts discovery unless the machine sleeps. The group is
/// rebuilt, and every backoff released, only when a local binding moved while
/// audio should run.
pub proof fn law_a_network_change_rebuilds_only_what_moved(
    a: ActorView,
    local_binding_changed: bool,
    now: Instant,
    id: ReceiverId,
)
    requires
        a.machines.dom().finite(),
    ensures
        ({
            let b = a.network_changed(local_binding_changed, now);
            let moved = !a.suspended && local_binding_changed && a.snapshot.run_intent
                == RunIntent::Running;
            let told = asked(a).with_discovery(DiscoveryControl::RestartAfterNetworkChange);
            &&& b.snapshot == a.snapshot
            &&& b.suspended == a.suspended
            &&& b.resume_at == a.resume_at
            &&& a.suspended ==> asked(b) == asked(a)
            &&& !a.suspended && !(moved && a.session_open) ==> asked(b) == told
            &&& moved && a.session_open ==> {
                &&& asked(b).session.len() == asked(a).session.len() + 1
                &&& asked(b).session.last() is Reconcile
                &&& rebuilt_because(b, RestartReason::LocalInterfaceChanged)
                &&& asked(b).discovery == told.discovery
                &&& asked(b).capture == asked(a).capture
            }
            &&& moved ==> b.rejoin.last_rejoin_restart == Some(now)
            &&& moved && b.machines.contains_key(id) ==> !(b.machines[id].state is RetryWaiting)
                && !(b.machines[id].state is Failed)
            &&& !moved ==> b.machines == a.machines && b.rejoin == a.rejoin && b.session_generation
                == a.session_generation
        }),
{
    reveal(ActorView::network_changed);
    let told = a.emitting(
        None,
        crate::event::Severity::Info,
        crate::event::PayloadView::SystemTransition {
            transition: crate::event::SystemTransition::NetworkChanged { local_binding_changed },
        },
    );
    let restarted = told.doing(
        crate::actor_model::EffectView::Discovery(DiscoveryControl::RestartAfterNetworkChange),
    );
    law_recovery_releases_every_backoff(restarted, id);
    law_a_reconcile_makes_exactly_one_request(
        restarted.backoff_released().restart_noted(now),
        ReconcileCause::NetworkRebind,
    );
    law_a_rebuild_says_why(
        restarted.backoff_released().restart_noted(now),
        ReconcileCause::NetworkRebind,
    );
}

/// Platform edges reach their operation: a suspend parks, a resume arms the
/// settle, and the armed deadline, whichever set it, finishes the resume and
/// asks for one endpoint scan.
pub proof fn law_platform_edges_reach_their_operation(a: ActorView, at: Moment, moved: bool)
    ensures
        a.event_handled(
            ControllerEventView::System(SystemEvent::Suspending),
            at,
        ) == a.suspending(at.now).sharing_generations(),
        a.event_handled(
            ControllerEventView::System(SystemEvent::Resumed),
            at,
        ) == a.resuming(at.now).sharing_generations(),
        a.event_handled(
            ControllerEventView::System(
                SystemEvent::NetworkChanged { local_binding_changed: moved },
            ),
            at,
        ) == a.network_changed(moved, at.now).sharing_generations(),
        ({
            let scanning = a.doing(crate::actor_model::EffectView::ScanEndpoints);
            &&& a.event_handled(ControllerEventView::ResumeSettled, at) == scanning.resumed(
                at.now,
            ).sharing_generations()
            &&& asked(scanning) == asked(a).with_scan()
        }),
        asked(a.sharing_generations()) == asked(a),
{
}

} // verus!
