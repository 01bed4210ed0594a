//! Lifecycle machines, the retry ladder, and the spacing of rejoin restarts.

use openaircast_backend::ids::ReceiverId;
use openaircast_backend::machine::{label, permitted, ReceiverMachine};
use openaircast_backend::model::{ReceiverLifecycle, ReceiverRole, SetupPhase, UserFacingError};
use openaircast_backend::recovery::{RejoinRestartLimiter, RetryPolicy, RetryState};
use openaircast_backend::time::{Duration, Instant, SystemTime};

fn wall(offset_secs: u64) -> SystemTime {
    SystemTime::unix_epoch().after(Duration::from_secs(offset_secs))
}

fn at(offset_secs: u64) -> Instant {
    Instant { nanos: 0 }.after(Duration::from_secs(offset_secs))
}

fn receiver(seed: u64) -> ReceiverId {
    ReceiverId::from_u64(seed)
}

#[test]
fn permitted_chain_walks_discovered_to_streaming() {
    let mut machine = ReceiverMachine::new(true);
    assert_eq!(machine.state(), &ReceiverLifecycle::Discovered);
    machine.begin_generation(7, 0).expect("start is permitted");
    assert_eq!(machine.state(), &ReceiverLifecycle::Connecting { attempt: 0 });
    machine
        .enter_setup(ReceiverRole::Primary, SetupPhase::Pair)
        .expect("setup is permitted");
    machine
        .enter_setup(ReceiverRole::Primary, SetupPhase::RtspSetup)
        .expect("phase progression stays inside SettingUp");
    machine
        .enter_streaming(ReceiverRole::Primary)
        .expect("ready and streaming follow");
    assert_eq!(machine.state(), &ReceiverLifecycle::Streaming { role: ReceiverRole::Primary });
    assert_eq!(machine.generation(), 7);
    assert_eq!(machine.role(), Some(ReceiverRole::Primary));
}

#[test]
fn failure_enters_backoff_and_manual_retry_reconnects() {
    let mut machine = ReceiverMachine::new(true);
    machine.begin_generation(1, 0).expect("start");
    machine.enter_streaming(ReceiverRole::Secondary).expect("streaming");
    machine
        .fail(true, UserFacingError::new("probe timed out"))
        .expect("streaming may fail");
    assert!(matches!(machine.state(), ReceiverLifecycle::Failed { retryable: true, .. }));
    assert_eq!(machine.last_error().map(UserFacingError::as_str), Some("probe timed out"));
    machine.wait_retry(1, wall(30)).expect("backoff follows");
    assert_eq!(
        machine.state(),
        &ReceiverLifecycle::RetryWaiting { attempt: 1, retry_at: wall(30) }
    );
    assert_eq!(machine.next_retry(), Some(wall(30)));
    assert!(machine.in_backoff(), "backoff keeps it out of reconciles");

    machine.retry_now().expect("manual retry reconnects");
    assert_eq!(machine.state(), &ReceiverLifecycle::Connecting { attempt: 1 });
    assert_eq!(machine.next_retry(), None, "only the deadline is cleared");
    assert_eq!(machine.attempt(), 1, "attempt history survives");
}

#[test]
fn losing_the_service_reaches_unavailable_outside_a_generation() {
    let idle = ReceiverMachine::new(true);
    let mut waiting = ReceiverMachine::new(true);
    waiting.begin_generation(1, 0).expect("start");
    waiting.fail(true, UserFacingError::new("gone")).expect("failure");
    waiting.wait_retry(1, wall(5)).expect("backoff");
    for mut machine in [idle, waiting] {
        machine
            .set_service_available(false)
            .expect("an unowned receiver may become unavailable");
        assert_eq!(machine.state(), &ReceiverLifecycle::Unavailable);
        assert!(machine.removable(), "unavailable rows may be pruned");
        machine
            .set_service_available(true)
            .expect("castable again returns to Discovered");
        assert_eq!(machine.state(), &ReceiverLifecycle::Discovered);
        assert!(!machine.removable());
    }
}

#[test]
fn losing_the_service_while_streaming_defers_until_the_generation_ends() {
    let mut machine = ReceiverMachine::new(true);
    machine.begin_generation(1, 0).expect("start");
    machine.enter_streaming(ReceiverRole::Single).expect("streaming");
    machine
        .set_service_available(false)
        .expect("the loss is recorded, not applied");
    assert_eq!(
        machine.state(),
        &ReceiverLifecycle::Streaming { role: ReceiverRole::Single },
        "the generation still owns this receiver"
    );
    assert!(!machine.service_available(), "the fact itself is remembered");

    machine.leave_session();
    assert_eq!(
        machine.state(),
        &ReceiverLifecycle::Unavailable,
        "the deferred loss lands at the generation boundary"
    );
}

#[test]
fn a_generation_boundary_reanchors_a_drifted_receiver() {
    let mut unavailable = ReceiverMachine::new(false);
    assert_eq!(unavailable.state(), &ReceiverLifecycle::Unavailable);
    unavailable.begin_generation(1, 0).expect("the session is authoritative");
    assert_eq!(unavailable.state(), &ReceiverLifecycle::Connecting { attempt: 0 });

    let mut failed = ReceiverMachine::new(true);
    failed.begin_generation(1, 0).expect("start");
    failed
        .fail(false, UserFacingError::new("pairing rejected"))
        .expect("failure");
    failed.begin_generation(2, 0).expect("the next generation re-anchors it");
    assert_eq!(failed.state(), &ReceiverLifecycle::Connecting { attempt: 0 });

    let mut member = ReceiverMachine::new(false);
    member
        .enter_streaming(ReceiverRole::Single)
        .expect("the transport reported membership");
    assert_eq!(member.state(), &ReceiverLifecycle::Streaming { role: ReceiverRole::Single });
}

#[test]
fn manual_retry_frees_a_terminally_failed_receiver() {
    let mut machine = ReceiverMachine::new(true);
    machine.begin_generation(1, 0).expect("start");
    machine
        .fail(false, UserFacingError::new("pairing rejected"))
        .expect("failure");
    assert!(machine.in_backoff(), "a terminal failure stays out of automatic reconciles");

    machine.retry_now().expect("the retry command frees it");
    assert_eq!(machine.state(), &ReceiverLifecycle::Connecting { attempt: 0 });
    assert!(!machine.in_backoff(), "and it is reconcilable again");
}

#[test]
fn releasing_an_undesired_receiver_clears_its_backoff() {
    let mut machine = ReceiverMachine::new(true);
    machine.begin_generation(1, 0).expect("start");
    machine.fail(true, UserFacingError::new("gone")).expect("failure");
    machine.wait_retry(1, wall(5)).expect("backoff");

    machine.release();
    assert_eq!(machine.state(), &ReceiverLifecycle::Discovered);
    assert_eq!(machine.next_retry(), None);
    assert!(!machine.in_backoff());
}

#[test]
fn releasing_a_vanished_receiver_clears_its_backoff_and_keeps_it_unavailable() {
    let mut machine = ReceiverMachine::new(true);
    machine.begin_generation(1, 0).expect("start");
    machine.fail(true, UserFacingError::new("gone")).expect("failure");
    machine.wait_retry(1, wall(5)).expect("backoff");
    machine.set_service_available(false).expect("the service left");
    assert_eq!(machine.state(), &ReceiverLifecycle::Unavailable);
    assert_eq!(machine.next_retry(), Some(wall(5)));

    machine.release();
    assert_eq!(machine.state(), &ReceiverLifecycle::Unavailable);
    assert_eq!(machine.next_retry(), None);
    assert_eq!(machine.role(), None);
}

#[test]
fn a_streaming_receiver_takes_the_role_its_session_reports() {
    let mut machine = ReceiverMachine::new(true);
    machine.begin_generation(1, 0).expect("start");
    for role in [ReceiverRole::Secondary, ReceiverRole::Primary, ReceiverRole::Primary] {
        machine.enter_streaming(role).expect("the session is the authority on roles");
        assert_eq!(machine.state(), &ReceiverLifecycle::Streaming { role });
        assert_eq!(machine.role(), Some(role));
    }
}

#[test]
fn manual_retry_on_an_idle_receiver_is_a_no_op() {
    let mut machine = ReceiverMachine::new(true);
    machine.retry_now().expect("nothing was scheduled");
    assert_eq!(machine.state(), &ReceiverLifecycle::Discovered);
}

#[test]
fn a_rejected_edge_is_reported_in_release_builds() {
    let mut machine = ReceiverMachine::new(true);
    let rejected = machine
        .transition(ReceiverLifecycle::Ready { role: ReceiverRole::Single })
        .expect_err("the edge is not permitted");
    assert_eq!(rejected.from, "Discovered");
    assert_eq!(rejected.to, "Ready");
    assert_eq!(machine.state(), &ReceiverLifecycle::Discovered);
    assert_eq!(rejected.to_string(), "invalid receiver transition Discovered -> Ready");
}

#[test]
fn leaving_a_session_only_releases_live_receivers() {
    let mut streaming = ReceiverMachine::new(true);
    streaming.begin_generation(1, 0).expect("start");
    streaming.enter_streaming(ReceiverRole::Single).expect("streaming");
    streaming.leave_session();
    assert_eq!(streaming.state(), &ReceiverLifecycle::Discovered);

    let mut waiting = ReceiverMachine::new(true);
    waiting.begin_generation(1, 0).expect("start");
    waiting.fail(true, UserFacingError::new("gone")).expect("failure");
    waiting.wait_retry(1, wall(5)).expect("backoff");
    waiting.leave_session();
    assert!(
        matches!(waiting.state(), ReceiverLifecycle::RetryWaiting { .. }),
        "a receiver serving its backoff keeps waiting"
    );
}

#[test]
fn recovery_defaults_match_the_specified_baseline() {
    let policy = RetryPolicy::default();
    assert_eq!(policy.base, [1, 2, 4, 8, 16, 30].map(Duration::from_secs));
    assert_eq!(policy.jitter_percent, 20);
    assert_eq!(policy.healthy_reset_after, Duration::from_secs(60));
    assert_eq!(policy.discovery_stable_for, Duration::from_secs(2));
}

#[test]
fn edges_are_labelled_and_judged() {
    assert_eq!(label(&ReceiverLifecycle::Connecting { attempt: 3 }), "Connecting");
    assert!(permitted(
        &ReceiverLifecycle::Discovered,
        &ReceiverLifecycle::Connecting { attempt: 0 }
    ));
    assert!(!permitted(
        &ReceiverLifecycle::Unavailable,
        &ReceiverLifecycle::Streaming { role: ReceiverRole::Single }
    ));
}

#[test]
fn delays_stay_within_the_jitter_of_their_rung_and_are_deterministic() {
    let policy = RetryPolicy::default();
    for (attempt, secs) in [(0_u32, 1_u64), (1, 2), (2, 4), (3, 8), (4, 16), (5, 30), (90, 30)] {
        let delay = policy.delay(&receiver(0x5855_CA1A_E288), attempt);
        let base = secs * 1_000_000_000;
        assert!(delay.nanos >= base / 5 * 4, "attempt {attempt} fell below its rung");
        assert!(delay.nanos <= base / 5 * 6, "attempt {attempt} rose above its rung");
        assert!(delay.nanos <= 30_000_000_000, "no delay exceeds the longest rung");
        assert_eq!(delay, policy.delay(&receiver(0x5855_CA1A_E288), attempt));
    }
    assert_ne!(
        policy.delay(&receiver(1), 4),
        policy.delay(&receiver(2), 4),
        "receivers spread out"
    );
}

#[test]
fn discovery_delays_stay_within_the_jitter_of_their_rung() {
    let policy = RetryPolicy::default();
    for generation in [1_u64, 2, 300, u64::MAX] {
        for (attempt, secs) in [(0_u32, 1_u64), (1, 2), (2, 4), (3, 8), (4, 16), (5, 30), (90, 30)] {
            let nanos = policy.discovery_delay(generation, attempt).nanos;
            let base = secs * 1_000_000_000;
            assert!(nanos >= base / 5 * 4, "attempt {attempt} fell below its rung");
            assert!(nanos <= base / 5 * 6, "attempt {attempt} rose above its rung");
            assert!(nanos <= 30_000_000_000, "no delay exceeds the longest rung");
        }
    }
}

#[test]
fn an_unavailable_receiver_never_has_a_service_on_offer() {
    let mut machine = ReceiverMachine::new(true);
    let agrees = |machine: &ReceiverMachine| !machine.removable() || !machine.service_available();
    machine.begin_generation(1, 0).expect("start");
    machine.set_service_available(false).expect("deferred");
    assert!(!machine.removable());
    machine.leave_session();
    assert!(machine.removable() && agrees(&machine));
    machine.set_service_available(true).expect("back");
    assert!(!machine.removable() && agrees(&machine));
    machine.fail(true, UserFacingError::new("gone")).expect("failure");
    machine.set_service_available(false).expect("lost");
    assert!(machine.removable() && agrees(&machine));
    machine.release();
    assert!(machine.removable() && agrees(&machine));
}

#[test]
fn failures_count_up_and_only_a_healthy_window_resets_them() {
    let policy = RetryPolicy::default();
    let mut state = RetryState::new();
    let id = receiver(7);
    let deadline = state.note_failure(&policy, at(100), id);
    assert_eq!(state.attempt(id), 1);
    assert_eq!(state.next_retry(id), Some(deadline));
    assert_eq!(state.earliest_retry(), Some(deadline));
    assert!(state.due_at(at(100)).is_empty());
    assert_eq!(state.due_at(deadline), vec![id]);

    let second = state.note_failure(&policy, at(200), id);
    assert_eq!(second, at(200).after(policy.delay(&id, 1)), "each failure climbs one rung");
    assert_eq!(state.attempt(id), 2);
    assert!(!state.note_streaming(&policy, at(300), id), "the window only opens here");
    assert!(!state.note_streaming(&policy, at(359), id));
    assert_eq!(state.attempt(id), 2);
    assert!(state.note_streaming(&policy, at(360), id), "a minute of health resets");
    assert_eq!(state.attempt(id), 0);
}

#[test]
fn manual_retry_clears_the_deadline_and_keeps_the_attempts() {
    let policy = RetryPolicy::default();
    let mut state = RetryState::new();
    let id = receiver(7);
    state.note_failure(&policy, at(1), id);
    state.manual_retry(id);
    assert_eq!(state.next_retry(id), None);
    assert_eq!(state.attempt(id), 1);
}

#[test]
fn rejoins_wait_for_a_stable_sighting_and_for_each_other() {
    let mut limiter = RejoinRestartLimiter::new();
    let id = receiver(7);
    assert!(!limiter.may_rejoin(id, at(10)));
    limiter.note_discovered(id, at(10));
    limiter.note_discovered(id, at(11));
    assert!(!limiter.may_rejoin(id, at(11)));
    assert!(limiter.may_rejoin(id, at(12)), "the first sighting starts the window");
    assert!(limiter.may_rejoin_restart(id, at(12)));
    limiter.note_restart(at(12));
    assert!(!limiter.may_restart_group(at(41)));
    assert!(limiter.may_restart_group(at(42)));
    assert_eq!(limiter.group_allowed_at(), Some(at(42)));
    limiter.note_lost(id);
    assert_eq!(limiter.rejoin_eligible_at(id), None);
    limiter.note_discovered(id, at(50));
    assert_eq!(limiter.rejoin_eligible_at(id), Some(at(52)), "a loss restarts the window");
}
