//! The controller: launch, supervisor updates, commands, and shutdown.

use openaircast_backend::actor_model::{SHUTDOWN_GROUP_BUDGET_NANOS, SUSPEND_WATCHDOG_NANOS};
use openaircast_backend::batch::PendingBatch;
use openaircast_backend::batch_driver::{BatchAction, BatchDriver};
use openaircast_backend::batch_model::CommandInputs;
use openaircast_backend::calibration::{CalibrationCommand, CalibrationProfile};
use openaircast_backend::capture::{CaptureControl, CaptureUpdate};
use openaircast_backend::command::{BackendCommand, CommandConfirmation, CommandEnvelope, SystemEvent};
use openaircast_backend::controller::{
    category_of, ControllerActor, Effect, Moment, ReconcileCause,
};
use openaircast_backend::controller_session::derive_phase;
use openaircast_backend::controller_updates::{role_of, ControllerEvent};
use openaircast_backend::discovery::{
    BrowseEvent, Device, DiscoveryControl, DiscoveryUpdate, ServiceAddress,
};
use openaircast_backend::event::{
    BackendEvent, DiagnosticCategory, DiagnosticKind, DiagnosticPayload, Severity,
};
use openaircast_backend::idmap::IdSet;
use openaircast_backend::ids::ReceiverId;
use openaircast_backend::listening_check::ListeningTestGuard;
use openaircast_backend::model::{
    AudioEndpoint, AudioEndpointPreference, AudioSourceState, CommandFailure, DeviceSnapshot,
    DiscoveryPhase, LatencyPreset, PersistenceSnapshot, ReceiverLifecycle, ReceiverRole, RestartReason, RunIntent,
    SavedGroupId, SavedGroupMember, SessionPhase, SetupPhase, UserFacingError, Volume,
};
use openaircast_backend::persistence::PersistedStateV1;
use openaircast_backend::session::{
    Gain, MemberFailure, SessionRequest, SessionUpdate, TEARDOWN_GROUP_NANOS,
};
use openaircast_backend::shutdown::{remaining_budget, ShutdownStep, Teardown};
use openaircast_backend::time::{Duration, Instant, SystemTime};

fn at(secs: u64) -> Instant {
    Instant { nanos: 0 }.after(Duration::from_secs(secs))
}

fn moment(secs: u64) -> Moment {
    Moment { now: at(secs), wall: SystemTime { nanos: secs * 1_000_000_000 } }
}

fn volume(value: f32) -> Volume {
    Volume::new(value.to_bits()).unwrap()
}

fn identity(last: u8) -> ReceiverId {
    ReceiverId::from_bytes([0xAA, 0xBB, 0xCC, 0xDD, 0xEE, last])
}

fn set(ids: &[ReceiverId]) -> IdSet {
    let mut members = IdSet::new();
    for id in ids {
        members.insert(*id);
    }
    members
}

fn fresh_actor() -> ControllerActor {
    ControllerActor::from_persisted(PersistedStateV1::default(), at(0))
}

fn device(id: ReceiverId, name: &str) -> Device {
    Device {
        id,
        name: name.to_owned(),
        model: "AudioAccessory5,1".to_owned(),
        supports_airplay2: true,
        address: Some(ServiceAddress::V4 { bits: 0xC0A8_010A, port: 7000 }),
        properties: b"features=0x4A7FFFF7,0xE".to_vec(),
    }
}

fn discover(actor: &mut ControllerActor, id: ReceiverId, name: &str, secs: u64) {
    actor.handle_event(
        ControllerEvent::Discovery(DiscoveryUpdate::Receiver {
            generation: 0,
            event: BrowseEvent::Added(device(id, name)),
        }),
        moment(secs),
    );
}

/// Runs one command to its end, answering every write with `saved`.
fn run_one(
    actor: &mut ControllerActor,
    command: BackendCommand,
    saved: bool,
    receipt: Option<&'static str>,
) -> Vec<(&'static str, CommandConfirmation)> {
    let mut batch = PendingBatch::new();
    batch.insert(CommandEnvelope { id: 1, command, confirmation: receipt });
    run_batch(actor, batch, saved)
}

fn run_batch(
    actor: &mut ControllerActor,
    batch: PendingBatch<&'static str>,
    saved: bool,
) -> Vec<(&'static str, CommandConfirmation)> {
    let mut driver = BatchDriver::new(batch);
    let mut delivered = Vec::new();
    let mut action = driver.advance(actor, true, at(1));
    loop {
        action = match action {
            BatchAction::Save(_) | BatchAction::SaveCalibration(_) | BatchAction::StartTone => {
                driver.answer(actor, saved)
            }
            BatchAction::Proceed(answer) => {
                delivered.extend(answer);
                driver.advance(actor, true, at(1))
            }
            BatchAction::Finished { answers, .. } => {
                delivered.extend(answers);
                return delivered;
            }
            BatchAction::Idle => panic!("the batch stalled"),
        };
    }
}

fn failure_text(effects: &[Effect]) -> Option<String> {
    for effect in effects {
        if let Effect::Event(BackendEvent::CommandFailed { error, .. }) = effect {
            return Some(error.as_str().to_owned());
        }
    }
    None
}

fn reconciles(effects: &[Effect]) -> usize {
    effects
        .iter()
        .filter(|effect| matches!(effect, Effect::Session(SessionRequest::Reconcile { .. })))
        .count()
}

#[test]
fn pcm_drop_total_stays_monotonic_across_samples_and_delayed_edges() {
    let mut actor = fresh_actor();

    actor.apply_capture_telemetry(Some(250), 12);
    actor.apply_capture_update(CaptureUpdate::FrameDrop {
        decoder_generation: 1,
        capture_generation: 1,
        dropped: 8,
    });
    assert_eq!(
        actor.snapshot.audio_source.pcm_frames_dropped_total, 12,
        "a delayed queue edge must not overwrite a newer sampled lifetime total"
    );

    actor.apply_capture_update(CaptureUpdate::FrameDrop {
        decoder_generation: 1,
        capture_generation: 1,
        dropped: 15,
    });
    actor.apply_capture_telemetry(Some(300), 14);
    assert_eq!(
        actor.snapshot.audio_source.pcm_frames_dropped_total, 15,
        "an older periodic sample must not overwrite a newer queue edge"
    );
}

fn cancels_tone(actor: &mut ControllerActor) -> bool {
    actor
        .take_effects()
        .iter()
        .any(|effect| matches!(effect, Effect::CancelTone))
}

#[test]
fn listening_test_is_cancelled_by_stop_config_change_and_actor_drop() {
    let changes: Vec<fn(&mut DeviceSnapshot)> = vec![
        |s: &mut DeviceSnapshot| s.run_intent = RunIntent::Stopped,
        |s: &mut DeviceSnapshot| s.muted = true,
        |s: &mut DeviceSnapshot| s.master_volume = volume(0.12),
        |s: &mut DeviceSnapshot| {
            s.session.phase = SessionPhase::Restarting {
                generation: 7,
                reason: RestartReason::CalibrationChanged,
            }
        },
    ];
    for change in changes {
        let mut actor = fresh_actor();
        actor.snapshot.run_intent = RunIntent::Running;
        actor.snapshot.master_volume = volume(0.1);
        let id = ReceiverId::from_bytes([1; 6]);
        actor.snapshot.desired_members.insert(id);
        actor.snapshot.session.active.insert(id);
        actor.snapshot.session.phase = SessionPhase::Streaming { generation: 7 };
        actor.snapshot.audio_source.state = AudioSourceState::SilentSystem;
        actor.listening_test = Some(ListeningTestGuard::capture(&actor.snapshot).unwrap());
        actor.publish();
        assert!(!cancels_tone(&mut actor), "unchanged publication must preserve the tone");
        let again = ListeningTestGuard::capture(&actor.snapshot).unwrap();
        change(&mut actor.snapshot);
        actor.publish();
        assert!(cancels_tone(&mut actor));
        assert!(actor.listening_test.is_none());
        actor.listening_test = Some(again);
        actor.silence_tone();
        assert!(cancels_tone(&mut actor), "nothing plays on once the controller is gone");
    }
}

#[test]
fn endpoint_inventory_failure_keeps_unknown_or_last_success_and_recovery_can_be_empty() {
    let mut actor = fresh_actor();
    actor.apply_endpoints(None);
    assert!(
        actor.snapshot.audio_source.refresh_failed,
        "initial scan failure must be visible"
    );
    assert_eq!(actor.snapshot.audio_source.active_endpoints, None);
    let endpoints = || vec![AudioEndpoint { id: "speakers".into(), name: "Speakers".into() }];
    actor.apply_endpoints(Some(endpoints()));
    assert!(
        !actor.snapshot.audio_source.refresh_failed,
        "success clears the scan failure"
    );
    assert_eq!(actor.snapshot.audio_source.active_endpoints, Some(endpoints()));
    actor.apply_endpoints(None);
    assert!(
        actor.snapshot.audio_source.refresh_failed,
        "failed refresh must be visible beside the retained inventory"
    );
    assert_eq!(actor.snapshot.audio_source.active_endpoints, Some(endpoints()));
    actor.apply_endpoints(Some(Vec::new()));
    assert!(
        !actor.snapshot.audio_source.refresh_failed,
        "even an empty successful scan clears failure"
    );
    assert_eq!(actor.snapshot.audio_source.active_endpoints, Some(Vec::new()));
}

#[test]
fn a_receiver_without_a_known_name_is_never_named_after_its_identity() {
    let id = identity(0x01);
    let mut persisted = PersistedStateV1::default();
    persisted.last_desired_members = set(&[id]);

    let actor = ControllerActor::from_persisted(persisted, at(0));

    let row = actor
        .snapshot
        .receivers
        .iter()
        .find(|receiver| receiver.id == id)
        .expect("a restored desired member is a row before discovery");
    assert_eq!(row.name, "", "the stable identity was used as a display name");
    assert!(
        !format!("{:?}", actor.snapshot.receivers).contains(&id.to_string()),
        "the identity reached the snapshot in display form"
    );
}

#[test]
fn a_restored_desired_member_is_still_a_row() {
    let mut persisted = PersistedStateV1::default();
    persisted.last_desired_members = set(&[identity(0x02)]);

    let actor = ControllerActor::from_persisted(persisted, at(0));

    assert_eq!(actor.snapshot.receivers.len(), 1);
    assert_eq!(
        actor.snapshot.receivers[0].lifecycle,
        ReceiverLifecycle::Unavailable
    );
}

#[test]
fn the_exit_budget_outlasts_the_session_teardown_it_contains() {
    assert!(
        SHUTDOWN_GROUP_BUDGET_NANOS > TEARDOWN_GROUP_NANOS,
        "the exit budget must leave room for the session teardown it waits on plus the drains \
         that follow it"
    );
    assert_eq!(
        Duration { nanos: SHUTDOWN_GROUP_BUDGET_NANOS },
        Duration::from_secs(5),
        "the shipped exit budget changed; confirm the shell's device budget still covers it"
    );
}

#[test]
fn the_teardown_signals_everything_before_it_drains_and_shares_one_deadline() {
    let mut teardown = Teardown::start(at(10));
    let mut steps = Vec::new();
    let mut secs = 10;
    while let Some((step, budget)) = teardown.next_step(at(secs)) {
        assert_eq!(budget, remaining_budget(at(15), at(secs)));
        steps.push(step);
        teardown.note(step != ShutdownStep::DrainSession);
        secs += 1;
    }
    assert_eq!(
        steps,
        vec![
            ShutdownStep::StopNetworkMonitor,
            ShutdownStep::SignalCapture,
            ShutdownStep::SignalSession,
            ShutdownStep::SignalDiscovery,
            ShutdownStep::DrainDiscovery,
            ShutdownStep::DrainCapture,
            ShutdownStep::DrainSession,
        ]
    );
    let mut actor = fresh_actor();
    actor.note_shutdown(&teardown, at(secs));
    match &actor.take_effects()[..] {
        [Effect::Diagnostic(draft)] => {
            assert_eq!(draft.severity, Severity::Warning);
            assert_eq!(
                draft.payload,
                DiagnosticPayload::WorkerShutdown {
                    duration: Duration::from_secs(7),
                    timed_out: true,
                }
            );
        }
        other => panic!("expected one record, got {other:?}"),
    }
}

#[test]
fn records_are_filed_under_the_subsystem_they_speak_of() {
    assert_eq!(category_of(DiagnosticKind::ReceiverTransition), DiagnosticCategory::Receiver);
    assert_eq!(category_of(DiagnosticKind::Retry), DiagnosticCategory::Retry);
    assert_eq!(category_of(DiagnosticKind::Message), DiagnosticCategory::General);
}

#[test]
fn a_failed_browse_shows_the_wall_clock_end_of_its_backoff() {
    let mut actor = fresh_actor();
    let now = moment(10);
    actor.handle_event(
        ControllerEvent::Discovery(DiscoveryUpdate::Failed {
            generation: 1,
            error: UserFacingError::new("mdns down"),
            retry_at: at(14),
        }),
        now,
    );
    match actor.snapshot.discovery.phase {
        DiscoveryPhase::Retrying { retry_at, .. } => {
            assert_eq!(retry_at, now.wall.after(Duration { nanos: 4_000_000_000 }));
        }
        other => panic!("expected a pending restart, got {other:?}"),
    }
}

#[test]
fn a_repeated_sighting_publishes_nothing_whatever_the_order_of_names() {
    let mut actor = fresh_actor();
    discover(&mut actor, identity(1), "Workshop", 1);
    discover(&mut actor, identity(2), "Attic", 1);
    let names: Vec<&str> = actor.snapshot.receivers.iter().map(|row| row.name.as_str()).collect();
    assert_eq!(names, ["Attic", "Workshop"]);
    let revision = actor.snapshot.revision;
    discover(&mut actor, identity(1), "Workshop", 2);
    discover(&mut actor, identity(2), "Attic", 2);
    assert_eq!(actor.snapshot.revision, revision);
    discover(&mut actor, identity(2), "Cellar", 3);
    assert_eq!(actor.snapshot.revision, revision + 1);
}

#[test]
fn stale_browse_starts_do_not_move_the_generation_back() {
    let mut actor = fresh_actor();
    for (reported, shown) in [(3, 3), (2, 3), (4, 4)] {
        actor.handle_event(
            ControllerEvent::Discovery(DiscoveryUpdate::Started { generation: reported }),
            moment(reported),
        );
        assert_eq!(actor.snapshot.discovery.generation, shown);
    }
}

#[test]
fn a_restart_record_names_the_generation_it_replaces() {
    let restarts = |effects: &[Effect]| -> Vec<u64> {
        effects
            .iter()
            .filter_map(|effect| match effect {
                Effect::Diagnostic(draft) => match draft.payload {
                    DiagnosticPayload::SessionRestart { generation, .. } => Some(generation),
                    _ => None,
                },
                _ => None,
            })
            .collect()
    };
    let mut actor = fresh_actor();
    discover(&mut actor, identity(1), "Kitchen", 1);
    run_one(&mut actor, BackendCommand::SetRunIntent(RunIntent::Running), true, None);
    assert_eq!(restarts(&actor.take_effects()), [0], "nothing was live before the first start");
    let live = actor.session_generation;
    let members = set(&[identity(1)]);
    run_one(&mut actor, BackendCommand::SetDesiredMembers { members }, true, None);
    assert_eq!(restarts(&actor.take_effects()), [live]);
    assert_eq!(actor.session_generation, live + 1);
}

#[test]
fn a_reconcile_carries_the_newest_service_records() {
    let mut actor = fresh_actor();
    discover(&mut actor, identity(2), "Den", 1);
    discover(&mut actor, identity(1), "Kitchen", 1);
    let moved = Device {
        address: Some(ServiceAddress::V4 { bits: 0xC0A8_0120, port: 7100 }),
        ..device(identity(1), "Kitchen")
    };
    actor.handle_event(
        ControllerEvent::Discovery(DiscoveryUpdate::Receiver {
            generation: 0,
            event: BrowseEvent::Updated(moved.clone()),
        }),
        moment(2),
    );
    let wanted = set(&[identity(1), identity(2), identity(3)]);
    run_one(&mut actor, BackendCommand::SetDesiredMembers { members: wanted }, true, None);
    actor.take_effects();
    run_one(&mut actor, BackendCommand::SetRunIntent(RunIntent::Running), true, None);
    let effects = actor.take_effects();
    let handed = effects
        .iter()
        .find_map(|effect| match effect {
            Effect::Session(SessionRequest::Reconcile { desired, .. }) => Some(desired),
            _ => None,
        })
        .expect("a start reconciles");
    assert_eq!(handed, &vec![moved, device(identity(2), "Den")]);
}

#[test]
fn superseded_commands_are_reported_once() {
    let mut actor = fresh_actor();
    actor.note_coalesced(0);
    assert!(actor.take_effects().is_empty());
    actor.note_coalesced(3);
    assert_eq!(actor.take_effects().len(), 1);
}

#[test]
fn a_failed_save_applies_nothing_and_a_good_one_applies_everywhere() {
    let mut actor = fresh_actor();
    let answers = run_one(
        &mut actor,
        BackendCommand::SetMasterVolume(volume(0.5)),
        false,
        Some("drag"),
    );
    assert_eq!(actor.snapshot.master_volume, Volume::default_master());
    assert_eq!(actor.persisted.master_volume, Volume::default_master());
    assert_eq!(actor.snapshot.persistence, PersistenceSnapshot::Error);
    assert_eq!(answers.len(), 1);
    assert_eq!(answers[0].1.error, Some(CommandFailure::Persistence));
    assert_eq!(
        failure_text(&actor.take_effects()).as_deref(),
        Some("the change could not be saved to disk")
    );

    let answers = run_one(
        &mut actor,
        BackendCommand::SetMasterVolume(volume(0.5)),
        true,
        None,
    );
    assert!(answers.is_empty());
    assert_eq!(actor.snapshot.master_volume, volume(0.5));
    assert_eq!(actor.persisted.master_volume, volume(0.5));
    assert_eq!(
        actor.snapshot.persistence,
        PersistenceSnapshot::Healthy,
        "the next good write clears the error"
    );
}

#[test]
fn an_unchanged_value_is_an_accepted_no_op_that_is_still_published() {
    let mut actor = fresh_actor();
    let before = actor.snapshot.revision;
    run_one(&mut actor, BackendCommand::SetMuted(false), true, None);
    assert_eq!(actor.snapshot.revision, before + 1);
    assert_eq!(actor.snapshot.command_outcomes.result_of(1), Some(None));
}

#[test]
fn a_receipt_names_the_publication_that_carries_its_result() {
    let mut actor = fresh_actor();
    let answers = run_one(&mut actor, BackendCommand::SetMasterVolume(volume(0.5)), true, Some("drag"));
    assert_eq!(answers[0].0, "drag");
    assert_eq!(answers[0].1.revision, actor.snapshot.revision);
    assert_eq!(answers[0].1.error, None);
}

#[test]
fn gated_presets_are_refused_with_the_text_of_their_row() {
    let mut actor = fresh_actor();
    run_one(&mut actor, BackendCommand::SetLatencyPreset(LatencyPreset::Low), true, None);
    let reason = LatencyPreset::Low.disabled_reason().unwrap();
    assert_eq!(failure_text(&actor.take_effects()).as_deref(), Some(reason.as_str()));
    assert_eq!(actor.snapshot.latency_preset, LatencyPreset::Normal);
}

fn group_member(id: ReceiverId, name: &str, level: f32) -> SavedGroupMember {
    SavedGroupMember { receiver: id, last_known_name: name.to_owned(), level: volume(level) }
}

fn save_group(actor: &mut ControllerActor, name: &str, members: Vec<SavedGroupMember>) -> Option<String> {
    run_one(
        actor,
        BackendCommand::SaveGroup { id: None, name: name.to_owned(), members },
        true,
        None,
    );
    failure_text(&actor.take_effects())
}

#[test]
fn groups_are_saved_refused_edited_and_deleted() {
    let mut actor = fresh_actor();
    let kitchen = || vec![group_member(identity(1), "Kitchen", 0.5)];
    assert_eq!(save_group(&mut actor, "  Abends ", kitchen()), None);
    assert_eq!(actor.persisted.saved_groups.len(), 1);
    assert_eq!(actor.snapshot.saved_groups[0].name, "Abends");
    assert_eq!(
        save_group(&mut actor, "ABENDS", kitchen()).as_deref(),
        Some("a group with that name already exists")
    );
    assert_eq!(
        save_group(&mut actor, "   ", kitchen()).as_deref(),
        Some("group names need 1-64 characters")
    );
    assert_eq!(
        save_group(&mut actor, &"x".repeat(65), kitchen()).as_deref(),
        Some("group names need 1-64 characters")
    );
    assert_eq!(
        save_group(
            &mut actor,
            "Twice",
            vec![group_member(identity(1), "A", 1.0), group_member(identity(1), "B", 1.0)]
        )
        .as_deref(),
        Some("each receiver may appear once per group")
    );
    assert_eq!(
        save_group(&mut actor, "Empty", Vec::new()).as_deref(),
        Some("a saved group needs at least one receiver")
    );
    let id = actor.persisted.saved_groups[0].id;
    run_one(
        &mut actor,
        BackendCommand::SaveGroup { id: Some(id), name: "abends".to_owned(), members: kitchen() },
        true,
        None,
    );
    assert_eq!(actor.persisted.saved_groups.len(), 1, "an edit replaces the group");
    assert_eq!(actor.persisted.saved_groups[0].name, "abends");
    assert!(actor.persisted.last_desired_members.is_empty(), "membership stays untouched");
    run_one(&mut actor, BackendCommand::DeleteGroup(id), true, None);
    assert!(actor.persisted.saved_groups.is_empty());
    assert!(actor.snapshot.saved_groups.is_empty());
    let missing = BackendCommand::ActivateSavedGroup { id, start: true };
    actor.take_effects();
    run_one(&mut actor, missing, true, None);
    assert_eq!(
        failure_text(&actor.take_effects()).as_deref(),
        Some("that saved group no longer exists")
    );
}

#[test]
fn saved_groups_stay_listed_by_folded_name() {
    let mut actor = fresh_actor();
    for name in ["Unten", "abends", "K\u{dc}CHE"] {
        assert_eq!(save_group(&mut actor, name, vec![group_member(identity(1), "A", 1.0)]), None);
    }
    let names: Vec<&str> =
        actor.persisted.saved_groups.iter().map(|group| group.name.as_str()).collect();
    assert_eq!(names, vec!["abends", "K\u{dc}CHE", "Unten"]);
}

#[test]
fn activating_a_group_selects_levels_and_starts_once() {
    let mut actor = fresh_actor();
    discover(&mut actor, identity(1), "Kitchen", 1);
    save_group(&mut actor, "Abends", vec![group_member(identity(1), "Kitchen", 0.5)]);
    let id = actor.persisted.saved_groups[0].id;
    actor.take_effects();
    let answers = run_one(
        &mut actor,
        BackendCommand::ActivateSavedGroup { id, start: true },
        true,
        Some("start"),
    );
    assert_eq!(actor.snapshot.run_intent, RunIntent::Running);
    assert!(actor.snapshot.desired_members.contains(identity(1)));
    assert_eq!(actor.persisted.receiver_levels.get(identity(1)), Some(&volume(0.5)));
    assert_eq!(actor.session_generation, 1);
    assert_eq!(reconciles(&actor.take_effects()), 1);
    assert_eq!(answers.len(), 1);
    assert_eq!(answers[0].1.session_generation_floor, Some(1));

    let mut stopped = fresh_actor();
    save_group(&mut stopped, "Abends", vec![group_member(identity(1), "Kitchen", 0.5)]);
    let id = stopped.persisted.saved_groups[0].id;
    let start = || BackendCommand::ActivateSavedGroup { id, start: true };
    run_one(&mut stopped, start(), false, None);
    assert_eq!(stopped.snapshot.run_intent, RunIntent::Stopped, "a failed save starts nothing");
    run_one(&mut stopped, start(), true, None);
    stopped.snapshot.run_intent = RunIntent::Stopped;
    run_one(&mut stopped, start(), true, None);
    assert_eq!(
        stopped.snapshot.run_intent,
        RunIntent::Running,
        "the group already selected still starts"
    );
}

#[test]
fn a_stop_hands_down_nobody_and_a_second_one_asks_for_nothing() {
    let mut actor = fresh_actor();
    discover(&mut actor, identity(1), "Kitchen", 1);
    run_one(&mut actor, BackendCommand::SetDesiredMembers { members: set(&[identity(1)]) }, true, None);
    run_one(&mut actor, BackendCommand::SetRunIntent(RunIntent::Running), true, None);
    actor.take_effects();
    run_one(&mut actor, BackendCommand::SetRunIntent(RunIntent::Stopped), true, None);
    let asked = actor.take_effects();
    assert!(asked.iter().any(|effect| matches!(
        effect,
        Effect::Session(SessionRequest::Reconcile { desired, teardown_only: true, .. })
            if desired.is_empty()
    )));
    actor.handle_event(ControllerEvent::Session(SessionUpdate::Stopped { generation: 2 }), moment(5));
    actor.take_effects();
    run_one(&mut actor, BackendCommand::SetDesiredMembers { members: IdSet::new() }, true, None);
    assert_eq!(reconciles(&actor.take_effects()), 0, "a stopped app has nothing to take down");
}

fn streaming_actor() -> ControllerActor {
    let mut actor = fresh_actor();
    let ids = [identity(1), identity(2)];
    for id in ids {
        discover(&mut actor, id, "Speaker", 1);
    }
    run_one(&mut actor, BackendCommand::SetDesiredMembers { members: set(&ids) }, true, None);
    run_one(&mut actor, BackendCommand::SetRunIntent(RunIntent::Running), true, None);
    let generation = actor.session_generation;
    actor.handle_event(ControllerEvent::Session(SessionUpdate::Starting { generation }), moment(3));
    actor.handle_event(
        ControllerEvent::Session(SessionUpdate::Active {
            generation,
            primary: identity(1),
            members: set(&ids),
            partial_failures: Vec::new(),
        }),
        moment(4),
    );
    actor.take_effects();
    actor
}

#[test]
fn a_live_generation_streams_and_shows_its_roles() {
    let actor = streaming_actor();
    assert_eq!(
        actor.snapshot.session.phase,
        SessionPhase::Streaming { generation: actor.session_generation }
    );
    let lifecycle = |id: ReceiverId| {
        actor
            .snapshot
            .receivers
            .iter()
            .find(|row| row.id == id)
            .map(|row| row.lifecycle.clone())
            .unwrap()
    };
    assert_eq!(
        lifecycle(identity(1)),
        ReceiverLifecycle::Streaming { role: ReceiverRole::Primary }
    );
    assert_eq!(
        lifecycle(identity(2)),
        ReceiverLifecycle::Streaming { role: ReceiverRole::Secondary }
    );
}

fn lose(actor: &mut ControllerActor, id: ReceiverId, primary: bool) -> Vec<Effect> {
    let generation = actor.session_generation;
    actor.handle_event(
        ControllerEvent::Session(SessionUpdate::MemberFailed {
            generation,
            receiver: id,
            primary,
            error: UserFacingError::new("probe timed out"),
        }),
        moment(10),
    );
    actor.take_effects()
}

#[test]
fn only_terminal_failures_of_desired_receivers_are_listed_as_failed() {
    let mut actor = fresh_actor();
    let ids = [identity(1), identity(2), identity(3)];
    for id in ids {
        discover(&mut actor, id, "Speaker", 1);
    }
    run_one(&mut actor, BackendCommand::SetDesiredMembers { members: set(&ids) }, true, None);
    run_one(&mut actor, BackendCommand::SetRunIntent(RunIntent::Running), true, None);
    let generation = actor.session_generation;
    actor.handle_event(ControllerEvent::Session(SessionUpdate::Starting { generation }), moment(3));
    let left_out = |receiver: ReceiverId, retryable: bool| MemberFailure {
        receiver,
        phase: SetupPhase::Pair,
        retryable,
    };
    actor.handle_event(
        ControllerEvent::Session(SessionUpdate::Active {
            generation,
            primary: identity(1),
            members: set(&[identity(1)]),
            partial_failures: vec![
                left_out(identity(2), false),
                left_out(identity(3), true),
                left_out(identity(9), false),
            ],
        }),
        moment(4),
    );
    let session = &actor.snapshot.session;
    assert_eq!(session.failed, set(&[identity(2)]));
    assert_eq!(session.retry_waiting, set(&[identity(3)]));

    let generation = actor.session_generation;
    actor.handle_event(
        ControllerEvent::Session(SessionUpdate::MemberFailed {
            generation,
            receiver: identity(1),
            primary: false,
            error: UserFacingError::new("probe timed out"),
        }),
        moment(10),
    );
    let session = &actor.snapshot.session;
    assert_eq!(session.failed, set(&[identity(2)]), "a lost member may be retried");
    assert_eq!(session.retry_waiting, set(&[identity(1), identity(3)]));
}

#[test]
fn losing_a_secondary_degrades_and_losing_the_primary_rebuilds() {
    let mut actor = streaming_actor();
    let generation = actor.session_generation;
    let effects = lose(&mut actor, identity(2), false);
    assert_eq!(reconciles(&effects), 0);
    assert_eq!(actor.snapshot.session.phase, SessionPhase::Degraded { generation });
    assert!(actor.snapshot.session.retry_waiting.contains(identity(2)));

    let mut actor = streaming_actor();
    let effects = lose(&mut actor, identity(1), true);
    assert_eq!(reconciles(&effects), 1);
    assert_eq!(actor.session_generation, generation + 1);
}

#[test]
fn a_lost_receiver_rejoins_through_one_spaced_restart() {
    let mut actor = streaming_actor();
    lose(&mut actor, identity(2), false);
    let wait = actor.next_retry_delay(at(10)).expect("a backoff is pending");
    assert!(wait.nanos > 0);
    let due = at(10).after(wait);
    assert_eq!(actor.next_retry_delay(due), Some(Duration { nanos: 0 }));
    actor.fire_due_retries(due);
    assert_eq!(reconciles(&actor.take_effects()), 1);
    assert_ne!(
        actor.next_retry_delay(due),
        Some(Duration { nanos: 0 }),
        "the timer never fires twice at one instant"
    );
    actor.fire_due_retries(due);
    assert_eq!(reconciles(&actor.take_effects()), 0);
}

#[test]
fn a_suspend_closes_every_automatic_path_and_keeps_the_intent() {
    let mut actor = streaming_actor();
    actor.handle_system_event(SystemEvent::Suspending, at(20));
    let effects = actor.take_effects();
    assert!(effects
        .iter()
        .any(|effect| matches!(effect, Effect::Capture(CaptureControl::Suspend))));
    assert!(effects
        .iter()
        .any(|effect| matches!(effect, Effect::Session(SessionRequest::Suspend))));
    assert_eq!(actor.snapshot.run_intent, RunIntent::Running);
    assert!(actor.snapshot.session.resume_pending);
    assert_eq!(
        actor.resume_delay(at(20)),
        Some(Duration { nanos: SUSPEND_WATCHDOG_NANOS })
    );
    assert_eq!(actor.next_retry_delay(at(20)), None);
    run_one(&mut actor, BackendCommand::SetDesiredMembers { members: set(&[identity(1)]) }, true, None);
    assert_eq!(reconciles(&actor.take_effects()), 0, "nothing restarts while asleep");

    actor.handle_system_event(SystemEvent::Resumed, at(30));
    assert_eq!(actor.resume_delay(at(30)), Some(Duration::from_secs(2)));
    actor.finish_resume(at(32));
    let effects = actor.take_effects();
    assert_eq!(reconciles(&effects), 1);
    assert!(effects.iter().any(|effect| matches!(
        effect,
        Effect::Discovery(DiscoveryControl::RestartAfterNetworkChange)
    )));
    assert!(!actor.snapshot.session.resume_pending);
    assert_eq!(actor.resume_delay(at(32)), None);
}

#[test]
fn a_group_start_while_asleep_waits_for_a_new_generation() {
    let mut actor = fresh_actor();
    save_group(&mut actor, "Abends", vec![group_member(identity(1), "Kitchen", 0.5)]);
    let id = actor.persisted.saved_groups[0].id;
    actor.handle_system_event(SystemEvent::Suspending, at(20));
    let answers = run_one(
        &mut actor,
        BackendCommand::ActivateSavedGroup { id, start: true },
        true,
        Some("start"),
    );
    assert_eq!(answers[0].1.session_generation_floor, Some(actor.session_generation + 1));
}

#[test]
fn a_moved_binding_rebuilds_and_an_unmoved_one_only_rediscovers() {
    let mut actor = streaming_actor();
    let edge = |local_binding_changed: bool| SystemEvent::NetworkChanged { local_binding_changed };
    actor.handle_system_event(edge(false), at(20));
    assert_eq!(reconciles(&actor.take_effects()), 0);
    actor.handle_system_event(edge(true), at(21));
    assert_eq!(reconciles(&actor.take_effects()), 1);
}

fn auto_connecting() -> ControllerActor {
    let mut persisted = PersistedStateV1::default();
    persisted.last_desired_members = set(&[identity(1)]);
    persisted.auto_connect = true;
    ControllerActor::from_persisted(persisted, at(0))
}

#[test]
fn auto_connect_waits_for_stability_acts_once_and_expires() {
    let mut actor = auto_connecting();
    assert_eq!(actor.auto_connect_delay(at(1)), None, "nobody is castable yet");
    discover(&mut actor, identity(1), "Kitchen", 3);
    assert_eq!(actor.auto_connect_delay(at(3)), Some(Duration::from_secs(2)));
    actor.apply_startup_auto_connect(at(4));
    assert_eq!(actor.snapshot.run_intent, RunIntent::Stopped);
    actor.apply_startup_auto_connect(at(5));
    assert_eq!(actor.snapshot.run_intent, RunIntent::Running);
    assert_eq!(reconciles(&actor.take_effects()), 1);
    run_one(&mut actor, BackendCommand::SetRunIntent(RunIntent::Stopped), true, None);
    actor.apply_startup_auto_connect(at(6));
    assert_eq!(actor.snapshot.run_intent, RunIntent::Stopped, "a stop stays stopped");

    let mut late = auto_connecting();
    discover(&mut late, identity(1), "Kitchen", 70);
    assert_eq!(late.auto_connect_delay(at(72)), None);
    late.apply_startup_auto_connect(at(72));
    assert_eq!(late.snapshot.run_intent, RunIntent::Stopped);

    let mut cleared = auto_connecting();
    discover(&mut cleared, identity(1), "Kitchen", 3);
    run_one(&mut cleared, BackendCommand::SetAutoConnect(false), true, None);
    assert_eq!(cleared.auto_connect_delay(at(5)), None);
}

#[test]
fn stale_browse_reports_are_ignored() {
    let mut actor = fresh_actor();
    actor.handle_event(ControllerEvent::Discovery(DiscoveryUpdate::Started { generation: 2 }), moment(1));
    actor.handle_event(
        ControllerEvent::Discovery(DiscoveryUpdate::Receiver {
            generation: 1,
            event: BrowseEvent::Added(device(identity(1), "Kitchen")),
        }),
        moment(2),
    );
    assert!(actor.snapshot.receivers.is_empty());
}

#[test]
fn volumes_follow_mute_master_and_level() {
    let mut actor = streaming_actor();
    run_one(&mut actor, BackendCommand::SetMasterVolume(volume(0.5)), true, None);
    run_one(
        &mut actor,
        BackendCommand::SetReceiverLevel { receiver: identity(1), level: volume(0.4) },
        true,
        None,
    );
    match actor.gain_of(identity(1)) {
        Gain::Product { master, level } => {
            assert_eq!(master, volume(0.5));
            assert_eq!(level, volume(0.4));
        }
        other => panic!("expected a product, got {other:?}"),
    }
    actor.take_effects();
    run_one(&mut actor, BackendCommand::SetMuted(true), true, None);
    let silenced = actor
        .take_effects()
        .iter()
        .filter(|effect| matches!(
            effect,
            Effect::Session(SessionRequest::SetVolume { gain: Gain::Silent, .. })
        ))
        .count();
    assert_eq!(silenced, 2, "every connected receiver is silenced");
}

#[test]
fn an_endpoint_change_scans_and_reopens_capture() {
    let mut actor = fresh_actor();
    let chosen = || AudioEndpointPreference::Explicit {
        id: "speakers".to_owned(),
        last_known_name: "Speakers".to_owned(),
    };
    run_one(&mut actor, BackendCommand::SetAudioEndpoint(chosen()), true, None);
    assert_eq!(actor.persisted.audio_endpoint, chosen());
    let effects = actor.take_effects();
    let order: Vec<usize> = effects
        .iter()
        .enumerate()
        .filter(|(_, effect)| matches!(
            effect,
            Effect::ScanEndpoints
                | Effect::CapturePreference(_)
                | Effect::Capture(CaptureControl::RequestEndpointChange)
        ))
        .map(|(index, _)| index)
        .collect();
    assert_eq!(order.len(), 3);
    assert!(matches!(effects[order[1]], Effect::CapturePreference(_)));
}

fn calibrate(actor: &mut ControllerActor, expected: u64, fits: bool, saved: bool) -> Option<String> {
    let mut batch: PendingBatch<&'static str> = PendingBatch::new();
    batch.insert(CommandEnvelope {
        id: 5,
        command: BackendCommand::Calibration(CalibrationCommand::ApplyCalibrationProfile {
            expected_desired_revision: expected,
            profile: CalibrationProfile {
                reference: Some(identity(1)),
                ..CalibrationProfile::default()
            },
        }),
        confirmation: None,
    });
    let inputs = CommandInputs {
        fresh_group: SavedGroupId::from_uuid(1),
        calibration_fits: fits,
        now: at(1),
    };
    let mut driver = BatchDriver::new(batch);
    if let BatchAction::SaveCalibration(section) = driver.proceed(actor, inputs) {
        assert_eq!(section.and_then(|stored| stored.reference), Some(identity(1)));
        assert!(matches!(driver.proceed(actor, inputs), BatchAction::Idle), "it waits for its write");
        driver.answer(actor, saved);
    }
    assert!(matches!(driver.answer(actor, saved), BatchAction::Idle), "nothing is waited for");
    assert!(matches!(driver.proceed(actor, inputs), BatchAction::Finished { shutdown: false, .. }));
    assert!(matches!(driver.proceed(actor, inputs), BatchAction::Idle), "the batch is over");
    failure_text(&actor.take_effects())
}

#[test]
fn a_calibration_is_guarded_stored_and_settled_by_its_generation() {
    let mut actor = streaming_actor();
    let revision = actor.snapshot.desired_revision;
    assert_eq!(
        calibrate(&mut actor, revision + 1, true, true).as_deref(),
        Some("the receiver selection changed while calibrating; review it and apply again")
    );
    assert_eq!(
        calibrate(&mut actor, revision, false, true).as_deref(),
        Some("the calibration values could not be applied")
    );
    assert_eq!(
        calibrate(&mut actor, revision, true, false).as_deref(),
        Some("the change could not be saved to disk")
    );
    assert_eq!(actor.calibration, CalibrationProfile::default());
    assert_eq!(actor.snapshot.persistence, PersistenceSnapshot::Error);
    assert_eq!(calibrate(&mut actor, revision, true, true), None);
    assert_eq!(actor.snapshot.persistence, PersistenceSnapshot::Healthy);
    assert_eq!(actor.calibration.reference, Some(identity(1)));
    let pending = actor.session_generation;
    assert_eq!(actor.calibration_pending_generation, Some(pending));
    actor.settle_calibration_generation(pending - 1);
    assert_eq!(actor.calibration_pending_generation, Some(pending));
    actor.settle_calibration_generation(pending + 1);
    assert_eq!(actor.calibration_pending_generation, None);

    let mut lonely = fresh_actor();
    assert_eq!(
        calibrate(&mut lonely, 0, true, true).as_deref(),
        Some("calibration needs at least two selected receivers")
    );
}

#[test]
fn the_alignment_clicks_need_two_connected_receivers() {
    let clicks = || BackendCommand::Calibration(CalibrationCommand::RunCalibrationClickTest);
    let mut lonely = fresh_actor();
    run_one(&mut lonely, clicks(), true, None);
    assert_eq!(
        failure_text(&lonely.take_effects()).as_deref(),
        Some("the alignment test needs at least two connected receivers")
    );
    let mut actor = streaming_actor();
    run_one(&mut actor, clicks(), true, None);
    assert!(actor
        .take_effects()
        .iter()
        .any(|effect| matches!(effect, Effect::InjectClicks)));
}

#[test]
fn a_tone_plays_once_per_generation_and_ends_with_a_shutdown() {
    let mut actor = streaming_actor();
    actor.handle_event(
        ControllerEvent::Capture(CaptureUpdate::Ready {
            decoder_generation: 1,
            capture_generation: 1,
            endpoint: AudioEndpoint { id: "a".to_owned(), name: "A".to_owned() },
        }),
        moment(5),
    );
    run_one(&mut actor, BackendCommand::SetMasterVolume(volume(0.1)), true, None);
    let guard = || ListeningTestGuard::capture(&actor.snapshot).expect("a quiet live group");
    let first = guard();
    let second = guard();
    actor.take_effects();
    run_one(&mut actor, BackendCommand::RunListeningTest(first), true, None);
    assert!(actor.listening_test.is_some());
    assert_eq!(failure_text(&actor.take_effects()), None);
    run_one(&mut actor, BackendCommand::RunListeningTest(second), true, None);
    assert_eq!(
        failure_text(&actor.take_effects()).as_deref(),
        Some("the listening test configuration changed or was already used")
    );
    run_one(&mut actor, BackendCommand::Shutdown, true, None);
    assert!(cancels_tone(&mut actor));
}

#[test]
fn a_busy_audio_source_refuses_the_tone() {
    let mut actor = streaming_actor();
    actor.snapshot.master_volume = volume(0.1);
    actor.snapshot.audio_source.state = AudioSourceState::SilentSystem;
    let guard = ListeningTestGuard::capture(&actor.snapshot).unwrap();
    run_one(&mut actor, BackendCommand::RunListeningTest(guard), false, None);
    assert_eq!(
        failure_text(&actor.take_effects()).as_deref(),
        Some("the listening test audio source is busy")
    );
    assert!(actor.listening_test.is_none());
}

#[test]
fn a_manual_retry_frees_the_receiver_and_restarts_once() {
    let mut actor = streaming_actor();
    lose(&mut actor, identity(2), false);
    run_one(&mut actor, BackendCommand::RetryReceiver(identity(2)), true, None);
    assert_eq!(reconciles(&actor.take_effects()), 1);
    assert!(!actor.snapshot.session.retry_waiting.contains(identity(2)));
}

#[test]
fn a_launch_says_what_kind_of_load_it_was() {
    let mut actor = fresh_actor();
    actor.announce_launch(true, true, true);
    let effects = actor.take_effects();
    let records = effects.iter().filter(|effect| matches!(effect, Effect::Diagnostic(_))).count();
    let notices = effects
        .iter()
        .filter(|effect| matches!(effect, Effect::Event(BackendEvent::Notice { .. })))
        .count();
    assert_eq!((records, notices), (4, 2));
    actor.note_monitor_unavailable("status 31");
    match &actor.take_effects()[..] {
        [Effect::Event(BackendEvent::Notice { message, .. })] => {
            assert_eq!(message, "network change monitoring is unavailable: status 31");
        }
        other => panic!("expected one notice, got {other:?}"),
    }
}

#[test]
fn phases_and_roles_follow_desired_and_active_members() {
    let one = set(&[identity(1)]);
    let both = set(&[identity(1), identity(2)]);
    let none = IdSet::new();
    assert_eq!(
        derive_phase(&both, &both, RunIntent::Running, 3),
        SessionPhase::Streaming { generation: 3 }
    );
    assert_eq!(
        derive_phase(&both, &one, RunIntent::Running, 3),
        SessionPhase::Degraded { generation: 3 }
    );
    assert_eq!(
        derive_phase(&both, &none, RunIntent::Running, 3),
        SessionPhase::Starting { generation: 3 }
    );
    assert_eq!(derive_phase(&both, &both, RunIntent::Stopped, 3), SessionPhase::Stopped);
    assert_eq!(role_of(identity(1), &one, identity(1)), ReceiverRole::Single);
    assert_eq!(role_of(identity(1), &both, identity(1)), ReceiverRole::Primary);
    assert_eq!(role_of(identity(1), &both, identity(2)), ReceiverRole::Secondary);
}

#[test]
fn a_batch_runs_every_command_once_and_stops_at_a_shutdown() {
    let mut actor = fresh_actor();
    let mut batch = PendingBatch::new();
    let mut insert = |id: u64, command: BackendCommand| {
        batch.insert(CommandEnvelope { id, command, confirmation: None::<&'static str> });
    };
    insert(1, BackendCommand::SetMuted(true));
    insert(2, BackendCommand::SetAutoConnect(true));
    insert(3, BackendCommand::Shutdown);
    insert(4, BackendCommand::RetryReceiver(identity(1)));
    run_batch(&mut actor, batch, true);
    let outcomes = &actor.snapshot.command_outcomes;
    for id in 1..=3 {
        assert_eq!(outcomes.result_of(id), Some(None));
    }
    assert_eq!(outcomes.result_of(4), None, "nothing runs after a shutdown");
    assert!(actor.persisted.muted && actor.persisted.auto_connect);
}

#[test]
fn every_reconcile_cause_is_a_full_restart() {
    for cause in [
        ReconcileCause::Membership,
        ReconcileCause::SavedGroup,
        ReconcileCause::LatencyPreset,
        ReconcileCause::Retry,
        ReconcileCause::PrimaryFailure,
        ReconcileCause::Resume,
        ReconcileCause::NetworkRebind,
        ReconcileCause::CalibrationChanged,
    ] {
        assert!(cause.matrix_row().requires_full_restart());
    }
    assert_eq!(ReconcileCause::Retry.reason(), RestartReason::SecondaryRejoin);
}
