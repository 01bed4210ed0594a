//! Receipts, edge classification, and the coalescing of batches.

use openaircast_backend::batch::PendingBatch;
use openaircast_backend::calibration::CalibrationCommand;
use openaircast_backend::command::{
    BackendCommand, BackendSendError, CommandConfirmation, CommandEnvelope, CommandReceipt,
    ReceiptAnswer, ReceiptState, SystemEvent,
};
use openaircast_backend::controller_commands::BatchRun;
use openaircast_backend::idmap::IdSet;
use openaircast_backend::ids::ReceiverId;
use openaircast_backend::model::{
    AudioEndpointPreference, CommandFailure, LatencyPreset, RunIntent, SavedGroupId, Volume,
};

fn receiver(seed: u8) -> ReceiverId {
    ReceiverId::from_storage_key(&format!("0000000000{seed:02X}"))
        .expect("fixed seed forms a valid storage key")
}

fn envelope(id: u64, command: BackendCommand, receipt: Option<&'static str>) -> CommandEnvelope<&'static str> {
    CommandEnvelope { id, command, confirmation: receipt }
}

#[test]
fn exact_receipt_waits_for_projection_and_remembers_its_terminal_result() {
    let mut receipt = CommandReceipt::new();
    assert_eq!(receipt.poll(ReceiptAnswer::Empty, u64::MAX), ReceiptState::Pending);
    let answer = ReceiptAnswer::Confirmed(CommandConfirmation {
        session_generation_floor: None,
        revision: 8,
        error: Some(CommandFailure::Persistence),
    });
    assert_eq!(receipt.poll(answer, 7), ReceiptState::Pending);
    let expected = ReceiptState::Completed(Some(CommandFailure::Persistence));
    assert_eq!(receipt.poll(ReceiptAnswer::Closed, 8), expected);
    assert_eq!(receipt.poll(ReceiptAnswer::Closed, 900), expected);
}

#[test]
fn session_floor_obeys_the_exact_receipts_revision_barrier() {
    let mut receipt = CommandReceipt::new();
    let answer = ReceiptAnswer::Confirmed(CommandConfirmation {
        revision: 8,
        error: None,
        session_generation_floor: Some(31),
    });
    assert_eq!(receipt.poll(answer, 7), ReceiptState::Pending);
    assert_eq!(receipt.session_generation_floor(7), None);
    assert_eq!(receipt.poll(ReceiptAnswer::Closed, 8), ReceiptState::Completed(None));
    assert_eq!(receipt.session_generation_floor(8), Some(31));
}

#[test]
fn exact_receipt_reports_lost_only_when_its_own_producer_disappears() {
    let mut receipt = CommandReceipt::new();
    for _ in 0..130 {
        assert_eq!(receipt.poll(ReceiptAnswer::Empty, u64::MAX), ReceiptState::Pending);
    }
    assert!(receipt.awaits_result());
    assert_eq!(receipt.poll(ReceiptAnswer::Closed, u64::MAX), ReceiptState::Lost);
    assert_eq!(BackendSendError::Closed.to_string(), "backend is closed");
    assert_eq!(BackendSendError::Busy.to_string(), "backend queue is busy");
}

#[test]
fn edge_commands_are_classified_exactly() {
    let group = SavedGroupId::generate();
    let cases = vec![
        (BackendCommand::SetDesiredMembers { members: IdSet::new() }, false),
        (BackendCommand::SetRunIntent(RunIntent::Stopped), false),
        (BackendCommand::SetMasterVolume(Volume::unity()), false),
        (BackendCommand::SetMuted(true), false),
        (
            BackendCommand::SetReceiverLevel { receiver: receiver(1), level: Volume::unity() },
            false,
        ),
        (
            BackendCommand::SetAudioEndpoint(AudioEndpointPreference::SystemDefault),
            false,
        ),
        (BackendCommand::SetLatencyPreset(LatencyPreset::Normal), false),
        (BackendCommand::SetAutoConnect(false), false),
        (
            BackendCommand::SaveGroup {
                id: None,
                name: "Abends".to_owned(),
                members: Vec::new(),
            },
            true,
        ),
        (BackendCommand::DeleteGroup(group), true),
        (BackendCommand::ActivateSavedGroup { id: group, start: true }, true),
        (BackendCommand::RetryReceiver(receiver(2)), true),
        (BackendCommand::NotifySystem(SystemEvent::Suspending), true),
        (BackendCommand::NotifySystem(SystemEvent::Resumed), true),
        (
            BackendCommand::NotifySystem(SystemEvent::NetworkChanged {
                local_binding_changed: true,
            }),
            true,
        ),
        (
            BackendCommand::Calibration(CalibrationCommand::ResetCalibration {
                expected_desired_revision: 0,
            }),
            true,
        ),
        (
            BackendCommand::Calibration(CalibrationCommand::RunCalibrationClickTest),
            true,
        ),
        (BackendCommand::Shutdown, true),
    ];
    assert_eq!(cases.len(), 18);
    for (command, expected) in &cases {
        assert_eq!(
            command.is_edge(),
            *expected,
            "wrong edge classification for {command:?}"
        );
    }
}

#[test]
fn coalescing_master_into_start_keeps_the_drag_receipt_pending() {
    let mut batch = PendingBatch::new();
    batch.insert(envelope(
        1,
        BackendCommand::SetMasterVolume(Volume::default_master()),
        Some("drag"),
    ));
    batch.insert(envelope(2, BackendCommand::SetMasterVolume(Volume::unity()), None));
    assert_eq!(
        batch.master_receipt,
        Some("drag"),
        "a coalesced drag must not settle from an older snapshot before the winner commits"
    );
    let mut run = BatchRun::new(batch);
    let winner = run.next().expect("one command survives");
    assert_eq!(winner.id, 2);
    assert_eq!(winner.receipt, Some("drag"), "the winner answers the drag");
    assert!(run.next().is_none());
}

#[test]
fn scalars_coalesce_levels_split_and_edges_keep_their_order() {
    let group = SavedGroupId::from_uuid(7);
    let mut batch = PendingBatch::new();
    batch.insert(envelope(1, BackendCommand::SetMuted(true), None));
    batch.insert(envelope(2, BackendCommand::Shutdown, Some("shutdown")));
    batch.insert(envelope(
        3,
        BackendCommand::SetReceiverLevel { receiver: receiver(9), level: Volume::unity() },
        None,
    ));
    batch.insert(envelope(4, BackendCommand::SetMuted(false), None));
    batch.insert(envelope(
        5,
        BackendCommand::SetReceiverLevel { receiver: receiver(1), level: Volume::muted() },
        None,
    ));
    batch.insert(envelope(6, BackendCommand::DeleteGroup(group), None));
    batch.insert(envelope(7, BackendCommand::SetRunIntent(RunIntent::Running), None));
    assert_eq!(batch.winner_count(), 6);
    assert_eq!(batch.superseded(), 1);
    let mut run = BatchRun::new(batch);
    let mut order = Vec::new();
    while let Some(item) = run.next() {
        order.push(item.id);
    }
    assert_eq!(order, vec![7, 4, 5, 3, 2, 6]);
}

#[test]
fn every_slot_of_a_whole_batch_holds_the_newest_of_its_kind() {
    let mut batch = PendingBatch::new();
    let explicit = || AudioEndpointPreference::Explicit {
        id: "dac".to_owned(),
        last_known_name: "DAC".to_owned(),
    };
    for (round, preference) in [(0, AudioEndpointPreference::SystemDefault), (10, explicit())] {
        batch.insert(envelope(round + 1, BackendCommand::SetAudioEndpoint(preference), None));
        batch.insert(envelope(
            round + 2,
            BackendCommand::SetLatencyPreset(LatencyPreset::Normal),
            None,
        ));
        batch.insert(envelope(round + 3, BackendCommand::SetAutoConnect(round > 0), None));
        batch.insert(envelope(
            round + 4,
            BackendCommand::SetDesiredMembers { members: IdSet::new() },
            None,
        ));
        batch.insert(envelope(round + 5, BackendCommand::SetMuted(true), None));
        let receipt = if round == 0 { Some("drag") } else { None };
        batch.insert(envelope(
            round + 6,
            BackendCommand::SetMasterVolume(Volume::unity()),
            receipt,
        ));
    }
    let held = |slot: &Option<CommandEnvelope<&'static str>>| slot.as_ref().map(|kept| kept.id);
    assert_eq!(held(&batch.endpoint), Some(11));
    assert_eq!(held(&batch.latency_preset), Some(12));
    assert_eq!(held(&batch.auto_connect), Some(13));
    assert_eq!(held(&batch.desired_members), Some(14));
    assert_eq!(held(&batch.muted), Some(15));
    assert_eq!(held(&batch.master_volume), Some(16));
    assert_eq!(held(&batch.run_intent), None);
    assert_eq!(batch.master_receipt, Some("drag"));
    assert_eq!(batch.superseded(), 6);
}

#[test]
fn a_stop_cancels_group_starts_queued_before_it() {
    let group = SavedGroupId::from_uuid(7);
    let start = || BackendCommand::ActivateSavedGroup { id: group, start: true };
    let mut batch = PendingBatch::new();
    batch.insert(envelope(1, start(), None));
    batch.insert(envelope(2, BackendCommand::SetRunIntent(RunIntent::Stopped), None));
    batch.insert(envelope(3, start(), None));
    let mut run = BatchRun::new(batch);
    let mut starts = Vec::new();
    while let Some(item) = run.next() {
        starts.push((item.id, item.starts_group()));
    }
    assert_eq!(starts, vec![(2, false), (1, false), (3, true)]);
}

#[test]
fn nothing_runs_after_a_shutdown() {
    let mut batch = PendingBatch::new();
    batch.insert(envelope(1, BackendCommand::Shutdown, None));
    batch.insert(envelope(2, BackendCommand::RetryReceiver(receiver(1)), None));
    let mut run = BatchRun::new(batch);
    assert_eq!(run.next().map(|item| item.id), Some(1));
    run.shutdown = true;
    assert!(run.next().is_none());
}
