//! Diagnostic payload kinds, the diagnostic feed, and shared counters.

use openaircast_backend::event::{
    category_of_kind, recv_result, try_recv_result, DiagnosticCategory, DiagnosticDraft,
    DiagnosticEvent, DiagnosticKind, DiagnosticPayload, DiagnosticRecvError,
    DiagnosticTryRecvError, FeedAnswer, GenerationCell, Generations, Severity,
};
use openaircast_backend::ids::ReceiverId;
use openaircast_backend::model::{
    AudioSourceState, DiscoveryPhase, PersistenceSnapshot, ReceiverLifecycle, RestartReason,
    SessionPhase, SetupPhase,
};
use openaircast_backend::time::{Duration, SystemTime};

fn receiver(seed: u8) -> ReceiverId {
    ReceiverId::from_storage_key(&format!("0000000000{seed:02X}"))
        .expect("fixed seed forms a valid storage key")
}

fn diagnostic(payload: DiagnosticPayload) -> DiagnosticEvent {
    DiagnosticEvent {
        monotonic_ns: 0,
        wall_time: SystemTime::unix_epoch(),
        session_generation: 0,
        discovery_generation: 0,
        capture_generation: 0,
        receiver: None,
        severity: Severity::Info,
        category: category_of_kind(payload.kind()),
        payload,
    }
}

#[test]
fn diagnostic_debug_output_contains_no_secret_fields() {
    let mut event = diagnostic(DiagnosticPayload::Probe { healthy: false, latency_ms: 2_000 });
    event.receiver = Some(receiver(1));
    let rendered = format!("{event:?}");
    assert!(!rendered.contains("pin"));
    assert!(!rendered.contains("key"));
    assert!(!rendered.contains("payload_bytes"));
}

#[test]
fn payload_kind_maps_every_variant_without_wildcard() {
    let samples: Vec<(DiagnosticPayload, DiagnosticKind)> = vec![
        (DiagnosticPayload::Message("ok".into()), DiagnosticKind::Message),
        (
            DiagnosticPayload::DiscoveryGeneration { generation: 1, phase: DiscoveryPhase::Running },
            DiagnosticKind::DiscoveryGeneration,
        ),
        (
            DiagnosticPayload::DiscoveryReceiver { receiver: receiver(1), present: true },
            DiagnosticKind::DiscoveryReceiver,
        ),
        (
            DiagnosticPayload::CommandResult { id: 1, error: None },
            DiagnosticKind::CommandResult,
        ),
        (
            DiagnosticPayload::CommandCoalesced { dropped: 2 },
            DiagnosticKind::CommandCoalesced,
        ),
        (
            DiagnosticPayload::ReceiverTransition {
                receiver: receiver(1),
                to: ReceiverLifecycle::Discovered,
            },
            DiagnosticKind::ReceiverTransition,
        ),
        (
            DiagnosticPayload::SetupPhaseDuration {
                receiver: receiver(1),
                phase: SetupPhase::Pair,
                duration: Duration::from_millis(5),
            },
            DiagnosticKind::SetupPhaseDuration,
        ),
        (
            DiagnosticPayload::SessionTransition { phase: SessionPhase::Stopped, active_members: 0 },
            DiagnosticKind::SessionTransition,
        ),
        (
            DiagnosticPayload::SessionRestart {
                generation: 1,
                reason: RestartReason::MembershipChange,
            },
            DiagnosticKind::SessionRestart,
        ),
        (
            DiagnosticPayload::Retry {
                receiver: None,
                attempt: 1,
                next_at: SystemTime::unix_epoch(),
            },
            DiagnosticKind::Retry,
        ),
        (
            DiagnosticPayload::CaptureTransition { state: AudioSourceState::Capturing },
            DiagnosticKind::CaptureTransition,
        ),
        (DiagnosticPayload::PcmDrop { dropped: 3 }, DiagnosticKind::PcmDrop),
        (
            DiagnosticPayload::SilenceBridge { duration: Duration::from_millis(10) },
            DiagnosticKind::SilenceBridge,
        ),
        (
            DiagnosticPayload::Probe { healthy: true, latency_ms: 4 },
            DiagnosticKind::Probe,
        ),
        (
            DiagnosticPayload::Persistence { outcome: PersistenceSnapshot::Healthy },
            DiagnosticKind::Persistence,
        ),
        (
            DiagnosticPayload::QueueWatermark { depth: 8, capacity: 64 },
            DiagnosticKind::QueueWatermark,
        ),
        (DiagnosticPayload::QueueLag { dropped: 9 }, DiagnosticKind::QueueLag),
        (
            DiagnosticPayload::WorkerShutdown {
                duration: Duration::from_millis(12),
                timed_out: false,
            },
            DiagnosticKind::WorkerShutdown,
        ),
    ];
    assert_eq!(samples.len(), 18);
    for (payload, expected) in samples {
        assert_eq!(payload.kind(), expected, "kind mapping drifted for {expected:?}");
    }
}

#[test]
fn diagnostic_lag_becomes_a_typed_loss_event() {
    let gap = try_recv_result(FeedAnswer::Lagged(1), 5, SystemTime::unix_epoch()).unwrap();
    assert_eq!(gap.payload, DiagnosticPayload::QueueLag { dropped: 1 });
    assert_eq!(gap.severity, Severity::Warning);
    assert_eq!(gap.category, DiagnosticCategory::Queue);
    assert_eq!(gap.receiver, None);
    assert_eq!(gap.session_generation, 0);
    assert_eq!(gap.discovery_generation, 0);
    assert_eq!(gap.capture_generation, 0);
    assert_eq!(
        recv_result(FeedAnswer::Lagged(1), 5, SystemTime::unix_epoch()),
        Some(Ok(gap)),
        "both receive paths report the same loss"
    );
}

#[test]
fn closed_and_empty_feeds_are_told_apart() {
    let epoch = SystemTime::unix_epoch();
    assert_eq!(
        try_recv_result(FeedAnswer::Empty, 0, epoch),
        Err(DiagnosticTryRecvError::Empty)
    );
    assert_eq!(
        try_recv_result(FeedAnswer::Closed, 0, epoch),
        Err(DiagnosticTryRecvError::Closed)
    );
    assert_eq!(recv_result(FeedAnswer::Empty, 0, epoch), None);
    assert_eq!(
        recv_result(FeedAnswer::Closed, 0, epoch),
        Some(Err(DiagnosticRecvError::Closed))
    );
    let event = diagnostic(DiagnosticPayload::Message("one".into()));
    assert_eq!(
        try_recv_result(
            FeedAnswer::Event(diagnostic(DiagnosticPayload::Message("one".into()))),
            0,
            epoch
        ),
        Ok(event)
    );
    assert_eq!(DiagnosticTryRecvError::Empty.to_string(), "no diagnostic event available");
    assert_eq!(DiagnosticRecvError::Closed.to_string(), "diagnostic feed is closed");
}

#[test]
fn drafts_are_stamped_with_the_generations_they_were_written_under() {
    let draft = DiagnosticDraft {
        generations: Generations { session: 3, discovery: 4, capture: 5 },
        receiver: Some(receiver(2)),
        severity: Severity::Error,
        category: DiagnosticCategory::General,
        payload: DiagnosticPayload::Message("x".into()),
    };
    let event = draft.stamp(77, SystemTime { nanos: 9 });
    assert_eq!(event.monotonic_ns, 77);
    assert_eq!(event.wall_time, SystemTime { nanos: 9 });
    assert_eq!(event.session_generation, 3);
    assert_eq!(event.discovery_generation, 4);
    assert_eq!(event.capture_generation, 5);
    assert_eq!(event.receiver, Some(receiver(2)));
}

#[test]
fn each_owner_publishes_only_its_own_counters() {
    let mut cell = GenerationCell::new();
    cell.publish_discovery(9);
    cell.publish_controller(Generations { session: 2, discovery: 1, capture: 3 });
    assert_eq!(cell.get(), Generations { session: 2, discovery: 9, capture: 3 });
}
