//! The discovery inventory and its supervisor.

use openaircast_backend::discovery::{
    is_castable, on_control, redact_discovery_error, BrowseEvent, Device, DiscoveryControl, DiscoveryDriver,
    DiscoveryEffect, DiscoveryInput, DiscoveryStage, DiscoveryState, DiscoveryUpdate,
    GenerationExit, QueueAnswer, ServiceAddress,
};
use openaircast_backend::event::Generations;
use openaircast_backend::ids::ReceiverId;
use openaircast_backend::model::{
    DiscoveryPhase, DiscoverySnapshot, ReceiverLifecycle, UserFacingError,
};
use openaircast_backend::recovery::RetryPolicy;
use openaircast_backend::time::{Instant, SystemTime};

const CELL: Generations = Generations { session: 0, discovery: 0, capture: 0 };

fn receiver(seed: u8) -> ReceiverId {
    ReceiverId::from_bytes([0, 0, 0, 0, 0, seed])
}

fn device(seed: u8) -> Device {
    Device {
        id: receiver(seed),
        name: format!("Speaker {seed}"),
        model: "AudioAccessory5,1".to_owned(),
        supports_airplay2: true,
        address: Some(ServiceAddress::V4 { bits: 0xC0A8_010A, port: 7000 }),
        properties: Vec::new(),
    }
}

fn added(seed: u8) -> BrowseEvent {
    BrowseEvent::Added(device(seed))
}

fn removed(seed: u8) -> BrowseEvent {
    BrowseEvent::Removed(receiver(seed))
}

fn sends(effects: &[DiscoveryEffect]) -> Vec<&DiscoveryUpdate> {
    let mut updates = Vec::new();
    for effect in effects {
        if let DiscoveryEffect::Send(update) = effect {
            updates.push(update);
        }
    }
    updates
}

#[test]
fn old_generation_update_cannot_change_inventory() {
    let mut state = DiscoveryState::at_generation(2);
    assert!(!state.apply_update(&DiscoveryUpdate::Receiver { generation: 1, event: added(1) }));
    assert!(state.receivers().is_empty());
}

#[test]
fn empty_running_discovery_differs_from_failed_discovery() {
    assert!(matches!(
        DiscoverySnapshot::running_empty().phase,
        DiscoveryPhase::Running
    ));
    assert!(matches!(
        DiscoverySnapshot::failed(2, SystemTime::unix_epoch()).phase,
        DiscoveryPhase::Retrying { attempt: 2, .. }
    ));
}

#[test]
fn removed_event_marks_known_receiver_unavailable_but_retained() {
    let mut state = DiscoveryState::at_generation(1);
    assert!(state.apply_update(&DiscoveryUpdate::Receiver { generation: 1, event: added(4) }));
    assert!(state.apply_update(&DiscoveryUpdate::Receiver { generation: 1, event: removed(4) }));
    let receivers = state.receivers();
    assert_eq!(receivers.len(), 1);
    assert!(matches!(receivers[0].lifecycle, ReceiverLifecycle::Unavailable));
}

#[test]
fn a_receiver_is_castable_only_with_airplay2_over_ipv4() {
    assert!(is_castable(&device(1)));
    assert!(!is_castable(&Device { supports_airplay2: false, ..device(1) }));
    assert!(!is_castable(&Device { address: None, ..device(1) }));
    let v6 = ServiceAddress::V6 { bits: 0xFE80 << 112 | 1, port: 7000 };
    assert!(!is_castable(&Device { address: Some(v6), ..device(1) }));
}

/// Fails the browse of the driver's current generation and returns the report.
fn fail_browse(driver: &mut DiscoveryDriver) -> Vec<DiscoveryEffect> {
    driver.step(CELL, DiscoveryInput::Queue(QueueAnswer::Sent));
    assert_eq!(driver.stage(), DiscoveryStage::Opening);
    driver.step(
        CELL,
        DiscoveryInput::Failed {
            error: UserFacingError::new("daemon gone"),
            now: Instant { nanos: 0 },
            wall: SystemTime { nanos: 0 },
        },
    )
}

#[test]
fn generation_increments_per_daemon_recreation() {
    let mut driver = DiscoveryDriver::new(RetryPolicy::default());
    let mut effects = driver.step(CELL, DiscoveryInput::Proceed);
    for generation in 1..=2_u64 {
        assert_eq!(sends(&effects), vec![&DiscoveryUpdate::Started { generation }]);
        assert!(
            effects
                .iter()
                .any(|effect| matches!(effect, DiscoveryEffect::PublishGeneration(g) if *g == generation)),
            "the shared counter carries the generation from the instant it exists"
        );
        let failed = fail_browse(&mut driver);
        match sends(&failed)[..] {
            [DiscoveryUpdate::Failed { generation: reported, .. }] => {
                assert_eq!(*reported, generation, "browse failure reports Failed before retrying");
            }
            ref other => panic!("expected one failure report, got {other:?}"),
        }
        driver.step(CELL, DiscoveryInput::Queue(QueueAnswer::Sent));
        assert!(matches!(driver.stage(), DiscoveryStage::BackingOff { .. }));
        effects = driver.step(CELL, DiscoveryInput::Elapsed);
    }
    assert_eq!(sends(&effects), vec![&DiscoveryUpdate::Started { generation: 3 }]);
    assert_eq!(driver.state().snapshot().generation, 3);
}

#[test]
fn a_browse_event_is_forwarded_as_it_came() {
    let mut driver = DiscoveryDriver::new(RetryPolicy::default());
    driver.step(CELL, DiscoveryInput::Proceed);
    driver.step(CELL, DiscoveryInput::Queue(QueueAnswer::Sent));
    driver.step(CELL, DiscoveryInput::Opened);
    let events: Vec<fn() -> BrowseEvent> = vec![
        || BrowseEvent::Added(device(4)),
        || BrowseEvent::Updated(device(4)),
        || BrowseEvent::Removed(receiver(4)),
    ];
    for event in events {
        let effects = driver.step(CELL, DiscoveryInput::Browsed(event()));
        let expected = DiscoveryUpdate::Receiver { generation: 1, event: event() };
        assert_eq!(sends(&effects), vec![&expected]);
        driver.step(CELL, DiscoveryInput::Queue(QueueAnswer::Sent));
    }
}

#[test]
fn a_network_change_settles_before_a_fresh_generation() {
    let mut driver = DiscoveryDriver::new(RetryPolicy::default());
    driver.step(CELL, DiscoveryInput::Proceed);
    driver.step(CELL, DiscoveryInput::Queue(QueueAnswer::Sent));
    driver.step(CELL, DiscoveryInput::Opened);
    driver.step(CELL, DiscoveryInput::Browsed(added(4)));
    driver.step(CELL, DiscoveryInput::Queue(QueueAnswer::Sent));
    assert_eq!(driver.state().receivers().len(), 1);
    let effects = driver.step(
        CELL,
        DiscoveryInput::Control(Some(DiscoveryControl::RestartAfterNetworkChange)),
    );
    assert!(effects.iter().any(|effect| matches!(effect, DiscoveryEffect::CancelChild)));
    assert_eq!(driver.stage(), DiscoveryStage::Settling);
    let rows = driver.state().receivers();
    assert_eq!(rows.len(), 1, "known receivers stay listed");
    assert!(matches!(rows[0].lifecycle, ReceiverLifecycle::Unavailable));
}

#[test]
fn shutdown_and_a_closed_control_channel_stop_discovery() {
    assert_eq!(on_control(Some(DiscoveryControl::Shutdown)), on_control(None));
    assert_ne!(
        on_control(Some(DiscoveryControl::RestartAfterNetworkChange)),
        on_control(None)
    );
    assert!(matches!(on_control(None), GenerationExit::Shutdown));
    let mut driver = DiscoveryDriver::new(RetryPolicy::default());
    driver.step(CELL, DiscoveryInput::Proceed);
    driver.step(CELL, DiscoveryInput::Queue(QueueAnswer::Sent));
    driver.step(CELL, DiscoveryInput::Opened);
    driver.step(CELL, DiscoveryInput::Control(None));
    assert_eq!(driver.stage(), DiscoveryStage::Stopped);
    assert_eq!(driver.state().snapshot().phase, DiscoveryPhase::Stopped);
}

#[test]
fn browse_failures_are_summarized() {
    assert_eq!(
        redact_discovery_error("socket closed").as_str(),
        "mDNS discovery failed: socket closed"
    );
}
