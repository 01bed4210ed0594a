//! Endpoints, the input meter, the PCM bridge, and the capture supervisor.

use openaircast_backend::bridge::{
    pattern_frames, silence_frame, take_samples, FlushAnswer, LiveAction, LiveOffer, PcmBridge, SendOutcome,
    SentAction, ToneRequest, TurnAction, TurnInput, BRIDGE_FRAME_SAMPLES, CAPTURE_CHANNELS,
    CAPTURE_SAMPLE_RATE,
};
use openaircast_backend::capture::{
    action_of, endpoint_query, ladder_delay, resolved_endpoint, sort_endpoints, CaptureControl,
    CaptureDriver, CaptureEffect, CaptureError, CaptureInput, CaptureMoment, CaptureStage,
    CaptureUpdate, ControlAction, EndpointQuery, QueueAnswer, WasapiDeviceRef,
};
use openaircast_backend::event::{DiagnosticPayload, Generations};
use openaircast_backend::meter::CaptureInputMeter;
use openaircast_backend::model::{
    AudioEndpoint, AudioEndpointPreference, AudioSourceSnapshot, AudioSourceState, UserFacingError,
};
use openaircast_backend::time::{Duration, Instant, SystemTime};

const NOW: Instant = Instant { nanos: 5_000_000_000 };

fn moment() -> CaptureMoment {
    CaptureMoment {
        cell: Generations { session: 0, discovery: 0, capture: 0 },
        now: NOW,
        wall: SystemTime { nanos: 0 },
    }
}

fn endpoint(id: &str) -> AudioEndpoint {
    AudioEndpoint { id: id.to_owned(), name: id.to_owned() }
}

fn sent(effects: &[CaptureEffect]) -> Vec<String> {
    let mut names = Vec::new();
    for effect in effects {
        if let CaptureEffect::Send(update) | CaptureEffect::Offer(update) = effect {
            names.push(format!("{update:?}"));
        }
    }
    names
}

#[test]
fn audio_snapshot_distinguishes_silence_from_failed_capture() {
    assert!(matches!(
        AudioSourceSnapshot::silent_system().state,
        AudioSourceState::SilentSystem
    ));
    assert!(matches!(
        AudioSourceSnapshot::recovering(UserFacingError::new("endpoint lost")).state,
        AudioSourceState::Recovering
    ));
}

/// Converts captured samples and feeds their peak to the meter.
fn pcm_frame_from_f32_with_meter(
    samples: Vec<f32>,
    meter: &mut CaptureInputMeter,
    generation: u64,
) -> Vec<i16> {
    let observed = !samples.is_empty();
    let mut peak = 0.0_f32;
    let mut frame = Vec::new();
    for sample in samples {
        let normalized = if sample.is_nan() { 0.0 } else { sample.clamp(-1.0, 1.0) };
        peak = peak.max(normalized.abs());
        frame.push((normalized * 32_767.0) as i16);
    }
    if observed {
        let permille = (peak * 1_000.0).round().clamp(0.0, 1_000.0) as u16;
        meter.record_peak_at(generation, permille, NOW);
    }
    frame
}

#[test]
fn real_pcm_conversion_records_a_finite_clamped_windows_peak() {
    let mut meter = CaptureInputMeter::default();
    meter.begin_generation(7);

    let frame = pcm_frame_from_f32_with_meter(vec![-1.5, -1.0, 0.25, f32::NAN], &mut meter, 7);

    assert_eq!(frame, vec![-32_767, -32_767, 8_191, 0]);
    assert_eq!(meter.take_window_at(7, NOW), Some(1_000));
    assert_eq!(meter.take_window_at(7, NOW), None, "a window is consumed once");
}

#[test]
fn observed_silence_differs_from_no_recent_windows_observation() {
    let mut meter = CaptureInputMeter::default();
    meter.begin_generation(3);

    assert_eq!(meter.take_window_at(3, NOW), None);
    let _ = pcm_frame_from_f32_with_meter(vec![0.0, -0.0], &mut meter, 3);
    assert_eq!(meter.take_window_at(3, NOW), Some(0));
    assert_eq!(meter.take_window_at(3, NOW), None);
}

#[test]
fn a_window_gives_the_largest_capped_peak_of_its_generation() {
    let at = |millis: u64| Instant { nanos: NOW.nanos + millis * 1_000_000 };
    let mut meter = CaptureInputMeter::default();
    meter.begin_generation(5);
    for (generation, peak, millis) in [(5, 300, 0), (5, 700, 100), (4, 990, 200), (5, 650, 900)] {
        meter.record_peak_at(generation, peak, at(millis));
    }
    assert_eq!(meter.take_window_at(5, at(1_000)), Some(700));
    meter.record_peak_at(5, 900, at(1_100));
    meter.record_peak_at(5, 200, at(2_200));
    assert_eq!(meter.take_window_at(5, at(2_300)), Some(200), "the older window was stale");
    meter.record_peak_at(5, 4_000, at(2_400));
    assert_eq!(meter.take_window_at(5, at(2_500)), Some(1_000));
    meter.record_peak_at(5, 10, at(2_600));
    assert_eq!(meter.take_window_at(5, at(3_601)), None);
}

#[test]
fn stale_or_cancelled_capture_generations_cannot_repopulate_the_meter() {
    let mut meter = CaptureInputMeter::default();
    meter.begin_generation(11);
    let _ = pcm_frame_from_f32_with_meter(vec![0.75], &mut meter, 11);

    meter.begin_generation(12);
    let _ = pcm_frame_from_f32_with_meter(vec![1.0], &mut meter, 11);
    assert_eq!(
        meter.take_window_at(12, NOW),
        None,
        "the new generation must not inherit either old observations or late writes"
    );

    let _ = pcm_frame_from_f32_with_meter(vec![0.5], &mut meter, 12);
    assert_eq!(meter.take_window_at(12, NOW), Some(500));
    meter.invalidate_generation(12);
    let _ = pcm_frame_from_f32_with_meter(vec![1.0], &mut meter, 12);
    assert_eq!(meter.take_window_at(12, NOW), None);
}

#[test]
fn stale_windows_input_window_is_not_presented_as_current() {
    let mut meter = CaptureInputMeter::default();
    let observed_at = NOW;
    meter.begin_generation(21);
    meter.record_peak_at(21, 800, observed_at);

    assert_eq!(
        meter.take_window_at(21, observed_at.after(Duration::from_secs(1))),
        Some(800)
    );
    meter.record_peak_at(21, 900, observed_at);
    assert_eq!(
        meter.take_window_at(21, observed_at.after(Duration::from_millis(1_001))),
        None
    );
}

#[test]
fn empty_batches_do_not_fabricate_observed_silence() {
    let mut meter = CaptureInputMeter::default();
    meter.begin_generation(22);

    let frame = pcm_frame_from_f32_with_meter(Vec::new(), &mut meter, 22);

    assert!(frame.is_empty());
    assert_eq!(meter.take_window_at(22, NOW), None);
}

#[test]
fn telemetry_preserves_the_existing_infinity_clamp_semantics() {
    let mut meter = CaptureInputMeter::default();
    meter.begin_generation(23);

    let frame =
        pcm_frame_from_f32_with_meter(vec![f32::NEG_INFINITY, f32::INFINITY], &mut meter, 23);

    assert_eq!(frame, vec![-32_767, 32_767]);
    assert_eq!(meter.take_window_at(23, NOW), Some(1_000));
}

#[test]
fn pcm_drop_payload_reports_the_new_delta_not_the_lifetime_total() {
    let mut bridge = PcmBridge {
        pending_drops: 2,
        in_eviction_run: true,
        last_frame_was_silence: false,
        dropped_total: 9,
        tone: None,
        tone_active: false,
    };

    let payload = bridge.flush_drops(FlushAnswer::Sent);

    assert_eq!(payload, Some(DiagnosticPayload::PcmDrop { dropped: 2 }));
    assert_eq!(bridge.dropped_total, 9);
    assert_eq!(bridge.pending_drops, 0);
}

#[test]
fn a_sustained_eviction_run_publishes_bounded_frame_drop_edges() {
    let mut bridge = PcmBridge::new();
    let mut reports = Vec::new();
    for index in 0..50 {
        let action = bridge.forward(SendOutcome::ReplacedOldest);
        assert_eq!(action == SentAction::Flush, index == 0, "only the leading edge flushes");
        if action == SentAction::Flush {
            reports.push(bridge.flush_drops(FlushAnswer::Sent));
        }
    }
    assert_eq!(bridge.dropped_total, 50);
    assert_eq!(bridge.forward(SendOutcome::Enqueued), SentAction::Flush);
    reports.push(bridge.flush_drops(FlushAnswer::Sent));
    assert_eq!(
        reports,
        vec![
            Some(DiagnosticPayload::PcmDrop { dropped: 1 }),
            Some(DiagnosticPayload::PcmDrop { dropped: 49 }),
        ]
    );
    assert_eq!(bridge.forward(SendOutcome::Disconnected), SentAction::Finish);
}

#[test]
fn a_full_lifecycle_queue_keeps_the_drops_pending() {
    let mut bridge = PcmBridge::new();
    bridge.forward(SendOutcome::ReplacedOldest);
    assert_eq!(bridge.drop_report(), Some(1));
    assert_eq!(
        bridge.flush_drops(FlushAnswer::Full),
        Some(DiagnosticPayload::QueueWatermark { depth: 256, capacity: 256 })
    );
    assert_eq!(bridge.drop_report(), Some(1));
}

#[test]
fn silence_frame_has_the_normalized_layout() {
    let frame = silence_frame();
    assert!(frame.samples.iter().all(|sample| *sample == 0));
    assert_eq!(
        frame.samples.len(),
        CAPTURE_SAMPLE_RATE as usize * CAPTURE_CHANNELS as usize / 20,
        "exactly 50 ms of stereo audio at the normalized rate"
    );
    assert_eq!(frame.sample_rate, CAPTURE_SAMPLE_RATE);
    assert_eq!(frame.channels, CAPTURE_CHANNELS);
}

#[test]
fn patterns_are_cut_into_bridge_frames_without_losing_samples() {
    let pattern: Vec<i16> = (0..BRIDGE_FRAME_SAMPLES * 2 + 10).map(|i| (i % 100) as i16).collect();
    let frames = pattern_frames(&pattern);
    assert_eq!(
        frames.iter().map(|frame| frame.samples.len()).collect::<Vec<_>>(),
        vec![BRIDGE_FRAME_SAMPLES, BRIDGE_FRAME_SAMPLES, 10]
    );
    let mut joined = Vec::new();
    for frame in frames {
        joined.extend(frame.samples);
    }
    assert_eq!(joined, pattern);
    assert!(pattern_frames(&Vec::new()).is_empty());
}

#[test]
fn a_tone_is_paced_preempts_capture_and_frees_its_slot() {
    let mut bridge = PcmBridge::new();
    assert!(bridge.claim_tone(false));
    assert!(!bridge.claim_tone(false), "a second request is refused");
    let turn = |request: Option<ToneRequest>, now: Instant| TurnInput {
        cancelled: false,
        request,
        tone_cancelled: false,
        now,
    };
    let request = ToneRequest { cancelled: false, total: 2_000 };
    assert_eq!(
        bridge.turn(turn(Some(request), NOW)),
        TurnAction::SendTone { start: 0, end: 1_764 }
    );
    bridge.note_tone_sent(NOW);
    assert_eq!(
        bridge.turn(turn(None, NOW)),
        TurnAction::Nap(Duration::from_millis(2)),
        "frames keep twenty milliseconds apart"
    );
    let later = NOW.after(Duration::from_millis(20));
    assert_eq!(
        bridge.turn(turn(None, later)),
        TurnAction::SendTone { start: 1_764, end: 2_000 }
    );
    bridge.note_tone_sent(later);
    assert_eq!(bridge.turn(turn(None, later)), TurnAction::PollLive);
    assert!(bridge.claim_tone(false), "a finished tone frees its slot");
    bridge.release_tone();
    assert!(bridge.claim_tone(false));
}

#[test]
fn a_cancelled_tone_stops_at_once() {
    let mut bridge = PcmBridge::new();
    bridge.claim_tone(false);
    let request = Some(ToneRequest { cancelled: false, total: 9_000 });
    let input = TurnInput { cancelled: false, request, tone_cancelled: false, now: NOW };
    bridge.turn(input);
    let cancelled = TurnInput { request: None, tone_cancelled: true, ..input };
    assert_eq!(bridge.turn(cancelled), TurnAction::Again);
    assert!(bridge.claim_tone(false), "cancellation releases the single request slot");
    let finished = TurnInput { cancelled: true, request: None, ..input };
    assert_eq!(bridge.turn(finished), TurnAction::Finish);
}

#[test]
fn silence_is_announced_once_per_stretch() {
    let mut bridge = PcmBridge::new();
    assert_eq!(
        bridge.offer(LiveOffer::Silent),
        LiveAction::ForwardSilence { announce: true }
    );
    assert_eq!(
        bridge.offer(LiveOffer::Silent),
        LiveAction::ForwardSilence { announce: false }
    );
    assert_eq!(bridge.offer(LiveOffer::Captured), LiveAction::Forward);
    assert_eq!(
        bridge.offer(LiveOffer::Silent),
        LiveAction::ForwardSilence { announce: true }
    );
    assert_eq!(bridge.offer(LiveOffer::Injected), LiveAction::Forward);
    assert_eq!(bridge.offer(LiveOffer::Disconnected), LiveAction::Finish);
}

#[test]
fn system_default_uses_default_render_device() {
    let query = endpoint_query(&AudioEndpointPreference::SystemDefault);
    assert_eq!(query, EndpointQuery::Default);
    let resolved = resolved_endpoint(Ok(WasapiDeviceRef {
        id: "speakers".to_owned(),
        name: "Speakers".to_owned(),
    }))
    .unwrap();
    assert_eq!(resolved.id, "speakers");
    assert_eq!(resolved.name, "Speakers");
}

#[test]
fn an_explicit_endpoint_is_asked_for_by_id_and_never_falls_back() {
    let preference = AudioEndpointPreference::Explicit {
        id: "chosen".to_owned(),
        last_known_name: "Chosen".to_owned(),
    };
    assert_eq!(endpoint_query(&preference), EndpointQuery::ById("chosen".to_owned()));
    let missing = CaptureError::Endpoints("gone".to_owned());
    assert!(resolved_endpoint(Err(missing)).is_err());
}

#[test]
fn enumerated_endpoints_sort_case_insensitively_with_id_tiebreak() {
    let mut endpoints = vec![
        AudioEndpoint { id: "b".into(), name: "beta".into() },
        AudioEndpoint { id: "A".into(), name: "Alpha".into() },
        AudioEndpoint { id: "a".into(), name: "alpha".into() },
    ];
    sort_endpoints(&mut endpoints);
    let ids: Vec<&str> = endpoints.iter().map(|endpoint| endpoint.id.as_str()).collect();
    assert_eq!(ids, vec!["A", "a", "b"]);
}

#[test]
fn endpoints_are_listed_alike_in_every_enumeration_order() {
    let named = |id: &str, name: &str| AudioEndpoint { id: id.into(), name: name.into() };
    let all = [named("2", "DAC"), named("1", "dac"), named("3", "Amp")];
    for order in [[0, 1, 2], [0, 2, 1], [1, 0, 2], [1, 2, 0], [2, 0, 1], [2, 1, 0]] {
        let mut endpoints: Vec<AudioEndpoint> = order.iter().map(|at| all[*at].clone()).collect();
        sort_endpoints(&mut endpoints);
        let ids: Vec<&str> = endpoints.iter().map(|endpoint| endpoint.id.as_str()).collect();
        assert_eq!(ids, vec!["3", "1", "2"], "{order:?}");
    }
}

#[test]
fn a_closed_control_channel_reads_as_stop() {
    assert_eq!(action_of(None), ControlAction::Stop);
    assert_eq!(action_of(Some(CaptureControl::Stop)), ControlAction::Stop);
}

#[test]
fn a_worker_becomes_ready_and_a_failure_climbs_the_ladder() {
    let mut driver = CaptureDriver::new();
    let started = driver.step(moment(), CaptureInput::Proceed);
    assert_eq!(driver.capture_generation(), 1);
    assert!(sent(&started)[0].starts_with("Started"), "{started:?}");
    driver.step(moment(), CaptureInput::Queue(QueueAnswer::Sent));
    assert_eq!(driver.stage(), CaptureStage::Opening);
    driver.step(moment(), CaptureInput::Opened(Ok(())));
    let ready = driver.step(moment(), CaptureInput::Ready(Some(endpoint("speakers"))));
    assert!(sent(&ready).iter().any(|update| update.starts_with("Ready")), "{ready:?}");
    driver.step(moment(), CaptureInput::Queue(QueueAnswer::Sent));
    assert_eq!(driver.stage(), CaptureStage::Running);
    assert_eq!(driver.snapshot(Vec::new()).state, AudioSourceState::Capturing);

    let failed = driver.step(
        moment(),
        CaptureInput::Ended {
            outcome: Some(Err(CaptureError::Worker("lost".to_owned()))),
            endpoint_change_pending: false,
        },
    );
    assert!(sent(&failed).iter().any(|update| update.starts_with("Recovering")), "{failed:?}");
    driver.step(moment(), CaptureInput::Queue(QueueAnswer::Sent));
    assert_eq!(driver.stage(), CaptureStage::Climbing { delay: ladder_delay(0) });
    driver.step(moment(), CaptureInput::Elapsed);
    assert_eq!(driver.capture_generation(), 2, "the next attempt is a new generation");
}

/// The updates among the effects of a step.
fn updates(effects: &[CaptureEffect]) -> Vec<&CaptureUpdate> {
    effects
        .iter()
        .filter_map(|effect| match effect {
            CaptureEffect::Send(update) | CaptureEffect::Offer(update) => Some(update),
            _ => None,
        })
        .collect()
}

#[test]
fn suspend_names_the_cancelled_generation_and_resume_mints_a_fresh_one() {
    let mut driver = CaptureDriver::new();
    let started = driver.step(moment(), CaptureInput::Proceed);
    assert!(matches!(
        updates(&started)[..],
        [CaptureUpdate::Started { decoder_generation: 1, capture_generation: 1 }]
    ));
    driver.step(moment(), CaptureInput::Queue(QueueAnswer::Sent));
    driver.step(moment(), CaptureInput::Opened(Ok(())));
    let ready = driver.step(moment(), CaptureInput::Ready(Some(endpoint("endpoint-0A"))));
    assert!(matches!(updates(&ready)[..], [CaptureUpdate::Ready { capture_generation: 1, .. }]));
    driver.step(moment(), CaptureInput::Queue(QueueAnswer::Sent));

    let suspended = driver.step(moment(), CaptureInput::Control(Some(CaptureControl::Suspend)));
    match updates(&suspended)[..] {
        [CaptureUpdate::Suspended { decoder_generation, capture_generation }] => {
            assert_eq!(*decoder_generation, 1, "the decoder pair was replaced");
            assert_eq!(
                *capture_generation, 1,
                "`Suspended` named a generation other than the cancelled one"
            );
        }
        ref other => panic!("expected a suspend edge, got {other:?}"),
    }
    assert_eq!(driver.stage(), CaptureStage::Suspended);

    let resumed = driver.step(moment(), CaptureInput::Control(Some(CaptureControl::Resume)));
    match updates(&resumed)[..] {
        [CaptureUpdate::Started { decoder_generation, capture_generation }] => {
            assert_eq!(*decoder_generation, 1, "the decoder pair was replaced");
            assert_eq!(
                *capture_generation, 2,
                "the resume reused an already-spent capture generation"
            );
        }
        ref other => panic!("expected a fresh capture generation, got {other:?}"),
    }
    driver.step(moment(), CaptureInput::Queue(QueueAnswer::Sent));
    driver.step(moment(), CaptureInput::Opened(Ok(())));
    let ready = driver.step(moment(), CaptureInput::Ready(Some(endpoint("endpoint-0B"))));
    assert!(matches!(updates(&ready)[..], [CaptureUpdate::Ready { capture_generation: 2, .. }]));
    assert_eq!(driver.capture_generation(), 2);
}

#[test]
fn a_suspend_during_the_open_still_names_its_own_generation() {
    let mut driver = CaptureDriver::new();
    driver.step(moment(), CaptureInput::Proceed);
    driver.step(moment(), CaptureInput::Queue(QueueAnswer::Sent));
    driver.step(moment(), CaptureInput::Opened(Ok(())));
    assert_eq!(driver.stage(), CaptureStage::Readying);
    let suspended = driver.step(moment(), CaptureInput::Control(Some(CaptureControl::Suspend)));
    assert!(
        matches!(updates(&suspended)[..], [CaptureUpdate::Suspended { capture_generation: 1, .. }]),
        "`Suspended` named a generation other than the cancelled one"
    );
    let resumed = driver.step(moment(), CaptureInput::Control(Some(CaptureControl::Resume)));
    assert!(
        matches!(updates(&resumed)[..], [CaptureUpdate::Started { capture_generation: 2, .. }]),
        "the resume reused an already-spent capture generation"
    );
}

#[test]
fn a_long_run_starts_generations_in_order_and_names_the_latest() {
    let mut driver = CaptureDriver::new();
    let mut run: Vec<String> = Vec::new();
    let lost = || CaptureInput::Ended {
        outcome: Some(Err(CaptureError::Worker("lost".to_owned()))),
        endpoint_change_pending: false,
    };
    let inputs = vec![
        CaptureInput::Proceed,
        CaptureInput::Queue(QueueAnswer::Overloaded),
        CaptureInput::Proceed,
        CaptureInput::Queue(QueueAnswer::Sent),
        CaptureInput::Opened(Ok(())),
        CaptureInput::Ready(Some(endpoint("speakers"))),
        CaptureInput::Queue(QueueAnswer::Sent),
        lost(),
        CaptureInput::Queue(QueueAnswer::Sent),
        CaptureInput::Control(Some(CaptureControl::Suspend)),
        CaptureInput::Elapsed,
        CaptureInput::Control(Some(CaptureControl::Resume)),
        CaptureInput::Queue(QueueAnswer::Sent),
        CaptureInput::Control(Some(CaptureControl::RequestEndpointChange)),
        CaptureInput::Queue(QueueAnswer::Sent),
        CaptureInput::Control(Some(CaptureControl::Stop)),
    ];
    for input in inputs {
        let effects = driver.step(moment(), input);
        for update in updates(&effects) {
            run.push(match update {
                CaptureUpdate::Started { decoder_generation, capture_generation } => {
                    format!("started {decoder_generation}/{capture_generation}")
                }
                CaptureUpdate::Ready { decoder_generation, capture_generation, .. } => {
                    format!("ready {decoder_generation}/{capture_generation}")
                }
                CaptureUpdate::Recovering { decoder_generation, capture_generation, .. } => {
                    format!("recovering {decoder_generation}/{capture_generation}")
                }
                CaptureUpdate::Suspended { decoder_generation, capture_generation } => {
                    format!("suspended {decoder_generation}/{capture_generation}")
                }
                CaptureUpdate::Stopped { decoder_generation } => {
                    format!("stopped {decoder_generation}")
                }
                other => panic!("unexpected update {other:?}"),
            });
        }
    }
    assert_eq!(
        run,
        [
            "started 1/1",
            "started 1/2",
            "ready 1/2",
            "recovering 1/2",
            "suspended 1/2",
            "started 1/3",
            "started 1/4",
            "stopped 1",
        ]
    );
}

#[test]
fn telemetry_is_only_sampled_while_capturing() {
    let mut driver = CaptureDriver::new();
    let mut meter = CaptureInputMeter::default();
    driver.step(moment(), CaptureInput::Proceed);
    meter.begin_generation(1);
    meter.record_peak_at(1, 400, NOW);
    assert_eq!(driver.take_input_telemetry(&mut meter, NOW, 3), (None, 3));
    meter.record_peak_at(1, 625, NOW);
    driver.step(moment(), CaptureInput::Queue(QueueAnswer::Sent));
    driver.step(moment(), CaptureInput::Opened(Ok(())));
    driver.step(moment(), CaptureInput::Ready(Some(endpoint("speakers"))));
    driver.step(moment(), CaptureInput::Queue(QueueAnswer::Sent));
    assert_eq!(driver.take_input_telemetry(&mut meter, NOW, 4), (Some(625), 4));
}

#[test]
fn capture_errors_are_rendered() {
    assert_eq!(
        openaircast_backend::capture::worker_error("starting the stream", "busy"),
        CaptureError::Worker("starting the stream: busy".to_owned())
    );
    assert_eq!(
        openaircast_backend::capture::endpoints_error("listing", "denied"),
        CaptureError::Endpoints("listing: denied".to_owned())
    );
}

#[test]
fn the_ladder_grows_and_saturates() {
    let steps: Vec<u64> = (0..7).map(|step| ladder_delay(step).nanos / 1_000_000_000).collect();
    assert_eq!(steps.len(), 7);
    for pair in steps.windows(2) {
        assert!(pair[0] <= pair[1]);
    }
    assert_eq!(ladder_delay(4), ladder_delay(400));
}

#[test]
fn complete_frames_are_taken_and_a_partial_one_waits() {
    let mut queue: Vec<u8> = Vec::new();
    for sample in [0.5_f32, -0.25, 1.0] {
        queue.extend(sample.to_le_bytes());
    }
    queue.push(7);
    let samples = take_samples(&mut queue);
    assert_eq!(samples, vec![0.5_f32.to_bits(), (-0.25_f32).to_bits()]);
    let mut rest = 1.0_f32.to_le_bytes().to_vec();
    rest.push(7);
    assert_eq!(queue, rest);
    assert!(take_samples(&mut queue).is_empty());
}
