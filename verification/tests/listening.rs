//! The listening test: its guard, its tone, and its place in the bridge.

use openaircast_backend::ids::ReceiverId;
use openaircast_backend::listening_check::ListeningTestGuard;
use openaircast_backend::listening_tone::{
    fade_steps, spread_over_channels, tone_frames, LISTENING_TONE_FADE_SAMPLES,
};
use openaircast_backend::model::{
    AudioEndpoint, AudioSourceState, DeviceSnapshot, RunIntent, SessionPhase, Volume,
};

const SAMPLE_RATE: usize = 44_100;
const CHANNELS: usize = 2;

fn volume(value: f32) -> Volume {
    Volume::new(value.to_bits()).unwrap()
}

fn active() -> DeviceSnapshot {
    let mut s = DeviceSnapshot::default();
    let id = ReceiverId::from_bytes([1; 6]);
    s.run_intent = RunIntent::Running;
    s.master_volume = volume(0.1);
    s.desired_members.insert(id);
    s.session.active.insert(id);
    s.session.phase = SessionPhase::Streaming { generation: 7 };
    s.audio_source.state = AudioSourceState::SilentSystem;
    s
}

fn drop_first(s: &mut DeviceSnapshot, session: bool) {
    let id = ReceiverId::from_bytes([1; 6]);
    if session {
        s.session.active.remove(id);
    } else {
        s.desired_members.remove(id);
    }
}

#[test]
fn listening_test_guard_accepts_silent_source_but_rejects_unsafe_or_changed_sessions() {
    let s = active();
    let guard = ListeningTestGuard::capture(&s)
        .expect("silent Windows does not prevent generated audio");
    assert!(guard.matches(&s));
    assert_eq!(guard.generation(), 7);
    let changes: Vec<fn(&mut DeviceSnapshot)> = vec![
        |s: &mut DeviceSnapshot| s.run_intent = RunIntent::Stopped,
        |s: &mut DeviceSnapshot| s.session.phase = SessionPhase::Streaming { generation: 8 },
        |s: &mut DeviceSnapshot| s.session.phase = SessionPhase::Stopping { generation: 7 },
        |s: &mut DeviceSnapshot| drop_first(s, true),
        |s: &mut DeviceSnapshot| drop_first(s, false),
        |s: &mut DeviceSnapshot| s.muted = true,
        |s: &mut DeviceSnapshot| s.master_volume = volume(0.2),
        |s: &mut DeviceSnapshot| s.master_volume = volume(0.12),
        |s: &mut DeviceSnapshot| s.receiver_levels.insert(ReceiverId::from_bytes([1; 6]), Volume::muted()),
        |s: &mut DeviceSnapshot| {
            s.audio_source.captured_endpoint = Some(AudioEndpoint {
                id: "changed".into(),
                name: "same".into(),
            })
        },
        |s: &mut DeviceSnapshot| s.audio_source.state = AudioSourceState::Unavailable,
    ];
    for change in changes {
        let mut changed = s.clone();
        change(&mut changed);
        assert!(!guard.matches(&changed), "any changed binding must cancel the tone");
    }
    for level in [0.0_f32, 0.16, 1.0] {
        let mut unsafe_state = active();
        unsafe_state.master_volume = volume(level);
        assert!(ListeningTestGuard::capture(&unsafe_state).is_none());
    }
}

#[test]
fn a_guard_is_rendered_without_device_identities() {
    let guard = ListeningTestGuard::capture(&active()).expect("a low, live configuration");
    assert_eq!(guard.describe(), "ListeningTestGuard { generation: 7, receivers: 1, .. }");
    assert_eq!(format!("{guard:?}"), guard.describe());
}

/// Samples the waveform and shapes it as the library prescribes.
fn generate_listening_tone() -> Vec<i16> {
    let mut mono = Vec::new();
    for index in 0..tone_frames() {
        let envelope = fade_steps(index) as f64 / LISTENING_TONE_FADE_SAMPLES as f64;
        let phase = std::f64::consts::TAU * 660.0 * index as f64 / SAMPLE_RATE as f64;
        mono.push((phase.sin() * 8_192.0 * envelope).round() as i16);
    }
    spread_over_channels(&mono)
}

#[test]
fn generated_tone_is_finite_bounded_stereo_and_near_660_hz() {
    let samples = generate_listening_tone();

    assert_eq!(samples.len(), SAMPLE_RATE * CHANNELS * 2);
    assert!(samples.iter().any(|sample| *sample != 0));
    assert!(samples.iter().all(|sample| sample.unsigned_abs() <= 8_192));
    assert!(samples.chunks_exact(2).all(|pair| pair[0] == pair[1]));

    let positive_crossings = samples
        .chunks_exact(2)
        .map(|pair| pair[0])
        .collect::<Vec<_>>()
        .windows(2)
        .filter(|pair| pair[0] <= 0 && pair[1] > 0)
        .count();
    assert!(
        (1_318..=1_322).contains(&positive_crossings),
        "two seconds at about 660 Hz should have about 1,320 positive crossings, got {positive_crossings}"
    );
}

#[test]
fn generated_tone_fades_in_and_out() {
    let samples = generate_listening_tone();
    let left = samples.chunks_exact(2).map(|pair| pair[0]).collect::<Vec<_>>();
    let peak = |range: std::ops::Range<usize>| {
        left[range].iter().map(|sample| sample.unsigned_abs()).max().unwrap()
    };

    assert_eq!(left[0], 0);
    assert_eq!(left[SAMPLE_RATE * 2 - 1], 0);
    assert!(peak(0..220) < 2_000, "the first 5 ms must be faded in");
    assert!(
        peak(SAMPLE_RATE - 220..SAMPLE_RATE + 220) > 7_500,
        "the middle of the tone must reach its useful listening level"
    );
    assert!(
        peak(SAMPLE_RATE * 2 - 220..SAMPLE_RATE * 2) < 2_000,
        "the final 5 ms must be faded out"
    );
    assert_eq!(fade_steps(0), 0);
    assert_eq!(fade_steps(500), 500);
    assert_eq!(fade_steps(SAMPLE_RATE), 1_103);
    assert_eq!(fade_steps(SAMPLE_RATE * 2 - 1), 0);
}
