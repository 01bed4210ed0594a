//! Receiver identities, volumes, snapshot ordering, and latency presets.

use openaircast_backend::idmap::{IdMap, IdSet};
use openaircast_backend::ids::{ModelError, ReceiverId};
use openaircast_backend::model::{
    AudioSourceSnapshot, CommandFailure, CommandOutcomes, DeviceSnapshot, LatencyConfig,
    LatencyPreset, ReceiverLifecycle, ReceiverSnapshot, SavedGroupId, SavedGroupSnapshot,
    UserFacingError, Volume, RETAINED_OUTCOMES,
};
use openaircast_backend::text::{decimal, eq_ignore_ascii_case, is_text_before, trim};

fn receiver_id(seed: u8) -> ReceiverId {
    ReceiverId::from_storage_key(&format!("0000000000{seed:02X}")).unwrap()
}

fn receiver_snapshot(seed: u8, name: &str) -> ReceiverSnapshot {
    ReceiverSnapshot {
        id: receiver_id(seed),
        name: name.to_owned(),
        model: String::new(),
        lifecycle: ReceiverLifecycle::Discovered,
    }
}

fn saved_group_snapshot(seed: u8, name: &str) -> SavedGroupSnapshot {
    SavedGroupSnapshot {
        id: SavedGroupId::from_uuid(u128::from(seed)),
        name: name.to_owned(),
        members: Vec::new(),
    }
}

fn volume(value: f32) -> Volume {
    Volume::new(value.to_bits()).unwrap()
}

#[test]
fn receiver_id_has_stable_storage_and_display_forms() {
    let id = ReceiverId::from_storage_key("5855CA1AE288").unwrap();
    assert_eq!(id.storage_key(), "5855CA1AE288");
    assert_eq!(id.to_string(), "58:55:CA:1A:E2:88");
    assert!(ReceiverId::from_storage_key("58:55:CA:1A:E2:88").is_err());
    assert!(ReceiverId::from_storage_key("5855CA1AE28Z").is_err());
}

#[test]
fn receiver_id_rejects_lowercase_wrong_length_and_empty_input() {
    assert!(ReceiverId::from_storage_key("5855ca1ae288").is_err());
    assert!(ReceiverId::from_storage_key("5855CA1AE28").is_err());
    assert!(ReceiverId::from_storage_key("5855CA1AE2880").is_err());
    assert!(ReceiverId::from_storage_key("").is_err());
}

#[test]
fn a_rejected_identity_names_the_offending_text() {
    assert_eq!(
        ReceiverId::from_storage_key("nope"),
        Err(ModelError::InvalidReceiverId("nope".to_owned()))
    );
}

#[test]
fn receiver_id_json_round_trip_preserves_identity() {
    let id = ReceiverId::from_storage_key("5855CA1AE288").unwrap();
    let json = serde_json::to_string(&id.storage_key()).unwrap();
    assert_eq!(json, "\"5855CA1AE288\"");
    let decoded = ReceiverId::from_storage_key(&serde_json::from_str::<String>(&json).unwrap());
    assert_eq!(decoded, Ok(id));
    let lowercase = serde_json::from_str::<String>("\"5855ca1ae288\"").unwrap();
    assert!(ReceiverId::from_storage_key(&lowercase).is_err());
}

#[test]
fn receiver_id_converts_losslessly_to_device_id() {
    let bytes = [0x58_u8, 0x55, 0xCA, 0x1A, 0xE2, 0x88];
    let id = ReceiverId::from_bytes(bytes);
    assert_eq!(id.storage_key(), "5855CA1AE288");
    assert_eq!(id.to_bytes(), bytes);
}

#[test]
fn receiver_id_orders_by_raw_bytes() {
    let low = receiver_id(1);
    let high = receiver_id(2);
    assert!(low < high);
}

#[test]
fn identities_sort_as_their_stored_forms() {
    let keys = ["00000000000F", "000000000010", "00000000009F", "0000000000A0", "A00000000000"];
    for left in keys {
        for right in keys {
            let a = ReceiverId::from_storage_key(left).unwrap();
            let b = ReceiverId::from_storage_key(right).unwrap();
            assert_eq!(a < b, left < right, "{left} against {right}");
            assert_eq!(a < b, a.to_bytes() < b.to_bytes(), "{left} against {right}");
        }
    }
}

#[test]
fn volume_rejects_non_finite_and_out_of_range_values() {
    assert_eq!(volume(0.25).get(), 0.25_f32.to_bits());
    assert!(Volume::new(f32::NAN.to_bits()).is_err());
    assert!(Volume::new((-0.01_f32).to_bits()).is_err());
    assert!(Volume::new(1.01_f32.to_bits()).is_err());
    assert_eq!(Volume::new(f32::INFINITY.to_bits()), Err(ModelError::InvalidVolume));
}

#[test]
fn volume_bounds_are_inclusive_and_defaults_match_spec() {
    assert_eq!(Volume::new(0.0_f32.to_bits()), Ok(Volume::muted()));
    assert_eq!(Volume::new(1.0_f32.to_bits()), Ok(Volume::unity()));
    assert_eq!(Volume::default_master().get(), 0.25_f32.to_bits());
    assert_eq!(Volume::default(), Volume::default_master());
}

#[test]
fn volumes_are_compared_as_numbers() {
    assert_eq!(Volume::new((-0.0_f32).to_bits()), Ok(Volume::muted()));
    assert_ne!(volume(0.5), volume(0.25));
    assert!(volume(0.15).at_most(0.15_f32.to_bits()));
    assert!(!volume(0.16).at_most(0.15_f32.to_bits()));
}

#[test]
fn volume_serde_round_trip_routes_through_validation() {
    let kept = volume(0.375);
    let json = serde_json::to_string(&f32::from_bits(kept.get())).unwrap();
    assert_eq!(json, "0.375");
    let decode = |text: &str| serde_json::from_str::<f32>(text).map(|value| Volume::new(value.to_bits()));
    assert_eq!(decode(&json).unwrap(), Ok(kept));
    assert!(decode("1.01").unwrap().is_err());
    assert!(decode("-0.01").unwrap().is_err());
    assert!(decode("\"loud\"").is_err());
}

#[test]
fn an_unmeasured_audio_source_has_no_peak_and_no_historical_drops() {
    let source = AudioSourceSnapshot::default();

    assert_eq!(source.windows_input_peak_permille, None);
    assert_eq!(source.pcm_frames_dropped_total, 0);
}

#[test]
fn snapshot_lists_are_sorted_for_rendering() {
    let mut snapshot = DeviceSnapshot::default();
    snapshot.receivers = vec![
        receiver_snapshot(2, "wohnzimmer"),
        receiver_snapshot(1, "B\u{fc}ro"),
    ];
    snapshot.saved_groups = vec![
        saved_group_snapshot(2, "Unten"),
        saved_group_snapshot(1, "Abends"),
    ];
    snapshot.sort_for_publication();
    assert_eq!(
        snapshot.receivers.iter().map(|r| r.name.as_str()).collect::<Vec<_>>(),
        vec!["B\u{fc}ro", "wohnzimmer"]
    );
    assert_eq!(
        snapshot.saved_groups.iter().map(|g| g.name.as_str()).collect::<Vec<_>>(),
        vec!["Abends", "Unten"]
    );
}

#[test]
fn equal_names_tie_break_on_stable_ids_not_discovery_order() {
    let mut snapshot = DeviceSnapshot::default();
    snapshot.receivers = vec![receiver_snapshot(5, "Saal"), receiver_snapshot(3, "saal")];
    snapshot.sort_for_publication();
    assert_eq!(snapshot.receivers[0].id, receiver_id(3));
    assert_eq!(snapshot.receivers[1].id, receiver_id(5));
}

#[test]
fn every_discovery_order_is_rendered_alike() {
    let listing = |order: [usize; 3]| {
        let rows = [(3, "kitchen"), (1, "Kitchen"), (2, "Bath")];
        let groups = [(9, "evening"), (4, "Evening"), (7, "All")];
        let mut snapshot = DeviceSnapshot::default();
        for at in order {
            snapshot.receivers.push(receiver_snapshot(rows[at].0, rows[at].1));
            snapshot.saved_groups.push(saved_group_snapshot(groups[at].0, groups[at].1));
        }
        snapshot.sort_for_publication();
        let ids: Vec<ReceiverId> = snapshot.receivers.iter().map(|row| row.id).collect();
        let groups: Vec<u128> = snapshot.saved_groups.iter().map(|row| row.id.as_uuid()).collect();
        (ids, groups)
    };
    let expected = (vec![receiver_id(2), receiver_id(1), receiver_id(3)], vec![7, 4, 9]);
    for order in [[0, 1, 2], [0, 2, 1], [1, 0, 2], [1, 2, 0], [2, 0, 1], [2, 1, 0]] {
        assert_eq!(listing(order), expected, "{order:?}");
    }
}

#[test]
fn normal_preset_resolves_the_validated_timing_configuration() {
    assert_eq!(
        LatencyPreset::Normal.enabled_config(),
        Some(LatencyConfig { sender_buffer_ms: 2_000, render_delay_ms: 200 })
    );
}

#[test]
fn disabled_presets_expose_no_unvalidated_configuration() {
    assert_eq!(LatencyPreset::Low.enabled_config(), None);
    assert_eq!(LatencyPreset::Stable.enabled_config(), None);
}

#[test]
fn every_preset_is_offered_and_the_gated_ones_carry_a_reason() {
    let offered = LatencyPreset::offered();
    assert_eq!(
        offered.iter().map(|row| row.preset).collect::<Vec<_>>(),
        vec![LatencyPreset::Low, LatencyPreset::Normal, LatencyPreset::Stable],
        "a preset the user may not pick still has to be visible"
    );
    for row in &offered {
        assert_eq!(
            row.disabled_reason.is_none(),
            row.preset.enabled_config().is_some(),
            "availability disagreed with the resolvable configuration"
        );
    }
}

#[test]
fn a_disabled_row_names_the_preset_it_refuses() {
    let low = LatencyPreset::Low.disabled_reason().expect("Low is behind its hardware gate");
    let stable = LatencyPreset::Stable
        .disabled_reason()
        .expect("Stable is behind its hardware gate");
    assert!(low.as_str().contains("Low"), "reason: {}", low.as_str());
    assert!(stable.as_str().contains("Stable"), "reason: {}", stable.as_str());
    assert_ne!(low, stable, "both gated presets shared one indistinguishable reason");
    assert_eq!(low, UserFacingError::disabled_latency(LatencyPreset::Low));
}

#[test]
fn a_default_snapshot_already_offers_every_preset() {
    assert_eq!(
        DeviceSnapshot::default().latency_presets,
        LatencyPreset::offered(),
        "availability is a build-time fact and must never start empty"
    );
}

#[test]
fn the_outcome_history_is_bounded_and_remembers_the_largest_evicted_id() {
    let mut outcomes = CommandOutcomes::default();
    outcomes.record(9_000, None);
    for id in 0..RETAINED_OUTCOMES as u64 {
        outcomes.record(id, Some(CommandFailure::Rejected));
    }
    assert_eq!(outcomes.recent.len(), RETAINED_OUTCOMES);
    assert_eq!(outcomes.evicted_through, 9_000);
    assert_eq!(outcomes.result_of(9_000), None);
    assert_eq!(outcomes.result_of(5), Some(Some(CommandFailure::Rejected)));
}

#[test]
fn fresh_group_ids_are_random_version_four_identifiers() {
    let first = SavedGroupId::generate();
    let second = SavedGroupId::generate();
    assert_ne!(first, second);
    for id in [first, second] {
        assert_eq!(uuid::Uuid::from_u128(id.as_uuid()).get_version_num(), 4);
        assert_eq!(SavedGroupId::from_uuid(id.as_uuid()), id);
    }
}

#[test]
fn ordered_sets_and_maps_list_receivers_by_identity() {
    let mut set = IdSet::new();
    let mut map: IdMap<u32> = IdMap::new();
    for seed in [3_u8, 1, 2, 1] {
        set.insert(receiver_id(seed));
        map.insert(receiver_id(seed), u32::from(seed) * 10);
    }
    assert_eq!(set.len(), 3);
    assert_eq!(set.to_list(), vec![receiver_id(1), receiver_id(2), receiver_id(3)]);
    assert_eq!(map.keys(), vec![receiver_id(1), receiver_id(2), receiver_id(3)]);
    assert_eq!(map.get(receiver_id(2)), Some(&20));
    assert_eq!(map.take(receiver_id(2)), Some(20));
    assert!(!map.contains_key(receiver_id(2)));
    assert!(set.remove(receiver_id(3)));
    assert!(!set.contains(receiver_id(3)));
}

#[test]
fn texts_are_trimmed_folded_and_ordered() {
    assert_eq!(trim("\u{a0} Abends \n"), "Abends");
    assert_eq!(trim("  "), "");
    assert_eq!(trim("a b"), "a b");
    assert!(eq_ignore_ascii_case("ABENDS", "abends"));
    assert!(!eq_ignore_ascii_case("B\u{dc}RO", "b\u{fc}ro"), "only ASCII case is ignored");
    assert!(is_text_before("a", "b"));
    assert!(!is_text_before("b", "a"));
    assert!(is_text_before("a", "aa"));
    assert_eq!(decimal(0), "0");
    assert_eq!(decimal(18_446_744_073_709_551_615), "18446744073709551615");
}
