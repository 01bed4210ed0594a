//! The persisted schemas: defaults, validation, migration, and write plans.

use openaircast_backend::calibration::CalibrationStateV2;
use openaircast_backend::idmap::IdMap;
use openaircast_backend::ids::ReceiverId;
use openaircast_backend::model::{
    AudioEndpointPreference, LatencyPreset, SavedGroup, SavedGroupId, SavedGroupMember, Volume,
};
use openaircast_backend::persistence::{
    decide_calibration, decide_load, document_v1, document_v2, effective_volume, legacy_volume,
    migrated_state, plan_calibration_save, plan_save, quarantined_file_name, schema_of_version,
    LoadDecision, LoadOutcome, ParseStateError, PersistError, PersistedStateV1, PersistedStateV2,
    SchemaVersion, StateDocument, StateRead,
};

fn volume(value: f32) -> Volume {
    Volume::new(value.to_bits()).unwrap()
}

fn member(receiver: &str, name: &str) -> SavedGroupMember {
    SavedGroupMember {
        receiver: ReceiverId::from_storage_key(receiver).unwrap(),
        last_known_name: name.to_owned(),
        level: Volume::unity(),
    }
}

fn valid_group(name: &str) -> SavedGroup {
    SavedGroup {
        id: SavedGroupId::generate(),
        name: name.to_owned(),
        members: vec![member("000000000001", "Wohnzimmer")],
    }
}

fn base_with(mutate: impl FnOnce(&mut PersistedStateV1)) -> PersistError {
    let mut state = PersistedStateV1::default();
    state.saved_groups.push(valid_group("Abends"));
    mutate(&mut state);
    state.validate().expect_err("mutation must break validity")
}

fn invalid_message(error: PersistError) -> String {
    match error {
        PersistError::Invalid(message) => message,
        other => panic!("expected an invalid state, got {other:?}"),
    }
}

fn section(delay: i64) -> CalibrationStateV2 {
    let id = ReceiverId::from_storage_key("000000000001").unwrap();
    let mut delays_ns: IdMap<i64> = IdMap::new();
    delays_ns.insert(id, delay);
    CalibrationStateV2 { reference: Some(id), delays_ns }
}

fn v2_with(delay: i64) -> PersistedStateV2 {
    let mut state = PersistedStateV2::from_v1(&PersistedStateV1::default());
    state.calibration = section(delay);
    state
}

#[test]
fn persistence_defaults_match_the_specified_baseline() {
    let state = PersistedStateV1::default();
    assert_eq!(state.version, 1);
    assert_eq!(state.master_volume, Volume::default_master());
    assert!(!state.muted);
    assert_eq!(state.receiver_levels.len(), 0);
    assert!(state.saved_groups.is_empty());
    assert!(state.last_desired_members.is_empty());
    assert_eq!(state.audio_endpoint, AudioEndpointPreference::SystemDefault);
    assert_eq!(state.latency_preset, LatencyPreset::Normal);
    assert!(!state.auto_connect);
    assert!(state.validate().is_ok());
}

#[test]
fn rejects_wrong_schema_version() {
    let mut state = PersistedStateV1::default();
    state.version = 2;
    assert!(matches!(
        state.validate(),
        Err(PersistError::Invalid(message)) if message.contains("version")
    ));
}

#[test]
fn rejects_disabled_latency_preset() {
    assert!(matches!(
        base_with(|state| state.latency_preset = LatencyPreset::Low),
        PersistError::Invalid(_)
    ));
}

#[test]
fn rejects_untrimmed_blank_and_duplicate_group_names() {
    assert!(matches!(
        base_with(|state| state.saved_groups.push(valid_group(" Abends"))),
        PersistError::Invalid(_)
    ));
    assert!(matches!(
        base_with(|state| state.saved_groups.push(valid_group("  "))),
        PersistError::Invalid(_)
    ));
    assert!(matches!(
        base_with(|state| state.saved_groups.push(valid_group("abends"))),
        PersistError::Invalid(_)
    ));
}

#[test]
fn rejects_empty_and_duplicate_member_lists() {
    let empty = SavedGroup {
        id: SavedGroupId::generate(),
        name: "Leer".to_owned(),
        members: Vec::new(),
    };
    assert!(matches!(
        base_with(|state| state.saved_groups.push(empty)),
        PersistError::Invalid(_)
    ));

    let duplicate_member = SavedGroup {
        id: SavedGroupId::generate(),
        name: "Doppelt".to_owned(),
        members: vec![member("000000000001", "A"), member("000000000001", "B")],
    };
    assert!(matches!(
        base_with(|state| state.saved_groups.push(duplicate_member)),
        PersistError::Invalid(_)
    ));
}

#[test]
fn rejected_groups_are_named_in_the_message() {
    assert_eq!(
        invalid_message(base_with(|state| state.saved_groups.push(valid_group(" B\"")))),
        "group name must be trimmed and non-empty: \" B\\\"\""
    );
    assert_eq!(
        invalid_message(base_with(|state| {
            state.saved_groups.push(valid_group("K\u{dc}CHE"));
            state.saved_groups.push(valid_group("k\u{fc}che"));
        })),
        "duplicate group name: k\u{fc}che",
        "names are folded beyond ASCII"
    );
    assert_eq!(
        invalid_message(base_with(|state| {
            let mut group = valid_group("Doppelt");
            group.members.push(member("000000000001", "B"));
            state.saved_groups.push(group);
        })),
        "group Doppelt lists receiver 00:00:00:00:00:01 more than once"
    );
}

fn parse_legacy_volume(raw: &str) -> Option<Volume> {
    legacy_volume(raw.trim().parse::<f32>().ok().map(f32::to_bits))
}

#[test]
fn parses_finite_values_and_clamps_into_range() {
    assert_eq!(parse_legacy_volume("0.375").unwrap().get(), 0.375_f32.to_bits());
    assert_eq!(parse_legacy_volume("7").unwrap().get(), 1.0_f32.to_bits());
    assert_eq!(parse_legacy_volume("-3").unwrap().get(), 0.0_f32.to_bits());
    assert_eq!(parse_legacy_volume(" 0.5\n").unwrap().get(), 0.5_f32.to_bits());
}

#[test]
fn rejects_garbage_and_non_finite_content() {
    assert_eq!(parse_legacy_volume("garbage"), None);
    assert_eq!(parse_legacy_volume(""), None);
    assert_eq!(parse_legacy_volume("nan"), None);
    assert_eq!(parse_legacy_volume("inf"), None);
}

fn product(master: Volume, level: Volume) -> u32 {
    (f32::from_bits(master.get()) * f32::from_bits(level.get())).to_bits()
}

#[test]
fn mutes_to_silence_and_multiplies_when_live() {
    let master = volume(0.5);
    let level = volume(0.4);
    assert_eq!(effective_volume(product(master, level), false).get(), 0.2_f32.to_bits());
    assert_eq!(effective_volume(product(master, level), true), Volume::muted());
    assert_eq!(effective_volume(product(Volume::unity(), level), false), level);
}

#[test]
fn the_document_type_follows_the_named_version() {
    assert_eq!(schema_of_version(Some(1)), Ok(SchemaVersion::V1));
    assert_eq!(schema_of_version(Some(2)), Ok(SchemaVersion::V2));
    assert_eq!(schema_of_version(Some(3)), Err(ParseStateError::UnknownVersion(3)));
    assert_eq!(schema_of_version(None), Err(ParseStateError::Unrecognizable));
    assert_eq!(document_v1(None), Err(ParseStateError::Unrecognizable));
    assert_eq!(
        document_v2(Err("missing field".to_owned())),
        Err(ParseStateError::MalformedSchemaV2("missing field".to_owned()))
    );
}

#[test]
fn loading_quarantines_what_it_cannot_read_and_refuses_what_breaks_the_schema() {
    assert!(matches!(decide_load(StateRead::Missing), Ok(LoadDecision::Missing)));
    assert!(matches!(
        decide_load(StateRead::Unreadable("denied".to_owned())),
        Ok(LoadDecision::Quarantine)
    ));
    assert!(matches!(
        decide_load(StateRead::Document(Err(ParseStateError::UnknownVersion(9)))),
        Ok(LoadDecision::Quarantine)
    ));
    let mut broken = PersistedStateV1::default();
    broken.latency_preset = LatencyPreset::Stable;
    assert!(matches!(
        decide_load(StateRead::Document(Ok(StateDocument::V1(broken)))),
        Err(PersistError::Invalid(_))
    ));
    assert!(matches!(
        decide_load(StateRead::Document(Ok(StateDocument::V2(v2_with(5))))),
        Ok(LoadDecision::Use(state)) if state == PersistedStateV1::default()
    ));
    assert_eq!(
        quarantined_file_name(1_700_000_000_123),
        "state-v1.json.corrupt-1700000000123"
    );
}

#[test]
fn saved_state_loads_back_and_keeps_the_calibration() {
    let mut state = PersistedStateV1::default();
    state.muted = true;
    let over = StateRead::Document(Ok(StateDocument::V2(v2_with(125))));
    let written = plan_save(&state, over).expect("a valid state is written");
    match decide_calibration(StateRead::Document(Ok(written))) {
        Ok(Some(kept)) => assert_eq!(kept, section(125)),
        other => panic!("the section was dropped: {other:?}"),
    }
    let over = StateRead::Document(Ok(StateDocument::V2(v2_with(125))));
    let written = plan_save(&state, over).expect("a valid state is written");
    match decide_load(StateRead::Document(Ok(written))) {
        Ok(LoadDecision::Use(loaded)) => assert_eq!(loaded, state),
        other => panic!("the state did not load back: {other:?}"),
    }
}

#[test]
fn an_unreadable_file_is_never_overwritten() {
    let state = PersistedStateV1::default();
    assert_eq!(
        plan_save(&state, StateRead::Unreadable("locked".to_owned())),
        Err(PersistError::Io("locked".to_owned()))
    );
    assert!(matches!(
        plan_calibration_save(StateRead::Unreadable("locked".to_owned()), Some(section(1))),
        Err(PersistError::Io(_))
    ));
    assert!(matches!(
        decide_calibration(StateRead::Unreadable("locked".to_owned())),
        Err(PersistError::Io(_))
    ));
}

#[test]
fn a_calibration_write_merges_into_the_current_document() {
    let mut state = PersistedStateV1::default();
    state.muted = true;
    let save = plan_calibration_save(
        StateRead::Document(Ok(StateDocument::V1(state))),
        Some(section(7)),
    )
    .expect("a valid document takes the section");
    assert!(!save.quarantine_first);
    assert!(save.document.muted);
    assert_eq!(save.document.calibration, section(7));

    let cleared = plan_calibration_save(StateRead::Document(Ok(StateDocument::V2(v2_with(7)))), None)
        .expect("clearing is a write");
    assert_eq!(cleared.document.calibration, CalibrationStateV2::default());

    let replaced = plan_calibration_save(
        StateRead::Document(Err(ParseStateError::Unrecognizable)),
        Some(section(1)),
    )
    .expect("unrecognizable content is set aside");
    assert!(replaced.quarantine_first);

    match plan_calibration_save(
        StateRead::Document(Err(ParseStateError::UnknownVersion(9))),
        Some(section(1)),
    ) {
        Err(error) => assert_eq!(
            error.to_string(),
            "persisted state is invalid: unsupported schema version 9"
        ),
        Ok(_) => panic!("a newer document must not be rewritten"),
    }
}

#[test]
fn load_outcomes_yield_their_effective_state() {
    let migrated = migrated_state(volume(0.375));
    assert_eq!(migrated.master_volume, volume(0.375));
    let outcome = LoadOutcome::MigratedLegacyVolume {
        state: migrated.clone(),
        legacy_source: "volume.txt".to_owned(),
    };
    assert_eq!(outcome.into_state(), migrated);
    let recovered = LoadOutcome::RecoveredCorrupt { quarantined_path: "aside".to_owned() };
    assert_eq!(recovered.into_state(), PersistedStateV1::default());
    assert_eq!(LoadOutcome::FreshDefaults.into_state(), PersistedStateV1::default());
}
