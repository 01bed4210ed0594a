//! Versioned device-state persistence: schema v1, schema v2 (calibration),
//! legacy volume migration, validation, and the load and save decisions.
//!
//! The application reads and writes the files and turns bytes into documents;
//! what a document means, what may be written over it, and what is carried
//! forward is decided here.

use vstd::prelude::*;

use crate::calibration::{no_calibration, CalibrationView};
use crate::idmap::{IdMap, IdSet};
use crate::ids::ReceiverId;
use crate::model::{
    clone_groups, group_views, preset_config, AudioEndpointPreference, GroupView, LatencyPreset,
    MemberView, PreferenceView, SavedGroup, SavedGroupMember,
};
use crate::text::{
    decimal, decimal_text, lowercase_text, quoted, quoted_text, to_lowercase, trim, trimmed,
};
use crate::volume::{f32_finite, f32_negative, f32_within_unit, Volume, ONE_BITS};

pub use crate::calibration::CalibrationStateV2;

verus! {

/// Errors raised while loading or saving device state.
#[derive(Debug, PartialEq, Eq)]
pub enum PersistError {
    /// The state directory could not be created.
    CreateDirectory(String),
    /// The state could not be serialized to JSON.
    Serialize(String),
    /// The temporary file could not be written.
    WriteTemporary(String),
    /// The temporary file could not be flushed to disk.
    Sync(String),
    /// The atomic replacement of the state file failed.
    Replace(String),
    /// Persisted content violated the schema's invariants.
    Invalid(String),
    /// The state file could not be read or quarantined.
    Io(String),
    /// A blocking persistence worker panicked before completing.
    Join(String),
}

/// The text a persistence error renders as.
pub open spec fn persist_error_text(error: PersistError) -> Seq<char> {
    match error {
        PersistError::CreateDirectory(e) => "could not create the state directory: "@ + e@,
        PersistError::Serialize(e) => "could not serialize device state: "@ + e@,
        PersistError::WriteTemporary(e) => "could not write the temporary state file: "@ + e@,
        PersistError::Sync(e) => "could not flush the temporary state file: "@ + e@,
        PersistError::Replace(e) => "could not replace the state file: "@ + e@,
        PersistError::Invalid(e) => "persisted state is invalid: "@ + e@,
        PersistError::Io(e) => "could not read or quarantine the state file: "@ + e@,
        PersistError::Join(e) => "persistence worker failed: "@ + e@,
    }
}

impl PersistError {
    /// Renders the error.
    pub fn to_string(&self) -> (r: String)
        ensures
            r@ == persist_error_text(*self),
    {
        let (lead, detail): (&str, &String) = match self {
            PersistError::CreateDirectory(e) => ("could not create the state directory: ", e),
            PersistError::Serialize(e) => ("could not serialize device state: ", e),
            PersistError::WriteTemporary(e) => ("could not write the temporary state file: ", e),
            PersistError::Sync(e) => ("could not flush the temporary state file: ", e),
            PersistError::Replace(e) => ("could not replace the state file: ", e),
            PersistError::Invalid(e) => ("persisted state is invalid: ", e),
            PersistError::Io(e) => ("could not read or quarantine the state file: ", e),
            PersistError::Join(e) => ("persistence worker failed: ", e),
        };
        let mut text: String = lead.to_owned();
        text.append(detail.as_str());
        text
    }
}

/// The complete persisted device state, schema version 1.
///
/// Field order and names are part of the on-disk contract; new fields require
/// a new schema version instead of mutating this one. The schema-v2
/// calibration addition therefore lives in [`PersistedStateV2`] only.
#[derive(Debug, PartialEq)]
pub struct PersistedStateV1 {
    /// Schema version; exactly `1`.
    pub version: u32,
    /// Validated master volume.
    pub master_volume: Volume,
    /// Whether output is muted; volumes are preserved while muted.
    pub muted: bool,
    /// Per-receiver balance levels keyed by stable identity.
    pub receiver_levels: IdMap<Volume>,
    /// User-saved receiver groups.
    pub saved_groups: Vec<SavedGroup>,
    /// Committed desired membership restored on launch.
    pub last_desired_members: IdSet,
    /// Render endpoint preference.
    pub audio_endpoint: AudioEndpointPreference,
    /// Selected latency preset; must resolve to an enabled configuration.
    pub latency_preset: LatencyPreset,
    /// Whether startup may begin streaming after safe initial discovery.
    pub auto_connect: bool,
}

/// What a persisted state holds.
#[verifier::ext_equal]
pub struct PersistedView {
    /// Schema version.
    pub version: u32,
    /// Master volume.
    pub master_volume: Volume,
    /// Mute flag.
    pub muted: bool,
    /// Per-receiver levels.
    pub receiver_levels: Map<ReceiverId, Volume>,
    /// Saved groups.
    pub saved_groups: Seq<GroupView>,
    /// Desired membership.
    pub last_desired_members: Set<ReceiverId>,
    /// Endpoint preference.
    pub audio_endpoint: PreferenceView,
    /// Latency preset.
    pub latency_preset: LatencyPreset,
    /// Auto-connect policy.
    pub auto_connect: bool,
}

impl View for PersistedStateV1 {
    type V = PersistedView;

    open spec fn view(&self) -> PersistedView {
        PersistedView {
            version: self.version,
            master_volume: self.master_volume,
            muted: self.muted,
            receiver_levels: self.receiver_levels@,
            saved_groups: group_views(self.saved_groups@),
            last_desired_members: self.last_desired_members@,
            audio_endpoint: self.audio_endpoint@,
            latency_preset: self.latency_preset,
            auto_connect: self.auto_connect,
        }
    }
}

/// Whether `state` is the specified default of a schema version.
pub open spec fn is_default_state(state: PersistedView, version: u32) -> bool {
    &&& state.master_volume.bits() == crate::volume::QUARTER_BITS
    &&& is_default_but_volume(state, version)
}

/// Whether `state` is the specified default of a schema version in everything
/// but its master volume.
pub open spec fn is_default_but_volume(state: PersistedView, version: u32) -> bool {
    &&& state.version == version
    &&& !state.muted
    &&& state.receiver_levels == Map::<ReceiverId, Volume>::empty()
    &&& state.saved_groups == Seq::<GroupView>::empty()
    &&& state.last_desired_members == Set::<ReceiverId>::empty()
    &&& state.audio_endpoint == PreferenceView::SystemDefault
    &&& state.latency_preset == LatencyPreset::Normal
    &&& !state.auto_connect
}

impl Default for PersistedStateV1 {
    fn default() -> (r: Self)
        ensures
            is_default_state(r@, 1),
    {
        let r = PersistedStateV1 {
            version: 1,
            master_volume: Volume::default_master(),
            muted: false,
            receiver_levels: IdMap::new(),
            saved_groups: Vec::new(),
            last_desired_members: IdSet::new(),
            audio_endpoint: AudioEndpointPreference::default(),
            latency_preset: LatencyPreset::default(),
            auto_connect: false,
        };
        assert(r@.saved_groups =~= Seq::<GroupView>::empty());
        r
    }
}

impl Clone for PersistedStateV1 {
    fn clone(&self) -> (r: Self)
        ensures
            r@ == self@,
    {
        PersistedStateV1 {
            version: self.version,
            master_volume: self.master_volume,
            muted: self.muted,
            receiver_levels: self.receiver_levels.copied(),
            saved_groups: clone_groups(&self.saved_groups),
            last_desired_members: self.last_desired_members.copied(),
            audio_endpoint: self.audio_endpoint.clone(),
            latency_preset: self.latency_preset,
            auto_connect: self.auto_connect,
        }
    }
}

/// Whether two members are the same; levels are compared as numbers.
pub open spec fn same_member(a: MemberView, b: MemberView) -> bool {
    &&& a.receiver == b.receiver
    &&& a.last_known_name == b.last_known_name
    &&& a.level.units() == b.level.units()
}

/// Whether two groups are the same, member by member.
pub open spec fn same_group(a: GroupView, b: GroupView) -> bool {
    &&& a.id == b.id
    &&& a.name == b.name
    &&& a.members.len() == b.members.len()
    &&& forall|i: int| 0 <= i < a.members.len() ==> same_member(#[trigger] a.members[i], b.members[i])
}

/// Whether two level maps are the same; levels are compared as numbers.
pub open spec fn same_levels(a: Map<ReceiverId, Volume>, b: Map<ReceiverId, Volume>) -> bool {
    &&& a.dom() == b.dom()
    &&& forall|id: ReceiverId| a.contains_key(id) ==> (#[trigger] a[id]).units() == b[id].units()
}

/// Whether two states are the same; volumes are compared as numbers.
pub open spec fn same_state(a: PersistedView, b: PersistedView) -> bool {
    &&& a.version == b.version
    &&& a.master_volume.units() == b.master_volume.units()
    &&& a.muted == b.muted
    &&& same_levels(a.receiver_levels, b.receiver_levels)
    &&& a.saved_groups.len() == b.saved_groups.len()
    &&& forall|i: int| 0 <= i < a.saved_groups.len() ==>
        same_group(#[trigger] a.saved_groups[i], b.saved_groups[i])
    &&& a.last_desired_members == b.last_desired_members
    &&& a.audio_endpoint == b.audio_endpoint
    &&& a.latency_preset == b.latency_preset
    &&& a.auto_connect == b.auto_connect
}

fn is_same_group(a: &SavedGroup, b: &SavedGroup) -> (r: bool)
    ensures
        r == same_group(a@, b@),
{
    if a.id != b.id || a.name != b.name || a.members.len() != b.members.len() {
        return false;
    }
    let mut i: usize = 0;
    while i < a.members.len()
        invariant
            i <= a.members@.len(),
            a.members@.len() == b.members@.len(),
            forall|j: int| 0 <= j < i ==> same_member(#[trigger] a@.members[j], b@.members[j]),
        decreases a.members@.len() - i,
    {
        let x: &SavedGroupMember = &a.members[i];
        let y: &SavedGroupMember = &b.members[i];
        assert(a@.members[i as int] == x@ && b@.members[i as int] == y@);
        if x.receiver != y.receiver || x.last_known_name != y.last_known_name || x.level != y.level {
            return false;
        }
        i = i + 1;
    }
    true
}

/// Whether two level maps are the same; levels are compared as numbers.
pub fn are_same_levels(a: &IdMap<Volume>, b: &IdMap<Volume>) -> (r: bool)
    ensures
        r == same_levels(a@, b@),
{
    let len: usize = a.len();
    let other: usize = b.len();
    let mut i: usize = 0;
    while i < len
        invariant
            i <= len,
            len == a.order().len(),
            a.order().to_set() == a@.dom(),
            forall|j: int| 0 <= j < i ==> b@.contains_key(#[trigger] a.order()[j])
                && a@[a.order()[j]].units() == b@[a.order()[j]].units(),
        decreases len - i,
    {
        let id: ReceiverId = a.key_at(i);
        let mine: Volume = *a.value_at(i);
        match b.get(id) {
            Some(theirs) => {
                if mine != *theirs {
                    return false;
                }
            },
            None => {
                return false;
            },
        }
        i = i + 1;
    }
    proof {
        assert forall|id: ReceiverId| a@.contains_key(id) implies b@.contains_key(id)
            && a@[id].units() == b@[id].units() by {
            assert(a.order().to_set().contains(id));
            let k = a.order().index_of(id);
            assert(a.order()[k] == id);
        }
        assert(a@.dom().subset_of(b@.dom()));
        if a@.dom().len() == b@.dom().len() {
            vstd::set_lib::lemma_subset_equality(a@.dom(), b@.dom());
        }
    }
    len == other
}

impl PersistedStateV1 {
    /// Whether both states are the same; volumes are compared as numbers.
    pub fn same_as(&self, other: &Self) -> (r: bool)
        ensures
            r == same_state(self@, other@),
    {
        if self.version != other.version || self.master_volume != other.master_volume
            || self.muted != other.muted || self.latency_preset != other.latency_preset
            || self.auto_connect != other.auto_connect
            || self.saved_groups.len() != other.saved_groups.len() {
            return false;
        }
        if !self.audio_endpoint.same_as(&other.audio_endpoint)
            || !self.last_desired_members.same_as(&other.last_desired_members)
            || !are_same_levels(&self.receiver_levels, &other.receiver_levels) {
            return false;
        }
        let mut i: usize = 0;
        while i < self.saved_groups.len()
            invariant
                i <= self.saved_groups@.len(),
                self.saved_groups@.len() == other.saved_groups@.len(),
                forall|j: int| 0 <= j < i ==> same_group(
                    #[trigger] self@.saved_groups[j],
                    other@.saved_groups[j],
                ),
            decreases self.saved_groups@.len() - i,
        {
            assert(self@.saved_groups[i as int] == self.saved_groups@[i as int]@);
            assert(other@.saved_groups[i as int] == other.saved_groups@[i as int]@);
            if !is_same_group(&self.saved_groups[i], &other.saved_groups[i]) {
                return false;
            }
            i = i + 1;
        }
        true
    }
}

/// The complete persisted device state, schema version 2.
///
/// Adds exactly one required field to the schema-v1 document: the manual
/// calibration section. Version 1 migrates to an empty/zero profile; every
/// predecessor field keeps its name, order, and value semantics.
#[derive(Debug, PartialEq)]
pub struct PersistedStateV2 {
    /// Schema version; exactly `2`.
    pub version: u32,
    /// Validated master volume.
    pub master_volume: Volume,
    /// Whether output is muted; volumes are preserved while muted.
    pub muted: bool,
    /// Per-receiver balance levels keyed by stable identity.
    pub receiver_levels: IdMap<Volume>,
    /// User-saved receiver groups.
    pub saved_groups: Vec<SavedGroup>,
    /// Committed desired membership restored on launch.
    pub last_desired_members: IdSet,
    /// Render endpoint preference.
    pub audio_endpoint: AudioEndpointPreference,
    /// Selected latency preset; must resolve to an enabled configuration.
    pub latency_preset: LatencyPreset,
    /// Whether startup may begin streaming after safe initial discovery.
    pub auto_connect: bool,
    /// Manual calibration profile (required in schema-v2 documents).
    pub calibration: CalibrationStateV2,
}

/// What a schema-v2 document holds.
#[verifier::ext_equal]
pub struct PersistedViewV2 {
    /// Everything a schema-v1 document holds too.
    pub base: PersistedView,
    /// Calibration section.
    pub calibration: CalibrationView,
}

impl View for PersistedStateV2 {
    type V = PersistedViewV2;

    open spec fn view(&self) -> PersistedViewV2 {
        PersistedViewV2 {
            base: PersistedView {
                version: self.version,
                master_volume: self.master_volume,
                muted: self.muted,
                receiver_levels: self.receiver_levels@,
                saved_groups: group_views(self.saved_groups@),
                last_desired_members: self.last_desired_members@,
                audio_endpoint: self.audio_endpoint@,
                latency_preset: self.latency_preset,
                auto_connect: self.auto_connect,
            },
            calibration: self.calibration@,
        }
    }
}

/// A schema-v1 document promoted to schema version 2.
pub open spec fn promoted(state: PersistedView, calibration: CalibrationView) -> PersistedViewV2 {
    PersistedViewV2 { base: PersistedView { version: 2, ..state }, calibration }
}

/// The schema-v1 shape of a schema-v2 document.
pub open spec fn v1_projection(state: PersistedViewV2) -> PersistedView {
    PersistedView { version: 1, ..state.base }
}

impl Default for PersistedStateV2 {
    fn default() -> (r: Self)
        ensures
            is_default_state(r@.base, 2),
            r@.calibration == no_calibration(),
    {
        let r = PersistedStateV2 {
            version: 2,
            master_volume: Volume::default_master(),
            muted: false,
            receiver_levels: IdMap::new(),
            saved_groups: Vec::new(),
            last_desired_members: IdSet::new(),
            audio_endpoint: AudioEndpointPreference::default(),
            latency_preset: LatencyPreset::default(),
            auto_connect: false,
            calibration: CalibrationStateV2::default(),
        };
        assert(r@.base.saved_groups =~= Seq::<GroupView>::empty());
        r
    }
}

impl PersistedStateV2 {
    /// The schema-v2 document of a schema-v1 state, with an empty calibration.
    pub fn from_v1(state: &PersistedStateV1) -> (r: Self)
        ensures
            r@ == promoted(state@, no_calibration()),
    {
        PersistedStateV2 {
            version: 2,
            master_volume: state.master_volume,
            muted: state.muted,
            receiver_levels: state.receiver_levels.copied(),
            saved_groups: clone_groups(&state.saved_groups),
            last_desired_members: state.last_desired_members.copied(),
            audio_endpoint: state.audio_endpoint.clone(),
            latency_preset: state.latency_preset,
            auto_connect: state.auto_connect,
            calibration: CalibrationStateV2::default(),
        }
    }

    /// Projects a schema-v2 document onto the predecessor-compatible
    /// schema-v1 shape; the calibration section is read separately.
    pub fn into_v1_projection(self) -> (r: PersistedStateV1)
        ensures
            r@ == v1_projection(self@),
    {
        PersistedStateV1 {
            version: 1,
            master_volume: self.master_volume,
            muted: self.muted,
            receiver_levels: self.receiver_levels,
            saved_groups: self.saved_groups,
            last_desired_members: self.last_desired_members,
            audio_endpoint: self.audio_endpoint,
            latency_preset: self.latency_preset,
            auto_connect: self.auto_connect,
        }
    }

    /// Checks every schema-v2 invariant beyond what value types enforce.
    pub fn validate(&self) -> (r: Result<(), PersistError>)
        ensures
            reports_problem(r, document_problem(self@.base, 2)),
    {
        if self.version != 2 {
            return Err(PersistError::Invalid(unsupported_version(self.version)));
        }
        validate_preferences(self.latency_preset, &self.saved_groups)
    }
}

/// Promoting a schema-v1 state and projecting it back changes nothing.
pub proof fn law_promotion_round_trip(state: PersistedView, calibration: CalibrationView)
    requires
        state.version == 1,
    ensures
        v1_projection(promoted(state, calibration)) == state,
        promoted(state, calibration).calibration == calibration,
{
}

/// Whether some receiver occurs twice among the first `n` members.
pub open spec fn repeats_within(members: Seq<MemberView>, n: int) -> bool {
    exists|i: int, j: int|
        0 <= i < j < n && (#[trigger] members[i]).receiver == (#[trigger] members[j]).receiver
}

/// Position of the first member whose receiver occurred before, searched from
/// `from`.
pub open spec fn first_repeat(members: Seq<MemberView>, from: int) -> int
    decreases members.len() - from,
{
    if from >= members.len() {
        -1
    } else if repeats_within(members, from + 1) {
        from
    } else {
        first_repeat(members, from + 1)
    }
}

/// What is wrong with group `i` of a list, given that the groups before it
/// are fine: its name must be trimmed and non-empty and new once case is
/// folded away, and its members present and unique.
pub open spec fn group_problem(groups: Seq<GroupView>, i: int) -> Option<Seq<char>> {
    let group = groups[i];
    let name = trimmed(group.name);
    if name.len() == 0 || name != group.name {
        Some("group name must be trimmed and non-empty: "@ + quoted_text(group.name))
    } else if exists|j: int| 0 <= j < i && lowercase_text((#[trigger] groups[j]).name) == lowercase_text(name) {
        Some("duplicate group name: "@ + name)
    } else if group.members.len() == 0 {
        Some("group "@ + name + " has no members"@)
    } else if first_repeat(group.members, 0) >= 0 {
        Some(
            "group "@ + name + " lists receiver "@
                + group.members[first_repeat(group.members, 0)].receiver.display_text()
                + " more than once"@,
        )
    } else {
        None
    }
}

/// The first problem among the groups from position `from` on.
pub open spec fn groups_problem(groups: Seq<GroupView>, from: int) -> Option<Seq<char>>
    decreases groups.len() - from,
{
    if from >= groups.len() {
        None
    } else if group_problem(groups, from) is Some {
        group_problem(groups, from)
    } else {
        groups_problem(groups, from + 1)
    }
}

/// The first problem of a set of preferences.
pub open spec fn preferences_problem(
    latency_preset: LatencyPreset,
    groups: Seq<GroupView>,
) -> Option<Seq<char>> {
    if preset_config(latency_preset) is None {
        Some("latency preset is not enabled"@)
    } else {
        groups_problem(groups, 0)
    }
}

/// The first problem of a document that should have schema version `version`.
pub open spec fn document_problem(state: PersistedView, version: u32) -> Option<Seq<char>> {
    if state.version != version {
        Some("unsupported schema version "@ + decimal_text(state.version as int))
    } else {
        preferences_problem(state.latency_preset, state.saved_groups)
    }
}

/// Whether a validation result reports exactly `problem`.
pub open spec fn reports_problem(
    result: Result<(), PersistError>,
    problem: Option<Seq<char>>,
) -> bool {
    match result {
        Ok(_) => problem is None,
        Err(PersistError::Invalid(message)) => problem == Some(message@),
        Err(_) => false,
    }
}

/// Whether a set of preferences satisfies every schema invariant.
pub open spec fn preferences_valid(latency_preset: LatencyPreset, groups: Seq<GroupView>) -> bool {
    &&& preset_config(latency_preset) is Some
    &&& forall|i: int| 0 <= i < groups.len() ==> group_valid(#[trigger] groups[i])
    &&& forall|i: int, j: int| 0 <= i < j < groups.len() ==>
        lowercase_text((#[trigger] groups[i]).name) != lowercase_text((#[trigger] groups[j]).name)
}

/// Whether a group by itself satisfies every schema invariant.
pub open spec fn group_valid(group: GroupView) -> bool {
    &&& group.name.len() > 0
    &&& trimmed(group.name) == group.name
    &&& group.members.len() > 0
    &&& forall|i: int, j: int| 0 <= i < j < group.members.len() ==>
        (#[trigger] group.members[i]).receiver != (#[trigger] group.members[j]).receiver
}

proof fn lemma_first_repeat(members: Seq<MemberView>, from: int)
    requires
        0 <= from <= members.len(),
        !repeats_within(members, from),
    ensures
        first_repeat(members, from) < 0 <==> !repeats_within(members, members.len() as int),
        first_repeat(members, from) >= 0 ==> from <= first_repeat(members, from) < members.len(),
    decreases members.len() - from,
{
    if from < members.len() {
        if repeats_within(members, from + 1) {
            let (i, j) = choose|i: int, j: int|
                0 <= i < j < from + 1
                    && (#[trigger] members[i]).receiver == (#[trigger] members[j]).receiver;
            assert(0 <= i < j < members.len() && members[i].receiver == members[j].receiver);
        } else {
            lemma_first_repeat(members, from + 1);
        }
    }
}

proof fn lemma_groups_problem(groups: Seq<GroupView>, from: int)
    requires
        0 <= from <= groups.len(),
    ensures
        groups_problem(groups, from) is None <==> forall|i: int|
            from <= i < groups.len() ==> group_problem(groups, i) is None,
    decreases groups.len() - from,
{
    if from < groups.len() {
        lemma_groups_problem(groups, from + 1);
    }
}

/// Validation reports no problem exactly for preferences that satisfy every
/// schema invariant.
pub proof fn law_validation_accepts_exactly_valid_preferences(
    latency_preset: LatencyPreset,
    groups: Seq<GroupView>,
)
    ensures
        preferences_problem(latency_preset, groups) is None
            <==> preferences_valid(latency_preset, groups),
{
    lemma_groups_problem(groups, 0);
    assert forall|i: int| 0 <= i < groups.len() implies (
        #[trigger] group_problem(groups, i) is None <==> group_valid(groups[i]) && forall|j: int|
            0 <= j < i ==> lowercase_text((#[trigger] groups[j]).name) != lowercase_text(groups[i].name))
        by {
        let members = groups[i].members;
        lemma_first_repeat(members, 0);
        if group_valid(groups[i]) && repeats_within(members, members.len() as int) {
            let (a, b) = choose|a: int, b: int|
                0 <= a < b < members.len()
                    && (#[trigger] members[a]).receiver == (#[trigger] members[b]).receiver;
            assert(false);
        }
        if !repeats_within(members, members.len() as int) {
            assert forall|a: int, b: int| 0 <= a < b < members.len() implies
                (#[trigger] members[a]).receiver != (#[trigger] members[b]).receiver by {}
        }
    }
    if preferences_problem(latency_preset, groups) is None {
        assert forall|i: int| 0 <= i < groups.len() implies group_valid(#[trigger] groups[i]) by {
            assert(group_problem(groups, i) is None);
        }
        assert forall|i: int, j: int| 0 <= i < j < groups.len() implies
            lowercase_text((#[trigger] groups[i]).name) != lowercase_text((#[trigger] groups[j]).name) by {
            assert(group_problem(groups, j) is None);
        }
    }
    if preferences_valid(latency_preset, groups) {
        assert forall|i: int| 0 <= i < groups.len() implies
            #[trigger] group_problem(groups, i) is None by {
            assert(group_valid(groups[i]));
        }
    }
}

fn unsupported_version(version: u32) -> (r: String)
    ensures
        r@ == "unsupported schema version "@ + decimal_text(version as int),
{
    let mut text: String = "unsupported schema version ".to_owned();
    text.append(decimal(version as u64).as_str());
    text
}

/// Validates the preferences shared by both schema versions.
pub fn validate_preferences(
    latency_preset: LatencyPreset,
    saved_groups: &Vec<SavedGroup>,
) -> (r: Result<(), PersistError>)
    ensures
        reports_problem(r, preferences_problem(latency_preset, group_views(saved_groups@))),
{
    if latency_preset.enabled_config().is_none() {
        return Err(PersistError::Invalid("latency preset is not enabled".to_owned()));
    }
    let ghost groups = group_views(saved_groups@);
    let mut seen_names: Vec<String> = Vec::new();
    let mut i: usize = 0;
    while i < saved_groups.len()
        invariant
            i <= saved_groups@.len(),
            groups == group_views(saved_groups@),
            preset_config(latency_preset) is Some,
            seen_names@.len() == i,
            forall|j: int| 0 <= j < i ==> (#[trigger] seen_names@[j])@ == lowercase_text(groups[j].name),
            groups_problem(groups, 0) == groups_problem(groups, i as int),
        decreases saved_groups@.len() - i,
    {
        let group: &SavedGroup = &saved_groups[i];
        assert(groups[i as int] == group@);
        let name: String = trim(group.name.as_str());
        if name.as_str().is_empty() || name != group.name {
            let mut text: String = "group name must be trimmed and non-empty: ".to_owned();
            text.append(quoted(group.name.as_str()).as_str());
            return Err(PersistError::Invalid(text));
        }
        let folded: String = to_lowercase(name.as_str());
        let mut taken: bool = false;
        let mut j: usize = 0;
        while j < seen_names.len()
            invariant
                j <= seen_names@.len(),
                seen_names@.len() == i,
                i < groups.len(),
                folded@ == lowercase_text(name@),
                forall|k: int| 0 <= k < i ==> (#[trigger] seen_names@[k])@ == lowercase_text(groups[k].name),
                taken <==> exists|k: int| 0 <= k < j && lowercase_text((#[trigger] groups[k]).name) == folded@,
            decreases seen_names@.len() - j,
        {
            if seen_names[j] == folded {
                taken = true;
                assert(lowercase_text(groups[j as int].name) == folded@);
            }
            j = j + 1;
        }
        if taken {
            let mut text: String = "duplicate group name: ".to_owned();
            text.append(name.as_str());
            return Err(PersistError::Invalid(text));
        }
        if group.members.len() == 0 {
            let mut text: String = "group ".to_owned();
            text.append(name.as_str());
            text.append(" has no members");
            return Err(PersistError::Invalid(text));
        }
        let repeat: Option<usize> = find_repeat(&group.members);
        if let Some(at) = repeat {
            let mut text: String = "group ".to_owned();
            text.append(name.as_str());
            text.append(" lists receiver ");
            text.append(group.members[at].receiver.to_string().as_str());
            text.append(" more than once");
            return Err(PersistError::Invalid(text));
        }
        seen_names.push(folded);
        i = i + 1;
    }
    Ok(())
}

/// Position of the first member whose receiver occurred before.
pub(crate) fn find_repeat(members: &Vec<SavedGroupMember>) -> (r: Option<usize>)
    ensures
        r is Some <==> repeats_within(
            crate::model::member_views(members@),
            members@.len() as int,
        ),
        r matches Some(at) ==> at < members@.len()
            && first_repeat(crate::model::member_views(members@), 0) == at,
        r is None ==> first_repeat(crate::model::member_views(members@), 0) < 0,
{
    let ghost views = crate::model::member_views(members@);
    let mut seen: IdSet = IdSet::new();
    let mut i: usize = 0;
    while i < members.len()
        invariant
            i <= members@.len(),
            views == crate::model::member_views(members@),
            forall|id: ReceiverId| seen@.contains(id) <==> exists|k: int|
                0 <= k < i && (#[trigger] views[k]).receiver == id,
            !repeats_within(views, i as int),
            first_repeat(views, 0) == first_repeat(views, i as int),
        decreases members@.len() - i,
    {
        let receiver: ReceiverId = members[i].receiver;
        assert(views[i as int].receiver == receiver);
        if seen.contains(receiver) {
            proof {
                let k = choose|k: int| 0 <= k < i && (#[trigger] views[k]).receiver == receiver;
                assert(0 <= k < i < i + 1 && views[k].receiver == views[i as int].receiver);
                assert(repeats_within(views, i + 1));
            }
            return Some(i);
        }
        let ghost before = seen@;
        seen.insert(receiver);
        proof {
            assert forall|id: ReceiverId| seen@.contains(id) <==> exists|k: int|
                0 <= k < i + 1 && (#[trigger] views[k]).receiver == id by {
                if before.contains(id) {
                    let k = choose|k: int| 0 <= k < i && (#[trigger] views[k]).receiver == id;
                    assert(0 <= k < i + 1 && views[k].receiver == id);
                }
                if id == receiver {
                    assert(0 <= i < i + 1 && views[i as int].receiver == id);
                }
            }
            if repeats_within(views, i + 1) {
                let (a, b) = choose|a: int, b: int|
                    0 <= a < b < i + 1
                        && (#[trigger] views[a]).receiver == (#[trigger] views[b]).receiver;
                if b < i {
                    assert(repeats_within(views, i as int));
                } else {
                    assert(before.contains(views[a].receiver));
                }
            }
        }
        i = i + 1;
    }
    None
}

impl PersistedStateV1 {
    /// Checks every schema-v1 invariant beyond what value types enforce.
    ///
    /// Violations mean the file was written by an incompatible producer;
    /// callers must not silently repair them.
    pub fn validate(&self) -> (r: Result<(), PersistError>)
        ensures
            reports_problem(r, document_problem(self@, 1)),
    {
        if self.version != 1 {
            return Err(PersistError::Invalid(unsupported_version(self.version)));
        }
        validate_preferences(self.latency_preset, &self.saved_groups)
    }
}

/// Outcome of loading device state.
#[derive(Debug, PartialEq)]
pub enum LoadOutcome {
    /// The state file existed and passed validation.
    Loaded(PersistedStateV1),
    /// No state exists yet; defaults apply.
    FreshDefaults,
    /// The state file was corrupt or unreadable and was renamed with a
    /// `.corrupt-<unix_ms>` suffix; defaults apply.
    RecoveredCorrupt {
        /// Preserved evidence file next to the original location.
        quarantined_path: String,
    },
    /// No state file existed and the legacy `volume.txt` seeded
    /// `master_volume`; the legacy file is kept untouched and the seeded
    /// snapshot was written under the new schema so migration happens once.
    MigratedLegacyVolume {
        /// Defaults with the seeded master volume.
        state: PersistedStateV1,
        /// Legacy source file that remains in place.
        legacy_source: String,
    },
}

impl LoadOutcome {
    /// Consumes the outcome and yields the effective persisted state.
    pub fn into_state(self) -> (r: PersistedStateV1)
        ensures
            self matches LoadOutcome::Loaded(state) ==> r@ == state@,
            self matches LoadOutcome::MigratedLegacyVolume { state, .. } ==> r@ == state@,
            self is FreshDefaults || self is RecoveredCorrupt ==> is_default_state(r@, 1),
    {
        match self {
            LoadOutcome::Loaded(state) => state,
            LoadOutcome::MigratedLegacyVolume { state, .. } => state,
            LoadOutcome::FreshDefaults => PersistedStateV1::default(),
            LoadOutcome::RecoveredCorrupt { .. } => PersistedStateV1::default(),
        }
    }
}

/// On-disk device-state document shape detected while loading.
#[derive(Debug, PartialEq)]
pub enum StateDocument {
    /// A schema-v1 document.
    V1(PersistedStateV1),
    /// A schema-v2 document.
    V2(PersistedStateV2),
}

/// Why a state document could not be parsed.
#[derive(Debug, PartialEq, Eq)]
pub enum ParseStateError {
    /// The bytes are not JSON or do not name any schema version.
    Unrecognizable,
    /// The document names a version this build does not know.
    UnknownVersion(u32),
    /// The document names schema version 2 but violates its shape.
    MalformedSchemaV2(String),
}

/// Schema versions this build reads.
#[derive(Clone, Copy, Debug, PartialEq, Eq, Structural)]
pub enum SchemaVersion {
    /// Version 1.
    V1,
    /// Version 2.
    V2,
}

/// Chooses the document type to parse by the version a document names.
///
/// `None` means the bytes name no version at all, so unknown versions stay
/// distinguishable from random corruption.
pub fn schema_of_version(version: Option<u32>) -> (r: Result<SchemaVersion, ParseStateError>)
    ensures
        r == (match version {
            None => Err::<SchemaVersion, ParseStateError>(ParseStateError::Unrecognizable),
            Some(1) => Ok(SchemaVersion::V1),
            Some(2) => Ok(SchemaVersion::V2),
            Some(other) => Err(ParseStateError::UnknownVersion(other)),
        }),
{
    match version {
        None => Err(ParseStateError::Unrecognizable),
        Some(1) => Ok(SchemaVersion::V1),
        Some(2) => Ok(SchemaVersion::V2),
        Some(other) => Err(ParseStateError::UnknownVersion(other)),
    }
}

/// Result of parsing a document as schema version 1.
///
/// A document that names version 1 but violates its shape is
/// unrecognizable.
pub fn document_v1(parsed: Option<PersistedStateV1>) -> (r: Result<StateDocument, ParseStateError>)
    ensures
        r == (match parsed {
            Some(state) => Ok::<StateDocument, ParseStateError>(StateDocument::V1(state)),
            None => Err(ParseStateError::Unrecognizable),
        }),
{
    match parsed {
        Some(state) => Ok(StateDocument::V1(state)),
        None => Err(ParseStateError::Unrecognizable),
    }
}

/// Result of parsing a document as schema version 2; the parser's complaint
/// is kept.
pub fn document_v2(
    parsed: Result<PersistedStateV2, String>,
) -> (r: Result<StateDocument, ParseStateError>)
    ensures
        r == (match parsed {
            Ok(state) => Ok::<StateDocument, ParseStateError>(StateDocument::V2(state)),
            Err(error) => Err(ParseStateError::MalformedSchemaV2(error)),
        }),
{
    match parsed {
        Ok(state) => Ok(StateDocument::V2(state)),
        Err(error) => Err(ParseStateError::MalformedSchemaV2(error)),
    }
}

/// The name an unreadable state file is set aside under, so the evidence
/// survives.
pub fn quarantined_file_name(unix_millis: u64) -> (r: String)
    ensures
        r@ == "state-v1.json.corrupt-"@ + decimal_text(unix_millis as int),
{
    let mut name: String = "state-v1.json.corrupt-".to_owned();
    name.append(decimal(unix_millis).as_str());
    name
}

/// What reading the state file gave.
#[derive(Debug)]
pub enum StateRead {
    /// There is no state file.
    Missing,
    /// The file exists but could not be read.
    Unreadable(String),
    /// The file was read and parsed, or failed to parse.
    Document(Result<StateDocument, ParseStateError>),
}

/// What loading has to do next.
#[derive(Debug)]
pub enum LoadDecision {
    /// The state is loaded.
    Use(PersistedStateV1),
    /// There is no state; legacy migration or fresh defaults apply.
    Missing,
    /// The file must be set aside and defaults apply.
    Quarantine,
}

/// The schema-v1 shape of a document.
pub open spec fn document_state(document: StateDocument) -> PersistedView {
    match document {
        StateDocument::V1(state) => state@,
        StateDocument::V2(state) => v1_projection(state@),
    }
}

/// The first problem of a document.
pub open spec fn any_document_problem(document: StateDocument) -> Option<Seq<char>> {
    match document {
        StateDocument::V1(state) => document_problem(state@, 1),
        StateDocument::V2(state) => document_problem(state@.base, 2),
    }
}

/// Decides what a read of the state file means for a launch.
///
/// A document this build cannot read, whether from a newer build, malformed,
/// or unreadable, is quarantined rather than refused: a launch that refuses
/// would refuse identically every time afterwards. A document that parses but
/// violates an invariant is an error.
pub fn decide_load(read: StateRead) -> (r: Result<LoadDecision, PersistError>)
    ensures
        read is Missing ==> r == Ok::<LoadDecision, PersistError>(LoadDecision::Missing),
        read is Unreadable ==> r == Ok::<LoadDecision, PersistError>(LoadDecision::Quarantine),
        read matches StateRead::Document(Err(_))
            ==> r == Ok::<LoadDecision, PersistError>(LoadDecision::Quarantine),
        read matches StateRead::Document(Ok(document)) ==> match any_document_problem(document) {
            None => r matches Ok(LoadDecision::Use(state)) && state@ == document_state(document),
            Some(problem) => r matches Err(PersistError::Invalid(message)) && message@ == problem,
        },
{
    match read {
        StateRead::Missing => Ok(LoadDecision::Missing),
        StateRead::Unreadable(_) => Ok(LoadDecision::Quarantine),
        StateRead::Document(Err(_)) => Ok(LoadDecision::Quarantine),
        StateRead::Document(Ok(StateDocument::V1(state))) => {
            match state.validate() {
                Ok(_) => Ok(LoadDecision::Use(state)),
                Err(error) => Err(error),
            }
        },
        StateRead::Document(Ok(StateDocument::V2(state))) => {
            match state.validate() {
                Ok(_) => Ok(LoadDecision::Use(state.into_v1_projection())),
                Err(error) => Err(error),
            }
        },
    }
}

/// The calibration section a read of the state file carries.
///
/// Only a missing file, or a document without one, means there is none; a
/// file that could not be read is an error, so a persisted alignment never
/// vanishes from a launch with nothing to show for it.
pub fn decide_calibration(read: StateRead) -> (r: Result<Option<CalibrationStateV2>, PersistError>)
    ensures
        read matches StateRead::Unreadable(error)
            ==> r == Err::<Option<CalibrationStateV2>, PersistError>(PersistError::Io(error)),
        read matches StateRead::Document(Ok(StateDocument::V2(state)))
            ==> r == Ok::<Option<CalibrationStateV2>, PersistError>(Some(state.calibration)),
        !(read is Unreadable) && !(read matches StateRead::Document(Ok(StateDocument::V2(_))))
            ==> r == Ok::<Option<CalibrationStateV2>, PersistError>(None),
{
    match read {
        StateRead::Unreadable(error) => Err(PersistError::Io(error)),
        StateRead::Document(Ok(StateDocument::V2(state))) => Ok(Some(state.calibration)),
        _ => Ok(None),
    }
}

/// The calibration a write over `read` must carry forward.
pub open spec fn carried_calibration(read: StateRead) -> Option<CalibrationView> {
    match read {
        StateRead::Document(Ok(StateDocument::V2(state))) => Some(state.calibration@),
        _ => None,
    }
}

/// Decides the document an ordinary save writes.
///
/// If the file currently carries a calibration section, it is carried forward
/// so ordinary volume or group saves never drop it. A file that exists but
/// could not be read is not evidence that there is no such section, so the
/// save is refused before anything is written.
pub fn plan_save(
    state: &PersistedStateV1,
    read: StateRead,
) -> (r: Result<StateDocument, PersistError>)
    ensures
        document_problem(state@, 1) matches Some(problem)
            ==> r matches Err(PersistError::Invalid(message)) && message@ == problem,
        document_problem(state@, 1) is None ==> match read {
            StateRead::Unreadable(error) => r == Err::<StateDocument, PersistError>(PersistError::Io(error)),
            _ => r matches Ok(document) && saved_as(document, state@, read),
        },
{
    if let Err(error) = state.validate() {
        return Err(error);
    }
    match read {
        StateRead::Unreadable(error) => Err(PersistError::Io(error)),
        StateRead::Document(Ok(StateDocument::V2(existing))) => {
            let mut upgraded: PersistedStateV2 = PersistedStateV2::from_v1(state);
            upgraded.calibration = existing.calibration;
            Ok(StateDocument::V2(upgraded))
        },
        _ => Ok(StateDocument::V1(state.clone())),
    }
}

/// A calibration write.
#[derive(Debug)]
pub struct CalibrationSave {
    /// Whether the current file must be set aside first.
    pub quarantine_first: bool,
    /// The document to write.
    pub document: PersistedStateV2,
}

/// Decides the document a calibration write produces.
///
/// The current document, promoted to schema version 2, receives the section;
/// `None` stores an empty profile. Only a missing file means there is nothing
/// to merge into. Unrecognizable content is quarantined before being replaced;
/// a newer version, a malformed schema-v2 document, or an unreadable file
/// refuses the write, because rewriting it blind would replace every other
/// field with defaults.
pub fn plan_calibration_save(
    read: StateRead,
    calibration: Option<CalibrationStateV2>,
) -> (r: Result<CalibrationSave, PersistError>)
    ensures
        ({
            let section = match calibration {
                Some(section) => section@,
                None => no_calibration(),
            };
            match read {
                StateRead::Unreadable(error) =>
                    r == Err::<CalibrationSave, PersistError>(PersistError::Io(error)),
                StateRead::Document(Err(ParseStateError::UnknownVersion(version))) =>
                    r matches Err(PersistError::Invalid(message))
                        && message@ == "unsupported schema version "@ + decimal_text(version as int),
                StateRead::Document(Err(ParseStateError::MalformedSchemaV2(error))) =>
                    r matches Err(PersistError::Invalid(message))
                        && message@ == "schema-v2 state is invalid: "@ + error@,
                StateRead::Document(Err(ParseStateError::Unrecognizable)) =>
                    r matches Ok(save) && save.quarantine_first
                        && is_default_state(save.document@.base, 2)
                        && save.document@.calibration == section,
                StateRead::Missing =>
                    r matches Ok(save) && !save.quarantine_first
                        && is_default_state(save.document@.base, 2)
                        && save.document@.calibration == section,
                StateRead::Document(Ok(StateDocument::V1(state))) =>
                    calibration_merged(r, promoted(state@, section)),
                StateRead::Document(Ok(StateDocument::V2(state))) =>
                    calibration_merged(r, (PersistedViewV2 { base: state@.base, calibration: section })),
            }
        }),
{
    let section: CalibrationStateV2 = match calibration {
        Some(section) => section,
        None => CalibrationStateV2::default(),
    };
    let mut quarantine_first: bool = false;
    let mut document: PersistedStateV2 = match read {
        StateRead::Unreadable(error) => {
            return Err(PersistError::Io(error));
        },
        StateRead::Document(Err(ParseStateError::UnknownVersion(version))) => {
            return Err(PersistError::Invalid(unsupported_version(version)));
        },
        StateRead::Document(Err(ParseStateError::MalformedSchemaV2(error))) => {
            let mut text: String = "schema-v2 state is invalid: ".to_owned();
            text.append(error.as_str());
            return Err(PersistError::Invalid(text));
        },
        StateRead::Document(Err(ParseStateError::Unrecognizable)) => {
            quarantine_first = true;
            PersistedStateV2::default()
        },
        StateRead::Missing => PersistedStateV2::default(),
        StateRead::Document(Ok(StateDocument::V1(state))) => PersistedStateV2::from_v1(&state),
        StateRead::Document(Ok(StateDocument::V2(state))) => state,
    };
    document.calibration = section;
    match document.validate() {
        Ok(_) => Ok(CalibrationSave { quarantine_first, document }),
        Err(error) => Err(error),
    }
}

/// Whether `result` writes exactly `document`, or reports its first problem.
pub open spec fn calibration_merged(
    result: Result<CalibrationSave, PersistError>,
    document: PersistedViewV2,
) -> bool {
    match document_problem(document.base, 2) {
        None => result matches Ok(save) && !save.quarantine_first && save.document@ == document,
        Some(problem) => result matches Err(PersistError::Invalid(message)) && message@ == problem,
    }
}

/// A finite number clamped into `0.0..=1.0`.
pub open spec fn clamped_bits(bits: u32) -> u32 {
    if f32_within_unit(bits) {
        bits
    } else if f32_negative(bits) {
        0
    } else {
        ONE_BITS
    }
}

/// The decoded number of a legacy `volume.txt`, clamped into `0.0..=1.0`.
///
/// `parsed` is the bit pattern of the decoded single-precision number, or
/// `None` for content that is no number. Non-finite numbers yield nothing.
pub fn legacy_volume(parsed: Option<u32>) -> (r: Option<Volume>)
    ensures
        match parsed {
            Some(bits) => if f32_finite(bits) {
                r matches Some(v) && v.bits() == clamped_bits(bits)
            } else {
                r is None
            },
            None => r is None,
        },
{
    match parsed {
        None => None,
        Some(bits) => {
            if (bits % 0x8000_0000) / 0x80_0000 >= 255 {
                return None;
            }
            match Volume::new(bits) {
                Ok(volume) => Some(volume),
                Err(_) => {
                    if bits >= 0x8000_0000 {
                        Some(Volume::muted())
                    } else {
                        Some(Volume::unity())
                    }
                },
            }
        },
    }
}

/// A legacy volume file seeds the defaults with its volume.
pub fn migrated_state(volume: Volume) -> (r: PersistedStateV1)
    ensures
        r@.master_volume == volume,
        is_default_but_volume(r@, 1),
{
    let mut state: PersistedStateV1 = PersistedStateV1::default();
    state.master_volume = volume;
    state
}

/// Computes the effective linear volume for one receiver.
///
/// `muted` applies silence while preserving stored values; otherwise the
/// product of master and receiver level, given by its bit pattern, is used.
pub fn effective_volume(product: u32, muted: bool) -> (r: Volume)
    ensures
        muted ==> r.bits() == 0,
        !muted && f32_within_unit(product) ==> r.bits() == product,
        !muted && !f32_within_unit(product) ==> r.bits() == 0,
{
    if muted {
        return Volume::muted();
    }
    match Volume::new(product) {
        Ok(volume) => volume,
        Err(_) => Volume::muted(),
    }
}

/// The document an ordinary save of `state` writes over `read`.
pub open spec fn saved_as(document: StateDocument, state: PersistedView, read: StateRead) -> bool {
    match carried_calibration(read) {
        Some(calibration) => document matches StateDocument::V2(written) && written@ == promoted(
            state,
            calibration,
        ),
        None => document matches StateDocument::V1(written) && written@ == state,
    }
}

/// What a save writes, a later load returns: the document is valid, it holds
/// exactly the state saved, and it still carries the calibration section of
/// the document it replaced.
pub proof fn law_saved_state_loads_back(
    document: StateDocument,
    state: PersistedView,
    read: StateRead,
)
    requires
        document_problem(state, 1) is None,
        saved_as(document, state, read),
    ensures
        any_document_problem(document) is None,
        document_state(document) == state,
        carried_calibration(StateRead::Document(Ok(document))) == carried_calibration(read),
{
}

/// Writing a calibration over a valid document keeps every other field of it.
pub proof fn law_calibration_write_keeps_every_other_field(
    state: PersistedView,
    old_section: CalibrationView,
    new_section: CalibrationView,
)
    requires
        document_problem(state, 1) is None,
    ensures
        ({
            let written = PersistedViewV2 {
                base: promoted(state, old_section).base,
                calibration: new_section,
            };
            &&& document_problem(written.base, 2) is None
            &&& v1_projection(written) == state
            &&& written.calibration == new_section
        }),
{
}

} // verus!
