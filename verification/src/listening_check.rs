//! Session/configuration binding for a finite, explicitly requested test tone.

use vstd::prelude::*;

use crate::idmap::{IdMap, IdSet};
use crate::ids::ReceiverId;
use crate::model::{
    endpoint_view, AudioEndpoint, AudioEndpointPreference, AudioSourceState, DeviceSnapshot,
    EndpointView, LatencyPreset, PreferenceView, RunIntent, SessionPhase, SnapshotView,
};
use crate::persistence::{are_same_levels, same_levels};
use crate::text::{decimal, decimal_text};
use crate::volume::{f32_units, Volume};

verus! {

/// Bit pattern of `0.15`, the loudest master volume a test tone may use.
pub const TEST_TONE_LIMIT_BITS: u32 = 0x3E19_999A;

/// Exact audio configuration authorized by the user's listening-check start.
///
/// Kept inside the backend; its debug representation excludes device
/// identities.
#[derive(PartialEq)]
pub struct ListeningTestGuard {
    generation: u64,
    members: IdSet,
    volume: Volume,
    levels: IdMap<Volume>,
    endpoint: AudioEndpointPreference,
    captured: Option<AudioEndpoint>,
}

/// What a guard authorizes.
pub struct GuardView {
    /// Session generation.
    pub generation: u64,
    /// Connected members.
    pub members: Set<ReceiverId>,
    /// Master volume.
    pub volume: Volume,
    /// Per-receiver levels.
    pub levels: Map<ReceiverId, Volume>,
    /// Endpoint preference.
    pub endpoint: PreferenceView,
    /// Captured endpoint.
    pub captured: Option<EndpointView>,
}

impl View for ListeningTestGuard {
    type V = GuardView;

    closed spec fn view(&self) -> GuardView {
        GuardView {
            generation: self.generation,
            members: self.members@,
            volume: self.volume,
            levels: self.levels@,
            endpoint: self.endpoint@,
            captured: endpoint_view(self.captured),
        }
    }
}

/// Whether a snapshot shows a fully connected, unmuted, low-volume session
/// with a working source and no silenced member.
pub open spec fn tone_is_safe(s: SnapshotView) -> bool {
    &&& s.session.phase is Streaming
    &&& s.run_intent == RunIntent::Running
    &&& !s.muted
    &&& s.desired_members != Set::<ReceiverId>::empty()
    &&& s.session.active == s.desired_members
    &&& 0 < s.master_volume.units() <= f32_units(TEST_TONE_LIMIT_BITS)
    &&& s.latency_preset == LatencyPreset::Normal
    &&& s.audio_source.state == AudioSourceState::Capturing
        || s.audio_source.state == AudioSourceState::SilentSystem
    &&& forall|id: ReceiverId| #[trigger] s.desired_members.contains(id)
        && s.receiver_levels.contains_key(id) ==> s.receiver_levels[id].units() > 0
}

/// The guard a snapshot yields.
pub open spec fn guard_of(s: SnapshotView) -> Option<GuardView> {
    if tone_is_safe(s) {
        Some(
            GuardView {
                generation: s.session.phase->Streaming_generation,
                members: s.desired_members,
                volume: s.master_volume,
                levels: s.receiver_levels,
                endpoint: s.audio_source.preference,
                captured: s.audio_source.captured_endpoint,
            },
        )
    } else {
        None
    }
}

/// Whether two guards authorize the same configuration; volumes are compared
/// as numbers.
pub open spec fn same_guard(a: GuardView, b: GuardView) -> bool {
    &&& a.generation == b.generation
    &&& a.members == b.members
    &&& a.volume.units() == b.volume.units()
    &&& same_levels(a.levels, b.levels)
    &&& a.endpoint == b.endpoint
    &&& a.captured == b.captured
}

/// Whether a snapshot still has the configuration a guard authorizes.
pub open spec fn guard_holds(guard: GuardView, s: SnapshotView) -> bool {
    guard_of(s) matches Some(now) && same_guard(now, guard)
}

/// `core::fmt::Formatter`, carried through to [`write_text`].
#[verifier::external_type_specification]
#[verifier::external_body]
pub struct ExFormatter<'a>(core::fmt::Formatter<'a>);

/// `core::fmt::Error`, which a formatter's sink may report.
#[verifier::external_type_specification]
#[verifier::external_body]
pub struct ExFormatError(core::fmt::Error);

/// Calls `core::fmt::Formatter::write_str` with `text`. Nothing is claimed of
/// the result: what is written stays with the formatter's sink, which alone
/// decides whether writing fails.
#[verifier::external_body]
fn write_text(f: &mut core::fmt::Formatter<'_>, text: &str) -> (r: Result<(), core::fmt::Error>) {
    f.write_str(text)
}

impl core::fmt::Debug for ListeningTestGuard {
    fn fmt(&self, f: &mut core::fmt::Formatter<'_>) -> (r: Result<(), core::fmt::Error>) {
        let text: String = self.describe();
        write_text(f, text.as_str())
    }
}

/// A guard rendered for records: its generation and how many receivers it
/// binds, and nothing that identifies a device.
pub open spec fn guard_text(generation: u64, receivers: nat) -> Seq<char> {
    "ListeningTestGuard { generation: "@ + decimal_text(generation as int) + ", receivers: "@
        + decimal_text(receivers as int) + ", .. }"@
}

impl ListeningTestGuard {
    /// Captures only a fully connected, unmuted and low-volume configuration.
    pub fn capture(s: &DeviceSnapshot) -> (r: Option<Self>)
        ensures
            match guard_of(s@) {
                Some(guard) => r matches Some(g) && g@ == guard,
                None => r is None,
            },
    {
        let generation: u64 = match &s.session.phase {
            SessionPhase::Streaming { generation } => *generation,
            _ => {
                return None;
            },
        };
        let live: bool = match s.audio_source.state {
            AudioSourceState::Capturing => true,
            AudioSourceState::SilentSystem => true,
            _ => false,
        };
        if s.run_intent != RunIntent::Running || s.muted || s.desired_members.is_empty()
            || !s.session.active.same_as(&s.desired_members) || s.master_volume.is_silent()
            || !s.master_volume.at_most(TEST_TONE_LIMIT_BITS)
            || s.latency_preset != LatencyPreset::Normal || !live
            || has_silenced_member(&s.desired_members, &s.receiver_levels) {
            return None;
        }
        Some(ListeningTestGuard {
            generation,
            members: s.desired_members.copied(),
            volume: s.master_volume,
            levels: s.receiver_levels.copied(),
            endpoint: s.audio_source.preference.clone(),
            captured: match &s.audio_source.captured_endpoint {
                Some(endpoint) => Some(endpoint.clone()),
                None => None,
            },
        })
    }

    /// Backend generation, never a shell generation or a clock timestamp.
    pub fn generation(&self) -> (r: u64)
        ensures
            r == self@.generation,
    {
        self.generation
    }

    /// Renders the guard without device identities.
    pub fn describe(&self) -> (r: String)
        ensures
            r@ == guard_text(self@.generation, self@.members.len()),
    {
        let mut text: String = "ListeningTestGuard { generation: ".to_owned();
        text.append(decimal(self.generation).as_str());
        text.append(", receivers: ");
        text.append(decimal(self.members.len() as u64).as_str());
        text.append(", .. }");
        text
    }

    /// Rejects changed configuration even if the new volume is also low.
    pub fn matches(&self, snapshot: &DeviceSnapshot) -> (r: bool)
        ensures
            r == guard_holds(self@, snapshot@),
    {
        match ListeningTestGuard::capture(snapshot) {
            Some(now) => {
                now.generation == self.generation && now.members.same_as(&self.members)
                    && now.volume == self.volume && are_same_levels(&now.levels, &self.levels)
                    && now.endpoint.same_as(&self.endpoint)
                    && is_same_endpoint(&now.captured, &self.captured)
            },
            None => false,
        }
    }
}

fn is_same_endpoint(a: &Option<AudioEndpoint>, b: &Option<AudioEndpoint>) -> (r: bool)
    ensures
        r <==> endpoint_view(*a) == endpoint_view(*b),
{
    match (a, b) {
        (None, None) => true,
        (Some(x), Some(y)) => x.id == y.id && x.name == y.name,
        _ => false,
    }
}

/// Whether some member's level is zero.
fn has_silenced_member(members: &IdSet, levels: &IdMap<Volume>) -> (r: bool)
    ensures
        r <==> exists|id: ReceiverId| #[trigger] members@.contains(id) && levels@.contains_key(id)
            && levels@[id].units() == 0,
{
    let len: usize = members.len();
    let mut i: usize = 0;
    while i < len
        invariant
            i <= len,
            len == members.order().len(),
            members.order().to_set() == members@,
            forall|j: int| 0 <= j < i ==> !(levels@.contains_key(#[trigger] members.order()[j])
                && levels@[members.order()[j]].units() == 0),
        decreases len - i,
    {
        let id: ReceiverId = members.at(i);
        if let Some(level) = levels.get(id) {
            if level.is_silent() {
                return true;
            }
        }
        i = i + 1;
    }
    proof {
        assert forall|id: ReceiverId| members@.contains(id) implies !(levels@.contains_key(id)
            && levels@[id].units() == 0) by {
            assert(members.order().to_set().contains(id));
            let k = members.order().index_of(id);
            assert(members.order()[k] == id);
        }
    }
    false
}

/// A guard holds for the snapshot it was captured from, and for no snapshot
/// whose configuration differs in anything it binds.
pub proof fn law_guard_binds_its_configuration(origin: SnapshotView, later: SnapshotView)
    requires
        guard_of(origin) is Some,
    ensures
        guard_holds(guard_of(origin)->0, origin),
        guard_holds(guard_of(origin)->0, later) ==> {
            &&& tone_is_safe(later)
            &&& later.session.phase == origin.session.phase
            &&& later.desired_members == origin.desired_members
            &&& later.session.active == origin.session.active
            &&& later.master_volume.units() == origin.master_volume.units()
            &&& same_levels(later.receiver_levels, origin.receiver_levels)
            &&& later.audio_source.preference == origin.audio_source.preference
            &&& later.audio_source.captured_endpoint == origin.audio_source.captured_endpoint
        },
{
}

} // verus!
