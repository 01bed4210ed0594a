//! Domain value types and the authoritative `DeviceSnapshot`.
//!
//! Snapshots are presentation-safe by construction: they hold no transport,
//! socket, key, or connection value. Receiver identity is always a validated
//! [`ReceiverId`]; display names are mutable metadata and never identity.

use std::collections::VecDeque;

use vstd::prelude::*;

use crate::idmap::{IdMap, IdSet};
use crate::text::{
    in_publication_order, is_text_before, law_listing_ignores_arrival_order, law_listing_sorts,
    lemma_bytes_order,
    lemma_listing_projects, listed, lowercase_text, sort_for_listing, text_before, to_lowercase,
    PublicationOrder, Ranked,
};
use crate::time::SystemTime;

pub use crate::ids::{ModelError, ReceiverId};
pub use crate::volume::Volume;

verus! {

/// Bits that mark a random (version four, variant one) identifier.
pub const RANDOM_ID_MARK: u128 = 0x0000_0000_0000_4000_8000_0000_0000_0000;

/// Bits fixed by the version and variant fields of an identifier.
pub const RANDOM_ID_MASK: u128 = 0x0000_0000_0000_F000_C000_0000_0000_0000;

/// Stable saved-group identifier: a 128-bit universally unique identifier.
#[derive(Clone, Copy, Debug, PartialEq, Eq, PartialOrd, Ord, Hash, Structural)]
pub struct SavedGroupId {
    bits: u128,
}

/// Calls `uuid::Uuid::new_v4` and reads the identifier as one big-endian
/// integer. The bits are random except for the version field, which is four,
/// and the two variant bits, which are one and zero. It takes its randomness
/// from the platform, so nothing else is said of the bits.
#[verifier::external_body]
fn random_identifier() -> (r: u128)
    ensures
        r & RANDOM_ID_MASK == RANDOM_ID_MARK,
{
    uuid::Uuid::new_v4().as_u128()
}

impl SavedGroupId {
    /// The identifier as one big-endian integer.
    pub closed spec fn bits(self) -> u128 {
        self.bits
    }

    /// Lossless stable-ID projection for independent consumers.
    pub fn as_uuid(self) -> (r: u128)
        ensures
            r == self.bits(),
    {
        self.bits
    }

    /// Restores an identity previously projected with `as_uuid`.
    pub fn from_uuid(id: u128) -> (r: Self)
        ensures
            r.bits() == id,
    {
        SavedGroupId { bits: id }
    }

    /// Generates a fresh random group ID.
    pub fn generate() -> (r: Self)
        ensures
            r.bits() & RANDOM_ID_MASK == RANDOM_ID_MARK,
    {
        SavedGroupId { bits: random_identifier() }
    }
}

/// Projecting a group identity and restoring it gives the same identity.
pub proof fn law_group_identity_round_trip(a: SavedGroupId, b: SavedGroupId)
    ensures
        a.bits() == b.bits() ==> a == b,
{
}

/// A member entry of a [`SavedGroup`]: stable identity plus last-known label.
#[derive(Debug, PartialEq)]
pub struct SavedGroupMember {
    /// Stable receiver identity; never an index or address.
    pub receiver: ReceiverId,
    /// Last-seen display name, kept only for offline presentation.
    pub last_known_name: String,
    /// Intended per-receiver balance restored with the group.
    pub level: Volume,
}

/// What a saved-group member holds.
#[verifier::ext_equal]
pub struct MemberView {
    /// Stable receiver identity.
    pub receiver: ReceiverId,
    /// Last-seen display name.
    pub last_known_name: Seq<char>,
    /// Intended balance.
    pub level: Volume,
}

impl View for SavedGroupMember {
    type V = MemberView;

    open spec fn view(&self) -> MemberView {
        MemberView {
            receiver: self.receiver,
            last_known_name: self.last_known_name@,
            level: self.level,
        }
    }
}

impl Clone for SavedGroupMember {
    fn clone(&self) -> (r: Self)
        ensures
            r == *self,
    {
        SavedGroupMember {
            receiver: self.receiver,
            last_known_name: self.last_known_name.clone(),
            level: self.level,
        }
    }
}

/// The members of a list, each as what it holds.
pub open spec fn member_views(members: Seq<SavedGroupMember>) -> Seq<MemberView> {
    Seq::new(members.len(), |i: int| members[i]@)
}

/// A copy of a member list.
pub fn clone_members(members: &Vec<SavedGroupMember>) -> (r: Vec<SavedGroupMember>)
    ensures
        r@ == members@,
{
    let mut out: Vec<SavedGroupMember> = Vec::new();
    let mut i: usize = 0;
    while i < members.len()
        invariant
            i <= members@.len(),
            out@ == members@.take(i as int),
        decreases members@.len() - i,
    {
        out.push(members[i].clone());
        i = i + 1;
        assert(out@ =~= members@.take(i as int));
    }
    assert(out@ =~= members@);
    out
}

/// A user-saved receiver group with trimmed, case-insensitively unique name.
#[derive(Debug, PartialEq)]
pub struct SavedGroup {
    /// Stable group identity.
    pub id: SavedGroupId,
    /// Trimmed display name, unique case-insensitively across saved groups.
    pub name: String,
    /// At least one unique receiver; offline members remain stored and visible.
    pub members: Vec<SavedGroupMember>,
}

/// What a saved group holds.
#[verifier::ext_equal]
pub struct GroupView {
    /// Stable group identity.
    pub id: SavedGroupId,
    /// Display name.
    pub name: Seq<char>,
    /// Members in stored order.
    pub members: Seq<MemberView>,
}

impl View for SavedGroup {
    type V = GroupView;

    open spec fn view(&self) -> GroupView {
        GroupView { id: self.id, name: self.name@, members: member_views(self.members@) }
    }
}

impl Clone for SavedGroup {
    fn clone(&self) -> (r: Self)
        ensures
            r@ == self@,
            r.id == self.id,
            r.name == self.name,
            r.members@ == self.members@,
    {
        SavedGroup {
            id: self.id,
            name: self.name.clone(),
            members: clone_members(&self.members),
        }
    }
}

/// The groups of a list, each as what it holds.
pub open spec fn group_views(groups: Seq<SavedGroup>) -> Seq<GroupView> {
    Seq::new(groups.len(), |i: int| groups[i]@)
}

/// A copy of a group list.
pub fn clone_groups(groups: &Vec<SavedGroup>) -> (r: Vec<SavedGroup>)
    ensures
        group_views(r@) == group_views(groups@),
{
    let mut out: Vec<SavedGroup> = Vec::new();
    let mut i: usize = 0;
    while i < groups.len()
        invariant
            i <= groups@.len(),
            out@.len() == i,
            forall|j: int| 0 <= j < i ==> (#[trigger] out@[j])@ == groups@[j]@,
        decreases groups@.len() - i,
    {
        out.push(groups[i].clone());
        i = i + 1;
    }
    assert(group_views(out@) =~= group_views(groups@));
    out
}

/// Whether the user wants audio to run; desired membership is independent.
#[derive(Clone, Copy, Debug, PartialEq, Eq, PartialOrd, Ord, Hash, Structural)]
pub enum RunIntent {
    /// Do not stream; cancel retries after a bounded teardown.
    Stopped,
    /// Keep the desired group running under normal recovery policy.
    Running,
}

impl Default for RunIntent {
    fn default() -> (r: Self)
        ensures
            r == RunIntent::Stopped,
    {
        RunIntent::Stopped
    }
}

/// Render endpoint selection for capture.
#[derive(Debug, PartialEq, Eq, Hash)]
pub enum AudioEndpointPreference {
    /// Follow the system default render endpoint.
    SystemDefault,
    /// Stay locked to one stable endpoint ID; if it disappears it stays
    /// selected but reported unavailable rather than silently switching.
    Explicit {
        /// Stable endpoint ID.
        id: String,
        /// Display name captured at selection time.
        last_known_name: String,
    },
}

impl Default for AudioEndpointPreference {
    fn default() -> (r: Self)
        ensures
            r == AudioEndpointPreference::SystemDefault,
    {
        AudioEndpointPreference::SystemDefault
    }
}

impl Clone for AudioEndpointPreference {
    fn clone(&self) -> (r: Self)
        ensures
            r == *self,
    {
        match self {
            AudioEndpointPreference::SystemDefault => AudioEndpointPreference::SystemDefault,
            AudioEndpointPreference::Explicit { id, last_known_name } =>
                AudioEndpointPreference::Explicit {
                    id: id.clone(),
                    last_known_name: last_known_name.clone(),
                },
        }
    }
}

/// What an endpoint preference holds.
pub enum PreferenceView {
    /// Follow the system default.
    SystemDefault,
    /// Stay locked to one endpoint.
    Explicit {
        /// Stable endpoint ID.
        id: Seq<char>,
        /// Display name captured at selection time.
        last_known_name: Seq<char>,
    },
}

impl View for AudioEndpointPreference {
    type V = PreferenceView;

    open spec fn view(&self) -> PreferenceView {
        match *self {
            AudioEndpointPreference::SystemDefault => PreferenceView::SystemDefault,
            AudioEndpointPreference::Explicit { id, last_known_name } =>
                PreferenceView::Explicit { id: id@, last_known_name: last_known_name@ },
        }
    }
}

impl AudioEndpointPreference {
    /// Whether both preferences select the same endpoint under the same name.
    pub fn same_as(&self, other: &Self) -> (r: bool)
        ensures
            r <==> self@ == other@,
    {
        match (self, other) {
            (AudioEndpointPreference::SystemDefault, AudioEndpointPreference::SystemDefault) => true,
            (
                AudioEndpointPreference::Explicit { id: a, last_known_name: an },
                AudioEndpointPreference::Explicit { id: b, last_known_name: bn },
            ) => *a == *b && *an == *bn,
            _ => false,
        }
    }
}

/// Product latency preset; the shell never exposes free-form timing values.
#[derive(Clone, Copy, Debug, PartialEq, Eq, PartialOrd, Ord, Hash, Structural)]
pub enum LatencyPreset {
    /// Reduced buffering; disabled until the hardware gate passes.
    Low,
    /// The validated default configuration.
    Normal,
    /// Increased recovery headroom; disabled until the hardware gate passes.
    Stable,
}

impl Default for LatencyPreset {
    fn default() -> (r: Self)
        ensures
            r == LatencyPreset::Normal,
    {
        LatencyPreset::Normal
    }
}

/// Resolved sender-side timing configuration for one enabled preset.
#[derive(Clone, Copy, Debug, PartialEq, Eq, Structural)]
pub struct LatencyConfig {
    /// Sender buffer in milliseconds.
    pub sender_buffer_ms: u32,
    /// Render lead in milliseconds.
    pub render_delay_ms: u32,
}

/// Label of a preset inside user-facing text.
pub open spec fn preset_label(preset: LatencyPreset) -> Seq<char> {
    match preset {
        LatencyPreset::Low => "Low"@,
        LatencyPreset::Normal => "Normal"@,
        LatencyPreset::Stable => "Stable"@,
    }
}

/// Timing configuration of a preset; disabled presets have none.
pub open spec fn preset_config(preset: LatencyPreset) -> Option<LatencyConfig> {
    match preset {
        LatencyPreset::Normal => Some(
            LatencyConfig { sender_buffer_ms: 2_000, render_delay_ms: 200 },
        ),
        _ => None,
    }
}

/// Text that refuses a preset still behind its hardware gate.
pub open spec fn disabled_latency_text(preset: LatencyPreset) -> Seq<char> {
    "the "@ + preset_label(preset)
        + " latency profile is disabled until hardware validation passes"@
}

/// Why a preset is offered but refused, if it is.
pub open spec fn preset_disabled_text(preset: LatencyPreset) -> Option<Seq<char>> {
    if preset_config(preset) is None {
        Some(disabled_latency_text(preset))
    } else {
        None
    }
}

/// Every preset in presentation order.
pub open spec fn all_presets() -> Seq<LatencyPreset> {
    seq![LatencyPreset::Low, LatencyPreset::Normal, LatencyPreset::Stable]
}

impl LatencyPreset {
    /// Every preset the shell offers, in presentation order.
    ///
    /// Gated presets are listed too: hiding them would leave the user unable
    /// to tell a missing feature from a broken one.
    pub fn all() -> (r: [LatencyPreset; 3])
        ensures
            r@ == all_presets(),
    {
        let r = [LatencyPreset::Low, LatencyPreset::Normal, LatencyPreset::Stable];
        assert(r@ =~= all_presets());
        r
    }

    /// Stable English label used inside user-facing text.
    pub fn label(self) -> (r: &'static str)
        ensures
            r@ == preset_label(self),
    {
        match self {
            LatencyPreset::Low => "Low",
            LatencyPreset::Normal => "Normal",
            LatencyPreset::Stable => "Stable",
        }
    }

    /// Resolves the versioned configuration; disabled presets resolve to none
    /// rather than guessing unsafe timing values.
    pub fn enabled_config(self) -> (r: Option<LatencyConfig>)
        ensures
            r == preset_config(self),
    {
        match self {
            LatencyPreset::Normal => Some(
                LatencyConfig { sender_buffer_ms: 2_000, render_delay_ms: 200 },
            ),
            _ => None,
        }
    }

    /// `None` while the preset is selectable, otherwise the user-facing
    /// reason it is offered but refused.
    pub fn disabled_reason(self) -> (r: Option<UserFacingError>)
        ensures
            error_text(r) == preset_disabled_text(self),
    {
        if self.enabled_config().is_none() {
            Some(UserFacingError::disabled_latency(self))
        } else {
            None
        }
    }

    /// Every preset paired with its current availability.
    pub fn offered() -> (r: Vec<LatencyPresetOption>)
        ensures
            r@.len() == 3,
            forall|i: int| 0 <= i < 3 ==> (#[trigger] r@[i]).preset == all_presets()[i]
                && error_text(r@[i].disabled_reason) == preset_disabled_text(all_presets()[i]),
    {
        let all = LatencyPreset::all();
        let mut out: Vec<LatencyPresetOption> = Vec::new();
        let mut i: usize = 0;
        while i < 3
            invariant
                i <= 3,
                all@ == all_presets(),
                out@.len() == i,
                forall|j: int| 0 <= j < i ==> (#[trigger] out@[j]).preset == all_presets()[j]
                    && error_text(out@[j].disabled_reason) == preset_disabled_text(all_presets()[j]),
            decreases 3 - i,
        {
            let preset: LatencyPreset = all[i];
            out.push(LatencyPresetOption { preset, disabled_reason: preset.disabled_reason() });
            i = i + 1;
        }
        out
    }
}

/// A preset carries a refusal reason exactly when it has no configuration.
pub proof fn law_refusal_reason_matches_availability(preset: LatencyPreset)
    ensures
        preset_disabled_text(preset) is None <==> preset_config(preset) is Some,
        preset_config(preset) is Some <==> preset == LatencyPreset::Normal,
{
}

/// One latency preset as offered to the shell.
#[derive(Debug, PartialEq, Eq)]
pub struct LatencyPresetOption {
    /// The preset this row describes.
    pub preset: LatencyPreset,
    /// `None` while the preset is selectable; otherwise the pre-redacted
    /// reason selecting it is rejected.
    pub disabled_reason: Option<UserFacingError>,
}

/// Role of a receiver within the current session generation.
#[derive(Clone, Copy, Debug, PartialEq, Eq, Hash, Structural)]
pub enum ReceiverRole {
    /// Sole receiver on the single-receiver NTP path.
    Single,
    /// PTP clock source shared by every secondary.
    Primary,
    /// Best-effort follower receiving SETPEERS membership.
    Secondary,
}

/// Setup progress reported by the group transport adapter, never inferred by
/// the shell. Variant order reflects real progression.
#[derive(Clone, Copy, Debug, PartialEq, Eq, PartialOrd, Ord, Hash, Structural)]
pub enum SetupPhase {
    /// Opening the RTSP/TCP connection.
    Connect,
    /// HomeKit transient pairing exchange.
    Pair,
    /// Establishing timing with the PTP primary.
    PrimaryTiming,
    /// RTSP SETUP negotiation.
    RtspSetup,
    /// Distributing peer lists for PTP groups.
    SetPeers,
    /// Building the RTP sender targets.
    BuildSender,
    /// First audio packets flowing.
    StartAudio,
}

/// Pre-redacted, shell-safe error summary prepared by the backend.
#[derive(Debug, PartialEq, Eq, Hash)]
pub struct UserFacingError {
    text: String,
}

impl View for UserFacingError {
    type V = Seq<char>;

    closed spec fn view(&self) -> Seq<char> {
        self.text@
    }
}

/// The text of an optional error.
pub open spec fn error_text(error: Option<UserFacingError>) -> Option<Seq<char>> {
    match error {
        Some(e) => Some(e@),
        None => None,
    }
}

impl Clone for UserFacingError {
    fn clone(&self) -> (r: Self)
        ensures
            r == *self,
    {
        UserFacingError { text: self.text.clone() }
    }
}

impl UserFacingError {
    /// Wraps an already redacted user-safe message.
    pub fn new(message: &str) -> (r: Self)
        ensures
            r@ == message@,
    {
        UserFacingError { text: message.to_owned() }
    }

    /// Rejection reason for a latency preset still behind its hardware gate.
    ///
    /// The snapshot row and the command rejection are both built here, so the
    /// text the user reads next to a greyed-out option is exactly the text
    /// they get when something selects it anyway.
    pub fn disabled_latency(preset: LatencyPreset) -> (r: Self)
        ensures
            r@ == disabled_latency_text(preset),
    {
        let mut text: String = "the ".to_owned();
        text.append(preset.label());
        text.append(" latency profile is disabled until hardware validation passes");
        UserFacingError { text }
    }

    /// Returns the user-safe message text.
    pub fn as_str(&self) -> (r: &str)
        ensures
            r@ == self@,
    {
        self.text.as_str()
    }

    /// Renders the message text.
    pub fn to_string(&self) -> (r: String)
        ensures
            r@ == self@,
    {
        self.text.clone()
    }

    /// Whether both errors read the same.
    pub fn same_as(&self, other: &Self) -> (r: bool)
        ensures
            r <==> self@ == other@,
    {
        self.text == other.text
    }
}

/// Lifecycle of one receiver as shown in the authoritative snapshot.
#[derive(Debug, PartialEq, Eq)]
pub enum ReceiverLifecycle {
    /// Present in discovery; no session work attempted yet.
    Discovered,
    /// Connection attempt in progress.
    Connecting {
        /// Zero-based attempt number driving backoff display.
        attempt: u32,
    },
    /// Setup handshake in progress.
    SettingUp {
        /// Role this setup attempt is negotiating towards.
        role: ReceiverRole,
        /// Current transport-reported phase.
        phase: SetupPhase,
    },
    /// Negotiated and ready, audio not yet flowing.
    Ready {
        /// Role negotiated during setup.
        role: ReceiverRole,
    },
    /// Actively receiving the live stream.
    Streaming {
        /// Role held in the current generation.
        role: ReceiverRole,
    },
    /// Waiting for the next scheduled reconnect.
    RetryWaiting {
        /// Attempt number that failed.
        attempt: u32,
        /// Wall-clock deadline of the pending retry.
        retry_at: SystemTime,
    },
    /// Not currently discoverable; stays desired if it was desired.
    Unavailable,
    /// Last attempt failed; recovery policy decides whether to retry.
    Failed {
        /// Whether ordinary retry policy may attempt again.
        retryable: bool,
        /// Pre-redacted reason for presentation.
        error: UserFacingError,
    },
}

/// What a receiver lifecycle says.
pub enum LifecycleView {
    /// Present in discovery.
    Discovered,
    /// Connection attempt in progress.
    Connecting {
        /// Attempt number.
        attempt: u32,
    },
    /// Setup handshake in progress.
    SettingUp {
        /// Role negotiated towards.
        role: ReceiverRole,
        /// Current phase.
        phase: SetupPhase,
    },
    /// Negotiated and ready.
    Ready {
        /// Negotiated role.
        role: ReceiverRole,
    },
    /// Receiving the live stream.
    Streaming {
        /// Held role.
        role: ReceiverRole,
    },
    /// Waiting for a scheduled reconnect.
    RetryWaiting {
        /// Attempt number that failed.
        attempt: u32,
        /// Deadline of the pending retry.
        retry_at: SystemTime,
    },
    /// Not currently discoverable.
    Unavailable,
    /// Last attempt failed.
    Failed {
        /// Whether ordinary policy may retry.
        retryable: bool,
        /// Reason text.
        error: Seq<char>,
    },
}

impl View for ReceiverLifecycle {
    type V = LifecycleView;

    open spec fn view(&self) -> LifecycleView {
        match *self {
            ReceiverLifecycle::Discovered => LifecycleView::Discovered,
            ReceiverLifecycle::Connecting { attempt } => LifecycleView::Connecting { attempt },
            ReceiverLifecycle::SettingUp { role, phase } => LifecycleView::SettingUp { role, phase },
            ReceiverLifecycle::Ready { role } => LifecycleView::Ready { role },
            ReceiverLifecycle::Streaming { role } => LifecycleView::Streaming { role },
            ReceiverLifecycle::RetryWaiting { attempt, retry_at } =>
                LifecycleView::RetryWaiting { attempt, retry_at },
            ReceiverLifecycle::Unavailable => LifecycleView::Unavailable,
            ReceiverLifecycle::Failed { retryable, error } =>
                LifecycleView::Failed { retryable, error: error@ },
        }
    }
}

impl Clone for ReceiverLifecycle {
    fn clone(&self) -> (r: Self)
        ensures
            r == *self,
    {
        match self {
            ReceiverLifecycle::Discovered => ReceiverLifecycle::Discovered,
            ReceiverLifecycle::Connecting { attempt } =>
                ReceiverLifecycle::Connecting { attempt: *attempt },
            ReceiverLifecycle::SettingUp { role, phase } =>
                ReceiverLifecycle::SettingUp { role: *role, phase: *phase },
            ReceiverLifecycle::Ready { role } => ReceiverLifecycle::Ready { role: *role },
            ReceiverLifecycle::Streaming { role } => ReceiverLifecycle::Streaming { role: *role },
            ReceiverLifecycle::RetryWaiting { attempt, retry_at } =>
                ReceiverLifecycle::RetryWaiting { attempt: *attempt, retry_at: *retry_at },
            ReceiverLifecycle::Unavailable => ReceiverLifecycle::Unavailable,
            ReceiverLifecycle::Failed { retryable, error } =>
                ReceiverLifecycle::Failed { retryable: *retryable, error: error.clone() },
        }
    }
}

impl ReceiverLifecycle {
    /// Whether both lifecycles say the same.
    pub fn same_as(&self, other: &Self) -> (r: bool)
        ensures
            r <==> self@ == other@,
    {
        match (self, other) {
            (ReceiverLifecycle::Discovered, ReceiverLifecycle::Discovered) => true,
            (
                ReceiverLifecycle::Connecting { attempt: a },
                ReceiverLifecycle::Connecting { attempt: b },
            ) => *a == *b,
            (
                ReceiverLifecycle::SettingUp { role: a, phase: p },
                ReceiverLifecycle::SettingUp { role: b, phase: q },
            ) => *a == *b && *p == *q,
            (ReceiverLifecycle::Ready { role: a }, ReceiverLifecycle::Ready { role: b }) => *a == *b,
            (
                ReceiverLifecycle::Streaming { role: a },
                ReceiverLifecycle::Streaming { role: b },
            ) => *a == *b,
            (
                ReceiverLifecycle::RetryWaiting { attempt: a, retry_at: t },
                ReceiverLifecycle::RetryWaiting { attempt: b, retry_at: u },
            ) => *a == *b && *t == *u,
            (ReceiverLifecycle::Unavailable, ReceiverLifecycle::Unavailable) => true,
            (
                ReceiverLifecycle::Failed { retryable: a, error: e },
                ReceiverLifecycle::Failed { retryable: b, error: f },
            ) => *a == *b && e.same_as(f),
            _ => false,
        }
    }
}

/// Why an announced full-session restart was required.
///
/// Operations outside this list (volume, mute, levels, metadata, saved-group
/// edits, endpoint swaps) never produce a restart reason.
#[derive(Clone, Copy, Debug, PartialEq, Eq, Hash, Structural)]
pub enum RestartReason {
    /// Applying any added or removed desired member.
    MembershipChange,
    /// Activating a saved group with a different member set.
    SavedGroupActivated,
    /// Reconnecting or rejoining a secondary receiver.
    SecondaryRejoin,
    /// Removing a failed target from the immutable streamer.
    FailedTargetRemoved,
    /// Primary loss or primary replacement.
    PrimaryReplaced,
    /// An active receiver address change.
    ReceiverAddressChanged,
    /// A local network-interface/address change.
    LocalInterfaceChanged,
    /// Transition between one-receiver/NTP and multi-receiver/PTP timing.
    TimingModeTransition,
    /// Stream format, receiver-negotiated timing, or SETUP latency change.
    StreamFormatChanged,
    /// Applying an enabled latency preset.
    LatencyPresetChanged,
    /// System resume after suspend.
    SystemResume,
    /// Recovery after dead RTSP sessions.
    DeadRtspRecovered,
    /// A manual calibration profile was applied or reset.
    CalibrationChanged,
}

/// Phase of the whole session generation.
#[derive(Debug, PartialEq, Eq)]
pub enum SessionPhase {
    /// No session; run intent is stopped or startup has not begun.
    Stopped,
    /// Best-effort setup running for this generation.
    Starting {
        /// Generation performing the setup.
        generation: u64,
    },
    /// Every desired member is active.
    Streaming {
        /// Generation holding the stream.
        generation: u64,
    },
    /// At least one receiver is active but a desired receiver or the capture
    /// source is unavailable.
    Degraded {
        /// Generation operating degraded.
        generation: u64,
    },
    /// An announced full-session restart is in flight.
    Restarting {
        /// Generation being torn down and replaced.
        generation: u64,
        /// Matrix reason driving the restart.
        reason: RestartReason,
    },
    /// Bounded teardown in progress.
    Stopping {
        /// Generation being torn down.
        generation: u64,
    },
    /// Run intent stayed Running but no receiver could be kept active after
    /// best-effort recovery.
    Failed {
        /// Generation that exhausted recovery.
        generation: u64,
        /// Pre-redacted reason for presentation.
        error: UserFacingError,
    },
}

/// What a session phase says.
pub enum PhaseView {
    /// No session.
    Stopped,
    /// Setup running.
    Starting {
        /// Generation tag.
        generation: u64,
    },
    /// Every desired member is active.
    Streaming {
        /// Generation tag.
        generation: u64,
    },
    /// Something desired is missing.
    Degraded {
        /// Generation tag.
        generation: u64,
    },
    /// A restart is in flight.
    Restarting {
        /// Generation tag.
        generation: u64,
        /// Why.
        reason: RestartReason,
    },
    /// Teardown in progress.
    Stopping {
        /// Generation tag.
        generation: u64,
    },
    /// Recovery exhausted.
    Failed {
        /// Generation tag.
        generation: u64,
        /// Reason text.
        error: Seq<char>,
    },
}

impl View for SessionPhase {
    type V = PhaseView;

    open spec fn view(&self) -> PhaseView {
        match *self {
            SessionPhase::Stopped => PhaseView::Stopped,
            SessionPhase::Starting { generation } => PhaseView::Starting { generation },
            SessionPhase::Streaming { generation } => PhaseView::Streaming { generation },
            SessionPhase::Degraded { generation } => PhaseView::Degraded { generation },
            SessionPhase::Restarting { generation, reason } =>
                PhaseView::Restarting { generation, reason },
            SessionPhase::Stopping { generation } => PhaseView::Stopping { generation },
            SessionPhase::Failed { generation, error } =>
                PhaseView::Failed { generation, error: error@ },
        }
    }
}

impl Default for SessionPhase {
    fn default() -> (r: Self)
        ensures
            r == SessionPhase::Stopped,
    {
        SessionPhase::Stopped
    }
}

impl Clone for SessionPhase {
    fn clone(&self) -> (r: Self)
        ensures
            r == *self,
    {
        match self {
            SessionPhase::Stopped => SessionPhase::Stopped,
            SessionPhase::Starting { generation } => SessionPhase::Starting { generation: *generation },
            SessionPhase::Streaming { generation } => SessionPhase::Streaming { generation: *generation },
            SessionPhase::Degraded { generation } => SessionPhase::Degraded { generation: *generation },
            SessionPhase::Restarting { generation, reason } =>
                SessionPhase::Restarting { generation: *generation, reason: *reason },
            SessionPhase::Stopping { generation } => SessionPhase::Stopping { generation: *generation },
            SessionPhase::Failed { generation, error } =>
                SessionPhase::Failed { generation: *generation, error: error.clone() },
        }
    }
}

/// Whether the PCM bridge carries live capture or paced silence.
#[derive(Clone, Copy, Debug, PartialEq, Eq, Hash, Structural)]
pub enum AudioFlow {
    /// Live captured audio feeds the AirPlay timeline.
    Live,
    /// The bridge paces silence because live capture cannot feed the timeline.
    SilenceBridged,
}

impl Default for AudioFlow {
    fn default() -> (r: Self)
        ensures
            r == AudioFlow::SilenceBridged,
    {
        AudioFlow::SilenceBridged
    }
}

/// Active-membership view of the current session generation.
#[derive(Debug, PartialEq, Eq)]
pub struct SessionSnapshot {
    /// Current session phase with its generation tag.
    pub phase: SessionPhase,
    /// Committed desired set for this generation.
    pub desired: IdSet,
    /// Receivers with successfully negotiated connections.
    pub active: IdSet,
    /// Desired receivers whose latest attempt failed terminally.
    pub failed: IdSet,
    /// Desired receivers waiting for a scheduled retry.
    pub retry_waiting: IdSet,
    /// Current PTP primary, if any.
    pub primary: Option<ReceiverId>,
    /// Live versus silence-bridged PCM flow.
    pub audio_flow: AudioFlow,
    /// Whether this stopped session is waiting for a system resume.
    ///
    /// Set while the machine sleeps: the run intent is deliberately retained,
    /// so this flag is the only thing that distinguishes "the user stopped
    /// playback" from "the machine was suspended mid-stream".
    pub resume_pending: bool,
}

/// What a session snapshot holds.
#[verifier::ext_equal]
pub struct SessionView {
    /// Current phase.
    pub phase: PhaseView,
    /// Desired set.
    pub desired: Set<ReceiverId>,
    /// Active set.
    pub active: Set<ReceiverId>,
    /// Terminally failed desired receivers.
    pub failed: Set<ReceiverId>,
    /// Desired receivers waiting for a retry.
    pub retry_waiting: Set<ReceiverId>,
    /// Current primary.
    pub primary: Option<ReceiverId>,
    /// Audio flow.
    pub audio_flow: AudioFlow,
    /// Waiting for a resume.
    pub resume_pending: bool,
}

impl View for SessionSnapshot {
    type V = SessionView;

    open spec fn view(&self) -> SessionView {
        SessionView {
            phase: self.phase@,
            desired: self.desired@,
            active: self.active@,
            failed: self.failed@,
            retry_waiting: self.retry_waiting@,
            primary: self.primary,
            audio_flow: self.audio_flow,
            resume_pending: self.resume_pending,
        }
    }
}

/// The session shown before anything has started.
pub open spec fn idle_session() -> SessionView {
    SessionView {
        phase: PhaseView::Stopped,
        desired: Set::empty(),
        active: Set::empty(),
        failed: Set::empty(),
        retry_waiting: Set::empty(),
        primary: None,
        audio_flow: AudioFlow::SilenceBridged,
        resume_pending: false,
    }
}

impl Default for SessionSnapshot {
    fn default() -> (r: Self)
        ensures
            r@ == idle_session(),
    {
        SessionSnapshot {
            phase: SessionPhase::Stopped,
            desired: IdSet::new(),
            active: IdSet::new(),
            failed: IdSet::new(),
            retry_waiting: IdSet::new(),
            primary: None,
            audio_flow: AudioFlow::SilenceBridged,
            resume_pending: false,
        }
    }
}

impl Clone for SessionSnapshot {
    fn clone(&self) -> (r: Self)
        ensures
            r@ == self@,
    {
        SessionSnapshot {
            phase: self.phase.clone(),
            desired: self.desired.copied(),
            active: self.active.copied(),
            failed: self.failed.copied(),
            retry_waiting: self.retry_waiting.copied(),
            primary: self.primary,
            audio_flow: self.audio_flow,
            resume_pending: self.resume_pending,
        }
    }
}

/// Discovery supervisor phase for the snapshot.
#[derive(Clone, Copy, Debug, PartialEq, Eq, Structural)]
pub enum DiscoveryPhase {
    /// Discovery has not started or was stopped for shutdown/suspend.
    Stopped,
    /// A browse generation is running; an empty inventory is authoritative.
    Running,
    /// The daemon failed and restarts with deterministic backoff.
    Retrying {
        /// Attempt number that failed.
        attempt: u32,
        /// Wall-clock deadline of the pending restart.
        retry_at: SystemTime,
    },
}

impl Default for DiscoveryPhase {
    fn default() -> (r: Self)
        ensures
            r == DiscoveryPhase::Stopped,
    {
        DiscoveryPhase::Stopped
    }
}

/// Continuous dual-service discovery state for the snapshot.
#[derive(Clone, Copy, Debug, PartialEq, Eq, Structural)]
pub struct DiscoverySnapshot {
    /// Current discovery generation; stale events cannot alter newer ones.
    pub generation: u64,
    /// Supervisor phase.
    pub phase: DiscoveryPhase,
}

impl Default for DiscoverySnapshot {
    fn default() -> (r: Self)
        ensures
            r == (DiscoverySnapshot { generation: 0, phase: DiscoveryPhase::Stopped }),
    {
        DiscoverySnapshot { generation: 0, phase: DiscoveryPhase::Stopped }
    }
}

/// One discovered receiver rendered without transport internals.
#[derive(Debug, PartialEq, Eq)]
pub struct ReceiverSnapshot {
    /// Stable identity.
    pub id: ReceiverId,
    /// Mutable display name from discovery, empty while none is known.
    ///
    /// Empty is a real state, not a gap to be papered over: a desired member
    /// restored from persisted state is a row before discovery has ever seen
    /// it. Filling it from [`ReceiverId`] would put a MAC address on screen,
    /// so the presentation layer decides what an unnamed receiver is called.
    pub name: String,
    /// Service-record hardware identifier (`AudioAccessory5,1`), empty while
    /// none is known.
    pub model: String,
    /// Lifecycle state.
    pub lifecycle: ReceiverLifecycle,
}

/// What a receiver row shows.
#[verifier::ext_equal]
pub struct RowView {
    /// Stable identity.
    pub id: ReceiverId,
    /// Display name.
    pub name: Seq<char>,
    /// Hardware identifier.
    pub model: Seq<char>,
    /// Lifecycle state.
    pub lifecycle: LifecycleView,
}

impl View for ReceiverSnapshot {
    type V = RowView;

    open spec fn view(&self) -> RowView {
        RowView {
            id: self.id,
            name: self.name@,
            model: self.model@,
            lifecycle: self.lifecycle@,
        }
    }
}

impl Clone for ReceiverSnapshot {
    fn clone(&self) -> (r: Self)
        ensures
            r == *self,
    {
        ReceiverSnapshot {
            id: self.id,
            name: self.name.clone(),
            model: self.model.clone(),
            lifecycle: self.lifecycle.clone(),
        }
    }
}

/// Whether a name and tie-break rank strictly before another pair: folded
/// name first, then the tie-break.
pub open spec fn ranks_before(a: Seq<char>, a_tie: int, b: Seq<char>, b_tie: int) -> bool {
    if text_before(lowercase_text(a), lowercase_text(b)) {
        true
    } else if text_before(lowercase_text(b), lowercase_text(a)) {
        false
    } else {
        a_tie < b_tie
    }
}

proof fn lemma_rank_laws(a: Seq<char>, at: int, b: Seq<char>, bt: int, c: Seq<char>, ct: int)
    ensures
        ranks_before(a, at, b, bt) ==> !ranks_before(b, bt, a, at),
        !ranks_before(b, bt, a, at) && !ranks_before(c, ct, b, bt) ==> !ranks_before(c, ct, a, at),
{
    let x = vstd::utf8::encode_utf8(lowercase_text(a));
    let y = vstd::utf8::encode_utf8(lowercase_text(b));
    let z = vstd::utf8::encode_utf8(lowercase_text(c));
    lemma_bytes_order(x, y, z);
    lemma_bytes_order(y, z, x);
    lemma_bytes_order(z, x, y);
    lemma_bytes_order(z, y, x);
    lemma_bytes_order(x, z, y);
    lemma_bytes_order(y, x, z);
}

impl Ranked for ReceiverSnapshot {
    open spec fn precedes(self, other: Self) -> bool {
        ranks_before(self.name@, self.id.key() as int, other.name@, other.id.key() as int)
    }

    proof fn order_laws(a: Self, b: Self, c: Self) {
        lemma_rank_laws(
            a.name@, a.id.key() as int,
            b.name@, b.id.key() as int,
            c.name@, c.id.key() as int,
        );
    }
}

impl PublicationOrder for ReceiverSnapshot {
    fn is_before(&self, other: &Self) -> (r: bool) {
        let mine: String = to_lowercase(self.name.as_str());
        let theirs: String = to_lowercase(other.name.as_str());
        if is_text_before(mine.as_str(), theirs.as_str()) {
            true
        } else if is_text_before(theirs.as_str(), mine.as_str()) {
            false
        } else {
            self.id.as_u64() < other.id.as_u64()
        }
    }
}

impl Ranked for RowView {
    open spec fn precedes(self, other: Self) -> bool {
        ranks_before(self.name, self.id.key() as int, other.name, other.id.key() as int)
    }

    proof fn order_laws(a: Self, b: Self, c: Self) {
        lemma_rank_laws(
            a.name, a.id.key() as int,
            b.name, b.id.key() as int,
            c.name, c.id.key() as int,
        );
    }
}

impl Ranked for GroupView {
    open spec fn precedes(self, other: Self) -> bool {
        ranks_before(self.name, self.id.bits() as int, other.name, other.id.bits() as int)
    }

    proof fn order_laws(a: Self, b: Self, c: Self) {
        lemma_rank_laws(
            a.name, a.id.bits() as int,
            b.name, b.id.bits() as int,
            c.name, c.id.bits() as int,
        );
    }
}

impl Ranked for SavedGroup {
    open spec fn precedes(self, other: Self) -> bool {
        ranks_before(self.name@, self.id.bits() as int, other.name@, other.id.bits() as int)
    }

    proof fn order_laws(a: Self, b: Self, c: Self) {
        lemma_rank_laws(
            a.name@, a.id.bits() as int,
            b.name@, b.id.bits() as int,
            c.name@, c.id.bits() as int,
        );
    }
}

impl PublicationOrder for SavedGroup {
    fn is_before(&self, other: &Self) -> (r: bool) {
        let mine: String = to_lowercase(self.name.as_str());
        let theirs: String = to_lowercase(other.name.as_str());
        if is_text_before(mine.as_str(), theirs.as_str()) {
            true
        } else if is_text_before(theirs.as_str(), mine.as_str()) {
            false
        } else {
            self.id.as_uuid() < other.id.as_uuid()
        }
    }
}

/// One saved group rendered for the shell.
#[derive(Debug, PartialEq)]
pub struct SavedGroupSnapshot {
    /// Stable group identity.
    pub id: SavedGroupId,
    /// Group display name.
    pub name: String,
    /// Stored members in the order chosen when saving.
    pub members: Vec<SavedGroupMember>,
}

impl View for SavedGroupSnapshot {
    type V = GroupView;

    open spec fn view(&self) -> GroupView {
        GroupView { id: self.id, name: self.name@, members: member_views(self.members@) }
    }
}

impl Ranked for SavedGroupSnapshot {
    open spec fn precedes(self, other: Self) -> bool {
        ranks_before(self.name@, self.id.bits() as int, other.name@, other.id.bits() as int)
    }

    proof fn order_laws(a: Self, b: Self, c: Self) {
        lemma_rank_laws(
            a.name@, a.id.bits() as int,
            b.name@, b.id.bits() as int,
            c.name@, c.id.bits() as int,
        );
    }
}

impl PublicationOrder for SavedGroupSnapshot {
    fn is_before(&self, other: &Self) -> (r: bool) {
        let mine: String = to_lowercase(self.name.as_str());
        let theirs: String = to_lowercase(other.name.as_str());
        if is_text_before(mine.as_str(), theirs.as_str()) {
            true
        } else if is_text_before(theirs.as_str(), mine.as_str()) {
            false
        } else {
            self.id.as_uuid() < other.id.as_uuid()
        }
    }
}

/// One render endpoint advertised by the system.
#[derive(Debug, PartialEq, Eq)]
pub struct AudioEndpoint {
    /// Stable endpoint ID.
    pub id: String,
    /// Current display name.
    pub name: String,
}

/// What an endpoint holds.
pub struct EndpointView {
    /// Stable endpoint ID.
    pub id: Seq<char>,
    /// Display name.
    pub name: Seq<char>,
}

impl View for AudioEndpoint {
    type V = EndpointView;

    open spec fn view(&self) -> EndpointView {
        EndpointView { id: self.id@, name: self.name@ }
    }
}

impl Clone for AudioEndpoint {
    fn clone(&self) -> (r: Self)
        ensures
            r == *self,
    {
        AudioEndpoint { id: self.id.clone(), name: self.name.clone() }
    }
}

/// What an optional endpoint holds.
pub open spec fn endpoint_view(endpoint: Option<AudioEndpoint>) -> Option<EndpointView> {
    match endpoint {
        Some(e) => Some(e@),
        None => None,
    }
}

/// The endpoints of a list, each as what it holds.
pub open spec fn endpoint_views(endpoints: Seq<AudioEndpoint>) -> Seq<EndpointView> {
    Seq::new(endpoints.len(), |i: int| endpoints[i]@)
}

/// Capture-side availability states distinguished by the design.
#[derive(Clone, Copy, Debug, PartialEq, Eq, Hash, Structural)]
pub enum AudioSourceState {
    /// The capture worker delivers live frames.
    Capturing,
    /// The system is silent; the bridge keeps buffers alive.
    SilentSystem,
    /// Capture recovery is in progress after worker failure or endpoint loss.
    Recovering,
    /// No usable capture source exists right now.
    Unavailable,
    /// Recovery attempts failed; session reports degraded until resolved.
    Failed,
}

impl Default for AudioSourceState {
    fn default() -> (r: Self)
        ensures
            r == AudioSourceState::Unavailable,
    {
        AudioSourceState::Unavailable
    }
}

/// Render-endpoint and capture-recovery state for the snapshot.
#[derive(Debug, PartialEq, Eq)]
pub struct AudioSourceSnapshot {
    /// Last successful render-endpoint scan. None is unmeasured; Some(empty)
    /// is a successful empty scan. Failed refreshes retain the last success.
    pub active_endpoints: Option<Vec<AudioEndpoint>>,
    /// The latest scan failed or its worker terminated; no raw system error
    /// is exposed.
    pub refresh_failed: bool,
    /// Persisted endpoint preference.
    pub preference: AudioEndpointPreference,
    /// Endpoint currently captured, if any.
    pub captured_endpoint: Option<AudioEndpoint>,
    /// Availability/capture-recovery state.
    pub state: AudioSourceState,
    /// Peak of genuine loopback input observed in the latest sampling
    /// window, in thousandths of full scale. `None` means no fresh batch was
    /// observed; `Some(0)` is measured digital silence.
    pub windows_input_peak_permille: Option<u16>,
    /// Lifetime frames evicted from the stable capture-to-decoder queue.
    pub pcm_frames_dropped_total: u64,
}

/// What an audio-source snapshot holds.
#[verifier::ext_equal]
pub struct AudioSourceView {
    /// Last successful scan.
    pub active_endpoints: Option<Seq<EndpointView>>,
    /// The latest scan failed.
    pub refresh_failed: bool,
    /// Endpoint preference.
    pub preference: PreferenceView,
    /// Captured endpoint.
    pub captured_endpoint: Option<EndpointView>,
    /// Availability.
    pub state: AudioSourceState,
    /// Latest input peak.
    pub windows_input_peak_permille: Option<u16>,
    /// Lifetime dropped frames.
    pub pcm_frames_dropped_total: u64,
}

impl View for AudioSourceSnapshot {
    type V = AudioSourceView;

    open spec fn view(&self) -> AudioSourceView {
        AudioSourceView {
            active_endpoints: match self.active_endpoints {
                Some(list) => Some(endpoint_views(list@)),
                None => None,
            },
            refresh_failed: self.refresh_failed,
            preference: self.preference@,
            captured_endpoint: endpoint_view(self.captured_endpoint),
            state: self.state,
            windows_input_peak_permille: self.windows_input_peak_permille,
            pcm_frames_dropped_total: self.pcm_frames_dropped_total,
        }
    }
}

/// An audio source nothing has been measured of.
pub open spec fn unmeasured_source() -> AudioSourceView {
    AudioSourceView {
        active_endpoints: None,
        refresh_failed: false,
        preference: PreferenceView::SystemDefault,
        captured_endpoint: None,
        state: AudioSourceState::Unavailable,
        windows_input_peak_permille: None,
        pcm_frames_dropped_total: 0,
    }
}

impl Default for AudioSourceSnapshot {
    fn default() -> (r: Self)
        ensures
            r@ == unmeasured_source(),
    {
        AudioSourceSnapshot {
            active_endpoints: None,
            refresh_failed: false,
            preference: AudioEndpointPreference::SystemDefault,
            captured_endpoint: None,
            state: AudioSourceState::Unavailable,
            windows_input_peak_permille: None,
            pcm_frames_dropped_total: 0,
        }
    }
}

/// Persistence subsystem health for the snapshot.
#[derive(Clone, Copy, Debug, PartialEq, Eq, Hash, Structural)]
pub enum PersistenceSnapshot {
    /// No write has been attempted since startup.
    Idle,
    /// Latest load/save cycle succeeded.
    Healthy,
    /// The latest write failed. The change that could not be saved was not
    /// applied either, so the previous state stands in memory as well as on
    /// disk. Nothing is retried automatically; the user repeats the change.
    Error,
}

impl Default for PersistenceSnapshot {
    fn default() -> (r: Self)
        ensures
            r == PersistenceSnapshot::Idle,
    {
        PersistenceSnapshot::Idle
    }
}

/// Retained failure category, independent of diagnostic prose.
#[derive(Clone, Copy, Debug, PartialEq, Eq, Structural)]
pub enum CommandFailure {
    /// Invalid or unavailable requested value; the change was rejected.
    Rejected,
    /// The change was rejected because the save failed.
    Persistence,
}

/// Outcomes retained at most.
pub const RETAINED_OUTCOMES: usize = 128;

/// Bounded completion history in completion order, not allocation order.
#[derive(Debug, PartialEq)]
pub struct CommandOutcomes {
    /// At most 128 retained outcomes, including rejected validation and writes.
    pub recent: VecDeque<(u64, Option<CommandFailure>)>,
    /// Largest evicted allocation ID, for diagnostics only. Allocation order
    /// is not completion order: this says nothing about any other command.
    pub evicted_through: u64,
}

/// What a completion history holds.
#[verifier::ext_equal]
pub struct OutcomesView {
    /// Retained outcomes, oldest first.
    pub recent: Seq<(u64, Option<CommandFailure>)>,
    /// Largest evicted allocation ID.
    pub evicted_through: u64,
}

impl View for CommandOutcomes {
    type V = OutcomesView;

    open spec fn view(&self) -> OutcomesView {
        OutcomesView { recent: self.recent@, evicted_through: self.evicted_through }
    }
}

/// The largest of `start` and the identifiers of `outcomes`.
pub open spec fn largest_id(start: u64, outcomes: Seq<(u64, Option<CommandFailure>)>) -> u64
    decreases outcomes.len(),
{
    if outcomes.len() == 0 {
        start
    } else {
        let rest = largest_id(start, outcomes.drop_last());
        if rest < outcomes.last().0 { outcomes.last().0 } else { rest }
    }
}

/// The history after one more outcome: the newest 128 are kept, and the
/// largest evicted identifier is remembered.
pub open spec fn outcome_recorded(
    history: OutcomesView,
    id: u64,
    error: Option<CommandFailure>,
) -> OutcomesView {
    let all = history.recent.push((id, error));
    let excess = if all.len() > RETAINED_OUTCOMES { all.len() - RETAINED_OUTCOMES } else { 0 };
    OutcomesView {
        recent: all.skip(excess),
        evicted_through: largest_id(history.evicted_through, all.take(excess)),
    }
}

impl Default for CommandOutcomes {
    fn default() -> (r: Self)
        ensures
            r@ == (OutcomesView { recent: Seq::empty(), evicted_through: 0 }),
    {
        CommandOutcomes { recent: VecDeque::new(), evicted_through: 0 }
    }
}

impl CommandOutcomes {
    /// Retains one terminal result while bounding snapshot memory.
    pub fn record(&mut self, id: u64, error: Option<CommandFailure>)
        ensures
            final(self)@ == outcome_recorded(old(self)@, id, error),
    {
        self.recent.push_back((id, error));
        let ghost all = self.recent@;
        let ghost start = self.evicted_through;
        let ghost mut gone: int = 0;
        assert(all.skip(0) =~= all);
        assert(all.take(0) =~= Seq::empty());
        while self.recent.len() > RETAINED_OUTCOMES
            invariant
                0 <= gone <= all.len(),
                self.recent@ == all.skip(gone),
                gone > 0 ==> gone <= all.len() - RETAINED_OUTCOMES,
                self.evicted_through == largest_id(start, all.take(gone)),
            decreases self.recent@.len(),
        {
            let evicted = self.recent.pop_front();
            if let Some(entry) = evicted {
                if self.evicted_through < entry.0 {
                    self.evicted_through = entry.0;
                }
                proof {
                    assert(entry == all[gone]);
                    assert(all.take(gone + 1).drop_last() =~= all.take(gone));
                    assert(all.skip(gone).skip(1) =~= all.skip(gone + 1));
                    gone = gone + 1;
                }
            }
        }
    }
}

/// The history never grows beyond its bound, and its newest entry is the
/// outcome recorded last.
pub proof fn law_history_is_bounded_and_keeps_the_newest(
    history: OutcomesView,
    id: u64,
    error: Option<CommandFailure>,
)
    ensures
        outcome_recorded(history, id, error).recent.len() <= RETAINED_OUTCOMES,
        outcome_recorded(history, id, error).recent.last() == (id, error),
        outcome_recorded(history, id, error).evicted_through >= history.evicted_through,
{
    let all = history.recent.push((id, error));
    let excess = if all.len() > RETAINED_OUTCOMES { all.len() - RETAINED_OUTCOMES } else { 0 };
    lemma_largest_id_grows(history.evicted_through, all.take(excess));
}

proof fn lemma_largest_id_grows(start: u64, outcomes: Seq<(u64, Option<CommandFailure>)>)
    ensures
        largest_id(start, outcomes) >= start,
    decreases outcomes.len(),
{
    if outcomes.len() > 0 {
        lemma_largest_id_grows(start, outcomes.drop_last());
    }
}

/// Authoritative complete render model published to the shell.
///
/// Receiver vectors are sorted case-insensitively by name and then by stable
/// ID so rendering never depends on discovery order.
#[derive(Debug, PartialEq)]
pub struct DeviceSnapshot {
    /// Recent command results survive loss on the broadcast channel.
    pub command_outcomes: CommandOutcomes,
    /// Monotonic snapshot revision.
    pub revision: u64,
    /// Revision counter incremented once per committed membership change.
    pub desired_revision: u64,
    /// Discovery supervisor state.
    pub discovery: DiscoverySnapshot,
    /// Known receivers sorted for deterministic rendering.
    pub receivers: Vec<ReceiverSnapshot>,
    /// Saved groups sorted for deterministic rendering.
    pub saved_groups: Vec<SavedGroupSnapshot>,
    /// Committed desired membership; offline members stay desired.
    pub desired_members: IdSet,
    /// Whether the user wants audio running.
    pub run_intent: RunIntent,
    /// Active-membership view of the current generation.
    pub session: SessionSnapshot,
    /// Capture/endpoint state.
    pub audio_source: AudioSourceSnapshot,
    /// Validated master volume.
    pub master_volume: Volume,
    /// Persisted per-receiver levels keyed by stable identity.
    pub receiver_levels: IdMap<Volume>,
    /// Mute flag; preserves volumes while applying zero downstream.
    pub muted: bool,
    /// Selected latency preset.
    pub latency_preset: LatencyPreset,
    /// Every offered preset with its availability; gated ones carry the
    /// reason they are shown but refused.
    pub latency_presets: Vec<LatencyPresetOption>,
    /// Auto-connect after safe initial discovery; defaults false.
    pub auto_connect: bool,
    /// Persistence subsystem health.
    pub persistence: PersistenceSnapshot,
}

/// What a snapshot shows.
#[verifier::ext_equal]
pub struct SnapshotView {
    /// Recent command results.
    pub command_outcomes: OutcomesView,
    /// Snapshot revision.
    pub revision: u64,
    /// Membership revision.
    pub desired_revision: u64,
    /// Discovery state.
    pub discovery: DiscoverySnapshot,
    /// Receiver rows.
    pub receivers: Seq<RowView>,
    /// Saved groups.
    pub saved_groups: Seq<GroupView>,
    /// Desired membership.
    pub desired_members: Set<ReceiverId>,
    /// Run intent.
    pub run_intent: RunIntent,
    /// Session state.
    pub session: SessionView,
    /// Capture state.
    pub audio_source: AudioSourceView,
    /// Master volume.
    pub master_volume: Volume,
    /// Per-receiver levels.
    pub receiver_levels: Map<ReceiverId, Volume>,
    /// Mute flag.
    pub muted: bool,
    /// Latency preset.
    pub latency_preset: LatencyPreset,
    /// Offered presets, each with the text of its refusal.
    pub latency_presets: Seq<(LatencyPreset, Option<Seq<char>>)>,
    /// Auto-connect policy.
    pub auto_connect: bool,
    /// Persistence health.
    pub persistence: PersistenceSnapshot,
}

/// The rows of a list, each as what it shows.
pub open spec fn row_views(rows: Seq<ReceiverSnapshot>) -> Seq<RowView> {
    rows.map_values(|row: ReceiverSnapshot| row@)
}

/// The group rows of a list, each as what it shows.
pub open spec fn group_row_views(rows: Seq<SavedGroupSnapshot>) -> Seq<GroupView> {
    rows.map_values(|row: SavedGroupSnapshot| row@)
}

/// The preset rows of a list, each as what it shows.
pub open spec fn preset_views(
    rows: Seq<LatencyPresetOption>,
) -> Seq<(LatencyPreset, Option<Seq<char>>)> {
    rows.map_values(|row: LatencyPresetOption| (row.preset, error_text(row.disabled_reason)))
}

/// Every preset with the text of its refusal.
pub open spec fn offered_presets() -> Seq<(LatencyPreset, Option<Seq<char>>)> {
    all_presets().map_values(|preset: LatencyPreset| (preset, preset_disabled_text(preset)))
}

impl View for DeviceSnapshot {
    type V = SnapshotView;

    open spec fn view(&self) -> SnapshotView {
        SnapshotView {
            command_outcomes: self.command_outcomes@,
            revision: self.revision,
            desired_revision: self.desired_revision,
            discovery: self.discovery,
            receivers: row_views(self.receivers@),
            saved_groups: group_row_views(self.saved_groups@),
            desired_members: self.desired_members@,
            run_intent: self.run_intent,
            session: self.session@,
            audio_source: self.audio_source@,
            master_volume: self.master_volume,
            receiver_levels: self.receiver_levels@,
            muted: self.muted,
            latency_preset: self.latency_preset,
            latency_presets: preset_views(self.latency_presets@),
            auto_connect: self.auto_connect,
            persistence: self.persistence,
        }
    }
}

/// Whether `snapshot` is the one published before anything has loaded.
///
/// Preset availability is a build-time fact, so even that one carries the
/// complete preset list.
pub open spec fn is_default_snapshot(snapshot: SnapshotView) -> bool {
    &&& snapshot.command_outcomes == (OutcomesView { recent: Seq::empty(), evicted_through: 0 })
    &&& snapshot.revision == 0
    &&& snapshot.desired_revision == 0
    &&& snapshot.discovery == (DiscoverySnapshot { generation: 0, phase: DiscoveryPhase::Stopped })
    &&& snapshot.receivers == Seq::<RowView>::empty()
    &&& snapshot.saved_groups == Seq::<GroupView>::empty()
    &&& snapshot.desired_members == Set::<ReceiverId>::empty()
    &&& snapshot.run_intent == RunIntent::Stopped
    &&& snapshot.session == idle_session()
    &&& snapshot.audio_source == unmeasured_source()
    &&& snapshot.master_volume.bits() == crate::volume::QUARTER_BITS
    &&& snapshot.receiver_levels == Map::<ReceiverId, Volume>::empty()
    &&& !snapshot.muted
    &&& snapshot.latency_preset == LatencyPreset::Normal
    &&& snapshot.latency_presets == offered_presets()
    &&& !snapshot.auto_connect
    &&& snapshot.persistence == PersistenceSnapshot::Idle
}

impl Default for DeviceSnapshot {
    fn default() -> (r: Self)
        ensures
            is_default_snapshot(r@),
    {
        let r = DeviceSnapshot {
            command_outcomes: CommandOutcomes::default(),
            revision: 0,
            desired_revision: 0,
            discovery: DiscoverySnapshot::default(),
            receivers: Vec::new(),
            saved_groups: Vec::new(),
            desired_members: IdSet::new(),
            run_intent: RunIntent::default(),
            session: SessionSnapshot::default(),
            audio_source: AudioSourceSnapshot::default(),
            master_volume: Volume::default(),
            receiver_levels: IdMap::new(),
            muted: false,
            latency_preset: LatencyPreset::default(),
            latency_presets: LatencyPreset::offered(),
            auto_connect: false,
            persistence: PersistenceSnapshot::default(),
        };
        assert(r@.receivers =~= Seq::<RowView>::empty());
        assert(r@.saved_groups =~= Seq::<GroupView>::empty());
        assert(r@.latency_presets =~= offered_presets());
        r
    }
}

impl SnapshotView {
    /// The snapshot with its lists in publication order.
    pub open spec fn sorted(self) -> SnapshotView {
        SnapshotView {
            receivers: listed(self.receivers),
            saved_groups: listed(self.saved_groups),
            ..self
        }
    }
}

impl DeviceSnapshot {
    /// Sorts receivers and saved groups for publication: case-folded display
    /// name first, then stable ID, so equal names never depend on discovery
    /// order.
    pub fn sort_for_publication(&mut self)
        ensures
            final(self)@ == old(self)@.sorted(),
            in_publication_order(final(self).receivers@),
            final(self).receivers@.to_multiset() == old(self).receivers@.to_multiset(),
            in_publication_order(final(self).saved_groups@),
            final(self).saved_groups@.to_multiset() == old(self).saved_groups@.to_multiset(),
            *final(self) == (DeviceSnapshot {
                receivers: final(self).receivers,
                saved_groups: final(self).saved_groups,
                ..*old(self)
            }),
    {
        let ghost rows = self.receivers@;
        let ghost groups = self.saved_groups@;
        sort_for_listing(&mut self.receivers);
        sort_for_listing(&mut self.saved_groups);
        proof {
            lemma_listing_projects(rows, |row: ReceiverSnapshot| row@);
            lemma_listing_projects(groups, |row: SavedGroupSnapshot| row@);
        }
    }
}

/// Publication lists every receiver exactly once, ordered by case-folded name
/// and then by identity.
pub proof fn law_publication_orders_every_row(snapshot: SnapshotView)
    ensures
        in_publication_order(snapshot.sorted().receivers),
        snapshot.sorted().receivers.to_multiset() == snapshot.receivers.to_multiset(),
        in_publication_order(snapshot.sorted().saved_groups),
        snapshot.sorted().saved_groups.to_multiset() == snapshot.saved_groups.to_multiset(),
{
    law_listing_sorts(snapshot.receivers);
    law_listing_sorts(snapshot.saved_groups);
}

/// Whether no two rows share an identity.
pub open spec fn rows_distinct(rows: Seq<RowView>) -> bool {
    forall|i: int, j: int| 0 <= i < j < rows.len() ==> (#[trigger] rows[i]).id != (#[trigger] rows[j]).id
}

/// Whether no two saved groups share an identity.
pub open spec fn groups_distinct(groups: Seq<GroupView>) -> bool {
    forall|i: int, j: int|
        0 <= i < j < groups.len() ==> (#[trigger] groups[i]).id != (#[trigger] groups[j]).id
}

/// What is published never depends on the order in which receivers were
/// discovered or groups were saved: snapshots that differ in that order alone
/// are published alike.
pub proof fn law_publication_ignores_discovery_order(a: SnapshotView, b: SnapshotView)
    requires
        a.receivers.to_multiset() == b.receivers.to_multiset(),
        a.saved_groups.to_multiset() == b.saved_groups.to_multiset(),
        a == (SnapshotView { receivers: a.receivers, saved_groups: a.saved_groups, ..b }),
        rows_distinct(a.receivers),
        groups_distinct(a.saved_groups),
    ensures
        a.sorted() == b.sorted(),
{
    assert forall|p: RowView, q: RowView|
        a.receivers.contains(p) && a.receivers.contains(q) && p != q implies #[trigger] p.precedes(q)
        || q.precedes(p) by {
        let i = choose|i: int| 0 <= i < a.receivers.len() && a.receivers[i] == p;
        let j = choose|j: int| 0 <= j < a.receivers.len() && a.receivers[j] == q;
        assert(p.id != q.id);
        crate::ids::lemma_key_identifies(p.id, q.id);
    }
    law_listing_ignores_arrival_order(a.receivers, b.receivers);
    assert forall|p: GroupView, q: GroupView|
        a.saved_groups.contains(p) && a.saved_groups.contains(q) && p != q implies #[trigger] p.precedes(
        q,
    ) || q.precedes(p) by {
        let i = choose|i: int| 0 <= i < a.saved_groups.len() && a.saved_groups[i] == p;
        let j = choose|j: int| 0 <= j < a.saved_groups.len() && a.saved_groups[j] == q;
        assert(p.id != q.id);
        assert(p.id.bits() != q.id.bits());
    }
    law_listing_ignores_arrival_order(a.saved_groups, b.saved_groups);
}

} // verus!
