//! What the library's tables and small decisions say.

use vstd::prelude::*;

use crate::actor_model::{
    announced, blank_actor, derived_phase, larger, member_role, next_count, next_failures,
    ActorView, AnnounceView, EffectView,
};
use crate::bridge::CAPTURE_SAMPLE_RATE;
use crate::capture::{endpoint_ranks_before, CaptureUpdateView};
use crate::command::{is_edge_command, BackendCommand};
use crate::discovery::{castable_device, DeviceView};
use crate::event::{payload_kind, PayloadView};
use crate::ids::ReceiverId;
use crate::listening_check::{same_guard, GuardView};
use crate::listening_tone::{fade_level, tone_frame_total};
use crate::machine::{edge_permitted, MachineView};
use crate::meter::{capped_peak, window_sample, CaptureInputMeter};
use crate::model::{
    CommandFailure, EndpointView, GroupView, LifecycleView, PhaseView, RowView, RunIntent,
    SnapshotView,
};
use crate::persistence::{same_state, PersistedView};
use crate::recovery::RetryPolicy;
use crate::snapshot::retained_result;
use crate::text::{
    decimal_text, lemma_bytes_order, lowercase_text, same_ignoring_ascii_case, text_before, Ranked,
};
use crate::time::Instant;

verus! {

/// A lone member is single; among several the primary is the primary and every
/// other is secondary.
pub proof fn law_members_have_their_roles(
    primary: ReceiverId,
    members: Set<ReceiverId>,
    id: ReceiverId,
)
    ensures
        member_role(primary, members, id) is Single <==> members.len() <= 1,
        member_role(primary, members, id) is Primary <==> members.len() > 1 && id == primary,
        member_role(primary, members, id) is Secondary <==> members.len() > 1 && id != primary,
{
}

/// A stopped session is stopped; a running one streams exactly with every
/// desired receiver, is degraded with some, and still starting with none.
pub proof fn law_the_phase_follows_the_members(
    desired: Set<ReceiverId>,
    active: Set<ReceiverId>,
    intent: RunIntent,
    generation: u64,
)
    ensures
        ({
            let phase = derived_phase(desired, active, intent, generation);
            let nobody = Set::<ReceiverId>::empty();
            &&& phase is Stopped <==> intent is Stopped
            &&& phase is Streaming <==> intent is Running && active == desired && active != nobody
            &&& phase is Degraded <==> intent is Running && active != desired && active != nobody
            &&& phase is Starting <==> intent is Running && active == nobody
            &&& phase matches PhaseView::Streaming { generation: shown } ==> shown == generation
            &&& phase matches PhaseView::Degraded { generation: shown } ==> shown == generation
            &&& phase matches PhaseView::Starting { generation: shown } ==> shown == generation
        }),
{
}

/// Every stored change shows as itself, and as nothing else.
pub proof fn law_a_stored_change_shows_as_itself(s: SnapshotView, change: AnnounceView)
    ensures
        ({
            let t = announced(s, change);
            &&& change is Nothing ==> t == s
            &&& change matches AnnounceView::Members { members, counts } ==> t.desired_members
                == members && t == (SnapshotView {
                desired_members: t.desired_members,
                desired_revision: t.desired_revision,
                ..s
            }) && (!counts ==> t.desired_revision == s.desired_revision) && (counts
                && s.desired_revision < u64::MAX ==> t.desired_revision == s.desired_revision + 1)
            &&& change matches AnnounceView::MasterVolume(v) ==> t.master_volume == v && t == (
            SnapshotView { master_volume: t.master_volume, ..s })
            &&& change matches AnnounceView::Muted(m) ==> t.muted == m && t == (SnapshotView {
                muted: t.muted,
                ..s
            })
            &&& change matches AnnounceView::Endpoint(p) ==> {
                &&& t.audio_source.preference == p
                &&& t.audio_source.captured_endpoint == s.audio_source.captured_endpoint
                &&& t.audio_source.state == s.audio_source.state
                &&& t.audio_source.active_endpoints == s.audio_source.active_endpoints
                &&& t.audio_source.refresh_failed == s.audio_source.refresh_failed
                &&& t == (SnapshotView { audio_source: t.audio_source, ..s })
            }
            &&& change matches AnnounceView::Latency(p) ==> t.latency_preset == p && t == (
            SnapshotView { latency_preset: t.latency_preset, ..s })
            &&& change matches AnnounceView::AutoConnect(e) ==> t.auto_connect == e && t == (
            SnapshotView { auto_connect: t.auto_connect, ..s })
            &&& change matches AnnounceView::GroupSaved(g) ==> t.saved_groups.last() == g && t == (
            SnapshotView { saved_groups: t.saved_groups, ..s })
            &&& change is GroupDeleted ==> t == (SnapshotView { saved_groups: t.saved_groups, ..s })
        }),
{
}

/// Counters go up by one and stop at their largest value; of two the larger
/// stays.
pub proof fn law_counters_go_up_by_one(n: u64, m: u64, failures: u32)
    ensures
        n < u64::MAX ==> next_count(n) == n + 1,
        next_count(u64::MAX) == u64::MAX,
        failures < u32::MAX ==> next_failures(failures) == failures + 1,
        next_failures(u32::MAX) == u32::MAX,
        larger(n, m) >= n,
        larger(n, m) >= m,
        larger(n, m) == n || larger(n, m) == m,
{
}

/// A capture report raises the known generation to its own and never lowers
/// it; stopped capture has none. The counters are handed out with it.
pub proof fn law_capture_reports_raise_the_generation(a: ActorView, update: CaptureUpdateView)
    ensures
        ({
            let b = a.capture_counted(update);
            &&& update is Stopped ==> b.capture_generation == 0
            &&& !(update is Stopped) ==> b.capture_generation >= a.capture_generation
            &&& update matches CaptureUpdateView::Started { capture_generation, .. }
                ==> b.capture_generation >= capture_generation && (b.capture_generation
                == capture_generation || b.capture_generation == a.capture_generation)
            &&& update matches CaptureUpdateView::Ready { capture_generation, .. }
                ==> b.capture_generation >= capture_generation && (b.capture_generation
                == capture_generation || b.capture_generation == a.capture_generation)
            &&& update matches CaptureUpdateView::FrameDrop { capture_generation, .. }
                ==> b.capture_generation >= capture_generation && (b.capture_generation
                == capture_generation || b.capture_generation == a.capture_generation)
            &&& update matches CaptureUpdateView::Recovering { capture_generation, .. }
                ==> b.capture_generation >= capture_generation && (b.capture_generation
                == capture_generation || b.capture_generation == a.capture_generation)
            &&& update matches CaptureUpdateView::Suspended { capture_generation, .. }
                ==> b.capture_generation >= capture_generation && (b.capture_generation
                == capture_generation || b.capture_generation == a.capture_generation)
            &&& b.effects.len() == a.effects.len() + 1
            &&& b.effects.last() matches EffectView::PublishGenerations(shared)
                && shared.capture == b.capture_generation
            &&& b == (ActorView {
                capture_generation: b.capture_generation,
                effects: b.effects,
                ..a
            })
        }),
{
}

/// The edges of the receiver lifecycle, by where they start.
pub proof fn law_the_lifecycle_has_these_edges(from: LifecycleView, to: LifecycleView)
    ensures
        to is Unavailable ==> edge_permitted(from, to),
        !(to is Unavailable) ==> {
            &&& from is Unavailable ==> (edge_permitted(from, to) <==> to is Discovered)
            &&& from is Discovered ==> (edge_permitted(from, to) <==> to is Connecting)
            &&& from is Connecting ==> (edge_permitted(from, to) <==> to is SettingUp
                || to is Failed)
            &&& from is SettingUp ==> (edge_permitted(from, to) <==> to is SettingUp || to is Ready
                || to is Failed)
            &&& from is Ready ==> (edge_permitted(from, to) <==> to is Streaming || to is Failed)
            &&& from is Streaming ==> (edge_permitted(from, to) <==> to is Failed)
            &&& from is RetryWaiting ==> (edge_permitted(from, to) <==> to is Connecting)
            &&& from matches LifecycleView::Failed { retryable, .. } ==> (edge_permitted(from, to)
                <==> to is Connecting || (retryable && to is RetryWaiting))
        },
{
}

/// A receiver can be cast to exactly with AirPlay 2 at an IPv4 address.
pub proof fn law_castable_means_airplay_two_over_ipv4(device: DeviceView)
    ensures
        castable_device(device) <==> device.supports_airplay2 && (device.address matches Some(
            address,
        ) && address is V4),
{
}

/// Numbers are written in decimal digits, most significant first, without
/// leading zeros.
pub proof fn law_numbers_are_written_in_decimal(n: int)
    requires
        0 <= n,
    ensures
        n < 10 ==> decimal_text(n).len() == 1 && decimal_text(n)[0] as int == 48 + n,
        n >= 10 ==> decimal_text(n).drop_last() == decimal_text(n / 10) && decimal_text(n).last() as int
            == 48 + n % 10,
{
    let tail = if n < 10 { n } else { n % 10 };
    assert(('0' as int + tail) as char as int == 48 + tail);
    if n >= 10 {
        assert(decimal_text(n).drop_last() =~= decimal_text(n / 10));
    }
}

proof fn lemma_folding_joins_letters(x: char, y: char)
    ensures
        crate::text::ascii_fold(x) == crate::text::ascii_fold(y) <==> x == y || ('A' <= x <= 'Z'
            && y as int == x as int + 32) || ('A' <= y <= 'Z' && x as int == y as int + 32),
{
}

/// Two texts are alike up to ASCII case exactly if they differ at most between
/// a letter and its other case.
pub proof fn law_ascii_case_only_joins_letters(a: Seq<char>, b: Seq<char>)
    ensures
        same_ignoring_ascii_case(a, b) <==> a.len() == b.len() && forall|i: int|
            0 <= i < a.len() ==> {
                ||| #[trigger] a[i] == b[i]
                ||| 'A' <= a[i] <= 'Z' && b[i] as int == a[i] as int + 32
                ||| 'A' <= b[i] <= 'Z' && a[i] as int == b[i] as int + 32
            },
{
    if a.len() == b.len() {
        assert forall|i: int| 0 <= i < a.len() implies (crate::text::ascii_fold(#[trigger] a[i])
            == crate::text::ascii_fold(b[i]) <==> a[i] == b[i] || ('A' <= a[i] <= 'Z'
            && b[i] as int == a[i] as int + 32) || ('A' <= b[i] <= 'Z' && a[i] as int == b[i] as int
            + 32)) by {
            lemma_folding_joins_letters(a[i], b[i]);
        }
    }
}

/// The result retained for a command is its oldest, and there is one exactly
/// while the history holds the command.
pub proof fn law_the_retained_result_is_the_commands_own(
    recent: Seq<(u64, Option<CommandFailure>)>,
    id: u64,
)
    ensures
        retained_result(recent, id) is None <==> forall|i: int|
            0 <= i < recent.len() ==> (#[trigger] recent[i]).0 != id,
        retained_result(recent, id) is Some ==> exists|i: int|
            0 <= i < recent.len() && #[trigger] recent[i] == (id, retained_result(recent, id)->0)
                && forall|k: int| 0 <= k < i ==> (#[trigger] recent[k]).0 != id,
    decreases recent.len(),
{
    if recent.len() > 0 {
        let rest = recent.drop_first();
        law_the_retained_result_is_the_commands_own(rest, id);
        if recent[0].0 == id {
            assert(recent[0] == (id, retained_result(recent, id)->0));
        } else if retained_result(rest, id) is Some {
            let i = choose|i: int|
                0 <= i < rest.len() && #[trigger] rest[i] == (id, retained_result(rest, id)->0)
                    && forall|k: int| 0 <= k < i ==> (#[trigger] rest[k]).0 != id;
            assert(recent[i + 1] == rest[i]);
            assert forall|k: int| 0 <= k < i + 1 implies (#[trigger] recent[k]).0 != id by {
                if k > 0 {
                    assert(rest[k - 1].0 != id);
                }
            }
        } else {
            assert forall|i: int| 0 <= i < recent.len() implies (#[trigger] recent[i]).0 != id by {
                if i > 0 {
                    assert(rest[i - 1].0 != id);
                }
            }
        }
    }
}

/// Receivers, groups, and endpoints are listed by their case-folded names, and
/// by identity where those agree.
pub proof fn law_lists_are_ordered_by_folded_name_and_identity(
    r: RowView,
    s: RowView,
    g: GroupView,
    h: GroupView,
    e: EndpointView,
    f: EndpointView,
)
    ensures
        text_before(lowercase_text(r.name), lowercase_text(s.name)) ==> r.precedes(s)
            && !s.precedes(r),
        lowercase_text(r.name) == lowercase_text(s.name) ==> (r.precedes(s) <==> r.id.key()
            < s.id.key()),
        text_before(lowercase_text(g.name), lowercase_text(h.name)) ==> g.precedes(h)
            && !h.precedes(g),
        lowercase_text(g.name) == lowercase_text(h.name) ==> (g.precedes(h) <==> g.id.bits()
            < h.id.bits()),
        text_before(lowercase_text(e.name), lowercase_text(f.name)) ==> endpoint_ranks_before(e, f)
            && !endpoint_ranks_before(f, e),
        lowercase_text(e.name) == lowercase_text(f.name) ==> (endpoint_ranks_before(e, f)
            <==> text_before(e.id, f.id)),
{
    let x = vstd::utf8::encode_utf8(lowercase_text(r.name));
    let y = vstd::utf8::encode_utf8(lowercase_text(s.name));
    lemma_bytes_order(x, y, x);
    let x = vstd::utf8::encode_utf8(lowercase_text(g.name));
    let y = vstd::utf8::encode_utf8(lowercase_text(h.name));
    lemma_bytes_order(x, y, x);
    let x = vstd::utf8::encode_utf8(lowercase_text(e.name));
    let y = vstd::utf8::encode_utf8(lowercase_text(f.name));
    lemma_bytes_order(x, y, x);
}

/// Continuous settings coalesce; everything else is an edge of its own.
pub proof fn law_only_settings_are_coalesced(command: BackendCommand)
    ensures
        is_edge_command(command) <==> !(command is SetDesiredMembers || command is SetMasterVolume
            || command is SetMuted
            || command is SetReceiverLevel || command is SetAudioEndpoint
            || command is SetLatencyPreset || command is SetAutoConnect || command is SetRunIntent),
{
}

/// A record's kind is that of what it carries.
pub proof fn law_records_have_the_kind_of_their_payload(p: PayloadView)
    ensures
        p is Message <==> payload_kind(p) is Message,
        p is DiscoveryGeneration <==> payload_kind(p) is DiscoveryGeneration,
        p is DiscoveryReceiver <==> payload_kind(p) is DiscoveryReceiver,
        p is CommandResult <==> payload_kind(p) is CommandResult,
        p is CommandCoalesced <==> payload_kind(p) is CommandCoalesced,
        p is ReceiverTransition <==> payload_kind(p) is ReceiverTransition,
        p is SetupPhaseDuration <==> payload_kind(p) is SetupPhaseDuration,
        p is SessionTransition <==> payload_kind(p) is SessionTransition,
        p is SessionRestart <==> payload_kind(p) is SessionRestart,
        p is Retry <==> payload_kind(p) is Retry,
        p is CaptureTransition <==> payload_kind(p) is CaptureTransition,
        p is PcmDrop <==> payload_kind(p) is PcmDrop,
        p is SilenceBridge <==> payload_kind(p) is SilenceBridge,
        p is Probe <==> payload_kind(p) is Probe,
        p is Persistence <==> payload_kind(p) is Persistence,
        p is QueueWatermark <==> payload_kind(p) is QueueWatermark,
        p is QueueLag <==> payload_kind(p) is QueueLag,
        p is WorkerShutdown <==> payload_kind(p) is WorkerShutdown,
        p is SystemTransition <==> payload_kind(p) is SystemTransition,
        p is CalibrationState <==> payload_kind(p) is CalibrationState,
{
}

/// The listening tone lasts two seconds at 44100 frames, and its level climbs
/// by one step per frame over the first 1103 frames and falls likewise over
/// the last.
pub proof fn law_the_tone_lasts_two_seconds(index: int)
    requires
        0 <= index < 88_200,
    ensures
        CAPTURE_SAMPLE_RATE == 44_100,
        tone_frame_total() == 88_200,
        index <= 1_103 ==> fade_level(index) == index,
        1_103 <= index <= 87_096 ==> fade_level(index) == 1_103,
        index >= 87_096 ==> fade_level(index) == 88_199 - index,
{
}

/// A tone guard covers its generation, members, volumes, and endpoints.
pub proof fn law_guards_compare_everything_they_hold(a: GuardView, b: GuardView)
    ensures
        same_guard(a, b) <==> {
            &&& a.generation == b.generation
            &&& a.members == b.members
            &&& a.volume.units() == b.volume.units()
            &&& a.endpoint == b.endpoint
            &&& a.captured == b.captured
            &&& forall|id: ReceiverId| a.levels.contains_key(id) <==> b.levels.contains_key(id)
            &&& forall|id: ReceiverId|
                a.levels.contains_key(id) ==> (#[trigger] a.levels[id]).units()
                    == b.levels[id].units()
        },
        crate::listening_check::TEST_TONE_LIMIT_BITS == 0x3E19_999A,
{
    assert((forall|id: ReceiverId| a.levels.contains_key(id) <==> b.levels.contains_key(id))
        ==> a.levels.dom() =~= b.levels.dom());
    assert(a.levels.dom() == b.levels.dom() ==> forall|id: ReceiverId|
        a.levels.dom().contains(id) <==> b.levels.dom().contains(id));
}

/// Peaks are read in thousandths, at most a thousand, and only for a second
/// after the window opened.
pub proof fn law_peaks_are_thousandths_for_a_second(
    meter: CaptureInputMeter,
    generation: u64,
    opened: Instant,
    now: Instant,
    peak: u16,
)
    requires
        meter.observed_at == Some(opened),
        meter.observed,
        meter.generation == Some(generation),
        opened.nanos <= now.nanos,
    ensures
        now.nanos <= opened.nanos + 1_000_000_000 ==> window_sample(meter, generation, now) == Some(
            meter.peak_permille,
        ),
        now.nanos > opened.nanos + 1_000_000_000 ==> window_sample(meter, generation, now) is None,
        peak <= 1_000 ==> capped_peak(peak) == peak,
        peak > 1_000 ==> capped_peak(peak) == 1_000,
{
}

/// Two stored states are alike exactly if every choice in them is.
pub proof fn law_stored_states_compare_every_choice(a: PersistedView, b: PersistedView)
    requires
        same_state(a, b),
    ensures
        a.version == b.version,
        a.master_volume.units() == b.master_volume.units(),
        a.muted == b.muted,
        a.last_desired_members == b.last_desired_members,
        a.audio_endpoint == b.audio_endpoint,
        a.latency_preset == b.latency_preset,
        a.auto_connect == b.auto_connect,
        forall|id: ReceiverId|
            #[trigger] a.receiver_levels.contains_key(id) ==> b.receiver_levels.contains_key(id)
                && a.receiver_levels[id].units() == b.receiver_levels[id].units(),
        a.saved_groups.len() == b.saved_groups.len(),
        forall|i: int|
            0 <= i < a.saved_groups.len() ==> (#[trigger] a.saved_groups[i]).id
                == b.saved_groups[i].id && a.saved_groups[i].name == b.saved_groups[i].name
                && a.saved_groups[i].members.len() == b.saved_groups[i].members.len(),
        forall|i: int, j: int|
            #![trigger a.saved_groups[i].members[j]]
            0 <= i < a.saved_groups.len() && 0 <= j < a.saved_groups[i].members.len() ==> {
                let m = a.saved_groups[i].members[j];
                let n = b.saved_groups[i].members[j];
                m.receiver == n.receiver && m.last_known_name == n.last_known_name
                    && m.level.units() == n.level.units()
            },
{
    assert(forall|id: ReceiverId|
        a.receiver_levels.contains_key(id) <==> a.receiver_levels.dom().contains(id));
}

/// A state is like itself.
pub proof fn law_a_stored_state_is_like_itself(a: PersistedView)
    ensures
        same_state(a, a),
{
}

/// A controller starts with what was stored, stopped, and with nothing seen;
/// only automatic connection gives it a minute to act on its own.
pub proof fn law_a_controller_starts_from_what_was_stored(
    persisted: PersistedView,
    policy: RetryPolicy,
    now: Instant,
)
    requires
        now.nanos + 60_000_000_000 <= u64::MAX,
    ensures
        ({
            let a = blank_actor(persisted, policy, now);
            &&& a.persisted == persisted
            &&& a.policy == policy
            &&& a.snapshot.desired_members == persisted.last_desired_members
            &&& a.snapshot.saved_groups == persisted.saved_groups
            &&& a.snapshot.master_volume == persisted.master_volume
            &&& a.snapshot.receiver_levels == persisted.receiver_levels
            &&& a.snapshot.muted == persisted.muted
            &&& a.snapshot.latency_preset == persisted.latency_preset
            &&& a.snapshot.auto_connect == persisted.auto_connect
            &&& a.snapshot.audio_source.preference == persisted.audio_endpoint
            &&& a.snapshot.run_intent is Stopped
            &&& a.snapshot.session.phase is Stopped
            &&& a.snapshot.receivers.len() == 0
            &&& a.snapshot.revision == 0
            &&& a.inventory == Map::<ReceiverId, crate::actor_model::EntryView>::empty()
            &&& a.machines == Map::<ReceiverId, MachineView>::empty()
            &&& a.active == Set::<ReceiverId>::empty()
            &&& a.pending_desired == Set::<ReceiverId>::empty()
            &&& a.primary is None
            &&& a.listening_test is None
            &&& a.calibration.reference is None
            &&& a.session_generation == 0
            &&& a.live_session_generation is None
            &&& a.capture_generation == 0
            &&& a.discovery_failures == 0
            &&& !a.suspended
            &&& a.resume_at is None
            &&& a.session_open
            &&& a.rejoin.last_rejoin_restart is None
            &&& a.effects.len() == 0
            &&& !persisted.auto_connect ==> a.startup_auto_connect_until is None
            &&& persisted.auto_connect ==> (a.startup_auto_connect_until matches Some(until)
                && until.nanos == now.nanos + 60_000_000_000)
        }),
{
}

/// The waits of the library, in nanoseconds.
pub proof fn law_the_waits()
    ensures
        crate::actor_model::RESUME_SETTLE_NANOS == 2_000_000_000,
        crate::actor_model::SUSPEND_WATCHDOG_NANOS == 300_000_000_000,
        crate::actor_model::AUTO_CONNECT_WINDOW_NANOS == 60_000_000_000,
        crate::actor_model::SHUTDOWN_JOIN_SLACK_NANOS == 1_000_000_000,
        crate::session::TEARDOWN_GROUP_NANOS == 4_000_000_000,
        crate::discovery::DISCOVERY_SETTLE_NANOS == 2_000_000_000,
        crate::bridge::SILENCE_PERIOD_NANOS == 50_000_000,
        crate::bridge::LISTENING_TONE_FRAME_NANOS == 20_000_000,
        crate::bridge::LISTENING_TONE_NAP_NANOS == 2_000_000,
{
}

} // verus!
