//! What the library's schedules, limits, orders, and defaults are.

use vstd::prelude::*;

use crate::calibration::CalibrationView;
use crate::command::{receipt_after, receipt_state, CommandConfirmation, ReceiptAnswer, ReceiptState};
use crate::ids::ReceiverId;
use crate::model::{
    outcome_recorded, preset_config, preset_disabled_text, CommandFailure, GroupView, LatencyPreset,
    OutcomesView, SnapshotView,
};
use crate::network::{
    accumulated, BindingFingerprint, CoalescerAction, CoalescerEvent, NetworkCoalescer,
};
use crate::persistence::{
    clamped_bits, is_default_state, preferences_problem, promoted, v1_projection, PersistedView,
};
use crate::recovery::{
    base_nanos, discovered_noted, discovery_hash, discovery_retry_delay, eligible_at, entry_of,
    failure_noted, generation_bytes, group_allowed, is_baseline_policy, is_due, jitter_hash,
    receiver_hash, rejoin_allowed, retry_delay, streaming_noted, LimiterView, ReceiverRetryEntry,
    RetryPolicy,
};
use crate::text::{bytes_before, trimmed};
use crate::time::{elapsed, instant_after, wall_after, Instant, SystemTime};
use crate::volume::{f32_finite, f32_within_unit};

verus! {

/// Adding to a time moves it by exactly that span, and stops at the end of the
/// clock; the time between two instants is their distance, and nothing
/// backwards.
pub proof fn law_times_add_and_subtract(at: Instant, wall: SystemTime, span: u64, other: Instant)
    ensures
        at.nanos + span <= u64::MAX ==> instant_after(at, span).nanos == at.nanos + span,
        at.nanos + span > u64::MAX ==> instant_after(at, span).nanos == u64::MAX,
        wall.nanos + span <= u64::MAX ==> wall_after(wall, span).nanos == wall.nanos + span,
        wall.nanos + span > u64::MAX ==> wall_after(wall, span).nanos == u64::MAX,
        at.nanos <= other.nanos ==> at.nanos + elapsed(at, other) == other.nanos,
        at.nanos > other.nanos ==> elapsed(at, other) == 0,
{
}

/// The baseline waits one, two, four, eight, sixteen, and from then on thirty
/// seconds, each within twenty percent; a minute of streaming is healthy, and
/// discovery is stable after two seconds.
pub proof fn law_the_baseline_schedule(policy: RetryPolicy, attempt: u32)
    requires
        is_baseline_policy(policy),
    ensures
        base_nanos(policy, 0) == 1_000_000_000,
        base_nanos(policy, 1) == 2_000_000_000,
        base_nanos(policy, 2) == 4_000_000_000,
        base_nanos(policy, 3) == 8_000_000_000,
        base_nanos(policy, 4) == 16_000_000_000,
        attempt >= 5 ==> base_nanos(policy, attempt) == 30_000_000_000,
        policy.jitter_percent == 20,
        policy.healthy_reset_after.nanos == 60_000_000_000,
        policy.discovery_stable_for.nanos == 2_000_000_000,
{
}

/// `delay` is `base` moved by `percent`, to the nearest nanosecond, and never
/// more than thirty seconds.
pub open spec fn moved_by(delay: int, base: u64, percent: int) -> bool {
    ||| delay <= 30_000_000_000 && -50 <= base * (100 + percent) - 100 * delay < 50
    ||| delay == 30_000_000_000 && base * (100 + percent) >= 100 * 30_000_000_000
}

/// A retry waits its base delay, moved by the percentage its hash selects out
/// of the policy's jitter. The hash starts at the attempt and takes in the
/// receiver's stored form, or the eight bytes of discovery's generation, one
/// byte after the other.
pub proof fn law_a_retry_waits_its_jittered_base(
    policy: RetryPolicy,
    receiver: ReceiverId,
    generation: u64,
    attempt: u32,
)
    ensures
        moved_by(
            retry_delay(policy, receiver, attempt),
            base_nanos(policy, attempt),
            receiver_hash(receiver, attempt) as int % (2 * policy.jitter_percent + 1)
                - policy.jitter_percent,
        ),
        moved_by(
            discovery_retry_delay(policy, generation, attempt),
            base_nanos(policy, attempt),
            discovery_hash(generation, attempt) as int % (2 * policy.jitter_percent + 1)
                - policy.jitter_percent,
        ),
        exists|bytes: Seq<u8>|
            #![trigger jitter_hash(attempt as u64, bytes)]
            receiver_hash(receiver, attempt) == jitter_hash(attempt as u64, bytes) && bytes.len()
                == receiver.storage_text().len() && forall|i: int|
                0 <= i < bytes.len() ==> #[trigger] bytes[i] == receiver.storage_text()[i] as u8,
        discovery_hash(generation, attempt) == jitter_hash(
            attempt as u64,
            generation_bytes(generation),
        ),
{
    let bytes = crate::recovery::ascii_bytes(receiver.storage_text());
    assert(receiver_hash(receiver, attempt) == jitter_hash(attempt as u64, bytes));
}

/// The jitter hash starts at its seed; each byte multiplies it by
/// 1099511628211 and is added, modulo two to the power of 64.
pub proof fn law_the_jitter_hash_folds_byte_by_byte(seed: u64, bytes: Seq<u8>, next: u8)
    ensures
        jitter_hash(seed, Seq::empty()) == seed,
        jitter_hash(seed, bytes.push(next)) == (jitter_hash(seed, bytes) * 1_099_511_628_211 + next)
            % 18_446_744_073_709_551_616,
{
    assert(bytes.push(next).drop_last() =~= bytes);
}

/// The bytes of a generation number are its digits to the base 256, least
/// significant first.
pub proof fn law_generation_bytes_spell_the_number(n: u64)
    ensures
        ({
            let b = generation_bytes(n);
            &&& b.len() == 8
            &&& n == b[0] + 256 * (b[1] + 256 * (b[2] + 256 * (b[3] + 256 * (b[4] + 256 * (b[5]
                + 256 * (b[6] + 256 * b[7]))))))
        }),
{
    reveal_with_fuel(crate::recovery::little_endian_byte, 9);
}

/// A failure adds one attempt, and the receiver is due again its delay after
/// the failure; a healthy window has to start over.
pub proof fn law_a_failure_schedules_its_retry(
    entries: Map<ReceiverId, ReceiverRetryEntry>,
    policy: RetryPolicy,
    now: Instant,
    receiver: ReceiverId,
    later: Instant,
)
    requires
        policy.sound(),
        now.nanos + 30_000_000_000 <= u64::MAX,
        entries.contains_key(receiver) ==> entries[receiver].attempt < u32::MAX,
    ensures
        ({
            let failures = if entries.contains_key(receiver) { entries[receiver].attempt } else { 0 };
            let after = failure_noted(entries, policy, now, receiver);
            &&& after.dom() == entries.dom().insert(receiver)
            &&& after[receiver].attempt == failures + 1
            &&& after[receiver].streaming_since is None
            &&& after[receiver].next_retry matches Some(at) && at.nanos == now.nanos + retry_delay(
                policy,
                receiver,
                failures,
            )
            &&& is_due(after, later, receiver) <==> later.nanos >= now.nanos + retry_delay(
                policy,
                receiver,
                failures,
            )
            &&& forall|other: ReceiverId|
                other != receiver && entries.contains_key(other) ==> #[trigger] after[other]
                    == entries[other]
        }),
{
    crate::recovery::law_delays_are_bounded(
        policy,
        receiver,
        entry_of(entries, receiver).attempt,
    );
}

/// A streaming report opens the healthy window where none is open, leaves an
/// open one running, and forgives every failure once the window is as long as
/// the policy asks.
pub proof fn law_streaming_forgives_after_the_window(
    entries: Map<ReceiverId, ReceiverRetryEntry>,
    policy: RetryPolicy,
    now: Instant,
    receiver: ReceiverId,
)
    requires
        entries.contains_key(receiver),
    ensures
        ({
            let before = entries[receiver];
            let after = streaming_noted(entries, policy, now, receiver);
            &&& before.streaming_since is None ==> after[receiver] == (ReceiverRetryEntry {
                streaming_since: Some(now),
                ..before
            })
            &&& before.streaming_since matches Some(since) ==> {
                &&& after[receiver].streaming_since == Some(since)
                &&& since.nanos <= now.nanos < since.nanos + policy.healthy_reset_after.nanos
                    ==> after[receiver] == before
                &&& since.nanos + policy.healthy_reset_after.nanos <= now.nanos
                    ==> after[receiver].attempt == 0 && after[receiver].next_retry is None
            }
            &&& after.dom() == entries.dom()
            &&& forall|other: ReceiverId|
                other != receiver ==> #[trigger] after[other] == entries[other]
        }),
{
}

/// A receiver may rejoin two seconds after it was first seen, and not while it
/// is not; a rejoin may restart the group thirty seconds after the previous
/// one, and the first at any time.
pub proof fn law_rejoins_wait_two_and_thirty_seconds(
    limiter: LimiterView,
    now: Instant,
    receiver: ReceiverId,
)
    requires
        now.nanos < u64::MAX,
    ensures
        rejoin_allowed(limiter, now, receiver) <==> limiter.online_since.contains_key(receiver)
            && limiter.online_since[receiver].nanos + 2_000_000_000 <= now.nanos,
        group_allowed(limiter, now) <==> (limiter.last_rejoin_restart matches Some(at)
            ==> at.nanos + 30_000_000_000 <= now.nanos),
        eligible_at(limiter, receiver) is Some <==> limiter.online_since.contains_key(receiver),
        !limiter.online_since.contains_key(receiver) ==> discovered_noted(
            limiter,
            now,
            receiver,
        ).online_since == limiter.online_since.insert(receiver, now),
        limiter.online_since.contains_key(receiver) ==> discovered_noted(limiter, now, receiver)
            == limiter,
        discovered_noted(limiter, now, receiver).last_rejoin_restart == limiter.last_rejoin_restart,
{
}

/// The accepted levels are zero of either sign and every number up to one;
/// what lies outside is clamped to the nearer end.
pub proof fn law_levels_reach_from_zero_to_one(bits: u32)
    ensures
        f32_within_unit(bits) <==> bits <= 0x3F80_0000 || bits == 0x8000_0000,
        f32_finite(bits) ==> {
            &&& bits <= 0x3F80_0000 ==> clamped_bits(bits) == bits
            &&& 0x3F80_0000 < bits < 0x8000_0000 ==> clamped_bits(bits) == 0x3F80_0000
            &&& bits > 0x8000_0000 ==> clamped_bits(bits) == 0
        },
{
    crate::volume::lemma_unit_range(bits);
}

/// A fresh state is a quarter of full volume, unmuted, on the default device
/// and the normal preset, with nothing chosen, saved, or connected by itself.
pub proof fn law_a_fresh_state_is_quiet_and_empty(state: PersistedView, version: u32)
    requires
        is_default_state(state, version),
    ensures
        state.version == version,
        state.master_volume.bits() == 0x3E80_0000,
        !state.muted,
        !state.auto_connect,
        state.audio_endpoint is SystemDefault,
        state.latency_preset is Normal,
        state.saved_groups.len() == 0,
        forall|id: ReceiverId| !state.last_desired_members.contains(id),
        forall|id: ReceiverId| !state.receiver_levels.contains_key(id),
{
}

/// Changing a document's version keeps everything the user chose.
pub proof fn law_changing_the_version_keeps_every_choice(
    state: PersistedView,
    section: CalibrationView,
)
    ensures
        ({
            let newer = promoted(state, section);
            &&& newer.base.version == 2
            &&& newer.calibration == section
            &&& newer.base.master_volume == state.master_volume
            &&& newer.base.muted == state.muted
            &&& newer.base.receiver_levels == state.receiver_levels
            &&& newer.base.saved_groups == state.saved_groups
            &&& newer.base.last_desired_members == state.last_desired_members
            &&& newer.base.audio_endpoint == state.audio_endpoint
            &&& newer.base.latency_preset == state.latency_preset
            &&& newer.base.auto_connect == state.auto_connect
            &&& v1_projection(newer).version == 1
            &&& v1_projection(newer) == (PersistedView { version: 1, ..state })
        }),
{
}

/// Only the normal preset can be used, with two seconds of buffer and a fifth
/// of a second of render delay; the others say which they are and why not.
pub proof fn law_only_the_normal_preset_is_enabled(preset: LatencyPreset)
    ensures
        preset_config(preset) is Some <==> preset is Normal,
        preset_disabled_text(preset) is None <==> preset is Normal,
        preset_config(preset) matches Some(config) ==> config.sender_buffer_ms == 2_000
            && config.render_delay_ms == 200,
        preset is Low ==> preset_disabled_text(preset) == Some(
            "the "@ + "Low"@ + " latency profile is disabled until hardware validation passes"@,
        ),
        preset is Stable ==> preset_disabled_text(preset) == Some(
            "the "@ + "Stable"@ + " latency profile is disabled until hardware validation passes"@,
        ),
        crate::model::all_presets().len() == 3,
        crate::model::all_presets()[0] is Low,
        crate::model::all_presets()[1] is Normal,
        crate::model::all_presets()[2] is Stable,
{
}

/// The history holds the newest 128 results in the order they came, and never
/// loses one while there is room.
pub proof fn law_the_history_drops_only_its_oldest(
    history: OutcomesView,
    id: u64,
    error: Option<CommandFailure>,
    i: int,
)
    requires
        history.recent.len() <= 128,
    ensures
        ({
            let after = outcome_recorded(history, id, error);
            &&& after.recent.last() == (id, error)
            &&& history.recent.len() < 128 ==> after.recent == history.recent.push((id, error))
                && after.evicted_through == history.evicted_through
            &&& history.recent.len() == 128 ==> {
                &&& after.recent.len() == 128
                &&& 0 <= i < 127 ==> after.recent[i] == history.recent[i + 1]
                &&& after.evicted_through == if history.recent[0].0 > history.evicted_through {
                    history.recent[0].0
                } else {
                    history.evicted_through
                }
            }
        }),
{
    let all = history.recent.push((id, error));
    reveal_with_fuel(crate::model::largest_id, 3);
    if history.recent.len() < 128 {
        assert(all.skip(0) =~= all);
    } else {
        assert(all.take(1).drop_last() =~= Seq::empty());
        assert(all.take(1).last() == history.recent[0]);
    }
}

/// A receipt shows the first result its channel gave, from the revision that
/// includes it on; before any result it waits, unless its channel is gone.
pub proof fn law_a_receipt_shows_its_first_result(
    held: Option<CommandConfirmation>,
    answer: ReceiptAnswer,
    revision: u64,
)
    ensures
        held is Some ==> receipt_after(held, answer) == held,
        held is None ==> (receipt_after(held, answer) is Some <==> answer is Confirmed),
        held is None && answer is Confirmed ==> receipt_after(held, answer) == Some(
            answer->Confirmed_0,
        ),
        receipt_after(held, answer) matches Some(result) ==> receipt_state(held, answer, revision)
            == if revision >= result.revision {
            ReceiptState::Completed(result.error)
        } else {
            ReceiptState::Pending
        },
        held is None && answer is Closed ==> receipt_state(held, answer, revision) is Lost,
        held is None && !(answer is Closed) && !(answer is Confirmed) ==> receipt_state(
            held,
            answer,
            revision,
        ) is Pending,
{
}

/// Bytes sort by the first place where they differ, and a proper start sorts
/// before what it starts.
pub proof fn law_bytes_sort_by_their_first_difference(a: Seq<u8>, b: Seq<u8>, at: int)
    requires
        0 <= at <= a.len(),
        at <= b.len(),
        forall|i: int| 0 <= i < at ==> a[i] == b[i],
        at < a.len() && at < b.len() ==> a[at] != b[at],
    ensures
        bytes_before(a, b) <==> at < b.len() && (at == a.len() || a[at] < b[at]),
    decreases at,
{
    if at > 0 {
        let x = a.drop_first();
        let y = b.drop_first();
        assert(forall|i: int| 0 <= i < at - 1 ==> x[i] == a[i + 1] && y[i] == b[i + 1]);
        law_bytes_sort_by_their_first_difference(x, y, at - 1);
        assert(a[0] == b[0]);
    }
}

/// A quiet coalescer opens a window at the first pulse, a window swallows
/// further pulses and publishes when it closes, and a delivered edge leaves it
/// quiet again with the new bindings.
pub proof fn law_the_coalescer_steps(
    coalescer: NetworkCoalescer,
    event: CoalescerEvent,
    sampled: BindingFingerprint,
)
    ensures
        ({
            let (after, action) = coalescer.after(event);
            &&& coalescer.phase is Stopped ==> after == coalescer && action is Wait
            &&& !(coalescer.phase is Stopped) && event is Cancelled ==> action is Release
                && after.phase is Stopped
            &&& action is OpenWindow <==> coalescer.phase is Waiting && event is Pulse
            &&& action is OpenWindow ==> after.phase is Settling && after.last == coalescer.last
            &&& action is Publish <==> coalescer.phase is Settling && event is Settled
            &&& coalescer.phase is Settling && event == CoalescerEvent::Settled(sampled) ==> {
                &&& after.phase is Publishing
                &&& after.last == sampled
                &&& action == (CoalescerAction::Publish {
                    local_binding_changed: sampled != coalescer.last,
                })
            }
            &&& coalescer.phase is Publishing && event is Delivered ==> after.phase is Waiting
                && after.last == coalescer.last
            &&& coalescer.phase is Settling && event is Pulse ==> after == coalescer
            &&& action is Release <==> !(coalescer.phase is Stopped) && (event is Cancelled || (
            event is SourceClosed && (coalescer.phase is Waiting || coalescer.phase is Settling))
                || (event is Undeliverable && coalescer.phase is Publishing))
            &&& action is Release ==> after.phase is Stopped
        }),
        crate::network::NETWORK_SETTLE_NANOS == 2_000_000_000,
{
}

/// Every row enters all three channels of the fingerprint.
pub proof fn law_every_row_enters_the_fingerprint(rows: Seq<u64>, row: u64)
    ensures
        accumulated(Seq::empty()).xor == 0,
        accumulated(Seq::empty()).sum == 0,
        accumulated(Seq::empty()).count == 0,
        ({
            let before = accumulated(rows);
            let after = accumulated(rows.push(row));
            &&& after.xor == before.xor ^ row
            &&& after.sum == (before.sum + row) % 18_446_744_073_709_551_616
            &&& after.count == (before.count + 1) % 18_446_744_073_709_551_616
        }),
{
    reveal_with_fuel(Seq::fold_left, 2);
    assert(rows.push(row).drop_last() =~= rows);
}

/// Stored preferences are refused exactly for a preset that cannot be used, a
/// group without a proper name of its own, an empty group, or a group that
/// lists a receiver twice.
pub proof fn law_preferences_are_refused_for_these_reasons_only(
    preset: LatencyPreset,
    groups: Seq<GroupView>,
)
    ensures
        preferences_problem(preset, groups) is None <==> {
            &&& preset is Normal
            &&& forall|i: int|
                0 <= i < groups.len() ==> (#[trigger] groups[i]).name.len() > 0 && trimmed(
                    groups[i].name,
                ) == groups[i].name && groups[i].members.len() > 0
            &&& forall|i: int, j: int, k: int|
                #![trigger groups[i].members[j], groups[i].members[k]]
                0 <= i < groups.len() && 0 <= j < k < groups[i].members.len()
                    ==> groups[i].members[j].receiver != groups[i].members[k].receiver
            &&& forall|i: int, j: int|
                0 <= i < j < groups.len() ==> crate::text::lowercase_text(
                    (#[trigger] groups[i]).name,
                ) != crate::text::lowercase_text((#[trigger] groups[j]).name)
        },
{
    crate::persistence::law_validation_accepts_exactly_valid_preferences(preset, groups);
}

/// Before anything has loaded, nothing is shown, chosen, or running.
pub proof fn law_the_first_snapshot_shows_nothing(snapshot: SnapshotView)
    requires
        crate::model::is_default_snapshot(snapshot),
    ensures
        snapshot.revision == 0,
        snapshot.desired_revision == 0,
        snapshot.receivers.len() == 0,
        snapshot.saved_groups.len() == 0,
        forall|id: ReceiverId| !snapshot.desired_members.contains(id),
        forall|id: ReceiverId| !snapshot.receiver_levels.contains_key(id),
        snapshot.run_intent is Stopped,
        snapshot.discovery.phase is Stopped,
        snapshot.discovery.generation == 0,
        snapshot.session.phase is Stopped,
        snapshot.session.primary is None,
        !snapshot.session.resume_pending,
        snapshot.session.audio_flow is SilenceBridged,
        forall|id: ReceiverId| !snapshot.session.active.contains(id),
        forall|id: ReceiverId| !snapshot.session.desired.contains(id),
        forall|id: ReceiverId| !snapshot.session.failed.contains(id),
        forall|id: ReceiverId| !snapshot.session.retry_waiting.contains(id),
        snapshot.audio_source.captured_endpoint is None,
        snapshot.audio_source.active_endpoints is None,
        snapshot.audio_source.state is Unavailable,
        snapshot.audio_source.pcm_frames_dropped_total == 0,
        snapshot.master_volume.bits() == 0x3E80_0000,
        !snapshot.muted,
        !snapshot.auto_connect,
        snapshot.latency_preset is Normal,
        snapshot.persistence is Idle,
        snapshot.command_outcomes.recent.len() == 0,
        snapshot.latency_presets.len() == 3,
{
}

/// The queues between the parts hold this many entries.
pub proof fn law_the_queues_hold()
    ensures
        crate::command::COMMAND_CAPACITY == 64,
        crate::event::BACKEND_EVENT_CAPACITY == 256,
        crate::event::DIAGNOSTIC_CAPACITY == 2_048,
        crate::event::SUPERVISOR_CAPACITY == 256,
        crate::event::PCM_CAPACITY == 32,
        crate::network::PULSE_CAPACITY == 32,
{
}

} // verus!
