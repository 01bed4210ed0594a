//! Deterministic recovery policy: exponential backoff with stable per-receiver
//! jitter, healthy-streaming reset, manual retry, and rejoin-restart rate
//! limiting.
//!
//! Every operation that depends on the time takes the clock reading as an
//! argument, so each decision is reproducible without sleeping.

use vstd::prelude::*;

use crate::idmap::{ascending, IdMap};
use crate::ids::ReceiverId;
use crate::time::{elapsed, instant_after, Duration, Instant, NANOS_PER_SEC};

pub use crate::machine::{InvalidTransition, ReceiverMachine};

verus! {

/// Hard ceiling for any computed delay, in nanoseconds.
pub const MAX_RETRY_DELAY_NANOS: u64 = 30_000_000_000;

/// FNV-style 64-bit prime used by the deterministic jitter hash.
pub const JITTER_HASH_PRIME: u64 = 0x100_0000_01b3;

/// Continuous discoverability required before a rejoin restart is allowed.
pub const REJOIN_ONLINE_STABLE_NANOS: u64 = 2_000_000_000;

/// Minimum spacing between rejoin-triggered group restarts.
pub const REJOIN_RESTART_SPACING_NANOS: u64 = 30_000_000_000;

/// Exponential reconnect backoff with deterministic ±jitter percent.
///
/// The base schedule is 1, 2, 4, 8, 16, and 30 seconds. Jitter scales each
/// delay by a stable offset in `±jitter_percent` derived only from the
/// receiver identity (or discovery generation), the attempt number, and this
/// configuration; identical inputs always produce identical delays.
#[derive(Clone, Copy, Debug)]
pub struct RetryPolicy {
    /// Base delays indexed by `min(attempt, len - 1)`; attempt zero first.
    pub base: [Duration; 6],
    /// Maximum symmetric jitter percentage applied to every delay.
    pub jitter_percent: u8,
    /// Continuous streaming required before a receiver's attempts reset.
    pub healthy_reset_after: Duration,
    /// Continuous discoverability required before a rejoin restart may run.
    pub discovery_stable_for: Duration,
}

/// Folds `bytes` into `seed` by multiplying with the jitter prime and adding
/// each byte, modulo two to the power of 64.
pub open spec fn jitter_hash(seed: u64, bytes: Seq<u8>) -> u64
    decreases bytes.len(),
{
    if bytes.len() == 0 {
        seed
    } else {
        let head = jitter_hash(seed, bytes.drop_last());
        ((head * JITTER_HASH_PRIME + bytes.last()) % 0x1_0000_0000_0000_0000) as u64
    }
}

/// The signed percentage, within `±jitter_percent`, that `hash` selects.
pub open spec fn jitter_offset(hash: u64, jitter_percent: u8) -> int {
    hash as int % (2 * jitter_percent + 1) - jitter_percent
}

/// `base` scaled by a signed percentage, to the nearest nanosecond, and
/// capped at thirty seconds.
pub open spec fn scaled_nanos(base: u64, offset: int) -> int {
    let scaled = (base * (100 + offset) + 50) / 100;
    if scaled > MAX_RETRY_DELAY_NANOS { MAX_RETRY_DELAY_NANOS as int } else { scaled }
}

/// The base delay of a zero-based attempt; the last step repeats.
pub open spec fn base_nanos(policy: RetryPolicy, attempt: u32) -> u64 {
    policy.base@[if attempt < 6 { attempt as int } else { 5 }].nanos
}

/// The bytes of an ASCII text.
pub open spec fn ascii_bytes(text: Seq<char>) -> Seq<u8> {
    Seq::new(text.len(), |i: int| text[i] as u8)
}

/// The eight bytes of a generation number, least significant first.
pub open spec fn generation_bytes(generation: u64) -> Seq<u8> {
    Seq::new(8, |i: int| little_endian_byte(generation, i))
}

/// Byte `i` of a number, counted from the least significant.
pub open spec fn little_endian_byte(n: u64, i: int) -> u8
    decreases i,
{
    if i <= 0 { (n % 256) as u8 } else { little_endian_byte(n / 256, i - 1) }
}

/// Hash that seeds a receiver's jitter.
pub open spec fn receiver_hash(receiver: ReceiverId, attempt: u32) -> u64 {
    jitter_hash(attempt as u64, ascii_bytes(receiver.storage_text()))
}

/// Hash that seeds a discovery restart's jitter.
pub open spec fn discovery_hash(generation: u64, attempt: u32) -> u64 {
    jitter_hash(attempt as u64, generation_bytes(generation))
}

/// The delay before `receiver` is retried after zero-based `attempt`.
pub open spec fn retry_delay(policy: RetryPolicy, receiver: ReceiverId, attempt: u32) -> int {
    scaled_nanos(
        base_nanos(policy, attempt),
        jitter_offset(receiver_hash(receiver, attempt), policy.jitter_percent),
    )
}

/// The delay before discovery restarts.
pub open spec fn discovery_retry_delay(policy: RetryPolicy, generation: u64, attempt: u32) -> int {
    scaled_nanos(
        base_nanos(policy, attempt),
        jitter_offset(discovery_hash(generation, attempt), policy.jitter_percent),
    )
}

impl RetryPolicy {
    /// Whether no jitter offset can make a delay negative.
    pub open spec fn sound(self) -> bool {
        self.jitter_percent <= 100
    }
}

/// Whether `policy` is the specified baseline.
pub open spec fn is_baseline_policy(policy: RetryPolicy) -> bool {
    &&& policy.base@.len() == 6
    &&& policy.base@[0].nanos == NANOS_PER_SEC
    &&& policy.base@[1].nanos == 2 * NANOS_PER_SEC
    &&& policy.base@[2].nanos == 4 * NANOS_PER_SEC
    &&& policy.base@[3].nanos == 8 * NANOS_PER_SEC
    &&& policy.base@[4].nanos == 16 * NANOS_PER_SEC
    &&& policy.base@[5].nanos == 30 * NANOS_PER_SEC
    &&& policy.jitter_percent == 20
    &&& policy.healthy_reset_after.nanos == 60 * NANOS_PER_SEC
    &&& policy.discovery_stable_for.nanos == 2 * NANOS_PER_SEC
}

impl Default for RetryPolicy {
    fn default() -> (r: Self)
        ensures
            is_baseline_policy(r),
    {
        RetryPolicy {
            base: [
                Duration::from_secs(1),
                Duration::from_secs(2),
                Duration::from_secs(4),
                Duration::from_secs(8),
                Duration::from_secs(16),
                Duration::from_secs(30),
            ],
            jitter_percent: 20,
            healthy_reset_after: Duration::from_secs(60),
            discovery_stable_for: Duration::from_secs(2),
        }
    }
}

/// One step of the jitter hash.
fn fold_byte(value: u64, byte: u8) -> (r: u64)
    ensures
        r == (value * JITTER_HASH_PRIME + byte) % 0x1_0000_0000_0000_0000,
{
    let product: u64 = value.wrapping_mul(JITTER_HASH_PRIME);
    let sum: u64 = product.wrapping_add(byte as u64);
    proof {
        let p = value * JITTER_HASH_PRIME;
        let m = 0x1_0000_0000_0000_0000int;
        assert(product == p % m);
        vstd::arithmetic::div_mod::lemma_add_mod_noop(p, byte as int, m);
        assert(byte as int % m == byte);
        assert(sum == (product + byte as u64) % m);
    }
    sum
}

/// Scales `base` by the signed percentage encoded in `hash`.
fn scale_with_hash(base: Duration, hash: u64, jitter_percent: u8) -> (r: Duration)
    requires
        jitter_offset(hash, jitter_percent) >= -100,
    ensures
        r.nanos == scaled_nanos(base.nanos, jitter_offset(hash, jitter_percent)),
{
    let span: i64 = jitter_percent as i64;
    let modulus: u64 = jitter_percent as u64 * 2 + 1;
    let signed: i64 = (hash % modulus) as i64 - span;
    let factor: u128 = (100 + signed) as u128;
    proof {
        assert(base.nanos as u128 * factor <= 0xffff_ffff_ffff_ffff * 355) by (nonlinear_arith)
            requires
                base.nanos <= 0xffff_ffff_ffff_ffff,
                factor <= 355,
        ;
        assert(base.nanos * (100 + signed) >= 0) by (nonlinear_arith)
            requires
                signed >= -100,
        ;
    }
    let scaled: u128 = (base.nanos as u128 * factor + 50) / 100;
    if scaled > MAX_RETRY_DELAY_NANOS as u128 {
        Duration { nanos: MAX_RETRY_DELAY_NANOS }
    } else {
        Duration { nanos: scaled as u64 }
    }
}

proof fn lemma_little_endian_step(n: u64, i: int)
    requires
        0 <= i,
    ensures
        little_endian_byte(n, i + 1) == little_endian_byte(n / 256, i),
{
}

proof fn lemma_scaled_in_range(base: u64, offset: int)
    requires
        offset >= -100,
    ensures
        0 <= scaled_nanos(base, offset) <= MAX_RETRY_DELAY_NANOS,
{
    assert(base * (100 + offset) >= 0) by (nonlinear_arith)
        requires
            offset >= -100,
            base >= 0,
    ;
}

impl RetryPolicy {
    /// Deterministic delay for the given receiver and zero-based attempt.
    ///
    /// The jitter seed folds the receiver's storage-key bytes with the
    /// attempt number through an FNV-1a style multiply-add, maps the hash
    /// onto `[-jitter_percent, +jitter_percent]`, and caps the result at
    /// thirty seconds.
    pub fn delay(&self, receiver: &ReceiverId, attempt: u32) -> (r: Duration)
        requires
            jitter_offset(receiver_hash(*receiver, attempt), self.jitter_percent) >= -100,
        ensures
            r.nanos == retry_delay(*self, *receiver, attempt),
            r.nanos <= MAX_RETRY_DELAY_NANOS,
    {
        let index: usize = if attempt < 6 { attempt as usize } else { 5 };
        let base: Duration = self.base[index];
        let key: String = receiver.storage_key();
        let text: &str = key.as_str();
        let ghost bytes = ascii_bytes(receiver.storage_text());
        let len: usize = text.unicode_len();
        let mut hash: u64 = attempt as u64;
        let mut i: usize = 0;
        assert(bytes.take(0) =~= Seq::empty());
        let raw: u64 = receiver.as_u64();
        proof {
            crate::ids::law_storage_key_is_canonical_and_unique(*receiver, *receiver);
        }
        while i < len
            invariant
                i <= len,
                len == text@.len(),
                text@ == receiver.storage_text(),
                bytes == ascii_bytes(text@),
                forall|j: int| 0 <= j < len ==> crate::ids::is_upper_hex(#[trigger] text@[j]),
                hash == jitter_hash(attempt as u64, bytes.take(i as int)),
            decreases len - i,
        {
            let c: char = text.get_char(i);
            assert(crate::ids::is_upper_hex(text@[i as int]));
            hash = fold_byte(hash, c as u8);
            proof {
                assert(bytes.take(i + 1).drop_last() =~= bytes.take(i as int));
                assert(bytes.take(i + 1).last() == bytes[i as int]);
            }
            i = i + 1;
        }
        assert(bytes.take(len as int) =~= bytes);
        scale_with_hash(base, hash, self.jitter_percent)
    }

    /// Deterministic discovery-restart delay seeded by generation and
    /// attempt instead of receiver identity.
    pub fn discovery_delay(&self, generation: u64, attempt: u32) -> (r: Duration)
        requires
            jitter_offset(discovery_hash(generation, attempt), self.jitter_percent) >= -100,
        ensures
            r.nanos == discovery_retry_delay(*self, generation, attempt),
            r.nanos <= MAX_RETRY_DELAY_NANOS,
    {
        let index: usize = if attempt < 6 { attempt as usize } else { 5 };
        let base: Duration = self.base[index];
        let ghost bytes = generation_bytes(generation);
        let mut hash: u64 = attempt as u64;
        let mut rest: u64 = generation;
        let mut i: usize = 0;
        assert(bytes.take(0) =~= Seq::empty());
        while i < 8
            invariant
                i <= 8,
                bytes == generation_bytes(generation),
                forall|j: int| 0 <= j < 8 - i ==>
                    #[trigger] little_endian_byte(rest, j) == little_endian_byte(generation, j + i),
                hash == jitter_hash(attempt as u64, bytes.take(i as int)),
            decreases 8 - i,
        {
            assert(little_endian_byte(rest, 0) == little_endian_byte(generation, 0 + i));
            let byte: u8 = (rest % 256) as u8;
            hash = fold_byte(hash, byte);
            proof {
                assert(bytes[i as int] == byte);
                assert(bytes.take(i + 1).drop_last() =~= bytes.take(i as int));
                assert(bytes.take(i + 1).last() == bytes[i as int]);
                assert forall|j: int| 0 <= j < 7 - i implies
                    #[trigger] little_endian_byte((rest / 256) as u64, j)
                        == little_endian_byte(generation, j + (i + 1)) by {
                    lemma_little_endian_step(rest, j);
                    assert(little_endian_byte(rest, j + 1) == little_endian_byte(generation, j + 1 + i));
                }
            }
            rest = rest / 256;
            i = i + 1;
        }
        assert(bytes.take(8) =~= bytes);
        scale_with_hash(base, hash, self.jitter_percent)
    }
}

/// A sound policy never computes a negative delay, never waits longer than
/// thirty seconds, and stays within its jitter of the base schedule.
pub proof fn law_delays_are_bounded(policy: RetryPolicy, receiver: ReceiverId, attempt: u32)
    requires
        policy.sound(),
    ensures
        jitter_offset(receiver_hash(receiver, attempt), policy.jitter_percent) >= -100,
        0 <= retry_delay(policy, receiver, attempt) <= MAX_RETRY_DELAY_NANOS,
        100 * retry_delay(policy, receiver, attempt)
            <= base_nanos(policy, attempt) * (100 + policy.jitter_percent) + 50,
        base_nanos(policy, attempt) * (100 - policy.jitter_percent)
            <= 100 * retry_delay(policy, receiver, attempt) + 50
            || retry_delay(policy, receiver, attempt) == MAX_RETRY_DELAY_NANOS,
{
    lemma_jitter_brackets_the_delay(
        base_nanos(policy, attempt),
        jitter_offset(receiver_hash(receiver, attempt), policy.jitter_percent),
        policy.jitter_percent as int,
    );
}

/// An offset within the jitter keeps the delay within the jitter of its base.
proof fn lemma_jitter_brackets_the_delay(base: u64, offset: int, jitter: int)
    requires
        -jitter <= offset <= jitter,
        jitter <= 100,
    ensures
        0 <= scaled_nanos(base, offset) <= MAX_RETRY_DELAY_NANOS,
        100 * scaled_nanos(base, offset) <= base * (100 + jitter) + 50,
        base * (100 - jitter) <= 100 * scaled_nanos(base, offset) + 50 || scaled_nanos(base, offset)
            == MAX_RETRY_DELAY_NANOS,
{
    assert(base * (100 + offset) <= base * (100 + jitter)) by (nonlinear_arith)
        requires
            offset <= jitter,
            base >= 0,
    ;
    assert(base * (100 - jitter) <= base * (100 + offset)) by (nonlinear_arith)
        requires
            -jitter <= offset,
            base >= 0,
    ;
    lemma_scaled_in_range(base, offset);
}

/// Discovery restarts obey the same bounds: never negative, never longer than
/// thirty seconds, and within the jitter of the base schedule.
pub proof fn law_discovery_delays_are_bounded(policy: RetryPolicy, generation: u64, attempt: u32)
    requires
        policy.sound(),
    ensures
        jitter_offset(discovery_hash(generation, attempt), policy.jitter_percent) >= -100,
        0 <= discovery_retry_delay(policy, generation, attempt) <= MAX_RETRY_DELAY_NANOS,
        100 * discovery_retry_delay(policy, generation, attempt)
            <= base_nanos(policy, attempt) * (100 + policy.jitter_percent) + 50,
        base_nanos(policy, attempt) * (100 - policy.jitter_percent)
            <= 100 * discovery_retry_delay(policy, generation, attempt) + 50
            || discovery_retry_delay(policy, generation, attempt) == MAX_RETRY_DELAY_NANOS,
{
    lemma_jitter_brackets_the_delay(
        base_nanos(policy, attempt),
        jitter_offset(discovery_hash(generation, attempt), policy.jitter_percent),
        policy.jitter_percent as int,
    );
}

/// Every attempt past the schedule's end uses its last base delay.
pub proof fn law_schedule_saturates(policy: RetryPolicy, attempt: u32)
    requires
        attempt >= 5,
    ensures
        base_nanos(policy, attempt) == policy.base@[5].nanos,
{
}

/// Per-receiver recovery bookkeeping.
#[derive(Clone, Copy, Debug, PartialEq, Eq, Structural)]
pub struct ReceiverRetryEntry {
    /// Consecutive failures.
    pub attempt: u32,
    /// Pending retry deadline.
    pub next_retry: Option<Instant>,
    /// Start of the current healthy window.
    pub streaming_since: Option<Instant>,
}

/// The entry of a receiver nothing has been recorded for.
pub open spec fn blank_entry() -> ReceiverRetryEntry {
    ReceiverRetryEntry { attempt: 0, next_retry: None, streaming_since: None }
}

/// The entry of `receiver`, blank when nothing has been recorded.
pub open spec fn entry_of(
    entries: Map<ReceiverId, ReceiverRetryEntry>,
    receiver: ReceiverId,
) -> ReceiverRetryEntry {
    if entries.contains_key(receiver) { entries[receiver] } else { blank_entry() }
}

/// `n` plus one, stopping at the largest value.
pub open spec fn bumped(n: u32) -> u32 {
    if n == u32::MAX { n } else { (n + 1) as u32 }
}

/// Deadline set by the next failure of `receiver` at `now`.
pub open spec fn failure_deadline(
    entries: Map<ReceiverId, ReceiverRetryEntry>,
    policy: RetryPolicy,
    now: Instant,
    receiver: ReceiverId,
) -> Instant {
    let index = (bumped(entry_of(entries, receiver).attempt) - 1) as u32;
    instant_after(now, retry_delay(policy, receiver, index) as u64)
}

/// Bookkeeping after a failure: one more attempt, a new deadline, and no
/// healthy window.
pub open spec fn failure_noted(
    entries: Map<ReceiverId, ReceiverRetryEntry>,
    policy: RetryPolicy,
    now: Instant,
    receiver: ReceiverId,
) -> Map<ReceiverId, ReceiverRetryEntry> {
    entries.insert(
        receiver,
        ReceiverRetryEntry {
            attempt: bumped(entry_of(entries, receiver).attempt),
            next_retry: Some(failure_deadline(entries, policy, now, receiver)),
            streaming_since: None,
        },
    )
}

/// Whether a streaming report at `now` completes a healthy window.
pub open spec fn window_completed(
    entries: Map<ReceiverId, ReceiverRetryEntry>,
    policy: RetryPolicy,
    now: Instant,
    receiver: ReceiverId,
) -> bool {
    entry_of(entries, receiver).streaming_since matches Some(since)
        && elapsed(since, now) >= policy.healthy_reset_after.nanos
}

/// Bookkeeping after a streaming report: the first one opens the window, one
/// that completes it clears attempts and deadline.
pub open spec fn streaming_noted(
    entries: Map<ReceiverId, ReceiverRetryEntry>,
    policy: RetryPolicy,
    now: Instant,
    receiver: ReceiverId,
) -> Map<ReceiverId, ReceiverRetryEntry> {
    let entry = entry_of(entries, receiver);
    if entry.streaming_since is None {
        entries.insert(receiver, ReceiverRetryEntry { streaming_since: Some(now), ..entry })
    } else if window_completed(entries, policy, now, receiver) {
        entries.insert(receiver, ReceiverRetryEntry { attempt: 0, next_retry: None, ..entry })
    } else {
        entries.insert(receiver, entry)
    }
}

/// Bookkeeping after dropping the deadline of `receiver`.
pub open spec fn deadline_cleared(
    entries: Map<ReceiverId, ReceiverRetryEntry>,
    receiver: ReceiverId,
) -> Map<ReceiverId, ReceiverRetryEntry> {
    if entries.contains_key(receiver) {
        entries.insert(receiver, ReceiverRetryEntry { next_retry: None, ..entries[receiver] })
    } else {
        entries
    }
}

/// Whether the retry of `receiver` is due at `now`.
pub open spec fn is_due(
    entries: Map<ReceiverId, ReceiverRetryEntry>,
    now: Instant,
    receiver: ReceiverId,
) -> bool {
    entry_of(entries, receiver).next_retry matches Some(at) && at.nanos <= now.nanos
}

/// Whether some pending deadline of `entries` is `at`.
pub open spec fn pends_at(entries: Map<ReceiverId, ReceiverRetryEntry>, at: Instant) -> bool {
    exists|id: ReceiverId|
        #[trigger] entries.contains_key(id) && entries[id].next_retry == Some(at)
}

/// Attempt counters, retry deadlines, and healthy-streaming windows for all
/// receivers under one policy.
#[derive(Debug)]
pub struct RetryState {
    receivers: IdMap<ReceiverRetryEntry>,
}

impl View for RetryState {
    type V = Map<ReceiverId, ReceiverRetryEntry>;

    closed spec fn view(&self) -> Map<ReceiverId, ReceiverRetryEntry> {
        self.receivers@
    }
}

impl RetryState {
    /// Creates empty bookkeeping.
    pub fn new() -> (r: Self)
        ensures
            r@ == Map::<ReceiverId, ReceiverRetryEntry>::empty(),
    {
        RetryState { receivers: IdMap::new() }
    }

    /// The entry of `receiver`, blank when nothing has been recorded.
    fn entry(&self, receiver: ReceiverId) -> (r: ReceiverRetryEntry)
        ensures
            r == entry_of(self@, receiver),
    {
        match self.receivers.get(receiver) {
            Some(entry) => *entry,
            None => ReceiverRetryEntry { attempt: 0, next_retry: None, streaming_since: None },
        }
    }

    /// Records one failed attempt and schedules the next retry.
    ///
    /// Returns the deadline after which reconciliation may try again; a
    /// failure also ends any continuous-streaming window.
    pub fn note_failure(
        &mut self,
        policy: &RetryPolicy,
        now: Instant,
        receiver: ReceiverId,
    ) -> (r: Instant)
        requires
            jitter_offset(
                receiver_hash(
                    receiver,
                    (bumped(entry_of(old(self)@, receiver).attempt) - 1) as u32,
                ),
                policy.jitter_percent,
            ) >= -100,
        ensures
            r == failure_deadline(old(self)@, *policy, now, receiver),
            final(self)@ == failure_noted(old(self)@, *policy, now, receiver),
    {
        let entry: ReceiverRetryEntry = self.entry(receiver);
        let attempt: u32 = entry.attempt.saturating_add(1);
        let index: u32 = attempt - 1;
        let deadline: Instant = now.after(policy.delay(&receiver, index));
        self.receivers.insert(
            receiver,
            ReceiverRetryEntry { attempt, next_retry: Some(deadline), streaming_since: None },
        );
        deadline
    }

    /// Reports that the receiver is streaming at `now`.
    ///
    /// Attempts reset (and `true` is returned) only once streaming has been
    /// continuously healthy for [`RetryPolicy::healthy_reset_after`]; the
    /// window itself stays armed for later resets.
    pub fn note_streaming(
        &mut self,
        policy: &RetryPolicy,
        now: Instant,
        receiver: ReceiverId,
    ) -> (r: bool)
        ensures
            r == window_completed(old(self)@, *policy, now, receiver),
            final(self)@ == streaming_noted(old(self)@, *policy, now, receiver),
    {
        let mut entry: ReceiverRetryEntry = self.entry(receiver);
        let completed: bool;
        match entry.streaming_since {
            None => {
                entry.streaming_since = Some(now);
                completed = false;
            },
            Some(since) => {
                if now.duration_since(since).nanos >= policy.healthy_reset_after.nanos {
                    entry.attempt = 0;
                    entry.next_retry = None;
                    completed = true;
                } else {
                    completed = false;
                }
            },
        }
        self.receivers.insert(receiver, entry);
        completed
    }

    /// Clears the pending retry deadline for `receiver` without touching its
    /// attempt history or desired membership.
    pub fn clear_deadline(&mut self, receiver: ReceiverId)
        ensures
            final(self)@ == deadline_cleared(old(self)@, receiver),
    {
        let cleared: Option<ReceiverRetryEntry> = match self.receivers.get(receiver) {
            Some(entry) => Some(ReceiverRetryEntry {
                attempt: entry.attempt,
                next_retry: None,
                streaming_since: entry.streaming_since,
            }),
            None => None,
        };
        if let Some(entry) = cleared {
            self.receivers.insert(receiver, entry);
        }
    }

    /// Manual-retry spelling of [`Self::clear_deadline`]: drop the deadline,
    /// keep the attempt history.
    pub fn manual_retry(&mut self, receiver: ReceiverId)
        ensures
            final(self)@ == deadline_cleared(old(self)@, receiver),
    {
        self.clear_deadline(receiver);
    }

    /// Receivers whose scheduled retry deadline has passed at `now`, in
    /// identity order.
    pub fn due_at(&self, now: Instant) -> (r: Vec<ReceiverId>)
        ensures
            ascending(r@),
            forall|id: ReceiverId| r@.contains(id) <==> is_due(self@, now, id),
    {
        let len: usize = self.receivers.len();
        let mut out: Vec<ReceiverId> = Vec::new();
        let mut i: usize = 0;
        let ghost order = self.receivers.order();
        while i < len
            invariant
                i <= len,
                len == order.len(),
                order == self.receivers.order(),
                ascending(order),
                order.to_set() == self.receivers@.dom(),
                ascending(out@),
                forall|k: int| 0 <= k < out@.len() ==> order.take(i as int).contains(#[trigger] out@[k])
                    && is_due(self@, now, out@[k]),
                forall|k: int| 0 <= k < i && is_due(self@, now, #[trigger] order[k]) ==> out@.contains(order[k]),
            decreases len - i,
        {
            let entry: ReceiverRetryEntry = *self.receivers.value_at(i);
            let id: ReceiverId = self.receivers.key_at(i);
            let due: bool = match entry.next_retry {
                Some(at) => at.nanos <= now.nanos,
                None => false,
            };
            let ghost before = out@;
            if due {
                out.push(id);
            }
            proof {
                assert(order.take(i + 1) =~= order.take(i as int).push(id));
                assert forall|k: int| 0 <= k < out@.len() implies
                    order.take(i + 1).contains(#[trigger] out@[k]) && is_due(self@, now, out@[k]) by {
                    if k < before.len() {
                        assert(out@[k] == before[k]);
                        let m = order.take(i as int).index_of(before[k]);
                        assert(order.take(i + 1)[m] == before[k]);
                    } else {
                        assert(order.take(i + 1)[i as int] == id);
                    }
                }
                assert forall|a: int, b: int| 0 <= a < b < out@.len() implies
                    (#[trigger] out@[a]).key() < (#[trigger] out@[b]).key() by {
                    if b < before.len() {
                        assert(before[a].key() < before[b].key());
                    } else {
                        assert(order.take(i as int).contains(before[a]));
                        let m = order.take(i as int).index_of(before[a]);
                        assert(order[m].key() < order[i as int].key());
                    }
                }
                assert forall|k: int| 0 <= k < i + 1 && is_due(self@, now, #[trigger] order[k]) implies
                    out@.contains(order[k]) by {
                    if k < i {
                        let m = before.index_of(order[k]);
                        assert(out@[m] == order[k]);
                    } else {
                        assert(out@[out@.len() - 1] == id);
                    }
                }
            }
            i = i + 1;
        }
        proof {
            assert forall|id: ReceiverId| out@.contains(id) <==> is_due(self@, now, id) by {
                if out@.contains(id) {
                    let k = out@.index_of(id);
                    assert(is_due(self@, now, out@[k]));
                }
                if is_due(self@, now, id) {
                    assert(order.to_set().contains(id));
                    let k = order.index_of(id);
                    assert(is_due(self@, now, order[k]));
                }
            }
        }
        out
    }

    /// Earliest pending retry deadline across all receivers.
    pub fn earliest_retry(&self) -> (r: Option<Instant>)
        ensures
            r matches Some(at) ==> pends_at(self@, at),
            r matches Some(at) ==> forall|other: Instant|
                pends_at(self@, other) ==> at.nanos <= other.nanos,
            r is None ==> forall|other: Instant| !pends_at(self@, other),
    {
        let len: usize = self.receivers.len();
        let mut earliest: Option<Instant> = None;
        let mut i: usize = 0;
        let ghost order = self.receivers.order();
        while i < len
            invariant
                i <= len,
                len == order.len(),
                order == self.receivers.order(),
                order.to_set() == self.receivers@.dom(),
                earliest matches Some(at) ==> pends_at(self@, at),
                forall|k: int| 0 <= k < i ==> (
                    self@[#[trigger] order[k]].next_retry matches Some(at) ==>
                    earliest matches Some(best) && best.nanos <= at.nanos),
            decreases len - i,
        {
            let entry: ReceiverRetryEntry = *self.receivers.value_at(i);
            let ghost id = order[i as int];
            if let Some(at) = entry.next_retry {
                proof { assert(self@.contains_key(id) && self@[id].next_retry == Some(at)); }
                match earliest {
                    None => {
                        earliest = Some(at);
                    },
                    Some(best) => {
                        if at.nanos < best.nanos {
                            earliest = Some(at);
                        }
                    },
                }
            }
            i = i + 1;
        }
        proof {
            assert forall|other: Instant| pends_at(self@, other) implies
                earliest matches Some(best) && best.nanos <= other.nanos by {
                let id = choose|id: ReceiverId|
                    #[trigger] self@.contains_key(id) && self@[id].next_retry == Some(other);
                assert(order.to_set().contains(id));
                let k = order.index_of(id);
                assert(self@[order[k]].next_retry == Some(other));
            }
        }
        earliest
    }

    /// Current consecutive failure count for `receiver`.
    pub fn attempt(&self, receiver: ReceiverId) -> (r: u32)
        ensures
            r == entry_of(self@, receiver).attempt,
    {
        self.entry(receiver).attempt
    }

    /// Pending retry deadline for `receiver`, if one is scheduled.
    pub fn next_retry(&self, receiver: ReceiverId) -> (r: Option<Instant>)
        ensures
            r == entry_of(self@, receiver).next_retry,
    {
        self.entry(receiver).next_retry
    }
}

/// A failure counts one attempt and ends the healthy window, and touches no
/// other receiver.
pub proof fn law_failure_counts_one_attempt(
    entries: Map<ReceiverId, ReceiverRetryEntry>,
    policy: RetryPolicy,
    now: Instant,
    receiver: ReceiverId,
    other: ReceiverId,
)
    ensures
        ({
            let after = failure_noted(entries, policy, now, receiver);
            &&& entry_of(after, receiver).attempt == bumped(entry_of(entries, receiver).attempt)
            &&& entry_of(after, receiver).streaming_since is None
            &&& other != receiver ==> entry_of(after, other) == entry_of(entries, other)
        }),
{
}

/// Bookkeeping after consecutive failures of one receiver.
pub open spec fn failures_noted(
    entries: Map<ReceiverId, ReceiverRetryEntry>,
    policy: RetryPolicy,
    times: Seq<Instant>,
    receiver: ReceiverId,
) -> Map<ReceiverId, ReceiverRetryEntry>
    decreases times.len(),
{
    if times.len() == 0 {
        entries
    } else {
        failure_noted(
            failures_noted(entries, policy, times.drop_last(), receiver),
            policy,
            times.last(),
            receiver,
        )
    }
}

/// Consecutive failures climb the schedule one step each: after `n` of them
/// the receiver waits the delay of the zero-based attempt `n - 1`, counted
/// from the latest failure.
pub proof fn law_consecutive_failures_climb_the_schedule(
    entries: Map<ReceiverId, ReceiverRetryEntry>,
    policy: RetryPolicy,
    times: Seq<Instant>,
    receiver: ReceiverId,
)
    requires
        entry_of(entries, receiver).attempt == 0,
        times.len() <= u32::MAX,
    ensures
        entry_of(failures_noted(entries, policy, times, receiver), receiver).attempt == times.len(),
        times.len() > 0 ==> entry_of(
            failures_noted(entries, policy, times, receiver),
            receiver,
        ).next_retry == Some(
            instant_after(
                times.last(),
                retry_delay(policy, receiver, (times.len() - 1) as u32) as u64,
            ),
        ),
    decreases times.len(),
{
    if times.len() > 0 {
        law_consecutive_failures_climb_the_schedule(entries, policy, times.drop_last(), receiver);
    }
}

/// Streaming clears the attempt history only after a continuous healthy
/// window of the configured length; until then attempts and deadline stay.
pub proof fn law_attempts_reset_only_after_a_healthy_window(
    entries: Map<ReceiverId, ReceiverRetryEntry>,
    policy: RetryPolicy,
    now: Instant,
    receiver: ReceiverId,
)
    ensures
        ({
            let before = entry_of(entries, receiver);
            let after = entry_of(streaming_noted(entries, policy, now, receiver), receiver);
            &&& after.streaming_since is Some
            &&& window_completed(entries, policy, now, receiver)
                ==> after.attempt == 0 && after.next_retry is None
            &&& !window_completed(entries, policy, now, receiver)
                ==> after.attempt == before.attempt && after.next_retry == before.next_retry
            &&& window_completed(entries, policy, now, receiver)
                ==> before.streaming_since is Some
                    && elapsed(before.streaming_since->0, now) >= policy.healthy_reset_after.nanos
        }),
{
}

/// A manual retry drops exactly the deadline: the attempt history survives,
/// and the receiver is not due any more.
pub proof fn law_manual_retry_keeps_the_attempt_history(
    entries: Map<ReceiverId, ReceiverRetryEntry>,
    now: Instant,
    receiver: ReceiverId,
    other: ReceiverId,
)
    ensures
        ({
            let after = deadline_cleared(entries, receiver);
            &&& entry_of(after, receiver).attempt == entry_of(entries, receiver).attempt
            &&& entry_of(after, receiver).streaming_since
                == entry_of(entries, receiver).streaming_since
            &&& !is_due(after, now, receiver)
            &&& other != receiver ==> entry_of(after, other) == entry_of(entries, other)
        }),
{
}

/// A failed receiver is not due before its deadline, and due from then on.
pub proof fn law_failed_receiver_is_due_from_its_deadline(
    entries: Map<ReceiverId, ReceiverRetryEntry>,
    policy: RetryPolicy,
    now: Instant,
    later: Instant,
    receiver: ReceiverId,
)
    ensures
        is_due(failure_noted(entries, policy, now, receiver), later, receiver)
            <==> failure_deadline(entries, policy, now, receiver).nanos <= later.nanos,
{
}

/// What a rejoin limiter remembers.
#[verifier::ext_equal]
pub struct LimiterView {
    /// Start of each receiver's discoverability window.
    pub online_since: Map<ReceiverId, Instant>,
    /// Latest rejoin-triggered restart.
    pub last_rejoin_restart: Option<Instant>,
}

/// Rate limiter for rejoin-triggered full-session restarts.
///
/// A receiver becomes eligible only after being continuously discoverable
/// for two seconds, and such restarts are spaced at least thirty seconds
/// apart so a flapping receiver cannot repeatedly interrupt healthy members.
#[derive(Debug)]
pub struct RejoinRestartLimiter {
    online_since: IdMap<Instant>,
    last_rejoin_restart: Option<Instant>,
}

impl View for RejoinRestartLimiter {
    type V = LimiterView;

    closed spec fn view(&self) -> LimiterView {
        LimiterView {
            online_since: self.online_since@,
            last_rejoin_restart: self.last_rejoin_restart,
        }
    }
}

/// The window of `receiver` starts at its first sighting.
pub open spec fn discovered_noted(limiter: LimiterView, now: Instant, receiver: ReceiverId) -> LimiterView {
    LimiterView {
        online_since: if limiter.online_since.contains_key(receiver) {
            limiter.online_since
        } else {
            limiter.online_since.insert(receiver, now)
        },
        ..limiter
    }
}

/// When the window of `receiver` becomes long enough.
pub open spec fn eligible_at(limiter: LimiterView, receiver: ReceiverId) -> Option<Instant> {
    if limiter.online_since.contains_key(receiver) {
        Some(instant_after(limiter.online_since[receiver], REJOIN_ONLINE_STABLE_NANOS))
    } else {
        None
    }
}

/// Whether the window of `receiver` is long enough at `now`.
pub open spec fn rejoin_allowed(limiter: LimiterView, now: Instant, receiver: ReceiverId) -> bool {
    eligible_at(limiter, receiver) matches Some(at) && at.nanos <= now.nanos
}

/// Whether the previous rejoin restart lies far enough back at `now`.
pub open spec fn group_allowed(limiter: LimiterView, now: Instant) -> bool {
    limiter.last_rejoin_restart matches Some(at) ==>
        elapsed(at, now) >= REJOIN_RESTART_SPACING_NANOS
}

/// When the next rejoin restart is allowed.
pub open spec fn group_at(limiter: LimiterView) -> Option<Instant> {
    match limiter.last_rejoin_restart {
        Some(at) => Some(instant_after(at, REJOIN_RESTART_SPACING_NANOS)),
        None => None,
    }
}

impl RejoinRestartLimiter {
    /// Creates a limiter that has seen nothing.
    pub fn new() -> (r: Self)
        ensures
            r@.online_since == Map::<ReceiverId, Instant>::empty(),
            r@.last_rejoin_restart is None,
    {
        RejoinRestartLimiter { online_since: IdMap::new(), last_rejoin_restart: None }
    }

    /// Records a sighting of `receiver` at `now`; an open discoverability
    /// window keeps its start.
    pub fn note_discovered(&mut self, receiver: ReceiverId, now: Instant)
        ensures
            final(self)@ == discovered_noted(old(self)@, now, receiver),
    {
        if !self.online_since.contains_key(receiver) {
            self.online_since.insert(receiver, now);
        }
    }

    /// Drops the discoverability window; the next sighting starts over.
    pub fn note_lost(&mut self, receiver: ReceiverId)
        ensures
            final(self)@ == (LimiterView {
                online_since: old(self)@.online_since.remove(receiver),
                ..old(self)@
            }),
    {
        let _dropped = self.online_since.take(receiver);
    }

    /// Whether `receiver` has been continuously discoverable long enough at
    /// `now` to justify a rejoin restart.
    pub fn may_rejoin(&self, receiver: ReceiverId, now: Instant) -> (r: bool)
        ensures
            r == rejoin_allowed(self@, now, receiver),
    {
        match self.rejoin_eligible_at(receiver) {
            Some(at) => at.nanos <= now.nanos,
            None => false,
        }
    }

    /// Instant from which `receiver`'s discoverability window is long enough.
    ///
    /// `None` means discovery currently offers no castable service, so no
    /// amount of waiting would make this receiver eligible; the caller must
    /// arm nothing until [`Self::note_discovered`] runs again.
    pub fn rejoin_eligible_at(&self, receiver: ReceiverId) -> (r: Option<Instant>)
        ensures
            r == eligible_at(self@, receiver),
    {
        match self.online_since.get(receiver) {
            Some(since) => Some(since.after(Duration { nanos: REJOIN_ONLINE_STABLE_NANOS })),
            None => None,
        }
    }

    /// Instant from which the next rejoin restart is allowed.
    ///
    /// `None` means no rejoin restart has happened yet, so the first one is
    /// unconstrained.
    pub fn group_allowed_at(&self) -> (r: Option<Instant>)
        ensures
            r == group_at(self@),
    {
        match self.last_rejoin_restart {
            Some(at) => Some(at.after(Duration { nanos: REJOIN_RESTART_SPACING_NANOS })),
            None => None,
        }
    }

    /// Records that a rejoin-triggered restart happened at `now`.
    pub fn note_restart(&mut self, now: Instant)
        ensures
            final(self)@ == (LimiterView { last_rejoin_restart: Some(now), ..old(self)@ }),
    {
        self.last_rejoin_restart = Some(now);
    }

    /// Whether enough time has passed at `now` since the previous rejoin
    /// restart.
    pub fn may_restart_group(&self, now: Instant) -> (r: bool)
        ensures
            r == group_allowed(self@, now),
    {
        match self.last_rejoin_restart {
            Some(at) => now.duration_since(at).nanos >= REJOIN_RESTART_SPACING_NANOS,
            None => true,
        }
    }

    /// Combined gate used by session reconciliation before restarting.
    pub fn may_rejoin_restart(&self, receiver: ReceiverId, now: Instant) -> (r: bool)
        ensures
            r == (rejoin_allowed(self@, now, receiver) && group_allowed(self@, now)),
    {
        self.may_rejoin(receiver, now) && self.may_restart_group(now)
    }
}

/// Repeated sightings keep the start of the window; a loss starts it over.
pub proof fn law_sightings_keep_the_window_and_a_loss_restarts_it(
    limiter: LimiterView,
    first: Instant,
    second: Instant,
    receiver: ReceiverId,
)
    ensures
        discovered_noted(discovered_noted(limiter, first, receiver), second, receiver)
            == discovered_noted(limiter, first, receiver),
        ({
            let lost = LimiterView { online_since: limiter.online_since.remove(receiver), ..limiter };
            &&& eligible_at(lost, receiver) is None
            &&& discovered_noted(lost, second, receiver).online_since[receiver] == second
        }),
{
}

/// Two rejoin restarts are at least thirty seconds apart, and no receiver
/// rejoins within two seconds of its first sighting.
pub proof fn law_rejoin_restarts_are_spaced(
    limiter: LimiterView,
    restarted: Instant,
    seen: Instant,
    now: Instant,
    receiver: ReceiverId,
)
    requires
        limiter.last_rejoin_restart == Some(restarted),
        limiter.online_since.contains_key(receiver),
        limiter.online_since[receiver] == seen,
        rejoin_allowed(limiter, now, receiver) && group_allowed(limiter, now),
        seen.nanos + REJOIN_ONLINE_STABLE_NANOS <= u64::MAX,
    ensures
        now.nanos >= restarted.nanos + REJOIN_RESTART_SPACING_NANOS,
        now.nanos >= seen.nanos + REJOIN_ONLINE_STABLE_NANOS,
{
}

/// The instant announced for the group is the instant from which it is
/// allowed.
pub proof fn law_group_gate_opens_when_announced(limiter: LimiterView, now: Instant)
    requires
        limiter.last_rejoin_restart matches Some(at) ==>
            at.nanos + REJOIN_RESTART_SPACING_NANOS <= u64::MAX,
    ensures
        group_allowed(limiter, now) <==> (group_at(limiter) matches Some(at) ==> at.nanos <= now.nanos),
{
}

} // verus!
