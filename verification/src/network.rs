//! Local network-change coalescing.
//!
//! One physical interface change arrives as a burst of notifications. Acting
//! on each of them would restart discovery and the group several times for a
//! single unplugged cable, so [`NetworkCoalescer`] folds one burst into
//! exactly one edge after the interface-settle period.
//!
//! Only an opaque [`BindingFingerprint`] of the local addresses is handled
//! here, and only the verdict whether it moved leaves this module.

use core::hash::Hasher;
use std::collections::hash_map::DefaultHasher;

use vstd::prelude::*;
use vstd::std_specs::hash::DefaultHasherAdditionalSpecFns;

use crate::text::{decimal, decimal_text};

verus! {

/// Interface-settle period observed before one coalesced burst is published,
/// in nanoseconds.
pub const NETWORK_SETTLE_NANOS: u64 = 2_000_000_000;

/// Bounded queue between the notification callback and the coalescing task.
///
/// A full queue means a burst is already pending, which is precisely what the
/// coalescer is about to report.
pub const PULSE_CAPACITY: usize = 32;

/// Failure of a network-change subscription.
#[derive(Clone, Copy, Debug, PartialEq, Eq, Structural)]
pub enum NetworkError {
    /// The registration was refused with this status.
    Unavailable(u32),
    /// The running platform offers no interface-change notifications.
    Unsupported,
}

impl NetworkError {
    /// Renders the error.
    pub fn to_string(&self) -> (r: String)
        ensures
            r@ == match *self {
                NetworkError::Unavailable(status) =>
                    "network change notifications are unavailable (status "@
                        + decimal_text(status as int) + ")"@,
                NetworkError::Unsupported =>
                    "network change notifications are unsupported on this platform"@,
            },
    {
        match self {
            NetworkError::Unavailable(status) => {
                let mut text: String =
                    "network change notifications are unavailable (status ".to_owned();
                text.append(decimal(*status as u64).as_str());
                text.append(")");
                text
            },
            NetworkError::Unsupported =>
                "network change notifications are unsupported on this platform".to_owned(),
        }
    }
}

/// Opaque digest of the machine's active local unicast bindings.
///
/// Deliberately not reversible into addresses: only equality is meaningful.
#[derive(Clone, Copy, Debug, PartialEq, Eq, Hash, Structural)]
pub struct BindingFingerprint {
    hash: u64,
}

impl BindingFingerprint {
    /// The digest value.
    pub closed spec fn hash(self) -> u64 {
        self.hash
    }

    /// Builds a fingerprint from an already-hashed value.
    pub fn from_hash(value: u64) -> (r: Self)
        ensures
            r.hash() == value,
    {
        BindingFingerprint { hash: value }
    }
}

impl Default for BindingFingerprint {
    fn default() -> (r: Self)
        ensures
            r.hash() == 0,
    {
        BindingFingerprint { hash: 0 }
    }
}

/// Folds per-row digests of the address table into one fingerprint.
///
/// Deliberately order-independent: the address table promises no row order,
/// and the adapter re-enumeration that fires the change callback is exactly
/// when the order shifts. Feeding rows into one sequential hasher would turn a
/// reshuffle of unchanged addresses into a reported binding move.
#[derive(Clone, Copy, Debug, PartialEq, Eq, Structural)]
pub struct BindingAccumulator {
    /// Commutative mixing of the row digests.
    pub xor: u64,
    /// Second commutative channel, so a repeated row cannot cancel itself out.
    pub sum: u64,
    /// Row count, so "two identical rows" differs from "one".
    pub count: u64,
}

/// The accumulator after one more row.
pub open spec fn absorbed(acc: BindingAccumulator, row: u64) -> BindingAccumulator {
    BindingAccumulator {
        xor: acc.xor ^ row,
        sum: ((acc.sum + row) % 0x1_0000_0000_0000_0000) as u64,
        count: ((acc.count + 1) % 0x1_0000_0000_0000_0000) as u64,
    }
}

/// The accumulator no row has entered.
pub open spec fn no_rows() -> BindingAccumulator {
    BindingAccumulator { xor: 0, sum: 0, count: 0 }
}

/// The accumulator of a whole table.
pub open spec fn accumulated(rows: Seq<u64>) -> BindingAccumulator {
    rows.fold_left(no_rows(), |acc: BindingAccumulator, row: u64| absorbed(acc, row))
}

/// The fingerprint of an accumulator: the standard library's default hash of
/// its three words, each as eight little-endian bytes.
pub open spec fn fingerprint_hash(acc: BindingAccumulator) -> u64 {
    DefaultHasher::spec_finish(
        Seq::<Seq<u8>>::empty()
            .push(vstd::bytes::spec_u64_to_le_bytes(acc.xor))
            .push(vstd::bytes::spec_u64_to_le_bytes(acc.sum))
            .push(vstd::bytes::spec_u64_to_le_bytes(acc.count)),
    )
}

impl Default for BindingAccumulator {
    fn default() -> (r: Self)
        ensures
            r == no_rows(),
    {
        BindingAccumulator { xor: 0, sum: 0, count: 0 }
    }
}

impl BindingAccumulator {
    /// Absorbs one row digest.
    pub fn absorb(&mut self, row_digest: u64)
        ensures
            *final(self) == absorbed(*old(self), row_digest),
    {
        self.xor = self.xor ^ row_digest;
        self.sum = self.sum.wrapping_add(row_digest);
        self.count = self.count.wrapping_add(1);
    }

    /// Collapses the accumulated rows into the published fingerprint.
    pub fn finish(self) -> (r: BindingFingerprint)
        ensures
            r.hash() == fingerprint_hash(self),
    {
        let mut hasher: DefaultHasher = DefaultHasher::new();
        hasher.write(vstd::bytes::u64_to_le_bytes(self.xor).as_slice());
        hasher.write(vstd::bytes::u64_to_le_bytes(self.sum).as_slice());
        hasher.write(vstd::bytes::u64_to_le_bytes(self.count).as_slice());
        BindingFingerprint { hash: hasher.finish() }
    }
}

proof fn lemma_absorb_commutes(acc: BindingAccumulator, a: u64, b: u64)
    ensures
        absorbed(absorbed(acc, a), b) == absorbed(absorbed(acc, b), a),
{
    let x = acc.xor;
    assert((x ^ a) ^ b == (x ^ b) ^ a) by (bit_vector);
    let m = 0x1_0000_0000_0000_0000int;
    vstd::arithmetic::div_mod::lemma_add_mod_noop(acc.sum + a, b as int, m);
    vstd::arithmetic::div_mod::lemma_add_mod_noop(acc.sum + b, a as int, m);
    assert(a as int % m == a && b as int % m == b);
    assert((acc.sum + a) + b == (acc.sum + b) + a);
}

/// The order of the address table does not change its fingerprint.
pub proof fn law_row_order_does_not_matter(a: Seq<u64>, b: Seq<u64>)
    requires
        a.to_multiset() == b.to_multiset(),
    ensures
        accumulated(a) == accumulated(b),
        fingerprint_hash(accumulated(a)) == fingerprint_hash(accumulated(b)),
{
    let f = |acc: BindingAccumulator, row: u64| absorbed(acc, row);
    assert forall|x: u64, y: u64, v: BindingAccumulator| #[trigger] f(f(v, x), y) == f(f(v, y), x) by {
        lemma_absorb_commutes(v, x, y);
    }
    vstd::seq_lib::lemma_fold_left_permutation(a, b, f, no_rows());
}

/// Replacing one row by a different one changes the accumulator, and so does
/// adding a row: repeated rows never cancel out.
pub proof fn law_changed_and_repeated_rows_are_noticed(acc: BindingAccumulator, a: u64, b: u64)
    ensures
        a != b ==> absorbed(acc, a) != absorbed(acc, b),
        absorbed(acc, a) != acc,
        absorbed(absorbed(acc, a), a) != acc,
{
    let m = 0x1_0000_0000_0000_0000int;
    if a != b {
        assert((acc.sum + a) % m != (acc.sum + b) % m);
    }
    assert((acc.count + 1) % m != acc.count);
    assert(((acc.count + 1) % m + 1) % m != acc.count);
}

/// The address of one binding, as the address table holds it.
#[derive(Clone, Copy, Debug)]
pub enum RowAddress {
    /// An IPv4 address word.
    V4(u32),
    /// The octets of an IPv6 address.
    V6([u8; 16]),
    /// An address of another family.
    Other,
}

/// What an address adds to its row's digest: an IPv4 address is hashed as one
/// word, an IPv6 address as its length and its octets, and any other not at
/// all.
pub open spec fn address_writes(address: RowAddress) -> Seq<Seq<u8>> {
    match address {
        RowAddress::V4(word) => seq![vstd::bytes::spec_u32_to_le_bytes(word)],
        RowAddress::V6(octets) => seq![vstd::bytes::spec_u64_to_le_bytes(16), octets@],
        RowAddress::Other => Seq::empty(),
    }
}

/// One row of the machine's unicast address table.
#[derive(Debug)]
pub struct AddressRow {
    /// Whether the address passed duplicate detection and is in use.
    pub preferred: bool,
    /// Interface identifier.
    pub interface: u64,
    /// On-link prefix length.
    pub prefix_length: u8,
    /// Address family.
    pub family: u16,
    /// The address.
    pub address: RowAddress,
}

/// Digest of one row: the standard library's default hash of its fields.
pub open spec fn row_digest(row: AddressRow) -> u64 {
    DefaultHasher::spec_finish(
        Seq::<Seq<u8>>::empty()
            .push(vstd::bytes::spec_u64_to_le_bytes(row.interface))
            .push(seq![row.prefix_length])
            .push(vstd::bytes::spec_u16_to_le_bytes(row.family))
            + address_writes(row.address),
    )
}

/// Digests of the rows a socket could actually use, in table order.
pub open spec fn usable_digests(rows: Seq<AddressRow>) -> Seq<u64>
    decreases rows.len(),
{
    if rows.len() == 0 {
        Seq::empty()
    } else {
        let rest = usable_digests(rows.drop_last());
        if rows.last().preferred { rest.push(row_digest(rows.last())) } else { rest }
    }
}

fn digest_of(row: &AddressRow) -> (r: u64)
    ensures
        r == row_digest(*row),
{
    let mut hasher: DefaultHasher = DefaultHasher::new();
    hasher.write(vstd::bytes::u64_to_le_bytes(row.interface).as_slice());
    let prefix: Vec<u8> = vec![row.prefix_length];
    assert(prefix@ =~= seq![row.prefix_length]);
    hasher.write(prefix.as_slice());
    hasher.write(vstd::bytes::u16_to_le_bytes(row.family).as_slice());
    let ghost fields = hasher@;
    match &row.address {
        RowAddress::V4(word) => {
            hasher.write(vstd::bytes::u32_to_le_bytes(*word).as_slice());
        },
        RowAddress::V6(octets) => {
            hasher.write(vstd::bytes::u64_to_le_bytes(16).as_slice());
            hasher.write(octets.as_slice());
        },
        RowAddress::Other => {},
    }
    assert(hasher@ =~= fields + address_writes(row.address));
    hasher.finish()
}

/// Fingerprint of an address table.
///
/// Only bindings a socket could actually use count: tentative, duplicate, and
/// deprecated addresses would make an ordinary renewal look like a topology
/// change.
pub fn fingerprint_of(rows: &Vec<AddressRow>) -> (r: BindingFingerprint)
    ensures
        r.hash() == fingerprint_hash(accumulated(usable_digests(rows@))),
{
    let mut accumulator: BindingAccumulator = BindingAccumulator::default();
    let mut i: usize = 0;
    assert(rows@.take(0) =~= Seq::empty());
    while i < rows.len()
        invariant
            i <= rows@.len(),
            accumulator == accumulated(usable_digests(rows@.take(i as int))),
        decreases rows@.len() - i,
    {
        proof {
            assert(rows@.take(i + 1).drop_last() =~= rows@.take(i as int));
            assert(rows@.take(i + 1).last() == rows@[i as int]);
        }
        if rows[i].preferred {
            let digest: u64 = digest_of(&rows[i]);
            proof {
                let digests = usable_digests(rows@.take(i as int));
                assert(digests.push(digest).drop_last() =~= digests);
                lemma_accumulate_one(digests, digest);
            }
            accumulator.absorb(digest);
        }
        i = i + 1;
    }
    assert(rows@.take(rows@.len() as int) =~= rows@);
    accumulator.finish()
}

proof fn lemma_accumulate_one(digests: Seq<u64>, digest: u64)
    ensures
        accumulated(digests.push(digest)) == absorbed(accumulated(digests), digest),
{
    assert(digests.push(digest).drop_last() =~= digests);
}

/// Two tables whose usable rows are the same, in whatever order, have the
/// same fingerprint; rows that no socket could use do not count.
pub proof fn law_only_usable_rows_count(a: Seq<AddressRow>, b: Seq<AddressRow>, idle: AddressRow)
    requires
        usable_digests(a).to_multiset() == usable_digests(b).to_multiset(),
        !idle.preferred,
    ensures
        fingerprint_hash(accumulated(usable_digests(a))) == fingerprint_hash(
            accumulated(usable_digests(b)),
        ),
        usable_digests(a.push(idle)) == usable_digests(a),
{
    law_row_order_does_not_matter(usable_digests(a), usable_digests(b));
    assert(a.push(idle).drop_last() =~= a);
}

/// What the coalescing task is waiting for.
#[derive(Clone, Copy, Debug, PartialEq, Eq, Structural)]
pub enum CoalescerPhase {
    /// The first pulse of a burst.
    Waiting,
    /// The end of the settle window.
    Settling,
    /// The consumer to take the edge.
    Publishing,
    /// Nothing any more; the subscription is released.
    Stopped,
}

/// What happened to the coalescing task.
#[derive(Clone, Copy, Debug, PartialEq, Eq, Structural)]
pub enum CoalescerEvent {
    /// A change notification arrived.
    Pulse,
    /// The notification source is gone.
    SourceClosed,
    /// The monitor was cancelled.
    Cancelled,
    /// The settle window closed and the bindings were sampled.
    Settled(BindingFingerprint),
    /// The consumer took the edge.
    Delivered,
    /// The consumer is gone.
    Undeliverable,
}

/// What the coalescing task has to do.
#[derive(Clone, Copy, Debug, PartialEq, Eq, Structural)]
pub enum CoalescerAction {
    /// Keep waiting for the next event.
    Wait,
    /// Open the fixed settle window.
    OpenWindow,
    /// Publish one edge with this verdict.
    Publish {
        /// Whether an active local binding actually moved.
        local_binding_changed: bool,
    },
    /// Release the subscription and end.
    Release,
}

/// Folds bursts of change notifications into single edges.
#[derive(Clone, Copy, Debug, PartialEq, Eq, Structural)]
pub struct NetworkCoalescer {
    /// Bindings at the previous sample.
    pub last: BindingFingerprint,
    /// What the task is waiting for.
    pub phase: CoalescerPhase,
}

impl NetworkCoalescer {
    /// The coalescer and its action after `event`.
    ///
    /// The first pulse of a burst opens a fixed window; every further pulse
    /// inside it is absorbed rather than extending it. When the window closes
    /// exactly one edge is published. Cancellation and a lost source or
    /// consumer end the task from every phase.
    pub open spec fn after(self, event: CoalescerEvent) -> (NetworkCoalescer, CoalescerAction) {
        let stopped = (
            NetworkCoalescer { phase: CoalescerPhase::Stopped, ..self },
            CoalescerAction::Release,
        );
        match (self.phase, event) {
            (CoalescerPhase::Stopped, _) => (self, CoalescerAction::Wait),
            (_, CoalescerEvent::Cancelled) => stopped,
            (CoalescerPhase::Waiting, CoalescerEvent::Pulse) => (
                NetworkCoalescer { phase: CoalescerPhase::Settling, ..self },
                CoalescerAction::OpenWindow,
            ),
            (CoalescerPhase::Waiting, CoalescerEvent::SourceClosed) => stopped,
            (CoalescerPhase::Settling, CoalescerEvent::SourceClosed) => stopped,
            (CoalescerPhase::Settling, CoalescerEvent::Settled(sampled)) => (
                NetworkCoalescer { last: sampled, phase: CoalescerPhase::Publishing },
                CoalescerAction::Publish { local_binding_changed: sampled != self.last },
            ),
            (CoalescerPhase::Publishing, CoalescerEvent::Delivered) => (
                NetworkCoalescer { phase: CoalescerPhase::Waiting, ..self },
                CoalescerAction::Wait,
            ),
            (CoalescerPhase::Publishing, CoalescerEvent::Undeliverable) => stopped,
            _ => (self, CoalescerAction::Wait),
        }
    }

    /// A coalescer that starts from the given bindings.
    pub fn new(bindings: BindingFingerprint) -> (r: Self)
        ensures
            r == (NetworkCoalescer { last: bindings, phase: CoalescerPhase::Waiting }),
    {
        NetworkCoalescer { last: bindings, phase: CoalescerPhase::Waiting }
    }

    /// Takes one event and returns what to do next.
    pub fn step(&mut self, event: CoalescerEvent) -> (r: CoalescerAction)
        ensures
            (*final(self), r) == old(self).after(event),
    {
        match (self.phase, event) {
            (CoalescerPhase::Stopped, _) => CoalescerAction::Wait,
            (_, CoalescerEvent::Cancelled) => self.stop(),
            (CoalescerPhase::Waiting, CoalescerEvent::Pulse) => {
                self.phase = CoalescerPhase::Settling;
                CoalescerAction::OpenWindow
            },
            (CoalescerPhase::Waiting, CoalescerEvent::SourceClosed) => self.stop(),
            (CoalescerPhase::Settling, CoalescerEvent::SourceClosed) => self.stop(),
            (CoalescerPhase::Settling, CoalescerEvent::Settled(sampled)) => {
                let local_binding_changed: bool = sampled != self.last;
                self.last = sampled;
                self.phase = CoalescerPhase::Publishing;
                CoalescerAction::Publish { local_binding_changed }
            },
            (CoalescerPhase::Publishing, CoalescerEvent::Delivered) => {
                self.phase = CoalescerPhase::Waiting;
                CoalescerAction::Wait
            },
            (CoalescerPhase::Publishing, CoalescerEvent::Undeliverable) => self.stop(),
            _ => CoalescerAction::Wait,
        }
    }

    fn stop(&mut self) -> (r: CoalescerAction)
        ensures
            *final(self) == (NetworkCoalescer { phase: CoalescerPhase::Stopped, ..*old(self) }),
            r == CoalescerAction::Release,
    {
        self.phase = CoalescerPhase::Stopped;
        CoalescerAction::Release
    }
}

/// The coalescer after `count` pulses in a row.
pub open spec fn after_pulses(coalescer: NetworkCoalescer, count: nat) -> NetworkCoalescer
    decreases count,
{
    if count == 0 {
        coalescer
    } else {
        after_pulses(coalescer, (count - 1) as nat).after(CoalescerEvent::Pulse).0
    }
}

proof fn lemma_burst(coalescer: NetworkCoalescer, count: nat)
    requires
        coalescer.phase == CoalescerPhase::Waiting,
        count > 0,
    ensures
        after_pulses(coalescer, count) == (NetworkCoalescer {
            phase: CoalescerPhase::Settling,
            ..coalescer
        }),
    decreases count,
{
    reveal_with_fuel(after_pulses, 2);
    if count > 1 {
        lemma_burst(coalescer, (count - 1) as nat);
    }
}

/// One burst, however long, opens one window and yields one edge, and the
/// edge says whether the bindings differ from the previous sample.
pub proof fn law_one_burst_yields_one_edge(
    coalescer: NetworkCoalescer,
    count: nat,
    sampled: BindingFingerprint,
)
    requires
        coalescer.phase == CoalescerPhase::Waiting,
        count > 0,
    ensures
        coalescer.after(CoalescerEvent::Pulse).1 == CoalescerAction::OpenWindow,
        count > 1 ==> after_pulses(coalescer, (count - 1) as nat).after(CoalescerEvent::Pulse).1
            == CoalescerAction::Wait,
        after_pulses(coalescer, count).after(CoalescerEvent::Settled(sampled)).1 == (
        CoalescerAction::Publish { local_binding_changed: sampled != coalescer.last }),
        after_pulses(coalescer, count).after(CoalescerEvent::Settled(sampled)).0.after(
            CoalescerEvent::Delivered,
        ).0 == (NetworkCoalescer { last: sampled, phase: CoalescerPhase::Waiting }),
{
    lemma_burst(coalescer, count);
    if count > 1 {
        lemma_burst(coalescer, (count - 1) as nat);
    }
}

/// Cancellation always releases the subscription, exactly once, even while an
/// edge is blocked on its consumer.
pub proof fn law_cancellation_releases_exactly_once(
    coalescer: NetworkCoalescer,
    event: CoalescerEvent,
)
    requires
        coalescer.phase != CoalescerPhase::Stopped,
    ensures
        coalescer.after(CoalescerEvent::Cancelled).1 == CoalescerAction::Release,
        coalescer.after(CoalescerEvent::Cancelled).0.after(event).1 == CoalescerAction::Wait,
        coalescer.after(CoalescerEvent::Cancelled).0.after(event).0
            == coalescer.after(CoalescerEvent::Cancelled).0,
{
}

} // verus!
