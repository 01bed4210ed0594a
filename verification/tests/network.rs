//! Binding fingerprints and the coalescing of interface notifications.

use std::collections::hash_map::DefaultHasher;
use std::hash::{Hash, Hasher};

use openaircast_backend::network::{
    fingerprint_of, AddressRow, BindingAccumulator, BindingFingerprint, CoalescerAction,
    CoalescerEvent, NetworkCoalescer, NetworkError, RowAddress,
};

#[test]
fn row_order_does_not_change_the_fingerprint() {
    let rows = [0x1234_5678_9abc_def0_u64, 7, u64::MAX, 0, 42];
    let forward = {
        let mut acc = BindingAccumulator::default();
        for row in rows {
            acc.absorb(row);
        }
        acc.finish()
    };
    let reversed = {
        let mut acc = BindingAccumulator::default();
        for row in rows.iter().rev() {
            acc.absorb(*row);
        }
        acc.finish()
    };
    let rotated = {
        let mut acc = BindingAccumulator::default();
        for index in 0..rows.len() {
            acc.absorb(rows[(index + 2) % rows.len()]);
        }
        acc.finish()
    };
    assert_eq!(forward, reversed, "a reversed table changed the verdict");
    assert_eq!(forward, rotated, "a rotated table changed the verdict");
}

#[test]
fn a_changed_row_changes_the_fingerprint() {
    let mut before = BindingAccumulator::default();
    before.absorb(1);
    before.absorb(2);
    let mut after = BindingAccumulator::default();
    after.absorb(1);
    after.absorb(3);
    assert_ne!(before.finish(), after.finish(), "a moved binding vanished");
}

#[test]
fn duplicate_rows_do_not_cancel_out() {
    let mut empty = BindingAccumulator::default();
    let mut pair = BindingAccumulator::default();
    pair.absorb(9);
    pair.absorb(9);
    assert_ne!(empty.finish(), pair.finish(), "two identical rows folded away to nothing");
    empty.absorb(0);
    assert_ne!(empty.finish(), pair.finish(), "row count must be part of the digest");
}

#[test]
fn one_burst_yields_one_edge_carrying_the_binding_verdict() {
    let start = BindingFingerprint::from_hash(1);
    let moved = BindingFingerprint::from_hash(2);
    let mut coalescer = NetworkCoalescer::new(start);
    assert_eq!(coalescer.step(CoalescerEvent::Pulse), CoalescerAction::OpenWindow);
    for _ in 0..10 {
        assert_eq!(coalescer.step(CoalescerEvent::Pulse), CoalescerAction::Wait);
    }
    assert_eq!(
        coalescer.step(CoalescerEvent::Settled(moved)),
        CoalescerAction::Publish { local_binding_changed: true }
    );
    assert_eq!(coalescer.step(CoalescerEvent::Delivered), CoalescerAction::Wait);
    assert_eq!(coalescer.step(CoalescerEvent::Pulse), CoalescerAction::OpenWindow);
    assert_eq!(
        coalescer.step(CoalescerEvent::Settled(moved)),
        CoalescerAction::Publish { local_binding_changed: false },
        "an unchanged sample is an edge without a moved binding"
    );
}

#[test]
fn a_cancelled_monitor_releases_its_subscription_once_even_while_publishing() {
    let mut coalescer = NetworkCoalescer::new(BindingFingerprint::default());
    coalescer.step(CoalescerEvent::Pulse);
    coalescer.step(CoalescerEvent::Settled(BindingFingerprint::from_hash(3)));
    assert_eq!(coalescer.step(CoalescerEvent::Cancelled), CoalescerAction::Release);
    assert_eq!(coalescer.step(CoalescerEvent::Cancelled), CoalescerAction::Wait);
    assert_eq!(coalescer.step(CoalescerEvent::Pulse), CoalescerAction::Wait);
}

#[test]
fn a_lost_source_or_consumer_ends_the_monitor() {
    let mut waiting = NetworkCoalescer::new(BindingFingerprint::default());
    assert_eq!(waiting.step(CoalescerEvent::SourceClosed), CoalescerAction::Release);
    let mut publishing = NetworkCoalescer::new(BindingFingerprint::default());
    publishing.step(CoalescerEvent::Pulse);
    publishing.step(CoalescerEvent::Settled(BindingFingerprint::default()));
    assert_eq!(publishing.step(CoalescerEvent::Undeliverable), CoalescerAction::Release);
}

#[test]
fn network_errors_are_rendered() {
    assert_eq!(
        NetworkError::Unavailable(31).to_string(),
        "network change notifications are unavailable (status 31)"
    );
    assert_eq!(
        NetworkError::Unsupported.to_string(),
        "network change notifications are unsupported on this platform"
    );
}

fn row(interface: u64, last: u8, preferred: bool) -> AddressRow {
    AddressRow {
        preferred,
        interface,
        prefix_length: 24,
        family: 2,
        address: RowAddress::V4(u32::from_le_bytes([192, 168, 0, last])),
    }
}

#[test]
fn only_usable_bindings_move_the_fingerprint() {
    let base = fingerprint_of(&vec![row(1, 10, true), row(2, 20, true)]);
    assert_eq!(base, fingerprint_of(&vec![row(2, 20, true), row(1, 10, true)]));
    assert_eq!(
        base,
        fingerprint_of(&vec![row(1, 10, true), row(3, 30, false), row(2, 20, true)]),
        "a tentative address is not a topology change"
    );
    assert_ne!(base, fingerprint_of(&vec![row(1, 11, true), row(2, 20, true)]));
    assert_ne!(base, fingerprint_of(&vec![row(1, 10, true)]));
}

/// Digest of a row as hashing its fields one by one gives it.
fn hashed(row: &AddressRow) -> u64 {
    let mut hasher = DefaultHasher::new();
    row.interface.hash(&mut hasher);
    row.prefix_length.hash(&mut hasher);
    row.family.hash(&mut hasher);
    match row.address {
        RowAddress::V4(word) => word.hash(&mut hasher),
        RowAddress::V6(octets) => octets.hash(&mut hasher),
        RowAddress::Other => {}
    }
    hasher.finish()
}

#[test]
fn a_row_is_digested_as_the_hash_of_its_fields() {
    let v4 = row(1, 10, true);
    let v6 = AddressRow {
        preferred: true,
        interface: 7,
        prefix_length: 64,
        family: 23,
        address: RowAddress::V6([0xFE, 0x80, 0, 0, 0, 0, 0, 0, 0, 0, 0, 0, 0, 0, 0, 1]),
    };
    let other = AddressRow {
        preferred: true,
        interface: 9,
        prefix_length: 0,
        family: 6,
        address: RowAddress::Other,
    };
    for row in [v4, v6, other] {
        let mut accumulator = BindingAccumulator::default();
        accumulator.absorb(hashed(&row));
        assert_eq!(fingerprint_of(&vec![row]), accumulator.finish());
    }
}
