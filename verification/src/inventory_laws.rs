//! What the controller makes of the receivers discovery reports.

use vstd::prelude::*;

use crate::actor_model::{ActorView, Moment};
use crate::discovery::{BrowseView, DeviceView, ServiceAddress, UpdateView};
use crate::idmap::{ascending_list, law_finite_sets_are_listed};
use crate::ids::ReceiverId;
use crate::model::{LifecycleView, RowView, SnapshotView};
use crate::text::law_listing_sorts;
use crate::time::Instant;

verus! {

/// Whether an entry was left as it was.
pub open spec fn entry_kept(a: ActorView, b: ActorView, id: ReceiverId) -> bool {
    &&& a.inventory.contains_key(id) <==> b.inventory.contains_key(id)
    &&& a.inventory.contains_key(id) ==> a.inventory[id] == b.inventory[id]
}

/// A receiver that vanished is not available any more and keeps everything
/// else known of it; one that appeared or changed is available under its
/// newest record, and castable exactly with AirPlay 2 over IPv4. No other
/// receiver, and nothing but the inventory, is touched.
pub proof fn law_browse_events_update_only_their_own_receiver(
    a: ActorView,
    event: BrowseView,
    other: ReceiverId,
)
    ensures
        ({
            let b = a.browsed(event);
            &&& b == (ActorView { inventory: b.inventory, ..a })
            &&& event matches BrowseView::Removed(id) ==> {
                &&& b.inventory.contains_key(id) <==> a.inventory.contains_key(id)
                &&& b.inventory.contains_key(id) ==> {
                    &&& !b.inventory[id].available
                    &&& b.inventory[id].name == a.inventory[id].name
                    &&& b.inventory[id].castable == a.inventory[id].castable
                    &&& b.inventory[id].device == a.inventory[id].device
                }
                &&& other != id ==> entry_kept(a, b, other)
            }
            &&& event matches BrowseView::Added(device) ==> seen_as(a, b, device, other)
            &&& event matches BrowseView::Updated(device) ==> seen_as(a, b, device, other)
        }),
{
}

/// Whether `b` knows `device` as present under this record, and every other
/// receiver as `a` does.
pub open spec fn seen_as(a: ActorView, b: ActorView, device: DeviceView, other: ReceiverId) -> bool {
    &&& b.inventory.contains_key(device.id)
    &&& b.inventory[device.id].available
    &&& b.inventory[device.id].name == device.name
    &&& b.inventory[device.id].device == Some(device)
    &&& b.inventory[device.id].castable <==> device.supports_airplay2 && (device.address matches Some(
        ServiceAddress::V4 { .. },
    ))
    &&& other != device.id ==> entry_kept(a, b, other)
}

/// Whether discovery offers a receiver: present and castable.
pub open spec fn offered(a: ActorView, id: ReceiverId) -> bool {
    a.inventory.contains_key(id) && a.inventory[id].available && a.inventory[id].castable
}

/// Whether a lifecycle belongs to a session generation.
pub open spec fn in_session(state: LifecycleView) -> bool {
    state is Connecting || state is SettingUp || state is Ready || state is Streaming
}

/// Bringing the machines in line keeps exactly the receivers that are desired
/// or on offer, with a machine for each of them and for every desired one. A
/// desired receiver keeps the machine it has; a new one starts as discovered
/// or unavailable; one that is not desired leaves any session, backoff, or
/// failure behind.
pub proof fn law_machines_stand_for_desired_and_offered_receivers(a: ActorView, id: ReceiverId)
    ensures
        ({
            let b = a.realigned();
            let desired = a.snapshot.desired_members.contains(id);
            &&& b == (ActorView {
                inventory: b.inventory,
                machines: b.machines,
                retry: b.retry,
                ..a
            })
            &&& b.inventory.contains_key(id) <==> a.inventory.contains_key(id) && (desired
                || offered(a, id))
            &&& b.inventory.contains_key(id) ==> b.inventory[id] == a.inventory[id]
            &&& b.machines.contains_key(id) <==> desired || offered(a, id)
            &&& desired && a.machines.contains_key(id) ==> b.machines[id] == a.machines[id]
            &&& desired && !a.machines.contains_key(id) ==> {
                &&& b.machines[id].state == if offered(a, id) {
                    LifecycleView::Discovered
                } else {
                    LifecycleView::Unavailable
                }
                &&& b.machines[id].service_available == offered(a, id)
                &&& b.machines[id].attempt == 0
                &&& b.machines[id].next_retry is None
                &&& b.machines[id].last_error is None
                &&& b.machines[id].role is None
            }
            &&& !desired && b.machines.contains_key(id) ==> {
                &&& b.machines[id].state is Discovered || b.machines[id].state is Unavailable
                &&& b.machines[id].next_retry is None
                &&& b.machines[id].role is None
                &&& a.machines.contains_key(id) ==> b.machines[id].service_available
                    == a.machines[id].service_available
                &&& !a.machines.contains_key(id) ==> b.machines[id].service_available
                &&& b.machines[id].state is Unavailable ==> a.machines.contains_key(id) && (
                a.machines[id].state is Unavailable || !a.machines[id].service_available)
            }
            &&& b.retry.contains_key(id) <==> a.retry.contains_key(id)
            &&& a.retry.contains_key(id) ==> {
                &&& b.retry[id].attempt == a.retry[id].attempt
                &&& b.retry[id].streaming_since == a.retry[id].streaming_since
                &&& b.retry[id].next_retry == if !desired && offered(a, id) {
                    None
                } else {
                    a.retry[id].next_retry
                }
            }
        }),
{
}

/// Whether a row shows what is known of its receiver: its machine's state, the
/// model of its record, and its discovered name or else its last saved one.
pub open spec fn row_truthful(b: ActorView, row: RowView) -> bool {
    let known = b.inventory.contains_key(row.id);
    &&& b.machines.contains_key(row.id)
    &&& row.lifecycle == b.machines[row.id].state
    &&& row.model == if known && b.inventory[row.id].device is Some {
        b.inventory[row.id].device->0.model
    } else {
        Seq::empty()
    }
    &&& known && b.inventory[row.id].name.len() > 0 ==> row.name == b.inventory[row.id].name
    &&& !(known && b.inventory[row.id].name.len() > 0) ==> row.name
        == if b.saved_names.contains_key(row.id) { b.saved_names[row.id] } else { Seq::empty() }
}

proof fn lemma_shown_rows(a: ActorView, next: SnapshotView)
    requires
        a.inventory.dom().finite(),
        a.snapshot.desired_members.finite(),
    ensures
        ({
            let b = a.showing_rows(next);
            let aligned = a.realigned();
            &&& b.machines == aligned.machines
            &&& b.inventory == aligned.inventory
            &&& b.saved_names == a.saved_names
            &&& b.snapshot.desired_members == next.desired_members
            &&& forall|i: int|
                0 <= i < b.snapshot.receivers.len() ==> row_truthful(
                    b,
                    #[trigger] b.snapshot.receivers[i],
                )
            &&& forall|id: ReceiverId| #[trigger]
                b.machines.contains_key(id) ==> exists|i: int|
                    0 <= i < b.snapshot.receivers.len() && #[trigger] b.snapshot.receivers[i].id
                        == id
        }),
{
    reveal(ActorView::showing_rows);
    reveal(ActorView::showing);
    reveal(ActorView::published);
    let aligned = a.realigned();
    let b = a.showing_rows(next);
    let ids = ascending_list(aligned.scope());
    let rows = aligned.rows(ids);
    assert(aligned.inventory.dom().subset_of(a.inventory.dom()));
    vstd::set_lib::lemma_set_subset_finite(a.inventory.dom(), aligned.inventory.dom());
    law_finite_sets_are_listed(aligned.scope());
    law_listing_sorts(rows);
    law_listing_sorts(crate::text::listed(rows));
    rows.to_multiset_ensures();
    let shown = b.snapshot.receivers;
    shown.to_multiset_ensures();
    assert(shown.to_multiset() == rows.to_multiset());
    assert forall|i: int| 0 <= i < shown.len() implies row_truthful(b, #[trigger] shown[i]) by {
        assert(shown.contains(shown[i]));
        assert(rows.to_multiset().count(shown[i]) > 0);
        assert(rows.contains(shown[i]));
        let k = rows.index_of(shown[i]);
        assert(rows[k] == aligned.row(ids[k]));
        assert(ids.to_set().contains(ids[k]));
    }
    assert forall|id: ReceiverId| #[trigger] b.machines.contains_key(id) implies exists|i: int|
        0 <= i < shown.len() && #[trigger] shown[i].id == id by {
        assert(ids.to_set().contains(id));
        let k = ids.index_of(id);
        assert(rows[k].id == id);
        assert(rows.contains(rows[k]));
        assert(shown.to_multiset().count(rows[k]) > 0);
        assert(shown.contains(rows[k]));
        let i = shown.index_of(rows[k]);
        assert(shown[i].id == id);
    }
}

/// Whatever is published of the receivers is true of them: there is a row for
/// every desired receiver and for every one on offer, and for nobody else, and
/// each shows its machine, its record, and its name. The receivers shown as
/// waiting are exactly those that wait for a retry.
pub proof fn law_published_rows_are_true(a: ActorView, next: SnapshotView, id: ReceiverId)
    requires
        a.inventory.dom().finite(),
        a.snapshot.desired_members.finite(),
    ensures
        ({
            let b = a.showing_rows(next);
            let rows = b.snapshot.receivers;
            &&& forall|i: int| 0 <= i < rows.len() ==> row_truthful(b, #[trigger] rows[i])
            &&& (exists|i: int| 0 <= i < rows.len() && #[trigger] rows[i].id == id) <==> (
            a.snapshot.desired_members.contains(id) || offered(a, id))
            &&& b.snapshot.session.retry_waiting.contains(id) <==> b.machines.contains_key(id)
                && b.machines[id].state is RetryWaiting
        }),
{
    lemma_shown_rows(a, next);
    law_machines_stand_for_desired_and_offered_receivers(a, id);
    let b = a.showing_rows(next);
    let rows = b.snapshot.receivers;
    if exists|i: int| 0 <= i < rows.len() && #[trigger] rows[i].id == id {
        let i = choose|i: int| 0 <= i < rows.len() && #[trigger] rows[i].id == id;
        assert(row_truthful(b, rows[i]));
    }
    reveal(ActorView::showing_rows);
    reveal(ActorView::showing);
    reveal(ActorView::published);
}

proof fn lemma_service_synced(a: ActorView, now: Instant, id: ReceiverId, other: ReceiverId)
    ensures
        ({
            let b = a.service_synced(now, id);
            &&& b.inventory == a.inventory
            &&& b.snapshot == a.snapshot
            &&& b.saved_names == a.saved_names
            &&& b.machines.contains_key(id)
            &&& b.machines[id].service_available == offered(a, id)
            &&& a.machines.contains_key(id) ==> machine_follows(
                a.machines[id].state,
                b.machines[id].state,
                offered(a, id),
                a.machines[id].service_available,
            )
            &&& b.rejoin.online_since.contains_key(id) <==> offered(a, id)
            &&& offered(a, id) ==> b.rejoin.online_since[id]
                == if a.rejoin.online_since.contains_key(id) {
                a.rejoin.online_since[id]
            } else {
                now
            }
            &&& b.rejoin.last_rejoin_restart == a.rejoin.last_rejoin_restart
            &&& other != id ==> {
                &&& a.machines.contains_key(other) <==> b.machines.contains_key(other)
                &&& a.machines[other] == b.machines[other]
                &&& a.rejoin.online_since.contains_key(other)
                    <==> b.rejoin.online_since.contains_key(other)
                &&& a.rejoin.online_since[other] == b.rejoin.online_since[other]
            }
        }),
{
    reveal(ActorView::driven);
}

/// How a receiver's lifecycle follows its service: a lost service makes it
/// unavailable unless a session holds it, a returning one makes an unavailable
/// receiver discovered, and anything else stays as it was.
pub open spec fn machine_follows(
    before: LifecycleView,
    after: LifecycleView,
    service: bool,
    had_service: bool,
) -> bool {
    if service == had_service {
        after == before
    } else if service {
        after == if before is Unavailable { LifecycleView::Discovered } else { before }
    } else {
        after == if in_session(before) { before } else { LifecycleView::Unavailable }
    }
}

proof fn lemma_services_synced(a: ActorView, now: Instant, ids: Seq<ReceiverId>, id: ReceiverId)
    requires
        forall|i: int, j: int| 0 <= i < j < ids.len() ==> ids[i] != ids[j],
    ensures
        ({
            let b = a.services_synced(now, ids);
            &&& b.inventory == a.inventory
            &&& b.snapshot == a.snapshot
            &&& b.saved_names == a.saved_names
            &&& ids.contains(id) ==> {
                &&& b.machines.contains_key(id)
                &&& b.machines[id].service_available == offered(a, id)
                &&& a.machines.contains_key(id) ==> machine_follows(
                    a.machines[id].state,
                    b.machines[id].state,
                    offered(a, id),
                    a.machines[id].service_available,
                )
                &&& b.rejoin.online_since.contains_key(id) <==> offered(a, id)
                &&& offered(a, id) ==> b.rejoin.online_since[id]
                    == if a.rejoin.online_since.contains_key(id) {
                    a.rejoin.online_since[id]
                } else {
                    now
                }
            }
            &&& !ids.contains(id) ==> {
                &&& a.machines.contains_key(id) <==> b.machines.contains_key(id)
                &&& a.machines[id] == b.machines[id]
                &&& a.rejoin.online_since.contains_key(id)
                    <==> b.rejoin.online_since.contains_key(id)
                &&& a.rejoin.online_since[id] == b.rejoin.online_since[id]
            }
        }),
    decreases ids.len(),
{
    if ids.len() > 0 {
        let front = ids.drop_last();
        let rest = a.services_synced(now, front);
        lemma_services_synced(a, now, front, id);
        lemma_services_synced(a, now, front, ids.last());
        lemma_service_synced(rest, now, ids.last(), id);
        assert(ids[ids.len() - 1] == ids.last());
        if front.contains(id) {
            let k = front.index_of(id);
            assert(ids[k] == id);
        }
        if front.contains(ids.last()) {
            let k = front.index_of(ids.last());
            assert(ids[k] != ids[ids.len() - 1]);
        }
        if ids.contains(id) && id != ids.last() {
            let k = ids.index_of(id);
            assert(front[k] == id);
        }
    }
}

/// After every browse event of the current generation, each receiver's service
/// state is exactly what discovery offers, its lifecycle has followed, its
/// discoverability window is open exactly while it is on offer, counted from
/// its first sighting, and its row shows the result. A receiver that vanished
/// is no longer on offer; one that appeared castable is.
pub proof fn law_browse_events_reach_the_rows(
    a: ActorView,
    generation: u64,
    event: BrowseView,
    at: Moment,
    id: ReceiverId,
)
    requires
        generation >= a.seen_discovery_generation,
        a.inventory.dom().finite(),
        a.snapshot.desired_members.finite(),
        a.machines.contains_key(id) && a.machines[id].state is Unavailable
            ==> !a.machines[id].service_available,
    ensures
        ({
            let seen = a.browsed(event);
            let b = a.discovery_updated(UpdateView::Receiver { generation, event }, at);
            let rows = b.snapshot.receivers;
            let desired = a.snapshot.desired_members.contains(id);
            &&& event == BrowseView::Removed(id) ==> !offered(b, id) && !offered(seen, id)
            &&& b.snapshot.desired_members == a.snapshot.desired_members
            &&& offered(b, id) <==> offered(seen, id)
            &&& b.machines.contains_key(id) <==> desired || offered(seen, id)
            &&& b.machines.contains_key(id) ==> {
                &&& b.machines[id].service_available == offered(seen, id)
                &&& b.rejoin.online_since.contains_key(id) <==> offered(seen, id)
                &&& offered(seen, id) && a.rejoin.online_since.contains_key(id)
                    ==> b.rejoin.online_since[id] == a.rejoin.online_since[id]
                &&& offered(seen, id) && !a.rejoin.online_since.contains_key(id)
                    ==> b.rejoin.online_since[id] == at.now
                &&& exists|i: int| 0 <= i < rows.len() && #[trigger] rows[i].id == id
            }
            &&& desired && a.machines.contains_key(id) ==> machine_follows(
                a.machines[id].state,
                b.machines[id].state,
                offered(seen, id),
                a.machines[id].service_available,
            )
            &&& (desired && !a.machines.contains_key(id)) || (!desired && offered(seen, id))
                ==> b.machines[id].state == if offered(seen, id) {
                LifecycleView::Discovered
            } else {
                LifecycleView::Unavailable
            }
            &&& forall|i: int| 0 <= i < rows.len() ==> row_truthful(b, #[trigger] rows[i])
        }),
{
    reveal(ActorView::discovery_updated);
    reveal(ActorView::refreshed);
    let seen = a.browsed(event);
    law_browse_events_update_only_their_own_receiver(a, event, id);
    assert(seen.inventory.dom().finite());
    let aligned = seen.realigned();
    law_machines_stand_for_desired_and_offered_receivers(seen, id);
    assert(aligned.inventory.dom().subset_of(seen.inventory.dom()));
    vstd::set_lib::lemma_set_subset_finite(seen.inventory.dom(), aligned.inventory.dom());
    assert(aligned.machines.dom() =~= seen.pruned().scope());
    let ids = ascending_list(aligned.machines.dom());
    law_finite_sets_are_listed(aligned.machines.dom());
    assert(ids.to_set().contains(id) <==> ids.contains(id));
    assert forall|i: int, j: int| 0 <= i < j < ids.len() implies ids[i] != ids[j] by {
        assert(ids[i].key() < ids[j].key());
    }
    lemma_services_synced(aligned, at.now, ids, id);
    let synced = aligned.services_synced(at.now, ids);
    law_machines_stand_for_desired_and_offered_receivers(synced, id);
    lemma_shown_rows(synced, synced.snapshot);
    let b = synced.showing_rows(synced.snapshot);
    lemma_rows_keep_the_windows(synced, synced.snapshot);
}

proof fn lemma_rows_keep_the_windows(a: ActorView, next: SnapshotView)
    ensures
        a.showing_rows(next).rejoin == a.rejoin,
{
    reveal(ActorView::showing_rows);
    reveal(ActorView::showing);
    reveal(ActorView::published);
}

} // verus!
