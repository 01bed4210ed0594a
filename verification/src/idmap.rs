//! Ordered sets and maps keyed by receiver identity.
//!
//! Both keep their keys in ascending order, so walking one by position visits
//! receivers in identity order.

use vstd::prelude::*;

use crate::ids::{lemma_key_identifies, ReceiverId};

verus! {

broadcast use lemma_key_identifies;

/// Whether `ids` are strictly ascending, and so free of repetition.
pub open spec fn ascending(ids: Seq<ReceiverId>) -> bool {
    forall|i: int, j: int|
        0 <= i < j < ids.len() ==> (#[trigger] ids[i]).key() < (#[trigger] ids[j]).key()
}

/// Two ascending listings of the same identities are the same listing.
pub proof fn law_ascending_listing_is_unique(a: Seq<ReceiverId>, b: Seq<ReceiverId>)
    requires
        ascending(a),
        ascending(b),
        a.to_set() == b.to_set(),
    ensures
        a == b,
    decreases a.len(),
{
    if a.len() == 0 {
        if b.len() > 0 {
            assert(b.to_set().contains(b[0]));
            assert(a.contains(b[0]));
        }
        assert(a =~= b);
    } else {
        assert(a.to_set().contains(a.last()));
        assert(b.contains(a.last()));
        let j = b.index_of(a.last());
        assert(b.to_set().contains(b.last()));
        assert(a.contains(b.last()));
        let i = a.index_of(b.last());
        assert(a.last().key() <= b.last().key()) by {
            if j < b.len() - 1 {
                assert(b[j].key() < b[b.len() - 1].key());
            }
        }
        assert(b.last().key() <= a.last().key()) by {
            if i < a.len() - 1 {
                assert(a[i].key() < a[a.len() - 1].key());
            }
        }
        assert(a.last() == b.last());
        let x = a.drop_last();
        let y = b.drop_last();
        assert forall|id: ReceiverId| x.to_set().contains(id) <==> y.to_set().contains(id) by {
            if x.contains(id) {
                let k = x.index_of(id);
                assert(a[k] == id);
                assert(a.to_set().contains(id));
                assert(b.contains(id));
                let m = b.index_of(id);
                assert(a[k].key() < a[a.len() - 1].key());
                assert(m < b.len() - 1);
                assert(y[m] == id);
            }
            if y.contains(id) {
                let k = y.index_of(id);
                assert(b[k] == id);
                assert(b.to_set().contains(id));
                assert(a.contains(id));
                let m = a.index_of(id);
                assert(b[k].key() < b[b.len() - 1].key());
                assert(m < a.len() - 1);
                assert(x[m] == id);
            }
        }
        assert(x.to_set() =~= y.to_set());
        law_ascending_listing_is_unique(x, y);
        assert(a =~= x.push(a.last()));
        assert(b =~= y.push(b.last()));
    }
}

/// The members of a set in ascending order.
pub open spec fn ascending_list(ids: Set<ReceiverId>) -> Seq<ReceiverId> {
    choose|listing: Seq<ReceiverId>| ascending(listing) && listing.to_set() == ids
}

/// An ascending listing of a set is its ascending list.
pub proof fn lemma_ascending_list(listing: Seq<ReceiverId>)
    requires
        ascending(listing),
    ensures
        ascending_list(listing.to_set()) == listing,
{
    let ids = listing.to_set();
    let chosen = ascending_list(ids);
    assert(ascending(chosen) && chosen.to_set() == ids);
    law_ascending_listing_is_unique(chosen, listing);
}

proof fn lemma_listing_grows(listing: Seq<ReceiverId>, id: ReceiverId) -> (r: Seq<ReceiverId>)
    requires
        ascending(listing),
        !listing.contains(id),
    ensures
        ascending(r),
        r.to_set() == listing.to_set().insert(id),
    decreases listing.len(),
{
    if listing.len() == 0 || listing.last().key() < id.key() {
        let r = listing.push(id);
        assert forall|other: ReceiverId| r.to_set().contains(other)
            <==> listing.to_set().insert(id).contains(other) by {
            if listing.contains(other) {
                let k = listing.index_of(other);
                assert(r[k] == other);
            }
            assert(r[listing.len() as int] == id);
        }
        assert(r.to_set() =~= listing.to_set().insert(id));
        r
    } else {
        let front = listing.drop_last();
        let last = listing.last();
        assert(listing.contains(last));
        assert(last != id);
        assert(!front.contains(id)) by {
            if front.contains(id) {
                let k = front.index_of(id);
                assert(listing[k] == id);
            }
        }
        let head = lemma_listing_grows(front, id);
        let r = head.push(last);
        assert forall|k: int| 0 <= k < head.len() implies (#[trigger] head[k]).key() < last.key() by {
            assert(head.to_set().contains(head[k]));
            if head[k] != id {
                assert(front.contains(head[k]));
                let m = front.index_of(head[k]);
                assert(listing[m].key() < listing[listing.len() - 1].key());
            }
        }
        assert forall|other: ReceiverId| r.to_set().contains(other)
            <==> listing.to_set().insert(id).contains(other) by {
            if r.contains(other) {
                let k = r.index_of(other);
                if k < head.len() {
                    assert(head[k] == other);
                    assert(head.to_set().contains(other));
                    if other != id {
                        let m = front.index_of(other);
                        assert(listing[m] == other);
                    }
                }
            }
            if listing.contains(other) && other != last {
                let k = listing.index_of(other);
                assert(front[k] == other);
                assert(front.to_set().insert(id).contains(other));
                let m = head.index_of(other);
                assert(r[m] == other);
            }
            assert(r[head.len() as int] == last);
            assert(head.to_set().contains(id));
            assert(r[head.index_of(id)] == id);
        }
        assert(r.to_set() =~= listing.to_set().insert(id));
        r
    }
}

proof fn lemma_some_listing(ids: Set<ReceiverId>) -> (r: Seq<ReceiverId>)
    requires
        ids.finite(),
    ensures
        ascending(r),
        r.to_set() == ids,
    decreases ids.len(),
{
    if ids.len() == 0 {
        let r = Seq::<ReceiverId>::empty();
        assert(ids =~= Set::empty());
        assert(r.to_set() =~= ids);
        r
    } else {
        let id = ids.choose();
        let rest = lemma_some_listing(ids.remove(id));
        assert(!rest.to_set().contains(id));
        let r = lemma_listing_grows(rest, id);
        assert(r.to_set() =~= ids);
        r
    }
}

/// Every finite set has an ascending listing, and it lists exactly the set's
/// members.
pub proof fn law_finite_sets_are_listed(ids: Set<ReceiverId>)
    requires
        ids.finite(),
    ensures
        ascending(ascending_list(ids)),
        ascending_list(ids).to_set() == ids,
{
    let listing = lemma_some_listing(ids);
    assert(ascending(listing) && listing.to_set() == ids);
}

/// An ordered set of receiver identities.
#[derive(Debug, PartialEq, Eq)]
pub struct IdSet {
    items: Vec<ReceiverId>,
}

impl View for IdSet {
    type V = Set<ReceiverId>;

    closed spec fn view(&self) -> Set<ReceiverId> {
        self.items@.to_set()
    }
}

impl IdSet {
    /// The members in ascending order.
    pub closed spec fn order(&self) -> Seq<ReceiverId> {
        self.items@
    }

    #[verifier::type_invariant]
    spec fn inv(self) -> bool {
        ascending(self.items@)
    }

    /// The empty set.
    pub fn new() -> (r: Self)
        ensures
            r@ == Set::<ReceiverId>::empty(),
    {
        let r = IdSet { items: Vec::new() };
        assert(r@ =~= Set::<ReceiverId>::empty());
        r
    }

    /// The listing of a set is ascending and holds exactly its members.
    proof fn lemma_order(&self)
        requires
            self.inv(),
        ensures
            ascending(self.order()),
            self.order().to_set() == self@,
            self@.finite(),
            self@.len() == self.order().len(),
    {
        vstd::seq_lib::seq_to_set_is_finite(self.items@);
        assert(self.items@.no_duplicates()) by {
            assert forall|i: int, j: int|
                0 <= i < self.items@.len() && 0 <= j < self.items@.len() && i != j implies
                self.items@[i] != self.items@[j] by {
                if i < j {
                    assert(self.items@[i].key() < self.items@[j].key());
                } else {
                    assert(self.items@[j].key() < self.items@[i].key());
                }
            }
        }
        self.items@.unique_seq_to_set();
    }

    /// Number of members.
    pub fn len(&self) -> (r: usize)
        ensures
            r == self@.len(),
            r == self.order().len(),
            self@.finite(),
            ascending(self.order()),
            self.order().to_set() == self@,
            self.order() == ascending_list(self@),
    {
        proof {
            use_type_invariant(self);
            self.lemma_order();
            lemma_ascending_list(self.order());
        }
        self.items.len()
    }

    /// Whether the set has no members.
    pub fn is_empty(&self) -> (r: bool)
        ensures
            r <==> self@ == Set::<ReceiverId>::empty(),
    {
        proof {
            use_type_invariant(self);
            self.lemma_order();
            if self.items@.len() > 0 {
                assert(self@.contains(self.items@[0]));
            } else {
                assert(self@ =~= Set::<ReceiverId>::empty());
            }
        }
        self.items.len() == 0
    }

    /// The member at position `i` in ascending order.
    pub fn at(&self, i: usize) -> (r: ReceiverId)
        requires
            i < self.order().len(),
        ensures
            r == self.order()[i as int],
            self@.contains(r),
    {
        assert(self.items@.contains(self.items@[i as int]));
        self.items[i]
    }

    /// Position of the first member not below `id`.
    fn lower_bound(&self, id: ReceiverId) -> (r: usize)
        ensures
            r <= self.items@.len(),
            forall|j: int| 0 <= j < r ==> (#[trigger] self.items@[j]).key() < id.key(),
            forall|j: int| r <= j < self.items@.len() ==> id.key() <= (#[trigger] self.items@[j]).key(),
    {
        proof { use_type_invariant(self); }
        let mut lo: usize = 0;
        let mut hi: usize = self.items.len();
        while lo < hi
            invariant
                lo <= hi <= self.items@.len(),
                ascending(self.items@),
                forall|j: int| 0 <= j < lo ==> (#[trigger] self.items@[j]).key() < id.key(),
                forall|j: int| hi <= j < self.items@.len() ==> id.key() <= (#[trigger] self.items@[j]).key(),
            decreases hi - lo,
        {
            let mid: usize = lo + (hi - lo) / 2;
            if self.items[mid].as_u64() < id.as_u64() {
                lo = mid + 1;
            } else {
                hi = mid;
            }
        }
        lo
    }

    /// Whether `id` is a member.
    pub fn contains(&self, id: ReceiverId) -> (r: bool)
        ensures
            r == self@.contains(id),
    {
        let i: usize = self.lower_bound(id);
        let r: bool = i < self.items.len() && self.items[i].as_u64() == id.as_u64();
        proof {
            use_type_invariant(self);
            if r {
                assert(self.items@[i as int] == id);
                assert(self.items@.contains(id));
            } else if self.items@.contains(id) {
                let j = self.items@.index_of(id);
                if i < j {
                    assert(self.items@[i as int].key() < self.items@[j].key());
                }
            }
        }
        r
    }

    /// Adds `id`.
    pub fn insert(&mut self, id: ReceiverId)
        ensures
            final(self)@ == old(self)@.insert(id),
    {
        let i: usize = self.lower_bound(id);
        let present: bool = i < self.items.len() && self.items[i].as_u64() == id.as_u64();
        proof { use_type_invariant(&*self); }
        let ghost before = self.items@;
        if present {
            proof {
                assert(before[i as int] == id);
                assert(self@ =~= old(self)@.insert(id));
            }
        } else {
            proof {
                let after = before.insert(i as int, id);
                assert forall|a: int, b: int| 0 <= a < b < after.len() implies
                    (#[trigger] after[a]).key() < (#[trigger] after[b]).key() by {
                    let x = if a < i { a } else { a - 1 };
                    let y = if b < i { b } else { b - 1 };
                    if a != i && b != i {
                        assert(after[a] == before[x] && after[b] == before[y]);
                    }
                }
            }
            let mut items: Vec<ReceiverId> = Vec::new();
            core::mem::swap(&mut self.items, &mut items);
            items.insert(i, id);
            self.items = items;
            proof {
                assert forall|x: ReceiverId| self@.contains(x) <==> old(self)@.insert(id).contains(x) by {
                    let after = self.items@;
                    assert(after[i as int] == id);
                    if before.contains(x) {
                        let k = before.index_of(x);
                        assert(after[if k < i { k } else { k + 1 }] == x);
                    }
                    if after.contains(x) && x != id {
                        let k = after.index_of(x);
                        assert(before[if k < i { k } else { k - 1 }] == x);
                    }
                }
                assert(self@ =~= old(self)@.insert(id));
            }
        }
    }

    /// Removes `id`; reports whether it was a member.
    pub fn remove(&mut self, id: ReceiverId) -> (r: bool)
        ensures
            r == old(self)@.contains(id),
            final(self)@ == old(self)@.remove(id),
    {
        let present: bool = self.contains(id);
        if present {
            let i: usize = self.lower_bound(id);
            proof { use_type_invariant(&*self); }
            let ghost before = self.items@;
            proof {
                let k = before.index_of(id);
                assert(before[k] == id);
                if k < i {
                    assert(before[k].key() < id.key());
                }
                if i < k {
                    assert(before[i as int].key() < before[k].key());
                }
                assert(k == i);
                let after = before.remove(i as int);
                assert forall|a: int, b: int| 0 <= a < b < after.len() implies
                    (#[trigger] after[a]).key() < (#[trigger] after[b]).key() by {
                    let x = if a < i { a } else { a + 1 };
                    let y = if b < i { b } else { b + 1 };
                    assert(after[a] == before[x] && after[b] == before[y]);
                }
            }
            let mut items: Vec<ReceiverId> = Vec::new();
            core::mem::swap(&mut self.items, &mut items);
            items.remove(i);
            self.items = items;
            proof {
                let after = self.items@;
                assert forall|x: ReceiverId| self@.contains(x) <==> old(self)@.remove(id).contains(x) by {
                    if before.contains(x) && x != id {
                        let k = before.index_of(x);
                        assert(after[if k < i { k } else { k - 1 }] == x);
                    }
                    if after.contains(x) {
                        let k = after.index_of(x);
                        let m = if k < i { k } else { k + 1 };
                        assert(before[m] == x);
                        if m < i {
                            assert(before[m].key() < before[i as int].key());
                        } else {
                            assert(before[i as int].key() < before[m].key());
                        }
                    }
                }
                assert(self@ =~= old(self)@.remove(id));
            }
        } else {
            proof { assert(self@ =~= old(self)@.remove(id)); }
        }
        present
    }

    /// The members in ascending order.
    pub fn to_list(&self) -> (r: Vec<ReceiverId>)
        ensures
            r@ == ascending_list(self@),
            ascending(r@),
            r@.to_set() == self@,
    {
        proof {
            use_type_invariant(self);
            lemma_ascending_list(self.items@);
        }
        self.copied().items
    }

    /// A copy of the set.
    pub fn copied(&self) -> (r: IdSet)
        ensures
            r@ == self@,
            r.order() == self.order(),
    {
        proof { use_type_invariant(self); }
        let mut items: Vec<ReceiverId> = Vec::new();
        let mut i: usize = 0;
        while i < self.items.len()
            invariant
                i <= self.items@.len(),
                items@ == self.items@.take(i as int),
            decreases self.items@.len() - i,
        {
            items.push(self.items[i]);
            i = i + 1;
            assert(items@ =~= self.items@.take(i as int));
        }
        assert(items@ =~= self.items@);
        IdSet { items }
    }

    /// Whether both sets have the same members.
    pub fn same_as(&self, other: &IdSet) -> (r: bool)
        ensures
            r <==> self@ == other@,
    {
        proof {
            use_type_invariant(self);
            use_type_invariant(other);
            self.lemma_order();
            other.lemma_order();
        }
        if self.items.len() != other.items.len() {
            return false;
        }
        let mut i: usize = 0;
        while i < self.items.len()
            invariant
                i <= self.items@.len(),
                self.items@.len() == other.items@.len(),
                forall|j: int| 0 <= j < i ==> self.items@[j] == other.items@[j],
                ascending(self.items@),
                ascending(other.items@),
            decreases self.items@.len() - i,
        {
            if self.items[i].as_u64() != other.items[i].as_u64() {
                proof {
                    if self@ == other@ {
                        law_ascending_listing_is_unique(self.items@, other.items@);
                    }
                }
                return false;
            }
            i = i + 1;
        }
        assert(self.items@ =~= other.items@);
        true
    }

    /// Whether every member is also a member of `other`.
    pub fn subset_of(&self, other: &IdSet) -> (r: bool)
        ensures
            r <==> self@.subset_of(other@),
    {
        let mut i: usize = 0;
        while i < self.items.len()
            invariant
                i <= self.items@.len(),
                forall|j: int| 0 <= j < i ==> other@.contains(#[trigger] self.items@[j]),
            decreases self.items@.len() - i,
        {
            if !other.contains(self.items[i]) {
                assert(self.items@.contains(self.items@[i as int]));
                assert(self@.contains(self.items@[i as int]));
                return false;
            }
            i = i + 1;
        }
        assert forall|x: ReceiverId| self@.contains(x) implies other@.contains(x) by {
            let k = self.items@.index_of(x);
            assert(self.items@[k] == x);
        }
        true
    }
}

impl Clone for IdSet {
    fn clone(&self) -> (r: Self)
        ensures
            r@ == self@,
    {
        self.copied()
    }
}

/// An ordered map from receiver identities to values.
#[derive(Debug, PartialEq, Eq)]
pub struct IdMap<V> {
    entries: Vec<(ReceiverId, V)>,
}

impl<V> View for IdMap<V> {
    type V = Map<ReceiverId, V>;

    closed spec fn view(&self) -> Map<ReceiverId, V> {
        Map::new(
            |id: ReceiverId| self.order().contains(id),
            |id: ReceiverId| self.entries@[self.order().index_of(id)].1,
        )
    }
}

impl<V> IdMap<V> {
    /// The keys in ascending order.
    pub closed spec fn order(&self) -> Seq<ReceiverId> {
        Seq::new(self.entries@.len(), |i: int| self.entries@[i].0)
    }

    #[verifier::type_invariant]
    spec fn inv(self) -> bool {
        ascending(self.order())
    }

    /// The empty map.
    pub fn new() -> (r: Self)
        ensures
            r@ == Map::<ReceiverId, V>::empty(),
    {
        let r = IdMap { entries: Vec::new() };
        assert(r@ =~= Map::<ReceiverId, V>::empty());
        r
    }

    /// The key listing of a map is ascending and holds exactly its keys.
    proof fn lemma_order(&self)
        requires
            self.inv(),
        ensures
            ascending(self.order()),
            self.order().to_set() == self@.dom(),
            self@.dom().finite(),
            self@.dom().len() == self.order().len(),
    {
        let order = self.order();
        vstd::seq_lib::seq_to_set_is_finite(order);
        assert(order.no_duplicates()) by {
            assert forall|i: int, j: int|
                0 <= i < order.len() && 0 <= j < order.len() && i != j implies order[i] != order[j] by {
                if i < j {
                    assert(order[i].key() < order[j].key());
                } else {
                    assert(order[j].key() < order[i].key());
                }
            }
        }
        order.unique_seq_to_set();
        assert(order.to_set() =~= self@.dom());
    }

    /// The entry at a position is the one its key maps to.
    proof fn lemma_entry(&self, i: int)
        requires
            self.inv(),
            0 <= i < self.entries@.len(),
        ensures
            self@.contains_key(self.entries@[i].0),
            self@[self.entries@[i].0] == self.entries@[i].1,
            self.order()[i] == self.entries@[i].0,
    {
        let order = self.order();
        let id = self.entries@[i].0;
        assert(order[i] == id);
        assert(order.contains(id));
        let k = order.index_of(id);
        if k < i {
            assert(order[k].key() < order[i].key());
        }
        if i < k {
            assert(order[i].key() < order[k].key());
        }
    }

    /// Number of keys.
    pub fn len(&self) -> (r: usize)
        ensures
            r == self.order().len(),
            self@.dom().len() == r,
            self@.dom().finite(),
            ascending(self.order()),
            self.order().to_set() == self@.dom(),
            self.order() == ascending_list(self@.dom()),
    {
        proof {
            use_type_invariant(self);
            self.lemma_order();
            lemma_ascending_list(self.order());
        }
        self.entries.len()
    }

    /// The key at position `i` in ascending order.
    pub fn key_at(&self, i: usize) -> (r: ReceiverId)
        requires
            i < self.order().len(),
        ensures
            r == self.order()[i as int],
            self@.contains_key(r),
    {
        proof {
            use_type_invariant(self);
            self.lemma_entry(i as int);
        }
        self.entries[i].0
    }

    /// The value at position `i` in ascending key order.
    pub fn value_at(&self, i: usize) -> (r: &V)
        requires
            i < self.order().len(),
        ensures
            *r == self@[self.order()[i as int]],
            self@.contains_key(self.order()[i as int]),
    {
        proof {
            use_type_invariant(self);
            self.lemma_entry(i as int);
        }
        &self.entries[i].1
    }

    /// The keys in ascending order.
    pub fn keys(&self) -> (r: Vec<ReceiverId>)
        ensures
            r@ == ascending_list(self@.dom()),
            ascending(r@),
            r@.to_set() == self@.dom(),
            self@.dom().finite(),
    {
        let len: usize = self.len();
        let mut out: Vec<ReceiverId> = Vec::new();
        let mut i: usize = 0;
        while i < len
            invariant
                i <= len,
                len == self.order().len(),
                out@ == self.order().take(i as int),
            decreases len - i,
        {
            out.push(self.key_at(i));
            i = i + 1;
            assert(out@ =~= self.order().take(i as int));
        }
        assert(out@ =~= self.order());
        out
    }

    /// Position of the first key not below `id`.
    fn lower_bound(&self, id: ReceiverId) -> (r: usize)
        ensures
            r <= self.entries@.len(),
            forall|j: int| 0 <= j < r ==> (#[trigger] self.entries@[j]).0.key() < id.key(),
            forall|j: int| r <= j < self.entries@.len() ==> id.key() <= (#[trigger] self.entries@[j]).0.key(),
    {
        proof { use_type_invariant(self); }
        let mut lo: usize = 0;
        let mut hi: usize = self.entries.len();
        while lo < hi
            invariant
                lo <= hi <= self.entries@.len(),
                ascending(self.order()),
                forall|j: int| 0 <= j < lo ==> (#[trigger] self.entries@[j]).0.key() < id.key(),
                forall|j: int| hi <= j < self.entries@.len() ==> id.key() <= (#[trigger] self.entries@[j]).0.key(),
            decreases hi - lo,
        {
            let mid: usize = lo + (hi - lo) / 2;
            proof {
                assert forall|j: int| 0 <= j < self.entries@.len() implies
                    self.order()[j] == (#[trigger] self.entries@[j]).0 by {}
                assert(self.order()[mid as int] == self.entries@[mid as int].0);
            }
            if self.entries[mid].0.as_u64() < id.as_u64() {
                lo = mid + 1;
            } else {
                hi = mid;
            }
        }
        lo
    }

    /// Position of `id`, if it is a key.
    fn find(&self, id: ReceiverId) -> (r: Option<usize>)
        ensures
            r matches Some(i) ==> i < self.entries@.len() && self.entries@[i as int].0 == id
                && self@.contains_key(id) && self@[id] == self.entries@[i as int].1,
            r is None ==> !self@.contains_key(id),
    {
        let i: usize = self.lower_bound(id);
        if i < self.entries.len() && self.entries[i].0.as_u64() == id.as_u64() {
            proof {
            use_type_invariant(self);
            self.lemma_entry(i as int);
        }
            Some(i)
        } else {
            proof {
                use_type_invariant(self);
                if self@.contains_key(id) {
                    let k = self.order().index_of(id);
                    assert(self.entries@[k].0 == id);
                    if i < k {
                        assert(self.order()[i as int].key() < self.order()[k].key());
                        assert(self.entries@[i as int].0.key() < id.key());
                    }
                }
            }
            None
        }
    }

    /// Whether `id` is a key.
    pub fn contains_key(&self, id: ReceiverId) -> (r: bool)
        ensures
            r == self@.contains_key(id),
    {
        self.find(id).is_some()
    }

    /// The value of `id`, if it is a key.
    pub fn get(&self, id: ReceiverId) -> (r: Option<&V>)
        ensures
            r matches Some(v) ==> self@.contains_key(id) && *v == self@[id],
            r is None ==> !self@.contains_key(id),
    {
        match self.find(id) {
            Some(i) => Some(&self.entries[i].1),
            None => None,
        }
    }

    /// Removes `id` and hands out its value.
    pub fn take(&mut self, id: ReceiverId) -> (r: Option<V>)
        ensures
            final(self)@ == old(self)@.remove(id),
            r matches Some(v) ==> old(self)@.contains_key(id) && v == old(self)@[id],
            r is None ==> !old(self)@.contains_key(id),
    {
        match self.find(id) {
            Some(i) => {
                proof { use_type_invariant(&*self); }
                let ghost before = self.entries@;
                let ghost keys = self.order();
                proof {
                    let after = before.remove(i as int);
                    let after_keys = Seq::new(after.len(), |k: int| after[k].0);
                    assert forall|a: int, b: int| 0 <= a < b < after_keys.len() implies
                        (#[trigger] after_keys[a]).key() < (#[trigger] after_keys[b]).key() by {
                        let x = if a < i { a } else { a + 1 };
                        let y = if b < i { b } else { b + 1 };
                        assert(after_keys[a] == keys[x] && after_keys[b] == keys[y]);
                    }
                }
                let mut entries: Vec<(ReceiverId, V)> = Vec::new();
                core::mem::swap(&mut self.entries, &mut entries);
                let entry = entries.remove(i);
                self.entries = entries;
                proof {
                    let after = self.entries@;
                    assert forall|x: ReceiverId| #![trigger self@.contains_key(x)]
                        (self@.contains_key(x) <==> old(self)@.remove(id).contains_key(x))
                        && (self@.contains_key(x) ==> self@[x] == old(self)@[x]) by {
                        if old(self)@.contains_key(x) && x != id {
                            let k = keys.index_of(x);
                            assert(before[k].0 == x);
                            let m = if k < i { k } else { k - 1 };
                            assert(after[m] == before[k]);
                            self.lemma_entry(m);
                            old(self).lemma_entry(k);
                        }
                        if self@.contains_key(x) {
                            let k = self.order().index_of(x);
                            let m = if k < i { k } else { k + 1 };
                            assert(before[m] == after[k]);
                            old(self).lemma_entry(m);
                            self.lemma_entry(k);
                            assert(keys[m] == x && keys[i as int] == id);
                            if m < i {
                                assert(keys[m].key() < keys[i as int].key());
                            } else {
                                assert(keys[i as int].key() < keys[m].key());
                            }
                        }
                    }
                    assert(self@ =~= old(self)@.remove(id));
                }
                Some(entry.1)
            },
            None => {
                proof { assert(self@ =~= old(self)@.remove(id)); }
                None
            },
        }
    }

    /// Maps `id` to `value`, replacing what it mapped to before.
    pub fn insert(&mut self, id: ReceiverId, value: V)
        ensures
            final(self)@ == old(self)@.insert(id, value),
    {
        let _previous = self.take(id);
        let ghost mid = self@;
        let i: usize = self.lower_bound(id);
        proof { use_type_invariant(&*self); }
        let ghost before = self.entries@;
        let ghost keys = self.order();
        proof {
            assert forall|j: int| 0 <= j < before.len() implies keys[j] == (#[trigger] before[j]).0 by {}
            let after = before.insert(i as int, (id, value));
            let after_keys = Seq::new(after.len(), |k: int| after[k].0);
            assert forall|j: int| i <= j < before.len() implies id.key() < (#[trigger] keys[j]).key() by {
                assert(before[j].0 == keys[j]);
                if keys[j].key() == id.key() {
                    assert(keys[j] == id);
                    assert(keys.contains(id));
                    assert(mid.contains_key(id));
                }
            }
            assert forall|a: int, b: int| 0 <= a < b < after_keys.len() implies
                (#[trigger] after_keys[a]).key() < (#[trigger] after_keys[b]).key() by {
                let x = if a < i { a } else { a - 1 };
                let y = if b < i { b } else { b - 1 };
                if a != i {
                    assert(after_keys[a] == keys[x]);
                    assert(keys[x] == before[x].0);
                }
                if b != i {
                    assert(after_keys[b] == keys[y]);
                    assert(keys[y] == before[y].0);
                }
            }
        }
        let ghost held = *self;
        let mut entries: Vec<(ReceiverId, V)> = Vec::new();
        core::mem::swap(&mut self.entries, &mut entries);
        entries.insert(i, (id, value));
        self.entries = entries;
        proof {
            let after = self.entries@;
            self.lemma_entry(i as int);
            assert forall|x: ReceiverId| #![trigger self@.contains_key(x)]
                (self@.contains_key(x) <==> mid.insert(id, value).contains_key(x))
                && (self@.contains_key(x) ==> self@[x] == mid.insert(id, value)[x]) by {
                if mid.contains_key(x) {
                    let k = keys.index_of(x);
                    assert(before[k].0 == x);
                    let m = if k < i { k } else { k + 1 };
                    assert(after[m] == before[k]);
                    self.lemma_entry(m);
                    held.lemma_entry(k);
                }
                if self@.contains_key(x) && x != id {
                    let k = self.order().index_of(x);
                    let m = if k < i { k } else { k - 1 };
                    assert(before[m] == after[k]);
                    held.lemma_entry(m);
                    self.lemma_entry(k);
                }
            }
            assert(self@ =~= mid.insert(id, value));
            assert(self@ =~= old(self)@.insert(id, value));
        }
    }
}

impl<V: Copy> IdMap<V> {
    /// A copy of the map.
    pub fn copied(&self) -> (r: Self)
        ensures
            r@ == self@,
            r.order() == self.order(),
    {
        proof { use_type_invariant(self); }
        let mut entries: Vec<(ReceiverId, V)> = Vec::new();
        let mut i: usize = 0;
        while i < self.entries.len()
            invariant
                i <= self.entries@.len(),
                entries@ == self.entries@.take(i as int),
            decreases self.entries@.len() - i,
        {
            let id: ReceiverId = self.entries[i].0;
            let value: V = self.entries[i].1;
            entries.push((id, value));
            i = i + 1;
            assert(entries@ =~= self.entries@.take(i as int));
        }
        assert(entries@ =~= self.entries@);
        IdMap { entries }
    }
}

/// The same map with each value replaced by its view.
pub open spec fn value_views<V: View>(map: Map<ReceiverId, V>) -> Map<ReceiverId, V::V> {
    Map::new(|id: ReceiverId| map.contains_key(id), |id: ReceiverId| map[id]@)
}

/// Viewing values commutes with inserting one.
pub broadcast proof fn lemma_views_insert<V: View>(map: Map<ReceiverId, V>, id: ReceiverId, value: V)
    ensures
        #[trigger] value_views(map.insert(id, value)) == value_views(map).insert(id, value@),
{
    assert(value_views(map.insert(id, value)) =~= value_views(map).insert(id, value@));
}

/// Viewing values commutes with removing one.
pub broadcast proof fn lemma_views_remove<V: View>(map: Map<ReceiverId, V>, id: ReceiverId)
    ensures
        #[trigger] value_views(map.remove(id)) == value_views(map).remove(id),
{
    assert(value_views(map.remove(id)) =~= value_views(map).remove(id));
}

/// Viewing values keeps the keys.
pub broadcast proof fn lemma_views_keys<V: View>(map: Map<ReceiverId, V>)
    ensures
        (#[trigger] value_views(map)).dom() == map.dom(),
{
    assert(value_views(map).dom() =~= map.dom());
}

/// How viewing values relates to the operations on maps.
pub broadcast group group_value_views {
    lemma_views_insert,
    lemma_views_remove,
    lemma_views_keys,
}

} // verus!
