//! Text operations: case folding, trimming, and byte order.

use vstd::prelude::*;

verus! {

/// The lowercase form of a text under the Unicode case mapping.
pub uninterp spec fn lowercase_text(text: Seq<char>) -> Seq<char>;

/// Whether a character has the Unicode `White_Space` property.
pub uninterp spec fn whitespace_char(c: char) -> bool;

/// Calls `str::to_lowercase`. Its result is the Unicode lowercase mapping of
/// the text, a function of the text alone that does not depend on any locale.
#[verifier::external_body]
pub(crate) fn to_lowercase(text: &str) -> (r: String)
    ensures
        r@ == lowercase_text(text@),
{
    text.to_lowercase()
}

/// Calls `char::is_whitespace`, which tests the Unicode `White_Space`
/// property of the character.
#[verifier::external_body]
fn is_whitespace(c: char) -> (r: bool)
    ensures
        r == whitespace_char(c),
{
    c.is_whitespace()
}

/// The quoted form of a text as `{:?}` renders it.
pub uninterp spec fn quoted_text(text: Seq<char>) -> Seq<char>;

/// Renders `text` with the `Debug` formatting of `str`: quoted, with special
/// characters escaped. The rendering is a function of the text alone.
#[verifier::external_body]
pub(crate) fn quoted(text: &str) -> (r: String)
    ensures
        r@ == quoted_text(text@),
{
    format!("{:?}", text)
}

/// The decimal digit for a value below ten.
pub open spec fn decimal_digit(n: int) -> char {
    ('0' as int + n) as char
}

/// The decimal form of a number.
pub open spec fn decimal_text(n: int) -> Seq<char>
    decreases n,
{
    if n < 10 {
        seq![decimal_digit(n)]
    } else {
        decimal_text(n / 10).push(decimal_digit(n % 10))
    }
}

/// The one-character text of a decimal digit.
fn digit_text(digit: u64) -> (r: &'static str)
    requires
        digit < 10,
    ensures
        r@ == seq![decimal_digit(digit as int)],
{
    proof {
        reveal_strlit("0");
        reveal_strlit("1");
        reveal_strlit("2");
        reveal_strlit("3");
        reveal_strlit("4");
        reveal_strlit("5");
        reveal_strlit("6");
        reveal_strlit("7");
        reveal_strlit("8");
        reveal_strlit("9");
    }
    match digit {
        0 => "0",
        1 => "1",
        2 => "2",
        3 => "3",
        4 => "4",
        5 => "5",
        6 => "6",
        7 => "7",
        8 => "8",
        _ => "9",
    }
}

/// Renders a number in decimal.
pub fn decimal(n: u64) -> (r: String)
    ensures
        r@ == decimal_text(n as int),
    decreases n,
{
    if n < 10 {
        digit_text(n).to_owned()
    } else {
        let mut text: String = decimal(n / 10);
        text.append(digit_text(n % 10));
        assert(text@ =~= decimal_text(n as int));
        text
    }
}

/// The code point of a character with ASCII uppercase folded to lowercase.
pub open spec fn ascii_fold(c: char) -> u32 {
    if 'A' <= c && c <= 'Z' { (c as u32 + 32) as u32 } else { c as u32 }
}

/// Whether two texts are equal once ASCII case is ignored.
pub open spec fn same_ignoring_ascii_case(a: Seq<char>, b: Seq<char>) -> bool {
    &&& a.len() == b.len()
    &&& forall|i: int| 0 <= i < a.len() ==> ascii_fold(#[trigger] a[i]) == ascii_fold(b[i])
}

fn fold_ascii(c: char) -> (r: u32)
    ensures
        r == ascii_fold(c),
{
    if 'A' <= c && c <= 'Z' { c as u32 + 32 } else { c as u32 }
}

/// Whether two texts are equal once ASCII case is ignored.
pub fn eq_ignore_ascii_case(a: &str, b: &str) -> (r: bool)
    ensures
        r == same_ignoring_ascii_case(a@, b@),
{
    let len: usize = a.unicode_len();
    if len != b.unicode_len() {
        return false;
    }
    let mut i: usize = 0;
    while i < len
        invariant
            i <= len,
            len == a@.len(),
            len == b@.len(),
            forall|k: int| 0 <= k < i ==> ascii_fold(#[trigger] a@[k]) == ascii_fold(b@[k]),
        decreases len - i,
    {
        if fold_ascii(a.get_char(i)) != fold_ascii(b.get_char(i)) {
            return false;
        }
        i = i + 1;
    }
    true
}

/// The text without its leading whitespace.
pub open spec fn trim_start(text: Seq<char>) -> Seq<char>
    decreases text.len(),
{
    if text.len() > 0 && whitespace_char(text[0]) {
        trim_start(text.drop_first())
    } else {
        text
    }
}

/// The text without its trailing whitespace.
pub open spec fn trim_end(text: Seq<char>) -> Seq<char>
    decreases text.len(),
{
    if text.len() > 0 && whitespace_char(text.last()) {
        trim_end(text.drop_last())
    } else {
        text
    }
}

/// The text without leading and trailing whitespace.
pub open spec fn trimmed(text: Seq<char>) -> Seq<char> {
    trim_end(trim_start(text))
}

proof fn lemma_trim_end_keeps_head(text: Seq<char>)
    requires
        text.len() == 0 || !whitespace_char(text[0]),
    ensures
        trim_end(text).len() == 0 ==> text.len() == 0,
        trim_end(text).len() > 0 ==> trim_end(text)[0] == text[0],
        trim_end(text).len() > 0 ==> !whitespace_char(trim_end(text).last()),
    decreases text.len(),
{
    if text.len() > 0 && whitespace_char(text.last()) {
        assert(text.len() > 1);
        lemma_trim_end_keeps_head(text.drop_last());
    }
}

proof fn lemma_trim_start_head(text: Seq<char>)
    ensures
        trim_start(text).len() > 0 ==> !whitespace_char(trim_start(text)[0]),
    decreases text.len(),
{
    if text.len() > 0 && whitespace_char(text[0]) {
        lemma_trim_start_head(text.drop_first());
    }
}

proof fn lemma_trim_start_cut(text: Seq<char>) -> (cut: int)
    ensures
        0 <= cut <= text.len(),
        trim_start(text) == text.skip(cut),
        forall|i: int| 0 <= i < cut ==> whitespace_char(#[trigger] text[i]),
    decreases text.len(),
{
    if text.len() > 0 && whitespace_char(text[0]) {
        let rest = text.drop_first();
        let cut = lemma_trim_start_cut(rest);
        assert(rest.skip(cut) =~= text.skip(cut + 1));
        assert forall|i: int| 0 <= i < cut + 1 implies whitespace_char(#[trigger] text[i]) by {
            if i > 0 {
                assert(rest[i - 1] == text[i]);
            }
        }
        cut + 1
    } else {
        assert(text.skip(0) =~= text);
        0
    }
}

proof fn lemma_trim_end_cut(text: Seq<char>) -> (cut: int)
    ensures
        0 <= cut <= text.len(),
        trim_end(text) == text.take(cut),
        forall|i: int| cut <= i < text.len() ==> whitespace_char(#[trigger] text[i]),
    decreases text.len(),
{
    if text.len() > 0 && whitespace_char(text.last()) {
        let rest = text.drop_last();
        let cut = lemma_trim_end_cut(rest);
        assert(rest.take(cut) =~= text.take(cut));
        assert forall|i: int| cut <= i < text.len() implies whitespace_char(#[trigger] text[i]) by {
            if i < text.len() - 1 {
                assert(rest[i] == text[i]);
            }
        }
        cut
    } else {
        assert(text.take(text.len() as int) =~= text);
        text.len() as int
    }
}

/// Trimming cuts off whitespace at both ends and nothing else: what is left is
/// one stretch of the text, starts and ends with something visible, and only
/// whitespace stood outside it.
pub proof fn law_trimming_cuts_only_surrounding_whitespace(text: Seq<char>)
    ensures
        exists|from: int, to: int|
            0 <= from <= to <= text.len() && trimmed(text) == #[trigger] text.subrange(from, to)
                && (forall|i: int| 0 <= i < from ==> whitespace_char(#[trigger] text[i])) && (
            forall|i: int| to <= i < text.len() ==> whitespace_char(#[trigger] text[i])),
        trimmed(text).len() > 0 ==> !whitespace_char(trimmed(text)[0]) && !whitespace_char(
            trimmed(text).last(),
        ),
{
    let from = lemma_trim_start_cut(text);
    let inner = text.skip(from);
    let kept = lemma_trim_end_cut(inner);
    let to = from + kept;
    assert(inner.take(kept) =~= text.subrange(from, to));
    assert forall|i: int| to <= i < text.len() implies whitespace_char(#[trigger] text[i]) by {
        assert(inner[i - from] == text[i]);
    }
    lemma_trim_start_head(text);
    lemma_trim_end_keeps_head(trim_start(text));
}

/// Trimming twice is trimming once.
pub proof fn law_trimming_is_idempotent(text: Seq<char>)
    ensures
        trimmed(trimmed(text)) == trimmed(text),
{
    lemma_trim_start_head(text);
    lemma_trim_end_keeps_head(trim_start(text));
}

proof fn lemma_trim_start_skips(text: Seq<char>, from: int)
    requires
        0 <= from <= text.len(),
        forall|i: int| 0 <= i < from ==> whitespace_char(#[trigger] text[i]),
    ensures
        trim_start(text) == trim_start(text.skip(from)),
    decreases from,
{
    if from > 0 {
        let rest = text.drop_first();
        assert(whitespace_char(text[0]));
        assert forall|i: int| 0 <= i < from - 1 implies whitespace_char(#[trigger] rest[i]) by {
            assert(rest[i] == text[i + 1]);
        }
        lemma_trim_start_skips(rest, from - 1);
        assert(rest.skip(from - 1) =~= text.skip(from));
    } else {
        assert(text.skip(0) =~= text);
    }
}

proof fn lemma_trim_end_drops(text: Seq<char>, to: int)
    requires
        0 <= to <= text.len(),
        forall|i: int| to <= i < text.len() ==> whitespace_char(#[trigger] text[i]),
    ensures
        trim_end(text) == trim_end(text.take(to)),
    decreases text.len() - to,
{
    if to < text.len() {
        assert(whitespace_char(text[text.len() - 1]));
        lemma_trim_end_drops(text.drop_last(), to);
        assert(text.drop_last().take(to) =~= text.take(to));
    } else {
        assert(text.take(to) =~= text);
    }
}

/// A copy of `text` without leading and trailing whitespace.
pub fn trim(text: &str) -> (r: String)
    ensures
        r@ == trimmed(text@),
{
    let len: usize = text.unicode_len();
    let mut from: usize = 0;
    while from < len && is_whitespace(text.get_char(from))
        invariant
            from <= len,
            len == text@.len(),
            forall|i: int| 0 <= i < from ==> whitespace_char(#[trigger] text@[i]),
        ensures
            from <= len,
            forall|i: int| 0 <= i < from ==> whitespace_char(#[trigger] text@[i]),
            from < len ==> !whitespace_char(text@[from as int]),
        decreases len - from,
    {
        from = from + 1;
    }
    let ghost tail = text@.skip(from as int);
    proof {
        lemma_trim_start_skips(text@, from as int);
        assert(trim_start(tail) == tail);
    }
    let mut to: usize = len;
    while from < to && is_whitespace(text.get_char(to - 1))
        invariant
            from <= to <= len,
            len == text@.len(),
            tail == text@.skip(from as int),
            forall|i: int| to - from <= i < tail.len() ==> whitespace_char(#[trigger] tail[i]),
        ensures
            from <= to <= len,
            forall|i: int| to - from <= i < tail.len() ==> whitespace_char(#[trigger] tail[i]),
            from < to ==> !whitespace_char(text@[to - 1]),
        decreases to - from,
    {
        to = to - 1;
        assert(tail[to - from] == text@[to as int]);
    }
    proof {
        lemma_trim_end_drops(tail, to - from);
        assert(tail.take(to - from) =~= text@.subrange(from as int, to as int));
        assert(from < to ==> tail.take(to - from).last() == text@[to - 1]);
        assert(trim_end(tail.take(to - from)) == tail.take(to - from));
    }
    text.substring_char(from, to).to_owned()
}

/// Whether byte sequence `a` sorts strictly before `b`.
pub open spec fn bytes_before(a: Seq<u8>, b: Seq<u8>) -> bool
    decreases a.len(),
{
    if b.len() == 0 {
        false
    } else if a.len() == 0 {
        true
    } else if a[0] != b[0] {
        a[0] < b[0]
    } else {
        bytes_before(a.drop_first(), b.drop_first())
    }
}

proof fn lemma_bytes_irreflexive(a: Seq<u8>)
    ensures
        !bytes_before(a, a),
    decreases a.len(),
{
    if a.len() > 0 {
        lemma_bytes_irreflexive(a.drop_first());
    }
}

/// The byte order is a strict total order.
pub proof fn lemma_bytes_order(a: Seq<u8>, b: Seq<u8>, c: Seq<u8>)
    ensures
        !bytes_before(a, a),
        bytes_before(a, b) ==> !bytes_before(b, a),
        !bytes_before(a, b) && !bytes_before(b, a) ==> a == b,
        bytes_before(a, b) && bytes_before(b, c) ==> bytes_before(a, c),
    decreases a.len() + b.len() + c.len(),
{
    lemma_bytes_irreflexive(a);
    if a.len() > 0 && b.len() > 0 && a[0] == b[0] {
        lemma_bytes_order(
            a.drop_first(),
            b.drop_first(),
            if c.len() > 0 { c.drop_first() } else { c },
        );
        assert(a =~= seq![a[0]] + a.drop_first());
        assert(b =~= seq![b[0]] + b.drop_first());
    }
    if a.len() == 0 && b.len() == 0 {
        assert(a =~= b);
    }
}

proof fn lemma_common_prefix(a: Seq<u8>, b: Seq<u8>, n: int)
    requires
        0 <= n <= a.len(),
        n <= b.len(),
        forall|i: int| 0 <= i < n ==> a[i] == b[i],
    ensures
        bytes_before(a, b) == bytes_before(a.skip(n), b.skip(n)),
    decreases n,
{
    if n > 0 {
        let x = a.drop_first();
        let y = b.drop_first();
        assert forall|i: int| 0 <= i < n - 1 implies x[i] == y[i] by {
            assert(x[i] == a[i + 1] && y[i] == b[i + 1]);
        }
        lemma_common_prefix(x, y, n - 1);
        assert(x.skip(n - 1) =~= a.skip(n));
        assert(y.skip(n - 1) =~= b.skip(n));
    } else {
        assert(a.skip(0) =~= a);
        assert(b.skip(0) =~= b);
    }
}

/// The order of two texts by their encoded bytes.
pub open spec fn text_before(a: Seq<char>, b: Seq<char>) -> bool {
    bytes_before(vstd::utf8::encode_utf8(a), vstd::utf8::encode_utf8(b))
}

/// Whether `a` sorts strictly before `b` by encoded bytes.
pub fn is_text_before(a: &str, b: &str) -> (r: bool)
    ensures
        r == text_before(a@, b@),
{
    let x: &[u8] = a.as_bytes();
    let y: &[u8] = b.as_bytes();
    let mut i: usize = 0;
    while i < x.len() && i < y.len() && x[i] == y[i]
        invariant
            i <= x@.len(),
            i <= y@.len(),
            forall|j: int| 0 <= j < i ==> x@[j] == y@[j],
        ensures
            i <= x@.len(),
            i <= y@.len(),
            forall|j: int| 0 <= j < i ==> x@[j] == y@[j],
            i < x@.len() && i < y@.len() ==> x@[i as int] != y@[i as int],
        decreases x@.len() - i,
    {
        i = i + 1;
    }
    proof {
        lemma_common_prefix(x@, y@, i as int);
    }
    if i >= y.len() {
        false
    } else if i >= x.len() {
        true
    } else {
        x[i] < y[i]
    }
}

/// Values with a listing order.
pub trait Ranked: Sized {
    /// Whether `self` is listed strictly before `other`.
    spec fn precedes(self, other: Self) -> bool;

    /// Equal ranks are transitive and the order never runs both ways.
    proof fn order_laws(a: Self, b: Self, c: Self)
        ensures
            a.precedes(b) ==> !b.precedes(a),
            !b.precedes(a) && !c.precedes(b) ==> !c.precedes(a),
    ;
}

/// Ranked values that can be compared.
pub trait PublicationOrder: Ranked {
    /// Whether `self` is listed strictly before `other`.
    fn is_before(&self, other: &Self) -> (r: bool)
        ensures
            r == self.precedes(*other),
    ;
}

/// Whether no later item precedes an earlier one.
pub open spec fn in_publication_order<T: Ranked>(items: Seq<T>) -> bool {
    forall|i: int, j: int|
        0 <= i < j < items.len() ==> !(#[trigger] items[j]).precedes(#[trigger] items[i])
}

/// The first position from `from` on whose item `item` precedes, or the end.
pub open spec fn place<T: Ranked>(item: T, sorted: Seq<T>, from: int) -> int
    decreases sorted.len() - from,
{
    if from >= sorted.len() {
        sorted.len() as int
    } else if item.precedes(sorted[from]) {
        from
    } else {
        place(item, sorted, from + 1)
    }
}

/// The items in listing order; items of equal rank keep their order.
pub open spec fn listed<T: Ranked>(items: Seq<T>) -> Seq<T>
    decreases items.len(),
{
    if items.len() == 0 {
        Seq::empty()
    } else {
        let head = listed(items.drop_last());
        head.insert(place(items.last(), head, 0), items.last())
    }
}

proof fn lemma_place<T: Ranked>(item: T, sorted: Seq<T>, from: int, at: int)
    requires
        0 <= from <= at <= sorted.len(),
        forall|j: int| from <= j < at ==> !item.precedes(#[trigger] sorted[j]),
        at < sorted.len() ==> item.precedes(sorted[at]),
    ensures
        place(item, sorted, from) == at,
    decreases at - from,
{
    if from < at {
        lemma_place(item, sorted, from + 1, at);
    }
}

proof fn lemma_place_range<T: Ranked>(item: T, sorted: Seq<T>, from: int)
    requires
        0 <= from <= sorted.len(),
    ensures
        from <= place(item, sorted, from) <= sorted.len(),
        forall|j: int| from <= j < place(item, sorted, from) ==> !item.precedes(#[trigger] sorted[j]),
        place(item, sorted, from) < sorted.len() ==> item.precedes(sorted[place(item, sorted, from)]),
    decreases sorted.len() - from,
{
    if from < sorted.len() && !item.precedes(sorted[from]) {
        lemma_place_range(item, sorted, from + 1);
    }
}

proof fn lemma_insert_multiset<T>(items: Seq<T>, at: int, item: T)
    requires
        0 <= at <= items.len(),
    ensures
        items.insert(at, item).to_multiset() == items.to_multiset().insert(item),
{
    let after = items.insert(at, item);
    after.to_multiset_ensures();
    assert(after[at] == item);
    assert(after.remove(at) =~= items);
    assert(after.contains(item));
    assert(items.to_multiset() == after.to_multiset().remove(item));
    assert(after.to_multiset() =~= items.to_multiset().insert(item));
}

/// Items already in order are listed as they stand.
pub proof fn law_listing_keeps_sorted_items<T: Ranked>(items: Seq<T>)
    requires
        in_publication_order(items),
    ensures
        listed(items) == items,
    decreases items.len(),
{
    if items.len() > 0 {
        let front = items.drop_last();
        let item = items.last();
        assert forall|i: int, j: int| 0 <= i < j < front.len() implies
            !(#[trigger] front[j]).precedes(#[trigger] front[i]) by {
            assert(front[i] == items[i] && front[j] == items[j]);
        }
        law_listing_keeps_sorted_items(front);
        assert forall|j: int| 0 <= j < front.len() implies !item.precedes(#[trigger] front[j]) by {
            assert(front[j] == items[j] && item == items[items.len() - 1]);
        }
        lemma_place(item, front, 0, front.len() as int);
        assert(front.insert(front.len() as int, item) =~= items);
    } else {
        assert(listed(items) =~= items);
    }
}

/// Whether of any two different items one precedes the other.
pub open spec fn told_apart<T: Ranked>(items: Seq<T>) -> bool {
    forall|a: T, b: T|
        items.contains(a) && items.contains(b) && a != b ==> #[trigger] a.precedes(b)
            || b.precedes(a)
}

proof fn lemma_same_items<T>(a: Seq<T>, b: Seq<T>, item: T)
    requires
        a.to_multiset() == b.to_multiset(),
    ensures
        a.len() == b.len(),
        a.contains(item) <==> b.contains(item),
{
    a.to_multiset_ensures();
    b.to_multiset_ensures();
    assert(a.contains(item) <==> a.to_multiset().count(item) > 0);
    assert(b.contains(item) <==> b.to_multiset().count(item) > 0);
}

proof fn lemma_one_order<T: Ranked>(a: Seq<T>, b: Seq<T>)
    requires
        a.to_multiset() == b.to_multiset(),
        in_publication_order(a),
        in_publication_order(b),
        told_apart(a),
    ensures
        a == b,
    decreases a.len(),
{
    if a.len() == 0 {
        lemma_same_items(a, b, arbitrary());
        assert(a =~= b);
    } else {
        let (x, y) = (a.last(), b.last());
        lemma_same_items(a, b, x);
        lemma_same_items(a, b, y);
        assert(a[a.len() - 1] == x && b[b.len() - 1] == y);
        assert(a.contains(x) && b.contains(y));
        if x != y {
            let i = choose|i: int| 0 <= i < a.len() && a[i] == y;
            let j = choose|j: int| 0 <= j < b.len() && b[j] == x;
            assert(!a[a.len() - 1].precedes(a[i]));
            assert(!b[b.len() - 1].precedes(b[j]));
            assert(x.precedes(y) || y.precedes(x));
        }
        let (front, rest) = (a.drop_last(), b.drop_last());
        a.to_multiset_ensures();
        b.to_multiset_ensures();
        assert(front =~= a.remove(a.len() - 1));
        assert(rest =~= b.remove(b.len() - 1));
        assert forall|p: T, q: T|
            front.contains(p) && front.contains(q) && p != q implies #[trigger] p.precedes(q)
            || q.precedes(p) by {
            let i = choose|i: int| 0 <= i < front.len() && front[i] == p;
            let j = choose|j: int| 0 <= j < front.len() && front[j] == q;
            assert(a[i] == p && a[j] == q);
        }
        assert forall|i: int, j: int| 0 <= i < j < front.len() implies
            !(#[trigger] front[j]).precedes(#[trigger] front[i]) by {
            assert(front[i] == a[i] && front[j] == a[j]);
        }
        assert forall|i: int, j: int| 0 <= i < j < rest.len() implies
            !(#[trigger] rest[j]).precedes(#[trigger] rest[i]) by {
            assert(rest[i] == b[i] && rest[j] == b[j]);
        }
        lemma_one_order(front, rest);
        assert(a =~= front.push(x));
        assert(b =~= rest.push(y));
    }
}

/// The listing depends on which items there are, not on the order in which
/// they came.
pub proof fn law_listing_ignores_arrival_order<T: Ranked>(a: Seq<T>, b: Seq<T>)
    requires
        a.to_multiset() == b.to_multiset(),
        told_apart(a),
    ensures
        listed(a) == listed(b),
{
    law_listing_sorts(a);
    law_listing_sorts(b);
    assert forall|p: T, q: T|
        listed(a).contains(p) && listed(a).contains(q) && p != q implies #[trigger] p.precedes(q)
        || q.precedes(p) by {
        lemma_same_items(a, listed(a), p);
        lemma_same_items(a, listed(a), q);
    }
    lemma_one_order(listed(a), listed(b));
}

/// Listing reorders the items, loses none, and leaves them in order.
pub proof fn law_listing_sorts<T: Ranked>(items: Seq<T>)
    ensures
        in_publication_order(listed(items)),
        listed(items).to_multiset() == items.to_multiset(),
        listed(items).len() == items.len(),
    decreases items.len(),
{
    if items.len() > 0 {
        let front = items.drop_last();
        let item = items.last();
        law_listing_sorts(front);
        let head = listed(front);
        let at = place(item, head, 0);
        lemma_place_range(item, head, 0);
        let after = head.insert(at, item);
        assert forall|i: int, j: int| 0 <= i < j < after.len() implies
            !(#[trigger] after[j]).precedes(#[trigger] after[i]) by {
            let x = if i < at { i } else { i - 1 };
            let y = if j < at { j } else { j - 1 };
            if i != at && j != at {
                assert(after[i] == head[x] && after[j] == head[y]);
            } else if i == at {
                assert(after[j] == head[y]);
                T::order_laws(item, head[at], head[y]);
            }
        }
        lemma_insert_multiset(head, at, item);
        front.to_multiset_ensures();
        assert(items =~= front.push(item));
    } else {
        assert(listed(items) =~= items);
    }
}

/// Listing commutes with a projection that keeps the rank.
pub proof fn lemma_listing_projects<T: Ranked, U: Ranked>(items: Seq<T>, f: spec_fn(T) -> U)
    requires
        forall|a: T, b: T| #![trigger f(a), f(b)] a.precedes(b) == f(a).precedes(f(b)),
    ensures
        listed(items).map_values(f) == listed(items.map_values(f)),
    decreases items.len(),
{
    if items.len() > 0 {
        let front = items.drop_last();
        let item = items.last();
        lemma_listing_projects(front, f);
        let head = listed(front);
        let mapped = items.map_values(f);
        assert(mapped.drop_last() =~= front.map_values(f));
        assert(mapped.last() == f(item));
        lemma_place_range(item, head, 0);
        let at = place(item, head, 0);
        let mapped_head = head.map_values(f);
        assert forall|j: int| 0 <= j < at implies !f(item).precedes(#[trigger] mapped_head[j]) by {
            assert(mapped_head[j] == f(head[j]));
        }
        if at < head.len() {
            assert(mapped_head[at] == f(head[at]));
        }
        lemma_place(f(item), mapped_head, 0, at);
        assert(head.insert(at, item).map_values(f) =~= mapped_head.insert(at, f(item)));
    } else {
        assert(listed(items).map_values(f) =~= listed(items.map_values(f)));
    }
}

/// Reorders `items` into listing order.
pub fn sort_for_listing<T: PublicationOrder>(items: &mut Vec<T>)
    ensures
        final(items)@ == listed(old(items)@),
        in_publication_order(final(items)@),
        final(items)@.to_multiset() == old(items)@.to_multiset(),
{
    let ghost all = items@;
    let mut sorted: Vec<T> = Vec::new();
    let ghost mut taken: int = 0;
    assert(all.skip(0) =~= all);
    assert(sorted@ =~= listed(all.take(0)));
    while items.len() > 0
        invariant
            0 <= taken <= all.len(),
            items@ == all.skip(taken),
            sorted@ == listed(all.take(taken)),
        decreases items@.len(),
    {
        let item: T = items.remove(0);
        let mut at: usize = 0;
        let ghost before = sorted@;
        while at < sorted.len() && !item.is_before(&sorted[at])
            invariant
                at <= sorted@.len(),
                sorted@ == before,
                forall|j: int| 0 <= j < at ==> !item.precedes(#[trigger] before[j]),
            ensures
                at <= sorted@.len(),
                forall|j: int| 0 <= j < at ==> !item.precedes(#[trigger] before[j]),
                at < sorted@.len() ==> item.precedes(before[at as int]),
            decreases sorted@.len() - at,
        {
            at = at + 1;
        }
        proof {
            lemma_place(item, before, 0, at as int);
            assert(all.take(taken + 1).drop_last() =~= all.take(taken));
            assert(all.take(taken + 1).last() == item);
            assert(all.skip(taken + 1) =~= items@);
            taken = taken + 1;
        }
        sorted.insert(at, item);
    }
    proof {
        assert(all.take(all.len() as int) =~= all);
        law_listing_sorts(all);
    }
    *items = sorted;
}

} // verus!
