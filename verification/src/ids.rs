//! Stable receiver identity and ordered collections keyed by it.

use vstd::prelude::*;

use crate::text::{bytes_before, text_before};

verus! {

/// One more than the largest forty-eight-bit identity.
pub const RECEIVER_ID_BOUND: u64 = 0x1_0000_0000_0000;

/// Error raised by domain value validation.
#[derive(Debug, PartialEq, Eq)]
pub enum ModelError {
    /// The input was not exactly twelve uppercase hexadecimal characters.
    InvalidReceiverId(String),
    /// The value was NaN, infinite, or outside `0.0..=1.0`.
    InvalidVolume,
}

/// Stable receiver identity derived from the MAC address.
///
/// The persistent form is exactly twelve uppercase hexadecimal characters
/// (`5855CA1AE288`); the display form is colon separated. The six address
/// bytes are held most significant first in one integer, so the order of
/// identities is the order of their bytes.
#[derive(Clone, Copy, Debug, PartialEq, Eq, PartialOrd, Ord, Hash, Structural)]
pub struct ReceiverId {
    raw: u64,
}

/// The uppercase hexadecimal digit for a value below sixteen.
pub open spec fn hex_digit(n: int) -> char {
    if n == 0 { '0' }
    else if n == 1 { '1' }
    else if n == 2 { '2' }
    else if n == 3 { '3' }
    else if n == 4 { '4' }
    else if n == 5 { '5' }
    else if n == 6 { '6' }
    else if n == 7 { '7' }
    else if n == 8 { '8' }
    else if n == 9 { '9' }
    else if n == 10 { 'A' }
    else if n == 11 { 'B' }
    else if n == 12 { 'C' }
    else if n == 13 { 'D' }
    else if n == 14 { 'E' }
    else { 'F' }
}

/// Whether `c` is a decimal digit or one of `A` to `F`.
pub open spec fn is_upper_hex(c: char) -> bool {
    ('0' <= c && c <= '9') || ('A' <= c && c <= 'F')
}

/// The value of an uppercase hexadecimal digit.
pub open spec fn hex_value(c: char) -> int {
    if c <= '9' { c as int - '0' as int } else { c as int - 'A' as int + 10 }
}

/// The number written by `digits`, most significant first.
pub open spec fn hex_number(digits: Seq<char>) -> int
    decreases digits.len(),
{
    if digits.len() == 0 {
        0
    } else {
        hex_number(digits.drop_last()) * 16 + hex_value(digits.last())
    }
}

/// The `count` lowest hexadecimal digits of `n`, most significant first.
pub open spec fn hex_digits(n: int, count: nat) -> Seq<char>
    decreases count,
{
    if count == 0 {
        Seq::empty()
    } else {
        hex_digits(n / 16, (count - 1) as nat).push(hex_digit(n % 16))
    }
}

/// Whether `text` is a canonical stored identity.
pub open spec fn is_storage_key(text: Seq<char>) -> bool {
    &&& text.len() == 12
    &&& forall|i: int| 0 <= i < text.len() ==> is_upper_hex(#[trigger] text[i])
}

/// Sixteen to the power `n`.
spec fn pow16(n: nat) -> int
    decreases n,
{
    if n == 0 { 1 } else { 16 * pow16((n - 1) as nat) }
}

proof fn lemma_pow16_twelve()
    ensures
        pow16(12) == RECEIVER_ID_BOUND,
{
    reveal_with_fuel(pow16, 13);
}

proof fn lemma_hex_value_of_digit(n: int)
    requires
        0 <= n < 16,
    ensures
        hex_value(hex_digit(n)) == n,
        is_upper_hex(hex_digit(n)),
{
}

proof fn lemma_hex_digit_of_value(c: char)
    requires
        is_upper_hex(c),
    ensures
        hex_digit(hex_value(c)) == c,
        0 <= hex_value(c) < 16,
{
}

/// Reading written digits gives back the number.
proof fn lemma_number_of_digits(n: int, count: nat)
    requires
        0 <= n < pow16(count),
    ensures
        hex_number(hex_digits(n, count)) == n,
        hex_digits(n, count).len() == count,
        forall|i: int| 0 <= i < count ==> is_upper_hex(#[trigger] hex_digits(n, count)[i]),
    decreases count,
{
    if count > 0 {
        let head = hex_digits(n / 16, (count - 1) as nat);
        assert(0 <= n / 16 < pow16((count - 1) as nat)) by (nonlinear_arith)
            requires
                0 <= n < 16 * pow16((count - 1) as nat),
        ;
        lemma_number_of_digits(n / 16, (count - 1) as nat);
        lemma_hex_value_of_digit(n % 16);
        assert(hex_digits(n, count).drop_last() =~= head);
    }
}

/// Writing a number that was read gives back its digits.
proof fn lemma_digits_of_number(text: Seq<char>)
    requires
        forall|i: int| 0 <= i < text.len() ==> is_upper_hex(#[trigger] text[i]),
    ensures
        0 <= hex_number(text) < pow16(text.len()),
        hex_digits(hex_number(text), text.len()) == text,
    decreases text.len(),
{
    if text.len() > 0 {
        let head = text.drop_last();
        lemma_digits_of_number(head);
        lemma_hex_digit_of_value(text.last());
        let n = hex_number(text);
        assert(n / 16 == hex_number(head) && n % 16 == hex_value(text.last()));
        assert(hex_digits(n, text.len()) =~= text);
    } else {
        assert(hex_digits(0, 0) =~= text);
    }
}

impl ReceiverId {
    /// The address as one integer.
    pub closed spec fn key(self) -> u64 {
        self.raw
    }

    /// Whether the address fits in six bytes; holds of every constructed value.
    pub open spec fn valid(self) -> bool {
        self.key() < RECEIVER_ID_BOUND
    }

    #[verifier::type_invariant]
    spec fn inv(self) -> bool {
        self.raw < RECEIVER_ID_BOUND
    }

    /// The canonical persistent form.
    pub open spec fn storage_text(self) -> Seq<char> {
        hex_digits(self.key() as int, 12)
    }

    /// The colon separated display form.
    pub open spec fn display_text(self) -> Seq<char> {
        let t = self.storage_text();
        seq![
            t[0], t[1], ':', t[2], t[3], ':', t[4], t[5], ':',
            t[6], t[7], ':', t[8], t[9], ':', t[10], t[11],
        ]
    }

    /// The address as one integer.
    pub fn as_u64(self) -> (r: u64)
        ensures
            r == self.key(),
            self.valid(),
    {
        proof { use_type_invariant(&self); }
        self.raw
    }

    /// The identity with the given forty-eight-bit address.
    pub fn from_u64(raw: u64) -> (r: Self)
        requires
            raw < RECEIVER_ID_BOUND,
        ensures
            r.key() == raw,
    {
        ReceiverId { raw }
    }

    /// Parses the persistent twelve-uppercase-hex-character form.
    ///
    /// Lowercase digits, wrong lengths, separators, and non-hexadecimal
    /// characters are rejected so stored identities stay canonical.
    pub fn from_storage_key(value: &str) -> (r: Result<Self, ModelError>)
        ensures
            r is Ok <==> is_storage_key(value@),
            r matches Ok(id) ==> id.valid() && id.storage_text() == value@,
            r matches Err(e) ==> e matches ModelError::InvalidReceiverId(text) && text@ == value@,
    {
        let count: usize = value.unicode_len();
        if count != 12 {
            return Err(ModelError::InvalidReceiverId(value.to_owned()));
        }
        let mut raw: u64 = 0;
        let mut i: usize = 0;
        proof {
            reveal_with_fuel(pow16, 13);
            assert(value@.take(0) =~= Seq::<char>::empty());
        }
        while i < 12
            invariant
                i <= 12,
                value@.len() == 12,
                forall|j: int| 0 <= j < i ==> is_upper_hex(#[trigger] value@[j]),
                raw == hex_number(value@.take(i as int)),
                raw < pow16(i as nat),
                pow16(i as nat) <= pow16(12),
                pow16(12) == RECEIVER_ID_BOUND,
            decreases 12 - i,
        {
            let c: char = value.get_char(i);
            let digit: u64;
            if '0' <= c && c <= '9' {
                digit = c as u64 - '0' as u64;
            } else if 'A' <= c && c <= 'F' {
                digit = c as u64 - 'A' as u64 + 10;
            } else {
                return Err(ModelError::InvalidReceiverId(value.to_owned()));
            }
            proof {
                reveal_with_fuel(pow16, 13);
                assert(value@.take(i + 1).drop_last() =~= value@.take(i as int));
                assert(value@.take(i + 1).last() == value@[i as int]);
            }
            raw = raw * 16 + digit;
            i = i + 1;
        }
        proof {
            assert(value@.take(12) =~= value@);
            lemma_digits_of_number(value@);
        }
        Ok(ReceiverId { raw })
    }

    /// Returns the canonical persistent form: twelve uppercase hex characters.
    pub fn storage_key(self) -> (r: String)
        ensures
            r@ == self.storage_text(),
    {
        proof {
            use_type_invariant(&self);
        }
        let mut text: String = String::new();
        let mut shift: u64 = 0x1000_0000_0000;
        let mut i: usize = 0;
        proof {
            reveal_with_fuel(pow16, 13);
            lemma_pow16_twelve();
        }
        while i < 12
            invariant
                i <= 12,
                self.raw < pow16(12),
                i < 12 ==> shift == pow16((11 - i) as nat),
                text@ == hex_digits(self.raw as int / pow16((12 - i) as nat), i as nat),
            decreases 12 - i,
        {
            proof {
                let n = self.raw as int;
                let p = pow16((11 - i) as nat);
                assert(pow16((12 - i) as nat) == 16 * p);
                reveal_with_fuel(pow16, 13);
                assert((n / p) / 16 == n / (p * 16)) by {
                    vstd::arithmetic::div_mod::lemma_div_denominator(n, p, 16);
                }
                assert(p * 16 == 16 * p);
                assert(0 < p);
            }
            let digit: u64 = (self.raw / shift) % 16;
            text.append(hex_digit_text(digit));
            proof {
                let p = pow16((11 - i) as nat);
                assert(hex_digits(self.raw as int / p, (i + 1) as nat)
                    == hex_digits((self.raw as int / p) / 16, i as nat).push(hex_digit(digit as int)));
                if i < 11 {
                    assert(pow16((11 - i) as nat) == 16 * pow16((10 - i) as nat));
                }
            }
            shift = shift / 16;
            i = i + 1;
        }
        proof {
            assert(self.raw as int / pow16(0) == self.raw as int);
        }
        text
    }

    /// Renders the colon separated display form.
    pub fn to_string(self) -> (r: String)
        ensures
            r@ == self.display_text(),
    {
        let key: String = self.storage_key();
        proof {
            use_type_invariant(&self);
            lemma_pow16_twelve();
            lemma_number_of_digits(self.raw as int, 12);
            reveal_strlit(":");
        }
        let mut text: String = String::new();
        let mut i: usize = 0;
        let ghost t = key@;
        while i < 6
            invariant
                i <= 6,
                key@ == t,
                t.len() == 12,
                ":"@ == seq![':'],
                text@ == self.display_text().take(if i == 0 { 0 } else { 3 * i - 1 }),
                self.display_text().len() == 17,
                t == self.storage_text(),
            decreases 6 - i,
        {
            if i > 0 {
                text.append(":");
            }
            text.append(key.as_str().substring_char(2 * i, 2 * i + 2));
            proof {
                assert(text@ =~= self.display_text().take(3 * i + 2));
            }
            i = i + 1;
        }
        proof {
            assert(self.display_text().take(17) =~= self.display_text());
        }
        text
    }

    /// The identity with the given address bytes.
    pub fn from_bytes(bytes: [u8; 6]) -> (r: Self)
        ensures
            r.valid(),
            r.key() == bytes@[0] * 0x100_0000_0000 + bytes@[1] * 0x1_0000_0000
                + bytes@[2] * 0x100_0000 + bytes@[3] * 0x1_0000 + bytes@[4] * 0x100 + bytes@[5],
    {
        let raw: u64 = bytes[0] as u64 * 0x100_0000_0000 + bytes[1] as u64 * 0x1_0000_0000
            + bytes[2] as u64 * 0x100_0000 + bytes[3] as u64 * 0x1_0000 + bytes[4] as u64 * 0x100
            + bytes[5] as u64;
        ReceiverId { raw }
    }

    /// The address bytes, most significant first.
    pub fn to_bytes(self) -> (r: [u8; 6])
        ensures
            self.key() == r@[0] * 0x100_0000_0000 + r@[1] * 0x1_0000_0000
                + r@[2] * 0x100_0000 + r@[3] * 0x1_0000 + r@[4] * 0x100 + r@[5],
    {
        proof { use_type_invariant(&self); }
        let q5: u64 = self.raw / 0x100;
        let q4: u64 = q5 / 0x100;
        let q3: u64 = q4 / 0x100;
        let q2: u64 = q3 / 0x100;
        let q1: u64 = q2 / 0x100;
        [
            q1 as u8,
            (q2 % 0x100) as u8,
            (q3 % 0x100) as u8,
            (q4 % 0x100) as u8,
            (q5 % 0x100) as u8,
            (self.raw % 0x100) as u8,
        ]
    }
}

/// The one-character text of a hexadecimal digit.
fn hex_digit_text(digit: u64) -> (r: &'static str)
    requires
        digit < 16,
    ensures
        r@ == seq![hex_digit(digit as int)],
{
    proof {
        reveal_strlit("0");
        reveal_strlit("1");
        reveal_strlit("2");
        reveal_strlit("3");
        reveal_strlit("4");
        reveal_strlit("5");
        reveal_strlit("6");
        reveal_strlit("7");
        reveal_strlit("8");
        reveal_strlit("9");
        reveal_strlit("A");
        reveal_strlit("B");
        reveal_strlit("C");
        reveal_strlit("D");
        reveal_strlit("E");
        reveal_strlit("F");
    }
    match digit {
        0 => "0",
        1 => "1",
        2 => "2",
        3 => "3",
        4 => "4",
        5 => "5",
        6 => "6",
        7 => "7",
        8 => "8",
        9 => "9",
        10 => "A",
        11 => "B",
        12 => "C",
        13 => "D",
        14 => "E",
        _ => "F",
    }
}

/// An identity is determined by its address.
pub broadcast proof fn lemma_key_identifies(a: ReceiverId, b: ReceiverId)
    ensures
        #[trigger] a.key() == #[trigger] b.key() ==> a == b,
{
}

/// Every identity has a canonical stored form, and no two share one.
pub proof fn law_storage_key_is_canonical_and_unique(a: ReceiverId, b: ReceiverId)
    requires
        a.valid(),
        b.valid(),
    ensures
        is_storage_key(a.storage_text()),
        a.storage_text() == b.storage_text() ==> a == b,
{
    lemma_pow16_twelve();
    lemma_number_of_digits(a.key() as int, 12);
    lemma_number_of_digits(b.key() as int, 12);
}

/// The last of two rows of bytes decides only where all the others agree.
proof fn lemma_last_byte_decides(a: Seq<u8>, b: Seq<u8>, x: u8, y: u8)
    requires
        a.len() == b.len(),
    ensures
        bytes_before(a.push(x), b.push(y)) <==> bytes_before(a, b) || (a == b && x < y),
    decreases a.len(),
{
    let p = a.push(x);
    let q = b.push(y);
    if a.len() == 0 {
        assert(a =~= b);
        assert(p.drop_first() =~= Seq::<u8>::empty());
        assert(q.drop_first() =~= Seq::<u8>::empty());
        assert(!bytes_before(p.drop_first(), q.drop_first()));
        assert(p[0] == x && q[0] == y);
    } else if a[0] == b[0] {
        lemma_last_byte_decides(a.drop_first(), b.drop_first(), x, y);
        assert(p.drop_first() =~= a.drop_first().push(x));
        assert(q.drop_first() =~= b.drop_first().push(y));
        assert(a =~= seq![a[0]] + a.drop_first());
        assert(b =~= seq![b[0]] + b.drop_first());
        assert(p[0] == a[0] && q[0] == b[0]);
    } else {
        assert(p[0] == a[0] && q[0] == b[0]);
    }
}

/// The bytes of a row of hexadecimal digits.
spec fn digit_bytes(digits: Seq<char>) -> Seq<u8> {
    Seq::new(digits.len(), |i: int| digits[i] as u8)
}

/// Rows of equally many digits sort by their bytes as by their numbers.
proof fn lemma_digits_sort_as_numbers(a: Seq<char>, b: Seq<char>)
    requires
        a.len() == b.len(),
        forall|i: int| 0 <= i < a.len() ==> is_upper_hex(#[trigger] a[i]),
        forall|i: int| 0 <= i < b.len() ==> is_upper_hex(#[trigger] b[i]),
    ensures
        bytes_before(digit_bytes(a), digit_bytes(b)) <==> hex_number(a) < hex_number(b),
        digit_bytes(a) == digit_bytes(b) <==> hex_number(a) == hex_number(b),
    decreases a.len(),
{
    if a.len() == 0 {
        assert(digit_bytes(a) =~= digit_bytes(b));
    } else {
        let (x, y) = (a.drop_last(), b.drop_last());
        lemma_digits_sort_as_numbers(x, y);
        lemma_hex_digit_of_value(a.last());
        lemma_hex_digit_of_value(b.last());
        lemma_last_byte_decides(digit_bytes(x), digit_bytes(y), a.last() as u8, b.last() as u8);
        assert(digit_bytes(a) =~= digit_bytes(x).push(a.last() as u8));
        assert(digit_bytes(b) =~= digit_bytes(y).push(b.last() as u8));
        assert(digit_bytes(a).drop_last() =~= digit_bytes(x));
        assert(digit_bytes(b).drop_last() =~= digit_bytes(y));
        assert(digit_bytes(a).last() == a.last() as u8);
        assert(digit_bytes(b).last() == b.last() as u8);
    }
}

proof fn lemma_digits_are_ascii(digits: Seq<char>)
    requires
        forall|i: int| 0 <= i < digits.len() ==> is_upper_hex(#[trigger] digits[i]),
    ensures
        vstd::utf8::encode_utf8(digits) == digit_bytes(digits),
{
    vstd::utf8::is_ascii_chars_encode_utf8(digits);
    assert(vstd::utf8::encode_utf8(digits) =~= digit_bytes(digits));
}

/// Identities sort as their stored forms do, byte by byte.
pub proof fn law_identities_sort_as_their_stored_forms(a: ReceiverId, b: ReceiverId)
    requires
        a.valid(),
        b.valid(),
    ensures
        a.key() < b.key() <==> text_before(a.storage_text(), b.storage_text()),
{
    lemma_pow16_twelve();
    lemma_number_of_digits(a.key() as int, 12);
    lemma_number_of_digits(b.key() as int, 12);
    lemma_digits_are_ascii(a.storage_text());
    lemma_digits_are_ascii(b.storage_text());
    lemma_digits_sort_as_numbers(a.storage_text(), b.storage_text());
}

/// The stored form of every canonical text is that text again.
pub proof fn law_storage_key_round_trip(text: Seq<char>)
    requires
        is_storage_key(text),
    ensures
        0 <= hex_number(text) < RECEIVER_ID_BOUND,
        hex_digits(hex_number(text), 12) == text,
{
    lemma_pow16_twelve();
    lemma_digits_of_number(text);
}

/// A stored identity is twelve uppercase hexadecimal digits that spell its
/// address, most significant first; the displayed form sets a colon between
/// every two of them.
pub proof fn law_identities_spell_their_address(a: ReceiverId, digits: Seq<char>, next: char, i: int)
    requires
        a.valid(),
    ensures
        a.storage_text().len() == 12,
        hex_number(a.storage_text()) == a.key(),
        a.key() < 281_474_976_710_656,
        0 <= i < 12 ==> ('0' <= a.storage_text()[i] <= '9' || 'A' <= a.storage_text()[i] <= 'F'),
        hex_number(Seq::empty()) == 0,
        '0' <= next <= '9' ==> hex_number(digits.push(next)) == 16 * hex_number(digits) + (
        next as int - 48),
        'A' <= next <= 'F' ==> hex_number(digits.push(next)) == 16 * hex_number(digits) + (
        next as int - 55),
        a.display_text().len() == 17,
        0 <= i < 17 && i % 3 == 2 ==> a.display_text()[i] == ':',
        0 <= i < 17 && i % 3 != 2 ==> a.display_text()[i] == a.storage_text()[i - i / 3],
{
    lemma_pow16_twelve();
    lemma_number_of_digits(a.key() as int, 12);
    assert(digits.push(next).drop_last() =~= digits);
    if 0 <= i < 12 {
        assert(is_upper_hex(a.storage_text()[i]));
    }
}

} // verus!
