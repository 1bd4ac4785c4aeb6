//! Identifiers. A UUID is held as the 128-bit number whose big-endian bytes
//! are the UUID's bytes (`Uuid::as_u128`); the `uuid` crate draws, prints
//! and parses them.
use vstd::prelude::*;
use vstd::utf8::{encode_utf8, is_ascii_chars, is_ascii_chars_encode_utf8};
use crate::text::{all_hex, hex_digit, hex_fixed, is_hex_char, lemma_hex_fixed};

verus! {

/// The simple form of a UUID: 32 lower-case hexadecimal digits.
pub open spec fn uuid_simple(u: u128) -> Seq<char> {
    hex_fixed(u as nat, 32)
}

/// The hyphenated form of a UUID, as `Uuid`'s `Display` prints it:
/// lower-case hexadecimal in groups of 8-4-4-4-12 digits.
pub open spec fn uuid_hyphenated(u: u128) -> Seq<char> {
    let s = uuid_simple(u);
    s.subrange(0, 8) + seq!['-'] + s.subrange(8, 12) + seq!['-'] + s.subrange(12, 16) + seq!['-']
        + s.subrange(16, 20) + seq!['-'] + s.subrange(20, 32)
}

/// The value of an ASCII hexadecimal digit (either case), as
/// `Uuid::parse_str` reads it.
pub open spec fn hex_value(b: u8) -> Option<nat> {
    if 48 <= b <= 57 {
        Some((b - 48) as nat)
    } else if 97 <= b <= 102 {
        Some((b - 87) as nat)
    } else if 65 <= b <= 70 {
        Some((b - 55) as nat)
    } else {
        None
    }
}

/// The number a string of hexadecimal digits spells, most significant
/// first; nothing if any byte is not a digit.
pub open spec fn hex_number(bytes: Seq<u8>) -> Option<nat>
    decreases bytes.len(),
{
    if bytes.len() == 0 {
        Some(0)
    } else {
        match (hex_number(bytes.drop_last()), hex_value(bytes.last())) {
            (Some(high), Some(low)) => Some(high * 16 + low),
            _ => None,
        }
    }
}

/// Position in a hyphenated UUID of its `i`-th hexadecimal digit.
pub open spec fn hyphenated_index(i: int) -> int {
    if i < 8 {
        i
    } else if i < 12 {
        i + 1
    } else if i < 16 {
        i + 2
    } else if i < 20 {
        i + 3
    } else {
        i + 4
    }
}

/// A hyphenated UUID: 36 bytes, hyphens at 8, 13, 18 and 23, hexadecimal
/// digits elsewhere.
pub open spec fn parse_hyphenated(b: Seq<u8>) -> Option<u128> {
    if b.len() == 36 && b[8] == 45 && b[13] == 45 && b[18] == 45 && b[23] == 45 {
        match hex_number(Seq::new(32, |i: int| b[hyphenated_index(i)])) {
            Some(v) => Some(v as u128),
            None => None,
        }
    } else {
        None
    }
}

/// An ASCII letter lower-cased.
pub open spec fn ascii_lower(b: u8) -> u8 {
    if 65 <= b <= 90 {
        (b + 32) as u8
    } else {
        b
    }
}

/// `Uuid::parse_str` on the bytes of a string: 32 hexadecimal digits; a
/// hyphenated UUID; one in braces; or one behind `urn:uuid:` (in any
/// case). Digits may be of either case.
pub open spec fn spec_uuid_parse(b: Seq<u8>) -> Option<u128> {
    if b.len() == 32 {
        match hex_number(b) {
            Some(v) => Some(v as u128),
            None => None,
        }
    } else if b.len() == 36 {
        parse_hyphenated(b)
    } else if b.len() == 38 && b[0] == 123 && b[37] == 125 {
        parse_hyphenated(b.subrange(1, 37))
    } else if b.len() == 45 && Seq::new(9, |i: int| ascii_lower(b[i])) == "urn:uuid:"@.map_values(|c: char| c as u8) {
        parse_hyphenated(b.subrange(9, 45))
    } else {
        None
    }
}

/// A UUID drawn at random by [`new_v4`]; no other function makes one, so
/// an id held as one was drawn, not computed.
pub struct RandomUuid {
    value: u128,
}

impl RandomUuid {
    /// The drawn UUID.
    pub closed spec fn spec_value(self) -> u128 {
        self.value
    }

    pub fn value(&self) -> (r: u128)
        ensures
            r == self.spec_value(),
    {
        self.value
    }
}

/// `u` is a version-4 UUID of the RFC 4122 variant: its version nibble is
/// 4 and its two variant bits are `10`.
pub open spec fn is_v4_uuid(u: u128) -> bool {
    (u >> 76u128) & 0xfu128 == 4u128 && (u >> 62u128) & 0x3u128 == 2u128
}

/// `u` was drawn at random: it is the value of a [`RandomUuid`].
pub open spec fn is_drawn_uuid(u: u128) -> bool {
    exists|d: RandomUuid| #[trigger] d.spec_value() == u
}

/// `Uuid::new_v4`: a random UUID, with the version nibble set to 4 and the
/// variant bits to `10` (it masks random bits with
/// `0xFFFFFFFFFFFF4FFFBFFFFFFFFFFFFFFF` and sets
/// `0x40008000000000000000`). Which bits are random is not claimed.
#[verifier::external_body]
pub(crate) fn new_v4() -> (r: RandomUuid)
    ensures
        is_v4_uuid(r.spec_value()),
{
    RandomUuid { value: uuid::Uuid::new_v4().as_u128() }
}

/// A freshly drawn UUID, as its number: drawn at random, version 4.
pub(crate) fn fresh_uuid() -> (r: u128)
    ensures
        is_drawn_uuid(r),
        is_v4_uuid(r),
{
    let d = new_v4();
    d.value()
}

/// `Uuid::to_string` (its `Display`): the hyphenated lower-case form.
#[verifier::external_body]
pub(crate) fn format_hyphenated(u: u128) -> (r: String)
    ensures
        r@ == uuid_hyphenated(u),
{
    uuid::Uuid::from_u128(u).to_string()
}

/// `Uuid::simple().to_string()`: the 32-digit lower-case form.
#[verifier::external_body]
pub(crate) fn format_simple(u: u128) -> (r: String)
    ensures
        r@ == uuid_simple(u),
{
    uuid::Uuid::from_u128(u).simple().to_string()
}

/// `Uuid::parse_str`, with the error dropped: the UUID the string
/// spells in one of the accepted forms.
#[verifier::external_body]
pub(crate) fn parse(s: &str) -> (r: Option<u128>)
    ensures
        r == spec_uuid_parse(encode_utf8(s@)),
{
    uuid::Uuid::parse_str(s).ok().map(|u| u.as_u128())
}

pub proof fn lemma_uuid_simple(u: u128)
    ensures
        uuid_simple(u).len() == 32,
        all_hex(uuid_simple(u)),
{
    lemma_hex_fixed(u as nat, 32);
}

/// `16` to the power `w`.
pub open spec fn pow16(w: nat) -> nat
    decreases w,
{
    if w == 0 {
        1
    } else {
        16 * pow16((w - 1) as nat)
    }
}

pub open spec fn ascii_bytes(s: Seq<char>) -> Seq<u8> {
    s.map_values(|c: char| c as u8)
}

proof fn lemma_hex_digit_value(n: nat)
    requires
        n < 16,
    ensures
        hex_value(hex_digit(n) as u8) == Some(n),
{
}

/// Reading back the digits [`hex_fixed`] writes gives the number written.
proof fn lemma_hex_fixed_reads_back(v: nat, width: nat)
    requires
        v < pow16(width),
    ensures
        hex_number(ascii_bytes(hex_fixed(v, width))) == Some(v),
    decreases width,
{
    if width > 0 {
        let w1 = (width - 1) as nat;
        assert(v / 16 < pow16(w1));
        lemma_hex_fixed_reads_back(v / 16, w1);
        lemma_hex_digit_value(v % 16);
        let prefix = hex_fixed(v / 16, w1);
        assert(ascii_bytes(hex_fixed(v, width)).drop_last() =~= ascii_bytes(prefix));
    }
}

proof fn lemma_pow16_32()
    ensures
        pow16(32) == 0x1_0000_0000_0000_0000_0000_0000_0000_0000,
{
    reveal_with_fuel(pow16, 33);
}

/// The hyphenated form of a UUID parses back to that UUID.
pub proof fn lemma_uuid_hyphenated_parses(u: u128)
    ensures
        spec_uuid_parse(encode_utf8(uuid_hyphenated(u))) == Some(u),
{
    let s = uuid_simple(u);
    let h = uuid_hyphenated(u);
    lemma_uuid_simple(u);
    assert forall|i: int| 0 <= i < h.len() implies '\0' <= #[trigger] h[i] <= '\u{7f}' by {
        if i < 8 {
            assert(h[i] == s[i]);
        } else if i == 8 {
        } else if i < 13 {
            assert(h[i] == s[i - 1]);
        } else if i == 13 {
        } else if i < 18 {
            assert(h[i] == s[i - 2]);
        } else if i == 18 {
        } else if i < 23 {
            assert(h[i] == s[i - 3]);
        } else if i == 23 {
        } else {
            assert(h[i] == s[i - 4]);
        }
        assert(h[i] == '-' || is_hex_char(h[i]));
    }
    assert(is_ascii_chars(h));
    is_ascii_chars_encode_utf8(h);
    let b = encode_utf8(h);
    assert(b.len() == 36);
    assert(b[8] == h[8] as u8);
    assert(b[13] == h[13] as u8);
    assert(b[18] == h[18] as u8);
    assert(b[23] == h[23] as u8);
    let gathered = Seq::new(32, |i: int| b[hyphenated_index(i)]);
    assert forall|i: int| 0 <= i < 32 implies #[trigger] gathered[i] == ascii_bytes(s)[i] by {
        let j = hyphenated_index(i);
        assert(b[j] == h[j] as u8);
        assert(h[j] == s[i]);
    }
    assert(gathered =~= ascii_bytes(s));
    lemma_pow16_32();
    lemma_hex_fixed_reads_back(u as nat, 32);
}

} // verus!
