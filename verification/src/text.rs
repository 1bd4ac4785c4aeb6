//! Text primitives: trimming, prefix stripping, lower-casing and number
//! parsing with the meaning the standard library gives them, and the
//! decimal and hexadecimal spellings used for identifiers and digests.
use vstd::prelude::*;
use vstd::string::*;
use vstd::std_specs::iter::IteratorSpec;

verus! {

/// The Unicode `White_Space` property, which `str::trim` strips.
pub open spec fn is_unicode_whitespace(c: char) -> bool {
    let v = c as u32;
    ||| 0x9 <= v <= 0xd
    ||| v == 0x20
    ||| v == 0x85
    ||| v == 0xa0
    ||| v == 0x1680
    ||| 0x2000 <= v <= 0x200a
    ||| v == 0x2028
    ||| v == 0x2029
    ||| v == 0x202f
    ||| v == 0x205f
    ||| v == 0x3000
}

pub open spec fn trim_start(s: Seq<char>) -> Seq<char>
    decreases s.len(),
{
    if s.len() > 0 && is_unicode_whitespace(s[0]) {
        trim_start(s.drop_first())
    } else {
        s
    }
}

pub open spec fn trim_end(s: Seq<char>) -> Seq<char>
    decreases s.len(),
{
    if s.len() > 0 && is_unicode_whitespace(s.last()) {
        trim_end(s.drop_last())
    } else {
        s
    }
}

/// `s` without its leading and trailing whitespace.
pub open spec fn spec_trim(s: Seq<char>) -> Seq<char> {
    trim_end(trim_start(s))
}

/// The characters of `s`, in order.
fn chars_of(s: &str) -> (v: Vec<char>)
    ensures
        v@ == s@,
{
    let mut it = s.chars();
    let mut v: Vec<char> = Vec::new();
    loop
        invariant
            v@ + it.remaining() == s@,
            it.obeys_prophetic_iter_laws(),
        ensures
            v@ == s@,
        decreases s@.len() - v@.len(),
    {
        let ghost before = it.remaining();
        match it.next() {
            Some(c) => {
                v.push(c);
                assert(v@ + it.remaining() =~= s@) by {
                    assert(before == seq![c] + it.remaining());
                }
            },
            None => {
                assert(v@ + it.remaining() =~= v@);
                break;
            },
        }
    }
    v
}

/// Whether `c` is Unicode `White_Space`.
fn is_whitespace(c: char) -> (r: bool)
    ensures
        r == is_unicode_whitespace(c),
{
    let v = c as u32;
    (0x9 <= v && v <= 0xd) || v == 0x20 || v == 0x85 || v == 0xa0 || v == 0x1680 || (0x2000 <= v && v <= 0x200a)
        || v == 0x2028 || v == 0x2029 || v == 0x202f || v == 0x205f || v == 0x3000
}

/// `s` with leading and trailing Unicode whitespace removed, as
/// `str::trim` does.
pub(crate) fn trim<'a>(s: &'a str) -> (r: &'a str)
    ensures
        r@ == spec_trim(s@),
{
    let chars = chars_of(s);
    let n = chars.len();
    let mut start: usize = 0;
    assert(s@.subrange(0, n as int) =~= s@);
    while start < n && is_whitespace(chars[start])
        invariant
            chars@ == s@,
            n == s@.len(),
            start <= n,
            trim_start(s@) == trim_start(s@.subrange(start as int, n as int)),
        decreases n - start,
    {
        assert(s@.subrange(start as int, n as int).drop_first() =~= s@.subrange(start + 1, n as int));
        start = start + 1;
    }
    assert(trim_start(s@) == s@.subrange(start as int, n as int));
    let mut end: usize = n;
    while end > start && is_whitespace(chars[end - 1])
        invariant
            chars@ == s@,
            n == s@.len(),
            start <= end <= n,
            spec_trim(s@) == trim_end(s@.subrange(start as int, end as int)),
        decreases end,
    {
        assert(s@.subrange(start as int, end as int).drop_last() =~= s@.subrange(start as int, end - 1));
        end = end - 1;
    }
    s.substring_char(start, end)
}

/// The rest of `s` after `prefix`, when `s` starts with it, as
/// `str::strip_prefix` does with a string pattern.
pub(crate) fn strip_prefix<'a>(s: &'a str, prefix: &str) -> (r: Option<&'a str>)
    ensures
        r is Some <==> prefix@.is_prefix_of(s@),
        r matches Some(t) ==> t@ == s@.skip(prefix@.len() as int),
{
    let chars = chars_of(s);
    let head = chars_of(prefix);
    if head.len() > chars.len() {
        return None;
    }
    let mut i: usize = 0;
    while i < head.len()
        invariant
            chars@ == s@,
            head@ == prefix@,
            head.len() <= chars.len(),
            i <= head.len(),
            forall|j: int| 0 <= j < i ==> head@[j] == chars@[j],
        decreases head.len() - i,
    {
        if head[i] != chars[i] {
            return None;
        }
        i = i + 1;
    }
    assert(prefix@ =~= s@.subrange(0, prefix@.len() as int));
    Some(s.substring_char(head.len(), chars.len()))
}

/// What `str::to_lowercase` makes of a string (full Unicode case mapping).
pub uninterp spec fn lowercase_of(s: Seq<char>) -> Seq<char>;

/// `str::to_lowercase`; the result is named, not spelled out. Every
/// character lower-cases to one or more characters, so the result is
/// empty exactly when the input is.
#[verifier::external_body]
pub(crate) fn to_lowercase(s: &str) -> (r: String)
    ensures
        r@ == lowercase_of(s@),
        r@.len() == 0 <==> s@.len() == 0,
{
    s.to_lowercase()
}

pub open spec fn is_ascii_digit(c: char) -> bool {
    '0' <= c && c <= '9'
}

/// The number that a sequence of decimal digits spells.
pub open spec fn decimal_value(s: Seq<char>) -> nat
    decreases s.len(),
{
    if s.len() == 0 {
        0
    } else {
        decimal_value(s.drop_last()) * 10 + ((s.last() as nat) - ('0' as nat)) as nat
    }
}

/// `u16::from_str`: an optional `+`, then one or more decimal digits whose
/// value fits in 16 bits; anything else is rejected.
/// `s` without a leading `+`.
pub open spec fn unsigned_digits(s: Seq<char>) -> Seq<char> {
    if s.len() > 0 && s[0] == '+' { s.drop_first() } else { s }
}

pub open spec fn spec_parse_u16(s: Seq<char>) -> Option<u16> {
    let digits = unsigned_digits(s);
    if digits.len() > 0 && (forall|i: int| 0 <= i < digits.len() ==> is_ascii_digit(#[trigger] digits[i]))
        && decimal_value(digits) <= 0xffff {
        Some(decimal_value(digits) as u16)
    } else {
        None
    }
}

/// The number `s` spells as `u16::from_str` reads it: an optional `+`,
/// then one or more decimal digits, at most `u16::MAX`.
pub(crate) fn parse_u16(s: &str) -> (r: Option<u16>)
    ensures
        r == spec_parse_u16(s@),
{
    let chars = chars_of(s);
    let n = chars.len();
    let first: usize = if n > 0 && chars[0] == '+' { 1 } else { 0 };
    let ghost digits = unsigned_digits(s@);
    assert(digits =~= s@.subrange(first as int, n as int));
    if first == n {
        return None;
    }
    let mut value: u32 = 0;
    let mut i: usize = first;
    while i < n
        invariant
            chars@ == s@,
            n == s@.len(),
            first <= i <= n,
            digits == unsigned_digits(s@),
            digits == s@.subrange(first as int, n as int),
            forall|j: int| first <= j < i ==> is_ascii_digit(#[trigger] s@[j]),
            value as nat == decimal_value(s@.subrange(first as int, i as int)),
            value <= 0xffff,
        decreases n - i,
    {
        let c = chars[i];
        assert(s@.subrange(first as int, i + 1).drop_last() =~= s@.subrange(first as int, i as int));
        if c < '0' || c > '9' {
            assert(!is_ascii_digit(digits[i - first]));
            return None;
        }
        let d = (c as u32) - ('0' as u32);
        let next = value * 10 + d;
        if next > 0xffff {
            proof {
                if forall|j: int| 0 <= j < digits.len() ==> is_ascii_digit(#[trigger] digits[j]) {
                    lemma_decimal_prefix_grows(digits, (i + 1 - first) as int);
                    assert(digits.subrange(0, (i + 1 - first) as int) =~= s@.subrange(first as int, i + 1));
                    assert(decimal_value(s@.subrange(first as int, i + 1)) == next);
                }
                assert(spec_parse_u16(s@) is None);
            }
            return None;
        }
        value = next;
        i = i + 1;
    }
    assert(s@.subrange(first as int, n as int) =~= s@.subrange(first as int, i as int));
    Some(value as u16)
}

/// A number spelled by decimal digits is at least the number spelled by
/// any of its prefixes.
proof fn lemma_decimal_prefix_grows(s: Seq<char>, k: int)
    requires
        0 <= k <= s.len(),
        forall|j: int| 0 <= j < s.len() ==> is_ascii_digit(#[trigger] s[j]),
    ensures
        decimal_value(s.subrange(0, k)) <= decimal_value(s),
    decreases s.len() - k,
{
    if k < s.len() {
        lemma_decimal_prefix_grows(s, k + 1);
        let longer = s.subrange(0, k + 1);
        assert(longer.drop_last() =~= s.subrange(0, k));
        assert(is_ascii_digit(longer.last()));
        let shorter = decimal_value(s.subrange(0, k));
        assert(decimal_value(longer) == shorter * 10 + ((longer.last() as nat) - ('0' as nat)) as nat);
        assert(shorter <= shorter * 10) by (nonlinear_arith);
    } else {
        assert(s.subrange(0, k) =~= s);
    }
}

/// The lower-case hexadecimal digit of `n` (below 16).
pub open spec fn hex_digit(n: nat) -> char {
    if n < 10 {
        (n + 48) as char
    } else {
        (n + 87) as char
    }
}

pub open spec fn is_hex_char(c: char) -> bool {
    ('0' <= c && c <= '9') || ('a' <= c && c <= 'f')
}

/// Every byte as two lower-case hexadecimal digits, high nibble first.
pub open spec fn hex_lower(bytes: Seq<u8>) -> Seq<char>
    decreases bytes.len(),
{
    if bytes.len() == 0 {
        seq![]
    } else {
        hex_lower(bytes.drop_last()) + seq![
            hex_digit((bytes.last() / 16) as nat),
            hex_digit((bytes.last() % 16) as nat),
        ]
    }
}

/// The `width` lowest hexadecimal digits of `v`, most significant first.
pub open spec fn hex_fixed(v: nat, width: nat) -> Seq<char>
    decreases width,
{
    if width == 0 {
        seq![]
    } else {
        hex_fixed(v / 16, (width - 1) as nat).push(hex_digit(v % 16))
    }
}

/// A hexadecimal string: only `0-9` and `a-f`.
pub open spec fn all_hex(s: Seq<char>) -> bool {
    forall|i: int| 0 <= i < s.len() ==> is_hex_char(#[trigger] s[i])
}

pub proof fn lemma_hex_digit(n: nat)
    requires
        n < 16,
    ensures
        is_hex_char(hex_digit(n)),
{
}

pub proof fn lemma_hex_lower(bytes: Seq<u8>)
    ensures
        hex_lower(bytes).len() == 2 * bytes.len(),
        all_hex(hex_lower(bytes)),
    decreases bytes.len(),
{
    if bytes.len() > 0 {
        lemma_hex_lower(bytes.drop_last());
        lemma_hex_digit((bytes.last() / 16) as nat);
        lemma_hex_digit((bytes.last() % 16) as nat);
        let prev = hex_lower(bytes.drop_last());
        let tail = seq![hex_digit((bytes.last() / 16) as nat), hex_digit((bytes.last() % 16) as nat)];
        assert forall|i: int| 0 <= i < hex_lower(bytes).len() implies is_hex_char(#[trigger] hex_lower(bytes)[i]) by {
            if i < prev.len() {
                assert(hex_lower(bytes)[i] == prev[i]);
            } else {
                assert(hex_lower(bytes)[i] == tail[i - prev.len()]);
            }
        }
    }
}

pub proof fn lemma_hex_fixed(v: nat, width: nat)
    ensures
        hex_fixed(v, width).len() == width,
        all_hex(hex_fixed(v, width)),
    decreases width,
{
    if width > 0 {
        lemma_hex_fixed(v / 16, (width - 1) as nat);
        lemma_hex_digit(v % 16);
    }
}

/// A string with no whitespace at either end is its own trim.
pub proof fn lemma_trim_unchanged(s: Seq<char>)
    requires
        s.len() > 0 ==> !is_unicode_whitespace(s[0]) && !is_unicode_whitespace(s.last()),
    ensures
        spec_trim(s) == s,
{
}

/// Hexadecimal digits are not whitespace, so trimming leaves a
/// hexadecimal string unchanged.
pub proof fn lemma_trim_hex(s: Seq<char>)
    requires
        all_hex(s),
    ensures
        spec_trim(s) == s,
{
    if s.len() > 0 {
        assert(is_hex_char(s[0]));
        assert(is_hex_char(s[s.len() - 1]));
    }
    lemma_trim_unchanged(s);
}

/// `hex::encode`: every byte as two lower-case hexadecimal digits.
#[verifier::external_body]
pub(crate) fn hex_encode(bytes: &[u8]) -> (r: String)
    ensures
        r@ == hex_lower(bytes@),
{
    hex::encode(bytes)
}

/// A fresh string with the characters of `s`.
pub(crate) fn owned(s: &str) -> (r: String)
    ensures
        r@ == s@,
{
    String::from_str(s)
}

/// The decimal digits of `n`, most significant first.
pub open spec fn decimal_digits(n: nat) -> Seq<char>
    decreases n,
{
    if n < 10 {
        seq![(n + 48) as char]
    } else {
        decimal_digits(n / 10).push((n % 10 + 48) as char)
    }
}

/// An `i32` in decimal, with a leading `-` when negative.
pub open spec fn decimal_i32(n: i32) -> Seq<char> {
    if n < 0 {
        seq!['-'] + decimal_digits((-n) as nat)
    } else {
        decimal_digits(n as nat)
    }
}

/// The decimal digit `d` as text.
fn digit_text(d: u32) -> (r: &'static str)
    requires
        d < 10,
    ensures
        r@ == seq![(d + 48) as char],
{
    match d {
        0 => {
            proof { reveal_strlit("0"); }
            "0"
        },
        1 => {
            proof { reveal_strlit("1"); }
            "1"
        },
        2 => {
            proof { reveal_strlit("2"); }
            "2"
        },
        3 => {
            proof { reveal_strlit("3"); }
            "3"
        },
        4 => {
            proof { reveal_strlit("4"); }
            "4"
        },
        5 => {
            proof { reveal_strlit("5"); }
            "5"
        },
        6 => {
            proof { reveal_strlit("6"); }
            "6"
        },
        7 => {
            proof { reveal_strlit("7"); }
            "7"
        },
        8 => {
            proof { reveal_strlit("8"); }
            "8"
        },
        _ => {
            proof { reveal_strlit("9"); }
            "9"
        },
    }
}

/// Appends the decimal digits of `n`.
fn append_decimal(s: &mut String, n: u32)
    ensures
        final(s)@ == old(s)@ + decimal_digits(n as nat),
    decreases n,
{
    if n >= 10 {
        append_decimal(s, n / 10);
    }
    s.append(digit_text(n % 10));
    proof {
        if n >= 10 {
            assert(decimal_digits(n as nat) == decimal_digits((n / 10) as nat).push(((n % 10) as nat + 48) as char));
        }
    }
    assert(final(s)@ =~= old(s)@ + decimal_digits(n as nat));
}

/// The number in decimal, as `i32::to_string` writes it.
pub(crate) fn i32_text(n: i32) -> (r: String)
    ensures
        r@ == decimal_i32(n),
{
    if n < 0 {
        let mut r = owned("-");
        proof { reveal_strlit("-"); }
        let magnitude: u32 = (0i64 - (n as i64)) as u32;
        append_decimal(&mut r, magnitude);
        r
    } else {
        let mut r = String::new();
        append_decimal(&mut r, n as u32);
        assert(r@ =~= decimal_i32(n));
        r
    }
}

} // verus!
