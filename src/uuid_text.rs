//! The textual forms of a UUID: which strings are accepted as identifiers,
//! what value they denote, and how a value is written back out.
use sqlx::types::Uuid;
use vstd::arithmetic::div_mod::{lemma_basic_div, lemma_div_denominator, lemma_fundamental_div_mod};
use vstd::prelude::*;

verus! {

pub open spec fn is_hex_digit(c: char) -> bool {
    ('0' <= c && c <= '9') || ('a' <= c && c <= 'f') || ('A' <= c && c <= 'F')
}

pub open spec fn hex_value(c: char) -> nat {
    if '0' <= c && c <= '9' {
        (c as u32 - '0' as u32) as nat
    } else if 'a' <= c && c <= 'f' {
        (c as u32 - 'a' as u32 + 10) as nat
    } else {
        (c as u32 - 'A' as u32 + 10) as nat
    }
}

pub open spec fn all_hex(s: Seq<char>) -> bool {
    forall|i: int| 0 <= i < s.len() ==> is_hex_digit(#[trigger] s[i])
}

/// The 32 digits of a hyphenated form `8-4-4-4-12`, hyphens left out.
pub open spec fn hyphenated_digits(s: Seq<char>) -> Seq<char> {
    s.subrange(0, 8) + s.subrange(9, 13) + s.subrange(14, 18) + s.subrange(19, 23) + s.subrange(
        24,
        36,
    )
}

pub open spec fn is_hyphenated(s: Seq<char>) -> bool {
    &&& s.len() == 36
    &&& s[8] == '-' && s[13] == '-' && s[18] == '-' && s[23] == '-'
    &&& all_hex(hyphenated_digits(s))
}

/// `urn:uuid:`, with ASCII letters in either case.
pub open spec fn is_urn_prefix(p: Seq<char>) -> bool {
    &&& p.len() == 9
    &&& (p[0] == 'u' || p[0] == 'U') && (p[1] == 'r' || p[1] == 'R') && (p[2] == 'n' || p[2] == 'N')
    &&& p[3] == ':'
    &&& (p[4] == 'u' || p[4] == 'U') && (p[5] == 'u' || p[5] == 'U') && (p[6] == 'i' || p[6] == 'I')
    &&& (p[7] == 'd' || p[7] == 'D')
    &&& p[8] == ':'
}

/// The accepted spellings of a UUID: 32 hex digits, the hyphenated form, the
/// hyphenated form in braces, or the hyphenated form after `urn:uuid:`.
pub open spec fn is_uuid_text(s: Seq<char>) -> bool {
    ||| s.len() == 32 && all_hex(s)
    ||| is_hyphenated(s)
    ||| s.len() == 38 && s[0] == '{' && s[37] == '}' && is_hyphenated(s.subrange(1, 37))
    ||| s.len() == 45 && is_urn_prefix(s.subrange(0, 9)) && is_hyphenated(s.subrange(9, 45))
}

/// The hex digits of an accepted spelling, most significant first.
pub open spec fn uuid_digits(s: Seq<char>) -> Seq<char> {
    if s.len() == 32 {
        s
    } else if s.len() == 36 {
        hyphenated_digits(s)
    } else if s.len() == 38 {
        hyphenated_digits(s.subrange(1, 37))
    } else {
        hyphenated_digits(s.subrange(9, 45))
    }
}

/// A sequence of hex digits read as a number, most significant first.
pub open spec fn hex_number(d: Seq<char>) -> nat
    decreases d.len(),
{
    if d.len() == 0 {
        0
    } else {
        hex_number(d.drop_last()) * 16 + hex_value(d.last())
    }
}

/// The 128-bit value that an accepted spelling denotes.
pub open spec fn uuid_value(s: Seq<char>) -> nat {
    hex_number(uuid_digits(s))
}

pub open spec fn pow16(k: nat) -> nat
    decreases k,
{
    if k == 0 {
        1
    } else {
        16 * pow16((k - 1) as nat)
    }
}

pub open spec fn lower_hex_char(n: nat) -> char {
    if n < 10 {
        ('0' as u32 + n) as char
    } else {
        ('a' as u32 + n - 10) as char
    }
}

/// The 32 lower-case hex digits of `v`, most significant first.
pub open spec fn lower_hex32(v: nat) -> Seq<char> {
    Seq::new(32, |k: int| lower_hex_char((v / pow16((31 - k) as nat)) % 16))
}

/// The canonical spelling of `v`: lower-case, hyphenated `8-4-4-4-12`.
pub open spec fn uuid_text(v: nat) -> Seq<char> {
    let h = lower_hex32(v);
    h.subrange(0, 8) + seq!['-'] + h.subrange(8, 12) + seq!['-'] + h.subrange(12, 16) + seq!['-']
        + h.subrange(16, 20) + seq!['-'] + h.subrange(20, 32)
}

/// Relies on `uuid::Uuid::parse_str` (re-exported by sqlx): it accepts exactly
/// the simple, hyphenated, braced and URN spellings, and `as_u128` reads the
/// 32 digits big-endian.
#[verifier::external_body]
pub(crate) fn parse_uuid(s: &str) -> (r: Result<u128, String>)
    ensures
        r is Ok <==> is_uuid_text(s@),
        r is Ok ==> r->Ok_0 as nat == uuid_value(s@),
{
    match Uuid::parse_str(s) {
        Ok(u) => Ok(u.as_u128()),
        Err(e) => Err(e.to_string()),
    }
}

/// Relies on `uuid::Uuid::from_u128` and its `Display`, which writes the
/// lower-case hyphenated spelling.
#[verifier::external_body]
pub(crate) fn format_uuid(v: u128) -> (r: String)
    ensures
        r@ == uuid_text(v as nat),
{
    Uuid::from_u128(v).to_string()
}

proof fn lemma_lower_hex_char(n: nat)
    requires
        n < 16,
    ensures
        is_hex_digit(lower_hex_char(n)),
        hex_value(lower_hex_char(n)) == n,
{
}

proof fn lemma_pow16_positive(k: nat)
    ensures
        pow16(k) > 0,
    decreases k,
{
    if k > 0 {
        lemma_pow16_positive((k - 1) as nat);
    }
}

proof fn lemma_hex_prefix(v: nat, k: nat)
    requires
        k <= 32,
        v < pow16(32),
    ensures
        hex_number(lower_hex32(v).subrange(0, k as int)) == v / pow16((32 - k) as nat),
    decreases k,
{
    let h = lower_hex32(v);
    lemma_pow16_positive((32 - k) as nat);
    if k == 0 {
        assert(h.subrange(0, 0) =~= Seq::<char>::empty());
        lemma_basic_div(v as int, pow16(32) as int);
    } else {
        let j = (k - 1) as nat;
        lemma_hex_prefix(v, j);
        let s = h.subrange(0, k as int);
        assert(s.drop_last() =~= h.subrange(0, j as int));
        let p = pow16((31 - j) as nat);
        lemma_pow16_positive((31 - j) as nat);
        let a = v / p;
        lemma_lower_hex_char(a % 16);
        assert(pow16((32 - j) as nat) == 16 * p);
        lemma_div_denominator(v as int, p as int, 16);
        lemma_fundamental_div_mod(a as int, 16);
        assert(s.last() == lower_hex_char(a % 16));
        assert(hex_number(s) == (a / 16) * 16 + a % 16);
        assert(a / 16 == v / pow16((32 - j) as nat));
        assert(hex_number(s) == a);
    }
}

/// The canonical spelling of a value is accepted, and denotes that value.
pub proof fn lemma_uuid_text_round_trip(v: u128)
    ensures
        is_uuid_text(uuid_text(v as nat)),
        uuid_value(uuid_text(v as nat)) == v as nat,
{
    let h = lower_hex32(v as nat);
    let t = uuid_text(v as nat);
    assert(hyphenated_digits(t) =~= h);
    assert forall|i: int| 0 <= i < h.len() implies is_hex_digit(#[trigger] h[i]) by {
        lemma_pow16_positive((31 - i) as nat);
        lemma_lower_hex_char((v as nat / pow16((31 - i) as nat)) % 16);
    }
    reveal_with_fuel(pow16, 33);
    assert(pow16(32) == 0x1_0000_0000_0000_0000_0000_0000_0000_0000);
    lemma_hex_prefix(v as nat, 32);
    assert(h.subrange(0, 32) =~= h);
    assert(t.len() == 36);
    assert(uuid_digits(t) == h);
    assert(hex_number(h) == v as nat / pow16(0));
    assert(pow16(0) == 1);
    assert(hex_number(h) == v as nat);
    assert(uuid_value(t) == hex_number(h));
}

/// Distinct values have distinct canonical spellings.
pub proof fn lemma_uuid_text_injective(a: u128, b: u128)
    ensures
        a != b ==> uuid_text(a as nat) != uuid_text(b as nat),
{
    lemma_uuid_text_round_trip(a);
    lemma_uuid_text_round_trip(b);
}

} // verus!
