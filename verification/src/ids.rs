//! User and device identifiers: 128-bit UUIDs, written and read through the
//! `uuid` crate.

use vstd::prelude::*;
use crate::text::{hex_digit, is_plain_text, ascii_lowercase_text};

verus! {

/// The last `n` hexadecimal digits of `v`, most significant first.
pub open spec fn hex_nibbles(v: nat, n: nat) -> Seq<char>
    decreases n,
{
    if n == 0 {
        Seq::empty()
    } else {
        hex_nibbles(v / 16, (n - 1) as nat).push(hex_digit((v % 16) as int))
    }
}

/// The hyphenated lower-case text of a UUID, 8-4-4-4-12 hex digits.
pub open spec fn uuid_text(id: u128) -> Seq<char> {
    let h = hex_nibbles(id as nat, 32);
    h.subrange(0, 8) + seq!['-'] + h.subrange(8, 12) + seq!['-'] + h.subrange(12, 16) + seq!['-']
        + h.subrange(16, 20) + seq!['-'] + h.subrange(20, 32)
}

/// The value of a hexadecimal digit, in either case.
pub open spec fn hex_value(c: char) -> Option<int> {
    if '0' <= c && c <= '9' {
        Some(c as int - 48)
    } else if 'a' <= c && c <= 'f' {
        Some(c as int - 87)
    } else if 'A' <= c && c <= 'F' {
        Some(c as int - 55)
    } else {
        None
    }
}

/// Every character of `s` is a hexadecimal digit.
pub open spec fn is_hex_text(s: Seq<char>) -> bool {
    forall|i: int| 0 <= i < s.len() ==> (#[trigger] hex_value(s[i])) is Some
}

/// The number that the hexadecimal digits `s` write, most significant first.
pub open spec fn hex_text_value(s: Seq<char>) -> int
    decreases s.len(),
{
    if s.len() == 0 {
        0
    } else {
        hex_text_value(s.drop_last()) * 16 + hex_value(s.last())->0
    }
}

/// A UUID written as 32 hexadecimal digits.
pub open spec fn simple_uuid(s: Seq<char>) -> Option<u128> {
    if s.len() == 32 && is_hex_text(s) {
        Some(hex_text_value(s) as u128)
    } else {
        None
    }
}

/// A UUID written as 8-4-4-4-12 hexadecimal digits with hyphens.
pub open spec fn hyphenated_uuid(s: Seq<char>) -> Option<u128> {
    if s.len() == 36 && s[8] == '-' && s[13] == '-' && s[18] == '-' && s[23] == '-' {
        simple_uuid(
            s.subrange(0, 8) + s.subrange(9, 13) + s.subrange(14, 18) + s.subrange(19, 23) + s.subrange(
                24,
                36,
            ),
        )
    } else {
        None
    }
}

/// What `Uuid::from_str` makes of a text: 32 hexadecimal digits, the
/// hyphenated form, the hyphenated form in braces, or the hyphenated form
/// after `urn:uuid:` (in any case); hexadecimal digits in either case.
pub open spec fn uuid_parse(text: Seq<char>) -> Option<u128> {
    if text.len() == 32 {
        simple_uuid(text)
    } else if text.len() == 36 {
        hyphenated_uuid(text)
    } else if text.len() == 38 && text[0] == '{' && text[37] == '}' {
        hyphenated_uuid(text.subrange(1, 37))
    } else if text.len() == 45 && ascii_lowercase_text(text.subrange(0, 9)) == "urn:uuid:"@ {
        hyphenated_uuid(text.subrange(9, 45))
    } else {
        None
    }
}

/// The version field (bits 76..80) of a UUID.
pub open spec fn uuid_version(id: u128) -> int {
    (id as int / 0x1000_0000_0000_0000_0000) % 16
}

/// The two variant bits (bits 62..64) of a UUID.
pub open spec fn uuid_variant_bits(id: u128) -> int {
    (id as int / 0x4000_0000_0000_0000) % 4
}

/// `Uuid::from_u128(id).to_string()`: the hyphenated lower-case form
/// (`Display` for `Uuid` writes `as_hyphenated`, lower-case hex).
#[verifier::external_body]
pub(crate) fn uuid_to_text(id: u128) -> (text: String)
    ensures
        text@ == uuid_text(id),
{
    uuid::Uuid::from_u128(id).to_string()
}

/// `Uuid::from_str(text)`, read back as its `u128` (big-endian): the forms
/// of `uuid_parse`. The parser works on the text's bytes; a text with a
/// character outside ASCII fails both there and in `uuid_parse`.
#[verifier::external_body]
pub(crate) fn uuid_from_text(text: &str) -> (id: Option<u128>)
    ensures
        id == uuid_parse(text@),
{
    match <uuid::Uuid as std::str::FromStr>::from_str(text) {
        Ok(u) => Some(u.as_u128()),
        Err(_) => None,
    }
}

/// `Uuid::new_v4()`: random bits with the version field set to 4 and the
/// variant bits set to `10`. Which random bits come is not stated.
#[verifier::external_body]
pub(crate) fn random_uuid() -> (id: u128)
    ensures
        uuid_version(id) == 4,
        uuid_variant_bits(id) == 2,
{
    uuid::Uuid::new_v4().as_u128()
}

proof fn lemma_hex_nibbles_are_hex_digits(v: nat, n: nat)
    ensures
        hex_nibbles(v, n).len() == n,
        forall|i: int| 0 <= i < n ==> {
            let c = #[trigger] hex_nibbles(v, n)[i] as int;
            (48 <= c <= 57) || (97 <= c <= 102)
        },
    decreases n,
{
    if n > 0 {
        lemma_hex_nibbles_are_hex_digits(v / 16, (n - 1) as nat);
        let d = (v % 16) as int;
        assert(0 <= d < 16);
        assert forall|i: int| 0 <= i < n implies {
            let c = #[trigger] hex_nibbles(v, n)[i] as int;
            (48 <= c <= 57) || (97 <= c <= 102)
        } by {
            if i < n - 1 {
                assert(hex_nibbles(v, n)[i] == hex_nibbles(v / 16, (n - 1) as nat)[i]);
            } else {
                assert(hex_nibbles(v, n)[i] == hex_digit(d));
            }
        }
    }
}

/// The hyphenated text of a UUID holds only hex digits and hyphens, so JSON
/// writes it unescaped.
pub proof fn lemma_uuid_text_is_plain(id: u128)
    ensures
        is_plain_text(uuid_text(id)),
        uuid_text(id).len() == 36,
{
    lemma_hex_nibbles_are_hex_digits(id as nat, 32);
    let h = hex_nibbles(id as nat, 32);
    let t = uuid_text(id);
    assert forall|i: int| 0 <= i < t.len() implies {
        &&& #[trigger] t[i] != '"'
        &&& t[i] != '\\'
        &&& (t[i] as int) >= 0x20
    } by {
        if i < 8 {
            assert(t[i] == h[i]);
        } else if i == 8 || i == 13 || i == 18 || i == 23 {
            assert(t[i] == '-');
        } else if i < 13 {
            assert(t[i] == h[i - 1]);
        } else if i < 18 {
            assert(t[i] == h[i - 2]);
        } else if i < 23 {
            assert(t[i] == h[i - 3]);
        } else {
            assert(t[i] == h[i - 4]);
        }
    }
}

pub open spec fn pow16(n: nat) -> int
    decreases n,
{
    if n == 0 {
        1
    } else {
        16 * pow16((n - 1) as nat)
    }
}

proof fn lemma_hex_nibbles_value(v: nat, n: nat)
    ensures
        is_hex_text(hex_nibbles(v, n)),
        hex_text_value(hex_nibbles(v, n)) == (v as int) % pow16(n),
        pow16(n) > 0,
    decreases n,
{
    if n == 0 {
        assert(hex_nibbles(v, n) =~= Seq::<char>::empty());
        assert(v % 1 == 0) by (nonlinear_arith);
    } else {
        let m = (n - 1) as nat;
        lemma_hex_nibbles_value(v / 16, m);
        let h = hex_nibbles(v, n);
        let d = (v % 16) as int;
        assert(0 <= d < 16);
        assert(h.drop_last() =~= hex_nibbles(v / 16, m));
        assert(h.last() == hex_digit(d));
        assert(hex_value(hex_digit(d)) == Some(d));
        assert forall|i: int| 0 <= i < h.len() implies (#[trigger] hex_value(h[i])) is Some by {
            if i < h.len() - 1 {
                assert(h[i] == hex_nibbles(v / 16, m)[i]);
            }
        }
        vstd::arithmetic::div_mod::lemma_mod_breakdown(v as int, 16, pow16(m));
        assert(pow16(n) == 16 * pow16(m));
        assert(hex_text_value(h) == hex_text_value(hex_nibbles(v / 16, m)) * 16 + d);
        assert((v as int / 16) % pow16(m) * 16 == 16 * ((v as int / 16) % pow16(m))) by (nonlinear_arith);
        assert(pow16(n) > 0) by (nonlinear_arith)
            requires
                pow16(n) == 16 * pow16(m),
                pow16(m) > 0,
        ;
    }
}

/// Reading back the hyphenated text of a UUID gives the UUID.
pub proof fn lemma_uuid_text_reads_back(id: u128)
    ensures
        uuid_parse(uuid_text(id)) == Some(id),
{
    let h = hex_nibbles(id as nat, 32);
    lemma_hex_nibbles_value(id as nat, 32);
    let t = uuid_text(id);
    assert(h.len() == 32) by {
        lemma_hex_nibbles_are_hex_digits(id as nat, 32);
    }
    assert(t.len() == 36);
    assert(t[8] == '-' && t[13] == '-' && t[18] == '-' && t[23] == '-');
    assert(t.subrange(0, 8) + t.subrange(9, 13) + t.subrange(14, 18) + t.subrange(19, 23) + t.subrange(24, 36) =~= h);
    assert(pow16(32) == 0x1_0000_0000_0000_0000_0000_0000_0000_0000) by {
        reveal_with_fuel(pow16, 33);
    }
    vstd::arithmetic::div_mod::lemma_small_mod(id as nat, pow16(32) as nat);
}

/// A random (version 4) UUID is never the nil UUID.
pub proof fn lemma_version_four_is_not_nil(id: u128)
    requires
        uuid_version(id) == 4,
    ensures
        id != 0,
{
}

} // verus!
