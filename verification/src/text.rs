//! Text helpers: JSON string quoting, quote trimming, ASCII lower-casing and
//! decimal / boolean parsing, each stated exactly over `Seq<char>`.

use vstd::prelude::*;

verus! {

/// The lower-case hexadecimal digit for `n` (`0 <= n < 16`).
pub open spec fn hex_digit(n: int) -> char {
    if n < 10 {
        (n + 48) as char
    } else {
        (n + 87) as char
    }
}

/// How one character is written inside a JSON string literal.
pub open spec fn json_escape_char(c: char) -> Seq<char> {
    if c == '"' {
        seq!['\\', '"']
    } else if c == '\\' {
        seq!['\\', '\\']
    } else if c == '\x08' {
        seq!['\\', 'b']
    } else if c == '\t' {
        seq!['\\', 't']
    } else if c == '\n' {
        seq!['\\', 'n']
    } else if c == '\x0c' {
        seq!['\\', 'f']
    } else if c == '\r' {
        seq!['\\', 'r']
    } else if (c as int) < 0x20 {
        seq!['\\', 'u', '0', '0', hex_digit((c as int) / 16), hex_digit((c as int) % 16)]
    } else {
        seq![c]
    }
}

/// The body of a JSON string literal for `s`, without the surrounding quotes.
pub open spec fn json_escape(s: Seq<char>) -> Seq<char>
    decreases s.len(),
{
    if s.len() == 0 {
        Seq::empty()
    } else {
        json_escape(s.drop_last()) + json_escape_char(s.last())
    }
}

/// The compact JSON text of the string value `s`.
pub open spec fn json_string_text(s: Seq<char>) -> Seq<char> {
    seq!['"'] + json_escape(s) + seq!['"']
}

/// `s` with every trailing `c` removed.
pub open spec fn strip_trailing(s: Seq<char>, c: char) -> Seq<char>
    decreases s.len(),
{
    if s.len() > 0 && s.last() == c {
        strip_trailing(s.drop_last(), c)
    } else {
        s
    }
}

/// `s` with every leading `c` removed.
pub open spec fn strip_leading(s: Seq<char>, c: char) -> Seq<char>
    decreases s.len(),
{
    if s.len() > 0 && s[0] == c {
        strip_leading(s.drop_first(), c)
    } else {
        s
    }
}

/// `c` with an ASCII upper-case letter mapped to its lower-case form.
pub open spec fn ascii_lower(c: char) -> char {
    if 'A' <= c && c <= 'Z' {
        ((c as int) + 32) as char
    } else {
        c
    }
}

pub open spec fn ascii_lowercase_text(s: Seq<char>) -> Seq<char> {
    s.map_values(|c: char| ascii_lower(c))
}

pub open spec fn is_decimal_digit(c: char) -> bool {
    '0' <= c && c <= '9'
}

/// One or more decimal digits and nothing else.
pub open spec fn all_decimal_digits(s: Seq<char>) -> bool {
    s.len() > 0 && forall|i: int| 0 <= i < s.len() ==> is_decimal_digit(#[trigger] s[i])
}

pub open spec fn digits_value(s: Seq<char>) -> int
    decreases s.len(),
{
    if s.len() == 0 {
        0
    } else {
        digits_value(s.drop_last()) * 10 + ((s.last() as int) - 48)
    }
}

/// The integer written in decimal by `s`: an optional `+` or `-` and then
/// at least one digit.
pub open spec fn decimal_value(s: Seq<char>) -> Option<int> {
    if s.len() > 0 && s[0] == '-' && all_decimal_digits(s.drop_first()) {
        Some(-digits_value(s.drop_first()))
    } else if s.len() > 0 && s[0] == '+' && all_decimal_digits(s.drop_first()) {
        Some(digits_value(s.drop_first()))
    } else if all_decimal_digits(s) {
        Some(digits_value(s))
    } else {
        None
    }
}

/// What parsing `s` as an `i64` gives: the decimal value when it fits.
pub open spec fn i64_from_text(s: Seq<char>) -> Option<i64> {
    match decimal_value(s) {
        Some(v) => if i64::MIN <= v <= i64::MAX {
            Some(v as i64)
        } else {
            None
        },
        None => None,
    }
}

/// Text that JSON writes as it is: no double quote, no backslash and no
/// control character.
pub open spec fn is_plain_text(s: Seq<char>) -> bool {
    forall|i: int| 0 <= i < s.len() ==> {
        &&& #[trigger] s[i] != '"'
        &&& s[i] != '\\'
        &&& (s[i] as int) >= 0x20
    }
}

proof fn lemma_plain_text_escapes_to_itself(s: Seq<char>)
    requires
        is_plain_text(s),
    ensures
        json_escape(s) == s,
    decreases s.len(),
{
    if s.len() > 0 {
        assert(is_plain_text(s.drop_last()));
        lemma_plain_text_escapes_to_itself(s.drop_last());
        assert(s.drop_last().push(s.last()) =~= s);
    }
}

/// Quoting plain text as a JSON string and then removing the quotes at
/// both ends gives the text back.
pub proof fn lemma_plain_text_unquotes_to_itself(s: Seq<char>)
    requires
        is_plain_text(s),
    ensures
        strip_leading(strip_trailing(json_string_text(s), '"'), '"') == s,
{
    lemma_plain_text_escapes_to_itself(s);
    let open = seq!['"'] + s;
    // Dropping the closing quote leaves the opening quote and the text.
    assert(json_string_text(s).drop_last() =~= open);
    assert(strip_trailing(json_string_text(s), '"') == strip_trailing(open, '"'));
    if s.len() == 0 {
        // Both quotes go, and nothing is left.
        assert(open.last() == '"' && open.drop_last() =~= s);
        assert(strip_trailing(open, '"') == strip_trailing(s, '"'));
    } else {
        // The text ends in a character other than a quote, and `open`
        // loses only its opening quote.
        assert(open.last() == s[s.len() - 1]);
        assert(open.drop_first() =~= s);
        assert(strip_leading(open, '"') == strip_leading(s, '"'));
    }
}

/// The compact JSON text of a string value, as `serde_json` writes a
/// `Value::String`: quoted, with `"`, `\` and control characters escaped
/// (`\b \t \n \f \r`, other controls as `\u00xx` in lower-case hex).
#[verifier::external_body]
pub(crate) fn json_string(s: &str) -> (text: String)
    ensures
        text@ == json_string_text(s@),
{
    serde_json::Value::String(s.to_string()).to_string()
}

/// `str::trim_end_matches('"')`: every trailing double quote removed.
#[verifier::external_body]
pub(crate) fn trim_end_quotes(s: &str) -> (out: String)
    ensures
        out@ == strip_trailing(s@, '"'),
{
    s.trim_end_matches('"').to_string()
}

/// `str::trim_start_matches('"')`: every leading double quote removed.
#[verifier::external_body]
pub(crate) fn trim_start_quotes(s: &str) -> (out: String)
    ensures
        out@ == strip_leading(s@, '"'),
{
    s.trim_start_matches('"').to_string()
}

/// `str::to_ascii_lowercase`: `A`..`Z` become `a`..`z`, every other
/// character is kept.
#[verifier::external_body]
pub(crate) fn ascii_lowercase(s: &str) -> (out: String)
    ensures
        out@ == ascii_lowercase_text(s@),
{
    s.to_ascii_lowercase()
}

/// `s.parse::<i64>()`: an optional sign, then one or more decimal digits,
/// within the range of `i64`; anything else is refused.
#[verifier::external_body]
pub(crate) fn parse_i64(s: &str) -> (v: Option<i64>)
    ensures
        v == i64_from_text(s@),
{
    s.parse::<i64>().ok()
}

/// `s.parse::<bool>()`: exactly `true` or exactly `false`.
#[verifier::external_body]
pub(crate) fn parse_bool(s: &str) -> (v: Option<bool>)
    ensures
        s@ == "true"@ ==> v == Some(true),
        s@ == "false"@ ==> v == Some(false),
        s@ != "true"@ && s@ != "false"@ ==> v is None,
{
    s.parse::<bool>().ok()
}

} // verus!
