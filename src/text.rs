//! Text primitives: decimal integers, HTML and JSON escaping, URL-encoded pairs.
use std::fmt::Write;
use vstd::prelude::*;

verus! {

/// The character of a decimal digit.
pub open spec fn digit_char(d: nat) -> char {
    if d == 0 { '0' } else if d == 1 { '1' } else if d == 2 { '2' } else if d == 3 { '3' }
    else if d == 4 { '4' } else if d == 5 { '5' } else if d == 6 { '6' } else if d == 7 { '7' }
    else if d == 8 { '8' } else { '9' }
}

/// The decimal digits of a natural number, without leading zeros.
pub open spec fn digits_of(n: nat) -> Seq<char>
    decreases n,
{
    if n < 10 {
        seq![digit_char(n)]
    } else {
        digits_of(n / 10) + seq![digit_char(n % 10)]
    }
}

/// The decimal text of an integer, with a leading '-' when negative.
pub open spec fn decimal(v: int) -> Seq<char> {
    if v < 0 {
        seq!['-'] + digits_of((-v) as nat)
    } else {
        digits_of(v as nat)
    }
}

pub open spec fn is_digit(c: char) -> bool {
    '0' <= c && c <= '9'
}

/// The value of a run of decimal digits.
pub open spec fn digits_value(s: Seq<char>) -> int
    decreases s.len(),
{
    if s.len() == 0 {
        0
    } else {
        digits_value(s.drop_last()) * 10 + (s.last() as u32 - '0' as u32)
    }
}

/// The digits of an integer text: what follows an optional sign.
pub open spec fn unsigned_part(s: Seq<char>) -> Seq<char> {
    if s.len() > 0 && (s[0] == '-' || s[0] == '+') {
        s.drop_first()
    } else {
        s
    }
}

/// The value that an optionally signed decimal text denotes.
pub open spec fn int_text_value(s: Seq<char>) -> int {
    if s.len() > 0 && s[0] == '-' {
        -digits_value(s.drop_first())
    } else {
        digits_value(unsigned_part(s))
    }
}

/// An optional sign, one or more decimal digits, and a value that fits in an i64.
pub open spec fn is_i64_text(s: Seq<char>) -> bool {
    let u = unsigned_part(s);
    &&& u.len() > 0
    &&& forall|i: int| 0 <= i < u.len() ==> is_digit(#[trigger] u[i])
    &&& i64::MIN <= int_text_value(s) <= i64::MAX
}

/// HTML escaping of text content: `&`, `<`, `>` and `"` become entities.
pub open spec fn escape_char(c: char) -> Seq<char> {
    if c == '&' {
        "&amp;"@
    } else if c == '<' {
        "&lt;"@
    } else if c == '>' {
        "&gt;"@
    } else if c == '"' {
        "&quot;"@
    } else {
        seq![c]
    }
}

pub open spec fn html_escaped(s: Seq<char>) -> Seq<char>
    decreases s.len(),
{
    if s.len() == 0 {
        seq![]
    } else {
        html_escaped(s.drop_last()) + escape_char(s.last())
    }
}

/// A character that JSON writes as it is inside a string.
pub open spec fn json_plain_char(c: char) -> bool {
    c != '"' && c != '\\' && c >= ' '
}

/// The JSON string literal that serde_json writes for a text.
pub uninterp spec fn json_quoted(s: Seq<char>) -> Seq<char>;

/// The message that std gives for a text that is no i64.
pub uninterp spec fn int_error_text(s: Seq<char>) -> Seq<char>;

/// The (name, value) pairs of a URL-encoded byte string, in order, percent-decoded.
pub uninterp spec fn form_pairs(b: Seq<u8>) -> Seq<(Seq<char>, Seq<char>)>;

/// The views of a sequence of owned pairs.
pub open spec fn pair_views(ps: Seq<(String, String)>) -> Seq<(Seq<char>, Seq<char>)> {
    ps.map_values(|p: (String, String)| (p.0@, p.1@))
}

/// Relies on `<i64 as Display>`: decimal digits, with '-' before a negative value.
#[verifier::external_body]
pub(crate) fn decimal_text(v: i64) -> (r: String)
    ensures
        r@ == decimal(v as int),
{
    v.to_string()
}

/// Relies on `str::parse::<i64>`, which accepts an optional sign and decimal
/// digits whose value fits, and on `ParseIntError`'s `Display` for the message.
#[verifier::external_body]
pub(crate) fn parse_i64(s: &str) -> (r: Result<i64, String>)
    ensures
        r is Ok <==> is_i64_text(s@),
        r matches Ok(v) ==> v as int == int_text_value(s@),
        r matches Err(e) ==> e@ == int_error_text(s@),
{
    s.parse::<i64>().map_err(|e| e.to_string())
}

/// Relies on maud's `Escaper`, which replaces `&`, `<`, `>` and `"` by entities
/// and copies every other character.
#[verifier::external_body]
pub(crate) fn escape_html(s: &str) -> (r: String)
    ensures
        r@ == html_escaped(s@),
{
    let mut out = String::new();
    let _ = maud::Escaper::new(&mut out).write_str(s);
    out
}

/// Relies on serde_json's string serializer: a text without quotes, backslashes
/// or control characters is written between two double quotes as it is.
#[verifier::external_body]
pub(crate) fn json_string(s: &str) -> (r: String)
    ensures
        r@ == json_quoted(s@),
        (forall|i: int| 0 <= i < s@.len() ==> json_plain_char(#[trigger] s@[i])) ==> r@ == seq!['"'] + s@ + seq!['"'],
{
    serde_json::Value::String(s.to_string()).to_string()
}

/// Relies on `url::form_urlencoded::parse`: the decoded pairs of the input, in order.
#[verifier::external_body]
pub(crate) fn decode_pairs(b: &[u8]) -> (r: Vec<(String, String)>)
    ensures
        pair_views(r@) == form_pairs(b@),
{
    url::form_urlencoded::parse(b).into_owned().collect()
}

} // verus!
