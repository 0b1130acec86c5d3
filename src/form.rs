//! Decoding of submission bodies and listing queries.
use vstd::prelude::*;
use crate::models::{NewMessage, TimeRange};
use vstd::string::*;
use crate::text::{decode_pairs, form_pairs, int_error_text, int_text_value, is_i64_text, pair_views, parse_i64};

verus! {

/// The value of the last pair named `key`: a later duplicate wins.
pub open spec fn last_value(pairs: Seq<(Seq<char>, Seq<char>)>, key: Seq<char>) -> Option<Seq<char>>
    decreases pairs.len(),
{
    if pairs.len() == 0 {
        None
    } else if pairs.last().0 == key {
        Some(pairs.last().1)
    } else {
        last_value(pairs.drop_last(), key)
    }
}

pub open spec fn opt_view(o: Option<String>) -> Option<Seq<char>> {
    match o {
        Some(s) => Some(s@),
        None => None,
    }
}

/// The author stored when a submission names none.
pub open spec fn default_username() -> Seq<char> {
    "Anon"@
}

pub open spec fn missing_message_error() -> Seq<char> {
    "missing field message"@
}

/// What a submission with these pairs decodes to: (username, message), or the error text.
pub open spec fn decoded_submission(pairs: Seq<(Seq<char>, Seq<char>)>) -> Result<(Seq<char>, Seq<char>), Seq<char>> {
    match last_value(pairs, "message"@) {
        None => Err(missing_message_error()),
        Some(m) => match last_value(pairs, "username"@) {
            Some(u) => Ok((u, m)),
            None => Ok((default_username(), m)),
        },
    }
}

pub open spec fn submission_view(r: Result<NewMessage, String>) -> Result<(Seq<char>, Seq<char>), Seq<char>> {
    match r {
        Ok(n) => Ok((n.username@, n.message@)),
        Err(e) => Err(e@),
    }
}

/// The error text for a bound that is no integer.
pub open spec fn bound_error(field: Seq<char>, value: Seq<char>) -> Seq<char> {
    "Error parsing `"@ + field + "` value: "@ + int_error_text(value)
}

/// What one optional bound decodes to.
pub open spec fn decoded_bound(pairs: Seq<(Seq<char>, Seq<char>)>, field: Seq<char>) -> Result<Option<i64>, Seq<char>> {
    match last_value(pairs, field) {
        None => Ok(None),
        Some(v) => if is_i64_text(v) {
            Ok(Some(int_text_value(v) as i64))
        } else {
            Err(bound_error(field, v))
        },
    }
}

/// What a listing query with these pairs decodes to; `before` is checked first.
pub open spec fn decoded_range(pairs: Seq<(Seq<char>, Seq<char>)>) -> Result<TimeRange, Seq<char>> {
    match decoded_bound(pairs, "before"@) {
        Err(e) => Err(e),
        Ok(b) => match decoded_bound(pairs, "after"@) {
            Err(e) => Err(e),
            Ok(a) => Ok(TimeRange { before: b, after: a }),
        },
    }
}

pub open spec fn range_view(r: Result<TimeRange, String>) -> Result<TimeRange, Seq<char>> {
    match r {
        Ok(t) => Ok(t),
        Err(e) => Err(e@),
    }
}

/// The value of the last pair named `key`.
pub fn lookup_last(pairs: &Vec<(String, String)>, key: &str) -> (r: Option<String>)
    ensures
        opt_view(r) == last_value(pair_views(pairs@), key@),
{
    let k = key.to_owned();
    let ghost all = pair_views(pairs@);
    let mut i: usize = pairs.len();
    assert(all.subrange(0, i as int) =~= all);
    while i > 0
        invariant
            i <= pairs.len(),
            k@ == key@,
            all == pair_views(pairs@),
            last_value(all, key@) == last_value(all.subrange(0, i as int), key@),
        decreases i,
    {
        let ghost pre = all.subrange(0, i as int);
        assert(pre.drop_last() =~= all.subrange(0, i - 1));
        i = i - 1;
        if pairs[i].0 == k {
            return Some(pairs[i].1.clone());
        }
    }
    assert(all.subrange(0, 0) =~= Seq::<(Seq<char>, Seq<char>)>::empty());
    None
}

/// Builds a submission from decoded pairs: `message` is required, `username`
/// defaults to "Anon".
pub fn new_message_from_pairs(pairs: &Vec<(String, String)>) -> (r: Result<NewMessage, String>)
    ensures
        submission_view(r) == decoded_submission(pair_views(pairs@)),
{
    match lookup_last(pairs, "message") {
        None => Err("missing field message".to_owned()),
        Some(message) => {
            let username = match lookup_last(pairs, "username") {
                Some(u) => u,
                None => "Anon".to_owned(),
            };
            Ok(NewMessage { username, message })
        },
    }
}

/// Decodes a URL-encoded submission body.
pub fn parse_form(body: &[u8]) -> (r: Result<NewMessage, String>)
    ensures
        submission_view(r) == decoded_submission(form_pairs(body@)),
{
    let pairs = decode_pairs(body);
    new_message_from_pairs(&pairs)
}

/// Decodes one optional bound from decoded pairs.
fn bound_from_pairs(pairs: &Vec<(String, String)>, field: &str) -> (r: Result<Option<i64>, String>)
    ensures
        match r {
            Ok(b) => decoded_bound(pair_views(pairs@), field@) == Ok::<Option<i64>, Seq<char>>(b),
            Err(e) => decoded_bound(pair_views(pairs@), field@) == Err::<Option<i64>, Seq<char>>(e@),
        },
{
    match lookup_last(pairs, field) {
        None => Ok(None),
        Some(v) => match parse_i64(v.as_str()) {
            Ok(n) => Ok(Some(n)),
            Err(e) => {
                let mut msg = "Error parsing `".to_owned();
                msg.append(field);
                msg.append("` value: ");
                msg.append(e.as_str());
                Err(msg)
            },
        },
    }
}

/// Builds a time range from decoded pairs; stops at the first bound that is no integer.
pub fn time_range_from_pairs(pairs: &Vec<(String, String)>) -> (r: Result<TimeRange, String>)
    ensures
        range_view(r) == decoded_range(pair_views(pairs@)),
{
    let before = match bound_from_pairs(pairs, "before") {
        Ok(b) => b,
        Err(e) => return Err(e),
    };
    let after = match bound_from_pairs(pairs, "after") {
        Ok(a) => a,
        Err(e) => return Err(e),
    };
    Ok(TimeRange { before, after })
}

/// Decodes a listing query string.
pub fn parse_query(query: &str) -> (r: Result<TimeRange, String>)
    ensures
        range_view(r) == decoded_range(form_pairs(query.spec_bytes())),
{
    let pairs = decode_pairs(query.as_bytes());
    time_range_from_pairs(&pairs)
}

} // verus!
