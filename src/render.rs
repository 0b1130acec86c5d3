//! Responses: the HTML listing page and the JSON status and error bodies.
use vstd::prelude::*;
use vstd::string::*;
use crate::models::Message;
use crate::text::{decimal, decimal_text, escape_html, html_escaped, json_quoted, json_string};

verus! {

/// What a response body holds, and so its content type.
#[derive(Clone, Copy, PartialEq, Eq, Structural, Debug)]
pub enum BodyKind {
    Empty,
    Json,
    Html,
}

/// A response as the handler decides it; its content length is that of `body`.
pub struct Response {
    pub status: u16,
    pub kind: BodyKind,
    pub body: String,
}

pub open spec fn status_ok() -> u16 { 200 }
pub open spec fn status_bad_request() -> u16 { 400 }
pub open spec fn status_not_found() -> u16 { 404 }
pub open spec fn status_server_error() -> u16 { 500 }

/// A response with no body.
pub open spec fn is_empty_response(r: Response, status: u16) -> bool {
    r.status == status && r.kind == BodyKind::Empty && r.body@ == Seq::<char>::empty()
}

/// The JSON body `{"error":<text>}`.
pub open spec fn error_json(msg: Seq<char>) -> Seq<char> {
    "{\"error\":"@ + json_quoted(msg) + "}"@
}

/// The JSON body `{"timestamp":<t>}`.
pub open spec fn timestamp_json(t: int) -> Seq<char> {
    "{\"timestamp\":"@ + decimal(t) + "}"@
}

/// One line of the listing: `<username> (<timestamp>): <message>`, HTML-escaped.
pub open spec fn message_line(m: Message) -> Seq<char> {
    html_escaped(m.username@) + " ("@ + decimal(m.timestamp as int) + "): "@ + html_escaped(m.message@)
}

/// The list items of the listing, in the order given.
pub open spec fn list_items(ms: Seq<Message>) -> Seq<char>
    decreases ms.len(),
{
    if ms.len() == 0 {
        Seq::empty()
    } else {
        list_items(ms.drop_last()) + "<li>"@ + message_line(ms.last()) + "</li>"@
    }
}

pub open spec fn page_head() -> Seq<char> {
    "<body><style>body { width: 100vw; height: 100vh; background-color: #1D1D1D; color: #FFFCFA}</style><ul>"@
}

pub open spec fn page_tail() -> Seq<char> {
    "</ul></body>"@
}

/// The HTML page listing the messages.
pub open spec fn page_html(ms: Seq<Message>) -> Seq<char> {
    page_head() + list_items(ms) + page_tail()
}

/// The list items of two runs of messages are those of each, one after the other.
pub proof fn lemma_list_items_concat(a: Seq<Message>, b: Seq<Message>)
    ensures
        list_items(a + b) == list_items(a) + list_items(b),
    decreases b.len(),
{
    if b.len() == 0 {
        assert(a + b =~= a);
        assert(list_items(b) =~= Seq::<char>::empty());
        assert(list_items(a) + list_items(b) =~= list_items(a));
    } else {
        lemma_list_items_concat(a, b.drop_last());
        assert((a + b).drop_last() =~= a + b.drop_last());
        assert((a + b).last() == b.last());
        assert(list_items(a + b) =~= list_items(a) + list_items(b));
    }
}

/// The listing page holds every message, in the order given: the i-th item
/// comes after the items of all earlier messages and before those of all later ones.
pub proof fn lemma_page_lists_in_order(ms: Seq<Message>, i: int)
    requires
        0 <= i < ms.len(),
    ensures
        page_html(ms) == page_head() + list_items(ms.take(i)) + "<li>"@ + message_line(ms[i])
            + "</li>"@ + list_items(ms.skip(i + 1)) + page_tail(),
{
    let pre = ms.take(i + 1);
    assert(ms =~= pre + ms.skip(i + 1));
    lemma_list_items_concat(pre, ms.skip(i + 1));
    assert(pre.drop_last() =~= ms.take(i));
    assert(pre.last() == ms[i]);
    assert(page_html(ms) =~= page_head() + list_items(ms.take(i)) + "<li>"@ + message_line(ms[i])
            + "</li>"@ + list_items(ms.skip(i + 1)) + page_tail());
}

/// Renders the messages as an HTML page, one list item per message, in order.
pub fn render_page(messages: &Vec<Message>) -> (r: String)
    ensures
        r@ == page_html(messages@),
{
    let mut out = "<body><style>body { width: 100vw; height: 100vh; background-color: #1D1D1D; color: #FFFCFA}</style><ul>".to_owned();
    let mut i: usize = 0;
    while i < messages.len()
        invariant
            i <= messages.len(),
            out@ == page_head() + list_items(messages@.subrange(0, i as int)),
        decreases messages.len() - i,
    {
        let m = &messages[i];
        let user = escape_html(m.username.as_str());
        let stamp = decimal_text(m.timestamp);
        let text = escape_html(m.message.as_str());
        out.append("<li>");
        out.append(user.as_str());
        out.append(" (");
        out.append(stamp.as_str());
        out.append("): ");
        out.append(text.as_str());
        out.append("</li>");
        proof {
            let next = messages@.subrange(0, i + 1);
            assert(next.drop_last() =~= messages@.subrange(0, i as int));
            assert(next.last() == messages@[i as int]);
            assert(out@ =~= page_head() + list_items(next));
        }
        i = i + 1;
    }
    assert(messages@.subrange(0, i as int) =~= messages@);
    out.append("</ul></body>");
    out
}

/// A JSON error response `{"error":<text>}` with the given status.
pub fn make_error_response(error_message: &str, status: u16) -> (r: Response)
    ensures
        r.status == status,
        r.kind == BodyKind::Json,
        r.body@ == error_json(error_message@),
{
    let quoted = json_string(error_message);
    let mut body = "{\"error\":".to_owned();
    body.append(quoted.as_str());
    body.append("}");
    Response { status, kind: BodyKind::Json, body }
}

/// The response to a submission: the assigned timestamp, or a 400 error.
pub fn make_post_response(result: Result<i64, String>) -> (r: Response)
    ensures
        match result {
            Ok(t) => r.status == status_ok() && r.kind == BodyKind::Json && r.body@ == timestamp_json(t as int),
            Err(e) => r.status == status_bad_request() && r.kind == BodyKind::Json && r.body@ == error_json(e@),
        },
{
    match result {
        Ok(timestamp) => {
            let digits = decimal_text(timestamp);
            let mut body = "{\"timestamp\":".to_owned();
            body.append(digits.as_str());
            body.append("}");
            Response { status: 200, kind: BodyKind::Json, body }
        },
        Err(e) => make_error_response(e.as_str(), 400),
    }
}

/// The response to a listing: the page, or an empty 500 when the query failed.
pub fn make_get_response(messages: Option<Vec<Message>>) -> (r: Response)
    ensures
        match messages {
            Some(ms) => r.status == status_ok() && r.kind == BodyKind::Html && r.body@ == page_html(ms@),
            None => is_empty_response(r, status_server_error()),
        },
{
    match messages {
        Some(ms) => Response { status: 200, kind: BodyKind::Html, body: render_page(&ms) },
        None => Response { status: 500, kind: BodyKind::Empty, body: String::new() },
    }
}

} // verus!
