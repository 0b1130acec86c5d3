//! The handler's decisions, one request at a time. The caller performs each
//! action (reading the body, a store call) and hands back what came of it.
use vstd::prelude::*;
use vstd::string::*;
use vstd::utf8::encode_utf8;
use crate::form::{bound_error, decoded_range, last_value, decoded_submission, parse_form, parse_query};
use crate::models::{Message, NewMessage, TimeRange};
use crate::render::{
    error_json, make_error_response, make_get_response, make_post_response, page_html,
    timestamp_json, BodyKind, Response,
};
use crate::text::{digits_of, form_pairs, is_i64_text};

verus! {

/// The request methods that the handler tells apart.
#[derive(Clone, Copy, PartialEq, Eq, Structural, Debug)]
pub enum Method {
    Get,
    Post,
    Put,
    Delete,
    Other,
}

/// What the handler reads of a request before its body.
pub struct RequestHead {
    pub method: Method,
    pub path: String,
    pub query: Option<String>,
}

/// Why the store could not serve a request.
#[derive(Clone, Copy, PartialEq, Eq, Structural, Debug)]
pub enum StoreError {
    ConnectFailed,
    WriteFailed,
    QueryFailed,
}

/// What the caller is to do next.
pub enum Action {
    /// Collect the whole request body and hand it to `on_body`.
    ReadBody,
    /// Insert the message and hand the outcome to `on_inserted`.
    Insert(NewMessage),
    /// Query the store and hand the outcome to `on_queried`.
    Query(TimeRange),
    /// Send this response; the request is done.
    Respond(Response),
}

/// The mathematical value of an action.
pub enum Step {
    ReadBody,
    Insert(Seq<char>, Seq<char>),
    Query(TimeRange),
    Respond(u16, BodyKind, Seq<char>),
}

pub open spec fn response_step(r: Response) -> Step {
    Step::Respond(r.status, r.kind, r.body@)
}

pub open spec fn action_step(a: Action) -> Step {
    match a {
        Action::ReadBody => Step::ReadBody,
        Action::Insert(n) => Step::Insert(n.username@, n.message@),
        Action::Query(t) => Step::Query(t),
        Action::Respond(r) => response_step(r),
    }
}

pub open spec fn query_bytes(q: Option<String>) -> Option<Seq<u8>> {
    match q {
        Some(s) => Some(encode_utf8(s@)),
        None => None,
    }
}

pub open spec fn is_root(path: Seq<char>) -> bool {
    path == "/"@
}

/// The text of the error sent when the store refuses a write.
pub open spec fn write_error_text() -> Seq<char> {
    "service error"@
}

/// The first step: a failed connection ends the request with an empty 500;
/// POST / reads the body; GET / decodes its query; anything else is an empty 404.
pub open spec fn start_step(method: Method, path: Seq<char>, query: Option<Seq<u8>>, connected: bool) -> Step {
    if !connected {
        Step::Respond(500, BodyKind::Empty, Seq::empty())
    } else if method == Method::Post && is_root(path) {
        Step::ReadBody
    } else if method == Method::Get && is_root(path) {
        match query {
            None => Step::Query(TimeRange { before: None, after: None }),
            Some(q) => match decoded_range(form_pairs(q)) {
                Ok(t) => Step::Query(t),
                Err(e) => Step::Respond(404, BodyKind::Json, error_json(e)),
            },
        }
    } else {
        Step::Respond(404, BodyKind::Empty, Seq::empty())
    }
}

/// The step after the submission body arrived.
pub open spec fn body_step(body: Seq<u8>) -> Step {
    match decoded_submission(form_pairs(body)) {
        Ok((u, m)) => Step::Insert(u, m),
        Err(e) => Step::Respond(400, BodyKind::Json, error_json(e)),
    }
}

/// The response after the store took (or refused) a submission.
pub open spec fn inserted_step(r: Result<i64, StoreError>) -> Step {
    match r {
        Ok(t) => Step::Respond(200, BodyKind::Json, timestamp_json(t as int)),
        Err(_) => Step::Respond(400, BodyKind::Json, error_json(write_error_text())),
    }
}

/// The response after the store answered (or failed) a listing.
pub open spec fn queried_step(r: Result<Seq<Message>, StoreError>) -> Step {
    match r {
        Ok(ms) => Step::Respond(200, BodyKind::Html, page_html(ms)),
        Err(_) => Step::Respond(500, BodyKind::Empty, Seq::empty()),
    }
}

/// Decides the first action for a request, once the store connection was tried.
pub fn start(head: &RequestHead, connected: bool) -> (a: Action)
    ensures
        action_step(a) == start_step(head.method, head.path@, query_bytes(head.query), connected),
{
    if !connected {
        return Action::Respond(Response { status: 500, kind: BodyKind::Empty, body: String::new() });
    }
    let root = "/".to_owned();
    let at_root = head.path == root;
    if at_root && head.method == Method::Post {
        Action::ReadBody
    } else if at_root && head.method == Method::Get {
        match &head.query {
            None => Action::Query(TimeRange { before: None, after: None }),
            Some(q) => match parse_query(q.as_str()) {
                Ok(t) => Action::Query(t),
                Err(e) => Action::Respond(make_error_response(e.as_str(), 404)),
            },
        }
    } else {
        Action::Respond(Response { status: 404, kind: BodyKind::Empty, body: String::new() })
    }
}

/// Decides what follows the arrival of a submission body.
pub fn on_body(body: &[u8]) -> (a: Action)
    ensures
        action_step(a) == body_step(body@),
{
    match parse_form(body) {
        Ok(n) => Action::Insert(n),
        Err(e) => Action::Respond(make_error_response(e.as_str(), 400)),
    }
}

/// The response once the store has taken or refused a submission.
pub fn on_inserted(result: Result<i64, StoreError>) -> (r: Response)
    ensures
        response_step(r) == inserted_step(result),
{
    match result {
        Ok(t) => make_post_response(Ok(t)),
        Err(_) => make_post_response(Err("service error".to_owned())),
    }
}

/// The response once the store has answered or failed a listing.
pub fn on_queried(result: Result<Vec<Message>, StoreError>) -> (r: Response)
    ensures
        response_step(r) == queried_step(match result {
            Ok(ms) => Ok(ms@),
            Err(e) => Err(e),
        }),
{
    match result {
        Ok(ms) => make_get_response(Some(ms)),
        Err(_) => make_get_response(None),
    }
}

/// A submission whose `message` is present and not empty is handed to the
/// store, and a timestamp t >= 0 that the store assigns is answered with 200
/// and the JSON object `{"timestamp":t}`, t in plain decimal digits.
pub proof fn lemma_submission_succeeds(body: Seq<u8>, t: i64)
    requires
        last_value(form_pairs(body), "message"@) is Some,
        last_value(form_pairs(body), "message"@)->Some_0.len() > 0,
        t >= 0,
    ensures
        body_step(body) is Insert,
        body_step(body)->Insert_1 == last_value(form_pairs(body), "message"@)->Some_0,
        inserted_step(Ok(t)) == Step::Respond(200, BodyKind::Json, "{\"timestamp\":"@ + digits_of(t as nat) + "}"@),
{
}

/// A submission without `message` is refused with 400 and a JSON error that
/// names the missing field, whatever else the body holds.
pub proof fn lemma_missing_message_rejected(body: Seq<u8>)
    requires
        last_value(form_pairs(body), "message"@) is None,
    ensures
        body_step(body) == Step::Respond(400, BodyKind::Json, error_json("missing field message"@)),
{
}

/// The stored author is the submitted `username` exactly, or "Anon" when
/// the submission names none.
pub proof fn lemma_username_kept_or_defaulted(body: Seq<u8>)
    requires
        last_value(form_pairs(body), "message"@) is Some,
    ensures
        ({
            let m = last_value(form_pairs(body), "message"@)->Some_0;
            match last_value(form_pairs(body), "username"@) {
                Some(u) => body_step(body) == Step::Insert(u, m),
                None => body_step(body) == Step::Insert("Anon"@, m),
            }
        }),
{
}

/// A listing without a query asks the store for every message, and what the
/// store returns is answered with 200 and the page that lists it in order.
pub proof fn lemma_plain_listing(ms: Seq<Message>)
    ensures
        start_step(Method::Get, "/"@, None, true) == Step::Query(TimeRange { before: None, after: None }),
        queried_step(Ok(ms)) == Step::Respond(200, BodyKind::Html, page_html(ms)),
{
}

/// A listing whose `before` bound is no integer is answered with 404 and a
/// JSON error that names the `before` field.
pub proof fn lemma_bad_before_not_found(q: Seq<u8>, v: Seq<char>)
    requires
        last_value(form_pairs(q), "before"@) == Some(v),
        !is_i64_text(v),
    ensures
        start_step(Method::Get, "/"@, Some(q), true) == Step::Respond(404, BodyKind::Json, error_json(bound_error("before"@, v))),
{
}

/// A request to any other method or path is answered with an empty 404 and
/// never reaches the store.
pub proof fn lemma_unrouted_not_found(method: Method, path: Seq<char>, query: Option<Seq<u8>>)
    requires
        !(is_root(path) && (method == Method::Get || method == Method::Post)),
    ensures
        start_step(method, path, query, true) == Step::Respond(404, BodyKind::Empty, Seq::<char>::empty()),
{
}

} // verus!
