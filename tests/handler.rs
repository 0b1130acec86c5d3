use microservice::form::{parse_form, parse_query};
use microservice::models::{Message, TimeRange};
use microservice::render::{make_error_response, make_get_response, make_post_response, render_page, BodyKind};
use microservice::service::{on_body, on_inserted, on_queried, start, Action, Method, RequestHead, StoreError};

fn head(method: Method, path: &str, query: Option<&str>) -> RequestHead {
    RequestHead { method, path: path.to_string(), query: query.map(|q| q.to_string()) }
}

fn msg(id: i32, username: &str, message: &str, timestamp: i64) -> Message {
    Message { id, username: username.to_string(), message: message.to_string(), timestamp }
}

fn json(body: &str) -> serde_json::Value {
    serde_json::from_str(body).unwrap()
}

#[test]
fn post_then_list_shows_the_line() {
    let a = start(&head(Method::Post, "/", None), true);
    assert!(matches!(a, Action::ReadBody));
    let n = match on_body(b"message=Hello&username=Bob") {
        Action::Insert(n) => n,
        _ => panic!("expected an insert"),
    };
    assert_eq!(n.username, "Bob");
    assert_eq!(n.message, "Hello");
    let t: i64 = 1_700_000_000;
    let r = on_inserted(Ok(t));
    assert_eq!(r.status, 200);
    assert_eq!(r.kind, BodyKind::Json);
    assert_eq!(json(&r.body)["timestamp"].as_i64(), Some(t));
    let q = match start(&head(Method::Get, "/", None), true) {
        Action::Query(q) => q,
        _ => panic!("expected a query"),
    };
    assert_eq!(q, TimeRange { before: None, after: None });
    let page = on_queried(Ok(vec![msg(1, &n.username, &n.message, t)]));
    assert_eq!(page.status, 200);
    assert_eq!(page.kind, BodyKind::Html);
    assert!(page.body.contains("Bob (1700000000): Hello"));
}

#[test]
fn missing_message_is_bad_request() {
    let r = match on_body(b"username=Bob") {
        Action::Respond(r) => r,
        _ => panic!("expected a response"),
    };
    assert_eq!(r.status, 400);
    assert_eq!(r.kind, BodyKind::Json);
    assert_eq!(r.body, "{\"error\":\"missing field message\"}");
    assert_eq!(json(&r.body)["error"], "missing field message");
}

#[test]
fn missing_message_with_other_fields() {
    let r = match on_body(b"username=Bob&other=1&messages=x") {
        Action::Respond(r) => r,
        _ => panic!("expected a response"),
    };
    assert_eq!(r.status, 400);
    assert!(r.body.contains("missing field message"));
}

#[test]
fn username_defaults_to_anon() {
    let n = parse_form(b"message=hi").ok().unwrap();
    assert_eq!(n.username, "Anon");
    assert_eq!(n.message, "hi");
}

#[test]
fn username_is_kept_exactly() {
    let n = parse_form(b"username=%20Ann%26Co+&message=a%2Bb+c").ok().unwrap();
    assert_eq!(n.username, " Ann&Co ");
    assert_eq!(n.message, "a+b c");
}

#[test]
fn last_duplicate_wins() {
    let n = parse_form(b"message=first&message=second&username=x&username=y").ok().unwrap();
    assert_eq!(n.message, "second");
    assert_eq!(n.username, "y");
}

#[test]
fn empty_body_misses_message() {
    assert_eq!(parse_form(b"").err(), Some("missing field message".to_string()));
}

#[test]
fn listing_lists_every_message_in_order() {
    let ms = vec![msg(1, "Ann", "one", 5), msg(2, "Bob", "two", 7), msg(3, "Anon", "three", 7)];
    let r = make_get_response(Some(ms));
    assert_eq!(r.status, 200);
    let a = r.body.find("Ann (5): one").unwrap();
    let b = r.body.find("Bob (7): two").unwrap();
    let c = r.body.find("Anon (7): three").unwrap();
    assert!(a < b && b < c);
}

#[test]
fn page_markup_is_exact() {
    let page = render_page(&vec![msg(1, "Bob", "Hello", 3)]);
    assert_eq!(
        page,
        "<body><style>body { width: 100vw; height: 100vh; background-color: #1D1D1D; color: #FFFCFA}</style><ul><li>Bob (3): Hello</li></ul></body>"
    );
}

#[test]
fn empty_listing_page() {
    let page = render_page(&vec![]);
    assert!(page.ends_with("<ul></ul></body>"));
}

#[test]
fn page_escapes_html_and_writes_negative_stamps() {
    let page = render_page(&vec![msg(1, "<b>&\"", "x>y", -42)]);
    assert!(page.contains("<li>&lt;b&gt;&amp;&quot; (-42): x&gt;y</li>"));
}

#[test]
fn bad_before_is_not_found() {
    let r = match start(&head(Method::Get, "/", Some("before=notanumber")), true) {
        Action::Respond(r) => r,
        _ => panic!("expected a response"),
    };
    assert_eq!(r.status, 404);
    assert_eq!(r.kind, BodyKind::Json);
    let e = json(&r.body)["error"].as_str().unwrap().to_string();
    assert_eq!(e, "Error parsing `before` value: invalid digit found in string");
}

#[test]
fn bad_after_fails_after_good_before() {
    let e = parse_query("before=3&after=").err().unwrap();
    assert_eq!(e, "Error parsing `after` value: cannot parse integer from empty string");
}

#[test]
fn before_is_checked_first() {
    let e = parse_query("after=x&before=y").err().unwrap();
    assert!(e.starts_with("Error parsing `before` value"));
}

#[test]
fn overflowing_bound_fails() {
    let e = parse_query("before=9223372036854775808").err().unwrap();
    assert_eq!(e, "Error parsing `before` value: number too large to fit in target type");
}

#[test]
fn bounds_are_parsed() {
    assert_eq!(
        parse_query("before=-5&after=%2B7").ok(),
        Some(TimeRange { before: Some(-5), after: Some(7) })
    );
    assert_eq!(
        parse_query("after=-9223372036854775808").ok(),
        Some(TimeRange { before: None, after: Some(i64::MIN) })
    );
    assert_eq!(parse_query("").ok(), Some(TimeRange { before: None, after: None }));
}

#[test]
fn delete_is_not_found() {
    for (m, p) in [(Method::Delete, "/"), (Method::Get, "/other"), (Method::Post, "/x"), (Method::Put, "/")] {
        match start(&head(m, p, None), true) {
            Action::Respond(r) => {
                assert_eq!(r.status, 404);
                assert_eq!(r.kind, BodyKind::Empty);
                assert!(r.body.is_empty());
            }
            _ => panic!("expected a response"),
        }
    }
}

#[test]
fn no_connection_is_server_error() {
    match start(&head(Method::Post, "/", None), false) {
        Action::Respond(r) => {
            assert_eq!(r.status, 500);
            assert!(r.body.is_empty());
        }
        _ => panic!("expected a response"),
    }
}

#[test]
fn store_failures() {
    let w = on_inserted(Err(StoreError::WriteFailed));
    assert_eq!(w.status, 400);
    assert_eq!(w.body, "{\"error\":\"service error\"}");
    let q = on_queried(Err(StoreError::QueryFailed));
    assert_eq!(q.status, 500);
    assert_eq!(q.kind, BodyKind::Empty);
    assert!(q.body.is_empty());
}

#[test]
fn error_json_escapes_quotes() {
    let r = make_error_response("say \"hi\"\n", 418);
    assert_eq!(r.status, 418);
    assert_eq!(r.body, "{\"error\":\"say \\\"hi\\\"\\n\"}");
    assert_eq!(json(&r.body)["error"], "say \"hi\"\n");
}

#[test]
fn post_response_timestamp() {
    let r = make_post_response(Ok(0));
    assert_eq!(r.body, "{\"timestamp\":0}");
    let e = make_post_response(Err("boom".to_string()));
    assert_eq!(e.status, 400);
    assert_eq!(e.body, "{\"error\":\"boom\"}");
}
