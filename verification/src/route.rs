//! The routing decision: which reply and which log lines a request's method
//! and path earn. Two routes are registered, both for GET; every other
//! request falls through to the router's not-found answer.

use crate::health::{health_body, lemma_health_body_literal};
use crate::json::json_object_one;
use crate::text::str_equal;
use vstd::prelude::*;

verus! {

/// An HTTP request method.
#[derive(PartialEq, Eq, Structural, Clone, Copy, Debug)]
pub enum Method {
    Get,
    Head,
    Post,
    Put,
    Delete,
    Options,
    Patch,
}

/// The media type a reply's body is declared as.
#[derive(PartialEq, Eq, Structural, Clone, Copy, Debug)]
pub enum MediaType {
    Json,
    PlainText,
}

/// One HTTP reply: a status code, the declared media type (none for the
/// router's bodiless not-found answer) and the body text.
pub struct Reply {
    pub status: u16,
    pub media: Option<MediaType>,
    pub body: String,
}

/// A handled request: the reply to send and the log lines to emit.
pub struct Handled {
    pub reply: Reply,
    pub log: Vec<String>,
}

/// Whether the request reaches the health route: GET on `/healthz`.
pub open spec fn is_health_route(m: Method, path: Seq<char>) -> bool {
    m == Method::Get && path == "/healthz"@
}

/// Whether the request reaches the index route: GET on `/`.
pub open spec fn is_index_route(m: Method, path: Seq<char>) -> bool {
    m == Method::Get && path == "/"@
}

/// The status code a request is answered with: 200 on the two registered
/// routes, 404 everywhere else.
pub open spec fn spec_status(m: Method, path: Seq<char>) -> int {
    if is_health_route(m, path) || is_index_route(m, path) {
        200
    } else {
        404
    }
}

/// The body a request is answered with: the serialized health record on the
/// health route, the fixed greeting on the index route, nothing else.
pub open spec fn spec_body(m: Method, path: Seq<char>) -> Seq<char> {
    if is_health_route(m, path) {
        json_object_one("status"@, "ok"@)
    } else if is_index_route(m, path) {
        "user-management ok"@
    } else {
        Seq::empty()
    }
}

/// The media type a request's reply declares.
pub open spec fn spec_media(m: Method, path: Seq<char>) -> Option<MediaType> {
    if is_health_route(m, path) {
        Some(MediaType::Json)
    } else if is_index_route(m, path) {
        Some(MediaType::PlainText)
    } else {
        None
    }
}

/// The log lines a request earns: one line on the index route, none else.
pub open spec fn spec_log(m: Method, path: Seq<char>) -> Seq<Seq<char>> {
    if is_index_route(m, path) {
        seq!["Handling request for /"@]
    } else {
        Seq::empty()
    }
}

/// The reply of the health route: 200, JSON, exactly `{"status":"ok"}`.
pub fn healthz_reply() -> (r: Reply)
    ensures
        r.status == 200,
        r.media == Some(MediaType::Json),
        r.body@ == json_object_one("status"@, "ok"@),
        r.body@ == "{\"status\":\"ok\"}"@,
{
    Reply { status: 200, media: Some(MediaType::Json), body: health_body() }
}

/// The reply of the index route: 200, plain text, the fixed greeting.
pub fn index_reply() -> (r: Reply)
    ensures
        r.status == 200,
        r.media == Some(MediaType::PlainText),
        r.body@ == "user-management ok"@,
{
    Reply {
        status: 200,
        media: Some(MediaType::PlainText),
        body: String::from_str("user-management ok"),
    }
}

/// The router's answer where no handler is registered: 404, empty body.
pub fn not_found_reply() -> (r: Reply)
    ensures
        r.status == 404,
        r.media is None,
        r.body@ == Seq::<char>::empty(),
{
    Reply { status: 404, media: None, body: String::new() }
}

/// The log line the index route emits.
pub fn index_log_line() -> (r: String)
    ensures
        r@ == "Handling request for /"@,
{
    String::from_str("Handling request for /")
}

/// Dispatches one request: picks the handler registered for the method and
/// path, or the not-found answer, and returns the reply with the log lines
/// the handler emits.
pub fn handle(method: Method, path: &str) -> (h: Handled)
    ensures
        h.reply.status == spec_status(method, path@),
        h.reply.body@ == spec_body(method, path@),
        h.reply.media == spec_media(method, path@),
        h.log.deep_view() == spec_log(method, path@),
{
    if method == Method::Get && str_equal(path, "/healthz") {
        let h = Handled { reply: healthz_reply(), log: Vec::new() };
        proof {
            lemma_paths_differ();
            assert(h.log.deep_view() =~= spec_log(method, path@));
        }
        h
    } else if method == Method::Get && str_equal(path, "/") {
        let line = index_log_line();
        let mut log: Vec<String> = Vec::new();
        log.push(line);
        proof {
            lemma_paths_differ();
            assert(log.deep_view() =~= spec_log(method, path@));
        }
        Handled { reply: index_reply(), log }
    } else {
        let h = Handled { reply: not_found_reply(), log: Vec::new() };
        proof {
            assert(h.log.deep_view() =~= spec_log(method, path@));
        }
        h
    }
}

/// The two registered paths are distinct.
pub proof fn lemma_paths_differ()
    ensures
        "/"@ != "/healthz"@,
{
    reveal_strlit("/");
    reveal_strlit("/healthz");
    assert("/"@.len() != "/healthz"@.len());
}

/// Law: a GET of the health path is answered 200 with exactly
/// `{"status":"ok"}`, whatever else the request carries; nothing of the
/// request but its method and path reaches the decision. A method other
/// than GET finds no handler there.
pub proof fn lemma_health_route_answer(m: Method, path: Seq<char>)
    requires
        m == Method::Get,
        path == "/healthz"@,
    ensures
        spec_status(m, path) == 200,
        spec_body(m, path) == "{\"status\":\"ok\"}"@,
        spec_log(m, path).len() == 0,
{
    lemma_health_body_literal();
    lemma_paths_differ();
}

/// Law: a GET of the root path is answered 200 with exactly the service
/// greeting, and exactly one log line is recorded.
pub proof fn lemma_index_route_answer(m: Method, path: Seq<char>)
    requires
        m == Method::Get,
        path == "/"@,
    ensures
        spec_status(m, path) == 200,
        spec_body(m, path) == "user-management ok"@,
        spec_log(m, path).len() == 1,
{
    lemma_paths_differ();
}

/// Law: a request for any path other than the two registered ones is
/// answered 404 with an empty body and no log line, whatever its method.
pub proof fn lemma_unknown_path_not_found(m: Method, path: Seq<char>)
    requires
        path != "/"@,
        path != "/healthz"@,
    ensures
        spec_status(m, path) == 404,
        spec_body(m, path) == Seq::<char>::empty(),
        spec_log(m, path).len() == 0,
{
}

/// Law: only GET handlers are registered, so any other method is answered
/// 404 on every path.
pub proof fn lemma_other_method_not_found(m: Method, path: Seq<char>)
    requires
        m != Method::Get,
    ensures
        spec_status(m, path) == 404,
        spec_body(m, path) == Seq::<char>::empty(),
        spec_log(m, path).len() == 0,
{
}

/// The Content-Type text each media type is declared as.
pub fn media_label(m: MediaType) -> (r: &'static str)
    ensures
        m == MediaType::Json ==> r@ == "application/json"@,
        m == MediaType::PlainText ==> r@ == "text/plain"@,
{
    match m {
        MediaType::Json => "application/json",
        MediaType::PlainText => "text/plain",
    }
}

} // verus!
