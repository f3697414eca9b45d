use user_management::route::{
    handle, healthz_reply, index_reply, media_label, not_found_reply, Method, MediaType,
};

#[test]
fn get_healthz_returns_ok_json() {
    let h = handle(Method::Get, "/healthz");
    assert_eq!(h.reply.status, 200);
    assert_eq!(h.reply.media, Some(MediaType::Json));
    assert_eq!(h.reply.body, "{\"status\":\"ok\"}");
    assert_eq!(h.log.len(), 0);
}

#[test]
fn get_index_returns_greeting_and_one_log_line() {
    let h = handle(Method::Get, "/");
    assert_eq!(h.reply.status, 200);
    assert_eq!(h.reply.media, Some(MediaType::PlainText));
    assert_eq!(h.reply.body, "user-management ok");
    assert_eq!(h.log.len(), 1);
    assert_eq!(h.log[0], "Handling request for /");
}

#[test]
fn post_healthz_not_found() {
    let h = handle(Method::Post, "/healthz");
    assert_eq!(h.reply.status, 404);
    assert_eq!(h.reply.media, None);
    assert_eq!(h.reply.body, "");
    assert_eq!(h.log.len(), 0);
}

#[test]
fn unknown_path_not_found() {
    let h = handle(Method::Get, "/nope");
    assert_eq!(h.reply.status, 404);
    assert_eq!(h.reply.body, "");
    assert_eq!(h.log.len(), 0);
}

#[test]
fn near_miss_paths_not_found() {
    assert_eq!(handle(Method::Get, "/health").reply.status, 404);
    assert_eq!(handle(Method::Get, "/healthz/").reply.status, 404);
    assert_eq!(handle(Method::Get, "").reply.status, 404);
    assert_eq!(handle(Method::Get, "//").reply.status, 404);
}

#[test]
fn other_methods_not_found_on_registered_paths() {
    assert_eq!(handle(Method::Put, "/").reply.status, 404);
    assert_eq!(handle(Method::Delete, "/").reply.status, 404);
    assert_eq!(handle(Method::Head, "/healthz").reply.status, 404);
    assert_eq!(handle(Method::Options, "/").reply.status, 404);
    assert_eq!(handle(Method::Patch, "/healthz").reply.status, 404);
}

#[test]
fn canned_replies_hold_the_fixed_answers() {
    let h = healthz_reply();
    assert_eq!(h.status, 200);
    assert_eq!(h.body, "{\"status\":\"ok\"}");
    let i = index_reply();
    assert_eq!(i.status, 200);
    assert_eq!(i.body, "user-management ok");
    let n = not_found_reply();
    assert_eq!(n.status, 404);
    assert_eq!(n.body, "");
}

#[test]
fn media_labels() {
    assert_eq!(media_label(MediaType::Json), "application/json");
    assert_eq!(media_label(MediaType::PlainText), "text/plain");
}
