use spotify_core::callback::handle_and_store;
use spotify_core::callback::handle_callback_request;
use spotify_core::store::TokenStore;

#[test]
fn callback_with_code_answers_200_and_stores_it() {
    let mut store = TokenStore::new();
    let r = handle_and_store(&mut store, "GET", "/callback", Some("code=XYZ123"));
    assert_eq!(r.status, 200);
    assert_eq!(r.code.as_deref(), Some("XYZ123"));
    assert_eq!(store.take_pending_code().as_deref(), Some("XYZ123"));
}

#[test]
fn pending_code_is_consumed_by_the_read() {
    let mut store = TokenStore::new();
    handle_and_store(&mut store, "GET", "/callback", Some("code=XYZ123"));
    assert_eq!(store.take_pending_code().as_deref(), Some("XYZ123"));
    assert_eq!(store.take_pending_code(), None);
}

#[test]
fn callback_without_query_answers_400_and_touches_nothing() {
    let mut store = TokenStore::new();
    store.set_pending_code(String::from("earlier"));
    let r = handle_and_store(&mut store, "GET", "/callback", None);
    assert_eq!(r.status, 400);
    assert_eq!(r.body, "Missing 'code' parameter.");
    assert_eq!(r.code, None);
    assert_eq!(store.take_pending_code().as_deref(), Some("earlier"));
}

#[test]
fn callback_without_code_parameter_answers_400() {
    let r = handle_callback_request("GET", "/callback", Some("state=abc"));
    assert_eq!(r.status, 400);
    assert_eq!(r.body, "Missing 'code' parameter.");
    assert_eq!(r.code, None);
}

#[test]
fn other_paths_and_methods_answer_404() {
    let r = handle_callback_request("GET", "/other", Some("code=XYZ123"));
    assert_eq!(r.status, 404);
    assert_eq!(r.body, "Not Found");
    assert_eq!(r.code, None);

    let r = handle_callback_request("POST", "/callback", Some("code=XYZ123"));
    assert_eq!(r.status, 404);
    assert_eq!(r.code, None);
}

#[test]
fn code_value_is_percent_decoded() {
    let r = handle_callback_request("GET", "/callback", Some("code=a%20b%2Bc"));
    assert_eq!(r.status, 200);
    assert_eq!(r.code.as_deref(), Some("a b+c"));

    let r = handle_callback_request("GET", "/callback", Some("code=a+b"));
    assert_eq!(r.code.as_deref(), Some("a b"));
}

#[test]
fn first_code_parameter_wins_among_several() {
    let r = handle_callback_request("GET", "/callback", Some("state=s&code=first&code=second"));
    assert_eq!(r.status, 200);
    assert_eq!(r.code.as_deref(), Some("first"));
}

#[test]
fn success_body_carries_the_code_onward() {
    let r = handle_callback_request("GET", "/callback", Some("code=XYZ123"));
    assert_eq!(r.status, 200);
    assert!(r.body.contains("tauri://localhost/callback?code=XYZ123"));
    assert!(r.body.starts_with("<!DOCTYPE html>"));
}

#[test]
fn key_match_is_exact_not_a_substring() {
    let r = handle_callback_request("GET", "/callback", Some("xcode=5&codex=6&code=real"));
    assert_eq!(r.code.as_deref(), Some("real"));
}

#[test]
fn keys_are_percent_decoded_before_matching() {
    let r = handle_callback_request("GET", "/callback", Some("%63ode=z"));
    assert_eq!(r.status, 200);
    assert_eq!(r.code.as_deref(), Some("z"));
}

#[test]
fn code_without_value_reads_as_empty() {
    let r = handle_callback_request("GET", "/callback", Some("code="));
    assert_eq!(r.status, 200);
    assert_eq!(r.code.as_deref(), Some(""));
}

#[test]
fn later_callback_overwrites_the_pending_code() {
    let mut store = TokenStore::new();
    handle_and_store(&mut store, "GET", "/callback", Some("code=first"));
    handle_and_store(&mut store, "GET", "/callback", Some("code=second"));
    assert_eq!(store.take_pending_code().as_deref(), Some("second"));
}
