use spotify_core::auth_url::build_authorization_url;
use spotify_core::auth_url::join_scopes;
use spotify_core::encoding::percent_decode_bytes;
use spotify_core::encoding::percent_encode_str;
use spotify_core::errors::FacadeError;

#[test]
fn auth_url_encodes_scopes_and_identity() {
    let scopes = vec![String::from("a"), String::from("b")];
    let url = build_authorization_url("myclient", "http://127.0.0.1:4242/callback", &scopes)
        .expect("client id is configured");
    assert_eq!(
        url,
        "https://accounts.spotify.com/authorize?client_id=myclient&response_type=code&redirect_uri=http%3A%2F%2F127.0.0.1%3A4242%2Fcallback&scope=a%20b"
    );
    assert!(url.contains("scope=a%20b"));
    assert!(url.contains("client_id=myclient"));
    assert!(url.contains("redirect_uri=http%3A%2F%2F127.0.0.1%3A4242%2Fcallback"));
}

#[test]
fn auth_url_without_client_id_is_a_configuration_error() {
    let scopes = vec![String::from("a")];
    let r = build_authorization_url("", "http://127.0.0.1:4242/callback", &scopes);
    assert!(matches!(r, Err(FacadeError::ConfigurationError)));
}

#[test]
fn join_scopes_spaces_between_entries() {
    assert_eq!(join_scopes(&vec![]), "");
    assert_eq!(join_scopes(&vec![String::from("one")]), "one");
    assert_eq!(
        join_scopes(&vec![
            String::from("user-read-playback-state"),
            String::from("streaming"),
        ]),
        "user-read-playback-state streaming"
    );
}

#[test]
fn percent_encoding_keeps_unreserved_bytes() {
    assert_eq!(percent_encode_str("AZaz09-._~"), "AZaz09-._~");
}

#[test]
fn percent_encoding_escapes_the_rest() {
    assert_eq!(percent_encode_str("a b+c"), "a%20b%2Bc");
    assert_eq!(percent_encode_str("/:?="), "%2F%3A%3F%3D");
}

#[test]
fn percent_encoding_escapes_multibyte_characters_bytewise() {
    // U+00E9 is 0xC3 0xA9 in UTF-8.
    assert_eq!(percent_encode_str("\u{e9}"), "%C3%A9");
}

#[test]
fn percent_decoding_reverses_escapes() {
    assert_eq!(percent_decode_bytes(b"%41%61"), b"Aa");
    assert_eq!(percent_decode_bytes(b"a+b"), b"a b");
    // A percent sign not followed by two hex digits passes through.
    assert_eq!(percent_decode_bytes(b"100%"), b"100%");
    assert_eq!(percent_decode_bytes(b"%zz"), b"%zz");
}

#[test]
fn percent_decoding_undoes_percent_encoding() {
    let original = "a b+c/:?=~\u{e9}";
    let encoded = percent_encode_str(original);
    let decoded = percent_decode_bytes(encoded.as_bytes());
    assert_eq!(decoded, original.as_bytes());
}
