use spotify_core::commands::credential_or_fail;
use spotify_core::commands::json_body_outcome;
use spotify_core::commands::plan_change_playlist;
use spotify_core::commands::plan_get_devices;
use spotify_core::commands::plan_get_playback_state;
use spotify_core::commands::plan_get_playlist;
use spotify_core::commands::plan_get_user_profile;
use spotify_core::commands::plan_pause;
use spotify_core::commands::plan_restart_song;
use spotify_core::commands::plan_set_volume;
use spotify_core::commands::plan_skip_next;
use spotify_core::commands::plan_skip_previous;
use spotify_core::commands::playlist_image_outcome;
use spotify_core::commands::token_from_store;
use spotify_core::credential::Credential;
use spotify_core::errors::FacadeError;
use spotify_core::http::unit_command_outcome;
use spotify_core::http::HttpMethod;
use spotify_core::http::HttpOutcome;
use spotify_core::store::TokenStore;

fn response(status: u16, body: &str) -> HttpOutcome {
    HttpOutcome::Response { status, body: String::from(body) }
}

fn token() -> Option<String> {
    Some(String::from("TOKEN"))
}

#[test]
fn commands_without_a_token_fail_before_any_network_call() {
    assert!(matches!(plan_pause(&None), Err(FacadeError::NotAuthenticated)));
    assert!(matches!(plan_skip_next(&None), Err(FacadeError::NotAuthenticated)));
    assert!(matches!(plan_skip_previous(&None), Err(FacadeError::NotAuthenticated)));
    assert!(matches!(plan_restart_song(&None), Err(FacadeError::NotAuthenticated)));
    assert!(matches!(plan_set_volume(&None, 50), Err(FacadeError::NotAuthenticated)));
    assert!(matches!(plan_get_devices(&None), Err(FacadeError::NotAuthenticated)));
    assert!(matches!(plan_get_user_profile(&None), Err(FacadeError::NotAuthenticated)));
}

#[test]
fn pause_request_carries_the_empty_json_object() {
    let req = plan_pause(&token()).unwrap();
    assert!(matches!(req.method, HttpMethod::Put));
    assert_eq!(req.url, "https://api.spotify.com/v1/me/player/pause");
    assert_eq!(req.bearer, "TOKEN");
    assert_eq!(req.body.as_deref(), Some("{}"));
}

#[test]
fn skip_requests_use_post() {
    let next = plan_skip_next(&token()).unwrap();
    assert!(matches!(next.method, HttpMethod::Post));
    assert_eq!(next.url, "https://api.spotify.com/v1/me/player/next");
    assert_eq!(next.body.as_deref(), Some("{}"));

    let previous = plan_skip_previous(&token()).unwrap();
    assert!(matches!(previous.method, HttpMethod::Post));
    assert_eq!(previous.url, "https://api.spotify.com/v1/me/player/previous");
}

#[test]
fn restart_seeks_to_the_track_start() {
    let req = plan_restart_song(&token()).unwrap();
    assert!(matches!(req.method, HttpMethod::Put));
    assert_eq!(req.url, "https://api.spotify.com/v1/me/player/seek?position_ms=0");
    assert_eq!(req.body.as_deref(), Some("{}"));
}

#[test]
fn volume_percentage_is_rendered_in_decimal() {
    let req = plan_set_volume(&token(), 55).unwrap();
    assert_eq!(
        req.url,
        "https://api.spotify.com/v1/me/player/volume?volume_percent=55"
    );
    let req = plan_set_volume(&token(), 0).unwrap();
    assert!(req.url.ends_with("volume_percent=0"));
    let req = plan_set_volume(&token(), 100).unwrap();
    assert!(req.url.ends_with("volume_percent=100"));
}

#[test]
fn change_playlist_sends_the_context_uri() {
    let req = plan_change_playlist(&token(), "abc123").unwrap();
    assert!(matches!(req.method, HttpMethod::Put));
    assert_eq!(req.url, "https://api.spotify.com/v1/me/player/play");
    assert_eq!(
        req.body.as_deref(),
        Some(r#"{"context_uri":"spotify:playlist:abc123"}"#)
    );
}

#[test]
fn playlist_request_addresses_the_resource() {
    let req = plan_get_playlist(&token(), "p1").unwrap();
    assert_eq!(req.url, "https://api.spotify.com/v1/playlists/p1");
    assert!(req.body.is_none());
}

#[test]
fn playback_state_request_addresses_the_player() {
    let req = plan_get_playback_state(&token()).unwrap();
    assert_eq!(req.url, "https://api.spotify.com/v1/me/player");
    assert!(matches!(req.method, HttpMethod::Get));
}

#[test]
fn unit_outcome_maps_statuses_uniformly() {
    assert!(unit_command_outcome(response(204, "")).is_ok());
    assert!(unit_command_outcome(response(200, "ignored")).is_ok());
    match unit_command_outcome(response(403, "denied")) {
        Err(FacadeError::ProviderError(body)) => assert_eq!(body, "denied"),
        _ => panic!("expected a provider error"),
    }
    match unit_command_outcome(HttpOutcome::Transport { detail: String::from("dns") }) {
        Err(FacadeError::TransportError(detail)) => assert_eq!(detail, "dns"),
        _ => panic!("expected a transport error"),
    }
}

#[test]
fn json_body_outcome_rejects_text_that_is_not_json() {
    let r = json_body_outcome(response(200, "<html>"));
    assert!(matches!(r, Err(FacadeError::ParseError(_))));
}

#[test]
fn json_body_outcome_hands_the_document_back() {
    let v = json_body_outcome(response(200, r#"{"devices":[{"id":"d"}]}"#)).unwrap();
    assert_eq!(v["devices"][0]["id"].as_str(), Some("d"));
}

#[test]
fn playlist_image_uses_the_first_image() {
    let r = playlist_image_outcome(response(200, r#"{"images":[{"url":"u1"},{"url":"u2"}]}"#));
    assert_eq!(r.unwrap(), "u1");
}

#[test]
fn playlist_without_images_gets_the_placeholder() {
    let r = playlist_image_outcome(response(200, r#"{"images":[]}"#));
    assert_eq!(r.unwrap(), "https://placehold.co/600x600/222/fff?text=No+Image");
}

#[test]
fn token_from_store_copies_the_access_token() {
    let mut store = TokenStore::new();
    assert_eq!(token_from_store(&store), None);
    store.set_credential(Credential {
        access_token: String::from("T"),
        token_type: String::from("Bearer"),
        expires_in: 1,
        refresh_token: None,
        scope: String::from("s"),
    });
    assert_eq!(token_from_store(&store).as_deref(), Some("T"));
}

#[test]
fn credential_or_fail_reports_not_authenticated() {
    let store = TokenStore::new();
    assert!(matches!(
        credential_or_fail(&store),
        Err(FacadeError::NotAuthenticated)
    ));
}

#[test]
fn error_messages_embed_the_raw_detail() {
    assert_eq!(
        FacadeError::ProviderError(String::from("raw body")).message(),
        "Provider returned an error: raw body"
    );
    assert_eq!(
        FacadeError::TransportError(String::from("timeout")).message(),
        "Transport failure: timeout"
    );
    assert_eq!(FacadeError::NoActiveSession.message(), "No song is currently playing.");
    assert_eq!(FacadeError::NoActiveDevice.message(), "No active playback device found.");
    assert_eq!(FacadeError::NotAuthenticated.message(), "No access token available.");
    assert_eq!(
        FacadeError::ConfigurationError.message(),
        "Client credentials are not configured."
    );
}
