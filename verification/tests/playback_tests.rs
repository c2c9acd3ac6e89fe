use spotify_core::errors::FacadeError;
use spotify_core::http::HttpMethod;
use spotify_core::http::HttpOutcome;
use spotify_core::now_playing::artist_outcome;
use spotify_core::now_playing::plan_currently_playing;
use spotify_core::now_playing::playing_outcome;
use spotify_core::play::plan_play;
use spotify_core::play::play_devices_outcome;
use spotify_core::shuffle::plan_shuffle_read;
use spotify_core::shuffle::shuffle_put_outcome;
use spotify_core::shuffle::shuffle_read_outcome;

fn response(status: u16, body: &str) -> HttpOutcome {
    HttpOutcome::Response { status, body: String::from(body) }
}

fn token() -> Option<String> {
    Some(String::from("TOKEN"))
}

#[test]
fn no_content_means_no_active_session() {
    let r = playing_outcome("TOKEN", response(204, ""));
    assert!(matches!(r, Err(FacadeError::NoActiveSession)));
}

#[test]
fn no_content_is_never_a_parse_error() {
    // Even a 204 carrying an unparseable body is the no-session outcome.
    let r = playing_outcome("TOKEN", response(204, "<not json>"));
    assert!(!matches!(r, Err(FacadeError::ParseError(_))));
    assert!(matches!(r, Err(FacadeError::NoActiveSession)));
}

#[test]
fn missing_album_images_fall_back_to_the_placeholder() {
    let body = r#"{
        "progress_ms": 1000,
        "item": {
            "name": "Song",
            "duration_ms": 2000,
            "artists": [{"name": "Artist", "id": "A1"}],
            "album": {}
        }
    }"#;
    let step = playing_outcome("TOKEN", response(200, body)).unwrap();
    assert_eq!(step.title, "Song");
    assert_eq!(step.artist, "Artist");
    assert_eq!(step.album_image_url, "https://via.placeholder.com/300");
    assert_eq!(step.progress_ms, 1000);
    assert_eq!(step.duration_ms, 2000);
    assert_eq!(step.artist_id, "A1");
    assert_eq!(step.request.url, "https://api.spotify.com/v1/artists/A1");
}

#[test]
fn missing_artist_id_fails_the_whole_command() {
    let body = r#"{
        "item": {
            "name": "Song",
            "artists": [{"name": "Artist"}],
            "album": {"images": [{"url": "cover"}]}
        }
    }"#;
    let r = playing_outcome("TOKEN", response(200, body));
    match r {
        Err(FacadeError::ParseError(m)) => assert_eq!(m, "No artist ID found."),
        _ => panic!("expected a parse error"),
    }
}

#[test]
fn absent_decorative_fields_get_defaults() {
    let body = r#"{"item": {"artists": [{"id": "A1"}]}}"#;
    let step = playing_outcome("TOKEN", response(200, body)).unwrap();
    assert_eq!(step.title, "Unknown Title");
    assert_eq!(step.artist, "Unknown Artist");
    assert_eq!(step.progress_ms, 0);
    assert_eq!(step.duration_ms, 0);
}

#[test]
fn artist_step_completes_the_snapshot() {
    let body = r#"{
        "progress_ms": 5,
        "item": {
            "name": "Song",
            "duration_ms": 9,
            "artists": [{"name": "Artist", "id": "A1"}],
            "album": {"images": [{"url": "cover"}]}
        }
    }"#;
    let step = playing_outcome("TOKEN", response(200, body)).unwrap();
    let snapshot = artist_outcome(step, response(200, r#"{"images":[{"url":"face"}]}"#)).unwrap();
    assert_eq!(snapshot.title, "Song");
    assert_eq!(snapshot.artist, "Artist");
    assert_eq!(snapshot.album_image_url, "cover");
    assert_eq!(snapshot.artist_image_url, "face");
    assert_eq!(snapshot.progress_ms, 5);
    assert_eq!(snapshot.duration_ms, 9);
}

#[test]
fn artist_without_images_gets_the_placeholder() {
    let body = r#"{"item": {"artists": [{"id": "A1"}]}}"#;
    let step = playing_outcome("TOKEN", response(200, body)).unwrap();
    let snapshot = artist_outcome(step, response(200, "{}")).unwrap();
    assert_eq!(snapshot.artist_image_url, "https://via.placeholder.com/300");
}

#[test]
fn failing_artist_step_returns_no_partial_result() {
    let body = r#"{"item": {"name": "Song", "artists": [{"id": "A1"}]}}"#;
    let step = playing_outcome("TOKEN", response(200, body)).unwrap();
    let r = artist_outcome(step, response(500, "artist backend down"));
    match r {
        Err(FacadeError::ProviderError(b)) => assert_eq!(b, "artist backend down"),
        _ => panic!("expected a provider error"),
    }
}

#[test]
fn currently_playing_plan_requires_a_token() {
    assert!(matches!(
        plan_currently_playing(&None),
        Err(FacadeError::NotAuthenticated)
    ));
    let req = plan_currently_playing(&token()).unwrap();
    assert_eq!(req.url, "https://api.spotify.com/v1/me/player/currently-playing");
    assert!(req.body.is_none());
}

#[test]
fn empty_device_list_is_no_active_device() {
    let r = play_devices_outcome("TOKEN", response(200, r#"{"devices":[]}"#));
    assert!(matches!(r, Err(FacadeError::NoActiveDevice)));
}

#[test]
fn play_targets_the_first_device() {
    let body = r#"{"devices":[{"id":"d1"},{"id":"d2"}]}"#;
    let step = play_devices_outcome("TOKEN", response(200, body)).unwrap();
    assert_eq!(step.device_id, "d1");
    assert!(matches!(step.request.method, HttpMethod::Put));
    assert_eq!(
        step.request.url,
        "https://api.spotify.com/v1/me/player/play?device_id=d1"
    );
    assert_eq!(step.request.body.as_deref(), Some("{}"));
}

#[test]
fn device_list_without_the_array_is_a_parse_error() {
    let r = play_devices_outcome("TOKEN", response(200, "{}"));
    assert!(matches!(r, Err(FacadeError::ParseError(_))));
}

#[test]
fn play_plan_requires_a_token() {
    assert!(matches!(plan_play(&None), Err(FacadeError::NotAuthenticated)));
    let req = plan_play(&token()).unwrap();
    assert_eq!(req.url, "https://api.spotify.com/v1/me/player/devices");
}

#[test]
fn shuffle_off_toggles_to_on() {
    let step = shuffle_read_outcome("TOKEN", response(200, r#"{"shuffle_state":false}"#)).unwrap();
    assert!(step.state);
    assert_eq!(
        step.request.url,
        "https://api.spotify.com/v1/me/player/shuffle?state=true"
    );
    assert_eq!(step.request.body.as_deref(), Some("{}"));
    let r = shuffle_put_outcome(step.state, response(204, ""));
    assert_eq!(r.unwrap(), true);
}

#[test]
fn shuffle_on_toggles_to_off() {
    let step = shuffle_read_outcome("TOKEN", response(200, r#"{"shuffle_state":true}"#)).unwrap();
    assert!(!step.state);
    assert_eq!(
        step.request.url,
        "https://api.spotify.com/v1/me/player/shuffle?state=false"
    );
}

#[test]
fn absent_shuffle_flag_reads_as_off() {
    let step = shuffle_read_outcome("TOKEN", response(200, "{}")).unwrap();
    assert!(step.state);
}

#[test]
fn shuffle_write_failure_is_a_provider_error() {
    let r = shuffle_put_outcome(true, response(502, "bad gateway"));
    match r {
        Err(FacadeError::ProviderError(b)) => assert_eq!(b, "bad gateway"),
        _ => panic!("expected a provider error"),
    }
}

#[test]
fn shuffle_plan_requires_a_token() {
    assert!(matches!(
        plan_shuffle_read(&None),
        Err(FacadeError::NotAuthenticated)
    ));
    let req = plan_shuffle_read(&token()).unwrap();
    assert_eq!(req.url, "https://api.spotify.com/v1/me/player");
}
