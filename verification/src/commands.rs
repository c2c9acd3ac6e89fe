//! The single-call playback and catalog commands of the façade.
//!
//! Every command has the same shape: a plan function turns the bearer
//! token (and the command's arguments) into the exact provider request,
//! failing with `NotAuthenticated` before any network work when no token
//! is there; an outcome function maps what the caller got back. The
//! multi-step commands live in their own modules.

use vstd::prelude::*;

use crate::credential::Credential;
use crate::encoding::ascii_chars_of;
use crate::encoding::lemma_ascii_bytes_decode;
use crate::encoding::string_of_utf8;
use crate::errors::FacadeError;
use crate::http::is_success;
use crate::http::spec_is_success;
use crate::http::HttpMethod;
use crate::http::HttpOutcome;
use crate::http::ProviderRequest;
use crate::json::parse_json;
use crate::json::playlist_doc_of_text;
use crate::json::spec_is_json;
use crate::json::spec_json_value;
use crate::json::spec_playlist_doc;
use crate::json::PlaylistDoc;
use crate::store::TokenStore;

verus! {

/// The placeholder shown when a playlist brings no image of its own.
pub open spec fn spec_playlist_placeholder() -> Seq<char> {
    "https://placehold.co/600x600/222/fff?text=No+Image"@
}

/// A copy of the stored credential's access token, or nothing when no
/// credential is stored.
pub fn token_from_store(store: &TokenStore) -> (r: Option<String>)
    ensures
        r is Some <==> store.spec_credential() is Some,
        r matches Some(t) ==> t == store.spec_credential().unwrap().access_token,
{
    match store.get_credential() {
        Some(c) => Some(c.access_token),
        None => None,
    }
}

/// Build a request with no body.
fn plan_get(access: &Option<String>, url: &str) -> (r: Result<ProviderRequest, FacadeError>)
    ensures
        access is None <==> r is Err,
        r matches Err(e) ==> e is NotAuthenticated,
        r matches Ok(req) ==> req.method is Get && req.url@ == url@ && req.bearer
            == access.unwrap() && req.body is None,
{
    match access {
        Some(token) => Ok(
            ProviderRequest {
                method: HttpMethod::Get,
                url: String::from_str(url),
                bearer: token.clone(),
                body: None,
            },
        ),
        None => Err(FacadeError::NotAuthenticated),
    }
}

/// Build a state-changing request that carries the empty JSON object as
/// its body, as the provider demands of every PUT and POST.
fn plan_with_empty_body(access: &Option<String>, method: HttpMethod, url: &str) -> (r: Result<
    ProviderRequest,
    FacadeError,
>)
    ensures
        access is None <==> r is Err,
        r matches Err(e) ==> e is NotAuthenticated,
        r matches Ok(req) ==> req.method == method && req.url@ == url@ && req.bearer
            == access.unwrap() && (req.body matches Some(b) && b@ == "{}"@),
{
    match access {
        Some(token) => Ok(
            ProviderRequest {
                method,
                url: String::from_str(url),
                bearer: token.clone(),
                body: Some(String::from_str("{}")),
            },
        ),
        None => Err(FacadeError::NotAuthenticated),
    }
}

/// The request of `pause`: PUT on the player's pause endpoint.
pub fn plan_pause(access: &Option<String>) -> (r: Result<ProviderRequest, FacadeError>)
    ensures
        access is None <==> r is Err,
        r matches Err(e) ==> e is NotAuthenticated,
        r matches Ok(req) ==> req.method is Put && req.url@
            == "https://api.spotify.com/v1/me/player/pause"@ && req.bearer == access.unwrap()
            && (req.body matches Some(b) && b@ == "{}"@),
{
    plan_with_empty_body(access, HttpMethod::Put, "https://api.spotify.com/v1/me/player/pause")
}

/// The request of `skip_next`: POST on the player's next-track endpoint.
pub fn plan_skip_next(access: &Option<String>) -> (r: Result<ProviderRequest, FacadeError>)
    ensures
        access is None <==> r is Err,
        r matches Err(e) ==> e is NotAuthenticated,
        r matches Ok(req) ==> req.method is Post && req.url@
            == "https://api.spotify.com/v1/me/player/next"@ && req.bearer == access.unwrap()
            && (req.body matches Some(b) && b@ == "{}"@),
{
    plan_with_empty_body(access, HttpMethod::Post, "https://api.spotify.com/v1/me/player/next")
}

/// The request of `skip_previous`: POST on the player's previous-track
/// endpoint.
pub fn plan_skip_previous(access: &Option<String>) -> (r: Result<ProviderRequest, FacadeError>)
    ensures
        access is None <==> r is Err,
        r matches Err(e) ==> e is NotAuthenticated,
        r matches Ok(req) ==> req.method is Post && req.url@
            == "https://api.spotify.com/v1/me/player/previous"@ && req.bearer == access.unwrap()
            && (req.body matches Some(b) && b@ == "{}"@),
{
    plan_with_empty_body(access, HttpMethod::Post, "https://api.spotify.com/v1/me/player/previous")
}

/// The request of `restart_song`: PUT seeking the current track to its
/// start.
pub fn plan_restart_song(access: &Option<String>) -> (r: Result<ProviderRequest, FacadeError>)
    ensures
        access is None <==> r is Err,
        r matches Err(e) ==> e is NotAuthenticated,
        r matches Ok(req) ==> req.method is Put && req.url@
            == "https://api.spotify.com/v1/me/player/seek?position_ms=0"@ && req.bearer
            == access.unwrap() && (req.body matches Some(b) && b@ == "{}"@),
{
    plan_with_empty_body(
        access,
        HttpMethod::Put,
        "https://api.spotify.com/v1/me/player/seek?position_ms=0",
    )
}

/// The decimal digits of a number, most significant first, as ASCII
/// bytes.
pub open spec fn spec_decimal_bytes(n: nat) -> Seq<u8>
    decreases n,
{
    if n < 10 {
        seq![(0x30 + n) as u8]
    } else {
        spec_decimal_bytes(n / 10) + seq![(0x30 + n % 10) as u8]
    }
}

/// Render a number's decimal digits.
pub fn decimal_digits(v: u8) -> (r: Vec<u8>)
    ensures
        r@ == spec_decimal_bytes(v as nat),
        forall|i: int| 0 <= i < r@.len() ==> r@[i] < 0x80,
    decreases v,
{
    if v < 10 {
        let mut out: Vec<u8> = Vec::new();
        out.push(0x30 + v);
        proof {
            assert(out@ =~= spec_decimal_bytes(v as nat));
        }
        out
    } else {
        let mut out = decimal_digits(v / 10);
        out.push(0x30 + v % 10);
        proof {
            assert(out@ =~= spec_decimal_bytes(v as nat));
        }
        out
    }
}

/// The URL of the volume endpoint for a given percentage.
pub open spec fn spec_volume_url(volume: nat) -> Seq<char> {
    "https://api.spotify.com/v1/me/player/volume?volume_percent="@ + ascii_chars_of(
        spec_decimal_bytes(volume),
    )
}

/// The request of `set_volume`: PUT on the volume endpoint with the
/// percentage in the query string. The percentage is a share of full
/// volume, so at most 100.
pub fn plan_set_volume(access: &Option<String>, volume: u8) -> (r: Result<
    ProviderRequest,
    FacadeError,
>)
    requires
        volume <= 100,
    ensures
        access is None <==> r is Err,
        r matches Err(e) ==> e is NotAuthenticated,
        r matches Ok(req) ==> req.method is Put && req.url@ == spec_volume_url(volume as nat)
            && req.bearer == access.unwrap() && (req.body matches Some(b) && b@ == "{}"@),
{
    match access {
        Some(token) => {
            let digits = decimal_digits(volume);
            proof {
                lemma_ascii_bytes_decode(digits@);
            }
            let digits_str = string_of_utf8(digits);
            let mut url = String::from_str(
                "https://api.spotify.com/v1/me/player/volume?volume_percent=",
            );
            url.append(digits_str.as_str());
            proof {
                assert(url@ =~= spec_volume_url(volume as nat));
            }
            Ok(
                ProviderRequest {
                    method: HttpMethod::Put,
                    url,
                    bearer: token.clone(),
                    body: Some(String::from_str("{}")),
                },
            )
        },
        None => Err(FacadeError::NotAuthenticated),
    }
}

/// True of a string that JSON serialization passes through verbatim: no
/// quote, no backslash, no control character.
pub open spec fn spec_plain_json_chars(s: Seq<char>) -> bool {
    forall|i: int| 0 <= i < s.len() ==> s[i] != '"' && s[i] != '\\' && (s[i] as u32) >= 0x20
}

/// Relies on `serde_json::Value::to_string` (through `Map` and
/// `Value::String`): one JSON object with the single string member
/// `context_uri`; a member string without quote, backslash or control
/// characters is serialized verbatim between its quotes.
#[verifier::external_body]
fn json_context_uri_object(uri: &str) -> (r: String)
    ensures
        spec_plain_json_chars(uri@) ==> r@ == "{\"context_uri\":\""@ + uri@ + "\"}"@,
{
    let mut members = serde_json::Map::new();
    members.insert("context_uri".to_string(), serde_json::Value::String(uri.to_string()));
    serde_json::Value::Object(members).to_string()
}

/// The context URI of a playlist.
pub open spec fn spec_playlist_context_uri(id: Seq<char>) -> Seq<char> {
    "spotify:playlist:"@ + id
}

/// The request of `change_playlist`: PUT on the player's play endpoint
/// with the playlist's context URI as the body. The body is exact for
/// every id free of quotes, backslashes and control characters — every
/// id the provider issues.
pub fn plan_change_playlist(access: &Option<String>, id: &str) -> (r: Result<
    ProviderRequest,
    FacadeError,
>)
    ensures
        access is None <==> r is Err,
        r matches Err(e) ==> e is NotAuthenticated,
        r matches Ok(req) ==> req.method is Put && req.url@
            == "https://api.spotify.com/v1/me/player/play"@ && req.bearer == access.unwrap()
            && req.body is Some,
        spec_plain_json_chars(id@) ==> (r matches Ok(req) ==> req.body.unwrap()@
            == "{\"context_uri\":\""@ + spec_playlist_context_uri(id@) + "\"}"@),
{
    match access {
        Some(token) => {
            let mut uri = String::from_str("spotify:playlist:");
            uri.append(id);
            proof {
                assert(uri@ =~= spec_playlist_context_uri(id@));
                reveal_strlit("spotify:playlist:");
                if spec_plain_json_chars(id@) {
                    assert forall|i: int| 0 <= i < uri@.len() implies uri@[i] != '"' && uri@[i]
                        != '\\' && (uri@[i] as u32) >= 0x20 by {
                        if i < "spotify:playlist:"@.len() {
                            assert(uri@[i] == "spotify:playlist:"@[i]);
                        } else {
                            assert(uri@[i] == id@[i - "spotify:playlist:"@.len()]);
                        }
                    }
                    assert(spec_plain_json_chars(uri@));
                }
            }
            let body = json_context_uri_object(uri.as_str());
            Ok(
                ProviderRequest {
                    method: HttpMethod::Put,
                    url: String::from_str("https://api.spotify.com/v1/me/player/play"),
                    bearer: token.clone(),
                    body: Some(body),
                },
            )
        },
        None => Err(FacadeError::NotAuthenticated),
    }
}

/// The request of `fetch_playlists`: GET on the caller's playlist list.
pub fn plan_fetch_playlists(access: &Option<String>) -> (r: Result<ProviderRequest, FacadeError>)
    ensures
        access is None <==> r is Err,
        r matches Err(e) ==> e is NotAuthenticated,
        r matches Ok(req) ==> req.method is Get && req.url@
            == "https://api.spotify.com/v1/me/playlists"@ && req.bearer == access.unwrap()
            && req.body is None,
{
    plan_get(access, "https://api.spotify.com/v1/me/playlists")
}

/// The request of `get_devices`: GET on the device list.
pub fn plan_get_devices(access: &Option<String>) -> (r: Result<ProviderRequest, FacadeError>)
    ensures
        access is None <==> r is Err,
        r matches Err(e) ==> e is NotAuthenticated,
        r matches Ok(req) ==> req.method is Get && req.url@
            == "https://api.spotify.com/v1/me/player/devices"@ && req.bearer == access.unwrap()
            && req.body is None,
{
    plan_get(access, "https://api.spotify.com/v1/me/player/devices")
}

/// The request of `get_playback_state` (and of `get_current_playback`):
/// GET on the player state.
pub fn plan_get_playback_state(access: &Option<String>) -> (r: Result<
    ProviderRequest,
    FacadeError,
>)
    ensures
        access is None <==> r is Err,
        r matches Err(e) ==> e is NotAuthenticated,
        r matches Ok(req) ==> req.method is Get && req.url@
            == "https://api.spotify.com/v1/me/player"@ && req.bearer == access.unwrap()
            && req.body is None,
{
    plan_get(access, "https://api.spotify.com/v1/me/player")
}

/// The request of `get_user_profile`: GET on the caller's profile.
pub fn plan_get_user_profile(access: &Option<String>) -> (r: Result<ProviderRequest, FacadeError>)
    ensures
        access is None <==> r is Err,
        r matches Err(e) ==> e is NotAuthenticated,
        r matches Ok(req) ==> req.method is Get && req.url@ == "https://api.spotify.com/v1/me"@
            && req.bearer == access.unwrap() && req.body is None,
{
    plan_get(access, "https://api.spotify.com/v1/me")
}

/// The URL of one playlist resource.
pub open spec fn spec_playlist_url(id: Seq<char>) -> Seq<char> {
    "https://api.spotify.com/v1/playlists/"@ + id
}

/// The request of `get_playlist_image`: GET on the playlist resource.
pub fn plan_get_playlist(access: &Option<String>, id: &str) -> (r: Result<
    ProviderRequest,
    FacadeError,
>)
    ensures
        access is None <==> r is Err,
        r matches Err(e) ==> e is NotAuthenticated,
        r matches Ok(req) ==> req.method is Get && req.url@ == spec_playlist_url(id@)
            && req.bearer == access.unwrap() && req.body is None,
{
    match access {
        Some(token) => {
            let mut url = String::from_str("https://api.spotify.com/v1/playlists/");
            url.append(id);
            proof {
                assert(url@ =~= spec_playlist_url(id@));
            }
            Ok(
                ProviderRequest {
                    method: HttpMethod::Get,
                    url,
                    bearer: token.clone(),
                    body: None,
                },
            )
        },
        None => Err(FacadeError::NotAuthenticated),
    }
}

/// The outcome mapping shared by the commands that hand the provider's
/// JSON document back to the caller unchanged: a 2xx response succeeds
/// exactly when its body is well-formed JSON, and then returns exactly
/// the body's parsed value, failing as a parse error otherwise; any
/// other status is a provider error carrying the body; a transport
/// failure is a transport error.
pub fn json_body_outcome(outcome: HttpOutcome) -> (r: Result<serde_json::Value, FacadeError>)
    ensures
        (match outcome {
            HttpOutcome::Response { status, body } => {
                if spec_is_success(status) {
                    (r is Ok <==> spec_is_json(body@)) && (r matches Ok(v) ==> v
                        == spec_json_value(body@)) && (r matches Err(e)
                        ==> e matches FacadeError::ParseError(m) && m@
                        == "Response body is not well-formed JSON."@)
                } else {
                    r matches Err(e) && e == FacadeError::ProviderError(body)
                }
            },
            HttpOutcome::Transport { detail } => r matches Err(e) && e
                == FacadeError::TransportError(detail),
        }),
{
    match outcome {
        HttpOutcome::Response { status, body } => {
            if is_success(status) {
                match parse_json(body.as_str()) {
                    Some(v) => Ok(v),
                    None => Err(
                        FacadeError::ParseError(
                            String::from_str("Response body is not well-formed JSON."),
                        ),
                    ),
                }
            } else {
                Err(FacadeError::ProviderError(body))
            }
        },
        HttpOutcome::Transport { detail } => Err(FacadeError::TransportError(detail)),
    }
}

/// The image URL that a playlist document determines: its first image,
/// or the fixed placeholder when it brings none.
pub open spec fn spec_playlist_image_of(doc: PlaylistDoc, r: String) -> bool {
    &&& doc.first_image_url is Some ==> r == doc.first_image_url.unwrap()
    &&& doc.first_image_url is None ==> r@ == spec_playlist_placeholder()
}

/// The image URL of a playlist document: its first image, or the fixed
/// placeholder when it brings none.
pub fn playlist_image_of_doc(doc: PlaylistDoc) -> (r: String)
    ensures
        spec_playlist_image_of(doc, r),
{
    match doc.first_image_url {
        Some(u) => u,
        None => String::from_str("https://placehold.co/600x600/222/fff?text=No+Image"),
    }
}

/// The outcome mapping of `get_playlist_image`: a well-formed 2xx body
/// owes the playlist resource's first image URL, with the fixed
/// placeholder when the resource brings no image; a 2xx body that is not
/// JSON is a parse failure; any other status is a provider error
/// carrying the body; a transport failure is a transport error.
pub fn playlist_image_outcome(outcome: HttpOutcome) -> (r: Result<String, FacadeError>)
    ensures
        (match outcome {
            HttpOutcome::Response { status, body } => {
                if spec_is_success(status) {
                    if !spec_is_json(body@) {
                        r matches Err(e) && e matches FacadeError::ParseError(m) && m@
                            == "Response body is not well-formed JSON."@
                    } else {
                        r matches Ok(u) && spec_playlist_image_of(spec_playlist_doc(body@), u)
                    }
                } else {
                    r matches Err(e) && e == FacadeError::ProviderError(body)
                }
            },
            HttpOutcome::Transport { detail } => r matches Err(e) && e
                == FacadeError::TransportError(detail),
        }),
{
    match outcome {
        HttpOutcome::Response { status, body } => {
            if is_success(status) {
                match playlist_doc_of_text(body.as_str()) {
                    Some(doc) => Ok(playlist_image_of_doc(doc)),
                    None => Err(
                        FacadeError::ParseError(
                            String::from_str("Response body is not well-formed JSON."),
                        ),
                    ),
                }
            } else {
                Err(FacadeError::ProviderError(body))
            }
        },
        HttpOutcome::Transport { detail } => Err(FacadeError::TransportError(detail)),
    }
}

/// A copy of the full stored credential, failing as `NotAuthenticated`
/// when the store is empty; what `get_current_playback` starts from.
pub fn credential_or_fail(store: &TokenStore) -> (r: Result<Credential, FacadeError>)
    ensures
        r is Ok <==> store.spec_credential() is Some,
        r matches Ok(c) ==> Some(c) == store.spec_credential(),
        r matches Err(e) ==> e is NotAuthenticated,
{
    match store.get_credential() {
        Some(c) => Ok(c),
        None => Err(FacadeError::NotAuthenticated),
    }
}

} // verus!
