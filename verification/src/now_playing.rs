//! The one command with two dependent provider calls: fetch the current
//! song.
//!
//! Step one reads the currently-playing resource and keeps its title,
//! artist, album image and counters, along with the artist's identifier;
//! step two reads that artist's resource for the artist image. The
//! decorative fields fall back to fixed defaults when absent, the artist
//! identifier is required, and when step two fails the whole command
//! fails — no partial snapshot is ever returned.

use vstd::prelude::*;

use crate::errors::FacadeError;
use crate::http::is_success;
use crate::http::spec_is_success;
use crate::http::HttpMethod;
use crate::http::HttpOutcome;
use crate::http::ProviderRequest;
use crate::json::artist_doc_of_text;
use crate::json::playing_doc_of_text;
use crate::json::spec_artist_doc;
use crate::json::spec_is_json;
use crate::json::spec_playing_doc;
use crate::json::ArtistDoc;
use crate::json::PlayingDoc;

verus! {

/// The combined now-playing result: what the caller renders.
pub struct PlaybackSnapshot {
    pub title: String,
    pub artist: String,
    pub album_image_url: String,
    pub artist_image_url: String,
    pub progress_ms: u64,
    pub duration_ms: u64,
}

/// What step one yields: the snapshot fields it could fill, the required
/// artist identifier, and the exact request of step two.
pub struct SnapshotStep {
    pub title: String,
    pub artist: String,
    pub album_image_url: String,
    pub progress_ms: u64,
    pub duration_ms: u64,
    pub artist_id: String,
    pub request: ProviderRequest,
}

/// The placeholder used when a response brings no image URL.
pub open spec fn spec_image_placeholder() -> Seq<char> {
    "https://via.placeholder.com/300"@
}

/// The URL of one artist resource.
pub open spec fn spec_artist_url(id: Seq<char>) -> Seq<char> {
    "https://api.spotify.com/v1/artists/"@ + id
}

/// The request of step one: GET on the currently-playing resource.
pub fn plan_currently_playing(access: &Option<String>) -> (r: Result<
    ProviderRequest,
    FacadeError,
>)
    ensures
        access is None <==> r is Err,
        r matches Err(e) ==> e is NotAuthenticated,
        r matches Ok(req) ==> req.method is Get && req.url@
            == "https://api.spotify.com/v1/me/player/currently-playing"@ && req.bearer
            == access.unwrap() && req.body is None,
{
    match access {
        Some(token) => Ok(
            ProviderRequest {
                method: HttpMethod::Get,
                url: String::from_str("https://api.spotify.com/v1/me/player/currently-playing"),
                bearer: token.clone(),
                body: None,
            },
        ),
        None => Err(FacadeError::NotAuthenticated),
    }
}

/// The exact step that a currently-playing document and the bearer token
/// determine, when the document carries the artist identifier: title and
/// artist name fall back to fixed labels, the album image to the
/// placeholder, the counters to zero, and the request of step two reads
/// the named artist.
pub open spec fn spec_step_of(access: Seq<char>, doc: PlayingDoc, step: SnapshotStep) -> bool {
    &&& doc.title is Some ==> step.title == doc.title.unwrap()
    &&& doc.title is None ==> step.title@ == "Unknown Title"@
    &&& doc.artist_name is Some ==> step.artist == doc.artist_name.unwrap()
    &&& doc.artist_name is None ==> step.artist@ == "Unknown Artist"@
    &&& doc.album_image_url is Some ==> step.album_image_url == doc.album_image_url.unwrap()
    &&& doc.album_image_url is None ==> step.album_image_url@ == spec_image_placeholder()
    &&& doc.progress_ms is Some ==> step.progress_ms == doc.progress_ms.unwrap()
    &&& doc.progress_ms is None ==> step.progress_ms == 0
    &&& doc.duration_ms is Some ==> step.duration_ms == doc.duration_ms.unwrap()
    &&& doc.duration_ms is None ==> step.duration_ms == 0
    &&& step.artist_id == doc.artist_id.unwrap()
    &&& step.request.method is Get
    &&& step.request.url@ == spec_artist_url(doc.artist_id.unwrap()@)
    &&& step.request.bearer@ == access
    &&& step.request.body is None
}

/// Decide step one from the fields of a currently-playing document.
///
/// Title and artist name fall back to fixed labels, the album image to
/// the placeholder, the counters to zero; the artist identifier is
/// structurally required, and without it the whole command fails as a
/// parse error.
pub fn snapshot_step_of_doc(access: &str, doc: PlayingDoc) -> (r: Result<
    SnapshotStep,
    FacadeError,
>)
    ensures
        doc.artist_id is None <==> r is Err,
        r matches Err(e) ==> e matches FacadeError::ParseError(m) && m@ == "No artist ID found."@,
        r matches Ok(step) ==> spec_step_of(access@, doc, step),
{
    let artist_id = match doc.artist_id {
        Some(id) => id,
        None => {
            return Err(FacadeError::ParseError(String::from_str("No artist ID found.")));
        },
    };
    let mut url = String::from_str("https://api.spotify.com/v1/artists/");
    url.append(artist_id.as_str());
    proof {
        assert(url@ =~= spec_artist_url(artist_id@));
    }
    Ok(
        SnapshotStep {
            title: match doc.title {
                Some(t) => t,
                None => String::from_str("Unknown Title"),
            },
            artist: match doc.artist_name {
                Some(a) => a,
                None => String::from_str("Unknown Artist"),
            },
            album_image_url: match doc.album_image_url {
                Some(u) => u,
                None => String::from_str("https://via.placeholder.com/300"),
            },
            progress_ms: match doc.progress_ms {
                Some(p) => p,
                None => 0,
            },
            duration_ms: match doc.duration_ms {
                Some(d) => d,
                None => 0,
            },
            artist_id,
            request: ProviderRequest {
                method: HttpMethod::Get,
                url,
                bearer: String::from_str(access),
                body: None,
            },
        },
    )
}

/// Decide step one from what the currently-playing call returned.
///
/// A 204 means nothing is playing: the distinct `NoActiveSession`
/// outcome, decided before any look at the body. Any other success
/// status has its body parsed: a body that is not well-formed JSON is a
/// parse failure, one without the artist identifier fails the command,
/// and every other success body owes the exact step. A failure status is
/// a provider error carrying the body; a transport failure is a
/// transport error.
pub fn playing_outcome(access: &str, outcome: HttpOutcome) -> (r: Result<
    SnapshotStep,
    FacadeError,
>)
    ensures
        (match outcome {
            HttpOutcome::Response { status, body } => {
                if status == 204 {
                    r matches Err(e) && e is NoActiveSession
                } else if spec_is_success(status) {
                    if !spec_is_json(body@) {
                        r matches Err(e) && e matches FacadeError::ParseError(m) && m@
                            == "Response body is not well-formed JSON."@
                    } else {
                        (spec_playing_doc(body@).artist_id is Some <==> r is Ok) && (
                        r matches Ok(step) ==> spec_step_of(access@, spec_playing_doc(body@), step))
                            && (r matches Err(e) ==> e matches FacadeError::ParseError(m) && m@
                            == "No artist ID found."@)
                    }
                } else {
                    r matches Err(e) && e == FacadeError::ProviderError(body)
                }
            },
            HttpOutcome::Transport { detail } => r matches Err(e) && e
                == FacadeError::TransportError(detail),
        }),
{
    match outcome {
        HttpOutcome::Response { status, body } => {
            if status == 204 {
                Err(FacadeError::NoActiveSession)
            } else if is_success(status) {
                match playing_doc_of_text(body.as_str()) {
                    Some(doc) => snapshot_step_of_doc(access, doc),
                    None => Err(
                        FacadeError::ParseError(
                            String::from_str("Response body is not well-formed JSON."),
                        ),
                    ),
                }
            } else {
                Err(FacadeError::ProviderError(body))
            }
        },
        HttpOutcome::Transport { detail } => Err(FacadeError::TransportError(detail)),
    }
}

/// The exact snapshot that step one and an artist document determine:
/// the fields of step one unchanged, and the artist image, or the
/// placeholder when the resource brings none.
pub open spec fn spec_completed(step: SnapshotStep, doc: ArtistDoc, s: PlaybackSnapshot) -> bool {
    &&& s.title == step.title
    &&& s.artist == step.artist
    &&& s.album_image_url == step.album_image_url
    &&& s.progress_ms == step.progress_ms
    &&& s.duration_ms == step.duration_ms
    &&& doc.image_url is Some ==> s.artist_image_url == doc.image_url.unwrap()
    &&& doc.image_url is None ==> s.artist_image_url@ == spec_image_placeholder()
}

/// Complete the snapshot from the fields of an artist document: the
/// artist image, or the placeholder when the resource brings none, joins
/// the fields of step one unchanged.
pub fn snapshot_of_artist_doc(step: SnapshotStep, doc: ArtistDoc) -> (r: PlaybackSnapshot)
    ensures
        spec_completed(step, doc, r),
{
    PlaybackSnapshot {
        title: step.title,
        artist: step.artist,
        album_image_url: step.album_image_url,
        artist_image_url: match doc.image_url {
            Some(u) => u,
            None => String::from_str("https://via.placeholder.com/300"),
        },
        progress_ms: step.progress_ms,
        duration_ms: step.duration_ms,
    }
}

/// Decide the command's result from what the artist call returned.
///
/// A well-formed 2xx body owes the complete snapshot; a 2xx body that is
/// not JSON is a parse failure. When this second call fails, the whole
/// command fails: nothing of step one survives into a partial result.
pub fn artist_outcome(step: SnapshotStep, outcome: HttpOutcome) -> (r: Result<
    PlaybackSnapshot,
    FacadeError,
>)
    ensures
        (match outcome {
            HttpOutcome::Response { status, body } => {
                if spec_is_success(status) {
                    if !spec_is_json(body@) {
                        r matches Err(e) && e matches FacadeError::ParseError(m) && m@
                            == "Response body is not well-formed JSON."@
                    } else {
                        r matches Ok(s) && spec_completed(step, spec_artist_doc(body@), s)
                    }
                } else {
                    r matches Err(e) && e == FacadeError::ProviderError(body)
                }
            },
            HttpOutcome::Transport { detail } => r matches Err(e) && e
                == FacadeError::TransportError(detail),
        }),
{
    match outcome {
        HttpOutcome::Response { status, body } => {
            if is_success(status) {
                match artist_doc_of_text(body.as_str()) {
                    Some(doc) => Ok(snapshot_of_artist_doc(step, doc)),
                    None => Err(
                        FacadeError::ParseError(
                            String::from_str("Response body is not well-formed JSON."),
                        ),
                    ),
                }
            } else {
                Err(FacadeError::ProviderError(body))
            }
        },
        HttpOutcome::Transport { detail } => Err(FacadeError::TransportError(detail)),
    }
}

} // verus!
