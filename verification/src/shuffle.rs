//! The shuffle toggle: read the player state, then write the negated
//! shuffle flag.
//!
//! Between the read and the write another caller — or the user, through
//! the provider's own application — may change the flag out of band; the
//! provider offers no atomic toggle or conditional update, so this
//! command can clobber a concurrent toggle. That race is a documented
//! property of the command, not something the library papers over.

use vstd::prelude::*;

use crate::errors::FacadeError;
use crate::http::is_success;
use crate::http::spec_is_success;
use crate::http::HttpMethod;
use crate::http::HttpOutcome;
use crate::http::ProviderRequest;
use crate::json::playback_doc_of_text;
use crate::json::spec_is_json;
use crate::json::spec_playback_doc;
use crate::json::PlaybackStateDoc;

verus! {

/// What the read step yields: the state that will be written — the
/// negation of what was read, with an absent flag read as false — and
/// the exact request that writes it.
pub struct ShuffleStep {
    pub state: bool,
    pub request: ProviderRequest,
}

/// The URL of the shuffle endpoint for the given target state.
pub open spec fn spec_shuffle_url(state: bool) -> Seq<char> {
    if state {
        "https://api.spotify.com/v1/me/player/shuffle?state=true"@
    } else {
        "https://api.spotify.com/v1/me/player/shuffle?state=false"@
    }
}

/// The request of the read step: GET on the player state.
pub fn plan_shuffle_read(access: &Option<String>) -> (r: Result<ProviderRequest, FacadeError>)
    ensures
        access is None <==> r is Err,
        r matches Err(e) ==> e is NotAuthenticated,
        r matches Ok(req) ==> req.method is Get && req.url@
            == "https://api.spotify.com/v1/me/player"@ && req.bearer == access.unwrap()
            && req.body is None,
{
    match access {
        Some(token) => Ok(
            ProviderRequest {
                method: HttpMethod::Get,
                url: String::from_str("https://api.spotify.com/v1/me/player"),
                bearer: token.clone(),
                body: None,
            },
        ),
        None => Err(FacadeError::NotAuthenticated),
    }
}

/// The exact write step that a player-state document and the bearer
/// token determine: the target state is the negation of the reported
/// flag — false when the report brings none — and the request writes it.
pub open spec fn spec_shuffle_step_of(
    access: Seq<char>,
    doc: PlaybackStateDoc,
    step: ShuffleStep,
) -> bool {
    &&& doc.shuffle_state is Some ==> step.state == !doc.shuffle_state.unwrap()
    &&& doc.shuffle_state is None ==> step.state == true
    &&& step.request.method is Put
    &&& step.request.url@ == spec_shuffle_url(step.state)
    &&& step.request.bearer@ == access
    &&& step.request.body is Some
    &&& step.request.body.unwrap()@ == "{}"@
}

/// Decide the write step from the fields of a player-state document: the
/// target state is the negation of the reported flag, false when the
/// report brings none.
pub fn shuffle_step_of_doc(access: &str, doc: PlaybackStateDoc) -> (r: ShuffleStep)
    ensures
        spec_shuffle_step_of(access@, doc, r),
{
    let current = match doc.shuffle_state {
        Some(b) => b,
        None => false,
    };
    let state = !current;
    let url = if state {
        String::from_str("https://api.spotify.com/v1/me/player/shuffle?state=true")
    } else {
        String::from_str("https://api.spotify.com/v1/me/player/shuffle?state=false")
    };
    ShuffleStep {
        state,
        request: ProviderRequest {
            method: HttpMethod::Put,
            url,
            bearer: String::from_str(access),
            body: Some(String::from_str("{}")),
        },
    }
}

/// Decide the write step from what the player-state call returned: a
/// well-formed 2xx body owes the exact write step; a 2xx body that is
/// not JSON is a parse failure; any other status is a provider error
/// carrying the body; a transport failure is a transport error.
pub fn shuffle_read_outcome(access: &str, outcome: HttpOutcome) -> (r: Result<
    ShuffleStep,
    FacadeError,
>)
    ensures
        (match outcome {
            HttpOutcome::Response { status, body } => {
                if spec_is_success(status) {
                    if !spec_is_json(body@) {
                        r matches Err(e) && e matches FacadeError::ParseError(m) && m@
                            == "Response body is not well-formed JSON."@
                    } else {
                        r matches Ok(step) && spec_shuffle_step_of(
                            access@,
                            spec_playback_doc(body@),
                            step,
                        )
                    }
                } else {
                    r matches Err(e) && e == FacadeError::ProviderError(body)
                }
            },
            HttpOutcome::Transport { detail } => r matches Err(e) && e
                == FacadeError::TransportError(detail),
        }),
{
    match outcome {
        HttpOutcome::Response { status, body } => {
            if is_success(status) {
                match playback_doc_of_text(body.as_str()) {
                    Some(doc) => Ok(shuffle_step_of_doc(access, doc)),
                    None => Err(
                        FacadeError::ParseError(
                            String::from_str("Response body is not well-formed JSON."),
                        ),
                    ),
                }
            } else {
                Err(FacadeError::ProviderError(body))
            }
        },
        HttpOutcome::Transport { detail } => Err(FacadeError::TransportError(detail)),
    }
}

/// Decide the command's result from what the write call returned: on
/// success, the state that was written.
pub fn shuffle_put_outcome(sent_state: bool, outcome: HttpOutcome) -> (r: Result<
    bool,
    FacadeError,
>)
    ensures
        (match outcome {
            HttpOutcome::Response { status, body } => {
                if spec_is_success(status) {
                    r == Ok::<bool, FacadeError>(sent_state)
                } else {
                    r matches Err(e) && e == FacadeError::ProviderError(body)
                }
            },
            HttpOutcome::Transport { detail } => r matches Err(e) && e
                == FacadeError::TransportError(detail),
        }),
{
    match outcome {
        HttpOutcome::Response { status, body } => {
            if is_success(status) {
                Ok(sent_state)
            } else {
                Err(FacadeError::ProviderError(body))
            }
        },
        HttpOutcome::Transport { detail } => Err(FacadeError::TransportError(detail)),
    }
}

} // verus!
