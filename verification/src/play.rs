//! The device-aware play command: read the device list, then start
//! playback on the first device it names.
//!
//! When the list is empty the command fails as `NoActiveDevice` before
//! any playback request exists — the failure carries no request, so no
//! play call can be issued.

use vstd::prelude::*;

use crate::encoding::percent_encode_str;
use crate::encoding::spec_percent_encoded;
use crate::errors::FacadeError;
use crate::http::is_success;
use crate::http::spec_is_success;
use crate::http::HttpMethod;
use crate::http::HttpOutcome;
use crate::http::ProviderRequest;
use crate::json::devices_doc_of_text;
use crate::json::spec_devices_doc;
use crate::json::spec_is_json;
use crate::json::DevicesDoc;

verus! {

/// What the device step yields: the chosen device and the exact request
/// that starts playback on it.
pub struct PlayStep {
    pub device_id: String,
    pub request: ProviderRequest,
}

/// The URL of the play endpoint targeting one device.
pub open spec fn spec_play_url(id: Seq<char>) -> Seq<char> {
    "https://api.spotify.com/v1/me/player/play?device_id="@ + spec_percent_encoded(id)
}

/// The request of the device step: GET on the device list.
pub fn plan_play(access: &Option<String>) -> (r: Result<ProviderRequest, FacadeError>)
    ensures
        access is None <==> r is Err,
        r matches Err(e) ==> e is NotAuthenticated,
        r matches Ok(req) ==> req.method is Get && req.url@
            == "https://api.spotify.com/v1/me/player/devices"@ && req.bearer == access.unwrap()
            && req.body is None,
{
    match access {
        Some(token) => Ok(
            ProviderRequest {
                method: HttpMethod::Get,
                url: String::from_str("https://api.spotify.com/v1/me/player/devices"),
                bearer: token.clone(),
                body: None,
            },
        ),
        None => Err(FacadeError::NotAuthenticated),
    }
}

/// The exact decision that a device-list document and the bearer token
/// determine: a response without the list is a parse failure, an empty
/// list is the expected `NoActiveDevice`, a first entry without its id
/// is a parse failure, and otherwise the playback request targets the
/// first device.
pub open spec fn spec_play_decision(
    access: Seq<char>,
    doc: DevicesDoc,
    r: Result<PlayStep, FacadeError>,
) -> bool {
    if !doc.devices_present {
        r matches Err(e) && e matches FacadeError::ParseError(m) && m@
            == "Device list response is missing the devices array."@
    } else if doc.device_count == 0 {
        r matches Err(e) && e is NoActiveDevice
    } else if doc.first_device_id is None {
        r matches Err(e) && e matches FacadeError::ParseError(m) && m@
            == "Device entry is missing its id."@
    } else {
        r matches Ok(step) && step.device_id == doc.first_device_id.unwrap()
            && step.request.method is Put && step.request.url@ == spec_play_url(
            doc.first_device_id.unwrap()@,
        ) && step.request.bearer@ == access && step.request.body is Some
            && step.request.body.unwrap()@ == "{}"@
    }
}

/// Decide the playback step from the fields of a device-list document.
///
/// An empty list is the expected `NoActiveDevice` outcome; a list whose
/// first entry lacks its id, or a response without the list at all, is a
/// parse failure. Only a non-empty list yields a playback request, on
/// the first device — the only selection policy there is.
pub fn play_step_of_doc(access: &str, doc: DevicesDoc) -> (r: Result<PlayStep, FacadeError>)
    ensures
        spec_play_decision(access@, doc, r),
{
    if !doc.devices_present {
        return Err(
            FacadeError::ParseError(
                String::from_str("Device list response is missing the devices array."),
            ),
        );
    }
    if doc.device_count == 0 {
        return Err(FacadeError::NoActiveDevice);
    }
    let device_id = match doc.first_device_id {
        Some(id) => id,
        None => {
            return Err(FacadeError::ParseError(String::from_str("Device entry is missing its id.")));
        },
    };
    let mut url = String::from_str("https://api.spotify.com/v1/me/player/play?device_id=");
    let enc_id = percent_encode_str(device_id.as_str());
    url.append(enc_id.as_str());
    proof {
        assert(url@ =~= spec_play_url(device_id@));
    }
    Ok(
        PlayStep {
            device_id,
            request: ProviderRequest {
                method: HttpMethod::Put,
                url,
                bearer: String::from_str(access),
                body: Some(String::from_str("{}")),
            },
        },
    )
}

/// Decide the playback step from what the device-list call returned: a
/// well-formed 2xx body owes the exact decision of
/// [`spec_play_decision`] — `NoActiveDevice` on an empty list, the
/// first-device request otherwise; a 2xx body that is not JSON is a
/// parse failure; any other status is a provider error carrying the
/// body; a transport failure is a transport error.
pub fn play_devices_outcome(access: &str, outcome: HttpOutcome) -> (r: Result<
    PlayStep,
    FacadeError,
>)
    ensures
        (match outcome {
            HttpOutcome::Response { status, body } => {
                if spec_is_success(status) {
                    if !spec_is_json(body@) {
                        r matches Err(e) && e matches FacadeError::ParseError(m) && m@
                            == "Response body is not well-formed JSON."@
                    } else {
                        spec_play_decision(access@, spec_devices_doc(body@), r)
                    }
                } else {
                    r matches Err(e) && e == FacadeError::ProviderError(body)
                }
            },
            HttpOutcome::Transport { detail } => r matches Err(e) && e
                == FacadeError::TransportError(detail),
        }),
{
    match outcome {
        HttpOutcome::Response { status, body } => {
            if is_success(status) {
                match devices_doc_of_text(body.as_str()) {
                    Some(doc) => play_step_of_doc(access, doc),
                    None => Err(
                        FacadeError::ParseError(
                            String::from_str("Response body is not well-formed JSON."),
                        ),
                    ),
                }
            } else {
                Err(FacadeError::ProviderError(body))
            }
        },
        HttpOutcome::Transport { detail } => Err(FacadeError::TransportError(detail)),
    }
}

} // verus!
