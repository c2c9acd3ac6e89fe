//! Plain-value shapes for the provider HTTP calls that the caller
//! performs on the library's behalf, and the uniform mapping from an HTTP
//! outcome to the library's error taxonomy.

use vstd::prelude::*;

use crate::errors::FacadeError;

verus! {

/// The HTTP method of a provider request.
pub enum HttpMethod {
    Get,
    Put,
    Post,
}

/// One provider API call, fully determined: method, URL, bearer token for
/// the `Authorization` header, and the request body, when one is owed.
/// State-changing calls always carry at least the empty JSON object `{}`,
/// because the provider rejects bodiless PUT and POST calls.
pub struct ProviderRequest {
    pub method: HttpMethod,
    pub url: String,
    pub bearer: String,
    pub body: Option<String>,
}

/// What came back from one provider HTTP call: either a response with its
/// status and full body text, or a transport failure (DNS, TLS, timeout)
/// with its diagnostic.
pub enum HttpOutcome {
    Response { status: u16, body: String },
    Transport { detail: String },
}

/// True exactly of the HTTP status codes that the provider's API treats
/// as success.
pub open spec fn spec_is_success(status: u16) -> bool {
    200 <= status < 300
}

/// Executable test for a successful HTTP status code.
pub fn is_success(status: u16) -> (r: bool)
    ensures
        r == spec_is_success(status),
{
    200 <= status && status < 300
}

/// The uniform mapping for a command that returns nothing: success on a
/// 2xx status, the raw body as a provider error on any other status, and
/// a transport error on a transport failure.
pub fn unit_command_outcome(outcome: HttpOutcome) -> (r: Result<(), FacadeError>)
    ensures
        (match outcome {
            HttpOutcome::Response { status, body } => {
                if spec_is_success(status) {
                    r == Ok::<(), FacadeError>(())
                } else {
                    r == Err::<(), FacadeError>(FacadeError::ProviderError(body))
                }
            },
            HttpOutcome::Transport { detail } => r == Err::<(), FacadeError>(
                FacadeError::TransportError(detail),
            ),
        }),
{
    match outcome {
        HttpOutcome::Response { status, body } => {
            if is_success(status) {
                Ok(())
            } else {
                Err(FacadeError::ProviderError(body))
            }
        },
        HttpOutcome::Transport { detail } => Err(FacadeError::TransportError(detail)),
    }
}

} // verus!
