//! The uniform error taxonomy of the command façade and the
//! authentication flow.

use vstd::prelude::*;

verus! {

/// Every fallible operation of the library reports its failure through
/// this one taxonomy.
///
/// - `ConfigurationError`: a client credential is missing from
///   configuration; fatal, never retried.
/// - `NotAuthenticated`: no bearer credential is available; the caller
///   must run the authorization flow first.
/// - `TransportError`: the network call itself failed (DNS, TLS,
///   timeout); carries the transport diagnostic.
/// - `ProviderError`: the provider answered with a non-success status;
///   carries the raw response body verbatim.
/// - `ParseError`: the provider's response could not be understood;
///   carries a diagnostic.
/// - `NoActiveSession`: the provider reported that nothing is playing
///   (status 204 on the currently-playing query); an expected outcome
///   surfaced through the error channel for uniformity.
/// - `NoActiveDevice`: the provider's device list is empty, so a playback
///   command cannot be targeted anywhere.
#[derive(Debug)]
pub enum FacadeError {
    ConfigurationError,
    NotAuthenticated,
    TransportError(String),
    ProviderError(String),
    ParseError(String),
    NoActiveSession,
    NoActiveDevice,
}

impl FacadeError {
    /// The human-readable description shown to the caller; embeds the raw
    /// provider or transport detail where one exists.
    pub fn message(&self) -> (r: String)
        ensures
            r@ == self.spec_message(),
    {
        match self {
            FacadeError::ConfigurationError => String::from_str(
                "Client credentials are not configured.",
            ),
            FacadeError::NotAuthenticated => String::from_str("No access token available."),
            FacadeError::TransportError(detail) => String::from_str("Transport failure: ").concat(
                detail.as_str(),
            ),
            FacadeError::ProviderError(body) => String::from_str("Provider returned an error: ")
                .concat(body.as_str()),
            FacadeError::ParseError(detail) => String::from_str(
                "Could not parse provider response: ",
            ).concat(detail.as_str()),
            FacadeError::NoActiveSession => String::from_str("No song is currently playing."),
            FacadeError::NoActiveDevice => String::from_str("No active playback device found."),
        }
    }

    /// What [`FacadeError::message`] returns, as a sequence of characters.
    pub open spec fn spec_message(&self) -> Seq<char> {
        match self {
            FacadeError::ConfigurationError => "Client credentials are not configured."@,
            FacadeError::NotAuthenticated => "No access token available."@,
            FacadeError::TransportError(detail) => "Transport failure: "@ + detail@,
            FacadeError::ProviderError(body) => "Provider returned an error: "@ + body@,
            FacadeError::ParseError(detail) => "Could not parse provider response: "@ + detail@,
            FacadeError::NoActiveSession => "No song is currently playing."@,
            FacadeError::NoActiveDevice => "No active playback device found."@,
        }
    }
}

} // verus!
