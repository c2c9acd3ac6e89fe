//! The token exchange client: the two form-encoded POST calls against
//! the provider's token endpoint, and the parsing of the credential
//! envelope they return.
//!
//! The network call itself is the caller's: the library builds the exact
//! request, and turns the outcome back into a credential or an error.

use vstd::prelude::*;

use crate::credential::Credential;
use crate::encoding::percent_encode_str;
use crate::encoding::spec_percent_encoded;
use crate::errors::FacadeError;
use crate::http::is_success;
use crate::http::spec_is_success;
use crate::http::HttpOutcome;
use crate::json::spec_is_json;
use crate::json::spec_token_doc;
use crate::json::token_doc_of_text;
use crate::json::TokenDoc;

verus! {

/// The provider's token endpoint.
pub open spec fn spec_token_endpoint() -> Seq<char> {
    "https://accounts.spotify.com/api/token"@
}

/// The form-encoded body of the code-for-token exchange.
pub open spec fn spec_exchange_body(
    code: Seq<char>,
    redirect_uri: Seq<char>,
    client_id: Seq<char>,
    client_secret: Seq<char>,
) -> Seq<char> {
    "grant_type=authorization_code&code="@ + spec_percent_encoded(code) + "&redirect_uri="@
        + spec_percent_encoded(redirect_uri) + "&client_id="@ + spec_percent_encoded(client_id)
        + "&client_secret="@ + spec_percent_encoded(client_secret)
}

/// The form-encoded body of the refresh exchange; it carries no redirect
/// URI.
pub open spec fn spec_refresh_body(
    refresh_token: Seq<char>,
    client_id: Seq<char>,
    client_secret: Seq<char>,
) -> Seq<char> {
    "grant_type=refresh_token&refresh_token="@ + spec_percent_encoded(refresh_token)
        + "&client_id="@ + spec_percent_encoded(client_id) + "&client_secret="@
        + spec_percent_encoded(client_secret)
}

/// One call against the token endpoint: always a POST of this
/// form-encoded body to this URL, authenticated by the client credentials
/// inside the body rather than a bearer header.
pub struct TokenRequest {
    pub url: String,
    pub form_body: String,
}

/// Build the code-for-token exchange request. The redirect URI must be
/// the one the authorization URL was built with, byte for byte, or the
/// provider will reject the exchange. Fails only when a client credential
/// is absent from configuration.
pub fn plan_exchange(
    client_id: &str,
    client_secret: &str,
    redirect_uri: &str,
    code: &str,
) -> (r: Result<TokenRequest, FacadeError>)
    ensures
        (client_id@.len() == 0 || client_secret@.len() == 0) <==> r is Err,
        r matches Err(e) ==> e is ConfigurationError,
        r matches Ok(req) ==> req.url@ == spec_token_endpoint() && req.form_body@
            == spec_exchange_body(code@, redirect_uri@, client_id@, client_secret@),
{
    if client_id.unicode_len() == 0 || client_secret.unicode_len() == 0 {
        return Err(FacadeError::ConfigurationError);
    }
    let mut body = String::from_str("grant_type=authorization_code&code=");
    let enc_code = percent_encode_str(code);
    body.append(enc_code.as_str());
    body.append("&redirect_uri=");
    let enc_redirect = percent_encode_str(redirect_uri);
    body.append(enc_redirect.as_str());
    body.append("&client_id=");
    let enc_id = percent_encode_str(client_id);
    body.append(enc_id.as_str());
    body.append("&client_secret=");
    let enc_secret = percent_encode_str(client_secret);
    body.append(enc_secret.as_str());
    proof {
        assert(body@ =~= spec_exchange_body(code@, redirect_uri@, client_id@, client_secret@));
    }
    Ok(TokenRequest { url: String::from_str("https://accounts.spotify.com/api/token"), form_body: body })
}

/// Build the refresh exchange request. Fails only when a client
/// credential is absent from configuration.
pub fn plan_refresh(
    client_id: &str,
    client_secret: &str,
    refresh_token: &str,
) -> (r: Result<TokenRequest, FacadeError>)
    ensures
        (client_id@.len() == 0 || client_secret@.len() == 0) <==> r is Err,
        r matches Err(e) ==> e is ConfigurationError,
        r matches Ok(req) ==> req.url@ == spec_token_endpoint() && req.form_body@
            == spec_refresh_body(refresh_token@, client_id@, client_secret@),
{
    if client_id.unicode_len() == 0 || client_secret.unicode_len() == 0 {
        return Err(FacadeError::ConfigurationError);
    }
    let mut body = String::from_str("grant_type=refresh_token&refresh_token=");
    let enc_token = percent_encode_str(refresh_token);
    body.append(enc_token.as_str());
    body.append("&client_id=");
    let enc_id = percent_encode_str(client_id);
    body.append(enc_id.as_str());
    body.append("&client_secret=");
    let enc_secret = percent_encode_str(client_secret);
    body.append(enc_secret.as_str());
    proof {
        assert(body@ =~= spec_refresh_body(refresh_token@, client_id@, client_secret@));
    }
    Ok(TokenRequest { url: String::from_str("https://accounts.spotify.com/api/token"), form_body: body })
}

/// True when the envelope carries every required field.
pub open spec fn spec_token_fields_present(doc: TokenDoc) -> bool {
    doc.access_token is Some && doc.token_type is Some && doc.expires_in is Some
        && doc.scope is Some
}

/// The exact credential that an envelope and the previously held refresh
/// token determine: the envelope's fields, with the previous refresh
/// token carried forward when the envelope brings no new one.
pub open spec fn spec_credential_of(
    doc: TokenDoc,
    previous_refresh: Option<String>,
    c: Credential,
) -> bool {
    c.access_token == doc.access_token.unwrap() && c.token_type == doc.token_type.unwrap()
        && c.expires_in == doc.expires_in.unwrap() && c.scope == doc.scope.unwrap()
        && c.refresh_token == (if doc.refresh_token is Some {
        doc.refresh_token
    } else {
        previous_refresh
    })
}

/// Turn the fields read from a token response into a credential.
///
/// The envelope owes `access_token`, `token_type`, `expires_in` and
/// `scope`; when any of them is missing the whole response is rejected as
/// a parse failure. The provider may omit a new refresh token, notably on
/// a refresh; the previous one, when the caller still holds it, is then
/// carried forward into the new credential.
pub fn credential_of_doc(doc: TokenDoc, previous_refresh: Option<String>) -> (r: Result<
    Credential,
    FacadeError,
>)
    ensures
        spec_token_fields_present(doc) <==> r is Ok,
        r matches Ok(c) ==> spec_credential_of(doc, previous_refresh, c),
        r matches Err(e) ==> e matches FacadeError::ParseError(m) && m@
            == "Token response is missing a required field."@,
{
    match (doc.access_token, doc.token_type, doc.expires_in, doc.scope) {
        (Some(access_token), Some(token_type), Some(expires_in), Some(scope)) => Ok(
            Credential {
                access_token,
                token_type,
                expires_in,
                refresh_token: match doc.refresh_token {
                    Some(t) => Some(t),
                    None => previous_refresh,
                },
                scope,
            },
        ),
        _ => Err(
            FacadeError::ParseError(
                String::from_str("Token response is missing a required field."),
            ),
        ),
    }
}

/// Turn the outcome of a token endpoint call into a credential.
///
/// A success status has its body parsed as a credential envelope: a body
/// that is not well-formed JSON, or one missing a required field, is a
/// parse failure, and every other success body owes the exact credential.
/// Any other status is a provider error carrying the body verbatim; a
/// transport failure is a transport error. `previous_refresh` is carried
/// into the credential when the envelope brings no new refresh token.
pub fn token_outcome(outcome: HttpOutcome, previous_refresh: Option<String>) -> (r: Result<
    Credential,
    FacadeError,
>)
    ensures
        (match outcome {
            HttpOutcome::Response { status, body } => {
                if spec_is_success(status) {
                    if !spec_is_json(body@) {
                        r matches Err(e) && e matches FacadeError::ParseError(m) && m@
                            == "Token response is not well-formed JSON."@
                    } else {
                        (spec_token_fields_present(spec_token_doc(body@)) <==> r is Ok) && (
                        r matches Ok(c) ==> spec_credential_of(
                            spec_token_doc(body@),
                            previous_refresh,
                            c,
                        )) && (r matches Err(e) ==> e matches FacadeError::ParseError(m) && m@
                            == "Token response is missing a required field."@)
                    }
                } else {
                    r == Err::<Credential, FacadeError>(FacadeError::ProviderError(body))
                }
            },
            HttpOutcome::Transport { detail } => r == Err::<Credential, FacadeError>(
                FacadeError::TransportError(detail),
            ),
        }),
{
    match outcome {
        HttpOutcome::Response { status, body } => {
            if is_success(status) {
                match token_doc_of_text(body.as_str()) {
                    Some(doc) => credential_of_doc(doc, previous_refresh),
                    None => Err(
                        FacadeError::ParseError(
                            String::from_str("Token response is not well-formed JSON."),
                        ),
                    ),
                }
            } else {
                Err(FacadeError::ProviderError(body))
            }
        },
        HttpOutcome::Transport { detail } => Err(FacadeError::TransportError(detail)),
    }
}

} // verus!
