//! The bearer credential envelope that the provider's token endpoint
//! returns.

use vstd::prelude::*;

verus! {

/// A bearer credential: the access token itself, its type and lifetime,
/// the scope it was granted for, and — when the provider issued one — a
/// refresh token. Immutable once created; a refresh produces a new value.
pub struct Credential {
    pub access_token: String,
    pub token_type: String,
    pub expires_in: u64,
    pub refresh_token: Option<String>,
    pub scope: String,
}

impl Credential {
    /// An exact copy, so that callers can hand the value out without
    /// giving up their own.
    pub fn duplicate(&self) -> (r: Credential)
        ensures
            r == *self,
    {
        Credential {
            access_token: self.access_token.clone(),
            token_type: self.token_type.clone(),
            expires_in: self.expires_in,
            refresh_token: match &self.refresh_token {
                Some(s) => Some(s.clone()),
                None => None,
            },
            scope: self.scope.clone(),
        }
    }
}

} // verus!
