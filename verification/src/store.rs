//! The in-memory token store: one optional credential slot and one
//! optional pending authorization code.
//!
//! The store itself is plain data; a caller that shares it across tasks
//! wraps it in a mutual-exclusion primitive and holds the lock only for
//! the duration of one of these operations, never across network I/O.

use vstd::prelude::*;

use crate::credential::Credential;

verus! {

/// Process-wide authentication state: the current credential, if any, and
/// the authorization code delivered by the callback listener that has not
/// been exchanged yet, if any.
pub struct TokenStore {
    credential: Option<Credential>,
    pending_code: Option<String>,
}

impl TokenStore {
    /// The credential slot.
    pub closed spec fn spec_credential(&self) -> Option<Credential> {
        self.credential
    }

    /// The pending-code slot.
    pub closed spec fn spec_pending_code(&self) -> Option<String> {
        self.pending_code
    }

    /// A store with both slots empty, as the process starts with.
    pub fn new() -> (r: TokenStore)
        ensures
            r.spec_credential() is None,
            r.spec_pending_code() is None,
    {
        TokenStore { credential: None, pending_code: None }
    }

    /// Place a credential in the store, overwriting any previous one. The
    /// pending code is untouched.
    pub fn set_credential(&mut self, credential: Credential)
        ensures
            final (self).spec_credential() == Some(credential),
            final (self).spec_pending_code() == old(self).spec_pending_code(),
    {
        self.credential = Some(credential);
    }

    /// A copy of the stored credential, so that the caller never holds a
    /// reference into the store during network I/O.
    pub fn get_credential(&self) -> (r: Option<Credential>)
        ensures
            r == self.spec_credential(),
    {
        match &self.credential {
            Some(c) => Some(c.duplicate()),
            None => None,
        }
    }

    /// Record the authorization code that the callback listener captured,
    /// overwriting any previous pending code: last write wins. The
    /// credential is untouched.
    pub fn set_pending_code(&mut self, code: String)
        ensures
            final (self).spec_pending_code() == Some(code),
            final (self).spec_credential() == old(self).spec_credential(),
    {
        self.pending_code = Some(code);
    }

    /// Take the pending code out of the store. The read consumes: the slot
    /// is empty afterwards, so a second take without a new callback
    /// returns nothing. The credential is untouched.
    pub fn take_pending_code(&mut self) -> (r: Option<String>)
        ensures
            r == old(self).spec_pending_code(),
            final (self).spec_pending_code() is None,
            final (self).spec_credential() == old(self).spec_credential(),
    {
        self.pending_code.take()
    }
}

} // verus!
