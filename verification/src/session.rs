//! Session state: the credential, the rotating anti-forgery token and the
//! cached resolved identity, shared by every request on one client.

use vstd::prelude::*;

verus! {

/// The mutable state of one client session.
///
/// The credential (roblosecurity) is replaced only wholesale; replacing it
/// clears the resolved-identity cache so the next identity lookup re-fetches.
/// The anti-forgery token is replaced atomically by the token refresher or by
/// the executor when a rejection embeds a fresh token. An application shares
/// one value of this type across its worker threads behind a lock; every
/// operation here is a plain read or write, so no operation blocks.
pub struct SessionState {
    roblosecurity: Option<String>,
    xcsrf: Option<String>,
    cached_user_id: Option<u64>,
}

impl SessionState {
    /// The credential, as the sequence of its characters.
    pub closed spec fn credential_view(&self) -> Option<Seq<char>> {
        match self.roblosecurity {
            Option::Some(s) => Option::Some(s@),
            Option::None => Option::None,
        }
    }

    /// The current anti-forgery token, as the sequence of its characters.
    pub closed spec fn token_view(&self) -> Option<Seq<char>> {
        match self.xcsrf {
            Option::Some(s) => Option::Some(s@),
            Option::None => Option::None,
        }
    }

    /// The cached resolved identity of the authenticated principal.
    pub closed spec fn identity_view(&self) -> Option<u64> {
        self.cached_user_id
    }

    /// A fresh session with no credential, no token and no cached identity.
    pub fn new() -> (s: Self)
        ensures
            s.credential_view() is None,
            s.token_view() is None,
            s.identity_view() is None,
    {
        SessionState { roblosecurity: None, xcsrf: None, cached_user_id: None }
    }

    /// A fresh session that already holds a credential.
    pub fn with_credential(credential: String) -> (s: Self)
        ensures
            s.credential_view() == Some(credential@),
            s.token_view() is None,
            s.identity_view() is None,
    {
        SessionState { roblosecurity: Some(credential), xcsrf: None, cached_user_id: None }
    }

    /// Whether a credential is set.
    pub fn has_credential(&self) -> (b: bool)
        ensures
            b == (self.credential_view() is Some),
    {
        self.roblosecurity.is_some()
    }

    /// A copy of the credential, if one is set.
    pub fn credential(&self) -> (r: Option<String>)
        ensures
            r is Some <==> self.credential_view() is Some,
            r matches Some(c) ==> self.credential_view() == Some(c@),
    {
        match &self.roblosecurity {
            Some(s) => Some(s.clone()),
            None => None,
        }
    }

    /// Replaces the credential wholesale and clears the resolved-identity
    /// cache, so the next identity lookup re-fetches under the new
    /// credential. The token is left as it is.
    pub fn set_credential(&mut self, credential: String)
        ensures
            final(self).credential_view() == Some(credential@),
            final(self).token_view() == old(self).token_view(),
            final(self).identity_view() is None,
    {
        self.roblosecurity = Some(credential);
        self.cached_user_id = None;
    }

    /// Whether an anti-forgery token is currently held.
    pub fn has_token(&self) -> (b: bool)
        ensures
            b == (self.token_view() is Some),
    {
        self.xcsrf.is_some()
    }

    /// A copy of the current anti-forgery token, if one is held.
    pub fn token(&self) -> (r: Option<String>)
        ensures
            r is Some <==> self.token_view() is Some,
            r matches Some(t) ==> self.token_view() == Some(t@),
    {
        match &self.xcsrf {
            Some(s) => Some(s.clone()),
            None => None,
        }
    }

    /// Replaces the anti-forgery token wholesale. Credential and cached
    /// identity are untouched.
    pub fn set_token(&mut self, token: String)
        ensures
            final(self).token_view() == Some(token@),
            final(self).credential_view() == old(self).credential_view(),
            final(self).identity_view() == old(self).identity_view(),
    {
        self.xcsrf = Some(token);
    }

    /// The cached resolved identity, if one is held.
    pub fn cached_identity(&self) -> (r: Option<u64>)
        ensures
            r == self.identity_view(),
    {
        self.cached_user_id
    }

    /// Stores a freshly resolved identity in the cache. Credential and token
    /// are untouched.
    pub fn store_identity(&mut self, user_id: u64)
        ensures
            final(self).identity_view() == Some(user_id),
            final(self).credential_view() == old(self).credential_view(),
            final(self).token_view() == old(self).token_view(),
    {
        self.cached_user_id = Some(user_id);
    }
}

} // verus!
