use vstd::prelude::*;
use std::path::PathBuf;
use crate::challenge::{challenge_ok, generate, pkce_challenge_of, state_ok, verifier_ok};
use crate::error::AuthError;
use crate::tokens::{
    is_stale, record_from_response, record_of, refresh_form, refresh_form_spec, form_view, stale,
    TokenRecord, TokenResponse,
};

verus! {

#[verifier::external_type_specification]
#[verifier::external_body]
pub struct ExPathBuf(PathBuf);

/// Where a session stands.
#[derive(Debug, Clone, Copy, PartialEq, Eq)]
pub enum SessionState {
    /// The user has to authorize the application before API calls work.
    NeedsAuth,
    /// The session holds a usable access token.
    ReadyAuthorized,
}

/// What starting a session from the token cache asks of the caller.
pub enum Startup {
    /// The cached access token is still valid and has been adopted.
    Ready,
    /// The cached token is stale: post this form to the token endpoint and
    /// hand the reply to `finish_refresh`.
    Refresh(Vec<(String, String)>),
    /// There is no usable cache: the user has to authorize.
    NeedsAuth,
}

/// The authorization state of a client of the API: the client id, the token
/// cache settings and the access token that all API calls use.
pub struct MALClient {
    client_secret: String,
    dirs: Option<PathBuf>,
    access_token: String,
    caching: bool,
    pub need_auth: bool,
}

/// The start of the authorization page URL.
pub open spec fn authorize_prefix() -> Seq<char> {
    "https://myanimelist.net/v1/oauth2/authorize?response_type=code&client_id="@
}

/// The URL the user visits to authorize the application.
pub open spec fn auth_url_spec(client_id: Seq<char>, challenge: Seq<char>, state: Seq<char>) -> Seq<
    char,
> {
    authorize_prefix() + client_id + "&code_challenge="@ + challenge + "&state="@ + state
}

/// Builds the authorization page URL.
pub fn auth_url(client_id: &str, challenge: &str, state: &str) -> (r: String)
    ensures
        r@ == auth_url_spec(client_id@, challenge@, state@),
{
    let mut r = String::from_str(
        "https://myanimelist.net/v1/oauth2/authorize?response_type=code&client_id=",
    );
    r.append(client_id);
    r.append("&code_challenge=");
    r.append(challenge);
    r.append("&state=");
    r.append(state);
    r
}

impl MALClient {
    /// The client id.
    pub closed spec fn secret(&self) -> Seq<char> {
        self.client_secret@
    }

    /// The access token that API calls carry.
    pub closed spec fn token(&self) -> Seq<char> {
        self.access_token@
    }

    /// The directory of the token cache.
    pub closed spec fn cache_dir_spec(&self) -> Option<PathBuf> {
        self.dirs
    }

    /// Whether the user has to authorize before API calls work.
    pub closed spec fn auth_needed(&self) -> bool {
        self.need_auth
    }

    /// Whether tokens are to be cached.
    pub closed spec fn caching_spec(&self) -> bool {
        self.caching
    }

    /// Tokens are read from and written to the cache only when caching is on
    /// and a cache directory is set.
    pub open spec fn uses_cache(&self) -> bool {
        self.caching_spec() && self.cache_dir_spec() is Some
    }

    /// A client that has not yet consulted the token cache and needs
    /// authorization. The cache is used only where caching is on and a cache
    /// directory is given.
    pub fn new_session(secret: &str, caching: bool, cache_dir: Option<PathBuf>) -> (r: MALClient)
        ensures
            r.secret() == secret@,
            r.token() == Seq::<char>::empty(),
            r.caching_spec() == caching,
            r.cache_dir_spec() == cache_dir,
            r.auth_needed(),
    {
        MALClient {
            client_secret: String::from_str(secret),
            dirs: cache_dir,
            access_token: String::new(),
            caching,
            need_auth: true,
        }
    }

    /// Creates a client using the provided token; caching is off. Such a
    /// client has no client id and so cannot authorize a user.
    pub fn with_access_token(token: &str) -> (r: MALClient)
        ensures
            r.secret() == Seq::<char>::empty(),
            r.token() == token@,
            !r.caching_spec(),
            r.cache_dir_spec() is None,
            !r.auth_needed(),
    {
        MALClient {
            client_secret: String::new(),
            dirs: None,
            access_token: String::from_str(token),
            caching: false,
            need_auth: false,
        }
    }

    /// Sets the directory the client uses for the token cache.
    pub fn set_cache_dir(&mut self, dir: PathBuf)
        ensures
            final(self).cache_dir_spec() == Some(dir),
            final(self).secret() == old(self).secret(),
            final(self).token() == old(self).token(),
            final(self).caching_spec() == old(self).caching_spec(),
            final(self).auth_needed() == old(self).auth_needed(),
    {
        self.dirs = Some(dir);
    }

    /// Sets whether the client caches its tokens.
    pub fn set_caching(&mut self, caching: bool)
        ensures
            final(self).caching_spec() == caching,
            final(self).cache_dir_spec() == old(self).cache_dir_spec(),
            final(self).secret() == old(self).secret(),
            final(self).token() == old(self).token(),
            final(self).auth_needed() == old(self).auth_needed(),
    {
        self.caching = caching;
    }

    /// The current access token.
    pub fn get_access_token(&self) -> (r: &str)
        ensures
            r@ == self.token(),
    {
        self.access_token.as_str()
    }

    /// Whether the user has to authorize: the value of `need_auth`.
    pub fn needs_auth(&self) -> (r: bool)
        ensures
            r == self.auth_needed(),
    {
        self.need_auth
    }

    /// The client id that the authorization requests carry.
    pub fn client_id(&self) -> (r: &str)
        ensures
            r@ == self.secret(),
    {
        self.client_secret.as_str()
    }

    /// The cache directory, if any.
    pub fn cache_dir(&self) -> (r: &Option<PathBuf>)
        ensures
            *r == self.cache_dir_spec(),
    {
        &self.dirs
    }

    /// Whether caching is on.
    pub fn is_caching(&self) -> (r: bool)
        ensures
            r == self.caching_spec(),
    {
        self.caching
    }

    /// Whether the token cache is to be read and written.
    pub fn cache_in_use(&self) -> (r: bool)
        ensures
            r == self.uses_cache(),
    {
        self.caching && self.dirs.is_some()
    }

    /// Where the session stands.
    pub fn state(&self) -> (r: SessionState)
        ensures
            r == (if self.auth_needed() {
                SessionState::NeedsAuth
            } else {
                SessionState::ReadyAuthorized
            }),
    {
        if self.need_auth {
            SessionState::NeedsAuth
        } else {
            SessionState::ReadyAuthorized
        }
    }

    /// Returns the authorization URL, the code challenge and the state token
    /// for a new authorization. The challenge is derived from a fresh
    /// verifier; it is also what `auth` sends back as the verifier.
    pub fn get_auth_parts(&self) -> (r: (String, String, String))
        ensures
            r.0@ == auth_url_spec(self.secret(), r.1@, r.2@),
            exists|v: Seq<u8>| verifier_ok(v) && r.1@ == #[trigger] pkce_challenge_of(v),
            challenge_ok(r.1@),
            state_ok(r.2@),
    {
        let m = generate();
        let url = auth_url(self.client_secret.as_str(), m.challenge.as_str(), m.state.as_str());
        assert(verifier_ok(m.verifier@) && m.challenge@ == pkce_challenge_of(m.verifier@));
        (url, m.challenge, m.state)
    }

    /// Starts the session from what the token cache held at Unix time `now`
    /// (`None` for a missing or unreadable cache). A fresh record is adopted;
    /// a stale one asks for a refresh; otherwise the user has to authorize.
    pub fn start(&mut self, cached: Option<TokenRecord>, now: u64) -> (r: Startup)
        ensures
            final(self).secret() == old(self).secret(),
            final(self).caching_spec() == old(self).caching_spec(),
            final(self).cache_dir_spec() == old(self).cache_dir_spec(),
            !old(self).uses_cache() || cached is None ==> (r is NeedsAuth && final(self).auth_needed()
                && final(self).token() == old(self).token()),
            old(self).uses_cache() && cached is Some && !stale(cached->0, now as int) ==> (
            r is Ready && !final(self).auth_needed() && final(self).token()
                == cached->0.access_token@),
            old(self).uses_cache() && cached is Some && stale(cached->0, now as int) ==> (
            r matches Startup::Refresh(form) && form_view(form@) == refresh_form_spec(
                old(self).secret(),
                cached->0.refresh_token@,
            ) && final(self).auth_needed() && final(self).token() == old(self).token()),
    {
        if !self.cache_in_use() {
            self.need_auth = true;
            return Startup::NeedsAuth;
        }
        match cached {
            None => {
                self.need_auth = true;
                Startup::NeedsAuth
            },
            Some(rec) => {
                if is_stale(&rec, now) {
                    self.need_auth = true;
                    Startup::Refresh(refresh_form(self.client_secret.as_str(), rec.refresh_token.as_str()))
                } else {
                    self.access_token = rec.access_token;
                    self.need_auth = false;
                    Startup::Ready
                }
            },
        }
    }

    /// Takes the token endpoint's reply to a refresh received at `now`. On
    /// success the new access token is adopted and, where the cache is in
    /// use, the record to write to it is returned; on failure the session needs authorization.
    pub fn finish_refresh(&mut self, reply: Result<TokenResponse, AuthError>, now: u64) -> (r:
        Option<TokenRecord>)
        ensures
            final(self).secret() == old(self).secret(),
            final(self).caching_spec() == old(self).caching_spec(),
            final(self).cache_dir_spec() == old(self).cache_dir_spec(),
            reply matches Ok(t) ==> (!final(self).auth_needed() && final(self).token()
                == t.access_token@),
            old(self).uses_cache() ==> (reply matches Ok(t) ==> r == Some(record_of(t, now))),
            !old(self).uses_cache() ==> r is None,
            reply is Err ==> (final(self).auth_needed() && final(self).token() == old(self).token()
                && r is None),
    {
        match reply {
            Ok(t) => {
                self.access_token = t.access_token.clone();
                self.need_auth = false;
                if self.cache_in_use() {
                    Some(record_from_response(t, now))
                } else {
                    None
                }
            },
            Err(_) => {
                self.need_auth = true;
                None
            },
        }
    }

    /// Takes the token endpoint's reply to an authorization-code exchange
    /// received at `now`. On success the new access token is adopted and,
    /// where the cache is in use, the record to write to it is returned; a
    /// failure is passed on and leaves the session as it was.
    pub fn finish_authorization(&mut self, reply: Result<TokenResponse, AuthError>, now: u64) -> (r:
        Result<Option<TokenRecord>, AuthError>)
        ensures
            final(self).secret() == old(self).secret(),
            final(self).caching_spec() == old(self).caching_spec(),
            final(self).cache_dir_spec() == old(self).cache_dir_spec(),
            reply matches Ok(t) ==> (!final(self).auth_needed() && final(self).token()
                == t.access_token@),
            old(self).uses_cache() ==> (reply matches Ok(t) ==> r == Ok::<
                Option<TokenRecord>,
                AuthError,
            >(Some(record_of(t, now)))),
            reply is Ok && !old(self).uses_cache() ==> r == Ok::<Option<TokenRecord>, AuthError>(
                None,
            ),
            reply matches Err(e) ==> (r == Err::<Option<TokenRecord>, AuthError>(e)
                && final(self).auth_needed() == old(self).auth_needed() && final(self).token() == old(
                self,
            ).token()),
    {
        match reply {
            Ok(t) => {
                self.access_token = t.access_token.clone();
                self.need_auth = false;
                if self.cache_in_use() {
                    Ok(Some(record_from_response(t, now)))
                } else {
                    Ok(None)
                }
            },
            Err(e) => Err(e),
        }
    }
}

} // verus!
