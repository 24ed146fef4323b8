use vstd::prelude::*;

verus! {

/// An error as reported to callers of the client, in the shape the API uses
/// for its own error replies.
pub struct MALError {
    pub error: String,
    pub message: Option<String>,
    pub info: Option<String>,
}

/// The failures of the authorization flow.
#[derive(Debug, PartialEq, Eq)]
pub enum AuthError {
    /// The callback listener could not bind to the redirect address.
    ListenerBindError,
    /// The listener stopped receiving requests before the callback arrived.
    ListenerFailed,
    /// No valid callback arrived in time.
    AuthTimeout,
    /// The callback carried the awaited state but no code: the provider
    /// refused the authorization.
    AuthorizationRefused,
    /// The token endpoint could not be reached or answered with a non-2xx status.
    TokenExchangeFailed { status: u16, body: String },
    /// The token endpoint answered 2xx with a body that is not a token reply.
    MalformedTokenResponse,
    /// The token cache could not be decrypted.
    DecryptError,
    /// The token cache could not be written.
    CachePersistFailed,
}

/// `Some(s)` as its text, `None` as the word "None".
pub open spec fn text_or_none(o: Option<String>) -> Seq<char> {
    match o {
        Some(s) => s@,
        None => "None"@,
    }
}

/// The one-line description of an error.
pub open spec fn describe_spec(e: MALError) -> Seq<char> {
    "Error: "@ + e.error@ + " Message: "@ + text_or_none(e.message) + " Info: "@
        + text_or_none(e.info)
}

/// The `error` word that stands for each failure of the authorization flow.
pub open spec fn auth_error_word(e: AuthError) -> Seq<char> {
    match e {
        AuthError::ListenerBindError => "listener_bind_error"@,
        AuthError::ListenerFailed => "listener_failed"@,
        AuthError::AuthTimeout => "auth_timeout"@,
        AuthError::AuthorizationRefused => "authorization_refused"@,
        AuthError::TokenExchangeFailed { .. } => "token_exchange_failed"@,
        AuthError::MalformedTokenResponse => "malformed_token_response"@,
        AuthError::DecryptError => "decrypt_error"@,
        AuthError::CachePersistFailed => "cache_persist_failed"@,
    }
}

/// The sentence that says what went wrong for each failure.
pub open spec fn auth_error_message(e: AuthError) -> Seq<char> {
    match e {
        AuthError::ListenerBindError => "Unable to listen for the authorization callback"@,
        AuthError::ListenerFailed => "The callback listener stopped"@,
        AuthError::AuthTimeout => "No authorization callback arrived in time"@,
        AuthError::AuthorizationRefused => "The authorization was refused"@,
        AuthError::TokenExchangeFailed { .. } => "Unable to get tokens"@,
        AuthError::MalformedTokenResponse => "Unable to parse the token reply"@,
        AuthError::DecryptError => "Unable to decrypt encrypted tokens"@,
        AuthError::CachePersistFailed => "Unable to write the token cache"@,
    }
}

impl AuthError {
    /// The failure as the client reports it: a word for its kind, a sentence
    /// saying what went wrong and, for a rejected exchange, the reply body.
    pub fn into_mal_error(self) -> (r: MALError)
        ensures
            r.error@ == auth_error_word(self),
            r.message matches Some(m) && m@ == auth_error_message(self),
            self matches AuthError::TokenExchangeFailed { body, .. } ==> (r.info matches Some(i)
                && i@ == body@),
            !(self is TokenExchangeFailed) ==> r.info is None,
    {
        match self {
            AuthError::ListenerBindError => MALError::new(
                "Unable to listen for the authorization callback",
                "listener_bind_error",
                None,
            ),
            AuthError::ListenerFailed => MALError::new(
                "The callback listener stopped",
                "listener_failed",
                None,
            ),
            AuthError::AuthorizationRefused => MALError::new(
                "The authorization was refused",
                "authorization_refused",
                None,
            ),
            AuthError::AuthTimeout => MALError::new(
                "No authorization callback arrived in time",
                "auth_timeout",
                None,
            ),
            AuthError::TokenExchangeFailed { status: _, body } => MALError::new(
                "Unable to get tokens",
                "token_exchange_failed",
                Some(body),
            ),
            AuthError::MalformedTokenResponse => MALError::new(
                "Unable to parse the token reply",
                "malformed_token_response",
                None,
            ),
            AuthError::DecryptError => MALError::new(
                "Unable to decrypt encrypted tokens",
                "decrypt_error",
                None,
            ),
            AuthError::CachePersistFailed => MALError::new(
                "Unable to write the token cache",
                "cache_persist_failed",
                None,
            ),
        }
    }
}

impl MALError {
    /// Builds an error whose `error` is `error`, whose `message` is `msg`.
    pub fn new(msg: &str, error: &str, info: Option<String>) -> (r: MALError)
        ensures
            r.error@ == error@,
            r.message matches Some(m) && m@ == msg@,
            r.info == info,
    {
        MALError { error: error.to_owned(), message: Some(msg.to_owned()), info }
    }

    /// The error as one line of text: `Error: <error> Message: <message> Info: <info>`.
    pub fn describe(&self) -> (r: String)
        ensures
            r@ == describe_spec(*self),
    {
        let mut r = String::from_str("Error: ");
        r.append(self.error.as_str());
        r.append(" Message: ");
        match &self.message {
            Some(m) => r.append(m.as_str()),
            None => r.append("None"),
        }
        r.append(" Info: ");
        match &self.info {
            Some(i) => r.append(i.as_str()),
            None => r.append("None"),
        }
        proof {
            reveal_strlit("None");
        }
        r
    }
}

} // verus!
