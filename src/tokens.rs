use vstd::prelude::*;
use crate::error::AuthError;

verus! {

/// The token pair kept in the cache, with the time it was obtained.
pub struct TokenRecord {
    pub access_token: String,
    pub refresh_token: String,
    /// Lifetime of the access token, in seconds.
    pub expires_in: u32,
    /// Unix time, in seconds, at which the pair was obtained.
    pub issued_at: u64,
}

/// A successful reply of the token endpoint.
pub struct TokenResponse {
    pub token_type: String,
    pub expires_in: u32,
    pub access_token: String,
    pub refresh_token: String,
}

/// A record is stale once `expires_in` seconds have passed since `issued_at`.
pub open spec fn stale(record: TokenRecord, now: int) -> bool {
    now - record.issued_at >= record.expires_in
}

/// Whether `record` has expired at Unix time `now`.
pub fn is_stale(record: &TokenRecord, now: u64) -> (r: bool)
    ensures
        r == stale(*record, now as int),
{
    now >= record.issued_at && now - record.issued_at >= record.expires_in as u64
}

/// Staleness flips exactly at `issued_at + expires_in`: one second before it
/// the record is still fresh.
pub proof fn lemma_stale_boundary(record: TokenRecord, now: int)
    requires
        now == record.issued_at + record.expires_in,
    ensures
        stale(record, now),
        !stale(record, now - 1),
{
}

/// The record that a token reply received at `now` gives.
pub open spec fn record_of(resp: TokenResponse, now: u64) -> TokenRecord {
    TokenRecord {
        access_token: resp.access_token,
        refresh_token: resp.refresh_token,
        expires_in: resp.expires_in,
        issued_at: now,
    }
}

/// The record to keep for a token reply received at Unix time `now`.
pub fn record_from_response(resp: TokenResponse, now: u64) -> (r: TokenRecord)
    ensures
        r == record_of(resp, now),
{
    TokenRecord {
        access_token: resp.access_token,
        refresh_token: resp.refresh_token,
        expires_in: resp.expires_in,
        issued_at: now,
    }
}

/// A record kept from a reply received at `issued` stays fresh, with the
/// reply's access token, for `expires_in` seconds, and is stale from then on.
pub proof fn lemma_kept_record_lifetime(resp: TokenResponse, issued: u64, now: int)
    ensures
        record_of(resp, issued).access_token == resp.access_token,
        stale(record_of(resp, issued), now) <==> now >= issued + resp.expires_in,
{
}

/// A form as pairs of texts.
pub open spec fn form_view(form: Seq<(String, String)>) -> Seq<(Seq<char>, Seq<char>)> {
    form.map_values(|p: (String, String)| (p.0@, p.1@))
}

/// The form that trades an authorization code and its PKCE verifier for tokens.
pub open spec fn code_exchange_form_spec(
    client_id: Seq<char>,
    code: Seq<char>,
    verifier: Seq<char>,
) -> Seq<(Seq<char>, Seq<char>)> {
    seq![
        ("client_id"@, client_id),
        ("grant_type"@, "authorization_code"@),
        ("code_verifier"@, verifier),
        ("code"@, code),
    ]
}

/// The form that trades a refresh token for a new token pair.
pub open spec fn refresh_form_spec(client_id: Seq<char>, refresh_token: Seq<char>) -> Seq<
    (Seq<char>, Seq<char>),
> {
    seq![
        ("client_id"@, client_id),
        ("grant_type"@, "refresh_token"@),
        ("refresh_token"@, refresh_token),
    ]
}

fn text(s: &str) -> (r: String)
    ensures
        r@ == s@,
{
    String::from_str(s)
}

/// The form body of the authorization-code exchange.
pub fn code_exchange_form(client_id: &str, code: &str, verifier: &str) -> (r: Vec<(String, String)>)
    ensures
        form_view(r@) == code_exchange_form_spec(client_id@, code@, verifier@),
{
    let mut r: Vec<(String, String)> = Vec::new();
    r.push((text("client_id"), text(client_id)));
    r.push((text("grant_type"), text("authorization_code")));
    r.push((text("code_verifier"), text(verifier)));
    r.push((text("code"), text(code)));
    assert(form_view(r@) =~= code_exchange_form_spec(client_id@, code@, verifier@));
    r
}

/// The form body of the refresh exchange.
pub fn refresh_form(client_id: &str, refresh_token: &str) -> (r: Vec<(String, String)>)
    ensures
        form_view(r@) == refresh_form_spec(client_id@, refresh_token@),
{
    let mut r: Vec<(String, String)> = Vec::new();
    r.push((text("client_id"), text(client_id)));
    r.push((text("grant_type"), text("refresh_token")));
    r.push((text("refresh_token"), text(refresh_token)));
    assert(form_view(r@) =~= refresh_form_spec(client_id@, refresh_token@));
    r
}

/// Whether an HTTP status is a success.
pub open spec fn is_success(status: u16) -> bool {
    200 <= status <= 299
}

/// Turns a reply of the token endpoint into tokens or the error it stands for:
/// a non-2xx status is `TokenExchangeFailed` with the status and body, a 2xx
/// body that is no token reply is `MalformedTokenResponse`.
pub fn interpret_token_reply(status: u16, body: String, parsed: Option<TokenResponse>) -> (r: Result<
    TokenResponse,
    AuthError,
>)
    ensures
        !is_success(status) ==> (r matches Err(AuthError::TokenExchangeFailed { status: s, body: b })
            && s == status && b@ == body@),
        is_success(status) && parsed is Some ==> r == Ok::<TokenResponse, AuthError>(parsed->0),
        is_success(status) && parsed is None ==> r == Err::<TokenResponse, AuthError>(
            AuthError::MalformedTokenResponse,
        ),
{
    if status < 200 || status > 299 {
        Err(AuthError::TokenExchangeFailed { status, body })
    } else {
        match parsed {
            Some(t) => Ok(t),
            None => Err(AuthError::MalformedTokenResponse),
        }
    }
}

} // verus!
