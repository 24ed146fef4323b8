use lib_mal::callback::{bind_address, callback_code, classify_callback, query_param, CallbackRequest};
use lib_mal::challenge::{generate, random_state, state_of, VERIFIER_LEN};
use lib_mal::client::{auth_url, MALClient, SessionState, Startup};
use lib_mal::crypto::{open, seal};
use lib_mal::tokens::{
    code_exchange_form, interpret_token_reply, is_stale, record_from_response, refresh_form,
    TokenRecord, TokenResponse,
};
use lib_mal::{AuthError, MALError};
use std::path::PathBuf;

fn pairs(form: &[(String, String)]) -> Vec<(&str, &str)> {
    form.iter().map(|(k, v)| (k.as_str(), v.as_str())).collect()
}

fn response(access: &str, refresh: &str) -> TokenResponse {
    TokenResponse {
        token_type: "Bearer".to_string(),
        expires_in: 3600,
        access_token: access.to_string(),
        refresh_token: refresh.to_string(),
    }
}

fn record(access: &str, refresh: &str, expires_in: u32, issued_at: u64) -> TokenRecord {
    TokenRecord {
        access_token: access.to_string(),
        refresh_token: refresh.to_string(),
        expires_in,
        issued_at,
    }
}

fn record_json(r: &TokenRecord) -> Vec<u8> {
    format!(
        "{{\"access_token\":\"{}\",\"refresh_token\":\"{}\",\"expires_in\":{},\"today\":{}}}",
        r.access_token, r.refresh_token, r.expires_in, r.issued_at
    )
    .into_bytes()
}

fn caching_client() -> MALClient {
    MALClient::new_session("client-id", true, Some(PathBuf::from("/tmp/cache")))
}

#[test]
fn mal_error_new_fills_fields() {
    let e = MALError::new("Unable to send request", "timeout", None);
    assert_eq!(e.error, "timeout");
    assert_eq!(e.message.as_deref(), Some("Unable to send request"));
    assert_eq!(e.info, None);
    let e = MALError::new("msg", "err", Some("extra".to_string()));
    assert_eq!(e.info.as_deref(), Some("extra"));
}

#[test]
fn mal_error_describe() {
    let e = MALError::new("msg", "err", None);
    assert_eq!(e.describe(), "Error: err Message: msg Info: None");
    let e = MALError { error: "e".to_string(), message: None, info: Some("i".to_string()) };
    assert_eq!(e.describe(), "Error: e Message: None Info: i");
}

#[test]
fn auth_error_into_mal_error() {
    let e = AuthError::TokenExchangeFailed { status: 400, body: "bad".to_string() }.into_mal_error();
    assert_eq!(e.error, "token_exchange_failed");
    assert_eq!(e.info.as_deref(), Some("bad"));
    assert!(e.message.is_some());
    assert_eq!(e.message.as_deref(), Some("Unable to get tokens"));
    let e = AuthError::AuthorizationRefused.into_mal_error();
    assert_eq!(e.error, "authorization_refused");
    assert_eq!(e.message.as_deref(), Some("The authorization was refused"));
    let e = AuthError::ListenerFailed.into_mal_error();
    assert_eq!(e.error, "listener_failed");
    let e = AuthError::DecryptError.into_mal_error();
    assert_eq!(e.error, "decrypt_error");
    assert_eq!(e.message.as_deref(), Some("Unable to decrypt encrypted tokens"));
    assert_eq!(e.info, None);
}

#[test]
fn seal_open_round_trip() {
    for p in [&b""[..], &b"x"[..], &b"{\"access_token\":\"abc\"}"[..]] {
        let c = seal(p).unwrap();
        assert_ne!(c.as_slice(), p);
        assert_eq!(c.len(), p.len() + 16);
        assert_eq!(open(&c), Ok(p.to_vec()));
    }
}

#[test]
fn seal_is_deterministic() {
    assert_eq!(seal(b"same"), seal(b"same"));
    assert_ne!(seal(b"one"), seal(b"two"));
}

#[test]
fn tampered_byte_fails_to_open() {
    let p = b"secret tokens".to_vec();
    let c = seal(&p).unwrap();
    for i in 0..c.len() {
        let mut t = c.clone();
        t[i] ^= 0x01;
        assert_eq!(open(&t), Err(AuthError::DecryptError));
    }
}

#[test]
fn garbage_fails_to_open() {
    assert_eq!(open(b""), Err(AuthError::DecryptError));
    assert_eq!(open(b"not a ciphertext at all"), Err(AuthError::DecryptError));
}

#[test]
fn staleness_boundary() {
    let r = record("a", "r", 3600, 1000);
    assert!(!is_stale(&r, 4599));
    assert!(is_stale(&r, 4600));
    assert!(is_stale(&r, 100000));
    assert!(!is_stale(&r, 1000));
    assert!(!is_stale(&r, 10));
    let zero = record("a", "r", 0, 50);
    assert!(is_stale(&zero, 50));
}

#[test]
fn record_from_response_keeps_tokens() {
    let r = record_from_response(response("tok", "ref"), 77);
    assert_eq!(r.access_token, "tok");
    assert_eq!(r.refresh_token, "ref");
    assert_eq!(r.expires_in, 3600);
    assert_eq!(r.issued_at, 77);
}

#[test]
fn exchange_forms() {
    let f = code_exchange_form("cid", "abc123", "ver");
    assert_eq!(
        pairs(&f),
        vec![
            ("client_id", "cid"),
            ("grant_type", "authorization_code"),
            ("code_verifier", "ver"),
            ("code", "abc123"),
        ]
    );
    let f = refresh_form("cid", "rt");
    assert_eq!(
        pairs(&f),
        vec![("client_id", "cid"), ("grant_type", "refresh_token"), ("refresh_token", "rt")]
    );
}

#[test]
fn token_reply_interpretation() {
    match interpret_token_reply(400, "{\"error\":\"invalid_grant\"}".to_string(), None) {
        Err(AuthError::TokenExchangeFailed { status, body }) => {
            assert_eq!(status, 400);
            assert_eq!(body, "{\"error\":\"invalid_grant\"}");
        }
        _ => panic!("expected a failed exchange"),
    }
    assert!(matches!(
        interpret_token_reply(500, String::new(), Some(response("a", "b"))),
        Err(AuthError::TokenExchangeFailed { status: 500, .. })
    ));
    assert!(matches!(
        interpret_token_reply(200, "oops".to_string(), None),
        Err(AuthError::MalformedTokenResponse)
    ));
    let ok = interpret_token_reply(200, String::new(), Some(response("tok-1", "r"))).unwrap();
    assert_eq!(ok.access_token, "tok-1");
}

#[test]
fn query_param_lookup() {
    assert_eq!(query_param("/?code=abc&state=s1", "code").as_deref(), Some("abc"));
    assert_eq!(query_param("/?code=abc&state=s1", "state").as_deref(), Some("s1"));
    assert_eq!(query_param("/?code=abc&state=s1", "missing"), None);
    assert_eq!(query_param("/code=abc", "code"), None);
    assert_eq!(query_param("/?a=1&code=&b", "code").as_deref(), Some(""));
    assert_eq!(query_param("/?xcode=1&code=2", "code").as_deref(), Some("2"));
}

#[test]
fn callback_matching_state() {
    assert_eq!(callback_code("/?code=abc123&state=S", "S").as_deref(), Some("abc123"));
    assert_eq!(callback_code("/?state=S&code=abc123", "S").as_deref(), Some("abc123"));
    assert_eq!(callback_code("/?code=abc123&state=T", "S"), None);
    assert_eq!(callback_code("/?code=abc123&state=SS", "S"), None);
    assert_eq!(callback_code("/favicon.ico", "S"), None);
    assert_eq!(callback_code("/?state=S", "S"), None);
}

#[test]
fn callback_classification() {
    assert!(matches!(
        classify_callback("/?code=abc123&state=S", "S"),
        CallbackRequest::Authorized(c) if c == "abc123"
    ));
    assert!(matches!(classify_callback("/?code=abc123&state=T", "S"), CallbackRequest::Ignored));
    assert!(matches!(classify_callback("/?code=X&state=bruh12", "bruh1"), CallbackRequest::Ignored));
    assert!(matches!(classify_callback("/favicon.ico", "S"), CallbackRequest::Ignored));
    assert!(matches!(
        classify_callback("/?error=access_denied&state=S", "S"),
        CallbackRequest::Refused
    ));
}

#[test]
fn prefix_state_is_not_a_match() {
    let requests = ["/?code=X&state=bruh12", "/?code=Y&state=bruh1"];
    let got = requests.iter().find_map(|u| callback_code(u, "bruh1"));
    assert_eq!(got.as_deref(), Some("Y"));
}

#[test]
fn mismatched_request_does_not_end_wait() {
    let requests = ["/?code=evil&state=T", "/?code=good&state=S"];
    let got = requests.iter().find_map(|u| callback_code(u, "S"));
    assert_eq!(got.as_deref(), Some("good"));
    let requests = ["/?code=good&state=S", "/?code=evil&state=T"];
    let got = requests.iter().find_map(|u| callback_code(u, "S"));
    assert_eq!(got.as_deref(), Some("good"));
}

#[test]
fn bind_address_strips_scheme() {
    assert_eq!(bind_address("http://localhost:2525"), "localhost:2525");
    assert_eq!(bind_address("https://localhost:2525"), "localhost:2525");
    assert_eq!(bind_address("localhost:2525"), "localhost:2525");
    assert_eq!(bind_address(""), "");
}

#[test]
fn pkce_material_shape() {
    let m = generate();
    assert_eq!(m.verifier.len(), VERIFIER_LEN);
    assert!(m.verifier.len() >= 43 && m.verifier.len() <= 128);
    assert!(m
        .verifier
        .iter()
        .all(|b| b.is_ascii_alphanumeric() || b"-._~".contains(b)));
    assert_eq!(m.challenge, pkce::code_challenge(&m.verifier));
    assert_ne!(m.challenge.as_bytes(), m.verifier.as_slice());
    assert_eq!(m.state.len(), 32);
    assert!(m.state.chars().all(|c| c.is_ascii_hexdigit() && !c.is_ascii_uppercase()));
}

#[test]
fn state_of_bytes() {
    assert_eq!(state_of(&[]), "");
    assert_eq!(state_of(&[0x00, 0x0f, 0xa5, 0xff]), "000fa5ff");
    assert_eq!(state_of(&[0u8; 16]), "00000000000000000000000000000000");
}

#[test]
fn challenge_is_a_valid_verifier() {
    let m = generate();
    assert_eq!(m.challenge.len(), 43);
    assert!(m.challenge.chars().all(|c| c.is_ascii_alphanumeric() || c == '-' || c == '_'));
}

#[test]
fn states_differ_between_calls() {
    assert_ne!(random_state(), random_state());
    assert_ne!(generate().state, generate().state);
}

#[test]
fn auth_url_layout() {
    assert_eq!(
        auth_url("cid", "ch", "st"),
        "https://myanimelist.net/v1/oauth2/authorize?response_type=code&client_id=cid&code_challenge=ch&state=st"
    );
}

#[test]
fn auth_parts_are_consistent() {
    let c = MALClient::new_session("cid", false, None);
    let (url, challenge, state) = c.get_auth_parts();
    assert_eq!(url, auth_url("cid", &challenge, &state));
    assert_eq!(challenge.len(), 43);
}

#[test]
fn client_setters_and_getters() {
    let mut c = MALClient::with_access_token("tok");
    assert_eq!(c.get_access_token(), "tok");
    assert!(!c.need_auth);
    assert!(!c.is_caching());
    assert_eq!(c.state(), SessionState::ReadyAuthorized);
    c.set_caching(true);
    assert!(c.is_caching());
    assert!(!c.cache_in_use());
    c.set_cache_dir(PathBuf::from("/tmp/x"));
    assert_eq!(c.cache_dir(), &Some(PathBuf::from("/tmp/x")));
    assert!(c.cache_in_use());
    assert_eq!(c.client_id(), "");
}

#[test]
fn no_cache_directory_needs_auth() {
    let mut c = MALClient::new_session("cid", true, None);
    let cached = Some(record("a", "r", 3600, 0));
    assert!(matches!(c.start(cached, 10), Startup::NeedsAuth));
    assert!(c.need_auth);
    let mut c = MALClient::new_session("cid", false, Some(PathBuf::from("/tmp/c")));
    assert!(matches!(c.start(Some(record("a", "r", 3600, 0)), 10), Startup::NeedsAuth));
    assert_eq!(c.state(), SessionState::NeedsAuth);
}

#[test]
fn scenario_empty_cache_then_authorize() {
    let now = 1_700_000_000;
    let mut c = caching_client();
    assert!(matches!(c.start(None, now), Startup::NeedsAuth));
    assert_eq!(c.state(), SessionState::NeedsAuth);
    let (_url, challenge, state) = c.get_auth_parts();
    let callback = format!("/?code=abc123&state={}", state);
    let code = callback_code(&callback, &state).unwrap();
    assert_eq!(code, "abc123");
    let form = code_exchange_form(c.client_id(), &code, &challenge);
    assert_eq!(pairs(&form)[3], ("code", "abc123"));
    let reply = interpret_token_reply(200, String::new(), Some(response("tok-1", "ref-1")));
    let saved = c.finish_authorization(reply, now).unwrap().unwrap();
    assert_eq!(c.state(), SessionState::ReadyAuthorized);
    assert!(!c.need_auth && !c.needs_auth());
    assert_eq!(c.get_access_token(), "tok-1");
    assert_eq!(saved.access_token, "tok-1");
    assert_eq!(saved.issued_at, now);
}

#[test]
fn scenario_fresh_cache_is_used() {
    let now = 1_700_000_000;
    let mut c = caching_client();
    let cached = record("cached-tok", "r", 3600, now - 10);
    assert!(matches!(c.start(Some(cached), now), Startup::Ready));
    assert_eq!(c.state(), SessionState::ReadyAuthorized);
    assert_eq!(c.get_access_token(), "cached-tok");
}

#[test]
fn scenario_stale_cache_is_refreshed() {
    let now = 1_700_000_000;
    let mut c = caching_client();
    let cached = record("old-tok", "old-ref", 3600, now - 7200);
    let before = seal(&record_json(&cached)).unwrap();
    match c.start(Some(cached), now) {
        Startup::Refresh(form) => assert_eq!(
            pairs(&form),
            vec![("client_id", "client-id"), ("grant_type", "refresh_token"), ("refresh_token", "old-ref")]
        ),
        _ => panic!("expected a refresh"),
    }
    let reply = interpret_token_reply(200, String::new(), Some(response("new-tok", "new-ref")));
    let saved = c.finish_refresh(reply, now).unwrap();
    assert_eq!(c.state(), SessionState::ReadyAuthorized);
    assert_eq!(c.get_access_token(), "new-tok");
    let after = seal(&record_json(&saved)).unwrap();
    assert_ne!(before, after);
    assert_eq!(open(&after), Ok(record_json(&saved)));
}

#[test]
fn scenario_refresh_rejected() {
    let now = 1_700_000_000;
    let mut c = caching_client();
    let cached = record("old-tok", "old-ref", 3600, now - 7200);
    assert!(matches!(c.start(Some(cached), now), Startup::Refresh(_)));
    let reply = interpret_token_reply(400, "{\"error\":\"invalid_grant\"}".to_string(), None);
    assert!(c.finish_refresh(reply, now).is_none());
    assert!(c.need_auth && c.needs_auth());
    assert_eq!(c.state(), SessionState::NeedsAuth);
}

#[test]
fn failed_authorization_keeps_session() {
    let mut c = MALClient::new_session("cid", false, None);
    let reply = interpret_token_reply(401, "denied".to_string(), None);
    assert!(c.finish_authorization(reply, 5).is_err());
    assert!(c.need_auth);
    let ok = interpret_token_reply(200, String::new(), Some(response("t", "r")));
    assert_eq!(c.finish_authorization(ok, 5).unwrap().is_none(), true);
    assert_eq!(c.get_access_token(), "t");
}
