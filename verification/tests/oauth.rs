use gmail_tray_notifier::error::OAuthError;
use gmail_tray_notifier::oauth::{
    token_endpoint, token_obtained, wait_for_authorisation, AccessTokenProvider,
    AuthorisationAttempt, OAuthController, TokenAction, TokenEvent,
};
use gmail_tray_notifier::token::{TokenSet, VaultDelete, VaultRead, VaultWrite};

const NOW: i64 = 1_700_000_000;

fn tokens(access: &str, refresh: Option<&str>, expires_at: Option<i64>) -> TokenSet {
    TokenSet {
        access_token: access.to_string(),
        refresh_token: refresh.map(|r| r.to_string()),
        expires_at,
    }
}

fn request(client_id: &str) -> TokenEvent {
    TokenEvent::Request { client_id: client_id.to_string(), client_secret: None }
}

fn session_with(cache: TokenSet) -> OAuthController {
    let mut session = OAuthController::new();
    session.load_cached(VaultRead::Found(cache));
    session
}

struct Fixed(Result<String, OAuthError>, bool);

impl AccessTokenProvider for Fixed {
    fn access_token(&self) -> Result<String, OAuthError> {
        self.0.clone()
    }

    fn revoke(&self) -> Result<(), OAuthError> {
        Ok(())
    }

    fn is_configured(&self) -> bool {
        self.1
    }
}

#[test]
fn configured_means_a_client_id_that_is_not_empty() {
    assert!(!OAuthController::is_configured(""));
    assert!(OAuthController::is_configured("client.apps.example"));
    assert!(OAuthController::is_configured(" "));
}

#[test]
fn pkce_challenge_in_the_url_is_the_hash_of_the_verifier() {
    let mut session = OAuthController::new();
    let attempt = session
        .authorise("my-client", &Some("my-secret".to_string()))
        .expect("an attempt starts");
    let verifier = oauth2::PkceCodeVerifier::new(attempt.pkce_verifier.clone());
    let expected = oauth2::PkceCodeChallenge::from_code_verifier_sha256(&verifier);
    assert_eq!(attempt.pkce_challenge, expected.as_str());
    assert_ne!(attempt.pkce_challenge, attempt.pkce_verifier);
    assert_eq!(attempt.pkce_verifier.len(), 43);
    assert!(attempt.url.contains(&format!("code_challenge={}", expected.as_str())));
    assert!(attempt.url.contains("code_challenge_method=S256"));
}

#[test]
fn authorisation_url_carries_client_state_redirect_and_scopes() {
    let mut session = OAuthController::new();
    let attempt = session.authorise("my-client", &None).expect("an attempt starts");
    assert!(attempt.url.starts_with("https://accounts.google.com/o/oauth2/v2/auth?"));
    assert!(attempt.url.contains("response_type=code"));
    assert!(attempt.url.contains("client_id=my-client"));
    assert!(attempt.url.contains(&format!("state={}", attempt.csrf_state)));
    assert!(attempt.url.contains("redirect_uri=http%3A%2F%2Flocalhost%3A42813%2Foauth2callback"));
    assert!(attempt.url.contains(
        "scope=https%3A%2F%2Fwww.googleapis.com%2Fauth%2Fgmail.modify+https%3A%2F%2Fwww.googleapis.com%2Fauth%2Fuserinfo.email"
    ));
    assert!(!attempt.csrf_state.is_empty());
    assert_eq!(attempt.client_id, "my-client");
    assert_eq!(attempt.client_secret, None);
}

#[test]
fn two_attempts_use_different_secrets() {
    let mut session = OAuthController::new();
    let first = session.authorise("my-client", &None).expect("first attempt");
    let second = session.authorise("my-client", &None).expect("second attempt");
    assert_ne!(first.csrf_state, second.csrf_state);
    assert_ne!(first.pkce_verifier, second.pkce_verifier);
}

#[test]
fn authorise_without_client_id_is_misconfigured() {
    let mut session = OAuthController::new();
    assert!(matches!(
        session.authorise("", &None),
        Err(OAuthError::Misconfigured(text))
            if text == "OAuth client ID is missing. Please update settings."
    ));
}

#[test]
fn first_client_settings_are_kept() {
    let mut session = OAuthController::new();
    assert!(session.ensure_client("first", &None).is_ok());
    assert!(session.ensure_client("", &None).is_ok());
    let attempt = session.authorise("second", &None).expect("an attempt starts");
    assert_eq!(attempt.client_id, "first");
}

#[test]
fn attempt_rejects_a_callback_with_another_state() {
    let mut session = OAuthController::new();
    let attempt = session.authorise("my-client", &None).expect("an attempt starts");
    let forged = "GET /oauth2callback?code=good&state=not-the-state HTTP/1.1\r\n\r\n";
    let reply = attempt.handle_callback(forged);
    assert!(matches!(reply.outcome, Err(OAuthError::Other(text)) if text == "OAuth state mismatch"));
    let genuine = format!(
        "GET /oauth2callback?code=good&state={} HTTP/1.1\r\n\r\n",
        attempt.csrf_state
    );
    let reply = attempt.handle_callback(&genuine);
    assert_eq!(reply.outcome.ok().as_deref(), Some("good"));
}

#[test]
fn assembling_an_attempt() {
    let built = AuthorisationAttempt::assemble(
        Some("https://example.test/auth".to_string()),
        "state".to_string(),
        "verifier".to_string(),
        "challenge".to_string(),
        "client".to_string(),
        Some("secret".to_string()),
    )
    .expect("an attempt");
    assert_eq!(built.url, "https://example.test/auth");
    assert_eq!(built.csrf_state, "state");
    assert_eq!(built.pkce_verifier, "verifier");
    assert_eq!(built.pkce_challenge, "challenge");
    assert_eq!(built.client_secret.as_deref(), Some("secret"));
    assert!(matches!(built.timed_out(), OAuthError::Other(text) if text == "Timed out waiting for OAuth response"));
    let failed = AuthorisationAttempt::assemble(
        None,
        "state".to_string(),
        "verifier".to_string(),
        "challenge".to_string(),
        "client".to_string(),
        None,
    );
    assert!(matches!(failed, Err(OAuthError::Other(text)) if text == "The authorization URL could not be built"));
}

#[test]
fn completed_authorisation_fills_the_cache_only_when_stored() {
    let mut session = OAuthController::new();
    let failed = session.complete_authorisation(
        tokens("fresh", None, None),
        VaultWrite::Failed("vault locked".to_string()),
    );
    assert!(matches!(failed, Err(OAuthError::Other(text)) if text == "vault locked"));
    assert!(matches!(session.access_token(request("id"), NOW), TokenAction::Load));
    assert!(session.complete_authorisation(tokens("fresh", None, None), VaultWrite::Done).is_ok());
    assert!(matches!(session.access_token(request("id"), NOW), TokenAction::Return(t) if t == "fresh"));
}

#[test]
fn request_without_client_id_is_misconfigured() {
    let mut session = session_with(tokens("cached", None, None));
    assert!(matches!(
        session.access_token(request(""), NOW),
        TokenAction::Fail(OAuthError::Misconfigured(_))
    ));
}

#[test]
fn fresh_cached_token_is_returned() {
    let mut session = session_with(tokens("cached", Some("r"), Some(NOW + 61)));
    assert!(matches!(session.access_token(request("id"), NOW), TokenAction::Return(t) if t == "cached"));
}

#[test]
fn expired_token_with_refresh_token_is_refreshed() {
    let mut session = session_with(tokens("old", Some("refresh-me"), Some(NOW + 59)));
    assert!(matches!(
        session.access_token(request("id"), NOW),
        TokenAction::Refresh { refresh_token } if refresh_token == "refresh-me"
    ));
    let refreshed = tokens("new", Some("refresh-next"), Some(NOW + 3600));
    assert!(matches!(
        session.access_token(TokenEvent::Refreshed(refreshed), NOW),
        TokenAction::Return(t) if t == "new"
    ));
    assert!(matches!(session.access_token(request("id"), NOW + 10), TokenAction::Return(t) if t == "new"));
}

#[test]
fn failed_refresh_fails_and_keeps_the_cache() {
    let mut session = session_with(tokens("old", Some("refresh-me"), Some(NOW - 5)));
    assert!(matches!(
        session.access_token(TokenEvent::RefreshFailed("connection reset".to_string()), NOW),
        TokenAction::Fail(OAuthError::Other(text)) if text == "connection reset"
    ));
    assert!(matches!(
        session.access_token(request("id"), NOW),
        TokenAction::Refresh { refresh_token } if refresh_token == "refresh-me"
    ));
}

#[test]
fn without_usable_cache_the_store_is_read_once() {
    let mut session = OAuthController::new();
    assert!(matches!(session.access_token(request("id"), NOW), TokenAction::Load));
    let mut expired = session_with(tokens("old", None, Some(NOW)));
    assert!(matches!(expired.access_token(request("id"), NOW), TokenAction::Load));
    assert!(matches!(
        expired.access_token(TokenEvent::Loaded(VaultRead::Found(tokens("stale", None, Some(NOW)))), NOW),
        TokenAction::Fail(OAuthError::NotAuthorised)
    ));
}

#[test]
fn what_the_store_gives_is_checked_for_freshness() {
    let mut session = OAuthController::new();
    session.ensure_client("id", &None).expect("configured");
    assert!(matches!(
        session.access_token(TokenEvent::Loaded(VaultRead::Found(tokens("stored", None, None))), NOW),
        TokenAction::Return(t) if t == "stored"
    ));
    let mut other = OAuthController::new();
    assert!(matches!(
        other.access_token(
            TokenEvent::Loaded(VaultRead::Found(tokens("stored", Some("r2"), Some(NOW + 1)))),
            NOW
        ),
        TokenAction::Refresh { refresh_token } if refresh_token == "r2"
    ));
}

#[test]
fn empty_or_broken_store_means_not_authorised() {
    let mut session = OAuthController::new();
    assert!(matches!(
        session.access_token(TokenEvent::Loaded(VaultRead::Unreadable), NOW),
        TokenAction::Fail(OAuthError::NotAuthorised)
    ));
    assert!(matches!(
        session.access_token(TokenEvent::Loaded(VaultRead::Malformed("bad".to_string())), NOW),
        TokenAction::Fail(OAuthError::NotAuthorised)
    ));
    assert!(matches!(
        session.access_token(TokenEvent::Loaded(VaultRead::Unavailable("down".to_string())), NOW),
        TokenAction::Fail(OAuthError::NotAuthorised)
    ));
}

#[test]
fn revoke_is_idempotent() {
    let mut session = session_with(tokens("cached", None, None));
    assert!(session.revoke(VaultDelete::Deleted).is_ok());
    assert!(matches!(session.access_token(request("id"), NOW), TokenAction::Load));
    assert!(session.revoke(VaultDelete::NoEntry).is_ok());
    assert!(matches!(session.access_token(request("id"), NOW), TokenAction::Load));
}

#[test]
fn failed_revoke_keeps_the_cache() {
    let mut session = session_with(tokens("cached", None, None));
    assert!(matches!(
        session.revoke(VaultDelete::Failed("denied".to_string())),
        Err(OAuthError::Other(text)) if text == "denied"
    ));
    assert!(matches!(session.access_token(request("id"), NOW), TokenAction::Return(t) if t == "cached"));
}

#[test]
fn load_cached_ignores_a_store_without_tokens() {
    let mut session = session_with(tokens("cached", None, None));
    session.load_cached(VaultRead::Unreadable);
    session.load_cached(VaultRead::Malformed("bad".to_string()));
    assert!(matches!(session.access_token(request("id"), NOW), TokenAction::Return(t) if t == "cached"));
    assert_eq!(session.storage().account_name(), "gmail");
}

#[test]
fn authorised_means_a_token_was_obtained() {
    assert!(token_obtained(&Some(Ok("t".to_string()))));
    assert!(!token_obtained(&Some(Err(OAuthError::NotAuthorised))));
    assert!(!token_obtained(&None));
    assert!(wait_for_authorisation(&Fixed(Ok("t".to_string()), true)));
    assert!(!wait_for_authorisation(&Fixed(Err(OAuthError::Other("x".to_string())), true)));
    assert_eq!(token_endpoint(), "https://oauth2.googleapis.com/token");
}

#[test]
fn endpoints() {
    assert_eq!(
        gmail_tray_notifier::oauth::auth_endpoint(),
        "https://accounts.google.com/o/oauth2/v2/auth"
    );
}
