use gmail_tray_notifier::error::OAuthError;
use gmail_tray_notifier::token::{
    TokenSet, TokenStorage, VaultDelete, VaultRead, VaultWrite, DEFAULT_LIFETIME_SECS,
    EXPIRY_SKEW_SECS, MAX_LIFETIME_SECS,
};

fn token(expires_at: Option<i64>) -> TokenSet {
    TokenSet { access_token: "access".to_string(), refresh_token: None, expires_at }
}

#[test]
fn expiry_skew_is_sixty_seconds() {
    let now = 1_700_000_000;
    assert_eq!(EXPIRY_SKEW_SECS, 60);
    assert!(token(Some(now + 59)).is_expired(now));
    assert!(!token(Some(now + 61)).is_expired(now));
    assert!(!token(Some(now + 60)).is_expired(now));
    assert!(token(Some(now - 1)).is_expired(now));
}

#[test]
fn token_without_expiry_never_expires() {
    assert!(!token(None).is_expired(i64::MAX));
    assert!(!token(None).is_expired(0));
}

#[test]
fn expiry_at_the_edge_of_time() {
    assert!(token(Some(i64::MAX)).is_expired(i64::MAX));
    assert!(token(Some(i64::MAX)).is_expired(i64::MAX - 59));
    assert!(!token(Some(i64::MAX)).is_expired(i64::MAX - 60));
    assert!(token(Some(i64::MIN)).is_expired(i64::MIN));
}

#[test]
fn response_gives_the_expiry_time() {
    let tokens = TokenSet::from_response(
        "at".to_string(),
        Some("rt".to_string()),
        Some(3599),
        1_700_000_000,
    );
    assert_eq!(tokens.access_token, "at");
    assert_eq!(tokens.refresh_token.as_deref(), Some("rt"));
    assert_eq!(tokens.expires_at, Some(1_700_003_599));
    let forever = TokenSet::from_response("at".to_string(), None, None, 5);
    assert_eq!(forever.refresh_token, None);
    assert_eq!(forever.expires_at, None);
}

#[test]
fn lifetime_too_long_to_represent_counts_as_an_hour() {
    assert_eq!(DEFAULT_LIFETIME_SECS, 3600);
    assert_eq!(MAX_LIFETIME_SECS, (i64::MAX / 1000) as u64);
    let capped = TokenSet::from_response("at".to_string(), None, Some(MAX_LIFETIME_SECS + 1), 100);
    assert_eq!(capped.expires_at, Some(3700));
    let longest = TokenSet::from_response("at".to_string(), None, Some(MAX_LIFETIME_SECS), 100);
    assert_eq!(longest.expires_at, Some(MAX_LIFETIME_SECS as i64 + 100));
}

#[test]
fn expiry_that_does_not_fit_is_detected() {
    assert!(TokenSet::expiry_fits(Some(10), i64::MAX - 10));
    assert!(!TokenSet::expiry_fits(Some(11), i64::MAX - 10));
    assert!(TokenSet::expiry_fits(Some(u64::MAX), i64::MAX - 3600));
    assert!(!TokenSet::expiry_fits(Some(u64::MAX), i64::MAX - 3599));
    assert!(TokenSet::expiry_fits(None, i64::MAX));
}

#[test]
fn clone_keeps_every_field() {
    let tokens = TokenSet {
        access_token: "a".to_string(),
        refresh_token: Some("r".to_string()),
        expires_at: Some(7),
    };
    let copy = tokens.clone();
    assert_eq!(copy.access_token, "a");
    assert_eq!(copy.refresh_token.as_deref(), Some("r"));
    assert_eq!(copy.expires_at, Some(7));
}

#[test]
fn storage_names_its_entry() {
    let storage = TokenStorage::new();
    assert_eq!(storage.service_name(), "gmail_tray_notifier");
    assert_eq!(storage.account_name(), "gmail");
}

#[test]
fn storage_answers() {
    let storage = TokenStorage::new();
    assert!(storage.store(VaultWrite::Done).is_ok());
    assert!(matches!(
        storage.store(VaultWrite::Failed("locked".to_string())),
        Err(OAuthError::Other(text)) if text == "locked"
    ));
    assert!(matches!(storage.load(VaultRead::Found(token(Some(1)))), Ok(t) if t.expires_at == Some(1)));
    assert!(matches!(storage.load(VaultRead::Unreadable), Err(OAuthError::NotAuthorised)));
    assert!(matches!(
        storage.load(VaultRead::Malformed("bad json".to_string())),
        Err(OAuthError::Other(text)) if text == "bad json"
    ));
    assert!(matches!(
        storage.load(VaultRead::Unavailable("no bus".to_string())),
        Err(OAuthError::Other(text)) if text == "no bus"
    ));
    assert!(storage.clear(VaultDelete::Deleted).is_ok());
    assert!(storage.clear(VaultDelete::NoEntry).is_ok());
    assert!(matches!(
        storage.clear(VaultDelete::Failed("denied".to_string())),
        Err(OAuthError::Other(text)) if text == "denied"
    ));
}
