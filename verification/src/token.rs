//! The token set of a session, its expiry rule, and what the answers of the
//! secret store mean.

use crate::error::{OAuthError, OAuthErrorView};
use crate::text::{opt_clone, opt_view};
use vstd::prelude::*;

verus! {

/// A token counts as expired this many seconds before its time is up.
pub const EXPIRY_SKEW_SECS: i64 = 60;

/// The lifetime given to a token whose stated lifetime is too long to
/// represent, in seconds.
pub const DEFAULT_LIFETIME_SECS: i64 = 3600;

/// The longest stated lifetime that is taken as it stands, in seconds: the
/// largest count of milliseconds that fits 64 bits, in whole seconds.
pub const MAX_LIFETIME_SECS: u64 = 9_223_372_036_854_775;

/// The credentials of a session. Times count seconds since the Unix epoch.
#[derive(Debug)]
pub struct TokenSet {
    pub access_token: String,
    pub refresh_token: Option<String>,
    /// When the access token runs out; absent for one that never does.
    pub expires_at: Option<i64>,
}

/// The mathematical content of a `TokenSet`.
pub struct TokenSetView {
    pub access_token: Seq<char>,
    pub refresh_token: Option<Seq<char>>,
    pub expires_at: Option<i64>,
}

impl View for TokenSet {
    type V = TokenSetView;

    open spec fn view(&self) -> TokenSetView {
        TokenSetView {
            access_token: self.access_token@,
            refresh_token: opt_view(self.refresh_token),
            expires_at: self.expires_at,
        }
    }
}

impl Clone for TokenSet {
    fn clone(&self) -> (r: Self)
        ensures
            r@ == self@,
    {
        TokenSet {
            access_token: self.access_token.clone(),
            refresh_token: opt_clone(&self.refresh_token),
            expires_at: self.expires_at,
        }
    }
}

/// Whether a token that runs out at `expires_at` counts as expired at `now`:
/// it does once fewer than `EXPIRY_SKEW_SECS` seconds are left. A token
/// without an expiry time never does.
pub open spec fn spec_is_expired(expires_at: Option<i64>, now: i64) -> bool {
    match expires_at {
        Some(at) => at < now + EXPIRY_SKEW_SECS,
        None => false,
    }
}

/// The lifetime that a stated lifetime stands for.
pub open spec fn spec_lifetime(expires_in_secs: u64) -> int {
    if expires_in_secs <= MAX_LIFETIME_SECS {
        expires_in_secs as int
    } else {
        DEFAULT_LIFETIME_SECS as int
    }
}

/// When a token received at `now` runs out.
pub open spec fn spec_expires_at(expires_in_secs: Option<u64>, now: i64) -> Option<int> {
    match expires_in_secs {
        Some(secs) => Some(now + spec_lifetime(secs)),
        None => None,
    }
}

impl TokenSet {
    /// The token set that a token response gives at `now`.
    pub fn from_response(
        access_token: String,
        refresh_token: Option<String>,
        expires_in_secs: Option<u64>,
        now: i64,
    ) -> (tokens: TokenSet)
        requires
            expires_in_secs matches Some(secs) ==> now + spec_lifetime(secs) <= i64::MAX,
        ensures
            tokens@.access_token == access_token@,
            tokens@.refresh_token == opt_view(refresh_token),
            match tokens@.expires_at {
                Some(at) => spec_expires_at(expires_in_secs, now) == Some(at as int),
                None => spec_expires_at(expires_in_secs, now) is None,
            },
    {
        let expires_at = match expires_in_secs {
            Some(secs) => {
                let lifetime: i64 = if secs <= MAX_LIFETIME_SECS {
                    secs as i64
                } else {
                    DEFAULT_LIFETIME_SECS
                };
                Some(now + lifetime)
            },
            None => None,
        };
        TokenSet { access_token, refresh_token, expires_at }
    }

    /// Whether `from_response` can represent the expiry time.
    pub fn expiry_fits(expires_in_secs: Option<u64>, now: i64) -> (fits: bool)
        ensures
            fits == (expires_in_secs matches Some(secs) ==> now + spec_lifetime(secs)
                <= i64::MAX),
    {
        match expires_in_secs {
            Some(secs) => {
                let lifetime: i64 = if secs <= MAX_LIFETIME_SECS {
                    secs as i64
                } else {
                    DEFAULT_LIFETIME_SECS
                };
                now.checked_add(lifetime).is_some()
            },
            None => true,
        }
    }

    /// Whether the access token counts as expired at `now`.
    pub fn is_expired(&self, now: i64) -> (expired: bool)
        ensures
            expired == spec_is_expired(self@.expires_at, now),
    {
        match self.expires_at {
            Some(at) => (at as i128) < (now as i128) + (EXPIRY_SKEW_SECS as i128),
            None => false,
        }
    }
}

/// A token with fewer than `EXPIRY_SKEW_SECS` seconds left is expired, one
/// with more is not: 59 seconds before its time it is, 61 seconds before it
/// is not.
pub proof fn lemma_expiry_skew(now: i64, left: int)
    requires
        i64::MIN <= now + left <= i64::MAX,
    ensures
        spec_is_expired(Some((now + left) as i64), now) == (left < EXPIRY_SKEW_SECS),
        left == 59 ==> spec_is_expired(Some((now + left) as i64), now),
        left == 61 ==> !spec_is_expired(Some((now + left) as i64), now),
{
}

// ---------------------------------------------------------------------------
// The secret store
// ---------------------------------------------------------------------------

/// How the secret store answered a read of the session's entry.
#[derive(Debug)]
pub enum VaultRead {
    /// The entry holds this token set.
    Found(TokenSet),
    /// The entry could not be read: it is absent, or access was refused.
    Unreadable,
    /// The entry was read and does not hold a token set; the text says why.
    Malformed(String),
    /// The store itself could not be reached; the text says why.
    Unavailable(String),
}

/// How the secret store answered a write of the session's entry.
#[derive(Debug)]
pub enum VaultWrite {
    Done,
    Failed(String),
}

/// How the secret store answered a deletion of the session's entry.
#[derive(Debug)]
pub enum VaultDelete {
    Deleted,
    /// There was no entry to delete.
    NoEntry,
    Failed(String),
}

/// The entry of the secret store that holds the session's token set.
#[derive(Debug)]
pub struct TokenStorage {}

impl TokenStorage {
    /// The storage of the session's one entry.
    pub fn new() -> (storage: TokenStorage) {
        TokenStorage {  }
    }

    /// The service under which the entry is kept.
    pub fn service_name(&self) -> (name: &'static str)
        ensures
            name@ == "gmail_tray_notifier"@,
    {
        "gmail_tray_notifier"
    }

    /// The account under which the entry is kept.
    pub fn account_name(&self) -> (name: &'static str)
        ensures
            name@ == "gmail"@,
    {
        "gmail"
    }

    /// What a write comes to.
    pub fn store(&self, outcome: VaultWrite) -> (r: Result<(), OAuthError>)
        ensures
            match outcome {
                VaultWrite::Done => r is Ok,
                VaultWrite::Failed(why) => r matches Err(e) && e@ == OAuthErrorView::Other(why@),
            },
    {
        match outcome {
            VaultWrite::Done => Ok(()),
            VaultWrite::Failed(why) => Err(OAuthError::Other(why)),
        }
    }

    /// What a read comes to: an entry that cannot be read means that the
    /// user is not authorised.
    pub fn load(&self, outcome: VaultRead) -> (r: Result<TokenSet, OAuthError>)
        ensures
            match outcome {
                VaultRead::Found(tokens) => r matches Ok(t) && t@ == tokens@,
                VaultRead::Unreadable => r matches Err(e) && e@ == OAuthErrorView::NotAuthorised,
                VaultRead::Malformed(why) => r matches Err(e) && e@ == OAuthErrorView::Other(
                    why@,
                ),
                VaultRead::Unavailable(why) => r matches Err(e) && e@ == OAuthErrorView::Other(
                    why@,
                ),
            },
    {
        match outcome {
            VaultRead::Found(tokens) => Ok(tokens),
            VaultRead::Unreadable => Err(OAuthError::NotAuthorised),
            VaultRead::Malformed(why) => Err(OAuthError::Other(why)),
            VaultRead::Unavailable(why) => Err(OAuthError::Other(why)),
        }
    }

    /// What a deletion comes to: that there was nothing to delete is no
    /// failure.
    pub fn clear(&self, outcome: VaultDelete) -> (r: Result<(), OAuthError>)
        ensures
            match outcome {
                VaultDelete::Deleted => r is Ok,
                VaultDelete::NoEntry => r is Ok,
                VaultDelete::Failed(why) => r matches Err(e) && e@ == OAuthErrorView::Other(why@),
            },
    {
        match outcome {
            VaultDelete::Deleted => Ok(()),
            VaultDelete::NoEntry => Ok(()),
            VaultDelete::Failed(why) => Err(OAuthError::Other(why)),
        }
    }
}

} // verus!
