//! The authorization session: the client configuration, the start of an
//! authorization attempt with PKCE and a CSRF state, and the decisions by
//! which a valid access token is produced on demand.
//!
//! The session does no input or output. Whoever drives it performs what an
//! action asks for and hands the result back as the next event.

use crate::error::{OAuthError, OAuthErrorView};
use crate::redirect::{
    redirect_uri, spec_callback_params, spec_callback_reply, spec_redirect_uri, wait_for_code,
    CallbackReply,
};
use crate::text::{opt_clone, opt_view};
use crate::token::{
    spec_is_expired, TokenSet, TokenSetView, TokenStorage, VaultDelete, VaultRead, VaultWrite,
};
use oauth2::basic::BasicClient;
use oauth2::{
    AuthUrl, ClientId, CsrfToken, PkceCodeChallenge, PkceCodeVerifier, RedirectUrl, Scope,
};
use vstd::pervasive::unreached;
use vstd::prelude::*;
use vstd::utf8::*;

verus! {

/// The provider's authorization endpoint.
pub open spec fn spec_auth_endpoint() -> Seq<char> {
    "https://accounts.google.com/o/oauth2/v2/auth"@
}

/// The provider's token endpoint.
pub open spec fn spec_token_endpoint() -> Seq<char> {
    "https://oauth2.googleapis.com/token"@
}

/// The scope that lets the agent read mail and change labels.
pub open spec fn spec_mail_scope() -> Seq<char> {
    "https://www.googleapis.com/auth/gmail.modify"@
}

/// The scope that tells the agent whose mailbox it watches.
pub open spec fn spec_identity_scope() -> Seq<char> {
    "https://www.googleapis.com/auth/userinfo.email"@
}

/// What is reported while no client identifier is configured.
pub open spec fn spec_missing_client_id() -> Seq<char> {
    "OAuth client ID is missing. Please update settings."@
}

/// What is reported where no authorization URL could be built.
pub open spec fn spec_no_url() -> Seq<char> {
    "The authorization URL could not be built"@
}

/// What is reported when the wait for the redirect runs out.
pub open spec fn spec_timed_out() -> Seq<char> {
    "Timed out waiting for OAuth response"@
}

/// The provider's authorization endpoint.
pub fn auth_endpoint() -> (url: &'static str)
    ensures
        url@ == spec_auth_endpoint(),
{
    "https://accounts.google.com/o/oauth2/v2/auth"
}

/// The provider's token endpoint.
pub fn token_endpoint() -> (url: &'static str)
    ensures
        url@ == spec_token_endpoint(),
{
    "https://oauth2.googleapis.com/token"
}

/// The value returned by a successful authorization.
#[derive(Debug, Clone, Copy)]
pub struct AuthorisationResult {}

/// Anything that can produce an access token.
pub trait AccessTokenProvider {
    /// A token that is valid now.
    fn access_token(&self) -> Result<String, OAuthError>;

    /// Gives the stored credentials up.
    fn revoke(&self) -> Result<(), OAuthError>;

    /// Whether a client identifier is configured.
    fn is_configured(&self) -> bool;
}

/// Whether an attempt to get a token, which may have run out of time before
/// it gave anything, shows that the user is authorised.
pub fn token_obtained(outcome: &Option<Result<String, OAuthError>>) -> (authorised: bool)
    ensures
        authorised == (outcome matches Some(Ok(_))),
{
    match outcome {
        Some(Ok(_)) => true,
        _ => false,
    }
}

/// Asks the provider for a token and says whether it gave one.
pub fn wait_for_authorisation<P: AccessTokenProvider>(provider: &P) -> (authorised: bool) {
    let outcome = Some(provider.access_token());
    token_obtained(&outcome)
}

// ---------------------------------------------------------------------------
// PKCE, state and URL: the `oauth2` crate
// ---------------------------------------------------------------------------

/// The SHA-256 code challenge of a PKCE code verifier, as
/// `oauth2::PkceCodeChallenge::from_code_verifier_sha256` computes it.
pub uninterp spec fn spec_pkce_challenge(verifier: Seq<char>) -> Seq<char>;

/// The authorization URL that `oauth2` builds for a client with the given
/// endpoint, identifier and redirect URI, for a request with the given state,
/// SHA-256 code challenge and two scopes; `None` where it does not take the
/// endpoint or the redirect URI for a URL.
pub uninterp spec fn spec_authorize_url(
    endpoint: Seq<char>,
    client_id: Seq<char>,
    redirect: Seq<char>,
    state: Seq<char>,
    challenge: Seq<char>,
    first_scope: Seq<char>,
    second_scope: Seq<char>,
) -> Option<Seq<char>>;

/// Calls `oauth2::PkceCodeChallenge::new_random_sha256` and returns the
/// challenge and the verifier as text. The verifier is random; it is the
/// base64 form of 32 bytes, which takes 43 bytes, and the challenge is the
/// one that `from_code_verifier_sha256` computes from it.
#[verifier::external_body]
fn new_pkce_pair() -> (pair: (String, String))
    ensures
        pair.0@ == spec_pkce_challenge(pair.1@),
        encode_utf8(pair.1@).len() == 43,
{
    let (challenge, verifier) = PkceCodeChallenge::new_random_sha256();
    (challenge.as_str().to_string(), verifier.secret().to_string())
}

/// Calls `oauth2::CsrfToken::new_random`. The token is random: nothing is
/// claimed of it.
#[verifier::external_body]
fn new_csrf_state() -> (state: String) {
    CsrfToken::new_random().secret().to_string()
}

/// Builds the authorization URL with `oauth2`: a `BasicClient` for the
/// endpoint, the client identifier and the redirect URI, then
/// `Client::authorize_url` with the state, the challenge of the verifier and
/// the two scopes, then `AuthorizationRequest::url`. The verifier's length
/// must be one that `from_code_verifier_sha256` takes.
#[verifier::external_body]
fn authorize_url(
    endpoint: &str,
    client_id: &str,
    redirect: &str,
    state: &str,
    verifier: &str,
    first_scope: &str,
    second_scope: &str,
) -> (url: Option<String>)
    requires
        43 <= encode_utf8(verifier@).len() <= 128,
    ensures
        opt_view(url) == spec_authorize_url(
            endpoint@,
            client_id@,
            redirect@,
            state@,
            spec_pkce_challenge(verifier@),
            first_scope@,
            second_scope@,
        ),
{
    let auth = AuthUrl::new(endpoint.to_string()).ok()?;
    let back = RedirectUrl::new(redirect.to_string()).ok()?;
    let id = ClientId::new(client_id.to_string());
    let client = BasicClient::new(id, None, auth, None).set_redirect_uri(back);
    let secret = PkceCodeVerifier::new(verifier.to_string());
    let challenge = PkceCodeChallenge::from_code_verifier_sha256(&secret);
    let token = CsrfToken::new(state.to_string());
    let request = client.authorize_url(move || token).set_pkce_challenge(challenge);
    let request = request.add_scope(Scope::new(first_scope.to_string()));
    Some(request.add_scope(Scope::new(second_scope.to_string())).url().0.to_string())
}

// ---------------------------------------------------------------------------
// The authorization attempt
// ---------------------------------------------------------------------------

/// One authorization attempt in flight: the URL that the browser is sent
/// to, and the two secrets that were made for it.
#[derive(Debug)]
pub struct AuthorisationAttempt {
    pub url: String,
    pub csrf_state: String,
    pub pkce_verifier: String,
    pub pkce_challenge: String,
    pub client_id: String,
    pub client_secret: Option<String>,
}

impl AuthorisationAttempt {
    /// What holds of every attempt that the session starts: the challenge is
    /// the hash of the verifier, and the URL is the one built for this
    /// client, this state and this challenge.
    pub open spec fn wf(&self) -> bool {
        &&& self.pkce_challenge@ == spec_pkce_challenge(self.pkce_verifier@)
        &&& spec_authorize_url(
            spec_auth_endpoint(),
            self.client_id@,
            spec_redirect_uri(),
            self.csrf_state@,
            self.pkce_challenge@,
            spec_mail_scope(),
            spec_identity_scope(),
        ) == Some(self.url@)
    }

    /// Puts an attempt together from what was made for it. Without a URL
    /// the attempt fails.
    pub fn assemble(
        url: Option<String>,
        csrf_state: String,
        pkce_verifier: String,
        pkce_challenge: String,
        client_id: String,
        client_secret: Option<String>,
    ) -> (r: Result<AuthorisationAttempt, OAuthError>)
        ensures
            match url {
                Some(text) => {
                    &&& r matches Ok(attempt)
                    &&& attempt.url@ == text@
                    &&& attempt.csrf_state@ == csrf_state@
                    &&& attempt.pkce_verifier@ == pkce_verifier@
                    &&& attempt.pkce_challenge@ == pkce_challenge@
                    &&& attempt.client_id@ == client_id@
                    &&& opt_view(attempt.client_secret) == opt_view(client_secret)
                },
                None => r matches Err(e) && e@ == OAuthErrorView::Other(spec_no_url()),
            },
    {
        match url {
            Some(text) => Ok(
                AuthorisationAttempt {
                    url: text,
                    csrf_state,
                    pkce_verifier,
                    pkce_challenge,
                    client_id,
                    client_secret,
                },
            ),
            None => Err(OAuthError::Other("The authorization URL could not be built".to_owned())),
        }
    }

    /// Handles the request that arrived on the loopback listener: what to
    /// write back, and the authorization code or the failure. A request
    /// whose state is not this attempt's never gives a code.
    pub fn handle_callback(&self, request: &str) -> (reply: CallbackReply)
        ensures
            reply@ == spec_callback_reply(spec_callback_params(request@), self.csrf_state@),
            spec_callback_params(request@).state != Some(self.csrf_state@) ==> reply@.outcome
                is Err,
    {
        wait_for_code(request, self.csrf_state.as_str())
    }

    /// The failure of an attempt for which no request arrived in time.
    pub fn timed_out(&self) -> (e: OAuthError)
        ensures
            e@ == OAuthErrorView::Other(spec_timed_out()),
    {
        OAuthError::Other("Timed out waiting for OAuth response".to_owned())
    }
}

// ---------------------------------------------------------------------------
// The session
// ---------------------------------------------------------------------------

/// The client as it was configured when the session first needed it.
#[derive(Debug)]
pub struct ClientConfig {
    pub client_id: String,
    pub client_secret: Option<String>,
}

/// The mathematical content of a `ClientConfig`.
pub struct ClientConfigView {
    pub client_id: Seq<char>,
    pub client_secret: Option<Seq<char>>,
}

impl View for ClientConfig {
    type V = ClientConfigView;

    open spec fn view(&self) -> ClientConfigView {
        ClientConfigView {
            client_id: self.client_id@,
            client_secret: opt_view(self.client_secret),
        }
    }
}

/// What the session asks for, or gives, on the way to an access token.
#[derive(Debug)]
pub enum TokenAction {
    /// Here is the token.
    Return(String),
    /// Exchange this refresh token for a new token set and store the result.
    Refresh { refresh_token: String },
    /// Read the token set from the secret store.
    Load,
    /// No token can be had.
    Fail(OAuthError),
}

/// The mathematical content of a `TokenAction`.
pub enum TokenActionView {
    Return(Seq<char>),
    Refresh { refresh_token: Seq<char> },
    Load,
    Fail(OAuthErrorView),
}

impl View for TokenAction {
    type V = TokenActionView;

    open spec fn view(&self) -> TokenActionView {
        match self {
            TokenAction::Return(token) => TokenActionView::Return(token@),
            TokenAction::Refresh { refresh_token } => TokenActionView::Refresh {
                refresh_token: refresh_token@,
            },
            TokenAction::Load => TokenActionView::Load,
            TokenAction::Fail(e) => TokenActionView::Fail(e@),
        }
    }
}

/// What happened since the session's last action.
#[derive(Debug)]
pub enum TokenEvent {
    /// A token is asked for. The client settings are those of this moment.
    Request { client_id: String, client_secret: Option<String> },
    /// The refresh gave this token set, and the secret store has taken it.
    Refreshed(TokenSet),
    /// The refresh failed, or its result could not be stored.
    RefreshFailed(String),
    /// The secret store has answered the read.
    Loaded(VaultRead),
}

/// The mathematical content of the session.
pub struct SessionView {
    pub client: Option<ClientConfigView>,
    pub cache: Option<TokenSetView>,
}

/// The authorization session: the client, once configured, and the cached
/// token set.
pub struct OAuthController {
    client: Option<ClientConfig>,
    cache: Option<TokenSet>,
    storage: TokenStorage,
}

/// What the cache allows at `now`: a token that has not expired is returned;
/// an expired one is refreshed where a refresh token is there. Otherwise the
/// secret store is read, once: after that read the user is not authorised.
pub open spec fn spec_cache_step(cache: Option<TokenSetView>, now: i64, after_load: bool) -> TokenActionView {
    match cache {
        Some(tokens) => if !spec_is_expired(tokens.expires_at, now) {
            TokenActionView::Return(tokens.access_token)
        } else {
            match tokens.refresh_token {
                Some(refresh_token) => TokenActionView::Refresh { refresh_token },
                None => spec_without_token(after_load),
            }
        },
        None => spec_without_token(after_load),
    }
}

/// What is left where the cache gives nothing.
pub open spec fn spec_without_token(after_load: bool) -> TokenActionView {
    if after_load {
        TokenActionView::Fail(OAuthErrorView::NotAuthorised)
    } else {
        TokenActionView::Load
    }
}

/// The client after it was asked for with the given settings: the one that
/// is there stays; a new one needs a client identifier.
pub open spec fn spec_ensure_client(
    client: Option<ClientConfigView>,
    client_id: Seq<char>,
    client_secret: Option<Seq<char>>,
) -> Result<ClientConfigView, OAuthErrorView> {
    match client {
        Some(config) => Ok(config),
        None => if client_id.len() == 0 {
            Err(OAuthErrorView::Misconfigured(spec_missing_client_id()))
        } else {
            Ok(ClientConfigView { client_id, client_secret })
        },
    }
}

impl View for OAuthController {
    type V = SessionView;

    closed spec fn view(&self) -> SessionView {
        SessionView {
            client: match self.client {
                Some(config) => Some(config@),
                None => None,
            },
            cache: match self.cache {
                Some(tokens) => Some(tokens@),
                None => None,
            },
        }
    }
}

impl OAuthController {
    /// A session without client and without tokens.
    pub fn new() -> (session: OAuthController)
        ensures
            session@.client is None,
            session@.cache is None,
    {
        OAuthController { client: None, cache: None, storage: TokenStorage::new() }
    }

    /// Whether a client identifier is configured: whether it is not empty.
    pub fn is_configured(client_id: &str) -> (configured: bool)
        ensures
            configured == (client_id@.len() > 0),
    {
        !client_id.is_empty()
    }

    /// The storage of the session's secret.
    pub fn storage(&self) -> (storage: &TokenStorage) {
        &self.storage
    }

    /// The client, once it is configured.
    pub fn client(&self) -> (client: Option<ClientConfig>)
        ensures
            match client {
                Some(config) => self@.client == Some(config@),
                None => self@.client is None,
            },
    {
        match &self.client {
            Some(config) => Some(
                ClientConfig {
                    client_id: config.client_id.clone(),
                    client_secret: opt_clone(&config.client_secret),
                },
            ),
            None => None,
        }
    }

    /// Makes sure that the client is configured. The first settings that
    /// name a client identifier are kept for the life of the session.
    pub fn ensure_client(&mut self, client_id: &str, client_secret: &Option<String>) -> (r: Result<
        (),
        OAuthError,
    >)
        ensures
            final(self)@.cache == old(self)@.cache,
            match spec_ensure_client(old(self)@.client, client_id@, opt_view(*client_secret)) {
                Ok(config) => r is Ok && final(self)@.client == Some(config),
                Err(e) => r matches Err(err) && err@ == e && final(self)@.client == old(
                    self,
                )@.client,
            },
    {
        if self.client.is_some() {
            return Ok(());
        }
        if client_id.is_empty() {
            return Err(
                OAuthError::Misconfigured(
                    "OAuth client ID is missing. Please update settings.".to_owned(),
                ),
            );
        }
        self.client = Some(
            ClientConfig { client_id: client_id.to_owned(), client_secret: opt_clone(client_secret) },
        );
        Ok(())
    }

    /// Starts an authorization attempt: makes a PKCE pair and a CSRF state
    /// and builds the URL to which the browser is to be sent. It fails as
    /// misconfigured where no client is configured and the settings name no
    /// client identifier. With a client it fails only where no URL can be
    /// built for the state and the verifier that were made.
    pub fn authorise(&mut self, client_id: &str, client_secret: &Option<String>) -> (r: Result<
        AuthorisationAttempt,
        OAuthError,
    >)
        ensures
            final(self)@.cache == old(self)@.cache,
            match spec_ensure_client(old(self)@.client, client_id@, opt_view(*client_secret)) {
                Ok(config) => {
                    &&& final(self)@.client == Some(config)
                    &&& match r {
                        Ok(attempt) => {
                            &&& attempt.wf()
                            &&& attempt.client_id@ == config.client_id
                            &&& opt_view(attempt.client_secret) == config.client_secret
                        },
                        Err(e) => {
                            &&& e@ == OAuthErrorView::Other(spec_no_url())
                            &&& exists|state: Seq<char>, verifier: Seq<char>|
                                encode_utf8(verifier).len() == 43 && (#[trigger] spec_authorize_url(
                                    spec_auth_endpoint(),
                                    config.client_id,
                                    spec_redirect_uri(),
                                    state,
                                    spec_pkce_challenge(verifier),
                                    spec_mail_scope(),
                                    spec_identity_scope(),
                                )) is None
                        },
                    }
                },
                Err(e) => r matches Err(err) && err@ == e && final(self)@.client == old(
                    self,
                )@.client,
            },
    {
        match self.ensure_client(client_id, client_secret) {
            Err(e) => {
                return Err(e);
            },
            Ok(_) => {},
        }
        let (id, secret) = match &self.client {
            Some(config) => (config.client_id.clone(), opt_clone(&config.client_secret)),
            None => unreached(),
        };
        let (challenge, verifier) = new_pkce_pair();
        let state = new_csrf_state();
        let redirect = redirect_uri();
        let url = authorize_url(
            auth_endpoint(),
            id.as_str(),
            redirect.as_str(),
            state.as_str(),
            verifier.as_str(),
            "https://www.googleapis.com/auth/gmail.modify",
            "https://www.googleapis.com/auth/userinfo.email",
        );
        proof {
            if url is None {
                let config = spec_ensure_client(
                    old(self)@.client,
                    client_id@,
                    opt_view(*client_secret),
                )->Ok_0;
                assert(config.client_id == id@);
                assert(encode_utf8(verifier@).len() == 43);
                assert(spec_authorize_url(
                    spec_auth_endpoint(),
                    config.client_id,
                    spec_redirect_uri(),
                    state@,
                    spec_pkce_challenge(verifier@),
                    spec_mail_scope(),
                    spec_identity_scope(),
                ) is None);
            }
        }
        AuthorisationAttempt::assemble(url, state, verifier, challenge, id, secret)
    }

    /// Ends an authorization attempt whose code was exchanged for `tokens`,
    /// given the secret store's answer to storing them. Only tokens that
    /// were stored are taken into the cache.
    pub fn complete_authorisation(&mut self, tokens: TokenSet, stored: VaultWrite) -> (r: Result<
        AuthorisationResult,
        OAuthError,
    >)
        ensures
            final(self)@.client == old(self)@.client,
            match stored {
                VaultWrite::Done => r is Ok && final(self)@.cache == Some(tokens@),
                VaultWrite::Failed(why) => {
                    &&& r matches Err(e)
                    &&& e@ == OAuthErrorView::Other(why@)
                    &&& final(self)@.cache == old(self)@.cache
                },
            },
    {
        match self.storage.store(stored) {
            Ok(_) => {
                self.cache = Some(tokens);
                Ok(AuthorisationResult {  })
            },
            Err(e) => Err(e),
        }
    }

    /// Takes the stored token set into the cache, where the secret store
    /// gave one.
    pub fn load_cached(&mut self, read: VaultRead)
        ensures
            final(self)@.client == old(self)@.client,
            match read {
                VaultRead::Found(tokens) => final(self)@.cache == Some(tokens@),
                _ => final(self)@.cache == old(self)@.cache,
            },
    {
        match self.storage.load(read) {
            Ok(stored) => {
                self.cache = Some(stored);
            },
            Err(_) => {},
        }
    }

    /// Gives the credentials up, given the secret store's answer to the
    /// deletion of its entry. That there was no entry is no failure. After a
    /// failed deletion the cache stays as it is.
    pub fn revoke(&mut self, deleted: VaultDelete) -> (r: Result<(), OAuthError>)
        ensures
            final(self)@.client == old(self)@.client,
            match deleted {
                VaultDelete::Failed(why) => {
                    &&& r matches Err(e)
                    &&& e@ == OAuthErrorView::Other(why@)
                    &&& final(self)@.cache == old(self)@.cache
                },
                _ => r is Ok && final(self)@.cache is None,
            },
    {
        match self.storage.clear(deleted) {
            Ok(_) => {
                self.cache = None;
                Ok(())
            },
            Err(e) => Err(e),
        }
    }

    fn cache_step(&self, now: i64, after_load: bool) -> (action: TokenAction)
        ensures
            action@ == spec_cache_step(self@.cache, now, after_load),
    {
        if let Some(tokens) = &self.cache {
            if !tokens.is_expired(now) {
                return TokenAction::Return(tokens.access_token.clone());
            }
            if let Some(refresh_token) = &tokens.refresh_token {
                return TokenAction::Refresh { refresh_token: refresh_token.clone() };
            }
        }
        if after_load {
            TokenAction::Fail(OAuthError::NotAuthorised)
        } else {
            TokenAction::Load
        }
    }

    /// One step on the way to an access token that is valid at `now`.
    ///
    /// On a request the cache is consulted. After a refresh the new token
    /// set replaces the cached one and its access token is returned. After
    /// a read of the secret store, what was found replaces the cached token
    /// set and is consulted, once; where nothing was found the user is not
    /// authorised.
    pub fn access_token(&mut self, event: TokenEvent, now: i64) -> (action: TokenAction)
        ensures
            match event {
                TokenEvent::Request { client_id, client_secret } => match spec_ensure_client(
                    old(self)@.client,
                    client_id@,
                    opt_view(client_secret),
                ) {
                    Ok(config) => {
                        &&& final(self)@.client == Some(config)
                        &&& final(self)@.cache == old(self)@.cache
                        &&& action@ == spec_cache_step(old(self)@.cache, now, false)
                    },
                    Err(e) => final(self)@ == old(self)@ && action@ == TokenActionView::Fail(e),
                },
                TokenEvent::Refreshed(tokens) => {
                    &&& final(self)@.client == old(self)@.client
                    &&& final(self)@.cache == Some(tokens@)
                    &&& action@ == TokenActionView::Return(tokens@.access_token)
                },
                TokenEvent::RefreshFailed(why) => {
                    &&& final(self)@ == old(self)@
                    &&& action@ == TokenActionView::Fail(OAuthErrorView::Other(why@))
                },
                TokenEvent::Loaded(VaultRead::Found(tokens)) => {
                    &&& final(self)@.client == old(self)@.client
                    &&& final(self)@.cache == Some(tokens@)
                    &&& action@ == spec_cache_step(Some(tokens@), now, true)
                },
                TokenEvent::Loaded(_) => {
                    &&& final(self)@ == old(self)@
                    &&& action@ == TokenActionView::Fail(OAuthErrorView::NotAuthorised)
                },
            },
    {
        match event {
            TokenEvent::Request { client_id, client_secret } => {
                match self.ensure_client(client_id.as_str(), &client_secret) {
                    Ok(_) => self.cache_step(now, false),
                    Err(e) => TokenAction::Fail(e),
                }
            },
            TokenEvent::Refreshed(tokens) => {
                let token = tokens.access_token.clone();
                self.cache = Some(tokens);
                TokenAction::Return(token)
            },
            TokenEvent::RefreshFailed(why) => TokenAction::Fail(OAuthError::Other(why)),
            TokenEvent::Loaded(read) => {
                match self.storage.load(read) {
                    Ok(stored) => {
                        self.cache = Some(stored);
                        self.cache_step(now, true)
                    },
                    Err(_) => TokenAction::Fail(OAuthError::NotAuthorised),
                }
            },
        }
    }
}

/// A token that the session returns from its cache has not expired: at
/// least `EXPIRY_SKEW_SECS` seconds of its life are left.
pub proof fn lemma_returned_token_is_fresh(cache: Option<TokenSetView>, now: i64, after_load: bool)
    requires
        spec_cache_step(cache, now, after_load) is Return,
    ensures
        cache matches Some(tokens) && !spec_is_expired(tokens.expires_at, now)
            && spec_cache_step(cache, now, after_load) == TokenActionView::Return(
            tokens.access_token,
        ),
{
}

} // verus!
