//! The authorization life cycle: resuming a cached session, the one-shot
//! redirect listener's request parsing, and the authorization-code flow.
use vstd::prelude::*;
use vstd::string::*;
use rspotify::prelude::OAuthClient;
use crate::text::{decimal, decimal_of};
use crate::store::{credentials_json, encode_credentials, text_option, ClientCredentials};

verus! {

/// The local port that the redirect listener binds.
pub const CALLBACK_SERVER_PORT: u16 = 8080;

/// Seconds before its stated expiry from which a token counts as expired.
pub const EXPIRY_MARGIN_SECS: i64 = 10;

/// The provider's client with PKCE, held as it is.
#[verifier::external_type_specification]
#[verifier::external_body]
pub struct ExAuthCodePkceSpotify(rspotify::AuthCodePkceSpotify);

/// Why an authorization step failed.
#[derive(PartialEq, Eq, Structural, Clone, Copy, Debug)]
pub enum AuthError {
    /// The data directory or a stored file could not be created, read or written.
    Storage,
    /// A stored file exists but does not hold what it should.
    Corruption,
    /// Nothing is stored where it was looked for.
    NotFound,
    /// Interactive input could not be read.
    Prompt,
    /// The provider refused a code exchange or a token refresh, or could not be reached.
    Provider,
    /// The redirect URL carries no usable authorization code.
    InvalidCallback,
    /// The redirect listener could not bind, accept or read a request.
    Listen,
}

/// Access and refresh tokens with their expiry, in seconds since the Unix epoch.
pub struct TokenSet {
    pub access_token: String,
    pub refresh_token: Option<String>,
    pub expires_at: Option<i64>,
}

impl TokenSet {
    /// Expired at `now`: no expiry is known, or it is less than the margin away.
    pub open spec fn expired_at(&self, now: i64) -> bool {
        match self.expires_at {
            None => true,
            Some(e) => now as int + EXPIRY_MARGIN_SECS as int >= e as int,
        }
    }

    /// Whether the tokens are expired at `now` (seconds since the Unix epoch).
    pub fn is_expired(&self, now: i64) -> (r: bool)
        ensures
            r == self.expired_at(now),
    {
        match self.expires_at {
            None => true,
            Some(e) => (now as i128) + (EXPIRY_MARGIN_SECS as i128) >= (e as i128),
        }
    }
}

/// What to do with the tokens found in the cache.
pub enum ResumePlan {
    /// They are still valid: use them as they are.
    Use(TokenSet),
    /// They are expired but refreshable: refresh them once.
    Refresh(TokenSet),
    /// Nothing usable: the caller runs the authorization flow.
    Reauthorize,
}

/// The plan for `cached` at `now`.
pub open spec fn plan_of(cached: Option<TokenSet>, now: i64) -> ResumePlan {
    match cached {
        None => ResumePlan::Reauthorize,
        Some(t) => if !t.expired_at(now) {
            ResumePlan::Use(t)
        } else if t.refresh_token is Some {
            ResumePlan::Refresh(t)
        } else {
            ResumePlan::Reauthorize
        },
    }
}

/// Decide what to do with the cached tokens, if any, at `now`.
pub fn resume_plan(cached: Option<TokenSet>, now: i64) -> (r: ResumePlan)
    ensures
        r == plan_of(cached, now),
{
    match cached {
        None => ResumePlan::Reauthorize,
        Some(t) => {
            if !t.is_expired(now) {
                ResumePlan::Use(t)
            } else if t.refresh_token.is_some() {
                ResumePlan::Refresh(t)
            } else {
                ResumePlan::Reauthorize
            }
        },
    }
}

/// What a session resumed through a refresh holds: the tokens that the refresh
/// returned, or a provider error when it failed. Nothing is refreshed again.
pub open spec fn refreshed_of(outcome: Option<TokenSet>) -> Result<TokenSet, AuthError> {
    match outcome {
        Some(t) => Ok(t),
        None => Err(AuthError::Provider),
    }
}

/// The tokens of a session resumed through a refresh, from what the refresh
/// returned (`None` when it failed).
pub fn refreshed_tokens(outcome: Option<TokenSet>) -> (r: Result<TokenSet, AuthError>)
    ensures
        r == refreshed_of(outcome),
{
    match outcome {
        Some(t) => Ok(t),
        None => Err(AuthError::Provider),
    }
}

/// Cached tokens past their expiry with a refresh token are refreshed exactly
/// once: the plan asks for one refresh of those tokens, and what the session then
/// holds is what the refresh returned, never the stale tokens.
pub proof fn lemma_expired_refreshable_tokens_refresh_once(
    stale: TokenSet,
    now: i64,
    fresh: TokenSet,
)
    requires
        stale.expires_at matches Some(e) && e < now,
        stale.refresh_token is Some,
    ensures
        plan_of(Some(stale), now) == ResumePlan::Refresh(stale),
        refreshed_of(Some(fresh)) == Ok::<TokenSet, AuthError>(fresh),
{
}

/// Cached tokens past their expiry without a refresh token lead back to the
/// authorization flow, never to an error.
pub proof fn lemma_expired_unrefreshable_tokens_reauthorize(stale: TokenSet, now: i64)
    requires
        stale.expires_at matches Some(e) && e < now,
        stale.refresh_token is None,
    ensures
        plan_of(Some(stale), now) == ResumePlan::Reauthorize,
{
}

/// The scopes asked for: read the current track, control playback, read the
/// playback state.
pub open spec fn required_scopes() -> Seq<Seq<char>> {
    seq![
        "user-read-currently-playing"@,
        "user-modify-playback-state"@,
        "user-read-playback-state"@,
    ]
}

/// The scopes that every authorization asks for.
pub fn scopes() -> (r: Vec<String>)
    ensures
        r@.map_values(|s: String| s@) == required_scopes(),
{
    let mut r: Vec<String> = Vec::new();
    r.push(String::from_str("user-read-currently-playing"));
    r.push(String::from_str("user-modify-playback-state"));
    r.push(String::from_str("user-read-playback-state"));
    assert(r@.map_values(|s: String| s@) =~= required_scopes());
    r
}

/// `http://localhost:<port>` followed by `path`.
pub open spec fn local_url(port: u16, path: Seq<char>) -> Seq<char> {
    "http://localhost:"@ + decimal_of(port as nat) + path
}

/// The URL of `path` on the local redirect listener at `port`.
pub fn callback_url(port: u16, path: &str) -> (r: String)
    ensures
        r@ == local_url(port, path@),
{
    let mut r = String::from_str("http://localhost:");
    let digits = decimal(port as u32);
    r.append(digits.as_str());
    r.append(path);
    r
}

/// The redirect URI registered with the provider for the listener at `port`.
pub fn callback_uri(port: u16) -> (r: String)
    ensures
        r@ == local_url(port, "/callback"@),
{
    callback_url(port, "/callback")
}

/// The whitespace that `str::split_whitespace` splits at (Unicode `White_Space`).
pub open spec fn is_space(c: char) -> bool {
    ('\u{9}' <= c && c <= '\u{d}') || c == ' ' || c == '\u{85}' || c == '\u{a0}' || c
        == '\u{1680}' || ('\u{2000}' <= c && c <= '\u{200a}') || c == '\u{2028}' || c
        == '\u{2029}' || c == '\u{202f}' || c == '\u{205f}' || c == '\u{3000}'
}

fn is_space_exec(c: char) -> (r: bool)
    ensures
        r == is_space(c),
{
    ('\u{9}' <= c && c <= '\u{d}') || c == ' ' || c == '\u{85}' || c == '\u{a0}' || c
        == '\u{1680}' || ('\u{2000}' <= c && c <= '\u{200a}') || c == '\u{2028}' || c
        == '\u{2029}' || c == '\u{202f}' || c == '\u{205f}' || c == '\u{3000}'
}

/// The first index at or after `i` that holds no whitespace, or the length of `s`.
pub open spec fn skip_spaces(s: Seq<char>, i: int) -> int
    decreases s.len() - i,
{
    if 0 <= i < s.len() && is_space(s[i]) {
        skip_spaces(s, i + 1)
    } else {
        i
    }
}

/// The first index at or after `i` that holds whitespace, or the length of `s`.
pub open spec fn skip_word(s: Seq<char>, i: int) -> int
    decreases s.len() - i,
{
    if 0 <= i < s.len() && !is_space(s[i]) {
        skip_word(s, i + 1)
    } else {
        i
    }
}

/// The word of `s` after `n` others, counting from index `i`, as
/// `split_whitespace().nth(n)` finds it.
pub open spec fn word_after(s: Seq<char>, i: int, n: nat) -> Option<Seq<char>>
    decreases n,
{
    let b = skip_spaces(s, i);
    if b >= s.len() {
        None
    } else {
        let e = skip_word(s, b);
        if n == 0 {
            Some(s.subrange(b, e))
        } else {
            word_after(s, e, (n - 1) as nat)
        }
    }
}

/// The index of the first line break of `s`, or its length.
pub open spec fn line_end(s: Seq<char>, i: int) -> int
    decreases s.len() - i,
{
    if 0 <= i < s.len() && s[i] != '\n' {
        line_end(s, i + 1)
    } else {
        i
    }
}

/// The request target of an HTTP request: the second word of its first line.
pub open spec fn request_target_of(request: Seq<char>) -> Option<Seq<char>> {
    word_after(request.subrange(0, line_end(request, 0)), 0, 1)
}

proof fn lemma_scan_bounds(s: Seq<char>, i: int)
    requires
        0 <= i <= s.len(),
    ensures
        i <= skip_spaces(s, i) <= s.len(),
        i <= skip_word(s, i) <= s.len(),
        i <= line_end(s, i) <= s.len(),
    decreases s.len() - i,
{
    if i < s.len() {
        lemma_scan_bounds(s, i + 1);
    }
}

fn skip_spaces_exec(s: &Vec<char>, i: usize) -> (r: usize)
    requires
        i <= s@.len(),
    ensures
        r as int == skip_spaces(s@, i as int),
{
    let mut j = i;
    while j < s.len() && is_space_exec(s[j])
        invariant
            i <= j <= s@.len(),
            skip_spaces(s@, j as int) == skip_spaces(s@, i as int),
        decreases s@.len() - j,
    {
        j = j + 1;
    }
    j
}

fn skip_word_exec(s: &Vec<char>, i: usize) -> (r: usize)
    requires
        i <= s@.len(),
    ensures
        r as int == skip_word(s@, i as int),
{
    let mut j = i;
    while j < s.len() && !is_space_exec(s[j])
        invariant
            i <= j <= s@.len(),
            skip_word(s@, j as int) == skip_word(s@, i as int),
        decreases s@.len() - j,
    {
        j = j + 1;
    }
    j
}

/// The request target of an HTTP request: the second word of its first line.
pub fn request_target(request: &str) -> (r: Option<String>)
    ensures
        r matches Some(t) ==> request_target_of(request@) == Some(t@),
        r is None ==> request_target_of(request@) is None,
{
    let all = crate::text::chars_of(request);
    let mut end: usize = 0;
    while end < all.len() && all[end] != '\n'
        invariant
            all@ == request@,
            end <= all@.len(),
            line_end(all@, end as int) == line_end(all@, 0),
        decreases all@.len() - end,
    {
        end = end + 1;
    }
    let ghost line = request@.subrange(0, end as int);
    let first = request.substring_char(0, end);
    let cs = crate::text::chars_of(first);
    assert(cs@ == line);
    let b0 = skip_spaces_exec(&cs, 0);
    if b0 >= cs.len() {
        return None;
    }
    proof {
        lemma_scan_bounds(line, b0 as int);
    }
    let e0 = skip_word_exec(&cs, b0);
    let b1 = skip_spaces_exec(&cs, e0);
    proof {
        lemma_scan_bounds(line, e0 as int);
        assert(word_after(line, e0 as int, 0) == word_after(line, 0, 1));
    }
    if b1 >= cs.len() {
        return None;
    }
    proof {
        lemma_scan_bounds(line, b1 as int);
    }
    let e1 = skip_word_exec(&cs, b1);
    let word = first.substring_char(b1, e1);
    Some(String::from_str(word))
}

/// Relies on `std::str::from_utf8`: it accepts exactly the valid UTF-8 byte
/// strings, and decodes them.
#[verifier::external_body]
fn utf8_text(bytes: &[u8]) -> (r: Option<String>)
    ensures
        r is Some <==> vstd::utf8::valid_utf8(bytes@),
        r matches Some(t) ==> t@ == vstd::utf8::decode_utf8(bytes@),
{
    std::str::from_utf8(bytes).ok().map(String::from)
}

/// The full URL that a request read by the redirect listener at `port` asked for.
pub open spec fn redirect_of(request: Seq<u8>, port: u16) -> Result<Seq<char>, AuthError> {
    if !vstd::utf8::valid_utf8(request) {
        Err(AuthError::Listen)
    } else {
        match request_target_of(vstd::utf8::decode_utf8(request)) {
            Some(t) => Ok(local_url(port, t)),
            None => Err(AuthError::Listen),
        }
    }
}

/// The full URL that the bytes of a request read by the redirect listener at
/// `port` asked for: `http://localhost:<port>` and the request target. A request
/// that is not UTF-8 text or has no target is a listener failure.
pub fn redirect_url(request: &[u8], port: u16) -> (r: Result<String, AuthError>)
    ensures
        r matches Ok(u) ==> redirect_of(request@, port) == Ok::<Seq<char>, AuthError>(u@),
        r is Err ==> redirect_of(request@, port) == Err::<Seq<char>, AuthError>(AuthError::Listen)
            && r == Err::<String, AuthError>(AuthError::Listen),
{
    match utf8_text(request) {
        None => Err(AuthError::Listen),
        Some(text) => match request_target(text.as_str()) {
            Some(target) => Ok(callback_url(port, target.as_str())),
            None => Err(AuthError::Listen),
        },
    }
}

/// The `code` query parameter of a URL as rspotify reads it (the last one where
/// there are several); none where the URL does not parse or has no code.
pub uninterp spec fn url_code_of(url: Seq<char>) -> Option<Seq<char>>;

/// Relies on rspotify's `OAuthClient::parse_response_code`: the `code` query
/// parameter of a redirect URL, or nothing when the URL does not parse, has no
/// code, or carries a `state` other than the client's (a random value).
#[verifier::external_body]
fn response_code(client: &rspotify::AuthCodePkceSpotify, url: &str) -> (r: Option<String>)
    ensures
        r is Some ==> text_option(r) == url_code_of(url@),
        url_code_of(url@) is None ==> r is None,
{
    client.parse_response_code(url)
}

/// The authorization code, from what the provider's client found in the
/// redirect URL: none is an invalid callback.
pub fn code_from_response(found: Option<String>) -> (r: Result<String, AuthError>)
    ensures
        found matches Some(c) ==> r == Ok::<String, AuthError>(c),
        found is None ==> r == Err::<String, AuthError>(AuthError::InvalidCallback),
{
    match found {
        Some(c) => Ok(c),
        None => Err(AuthError::InvalidCallback),
    }
}

/// The authorization code that a redirect URL carries for `client`.
pub fn authorization_code(client: &rspotify::AuthCodePkceSpotify, url: &str) -> (r: Result<
    String,
    AuthError,
>)
    ensures
        r is Err ==> r == Err::<String, AuthError>(AuthError::InvalidCallback),
        r matches Ok(c) ==> url_code_of(url@) == Some(c@),
        url_code_of(url@) is None ==> r == Err::<String, AuthError>(AuthError::InvalidCallback),
{
    code_from_response(response_code(client, url))
}

/// Where an authorization attempt stands.
#[derive(PartialEq, Eq, Structural, Clone, Copy, Debug)]
pub enum FlowPhase {
    /// Nothing has happened yet.
    Start,
    /// The client identity was asked for.
    AwaitIdentity,
    /// The data directory is being made ready.
    AwaitStorage,
    /// The identity is being saved.
    AwaitIdentitySaved,
    /// The authorize URL is being built.
    AwaitAuthorizeUrl,
    /// The browser was pointed at the authorize URL and the listener waits for the redirect.
    AwaitRedirect,
    /// The listener failed: the user was asked to paste the redirect URL.
    AwaitManualUrl,
    /// The code is being exchanged for tokens.
    AwaitExchange,
    /// The tokens are being saved.
    AwaitTokensSaved,
    /// Authorized: a session can be built.
    Ready,
    /// The attempt failed; it is not retried.
    Failed,
}

/// What the caller reports to an authorization attempt.
pub enum FlowEvent {
    /// Start (or restart) the attempt.
    Begin,
    /// The user gave this identity.
    IdentityCollected { identity: ClientCredentials },
    /// The step that was asked for succeeded.
    Completed,
    /// The authorize URL for the identity and the scopes.
    AuthorizeUrl { url: String },
    /// The listener could not capture the redirect.
    ListenFailed,
    /// A redirect URL came (from the listener or typed in), and this is the
    /// authorization code taken from it.
    Redirect { code: Result<String, AuthError> },
    /// The step that was asked for failed.
    StepFailed(AuthError),
}

/// What the caller is to do next in an authorization attempt.
pub enum FlowAction {
    /// Ask the user for the client identity.
    CollectIdentity,
    /// Create the data directory if it is missing.
    PrepareStorage,
    /// Write this text to the identity file.
    SaveIdentity { text: String },
    /// Build the authorize URL.
    BuildAuthorizeUrl,
    /// Open this URL in a browser and listen once for the redirect.
    OpenAndListen { url: String },
    /// Ask the user to paste the redirect URL.
    AskRedirectUrl,
    /// Exchange this code for tokens.
    Exchange { code: String },
    /// Write the tokens to the token file.
    SaveTokens,
    /// Authorized.
    Finish,
    /// Give up with this error.
    Fail(AuthError),
}

/// One authorization attempt.
pub struct AuthFlow {
    pub phase: FlowPhase,
    pub identity: Option<ClientCredentials>,
}

impl AuthFlow {
    /// Whether `e` is an answer that the current phase waits for. `Begin` is
    /// taken in any phase.
    pub open spec fn accepts(&self, e: FlowEvent) -> bool {
        match e {
            FlowEvent::Begin => true,
            FlowEvent::IdentityCollected { .. } => self.phase == FlowPhase::AwaitIdentity,
            FlowEvent::Completed => {
                ||| self.phase == FlowPhase::AwaitStorage && self.identity is Some
                ||| self.phase == FlowPhase::AwaitIdentitySaved
                ||| self.phase == FlowPhase::AwaitExchange
                ||| self.phase == FlowPhase::AwaitTokensSaved
            },
            FlowEvent::AuthorizeUrl { .. } => self.phase == FlowPhase::AwaitAuthorizeUrl,
            FlowEvent::ListenFailed => self.phase == FlowPhase::AwaitRedirect,
            FlowEvent::Redirect { .. } => self.phase == FlowPhase::AwaitRedirect || self.phase
                == FlowPhase::AwaitManualUrl,
            FlowEvent::StepFailed(_) => !(self.phase == FlowPhase::Start || self.phase
                == FlowPhase::Ready || self.phase == FlowPhase::Failed),
        }
    }

    /// The attempt goes from `self` to `t` on event `e` and asks for `a`.
    pub open spec fn step_spec(&self, e: FlowEvent, t: AuthFlow, a: FlowAction) -> bool {
        match e {
            FlowEvent::Begin => t.phase == FlowPhase::AwaitIdentity && t.identity is None && a
                == FlowAction::CollectIdentity,
            FlowEvent::IdentityCollected { identity } => t.phase == FlowPhase::AwaitStorage
                && t.identity == Some(identity) && a == FlowAction::PrepareStorage,
            FlowEvent::Completed => {
                &&& t.identity == self.identity
                &&& if self.phase == FlowPhase::AwaitStorage {
                    &&& t.phase == FlowPhase::AwaitIdentitySaved
                    &&& a matches FlowAction::SaveIdentity { text } && text@ == credentials_json(
                        self.identity->0.client_id@,
                    )
                } else if self.phase == FlowPhase::AwaitIdentitySaved {
                    t.phase == FlowPhase::AwaitAuthorizeUrl && a == FlowAction::BuildAuthorizeUrl
                } else if self.phase == FlowPhase::AwaitExchange {
                    t.phase == FlowPhase::AwaitTokensSaved && a == FlowAction::SaveTokens
                } else {
                    t.phase == FlowPhase::Ready && a == FlowAction::Finish
                }
            },
            FlowEvent::AuthorizeUrl { url } => t.phase == FlowPhase::AwaitRedirect && t.identity
                == self.identity && a == (FlowAction::OpenAndListen { url }),
            FlowEvent::ListenFailed => t.phase == FlowPhase::AwaitManualUrl && t.identity
                == self.identity && a == FlowAction::AskRedirectUrl,
            FlowEvent::Redirect { code } => t.identity == self.identity && match code {
                Ok(c) => t.phase == FlowPhase::AwaitExchange && a == (FlowAction::Exchange {
                    code: c,
                }),
                Err(err) => t.phase == FlowPhase::Failed && a == FlowAction::Fail(err),
            },
            FlowEvent::StepFailed(err) => t.phase == FlowPhase::Failed && t.identity
                == self.identity && a == FlowAction::Fail(err),
        }
    }

    /// An attempt that has not begun.
    pub fn new() -> (r: AuthFlow)
        ensures
            r.phase == FlowPhase::Start,
            r.identity is None,
    {
        AuthFlow { phase: FlowPhase::Start, identity: None }
    }

    /// Whether `e` is an answer that the current phase waits for.
    pub fn accepts_event(&self, e: &FlowEvent) -> (r: bool)
        ensures
            r == self.accepts(*e),
    {
        match e {
            FlowEvent::Begin => true,
            FlowEvent::IdentityCollected { .. } => self.phase == FlowPhase::AwaitIdentity,
            FlowEvent::Completed => (self.phase == FlowPhase::AwaitStorage
                && self.identity.is_some()) || self.phase == FlowPhase::AwaitIdentitySaved
                || self.phase == FlowPhase::AwaitExchange || self.phase
                == FlowPhase::AwaitTokensSaved,
            FlowEvent::AuthorizeUrl { .. } => self.phase == FlowPhase::AwaitAuthorizeUrl,
            FlowEvent::ListenFailed => self.phase == FlowPhase::AwaitRedirect,
            FlowEvent::Redirect { .. } => self.phase == FlowPhase::AwaitRedirect || self.phase
                == FlowPhase::AwaitManualUrl,
            FlowEvent::StepFailed(_) => !(self.phase == FlowPhase::Start || self.phase
                == FlowPhase::Ready || self.phase == FlowPhase::Failed),
        }
    }

    /// Take event `e` and say what to do next.
    pub fn step(&mut self, e: FlowEvent) -> (a: FlowAction)
        requires
            old(self).accepts(e),
        ensures
            old(self).step_spec(e, *final(self), a),
    {
        match e {
            FlowEvent::Begin => {
                self.phase = FlowPhase::AwaitIdentity;
                self.identity = None;
                FlowAction::CollectIdentity
            },
            FlowEvent::IdentityCollected { identity } => {
                self.phase = FlowPhase::AwaitStorage;
                self.identity = Some(identity);
                FlowAction::PrepareStorage
            },
            FlowEvent::Completed => {
                if self.phase == FlowPhase::AwaitStorage {
                    let text = match &self.identity {
                        Some(id) => encode_credentials(id),
                        None => {
                            proof {
                                assert(false);
                            }
                            String::new()
                        },
                    };
                    self.phase = FlowPhase::AwaitIdentitySaved;
                    FlowAction::SaveIdentity { text }
                } else if self.phase == FlowPhase::AwaitIdentitySaved {
                    self.phase = FlowPhase::AwaitAuthorizeUrl;
                    FlowAction::BuildAuthorizeUrl
                } else if self.phase == FlowPhase::AwaitExchange {
                    self.phase = FlowPhase::AwaitTokensSaved;
                    FlowAction::SaveTokens
                } else {
                    self.phase = FlowPhase::Ready;
                    FlowAction::Finish
                }
            },
            FlowEvent::AuthorizeUrl { url } => {
                self.phase = FlowPhase::AwaitRedirect;
                FlowAction::OpenAndListen { url }
            },
            FlowEvent::ListenFailed => {
                self.phase = FlowPhase::AwaitManualUrl;
                FlowAction::AskRedirectUrl
            },
            FlowEvent::Redirect { code } => match code {
                Ok(c) => {
                    self.phase = FlowPhase::AwaitExchange;
                    FlowAction::Exchange { code: c }
                },
                Err(err) => {
                    self.phase = FlowPhase::Failed;
                    FlowAction::Fail(err)
                },
            },
            FlowEvent::StepFailed(err) => {
                self.phase = FlowPhase::Failed;
                FlowAction::Fail(err)
            },
        }
    }
}

/// Once storage is ready, the identity is saved, in its stored form, before the
/// authorize URL is built.
pub proof fn lemma_identity_saved_before_authorize_url(s: AuthFlow, t: AuthFlow, a: FlowAction)
    requires
        s.accepts(FlowEvent::Completed),
        s.phase == FlowPhase::AwaitStorage,
        s.step_spec(FlowEvent::Completed, t, a),
    ensures
        a matches FlowAction::SaveIdentity { text } && text@ == credentials_json(
            s.identity->0.client_id@,
        ),
        t.phase == FlowPhase::AwaitIdentitySaved,
        t.identity == s.identity,
{
}

/// A listener that cannot capture the redirect is not fatal: the attempt goes
/// on by asking the user for the redirect URL.
pub proof fn lemma_listen_failure_falls_back(s: AuthFlow, t: AuthFlow, a: FlowAction)
    requires
        s.accepts(FlowEvent::ListenFailed),
        s.step_spec(FlowEvent::ListenFailed, t, a),
    ensures
        a == FlowAction::AskRedirectUrl,
        t.phase == FlowPhase::AwaitManualUrl,
{
}

/// A redirect whose URL has no code ends the attempt with `InvalidCallback`.
pub proof fn lemma_redirect_without_code_fails(s: AuthFlow, t: AuthFlow, a: FlowAction)
    requires
        s.step_spec(
            FlowEvent::Redirect { code: Err(AuthError::InvalidCallback) },
            t,
            a,
        ),
    ensures
        a == FlowAction::Fail(AuthError::InvalidCallback),
        t.phase == FlowPhase::Failed,
{
}

/// No step is retried: a failed step ends the attempt with that error, and a
/// failed attempt takes nothing but a fresh `Begin`.
pub proof fn lemma_failures_are_final(s: AuthFlow, err: AuthError, t: AuthFlow, a: FlowAction, e: FlowEvent)
    requires
        s.step_spec(FlowEvent::StepFailed(err), t, a),
    ensures
        a == FlowAction::Fail(err),
        t.phase == FlowPhase::Failed,
        t.accepts(e) ==> e is Begin,
{
}

} // verus!
