//! The authenticated session manager.
//!
//! Login runs against one of three protocol versions; the manager derives
//! the header set for subsequent REST calls, tracks token expiry, and
//! decides when to re-authenticate or refresh. The manager never performs
//! network I/O itself: the transport hands it plain reply values and it
//! answers with the next action.

use vstd::prelude::*;

use crate::error::AuthError;
use crate::headers::HeaderSet;
use crate::models::{AccountSwitchResponse, AuthVersion};

verus! {

/// OAuth token fields of a version-3 login body, kept as wire text.
#[derive(Debug)]
pub struct OauthToken {
    pub access_token: String,
    pub refresh_token: String,
    pub scope: String,
    pub token_type: String,
    pub expires_in: String,
}

/// The body fields of a login response, a superset of the three shapes.
#[derive(Debug)]
pub struct SessionBody {
    pub account_id: String,
    pub client_id: Option<String>,
    pub lightstreamer_endpoint: Option<String>,
    pub oauth_token: Option<OauthToken>,
    pub timezone_offset: Option<i64>,
}

/// What the transport observed from one login request: the HTTP status,
/// the two legacy token response headers, and the parsed body if any.
#[derive(Debug)]
pub struct LoginReply {
    pub status: u16,
    pub cst: Option<String>,
    pub security_token: Option<String>,
    pub body: Option<SessionBody>,
}

/// Session-identifying tokens, tagged by scheme.
#[derive(Debug)]
pub enum SessionToken {
    /// Versions 1 and 2: the two tokens read from response headers.
    Legacy { cst: String, x_security_token: String },
    /// Version 3: OAuth-style tokens read from the response body.
    OAuth {
        access_token: String,
        refresh_token: String,
        scope: String,
        token_type: String,
        expires_in_seconds: u64,
    },
}

/// An authenticated session snapshot. `token` is absent when a version-3
/// response omitted its token object; header derivation then yields the
/// empty set, which callers must treat as "not ready".
#[derive(Debug)]
pub struct AuthSession {
    pub version: AuthVersion,
    pub token: Option<SessionToken>,
    pub account_id: String,
    pub client_id: Option<String>,
    /// Absolute expiry instant, in seconds of UTC epoch time.
    pub expires_at: u64,
}

/// A 2xx status.
pub open spec fn spec_is_success(status: u16) -> bool {
    200 <= status < 300
}

/// Expiry instant: `now` plus the granted lifetime, saturating.
pub open spec fn spec_expiry(now: u64, lifetime: u64) -> u64 {
    if now + lifetime <= u64::MAX {
        (now + lifetime) as u64
    } else {
        u64::MAX
    }
}

/// Decimal digits and their value; used for the server-declared lifetime.
pub open spec fn spec_is_digits(s: Seq<char>) -> bool {
    s.len() > 0 && forall|i: int| 0 <= i < s.len() ==> '0' <= #[trigger] s[i] <= '9'
}

/// Numeric value of a digit string.
pub open spec fn spec_num_of(s: Seq<char>) -> nat
    decreases s.len(),
{
    if s.len() == 0 {
        0
    } else {
        spec_num_of(s.drop_last()) * 10 + (s.last() as u32 - '0' as u32) as nat
    }
}

/// The lifetime a version-3 token grants: its `expires_in` field read as a
/// decimal number, or the caller's default where the field is not a plain
/// number of at most nineteen digits.
pub open spec fn spec_granted_lifetime(expires_in: Seq<char>, default_lifetime: u64) -> u64 {
    if spec_is_digits(expires_in) && expires_in.len() <= 19 {
        spec_num_of(expires_in) as u64
    } else {
        default_lifetime
    }
}

/// The token a version-3 body yields, given the resolved lifetime.
pub open spec fn spec_oauth_session_token(tok: OauthToken, lifetime: u64) -> SessionToken {
    SessionToken::OAuth {
        access_token: tok.access_token,
        refresh_token: tok.refresh_token,
        scope: tok.scope,
        token_type: tok.token_type,
        expires_in_seconds: lifetime,
    }
}

/// The complete outcome of a login attempt.
///
/// A 401 always means bad credentials; any other non-2xx status is
/// unexpected. On a 2xx, versions 1 and 2 require both legacy token
/// headers — a missing one is a protocol violation — while version 3
/// reads the token object from the body, whose absence is tolerated.
/// A 2xx without a readable body is unexpected for every version.
pub open spec fn spec_login_outcome(
    version: AuthVersion,
    reply: LoginReply,
    now: u64,
    default_lifetime: u64,
) -> Result<AuthSession, AuthError> {
    if reply.status == 401 {
        Err(AuthError::BadCredentials)
    } else if !spec_is_success(reply.status) {
        Err(AuthError::Unexpected(reply.status))
    } else {
        match reply.body {
            None => Err(AuthError::Unexpected(reply.status)),
            Some(body) => match version {
                AuthVersion::V1 | AuthVersion::V2 => match (reply.cst, reply.security_token) {
                    (Some(cst), Some(xst)) => Ok(
                        AuthSession {
                            version,
                            token: Some(SessionToken::Legacy { cst, x_security_token: xst }),
                            account_id: body.account_id,
                            client_id: body.client_id,
                            expires_at: spec_expiry(now, default_lifetime),
                        },
                    ),
                    _ => Err(AuthError::Unexpected(reply.status)),
                },
                AuthVersion::V3 => match body.oauth_token {
                    None => Ok(
                        AuthSession {
                            version,
                            token: None,
                            account_id: body.account_id,
                            client_id: body.client_id,
                            expires_at: spec_expiry(now, default_lifetime),
                        },
                    ),
                    Some(tok) => Ok(
                        AuthSession {
                            version,
                            token: Some(
                                spec_oauth_session_token(
                                    tok,
                                    spec_granted_lifetime(tok.expires_in@, default_lifetime),
                                ),
                            ),
                            account_id: body.account_id,
                            client_id: body.client_id,
                            expires_at: spec_expiry(
                                now,
                                spec_granted_lifetime(tok.expires_in@, default_lifetime),
                            ),
                        },
                    ),
                },
            },
        }
    }
}

/// The header set a session snapshot derives: exactly the two legacy token
/// headers for a legacy session, exactly the bearer pair for an OAuth
/// session, and the empty set when unauthenticated.
pub open spec fn spec_auth_headers(session: Option<AuthSession>) -> Seq<(Seq<char>, Seq<char>)> {
    match session {
        None => Seq::<(Seq<char>, Seq<char>)>::empty(),
        Some(sess) => match sess.token {
            None => Seq::<(Seq<char>, Seq<char>)>::empty(),
            Some(SessionToken::Legacy { cst, x_security_token }) => seq![
                ("CST"@, cst@),
                ("X-SECURITY-TOKEN"@, x_security_token@),
            ],
            Some(SessionToken::OAuth { access_token, .. }) => seq![
                ("Authorization"@, "Bearer "@ + access_token@),
                ("IG-ACCOUNT-ID"@, sess.account_id@),
            ],
        },
    }
}

/// The JSON body of a login request: identifier and password, and for
/// versions 1 and 2 the `encryptedPassword` flag; version 3 omits it.
pub open spec fn spec_login_request_body(
    version: AuthVersion,
    username: Seq<char>,
    password: Seq<char>,
) -> Seq<char> {
    "{\"identifier\":\""@ + username + "\",\"password\":\""@ + password + (if version is V3 {
        "\"}"@
    } else {
        "\",\"encryptedPassword\":false}"@
    })
}

/// Builds the version-specific login request body.
pub fn login_request_body(version: AuthVersion, username: &str, password: &str) -> (r: String)
    ensures
        r@ == spec_login_request_body(version, username@, password@),
{
    let mut r = "{\"identifier\":\"".to_owned();
    r.append(username);
    r.append("\",\"password\":\"");
    r.append(password);
    if matches!(version, AuthVersion::V3) {
        r.append("\"}");
    } else {
        r.append("\",\"encryptedPassword\":false}");
    }
    r
}

/// Saturating expiry computation, matching `spec_expiry`.
pub fn expiry_instant(now: u64, lifetime: u64) -> (r: u64)
    ensures
        r == spec_expiry(now, lifetime),
{
    if lifetime <= u64::MAX - now {
        now + lifetime
    } else {
        u64::MAX
    }
}

/// Powers of ten.
pub open spec fn spec_pow10(n: nat) -> nat
    decreases n,
{
    if n == 0 {
        1
    } else {
        10 * spec_pow10((n - 1) as nat)
    }
}

/// Reads a decimal number of at most nineteen digits; anything else is
/// rejected. Nineteen decimal digits always fit in 64 bits.
pub fn parse_u64(s: &str) -> (r: Option<u64>)
    ensures
        r is Some <==> (spec_is_digits(s@) && s@.len() <= 19),
        r matches Some(v) ==> v == spec_num_of(s@),
{
    let n = s.unicode_len();
    if n == 0 || n > 19 {
        return None;
    }
    let mut acc: u64 = 0;
    let mut i: usize = 0;
    while i < n
        invariant
            n == s@.len(),
            0 < n <= 19,
            i <= n,
            forall|j: int| 0 <= j < i ==> '0' <= #[trigger] s@[j] <= '9',
            acc == spec_num_of(s@.subrange(0, i as int)),
            acc < spec_pow10(i as nat),
        decreases n - i,
    {
        let c = s.get_char(i);
        if c < '0' || c > '9' {
            return None;
        }
        let d = c as u32 - 48;
        proof {
            assert(spec_pow10(i as nat) <= spec_pow10(18)) by {
                lemma_pow10_increases(i as nat, 18);
            }
            assert(spec_pow10(18) == 1_000_000_000_000_000_000) by {
                reveal_with_fuel(spec_pow10, 19);
            }
            assert(s@.subrange(0, i + 1).drop_last() =~= s@.subrange(0, i as int));
            assert(s@.subrange(0, i + 1).last() == s@[i as int]);
        }
        acc = acc * 10 + (d as u64);
        i += 1;
    }
    proof {
        assert(s@.subrange(0, n as int) =~= s@);
    }
    Some(acc)
}

/// Powers of ten do not shrink as the exponent grows.
proof fn lemma_pow10_increases(a: nat, b: nat)
    requires
        a <= b,
    ensures
        spec_pow10(a) <= spec_pow10(b),
    decreases b,
{
    if a < b {
        lemma_pow10_increases(a, (b - 1) as nat);
        assert(spec_pow10(b) == 10 * spec_pow10((b - 1) as nat));
    }
}

/// Runs the version-specific login outcome on a transport reply.
pub fn process_login_response(
    version: AuthVersion,
    reply: LoginReply,
    now: u64,
    default_lifetime: u64,
) -> (r: Result<AuthSession, AuthError>)
    ensures
        r == spec_login_outcome(version, reply, now, default_lifetime),
{
    if reply.status == 401 {
        return Err(AuthError::BadCredentials);
    }
    if reply.status < 200 || reply.status >= 300 {
        return Err(AuthError::Unexpected(reply.status));
    }
    let status = reply.status;
    let body = match reply.body {
        None => {
            return Err(AuthError::Unexpected(status));
        },
        Some(b) => b,
    };
    match version {
        AuthVersion::V1 | AuthVersion::V2 => {
            match (reply.cst, reply.security_token) {
                (Some(cst), Some(xst)) => Ok(AuthSession {
                    version,
                    token: Some(SessionToken::Legacy { cst, x_security_token: xst }),
                    account_id: body.account_id,
                    client_id: body.client_id,
                    expires_at: expiry_instant(now, default_lifetime),
                }),
                _ => Err(AuthError::Unexpected(status)),
            }
        },
        AuthVersion::V3 => {
            match body.oauth_token {
                None => Ok(AuthSession {
                    version,
                    token: None,
                    account_id: body.account_id,
                    client_id: body.client_id,
                    expires_at: expiry_instant(now, default_lifetime),
                }),
                Some(tok) => {
                    let lifetime = match parse_u64(tok.expires_in.as_str()) {
                        Some(v) => v,
                        None => default_lifetime,
                    };
                    Ok(AuthSession {
                        version,
                        token: Some(SessionToken::OAuth {
                            access_token: tok.access_token,
                            refresh_token: tok.refresh_token,
                            scope: tok.scope,
                            token_type: tok.token_type,
                            expires_in_seconds: lifetime,
                        }),
                        account_id: body.account_id,
                        client_id: body.client_id,
                        expires_at: expiry_instant(now, lifetime),
                    })
                },
            }
        },
    }
}

/// Owner of the session state. All transitions happen in `apply_login`,
/// `apply_refresh` and `logout_apply`; the query methods only read.
#[derive(Debug)]
pub struct AuthSessionManager {
    /// The version of the most recent authenticate request.
    pub version: AuthVersion,
    /// Conservative token lifetime where the server declares none.
    pub default_lifetime: u64,
    /// The current session snapshot, if authenticated.
    pub session: Option<AuthSession>,
}

/// Re-authentication is due exactly when there is no session or the clock
/// has reached the expiry instant — never earlier, never later.
pub open spec fn spec_needs_reauth(session: Option<AuthSession>, now: u64) -> bool {
    match session {
        None => true,
        Some(s) => now >= s.expires_at,
    }
}

/// The version a re-authentication reuses.
pub open spec fn spec_remembered_version(m: AuthSessionManager) -> AuthVersion {
    match m.session {
        Some(s) => s.version,
        None => m.version,
    }
}

/// What `ensure_authenticated` does at instant `now`: nothing, or one
/// re-login with the remembered version.
pub open spec fn spec_ensure_action(m: AuthSessionManager, now: u64) -> Option<AuthVersion> {
    if spec_needs_reauth(m.session, now) {
        Some(spec_remembered_version(m))
    } else {
        None
    }
}

impl AuthSessionManager {
    /// An unauthenticated manager.
    pub fn new(version: AuthVersion, default_lifetime: u64) -> (r: AuthSessionManager)
        ensures
            r.version == version,
            r.default_lifetime == default_lifetime,
            r.session is None,
    {
        AuthSessionManager { version, default_lifetime, session: None }
    }

    /// Whether a session is held and its expiry not yet reached.
    pub fn is_authenticated(&self, now: u64) -> (r: bool)
        ensures
            r == !spec_needs_reauth(self.session, now),
    {
        match &self.session {
            None => false,
            Some(s) => now < s.expires_at,
        }
    }

    /// The expiry-driven decision of `ensure_authenticated`: `None` while
    /// the session is live (no network call), otherwise the version to
    /// re-authenticate with.
    pub fn ensure_action(&self, now: u64) -> (r: Option<AuthVersion>)
        ensures
            r == spec_ensure_action(*self, now),
    {
        let due = match &self.session {
            None => true,
            Some(s) => now >= s.expires_at,
        };
        if due {
            match &self.session {
                Some(s) => Some(s.version),
                None => Some(self.version),
            }
        } else {
            None
        }
    }

    /// Applies the outcome of a login request: on success the stored
    /// snapshot is replaced, on failure it is left untouched.
    pub fn apply_login(&mut self, version: AuthVersion, reply: LoginReply, now: u64) -> (r:
        Result<(), AuthError>)
        ensures
            ({
                let out = spec_login_outcome(version, reply, now, old(self).default_lifetime);
                match out {
                    Ok(s) => r == Ok::<(), AuthError>(()) && final(self).session == Some(s)
                        && final(self).version == version
                        && final(self).default_lifetime == old(self).default_lifetime,
                    Err(e) => r == Err::<(), AuthError>(e) && *final(self) == *old(self),
                }
            }),
    {
        match process_login_response(version, reply, now, self.default_lifetime) {
            Ok(s) => {
                self.session = Some(s);
                self.version = version;
                Ok(())
            },
            Err(e) => Err(e),
        }
    }

    /// The header set for subsequent REST calls: exactly the two legacy
    /// token headers, exactly the bearer pair, or the empty set when
    /// unauthenticated. An empty set means "not ready" — callers must not
    /// send partially populated auth headers.
    pub fn auth_headers(&self) -> (r: HeaderSet)
        ensures
            r@ == spec_auth_headers(self.session),
    {
        match &self.session {
            None => HeaderSet::new(),
            Some(sess) => match &sess.token {
                None => HeaderSet::new(),
                Some(SessionToken::Legacy { cst, x_security_token }) => {
                    let mut h = HeaderSet::new();
                    h.push("CST".to_owned(), cst.clone());
                    h.push("X-SECURITY-TOKEN".to_owned(), x_security_token.clone());
                    proof {
                        assert(h@ =~= spec_auth_headers(self.session));
                    }
                    h
                },
                Some(SessionToken::OAuth { access_token, .. }) => {
                    let mut bearer = "Bearer ".to_owned();
                    bearer.append(access_token.as_str());
                    let mut h = HeaderSet::new();
                    h.push("Authorization".to_owned(), bearer);
                    h.push("IG-ACCOUNT-ID".to_owned(), sess.account_id.clone());
                    proof {
                        assert(h@ =~= spec_auth_headers(self.session));
                    }
                    h
                },
            },
        }
    }

    /// Clears the local session state; logout is best-effort, so this
    /// happens whatever the server answered.
    pub fn logout_apply(&mut self)
        ensures
            final(self).session is None,
            final(self).version == old(self).version,
            final(self).default_lifetime == old(self).default_lifetime,
    {
        self.session = None;
    }

    /// The refresh decision: exchange the refresh token where the session
    /// supports it, fall back to a full authenticate otherwise.
    pub fn refresh_action(&self) -> (r: RefreshAction)
        ensures
            r == spec_refresh_action(*self),
    {
        match &self.session {
            Some(s) => match &s.token {
                Some(SessionToken::OAuth { refresh_token, .. }) => {
                    if refresh_token.as_str().unicode_len() > 0 {
                        RefreshAction::UseRefreshToken(refresh_token.clone())
                    } else {
                        RefreshAction::FullAuthenticate(s.version)
                    }
                },
                _ => RefreshAction::FullAuthenticate(s.version),
            },
            None => RefreshAction::FullAuthenticate(self.version),
        }
    }

    /// Applies the outcome of a refresh-token exchange. The still-valid
    /// session is not touched until the new token is confirmed: every
    /// failure leaves the manager exactly as it was.
    pub fn apply_refresh(&mut self, status: u16, new_token: Option<OauthToken>, now: u64) -> (r:
        Result<(), AuthError>)
        ensures
            ({
                let out = spec_refresh_outcome(
                    *old(self),
                    status,
                    new_token,
                    now,
                );
                match out {
                    Ok(s) => r == Ok::<(), AuthError>(()) && final(self).session == Some(s)
                        && final(self).version == old(self).version
                        && final(self).default_lifetime == old(self).default_lifetime,
                    Err(e) => r == Err::<(), AuthError>(e) && *final(self) == *old(self),
                }
            }),
    {
        let sess = match &self.session {
            None => {
                return Err(AuthError::Unexpected(status));
            },
            Some(s) => s,
        };
        if status == 401 {
            return Err(AuthError::BadCredentials);
        }
        if status < 200 || status >= 300 {
            return Err(AuthError::Unexpected(status));
        }
        match new_token {
            None => Err(AuthError::Unexpected(status)),
            Some(tok) => {
                let lifetime = match parse_u64(tok.expires_in.as_str()) {
                    Some(v) => v,
                    None => self.default_lifetime,
                };
                let updated = AuthSession {
                    version: sess.version,
                    token: Some(SessionToken::OAuth {
                        access_token: tok.access_token,
                        refresh_token: tok.refresh_token,
                        scope: tok.scope,
                        token_type: tok.token_type,
                        expires_in_seconds: lifetime,
                    }),
                    account_id: sess.account_id.clone(),
                    client_id: match &sess.client_id {
                        Some(c) => Some(c.clone()),
                        None => None,
                    },
                    expires_at: expiry_instant(now, lifetime),
                };
                self.session = Some(updated);
                Ok(())
            },
        }
    }
}

/// How a refresh is performed.
#[derive(Debug)]
pub enum RefreshAction {
    /// Exchange this refresh token without re-sending the password.
    UseRefreshToken(String),
    /// Refresh is unsupported for the session: run a full authenticate.
    FullAuthenticate(AuthVersion),
}

/// The refresh decision of a manager.
pub open spec fn spec_refresh_action(m: AuthSessionManager) -> RefreshAction {
    match m.session {
        Some(s) => match s.token {
            Some(SessionToken::OAuth { refresh_token, .. }) => if refresh_token@.len() > 0 {
                RefreshAction::UseRefreshToken(refresh_token)
            } else {
                RefreshAction::FullAuthenticate(s.version)
            },
            _ => RefreshAction::FullAuthenticate(s.version),
        },
        None => RefreshAction::FullAuthenticate(m.version),
    }
}

/// Outcome of a refresh-token exchange over the stored session.
pub open spec fn spec_refresh_outcome(
    m: AuthSessionManager,
    status: u16,
    new_token: Option<OauthToken>,
    now: u64,
) -> Result<AuthSession, AuthError> {
    match m.session {
        None => Err(AuthError::Unexpected(status)),
        Some(sess) => if status == 401 {
            Err(AuthError::BadCredentials)
        } else if !spec_is_success(status) {
            Err(AuthError::Unexpected(status))
        } else {
            match new_token {
                None => Err(AuthError::Unexpected(status)),
                Some(tok) => {
                    let lifetime = spec_granted_lifetime(tok.expires_in@, m.default_lifetime);
                    Ok(
                        AuthSession {
                            version: sess.version,
                            token: Some(spec_oauth_session_token(tok, lifetime)),
                            account_id: sess.account_id,
                            client_id: sess.client_id,
                            expires_at: spec_expiry(now, lifetime),
                        },
                    )
                },
            }
        },
    }
}

/// What the transport observed from one account-switch request.
#[derive(Debug)]
pub struct SwitchReply {
    pub status: u16,
    /// The platform's error code on a failed switch, if the body carried one.
    pub error_code: Option<String>,
    pub body: Option<AccountSwitchResponse>,
}

/// The next move after an account-switch reply.
#[derive(Clone, Copy, PartialEq, Eq, Structural, Debug)]
pub enum SwitchStep {
    /// The switch took effect.
    Done(AccountSwitchResponse),
    /// The known transient rejection: re-authenticate fully, then send the
    /// same switch request once more.
    ReauthThenRetry,
    /// Surface the error to the caller.
    Failed(SwitchError),
}

/// Switch errors are a closed set, so the step result stays a plain value.
#[derive(Clone, Copy, PartialEq, Eq, Structural, Debug)]
pub enum SwitchError {
    BadCredentials,
    Unexpected(u16),
}

/// The switch policy. The platform intermittently answers 401 with the
/// error code `account-token-invalid` even on a structurally valid
/// request; the policy retries exactly once after a full re-authenticate
/// and surfaces the error on any later rejection.
pub open spec fn spec_switch_step(reply: SwitchReply, already_retried: bool) -> SwitchStep {
    if spec_is_success(reply.status) {
        match reply.body {
            Some(b) => SwitchStep::Done(b),
            None => SwitchStep::Failed(SwitchError::Unexpected(reply.status)),
        }
    } else if reply.status == 401 {
        match reply.error_code {
            Some(code) => if code@ == "account-token-invalid"@ {
                if already_retried {
                    SwitchStep::Failed(SwitchError::Unexpected(401u16))
                } else {
                    SwitchStep::ReauthThenRetry
                }
            } else {
                SwitchStep::Failed(SwitchError::BadCredentials)
            },
            None => SwitchStep::Failed(SwitchError::BadCredentials),
        }
    } else {
        SwitchStep::Failed(SwitchError::Unexpected(reply.status))
    }
}

/// Decides the next move after an account-switch reply.
pub fn switch_account_step(reply: &SwitchReply, already_retried: bool) -> (r: SwitchStep)
    ensures
        r == spec_switch_step(*reply, already_retried),
{
    if 200 <= reply.status && reply.status < 300 {
        match &reply.body {
            Some(b) => SwitchStep::Done(*b),
            None => SwitchStep::Failed(SwitchError::Unexpected(reply.status)),
        }
    } else if reply.status == 401 {
        match &reply.error_code {
            Some(code) => {
                if crate::strutil::str_eq(code.as_str(), "account-token-invalid") {
                    if already_retried {
                        SwitchStep::Failed(SwitchError::Unexpected(401))
                    } else {
                        SwitchStep::ReauthThenRetry
                    }
                } else {
                    SwitchStep::Failed(SwitchError::BadCredentials)
                }
            },
            None => SwitchStep::Failed(SwitchError::BadCredentials),
        }
    } else {
        SwitchStep::Failed(SwitchError::Unexpected(reply.status))
    }
}

/// The decision taken on one inbound message during streaming-session
/// authentication.
#[derive(Debug)]
pub enum WsAuthStep {
    /// Authentication succeeded with this session id.
    Success(String),
    /// The success reply carried no session id: a protocol violation.
    MissingSessionId,
    /// Authentication failed with this status.
    Failure(String),
    /// The message concerns another operation; keep waiting.
    Ignore,
}

/// Classification of an authentication reply on the streaming channel.
pub open spec fn spec_ws_auth_step(
    operation: Seq<char>,
    status: String,
    session_id: Option<String>,
) -> WsAuthStep {
    if operation != "authenticate"@ {
        WsAuthStep::Ignore
    } else if status@ == "success"@ {
        match session_id {
            Some(id) => WsAuthStep::Success(id),
            None => WsAuthStep::MissingSessionId,
        }
    } else {
        WsAuthStep::Failure(status)
    }
}

/// Classifies one parsed authentication message from the streaming channel.
pub fn classify_ws_auth(operation: &str, status: String, session_id: Option<String>) -> (r:
    WsAuthStep)
    ensures
        r == spec_ws_auth_step(operation@, status, session_id),
{
    if !crate::strutil::str_eq(operation, "authenticate") {
        return WsAuthStep::Ignore;
    }
    if crate::strutil::str_eq(status.as_str(), "success") {
        match session_id {
            Some(id) => WsAuthStep::Success(id),
            None => WsAuthStep::MissingSessionId,
        }
    } else {
        WsAuthStep::Failure(status)
    }
}

/// a 401 always yields `BadCredentials`, never a generic
/// `Unexpected`, whatever the version, the headers and the body.
pub proof fn lemma_401_means_bad_credentials(
    version: AuthVersion,
    reply: LoginReply,
    now: u64,
    default_lifetime: u64,
)
    requires
        reply.status == 401,
    ensures
        spec_login_outcome(version, reply, now, default_lifetime) == Err::<
            AuthSession,
            AuthError,
        >(AuthError::BadCredentials),
{
}

/// a 2xx response of the documented shape yields a session whose
/// `auth_headers` holds exactly the two keys of its version — `CST` and
/// `X-SECURITY-TOKEN` with the two header tokens for versions 1 and 2,
/// `Authorization` (a bearer token) and `IG-ACCOUNT-ID` for version 3 —
/// with no extras and no omissions.
pub proof fn lemma_login_headers_exact(
    version: AuthVersion,
    reply: LoginReply,
    now: u64,
    default_lifetime: u64,
)
    requires
        spec_is_success(reply.status),
        reply.body is Some,
        !(version is V3) ==> reply.cst is Some && reply.security_token is Some,
        version is V3 ==> reply.body->Some_0.oauth_token is Some,
    ensures
        spec_login_outcome(version, reply, now, default_lifetime) is Ok,
        !(version is V3) ==> spec_auth_headers(
            Some(spec_login_outcome(version, reply, now, default_lifetime)->Ok_0),
        ) == seq![
            ("CST"@, reply.cst->Some_0@),
            ("X-SECURITY-TOKEN"@, reply.security_token->Some_0@),
        ],
        version is V3 ==> spec_auth_headers(
            Some(spec_login_outcome(version, reply, now, default_lifetime)->Ok_0),
        ) == seq![
            ("Authorization"@, "Bearer "@ + reply.body->Some_0.oauth_token->Some_0.access_token@),
            ("IG-ACCOUNT-ID"@, reply.body->Some_0.account_id@),
        ],
{
}

/// within the token lifetime, `ensure_authenticated` makes no network
/// call; once the clock reaches the expiry instant, it demands exactly one
/// re-login, with the session's remembered version.
pub proof fn lemma_ensure_exactly_one_reauth(
    m: AuthSessionManager,
    s: AuthSession,
    t1: u64,
    t2: u64,
    t3: u64,
)
    requires
        m.session == Some(s),
        t1 < s.expires_at,
        t2 < s.expires_at,
        s.expires_at <= t3,
    ensures
        spec_ensure_action(m, t1) is None,
        spec_ensure_action(m, t2) is None,
        spec_ensure_action(m, t3) == Some(s.version),
{
}

/// a switch that first hits the known transient 401 code and then
/// succeeds on the retry returns success to the caller, with exactly one
/// re-authentication in between: the first reply demands the single
/// re-auth-and-retry, the second completes the switch.
pub proof fn lemma_switch_retries_once(
    first: SwitchReply,
    second: SwitchReply,
    code: String,
    b: AccountSwitchResponse,
)
    requires
        first.status == 401,
        first.error_code == Some(code),
        code@ == "account-token-invalid"@,
        spec_is_success(second.status),
        second.body == Some(b),
    ensures
        spec_switch_step(first, false) == SwitchStep::ReauthThenRetry,
        spec_switch_step(second, true) == SwitchStep::Done(b),
{
}

} // verus!
