//! Error taxonomy of the client.
//!
//! Transport-level failures surface unchanged as `Network`/`ConnectFailed`;
//! protocol-level violations get distinct typed errors so callers can decide
//! between retrying and failing permanently. Errors of outside origin carry
//! their description as plain text.

use vstd::prelude::*;

use crate::strutil::{spec_u64_dec, u64_to_dec};

verus! {

/// Errors of the authenticated session manager.
#[derive(Clone, Debug)]
pub enum AuthError {
    /// A transport failure (DNS, TLS, timeout), described as text.
    Network(String),
    /// An I/O failure, described as text.
    Io(String),
    /// A malformed response body, described as text.
    Json(String),
    /// Any other failure, described as text.
    Other(String),
    /// The platform rejected the credentials (status 401).
    BadCredentials,
    /// A structurally unexpected response, tagged with the HTTP status.
    Unexpected(u16),
}

impl AuthError {
    /// The human-readable description of the error.
    pub open spec fn spec_message(&self) -> Seq<char> {
        match self {
            AuthError::Network(s) => "network error: "@ + s@,
            AuthError::Io(s) => "io error: "@ + s@,
            AuthError::Json(s) => "json error: "@ + s@,
            AuthError::Other(s) => "other error: "@ + s@,
            AuthError::BadCredentials => "bad credentials"@,
            AuthError::Unexpected(c) => "unexpected http status: "@ + spec_u64_dec(*c as nat),
        }
    }

    /// Renders the error for a log line or a caller's message.
    pub fn message(&self) -> (r: String)
        ensures
            r@ == self.spec_message(),
    {
        match self {
            AuthError::Network(s) => {
                let mut r = "network error: ".to_owned();
                r.append(s.as_str());
                r
            },
            AuthError::Io(s) => {
                let mut r = "io error: ".to_owned();
                r.append(s.as_str());
                r
            },
            AuthError::Json(s) => {
                let mut r = "json error: ".to_owned();
                r.append(s.as_str());
                r
            },
            AuthError::Other(s) => {
                let mut r = "other error: ".to_owned();
                r.append(s.as_str());
                r
            },
            AuthError::BadCredentials => "bad credentials".to_owned(),
            AuthError::Unexpected(c) => {
                let mut r = "unexpected http status: ".to_owned();
                r.append(u64_to_dec(*c as u64).as_str());
                r
            },
        }
    }
}

/// Errors of the application-facing REST services.
#[derive(Clone, Debug)]
pub enum AppError {
    Network(String),
    Io(String),
    Json(String),
    Unexpected(u16),
    Db(String),
    Unauthorized,
    NotFound,
    RateLimitExceeded,
    SerializationError(String),
    WebSocketError(String),
}

impl AppError {
    /// The human-readable description of the error.
    pub open spec fn spec_message(&self) -> Seq<char> {
        match self {
            AppError::Network(s) => "network error: "@ + s@,
            AppError::Io(s) => "io error: "@ + s@,
            AppError::Json(s) => "json error: "@ + s@,
            AppError::Unexpected(c) => "unexpected http status: "@ + spec_u64_dec(*c as nat),
            AppError::Db(s) => "db error: "@ + s@,
            AppError::Unauthorized => "unauthorized"@,
            AppError::NotFound => "not found"@,
            AppError::RateLimitExceeded => "rate limit exceeded"@,
            AppError::SerializationError(s) => "serialization error: "@ + s@,
            AppError::WebSocketError(s) => "websocket error: "@ + s@,
        }
    }

    /// Renders the error for a log line or a caller's message.
    pub fn message(&self) -> (r: String)
        ensures
            r@ == self.spec_message(),
    {
        match self {
            AppError::Network(s) => {
                let mut r = "network error: ".to_owned();
                r.append(s.as_str());
                r
            },
            AppError::Io(s) => {
                let mut r = "io error: ".to_owned();
                r.append(s.as_str());
                r
            },
            AppError::Json(s) => {
                let mut r = "json error: ".to_owned();
                r.append(s.as_str());
                r
            },
            AppError::Unexpected(c) => {
                let mut r = "unexpected http status: ".to_owned();
                r.append(u64_to_dec(*c as u64).as_str());
                r
            },
            AppError::Db(s) => {
                let mut r = "db error: ".to_owned();
                r.append(s.as_str());
                r
            },
            AppError::Unauthorized => "unauthorized".to_owned(),
            AppError::NotFound => "not found".to_owned(),
            AppError::RateLimitExceeded => "rate limit exceeded".to_owned(),
            AppError::SerializationError(s) => {
                let mut r = "serialization error: ".to_owned();
                r.append(s.as_str());
                r
            },
            AppError::WebSocketError(s) => {
                let mut r = "websocket error: ".to_owned();
                r.append(s.as_str());
                r
            },
        }
    }
}

/// Errors of the transaction fetcher.
#[derive(Clone, Debug)]
pub enum FetchError {
    Reqwest(String),
    Sqlx(String),
    Parser(String),
}

impl FetchError {
    /// The human-readable description of the error.
    pub open spec fn spec_message(&self) -> Seq<char> {
        match self {
            FetchError::Reqwest(s) => "network error: "@ + s@,
            FetchError::Sqlx(s) => "db error: "@ + s@,
            FetchError::Parser(s) => "parser error: "@ + s@,
        }
    }

    /// Renders the error for a log line or a caller's message.
    pub fn message(&self) -> (r: String)
        ensures
            r@ == self.spec_message(),
    {
        match self {
            FetchError::Reqwest(s) => {
                let mut r = "network error: ".to_owned();
                r.append(s.as_str());
                r
            },
            FetchError::Sqlx(s) => {
                let mut r = "db error: ".to_owned();
                r.append(s.as_str());
                r
            },
            FetchError::Parser(s) => {
                let mut r = "parser error: ".to_owned();
                r.append(s.as_str());
                r
            },
        }
    }
}

/// Errors of the streaming connection manager.
#[derive(Clone, Copy, PartialEq, Eq, Structural, Debug)]
pub enum StreamError {
    /// The transport could not open the connection.
    ConnectFailed,
    /// Every endpoint/adapter-set candidate was tried once and rejected.
    AllEndpointsFailed,
    /// The server answered the session-creation frame with a rejection.
    HandshakeRejected,
    /// The operation needs an established connection.
    NotConnected,
    /// The subscription id is not in the registry.
    NotFound,
    /// An outbound frame could not be handed to the transport.
    SendFailed,
    /// An outbound value could not be rendered as a frame.
    Serialization,
}

impl StreamError {
    /// The human-readable description of the error.
    pub open spec fn spec_message(&self) -> Seq<char> {
        match self {
            StreamError::ConnectFailed => "connect failed"@,
            StreamError::AllEndpointsFailed => "all endpoints and adapter sets failed"@,
            StreamError::HandshakeRejected => "handshake rejected"@,
            StreamError::NotConnected => "not connected"@,
            StreamError::NotFound => "subscription not found"@,
            StreamError::SendFailed => "send failed"@,
            StreamError::Serialization => "serialization failed"@,
        }
    }

    /// Renders the error for a log line or a caller's message.
    pub fn message(&self) -> (r: String)
        ensures
            r@ == self.spec_message(),
    {
        match self {
            StreamError::ConnectFailed => "connect failed".to_owned(),
            StreamError::AllEndpointsFailed => "all endpoints and adapter sets failed".to_owned(),
            StreamError::HandshakeRejected => "handshake rejected".to_owned(),
            StreamError::NotConnected => "not connected".to_owned(),
            StreamError::NotFound => "subscription not found".to_owned(),
            StreamError::SendFailed => "send failed".to_owned(),
            StreamError::Serialization => "serialization failed".to_owned(),
        }
    }
}

/// How an [`AuthError`] is seen by the application services.
pub open spec fn spec_app_of_auth(e: AuthError) -> AppError {
    match e {
        AuthError::Network(s) => AppError::Network(s),
        AuthError::Io(s) => AppError::Io(s),
        AuthError::Json(s) => AppError::Json(s),
        AuthError::BadCredentials => AppError::Unauthorized,
        AuthError::Unexpected(s) => AppError::Unexpected(s),
        AuthError::Other(_) => AppError::Unexpected(500u16),
    }
}

/// How an [`AppError`] is seen by the session manager.
pub open spec fn spec_auth_of_app(e: AppError) -> AuthError {
    match e {
        AppError::Network(s) => AuthError::Network(s),
        AppError::Io(s) => AuthError::Io(s),
        AppError::Json(s) => AuthError::Json(s),
        AppError::Unexpected(s) => AuthError::Unexpected(s),
        AppError::Unauthorized => AuthError::BadCredentials,
        _ => AuthError::Unexpected(500u16),
    }
}

impl From<AppError> for AuthError {
    fn from(e: AppError) -> (r: AuthError) {
        match e {
            AppError::Network(s) => AuthError::Network(s),
            AppError::Io(s) => AuthError::Io(s),
            AppError::Json(s) => AuthError::Json(s),
            AppError::Unexpected(s) => AuthError::Unexpected(s),
            AppError::Unauthorized => AuthError::BadCredentials,
            _ => AuthError::Unexpected(500),
        }
    }
}

impl vstd::std_specs::convert::FromSpecImpl<AppError> for AuthError {
    open spec fn obeys_from_spec() -> bool {
        true
    }

    open spec fn from_spec(e: AppError) -> AuthError {
        spec_auth_of_app(e)
    }
}

impl From<AuthError> for AppError {
    fn from(e: AuthError) -> (r: AppError) {
        match e {
            AuthError::Network(s) => AppError::Network(s),
            AuthError::Io(s) => AppError::Io(s),
            AuthError::Json(s) => AppError::Json(s),
            AuthError::BadCredentials => AppError::Unauthorized,
            AuthError::Unexpected(s) => AppError::Unexpected(s),
            AuthError::Other(_) => AppError::Unexpected(500),
        }
    }
}

impl vstd::std_specs::convert::FromSpecImpl<AuthError> for AppError {
    open spec fn obeys_from_spec() -> bool {
        true
    }

    open spec fn from_spec(e: AuthError) -> AppError {
        spec_app_of_auth(e)
    }
}

} // verus!
