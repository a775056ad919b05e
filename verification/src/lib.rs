//! Verified core of a client for a brokerage trading platform.
//!
//! The library covers the two subsystems with real protocol state: the
//! authenticated session manager (login over one of three incompatible
//! authentication schemes, token expiry, header derivation, account
//! switching) and the streaming connection manager (handshake over a
//! CRLF key=value text protocol, subscription registry, frame dispatch).
//! All decisions are pure functions over plain values; network transport
//! lives outside the library and feeds responses in.

pub mod auth;
pub mod config;
pub mod crypto;
pub mod error;
pub mod frames;
pub mod headers;
pub mod models;
pub mod registry;
pub mod stream;
pub mod strutil;
pub mod transport;
