//! Configuration passed into the library as plain values.
//!
//! Environment-driven configuration is loaded by an external loader; the
//! library itself never reads environment variables. `Config::new` builds
//! the conservative default configuration.

use vstd::prelude::*;

use crate::strutil::{spec_u64_dec, u64_to_dec};

verus! {

/// `"[REDACTED]"` (quoted) where a secret is present, `null` otherwise:
/// secrets are never rendered in cleartext.
pub open spec fn spec_opt_redacted(o: Option<String>) -> Seq<char> {
    if o is Some {
        "\"[REDACTED]\""@
    } else {
        "null"@
    }
}

/// The quoted-or-null redaction marker for an optional secret.
pub fn opt_redacted(o: &Option<String>) -> (r: &'static str)
    ensures
        r@ == spec_opt_redacted(*o),
{
    match o {
        Some(_) => "\"[REDACTED]\"",
        None => "null",
    }
}

/// Login credentials, loaded once at process start.
pub struct Credentials {
    pub username: String,
    pub password: String,
    pub account_id: String,
    pub api_key: String,
    pub client_token: Option<String>,
    pub account_token: Option<String>,
}

impl Credentials {
    /// The JSON rendering of the credentials. Every secret — the
    /// password, the account id, the api key and the two tokens — is
    /// redacted; only the username appears in cleartext.
    pub open spec fn spec_display(&self) -> Seq<char> {
        "{\"username\":\""@ + self.username@
            + "\",\"password\":\"[REDACTED]\",\"account_id\":\"[REDACTED]\",\"api_key\":\"[REDACTED]\",\"client_token\":"@
            + spec_opt_redacted(self.client_token) + ",\"account_token\":"@ + spec_opt_redacted(
            self.account_token,
        ) + "}"@
    }

    /// Renders the credentials with every secret redacted.
    pub fn display_string(&self) -> (r: String)
        ensures
            r@ == self.spec_display(),
    {
        let mut r = "{\"username\":\"".to_owned();
        r.append(self.username.as_str());
        r.append(
            "\",\"password\":\"[REDACTED]\",\"account_id\":\"[REDACTED]\",\"api_key\":\"[REDACTED]\",\"client_token\":",
        );
        r.append(opt_redacted(&self.client_token));
        r.append(",\"account_token\":");
        r.append(opt_redacted(&self.account_token));
        r.append("}");
        r
    }
}

/// Settings for the REST transport.
pub struct RestApiConfig {
    pub base_url: String,
    pub timeout: u64,
}

impl RestApiConfig {
    /// The JSON rendering of the REST settings.
    pub open spec fn spec_display(&self) -> Seq<char> {
        "{\"base_url\":\""@ + self.base_url@ + "\",\"timeout\":"@ + spec_u64_dec(
            self.timeout as nat,
        ) + "}"@
    }

    /// Renders the REST settings.
    pub fn display_string(&self) -> (r: String)
        ensures
            r@ == self.spec_display(),
    {
        let mut r = "{\"base_url\":\"".to_owned();
        r.append(self.base_url.as_str());
        r.append("\",\"timeout\":");
        r.append(u64_to_dec(self.timeout).as_str());
        r.append("}");
        r
    }
}

/// Settings for the streaming transport.
pub struct WebSocketConfig {
    pub url: String,
    pub reconnect_interval: u64,
}

impl WebSocketConfig {
    /// The JSON rendering of the streaming settings.
    pub open spec fn spec_display(&self) -> Seq<char> {
        "{\"url\":\""@ + self.url@ + "\",\"reconnect_interval\":"@ + spec_u64_dec(
            self.reconnect_interval as nat,
        ) + "}"@
    }

    /// Renders the streaming settings.
    pub fn display_string(&self) -> (r: String)
        ensures
            r@ == self.spec_display(),
    {
        let mut r = "{\"url\":\"".to_owned();
        r.append(self.url.as_str());
        r.append("\",\"reconnect_interval\":");
        r.append(u64_to_dec(self.reconnect_interval).as_str());
        r.append("}");
        r
    }
}

/// Settings for the persistence layer.
pub struct DatabaseConfig {
    pub url: String,
    pub max_connections: u32,
}

impl DatabaseConfig {
    /// The JSON rendering of the persistence settings.
    pub open spec fn spec_display(&self) -> Seq<char> {
        "{\"url\":\""@ + self.url@ + "\",\"max_connections\":"@ + spec_u64_dec(
            self.max_connections as nat,
        ) + "}"@
    }

    /// Renders the persistence settings.
    pub fn display_string(&self) -> (r: String)
        ensures
            r@ == self.spec_display(),
    {
        let mut r = "{\"url\":\"".to_owned();
        r.append(self.url.as_str());
        r.append("\",\"max_connections\":");
        r.append(u64_to_dec(self.max_connections as u64).as_str());
        r.append("}");
        r
    }
}

/// The whole configuration handed to the client.
pub struct Config {
    pub credentials: Credentials,
    pub rest_api: RestApiConfig,
    pub websocket: WebSocketConfig,
}

impl Config {
    /// The JSON rendering of the whole configuration, secrets redacted.
    pub open spec fn spec_display(&self) -> Seq<char> {
        "{\"credentials\":"@ + self.credentials.spec_display() + ",\"rest_api\":"@
            + self.rest_api.spec_display() + ",\"websocket\":"@ + self.websocket.spec_display()
            + "}"@
    }

    /// Renders the whole configuration, secrets redacted.
    pub fn display_string(&self) -> (r: String)
        ensures
            r@ == self.spec_display(),
    {
        let mut r = "{\"credentials\":".to_owned();
        r.append(self.credentials.display_string().as_str());
        r.append(",\"rest_api\":");
        r.append(self.rest_api.display_string().as_str());
        r.append(",\"websocket\":");
        r.append(self.websocket.display_string().as_str());
        r.append("}");
        r
    }
}

impl Config {
    /// The default configuration: demo endpoints and placeholder credentials.
    pub fn new() -> (r: Config)
        ensures
            r.credentials.username@ == "default_username"@,
            r.credentials.password@ == "default_password"@,
            r.credentials.account_id@ == "default_account_id"@,
            r.credentials.api_key@ == "default_api_key"@,
            r.credentials.client_token is None,
            r.credentials.account_token is None,
            r.rest_api.base_url@ == "https://demo-api.ig.com/gateway/deal"@,
            r.rest_api.timeout == 30u64,
            r.websocket.url@ == "wss://demo-apd.marketdatasystems.com"@,
            r.websocket.reconnect_interval == 5u64,
    {
        Config {
            credentials: Credentials {
                username: "default_username".to_owned(),
                password: "default_password".to_owned(),
                account_id: "default_account_id".to_owned(),
                api_key: "default_api_key".to_owned(),
                client_token: None,
                account_token: None,
            },
            rest_api: RestApiConfig {
                base_url: "https://demo-api.ig.com/gateway/deal".to_owned(),
                timeout: 30,
            },
            websocket: WebSocketConfig {
                url: "wss://demo-apd.marketdatasystems.com".to_owned(),
                reconnect_interval: 5,
            },
        }
    }
}

} // verus!
