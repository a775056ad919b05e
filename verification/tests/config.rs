use ig_client::config::{Config, Credentials, DatabaseConfig, RestApiConfig, WebSocketConfig};

#[test]
fn test_default_values() {
    let config = Config::new();

    assert_eq!(config.credentials.username, "default_username");
    assert_eq!(config.credentials.password, "default_password");
    assert_eq!(config.credentials.api_key, "default_api_key");
    assert_eq!(config.rest_api.base_url, "https://demo-api.ig.com/gateway/deal");
    assert_eq!(config.rest_api.timeout, 30);
    assert_eq!(config.websocket.url, "wss://demo-apd.marketdatasystems.com");
    assert_eq!(config.websocket.reconnect_interval, 5);
}

#[test]
fn test_credentials_display() {
    let credentials = Credentials {
        username: "user123".to_string(),
        password: "pass123".to_string(),
        account_id: "acc456".to_string(),
        api_key: "key789".to_string(),
        client_token: Some("ctoken".to_string()),
        account_token: None,
    };

    let display_output = credentials.display_string();
    assert_eq!(
        display_output,
        "{\"username\":\"user123\",\"password\":\"[REDACTED]\",\"account_id\":\"[REDACTED]\",\"api_key\":\"[REDACTED]\",\"client_token\":\"[REDACTED]\",\"account_token\":null}"
    );
    // No secret ever appears in cleartext.
    assert!(!display_output.contains("pass123"));
    assert!(!display_output.contains("acc456"));
    assert!(!display_output.contains("key789"));
    assert!(!display_output.contains("ctoken"));
}

#[test]
fn test_rest_api_config_display() {
    let rest_api_config = RestApiConfig {
        base_url: "https://api.example.com".to_string(),
        timeout: 30,
    };

    let display_output = rest_api_config.display_string();
    assert_eq!(display_output, "{\"base_url\":\"https://api.example.com\",\"timeout\":30}");
}

#[test]
fn test_websocket_config_display() {
    let websocket_config = WebSocketConfig {
        url: "wss://ws.example.com".to_string(),
        reconnect_interval: 5,
    };

    let display_output = websocket_config.display_string();
    assert_eq!(display_output, "{\"url\":\"wss://ws.example.com\",\"reconnect_interval\":5}");
}

#[test]
fn test_config_display() {
    let config = Config {
        credentials: Credentials {
            username: "user123".to_string(),
            password: "pass123".to_string(),
            account_id: "acc456".to_string(),
            api_key: "key789".to_string(),
            client_token: Some("ctoken".to_string()),
            account_token: None,
        },
        rest_api: RestApiConfig {
            base_url: "https://api.example.com".to_string(),
            timeout: 30,
        },
        websocket: WebSocketConfig {
            url: "wss://ws.example.com".to_string(),
            reconnect_interval: 5,
        },
    };

    let display_output = config.display_string();
    assert_eq!(
        display_output,
        "{\"credentials\":{\"username\":\"user123\",\"password\":\"[REDACTED]\",\"account_id\":\"[REDACTED]\",\"api_key\":\"[REDACTED]\",\"client_token\":\"[REDACTED]\",\"account_token\":null},\"rest_api\":{\"base_url\":\"https://api.example.com\",\"timeout\":30},\"websocket\":{\"url\":\"wss://ws.example.com\",\"reconnect_interval\":5}}"
    );
}

#[test]
fn database_config_display() {
    let db = DatabaseConfig { url: "postgres://db.example".to_string(), max_connections: 8 };
    assert_eq!(
        db.display_string(),
        "{\"url\":\"postgres://db.example\",\"max_connections\":8}"
    );
}
