use ig_client::auth::parse_u64;
use ig_client::error::AppError;
use ig_client::models::AccountSwitchResponse;
use ig_client::strutil::{str_contains, str_eq, str_eq_ignore_ascii_case, u64_to_dec};
use ig_client::transport::{
    adapter_sets_for, build_url, fresh_client_id, fresh_subscription_id, is_demo_environment,
    status_error,
};
use ig_client::models::SubscriptionType;

#[test]
fn build_url_joins_with_one_slash() {
    assert_eq!(build_url("https://api.example.com", "session"), "https://api.example.com/session");
    assert_eq!(
        build_url("https://api.example.com/", "/session"),
        "https://api.example.com/session"
    );
    assert_eq!(
        build_url("https://api.example.com///", "session/refresh-token"),
        "https://api.example.com/session/refresh-token"
    );
    assert_eq!(build_url("", ""), "/");
}

#[test]
fn status_classification_matches_response_processing() {
    assert!(status_error(200).is_none());
    assert!(status_error(201).is_none());
    assert!(status_error(202).is_none());
    assert!(matches!(status_error(401), Some(AppError::Unauthorized)));
    assert!(matches!(status_error(404), Some(AppError::NotFound)));
    assert!(matches!(status_error(429), Some(AppError::RateLimitExceeded)));
    assert!(matches!(status_error(500), Some(AppError::Unexpected(500))));
    assert!(matches!(status_error(204), Some(AppError::Unexpected(204))));
}

#[test]
fn parse_u64_reads_decimal_numbers() {
    assert_eq!(parse_u64("0"), Some(0));
    assert_eq!(parse_u64("60"), Some(60));
    assert_eq!(parse_u64("9999999999999999999"), Some(9_999_999_999_999_999_999));
    assert_eq!(parse_u64(""), None);
    assert_eq!(parse_u64("12a"), None);
    assert_eq!(parse_u64("-5"), None);
    assert_eq!(parse_u64("99999999999999999999"), None);
}

#[test]
fn u64_to_dec_renders_decimal() {
    assert_eq!(u64_to_dec(0), "0");
    assert_eq!(u64_to_dec(7), "7");
    assert_eq!(u64_to_dec(10), "10");
    assert_eq!(u64_to_dec(503), "503");
    assert_eq!(u64_to_dec(18_446_744_073_709_551_615), "18446744073709551615");
}

#[test]
fn string_primitives() {
    assert!(str_eq("abc", "abc"));
    assert!(!str_eq("abc", "abd"));
    assert!(!str_eq("abc", "ab"));
    assert!(str_contains("CONOK,sid", "CONOK"));
    assert!(str_contains("abc", ""));
    assert!(!str_contains("ab", "abc"));
    assert!(str_eq_ignore_ascii_case("X-Security-Token", "X-SECURITY-TOKEN"));
    assert!(!str_eq_ignore_ascii_case("CST", "XST"));
}

#[test]
fn fresh_ids_carry_their_prefixes() {
    let id = fresh_subscription_id(SubscriptionType::Market);
    assert!(id.starts_with("MARKET-"));
    assert_eq!(id.len(), "MARKET-".len() + 36);
    let other = fresh_subscription_id(SubscriptionType::Market);
    // Two draws of a random id are overwhelmingly likely to differ; the
    // registry would replace on the (theoretical) collision.
    assert_ne!(id, other);

    let cid = fresh_client_id();
    assert!(cid.starts_with("IGCLIENT_"));
    assert!(!cid.contains('-'));
}

#[test]
fn adapter_sets_follow_the_environment() {
    assert!(is_demo_environment("https://demo-api.ig.com/gateway/deal"));
    assert!(!is_demo_environment("https://api.ig.com/gateway/deal"));
    assert_eq!(
        adapter_sets_for("https://demo-api.ig.com/gateway/deal"),
        vec![
            "DEMO-igindexdemo".to_string(),
            "DEMO-igstreamer".to_string(),
            "DEMO-iggroup".to_string(),
        ]
    );
    assert_eq!(
        adapter_sets_for("https://api.ig.com/gateway/deal"),
        vec!["PROD-igindexlive".to_string(), "PROD-ig".to_string(), "PROD-iggroup".to_string()]
    );
}

#[test]
fn test_account_switch_response_display() {
    let response = AccountSwitchResponse {
        dealing_enabled: true,
        has_active_demo_accounts: false,
        has_active_live_accounts: true,
        trailing_stops_enabled: false,
    };
    assert_eq!(
        response.display_string(),
        "{\"dealingEnabled\":true,\"hasActiveDemoAccounts\":false,\"hasActiveLiveAccounts\":true,\"trailingStopsEnabled\":false}"
    );
}
