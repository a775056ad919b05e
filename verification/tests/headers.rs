use ig_client::headers::SecurityHeaders;

#[test]
fn test_new_security_headers() {
    let headers = SecurityHeaders::new(
        Some("cst".to_string()),
        Some("x_security_token".to_string()),
        Some("ig_account_id".to_string()),
        Some("authorization".to_string()),
        Some("version".to_string()),
        Some("x_ig_api_key".to_string()),
    );

    assert_eq!(headers.cst, Some("cst".to_string()));
    assert_eq!(headers.x_security_token, Some("x_security_token".to_string()));
    assert_eq!(headers.ig_account_id, Some("ig_account_id".to_string()));
    assert_eq!(headers.authorization, Some("authorization".to_string()));
    assert_eq!(headers.version, Some("version".to_string()));
    assert_eq!(headers.x_ig_api_key, Some("x_ig_api_key".to_string()));
}

#[test]
fn test_get_v1_headers() {
    let headers = SecurityHeaders::new(
        Some("cst".to_string()),
        Some("x_security_token".to_string()),
        None,
        None,
        None,
        Some("x_ig_api_key".to_string()),
    );

    let v1_headers = headers.get_v1();

    assert_eq!(v1_headers.get("Version"), Some("1".to_string()));
    assert_eq!(v1_headers.get("X-IG-API-KEY"), Some("x_ig_api_key".to_string()));
    assert_eq!(v1_headers.get("CST"), Some("cst".to_string()));
    assert_eq!(v1_headers.get("X-SECURITY-TOKEN"), Some("x_security_token".to_string()));
}

#[test]
fn test_get_v2_headers() {
    let headers = SecurityHeaders::new(
        None,
        None,
        Some("ig_account_id".to_string()),
        Some("authorization".to_string()),
        None,
        Some("x_ig_api_key".to_string()),
    );

    let v2_headers = headers.get_v2();

    assert_eq!(v2_headers.get("Version"), Some("2".to_string()));
    assert_eq!(v2_headers.get("X-IG-API-KEY"), Some("x_ig_api_key".to_string()));
    assert_eq!(v2_headers.get("IG-ACCOUNT-ID"), Some("ig_account_id".to_string()));
    assert_eq!(v2_headers.get("Authorization"), Some("authorization".to_string()));
}

#[test]
fn test_get_v3_headers() {
    let headers = SecurityHeaders::new(
        None,
        None,
        Some("ig_account_id".to_string()),
        Some("authorization".to_string()),
        None,
        Some("x_ig_api_key".to_string()),
    );

    let v3_headers = headers.get_v3();

    assert_eq!(v3_headers.get("Version"), Some("3".to_string()));
    assert_eq!(v3_headers.get("X-IG-API-KEY"), Some("x_ig_api_key".to_string()));
    assert_eq!(v3_headers.get("IG-ACCOUNT-ID"), Some("ig_account_id".to_string()));
    assert_eq!(v3_headers.get("Authorization"), Some("authorization".to_string()));
}

#[test]
fn test_update_headers() {
    let mut headers = SecurityHeaders::default();
    let header_pairs = vec![
        ("CST".to_string(), "new_cst".to_string()),
        ("x-security-token".to_string(), "new_token".to_string()),
        ("IG-ACCOUNT-ID".to_string(), "new_account".to_string()),
        ("Authorization".to_string(), "new_auth".to_string()),
        ("Version".to_string(), "new_version".to_string()),
        ("X-IG-API-KEY".to_string(), "new_api_key".to_string()),
    ];

    headers.update_headers(&header_pairs);

    assert_eq!(headers.cst, Some("new_cst".to_string()));
    assert_eq!(headers.x_security_token, Some("new_token".to_string()));
    assert_eq!(headers.ig_account_id, Some("new_account".to_string()));
    assert_eq!(headers.authorization, Some("new_auth".to_string()));
    assert_eq!(headers.version, Some("new_version".to_string()));
    assert_eq!(headers.x_ig_api_key, Some("new_api_key".to_string()));
}

#[test]
fn test_display_implementation() {
    let headers = SecurityHeaders::new(
        Some("cst".to_string()),
        Some("token".to_string()),
        Some("account".to_string()),
        Some("auth".to_string()),
        Some("1".to_string()),
        Some("api_key".to_string()),
    );

    let display_string = headers.display_string();
    assert_eq!(display_string, "{\"cst\":\"cst\",\"x_security_token\":\"token\",\"ig_account_id\":\"account\",\"authorization\":\"auth\",\"version\":\"1\",\"x_ig_api_key\":\"api_key\"}");
}

#[test]
fn test_default_implementation() {
    let headers = SecurityHeaders::default();

    assert_eq!(headers.cst, None);
    assert_eq!(headers.x_security_token, None);
    assert_eq!(headers.ig_account_id, None);
    assert_eq!(headers.authorization, None);
    assert_eq!(headers.version, None);
    assert_eq!(headers.x_ig_api_key, None);
}

#[test]
fn header_set_get_misses_unknown_keys() {
    let headers = SecurityHeaders::new(
        Some("cst".to_string()),
        Some("token".to_string()),
        None,
        None,
        None,
        Some("key".to_string()),
    );
    let v1 = headers.get_v1();
    assert_eq!(v1.len(), 4);
    assert_eq!(v1.get("Authorization"), None);
    assert_eq!(v1.get("IG-ACCOUNT-ID"), None);
    assert!(!v1.is_empty());
}
