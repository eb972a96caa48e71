use lore_auth::oidc_refresh::{parse_auth_url, refresh, RefreshResponse};

#[test]
fn parse_auth_url_extracts_parts() {
    let (issuer, client_id, scope) = parse_auth_url(
        "oidc://login.microsoftonline.com/tenant/v2.0?client_id=abc&scope=openid%20offline_access",
    )
    .unwrap();
    assert_eq!(issuer, "https://login.microsoftonline.com/tenant/v2.0");
    assert_eq!(client_id, "abc");
    assert_eq!(scope, "openid offline_access");
}

#[test]
fn parse_auth_url_requires_client_id() {
    assert!(parse_auth_url("oidc://login.microsoftonline.com/tenant/v2.0").is_none());
}

#[test]
fn a_refresh_asks_for_offline_access_by_default() {
    let (_, _, scope) = parse_auth_url("oidc://idp.example/t?client_id=c").unwrap();
    assert_eq!(scope, "openid profile offline_access");
}

#[test]
fn a_refresh_posts_its_token() {
    let grant = refresh("oidc://idp.example/t/?client_id=c", "the-token").unwrap();
    assert_eq!(
        grant.discovery_url,
        "https://idp.example/t/.well-known/openid-configuration"
    );
    let form: Vec<(&str, &str)> = grant
        .form
        .iter()
        .map(|(name, value)| (name.as_str(), value.as_str()))
        .collect();
    assert_eq!(
        form,
        vec![
            ("grant_type", "refresh_token"),
            ("refresh_token", "the-token"),
            ("client_id", "c"),
            ("scope", "openid profile offline_access"),
        ]
    );
    let token = grant
        .on_response(RefreshResponse {
            id_token: Some("new".to_string()),
            refresh_token: Some("rotated".to_string()),
        })
        .unwrap();
    assert_eq!(token.id_token, "new");
    assert_eq!(token.refresh_token.as_deref(), Some("rotated"));
}

#[test]
fn a_refresh_without_a_provider_or_an_id_token_is_none() {
    assert!(refresh("https//broken", "t").is_none());
    assert!(refresh("oidc://idp.example/t", "t").is_none());
    let grant = refresh("oidc://idp.example/t?client_id=c", "t").unwrap();
    assert!(grant
        .on_response(RefreshResponse {
            id_token: None,
            refresh_token: Some("rotated".to_string()),
        })
        .is_none());
}
