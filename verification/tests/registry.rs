use lore_auth::auth_service::{auth_endpoint, auth_endpoint_from, auth_service_url, ConnectFault};
use lore_auth::authentication::{add, find, parse_scheme, schemes, AuthenticationRegistry};
use lore_auth::repository_service::{LoreRepositoryV1Service, RepositoryCall};
use lore_auth::settings::{EndpointConfig, EnvironmentConfig};
use lore_auth::status::Code;
use std::sync::Arc;

#[test]
fn the_scheme_is_what_precedes_the_separator() {
    assert_eq!(parse_scheme("ucs-auth://auth.example.com").unwrap(), "ucs-auth");
    assert_eq!(parse_scheme("a://b://c").unwrap(), "a");
    assert_eq!(parse_scheme("://x").unwrap(), "");
    assert_eq!(
        parse_scheme("auth.example.com").unwrap_err().message,
        "invalid auth URL (missing scheme): 'auth.example.com'"
    );
}

#[test]
fn the_first_lookup_registers_the_built_in_implementation() {
    let mut registry = AuthenticationRegistry::new(Arc::new("builtin"));
    assert!(schemes(&registry).is_empty());
    assert_eq!(*find(&mut registry, "https://auth.example").unwrap(), "builtin");
    assert_eq!(*find(&mut registry, "ucs-auth://auth.example").unwrap(), "builtin");
    assert_eq!(schemes(&registry), vec!["ucs-auth".to_string(), "https".to_string()]);
}

#[test]
fn a_lookup_finds_what_was_added() {
    let mut registry = AuthenticationRegistry::new(Arc::new("builtin"));
    add(&mut registry, "mine", Arc::new("first")).unwrap();
    add(&mut registry, "https", Arc::new("early")).unwrap();
    assert_eq!(*find(&mut registry, "mine://x").unwrap(), "first");
    // The first lookup gave this scheme to the built-in implementation.
    assert_eq!(*find(&mut registry, "https://x").unwrap(), "builtin");
    add(&mut registry, "mine", Arc::new("second")).unwrap();
    add(&mut registry, "https", Arc::new("late")).unwrap();
    assert_eq!(*find(&mut registry, "mine://x").unwrap(), "second");
    assert_eq!(*find(&mut registry, "https://x").unwrap(), "late");
    assert_eq!(
        schemes(&registry),
        vec!["mine".to_string(), "https".to_string(), "ucs-auth".to_string()]
    );
}

#[test]
fn an_unknown_scheme_is_reported_with_the_known_ones() {
    let mut registry = AuthenticationRegistry::new(Arc::new("builtin"));
    assert_eq!(
        find(&mut registry, "oidc://x").unwrap_err().message,
        "no authentication implementation registered for scheme 'oidc' \
         (available: [\"ucs-auth\", \"https\"])"
    );
    assert_eq!(
        find(&mut registry, "nothing").unwrap_err().message,
        "invalid auth URL (missing scheme): 'nothing'"
    );
}

#[test]
fn openid_connect_providers_have_no_permissions_service() {
    assert_eq!(auth_service_url(None), None);
    assert_eq!(auth_service_url(Some("oidc://idp.example".to_string())), None);
    assert_eq!(
        auth_service_url(Some("https://auth.example".to_string())).as_deref(),
        Some("https://auth.example")
    );
}

#[test]
fn the_permissions_service_is_connected_to_over_tls_where_its_url_says_so() {
    assert!(auth_endpoint("https://auth.example").unwrap().tls);
    assert!(!auth_endpoint("http://auth.example").unwrap().tls);
    let status = auth_endpoint("not an address").unwrap_err();
    assert_eq!(status.code, Code::Internal);
    assert_eq!(status.message, "Failed to create lore auth endpoint");
    assert!(auth_endpoint_from("https://auth.example", None).is_err());
    assert_eq!(
        ConnectFault::Tls.status().message,
        "Failed to configure TLS for lore auth"
    );
    assert_eq!(
        ConnectFault::Connect.status().message,
        "Failed to connect to lore auth service"
    );
}

fn service(auth_url: Option<&str>) -> LoreRepositoryV1Service<u8, u8, u8> {
    let environment = EnvironmentConfig {
        endpoint: Some(EndpointConfig { auth_url: auth_url.map(|url| url.to_string()) }),
        config: None,
    };
    LoreRepositoryV1Service::new(environment, Arc::new(1), Arc::new(2), Arc::new(3), 1500)
}

#[test]
fn handlers_are_set_up_by_their_call() {
    let service = service(Some("https://auth.example"));
    for call in [RepositoryCall::Create, RepositoryCall::Delete, RepositoryCall::Get] {
        let setup = service.setup(call);
        assert_eq!(setup.timeout_millis, Some(1500));
        assert_eq!(setup.auth_url.as_deref(), Some("https://auth.example"));
    }
    let list = service.setup(RepositoryCall::List);
    assert_eq!(list.timeout_millis, None);
    assert_eq!(list.auth_url.as_deref(), Some("https://auth.example"));
    for call in [RepositoryCall::MetadataGet, RepositoryCall::MetadataSet] {
        let setup = service.setup(call);
        assert_eq!(setup.timeout_millis, Some(1500));
        assert_eq!(setup.auth_url, None);
    }
}

#[test]
fn a_service_without_permissions_asks_none() {
    assert_eq!(service(Some("oidc://idp.example")).auth_url(), None);
    assert_eq!(service(None).auth_url(), None);
}
