use lore_auth::credentials::UserInfo;
use lore_auth::errors::{InteractiveLoginError, LoreError};
use lore_auth::oidc::{
    build_authorize_url, config_from, discovery_url_of, parse_auth_url, parse_redirect_request,
    read_redirect, redirect_response, redirect_uri_for, OidcDiscovery, OidcLogin, RedirectReading,
    RedirectStep, TokenResponse, UrlPresentation,
};
use lore_auth::pkce::{
    generate_pkce, pkce_challenge, verifier_from, LoginSecrets, VERIFIER_ALPHABET,
};
use lore_auth::urls::UrlParts;

fn internal(error: InteractiveLoginError) -> String {
    match error {
        InteractiveLoginError::Internal(message) => message,
        other => panic!("unexpected error: {other:?}"),
    }
}

fn secrets() -> LoginSecrets {
    LoginSecrets {
        verifier: "dBjftJeZ4CVP-mB92K27uhbUJU1p1r_wW1gFWFOEjXk".to_string(),
        challenge: "E9Melhoa2OwvFrEMTJguCHaoeK1t8URWbuGJSstw-cM".to_string(),
        state: "6f1a2b3c-4d5e-4f60-8a7b-9c0d1e2f3a4b".to_string(),
        nonce: "0f1a2b3c-4d5e-4f60-8a7b-9c0d1e2f3a4b".to_string(),
    }
}

fn discovery() -> OidcDiscovery {
    OidcDiscovery {
        authorization_endpoint: "https://idp.example/authorize?tenant=t&state=theirs".to_string(),
        token_endpoint: "https://idp.example/token".to_string(),
    }
}

fn login(no_browser: bool) -> OidcLogin {
    OidcLogin::begin(
        "oidc://idp.example/t/v2.0?client_id=client-1&scope=openid%20email",
        "lore.example",
        no_browser,
    )
    .unwrap()
}

#[test]
fn pkce_challenge_matches_rfc7636_vector() {
    let verifier = "dBjftJeZ4CVP-mB92K27uhbUJU1p1r_wW1gFWFOEjXk";
    assert_eq!(
        pkce_challenge(verifier),
        "E9Melhoa2OwvFrEMTJguCHaoeK1t8URWbuGJSstw-cM"
    );
}

#[test]
fn pkce_challenge_of_nothing_is_the_hash_of_nothing() {
    assert_eq!(
        pkce_challenge(""),
        "47DEQpj8HBSa-_TImW-5JCeuQeRkm5NMpJWZG3hSuFU"
    );
}

#[test]
fn generated_verifier_has_valid_length_and_alphabet() {
    let (verifier, challenge) = generate_pkce();
    assert!((43..=128).contains(&verifier.len()));
    assert!(verifier
        .bytes()
        .all(|b| VERIFIER_ALPHABET.as_bytes().contains(&b)));
    assert_eq!(challenge, pkce_challenge(&verifier));
}

#[test]
fn verifier_spells_the_drawn_characters() {
    assert_eq!(verifier_from(&vec![0, 25, 26, 51, 52, 61, 62, 65]), "AZaz09-~");
}

#[test]
fn generated_secrets_are_fresh() {
    let one = LoginSecrets::generate();
    let other = LoginSecrets::generate();
    assert_eq!(one.verifier.len(), 64);
    assert_eq!(one.challenge, pkce_challenge(&one.verifier));
    assert_eq!(one.state.len(), 36);
    assert_eq!(one.nonce.as_bytes()[14], b'4');
    assert_ne!(one.state, other.state);
    assert_ne!(one.verifier, other.verifier);
}

#[test]
fn parse_auth_url_extracts_issuer_and_params() {
    let config = parse_auth_url(
        "oidc://login.microsoftonline.com/tenant-id/v2.0?client_id=abc123&scope=openid%20profile%20offline_access",
    )
    .unwrap();
    assert_eq!(
        config.issuer,
        "https://login.microsoftonline.com/tenant-id/v2.0"
    );
    assert_eq!(config.client_id, "abc123");
    assert_eq!(config.scope, "openid profile offline_access");
}

#[test]
fn parse_auth_url_defaults_scope_and_requires_client_id() {
    let config = parse_auth_url("oidc://login.microsoftonline.com/t/v2.0?client_id=x").unwrap();
    assert_eq!(config.scope, "openid profile");

    assert!(parse_auth_url("oidc://login.microsoftonline.com/t/v2.0").is_err());
}

#[test]
fn parse_auth_url_names_what_is_wrong() {
    let message = |url: &str| internal(parse_auth_url(url).unwrap_err());
    assert_eq!(message("no url at all"), "parsing oidc auth URL");
    assert_eq!(message("oidc:opaque?client_id=x"), "oidc auth URL has no host");
    assert_eq!(
        message("oidc://host/path"),
        "oidc auth URL is missing the `client_id` parameter"
    );
}

#[test]
fn config_keeps_the_port_and_drops_slashes_and_earlier_parameters() {
    let parts = UrlParts {
        scheme: "oidc".to_string(),
        username: String::new(),
        password: None,
        host: Some("idp.example".to_string()),
        port: Some(8443),
        path: "/realm//".to_string(),
        query: vec![
            ("client_id".to_string(), "first".to_string()),
            ("client_id".to_string(), "last".to_string()),
        ],
        fragment: None,
    };
    let config = config_from(&parts).unwrap();
    assert_eq!(config.issuer, "https://idp.example:8443/realm");
    assert_eq!(config.client_id, "last");
    assert_eq!(config.scope, "openid profile");
    assert_eq!(
        discovery_url_of(&config.issuer),
        "https://idp.example:8443/realm/.well-known/openid-configuration"
    );
}

#[test]
fn build_authorize_url_includes_pkce_and_state() {
    let url = build_authorize_url(
        "https://login.microsoftonline.com/t/oauth2/v2.0/authorize",
        "client-123",
        "http://127.0.0.1:5000/",
        "openid profile",
        "state-xyz",
        "nonce-abc",
        "challenge-987",
    )
    .unwrap();
    assert!(url.contains("client_id=client-123"));
    assert!(url.contains("response_type=code"));
    assert!(url.contains("code_challenge=challenge-987"));
    assert!(url.contains("code_challenge_method=S256"));
    assert!(url.contains("state=state-xyz"));
    assert!(url.contains("redirect_uri=http%3A%2F%2F127.0.0.1%3A5000%2F"));
}

#[test]
fn build_authorize_url_is_exact() {
    let url = build_authorize_url(
        "https://idp.example/authorize?tenant=t",
        "c",
        "http://127.0.0.1:1/",
        "openid profile",
        "s",
        "n",
        "h",
    )
    .unwrap();
    assert_eq!(
        url,
        "https://idp.example/authorize?tenant=t&client_id=c&response_type=code\
         &redirect_uri=http%3A%2F%2F127.0.0.1%3A1%2F&response_mode=query&scope=openid+profile\
         &state=s&nonce=n&code_challenge=h&code_challenge_method=S256"
    );
    let error = build_authorize_url("nowhere", "c", "r", "s", "s", "n", "h").unwrap_err();
    assert_eq!(internal(error), "parsing authorization endpoint");
}

#[test]
fn build_authorize_url_leads_to_the_endpoint() {
    let url = build_authorize_url(
        "https://user:pw@idp.example:8443/a/b?tenant=t#part",
        "c",
        "r",
        "openid",
        "s",
        "n",
        "h",
    )
    .unwrap();
    assert!(url.starts_with("https://user:pw@idp.example:8443/a/b?tenant=t&client_id=c&"));
    assert!(url.ends_with("&code_challenge_method=S256#part"));
}

#[test]
fn build_authorize_url_keeps_the_path_of_a_file() {
    let url = |endpoint: &str| build_authorize_url(endpoint, "c", "r", "o", "s", "n", "h").unwrap();
    assert!(url("file:///a").starts_with("file:///a?client_id=c&"));
    assert!(url("file:///C:/a").starts_with("file:///C:/a?client_id=c&"));
    assert!(url("file://host/a/b#f").starts_with("file://host/a/b?client_id=c&"));
    assert!(url("file://host/a/b#f").ends_with("&code_challenge_method=S256#f"));
}

/// The host and the path of the endpoint, and those that the authorization URL has when it is read.
fn locations(endpoint: &str) -> [(Option<String>, String); 2] {
    let built = build_authorize_url(endpoint, "c", "r", "o", "s", "n", "h").unwrap();
    [endpoint, built.as_str()].map(|text| {
        let url = url::Url::parse(text).unwrap();
        assert_eq!(url.scheme(), "file");
        (url.host_str().map(|host| host.to_string()), url.path().to_string())
    })
}

#[test]
fn a_settled_file_url_is_read_as_it_was() {
    for endpoint in [
        "file:///",
        "file:?q=1#f",
        "file:///a//b/../c/./d",
        "file:////a",
        "file:C:/a",
        "file:///C|/a",
        "file:////C:/..",
        "file://host",
        "file://host/C:/a",
        "file://host//a/C:/b",
        "file://localhost/a b",
        "file://[::1]/%2e%2E/a",
    ] {
        let [before, after] = locations(endpoint);
        assert_eq!(before, after, "{endpoint}");
    }
}

#[test]
fn an_unsettled_file_url_is_read_in_another_way() {
    let [before, after] = locations("file://host//C:/a");
    assert_eq!(before, (Some("host".to_string()), "/C:/a".to_string()));
    assert_eq!(after, (None, "/C:/a".to_string()));
    let [before, after] = locations("file:C:\t..");
    assert_eq!(before.1, "/C:/..");
    assert_eq!(after.1, "/C:/");
}

#[test]
fn build_authorize_url_encodes_what_its_arguments_hold() {
    let url = build_authorize_url("https://idp.example/a", "a&b=c#d%20", "r", "o", "s", "n", "h");
    assert!(url.unwrap().starts_with("https://idp.example/a?client_id=a%26b%3Dc%23d%2520&"));
}

#[test]
fn parse_redirect_request_extracts_code_and_state() {
    let line = "GET /?code=AUTH_CODE_123&state=state-xyz HTTP/1.1";
    let (code, state) = parse_redirect_request(line).unwrap();
    assert_eq!(code, "AUTH_CODE_123");
    assert_eq!(state, "state-xyz");

    assert!(parse_redirect_request("GET /favicon.ico HTTP/1.1").is_none());
}

#[test]
fn parse_redirect_request_decodes_and_needs_a_target() {
    let (code, state) = parse_redirect_request("GET /?state=a%20b&code=c%2Fd HTTP/1.1").unwrap();
    assert_eq!(code, "c/d");
    assert_eq!(state, "a b");
    assert!(parse_redirect_request("GET").is_none());
    assert!(parse_redirect_request("").is_none());
    assert!(parse_redirect_request("GET /?code=only HTTP/1.1").is_none());
}

#[test]
fn redirects_are_told_apart() {
    let good = "GET /?code=c&state=s HTTP/1.1\r\nHost: x\r\n\r\n";
    match read_redirect(good, "s") {
        RedirectReading::Code(code) => assert_eq!(code, "c"),
        other => panic!("unexpected reading: {other:?}"),
    }
    assert!(matches!(read_redirect(good, "t"), RedirectReading::StateMismatch));
    assert!(matches!(read_redirect("GET / HTTP/1.1", "s"), RedirectReading::Nothing));
}

#[test]
fn the_answer_page_is_framed() {
    let response = redirect_response(&RedirectReading::Code("c".to_string()));
    let (head, body) = response.split_once("\r\n\r\n").unwrap();
    assert!(head.starts_with("HTTP/1.1 200 OK\r\n"));
    assert!(head.contains(&format!("Content-Length: {}", body.len())));
    assert!(body.contains("Sign-in complete"));
}

#[test]
fn a_login_goes_through_its_stages() {
    let login = login(false);
    assert_eq!(
        login.discovery_url(),
        "https://idp.example/t/v2.0/.well-known/openid-configuration"
    );
    let waiting = login.authorize(discovery(), 5000, secrets()).unwrap();
    let url = match waiting.present() {
        UrlPresentation::OpenBrowser(url) => url,
        other => panic!("unexpected presentation: {other:?}"),
    };
    // The parameters of the login come behind those of the endpoint, and override them.
    let parsed = url::Url::parse(&url).unwrap();
    let last = |name: &str| {
        parsed
            .query_pairs()
            .filter(|(key, _)| key == name)
            .last()
            .map(|(_, value)| value.into_owned())
    };
    assert_eq!(last("tenant").as_deref(), Some("t"));
    assert_eq!(last("state").as_deref(), Some("6f1a2b3c-4d5e-4f60-8a7b-9c0d1e2f3a4b"));
    assert_eq!(last("scope").as_deref(), Some("openid email"));
    let challenge = last("code_challenge").unwrap();

    let (response, step) = waiting.on_connection(b"GET /favicon.ico HTTP/1.1\r\n\r\n");
    assert!(response.starts_with("HTTP/1.1 200 OK"));
    let waiting = match step {
        RedirectStep::Waiting(next) => next,
        _ => panic!("expected to go on waiting"),
    };
    assert_eq!(waiting.connections_left, 9);

    let request = "GET /?code=the-code&state=6f1a2b3c-4d5e-4f60-8a7b-9c0d1e2f3a4b HTTP/1.1\r\n\r\n";
    let exchange = match waiting.on_connection(request.as_bytes()).1 {
        RedirectStep::Exchange(exchange) => exchange,
        _ => panic!("expected an exchange"),
    };
    assert_eq!(exchange.token_endpoint, "https://idp.example/token");
    let field = |name: &str| {
        exchange
            .form
            .iter()
            .find(|(key, _)| key == name)
            .map(|(_, value)| value.clone())
            .unwrap()
    };
    assert_eq!(field("grant_type"), "authorization_code");
    assert_eq!(field("code"), "the-code");
    assert_eq!(Some(field("redirect_uri")), last("redirect_uri"));
    assert_eq!(Some(field("client_id")), last("client_id"));
    assert_eq!(pkce_challenge(&field("code_verifier")), challenge);

    let token = exchange
        .on_token_response(TokenResponse {
            id_token: Some("header.payload.signature".to_string()),
            refresh_token: None,
        })
        .unwrap();
    let user = UserInfo {
        id: "user-1".to_string(),
        name: "User".to_string(),
        preferred_username: "user".to_string(),
        token: "header.payload.signature".to_string(),
        is_service_account: false,
        expires: 7,
    };
    let (store, info) = token.on_decoded(Some(user)).unwrap();
    assert_eq!(info.id, "user-1");
    assert_eq!(store.user_id, "user-1");
    assert_eq!(store.token, "header.payload.signature");
    assert_eq!(store.domains, vec!["lore.example".to_string()]);
    assert_eq!(
        store.auth_url,
        "oidc://idp.example/t/v2.0?client_id=client-1&scope=openid%20email"
    );
}

#[test]
fn a_headless_login_emits_the_url() {
    let waiting = login(true).on_discovery(discovery(), 5000).unwrap();
    match waiting.present() {
        UrlPresentation::EmitEvent(url) => assert_eq!(url, waiting.authorize_url),
        other => panic!("unexpected presentation: {other:?}"),
    }
    assert_eq!(redirect_uri_for(5000), "http://127.0.0.1:5000/");
}

#[test]
fn a_forged_redirect_ends_the_login() {
    let waiting = login(false).authorize(discovery(), 5000, secrets()).unwrap();
    let (_, step) = waiting.on_connection(b"GET /?code=c&state=forged HTTP/1.1\r\n\r\n");
    match step {
        RedirectStep::Failed(error) => assert_eq!(
            internal(error),
            "OIDC redirect state mismatch (possible CSRF)"
        ),
        _ => panic!("expected a failure"),
    }
}

#[test]
fn idle_connections_run_out() {
    let mut waiting = login(false).authorize(discovery(), 5000, secrets()).unwrap();
    for left in (1..10).rev() {
        waiting = match waiting.on_request("").1 {
            RedirectStep::Waiting(next) => next,
            _ => panic!("expected to go on waiting"),
        };
        assert_eq!(waiting.connections_left, left);
    }
    match waiting.on_request("").1 {
        RedirectStep::Failed(error) => {
            assert_eq!(internal(error), "gave up waiting for the OIDC redirect")
        }
        _ => panic!("expected a failure"),
    }
}

#[test]
fn undecodable_bytes_do_not_stop_the_listener() {
    let waiting = login(false).authorize(discovery(), 5000, secrets()).unwrap();
    let (_, step) = waiting.on_connection(&[0xff, 0xfe, b' ', 0x80]);
    assert!(matches!(step, RedirectStep::Waiting(_)));
}

#[test]
fn a_token_response_without_a_token_fails() {
    let waiting = login(false).authorize(discovery(), 5000, secrets()).unwrap();
    let request = "GET /?code=c&state=6f1a2b3c-4d5e-4f60-8a7b-9c0d1e2f3a4b HTTP/1.1";
    let exchange = match waiting.on_request(request).1 {
        RedirectStep::Exchange(exchange) => exchange,
        _ => panic!("expected an exchange"),
    };
    let again = exchange.clone();
    let error = exchange
        .on_token_response(TokenResponse { id_token: None, refresh_token: None })
        .unwrap_err();
    assert_eq!(internal(error), "OIDC token response had no id_token");
    let token = again
        .on_token_response(TokenResponse {
            id_token: Some("garbage".to_string()),
            refresh_token: None,
        })
        .unwrap();
    assert_eq!(
        internal(token.on_decoded(None).unwrap_err()),
        "OIDC id_token could not be decoded"
    );
}

#[test]
fn login_errors_have_their_classes() {
    assert_eq!(InteractiveLoginError::Disconnected.translated(), LoreError::Connection);
    assert_eq!(InteractiveLoginError::SlowDown.translated(), LoreError::SlowDown);
    assert_eq!(InteractiveLoginError::Oversized.translated(), LoreError::Oversized);
    assert_eq!(InteractiveLoginError::NotFound.translated(), LoreError::NotFound);
    assert_eq!(InteractiveLoginError::NotAuthorized.translated(), LoreError::Internal);
    assert_eq!(InteractiveLoginError::internal("x").translated(), LoreError::Internal);
}
