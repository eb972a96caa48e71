use lore_auth::authentication::AuthenticationRegistry;
use lore_auth::credentials::UserInfo;
use lore_auth::errors::{InteractiveLoginError, LoginError, LoreError};
use lore_auth::login::{
    interactive, logged_in, with_token, AuthenticationToken, DecodedToken, InteractivePoll,
    InteractiveStart, PollStep, TokenLogin, TokenLoginStart, POLLING_MAX_RETRIES,
};
use lore_auth::oidc::UrlPresentation;
use std::sync::Arc;

fn message(error: LoginError) -> String {
    match error {
        LoginError::Internal(message) => message,
        other => panic!("unexpected error: {other:?}"),
    }
}

fn interactive_message(error: InteractiveLoginError) -> String {
    match error {
        InteractiveLoginError::Internal(message) => message,
        other => panic!("unexpected error: {other:?}"),
    }
}

fn user() -> UserInfo {
    UserInfo {
        id: "user-1".to_string(),
        name: "User".to_string(),
        preferred_username: String::new(),
        token: "token".to_string(),
        is_service_account: false,
        expires: 0,
    }
}

fn decoded<E>(usage: Result<(), E>) -> Option<DecodedToken<E>> {
    Some(DecodedToken { domains: vec!["lore.example".to_string()], usage })
}

fn authn() -> AuthenticationToken {
    AuthenticationToken {
        user_id: "user-2".to_string(),
        token: "exchanged".to_string(),
        refresh_token: Some("refresh".to_string()),
    }
}

fn token_login(token_type: &str) -> TokenLogin {
    match with_token("token", token_type, Some("ucs-auth://auth.example")).unwrap() {
        TokenLoginStart::Resolved(login) => login,
        other => panic!("unexpected start: {other:?}"),
    }
}

#[test]
fn an_explicit_auth_url_stands_for_the_server() {
    let login = token_login("lore");
    assert_eq!(login.auth_url, "ucs-auth://auth.example");
    assert_eq!(login.recipient_url, "ucs-auth://auth.example");
    assert!(login.direct());
    assert!(!token_login("eg1").direct());
}

#[test]
fn an_explicit_auth_url_has_to_be_a_url() {
    let error = with_token("token", "lore", Some("auth.example")).unwrap_err();
    assert_eq!(message(error), "parsing explicit auth URL");
}

#[test]
fn without_an_explicit_auth_url_the_environment_is_asked() {
    let pending = match with_token("token", "lore", None).unwrap() {
        TokenLoginStart::ResolveEnvironment(pending) => pending,
        other => panic!("unexpected start: {other:?}"),
    };
    let login = pending.on_environment("lore://lore.example".to_string(), None);
    assert_eq!(login.auth_url, "");
    assert_eq!(login.recipient_url, "lore://lore.example");
    assert_eq!(login.token, "token");
}

#[test]
fn a_direct_token_is_checked_and_stored() {
    let (store, info) = token_login("lore").on_decoded(decoded(Ok(())), Some(user())).unwrap();
    assert_eq!(info.id, "user-1");
    assert_eq!(store.auth_url, "ucs-auth://auth.example");
    assert_eq!(store.user_id, "user-1");
    assert_eq!(store.token, "token");
    assert_eq!(store.domains, vec!["lore.example".to_string()]);
    assert_eq!(store.refresh_token, None);
    let error = token_login("lore").on_decoded(None, None).unwrap_err();
    assert_eq!(message(error), "decoding token");
    let error = token_login("lore")
        .on_decoded(decoded(Err(LoginError::NotAuthorized)), None)
        .unwrap_err();
    assert!(matches!(error, LoginError::NotAuthorized));
    let error = token_login("lore").on_decoded(decoded(Ok(())), None).unwrap_err();
    assert_eq!(message(error), "Invalid token");
}

#[test]
fn an_exchanged_token_is_checked_and_stored() {
    let (store, info) = token_login("eg1")
        .on_exchanged(authn(), Some(user()), decoded(Ok(())))
        .unwrap();
    assert_eq!(info.id, "user-1");
    assert_eq!(store.user_id, "user-1");
    assert_eq!(store.token, "exchanged");
    assert_eq!(store.refresh_token.as_deref(), Some("refresh"));
    let error = token_login("eg1").on_exchanged(authn(), None, None).unwrap_err();
    assert_eq!(message(error), "Invalid token");
    let error = token_login("eg1").on_exchanged(authn(), Some(user()), None).unwrap_err();
    assert_eq!(message(error), "decoding token");
    let error = token_login("eg1")
        .on_exchanged(authn(), Some(user()), decoded(Err(LoginError::NotSupported)))
        .unwrap_err();
    assert!(matches!(error, LoginError::NotSupported));
}

#[test]
fn the_exchange_is_made_by_the_scheme_of_the_auth_url() {
    let mut registry = AuthenticationRegistry::new(Arc::new("builtin"));
    assert_eq!(*token_login("eg1").exchanger(&mut registry).unwrap(), "builtin");
    let mut other = token_login("eg1");
    other.auth_url = "unknown://x".to_string();
    let error = other.exchanger(&mut registry).unwrap_err();
    assert_eq!(message(error), "finding authentication handler");
}

fn start(auth_url: Option<&str>) -> Result<InteractiveStart<&'static str>, InteractiveLoginError> {
    let mut registry = AuthenticationRegistry::new(Arc::new("builtin"));
    interactive(auth_url.map(|url| url.to_string()), true, &mut registry)
}

fn failed(auth_url: Option<&str>) -> String {
    match start(auth_url) {
        Ok(_) => panic!("expected a failure"),
        Err(error) => interactive_message(error),
    }
}

#[test]
fn a_server_without_authentication_is_not_logged_in_to() {
    assert_eq!(failed(None), "No authentication configured on server");
    assert_eq!(failed(Some("")), "No authentication configured on server");
    assert_eq!(failed(Some("unknown://x")), "finding authentication handler");
    assert_eq!(failed(Some("no scheme")), "finding authentication handler");
}

#[test]
fn openid_connect_goes_its_own_way() {
    match start(Some("oidc://idp.example/t?client_id=c")) {
        Ok(InteractiveStart::OpenIdConnect(url)) => {
            assert_eq!(url, "oidc://idp.example/t?client_id=c")
        }
        _ => panic!("expected the OpenID Connect flow"),
    }
}

fn poll() -> InteractivePoll {
    match start(Some("https://auth.example")) {
        Ok(InteractiveStart::Session(login, auth)) => {
            assert_eq!(*auth, "builtin");
            assert_eq!(login.client_state.len(), 36);
            let (presentation, poll) =
                login.on_session("https://auth.example/login".to_string(), "code".to_string());
            match presentation {
                UrlPresentation::EmitEvent(url) => assert_eq!(url, "https://auth.example/login"),
                other => panic!("unexpected presentation: {other:?}"),
            }
            poll
        }
        _ => panic!("expected a session"),
    }
}

#[test]
fn a_session_is_polled_until_it_has_a_token() {
    let poll = match poll().on_poll(None) {
        PollStep::Wait(next) => next,
        other => panic!("unexpected step: {other:?}"),
    };
    assert_eq!(poll.session_code, "code");
    let token = match poll.on_poll(Some(authn())) {
        PollStep::Received(token) => token,
        other => panic!("unexpected step: {other:?}"),
    };
    let store = token.on_decoded(decoded(Ok(()))).unwrap();
    assert_eq!(store.auth_url, "https://auth.example");
    assert_eq!(store.user_id, "user-2");
    assert_eq!(store.token, "exchanged");
    assert_eq!(store.refresh_token.as_deref(), Some("refresh"));
}

#[test]
fn a_session_without_a_token_times_out() {
    let mut poll = poll();
    let mut polls: u64 = 1;
    loop {
        match poll.on_poll(None) {
            PollStep::Wait(next) => {
                poll = next;
                polls += 1;
            }
            PollStep::GiveUp(error) => {
                assert_eq!(interactive_message(error), "Timeout");
                break;
            }
            other => panic!("unexpected step: {other:?}"),
        }
    }
    assert_eq!(polls, 30);
    assert_eq!(polls, POLLING_MAX_RETRIES);
}

#[test]
fn a_token_for_another_server_is_not_stored() {
    let token = || match poll().on_poll(Some(authn())) {
        PollStep::Received(token) => token,
        other => panic!("unexpected step: {other:?}"),
    };
    let error = token()
        .on_decoded(decoded(Err(InteractiveLoginError::NotAuthorized)))
        .unwrap_err();
    assert!(matches!(error, InteractiveLoginError::NotAuthorized));
    let error = token().on_decoded(None).unwrap_err();
    assert_eq!(interactive_message(error), "decoding token");
}

#[test]
fn a_login_ends_with_its_user() {
    assert_eq!(logged_in(Some(user())).unwrap().id, "user-1");
    assert_eq!(
        interactive_message(logged_in(None).unwrap_err()),
        "Unable to load user info"
    );
}

#[test]
fn token_login_errors_have_their_classes() {
    assert_eq!(LoginError::Disconnected.translated(), LoreError::Connection);
    assert_eq!(LoginError::SlowDown.translated(), LoreError::SlowDown);
    assert_eq!(LoginError::Oversized.translated(), LoreError::Oversized);
    assert_eq!(LoginError::NotFound.translated(), LoreError::NotFound);
    assert_eq!(LoginError::Maintenance.translated(), LoreError::Internal);
    assert_eq!(LoginError::internal("x").translated(), LoreError::Internal);
}
