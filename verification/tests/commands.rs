use lore_auth::credentials::UserInfo;
use lore_auth::errors::{AuthStoreError, LoreError};
use lore_auth::session::{
    choose_users, clear, list, local_user_info, login_interactive, login_with_token, logout,
    on_server_auth_url, on_stored_identities, resolve_auth_endpoint, resolve_user_info,
    send_user_info, AuthEvent, EndpointStep, LoreAuthClearArgs, LoreAuthListArgs,
    LoreAuthLocalUserInfoArgs, LoreAuthLoginInteractiveArgs, LoreAuthLoginWithTokenArgs,
    LoreAuthLogoutArgs, LoreAuthUserInfoArgs, ResolvedUser, StoredIdentity, TokenRemoval,
    UserInfoRoute,
};

fn text(s: &str) -> String {
    s.to_string()
}

fn user(preferred: &str, name: &str) -> UserInfo {
    UserInfo {
        id: text("id-1"),
        name: text(name),
        preferred_username: text(preferred),
        token: text("token"),
        is_service_account: true,
        expires: 99,
    }
}

fn identity(auth_url: &str, resource: &str) -> StoredIdentity {
    StoredIdentity {
        auth_url: text(auth_url),
        resource: text(resource),
        user_id: text("id-1"),
        acceptable_root_domains: vec![text("a.example"), text("b.example")],
        expires_ms: 12,
        token: text("token"),
    }
}

fn store_message(error: AuthStoreError) -> String {
    match error {
        AuthStoreError::Internal(message) => message,
        other => panic!("unexpected error: {other:?}"),
    }
}

#[test]
fn users_are_resolved_remotely_where_they_are_named() {
    match resolve_user_info(LoreAuthUserInfoArgs { user_ids: vec![text("u")] }) {
        UserInfoRoute::Remote(ids) => assert_eq!(ids, vec![text("u")]),
        other => panic!("unexpected route: {other:?}"),
    }
    match resolve_user_info(LoreAuthUserInfoArgs { user_ids: vec![] }) {
        UserInfoRoute::Local(args) => {
            assert_eq!(args.auth_endpoint, "");
            assert!(args.wants_current_user());
            assert_eq!(args.with_token, 0);
        }
        other => panic!("unexpected route: {other:?}"),
    }
}

#[test]
fn the_best_name_is_shown() {
    let shown = |info: UserInfo| match send_user_info(info) {
        AuthEvent::UserInfo { id, name } => (id, name),
        other => panic!("unexpected event: {other:?}"),
    };
    assert_eq!(shown(user("nick", "Full Name")), (text("id-1"), text("nick")));
    assert_eq!(shown(user("", "Full Name")), (text("id-1"), text("Full Name")));
    assert_eq!(shown(user("", "")), (text("id-1"), text("id-1")));
}

#[test]
fn a_login_goes_to_the_given_server_or_that_of_the_repository() {
    let args = |remote: &str, auth: &str| LoreAuthLoginWithTokenArgs {
        remote_url: text(remote),
        token: text("t"),
        token_type: text("lore"),
        auth_url: text(auth),
    };
    let request = login_with_token(args("lore://given", ""), Some(text("lore://configured")));
    assert_eq!(request.remote_url, "lore://given");
    assert_eq!(request.auth_url, None);
    let request = login_with_token(args("", "ucs-auth://a"), Some(text("lore://configured")));
    assert_eq!(request.remote_url, "lore://configured");
    assert_eq!(request.auth_url.as_deref(), Some("ucs-auth://a"));
    assert_eq!(login_with_token(args("", ""), None).remote_url, "");
    let request = login_interactive(
        LoreAuthLoginInteractiveArgs { remote_url: text(""), no_browser: 2 },
        Some(text("lore://configured")),
    );
    assert_eq!(request.remote_url, "lore://configured");
    assert!(request.no_browser);
}

#[test]
fn identities_are_listed_with_their_domains() {
    assert!(LoreAuthListArgs { with_token: 1 }.include_token());
    assert!(!LoreAuthListArgs { with_token: 0 }.include_token());
    let events = list(&vec![identity("ucs-auth://a", ""), identity("ucs-auth://a", "urc-1")]);
    assert_eq!(events.len(), 2);
    match &events[1] {
        AuthEvent::Identity { auth_url, resource, user_id, authorized_domains, expires, token } => {
            assert_eq!(auth_url, "ucs-auth://a");
            assert_eq!(resource, "urc-1");
            assert_eq!(user_id, "id-1");
            assert_eq!(authorized_domains, "a.example, b.example");
            assert_eq!(*expires, 12);
            assert_eq!(token, "token");
        }
        other => panic!("unexpected event: {other:?}"),
    }
}

#[test]
fn a_logout_removes_what_it_names() {
    let args = |user: &str, resource: &str| LoreAuthLogoutArgs {
        auth_url: text(""),
        resource: text(resource),
        user_id: text(user),
    };
    match logout(args("", "urc-1"), text("ucs-auth://a")) {
        TokenRemoval::AllUsers { auth_url } => assert_eq!(auth_url, "ucs-auth://a"),
        other => panic!("unexpected removal: {other:?}"),
    }
    match logout(args("u", ""), text("ucs-auth://a")) {
        TokenRemoval::User { auth_url, user_id } => {
            assert_eq!((auth_url.as_str(), user_id.as_str()), ("ucs-auth://a", "u"))
        }
        other => panic!("unexpected removal: {other:?}"),
    }
    match logout(args("u", "urc-1"), text("ucs-auth://a")) {
        TokenRemoval::Resource { store_key, user_id } => {
            assert_eq!((store_key.as_str(), user_id.as_str()), ("ucs-auth://a/urc-1", "u"))
        }
        other => panic!("unexpected removal: {other:?}"),
    }
    assert!(matches!(clear(LoreAuthClearArgs {}), TokenRemoval::Everything));
}

#[test]
fn the_auth_endpoint_is_looked_for_step_by_step() {
    match resolve_auth_endpoint("ucs-auth://given") {
        EndpointStep::Resolved(url) => assert_eq!(url, "ucs-auth://given"),
        other => panic!("unexpected step: {other:?}"),
    }
    assert!(matches!(resolve_auth_endpoint(""), EndpointStep::AskServer));
    match on_server_auth_url(Some(text("ucs-auth://server"))) {
        EndpointStep::Resolved(url) => assert_eq!(url, "ucs-auth://server"),
        other => panic!("unexpected step: {other:?}"),
    }
    assert!(matches!(on_server_auth_url(Some(text(""))), EndpointStep::AskTokenStore));
    assert!(matches!(on_server_auth_url(None), EndpointStep::AskTokenStore));
}

#[test]
fn a_stored_endpoint_has_to_be_the_only_one() {
    let same = vec![
        identity("ucs-auth://other", "urc-1"),
        identity("ucs-auth://a", ""),
        identity("ucs-auth://a", ""),
    ];
    assert_eq!(on_stored_identities(Some(&same)).unwrap(), "ucs-auth://a");
    let different = vec![identity("ucs-auth://b", ""), identity("ucs-auth://a", "")];
    assert_eq!(
        store_message(on_stored_identities(Some(&different)).unwrap_err()),
        "Multiple auth endpoints stored; run inside a repository or pass an explicit auth URL"
    );
    let none = vec![identity("ucs-auth://other", "urc-1")];
    assert_eq!(
        store_message(on_stored_identities(Some(&none)).unwrap_err()),
        "No auth endpoint available"
    );
    assert_eq!(
        store_message(on_stored_identities(None).unwrap_err()),
        "No auth endpoint available"
    );
    assert_eq!(AuthStoreError::TokenNotFound.translated(), LoreError::Internal);
}

#[test]
fn the_current_user_is_the_first_stored_one() {
    let stored = vec![text("first"), text("second")];
    assert_eq!(choose_users(vec![], &stored), vec![text("first")]);
    assert_eq!(choose_users(vec![text("x"), text("y")], &stored), vec![text("x"), text("y")]);
    assert!(choose_users(vec![], &vec![]).is_empty());
    let args = LoreAuthLocalUserInfoArgs {
        auth_endpoint: text(""),
        user_ids: vec![text("x")],
        with_token: 0,
    };
    assert!(!args.wants_current_user());
}

#[test]
fn tokens_are_shown_only_where_asked_for() {
    let resolved = vec![
        ResolvedUser {
            id: text("id-1"),
            name: text("shown"),
            local_user_info: Some(user("nick", "Full Name")),
        },
        ResolvedUser { id: text("id-2"), name: text("id-2"), local_user_info: None },
    ];
    let events = local_user_info(&resolved, 1);
    match &events[0] {
        AuthEvent::UserToken {
            id,
            name,
            token,
            preferred_username,
            flag_service_account,
            expires,
        } => {
            assert_eq!((id.as_str(), name.as_str()), ("id-1", "Full Name"));
            assert_eq!((token.as_str(), preferred_username.as_str()), ("token", "nick"));
            assert_eq!((*flag_service_account, *expires), (1, 99));
        }
        other => panic!("unexpected event: {other:?}"),
    }
    assert!(matches!(&events[1], AuthEvent::UserInfo { id, .. } if id == "id-2"));
    let events = local_user_info(&resolved, 0);
    assert!(events.iter().all(|event| matches!(event, AuthEvent::UserInfo { .. })));
}
