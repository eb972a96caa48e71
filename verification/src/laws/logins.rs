//! What holds of logins, stated of the calls that they are made of.
use crate::authentication::{self, AuthenticationRegistry, ProtocolError};
use crate::credentials::{StoreToken, UserInfo};
use crate::errors::{AuthStoreError, InteractiveLoginError, LoginError, LoreError};
use crate::keyed;
use crate::laws::texts;
use crate::login::{
    self, AuthenticationToken, DecodedToken, InteractiveLogin, InteractivePoll, InteractiveStart,
    InteractiveToken, PendingTokenLogin, PollStep, TokenLogin, TokenLoginStart,
};
use crate::oidc::UrlPresentation;
use crate::text;
use crate::urls;
use std::sync::Arc;
use vstd::prelude::*;

verus! {

/// The error is an internal one with this message.
pub open spec fn is_internal(error: LoginError, message: Seq<char>) -> bool {
    error matches LoginError::Internal(text) && text@ == message
}

/// The error of an interactive login is an internal one with this message.
pub open spec fn fails_internally(error: InteractiveLoginError, message: Seq<char>) -> bool {
    error matches InteractiveLoginError::Internal(text) && text@ == message
}

/// The error classes that events report: four kinds of errors have one of their own.
pub proof fn law_errors_are_reported_by_class(
    login: LoginError,
    login_class: LoreError,
    interactive: InteractiveLoginError,
    interactive_class: LoreError,
    store: AuthStoreError,
    store_class: LoreError,
)
    requires
        call_ensures(LoginError::translated, (&login,), login_class),
        call_ensures(InteractiveLoginError::translated, (&interactive,), interactive_class),
        call_ensures(AuthStoreError::translated, (&store,), store_class),
    ensures
        login_class == LoreError::Connection <==> login is Disconnected,
        login_class == LoreError::SlowDown <==> login is SlowDown,
        login_class == LoreError::Oversized <==> login is Oversized,
        login_class == LoreError::NotFound <==> login is NotFound,
        interactive_class == LoreError::Connection <==> interactive is Disconnected,
        interactive_class == LoreError::SlowDown <==> interactive is SlowDown,
        interactive_class == LoreError::Oversized <==> interactive is Oversized,
        interactive_class == LoreError::NotFound <==> interactive is NotFound,
        store_class == LoreError::Internal,
{
}

/// A login with a token is directed by the explicit auth URL where there is one and it is a URL, and
/// otherwise by what the server advertises. The token goes on unchanged.
pub proof fn law_an_explicit_auth_url_counts(
    token: &str,
    token_type: &str,
    explicit: Option<&str>,
    is_url: bool,
    res: Result<TokenLoginStart, LoginError>,
)
    requires
        call_ensures(login::with_token_from, (token, token_type, explicit, is_url), res),
    ensures
        explicit is None ==> (res matches Ok(TokenLoginStart::ResolveEnvironment(pending))
            && pending.token@ == token@ && pending.token_type@ == token_type@),
        explicit is Some && is_url ==> (res matches Ok(TokenLoginStart::Resolved(login))
            && login.auth_url@ == explicit->0@ && login.recipient_url@ == explicit->0@
            && login.token@ == token@ && login.token_type@ == token_type@),
        explicit is Some && !is_url ==> (res matches Err(error) && is_internal(
            error,
            "parsing explicit auth URL"@,
        )),
{
}

/// The explicit auth URL is a URL where it can be parsed as one.
pub proof fn law_the_explicit_auth_url_is_parsed(
    token: &str,
    token_type: &str,
    url: &str,
    res: Result<TokenLoginStart, LoginError>,
    without: Result<TokenLoginStart, LoginError>,
)
    requires
        call_ensures(login::with_token, (token, token_type, Some(url)), res),
        call_ensures(login::with_token, (token, token_type, None), without),
    ensures
        match res {
            Ok(TokenLoginStart::Resolved(login)) => {
                &&& urls::url_parts_of(url@) is Some
                &&& login.auth_url@ == url@
                &&& login.recipient_url@ == url@
                &&& login.token@ == token@
                &&& login.token_type@ == token_type@
            },
            Ok(_) => false,
            Err(error) => urls::url_parts_of(url@) is None && is_internal(
                error,
                "parsing explicit auth URL"@,
            ),
        },
        without matches Ok(TokenLoginStart::ResolveEnvironment(pending)) && pending.token@
            == token@ && pending.token_type@ == token_type@,
{
}

/// A login without an explicit auth URL goes to the auth URL that the server advertises, if any, and
/// is for the server.
pub proof fn law_the_server_says_where_it_authenticates(
    pending: PendingTokenLogin,
    remote_url: String,
    advertised: Option<String>,
    res: TokenLogin,
)
    requires
        call_ensures(PendingTokenLogin::on_environment, (pending, remote_url, advertised), res),
    ensures
        advertised matches Some(url) ==> res.auth_url@ == url@,
        advertised is None ==> res.auth_url@.len() == 0,
        res.recipient_url@ == remote_url@,
        res.token@ == pending.token@,
        res.token_type@ == pending.token_type@,
{
}

/// Tokens of the type `lore`, and no others, are stored without an exchange.
pub proof fn law_only_lore_tokens_are_direct(login: TokenLogin, res: bool)
    requires
        call_ensures(TokenLogin::direct, (&login,), res),
    ensures
        res <==> login.token_type@ == "lore"@,
{
}

/// A token that is stored without an exchange is the one that was given, of the user whom it names,
/// for the domains that it names, and only where it may be used for the server.
pub proof fn law_a_direct_token_is_kept_where_it_is_good(
    login: TokenLogin,
    decoded: Option<DecodedToken<LoginError>>,
    user: Option<UserInfo>,
    res: Result<(StoreToken, UserInfo), LoginError>,
)
    requires
        call_ensures(TokenLogin::on_decoded, (login, decoded, user), res),
    ensures
        res is Ok <==> decoded is Some && decoded->0.usage is Ok && user is Some,
        res matches Ok((store, info)) ==> {
            &&& info == user->0
            &&& store.auth_url@ == login.auth_url@
            &&& store.user_id@ == user->0.id@
            &&& store.token@ == login.token@
            &&& store.domains@ == decoded->0.domains@
            &&& store.refresh_token is None
        },
        decoded is None ==> (res matches Err(error) && is_internal(error, "decoding token"@)),
        decoded is Some && decoded->0.usage is Err ==> (res matches Err(error) && error
            == decoded->0.usage->Err_0),
        decoded is Some && decoded->0.usage is Ok && user is None ==> (res matches Err(error)
            && is_internal(error, "Invalid token"@)),
{
}

/// A token that came of an exchange is kept in place of the one that was given, with the refresh token
/// that came with it, and only where it may be used for the server.
pub proof fn law_an_exchanged_token_is_kept_where_it_is_good(
    login: TokenLogin,
    authn: AuthenticationToken,
    user: Option<UserInfo>,
    decoded: Option<DecodedToken<LoginError>>,
    res: Result<(StoreToken, UserInfo), LoginError>,
)
    requires
        call_ensures(TokenLogin::on_exchanged, (login, authn, user, decoded), res),
    ensures
        res is Ok <==> decoded is Some && decoded->0.usage is Ok && user is Some,
        res matches Ok((store, info)) ==> {
            &&& info == user->0
            &&& store.auth_url@ == login.auth_url@
            &&& store.user_id@ == user->0.id@
            &&& store.token@ == authn.token@
            &&& store.domains@ == decoded->0.domains@
            &&& store.refresh_token == authn.refresh_token
        },
        user is None ==> (res matches Err(error) && is_internal(error, "Invalid token"@)),
        user is Some && decoded is None ==> (res matches Err(error) && is_internal(
            error,
            "decoding token"@,
        )),
        user is Some && decoded is Some && decoded->0.usage is Err ==> (res matches Err(error)
            && error == decoded->0.usage->Err_0),
{
}

/// The token of an interactive login is kept under the auth URL of the session, for the user whom the
/// service names, and only where it may be used for the server.
pub proof fn law_an_interactive_token_is_kept_where_it_is_good(
    token: InteractiveToken,
    decoded: Option<DecodedToken<InteractiveLoginError>>,
    res: Result<StoreToken, InteractiveLoginError>,
)
    requires
        call_ensures(InteractiveToken::on_decoded, (token, decoded), res),
    ensures
        res is Ok <==> decoded is Some && decoded->0.usage is Ok,
        res matches Ok(store) ==> {
            &&& store.auth_url@ == token.auth_url@
            &&& store.user_id@ == token.authn.user_id@
            &&& store.token@ == token.authn.token@
            &&& store.domains@ == decoded->0.domains@
            &&& store.refresh_token == token.authn.refresh_token
        },
        decoded is None ==> (res matches Err(error) && fails_internally(error, "decoding token"@)),
        decoded is Some && decoded->0.usage is Err ==> (res matches Err(error) && error
            == decoded->0.usage->Err_0),
{
}

/// A session is presented as the user asked for, and the service is then asked for the token of that
/// session up to thirty times.
pub proof fn law_a_session_is_presented_and_asked_about(
    login: InteractiveLogin,
    login_url: String,
    session_code: String,
    res: (UrlPresentation, InteractivePoll),
)
    requires
        call_ensures(InteractiveLogin::on_session, (login, login_url, session_code), res),
    ensures
        res.0 is EmitEvent <==> login.no_browser,
        match res.0 {
            UrlPresentation::EmitEvent(url) => url == login_url,
            UrlPresentation::OpenBrowser(url) => url == login_url,
        },
        res.1.auth_url == login.auth_url,
        res.1.client_state == login.client_state,
        res.1.session_code == session_code,
        res.1.polls_left == 30,
{
}

/// A token ends the asking; without one the service is asked once less often, and not any more when
/// that was the last time.
pub proof fn law_a_session_is_asked_until_it_has_a_token(
    poll: InteractivePoll,
    answer: Option<AuthenticationToken>,
    res: PollStep,
)
    requires
        call_ensures(InteractivePoll::on_poll, (poll, answer), res),
        poll.polls_left > 0,
    ensures
        match (answer, res) {
            (Some(authn), PollStep::Received(token)) => token.authn == authn && token.auth_url
                == poll.auth_url,
            (None, PollStep::Wait(next)) => {
                &&& next.polls_left + 1 == poll.polls_left
                &&& next.polls_left > 0
                &&& next.auth_url == poll.auth_url
                &&& next.client_state == poll.client_state
                &&& next.session_code == poll.session_code
            },
            (None, PollStep::GiveUp(error)) => poll.polls_left == 1 && fails_internally(
                error,
                "Timeout"@,
            ),
            _ => false,
        },
{
}

/// An interactive login ends with the user whom the token store knows.
pub proof fn law_the_login_ends_with_its_user(
    user: Option<UserInfo>,
    res: Result<UserInfo, InteractiveLoginError>,
)
    requires
        call_ensures(login::logged_in, (user,), res),
    ensures
        match res {
            Ok(info) => user == Some(info),
            Err(error) => user is None && fails_internally(error, "Unable to load user info"@),
        },
{
}

/// What stands before the first `://` of a URL.
pub open spec fn scheme_is(url: Seq<char>, scheme: Seq<char>) -> bool {
    &&& texts::stands(url, "://"@, scheme.len() as int)
    &&& url.subrange(0, scheme.len() as int) == scheme
    &&& forall|j: int| 0 <= j < scheme.len() ==> !#[trigger] texts::stands(url, "://"@, j)
}

proof fn lemma_scheme(url: Seq<char>)
    ensures
        match authentication::scheme_of(url) {
            Some(scheme) => scheme_is(url, scheme),
            None => forall|j: int| !#[trigger] texts::stands(url, "://"@, j),
        },
        forall|scheme: Seq<char>| #[trigger]
            scheme_is(url, scheme) ==> authentication::scheme_of(url) == Some(scheme),
{
    let sep = "://"@;
    text::lemma_find_from(url, sep, 0);
    assert forall|j: int| #[trigger] texts::stands(url, sep, j) == text::occurs_at(url, sep, j) by {}
    if let Some(i) = text::find_sub(url, sep) {
        assert(url.take(i) =~= url.subrange(0, i));
    }
    assert forall|scheme: Seq<char>| #[trigger] scheme_is(url, scheme) implies
        authentication::scheme_of(url) == Some(scheme) by {
        let n = scheme.len() as int;
        assert(text::occurs_at(url, sep, n));
        if let Some(i) = text::find_sub(url, sep) {
            if i < n {
                assert(texts::stands(url, sep, i));
            }
            assert(i == n);
            assert(url.take(i) =~= scheme);
        }
    }
}

/// The scheme of an auth URL is what stands before its first `://`.
pub proof fn law_schemes_are_parsed(url: &str, res: Result<&str, ProtocolError>)
    requires
        call_ensures(authentication::parse_scheme, (url,), res),
    ensures
        match res {
            Ok(scheme) => scheme_is(url@, scheme@),
            Err(error) => (forall|j: int| !#[trigger] texts::stands(url@, "://"@, j))
                && error.message@ == "invalid auth URL (missing scheme): '"@ + url@ + "'"@,
        },
{
    lemma_scheme(url@);
}

/// What was registered for a scheme is what is registered under it afterwards; all else stays.
pub proof fn law_a_registration_takes_its_scheme<A>(scheme: &str, auth: Arc<A>)
    ensures
        forall|registry: &mut AuthenticationRegistry<A>, res: Result<(), ProtocolError>| #[trigger]
            call_ensures(authentication::add::<A>, (registry, scheme, auth), res) ==> {
                &&& res is Ok
                &&& final(registry)@.contains_key(scheme@)
                &&& final(registry)@[scheme@] == auth
                &&& forall|other: Seq<char>|
                    other != scheme@ ==> {
                        &&& #[trigger] final(registry)@.contains_key(other)
                            == registry@.contains_key(other)
                        &&& registry@.contains_key(other) ==> final(registry)@[other]
                            == registry@[other]
                    }
                &&& final(registry).builtin() == registry.builtin()
                &&& final(registry).builtin_registered() == registry.builtin_registered()
            },
{
}

/// The registered schemes are listed, each once.
pub proof fn law_registered_schemes_are_listed<A>(
    registry: AuthenticationRegistry<A>,
    res: Vec<String>,
)
    requires
        call_ensures(authentication::schemes::<A>, (&registry,), res),
        registry.wf(),
    ensures
        forall|i: int|
            0 <= i < res@.len() ==> registry@.contains_key((#[trigger] res@[i])@),
        forall|scheme: Seq<char>| #[trigger]
            registry@.contains_key(scheme) ==> exists|i: int|
                0 <= i < res@.len() && (#[trigger] res@[i])@ == scheme,
        forall|i: int, j: int|
            0 <= i < j < res@.len() ==> (#[trigger] res@[i])@ != (#[trigger] res@[j])@,
{
    let names = text::views(res@);
    assert(names.len() == res@.len());
    assert forall|i: int| 0 <= i < res@.len() implies registry@.contains_key(
        (#[trigger] res@[i])@,
    ) by {
        assert(names[i] == res@[i]@);
        assert(names.contains(names[i]));
        assert(names.to_set().contains(names[i]));
    }
    assert forall|scheme: Seq<char>| #[trigger] registry@.contains_key(scheme) implies exists|i: int|
        0 <= i < res@.len() && (#[trigger] res@[i])@ == scheme by {
        assert(names.to_set().contains(scheme));
        let i = choose|i: int| 0 <= i < names.len() && names[i] == scheme;
        assert(res@[i]@ == scheme);
    }
    assert forall|i: int, j: int| 0 <= i < j < res@.len() implies (#[trigger] res@[i])@ != (
    #[trigger] res@[j])@ by {
        assert(names[i] == res@[i]@);
        assert(names[j] == res@[j]@);
    }
}

/// The implementation that a lookup finds: under the two schemes of the built-in one that, where this
/// is the first lookup, and otherwise what is registered.
pub open spec fn is_found<A>(
    registry: AuthenticationRegistry<A>,
    scheme: Seq<char>,
    auth: Arc<A>,
) -> bool {
    if !registry.builtin_registered() && (scheme == "ucs-auth"@ || scheme == "https"@) {
        auth == registry.builtin()
    } else {
        registry@.contains_key(scheme) && registry@[scheme] == auth
    }
}

/// A lookup finds what is registered for the scheme of the URL, and fails where nothing is or the URL
/// has no scheme. Afterwards the built-in implementation is registered.
pub proof fn law_lookups_go_by_the_scheme<A>(url: &str)
    ensures
        forall|registry: &mut AuthenticationRegistry<A>, res: Result<Arc<A>, ProtocolError>| #[trigger]
            call_ensures(authentication::find::<A>, (registry, url), res) ==> {
                &&& final(registry).builtin_registered()
                &&& final(registry).builtin() == registry.builtin()
                &&& match res {
                    Ok(auth) => exists|scheme: Seq<char>| #[trigger]
                        scheme_is(url@, scheme) && is_found(*registry, scheme, auth),
                    Err(_) => forall|scheme: Seq<char>, auth: Arc<A>|
                        !(#[trigger] scheme_is(url@, scheme) && #[trigger] is_found(
                            *registry,
                            scheme,
                            auth,
                        )),
                }
                &&& forall|scheme: Seq<char>, auth: Arc<A>| #[trigger]
                    is_found(*registry, scheme, auth) <==> #[trigger] is_found(
                        *final(registry),
                        scheme,
                        auth,
                    )
            },
{
    lemma_scheme(url@);
    reveal_strlit("ucs-auth");
    reveal_strlit("https");
    assert("ucs-auth"@.len() == 8);
    assert("https"@.len() == 5);
    assert forall|registry: &mut AuthenticationRegistry<A>, res: Result<Arc<A>, ProtocolError>|
        #[trigger] call_ensures(authentication::find::<A>, (registry, url), res) implies {
        &&& final(registry).builtin_registered()
        &&& final(registry).builtin() == registry.builtin()
        &&& match res {
            Ok(auth) => exists|scheme: Seq<char>| #[trigger]
                scheme_is(url@, scheme) && is_found(*registry, scheme, auth),
            Err(_) => forall|scheme: Seq<char>, auth: Arc<A>|
                !(#[trigger] scheme_is(url@, scheme) && #[trigger] is_found(
                    *registry,
                    scheme,
                    auth,
                )),
        }
        &&& forall|scheme: Seq<char>, auth: Arc<A>| #[trigger]
            is_found(*registry, scheme, auth) <==> #[trigger] is_found(
                *final(registry),
                scheme,
                auth,
            )
    } by {
        if let Ok(auth) = res {
            let scheme = authentication::scheme_of(url@)->0;
            assert(scheme_is(url@, scheme));
            assert(is_found(*registry, scheme, auth));
        }
    }
}

/// A scheme that was registered is found: what is added for a scheme answers the next lookup of a URL
/// with it, unless it is one of the two that the first lookup gives to the built-in implementation.
pub proof fn law_what_was_added_is_found<A>(scheme: &str, auth: Arc<A>, url: &str)
    requires
        scheme_is(url@, scheme@),
    ensures
        forall|before: &mut AuthenticationRegistry<A>,
            added: Result<(), ProtocolError>,
            after: &mut AuthenticationRegistry<A>,
            found: Result<Arc<A>, ProtocolError>,
        |
            {
                &&& #[trigger] call_ensures(authentication::add::<A>, (before, scheme, auth), added)
                &&& *after == *final(before)
                &&& #[trigger] call_ensures(authentication::find::<A>, (after, url), found)
                &&& before.builtin_registered() || (scheme@ != "ucs-auth"@ && scheme@ != "https"@)
            } ==> found == Ok::<Arc<A>, ProtocolError>(auth),
{
    lemma_scheme(url@);
}

/// The exchange of a token is made by the implementation for the scheme of its auth URL.
pub proof fn law_the_scheme_chooses_the_exchanger<A>(login: TokenLogin)
    ensures
        forall|registry: &mut AuthenticationRegistry<A>, res: Result<Arc<A>, LoginError>| #[trigger]
            call_ensures(TokenLogin::exchanger::<A>, (&login, registry), res) ==> match res {
                Ok(auth) => exists|scheme: Seq<char>| #[trigger]
                    scheme_is(login.auth_url@, scheme) && is_found(*registry, scheme, auth),
                Err(error) => is_internal(error, "finding authentication handler"@) && (forall|
                    scheme: Seq<char>,
                    auth: Arc<A>,
                |
                    !(#[trigger] scheme_is(login.auth_url@, scheme) && #[trigger] is_found(
                        *registry,
                        scheme,
                        auth,
                    ))),
            },
{
    lemma_scheme(login.auth_url@);
    reveal_strlit("ucs-auth");
    reveal_strlit("https");
    assert("ucs-auth"@.len() == 8);
    assert("https"@.len() == 5);
    assert forall|registry: &mut AuthenticationRegistry<A>, res: Result<Arc<A>, LoginError>|
        #[trigger] call_ensures(TokenLogin::exchanger::<A>, (&login, registry), res) implies (
    res matches Ok(auth) ==> exists|scheme: Seq<char>| #[trigger]
        scheme_is(login.auth_url@, scheme) && is_found(*registry, scheme, auth)) by {
        if let Ok(auth) = res {
            let scheme = authentication::scheme_of(login.auth_url@)->0;
            assert(scheme_is(login.auth_url@, scheme));
            assert(is_found(*registry, scheme, auth));
        }
    }
}

/// An interactive login runs over OpenID Connect exactly where the auth URL has the scheme `oidc`,
/// without a look at the registry; otherwise over the implementation for the scheme. Without an auth
/// URL there is none.
pub proof fn law_the_scheme_chooses_the_flow<A>(auth_url: Option<String>, no_browser: bool)
    ensures
        forall|registry: &mut AuthenticationRegistry<A>,
            res: Result<InteractiveStart<A>, InteractiveLoginError>,
        | #[trigger]
            call_ensures(login::interactive::<A>, (auth_url, no_browser, registry), res)
                ==> match res {
                Ok(InteractiveStart::OpenIdConnect(url)) => auth_url == Some(url) && scheme_is(
                    url@,
                    "oidc"@,
                ) && *final(registry) == *registry,
                Ok(InteractiveStart::Session(login, auth)) => {
                    &&& auth_url == Some(login.auth_url)
                    &&& !scheme_is(login.auth_url@, "oidc"@)
                    &&& exists|scheme: Seq<char>| #[trigger]
                        scheme_is(login.auth_url@, scheme) && is_found(*registry, scheme, auth)
                    &&& login.no_browser == no_browser
                    &&& login.client_state@.len() == 36
                },
                Err(error) => match auth_url {
                    Some(url) if url@.len() > 0 => {
                        &&& !scheme_is(url@, "oidc"@)
                        &&& fails_internally(error, "finding authentication handler"@)
                        &&& forall|scheme: Seq<char>, auth: Arc<A>|
                            !(#[trigger] scheme_is(url@, scheme) && #[trigger] is_found(
                                *registry,
                                scheme,
                                auth,
                            ))
                    },
                    _ => fails_internally(error, "No authentication configured on server"@)
                        && *final(registry) == *registry,
                },
            },
{
    reveal_strlit("ucs-auth");
    reveal_strlit("https");
    assert("ucs-auth"@.len() == 8);
    assert("https"@.len() == 5);
    if let Some(url) = auth_url {
        lemma_scheme(url@);
    }
    assert forall|registry: &mut AuthenticationRegistry<A>,
        res: Result<InteractiveStart<A>, InteractiveLoginError>,
    | #[trigger] call_ensures(login::interactive::<A>, (auth_url, no_browser, registry), res) implies (
    res matches Ok(InteractiveStart::Session(login, auth)) ==> exists|scheme: Seq<char>| #[trigger]
        scheme_is(login.auth_url@, scheme) && is_found(*registry, scheme, auth)) by {
        if let Ok(InteractiveStart::Session(login, auth)) = res {
            let scheme = authentication::scheme_of(login.auth_url@)->0;
            assert(scheme_is(login.auth_url@, scheme));
            assert(is_found(*registry, scheme, auth));
        }
    }
}

/// Internal errors say what they are given to say.
pub proof fn law_internal_errors_keep_their_message(
    message: &str,
    login: LoginError,
    interactive: InteractiveLoginError,
    store: AuthStoreError,
)
    requires
        call_ensures(LoginError::internal, (message,), login),
        call_ensures(InteractiveLoginError::internal, (message,), interactive),
        call_ensures(AuthStoreError::internal, (message,), store),
    ensures
        is_internal(login, message@),
        fails_internally(interactive, message@),
        store matches AuthStoreError::Internal(text) && text@ == message@,
{
}

/// In a new registry nothing is registered, and the built-in implementation waits for the first
/// lookup, which finds it under its two schemes and nothing under any other.
pub proof fn law_a_new_registry_knows_the_builtin_alone<A>(
    builtin: Arc<A>,
    res: AuthenticationRegistry<A>,
    listed: Vec<String>,
)
    requires
        call_ensures(AuthenticationRegistry::<A>::new, (builtin,), res),
        call_ensures(authentication::schemes::<A>, (&res,), listed),
    ensures
        res.wf(),
        listed@.len() == 0,
        !res.builtin_registered(),
        res.builtin() == builtin,
        forall|scheme: Seq<char>, auth: Arc<A>| #[trigger]
            is_found(res, scheme, auth) <==> auth == builtin && (scheme == "ucs-auth"@ || scheme
                == "https"@),
{
    assert(text::views(listed@).len() == listed@.len());
}

/// The text is listed.
pub open spec fn is_listed(list: Seq<String>, text: Seq<char>) -> bool {
    exists|i: int| 0 <= i < list.len() && (#[trigger] list[i])@ == text
}

/// The second list is the first one with the text at its end, or the same where the text is listed
/// already.
pub open spec fn is_appended(before: Seq<String>, text: Seq<char>, after: Seq<String>) -> bool {
    &&& after.len() == before.len() + (if is_listed(before, text) {
        0int
    } else {
        1int
    })
    &&& forall|i: int| 0 <= i < before.len() ==> (#[trigger] after[i])@ == before[i]@
    &&& !is_listed(before, text) ==> after[before.len() as int]@ == text
}

proof fn lemma_appended(before: Seq<String>, text: Seq<char>, after: Seq<String>)
    requires
        text::views(after) == keyed::listed(text::views(before), text),
    ensures
        is_appended(before, text, after),
{
    assert(text::views(after).len() == after.len());
    assert(text::views(before).len() == before.len());
    if is_listed(before, text) {
        let i = choose|i: int| 0 <= i < before.len() && (#[trigger] before[i])@ == text;
        assert(text::views(before)[i] == text);
    }
    if text::views(before).contains(text) {
        let i = choose|i: int| 0 <= i < before.len() && text::views(before)[i] == text;
        assert(before[i]@ == text);
    } else {
        assert(text::views(after)[before.len() as int] == text);
    }
    assert forall|i: int| 0 <= i < before.len() implies (#[trigger] after[i])@ == before[i]@ by {
        assert(text::views(after)[i] == after[i]@);
        assert(text::views(before)[i] == before[i]@);
    }
}

/// Schemes are listed in the order in which they were first registered.
pub proof fn law_schemes_keep_their_order<A>(scheme: &str, auth: Arc<A>)
    ensures
        forall|registry: &mut AuthenticationRegistry<A>,
            res: Result<(), ProtocolError>,
            before: Vec<String>,
            after: Vec<String>,
        |
            {
                &&& #[trigger] call_ensures(authentication::add::<A>, (registry, scheme, auth), res)
                &&& #[trigger] call_ensures(authentication::schemes::<A>, (&*registry,), before)
                &&& #[trigger] call_ensures(
                    authentication::schemes::<A>,
                    (&*final(registry),),
                    after,
                )
            } ==> is_appended(before@, scheme@, after@),
{
    assert forall|registry: &mut AuthenticationRegistry<A>,
        res: Result<(), ProtocolError>,
        before: Vec<String>,
        after: Vec<String>,
    |
        {
            &&& #[trigger] call_ensures(authentication::add::<A>, (registry, scheme, auth), res)
            &&& #[trigger] call_ensures(authentication::schemes::<A>, (&*registry,), before)
            &&& #[trigger] call_ensures(authentication::schemes::<A>, (&*final(registry),), after)
        } implies is_appended(before@, scheme@, after@) by {
        lemma_appended(before@, scheme@, after@);
    }
}

/// A lookup that fails says why: the URL has no scheme, or nothing is registered for the one that it
/// has, and then it names the schemes that there are.
pub proof fn law_failed_lookups_are_explained<A>(url: &str)
    ensures
        forall|registry: &mut AuthenticationRegistry<A>,
            res: Result<Arc<A>, ProtocolError>,
            available: Vec<String>,
        |
            {
                &&& #[trigger] call_ensures(authentication::find::<A>, (registry, url), res)
                &&& #[trigger] call_ensures(
                    authentication::schemes::<A>,
                    (&*final(registry),),
                    available,
                )
                &&& res is Err
            } ==> {
                ||| {
                    &&& forall|j: int| !#[trigger] texts::stands(url@, "://"@, j)
                    &&& res->Err_0.message@ == "invalid auth URL (missing scheme): '"@ + url@
                        + "'"@
                }
                ||| exists|scheme: Seq<char>| #[trigger]
                    scheme_is(url@, scheme) && res->Err_0.message@
                        == "no authentication implementation registered for scheme '"@ + scheme
                        + "' (available: "@ + authentication::debug_list(text::views(available@))
                        + ")"@
            },
{
    lemma_scheme(url@);
}

/// At the interval at which a session is asked about, that goes on for two and a half minutes at most.
pub proof fn law_a_session_is_asked_about_for_minutes(
    login: InteractiveLogin,
    login_url: String,
    session_code: String,
    res: (UrlPresentation, InteractivePoll),
)
    requires
        call_ensures(InteractiveLogin::on_session, (login, login_url, session_code), res),
    ensures
        res.1.polls_left * login::POLLING_INTERVAL_SECS == 150,
        call_requires(InteractivePoll::on_poll, (res.1, None::<AuthenticationToken>)),
{
}

} // verus!
