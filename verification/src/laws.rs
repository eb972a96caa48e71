//! What holds of the library across its functions.
use crate::auth_service;
use crate::authentication::{self, AuthenticationRegistry};
use crate::jwk::{JWKServiceError, JwkServiceImpl, JwksReply, SigningAlgorithm};
use crate::login;
use crate::oidc::{self, OidcAuthorization, OidcConfig, OidcExchange, RedirectStep};
use crate::oidc_refresh::{self, RefreshGrant};
use crate::pkce;
use crate::text;
use crate::urls::{self, UrlPartsView};
use jsonwebtoken::DecodingKey;
use std::sync::Arc;
use vstd::prelude::*;

pub mod keys;
pub mod logins;
pub mod oidc_flow;
pub mod requests;
pub mod serving;
pub mod sessions;
pub mod starting;
pub mod storage;
pub mod texts;

verus! {

/// The scheme of an auth URL is what its author wrote in front of the separator, whatever follows.
pub proof fn law_scheme_is_what_precedes_the_separator(scheme: Seq<char>, rest: Seq<char>)
    requires
        !text::holds(scheme, authentication::SCHEME_SEPARATOR@),
    ensures
        authentication::scheme_of(scheme + authentication::SCHEME_SEPARATOR@ + rest) == Some(scheme),
{
    let sep = authentication::SCHEME_SEPARATOR@;
    let url = scheme + sep + rest;
    reveal_strlit("://");
    assert(sep =~= seq![':', '/', '/']);
    let n = scheme.len() as int;
    assert(url.subrange(n, n + 3) =~= sep);
    assert(text::occurs_at(url, sep, n));
    assert forall|j: int| 0 <= j < n implies !text::occurs_at(url, sep, j) by {
        if text::occurs_at(url, sep, j) {
            let piece = url.subrange(j, j + 3);
            assert(piece[0] == url[j] && piece[1] == url[j + 1] && piece[2] == url[j + 2]);
            if j + 3 <= n {
                assert(scheme.subrange(j, j + 3) =~= piece);
                assert(text::occurs_at(scheme, sep, j));
            } else if j + 2 == n {
                assert(url[j + 2] == sep[0]);
            } else {
                assert(url[j + 1] == sep[0]);
            }
        }
    }
    text::lemma_find_from(url, sep, 0);
    assert(url.take(n) =~= scheme);
}

/// What was registered for a scheme is what a lookup by that scheme finds. The one exception are the
/// two schemes of the built-in implementation as long as no lookup has been made: the first lookup
/// gives them to the built-in implementation.
pub proof fn law_a_lookup_finds_what_was_added<A>(
    before: AuthenticationRegistry<A>,
    after: AuthenticationRegistry<A>,
    scheme: Seq<char>,
    auth: Arc<A>,
)
    requires
        after@ == before@.insert(scheme, auth),
        after.builtin_registered() || (scheme != "ucs-auth"@ && scheme != "https"@),
    ensures
        after.with_builtin().contains_key(scheme),
        after.with_builtin()[scheme] == auth,
{
}

/// The first lookup finds the built-in implementation for both of its schemes, and registers no other
/// scheme.
pub proof fn law_the_built_in_implementation_is_found<A>(registry: AuthenticationRegistry<A>)
    requires
        !registry.builtin_registered(),
    ensures
        registry.with_builtin().contains_key("ucs-auth"@),
        registry.with_builtin()["ucs-auth"@] == registry.builtin(),
        registry.with_builtin().contains_key("https"@),
        registry.with_builtin()["https"@] == registry.builtin(),
        forall|scheme: Seq<char>|
            scheme != "ucs-auth"@ && scheme != "https"@ ==> (
            registry.with_builtin().contains_key(scheme) <==> registry@.contains_key(scheme)),
{
}

/// A provider that is logged in to over OpenID Connect has no permissions service, so the server does
/// not ask it for permissions.
pub proof fn law_oidc_providers_are_not_asked_for_permissions(auth_url: Seq<char>)
    requires
        login::is_oidc(auth_url),
    ensures
        !auth_service::has_permissions_service(auth_url),
{
    let sep = authentication::SCHEME_SEPARATOR@;
    reveal_strlit("://");
    reveal_strlit("oidc");
    reveal_strlit("oidc:");
    text::lemma_find_from(auth_url, sep, 0);
    let i = text::find_sub(auth_url, sep)->0;
    assert(auth_url.take(i) == oidc::OIDC_SCHEME@);
    assert(i == 4);
    assert(auth_url.subrange(4, 7)[0] == sep[0]);
    assert(auth_url[4] == ':');
    assert forall|k: int| 0 <= k < 4 implies auth_url[k] == oidc::OIDC_SCHEME@[k] by {
        assert(auth_url.take(4)[k] == auth_url[k]);
    }
    assert(auth_url.take(5) =~= auth_service::OIDC_PREFIX@);
    assert(auth_service::OIDC_PREFIX@ =~= auth_url.subrange(0, 5));
}

/// A later parameter overrides an earlier one, also across two lists.
proof fn lemma_last_value_of_both(
    first: Seq<(Seq<char>, Seq<char>)>,
    second: Seq<(Seq<char>, Seq<char>)>,
    name: Seq<char>,
)
    requires
        urls::last_value(second, name) is Some,
    ensures
        urls::last_value(first + second, name) == urls::last_value(second, name),
    decreases second.len(),
{
    let both = first + second;
    assert(both.last() == second.last());
    if second.last().0 != name {
        assert(both.drop_last() =~= first + second.drop_last());
        lemma_last_value_of_both(first, second.drop_last(), name);
    }
}

/// The names of the parameters differ.
proof fn lemma_names_differ()
    ensures
        "client_id"@ != "code_challenge_method"@,
        "client_id"@ != "code_challenge"@,
        "client_id"@ != "nonce"@,
        "client_id"@ != "state"@,
        "client_id"@ != "scope"@,
        "client_id"@ != "response_mode"@,
        "client_id"@ != "redirect_uri"@,
        "client_id"@ != "response_type"@,
        "redirect_uri"@ != "code_challenge_method"@,
        "redirect_uri"@ != "code_challenge"@,
        "redirect_uri"@ != "nonce"@,
        "redirect_uri"@ != "state"@,
        "redirect_uri"@ != "scope"@,
        "redirect_uri"@ != "response_mode"@,
        "scope"@ != "code_challenge_method"@,
        "scope"@ != "code_challenge"@,
        "scope"@ != "nonce"@,
        "scope"@ != "state"@,
        "state"@ != "code_challenge_method"@,
        "state"@ != "code_challenge"@,
        "state"@ != "nonce"@,
        "nonce"@ != "code_challenge_method"@,
        "nonce"@ != "code_challenge"@,
        "code_challenge"@ != "code_challenge_method"@,
        "response_type"@ != "code_challenge_method"@,
        "response_type"@ != "code_challenge"@,
        "response_type"@ != "nonce"@,
        "response_type"@ != "state"@,
        "response_type"@ != "scope"@,
        "response_type"@ != "response_mode"@,
        "response_type"@ != "redirect_uri"@,
        "client_id"@ != "code_verifier"@,
        "redirect_uri"@ != "code_verifier"@,
        "code"@ != "code_verifier"@,
        "code"@ != "client_id"@,
        "code"@ != "redirect_uri"@,
{
    reveal_strlit("client_id");
    reveal_strlit("code_challenge_method");
    reveal_strlit("code_challenge");
    reveal_strlit("nonce");
    reveal_strlit("state");
    reveal_strlit("scope");
    reveal_strlit("response_mode");
    reveal_strlit("redirect_uri");
    reveal_strlit("response_type");
    reveal_strlit("code_verifier");
    reveal_strlit("code");
    assert("client_id"@.len() == 9);
    assert("code_challenge_method"@.len() == 21);
    assert("code_challenge"@.len() == 14);
    assert("nonce"@.len() == 5);
    assert("state"@.len() == 5);
    assert("scope"@.len() == 5);
    assert("response_mode"@.len() == 13);
    assert("redirect_uri"@.len() == 12);
    assert("response_type"@.len() == 13);
    assert("code_verifier"@.len() == 13);
    assert("code"@.len() == 4);
    assert("nonce"@[0] == 'n');
    assert("state"@[1] == 't');
    assert("scope"@[1] == 'c');
    assert("response_mode"@[9] == 'm');
    assert("response_type"@[9] == 't');
}

/// The parameters that an authorization URL carries.
pub open spec fn url_parameter(authorization: OidcAuthorization, name: Seq<char>) -> Option<
    Seq<char>,
> {
    urls::last_value(urls::url_parts_of(authorization.authorize_url@)->0.query, name)
}

/// The authorization URL carries the login to the provider unchanged, whatever parameters the
/// provider's own endpoint brings along, and leads to nowhere but that endpoint.
pub proof fn law_the_authorization_url_carries_the_login(authorization: OidcAuthorization)
    requires
        authorization.wf(),
    ensures
        url_parameter(authorization, "client_id"@) == Some(
            authorization.login.config.client_id@,
        ),
        url_parameter(authorization, "response_type"@) == Some("code"@),
        url_parameter(authorization, "redirect_uri"@) == Some(
            oidc::redirect_address(authorization.port),
        ),
        url_parameter(authorization, "scope"@) == Some(authorization.login.config.scope@),
        url_parameter(authorization, "state"@) == Some(authorization.secrets.state@),
        url_parameter(authorization, "nonce"@) == Some(authorization.secrets.nonce@),
        url_parameter(authorization, "code_challenge"@) == Some(authorization.secrets.challenge@),
        url_parameter(authorization, "code_challenge_method"@) == Some("S256"@),
        ({
            let endpoint = urls::url_parts_of(authorization.authorization_endpoint@)->0;
            let url = urls::url_parts_of(authorization.authorize_url@)->0;
            &&& url.leads_to(endpoint)
            &&& endpoint.settled() ==> url.same_but_query(endpoint)
        }),
{
    lemma_names_differ();
    let own = urls::url_parts_of(authorization.authorization_endpoint@)->0.query;
    let pairs = authorization.login.request_pairs(authorization.port, authorization.secrets);
    reveal_with_fuel(urls::last_value, 10);
    lemma_last_value_of_both(own, pairs, "client_id"@);
    lemma_last_value_of_both(own, pairs, "response_type"@);
    lemma_last_value_of_both(own, pairs, "redirect_uri"@);
    lemma_last_value_of_both(own, pairs, "scope"@);
    lemma_last_value_of_both(own, pairs, "state"@);
    lemma_last_value_of_both(own, pairs, "nonce"@);
    lemma_last_value_of_both(own, pairs, "code_challenge"@);
    lemma_last_value_of_both(own, pairs, "code_challenge_method"@);
}

/// The field of the form that trades the code for a token.
pub open spec fn form_field(exchange: OidcExchange, name: Seq<char>) -> Option<Seq<char>> {
    urls::last_value(urls::pair_views(exchange.form@), name)
}

/// The token request proves that it comes from where the authorization request came from: it
/// discloses the verifier whose challenge the authorization URL carried, and repeats the client and
/// the redirect address of that URL.
pub proof fn law_the_exchange_answers_the_challenge(
    authorization: OidcAuthorization,
    request: Seq<char>,
    exchange: OidcExchange,
)
    requires
        authorization.wf(),
        authorization.is_step(request, RedirectStep::Exchange(exchange)),
    ensures
        form_field(exchange, "code_verifier"@) is Some,
        url_parameter(authorization, "code_challenge"@) == Some(
            pkce::challenge_of(form_field(exchange, "code_verifier"@)->0),
        ),
        form_field(exchange, "client_id"@) == url_parameter(authorization, "client_id"@),
        form_field(exchange, "redirect_uri"@) == url_parameter(authorization, "redirect_uri"@),
{
    lemma_names_differ();
    law_the_authorization_url_carries_the_login(authorization);
    reveal_with_fuel(urls::last_value, 6);
}

/// A code is traded for a token only where the redirect that brought it also brought the `state` that
/// the authorization URL carried, and it is that redirect's code.
pub proof fn law_no_exchange_without_the_state(
    authorization: OidcAuthorization,
    request: Seq<char>,
    exchange: OidcExchange,
)
    requires
        authorization.wf(),
        authorization.is_step(request, RedirectStep::Exchange(exchange)),
    ensures
        oidc::captured_params(request) matches Some((code, state)) && {
            &&& url_parameter(authorization, "state"@) == Some(state)
            &&& form_field(exchange, "code"@) == Some(code)
        },
{
    lemma_names_differ();
    law_the_authorization_url_carries_the_login(authorization);
    reveal_with_fuel(urls::last_value, 6);
}

/// A redirect with another `state` ends the login: no token is asked for, and no more connections are
/// taken.
pub proof fn law_a_forged_redirect_ends_the_login(
    authorization: OidcAuthorization,
    request: Seq<char>,
    step: RedirectStep,
)
    requires
        authorization.is_step(request, step),
        oidc::captured_params(request) matches Some((_, state)) && state
            != authorization.secrets.state@,
    ensures
        step is Failed,
{
}

/// A connection that brings no redirect changes nothing about the login but the number of connections
/// that are left, which runs out.
pub proof fn law_idle_connections_run_out(
    authorization: OidcAuthorization,
    request: Seq<char>,
    next: OidcAuthorization,
)
    requires
        authorization.wf(),
        authorization.is_step(request, RedirectStep::Waiting(next)),
    ensures
        next.wf(),
        0 < next.connections_left < authorization.connections_left,
        next.authorize_url == authorization.authorize_url,
{
}

/// A refresh speaks to the provider of the login: for the same auth URL it goes to the same issuer and
/// names the same client.
pub proof fn law_a_refresh_goes_to_the_provider_of_the_login(
    parts: UrlPartsView,
    config: OidcConfig,
    refresh_token: Seq<char>,
    grant: Option<RefreshGrant>,
)
    requires
        oidc::is_config(config, parts, oidc::LOGIN_SCOPE@),
        oidc_refresh::is_grant(parts, refresh_token, grant),
    ensures
        grant is Some,
        grant->0.discovery_url@ == oidc::discovery_address(config.issuer@),
        urls::last_value(urls::pair_views(grant->0.form@), "client_id"@) == Some(config.client_id@),
        urls::last_value(urls::pair_views(grant->0.form@), "refresh_token"@) == Some(
            refresh_token,
        ),
{
    reveal_strlit("client_id");
    reveal_strlit("scope");
    reveal_strlit("refresh_token");
    assert("client_id"@.len() == 9);
    assert("scope"@.len() == 5);
    assert("refresh_token"@.len() == 13);
    reveal_with_fuel(urls::last_value, 5);
}

/// A key that was found once is cached: the next lookup finds the same key without a look at the
/// endpoint.
pub proof fn law_a_found_key_stays_cached(
    before: JwkServiceImpl,
    after: JwkServiceImpl,
    kid: Seq<char>,
    reply: JwksReply,
    key: (DecodingKey, SigningAlgorithm),
)
    requires
        before.key_answer(kid, reply, after, Ok(key)),
    ensures
        !after.fetch_wanted(Some(kid)),
        after@.contains_key(kid),
        after@[kid] == key,
{
}

/// A fetch that fails leaves the cached keys as they are.
pub proof fn law_a_failed_fetch_keeps_the_keys(
    service: JwkServiceImpl,
    reply: JwksReply,
    now: Map<Seq<char>, (DecodingKey, SigningAlgorithm)>,
    fault: JWKServiceError,
)
    requires
        service.refilled_from(reply, now, Err(fault)),
    ensures
        now == service@,
{
}

} // verus!
