//! What holds of logins over OpenID Connect, stated of the calls that they are made of.
use crate::credentials::{StoreToken, UserInfo};
use crate::errors::InteractiveLoginError;
use crate::laws::logins::fails_internally;
use crate::laws::texts;
use crate::oidc::{
    self, OidcAuthorization, OidcConfig, OidcDiscovery, OidcExchange, OidcIdToken, OidcLogin,
    RedirectReading, RedirectStep, TokenResponse, UrlPresentation,
};
use crate::oidc_refresh::{self, RefreshGrant, RefreshResponse, RefreshedToken};
use crate::pkce::{self, LoginSecrets};
use crate::text;
use crate::urls::{self, UrlParts};
use vstd::prelude::*;

verus! {

/// The address over `https`, with the port behind a colon where there is one.
pub open spec fn is_secure_address(
    address: Seq<char>,
    host: Seq<char>,
    port: Option<u16>,
    path: Seq<char>,
) -> bool {
    match port {
        None => address == "https://"@ + host + path,
        Some(port) => exists|numeral: Seq<char>| #[trigger]
            texts::writes(numeral, port as int) && address == "https://"@ + host + ":"@ + numeral
                + path,
    }
}

/// The one text is the other without the slashes at its end.
pub open spec fn is_without_slashes(s: Seq<char>, whole: Seq<char>) -> bool {
    &&& s.len() <= whole.len()
    &&& s == whole.subrange(0, s.len() as int)
    &&& forall|i: int| s.len() <= i < whole.len() ==> whole[i] == '/'
    &&& s.len() > 0 ==> s.last() != '/'
}

/// The issuer is the auth URL over `https`, without its query and without slashes at its end.
pub open spec fn is_issuer(
    issuer: Seq<char>,
    host: Seq<char>,
    port: Option<u16>,
    path: Seq<char>,
) -> bool {
    exists|address: Seq<char>| #[trigger]
        is_secure_address(address, host, port, path) && is_without_slashes(issuer, address)
}

proof fn lemma_issuer(host: Seq<char>, port: Option<u16>, path: Seq<char>)
    ensures
        is_issuer(oidc::issuer_of(host, port, path), host, port, path),
{
    let address = "https://"@ + host + oidc::port_suffix(port) + path;
    match port {
        None => {
            assert(address =~= "https://"@ + host + path);
        },
        Some(p) => {
            texts::lemma_numeral_writes(p as nat);
            assert(address =~= "https://"@ + host + ":"@ + text::numeral(p as nat) + path);
        },
    }
    assert(is_secure_address(address, host, port, path));
    texts::lemma_without_trailing(address, '/');
    let issuer = oidc::issuer_of(host, port, path);
    assert(address.take(issuer.len() as int) =~= address.subrange(0, issuer.len() as int));
}

/// The text of a parameter, or else another one.
pub open spec fn given_or(given: Option<String>, otherwise: Seq<char>) -> Seq<char> {
    match given {
        Some(text) => text@,
        None => otherwise,
    }
}

/// A provider is read out of an auth URL exactly where that has a host and a client identifier. Its
/// issuer is the URL itself, its scope the one that the URL names or else the given one.
pub proof fn law_the_auth_url_names_the_provider(
    parts: UrlParts,
    default_scope: &str,
    res: Option<OidcConfig>,
    client_id: Option<String>,
    scope: Option<String>,
)
    requires
        call_ensures(oidc::provider_from, (&parts, default_scope), res),
        call_ensures(urls::query_value, (&parts.query, "client_id"), client_id),
        call_ensures(urls::query_value, (&parts.query, "scope"), scope),
    ensures
        res is Some <==> parts.host is Some && client_id is Some,
        res matches Some(config) ==> {
            &&& config.client_id@ == client_id->0@
            &&& config.scope@ == given_or(scope, default_scope@)
            &&& is_issuer(config.issuer@, parts.host->0@, parts.port, parts.path@)
        },
{
    if parts.host is Some {
        lemma_issuer(parts.host->0@, parts.port, parts.path@);
    }
}

/// A login asks for the scopes `openid profile` where the auth URL names none, and says what the URL
/// lacks where it names no provider.
pub proof fn law_a_login_needs_a_provider(
    parts: UrlParts,
    scope: &str,
    provider: Option<OidcConfig>,
    res: Result<OidcConfig, InteractiveLoginError>,
)
    requires
        scope@ == "openid profile"@,
        call_ensures(oidc::provider_from, (&parts, scope), provider),
        call_ensures(oidc::config_from, (&parts,), res),
    ensures
        match (provider, res) {
            (Some(expected), Ok(config)) => {
                &&& config.issuer@ == expected.issuer@
                &&& config.client_id@ == expected.client_id@
                &&& config.scope@ == expected.scope@
            },
            (None, Err(error)) => if parts.host is None {
                fails_internally(error, "oidc auth URL has no host"@)
            } else {
                fails_internally(error, "oidc auth URL is missing the `client_id` parameter"@)
            },
            _ => false,
        },
{
}

/// The auth URL of a login is taken apart as a URL, and is refused where it is none.
pub proof fn law_the_auth_url_is_taken_apart(
    auth_url: &str,
    parts: UrlParts,
    from_parts: Result<OidcConfig, InteractiveLoginError>,
    res: Result<OidcConfig, InteractiveLoginError>,
)
    requires
        call_ensures(oidc::config_from, (&parts,), from_parts),
        call_ensures(oidc::parse_auth_url, (auth_url,), res),
    ensures
        urls::url_parts_of(auth_url@) is None ==> (res matches Err(error) && fails_internally(
            error,
            "parsing oidc auth URL"@,
        )),
        urls::url_parts_of(auth_url@) == Some(parts@) ==> match (from_parts, res) {
            (Ok(expected), Ok(config)) => {
                &&& config.issuer@ == expected.issuer@
                &&& config.client_id@ == expected.client_id@
                &&& config.scope@ == expected.scope@
            },
            (Err(expected), Err(error)) => expected matches InteractiveLoginError::Internal(message)
                && fails_internally(error, message@),
            _ => false,
        },
{
}

/// A login keeps the auth URL, the server and the presentation that it was begun with.
pub proof fn law_a_login_keeps_what_it_was_begun_with(
    auth_url: &str,
    remote_domain: &str,
    no_browser: bool,
    config: Result<OidcConfig, InteractiveLoginError>,
    res: Result<OidcLogin, InteractiveLoginError>,
)
    requires
        call_ensures(oidc::parse_auth_url, (auth_url,), config),
        call_ensures(OidcLogin::begin, (auth_url, remote_domain, no_browser), res),
    ensures
        match (config, res) {
            (Ok(expected), Ok(login)) => {
                &&& login.config.issuer@ == expected.issuer@
                &&& login.config.client_id@ == expected.client_id@
                &&& login.config.scope@ == expected.scope@
                &&& login.auth_url@ == auth_url@
                &&& login.remote_domain@ == remote_domain@
                &&& login.no_browser == no_browser
            },
            (Err(expected), Err(error)) => expected matches InteractiveLoginError::Internal(message)
                && fails_internally(error, message@),
            _ => false,
        },
{
}

/// The discovery document of a provider lies below its issuer.
pub proof fn law_discovery_lies_below_the_issuer(
    issuer: &str,
    address: String,
    login: OidcLogin,
    of_login: String,
)
    requires
        call_ensures(oidc::discovery_url_of, (issuer,), address),
        call_ensures(OidcLogin::discovery_url, (&login,), of_login),
    ensures
        address@ == issuer@ + "/.well-known/openid-configuration"@,
        of_login@ == login.config.issuer@ + "/.well-known/openid-configuration"@,
{
}

/// The authorization URL is the endpoint of the provider with the request behind its own parameters:
/// each parameter with the text that was given, neither more nor less.
pub proof fn law_the_authorization_url_carries_the_request(
    endpoint: &str,
    client_id: &str,
    redirect_uri: &str,
    scope: &str,
    state: &str,
    nonce: &str,
    challenge: &str,
    res: Result<String, InteractiveLoginError>,
)
    requires
        call_ensures(
            oidc::build_authorize_url,
            (endpoint, client_id, redirect_uri, scope, state, nonce, challenge),
            res,
        ),
    ensures
        match urls::url_parts_of(endpoint@) {
            None => res matches Err(error) && fails_internally(
                error,
                "parsing authorization endpoint"@,
            ),
            Some(before) => {
                &&& res matches Ok(url)
                &&& urls::url_parts_of(url@) matches Some(now)
                &&& now.query == before.query + seq![
                    ("client_id"@, client_id@),
                    ("response_type"@, "code"@),
                    ("redirect_uri"@, redirect_uri@),
                    ("response_mode"@, "query"@),
                    ("scope"@, scope@),
                    ("state"@, state@),
                    ("nonce"@, nonce@),
                    ("code_challenge"@, challenge@),
                    ("code_challenge_method"@, "S256"@),
                ]
                &&& now.scheme == before.scheme
                &&& now.username == before.username
                &&& now.password == before.password
                &&& now.port == before.port
                &&& now.fragment == before.fragment
                &&& before.scheme != "file"@ ==> now.host == before.host && now.path == before.path
            },
        },
{
}

/// An authorization carries the login, its secrets and the address of its own listener, and asks at
/// the endpoint that the provider published.
pub proof fn law_an_authorization_is_for_its_listener(
    login: OidcLogin,
    discovery: OidcDiscovery,
    port: u16,
    secrets: LoginSecrets,
    redirect: String,
    res: Result<OidcAuthorization, InteractiveLoginError>,
)
    requires
        call_ensures(oidc::redirect_uri_for, (port,), redirect),
        call_ensures(OidcLogin::authorize, (login, discovery, port, secrets), res),
    ensures
        match res {
            Ok(next) => {
                &&& next.login == login
                &&& next.port == port
                &&& next.secrets == secrets
                &&& next.token_endpoint@ == discovery.token_endpoint@
                &&& next.authorization_endpoint@ == discovery.authorization_endpoint@
                &&& next.connections_left == 10
                &&& urls::url_parts_of(next.authorize_url@) matches Some(now)
                &&& urls::url_parts_of(discovery.authorization_endpoint@) matches Some(before)
                &&& now.query == before.query + seq![
                    ("client_id"@, login.config.client_id@),
                    ("response_type"@, "code"@),
                    ("redirect_uri"@, redirect@),
                    ("response_mode"@, "query"@),
                    ("scope"@, login.config.scope@),
                    ("state"@, secrets.state@),
                    ("nonce"@, secrets.nonce@),
                    ("code_challenge"@, secrets.challenge@),
                    ("code_challenge_method"@, "S256"@),
                ]
            },
            Err(error) => urls::url_parts_of(discovery.authorization_endpoint@) is None
                && fails_internally(error, "parsing authorization endpoint"@),
        },
{
}

/// The same of an authorization with secrets of its own, whose challenge is that of its verifier.
pub proof fn law_an_authorization_draws_its_secrets(
    login: OidcLogin,
    discovery: OidcDiscovery,
    port: u16,
    redirect: String,
    res: Result<OidcAuthorization, InteractiveLoginError>,
    verifier: &str,
    challenge: String,
)
    requires
        call_ensures(oidc::redirect_uri_for, (port,), redirect),
        call_ensures(OidcLogin::on_discovery, (login, discovery, port), res),
        call_ensures(pkce::pkce_challenge, (verifier,), challenge),
    ensures
        match res {
            Ok(next) => {
                &&& next.login == login
                &&& next.port == port
                &&& next.token_endpoint@ == discovery.token_endpoint@
                &&& next.connections_left == 10
                &&& next.secrets.verifier@ == verifier@ ==> next.secrets.challenge@ == challenge@
                &&& urls::url_parts_of(next.authorize_url@) matches Some(now)
                &&& urls::url_parts_of(discovery.authorization_endpoint@) matches Some(before)
                &&& now.query == before.query + seq![
                    ("client_id"@, login.config.client_id@),
                    ("response_type"@, "code"@),
                    ("redirect_uri"@, redirect@),
                    ("response_mode"@, "query"@),
                    ("scope"@, login.config.scope@),
                    ("state"@, next.secrets.state@),
                    ("nonce"@, next.secrets.nonce@),
                    ("code_challenge"@, next.secrets.challenge@),
                    ("code_challenge_method"@, "S256"@),
                ]
            },
            Err(error) => urls::url_parts_of(discovery.authorization_endpoint@) is None
                && fails_internally(error, "parsing authorization endpoint"@),
        },
{
}

/// The authorization URL is emitted on machines without a browser and opened on others.
pub proof fn law_the_authorization_url_is_presented(
    authorization: OidcAuthorization,
    res: UrlPresentation,
)
    requires
        call_ensures(OidcAuthorization::present, (&authorization,), res),
    ensures
        res is EmitEvent <==> authorization.login.no_browser,
        match res {
            UrlPresentation::EmitEvent(url) => url@ == authorization.authorize_url@,
            UrlPresentation::OpenBrowser(url) => url@ == authorization.authorize_url@,
        },
{
}

/// A redirect holds a code where its parameters hold a `code` and a `state`.
pub proof fn law_a_redirect_brings_code_and_state(
    parts: UrlParts,
    res: Option<(String, String)>,
    code: Option<String>,
    state: Option<String>,
)
    requires
        call_ensures(oidc::redirect_params_in, (&parts,), res),
        call_ensures(urls::query_value, (&parts.query, "code"), code),
        call_ensures(urls::query_value, (&parts.query, "state"), state),
    ensures
        res is Some <==> code is Some && state is Some,
        res matches Some(params) ==> params.0@ == code->0@ && params.1@ == state->0@,
{
}

/// What a request line brings is what the second of its words brings, as a path on the loopback host.
pub proof fn law_the_request_line_holds_the_redirect(
    request: &str,
    words: Vec<String>,
    parts: UrlParts,
    from_parts: Option<(String, String)>,
    res: Option<(String, String)>,
)
    requires
        call_ensures(text::split_words, (request,), words),
        call_ensures(oidc::redirect_params_in, (&parts,), from_parts),
        call_ensures(oidc::parse_redirect_request, (request,), res),
    ensures
        words@.len() < 2 ==> res is None,
        words@.len() >= 2 ==> {
            let target = urls::url_parts_of("http://127.0.0.1"@ + words@[1]@);
            &&& target is None ==> res is None
            &&& target == Some(parts@) ==> match (res, from_parts) {
                (Some(params), Some(expected)) => params.0@ == expected.0@ && params.1@
                    == expected.1@,
                (None, None) => true,
                _ => false,
            }
        },
{
    texts::lemma_same_views(text::words(request@), words@);
}

/// A request to the listener is read by its first line: it brings the code where it brings the `state`
/// that is expected with it, and is taken for forged where it brings another one.
pub proof fn law_only_the_expected_state_brings_a_code(
    request: &str,
    expected_state: &str,
    lines: Vec<String>,
    first: &str,
    params: Option<(String, String)>,
    res: RedirectReading,
)
    requires
        call_ensures(text::split_lines, (request,), lines),
        lines@.len() > 0 ==> first@ == lines@[0]@,
        call_ensures(oidc::parse_redirect_request, (first,), params),
        call_ensures(oidc::read_redirect, (request, expected_state), res),
    ensures
        match (params, res) {
            (_, RedirectReading::Nothing) => lines@.len() == 0 || params is None,
            (Some((code, state)), RedirectReading::Code(given)) => lines@.len() > 0 && state@
                == expected_state@ && given@ == code@,
            (Some((_, state)), RedirectReading::StateMismatch) => lines@.len() > 0 && state@
                != expected_state@,
            _ => false,
        },
{
    texts::lemma_same_views(text::lines(request@), lines@);
}

/// The form holds exactly these names and values, in this order.
pub open spec fn holds_pairs(
    form: Seq<(String, String)>,
    pairs: Seq<(Seq<char>, Seq<char>)>,
) -> bool {
    &&& form.len() == pairs.len()
    &&& forall|i: int|
        0 <= i < form.len() ==> (#[trigger] form[i]).0@ == pairs[i].0 && form[i].1@ == pairs[i].1
}

proof fn lemma_holds_pairs(form: Seq<(String, String)>, pairs: Seq<(Seq<char>, Seq<char>)>)
    requires
        urls::pair_views(form) == pairs,
    ensures
        holds_pairs(form, pairs),
{
    assert forall|i: int| 0 <= i < form.len() implies (#[trigger] form[i]).0@ == pairs[i].0
        && form[i].1@ == pairs[i].1 by {
        assert(urls::pair_views(form)[i] == (form[i].0@, form[i].1@));
    }
}

/// What follows a request to the listener: the exchange of the code that it brought, with the verifier
/// of this login and the address of this listener; the end, where it was forged; and otherwise another
/// connection, as long as there is one left. The browser is told which.
pub proof fn law_a_request_to_the_listener_is_answered(
    authorization: OidcAuthorization,
    request: &str,
    state: &str,
    reading: RedirectReading,
    response: String,
    redirect: String,
    res: (String, RedirectStep),
)
    requires
        state@ == authorization.secrets.state@,
        call_ensures(oidc::read_redirect, (request, state), reading),
        call_ensures(oidc::redirect_response, (&reading,), response),
        call_ensures(oidc::redirect_uri_for, (authorization.port,), redirect),
        call_ensures(OidcAuthorization::on_request, (authorization, request), res),
        authorization.connections_left > 0,
    ensures
        res.0@ == response@,
        match (reading, res.1) {
            (RedirectReading::Code(code), RedirectStep::Exchange(exchange)) => {
                &&& exchange.login == authorization.login
                &&& exchange.token_endpoint@ == authorization.token_endpoint@
                &&& holds_pairs(
                    exchange.form@,
                    seq![
                        ("grant_type"@, "authorization_code"@),
                        ("code"@, code@),
                        ("redirect_uri"@, redirect@),
                        ("client_id"@, authorization.login.config.client_id@),
                        ("code_verifier"@, authorization.secrets.verifier@),
                    ],
                )
            },
            (RedirectReading::StateMismatch, RedirectStep::Failed(error)) => fails_internally(
                error,
                "OIDC redirect state mismatch (possible CSRF)"@,
            ),
            (RedirectReading::Nothing, RedirectStep::Waiting(next)) => {
                &&& next.connections_left + 1 == authorization.connections_left
                &&& next.connections_left > 0
                &&& next.login == authorization.login
                &&& next.secrets == authorization.secrets
                &&& next.port == authorization.port
                &&& next.token_endpoint == authorization.token_endpoint
                &&& next.authorize_url == authorization.authorize_url
                &&& next.authorization_endpoint == authorization.authorization_endpoint
            },
            (RedirectReading::Nothing, RedirectStep::Failed(error)) => {
                authorization.connections_left == 1 && fails_internally(
                    error,
                    "gave up waiting for the OIDC redirect"@,
                )
            },
            _ => false,
        },
{
    if let RedirectStep::Exchange(exchange) = res.1 {
        lemma_holds_pairs(exchange.form@, urls::pair_views(exchange.form@));
    }
}

/// A connection is answered by the text of its bytes.
pub proof fn law_a_connection_is_answered_by_its_text(
    authorization: OidcAuthorization,
    bytes: &[u8],
    request: &str,
    by_text: (String, RedirectStep),
    res: (String, RedirectStep),
)
    requires
        request@ == oidc::utf8_lossy(bytes@),
        call_ensures(OidcAuthorization::on_request, (authorization, request), by_text),
        call_ensures(OidcAuthorization::on_connection, (authorization, bytes), res),
    ensures
        res.0@ == by_text.0@,
        match (by_text.1, res.1) {
            (RedirectStep::Exchange(expected), RedirectStep::Exchange(exchange)) => {
                &&& exchange.login == expected.login
                &&& exchange.token_endpoint@ == expected.token_endpoint@
                &&& urls::pair_views(exchange.form@) == urls::pair_views(expected.form@)
            },
            (RedirectStep::Waiting(expected), RedirectStep::Waiting(next)) => next == expected,
            (RedirectStep::Failed(expected), RedirectStep::Failed(error)) => {
                expected matches InteractiveLoginError::Internal(message) && fails_internally(
                    error,
                    message@,
                )
            },
            _ => false,
        },
{
}

/// The ID token goes on to be stored; an answer without one ends the login.
pub proof fn law_an_exchange_yields_an_id_token(
    exchange: OidcExchange,
    response: TokenResponse,
    res: Result<OidcIdToken, InteractiveLoginError>,
)
    requires
        call_ensures(OidcExchange::on_token_response, (exchange, response), res),
    ensures
        match res {
            Ok(next) => response.id_token == Some(next.id_token) && next.login == exchange.login,
            Err(error) => response.id_token is None && fails_internally(
                error,
                "OIDC token response had no id_token"@,
            ),
        },
{
}

/// The ID token is kept under the auth URL, for its user, and may be sent to the server that was
/// logged in to and to no other.
pub proof fn law_an_id_token_is_bound_to_its_server(
    token: OidcIdToken,
    user: Option<UserInfo>,
    res: Result<(StoreToken, UserInfo), InteractiveLoginError>,
)
    requires
        call_ensures(OidcIdToken::on_decoded, (token, user), res),
    ensures
        match res {
            Ok((store, info)) => {
                &&& user == Some(info)
                &&& store.auth_url@ == token.login.auth_url@
                &&& store.user_id@ == info.id@
                &&& store.token@ == token.id_token@
                &&& store.domains@.len() == 1
                &&& store.domains@[0]@ == token.login.remote_domain@
                &&& store.refresh_token is None
            },
            Err(error) => user is None && fails_internally(
                error,
                "OIDC id_token could not be decoded"@,
            ),
        },
{
    if let Ok((store, info)) = res {
        texts::lemma_same_views(seq![token.login.remote_domain@], store.domains@);
    }
}

/// The characters that RFC 7636 admits in a verifier.
pub open spec fn is_unreserved(c: char) -> bool {
    ||| 'A' <= c <= 'Z'
    ||| 'a' <= c <= 'z'
    ||| '0' <= c <= '9'
    ||| c == '-'
    ||| c == '.'
    ||| c == '_'
    ||| c == '~'
}

proof fn lemma_alphabet()
    ensures
        forall|c: char| #[trigger] pkce::VERIFIER_ALPHABET@.contains(c) ==> is_unreserved(c),
{
    reveal_strlit("ABCDEFGHIJKLMNOPQRSTUVWXYZabcdefghijklmnopqrstuvwxyz0123456789-._~");
    let alphabet = pkce::VERIFIER_ALPHABET@;
    assert(alphabet.len() == 66);
    assert forall|c: char| #[trigger] alphabet.contains(c) implies is_unreserved(c) by {
        let i = choose|i: int| 0 <= i < alphabet.len() && alphabet[i] == c;
        assert(is_unreserved(alphabet[i]));
    }
}

/// A generated verifier has 64 characters, all of them admitted, and comes with its own challenge.
pub proof fn law_a_generated_challenge_is_that_of_its_verifier(
    res: (String, String),
    verifier: &str,
    challenge: String,
)
    requires
        call_ensures(pkce::generate_pkce, (), res),
        verifier@ == res.0@,
        call_ensures(pkce::pkce_challenge, (verifier,), challenge),
    ensures
        challenge@ == res.1@,
        res.0@.len() == 64,
        forall|i: int| 0 <= i < res.0@.len() ==> is_unreserved(#[trigger] res.0@[i]),
{
    lemma_alphabet();
}

/// The secrets of a login go together in the same way.
pub proof fn law_the_secrets_of_a_login_go_together(
    res: LoginSecrets,
    verifier: &str,
    challenge: String,
)
    requires
        call_ensures(LoginSecrets::generate, (), res),
        verifier@ == res.verifier@,
        call_ensures(pkce::pkce_challenge, (verifier,), challenge),
    ensures
        challenge@ == res.challenge@,
        res.verifier@.len() == 64,
        forall|i: int| 0 <= i < res.verifier@.len() ==> is_unreserved(#[trigger] res.verifier@[i]),
        res.state@.len() == 36,
        res.nonce@.len() == 36,
{
    lemma_alphabet();
}

/// A verifier has the letter at each of its indices: the capital letters first, then the small ones,
/// the digits and the four signs. So different indices spell different verifiers.
pub proof fn law_verifiers_are_spelled_from_their_indices(
    indices: Vec<usize>,
    others: Vec<usize>,
    one: String,
    other: String,
)
    requires
        forall|i: int| 0 <= i < indices@.len() ==> #[trigger] indices@[i] < 66,
        forall|i: int| 0 <= i < others@.len() ==> #[trigger] others@[i] < 66,
        call_ensures(pkce::verifier_from, (&indices,), one),
        call_ensures(pkce::verifier_from, (&others,), other),
    ensures
        one@.len() == indices@.len(),
        forall|i: int|
            0 <= i < one@.len() ==> (#[trigger] one@[i]) as int == letter_at(indices@[i] as int),
        one@ == other@ ==> indices@ == others@,
{
    reveal_strlit("ABCDEFGHIJKLMNOPQRSTUVWXYZabcdefghijklmnopqrstuvwxyz0123456789-._~");
    let alphabet = pkce::VERIFIER_ALPHABET@;
    assert(one@.len() == indices@.len());
    assert(other@.len() == others@.len());
    assert forall|i: int| 0 <= i < one@.len() implies (#[trigger] one@[i]) as int == letter_at(
        indices@[i] as int,
    ) by {
        let a = indices@[i] as int;
        assert(one@[i] == alphabet[a]);
        lemma_letters(a);
    }
    if one@ == other@ {
        assert forall|i: int| 0 <= i < indices@.len() implies indices@[i] == others@[i] by {
            let a = indices@[i] as int;
            let b = others@[i] as int;
            assert(one@[i] == alphabet[a]);
            assert(other@[i] == alphabet[b]);
            lemma_letters_differ(a, b);
        }
        assert(indices@ =~= others@);
    }
}

/// No character stands in the verifier alphabet twice: the letters and digits stand in their order.
proof fn lemma_letters_differ(a: int, b: int)
    requires
        0 <= a < 66,
        0 <= b < 66,
        pkce::VERIFIER_ALPHABET@[a] == pkce::VERIFIER_ALPHABET@[b],
    ensures
        a == b,
{
    lemma_letters(a);
    lemma_letters(b);
}

proof fn lemma_letters(i: int)
    requires
        0 <= i < 66,
    ensures
        pkce::VERIFIER_ALPHABET@[i] as int == letter_at(i),
{
    reveal_strlit("ABCDEFGHIJKLMNOPQRSTUVWXYZabcdefghijklmnopqrstuvwxyz0123456789-._~");
}

/// The number of the character at an index of the verifier alphabet.
pub open spec fn letter_at(i: int) -> int {
    if i < 26 {
        'A' as int + i
    } else if i < 52 {
        'a' as int + i - 26
    } else if i < 62 {
        '0' as int + i - 52
    } else if i == 62 {
        '-' as int
    } else if i == 63 {
        '.' as int
    } else if i == 64 {
        '_' as int
    } else {
        '~' as int
    }
}

/// The challenge of a verifier is the digest of its bytes, written in the URL-safe base64 form.
pub proof fn law_a_challenge_is_a_digest(verifier: &str, res: String)
    requires
        call_ensures(pkce::pkce_challenge, (verifier,), res),
    ensures
        res@ == pkce::base64url(pkce::sha256_of(vstd::utf8::encode_utf8(verifier@))),
        res@.len() == 43,
{
}

/// A refresh reads the provider as a login does, and asks for `openid profile offline_access` where
/// the auth URL names no scope.
pub proof fn law_a_refresh_reads_the_same_provider(
    parts: UrlParts,
    scope: &str,
    provider: Option<OidcConfig>,
    res: Option<(String, String, String)>,
)
    requires
        scope@ == "openid profile offline_access"@,
        call_ensures(oidc::provider_from, (&parts, scope), provider),
        call_ensures(oidc_refresh::refresh_config_from, (&parts,), res),
    ensures
        match (provider, res) {
            (Some(expected), Some((issuer, client_id, given))) => {
                &&& issuer@ == expected.issuer@
                &&& client_id@ == expected.client_id@
                &&& given@ == expected.scope@
            },
            (None, None) => true,
            _ => false,
        },
{
}

/// The grant of a refresh hands the refresh token to the provider, and asks at the discovery document
/// below the issuer.
pub proof fn law_a_grant_hands_over_the_refresh_token(
    parts: UrlParts,
    refresh_token: &str,
    config: Option<(String, String, String)>,
    res: Option<RefreshGrant>,
)
    requires
        call_ensures(oidc_refresh::refresh_config_from, (&parts,), config),
        call_ensures(oidc_refresh::grant_from, (&parts, refresh_token), res),
    ensures
        match (config, res) {
            (Some((issuer, client_id, scope)), Some(grant)) => {
                &&& grant.discovery_url@ == issuer@ + "/.well-known/openid-configuration"@
                &&& holds_pairs(
                    grant.form@,
                    seq![
                        ("grant_type"@, "refresh_token"@),
                        ("refresh_token"@, refresh_token@),
                        ("client_id"@, client_id@),
                        ("scope"@, scope@),
                    ],
                )
            },
            (None, None) => true,
            _ => false,
        },
{
    if let Some(grant) = res {
        lemma_holds_pairs(grant.form@, urls::pair_views(grant.form@));
    }
}

/// A refresh takes the auth URL apart as a URL; where it is none there is nothing to refresh.
pub proof fn law_a_refresh_takes_the_auth_url_apart(
    auth_url: &str,
    refresh_token: &str,
    parts: UrlParts,
    from_parts: Option<RefreshGrant>,
    res: Option<RefreshGrant>,
    config_from_parts: Option<(String, String, String)>,
    config: Option<(String, String, String)>,
)
    requires
        call_ensures(oidc_refresh::grant_from, (&parts, refresh_token), from_parts),
        call_ensures(oidc_refresh::refresh, (auth_url, refresh_token), res),
        call_ensures(oidc_refresh::refresh_config_from, (&parts,), config_from_parts),
        call_ensures(oidc_refresh::parse_auth_url, (auth_url,), config),
    ensures
        urls::url_parts_of(auth_url@) is None ==> res is None && config is None,
        urls::url_parts_of(auth_url@) == Some(parts@) ==> {
            &&& match (from_parts, res) {
                (Some(expected), Some(grant)) => grant.discovery_url@ == expected.discovery_url@
                    && urls::pair_views(grant.form@) == urls::pair_views(expected.form@),
                (None, None) => true,
                _ => false,
            }
            &&& match (config_from_parts, config) {
                (Some(expected), Some(given)) => given.0@ == expected.0@ && given.1@ == expected.1@
                    && given.2@ == expected.2@,
                (None, None) => true,
                _ => false,
            }
        },
{
}

/// A refresh yields the ID token of the answer, with the refresh token that replaces the old one, and
/// nothing without an ID token.
pub proof fn law_a_refresh_yields_the_answered_tokens(
    grant: RefreshGrant,
    response: RefreshResponse,
    res: Option<RefreshedToken>,
)
    requires
        call_ensures(RefreshGrant::on_response, (grant, response), res),
    ensures
        match res {
            Some(token) => response.id_token == Some(token.id_token) && response.refresh_token
                == token.refresh_token,
            None => response.id_token is None,
        },
{
}

} // verus!
