//! OpenID Connect authorization-code login with PKCE.
//!
//! For external identity providers. The server advertises an `oidc://` auth URL that carries the
//! provider's parameters in its query, for example
//! `oidc://login.microsoftonline.com/<tenant>/v2.0?client_id=<id>&scope=openid%20profile`.
//! The issuer is the same URL over `https`, without the query.
//!
//! The login runs through four states. [`OidcLogin`] knows the provider; [`OidcAuthorization`] waits
//! for the browser to come back to the loopback listener; [`OidcExchange`] trades the authorization
//! code for an ID token; [`OidcIdToken`] holds that token until it is stored, bound to the server
//! that advertised the provider.
use crate::credentials::{StoreToken, UserInfo};
use crate::errors::InteractiveLoginError;
use crate::pkce::{self, LoginSecrets};
use crate::text;
use crate::urls::{self, UrlParts, UrlPartsView};
use vstd::prelude::*;

verus! {

/// The scheme that selects this login flow in an advertised auth URL.
pub const OIDC_SCHEME: &'static str = "oidc";

/// The scopes that a login asks for where the auth URL names none.
pub const LOGIN_SCOPE: &'static str = "openid profile";

/// How many connections the loopback listener takes before it gives up.
pub const REDIRECT_CONNECTIONS: u64 = 10;

/// More characters than an authorization request has besides the client identifier and the scope.
pub const REQUEST_CHARS: u64 = 1000;

/// The provider's endpoints, out of its discovery document.
#[derive(Debug, Clone)]
pub struct OidcDiscovery {
    pub authorization_endpoint: String,
    pub token_endpoint: String,
}

/// What the provider's token endpoint answers.
#[derive(Debug, Clone)]
pub struct TokenResponse {
    pub id_token: Option<String>,
    pub refresh_token: Option<String>,
}

/// Provider parameters out of an advertised `oidc://` auth URL.
#[derive(Debug, Clone)]
pub struct OidcConfig {
    /// HTTPS issuer URL (scheme rewritten, query stripped).
    pub issuer: String,
    pub client_id: String,
    pub scope: String,
}

/// How a port is written behind a host.
pub open spec fn port_suffix(port: Option<u16>) -> Seq<char> {
    match port {
        Some(p) => ":"@ + text::numeral(p as nat),
        None => Seq::empty(),
    }
}

/// The issuer of a provider: its auth URL over `https`, without the query and without slashes at
/// the end.
pub open spec fn issuer_of(host: Seq<char>, port: Option<u16>, path: Seq<char>) -> Seq<char> {
    text::without_trailing("https://"@ + host + port_suffix(port) + path, '/')
}

/// The scope of a provider: that of its auth URL, or a default.
pub open spec fn scope_of(parts: UrlPartsView, default_scope: Seq<char>) -> Seq<char> {
    match urls::last_value(parts.query, "scope"@) {
        Some(scope) => scope,
        None => default_scope,
    }
}

/// The parts hold all that a provider needs: a host and a client identifier.
pub open spec fn names_provider(parts: UrlPartsView) -> bool {
    parts.host is Some && urls::last_value(parts.query, "client_id"@) is Some
}

/// `config` is what the parts say of the provider.
pub open spec fn is_config(
    config: OidcConfig,
    parts: UrlPartsView,
    default_scope: Seq<char>,
) -> bool {
    &&& names_provider(parts)
    &&& config.issuer@ == issuer_of(parts.host->0, parts.port, parts.path)
    &&& Some(config.client_id@) == urls::last_value(parts.query, "client_id"@)
    &&& config.scope@ == scope_of(parts, default_scope)
}

/// Writes the issuer of a provider.
fn write_issuer(host: &str, port: Option<u16>, path: &str) -> (res: String)
    ensures
        res@ == issuer_of(host@, port, path@),
{
    let mut url = "https://".to_owned();
    url.append(host);
    let ghost before = url@;
    match port {
        Some(p) => {
            url.append(":");
            url.append(text::decimal(p as u64).as_str());
            assert(url@ =~= before + port_suffix(port));
        },
        None => {
            assert(url@ =~= before + port_suffix(port));
        },
    }
    url.append(path);
    text::trim_end(url.as_str(), '/')
}

/// Reads the provider out of the parts of an auth URL; `None` where one that it needs is missing.
pub fn provider_from(parts: &UrlParts, default_scope: &str) -> (res: Option<OidcConfig>)
    ensures
        match res {
            Some(config) => is_config(config, parts@, default_scope@),
            None => !names_provider(parts@),
        },
{
    match &parts.host {
        Some(host) => match urls::query_value(&parts.query, "client_id") {
            Some(client_id) => {
                let issuer = write_issuer(host.as_str(), parts.port, parts.path.as_str());
                let scope = match urls::query_value(&parts.query, "scope") {
                    Some(scope) => scope,
                    None => default_scope.to_owned(),
                };
                Some(OidcConfig { issuer, client_id, scope })
            },
            None => None,
        },
        None => None,
    }
}

/// Reads the login configuration out of the parts of an auth URL.
pub fn config_from(parts: &UrlParts) -> (res: Result<OidcConfig, InteractiveLoginError>)
    ensures
        match res {
            Ok(config) => is_config(config, parts@, LOGIN_SCOPE@),
            Err(e) => !names_provider(parts@) && e.is_internal(
                if parts@.host is None {
                    "oidc auth URL has no host"@
                } else {
                    "oidc auth URL is missing the `client_id` parameter"@
                },
            ),
        },
{
    match provider_from(parts, LOGIN_SCOPE) {
        Some(config) => Ok(config),
        None => if parts.host.is_none() {
            Err(InteractiveLoginError::internal("oidc auth URL has no host"))
        } else {
            Err(
                InteractiveLoginError::internal(
                    "oidc auth URL is missing the `client_id` parameter",
                ),
            )
        },
    }
}

/// What [`parse_auth_url`] answers for an auth URL.
pub open spec fn auth_url_answer(
    auth_url: Seq<char>,
    res: Result<OidcConfig, InteractiveLoginError>,
) -> bool {
    match urls::url_parts_of(auth_url) {
        None => res matches Err(e) && e.is_internal("parsing oidc auth URL"@),
        Some(parts) => match res {
            Ok(config) => is_config(config, parts, LOGIN_SCOPE@),
            Err(e) => !names_provider(parts) && e.is_internal(
                if parts.host is None {
                    "oidc auth URL has no host"@
                } else {
                    "oidc auth URL is missing the `client_id` parameter"@
                },
            ),
        },
    }
}

/// Parses an advertised `oidc://host/path?client_id=..&scope=..` auth URL.
pub fn parse_auth_url(auth_url: &str) -> (res: Result<OidcConfig, InteractiveLoginError>)
    ensures
        auth_url_answer(auth_url@, res),
{
    match urls::url_parts(auth_url) {
        Ok(parts) => config_from(&parts),
        Err(_) => Err(InteractiveLoginError::internal("parsing oidc auth URL")),
    }
}

/// The query parameters of an authorization request, in order.
pub open spec fn authorize_pairs(
    client_id: Seq<char>,
    redirect_uri: Seq<char>,
    scope: Seq<char>,
    state: Seq<char>,
    nonce: Seq<char>,
    code_challenge: Seq<char>,
) -> Seq<(Seq<char>, Seq<char>)> {
    seq![
        ("client_id"@, client_id),
        ("response_type"@, "code"@),
        ("redirect_uri"@, redirect_uri),
        ("response_mode"@, "query"@),
        ("scope"@, scope),
        ("state"@, state),
        ("nonce"@, nonce),
        ("code_challenge"@, code_challenge),
        ("code_challenge_method"@, "S256"@),
    ]
}

/// A name and a value as an owned pair.
pub(crate) fn pair(name: &str, value: &str) -> (res: (String, String))
    ensures
        res.0@ == name@,
        res.1@ == value@,
{
    (name.to_owned(), value.to_owned())
}

/// Builds the provider authorization URL for the authorization-code flow with PKCE.
pub fn build_authorize_url(
    authorization_endpoint: &str,
    client_id: &str,
    redirect_uri: &str,
    scope: &str,
    state: &str,
    nonce: &str,
    code_challenge: &str,
) -> (res: Result<String, InteractiveLoginError>)
    requires
        urls::url_input_fits(
            authorization_endpoint@,
            authorize_pairs(client_id@, redirect_uri@, scope@, state@, nonce@, code_challenge@),
        ),
    ensures
        match res {
            Ok(url) => {
                let pairs = authorize_pairs(
                    client_id@,
                    redirect_uri@,
                    scope@,
                    state@,
                    nonce@,
                    code_challenge@,
                );
                &&& urls::url_parts_of(authorization_endpoint@) is Some
                &&& urls::url_with_pairs(authorization_endpoint@, pairs) == Some(url@)
                &&& urls::url_parts_of(url@) is Some
                &&& urls::url_parts_of(url@)->0.query == urls::url_parts_of(
                    authorization_endpoint@,
                )->0.query + pairs
                &&& urls::url_parts_of(url@)->0.leads_to(
                    urls::url_parts_of(authorization_endpoint@)->0,
                )
            },
            Err(e) => urls::url_parts_of(authorization_endpoint@) is None && e.is_internal(
                "parsing authorization endpoint"@,
            ),
        },
{
    let mut pairs: Vec<(String, String)> = Vec::new();
    pairs.push(pair("client_id", client_id));
    pairs.push(pair("response_type", "code"));
    pairs.push(pair("redirect_uri", redirect_uri));
    pairs.push(pair("response_mode", "query"));
    pairs.push(pair("scope", scope));
    pairs.push(pair("state", state));
    pairs.push(pair("nonce", nonce));
    pairs.push(pair("code_challenge", code_challenge));
    pairs.push(pair("code_challenge_method", "S256"));
    assert(urls::pair_views(pairs@) =~= authorize_pairs(
        client_id@,
        redirect_uri@,
        scope@,
        state@,
        nonce@,
        code_challenge@,
    ));
    match urls::append_pairs(authorization_endpoint, &pairs) {
        Ok(url) => Ok(url),
        Err(_) => Err(InteractiveLoginError::internal("parsing authorization endpoint")),
    }
}

/// The `code` and `state` parameters of a redirect, where both are there.
pub open spec fn redirect_params(parts: UrlPartsView) -> Option<(Seq<char>, Seq<char>)> {
    match (urls::last_value(parts.query, "code"@), urls::last_value(parts.query, "state"@)) {
        (Some(code), Some(state)) => Some((code, state)),
        _ => None,
    }
}

/// The redirect parameters of a request line: those of its second word, read as a path on the
/// loopback host.
pub open spec fn request_params(request: Seq<char>) -> Option<(Seq<char>, Seq<char>)> {
    if text::words(request).len() < 2 {
        None
    } else {
        match urls::url_parts_of("http://127.0.0.1"@ + text::words(request)[1]) {
            Some(parts) => redirect_params(parts),
            None => None,
        }
    }
}

/// Reads `code` and `state` out of the parts of a redirect URL.
pub fn redirect_params_in(parts: &UrlParts) -> (res: Option<(String, String)>)
    ensures
        match res {
            Some((code, state)) => redirect_params(parts@) == Some((code@, state@)),
            None => redirect_params(parts@) is None,
        },
{
    match urls::query_value(&parts.query, "code") {
        Some(code) => match urls::query_value(&parts.query, "state") {
            Some(state) => Some((code, state)),
            None => None,
        },
        None => None,
    }
}

/// Extracts the `code` and `state` query parameters from a captured redirect request line
/// (`GET /?code=..&state=.. HTTP/1.1`).
pub fn parse_redirect_request(request: &str) -> (res: Option<(String, String)>)
    ensures
        match res {
            Some((code, state)) => request_params(request@) == Some((code@, state@)),
            None => request_params(request@) is None,
        },
{
    let words = text::split_words(request);
    assert(text::views(words@).len() == words@.len());
    if words.len() < 2 {
        return None;
    }
    let mut url = "http://127.0.0.1".to_owned();
    url.append(words[1].as_str());
    assert(text::words(request@)[1] == words@[1]@);
    match urls::url_parts(url.as_str()) {
        Ok(parts) => redirect_params_in(&parts),
        Err(_) => None,
    }
}

/// What a connection to the loopback listener brought.
#[derive(Debug)]
pub enum RedirectReading {
    /// The authorization code, with the `state` that was expected.
    Code(String),
    /// Redirect parameters with another `state`.
    StateMismatch,
    /// No redirect parameters: some other request of the browser.
    Nothing,
}

/// The parameters that a request carries on its first line.
pub open spec fn captured_params(request: Seq<char>) -> Option<(Seq<char>, Seq<char>)> {
    if text::lines(request).len() == 0 {
        None
    } else {
        request_params(text::lines(request)[0])
    }
}

/// `reading` is what the request brought.
pub open spec fn is_reading(
    reading: RedirectReading,
    request: Seq<char>,
    expected_state: Seq<char>,
) -> bool {
    match captured_params(request) {
        None => reading is Nothing,
        Some((code, state)) => if state == expected_state {
            reading matches RedirectReading::Code(c) && c@ == code
        } else {
            reading is StateMismatch
        },
    }
}

/// Reads a request to the loopback listener and holds its `state` against the expected one.
pub fn read_redirect(request: &str, expected_state: &str) -> (res: RedirectReading)
    ensures
        is_reading(res, request@, expected_state@),
{
    let lines = text::split_lines(request);
    assert(text::views(lines@).len() == lines@.len());
    if lines.len() == 0 {
        return RedirectReading::Nothing;
    }
    assert(text::lines(request@)[0] == lines@[0]@);
    match parse_redirect_request(lines[0].as_str()) {
        Some((code, state)) => if text::same(state.as_str(), expected_state) {
            RedirectReading::Code(code)
        } else {
            RedirectReading::StateMismatch
        },
        None => RedirectReading::Nothing,
    }
}

/// The page for a redirect that brought the code.
pub const COMPLETE_PAGE: &'static str = "<html><body><h2>Sign-in complete</h2>You may close this tab and return to the terminal.</body></html>";

/// The page for a redirect with another `state`.
pub const FAILED_PAGE: &'static str = "<html><body><h2>Sign-in failed</h2>State mismatch; please try again.</body></html>";

/// The page for any other request.
pub const WAITING_PAGE: &'static str = "<html><body>Waiting for sign-in...</body></html>";

/// The page that answers a request to the loopback listener.
pub open spec fn page_of(reading: RedirectReading) -> Seq<char> {
    match reading {
        RedirectReading::Code(_) => COMPLETE_PAGE@,
        RedirectReading::StateMismatch => FAILED_PAGE@,
        RedirectReading::Nothing => WAITING_PAGE@,
    }
}

/// The page that answers a request, given the `state` that is expected.
pub open spec fn answer_page(request: Seq<char>, expected_state: Seq<char>) -> Seq<char> {
    match captured_params(request) {
        Some((_, state)) => if state == expected_state {
            COMPLETE_PAGE@
        } else {
            FAILED_PAGE@
        },
        None => WAITING_PAGE@,
    }
}

/// A complete HTTP response with the given page; `Content-Length` is its length in bytes.
pub open spec fn http_response(page: Seq<char>) -> Seq<char> {
    "HTTP/1.1 200 OK\r\nContent-Type: text/html\r\nContent-Length: "@ + text::numeral(
        vstd::utf8::encode_utf8(page).len(),
    ) + "\r\nConnection: close\r\n\r\n"@ + page
}

/// Writes the HTTP response that answers a request to the loopback listener.
pub fn redirect_response(reading: &RedirectReading) -> (res: String)
    ensures
        res@ == http_response(page_of(*reading)),
{
    let page = match reading {
        RedirectReading::Code(_) => COMPLETE_PAGE,
        RedirectReading::StateMismatch => FAILED_PAGE,
        RedirectReading::Nothing => WAITING_PAGE,
    };
    let mut res = "HTTP/1.1 200 OK\r\nContent-Type: text/html\r\nContent-Length: ".to_owned();
    let length: usize = page.as_bytes().len();
    res.append(text::decimal(length as u64).as_str());
    res.append("\r\nConnection: close\r\n\r\n");
    res.append(page);
    res
}

/// The text that `String::from_utf8_lossy` reads out of bytes.
pub uninterp spec fn utf8_lossy(bytes: Seq<u8>) -> Seq<char>;

/// Decodes bytes with `String::from_utf8_lossy`. The contract claims that the bytes alone decide the
/// text.
#[verifier::external_body]
fn decode_lossy(bytes: &[u8]) -> (res: String)
    ensures
        res@ == utf8_lossy(bytes@),
{
    String::from_utf8_lossy(bytes).into_owned()
}

/// A login that knows its provider.
#[derive(Debug, Clone)]
pub struct OidcLogin {
    pub auth_url: String,
    /// The domain of the server that is being logged in to.
    pub remote_domain: String,
    pub no_browser: bool,
    pub config: OidcConfig,
}

/// The address of the provider's discovery document.
pub open spec fn discovery_address(issuer: Seq<char>) -> Seq<char> {
    issuer + "/.well-known/openid-configuration"@
}

/// Writes the address of the discovery document of an issuer.
pub fn discovery_url_of(issuer: &str) -> (res: String)
    ensures
        res@ == discovery_address(issuer@),
{
    let mut res = issuer.to_owned();
    res.append("/.well-known/openid-configuration");
    res
}

/// The loopback address that the provider redirects to.
pub open spec fn redirect_address(port: u16) -> Seq<char> {
    "http://127.0.0.1:"@ + text::numeral(port as nat) + "/"@
}

/// Writes the loopback address for a port.
pub fn redirect_uri_for(port: u16) -> (res: String)
    ensures
        res@ == redirect_address(port),
{
    let mut res = "http://127.0.0.1:".to_owned();
    res.append(text::decimal(port as u64).as_str());
    res.append("/");
    res
}

impl OidcLogin {
    /// Starts a login against the provider in `auth_url`, for the server with the given domain.
    pub fn begin(auth_url: &str, remote_domain: &str, no_browser: bool) -> (res: Result<
        Self,
        InteractiveLoginError,
    >)
        ensures
            match res {
                Ok(login) => {
                    &&& auth_url_answer(auth_url@, Ok(login.config))
                    &&& login.auth_url@ == auth_url@
                    &&& login.remote_domain@ == remote_domain@
                    &&& login.no_browser == no_browser
                },
                Err(e) => auth_url_answer(auth_url@, Err(e)),
            },
    {
        match parse_auth_url(auth_url) {
            Ok(config) => Ok(
                OidcLogin {
                    auth_url: auth_url.to_owned(),
                    remote_domain: remote_domain.to_owned(),
                    no_browser,
                    config,
                },
            ),
            Err(e) => Err(e),
        }
    }

    /// Where to fetch the provider's discovery document.
    pub fn discovery_url(&self) -> (res: String)
        ensures
            res@ == discovery_address(self.config.issuer@),
    {
        discovery_url_of(self.config.issuer.as_str())
    }

    /// The authorization request of this login with the given random parameters.
    pub open spec fn request_pairs(&self, port: u16, secrets: LoginSecrets) -> Seq<
        (Seq<char>, Seq<char>),
    > {
        authorize_pairs(
            self.config.client_id@,
            redirect_address(port),
            self.config.scope@,
            secrets.state@,
            secrets.nonce@,
            secrets.challenge@,
        )
    }

    /// Prepares the authorization request with the given random parameters, for a listener on the
    /// given loopback port.
    pub fn authorize(self, discovery: OidcDiscovery, port: u16, secrets: LoginSecrets) -> (res: Result<
        OidcAuthorization,
        InteractiveLoginError,
    >)
        requires
            secrets.wf(),
            urls::url_input_fits(
                discovery.authorization_endpoint@,
                self.request_pairs(port, secrets),
            ),
        ensures
            match res {
                Ok(next) => {
                    &&& next.wf()
                    &&& next.login == self
                    &&& next.secrets == secrets
                    &&& next.port == port
                    &&& next.authorization_endpoint@ == discovery.authorization_endpoint@
                    &&& next.token_endpoint@ == discovery.token_endpoint@
                    &&& next.connections_left == REDIRECT_CONNECTIONS
                },
                Err(e) => urls::url_parts_of(discovery.authorization_endpoint@) is None
                    && e.is_internal("parsing authorization endpoint"@),
            },
    {
        let redirect_uri = redirect_uri_for(port);
        let url = build_authorize_url(
            discovery.authorization_endpoint.as_str(),
            self.config.client_id.as_str(),
            redirect_uri.as_str(),
            self.config.scope.as_str(),
            secrets.state.as_str(),
            secrets.nonce.as_str(),
            secrets.challenge.as_str(),
        );
        match url {
            Ok(authorize_url) => Ok(
                OidcAuthorization {
                    login: self,
                    authorization_endpoint: discovery.authorization_endpoint,
                    token_endpoint: discovery.token_endpoint,
                    port,
                    secrets,
                    authorize_url,
                    connections_left: REDIRECT_CONNECTIONS,
                },
            ),
            Err(e) => Err(e),
        }
    }

    /// Prepares the authorization request with freshly drawn random parameters.
    pub fn on_discovery(self, discovery: OidcDiscovery, port: u16) -> (res: Result<
        OidcAuthorization,
        InteractiveLoginError,
    >)
        requires
            urls::BASE_CHAR_BYTES * discovery.authorization_endpoint@.len() + urls::PAIR_CHAR_BYTES
                * (self.config.client_id@.len() + self.config.scope@.len() + REQUEST_CHARS)
                <= urls::URL_BYTES_LIMIT,
        ensures
            match res {
                Ok(next) => {
                    &&& next.wf()
                    &&& next.login == self
                    &&& next.port == port
                    &&& next.authorization_endpoint@ == discovery.authorization_endpoint@
                    &&& next.token_endpoint@ == discovery.token_endpoint@
                    &&& next.connections_left == REDIRECT_CONNECTIONS
                },
                Err(e) => urls::url_parts_of(discovery.authorization_endpoint@) is None
                    && e.is_internal("parsing authorization endpoint"@),
            },
    {
        let secrets = LoginSecrets::generate();
        proof {
            lemma_request_chars(
                self.config.client_id@,
                port,
                self.config.scope@,
                secrets.state@,
                secrets.nonce@,
                secrets.challenge@,
            );
        }
        self.authorize(discovery, port, secrets)
    }
}

/// A numeral has no more characters than its number has digits: five for a port.
proof fn lemma_port_numeral(port: u16)
    ensures
        text::numeral(port as nat).len() <= 5,
{
    reveal_with_fuel(text::numeral, 5);
}

/// The fixed part of an authorization request is short.
proof fn lemma_request_chars(
    client_id: Seq<char>,
    port: u16,
    scope: Seq<char>,
    state: Seq<char>,
    nonce: Seq<char>,
    challenge: Seq<char>,
)
    requires
        state.len() == 36,
        nonce.len() == 36,
        challenge.len() == 43,
    ensures
        urls::pair_chars(
            authorize_pairs(client_id, redirect_address(port), scope, state, nonce, challenge),
        ) <= client_id.len() + scope.len() + REQUEST_CHARS,
{
    lemma_port_numeral(port);
    reveal_strlit("http://127.0.0.1:");
    reveal_strlit("/");
    reveal_strlit("client_id");
    reveal_strlit("response_type");
    reveal_strlit("code");
    reveal_strlit("redirect_uri");
    reveal_strlit("response_mode");
    reveal_strlit("query");
    reveal_strlit("scope");
    reveal_strlit("state");
    reveal_strlit("nonce");
    reveal_strlit("code_challenge");
    reveal_strlit("code_challenge_method");
    reveal_strlit("S256");
    reveal_with_fuel(urls::pair_chars, 10);
    let pairs = authorize_pairs(client_id, redirect_address(port), scope, state, nonce, challenge);
    assert(pairs.len() == 9);
}

/// How the authorization URL reaches the user.
#[derive(Debug, Clone)]
pub enum UrlPresentation {
    /// Open it in a browser.
    OpenBrowser(String),
    /// Emit it as an event, for a machine without a browser.
    EmitEvent(String),
}

/// A login that waits for the browser to come back from the provider.
#[derive(Debug, Clone)]
pub struct OidcAuthorization {
    pub login: OidcLogin,
    pub authorization_endpoint: String,
    pub token_endpoint: String,
    pub port: u16,
    pub secrets: LoginSecrets,
    pub authorize_url: String,
    /// How many more connections the listener takes.
    pub connections_left: u64,
}

/// What follows a connection to the loopback listener.
#[derive(Debug)]
pub enum RedirectStep {
    /// Keep listening.
    Waiting(OidcAuthorization),
    /// The code is here: trade it for a token.
    Exchange(OidcExchange),
    /// The login is over.
    Failed(InteractiveLoginError),
}

/// The form that trades an authorization code for tokens, in order.
pub open spec fn exchange_form(
    code: Seq<char>,
    redirect_uri: Seq<char>,
    client_id: Seq<char>,
    verifier: Seq<char>,
) -> Seq<(Seq<char>, Seq<char>)> {
    seq![
        ("grant_type"@, "authorization_code"@),
        ("code"@, code),
        ("redirect_uri"@, redirect_uri),
        ("client_id"@, client_id),
        ("code_verifier"@, verifier),
    ]
}

impl OidcAuthorization {
    /// The random parameters are in order, and the authorization URL carries them to the provider.
    pub open spec fn wf(&self) -> bool {
        &&& self.secrets.wf()
        &&& self.connections_left <= REDIRECT_CONNECTIONS
        &&& urls::url_parts_of(self.authorization_endpoint@) is Some
        &&& urls::url_with_pairs(
            self.authorization_endpoint@,
            self.login.request_pairs(self.port, self.secrets),
        ) == Some(self.authorize_url@)
        &&& urls::url_parts_of(self.authorize_url@) is Some
        &&& urls::url_parts_of(self.authorize_url@)->0.query == urls::url_parts_of(
            self.authorization_endpoint@,
        )->0.query + self.login.request_pairs(self.port, self.secrets)
        &&& urls::url_parts_of(self.authorize_url@)->0.leads_to(
            urls::url_parts_of(self.authorization_endpoint@)->0,
        )
    }

    /// How to bring the authorization URL before the user.
    pub fn present(&self) -> (res: UrlPresentation)
        ensures
            if self.login.no_browser {
                res matches UrlPresentation::EmitEvent(url) && url@ == self.authorize_url@
            } else {
                res matches UrlPresentation::OpenBrowser(url) && url@ == self.authorize_url@
            },
    {
        if self.login.no_browser {
            UrlPresentation::EmitEvent(self.authorize_url.clone())
        } else {
            UrlPresentation::OpenBrowser(self.authorize_url.clone())
        }
    }

    /// `step` is what follows a connection that brought the request.
    pub open spec fn is_step(&self, request: Seq<char>, step: RedirectStep) -> bool {
        match captured_params(request) {
            Some((code, state)) => if state == self.secrets.state@ {
                step matches RedirectStep::Exchange(next) && {
                    &&& next.login == self.login
                    &&& next.token_endpoint@ == self.token_endpoint@
                    &&& urls::pair_views(next.form@) == exchange_form(
                        code,
                        redirect_address(self.port),
                        self.login.config.client_id@,
                        self.secrets.verifier@,
                    )
                }
            } else {
                step matches RedirectStep::Failed(e) && e.is_internal(
                    "OIDC redirect state mismatch (possible CSRF)"@,
                )
            },
            None => if self.connections_left > 1 {
                step matches RedirectStep::Waiting(next) && {
                    &&& next.login == self.login
                    &&& next.authorization_endpoint == self.authorization_endpoint
                    &&& next.token_endpoint == self.token_endpoint
                    &&& next.port == self.port
                    &&& next.secrets == self.secrets
                    &&& next.authorize_url == self.authorize_url
                    &&& next.connections_left == self.connections_left - 1
                }
            } else {
                step matches RedirectStep::Failed(e) && e.is_internal(
                    "gave up waiting for the OIDC redirect"@,
                )
            },
        }
    }

    /// Takes the text of a request to the loopback listener and returns the response to send and
    /// what follows.
    pub fn on_request(self, request: &str) -> (res: (String, RedirectStep))
        requires
            self.connections_left > 0,
        ensures
            self.is_step(request@, res.1),
            res.0@ == http_response(answer_page(request@, self.secrets.state@)),
    {
        let reading = read_redirect(request, self.secrets.state.as_str());
        let response = redirect_response(&reading);
        let step = match reading {
            RedirectReading::Code(code) => {
                let redirect_uri = redirect_uri_for(self.port);
                let mut form: Vec<(String, String)> = Vec::new();
                form.push(pair("grant_type", "authorization_code"));
                form.push(pair("code", code.as_str()));
                form.push(pair("redirect_uri", redirect_uri.as_str()));
                form.push(pair("client_id", self.login.config.client_id.as_str()));
                form.push(pair("code_verifier", self.secrets.verifier.as_str()));
                assert(urls::pair_views(form@) =~= exchange_form(
                    code@,
                    redirect_address(self.port),
                    self.login.config.client_id@,
                    self.secrets.verifier@,
                ));
                RedirectStep::Exchange(
                    OidcExchange { login: self.login, token_endpoint: self.token_endpoint, form },
                )
            },
            RedirectReading::StateMismatch => RedirectStep::Failed(
                InteractiveLoginError::internal("OIDC redirect state mismatch (possible CSRF)"),
            ),
            RedirectReading::Nothing => if self.connections_left > 1 {
                let mut next = self;
                next.connections_left = next.connections_left - 1;
                RedirectStep::Waiting(next)
            } else {
                RedirectStep::Failed(
                    InteractiveLoginError::internal("gave up waiting for the OIDC redirect"),
                )
            },
        };
        (response, step)
    }

    /// Takes the bytes that a connection to the loopback listener brought.
    pub fn on_connection(self, request: &[u8]) -> (res: (String, RedirectStep))
        requires
            self.connections_left > 0,
        ensures
            self.is_step(utf8_lossy(request@), res.1),
            res.0@ == http_response(answer_page(utf8_lossy(request@), self.secrets.state@)),
    {
        let request = decode_lossy(request);
        self.on_request(request.as_str())
    }
}

/// A login that trades its authorization code for tokens.
#[derive(Debug, Clone)]
pub struct OidcExchange {
    pub login: OidcLogin,
    pub token_endpoint: String,
    /// The form to post to the token endpoint.
    pub form: Vec<(String, String)>,
}

impl OidcExchange {
    /// Takes what the token endpoint answered.
    pub fn on_token_response(self, response: TokenResponse) -> (res: Result<
        OidcIdToken,
        InteractiveLoginError,
    >)
        ensures
            match response.id_token {
                Some(token) => res matches Ok(next) && next.login == self.login && next.id_token
                    == token,
                None => res matches Err(e) && e.is_internal("OIDC token response had no id_token"@),
            },
    {
        match response.id_token {
            Some(id_token) => Ok(OidcIdToken { login: self.login, id_token }),
            None => Err(InteractiveLoginError::internal("OIDC token response had no id_token")),
        }
    }
}

/// A login that has its ID token.
#[derive(Debug, Clone)]
pub struct OidcIdToken {
    pub login: OidcLogin,
    pub id_token: String,
}

impl OidcIdToken {
    /// Takes what the ID token says of its user, and asks for the token to be stored under the auth
    /// URL, bound to the domain of the server being logged in to.
    pub fn on_decoded(self, user_info: Option<UserInfo>) -> (res: Result<
        (StoreToken, UserInfo),
        InteractiveLoginError,
    >)
        ensures
            match user_info {
                Some(user) => res matches Ok((store, info)) && {
                    &&& info == user
                    &&& store.auth_url@ == self.login.auth_url@
                    &&& store.user_id@ == user.id@
                    &&& store.token@ == self.id_token@
                    &&& text::views(store.domains@) == seq![self.login.remote_domain@]
                    &&& store.refresh_token is None
                },
                None => res matches Err(e) && e.is_internal("OIDC id_token could not be decoded"@),
            },
    {
        match user_info {
            Some(user) => {
                let mut domains: Vec<String> = Vec::new();
                domains.push(self.login.remote_domain);
                assert(text::views(domains@) =~= seq![self.login.remote_domain@]);
                Ok(
                    (
                        StoreToken {
                            auth_url: self.login.auth_url,
                            user_id: user.id.clone(),
                            token: self.id_token,
                            domains,
                            refresh_token: None,
                        },
                        user,
                    ),
                )
            },
            None => Err(InteractiveLoginError::internal("OIDC id_token could not be decoded")),
        }
    }
}

} // verus!
