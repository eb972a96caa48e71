//! Logins against the authentication service of a server: with a token at hand, and interactively
//! in a browser.
//!
//! A flow goes through values that each hold what is known so far. What only the outside can say
//! (the server's environment, the reply of the service, what a token decodes to) is handed to their
//! methods, which say what follows.
use crate::authentication::{self, AuthenticationRegistry};
use crate::credentials::{StoreToken, UserInfo};
use crate::errors::{InteractiveLoginError, LoginError};
use crate::oidc::{self, UrlPresentation};
use crate::pkce;
use crate::text;
use crate::urls;
use std::sync::Arc;
use vstd::prelude::*;

verus! {

/// The type of tokens that need no exchange.
pub const LORE_TOKEN_TYPE: &'static str = "lore";

/// How often an interactive session is asked for its token.
pub const POLLING_MAX_RETRIES: u64 = 30;

/// How long to wait after asking in vain, in seconds.
pub const POLLING_INTERVAL_SECS: u64 = 5;

/// The token that an authentication service hands out.
#[derive(Debug, Clone)]
pub struct AuthenticationToken {
    pub user_id: String,
    pub token: String,
    pub refresh_token: Option<String>,
}

/// What a token decodes to.
#[derive(Debug)]
pub struct DecodedToken<E> {
    /// The domains that the token may be sent to.
    pub domains: Vec<String>,
    /// Whether the token may be used for the server being logged in to.
    pub usage: Result<(), E>,
}

/// `store` keeps the token of the user under the auth URL.
pub open spec fn keeps(
    store: StoreToken,
    auth_url: Seq<char>,
    user_id: Seq<char>,
    token: Seq<char>,
    domains: Seq<String>,
    refresh_token: Option<String>,
) -> bool {
    &&& store.auth_url@ == auth_url
    &&& store.user_id@ == user_id
    &&& store.token@ == token
    &&& store.domains@ == domains
    &&& store.refresh_token == refresh_token
}

/// A login with a token whose server has not been asked yet how it authenticates.
#[derive(Debug)]
pub struct PendingTokenLogin {
    pub token: String,
    pub token_type: String,
}

impl PendingTokenLogin {
    /// Takes the server's URL and the auth URL that its environment advertises.
    pub fn on_environment(self, remote_url: String, auth_url: Option<String>) -> (res: TokenLogin)
        ensures
            res.auth_url@ == match auth_url {
                Some(url) => url@,
                None => Seq::empty(),
            },
            res.recipient_url == remote_url,
            res.token == self.token,
            res.token_type == self.token_type,
    {
        let auth_url = match auth_url {
            Some(url) => url,
            None => {
                proof {
                    reveal_strlit("");
                }
                "".to_owned()
            },
        };
        TokenLogin {
            auth_url,
            recipient_url: remote_url,
            token: self.token,
            token_type: self.token_type,
        }
    }
}

/// A login with a token.
#[derive(Debug)]
pub struct TokenLogin {
    /// The auth URL that the token is stored under.
    pub auth_url: String,
    /// The URL whose domain the token has to be good for.
    pub recipient_url: String,
    pub token: String,
    pub token_type: String,
}

/// How a login with a token goes on.
#[derive(Debug)]
pub enum TokenLoginStart {
    /// Ask the server for its environment.
    ResolveEnvironment(PendingTokenLogin),
    /// The auth URL is known.
    Resolved(TokenLogin),
}

/// What `with_token` answers, where `is_url` says whether the explicit auth URL is a URL.
pub open spec fn token_start(
    token: Seq<char>,
    token_type: Seq<char>,
    explicit_auth_url: Option<Seq<char>>,
    is_url: bool,
    res: Result<TokenLoginStart, LoginError>,
) -> bool {
    match explicit_auth_url {
        None => res matches Ok(TokenLoginStart::ResolveEnvironment(pending)) && {
            &&& pending.token@ == token
            &&& pending.token_type@ == token_type
        },
        Some(url) => if is_url {
            res matches Ok(TokenLoginStart::Resolved(login)) && {
                &&& login.auth_url@ == url
                &&& login.recipient_url@ == url
                &&& login.token@ == token
                &&& login.token_type@ == token_type
            }
        } else {
            res matches Err(e) && e.is_internal("parsing explicit auth URL"@)
        },
    }
}

/// Starts a login with a token, given whether the explicit auth URL is a URL.
pub fn with_token_from(
    token: &str,
    token_type: &str,
    explicit_auth_url: Option<&str>,
    is_url: bool,
) -> (res: Result<TokenLoginStart, LoginError>)
    ensures
        token_start(
            token@,
            token_type@,
            match explicit_auth_url {
                Some(url) => Some(url@),
                None => None,
            },
            is_url,
            res,
        ),
{
    match explicit_auth_url {
        None => Ok(
            TokenLoginStart::ResolveEnvironment(
                PendingTokenLogin { token: token.to_owned(), token_type: token_type.to_owned() },
            ),
        ),
        Some(url) => if is_url {
            Ok(
                TokenLoginStart::Resolved(
                    TokenLogin {
                        auth_url: url.to_owned(),
                        recipient_url: url.to_owned(),
                        token: token.to_owned(),
                        token_type: token_type.to_owned(),
                    },
                ),
            )
        } else {
            Err(LoginError::internal("parsing explicit auth URL"))
        },
    }
}

/// Starts a login with a token. An explicit auth URL stands for the server too; without one the
/// server's environment says where it authenticates.
pub fn with_token(token: &str, token_type: &str, explicit_auth_url: Option<&str>) -> (res: Result<
    TokenLoginStart,
    LoginError,
>)
    ensures
        match explicit_auth_url {
            Some(url) => token_start(
                token@,
                token_type@,
                Some(url@),
                urls::url_parts_of(url@) is Some,
                res,
            ),
            None => token_start(token@, token_type@, None, false, res),
        },
{
    let is_url = match explicit_auth_url {
        Some(url) => match urls::url_parts(url) {
            Ok(_) => true,
            Err(_) => false,
        },
        None => false,
    };
    with_token_from(token, token_type, explicit_auth_url, is_url)
}

impl TokenLogin {
    /// The token is one that needs no exchange.
    pub open spec fn is_direct(&self) -> bool {
        self.token_type@ == LORE_TOKEN_TYPE@
    }

    /// Whether the token is stored as it is, without an exchange.
    pub fn direct(&self) -> (res: bool)
        ensures
            res == self.is_direct(),
    {
        text::same(self.token_type.as_str(), LORE_TOKEN_TYPE)
    }

    /// The implementation that exchanges the token.
    pub fn exchanger<A>(&self, registry: &mut AuthenticationRegistry<A>) -> (res: Result<
        Arc<A>,
        LoginError,
    >)
        requires
            old(registry).wf(),
        ensures
            final(registry).is_looked_up(old(registry)),
            match authentication::scheme_of(self.auth_url@) {
                Some(scheme) if final(registry)@.contains_key(scheme) => res == Ok::<
                    Arc<A>,
                    LoginError,
                >(final(registry)@[scheme]),
                _ => res matches Err(e) && e.is_internal("finding authentication handler"@),
            },
    {
        match authentication::find(registry, self.auth_url.as_str()) {
            Ok(auth) => Ok(auth),
            Err(_) => Err(LoginError::internal("finding authentication handler")),
        }
    }

    /// Takes what the token decodes to and what it says of its user, and asks for it to be stored.
    /// The token is looked at in this order: it decodes, it is good for the server, it names a user.
    pub fn on_decoded(
        self,
        decoded: Option<DecodedToken<LoginError>>,
        user_info: Option<UserInfo>,
    ) -> (res: Result<(StoreToken, UserInfo), LoginError>)
        ensures
            match (decoded, user_info) {
                (None, _) => res matches Err(e) && e.is_internal("decoding token"@),
                (Some(DecodedToken { usage: Err(fault), .. }), _) => res == Err::<
                    (StoreToken, UserInfo),
                    LoginError,
                >(fault),
                (Some(_), None) => res matches Err(e) && e.is_internal("Invalid token"@),
                (Some(token), Some(user)) => res matches Ok((store, info)) && info == user && keeps(
                    store,
                    self.auth_url@,
                    user.id@,
                    self.token@,
                    token.domains@,
                    None,
                ),
            },
    {
        let decoded = match decoded {
            Some(decoded) => decoded,
            None => return Err(LoginError::internal("decoding token")),
        };
        match decoded.usage {
            Ok(_) => {},
            Err(fault) => return Err(fault),
        }
        match user_info {
            Some(user) => Ok(
                (
                    StoreToken {
                        auth_url: self.auth_url,
                        user_id: user.id.clone(),
                        token: self.token,
                        domains: decoded.domains,
                        refresh_token: None,
                    },
                    user,
                ),
            ),
            None => Err(LoginError::internal("Invalid token")),
        }
    }

    /// Takes the token that came of the exchange, what it says of its user and what it decodes to,
    /// and asks for it to be stored. The token is looked at in this order: it names a user, it
    /// decodes, it is good for the server.
    pub fn on_exchanged(
        self,
        authn: AuthenticationToken,
        user_info: Option<UserInfo>,
        decoded: Option<DecodedToken<LoginError>>,
    ) -> (res: Result<(StoreToken, UserInfo), LoginError>)
        ensures
            match (user_info, decoded) {
                (None, _) => res matches Err(e) && e.is_internal("Invalid token"@),
                (Some(_), None) => res matches Err(e) && e.is_internal("decoding token"@),
                (Some(_), Some(DecodedToken { usage: Err(fault), .. })) => res == Err::<
                    (StoreToken, UserInfo),
                    LoginError,
                >(fault),
                (Some(user), Some(token)) => res matches Ok((store, info)) && info == user && keeps(
                    store,
                    self.auth_url@,
                    user.id@,
                    authn.token@,
                    token.domains@,
                    authn.refresh_token,
                ),
            },
    {
        let user = match user_info {
            Some(user) => user,
            None => return Err(LoginError::internal("Invalid token")),
        };
        let decoded = match decoded {
            Some(decoded) => decoded,
            None => return Err(LoginError::internal("decoding token")),
        };
        match decoded.usage {
            Ok(_) => Ok(
                (
                    StoreToken {
                        auth_url: self.auth_url,
                        user_id: user.id.clone(),
                        token: authn.token,
                        domains: decoded.domains,
                        refresh_token: authn.refresh_token,
                    },
                    user,
                ),
            ),
            Err(fault) => Err(fault),
        }
    }
}

/// An interactive login that is about to start a session with the service.
#[derive(Debug)]
pub struct InteractiveLogin {
    pub auth_url: String,
    pub no_browser: bool,
    /// What the service knows the session by.
    pub client_state: String,
}

/// How an interactive login goes on.
pub enum InteractiveStart<A> {
    /// The provider speaks OpenID Connect.
    OpenIdConnect(String),
    /// Start a session with the service that the implementation speaks to.
    Session(InteractiveLogin, Arc<A>),
}

/// The auth URL is that of a provider that speaks OpenID Connect.
pub open spec fn is_oidc(auth_url: Seq<char>) -> bool {
    authentication::scheme_of(auth_url) == Some(oidc::OIDC_SCHEME@)
}

/// Starts an interactive login with the auth URL that the server's environment advertises.
pub fn interactive<A>(
    auth_url: Option<String>,
    no_browser: bool,
    registry: &mut AuthenticationRegistry<A>,
) -> (res: Result<InteractiveStart<A>, InteractiveLoginError>)
    requires
        old(registry).wf(),
    ensures
        final(registry).wf(),
        match auth_url {
            Some(url) if url@.len() > 0 => if is_oidc(url@) {
                &&& *final(registry) == *old(registry)
                &&& res == Ok::<InteractiveStart<A>, InteractiveLoginError>(
                    InteractiveStart::OpenIdConnect(url),
                )
            } else {
                &&& final(registry).is_looked_up(old(registry))
                &&& match authentication::scheme_of(url@) {
                    Some(scheme) if final(registry)@.contains_key(scheme) => res matches Ok(
                        InteractiveStart::Session(login, auth),
                    ) && {
                        &&& auth == final(registry)@[scheme]
                        &&& login.auth_url == url
                        &&& login.no_browser == no_browser
                        &&& pkce::is_uuid_v4(login.client_state@)
                    },
                    _ => res matches Err(e) && e.is_internal("finding authentication handler"@),
                }
            },
            _ => {
                &&& *final(registry) == *old(registry)
                &&& res matches Err(e) && e.is_internal("No authentication configured on server"@)
            },
        },
{
    let auth_url = match auth_url {
        Some(url) => url,
        None => return Err(
            InteractiveLoginError::internal("No authentication configured on server"),
        ),
    };
    if auth_url.as_str().unicode_len() == 0 {
        return Err(InteractiveLoginError::internal("No authentication configured on server"));
    }
    let oidc_scheme = match authentication::parse_scheme(auth_url.as_str()) {
        Ok(scheme) => text::same(scheme, oidc::OIDC_SCHEME),
        Err(_) => false,
    };
    if oidc_scheme {
        return Ok(InteractiveStart::OpenIdConnect(auth_url));
    }
    match authentication::find(registry, auth_url.as_str()) {
        Ok(auth) => {
            let client_state = pkce::random_uuid();
            Ok(
                InteractiveStart::Session(
                    InteractiveLogin { auth_url, no_browser, client_state },
                    auth,
                ),
            )
        },
        Err(_) => Err(InteractiveLoginError::internal("finding authentication handler")),
    }
}

impl InteractiveLogin {
    /// Takes the session that the service started: the URL goes to the user, and the service is
    /// asked for the token from then on.
    pub fn on_session(self, login_url: String, session_code: String) -> (res: (
        UrlPresentation,
        InteractivePoll,
    ))
        ensures
            if self.no_browser {
                res.0 == UrlPresentation::EmitEvent(login_url)
            } else {
                res.0 == UrlPresentation::OpenBrowser(login_url)
            },
            res.1.auth_url == self.auth_url,
            res.1.client_state == self.client_state,
            res.1.session_code == session_code,
            res.1.polls_left == POLLING_MAX_RETRIES,
    {
        let presentation = if self.no_browser {
            UrlPresentation::EmitEvent(login_url)
        } else {
            UrlPresentation::OpenBrowser(login_url)
        };
        (
            presentation,
            InteractivePoll {
                auth_url: self.auth_url,
                client_state: self.client_state,
                session_code,
                polls_left: POLLING_MAX_RETRIES,
            },
        )
    }
}

/// An interactive login that waits for its token.
#[derive(Debug)]
pub struct InteractivePoll {
    pub auth_url: String,
    pub client_state: String,
    pub session_code: String,
    /// How often the service may still be asked.
    pub polls_left: u64,
}

/// What follows an answer of the service.
#[derive(Debug)]
pub enum PollStep {
    Received(InteractiveToken),
    /// Wait for the polling interval, then ask again.
    Wait(InteractivePoll),
    /// Wait for the polling interval, then give up.
    GiveUp(InteractiveLoginError),
}

impl InteractivePoll {
    /// The service may be asked.
    pub open spec fn wf(&self) -> bool {
        0 < self.polls_left <= POLLING_MAX_RETRIES
    }

    /// `step` is what follows the answer: the token goes on, no token costs one poll, and the last poll
    /// without a token ends the login.
    pub open spec fn follows(&self, answer: Option<AuthenticationToken>, step: PollStep) -> bool {
        match answer {
            Some(authn) => step matches PollStep::Received(next) && next.auth_url
                == self.auth_url && next.authn == authn,
            None => if self.polls_left > 1 {
                step matches PollStep::Wait(next) && {
                    &&& next.wf()
                    &&& next.auth_url == self.auth_url
                    &&& next.client_state == self.client_state
                    &&& next.session_code == self.session_code
                    &&& next.polls_left == self.polls_left - 1
                }
            } else {
                step matches PollStep::GiveUp(e) && e.is_internal("Timeout"@)
            },
        }
    }

    /// Takes the answer of the service: a token, or none yet.
    pub fn on_poll(self, answer: Option<AuthenticationToken>) -> (res: PollStep)
        requires
            self.wf(),
        ensures
            self.follows(answer, res),
    {
        match answer {
            Some(authn) => PollStep::Received(InteractiveToken { auth_url: self.auth_url, authn }),
            None => if self.polls_left > 1 {
                PollStep::Wait(
                    InteractivePoll {
                        auth_url: self.auth_url,
                        client_state: self.client_state,
                        session_code: self.session_code,
                        polls_left: self.polls_left - 1,
                    },
                )
            } else {
                PollStep::GiveUp(InteractiveLoginError::internal("Timeout"))
            },
        }
    }
}

/// An interactive login that has its token.
#[derive(Debug)]
pub struct InteractiveToken {
    pub auth_url: String,
    pub authn: AuthenticationToken,
}

impl InteractiveToken {
    /// Takes what the token decodes to, and asks for it to be stored only where it is good for the
    /// server.
    pub fn on_decoded(self, decoded: Option<DecodedToken<InteractiveLoginError>>) -> (res: Result<
        StoreToken,
        InteractiveLoginError,
    >)
        ensures
            match decoded {
                None => res matches Err(e) && e.is_internal("decoding token"@),
                Some(DecodedToken { usage: Err(fault), .. }) => res == Err::<
                    StoreToken,
                    InteractiveLoginError,
                >(fault),
                Some(token) => res matches Ok(store) && keeps(
                    store,
                    self.auth_url@,
                    self.authn.user_id@,
                    self.authn.token@,
                    token.domains@,
                    self.authn.refresh_token,
                ),
            },
    {
        match decoded {
            Some(decoded) => match decoded.usage {
                Ok(_) => Ok(
                    StoreToken {
                        auth_url: self.auth_url,
                        user_id: self.authn.user_id,
                        token: self.authn.token,
                        domains: decoded.domains,
                        refresh_token: self.authn.refresh_token,
                    },
                ),
                Err(fault) => Err(fault),
            },
            None => Err(InteractiveLoginError::internal("decoding token")),
        }
    }
}

/// Ends an interactive login with what the token store says of its user.
pub fn logged_in(user_info: Option<UserInfo>) -> (res: Result<UserInfo, InteractiveLoginError>)
    ensures
        match user_info {
            Some(user) => res == Ok::<UserInfo, InteractiveLoginError>(user),
            None => res matches Err(e) && e.is_internal("Unable to load user info"@),
        },
{
    match user_info {
        Some(user) => Ok(user),
        None => Err(InteractiveLoginError::internal("Unable to load user info")),
    }
}

/// A session that never has a token is asked for it the maximum number of times, not more and not
/// less. `polls` are the states in which the service was asked, each following from the one before
/// it by a vain answer.
pub proof fn law_polls_are_counted(polls: Seq<InteractivePoll>, step: PollStep)
    requires
        polls.len() > 0,
        polls[0].polls_left == POLLING_MAX_RETRIES,
        forall|i: int|
            0 <= i < polls.len() - 1 ==> (#[trigger] polls[i]).follows(
                None,
                PollStep::Wait(polls[i + 1]),
            ),
        polls.last().follows(None, step),
    ensures
        polls.len() <= POLLING_MAX_RETRIES,
        step is GiveUp <==> polls.len() == POLLING_MAX_RETRIES,
        step is GiveUp || step is Wait,
        polls.last().polls_left == POLLING_MAX_RETRIES - (polls.len() - 1),
    decreases polls.len(),
{
    if polls.len() > 1 {
        let before = polls.drop_last();
        let n = polls.len() - 2;
        assert(before.last() == polls[n]);
        assert(polls[n].follows(None, PollStep::Wait(polls[n + 1])));
        assert forall|i: int| 0 <= i < before.len() - 1 implies (#[trigger] before[i]).follows(
            None,
            PollStep::Wait(before[i + 1]),
        ) by {
            assert(polls[i].follows(None, PollStep::Wait(polls[i + 1])));
        }
        law_polls_are_counted(before, PollStep::Wait(polls[n + 1]));
    }
}

} // verus!
