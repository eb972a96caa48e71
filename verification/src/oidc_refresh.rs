//! OpenID Connect refresh-token grant: the silent half of the login.
//!
//! Given a stored refresh token, a new ID token comes from the provider's token endpoint, so that an
//! expired ID token does not force another interactive login.
use crate::oidc;
use crate::urls::{self, UrlParts, UrlPartsView};
use vstd::prelude::*;

verus! {

/// The scopes that a refresh asks for where the auth URL names none.
pub const REFRESH_SCOPE: &'static str = "openid profile offline_access";

/// A refreshed token pair. Providers may rotate refresh tokens: a new one replaces the stored one.
#[derive(Debug)]
pub struct RefreshedToken {
    pub id_token: String,
    pub refresh_token: Option<String>,
}

/// What the provider's token endpoint answers to a refresh.
#[derive(Debug)]
pub struct RefreshResponse {
    pub id_token: Option<String>,
    pub refresh_token: Option<String>,
}

/// `res` is the issuer, the client identifier and the scope that the parts of an auth URL name, or
/// `None` where they name no provider.
pub open spec fn is_refresh_config(
    parts: UrlPartsView,
    res: Option<(String, String, String)>,
) -> bool {
    match res {
        Some((issuer, client_id, scope)) => {
            &&& oidc::names_provider(parts)
            &&& issuer@ == oidc::issuer_of(parts.host->0, parts.port, parts.path)
            &&& Some(client_id@) == urls::last_value(parts.query, "client_id"@)
            &&& scope@ == oidc::scope_of(parts, REFRESH_SCOPE@)
        },
        None => !oidc::names_provider(parts),
    }
}

/// What [`parse_auth_url`] answers for an auth URL.
pub open spec fn refresh_config_answer(
    auth_url: Seq<char>,
    res: Option<(String, String, String)>,
) -> bool {
    match urls::url_parts_of(auth_url) {
        Some(parts) => is_refresh_config(parts, res),
        None => res is None,
    }
}

/// Reads issuer, client identifier and scope out of the parts of an auth URL.
pub fn refresh_config_from(parts: &UrlParts) -> (res: Option<(String, String, String)>)
    ensures
        is_refresh_config(parts@, res),
{
    match oidc::provider_from(parts, REFRESH_SCOPE) {
        Some(config) => Some((config.issuer, config.client_id, config.scope)),
        None => None,
    }
}

/// Parses `oidc://host/path?client_id=..&scope=..` into issuer, client identifier and scope.
pub fn parse_auth_url(auth_url: &str) -> (res: Option<(String, String, String)>)
    ensures
        refresh_config_answer(auth_url@, res),
{
    match urls::url_parts(auth_url) {
        Ok(parts) => refresh_config_from(&parts),
        Err(_) => None,
    }
}

/// The form of a refresh-token grant, in order.
pub open spec fn refresh_form(
    refresh_token: Seq<char>,
    client_id: Seq<char>,
    scope: Seq<char>,
) -> Seq<(Seq<char>, Seq<char>)> {
    seq![
        ("grant_type"@, "refresh_token"@),
        ("refresh_token"@, refresh_token),
        ("client_id"@, client_id),
        ("scope"@, scope),
    ]
}

/// A refresh that knows its provider: where its discovery document is, and the form to post to the
/// token endpoint found there.
#[derive(Debug)]
pub struct RefreshGrant {
    pub discovery_url: String,
    pub form: Vec<(String, String)>,
}

/// `res` is the grant for the provider that the parts of an auth URL name, or `None` where they name
/// none.
pub open spec fn is_grant(
    parts: UrlPartsView,
    refresh_token: Seq<char>,
    res: Option<RefreshGrant>,
) -> bool {
    match res {
        Some(grant) => {
            &&& oidc::names_provider(parts)
            &&& grant.discovery_url@ == oidc::discovery_address(
                oidc::issuer_of(parts.host->0, parts.port, parts.path),
            )
            &&& urls::pair_views(grant.form@) == refresh_form(
                refresh_token,
                urls::last_value(parts.query, "client_id"@)->0,
                oidc::scope_of(parts, REFRESH_SCOPE@),
            )
        },
        None => !oidc::names_provider(parts),
    }
}

/// Prepares the grant for a provider.
fn grant_for(issuer: &str, client_id: &str, scope: &str, refresh_token: &str) -> (res: RefreshGrant)
    ensures
        res.discovery_url@ == oidc::discovery_address(issuer@),
        urls::pair_views(res.form@) == refresh_form(refresh_token@, client_id@, scope@),
{
    let mut form: Vec<(String, String)> = Vec::new();
    form.push(oidc::pair("grant_type", "refresh_token"));
    form.push(oidc::pair("refresh_token", refresh_token));
    form.push(oidc::pair("client_id", client_id));
    form.push(oidc::pair("scope", scope));
    assert(urls::pair_views(form@) =~= refresh_form(refresh_token@, client_id@, scope@));
    let discovery_url = oidc::discovery_url_of(issuer);
    RefreshGrant { discovery_url, form }
}

/// Prepares the grant for the provider that the parts of an auth URL name.
pub fn grant_from(parts: &UrlParts, refresh_token: &str) -> (res: Option<RefreshGrant>)
    ensures
        is_grant(parts@, refresh_token@, res),
{
    match refresh_config_from(parts) {
        Some((issuer, client_id, scope)) => Some(
            grant_for(issuer.as_str(), client_id.as_str(), scope.as_str(), refresh_token),
        ),
        None => None,
    }
}

/// Prepares the exchange of a refresh token for a new ID token; `None` where the auth URL names no
/// provider.
pub fn refresh(auth_url: &str, refresh_token: &str) -> (res: Option<RefreshGrant>)
    ensures
        match urls::url_parts_of(auth_url@) {
            Some(parts) => is_grant(parts, refresh_token@, res),
            None => res is None,
        },
{
    match parse_auth_url(auth_url) {
        Some((issuer, client_id, scope)) => Some(
            grant_for(issuer.as_str(), client_id.as_str(), scope.as_str(), refresh_token),
        ),
        None => None,
    }
}

impl RefreshGrant {
    /// Takes what the token endpoint answered; `None` where the answer holds no ID token.
    pub fn on_response(self, response: RefreshResponse) -> (res: Option<RefreshedToken>)
        ensures
            match response.id_token {
                Some(id_token) => res matches Some(token) && token.id_token == id_token
                    && token.refresh_token == response.refresh_token,
                None => res is None,
            },
    {
        match response.id_token {
            Some(id_token) => Some(
                RefreshedToken { id_token, refresh_token: response.refresh_token },
            ),
            None => None,
        }
    }
}

} // verus!
