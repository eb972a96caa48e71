//! The commands around stored identities: logging in and out, listing and resolving users.
use crate::credentials::UserInfo;
use crate::errors::AuthStoreError;
use crate::text;
use vstd::prelude::*;

verus! {

/// Arguments for resolving user IDs to display names.
#[derive(Debug, Clone)]
pub struct LoreAuthUserInfoArgs {
    /// User IDs to resolve; empty resolves the current user locally.
    pub user_ids: Vec<String>,
}

/// Arguments for a login with a token.
#[derive(Debug, Clone)]
pub struct LoreAuthLoginWithTokenArgs {
    /// URL of the server; empty takes it from the repository.
    pub remote_url: String,
    pub token: String,
    pub token_type: String,
    /// URL of the auth service; used directly where it is not empty.
    pub auth_url: String,
}

/// Arguments for an interactive login.
#[derive(Debug, Clone)]
pub struct LoreAuthLoginInteractiveArgs {
    /// URL of the server; empty takes it from the repository.
    pub remote_url: String,
    /// Emit the login URL instead of opening a browser.
    pub no_browser: u8,
}

/// Arguments for listing all stored identities.
#[derive(Debug, Clone)]
pub struct LoreAuthListArgs {
    /// Show the cached token of each identity.
    pub with_token: u8,
}

/// Arguments for removing stored tokens.
#[derive(Debug, Clone)]
pub struct LoreAuthLogoutArgs {
    /// URL of the auth service; empty has it resolved.
    pub auth_url: String,
    /// Resource whose token is removed; empty removes all tokens of the user.
    pub resource: String,
    /// User whose tokens are removed; empty removes those of all users.
    pub user_id: String,
}

/// Arguments for clearing all stored tokens.
#[derive(Debug, Clone)]
pub struct LoreAuthClearArgs {}

/// Arguments for resolving users from locally stored tokens.
#[derive(Debug, Clone)]
pub struct LoreAuthLocalUserInfoArgs {
    /// URL of the auth service; empty has it resolved.
    pub auth_endpoint: String,
    /// User IDs to resolve; empty resolves the current user.
    pub user_ids: Vec<String>,
    /// Emit the cached token of users who have one.
    pub with_token: u8,
}

/// An identity in the token store. One without a resource proves who the user is to the auth
/// service; one with a resource grants access to that.
#[derive(Debug, Clone)]
pub struct StoredIdentity {
    pub auth_url: String,
    pub resource: String,
    pub user_id: String,
    pub acceptable_root_domains: Vec<String>,
    pub expires_ms: u64,
    pub token: String,
}

/// A user who was looked up among the locally stored tokens.
#[derive(Debug, Clone)]
pub struct ResolvedUser {
    pub id: String,
    pub name: String,
    /// What the user's token says, where there is one.
    pub local_user_info: Option<UserInfo>,
}

/// What a command emits.
#[derive(Debug, Clone)]
pub enum AuthEvent {
    UserInfo { id: String, name: String },
    UserToken {
        id: String,
        name: String,
        token: String,
        preferred_username: String,
        flag_service_account: u8,
        expires: u64,
    },
    Identity {
        auth_url: String,
        resource: String,
        user_id: String,
        authorized_domains: String,
        expires: u64,
        token: String,
    },
}

/// An empty text.
fn empty() -> (res: String)
    ensures
        res@.len() == 0,
{
    proof {
        reveal_strlit("");
    }
    "".to_owned()
}

/// Whether the text is empty.
fn is_empty(s: &String) -> (res: bool)
    ensures
        res == (s@.len() == 0),
{
    s.as_str().unicode_len() == 0
}

/// Who resolves the users.
#[derive(Debug)]
pub enum UserInfoRoute {
    /// The locally stored tokens.
    Local(LoreAuthLocalUserInfoArgs),
    /// The auth service of the repository.
    Remote(Vec<String>),
}

/// Decides who resolves the users: the auth service, or where no user is named the locally stored
/// tokens, which know the current one.
pub fn resolve_user_info(args: LoreAuthUserInfoArgs) -> (res: UserInfoRoute)
    ensures
        if args.user_ids@.len() == 0 {
            res matches UserInfoRoute::Local(local) && {
                &&& local.auth_endpoint@.len() == 0
                &&& local.user_ids@.len() == 0
                &&& local.with_token == 0
            }
        } else {
            res == UserInfoRoute::Remote(args.user_ids)
        },
{
    if args.user_ids.len() == 0 {
        UserInfoRoute::Local(
            LoreAuthLocalUserInfoArgs {
                auth_endpoint: empty(),
                user_ids: Vec::new(),
                with_token: 0,
            },
        )
    } else {
        UserInfoRoute::Remote(args.user_ids)
    }
}

/// The name to show for a user: the preferred one, or else the full one, or else the ID.
pub open spec fn display_name(user_info: UserInfo) -> Seq<char> {
    if user_info.preferred_username@.len() > 0 {
        user_info.preferred_username@
    } else if user_info.name@.len() > 0 {
        user_info.name@
    } else {
        user_info.id@
    }
}

/// The event that tells who logged in.
pub fn send_user_info(user_info: UserInfo) -> (res: AuthEvent)
    ensures
        res matches AuthEvent::UserInfo { id, name } && id == user_info.id && name@ == display_name(
            user_info,
        ),
{
    let name = if !is_empty(&user_info.preferred_username) {
        user_info.preferred_username
    } else if !is_empty(&user_info.name) {
        user_info.name
    } else {
        user_info.id.clone()
    };
    AuthEvent::UserInfo { id: user_info.id, name }
}

/// The URL of the server: the given one, or else that of the repository, or else none.
pub open spec fn server_url(given: Seq<char>, configured: Option<String>) -> Seq<char> {
    if given.len() > 0 {
        given
    } else {
        match configured {
            Some(url) => url@,
            None => Seq::empty(),
        }
    }
}

/// Decides which server to log in to.
fn choose_server_url(given: String, configured: Option<String>) -> (res: String)
    ensures
        res@ == server_url(given@, configured),
{
    if !is_empty(&given) {
        return given;
    }
    match configured {
        Some(url) => url,
        None => {
            let none = empty();
            assert(none@ =~= Seq::empty());
            none
        },
    }
}

/// A login with a token that is to be made.
#[derive(Debug)]
pub struct TokenLoginRequest {
    pub remote_url: String,
    pub token: String,
    pub token_type: String,
    pub auth_url: Option<String>,
}

/// Decides how to log in with a token. `configured` is the server of the repository.
pub fn login_with_token(args: LoreAuthLoginWithTokenArgs, configured: Option<String>) -> (res:
    TokenLoginRequest)
    ensures
        res.remote_url@ == server_url(args.remote_url@, configured),
        res.token == args.token,
        res.token_type == args.token_type,
        res.auth_url == if args.auth_url@.len() > 0 {
            Some(args.auth_url)
        } else {
            None
        },
{
    let auth_url = if is_empty(&args.auth_url) {
        None
    } else {
        Some(args.auth_url)
    };
    TokenLoginRequest {
        remote_url: choose_server_url(args.remote_url, configured),
        token: args.token,
        token_type: args.token_type,
        auth_url,
    }
}

/// An interactive login that is to be made.
#[derive(Debug)]
pub struct InteractiveLoginRequest {
    pub remote_url: String,
    pub no_browser: bool,
}

/// Decides how to log in interactively. `configured` is the server of the repository.
pub fn login_interactive(args: LoreAuthLoginInteractiveArgs, configured: Option<String>) -> (res:
    InteractiveLoginRequest)
    ensures
        res.remote_url@ == server_url(args.remote_url@, configured),
        res.no_browser == (args.no_browser != 0),
{
    InteractiveLoginRequest {
        remote_url: choose_server_url(args.remote_url, configured),
        no_browser: args.no_browser != 0,
    }
}

impl LoreAuthListArgs {
    /// Whether the token store is to decrypt the tokens.
    pub fn include_token(&self) -> (res: bool)
        ensures
            res == (self.with_token != 0),
    {
        self.with_token != 0
    }
}

/// The event shows the identity, its domains separated by commas.
pub open spec fn shows_identity(event: AuthEvent, identity: StoredIdentity) -> bool {
    event matches AuthEvent::Identity {
        auth_url,
        resource,
        user_id,
        authorized_domains,
        expires,
        token,
    } && {
        &&& auth_url == identity.auth_url
        &&& resource == identity.resource
        &&& user_id == identity.user_id
        &&& authorized_domains@ == text::joined(
            text::views(identity.acceptable_root_domains@),
            ", "@,
        )
        &&& expires == identity.expires_ms
        &&& token == identity.token
    }
}

/// Lists the stored identities, one event for each.
pub fn list(identities: &Vec<StoredIdentity>) -> (res: Vec<AuthEvent>)
    ensures
        res@.len() == identities@.len(),
        forall|i: int|
            0 <= i < res@.len() ==> shows_identity(#[trigger] res@[i], identities@[i]),
{
    let mut events: Vec<AuthEvent> = Vec::new();
    let mut i: usize = 0;
    while i < identities.len()
        invariant
            i <= identities@.len(),
            events@.len() == i,
            forall|k: int| 0 <= k < i ==> shows_identity(#[trigger] events@[k], identities@[k]),
        decreases identities@.len() - i,
    {
        let identity = &identities[i];
        events.push(
            AuthEvent::Identity {
                auth_url: identity.auth_url.clone(),
                resource: identity.resource.clone(),
                user_id: identity.user_id.clone(),
                authorized_domains: text::join(&identity.acceptable_root_domains, ", "),
                expires: identity.expires_ms,
                token: identity.token.clone(),
            },
        );
        i = i + 1;
    }
    events
}

/// What is to be removed from the token store.
#[derive(Debug)]
pub enum TokenRemoval {
    /// All tokens under the auth URL.
    AllUsers { auth_url: String },
    /// All tokens of the user under the auth URL.
    User { auth_url: String, user_id: String },
    /// The token of the user under the key.
    Resource { store_key: String, user_id: String },
    /// All tokens there are.
    Everything,
}

/// `removal` is what the arguments ask to remove under the auth URL.
pub open spec fn asks_for(
    args: LoreAuthLogoutArgs,
    auth_url: Seq<char>,
    removal: TokenRemoval,
) -> bool {
    if args.user_id@.len() == 0 {
        removal matches TokenRemoval::AllUsers { auth_url: url } && url@ == auth_url
    } else if args.resource@.len() == 0 {
        removal matches TokenRemoval::User { auth_url: url, user_id } && url@ == auth_url && user_id
            == args.user_id
    } else {
        removal matches TokenRemoval::Resource { store_key, user_id } && store_key@ == auth_url
            + "/"@ + args.resource@ && user_id == args.user_id
    }
}

/// Decides what a logout removes under the resolved auth URL: everything where no user is named, all
/// that the user has there where no resource is named, and the token for the resource otherwise.
pub fn logout(args: LoreAuthLogoutArgs, auth_url: String) -> (res: TokenRemoval)
    ensures
        asks_for(args, auth_url@, res),
{
    if is_empty(&args.user_id) {
        TokenRemoval::AllUsers { auth_url }
    } else if is_empty(&args.resource) {
        TokenRemoval::User { auth_url, user_id: args.user_id }
    } else {
        let mut store_key = auth_url;
        store_key.append("/");
        store_key.append(args.resource.as_str());
        TokenRemoval::Resource { store_key, user_id: args.user_id }
    }
}

/// Decides what clearing removes: everything.
pub fn clear(args: LoreAuthClearArgs) -> (res: TokenRemoval)
    ensures
        res is Everything,
{
    TokenRemoval::Everything
}

/// How the auth endpoint is found.
#[derive(Debug)]
pub enum EndpointStep {
    Resolved(String),
    /// Ask the server of the repository for its auth URL.
    AskServer,
    /// Ask the token store for its identities.
    AskTokenStore,
}

/// Starts the search for the auth endpoint: a given one is taken as it is.
pub fn resolve_auth_endpoint(auth_endpoint: &str) -> (res: EndpointStep)
    ensures
        if auth_endpoint@.len() > 0 {
            res matches EndpointStep::Resolved(url) && url@ == auth_endpoint@
        } else {
            res is AskServer
        },
{
    if auth_endpoint.unicode_len() > 0 {
        EndpointStep::Resolved(auth_endpoint.to_owned())
    } else {
        EndpointStep::AskServer
    }
}

/// Takes the auth URL that the server of the repository gave, where there is a repository and its
/// server could be reached.
pub fn on_server_auth_url(auth_url: Option<String>) -> (res: EndpointStep)
    ensures
        match auth_url {
            Some(url) if url@.len() > 0 => res == EndpointStep::Resolved(url),
            _ => res is AskTokenStore,
        },
{
    match auth_url {
        Some(url) => if is_empty(&url) {
            EndpointStep::AskTokenStore
        } else {
            EndpointStep::Resolved(url)
        },
        None => EndpointStep::AskTokenStore,
    }
}

/// The identity proves who the user is, and does so to the auth service at the URL.
pub open spec fn authenticates_at(identity: StoredIdentity, auth_url: Seq<char>) -> bool {
    identity.resource@.len() == 0 && identity.auth_url@ == auth_url
}

/// Some identity authenticates at the URL.
pub open spec fn known_endpoint(identities: Seq<StoredIdentity>, auth_url: Seq<char>) -> bool {
    exists|i: int|
        0 <= i < identities.len() && authenticates_at(#[trigger] identities[i], auth_url)
}

/// The answer of the token store to the search for the auth endpoint: the only one that identities
/// authenticate at. More than one are ambiguous.
pub open spec fn stored_endpoint(
    identities: Seq<StoredIdentity>,
    res: Result<String, AuthStoreError>,
) -> bool {
    match res {
        Ok(url) => {
            &&& known_endpoint(identities, url@)
            &&& forall|other: Seq<char>| known_endpoint(identities, other) ==> other == url@
        },
        Err(e) => {
            ||| {
                &&& e.is_internal("No auth endpoint available"@)
                &&& forall|url: Seq<char>| !known_endpoint(identities, url)
            }
            ||| {
                &&& e.is_internal(
                    "Multiple auth endpoints stored; run inside a repository or pass an explicit auth URL"@,
                )
                &&& exists|one: Seq<char>, other: Seq<char>|
                    #![trigger known_endpoint(identities, one), known_endpoint(identities, other)]
                    one != other && known_endpoint(identities, one) && known_endpoint(
                        identities,
                        other,
                    )
            }
        },
    }
}

/// Ends the search for the auth endpoint with the identities in the token store, where it could be
/// read.
pub fn on_stored_identities(identities: Option<&Vec<StoredIdentity>>) -> (res: Result<
    String,
    AuthStoreError,
>)
    ensures
        stored_endpoint(
            match identities {
                Some(identities) => identities@,
                None => Seq::empty(),
            },
            res,
        ),
{
    let stored = match identities {
        Some(stored) => stored,
        None => return Err(AuthStoreError::internal("No auth endpoint available")),
    };
    let mut found: Option<&String> = None;
    let mut i: usize = 0;
    while i < stored.len()
        invariant
            identities == Some(stored),
            i <= stored@.len(),
            match found {
                Some(url) => known_endpoint(stored@, url@) && forall|k: int|
                    0 <= k < i && (#[trigger] stored@[k]).resource@.len() == 0
                        ==> stored@[k].auth_url@ == url@,
                None => forall|k: int|
                    0 <= k < i ==> (#[trigger] stored@[k]).resource@.len() > 0,
            },
        decreases stored@.len() - i,
    {
        let identity = &stored[i];
        if is_empty(&identity.resource) {
            assert(authenticates_at(stored@[i as int], identity.auth_url@));
            assert(known_endpoint(stored@, identity.auth_url@));
            match found {
                Some(url) => {
                    if !text::same(url.as_str(), identity.auth_url.as_str()) {
                        return Err(
                            AuthStoreError::internal(
                                "Multiple auth endpoints stored; run inside a repository or pass an explicit auth URL",
                            ),
                        );
                    }
                },
                None => {
                    found = Some(&identity.auth_url);
                },
            }
        }
        i = i + 1;
    }
    match found {
        Some(url) => Ok(url.clone()),
        None => Err(AuthStoreError::internal("No auth endpoint available")),
    }
}

impl LoreAuthLocalUserInfoArgs {
    /// Whether the identities stored for the auth endpoint have to be asked for the current user.
    pub fn wants_current_user(&self) -> (res: bool)
        ensures
            res == (self.user_ids@.len() == 0),
    {
        self.user_ids.len() == 0
    }
}

/// The users to resolve: the given ones, or else the first stored identity.
pub open spec fn users_to_resolve(given: Seq<String>, stored: Seq<String>) -> Seq<String> {
    if given.len() == 0 && stored.len() > 0 {
        seq![stored[0]]
    } else {
        given
    }
}

/// Decides whom to resolve. `stored` are the users with an identity for the auth endpoint.
pub fn choose_users(given: Vec<String>, stored: &Vec<String>) -> (res: Vec<String>)
    ensures
        res@ == users_to_resolve(given@, stored@),
{
    let mut user_ids = given;
    if user_ids.len() == 0 && stored.len() > 0 {
        user_ids.push(stored[0].clone());
        assert(user_ids@ =~= seq![stored@[0]]);
    }
    user_ids
}

/// The event shows the user, with the token where it is asked for and there is one.
pub open spec fn shows_user(event: AuthEvent, user: ResolvedUser, include_token: bool) -> bool {
    match user.local_user_info {
        Some(info) if include_token => event == (AuthEvent::UserToken {
            id: info.id,
            name: info.name,
            token: info.token,
            preferred_username: info.preferred_username,
            flag_service_account: if info.is_service_account {
                1
            } else {
                0
            },
            expires: info.expires,
        }),
        _ => event == (AuthEvent::UserInfo { id: user.id, name: user.name }),
    }
}

/// Shows the users that were looked up among the locally stored tokens, one event for each.
pub fn local_user_info(resolved: &Vec<ResolvedUser>, with_token: u8) -> (res: Vec<AuthEvent>)
    ensures
        res@.len() == resolved@.len(),
        forall|i: int|
            0 <= i < res@.len() ==> shows_user(#[trigger] res@[i], resolved@[i], with_token != 0),
{
    let include_token = with_token != 0;
    let mut events: Vec<AuthEvent> = Vec::new();
    let mut i: usize = 0;
    while i < resolved.len()
        invariant
            i <= resolved@.len(),
            events@.len() == i,
            forall|k: int|
                0 <= k < i ==> shows_user(#[trigger] events@[k], resolved@[k], include_token),
        decreases resolved@.len() - i,
    {
        let user = &resolved[i];
        let event = match &user.local_user_info {
            Some(info) if include_token => AuthEvent::UserToken {
                id: info.id.clone(),
                name: info.name.clone(),
                token: info.token.clone(),
                preferred_username: info.preferred_username.clone(),
                flag_service_account: if info.is_service_account {
                    1
                } else {
                    0
                },
                expires: info.expires,
            },
            _ => AuthEvent::UserInfo { id: user.id.clone(), name: user.name.clone() },
        };
        events.push(event);
        i = i + 1;
    }
    events
}

/// A token leaves the store in an event only where it was asked for.
pub proof fn law_no_token_unasked(event: AuthEvent, user: ResolvedUser)
    requires
        shows_user(event, user, false),
    ensures
        event is UserInfo,
{
}

/// The answer of the token store is the same in whichever order it holds its identities: what it
/// answers for some identities, it answers for all lists with the same ones.
pub proof fn law_stored_endpoint_ignores_order(
    identities: Seq<StoredIdentity>,
    reordered: Seq<StoredIdentity>,
    res: Result<String, AuthStoreError>,
)
    requires
        forall|identity: StoredIdentity|
            identities.contains(identity) <==> reordered.contains(identity),
        stored_endpoint(identities, res),
    ensures
        stored_endpoint(reordered, res),
{
    assert forall|url: Seq<char>|
        known_endpoint(identities, url) == known_endpoint(reordered, url) by {
        if known_endpoint(identities, url) {
            let i = choose|i: int|
                0 <= i < identities.len() && authenticates_at(#[trigger] identities[i], url);
            assert(identities.contains(identities[i]));
            let j = choose|j: int| 0 <= j < reordered.len() && reordered[j] == identities[i];
            assert(authenticates_at(reordered[j], url));
        }
        if known_endpoint(reordered, url) {
            let i = choose|i: int|
                0 <= i < reordered.len() && authenticates_at(#[trigger] reordered[i], url);
            assert(reordered.contains(reordered[i]));
            let j = choose|j: int| 0 <= j < identities.len() && identities[j] == reordered[i];
            assert(authenticates_at(identities[j], url));
        }
    }
}

} // verus!
