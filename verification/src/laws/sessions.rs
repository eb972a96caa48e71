//! What holds of the commands around stored identities, stated of their calls.
use crate::credentials::UserInfo;
use crate::errors::AuthStoreError;
use crate::session::{
    self, AuthEvent, EndpointStep, InteractiveLoginRequest, LoreAuthClearArgs, LoreAuthListArgs,
    LoreAuthLocalUserInfoArgs, LoreAuthLoginInteractiveArgs, LoreAuthLoginWithTokenArgs,
    LoreAuthLogoutArgs, LoreAuthUserInfoArgs, ResolvedUser, StoredIdentity, TokenLoginRequest,
    TokenRemoval, UserInfoRoute,
};
use crate::text;
use vstd::prelude::*;

verus! {

/// Users who are named are resolved by the auth service, all of them; without any the current user is
/// resolved among the stored tokens, whose token is not shown.
pub proof fn law_named_users_are_resolved_remotely(args: LoreAuthUserInfoArgs, res: UserInfoRoute)
    requires
        call_ensures(session::resolve_user_info, (args,), res),
    ensures
        match res {
            UserInfoRoute::Remote(ids) => ids == args.user_ids && ids@.len() > 0,
            UserInfoRoute::Local(local) => {
                &&& args.user_ids@.len() == 0
                &&& local.user_ids@.len() == 0
                &&& local.auth_endpoint@.len() == 0
                &&& local.with_token == 0
            },
        },
{
}

/// A user is shown under the preferred name, and under the full name or the ID only where there is no
/// better one.
pub proof fn law_users_are_shown_under_their_best_name(user: UserInfo, res: AuthEvent)
    requires
        call_ensures(session::send_user_info, (user,), res),
    ensures
        res matches AuthEvent::UserInfo { id, name } && {
            &&& id == user.id
            &&& user.preferred_username@.len() > 0 ==> name@ == user.preferred_username@
            &&& user.preferred_username@.len() == 0 && user.name@.len() > 0 ==> name@ == user.name@
            &&& user.preferred_username@.len() == 0 && user.name@.len() == 0 ==> name@ == user.id@
        },
{
}

/// A login goes to the server that is named, and else to that of the repository. The token goes on
/// unchanged, and an auth URL is explicit where it is not empty.
pub proof fn law_logins_go_to_the_named_server(
    args: LoreAuthLoginWithTokenArgs,
    configured: Option<String>,
    res: TokenLoginRequest,
)
    requires
        call_ensures(session::login_with_token, (args, configured), res),
    ensures
        args.remote_url@.len() > 0 ==> res.remote_url@ == args.remote_url@,
        args.remote_url@.len() == 0 && configured is Some ==> res.remote_url@ == configured->0@,
        args.remote_url@.len() == 0 && configured is None ==> res.remote_url@.len() == 0,
        res.token@ == args.token@,
        res.token_type@ == args.token_type@,
        res.auth_url is Some <==> args.auth_url@.len() > 0,
        res.auth_url is Some ==> res.auth_url->0@ == args.auth_url@,
{
}

/// The same of an interactive login, which goes without a browser where that is asked for.
pub proof fn law_interactive_logins_go_to_the_named_server(
    args: LoreAuthLoginInteractiveArgs,
    configured: Option<String>,
    res: InteractiveLoginRequest,
)
    requires
        call_ensures(session::login_interactive, (args, configured), res),
    ensures
        args.remote_url@.len() > 0 ==> res.remote_url@ == args.remote_url@,
        args.remote_url@.len() == 0 && configured is Some ==> res.remote_url@ == configured->0@,
        args.remote_url@.len() == 0 && configured is None ==> res.remote_url@.len() == 0,
        res.no_browser <==> args.no_browser > 0,
{
}

/// Every stored identity is listed, in its order, with all that is stored of it; tokens are decrypted
/// only where they are asked for.
pub proof fn law_all_identities_are_listed(
    args: LoreAuthListArgs,
    decrypt: bool,
    identities: Vec<StoredIdentity>,
    res: Vec<AuthEvent>,
    i: int,
    domains: String,
)
    requires
        call_ensures(LoreAuthListArgs::include_token, (&args,), decrypt),
        call_ensures(session::list, (&identities,), res),
        0 <= i < identities@.len(),
        call_ensures(text::join, (&identities@[i].acceptable_root_domains, ", "), domains),
    ensures
        decrypt <==> args.with_token > 0,
        res@.len() == identities@.len(),
        res@[i] matches AuthEvent::Identity {
            auth_url,
            resource,
            user_id,
            authorized_domains,
            expires,
            token,
        } && {
            &&& auth_url@ == identities@[i].auth_url@
            &&& resource@ == identities@[i].resource@
            &&& user_id@ == identities@[i].user_id@
            &&& authorized_domains@ == domains@
            &&& expires == identities@[i].expires_ms
            &&& token@ == identities@[i].token@
        },
{
    assert(session::shows_identity(res@[i], identities@[i]));
}

/// A logout removes what it names and nothing else: the token for a resource, or all tokens of a user,
/// or without a user all tokens under the auth URL. Nothing but clearing removes everything.
pub proof fn law_a_logout_removes_what_it_names(
    args: LoreAuthLogoutArgs,
    auth_url: String,
    res: TokenRemoval,
    cleared: TokenRemoval,
)
    requires
        call_ensures(session::logout, (args, auth_url), res),
        call_ensures(session::clear, (LoreAuthClearArgs {  },), cleared),
    ensures
        cleared is Everything,
        match res {
            TokenRemoval::AllUsers { auth_url: url } => args.user_id@.len() == 0 && url@
                == auth_url@,
            TokenRemoval::User { auth_url: url, user_id } => {
                &&& args.user_id@.len() > 0
                &&& args.resource@.len() == 0
                &&& url@ == auth_url@
                &&& user_id@ == args.user_id@
            },
            TokenRemoval::Resource { store_key, user_id } => {
                &&& args.user_id@.len() > 0
                &&& args.resource@.len() > 0
                &&& store_key@ == auth_url@ + "/"@ + args.resource@
                &&& user_id@ == args.user_id@
            },
            TokenRemoval::Everything => false,
        },
{
}

/// The auth endpoint is the given one; without one the server is asked, and without an answer from
/// there the token store.
pub proof fn law_the_search_for_the_endpoint_goes_on_in_order(
    given: &str,
    started: EndpointStep,
    answered: Option<String>,
    next: EndpointStep,
)
    requires
        call_ensures(session::resolve_auth_endpoint, (given,), started),
        call_ensures(session::on_server_auth_url, (answered,), next),
    ensures
        match started {
            EndpointStep::Resolved(url) => given@.len() > 0 && url@ == given@,
            EndpointStep::AskServer => given@.len() == 0,
            EndpointStep::AskTokenStore => false,
        },
        match next {
            EndpointStep::Resolved(url) => answered == Some(url) && url@.len() > 0,
            EndpointStep::AskServer => false,
            EndpointStep::AskTokenStore => answered is None || answered->0@.len() == 0,
        },
{
}

/// The stored identities name an auth endpoint where those that authenticate their user, and not for
/// some resource, all do so at the same one.
pub proof fn law_the_only_stored_endpoint_is_taken(
    identities: Vec<StoredIdentity>,
    res: Result<String, AuthStoreError>,
    unreadable: Result<String, AuthStoreError>,
)
    requires
        call_ensures(session::on_stored_identities, (Some(&identities),), res),
        call_ensures(session::on_stored_identities, (None,), unreadable),
    ensures
        match res {
            Ok(url) => {
                &&& exists|i: int|
                    0 <= i < identities@.len() && (#[trigger] identities@[i]).resource@.len() == 0
                        && identities@[i].auth_url@ == url@
                &&& forall|i: int|
                    0 <= i < identities@.len() && (#[trigger] identities@[i]).resource@.len() == 0
                        ==> identities@[i].auth_url@ == url@
            },
            Err(AuthStoreError::Internal(message)) => {
                ||| message@ == "No auth endpoint available"@ && forall|i: int|
                    0 <= i < identities@.len() ==> (#[trigger] identities@[i]).resource@.len() > 0
                ||| message@
                    == "Multiple auth endpoints stored; run inside a repository or pass an explicit auth URL"@
                    && exists|i: int, j: int|
                    0 <= i < identities@.len() && 0 <= j < identities@.len() && (
                    #[trigger] identities@[i]).resource@.len() == 0 && (
                    #[trigger] identities@[j]).resource@.len() == 0 && identities@[i].auth_url@
                        != identities@[j].auth_url@
            },
            Err(_) => false,
        },
        unreadable matches Err(AuthStoreError::Internal(message)) && message@
            == "No auth endpoint available"@,
{
    let all = identities@;
    assert forall|i: int|
        0 <= i < all.len() && (#[trigger] all[i]).resource@.len() == 0 implies session::known_endpoint(
        all,
        all[i].auth_url@,
    ) by {
        assert(session::authenticates_at(all[i], all[i].auth_url@));
    }
    match res {
        Ok(url) => {
            let i = choose|i: int|
                0 <= i < all.len() && session::authenticates_at(#[trigger] all[i], url@);
            assert(all[i].resource@.len() == 0);
        },
        Err(error) => {
            if exists|one: Seq<char>, other: Seq<char>|
                #![trigger session::known_endpoint(all, one), session::known_endpoint(all, other)]
                one != other && session::known_endpoint(all, one) && session::known_endpoint(
                    all,
                    other,
                ) {
                let (one, other) = choose|one: Seq<char>, other: Seq<char>|
                    #![trigger session::known_endpoint(all, one), session::known_endpoint(all, other)]
                    one != other && session::known_endpoint(all, one) && session::known_endpoint(
                        all,
                        other,
                    );
                let i = choose|i: int|
                    0 <= i < all.len() && session::authenticates_at(#[trigger] all[i], one);
                let j = choose|j: int|
                    0 <= j < all.len() && session::authenticates_at(#[trigger] all[j], other);
                assert(all[i].resource@.len() == 0 && all[j].resource@.len() == 0);
            }
        },
    }
    if let Err(error) = unreadable {
    } else {
        assert(session::known_endpoint(Seq::<StoredIdentity>::empty(), unreadable->Ok_0@));
    }
    let none = Seq::<StoredIdentity>::empty();
    assert(forall|url: Seq<char>| !session::known_endpoint(none, url));
}

/// Users who are named are resolved; without any the first whose identity is stored, if there is one.
pub proof fn law_the_current_user_is_the_first_stored_one(
    args: LoreAuthLocalUserInfoArgs,
    wanted: bool,
    stored: Vec<String>,
    res: Vec<String>,
)
    requires
        call_ensures(LoreAuthLocalUserInfoArgs::wants_current_user, (&args,), wanted),
        call_ensures(session::choose_users, (args.user_ids, &stored), res),
    ensures
        wanted <==> args.user_ids@.len() == 0,
        args.user_ids@.len() > 0 ==> res@ == args.user_ids@,
        args.user_ids@.len() == 0 && stored@.len() > 0 ==> res@.len() == 1 && res@[0] == stored@[0],
        args.user_ids@.len() == 0 && stored@.len() == 0 ==> res@.len() == 0,
{
}

/// Every user who was looked up is shown, in the order of the lookup; with the token exactly where it
/// was asked for and there is one.
pub proof fn law_all_users_are_shown(
    resolved: Vec<ResolvedUser>,
    with_token: u8,
    res: Vec<AuthEvent>,
    i: int,
)
    requires
        call_ensures(session::local_user_info, (&resolved, with_token), res),
        0 <= i < resolved@.len(),
    ensures
        res@.len() == resolved@.len(),
        match res@[i] {
            AuthEvent::UserToken {
                id,
                name,
                token,
                preferred_username,
                flag_service_account,
                expires,
            } => {
                &&& with_token > 0
                &&& resolved@[i].local_user_info matches Some(info)
                &&& id == info.id
                &&& name == info.name
                &&& token == info.token
                &&& preferred_username == info.preferred_username
                &&& expires == info.expires
                &&& info.is_service_account ==> flag_service_account == 1
                &&& !info.is_service_account ==> flag_service_account == 0
            },
            AuthEvent::UserInfo { id, name } => {
                &&& with_token == 0 || resolved@[i].local_user_info is None
                &&& id == resolved@[i].id
                &&& name == resolved@[i].name
            },
            _ => false,
        },
{
    assert(session::shows_user(res@[i], resolved@[i], with_token != 0));
}

} // verus!
