//! What holds of requests to the server, stated of the calls that answer them.
use crate::auth_service::{self, AuthEndpoint, ConnectFault};
use crate::jwt_interceptor::{self, JWTAuthnInterceptor, JWTInterceptor, JwtVerifier};
use crate::laws::texts;
use crate::obliterate::{
    NamedAddress, ObliterateAction, ObliterateEvent, ObliterateStage, Obliteration,
};
use crate::repository_service::{HandlerSetup, LoreRepositoryV1Service, RepositoryCall};
use crate::settings::{AuthSettings, EnvironmentConfig};
use crate::status::{Code, Status};
use crate::text;
use std::sync::Arc;
use tonic::metadata::MetadataMap;
use tonic::transport::Endpoint;
use vstd::prelude::*;

verus! {

/// The status has this code and this message.
pub open spec fn is_status(status: Status, code: Code, message: Seq<char>) -> bool {
    status.code == code && status.message@ == message
}

/// A request to obliterate starts with the verification of its token where callers have to
/// authenticate, and is refused where it has none; where they do not have to, it starts with its
/// repository. It is about the address that it names, or else about the default one.
pub proof fn law_obliteration_begins_with_the_token<R: Copy, A: Copy>(
    auth_required: bool,
    metadata: MetadataMap,
    requested: Option<NamedAddress<A>>,
    default_address: NamedAddress<A>,
    token: Result<String, Status>,
    res: (Obliteration<R, A>, ObliterateAction<R, A>),
)
    requires
        call_ensures(jwt_interceptor::require_bearer_token, (&metadata,), token),
        call_ensures(
            Obliteration::<R, A>::begin,
            (auth_required, &metadata, requested, default_address),
            res,
        ),
    ensures
        res.0.auth_required == auth_required,
        requested matches Some(named) ==> res.0.target == named,
        requested is None ==> res.0.target == default_address,
        match (auth_required, token) {
            (false, _) => res.0.stage is Resolve && res.1 is ResolveRepository,
            (true, Ok(token)) => {
                &&& res.0.stage is Verify
                &&& res.1 matches ObliterateAction::VerifyToken(given)
                &&& given@ == token@
            },
            (true, Err(status)) => {
                &&& res.0.stage is Refused
                &&& res.1 matches ObliterateAction::Refuse(given)
                &&& is_status(given, status.code, status.message@)
            },
        },
{
}

/// Something went wrong with the work that was asked for.
pub open spec fn went_wrong<R>(event: ObliterateEvent<R>) -> bool {
    ||| event is TokenRejected
    ||| event is RepositoryRejected
    ||| event is NotPermitted
    ||| event is HookRefused
    ||| event is AddressNotFound
    ||| event is ObliterateFailed
    ||| event is NotifyFailed
}

/// Whatever goes wrong, with and without authentication and at whatever stage, ends the request: it is
/// refused with the status that says why, and nothing else is done for it.
pub proof fn law_whatever_goes_wrong_refuses_the_request<R: Copy, A: Copy>(
    event: ObliterateEvent<R>,
)
    requires
        went_wrong(event),
    ensures
        forall|request: &mut Obliteration<R, A>, action: ObliterateAction<R, A>| #[trigger]
            call_ensures(Obliteration::<R, A>::advance, (request, event), action) ==> {
                &&& final(request).stage is Refused
                &&& action matches ObliterateAction::Refuse(status)
                &&& match event {
                    ObliterateEvent::TokenRejected(reason) => is_status(
                        status,
                        Code::Unauthenticated,
                        "invalid token ("@ + reason@ + ")"@,
                    ),
                    ObliterateEvent::RepositoryRejected(given) => status == given,
                    ObliterateEvent::NotPermitted => is_status(
                        status,
                        Code::PermissionDenied,
                        "Permission denied"@,
                    ),
                    ObliterateEvent::HookRefused(given) => status == given,
                    ObliterateEvent::AddressNotFound => is_status(
                        status,
                        Code::NotFound,
                        "Address not found: "@ + request.target.text@,
                    ),
                    ObliterateEvent::ObliterateFailed(reason) => is_status(
                        status,
                        Code::Internal,
                        "Failed to obliterate "@ + request.target.text@ + ": "@ + reason@,
                    ),
                    _ => is_status(status, Code::Internal, "Obliterate failed"@),
                }
            },
{
}

/// Where nothing goes wrong, a request goes from one piece of work to the next: the token, the
/// repository, the permission where callers have to authenticate, the hooks, the store, the
/// notification. All of it is about the repository that was resolved and the address of the request.
pub proof fn law_a_request_goes_step_by_step<R: Copy, A: Copy>(event: ObliterateEvent<R>)
    requires
        !went_wrong(event),
    ensures
        forall|request: &mut Obliteration<R, A>, action: ObliterateAction<R, A>| #[trigger]
            call_ensures(Obliteration::<R, A>::advance, (request, event), action) ==> match event {
                ObliterateEvent::TokenVerified => final(request).stage is Resolve
                    && action is ResolveRepository,
                ObliterateEvent::RepositoryResolved(repository) => if request.auth_required {
                    final(request).stage == ObliterateStage::Permit(repository) && action == (
                    ObliterateAction::<R, A>::CheckPermission { repository })
                } else {
                    final(request).stage == ObliterateStage::Hook(repository) && action == (
                    ObliterateAction::<R, A>::RunPreHooks { repository })
                },
                ObliterateEvent::Permitted => request.stage matches ObliterateStage::Permit(
                    repository,
                ) ==> final(request).stage == ObliterateStage::Hook(repository) && action == (
                ObliterateAction::<R, A>::RunPreHooks { repository }),
                ObliterateEvent::HooksPassed => request.stage matches ObliterateStage::Hook(
                    repository,
                ) ==> final(request).stage == ObliterateStage::Store(repository) && action == (
                ObliterateAction::Obliterate { repository, address: request.target.address }),
                ObliterateEvent::Obliterated => request.stage matches ObliterateStage::Store(
                    repository,
                ) ==> final(request).stage == ObliterateStage::Notify(repository) && action == (
                ObliterateAction::Notify { repository, address: request.target.address }),
                _ => request.stage matches ObliterateStage::Notify(repository)
                    ==> final(request).stage is Succeeded && action == (ObliterateAction::<
                    R,
                    A,
                >::Succeed { repository }),
            },
{
}

/// The request stays the same while it is handled, and the store is asked to delete only once the
/// hooks have passed.
pub proof fn law_the_request_stays_the_same<R: Copy, A: Copy>(event: ObliterateEvent<R>)
    ensures
        forall|request: &mut Obliteration<R, A>, action: ObliterateAction<R, A>| #[trigger]
            call_ensures(Obliteration::<R, A>::advance, (request, event), action) ==> {
                &&& final(request).auth_required == request.auth_required
                &&& final(request).target == request.target
                &&& action is Obliterate || final(request).stage is Store ==> event is HooksPassed
                &&& action is Notify || final(request).stage is Notify ==> event is Obliterated
                &&& action is Succeed || final(request).stage is Succeeded ==> event is Notified
                &&& action is RunPreHooks || final(request).stage is Hook ==> event is Permitted
                    || event is RepositoryResolved && !request.auth_required
            },
{
}

/// The work of every stage can be answered at that stage, well or badly.
pub proof fn law_every_stage_takes_its_answers<R: Copy, A: Copy>(event: ObliterateEvent<R>)
    ensures
        forall|request: &mut Obliteration<R, A>|
            (match event {
                ObliterateEvent::TokenVerified
                | ObliterateEvent::TokenRejected(_) => request.stage is Verify,
                ObliterateEvent::RepositoryResolved(_)
                | ObliterateEvent::RepositoryRejected(_) => request.stage is Resolve,
                ObliterateEvent::Permitted
                | ObliterateEvent::NotPermitted => request.stage is Permit,
                ObliterateEvent::HooksPassed
                | ObliterateEvent::HookRefused(_) => request.stage is Hook,
                ObliterateEvent::Obliterated
                | ObliterateEvent::AddressNotFound
                | ObliterateEvent::ObliterateFailed(_) => request.stage is Store,
                ObliterateEvent::Notified
                | ObliterateEvent::NotifyFailed => request.stage is Notify,
            }) ==> #[trigger] call_requires(Obliteration::<R, A>::advance, (request, event)),
{
}

/// A header holds a token where it begins with the scheme `Bearer`, and the token is what follows the
/// scheme, however often that is repeated.
pub proof fn law_tokens_follow_the_scheme(header: &str, res: Option<String>)
    requires
        call_ensures(jwt_interceptor::token_from_header, (header,), res),
    ensures
        match res {
            Some(token) => {
                let dropped = header@.len() - token@.len();
                &&& dropped >= 7
                &&& dropped % 7 == 0
                &&& token@ == header@.subrange(dropped, header@.len() as int)
                &&& forall|i: int| 0 <= i < dropped ==> #[trigger] header@[i] == "Bearer "@[i % 7]
                &&& !texts::stands(token@, "Bearer "@, 0)
            },
            None => !texts::stands(header@, "Bearer "@, 0),
        },
{
    reveal_strlit("Bearer ");
    assert("Bearer "@.len() == 7);
    assert("Bearer "@.is_prefix_of(header@) <==> texts::stands(header@, "Bearer "@, 0));
    texts::lemma_without_leading(header@, "Bearer "@);
    let kept = text::without_leading(header@, "Bearer "@);
    if "Bearer "@.is_prefix_of(header@) {
        assert(kept.len() < header@.len()) by {
            if kept.len() == header@.len() {
                assert(kept =~= header@);
            }
        }
    }
}

/// The text of the `authorization` entry of the metadata: the first value of that name, where it is
/// written in visible characters, spaces and tabs.
pub open spec fn is_authorization(metadata: MetadataMap, header: Seq<char>) -> bool {
    let values = jwt_interceptor::metadata_values(metadata);
    &&& values.contains_key("authorization"@)
    &&& values["authorization"@].len() > 0
    &&& header.len() == values["authorization"@][0].len()
    &&& forall|i: int|
        0 <= i < header.len() ==> {
            &&& (#[trigger] header[i]) as int == values["authorization"@][0][i]
            &&& 32 <= header[i] as int <= 126 || header[i] as int == 9
        }
}

/// A request carries the token of its `authorization` entry, and none where that is missing or cannot
/// be read.
pub proof fn law_the_token_comes_from_the_metadata(
    metadata: MetadataMap,
    header: &str,
    res: Option<String>,
    read: Option<String>,
)
    requires
        call_ensures(jwt_interceptor::extract_bearer_token, (&metadata,), res),
        call_ensures(jwt_interceptor::token_from_header, (header,), read),
    ensures
        is_authorization(metadata, header@) ==> match res {
            Some(token) => read matches Some(other) && token@ == other@,
            None => read is None,
        },
        res is Some ==> exists|text: Seq<char>| #[trigger] is_authorization(metadata, text),
{
    let values = jwt_interceptor::metadata_values(metadata);
    if is_authorization(metadata, header@) {
        let bytes = values["authorization"@][0];
        assert forall|i: int| 0 <= i < bytes.len() implies (32 <= #[trigger] bytes[i] < 127
            || bytes[i] == 9) by {
            assert(header@[i] as int == bytes[i]);
        }
        assert(jwt_interceptor::header_text(bytes) =~= header@);
    }
    if res is Some {
        let bytes = values["authorization"@][0];
        let text = jwt_interceptor::header_text(bytes);
        assert forall|i: int| 0 <= i < text.len() implies {
            &&& (#[trigger] text[i]) as int == bytes[i]
            &&& 32 <= text[i] as int <= 126 || text[i] as int == 9
        } by {
            assert(32 <= bytes[i] < 127 || bytes[i] == 9);
        }
        assert(is_authorization(metadata, text));
    }
}

/// A request without a token is unauthenticated.
pub proof fn law_a_token_is_required(
    metadata: MetadataMap,
    found: Option<String>,
    res: Result<String, Status>,
)
    requires
        call_ensures(jwt_interceptor::extract_bearer_token, (&metadata,), found),
        call_ensures(jwt_interceptor::require_bearer_token, (&metadata,), res),
    ensures
        match found {
            Some(token) => res matches Ok(given) && given@ == token@,
            None => res matches Err(status) && is_status(
                status,
                Code::Unauthenticated,
                "authorization header required"@,
            ),
        },
{
}

/// A call is admitted exactly where it carries a token that was verified and that is authorized for
/// the repository, or trusted with all of them.
pub proof fn law_only_authorized_calls_are_admitted<T>(
    guard: JWTInterceptor,
    metadata: MetadataMap,
    verified: Result<T, String>,
    repository_allowed: bool,
    token: Result<String, Status>,
    res: Result<T, Status>,
)
    requires
        call_ensures(jwt_interceptor::require_bearer_token, (&metadata,), token),
        call_ensures(
            JWTInterceptor::call::<T>,
            (&guard, &metadata, verified, repository_allowed),
            res,
        ),
    ensures
        res is Ok <==> token is Ok && verified is Ok && (repository_allowed
            || guard.jwt_verifier.trust_authenticated),
        res is Ok ==> res->Ok_0 == verified->Ok_0,
        token is Err ==> (res matches Err(status) && is_status(
            status,
            Code::Unauthenticated,
            "authorization header required"@,
        )),
        token is Ok ==> (verified matches Err(reason) ==> (res matches Err(status) && is_status(
            status,
            Code::PermissionDenied,
            "Not allowed ("@ + reason@ + ")"@,
        ))),
        token is Ok && verified is Ok ==> (res matches Err(status) ==> is_status(
            status,
            Code::PermissionDenied,
            "Unauthorized"@,
        )),
{
}

/// Where the repository does not count, a call is admitted exactly where it carries a token that was
/// verified.
pub proof fn law_only_authenticated_calls_are_admitted<T>(
    guard: JWTAuthnInterceptor,
    metadata: MetadataMap,
    verified: Result<T, String>,
    token: Result<String, Status>,
    res: Result<T, Status>,
)
    requires
        call_ensures(jwt_interceptor::require_bearer_token, (&metadata,), token),
        call_ensures(JWTAuthnInterceptor::call::<T>, (&guard, &metadata, verified), res),
    ensures
        res is Ok <==> token is Ok && verified is Ok,
        res is Ok ==> res->Ok_0 == verified->Ok_0,
        token is Err ==> (res matches Err(status) && is_status(
            status,
            Code::Unauthenticated,
            "authorization header required"@,
        )),
        token is Ok ==> (verified matches Err(reason) ==> (res matches Err(status) && is_status(
            status,
            Code::PermissionDenied,
            "Not allowed ("@ + reason@ + ")"@,
        ))),
{
}

/// The lists hold the same texts in the same order.
pub open spec fn same_texts(one: Option<Vec<String>>, other: Option<Vec<String>>) -> bool {
    match (one, other) {
        (Some(a), Some(b)) => a@.len() == b@.len() && forall|i: int|
            0 <= i < a@.len() ==> (#[trigger] a@[i])@ == b@[i]@,
        (None, None) => true,
        _ => false,
    }
}

/// A verifier checks for the issuer and the audience of the settings that it was made for, and trusts
/// every authenticated user only where they say so in one word.
pub proof fn law_verifiers_check_for_what_is_configured(
    auth: Option<&AuthSettings>,
    res: Option<JwtVerifier>,
)
    requires
        call_ensures(JwtVerifier::for_callers, (auth,), res),
    ensures
        res is Some <==> auth is Some,
        res matches Some(verifier) ==> {
            &&& verifier.jwt_issuer == auth->0.jwt_issuer
            &&& same_texts(verifier.jwt_audience, auth->0.jwt_audience)
            &&& verifier.trust_authenticated <==> (auth->0.authorization_mode matches Some(mode)
                && mode@ == "trust_authenticated"@)
        },
{
    if let (Some(verifier), Some(auth)) = (res, auth) {
        lemma_same_texts(verifier.jwt_audience, auth.jwt_audience);
    }
}

pub(crate) proof fn lemma_same_texts(one: Option<Vec<String>>, other: Option<Vec<String>>)
    requires
        match (one, other) {
            (Some(a), Some(b)) => text::views(a@) == text::views(b@),
            (None, None) => true,
            _ => false,
        },
    ensures
        same_texts(one, other),
{
    if let (Some(a), Some(b)) = (one, other) {
        assert(text::views(a@).len() == text::views(b@).len());
        assert forall|i: int| 0 <= i < a@.len() implies (#[trigger] a@[i])@ == b@[i]@ by {
            assert(text::views(a@)[i] == a@[i]@);
            assert(text::views(b@)[i] == b@[i]@);
        }
    }
}

/// The same, of a verifier that is made of its parts.
pub proof fn law_trust_has_to_be_asked_for(
    issuer: Option<String>,
    audience: Option<Vec<String>>,
    mode: Option<&str>,
    res: JwtVerifier,
)
    requires
        call_ensures(JwtVerifier::from_settings, (issuer, audience, mode), res),
    ensures
        res.jwt_issuer == issuer,
        res.jwt_audience == audience,
        res.trust_authenticated <==> (mode matches Some(mode) && mode@ == "trust_authenticated"@),
{
}

/// The guards verify with the verifier that they were given.
pub proof fn law_guards_keep_their_verifier(
    verifier: JwtVerifier,
    guard: JWTInterceptor,
    authn: JWTAuthnInterceptor,
)
    requires
        call_ensures(JWTInterceptor::new, (&verifier,), guard),
        call_ensures(JWTAuthnInterceptor::new, (&verifier,), authn),
    ensures
        guard.jwt_verifier.jwt_issuer == verifier.jwt_issuer,
        same_texts(guard.jwt_verifier.jwt_audience, verifier.jwt_audience),
        guard.jwt_verifier.trust_authenticated == verifier.trust_authenticated,
        authn.jwt_verifier.jwt_issuer == verifier.jwt_issuer,
        same_texts(authn.jwt_verifier.jwt_audience, verifier.jwt_audience),
        authn.jwt_verifier.trust_authenticated == verifier.trust_authenticated,
{
    lemma_same_texts(guard.jwt_verifier.jwt_audience, verifier.jwt_audience);
    lemma_same_texts(authn.jwt_verifier.jwt_audience, verifier.jwt_audience);
}

/// A permissions service is asked under the auth URL, unless that begins with `oidc:`.
pub proof fn law_identity_providers_have_no_permissions_service(
    auth_url: Option<String>,
    res: Option<String>,
)
    requires
        call_ensures(auth_service::auth_service_url, (auth_url,), res),
    ensures
        res is Some <==> auth_url is Some && !texts::stands(auth_url->0@, "oidc:"@, 0),
        res is Some ==> res == auth_url,
{
    if let Some(url) = auth_url {
        assert("oidc:"@.is_prefix_of(url@) <==> texts::stands(url@, "oidc:"@, 0));
    }
}

/// The permissions service is connected to over TLS exactly where its URL begins with `https://`.
pub proof fn law_secure_urls_are_connected_to_over_tls(
    auth_url: &str,
    endpoint: Option<Endpoint>,
    res: Result<AuthEndpoint, Status>,
)
    requires
        call_ensures(auth_service::auth_endpoint_from, (auth_url, endpoint), res),
    ensures
        match endpoint {
            Some(endpoint) => res matches Ok(made) && made.endpoint == endpoint && (made.tls
                <==> texts::stands(auth_url@, "https://"@, 0)),
            None => res matches Err(status) && is_status(
                status,
                Code::Internal,
                "Failed to create lore auth endpoint"@,
            ),
        },
{
    assert("https://"@.is_prefix_of(auth_url@) <==> texts::stands(auth_url@, "https://"@, 0));
}

/// The same of the endpoint that the URL itself stands for.
pub proof fn law_the_auth_url_is_what_is_connected_to(
    auth_url: &str,
    res: Result<AuthEndpoint, Status>,
)
    requires
        call_ensures(auth_service::auth_endpoint, (auth_url,), res),
    ensures
        match auth_service::endpoint_of(auth_url@) {
            Some(endpoint) => res matches Ok(made) && made.endpoint == endpoint && (made.tls
                <==> texts::stands(auth_url@, "https://"@, 0)),
            None => res matches Err(status) && is_status(
                status,
                Code::Internal,
                "Failed to create lore auth endpoint"@,
            ),
        },
{
    assert("https://"@.is_prefix_of(auth_url@) <==> texts::stands(auth_url@, "https://"@, 0));
}

/// Where the permissions service cannot be connected to, the answer is an internal error that says at
/// what it failed.
pub proof fn law_connection_faults_are_internal(fault: ConnectFault, res: Status)
    requires
        call_ensures(ConnectFault::status, (fault,), res),
    ensures
        is_status(
            res,
            Code::Internal,
            match fault {
                ConnectFault::Tls => "Failed to configure TLS for lore auth"@,
                ConnectFault::Connect => "Failed to connect to lore auth service"@,
            },
        ),
{
}

/// The handlers ask the permissions service that the environment advertises; reading and writing
/// metadata do not ask. Every call but a list, which is streamed, is cut off in time.
pub proof fn law_handlers_ask_for_permissions<I, M, H>(
    service: LoreRepositoryV1Service<I, M, H>,
    call: RepositoryCall,
    advertised: Option<String>,
    permissions: Option<String>,
    auth_url: Option<String>,
    res: HandlerSetup,
)
    requires
        advertised == (match service.environment.endpoint {
            Some(endpoint) => endpoint.auth_url,
            None => None,
        }),
        call_ensures(auth_service::auth_service_url, (advertised,), permissions),
        call_ensures(LoreRepositoryV1Service::<I, M, H>::auth_url, (&service,), auth_url),
        call_ensures(LoreRepositoryV1Service::<I, M, H>::setup, (&service, call), res),
    ensures
        auth_url is Some <==> permissions is Some,
        auth_url is Some ==> auth_url->0@ == permissions->0@,
        call == RepositoryCall::MetadataGet || call == RepositoryCall::MetadataSet
            ==> res.auth_url is None,
        call == RepositoryCall::Create || call == RepositoryCall::Delete || call
            == RepositoryCall::Get || call == RepositoryCall::List ==> (res.auth_url is Some
            <==> permissions is Some) && (res.auth_url is Some ==> res.auth_url->0@
            == permissions->0@),
        call == RepositoryCall::List <==> res.timeout_millis is None,
        res.timeout_millis is Some ==> res.timeout_millis->0 == service.rpc_timeout_millis,
{
}

/// A status says what it was made of.
pub proof fn law_a_status_says_what_it_was_made_of(code: Code, message: &str, res: Status)
    requires
        call_ensures(Status::new, (code, message), res),
    ensures
        is_status(res, code, message@),
{
}

/// A copy of a verifier checks for the same.
pub proof fn law_copied_verifiers_check_for_the_same(verifier: JwtVerifier, res: JwtVerifier)
    requires
        call_ensures(JwtVerifier::duplicate, (&verifier,), res),
    ensures
        res.jwt_issuer == verifier.jwt_issuer,
        same_texts(res.jwt_audience, verifier.jwt_audience),
        res.trust_authenticated == verifier.trust_authenticated,
{
    lemma_same_texts(res.jwt_audience, verifier.jwt_audience);
}

/// The repository service works with what it was given.
pub proof fn law_the_service_keeps_what_it_was_given<I, M, H>(
    environment: EnvironmentConfig,
    immutable_store: Arc<I>,
    mutable_store: Arc<M>,
    hook_dispatcher: Arc<H>,
    rpc_timeout_millis: u64,
    res: LoreRepositoryV1Service<I, M, H>,
)
    requires
        call_ensures(
            LoreRepositoryV1Service::<I, M, H>::new,
            (environment, immutable_store, mutable_store, hook_dispatcher, rpc_timeout_millis),
            res,
        ),
    ensures
        res.environment == environment,
        res.immutable_store == immutable_store,
        res.mutable_store == mutable_store,
        res.hook_dispatcher == hook_dispatcher,
        res.rpc_timeout_millis == rpc_timeout_millis,
{
}

} // verus!
