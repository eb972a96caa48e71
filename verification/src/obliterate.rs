//! The handling of an obliterate request, from authentication to the notification.
//!
//! The handler alternates work on the outside (verifying a token, running hooks, deleting from the
//! store) with decisions. [`Obliteration`] makes the decisions: it says what to do next, with what,
//! and takes what came of it.
use crate::jwt_interceptor::{self, require_bearer_token};
use crate::status::{Code, Status};
use tonic::metadata::MetadataMap;
use vstd::prelude::*;

verus! {

/// An address of type `A`, and how it is written in messages.
#[derive(Debug)]
pub struct NamedAddress<A> {
    pub address: A,
    pub text: String,
}

/// What the handler waits for. `R` identifies repositories.
#[derive(Debug, Clone, Copy, PartialEq, Eq)]
pub enum ObliterateStage<R> {
    /// The verification of the bearer token.
    Verify,
    /// The repository that the request names.
    Resolve,
    /// The permissions of the authenticated user in the repository.
    Permit(R),
    /// The hooks that run before the obliteration.
    Hook(R),
    /// The store.
    Store(R),
    /// The notification of the obliteration.
    Notify(R),
    /// The request was carried out.
    Succeeded,
    /// The request was refused or failed.
    Refused,
}

/// What came of the work that the handler asked for.
#[derive(Debug)]
pub enum ObliterateEvent<R> {
    TokenVerified,
    /// The token was rejected, for this reason.
    TokenRejected(String),
    /// The request names this repository.
    RepositoryResolved(R),
    RepositoryRejected(Status),
    /// The user may obliterate in the repository.
    Permitted,
    /// The user may not.
    NotPermitted,
    HooksPassed,
    HookRefused(Status),
    Obliterated,
    AddressNotFound,
    ObliterateFailed(String),
    Notified,
    NotifyFailed,
}

/// What the handler is to do next.
#[derive(Debug)]
pub enum ObliterateAction<R, A> {
    VerifyToken(String),
    ResolveRepository,
    /// Find out whether the authenticated user may obliterate in the repository.
    CheckPermission { repository: R },
    RunPreHooks { repository: R },
    /// Delete the address in the repository from the store.
    Obliterate { repository: R, address: A },
    /// Announce that the address in the repository was obliterated.
    Notify { repository: R, address: A },
    /// Run the hooks that follow an obliteration in the background, and answer with success.
    Succeed { repository: R },
    /// Answer with this status.
    Refuse(Status),
}

/// A request that is being handled.
#[derive(Debug)]
pub struct Obliteration<R, A> {
    /// Whether callers have to authenticate: a verifier is configured.
    pub auth_required: bool,
    /// The address to obliterate.
    pub target: NamedAddress<A>,
    pub stage: ObliterateStage<R>,
}

/// The event answers what is waited for at the stage.
pub open spec fn expected<R>(stage: ObliterateStage<R>, event: ObliterateEvent<R>) -> bool {
    match event {
        ObliterateEvent::TokenVerified | ObliterateEvent::TokenRejected(_) => stage is Verify,
        ObliterateEvent::RepositoryResolved(_)
        | ObliterateEvent::RepositoryRejected(_) => stage is Resolve,
        ObliterateEvent::Permitted | ObliterateEvent::NotPermitted => stage is Permit,
        ObliterateEvent::HooksPassed | ObliterateEvent::HookRefused(_) => stage is Hook,
        ObliterateEvent::Obliterated
        | ObliterateEvent::AddressNotFound
        | ObliterateEvent::ObliterateFailed(_) => stage is Store,
        ObliterateEvent::Notified | ObliterateEvent::NotifyFailed => stage is Notify,
    }
}

/// The stage that follows an expected event. Every failure ends the request, and the repository stays
/// the one that was resolved.
pub open spec fn stage_after<R>(
    auth_required: bool,
    stage: ObliterateStage<R>,
    event: ObliterateEvent<R>,
) -> ObliterateStage<R> {
    match (stage, event) {
        (_, ObliterateEvent::TokenVerified) => ObliterateStage::Resolve,
        (_, ObliterateEvent::RepositoryResolved(repository)) => if auth_required {
            ObliterateStage::Permit(repository)
        } else {
            ObliterateStage::Hook(repository)
        },
        (ObliterateStage::Permit(repository), ObliterateEvent::Permitted) => ObliterateStage::Hook(
            repository,
        ),
        (ObliterateStage::Hook(repository), ObliterateEvent::HooksPassed) => ObliterateStage::Store(
            repository,
        ),
        (
            ObliterateStage::Store(repository),
            ObliterateEvent::Obliterated,
        ) => ObliterateStage::Notify(repository),
        (_, ObliterateEvent::Notified) => ObliterateStage::Succeeded,
        _ => ObliterateStage::Refused,
    }
}

/// The event is one that ends the request without success.
pub open spec fn is_failure<R>(event: ObliterateEvent<R>) -> bool {
    match event {
        ObliterateEvent::TokenRejected(_)
        | ObliterateEvent::RepositoryRejected(_)
        | ObliterateEvent::NotPermitted
        | ObliterateEvent::HookRefused(_)
        | ObliterateEvent::AddressNotFound
        | ObliterateEvent::ObliterateFailed(_)
        | ObliterateEvent::NotifyFailed => true,
        _ => false,
    }
}

/// The status that answers an event which ends the request.
pub open spec fn refusal<R>(address: Seq<char>, event: ObliterateEvent<R>, status: Status) -> bool {
    match event {
        ObliterateEvent::TokenRejected(reason) => status.says(
            Code::Unauthenticated,
            "invalid token ("@ + reason@ + ")"@,
        ),
        ObliterateEvent::RepositoryRejected(given) => status == given,
        ObliterateEvent::NotPermitted => status.says(Code::PermissionDenied, "Permission denied"@),
        ObliterateEvent::HookRefused(given) => status == given,
        ObliterateEvent::AddressNotFound => status.says(
            Code::NotFound,
            "Address not found: "@ + address,
        ),
        ObliterateEvent::ObliterateFailed(reason) => status.says(
            Code::Internal,
            "Failed to obliterate "@ + address + ": "@ + reason@,
        ),
        ObliterateEvent::NotifyFailed => status.says(Code::Internal, "Obliterate failed"@),
        _ => false,
    }
}

/// A status whose message is made of parts.
fn status_of(code: Code, head: &str, middle: &str, tail: &str) -> (res: Status)
    ensures
        res.says(code, head@ + middle@ + tail@),
{
    let mut message = head.to_owned();
    message.append(middle);
    message.append(tail);
    Status { code, message }
}

impl<R: Copy, A: Copy> Obliteration<R, A> {
    /// `action` is what follows an event at a stage: the work of the stage that comes next, on the
    /// repository that was resolved and the address of the request; a refused request is answered as
    /// its event demands.
    pub open spec fn asks(
        &self,
        before: ObliterateStage<R>,
        event: ObliterateEvent<R>,
        action: ObliterateAction<R, A>,
    ) -> bool {
        match self.stage {
            ObliterateStage::Verify => false,
            ObliterateStage::Resolve => action is ResolveRepository,
            ObliterateStage::Permit(repository) => action == (ObliterateAction::<
                R,
                A,
            >::CheckPermission { repository }),
            ObliterateStage::Hook(repository) => action == (ObliterateAction::<R, A>::RunPreHooks {
                repository,
            }),
            ObliterateStage::Store(repository) => action == (ObliterateAction::Obliterate {
                repository,
                address: self.target.address,
            }),
            ObliterateStage::Notify(repository) => action == (ObliterateAction::Notify {
                repository,
                address: self.target.address,
            }),
            ObliterateStage::Succeeded => before matches ObliterateStage::Notify(repository)
                && action == (ObliterateAction::<R, A>::Succeed { repository }),
            ObliterateStage::Refused => action matches ObliterateAction::Refuse(status) && refusal(
                self.target.text@,
                event,
                status,
            ),
        }
    }

    /// Takes a request. Where callers have to authenticate, it needs a bearer token. A request that
    /// names no address stands for the default one.
    pub fn begin(
        auth_required: bool,
        metadata: &MetadataMap,
        requested: Option<NamedAddress<A>>,
        default_address: NamedAddress<A>,
    ) -> (res: (Self, ObliterateAction<R, A>))
        ensures
            res.0.auth_required == auth_required,
            res.0.target == match requested {
                Some(target) => target,
                None => default_address,
            },
            if !auth_required {
                res.0.stage is Resolve && res.1 is ResolveRepository
            } else {
                match jwt_interceptor::bearer_token(*metadata) {
                    Some(token) => res.0.stage is Verify && (
                    res.1 matches ObliterateAction::VerifyToken(t) && t@ == token),
                    None => res.0.stage is Refused && (
                    res.1 matches ObliterateAction::Refuse(status) && status.says(
                        Code::Unauthenticated,
                        "authorization header required"@,
                    )),
                }
            },
    {
        let target = match requested {
            Some(target) => target,
            None => default_address,
        };
        if !auth_required {
            return (
                Obliteration { auth_required, target, stage: ObliterateStage::Resolve },
                ObliterateAction::ResolveRepository,
            );
        }
        match require_bearer_token(metadata) {
            Ok(token) => (
                Obliteration { auth_required, target, stage: ObliterateStage::Verify },
                ObliterateAction::VerifyToken(token),
            ),
            Err(status) => (
                Obliteration { auth_required, target, stage: ObliterateStage::Refused },
                ObliterateAction::Refuse(status),
            ),
        }
    }

    /// The status that answers an event which ends the request.
    fn refuse(&self, event: ObliterateEvent<R>) -> (res: Status)
        requires
            is_failure(event),
        ensures
            refusal(self.target.text@, event, res),
    {
        match event {
            ObliterateEvent::TokenRejected(reason) => status_of(
                Code::Unauthenticated,
                "invalid token (",
                reason.as_str(),
                ")",
            ),
            ObliterateEvent::RepositoryRejected(status) => status,
            ObliterateEvent::NotPermitted => Status::new(
                Code::PermissionDenied,
                "Permission denied",
            ),
            ObliterateEvent::HookRefused(status) => status,
            ObliterateEvent::AddressNotFound => {
                let status = status_of(
                    Code::NotFound,
                    "Address not found: ",
                    self.target.text.as_str(),
                    "",
                );
                proof {
                    reveal_strlit("");
                    assert("Address not found: "@ + self.target.text@ + ""@
                        =~= "Address not found: "@ + self.target.text@);
                }
                status
            },
            ObliterateEvent::ObliterateFailed(reason) => {
                let mut tail = ": ".to_owned();
                tail.append(reason.as_str());
                let status = status_of(
                    Code::Internal,
                    "Failed to obliterate ",
                    self.target.text.as_str(),
                    tail.as_str(),
                );
                assert("Failed to obliterate "@ + self.target.text@ + (": "@ + reason@)
                    =~= "Failed to obliterate "@ + self.target.text@ + ": "@ + reason@);
                status
            },
            _ => Status::new(Code::Internal, "Obliterate failed"),
        }
    }

    /// Takes what came of the last action and says what to do next.
    pub fn advance(&mut self, event: ObliterateEvent<R>) -> (res: ObliterateAction<R, A>)
        requires
            expected(old(self).stage, event),
        ensures
            final(self).auth_required == old(self).auth_required,
            final(self).target == old(self).target,
            final(self).stage == stage_after(old(self).auth_required, old(self).stage, event),
            final(self).asks(old(self).stage, event, res),
    {
        let address = self.target.address;
        match (self.stage, event) {
            (_, ObliterateEvent::TokenVerified) => {
                self.stage = ObliterateStage::Resolve;
                ObliterateAction::ResolveRepository
            },
            (_, ObliterateEvent::RepositoryResolved(repository)) => if self.auth_required {
                self.stage = ObliterateStage::Permit(repository);
                ObliterateAction::CheckPermission { repository }
            } else {
                self.stage = ObliterateStage::Hook(repository);
                ObliterateAction::RunPreHooks { repository }
            },
            (ObliterateStage::Permit(repository), ObliterateEvent::Permitted) => {
                self.stage = ObliterateStage::Hook(repository);
                ObliterateAction::RunPreHooks { repository }
            },
            (ObliterateStage::Hook(repository), ObliterateEvent::HooksPassed) => {
                self.stage = ObliterateStage::Store(repository);
                ObliterateAction::Obliterate { repository, address }
            },
            (ObliterateStage::Store(repository), ObliterateEvent::Obliterated) => {
                self.stage = ObliterateStage::Notify(repository);
                ObliterateAction::Notify { repository, address }
            },
            (ObliterateStage::Notify(repository), ObliterateEvent::Notified) => {
                self.stage = ObliterateStage::Succeeded;
                ObliterateAction::Succeed { repository }
            },
            (_, event) => {
                self.stage = ObliterateStage::Refused;
                ObliterateAction::Refuse(self.refuse(event))
            },
        }
    }
}

/// The stage that a series of events leads to from the start of a request that carries a token where
/// it has to; `None` where some event was not the expected one.
pub open spec fn stage_reached<R>(auth_required: bool, events: Seq<ObliterateEvent<R>>) -> Option<
    ObliterateStage<R>,
>
    decreases events.len(),
{
    if events.len() == 0 {
        Some(
            if auth_required {
                ObliterateStage::Verify
            } else {
                ObliterateStage::Resolve
            },
        )
    } else {
        match stage_reached(auth_required, events.drop_last()) {
            Some(stage) => if expected(stage, events.last()) {
                Some(stage_after(auth_required, stage, events.last()))
            } else {
                None
            },
            None => None,
        }
    }
}

/// The token was verified.
pub open spec fn was_verified<R>(events: Seq<ObliterateEvent<R>>) -> bool {
    exists|i: int| 0 <= i < events.len() && #[trigger] events[i] is TokenVerified
}

/// The user was permitted to obliterate.
pub open spec fn was_permitted<R>(events: Seq<ObliterateEvent<R>>) -> bool {
    exists|i: int| 0 <= i < events.len() && #[trigger] events[i] is Permitted
}

/// The repository is the one that the request was resolved to.
pub open spec fn was_resolved<R>(events: Seq<ObliterateEvent<R>>, repository: R) -> bool {
    events.contains(ObliterateEvent::RepositoryResolved(repository))
}

/// The hooks that run before the obliteration have passed.
pub open spec fn were_hooks_passed<R>(events: Seq<ObliterateEvent<R>>) -> bool {
    exists|i: int| 0 <= i < events.len() && #[trigger] events[i] is HooksPassed
}

/// The store carried the obliteration out.
pub open spec fn was_obliterated<R>(events: Seq<ObliterateEvent<R>>) -> bool {
    exists|i: int| 0 <= i < events.len() && #[trigger] events[i] is Obliterated
}

/// What happened is still so after another event.
proof fn lemma_past_stays<R>(events: Seq<ObliterateEvent<R>>)
    requires
        events.len() > 0,
    ensures
        was_verified(events.drop_last()) || events.last() is TokenVerified ==> was_verified(events),
        was_permitted(events.drop_last()) || events.last() is Permitted ==> was_permitted(events),
        were_hooks_passed(events.drop_last()) || events.last() is HooksPassed ==> were_hooks_passed(
            events,
        ),
        was_obliterated(events.drop_last()) || events.last() is Obliterated ==> was_obliterated(
            events,
        ),
        forall|repository: R|
            was_resolved(events.drop_last(), repository) || events.last() == (
            ObliterateEvent::RepositoryResolved(repository)) ==> was_resolved(events, repository),
{
    let before = events.drop_last();
    assert(events[events.len() - 1] == events.last());
    if was_verified(before) {
        let i = choose|i: int| 0 <= i < before.len() && #[trigger] before[i] is TokenVerified;
        assert(events[i] is TokenVerified);
    }
    if was_permitted(before) {
        let i = choose|i: int| 0 <= i < before.len() && #[trigger] before[i] is Permitted;
        assert(events[i] is Permitted);
    }
    if were_hooks_passed(before) {
        let i = choose|i: int| 0 <= i < before.len() && #[trigger] before[i] is HooksPassed;
        assert(events[i] is HooksPassed);
    }
    if was_obliterated(before) {
        let i = choose|i: int| 0 <= i < before.len() && #[trigger] before[i] is Obliterated;
        assert(events[i] is Obliterated);
    }
    assert forall|repository: R| was_resolved(before, repository) implies was_resolved(
        events,
        repository,
    ) by {
        let event = ObliterateEvent::RepositoryResolved(repository);
        let i = choose|i: int| 0 <= i < before.len() && before[i] == event;
        assert(events[i] == event);
    }
}

/// Where callers have to authenticate, a request gets to the hooks, to the store or beyond only with
/// a verified token and a permission to obliterate.
pub proof fn law_only_cleared_requests_reach_the_store<R>(events: Seq<ObliterateEvent<R>>)
    ensures
        match stage_reached(true, events) {
            Some(ObliterateStage::Hook(_))
            | Some(ObliterateStage::Store(_))
            | Some(ObliterateStage::Notify(_))
            | Some(ObliterateStage::Succeeded) => was_verified(events) && was_permitted(events),
            Some(ObliterateStage::Resolve)
            | Some(ObliterateStage::Permit(_)) => was_verified(events),
            _ => true,
        },
    decreases events.len(),
{
    if events.len() > 0 {
        law_only_cleared_requests_reach_the_store(events.drop_last());
        lemma_past_stays(events);
    }
}

/// Permission, hooks, store and notification are all asked about one repository: the one that the
/// request was resolved to.
pub proof fn law_the_repository_stays_the_resolved_one<R>(
    auth_required: bool,
    events: Seq<ObliterateEvent<R>>,
)
    ensures
        match stage_reached(auth_required, events) {
            Some(ObliterateStage::Permit(repository))
            | Some(ObliterateStage::Hook(repository))
            | Some(ObliterateStage::Store(repository))
            | Some(ObliterateStage::Notify(repository)) => was_resolved(events, repository),
            _ => true,
        },
    decreases events.len(),
{
    if events.len() > 0 {
        law_the_repository_stays_the_resolved_one(auth_required, events.drop_last());
        lemma_past_stays(events);
    }
}

/// With and without authentication, a request gets to the store or beyond only after the hooks that
/// run before it have passed.
pub proof fn law_no_obliteration_before_the_hooks<R>(
    auth_required: bool,
    events: Seq<ObliterateEvent<R>>,
)
    ensures
        match stage_reached(auth_required, events) {
            Some(ObliterateStage::Store(_))
            | Some(ObliterateStage::Notify(_))
            | Some(ObliterateStage::Succeeded) => were_hooks_passed(events),
            _ => true,
        },
    decreases events.len(),
{
    if events.len() > 0 {
        law_no_obliteration_before_the_hooks(auth_required, events.drop_last());
        lemma_past_stays(events);
    }
}

/// Whatever goes wrong refuses the request, whatever the stage and whether or not callers have to
/// authenticate.
pub proof fn law_failures_refuse<R>(
    auth_required: bool,
    stage: ObliterateStage<R>,
    event: ObliterateEvent<R>,
)
    requires
        event is TokenRejected || event is RepositoryRejected || event is NotPermitted
            || event is HookRefused || event is AddressNotFound || event is ObliterateFailed
            || event is NotifyFailed,
    ensures
        stage_after(auth_required, stage, event) is Refused,
{
}

/// An obliteration is announced, and the request answered with success, only after the store has
/// carried it out.
pub proof fn law_no_notification_before_the_store<R>(
    auth_required: bool,
    events: Seq<ObliterateEvent<R>>,
)
    ensures
        match stage_reached(auth_required, events) {
            Some(ObliterateStage::Notify(_)) | Some(ObliterateStage::Succeeded) => was_obliterated(
                events,
            ),
            _ => true,
        },
    decreases events.len(),
{
    if events.len() > 0 {
        law_no_notification_before_the_store(auth_required, events.drop_last());
        lemma_past_stays(events);
    }
}

/// A request that is over stays over: no event is expected any more.
pub proof fn law_the_end_is_final<R>(event: ObliterateEvent<R>)
    ensures
        !expected(ObliterateStage::Succeeded, event),
        !expected(ObliterateStage::Refused, event),
{
}

} // verus!
