use lore_auth::obliterate::{
    NamedAddress, ObliterateAction, ObliterateEvent, ObliterateStage, Obliteration,
};
use lore_auth::status::{Code, Status};
use tonic::metadata::{MetadataMap, MetadataValue};

const REPOSITORY: u64 = 0x5eed;

/// An address as the hash and the context that it is made of.
type Address = (u64, u64);

const ADDRESS: Address = (0xabcd, 0xef);

fn address() -> NamedAddress<Address> {
    NamedAddress { address: ADDRESS, text: "abcd@ef".to_string() }
}

fn zero_address() -> NamedAddress<Address> {
    NamedAddress { address: (0, 0), text: "0@0".to_string() }
}

fn with_token() -> MetadataMap {
    let mut map = MetadataMap::new();
    let value: MetadataValue<tonic::metadata::Ascii> = "Bearer token".parse().unwrap();
    map.insert("authorization", value);
    map
}

fn begin(
    auth_required: bool,
    metadata: &MetadataMap,
) -> (Obliteration<u64, Address>, ObliterateAction<u64, Address>) {
    Obliteration::begin(auth_required, metadata, None, zero_address())
}

/// A request that names an address.
fn begin_at(
    requested: NamedAddress<Address>,
) -> (Obliteration<u64, Address>, ObliterateAction<u64, Address>) {
    Obliteration::begin(true, &with_token(), Some(requested), zero_address())
}

fn refused(action: ObliterateAction<u64, Address>) -> Status {
    match action {
        ObliterateAction::Refuse(status) => status,
        other => panic!("unexpected action: {other:?}"),
    }
}

fn verified(
    begun: (Obliteration<u64, Address>, ObliterateAction<u64, Address>),
) -> Obliteration<u64, Address> {
    let (mut request, action) = begun;
    match action {
        ObliterateAction::VerifyToken(token) => assert_eq!(token, "token"),
        other => panic!("unexpected action: {other:?}"),
    }
    assert!(matches!(
        request.advance(ObliterateEvent::TokenVerified),
        ObliterateAction::ResolveRepository
    ));
    assert!(matches!(
        request.advance(ObliterateEvent::RepositoryResolved(REPOSITORY)),
        ObliterateAction::CheckPermission { repository: REPOSITORY }
    ));
    request
}

fn authorized() -> Obliteration<u64, Address> {
    verified(begin(true, &with_token()))
}

/// The request once it is permitted and its hooks have passed, with the address that goes to the
/// store.
fn stored(mut request: Obliteration<u64, Address>) -> (Obliteration<u64, Address>, Address) {
    assert!(matches!(
        request.advance(ObliterateEvent::Permitted),
        ObliterateAction::RunPreHooks { repository: REPOSITORY }
    ));
    match request.advance(ObliterateEvent::HooksPassed) {
        ObliterateAction::Obliterate { repository, address } => {
            assert_eq!(repository, REPOSITORY);
            (request, address)
        }
        other => panic!("unexpected action: {other:?}"),
    }
}

fn at_the_store() -> Obliteration<u64, Address> {
    let (request, address) = stored(verified(begin_at(self::address())));
    assert_eq!(address, ADDRESS);
    request
}

#[test]
fn proceeds_without_auth_when_no_verifier_configured() {
    let (mut request, action) = begin(false, &MetadataMap::new());
    assert!(matches!(action, ObliterateAction::ResolveRepository));
    assert!(matches!(
        request.advance(ObliterateEvent::RepositoryResolved(REPOSITORY)),
        ObliterateAction::RunPreHooks { repository: REPOSITORY }
    ));
    assert!(matches!(
        request.advance(ObliterateEvent::HooksPassed),
        ObliterateAction::Obliterate { repository: REPOSITORY, address: (0, 0) }
    ));
    let err = refused(request.advance(ObliterateEvent::AddressNotFound));
    assert_eq!(err.code, Code::NotFound);
}

#[test]
fn returns_unauthenticated_when_authorization_header_absent() {
    let (request, action) = begin(true, &MetadataMap::new());
    let err = refused(action);
    assert_eq!(err.code, Code::Unauthenticated);
    assert_eq!(request.stage, ObliterateStage::Refused);
}

#[test]
fn returns_unauthenticated_for_unverifiable_token() {
    let (mut request, _) = begin(true, &with_token());
    let err = refused(request.advance(ObliterateEvent::TokenRejected("NotFound".to_string())));
    assert_eq!(err.code, Code::Unauthenticated);
    assert_eq!(err.message, "invalid token (NotFound)");
}

#[test]
fn returns_permission_denied_when_user_lacks_obliterate_permission() {
    let err = refused(authorized().advance(ObliterateEvent::NotPermitted));
    assert_eq!(err.code, Code::PermissionDenied);
    assert_eq!(err.message, "Permission denied");
}

#[test]
fn returns_not_found_when_authorized_and_address_absent() {
    let (mut request, address) = stored(authorized());
    assert_eq!(address, (0, 0));
    let err = refused(request.advance(ObliterateEvent::AddressNotFound));
    assert_eq!(err.code, Code::NotFound);
    assert_eq!(err.message, "Address not found: 0@0");
}

#[test]
fn succeeds_for_authorized_request_with_existing_address() {
    let mut request = at_the_store();
    match request.advance(ObliterateEvent::Obliterated) {
        ObliterateAction::Notify { repository, address } => {
            assert_eq!(repository, REPOSITORY);
            assert_eq!(address, ADDRESS);
        }
        other => panic!("unexpected action: {other:?}"),
    }
    assert!(matches!(
        request.advance(ObliterateEvent::Notified),
        ObliterateAction::Succeed { repository: REPOSITORY }
    ));
    assert_eq!(request.stage, ObliterateStage::Succeeded);
}

#[test]
fn an_absent_address_is_named_as_it_was_requested() {
    let err = refused(at_the_store().advance(ObliterateEvent::AddressNotFound));
    assert_eq!(err.code, Code::NotFound);
    assert_eq!(err.message, "Address not found: abcd@ef");
}

#[test]
fn failures_of_the_store_and_the_notification_are_internal() {
    let err = refused(
        at_the_store().advance(ObliterateEvent::ObliterateFailed("disk full".to_string())),
    );
    assert_eq!(err.code, Code::Internal);
    assert_eq!(err.message, "Failed to obliterate abcd@ef: disk full");
    let mut request = at_the_store();
    request.advance(ObliterateEvent::Obliterated);
    let err = refused(request.advance(ObliterateEvent::NotifyFailed));
    assert_eq!(err.code, Code::Internal);
    assert_eq!(err.message, "Obliterate failed");
}

#[test]
fn hooks_and_repositories_refuse_with_their_own_status() {
    let mut request = authorized();
    request.advance(ObliterateEvent::Permitted);
    let err = refused(request.advance(ObliterateEvent::HookRefused(Status::new(
        Code::FailedPrecondition,
        "not now",
    ))));
    assert_eq!(err.code, Code::FailedPrecondition);
    assert_eq!(err.message, "not now");
    let (mut request, _) = begin(false, &MetadataMap::new());
    let err = refused(request.advance(ObliterateEvent::RepositoryRejected(Status::new(
        Code::InvalidArgument,
        "no repository",
    ))));
    assert_eq!(err.code, Code::InvalidArgument);
}
