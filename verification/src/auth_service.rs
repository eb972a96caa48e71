//! The permissions service of the authentication provider.
use crate::status::{Code, Status};
use crate::text;
use tonic::transport::Endpoint;
use vstd::prelude::*;

verus! {

/// The prefix of auth URLs whose provider speaks OpenID Connect and offers no permissions service.
pub const OIDC_PREFIX: &'static str = "oidc:";

/// The prefix of auth URLs that are connected to over TLS.
pub const TLS_PREFIX: &'static str = "https://";

/// The provider behind the auth URL has a permissions service.
pub open spec fn has_permissions_service(auth_url: Seq<char>) -> bool {
    !OIDC_PREFIX@.is_prefix_of(auth_url)
}

/// The URL of the permissions service: the auth URL, unless the provider offers no such service.
/// Without one, authorization rests on the verified token alone.
pub fn auth_service_url(auth_url: Option<String>) -> (res: Option<String>)
    ensures
        res == match auth_url {
            Some(url) => if has_permissions_service(url@) {
                Some(url)
            } else {
                None
            },
            None => None,
        },
{
    match auth_url {
        Some(url) => if text::starts_with(url.as_str(), OIDC_PREFIX) {
            None
        } else {
            Some(url)
        },
        None => None,
    }
}

/// Declares the endpoint of `tonic`, something to connect to.
#[verifier::external_type_specification]
#[verifier::external_body]
pub struct ExEndpoint(tonic::transport::Endpoint);

/// Declares the error of `tonic`'s transport.
#[verifier::external_type_specification]
#[verifier::external_body]
pub struct ExTransportError(tonic::transport::Error);

/// The endpoint that `tonic::transport::Endpoint::from_shared` makes of a text, if any.
pub uninterp spec fn endpoint_of(address: Seq<char>) -> Option<Endpoint>;

/// Calls `tonic::transport::Endpoint::from_shared`, which parses the text as the address to connect
/// to. Which texts are addresses is left to it; nothing is connected to.
#[verifier::external_body]
fn shared_endpoint(address: &str) -> (res: Result<Endpoint, tonic::transport::Error>)
    ensures
        match res {
            Ok(endpoint) => endpoint_of(address@) == Some(endpoint),
            Err(_) => endpoint_of(address@) is None,
        },
{
    Endpoint::from_shared(address.to_owned())
}

/// A permissions service that is about to be connected to.
#[derive(Debug)]
pub struct AuthEndpoint {
    pub endpoint: Endpoint,
    /// Connect over TLS, with the certificate authorities of the system.
    pub tls: bool,
}

/// What [`auth_endpoint`] answers for an auth URL that stands for the given endpoint, or for none.
pub open spec fn endpoint_answer(
    auth_url: Seq<char>,
    endpoint: Option<Endpoint>,
    res: Result<AuthEndpoint, Status>,
) -> bool {
    match endpoint {
        Some(endpoint) => res matches Ok(made) && made.endpoint == endpoint && made.tls
            == TLS_PREFIX@.is_prefix_of(auth_url),
        None => res matches Err(status) && status.says(
            Code::Internal,
            "Failed to create lore auth endpoint"@,
        ),
    }
}

/// What to connect to, given the endpoint that the auth URL stands for.
pub fn auth_endpoint_from(auth_url: &str, endpoint: Option<Endpoint>) -> (res: Result<
    AuthEndpoint,
    Status,
>)
    ensures
        endpoint_answer(auth_url@, endpoint, res),
{
    match endpoint {
        Some(endpoint) => Ok(
            AuthEndpoint { endpoint, tls: text::starts_with(auth_url, TLS_PREFIX) },
        ),
        None => Err(Status::new(Code::Internal, "Failed to create lore auth endpoint")),
    }
}

/// What to connect to for the auth URL.
pub fn auth_endpoint(auth_url: &str) -> (res: Result<AuthEndpoint, Status>)
    ensures
        endpoint_answer(auth_url@, endpoint_of(auth_url@), res),
{
    match shared_endpoint(auth_url) {
        Ok(endpoint) => auth_endpoint_from(auth_url, Some(endpoint)),
        Err(_) => auth_endpoint_from(auth_url, None),
    }
}

/// What can go wrong between the endpoint and a connection.
#[derive(Debug, Clone, Copy, PartialEq, Eq, Structural)]
pub enum ConnectFault {
    Tls,
    Connect,
}

impl ConnectFault {
    /// The message for the fault.
    pub open spec fn text(self) -> Seq<char> {
        match self {
            ConnectFault::Tls => "Failed to configure TLS for lore auth"@,
            ConnectFault::Connect => "Failed to connect to lore auth service"@,
        }
    }

    /// The status that answers a caller where the service cannot be connected to.
    pub fn status(self) -> (res: Status)
        ensures
            res.says(Code::Internal, self.text()),
    {
        match self {
            ConnectFault::Tls => Status::new(
                Code::Internal,
                "Failed to configure TLS for lore auth",
            ),
            ConnectFault::Connect => Status::new(
                Code::Internal,
                "Failed to connect to lore auth service",
            ),
        }
    }
}

} // verus!
