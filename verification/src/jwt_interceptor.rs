//! Authentication of incoming calls by their bearer token.
use crate::settings::AuthSettings;
use crate::status::{Code, Status};
use crate::text;
use tonic::metadata::MetadataMap;
use vstd::prelude::*;

verus! {

/// Declares the metadata of a `tonic` request.
#[verifier::external_type_specification]
#[verifier::external_body]
pub struct ExMetadataMap(MetadataMap);

/// What the metadata of a request holds: for each key its values, as bytes, in the order in which
/// they were added.
pub uninterp spec fn metadata_values(metadata: MetadataMap) -> Map<Seq<char>, Seq<Seq<u8>>>;

/// The bytes that `to_str` accepts in a metadata value: visible ASCII, the space and the tab.
pub open spec fn is_header_text(bytes: Seq<u8>) -> bool {
    forall|i: int| 0 <= i < bytes.len() ==> (32 <= #[trigger] bytes[i] < 127 || bytes[i] == 9)
}

/// The characters of a metadata value, each the one of its byte.
pub open spec fn header_text(bytes: Seq<u8>) -> Seq<char> {
    Seq::new(bytes.len(), |i: int| bytes[i] as char)
}

/// The text of an entry: the first value under its key, where there is one and it is text.
pub open spec fn first_text(values: Map<Seq<char>, Seq<Seq<u8>>>, key: Seq<char>) -> Option<
    Seq<char>,
> {
    if values.contains_key(key) && values[key].len() > 0 && is_header_text(values[key][0]) {
        Some(header_text(values[key][0]))
    } else {
        None
    }
}

/// The text of the `authorization` entry of the metadata.
pub open spec fn authorization_text(metadata: MetadataMap) -> Option<Seq<char>> {
    first_text(metadata_values(metadata), "authorization"@)
}

/// The key is a plain word in lower case, as `MetadataMap` keeps the names of its entries.
pub open spec fn is_plain_key(key: Seq<char>) -> bool {
    forall|i: int| 0 <= i < key.len() ==> 'a' <= #[trigger] key[i] <= 'z'
}

/// Reads an entry with `MetadataMap::get`, which yields the first value under a key, and
/// `MetadataValue::to_str`, which accepts visible ASCII, the space and the tab. The contract speaks of
/// plain keys only: `get` looks in lower case for any key, and finds nothing under one that is no
/// header name or that is kept for binary values.
#[verifier::external_body]
fn metadata_text(metadata: &MetadataMap, key: &str) -> (res: Option<String>)
    requires
        is_plain_key(key@),
    ensures
        match res {
            Some(value) => first_text(metadata_values(*metadata), key@) == Some(value@),
            None => first_text(metadata_values(*metadata), key@) is None,
        },
{
    let value = metadata.get(key)?.to_str().ok()?;
    Some(value.to_string())
}

/// The token in an authorization header: what follows the scheme `Bearer`, which may be repeated.
pub open spec fn token_in(header: Seq<char>) -> Option<Seq<char>> {
    if "Bearer "@.is_prefix_of(header) {
        Some(text::without_leading(header, "Bearer "@))
    } else {
        None
    }
}

/// The bearer token that the metadata carries.
pub open spec fn bearer_token(metadata: MetadataMap) -> Option<Seq<char>> {
    match authorization_text(metadata) {
        Some(header) => token_in(header),
        None => None,
    }
}

/// Reads the token out of an authorization header.
pub fn token_from_header(header: &str) -> (res: Option<String>)
    ensures
        match res {
            Some(token) => token_in(header@) == Some(token@),
            None => token_in(header@) is None,
        },
{
    if text::starts_with(header, "Bearer ") {
        Some(text::trim_start(header, "Bearer "))
    } else {
        None
    }
}

/// Extracts the bearer token from the metadata of a request.
pub fn extract_bearer_token(metadata: &MetadataMap) -> (res: Option<String>)
    ensures
        match res {
            Some(token) => bearer_token(*metadata) == Some(token@),
            None => bearer_token(*metadata) is None,
        },
{
    proof {
        reveal_strlit("authorization");
    }
    match metadata_text(metadata, "authorization") {
        Some(header) => token_from_header(header.as_str()),
        None => None,
    }
}

/// Extracts the bearer token, or says that the request is not authenticated.
pub fn require_bearer_token(metadata: &MetadataMap) -> (res: Result<String, Status>)
    ensures
        match bearer_token(*metadata) {
            Some(token) => res matches Ok(t) && t@ == token,
            None => res matches Err(status) && status.says(
                Code::Unauthenticated,
                "authorization header required"@,
            ),
        },
{
    match extract_bearer_token(metadata) {
        Some(token) => Ok(token),
        None => Err(Status::new(Code::Unauthenticated, "authorization header required")),
    }
}

/// What a token is verified against.
#[derive(Debug, Clone)]
pub struct JwtVerifier {
    /// The issuer that the token has to name.
    pub jwt_issuer: Option<String>,
    /// The audiences of which the token has to name one.
    pub jwt_audience: Option<Vec<String>>,
    /// Whether a token that passes verification is authorized for all repositories.
    pub trust_authenticated: bool,
}

/// The authorization mode under which a verified token is authorized for all repositories.
pub const TRUST_AUTHENTICATED: &'static str = "trust_authenticated";

impl JwtVerifier {
    /// A verifier out of the settings of the server. It trusts every authenticated user only where
    /// the authorization mode says so.
    pub fn from_settings(
        jwt_issuer: Option<String>,
        jwt_audience: Option<Vec<String>>,
        authorization_mode: Option<&str>,
    ) -> (res: Self)
        ensures
            res.jwt_issuer == jwt_issuer,
            res.jwt_audience == jwt_audience,
            res.trust_authenticated <==> (authorization_mode matches Some(mode) && mode@
                == TRUST_AUTHENTICATED@),
    {
        let trust_authenticated = match authorization_mode {
            Some(mode) => text::same(mode, TRUST_AUTHENTICATED),
            None => false,
        };
        JwtVerifier { jwt_issuer, jwt_audience, trust_authenticated }
    }
}

/// The message for a token that verification rejected.
pub open spec fn not_allowed_message(reason: Seq<char>) -> Seq<char> {
    "Not allowed ("@ + reason + ")"@
}

/// `res` answers a call for which a verified token is enough.
pub open spec fn admits_verified<T>(
    metadata: MetadataMap,
    verified: Result<T, String>,
    res: Result<T, Status>,
) -> bool {
    match (bearer_token(metadata), verified) {
        (None, _) => res matches Err(status) && status.says(
            Code::Unauthenticated,
            "authorization header required"@,
        ),
        (Some(_), Err(reason)) => res matches Err(status) && status.says(
            Code::PermissionDenied,
            not_allowed_message(reason@),
        ),
        (Some(_), Ok(authorization)) => res == Ok::<T, Status>(authorization),
    }
}

/// Answers a call for which a verified token is enough.
fn admit_verified<T>(metadata: &MetadataMap, verified: Result<T, String>) -> (res: Result<
    T,
    Status,
>)
    ensures
        admits_verified(*metadata, verified, res),
{
    match require_bearer_token(metadata) {
        Ok(_) => {},
        Err(status) => return Err(status),
    }
    match verified {
        Ok(authorization) => Ok(authorization),
        Err(reason) => {
            let mut message = "Not allowed (".to_owned();
            message.append(reason.as_str());
            message.append(")");
            Err(Status { code: Code::PermissionDenied, message })
        },
    }
}

/// Admits calls whose token is verified and authorized for the repository.
#[derive(Debug)]
pub struct JWTInterceptor {
    pub jwt_verifier: JwtVerifier,
}

/// A copy of a list of strings.
fn copy_strings(strings: &Vec<String>) -> (res: Vec<String>)
    ensures
        text::views(res@) == text::views(strings@),
{
    let mut res: Vec<String> = Vec::new();
    let mut i: usize = 0;
    while i < strings.len()
        invariant
            i <= strings@.len(),
            res@.len() == i,
            forall|k: int| 0 <= k < i ==> (#[trigger] res@[k])@ == strings@[k]@,
        decreases strings@.len() - i,
    {
        res.push(strings[i].clone());
        i = i + 1;
    }
    assert(text::views(res@) =~= text::views(strings@));
    res
}

impl JwtVerifier {
    /// The two verifiers check for the same.
    pub open spec fn agrees(&self, other: &JwtVerifier) -> bool {
        &&& self.jwt_issuer == other.jwt_issuer
        &&& match (self.jwt_audience, other.jwt_audience) {
            (Some(mine), Some(theirs)) => text::views(mine@) == text::views(theirs@),
            (None, None) => true,
            _ => false,
        }
        &&& self.trust_authenticated == other.trust_authenticated
    }

    /// The verifier checks for what the settings ask.
    pub open spec fn follows(&self, auth: AuthSettings) -> bool {
        &&& self.jwt_issuer == auth.jwt_issuer
        &&& match (self.jwt_audience, auth.jwt_audience) {
            (Some(mine), Some(theirs)) => text::views(mine@) == text::views(theirs@),
            (None, None) => true,
            _ => false,
        }
        &&& self.trust_authenticated <==> (auth.authorization_mode matches Some(mode) && mode@
            == TRUST_AUTHENTICATED@)
    }

    /// The verifier of an endpoint, where its callers have to authenticate by the given settings.
    pub fn for_callers(auth: Option<&AuthSettings>) -> (res: Option<Self>)
        ensures
            match auth {
                Some(auth) => res matches Some(verifier) && verifier.follows(*auth),
                None => res is None,
            },
    {
        let auth = match auth {
            Some(auth) => auth,
            None => return None,
        };
        let jwt_audience = match &auth.jwt_audience {
            Some(audience) => Some(copy_strings(audience)),
            None => None,
        };
        let authorization_mode = match &auth.authorization_mode {
            Some(mode) => Some(mode.as_str()),
            None => None,
        };
        Some(JwtVerifier::from_settings(auth.jwt_issuer.clone(), jwt_audience, authorization_mode))
    }

    /// A copy of the verifier.
    pub fn duplicate(&self) -> (res: Self)
        ensures
            res.agrees(self),
    {
        let jwt_issuer = self.jwt_issuer.clone();
        let jwt_audience = match &self.jwt_audience {
            Some(audience) => Some(copy_strings(audience)),
            None => None,
        };
        JwtVerifier { jwt_issuer, jwt_audience, trust_authenticated: self.trust_authenticated }
    }
}

impl JWTInterceptor {
    /// An interceptor that verifies with the given verifier.
    pub fn new(jwt_verifier: &JwtVerifier) -> (res: Self)
        ensures
            res.jwt_verifier.agrees(jwt_verifier),
    {
        JWTInterceptor { jwt_verifier: jwt_verifier.duplicate() }
    }

    /// Answers a call with the given metadata. A call without a bearer token is unauthenticated.
    /// `verified` is what came of the verification of the token, with the reason where it failed;
    /// `repository_allowed` says whether the token is authorized for the repository of the call,
    /// which counts only where authenticated users are not trusted with all of them.
    pub fn call<T>(
        &self,
        metadata: &MetadataMap,
        verified: Result<T, String>,
        repository_allowed: bool,
    ) -> (res: Result<T, Status>)
        ensures
            match (bearer_token(*metadata), verified) {
                (None, _) => res matches Err(status) && status.says(
                    Code::Unauthenticated,
                    "authorization header required"@,
                ),
                (Some(_), Err(reason)) => res matches Err(status) && status.says(
                    Code::PermissionDenied,
                    not_allowed_message(reason@),
                ),
                (Some(_), Ok(authorization)) => if self.jwt_verifier.trust_authenticated
                    || repository_allowed {
                    res == Ok::<T, Status>(authorization)
                } else {
                    res matches Err(status) && status.says(Code::PermissionDenied, "Unauthorized"@)
                },
            },
    {
        let authorization = match admit_verified(metadata, verified) {
            Ok(authorization) => authorization,
            Err(status) => return Err(status),
        };
        if !self.jwt_verifier.trust_authenticated && !repository_allowed {
            return Err(Status::new(Code::PermissionDenied, "Unauthorized"));
        }
        Ok(authorization)
    }
}

/// Admits calls whose token is verified, without a look at the repository.
#[derive(Debug)]
pub struct JWTAuthnInterceptor {
    pub jwt_verifier: JwtVerifier,
}

impl JWTAuthnInterceptor {
    /// An interceptor that verifies with the given verifier.
    pub fn new(jwt_verifier: &JwtVerifier) -> (res: Self)
        ensures
            res.jwt_verifier.agrees(jwt_verifier),
    {
        JWTAuthnInterceptor { jwt_verifier: jwt_verifier.duplicate() }
    }

    /// Answers a call with the given metadata. A call without a bearer token is unauthenticated.
    /// `verified` is what came of the verification of the token, with the reason where it failed.
    pub fn call<T>(&self, metadata: &MetadataMap, verified: Result<T, String>) -> (res: Result<
        T,
        Status,
    >)
        ensures
            admits_verified(*metadata, verified, res),
    {
        admit_verified(metadata, verified)
    }
}

} // verus!
