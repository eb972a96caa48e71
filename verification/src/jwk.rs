//! The cache of an identity provider's public keys.
//!
//! Keys come from the provider's JWKS endpoint and are looked up by key id. A key id that is not
//! cached is looked up once more after the set has been fetched again.
use crate::keyed;
use jsonwebtoken::jwk::{
    AlgorithmParameters, EllipticCurveKeyParameters, JwkSet, OctetKeyPairParameters,
    OctetKeyParameters, PublicKeyUse, RSAKeyParameters,
};
use jsonwebtoken::{Algorithm, DecodingKey};
use std::str::FromStr;
use vstd::prelude::*;

verus! {

/// Where the keys are published.
#[derive(Clone, Default, Debug)]
pub struct JWKServiceSettings {
    pub endpoint: String,
}

/// The algorithms that a token may be signed with.
#[derive(Debug, Clone, Copy, PartialEq, Eq, Structural)]
pub enum SigningAlgorithm {
    HS256,
    HS384,
    HS512,
    ES256,
    ES384,
    RS256,
    RS384,
    RS512,
    PS256,
    PS384,
    PS512,
    EdDSA,
}

/// What a public key is meant for.
#[derive(Debug, Clone)]
pub enum KeyUse {
    Signature,
    Encryption,
    Other(String),
}

/// The components of a key, base64url-encoded as they are published.
#[derive(Debug, Clone)]
pub enum KeyParameters {
    /// The coordinates `x` and `y`.
    EllipticCurve(String, String),
    /// The modulus `n` and the exponent `e`.
    Rsa(String, String),
    /// The secret `k`.
    OctetKey(String),
    /// The public key `x`.
    OctetKeyPair(String),
}

/// A published key.
#[derive(Debug, Clone)]
pub struct Jwk {
    pub key_id: Option<String>,
    pub key_algorithm: Option<String>,
    pub key_use: Option<KeyUse>,
    pub parameters: KeyParameters,
}

/// The mathematical content of [`KeyUse`].
pub enum KeyUseView {
    Signature,
    Encryption,
    Other(Seq<char>),
}

/// The mathematical content of [`KeyParameters`].
pub enum KeyParametersView {
    EllipticCurve(Seq<char>, Seq<char>),
    Rsa(Seq<char>, Seq<char>),
    OctetKey(Seq<char>),
    OctetKeyPair(Seq<char>),
}

/// The mathematical content of [`Jwk`].
pub struct JwkView {
    pub key_id: Option<Seq<char>>,
    pub key_algorithm: Option<Seq<char>>,
    pub key_use: Option<KeyUseView>,
    pub parameters: KeyParametersView,
}

impl View for KeyUse {
    type V = KeyUseView;

    open spec fn view(&self) -> KeyUseView {
        match self {
            KeyUse::Signature => KeyUseView::Signature,
            KeyUse::Encryption => KeyUseView::Encryption,
            KeyUse::Other(other) => KeyUseView::Other(other@),
        }
    }
}

impl View for KeyParameters {
    type V = KeyParametersView;

    open spec fn view(&self) -> KeyParametersView {
        match self {
            KeyParameters::EllipticCurve(x, y) => KeyParametersView::EllipticCurve(x@, y@),
            KeyParameters::Rsa(n, e) => KeyParametersView::Rsa(n@, e@),
            KeyParameters::OctetKey(value) => KeyParametersView::OctetKey(value@),
            KeyParameters::OctetKeyPair(x) => KeyParametersView::OctetKeyPair(x@),
        }
    }
}

impl View for Jwk {
    type V = JwkView;

    open spec fn view(&self) -> JwkView {
        JwkView {
            key_id: match self.key_id {
                Some(id) => Some(id@),
                None => None,
            },
            key_algorithm: match self.key_algorithm {
                Some(name) => Some(name@),
                None => None,
            },
            key_use: match self.key_use {
                Some(u) => Some(u@),
                None => None,
            },
            parameters: self.parameters@,
        }
    }
}

/// The views of a list of keys.
pub open spec fn jwk_views(jwks: Seq<Jwk>) -> Seq<JwkView> {
    jwks.map_values(|jwk: Jwk| jwk@)
}

/// Declares the key that `jsonwebtoken` verifies signatures with.
#[verifier::external_type_specification]
#[verifier::external_body]
pub struct ExDecodingKey(DecodingKey);

/// Declares the error of `jsonwebtoken`.
#[verifier::external_type_specification]
#[verifier::external_body]
pub struct ExJwtError(jsonwebtoken::errors::Error);

/// Declares the error of `serde_json`.
#[verifier::external_type_specification]
#[verifier::external_body]
pub struct ExJsonError(serde_json::Error);

/// `DecodingKey::clone` yields an equal key.
pub assume_specification[ <DecodingKey as Clone>::clone ](key: &DecodingKey) -> (res: DecodingKey)
    ensures
        res == key,
;

/// The keys in a JWKS document, as `serde_json` reads it into a `jsonwebtoken::jwk::JwkSet`.
pub uninterp spec fn jwk_set_of(body: Seq<char>) -> Option<Seq<JwkView>>;

/// Parses a JWKS document with `serde_json::from_str` into a `jsonwebtoken::jwk::JwkSet` and copies
/// out what is read of each key: its id, the name that `Display` gives its algorithm, its use and
/// its components. The contract claims that the document alone decides what comes back.
#[verifier::external_body]
fn parse_jwk_set(body: &str) -> (res: Result<Vec<Jwk>, serde_json::Error>)
    ensures
        match res {
            Ok(jwks) => jwk_set_of(body@) == Some(jwk_views(jwks@)),
            Err(_) => jwk_set_of(body@) is None,
        },
{
    let keys = serde_json::from_str::<JwkSet>(body)?.keys.into_iter();
    Ok(keys.map(|k| Jwk {
        key_id: k.common.key_id,
        key_algorithm: k.common.key_algorithm.map(|a| a.to_string()),
        key_use: k.common.public_key_use.map(|u| match u {
            PublicKeyUse::Signature => KeyUse::Signature,
            PublicKeyUse::Encryption => KeyUse::Encryption,
            PublicKeyUse::Other(o) => KeyUse::Other(o),
        }),
        parameters: match k.algorithm {
            AlgorithmParameters::EllipticCurve(p) => KeyParameters::EllipticCurve(p.x, p.y),
            AlgorithmParameters::RSA(p) => KeyParameters::Rsa(p.n, p.e),
            AlgorithmParameters::OctetKey(p) => KeyParameters::OctetKey(p.value),
            AlgorithmParameters::OctetKeyPair(p) => KeyParameters::OctetKeyPair(p.x),
        } }).collect())
}

/// The verification key that `jsonwebtoken` makes of the components of a key, where it can.
pub uninterp spec fn decoding_key_of(parameters: KeyParametersView) -> Option<DecodingKey>;

/// Makes a verification key with `jsonwebtoken::DecodingKey::from_jwk`, which reads nothing of the
/// key but its components. The contract claims that they alone decide the key and whether there is
/// one.
#[verifier::external_body]
fn decoding_key(parameters: &KeyParameters) -> (res: Result<
    DecodingKey,
    jsonwebtoken::errors::Error,
>)
    ensures
        match res {
            Ok(key) => decoding_key_of(parameters@) == Some(key),
            Err(_) => decoding_key_of(parameters@) is None,
        },
{
    let algorithm = match parameters.clone() {
        KeyParameters::EllipticCurve(x, y) => AlgorithmParameters::EllipticCurve(
            EllipticCurveKeyParameters { x, y, ..Default::default() }),
        KeyParameters::Rsa(n, e) => AlgorithmParameters::RSA(
            RSAKeyParameters { n, e, ..Default::default() }),
        KeyParameters::OctetKey(value) => AlgorithmParameters::OctetKey(
            OctetKeyParameters { value, ..Default::default() }),
        KeyParameters::OctetKeyPair(x) => AlgorithmParameters::OctetKeyPair(
            OctetKeyPairParameters { x, ..Default::default() }),
    };
    DecodingKey::from_jwk(&jsonwebtoken::jwk::Jwk { common: Default::default(), algorithm })
}

/// The signing algorithm with the given name.
pub open spec fn algorithm_named(name: Seq<char>) -> Option<SigningAlgorithm> {
    if name == "HS256"@ {
        Some(SigningAlgorithm::HS256)
    } else if name == "HS384"@ {
        Some(SigningAlgorithm::HS384)
    } else if name == "HS512"@ {
        Some(SigningAlgorithm::HS512)
    } else if name == "ES256"@ {
        Some(SigningAlgorithm::ES256)
    } else if name == "ES384"@ {
        Some(SigningAlgorithm::ES384)
    } else if name == "RS256"@ {
        Some(SigningAlgorithm::RS256)
    } else if name == "RS384"@ {
        Some(SigningAlgorithm::RS384)
    } else if name == "RS512"@ {
        Some(SigningAlgorithm::RS512)
    } else if name == "PS256"@ {
        Some(SigningAlgorithm::PS256)
    } else if name == "PS384"@ {
        Some(SigningAlgorithm::PS384)
    } else if name == "PS512"@ {
        Some(SigningAlgorithm::PS512)
    } else if name == "EdDSA"@ {
        Some(SigningAlgorithm::EdDSA)
    } else {
        None
    }
}

/// Reads an algorithm name with the `FromStr` of `jsonwebtoken::Algorithm`, which knows the twelve
/// names of its variants and rejects every other text.
#[verifier::external_body]
fn algorithm_from_name(name: &str) -> (res: Result<SigningAlgorithm, jsonwebtoken::errors::Error>)
    ensures
        match res {
            Ok(algorithm) => algorithm_named(name@) == Some(algorithm),
            Err(_) => algorithm_named(name@) is None,
        },
{
    Ok(match Algorithm::from_str(name)? {
        Algorithm::HS256 => SigningAlgorithm::HS256,
        Algorithm::HS384 => SigningAlgorithm::HS384,
        Algorithm::HS512 => SigningAlgorithm::HS512,
        Algorithm::ES256 => SigningAlgorithm::ES256,
        Algorithm::ES384 => SigningAlgorithm::ES384,
        Algorithm::RS256 => SigningAlgorithm::RS256,
        Algorithm::RS384 => SigningAlgorithm::RS384,
        Algorithm::RS512 => SigningAlgorithm::RS512,
        Algorithm::PS256 => SigningAlgorithm::PS256,
        Algorithm::PS384 => SigningAlgorithm::PS384,
        Algorithm::PS512 => SigningAlgorithm::PS512,
        Algorithm::EdDSA => SigningAlgorithm::EdDSA,
    })
}

/// Why a key cannot be had.
#[derive(Debug)]
pub enum JWKServiceError {
    InternalError,
    ParseError(serde_json::Error),
    DecodingError(jsonwebtoken::errors::Error),
    NotFound,
    MissingAlgorithm { kid: String },
}

impl JWKServiceError {
    /// The text of the error.
    pub open spec fn text(&self) -> Seq<char> {
        match self {
            JWKServiceError::InternalError => "Internal Error"@,
            JWKServiceError::ParseError(_) => "Could not parse jwks endpoint response"@,
            JWKServiceError::DecodingError(_) => "Could not decode jwk key"@,
            JWKServiceError::NotFound => "Key for kid not found"@,
            JWKServiceError::MissingAlgorithm { kid } => "JWK with kid '"@ + kid@
                + "' is missing the 'alg' field and cannot be inferred"@,
        }
    }

    /// Describes the error.
    pub fn message(&self) -> (res: String)
        ensures
            res@ == self.text(),
    {
        match self {
            JWKServiceError::InternalError => "Internal Error".to_owned(),
            JWKServiceError::ParseError(_) => "Could not parse jwks endpoint response".to_owned(),
            JWKServiceError::DecodingError(_) => "Could not decode jwk key".to_owned(),
            JWKServiceError::NotFound => "Key for kid not found".to_owned(),
            JWKServiceError::MissingAlgorithm { kid } => {
                let mut res = "JWK with kid '".to_owned();
                res.append(kid.as_str());
                res.append("' is missing the 'alg' field and cannot be inferred");
                res
            },
        }
    }
}

/// The name of the algorithm of a key: the one it is published with, or RS256 for an RSA key that is
/// meant for signatures.
pub open spec fn algorithm_name_of(jwk: JwkView) -> Option<Seq<char>> {
    match jwk.key_algorithm {
        Some(name) => Some(name),
        None => if jwk.parameters is Rsa && jwk.key_use == Some(KeyUseView::Signature) {
            Some("RS256"@)
        } else {
            None
        },
    }
}

/// What can be wrong with a published key.
pub enum KeyFault {
    NoKeyId,
    NoAlgorithm(Seq<char>),
    UnknownAlgorithm,
    Undecodable,
}

/// The error reports the fault.
pub open spec fn reports(error: JWKServiceError, fault: KeyFault) -> bool {
    match fault {
        KeyFault::NoKeyId => error is InternalError,
        KeyFault::NoAlgorithm(id) => error matches JWKServiceError::MissingAlgorithm { kid } && kid@
            == id,
        KeyFault::UnknownAlgorithm => error is DecodingError,
        KeyFault::Undecodable => error is DecodingError,
    }
}

/// A usable key: its id, the key to verify with, and its algorithm.
pub open spec fn usable_key(jwk: JwkView) -> Result<
    (Seq<char>, (DecodingKey, SigningAlgorithm)),
    KeyFault,
> {
    match jwk.key_id {
        None => Err(KeyFault::NoKeyId),
        Some(id) => match algorithm_name_of(jwk) {
            None => Err(KeyFault::NoAlgorithm(id)),
            Some(name) => match algorithm_named(name) {
                None => Err(KeyFault::UnknownAlgorithm),
                Some(algorithm) => match decoding_key_of(jwk.parameters) {
                    None => Err(KeyFault::Undecodable),
                    Some(key) => Ok((id, (key, algorithm))),
                },
            },
        },
    }
}

/// The keys of a set by their ids; a later key takes the place of an earlier one with the same id.
/// The first key that is not usable spoils the whole set.
pub open spec fn usable_keys(jwks: Seq<JwkView>) -> Result<
    Map<Seq<char>, (DecodingKey, SigningAlgorithm)>,
    KeyFault,
>
    decreases jwks.len(),
{
    if jwks.len() == 0 {
        Ok(Map::empty())
    } else {
        match usable_keys(jwks.drop_last()) {
            Err(fault) => Err(fault),
            Ok(keys) => match usable_key(jwks.last()) {
                Err(fault) => Err(fault),
                Ok((id, key)) => Ok(keys.insert(id, key)),
            },
        }
    }
}

/// A fault early in a set is the fault of the set.
proof fn lemma_fault_stays(jwks: Seq<JwkView>, n: int)
    requires
        0 <= n <= jwks.len(),
        usable_keys(jwks.take(n)) is Err,
    ensures
        usable_keys(jwks) == usable_keys(jwks.take(n)),
    decreases jwks.len(),
{
    if n == jwks.len() {
        assert(jwks.take(n) =~= jwks);
    } else {
        assert(jwks.drop_last().take(n) =~= jwks.take(n));
        lemma_fault_stays(jwks.drop_last(), n);
    }
}

/// A cached key.
pub struct JWKServiceKey {
    pub jwk: Jwk,
    pub decoding_key: DecodingKey,
    pub algorithm: SigningAlgorithm,
}

impl JWKServiceKey {
    /// What the key is given out as.
    pub open spec fn given(self) -> (DecodingKey, SigningAlgorithm) {
        (self.decoding_key, self.algorithm)
    }
}

/// The cached keys by their ids, as they are given out.
pub open spec fn cached_map(entries: Seq<(String, JWKServiceKey)>) -> Map<
    Seq<char>,
    (DecodingKey, SigningAlgorithm),
> {
    keyed::map_of(entries).map_values(|key: JWKServiceKey| key.given())
}

/// The name of the algorithm of a key, inferred where it is not published.
pub fn infer_algorithm(jwk: &Jwk) -> (res: Option<String>)
    ensures
        match res {
            Some(name) => algorithm_name_of(jwk@) == Some(name@),
            None => algorithm_name_of(jwk@) is None,
        },
{
    match &jwk.key_algorithm {
        Some(name) => Some(name.clone()),
        None => match (&jwk.parameters, &jwk.key_use) {
            (KeyParameters::Rsa(_, _), Some(KeyUse::Signature)) => Some("RS256".to_owned()),
            _ => None,
        },
    }
}

/// Makes a cache entry of a published key.
fn usable_entry(jwk: Jwk) -> (res: Result<(String, JWKServiceKey), JWKServiceError>)
    ensures
        match usable_key(jwk@) {
            Ok((id, (key, algorithm))) => res matches Ok((kid, entry)) && kid@ == id
                && entry.decoding_key == key && entry.algorithm == algorithm,
            Err(fault) => res matches Err(e) && reports(e, fault),
        },
{
    let kid = match &jwk.key_id {
        Some(id) => id.clone(),
        None => return Err(JWKServiceError::InternalError),
    };
    let name = match infer_algorithm(&jwk) {
        Some(name) => name,
        None => return Err(JWKServiceError::MissingAlgorithm { kid }),
    };
    let algorithm = match algorithm_from_name(name.as_str()) {
        Ok(algorithm) => algorithm,
        Err(e) => return Err(JWKServiceError::DecodingError(e)),
    };
    match decoding_key(&jwk.parameters) {
        Ok(decoding_key) => Ok((kid, JWKServiceKey { jwk, decoding_key, algorithm })),
        Err(e) => Err(JWKServiceError::DecodingError(e)),
    }
}

/// What a request to the JWKS endpoint brought.
#[derive(Debug)]
pub enum JwksReply {
    /// No complete answer: no client, no connection, or a body that could not be read.
    Unreachable,
    /// An answer, with a status that tells success or not.
    Answered { success: bool, body: String },
}

/// The key service: the cached keys and where they come from.
pub struct JwkServiceImpl {
    cached_set: Vec<(String, JWKServiceKey)>,
    settings: JWKServiceSettings,
}

impl View for JwkServiceImpl {
    type V = Map<Seq<char>, (DecodingKey, SigningAlgorithm)>;

    closed spec fn view(&self) -> Map<Seq<char>, (DecodingKey, SigningAlgorithm)> {
        cached_map(self.cached_set@)
    }
}

impl JwkServiceImpl {
    /// No key id is cached twice.
    pub closed spec fn wf(&self) -> bool {
        keyed::names_of(self.cached_set@).no_duplicates()
    }

    /// Where the keys are published.
    pub closed spec fn endpoint_spec(&self) -> Seq<char> {
        self.settings.endpoint@
    }

    /// A service with an empty cache.
    pub fn new(settings: JWKServiceSettings) -> (res: Self)
        ensures
            res.wf(),
            res@ == Map::<Seq<char>, (DecodingKey, SigningAlgorithm)>::empty(),
            res.endpoint_spec() == settings.endpoint@,
    {
        let res = JwkServiceImpl { cached_set: Vec::new(), settings };
        assert(res@ =~= Map::<Seq<char>, (DecodingKey, SigningAlgorithm)>::empty());
        res
    }

    /// Where the keys are published.
    pub fn endpoint(&self) -> (res: &str)
        ensures
            res@ == self.endpoint_spec(),
    {
        self.settings.endpoint.as_str()
    }

    /// `res` is what the cache alone answers for a key id.
    pub open spec fn cache_answer(
        &self,
        kid: Seq<char>,
        res: Result<(DecodingKey, SigningAlgorithm), JWKServiceError>,
    ) -> bool {
        if self@.contains_key(kid) {
            res == Ok::<(DecodingKey, SigningAlgorithm), JWKServiceError>(self@[kid])
        } else {
            res matches Err(e) && e is NotFound
        }
    }

    /// Looks a key id up in the cache.
    pub fn get_cached_key(&self, kid: &str) -> (res: Result<
        (DecodingKey, SigningAlgorithm),
        JWKServiceError,
    >)
        requires
            self.wf(),
        ensures
            self.cache_answer(kid@, res),
    {
        match keyed::position(&self.cached_set, kid) {
            Some(i) => Ok(
                (self.cached_set[i].1.decoding_key.clone(), self.cached_set[i].1.algorithm),
            ),
            None => Err(JWKServiceError::NotFound),
        }
    }

    /// A fetch is called for: always where no key in particular is desired, and otherwise only where
    /// the desired key is not cached.
    pub open spec fn fetch_wanted(&self, desired: Option<Seq<char>>) -> bool {
        match desired {
            Some(kid) => !self@.contains_key(kid),
            None => true,
        }
    }

    /// Whether [`Self::fetch_new_keys`] will look at a reply of the endpoint.
    pub fn wants_fetch(&self, desired: Option<&str>) -> (res: bool)
        requires
            self.wf(),
        ensures
            res == self.fetch_wanted(
                match desired {
                    Some(kid) => Some(kid@),
                    None => None,
                },
            ),
    {
        match desired {
            Some(kid) => keyed::position(&self.cached_set, kid).is_none(),
            None => true,
        }
    }

    /// `now` and `res` are what becomes of this cache when it is replaced by a set of keys: the keys
    /// of the set where all are usable, and no change where one is not.
    pub open spec fn replaced_by(
        &self,
        jwks: Seq<JwkView>,
        now: Map<Seq<char>, (DecodingKey, SigningAlgorithm)>,
        res: Result<(), JWKServiceError>,
    ) -> bool {
        match usable_keys(jwks) {
            Ok(keys) => res is Ok && now == keys,
            Err(fault) => res matches Err(e) && reports(e, fault) && now == self@,
        }
    }

    /// Replaces the cache by a set of published keys.
    pub fn replace_keys(&mut self, jwks: Vec<Jwk>) -> (res: Result<(), JWKServiceError>)
        requires
            old(self).wf(),
        ensures
            final(self).wf(),
            final(self).endpoint_spec() == old(self).endpoint_spec(),
            old(self).replaced_by(jwk_views(jwks@), final(self)@, res),
    {
        let ghost all = jwk_views(jwks@);
        let mut new_set: Vec<(String, JWKServiceKey)> = Vec::new();
        let mut rest = jwks;
        let mut todo: Vec<Jwk> = Vec::new();
        while rest.len() > 0
            invariant
                todo@.len() + rest@.len() == all.len(),
                forall|i: int| 0 <= i < rest@.len() ==> (#[trigger] rest@[i])@ == all[i],
                forall|i: int|
                    0 <= i < todo@.len() ==> (#[trigger] todo@[i])@ == all[all.len() - 1 - i],
            decreases rest@.len(),
        {
            if let Some(jwk) = rest.pop() {
                todo.push(jwk);
            }
        }
        assert(cached_map(new_set@) =~= Map::empty());
        assert(all.take(0) =~= Seq::empty());
        let ghost mut done: int = 0;
        while todo.len() > 0
            invariant
                *self == *old(self),
                self.wf(),
                0 <= done,
                done + todo@.len() == all.len(),
                forall|i: int|
                    0 <= i < todo@.len() ==> (#[trigger] todo@[i])@ == all[all.len() - 1 - i],
                keyed::names_of(new_set@).no_duplicates(),
                usable_keys(all.take(done)) == Ok::<
                    Map<Seq<char>, (DecodingKey, SigningAlgorithm)>,
                    KeyFault,
                >(cached_map(new_set@)),
                all == jwk_views(jwks@),
            decreases todo@.len(),
        {
            if let Some(jwk) = todo.pop() {
                proof {
                    assert(jwk@ == all[done]);
                    assert(all.take(done + 1).drop_last() =~= all.take(done));
                    assert(all.take(done + 1).last() == all[done]);
                }
                match usable_entry(jwk) {
                    Ok((kid, entry)) => {
                        let ghost before = new_set@;
                        keyed::put(&mut new_set, kid, entry);
                        assert(cached_map(new_set@) =~= cached_map(before).insert(
                            kid@,
                            entry.given(),
                        ));
                    },
                    Err(e) => {
                        proof {
                            lemma_fault_stays(all, done + 1);
                        }
                        return Err(e);
                    },
                }
                proof {
                    done = done + 1;
                }
            }
        }
        assert(all.take(done) =~= all);
        self.cached_set = new_set;
        Ok(())
    }

    /// `now` and `res` are what becomes of this cache when the endpoint has replied.
    pub open spec fn refilled_from(
        &self,
        reply: JwksReply,
        now: Map<Seq<char>, (DecodingKey, SigningAlgorithm)>,
        res: Result<(), JWKServiceError>,
    ) -> bool {
        match reply {
            JwksReply::Answered { success, body } => if success {
                match jwk_set_of(body@) {
                    Some(jwks) => self.replaced_by(jwks, now, res),
                    None => res matches Err(e) && e is ParseError && now == self@,
                }
            } else {
                res matches Err(e) && e is InternalError && now == self@
            },
            JwksReply::Unreachable => res matches Err(e) && e is InternalError && now == self@,
        }
    }

    /// Replaces the cache by the keys that the endpoint replied with. Where a key is desired and
    /// already cached, the reply is not looked at.
    pub fn fetch_new_keys(&mut self, desired: Option<&str>, reply: JwksReply) -> (res: Result<
        (),
        JWKServiceError,
    >)
        requires
            old(self).wf(),
        ensures
            final(self).wf(),
            final(self).endpoint_spec() == old(self).endpoint_spec(),
            if old(self).fetch_wanted(
                match desired {
                    Some(kid) => Some(kid@),
                    None => None,
                },
            ) {
                old(self).refilled_from(reply, final(self)@, res)
            } else {
                res is Ok && final(self)@ == old(self)@
            },
    {
        if !self.wants_fetch(desired) {
            return Ok(());
        }
        match reply {
            JwksReply::Answered { success, body } => {
                if !success {
                    return Err(JWKServiceError::InternalError);
                }
                match parse_jwk_set(body.as_str()) {
                    Ok(jwks) => self.replace_keys(jwks),
                    Err(e) => Err(JWKServiceError::ParseError(e)),
                }
            },
            JwksReply::Unreachable => Err(JWKServiceError::InternalError),
        }
    }

    /// `now` and `res` are what becomes of this service when a key id is looked up, with a fetch where
    /// it is not cached.
    pub open spec fn key_answer(
        &self,
        kid: Seq<char>,
        reply: JwksReply,
        now: JwkServiceImpl,
        res: Result<(DecodingKey, SigningAlgorithm), JWKServiceError>,
    ) -> bool {
        if self@.contains_key(kid) {
            &&& now@ == self@
            &&& res == Ok::<(DecodingKey, SigningAlgorithm), JWKServiceError>(self@[kid])
        } else {
            ||| self.refilled_from(reply, now@, Ok(())) && now.cache_answer(kid, res)
            ||| res matches Err(e) && self.refilled_from(reply, now@, Err(e))
        }
    }

    /// Looks a key id up, once more after a fetch where it is not cached. `reply` is what the
    /// endpoint replied; it is looked at only where the key id is not cached.
    pub fn get_key(&mut self, kid: &str, reply: JwksReply) -> (res: Result<
        (DecodingKey, SigningAlgorithm),
        JWKServiceError,
    >)
        requires
            old(self).wf(),
        ensures
            final(self).wf(),
            final(self).endpoint_spec() == old(self).endpoint_spec(),
            old(self).key_answer(kid@, reply, *final(self), res),
    {
        match self.get_cached_key(kid) {
            Ok(key) => Ok(key),
            Err(_) => match self.fetch_new_keys(Some(kid), reply) {
                Ok(()) => self.get_cached_key(kid),
                Err(e) => Err(e),
            },
        }
    }
}

} // verus!
