//! What holds of the keys that tokens are verified with, stated of the calls that fetch them and look
//! them up.
use crate::jwk::{
    self, JWKServiceError, JWKServiceSettings, Jwk, JwkServiceImpl, JwkView, JwksReply, KeyParameters,
    KeyParametersView, KeyUse, KeyUseView, SigningAlgorithm,
};
use jsonwebtoken::DecodingKey;
use vstd::prelude::*;

verus! {

/// What is read of a published key.
pub open spec fn published(jwk: Jwk) -> JwkView {
    JwkView {
        key_id: match jwk.key_id {
            Some(id) => Some(id@),
            None => None,
        },
        key_algorithm: match jwk.key_algorithm {
            Some(name) => Some(name@),
            None => None,
        },
        key_use: match jwk.key_use {
            Some(KeyUse::Signature) => Some(KeyUseView::Signature),
            Some(KeyUse::Encryption) => Some(KeyUseView::Encryption),
            Some(KeyUse::Other(other)) => Some(KeyUseView::Other(other@)),
            None => None,
        },
        parameters: match jwk.parameters {
            KeyParameters::EllipticCurve(x, y) => KeyParametersView::EllipticCurve(x@, y@),
            KeyParameters::Rsa(n, e) => KeyParametersView::Rsa(n@, e@),
            KeyParameters::OctetKey(k) => KeyParametersView::OctetKey(k@),
            KeyParameters::OctetKeyPair(x) => KeyParametersView::OctetKeyPair(x@),
        },
    }
}

/// The algorithm is known by the name.
pub open spec fn is_named(algorithm: SigningAlgorithm, name: Seq<char>) -> bool {
    name == match algorithm {
        SigningAlgorithm::HS256 => "HS256"@,
        SigningAlgorithm::HS384 => "HS384"@,
        SigningAlgorithm::HS512 => "HS512"@,
        SigningAlgorithm::ES256 => "ES256"@,
        SigningAlgorithm::ES384 => "ES384"@,
        SigningAlgorithm::RS256 => "RS256"@,
        SigningAlgorithm::RS384 => "RS384"@,
        SigningAlgorithm::RS512 => "RS512"@,
        SigningAlgorithm::PS256 => "PS256"@,
        SigningAlgorithm::PS384 => "PS384"@,
        SigningAlgorithm::PS512 => "PS512"@,
        SigningAlgorithm::EdDSA => "EdDSA"@,
    }
}

/// The key is used with the algorithm: the one that it is published with, or RS256 where none is and
/// it is an RSA key for signatures.
pub open spec fn is_used_with(jwk: JwkView, algorithm: SigningAlgorithm) -> bool {
    match jwk.key_algorithm {
        Some(name) => is_named(algorithm, name),
        None => {
            &&& jwk.parameters is Rsa
            &&& jwk.key_use matches Some(KeyUseView::Signature)
            &&& algorithm == SigningAlgorithm::RS256
        },
    }
}

/// Tokens signed with the published key are verified with `key`.
pub open spec fn verifies(jwk: JwkView, key: (DecodingKey, SigningAlgorithm)) -> bool {
    is_used_with(jwk, key.1) && jwk::decoding_key_of(jwk.parameters) == Some(key.0)
}

/// The published key can be used.
pub open spec fn is_sound(jwk: JwkView) -> bool {
    jwk.key_id is Some && exists|key: (DecodingKey, SigningAlgorithm)| #[trigger] verifies(jwk, key)
}

/// All keys of the set can be used.
pub open spec fn all_sound(jwks: Seq<JwkView>) -> bool {
    forall|i: int| 0 <= i < jwks.len() ==> is_sound(#[trigger] jwks[i])
}

/// The cache holds the set: for every key of it an entry under its id, which verifies the tokens of
/// the last key with that id, and no other entry.
pub open spec fn caches(
    jwks: Seq<JwkView>,
    now: Map<Seq<char>, (DecodingKey, SigningAlgorithm)>,
) -> bool {
    &&& forall|i: int|
        0 <= i < jwks.len() ==> (#[trigger] jwks[i]).key_id is Some && now.contains_key(
            jwks[i].key_id->0,
        )
    &&& forall|i: int|
        0 <= i < jwks.len() && (forall|j: int|
            i < j < jwks.len() ==> (#[trigger] jwks[j]).key_id != jwks[i].key_id) ==> verifies(
            #[trigger] jwks[i],
            now[jwks[i].key_id->0],
        )
    &&& forall|id: Seq<char>| #[trigger]
        now.contains_key(id) ==> exists|i: int|
            0 <= i < jwks.len() && (#[trigger] jwks[i]).key_id == Some(id)
}

/// The error says what is wrong with the first key of the set that cannot be used.
pub open spec fn blames(error: JWKServiceError, jwks: Seq<JwkView>) -> bool {
    exists|i: int|
        0 <= i < jwks.len() && !is_sound(#[trigger] jwks[i]) && all_sound(jwks.take(i))
            && match jwks[i].key_id {
            None => error is InternalError,
            Some(id) => if jwks[i].key_algorithm is None && !(jwks[i].parameters is Rsa
                && jwks[i].key_use == Some(KeyUseView::Signature)) {
                error matches JWKServiceError::MissingAlgorithm { kid } && kid@ == id
            } else {
                error is DecodingError
            },
        }
}

/// The names of the algorithms differ.
proof fn lemma_names_tell_algorithms_apart(name: Seq<char>, algorithm: SigningAlgorithm)
    ensures
        is_named(algorithm, name) <==> jwk::algorithm_named(name) == Some(algorithm),
{
    reveal_strlit("HS256");
    reveal_strlit("HS384");
    reveal_strlit("HS512");
    reveal_strlit("ES256");
    reveal_strlit("ES384");
    reveal_strlit("RS256");
    reveal_strlit("RS384");
    reveal_strlit("RS512");
    reveal_strlit("PS256");
    reveal_strlit("PS384");
    reveal_strlit("PS512");
    reveal_strlit("EdDSA");
    assert("HS256"@[0] == 'H' && "HS256"@[2] == '2');
    assert("HS384"@[0] == 'H' && "HS384"@[2] == '3');
    assert("HS512"@[0] == 'H' && "HS512"@[2] == '5');
    assert("ES256"@[0] == 'E' && "ES256"@[2] == '2');
    assert("ES384"@[0] == 'E' && "ES384"@[2] == '3');
    assert("RS256"@[0] == 'R' && "RS256"@[2] == '2');
    assert("RS384"@[0] == 'R' && "RS384"@[2] == '3');
    assert("RS512"@[0] == 'R' && "RS512"@[2] == '5');
    assert("PS256"@[0] == 'P' && "PS256"@[2] == '2');
    assert("PS384"@[0] == 'P' && "PS384"@[2] == '3');
    assert("PS512"@[0] == 'P' && "PS512"@[2] == '5');
    assert("EdDSA"@[0] == 'E' && "EdDSA"@[2] == 'D');
}

/// A key is usable where it is sound, and then as what verifies its tokens.
proof fn lemma_usable_key(jwk: JwkView)
    ensures
        match jwk::usable_key(jwk) {
            Ok((id, key)) => is_sound(jwk) && jwk.key_id == Some(id) && verifies(jwk, key),
            Err(fault) => !is_sound(jwk) && match jwk.key_id {
                None => fault is NoKeyId,
                Some(id) => if jwk.key_algorithm is None && !(jwk.parameters is Rsa && jwk.key_use
                    == Some(KeyUseView::Signature)) {
                    fault == jwk::KeyFault::NoAlgorithm(id)
                } else {
                    fault is UnknownAlgorithm || fault is Undecodable
                },
            },
        },
{
    assert forall|name: Seq<char>, algorithm: SigningAlgorithm| #[trigger]
        is_named(algorithm, name) <==> jwk::algorithm_named(name) == Some(algorithm) by {
        lemma_names_tell_algorithms_apart(name, algorithm);
    }
    match jwk::usable_key(jwk) {
        Ok((id, key)) => {
            assert(is_named(key.1, jwk::algorithm_name_of(jwk)->0));
            assert(is_named(SigningAlgorithm::RS256, "RS256"@));
            assert(verifies(jwk, key));
        },
        Err(fault) => {
            if is_sound(jwk) {
                let key = choose|key: (DecodingKey, SigningAlgorithm)| #[trigger] verifies(jwk, key);
                assert(is_named(SigningAlgorithm::RS256, "RS256"@));
                match jwk.key_algorithm {
                    Some(name) => {
                        assert(is_named(key.1, name));
                    },
                    None => {},
                }
            }
        },
    }
}

proof fn lemma_usable_keys(jwks: Seq<JwkView>)
    ensures
        match jwk::usable_keys(jwks) {
            Ok(keys) => all_sound(jwks) && caches(jwks, keys),
            Err(fault) => !all_sound(jwks) && forall|error: JWKServiceError| #[trigger]
                jwk::reports(error, fault) ==> blames(error, jwks),
        },
    decreases jwks.len(),
{
    if jwks.len() > 0 {
        let before = jwks.drop_last();
        let n = jwks.len() - 1;
        lemma_usable_keys(before);
        lemma_usable_key(jwks.last());
        assert(forall|i: int| 0 <= i < n ==> before[i] == jwks[i]);
        assert(jwks[n] == jwks.last());
        match jwk::usable_keys(before) {
            Err(fault) => {
                let bad = choose|i: int| 0 <= i < before.len() && !is_sound(#[trigger] before[i]);
                assert(!is_sound(jwks[bad]));
                assert forall|error: JWKServiceError| #[trigger]
                    jwk::reports(error, fault) implies blames(error, jwks) by {
                    assert(blames(error, before));
                    let i = choose|i: int|
                        0 <= i < before.len() && !is_sound(#[trigger] before[i]) && all_sound(
                            before.take(i),
                        ) && match before[i].key_id {
                            None => error is InternalError,
                            Some(id) => if before[i].key_algorithm is None && !(
                            before[i].parameters is Rsa && before[i].key_use == Some(
                                KeyUseView::Signature,
                            )) {
                                error matches JWKServiceError::MissingAlgorithm { kid } && kid@
                                    == id
                            } else {
                                error is DecodingError
                            },
                        };
                    assert(jwks[i] == before[i]);
                    assert(jwks.take(i) =~= before.take(i));
                }
            },
            Ok(keys) => match jwk::usable_key(jwks.last()) {
                Err(fault) => {
                    assert(!is_sound(jwks[n]));
                    assert(jwks.take(n) =~= before);
                },
                Ok((id, key)) => {
                    let now = keys.insert(id, key);
                    assert forall|i: int| 0 <= i < jwks.len() implies is_sound(#[trigger] jwks[i]) by {
                        if i < n {
                            assert(is_sound(before[i]));
                        }
                    }
                    assert forall|i: int| 0 <= i < jwks.len() implies (
                    #[trigger] jwks[i]).key_id is Some && now.contains_key(jwks[i].key_id->0) by {
                        if i < n {
                            assert(before[i].key_id is Some);
                        }
                    }
                    assert forall|i: int|
                        0 <= i < jwks.len() && (forall|j: int|
                            i < j < jwks.len() ==> (#[trigger] jwks[j]).key_id
                                != jwks[i].key_id) implies verifies(
                        #[trigger] jwks[i],
                        now[jwks[i].key_id->0],
                    ) by {
                        if i < n {
                            assert(jwks[n].key_id != jwks[i].key_id);
                            assert(before[i].key_id is Some);
                            assert forall|j: int| i < j < before.len() implies (
                            #[trigger] before[j]).key_id != before[i].key_id by {
                                assert(jwks[j].key_id != jwks[i].key_id);
                            }
                            assert(verifies(before[i], keys[before[i].key_id->0]));
                        }
                    }
                    assert forall|other: Seq<char>| #[trigger] now.contains_key(other) implies exists|
                        i: int,
                    |
                        0 <= i < jwks.len() && (#[trigger] jwks[i]).key_id == Some(other) by {
                        if other == id {
                            assert(jwks[n].key_id == Some(other));
                        } else {
                            assert(keys.contains_key(other));
                            let i = choose|i: int|
                                0 <= i < before.len() && (#[trigger] before[i]).key_id == Some(
                                    other,
                                );
                            assert(jwks[i].key_id == Some(other));
                        }
                    }
                },
            },
        }
    }
}

/// Every algorithm is known by its name and by no other, and no other name is known.
pub proof fn law_algorithms_are_known_by_their_names(name: Seq<char>)
    ensures
        match jwk::algorithm_named(name) {
            Some(algorithm) => is_named(algorithm, name),
            None => forall|algorithm: SigningAlgorithm| !#[trigger] is_named(algorithm, name),
        },
{
    assert forall|algorithm: SigningAlgorithm| #[trigger] is_named(algorithm, name) <==>
        jwk::algorithm_named(name) == Some(algorithm) by {
        lemma_names_tell_algorithms_apart(name, algorithm);
    }
    if let Some(algorithm) = jwk::algorithm_named(name) {
        assert(is_named(algorithm, name));
    }
}

/// The algorithm of a key is the one that it is published with; it is inferred for RSA keys that are
/// meant for signatures, and for no others.
pub proof fn law_algorithms_are_inferred_for_rsa_signatures(jwk: Jwk, res: Option<String>)
    requires
        call_ensures(jwk::infer_algorithm, (&jwk,), res),
    ensures
        match (jwk.key_algorithm, jwk.parameters, jwk.key_use) {
            (Some(name), _, _) => res matches Some(found) && found@ == name@,
            (None, KeyParameters::Rsa(_, _), Some(KeyUse::Signature)) => res matches Some(found)
                && found@ == "RS256"@,
            _ => res is None,
        },
{
}

/// What becomes of a cache that is replaced by a set of published keys: it holds the set where all of
/// its keys can be used, and is left alone where one cannot.
pub open spec fn is_replaced(
    before: Map<Seq<char>, (DecodingKey, SigningAlgorithm)>,
    jwks: Seq<JwkView>,
    now: Map<Seq<char>, (DecodingKey, SigningAlgorithm)>,
    res: Result<(), JWKServiceError>,
) -> bool {
    match res {
        Ok(_) => all_sound(jwks) && caches(jwks, now),
        Err(error) => blames(error, jwks) && now == before,
    }
}

/// Every key of a set that is taken over can be found under its id afterwards, and no key that is not
/// in it; a set with a key that cannot be used is not taken over.
pub proof fn law_all_published_keys_are_cached(jwks: Vec<Jwk>)
    ensures
        forall|service: &mut JwkServiceImpl, res: Result<(), JWKServiceError>| #[trigger]
            call_ensures(JwkServiceImpl::replace_keys, (service, jwks), res) ==> is_replaced(
                service@,
                jwks@.map_values(|jwk: Jwk| published(jwk)),
                final(service)@,
                res,
            ),
{
    let sets = jwks@.map_values(|jwk: Jwk| published(jwk));
    assert(sets =~= jwk::jwk_views(jwks@));
    lemma_usable_keys(sets);
}

/// What becomes of a cache when its endpoint was asked.
pub open spec fn is_refilled(
    before: Map<Seq<char>, (DecodingKey, SigningAlgorithm)>,
    reply: JwksReply,
    now: Map<Seq<char>, (DecodingKey, SigningAlgorithm)>,
    res: Result<(), JWKServiceError>,
) -> bool {
    match reply {
        JwksReply::Answered { success: true, body } => match jwk::jwk_set_of(body@) {
            Some(jwks) => is_replaced(before, jwks, now, res),
            None => (res matches Err(error) && error is ParseError) && now == before,
        },
        _ => (res matches Err(error) && error is InternalError) && now == before,
    }
}

/// A fetch takes over the keys that the endpoint published, unless the key that is desired is cached
/// already: then it does nothing.
pub proof fn law_a_fetch_takes_over_what_was_published(desired: Option<&str>, reply: JwksReply)
    ensures
        forall|service: &mut JwkServiceImpl, res: Result<(), JWKServiceError>| #[trigger]
            call_ensures(JwkServiceImpl::fetch_new_keys, (service, desired, reply), res) ==> if (
            desired matches Some(kid) && service@.contains_key(kid@)) {
                res is Ok && final(service)@ == service@
            } else {
                is_refilled(service@, reply, final(service)@, res)
            },
{
    if let JwksReply::Answered { success: true, body } = reply {
        if let Some(jwks) = jwk::jwk_set_of(body@) {
            lemma_usable_keys(jwks);
        }
    }
}

/// A key that is cached is given out whatever the endpoint would say. Another one is given out exactly
/// where the set that was fetched for it could be taken over and holds it.
pub proof fn law_keys_are_looked_up_by_their_ids(kid: &str, reply: JwksReply)
    ensures
        forall|service: &mut JwkServiceImpl,
            res: Result<(DecodingKey, SigningAlgorithm), JWKServiceError>,
        | #[trigger]
            call_ensures(JwkServiceImpl::get_key, (service, kid, reply), res) ==> if service@.contains_key(
                kid@,
            ) {
                res == Ok::<(DecodingKey, SigningAlgorithm), JWKServiceError>(service@[kid@])
                    && final(service)@ == service@
            } else {
                match res {
                    Ok(key) => is_refilled(service@, reply, final(service)@, Ok(()))
                        && final(service)@.contains_key(kid@) && final(service)@[kid@] == key,
                    Err(error) => {
                        ||| is_refilled(service@, reply, final(service)@, Err(error))
                        ||| error is NotFound && !final(service)@.contains_key(kid@)
                            && is_refilled(service@, reply, final(service)@, Ok(()))
                    },
                }
            },
{
    if let JwksReply::Answered { success: true, body } = reply {
        if let Some(jwks) = jwk::jwk_set_of(body@) {
            lemma_usable_keys(jwks);
        }
    }
}

/// The cache gives out what it holds under an id; a fetch is wanted for a key that it does not hold,
/// and always where no key in particular is desired.
pub proof fn law_the_cache_gives_out_what_it_holds(
    service: JwkServiceImpl,
    kid: &str,
    res: Result<(DecodingKey, SigningAlgorithm), JWKServiceError>,
    wanted: bool,
    wanted_all: bool,
)
    requires
        call_ensures(JwkServiceImpl::get_cached_key, (&service, kid), res),
        call_ensures(JwkServiceImpl::wants_fetch, (&service, Some(kid)), wanted),
        call_ensures(JwkServiceImpl::wants_fetch, (&service, None), wanted_all),
    ensures
        match res {
            Ok(key) => service@.contains_key(kid@) && key == service@[kid@],
            Err(error) => error is NotFound && !service@.contains_key(kid@),
        },
        wanted <==> res is Err,
        wanted_all,
{
}

/// A new service knows where to ask, and nothing else.
pub proof fn law_a_new_service_holds_no_keys(
    settings: JWKServiceSettings,
    service: JwkServiceImpl,
    endpoint: &str,
    kid: &str,
    res: Result<(DecodingKey, SigningAlgorithm), JWKServiceError>,
)
    requires
        call_ensures(JwkServiceImpl::new, (settings,), service),
        call_ensures(JwkServiceImpl::endpoint, (&service,), endpoint),
        call_ensures(JwkServiceImpl::get_cached_key, (&service, kid), res),
    ensures
        endpoint@ == settings.endpoint@,
        res is Err,
{
}

/// Asking for keys does not change where they are asked for.
pub proof fn law_the_endpoint_stays(
    jwks: Vec<Jwk>,
    desired: Option<&str>,
    kid: &str,
    reply: JwksReply,
)
    ensures
        forall|service: &mut JwkServiceImpl, res: Result<(), JWKServiceError>| #[trigger]
            call_ensures(JwkServiceImpl::replace_keys, (service, jwks), res)
                ==> final(service).endpoint_spec() == service.endpoint_spec(),
        forall|service: &mut JwkServiceImpl, res: Result<(), JWKServiceError>| #[trigger]
            call_ensures(JwkServiceImpl::fetch_new_keys, (service, desired, reply), res)
                ==> final(service).endpoint_spec() == service.endpoint_spec(),
        forall|service: &mut JwkServiceImpl,
            res: Result<(DecodingKey, SigningAlgorithm), JWKServiceError>,
        | #[trigger]
            call_ensures(JwkServiceImpl::get_key, (service, kid, reply), res)
                ==> final(service).endpoint_spec() == service.endpoint_spec(),
{
}

/// The messages of the key service.
pub proof fn law_key_errors_are_described(error: JWKServiceError, res: String)
    requires
        call_ensures(JWKServiceError::message, (&error,), res),
    ensures
        res@ == match error {
            JWKServiceError::InternalError => "Internal Error"@,
            JWKServiceError::ParseError(_) => "Could not parse jwks endpoint response"@,
            JWKServiceError::DecodingError(_) => "Could not decode jwk key"@,
            JWKServiceError::NotFound => "Key for kid not found"@,
            JWKServiceError::MissingAlgorithm { kid } => "JWK with kid '"@ + kid@
                + "' is missing the 'alg' field and cannot be inferred"@,
        },
{
}

} // verus!
