use lore_auth::jwk::{
    infer_algorithm, JWKServiceError, JWKServiceSettings, Jwk, JwkServiceImpl, JwksReply,
    KeyParameters, KeyUse, SigningAlgorithm,
};
use lore_auth::jwt_interceptor::{
    extract_bearer_token, require_bearer_token, token_from_header, JWTAuthnInterceptor,
    JWTInterceptor, JwtVerifier,
};
use lore_auth::status::Code;
use tonic::metadata::{MetadataMap, MetadataValue};

fn metadata(header: &str) -> MetadataMap {
    let mut map = MetadataMap::new();
    let value: MetadataValue<tonic::metadata::Ascii> = header.parse().unwrap();
    map.insert("authorization", value);
    map
}

#[test]
fn the_bearer_token_is_taken_from_the_header() {
    assert_eq!(token_from_header("Bearer abc").as_deref(), Some("abc"));
    assert_eq!(
        extract_bearer_token(&metadata("Bearer abc.def")).as_deref(),
        Some("abc.def")
    );
    assert_eq!(require_bearer_token(&metadata("Bearer t")).unwrap(), "t");
}

#[test]
fn a_missing_header_is_unauthenticated() {
    assert_eq!(extract_bearer_token(&MetadataMap::new()), None);
    let status = require_bearer_token(&MetadataMap::new()).unwrap_err();
    assert_eq!(status.code, Code::Unauthenticated);
    assert_eq!(status.message, "authorization header required");
}

fn verifier_in_mode(mode: Option<&str>) -> JwtVerifier {
    JwtVerifier::from_settings(
        Some("https://issuer".to_string()),
        Some(vec!["client".to_string()]),
        mode,
    )
}

#[test]
fn authenticated_users_are_trusted_only_in_that_mode() {
    assert!(verifier_in_mode(Some("trust_authenticated")).trust_authenticated);
    assert!(!verifier_in_mode(Some("resources")).trust_authenticated);
    assert!(!verifier_in_mode(None).trust_authenticated);
    let copy = verifier_in_mode(None).duplicate();
    assert_eq!(copy.jwt_issuer.as_deref(), Some("https://issuer"));
    assert_eq!(copy.jwt_audience, Some(vec!["client".to_string()]));
}

#[test]
fn a_verified_token_is_admitted_to_its_repositories() {
    let interceptor = JWTInterceptor::new(&verifier_in_mode(None));
    assert_eq!(interceptor.call(&metadata("Bearer t"), Ok(7), true).unwrap(), 7);
    let status = interceptor.call(&metadata("Bearer t"), Ok(7), false).unwrap_err();
    assert_eq!(status.code, Code::PermissionDenied);
    assert_eq!(status.message, "Unauthorized");
}

#[test]
fn a_trusted_token_is_admitted_everywhere() {
    let interceptor = JWTInterceptor::new(&verifier_in_mode(Some("trust_authenticated")));
    assert_eq!(interceptor.call(&metadata("Bearer t"), Ok(7), false).unwrap(), 7);
}

#[test]
fn a_rejected_token_is_not_admitted() {
    let trusting = JWTInterceptor::new(&verifier_in_mode(Some("trust_authenticated")));
    let status = trusting
        .call::<u8>(&metadata("Bearer t"), Err("expired".to_string()), true)
        .unwrap_err();
    assert_eq!(status.code, Code::PermissionDenied);
    assert_eq!(status.message, "Not allowed (expired)");
    let authn = JWTAuthnInterceptor::new(&verifier_in_mode(None));
    assert_eq!(authn.call(&metadata("Bearer t"), Ok(7)).unwrap(), 7);
    let status = authn
        .call::<u8>(&metadata("Bearer t"), Err("expired".to_string()))
        .unwrap_err();
    assert_eq!(status.message, "Not allowed (expired)");
    for header in ["Basic t", "bearer t"] {
        let status = authn.call(&metadata(header), Ok(7)).unwrap_err();
        assert_eq!(status.code, Code::Unauthenticated);
        let status = trusting.call(&metadata(header), Ok(7), true).unwrap_err();
        assert_eq!(status.message, "authorization header required");
    }
}

fn service() -> JwkServiceImpl {
    JwkServiceImpl::new(JWKServiceSettings {
        endpoint: "https://idp.example/keys".to_string(),
    })
}

fn rsa_key(kid: &str, extra: &str) -> String {
    format!("{{\"kty\":\"RSA\",\"kid\":\"{kid}\",\"n\":\"AQAB\",\"e\":\"AQAB\"{extra}}}")
}

fn answered(keys: &[String]) -> JwksReply {
    JwksReply::Answered {
        success: true,
        body: format!("{{\"keys\":[{}]}}", keys.join(",")),
    }
}

#[test]
fn a_fetch_replaces_the_cached_keys() {
    let mut service = service();
    assert_eq!(service.endpoint(), "https://idp.example/keys");
    assert!(matches!(service.get_cached_key("a"), Err(JWKServiceError::NotFound)));
    service
        .fetch_new_keys(None, answered(&[rsa_key("a", ",\"alg\":\"RS384\"")]))
        .unwrap();
    assert_eq!(service.get_cached_key("a").unwrap().1, SigningAlgorithm::RS384);
    service
        .fetch_new_keys(None, answered(&[rsa_key("b", ",\"use\":\"sig\"")]))
        .unwrap();
    assert!(service.get_cached_key("a").is_err());
    assert_eq!(service.get_cached_key("b").unwrap().1, SigningAlgorithm::RS256);
}

#[test]
fn a_cached_key_needs_no_fetch() {
    let mut service = service();
    assert!(service.wants_fetch(Some("a")));
    service
        .fetch_new_keys(Some("a"), answered(&[rsa_key("a", ",\"alg\":\"RS256\"")]))
        .unwrap();
    assert!(!service.wants_fetch(Some("a")));
    assert!(service.wants_fetch(None));
    service.fetch_new_keys(Some("a"), JwksReply::Unreachable).unwrap();
    assert!(service.get_key("a", JwksReply::Unreachable).is_ok());
}

#[test]
fn a_missing_key_is_looked_for_once_more() {
    let mut service = service();
    let (_, algorithm) = service
        .get_key("a", answered(&[rsa_key("a", ",\"alg\":\"RS256\"")]))
        .unwrap();
    assert_eq!(algorithm, SigningAlgorithm::RS256);
    assert!(matches!(
        service.get_key("b", answered(&[rsa_key("c", ",\"alg\":\"RS256\"")])),
        Err(JWKServiceError::NotFound)
    ));
    assert!(service.get_cached_key("c").is_ok());
}

#[test]
fn a_failed_fetch_keeps_the_keys() {
    let mut service = service();
    service
        .fetch_new_keys(None, answered(&[rsa_key("a", ",\"alg\":\"RS256\"")]))
        .unwrap();
    let error = service.fetch_new_keys(None, JwksReply::Unreachable).unwrap_err();
    assert_eq!(error.message(), "Internal Error");
    let refused = JwksReply::Answered { success: false, body: "{\"keys\":[]}".to_string() };
    assert!(matches!(
        service.fetch_new_keys(None, refused),
        Err(JWKServiceError::InternalError)
    ));
    let garbage = JwksReply::Answered { success: true, body: "garbage".to_string() };
    let error = service.fetch_new_keys(None, garbage).unwrap_err();
    assert_eq!(error.message(), "Could not parse jwks endpoint response");
    assert!(service.get_cached_key("a").is_ok());
    assert_eq!(JWKServiceError::NotFound.message(), "Key for kid not found");
}

#[test]
fn one_unusable_key_fails_the_whole_fetch() {
    let mut service = service();
    let good = rsa_key("good", ",\"alg\":\"RS256\"");
    let error = service
        .fetch_new_keys(None, answered(&[good.clone(), rsa_key("bad", "")]))
        .unwrap_err();
    assert_eq!(
        error.message(),
        "JWK with kid 'bad' is missing the 'alg' field and cannot be inferred"
    );
    assert!(service.get_cached_key("good").is_err());
    let encryption = rsa_key("enc", ",\"alg\":\"RSA-OAEP\"");
    assert!(matches!(
        service.fetch_new_keys(None, answered(&[good.clone(), encryption])),
        Err(JWKServiceError::DecodingError(_))
    ));
    let nameless = "{\"kty\":\"RSA\",\"alg\":\"RS256\",\"n\":\"AQAB\",\"e\":\"AQAB\"}".to_string();
    assert!(matches!(
        service.fetch_new_keys(None, answered(&[good, nameless])),
        Err(JWKServiceError::InternalError)
    ));
}

#[test]
fn unreadable_key_material_cannot_be_decoded() {
    let mut service = service();
    let jwk = Jwk {
        key_id: Some("k".to_string()),
        key_algorithm: Some("RS256".to_string()),
        key_use: None,
        parameters: KeyParameters::Rsa("***".to_string(), "AQAB".to_string()),
    };
    let error = service.replace_keys(vec![jwk]).unwrap_err();
    assert_eq!(error.message(), "Could not decode jwk key");
}

#[test]
fn the_algorithm_is_inferred_for_signature_keys_alone() {
    let jwk = |algorithm: Option<&str>, key_use: Option<KeyUse>, parameters: KeyParameters| Jwk {
        key_id: None,
        key_algorithm: algorithm.map(|name| name.to_string()),
        key_use,
        parameters,
    };
    let rsa = || KeyParameters::Rsa("n".to_string(), "e".to_string());
    let curve = || KeyParameters::EllipticCurve("x".to_string(), "y".to_string());
    assert_eq!(
        infer_algorithm(&jwk(Some("PS256"), None, rsa())).as_deref(),
        Some("PS256")
    );
    assert_eq!(
        infer_algorithm(&jwk(None, Some(KeyUse::Signature), rsa())).as_deref(),
        Some("RS256")
    );
    assert_eq!(infer_algorithm(&jwk(None, Some(KeyUse::Encryption), rsa())), None);
    assert_eq!(infer_algorithm(&jwk(None, None, rsa())), None);
    assert_eq!(infer_algorithm(&jwk(None, Some(KeyUse::Signature), curve())), None);
}
