use std::time::{SystemTime, UNIX_EPOCH};

use datafed_core_api::device_auth::{Reply, TokenSet};
use datafed_core_api::jwks::{JwksCache, KeyMaterial, SigningKey};
use datafed_core_api::jwt::{JwtErrorKind, TokenHeader};
use datafed_core_api::provider::DiscoveryDocument;
use datafed_core_api::validator::{
    algorithms_match, claim_rules, decide, key_admitted, key_verdict, map_error_kind, pass_outcome,
    should_refresh, validate_with_jwks, Decision, PassFailure, Step, TokenValidation, Verdict,
};
use datafed_core_api::{ApiError, OIDC};
use jsonwebtoken::jwk::KeyAlgorithm;
use jsonwebtoken::{encode, Algorithm, EncodingKey, Header};

const SECRET: &str = "correct horse battery staple";

fn now() -> u64 {
    SystemTime::now().duration_since(UNIX_EPOCH).unwrap().as_secs()
}

fn token_with(secret: &str, kid: Option<&str>, exp: u64, iss: Option<&str>) -> String {
    let mut header = Header::new(Algorithm::HS256);
    header.kid = kid.map(|k| k.to_string());
    let mut claims = serde_json::Map::new();
    claims.insert("exp".to_string(), serde_json::Value::from(exp));
    if let Some(i) = iss {
        claims.insert("iss".to_string(), serde_json::Value::from(i));
    }
    let key = EncodingKey::from_secret(secret.as_bytes());
    encode(&header, &serde_json::Value::Object(claims), &key).unwrap()
}

fn token(kid: Option<&str>) -> String {
    token_with(SECRET, kid, now() + 3600, Some("https://idp"))
}

fn hmac_key(kid: Option<&str>, alg: Option<KeyAlgorithm>, secret: &str) -> SigningKey {
    SigningKey {
        key_id: kid.map(|k| k.to_string()),
        algorithm: alg,
        material: KeyMaterial::Symmetric { secret: secret.to_string() },
    }
}

fn provider() -> OIDC {
    OIDC::new(
        DiscoveryDocument {
            device_authorization_endpoint: None,
            token_endpoint: None,
            issuer: Some("https://idp".to_string()),
            jwks_uri: None,
        },
        "client".to_string(),
    )
}

fn header(kid: Option<&str>) -> TokenHeader {
    TokenHeader { alg: Algorithm::HS256, kid: kid.map(|k| k.to_string()) }
}

fn finished(step: Step) -> Result<TokenSet, ApiError> {
    match step {
        Step::Finished(r) => r,
        Step::FetchKeys | Step::RefreshKeys => panic!("expected the validation to be finished"),
    }
}

fn ok(keys: Vec<SigningKey>) -> Reply<Vec<SigningKey>> {
    Reply::Answered { status: 200, body: Some(keys) }
}

fn cached_len(cache: &JwksCache) -> Option<usize> {
    cache.cached_jwks().map(|keys| keys.len())
}

fn warm(keys: Vec<SigningKey>) -> JwksCache {
    let mut cache = JwksCache::new();
    cache.store_jwks(keys);
    cache
}

#[test]
fn blank_tokens_are_bad_requests() {
    let oidc = provider();
    for raw in ["", " ", "  \t\r\n ", "\u{3000}\u{a0}"] {
        assert_eq!(TokenValidation::begin(&oidc, raw).err(), Some(ApiError::BadRequest));
    }
}

#[test]
fn missing_jwks_uri_is_setup_error() {
    let mut oidc = provider();
    oidc.jwks_uri = String::new();
    assert_eq!(TokenValidation::begin(&oidc, "  ").err(), Some(ApiError::SetupError));
}

#[test]
fn unreadable_header_is_unauthorized() {
    let oidc = provider();
    assert_eq!(TokenValidation::begin(&oidc, "not-a-token").err(), Some(ApiError::Unauthorized));
    assert_eq!(TokenValidation::begin(&oidc, "a.b.c").err(), Some(ApiError::Unauthorized));
}

#[test]
fn begin_trims_and_reads_header() {
    let t = token(Some("k1"));
    let v = TokenValidation::begin(&provider(), &format!("  {}\n", t)).unwrap();
    assert_eq!(v.token, t);
    assert_eq!(v.header.alg, Algorithm::HS256);
    assert_eq!(v.header.kid.as_deref(), Some("k1"));
    assert_eq!(v.issuer, "https://idp");
    assert!(!v.refreshed);
}

#[test]
fn incompatible_algorithm_is_never_selected() {
    let t = token(Some("k1"));
    let keys = vec![hmac_key(Some("k1"), Some(KeyAlgorithm::RS256), SECRET)];
    let r = validate_with_jwks(&t, &header(Some("k1")), &keys, "https://idp");
    assert_eq!(r, Err(PassFailure::NoMatchingKey));
    assert!(!key_admitted(&header(Some("k1")), &keys[0]));
}

#[test]
fn second_key_verifies_after_algorithm_mismatch() {
    let t = token(None);
    let keys = vec![
        hmac_key(Some("a"), Some(KeyAlgorithm::RS256), SECRET),
        hmac_key(Some("b"), Some(KeyAlgorithm::HS256), SECRET),
    ];
    assert_eq!(validate_with_jwks(&t, &header(None), &keys, "https://idp"), Ok(1));

    let mut cache = warm(keys);
    let mut v = TokenValidation::begin(&provider(), &t).unwrap();
    let tokens = finished(v.resume_from_cache(&cache)).unwrap();
    assert_eq!(tokens.access_token, t);
    assert_eq!(tokens.refresh_token, None);
    assert!(!v.refreshed);
    assert_eq!(cached_len(&cache), Some(2));
}

#[test]
fn rejected_signature_refreshes_once_then_unauthorized() {
    let t = token(Some("k1"));
    let stale = vec![hmac_key(Some("k1"), Some(KeyAlgorithm::HS256), "old secret")];
    let mut cache = warm(stale);
    let mut v = TokenValidation::begin(&provider(), &t).unwrap();
    assert!(matches!(v.resume_from_cache(&cache), Step::RefreshKeys));
    assert!(v.refreshed);
    assert_eq!(cached_len(&cache), Some(1));
    cache.clear_jwks();
    let fetched = vec![hmac_key(Some("k1"), Some(KeyAlgorithm::HS256), "old secret")];
    let r = finished(v.keys_fetched(ok(fetched), &mut cache));
    assert_eq!(r.err(), Some(ApiError::Unauthorized));
    assert_eq!(cached_len(&cache), Some(1));
}

#[test]
fn refresh_recovers_rotated_keys() {
    let t = token(Some("k2"));
    let mut cache = warm(vec![hmac_key(Some("k1"), None, "old secret")]);
    let mut v = TokenValidation::begin(&provider(), &t).unwrap();
    assert!(matches!(v.resume_from_cache(&cache), Step::RefreshKeys));
    cache.clear_jwks();
    let fetched = vec![
        hmac_key(Some("k1"), None, "old secret"),
        hmac_key(Some("k2"), None, SECRET),
    ];
    let tokens = finished(v.keys_fetched(ok(fetched), &mut cache)).unwrap();
    assert_eq!(tokens.access_token, t);
    assert_eq!(cached_len(&cache), Some(2));
}

#[test]
fn no_matching_key_after_refresh_is_unauthorized() {
    let t = token(Some("other"));
    let mut cache = JwksCache::new();
    let mut v = TokenValidation::begin(&provider(), &t).unwrap();
    assert!(matches!(v.resume_from_cache(&cache), Step::FetchKeys));
    assert!(!v.refreshed);
    let keys = vec![hmac_key(Some("k1"), None, SECRET)];
    assert!(matches!(v.keys_fetched(ok(keys), &mut cache), Step::RefreshKeys));
    assert!(v.refreshed);
    assert_eq!(cached_len(&cache), Some(1));
    cache.clear_jwks();
    let keys = vec![hmac_key(Some("k1"), None, SECRET)];
    let r = finished(v.keys_fetched(ok(keys), &mut cache));
    assert_eq!(r.err(), Some(ApiError::Unauthorized));
}

#[test]
fn warm_cache_validates_twice_without_refresh() {
    let t = token(Some("k1"));
    let mut cache = warm(vec![hmac_key(Some("k1"), Some(KeyAlgorithm::HS256), SECRET)]);
    for _ in 0..2 {
        let mut v = TokenValidation::begin(&provider(), &t).unwrap();
        let tokens = finished(v.resume_from_cache(&cache)).unwrap();
        assert_eq!(tokens.access_token, t);
        assert!(!v.refreshed);
        assert_eq!(cached_len(&cache), Some(1));
    }
}

#[test]
fn expired_token_is_final_without_refresh() {
    let t = token_with(SECRET, Some("k1"), now() - 7200, Some("https://idp"));
    let mut cache = warm(vec![hmac_key(Some("k1"), None, SECRET)]);
    let keys = vec![hmac_key(Some("k1"), None, SECRET)];
    let r = validate_with_jwks(&t, &header(Some("k1")), &keys, "https://idp");
    assert_eq!(r, Err(PassFailure::Jwt(JwtErrorKind::ExpiredSignature)));
    let mut v = TokenValidation::begin(&provider(), &t).unwrap();
    let r = finished(v.resume_from_cache(&cache));
    assert_eq!(r.err(), Some(ApiError::Unauthorized));
    assert!(!v.refreshed);
    assert_eq!(cached_len(&cache), Some(1));
}

#[test]
fn wrong_issuer_is_unauthorized_without_refresh() {
    let t = token_with(SECRET, None, now() + 3600, Some("https://elsewhere"));
    let keys = vec![hmac_key(None, None, SECRET)];
    let r = validate_with_jwks(&t, &header(None), &keys, "https://idp");
    assert_eq!(r, Err(PassFailure::Jwt(JwtErrorKind::InvalidIssuer)));
    assert_eq!(validate_with_jwks(&t, &header(None), &keys, ""), Ok(0));
    let mut cache = warm(keys);
    let mut v = TokenValidation::begin(&provider(), &t).unwrap();
    assert_eq!(finished(v.resume_from_cache(&cache)).err(), Some(ApiError::Unauthorized));
    assert!(!v.refreshed);
}

#[test]
fn missing_exp_is_rejected() {
    let mut claims = serde_json::Map::new();
    claims.insert("iss".to_string(), serde_json::Value::from("https://idp"));
    let key = EncodingKey::from_secret(SECRET.as_bytes());
    let t = encode(&Header::new(Algorithm::HS256), &serde_json::Value::Object(claims), &key)
        .unwrap();
    let keys = vec![hmac_key(None, None, SECRET)];
    let r = validate_with_jwks(&t, &header(None), &keys, "https://idp");
    assert_eq!(r, Err(PassFailure::Jwt(JwtErrorKind::Other)));
}

#[test]
fn failed_fetch_is_internal_error() {
    let t = token(None);
    let mut cache = JwksCache::new();
    let mut v = TokenValidation::begin(&provider(), &t).unwrap();
    assert!(matches!(v.resume_from_cache(&cache), Step::FetchKeys));
    let r = finished(v.keys_fetched(Reply::Unreachable, &mut cache));
    assert_eq!(r.err(), Some(ApiError::InternalServerError));
    assert_eq!(cached_len(&cache), None);
    let mut v = TokenValidation::begin(&provider(), &t).unwrap();
    let unreadable = Reply::Answered { status: 200, body: None };
    let r = finished(v.keys_fetched(unreadable, &mut cache));
    assert_eq!(r.err(), Some(ApiError::InternalServerError));
    let mut v = TokenValidation::begin(&provider(), &t).unwrap();
    let refused = Reply::Answered { status: 503, body: Some(vec![hmac_key(None, None, SECRET)]) };
    let r = finished(v.keys_fetched(refused, &mut cache));
    assert_eq!(r.err(), Some(ApiError::InternalServerError));
    assert_eq!(cached_len(&cache), None);
}

#[test]
fn unusable_material_is_skipped() {
    let t = token(None);
    let keys = vec![
        SigningKey {
            key_id: None,
            algorithm: None,
            material: KeyMaterial::Rsa { n: "*not base64*".to_string(), e: "AQAB".to_string() },
        },
        SigningKey {
            key_id: None,
            algorithm: None,
            material: KeyMaterial::EllipticCurve { x: "*".to_string(), y: "*".to_string() },
        },
        SigningKey { key_id: None, algorithm: None, material: KeyMaterial::KeyAgreement },
    ];
    let r = validate_with_jwks(&t, &header(None), &keys, "https://idp");
    assert_eq!(r, Err(PassFailure::NoMatchingKey));
}

#[test]
fn key_of_another_family_fails_as_other() {
    let t = token(None);
    let keys = vec![SigningKey {
        key_id: None,
        algorithm: None,
        material: KeyMaterial::Rsa { n: "AQAB".to_string(), e: "AQAB".to_string() },
    }];
    let r = validate_with_jwks(&t, &header(None), &keys, "https://idp");
    assert_eq!(r, Err(PassFailure::Jwt(JwtErrorKind::Other)));
    assert_eq!(decide(true, r), Decision::Reject(ApiError::InternalServerError));
}

#[test]
fn key_without_id_is_tried_for_any_kid() {
    let t = token(Some("k9"));
    let keys = vec![hmac_key(None, None, SECRET)];
    assert_eq!(validate_with_jwks(&t, &header(Some("k9")), &keys, "https://idp"), Ok(0));
    let other = vec![hmac_key(Some("k1"), None, SECRET)];
    let r = validate_with_jwks(&t, &header(Some("k9")), &other, "https://idp");
    assert_eq!(r, Err(PassFailure::NoMatchingKey));
}

#[test]
fn key_verdicts() {
    let t = token(Some("k1"));
    let rules = claim_rules(Algorithm::HS256, "https://idp");
    let h = header(Some("k1"));
    let good = hmac_key(Some("k1"), None, SECRET);
    assert_eq!(key_verdict(&t, &h, &good, &rules), Verdict::Accepted);
    let stale = hmac_key(Some("k1"), None, "old secret");
    assert_eq!(
        key_verdict(&t, &h, &stale, &rules),
        Verdict::Rejected(JwtErrorKind::InvalidSignature)
    );
    let other_id = hmac_key(Some("k2"), None, SECRET);
    assert_eq!(key_verdict(&t, &h, &other_id, &rules), Verdict::Skipped);
    let agreement = SigningKey { key_id: None, algorithm: None, material: KeyMaterial::KeyAgreement };
    assert_eq!(key_verdict(&t, &h, &agreement, &rules), Verdict::Skipped);
}

#[test]
fn pass_outcomes_over_verdicts() {
    assert_eq!(pass_outcome(&vec![]), Err(PassFailure::NoMatchingKey));
    assert_eq!(
        pass_outcome(&vec![Verdict::Skipped, Verdict::Skipped]),
        Err(PassFailure::NoMatchingKey)
    );
    assert_eq!(
        pass_outcome(&vec![Verdict::Skipped, Verdict::Accepted, Verdict::Accepted]),
        Ok(1)
    );
    assert_eq!(
        pass_outcome(&vec![
            Verdict::Rejected(JwtErrorKind::InvalidSignature),
            Verdict::Rejected(JwtErrorKind::ExpiredSignature),
            Verdict::Skipped,
        ]),
        Err(PassFailure::Jwt(JwtErrorKind::ExpiredSignature))
    );
    assert_eq!(
        pass_outcome(&vec![Verdict::Rejected(JwtErrorKind::InvalidSignature), Verdict::Accepted]),
        Ok(1)
    );
}

#[test]
fn retry_policy_table() {
    assert_eq!(decide(true, Ok(0)), Decision::Accept);
    assert_eq!(decide(false, Ok(3)), Decision::Accept);
    assert_eq!(decide(true, Err(PassFailure::NoMatchingKey)), Decision::Refresh);
    assert_eq!(
        decide(false, Err(PassFailure::NoMatchingKey)),
        Decision::Reject(ApiError::Unauthorized)
    );
    assert_eq!(decide(true, Err(PassFailure::Jwt(JwtErrorKind::InvalidSignature))), Decision::Refresh);
    assert_eq!(decide(true, Err(PassFailure::Jwt(JwtErrorKind::InvalidToken))), Decision::Refresh);
    assert_eq!(
        decide(false, Err(PassFailure::Jwt(JwtErrorKind::InvalidSignature))),
        Decision::Reject(ApiError::Unauthorized)
    );
    assert_eq!(
        decide(true, Err(PassFailure::Jwt(JwtErrorKind::ExpiredSignature))),
        Decision::Reject(ApiError::Unauthorized)
    );
    assert_eq!(
        decide(true, Err(PassFailure::Jwt(JwtErrorKind::InvalidAudience))),
        Decision::Reject(ApiError::Unauthorized)
    );
    assert_eq!(
        decide(true, Err(PassFailure::Jwt(JwtErrorKind::Other))),
        Decision::Reject(ApiError::InternalServerError)
    );
    assert!(should_refresh(JwtErrorKind::InvalidSignature));
    assert!(!should_refresh(JwtErrorKind::InvalidIssuer));
    assert_eq!(map_error_kind(JwtErrorKind::InvalidIssuer), ApiError::Unauthorized);
    assert_eq!(map_error_kind(JwtErrorKind::Other), ApiError::InternalServerError);
}

#[test]
fn algorithm_pairs() {
    assert!(algorithms_match(KeyAlgorithm::HS256, Algorithm::HS256));
    assert!(algorithms_match(KeyAlgorithm::PS512, Algorithm::PS512));
    assert!(algorithms_match(KeyAlgorithm::EdDSA, Algorithm::EdDSA));
    assert!(!algorithms_match(KeyAlgorithm::HS256, Algorithm::HS384));
    assert!(!algorithms_match(KeyAlgorithm::RS256, Algorithm::PS256));
    assert!(!algorithms_match(KeyAlgorithm::RSA_OAEP, Algorithm::RS256));
}

#[test]
fn claim_rules_follow_issuer() {
    let r = claim_rules(Algorithm::ES256, "https://idp");
    assert_eq!(r.algorithm, Algorithm::ES256);
    assert_eq!(r.required_claims, vec!["exp".to_string()]);
    assert!(!r.validate_audience);
    assert_eq!(r.issuer.as_deref(), Some("https://idp"));
    assert_eq!(claim_rules(Algorithm::HS256, "").issuer, None);
}
