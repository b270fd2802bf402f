//! What the validator takes from `jsonwebtoken`: header parsing, key
//! construction and signature/claim verification.
use vstd::prelude::*;
use jsonwebtoken::errors::ErrorKind;
use jsonwebtoken::jwk::KeyAlgorithm;
use jsonwebtoken::{Algorithm, DecodingKey};
use crate::jwks::{KeyMaterial, KeyText};

verus! {

/// The signing algorithms a token header can name: a field-less enum whose
/// variants verified code matches on.
#[verifier::external_type_specification]
pub struct ExAlgorithm(Algorithm);

/// The algorithms a published key can declare: a field-less enum whose
/// variants verified code matches on.
#[verifier::external_type_specification]
pub struct ExKeyAlgorithm(KeyAlgorithm);

/// A verification key built from published key material; carried, never read.
#[verifier::external_type_specification]
#[verifier::external_body]
pub struct ExDecodingKey(DecodingKey);

/// A failed verification; only its kind is read, through `failure_kind`.
#[verifier::external_type_specification]
#[verifier::external_body]
pub struct ExJwtError(jsonwebtoken::errors::Error);

/// The part of a token's header that key selection reads.
pub struct TokenHeader {
    pub alg: Algorithm,
    pub kid: Option<String>,
}

/// The view of an optional string.
pub open spec fn opt_seq(o: Option<String>) -> Option<Seq<char>> {
    match o {
        Some(s) => Some(s@),
        None => None,
    }
}

impl TokenHeader {
    pub open spec fn view_pair(self) -> (Algorithm, Option<Seq<char>>) {
        (self.alg, opt_seq(self.kid))
    }
}

/// A verification key together with the material it was built from. Its
/// fields are private: only `rsa_key`, `ec_key` and `secret_key` make one,
/// each from the material it records.
pub struct VerificationKey {
    key: DecodingKey,
    source: KeyMaterial,
}

impl VerificationKey {
    /// The material the key was built from.
    pub closed spec fn source(&self) -> KeyText {
        self.source@
    }
}

/// The kinds of verification failure that the retry policy tells apart.
#[derive(Debug, Clone, Copy, PartialEq, Eq, Structural)]
pub enum JwtErrorKind {
    InvalidToken,
    InvalidSignature,
    ExpiredSignature,
    InvalidIssuer,
    InvalidAudience,
    Other,
}

/// The claim requirements a token is checked against.
pub struct ClaimRules {
    pub algorithm: Algorithm,
    pub required_claims: Vec<String>,
    pub validate_audience: bool,
    pub issuer: Option<String>,
}

/// The header that `jsonwebtoken::decode_header` reads from a token, if it
/// can read one: algorithm and key id.
pub uninterp spec fn parsed_header(token: Seq<char>) -> Option<(Algorithm, Option<Seq<char>>)>;

/// Whether `DecodingKey::from_rsa_components` accepts a modulus and exponent.
pub uninterp spec fn rsa_components_valid(n: Seq<char>, e: Seq<char>) -> bool;

/// Whether `DecodingKey::from_ec_components` accepts a pair of coordinates.
pub uninterp spec fn ec_components_valid(x: Seq<char>, y: Seq<char>) -> bool;

/// The token's header names `alg`, and the signature over its header and
/// payload verifies with `alg` under the key built from `key`: the check
/// that `jsonwebtoken::decode` makes before it reads any claim. It does not
/// depend on the clock.
pub uninterp spec fn signature_verifies(token: Seq<char>, key: KeyText, alg: Algorithm) -> bool;

/// Relies on `jsonwebtoken::decode_header`, which reads the header from the
/// token's text alone, without checking the signature.
#[verifier::external_body]
pub(crate) fn read_header(token: &str) -> (r: Option<TokenHeader>)
    ensures
        parsed_header(token@) == match r {
            Some(h) => Some(h.view_pair()),
            None => None,
        },
{
    jsonwebtoken::decode_header(token).ok().map(|h| TokenHeader { alg: h.alg, kid: h.kid })
}

/// Relies on `DecodingKey::from_rsa_components`, which succeeds exactly when
/// both components decode, a function of the two texts alone.
#[verifier::external_body]
pub(crate) fn rsa_key(n: &str, e: &str) -> (r: Option<VerificationKey>)
    ensures
        r.is_some() == rsa_components_valid(n@, e@),
        r matches Some(k) ==> k.source() == (KeyText::Rsa { n: n@, e: e@ }),
{
    let key = DecodingKey::from_rsa_components(n, e).ok()?;
    Some(VerificationKey { key, source: KeyMaterial::Rsa { n: n.to_owned(), e: e.to_owned() } })
}

/// Relies on `DecodingKey::from_ec_components`, which succeeds exactly when
/// both coordinates decode, a function of the two texts alone.
#[verifier::external_body]
pub(crate) fn ec_key(x: &str, y: &str) -> (r: Option<VerificationKey>)
    ensures
        r.is_some() == ec_components_valid(x@, y@),
        r matches Some(k) ==> k.source() == (KeyText::EllipticCurve { x: x@, y: y@ }),
{
    let key = DecodingKey::from_ec_components(x, y).ok()?;
    let source = KeyMaterial::EllipticCurve { x: x.to_owned(), y: y.to_owned() };
    Some(VerificationKey { key, source })
}

/// Relies on `DecodingKey::from_secret`, which takes the bytes of the secret
/// as they are and never fails.
#[verifier::external_body]
pub(crate) fn secret_key(secret: &str) -> (r: VerificationKey)
    ensures
        r.source() == (KeyText::Symmetric { secret: secret@ }),
{
    let key = DecodingKey::from_secret(secret.as_bytes());
    VerificationKey { key, source: KeyMaterial::Symmetric { secret: secret.to_owned() } }
}

/// Relies on `jsonwebtoken::decode`: checks the signature with `key` and the
/// claims against `rules`. It succeeds only once the signature has verified
/// under `rules.algorithm`, which must also be the header's algorithm
/// (`decoding.rs`, `verify_signature`). Whether the claims pass depends on
/// the clock (`exp`), so success itself is not promised.
#[verifier::external_body]
pub(crate) fn decode_token(token: &str, key: &VerificationKey, rules: &ClaimRules) -> (r: Result<
    (),
    jsonwebtoken::errors::Error,
>)
    ensures
        r is Ok ==> signature_verifies(token@, key.source(), rules.algorithm),
{
    let mut validation = jsonwebtoken::Validation::new(rules.algorithm);
    validation.validate_aud = rules.validate_audience;
    validation.required_spec_claims = rules.required_claims.iter().cloned().collect();
    validation.iss = rules.issuer.clone().map(|iss| std::collections::HashSet::from([iss]));
    jsonwebtoken::decode::<serde_json::Value>(token, &key.key, &validation).map(|_| ())
}

/// Relies on `jsonwebtoken::errors::Error::into_kind`, telling apart the
/// kinds that the retry policy reads; every other kind is `Other`.
#[verifier::external_body]
pub(crate) fn failure_kind(e: jsonwebtoken::errors::Error) -> JwtErrorKind {
    match e.into_kind() {
        ErrorKind::InvalidToken => JwtErrorKind::InvalidToken,
        ErrorKind::InvalidSignature => JwtErrorKind::InvalidSignature,
        ErrorKind::ExpiredSignature => JwtErrorKind::ExpiredSignature,
        ErrorKind::InvalidIssuer => JwtErrorKind::InvalidIssuer,
        ErrorKind::InvalidAudience => JwtErrorKind::InvalidAudience,
        _ => JwtErrorKind::Other,
    }
}

} // verus!
