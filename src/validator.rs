//! Bearer-token validation against the provider's published keys, with one
//! forced refresh of the key set when the keys look rotated.
use vstd::prelude::*;
use jsonwebtoken::jwk::KeyAlgorithm;
use jsonwebtoken::Algorithm;
use crate::device_auth::{is_success, is_success_status, Reply, TokenSet};
use crate::errors::ApiError;
use crate::jwks::{JwksCache, KeyMaterial, SigningKey};
use crate::jwt::{
    decode_token, ec_components_valid, ec_key, failure_kind, opt_seq, parsed_header, read_header,
    rsa_components_valid, rsa_key, secret_key, signature_verifies, ClaimRules, JwtErrorKind,
    TokenHeader, VerificationKey,
};
use crate::provider::OIDC;
use crate::text::{all_white_space, lemma_white_space_trims_to_empty, trim, trimmed};

verus! {

/// The pairs of key algorithm and header algorithm that may verify together.
pub open spec fn compatible(key_alg: KeyAlgorithm, header_alg: Algorithm) -> bool {
    match (key_alg, header_alg) {
        (KeyAlgorithm::HS256, Algorithm::HS256) => true,
        (KeyAlgorithm::HS384, Algorithm::HS384) => true,
        (KeyAlgorithm::HS512, Algorithm::HS512) => true,
        (KeyAlgorithm::RS256, Algorithm::RS256) => true,
        (KeyAlgorithm::RS384, Algorithm::RS384) => true,
        (KeyAlgorithm::RS512, Algorithm::RS512) => true,
        (KeyAlgorithm::ES256, Algorithm::ES256) => true,
        (KeyAlgorithm::ES384, Algorithm::ES384) => true,
        (KeyAlgorithm::PS256, Algorithm::PS256) => true,
        (KeyAlgorithm::PS384, Algorithm::PS384) => true,
        (KeyAlgorithm::PS512, Algorithm::PS512) => true,
        (KeyAlgorithm::EdDSA, Algorithm::EdDSA) => true,
        _ => false,
    }
}

pub fn algorithms_match(key_alg: KeyAlgorithm, header_alg: Algorithm) -> (r: bool)
    ensures
        r == compatible(key_alg, header_alg),
{
    match (key_alg, header_alg) {
        (KeyAlgorithm::HS256, Algorithm::HS256) => true,
        (KeyAlgorithm::HS384, Algorithm::HS384) => true,
        (KeyAlgorithm::HS512, Algorithm::HS512) => true,
        (KeyAlgorithm::RS256, Algorithm::RS256) => true,
        (KeyAlgorithm::RS384, Algorithm::RS384) => true,
        (KeyAlgorithm::RS512, Algorithm::RS512) => true,
        (KeyAlgorithm::ES256, Algorithm::ES256) => true,
        (KeyAlgorithm::ES384, Algorithm::ES384) => true,
        (KeyAlgorithm::PS256, Algorithm::PS256) => true,
        (KeyAlgorithm::PS384, Algorithm::PS384) => true,
        (KeyAlgorithm::PS512, Algorithm::PS512) => true,
        (KeyAlgorithm::EdDSA, Algorithm::EdDSA) => true,
        _ => false,
    }
}

/// A key passes the id filter unless both the header and the key name an id
/// and the two differ.
pub open spec fn kid_admits(header_kid: Option<Seq<char>>, key_id: Option<Seq<char>>) -> bool {
    match (header_kid, key_id) {
        (Some(wanted), Some(id)) => wanted == id,
        _ => true,
    }
}

/// A key passes the algorithm filter unless it declares an algorithm that
/// does not go with the header's.
pub open spec fn alg_admits(key_alg: Option<KeyAlgorithm>, header_alg: Algorithm) -> bool {
    match key_alg {
        Some(a) => compatible(a, header_alg),
        None => true,
    }
}

/// A key passes both filters.
pub open spec fn admitted(header: TokenHeader, key: SigningKey) -> bool {
    kid_admits(opt_seq(header.kid), opt_seq(key.key_id)) && alg_admits(key.algorithm, header.alg)
}

/// A verification key can be built from the material.
pub open spec fn buildable(m: KeyMaterial) -> bool {
    match m {
        KeyMaterial::Rsa { n, e } => rsa_components_valid(n@, e@),
        KeyMaterial::EllipticCurve { x, y } => ec_components_valid(x@, y@),
        KeyMaterial::Symmetric { .. } => true,
        KeyMaterial::KeyAgreement => false,
    }
}

/// The key is tried: it passes the filters and a verification key is built from it.
pub open spec fn usable(header: TokenHeader, key: SigningKey) -> bool {
    admitted(header, key) && buildable(key.material)
}

pub fn key_admitted(header: &TokenHeader, key: &SigningKey) -> (r: bool)
    ensures
        r == admitted(*header, *key),
{
    let kid_ok = match (&header.kid, &key.key_id) {
        (Some(wanted), Some(id)) => wanted.eq(id),
        _ => true,
    };
    let alg_ok = match key.algorithm {
        Some(a) => algorithms_match(a, header.alg),
        None => true,
    };
    kid_ok && alg_ok
}

fn verification_key(m: &KeyMaterial) -> (r: Option<VerificationKey>)
    ensures
        r.is_some() == buildable(*m),
        r matches Some(k) ==> k.source() == m@,
{
    match m {
        KeyMaterial::Rsa { n, e } => rsa_key(n.as_str(), e.as_str()),
        KeyMaterial::EllipticCurve { x, y } => ec_key(x.as_str(), y.as_str()),
        KeyMaterial::Symmetric { secret } => Some(secret_key(secret.as_str())),
        KeyMaterial::KeyAgreement => None,
    }
}

/// The claim requirements: `exp` present and unexpired, no audience check,
/// the issuer checked only when one is configured.
pub fn claim_rules(alg: Algorithm, issuer: &str) -> (r: ClaimRules)
    ensures
        r.algorithm == alg,
        r.required_claims@.len() == 1,
        r.required_claims@[0]@ == "exp"@,
        !r.validate_audience,
        opt_seq(r.issuer) == if issuer@.len() == 0 {
            None
        } else {
            Some(issuer@)
        },
{
    let mut required_claims: Vec<String> = Vec::new();
    required_claims.push("exp".to_owned());
    let issuer = if issuer.is_empty() {
        None
    } else {
        Some(issuer.to_owned())
    };
    ClaimRules { algorithm: alg, required_claims, validate_audience: false, issuer }
}

/// What became of one key in a matching pass.
#[derive(Debug, Clone, Copy, PartialEq, Eq, Structural)]
pub enum Verdict {
    /// Filtered out, or no verification key could be built from it.
    Skipped,
    /// The token verified with it.
    Accepted,
    /// Verification with it failed with this kind.
    Rejected(JwtErrorKind),
}

/// Why a matching pass found no key.
#[derive(Debug, Clone, Copy, PartialEq, Eq, Structural)]
pub enum PassFailure {
    /// No key was tried.
    NoMatchingKey,
    /// Keys were tried and all failed; the kind is the last failure's.
    Jwt(JwtErrorKind),
}

/// The state after reading verdicts in order: the first accepting key, or
/// the kind of the last rejection so far.
pub open spec fn scan(vs: Seq<Verdict>) -> Result<int, Option<JwtErrorKind>>
    decreases vs.len(),
{
    if vs.len() == 0 {
        Err(None)
    } else {
        match scan(vs.drop_last()) {
            Ok(i) => Ok(i),
            Err(last) => match vs.last() {
                Verdict::Skipped => Err(last),
                Verdict::Accepted => Ok(vs.len() - 1),
                Verdict::Rejected(k) => Err(Some(k)),
            },
        }
    }
}

/// The outcome of a pass whose keys came out as `vs`.
pub open spec fn pass_outcome_spec(vs: Seq<Verdict>) -> Result<int, PassFailure> {
    match scan(vs) {
        Ok(i) => Ok(i),
        Err(Some(k)) => Err(PassFailure::Jwt(k)),
        Err(None) => Err(PassFailure::NoMatchingKey),
    }
}

pub open spec fn pass_view(r: Result<usize, PassFailure>) -> Result<int, PassFailure> {
    match r {
        Ok(i) => Ok(i as int),
        Err(f) => Err(f),
    }
}

/// `v` can be what became of `key` in a pass: it is skipped exactly when it
/// is not usable, and it accepts only if the token's signature verifies
/// under it with the header's algorithm.
pub open spec fn verdict_fits(token: Seq<char>, header: TokenHeader, key: SigningKey, v: Verdict) -> bool {
    &&& (v == Verdict::Skipped) <==> !usable(header, key)
    &&& v == Verdict::Accepted ==> signature_verifies(token, key.material@, header.alg)
}

/// `vs` records a pass over `keys`, one verdict per key.
pub open spec fn fits(token: Seq<char>, header: TokenHeader, keys: Seq<SigningKey>, vs: Seq<Verdict>) -> bool {
    &&& vs.len() == keys.len()
    &&& forall|i: int| 0 <= i < vs.len() ==> #[trigger] verdict_fits(token, header, keys[i], vs[i])
}

proof fn lemma_scan_push(vs: Seq<Verdict>, v: Verdict)
    ensures
        scan(vs.push(v)) == match scan(vs) {
            Ok(i) => Ok(i),
            Err(last) => match v {
                Verdict::Skipped => Err(last),
                Verdict::Accepted => Ok(vs.len() as int),
                Verdict::Rejected(k) => Err(Some(k)),
            },
        },
{
    assert(vs.push(v).drop_last() =~= vs);
}

proof fn lemma_scan_keeps_found(vs: Seq<Verdict>, n: int)
    requires
        0 <= n <= vs.len(),
        scan(vs.take(n)) is Ok,
    ensures
        scan(vs) == scan(vs.take(n)),
    decreases vs.len() - n,
{
    if n < vs.len() {
        assert(vs.take(n + 1).drop_last() =~= vs.take(n));
        lemma_scan_keeps_found(vs, n + 1);
    } else {
        assert(vs.take(n) =~= vs);
    }
}

/// The outcome of a pass in which the keys came out as `vs`: the first key
/// that accepted, else the last rejection, else no matching key.
pub fn pass_outcome(vs: &Vec<Verdict>) -> (r: Result<usize, PassFailure>)
    ensures
        pass_view(r) == pass_outcome_spec(vs@),
{
    let mut last: Option<JwtErrorKind> = None;
    let mut i: usize = 0;
    assert(vs@.take(0) =~= Seq::<Verdict>::empty());
    while i < vs.len()
        invariant
            i <= vs.len(),
            scan(vs@.take(i as int)) == Err::<int, Option<JwtErrorKind>>(last),
        decreases vs.len() - i,
    {
        proof {
            lemma_scan_push(vs@.take(i as int), vs@[i as int]);
            assert(vs@.take(i as int).push(vs@[i as int]) =~= vs@.take(i + 1));
        }
        match vs[i] {
            Verdict::Skipped => {},
            Verdict::Accepted => {
                proof {
                    lemma_scan_keeps_found(vs@, i + 1);
                }
                return Ok(i);
            },
            Verdict::Rejected(k) => {
                last = Some(k);
            },
        }
        i = i + 1;
    }
    assert(vs@.take(i as int) =~= vs@);
    match last {
        Some(k) => Err(PassFailure::Jwt(k)),
        None => Err(PassFailure::NoMatchingKey),
    }
}

proof fn lemma_scan_none(vs: Seq<Verdict>)
    ensures
        scan(vs) == Err::<int, Option<JwtErrorKind>>(None) <==> forall|j: int|
            0 <= j < vs.len() ==> #[trigger] vs[j] == Verdict::Skipped,
    decreases vs.len(),
{
    if vs.len() > 0 {
        let front = vs.drop_last();
        lemma_scan_none(front);
        if scan(vs) == Err::<int, Option<JwtErrorKind>>(None) {
            assert forall|j: int| 0 <= j < vs.len() implies #[trigger] vs[j] == Verdict::Skipped by {
                if j < vs.len() - 1 {
                    assert(vs[j] == front[j]);
                }
            }
        }
        if forall|j: int| 0 <= j < vs.len() ==> #[trigger] vs[j] == Verdict::Skipped {
            assert forall|j: int| 0 <= j < front.len() implies #[trigger] front[j]
                == Verdict::Skipped by {
                assert(front[j] == vs[j]);
            }
            assert(vs[vs.len() - 1] == Verdict::Skipped);
        }
    }
}

/// What becomes of one key in a pass: skipped unless it is usable, else
/// accepted or rejected by verifying the token with it under `rules`.
pub fn key_verdict(token: &str, header: &TokenHeader, key: &SigningKey, rules: &ClaimRules) -> (v:
    Verdict)
    requires
        rules.algorithm == header.alg,
    ensures
        verdict_fits(token@, *header, *key, v),
{
    if !key_admitted(header, key) {
        return Verdict::Skipped;
    }
    match verification_key(&key.material) {
        None => Verdict::Skipped,
        Some(vk) => match decode_token(token, &vk, rules) {
            Ok(()) => Verdict::Accepted,
            Err(e) => Verdict::Rejected(failure_kind(e)),
        },
    }
}

/// One matching pass over `keys`, in order, until a key accepts: returns the
/// index of the first usable key under which the token verifies. Whether it
/// verifies depends on the clock, so the outcome is stated over the verdicts
/// the keys could give; an accepting verdict means the signature verified.
pub fn validate_with_jwks(token: &str, header: &TokenHeader, keys: &Vec<SigningKey>, issuer: &str) -> (r:
    Result<usize, PassFailure>)
    ensures
        exists|vs: Seq<Verdict>|
            #[trigger] fits(token@, *header, keys@, vs) && pass_view(r) == pass_outcome_spec(vs),
        r matches Ok(i) ==> i < keys@.len() && usable(*header, keys@[i as int])
            && signature_verifies(token@, keys@[i as int].material@, header.alg),
        r == Err::<usize, PassFailure>(PassFailure::NoMatchingKey) <==> forall|i: int|
            0 <= i < keys@.len() ==> !usable(*header, #[trigger] keys@[i]),
{
    let rules = claim_rules(header.alg, issuer);
    let mut verdicts: Vec<Verdict> = Vec::new();
    let mut accepted = false;
    let mut i: usize = 0;
    while i < keys.len() && !accepted
        invariant
            i <= keys.len(),
            verdicts@.len() == i,
            rules.algorithm == header.alg,
            accepted ==> i > 0,
            forall|j: int|
                0 <= j < i ==> #[trigger] verdict_fits(token@, *header, keys@[j], verdicts@[j]),
            forall|j: int|
                0 <= j < i ==> (#[trigger] verdicts@[j] == Verdict::Accepted <==> (accepted && j
                    == i - 1)),
        decreases keys.len() - i,
    {
        let v = key_verdict(token, header, &keys[i], &rules);
        verdicts.push(v);
        accepted = match v {
            Verdict::Accepted => true,
            _ => false,
        };
        i = i + 1;
    }
    let r = pass_outcome(&verdicts);
    proof {
        let done = verdicts@;
        let rest = Seq::new(
            (keys.len() - i) as nat,
            |j: int|
                if usable(*header, keys@[i + j]) {
                    Verdict::Rejected(JwtErrorKind::Other)
                } else {
                    Verdict::Skipped
                },
        );
        let w = done + rest;
        assert(w.take(i as int) =~= done);
        assert forall|j: int| 0 <= j < w.len() implies #[trigger] verdict_fits(
            token@,
            *header,
            keys@[j],
            w[j],
        ) by {
            if j >= i {
                assert(w[j] == rest[j - i]);
            } else {
                assert(w[j] == done[j]);
            }
        }
        assert(fits(token@, *header, keys@, w));
        if accepted {
            assert(done[i - 1] == Verdict::Accepted);
            lemma_scan_push(done.drop_last(), Verdict::Accepted);
            assert(done.drop_last().push(Verdict::Accepted) =~= done);
            lemma_scan_keeps_found(w, i as int);
        } else {
            assert(w =~= done);
        }
        if scan(done) is Ok {
            lemma_scan_found(done);
            let idx = scan(done)->Ok_0;
            assert(verdict_fits(token@, *header, keys@[idx], done[idx]));
        }
        lemma_scan_none(done);
        if !accepted && forall|j: int| 0 <= j < keys@.len() ==> !usable(*header, #[trigger] keys@[j]) {
            assert forall|j: int| 0 <= j < done.len() implies #[trigger] done[j] == Verdict::Skipped by {
                assert(verdict_fits(token@, *header, keys@[j], done[j]));
            }
        }
        if scan(done) == Err::<int, Option<JwtErrorKind>>(None) {
            assert forall|j: int| 0 <= j < keys@.len() implies !usable(*header, #[trigger] keys@[j]) by {
                assert(verdict_fits(token@, *header, keys@[j], done[j]));
            }
        }
    }
    r
}

/// What to do after a matching pass.
#[derive(Debug, Clone, Copy, PartialEq, Eq, Structural)]
pub enum Decision {
    Accept,
    Refresh,
    Reject(ApiError),
}

/// Failures that suggest the cached keys were rotated: worth one refresh.
pub open spec fn refreshes_on(kind: JwtErrorKind) -> bool {
    kind == JwtErrorKind::InvalidSignature || kind == JwtErrorKind::InvalidToken
}

pub fn should_refresh(kind: JwtErrorKind) -> (r: bool)
    ensures
        r == refreshes_on(kind),
{
    match kind {
        JwtErrorKind::InvalidSignature | JwtErrorKind::InvalidToken => true,
        _ => false,
    }
}

/// The error a final verification failure is reported with.
pub open spec fn error_for(kind: JwtErrorKind) -> ApiError {
    match kind {
        JwtErrorKind::Other => ApiError::InternalServerError,
        _ => ApiError::Unauthorized,
    }
}

pub fn map_error_kind(kind: JwtErrorKind) -> (r: ApiError)
    ensures
        r == error_for(kind),
{
    match kind {
        JwtErrorKind::ExpiredSignature
        | JwtErrorKind::InvalidToken
        | JwtErrorKind::InvalidSignature
        | JwtErrorKind::InvalidIssuer
        | JwtErrorKind::InvalidAudience => ApiError::Unauthorized,
        JwtErrorKind::Other => ApiError::InternalServerError,
    }
}

/// The retry policy: a first pass that finds no key, or fails in a way that
/// suggests rotated keys, earns one refresh; every other failure, and any
/// failure of the second pass, is final.
pub open spec fn decision_for(first_pass: bool, outcome: Result<int, PassFailure>) -> Decision {
    match outcome {
        Ok(_) => Decision::Accept,
        Err(PassFailure::NoMatchingKey) => if first_pass {
            Decision::Refresh
        } else {
            Decision::Reject(ApiError::Unauthorized)
        },
        Err(PassFailure::Jwt(kind)) => if first_pass && refreshes_on(kind) {
            Decision::Refresh
        } else {
            Decision::Reject(error_for(kind))
        },
    }
}

pub fn decide(first_pass: bool, outcome: Result<usize, PassFailure>) -> (d: Decision)
    ensures
        d == decision_for(first_pass, pass_view(outcome)),
{
    match outcome {
        Ok(_) => Decision::Accept,
        Err(PassFailure::NoMatchingKey) => {
            if first_pass {
                Decision::Refresh
            } else {
                Decision::Reject(ApiError::Unauthorized)
            }
        },
        Err(PassFailure::Jwt(kind)) => {
            if first_pass && should_refresh(kind) {
                Decision::Refresh
            } else {
                Decision::Reject(map_error_kind(kind))
            }
        },
    }
}

/// What the caller of a validation does next.
pub enum Step {
    /// The validation is over.
    Finished(Result<TokenSet, ApiError>),
    /// Fetch the key set and hand the reply to `keys_fetched`.
    FetchKeys,
    /// Empty the cache (`clear_jwks`), then fetch the key set and hand the
    /// reply to `keys_fetched`.
    RefreshKeys,
}

/// A validation in progress: the trimmed token, its header, the issuer to
/// require, and whether the one forced refresh has been spent.
pub struct TokenValidation {
    pub token: String,
    pub header: TokenHeader,
    pub issuer: String,
    pub refreshed: bool,
}

/// How a validation starts, from the key-set location and the raw token:
/// the trimmed token and its header, or the error it ends with.
pub open spec fn start_outcome(jwks_uri: Seq<char>, raw: Seq<char>) -> Result<
    (Seq<char>, (Algorithm, Option<Seq<char>>)),
    ApiError,
> {
    if jwks_uri.len() == 0 {
        Err(ApiError::SetupError)
    } else if trimmed(raw).len() == 0 {
        Err(ApiError::BadRequest)
    } else {
        match parsed_header(trimmed(raw)) {
            None => Err(ApiError::Unauthorized),
            Some(h) => Ok((trimmed(raw), h)),
        }
    }
}

pub open spec fn begin_view(r: Result<TokenValidation, ApiError>) -> Result<
    (Seq<char>, (Algorithm, Option<Seq<char>>)),
    ApiError,
> {
    match r {
        Ok(v) => Ok((v.token@, v.header.view_pair())),
        Err(e) => Err(e),
    }
}

impl TokenValidation {
    /// The same validation, with the refresh spent.
    pub open spec fn spent(self) -> TokenValidation {
        TokenValidation {
            token: self.token,
            header: self.header,
            issuer: self.issuer,
            refreshed: true,
        }
    }

    /// How a pass with the given outcome moves the validation (`self` to
    /// `next`), and the step it gives.
    pub open spec fn after_pass(
        self,
        next: TokenValidation,
        step: Step,
        outcome: Result<int, PassFailure>,
    ) -> bool {
        match decision_for(!self.refreshed, outcome) {
            Decision::Accept => {
                &&& step == Step::Finished(
                    Ok(TokenSet { access_token: self.token, refresh_token: None }),
                )
                &&& next == self
            },
            Decision::Refresh => {
                &&& step == Step::RefreshKeys
                &&& next == self.spent()
            },
            Decision::Reject(e) => {
                &&& step == Step::Finished(Err(e))
                &&& next == self
            },
        }
    }

    /// `self` moved to `next` with `step` after a pass over `keys` that may
    /// have come out as `vs`.
    pub open spec fn passed(
        self,
        next: TokenValidation,
        step: Step,
        keys: Seq<SigningKey>,
        vs: Seq<Verdict>,
    ) -> bool {
        fits(self.token@, self.header, keys, vs) && self.after_pass(
            next,
            step,
            pass_outcome_spec(vs),
        )
    }

    /// Starts validating `raw_token`: the key-set location must be known, the
    /// trimmed token non-empty, and its header readable.
    pub fn begin(oidc: &OIDC, raw_token: &str) -> (r: Result<TokenValidation, ApiError>)
        ensures
            begin_view(r) == start_outcome(oidc.jwks_uri@, raw_token@),
            r matches Ok(v) ==> v.issuer@ == oidc.issuer@ && !v.refreshed,
    {
        if oidc.jwks_uri.as_str().is_empty() {
            return Err(ApiError::SetupError);
        }
        let token = trim(raw_token);
        if token.as_str().is_empty() {
            return Err(ApiError::BadRequest);
        }
        match read_header(token.as_str()) {
            None => Err(ApiError::Unauthorized),
            Some(header) => Ok(
                TokenValidation { token, header, issuer: oidc.issuer.clone(), refreshed: false },
            ),
        }
    }

    /// A pass over `keys` and what follows from it.
    fn evaluate(&mut self, keys: &Vec<SigningKey>) -> (step: Step)
        ensures
            exists|vs: Seq<Verdict>| #[trigger] old(self).passed(*final(self), step, keys@, vs),
    {
        let outcome = validate_with_jwks(
            self.token.as_str(),
            &self.header,
            keys,
            self.issuer.as_str(),
        );
        let ghost w = choose|vs: Seq<Verdict>|
            #[trigger] fits(self.token@, self.header, keys@, vs) && pass_view(outcome)
                == pass_outcome_spec(vs);
        let ghost before = *self;
        let step = match decide(!self.refreshed, outcome) {
            Decision::Accept => Step::Finished(
                Ok(TokenSet { access_token: self.token.clone(), refresh_token: None }),
            ),
            Decision::Refresh => {
                self.refreshed = true;
                Step::RefreshKeys
            },
            Decision::Reject(e) => Step::Finished(Err(e)),
        };
        assert(before.passed(*self, step, keys@, w));
        step
    }

    /// Continues from the cache: a pass over the cached key set if there is
    /// one, else a request to fetch it.
    pub fn resume_from_cache(&mut self, cache: &JwksCache) -> (step: Step)
        ensures
            cache@ is None ==> step == Step::FetchKeys && *final(self) == *old(self),
            cache@ matches Some(keys) ==> exists|vs: Seq<Verdict>|
                #[trigger] old(self).passed(*final(self), step, keys, vs),
    {
        let ghost before = *self;
        match cache.cached_jwks() {
            None => Step::FetchKeys,
            Some(keys) => {
                let step = self.evaluate(&keys);
                proof {
                    let w = choose|vs: Seq<Verdict>| #[trigger] before.passed(*self, step, keys@, vs);
                    assert(before.passed(*self, step, cache@->0, w));
                }
                step
            },
        }
    }

    /// Continues with the key-set endpoint's reply: a readable set under a
    /// success status is cached, then a pass is made over it; anything else
    /// ends the validation as an internal error and leaves the cache alone.
    pub fn keys_fetched(&mut self, reply: Reply<Vec<SigningKey>>, cache: &mut JwksCache) -> (step:
        Step)
        ensures
            fetched_keys(reply) is None ==> step == Step::Finished(
                Err(ApiError::InternalServerError),
            ) && *final(self) == *old(self) && final(cache)@ == old(cache)@,
            fetched_keys(reply) matches Some(keys) ==> final(cache)@ == Some(keys) && exists|
                vs: Seq<Verdict>,
            | #[trigger] old(self).passed(*final(self), step, keys, vs),
    {
        let keys = match reply {
            Reply::Answered { status, body: Some(keys) } => {
                if !is_success(status) {
                    return Step::Finished(Err(ApiError::InternalServerError));
                }
                keys
            },
            _ => {
                return Step::Finished(Err(ApiError::InternalServerError));
            },
        };
        cache.store_jwks(keys.clone());
        assert(cache@ == Some(keys@)) by {
            assert(cache@.unwrap() =~= keys@);
        }
        self.evaluate(&keys)
    }
}

/// The key set a reply of the key-set endpoint delivers, if it delivers one.
pub open spec fn fetched_keys(reply: Reply<Vec<SigningKey>>) -> Option<Seq<SigningKey>> {
    match reply {
        Reply::Answered { status, body: Some(keys) } => if is_success_status(status) {
            Some(keys@)
        } else {
            None
        },
        _ => None,
    }
}

proof fn lemma_scan_found(vs: Seq<Verdict>)
    requires
        scan(vs) is Ok,
    ensures
        0 <= scan(vs)->Ok_0 < vs.len(),
        vs[scan(vs)->Ok_0] == Verdict::Accepted,
    decreases vs.len(),
{
    let front = vs.drop_last();
    if scan(front) is Ok {
        lemma_scan_found(front);
    }
}

proof fn lemma_scan_single_rejection(vs: Seq<Verdict>, i: int, kind: JwtErrorKind, n: int)
    requires
        0 <= i < vs.len(),
        0 <= n <= vs.len(),
        vs[i] == Verdict::Rejected(kind),
        forall|j: int| 0 <= j < vs.len() && j != i ==> #[trigger] vs[j] == Verdict::Skipped,
    ensures
        scan(vs.take(n)) == if n <= i {
            Err::<int, Option<JwtErrorKind>>(None)
        } else {
            Err(Some(kind))
        },
    decreases n,
{
    if n > 0 {
        lemma_scan_single_rejection(vs, i, kind, n - 1);
        assert(vs.take(n).drop_last() =~= vs.take(n - 1));
        assert(vs.take(n).last() == vs[n - 1]);
    } else {
        assert(vs.take(0) =~= Seq::<Verdict>::empty());
    }
}

/// A token that is empty or made only of whitespace is a bad request, once
/// the key-set location is configured; the key set plays no part in it.
pub proof fn blank_token_is_bad_request(jwks_uri: Seq<char>, raw: Seq<char>)
    requires
        jwks_uri.len() > 0,
        all_white_space(raw),
    ensures
        start_outcome(jwks_uri, raw) == Err::<(Seq<char>, (Algorithm, Option<Seq<char>>)), ApiError>(
            ApiError::BadRequest,
        ),
{
    lemma_white_space_trims_to_empty(raw);
}

/// A key that declares an algorithm incompatible with the header's is never
/// tried, even when its id matches the header's, so no pass selects it.
pub proof fn incompatible_key_never_selected(
    token: Seq<char>,
    header: TokenHeader,
    keys: Seq<SigningKey>,
    i: int,
    vs: Seq<Verdict>,
)
    requires
        0 <= i < keys.len(),
        keys[i].algorithm is Some,
        !compatible(keys[i].algorithm->0, header.alg),
        fits(token, header, keys, vs),
    ensures
        !usable(header, keys[i]),
        vs[i] == Verdict::Skipped,
        pass_outcome_spec(vs) != Ok::<int, PassFailure>(i),
{
    assert(verdict_fits(token, header, keys[i], vs[i]));
    if scan(vs) is Ok {
        lemma_scan_found(vs);
    }
}

/// Keys that the algorithm filter lets through.
pub open spec fn keeps_alg(header: TokenHeader) -> spec_fn(SigningKey) -> bool {
    |k: SigningKey| alg_admits(k.algorithm, header.alg)
}

/// The verdicts of the keys that the algorithm filter lets through, in order.
pub open spec fn kept_verdicts(header: TokenHeader, keys: Seq<SigningKey>, vs: Seq<Verdict>) -> Seq<
    Verdict,
>
    decreases keys.len(),
{
    if keys.len() == 0 || vs.len() == 0 {
        Seq::empty()
    } else {
        let rest = kept_verdicts(header, keys.drop_last(), vs.drop_last());
        if alg_admits(keys.last().algorithm, header.alg) {
            rest.push(vs.last())
        } else {
            rest
        }
    }
}

proof fn lemma_kept_verdicts(token: Seq<char>, header: TokenHeader, keys: Seq<SigningKey>, vs: Seq<Verdict>)
    requires
        fits(token, header, keys, vs),
    ensures
        fits(token, header, keys.filter(keeps_alg(header)), kept_verdicts(header, keys, vs)),
        scan(vs) is Err ==> scan(kept_verdicts(header, keys, vs)) == scan(vs),
        scan(kept_verdicts(header, keys, vs)) is Err ==> scan(kept_verdicts(header, keys, vs))
            == scan(vs),
        scan(vs) is Ok ==> keys.filter(keeps_alg(header))[scan(
            kept_verdicts(header, keys, vs),
        )->Ok_0] == keys[scan(vs)->Ok_0],
    decreases keys.len(),
{
    let kept = keys.filter(keeps_alg(header));
    let kv = kept_verdicts(header, keys, vs);
    if keys.len() == 0 {
        reveal(Seq::filter);
        assert(kv =~= Seq::<Verdict>::empty());
    } else {
        let fk = keys.drop_last();
        let fv = vs.drop_last();
        let last = vs.last();
        assert(fits(token, header, fk, fv)) by {
            assert forall|j: int| 0 <= j < fv.len() implies #[trigger] verdict_fits(
                token,
                header,
                fk[j],
                fv[j],
            ) by {
                assert(verdict_fits(token, header, keys[j], vs[j]));
            }
        }
        lemma_kept_verdicts(token, header, fk, fv);
        let fkept = fk.filter(keeps_alg(header));
        let fkv = kept_verdicts(header, fk, fv);
        reveal(Seq::filter);
        assert(verdict_fits(token, header, keys[keys.len() - 1], vs[vs.len() - 1]));
        lemma_scan_push(fv, last);
        assert(fv.push(last) =~= vs);
        if scan(fv) is Ok {
            lemma_scan_found(fv);
        }
        if scan(fkv) is Ok {
            lemma_scan_found(fkv);
        }
        if keeps_alg(header)(keys.last()) {
            assert(kept == fkept.push(keys.last()));
            assert(kv == fkv.push(last));
            lemma_scan_push(fkv, last);
            assert forall|j: int| 0 <= j < kv.len() implies #[trigger] verdict_fits(
                token,
                header,
                kept[j],
                kv[j],
            ) by {
                if j < fkv.len() {
                    assert(verdict_fits(token, header, fkept[j], fkv[j]));
                }
            }
        } else {
            assert(kept == fkept);
            assert(kv == fkv);
            assert(last == Verdict::Skipped);
        }
    }
}

/// Dropping the keys whose declared algorithm does not go with the header's,
/// the rest kept in order, changes nothing about a pass, whatever their ids:
/// the verdicts of the rest record a pass over them that fails the same way,
/// or accepts through the same key.
pub proof fn incompatible_keys_do_not_matter(
    token: Seq<char>,
    header: TokenHeader,
    keys: Seq<SigningKey>,
    vs: Seq<Verdict>,
)
    requires
        fits(token, header, keys, vs),
    ensures
        fits(token, header, keys.filter(keeps_alg(header)), kept_verdicts(header, keys, vs)),
        pass_outcome_spec(vs) is Err ==> pass_outcome_spec(kept_verdicts(header, keys, vs))
            == pass_outcome_spec(vs),
        pass_outcome_spec(kept_verdicts(header, keys, vs)) is Err ==> pass_outcome_spec(
            kept_verdicts(header, keys, vs),
        ) == pass_outcome_spec(vs),
        pass_outcome_spec(vs) is Ok ==> keys.filter(keeps_alg(header))[pass_outcome_spec(
            kept_verdicts(header, keys, vs),
        )->Ok_0] == keys[pass_outcome_spec(vs)->Ok_0],
{
    lemma_kept_verdicts(token, header, keys, vs);
}

/// With no key id in the header and two keys, the first declaring an
/// algorithm that does not go with the header's: the first is never tried,
/// so a pass succeeds only through the second key, whose signature check
/// then passed, and a pass in which the second key accepts succeeds with it.
pub proof fn second_key_after_algorithm_mismatch(
    token: Seq<char>,
    header: TokenHeader,
    keys: Seq<SigningKey>,
    vs: Seq<Verdict>,
)
    requires
        header.kid is None,
        keys.len() == 2,
        keys[0].algorithm is Some,
        !compatible(keys[0].algorithm->0, header.alg),
        fits(token, header, keys, vs),
    ensures
        vs[0] == Verdict::Skipped,
        vs[1] == Verdict::Accepted ==> pass_outcome_spec(vs) == Ok::<int, PassFailure>(1),
        pass_outcome_spec(vs) is Ok ==> pass_outcome_spec(vs) == Ok::<int, PassFailure>(1)
            && signature_verifies(token, keys[1].material@, header.alg),
        usable(header, keys[1]) ==> pass_outcome_spec(vs) != Err::<int, PassFailure>(
            PassFailure::NoMatchingKey,
        ),
{
    assert(verdict_fits(token, header, keys[0], vs[0]));
    assert(verdict_fits(token, header, keys[1], vs[1]));
    lemma_scan_push(vs.drop_last(), vs[1]);
    assert(vs.drop_last().push(vs[1]) =~= vs);
    lemma_scan_push(Seq::<Verdict>::empty(), vs[0]);
    assert(Seq::<Verdict>::empty().push(vs[0]) =~= vs.drop_last());
}

/// When the one key that can be tried rejects the signature, the first pass
/// asks for a forced refresh; the second pass, whatever the fetched keys
/// give, asks for no further refresh: finding no key there, or failing in
/// any way reported as Unauthorized, ends the validation as Unauthorized.
pub proof fn rejected_signature_refreshes_once(
    v: TokenValidation,
    keys: Seq<SigningKey>,
    vs: Seq<Verdict>,
    i: int,
    after_first: TokenValidation,
    first_step: Step,
    second_outcome: Result<int, PassFailure>,
    after_second: TokenValidation,
    second_step: Step,
)
    requires
        !v.refreshed,
        0 <= i < vs.len(),
        vs[i] == Verdict::Rejected(JwtErrorKind::InvalidSignature),
        forall|j: int| 0 <= j < vs.len() && j != i ==> #[trigger] vs[j] == Verdict::Skipped,
        v.passed(after_first, first_step, keys, vs),
        after_first.after_pass(after_second, second_step, second_outcome),
    ensures
        first_step == Step::RefreshKeys,
        after_first.refreshed,
        second_step is Finished,
        second_outcome == Err::<int, PassFailure>(PassFailure::NoMatchingKey) ==> second_step
            == Step::Finished(Err(ApiError::Unauthorized)),
        forall|k: JwtErrorKind|
            second_outcome == Err::<int, PassFailure>(PassFailure::Jwt(k)) && error_for(k)
                == ApiError::Unauthorized ==> second_step == Step::Finished(
                Err(ApiError::Unauthorized),
            ),
{
    lemma_scan_single_rejection(vs, i, JwtErrorKind::InvalidSignature, vs.len() as int);
    assert(vs.take(vs.len() as int) =~= vs);
}

/// With a warm cache, a validation whose pass accepts the token ends at once
/// with it and asks for no fetch or refresh, so the cache stays as it was; a
/// second validation of the same token, accepted again, ends the same way.
pub proof fn warm_cache_success_needs_no_refresh(
    first: TokenValidation,
    after_first: TokenValidation,
    second: TokenValidation,
    after_second: TokenValidation,
    first_step: Step,
    second_step: Step,
    first_outcome: Result<int, PassFailure>,
    second_outcome: Result<int, PassFailure>,
)
    requires
        !first.refreshed,
        !second.refreshed,
        first_outcome is Ok,
        second_outcome is Ok,
        first.after_pass(after_first, first_step, first_outcome),
        second.after_pass(after_second, second_step, second_outcome),
    ensures
        first_step == Step::Finished(
            Ok(TokenSet { access_token: first.token, refresh_token: None }),
        ),
        second_step == Step::Finished(
            Ok(TokenSet { access_token: second.token, refresh_token: None }),
        ),
        !after_first.refreshed,
        !after_second.refreshed,
{
}

} // verus!
