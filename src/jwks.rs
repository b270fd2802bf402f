//! Published signing keys and the cache that holds the last key set fetched.
use vstd::prelude::*;
use jsonwebtoken::jwk::KeyAlgorithm;

verus! {

/// The type-specific material of a published key.
pub enum KeyMaterial {
    /// RSA modulus and exponent, base64url text.
    Rsa { n: String, e: String },
    /// Elliptic-curve coordinates, base64url text.
    EllipticCurve { x: String, y: String },
    /// A shared secret.
    Symmetric { secret: String },
    /// Key-agreement material, never usable to verify a signature.
    KeyAgreement,
}

/// The text of key material.
pub enum KeyText {
    Rsa { n: Seq<char>, e: Seq<char> },
    EllipticCurve { x: Seq<char>, y: Seq<char> },
    Symmetric { secret: Seq<char> },
    KeyAgreement,
}

impl View for KeyMaterial {
    type V = KeyText;

    open spec fn view(&self) -> KeyText {
        match self {
            KeyMaterial::Rsa { n, e } => KeyText::Rsa { n: n@, e: e@ },
            KeyMaterial::EllipticCurve { x, y } => KeyText::EllipticCurve { x: x@, y: y@ },
            KeyMaterial::Symmetric { secret } => KeyText::Symmetric { secret: secret@ },
            KeyMaterial::KeyAgreement => KeyText::KeyAgreement,
        }
    }
}

/// One entry of a published key set.
pub struct SigningKey {
    pub key_id: Option<String>,
    pub algorithm: Option<KeyAlgorithm>,
    pub material: KeyMaterial,
}

fn clone_text(o: &Option<String>) -> (r: Option<String>)
    ensures
        r == *o,
{
    match o {
        Some(s) => Some(s.clone()),
        None => None,
    }
}

impl Clone for KeyMaterial {
    fn clone(&self) -> (r: Self)
        ensures
            r == *self,
    {
        match self {
            KeyMaterial::Rsa { n, e } => KeyMaterial::Rsa { n: n.clone(), e: e.clone() },
            KeyMaterial::EllipticCurve { x, y } => KeyMaterial::EllipticCurve {
                x: x.clone(),
                y: y.clone(),
            },
            KeyMaterial::Symmetric { secret } => KeyMaterial::Symmetric { secret: secret.clone() },
            KeyMaterial::KeyAgreement => KeyMaterial::KeyAgreement,
        }
    }
}

impl Clone for SigningKey {
    fn clone(&self) -> (r: Self)
        ensures
            r == *self,
    {
        SigningKey {
            key_id: clone_text(&self.key_id),
            algorithm: self.algorithm,
            material: self.material.clone(),
        }
    }
}

/// Holds at most one key set. Nothing here fetches: filling the cache is the
/// validator's decision.
pub struct JwksCache {
    keys: Option<Vec<SigningKey>>,
}

impl View for JwksCache {
    type V = Option<Seq<SigningKey>>;

    closed spec fn view(&self) -> Option<Seq<SigningKey>> {
        match self.keys {
            Some(v) => Some(v@),
            None => None,
        }
    }
}

/// The view of an optional key set.
pub open spec fn opt_keys(o: Option<Vec<SigningKey>>) -> Option<Seq<SigningKey>> {
    match o {
        Some(v) => Some(v@),
        None => None,
    }
}

impl JwksCache {
    /// An empty cache.
    pub fn new() -> (r: Self)
        ensures
            r@ is None,
    {
        JwksCache { keys: None }
    }

    /// A copy of the cached key set, if there is one.
    pub fn cached_jwks(&self) -> (r: Option<Vec<SigningKey>>)
        ensures
            opt_keys(r) == self@,
    {
        match &self.keys {
            Some(v) => {
                let c = v.clone();
                assert(c@ =~= v@);
                Some(c)
            },
            None => None,
        }
    }

    /// Replaces whatever was cached with `keys`.
    pub fn store_jwks(&mut self, keys: Vec<SigningKey>)
        ensures
            final(self)@ == Some(keys@),
    {
        self.keys = Some(keys);
    }

    /// Empties the cache.
    pub fn clear_jwks(&mut self)
        ensures
            final(self)@ is None,
    {
        self.keys = None;
    }
}

} // verus!
