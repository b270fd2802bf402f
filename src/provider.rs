//! The identity provider's endpoints, resolved once from its discovery document.
use vstd::prelude::*;
use vstd::string::*;
use crate::jwt::opt_seq;
use crate::text::{trim_trailing_slashes, without_trailing_slashes};

verus! {

/// The fields of a discovery document that the service reads; a field the
/// document lacks, or does not give as a string, is `None`.
pub struct DiscoveryDocument {
    pub device_authorization_endpoint: Option<String>,
    pub token_endpoint: Option<String>,
    pub issuer: Option<String>,
    pub jwks_uri: Option<String>,
}

/// Provider metadata: immutable once built.
pub struct OIDC {
    pub device_authorization_endpoint: String,
    pub token_endpoint: String,
    pub client_id: String,
    pub issuer: String,
    pub jwks_uri: String,
}

/// The text of an optional field, empty when it is absent.
pub open spec fn text_or_empty(o: Option<String>) -> Seq<char> {
    match o {
        Some(s) => s@,
        None => Seq::empty(),
    }
}

/// Where the key set is published, when the discovery document does not say.
pub open spec fn default_jwks_uri(issuer: Seq<char>) -> Seq<char> {
    if issuer.len() == 0 {
        Seq::empty()
    } else {
        without_trailing_slashes(issuer) + "/.well-known/jwks.json"@
    }
}

/// The key-set location that a discovery document resolves to.
pub open spec fn resolved_jwks_uri(jwks_uri: Option<Seq<char>>, issuer: Seq<char>) -> Seq<char> {
    match jwks_uri {
        Some(u) => u,
        None => default_jwks_uri(issuer),
    }
}

fn text_of(o: Option<String>) -> (r: String)
    ensures
        r@ == text_or_empty(o),
{
    match o {
        Some(s) => s,
        None => String::new(),
    }
}

impl OIDC {
    /// Provider metadata from a discovery document and the service's client id.
    pub fn new(discovery: DiscoveryDocument, client_id: String) -> (r: OIDC)
        ensures
            r.device_authorization_endpoint@ == text_or_empty(
                discovery.device_authorization_endpoint,
            ),
            r.token_endpoint@ == text_or_empty(discovery.token_endpoint),
            r.issuer@ == text_or_empty(discovery.issuer),
            r.client_id == client_id,
            r.jwks_uri@ == resolved_jwks_uri(
                opt_seq(discovery.jwks_uri),
                text_or_empty(discovery.issuer),
            ),
            discovery.jwks_uri is None && text_or_empty(discovery.issuer).len() > 0
                ==> r.jwks_uri@ == without_trailing_slashes(text_or_empty(discovery.issuer))
                + "/.well-known/jwks.json"@,
    {
        let issuer = text_of(discovery.issuer);
        let jwks_uri = match discovery.jwks_uri {
            Some(u) => u,
            None => {
                if issuer.as_str().unicode_len() == 0 {
                    String::new()
                } else {
                    let mut base = trim_trailing_slashes(issuer.as_str());
                    base.append("/.well-known/jwks.json");
                    base
                }
            },
        };
        OIDC {
            device_authorization_endpoint: text_of(discovery.device_authorization_endpoint),
            token_endpoint: text_of(discovery.token_endpoint),
            client_id,
            issuer,
            jwks_uri,
        }
    }
}

} // verus!
