//! The device-authorization grant: starting it and polling for its tokens.
//!
//! Each exchange is split in two: one function decides what to send, the
//! caller sends it, and another function reads what came back.
use vstd::prelude::*;
use crate::errors::ApiError;
use crate::provider::OIDC;

verus! {

/// A request to start the grant.
pub struct StartAuthInput {
    pub scope: String,
}

/// Where the user verifies, and the code to verify or to poll with.
pub struct StartAuthOutput {
    pub verification_uri: String,
    pub code: String,
}

/// A request to poll the grant.
pub struct PollDeviceAuthInput {
    pub code: String,
}

/// A request to validate a bearer token.
pub struct LegacyValidateInput {
    pub token: String,
}

/// The tokens handed to the caller.
pub struct TokenSet {
    pub access_token: String,
    pub refresh_token: Option<String>,
}

/// The device-authorization endpoint's answer.
pub struct DeviceAuthResponse {
    pub verification_uri: Option<String>,
    pub verification_uri_complete: Option<String>,
    pub user_code: Option<String>,
    pub device_code: Option<String>,
}

/// The token endpoint's answer.
pub struct TokenResponse {
    pub access_token: Option<String>,
    pub refresh_token: Option<String>,
}

/// A form-encoded POST to make to the provider.
pub struct FormPost {
    pub url: String,
    pub fields: Vec<(String, String)>,
}

/// What came of a request to the provider: no answer at all, or a status
/// and the body read as `T` (`None` when it could not be read so).
pub enum Reply<T> {
    Unreachable,
    Answered { status: u16, body: Option<T> },
}

/// The names and values of a form.
pub open spec fn form_view(fields: Seq<(String, String)>) -> Seq<(Seq<char>, Seq<char>)> {
    fields.map_values(|p: (String, String)| (p.0@, p.1@))
}

/// A 2xx status.
pub open spec fn is_success_status(status: u16) -> bool {
    200 <= status && status <= 299
}

pub fn is_success(status: u16) -> (r: bool)
    ensures
        r == is_success_status(status),
{
    200 <= status && status <= 299
}

/// The first of two optional values that is present.
pub open spec fn first_present(a: Option<String>, b: Option<String>) -> Option<String> {
    match a {
        Some(x) => Some(x),
        None => b,
    }
}

fn or_else(a: Option<String>, b: Option<String>) -> (r: Option<String>)
    ensures
        r == first_present(a, b),
{
    match a {
        Some(x) => Some(x),
        None => b,
    }
}

/// The outcome of starting the grant, given the provider's reply.
pub open spec fn start_outcome(reply: Reply<DeviceAuthResponse>) -> Result<
    StartAuthOutput,
    ApiError,
> {
    match reply {
        Reply::Unreachable => Err(ApiError::InternalServerError),
        Reply::Answered { status, body } => {
            if !is_success_status(status) {
                Err(ApiError::BadRequest)
            } else {
                match body {
                    None => Err(ApiError::InternalServerError),
                    Some(b) => match (
                        first_present(b.verification_uri_complete, b.verification_uri),
                        first_present(b.user_code, b.device_code),
                    ) {
                        (Some(uri), Some(code)) => Ok(
                            StartAuthOutput { verification_uri: uri, code: code },
                        ),
                        _ => Err(ApiError::InternalServerError),
                    },
                }
            }
        },
    }
}

/// The error a failed poll reports, by the token endpoint's status.
pub open spec fn poll_failure(status: u16) -> ApiError {
    if status == 400 {
        ApiError::BadRequest
    } else if status == 401 {
        ApiError::Unauthorized
    } else if status == 429 {
        ApiError::TooManyRequests
    } else {
        ApiError::InternalServerError
    }
}

/// The outcome of a poll, given the token endpoint's reply.
pub open spec fn poll_outcome(reply: Reply<TokenResponse>) -> Result<TokenSet, ApiError> {
    match reply {
        Reply::Unreachable => Err(ApiError::InternalServerError),
        Reply::Answered { status, body } => {
            if is_success_status(status) {
                match body {
                    None => Err(ApiError::InternalServerError),
                    Some(t) => match t.access_token {
                        None => Err(ApiError::InternalServerError),
                        Some(a) => Ok(TokenSet { access_token: a, refresh_token: t.refresh_token }),
                    },
                }
            } else {
                Err(poll_failure(status))
            }
        },
    }
}

/// The grant type sent when polling.
pub open spec fn device_grant_type() -> Seq<char> {
    "urn:ietf:params:oauth:grant-type:device_code"@
}

/// A request as URL and form, or the error that stands in its place.
pub open spec fn post_view(r: Result<FormPost, ApiError>) -> Result<
    (Seq<char>, Seq<(Seq<char>, Seq<char>)>),
    ApiError,
> {
    match r {
        Ok(post) => Ok((post.url@, form_view(post.fields@))),
        Err(e) => Err(e),
    }
}

/// The request that starts the grant: refused as a setup fault while the
/// endpoint or the client id is unknown.
pub open spec fn start_request(endpoint: Seq<char>, client_id: Seq<char>, scope: Seq<char>) -> Result<
    (Seq<char>, Seq<(Seq<char>, Seq<char>)>),
    ApiError,
> {
    if endpoint.len() == 0 || client_id.len() == 0 {
        Err(ApiError::SetupError)
    } else {
        Ok((endpoint, seq![("client_id"@, client_id), ("scope"@, scope)]))
    }
}

/// The request that polls the grant: a setup fault while the endpoint or the
/// client id is unknown, a bad request for an empty code; nothing is sent then.
pub open spec fn poll_request(endpoint: Seq<char>, client_id: Seq<char>, code: Seq<char>) -> Result<
    (Seq<char>, Seq<(Seq<char>, Seq<char>)>),
    ApiError,
> {
    if endpoint.len() == 0 || client_id.len() == 0 {
        Err(ApiError::SetupError)
    } else if code.len() == 0 {
        Err(ApiError::BadRequest)
    } else {
        Ok(
            (
                endpoint,
                seq![
                    ("client_id"@, client_id),
                    ("device_code"@, code),
                    ("grant_type"@, device_grant_type()),
                ],
            ),
        )
    }
}

/// The request that starts the grant for `input.scope`.
pub fn start_device_auth(oidc: &OIDC, input: StartAuthInput) -> (r: Result<FormPost, ApiError>)
    ensures
        post_view(r) == start_request(oidc.device_authorization_endpoint@, oidc.client_id@, input.scope@),
{
    if oidc.device_authorization_endpoint.as_str().is_empty() || oidc.client_id.as_str().is_empty() {
        return Err(ApiError::SetupError);
    }
    let mut fields: Vec<(String, String)> = Vec::new();
    fields.push(("client_id".to_owned(), oidc.client_id.clone()));
    fields.push(("scope".to_owned(), input.scope));
    let post = FormPost { url: oidc.device_authorization_endpoint.clone(), fields };
    assert(form_view(post.fields@) =~= seq![
        ("client_id"@, oidc.client_id@),
        ("scope"@, input.scope@),
    ]);
    Ok(post)
}

/// Reads the device-authorization endpoint's reply: the verification URI
/// prefers `verification_uri_complete`, the code prefers `user_code`.
pub fn finish_device_auth(reply: Reply<DeviceAuthResponse>) -> (r: Result<
    StartAuthOutput,
    ApiError,
>)
    ensures
        r == start_outcome(reply),
{
    match reply {
        Reply::Unreachable => Err(ApiError::InternalServerError),
        Reply::Answered { status, body } => {
            if !is_success(status) {
                return Err(ApiError::BadRequest);
            }
            match body {
                None => Err(ApiError::InternalServerError),
                Some(b) => {
                    let uri = or_else(b.verification_uri_complete, b.verification_uri);
                    let code = or_else(b.user_code, b.device_code);
                    match (uri, code) {
                        (Some(uri), Some(code)) => Ok(
                            StartAuthOutput { verification_uri: uri, code: code },
                        ),
                        _ => Err(ApiError::InternalServerError),
                    }
                },
            }
        },
    }
}

/// The request that polls the grant with the device code `input.code`.
pub fn poll_device_auth(oidc: &OIDC, input: PollDeviceAuthInput) -> (r: Result<
    FormPost,
    ApiError,
>)
    ensures
        post_view(r) == poll_request(oidc.token_endpoint@, oidc.client_id@, input.code@),
{
    if oidc.token_endpoint.as_str().is_empty() || oidc.client_id.as_str().is_empty() {
        return Err(ApiError::SetupError);
    }
    if input.code.as_str().is_empty() {
        return Err(ApiError::BadRequest);
    }
    let mut fields: Vec<(String, String)> = Vec::new();
    fields.push(("client_id".to_owned(), oidc.client_id.clone()));
    fields.push(("device_code".to_owned(), input.code));
    fields.push(
        ("grant_type".to_owned(), "urn:ietf:params:oauth:grant-type:device_code".to_owned()),
    );
    let post = FormPost { url: oidc.token_endpoint.clone(), fields };
    assert(form_view(post.fields@) =~= seq![
        ("client_id"@, oidc.client_id@),
        ("device_code"@, input.code@),
        ("grant_type"@, device_grant_type()),
    ]);
    Ok(post)
}

/// Reads the token endpoint's reply. A failure status maps to an error:
/// 400 to `BadRequest`, 401 to `Unauthorized`, 429 (also "authorization
/// pending") to `TooManyRequests`, any other to `InternalServerError`.
pub fn finish_poll_device_auth(reply: Reply<TokenResponse>) -> (r: Result<TokenSet, ApiError>)
    ensures
        r == poll_outcome(reply),
{
    match reply {
        Reply::Unreachable => Err(ApiError::InternalServerError),
        Reply::Answered { status, body } => {
            if is_success(status) {
                match body {
                    None => Err(ApiError::InternalServerError),
                    Some(t) => match t.access_token {
                        None => Err(ApiError::InternalServerError),
                        Some(a) => Ok(TokenSet { access_token: a, refresh_token: t.refresh_token }),
                    },
                }
            } else if status == 400 {
                Err(ApiError::BadRequest)
            } else if status == 401 {
                Err(ApiError::Unauthorized)
            } else if status == 429 {
                Err(ApiError::TooManyRequests)
            } else {
                Err(ApiError::InternalServerError)
            }
        },
    }
}

} // verus!
