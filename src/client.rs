//! The runtime side of the client: its configuration, the shape of the
//! service's replies, and how each request is addressed and authorised.

use vstd::prelude::*;

verus! {

/// Which flavour of the service the client talks to.
#[derive(Clone, Copy, Debug, PartialEq, Eq, Structural)]
pub enum ApiType {
    OpenAi,
    Azure,
}

/// The client's identity: credential, base URL and service flavour.
///
/// A configuration is only ever replaced whole, so a reader never sees one
/// field of an old value beside a field of a new one.
#[derive(Clone, Debug)]
pub struct ClientConfig {
    pub key: String,
    pub base_url: String,
    pub api_type: ApiType,
}

/// The base URL of a fresh configuration.
pub open spec fn default_base_url() -> Seq<char> {
    "https://api.openai.com/v1/"@
}

/// The query that every request to the Azure flavour carries.
pub open spec fn azure_version_query() -> Seq<char> {
    "?api-version=2023-03-15-preview"@
}

impl ClientConfig {
    /// A configuration with no key, the public base URL and the default flavour.
    pub fn new() -> (r: ClientConfig)
        ensures
            r.key@ == Seq::<char>::empty(),
            r.base_url@ == default_base_url(),
            r.api_type == ApiType::OpenAi,
    {
        ClientConfig {
            key: String::new(),
            base_url: String::from_str("https://api.openai.com/v1/"),
            api_type: ApiType::OpenAi,
        }
    }
}

/// Sets the key that authorises every request.
pub fn set_key(config: &mut ClientConfig, value: String)
    ensures
        final(config).key == value,
        final(config).base_url == old(config).base_url,
        final(config).api_type == old(config).api_type,
{
    let base_url = config.base_url.clone();
    *config = ClientConfig { key: value, base_url, api_type: config.api_type };
}

/// Sets the flavour of the service.
pub fn set_api_type(config: &mut ClientConfig, value: ApiType)
    ensures
        final(config).key == old(config).key,
        final(config).base_url == old(config).base_url,
        final(config).api_type == value,
{
    let key = config.key.clone();
    let base_url = config.base_url.clone();
    *config = ClientConfig { key, base_url, api_type: value };
}

/// Sets the base URL that every route is appended to.
pub fn set_base_url(config: &mut ClientConfig, value: String)
    ensures
        final(config).key == old(config).key,
        final(config).base_url == value,
        final(config).api_type == old(config).api_type,
{
    let key = config.key.clone();
    *config = ClientConfig { key, base_url: value, api_type: config.api_type };
}

/// The URL of a request for `route`.
pub open spec fn request_url_of(config: ClientConfig, route: Seq<char>) -> Seq<char> {
    if config.api_type == ApiType::Azure {
        config.base_url@ + route + azure_version_query()
    } else {
        config.base_url@ + route
    }
}

/// The URL of a request for `route`: the base URL, the route, and for the
/// Azure flavour the version query.
pub fn request_url(config: &ClientConfig, route: &str) -> (r: String)
    ensures
        r@ == request_url_of(*config, route@),
{
    let mut url = config.base_url.clone();
    url.append(route);
    if config.api_type == ApiType::Azure {
        url.append("?api-version=2023-03-15-preview");
    }
    url
}

/// The header that authorises a request, as name and value.
pub open spec fn auth_header_of(config: ClientConfig) -> (Seq<char>, Seq<char>) {
    if config.api_type == ApiType::OpenAi {
        ("Authorization"@, "Bearer "@ + config.key@)
    } else {
        ("api-key"@, config.key@)
    }
}

/// The header that authorises a request: a bearer token by default, the bare
/// key under `api-key` for the Azure flavour.
pub fn auth_header(config: &ClientConfig) -> (r: (String, String))
    ensures
        (r.0@, r.1@) == auth_header_of(*config),
{
    if config.api_type == ApiType::OpenAi {
        let value = String::from_str("Bearer ").concat(config.key.as_str());
        (String::from_str("Authorization"), value)
    } else {
        (String::from_str("api-key"), config.key.clone())
    }
}

/// The error envelope of the service.
#[derive(Clone, Debug)]
pub struct OpenAiError {
    pub message: String,
    pub error_type: String,
    pub param: Option<String>,
    pub code: Option<String>,
}

impl OpenAiError {
    /// The error as text: its message.
    pub fn to_text(&self) -> (r: String)
        ensures
            r@ == self.message@,
    {
        self.message.clone()
    }
}

/// A decoded reply: the payload, or the service's error envelope.
#[derive(Clone, Debug)]
pub enum ApiResponse<T> {
    Success(T),
    Failure { error: OpenAiError },
}

impl<T> ApiResponse<T> {
    /// The reply as a `Result`: the payload, or the service's error.
    pub fn into_result(self) -> (r: Result<T, OpenAiError>)
        ensures
            match self {
                ApiResponse::Success(t) => r == Ok::<T, OpenAiError>(t),
                ApiResponse::Failure { error } => r == Err::<T, OpenAiError>(error),
            },
    {
        match self {
            ApiResponse::Success(t) => Ok(t),
            ApiResponse::Failure { error } => Err(error),
        }
    }
}

/// Token counts that the service reports for a request.
#[derive(Clone, Copy, Debug, PartialEq, Eq, Structural)]
pub struct Usage {
    pub prompt_tokens: u32,
    pub completion_tokens: u32,
    pub total_tokens: u32,
}

} // verus!
