use vstd::prelude::*;

verus! {

/// Base URL of the backend used when no other is configured.
pub const API_BASE_URL: &'static str = "https://api.screenlyapp.com/api";

/// Path, relative to the base URL, of the resource that verification probes.
/// The identifier names a group that deliberately does not exist: a `404`
/// proves that the token authenticated without touching any data.
pub const PROBE_PATH: &'static str = "/v3/groups/11CF9Z3GZR0005XXKH00F8V20R/";

/// Environment variable whose value, when set and non-empty, overrides the
/// stored credential.
pub const TOKEN_VARIABLE: &'static str = "API_TOKEN";

/// Name of the credential file in the caller's home directory.
pub const CREDENTIAL_FILE: &'static str = ".screenly";

/// Scheme word that precedes the token in the `Authorization` header.
pub const TOKEN_SCHEME: &'static str = "Token ";

/// Product name that leads the `User-Agent` header.
pub const USER_AGENT_PRODUCT: &'static str = "screenly-cli ";

/// Status of a probe whose token was accepted.
pub const STATUS_NOT_FOUND: u16 = 404;

/// Status of a probe whose token was refused.
pub const STATUS_UNAUTHORIZED: u16 = 401;

/// Where requests are sent.
pub struct Config {
    pub url: String,
}

impl Config {
    /// The configuration that targets the production backend.
    pub fn default() -> (r: Self)
        ensures
            r.url@ == API_BASE_URL@,
    {
        Self { url: API_BASE_URL.to_owned() }
    }

    /// A configuration that targets `url`.
    pub fn new(url: String) -> (r: Self)
        ensures
            r.url == url,
    {
        Self { url }
    }
}

/// Why a credential could not be resolved, verified or attached.
#[derive(Debug)]
pub enum AuthenticationError {
    /// The backend refused the token.
    WrongCredentials,
    /// No credential is available.
    NoCredentials,
    /// The request never reached the backend, or never completed.
    Request(reqwest::Error),
    /// The credential file could not be read or written.
    Io(std::io::Error),
    /// The caller's home directory could not be located.
    MissingHomeDir,
    /// A header value holds bytes that HTTP does not allow.
    InvalidHeader(reqwest::header::InvalidHeaderValue),
    /// The backend answered the probe with a status that means neither
    /// acceptance nor refusal.
    Unknown,
}

#[verifier::external_type_specification]
#[verifier::external_body]
pub struct ExReqwestError(reqwest::Error);

#[verifier::external_type_specification]
#[verifier::external_body]
pub struct ExIoError(std::io::Error);

#[verifier::external_type_specification]
#[verifier::external_body]
pub struct ExHeaderValue(reqwest::header::HeaderValue);

#[verifier::external_type_specification]
#[verifier::external_body]
pub struct ExInvalidHeaderValue(reqwest::header::InvalidHeaderValue);

/// What reading the credential file produced.
#[derive(Debug)]
pub enum StoredToken {
    /// The home directory, and so the file, could not be located.
    MissingHomeDir,
    /// The file could not be read.
    Unreadable(std::io::Error),
    /// The file's contents, verbatim.
    Contents(String),
}

/// The override, where one is set and non-empty.
pub open spec fn override_of(env_value: Option<String>) -> Option<String> {
    match env_value {
        Some(v) => if v@.len() > 0 { Some(v) } else { None },
        None => None,
    }
}

/// The credential that the stored file gives.
pub open spec fn stored_result(stored: StoredToken) -> Result<String, AuthenticationError> {
    match stored {
        StoredToken::MissingHomeDir => Err(AuthenticationError::MissingHomeDir),
        StoredToken::Unreadable(e) => Err(AuthenticationError::Io(e)),
        StoredToken::Contents(t) => Ok(t),
    }
}

/// The credential in force: the override when set, the stored one otherwise.
pub open spec fn resolution(env_value: Option<String>, stored: StoredToken) -> Result<
    String,
    AuthenticationError,
> {
    match override_of(env_value) {
        Some(t) => Ok(t),
        None => stored_result(stored),
    }
}

/// Text of the `Authorization` header that carries `token`.
pub open spec fn authorization_text(token: Seq<char>) -> Seq<char> {
    TOKEN_SCHEME@ + token
}

/// Text of the `User-Agent` header for a build of the given version.
pub open spec fn user_agent_text(version: Seq<char>) -> Seq<char> {
    USER_AGENT_PRODUCT@ + version
}

/// Whether HTTP accepts `c` in a header value: a tab, or any character from
/// the space upwards other than DEL. Every byte of a character beyond ASCII
/// is at least 128, so such characters are accepted whole.
pub open spec fn header_char_ok(c: char) -> bool {
    c == '\t' || (c as u32 >= 32 && c as u32 != 127)
}

/// Whether HTTP accepts `s` as a header value.
pub open spec fn header_text_ok(s: Seq<char>) -> bool {
    forall|i: int| 0 <= i < s.len() ==> #[trigger] header_char_ok(s[i])
}

/// The header value that `text` becomes; depends on the text alone.
pub uninterp spec fn header_value_of(text: Seq<char>) -> reqwest::header::HeaderValue;

/// Relies on `reqwest::header::HeaderValue::from_str` (the `http` crate's),
/// which accepts a text exactly when each of its bytes is a tab or lies in
/// 32..=255 without 127, and then holds that text's bytes.
#[verifier::external_body]
fn parse_header_value(text: &str) -> (r: Result<
    reqwest::header::HeaderValue,
    reqwest::header::InvalidHeaderValue,
>)
    ensures
        r is Ok <==> header_text_ok(text@),
        r matches Ok(h) ==> h == header_value_of(text@),
{
    reqwest::header::HeaderValue::from_str(text)
}

/// The default headers of every authenticated client.
pub struct ClientHeaders {
    pub authorization: reqwest::header::HeaderValue,
    pub user_agent: reqwest::header::HeaderValue,
}

/// The override that takes precedence over the stored credential: the
/// environment's value when it is set and non-empty.
pub fn override_token(env_value: Option<String>) -> (r: Option<String>)
    ensures
        r == override_of(env_value),
{
    match env_value {
        Some(v) => if v.as_str().is_empty() {
            None
        } else {
            Some(v)
        },
        None => None,
    }
}

/// The credential that the stored file gives: its contents verbatim, or the
/// failure to locate or read it.
pub fn token_from_store(stored: StoredToken) -> (r: Result<String, AuthenticationError>)
    ensures
        r == stored_result(stored),
{
    match stored {
        StoredToken::MissingHomeDir => Err(AuthenticationError::MissingHomeDir),
        StoredToken::Unreadable(e) => Err(AuthenticationError::Io(e)),
        StoredToken::Contents(t) => Ok(t),
    }
}

/// Resolves the credential in force: a non-empty override wins, whatever the
/// file holds; otherwise the file decides.
pub fn resolve_token(env_value: Option<String>, stored: StoredToken) -> (r: Result<
    String,
    AuthenticationError,
>)
    ensures
        r == resolution(env_value, stored),
        override_of(env_value) is Some ==> r == Ok::<String, AuthenticationError>(
            env_value->0,
        ),
{
    match override_token(env_value) {
        Some(t) => Ok(t),
        None => token_from_store(stored),
    }
}

/// A non-empty override is the credential, whatever the stored file holds.
pub proof fn override_wins(env_value: String, a: StoredToken, b: StoredToken)
    requires
        env_value@.len() > 0,
    ensures
        resolution(Some(env_value), a) == Ok::<String, AuthenticationError>(env_value),
        resolution(Some(env_value), a) == resolution(Some(env_value), b),
{
}

/// Without an override, the stored contents are the credential, verbatim.
pub proof fn stored_token_used(env_value: Option<String>, contents: String)
    requires
        override_of(env_value) is None,
    ensures
        resolution(env_value, StoredToken::Contents(contents)) == Ok::<
            String,
            AuthenticationError,
        >(contents),
{
}

/// The value of the `Authorization` header that carries `token`.
pub fn authorization_value(token: &str) -> (r: String)
    ensures
        r@ == authorization_text(token@),
{
    let mut r = TOKEN_SCHEME.to_owned();
    r.append(token);
    r
}

/// The value of the `User-Agent` header for a build of the given version.
pub fn user_agent_value(version: &str) -> (r: String)
    ensures
        r@ == user_agent_text(version@),
{
    let mut r = USER_AGENT_PRODUCT.to_owned();
    r.append(version);
    r
}

/// The default headers of a client that signs every request with `token`.
/// Fails with `InvalidHeader` exactly when either text holds a byte that HTTP
/// refuses in a header value.
pub fn client_headers(token: &str, version: &str) -> (r: Result<ClientHeaders, AuthenticationError>)
    ensures
        r is Ok <==> header_text_ok(authorization_text(token@)) && header_text_ok(
            user_agent_text(version@),
        ),
        r is Err ==> r->Err_0 is InvalidHeader,
        r matches Ok(h) ==> h.authorization == header_value_of(authorization_text(token@))
            && h.user_agent == header_value_of(user_agent_text(version@)),
{
    let authorization = authorization_value(token);
    let authorization = match parse_header_value(authorization.as_str()) {
        Ok(v) => v,
        Err(e) => {
            return Err(AuthenticationError::InvalidHeader(e));
        },
    };
    let agent = user_agent_value(version);
    let user_agent = match parse_header_value(agent.as_str()) {
        Ok(v) => v,
        Err(e) => {
            return Err(AuthenticationError::InvalidHeader(e));
        },
    };
    Ok(ClientHeaders { authorization, user_agent })
}

/// How a verification probe ended.
pub open spec fn probe_result(status: u16) -> Result<(), AuthenticationError> {
    if status == STATUS_NOT_FOUND {
        Ok(())
    } else if status == STATUS_UNAUTHORIZED {
        Err(AuthenticationError::WrongCredentials)
    } else {
        Err(AuthenticationError::Unknown)
    }
}

/// Client state: where requests go.
pub struct Authentication {
    pub config: Config,
}

impl Authentication {
    /// Targets the production backend.
    pub fn new() -> (r: Self)
        ensures
            r.config.url@ == API_BASE_URL@,
    {
        Self { config: Config::default() }
    }

    /// Targets the backend that `config` names.
    pub fn new_with_config(config: Config) -> (r: Self)
        ensures
            r.config == config,
    {
        Self { config }
    }

    /// URL of the verification probe.
    pub fn probe_url(&self) -> (r: String)
        ensures
            r@ == self.config.url@ + PROBE_PATH@,
    {
        let mut r = self.config.url.clone();
        r.append(PROBE_PATH);
        r
    }

    /// How a probe answered with `status` ends: `404` means that the token
    /// authenticated against a resource that does not exist, `401` that it
    /// was refused; any other status is not understood.
    pub fn probe_outcome(status: u16) -> (r: Result<(), AuthenticationError>)
        ensures
            r == probe_result(status),
    {
        if status == STATUS_NOT_FOUND {
            Ok(())
        } else if status == STATUS_UNAUTHORIZED {
            Err(AuthenticationError::WrongCredentials)
        } else {
            Err(AuthenticationError::Unknown)
        }
    }

    /// What to write to the credential file once the probe of `token` has
    /// answered with `status`: the token verbatim when it was accepted, and
    /// nothing otherwise.
    pub fn token_to_store(token: &str, status: u16) -> (r: Result<String, AuthenticationError>)
        ensures
            r is Ok <==> status == STATUS_NOT_FOUND,
            r is Ok ==> r->Ok_0@ == token@,
            status == STATUS_UNAUTHORIZED ==> r matches Err(AuthenticationError::WrongCredentials),
            status != STATUS_NOT_FOUND && status != STATUS_UNAUTHORIZED ==> r matches Err(
                AuthenticationError::Unknown,
            ),
    {
        match Self::probe_outcome(status) {
            Ok(()) => Ok(token.to_owned()),
            Err(e) => Err(e),
        }
    }
}

} // verus!
