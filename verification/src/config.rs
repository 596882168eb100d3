//! Settings of the sink and of the buffer.

use crate::text::{parse_unsigned, parsed_unsigned, trim_text, trimmed};
use url::ParseError;
use vstd::prelude::*;
use vstd::string::*;
use vstd::utf8::*;

verus! {

/// Why an address is no absolute URL.
#[derive(Debug, Clone, Copy, PartialEq, Eq, Structural)]
pub enum UrlError {
    EmptyHost,
    IdnaError,
    InvalidPort,
    InvalidIpv4Address,
    InvalidIpv6Address,
    InvalidDomainCharacter,
    RelativeUrlWithoutBase,
    RelativeUrlWithCannotBeABaseBase,
    SetHostOnCannotBeABaseUrl,
    Overflow,
    /// An error that this list does not know.
    Other,
}

/// What `url::Url::parse` finds wrong with `input`; `None` where it reads
/// an absolute URL from it.
pub uninterp spec fn url_parse_failure(input: Seq<char>) -> Option<UrlError>;

/// Calls `url::Url::parse` and drops the URL. Trusted: whether the parse
/// fails, and with which of its errors, is what `url_parse_failure` names.
#[verifier::external_body]
fn parse_url(input: &str) -> (failure: Option<UrlError>)
    ensures
        failure == url_parse_failure(input@),
{
    match url::Url::parse(input) {
        Ok(_) => None,
        Err(ParseError::EmptyHost) => Some(UrlError::EmptyHost),
        Err(ParseError::IdnaError) => Some(UrlError::IdnaError),
        Err(ParseError::InvalidPort) => Some(UrlError::InvalidPort),
        Err(ParseError::InvalidIpv4Address) => Some(UrlError::InvalidIpv4Address),
        Err(ParseError::InvalidIpv6Address) => Some(UrlError::InvalidIpv6Address),
        Err(ParseError::InvalidDomainCharacter) => Some(UrlError::InvalidDomainCharacter),
        Err(ParseError::RelativeUrlWithoutBase) => Some(UrlError::RelativeUrlWithoutBase),
        Err(ParseError::RelativeUrlWithCannotBeABaseBase) => Some(UrlError::RelativeUrlWithCannotBeABaseBase),
        Err(ParseError::SetHostOnCannotBeABaseUrl) => Some(UrlError::SetHostOnCannotBeABaseUrl),
        Err(ParseError::Overflow) => Some(UrlError::Overflow),
        Err(_) => Some(UrlError::Other),
    }
}

/// Why settings are refused.
#[derive(Debug, Clone, Copy, PartialEq, Eq, Structural)]
pub enum ConfigError {
    /// `O2_ORGANIZATION_ID` is not set.
    MissingOrganizationId,
    /// `O2_AUTHORIZATION_HEADER` is not set.
    MissingAuthorizationHeader,
    /// `O2_MAX_BUFFER_SIZE_MB` is no unsigned number.
    InvalidMaxBufferSize,
    /// `O2_REQUEST_TIMEOUT_MS` is no unsigned number.
    InvalidRequestTimeout,
    /// `O2_MAX_RETRIES` is no unsigned number.
    InvalidMaxRetries,
    /// `O2_INITIAL_RETRY_DELAY_MS` is no unsigned number.
    InvalidInitialRetryDelay,
    /// `O2_MAX_RETRY_DELAY_MS` is no unsigned number.
    InvalidMaxRetryDelay,
    /// The endpoint is no absolute URL.
    InvalidEndpoint(UrlError),
    /// The organization is empty or blank.
    EmptyOrganizationId,
    /// The stream is empty or blank.
    EmptyStream,
    /// The authorization header is empty or blank.
    EmptyAuthorizationHeader,
    /// The buffer size is zero.
    ZeroMaxBufferSize,
    /// The request timeout is zero.
    ZeroRequestTimeout,
    /// The initial retry delay is above the largest one.
    RetryDelayConflict,
}

/// The settings as read from the environment, each one as it was found
/// there: `None` where the variable is not set.
#[derive(Debug, Clone, PartialEq, Eq)]
pub struct EnvVars {
    pub organization_id: Option<String>,
    pub authorization_header: Option<String>,
    pub endpoint: Option<String>,
    pub stream: Option<String>,
    pub max_buffer_size_mb: Option<String>,
    pub request_timeout_ms: Option<String>,
    pub max_retries: Option<String>,
    pub initial_retry_delay_ms: Option<String>,
    pub max_retry_delay_ms: Option<String>,
}

/// Whether text is empty once trimmed.
pub open spec fn is_blank(text: Seq<char>) -> bool {
    trimmed(text).len() == 0
}

/// The first fault of settings with these values, in the order in which
/// the values are checked.
pub open spec fn validation_error(
    endpoint: Seq<char>,
    organization_id: Seq<char>,
    stream: Seq<char>,
    authorization_header: Seq<char>,
    max_buffer_size_mb: nat,
    request_timeout_ms: nat,
    initial_retry_delay_ms: nat,
    max_retry_delay_ms: nat,
) -> Option<ConfigError> {
    if let Some(failure) = url_parse_failure(endpoint) {
        Some(ConfigError::InvalidEndpoint(failure))
    } else if is_blank(organization_id) {
        Some(ConfigError::EmptyOrganizationId)
    } else if is_blank(stream) {
        Some(ConfigError::EmptyStream)
    } else if is_blank(authorization_header) {
        Some(ConfigError::EmptyAuthorizationHeader)
    } else if max_buffer_size_mb == 0 {
        Some(ConfigError::ZeroMaxBufferSize)
    } else if request_timeout_ms == 0 {
        Some(ConfigError::ZeroRequestTimeout)
    } else if initial_retry_delay_ms > max_retry_delay_ms {
        Some(ConfigError::RetryDelayConflict)
    } else {
        None
    }
}

/// A value that may be given as text: the default where it is not given,
/// the number in the text where the text is one, else an error.
pub open spec fn numeric_setting(text: Option<String>, default: nat, max: nat) -> Option<nat> {
    match text {
        None => Some(default),
        Some(text) => parsed_unsigned(encode_utf8(text@), max),
    }
}

/// A text that may be given: the default where it is not.
pub open spec fn text_setting(text: Option<String>, default: Seq<char>) -> Seq<char> {
    match text {
        None => default,
        Some(text) => text@,
    }
}

impl EnvVars {
    /// The first fault of the settings, in the order in which they are
    /// read and then checked; `None` where they are accepted.
    pub open spec fn error(self) -> Option<ConfigError> {
        if self.organization_id is None {
            Some(ConfigError::MissingOrganizationId)
        } else if self.authorization_header is None {
            Some(ConfigError::MissingAuthorizationHeader)
        } else if numeric_setting(self.max_buffer_size_mb, 10, usize::MAX as nat) is None {
            Some(ConfigError::InvalidMaxBufferSize)
        } else if numeric_setting(self.request_timeout_ms, 30000, u64::MAX as nat) is None {
            Some(ConfigError::InvalidRequestTimeout)
        } else if numeric_setting(self.max_retries, 3, u32::MAX as nat) is None {
            Some(ConfigError::InvalidMaxRetries)
        } else if numeric_setting(self.initial_retry_delay_ms, 1000, u64::MAX as nat) is None {
            Some(ConfigError::InvalidInitialRetryDelay)
        } else if numeric_setting(self.max_retry_delay_ms, 30000, u64::MAX as nat) is None {
            Some(ConfigError::InvalidMaxRetryDelay)
        } else {
            validation_error(
                text_setting(self.endpoint, "https://api.openobserve.ai"@),
                self.organization_id->0@,
                text_setting(self.stream, "default"@),
                self.authorization_header->0@,
                numeric_setting(self.max_buffer_size_mb, 10, usize::MAX as nat)->0,
                numeric_setting(self.request_timeout_ms, 30000, u64::MAX as nat)->0,
                numeric_setting(self.initial_retry_delay_ms, 1000, u64::MAX as nat)->0,
                numeric_setting(self.max_retry_delay_ms, 30000, u64::MAX as nat)->0,
            )
        }
    }
}

fn numeric(text: &Option<String>, default: u64, max: u64) -> (value: Option<u64>)
    requires
        default <= max,
    ensures
        value == match numeric_setting(*text, default as nat, max as nat) {
            Some(number) => Some(number as u64),
            None => None,
        },
        value matches Some(number) ==> number <= max,
{
    match text {
        None => Some(default),
        Some(text) => parse_unsigned(text.as_str(), max),
    }
}

/// Where batches are sent, and how the sender and the buffer are tuned.
#[derive(Debug, Clone)]
pub struct Config {
    pub o2_endpoint: String,
    pub o2_organization_id: String,
    pub o2_stream: String,
    pub o2_authorization_header: String,
    /// Largest batch, in mebibytes.
    pub max_buffer_size_mb: usize,
    /// Time allowed for one request, in milliseconds.
    pub request_timeout_ms: u64,
    /// Attempts that may follow the first one.
    pub max_retries: u32,
    /// Delay before the first retry, in milliseconds.
    pub initial_retry_delay_ms: u64,
    /// Upper bound of the delay between retries, in milliseconds.
    pub max_retry_delay_ms: u64,
}

impl Default for Config {
    fn default() -> (config: Self)
        ensures
            config.o2_endpoint@ == "https://api.openobserve.ai"@,
            config.o2_organization_id@ == Seq::<char>::empty(),
            config.o2_stream@ == "default"@,
            config.o2_authorization_header@ == Seq::<char>::empty(),
            config.max_buffer_size_mb == 10,
            config.request_timeout_ms == 30000,
            config.max_retries == 3,
            config.initial_retry_delay_ms == 1000,
            config.max_retry_delay_ms == 30000,
    {
        Config {
            o2_endpoint: String::from_str("https://api.openobserve.ai"),
            o2_organization_id: String::new(),
            o2_stream: String::from_str("default"),
            o2_authorization_header: String::new(),
            max_buffer_size_mb: 10,
            request_timeout_ms: 30000,
            max_retries: 3,
            initial_retry_delay_ms: 1000,
            max_retry_delay_ms: 30000,
        }
    }
}

impl Config {
    /// Reads the settings from the values of the environment. The two
    /// required values must be there, the numbers must be numbers, and the
    /// settings as a whole must pass [`Config::validate`]. What is not given
    /// keeps its default.
    pub fn from_env(vars: EnvVars) -> (result: Result<Config, ConfigError>)
        ensures
            match result {
                Ok(config) => {
                    &&& vars.error() is None
                    &&& config.o2_organization_id == vars.organization_id->0
                    &&& config.o2_authorization_header == vars.authorization_header->0
                    &&& config.o2_endpoint@ == text_setting(
                        vars.endpoint,
                        "https://api.openobserve.ai"@,
                    )
                    &&& config.o2_stream@ == text_setting(vars.stream, "default"@)
                    &&& Some(config.max_buffer_size_mb as nat) == numeric_setting(
                        vars.max_buffer_size_mb,
                        10,
                        usize::MAX as nat,
                    )
                    &&& Some(config.request_timeout_ms as nat) == numeric_setting(
                        vars.request_timeout_ms,
                        30000,
                        u64::MAX as nat,
                    )
                    &&& Some(config.max_retries as nat) == numeric_setting(
                        vars.max_retries,
                        3,
                        u32::MAX as nat,
                    )
                    &&& Some(config.initial_retry_delay_ms as nat) == numeric_setting(
                        vars.initial_retry_delay_ms,
                        1000,
                        u64::MAX as nat,
                    )
                    &&& Some(config.max_retry_delay_ms as nat) == numeric_setting(
                        vars.max_retry_delay_ms,
                        30000,
                        u64::MAX as nat,
                    )
                    &&& config.validation_error() is None
                },
                Err(error) => vars.error() == Some(error),
            },
    {
        let o2_organization_id = match vars.organization_id {
            Some(value) => value,
            None => {
                return Err(ConfigError::MissingOrganizationId);
            },
        };
        let o2_authorization_header = match vars.authorization_header {
            Some(value) => value,
            None => {
                return Err(ConfigError::MissingAuthorizationHeader);
            },
        };
        let o2_endpoint = match vars.endpoint {
            Some(value) => value,
            None => String::from_str("https://api.openobserve.ai"),
        };
        let o2_stream = match vars.stream {
            Some(value) => value,
            None => String::from_str("default"),
        };
        let max_buffer_size_mb = match numeric(&vars.max_buffer_size_mb, 10, usize::MAX as u64) {
            Some(value) => value as usize,
            None => {
                return Err(ConfigError::InvalidMaxBufferSize);
            },
        };
        let request_timeout_ms = match numeric(&vars.request_timeout_ms, 30000, u64::MAX) {
            Some(value) => value,
            None => {
                return Err(ConfigError::InvalidRequestTimeout);
            },
        };
        let max_retries = match numeric(&vars.max_retries, 3, u32::MAX as u64) {
            Some(value) => value as u32,
            None => {
                return Err(ConfigError::InvalidMaxRetries);
            },
        };
        let initial_retry_delay_ms = match numeric(&vars.initial_retry_delay_ms, 1000, u64::MAX) {
            Some(value) => value,
            None => {
                return Err(ConfigError::InvalidInitialRetryDelay);
            },
        };
        let max_retry_delay_ms = match numeric(&vars.max_retry_delay_ms, 30000, u64::MAX) {
            Some(value) => value,
            None => {
                return Err(ConfigError::InvalidMaxRetryDelay);
            },
        };
        let config = Config {
            o2_endpoint,
            o2_organization_id,
            o2_stream,
            o2_authorization_header,
            max_buffer_size_mb,
            request_timeout_ms,
            max_retries,
            initial_retry_delay_ms,
            max_retry_delay_ms,
        };
        match config.validate() {
            Ok(()) => Ok(config),
            Err(error) => Err(error),
        }
    }

    /// The first fault of the settings; `None` where they are usable.
    pub open spec fn validation_error(&self) -> Option<ConfigError> {
        validation_error(
            self.o2_endpoint@,
            self.o2_organization_id@,
            self.o2_stream@,
            self.o2_authorization_header@,
            self.max_buffer_size_mb as nat,
            self.request_timeout_ms as nat,
            self.initial_retry_delay_ms as nat,
            self.max_retry_delay_ms as nat,
        )
    }

    /// Checks the settings: the endpoint is an absolute URL, organization,
    /// stream and authorization header are not blank, buffer size and
    /// request timeout are not zero, and the initial retry delay is not
    /// above the largest one. The first check that fails gives the error.
    pub fn validate(&self) -> (result: Result<(), ConfigError>)
        ensures
            result == match self.validation_error() {
                Some(error) => Err::<(), ConfigError>(error),
                None => Ok(()),
            },
    {
        if let Some(failure) = parse_url(self.o2_endpoint.as_str()) {
            return Err(ConfigError::InvalidEndpoint(failure));
        }
        if trim_text(self.o2_organization_id.as_str()).is_empty() {
            return Err(ConfigError::EmptyOrganizationId);
        }
        if trim_text(self.o2_stream.as_str()).is_empty() {
            return Err(ConfigError::EmptyStream);
        }
        if trim_text(self.o2_authorization_header.as_str()).is_empty() {
            return Err(ConfigError::EmptyAuthorizationHeader);
        }
        if self.max_buffer_size_mb == 0 {
            return Err(ConfigError::ZeroMaxBufferSize);
        }
        if self.request_timeout_ms == 0 {
            return Err(ConfigError::ZeroRequestTimeout);
        }
        if self.initial_retry_delay_ms > self.max_retry_delay_ms {
            return Err(ConfigError::RetryDelayConflict);
        }
        Ok(())
    }

    /// The address that batches are posted to.
    pub open spec fn spec_openobserve_url(&self) -> Seq<char> {
        self.o2_endpoint@ + "/api/"@ + self.o2_organization_id@ + "/"@ + self.o2_stream@
            + "/_json"@
    }

    /// The address that batches are posted to:
    /// `{endpoint}/api/{organization}/{stream}/_json`.
    pub fn openobserve_url(&self) -> (url: String)
        ensures
            url@ == self.spec_openobserve_url(),
    {
        let mut url = self.o2_endpoint.clone();
        url.append("/api/");
        url.append(self.o2_organization_id.as_str());
        url.append("/");
        url.append(self.o2_stream.as_str());
        url.append("/_json");
        url
    }

    /// The largest batch in bytes.
    pub fn max_buffer_size_bytes(&self) -> (bytes: usize)
        requires
            self.max_buffer_size_mb * 1024 * 1024 <= usize::MAX,
        ensures
            bytes == self.max_buffer_size_mb * 1024 * 1024,
    {
        self.max_buffer_size_mb * 1024 * 1024
    }
}

} // verus!
