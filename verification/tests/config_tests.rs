use o2_lambda_extension::config::{Config, ConfigError, EnvVars, UrlError};
use o2_lambda_extension::text::parse_unsigned;

fn no_vars() -> EnvVars {
    EnvVars {
        organization_id: None,
        authorization_header: None,
        endpoint: None,
        stream: None,
        max_buffer_size_mb: None,
        request_timeout_ms: None,
        max_retries: None,
        initial_retry_delay_ms: None,
        max_retry_delay_ms: None,
    }
}

fn required_vars() -> EnvVars {
    EnvVars {
        organization_id: Some("test_org".to_string()),
        authorization_header: Some("Basic dGVzdDp0ZXN0".to_string()),
        ..no_vars()
    }
}

fn valid_config() -> Config {
    Config {
        o2_organization_id: "my_org".to_string(),
        o2_authorization_header: "Basic dGVzdA==".to_string(),
        ..Default::default()
    }
}

#[test]
fn test_config_validation() {
    let config = Config::from_env(required_vars()).expect("Config should be valid");

    assert_eq!(config.o2_organization_id, "test_org");
    assert_eq!(config.o2_authorization_header, "Basic dGVzdDp0ZXN0");
    assert_eq!(config.o2_endpoint, "https://api.openobserve.ai");
    assert_eq!(config.o2_stream, "default");
}

#[test]
fn test_openobserve_url() {
    let config = Config {
        o2_endpoint: "https://api.openobserve.ai".to_string(),
        o2_organization_id: "my_org".to_string(),
        o2_stream: "my_stream".to_string(),
        ..Default::default()
    };

    assert_eq!(
        config.openobserve_url(),
        "https://api.openobserve.ai/api/my_org/my_stream/_json"
    );
}

#[test]
fn test_url_construction_documentation() {
    println!("URL format: {{endpoint}}/api/{{org}}/{{stream}}/_json");
    println!("Example: https://api.openobserve.ai/api/my_org/default/_json");
    let config = Config { o2_organization_id: "my_org".to_string(), ..Default::default() };
    assert_eq!(config.openobserve_url(), "https://api.openobserve.ai/api/my_org/default/_json");
}

#[test]
fn default_config_has_documented_values() {
    let config = Config::default();
    assert_eq!(config.o2_endpoint, "https://api.openobserve.ai");
    assert_eq!(config.o2_organization_id, "");
    assert_eq!(config.o2_stream, "default");
    assert_eq!(config.o2_authorization_header, "");
    assert_eq!(config.max_buffer_size_mb, 10);
    assert_eq!(config.request_timeout_ms, 30000);
    assert_eq!(config.max_retries, 3);
    assert_eq!(config.initial_retry_delay_ms, 1000);
    assert_eq!(config.max_retry_delay_ms, 30000);
}

#[test]
fn max_buffer_size_is_in_bytes() {
    assert_eq!(Config::default().max_buffer_size_bytes(), 10 * 1024 * 1024);
    let one = Config { max_buffer_size_mb: 1, ..Default::default() };
    assert_eq!(one.max_buffer_size_bytes(), 1_048_576);
    let none = Config { max_buffer_size_mb: 0, ..Default::default() };
    assert_eq!(none.max_buffer_size_bytes(), 0);
}

#[test]
fn validate_accepts_usable_settings() {
    assert_eq!(valid_config().validate(), Ok(()));
    let local = Config { o2_endpoint: "http://localhost:5080".to_string(), ..valid_config() };
    assert_eq!(local.validate(), Ok(()));
    let equal_delays =
        Config { initial_retry_delay_ms: 500, max_retry_delay_ms: 500, ..valid_config() };
    assert_eq!(equal_delays.validate(), Ok(()));
}

#[test]
fn validate_rejects_an_endpoint_that_is_no_absolute_url() {
    let relative = Config { o2_endpoint: "invalid-url".to_string(), ..valid_config() };
    assert_eq!(
        relative.validate(),
        Err(ConfigError::InvalidEndpoint(UrlError::RelativeUrlWithoutBase))
    );
    let no_host = Config { o2_endpoint: "http://".to_string(), ..valid_config() };
    assert_eq!(no_host.validate(), Err(ConfigError::InvalidEndpoint(UrlError::EmptyHost)));
    let bad_port = Config { o2_endpoint: "http://localhost:99999".to_string(), ..valid_config() };
    assert_eq!(bad_port.validate(), Err(ConfigError::InvalidEndpoint(UrlError::InvalidPort)));
    let bad_v6 = Config { o2_endpoint: "http://[::1".to_string(), ..valid_config() };
    assert_eq!(bad_v6.validate(), Err(ConfigError::InvalidEndpoint(UrlError::InvalidIpv6Address)));
}

#[test]
fn validate_tells_the_faults_of_a_host_apart() {
    let faulty = |endpoint: &str| {
        Config { o2_endpoint: endpoint.to_string(), ..valid_config() }.validate().unwrap_err()
    };
    assert_eq!(faulty("http://exa mple.com"), ConfigError::InvalidEndpoint(UrlError::IdnaError));
    assert_eq!(
        faulty("custom://exa^mple.com"),
        ConfigError::InvalidEndpoint(UrlError::InvalidDomainCharacter)
    );
    assert_eq!(
        faulty("http://256.256.256.256"),
        ConfigError::InvalidEndpoint(UrlError::InvalidIpv4Address)
    );
    assert_eq!(faulty("http://xn--.com"), ConfigError::InvalidEndpoint(UrlError::IdnaError));
}

#[test]
fn validate_rejects_blank_texts() {
    let config = Config { o2_organization_id: "   ".to_string(), ..valid_config() };
    assert_eq!(config.validate(), Err(ConfigError::EmptyOrganizationId));
    let config = Config { o2_organization_id: String::new(), ..valid_config() };
    assert_eq!(config.validate(), Err(ConfigError::EmptyOrganizationId));
    let config = Config { o2_stream: "\t\n".to_string(), ..valid_config() };
    assert_eq!(config.validate(), Err(ConfigError::EmptyStream));
    let config = Config { o2_authorization_header: "\u{a0} ".to_string(), ..valid_config() };
    assert_eq!(config.validate(), Err(ConfigError::EmptyAuthorizationHeader));
    let padded = Config { o2_organization_id: "  org  ".to_string(), ..valid_config() };
    assert_eq!(padded.validate(), Ok(()));
}

#[test]
fn validate_rejects_bad_numbers() {
    let config = Config { max_buffer_size_mb: 0, ..valid_config() };
    assert_eq!(config.validate(), Err(ConfigError::ZeroMaxBufferSize));
    let config = Config { request_timeout_ms: 0, ..valid_config() };
    assert_eq!(config.validate(), Err(ConfigError::ZeroRequestTimeout));
    let config =
        Config { initial_retry_delay_ms: 5000, max_retry_delay_ms: 1000, ..valid_config() };
    assert_eq!(config.validate(), Err(ConfigError::RetryDelayConflict));
}

#[test]
fn validate_reports_the_first_fault() {
    let config = Config {
        o2_endpoint: "not-a-url".to_string(),
        o2_organization_id: String::new(),
        max_buffer_size_mb: 0,
        ..Default::default()
    };
    assert_eq!(
        config.validate(),
        Err(ConfigError::InvalidEndpoint(UrlError::RelativeUrlWithoutBase))
    );
    let config = Config { o2_stream: String::new(), request_timeout_ms: 0, ..valid_config() };
    assert_eq!(config.validate(), Err(ConfigError::EmptyStream));
}

#[test]
fn from_env_requires_organization_and_authorization() {
    assert_eq!(Config::from_env(no_vars()).unwrap_err(), ConfigError::MissingOrganizationId);
    let vars = EnvVars { organization_id: Some("test_org".to_string()), ..no_vars() };
    assert_eq!(Config::from_env(vars).unwrap_err(), ConfigError::MissingAuthorizationHeader);
    let vars = EnvVars { authorization_header: Some("Basic dGVzdA==".to_string()), ..no_vars() };
    assert_eq!(Config::from_env(vars).unwrap_err(), ConfigError::MissingOrganizationId);
}

#[test]
fn from_env_takes_custom_values() {
    let vars = EnvVars {
        organization_id: Some("custom_org".to_string()),
        authorization_header: Some("Bearer custom_token".to_string()),
        endpoint: Some("https://custom.openobserve.ai".to_string()),
        stream: Some("custom_stream".to_string()),
        max_buffer_size_mb: Some("20".to_string()),
        request_timeout_ms: Some("15000".to_string()),
        max_retries: Some("5".to_string()),
        initial_retry_delay_ms: Some("500".to_string()),
        max_retry_delay_ms: Some("+60000".to_string()),
    };
    let config = Config::from_env(vars).unwrap();
    assert_eq!(config.o2_organization_id, "custom_org");
    assert_eq!(config.o2_authorization_header, "Bearer custom_token");
    assert_eq!(config.o2_endpoint, "https://custom.openobserve.ai");
    assert_eq!(config.o2_stream, "custom_stream");
    assert_eq!(config.max_buffer_size_mb, 20);
    assert_eq!(config.request_timeout_ms, 15000);
    assert_eq!(config.max_retries, 5);
    assert_eq!(config.initial_retry_delay_ms, 500);
    assert_eq!(config.max_retry_delay_ms, 60000);
    assert_eq!(
        config.openobserve_url(),
        "https://custom.openobserve.ai/api/custom_org/custom_stream/_json"
    );
}

#[test]
fn from_env_rejects_texts_that_are_no_numbers() {
    let vars = EnvVars { max_buffer_size_mb: Some("abc".to_string()), ..required_vars() };
    assert_eq!(Config::from_env(vars).unwrap_err(), ConfigError::InvalidMaxBufferSize);
    let vars = EnvVars { request_timeout_ms: Some("-5".to_string()), ..required_vars() };
    assert_eq!(Config::from_env(vars).unwrap_err(), ConfigError::InvalidRequestTimeout);
    let vars = EnvVars { max_retries: Some("abc".to_string()), ..required_vars() };
    assert_eq!(Config::from_env(vars).unwrap_err(), ConfigError::InvalidMaxRetries);
    let vars = EnvVars { max_retries: Some("4294967296".to_string()), ..required_vars() };
    assert_eq!(Config::from_env(vars).unwrap_err(), ConfigError::InvalidMaxRetries);
    let vars = EnvVars { initial_retry_delay_ms: Some(" 5".to_string()), ..required_vars() };
    assert_eq!(Config::from_env(vars).unwrap_err(), ConfigError::InvalidInitialRetryDelay);
    let vars = EnvVars { max_retry_delay_ms: Some(String::new()), ..required_vars() };
    assert_eq!(Config::from_env(vars).unwrap_err(), ConfigError::InvalidMaxRetryDelay);
}

#[test]
fn from_env_validates_what_it_read() {
    let vars = EnvVars { endpoint: Some("invalid-url".to_string()), ..required_vars() };
    assert_eq!(
        Config::from_env(vars).unwrap_err(),
        ConfigError::InvalidEndpoint(UrlError::RelativeUrlWithoutBase)
    );
    let vars = EnvVars { max_buffer_size_mb: Some("0".to_string()), ..required_vars() };
    assert_eq!(Config::from_env(vars).unwrap_err(), ConfigError::ZeroMaxBufferSize);
    let vars = EnvVars { request_timeout_ms: Some("0".to_string()), ..required_vars() };
    assert_eq!(Config::from_env(vars).unwrap_err(), ConfigError::ZeroRequestTimeout);
    let vars = EnvVars {
        initial_retry_delay_ms: Some("5000".to_string()),
        max_retry_delay_ms: Some("1000".to_string()),
        ..required_vars()
    };
    assert_eq!(Config::from_env(vars).unwrap_err(), ConfigError::RetryDelayConflict);
    let vars = EnvVars { organization_id: Some(" ".to_string()), ..required_vars() };
    assert_eq!(Config::from_env(vars).unwrap_err(), ConfigError::EmptyOrganizationId);
    let vars = EnvVars { stream: Some(String::new()), ..required_vars() };
    assert_eq!(Config::from_env(vars).unwrap_err(), ConfigError::EmptyStream);
    let vars = EnvVars { authorization_header: Some(String::new()), ..required_vars() };
    assert_eq!(Config::from_env(vars).unwrap_err(), ConfigError::EmptyAuthorizationHeader);
}

#[test]
fn parse_unsigned_reads_decimal_numbers() {
    assert_eq!(parse_unsigned("0", 10), Some(0));
    assert_eq!(parse_unsigned("7", 10), Some(7));
    assert_eq!(parse_unsigned("10", 10), Some(10));
    assert_eq!(parse_unsigned("+10", 10), Some(10));
    assert_eq!(parse_unsigned("007", 10), Some(7));
    assert_eq!(parse_unsigned("18446744073709551615", u64::MAX), Some(u64::MAX));
    assert_eq!(parse_unsigned("4294967295", 4294967295), Some(4294967295));
}

#[test]
fn parse_unsigned_rejects_everything_else() {
    assert_eq!(parse_unsigned("", 10), None);
    assert_eq!(parse_unsigned("+", 10), None);
    assert_eq!(parse_unsigned("11", 10), None);
    assert_eq!(parse_unsigned("-1", 10), None);
    assert_eq!(parse_unsigned("++1", 10), None);
    assert_eq!(parse_unsigned("1 ", 10), None);
    assert_eq!(parse_unsigned(" 1", 10), None);
    assert_eq!(parse_unsigned("1_0", 10), None);
    assert_eq!(parse_unsigned("1.0", 10), None);
    assert_eq!(parse_unsigned("\u{661}", 10), None);
    assert_eq!(parse_unsigned("18446744073709551616", u64::MAX), None);
    assert_eq!(parse_unsigned("99999999999999999999999", u64::MAX), None);
    assert_eq!(parse_unsigned("4294967296", 4294967295), None);
}

#[test]
fn parse_unsigned_agrees_with_the_standard_parser() {
    let texts = [
        "", "+", "-", "0", "+0", "-0", "00", "42", "+42", "4 2", "42x", "x42", "0x10",
        "18446744073709551615", "18446744073709551616", "184467440737095516150", "1e3", "١٢",
    ];
    for text in texts {
        assert_eq!(parse_unsigned(text, u64::MAX), text.parse::<u64>().ok(), "{text:?}");
        assert_eq!(
            parse_unsigned(text, u32::MAX as u64),
            text.parse::<u32>().ok().map(u64::from),
            "{text:?}"
        );
    }
}
