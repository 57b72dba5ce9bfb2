use spacetrader::configuration::{
    ConfigError, ConfigurationFactory, ContentLengthFixMiddleware, RequestShape,
};
use spacetrader::limiter::{RATE_TTL_MILLIS, RPS};
use spacetrader::retry::DEFAULT_MAX_RETRIES;

#[test]
fn get_config_carries_token_and_defaults() {
    let config = ConfigurationFactory::get_config("test-token");
    assert_eq!(config.bearer_access_token, Some("test-token".to_owned()));
    assert_eq!(config.budget.max_requests, RPS);
    assert_eq!(config.budget.window_millis, RATE_TTL_MILLIS);
    assert_eq!(config.retry.max_retries, DEFAULT_MAX_RETRIES);
}

#[test]
fn missing_token_is_a_startup_error() {
    let r = ConfigurationFactory::get_config_checked(None, RPS, RATE_TTL_MILLIS);
    assert!(matches!(r, Err(ConfigError::MissingToken)));
    let r = ConfigurationFactory::get_config_checked(Some("tok".to_owned()), RPS, RATE_TTL_MILLIS);
    assert!(r.is_ok());
}

#[test]
fn zero_knobs_are_a_startup_error() {
    let r = ConfigurationFactory::get_config_checked(Some("tok".to_owned()), 0, RATE_TTL_MILLIS);
    assert!(matches!(r, Err(ConfigError::InvalidRateBudget)));
    let r = ConfigurationFactory::get_config_checked(Some("tok".to_owned()), RPS, 0);
    assert!(matches!(r, Err(ConfigError::InvalidRateBudget)));
}

#[test]
fn bodiless_request_gains_content_length() {
    let fixed = ContentLengthFixMiddleware::handle(RequestShape {
        has_body: false,
        has_content_length: false,
    });
    assert!(fixed.has_content_length);
    assert!(!fixed.has_body);
}

#[test]
fn other_requests_pass_unchanged() {
    let with_body = RequestShape { has_body: true, has_content_length: false };
    assert_eq!(ContentLengthFixMiddleware::handle(with_body), with_body);
    let with_header = RequestShape { has_body: false, has_content_length: true };
    assert_eq!(ContentLengthFixMiddleware::handle(with_header), with_header);
}
