use sandbox_api::config::Config;
use sandbox_api::error::Error;

#[test]
fn default_config() {
    let config = Config::default();
    assert_eq!(config.host, "0.0.0.0");
    assert_eq!(config.port, "5678");
    assert_eq!(config.request_timeout, 30);
    assert_eq!(config.database_timeout, 60);
    assert!(config.database_url.is_empty());
    assert!(config.auth0_domain.is_empty());
    assert_eq!(config.rate_limit_capacity, 100);
    assert_eq!(config.rate_limit_fill_rate, 1);
    assert_eq!(config.rate_limit_take_rate, 1);
}

#[test]
fn config_builds_limiter_and_client() {
    let mut config = Config::default();
    config.rate_limit_capacity = 1;
    config.auth0_domain = "idp.example.com".to_string();
    let limiter = config.rate_limiter();
    assert!(limiter.allow_at(1, 0));
    assert!(!limiter.allow_at(1, 0));
    let client = config.auth0_client();
    assert_eq!(client.jwks_url(), "https://idp.example.com/.well-known/jwks.json");
    assert!(client.lookup("any").is_none());
}

#[test]
fn status_codes() {
    assert_eq!(Error::Unauthorized.status_code(), 401);
    assert_eq!(Error::Forbidden.status_code(), 403);
    assert_eq!(Error::NotFound.status_code(), 404);
    assert_eq!(Error::TooManyRequests.status_code(), 429);
    assert_eq!(Error::Auth0.status_code(), 500);
    assert_eq!(Error::MissingKeyId.status_code(), 500);
    assert_eq!(Error::Store.status_code(), 500);
    assert_eq!(Error::MalformedKeySet.status_code(), 500);
    assert!(Error::Store.is_internal());
    assert!(!Error::Forbidden.is_internal());
}
