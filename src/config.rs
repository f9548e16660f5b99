use crate::auth0::Client;
use crate::ratelimit::RateLimiter;
use vstd::prelude::*;

verus! {

/// Application settings. Durations are whole seconds.
#[derive(Debug, Clone)]
pub struct Config {
    /// The address the server binds to.
    pub host: String,
    /// The port the server binds to.
    pub port: String,
    /// How long a request may take.
    pub request_timeout: u64,
    /// The database connection string.
    pub database_url: String,
    /// How long connecting to the database may take.
    pub database_timeout: u64,
    /// The payment provider's secret key.
    pub stripe_secret_key: String,
    /// The payment provider's webhook secret.
    pub stripe_webhook_secret: String,
    /// The identity provider's domain.
    pub auth0_domain: String,
    /// The client identifier at the identity provider.
    pub auth0_client_id: String,
    /// The client secret at the identity provider.
    pub auth0_client_secret: String,
    /// The capacity of each client's token bucket.
    pub rate_limit_capacity: u8,
    /// Tokens added to a bucket per elapsed second.
    pub rate_limit_fill_rate: u8,
    /// Tokens paid per admitted request.
    pub rate_limit_take_rate: u8,
}

impl Default for Config {
    /// Binds to 0.0.0.0:5678 with a 30 s request and a 60 s database
    /// timeout, buckets of 100 tokens refilling 1 per second at 1 per
    /// request, and every secret and location empty.
    fn default() -> (r: Self)
        ensures
            r.host@ == "0.0.0.0"@,
            r.port@ == "5678"@,
            r.request_timeout == 30,
            r.database_url@.len() == 0,
            r.database_timeout == 60,
            r.stripe_secret_key@.len() == 0,
            r.stripe_webhook_secret@.len() == 0,
            r.auth0_domain@.len() == 0,
            r.auth0_client_id@.len() == 0,
            r.auth0_client_secret@.len() == 0,
            r.rate_limit_capacity == 100,
            r.rate_limit_fill_rate == 1,
            r.rate_limit_take_rate == 1,
    {
        Config {
            host: String::from_str("0.0.0.0"),
            port: String::from_str("5678"),
            request_timeout: 30,
            database_url: String::new(),
            database_timeout: 60,
            stripe_secret_key: String::new(),
            stripe_webhook_secret: String::new(),
            auth0_domain: String::new(),
            auth0_client_id: String::new(),
            auth0_client_secret: String::new(),
            rate_limit_capacity: 100,
            rate_limit_fill_rate: 1,
            rate_limit_take_rate: 1,
        }
    }
}

impl Config {
    /// A rate limiter with the configured bucket capacity and rates.
    pub fn rate_limiter(&self) -> (r: RateLimiter)
        ensures
            r.spec_capacity() == self.rate_limit_capacity,
            r.spec_fill_rate() == self.rate_limit_fill_rate,
            r.spec_take_rate() == self.rate_limit_take_rate,
    {
        RateLimiter::new(self.rate_limit_capacity, self.rate_limit_fill_rate, self.rate_limit_take_rate)
    }

    /// An identity-provider client for the configured domain and
    /// credentials, with no signing keys yet.
    pub fn auth0_client(&self) -> (r: Client)
        ensures
            r.spec_domain() == self.auth0_domain@,
            r.spec_client_id() == self.auth0_client_id@,
            r.spec_client_secret() == self.auth0_client_secret@,
            r.spec_keys().is_empty(),
    {
        Client::new(
            self.auth0_domain.clone(),
            self.auth0_client_id.clone(),
            self.auth0_client_secret.clone(),
        )
    }
}

} // verus!
