//! Client configuration: where the service lives and how it is addressed.

use std::time::Duration;
use vstd::prelude::*;
use vstd::string::StringExecFns;

verus! {

/// Default base URL for the API.
pub const DEFAULT_BASE_URL: &'static str = "https://s.ee";

/// Default user agent string.
pub const DEFAULT_USER_AGENT: &'static str = "see-rust-sdk/0.1.0";

/// Default timeout in seconds.
pub const DEFAULT_TIMEOUT_SECS: u64 = 30;

/// Default maximum retry attempts.
pub const DEFAULT_MAX_RETRIES: u32 = 3;

/// Default domain for shortened URLs.
pub const DEFAULT_DOMAIN: &'static str = "s.ee";

/// The duration that lasts exactly `secs` whole seconds.
pub uninterp spec fn whole_seconds(secs: u64) -> Duration;

/// `Duration::from_secs`: the duration of the given number of whole seconds.
#[verifier::external_body]
fn duration_from_secs(secs: u64) -> (d: Duration)
    ensures
        d == whole_seconds(secs),
{
    Duration::from_secs(secs)
}

/// `Clone` for `Duration`, which is `Copy`: the clone is the value itself.
pub assume_specification[ <Duration as Clone>::clone ](d: &Duration) -> (r: Duration)
    ensures
        r == *d,
;

/// Client configuration for the service.
#[derive(Debug, Clone)]
pub struct Config {
    pub base_url: String,
    pub api_key: Option<String>,
    pub timeout: Duration,
    pub user_agent: String,
    pub max_retries: u32,
}

/// A configuration as contracts see it.
pub struct ConfigView {
    pub base_url: Seq<char>,
    pub api_key: Option<Seq<char>>,
    pub timeout: Duration,
    pub user_agent: Seq<char>,
    pub max_retries: u32,
}

impl ConfigView {
    /// The configuration that, but for the base URL, sets nothing: no API
    /// key, the default timeout, user agent and number of retries.
    pub open spec fn bare(base_url: Seq<char>) -> ConfigView {
        ConfigView {
            base_url,
            api_key: None,
            timeout: whole_seconds(DEFAULT_TIMEOUT_SECS),
            user_agent: DEFAULT_USER_AGENT@,
            max_retries: DEFAULT_MAX_RETRIES,
        }
    }
}

impl View for Config {
    type V = ConfigView;

    open spec fn view(&self) -> ConfigView {
        ConfigView {
            base_url: self.base_url@,
            api_key: self.api_key.deep_view(),
            timeout: self.timeout,
            user_agent: self.user_agent@,
            max_retries: self.max_retries,
        }
    }
}

impl Default for Config {
    /// The configuration for the default endpoint, with nothing else set.
    fn default() -> (r: Self)
        ensures
            r@ == ConfigView::bare(DEFAULT_BASE_URL@),
    {
        Config::new(DEFAULT_BASE_URL)
    }
}

impl Config {
    /// A configuration for the service at `base_url`, with nothing else set.
    /// Paths are appended to `base_url` as they are, so it ends without a slash.
    pub fn new(base_url: &str) -> (r: Self)
        ensures
            r@ == ConfigView::bare(base_url@),
    {
        Config {
            base_url: String::from_str(base_url),
            api_key: None,
            timeout: duration_from_secs(DEFAULT_TIMEOUT_SECS),
            user_agent: String::from_str(DEFAULT_USER_AGENT),
            max_retries: DEFAULT_MAX_RETRIES,
        }
    }

    /// Sets the API key, which goes out as it is in the `Authorization` header.
    pub fn with_api_key(self, api_key: &str) -> (r: Self)
        ensures
            r@ == (ConfigView { api_key: Some(api_key@), ..self@ }),
    {
        let mut config = self;
        config.api_key = Some(String::from_str(api_key));
        config
    }

    /// Sets the time after which a request is given up.
    pub fn with_timeout(self, timeout: Duration) -> (r: Self)
        ensures
            r@ == (ConfigView { timeout, ..self@ }),
    {
        let mut config = self;
        config.timeout = timeout;
        config
    }

    /// Sets the user agent.
    pub fn with_user_agent(self, user_agent: &str) -> (r: Self)
        ensures
            r@ == (ConfigView { user_agent: user_agent@, ..self@ }),
    {
        let mut config = self;
        config.user_agent = String::from_str(user_agent);
        config
    }

    /// Sets the number of times a caller may try a request again. The
    /// client itself never retries: the number is kept for the caller.
    pub fn with_max_retries(self, max_retries: u32) -> (r: Self)
        ensures
            r@ == (ConfigView { max_retries, ..self@ }),
    {
        let mut config = self;
        config.max_retries = max_retries;
        config
    }
}

} // verus!
