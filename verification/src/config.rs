//! Link configuration, consumed from an external key-value source, and its
//! validation.
//!
//! A configuration is rejected before any connection attempt if the URL fails
//! to parse, the scheme is not one of the two supported WebSocket schemes,
//! the subject is unusable, or the reconnection interval is zero.

use vstd::prelude::*;
use vstd::string::*;

use crate::error::ConfigError;

verus! {

/// The scheme of the URL that `url::Url::parse` would yield for the given
/// string: `None` if parsing fails, otherwise the scheme, lower-cased and
/// without the `:` delimiter.
pub uninterp spec fn url_scheme_of(s: Seq<char>) -> Option<Seq<char>>;

/// Relies on `url::Url::parse` and `url::Url::scheme`: parsing is a pure
/// function of the input string, and on success `scheme` returns the parsed
/// URL's scheme, lower-cased, as an ASCII string without the `:` delimiter.
#[verifier::external_body]
pub(crate) fn parse_url_scheme(s: &str) -> (r: Option<String>)
    ensures
        match r {
            Some(sch) => url_scheme_of(s@) == Some(sch@),
            None => url_scheme_of(s@) is None,
        },
{
    match url::Url::parse(s) {
        Ok(u) => Some(u.scheme().to_string()),
        Err(_) => None,
    }
}

/// Whether the scheme selects one of the two supported transports:
/// `ws` (plaintext) or `wss` (TLS).
pub open spec fn scheme_supported(sch: Seq<char>) -> bool {
    sch == "ws"@ || sch == "wss"@
}

/// Whether the character sequence contains a space.
pub open spec fn seq_has_space(s: Seq<char>) -> bool {
    exists|j: int| 0 <= j < s.len() && s[j] == ' '
}

/// Whether the string contains a space character.
fn contains_space(s: &str) -> (b: bool)
    ensures
        b == seq_has_space(s@),
{
    let n = s.unicode_len();
    let mut i: usize = 0;
    while i < n
        invariant
            n == s@.len(),
            i <= n,
            forall|j: int| 0 <= j < i ==> s@[j] != ' ',
        decreases n - i,
    {
        if s.get_char(i) == ' ' {
            proof {
                assert(s@[i as int] == ' ');
            }
            return true;
        }
        i = i + 1;
    }
    false
}

/// Configuration for one WebSocket link, as consumed from the external
/// key-value source.
#[derive(Clone, Debug)]
pub struct ProviderConfig {
    /// WebSocket server URL (`ws://` or `wss://`).
    pub websocket_url: String,
    /// Subject under which received messages are published downstream.
    pub nats_subject: String,
    /// Reconnection attempt interval in seconds.
    pub reconnect_interval_secs: u64,
    /// Maximum reconnection attempts (0 = unbounded).
    pub max_reconnect_attempts: u32,
    /// Whether to verify TLS certificates for `wss://` connections.
    pub tls_verification: bool,
}

/// Default reconnection interval in seconds.
pub fn default_reconnect_interval() -> (r: u64)
    ensures
        r == 5,
{
    5
}

/// Default for flags that are on unless configured off.
pub fn default_true() -> (r: bool)
    ensures
        r,
{
    true
}

impl ProviderConfig {
    /// A configuration for the given URL and subject, every other setting at
    /// its default.
    pub fn new(websocket_url: String, nats_subject: String) -> (c: Self)
        ensures
            c == (ProviderConfig {
                websocket_url,
                nats_subject,
                reconnect_interval_secs: 5,
                max_reconnect_attempts: 0,
                tls_verification: true,
            }),
    {
        ProviderConfig {
            websocket_url,
            nats_subject,
            reconnect_interval_secs: 5,
            max_reconnect_attempts: 0,
            tls_verification: true,
        }
    }

    /// Whether this configuration passes every validation rule.
    pub open spec fn spec_valid(self) -> bool {
        &&& url_scheme_of(self.websocket_url@) matches Some(sch) && scheme_supported(sch)
        &&& self.nats_subject@.len() > 0
        &&& !seq_has_space(self.nats_subject@)
        &&& self.reconnect_interval_secs > 0
    }

    /// The exact outcome of validation: the first rule broken, in the order
    /// URL, scheme, empty subject, subject with spaces, zero interval.
    pub open spec fn spec_validate(self) -> Result<(), ConfigError> {
        match url_scheme_of(self.websocket_url@) {
            None => Err(ConfigError::InvalidUrl),
            Some(sch) => if !scheme_supported(sch) {
                Err(ConfigError::InvalidScheme)
            } else if self.nats_subject@.len() == 0 {
                Err(ConfigError::EmptySubject)
            } else if seq_has_space(self.nats_subject@) {
                Err(ConfigError::SubjectContainsSpace)
            } else if self.reconnect_interval_secs == 0 {
                Err(ConfigError::ZeroReconnectInterval)
            } else {
                Ok(())
            },
        }
    }

    /// Validate the configuration. Returns `Ok` exactly when the URL parses
    /// with a supported scheme, the subject is non-empty and has no spaces,
    /// and the reconnection interval is positive; otherwise the first rule
    /// broken, as [`ConfigError`].
    pub fn validate(&self) -> (r: Result<(), ConfigError>)
        ensures
            r == self.spec_validate(),
            r is Ok <==> self.spec_valid(),
    {
        let sch = match parse_url_scheme(self.websocket_url.as_str()) {
            None => {
                return Err(ConfigError::InvalidUrl);
            },
            Some(sch) => sch,
        };
        if !(sch == String::from_str("ws") || sch == String::from_str("wss")) {
            return Err(ConfigError::InvalidScheme);
        }
        let subject = self.nats_subject.as_str();
        if subject.unicode_len() == 0 {
            return Err(ConfigError::EmptySubject);
        }
        if contains_space(subject) {
            return Err(ConfigError::SubjectContainsSpace);
        }
        if self.reconnect_interval_secs == 0 {
            return Err(ConfigError::ZeroReconnectInterval);
        }
        Ok(())
    }
}

impl Default for ProviderConfig {
    /// The default link configuration: a local plaintext endpoint, the
    /// standard subject, and a five-second interval with unbounded retries.
    fn default() -> (c: Self)
        ensures
            c.websocket_url@ == "ws://localhost:8080"@,
            c.nats_subject@ == "websocket.messages"@,
            c.reconnect_interval_secs == 5,
            c.max_reconnect_attempts == 0,
            c.tls_verification,
    {
        ProviderConfig {
            websocket_url: String::from_str("ws://localhost:8080"),
            nats_subject: String::from_str("websocket.messages"),
            reconnect_interval_secs: 5,
            max_reconnect_attempts: 0,
            tls_verification: true,
        }
    }
}

/// The exact outcome of building a link configuration from the two values an
/// external key-value source must provide.
pub open spec fn spec_link_config(url: Option<String>, subject: Option<String>) -> Result<
    ProviderConfig,
    ConfigError,
> {
    match url {
        None => Err(ConfigError::MissingUrl),
        Some(u) => match subject {
            None => Err(ConfigError::MissingSubject),
            Some(s) => {
                let c = ProviderConfig {
                    websocket_url: u,
                    nats_subject: s,
                    reconnect_interval_secs: 5,
                    max_reconnect_attempts: 0,
                    tls_verification: true,
                };
                match c.spec_validate() {
                    Err(e) => Err(e),
                    Ok(_) => Ok(c),
                }
            },
        },
    }
}

/// Build and validate a link configuration from the values found under the
/// `websocket_url` and `nats_subject` keys of an external key-value source.
/// A missing key is reported before any validation of the values.
pub fn link_config_from_values(url: Option<String>, subject: Option<String>) -> (r: Result<
    ProviderConfig,
    ConfigError,
>)
    ensures
        r == spec_link_config(url, subject),
{
    let u = match url {
        None => {
            return Err(ConfigError::MissingUrl);
        },
        Some(u) => u,
    };
    let s = match subject {
        None => {
            return Err(ConfigError::MissingSubject);
        },
        Some(s) => s,
    };
    let c = ProviderConfig::new(u, s);
    match c.validate() {
        Err(e) => Err(e),
        Ok(_) => Ok(c),
    }
}

} // verus!
