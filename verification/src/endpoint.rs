//! Immutable per-connection configuration.
//!
//! An `EndpointConfig` is created once per connection request and never
//! changes afterwards. Its invariant: the initial retry delay is at most the
//! maximum retry delay, and the maximum accepted payload size is positive.

use vstd::prelude::*;
use vstd::string::*;

use crate::backoff::min_int;
use crate::config::{parse_url_scheme, scheme_supported, url_scheme_of, ProviderConfig};
use crate::error::ConfigError;

verus! {

/// Default initial retry delay in milliseconds.
pub const DEFAULT_INITIAL_RECONNECT_DELAY_MS: u64 = 1000;

/// Default maximum retry delay in milliseconds.
pub const DEFAULT_MAX_RECONNECT_DELAY_MS: u64 = 60000;

/// Default maximum accepted payload size in bytes.
pub const DEFAULT_MAX_MESSAGE_SIZE: usize = 1048576;

/// The retry delay cap, in milliseconds, used when a connection is derived
/// from a [`ProviderConfig`], which carries no cap of its own.
pub const DERIVED_MAX_RECONNECT_DELAY_MS: u64 = 300000;

/// Immutable configuration for one connection.
#[derive(Clone, Debug)]
pub struct EndpointConfig {
    /// Target URL; the scheme determines plaintext or TLS transport.
    pub websocket_url: String,
    /// Maximum accepted payload size in bytes.
    pub max_message_size: usize,
    /// Initial retry delay in milliseconds.
    pub initial_reconnect_delay_ms: u64,
    /// Maximum retry delay in milliseconds.
    pub max_reconnect_delay_ms: u64,
    /// Maximum retry attempts (0 = unbounded).
    pub max_reconnect_attempts: u32,
}

impl EndpointConfig {
    /// The configuration invariant: the initial delay does not exceed the
    /// maximum delay, and the maximum payload size is positive.
    pub open spec fn wf(self) -> bool {
        &&& self.initial_reconnect_delay_ms <= self.max_reconnect_delay_ms
        &&& self.max_message_size > 0
    }

    /// A configuration for the given URL, every other setting at its default.
    pub fn new(websocket_url: String) -> (c: Self)
        ensures
            c == (EndpointConfig {
                websocket_url,
                max_message_size: DEFAULT_MAX_MESSAGE_SIZE,
                initial_reconnect_delay_ms: DEFAULT_INITIAL_RECONNECT_DELAY_MS,
                max_reconnect_delay_ms: DEFAULT_MAX_RECONNECT_DELAY_MS,
                max_reconnect_attempts: 0,
            }),
            c.wf(),
    {
        EndpointConfig {
            websocket_url,
            max_message_size: DEFAULT_MAX_MESSAGE_SIZE,
            initial_reconnect_delay_ms: DEFAULT_INITIAL_RECONNECT_DELAY_MS,
            max_reconnect_delay_ms: DEFAULT_MAX_RECONNECT_DELAY_MS,
            max_reconnect_attempts: 0,
        }
    }

    /// The exact outcome of validation: the first rule broken, in the order
    /// URL, scheme, delay bounds, payload size.
    pub open spec fn spec_validate(self) -> Result<(), ConfigError> {
        match url_scheme_of(self.websocket_url@) {
            None => Err(ConfigError::InvalidUrl),
            Some(sch) => if !scheme_supported(sch) {
                Err(ConfigError::InvalidScheme)
            } else if self.initial_reconnect_delay_ms > self.max_reconnect_delay_ms {
                Err(ConfigError::DelayBoundsReversed)
            } else if self.max_message_size == 0 {
                Err(ConfigError::ZeroMaxMessageSize)
            } else {
                Ok(())
            },
        }
    }

    /// Validate the configuration before any connection attempt. Returns
    /// `Ok` exactly when the URL parses with a supported scheme and the
    /// invariant holds; a passing configuration is well-formed.
    pub fn validate(&self) -> (r: Result<(), ConfigError>)
        ensures
            r == self.spec_validate(),
            r is Ok ==> self.wf(),
    {
        let sch = match parse_url_scheme(self.websocket_url.as_str()) {
            None => {
                return Err(ConfigError::InvalidUrl);
            },
            Some(sch) => sch,
        };
        if !(sch == String::from_str("ws") || sch == String::from_str("wss")) {
            return Err(ConfigError::InvalidScheme);
        }
        if self.initial_reconnect_delay_ms > self.max_reconnect_delay_ms {
            return Err(ConfigError::DelayBoundsReversed);
        }
        if self.max_message_size == 0 {
            return Err(ConfigError::ZeroMaxMessageSize);
        }
        Ok(())
    }

    /// Derive a per-connection configuration from a link configuration: the
    /// interval in seconds becomes the initial delay in milliseconds, capped
    /// at the derived maximum delay of five minutes, which also serves as the
    /// delay cap; payload size stays at its default.
    pub fn from_provider(p: &ProviderConfig) -> (c: Self)
        ensures
            c.websocket_url == p.websocket_url,
            c.initial_reconnect_delay_ms as int == min_int(
                p.reconnect_interval_secs as int * 1000,
                DERIVED_MAX_RECONNECT_DELAY_MS as int,
            ),
            c.max_reconnect_delay_ms == DERIVED_MAX_RECONNECT_DELAY_MS,
            c.max_message_size == DEFAULT_MAX_MESSAGE_SIZE,
            c.max_reconnect_attempts == p.max_reconnect_attempts,
            c.wf(),
    {
        let initial_ms: u64 = if p.reconnect_interval_secs >= 300 {
            300000
        } else {
            p.reconnect_interval_secs * 1000
        };
        EndpointConfig {
            websocket_url: p.websocket_url.clone(),
            max_message_size: DEFAULT_MAX_MESSAGE_SIZE,
            initial_reconnect_delay_ms: initial_ms,
            max_reconnect_delay_ms: DERIVED_MAX_RECONNECT_DELAY_MS,
            max_reconnect_attempts: p.max_reconnect_attempts,
        }
    }
}

} // verus!
