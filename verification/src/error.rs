//! Error taxonomy of the provider.
//!
//! `ConfigError` is surfaced synchronously, before any connection attempt.
//! Transport and protocol failures are handled inside the connection manager's
//! retry logic and never escape except as a final `AttemptsExhausted` report;
//! delivery failures are observed per message and never abort the read loop.

use vstd::prelude::*;

verus! {

/// Why a configuration was rejected before any connection attempt.
#[derive(Clone, Copy, Debug, PartialEq, Eq, Structural)]
pub enum ConfigError {
    /// The URL does not parse.
    InvalidUrl,
    /// The URL parses, but its scheme is neither `ws` nor `wss`.
    InvalidScheme,
    /// A required `websocket_url` value was absent.
    MissingUrl,
    /// A required `nats_subject` value was absent.
    MissingSubject,
    /// The subject is the empty string.
    EmptySubject,
    /// The subject contains a space character.
    SubjectContainsSpace,
    /// The reconnection interval is zero.
    ZeroReconnectInterval,
    /// The initial reconnect delay exceeds the maximum reconnect delay.
    DelayBoundsReversed,
    /// The maximum accepted payload size is zero.
    ZeroMaxMessageSize,
}

/// The retryable failure that ended one connection attempt or session.
#[derive(Clone, Copy, Debug, PartialEq, Eq, Structural)]
pub enum FailureKind {
    /// Opening the transport session failed.
    ConnectFailed,
    /// The transport reported an error while reading.
    TransportError,
    /// The remote endpoint sent an explicit close frame.
    RemoteClose,
}

/// Errors of the provider as a whole.
#[derive(Clone, Copy, Debug, PartialEq, Eq, Structural)]
pub enum ProviderError {
    /// Invalid configuration, fatal before any connection attempt.
    Config(ConfigError),
    /// Transport or handshake failure; retryable.
    Connect,
    /// Explicit remote close or frame-level violation; retryable.
    Protocol,
    /// The delivery sink failed for one message; observed, never retried.
    Delivery,
    /// The retry budget is spent; carries the last underlying failure.
    AttemptsExhausted(FailureKind),
}

/// How a connection's retry loop ended.
#[derive(Clone, Copy, Debug, PartialEq, Eq, Structural)]
pub enum TerminationResult {
    /// The stream ended without a close frame and without an error: a normal,
    /// non-error completion. No further reconnection is attempted.
    CleanStop,
    /// The retry budget is spent; carries the last underlying failure.
    Exhausted(FailureKind),
}

impl TerminationResult {
    /// The provider-level report of this termination: the clean stop is a
    /// normal, non-error completion and reports nothing; exhaustion is an
    /// error carrying its last underlying failure.
    pub fn to_provider_error(&self) -> (r: Option<ProviderError>)
        ensures
            r == (match *self {
                TerminationResult::CleanStop => None,
                TerminationResult::Exhausted(k) => Some(ProviderError::AttemptsExhausted(k)),
            }),
    {
        match self {
            TerminationResult::CleanStop => None,
            TerminationResult::Exhausted(k) => Some(ProviderError::AttemptsExhausted(*k)),
        }
    }
}

} // verus!
