//! A resilient, receive-only WebSocket ingestion client.
//!
//! The library classifies and filters incoming frames, enforces a maximum
//! payload size, hands accepted payloads to a downstream delivery sink, and
//! recovers from transport failures with bounded exponential backoff. The
//! retry state machine distinguishes a clean terminal stop (the stream ended
//! without a close frame) from retryable failures (connect errors, transport
//! errors, and an explicit remote close).
//!
//! The asynchronous transport itself lives outside the library: a driver
//! opens the socket, reads frames and sleeps, and feeds each observation as
//! an [`manager::Event`] into [`manager::ConnectionManager::step`], which
//! decides the next [`manager::Action`].

pub mod backoff;
pub mod config;
pub mod endpoint;
pub mod error;
pub mod frame;
pub mod manager;
pub mod message;
