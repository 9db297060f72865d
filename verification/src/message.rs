//! The message envelope handed to the downstream publisher.
//!
//! A received byte sequence becomes a [`WebSocketMessage`]: text if the
//! bytes are valid UTF-8, otherwise binary with the payload base64-encoded.
//! [`BrokerMessage`] is the broker-level envelope used when forwarding to a
//! component, with the originating URL folded into the subject.

use vstd::prelude::*;
use vstd::string::*;
use vstd::utf8::{decode_utf8, valid_utf8};

verus! {

/// The base64 encoding, standard alphabet with padding, of the given bytes.
pub uninterp spec fn base64_of(bytes: Seq<u8>) -> Seq<char>;

/// Base64-encode bytes with the standard alphabet and padding.
///
/// Relies on base64's `Engine::encode` on the `STANDARD` engine: the result
/// is a pure function of the input bytes, four output characters for every
/// three input bytes, the last group padded. The length bound keeps the
/// encoder from overflowing its output size.
#[verifier::external_body]
pub fn encode(data: &[u8]) -> (r: String)
    requires
        4 * ((data@.len() + 2) / 3) <= usize::MAX,
    ensures
        r@ == base64_of(data@),
        r@.len() == 4 * ((data@.len() + 2) / 3),
{
    base64::Engine::encode(&base64::engine::general_purpose::STANDARD, data)
}

/// Base64-encode bytes with the standard alphabet and padding.
pub fn base64_encode(data: &[u8]) -> (r: String)
    requires
        4 * ((data@.len() + 2) / 3) <= usize::MAX,
    ensures
        r@ == base64_of(data@),
        r@.len() == 4 * ((data@.len() + 2) / 3),
{
    encode(data)
}

/// Decode bytes as UTF-8.
///
/// Relies on `core::str::from_utf8`: it returns `Ok` exactly when the bytes
/// are a valid UTF-8 encoding, and the returned string is their decoding.
#[verifier::external_body]
fn utf8_decode<'a>(data: &'a [u8]) -> (r: Option<&'a str>)
    ensures
        r is Some <==> valid_utf8(data@),
        r matches Some(s) ==> s@ == decode_utf8(data@),
{
    core::str::from_utf8(data).ok()
}

/// Seconds since the Unix epoch, by the system clock; 0 if the clock reads
/// earlier than the epoch.
///
/// Relies on `std::time::SystemTime::now`; the result depends on the clock,
/// so nothing is promised of it.
#[verifier::external_body]
fn now_unix_secs() -> (r: u64) {
    match std::time::SystemTime::now().duration_since(std::time::UNIX_EPOCH) {
        Ok(d) => d.as_secs(),
        Err(_) => 0,
    }
}

/// Envelope for one received payload, ready for downstream publishing.
#[derive(Clone, Debug, PartialEq, Eq)]
pub struct WebSocketMessage {
    /// The payload: the received text, or binary data base64-encoded.
    pub payload: String,
    /// `"text"` or `"binary"`.
    pub message_type: String,
    /// Seconds since the Unix epoch when the message was received.
    pub timestamp: u64,
    /// Original payload size in bytes.
    pub size: usize,
}

impl WebSocketMessage {
    /// Wrap one received byte sequence: valid UTF-8 becomes a text message
    /// carrying the decoded characters; anything else becomes a binary
    /// message carrying the base64 encoding. The recorded size is the
    /// original byte length either way; the timestamp is the clock's
    /// reading and is not constrained.
    pub fn from_bytes(data: Vec<u8>) -> (m: WebSocketMessage)
        requires
            4 * ((data@.len() + 2) / 3) <= usize::MAX,
        ensures
            m.size == data@.len(),
            valid_utf8(data@) ==> m.message_type@ == "text"@ && m.payload@ == decode_utf8(data@),
            !valid_utf8(data@) ==> m.message_type@ == "binary"@ && m.payload@ == base64_of(data@),
    {
        let size = data.len();
        let (payload, message_type): (String, String) = match utf8_decode(data.as_slice()) {
            Some(text) => (text.to_owned(), String::from_str("text")),
            None => (encode(data.as_slice()), String::from_str("binary")),
        };
        WebSocketMessage { payload, message_type, timestamp: now_unix_secs(), size }
    }
}

/// Broker-level envelope for one payload forwarded to a component.
#[derive(Clone, Debug, PartialEq, Eq)]
pub struct BrokerMessage {
    /// Subject the message is published under.
    pub subject: String,
    /// The payload, byte for byte as it was received.
    pub body: Vec<u8>,
    /// Optional reply subject; never set by this provider.
    pub reply_to: Option<String>,
}

/// Wrap raw received bytes as a broker message. The subject is
/// `websocket.<url>`, so the component knows which connection the message
/// originated from; the body carries the bytes unchanged, and no reply is
/// requested.
pub fn create_broker_message(data: Vec<u8>, websocket_url: &str) -> (m: BrokerMessage)
    ensures
        m.subject@ == "websocket."@ + websocket_url@,
        m.body@ == data@,
        m.reply_to is None,
{
    let mut subject = String::from_str("websocket.");
    subject.append(websocket_url);
    BrokerMessage { subject, body: data, reply_to: None }
}

} // verus!
