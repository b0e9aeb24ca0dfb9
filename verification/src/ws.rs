//! WebSocket messages and the limits of a connection.

use crate::body::chunk::bytes_content;
use crate::body::chunk::bytestr_content;
use crate::body::chunk::chunk_bytes;
use crate::body::chunk::chunk_from_vec;
use crate::body::chunk::text_from_string;
use crate::body::chunk::text_str;
use bytes::Bytes;
use bytestr::ByteStr;
use vstd::prelude::*;
use vstd::slice::slice_to_vec;

verus! {

/// A message sent over a WebSocket connection.
#[derive(Clone, Debug, PartialEq, Eq)]
pub enum WebSocketMessage {
    /// A text payload.
    Text(ByteStr),
    /// A binary payload.
    Binary(Bytes),
    /// A ping control frame.
    Ping(Bytes),
    /// A pong control frame.
    Pong(Bytes),
    /// A close control frame.
    Close,
}

/// The limits applied to a WebSocket connection.
#[derive(Clone, Debug)]
#[non_exhaustive]
pub struct WebSocketConfig {
    /// The largest message accepted, in bytes; `None` for no limit.
    pub max_message_size: Option<usize>,
    /// The largest frame accepted, in bytes; `None` for no limit.
    pub max_frame_size: Option<usize>,
}

/// The default limit on a message: 64 MiB.
pub const DEFAULT_MAX_MESSAGE_SIZE: usize = 67108864;

/// The default limit on a frame: 16 MiB.
pub const DEFAULT_MAX_FRAME_SIZE: usize = 16777216;

impl Default for WebSocketConfig {
    fn default() -> (config: WebSocketConfig)
        ensures
            config.max_message_size == Some(DEFAULT_MAX_MESSAGE_SIZE),
            config.max_frame_size == Some(DEFAULT_MAX_FRAME_SIZE),
    {
        WebSocketConfig {
            max_message_size: Some(DEFAULT_MAX_MESSAGE_SIZE),
            max_frame_size: Some(DEFAULT_MAX_FRAME_SIZE),
        }
    }
}

impl WebSocketConfig {
    /// Sets the largest message accepted; `None` lifts the limit.
    #[must_use]
    pub fn with_max_message_size(self, max_message_size: Option<usize>) -> (config: Self)
        ensures
            config.max_message_size == max_message_size,
            config.max_frame_size == self.max_frame_size,
    {
        let mut config = self;
        config.max_message_size = max_message_size;
        config
    }

    /// Sets the largest frame accepted; `None` lifts the limit.
    #[must_use]
    pub fn with_max_frame_size(self, max_frame_size: Option<usize>) -> (config: Self)
        ensures
            config.max_frame_size == max_frame_size,
            config.max_message_size == self.max_message_size,
    {
        let mut config = self;
        config.max_frame_size = max_frame_size;
        config
    }
}

impl WebSocketMessage {
    /// A text message.
    #[must_use]
    pub fn text(value: ByteStr) -> (message: Self)
        ensures
            message == WebSocketMessage::Text(value),
    {
        WebSocketMessage::Text(value)
    }

    /// A ping message.
    #[must_use]
    pub fn ping(value: Bytes) -> (message: Self)
        ensures
            message == WebSocketMessage::Ping(value),
    {
        WebSocketMessage::Ping(value)
    }

    /// A pong message.
    #[must_use]
    pub fn pong(value: Bytes) -> (message: Self)
        ensures
            message == WebSocketMessage::Pong(value),
    {
        WebSocketMessage::Pong(value)
    }

    /// A close message.
    #[must_use]
    pub fn close() -> (message: Self)
        ensures
            message == WebSocketMessage::Close,
    {
        WebSocketMessage::Close
    }

    /// A binary message.
    #[must_use]
    pub fn binary(value: Bytes) -> (message: Self)
        ensures
            message == WebSocketMessage::Binary(value),
    {
        WebSocketMessage::Binary(value)
    }

    /// A text message that carries serialised JSON; the serialiser's failure
    /// is passed on.
    pub fn json(serialized: Result<String, serde_json::Error>) -> (message: Result<
        Self,
        serde_json::Error,
    >)
        ensures
            match serialized {
                Ok(text) => message is Ok && message->Ok_0 is Text && bytestr_content(
                    message->Ok_0->Text_0,
                ) == text@,
                Err(error) => message == Err::<Self, serde_json::Error>(error),
            },
    {
        match serialized {
            Ok(text) => Ok(WebSocketMessage::Text(text_from_string(text))),
            Err(error) => Err(error),
        }
    }

    /// The payload as text, if the message is a text message.
    #[must_use]
    pub fn as_text(&self) -> (text: Option<&str>)
        ensures
            match text {
                Some(payload) => *self is Text && payload@ == bytestr_content(self->Text_0),
                None => !(*self is Text),
            },
    {
        match self {
            WebSocketMessage::Text(text) => Some(text_str(text)),
            _ => None,
        }
    }

    /// The payload as bytes, if the message is a binary message.
    #[must_use]
    pub fn as_bytes(&self) -> (payload: Option<&[u8]>)
        ensures
            match payload {
                Some(content) => *self is Binary && content@ == bytes_content(self->Binary_0),
                None => !(*self is Binary),
            },
    {
        match self {
            WebSocketMessage::Binary(content) => Some(chunk_bytes(content)),
            _ => None,
        }
    }

    /// The text payload, if the message is a text message.
    #[must_use]
    pub fn into_text(self) -> (text: Option<ByteStr>)
        ensures
            text == match self {
                WebSocketMessage::Text(payload) => Some(payload),
                _ => None,
            },
    {
        match self {
            WebSocketMessage::Text(payload) => Some(payload),
            _ => None,
        }
    }

    /// The binary payload, if the message is a binary message.
    #[must_use]
    pub fn into_bytes(self) -> (payload: Option<Bytes>)
        ensures
            payload == match self {
                WebSocketMessage::Binary(content) => Some(content),
                _ => None,
            },
    {
        match self {
            WebSocketMessage::Binary(content) => Some(content),
            _ => None,
        }
    }
}

impl From<String> for WebSocketMessage {
    fn from(value: String) -> (message: WebSocketMessage)
        ensures
            message is Text,
            bytestr_content(message->Text_0) == value@,
    {
        WebSocketMessage::Text(text_from_string(value))
    }
}

impl vstd::std_specs::convert::FromSpecImpl<String> for WebSocketMessage {
    open spec fn obeys_from_spec() -> bool {
        false
    }

    open spec fn from_spec(value: String) -> WebSocketMessage {
        arbitrary()
    }
}

impl From<ByteStr> for WebSocketMessage {
    fn from(value: ByteStr) -> (message: WebSocketMessage)
        ensures
            message == WebSocketMessage::Text(value),
    {
        WebSocketMessage::Text(value)
    }
}

impl vstd::std_specs::convert::FromSpecImpl<ByteStr> for WebSocketMessage {
    open spec fn obeys_from_spec() -> bool {
        true
    }

    open spec fn from_spec(value: ByteStr) -> WebSocketMessage {
        WebSocketMessage::Text(value)
    }
}

impl From<&str> for WebSocketMessage {
    fn from(value: &str) -> (message: WebSocketMessage)
        ensures
            message is Text,
            bytestr_content(message->Text_0) == value@,
    {
        WebSocketMessage::Text(text_from_string(value.to_owned()))
    }
}

impl vstd::std_specs::convert::FromSpecImpl<&str> for WebSocketMessage {
    open spec fn obeys_from_spec() -> bool {
        false
    }

    open spec fn from_spec(value: &str) -> WebSocketMessage {
        arbitrary()
    }
}

impl From<Bytes> for WebSocketMessage {
    fn from(value: Bytes) -> (message: WebSocketMessage)
        ensures
            message == WebSocketMessage::Binary(value),
    {
        WebSocketMessage::Binary(value)
    }
}

impl vstd::std_specs::convert::FromSpecImpl<Bytes> for WebSocketMessage {
    open spec fn obeys_from_spec() -> bool {
        true
    }

    open spec fn from_spec(value: Bytes) -> WebSocketMessage {
        WebSocketMessage::Binary(value)
    }
}

impl From<Vec<u8>> for WebSocketMessage {
    fn from(value: Vec<u8>) -> (message: WebSocketMessage)
        ensures
            message is Binary,
            bytes_content(message->Binary_0) == value@,
    {
        WebSocketMessage::Binary(chunk_from_vec(value))
    }
}

impl vstd::std_specs::convert::FromSpecImpl<Vec<u8>> for WebSocketMessage {
    open spec fn obeys_from_spec() -> bool {
        false
    }

    open spec fn from_spec(value: Vec<u8>) -> WebSocketMessage {
        arbitrary()
    }
}

impl From<&[u8]> for WebSocketMessage {
    fn from(value: &[u8]) -> (message: WebSocketMessage)
        ensures
            message is Binary,
            bytes_content(message->Binary_0) == value@,
    {
        WebSocketMessage::Binary(chunk_from_vec(slice_to_vec(value)))
    }
}

impl vstd::std_specs::convert::FromSpecImpl<&[u8]> for WebSocketMessage {
    open spec fn obeys_from_spec() -> bool {
        false
    }

    open spec fn from_spec(value: &[u8]) -> WebSocketMessage {
        arbitrary()
    }
}

} // verus!
