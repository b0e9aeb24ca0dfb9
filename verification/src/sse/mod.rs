//! Server-Sent Events: the event model, its wire encoding and an incremental
//! decoder that is indifferent to how the input was cut into chunks.

pub mod event;

pub use event::Event;
pub use event::EventView;
pub mod decoder;

pub use decoder::parse_event_from_buffer;
pub use decoder::PartialEvent;
pub mod stream;

pub use stream::ParseError;
pub use stream::SsePull;
pub use stream::SseStream;
pub mod decode;

pub use decode::decode;
pub mod laws;
