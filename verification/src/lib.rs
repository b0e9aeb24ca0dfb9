//! An HTTP toolkit's data plane: a single-owner body over interchangeable
//! byte sources, and a Server-Sent-Events codec on top of it.
//!
//! Everything here is decision and bookkeeping. Readers, streams and
//! serialisers do their work outside; the body says what is to be asked of
//! them next and accounts for what they deliver.

pub mod body;
pub mod error;
pub mod middleware;
pub mod mime_guess;
pub mod sse;
pub mod text;
pub mod ws;

pub use body::Body;
pub use body::BodyError;
pub use error::HttpError;
pub use error::HttpFailure;
pub use error::ResultExt;
pub use error::StatusCode;
