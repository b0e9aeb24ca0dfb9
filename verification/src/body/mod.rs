//! The body of a request or a response: one owner, one source at a time.
//!
//! A body is backed by bytes in memory, by a buffered reader, by a stream of
//! chunks, or by nothing any more once it is frozen. Readers and streams do
//! their work outside this crate: the body carries them, decides what is to
//! be done next, and accounts for what they delivered.

pub mod chunk;
pub mod collect;
pub mod convert;
pub mod error;
pub mod laws;
pub mod reader;

pub use collect::Collector;
pub use collect::Gathering;
pub use error::BodyError;
pub use error::BodyFrozen;
pub use reader::IntoAsyncRead;

use crate::body::chunk::bytes_content;
use crate::body::chunk::bytestr_content;
use crate::body::chunk::chunk_bytes;
use crate::body::chunk::chunk_from_vec;
use crate::body::chunk::chunk_len;
use crate::body::chunk::empty_chunk;
use crate::body::chunk::str_from_utf8;
use crate::body::chunk::text_from_utf8;
use crate::body::chunk::text_into_bytes;
use crate::sse::decoder::PartialEventView;
use crate::sse::stream::SseStream;
use bytes::Bytes;
use bytestr::ByteStr;
use crate::text::text_of;
use vstd::prelude::*;
use vstd::utf8::decode_utf8;
use vstd::utf8::encode_utf8;
use vstd::utf8::valid_utf8;

verus! {

/// What backs a body.
pub enum Source<R, S> {
    /// The whole content, in memory.
    Once(Bytes),
    /// A buffered reader, with the number of bytes still expected from it, if
    /// known.
    Reader { reader: R, length: Option<usize> },
    /// A stream of chunks.
    Stream(S),
    /// Nothing: the content was taken or discarded.
    Frozen,
}

/// A request or response body.
pub struct Body<R = (), S = ()> {
    mime: Option<String>,
    inner: Source<R, S>,
}

/// What a pull on a body comes to.
pub enum Pull {
    /// No outside work is needed: here is the next chunk, an error, or the
    /// end (`None`).
    Ready(Option<Result<Bytes, BodyError>>),
    /// The reader has to fill its buffer; what it delivers goes to
    /// [`Body::reader_filled`].
    Reader,
    /// The stream has to be polled; what it delivers goes to
    /// [`Body::stream_polled`].
    Stream,
}

/// Where the aggregation of a body stands once its source is known.
pub enum Collecting<R, S> {
    /// No outside work is needed: here is the outcome.
    Ready(Result<Bytes, BodyError>),
    /// The reader has to be drained into the collector.
    Reader { reader: R, collector: Collector },
    /// The stream has to be drained into the collector.
    Stream { stream: S, collector: Collector },
}

impl<R, S> Source<R, S> {
    /// What a pull yields where no outside work is needed, and `None` where
    /// the reader or the stream has to be asked. Memory yields its content
    /// once, unless it is empty; a frozen source yields an error.
    pub open spec fn pulled(self) -> Option<Option<Result<Bytes, BodyError>>> {
        match self {
            Source::Once(chunk) => if bytes_content(chunk).len() == 0 {
                Some(None)
            } else {
                Some(Some(Ok(chunk)))
            },
            Source::Frozen => Some(Some(Err(BodyError::BodyFrozen))),
            _ => None,
        }
    }

    /// The outcome of aggregating the whole content where no outside work is
    /// needed, and `None` where the reader or the stream has to be drained.
    pub open spec fn collected(self) -> Option<Result<Bytes, BodyError>> {
        match self {
            Source::Once(chunk) => Some(Ok(chunk)),
            Source::Frozen => Some(Err(BodyError::BodyFrozen)),
            _ => None,
        }
    }

    /// The number of bytes that the source will still deliver, if known.
    pub open spec fn length(self) -> Option<usize> {
        match self {
            Source::Once(chunk) => Some(bytes_content(chunk).len() as usize),
            Source::Reader { length, .. } => length,
            _ => None,
        }
    }
}

/// What is left of a length hint after `read` bytes were delivered.
pub open spec fn hint_after(length: Option<usize>, read: nat) -> Option<usize> {
    match length {
        Some(known) => if read <= known {
            Some((known - read) as usize)
        } else {
            Some(0usize)
        },
        None => None,
    }
}

/// A source after its reader delivered `read` bytes.
pub open spec fn source_after_read<R, S>(source: Source<R, S>, read: nat) -> Source<R, S> {
    match source {
        Source::Reader { reader, length } => Source::Reader {
            reader,
            length: hint_after(length, read),
        },
        other => other,
    }
}

/// A 64-bit size as a `usize`, capped at the largest.
pub open spec fn capped(size: u64) -> usize {
    if size <= usize::MAX {
        size as usize
    } else {
        usize::MAX
    }
}

/// A 64-bit size as a `usize`, capped at the largest.
fn cap(size: u64) -> (capped_size: usize)
    ensures
        capped_size == capped(size),
{
    if size > usize::MAX as u64 {
        usize::MAX
    } else {
        size as usize
    }
}

/// The relation between a body before and after `take`, and what `take`
/// returns: a frozen body stays as it is and the call fails; any other body
/// is handed out whole and leaves a frozen one behind.
pub open spec fn took<R, S>(
    before: Body<R, S>,
    after: Body<R, S>,
    taken: Result<Body<R, S>, BodyFrozen>,
) -> bool {
    if before.source() is Frozen {
        taken is Err && after == before
    } else {
        taken == Ok::<Body<R, S>, BodyFrozen>(before) && after.source() is Frozen
            && after.mime_type() is None
    }
}

/// The relation between a body before and after `freeze`.
pub open spec fn froze<R, S>(before: Body<R, S>, after: Body<R, S>) -> bool {
    after.source() is Frozen && after.mime_type() is None
}

impl<R, S> Body<R, S> {
    /// What backs the body.
    pub closed spec fn source(&self) -> Source<R, S> {
        self.inner
    }

    /// The media type of the content, if one is set.
    pub closed spec fn mime_type(&self) -> Option<Seq<char>> {
        text_of(self.mime)
    }

    /// An empty body.
    pub fn empty() -> (body: Self)
        ensures
            body.source() is Once,
            bytes_content(body.source()->Once_0) == Seq::<u8>::empty(),
            body.mime_type() is None,
    {
        Body { mime: None, inner: Source::Once(empty_chunk()) }
    }

    /// A frozen body.
    pub fn frozen() -> (body: Self)
        ensures
            body.source() is Frozen,
            body.mime_type() is None,
    {
        Body { mime: None, inner: Source::Frozen }
    }

    /// A body over a buffered reader, with the number of bytes expected
    /// from it, if known.
    pub fn from_reader(reader: R, length: Option<usize>) -> (body: Self)
        ensures
            body.source() == (Source::<R, S>::Reader { reader, length }),
            body.mime_type() is None,
    {
        Body { mime: None, inner: Source::Reader { reader, length } }
    }

    /// A body over a stream of chunks.
    pub fn from_stream(stream: S) -> (body: Self)
        ensures
            body.source() == Source::<R, S>::Stream(stream),
            body.mime_type() is None,
    {
        Body { mime: None, inner: Source::Stream(stream) }
    }

    /// A body that holds `data`, typed `application/octet-stream`.
    pub fn from_bytes(data: Bytes) -> (body: Self)
        ensures
            body.source() == Source::<R, S>::Once(data),
            body.mime_type() == Some("application/octet-stream"@),
    {
        Body { mime: Some("application/octet-stream".to_owned()), inner: Source::Once(data) }
    }

    /// A body that holds the UTF-8 encoding of `text`, typed
    /// `text/plain; charset=utf-8`.
    pub fn from_text(text: ByteStr) -> (body: Self)
        ensures
            body.source() is Once,
            bytes_content(body.source()->Once_0) == encode_utf8(bytestr_content(text)),
            body.mime_type() == Some("text/plain; charset=utf-8"@),
    {
        Body {
            mime: Some("text/plain; charset=utf-8".to_owned()),
            inner: Source::Once(text_into_bytes(text)),
        }
    }

    /// A body over the open file behind `reader`, `size` bytes long, with
    /// the media type that was guessed for the file, if one was.
    pub fn from_file(reader: R, size: u64, mime: Option<&str>) -> (body: Self)
        ensures
            body.source() == (Source::<R, S>::Reader { reader, length: Some(capped(size)) }),
            body.mime_type() == match mime {
                Some(name) => Some(name@),
                None => None,
            },
    {
        let mime = match mime {
            Some(name) => Some(name.to_owned()),
            None => None,
        };
        Body { mime, inner: Source::Reader { reader, length: Some(cap(size)) } }
    }

    /// A body that holds serialised JSON, typed `application/json`; the
    /// serialiser's failure is passed on.
    pub fn from_json(serialized: Result<String, serde_json::Error>) -> (body: Result<
        Self,
        serde_json::Error,
    >)
        ensures
            match serialized {
                Ok(text) => {
                    &&& body is Ok
                    &&& body->Ok_0.source() is Once
                    &&& bytes_content(body->Ok_0.source()->Once_0) == encode_utf8(text@)
                    &&& body->Ok_0.mime_type() == Some("application/json"@)
                },
                Err(error) => body == Err::<Self, serde_json::Error>(error),
            },
    {
        match serialized {
            Ok(text) => Ok(
                Body {
                    mime: Some("application/json".to_owned()),
                    inner: Source::Once(chunk_from_vec(text.as_str().as_bytes_vec())),
                },
            ),
            Err(error) => Err(error),
        }
    }

    /// A body that holds a serialised form, typed
    /// `application/x-www-form-urlencoded`; the serialiser's failure is
    /// passed on.
    pub fn from_form(serialized: Result<String, serde_urlencoded::ser::Error>) -> (body: Result<
        Self,
        serde_urlencoded::ser::Error,
    >)
        ensures
            match serialized {
                Ok(text) => {
                    &&& body is Ok
                    &&& body->Ok_0.source() is Once
                    &&& bytes_content(body->Ok_0.source()->Once_0) == encode_utf8(text@)
                    &&& body->Ok_0.mime_type() == Some("application/x-www-form-urlencoded"@)
                },
                Err(error) => body == Err::<Self, serde_urlencoded::ser::Error>(error),
            },
    {
        match serialized {
            Ok(text) => Ok(
                Body {
                    mime: Some("application/x-www-form-urlencoded".to_owned()),
                    inner: Source::Once(chunk_from_vec(text.as_str().as_bytes_vec())),
                },
            ),
            Err(error) => Err(error),
        }
    }

    /// A body over a stream of encoded events, typed `text/event-stream`.
    pub fn from_sse(stream: S) -> (body: Self)
        ensures
            body.source() == Source::<R, S>::Stream(stream),
            body.mime_type() == Some("text/event-stream"@),
    {
        Body { mime: Some("text/event-stream".to_owned()), inner: Source::Stream(stream) }
    }

    /// The media type of the content, if one is set.
    pub fn mime(&self) -> (mime: Option<&str>)
        ensures
            match mime {
                Some(text) => self.mime_type() == Some(text@),
                None => self.mime_type() is None,
            },
    {
        match &self.mime {
            Some(mime) => Some(mime.as_str()),
            None => None,
        }
    }

    /// Sets the media type.
    pub fn with_mime(self, mime: &str) -> (body: Self)
        ensures
            body.source() == self.source(),
            body.mime_type() == Some(mime@),
    {
        let mut body = self;
        body.mime = Some(mime.to_owned());
        body
    }

    /// The number of bytes that the body will still deliver, if known: the
    /// size of content in memory, the hint of a reader, nothing otherwise.
    pub fn len(&self) -> (len: Option<usize>)
        ensures
            len == self.source().length(),
    {
        match &self.inner {
            Source::Once(chunk) => Some(chunk_len(chunk)),
            Source::Reader { length, .. } => *length,
            _ => None,
        }
    }

    /// Whether the body is empty, if its length is known.
    pub fn is_empty(&self) -> (empty: Option<bool>)
        ensures
            empty == match self.source().length() {
                Some(len) => Some(len == 0),
                None => None,
            },
    {
        match self.len() {
            Some(len) => Some(len == 0),
            None => None,
        }
    }

    /// Whether the body is frozen.
    pub fn is_frozen(&self) -> (frozen: bool)
        ensures
            frozen == (self.source() is Frozen),
    {
        match &self.inner {
            Source::Frozen => true,
            _ => false,
        }
    }

    /// The bounds on the number of bytes still to come: exact for content in
    /// memory, at most the hint for a reader, the stream's own bounds (given
    /// as `stream_lower` and `stream_upper`, capped to `usize`) for a
    /// stream, and nothing known for a frozen body.
    pub fn size_hint(&self, stream_lower: u64, stream_upper: Option<u64>) -> (hint: (
        usize,
        Option<usize>,
    ))
        ensures
            hint == match self.source() {
                Source::Once(chunk) => (
                    bytes_content(chunk).len() as usize,
                    Some(bytes_content(chunk).len() as usize),
                ),
                Source::Reader { length, .. } => (0usize, length),
                Source::Stream(_) => (
                    capped(stream_lower),
                    match stream_upper {
                        Some(upper) => Some(capped(upper)),
                        None => None,
                    },
                ),
                Source::Frozen => (0usize, None),
            },
    {
        match &self.inner {
            Source::Once(chunk) => {
                let len = chunk_len(chunk);
                (len, Some(len))
            },
            Source::Reader { length, .. } => (0, *length),
            Source::Stream(_) => (
                cap(stream_lower),
                match stream_upper {
                    Some(upper) => Some(cap(upper)),
                    None => None,
                },
            ),
            Source::Frozen => (0, None),
        }
    }

    /// Installs `body` in place of this one and returns what was here, frozen
    /// or not.
    pub fn replace(&mut self, body: Body<R, S>) -> (previous: Body<R, S>)
        ensures
            *final(self) == body,
            previous == *old(self),
    {
        let mut body = body;
        core::mem::swap(self, &mut body);
        body
    }

    /// Exchanges this body with `body`, unless this one is frozen.
    pub fn swap(&mut self, body: &mut Body<R, S>) -> (done: Result<(), BodyFrozen>)
        ensures
            old(self).source() is Frozen ==> {
                &&& done is Err
                &&& *final(self) == *old(self)
                &&& *final(body) == *old(body)
            },
            !(old(self).source() is Frozen) ==> {
                &&& done is Ok
                &&& *final(self) == *old(body)
                &&& *final(body) == *old(self)
            },
    {
        if self.is_frozen() {
            Err(BodyFrozen::new())
        } else {
            core::mem::swap(self, body);
            Ok(())
        }
    }

    /// Hands the body out and leaves a frozen one in its place, unless it is
    /// frozen already.
    pub fn take(&mut self) -> (taken: Result<Self, BodyFrozen>)
        ensures
            took(*old(self), *final(self), taken),
    {
        if self.is_frozen() {
            Err(BodyFrozen::new())
        } else {
            Ok(self.replace(Self::frozen()))
        }
    }

    /// Discards the content and leaves the body frozen.
    pub fn freeze(&mut self)
        ensures
            froze(*old(self), *final(self)),
    {
        let _ = self.replace(Self::frozen());
    }

    /// Decides what a pull comes to. Content in memory is yielded whole,
    /// once, and leaves the body empty; an empty body is at its end; a frozen
    /// body yields an error; a reader or a stream has to be asked.
    pub fn poll_next(&mut self) -> (pull: Pull)
        ensures
            final(self).mime_type() == old(self).mime_type(),
            match old(self).source() {
                Source::Once(chunk) => {
                    &&& pull == Pull::Ready(old(self).source().pulled()->0)
                    &&& final(self).source() is Once
                    &&& bytes_content(final(self).source()->Once_0) == Seq::<u8>::empty()
                },
                Source::Reader { .. } => pull == Pull::Reader && *final(self) == *old(self),
                Source::Stream(_) => pull == Pull::Stream && *final(self) == *old(self),
                Source::Frozen => {
                    &&& pull == Pull::Ready(Some(Err(BodyError::BodyFrozen)))
                    &&& *final(self) == *old(self)
                },
            },
    {
        match &mut self.inner {
            Source::Once(chunk) => {
                if chunk_len(chunk) == 0 {
                    Pull::Ready(None)
                } else {
                    let mut yielded = empty_chunk();
                    core::mem::swap(chunk, &mut yielded);
                    Pull::Ready(Some(Ok(yielded)))
                }
            },
            Source::Reader { .. } => Pull::Reader,
            Source::Stream(_) => Pull::Stream,
            Source::Frozen => Pull::Ready(Some(Err(BodyError::BodyFrozen))),
        }
    }

    /// Accounts for what the reader delivered after [`Pull::Reader`]: a
    /// failure is passed on; no bytes mean the end; any other chunk is
    /// yielded, and the length hint shrinks by its size, not below zero.
    pub fn reader_filled(&mut self, filled: Result<Bytes, std::io::Error>) -> (item: Option<
        Result<Bytes, BodyError>,
    >)
        ensures
            final(self).mime_type() == old(self).mime_type(),
            match filled {
                Err(error) => {
                    &&& item == Some(Err::<Bytes, BodyError>(BodyError::Io(error)))
                    &&& *final(self) == *old(self)
                },
                Ok(chunk) => if bytes_content(chunk).len() == 0 {
                    &&& item is None
                    &&& *final(self) == *old(self)
                } else {
                    &&& item == Some(Ok::<Bytes, BodyError>(chunk))
                    &&& final(self).source() == source_after_read(
                        old(self).source(),
                        bytes_content(chunk).len(),
                    )
                },
            },
    {
        match filled {
            Err(error) => Some(Err(BodyError::Io(error))),
            Ok(chunk) => {
                let read = chunk_len(&chunk);
                if read == 0 {
                    None
                } else {
                    match &mut self.inner {
                        Source::Reader { length, .. } => {
                            match length {
                                Some(known) => {
                                    if read <= *known {
                                        *known = *known - read;
                                    } else {
                                        *known = 0;
                                    }
                                },
                                None => {},
                            }
                        },
                        _ => {},
                    }
                    Some(Ok(chunk))
                }
            },
        }
    }

    /// Accounts for what the stream delivered after [`Pull::Stream`]: the
    /// end and failures are passed on; a frame of data yields its chunk; any
    /// other frame (`Ok(None)`) yields an empty chunk.
    pub fn stream_polled(frame: Option<Result<Option<Bytes>, BodyError>>) -> (item: Option<
        Result<Bytes, BodyError>,
    >)
        ensures
            match frame {
                None => item is None,
                Some(Err(error)) => item == Some(Err::<Bytes, BodyError>(error)),
                Some(Ok(Some(chunk))) => item == Some(Ok::<Bytes, BodyError>(chunk)),
                Some(Ok(None)) => {
                    &&& item is Some
                    &&& item->0 is Ok
                    &&& bytes_content(item->0->Ok_0) == Seq::<u8>::empty()
                },
            },
    {
        match frame {
            None => None,
            Some(Err(error)) => Some(Err(error)),
            Some(Ok(Some(chunk))) => Some(Ok(chunk)),
            Some(Ok(None)) => Some(Ok(empty_chunk())),
        }
    }

    /// Starts the aggregation of the whole content. Content in memory is the
    /// outcome as it is; a frozen body fails; a reader is to be drained into
    /// a buffer sized by its length hint, a stream into a collector that
    /// copies nothing while there is one chunk only.
    pub fn into_bytes(self) -> (state: Collecting<R, S>)
        ensures
            match self.source() {
                Source::Once(_) => state == Collecting::<R, S>::Ready(self.source().collected()->0),
                Source::Frozen => state == Collecting::<R, S>::Ready(self.source().collected()->0),
                Source::Reader { reader, length } => {
                    &&& state is Reader
                    &&& state->Reader_reader == reader
                    &&& state->Reader_collector@ == Seq::<u8>::empty()
                    &&& !state->Reader_collector.untouched()
                },
                Source::Stream(stream) => {
                    &&& state is Stream
                    &&& state->Stream_stream == stream
                    &&& state->Stream_collector@ == Seq::<u8>::empty()
                    &&& state->Stream_collector.untouched()
                },
            },
    {
        match self.inner {
            Source::Once(chunk) => Collecting::Ready(Ok(chunk)),
            Source::Reader { reader, length } => {
                let capacity = match length {
                    Some(known) => known,
                    None => 0,
                };
                Collecting::Reader { reader, collector: Collector::with_capacity(capacity) }
            },
            Source::Stream(stream) => Collecting::Stream { stream, collector: Collector::new() },
            Source::Frozen => Collecting::Ready(Err(BodyError::BodyFrozen)),
        }
    }

    /// Starts turning the body into content in memory. A frozen body fails
    /// and changes nothing. Content that is in memory already stays, and
    /// nothing is left to do (`None`). A reader or a stream is taken out,
    /// which leaves the body frozen, and its aggregation is started; what it
    /// comes to goes to [`Body::cache`]. In every other case than the first
    /// the media type is unset.
    pub fn as_bytes(&mut self) -> (pending: Result<Option<Collecting<R, S>>, BodyError>)
        ensures
            match old(self).source() {
                Source::Frozen => {
                    &&& pending is Err
                    &&& pending->Err_0 is BodyFrozen
                    &&& *final(self) == *old(self)
                },
                Source::Once(chunk) => {
                    &&& pending is Ok
                    &&& pending->Ok_0 is None
                    &&& final(self).source() == old(self).source()
                    &&& final(self).mime_type() is None
                },
                Source::Reader { reader, length } => {
                    &&& pending is Ok
                    &&& pending->Ok_0 is Some
                    &&& pending->Ok_0->0 is Reader
                    &&& pending->Ok_0->0->Reader_reader == reader
                    &&& pending->Ok_0->0->Reader_collector@ == Seq::<u8>::empty()
                    &&& !pending->Ok_0->0->Reader_collector.untouched()
                    &&& final(self).source() is Frozen
                    &&& final(self).mime_type() is None
                },
                Source::Stream(stream) => {
                    &&& pending is Ok
                    &&& pending->Ok_0 is Some
                    &&& pending->Ok_0->0 is Stream
                    &&& pending->Ok_0->0->Stream_stream == stream
                    &&& pending->Ok_0->0->Stream_collector@ == Seq::<u8>::empty()
                    &&& pending->Ok_0->0->Stream_collector.untouched()
                    &&& final(self).source() is Frozen
                    &&& final(self).mime_type() is None
                },
            },
    {
        match self.take() {
            Err(_) => Err(BodyError::BodyFrozen),
            Ok(taken) => match taken.inner {
                Source::Once(chunk) => {
                    self.inner = Source::Once(chunk);
                    Ok(None)
                },
                other => Ok(Some((Body { mime: None, inner: other }).into_bytes())),
            },
        }
    }

    /// The reader under the body, if a reader backs it.
    pub fn reader(&self) -> (reader: Option<&R>)
        ensures
            match reader {
                Some(handle) => self.source() is Reader && *handle == self.source()->Reader_reader,
                None => !(self.source() is Reader),
            },
    {
        match &self.inner {
            Source::Reader { reader, .. } => Some(reader),
            _ => None,
        }
    }

    /// The stream under the body, if a stream backs it.
    pub fn stream(&self) -> (stream: Option<&S>)
        ensures
            match stream {
                Some(handle) => self.source() is Stream && *handle == self.source()->Stream_0,
                None => !(self.source() is Stream),
            },
    {
        match &self.inner {
            Source::Stream(stream) => Some(stream),
            _ => None,
        }
    }

    /// The reader under the body, if a reader backs it, for whoever drives
    /// it. What the driver does to the reader is all that changes.
    pub fn reader_mut(&mut self) -> (reader: Option<&mut R>)
        ensures
            match reader {
                Some(handle) => {
                    &&& old(self).source() is Reader
                    &&& *handle == old(self).source()->Reader_reader
                    &&& final(self).source() == (Source::<R, S>::Reader {
                        reader: *final(handle),
                        length: old(self).source()->Reader_length,
                    })
                    &&& final(self).mime_type() == old(self).mime_type()
                },
                None => !(old(self).source() is Reader) && *final(self) == *old(self),
            },
    {
        match &mut self.inner {
            Source::Reader { reader, .. } => Some(reader),
            _ => None,
        }
    }

    /// The stream under the body, if a stream backs it, for whoever drives
    /// it. What the driver does to the stream is all that changes.
    pub fn stream_mut(&mut self) -> (stream: Option<&mut S>)
        ensures
            match stream {
                Some(handle) => {
                    &&& old(self).source() is Stream
                    &&& *handle == old(self).source()->Stream_0
                    &&& final(self).source() == Source::<R, S>::Stream(*final(handle))
                    &&& final(self).mime_type() == old(self).mime_type()
                },
                None => !(old(self).source() is Stream) && *final(self) == *old(self),
            },
    {
        match &mut self.inner {
            Source::Stream(stream) => Some(stream),
            _ => None,
        }
    }

    /// Gives up the body for what backs it.
    pub fn into_source(self) -> (source: Source<R, S>)
        ensures
            source == self.source(),
    {
        self.inner
    }

    /// Reads the body through a buffer.
    pub fn into_reader(self) -> (reader: IntoAsyncRead<R, S>)
        ensures
            reader.reading(self.source()),
    {
        IntoAsyncRead::new(self)
    }

    /// Decodes the body as a stream of events.
    pub fn into_sse(self) -> (stream: SseStream<R, S>)
        ensures
            stream.body() == self,
            stream.buffer() == Seq::<u8>::empty(),
            stream.pending() == PartialEventView::empty(),
    {
        SseStream::new(self)
    }

    /// Installs aggregated content in the body; its media type stays.
    pub fn cache(&mut self, content: Bytes)
        ensures
            final(self).source() == Source::<R, S>::Once(content),
            final(self).mime_type() == old(self).mime_type(),
    {
        self.inner = Source::Once(content);
    }

    /// The content, if it is in memory.
    pub fn cached(&self) -> (content: Option<&[u8]>)
        ensures
            match content {
                Some(bytes) => {
                    &&& self.source() is Once
                    &&& bytes@ == bytes_content(self.source()->Once_0)
                },
                None => !(self.source() is Once),
            },
    {
        match &self.inner {
            Source::Once(chunk) => Some(chunk_bytes(chunk)),
            _ => None,
        }
    }
}

impl<R, S> Default for Body<R, S> {
    fn default() -> (body: Body<R, S>)
        ensures
            body.source() is Once,
            bytes_content(body.source()->Once_0) == Seq::<u8>::empty(),
            body.mime_type() is None,
    {
        Body::empty()
    }
}

/// Aggregated content as text: strict UTF-8, no repair.
pub fn into_string(content: Bytes) -> (text: Result<ByteStr, BodyError>)
    ensures
        valid_utf8(bytes_content(content)) ==> text is Ok && bytestr_content(text->Ok_0)
            == decode_utf8(bytes_content(content)),
        !valid_utf8(bytes_content(content)) ==> text is Err && text->Err_0 is Utf8,
{
    match text_from_utf8(content) {
        Ok(text) => Ok(text),
        Err(error) => Err(BodyError::Utf8(error)),
    }
}

/// Content in memory as a string slice: strict UTF-8, no repair.
pub fn as_str(content: &[u8]) -> (text: Result<&str, BodyError>)
    ensures
        valid_utf8(content@) ==> text is Ok && text->Ok_0@ == decode_utf8(content@),
        !valid_utf8(content@) ==> text is Err && text->Err_0 is Utf8,
{
    match str_from_utf8(content) {
        Ok(text) => Ok(text),
        Err(error) => Err(BodyError::Utf8(error)),
    }
}

} // verus!
