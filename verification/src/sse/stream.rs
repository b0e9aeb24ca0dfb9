//! The decoder over a body: events are pulled one at a time, and the body is
//! pulled for more bytes whenever the buffer holds no complete event.

use crate::body::chunk::bytes_content;
use crate::body::chunk::chunk_bytes;
use crate::body::error::frozen_message;
use crate::body::Body;
use crate::body::BodyError;
use crate::body::Pull;
use crate::body::Source;
use crate::sse::decoder::finish;
use crate::sse::decoder::finish_buffer;
use crate::sse::decoder::lemma_parse_buffer_settles;
use crate::sse::decoder::parse_buffer;
use crate::sse::decoder::parse_event_from_buffer;
use crate::sse::decoder::Parsed;
use crate::sse::decoder::PartialEvent;
use crate::sse::decoder::PartialEventView;
use crate::sse::event::event_view;
use crate::sse::event::Event;
use crate::sse::event::EventView;
use bytes::Bytes;
use vstd::prelude::*;
use vstd::string::StringExecFns;

verus! {

/// An error met while decoding events.
#[derive(Debug, Clone)]
pub enum ParseError {
    /// The body under the decoder failed; the text is the body's report.
    BodyError(String),
    /// The data is not valid UTF-8.
    InvalidUtf8,
    /// The retry value is not a number.
    InvalidRetryValue,
}

impl ParseError {
    /// The text that reports the error.
    pub open spec fn text(self) -> Seq<char> {
        match self {
            ParseError::BodyError(report) => "Body stream error: "@ + report@,
            ParseError::InvalidUtf8 => "Invalid UTF-8 in SSE data"@,
            ParseError::InvalidRetryValue => "Invalid retry value in SSE event"@,
        }
    }

    /// The report in words.
    pub fn to_string(&self) -> (text: String)
        ensures
            text@ == self.text(),
    {
        match self {
            ParseError::BodyError(report) => {
                let mut text = "Body stream error: ".to_owned();
                text.append(report.as_str());
                text
            },
            ParseError::InvalidUtf8 => "Invalid UTF-8 in SSE data".to_owned(),
            ParseError::InvalidRetryValue => "Invalid retry value in SSE event".to_owned(),
        }
    }
}

/// Events decoded from a body.
pub struct SseStream<R = (), S = ()> {
    body: Body<R, S>,
    buffer: Vec<u8>,
    partial_event: PartialEvent,
}

/// What a pull on an event stream comes to.
pub enum SsePull {
    /// No outside work is needed: here is the next event, an error, or the
    /// end (`None`).
    Ready(Option<Result<Event, ParseError>>),
    /// The body's reader has to be asked for more; what the body makes of
    /// the answer goes to [`SseStream::push_chunk`], [`SseStream::fail`] or
    /// [`SseStream::finish`].
    Reader,
    /// The body's stream has to be asked for more, likewise.
    Stream,
}

/// True when `pull` hands out exactly `event`: that event if there is one,
/// the end of the events if there is none.
pub open spec fn yields(pull: SsePull, event: Option<EventView>) -> bool {
    match event {
        Some(view) => pull matches SsePull::Ready(Some(Ok(e))) && e@ == view,
        None => pull matches SsePull::Ready(None),
    }
}

/// The outcome of the last bytes of an input and its end: a pull on the
/// buffer with `content` appended, and, if that dispatches nothing, the end
/// of the input.
pub open spec fn decode_last(buffer: Seq<u8>, pending: PartialEventView, content: Seq<u8>) -> Parsed {
    let parsed = parse_buffer(buffer + content, pending);
    if parsed.event is Some {
        parsed
    } else {
        finish(parsed.rest, parsed.partial)
    }
}

impl<R, S> SseStream<R, S> {
    /// The body that is decoded.
    pub closed spec fn body(&self) -> Body<R, S> {
        self.body
    }

    /// The bytes received that are not yet resolved into lines.
    pub closed spec fn buffer(&self) -> Seq<u8> {
        self.buffer@
    }

    /// The event that is being assembled.
    pub closed spec fn pending(&self) -> PartialEventView {
        self.partial_event@
    }

    /// A decoder over `body`, with nothing received yet.
    pub fn new(body: Body<R, S>) -> (stream: Self)
        ensures
            stream.body() == body,
            stream.buffer() == Seq::<u8>::empty(),
            stream.pending() == PartialEventView::empty(),
    {
        SseStream { body, buffer: Vec::new(), partial_event: PartialEvent::new() }
    }

    /// The body that is decoded, for whoever drives its reader or stream.
    pub fn body_mut(&mut self) -> (body: &mut Body<R, S>)
        ensures
            *body == old(self).body(),
            final(self).body() == *final(body),
            final(self).buffer() == old(self).buffer(),
            final(self).pending() == old(self).pending(),
    {
        &mut self.body
    }

    /// Pulls the next event out of what was received so far.
    pub fn next_buffered(&mut self) -> (event: Option<Event>)
        ensures
            final(self).body() == old(self).body(),
            final(self).buffer() == parse_buffer(old(self).buffer(), old(self).pending()).rest,
            final(self).pending() == parse_buffer(old(self).buffer(), old(self).pending()).partial,
            event_view(event) == parse_buffer(old(self).buffer(), old(self).pending()).event,
    {
        parse_event_from_buffer(&mut self.buffer, &mut self.partial_event)
    }

    /// Receives a chunk that the body yielded.
    pub fn push_chunk(&mut self, chunk: &Bytes)
        ensures
            final(self).body() == old(self).body(),
            final(self).buffer() == old(self).buffer() + bytes_content(*chunk),
            final(self).pending() == old(self).pending(),
    {
        self.buffer.extend_from_slice(chunk_bytes(chunk));
    }

    /// The decoding error that stands for a failure of the body: it carries
    /// the body's report of the failure.
    pub fn fail(error: &BodyError) -> (failure: ParseError)
        ensures
            failure is BodyError,
            call_ensures(BodyError::to_string, (error,), failure->BodyError_0),
            *error is BodyFrozen ==> failure->BodyError_0@ == frozen_message(),
    {
        ParseError::BodyError(error.to_string())
    }

    /// Ends the input: the complete lines still buffered are pulled first;
    /// when they dispatch nothing, an unterminated last line is folded in
    /// and the pending event is dispatched if it has data.
    pub fn finish(&mut self) -> (event: Option<Event>)
        ensures
            final(self).body() == old(self).body(),
            final(self).buffer() == decode_last(
                old(self).buffer(),
                old(self).pending(),
                Seq::empty(),
            ).rest,
            final(self).pending() == decode_last(
                old(self).buffer(),
                old(self).pending(),
                Seq::empty(),
            ).partial,
            event_view(event) == decode_last(
                old(self).buffer(),
                old(self).pending(),
                Seq::empty(),
            ).event,
    {
        assert(self.buffer@ + Seq::<u8>::empty() =~= self.buffer@);
        match parse_event_from_buffer(&mut self.buffer, &mut self.partial_event) {
            Some(event) => Some(event),
            None => finish_buffer(&mut self.buffer, &mut self.partial_event),
        }
    }

    /// Pulls the next event. Events that are complete in the buffer come
    /// first. Otherwise the body is pulled: content in memory is decoded to
    /// its end; a frozen body is an error; a reader or a stream has to be
    /// asked by the caller.
    pub fn poll_next(&mut self) -> (pull: SsePull)
        ensures
            final(self).body().mime_type() == old(self).body().mime_type(),
            ({
                let first = parse_buffer(old(self).buffer(), old(self).pending());
                if first.event is Some {
                    &&& yields(pull, first.event)
                    &&& final(self).body() == old(self).body()
                    &&& final(self).buffer() == first.rest
                    &&& final(self).pending() == first.partial
                } else {
                    match old(self).body().source() {
                        Source::Once(chunk) => {
                            let last = decode_last(first.rest, first.partial, bytes_content(chunk));
                            &&& yields(pull, last.event)
                            &&& final(self).body().source() is Once
                            &&& bytes_content(final(self).body().source()->Once_0) == Seq::<
                                u8,
                            >::empty()
                            &&& final(self).buffer() == last.rest
                            &&& final(self).pending() == last.partial
                        },
                        Source::Reader { .. } => {
                            &&& pull is Reader
                            &&& final(self).body() == old(self).body()
                            &&& final(self).buffer() == first.rest
                            &&& final(self).pending() == first.partial
                        },
                        Source::Stream(_) => {
                            &&& pull is Stream
                            &&& final(self).body() == old(self).body()
                            &&& final(self).buffer() == first.rest
                            &&& final(self).pending() == first.partial
                        },
                        Source::Frozen => {
                            &&& pull matches SsePull::Ready(Some(Err(ParseError::BodyError(report))))
                            &&& report@ == frozen_message()
                            &&& final(self).body() == old(self).body()
                            &&& final(self).buffer() == first.rest
                            &&& final(self).pending() == first.partial
                        },
                    }
                }
            }),
    {
        let ghost first = parse_buffer(self.buffer@, self.partial_event@);
        if let Some(event) = self.next_buffered() {
            return SsePull::Ready(Some(Ok(event)));
        }
        match self.body.poll_next() {
            Pull::Ready(Some(Ok(chunk))) => {
                self.push_chunk(&chunk);
                let event = match self.next_buffered() {
                    Some(event) => Some(event),
                    None => finish_buffer(&mut self.buffer, &mut self.partial_event),
                };
                match event {
                    Some(event) => SsePull::Ready(Some(Ok(event))),
                    None => SsePull::Ready(None),
                }
            },
            Pull::Ready(Some(Err(error))) => SsePull::Ready(Some(Err(Self::fail(&error)))),
            Pull::Ready(None) => {
                proof {
                    lemma_parse_buffer_settles(old(self).buffer(), old(self).pending());
                    assert(first.rest + Seq::<u8>::empty() =~= first.rest);
                }
                match finish_buffer(&mut self.buffer, &mut self.partial_event) {
                    Some(event) => SsePull::Ready(Some(Ok(event))),
                    None => SsePull::Ready(None),
                }
            },
            Pull::Reader => SsePull::Reader,
            Pull::Stream => SsePull::Stream,
        }
    }
}

} // verus!
