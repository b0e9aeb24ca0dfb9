//! Aggregation of chunks into one buffer.

use crate::body::chunk::bytes_content;
use crate::body::chunk::chunk_bytes;
use crate::body::chunk::chunk_from_vec;
use crate::body::chunk::chunk_len;
use crate::body::chunk::empty_chunk;
use crate::body::error::BodyError;
use bytes::Bytes;
use vstd::prelude::*;

verus! {

/// What a collector holds.
enum Gathered {
    /// No chunk yet.
    Nothing,
    /// One chunk, kept as it came.
    One(Bytes),
    /// Two chunks or more, copied into one buffer.
    Many(Vec<u8>),
}

/// Gathers the chunks of a body in order. A single chunk is handed back as
/// it came, without a copy; from the second chunk on everything is copied
/// into one buffer.
pub struct Collector {
    gathered: Gathered,
}

/// Where an aggregation stands after one more answer of its source.
pub enum Gathering {
    /// The source has more to give; the collector holds what came so far.
    More(Collector),
    /// The aggregation is over: here is the whole content, or the failure
    /// that ended it.
    Done(Result<Bytes, BodyError>),
}

impl View for Collector {
    type V = Seq<u8>;

    /// The bytes gathered so far.
    closed spec fn view(&self) -> Seq<u8> {
        match self.gathered {
            Gathered::Nothing => Seq::empty(),
            Gathered::One(chunk) => bytes_content(chunk),
            Gathered::Many(buffer) => buffer@,
        }
    }
}

/// An empty buffer with room for `capacity` bytes, or with less room if so
/// much cannot be had.
fn reserved(capacity: usize) -> (buffer: Vec<u8>)
    ensures
        buffer@ == Seq::<u8>::empty(),
{
    let mut buffer: Vec<u8> = Vec::new();
    let _ = buffer.try_reserve(capacity);
    buffer
}

impl Collector {
    /// The chunk that will be handed back unmodified, if exactly one chunk
    /// was gathered.
    pub closed spec fn sole(&self) -> Option<Bytes> {
        match self.gathered {
            Gathered::One(chunk) => Some(chunk),
            _ => None,
        }
    }

    /// True when no chunk was gathered and no buffer was allocated.
    pub closed spec fn untouched(&self) -> bool {
        self.gathered is Nothing
    }

    /// A collector that holds nothing.
    pub fn new() -> (collector: Collector)
        ensures
            collector@ == Seq::<u8>::empty(),
            collector.untouched(),
            collector.sole() is None,
    {
        Collector { gathered: Gathered::Nothing }
    }

    /// A collector that holds nothing and copies every chunk into a buffer
    /// with room for `capacity` bytes, if so much can be had.
    pub fn with_capacity(capacity: usize) -> (collector: Collector)
        ensures
            collector@ == Seq::<u8>::empty(),
            !collector.untouched(),
            collector.sole() is None,
    {
        Collector { gathered: Gathered::Many(reserved(capacity)) }
    }

    /// Adds a chunk. `hint` is the number of bytes still expected after it.
    /// When the second chunk arrives, room is sought for both chunks and the
    /// hint together; the hint has no other effect.
    pub fn push(&mut self, chunk: Bytes, hint: usize)
        ensures
            final(self)@ == old(self)@ + bytes_content(chunk),
            final(self).sole() == if old(self).untouched() {
                Some(chunk)
            } else {
                None
            },
            !final(self).untouched(),
    {
        let mut gathered = Gathered::Nothing;
        core::mem::swap(&mut self.gathered, &mut gathered);
        match gathered {
            Gathered::Nothing => {
                self.gathered = Gathered::One(chunk);
                assert(self@ =~= old(self)@ + bytes_content(chunk));
            },
            Gathered::One(first) => {
                let capacity = match chunk_len(&first).checked_add(chunk_len(&chunk)) {
                    Some(both) => match both.checked_add(hint) {
                        Some(all) => all,
                        None => 0,
                    },
                    None => 0,
                };
                let mut buffer = reserved(capacity);
                buffer.extend_from_slice(chunk_bytes(&first));
                buffer.extend_from_slice(chunk_bytes(&chunk));
                self.gathered = Gathered::Many(buffer);
                assert(self@ =~= old(self)@ + bytes_content(chunk));
            },
            Gathered::Many(buffer) => {
                let mut buffer = buffer;
                buffer.extend_from_slice(chunk_bytes(&chunk));
                self.gathered = Gathered::Many(buffer);
            },
        }
    }

    /// Adds bytes by copying them; whatever was gathered before is copied
    /// too, if it was not yet.
    pub fn extend(&mut self, bytes: &[u8])
        ensures
            final(self)@ == old(self)@ + bytes@,
            final(self).sole() is None,
            !final(self).untouched(),
    {
        let mut gathered = Gathered::Nothing;
        core::mem::swap(&mut self.gathered, &mut gathered);
        let mut buffer = match gathered {
            Gathered::Nothing => Vec::new(),
            Gathered::One(first) => {
                let mut copied: Vec<u8> = Vec::new();
                copied.extend_from_slice(chunk_bytes(&first));
                copied
            },
            Gathered::Many(buffer) => buffer,
        };
        assert(buffer@ =~= old(self)@);
        buffer.extend_from_slice(bytes);
        self.gathered = Gathered::Many(buffer);
    }

    /// The chunk that holds everything gathered. If exactly one chunk was
    /// gathered, it is that chunk.
    pub fn finish(self) -> (all: Bytes)
        ensures
            bytes_content(all) == self@,
            self.sole() is Some ==> all == self.sole()->0,
    {
        match self.gathered {
            Gathered::Nothing => empty_chunk(),
            Gathered::One(chunk) => chunk,
            Gathered::Many(buffer) => chunk_from_vec(buffer),
        }
    }

    /// Takes what a stream yielded. A chunk is added, with the stream's
    /// upper bound on what is still to come as the hint, or its lower bound
    /// where it gives no upper one. A failure ends the aggregation with that
    /// failure, and what was gathered is dropped. The end of the stream ends
    /// the aggregation with all that was gathered.
    pub fn gathered(
        self,
        item: Option<Result<Bytes, BodyError>>,
        lower: usize,
        upper: Option<usize>,
    ) -> (next: Gathering)
        ensures
            match item {
                Some(Ok(chunk)) => {
                    &&& next is More
                    &&& next->More_0@ == self@ + bytes_content(chunk)
                    &&& next->More_0.sole() == if self.untouched() {
                        Some(chunk)
                    } else {
                        None
                    }
                    &&& !next->More_0.untouched()
                },
                Some(Err(error)) => next == Gathering::Done(Err(error)),
                None => {
                    &&& next is Done
                    &&& next->Done_0 is Ok
                    &&& bytes_content(next->Done_0->Ok_0) == self@
                    &&& self.sole() is Some ==> next->Done_0->Ok_0 == self.sole()->0
                },
            },
    {
        match item {
            Some(Ok(chunk)) => {
                let hint = match upper {
                    Some(bound) => bound,
                    None => lower,
                };
                let mut collector = self;
                collector.push(chunk, hint);
                Gathering::More(collector)
            },
            Some(Err(error)) => Gathering::Done(Err(error)),
            None => Gathering::Done(Ok(self.finish())),
        }
    }

    /// Takes what a reader's buffer held. Bytes are copied in. A failure
    /// ends the aggregation with that failure, and what was gathered is
    /// dropped. An empty buffer is the end of the input and ends the
    /// aggregation with all that was gathered.
    pub fn read(self, filled: Result<&[u8], std::io::Error>) -> (next: Gathering)
        ensures
            match filled {
                Ok(bytes) => if bytes@.len() == 0 {
                    &&& next is Done
                    &&& next->Done_0 is Ok
                    &&& bytes_content(next->Done_0->Ok_0) == self@
                    &&& self.sole() is Some ==> next->Done_0->Ok_0 == self.sole()->0
                } else {
                    &&& next is More
                    &&& next->More_0@ == self@ + bytes@
                    &&& next->More_0.sole() is None
                    &&& !next->More_0.untouched()
                },
                Err(error) => next == Gathering::Done(Err(BodyError::Io(error))),
            },
    {
        match filled {
            Ok(bytes) => {
                if bytes.len() == 0 {
                    Gathering::Done(Ok(self.finish()))
                } else {
                    let mut collector = self;
                    collector.extend(bytes);
                    Gathering::More(collector)
                }
            },
            Err(error) => Gathering::Done(Err(BodyError::Io(error))),
        }
    }
}

} // verus!
