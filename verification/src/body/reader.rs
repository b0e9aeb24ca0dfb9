//! A body read as a stream of bytes through a buffer.

use crate::body::chunk::bytes_content;
use crate::body::chunk::chunk_advance;
use crate::body::chunk::chunk_bytes;
use crate::body::chunk::chunk_len;
use crate::body::chunk::empty_chunk;
use crate::body::Body;
use crate::body::Source;
use bytes::Bytes;
use vstd::prelude::*;

verus! {

/// A body that is read through a buffer.
pub enum IntoAsyncRead<R, S> {
    /// Content in memory; what was read is gone from the chunk.
    Once(Bytes),
    /// A reader, which buffers by itself.
    Reader(R),
    /// A stream, until it ends, and the unread rest of its last chunk.
    Stream { stream: Option<S>, buf: Bytes },
    /// A frozen body: every read fails.
    Freeze,
}

/// What has to happen before the buffer of a stream can be handed out.
pub enum DataPoll {
    /// Nothing: the buffer holds bytes, or the stream is over.
    Ready,
    /// The stream has to be polled for a frame, which goes to
    /// [`IntoAsyncRead::frame_polled`].
    Stream,
}

/// What a look into the buffer comes to.
pub enum Buffered<'a> {
    /// The bytes at hand; none at the end of the input.
    Bytes(&'a [u8]),
    /// The reader has to be asked.
    Reader,
    /// The body was frozen.
    Frozen,
}

impl<R, S> IntoAsyncRead<R, S> {
    /// The bytes that can be read without outside work.
    pub open spec fn at_hand(self) -> Seq<u8> {
        match self {
            IntoAsyncRead::Once(chunk) => bytes_content(chunk),
            IntoAsyncRead::Stream { buf, .. } => bytes_content(buf),
            _ => Seq::empty(),
        }
    }

    /// What is to be read through a buffer from `source`.
    pub open spec fn reading(self, source: Source<R, S>) -> bool {
        match source {
            Source::Once(chunk) => self == IntoAsyncRead::<R, S>::Once(chunk),
            Source::Reader { reader, .. } => self == IntoAsyncRead::<R, S>::Reader(reader),
            Source::Stream(stream) => {
                &&& self is Stream
                &&& self->stream == Some(stream)
                &&& bytes_content(self->buf) == Seq::<u8>::empty()
            },
            Source::Frozen => self is Freeze,
        }
    }

    /// Reads `body` through a buffer.
    pub fn new(body: Body<R, S>) -> (reader: Self)
        ensures
            reader.reading(body.source()),
    {
        match body.into_source() {
            Source::Once(chunk) => IntoAsyncRead::Once(chunk),
            Source::Reader { reader, .. } => IntoAsyncRead::Reader(reader),
            Source::Stream(stream) => IntoAsyncRead::Stream {
                stream: Some(stream),
                buf: empty_chunk(),
            },
            Source::Frozen => IntoAsyncRead::Freeze,
        }
    }

    /// Decides whether the stream has to be polled before its buffer is
    /// handed out: it has to while it lasts and the buffer is empty.
    pub fn poll_data(&self) -> (poll: DataPoll)
        ensures
            poll is Stream <==> {
                &&& *self is Stream
                &&& self->stream is Some
                &&& bytes_content(self->buf).len() == 0
            },
    {
        match self {
            IntoAsyncRead::Stream { stream, buf } => {
                if stream.is_some() && chunk_len(buf) == 0 {
                    DataPoll::Stream
                } else {
                    DataPoll::Ready
                }
            },
            _ => DataPoll::Ready,
        }
    }

    /// Accounts for what the stream delivered after [`DataPoll::Stream`]. A
    /// failure is passed on. The end of the stream drops the stream. A frame
    /// without data (`Ok(None)`) is passed over. A frame of data becomes the
    /// buffer, unless it is empty, when the stream has to be polled again
    /// (`None`).
    pub fn frame_polled(&mut self, frame: Option<Result<Option<Bytes>, std::io::Error>>) -> (done:
        Option<Result<(), std::io::Error>>)
        ensures
            !(*old(self) is Stream) ==> *final(self) == *old(self),
            match frame {
                None => {
                    &&& done == Some(Ok::<(), std::io::Error>(()))
                    &&& *old(self) is Stream ==> {
                        &&& *final(self) is Stream
                        &&& final(self)->stream is None
                        &&& final(self)->buf == old(self)->buf
                    }
                },
                Some(Err(error)) => {
                    &&& done == Some(Err::<(), std::io::Error>(error))
                    &&& *final(self) == *old(self)
                },
                Some(Ok(None)) => {
                    &&& done == Some(Ok::<(), std::io::Error>(()))
                    &&& *final(self) == *old(self)
                },
                Some(Ok(Some(data))) => if bytes_content(data).len() == 0 {
                    &&& done is None
                    &&& *final(self) == *old(self)
                } else {
                    &&& done == Some(Ok::<(), std::io::Error>(()))
                    &&& *old(self) is Stream ==> {
                        &&& *final(self) is Stream
                        &&& final(self)->stream == old(self)->stream
                        &&& final(self)->buf == data
                    }
                },
            },
    {
        match frame {
            None => {
                match self {
                    IntoAsyncRead::Stream { stream, .. } => {
                        *stream = None;
                    },
                    _ => {},
                }
                Some(Ok(()))
            },
            Some(Err(error)) => Some(Err(error)),
            Some(Ok(None)) => Some(Ok(())),
            Some(Ok(Some(data))) => {
                if chunk_len(&data) == 0 {
                    None
                } else {
                    match self {
                        IntoAsyncRead::Stream { buf, .. } => {
                            *buf = data;
                        },
                        _ => {},
                    }
                    Some(Ok(()))
                }
            },
        }
    }

    /// Looks into the buffer: the bytes at hand for memory and for a stream,
    /// a referral for a reader, a failure for a frozen body.
    pub fn fill_buf(&self) -> (buffered: Buffered<'_>)
        ensures
            match *self {
                IntoAsyncRead::Once(_) => {
                    &&& buffered is Bytes
                    &&& buffered->Bytes_0@ == self.at_hand()
                },
                IntoAsyncRead::Stream { .. } => {
                    &&& buffered is Bytes
                    &&& buffered->Bytes_0@ == self.at_hand()
                },
                IntoAsyncRead::Reader(_) => buffered is Reader,
                IntoAsyncRead::Freeze => buffered is Frozen,
            },
    {
        match self {
            IntoAsyncRead::Once(chunk) => Buffered::Bytes(chunk_bytes(chunk)),
            IntoAsyncRead::Stream { buf, .. } => Buffered::Bytes(chunk_bytes(buf)),
            IntoAsyncRead::Reader(_) => Buffered::Reader,
            IntoAsyncRead::Freeze => Buffered::Frozen,
        }
    }

    /// Marks `amount` bytes of the buffer as read. For a reader the call is
    /// to be passed on to it, which the result tells; a frozen body has
    /// nothing to mark.
    pub fn consume(&mut self, amount: usize) -> (forward: bool)
        requires
            amount <= old(self).at_hand().len() || *old(self) is Reader || *old(self) is Freeze,
        ensures
            forward == (*old(self) is Reader),
            match *old(self) {
                IntoAsyncRead::Once(_) => {
                    &&& *final(self) is Once
                    &&& final(self).at_hand() == old(self).at_hand().skip(amount as int)
                },
                IntoAsyncRead::Stream { stream, .. } => {
                    &&& *final(self) is Stream
                    &&& final(self)->stream == stream
                    &&& final(self).at_hand() == old(self).at_hand().skip(amount as int)
                },
                _ => *final(self) == *old(self),
            },
    {
        match self {
            IntoAsyncRead::Once(chunk) => {
                chunk_advance(chunk, amount);
                false
            },
            IntoAsyncRead::Stream { buf, .. } => {
                chunk_advance(buf, amount);
                false
            },
            IntoAsyncRead::Reader(_) => true,
            IntoAsyncRead::Freeze => false,
        }
    }
}

} // verus!
