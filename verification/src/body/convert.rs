//! Bodies made from bytes and text at hand. Every such body is typed
//! `application/octet-stream`.

use crate::body::chunk::bytes_content;
use crate::body::chunk::bytestr_content;
use crate::body::chunk::chunk_from_vec;
use crate::body::chunk::text_into_bytes;
use crate::body::Body;
use crate::body::Source;
use bytes::Bytes;
use bytestr::ByteStr;
use vstd::prelude::*;
use vstd::slice::slice_to_vec;
use vstd::utf8::encode_utf8;

verus! {

impl<R, S> From<Bytes> for Body<R, S> {
    fn from(data: Bytes) -> (body: Body<R, S>)
        ensures
            body.source() == Source::<R, S>::Once(data),
            body.mime_type() == Some("application/octet-stream"@),
    {
        Body::from_bytes(data)
    }
}

impl<R, S> vstd::std_specs::convert::FromSpecImpl<Bytes> for Body<R, S> {
    open spec fn obeys_from_spec() -> bool {
        false
    }

    open spec fn from_spec(data: Bytes) -> Body<R, S> {
        arbitrary()
    }
}

impl<R, S> From<Vec<u8>> for Body<R, S> {
    fn from(data: Vec<u8>) -> (body: Body<R, S>)
        ensures
            body.source() is Once,
            bytes_content(body.source()->Once_0) == data@,
            body.mime_type() == Some("application/octet-stream"@),
    {
        Body::from_bytes(chunk_from_vec(data))
    }
}

impl<R, S> vstd::std_specs::convert::FromSpecImpl<Vec<u8>> for Body<R, S> {
    open spec fn obeys_from_spec() -> bool {
        false
    }

    open spec fn from_spec(data: Vec<u8>) -> Body<R, S> {
        arbitrary()
    }
}

impl<R, S> From<ByteStr> for Body<R, S> {
    fn from(data: ByteStr) -> (body: Body<R, S>)
        ensures
            body.source() is Once,
            bytes_content(body.source()->Once_0) == encode_utf8(bytestr_content(data)),
            body.mime_type() == Some("application/octet-stream"@),
    {
        Body::from_bytes(text_into_bytes(data))
    }
}

impl<R, S> vstd::std_specs::convert::FromSpecImpl<ByteStr> for Body<R, S> {
    open spec fn obeys_from_spec() -> bool {
        false
    }

    open spec fn from_spec(data: ByteStr) -> Body<R, S> {
        arbitrary()
    }
}

impl<R, S> From<String> for Body<R, S> {
    fn from(data: String) -> (body: Body<R, S>)
        ensures
            body.source() is Once,
            bytes_content(body.source()->Once_0) == encode_utf8(data@),
            body.mime_type() == Some("application/octet-stream"@),
    {
        Body::from_bytes(chunk_from_vec(data.as_str().as_bytes_vec()))
    }
}

impl<R, S> vstd::std_specs::convert::FromSpecImpl<String> for Body<R, S> {
    open spec fn obeys_from_spec() -> bool {
        false
    }

    open spec fn from_spec(data: String) -> Body<R, S> {
        arbitrary()
    }
}

impl<R, S> From<&[u8]> for Body<R, S> {
    fn from(data: &[u8]) -> (body: Body<R, S>)
        ensures
            body.source() is Once,
            bytes_content(body.source()->Once_0) == data@,
            body.mime_type() == Some("application/octet-stream"@),
    {
        Body::from_bytes(chunk_from_vec(slice_to_vec(data)))
    }
}

impl<R, S> vstd::std_specs::convert::FromSpecImpl<&[u8]> for Body<R, S> {
    open spec fn obeys_from_spec() -> bool {
        false
    }

    open spec fn from_spec(data: &[u8]) -> Body<R, S> {
        arbitrary()
    }
}

impl<R, S> From<&str> for Body<R, S> {
    fn from(data: &str) -> (body: Body<R, S>)
        ensures
            body.source() is Once,
            bytes_content(body.source()->Once_0) == encode_utf8(data@),
            body.mime_type() == Some("application/octet-stream"@),
    {
        Body::from_bytes(chunk_from_vec(data.as_bytes_vec()))
    }
}

impl<R, S> vstd::std_specs::convert::FromSpecImpl<&str> for Body<R, S> {
    open spec fn obeys_from_spec() -> bool {
        false
    }

    open spec fn from_spec(data: &str) -> Body<R, S> {
        arbitrary()
    }
}

} // verus!
