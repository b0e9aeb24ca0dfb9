//! Byte chunks and validated text, as the `bytes` and `bytestr` crates hold
//! them, behind the few operations that the body needs.

use bytes::Bytes;
use bytestr::ByteStr;
use core::str::Utf8Error;
use vstd::prelude::*;
use vstd::utf8::decode_utf8;
use vstd::utf8::encode_utf8;
use vstd::utf8::valid_utf8;

verus! {

/// `bytes::Bytes`, a shared chunk of bytes; known here by what it holds.
#[verifier::external_type_specification]
#[verifier::external_body]
pub struct ExBytes(bytes::Bytes);

/// `bytestr::ByteStr`, a chunk that is valid UTF-8; known here by the text
/// it holds.
#[verifier::external_type_specification]
#[verifier::external_body]
pub struct ExByteStr(bytestr::ByteStr);

/// `core::str::Utf8Error`, carried as it comes.
#[verifier::external_type_specification]
#[verifier::external_body]
pub struct ExUtf8Error(core::str::Utf8Error);

/// The bytes that a chunk holds.
pub uninterp spec fn bytes_content(chunk: Bytes) -> Seq<u8>;

/// The characters that a validated text holds.
pub uninterp spec fn bytestr_content(text: ByteStr) -> Seq<char>;

/// `Bytes::clone`: a second handle on the same bytes.
pub assume_specification[ <bytes::Bytes as Clone>::clone ](chunk: &bytes::Bytes) -> (copy:
    bytes::Bytes)
    ensures
        bytes_content(copy) == bytes_content(*chunk),
;

/// `ByteStr::clone`: a second handle on the same text.
pub assume_specification[ <bytestr::ByteStr as Clone>::clone ](text: &bytestr::ByteStr) -> (copy:
    bytestr::ByteStr)
    ensures
        bytestr_content(copy) == bytestr_content(*text),
;

/// `Bytes::new`: a chunk that holds nothing.
#[verifier::external_body]
pub(crate) fn empty_chunk() -> (chunk: Bytes)
    ensures
        bytes_content(chunk) == Seq::<u8>::empty(),
{
    Bytes::new()
}

/// `Bytes::len`: the number of bytes held.
#[verifier::external_body]
pub(crate) fn chunk_len(chunk: &Bytes) -> (len: usize)
    ensures
        len == bytes_content(*chunk).len(),
{
    chunk.len()
}

/// `Bytes::from` a vector: the chunk holds the vector's bytes.
#[verifier::external_body]
pub(crate) fn chunk_from_vec(bytes: Vec<u8>) -> (chunk: Bytes)
    ensures
        bytes_content(chunk) == bytes@,
{
    Bytes::from(bytes)
}

/// `Bytes::as_ref`: the bytes held, as a slice.
#[verifier::external_body]
pub(crate) fn chunk_bytes(chunk: &Bytes) -> (bytes: &[u8])
    ensures
        bytes@ == bytes_content(*chunk),
{
    chunk.as_ref()
}

/// `Buf::advance` on a chunk: drops the first `count` bytes.
#[verifier::external_body]
pub(crate) fn chunk_advance(chunk: &mut Bytes, count: usize)
    requires
        count <= bytes_content(*old(chunk)).len(),
    ensures
        bytes_content(*final(chunk)) == bytes_content(*old(chunk)).skip(count as int),
{
    bytes::Buf::advance(chunk, count)
}

/// `ByteStr::from_utf8`: succeeds exactly on valid UTF-8, and then holds the
/// decoded text.
#[verifier::external_body]
pub(crate) fn text_from_utf8(chunk: Bytes) -> (text: Result<ByteStr, Utf8Error>)
    ensures
        valid_utf8(bytes_content(chunk)) ==> text is Ok && bytestr_content(text->Ok_0)
            == decode_utf8(bytes_content(chunk)),
        !valid_utf8(bytes_content(chunk)) ==> text is Err,
{
    ByteStr::from_utf8(chunk)
}

/// `ByteStr::from` a string: the text holds the string's characters.
#[verifier::external_body]
pub(crate) fn text_from_string(string: String) -> (text: ByteStr)
    ensures
        bytestr_content(text) == string@,
{
    ByteStr::from(string)
}

/// `ByteStr::as_str`: the text held, as a string slice.
#[verifier::external_body]
pub(crate) fn text_str(text: &ByteStr) -> (string: &str)
    ensures
        string@ == bytestr_content(*text),
{
    text.as_str()
}

/// `ByteStr::into_bytes`: the chunk under a text, which is its UTF-8 encoding.
#[verifier::external_body]
pub(crate) fn text_into_bytes(text: ByteStr) -> (chunk: Bytes)
    ensures
        bytes_content(chunk) == encode_utf8(bytestr_content(text)),
{
    text.into_bytes()
}

/// `core::str::from_utf8`: succeeds exactly on valid UTF-8, and then gives
/// the decoded text.
#[verifier::external_body]
pub(crate) fn str_from_utf8(bytes: &[u8]) -> (text: Result<&str, Utf8Error>)
    ensures
        valid_utf8(bytes@) ==> text is Ok && text->Ok_0@ == decode_utf8(bytes@),
        !valid_utf8(bytes@) ==> text is Err,
{
    core::str::from_utf8(bytes)
}

} // verus!
