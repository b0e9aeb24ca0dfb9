//! Media types guessed from file extensions.

use crate::text::same_bytes;
use vstd::prelude::*;
use vstd::utf8::encode_utf8;

verus! {

/// The media type of a file extension, given in lower case without the dot,
/// if the extension is one of those known.
pub open spec fn guess_text(extension: Seq<u8>) -> Option<Seq<char>> {
    if extension == encode_utf8("aac"@) {
        Some("audio/aac"@)
    } else if extension == encode_utf8("avi"@) {
        Some("video/x-msvideo"@)
    } else if extension == encode_utf8("css"@) {
        Some("text/css"@)
    } else if extension == encode_utf8("gif"@) {
        Some("image/gif"@)
    } else if extension == encode_utf8("jpeg"@) || extension == encode_utf8("jpg"@) {
        Some("image/jpeg"@)
    } else if extension == encode_utf8("js"@) {
        Some("text/javascript"@)
    } else if extension == encode_utf8("json"@) {
        Some("application/json"@)
    } else if extension == encode_utf8("mp3"@) {
        Some("audio/mpeg"@)
    } else if extension == encode_utf8("mp4"@) {
        Some("video/mp4"@)
    } else if extension == encode_utf8("png"@) {
        Some("image/png"@)
    } else if extension == encode_utf8("svg"@) {
        Some("image/svg+xml"@)
    } else if extension == encode_utf8("ttf"@) {
        Some("font/ttf"@)
    } else if extension == encode_utf8("txt"@) {
        Some("text/plain"@)
    } else if extension == encode_utf8("wav"@) {
        Some("audio/wav"@)
    } else if extension == encode_utf8("webp"@) {
        Some("image/webp"@)
    } else {
        None
    }
}

/// Whether `extension` is the text `name`.
fn is(extension: &[u8], name: &str) -> (same: bool)
    ensures
        same == (extension@ == encode_utf8(name@)),
{
    same_bytes(extension, name.as_bytes())
}

/// Guesses the media type from a file extension.
pub fn guess(extension: &[u8]) -> (mime: Option<&'static str>)
    ensures
        match mime {
            Some(name) => guess_text(extension@) == Some(name@),
            None => guess_text(extension@) is None,
        },
{
    if is(extension, "aac") {
        Some("audio/aac")
    } else if is(extension, "avi") {
        Some("video/x-msvideo")
    } else if is(extension, "css") {
        Some("text/css")
    } else if is(extension, "gif") {
        Some("image/gif")
    } else if is(extension, "jpeg") || is(extension, "jpg") {
        Some("image/jpeg")
    } else if is(extension, "js") {
        Some("text/javascript")
    } else if is(extension, "json") {
        Some("application/json")
    } else if is(extension, "mp3") {
        Some("audio/mpeg")
    } else if is(extension, "mp4") {
        Some("video/mp4")
    } else if is(extension, "png") {
        Some("image/png")
    } else if is(extension, "svg") {
        Some("image/svg+xml")
    } else if is(extension, "ttf") {
        Some("font/ttf")
    } else if is(extension, "txt") {
        Some("text/plain")
    } else if is(extension, "wav") {
        Some("audio/wav")
    } else if is(extension, "webp") {
        Some("image/webp")
    } else {
        None
    }
}

} // verus!
