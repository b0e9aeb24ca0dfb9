//! Byte-level text: ASCII literals, prefixes, lossy UTF-8 decoding and
//! decimal numbers.
//!
//! Wire formats are bytes; Rust strings are sequences of characters. The
//! functions here connect the two over `vstd::utf8`.

use vstd::prelude::*;
use vstd::string::StringExecFns;
use vstd::utf8::*;

verus! {

/// Line feed.
pub const LF: u8 = 0x0A;

/// Carriage return.
pub const CR: u8 = 0x0D;

/// Space.
pub const SPACE: u8 = 0x20;

/// Plus sign.
pub const PLUS: u8 = 0x2B;

/// Colon.
pub const COLON: u8 = 0x3A;

/// The digit zero.
pub const DIGIT_ZERO: u8 = 0x30;

/// The view of an optional string.
pub open spec fn text_of(value: Option<String>) -> Option<Seq<char>> {
    match value {
        Some(text) => Some(text@),
        None => None,
    }
}

/// The bytes of an ASCII text, one per character.
pub open spec fn ascii(text: Seq<char>) -> Seq<u8> {
    Seq::new(text.len(), |i: int| text[i] as u8)
}

/// The characters of a sequence of ASCII bytes, one per byte.
pub open spec fn ascii_text(bytes: Seq<u8>) -> Seq<char> {
    Seq::new(bytes.len(), |i: int| bytes[i] as char)
}

/// True when every byte is below 0x80.
pub open spec fn is_ascii_bytes(bytes: Seq<u8>) -> bool {
    forall|i: int| 0 <= i < bytes.len() ==> bytes[i] < 0x80
}

/// An ASCII text is encoded as its characters' codes.
pub proof fn lemma_ascii_encoding(text: Seq<char>)
    requires
        is_ascii_chars(text),
    ensures
        encode_utf8(text) == ascii(text),
        is_ascii_bytes(ascii(text)),
        ascii_text(ascii(text)) == text,
{
    is_ascii_chars_encode_utf8(text);
    assert(encode_utf8(text) =~= ascii(text));
    assert forall|i: int| 0 <= i < text.len() implies (text[i] as u8) < 0x80 && (text[i] as u8) as char
        == text[i] by {
        assert(is_ascii_chars(text));
        assert((text[i] as nat) < 128);
    }
    assert(ascii_text(ascii(text)) =~= text);
}

/// ASCII bytes are valid UTF-8 and decode to one character per byte.
pub proof fn lemma_ascii_decoding(bytes: Seq<u8>)
    requires
        is_ascii_bytes(bytes),
    ensures
        is_ascii_chars(ascii_text(bytes)),
        valid_utf8(bytes),
        decode_utf8(bytes) == ascii_text(bytes),
        encode_utf8(ascii_text(bytes)) == bytes,
{
    let text = ascii_text(bytes);
    assert forall|i: int| 0 <= i < text.len() implies (text[i] as nat) < 128 && (text[i] as u8)
        == bytes[i] by {
        assert(bytes[i] < 0x80);
    }
    assert(is_ascii_chars(text));
    is_ascii_chars_encode_utf8(text);
    assert(encode_utf8(text) =~= bytes);
    encode_utf8_valid_utf8(text);
    encode_utf8_decode_utf8(text);
}

/// The bytes of an ASCII string slice.
pub fn ascii_bytes(text: &str) -> (bytes: &[u8])
    requires
        is_ascii_chars(text@),
    ensures
        bytes@ == ascii(text@),
{
    proof {
        lemma_ascii_encoding(text@);
    }
    text.as_bytes()
}

/// Whether `bytes` begins with `prefix`.
pub fn starts_with(bytes: &[u8], prefix: &[u8]) -> (found: bool)
    ensures
        found == prefix@.is_prefix_of(bytes@),
{
    if prefix.len() > bytes.len() {
        return false;
    }
    let mut i: usize = 0;
    while i < prefix.len()
        invariant
            i <= prefix.len() <= bytes.len(),
            forall|j: int| 0 <= j < i ==> bytes[j] == prefix[j],
        decreases prefix.len() - i,
    {
        if bytes[i] != prefix[i] {
            assert(bytes@.subrange(0, prefix@.len() as int)[i as int] != prefix@[i as int]);
            return false;
        }
        i += 1;
    }
    assert(prefix@ =~= bytes@.subrange(0, prefix@.len() as int));
    true
}

/// Whether two byte slices hold the same bytes.
pub fn same_bytes(left: &[u8], right: &[u8]) -> (same: bool)
    ensures
        same == (left@ == right@),
{
    if left.len() != right.len() {
        return false;
    }
    let found = starts_with(left, right);
    proof {
        if found {
            assert(left@ =~= left@.subrange(0, right@.len() as int));
        }
    }
    found
}

/// What `String::from_utf8_lossy` makes of bytes that are not valid UTF-8:
/// the text with each malformed sequence replaced by U+FFFD.
pub uninterp spec fn utf8_repaired(bytes: Seq<u8>) -> Seq<char>;

/// The text that bytes stand for when malformed UTF-8 is tolerated: valid
/// input decodes exactly, anything else is repaired.
pub open spec fn lossy_text(bytes: Seq<u8>) -> Seq<char> {
    if valid_utf8(bytes) {
        decode_utf8(bytes)
    } else {
        utf8_repaired(bytes)
    }
}

/// `String::from_utf8_lossy`, made owned. Valid UTF-8 comes back decoded
/// unchanged; for any other input the result is whatever the standard library
/// substitutes, known here only by name.
#[verifier::external_body]
fn from_utf8_lossy(bytes: &[u8]) -> (text: String)
    ensures
        valid_utf8(bytes@) ==> text@ == decode_utf8(bytes@),
        !valid_utf8(bytes@) ==> text@ == utf8_repaired(bytes@),
{
    String::from_utf8_lossy(bytes).into_owned()
}

/// Decodes bytes as UTF-8, replacing malformed sequences.
pub fn decode_lossy(bytes: &[u8]) -> (text: String)
    ensures
        text@ == lossy_text(bytes@),
{
    from_utf8_lossy(bytes)
}

/// Text survives a trip through its UTF-8 encoding.
pub proof fn lemma_lossy_text_of_encoding(text: Seq<char>)
    ensures
        lossy_text(encode_utf8(text)) == text,
{
    encode_utf8_valid_utf8(text);
    encode_utf8_decode_utf8(text);
}

/// The encoding of a concatenation is the concatenation of the encodings.
pub proof fn lemma_encode_utf8_concat(left: Seq<char>, right: Seq<char>)
    ensures
        encode_utf8(left + right) == encode_utf8(left) + encode_utf8(right),
    decreases left.len(),
{
    if left.len() == 0 {
        assert(left + right =~= right);
        assert(encode_utf8(left) + encode_utf8(right) =~= encode_utf8(right));
    } else {
        assert((left + right).drop_first() =~= left.drop_first() + right);
        lemma_encode_utf8_concat(left.drop_first(), right);
        assert(encode_scalar(left[0] as u32) + (encode_utf8(left.drop_first()) + encode_utf8(
            right,
        )) =~= (encode_scalar(left[0] as u32) + encode_utf8(left.drop_first())) + encode_utf8(
            right,
        ));
    }
}

/// A byte with the high bit set is not an ASCII byte.
proof fn lemma_high_bytes(low: u8)
    by (bit_vector)
    ensures
        0xC0u8 | low >= 0x80u8,
        0xE0u8 | low >= 0x80u8,
        0xF0u8 | low >= 0x80u8,
        0x80u8 | low >= 0x80u8,
{
}

/// A scalar below 0x80 is encoded as itself.
proof fn lemma_low_scalar(scalar: u32)
    by (bit_vector)
    requires
        scalar <= 0x7F,
    ensures
        (scalar & 0x7F) as u8 as u32 == scalar,
{
}

/// An ASCII byte occurs in the encoding of a scalar only as the encoding of
/// the character with that code.
pub proof fn lemma_scalar_avoids(scalar: u32, byte: u8)
    requires
        is_scalar(scalar),
        byte < 0x80,
        scalar != byte as u32,
    ensures
        encode_scalar(scalar).len() > 0,
        forall|i: int| 0 <= i < encode_scalar(scalar).len() ==> encode_scalar(scalar)[i] != byte,
{
    if has_width_1_encoding(scalar) {
        lemma_low_scalar(scalar);
    } else if has_width_2_encoding(scalar) {
        lemma_high_bytes(((scalar >> 6) & 0x1F) as u8);
        lemma_high_bytes((scalar & 0x3F) as u8);
    } else if has_width_3_encoding(scalar) {
        lemma_high_bytes(((scalar >> 12) & 0x0F) as u8);
        lemma_high_bytes(((scalar >> 6) & 0x3F) as u8);
        lemma_high_bytes((scalar & 0x3F) as u8);
    } else {
        lemma_high_bytes(((scalar >> 18) & 0x7) as u8);
        lemma_high_bytes(((scalar >> 12) & 0x3F) as u8);
        lemma_high_bytes(((scalar >> 6) & 0x3F) as u8);
        lemma_high_bytes((scalar & 0x3F) as u8);
    }
}

/// An ASCII byte that is the code of no character of a text does not occur
/// in the text's encoding.
pub proof fn lemma_encoding_avoids(text: Seq<char>, byte: u8)
    requires
        byte < 0x80,
        forall|i: int| 0 <= i < text.len() ==> text[i] as u32 != byte as u32,
    ensures
        forall|i: int| 0 <= i < encode_utf8(text).len() ==> encode_utf8(text)[i] != byte,
    decreases text.len(),
{
    if text.len() > 0 {
        char_is_scalar(text[0]);
        lemma_scalar_avoids(text[0] as u32, byte);
        assert forall|i: int| 0 <= i < text.drop_first().len() implies text.drop_first()[i] as u32
            != byte as u32 by {
            assert(text.drop_first()[i] == text[i + 1]);
        }
        lemma_encoding_avoids(text.drop_first(), byte);
        let head = encode_scalar(text[0] as u32);
        let tail = encode_utf8(text.drop_first());
        assert(encode_utf8(text) == head + tail);
        assert forall|i: int| 0 <= i < encode_utf8(text).len() implies encode_utf8(text)[i]
            != byte by {
            if i < head.len() {
                assert((head + tail)[i] == head[i]);
            } else {
                assert((head + tail)[i] == tail[i - head.len()]);
            }
        }
    }
}

/// The encoding of a text that does not end in a given ASCII character does
/// not end in that character's byte.
pub proof fn lemma_encoding_last_avoids(text: Seq<char>, byte: u8)
    requires
        byte < 0x80,
        text.len() > 0,
        text.last() as u32 != byte as u32,
    ensures
        encode_utf8(text).len() > 0,
        encode_utf8(text).last() != byte,
{
    let last = seq![text.last()];
    assert(text =~= text.drop_last() + last);
    lemma_encode_utf8_concat(text.drop_last(), last);
    char_is_scalar(text.last());
    lemma_scalar_avoids(text.last() as u32, byte);
    let head = encode_scalar(text.last() as u32);
    assert(last.drop_first() =~= Seq::<char>::empty());
    assert(encode_utf8(Seq::<char>::empty()) =~= Seq::<u8>::empty());
    assert(encode_utf8(last) == head + encode_utf8(last.drop_first()));
    assert(encode_utf8(last) =~= head);
    assert(encode_utf8(text).last() == head.last());
}

/// True for the ASCII digits `0` to `9`.
pub open spec fn is_digit(byte: u8) -> bool {
    0x30 <= byte <= 0x39
}

/// True when every byte is an ASCII digit.
pub open spec fn all_digits(bytes: Seq<u8>) -> bool {
    forall|i: int| 0 <= i < bytes.len() ==> is_digit(#[trigger] bytes[i])
}

/// The number that a run of decimal digits denotes; the empty run denotes 0.
pub open spec fn digits_value(digits: Seq<u8>) -> nat
    decreases digits.len(),
{
    if digits.len() == 0 {
        0
    } else {
        digits_value(digits.drop_last()) * 10 + (digits.last() - 0x30) as nat
    }
}

/// The digits to be read as a number: the input without one leading `+`.
pub open spec fn unsigned_digits(bytes: Seq<u8>) -> Seq<u8> {
    if bytes.len() > 0 && bytes[0] == PLUS {
        bytes.skip(1)
    } else {
        bytes
    }
}

/// Reads an unsigned decimal number: an optional `+`, then one or more
/// digits and nothing else, denoting a value that fits in 64 bits.
pub open spec fn parse_u64(bytes: Seq<u8>) -> Option<u64> {
    let digits = unsigned_digits(bytes);
    if digits.len() > 0 && all_digits(digits) && digits_value(digits) <= u64::MAX {
        Some(digits_value(digits) as u64)
    } else {
        None
    }
}

/// A longer run of digits denotes at least as much as any of its prefixes.
pub proof fn lemma_digits_value_prefix(digits: Seq<u8>, n: int)
    requires
        all_digits(digits),
        0 <= n <= digits.len(),
    ensures
        digits_value(digits.take(n)) <= digits_value(digits),
    decreases digits.len(),
{
    if n == digits.len() {
        assert(digits.take(n) =~= digits);
    } else {
        assert(is_digit(digits.last()));
        lemma_digits_value_prefix(digits.drop_last(), n);
        assert(digits.drop_last().take(n) =~= digits.take(n));
    }
}

/// Parses an unsigned decimal number from bytes.
pub fn parse_decimal(bytes: &[u8]) -> (value: Option<u64>)
    ensures
        value == parse_u64(bytes@),
{
    let start: usize = if bytes.len() > 0 && bytes[0] == PLUS {
        1
    } else {
        0
    };
    let ghost digits = unsigned_digits(bytes@);
    assert(digits == bytes@.skip(start as int));
    if start == bytes.len() {
        return None;
    }
    let mut i: usize = start;
    let mut acc: u64 = 0;
    while i < bytes.len()
        invariant
            start <= i <= bytes.len(),
            start < bytes.len(),
            digits == bytes@.skip(start as int),
            digits == unsigned_digits(bytes@),
            all_digits(digits.take(i - start)),
            acc == digits_value(digits.take(i - start)),
        decreases bytes.len() - i,
    {
        let byte = bytes[i];
        let ghost seen = digits.take(i - start);
        let ghost next = digits.take(i - start + 1);
        assert(digits[i - start] == byte);
        if byte < DIGIT_ZERO || byte > 0x39 {
            assert(!is_digit(digits[i - start]));
            return None;
        }
        assert(next.drop_last() =~= seen);
        assert(next.last() == byte);
        assert(all_digits(next)) by {
            assert forall|j: int| 0 <= j < next.len() implies is_digit(#[trigger] next[j]) by {
                if j < seen.len() {
                    assert(seen[j] == next[j]);
                }
            }
        }
        let digit: u64 = (byte - DIGIT_ZERO) as u64;
        let grown = match acc.checked_mul(10) {
            Some(tens) => tens.checked_add(digit),
            None => None,
        };
        match grown {
            Some(sum) => {
                acc = sum;
            },
            None => {
                proof {
                    assert(digits_value(next) > u64::MAX);
                    if all_digits(digits) {
                        lemma_digits_value_prefix(digits, i - start + 1);
                    }
                }
                return None;
            },
        }
        i += 1;
    }
    assert(digits.take(i - start) =~= digits);
    Some(acc)
}

/// The decimal digits of a number, most significant first, without leading
/// zeros.
pub open spec fn decimal_digits(n: nat) -> Seq<u8>
    decreases n,
{
    if n < 10 {
        seq![(0x30 + n) as u8]
    } else {
        decimal_digits(n / 10).push((0x30 + n % 10) as u8)
    }
}

/// The decimal digits of a number as characters.
pub open spec fn decimal_text(n: nat) -> Seq<char> {
    ascii_text(decimal_digits(n))
}

/// Decimal digits are digits, and reading them gives the number back.
pub proof fn lemma_decimal_digits(n: nat)
    ensures
        decimal_digits(n).len() > 0,
        all_digits(decimal_digits(n)),
        digits_value(decimal_digits(n)) == n,
    decreases n,
{
    let digits = decimal_digits(n);
    if n < 10 {
        assert(digits.drop_last() =~= Seq::<u8>::empty());
        assert(digits_value(digits.drop_last()) == 0);
    } else {
        lemma_decimal_digits(n / 10);
        assert(digits.drop_last() =~= decimal_digits(n / 10));
        assert(digits.last() == (0x30 + n % 10) as u8);
        assert forall|j: int| 0 <= j < digits.len() implies is_digit(#[trigger] digits[j]) by {
            if j < digits.len() - 1 {
                assert(digits[j] == decimal_digits(n / 10)[j]);
            }
        }
    }
}

/// Writing a number in decimal and parsing it again is the identity.
pub proof fn lemma_parse_decimal_digits(n: u64)
    ensures
        parse_u64(decimal_digits(n as nat)) == Some(n),
        is_ascii_bytes(decimal_digits(n as nat)),
{
    lemma_decimal_digits(n as nat);
    let digits = decimal_digits(n as nat);
    assert(is_digit(digits[0]));
    assert(unsigned_digits(digits) == digits);
    assert forall|i: int| 0 <= i < digits.len() implies digits[i] < 0x80 by {
        assert(is_digit(digits[i]));
    }
}

/// The one-character string of a decimal digit.
fn digit_str(digit: u8) -> (text: &'static str)
    requires
        digit < 10,
    ensures
        text@ == seq![(0x30 + digit) as u8 as char],
{
    proof {
        reveal_strlit("0");
        reveal_strlit("1");
        reveal_strlit("2");
        reveal_strlit("3");
        reveal_strlit("4");
        reveal_strlit("5");
        reveal_strlit("6");
        reveal_strlit("7");
        reveal_strlit("8");
        reveal_strlit("9");
    }
    let text = match digit {
        0 => "0",
        1 => "1",
        2 => "2",
        3 => "3",
        4 => "4",
        5 => "5",
        6 => "6",
        7 => "7",
        8 => "8",
        _ => "9",
    };
    assert(text@ =~= seq![(0x30 + digit) as u8 as char]);
    text
}

/// Appends the decimal digits of `n` to `out`.
pub fn push_decimal(out: &mut String, n: u64)
    ensures
        final(out)@ == old(out)@ + decimal_text(n as nat),
    decreases n,
{
    if n >= 10 {
        push_decimal(out, n / 10);
    }
    let digit: u8 = (n % 10) as u8;
    out.append(digit_str(digit));
    proof {
        let digits = decimal_digits(n as nat);
        if n >= 10 {
            assert(decimal_text(n as nat) =~= decimal_text((n / 10) as nat) + seq![(0x30
                + digit) as u8 as char]);
        } else {
            assert(decimal_text(n as nat) =~= seq![(0x30 + digit) as u8 as char]);
        }
    }
}

} // verus!
