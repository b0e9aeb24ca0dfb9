//! What holds of the codec as a whole: decoding does not depend on how the
//! input was cut into chunks, the end of the input dispatches at most once,
//! and an encoded event decodes to itself.

use crate::sse::decode::decode_events;
use crate::sse::decode::drain;
use crate::sse::decode::feed;
use crate::sse::decode::last_events;
use crate::sse::decode::lemma_drain_append;
use crate::sse::decode::lemma_drain_by_pulls;
use crate::sse::decode::lemma_feed_is_drain;
use crate::sse::decode::Drained;
use crate::sse::decoder::after_line;
use crate::sse::decoder::classify;
use crate::sse::decoder::dispatches;
use crate::sse::decoder::field_value;
use crate::sse::decoder::finish;
use crate::sse::decoder::join_lines;
use crate::sse::decoder::lemma_first_lf;
use crate::sse::decoder::line_content;
use crate::sse::decoder::parse_buffer;
use crate::sse::decoder::Line;
use crate::sse::decoder::PartialEventView;
use crate::sse::event::encode_text;
use crate::sse::event::field_line;
use crate::sse::event::optional_line;
use crate::sse::event::retry_line;
use crate::sse::stream::decode_last;
use crate::sse::event::EventView;
use crate::text::ascii;
use crate::text::decimal_digits;
use crate::text::decimal_text;
use crate::text::lemma_ascii_decoding;
use crate::text::lemma_ascii_encoding;
use crate::text::lemma_decimal_digits;
use crate::text::lemma_encode_utf8_concat;
use crate::text::lemma_encoding_avoids;
use crate::text::lemma_encoding_last_avoids;
use crate::text::lemma_lossy_text_of_encoding;
use crate::text::lemma_parse_decimal_digits;
use crate::text::lossy_text;
use crate::text::parse_u64;
use crate::text::COLON;
use crate::text::CR;
use crate::text::LF;
use crate::text::SPACE;
use vstd::prelude::*;
use vstd::utf8::encode_utf8;

verus! {

/// Decoding does not depend on the chunking: the events of an input that
/// arrives in any number of chunks are those of the same bytes arriving as
/// one chunk.
pub proof fn lemma_chunking_is_irrelevant(chunks: Seq<Seq<u8>>)
    ensures
        decode_events(chunks) == decode_events(seq![chunks.flatten()]),
{
    let start = PartialEventView::empty();
    let empty = Seq::<u8>::empty();
    let whole = seq![chunks.flatten()];
    lemma_feed_is_drain(chunks, empty, start);
    lemma_feed_is_drain(whole, empty, start);
    assert(whole.drop_first() =~= Seq::<Seq<u8>>::empty());
    assert(whole.drop_first().flatten() =~= empty);
    assert(whole.flatten() =~= chunks.flatten());
}

/// Two inputs with the same bytes have the same events, however each was
/// cut into chunks.
pub proof fn lemma_same_bytes_same_events(left: Seq<Seq<u8>>, right: Seq<Seq<u8>>)
    requires
        left.flatten() == right.flatten(),
    ensures
        decode_events(left) == decode_events(right),
{
    lemma_chunking_is_irrelevant(left);
    lemma_chunking_is_irrelevant(right);
}

/// The end of the input dispatches at most once: after it, the buffer is
/// empty and a second end dispatches nothing.
pub proof fn lemma_end_dispatches_once(buffer: Seq<u8>, pending: PartialEventView)
    ensures
        finish(buffer, pending).rest == Seq::<u8>::empty(),
        finish(finish(buffer, pending).rest, finish(buffer, pending).partial).event is None,
{
}

/// Comments and unknown fields are tolerated: such a line changes nothing
/// and dispatches nothing.
pub proof fn lemma_ignored_lines_change_nothing(pending: PartialEventView, line: Seq<u8>)
    requires
        classify(line) is Comment || classify(line) is Unknown,
    ensures
        after_line(pending, line) == pending,
        !dispatches(pending, line),
{
}

/// A retry value that is not a number is dropped: the line changes nothing
/// and dispatches nothing.
pub proof fn lemma_invalid_retry_is_ignored(pending: PartialEventView, line: Seq<u8>)
    requires
        classify(line) is Retry,
        parse_u64(classify(line)->Retry_0) is None,
    ensures
        after_line(pending, line) == pending,
        !dispatches(pending, line),
{
}

/// Data lines are joined by line feeds in arrival order: one more line adds
/// a line feed and the line, except for the first line, which stands alone.
pub proof fn lemma_data_lines_join(lines: Seq<Seq<char>>, line: Seq<char>)
    ensures
        join_lines(lines.push(line)) == if lines.len() == 0 {
            line
        } else {
            join_lines(lines) + "\n"@ + line
        },
{
    assert(lines.push(line).drop_last() =~= lines);
}

/// A blank line without pending data is a no-op: nothing is dispatched and
/// the fields seen so far stay for the next block.
pub proof fn lemma_blank_line_without_data(pending: PartialEventView)
    requires
        pending.data.len() == 0,
    ensures
        after_line(pending, Seq::empty()) == pending,
        !dispatches(pending, Seq::empty()),
{
}

/// Nothing follows the end: once the last bytes and the end of the input
/// dispatched nothing more, another end dispatches nothing either.
pub proof fn lemma_nothing_after_the_end(
    buffer: Seq<u8>,
    pending: PartialEventView,
    content: Seq<u8>,
)
    requires
        parse_buffer(buffer + content, pending).event is None,
    ensures
        ({
            let last = decode_last(buffer, pending, content);
            decode_last(last.rest, last.partial, Seq::empty()).event is None
        }),
{
    let last = decode_last(buffer, pending, content);
    assert(last.rest + Seq::<u8>::empty() =~= Seq::<u8>::empty());
}

/// The events still to come from a stream whose buffer and pending event are
/// as given and whose body holds `content` in memory: those of the complete
/// lines, and the one of the end.
pub open spec fn events_to_come(
    buffer: Seq<u8>,
    pending: PartialEventView,
    content: Seq<u8>,
) -> Seq<EventView> {
    let dry = drain(buffer + content, pending);
    dry.events + last_events(dry.rest, dry.partial)
}

/// What a pull hands out, as a sequence of one event or none.
pub open spec fn handed_out(event: Option<EventView>) -> Seq<EventView> {
    match event {
        Some(view) => seq![view],
        None => Seq::empty(),
    }
}

/// A stream over content in memory starts with all the events of that
/// content to come.
pub proof fn lemma_stream_starts_with_all_events(content: Seq<u8>)
    ensures
        events_to_come(Seq::empty(), PartialEventView::empty(), content) == decode_events(
            seq![content],
        ),
{
    let start = PartialEventView::empty();
    let nothing = Seq::<u8>::empty();
    let chunks = seq![content];
    assert(chunks.drop_first() =~= Seq::<Seq<u8>>::empty());
    let dry = drain(nothing + chunks.first(), start);
    let later = feed(chunks.drop_first(), dry.rest, dry.partial);
    assert(later == Drained { rest: dry.rest, partial: dry.partial, events: Seq::empty() });
    assert(dry.events + later.events =~= dry.events);
}

/// Pull by pull, a stream over content in memory hands out the events to
/// come in order. A pull that finds an event complete in the buffer hands
/// out the first event to come and leaves the rest to come. Any other pull
/// takes in the content and hands out the first event to come, if there is
/// one; then the rest is to come from the buffer alone.
pub proof fn lemma_stream_yields_in_order(
    buffer: Seq<u8>,
    pending: PartialEventView,
    content: Seq<u8>,
)
    ensures
        ({
            let first = parse_buffer(buffer, pending);
            let last = decode_last(first.rest, first.partial, content);
            if first.event is Some {
                events_to_come(buffer, pending, content) == handed_out(first.event)
                    + events_to_come(first.rest, first.partial, content)
            } else {
                events_to_come(buffer, pending, content) == handed_out(last.event)
                    + events_to_come(last.rest, last.partial, Seq::empty())
            }
        }),
{
    let nothing = Seq::<u8>::empty();
    let first = parse_buffer(buffer, pending);
    let before = drain(buffer, pending);
    let whole = drain(buffer + content, pending);
    lemma_drain_by_pulls(buffer, pending);
    lemma_drain_append(buffer, content, pending);
    if first.event is Some {
        let later = drain(first.rest, first.partial);
        let after = drain(first.rest + content, first.partial);
        lemma_drain_append(first.rest, content, first.partial);
        assert((seq![first.event->0] + later.events) + drain(
            later.rest + content,
            later.partial,
        ).events =~= seq![first.event->0] + (later.events + drain(
            later.rest + content,
            later.partial,
        ).events));
        assert(whole.events + last_events(whole.rest, whole.partial) =~= seq![first.event->0]
            + (after.events + last_events(after.rest, after.partial)));
    } else {
        let taken = first.rest + content;
        let parsed = parse_buffer(taken, first.partial);
        let dry = drain(taken, first.partial);
        lemma_drain_by_pulls(taken, first.partial);
        assert(before.events + dry.events =~= dry.events);
        if parsed.event is Some {
            let later = drain(parsed.rest, parsed.partial);
            assert(parsed.rest + nothing =~= parsed.rest);
            assert((seq![parsed.event->0] + later.events) + last_events(
                later.rest,
                later.partial,
            ) =~= seq![parsed.event->0] + (later.events + last_events(later.rest, later.partial)));
        } else {
            let end = finish(parsed.rest, parsed.partial);
            assert(end.rest + nothing =~= nothing);
            assert(drain(nothing, end.partial).events =~= Seq::<EventView>::empty());
            assert(finish(nothing, end.partial).event is None);
            assert(dry.events + last_events(dry.rest, dry.partial) =~= handed_out(end.event)
                + Seq::<EventView>::empty());
        }
    }
}

/// A text that survives a line of the wire format: it holds no line feed
/// and does not end in a carriage return.
pub open spec fn fits_line(text: Seq<char>) -> bool {
    &&& forall|i: int| 0 <= i < text.len() ==> text[i] != '\n'
    &&& text.len() > 0 ==> text.last() != '\r'
}

/// An optional text that survives a line of the wire format, if present.
pub open spec fn optional_fits(value: Option<Seq<char>>) -> bool {
    match value {
        Some(text) => fits_line(text),
        None => true,
    }
}

/// An event whose texts all survive a line of the wire format.
pub open spec fn survives_wire(event: EventView) -> bool {
    &&& fits_line(event.data)
    &&& optional_fits(event.event)
    &&& optional_fits(event.id)
}

/// The bytes of the literals of the wire format.
proof fn lemma_literals()
    ensures
        ascii("data:"@) == seq![100u8, 97, 116, 97, 58],
        ascii("event:"@) == seq![101u8, 118, 101, 110, 116, 58],
        ascii("id:"@) == seq![105u8, 100, 58],
        ascii("retry:"@) == seq![114u8, 101, 116, 114, 121, 58],
        ascii(":"@) == seq![58u8],
        ascii(": "@) == seq![58u8, 32],
        encode_utf8("data"@) == seq![100u8, 97, 116, 97],
        encode_utf8("event"@) == seq![101u8, 118, 101, 110, 116],
        encode_utf8("id"@) == seq![105u8, 100],
        encode_utf8("retry"@) == seq![114u8, 101, 116, 114, 121],
        encode_utf8(": "@) == seq![58u8, 32],
        encode_utf8("\n"@) == seq![10u8],
{
    reveal_strlit("data:");
    reveal_strlit("event:");
    reveal_strlit("id:");
    reveal_strlit("retry:");
    reveal_strlit(":");
    reveal_strlit(": ");
    reveal_strlit("data");
    reveal_strlit("event");
    reveal_strlit("id");
    reveal_strlit("retry");
    reveal_strlit("\n");
    assert(ascii("data:"@) =~= seq![100u8, 97, 116, 97, 58]);
    assert(ascii("event:"@) =~= seq![101u8, 118, 101, 110, 116, 58]);
    assert(ascii("id:"@) =~= seq![105u8, 100, 58]);
    assert(ascii("retry:"@) =~= seq![114u8, 101, 116, 114, 121, 58]);
    assert(ascii(":"@) =~= seq![58u8]);
    assert(ascii(": "@) =~= seq![58u8, 32]);
    lemma_ascii_encoding("data"@);
    lemma_ascii_encoding("event"@);
    lemma_ascii_encoding("id"@);
    lemma_ascii_encoding("retry"@);
    lemma_ascii_encoding(": "@);
    lemma_ascii_encoding("\n"@);
    assert(ascii("data"@) =~= seq![100u8, 97, 116, 97]);
    assert(ascii("event"@) =~= seq![101u8, 118, 101, 110, 116]);
    assert(ascii("id"@) =~= seq![105u8, 100]);
    assert(ascii("retry"@) =~= seq![114u8, 101, 116, 114, 121]);
    assert(ascii("\n"@) =~= seq![10u8]);
}

/// The bytes of a line of the wire format.
proof fn lemma_field_line_bytes(name: Seq<char>, value: Seq<char>)
    ensures
        encode_utf8(field_line(name, value)) == encode_utf8(name) + seq![COLON, SPACE]
            + encode_utf8(value) + seq![LF],
{
    lemma_literals();
    lemma_encode_utf8_concat(name + ": "@ + value, "\n"@);
    lemma_encode_utf8_concat(name + ": "@, value);
    lemma_encode_utf8_concat(name, ": "@);
}

/// The encoding of a text that fits a line holds no line feed, does not end
/// in a carriage return, and decodes to the text.
proof fn lemma_value_bytes(value: Seq<char>)
    requires
        fits_line(value),
    ensures
        forall|i: int| 0 <= i < encode_utf8(value).len() ==> encode_utf8(value)[i] != LF,
        encode_utf8(value).len() > 0 ==> encode_utf8(value).last() != CR,
        lossy_text(encode_utf8(value)) == value,
{
    lemma_lossy_text_of_encoding(value);
    assert forall|i: int| 0 <= i < value.len() implies value[i] as u32 != LF as u32 by {
        assert(value[i] != '\n');
        if value[i] as u32 == 10u32 {
            vstd::utf8::char_u32_cast(value[i], 10u32);
        }
    }
    lemma_encoding_avoids(value, LF);
    if value.len() > 0 {
        assert(value.last() != '\r');
        if value.last() as u32 == 13u32 {
            vstd::utf8::char_u32_cast(value.last(), 13u32);
        }
        lemma_encoding_last_avoids(value, CR);
    } else {
        assert(encode_utf8(value) =~= Seq::<u8>::empty());
    }
}

/// A line that is not blank, followed by a line feed, is consumed whole and
/// dispatches nothing.
proof fn lemma_drain_line(line: Seq<u8>, rest: Seq<u8>, pending: PartialEventView)
    requires
        line.len() > 0,
        line.last() != CR,
        forall|i: int| 0 <= i < line.len() ==> line[i] != LF,
    ensures
        drain(line + seq![LF] + rest, pending) == drain(rest, after_line(pending, line)),
{
    let buffer = line + seq![LF] + rest;
    assert forall|i: int| 0 <= i < line.len() implies buffer[i] != LF by {
        assert(buffer[i] == line[i]);
    }
    assert(buffer[line.len() as int] == LF);
    lemma_first_lf(buffer, line.len() as int);
    assert(buffer.take(line.len() as int) =~= line);
    assert(buffer.skip(line.len() + 1 as int) =~= rest);
}

/// A blank line dispatches the pending event if it has data.
proof fn lemma_drain_blank(rest: Seq<u8>, pending: PartialEventView)
    requires
        pending.data.len() > 0,
    ensures
        drain(seq![LF] + rest, pending).events == seq![pending.event()] + drain(
            rest,
            PartialEventView::empty(),
        ).events,
        drain(seq![LF] + rest, pending).rest == drain(rest, PartialEventView::empty()).rest,
        drain(seq![LF] + rest, pending).partial == drain(rest, PartialEventView::empty()).partial,
{
    let buffer = seq![LF] + rest;
    assert(buffer[0] == LF);
    assert(buffer.take(0) =~= Seq::<u8>::empty());
    assert(buffer.skip(1) =~= rest);
    assert(line_content(buffer.take(0)) =~= Seq::<u8>::empty());
}

/// A line that begins with the prefix of a field and a space carries the
/// rest as the field's value.
proof fn lemma_field_value(prefix: Seq<u8>, value: Seq<u8>)
    ensures
        field_value(prefix + seq![SPACE] + value, prefix) == Some(value),
{
    let line = prefix + seq![SPACE] + value;
    assert(line.subrange(0, prefix.len() as int) =~= prefix);
    let rest = line.skip(prefix.len() as int);
    assert(rest[0] == SPACE);
    assert(rest.skip(1) =~= value);
}

/// A line that begins otherwise than a prefix does not carry its field.
proof fn lemma_other_field(prefix: Seq<u8>, line: Seq<u8>)
    requires
        prefix.len() > 0,
        line.len() > 0,
        prefix[0] != line[0],
    ensures
        field_value(line, prefix) is None,
{
    if prefix.len() <= line.len() {
        assert(line.subrange(0, prefix.len() as int)[0] == line[0]);
    }
}

/// The line of a field in the wire format: its name, a colon, a space and
/// the value.
spec fn wire_line(name: Seq<char>, value: Seq<u8>) -> Seq<u8> {
    encode_utf8(name) + seq![COLON, SPACE] + value
}

/// A `data` line is classified as one.
proof fn lemma_classify_data(value: Seq<u8>)
    ensures
        classify(wire_line("data"@, value)) == Line::Data(value),
{
    lemma_literals();
    let line = wire_line("data"@, value);
    assert(line =~= ascii("data:"@) + seq![SPACE] + value);
    lemma_field_value(ascii("data:"@), value);
}

/// An `event` line is classified as one.
proof fn lemma_classify_event(value: Seq<u8>)
    ensures
        classify(wire_line("event"@, value)) == Line::Event(value),
{
    lemma_literals();
    let line = wire_line("event"@, value);
    assert(line =~= ascii("event:"@) + seq![SPACE] + value);
    assert(line[0] == 101);
    lemma_other_field(ascii("data:"@), line);
    lemma_field_value(ascii("event:"@), value);
}

/// An `id` line is classified as one.
proof fn lemma_classify_id(value: Seq<u8>)
    ensures
        classify(wire_line("id"@, value)) == Line::Id(value),
{
    lemma_literals();
    let line = wire_line("id"@, value);
    assert(line =~= ascii("id:"@) + seq![SPACE] + value);
    assert(line[0] == 105);
    lemma_other_field(ascii("data:"@), line);
    lemma_other_field(ascii("event:"@), line);
    lemma_field_value(ascii("id:"@), value);
}

/// A `retry` line is classified as one.
proof fn lemma_classify_retry(value: Seq<u8>)
    ensures
        classify(wire_line("retry"@, value)) == Line::Retry(value),
{
    lemma_literals();
    let line = wire_line("retry"@, value);
    assert(line =~= ascii("retry:"@) + seq![SPACE] + value);
    assert(line[0] == 114);
    lemma_other_field(ascii("data:"@), line);
    lemma_other_field(ascii("event:"@), line);
    lemma_other_field(ascii("id:"@), line);
    lemma_field_value(ascii("retry:"@), value);
}

/// The line of a field whose value holds no line feed and does not end in a
/// carriage return is consumed whole.
proof fn lemma_drain_wire_line(
    name: Seq<char>,
    value: Seq<u8>,
    rest: Seq<u8>,
    pending: PartialEventView,
)
    requires
        name == "data"@ || name == "event"@ || name == "id"@ || name == "retry"@,
        forall|i: int| 0 <= i < value.len() ==> value[i] != LF,
        value.len() > 0 ==> value.last() != CR,
    ensures
        drain(wire_line(name, value) + seq![LF] + rest, pending) == drain(
            rest,
            after_line(pending, wire_line(name, value)),
        ),
{
    lemma_literals();
    let head = encode_utf8(name) + seq![COLON, SPACE];
    let line = wire_line(name, value);
    assert(line == head + value);
    assert forall|i: int| 0 <= i < line.len() implies line[i] != LF by {
        if i >= head.len() {
            assert(line[i] == value[i - head.len()]);
        }
    }
    if value.len() > 0 {
        assert(line.last() == value.last());
    } else {
        assert(line =~= head);
        assert(line.last() == SPACE);
    }
    lemma_drain_line(line, rest, pending);
}

/// An `event` line, if there is one, sets the event type and dispatches
/// nothing.
proof fn lemma_event_stage(value: Option<Seq<char>>, rest: Seq<u8>, pending: PartialEventView)
    requires
        optional_fits(value),
    ensures
        drain(encode_utf8(optional_line("event"@, value)) + rest, pending) == drain(
            rest,
            match value {
                Some(kind) => PartialEventView { event: Some(kind), ..pending },
                None => pending,
            },
        ),
{
    match value {
        Some(kind) => {
            let bytes = encode_utf8(kind);
            lemma_value_bytes(kind);
            lemma_field_line_bytes("event"@, kind);
            assert(encode_utf8(optional_line("event"@, value)) + rest =~= wire_line(
                "event"@,
                bytes,
            ) + seq![LF] + rest);
            lemma_drain_wire_line("event"@, bytes, rest, pending);
            lemma_classify_event(bytes);
        },
        None => {
            assert(encode_utf8(Seq::<char>::empty()) =~= Seq::<u8>::empty());
            assert(encode_utf8(optional_line("event"@, value)) + rest =~= rest);
        },
    }
}

/// A `data` line appends its value to the pending data and dispatches
/// nothing.
proof fn lemma_data_stage(value: Seq<char>, rest: Seq<u8>, pending: PartialEventView)
    requires
        fits_line(value),
    ensures
        drain(encode_utf8(field_line("data"@, value)) + rest, pending) == drain(
            rest,
            PartialEventView { data: pending.data.push(value), ..pending },
        ),
{
    let bytes = encode_utf8(value);
    lemma_value_bytes(value);
    lemma_field_line_bytes("data"@, value);
    assert(encode_utf8(field_line("data"@, value)) + rest =~= wire_line("data"@, bytes) + seq![
        LF,
    ] + rest);
    lemma_drain_wire_line("data"@, bytes, rest, pending);
    lemma_classify_data(bytes);
}

/// An `id` line, if there is one, sets the identifier and dispatches
/// nothing.
proof fn lemma_id_stage(value: Option<Seq<char>>, rest: Seq<u8>, pending: PartialEventView)
    requires
        optional_fits(value),
    ensures
        drain(encode_utf8(optional_line("id"@, value)) + rest, pending) == drain(
            rest,
            match value {
                Some(id) => PartialEventView { id: Some(id), ..pending },
                None => pending,
            },
        ),
{
    match value {
        Some(id) => {
            let bytes = encode_utf8(id);
            lemma_value_bytes(id);
            lemma_field_line_bytes("id"@, id);
            assert(encode_utf8(optional_line("id"@, value)) + rest =~= wire_line("id"@, bytes)
                + seq![LF] + rest);
            lemma_drain_wire_line("id"@, bytes, rest, pending);
            lemma_classify_id(bytes);
        },
        None => {
            assert(encode_utf8(Seq::<char>::empty()) =~= Seq::<u8>::empty());
            assert(encode_utf8(optional_line("id"@, value)) + rest =~= rest);
        },
    }
}

/// A `retry` line, if there is one, sets the delay and dispatches nothing.
proof fn lemma_retry_stage(retry: Option<u64>, rest: Seq<u8>, pending: PartialEventView)
    ensures
        drain(encode_utf8(retry_line(retry)) + rest, pending) == drain(
            rest,
            match retry {
                Some(millis) => PartialEventView { retry: Some(millis), ..pending },
                None => pending,
            },
        ),
{
    match retry {
        Some(millis) => {
            let digits = decimal_digits(millis as nat);
            lemma_parse_decimal_digits(millis);
            lemma_decimal_digits(millis as nat);
            lemma_ascii_decoding(digits);
            lemma_field_line_bytes("retry"@, decimal_text(millis as nat));
            assert(encode_utf8(retry_line(retry)) + rest =~= wire_line("retry"@, digits) + seq![
                LF,
            ] + rest);
            assert forall|i: int| 0 <= i < digits.len() implies digits[i] != LF by {
                assert(crate::text::is_digit(digits[i]));
            }
            assert(crate::text::is_digit(digits.last()));
            lemma_drain_wire_line("retry"@, digits, rest, pending);
            lemma_classify_retry(digits);
        },
        None => {
            assert(encode_utf8(Seq::<char>::empty()) =~= Seq::<u8>::empty());
            assert(encode_utf8(retry_line(retry)) + rest =~= rest);
        },
    }
}

/// The bytes of an encoded event, part by part.
proof fn lemma_wire_parts(event: EventView)
    ensures
        encode_utf8(encode_text(event)) == encode_utf8(optional_line("event"@, event.event)) + (
        encode_utf8(field_line("data"@, event.data)) + (encode_utf8(
            optional_line("id"@, event.id),
        ) + (encode_utf8(retry_line(event.retry)) + seq![LF]))),
{
    lemma_literals();
    let a = optional_line("event"@, event.event);
    let b = field_line("data"@, event.data);
    let c = optional_line("id"@, event.id);
    let d = retry_line(event.retry);
    lemma_encode_utf8_concat(a + b + c + d, "\n"@);
    lemma_encode_utf8_concat(a + b + c, d);
    lemma_encode_utf8_concat(a + b, c);
    lemma_encode_utf8_concat(a, b);
    assert(encode_utf8(a) + encode_utf8(b) + encode_utf8(c) + encode_utf8(d) + seq![LF]
        =~= encode_utf8(a) + (encode_utf8(b) + (encode_utf8(c) + (encode_utf8(d) + seq![LF]))));
}

/// The state before the blank line that ends an encoded event.
spec fn carrying(event: EventView) -> PartialEventView {
    PartialEventView {
        id: event.id,
        event: event.event,
        data: seq![event.data],
        retry: event.retry,
    }
}

/// Pulling the bytes of one encoded event dry gives that event and leaves
/// nothing behind: the buffer is empty and nothing is pending. The event's
/// texts must survive a line of the wire format.
pub proof fn lemma_drain_encoded(event: EventView)
    requires
        survives_wire(event),
    ensures
        drain(encode_utf8(encode_text(event)), PartialEventView::empty()) == (Drained {
            rest: Seq::empty(),
            partial: PartialEventView::empty(),
            events: seq![event],
        }),
{
    let start = PartialEventView::empty();
    let nothing = Seq::<u8>::empty();
    let lf = seq![LF];
    let retry_part = encode_utf8(retry_line(event.retry)) + lf;
    let id_part = encode_utf8(optional_line("id"@, event.id)) + retry_part;
    let data_part = encode_utf8(field_line("data"@, event.data)) + id_part;
    let after_event = PartialEventView { event: event.event, ..start };
    let after_data = PartialEventView { data: seq![event.data], ..after_event };
    let after_id = PartialEventView { id: event.id, ..after_data };
    lemma_wire_parts(event);
    lemma_event_stage(event.event, data_part, start);
    lemma_data_stage(event.data, id_part, after_event);
    assert(after_event.data.push(event.data) =~= seq![event.data]);
    lemma_id_stage(event.id, retry_part, after_data);
    lemma_retry_stage(event.retry, lf, after_id);
    assert(drain(encode_utf8(encode_text(event)), start) == drain(lf, carrying(event)));
    lemma_drain_blank(nothing, carrying(event));
    assert(lf + nothing =~= lf);
    assert(join_lines(seq![event.data]) == event.data);
    assert(carrying(event).event() == event);
    assert(drain(nothing, start).events =~= Seq::<EventView>::empty());
    assert(seq![event] + Seq::<EventView>::empty() =~= seq![event]);
}

/// An encoded event decodes to itself, provided that its texts survive a
/// line of the wire format: none of `data`, `event` and `id` holds a line
/// feed or ends in a carriage return.
pub proof fn lemma_round_trip(event: EventView)
    requires
        survives_wire(event),
    ensures
        decode_events(seq![encode_utf8(encode_text(event))]) == seq![event],
{
    let start = PartialEventView::empty();
    let nothing = Seq::<u8>::empty();
    let wire = encode_utf8(encode_text(event));
    lemma_drain_encoded(event);
    let dry = drain(wire, start);
    let chunks = seq![wire];
    assert(chunks.drop_first() =~= Seq::<Seq<u8>>::empty());
    assert(nothing + chunks.first() =~= wire);
    let fed = feed(chunks, nothing, start);
    let later = feed(chunks.drop_first(), dry.rest, dry.partial);
    assert(later == Drained { rest: dry.rest, partial: dry.partial, events: Seq::empty() });
    assert(fed.events == dry.events + later.events);
    assert(fed.rest == nothing && fed.partial == start);
    assert(fed.events =~= dry.events);
    assert(finish(nothing, start).event is None);
    assert(last_events(fed.rest, fed.partial) =~= Seq::<EventView>::empty());
}

/// A stream over the bytes of one encoded event has exactly that event to
/// come, under the same proviso.
pub proof fn lemma_stream_round_trip(event: EventView)
    requires
        survives_wire(event),
    ensures
        events_to_come(
            Seq::empty(),
            PartialEventView::empty(),
            encode_utf8(encode_text(event)),
        ) == seq![event],
{
    lemma_round_trip(event);
    lemma_stream_starts_with_all_events(encode_utf8(encode_text(event)));
}

} // verus!
