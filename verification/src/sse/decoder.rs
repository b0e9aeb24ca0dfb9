//! The decoder's state machine: complete lines are taken off the front of a
//! buffer, classified, and folded into a pending event until a blank line
//! dispatches it.

use crate::sse::event::event_view;
use crate::sse::event::Event;
use crate::sse::event::EventView;
use crate::text::ascii;
use crate::text::ascii_bytes;
use crate::text::decode_lossy;
use crate::text::lossy_text;
use crate::text::parse_decimal;
use crate::text::parse_u64;
use crate::text::starts_with;
use crate::text::CR;
use crate::text::LF;
use crate::text::SPACE;
use crate::text::text_of;
use vstd::prelude::*;
use vstd::slice::slice_subrange;
use vstd::string::StringExecFns;

verus! {

/// The fields of an event that has not been dispatched yet.
#[derive(Debug)]
pub struct PartialEvent {
    id: Option<String>,
    event: Option<String>,
    data: Vec<String>,
    retry: Option<u64>,
}

/// A pending event as a mathematical value.
pub struct PartialEventView {
    /// The identifier seen last, if any.
    pub id: Option<Seq<char>>,
    /// The event type seen last, if any.
    pub event: Option<Seq<char>>,
    /// The data lines seen so far, in arrival order.
    pub data: Seq<Seq<char>>,
    /// The reconnection delay seen last, if any.
    pub retry: Option<u64>,
}

/// The texts of a sequence of strings.
pub open spec fn texts(lines: Seq<String>) -> Seq<Seq<char>> {
    lines.map_values(|line: String| line@)
}

/// The lines joined by `\n`, without a trailing separator.
pub open spec fn join_lines(lines: Seq<Seq<char>>) -> Seq<char>
    decreases lines.len(),
{
    if lines.len() == 0 {
        Seq::empty()
    } else if lines.len() == 1 {
        lines[0]
    } else {
        join_lines(lines.drop_last()) + "\n"@ + lines.last()
    }
}

impl PartialEventView {
    /// The state in which nothing is pending.
    pub open spec fn empty() -> PartialEventView {
        PartialEventView { id: None, event: None, data: Seq::empty(), retry: None }
    }

    /// The event that the pending fields make up.
    pub open spec fn event(self) -> EventView {
        EventView {
            event: self.event,
            data: join_lines(self.data),
            id: self.id,
            retry: self.retry,
        }
    }
}

/// What one line of the wire format says. Field values are still bytes.
pub enum Line {
    /// `data:` and its value.
    Data(Seq<u8>),
    /// `event:` and its value.
    Event(Seq<u8>),
    /// `id:` and its value.
    Id(Seq<u8>),
    /// `retry:` and its value.
    Retry(Seq<u8>),
    /// A line that is `:` or begins with `: `.
    Comment,
    /// Any other line that is not empty.
    Unknown,
    /// The empty line.
    Blank,
}

/// The value of the field whose name and colon are `prefix`, if `line`
/// begins with them: the rest of the line, less one leading space.
pub open spec fn field_value(line: Seq<u8>, prefix: Seq<u8>) -> Option<Seq<u8>> {
    if prefix.is_prefix_of(line) {
        let rest = line.skip(prefix.len() as int);
        if rest.len() > 0 && rest[0] == SPACE {
            Some(rest.skip(1))
        } else {
            Some(rest)
        }
    } else {
        None
    }
}

/// Classifies a line that has lost its terminator.
pub open spec fn classify(line: Seq<u8>) -> Line {
    if line.len() == 0 {
        Line::Blank
    } else if let Some(value) = field_value(line, ascii("data:"@)) {
        Line::Data(value)
    } else if let Some(value) = field_value(line, ascii("event:"@)) {
        Line::Event(value)
    } else if let Some(value) = field_value(line, ascii("id:"@)) {
        Line::Id(value)
    } else if let Some(value) = field_value(line, ascii("retry:"@)) {
        Line::Retry(value)
    } else if line == ascii(":"@) || ascii(": "@).is_prefix_of(line) {
        Line::Comment
    } else {
        Line::Unknown
    }
}

/// True when `line` dispatches the pending event: it is blank and at least
/// one data line is pending.
pub open spec fn dispatches(pending: PartialEventView, line: Seq<u8>) -> bool {
    line.len() == 0 && pending.data.len() > 0
}

/// The pending event after `line`. A data line is appended; `event` and `id`
/// overwrite; `retry` overwrites if its value is a number and is ignored
/// otherwise; a blank line resets everything if it dispatches and changes
/// nothing if it does not; comments and unknown fields change nothing.
pub open spec fn after_line(pending: PartialEventView, line: Seq<u8>) -> PartialEventView {
    match classify(line) {
        Line::Data(value) => PartialEventView {
            data: pending.data.push(lossy_text(value)),
            ..pending
        },
        Line::Event(value) => PartialEventView { event: Some(lossy_text(value)), ..pending },
        Line::Id(value) => PartialEventView { id: Some(lossy_text(value)), ..pending },
        Line::Retry(value) => match parse_u64(value) {
            Some(millis) => PartialEventView { retry: Some(millis), ..pending },
            None => pending,
        },
        Line::Blank => if pending.data.len() > 0 {
            PartialEventView::empty()
        } else {
            pending
        },
        Line::Comment => pending,
        Line::Unknown => pending,
    }
}

/// The position of the first line feed, or the length if there is none.
pub open spec fn first_lf(bytes: Seq<u8>) -> nat
    decreases bytes.len(),
{
    if bytes.len() == 0 {
        0
    } else if bytes[0] == LF {
        0
    } else {
        1 + first_lf(bytes.skip(1))
    }
}

/// A line without the carriage return that may precede its line feed.
pub open spec fn line_content(raw: Seq<u8>) -> Seq<u8> {
    if raw.len() > 0 && raw.last() == CR {
        raw.drop_last()
    } else {
        raw
    }
}

/// The outcome of one pull on a buffer.
pub struct Parsed {
    /// The bytes left in the buffer.
    pub rest: Seq<u8>,
    /// The pending event afterwards.
    pub partial: PartialEventView,
    /// The event dispatched, if one was.
    pub event: Option<EventView>,
}

/// One pull on a buffer: complete lines are consumed from the front until
/// one of them dispatches an event or no complete line is left.
pub open spec fn parse_buffer(buffer: Seq<u8>, pending: PartialEventView) -> Parsed
    decreases buffer.len(),
{
    let end = first_lf(buffer);
    if end >= buffer.len() {
        Parsed { rest: buffer, partial: pending, event: None }
    } else {
        let line = line_content(buffer.take(end as int));
        let rest = buffer.skip(end + 1 as int);
        if dispatches(pending, line) {
            Parsed { rest, partial: after_line(pending, line), event: Some(pending.event()) }
        } else {
            parse_buffer(rest, after_line(pending, line))
        }
    }
}

/// The end of the input. What is left in the buffer is a last line that
/// lacks its terminator, and counts as a line; then the pending event is
/// dispatched if it has data. The buffer is left empty.
pub open spec fn finish(buffer: Seq<u8>, pending: PartialEventView) -> Parsed {
    let line = line_content(buffer);
    let folded = if buffer.len() > 0 {
        after_line(pending, line)
    } else {
        pending
    };
    if buffer.len() > 0 && dispatches(pending, line) {
        Parsed { rest: Seq::empty(), partial: folded, event: Some(pending.event()) }
    } else if folded.data.len() > 0 {
        Parsed { rest: Seq::empty(), partial: PartialEventView::empty(), event: Some(folded.event()) }
    } else {
        Parsed { rest: Seq::empty(), partial: folded, event: None }
    }
}

/// A pull that dispatches nothing leaves no complete line behind, so that
/// pulling again changes nothing.
pub proof fn lemma_parse_buffer_settles(buffer: Seq<u8>, pending: PartialEventView)
    requires
        parse_buffer(buffer, pending).event is None,
    ensures
        first_lf(parse_buffer(buffer, pending).rest) >= parse_buffer(buffer, pending).rest.len(),
        parse_buffer(parse_buffer(buffer, pending).rest, parse_buffer(buffer, pending).partial)
            == parse_buffer(buffer, pending),
    decreases buffer.len(),
{
    let end = first_lf(buffer);
    if end < buffer.len() {
        let line = line_content(buffer.take(end as int));
        lemma_parse_buffer_settles(buffer.skip(end + 1 as int), after_line(pending, line));
    }
}

/// The first line feed is where a line feed stands with none before it.
pub proof fn lemma_first_lf(bytes: Seq<u8>, at: int)
    requires
        0 <= at <= bytes.len(),
        forall|i: int| 0 <= i < at ==> bytes[i] != LF,
        at < bytes.len() ==> bytes[at] == LF,
    ensures
        first_lf(bytes) == at,
    decreases at,
{
    if at > 0 {
        lemma_first_lf(bytes.skip(1), at - 1);
    }
}

/// The position of the first line feed at or after `from`, or the length.
fn find_lf(bytes: &[u8], from: usize) -> (at: usize)
    requires
        from <= bytes.len(),
    ensures
        from <= at <= bytes.len(),
        at - from == first_lf(bytes@.skip(from as int)),
{
    let mut at: usize = from;
    while at < bytes.len() && bytes[at] != LF
        invariant
            from <= at <= bytes.len(),
            forall|i: int| from <= i < at ==> bytes[i] != LF,
        decreases bytes.len() - at,
    {
        at += 1;
    }
    proof {
        lemma_first_lf(bytes@.skip(from as int), at - from);
    }
    at
}

/// The value of a field on a line, if the line begins with `prefix`.
fn strip_field<'a>(line: &'a [u8], prefix: &str) -> (value: Option<&'a [u8]>)
    requires
        vstd::utf8::is_ascii_chars(prefix@),
    ensures
        match value {
            Some(bytes) => field_value(line@, ascii(prefix@)) == Some(bytes@),
            None => field_value(line@, ascii(prefix@)) is None,
        },
{
    let name = ascii_bytes(prefix);
    if !starts_with(line, name) {
        return None;
    }
    let mut start: usize = name.len();
    if start < line.len() && line[start] == SPACE {
        start += 1;
    }
    let value = slice_subrange(line, start, line.len());
    proof {
        let rest = line@.skip(name@.len() as int);
        assert(value@ =~= line@.skip(start as int));
        if start > name.len() {
            assert(rest[0] == line@[name@.len() as int]);
            assert(rest.skip(1) =~= line@.skip(start as int));
        } else if rest.len() > 0 {
            assert(rest[0] == line@[name@.len() as int]);
        }
    }
    Some(value)
}

/// Joins lines with `\n`.
fn join(lines: &Vec<String>) -> (text: String)
    ensures
        text@ == join_lines(texts(lines@)),
{
    let mut text = String::new();
    let mut i: usize = 0;
    while i < lines.len()
        invariant
            i <= lines.len(),
            text@ == join_lines(texts(lines@).take(i as int)),
        decreases lines.len() - i,
    {
        if i > 0 {
            text.append("\n");
        }
        text.append(lines[i].as_str());
        proof {
            let seen = texts(lines@).take(i as int);
            let next = texts(lines@).take(i + 1);
            assert(next.drop_last() =~= seen);
            assert(next.last() == lines@[i as int]@);
            if i == 0 {
                assert(text@ =~= lines@[0]@);
            }
        }
        i += 1;
    }
    assert(texts(lines@).take(i as int) =~= texts(lines@));
    text
}

impl View for PartialEvent {
    type V = PartialEventView;

    closed spec fn view(&self) -> PartialEventView {
        PartialEventView {
            id: text_of(self.id),
            event: text_of(self.event),
            data: texts(self.data@),
            retry: self.retry,
        }
    }
}

impl PartialEvent {
    /// A state in which nothing is pending.
    pub fn new() -> (pending: PartialEvent)
        ensures
            pending@ == PartialEventView::empty(),
    {
        let pending = PartialEvent { id: None, event: None, data: Vec::new(), retry: None };
        assert(pending@.data =~= Seq::empty());
        pending
    }

    /// Dispatches the pending event if it has data, and resets the state;
    /// without data nothing is dispatched and nothing changes.
    pub fn take_event(&mut self) -> (event: Option<Event>)
        ensures
            old(self)@.data.len() > 0 ==> event_view(event) == Some(old(self)@.event())
                && final(self)@ == PartialEventView::empty(),
            old(self)@.data.len() == 0 ==> event is None && final(self)@ == old(self)@,
    {
        if self.data.len() == 0 {
            return None;
        }
        let data = join(&self.data);
        let id = self.id.take();
        let kind = self.event.take();
        let retry = self.retry.take();
        self.data.clear();
        assert(self@.data =~= Seq::empty());
        Some(Event::from_parts(id, kind, data, retry))
    }

    /// Folds one line, without its terminator, into the pending event, and
    /// returns the event that the line dispatches, if it does.
    pub fn push_line(&mut self, line: &[u8]) -> (event: Option<Event>)
        ensures
            final(self)@ == after_line(old(self)@, line@),
            event_view(event) == if dispatches(old(self)@, line@) {
                Some(old(self)@.event())
            } else {
                None
            },
    {
        proof {
            reveal_strlit("data:");
            reveal_strlit("event:");
            reveal_strlit("id:");
            reveal_strlit("retry:");
        }
        if line.len() == 0 {
            return self.take_event();
        }
        if let Some(value) = strip_field(line, "data:") {
            let text = decode_lossy(value);
            self.data.push(text);
            assert(self@.data =~= old(self)@.data.push(lossy_text(value@)));
        } else if let Some(value) = strip_field(line, "event:") {
            self.event = Some(decode_lossy(value));
        } else if let Some(value) = strip_field(line, "id:") {
            self.id = Some(decode_lossy(value));
        } else if let Some(value) = strip_field(line, "retry:") {
            if let Some(millis) = parse_decimal(value) {
                self.retry = Some(millis);
            }
        }
        None
    }
}

impl Default for PartialEvent {
    fn default() -> (pending: PartialEvent)
        ensures
            pending@ == PartialEventView::empty(),
    {
        PartialEvent::new()
    }
}

/// Pulls one event out of `buffer`. Complete lines are removed from the front
/// and folded into `partial_event` until a blank line dispatches an event,
/// which is returned, or no complete line is left, when `None` is returned
/// and the unfinished tail stays in the buffer.
pub fn parse_event_from_buffer(buffer: &mut Vec<u8>, partial_event: &mut PartialEvent) -> (event:
    Option<Event>)
    ensures
        final(buffer)@ == parse_buffer(old(buffer)@, old(partial_event)@).rest,
        final(partial_event)@ == parse_buffer(old(buffer)@, old(partial_event)@).partial,
        event_view(event) == parse_buffer(old(buffer)@, old(partial_event)@).event,
{
    let ghost goal = parse_buffer(buffer@, partial_event@);
    let mut start: usize = 0;
    let mut event: Option<Event> = None;
    assert(buffer@.skip(0) =~= buffer@);
    loop
        invariant_except_break
            event is None,
            parse_buffer(buffer@.skip(start as int), partial_event@) == goal,
        invariant
            start <= buffer.len(),
            buffer@ == old(buffer)@,
        ensures
            goal.rest == buffer@.skip(start as int),
            goal.partial == partial_event@,
            goal.event == event_view(event),
        decreases buffer.len() - start,
    {
        let end = find_lf(buffer.as_slice(), start);
        if end >= buffer.len() {
            break ;
        }
        let mut line_end = end;
        if line_end > start && buffer[line_end - 1] == CR {
            line_end -= 1;
        }
        let line = slice_subrange(buffer.as_slice(), start, line_end);
        proof {
            let pending = buffer@.skip(start as int);
            let raw = pending.take(end - start);
            assert(raw =~= buffer@.subrange(start as int, end as int));
            assert(line@ =~= line_content(raw));
            assert(pending.skip(end - start + 1) =~= buffer@.skip(end + 1));
        }
        let emitted = partial_event.push_line(line);
        start = end + 1;
        if emitted.is_some() {
            event = emitted;
            break ;
        }
    }
    let rest = buffer.split_off(start);
    *buffer = rest;
    event
}

/// Ends the input: folds an unterminated last line into `partial_event`,
/// empties the buffer, and dispatches the pending event if it has data.
pub fn finish_buffer(buffer: &mut Vec<u8>, partial_event: &mut PartialEvent) -> (event: Option<
    Event,
>)
    ensures
        final(buffer)@ == finish(old(buffer)@, old(partial_event)@).rest,
        final(partial_event)@ == finish(old(buffer)@, old(partial_event)@).partial,
        event_view(event) == finish(old(buffer)@, old(partial_event)@).event,
{
    let mut emitted: Option<Event> = None;
    if buffer.len() > 0 {
        let mut line_end = buffer.len();
        if buffer[line_end - 1] == CR {
            line_end -= 1;
        }
        let line = slice_subrange(buffer.as_slice(), 0, line_end);
        assert(line@ =~= line_content(buffer@));
        emitted = partial_event.push_line(line);
        buffer.clear();
    }
    assert(buffer@ =~= Seq::<u8>::empty());
    match emitted {
        Some(event) => Some(event),
        None => partial_event.take_event(),
    }
}

} // verus!
