//! The event model and its wire encoding.

use crate::text::decimal_text;
use crate::text::push_decimal;
use crate::text::text_of;
use vstd::prelude::*;
use vstd::string::StringExecFns;

verus! {

/// A Server-Sent Event.
#[derive(Debug)]
pub struct Event {
    event: Option<String>,
    data: String,
    id: Option<String>,
    retry: Option<u64>,
}

/// An event as a mathematical value.
pub struct EventView {
    /// The event type, if set.
    pub event: Option<Seq<char>>,
    /// The payload; the lines of a multi-line payload are separated by `\n`.
    pub data: Seq<char>,
    /// The event identifier, if set.
    pub id: Option<Seq<char>>,
    /// The reconnection delay in milliseconds, if set.
    pub retry: Option<u64>,
}

/// The view of an optional event.
pub open spec fn event_view(event: Option<Event>) -> Option<EventView> {
    match event {
        Some(e) => Some(e@),
        None => None,
    }
}

/// One line of the wire format: the field's name, a colon and a space, the
/// value, and a line feed.
pub open spec fn field_line(name: Seq<char>, value: Seq<char>) -> Seq<char> {
    name + ": "@ + value + "\n"@
}

/// The line of a field that may be absent; an absent field has no line.
pub open spec fn optional_line(name: Seq<char>, value: Option<Seq<char>>) -> Seq<char> {
    match value {
        Some(text) => field_line(name, text),
        None => Seq::empty(),
    }
}

/// The line of the retry field.
pub open spec fn retry_line(retry: Option<u64>) -> Seq<char> {
    match retry {
        Some(millis) => field_line("retry"@, decimal_text(millis as nat)),
        None => Seq::empty(),
    }
}

/// The wire text of an event: the lines of `event`, `data`, `id` and `retry`
/// in this order, then one blank line.
pub open spec fn encode_text(event: EventView) -> Seq<char> {
    optional_line("event"@, event.event) + field_line("data"@, event.data) + optional_line(
        "id"@,
        event.id,
    ) + retry_line(event.retry) + "\n"@
}

/// Appends `name: value\n` to `out`.
fn push_field(out: &mut String, name: &str, value: &str)
    ensures
        final(out)@ == old(out)@ + field_line(name@, value@),
{
    out.append(name);
    out.append(": ");
    out.append(value);
    out.append("\n");
    assert(out@ =~= old(out)@ + field_line(name@, value@));
}

impl View for Event {
    type V = EventView;

    closed spec fn view(&self) -> EventView {
        EventView {
            event: text_of(self.event),
            data: self.data@,
            id: text_of(self.id),
            retry: self.retry,
        }
    }
}

impl Event {
    /// Creates an event whose data is serialised JSON. The serialiser must
    /// have succeeded.
    pub fn new(serialized: Result<String, serde_json::Error>) -> (event: Event)
        requires
            serialized is Ok,
        ensures
            event@ == (EventView {
                event: None,
                data: serialized->Ok_0@,
                id: None,
                retry: None,
            }),
    {
        match serialized {
            Ok(data) => Event { event: None, data, id: None, retry: None },
            Err(_) => unreached(),
        }
    }

    /// Creates an event that carries `data` and nothing else.
    pub fn from_data(data: &str) -> (event: Event)
        ensures
            event@ == (EventView { event: None, data: data@, id: None, retry: None }),
    {
        Event { event: None, data: data.to_owned(), id: None, retry: None }
    }

    /// Builds an event from its fields.
    pub fn from_parts(
        id: Option<String>,
        event: Option<String>,
        data: String,
        retry: Option<u64>,
    ) -> (built: Event)
        ensures
            built@ == (EventView { event: text_of(event), data: data@, id: text_of(id), retry }),
    {
        Event { event, data, id, retry }
    }

    /// The event identifier, if set.
    pub fn id(&self) -> (id: Option<&str>)
        ensures
            match id {
                Some(text) => self@.id == Some(text@),
                None => self@.id is None,
            },
    {
        match &self.id {
            Some(id) => Some(id.as_str()),
            None => None,
        }
    }

    /// The event type, if set.
    pub fn event(&self) -> (event: Option<&str>)
        ensures
            match event {
                Some(text) => self@.event == Some(text@),
                None => self@.event is None,
            },
    {
        match &self.event {
            Some(event) => Some(event.as_str()),
            None => None,
        }
    }

    /// The reconnection delay in milliseconds, if set.
    pub fn retry(&self) -> (retry: Option<u64>)
        ensures
            retry == self@.retry,
    {
        self.retry
    }

    /// The payload as text.
    pub fn text_data(&self) -> (data: &str)
        ensures
            data@ == self@.data,
    {
        self.data.as_str()
    }

    /// Sets the event identifier.
    pub fn with_id(self, id: &str) -> (event: Event)
        ensures
            event@ == (EventView { id: Some(id@), ..self@ }),
    {
        let mut event = self;
        event.id = Some(id.to_owned());
        event
    }

    /// Sets the event type.
    pub fn with_event(self, event: &str) -> (updated: Event)
        ensures
            updated@ == (EventView { event: Some(event@), ..self@ }),
    {
        let mut updated = self;
        updated.event = Some(event.to_owned());
        updated
    }

    /// Sets the reconnection delay in milliseconds.
    pub fn with_retry(self, retry: u64) -> (event: Event)
        ensures
            event@ == (EventView { retry: Some(retry), ..self@ }),
    {
        let mut event = self;
        event.retry = Some(retry);
        event
    }

    /// Encodes the event in the wire format.
    pub fn encode(&self) -> (encoded: String)
        ensures
            encoded@ == encode_text(self@),
    {
        let mut encoded = String::new();
        if let Some(event) = self.event() {
            push_field(&mut encoded, "event", event);
        }
        push_field(&mut encoded, "data", self.text_data());
        if let Some(id) = self.id() {
            push_field(&mut encoded, "id", id);
        }
        if let Some(retry) = self.retry() {
            encoded.append("retry");
            encoded.append(": ");
            push_decimal(&mut encoded, retry);
            encoded.append("\n");
        }
        encoded.append("\n");
        assert(encoded@ =~= encode_text(self@));
        encoded
    }
}

} // verus!
