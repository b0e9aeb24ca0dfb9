//! Decoding of input that is at hand as a whole, chunk after chunk.

use crate::sse::decoder::after_line;
use crate::sse::decoder::dispatches;
use crate::sse::decoder::finish;
use crate::sse::decoder::finish_buffer;
use crate::sse::decoder::first_lf;
use crate::sse::decoder::line_content;
use crate::sse::decoder::parse_buffer;
use crate::sse::decoder::parse_event_from_buffer;
use crate::sse::decoder::PartialEvent;
use crate::sse::decoder::PartialEventView;
use crate::sse::event::Event;
use crate::sse::event::EventView;
use vstd::prelude::*;

verus! {

/// The outcome of pulling a buffer dry.
pub struct Drained {
    /// The bytes left in the buffer: the unfinished last line.
    pub rest: Seq<u8>,
    /// The pending event afterwards.
    pub partial: PartialEventView,
    /// The events dispatched, in order.
    pub events: Seq<EventView>,
}

/// Every event that the complete lines of `buffer` dispatch, in order.
pub open spec fn drain(buffer: Seq<u8>, pending: PartialEventView) -> Drained
    decreases buffer.len(),
{
    let end = first_lf(buffer);
    if end >= buffer.len() {
        Drained { rest: buffer, partial: pending, events: Seq::empty() }
    } else {
        let line = line_content(buffer.take(end as int));
        let later = drain(buffer.skip(end + 1 as int), after_line(pending, line));
        if dispatches(pending, line) {
            Drained { events: seq![pending.event()] + later.events, ..later }
        } else {
            later
        }
    }
}

/// The events of a sequence of chunks that arrive one after another: each
/// chunk is appended to the buffer, which is then pulled dry.
pub open spec fn feed(chunks: Seq<Seq<u8>>, buffer: Seq<u8>, pending: PartialEventView) -> Drained
    decreases chunks.len(),
{
    if chunks.len() == 0 {
        Drained { rest: buffer, partial: pending, events: Seq::empty() }
    } else {
        let first = drain(buffer + chunks.first(), pending);
        let later = feed(chunks.drop_first(), first.rest, first.partial);
        Drained { events: first.events + later.events, ..later }
    }
}

/// The events that the end of the input dispatches: one or none.
pub open spec fn last_events(buffer: Seq<u8>, pending: PartialEventView) -> Seq<EventView> {
    match finish(buffer, pending).event {
        Some(event) => seq![event],
        None => Seq::empty(),
    }
}

/// The events of an input that arrives as `chunks` and then ends.
pub open spec fn decode_events(chunks: Seq<Seq<u8>>) -> Seq<EventView> {
    let fed = feed(chunks, Seq::empty(), PartialEventView::empty());
    fed.events + last_events(fed.rest, fed.partial)
}

/// The views of a sequence of events.
pub open spec fn event_views(events: Seq<Event>) -> Seq<EventView> {
    events.map_values(|event: Event| event@)
}

/// The contents of a sequence of chunks.
pub open spec fn chunk_contents(chunks: Seq<Vec<u8>>) -> Seq<Seq<u8>> {
    chunks.map_values(|chunk: Vec<u8>| chunk@)
}

/// Pulling a buffer dry is pulling it event by event until a pull
/// dispatches nothing; a pull that dispatches consumes at least one byte.
pub proof fn lemma_drain_by_pulls(buffer: Seq<u8>, pending: PartialEventView)
    ensures
        ({
            let pulled = parse_buffer(buffer, pending);
            let dry = drain(buffer, pending);
            match pulled.event {
                Some(event) => {
                    let later = drain(pulled.rest, pulled.partial);
                    &&& pulled.rest.len() < buffer.len()
                    &&& dry.events == seq![event] + later.events
                    &&& dry.rest == later.rest
                    &&& dry.partial == later.partial
                },
                None => {
                    &&& dry.events == Seq::<EventView>::empty()
                    &&& dry.rest == pulled.rest
                    &&& dry.partial == pulled.partial
                },
            }
        }),
    decreases buffer.len(),
{
    let end = first_lf(buffer);
    if end < buffer.len() {
        let line = line_content(buffer.take(end as int));
        if !dispatches(pending, line) {
            lemma_drain_by_pulls(buffer.skip(end + 1 as int), after_line(pending, line));
        }
    }
}

/// What is left after a buffer was pulled dry holds no complete line.
pub proof fn lemma_drain_settles(buffer: Seq<u8>, pending: PartialEventView)
    ensures
        first_lf(drain(buffer, pending).rest) >= drain(buffer, pending).rest.len(),
    decreases buffer.len(),
{
    let end = first_lf(buffer);
    if end < buffer.len() {
        let line = line_content(buffer.take(end as int));
        lemma_drain_settles(buffer.skip(end + 1 as int), after_line(pending, line));
    }
}

/// Bytes appended after a line feed do not move it.
pub proof fn lemma_first_lf_append(buffer: Seq<u8>, more: Seq<u8>)
    requires
        first_lf(buffer) < buffer.len(),
    ensures
        first_lf(buffer + more) == first_lf(buffer),
    decreases buffer.len(),
{
    if buffer[0] != crate::text::LF {
        assert((buffer + more).skip(1) =~= buffer.skip(1) + more);
        lemma_first_lf_append(buffer.skip(1), more);
    }
}

/// Pulling dry commutes with the arrival of more bytes: to pull a buffer dry
/// and then again after `more` arrived gives the events of pulling dry once
/// with `more` in place from the start.
pub proof fn lemma_drain_append(buffer: Seq<u8>, more: Seq<u8>, pending: PartialEventView)
    ensures
        ({
            let before = drain(buffer, pending);
            let after = drain(before.rest + more, before.partial);
            let whole = drain(buffer + more, pending);
            &&& whole.events == before.events + after.events
            &&& whole.rest == after.rest
            &&& whole.partial == after.partial
        }),
    decreases buffer.len(),
{
    let end = first_lf(buffer);
    let before = drain(buffer, pending);
    let after = drain(before.rest + more, before.partial);
    let whole = drain(buffer + more, pending);
    if end < buffer.len() {
        lemma_first_lf_append(buffer, more);
        let line = line_content(buffer.take(end as int));
        let rest = buffer.skip(end + 1 as int);
        assert((buffer + more).take(end as int) =~= buffer.take(end as int));
        assert((buffer + more).skip(end + 1 as int) =~= rest + more);
        lemma_drain_append(rest, more, after_line(pending, line));
        let later = drain(rest, after_line(pending, line));
        let later_after = drain(later.rest + more, later.partial);
        if dispatches(pending, line) {
            assert(seq![pending.event()] + (later.events + later_after.events) =~= (seq![
                pending.event(),
            ] + later.events) + later_after.events);
        }
    } else {
        assert(before.events + after.events =~= after.events);
    }
}

/// The events of chunks that arrive one after another are the events of
/// their concatenation, provided that the buffer they arrive in holds no
/// complete line.
pub proof fn lemma_feed_is_drain(chunks: Seq<Seq<u8>>, buffer: Seq<u8>, pending: PartialEventView)
    requires
        first_lf(buffer) >= buffer.len(),
    ensures
        feed(chunks, buffer, pending) == drain(buffer + chunks.flatten(), pending),
    decreases chunks.len(),
{
    if chunks.len() == 0 {
        assert(buffer + chunks.flatten() =~= buffer);
    } else {
        let first = drain(buffer + chunks.first(), pending);
        lemma_drain_settles(buffer + chunks.first(), pending);
        lemma_feed_is_drain(chunks.drop_first(), first.rest, first.partial);
        lemma_drain_append(buffer + chunks.first(), chunks.drop_first().flatten(), pending);
        assert((buffer + chunks.first()) + chunks.drop_first().flatten() =~= buffer
            + chunks.flatten());
    }
}

/// Decodes input that arrives as `chunks` and then ends: every event, in
/// order.
pub fn decode(chunks: &Vec<Vec<u8>>) -> (events: Vec<Event>)
    ensures
        event_views(events@) == decode_events(chunk_contents(chunks@)),
{
    let mut buffer: Vec<u8> = Vec::new();
    let mut pending = PartialEvent::new();
    let mut events: Vec<Event> = Vec::new();
    let ghost all = chunk_contents(chunks@);
    let mut i: usize = 0;
    assert(event_views(events@) =~= Seq::<EventView>::empty());
    assert(all.skip(0) =~= all);
    while i < chunks.len()
        invariant
            i <= chunks.len(),
            all == chunk_contents(chunks@),
            ({
                let fed = feed(all.skip(i as int), buffer@, pending@);
                decode_events(all) == event_views(events@) + fed.events + last_events(
                    fed.rest,
                    fed.partial,
                )
            }),
        decreases chunks.len() - i,
    {
        let ghost before = buffer@;
        let ghost seen = event_views(events@);
        let ghost fed = feed(all.skip(i as int), buffer@, pending@);
        buffer.extend_from_slice(chunks[i].as_slice());
        let ghost first = drain(buffer@, pending@);
        let ghost later = feed(all.skip(i + 1), first.rest, first.partial);
        proof {
            assert(all.skip(i as int).first() == chunks@[i as int]@);
            assert(all.skip(i as int).drop_first() =~= all.skip(i + 1));
            assert(buffer@ == before + all.skip(i as int).first());
            assert(fed.events == first.events + later.events);
        }
        loop
            invariant_except_break
                first.events == event_views(events@).skip(seen.len() as int) + drain(
                    buffer@,
                    pending@,
                ).events,
                first.rest == drain(buffer@, pending@).rest,
                first.partial == drain(buffer@, pending@).partial,
            invariant
                event_views(events@).take(seen.len() as int) == seen,
                seen.len() <= events@.len(),
            ensures
                event_views(events@) == seen + first.events,
                buffer@ == first.rest,
                pending@ == first.partial,
            decreases buffer@.len(),
        {
            proof {
                lemma_drain_by_pulls(buffer@, pending@);
            }
            let ghost old_events = event_views(events@);
            match parse_event_from_buffer(&mut buffer, &mut pending) {
                Some(event) => {
                    events.push(event);
                    proof {
                        let now = event_views(events@);
                        assert(now =~= old_events.push(event@));
                        assert(now.take(seen.len() as int) =~= old_events.take(seen.len() as int));
                        assert(now.skip(seen.len() as int) =~= old_events.skip(
                            seen.len() as int,
                        ).push(event@));
                        assert(old_events.skip(seen.len() as int).push(event@) + drain(
                            buffer@,
                            pending@,
                        ).events =~= old_events.skip(seen.len() as int) + (seq![event@] + drain(
                            buffer@,
                            pending@,
                        ).events));
                    }
                },
                None => {
                    proof {
                        let now = event_views(events@);
                        assert(now =~= now.take(seen.len() as int) + now.skip(seen.len() as int));
                        assert(now.skip(seen.len() as int) + Seq::<EventView>::empty() =~= now.skip(
                            seen.len() as int,
                        ));
                    }
                    break ;
                },
            }
        }
        proof {
            assert((seen + first.events) + later.events + last_events(later.rest, later.partial)
                =~= seen + (first.events + later.events) + last_events(later.rest, later.partial));
        }
        i += 1;
    }
    let ghost seen = event_views(events@);
    proof {
        assert(all.skip(i as int) =~= Seq::<Seq<u8>>::empty());
        assert(seen + Seq::<EventView>::empty() =~= seen);
    }
    match finish_buffer(&mut buffer, &mut pending) {
        Some(event) => {
            events.push(event);
            assert(event_views(events@) =~= seen + seq![event@]);
        },
        None => {
            assert(seen + Seq::<EventView>::empty() =~= seen);
        },
    }
    events
}

} // verus!
