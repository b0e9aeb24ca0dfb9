use bytes::Bytes;
use bytestr::ByteStr;
use http_kit::body::as_str;
use http_kit::body::into_string;
use http_kit::body::BodyError;
use http_kit::body::BodyFrozen;
use http_kit::body::Collecting;
use http_kit::body::Collector;
use http_kit::body::Gathering;
use http_kit::body::Pull;
use http_kit::body::Source;
use http_kit::Body;
use std::collections::VecDeque;
use std::io::Cursor;

type Frames = VecDeque<Result<Option<Vec<u8>>, String>>;
type Driven = Body<Cursor<Vec<u8>>, Frames>;

fn collect<R, S>(body: Body<R, S>) -> Result<Bytes, BodyError> {
    match body.into_bytes() {
        Collecting::Ready(outcome) => outcome,
        _ => panic!("a body in memory needs no outside work"),
    }
}

fn collect_string<R, S>(body: Body<R, S>) -> Result<ByteStr, BodyError> {
    into_string(collect(body)?)
}

/// One pull, with the outside work done as a driver would do it: the reader
/// is read three bytes at a time, the stream hands out its next frame.
fn pull(body: &mut Driven) -> Option<Result<Bytes, BodyError>> {
    match body.poll_next() {
        Pull::Ready(item) => item,
        Pull::Reader => {
            let reader = body.reader_mut().unwrap();
            let mut piece = [0u8; 3];
            let filled =
                std::io::Read::read(reader, &mut piece).map(|n| Bytes::copy_from_slice(&piece[..n]));
            body.reader_filled(filled)
        }
        Pull::Stream => {
            let frame = body.stream_mut().unwrap().pop_front().map(|frame| {
                frame
                    .map(|data| data.map(Bytes::from))
                    .map_err(|report| BodyError::Io(std::io::Error::other(report)))
            });
            Driven::stream_polled(frame)
        }
    }
}

/// Aggregates a body through pulls, as a driver would.
fn pull_to_end(mut body: Driven) -> Result<Bytes, BodyError> {
    let mut collector = Collector::new();
    loop {
        match pull(&mut body) {
            Some(Ok(chunk)) => {
                let hint = body.size_hint(0, None).1.unwrap_or(0);
                collector.push(chunk, hint)
            }
            Some(Err(error)) => return Err(error),
            None => return Ok(collector.finish()),
        }
    }
}

fn frames(list: &[Result<Option<&[u8]>, &str>]) -> Frames {
    list.iter()
        .map(|f| match f {
            Ok(data) => Ok(data.map(|d| d.to_vec())),
            Err(report) => Err(report.to_string()),
        })
        .collect()
}

#[test]
fn test_basic_body_operations() {
    // Test empty body
    let empty: Body = Body::empty();
    assert_eq!(empty.len(), Some(0));
    assert_eq!(empty.is_empty(), Some(true));
    assert!(!empty.is_frozen());

    // Test body from string
    let text_body: Body = Body::from_bytes(Bytes::from("Hello, World!"));
    assert_eq!(text_body.len(), Some(13));
    assert_eq!(text_body.is_empty(), Some(false));

    let result = collect(text_body).unwrap();
    assert_eq!(result.as_ref(), b"Hello, World!");
}

#[test]
fn test_body_freeze_and_take() {
    let mut body: Body = Body::from_bytes(Bytes::from("test data"));
    assert!(!body.is_frozen());

    let taken = Body::take(&mut body).unwrap();
    assert!(body.is_frozen());

    // Test that taken body works
    let data = collect(taken).unwrap();
    assert_eq!(data.as_ref(), b"test data");

    // Test that frozen body fails
    let result = collect(body);
    assert!(result.is_err());
}

#[test]
fn test_body_conversions() {
    // Test from Vec<u8>
    let vec_data = vec![1, 2, 3, 4, 5];
    let body: Body = Body::from(vec_data.clone());
    let result = collect(body).unwrap();
    assert_eq!(result.as_ref(), vec_data.as_slice());

    // Test from &str
    let str_data = "string conversion test";
    let body: Body = Body::from(str_data);
    let result = collect_string(body).unwrap();
    assert_eq!(result.as_str(), str_data);

    // Test from String
    let string_data = "owned string test".to_string();
    let expected = string_data.clone();
    let body: Body = Body::from(string_data);
    let result = collect_string(body).unwrap();
    assert_eq!(result.as_str(), expected);

    // Test from &[u8]
    let slice_data: &[u8] = &[6, 7, 8, 9, 10];
    let body: Body = Body::from(slice_data);
    let result = collect(body).unwrap();
    assert_eq!(result.as_ref(), slice_data);
}

#[test]
fn test_body_stream() {
    let body: Body = Body::from_bytes(Bytes::from("streaming test data"));
    let mut chunks = Vec::new();

    let mut stream = body;
    loop {
        match stream.poll_next() {
            Pull::Ready(Some(chunk_result)) => chunks.push(chunk_result.unwrap()),
            Pull::Ready(None) => break,
            _ => panic!("a body in memory needs no outside work"),
        }
    }

    // For a bytes body, should get all data in one chunk
    assert_eq!(chunks.len(), 1);
    assert_eq!(chunks[0].as_ref(), b"streaming test data");
}

#[test]
fn test_json_functionality() {
    let mut map = serde_json::Map::new();
    map.insert("message".to_string(), serde_json::Value::from("JSON test"));
    map.insert("count".to_string(), serde_json::Value::from(42));
    let data = serde_json::Value::Object(map);

    // Test serialization
    let body: Body = Body::from_json(serde_json::to_string(&data)).unwrap();
    let json_str = collect_string(body).unwrap();
    assert!(json_str.contains("JSON test"));
    assert!(json_str.contains("42"));

    // Test deserialization
    let mut body: Body = Body::from_json(serde_json::to_string(&data)).unwrap();
    assert!(matches!(body.as_bytes(), Ok(None)));
    let parsed: serde_json::Value = serde_json::from_slice(body.cached().unwrap()).unwrap();
    assert_eq!(parsed, data);
}

#[test]
fn test_form_functionality() {
    let data = vec![("name".to_string(), "Alice".to_string()), ("age".to_string(), "30".to_string())];

    // Test serialization
    let body: Body = Body::from_form(serde_urlencoded::to_string(&data)).unwrap();
    let form_str = collect_string(body).unwrap();
    assert!(form_str.contains("name=Alice"));
    assert!(form_str.contains("age=30"));

    // Test deserialization
    let mut body: Body = Body::from_form(serde_urlencoded::to_string(&data)).unwrap();
    assert!(matches!(body.as_bytes(), Ok(None)));
    let parsed: Vec<(String, String)> =
        serde_urlencoded::from_bytes(body.cached().unwrap()).unwrap();
    assert_eq!(parsed, data);
}

#[test]
fn test_reader_no_infinite_loop() {
    let data = "This test ensures the reader doesn't create infinite loops";
    let body: Driven = Body::from_reader(Cursor::new(data.as_bytes().to_vec()), Some(data.len()));

    // This should complete without hanging
    let result = pull_to_end(body).unwrap();
    assert_eq!(result.as_ref(), data.as_bytes());
}

#[test]
fn test_sse_basic() {
    let mut wire = Frames::new();
    wire.push_back(Ok(Some(
        http_kit::sse::Event::from_data("test data").with_id("1").encode().into_bytes(),
    )));
    wire.push_back(Ok(Some(
        http_kit::sse::Event::from_data("more data").with_id("2").encode().into_bytes(),
    )));

    let body: Driven = Body::from_sse(wire);
    assert_eq!(body.mime(), Some("text/event-stream"));
    assert_eq!(
        pull_to_end(body).unwrap().as_ref(),
        b"data: test data\nid: 1\n\ndata: more data\nid: 2\n\n"
    );
}

#[test]
fn test_body_as_str_and_bytes() {
    let mut body: Body = Body::from_bytes(Bytes::from("test string"));

    // Test as_bytes
    assert!(matches!(body.as_bytes(), Ok(None)));
    assert_eq!(body.cached().unwrap(), b"test string");

    // Should be able to call multiple times on the same body
    assert!(matches!(body.as_bytes(), Ok(None)));
    assert_eq!(body.cached().unwrap(), b"test string");

    // Test as_str on new body
    let mut body2: Body = Body::from_bytes(Bytes::from("test string"));
    assert!(matches!(body2.as_bytes(), Ok(None)));
    let str_ref = as_str(body2.cached().unwrap()).unwrap();
    assert_eq!(str_ref, "test string");

    // Test invalid UTF-8
    let mut invalid_body: Body = Body::from_bytes(Bytes::from(vec![0xFF, 0xFE, 0xFD]));
    assert!(matches!(invalid_body.as_bytes(), Ok(None)));
    let result = as_str(invalid_body.cached().unwrap());
    assert!(result.is_err());
}

#[test]
fn test_body_replace_and_swap() {
    // Test replace
    let mut body: Body = Body::from_bytes(Bytes::from("original"));
    let old_body = body.replace(Body::from_bytes(Bytes::from("replacement")));

    let new_data = collect(body).unwrap();
    let old_data = collect(old_body).unwrap();

    assert_eq!(new_data.as_ref(), b"replacement");
    assert_eq!(old_data.as_ref(), b"original");

    // Test swap
    let mut body1: Body = Body::from_bytes(Bytes::from("first"));
    let mut body2: Body = Body::from_bytes(Bytes::from("second"));

    Body::swap(&mut body1, &mut body2).unwrap();

    let data1 = collect(body1).unwrap();
    let data2 = collect(body2).unwrap();

    assert_eq!(data1.as_ref(), b"second");
    assert_eq!(data2.as_ref(), b"first");

    // Test swap on frozen body should fail
    let mut frozen_body: Body = Body::frozen();
    let mut normal_body: Body = Body::from_bytes(Bytes::from("test"));
    let result = Body::swap(&mut frozen_body, &mut normal_body);
    assert!(result.is_err());
}

#[test]
fn test_body_freeze() {
    let mut body: Body = Body::from_bytes(Bytes::from("test"));
    assert!(!body.is_frozen());

    body.freeze();
    assert!(body.is_frozen());

    let result = collect(body);
    assert!(result.is_err());
}

#[test]
fn bytes_put_in_come_back_unchanged() {
    for payload in [&b""[..], &b"a"[..], &b"\x00\xFF\n\r"[..], &[7u8; 4096][..]] {
        let chunk = Bytes::copy_from_slice(payload);
        let body: Body = Body::from_bytes(chunk.clone());
        let back = collect(body).unwrap();
        assert_eq!(back.as_ref(), payload);
        // The chunk itself is handed back: same memory, no copy.
        assert_eq!(back.as_ptr(), chunk.as_ptr());
    }
}

#[test]
fn every_read_after_take_fails_as_frozen() {
    let mut body: Body = Body::from_bytes(Bytes::from("x")).with_mime("text/plain");
    let taken = body.take().unwrap();
    assert_eq!(taken.mime(), Some("text/plain"));
    assert_eq!(collect(taken).unwrap().as_ref(), b"x");

    assert!(body.take().is_err());
    assert_eq!(body.mime(), None);
    assert_eq!(body.len(), None);
    assert_eq!(body.is_empty(), None);
    assert_eq!(body.size_hint(5, Some(6)), (0, None));
    assert!(matches!(body.poll_next(), Pull::Ready(Some(Err(BodyError::BodyFrozen)))));
    assert!(matches!(body.poll_next(), Pull::Ready(Some(Err(BodyError::BodyFrozen)))));
    assert!(matches!(body.as_bytes(), Err(BodyError::BodyFrozen)));
    assert!(body.cached().is_none());
    assert!(matches!(collect(body), Err(BodyError::BodyFrozen)));
}

#[test]
fn freeze_then_aggregate_fails_as_frozen() {
    let mut body: Body = Body::from_bytes(Bytes::from("gone"));
    body.freeze();
    assert!(matches!(collect(body), Err(BodyError::BodyFrozen)));
    let mut body: Driven = Body::from_stream(Frames::new());
    body.freeze();
    assert!(matches!(pull_to_end(body), Err(BodyError::BodyFrozen)));
}

#[test]
fn replace_brings_a_frozen_body_back() {
    let mut body: Body = Body::frozen();
    let old = body.replace(Body::from_bytes(Bytes::from("new")));
    assert!(old.is_frozen());
    assert!(!body.is_frozen());
    assert_eq!(collect(body).unwrap().as_ref(), b"new");
}

#[test]
fn swap_with_a_frozen_partner_is_allowed() {
    let mut live: Body = Body::from_bytes(Bytes::from("live"));
    let mut frozen: Body = Body::frozen();
    assert!(live.swap(&mut frozen).is_ok());
    assert!(live.is_frozen());
    assert_eq!(collect(frozen).unwrap().as_ref(), b"live");
}

#[test]
fn failed_swap_changes_neither_body() {
    let mut frozen: Body = Body::frozen();
    let mut other: Body = Body::from_bytes(Bytes::from("kept"));
    assert!(frozen.swap(&mut other).is_err());
    assert!(frozen.is_frozen());
    assert_eq!(collect(other).unwrap().as_ref(), b"kept");
}

#[test]
fn constructors_set_their_media_types() {
    assert_eq!(Body::<(), ()>::empty().mime(), None);
    assert_eq!(Body::<(), ()>::default().mime(), None);
    assert_eq!(Body::<(), ()>::default().len(), Some(0));
    assert_eq!(Body::<(), ()>::frozen().mime(), None);
    assert_eq!(Body::<u8, ()>::from_reader(1, None).mime(), None);
    assert_eq!(Body::<(), u8>::from_stream(1).mime(), None);
    assert_eq!(
        Body::<(), ()>::from_bytes(Bytes::new()).mime(),
        Some("application/octet-stream")
    );
    assert_eq!(
        Body::<(), ()>::from_text(ByteStr::from("hi")).mime(),
        Some("text/plain; charset=utf-8")
    );
    assert_eq!(Body::<(), ()>::from("hi").mime(), Some("application/octet-stream"));
    assert_eq!(
        Body::<(), ()>::from(ByteStr::from("hi")).mime(),
        Some("application/octet-stream")
    );
    assert_eq!(Body::<(), ()>::from(Bytes::new()).mime(), Some("application/octet-stream"));
    assert_eq!(Body::<(), ()>::empty().with_mime("a/b").mime(), Some("a/b"));
}

#[test]
fn from_text_holds_the_utf8_encoding() {
    let body: Body = Body::from_text(ByteStr::from("héllo"));
    assert_eq!(body.len(), Some(6));
    assert_eq!(collect(body).unwrap().as_ref(), "héllo".as_bytes());
}

#[test]
fn serialiser_failures_pass_through() {
    let failure = serde_json::from_str::<u8>("x").unwrap_err();
    let line = failure.line();
    match Body::<(), ()>::from_json(Err(failure)) {
        Err(error) => assert_eq!(error.line(), line),
        Ok(_) => panic!("a failure must pass through"),
    }
    let failure = serde_urlencoded::to_string(5u8).unwrap_err();
    let report = failure.to_string();
    match Body::<(), ()>::from_form(Err(failure)) {
        Err(error) => assert_eq!(error.to_string(), report),
        Ok(_) => panic!("a failure must pass through"),
    }
}

#[test]
fn lengths_and_size_hints_by_source() {
    let memory: Body = Body::from_bytes(Bytes::from("12345"));
    assert_eq!(memory.len(), Some(5));
    assert_eq!(memory.size_hint(9, Some(9)), (5, Some(5)));

    let reader: Body<u8, ()> = Body::from_reader(0, Some(10));
    assert_eq!(reader.len(), Some(10));
    assert_eq!(reader.is_empty(), Some(false));
    assert_eq!(reader.size_hint(9, Some(9)), (0, Some(10)));
    let reader: Body<u8, ()> = Body::from_reader(0, None);
    assert_eq!(reader.len(), None);
    assert_eq!(reader.is_empty(), None);
    assert_eq!(reader.size_hint(9, Some(9)), (0, None));
    let reader: Body<u8, ()> = Body::from_reader(0, Some(0));
    assert_eq!(reader.is_empty(), Some(true));

    let stream: Body<(), u8> = Body::from_stream(0);
    assert_eq!(stream.len(), None);
    assert_eq!(stream.size_hint(3, Some(8)), (3, Some(8)));
    assert_eq!(stream.size_hint(3, None), (3, None));
    assert_eq!(stream.size_hint(u64::MAX, Some(u64::MAX)).0, usize::MAX.min(u64::MAX as usize));
}

#[test]
fn reader_hint_shrinks_and_stops_at_zero() {
    let mut body: Driven = Body::from_reader(Cursor::new(b"abcdefgh".to_vec()), Some(7));
    let mut seen = Vec::new();
    let mut hints = Vec::new();
    while let Some(item) = pull(&mut body) {
        seen.extend_from_slice(&item.unwrap());
        hints.push(body.len());
    }
    assert_eq!(seen, b"abcdefgh");
    assert_eq!(hints, vec![Some(4), Some(1), Some(0)]);
    assert_eq!(body.len(), Some(0));

    let mut body: Driven = Body::from_reader(Cursor::new(b"abcd".to_vec()), None);
    assert_eq!(pull(&mut body).unwrap().unwrap().as_ref(), b"abc");
    assert_eq!(body.len(), None);
}

#[test]
fn reader_failure_is_an_io_error() {
    let mut body: Driven = Body::from_reader(Cursor::new(Vec::new()), Some(4));
    match body.reader_filled(Err(std::io::Error::other("disk"))) {
        Some(Err(BodyError::Io(error))) => assert_eq!(error.to_string(), "disk"),
        _ => panic!("a failed read must be passed on"),
    }
    assert_eq!(body.len(), Some(4));
    assert!(body.reader_filled(Ok(Bytes::new())).is_none());
    assert_eq!(body.len(), Some(4));
}

#[test]
fn stream_frames_are_forwarded() {
    let mut body: Driven = Body::from_stream(frames(&[
        Ok(Some(b"one")),
        Ok(None),
        Ok(Some(b"")),
        Ok(Some(b"two")),
    ]));
    let mut seen = Vec::new();
    while let Some(item) = pull(&mut body) {
        seen.push(item.unwrap().to_vec());
    }
    assert_eq!(seen, vec![b"one".to_vec(), vec![], vec![], b"two".to_vec()]);
}

#[test]
fn stream_failure_ends_the_aggregation() {
    let body: Driven = Body::from_stream(frames(&[Ok(Some(b"one")), Err("net"), Ok(Some(b"x"))]));
    match pull_to_end(body) {
        Err(BodyError::Io(error)) => assert_eq!(error.to_string(), "net"),
        _ => panic!("the failure must surface"),
    }
}

#[test]
fn a_single_chunk_is_returned_without_a_copy() {
    let chunk = Bytes::from(vec![1u8, 2, 3]);
    let mut collector = Collector::new();
    collector.push(chunk.clone(), 100);
    let all = collector.finish();
    assert_eq!(all.as_ptr(), chunk.as_ptr());
    assert_eq!(all.as_ref(), &[1, 2, 3]);
}

#[test]
fn chunks_are_gathered_in_order() {
    let mut collector = Collector::new();
    collector.push(Bytes::from_static(b"ab"), 0);
    collector.push(Bytes::from_static(b""), usize::MAX);
    collector.push(Bytes::from_static(b"cd"), 3);
    collector.extend(b"ef");
    assert_eq!(collector.finish().as_ref(), b"abcdef");

    assert_eq!(Collector::new().finish().as_ref(), b"");
    assert_eq!(Collector::with_capacity(16).finish().as_ref(), b"");

    let mut collector = Collector::new();
    collector.push(Bytes::from_static(b"ab"), 0);
    collector.extend(b"c");
    assert_eq!(collector.finish().as_ref(), b"abc");
    let mut collector = Collector::new();
    collector.extend(b"z");
    assert_eq!(collector.finish().as_ref(), b"z");
}

#[test]
fn aggregation_of_a_stream_copies_every_chunk() {
    let body: Driven = Body::from_stream(frames(&[Ok(Some(b"he")), Ok(Some(b"llo")), Ok(Some(b"!"))]));
    assert_eq!(pull_to_end(body).unwrap().as_ref(), b"hello!");
    let body: Driven = Body::from_stream(Frames::new());
    assert_eq!(pull_to_end(body).unwrap().as_ref(), b"");
}

#[test]
fn into_bytes_hands_the_source_to_the_driver() {
    let body: Driven = Body::from_reader(Cursor::new(b"abc".to_vec()), Some(3));
    match body.into_bytes() {
        Collecting::Reader { reader, collector } => {
            assert_eq!(reader.into_inner(), b"abc");
            assert_eq!(collector.finish().as_ref(), b"");
        }
        _ => panic!("a reader has to be drained"),
    }
    let body: Driven = Body::from_stream(frames(&[Ok(None)]));
    match body.into_bytes() {
        Collecting::Stream { stream, .. } => assert_eq!(stream.len(), 1),
        _ => panic!("a stream has to be drained"),
    }
}

#[test]
fn as_bytes_freezes_until_the_content_is_cached() {
    let mut body: Driven =
        Body::from_stream(frames(&[Ok(Some(b"ab")), Ok(Some(b"c"))])).with_mime("x/y");
    let pending = body.as_bytes().unwrap().unwrap();
    assert!(body.is_frozen());
    assert_eq!(body.mime(), None);
    assert!(body.cached().is_none());
    let content = match pending {
        Collecting::Stream { stream, collector } => {
            pull_to_end(Body::from_stream(stream)).map(|all| {
                drop(collector);
                all
            })
        }
        _ => panic!("a stream has to be drained"),
    };
    body.cache(content.unwrap());
    assert!(!body.is_frozen());
    assert_eq!(body.cached().unwrap(), b"abc");
    assert_eq!(body.len(), Some(3));
}

#[test]
fn strict_text_refuses_malformed_utf8() {
    assert_eq!(into_string(Bytes::from("héllo")).unwrap().as_str(), "héllo");
    assert_eq!(into_string(Bytes::new()).unwrap().as_str(), "");
    assert!(matches!(into_string(Bytes::from(vec![0xC3])), Err(BodyError::Utf8(_))));
    assert!(matches!(into_string(Bytes::from(vec![0xED, 0xA0, 0x80])), Err(BodyError::Utf8(_))));
    assert_eq!(as_str("ok".as_bytes()).unwrap(), "ok");
    assert!(matches!(as_str(&[0x80]), Err(BodyError::Utf8(_))));
}

#[test]
fn error_reports_in_words() {
    assert_eq!(
        BodyFrozen::new().to_string(),
        "Body was frozen,it may have been consumed by `take()`"
    );
    assert_eq!(
        BodyError::BodyFrozen.to_string(),
        "Body was frozen,it may have been consumed by `take()`"
    );
    assert_eq!(BodyError::Io(std::io::Error::other("io")).to_string(), "io");
    let utf8 = std::str::from_utf8(&[0xFF]).unwrap_err();
    assert_eq!(BodyError::Utf8(utf8).to_string(), utf8.to_string());
    let json = serde_json::from_str::<u8>("x").unwrap_err();
    let report = json.to_string();
    assert_eq!(BodyError::JsonError(json).to_string(), report);
    let ser = serde_urlencoded::to_string(5u8).unwrap_err();
    let report = ser.to_string();
    assert_eq!(BodyError::SerializeForm(ser).to_string(), report);
    let de = serde_urlencoded::from_str::<u8>("x").unwrap_err();
    let report = de.to_string();
    assert_eq!(BodyError::DeserializeForm(de).to_string(), report);
}

#[test]
fn into_source_gives_what_backs_the_body() {
    let body: Driven = Body::from_reader(Cursor::new(vec![1]), Some(1));
    assert!(matches!(body.into_source(), Source::Reader { length: Some(1), .. }));
    assert!(matches!(Body::<(), ()>::frozen().into_source(), Source::Frozen));
    assert!(matches!(Body::<(), ()>::empty().into_source(), Source::Once(_)));
    assert!(matches!(Body::<(), u8>::from_stream(3).into_source(), Source::Stream(3)));
}

/// Aggregates a list of stream items through the library's step, as a driver
/// would.
fn gather(items: Vec<Option<Result<Bytes, BodyError>>>) -> Result<Bytes, BodyError> {
    let mut collector = Collector::new();
    for item in items {
        match collector.gathered(item, 0, None) {
            Gathering::More(more) => collector = more,
            Gathering::Done(outcome) => return outcome,
        }
    }
    panic!("the items must end the aggregation");
}

#[test]
fn a_stream_step_adds_ends_or_fails() {
    assert_eq!(gather(vec![None]).unwrap().as_ref(), b"");
    assert_eq!(
        gather(vec![Some(Ok(Bytes::from("ab"))), Some(Ok(Bytes::from("c"))), None])
            .unwrap()
            .as_ref(),
        b"abc"
    );
    let only = Bytes::from(vec![9u8; 8]);
    let back = gather(vec![Some(Ok(only.clone())), None]).unwrap();
    assert_eq!(back.as_ptr(), only.as_ptr());
}

#[test]
fn a_stream_failure_drops_what_was_gathered() {
    let outcome = gather(vec![
        Some(Ok(Bytes::from("partial"))),
        Some(Ok(Bytes::from(" content"))),
        Some(Err(BodyError::Io(std::io::Error::new(std::io::ErrorKind::TimedOut, "late")))),
        Some(Ok(Bytes::from("never seen"))),
        None,
    ]);
    match outcome {
        Err(BodyError::Io(error)) => {
            assert_eq!(error.kind(), std::io::ErrorKind::TimedOut);
            assert_eq!(error.to_string(), "late");
        }
        _ => panic!("the failure must end the aggregation"),
    }
    assert!(matches!(gather(vec![Some(Err(BodyError::BodyFrozen))]), Err(BodyError::BodyFrozen)));
}

#[test]
fn a_stream_step_takes_its_hint_from_the_bounds() {
    // The hint sizes the buffer only: whatever the bounds, the content is the same.
    for (lower, upper) in [(0, None), (7, None), (0, Some(3)), (usize::MAX, Some(usize::MAX))] {
        let mut collector = Collector::new();
        for piece in [&b"he"[..], &b"llo"[..]] {
            collector = match collector.gathered(Some(Ok(Bytes::copy_from_slice(piece))), lower, upper) {
                Gathering::More(more) => more,
                Gathering::Done(_) => panic!("a chunk does not end the aggregation"),
            };
        }
        match collector.gathered(None, lower, upper) {
            Gathering::Done(Ok(all)) => assert_eq!(all.as_ref(), b"hello"),
            _ => panic!("the end must end the aggregation"),
        }
    }
}

#[test]
fn a_read_step_copies_ends_or_fails() {
    let collector = match Collector::with_capacity(4).read(Ok(b"ab")) {
        Gathering::More(more) => more,
        Gathering::Done(_) => panic!("bytes do not end the aggregation"),
    };
    let collector = match collector.read(Ok(b"cd")) {
        Gathering::More(more) => more,
        Gathering::Done(_) => panic!("bytes do not end the aggregation"),
    };
    match collector.read(Ok(b"")) {
        Gathering::Done(Ok(all)) => assert_eq!(all.as_ref(), b"abcd"),
        _ => panic!("an empty buffer is the end"),
    }

    match Collector::new().read(Ok(b"")) {
        Gathering::Done(Ok(all)) => assert!(all.is_empty()),
        _ => panic!("an empty buffer is the end"),
    }

    let collector = match Collector::new().read(Ok(b"lost")) {
        Gathering::More(more) => more,
        Gathering::Done(_) => panic!("bytes do not end the aggregation"),
    };
    match collector.read(Err(std::io::Error::new(std::io::ErrorKind::BrokenPipe, "pipe"))) {
        Gathering::Done(Err(BodyError::Io(error))) => {
            assert_eq!(error.kind(), std::io::ErrorKind::BrokenPipe);
            assert_eq!(error.to_string(), "pipe");
        }
        _ => panic!("the failure must end the aggregation"),
    }
}

#[test]
fn as_bytes_chooses_the_collector_by_source() {
    // A stream's collector hands a single chunk back as it came.
    let mut body: Driven = Body::from_stream(Frames::new());
    let only = Bytes::from(vec![1u8, 2, 3]);
    match body.as_bytes().unwrap().unwrap() {
        Collecting::Stream { collector, .. } => match collector.gathered(Some(Ok(only.clone())), 0, None) {
            Gathering::More(more) => assert_eq!(more.finish().as_ptr(), only.as_ptr()),
            Gathering::Done(_) => panic!("a chunk does not end the aggregation"),
        },
        _ => panic!("a stream has to be drained"),
    }
    // A reader's collector copies.
    let mut body: Driven = Body::from_reader(Cursor::new(Vec::new()), Some(3));
    match body.as_bytes().unwrap().unwrap() {
        Collecting::Reader { mut collector, .. } => {
            collector.push(only.clone(), 0);
            let all = collector.finish();
            assert_eq!(all.as_ref(), only.as_ref());
            assert_ne!(all.as_ptr(), only.as_ptr());
        }
        _ => panic!("a reader has to be drained"),
    }
}

#[test]
fn a_decoding_failure_carries_the_words_of_the_body_error() {
    let failure = http_kit::sse::SseStream::<(), ()>::fail(&BodyError::Io(std::io::Error::new(
        std::io::ErrorKind::ConnectionReset,
        "connection reset by peer",
    )));
    assert_eq!(failure.to_string(), "Body stream error: connection reset by peer");
    let utf8 = std::str::from_utf8(&[0xC3]).unwrap_err();
    let failure = http_kit::sse::SseStream::<(), ()>::fail(&BodyError::Utf8(utf8));
    assert_eq!(failure.to_string(), format!("Body stream error: {}", utf8));
    let failure = http_kit::sse::SseStream::<(), ()>::fail(&BodyError::BodyFrozen);
    assert_eq!(
        failure.to_string(),
        "Body stream error: Body was frozen,it may have been consumed by `take()`"
    );
}
