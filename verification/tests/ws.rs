use bytes::Bytes;
use bytestr::ByteStr;
use http_kit::ws::WebSocketConfig;
use http_kit::ws::WebSocketMessage;
use http_kit::ws::DEFAULT_MAX_FRAME_SIZE;
use http_kit::ws::DEFAULT_MAX_MESSAGE_SIZE;

#[test]
fn config_defaults_to_64_and_16_mebibytes() {
    let config = WebSocketConfig::default();
    assert_eq!(config.max_message_size, Some(64 << 20));
    assert_eq!(config.max_frame_size, Some(16 << 20));
    assert_eq!(DEFAULT_MAX_MESSAGE_SIZE, 64 << 20);
    assert_eq!(DEFAULT_MAX_FRAME_SIZE, 16 << 20);
}

#[test]
fn config_builders_change_one_limit_each() {
    let config = WebSocketConfig::default().with_max_message_size(Some(10));
    assert_eq!(config.max_message_size, Some(10));
    assert_eq!(config.max_frame_size, Some(16 << 20));

    let config = config.with_max_frame_size(None);
    assert_eq!(config.max_message_size, Some(10));
    assert_eq!(config.max_frame_size, None);

    let config = config.clone().with_max_message_size(None);
    assert_eq!(config.max_message_size, None);
    assert_eq!(config.max_frame_size, None);
}

#[test]
fn constructors_make_their_variants() {
    assert_eq!(WebSocketMessage::text(ByteStr::from("a")), WebSocketMessage::Text(ByteStr::from("a")));
    assert_eq!(
        WebSocketMessage::binary(Bytes::from("b")),
        WebSocketMessage::Binary(Bytes::from("b"))
    );
    assert_eq!(WebSocketMessage::ping(Bytes::from("p")), WebSocketMessage::Ping(Bytes::from("p")));
    assert_eq!(WebSocketMessage::pong(Bytes::from("q")), WebSocketMessage::Pong(Bytes::from("q")));
    assert_eq!(WebSocketMessage::close(), WebSocketMessage::Close);
    assert_ne!(WebSocketMessage::ping(Bytes::new()), WebSocketMessage::pong(Bytes::new()));
}

#[test]
fn payloads_come_out_of_the_matching_variant_only() {
    let text = WebSocketMessage::text(ByteStr::from("hi"));
    assert_eq!(text.as_text(), Some("hi"));
    assert_eq!(text.as_bytes(), None);
    assert_eq!(text.clone().into_bytes(), None);
    assert_eq!(text.into_text(), Some(ByteStr::from("hi")));

    let binary = WebSocketMessage::binary(Bytes::from_static(&[1, 2]));
    assert_eq!(binary.as_bytes(), Some(&[1u8, 2][..]));
    assert_eq!(binary.as_text(), None);
    assert_eq!(binary.clone().into_text(), None);
    assert_eq!(binary.into_bytes(), Some(Bytes::from_static(&[1, 2])));

    for other in [
        WebSocketMessage::ping(Bytes::from("x")),
        WebSocketMessage::pong(Bytes::from("x")),
        WebSocketMessage::close(),
    ] {
        assert_eq!(other.as_text(), None);
        assert_eq!(other.as_bytes(), None);
        assert_eq!(other.clone().into_text(), None);
        assert_eq!(other.into_bytes(), None);
    }
}

#[test]
fn conversions_choose_text_or_binary() {
    assert_eq!(WebSocketMessage::from("s"), WebSocketMessage::Text(ByteStr::from("s")));
    assert_eq!(
        WebSocketMessage::from("s".to_string()),
        WebSocketMessage::Text(ByteStr::from("s"))
    );
    assert_eq!(
        WebSocketMessage::from(ByteStr::from("s")),
        WebSocketMessage::Text(ByteStr::from("s"))
    );
    assert_eq!(
        WebSocketMessage::from(Bytes::from("b")),
        WebSocketMessage::Binary(Bytes::from("b"))
    );
    assert_eq!(WebSocketMessage::from(vec![1u8, 2]), WebSocketMessage::Binary(Bytes::from(vec![1, 2])));
    assert_eq!(
        WebSocketMessage::from(&[3u8, 4][..]),
        WebSocketMessage::Binary(Bytes::from(vec![3, 4]))
    );
}

#[test]
fn json_text_or_the_serialisers_failure() {
    let message = WebSocketMessage::json(serde_json::to_string(&vec![1, 2])).unwrap();
    assert_eq!(message.as_text(), Some("[1,2]"));
    let failure = serde_json::from_str::<u8>("x").unwrap_err();
    let column = failure.column();
    match WebSocketMessage::json(Err(failure)) {
        Err(error) => assert_eq!(error.column(), column),
        Ok(_) => panic!("a failure must pass through"),
    }
}
