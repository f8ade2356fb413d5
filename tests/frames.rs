use bing_speech::frame::{
    audio_frame, config_frame, decode_text_frame, encode_binary_frame, encode_text_frame,
    FrameError, HeaderField,
};

fn field(k: &str, v: &str) -> HeaderField {
    HeaderField { key: k.to_string(), value: v.to_string() }
}

fn pairs(fields: &[HeaderField]) -> Vec<(String, String)> {
    fields.iter().map(|f| (f.key.clone(), f.value.clone())).collect()
}

#[test]
fn config_frame_has_exact_layout() {
    let text = config_frame("abc123", "2018-06-01T10:00:00+00:00", "{\"a\":1}");
    assert_eq!(
        text,
        "Path: speech.config\r\nX-RequestId: abc123\r\nX-Timestamp: 2018-06-01T10:00:00+00:00\r\nContent-Type: application/json; charset=utf-8\r\n\r\n{\"a\":1}"
    );
}

#[test]
fn text_frame_round_trip_keeps_fields_and_body() {
    let fields = vec![
        field("Path", "speech.config"),
        field("X-RequestId", "0123456789abcdef0123456789abcdef"),
        field("X-Timestamp", "2018-06-01T10:00:00.123+09:00"),
        field("Content-Type", "application/json; charset=utf-8"),
    ];
    let body = "{\"context\":{\"system\":{\"version\":\"1\"}}}";
    let text = encode_text_frame(&fields, body);
    let frame = decode_text_frame(&text).unwrap();
    assert_eq!(pairs(&frame.headers), pairs(&fields));
    assert_eq!(frame.body, body);
    assert_eq!(encode_text_frame(&frame.headers, &frame.body), text);
}

#[test]
fn decode_trims_and_splits_at_first_colon() {
    let frame = decode_text_frame("  Path :  turn.start \r\nX-Timestamp: 10:20:30\r\n\r\n").unwrap();
    assert_eq!(
        pairs(&frame.headers),
        vec![
            ("Path".to_string(), "turn.start".to_string()),
            ("X-Timestamp".to_string(), "10:20:30".to_string())
        ]
    );
    assert_eq!(frame.body, "");
}

#[test]
fn body_is_everything_after_first_blank_line() {
    let frame = decode_text_frame("Path: x\r\n\r\nab\r\n\r\ncd").unwrap();
    assert_eq!(frame.body, "ab\r\n\r\ncd");
    assert_eq!(frame.path().map(|p| p.as_str()), Some("x"));
}

#[test]
fn decode_without_blank_line_fails() {
    assert_eq!(decode_text_frame("Path: turn.start\r\n").unwrap_err(), FrameError::MissingSeparator);
    assert_eq!(decode_text_frame("").unwrap_err(), FrameError::MissingSeparator);
}

#[test]
fn decode_line_without_colon_fails() {
    assert_eq!(
        decode_text_frame("Path: turn.start\r\nbroken line\r\n\r\n{}").unwrap_err(),
        FrameError::MalformedHeader
    );
    assert_eq!(decode_text_frame("\r\n\r\nbody").unwrap_err(), FrameError::MalformedHeader);
}

#[test]
fn decode_keeps_non_ascii_text() {
    let frame = decode_text_frame("Path: speech.phrase\r\nX-Note: caf\u{e9} \u{3042}\r\n\r\n\u{65e5}\u{672c}").unwrap();
    assert_eq!(frame.headers[1].value, "caf\u{e9} \u{3042}");
    assert_eq!(frame.body, "\u{65e5}\u{672c}");
}

#[test]
fn binary_frame_prefix_gives_header_length() {
    let frame = encode_binary_frame("abc", &[9, 8, 7]).unwrap();
    assert_eq!(frame, vec![0, 3, b'a', b'b', b'c', 9, 8, 7]);
}

#[test]
fn audio_frame_layout_round_trips() {
    let id = "0123456789abcdef0123456789abcdef";
    let ts = "2018-06-01T10:00:00+00:00";
    let payload: Vec<u8> = (0..300u32).map(|i| (i % 251) as u8).collect();
    let frame = audio_frame(id, ts, &payload).unwrap();
    let header = format!(
        "Path: audio\r\nX-RequestId: {}\r\nX-Timestamp: {}\r\nContent-Type: audio/x-wav\r\n\r\n",
        id, ts
    );
    let len = ((frame[0] as usize) << 8) | frame[1] as usize;
    assert_eq!(len, header.len());
    assert_eq!(&frame[2..2 + len], header.as_bytes());
    assert_eq!(&frame[2 + len..], &payload[..]);
}

#[test]
fn audio_frame_with_empty_payload() {
    let frame = audio_frame("id", "t", &[]).unwrap();
    let len = ((frame[0] as usize) << 8) | frame[1] as usize;
    assert_eq!(frame.len(), 2 + len);
}

#[test]
fn header_of_two_bytes_length_prefix() {
    let long = "x".repeat(300);
    let frame = encode_binary_frame(&long, &[1]).unwrap();
    assert_eq!(frame[0], 1);
    assert_eq!(frame[1], 44);
    assert_eq!(frame.len(), 2 + 300 + 1);
}

#[test]
fn header_too_long_is_refused() {
    let id = "a".repeat(70000);
    assert_eq!(audio_frame(&id, "t", &[1, 2]).unwrap_err(), FrameError::HeaderTooLong);
    let exact = "b".repeat(65535);
    assert_eq!(encode_binary_frame(&exact, &[]).unwrap().len(), 65537);
    let over = "b".repeat(65536);
    assert_eq!(encode_binary_frame(&over, &[]).unwrap_err(), FrameError::HeaderTooLong);
}
