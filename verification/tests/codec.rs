use bot_harness::errors::ProtocolError;
use bot_harness::wire::{decode, encode, encode_log, ClientMessage};

#[test]
fn log_frame_hello() {
    let frame = encode_log("hello");
    assert_eq!(frame, "{\"Log\":\"hello\"}");
}

#[test]
fn log_frame_empty() {
    assert_eq!(encode_log(""), "{\"Log\":\"\"}");
}

#[test]
fn log_frame_escapes_specials() {
    let frame = encode_log("a\"b\\c\nd\te\rf\u{8}g\u{c}h\u{1}i\u{1f}j");
    assert_eq!(
        frame,
        "{\"Log\":\"a\\\"b\\\\c\\nd\\te\\rf\\bg\\fh\\u0001i\\u001fj\"}"
    );
}

#[test]
fn log_frame_keeps_unicode() {
    assert_eq!(encode_log("héllo ☃"), "{\"Log\":\"héllo ☃\"}");
}

#[test]
fn log_frame_is_valid_json_and_round_trips() {
    let text = "a\"b\\c\nd\u{1f} ☃";
    let frame = encode_log(text);
    let value: serde_json::Value = serde_json::from_str(&frame).unwrap();
    assert_eq!(value["Log"], *text);
}

#[test]
fn action_frame_is_valid_json_with_the_payload_under_the_tag() {
    let m = ClientMessage::Action(String::from("{\"move\":2}"));
    let frame = encode(&m).unwrap_or_else(|_| panic!("encoding must succeed"));
    let value: serde_json::Value = serde_json::from_str(&frame).unwrap();
    assert_eq!(value["Action"]["move"], 2);
}

#[test]
fn encode_log_message() {
    let m = ClientMessage::Log(String::from("hello"));
    match encode(&m) {
        Ok(frame) => assert_eq!(frame, "{\"Log\":\"hello\"}"),
        Err(_) => panic!("encoding a log line must succeed"),
    }
}

#[test]
fn encode_action_message() {
    let m = ClientMessage::Action(String::from("{\"move\":2}"));
    match encode(&m) {
        Ok(frame) => assert_eq!(frame, "{\"Action\":{\"move\":2}}"),
        Err(_) => panic!("encoding a well-formed action must succeed"),
    }
}

#[test]
fn encode_action_rejects_malformed_payload() {
    let m = ClientMessage::Action(String::from("{not json"));
    match encode(&m) {
        Ok(_) => panic!("a malformed action payload must be rejected"),
        Err(e) => assert_eq!(e, ProtocolError::Serialization),
    }
}

#[test]
fn decode_well_formed_frame() {
    let frame = "{\"pos\":[1,2],\"hp\":10}";
    match decode(frame) {
        Ok(info) => assert_eq!(info.text(), frame),
        Err(_) => panic!("a well-formed frame must decode"),
    }
}

#[test]
fn decode_plain_json_scalar() {
    match decode("17") {
        Ok(info) => assert_eq!(info.text(), "17"),
        Err(_) => panic!("a bare JSON scalar is still one JSON value"),
    }
}

#[test]
fn decode_rejects_malformed_frame() {
    match decode("{not json") {
        Ok(_) => panic!("a malformed frame must be rejected"),
        Err(e) => assert_eq!(e, ProtocolError::Deserialization),
    }
}

#[test]
fn decode_rejects_empty_frame() {
    match decode("") {
        Ok(_) => panic!("an empty frame must be rejected"),
        Err(e) => assert_eq!(e, ProtocolError::Deserialization),
    }
}

#[test]
fn decode_is_deterministic_on_same_frame() {
    let frame = "{\"turn\":3}";
    let a = decode(frame).unwrap();
    let b = decode(frame).unwrap();
    assert_eq!(a.text(), b.text());
}

#[test]
fn error_descriptions() {
    assert_eq!(
        ProtocolError::Connection.describe(),
        "Can't connect to the game server"
    );
    assert_eq!(ProtocolError::Transmission.describe(), "Error writing message");
    assert_eq!(ProtocolError::Reception.describe(), "Error reading message");
    assert_eq!(
        ProtocolError::Serialization.describe(),
        "Error converting message to string"
    );
    assert_eq!(ProtocolError::Deserialization.describe(), "Error parsing message");
}
