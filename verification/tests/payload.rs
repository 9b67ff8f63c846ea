use markov_chain_client::content_string::ContentString;
use markov_chain_client::{GeneratePayload, InputPayload};
use serde_json::{Number, Value};

fn text(raw: &str) -> ContentString {
    raw.try_into().unwrap()
}

#[test]
fn input_payload() {
    let mut object = serde_json::Map::new();
    object.insert("input".to_string(), Value::String("qweasd123".to_string()));
    let json = Value::Object(object);

    let payload = InputPayload { input: "qweasd123".try_into().unwrap() };

    let from_payload = payload.to_json().unwrap();
    let from_payload: Value = serde_json::from_str(&from_payload).unwrap();

    assert_eq!(json, from_payload);
}

fn assert_same(json: &Value, payload: &GeneratePayload) {
    let from_payload = payload.to_json().unwrap();
    let from_payload: Value = serde_json::from_str(&from_payload).unwrap();

    assert_eq!(*json, from_payload);
}

#[test]
fn generate_payload() {
    let mut object = serde_json::Map::new();
    object.insert("start".to_string(), Value::Null);
    object.insert("max_length".to_string(), Value::Null);
    let mut json = Value::Object(object);

    let mut payload = GeneratePayload { start: None, max_length: None };

    assert_same(&json, &payload);

    json["start"] = "qweasd123".into();
    payload.start = Some("qweasd123".try_into().unwrap());
    assert_same(&json, &payload);

    json["max_length"] = 42.into();
    payload.max_length = Some(42);
    assert_same(&json, &payload);
}

#[test]
fn input_payload_exact_text() {
    let payload = InputPayload { input: text("qweasd123") };
    assert_eq!(payload.to_json().unwrap(), r#"{"input":"qweasd123"}"#);
}

#[test]
fn generate_payload_all_absent_exact_text() {
    let payload = GeneratePayload { start: None, max_length: None };
    assert_eq!(payload.to_json().unwrap(), r#"{"start":null,"max_length":null}"#);
}

#[test]
fn generate_payload_all_present_exact_text() {
    let payload = GeneratePayload { start: Some(text("qweasd123")), max_length: Some(42) };
    assert_eq!(payload.to_json().unwrap(), r#"{"start":"qweasd123","max_length":42}"#);
}

#[test]
fn generate_payload_one_absent_exact_text() {
    let payload = GeneratePayload { start: Some(text("qweasd123")), max_length: None };
    assert_eq!(payload.to_json().unwrap(), r#"{"start":"qweasd123","max_length":null}"#);

    let payload = GeneratePayload { start: None, max_length: Some(42) };
    assert_eq!(payload.to_json().unwrap(), r#"{"start":null,"max_length":42}"#);
}

#[test]
fn both_members_are_always_present() {
    for (start, max_length) in [(None, None), (Some("a"), None), (None, Some(1)), (Some("a"), Some(1))] {
        let payload = GeneratePayload { start: start.map(text), max_length };
        let value: Value = serde_json::from_str(&payload.to_json().unwrap()).unwrap();
        let object = value.as_object().unwrap();
        assert_eq!(object.len(), 2);
        assert!(object.contains_key("start"));
        assert!(object.contains_key("max_length"));
    }
}

#[test]
fn max_length_is_written_in_decimal() {
    for n in [0usize, 1, 9, 10, 99, 100, 2000, 1_000_000, usize::MAX] {
        let payload = GeneratePayload { start: None, max_length: Some(n) };
        assert_eq!(
            payload.to_json().unwrap(),
            format!("{{\"start\":null,\"max_length\":{}}}", n)
        );
        let value: Value = serde_json::from_str(&payload.to_json().unwrap()).unwrap();
        assert_eq!(value["max_length"], Value::Number(Number::from(n)));
    }
}

#[test]
fn payload_text_is_escaped() {
    let payload = InputPayload { input: text("say \"hi\"\n\\o/") };
    assert_eq!(payload.to_json().unwrap(), r#"{"input":"say \"hi\"\n\\o/"}"#);

    let payload = GeneratePayload { start: Some(text("tab\there")), max_length: Some(7) };
    assert_eq!(payload.to_json().unwrap(), r#"{"start":"tab\there","max_length":7}"#);
}

#[test]
fn payload_text_survives_the_round_trip() {
    let raw = "q\"w\\e\u{0}a\u{1f}s\u{7f}d — ☃ 𝄞";
    let payload = InputPayload { input: text(raw) };
    let value: Value = serde_json::from_str(&payload.to_json().unwrap()).unwrap();
    assert_eq!(value["input"], Value::String(raw.to_string()));
}

#[test]
fn frame_input_wraps_the_given_json() {
    assert_eq!(InputPayload::frame("\"abc\""), r#"{"input":"abc"}"#);
    assert_eq!(InputPayload::frame(""), r#"{"input":}"#);
}

#[test]
fn frame_generate_wraps_the_given_json() {
    assert_eq!(GeneratePayload::frame(None, None), r#"{"start":null,"max_length":null}"#);
    assert_eq!(
        GeneratePayload::frame(Some("\"abc\""), Some("12")),
        r#"{"start":"abc","max_length":12}"#
    );
    assert_eq!(
        GeneratePayload::frame(Some("\"abc\""), None),
        r#"{"start":"abc","max_length":null}"#
    );
    assert_eq!(GeneratePayload::frame(None, Some("0")), r#"{"start":null,"max_length":0}"#);
}
