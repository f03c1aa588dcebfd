use ai_token_prelude::body::{body_model, body_text_bytes, document_text_of, model_of};
use ai_token_prelude::debug_text::format_body;
use ai_token_prelude::json::JsonValue;

#[test]
fn model_is_read_from_the_body() {
    assert_eq!(body_model(br#"{"model":"qwen-max","messages":[]}"#), "qwen-max");
}

#[test]
fn model_is_empty_when_absent_not_a_string_or_not_json() {
    assert_eq!(body_model(br#"{"messages":[]}"#), "");
    assert_eq!(body_model(br#"{"model":12}"#), "");
    assert_eq!(body_model(b"not json"), "");
    assert_eq!(body_model(br#"["model"]"#), "");
    assert_eq!(model_of(&None), "");
}

#[test]
fn text_bytes_of_string_contents() {
    let body = br#"{"messages":[{"role":"system","content":"abc"},{"role":"user","content":"de"}]}"#;
    assert_eq!(body_text_bytes(body), 5);
}

#[test]
fn text_bytes_of_array_contents_counts_text_parts_only() {
    let body = br#"{"messages":[{"content":[{"type":"text","text":"hello"},{"type":"image_url","text":"zzz"},{"text":"no type"},"bare",{"type":"text","text":7}]}]}"#;
    assert_eq!(body_text_bytes(body), 5);
}

#[test]
fn text_bytes_are_utf8_bytes() {
    let body = "{\"messages\":[{\"content\":\"你好\"}]}";
    assert_eq!(body_text_bytes(body.as_bytes()), 6);
}

#[test]
fn text_bytes_zero_without_messages_or_json() {
    assert_eq!(body_text_bytes(br#"{"messages":"x"}"#), 0);
    assert_eq!(body_text_bytes(br#"{"model":"a"}"#), 0);
    assert_eq!(body_text_bytes(b"{"), 0);
    assert_eq!(body_text_bytes(br#"{"messages":[{"content":null},{"content":{"a":1}}]}"#), 0);
}

#[test]
fn document_text_concatenates_in_order() {
    let msg = |c: JsonValue| JsonValue::Object(vec![("content".to_string(), c)]);
    let part = |t: &str| {
        JsonValue::Object(vec![
            ("type".to_string(), JsonValue::Str("text".to_string())),
            ("text".to_string(), JsonValue::Str(t.to_string())),
        ])
    };
    let doc = JsonValue::Object(vec![(
        "messages".to_string(),
        JsonValue::Array(vec![
            msg(JsonValue::Str("a".to_string())),
            msg(JsonValue::Array(vec![part("b"), part("c")])),
            msg(JsonValue::Str("d".to_string())),
        ]),
    )]);
    assert_eq!(document_text_of(&doc), "abcd");
}

#[test]
fn format_body_gives_utf8_text() {
    assert_eq!(format_body(Some(b"hello".to_vec())), "hello");
    assert_eq!(format_body(Some("é".as_bytes().to_vec())), "é");
    assert_eq!(format_body(Some(vec![])), "");
}

#[test]
fn format_body_debug_renders_other_bodies() {
    assert_eq!(format_body(None), "None");
    assert_eq!(format_body(Some(vec![255, 0, 7, 42, 200])), "Some([255, 0, 7, 42, 200])");
    assert_eq!(format_body(Some(vec![0xC3])), format!("{:?}", Some(vec![0xC3u8])));
}
