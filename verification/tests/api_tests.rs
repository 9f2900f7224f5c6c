use chatglm_web::api::models::{all_models, ModelInfo};
use chatglm_web::api::settings::ChatSettings;
use chatglm_web::api::websocket::{
    chunk_frame, complete_frame, error_frame, invalid_json_frame, parse_inbound,
};
use chatglm_web::client::types::{Delta, StreamChoice, StreamingChatCompletionResponse};
use chatglm_web::json::{render_json, JsonValue};

#[test]
fn test_model_catalogue() {
    let m = ModelInfo::glm_4_5();
    assert_eq!(m.id, "glm-4.5");
    assert_eq!(m.max_tokens, 8192);
    assert!(m.supports_streaming);
    assert!(m.supports_thinking);
    assert_eq!(m.context_window, 128000);

    let m = ModelInfo::glm_4_5_32k();
    assert_eq!(m.id, "glm-4.5-32k");
    assert_eq!(m.max_tokens, 32768);

    let m = ModelInfo::glm_4_5_turbo();
    assert_eq!(m.id, "glm-4.5-turbo");
    assert!(!m.supports_thinking);

    let models = all_models();
    assert_eq!(models.len(), 3);
    assert_eq!(models[0].id, "glm-4.5");
    assert_eq!(models[1].id, "glm-4.5-32k");
    assert_eq!(models[2].id, "glm-4.5-turbo");
}

#[test]
fn test_settings_default_and_validate() {
    let settings = ChatSettings::default();
    assert_eq!(settings.model, "glm-4.5");
    assert_eq!(settings.temperature, 700);
    assert_eq!(settings.top_p, 700);
    assert_eq!(settings.max_tokens, 8192);
    assert!(settings.thinking_enabled);
    assert!(settings.stream);
    assert!(settings.validate().is_ok());
}

#[test]
fn test_settings_validate_rejections() {
    let mut s = ChatSettings::default();
    s.temperature = 1001;
    assert!(s.validate().is_err());

    let mut s = ChatSettings::default();
    s.top_p = 2000;
    assert!(s.validate().is_err());

    let mut s = ChatSettings::default();
    s.max_tokens = 0;
    assert!(s.validate().is_err());

    let mut s = ChatSettings::default();
    s.max_tokens = 40000;
    assert!(s.validate().is_err());

    let mut s = ChatSettings::default();
    s.model = "gpt-4".to_string();
    assert!(s.validate().is_err());

    let mut s = ChatSettings::default();
    s.model = "glm-4.5-32k".to_string();
    s.max_tokens = 32768;
    assert!(s.validate().is_ok());
}

#[test]
fn test_json_rendering() {
    assert_eq!(render_json(&JsonValue::Null), b"null");
    assert_eq!(render_json(&JsonValue::Bool(true)), b"true");
    assert_eq!(render_json(&JsonValue::Bool(false)), b"false");
    assert_eq!(render_json(&JsonValue::UInt(0)), b"0");
    assert_eq!(render_json(&JsonValue::UInt(4096)), b"4096");
    assert_eq!(render_json(&JsonValue::Milli(700)), b"0.700");
    assert_eq!(render_json(&JsonValue::Milli(1000)), b"1.000");
    assert_eq!(render_json(&JsonValue::Milli(50)), b"0.050");
    assert_eq!(render_json(&JsonValue::Str("a\"b\\c\nd".to_string())), b"\"a\\\"b\\\\c\\nd\"");
    assert_eq!(
        render_json(&JsonValue::Arr(vec![JsonValue::UInt(1), JsonValue::UInt(2)])),
        b"[1,2]"
    );
    assert_eq!(
        render_json(&JsonValue::Obj(vec![
            ("a".to_string(), JsonValue::UInt(1)),
            ("b".to_string(), JsonValue::Null),
        ])),
        b"{\"a\":1,\"b\":null}"
    );
}

#[test]
fn test_json_rendering_is_real_json() {
    let doc = JsonValue::Obj(vec![
        ("text".to_string(), JsonValue::Str("line\nbreak \u{1F680}".to_string())),
        ("n".to_string(), JsonValue::Milli(250)),
    ]);
    let wire: serde_json::Value = serde_json::from_slice(&render_json(&doc)).unwrap();
    assert_eq!(wire["text"], "line\nbreak \u{1F680}");
    assert_eq!(wire["n"].as_f64().unwrap(), 0.25);
}

#[test]
fn test_json_get() {
    let doc = JsonValue::Obj(vec![
        ("a".to_string(), JsonValue::UInt(1)),
        ("b".to_string(), JsonValue::Str("x".to_string())),
    ]);
    assert!(matches!(doc.get("a"), Some(JsonValue::UInt(1))));
    assert!(doc.get("missing").is_none());
    assert!(JsonValue::Null.get("a").is_none());
}

#[test]
fn test_parse_inbound() {
    assert_eq!(parse_inbound("{\"message\":\"Hallo\"}").as_deref(), Some("Hallo"));
    assert!(parse_inbound("{\"other\":\"x\"}").is_none());
    assert!(parse_inbound("{\"message\":5}").is_none());
    assert!(parse_inbound("not json").is_none());
}

#[test]
fn test_socket_frames() {
    let complete = render_json(&complete_frame());
    assert_eq!(complete, b"{\"type\":\"stream_complete\"}");

    let err = render_json(&error_frame("boom".to_string()));
    let wire: serde_json::Value = serde_json::from_slice(&err).unwrap();
    assert_eq!(wire["type"], "error");
    assert_eq!(wire["message"], "boom");

    let invalid = render_json(&invalid_json_frame());
    let wire: serde_json::Value = serde_json::from_slice(&invalid).unwrap();
    assert_eq!(wire["type"], "error");
    assert_eq!(wire["message"], "invalid json");
}

#[test]
fn test_chunk_frame() {
    let chunk = StreamingChatCompletionResponse {
        id: "test".to_string(),
        object: "chat.completion.chunk".to_string(),
        created: 1677652288,
        model: "glm-4.5".to_string(),
        choices: vec![StreamChoice {
            index: 0,
            delta: Delta { role: None, content: Some("Hello".to_string()) },
            finish_reason: None,
        }],
    };
    let frame = render_json(&chunk_frame(&chunk));
    let wire: serde_json::Value = serde_json::from_slice(&frame).unwrap();
    assert_eq!(wire["type"], "stream_chunk");
    assert_eq!(wire["data"]["id"], "test");
    assert_eq!(wire["data"]["created"], 1677652288u64);
    assert_eq!(wire["data"]["choices"][0]["delta"]["content"], "Hello");
}
