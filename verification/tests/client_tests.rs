use chatglm_web::client::client::{decode_response, endpoint_url, GlmClient};
use chatglm_web::client::codec::{message_from_json, message_to_json, request_from_json, request_to_json};
use chatglm_web::client::error::GlmError;
use chatglm_web::client::types::{
    parse_bool, parse_u32, ChatCompletionRequest, GlmConfig, GlmModel, Message, Role,
    ToolChoice, ToolDefinition,
};
use chatglm_web::json::{render_json, JsonValue};

fn test_config() -> GlmConfig {
    GlmConfig {
        api_key: "test-key".to_string(),
        api_url: "https://api.test.com".to_string(),
        model: GlmModel::Glm45,
        max_tokens: 2048,
        temperature: 800,
        top_p: 900,
        stream: false,
        thinking_enabled: true,
        timeout_secs: 30,
    }
}

#[test]
fn test_glm_config_creation() {
    let config = test_config();
    assert_eq!(config.api_key, "test-key");
    assert_eq!(config.api_url, "https://api.test.com");
    assert_eq!(config.max_tokens, 2048);
}

#[test]
fn test_glm_model_to_string() {
    assert_eq!(GlmModel::Glm45.to_string(), "glm-4.5");
    assert_eq!(GlmModel::Glm4532K.to_string(), "glm-4.5-32k");
    assert_eq!(GlmModel::Glm45Turbo.to_string(), "glm-4.5-turbo");
}

#[test]
fn test_glm_model_from_id() {
    assert!(matches!(GlmModel::from_id("glm-4.5"), GlmModel::Glm45));
    assert!(matches!(GlmModel::from_id("glm-4.5-32k"), GlmModel::Glm4532K));
    assert!(matches!(GlmModel::from_id("glm-4.5-turbo"), GlmModel::Glm45Turbo));
    assert!(matches!(GlmModel::from_id("anything"), GlmModel::Glm45));
}

#[test]
fn test_message_creation() {
    let system_msg = Message::system("Du bist ein Assistent".to_string());
    assert!(matches!(system_msg.role, Role::System));
    assert_eq!(system_msg.content.unwrap(), "Du bist ein Assistent");

    let user_msg = Message::user("Hallo Welt".to_string());
    assert!(matches!(user_msg.role, Role::User));
    assert_eq!(user_msg.content.unwrap(), "Hallo Welt");

    let assistant_msg = Message::assistant("Hallo! Wie kann ich helfen?".to_string());
    assert!(matches!(assistant_msg.role, Role::Assistant));
    assert_eq!(assistant_msg.content.unwrap(), "Hallo! Wie kann ich helfen?");
}

#[test]
fn test_chat_completion_request_builder() {
    let messages = vec![
        Message::system("System prompt".to_string()),
        Message::user("User message".to_string()),
    ];

    let request = ChatCompletionRequest::new("glm-4.5".to_string(), messages.clone())
        .with_stream(true)
        .with_max_tokens(1024)
        .with_temperature(700)
        .with_top_p(800)
        .with_thinking(false);

    assert_eq!(request.model, "glm-4.5");
    assert_eq!(request.messages.len(), 2);
    assert_eq!(request.stream, Some(true));
    assert_eq!(request.max_tokens, Some(1024));
    assert_eq!(request.temperature, Some(700));
    assert_eq!(request.top_p, Some(800));
    assert!(request.thinking.is_some());
}

#[test]
fn test_tool_definition_creation() {
    let params = JsonValue::Obj(vec![
        ("type".to_string(), JsonValue::Str("object".to_string())),
        (
            "properties".to_string(),
            JsonValue::Obj(vec![(
                "query".to_string(),
                JsonValue::Obj(vec![
                    ("type".to_string(), JsonValue::Str("string".to_string())),
                    ("description".to_string(), JsonValue::Str("Suchbegriff".to_string())),
                ]),
            )]),
        ),
        (
            "required".to_string(),
            JsonValue::Arr(vec![JsonValue::Str("query".to_string())]),
        ),
    ]);

    let tool = ToolDefinition::new_function(
        "search".to_string(),
        "Suche nach Informationen".to_string(),
        params.clone(),
    );

    assert_eq!(tool.tool_type, "function");
    assert_eq!(tool.function.name, "search");
    assert_eq!(tool.function.description, "Suche nach Informationen");
    assert_eq!(render_json(&tool.function.parameters), render_json(&params));
}

#[test]
fn test_tool_choice_variants() {
    let none_choice = ToolChoice::none();
    let auto_choice = ToolChoice::auto();
    let required_choice = ToolChoice::required();
    let specific_choice = ToolChoice::specific_function("search".to_string());

    assert!(matches!(none_choice, ToolChoice::NoTools(_)));
    assert!(matches!(auto_choice, ToolChoice::Auto(_)));
    assert!(matches!(required_choice, ToolChoice::Required(_)));
    assert!(matches!(specific_choice, ToolChoice::Specific { .. }));
}

#[test]
fn test_glm_client_creation_success() {
    let mut config = test_config();
    config.api_key = "valid-key".to_string();
    config.temperature = 700;
    let client = GlmClient::new(config);
    assert!(client.is_ok());
}

#[test]
fn test_glm_client_creation_empty_api_key() {
    let mut config = test_config();
    config.api_key = "".to_string();
    config.temperature = 700;
    let client = GlmClient::new(config);
    assert!(client.is_err());
    assert!(matches!(client.unwrap_err(), GlmError::ConfigError { .. }));
}

#[test]
fn test_glm_client_creation_bad_url() {
    let mut config = test_config();
    config.api_url = "not a url at all".to_string();
    let client = GlmClient::new(config);
    assert!(client.is_err());
    assert!(matches!(client.unwrap_err(), GlmError::ConfigError { .. }));
}

#[test]
fn test_endpoint_url() {
    assert_eq!(endpoint_url("https://api.test.com"), "https://api.test.com/chat/completions");
    assert_eq!(endpoint_url("https://api.test.com/"), "https://api.test.com/chat/completions");
    assert_eq!(endpoint_url("https://api.test.com///"), "https://api.test.com/chat/completions");
}

#[test]
fn test_chat_completion_success() {
    let body = "{\"id\":\"chatcmpl-123\",\"object\":\"chat.completion\",\"created\":1677652288,\
\"model\":\"glm-4.5\",\"choices\":[{\"index\":0,\"message\":{\"role\":\"assistant\",\
\"content\":\"Hallo! Wie kann ich Ihnen helfen?\"},\"finish_reason\":\"stop\"}],\
\"usage\":{\"prompt_tokens\":9,\"completion_tokens\":12,\"total_tokens\":21}}";

    let response = decode_response(200, body);
    assert!(response.is_ok());

    let response = response.unwrap();
    assert_eq!(response.id, "chatcmpl-123");
    assert_eq!(response.model, "glm-4.5");
    assert_eq!(response.created, 1677652288);
    assert_eq!(response.choices.len(), 1);
    assert_eq!(
        response.choices[0].message.content.as_ref().unwrap(),
        "Hallo! Wie kann ich Ihnen helfen?"
    );
    assert_eq!(response.choices[0].finish_reason.as_deref(), Some("stop"));
    let usage = response.usage.unwrap();
    assert_eq!(usage.prompt_tokens, 9);
    assert_eq!(usage.completion_tokens, 12);
    assert_eq!(usage.total_tokens, 21);
}

#[test]
fn test_chat_completion_authentication_error() {
    let body = "{\"error\":{\"message\":\"Invalid API key\",\"type\":\"authentication_error\",\
\"code\":\"invalid_api_key\"}}";
    let response = decode_response(401, body);
    assert!(response.is_err());
    assert!(matches!(response.unwrap_err(), GlmError::AuthenticationError));
}

#[test]
fn test_chat_completion_rate_limit_error() {
    let body = "{\"error\":{\"message\":\"Rate limit exceeded\",\"type\":\"rate_limit_error\"}}";
    let response = decode_response(429, body);
    assert!(response.is_err());
    match response.unwrap_err() {
        GlmError::RateLimitError { message } => assert_eq!(message, "Rate limit exceeded"),
        other => panic!("expected a rate limit error, got {:?}", other),
    }
}

#[test]
fn test_non_json_error_body_falls_back_to_status() {
    let response = decode_response(503, "gateway exploded");
    match response.unwrap_err() {
        GlmError::ServerError { message } => assert_eq!(message, "gateway exploded"),
        other => panic!("expected a server error, got {:?}", other),
    }
}

#[test]
fn test_2xx_malformed_body_is_parsing_error() {
    let response = decode_response(200, "not json");
    assert!(matches!(response.unwrap_err(), GlmError::ParsingError { .. }));
    let response = decode_response(200, "{\"unexpected\":true}");
    assert!(matches!(response.unwrap_err(), GlmError::ParsingError { .. }));
}

#[test]
fn test_unknown_envelope_type() {
    let body = "{\"error\":{\"message\":\"odd\",\"type\":\"weird_error\"}}";
    match decode_response(500, body).unwrap_err() {
        GlmError::Unknown { message } => assert_eq!(message, "odd"),
        other => panic!("expected an unknown-kind error, got {:?}", other),
    }
}

#[test]
fn test_error_classification_bands() {
    for status in [500u16, 503, 599] {
        let e = GlmError::from_api_response(status, "m".to_string());
        assert!(matches!(e, GlmError::ServerError { .. }));
        assert!(e.is_retryable());
        assert_eq!(e.retry_delay(), Some(5));
    }
    for status in [400u16, 404, 418, 499] {
        let e = GlmError::from_api_response(status, "m".to_string());
        assert!(matches!(e, GlmError::InvalidRequest { .. }));
        assert!(!e.is_retryable());
        assert_eq!(e.retry_delay(), None);
    }
    let e = GlmError::from_api_response(401, "m".to_string());
    assert!(matches!(e, GlmError::AuthenticationError));
    assert!(!e.is_retryable());
    let e = GlmError::from_api_response(429, "m".to_string());
    assert!(matches!(e, GlmError::RateLimitError { .. }));
    assert!(e.is_retryable());
    assert_eq!(e.retry_delay(), Some(60));
    let e = GlmError::from_api_response(302, "m".to_string());
    assert!(matches!(e, GlmError::ApiError { status: 302, .. }));
}

#[test]
fn test_retry_delay_values() {
    assert_eq!(GlmError::TimeoutError.retry_delay(), Some(10));
    assert_eq!(
        GlmError::NetworkError { message: "m".to_string() }.retry_delay(),
        Some(5)
    );
    assert_eq!(GlmError::ConfigError { message: "m".to_string() }.retry_delay(), None);
    assert_eq!(GlmError::StreamingError { message: "m".to_string() }.retry_delay(), None);
}

#[test]
fn test_error_to_string() {
    let e = GlmError::ServerError { message: "down".to_string() };
    assert_eq!(e.to_string(), "server error: down");
    assert_eq!(
        GlmError::AuthenticationError.to_string(),
        "authentication error: API key missing or invalid"
    );
}

#[test]
fn test_serialization_deserialization() {
    let original_message = Message::user("Test message".to_string());
    let doc = message_to_json(&original_message);
    let bytes = render_json(&doc);
    let wire: serde_json::Value = serde_json::from_slice(&bytes).unwrap();
    assert_eq!(wire["role"], "user");
    assert_eq!(wire["content"], "Test message");

    let deserialized = message_from_json(&doc).unwrap();
    assert_eq!(original_message.content, deserialized.content);
    assert!(matches!(deserialized.role, Role::User));
}

#[test]
fn test_request_serialization() {
    let messages = vec![
        Message::system("System prompt".to_string()),
        Message::user("User query".to_string()),
    ];

    let request = ChatCompletionRequest::new("glm-4.5".to_string(), messages)
        .with_stream(true)
        .with_temperature(700);

    let doc = request_to_json(&request);
    let deserialized = request_from_json(&doc).unwrap();

    assert_eq!(request.model, deserialized.model);
    assert_eq!(request.messages.len(), deserialized.messages.len());
    assert_eq!(request.stream, deserialized.stream);
    assert_eq!(request.temperature, deserialized.temperature);
    assert_eq!(
        request.messages[0].content,
        deserialized.messages[0].content
    );

    let bytes = render_json(&doc);
    let wire: serde_json::Value = serde_json::from_slice(&bytes).unwrap();
    assert_eq!(wire["model"], "glm-4.5");
    assert_eq!(wire["stream"], true);
    assert_eq!(wire["temperature"].as_f64().unwrap(), 0.7);
    assert_eq!(wire["messages"][1]["content"], "User query");
    assert!(wire.get("max_tokens").is_none());
}

#[test]
fn test_parse_u32() {
    assert_eq!(parse_u32("0"), Some(0));
    assert_eq!(parse_u32("4096"), Some(4096));
    assert_eq!(parse_u32("4294967295"), Some(u32::MAX));
    assert_eq!(parse_u32("4294967296"), None);
    assert_eq!(parse_u32(""), None);
    assert_eq!(parse_u32("12a"), None);
    assert_eq!(parse_u32("-1"), None);
}

#[test]
fn test_parse_bool() {
    assert_eq!(parse_bool("true"), Some(true));
    assert_eq!(parse_bool("false"), Some(false));
    assert_eq!(parse_bool("TRUE"), None);
    assert_eq!(parse_bool(""), None);
}

#[test]
fn test_config_from_values() {
    let err = GlmConfig::from_values(None, None, None, None, None, None, None, None);
    assert!(matches!(err.unwrap_err(), GlmError::ConfigError { .. }));

    let config = GlmConfig::from_values(
        Some("key".to_string()),
        None,
        Some("glm-4.5-turbo".to_string()),
        Some("notanumber".to_string()),
        None,
        Some(850),
        Some("true".to_string()),
        Some("garbage".to_string()),
    )
    .unwrap();
    assert_eq!(config.api_key, "key");
    assert_eq!(config.api_url, "https://api.z.ai/v1");
    assert!(matches!(config.model, GlmModel::Glm45Turbo));
    assert_eq!(config.max_tokens, 4096);
    assert_eq!(config.temperature, 700);
    assert_eq!(config.top_p, 850);
    assert!(config.stream);
    assert!(config.thinking_enabled);
    assert_eq!(config.timeout_secs, 30);
}

#[test]
fn test_client_build_request() {
    let client = GlmClient::new(test_config()).unwrap();
    let request = client.build_request(vec![Message::user("Hallo".to_string())], false);
    assert_eq!(request.model, "glm-4.5");
    assert_eq!(request.stream, Some(false));
    assert_eq!(request.max_tokens, Some(2048));
    assert_eq!(request.temperature, Some(800));
    assert_eq!(request.top_p, Some(900));
    assert!(request.thinking.is_some());
    assert!(request.tools.is_none());
}

#[test]
fn test_transport_error_classification() {
    let e = GlmError::from_transport(true, "slow".to_string());
    assert!(matches!(e, GlmError::TimeoutError));
    assert!(e.is_retryable());
    let e = GlmError::from_transport(false, "refused".to_string());
    match e {
        GlmError::NetworkError { ref message } => assert_eq!(message, "refused"),
        ref other => panic!("expected a network error, got {:?}", other),
    }
    assert!(e.is_retryable());
    assert_eq!(e.retry_delay(), Some(5));
}

#[test]
fn test_glm_client_creation_whitespace_api_key() {
    let mut config = test_config();
    config.api_key = " \t ".to_string();
    assert!(matches!(GlmClient::new(config).unwrap_err(), GlmError::ConfigError { .. }));

    let mut config = test_config();
    config.api_key = "\u{00A0}\u{2003}".to_string();
    assert!(matches!(GlmClient::new(config).unwrap_err(), GlmError::ConfigError { .. }));
}

#[test]
fn test_envelope_takes_precedence_over_status_band() {
    let body = "{\"error\":{\"message\":\"Limit\",\"type\":\"rate_limit_error\"}}";
    match decode_response(500, body).unwrap_err() {
        GlmError::RateLimitError { message } => assert_eq!(message, "Limit"),
        other => panic!("expected the envelope classification, got {:?}", other),
    }
}
