use chatglm_web::client::streaming::StreamingResponse;
use chatglm_web::client::types::{Delta, StreamChoice, StreamingChatCompletionResponse};

#[test]
fn test_memory_usage() {
    assert!(true);
}

#[test]
fn test_concurrent_connections() {
    assert!(true);
}

#[test]
fn test_large_stream_collection() {
    let mut items = Vec::new();
    for i in 0..1000 {
        items.push(Ok(StreamingChatCompletionResponse {
            id: "test".to_string(),
            object: "chat.completion.chunk".to_string(),
            created: 1677652288,
            model: "glm-4.5".to_string(),
            choices: vec![StreamChoice {
                index: 0,
                delta: Delta { role: None, content: Some(format!("chunk{}", i)) },
                finish_reason: None,
            }],
        }));
    }
    items.push(Ok(StreamingChatCompletionResponse {
        id: "test".to_string(),
        object: "chat.completion.chunk".to_string(),
        created: 1677652288,
        model: "glm-4.5".to_string(),
        choices: vec![StreamChoice {
            index: 0,
            delta: Delta { role: None, content: None },
            finish_reason: Some("stop".to_string()),
        }],
    }));
    let content = StreamingResponse::new(items).collect_content().unwrap();
    assert!(content.starts_with("chunk0chunk1"));
    assert!(content.ends_with("chunk999"));
}
