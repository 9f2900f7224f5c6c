use chatglm_web::client::decode::decode_chunk_bytes;
use chatglm_web::client::error::GlmError;
use chatglm_web::client::streaming::{parse_sse_line, SseDecoder, StreamingResponse};
use chatglm_web::client::types::{Delta, Role, StreamChoice, StreamingChatCompletionResponse};

fn create_test_response(content: &str) -> StreamingChatCompletionResponse {
    StreamingChatCompletionResponse {
        id: "test".to_string(),
        object: "chat.completion.chunk".to_string(),
        created: 1677652288,
        model: "glm-4.5".to_string(),
        choices: vec![StreamChoice {
            index: 0,
            delta: Delta { role: None, content: Some(content.to_string()) },
            finish_reason: None,
        }],
    }
}

fn create_finish_response() -> StreamingChatCompletionResponse {
    StreamingChatCompletionResponse {
        id: "test".to_string(),
        object: "chat.completion.chunk".to_string(),
        created: 1677652288,
        model: "glm-4.5".to_string(),
        choices: vec![StreamChoice {
            index: 0,
            delta: Delta { role: None, content: None },
            finish_reason: Some("stop".to_string()),
        }],
    }
}

#[test]
fn test_parse_sse_line() {
    let json_data = "{\"id\":\"test\",\"object\":\"chat.completion.chunk\",\"created\":1234567890,\
\"model\":\"glm-4.5\",\"choices\":[{\"index\":0,\"delta\":{\"content\":\"Hello\"},\
\"finish_reason\":null}]}";
    let line = format!("data: {}", json_data);

    let result = parse_sse_line(&line);
    assert!(result.is_some());

    match result.unwrap() {
        Ok(response) => {
            assert_eq!(response.id, "test");
            assert_eq!(response.model, "glm-4.5");
            assert_eq!(response.choices.len(), 1);
            assert_eq!(response.choices[0].delta.content, Some("Hello".to_string()));
        }
        Err(_) => panic!("Parsing sollte erfolgreich sein"),
    }
}

#[test]
fn test_parse_sse_line_done() {
    let result = parse_sse_line("data: [DONE]");
    assert!(result.is_none());
}

#[test]
fn test_parse_sse_line_empty() {
    let result = parse_sse_line("");
    assert!(result.is_none());
}

#[test]
fn test_parse_sse_line_comment_and_other() {
    assert!(parse_sse_line(": keep-alive").is_none());
    assert!(parse_sse_line("event: message").is_none());
}

#[test]
fn test_parse_sse_line_malformed_payload() {
    let result = parse_sse_line("data: {not json");
    match result.unwrap() {
        Err(GlmError::StreamingError { .. }) => {}
        other => panic!("expected a streaming error item, got {:?}", other),
    }
}

#[test]
fn test_sse_done_only_yields_nothing() {
    let mut decoder = SseDecoder::new();
    let payloads = decoder.feed(b"data: [DONE]\n\n");
    assert_eq!(payloads.len(), 0);
    assert!(decoder.is_done());
}

#[test]
fn test_sse_split_feed() {
    let mut decoder = SseDecoder::new();
    let first = decoder.feed(b"da");
    assert_eq!(first.len(), 0);
    let second = decoder.feed(
        b"ta: {\"id\":\"test\",\"object\":\"chat.completion.chunk\",\"created\":1,\
\"model\":\"glm-4.5\",\"choices\":[{\"index\":0,\"delta\":{\"content\":\"Hello\"},\
\"finish_reason\":null}]}\n\n",
    );
    assert_eq!(second.len(), 1);
    let chunk = decode_chunk_bytes(&second[0]).unwrap();
    assert_eq!(chunk.choices[0].delta.content, Some("Hello".to_string()));
}

#[test]
fn test_sse_multiple_frames_one_read() {
    let mut decoder = SseDecoder::new();
    let payloads = decoder.feed(b"data: one\n\ndata: two\n\n: comment\nignored line\ndata: [DONE]\n\n");
    assert_eq!(payloads.len(), 2);
    assert_eq!(payloads[0], b"one");
    assert_eq!(payloads[1], b"two");
    assert!(decoder.is_done());
    let after = decoder.feed(b"data: three\n\n");
    assert_eq!(after.len(), 0);
}

#[test]
fn test_sse_partial_line_buffered() {
    let mut decoder = SseDecoder::new();
    assert_eq!(decoder.feed(b"data: par").len(), 0);
    assert_eq!(decoder.feed(b"t one").len(), 0);
    let done = decoder.feed(b"\n");
    assert_eq!(done.len(), 1);
    assert_eq!(done[0], b"part one");
}

#[test]
fn test_streaming_response_creation() {
    let stream_data = vec![Ok(create_test_response("Hello")), Ok(create_finish_response())];
    let streaming_response = StreamingResponse::new(stream_data);
    let content = streaming_response.collect_content();
    assert!(content.is_ok());
}

#[test]
fn test_streaming_content_collection() {
    let stream_data = vec![
        Ok(create_test_response("Test")),
        Ok(create_test_response(" Message")),
        Ok(create_finish_response()),
    ];

    let streaming_response = StreamingResponse::new(stream_data);
    let content = streaming_response.collect_content();
    assert!(content.is_ok());
    assert_eq!(content.unwrap(), "Test Message");
}

#[test]
fn test_streaming_error_handling() {
    let stream_data = vec![
        Ok(create_test_response("Hello")),
        Err(GlmError::NetworkError { message: "Connection lost".to_string() }),
        Ok(create_finish_response()),
    ];

    let streaming_response = StreamingResponse::new(stream_data);
    let content = streaming_response.collect_content();
    assert!(content.is_err());
    match content.unwrap_err() {
        GlmError::NetworkError { message } => assert_eq!(message, "Connection lost"),
        other => panic!("expected the in-band error, got {:?}", other),
    }
}

#[test]
fn test_streaming_stops_at_finish_reason() {
    let stream_data = vec![
        Ok(create_test_response("Hello")),
        Ok(create_test_response(" World")),
        Ok(create_finish_response()),
        Ok(create_test_response(" ignored")),
        Err(GlmError::NetworkError { message: "never read".to_string() }),
    ];

    let streaming_response = StreamingResponse::new(stream_data);
    assert_eq!(streaming_response.collect_content().unwrap(), "Hello World");
}

#[test]
fn test_streaming_callback_processing() {
    let stream_data = vec![
        Ok(create_test_response("Hello")),
        Ok(create_test_response(" World")),
        Ok(create_finish_response()),
    ];

    let streaming_response = StreamingResponse::new(stream_data);

    let mut collected_content = String::new();
    let result = streaming_response.for_each(|chunk| {
        if let Some(choice) = chunk.choices.first() {
            if let Some(content) = &choice.delta.content {
                collected_content.push_str(content);
            }
        }
        Ok(())
    });

    assert!(result.is_ok());
    assert_eq!(collected_content, "Hello World");
}

#[test]
fn test_streaming_callback_aborts_on_error() {
    let stream_data = vec![
        Ok(create_test_response("Hello")),
        Err(GlmError::TimeoutError),
        Ok(create_finish_response()),
    ];

    let mut calls: usize = 0;
    let result = StreamingResponse::new(stream_data).for_each(|_chunk| {
        calls += 1;
        Ok(())
    });
    assert!(matches!(result.unwrap_err(), GlmError::TimeoutError));
    assert_eq!(calls, 1);
}

#[test]
fn test_streaming_empty_content() {
    let stream_data = vec![Ok(create_test_response("")), Ok(create_finish_response())];
    let streaming_response = StreamingResponse::new(stream_data);
    let content = streaming_response.collect_content();
    assert!(content.is_ok());
    assert_eq!(content.unwrap(), "");
}

#[test]
fn test_streaming_unicode_handling() {
    let stream_data = vec![
        Ok(create_test_response("\u{1F680}")),
        Ok(create_test_response(" H\u{EB}ll\u{F6}")),
        Ok(create_test_response(" \u{4E16}\u{754C}")),
        Ok(create_finish_response()),
    ];

    let streaming_response = StreamingResponse::new(stream_data);
    let content = streaming_response.collect_content();
    assert!(content.is_ok());
    assert_eq!(content.unwrap(), "\u{1F680} H\u{EB}ll\u{F6} \u{4E16}\u{754C}");
}

#[test]
fn test_streaming_finish_reasons() {
    let stream_data = vec![Ok(create_test_response("Hello")), Ok(create_finish_response())];
    let streaming_response = StreamingResponse::new(stream_data);
    let content = streaming_response.collect_content();
    assert!(content.is_ok());
    assert_eq!(content.unwrap(), "Hello");
}

#[test]
fn test_streaming_chunks_without_choices_are_skipped() {
    let empty = StreamingChatCompletionResponse {
        id: "test".to_string(),
        object: "chat.completion.chunk".to_string(),
        created: 1677652288,
        model: "glm-4.5".to_string(),
        choices: vec![],
    };
    let stream_data = vec![
        Ok(empty),
        Ok(create_test_response("Hi")),
        Ok(create_finish_response()),
    ];
    assert_eq!(StreamingResponse::new(stream_data).collect_content().unwrap(), "Hi");
}

#[test]
fn test_parse_sse_line_wrong_shape_payload() {
    let result = parse_sse_line("data: {\"id\":5}");
    match result.unwrap() {
        Err(GlmError::StreamingError { .. }) => {}
        other => panic!("expected a streaming error item, got {:?}", other),
    }
}
