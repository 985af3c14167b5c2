use accounting_assistant::services::llm_service::{
    carries_payload, chunk_content, setting_or, ApiErrorDetail, LLMError, LLMErrorResponse,
    LLMMessage, LLMService, LLMStreamChoice, LLMStreamChunk, LLMStreamDelta, SSEDecoder,
    StatusClass, DEFAULT_BASE_URL, DEFAULT_MAX_TOKENS, DEFAULT_MODEL, REQUEST_TIMEOUT_SECS,
};

#[test]
fn test_llm_message_serialization() {
    let msg = LLMMessage { role: "user".to_string(), content: "Hello".to_string() };
    let json = msg.encode().unwrap();
    assert!(json.contains("user"));
    assert!(json.contains("Hello"));
}

#[test]
fn a_message_is_written_as_an_object_of_role_and_content() {
    let msg = LLMMessage { role: "user".to_string(), content: "say \"hi\"\n".to_string() };
    let value: serde_json::Value = serde_json::from_str(&msg.encode().unwrap()).unwrap();
    let members = value.as_object().unwrap();
    assert_eq!(members.len(), 2);
    assert_eq!(members.get("role").and_then(|v| v.as_str()), Some("user"));
    assert_eq!(members.get("content").and_then(|v| v.as_str()), Some("say \"hi\"\n"));
}

#[test]
fn a_new_decoder_has_no_event() {
    let mut decoder = SSEDecoder::new();
    assert_eq!(decoder.parse_next_event(), None);
    let mut decoder = SSEDecoder::default();
    assert_eq!(decoder.parse_next_event(), None);
}

#[test]
fn an_event_stands_between_its_prefix_and_an_empty_line() {
    let mut decoder = SSEDecoder::new();
    decoder.extend(b"data: {\"a\":1}\n\n");
    assert_eq!(decoder.parse_next_event(), Some("{\"a\":1}".to_string()));
    assert_eq!(decoder.parse_next_event(), None);
}

#[test]
fn an_event_waits_for_its_end() {
    let mut decoder = SSEDecoder::new();
    decoder.extend(b"data: {\"a\"");
    assert_eq!(decoder.parse_next_event(), None);
    decoder.extend(b":1}\n");
    assert_eq!(decoder.parse_next_event(), None);
    decoder.extend(b"\ndata: next");
    assert_eq!(decoder.parse_next_event(), Some("{\"a\":1}".to_string()));
    assert_eq!(decoder.parse_next_event(), None);
    decoder.extend(b"\n\n");
    assert_eq!(decoder.parse_next_event(), Some("next".to_string()));
}

#[test]
fn events_come_out_in_order() {
    let mut decoder = SSEDecoder::new();
    decoder.extend(b"data: one\n\ndata: two\n\ndata: \n\ndata: three\n\n");
    assert_eq!(decoder.parse_next_event(), Some("one".to_string()));
    assert_eq!(decoder.parse_next_event(), Some("two".to_string()));
    assert_eq!(decoder.parse_next_event(), Some(String::new()));
    assert_eq!(decoder.parse_next_event(), Some("three".to_string()));
    assert_eq!(decoder.parse_next_event(), None);
}

#[test]
fn bytes_without_the_prefix_give_no_event() {
    for bytes in [&b"event: x\n\n"[..], b"data:x\n\n", b"\n\ndata: x\n\n", b"Data: x\n\n", b"data"] {
        let mut decoder = SSEDecoder::new();
        decoder.extend(bytes);
        assert_eq!(decoder.parse_next_event(), None);
    }
}

#[test]
fn a_single_line_feed_stays_within_the_event() {
    let mut decoder = SSEDecoder::new();
    decoder.extend(b"data: a\nb\n\n");
    assert_eq!(decoder.parse_next_event(), Some("a\nb".to_string()));
}

#[test]
fn text_beyond_ascii_is_read_as_utf8() {
    let mut decoder = SSEDecoder::new();
    decoder.extend("data: 收入 é\n\n".as_bytes());
    assert_eq!(decoder.parse_next_event(), Some("收入 é".to_string()));
    let mut decoder = SSEDecoder::new();
    decoder.extend(b"data: a\xffb\n\n");
    assert_eq!(decoder.parse_next_event(), Some("a\u{fffd}b".to_string()));
}

#[test]
fn decoding_gives_the_events_that_carry_a_piece() {
    let mut decoder = SSEDecoder::new();
    assert_eq!(decoder.decode(b"data: one\n\ndata: \n\ndata: tw"), vec!["one".to_string()]);
    assert_eq!(decoder.decode(b"o\n"), Vec::<String>::new());
    assert_eq!(
        decoder.decode(b"\ndata: [DONE]\n\ndata: three\n\ndata: [DONE] x\n\n"),
        vec!["two".to_string(), "three".to_string()]
    );
    assert_eq!(decoder.decode(b""), Vec::<String>::new());
    assert_eq!(decoder.parse_next_event(), None);
}

#[test]
fn decoding_stops_at_bytes_that_are_no_event() {
    let mut decoder = SSEDecoder::new();
    assert_eq!(decoder.decode(b"data: one\n\nnoise\n\ndata: two\n\n"), vec!["one".to_string()]);
    assert_eq!(decoder.decode(b"data: three\n\n"), Vec::<String>::new());
}

#[test]
fn the_end_mark_and_the_empty_event_carry_nothing() {
    assert!(carries_payload("{\"id\":\"1\"}"));
    assert!(carries_payload("[DONE"));
    assert!(carries_payload(" [DONE]"));
    assert!(!carries_payload(""));
    assert!(!carries_payload("[DONE]"));
    assert!(!carries_payload("[DONE] and more"));
}

fn chunk(contents: Vec<Option<&str>>) -> LLMStreamChunk {
    LLMStreamChunk {
        id: "c".to_string(),
        choices: contents
            .into_iter()
            .map(|content| LLMStreamChoice {
                delta: LLMStreamDelta { role: None, content: content.map(|c| c.to_string()) },
                finish_reason: None,
            })
            .collect(),
    }
}

#[test]
fn the_piece_of_an_event_is_what_its_first_choice_adds() {
    assert_eq!(chunk_content(&chunk(vec![])), None);
    assert_eq!(chunk_content(&chunk(vec![None])), None);
    assert_eq!(chunk_content(&chunk(vec![Some("Hel")])), Some("Hel".to_string()));
    assert_eq!(chunk_content(&chunk(vec![Some("a"), Some("b")])), Some("a".to_string()));
    assert_eq!(chunk_content(&chunk(vec![None, Some("b")])), None);
    assert_eq!(chunk_content(&chunk(vec![Some("")])), Some(String::new()));
}

#[test]
fn every_failure_of_the_service_has_its_words() {
    assert_eq!(LLMError::Config("k".to_string()).to_string(), "Configuration error: k");
    assert_eq!(LLMError::Request("r".to_string()).to_string(), "API request failed: r");
    assert_eq!(LLMError::Api("a".to_string()).to_string(), "API response error: a");
    assert_eq!(LLMError::RateLimit.to_string(), "Rate limit exceeded");
    assert_eq!(LLMError::Network("n".to_string()).to_string(), "Network error: n");
}

#[test]
fn the_environment_must_give_a_key() {
    match LLMService::new(None, None, None) {
        Err(LLMError::Config(m)) => assert_eq!(m, "SILICONFLOW_API_KEY not set"),
        _ => panic!("expected Config"),
    }
    match LLMService::new(Some(String::new()), Some("u".to_string()), None) {
        Err(LLMError::Config(m)) => assert_eq!(m, "SILICONFLOW_API_KEY is empty"),
        _ => panic!("expected Config"),
    }
    let service = LLMService::new(Some("sk".to_string()), None, None).unwrap();
    assert_eq!(service.model(), "Qwen/Qwen2.5-7B-Instruct");
    assert_eq!(service.endpoint(), "https://api.siliconflow.cn/v1/chat/completions");
    assert_eq!(service.authorization(), "Bearer sk");
    let service =
        LLMService::new(Some("sk".to_string()), Some("http://h".to_string()), Some("m".to_string()))
            .unwrap();
    assert_eq!(service.model(), "m");
    assert_eq!(service.endpoint(), "http://h/chat/completions");
}

#[test]
fn given_settings_need_a_key() {
    match LLMService::with_config(String::new(), "u".to_string(), "m".to_string()) {
        Err(LLMError::Config(m)) => assert_eq!(m, "API key is empty"),
        _ => panic!("expected Config"),
    }
    let service =
        LLMService::with_config("k".to_string(), "http://h/v1".to_string(), "m".to_string())
            .unwrap();
    assert_eq!(service.model(), "m");
    assert_eq!(service.endpoint(), "http://h/v1/chat/completions");
    assert_eq!(service.authorization(), "Bearer k");
}

#[test]
fn the_defaults_are_what_they_are() {
    assert_eq!(DEFAULT_BASE_URL, "https://api.siliconflow.cn/v1");
    assert_eq!(DEFAULT_MODEL, "Qwen/Qwen2.5-7B-Instruct");
    assert_eq!(DEFAULT_MAX_TOKENS, 2000);
    assert_eq!(REQUEST_TIMEOUT_SECS, 30);
    assert_eq!(setting_or(None, "d"), "d");
    assert_eq!(setting_or(Some("s".to_string()), "d"), "s");
    assert_eq!(setting_or(Some(String::new()), "d"), "");
}

#[test]
fn an_answer_is_read_by_its_status() {
    assert_eq!(LLMService::classify_status(200), StatusClass::Success);
    assert_eq!(LLMService::classify_status(204), StatusClass::Success);
    assert_eq!(LLMService::classify_status(299), StatusClass::Success);
    assert_eq!(LLMService::classify_status(199), StatusClass::Failed);
    assert_eq!(LLMService::classify_status(300), StatusClass::Failed);
    assert_eq!(LLMService::classify_status(429), StatusClass::RateLimited);
    assert_eq!(LLMService::classify_status(428), StatusClass::Failed);
    assert_eq!(LLMService::classify_status(500), StatusClass::Failed);
    assert_eq!(LLMService::classify_status(0), StatusClass::Failed);
}

#[test]
fn a_failing_status_is_reported_with_the_bodys_message_or_the_status() {
    let body = LLMErrorResponse {
        error: ApiErrorDetail { message: "bad key".to_string(), error_type: Some("auth".to_string()) },
    };
    assert!(matches!(LLMService::failed_status(401, Some(body)), LLMError::Api(m) if m == "bad key"));
    assert!(matches!(LLMService::failed_status(503, None), LLMError::Api(m) if m == "API error: 503"));
    assert!(matches!(LLMService::failed_status(429, None), LLMError::RateLimit));
    let body = LLMErrorResponse {
        error: ApiErrorDetail { message: "slow down".to_string(), error_type: None },
    };
    assert!(matches!(LLMService::failed_status(429, Some(body)), LLMError::RateLimit));
    assert!(matches!(
        LLMService::unreadable_completion("EOF while parsing"),
        LLMError::Api(m) if m == "Failed to parse response: EOF while parsing"
    ));
}
