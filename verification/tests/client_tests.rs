use codex::client::ChatFrame;
use codex::client::ResponseCompleted;
use codex::client::aggregate_chat;
use codex::codec_request::encode_responses_request;
use codex::json::print_json;
use codex::client::ResponseEvent;
use codex::client::RetryDecision;
use codex::client::SseFrame;
use codex::client::backoff_ms;
use codex::client::next_retry_decision;
use codex::client::next_transport_retry_decision;
use codex::client::process_sse;
use codex::client_common::Config;
use codex::client_common::OpenAiReasoningEffort;
use codex::client_common::OpenAiReasoningSummary;
use codex::client_common::Prompt;
use codex::client_common::build_responses_api_request;
use codex::client_common::create_reasoning_param_for_request;
use codex::client_common::model_supports_reasoning_summaries;
use codex::error::CodexErr;
use codex::models::ContentItem;
use codex::models::ResponseItem;
use codex::protocol::CallToolResult;
use codex::protocol::McpToolCallEndEvent;
use codex::protocol::ReasoningEffort;
use codex::strutil::normalize_api_key;
use codex::strutil::trim_whitespace;
use codex::protocol::ReasoningSummary;

fn message(text: &str) -> ResponseItem {
    ResponseItem::Message {
        id: None,
        role: "assistant".to_string(),
        content: vec![ContentItem::OutputText {
            text: text.to_string(),
        }],
    }
}

#[test]
fn parses_items_and_completed() {
    let frames = vec![
        SseFrame::OutputItemDone {
            item: Some(message("Hello")),
        },
        SseFrame::OutputItemDone {
            item: Some(message("World")),
        },
        SseFrame::Completed {
            response: Some(ResponseCompleted {
                id: "resp1".to_string(),
                usage: None,
            }),
        },
    ];
    let events = process_sse(frames);
    assert_eq!(events.len(), 3);
    assert!(matches!(
        &events[0],
        Ok(ResponseEvent::OutputItemDone(ResponseItem::Message { role, .. })) if role == "assistant"
    ));
    assert!(matches!(
        &events[1],
        Ok(ResponseEvent::OutputItemDone(ResponseItem::Message { role, .. })) if role == "assistant"
    ));
    match &events[2] {
        Ok(ResponseEvent::Completed {
            response_id,
            token_usage,
        }) => {
            assert_eq!(response_id, "resp1");
            assert!(token_usage.is_none());
        }
        other => panic!("unexpected third event: {other:?}"),
    }
}

#[test]
fn error_when_missing_completed() {
    let frames = vec![SseFrame::OutputItemDone {
        item: Some(message("Hello")),
    }];
    let events = process_sse(frames);
    assert_eq!(events.len(), 2);
    assert!(matches!(events[0], Ok(ResponseEvent::OutputItemDone(_))));
    match &events[1] {
        Err(CodexErr::Stream { message }) => {
            assert_eq!(message, "stream closed before response.completed")
        }
        other => panic!("unexpected second event: {other:?}"),
    }
}

#[test]
fn table_driven_event_kinds() {
    // A created frame with a response payload surfaces, an output item
    // surfaces, and an unknown kind is dropped; each stream then completes.
    let completed = || SseFrame::Completed {
        response: Some(ResponseCompleted {
            id: "c".to_string(),
            usage: None,
        }),
    };
    let cases: Vec<(SseFrame, fn(&ResponseEvent) -> bool, usize)> = vec![
        (
            SseFrame::Created { has_response: true },
            |e| matches!(e, ResponseEvent::Created),
            2,
        ),
        (
            SseFrame::OutputItemDone {
                item: Some(message("hi")),
            },
            |e| matches!(e, ResponseEvent::OutputItemDone(_)),
            2,
        ),
        (
            SseFrame::Unknown,
            |e| matches!(e, ResponseEvent::Completed { .. }),
            1,
        ),
    ];
    for (i, (frame, expect_first, expected_len)) in cases.into_iter().enumerate() {
        let out = process_sse(vec![frame, completed()]);
        assert_eq!(out.len(), expected_len, "case {i}");
        match &out[0] {
            Ok(ev) => assert!(expect_first(ev), "first event mismatch in case {i}"),
            other => panic!("unexpected error in case {i}: {other:?}"),
        }
    }
}

/// A fatal `response.failed` frame ends the stream with its message, and
/// nothing follows it.
#[test]
fn failed_frame_is_terminal() {
    let frames = vec![
        SseFrame::OutputTextDelta {
            delta: Some("hi".to_string()),
        },
        SseFrame::Failed {
            response_error: Some(Some("rate limited".to_string())),
        },
        SseFrame::OutputTextDelta {
            delta: Some("never seen".to_string()),
        },
    ];
    let events = process_sse(frames);
    assert_eq!(events.len(), 2);
    match &events[1] {
        Err(CodexErr::Stream { message }) => assert_eq!(message, "rate limited"),
        other => panic!("unexpected terminal event: {other:?}"),
    }
    // Without a message the fixed text is used.
    let events = process_sse(vec![SseFrame::Failed {
        response_error: Some(None),
    }]);
    match &events[0] {
        Err(CodexErr::Stream { message }) => {
            assert_eq!(message, "response.failed event received")
        }
        other => panic!("unexpected terminal event: {other:?}"),
    }
}

/// A well-formed stream yields exactly one Completed, as its last event.
#[test]
fn exactly_one_completed_event() {
    let frames = vec![
        SseFrame::Ignored,
        SseFrame::Completed {
            response: Some(ResponseCompleted {
                id: "first".to_string(),
                usage: None,
            }),
        },
        SseFrame::Completed {
            response: Some(ResponseCompleted {
                id: "last".to_string(),
                usage: None,
            }),
        },
        SseFrame::OutputTextDelta {
            delta: Some("tail".to_string()),
        },
    ];
    let events = process_sse(frames);
    let completed: Vec<&str> = events
        .iter()
        .filter_map(|e| match e {
            Ok(ResponseEvent::Completed { response_id, .. }) => Some(response_id.as_str()),
            _ => None,
        })
        .collect();
    assert_eq!(completed, vec!["last"]);
    assert!(matches!(
        events.last().unwrap(),
        Ok(ResponseEvent::Completed { .. })
    ));
}

#[test]
fn retry_after_header_is_honoured() {
    // A 429 with Retry-After of 2 seconds waits exactly 2000 milliseconds.
    assert_eq!(
        next_retry_decision(1, 1, 429, Some(2)),
        RetryDecision::RetryAfter { delay_ms: 2000 }
    );
    // Without the header, exponential backoff applies.
    assert_eq!(
        next_retry_decision(1, 4, 503, None),
        RetryDecision::RetryAfter { delay_ms: 200 }
    );
    assert_eq!(
        next_retry_decision(2, 4, 503, None),
        RetryDecision::RetryAfter { delay_ms: 400 }
    );
    // A plain 4xx is fatal at once.
    assert_eq!(
        next_retry_decision(1, 4, 400, None),
        RetryDecision::FailUnexpectedStatus
    );
    // Past the budget the retry limit is reported.
    assert_eq!(
        next_retry_decision(5, 4, 429, Some(2)),
        RetryDecision::FailRetryLimit
    );
}

#[test]
fn backoff_doubles_and_caps() {
    assert_eq!(backoff_ms(1), 200);
    assert_eq!(backoff_ms(2), 400);
    assert_eq!(backoff_ms(3), 800);
    assert_eq!(backoff_ms(8), 25600);
    assert_eq!(backoff_ms(9), 32000);
    assert_eq!(backoff_ms(100), 32000);
    assert_eq!(next_transport_retry_decision(3, 4), Some(800));
    assert_eq!(next_transport_retry_decision(5, 4), None);
}

#[test]
fn full_instructions_append_sections() {
    let prompt = Prompt {
        input: vec![],
        user_instructions: Some("prefer rg".to_string()),
        store: true,
        base_instructions_override: Some("BASE".to_string()),
    };
    assert_eq!(prompt.get_full_instructions("gpt-5"), "BASE\nprefer rg");
    let with_appendix = prompt.get_full_instructions("gpt-4.1-mini");
    assert!(with_appendix.starts_with("BASE\nprefer rg\n"));
    assert!(with_appendix.contains("apply_patch"));
}

#[test]
fn reasoning_support_by_model_family() {
    let config = |model: &str, forced: bool| Config {
        model: model.to_string(),
        model_supports_reasoning_summaries: forced,
    };
    assert!(model_supports_reasoning_summaries(&config("o3", false)));
    assert!(model_supports_reasoning_summaries(&config(
        "codex-mini-latest",
        false
    )));
    assert!(!model_supports_reasoning_summaries(&config("gpt-4.1", false)));
    assert!(model_supports_reasoning_summaries(&config("gpt-4.1", true)));
}

#[test]
fn reasoning_param_requires_support_and_effort() {
    let supported = Config {
        model: "o3".to_string(),
        model_supports_reasoning_summaries: false,
    };
    let unsupported = Config {
        model: "gpt-4.1".to_string(),
        model_supports_reasoning_summaries: false,
    };
    assert!(create_reasoning_param_for_request(
        &unsupported,
        Some(ReasoningEffort::High),
        Some(ReasoningSummary::Auto)
    )
    .is_none());
    assert!(create_reasoning_param_for_request(&supported, None, None).is_none());
    let r = create_reasoning_param_for_request(
        &supported,
        Some(ReasoningEffort::High),
        Some(ReasoningSummary::Concise),
    )
    .unwrap();
    assert_eq!(r.effort, OpenAiReasoningEffort::High);
    assert_eq!(r.summary, Some(OpenAiReasoningSummary::Concise));
}

#[test]
fn request_payload_fixed_fields() {
    let config = Config {
        model: "o3".to_string(),
        model_supports_reasoning_summaries: false,
    };
    let prompt = Prompt {
        input: vec![],
        user_instructions: None,
        store: false,
        base_instructions_override: None,
    };
    let rq = build_responses_api_request(
        &config,
        &prompt,
        Some(ReasoningEffort::Medium),
        Some(ReasoningSummary::Auto),
    );
    assert_eq!(rq.tool_choice, "auto");
    assert!(!rq.parallel_tool_calls);
    assert!(rq.stream);
    assert!(!rq.store);
    // Not stored and reasoning on: the encrypted trail is requested back.
    assert!(rq.include_encrypted_reasoning);
    let stored_prompt = Prompt {
        input: vec![],
        user_instructions: None,
        store: true,
        base_instructions_override: None,
    };
    let rq = build_responses_api_request(
        &config,
        &stored_prompt,
        Some(ReasoningEffort::Medium),
        Some(ReasoningSummary::Auto),
    );
    assert!(!rq.include_encrypted_reasoning);
}

#[test]
fn mcp_call_success_reads_the_error_flag() {
    let ok = McpToolCallEndEvent {
        call_id: "c".to_string(),
        result: Ok(CallToolResult {
            content: vec![],
            is_error: None,
        }),
    };
    assert!(ok.is_success());
    let flagged = McpToolCallEndEvent {
        call_id: "c".to_string(),
        result: Ok(CallToolResult {
            content: vec![],
            is_error: Some(true),
        }),
    };
    assert!(!flagged.is_success());
    let failed = McpToolCallEndEvent {
        call_id: "c".to_string(),
        result: Err("boom".to_string()),
    };
    assert!(!failed.is_success());
}

#[test]
fn api_keys_from_the_environment_are_trimmed() {
    assert_eq!(trim_whitespace("  sk-x \n"), "sk-x");
    assert_eq!(trim_whitespace(""), "");
    assert_eq!(trim_whitespace(" \t "), "");
    assert_eq!(normalize_api_key("  sk-x "), Some("sk-x".to_string()));
    assert_eq!(normalize_api_key("   "), None);
    assert_eq!(normalize_api_key(""), None);
}

/// A mid-stream transport failure ends the stream with its message.
#[test]
fn transport_error_frame_is_terminal() {
    let frames = vec![
        SseFrame::OutputTextDelta {
            delta: Some("hi".to_string()),
        },
        SseFrame::TransportError {
            message: "connection reset".to_string(),
        },
        SseFrame::Completed {
            response: Some(ResponseCompleted {
                id: "never".to_string(),
                usage: None,
            }),
        },
    ];
    let events = process_sse(frames);
    assert_eq!(events.len(), 2);
    match &events[1] {
        Err(CodexErr::Stream { message }) => assert_eq!(message, "connection reset"),
        other => panic!("unexpected terminal event: {other:?}"),
    }
}

/// The chat-wire adapter surfaces only the final aggregated message.
#[test]
fn chat_adapter_aggregates_one_message() {
    let frames = vec![
        ChatFrame::ContentDelta {
            delta: Some("Hel".to_string()),
        },
        ChatFrame::Ignored,
        ChatFrame::ContentDelta { delta: None },
        ChatFrame::ContentDelta {
            delta: Some("lo".to_string()),
        },
        ChatFrame::Done {
            id: Some("chat-1".to_string()),
        },
    ];
    let events = aggregate_chat(frames);
    assert_eq!(events.len(), 2);
    match &events[0] {
        Ok(ResponseEvent::OutputItemDone(ResponseItem::Message { role, content, .. })) => {
            assert_eq!(role, "assistant");
            assert!(matches!(
                content.as_slice(),
                [ContentItem::OutputText { text }] if text == "Hello"
            ));
        }
        other => panic!("expected the aggregated message, got {other:?}"),
    }
    match &events[1] {
        Ok(ResponseEvent::Completed { response_id, .. }) => assert_eq!(response_id, "chat-1"),
        other => panic!("expected completion, got {other:?}"),
    }
    // Without the terminating chunk the stream ends in the closed error.
    let events = aggregate_chat(vec![ChatFrame::ContentDelta {
        delta: Some("x".to_string()),
    }]);
    assert_eq!(events.len(), 1);
    assert!(matches!(&events[0], Err(CodexErr::Stream { .. })));
}

/// The request payload is encoded by the library, conversation input
/// included.
#[test]
fn request_encoding_carries_the_input() {
    let config = Config {
        model: "o3".to_string(),
        model_supports_reasoning_summaries: false,
    };
    let prompt = Prompt {
        input: vec![],
        user_instructions: None,
        store: true,
        base_instructions_override: Some("BASE".to_string()),
    };
    let rq = build_responses_api_request(&config, &prompt, None, None);
    let input = vec![
        ResponseItem::Message {
            id: None,
            role: "user".to_string(),
            content: vec![ContentItem::InputText {
                text: "run echo".to_string(),
            }],
        },
        ResponseItem::FunctionCallOutput {
            call_id: "c1".to_string(),
            output: "ok".to_string(),
        },
    ];
    let wire = print_json(&encode_responses_request(&rq, &input));
    assert!(wire.starts_with("{\"model\":\"o3\",\"instructions\":\"BASE\",\"input\":["));
    assert!(wire.contains("\"type\":\"message\",\"id\":null,\"role\":\"user\""));
    assert!(wire.contains("\"type\":\"function_call_output\",\"call_id\":\"c1\",\"output\":\"ok\""));
    assert!(wire.contains("\"tool_choice\":\"auto\""));
    assert!(wire.contains("\"parallel_tool_calls\":false"));
    assert!(wire.ends_with("\"store\":true,\"stream\":true,\"include\":[]}"));
    // A shell call's arguments are a nested JSON document in a string.
    let call = vec![ResponseItem::ShellToolCall {
        call_id: "c2".to_string(),
        command: vec!["echo".to_string(), "hi".to_string()],
    }];
    let wire = print_json(&encode_responses_request(&rq, &call));
    assert!(wire.contains(
        "\"name\":\"shell\",\"arguments\":\"{\\\"command\\\":[\\\"echo\\\",\\\"hi\\\"]}\""
    ));
}
