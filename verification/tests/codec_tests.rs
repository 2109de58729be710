use codex::codec::decode_event;
use codex::codec::decode_event_msg;
use codex::codec::encode_event;
use codex::codec::encode_event_msg;
use codex::json::Json;
use codex::json::JsonMember;
use codex::json::print_json;
use codex::paths::FsPath;
use codex::protocol::ApplyPatchApprovalRequestEvent;
use codex::protocol::CallToolResult;
use codex::protocol::ErrorEvent;
use codex::protocol::Event;
use codex::protocol::EventMsg;
use codex::protocol::ExecCommandEndEvent;
use codex::protocol::FileChange;
use codex::protocol::FileChangeEntry;
use codex::protocol::McpToolCallEndEvent;
use codex::protocol::SessionConfiguredEvent;
use codex::protocol::TaskCompleteEvent;
use codex::protocol::TokenUsage;

fn path(abs: bool, parts: &[&str]) -> FsPath {
    FsPath::new(abs, parts.iter().map(|p| p.to_string()).collect())
}

fn wire(e: &Event) -> String {
    print_json(&encode_event(e))
}

fn wire_msg(m: &EventMsg) -> String {
    print_json(&encode_event_msg(m))
}

/// Encoding an event must keep the exact nesting of the wire format.
#[test]
fn serialize_event() {
    let event = Event {
        id: "1234".to_string(),
        msg: EventMsg::SessionConfigured(SessionConfiguredEvent {
            session_id: "67e55044-10b1-426f-9247-bb680e5fe0c8".to_string(),
            model: "codex-mini-latest".to_string(),
            history_log_id: 0,
            history_entry_count: 0,
        }),
    };
    let serialized = wire(&event);
    assert_eq!(
        serialized,
        r#"{"id":"1234","msg":{"type":"session_configured","session_id":"67e55044-10b1-426f-9247-bb680e5fe0c8","model":"codex-mini-latest","history_log_id":0,"history_entry_count":0}}"#
    );
}

fn round_trip(e: Event) {
    let encoded = encode_event(&e);
    let decoded = decode_event(&encoded).expect("decoding an encoded event must succeed");
    assert_eq!(wire(&e), wire(&decoded));
}

#[test]
fn event_round_trip_simple_payloads() {
    round_trip(Event {
        id: "s1".to_string(),
        msg: EventMsg::Error(ErrorEvent {
            message: "boom \"quoted\" \\ and\nnewline".to_string(),
        }),
    });
    round_trip(Event {
        id: "s2".to_string(),
        msg: EventMsg::TaskStarted,
    });
    round_trip(Event {
        id: "s3".to_string(),
        msg: EventMsg::TaskComplete(TaskCompleteEvent {
            last_agent_message: None,
        }),
    });
    round_trip(Event {
        id: "s4".to_string(),
        msg: EventMsg::TaskComplete(TaskCompleteEvent {
            last_agent_message: Some("done".to_string()),
        }),
    });
    round_trip(Event {
        id: "s5".to_string(),
        msg: EventMsg::TokenCount(TokenUsage {
            input_tokens: 12,
            cached_input_tokens: None,
            output_tokens: 7,
            reasoning_output_tokens: Some(3),
            total_tokens: 19,
        }),
    });
}

#[test]
fn event_round_trip_tool_payloads() {
    round_trip(Event {
        id: "t1".to_string(),
        msg: EventMsg::ExecCommandEnd(ExecCommandEndEvent {
            call_id: "c1".to_string(),
            stdout: "ok".to_string(),
            stderr: String::new(),
            exit_code: -3,
        }),
    });
    round_trip(Event {
        id: "t2".to_string(),
        msg: EventMsg::McpToolCallEnd(McpToolCallEndEvent {
            call_id: "c2".to_string(),
            result: Ok(CallToolResult {
                content: vec!["answer".to_string()],
                is_error: Some(false),
            }),
        }),
    });
    round_trip(Event {
        id: "t3".to_string(),
        msg: EventMsg::McpToolCallEnd(McpToolCallEndEvent {
            call_id: "c3".to_string(),
            result: Err("tool failed".to_string()),
        }),
    });
}

#[test]
fn event_round_trip_patch_payloads() {
    let changes = vec![
        FileChangeEntry {
            path: path(true, &["repo", "a.txt"]),
            change: FileChange::Add {
                content: "hello".to_string(),
            },
        },
        FileChangeEntry {
            path: path(true, &["repo", "b.txt"]),
            change: FileChange::Delete,
        },
        FileChangeEntry {
            path: path(true, &["repo", "c.txt"]),
            change: FileChange::Update {
                unified_diff: "-x\n+y".to_string(),
                move_path: Some(path(true, &["repo", "d.txt"])),
            },
        },
    ];
    round_trip(Event {
        id: "p1".to_string(),
        msg: EventMsg::ApplyPatchApprovalRequest(ApplyPatchApprovalRequestEvent {
            call_id: "c4".to_string(),
            changes,
            reason: Some("extra write access".to_string()),
            grant_root: Some(path(true, &["repo"])),
        }),
    });
}

/// A canonical tree built by hand decodes to the event it denotes.
#[test]
fn decoding_accepts_hand_built_trees() {
    let j = Json::Obj(vec![
        JsonMember {
            key: "type".to_string(),
            value: Json::Str("agent_message".to_string()),
        },
        JsonMember {
            key: "message".to_string(),
            value: Json::Str("hello".to_string()),
        },
    ]);
    let decoded = decode_event_msg(&j).expect("a canonical tree decodes");
    match &decoded {
        EventMsg::AgentMessage(e) => assert_eq!(e.message, "hello"),
        other => panic!("expected an agent message, got {other:?}"),
    }
    assert_eq!(wire_msg(&decoded), print_json(&j));
}

#[test]
fn decoding_rejects_unknown_discriminators() {
    let j = Json::Obj(vec![JsonMember {
        key: "type".to_string(),
        value: Json::Str("no_such_event".to_string()),
    }]);
    assert!(decode_event_msg(&j).is_none());
    assert!(decode_event_msg(&Json::Null).is_none());
    assert!(decode_event(&Json::Bool(true)).is_none());
}

#[test]
fn json_printer_compact_forms() {
    assert_eq!(print_json(&Json::Null), "null");
    assert_eq!(print_json(&Json::Bool(true)), "true");
    assert_eq!(print_json(&Json::Bool(false)), "false");
    assert_eq!(print_json(&Json::UInt(0)), "0");
    assert_eq!(print_json(&Json::UInt(18446744073709551615)), "18446744073709551615");
    assert_eq!(print_json(&Json::Int(-42)), "-42");
    assert_eq!(print_json(&Json::Int(i64::MIN)), "-9223372036854775808");
    assert_eq!(
        print_json(&Json::Str("a\"b\\c\nd\te".to_string())),
        "\"a\\\"b\\\\c\\nd\\te\""
    );
    assert_eq!(
        print_json(&Json::Str("\u{1}".to_string())),
        "\"\\u0001\""
    );
    assert_eq!(
        print_json(&Json::Arr(vec![Json::UInt(1), Json::UInt(2)])),
        "[1,2]"
    );
    assert_eq!(
        print_json(&Json::Obj(vec![
            JsonMember {
                key: "a".to_string(),
                value: Json::UInt(1)
            },
            JsonMember {
                key: "b".to_string(),
                value: Json::Arr(vec![])
            },
        ])),
        "{\"a\":1,\"b\":[]}"
    );
}
