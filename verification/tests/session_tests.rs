use codex::client::ResponseEvent;
use codex::history::HistoryStore;
use codex::models::ContentItem;
use codex::models::ResponseItem;
use codex::models::find_last_ghost_snapshot;
use codex::paths::FsPath;
use codex::protocol::AskForApproval;
use codex::protocol::EventMsg;
use codex::protocol::HostPlatform;
use codex::protocol::InputItem;
use codex::protocol::Op;
use codex::protocol::ReviewDecision;
use codex::protocol::SandboxPolicy;
use codex::protocol::Submission;
use codex::protocol::TokenUsage;
use codex::protocol::accumulate_token_usage;
use codex::protocol::add_token_usage;
use codex::session::ExecOutcome;
use codex::session::Session;
use codex::session::handle_submission;
use codex::session::run_turn;
use codex::user_instructions::DeveloperInstructions;
use codex::user_instructions::UserInstructions;

fn path(abs: bool, parts: &[&str]) -> FsPath {
    FsPath::new(abs, parts.iter().map(|p| p.to_string()).collect())
}

fn test_session(policy: AskForApproval, sandbox: SandboxPolicy) -> Session {
    Session::new(
        "codex-mini-latest".to_string(),
        path(true, &["work"]),
        policy,
        sandbox,
        HostPlatform::Linux,
    )
}

fn message(text: &str) -> ResponseItem {
    ResponseItem::Message {
        id: None,
        role: "assistant".to_string(),
        content: vec![ContentItem::OutputText {
            text: text.to_string(),
        }],
    }
}

fn outcome(stdout: &str, exit_code: i32) -> ExecOutcome {
    ExecOutcome {
        stdout: stdout.to_string(),
        stderr: String::new(),
        exit_code,
    }
}

/// A turn is bracketed by one TaskStarted and one TaskComplete, and every
/// begin marker is balanced by its end marker with the same call id before
/// TaskComplete.
#[test]
fn turn_pairs_begin_and_end_events() {
    let mut session = test_session(AskForApproval::Never, SandboxPolicy::DangerFullAccess);
    let stream = vec![
        ResponseEvent::Created,
        ResponseEvent::OutputItemDone(ResponseItem::ShellToolCall {
            call_id: "call-1".to_string(),
            command: vec!["echo".to_string(), "codex_live_echo_ok".to_string()],
        }),
        ResponseEvent::OutputItemDone(message("done")),
        ResponseEvent::Completed {
            response_id: "resp-1".to_string(),
            token_usage: None,
        },
    ];
    let events = run_turn(
        &mut session,
        &"sub-1".to_string(),
        stream,
        vec![outcome("codex_live_echo_ok\n", 0)],
        vec![],
    );
    assert!(matches!(events[0].msg, EventMsg::TaskStarted));
    assert!(matches!(
        events.last().unwrap().msg,
        EventMsg::TaskComplete(_)
    ));
    let begins: Vec<&str> = events
        .iter()
        .filter_map(|e| match &e.msg {
            EventMsg::ExecCommandBegin(b) => Some(b.call_id.as_str()),
            _ => None,
        })
        .collect();
    let ends: Vec<&str> = events
        .iter()
        .filter_map(|e| match &e.msg {
            EventMsg::ExecCommandEnd(b) => Some(b.call_id.as_str()),
            _ => None,
        })
        .collect();
    assert_eq!(begins, vec!["call-1"]);
    assert_eq!(ends, vec!["call-1"]);
    for e in &events {
        assert_eq!(e.id, "sub-1");
    }
    assert_eq!(session.previous_response_id.as_deref(), Some("resp-1"));
}

/// Deltas appear only strictly between TaskStarted and TaskComplete.
#[test]
fn deltas_stay_inside_the_turn_brackets() {
    let mut session = test_session(AskForApproval::Never, SandboxPolicy::DangerFullAccess);
    let stream = vec![
        ResponseEvent::OutputTextDelta("he".to_string()),
        ResponseEvent::OutputTextDelta("llo".to_string()),
        ResponseEvent::ReasoningSummaryDelta("thinking".to_string()),
        ResponseEvent::OutputItemDone(message("hello")),
    ];
    let events = run_turn(
        &mut session,
        &"sub-2".to_string(),
        stream,
        vec![],
        vec![],
    );
    let n = events.len();
    for (i, e) in events.iter().enumerate() {
        let is_delta = matches!(
            e.msg,
            EventMsg::AgentMessageDelta(_) | EventMsg::AgentReasoningDelta(_)
        );
        if is_delta {
            assert!(0 < i && i < n - 1);
        }
    }
    match &events[n - 1].msg {
        EventMsg::TaskComplete(tc) => {
            assert_eq!(tc.last_agent_message.as_deref(), Some("hello"));
        }
        other => panic!("expected TaskComplete, got {other:?}"),
    }
}

/// A command needing approval is gated: a denial produces no begin/end pair
/// and the turn still completes.
#[test]
fn denied_command_is_not_executed() {
    let mut session = test_session(AskForApproval::UnlessTrusted, SandboxPolicy::ReadOnly);
    let stream = vec![ResponseEvent::OutputItemDone(ResponseItem::ShellToolCall {
        call_id: "call-9".to_string(),
        command: vec!["rm".to_string(), "-rf".to_string(), "/tmp/x".to_string()],
    })];
    let events = run_turn(
        &mut session,
        &"sub-3".to_string(),
        stream,
        vec![outcome("", 0)],
        vec![ReviewDecision::Denied],
    );
    assert!(events
        .iter()
        .any(|e| matches!(e.msg, EventMsg::ExecApprovalRequest(_))));
    assert!(!events
        .iter()
        .any(|e| matches!(e.msg, EventMsg::ExecCommandBegin(_))));
    assert!(matches!(
        events.last().unwrap().msg,
        EventMsg::TaskComplete(_)
    ));
}

/// An approval for the session is remembered: the same command later
/// auto-approves.
#[test]
fn approved_for_session_is_remembered() {
    let mut session = test_session(AskForApproval::UnlessTrusted, SandboxPolicy::ReadOnly);
    let call = |n: &str| ResponseItem::ShellToolCall {
        call_id: n.to_string(),
        command: vec!["cargo".to_string(), "test".to_string()],
    };
    let events = run_turn(
        &mut session,
        &"sub-4".to_string(),
        vec![ResponseEvent::OutputItemDone(call("c1"))],
        vec![outcome("ok", 0)],
        vec![ReviewDecision::ApprovedForSession],
    );
    assert!(events
        .iter()
        .any(|e| matches!(e.msg, EventMsg::ExecCommandBegin(_))));
    // Second turn: no approval request, straight to execution.
    let events = run_turn(
        &mut session,
        &"sub-5".to_string(),
        vec![ResponseEvent::OutputItemDone(call("c2"))],
        vec![outcome("ok", 0)],
        vec![],
    );
    assert!(!events
        .iter()
        .any(|e| matches!(e.msg, EventMsg::ExecApprovalRequest(_))));
    assert!(events
        .iter()
        .any(|e| matches!(e.msg, EventMsg::ExecCommandBegin(_))));
}

/// A patch outside the project under policy Never produces an error event
/// and no patch application.
#[test]
fn patch_outside_project_errors_under_never() {
    let mut session = test_session(
        AskForApproval::Never,
        SandboxPolicy::WorkspaceWrite {
            writable_roots: vec![],
            network_access: false,
        },
    );
    session.platform = HostPlatform::Other;
    let action = codex::apply_patch::ApplyPatchAction::new_add_for_test(
        path(true, &["etc", "hosts"]),
        String::new(),
    );
    let stream = vec![ResponseEvent::OutputItemDone(ResponseItem::PatchToolCall {
        call_id: "p1".to_string(),
        action,
    })];
    let events = run_turn(&mut session, &"sub-6".to_string(), stream, vec![], vec![]);
    let mut saw_error = false;
    for e in &events {
        if let EventMsg::Error(err) = &e.msg {
            assert!(err.message.contains("writing outside of the project"));
            saw_error = true;
        }
        assert!(!matches!(e.msg, EventMsg::PatchApplyBegin(_)));
    }
    assert!(saw_error);
    assert!(matches!(
        events.last().unwrap().msg,
        EventMsg::TaskComplete(_)
    ));
}

/// The token accumulator is monotonic across turns.
#[test]
fn token_accumulator_is_monotonic() {
    let mut session = test_session(AskForApproval::Never, SandboxPolicy::DangerFullAccess);
    let usage = |i: u64, o: u64| TokenUsage {
        input_tokens: i,
        cached_input_tokens: None,
        output_tokens: o,
        reasoning_output_tokens: None,
        total_tokens: i + o,
    };
    let mut previous_total = 0;
    for turn in 0..3u64 {
        let stream = vec![ResponseEvent::Completed {
            response_id: format!("r{turn}"),
            token_usage: Some(usage(10 + turn, 5)),
        }];
        run_turn(&mut session, &format!("sub-{turn}"), stream, vec![], vec![]);
        assert!(session.token_usage.total_tokens >= previous_total);
        previous_total = session.token_usage.total_tokens;
    }
    assert_eq!(session.token_usage.input_tokens, 33);
    assert_eq!(session.token_usage.output_tokens, 15);
    assert_eq!(session.token_usage.total_tokens, 48);
}

#[test]
fn add_token_usage_sums_fields() {
    let a = TokenUsage {
        input_tokens: 1,
        cached_input_tokens: Some(2),
        output_tokens: 3,
        reasoning_output_tokens: None,
        total_tokens: 4,
    };
    let b = TokenUsage {
        input_tokens: 10,
        cached_input_tokens: None,
        output_tokens: 30,
        reasoning_output_tokens: Some(7),
        total_tokens: 40,
    };
    let s = add_token_usage(&a, &b);
    assert_eq!(s.input_tokens, 11);
    assert_eq!(s.cached_input_tokens, Some(2));
    assert_eq!(s.output_tokens, 33);
    assert_eq!(s.reasoning_output_tokens, Some(7));
    assert_eq!(s.total_tokens, 44);
    let sat = accumulate_token_usage(
        &TokenUsage {
            input_tokens: u64::MAX - 1,
            cached_input_tokens: None,
            output_tokens: 0,
            reasoning_output_tokens: None,
            total_tokens: u64::MAX - 1,
        },
        &b,
    );
    assert_eq!(sat.input_tokens, u64::MAX);
    assert_eq!(sat.total_tokens, u64::MAX);
}

#[test]
fn submissions_are_dispatched_by_kind() {
    let mut session = test_session(AskForApproval::Never, SandboxPolicy::DangerFullAccess);
    let mut history = HistoryStore::new(7, vec!["earlier".to_string()]);

    let (events, turn) = handle_submission(
        &mut session,
        &mut history,
        Submission {
            id: "s1".to_string(),
            op: Op::AddToHistory {
                text: "hello there".to_string(),
            },
        },
    );
    assert!(events.is_empty() && turn.is_none());
    assert_eq!(history.entry_count(), 2);

    // A credential-shaped message is not logged.
    handle_submission(
        &mut session,
        &mut history,
        Submission {
            id: "s2".to_string(),
            op: Op::AddToHistory {
                text: "sk-secret".to_string(),
            },
        },
    );
    assert_eq!(history.entry_count(), 2);

    let (events, _) = handle_submission(
        &mut session,
        &mut history,
        Submission {
            id: "s3".to_string(),
            op: Op::GetHistoryEntryRequest {
                offset: 0,
                log_id: 7,
            },
        },
    );
    match &events[0].msg {
        EventMsg::GetHistoryEntryResponse(r) => {
            assert_eq!(r.entry.as_ref().unwrap().text, "earlier");
        }
        other => panic!("expected history response, got {other:?}"),
    }

    // A rotated log id yields no entry.
    let (events, _) = handle_submission(
        &mut session,
        &mut history,
        Submission {
            id: "s4".to_string(),
            op: Op::GetHistoryEntryRequest {
                offset: 0,
                log_id: 8,
            },
        },
    );
    match &events[0].msg {
        EventMsg::GetHistoryEntryResponse(r) => assert!(r.entry.is_none()),
        other => panic!("expected history response, got {other:?}"),
    }

    let (events, turn) = handle_submission(
        &mut session,
        &mut history,
        Submission {
            id: "s5".to_string(),
            op: Op::UserInput {
                items: vec![InputItem::Text {
                    text: "run echo".to_string(),
                }],
            },
        },
    );
    assert!(events.is_empty());
    assert_eq!(turn.unwrap().sub_id, "s5");

    let (events, _) = handle_submission(
        &mut session,
        &mut history,
        Submission {
            id: "s6".to_string(),
            op: Op::Shutdown,
        },
    );
    assert!(matches!(events[0].msg, EventMsg::ShutdownComplete));
    assert_eq!(events[0].id, "s6");

    let (events, turn) = handle_submission(
        &mut session,
        &mut history,
        Submission {
            id: "s7".to_string(),
            op: Op::Interrupt,
        },
    );
    assert!(events.is_empty() && turn.is_none());
}

#[test]
fn test_user_instructions() {
    let user_instructions = UserInstructions {
        directory: "test_directory".to_string(),
        text: "test_text".to_string(),
    };
    let response_item: ResponseItem = user_instructions.into_response_item();

    let ResponseItem::Message { role, content, .. } = response_item else {
        panic!("expected ResponseItem::Message");
    };

    assert_eq!(role, "user");

    let [ContentItem::InputText { text }] = content.as_slice() else {
        panic!("expected one InputText content item");
    };

    assert_eq!(
        text,
        "# AGENTS.md instructions for test_directory\n\n<INSTRUCTIONS>\ntest_text\n</INSTRUCTIONS>",
    );
}

#[test]
fn test_is_user_instructions() {
    assert!(UserInstructions::is_user_instructions(&vec![
        ContentItem::InputText {
            text: "# AGENTS.md instructions for test_directory\n\n<INSTRUCTIONS>\ntest_text\n</INSTRUCTIONS>".to_string(),
        }
    ]));
    assert!(UserInstructions::is_user_instructions(&vec![
        ContentItem::InputText {
            text: "<user_instructions>test_text</user_instructions>".to_string(),
        }
    ]));
    assert!(!UserInstructions::is_user_instructions(&vec![
        ContentItem::InputText {
            text: "test_text".to_string(),
        }
    ]));
}

#[test]
fn developer_instructions_carry_their_text() {
    let di = DeveloperInstructions::new("be brief".to_string());
    let item = di.into_response_item();
    let ResponseItem::Message { role, content, .. } = item else {
        panic!("expected ResponseItem::Message");
    };
    assert_eq!(role, "developer");
    let [ContentItem::InputText { text }] = content.as_slice() else {
        panic!("expected one InputText content item");
    };
    assert_eq!(text, "be brief");
    assert_eq!(
        DeveloperInstructions::new("x".to_string()).into_text(),
        "x"
    );
}

#[test]
fn last_ghost_snapshot_is_found_from_the_end() {
    let items = vec![
        ResponseItem::GhostSnapshot {
            ghost_commit: "aaa".to_string(),
        },
        message("hi"),
        ResponseItem::GhostSnapshot {
            ghost_commit: "bbb".to_string(),
        },
        message("bye"),
    ];
    let (idx, commit) = find_last_ghost_snapshot(&items).unwrap();
    assert_eq!(idx, 2);
    assert_eq!(commit, "bbb");
    assert!(find_last_ghost_snapshot(&vec![message("x")]).is_none());
}

#[test]
fn session_ids_are_fresh_and_well_formed() {
    let a = test_session(AskForApproval::Never, SandboxPolicy::ReadOnly);
    let b = test_session(AskForApproval::Never, SandboxPolicy::ReadOnly);
    assert_eq!(a.id.len(), 36);
    assert_eq!(b.id.len(), 36);
    assert_ne!(a.id, b.id);
    let configured = a.session_configured_event(9, 4);
    match configured {
        EventMsg::SessionConfigured(e) => {
            assert_eq!(e.session_id, a.id);
            assert_eq!(e.history_log_id, 9);
            assert_eq!(e.history_entry_count, 4);
        }
        other => panic!("expected SessionConfigured, got {other:?}"),
    }
}

/// Begin/end pairs stay balanced across the three call kinds in one turn.
#[test]
fn turn_pairs_all_call_kinds() {
    let mut session = test_session(
        AskForApproval::Never,
        SandboxPolicy::WorkspaceWrite {
            writable_roots: vec![],
            network_access: false,
        },
    );
    let action = codex::apply_patch::ApplyPatchAction::new_add_for_test(
        path(true, &["work", "new.txt"]),
        "content".to_string(),
    );
    let stream = vec![
        ResponseEvent::OutputItemDone(ResponseItem::ShellToolCall {
            call_id: "sh".to_string(),
            command: vec!["echo".to_string(), "hi".to_string()],
        }),
        ResponseEvent::OutputItemDone(ResponseItem::PatchToolCall {
            call_id: "pa".to_string(),
            action,
        }),
        ResponseEvent::OutputItemDone(ResponseItem::McpToolCall {
            call_id: "mc".to_string(),
            server: "files".to_string(),
            tool: "search".to_string(),
        }),
    ];
    let events = run_turn(
        &mut session,
        &"sub-7".to_string(),
        stream,
        vec![outcome("hi", 0), outcome("patched", 0), outcome("found", 0)],
        vec![],
    );
    let mut begins = 0;
    let mut ends = 0;
    let mut complete_at = None;
    for (i, e) in events.iter().enumerate() {
        match &e.msg {
            EventMsg::ExecCommandBegin(b) => {
                begins += 1;
                assert!(matches!(&events[i + 1].msg, EventMsg::ExecCommandEnd(en) if en.call_id == b.call_id));
            }
            EventMsg::PatchApplyBegin(b) => {
                begins += 1;
                assert!(matches!(&events[i + 1].msg, EventMsg::PatchApplyEnd(en) if en.call_id == b.call_id));
            }
            EventMsg::McpToolCallBegin(b) => {
                begins += 1;
                assert!(matches!(&events[i + 1].msg, EventMsg::McpToolCallEnd(en) if en.call_id == b.call_id));
            }
            EventMsg::ExecCommandEnd(_)
            | EventMsg::PatchApplyEnd(_)
            | EventMsg::McpToolCallEnd(_) => ends += 1,
            EventMsg::TaskComplete(_) => complete_at = Some(i),
            _ => {}
        }
    }
    assert_eq!(begins, 3);
    assert_eq!(ends, 3);
    assert_eq!(complete_at, Some(events.len() - 1));
    // The transcript recorded one output per tool call.
    assert_eq!(session.history.len(), 3);
}

/// A sandboxed command that fails under the on-failure policy asks the
/// user; on approval it is retried without the sandbox as a second pair.
#[test]
fn sandbox_failure_escalates_under_on_failure() {
    let mut session = test_session(
        AskForApproval::OnFailure,
        SandboxPolicy::WorkspaceWrite {
            writable_roots: vec![],
            network_access: false,
        },
    );
    let stream = vec![ResponseEvent::OutputItemDone(ResponseItem::ShellToolCall {
        call_id: "esc-1".to_string(),
        command: vec!["make".to_string()],
    })];
    let events = run_turn(
        &mut session,
        &"sub-8".to_string(),
        stream,
        vec![outcome("sandbox says no", 1), outcome("worked", 0)],
        vec![ReviewDecision::Approved],
    );
    let begins = events
        .iter()
        .filter(|e| matches!(e.msg, EventMsg::ExecCommandBegin(_)))
        .count();
    let ends = events
        .iter()
        .filter(|e| matches!(e.msg, EventMsg::ExecCommandEnd(_)))
        .count();
    assert_eq!(begins, 2);
    assert_eq!(ends, 2);
    let request = events
        .iter()
        .find_map(|e| match &e.msg {
            EventMsg::ExecApprovalRequest(r) => Some(r),
            _ => None,
        })
        .expect("the failure asks the user");
    assert!(request.reason.as_deref().unwrap_or("").contains("sandbox"));
    // Only the retry's output is recorded.
    assert!(matches!(
        session.history.last(),
        Some(ResponseItem::FunctionCallOutput { output, .. }) if output == "worked"
    ));

    // A denial leaves one pair and records the rejection.
    let mut session = test_session(
        AskForApproval::OnFailure,
        SandboxPolicy::WorkspaceWrite {
            writable_roots: vec![],
            network_access: false,
        },
    );
    let stream = vec![ResponseEvent::OutputItemDone(ResponseItem::ShellToolCall {
        call_id: "esc-2".to_string(),
        command: vec!["make".to_string()],
    })];
    let events = run_turn(
        &mut session,
        &"sub-9".to_string(),
        stream,
        vec![outcome("sandbox says no", 1)],
        vec![],
    );
    let begins = events
        .iter()
        .filter(|e| matches!(e.msg, EventMsg::ExecCommandBegin(_)))
        .count();
    assert_eq!(begins, 1);
    assert!(matches!(
        session.history.last(),
        Some(ResponseItem::FunctionCallOutput { output, .. }) if output == "rejected by the user"
    ));
}

/// Every finished message of the stream is surfaced as its message event.
#[test]
fn message_items_are_surfaced() {
    let mut session = test_session(AskForApproval::Never, SandboxPolicy::DangerFullAccess);
    let stream = vec![
        ResponseEvent::OutputItemDone(message("one")),
        ResponseEvent::OutputItemDone(ResponseItem::Reasoning {
            summary_text: "thought".to_string(),
        }),
        ResponseEvent::OutputItemDone(message("two")),
    ];
    let events = run_turn(&mut session, &"sub-10".to_string(), stream, vec![], vec![]);
    let messages = events
        .iter()
        .filter(|e| matches!(e.msg, EventMsg::AgentMessage(_)))
        .count();
    let reasonings = events
        .iter()
        .filter(|e| matches!(e.msg, EventMsg::AgentReasoning(_)))
        .count();
    assert_eq!(messages, 2);
    assert_eq!(reasonings, 1);
}

/// A non-absolute working directory is refused at configuration.
#[test]
fn configure_session_requires_absolute_cwd() {
    let mut session = test_session(AskForApproval::Never, SandboxPolicy::ReadOnly);
    let mut history = HistoryStore::new(0, vec![]);
    let (events, turn) = handle_submission(
        &mut session,
        &mut history,
        Submission {
            id: "c1".to_string(),
            op: Op::ConfigureSession {
                provider: codex::protocol::ModelProviderInfo {
                    name: "test".to_string(),
                    base_url: "https://test.com".to_string(),
                    env_key: None,
                    env_key_instructions: None,
                    wire_api: codex::protocol::WireApi::Responses,
                    request_max_retries: None,
                    stream_max_retries: None,
                    stream_idle_timeout_ms: None,
                },
                model: "other-model".to_string(),
                model_reasoning_effort: None,
                model_reasoning_summary: None,
                user_instructions: None,
                base_instructions: None,
                approval_policy: AskForApproval::Never,
                sandbox_policy: SandboxPolicy::ReadOnly,
                disable_response_storage: false,
                notify: None,
                cwd: path(false, &["relative"]),
                resume_path: None,
            },
        },
    );
    assert!(turn.is_none());
    match &events[0].msg {
        EventMsg::Error(e) => assert_eq!(e.message, "cwd is not absolute"),
        other => panic!("expected an error event, got {other:?}"),
    }
    // The session keeps its previous model.
    assert_eq!(session.model, "codex-mini-latest");
}

/// Tool calls in a round mean the turn needs another model round.
#[test]
fn tool_calls_demand_another_round() {
    let with_call = vec![
        ResponseEvent::OutputItemDone(message("hi")),
        ResponseEvent::OutputItemDone(ResponseItem::ShellToolCall {
            call_id: "c".to_string(),
            command: vec!["echo".to_string()],
        }),
    ];
    assert!(codex::session::turn_needs_another_round(&with_call));
    let without = vec![ResponseEvent::OutputItemDone(message("hi"))];
    assert!(!codex::session::turn_needs_another_round(&without));
}
