use codex::codec_ops::decode_op;
use codex::codec_ops::decode_submission;
use codex::codec_ops::encode_op;
use codex::codec_ops::encode_submission;
use codex::json::Json;
use codex::json::JsonMember;
use codex::json::print_json;
use codex::paths::FsPath;
use codex::protocol::AskForApproval;
use codex::protocol::InputItem;
use codex::protocol::ModelProviderInfo;
use codex::protocol::Op;
use codex::protocol::ReasoningEffort;
use codex::protocol::ReviewDecision;
use codex::protocol::SandboxPolicy;
use codex::protocol::Submission;
use codex::protocol::WireApi;

fn path(abs: bool, parts: &[&str]) -> FsPath {
    FsPath::new(abs, parts.iter().map(|p| p.to_string()).collect())
}

fn provider() -> ModelProviderInfo {
    ModelProviderInfo {
        name: "test".to_string(),
        base_url: "https://test.com".to_string(),
        env_key: Some("TEST_API_KEY".to_string()),
        env_key_instructions: None,
        wire_api: WireApi::Responses,
        request_max_retries: Some(0),
        stream_max_retries: Some(0),
        stream_idle_timeout_ms: Some(1000),
    }
}

fn round_trip(s: Submission) {
    let encoded = encode_submission(&s);
    let decoded = decode_submission(&encoded).expect("decoding an encoded submission succeeds");
    assert_eq!(
        print_json(&encode_submission(&s)),
        print_json(&encode_submission(&decoded))
    );
}

#[test]
fn submission_round_trip_configure_session() {
    round_trip(Submission {
        id: "s1".to_string(),
        op: Op::ConfigureSession {
            provider: provider(),
            model: "codex-mini-latest".to_string(),
            model_reasoning_effort: Some(ReasoningEffort::Medium),
            model_reasoning_summary: None,
            user_instructions: Some("prefer rg".to_string()),
            base_instructions: None,
            approval_policy: AskForApproval::OnFailure,
            sandbox_policy: SandboxPolicy::WorkspaceWrite {
                writable_roots: vec![path(true, &["extra"])],
                network_access: false,
            },
            disable_response_storage: true,
            notify: Some(vec!["notify-send".to_string()]),
            cwd: path(true, &["work"]),
            resume_path: None,
        },
    });
}

#[test]
fn submission_round_trip_small_ops() {
    round_trip(Submission {
        id: "a".to_string(),
        op: Op::Interrupt,
    });
    round_trip(Submission {
        id: "b".to_string(),
        op: Op::UserInput {
            items: vec![
                InputItem::Text {
                    text: "run echo".to_string(),
                },
                InputItem::Image {
                    image_url: "data:image/png;base64,AAAA".to_string(),
                },
                InputItem::LocalImage {
                    path: path(true, &["tmp", "shot.png"]),
                },
            ],
        },
    });
    round_trip(Submission {
        id: "c".to_string(),
        op: Op::ExecApproval {
            id: "target".to_string(),
            decision: ReviewDecision::ApprovedForSession,
        },
    });
    round_trip(Submission {
        id: "d".to_string(),
        op: Op::PatchApproval {
            id: "target".to_string(),
            decision: ReviewDecision::Abort,
        },
    });
    round_trip(Submission {
        id: "e".to_string(),
        op: Op::AddToHistory {
            text: "hello".to_string(),
        },
    });
    round_trip(Submission {
        id: "f".to_string(),
        op: Op::GetHistoryEntryRequest {
            offset: 3,
            log_id: 9,
        },
    });
    round_trip(Submission {
        id: "g".to_string(),
        op: Op::Shutdown,
    });
}

#[test]
fn op_decoding_rejects_unknown_discriminators() {
    let j = Json::Obj(vec![JsonMember {
        key: "type".to_string(),
        value: Json::Str("no_such_op".to_string()),
    }]);
    assert!(decode_op(&j).is_none());
    assert!(decode_submission(&Json::Null).is_none());
}

#[test]
fn op_wire_names_are_stable() {
    let shutdown = Submission {
        id: "1".to_string(),
        op: Op::Shutdown,
    };
    assert_eq!(
        print_json(&encode_submission(&shutdown)),
        r#"{"id":"1","op":{"type":"shutdown"}}"#
    );
    let approval = Op::ExecApproval {
        id: "7".to_string(),
        decision: ReviewDecision::Denied,
    };
    assert_eq!(
        print_json(&encode_op(&approval)),
        r#"{"type":"exec_approval","id":"7","decision":"denied"}"#
    );
}

/// The decoder accepts the original wire's serde shapes: defaulted fields
/// may be omitted, members may come in any order, unknown members are
/// ignored.
#[test]
fn decoding_supplies_serde_defaults() {
    fn member(key: &str, value: Json) -> JsonMember {
        JsonMember {
            key: key.to_string(),
            value,
        }
    }
    // {"mode":"workspace-write"} defaults to no roots and no network.
    let sparse = Json::Obj(vec![member("mode", Json::Str("workspace-write".to_string()))]);
    let op = Json::Obj(vec![
        member("type", Json::Str("configure_session".to_string())),
        member(
            "provider",
            Json::Obj(vec![
                member("name", Json::Str("test".to_string())),
                member("base_url", Json::Str("https://test.com".to_string())),
                member("wire_api", Json::Str("responses".to_string())),
            ]),
        ),
        member("model", Json::Str("codex-mini-latest".to_string())),
        member("approval_policy", Json::Str("untrusted".to_string())),
        member("sandbox_policy", sparse),
        member(
            "cwd",
            Json::Obj(vec![
                member("absolute", Json::Bool(true)),
                member("parts", Json::Arr(vec![Json::Str("work".to_string())])),
            ]),
        ),
        member("ignored_by_forward_compatibility", Json::Null),
    ]);
    let decoded = decode_op(&op).expect("the sparse serde shape decodes");
    match decoded {
        Op::ConfigureSession {
            sandbox_policy,
            model,
            disable_response_storage,
            notify,
            resume_path,
            model_reasoning_effort,
            ..
        } => {
            assert_eq!(model, "codex-mini-latest");
            assert!(!disable_response_storage);
            assert!(notify.is_none());
            assert!(resume_path.is_none());
            assert!(model_reasoning_effort.is_none());
            match sandbox_policy {
                SandboxPolicy::WorkspaceWrite {
                    writable_roots,
                    network_access,
                } => {
                    assert!(writable_roots.is_empty());
                    assert!(!network_access);
                }
                other => panic!("expected workspace write, got {other:?}"),
            }
        }
        other => panic!("expected configure_session, got {other:?}"),
    }
}

/// Members in a different order decode the same submission.
#[test]
fn decoding_accepts_any_member_order() {
    fn member(key: &str, value: Json) -> JsonMember {
        JsonMember {
            key: key.to_string(),
            value,
        }
    }
    let j = Json::Obj(vec![
        member(
            "op",
            Json::Obj(vec![
                member("decision", Json::Str("approved".to_string())),
                member("id", Json::Str("target".to_string())),
                member("type", Json::Str("exec_approval".to_string())),
            ]),
        ),
        member("id", Json::Str("s9".to_string())),
    ]);
    let decoded = decode_submission(&j).expect("reordered members decode");
    assert_eq!(decoded.id, "s9");
    assert!(matches!(
        decoded.op,
        Op::ExecApproval {
            decision: ReviewDecision::Approved,
            ..
        }
    ));
}

/// The two plain sandbox modes decode from their one-member form.
#[test]
fn sandbox_modes_decode_from_sparse_objects() {
    fn member(key: &str, value: Json) -> JsonMember {
        JsonMember {
            key: key.to_string(),
            value,
        }
    }
    for (mode, want_danger) in [("read-only", false), ("danger-full-access", true)] {
        let op = Json::Obj(vec![
            member("type", Json::Str("configure_session".to_string())),
            member(
                "provider",
                Json::Obj(vec![
                    member("name", Json::Str("test".to_string())),
                    member("base_url", Json::Str("https://test.com".to_string())),
                    member("wire_api", Json::Str("chat".to_string())),
                ]),
            ),
            member("model", Json::Str("m".to_string())),
            member("approval_policy", Json::Str("never".to_string())),
            member(
                "sandbox_policy",
                Json::Obj(vec![member("mode", Json::Str(mode.to_string()))]),
            ),
            member(
                "cwd",
                Json::Obj(vec![
                    member("absolute", Json::Bool(true)),
                    member("parts", Json::Arr(vec![])),
                ]),
            ),
        ]);
        let decoded = decode_op(&op).expect("sparse sandbox modes decode");
        match decoded {
            Op::ConfigureSession { sandbox_policy, .. } => {
                if want_danger {
                    assert!(matches!(sandbox_policy, SandboxPolicy::DangerFullAccess));
                } else {
                    assert!(matches!(sandbox_policy, SandboxPolicy::ReadOnly));
                }
            }
            other => panic!("expected configure_session, got {other:?}"),
        }
    }
}
