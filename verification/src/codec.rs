//! The wire codec for events: every event encodes to a JSON tree with a
//! `type` discriminator and its payload fields, and decodes back. Encoding
//! is canonical (fields in a fixed order), decoding rejects unknown
//! discriminators, and decoding an encoded event returns the event itself.

use crate::json::Json;
use crate::json::JsonMember;
use crate::json::JsonV;
use crate::apply_patch::ApplyPatchAction;
use crate::apply_patch::ApplyPatchFileChange;
use crate::apply_patch::PatchChange;
use crate::models::HistoryEntry;
use crate::paths::FsPath;
use crate::paths::PathV;
use crate::protocol::ApplyPatchApprovalRequestEvent;
use crate::protocol::AgentMessageDeltaEvent;
use crate::protocol::AgentMessageEvent;
use crate::protocol::AgentReasoningDeltaEvent;
use crate::protocol::AgentReasoningEvent;
use crate::protocol::BackgroundEventEvent;
use crate::protocol::CallToolResult;
use crate::protocol::ErrorEvent;
use crate::protocol::Event;
use crate::protocol::EventMsg;
use crate::protocol::ExecApprovalRequestEvent;
use crate::protocol::ExecCommandBeginEvent;
use crate::protocol::ExecCommandEndEvent;
use crate::protocol::FileChange;
use crate::protocol::FileChangeEntry;
use crate::protocol::GetHistoryEntryResponseEvent;
use crate::protocol::McpToolCallBeginEvent;
use crate::protocol::McpToolCallEndEvent;
use crate::protocol::PatchApplyBeginEvent;
use crate::protocol::PatchApplyEndEvent;
use crate::protocol::SessionConfiguredEvent;
use crate::protocol::TaskCompleteEvent;
use crate::protocol::TokenUsage;
use vstd::prelude::*;

verus! {

broadcast use {vstd::std_specs::vec::group_vec_axioms, vstd::seq::group_seq_axioms};

/// Mathematical image of a tool call result.
pub struct CallToolResultV {
    pub content: Seq<Seq<char>>,
    pub is_error: Option<bool>,
}

/// Mathematical image of a file change.
pub enum FileChangeV {
    Add { content: Seq<char> },
    Delete,
    Update { unified_diff: Seq<char>, move_path: Option<PathV> },
}

/// Mathematical image of one changed file.
pub struct FileChangeEntryV {
    pub path: PathV,
    pub change: FileChangeV,
}

/// Mathematical image of a history entry.
pub struct HistoryEntryV {
    pub text: Seq<char>,
    pub log_id: u64,
    pub offset: usize,
}

/// Mathematical image of an event payload.
pub enum EventMsgV {
    Error { message: Seq<char> },
    TaskStarted,
    TaskComplete { last_agent_message: Option<Seq<char>> },
    TokenCount { usage: TokenUsage },
    AgentMessage { message: Seq<char> },
    AgentMessageDelta { delta: Seq<char> },
    AgentReasoning { text: Seq<char> },
    AgentReasoningDelta { delta: Seq<char> },
    SessionConfigured {
        session_id: Seq<char>,
        model: Seq<char>,
        history_log_id: u64,
        history_entry_count: usize,
    },
    McpToolCallBegin {
        call_id: Seq<char>,
        server: Seq<char>,
        tool: Seq<char>,
        arguments: Option<JsonV>,
    },
    McpToolCallEnd { call_id: Seq<char>, result: Result<CallToolResultV, Seq<char>> },
    ExecCommandBegin { call_id: Seq<char>, command: Seq<Seq<char>>, cwd: PathV },
    ExecCommandEnd { call_id: Seq<char>, stdout: Seq<char>, stderr: Seq<char>, exit_code: i32 },
    ExecApprovalRequest {
        call_id: Seq<char>,
        command: Seq<Seq<char>>,
        cwd: PathV,
        reason: Option<Seq<char>>,
    },
    ApplyPatchApprovalRequest {
        call_id: Seq<char>,
        changes: Seq<FileChangeEntryV>,
        reason: Option<Seq<char>>,
        grant_root: Option<PathV>,
    },
    BackgroundEvent { message: Seq<char> },
    PatchApplyBegin { call_id: Seq<char>, auto_approved: bool, changes: Seq<FileChangeEntryV> },
    PatchApplyEnd { call_id: Seq<char>, stdout: Seq<char>, stderr: Seq<char>, success: bool },
    GetHistoryEntryResponse { offset: usize, log_id: u64, entry: Option<HistoryEntryV> },
    ShutdownComplete,
}

/// Mathematical image of an event.
pub struct EventV {
    pub id: Seq<char>,
    pub msg: EventMsgV,
}

impl View for CallToolResult {
    type V = CallToolResultV;

    open spec fn view(&self) -> CallToolResultV {
        CallToolResultV { content: self.content.deep_view(), is_error: self.is_error }
    }
}

impl View for FileChange {
    type V = FileChangeV;

    open spec fn view(&self) -> FileChangeV {
        match self {
            FileChange::Add { content } => FileChangeV::Add { content: content@ },
            FileChange::Delete => FileChangeV::Delete,
            FileChange::Update { unified_diff, move_path } => FileChangeV::Update {
                unified_diff: unified_diff@,
                move_path: match move_path {
                    Some(p) => Some(p@),
                    None => None,
                },
            },
        }
    }
}

impl View for FileChangeEntry {
    type V = FileChangeEntryV;

    open spec fn view(&self) -> FileChangeEntryV {
        FileChangeEntryV { path: self.path@, change: self.change@ }
    }
}

impl DeepView for FileChangeEntry {
    type V = FileChangeEntryV;

    open spec fn deep_view(&self) -> FileChangeEntryV {
        self.view()
    }
}

impl View for HistoryEntry {
    type V = HistoryEntryV;

    open spec fn view(&self) -> HistoryEntryV {
        HistoryEntryV { text: self.text@, log_id: self.log_id, offset: self.offset }
    }
}

/// The view of an optional string.
pub open spec fn view_opt_str(o: Option<String>) -> Option<Seq<char>> {
    match o {
        Some(s) => Some(s@),
        None => None,
    }
}

/// The view of an optional path.
pub open spec fn view_opt_path(o: Option<FsPath>) -> Option<PathV> {
    match o {
        Some(p) => Some(p@),
        None => None,
    }
}

impl View for EventMsg {
    type V = EventMsgV;

    open spec fn view(&self) -> EventMsgV {
        match self {
            EventMsg::Error(e) => EventMsgV::Error { message: e.message@ },
            EventMsg::TaskStarted => EventMsgV::TaskStarted,
            EventMsg::TaskComplete(e) => EventMsgV::TaskComplete {
                last_agent_message: view_opt_str(e.last_agent_message),
            },
            EventMsg::TokenCount(u) => EventMsgV::TokenCount { usage: *u },
            EventMsg::AgentMessage(e) => EventMsgV::AgentMessage { message: e.message@ },
            EventMsg::AgentMessageDelta(e) => EventMsgV::AgentMessageDelta { delta: e.delta@ },
            EventMsg::AgentReasoning(e) => EventMsgV::AgentReasoning { text: e.text@ },
            EventMsg::AgentReasoningDelta(e) => EventMsgV::AgentReasoningDelta { delta: e.delta@ },
            EventMsg::SessionConfigured(e) => EventMsgV::SessionConfigured {
                session_id: e.session_id@,
                model: e.model@,
                history_log_id: e.history_log_id,
                history_entry_count: e.history_entry_count,
            },
            EventMsg::McpToolCallBegin(e) => EventMsgV::McpToolCallBegin {
                call_id: e.call_id@,
                server: e.server@,
                tool: e.tool@,
                arguments: match &e.arguments {
                    Some(j) => Some(j@),
                    None => None,
                },
            },
            EventMsg::McpToolCallEnd(e) => EventMsgV::McpToolCallEnd {
                call_id: e.call_id@,
                result: match &e.result {
                    Ok(r) => Ok(r@),
                    Err(m) => Err(m@),
                },
            },
            EventMsg::ExecCommandBegin(e) => EventMsgV::ExecCommandBegin {
                call_id: e.call_id@,
                command: e.command.deep_view(),
                cwd: e.cwd@,
            },
            EventMsg::ExecCommandEnd(e) => EventMsgV::ExecCommandEnd {
                call_id: e.call_id@,
                stdout: e.stdout@,
                stderr: e.stderr@,
                exit_code: e.exit_code,
            },
            EventMsg::ExecApprovalRequest(e) => EventMsgV::ExecApprovalRequest {
                call_id: e.call_id@,
                command: e.command.deep_view(),
                cwd: e.cwd@,
                reason: view_opt_str(e.reason),
            },
            EventMsg::ApplyPatchApprovalRequest(e) => EventMsgV::ApplyPatchApprovalRequest {
                call_id: e.call_id@,
                changes: e.changes.deep_view(),
                reason: view_opt_str(e.reason),
                grant_root: view_opt_path(e.grant_root),
            },
            EventMsg::BackgroundEvent(e) => EventMsgV::BackgroundEvent { message: e.message@ },
            EventMsg::PatchApplyBegin(e) => EventMsgV::PatchApplyBegin {
                call_id: e.call_id@,
                auto_approved: e.auto_approved,
                changes: e.changes.deep_view(),
            },
            EventMsg::PatchApplyEnd(e) => EventMsgV::PatchApplyEnd {
                call_id: e.call_id@,
                stdout: e.stdout@,
                stderr: e.stderr@,
                success: e.success,
            },
            EventMsg::GetHistoryEntryResponse(e) => EventMsgV::GetHistoryEntryResponse {
                offset: e.offset,
                log_id: e.log_id,
                entry: match &e.entry {
                    Some(h) => Some(h@),
                    None => None,
                },
            },
            EventMsg::ShutdownComplete => EventMsgV::ShutdownComplete,
        }
    }
}

impl View for Event {
    type V = EventV;

    open spec fn view(&self) -> EventV {
        EventV { id: self.id@, msg: self.msg@ }
    }
}

// ---------------------------------------------------------------------------
// Spec-level encoding
// ---------------------------------------------------------------------------

/// An array of strings.
pub open spec fn spec_enc_str_arr(ss: Seq<Seq<char>>) -> JsonV {
    JsonV::Arr(Seq::new(ss.len(), |i: int| JsonV::Str(ss[i])))
}

/// A path as a JSON object: its absoluteness and its components.
pub open spec fn spec_enc_path(p: PathV) -> JsonV {
    JsonV::Obj(
        seq![("absolute"@, JsonV::Bool(p.absolute)), ("parts"@, spec_enc_str_arr(p.parts))],
    )
}

/// An optional string: the string or null.
pub open spec fn spec_enc_opt_str(o: Option<Seq<char>>) -> JsonV {
    match o {
        Some(s) => JsonV::Str(s),
        None => JsonV::Null,
    }
}

/// An optional counter: the number or null.
pub open spec fn spec_enc_opt_u64(o: Option<u64>) -> JsonV {
    match o {
        Some(n) => JsonV::UInt(n),
        None => JsonV::Null,
    }
}

/// A file change: externally tagged by its kind.
pub open spec fn spec_enc_file_change(c: FileChangeV) -> JsonV {
    match c {
        FileChangeV::Add { content } => JsonV::Obj(
            seq![("add"@, JsonV::Obj(seq![("content"@, JsonV::Str(content))]))],
        ),
        FileChangeV::Delete => JsonV::Str("delete"@),
        FileChangeV::Update { unified_diff, move_path } => JsonV::Obj(
            seq![
                (
                    "update"@,
                    JsonV::Obj(
                        seq![
                            ("unified_diff"@, JsonV::Str(unified_diff)),
                            (
                                "move_path"@,
                                match move_path {
                                    Some(p) => spec_enc_path(p),
                                    None => JsonV::Null,
                                },
                            ),
                        ],
                    ),
                ),
            ],
        ),
    }
}

/// One changed file: its path and its change.
pub open spec fn spec_enc_change_entry(e: FileChangeEntryV) -> JsonV {
    JsonV::Obj(
        seq![("path"@, spec_enc_path(e.path)), ("change"@, spec_enc_file_change(e.change))],
    )
}

/// The list of changed files.
pub open spec fn spec_enc_changes(cs: Seq<FileChangeEntryV>) -> JsonV {
    JsonV::Arr(Seq::new(cs.len(), |i: int| spec_enc_change_entry(cs[i])))
}

/// A history entry.
pub open spec fn spec_enc_history_entry(h: HistoryEntryV) -> JsonV {
    JsonV::Obj(
        seq![
            ("text"@, JsonV::Str(h.text)),
            ("log_id"@, JsonV::UInt(h.log_id)),
            ("offset"@, JsonV::UInt(h.offset as u64)),
        ],
    )
}

/// The token usage counters.
pub open spec fn spec_enc_usage(u: TokenUsage) -> Seq<(Seq<char>, JsonV)> {
    seq![
        ("input_tokens"@, JsonV::UInt(u.input_tokens)),
        ("cached_input_tokens"@, spec_enc_opt_u64(u.cached_input_tokens)),
        ("output_tokens"@, JsonV::UInt(u.output_tokens)),
        ("reasoning_output_tokens"@, spec_enc_opt_u64(u.reasoning_output_tokens)),
        ("total_tokens"@, JsonV::UInt(u.total_tokens)),
    ]
}

/// The encoding of an event payload: an object whose first member is the
/// `type` discriminator, followed by the payload fields in declaration
/// order; optional fields marked as omitted on the wire are appended only
/// when present.
pub open spec fn spec_encode_event_msg(m: EventMsgV) -> JsonV {
    match m {
        EventMsgV::Error { message } => JsonV::Obj(
            seq![("type"@, JsonV::Str("error"@)), ("message"@, JsonV::Str(message))],
        ),
        EventMsgV::TaskStarted => JsonV::Obj(seq![("type"@, JsonV::Str("task_started"@))]),
        EventMsgV::TaskComplete { last_agent_message } => JsonV::Obj(
            seq![
                ("type"@, JsonV::Str("task_complete"@)),
                ("last_agent_message"@, spec_enc_opt_str(last_agent_message)),
            ],
        ),
        EventMsgV::TokenCount { usage } => JsonV::Obj(
            seq![("type"@, JsonV::Str("token_count"@))] + spec_enc_usage(usage),
        ),
        EventMsgV::AgentMessage { message } => JsonV::Obj(
            seq![("type"@, JsonV::Str("agent_message"@)), ("message"@, JsonV::Str(message))],
        ),
        EventMsgV::AgentMessageDelta { delta } => JsonV::Obj(
            seq![("type"@, JsonV::Str("agent_message_delta"@)), ("delta"@, JsonV::Str(delta))],
        ),
        EventMsgV::AgentReasoning { text } => JsonV::Obj(
            seq![("type"@, JsonV::Str("agent_reasoning"@)), ("text"@, JsonV::Str(text))],
        ),
        EventMsgV::AgentReasoningDelta { delta } => JsonV::Obj(
            seq![("type"@, JsonV::Str("agent_reasoning_delta"@)), ("delta"@, JsonV::Str(delta))],
        ),
        EventMsgV::SessionConfigured { session_id, model, history_log_id, history_entry_count } => {
            JsonV::Obj(
                seq![
                    ("type"@, JsonV::Str("session_configured"@)),
                    ("session_id"@, JsonV::Str(session_id)),
                    ("model"@, JsonV::Str(model)),
                    ("history_log_id"@, JsonV::UInt(history_log_id)),
                    ("history_entry_count"@, JsonV::UInt(history_entry_count as u64)),
                ],
            )
        },
        EventMsgV::McpToolCallBegin { call_id, server, tool, arguments } => JsonV::Obj(
            seq![
                ("type"@, JsonV::Str("mcp_tool_call_begin"@)),
                ("call_id"@, JsonV::Str(call_id)),
                ("server"@, JsonV::Str(server)),
                ("tool"@, JsonV::Str(tool)),
                (
                    "arguments"@,
                    match arguments {
                        Some(j) => j,
                        None => JsonV::Null,
                    },
                ),
            ],
        ),
        EventMsgV::McpToolCallEnd { call_id, result } => JsonV::Obj(
            seq![
                ("type"@, JsonV::Str("mcp_tool_call_end"@)),
                ("call_id"@, JsonV::Str(call_id)),
                (
                    "result"@,
                    match result {
                        Ok(r) => JsonV::Obj(
                            seq![
                                (
                                    "Ok"@,
                                    JsonV::Obj(
                                        seq![
                                            ("content"@, spec_enc_str_arr(r.content)),
                                            (
                                                "is_error"@,
                                                match r.is_error {
                                                    Some(b) => JsonV::Bool(b),
                                                    None => JsonV::Null,
                                                },
                                            ),
                                        ],
                                    ),
                                ),
                            ],
                        ),
                        Err(msg) => JsonV::Obj(seq![("Err"@, JsonV::Str(msg))]),
                    },
                ),
            ],
        ),
        EventMsgV::ExecCommandBegin { call_id, command, cwd } => JsonV::Obj(
            seq![
                ("type"@, JsonV::Str("exec_command_begin"@)),
                ("call_id"@, JsonV::Str(call_id)),
                ("command"@, spec_enc_str_arr(command)),
                ("cwd"@, spec_enc_path(cwd)),
            ],
        ),
        EventMsgV::ExecCommandEnd { call_id, stdout, stderr, exit_code } => JsonV::Obj(
            seq![
                ("type"@, JsonV::Str("exec_command_end"@)),
                ("call_id"@, JsonV::Str(call_id)),
                ("stdout"@, JsonV::Str(stdout)),
                ("stderr"@, JsonV::Str(stderr)),
                ("exit_code"@, JsonV::Int(exit_code as i64)),
            ],
        ),
        EventMsgV::ExecApprovalRequest { call_id, command, cwd, reason } => JsonV::Obj(
            seq![
                ("type"@, JsonV::Str("exec_approval_request"@)),
                ("call_id"@, JsonV::Str(call_id)),
                ("command"@, spec_enc_str_arr(command)),
                ("cwd"@, spec_enc_path(cwd)),
            ] + (match reason {
                Some(s) => seq![("reason"@, JsonV::Str(s))],
                None => Seq::empty(),
            }),
        ),
        EventMsgV::ApplyPatchApprovalRequest { call_id, changes, reason, grant_root } => JsonV::Obj(
            seq![
                ("type"@, JsonV::Str("apply_patch_approval_request"@)),
                ("call_id"@, JsonV::Str(call_id)),
                ("changes"@, spec_enc_changes(changes)),
            ] + (match reason {
                Some(s) => seq![("reason"@, JsonV::Str(s))],
                None => Seq::empty(),
            }) + (match grant_root {
                Some(p) => seq![("grant_root"@, spec_enc_path(p))],
                None => Seq::empty(),
            }),
        ),
        EventMsgV::BackgroundEvent { message } => JsonV::Obj(
            seq![("type"@, JsonV::Str("background_event"@)), ("message"@, JsonV::Str(message))],
        ),
        EventMsgV::PatchApplyBegin { call_id, auto_approved, changes } => JsonV::Obj(
            seq![
                ("type"@, JsonV::Str("patch_apply_begin"@)),
                ("call_id"@, JsonV::Str(call_id)),
                ("auto_approved"@, JsonV::Bool(auto_approved)),
                ("changes"@, spec_enc_changes(changes)),
            ],
        ),
        EventMsgV::PatchApplyEnd { call_id, stdout, stderr, success } => JsonV::Obj(
            seq![
                ("type"@, JsonV::Str("patch_apply_end"@)),
                ("call_id"@, JsonV::Str(call_id)),
                ("stdout"@, JsonV::Str(stdout)),
                ("stderr"@, JsonV::Str(stderr)),
                ("success"@, JsonV::Bool(success)),
            ],
        ),
        EventMsgV::GetHistoryEntryResponse { offset, log_id, entry } => JsonV::Obj(
            seq![
                ("type"@, JsonV::Str("get_history_entry_response"@)),
                ("offset"@, JsonV::UInt(offset as u64)),
                ("log_id"@, JsonV::UInt(log_id)),
            ] + (match entry {
                Some(h) => seq![("entry"@, spec_enc_history_entry(h))],
                None => Seq::empty(),
            }),
        ),
        EventMsgV::ShutdownComplete => JsonV::Obj(
            seq![("type"@, JsonV::Str("shutdown_complete"@))],
        ),
    }
}

/// The encoding of an event: the submission id and the payload under `msg`.
pub open spec fn spec_encode_event(e: EventV) -> JsonV {
    JsonV::Obj(seq![("id"@, JsonV::Str(e.id)), ("msg"@, spec_encode_event_msg(e.msg))])
}

// ---------------------------------------------------------------------------
// Spec-level decoding (canonical: fields in encoding order)
// ---------------------------------------------------------------------------

/// Decodes a list of strings.
pub open spec fn spec_dec_str_list(items: Seq<JsonV>) -> Option<Seq<Seq<char>>>
    decreases items.len(),
{
    if items.len() == 0 {
        Some(Seq::empty())
    } else {
        match (spec_dec_str_list(items.drop_last()), items.last()) {
            (Some(pre), JsonV::Str(s)) => Some(pre.push(s)),
            _ => None,
        }
    }
}

/// Decodes an array of strings.
pub open spec fn spec_dec_str_arr(j: JsonV) -> Option<Seq<Seq<char>>> {
    match j {
        JsonV::Arr(items) => spec_dec_str_list(items),
        _ => None,
    }
}

/// Decodes a path object.
pub open spec fn spec_dec_path(j: JsonV) -> Option<PathV> {
    match j {
        JsonV::Obj(ms) => {
            if ms.len() == 2 && ms[0].0 == "absolute"@ && ms[0].1 is Bool && ms[1].0 == "parts"@ {
                match spec_dec_str_arr(ms[1].1) {
                    Some(parts) => Some(PathV { absolute: ms[0].1->Bool_0, parts }),
                    None => None,
                }
            } else {
                None
            }
        },
        _ => None,
    }
}

/// Decodes an optional path encoded as null or a path object.
pub open spec fn spec_dec_opt_path(j: JsonV) -> Option<Option<PathV>> {
    match j {
        JsonV::Null => Some(None),
        _ => match spec_dec_path(j) {
            Some(p) => Some(Some(p)),
            None => None,
        },
    }
}

/// Decodes a file change.
pub open spec fn spec_dec_file_change(j: JsonV) -> Option<FileChangeV> {
    match j {
        JsonV::Str(s) => if s == "delete"@ {
            Some(FileChangeV::Delete)
        } else {
            None
        },
        JsonV::Obj(ms) => {
            if ms.len() == 1 && ms[0].0 == "add"@ {
                match ms[0].1 {
                    JsonV::Obj(inner) => if inner.len() == 1 && inner[0].0 == "content"@
                        && inner[0].1 is Str {
                        Some(FileChangeV::Add { content: inner[0].1->Str_0 })
                    } else {
                        None
                    },
                    _ => None,
                }
            } else if ms.len() == 1 && ms[0].0 == "update"@ {
                match ms[0].1 {
                    JsonV::Obj(inner) => if inner.len() == 2 && inner[0].0 == "unified_diff"@
                        && inner[0].1 is Str && inner[1].0 == "move_path"@ {
                        match spec_dec_opt_path(inner[1].1) {
                            Some(mp) => Some(
                                FileChangeV::Update {
                                    unified_diff: inner[0].1->Str_0,
                                    move_path: mp,
                                },
                            ),
                            None => None,
                        }
                    } else {
                        None
                    },
                    _ => None,
                }
            } else {
                None
            }
        },
        _ => None,
    }
}

/// Decodes one changed file.
pub open spec fn spec_dec_change_entry(j: JsonV) -> Option<FileChangeEntryV> {
    match j {
        JsonV::Obj(ms) => {
            if ms.len() == 2 && ms[0].0 == "path"@ && ms[1].0 == "change"@ {
                match (spec_dec_path(ms[0].1), spec_dec_file_change(ms[1].1)) {
                    (Some(path), Some(change)) => Some(FileChangeEntryV { path, change }),
                    _ => None,
                }
            } else {
                None
            }
        },
        _ => None,
    }
}

/// Decodes a list of changed files.
pub open spec fn spec_dec_change_list(items: Seq<JsonV>) -> Option<Seq<FileChangeEntryV>>
    decreases items.len(),
{
    if items.len() == 0 {
        Some(Seq::empty())
    } else {
        match (spec_dec_change_list(items.drop_last()), spec_dec_change_entry(items.last())) {
            (Some(pre), Some(e)) => Some(pre.push(e)),
            _ => None,
        }
    }
}

/// Decodes the changed-file array.
pub open spec fn spec_dec_changes(j: JsonV) -> Option<Seq<FileChangeEntryV>> {
    match j {
        JsonV::Arr(items) => spec_dec_change_list(items),
        _ => None,
    }
}

/// Decodes a history entry.
pub open spec fn spec_dec_history_entry(j: JsonV) -> Option<HistoryEntryV> {
    match j {
        JsonV::Obj(ms) => {
            if ms.len() == 3 && ms[0].0 == "text"@ && ms[0].1 is Str && ms[1].0 == "log_id"@
                && ms[1].1 is UInt && ms[2].0 == "offset"@ && ms[2].1 is UInt && ms[2].1->UInt_0
                <= usize::MAX {
                Some(
                    HistoryEntryV {
                        text: ms[0].1->Str_0,
                        log_id: ms[1].1->UInt_0,
                        offset: ms[2].1->UInt_0 as usize,
                    },
                )
            } else {
                None
            }
        },
        _ => None,
    }
}

/// Decodes an optional string encoded as the string or null.
pub open spec fn spec_dec_opt_str(j: JsonV) -> Option<Option<Seq<char>>> {
    match j {
        JsonV::Null => Some(None),
        JsonV::Str(s) => Some(Some(s)),
        _ => None,
    }
}

/// Decodes an optional counter encoded as the number or null.
pub open spec fn spec_dec_opt_u64(j: JsonV) -> Option<Option<u64>> {
    match j {
        JsonV::Null => Some(None),
        JsonV::UInt(n) => Some(Some(n)),
        _ => None,
    }
}

/// Decodes the token usage counters from members 1 to 5.
pub open spec fn spec_dec_usage(ms: Seq<(Seq<char>, JsonV)>) -> Option<TokenUsage> {
    if ms.len() == 6 && ms[1].0 == "input_tokens"@ && ms[1].1 is UInt && ms[2].0
        == "cached_input_tokens"@ && ms[3].0 == "output_tokens"@ && ms[3].1 is UInt && ms[4].0
        == "reasoning_output_tokens"@ && ms[5].0 == "total_tokens"@ && ms[5].1 is UInt {
        match (spec_dec_opt_u64(ms[2].1), spec_dec_opt_u64(ms[4].1)) {
            (Some(cached), Some(reasoning)) => Some(
                TokenUsage {
                    input_tokens: ms[1].1->UInt_0,
                    cached_input_tokens: cached,
                    output_tokens: ms[3].1->UInt_0,
                    reasoning_output_tokens: reasoning,
                    total_tokens: ms[5].1->UInt_0,
                },
            ),
            _ => None,
        }
    } else {
        None
    }
}

/// Decodes a tool call result.
pub open spec fn spec_dec_tool_result(j: JsonV) -> Option<Result<CallToolResultV, Seq<char>>> {
    match j {
        JsonV::Obj(ms) => {
            if ms.len() == 1 && ms[0].0 == "Ok"@ {
                match ms[0].1 {
                    JsonV::Obj(inner) => if inner.len() == 2 && inner[0].0 == "content"@
                        && inner[1].0 == "is_error"@ {
                        match (spec_dec_str_arr(inner[0].1), inner[1].1) {
                            (Some(content), JsonV::Null) => Some(
                                Ok(CallToolResultV { content, is_error: None }),
                            ),
                            (Some(content), JsonV::Bool(b)) => Some(
                                Ok(CallToolResultV { content, is_error: Some(b) }),
                            ),
                            _ => None,
                        }
                    } else {
                        None
                    },
                    _ => None,
                }
            } else if ms.len() == 1 && ms[0].0 == "Err"@ && ms[0].1 is Str {
                Some(Err(ms[0].1->Str_0))
            } else {
                None
            }
        },
        _ => None,
    }
}

/// The decoding of an event payload. Events are this library's own output,
/// so the decoder accepts exactly the canonical form the encoder produces:
/// the `type` discriminator first, the payload fields in declaration order,
/// and the optional fields that the encoder omits when absent (the approval
/// reasons, the grant root, the history entry) accepted in either form.
/// Unknown discriminators and any other shape are rejected.
pub open spec fn spec_decode_event_msg(j: JsonV) -> Option<EventMsgV> {
    match j {
        JsonV::Obj(ms) => {
            if ms.len() < 1 || ms[0].0 != "type"@ || !(ms[0].1 is Str) {
                None
            } else {
                let ty = ms[0].1->Str_0;
                if ty == "error"@ {
                    if ms.len() == 2 && ms[1].0 == "message"@ && ms[1].1 is Str {
                        Some(EventMsgV::Error { message: ms[1].1->Str_0 })
                    } else {
                        None
                    }
                } else if ty == "task_started"@ {
                    if ms.len() == 1 {
                        Some(EventMsgV::TaskStarted)
                    } else {
                        None
                    }
                } else if ty == "task_complete"@ {
                    if ms.len() == 2 && ms[1].0 == "last_agent_message"@ {
                        match spec_dec_opt_str(ms[1].1) {
                            Some(o) => Some(EventMsgV::TaskComplete { last_agent_message: o }),
                            None => None,
                        }
                    } else {
                        None
                    }
                } else if ty == "token_count"@ {
                    match spec_dec_usage(ms) {
                        Some(usage) => Some(EventMsgV::TokenCount { usage }),
                        None => None,
                    }
                } else if ty == "agent_message"@ {
                    if ms.len() == 2 && ms[1].0 == "message"@ && ms[1].1 is Str {
                        Some(EventMsgV::AgentMessage { message: ms[1].1->Str_0 })
                    } else {
                        None
                    }
                } else if ty == "agent_message_delta"@ {
                    if ms.len() == 2 && ms[1].0 == "delta"@ && ms[1].1 is Str {
                        Some(EventMsgV::AgentMessageDelta { delta: ms[1].1->Str_0 })
                    } else {
                        None
                    }
                } else if ty == "agent_reasoning"@ {
                    if ms.len() == 2 && ms[1].0 == "text"@ && ms[1].1 is Str {
                        Some(EventMsgV::AgentReasoning { text: ms[1].1->Str_0 })
                    } else {
                        None
                    }
                } else if ty == "agent_reasoning_delta"@ {
                    if ms.len() == 2 && ms[1].0 == "delta"@ && ms[1].1 is Str {
                        Some(EventMsgV::AgentReasoningDelta { delta: ms[1].1->Str_0 })
                    } else {
                        None
                    }
                } else if ty == "session_configured"@ {
                    if ms.len() == 5 && ms[1].0 == "session_id"@ && ms[1].1 is Str && ms[2].0
                        == "model"@ && ms[2].1 is Str && ms[3].0 == "history_log_id"@ && ms[3].1
                        is UInt && ms[4].0 == "history_entry_count"@ && ms[4].1 is UInt
                        && ms[4].1->UInt_0 <= usize::MAX {
                        Some(
                            EventMsgV::SessionConfigured {
                                session_id: ms[1].1->Str_0,
                                model: ms[2].1->Str_0,
                                history_log_id: ms[3].1->UInt_0,
                                history_entry_count: ms[4].1->UInt_0 as usize,
                            },
                        )
                    } else {
                        None
                    }
                } else if ty == "mcp_tool_call_begin"@ {
                    if ms.len() == 5 && ms[1].0 == "call_id"@ && ms[1].1 is Str && ms[2].0
                        == "server"@ && ms[2].1 is Str && ms[3].0 == "tool"@ && ms[3].1 is Str
                        && ms[4].0 == "arguments"@ {
                        Some(
                            EventMsgV::McpToolCallBegin {
                                call_id: ms[1].1->Str_0,
                                server: ms[2].1->Str_0,
                                tool: ms[3].1->Str_0,
                                arguments: match ms[4].1 {
                                    JsonV::Null => None,
                                    other => Some(other),
                                },
                            },
                        )
                    } else {
                        None
                    }
                } else if ty == "mcp_tool_call_end"@ {
                    if ms.len() == 3 && ms[1].0 == "call_id"@ && ms[1].1 is Str && ms[2].0
                        == "result"@ {
                        match spec_dec_tool_result(ms[2].1) {
                            Some(result) => Some(
                                EventMsgV::McpToolCallEnd { call_id: ms[1].1->Str_0, result },
                            ),
                            None => None,
                        }
                    } else {
                        None
                    }
                } else if ty == "exec_command_begin"@ {
                    if ms.len() == 4 && ms[1].0 == "call_id"@ && ms[1].1 is Str && ms[2].0
                        == "command"@ && ms[3].0 == "cwd"@ {
                        match (spec_dec_str_arr(ms[2].1), spec_dec_path(ms[3].1)) {
                            (Some(command), Some(cwd)) => Some(
                                EventMsgV::ExecCommandBegin {
                                    call_id: ms[1].1->Str_0,
                                    command,
                                    cwd,
                                },
                            ),
                            _ => None,
                        }
                    } else {
                        None
                    }
                } else if ty == "exec_command_end"@ {
                    if ms.len() == 5 && ms[1].0 == "call_id"@ && ms[1].1 is Str && ms[2].0
                        == "stdout"@ && ms[2].1 is Str && ms[3].0 == "stderr"@ && ms[3].1 is Str
                        && ms[4].0 == "exit_code"@ && ms[4].1 is Int && i32::MIN
                        <= ms[4].1->Int_0 <= i32::MAX {
                        Some(
                            EventMsgV::ExecCommandEnd {
                                call_id: ms[1].1->Str_0,
                                stdout: ms[2].1->Str_0,
                                stderr: ms[3].1->Str_0,
                                exit_code: ms[4].1->Int_0 as i32,
                            },
                        )
                    } else {
                        None
                    }
                } else if ty == "exec_approval_request"@ {
                    if (ms.len() == 4 || (ms.len() == 5 && ms[4].0 == "reason"@ && ms[4].1
                        is Str)) && ms[1].0 == "call_id"@ && ms[1].1 is Str && ms[2].0
                        == "command"@ && ms[3].0 == "cwd"@ {
                        match (spec_dec_str_arr(ms[2].1), spec_dec_path(ms[3].1)) {
                            (Some(command), Some(cwd)) => Some(
                                EventMsgV::ExecApprovalRequest {
                                    call_id: ms[1].1->Str_0,
                                    command,
                                    cwd,
                                    reason: if ms.len() == 5 {
                                        Some(ms[4].1->Str_0)
                                    } else {
                                        None
                                    },
                                },
                            ),
                            _ => None,
                        }
                    } else {
                        None
                    }
                } else if ty == "apply_patch_approval_request"@ {
                    if ms.len() >= 3 && ms.len() <= 5 && ms[1].0 == "call_id"@ && ms[1].1 is Str
                        && ms[2].0 == "changes"@ {
                        match spec_dec_changes(ms[2].1) {
                            Some(changes) => {
                                let call_id = ms[1].1->Str_0;
                                if ms.len() == 3 {
                                    Some(
                                        EventMsgV::ApplyPatchApprovalRequest {
                                            call_id,
                                            changes,
                                            reason: None,
                                            grant_root: None,
                                        },
                                    )
                                } else if ms.len() == 4 && ms[3].0 == "reason"@ && ms[3].1
                                    is Str {
                                    Some(
                                        EventMsgV::ApplyPatchApprovalRequest {
                                            call_id,
                                            changes,
                                            reason: Some(ms[3].1->Str_0),
                                            grant_root: None,
                                        },
                                    )
                                } else if ms.len() == 4 && ms[3].0 == "grant_root"@ {
                                    match spec_dec_path(ms[3].1) {
                                        Some(p) => Some(
                                            EventMsgV::ApplyPatchApprovalRequest {
                                                call_id,
                                                changes,
                                                reason: None,
                                                grant_root: Some(p),
                                            },
                                        ),
                                        None => None,
                                    }
                                } else if ms.len() == 5 && ms[3].0 == "reason"@ && ms[3].1 is Str
                                    && ms[4].0 == "grant_root"@ {
                                    match spec_dec_path(ms[4].1) {
                                        Some(p) => Some(
                                            EventMsgV::ApplyPatchApprovalRequest {
                                                call_id,
                                                changes,
                                                reason: Some(ms[3].1->Str_0),
                                                grant_root: Some(p),
                                            },
                                        ),
                                        None => None,
                                    }
                                } else {
                                    None
                                }
                            },
                            None => None,
                        }
                    } else {
                        None
                    }
                } else if ty == "background_event"@ {
                    if ms.len() == 2 && ms[1].0 == "message"@ && ms[1].1 is Str {
                        Some(EventMsgV::BackgroundEvent { message: ms[1].1->Str_0 })
                    } else {
                        None
                    }
                } else if ty == "patch_apply_begin"@ {
                    if ms.len() == 4 && ms[1].0 == "call_id"@ && ms[1].1 is Str && ms[2].0
                        == "auto_approved"@ && ms[2].1 is Bool && ms[3].0 == "changes"@ {
                        match spec_dec_changes(ms[3].1) {
                            Some(changes) => Some(
                                EventMsgV::PatchApplyBegin {
                                    call_id: ms[1].1->Str_0,
                                    auto_approved: ms[2].1->Bool_0,
                                    changes,
                                },
                            ),
                            None => None,
                        }
                    } else {
                        None
                    }
                } else if ty == "patch_apply_end"@ {
                    if ms.len() == 5 && ms[1].0 == "call_id"@ && ms[1].1 is Str && ms[2].0
                        == "stdout"@ && ms[2].1 is Str && ms[3].0 == "stderr"@ && ms[3].1 is Str
                        && ms[4].0 == "success"@ && ms[4].1 is Bool {
                        Some(
                            EventMsgV::PatchApplyEnd {
                                call_id: ms[1].1->Str_0,
                                stdout: ms[2].1->Str_0,
                                stderr: ms[3].1->Str_0,
                                success: ms[4].1->Bool_0,
                            },
                        )
                    } else {
                        None
                    }
                } else if ty == "get_history_entry_response"@ {
                    if (ms.len() == 3 || (ms.len() == 4 && ms[3].0 == "entry"@)) && ms[1].0
                        == "offset"@ && ms[1].1 is UInt && ms[1].1->UInt_0 <= usize::MAX
                        && ms[2].0 == "log_id"@ && ms[2].1 is UInt {
                        if ms.len() == 3 {
                            Some(
                                EventMsgV::GetHistoryEntryResponse {
                                    offset: ms[1].1->UInt_0 as usize,
                                    log_id: ms[2].1->UInt_0,
                                    entry: None,
                                },
                            )
                        } else {
                            match spec_dec_history_entry(ms[3].1) {
                                Some(h) => Some(
                                    EventMsgV::GetHistoryEntryResponse {
                                        offset: ms[1].1->UInt_0 as usize,
                                        log_id: ms[2].1->UInt_0,
                                        entry: Some(h),
                                    },
                                ),
                                None => None,
                            }
                        }
                    } else {
                        None
                    }
                } else if ty == "shutdown_complete"@ {
                    if ms.len() == 1 {
                        Some(EventMsgV::ShutdownComplete)
                    } else {
                        None
                    }
                } else {
                    None
                }
            }
        },
        _ => None,
    }
}

/// The decoding of an event envelope.
pub open spec fn spec_decode_event(j: JsonV) -> Option<EventV> {
    match j {
        JsonV::Obj(ms) => {
            if ms.len() == 2 && ms[0].0 == "id"@ && ms[0].1 is Str && ms[1].0 == "msg"@ {
                match spec_decode_event_msg(ms[1].1) {
                    Some(msg) => Some(EventV { id: ms[0].1->Str_0, msg }),
                    None => None,
                }
            } else {
                None
            }
        },
        _ => None,
    }
}

/// A payload that survives the wire unchanged. The one shape that cannot is
/// a tool call whose arguments are the JSON null value, which is encoded the
/// same way as absent arguments.
pub open spec fn spec_event_msg_wire_safe(m: EventMsgV) -> bool {
    match m {
        EventMsgV::McpToolCallBegin { arguments, .. } => arguments != Some(JsonV::Null),
        _ => true,
    }
}

// ---------------------------------------------------------------------------
// Round trip: decoding an encoded value returns the value
// ---------------------------------------------------------------------------

/// Decoding an encoded string list returns the list.
pub proof fn lemma_str_list_round_trip(ss: Seq<Seq<char>>)
    ensures
        spec_dec_str_arr(spec_enc_str_arr(ss)) == Some(ss),
    decreases ss.len(),
{
    let enc = Seq::new(ss.len(), |i: int| JsonV::Str(ss[i]));
    if ss.len() == 0 {
        assert(ss =~= Seq::<Seq<char>>::empty());
    } else {
        lemma_str_list_round_trip(ss.drop_last());
        let enc_prev = Seq::new(ss.drop_last().len(), |i: int| JsonV::Str(ss.drop_last()[i]));
        assert(enc.drop_last() =~= enc_prev);
        assert(enc.last() == JsonV::Str(ss.last()));
        assert(ss.drop_last().push(ss.last()) =~= ss);
    }
}

/// Decoding an encoded path returns the path.
pub proof fn lemma_path_round_trip(p: PathV)
    ensures
        spec_dec_path(spec_enc_path(p)) == Some(p),
{
    lemma_str_list_round_trip(p.parts);
}

/// Decoding an encoded file change returns the change.
pub proof fn lemma_file_change_round_trip(c: FileChangeV)
    ensures
        spec_dec_file_change(spec_enc_file_change(c)) == Some(c),
{
    reveal_strlit("add");
    reveal_strlit("update");
    reveal_strlit("delete");
    match c {
        FileChangeV::Add { content } => {
            let j = spec_enc_file_change(c);
            let ms = j->Obj_0;
            assert(ms.len() == 1);
            assert(ms[0].0 == "add"@);
            let inner = ms[0].1->Obj_0;
            assert(inner.len() == 1);
            assert(inner[0].0 == "content"@);
            assert(inner[0].1 is Str);
            assert(spec_dec_file_change(j) == Some(c));
        }
        FileChangeV::Delete => {}
        FileChangeV::Update { unified_diff, move_path } => {
            match move_path {
                Some(p) => {
                    lemma_path_round_trip(p);
                    assert(spec_enc_path(p) matches JsonV::Obj(_));
                },
                None => {},
            }
            let j = spec_enc_file_change(c);
            let ms = j->Obj_0;
            assert(ms.len() == 1);
            assert(ms[0].0 == "update"@);
            assert(ms[0].0 != "add"@);
            let inner = ms[0].1->Obj_0;
            assert(inner.len() == 2);
            assert(inner[0].0 == "unified_diff"@);
            assert(inner[0].1 is Str);
            assert(inner[1].0 == "move_path"@);
            assert(spec_dec_opt_path(inner[1].1) == Some(move_path));
            assert(spec_dec_file_change(spec_enc_file_change(c)) == Some(c));
        },
    }
}

/// Decoding an encoded change entry returns the entry.
pub proof fn lemma_change_entry_round_trip(e: FileChangeEntryV)
    ensures
        spec_dec_change_entry(spec_enc_change_entry(e)) == Some(e),
{
    lemma_path_round_trip(e.path);
    lemma_file_change_round_trip(e.change);
}

/// Decoding an encoded change list returns the list.
pub proof fn lemma_changes_round_trip(cs: Seq<FileChangeEntryV>)
    ensures
        spec_dec_changes(spec_enc_changes(cs)) == Some(cs),
    decreases cs.len(),
{
    let enc = Seq::new(cs.len(), |i: int| spec_enc_change_entry(cs[i]));
    if cs.len() == 0 {
        assert(cs =~= Seq::<FileChangeEntryV>::empty());
    } else {
        lemma_changes_round_trip(cs.drop_last());
        let enc_prev = Seq::new(cs.drop_last().len(), |i: int| spec_enc_change_entry(
            cs.drop_last()[i],
        ));
        assert(enc.drop_last() =~= enc_prev);
        assert(enc.last() == spec_enc_change_entry(cs.last()));
        lemma_change_entry_round_trip(cs.last());
        assert(cs.drop_last().push(cs.last()) =~= cs);
    }
}

/// Decoding an encoded event payload returns the payload, for every payload
/// that survives the wire (see `spec_event_msg_wire_safe`).
pub proof fn lemma_event_msg_round_trip(m: EventMsgV)
    requires
        spec_event_msg_wire_safe(m),
    ensures
        spec_decode_event_msg(spec_encode_event_msg(m)) == Some(m),
{
    reveal_strlit("error");
    reveal_strlit("task_started");
    reveal_strlit("task_complete");
    reveal_strlit("token_count");
    reveal_strlit("agent_message");
    reveal_strlit("agent_message_delta");
    reveal_strlit("agent_reasoning");
    reveal_strlit("agent_reasoning_delta");
    reveal_strlit("session_configured");
    reveal_strlit("mcp_tool_call_begin");
    reveal_strlit("mcp_tool_call_end");
    reveal_strlit("exec_command_begin");
    reveal_strlit("exec_command_end");
    reveal_strlit("exec_approval_request");
    reveal_strlit("apply_patch_approval_request");
    reveal_strlit("background_event");
    reveal_strlit("patch_apply_begin");
    reveal_strlit("patch_apply_end");
    reveal_strlit("get_history_entry_response");
    reveal_strlit("shutdown_complete");
    reveal_strlit("Ok");
    reveal_strlit("Err");
    reveal_strlit("reason");
    reveal_strlit("grant_root");
    reveal_strlit("entry");
    assert("error"@.len() == 5 && "error"@[0] == 'e');
    assert("task_started"@.len() == 12 && "task_started"@[0] == 't');
    assert("task_complete"@.len() == 13 && "task_complete"@[0] == 't');
    assert("token_count"@.len() == 11 && "token_count"@[0] == 't');
    assert("agent_message"@.len() == 13 && "agent_message"@[0] == 'a');
    assert("agent_message_delta"@.len() == 19 && "agent_message_delta"@[0] == 'a');
    assert("agent_reasoning"@.len() == 15 && "agent_reasoning"@[0] == 'a');
    assert("agent_reasoning_delta"@.len() == 21 && "agent_reasoning_delta"@[0] == 'a');
    assert("session_configured"@.len() == 18 && "session_configured"@[0] == 's');
    assert("mcp_tool_call_begin"@.len() == 19 && "mcp_tool_call_begin"@[0] == 'm');
    assert("mcp_tool_call_end"@.len() == 17 && "mcp_tool_call_end"@[0] == 'm');
    assert("exec_command_begin"@.len() == 18 && "exec_command_begin"@[0] == 'e');
    assert("exec_command_end"@.len() == 16 && "exec_command_end"@[0] == 'e');
    assert("exec_approval_request"@.len() == 21 && "exec_approval_request"@[0] == 'e');
    assert("apply_patch_approval_request"@.len() == 28 && "apply_patch_approval_request"@[0]
        == 'a');
    assert("background_event"@.len() == 16 && "background_event"@[0] == 'b');
    assert("patch_apply_begin"@.len() == 17 && "patch_apply_begin"@[0] == 'p');
    assert("patch_apply_end"@.len() == 15 && "patch_apply_end"@[0] == 'p');
    assert("get_history_entry_response"@.len() == 26 && "get_history_entry_response"@[0] == 'g');
    assert("shutdown_complete"@.len() == 17 && "shutdown_complete"@[0] == 's');
    assert("Ok"@.len() == 2);
    assert("Err"@.len() == 3);
    assert("reason"@.len() == 6);
    assert("grant_root"@.len() == 10);
    assert("entry"@.len() == 5);
    let j = spec_encode_event_msg(m);
    match m {
        EventMsgV::Error { message } => {
            let ms = j->Obj_0;
            assert(ms.len() == 2 && ms[0].0 == "type"@ && ms[1].0 == "message"@);
            assert(spec_decode_event_msg(j) == Some(m));
        },
        EventMsgV::TaskStarted => {
            let ms = j->Obj_0;
            assert(ms.len() == 1 && ms[0].0 == "type"@);
            assert(spec_decode_event_msg(j) == Some(m));
        },
        EventMsgV::TaskComplete { last_agent_message } => {
            let ms = j->Obj_0;
            assert(ms.len() == 2 && ms[0].0 == "type"@ && ms[1].0 == "last_agent_message"@);
            assert(spec_dec_opt_str(ms[1].1) == Some(last_agent_message));
            assert(spec_decode_event_msg(j) == Some(m));
        },
        EventMsgV::TokenCount { usage } => {
            let ms = j->Obj_0;
            assert(ms =~= seq![
                ("type"@, JsonV::Str("token_count"@)),
                ("input_tokens"@, JsonV::UInt(usage.input_tokens)),
                ("cached_input_tokens"@, spec_enc_opt_u64(usage.cached_input_tokens)),
                ("output_tokens"@, JsonV::UInt(usage.output_tokens)),
                ("reasoning_output_tokens"@, spec_enc_opt_u64(usage.reasoning_output_tokens)),
                ("total_tokens"@, JsonV::UInt(usage.total_tokens)),
            ]);
            assert(spec_dec_usage(ms) == Some(usage));
            assert(spec_decode_event_msg(j) == Some(m));
        },
        EventMsgV::AgentMessage { message } => {
            let ms = j->Obj_0;
            assert(ms.len() == 2 && ms[0].0 == "type"@ && ms[1].0 == "message"@);
            assert(spec_decode_event_msg(j) == Some(m));
        },
        EventMsgV::AgentMessageDelta { delta } => {
            let ms = j->Obj_0;
            assert(ms.len() == 2 && ms[0].0 == "type"@ && ms[1].0 == "delta"@);
            assert(spec_decode_event_msg(j) == Some(m));
        },
        EventMsgV::AgentReasoning { text } => {
            let ms = j->Obj_0;
            assert(ms.len() == 2 && ms[0].0 == "type"@ && ms[1].0 == "text"@);
            assert(spec_decode_event_msg(j) == Some(m));
        },
        EventMsgV::AgentReasoningDelta { delta } => {
            let ms = j->Obj_0;
            assert(ms.len() == 2 && ms[0].0 == "type"@ && ms[1].0 == "delta"@);
            assert(spec_decode_event_msg(j) == Some(m));
        },
        EventMsgV::SessionConfigured { session_id, model, history_log_id, history_entry_count } => {
            let ms = j->Obj_0;
            assert(ms.len() == 5 && ms[0].0 == "type"@ && ms[1].0 == "session_id"@ && ms[2].0
                == "model"@ && ms[3].0 == "history_log_id"@ && ms[4].0 == "history_entry_count"@);
            assert(ms[4].1->UInt_0 == history_entry_count as u64);
            assert(ms[4].1->UInt_0 <= usize::MAX);
            assert(spec_decode_event_msg(j) == Some(m));
        },
        EventMsgV::McpToolCallBegin { call_id, server, tool, arguments } => {
            let ms = j->Obj_0;
            assert(ms.len() == 5 && ms[0].0 == "type"@ && ms[1].0 == "call_id"@ && ms[2].0
                == "server"@ && ms[3].0 == "tool"@ && ms[4].0 == "arguments"@);
            match arguments {
                Some(a) => {
                    assert(a != JsonV::Null);
                    assert(ms[4].1 == a);
                },
                None => {
                    assert(ms[4].1 == JsonV::Null);
                },
            }
            assert(spec_decode_event_msg(j) == Some(m));
        },
        EventMsgV::McpToolCallEnd { call_id, result } => {
            let ms = j->Obj_0;
            assert(ms.len() == 3 && ms[0].0 == "type"@ && ms[1].0 == "call_id"@ && ms[2].0
                == "result"@);
            match result {
                Ok(r) => {
                    lemma_str_list_round_trip(r.content);
                    let res = ms[2].1->Obj_0;
                    assert(res.len() == 1 && res[0].0 == "Ok"@);
                    let inner = res[0].1->Obj_0;
                    assert(inner.len() == 2 && inner[0].0 == "content"@ && inner[1].0
                        == "is_error"@);
                    assert(spec_dec_tool_result(ms[2].1) == Some(result));
                },
                Err(msg) => {
                    let res = ms[2].1->Obj_0;
                    assert(res.len() == 1 && res[0].0 == "Err"@ && res[0].1 is Str);
                    assert(res[0].0 != "Ok"@);
                    assert(spec_dec_tool_result(ms[2].1) == Some(result));
                },
            }
            assert(spec_decode_event_msg(j) == Some(m));
        },
        EventMsgV::ExecCommandBegin { call_id, command, cwd } => {
            lemma_str_list_round_trip(command);
            lemma_path_round_trip(cwd);
            let ms = j->Obj_0;
            assert(ms.len() == 4 && ms[0].0 == "type"@ && ms[1].0 == "call_id"@ && ms[2].0
                == "command"@ && ms[3].0 == "cwd"@);
            assert(spec_decode_event_msg(j) == Some(m));
        },
        EventMsgV::ExecCommandEnd { call_id, stdout, stderr, exit_code } => {
            let ms = j->Obj_0;
            assert(ms.len() == 5 && ms[0].0 == "type"@ && ms[1].0 == "call_id"@ && ms[2].0
                == "stdout"@ && ms[3].0 == "stderr"@ && ms[4].0 == "exit_code"@);
            assert(ms[4].1->Int_0 == exit_code as i64);
            assert(spec_decode_event_msg(j) == Some(m));
        },
        EventMsgV::ExecApprovalRequest { call_id, command, cwd, reason } => {
            lemma_str_list_round_trip(command);
            lemma_path_round_trip(cwd);
            let ms = j->Obj_0;
            match reason {
                Some(rs) => {
                    assert(ms =~= seq![
                        ("type"@, JsonV::Str("exec_approval_request"@)),
                        ("call_id"@, JsonV::Str(call_id)),
                        ("command"@, spec_enc_str_arr(command)),
                        ("cwd"@, spec_enc_path(cwd)),
                        ("reason"@, JsonV::Str(rs)),
                    ]);
                    assert(ms.len() == 5 && ms[4].0 == "reason"@ && ms[4].1 is Str);
                },
                None => {
                    assert(ms =~= seq![
                        ("type"@, JsonV::Str("exec_approval_request"@)),
                        ("call_id"@, JsonV::Str(call_id)),
                        ("command"@, spec_enc_str_arr(command)),
                        ("cwd"@, spec_enc_path(cwd)),
                    ]);
                    assert(ms.len() == 4);
                },
            }
            assert(spec_decode_event_msg(j) == Some(m));
        },
        EventMsgV::ApplyPatchApprovalRequest { call_id, changes, reason, grant_root } => {
            lemma_changes_round_trip(changes);
            let head = seq![
                ("type"@, JsonV::Str("apply_patch_approval_request"@)),
                ("call_id"@, JsonV::Str(call_id)),
                ("changes"@, spec_enc_changes(changes)),
            ];
            let ms = j->Obj_0;
            match (reason, grant_root) {
                (Some(rs), Some(gr)) => {
                    lemma_path_round_trip(gr);
                    assert(ms =~= head + seq![("reason"@, JsonV::Str(rs))] + seq![
                        ("grant_root"@, spec_enc_path(gr)),
                    ]);
                    assert(ms.len() == 5 && ms[3].0 == "reason"@ && ms[3].1 is Str && ms[4].0
                        == "grant_root"@);
                },
                (Some(rs), None) => {
                    assert(ms =~= head + seq![("reason"@, JsonV::Str(rs))]);
                    assert(ms.len() == 4 && ms[3].0 == "reason"@ && ms[3].1 is Str);
                },
                (None, Some(gr)) => {
                    lemma_path_round_trip(gr);
                    assert(ms =~= head + seq![("grant_root"@, spec_enc_path(gr))]);
                    assert(ms.len() == 4 && ms[3].0 == "grant_root"@);
                    assert(ms[3].0 != "reason"@);
                    assert(spec_enc_path(gr) is Obj);
                },
                (None, None) => {
                    assert(ms =~= head);
                    assert(ms.len() == 3);
                },
            }
            assert(ms[0].0 == "type"@ && ms[1].0 == "call_id"@ && ms[2].0 == "changes"@);
            assert(spec_decode_event_msg(j) == Some(m));
        },
        EventMsgV::BackgroundEvent { message } => {
            let ms = j->Obj_0;
            assert(ms.len() == 2 && ms[0].0 == "type"@ && ms[1].0 == "message"@);
            assert(spec_decode_event_msg(j) == Some(m));
        },
        EventMsgV::PatchApplyBegin { call_id, auto_approved, changes } => {
            lemma_changes_round_trip(changes);
            let ms = j->Obj_0;
            assert(ms.len() == 4 && ms[0].0 == "type"@ && ms[1].0 == "call_id"@ && ms[2].0
                == "auto_approved"@ && ms[3].0 == "changes"@);
            assert(spec_decode_event_msg(j) == Some(m));
        },
        EventMsgV::PatchApplyEnd { call_id, stdout, stderr, success } => {
            let ms = j->Obj_0;
            assert(ms.len() == 5 && ms[0].0 == "type"@ && ms[1].0 == "call_id"@ && ms[2].0
                == "stdout"@ && ms[3].0 == "stderr"@ && ms[4].0 == "success"@);
            assert(spec_decode_event_msg(j) == Some(m));
        },
        EventMsgV::GetHistoryEntryResponse { offset, log_id, entry } => {
            let head = seq![
                ("type"@, JsonV::Str("get_history_entry_response"@)),
                ("offset"@, JsonV::UInt(offset as u64)),
                ("log_id"@, JsonV::UInt(log_id)),
            ];
            let ms = j->Obj_0;
            match entry {
                Some(h) => {
                    assert(ms =~= head + seq![("entry"@, spec_enc_history_entry(h))]);
                    assert(ms.len() == 4 && ms[3].0 == "entry"@);
                    let hm = spec_enc_history_entry(h)->Obj_0;
                    assert(hm.len() == 3 && hm[0].0 == "text"@ && hm[1].0 == "log_id"@ && hm[2].0
                        == "offset"@);
                    assert(hm[2].1->UInt_0 == h.offset as u64);
                    assert(spec_dec_history_entry(spec_enc_history_entry(h)) == Some(h));
                },
                None => {
                    assert(ms =~= head);
                    assert(ms.len() == 3);
                },
            }
            assert(ms[0].0 == "type"@ && ms[1].0 == "offset"@ && ms[2].0 == "log_id"@);
            assert(ms[1].1->UInt_0 == offset as u64);
            assert(spec_decode_event_msg(j) == Some(m));
        },
        EventMsgV::ShutdownComplete => {
            let ms = j->Obj_0;
            assert(ms.len() == 1 && ms[0].0 == "type"@);
            assert(spec_decode_event_msg(j) == Some(m));
        },
    }
}

/// Decoding an encoded event returns the event, for every event whose
/// payload survives the wire.
pub proof fn lemma_event_round_trip(e: EventV)
    requires
        spec_event_msg_wire_safe(e.msg),
    ensures
        spec_decode_event(spec_encode_event(e)) == Some(e),
{
    reveal_strlit("id");
    reveal_strlit("msg");
    reveal_strlit("type");
    lemma_event_msg_round_trip(e.msg);
    assert(spec_encode_event_msg(e.msg) matches JsonV::Obj(ms) && ms[0].0 == "type"@);
}

// ---------------------------------------------------------------------------
// Executable encoding
// ---------------------------------------------------------------------------

pub(crate) fn jmember(key: &str, value: Json) -> (m: JsonMember)
    ensures
        m.key@ == key@,
        m.value == value,
{
    JsonMember { key: String::from_str(key), value }
}

pub(crate) fn jstr(s: &String) -> (r: Json)
    ensures
        r@ == JsonV::Str(s@),
{
    Json::Str(s.clone())
}

pub(crate) fn jstr_lit(s: &str) -> (r: Json)
    ensures
        r@ == JsonV::Str(s@),
{
    Json::Str(String::from_str(s))
}

pub(crate) fn enc_opt_str(o: &Option<String>) -> (r: Json)
    ensures
        r@ == spec_enc_opt_str(view_opt_str(*o)),
{
    match o {
        Some(s) => Json::Str(s.clone()),
        None => Json::Null,
    }
}

pub(crate) fn enc_opt_u64(o: &Option<u64>) -> (r: Json)
    ensures
        r@ == spec_enc_opt_u64(*o),
{
    match o {
        Some(n) => Json::UInt(*n),
        None => Json::Null,
    }
}

pub(crate) fn enc_str_arr(v: &Vec<String>) -> (r: Json)
    ensures
        r@ == spec_enc_str_arr(v.deep_view()),
{
    let mut items: Vec<Json> = Vec::new();
    let mut i: usize = 0;
    while i < v.len()
        invariant
            i <= v@.len(),
            items@.len() == i,
            forall|k: int| 0 <= k < i ==> items@[k]@ == JsonV::Str(v@[k]@),
        decreases v@.len() - i,
    {
        items.push(Json::Str(v[i].clone()));
        i = i + 1;
    }
    let r = Json::Arr(items);
    proof {
        assert forall|k: int| 0 <= k < v@.len() implies r@->Arr_0[k] == spec_enc_str_arr(
            v.deep_view(),
        )->Arr_0[k] by {
            assert(v.deep_view()[k] == v@[k]@);
        }
        assert(r@->Arr_0 =~= spec_enc_str_arr(v.deep_view())->Arr_0);
    }
    r
}

pub(crate) fn enc_path(p: &FsPath) -> (r: Json)
    ensures
        r@ == spec_enc_path(p@),
{
    let members = vec![
        jmember("absolute", Json::Bool(p.is_absolute())),
        jmember("parts", enc_str_arr(&p.parts)),
    ];
    let r = Json::Obj(members);
    proof {
        let ovs = r@->Obj_0;
        let svs = spec_enc_path(p@)->Obj_0;
        assert(ovs.len() == 2 && svs.len() == 2);
        assert(members@[0].key@ == "absolute"@);
        assert(members@[0].value@ == JsonV::Bool(p@.absolute));
        assert(ovs[0].0 == "absolute"@);
        assert(ovs[0].1 == JsonV::Bool(p@.absolute));
        assert(svs[0].0 == "absolute"@);
        assert(svs[0].1 == JsonV::Bool(p@.absolute));
        assert(ovs[0] == svs[0]);
        assert(ovs[1] == svs[1]);
        assert(ovs =~= svs);
    }
    r
}

fn enc_opt_path_or_null(o: &Option<FsPath>) -> (r: Json)
    ensures
        r@ == (match view_opt_path(*o) {
            Some(p) => spec_enc_path(p),
            None => JsonV::Null,
        }),
{
    match o {
        Some(p) => enc_path(p),
        None => Json::Null,
    }
}

fn enc_file_change(c: &FileChange) -> (r: Json)
    ensures
        r@ == spec_enc_file_change(c@),
{
    match c {
        FileChange::Add { content } => {
            let inner_members = vec![jmember("content", Json::Str(content.clone()))];
            let inner = Json::Obj(inner_members);
            proof {
                assert(inner_members@[0].key@ == "content"@);
                assert(inner_members@[0].value@ == JsonV::Str(content@));
                assert(inner@->Obj_0[0].0 == "content"@ && inner@->Obj_0[0].1 == JsonV::Str(
                    content@,
                ));
                assert(spec_enc_file_change(c@)->Obj_0[0].1->Obj_0[0].0 == "content"@
                    && spec_enc_file_change(c@)->Obj_0[0].1->Obj_0[0].1 == JsonV::Str(content@));
                assert(inner@->Obj_0 =~= spec_enc_file_change(c@)->Obj_0[0].1->Obj_0);
            }
            let ghost inner_view = inner@;
            let outer_members = vec![jmember("add", inner)];
            let r = Json::Obj(outer_members);
            proof {
                assert(outer_members@[0].key@ == "add"@);
                assert(outer_members@[0].value@ == inner_view);
                assert(r@->Obj_0[0].0 == "add"@ && r@->Obj_0[0].1 == inner_view);
                assert(spec_enc_file_change(c@)->Obj_0[0].0 == "add"@);
                assert(spec_enc_file_change(c@)->Obj_0[0].1 =~= inner_view);
                assert(r@->Obj_0 =~= spec_enc_file_change(c@)->Obj_0);
            }
            r
        },
        FileChange::Delete => jstr_lit("delete"),
        FileChange::Update { unified_diff, move_path } => {
            let inner_members = vec![
                jmember("unified_diff", Json::Str(unified_diff.clone())),
                jmember("move_path", enc_opt_path_or_null(move_path)),
            ];
            let ghost mp_view = (match move_path {
                Some(p) => spec_enc_path(p@),
                None => JsonV::Null,
            });
            let inner = Json::Obj(inner_members);
            proof {
                assert(inner_members@[0].key@ == "unified_diff"@);
                assert(inner_members@[0].value@ == JsonV::Str(unified_diff@));
                assert(inner_members@[1].key@ == "move_path"@);
                assert(inner_members@[1].value@ == mp_view);
                assert(inner@->Obj_0[0].0 == "unified_diff"@ && inner@->Obj_0[0].1 == JsonV::Str(
                    unified_diff@,
                ));
                assert(inner@->Obj_0[1].0 == "move_path"@ && inner@->Obj_0[1].1 == mp_view);
                assert(spec_enc_file_change(c@)->Obj_0[0].1->Obj_0[0].0 == "unified_diff"@
                    && spec_enc_file_change(c@)->Obj_0[0].1->Obj_0[0].1 == JsonV::Str(
                    unified_diff@,
                ));
                assert(spec_enc_file_change(c@)->Obj_0[0].1->Obj_0[1].0 == "move_path"@
                    && spec_enc_file_change(c@)->Obj_0[0].1->Obj_0[1].1 == mp_view);
                assert(inner@->Obj_0 =~= spec_enc_file_change(c@)->Obj_0[0].1->Obj_0);
            }
            let ghost inner_view = inner@;
            let outer_members = vec![jmember("update", inner)];
            let r = Json::Obj(outer_members);
            proof {
                assert(outer_members@[0].key@ == "update"@);
                assert(outer_members@[0].value@ == inner_view);
                assert(r@->Obj_0[0].0 == "update"@ && r@->Obj_0[0].1 == inner_view);
                assert(spec_enc_file_change(c@)->Obj_0[0].0 == "update"@);
                assert(spec_enc_file_change(c@)->Obj_0[0].1 =~= inner_view);
                assert(r@->Obj_0 =~= spec_enc_file_change(c@)->Obj_0);
            }
            r
        },
    }
}

pub(crate) fn enc_changes(cs: &Vec<FileChangeEntry>) -> (r: Json)
    ensures
        r@ == spec_enc_changes(cs.deep_view()),
{
    let mut items: Vec<Json> = Vec::new();
    let mut i: usize = 0;
    while i < cs.len()
        invariant
            i <= cs@.len(),
            items@.len() == i,
            forall|k: int|
                0 <= k < i ==> items@[k]@ == spec_enc_change_entry(cs@[k]@),
        decreases cs@.len() - i,
    {
        let c = &cs[i];
        let entry = Json::Obj(
            vec![jmember("path", enc_path(&c.path)), jmember("change", enc_file_change(&c.change))],
        );
        proof {
            assert(entry@->Obj_0 =~= spec_enc_change_entry(cs@[i as int]@)->Obj_0);
        }
        items.push(entry);
        i = i + 1;
    }
    let r = Json::Arr(items);
    proof {
        assert forall|k: int| 0 <= k < cs@.len() implies r@->Arr_0[k] == spec_enc_changes(
            cs.deep_view(),
        )->Arr_0[k] by {
            assert(cs.deep_view()[k] == cs@[k]@);
        }
        assert(r@->Arr_0 =~= spec_enc_changes(cs.deep_view())->Arr_0);
    }
    r
}

fn enc_history_entry(h: &HistoryEntry) -> (r: Json)
    ensures
        r@ == spec_enc_history_entry(h@),
{
    let members = vec![
        jmember("text", Json::Str(h.text.clone())),
        jmember("log_id", Json::UInt(h.log_id)),
        jmember("offset", Json::UInt(h.offset as u64)),
    ];
    let r = Json::Obj(members);
    proof {
        let ovs = r@->Obj_0;
        let svs = spec_enc_history_entry(h@)->Obj_0;
        assert(members@[0].key@ == "text"@ && members@[0].value@ == JsonV::Str(h.text@));
        assert(members@[1].key@ == "log_id"@ && members@[1].value@ == JsonV::UInt(h.log_id));
        assert(members@[2].key@ == "offset"@ && members@[2].value@ == JsonV::UInt(
            h.offset as u64,
        ));
        assert(ovs[0].0 == "text"@ && ovs[0].1 == JsonV::Str(h.text@));
        assert(ovs[1].0 == "log_id"@ && ovs[1].1 == JsonV::UInt(h.log_id));
        assert(ovs[2].0 == "offset"@ && ovs[2].1 == JsonV::UInt(h.offset as u64));
        assert(svs[0].0 == "text"@ && svs[0].1 == JsonV::Str(h.text@));
        assert(svs[1].0 == "log_id"@ && svs[1].1 == JsonV::UInt(h.log_id));
        assert(svs[2].0 == "offset"@ && svs[2].1 == JsonV::UInt(h.offset as u64));
        assert(ovs =~= svs);
    }
    r
}

/// Encodes an event payload into its canonical JSON tree.
pub fn encode_event_msg(m: &EventMsg) -> (r: Json)
    ensures
        r@ == spec_encode_event_msg(m@),
{
    match m {
        EventMsg::Error(e) => {
            let members = vec![
                jmember("type", jstr_lit("error")),
                jmember("message", jstr(&e.message)),
            ];
            let r = Json::Obj(members);
            proof {
                let ovs = r@->Obj_0;
                let svs = spec_encode_event_msg(m@)->Obj_0;
                assert(ovs.len() == 2 && svs.len() == 2);
                assert(members@[0].key@ == "type"@);
                assert(members@[0].value@ == JsonV::Str("error"@));
                assert(ovs[0].0 == "type"@ && ovs[0].1 == JsonV::Str("error"@));
                assert(svs[0].0 == "type"@ && svs[0].1 == JsonV::Str("error"@));
                assert(members@[1].key@ == "message"@);
                assert(members@[1].value@ == JsonV::Str(e.message@));
                assert(ovs[1].0 == "message"@ && ovs[1].1 == JsonV::Str(e.message@));
                assert(svs[1].0 == "message"@ && svs[1].1 == JsonV::Str(e.message@));
                assert(ovs =~= svs);
            }
            r
        },
        EventMsg::TaskStarted => {
            let members = vec![
                jmember("type", jstr_lit("task_started")),
            ];
            let r = Json::Obj(members);
            proof {
                let ovs = r@->Obj_0;
                let svs = spec_encode_event_msg(m@)->Obj_0;
                assert(ovs.len() == 1 && svs.len() == 1);
                assert(members@[0].key@ == "type"@);
                assert(members@[0].value@ == JsonV::Str("task_started"@));
                assert(ovs[0].0 == "type"@ && ovs[0].1 == JsonV::Str("task_started"@));
                assert(svs[0].0 == "type"@ && svs[0].1 == JsonV::Str("task_started"@));
                assert(ovs =~= svs);
            }
            r
        },
        EventMsg::TaskComplete(e) => {
            let members = vec![
                jmember("type", jstr_lit("task_complete")),
                jmember("last_agent_message", enc_opt_str(&e.last_agent_message)),
            ];
            let r = Json::Obj(members);
            proof {
                let ovs = r@->Obj_0;
                let svs = spec_encode_event_msg(m@)->Obj_0;
                assert(ovs.len() == 2 && svs.len() == 2);
                assert(members@[0].key@ == "type"@);
                assert(members@[0].value@ == JsonV::Str("task_complete"@));
                assert(ovs[0].0 == "type"@ && ovs[0].1 == JsonV::Str("task_complete"@));
                assert(svs[0].0 == "type"@ && svs[0].1 == JsonV::Str("task_complete"@));
                assert(members@[1].key@ == "last_agent_message"@);
                assert(members@[1].value@ == spec_enc_opt_str(view_opt_str(e.last_agent_message)));
                assert(ovs[1].0 == "last_agent_message"@ && ovs[1].1 == spec_enc_opt_str(view_opt_str(e.last_agent_message)));
                assert(svs[1].0 == "last_agent_message"@ && svs[1].1 == spec_enc_opt_str(view_opt_str(e.last_agent_message)));
                assert(ovs =~= svs);
            }
            r
        },
        EventMsg::TokenCount(u) => {
            let members = vec![
                jmember("type", jstr_lit("token_count")),
                jmember("input_tokens", Json::UInt(u.input_tokens)),
                jmember("cached_input_tokens", enc_opt_u64(&u.cached_input_tokens)),
                jmember("output_tokens", Json::UInt(u.output_tokens)),
                jmember("reasoning_output_tokens", enc_opt_u64(&u.reasoning_output_tokens)),
                jmember("total_tokens", Json::UInt(u.total_tokens)),
            ];
            let r = Json::Obj(members);
            proof {
                let ovs = r@->Obj_0;
                let svs = spec_encode_event_msg(m@)->Obj_0;
                assert(ovs.len() == 6 && svs.len() == 6);
                assert(members@[0].key@ == "type"@);
                assert(members@[0].value@ == JsonV::Str("token_count"@));
                assert(ovs[0].0 == "type"@ && ovs[0].1 == JsonV::Str("token_count"@));
                assert(svs[0].0 == "type"@ && svs[0].1 == JsonV::Str("token_count"@));
                assert(members@[1].key@ == "input_tokens"@);
                assert(members@[1].value@ == JsonV::UInt(u.input_tokens));
                assert(ovs[1].0 == "input_tokens"@ && ovs[1].1 == JsonV::UInt(u.input_tokens));
                assert(svs[1].0 == "input_tokens"@ && svs[1].1 == JsonV::UInt(u.input_tokens));
                assert(members@[2].key@ == "cached_input_tokens"@);
                assert(members@[2].value@ == spec_enc_opt_u64(u.cached_input_tokens));
                assert(ovs[2].0 == "cached_input_tokens"@ && ovs[2].1 == spec_enc_opt_u64(u.cached_input_tokens));
                assert(svs[2].0 == "cached_input_tokens"@ && svs[2].1 == spec_enc_opt_u64(u.cached_input_tokens));
                assert(members@[3].key@ == "output_tokens"@);
                assert(members@[3].value@ == JsonV::UInt(u.output_tokens));
                assert(ovs[3].0 == "output_tokens"@ && ovs[3].1 == JsonV::UInt(u.output_tokens));
                assert(svs[3].0 == "output_tokens"@ && svs[3].1 == JsonV::UInt(u.output_tokens));
                assert(members@[4].key@ == "reasoning_output_tokens"@);
                assert(members@[4].value@ == spec_enc_opt_u64(u.reasoning_output_tokens));
                assert(ovs[4].0 == "reasoning_output_tokens"@ && ovs[4].1 == spec_enc_opt_u64(u.reasoning_output_tokens));
                assert(svs[4].0 == "reasoning_output_tokens"@ && svs[4].1 == spec_enc_opt_u64(u.reasoning_output_tokens));
                assert(members@[5].key@ == "total_tokens"@);
                assert(members@[5].value@ == JsonV::UInt(u.total_tokens));
                assert(ovs[5].0 == "total_tokens"@ && ovs[5].1 == JsonV::UInt(u.total_tokens));
                assert(svs[5].0 == "total_tokens"@ && svs[5].1 == JsonV::UInt(u.total_tokens));
                assert(ovs =~= svs);
            }
            r
        },
        EventMsg::AgentMessage(e) => {
            let members = vec![
                jmember("type", jstr_lit("agent_message")),
                jmember("message", jstr(&e.message)),
            ];
            let r = Json::Obj(members);
            proof {
                let ovs = r@->Obj_0;
                let svs = spec_encode_event_msg(m@)->Obj_0;
                assert(ovs.len() == 2 && svs.len() == 2);
                assert(members@[0].key@ == "type"@);
                assert(members@[0].value@ == JsonV::Str("agent_message"@));
                assert(ovs[0].0 == "type"@ && ovs[0].1 == JsonV::Str("agent_message"@));
                assert(svs[0].0 == "type"@ && svs[0].1 == JsonV::Str("agent_message"@));
                assert(members@[1].key@ == "message"@);
                assert(members@[1].value@ == JsonV::Str(e.message@));
                assert(ovs[1].0 == "message"@ && ovs[1].1 == JsonV::Str(e.message@));
                assert(svs[1].0 == "message"@ && svs[1].1 == JsonV::Str(e.message@));
                assert(ovs =~= svs);
            }
            r
        },
        EventMsg::AgentMessageDelta(e) => {
            let members = vec![
                jmember("type", jstr_lit("agent_message_delta")),
                jmember("delta", jstr(&e.delta)),
            ];
            let r = Json::Obj(members);
            proof {
                let ovs = r@->Obj_0;
                let svs = spec_encode_event_msg(m@)->Obj_0;
                assert(ovs.len() == 2 && svs.len() == 2);
                assert(members@[0].key@ == "type"@);
                assert(members@[0].value@ == JsonV::Str("agent_message_delta"@));
                assert(ovs[0].0 == "type"@ && ovs[0].1 == JsonV::Str("agent_message_delta"@));
                assert(svs[0].0 == "type"@ && svs[0].1 == JsonV::Str("agent_message_delta"@));
                assert(members@[1].key@ == "delta"@);
                assert(members@[1].value@ == JsonV::Str(e.delta@));
                assert(ovs[1].0 == "delta"@ && ovs[1].1 == JsonV::Str(e.delta@));
                assert(svs[1].0 == "delta"@ && svs[1].1 == JsonV::Str(e.delta@));
                assert(ovs =~= svs);
            }
            r
        },
        EventMsg::AgentReasoning(e) => {
            let members = vec![
                jmember("type", jstr_lit("agent_reasoning")),
                jmember("text", jstr(&e.text)),
            ];
            let r = Json::Obj(members);
            proof {
                let ovs = r@->Obj_0;
                let svs = spec_encode_event_msg(m@)->Obj_0;
                assert(ovs.len() == 2 && svs.len() == 2);
                assert(members@[0].key@ == "type"@);
                assert(members@[0].value@ == JsonV::Str("agent_reasoning"@));
                assert(ovs[0].0 == "type"@ && ovs[0].1 == JsonV::Str("agent_reasoning"@));
                assert(svs[0].0 == "type"@ && svs[0].1 == JsonV::Str("agent_reasoning"@));
                assert(members@[1].key@ == "text"@);
                assert(members@[1].value@ == JsonV::Str(e.text@));
                assert(ovs[1].0 == "text"@ && ovs[1].1 == JsonV::Str(e.text@));
                assert(svs[1].0 == "text"@ && svs[1].1 == JsonV::Str(e.text@));
                assert(ovs =~= svs);
            }
            r
        },
        EventMsg::AgentReasoningDelta(e) => {
            let members = vec![
                jmember("type", jstr_lit("agent_reasoning_delta")),
                jmember("delta", jstr(&e.delta)),
            ];
            let r = Json::Obj(members);
            proof {
                let ovs = r@->Obj_0;
                let svs = spec_encode_event_msg(m@)->Obj_0;
                assert(ovs.len() == 2 && svs.len() == 2);
                assert(members@[0].key@ == "type"@);
                assert(members@[0].value@ == JsonV::Str("agent_reasoning_delta"@));
                assert(ovs[0].0 == "type"@ && ovs[0].1 == JsonV::Str("agent_reasoning_delta"@));
                assert(svs[0].0 == "type"@ && svs[0].1 == JsonV::Str("agent_reasoning_delta"@));
                assert(members@[1].key@ == "delta"@);
                assert(members@[1].value@ == JsonV::Str(e.delta@));
                assert(ovs[1].0 == "delta"@ && ovs[1].1 == JsonV::Str(e.delta@));
                assert(svs[1].0 == "delta"@ && svs[1].1 == JsonV::Str(e.delta@));
                assert(ovs =~= svs);
            }
            r
        },
        EventMsg::SessionConfigured(e) => {
            let members = vec![
                jmember("type", jstr_lit("session_configured")),
                jmember("session_id", jstr(&e.session_id)),
                jmember("model", jstr(&e.model)),
                jmember("history_log_id", Json::UInt(e.history_log_id)),
                jmember("history_entry_count", Json::UInt(e.history_entry_count as u64)),
            ];
            let r = Json::Obj(members);
            proof {
                let ovs = r@->Obj_0;
                let svs = spec_encode_event_msg(m@)->Obj_0;
                assert(ovs.len() == 5 && svs.len() == 5);
                assert(members@[0].key@ == "type"@);
                assert(members@[0].value@ == JsonV::Str("session_configured"@));
                assert(ovs[0].0 == "type"@ && ovs[0].1 == JsonV::Str("session_configured"@));
                assert(svs[0].0 == "type"@ && svs[0].1 == JsonV::Str("session_configured"@));
                assert(members@[1].key@ == "session_id"@);
                assert(members@[1].value@ == JsonV::Str(e.session_id@));
                assert(ovs[1].0 == "session_id"@ && ovs[1].1 == JsonV::Str(e.session_id@));
                assert(svs[1].0 == "session_id"@ && svs[1].1 == JsonV::Str(e.session_id@));
                assert(members@[2].key@ == "model"@);
                assert(members@[2].value@ == JsonV::Str(e.model@));
                assert(ovs[2].0 == "model"@ && ovs[2].1 == JsonV::Str(e.model@));
                assert(svs[2].0 == "model"@ && svs[2].1 == JsonV::Str(e.model@));
                assert(members@[3].key@ == "history_log_id"@);
                assert(members@[3].value@ == JsonV::UInt(e.history_log_id));
                assert(ovs[3].0 == "history_log_id"@ && ovs[3].1 == JsonV::UInt(e.history_log_id));
                assert(svs[3].0 == "history_log_id"@ && svs[3].1 == JsonV::UInt(e.history_log_id));
                assert(members@[4].key@ == "history_entry_count"@);
                assert(members@[4].value@ == JsonV::UInt(e.history_entry_count as u64));
                assert(ovs[4].0 == "history_entry_count"@ && ovs[4].1 == JsonV::UInt(e.history_entry_count as u64));
                assert(svs[4].0 == "history_entry_count"@ && svs[4].1 == JsonV::UInt(e.history_entry_count as u64));
                assert(ovs =~= svs);
            }
            r
        },
        EventMsg::McpToolCallBegin(e) => {
            let members = vec![
                jmember("type", jstr_lit("mcp_tool_call_begin")),
                jmember("call_id", jstr(&e.call_id)),
                jmember("server", jstr(&e.server)),
                jmember("tool", jstr(&e.tool)),
                jmember("arguments", (match &e.arguments { Some(a) => clone_json(a), None => Json::Null })),
            ];
            let r = Json::Obj(members);
            proof {
                let ovs = r@->Obj_0;
                let svs = spec_encode_event_msg(m@)->Obj_0;
                assert(ovs.len() == 5 && svs.len() == 5);
                assert(members@[0].key@ == "type"@);
                assert(members@[0].value@ == JsonV::Str("mcp_tool_call_begin"@));
                assert(ovs[0].0 == "type"@ && ovs[0].1 == JsonV::Str("mcp_tool_call_begin"@));
                assert(svs[0].0 == "type"@ && svs[0].1 == JsonV::Str("mcp_tool_call_begin"@));
                assert(members@[1].key@ == "call_id"@);
                assert(members@[1].value@ == JsonV::Str(e.call_id@));
                assert(ovs[1].0 == "call_id"@ && ovs[1].1 == JsonV::Str(e.call_id@));
                assert(svs[1].0 == "call_id"@ && svs[1].1 == JsonV::Str(e.call_id@));
                assert(members@[2].key@ == "server"@);
                assert(members@[2].value@ == JsonV::Str(e.server@));
                assert(ovs[2].0 == "server"@ && ovs[2].1 == JsonV::Str(e.server@));
                assert(svs[2].0 == "server"@ && svs[2].1 == JsonV::Str(e.server@));
                assert(members@[3].key@ == "tool"@);
                assert(members@[3].value@ == JsonV::Str(e.tool@));
                assert(ovs[3].0 == "tool"@ && ovs[3].1 == JsonV::Str(e.tool@));
                assert(svs[3].0 == "tool"@ && svs[3].1 == JsonV::Str(e.tool@));
                assert(members@[4].key@ == "arguments"@);
                assert(members@[4].value@ == (match e.arguments { Some(a) => a@, None => JsonV::Null }));
                assert(ovs[4].0 == "arguments"@ && ovs[4].1 == (match e.arguments { Some(a) => a@, None => JsonV::Null }));
                assert(svs[4].0 == "arguments"@ && svs[4].1 == (match e.arguments { Some(a) => a@, None => JsonV::Null }));
                assert(ovs =~= svs);
            }
            r
        },
        EventMsg::ExecCommandBegin(e) => {
            let members = vec![
                jmember("type", jstr_lit("exec_command_begin")),
                jmember("call_id", jstr(&e.call_id)),
                jmember("command", enc_str_arr(&e.command)),
                jmember("cwd", enc_path(&e.cwd)),
            ];
            let r = Json::Obj(members);
            proof {
                let ovs = r@->Obj_0;
                let svs = spec_encode_event_msg(m@)->Obj_0;
                assert(ovs.len() == 4 && svs.len() == 4);
                assert(members@[0].key@ == "type"@);
                assert(members@[0].value@ == JsonV::Str("exec_command_begin"@));
                assert(ovs[0].0 == "type"@ && ovs[0].1 == JsonV::Str("exec_command_begin"@));
                assert(svs[0].0 == "type"@ && svs[0].1 == JsonV::Str("exec_command_begin"@));
                assert(members@[1].key@ == "call_id"@);
                assert(members@[1].value@ == JsonV::Str(e.call_id@));
                assert(ovs[1].0 == "call_id"@ && ovs[1].1 == JsonV::Str(e.call_id@));
                assert(svs[1].0 == "call_id"@ && svs[1].1 == JsonV::Str(e.call_id@));
                assert(members@[2].key@ == "command"@);
                assert(members@[2].value@ == spec_enc_str_arr(e.command.deep_view()));
                assert(ovs[2].0 == "command"@ && ovs[2].1 == spec_enc_str_arr(e.command.deep_view()));
                assert(svs[2].0 == "command"@ && svs[2].1 == spec_enc_str_arr(e.command.deep_view()));
                assert(members@[3].key@ == "cwd"@);
                assert(members@[3].value@ == spec_enc_path(e.cwd@));
                assert(ovs[3].0 == "cwd"@ && ovs[3].1 == spec_enc_path(e.cwd@));
                assert(svs[3].0 == "cwd"@ && svs[3].1 == spec_enc_path(e.cwd@));
                assert(ovs =~= svs);
            }
            r
        },
        EventMsg::ExecCommandEnd(e) => {
            let members = vec![
                jmember("type", jstr_lit("exec_command_end")),
                jmember("call_id", jstr(&e.call_id)),
                jmember("stdout", jstr(&e.stdout)),
                jmember("stderr", jstr(&e.stderr)),
                jmember("exit_code", Json::Int(e.exit_code as i64)),
            ];
            let r = Json::Obj(members);
            proof {
                let ovs = r@->Obj_0;
                let svs = spec_encode_event_msg(m@)->Obj_0;
                assert(ovs.len() == 5 && svs.len() == 5);
                assert(members@[0].key@ == "type"@);
                assert(members@[0].value@ == JsonV::Str("exec_command_end"@));
                assert(ovs[0].0 == "type"@ && ovs[0].1 == JsonV::Str("exec_command_end"@));
                assert(svs[0].0 == "type"@ && svs[0].1 == JsonV::Str("exec_command_end"@));
                assert(members@[1].key@ == "call_id"@);
                assert(members@[1].value@ == JsonV::Str(e.call_id@));
                assert(ovs[1].0 == "call_id"@ && ovs[1].1 == JsonV::Str(e.call_id@));
                assert(svs[1].0 == "call_id"@ && svs[1].1 == JsonV::Str(e.call_id@));
                assert(members@[2].key@ == "stdout"@);
                assert(members@[2].value@ == JsonV::Str(e.stdout@));
                assert(ovs[2].0 == "stdout"@ && ovs[2].1 == JsonV::Str(e.stdout@));
                assert(svs[2].0 == "stdout"@ && svs[2].1 == JsonV::Str(e.stdout@));
                assert(members@[3].key@ == "stderr"@);
                assert(members@[3].value@ == JsonV::Str(e.stderr@));
                assert(ovs[3].0 == "stderr"@ && ovs[3].1 == JsonV::Str(e.stderr@));
                assert(svs[3].0 == "stderr"@ && svs[3].1 == JsonV::Str(e.stderr@));
                assert(members@[4].key@ == "exit_code"@);
                assert(members@[4].value@ == JsonV::Int(e.exit_code as i64));
                assert(ovs[4].0 == "exit_code"@ && ovs[4].1 == JsonV::Int(e.exit_code as i64));
                assert(svs[4].0 == "exit_code"@ && svs[4].1 == JsonV::Int(e.exit_code as i64));
                assert(ovs =~= svs);
            }
            r
        },
        EventMsg::BackgroundEvent(e) => {
            let members = vec![
                jmember("type", jstr_lit("background_event")),
                jmember("message", jstr(&e.message)),
            ];
            let r = Json::Obj(members);
            proof {
                let ovs = r@->Obj_0;
                let svs = spec_encode_event_msg(m@)->Obj_0;
                assert(ovs.len() == 2 && svs.len() == 2);
                assert(members@[0].key@ == "type"@);
                assert(members@[0].value@ == JsonV::Str("background_event"@));
                assert(ovs[0].0 == "type"@ && ovs[0].1 == JsonV::Str("background_event"@));
                assert(svs[0].0 == "type"@ && svs[0].1 == JsonV::Str("background_event"@));
                assert(members@[1].key@ == "message"@);
                assert(members@[1].value@ == JsonV::Str(e.message@));
                assert(ovs[1].0 == "message"@ && ovs[1].1 == JsonV::Str(e.message@));
                assert(svs[1].0 == "message"@ && svs[1].1 == JsonV::Str(e.message@));
                assert(ovs =~= svs);
            }
            r
        },
        EventMsg::PatchApplyBegin(e) => {
            let members = vec![
                jmember("type", jstr_lit("patch_apply_begin")),
                jmember("call_id", jstr(&e.call_id)),
                jmember("auto_approved", Json::Bool(e.auto_approved)),
                jmember("changes", enc_changes(&e.changes)),
            ];
            let r = Json::Obj(members);
            proof {
                let ovs = r@->Obj_0;
                let svs = spec_encode_event_msg(m@)->Obj_0;
                assert(ovs.len() == 4 && svs.len() == 4);
                assert(members@[0].key@ == "type"@);
                assert(members@[0].value@ == JsonV::Str("patch_apply_begin"@));
                assert(ovs[0].0 == "type"@ && ovs[0].1 == JsonV::Str("patch_apply_begin"@));
                assert(svs[0].0 == "type"@ && svs[0].1 == JsonV::Str("patch_apply_begin"@));
                assert(members@[1].key@ == "call_id"@);
                assert(members@[1].value@ == JsonV::Str(e.call_id@));
                assert(ovs[1].0 == "call_id"@ && ovs[1].1 == JsonV::Str(e.call_id@));
                assert(svs[1].0 == "call_id"@ && svs[1].1 == JsonV::Str(e.call_id@));
                assert(members@[2].key@ == "auto_approved"@);
                assert(members@[2].value@ == JsonV::Bool(e.auto_approved));
                assert(ovs[2].0 == "auto_approved"@ && ovs[2].1 == JsonV::Bool(e.auto_approved));
                assert(svs[2].0 == "auto_approved"@ && svs[2].1 == JsonV::Bool(e.auto_approved));
                assert(members@[3].key@ == "changes"@);
                assert(members@[3].value@ == spec_enc_changes(e.changes.deep_view()));
                assert(ovs[3].0 == "changes"@ && ovs[3].1 == spec_enc_changes(e.changes.deep_view()));
                assert(svs[3].0 == "changes"@ && svs[3].1 == spec_enc_changes(e.changes.deep_view()));
                assert(ovs =~= svs);
            }
            r
        },
        EventMsg::PatchApplyEnd(e) => {
            let members = vec![
                jmember("type", jstr_lit("patch_apply_end")),
                jmember("call_id", jstr(&e.call_id)),
                jmember("stdout", jstr(&e.stdout)),
                jmember("stderr", jstr(&e.stderr)),
                jmember("success", Json::Bool(e.success)),
            ];
            let r = Json::Obj(members);
            proof {
                let ovs = r@->Obj_0;
                let svs = spec_encode_event_msg(m@)->Obj_0;
                assert(ovs.len() == 5 && svs.len() == 5);
                assert(members@[0].key@ == "type"@);
                assert(members@[0].value@ == JsonV::Str("patch_apply_end"@));
                assert(ovs[0].0 == "type"@ && ovs[0].1 == JsonV::Str("patch_apply_end"@));
                assert(svs[0].0 == "type"@ && svs[0].1 == JsonV::Str("patch_apply_end"@));
                assert(members@[1].key@ == "call_id"@);
                assert(members@[1].value@ == JsonV::Str(e.call_id@));
                assert(ovs[1].0 == "call_id"@ && ovs[1].1 == JsonV::Str(e.call_id@));
                assert(svs[1].0 == "call_id"@ && svs[1].1 == JsonV::Str(e.call_id@));
                assert(members@[2].key@ == "stdout"@);
                assert(members@[2].value@ == JsonV::Str(e.stdout@));
                assert(ovs[2].0 == "stdout"@ && ovs[2].1 == JsonV::Str(e.stdout@));
                assert(svs[2].0 == "stdout"@ && svs[2].1 == JsonV::Str(e.stdout@));
                assert(members@[3].key@ == "stderr"@);
                assert(members@[3].value@ == JsonV::Str(e.stderr@));
                assert(ovs[3].0 == "stderr"@ && ovs[3].1 == JsonV::Str(e.stderr@));
                assert(svs[3].0 == "stderr"@ && svs[3].1 == JsonV::Str(e.stderr@));
                assert(members@[4].key@ == "success"@);
                assert(members@[4].value@ == JsonV::Bool(e.success));
                assert(ovs[4].0 == "success"@ && ovs[4].1 == JsonV::Bool(e.success));
                assert(svs[4].0 == "success"@ && svs[4].1 == JsonV::Bool(e.success));
                assert(ovs =~= svs);
            }
            r
        },
        EventMsg::ShutdownComplete => {
            let members = vec![
                jmember("type", jstr_lit("shutdown_complete")),
            ];
            let r = Json::Obj(members);
            proof {
                let ovs = r@->Obj_0;
                let svs = spec_encode_event_msg(m@)->Obj_0;
                assert(ovs.len() == 1 && svs.len() == 1);
                assert(members@[0].key@ == "type"@);
                assert(members@[0].value@ == JsonV::Str("shutdown_complete"@));
                assert(ovs[0].0 == "type"@ && ovs[0].1 == JsonV::Str("shutdown_complete"@));
                assert(svs[0].0 == "type"@ && svs[0].1 == JsonV::Str("shutdown_complete"@));
                assert(ovs =~= svs);
            }
            r
        },
        EventMsg::McpToolCallEnd(e) => {
            let ghost sres = (match &e.result {
                Ok(rr) => JsonV::Obj(
                    seq![
                        (
                            "Ok"@,
                            JsonV::Obj(
                                seq![
                                    ("content"@, spec_enc_str_arr(rr.content.deep_view())),
                                    (
                                        "is_error"@,
                                        match rr.is_error {
                                            Some(b) => JsonV::Bool(b),
                                            None => JsonV::Null,
                                        },
                                    ),
                                ],
                            ),
                        ),
                    ],
                ),
                Err(msg) => JsonV::Obj(seq![("Err"@, JsonV::Str(msg@))]),
            });
            let result_json = match &e.result {
                Ok(res) => {
                    let inner_members = vec![
                        jmember("content", enc_str_arr(&res.content)),
                        jmember(
                            "is_error",
                            match res.is_error {
                                Some(b) => Json::Bool(b),
                                None => Json::Null,
                            },
                        ),
                    ];
                    let inner = Json::Obj(inner_members);
                    proof {
                        let ivs = inner@->Obj_0;
                        let sivs = sres->Obj_0[0].1->Obj_0;
                        assert(inner_members@[0].key@ == "content"@);
                        assert(inner_members@[0].value@ == spec_enc_str_arr(
                            res.content.deep_view(),
                        ));
                        assert(inner_members@[1].key@ == "is_error"@);
                        assert(ivs[0].0 == "content"@ && ivs[0].1 == spec_enc_str_arr(
                            res.content.deep_view(),
                        ));
                        assert(ivs[1].0 == "is_error"@ && ivs[1].1 == (match res.is_error {
                            Some(b) => JsonV::Bool(b),
                            None => JsonV::Null,
                        }));
                        assert(sivs[0].0 == "content"@ && sivs[0].1 == spec_enc_str_arr(
                            res.content.deep_view(),
                        ));
                        assert(sivs[1].0 == "is_error"@ && sivs[1].1 == (match res.is_error {
                            Some(b) => JsonV::Bool(b),
                            None => JsonV::Null,
                        }));
                        assert(ivs =~= sivs);
                    }
                    let ghost inner_view = inner@;
                    let ok_members = vec![jmember("Ok", inner)];
                    let rj = Json::Obj(ok_members);
                    proof {
                        let rvs = rj@->Obj_0;
                        assert(ok_members@[0].key@ == "Ok"@);
                        assert(ok_members@[0].value@ == inner_view);
                        assert(rvs[0].0 == "Ok"@ && rvs[0].1 == inner_view);
                        assert(sres->Obj_0[0].0 == "Ok"@);
                        assert(sres->Obj_0[0].1 =~= inner_view);
                        assert(rvs =~= sres->Obj_0);
                        assert(rj@ =~= sres);
                    }
                    rj
                },
                Err(msg) => {
                    let err_members = vec![jmember("Err", jstr(msg))];
                    let rj = Json::Obj(err_members);
                    proof {
                        let rvs = rj@->Obj_0;
                        assert(err_members@[0].key@ == "Err"@);
                        assert(err_members@[0].value@ == JsonV::Str(msg@));
                        assert(rvs[0].0 == "Err"@ && rvs[0].1 == JsonV::Str(msg@));
                        assert(sres->Obj_0[0].0 == "Err"@ && sres->Obj_0[0].1 == JsonV::Str(
                            msg@,
                        ));
                        assert(rvs =~= sres->Obj_0);
                        assert(rj@ =~= sres);
                    }
                    rj
                },
            };
            let members = vec![
                jmember("type", jstr_lit("mcp_tool_call_end")),
                jmember("call_id", jstr(&e.call_id)),
                jmember("result", result_json),
            ];
            let r = Json::Obj(members);
            proof {
                let ovs = r@->Obj_0;
                let svs = spec_encode_event_msg(m@)->Obj_0;
                assert(ovs.len() == 3 && svs.len() == 3);
                assert(members@[0].key@ == "type"@);
                assert(members@[1].key@ == "call_id"@);
                assert(members@[2].key@ == "result"@);
                assert(members@[2].value@ == sres);
                assert(ovs[0].0 == "type"@ && ovs[0].1 == JsonV::Str("mcp_tool_call_end"@));
                assert(svs[0].0 == "type"@ && svs[0].1 == JsonV::Str("mcp_tool_call_end"@));
                assert(ovs[1].0 == "call_id"@ && ovs[1].1 == JsonV::Str(e.call_id@));
                assert(svs[1].0 == "call_id"@ && svs[1].1 == JsonV::Str(e.call_id@));
                assert(ovs[2].0 == "result"@ && ovs[2].1 == sres);
                match &e.result {
                    Ok(rr) => {
                        assert(svs[2].0 == "result"@ && svs[2].1 == sres);
                    },
                    Err(msg) => {
                        assert(svs[2].0 == "result"@ && svs[2].1 == sres);
                    },
                }
                assert(ovs =~= svs);
            }
            r
        },
        EventMsg::ExecApprovalRequest(e) => {
            let mut members = vec![
                jmember("type", jstr_lit("exec_approval_request")),
                jmember("call_id", jstr(&e.call_id)),
                jmember("command", enc_str_arr(&e.command)),
                jmember("cwd", enc_path(&e.cwd)),
            ];
            proof {
                assert(members@[0].key@ == "type"@ && members@[0].value@ == JsonV::Str(
                    "exec_approval_request"@,
                ));
                assert(members@[1].key@ == "call_id"@ && members@[1].value@ == JsonV::Str(
                    e.call_id@,
                ));
                assert(members@[2].key@ == "command"@ && members@[2].value@ == spec_enc_str_arr(
                    e.command.deep_view(),
                ));
                assert(members@[3].key@ == "cwd"@ && members@[3].value@ == spec_enc_path(e.cwd@));
            }
            let ghost base = members@;
            if let Some(reason) = &e.reason {
                members.push(jmember("reason", jstr(reason)));
            }
            let r = Json::Obj(members);
            proof {
                let ovs = r@->Obj_0;
                let svs = spec_encode_event_msg(m@)->Obj_0;
                let head = seq![
                    ("type"@, JsonV::Str("exec_approval_request"@)),
                    ("call_id"@, JsonV::Str(e.call_id@)),
                    ("command"@, spec_enc_str_arr(e.command.deep_view())),
                    ("cwd"@, spec_enc_path(e.cwd@)),
                ];
                match &e.reason {
                    Some(rs) => {
                        assert(members@[4].key@ == "reason"@ && members@[4].value@ == JsonV::Str(
                            rs@,
                        ));
                        assert(ovs.len() == 5);
                        assert(ovs[0].0 == "type"@ && ovs[0].1 == JsonV::Str(
                            "exec_approval_request"@,
                        ));
                        assert(ovs[1].0 == "call_id"@ && ovs[1].1 == JsonV::Str(e.call_id@));
                        assert(ovs[2].0 == "command"@ && ovs[2].1 == spec_enc_str_arr(
                            e.command.deep_view(),
                        ));
                        assert(ovs[3].0 == "cwd"@ && ovs[3].1 == spec_enc_path(e.cwd@));
                        assert(ovs[4].0 == "reason"@ && ovs[4].1 == JsonV::Str(rs@));
                        assert(svs =~= head + seq![("reason"@, JsonV::Str(rs@))]);
                        assert(ovs =~= svs);
                    },
                    None => {
                        assert(ovs.len() == 4);
                        assert(ovs[0].0 == "type"@ && ovs[0].1 == JsonV::Str(
                            "exec_approval_request"@,
                        ));
                        assert(ovs[1].0 == "call_id"@ && ovs[1].1 == JsonV::Str(e.call_id@));
                        assert(ovs[2].0 == "command"@ && ovs[2].1 == spec_enc_str_arr(
                            e.command.deep_view(),
                        ));
                        assert(ovs[3].0 == "cwd"@ && ovs[3].1 == spec_enc_path(e.cwd@));
                        assert(svs =~= head);
                        assert(ovs =~= svs);
                    },
                }
            }
            r
        },
        EventMsg::ApplyPatchApprovalRequest(e) => {
            let mut members = vec![
                jmember("type", jstr_lit("apply_patch_approval_request")),
                jmember("call_id", jstr(&e.call_id)),
                jmember("changes", enc_changes(&e.changes)),
            ];
            proof {
                assert(members@[0].key@ == "type"@ && members@[0].value@ == JsonV::Str(
                    "apply_patch_approval_request"@,
                ));
                assert(members@[1].key@ == "call_id"@ && members@[1].value@ == JsonV::Str(
                    e.call_id@,
                ));
                assert(members@[2].key@ == "changes"@ && members@[2].value@ == spec_enc_changes(
                    e.changes.deep_view(),
                ));
            }
            if let Some(reason) = &e.reason {
                members.push(jmember("reason", jstr(reason)));
            }
            if let Some(root) = &e.grant_root {
                members.push(jmember("grant_root", enc_path(root)));
            }
            let r = Json::Obj(members);
            proof {
                let ovs = r@->Obj_0;
                let svs = spec_encode_event_msg(m@)->Obj_0;
                let head = seq![
                    ("type"@, JsonV::Str("apply_patch_approval_request"@)),
                    ("call_id"@, JsonV::Str(e.call_id@)),
                    ("changes"@, spec_enc_changes(e.changes.deep_view())),
                ];
                assert(ovs[0].0 == "type"@ && ovs[0].1 == JsonV::Str(
                    "apply_patch_approval_request"@,
                ));
                assert(ovs[1].0 == "call_id"@ && ovs[1].1 == JsonV::Str(e.call_id@));
                assert(ovs[2].0 == "changes"@ && ovs[2].1 == spec_enc_changes(
                    e.changes.deep_view(),
                ));
                match (&e.reason, &e.grant_root) {
                    (Some(rs), Some(gr)) => {
                        assert(members@[3].key@ == "reason"@ && members@[3].value@ == JsonV::Str(
                            rs@,
                        ));
                        assert(members@[4].key@ == "grant_root"@ && members@[4].value@
                            == spec_enc_path(gr@));
                        assert(ovs.len() == 5);
                        assert(ovs[3].0 == "reason"@ && ovs[3].1 == JsonV::Str(rs@));
                        assert(ovs[4].0 == "grant_root"@ && ovs[4].1 == spec_enc_path(gr@));
                        assert(svs =~= head + seq![("reason"@, JsonV::Str(rs@))] + seq![
                            ("grant_root"@, spec_enc_path(gr@)),
                        ]);
                        assert(ovs =~= svs);
                    },
                    (Some(rs), None) => {
                        assert(members@[3].key@ == "reason"@ && members@[3].value@ == JsonV::Str(
                            rs@,
                        ));
                        assert(ovs.len() == 4);
                        assert(ovs[3].0 == "reason"@ && ovs[3].1 == JsonV::Str(rs@));
                        assert(svs =~= head + seq![("reason"@, JsonV::Str(rs@))]);
                        assert(ovs =~= svs);
                    },
                    (None, Some(gr)) => {
                        assert(members@[3].key@ == "grant_root"@ && members@[3].value@
                            == spec_enc_path(gr@));
                        assert(ovs.len() == 4);
                        assert(ovs[3].0 == "grant_root"@ && ovs[3].1 == spec_enc_path(gr@));
                        assert(svs =~= head + seq![("grant_root"@, spec_enc_path(gr@))]);
                        assert(ovs =~= svs);
                    },
                    (None, None) => {
                        assert(ovs.len() == 3);
                        assert(svs =~= head);
                        assert(ovs =~= svs);
                    },
                }
            }
            r
        },
        EventMsg::GetHistoryEntryResponse(e) => {
            let mut members = vec![
                jmember("type", jstr_lit("get_history_entry_response")),
                jmember("offset", Json::UInt(e.offset as u64)),
                jmember("log_id", Json::UInt(e.log_id)),
            ];
            proof {
                assert(members@[0].key@ == "type"@ && members@[0].value@ == JsonV::Str(
                    "get_history_entry_response"@,
                ));
                assert(members@[1].key@ == "offset"@ && members@[1].value@ == JsonV::UInt(
                    e.offset as u64,
                ));
                assert(members@[2].key@ == "log_id"@ && members@[2].value@ == JsonV::UInt(
                    e.log_id,
                ));
            }
            if let Some(h) = &e.entry {
                members.push(jmember("entry", enc_history_entry(h)));
            }
            let r = Json::Obj(members);
            proof {
                let ovs = r@->Obj_0;
                let svs = spec_encode_event_msg(m@)->Obj_0;
                let head = seq![
                    ("type"@, JsonV::Str("get_history_entry_response"@)),
                    ("offset"@, JsonV::UInt(e.offset as u64)),
                    ("log_id"@, JsonV::UInt(e.log_id)),
                ];
                assert(ovs[0].0 == "type"@ && ovs[0].1 == JsonV::Str(
                    "get_history_entry_response"@,
                ));
                assert(ovs[1].0 == "offset"@ && ovs[1].1 == JsonV::UInt(e.offset as u64));
                assert(ovs[2].0 == "log_id"@ && ovs[2].1 == JsonV::UInt(e.log_id));
                match &e.entry {
                    Some(h) => {
                        assert(members@[3].key@ == "entry"@ && members@[3].value@
                            == spec_enc_history_entry(h@));
                        assert(ovs.len() == 4);
                        assert(ovs[3].0 == "entry"@ && ovs[3].1 == spec_enc_history_entry(h@));
                        assert(svs =~= head + seq![("entry"@, spec_enc_history_entry(h@))]);
                        assert(ovs =~= svs);
                    },
                    None => {
                        assert(ovs.len() == 3);
                        assert(svs =~= head);
                        assert(ovs =~= svs);
                    },
                }
            }
            r
        },
    }
}

/// Clones a JSON tree.
#[verifier::loop_isolation(false)]
pub fn clone_json(j: &Json) -> (r: Json)
    ensures
        r@ == j@,
    decreases j,
{
    match j {
        Json::Null => Json::Null,
        Json::Bool(b) => Json::Bool(*b),
        Json::UInt(n) => Json::UInt(*n),
        Json::Int(n) => Json::Int(*n),
        Json::Str(s) => Json::Str(s.clone()),
        Json::Arr(items) => {
            let mut out: Vec<Json> = Vec::new();
            let mut i: usize = 0;
            while i < items.len()
                invariant
                    i <= items@.len(),
                    out@.len() == i,
                    forall|k: int| 0 <= k < i ==> out@[k]@ == items@[k]@,
                decreases items@.len() - i,
            {
                proof {
                    assert(decreases_to!(*j => items@[i as int]));
                }
                out.push(clone_json(&items[i]));
                i = i + 1;
            }
            let r = Json::Arr(out);
            proof {
                assert(r@->Arr_0 =~= j@->Arr_0);
            }
            r
        },
        Json::Obj(members) => {
            let mut out: Vec<JsonMember> = Vec::new();
            let mut i: usize = 0;
            while i < members.len()
                invariant
                    i <= members@.len(),
                    out@.len() == i,
                    forall|k: int|
                        0 <= k < i ==> out@[k].key@ == members@[k].key@ && out@[k].value@
                            == members@[k].value@,
                decreases members@.len() - i,
            {
                proof {
                    assert(decreases_to!(*j => members@[i as int].value));
                }
                let mm = &members[i];
                out.push(JsonMember { key: mm.key.clone(), value: clone_json(&mm.value) });
                i = i + 1;
            }
            let r = Json::Obj(out);
            proof {
                assert(r@->Obj_0 =~= j@->Obj_0);
            }
            r
        },
    }
}

/// Encodes an event into its canonical JSON tree.
pub fn encode_event(e: &Event) -> (r: Json)
    ensures
        r@ == spec_encode_event(e@),
{
    let r = Json::Obj(
        vec![jmember("id", jstr(&e.id)), jmember("msg", encode_event_msg(&e.msg))],
    );
    proof {
        assert(r@->Obj_0 =~= spec_encode_event(e@)->Obj_0);
    }
    r
}

// ---------------------------------------------------------------------------
// Executable decoding
// ---------------------------------------------------------------------------

pub(crate) fn key_is(m: &JsonMember, k: &str) -> (r: bool)
    ensures
        r == (m.key@ == k@),
{
    m.key == String::from_str(k)
}

/// Finds the first member with the given key, as `spec_obj_get` does.
pub(crate) fn obj_get_value<'a>(members: &'a Vec<JsonMember>, key: &str) -> (r: Option<&'a Json>)
    ensures
        match r {
            Some(v) => crate::json::spec_obj_get(
                crate::json::spec_members_view(members@),
                key@,
            ) == Some(v@),
            None => crate::json::spec_obj_get(
                crate::json::spec_members_view(members@),
                key@,
            ) is None,
        },
{
    let ghost mv = crate::json::spec_members_view(members@);
    let mut i: usize = 0;
    proof {
        assert(mv.skip(0) =~= mv);
    }
    while i < members.len()
        invariant
            mv == crate::json::spec_members_view(members@),
            i <= members@.len(),
            mv.len() == members@.len(),
            crate::json::spec_obj_get(mv, key@) == crate::json::spec_obj_get(
                mv.skip(i as int),
                key@,
            ),
        decreases members@.len() - i,
    {
        proof {
            assert(mv.skip(i as int)[0] == mv[i as int]);
            assert(mv.skip(i as int).drop_first() =~= mv.skip(i + 1 as int));
        }
        if key_is(&members[i], key) {
            return Some(&members[i].value);
        }
        i = i + 1;
    }
    proof {
        assert(mv.skip(members@.len() as int) =~= Seq::<(Seq<char>, JsonV)>::empty());
    }
    None
}

pub(crate) fn dec_opt_str(v: &Json) -> (r: Option<Option<String>>)
    ensures
        match r {
            Some(o) => spec_dec_opt_str(v@) == Some(view_opt_str(o)),
            None => spec_dec_opt_str(v@) is None,
        },
{
    match v {
        Json::Null => Some(None),
        Json::Str(s) => Some(Some(s.clone())),
        _ => None,
    }
}

pub(crate) fn dec_opt_u64(v: &Json) -> (r: Option<Option<u64>>)
    ensures
        match r {
            Some(o) => spec_dec_opt_u64(v@) == Some(o),
            None => spec_dec_opt_u64(v@) is None,
        },
{
    match v {
        Json::Null => Some(None),
        Json::UInt(n) => Some(Some(*n)),
        _ => None,
    }
}

pub(crate) fn dec_str_arr(v: &Json) -> (r: Option<Vec<String>>)
    ensures
        match r {
            Some(ss) => spec_dec_str_arr(v@) == Some(ss.deep_view()),
            None => spec_dec_str_arr(v@) is None,
        },
{
    let items = match v {
        Json::Arr(items) => items,
        _ => {
            proof {
                assert(!(v@ is Arr));
            }
            return None;
        },
    };
    let ghost ivs = v@->Arr_0;
    proof {
        assert(ivs.len() == items@.len());
        assert forall|k: int| 0 <= k < ivs.len() implies ivs[k] == items@[k]@ by {}
    }
    let mut out: Vec<String> = Vec::new();
    let mut i: usize = 0;
    while i < items.len()
        invariant
            v@ is Arr && v@->Arr_0 == ivs,
            i <= items@.len(),
            ivs.len() == items@.len(),
            forall|k: int| 0 <= k < ivs.len() ==> ivs[k] == items@[k]@,
            spec_dec_str_list(ivs.take(i as int)) == Some(out.deep_view()),
        decreases items@.len() - i,
    {
        let ghost pre = out.deep_view();
        match &items[i] {
            Json::Str(t) => {
                out.push(t.clone());
            },
            _ => {
                proof {
                    assert(!(items@[i as int]@ is Str));
                    lemma_str_list_prefix_none(ivs, i as int);
                }
                return None;
            },
        }
        proof {
            assert(ivs.take(i + 1 as int).drop_last() =~= ivs.take(i as int));
            assert(ivs.take(i + 1 as int).last() == ivs[i as int]);
            assert forall|k: int| 0 <= k < out.deep_view().len() implies out.deep_view()[k]
                == pre.push(items@[i as int]@->Str_0)[k] by {
                assert(out.deep_view()[k] == out@[k]@);
            }
            assert(out.deep_view() =~= pre.push(items@[i as int]@->Str_0));
        }
        i = i + 1;
    }
    proof {
        assert(ivs.take(ivs.len() as int) =~= ivs);
    }
    Some(out)
}

/// A list with a non-string element at or after position `i` never decodes.
proof fn lemma_str_list_prefix_none(items: Seq<JsonV>, i: int)
    requires
        0 <= i < items.len(),
        !(items[i] is Str),
    ensures
        spec_dec_str_list(items) is None,
    decreases items.len(),
{
    if items.len() > 0 {
        if i == items.len() - 1 {
        } else {
            lemma_str_list_prefix_none(items.drop_last(), i);
        }
    }
}

pub(crate) fn dec_path(v: &Json) -> (r: Option<FsPath>)
    ensures
        match r {
            Some(p) => spec_dec_path(v@) == Some(p@),
            None => spec_dec_path(v@) is None,
        },
{
    let members = match v {
        Json::Obj(members) => members,
        _ => {
            return None;
        },
    };
    let ghost ms = v@->Obj_0;
    proof {
        assert(ms.len() == members@.len());
        assert forall|k: int| 0 <= k < ms.len() implies ms[k].0 == members@[k].key@ && ms[k].1
            == members@[k].value@ by {}
    }
    if members.len() != 2 {
        return None;
    }
    if !key_is(&members[0], "absolute") {
        return None;
    }
    let absolute = match &members[0].value {
        Json::Bool(b) => *b,
        _ => {
            return None;
        },
    };
    if !key_is(&members[1], "parts") {
        return None;
    }
    match dec_str_arr(&members[1].value) {
        Some(parts) => Some(FsPath { absolute, parts }),
        None => None,
    }
}

fn dec_opt_path(v: &Json) -> (r: Option<Option<FsPath>>)
    ensures
        match r {
            Some(o) => spec_dec_opt_path(v@) == Some(view_opt_path(o)),
            None => spec_dec_opt_path(v@) is None,
        },
{
    match v {
        Json::Null => Some(None),
        _ => match dec_path(v) {
            Some(p) => Some(Some(p)),
            None => None,
        },
    }
}

fn dec_file_change(v: &Json) -> (r: Option<FileChange>)
    ensures
        match r {
            Some(c) => spec_dec_file_change(v@) == Some(c@),
            None => spec_dec_file_change(v@) is None,
        },
{
    match v {
        Json::Str(s) => {
            if *s == String::from_str("delete") {
                Some(FileChange::Delete)
            } else {
                None
            }
        },
        Json::Obj(members) => {
            let ghost ms = v@->Obj_0;
            proof {
                assert(ms.len() == members@.len());
                assert forall|k: int| 0 <= k < ms.len() implies ms[k].0 == members@[k].key@
                    && ms[k].1 == members@[k].value@ by {}
            }
            if members.len() != 1 {
                return None;
            }
            if key_is(&members[0], "add") {
                let inner = match &members[0].value {
                    Json::Obj(inner) => inner,
                    _ => {
                        return None;
                    },
                };
                let ghost is_ = members@[0].value@->Obj_0;
                proof {
                    assert(is_.len() == inner@.len());
                    assert forall|k: int| 0 <= k < is_.len() implies is_[k].0 == inner@[k].key@
                        && is_[k].1 == inner@[k].value@ by {}
                }
                if inner.len() != 1 || !key_is(&inner[0], "content") {
                    return None;
                }
                match &inner[0].value {
                    Json::Str(content) => Some(FileChange::Add { content: content.clone() }),
                    _ => None,
                }
            } else if key_is(&members[0], "update") {
                let inner = match &members[0].value {
                    Json::Obj(inner) => inner,
                    _ => {
                        return None;
                    },
                };
                let ghost is_ = members@[0].value@->Obj_0;
                proof {
                    assert(is_.len() == inner@.len());
                    assert forall|k: int| 0 <= k < is_.len() implies is_[k].0 == inner@[k].key@
                        && is_[k].1 == inner@[k].value@ by {}
                }
                if inner.len() != 2 || !key_is(&inner[0], "unified_diff") || !key_is(
                    &inner[1],
                    "move_path",
                ) {
                    return None;
                }
                let unified_diff = match &inner[0].value {
                    Json::Str(d) => d.clone(),
                    _ => {
                        return None;
                    },
                };
                match dec_opt_path(&inner[1].value) {
                    Some(move_path) => Some(FileChange::Update { unified_diff, move_path }),
                    None => None,
                }
            } else {
                None
            }
        },
        _ => None,
    }
}

fn dec_change_entry(v: &Json) -> (r: Option<FileChangeEntry>)
    ensures
        match r {
            Some(c) => spec_dec_change_entry(v@) == Some(c@),
            None => spec_dec_change_entry(v@) is None,
        },
{
    let members = match v {
        Json::Obj(members) => members,
        _ => {
            return None;
        },
    };
    let ghost ms = v@->Obj_0;
    proof {
        assert(ms.len() == members@.len());
        assert forall|k: int| 0 <= k < ms.len() implies ms[k].0 == members@[k].key@ && ms[k].1
            == members@[k].value@ by {}
    }
    if members.len() != 2 || !key_is(&members[0], "path") || !key_is(&members[1], "change") {
        return None;
    }
    let path = match dec_path(&members[0].value) {
        Some(p) => p,
        None => {
            return None;
        },
    };
    match dec_file_change(&members[1].value) {
        Some(change) => Some(FileChangeEntry { path, change }),
        None => None,
    }
}

/// A list with an undecodable entry at position `i` never decodes.
proof fn lemma_change_list_prefix_none(items: Seq<JsonV>, i: int)
    requires
        0 <= i < items.len(),
        spec_dec_change_entry(items[i]) is None,
    ensures
        spec_dec_change_list(items) is None,
    decreases items.len(),
{
    if items.len() > 0 {
        if i == items.len() - 1 {
        } else {
            lemma_change_list_prefix_none(items.drop_last(), i);
        }
    }
}

fn dec_changes(v: &Json) -> (r: Option<Vec<FileChangeEntry>>)
    ensures
        match r {
            Some(cs) => spec_dec_changes(v@) == Some(cs.deep_view()),
            None => spec_dec_changes(v@) is None,
        },
{
    let items = match v {
        Json::Arr(items) => items,
        _ => {
            proof {
                assert(!(v@ is Arr));
            }
            return None;
        },
    };
    let ghost ivs = v@->Arr_0;
    proof {
        assert(ivs.len() == items@.len());
        assert forall|k: int| 0 <= k < ivs.len() implies ivs[k] == items@[k]@ by {}
    }
    let mut out: Vec<FileChangeEntry> = Vec::new();
    let mut i: usize = 0;
    while i < items.len()
        invariant
            v@ is Arr && v@->Arr_0 == ivs,
            i <= items@.len(),
            ivs.len() == items@.len(),
            forall|k: int| 0 <= k < ivs.len() ==> ivs[k] == items@[k]@,
            spec_dec_change_list(ivs.take(i as int)) == Some(out.deep_view()),
        decreases items@.len() - i,
    {
        let ghost pre = out.deep_view();
        match dec_change_entry(&items[i]) {
            Some(entry) => {
                let ghost ev = entry@;
                out.push(entry);
                proof {
                    assert(ivs.take(i + 1 as int).drop_last() =~= ivs.take(i as int));
                    assert(ivs.take(i + 1 as int).last() == ivs[i as int]);
                    assert forall|k: int| 0 <= k < out.deep_view().len() implies out.deep_view()[k]
                        == pre.push(ev)[k] by {
                        assert(out.deep_view()[k] == out@[k]@);
                    }
                    assert(out.deep_view() =~= pre.push(ev));
                }
            },
            None => {
                proof {
                    lemma_change_list_prefix_none(ivs, i as int);
                }
                return None;
            },
        }
        i = i + 1;
    }
    proof {
        assert(ivs.take(ivs.len() as int) =~= ivs);
    }
    Some(out)
}

fn dec_history_entry(v: &Json) -> (r: Option<HistoryEntry>)
    ensures
        match r {
            Some(h) => spec_dec_history_entry(v@) == Some(h@),
            None => spec_dec_history_entry(v@) is None,
        },
{
    let members = match v {
        Json::Obj(members) => members,
        _ => {
            return None;
        },
    };
    let ghost ms = v@->Obj_0;
    proof {
        assert(ms.len() == members@.len());
        assert forall|k: int| 0 <= k < ms.len() implies ms[k].0 == members@[k].key@ && ms[k].1
            == members@[k].value@ by {}
    }
    if members.len() != 3 || !key_is(&members[0], "text") || !key_is(&members[1], "log_id")
        || !key_is(&members[2], "offset") {
        return None;
    }
    let text = match &members[0].value {
        Json::Str(t) => t.clone(),
        _ => {
            return None;
        },
    };
    let log_id = match &members[1].value {
        Json::UInt(n) => *n,
        _ => {
            return None;
        },
    };
    match &members[2].value {
        Json::UInt(n) => {
            if *n <= usize::MAX as u64 {
                Some(HistoryEntry { text, log_id, offset: *n as usize })
            } else {
                None
            }
        },
        _ => None,
    }
}

/// Decodes an event payload from its canonical JSON tree (the form
/// `encode_event_msg` produces, optional fields possibly omitted); `None`
/// for anything else, unknown discriminators included.
pub fn decode_event_msg(j: &Json) -> (r: Option<EventMsg>)
    ensures
        match r {
            Some(m) => spec_decode_event_msg(j@) == Some(m@),
            None => spec_decode_event_msg(j@) is None,
        },
{
    let members = match j {
        Json::Obj(members) => members,
        _ => {
            proof {
                assert(!(j@ is Obj));
            }
            return None;
        },
    };
    let ghost ms = j@->Obj_0;
    proof {
        assert(ms.len() == members@.len());
        assert forall|k: int| 0 <= k < ms.len() implies ms[k].0 == members@[k].key@ && ms[k].1
            == members@[k].value@ by {}
    }
    if members.len() < 1 || !key_is(&members[0], "type") {
        return None;
    }
    let ty = match &members[0].value {
        Json::Str(t) => t,
        _ => {
            return None;
        },
    };
    if *ty == String::from_str("error") {
        if members.len() == 2 && key_is(&members[1], "message") {
            match &members[1].value {
                Json::Str(message) => Some(
                    EventMsg::Error(ErrorEvent { message: message.clone() }),
                ),
                _ => None,
            }
        } else {
            None
        }
    } else if *ty == String::from_str("task_started") {
        if members.len() == 1 {
            Some(EventMsg::TaskStarted)
        } else {
            None
        }
    } else if *ty == String::from_str("task_complete") {
        if members.len() == 2 && key_is(&members[1], "last_agent_message") {
            match dec_opt_str(&members[1].value) {
                Some(last_agent_message) => Some(
                    EventMsg::TaskComplete(TaskCompleteEvent { last_agent_message }),
                ),
                None => None,
            }
        } else {
            None
        }
    } else if *ty == String::from_str("token_count") {
        if members.len() == 6 && key_is(&members[1], "input_tokens") && key_is(
            &members[2],
            "cached_input_tokens",
        ) && key_is(&members[3], "output_tokens") && key_is(
            &members[4],
            "reasoning_output_tokens",
        ) && key_is(&members[5], "total_tokens") {
            let input_tokens = match &members[1].value {
                Json::UInt(n) => *n,
                _ => {
                    return None;
                },
            };
            let output_tokens = match &members[3].value {
                Json::UInt(n) => *n,
                _ => {
                    return None;
                },
            };
            let total_tokens = match &members[5].value {
                Json::UInt(n) => *n,
                _ => {
                    return None;
                },
            };
            let cached = match dec_opt_u64(&members[2].value) {
                Some(o) => o,
                None => {
                    return None;
                },
            };
            let reasoning = match dec_opt_u64(&members[4].value) {
                Some(o) => o,
                None => {
                    return None;
                },
            };
            Some(
                EventMsg::TokenCount(
                    TokenUsage {
                        input_tokens,
                        cached_input_tokens: cached,
                        output_tokens,
                        reasoning_output_tokens: reasoning,
                        total_tokens,
                    },
                ),
            )
        } else {
            None
        }
    } else if *ty == String::from_str("agent_message") {
        if members.len() == 2 && key_is(&members[1], "message") {
            match &members[1].value {
                Json::Str(message) => Some(
                    EventMsg::AgentMessage(AgentMessageEvent { message: message.clone() }),
                ),
                _ => None,
            }
        } else {
            None
        }
    } else if *ty == String::from_str("agent_message_delta") {
        if members.len() == 2 && key_is(&members[1], "delta") {
            match &members[1].value {
                Json::Str(delta) => Some(
                    EventMsg::AgentMessageDelta(AgentMessageDeltaEvent { delta: delta.clone() }),
                ),
                _ => None,
            }
        } else {
            None
        }
    } else if *ty == String::from_str("agent_reasoning") {
        if members.len() == 2 && key_is(&members[1], "text") {
            match &members[1].value {
                Json::Str(text) => Some(
                    EventMsg::AgentReasoning(AgentReasoningEvent { text: text.clone() }),
                ),
                _ => None,
            }
        } else {
            None
        }
    } else if *ty == String::from_str("agent_reasoning_delta") {
        if members.len() == 2 && key_is(&members[1], "delta") {
            match &members[1].value {
                Json::Str(delta) => Some(
                    EventMsg::AgentReasoningDelta(
                        AgentReasoningDeltaEvent { delta: delta.clone() },
                    ),
                ),
                _ => None,
            }
        } else {
            None
        }
    } else if *ty == String::from_str("session_configured") {
        if members.len() == 5 && key_is(&members[1], "session_id") && key_is(&members[2], "model")
            && key_is(&members[3], "history_log_id") && key_is(
            &members[4],
            "history_entry_count",
        ) {
            let session_id = match &members[1].value {
                Json::Str(t) => t.clone(),
                _ => {
                    return None;
                },
            };
            let model = match &members[2].value {
                Json::Str(t) => t.clone(),
                _ => {
                    return None;
                },
            };
            let history_log_id = match &members[3].value {
                Json::UInt(n) => *n,
                _ => {
                    return None;
                },
            };
            match &members[4].value {
                Json::UInt(n) => {
                    if *n <= usize::MAX as u64 {
                        Some(
                            EventMsg::SessionConfigured(
                                SessionConfiguredEvent {
                                    session_id,
                                    model,
                                    history_log_id,
                                    history_entry_count: *n as usize,
                                },
                            ),
                        )
                    } else {
                        None
                    }
                },
                _ => None,
            }
        } else {
            None
        }
    } else if *ty == String::from_str("mcp_tool_call_begin") {
        if members.len() == 5 && key_is(&members[1], "call_id") && key_is(&members[2], "server")
            && key_is(&members[3], "tool") && key_is(&members[4], "arguments") {
            let call_id = match &members[1].value {
                Json::Str(t) => t.clone(),
                _ => {
                    return None;
                },
            };
            let server = match &members[2].value {
                Json::Str(t) => t.clone(),
                _ => {
                    return None;
                },
            };
            let tool = match &members[3].value {
                Json::Str(t) => t.clone(),
                _ => {
                    return None;
                },
            };
            let arguments = match &members[4].value {
                Json::Null => None,
                other => Some(clone_json(other)),
            };
            Some(
                EventMsg::McpToolCallBegin(
                    McpToolCallBeginEvent { call_id, server, tool, arguments },
                ),
            )
        } else {
            None
        }
    } else if *ty == String::from_str("mcp_tool_call_end") {
        if members.len() == 3 && key_is(&members[1], "call_id") && key_is(&members[2], "result") {
            let call_id = match &members[1].value {
                Json::Str(t) => t.clone(),
                _ => {
                    return None;
                },
            };
            match dec_tool_result(&members[2].value) {
                Some(result) => Some(
                    EventMsg::McpToolCallEnd(McpToolCallEndEvent { call_id, result }),
                ),
                None => None,
            }
        } else {
            None
        }
    } else if *ty == String::from_str("exec_command_begin") {
        if members.len() == 4 && key_is(&members[1], "call_id") && key_is(&members[2], "command")
            && key_is(&members[3], "cwd") {
            let call_id = match &members[1].value {
                Json::Str(t) => t.clone(),
                _ => {
                    return None;
                },
            };
            let command = match dec_str_arr(&members[2].value) {
                Some(c) => c,
                None => {
                    return None;
                },
            };
            match dec_path(&members[3].value) {
                Some(cwd) => Some(
                    EventMsg::ExecCommandBegin(ExecCommandBeginEvent { call_id, command, cwd }),
                ),
                None => None,
            }
        } else {
            None
        }
    } else if *ty == String::from_str("exec_command_end") {
        if members.len() == 5 && key_is(&members[1], "call_id") && key_is(&members[2], "stdout")
            && key_is(&members[3], "stderr") && key_is(&members[4], "exit_code") {
            let call_id = match &members[1].value {
                Json::Str(t) => t.clone(),
                _ => {
                    return None;
                },
            };
            let stdout = match &members[2].value {
                Json::Str(t) => t.clone(),
                _ => {
                    return None;
                },
            };
            let stderr = match &members[3].value {
                Json::Str(t) => t.clone(),
                _ => {
                    return None;
                },
            };
            match &members[4].value {
                Json::Int(n) => {
                    if i32::MIN as i64 <= *n && *n <= i32::MAX as i64 {
                        Some(
                            EventMsg::ExecCommandEnd(
                                ExecCommandEndEvent {
                                    call_id,
                                    stdout,
                                    stderr,
                                    exit_code: *n as i32,
                                },
                            ),
                        )
                    } else {
                        None
                    }
                },
                _ => None,
            }
        } else {
            None
        }
    } else if *ty == String::from_str("exec_approval_request") {
        let len_ok = members.len() == 4 || (members.len() == 5 && key_is(&members[4], "reason"));
        if len_ok && key_is(&members[1], "call_id") && key_is(&members[2], "command") && key_is(
            &members[3],
            "cwd",
        ) {
            let call_id = match &members[1].value {
                Json::Str(t) => t.clone(),
                _ => {
                    return None;
                },
            };
            let command = match dec_str_arr(&members[2].value) {
                Some(c) => c,
                None => {
                    return None;
                },
            };
            let cwd = match dec_path(&members[3].value) {
                Some(p) => p,
                None => {
                    return None;
                },
            };
            let reason = if members.len() == 5 {
                match &members[4].value {
                    Json::Str(t) => Some(t.clone()),
                    _ => {
                        return None;
                    },
                }
            } else {
                None
            };
            Some(
                EventMsg::ExecApprovalRequest(
                    ExecApprovalRequestEvent { call_id, command, cwd, reason },
                ),
            )
        } else {
            None
        }
    } else if *ty == String::from_str("apply_patch_approval_request") {
        if members.len() >= 3 && members.len() <= 5 && key_is(&members[1], "call_id") && key_is(
            &members[2],
            "changes",
        ) {
            let call_id = match &members[1].value {
                Json::Str(t) => t.clone(),
                _ => {
                    return None;
                },
            };
            let changes = match dec_changes(&members[2].value) {
                Some(c) => c,
                None => {
                    return None;
                },
            };
            if members.len() == 3 {
                Some(
                    EventMsg::ApplyPatchApprovalRequest(
                        ApplyPatchApprovalRequestEvent {
                            call_id,
                            changes,
                            reason: None,
                            grant_root: None,
                        },
                    ),
                )
            } else if members.len() == 4 && key_is(&members[3], "reason") && matches!(
                &members[3].value,
                Json::Str(_),
            ) {
                match &members[3].value {
                    Json::Str(t) => Some(
                        EventMsg::ApplyPatchApprovalRequest(
                            ApplyPatchApprovalRequestEvent {
                                call_id,
                                changes,
                                reason: Some(t.clone()),
                                grant_root: None,
                            },
                        ),
                    ),
                    _ => None,
                }
            } else if members.len() == 4 && key_is(&members[3], "grant_root") {
                match dec_path(&members[3].value) {
                    Some(p) => Some(
                        EventMsg::ApplyPatchApprovalRequest(
                            ApplyPatchApprovalRequestEvent {
                                call_id,
                                changes,
                                reason: None,
                                grant_root: Some(p),
                            },
                        ),
                    ),
                    None => None,
                }
            } else if members.len() == 5 && key_is(&members[3], "reason") && key_is(
                &members[4],
                "grant_root",
            ) {
                let reason = match &members[3].value {
                    Json::Str(t) => t.clone(),
                    _ => {
                        return None;
                    },
                };
                match dec_path(&members[4].value) {
                    Some(p) => Some(
                        EventMsg::ApplyPatchApprovalRequest(
                            ApplyPatchApprovalRequestEvent {
                                call_id,
                                changes,
                                reason: Some(reason),
                                grant_root: Some(p),
                            },
                        ),
                    ),
                    None => None,
                }
            } else {
                None
            }
        } else {
            None
        }
    } else if *ty == String::from_str("background_event") {
        if members.len() == 2 && key_is(&members[1], "message") {
            match &members[1].value {
                Json::Str(message) => Some(
                    EventMsg::BackgroundEvent(BackgroundEventEvent { message: message.clone() }),
                ),
                _ => None,
            }
        } else {
            None
        }
    } else if *ty == String::from_str("patch_apply_begin") {
        if members.len() == 4 && key_is(&members[1], "call_id") && key_is(
            &members[2],
            "auto_approved",
        ) && key_is(&members[3], "changes") {
            let call_id = match &members[1].value {
                Json::Str(t) => t.clone(),
                _ => {
                    return None;
                },
            };
            let auto_approved = match &members[2].value {
                Json::Bool(b) => *b,
                _ => {
                    return None;
                },
            };
            match dec_changes(&members[3].value) {
                Some(changes) => Some(
                    EventMsg::PatchApplyBegin(
                        PatchApplyBeginEvent { call_id, auto_approved, changes },
                    ),
                ),
                None => None,
            }
        } else {
            None
        }
    } else if *ty == String::from_str("patch_apply_end") {
        if members.len() == 5 && key_is(&members[1], "call_id") && key_is(&members[2], "stdout")
            && key_is(&members[3], "stderr") && key_is(&members[4], "success") {
            let call_id = match &members[1].value {
                Json::Str(t) => t.clone(),
                _ => {
                    return None;
                },
            };
            let stdout = match &members[2].value {
                Json::Str(t) => t.clone(),
                _ => {
                    return None;
                },
            };
            let stderr = match &members[3].value {
                Json::Str(t) => t.clone(),
                _ => {
                    return None;
                },
            };
            match &members[4].value {
                Json::Bool(success) => Some(
                    EventMsg::PatchApplyEnd(
                        PatchApplyEndEvent { call_id, stdout, stderr, success: *success },
                    ),
                ),
                _ => None,
            }
        } else {
            None
        }
    } else if *ty == String::from_str("get_history_entry_response") {
        let len_ok = members.len() == 3 || (members.len() == 4 && key_is(&members[3], "entry"));
        if len_ok && key_is(&members[1], "offset") && key_is(&members[2], "log_id") {
            let offset = match &members[1].value {
                Json::UInt(n) => {
                    if *n <= usize::MAX as u64 {
                        *n as usize
                    } else {
                        return None;
                    }
                },
                _ => {
                    return None;
                },
            };
            let log_id = match &members[2].value {
                Json::UInt(n) => *n,
                _ => {
                    return None;
                },
            };
            if members.len() == 3 {
                Some(
                    EventMsg::GetHistoryEntryResponse(
                        GetHistoryEntryResponseEvent { offset, log_id, entry: None },
                    ),
                )
            } else {
                match dec_history_entry(&members[3].value) {
                    Some(h) => Some(
                        EventMsg::GetHistoryEntryResponse(
                            GetHistoryEntryResponseEvent { offset, log_id, entry: Some(h) },
                        ),
                    ),
                    None => None,
                }
            }
        } else {
            None
        }
    } else if *ty == String::from_str("shutdown_complete") {
        if members.len() == 1 {
            Some(EventMsg::ShutdownComplete)
        } else {
            None
        }
    } else {
        None
    }
}

fn dec_tool_result(v: &Json) -> (r: Option<Result<CallToolResult, String>>)
    ensures
        match r {
            Some(res) => spec_dec_tool_result(v@) == Some(
                match res {
                    Ok(c) => Ok(c@),
                    Err(m) => Err(m@),
                },
            ),
            None => spec_dec_tool_result(v@) is None,
        },
{
    let members = match v {
        Json::Obj(members) => members,
        _ => {
            proof {
                assert(!(v@ is Obj));
            }
            return None;
        },
    };
    let ghost ms = v@->Obj_0;
    proof {
        assert(ms.len() == members@.len());
        assert forall|k: int| 0 <= k < ms.len() implies ms[k].0 == members@[k].key@ && ms[k].1
            == members@[k].value@ by {}
    }
    if members.len() != 1 {
        return None;
    }
    if key_is(&members[0], "Ok") {
        let inner = match &members[0].value {
            Json::Obj(inner) => inner,
            _ => {
                return None;
            },
        };
        let ghost is_ = members@[0].value@->Obj_0;
        proof {
            assert(is_.len() == inner@.len());
            assert forall|k: int| 0 <= k < is_.len() implies is_[k].0 == inner@[k].key@ && is_[k].1
                == inner@[k].value@ by {}
        }
        if inner.len() != 2 || !key_is(&inner[0], "content") || !key_is(&inner[1], "is_error") {
            return None;
        }
        let content = match dec_str_arr(&inner[0].value) {
            Some(c) => c,
            None => {
                return None;
            },
        };
        match &inner[1].value {
            Json::Null => Some(Ok(CallToolResult { content, is_error: None })),
            Json::Bool(b) => Some(Ok(CallToolResult { content, is_error: Some(*b) })),
            _ => None,
        }
    } else if key_is(&members[0], "Err") {
        match &members[0].value {
            Json::Str(msg) => Some(Err(msg.clone())),
            _ => None,
        }
    } else {
        None
    }
}

/// Decodes an event from its canonical JSON tree.
pub fn decode_event(j: &Json) -> (r: Option<Event>)
    ensures
        match r {
            Some(e) => spec_decode_event(j@) == Some(e@),
            None => spec_decode_event(j@) is None,
        },
{
    let members = match j {
        Json::Obj(members) => members,
        _ => {
            proof {
                assert(!(j@ is Obj));
            }
            return None;
        },
    };
    let ghost ms = j@->Obj_0;
    proof {
        assert(ms.len() == members@.len());
        assert forall|k: int| 0 <= k < ms.len() implies ms[k].0 == members@[k].key@ && ms[k].1
            == members@[k].value@ by {}
    }
    if members.len() != 2 || !key_is(&members[0], "id") || !key_is(&members[1], "msg") {
        return None;
    }
    let id = match &members[0].value {
        Json::Str(t) => t.clone(),
        _ => {
            return None;
        },
    };
    match decode_event_msg(&members[1].value) {
        Some(msg) => Some(Event { id, msg }),
        None => None,
    }
}

/// The wire image of one patch change, as the events and requests carry it.
pub open spec fn spec_patch_change_entry_view(c: PatchChange) -> FileChangeEntryV {
    FileChangeEntryV {
        path: c.path@,
        change: match c.change {
            ApplyPatchFileChange::Add { content } => FileChangeV::Add { content: content@ },
            ApplyPatchFileChange::Delete => FileChangeV::Delete,
            ApplyPatchFileChange::Update { unified_diff, move_path } => FileChangeV::Update {
                unified_diff: unified_diff@,
                move_path: match move_path {
                    Some(p) => Some(p@),
                    None => None,
                },
            },
        },
    }
}

/// The wire image of a whole patch.
pub open spec fn spec_patch_changes_view(changes: Seq<PatchChange>) -> Seq<FileChangeEntryV> {
    Seq::new(changes.len(), |i: int| spec_patch_change_entry_view(changes[i]))
}

/// Converts a patch action's changes into the wire form carried by events
/// and requests.
pub fn patch_changes_for_wire(action: &ApplyPatchAction) -> (r: Vec<FileChangeEntry>)
    ensures
        r.deep_view() == spec_patch_changes_view(action.spec_changes()),
{
    let changes = action.changes();
    let mut out: Vec<FileChangeEntry> = Vec::new();
    let mut i: usize = 0;
    while i < changes.len()
        invariant
            changes@ == action.spec_changes(),
            i <= changes@.len(),
            out@.len() == i,
            forall|k: int|
                0 <= k < i ==> (#[trigger] out@[k])@ == spec_patch_change_entry_view(changes@[k]),
        decreases changes@.len() - i,
    {
        let c = &changes[i];
        let change = match &c.change {
            ApplyPatchFileChange::Add { content } => FileChange::Add { content: content.clone() },
            ApplyPatchFileChange::Delete => FileChange::Delete,
            ApplyPatchFileChange::Update { unified_diff, move_path } => FileChange::Update {
                unified_diff: unified_diff.clone(),
                move_path: match move_path {
                    Some(p) => Some(p.clone()),
                    None => None,
                },
            },
        };
        out.push(FileChangeEntry { path: c.path.clone(), change });
        i = i + 1;
    }
    proof {
        assert forall|k: int| 0 <= k < out@.len() implies out.deep_view()[k]
            == spec_patch_changes_view(action.spec_changes())[k] by {
            assert(out.deep_view()[k] == out@[k]@);
        }
        assert(out.deep_view() =~= spec_patch_changes_view(action.spec_changes()));
    }
    out
}

} // verus!
