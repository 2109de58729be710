//! The wire codec for submissions: every operation encodes to a JSON tree
//! with a `type` discriminator, and decodes back. Encoding is canonical;
//! decoding finds fields by key in any order, ignores unknown members, and
//! supplies the defaults the original wire allows to be omitted, so it
//! accepts both this encoder's output and the wider serde shapes.

use crate::json::JsonV;
use crate::json::spec_obj_get;
use crate::paths::FsPath;
use crate::paths::PathV;
use crate::protocol::AskForApproval;
use crate::protocol::InputItem;
use crate::protocol::ModelProviderInfo;
use crate::protocol::Op;
use crate::protocol::ReasoningEffort;
use crate::protocol::ReasoningSummary;
use crate::protocol::ReviewDecision;
use crate::protocol::SandboxPolicy;
use crate::protocol::Submission;
use crate::protocol::WireApi;
use crate::codec::spec_enc_opt_str;
use crate::codec::spec_enc_opt_u64;
use crate::codec::spec_enc_path;
use crate::codec::spec_enc_str_arr;
use crate::codec::spec_dec_opt_str;
use crate::codec::spec_dec_opt_u64;
use crate::codec::spec_dec_path;
use crate::codec::spec_dec_str_list;
use crate::codec::view_opt_str;
use crate::codec::jmember;
use crate::codec::jstr;
use crate::codec::jstr_lit;
use crate::codec::enc_opt_str;
use crate::codec::enc_opt_u64;
use crate::codec::enc_str_arr;
use crate::codec::enc_path;
use crate::codec::obj_get_value;
use crate::codec::dec_opt_str;
use crate::codec::dec_opt_u64;
use crate::codec::dec_str_arr;
use crate::codec::dec_path;
use crate::json::Json;
use crate::json::JsonMember;
use vstd::prelude::*;

verus! {

broadcast use {vstd::std_specs::vec::group_vec_axioms, vstd::seq::group_seq_axioms};

/// Mathematical image of a provider descriptor.
pub struct ModelProviderInfoV {
    pub name: Seq<char>,
    pub base_url: Seq<char>,
    pub env_key: Option<Seq<char>>,
    pub env_key_instructions: Option<Seq<char>>,
    pub wire_api: WireApi,
    pub request_max_retries: Option<u64>,
    pub stream_max_retries: Option<u64>,
    pub stream_idle_timeout_ms: Option<u64>,
}

impl View for ModelProviderInfo {
    type V = ModelProviderInfoV;

    open spec fn view(&self) -> ModelProviderInfoV {
        ModelProviderInfoV {
            name: self.name@,
            base_url: self.base_url@,
            env_key: view_opt_str(self.env_key),
            env_key_instructions: view_opt_str(self.env_key_instructions),
            wire_api: self.wire_api,
            request_max_retries: self.request_max_retries,
            stream_max_retries: self.stream_max_retries,
            stream_idle_timeout_ms: self.stream_idle_timeout_ms,
        }
    }
}

/// Mathematical image of a user input item.
pub enum InputItemV {
    Text { text: Seq<char> },
    Image { image_url: Seq<char> },
    LocalImage { path: PathV },
}

impl View for InputItem {
    type V = InputItemV;

    open spec fn view(&self) -> InputItemV {
        match self {
            InputItem::Text { text } => InputItemV::Text { text: text@ },
            InputItem::Image { image_url } => InputItemV::Image { image_url: image_url@ },
            InputItem::LocalImage { path } => InputItemV::LocalImage { path: path@ },
        }
    }
}

impl DeepView for InputItem {
    type V = InputItemV;

    open spec fn deep_view(&self) -> InputItemV {
        self.view()
    }
}

/// Mathematical image of a sandbox policy.
pub enum SandboxPolicyV {
    DangerFullAccess,
    ReadOnly,
    WorkspaceWrite { writable_roots: Seq<PathV>, network_access: bool },
}

impl View for SandboxPolicy {
    type V = SandboxPolicyV;

    open spec fn view(&self) -> SandboxPolicyV {
        match self {
            SandboxPolicy::DangerFullAccess => SandboxPolicyV::DangerFullAccess,
            SandboxPolicy::ReadOnly => SandboxPolicyV::ReadOnly,
            SandboxPolicy::WorkspaceWrite { writable_roots, network_access } => {
                SandboxPolicyV::WorkspaceWrite {
                    writable_roots: writable_roots.deep_view(),
                    network_access: *network_access,
                }
            },
        }
    }
}

/// Mathematical image of an operation.
pub enum OpV {
    ConfigureSession {
        provider: ModelProviderInfoV,
        model: Seq<char>,
        model_reasoning_effort: Option<ReasoningEffort>,
        model_reasoning_summary: Option<ReasoningSummary>,
        user_instructions: Option<Seq<char>>,
        base_instructions: Option<Seq<char>>,
        approval_policy: AskForApproval,
        sandbox_policy: SandboxPolicyV,
        disable_response_storage: bool,
        notify: Option<Seq<Seq<char>>>,
        cwd: PathV,
        resume_path: Option<PathV>,
    },
    Interrupt,
    UserInput { items: Seq<InputItemV> },
    ExecApproval { id: Seq<char>, decision: ReviewDecision },
    PatchApproval { id: Seq<char>, decision: ReviewDecision },
    AddToHistory { text: Seq<char> },
    GetHistoryEntryRequest { offset: usize, log_id: u64 },
    Shutdown,
}

/// The view of an optional string list.
pub open spec fn view_opt_str_list(o: Option<Vec<String>>) -> Option<Seq<Seq<char>>> {
    match o {
        Some(v) => Some(v.deep_view()),
        None => None,
    }
}

/// The view of an optional path.
pub open spec fn view_opt_fs_path(o: Option<FsPath>) -> Option<PathV> {
    match o {
        Some(p) => Some(p@),
        None => None,
    }
}

impl View for Op {
    type V = OpV;

    open spec fn view(&self) -> OpV {
        match self {
            Op::ConfigureSession {
                provider,
                model,
                model_reasoning_effort,
                model_reasoning_summary,
                user_instructions,
                base_instructions,
                approval_policy,
                sandbox_policy,
                disable_response_storage,
                notify,
                cwd,
                resume_path,
            } => OpV::ConfigureSession {
                provider: provider@,
                model: model@,
                model_reasoning_effort: *model_reasoning_effort,
                model_reasoning_summary: *model_reasoning_summary,
                user_instructions: view_opt_str(*user_instructions),
                base_instructions: view_opt_str(*base_instructions),
                approval_policy: *approval_policy,
                sandbox_policy: sandbox_policy@,
                disable_response_storage: *disable_response_storage,
                notify: view_opt_str_list(*notify),
                cwd: cwd@,
                resume_path: view_opt_fs_path(*resume_path),
            },
            Op::Interrupt => OpV::Interrupt,
            Op::UserInput { items } => OpV::UserInput { items: items.deep_view() },
            Op::ExecApproval { id, decision } => OpV::ExecApproval {
                id: id@,
                decision: *decision,
            },
            Op::PatchApproval { id, decision } => OpV::PatchApproval {
                id: id@,
                decision: *decision,
            },
            Op::AddToHistory { text } => OpV::AddToHistory { text: text@ },
            Op::GetHistoryEntryRequest { offset, log_id } => OpV::GetHistoryEntryRequest {
                offset: *offset,
                log_id: *log_id,
            },
            Op::Shutdown => OpV::Shutdown,
        }
    }
}

/// Mathematical image of a submission.
pub struct SubmissionV {
    pub id: Seq<char>,
    pub op: OpV,
}

impl View for Submission {
    type V = SubmissionV;

    open spec fn view(&self) -> SubmissionV {
        SubmissionV { id: self.id@, op: self.op@ }
    }
}

// ---------------------------------------------------------------------------
// Spec-level encoding
// ---------------------------------------------------------------------------

/// The wire name of a provider's protocol.
pub open spec fn spec_enc_wire_api(w: WireApi) -> JsonV {
    match w {
        WireApi::Responses => JsonV::Str("responses"@),
        WireApi::Chat => JsonV::Str("chat"@),
    }
}

/// The wire name of an approval policy.
pub open spec fn spec_enc_approval_policy(a: AskForApproval) -> JsonV {
    match a {
        AskForApproval::UnlessTrusted => JsonV::Str("untrusted"@),
        AskForApproval::OnFailure => JsonV::Str("on-failure"@),
        AskForApproval::Never => JsonV::Str("never"@),
    }
}

/// The wire name of a review decision.
pub open spec fn spec_enc_review_decision(d: ReviewDecision) -> JsonV {
    match d {
        ReviewDecision::Approved => JsonV::Str("approved"@),
        ReviewDecision::ApprovedForSession => JsonV::Str("approved_for_session"@),
        ReviewDecision::Denied => JsonV::Str("denied"@),
        ReviewDecision::Abort => JsonV::Str("abort"@),
    }
}

/// The wire name of a reasoning effort; null when disabled.
pub open spec fn spec_enc_effort(e: Option<ReasoningEffort>) -> JsonV {
    match e {
        Some(ReasoningEffort::Low) => JsonV::Str("low"@),
        Some(ReasoningEffort::Medium) => JsonV::Str("medium"@),
        Some(ReasoningEffort::High) => JsonV::Str("high"@),
        None => JsonV::Null,
    }
}

/// The wire name of a reasoning summary; null when disabled.
pub open spec fn spec_enc_summary(s: Option<ReasoningSummary>) -> JsonV {
    match s {
        Some(ReasoningSummary::Auto) => JsonV::Str("auto"@),
        Some(ReasoningSummary::Concise) => JsonV::Str("concise"@),
        Some(ReasoningSummary::Detailed) => JsonV::Str("detailed"@),
        None => JsonV::Null,
    }
}

/// A provider descriptor as an object.
pub open spec fn spec_enc_provider(p: ModelProviderInfoV) -> JsonV {
    JsonV::Obj(
        seq![
            ("name"@, JsonV::Str(p.name)),
            ("base_url"@, JsonV::Str(p.base_url)),
            ("env_key"@, spec_enc_opt_str(p.env_key)),
            ("env_key_instructions"@, spec_enc_opt_str(p.env_key_instructions)),
            ("wire_api"@, spec_enc_wire_api(p.wire_api)),
            ("request_max_retries"@, spec_enc_opt_u64(p.request_max_retries)),
            ("stream_max_retries"@, spec_enc_opt_u64(p.stream_max_retries)),
            ("stream_idle_timeout_ms"@, spec_enc_opt_u64(p.stream_idle_timeout_ms)),
        ],
    )
}

/// An array of paths.
pub open spec fn spec_enc_path_arr(ps: Seq<PathV>) -> JsonV {
    JsonV::Arr(Seq::new(ps.len(), |i: int| spec_enc_path(ps[i])))
}

/// A sandbox policy as a mode-tagged object.
pub open spec fn spec_enc_sandbox_policy(s: SandboxPolicyV) -> JsonV {
    match s {
        SandboxPolicyV::DangerFullAccess => JsonV::Obj(
            seq![("mode"@, JsonV::Str("danger-full-access"@))],
        ),
        SandboxPolicyV::ReadOnly => JsonV::Obj(seq![("mode"@, JsonV::Str("read-only"@))]),
        SandboxPolicyV::WorkspaceWrite { writable_roots, network_access } => JsonV::Obj(
            seq![
                ("mode"@, JsonV::Str("workspace-write"@)),
                ("writable_roots"@, spec_enc_path_arr(writable_roots)),
                ("network_access"@, JsonV::Bool(network_access)),
            ],
        ),
    }
}

/// One user input item as a type-tagged object.
pub open spec fn spec_enc_input_item(it: InputItemV) -> JsonV {
    match it {
        InputItemV::Text { text } => JsonV::Obj(
            seq![("type"@, JsonV::Str("text"@)), ("text"@, JsonV::Str(text))],
        ),
        InputItemV::Image { image_url } => JsonV::Obj(
            seq![("type"@, JsonV::Str("image"@)), ("image_url"@, JsonV::Str(image_url))],
        ),
        InputItemV::LocalImage { path } => JsonV::Obj(
            seq![("type"@, JsonV::Str("local_image"@)), ("path"@, spec_enc_path(path))],
        ),
    }
}

/// The array of user input items.
pub open spec fn spec_enc_input_items(items: Seq<InputItemV>) -> JsonV {
    JsonV::Arr(Seq::new(items.len(), |i: int| spec_enc_input_item(items[i])))
}

/// The encoding of an operation: an object whose first member is the
/// `type` discriminator, followed by the payload fields in declaration
/// order; optional fields are carried as null when absent.
pub open spec fn spec_encode_op(op: OpV) -> JsonV {
    match op {
        OpV::ConfigureSession {
            provider,
            model,
            model_reasoning_effort,
            model_reasoning_summary,
            user_instructions,
            base_instructions,
            approval_policy,
            sandbox_policy,
            disable_response_storage,
            notify,
            cwd,
            resume_path,
        } => JsonV::Obj(
            seq![
                ("type"@, JsonV::Str("configure_session"@)),
                ("provider"@, spec_enc_provider(provider)),
                ("model"@, JsonV::Str(model)),
                ("model_reasoning_effort"@, spec_enc_effort(model_reasoning_effort)),
                ("model_reasoning_summary"@, spec_enc_summary(model_reasoning_summary)),
                ("user_instructions"@, spec_enc_opt_str(user_instructions)),
                ("base_instructions"@, spec_enc_opt_str(base_instructions)),
                ("approval_policy"@, spec_enc_approval_policy(approval_policy)),
                ("sandbox_policy"@, spec_enc_sandbox_policy(sandbox_policy)),
                ("disable_response_storage"@, JsonV::Bool(disable_response_storage)),
                (
                    "notify"@,
                    match notify {
                        Some(ws) => spec_enc_str_arr(ws),
                        None => JsonV::Null,
                    },
                ),
                ("cwd"@, spec_enc_path(cwd)),
                (
                    "resume_path"@,
                    match resume_path {
                        Some(p) => spec_enc_path(p),
                        None => JsonV::Null,
                    },
                ),
            ],
        ),
        OpV::Interrupt => JsonV::Obj(seq![("type"@, JsonV::Str("interrupt"@))]),
        OpV::UserInput { items } => JsonV::Obj(
            seq![("type"@, JsonV::Str("user_input"@)), ("items"@, spec_enc_input_items(items))],
        ),
        OpV::ExecApproval { id, decision } => JsonV::Obj(
            seq![
                ("type"@, JsonV::Str("exec_approval"@)),
                ("id"@, JsonV::Str(id)),
                ("decision"@, spec_enc_review_decision(decision)),
            ],
        ),
        OpV::PatchApproval { id, decision } => JsonV::Obj(
            seq![
                ("type"@, JsonV::Str("patch_approval"@)),
                ("id"@, JsonV::Str(id)),
                ("decision"@, spec_enc_review_decision(decision)),
            ],
        ),
        OpV::AddToHistory { text } => JsonV::Obj(
            seq![("type"@, JsonV::Str("add_to_history"@)), ("text"@, JsonV::Str(text))],
        ),
        OpV::GetHistoryEntryRequest { offset, log_id } => JsonV::Obj(
            seq![
                ("type"@, JsonV::Str("get_history_entry_request"@)),
                ("offset"@, JsonV::UInt(offset as u64)),
                ("log_id"@, JsonV::UInt(log_id)),
            ],
        ),
        OpV::Shutdown => JsonV::Obj(seq![("type"@, JsonV::Str("shutdown"@))]),
    }
}

/// The encoding of a submission: the id and the operation under `op`.
pub open spec fn spec_encode_submission(s: SubmissionV) -> JsonV {
    JsonV::Obj(seq![("id"@, JsonV::Str(s.id)), ("op"@, spec_encode_op(s.op))])
}

// ---------------------------------------------------------------------------
// Spec-level decoding (fields by key, defaults for omitted optional fields)
// ---------------------------------------------------------------------------

/// Decodes the wire name of a provider's protocol.
pub open spec fn spec_dec_wire_api(j: JsonV) -> Option<WireApi> {
    match j {
        JsonV::Str(s) => if s == "responses"@ {
            Some(WireApi::Responses)
        } else if s == "chat"@ {
            Some(WireApi::Chat)
        } else {
            None
        },
        _ => None,
    }
}

/// Decodes the wire name of an approval policy.
pub open spec fn spec_dec_approval_policy(j: JsonV) -> Option<AskForApproval> {
    match j {
        JsonV::Str(s) => if s == "untrusted"@ {
            Some(AskForApproval::UnlessTrusted)
        } else if s == "on-failure"@ {
            Some(AskForApproval::OnFailure)
        } else if s == "never"@ {
            Some(AskForApproval::Never)
        } else {
            None
        },
        _ => None,
    }
}

/// Decodes the wire name of a review decision.
pub open spec fn spec_dec_review_decision(j: JsonV) -> Option<ReviewDecision> {
    match j {
        JsonV::Str(s) => if s == "approved"@ {
            Some(ReviewDecision::Approved)
        } else if s == "approved_for_session"@ {
            Some(ReviewDecision::ApprovedForSession)
        } else if s == "denied"@ {
            Some(ReviewDecision::Denied)
        } else if s == "abort"@ {
            Some(ReviewDecision::Abort)
        } else {
            None
        },
        _ => None,
    }
}

/// Decodes the reasoning effort, null meaning disabled.
pub open spec fn spec_dec_effort(j: JsonV) -> Option<Option<ReasoningEffort>> {
    match j {
        JsonV::Null => Some(None),
        JsonV::Str(s) => if s == "low"@ {
            Some(Some(ReasoningEffort::Low))
        } else if s == "medium"@ {
            Some(Some(ReasoningEffort::Medium))
        } else if s == "high"@ {
            Some(Some(ReasoningEffort::High))
        } else {
            None
        },
        _ => None,
    }
}

/// Decodes the reasoning summary, null meaning disabled.
pub open spec fn spec_dec_summary(j: JsonV) -> Option<Option<ReasoningSummary>> {
    match j {
        JsonV::Null => Some(None),
        JsonV::Str(s) => if s == "auto"@ {
            Some(Some(ReasoningSummary::Auto))
        } else if s == "concise"@ {
            Some(Some(ReasoningSummary::Concise))
        } else if s == "detailed"@ {
            Some(Some(ReasoningSummary::Detailed))
        } else {
            None
        },
        _ => None,
    }
}

/// Decodes a provider descriptor: fields found by key, in any order, with
/// unknown members ignored; the optional fields default to absent.
pub open spec fn spec_dec_provider(j: JsonV) -> Option<ModelProviderInfoV> {
    match j {
        JsonV::Obj(ms) => {
            let name = (match spec_obj_get(ms, "name"@) {
                Some(JsonV::Str(t)) => Some(t),
                _ => None,
            });
            let base_url = (match spec_obj_get(ms, "base_url"@) {
                Some(JsonV::Str(t)) => Some(t),
                _ => None,
            });
            let env_key = (match spec_obj_get(ms, "env_key"@) {
                None => Some(None),
                Some(v) => spec_dec_opt_str(v),
            });
            let env_key_instructions = (match spec_obj_get(ms, "env_key_instructions"@) {
                None => Some(None),
                Some(v) => spec_dec_opt_str(v),
            });
            let wire_api = (match spec_obj_get(ms, "wire_api"@) {
                Some(v) => spec_dec_wire_api(v),
                None => None,
            });
            let request_max_retries = (match spec_obj_get(ms, "request_max_retries"@) {
                None => Some(None),
                Some(v) => spec_dec_opt_u64(v),
            });
            let stream_max_retries = (match spec_obj_get(ms, "stream_max_retries"@) {
                None => Some(None),
                Some(v) => spec_dec_opt_u64(v),
            });
            let stream_idle_timeout_ms = (match spec_obj_get(ms, "stream_idle_timeout_ms"@) {
                None => Some(None),
                Some(v) => spec_dec_opt_u64(v),
            });
            if name is Some && base_url is Some && env_key is Some && env_key_instructions is Some
                && wire_api is Some && request_max_retries is Some && stream_max_retries is Some
                && stream_idle_timeout_ms is Some {
                Some(
                    ModelProviderInfoV {
                        name: name->Some_0,
                        base_url: base_url->Some_0,
                        env_key: env_key->Some_0,
                        env_key_instructions: env_key_instructions->Some_0,
                        wire_api: wire_api->Some_0,
                        request_max_retries: request_max_retries->Some_0,
                        stream_max_retries: stream_max_retries->Some_0,
                        stream_idle_timeout_ms: stream_idle_timeout_ms->Some_0,
                    },
                )
            } else {
                None
            }
        },
        _ => None,
    }
}

/// Decodes a list of paths.
pub open spec fn spec_dec_path_list(items: Seq<JsonV>) -> Option<Seq<PathV>>
    decreases items.len(),
{
    if items.len() == 0 {
        Some(Seq::empty())
    } else {
        match (spec_dec_path_list(items.drop_last()), spec_dec_path(items.last())) {
            (Some(pre), Some(p)) => Some(pre.push(p)),
            _ => None,
        }
    }
}

/// Decodes a sandbox policy from its mode-tagged object: the mode is found
/// by key; for workspace write, an omitted root list defaults to empty and
/// an omitted network flag to off, as the original wire allows.
pub open spec fn spec_dec_sandbox_policy(j: JsonV) -> Option<SandboxPolicyV> {
    match j {
        JsonV::Obj(ms) => {
            match spec_obj_get(ms, "mode"@) {
                Some(JsonV::Str(mode)) => {
                    if mode == "danger-full-access"@ {
                        Some(SandboxPolicyV::DangerFullAccess)
                    } else if mode == "read-only"@ {
                        Some(SandboxPolicyV::ReadOnly)
                    } else if mode == "workspace-write"@ {
                        let roots = (match spec_obj_get(ms, "writable_roots"@) {
                            None => Some(Seq::<PathV>::empty()),
                            Some(JsonV::Arr(items)) => spec_dec_path_list(items),
                            Some(_) => None,
                        });
                        let network = (match spec_obj_get(ms, "network_access"@) {
                            None => Some(false),
                            Some(JsonV::Bool(b)) => Some(b),
                            Some(_) => None,
                        });
                        match (roots, network) {
                            (Some(writable_roots), Some(network_access)) => Some(
                                SandboxPolicyV::WorkspaceWrite { writable_roots, network_access },
                            ),
                            _ => None,
                        }
                    } else {
                        None
                    }
                },
                _ => None,
            }
        },
        _ => None,
    }
}

/// Decodes one user input item: the kind and its field found by key.
pub open spec fn spec_dec_input_item(j: JsonV) -> Option<InputItemV> {
    match j {
        JsonV::Obj(ms) => {
            match spec_obj_get(ms, "type"@) {
                Some(JsonV::Str(ty)) => {
                    if ty == "text"@ {
                        match spec_obj_get(ms, "text"@) {
                            Some(JsonV::Str(text)) => Some(InputItemV::Text { text }),
                            _ => None,
                        }
                    } else if ty == "image"@ {
                        match spec_obj_get(ms, "image_url"@) {
                            Some(JsonV::Str(image_url)) => Some(InputItemV::Image { image_url }),
                            _ => None,
                        }
                    } else if ty == "local_image"@ {
                        match spec_obj_get(ms, "path"@) {
                            Some(v) => match spec_dec_path(v) {
                                Some(path) => Some(InputItemV::LocalImage { path }),
                                None => None,
                            },
                            None => None,
                        }
                    } else {
                        None
                    }
                },
                _ => None,
            }
        },
        _ => None,
    }
}

/// Decodes a list of user input items.
pub open spec fn spec_dec_input_list(items: Seq<JsonV>) -> Option<Seq<InputItemV>>
    decreases items.len(),
{
    if items.len() == 0 {
        Some(Seq::empty())
    } else {
        match (spec_dec_input_list(items.drop_last()), spec_dec_input_item(items.last())) {
            (Some(pre), Some(it)) => Some(pre.push(it)),
            _ => None,
        }
    }
}

/// The decoding of an operation: the discriminator and every field are
/// found by key, in any order, with unknown members ignored; fields the
/// original wire may omit (the reasoning settings, the option-valued
/// texts, the storage flag, the notify list and the resume path) take
/// their absent or default values. Unknown discriminators are rejected.
pub open spec fn spec_decode_op(j: JsonV) -> Option<OpV> {
    match j {
        JsonV::Obj(ms) => {
            match spec_obj_get(ms, "type"@) {
                Some(JsonV::Str(ty)) => {
                    if ty == "configure_session"@ {
                        let provider = (match spec_obj_get(ms, "provider"@) {
                            Some(v) => spec_dec_provider(v),
                            None => None,
                        });
                        let model = (match spec_obj_get(ms, "model"@) {
                            Some(JsonV::Str(t)) => Some(t),
                            _ => None,
                        });
                        let effort = (match spec_obj_get(ms, "model_reasoning_effort"@) {
                            None => Some(None),
                            Some(v) => spec_dec_effort(v),
                        });
                        let summary = (match spec_obj_get(ms, "model_reasoning_summary"@) {
                            None => Some(None),
                            Some(v) => spec_dec_summary(v),
                        });
                        let user_instructions = (match spec_obj_get(ms, "user_instructions"@) {
                            None => Some(None),
                            Some(v) => spec_dec_opt_str(v),
                        });
                        let base_instructions = (match spec_obj_get(ms, "base_instructions"@) {
                            None => Some(None),
                            Some(v) => spec_dec_opt_str(v),
                        });
                        let approval_policy = (match spec_obj_get(ms, "approval_policy"@) {
                            Some(v) => spec_dec_approval_policy(v),
                            None => None,
                        });
                        let sandbox_policy = (match spec_obj_get(ms, "sandbox_policy"@) {
                            Some(v) => spec_dec_sandbox_policy(v),
                            None => None,
                        });
                        let disable = (match spec_obj_get(ms, "disable_response_storage"@) {
                            None => Some(false),
                            Some(JsonV::Bool(b)) => Some(b),
                            Some(_) => None,
                        });
                        let notify = (match spec_obj_get(ms, "notify"@) {
                            None => Some(None),
                            Some(JsonV::Null) => Some(None),
                            Some(JsonV::Arr(items)) => match spec_dec_str_list(items) {
                                Some(ws) => Some(Some(ws)),
                                None => None,
                            },
                            Some(_) => None,
                        });
                        let cwd = (match spec_obj_get(ms, "cwd"@) {
                            Some(v) => spec_dec_path(v),
                            None => None,
                        });
                        let resume_path = (match spec_obj_get(ms, "resume_path"@) {
                            None => Some(None),
                            Some(JsonV::Null) => Some(None),
                            Some(v) => match spec_dec_path(v) {
                                Some(p) => Some(Some(p)),
                                None => None,
                            },
                        });
                        if provider is Some && model is Some && effort is Some && summary is Some
                            && user_instructions is Some && base_instructions is Some
                            && approval_policy is Some && sandbox_policy is Some && disable is Some
                            && notify is Some && cwd is Some && resume_path is Some {
                            Some(
                                OpV::ConfigureSession {
                                    provider: provider->Some_0,
                                    model: model->Some_0,
                                    model_reasoning_effort: effort->Some_0,
                                    model_reasoning_summary: summary->Some_0,
                                    user_instructions: user_instructions->Some_0,
                                    base_instructions: base_instructions->Some_0,
                                    approval_policy: approval_policy->Some_0,
                                    sandbox_policy: sandbox_policy->Some_0,
                                    disable_response_storage: disable->Some_0,
                                    notify: notify->Some_0,
                                    cwd: cwd->Some_0,
                                    resume_path: resume_path->Some_0,
                                },
                            )
                        } else {
                            None
                        }
                    } else if ty == "interrupt"@ {
                        Some(OpV::Interrupt)
                    } else if ty == "user_input"@ {
                        match spec_obj_get(ms, "items"@) {
                            Some(JsonV::Arr(items)) => match spec_dec_input_list(items) {
                                Some(its) => Some(OpV::UserInput { items: its }),
                                None => None,
                            },
                            _ => None,
                        }
                    } else if ty == "exec_approval"@ {
                        match (spec_obj_get(ms, "id"@), spec_obj_get(ms, "decision"@)) {
                            (Some(JsonV::Str(id)), Some(dv)) => match spec_dec_review_decision(
                                dv,
                            ) {
                                Some(decision) => Some(OpV::ExecApproval { id, decision }),
                                None => None,
                            },
                            _ => None,
                        }
                    } else if ty == "patch_approval"@ {
                        match (spec_obj_get(ms, "id"@), spec_obj_get(ms, "decision"@)) {
                            (Some(JsonV::Str(id)), Some(dv)) => match spec_dec_review_decision(
                                dv,
                            ) {
                                Some(decision) => Some(OpV::PatchApproval { id, decision }),
                                None => None,
                            },
                            _ => None,
                        }
                    } else if ty == "add_to_history"@ {
                        match spec_obj_get(ms, "text"@) {
                            Some(JsonV::Str(text)) => Some(OpV::AddToHistory { text }),
                            _ => None,
                        }
                    } else if ty == "get_history_entry_request"@ {
                        match (spec_obj_get(ms, "offset"@), spec_obj_get(ms, "log_id"@)) {
                            (Some(JsonV::UInt(offset)), Some(JsonV::UInt(log_id))) => {
                                if offset <= usize::MAX {
                                    Some(
                                        OpV::GetHistoryEntryRequest {
                                            offset: offset as usize,
                                            log_id,
                                        },
                                    )
                                } else {
                                    None
                                }
                            },
                            _ => None,
                        }
                    } else if ty == "shutdown"@ {
                        Some(OpV::Shutdown)
                    } else {
                        None
                    }
                },
                _ => None,
            }
        },
        _ => None,
    }
}

/// The decoding of a submission envelope: the id and the operation found
/// by key, in any order.
pub open spec fn spec_decode_submission(j: JsonV) -> Option<SubmissionV> {
    match j {
        JsonV::Obj(ms) => {
            match (spec_obj_get(ms, "id"@), spec_obj_get(ms, "op"@)) {
                (Some(JsonV::Str(id)), Some(opv)) => match spec_decode_op(opv) {
                    Some(op) => Some(SubmissionV { id, op }),
                    None => None,
                },
                _ => None,
            }
        },
        _ => None,
    }
}

// ---------------------------------------------------------------------------
// Round trip: decoding an encoded submission returns the submission
// ---------------------------------------------------------------------------

/// Looking up a key finds the first member that carries it.
proof fn lemma_obj_get_at(ms: Seq<(Seq<char>, JsonV)>, key: Seq<char>, i: int)
    requires
        0 <= i < ms.len(),
        ms[i].0 == key,
        forall|j: int| 0 <= j < i ==> (#[trigger] ms[j]).0 != key,
    ensures
        spec_obj_get(ms, key) == Some(ms[i].1),
    decreases i,
{
    if i > 0 {
        assert forall|j: int| 0 <= j < i - 1 implies (#[trigger] ms.drop_first()[j]).0 != key by {
            assert(ms.drop_first()[j] == ms[j + 1]);
        }
        assert(ms.drop_first()[i - 1] == ms[i]);
        lemma_obj_get_at(ms.drop_first(), key, i - 1);
    }
}

/// Looking up a key no member carries finds nothing.
proof fn lemma_obj_get_none(ms: Seq<(Seq<char>, JsonV)>, key: Seq<char>)
    requires
        forall|j: int| 0 <= j < ms.len() ==> (#[trigger] ms[j]).0 != key,
    ensures
        spec_obj_get(ms, key) is None,
    decreases ms.len(),
{
    if ms.len() > 0 {
        assert forall|j: int| 0 <= j < ms.drop_first().len() implies (#[trigger] ms.drop_first()[j]).0
            != key by {
            assert(ms.drop_first()[j] == ms[j + 1]);
        }
        lemma_obj_get_none(ms.drop_first(), key);
    }
}


/// Decoding an encoded enum name returns the value, for each small wire
/// enumeration.
proof fn lemma_wire_names_round_trip()
    ensures
        forall|w: WireApi| #[trigger] spec_dec_wire_api(spec_enc_wire_api(w)) == Some(w),
        forall|a: AskForApproval| #[trigger] spec_dec_approval_policy(spec_enc_approval_policy(a))
            == Some(a),
        forall|d: ReviewDecision| #[trigger] spec_dec_review_decision(spec_enc_review_decision(d))
            == Some(d),
        forall|e: Option<ReasoningEffort>| #[trigger] spec_dec_effort(spec_enc_effort(e)) == Some(
            e,
        ),
        forall|su: Option<ReasoningSummary>| #[trigger] spec_dec_summary(spec_enc_summary(su))
            == Some(su),
{
    reveal_strlit("responses");
    reveal_strlit("chat");
    reveal_strlit("untrusted");
    reveal_strlit("on-failure");
    reveal_strlit("never");
    reveal_strlit("approved");
    reveal_strlit("approved_for_session");
    reveal_strlit("denied");
    reveal_strlit("abort");
    reveal_strlit("low");
    reveal_strlit("medium");
    reveal_strlit("high");
    reveal_strlit("auto");
    reveal_strlit("concise");
    reveal_strlit("detailed");
    assert("responses"@.len() == 9 && "chat"@.len() == 4);
    assert("untrusted"@.len() == 9 && "on-failure"@.len() == 10 && "never"@.len() == 5);
    assert("approved"@.len() == 8 && "approved_for_session"@.len() == 20 && "denied"@.len() == 6
        && "abort"@.len() == 5);
    assert("low"@.len() == 3 && "medium"@.len() == 6 && "high"@.len() == 4);
    assert("auto"@.len() == 4 && "concise"@.len() == 7 && "detailed"@.len() == 8);
    assert forall|w: WireApi| #[trigger] spec_dec_wire_api(spec_enc_wire_api(w)) == Some(w) by {
        match w {
            WireApi::Responses => {},
            WireApi::Chat => {},
        }
    }
    assert forall|a: AskForApproval| #[trigger] spec_dec_approval_policy(
        spec_enc_approval_policy(a),
    ) == Some(a) by {
        match a {
            AskForApproval::UnlessTrusted => {},
            AskForApproval::OnFailure => {},
            AskForApproval::Never => {},
        }
    }
    assert forall|d: ReviewDecision| #[trigger] spec_dec_review_decision(
        spec_enc_review_decision(d),
    ) == Some(d) by {
        match d {
            ReviewDecision::Approved => {},
            ReviewDecision::ApprovedForSession => {},
            ReviewDecision::Denied => {},
            ReviewDecision::Abort => {},
        }
    }
    assert forall|e: Option<ReasoningEffort>| #[trigger] spec_dec_effort(spec_enc_effort(e))
        == Some(e) by {
        match e {
            Some(ReasoningEffort::Low) => {},
            Some(ReasoningEffort::Medium) => {},
            Some(ReasoningEffort::High) => {},
            None => {},
        }
    }
    assert forall|su: Option<ReasoningSummary>| #[trigger] spec_dec_summary(spec_enc_summary(su))
        == Some(su) by {
        match su {
            Some(ReasoningSummary::Auto) => {},
            Some(ReasoningSummary::Concise) => {},
            Some(ReasoningSummary::Detailed) => {},
            None => {},
        }
    }
}

/// Decoding an encoded provider descriptor returns the descriptor.
proof fn lemma_provider_round_trip(p: ModelProviderInfoV)
    ensures
        spec_dec_provider(spec_enc_provider(p)) == Some(p),
{
    lemma_wire_names_round_trip();
    reveal_strlit("name");
    reveal_strlit("base_url");
    reveal_strlit("env_key");
    reveal_strlit("env_key_instructions");
    reveal_strlit("wire_api");
    reveal_strlit("request_max_retries");
    reveal_strlit("stream_max_retries");
    reveal_strlit("stream_idle_timeout_ms");
    assert("name"@.len() == 4 && "name"@[0] == 'n');
    assert("base_url"@.len() == 8 && "base_url"@[0] == 'b');
    assert("env_key"@.len() == 7 && "env_key"@[0] == 'e');
    assert("env_key_instructions"@.len() == 20);
    assert("wire_api"@.len() == 8 && "wire_api"@[0] == 'w');
    assert("request_max_retries"@.len() == 19);
    assert("stream_max_retries"@.len() == 18);
    assert("stream_idle_timeout_ms"@.len() == 22);
    let ms = spec_enc_provider(p)->Obj_0;
    assert(ms.len() == 8);
    lemma_obj_get_at(ms, "name"@, 0);
    lemma_obj_get_at(ms, "base_url"@, 1);
    lemma_obj_get_at(ms, "env_key"@, 2);
    lemma_obj_get_at(ms, "env_key_instructions"@, 3);
    lemma_obj_get_at(ms, "wire_api"@, 4);
    lemma_obj_get_at(ms, "request_max_retries"@, 5);
    lemma_obj_get_at(ms, "stream_max_retries"@, 6);
    lemma_obj_get_at(ms, "stream_idle_timeout_ms"@, 7);
}

/// Decoding an encoded path list returns the list.
proof fn lemma_path_list_round_trip(ps: Seq<PathV>)
    ensures
        spec_dec_path_list(spec_enc_path_arr(ps)->Arr_0) == Some(ps),
    decreases ps.len(),
{
    let enc = Seq::new(ps.len(), |i: int| spec_enc_path(ps[i]));
    if ps.len() == 0 {
        assert(ps =~= Seq::<PathV>::empty());
    } else {
        lemma_path_list_round_trip(ps.drop_last());
        let enc_prev = Seq::new(ps.drop_last().len(), |i: int| spec_enc_path(ps.drop_last()[i]));
        assert(enc.drop_last() =~= enc_prev);
        assert(enc.last() == spec_enc_path(ps.last()));
        crate::codec::lemma_path_round_trip(ps.last());
        assert(ps.drop_last().push(ps.last()) =~= ps);
    }
}

/// Decoding an encoded sandbox policy returns the policy.
proof fn lemma_sandbox_round_trip(s: SandboxPolicyV)
    ensures
        spec_dec_sandbox_policy(spec_enc_sandbox_policy(s)) == Some(s),
{
    reveal_strlit("danger-full-access");
    reveal_strlit("read-only");
    reveal_strlit("workspace-write");
    reveal_strlit("mode");
    reveal_strlit("writable_roots");
    reveal_strlit("network_access");
    assert("danger-full-access"@.len() == 18 && "read-only"@.len() == 9 && "workspace-write"@.len()
        == 15);
    assert("mode"@.len() == 4 && "writable_roots"@.len() == 14 && "network_access"@.len() == 14);
    assert("writable_roots"@[0] == 'w' && "network_access"@[0] == 'n');
    let ms = spec_enc_sandbox_policy(s)->Obj_0;
    match s {
        SandboxPolicyV::DangerFullAccess => {
            lemma_obj_get_at(ms, "mode"@, 0);
        },
        SandboxPolicyV::ReadOnly => {
            lemma_obj_get_at(ms, "mode"@, 0);
        },
        SandboxPolicyV::WorkspaceWrite { writable_roots, network_access } => {
            assert(ms.len() == 3);
            lemma_obj_get_at(ms, "mode"@, 0);
            lemma_obj_get_at(ms, "writable_roots"@, 1);
            lemma_obj_get_at(ms, "network_access"@, 2);
            lemma_path_list_round_trip(writable_roots);
        },
    }
}

/// Decoding an encoded input item returns the item.
proof fn lemma_input_item_round_trip(it: InputItemV)
    ensures
        spec_dec_input_item(spec_enc_input_item(it)) == Some(it),
{
    reveal_strlit("text");
    reveal_strlit("image");
    reveal_strlit("local_image");
    reveal_strlit("type");
    reveal_strlit("image_url");
    reveal_strlit("path");
    assert("text"@.len() == 4 && "image"@.len() == 5 && "local_image"@.len() == 11);
    assert("type"@.len() == 4 && "image_url"@.len() == 9 && "path"@.len() == 4);
    assert("type"@[1] == 'y' && "text"@[1] == 'e' && "path"@[0] == 'p');
    let ms = spec_enc_input_item(it)->Obj_0;
    match it {
        InputItemV::Text { text } => {
            lemma_obj_get_at(ms, "type"@, 0);
            lemma_obj_get_at(ms, "text"@, 1);
        },
        InputItemV::Image { image_url } => {
            lemma_obj_get_at(ms, "type"@, 0);
            lemma_obj_get_at(ms, "image_url"@, 1);
        },
        InputItemV::LocalImage { path } => {
            lemma_obj_get_at(ms, "type"@, 0);
            lemma_obj_get_at(ms, "path"@, 1);
            crate::codec::lemma_path_round_trip(path);
        },
    }
}

/// Decoding an encoded input list returns the list.
proof fn lemma_input_list_round_trip(items: Seq<InputItemV>)
    ensures
        spec_dec_input_list(spec_enc_input_items(items)->Arr_0) == Some(items),
    decreases items.len(),
{
    let enc = Seq::new(items.len(), |i: int| spec_enc_input_item(items[i]));
    if items.len() == 0 {
        assert(items =~= Seq::<InputItemV>::empty());
    } else {
        lemma_input_list_round_trip(items.drop_last());
        let enc_prev = Seq::new(
            items.drop_last().len(),
            |i: int| spec_enc_input_item(items.drop_last()[i]),
        );
        assert(enc.drop_last() =~= enc_prev);
        assert(enc.last() == spec_enc_input_item(items.last()));
        lemma_input_item_round_trip(items.last());
        assert(items.drop_last().push(items.last()) =~= items);
    }
}

/// Decoding an encoded operation returns the operation.
pub proof fn lemma_op_round_trip(op: OpV)
    ensures
        spec_decode_op(spec_encode_op(op)) == Some(op),
{
    reveal_strlit("configure_session");
    reveal_strlit("interrupt");
    reveal_strlit("user_input");
    reveal_strlit("exec_approval");
    reveal_strlit("patch_approval");
    reveal_strlit("add_to_history");
    reveal_strlit("get_history_entry_request");
    reveal_strlit("shutdown");
    reveal_strlit("type");
    reveal_strlit("provider");
    reveal_strlit("model");
    reveal_strlit("model_reasoning_effort");
    reveal_strlit("model_reasoning_summary");
    reveal_strlit("user_instructions");
    reveal_strlit("base_instructions");
    reveal_strlit("approval_policy");
    reveal_strlit("sandbox_policy");
    reveal_strlit("disable_response_storage");
    reveal_strlit("notify");
    reveal_strlit("cwd");
    reveal_strlit("resume_path");
    reveal_strlit("items");
    reveal_strlit("id");
    reveal_strlit("decision");
    reveal_strlit("text");
    reveal_strlit("offset");
    reveal_strlit("log_id");
    assert("configure_session"@.len() == 17 && "configure_session"@[0] == 'c');
    assert("interrupt"@.len() == 9 && "interrupt"@[0] == 'i');
    assert("user_input"@.len() == 10 && "user_input"@[0] == 'u');
    assert("exec_approval"@.len() == 13 && "exec_approval"@[0] == 'e');
    assert("patch_approval"@.len() == 14 && "patch_approval"@[0] == 'p');
    assert("add_to_history"@.len() == 14 && "add_to_history"@[0] == 'a');
    assert("get_history_entry_request"@.len() == 25 && "get_history_entry_request"@[0] == 'g');
    assert("shutdown"@.len() == 8 && "shutdown"@[0] == 's');
    assert("type"@.len() == 4 && "type"@[1] == 'y');
    assert("provider"@.len() == 8);
    assert("model"@.len() == 5);
    assert("model_reasoning_effort"@.len() == 22);
    assert("model_reasoning_summary"@.len() == 23);
    assert("user_instructions"@.len() == 17 && "user_instructions"@[0] == 'u');
    assert("base_instructions"@.len() == 17 && "base_instructions"@[0] == 'b');
    assert("approval_policy"@.len() == 15);
    assert("sandbox_policy"@.len() == 14);
    assert("disable_response_storage"@.len() == 24);
    assert("notify"@.len() == 6 && "notify"@[0] == 'n');
    assert("cwd"@.len() == 3);
    assert("resume_path"@.len() == 11);
    assert("items"@.len() == 5);
    assert("id"@.len() == 2);
    assert("decision"@.len() == 8);
    assert("text"@.len() == 4 && "text"@[1] == 'e');
    assert("offset"@.len() == 6 && "offset"@[0] == 'o');
    assert("log_id"@.len() == 6 && "log_id"@[0] == 'l');
    let j = spec_encode_op(op);
    match op {
        OpV::ConfigureSession {
            provider,
            model,
            model_reasoning_effort,
            model_reasoning_summary,
            user_instructions,
            base_instructions,
            approval_policy,
            sandbox_policy,
            disable_response_storage,
            notify,
            cwd,
            resume_path,
        } => {
            let ms = j->Obj_0;
            assert(ms.len() == 13);
            lemma_obj_get_at(ms, "type"@, 0);
            lemma_obj_get_at(ms, "provider"@, 1);
            lemma_obj_get_at(ms, "model"@, 2);
            lemma_obj_get_at(ms, "model_reasoning_effort"@, 3);
            lemma_obj_get_at(ms, "model_reasoning_summary"@, 4);
            lemma_obj_get_at(ms, "user_instructions"@, 5);
            lemma_obj_get_at(ms, "base_instructions"@, 6);
            lemma_obj_get_at(ms, "approval_policy"@, 7);
            lemma_obj_get_at(ms, "sandbox_policy"@, 8);
            lemma_obj_get_at(ms, "disable_response_storage"@, 9);
            lemma_obj_get_at(ms, "notify"@, 10);
            lemma_obj_get_at(ms, "cwd"@, 11);
            lemma_obj_get_at(ms, "resume_path"@, 12);
            lemma_wire_names_round_trip();
            lemma_provider_round_trip(provider);
            lemma_sandbox_round_trip(sandbox_policy);
            crate::codec::lemma_path_round_trip(cwd);
            match notify {
                Some(ws) => {
                    crate::codec::lemma_str_list_round_trip(ws);
                    assert(spec_enc_str_arr(ws) is Arr);
                },
                None => {},
            }
            match resume_path {
                Some(p) => {
                    crate::codec::lemma_path_round_trip(p);
                    assert(spec_enc_path(p) is Obj);
                },
                None => {},
            }
            assert(spec_decode_op(j) == Some(op));
        },
        OpV::Interrupt => {
            lemma_obj_get_at(j->Obj_0, "type"@, 0);
            assert(spec_decode_op(j) == Some(op));
        },
        OpV::UserInput { items } => {
            let ms = j->Obj_0;
            lemma_obj_get_at(ms, "type"@, 0);
            lemma_obj_get_at(ms, "items"@, 1);
            lemma_input_list_round_trip(items);
            assert(spec_decode_op(j) == Some(op));
        },
        OpV::ExecApproval { id, decision } => {
            let ms = j->Obj_0;
            lemma_obj_get_at(ms, "type"@, 0);
            lemma_obj_get_at(ms, "id"@, 1);
            lemma_obj_get_at(ms, "decision"@, 2);
            lemma_wire_names_round_trip();
            assert(spec_decode_op(j) == Some(op));
        },
        OpV::PatchApproval { id, decision } => {
            let ms = j->Obj_0;
            lemma_obj_get_at(ms, "type"@, 0);
            lemma_obj_get_at(ms, "id"@, 1);
            lemma_obj_get_at(ms, "decision"@, 2);
            lemma_wire_names_round_trip();
            assert(spec_decode_op(j) == Some(op));
        },
        OpV::AddToHistory { text } => {
            let ms = j->Obj_0;
            lemma_obj_get_at(ms, "type"@, 0);
            lemma_obj_get_at(ms, "text"@, 1);
            assert(spec_decode_op(j) == Some(op));
        },
        OpV::GetHistoryEntryRequest { offset, log_id } => {
            let ms = j->Obj_0;
            lemma_obj_get_at(ms, "type"@, 0);
            lemma_obj_get_at(ms, "offset"@, 1);
            lemma_obj_get_at(ms, "log_id"@, 2);
            assert(ms[1].1->UInt_0 == offset as u64);
            assert(spec_decode_op(j) == Some(op));
        },
        OpV::Shutdown => {
            lemma_obj_get_at(j->Obj_0, "type"@, 0);
            assert(spec_decode_op(j) == Some(op));
        },
    }
}

/// Decoding an encoded submission returns the submission.
pub proof fn lemma_submission_round_trip(s: SubmissionV)
    ensures
        spec_decode_submission(spec_encode_submission(s)) == Some(s),
{
    reveal_strlit("id");
    reveal_strlit("op");
    assert("id"@.len() == 2 && "op"@.len() == 2);
    assert("id"@[0] == 'i' && "op"@[0] == 'o');
    let ms = spec_encode_submission(s)->Obj_0;
    lemma_obj_get_at(ms, "id"@, 0);
    lemma_obj_get_at(ms, "op"@, 1);
    lemma_op_round_trip(s.op);
}

// ---------------------------------------------------------------------------
// Executable encoding and decoding
// ---------------------------------------------------------------------------

fn enc_wire_api(w: WireApi) -> (r: Json)
    ensures
        r@ == spec_enc_wire_api(w),
{
    match w {
        WireApi::Responses => jstr_lit("responses"),
        WireApi::Chat => jstr_lit("chat"),
    }
}

fn enc_approval_policy(a: AskForApproval) -> (r: Json)
    ensures
        r@ == spec_enc_approval_policy(a),
{
    match a {
        AskForApproval::UnlessTrusted => jstr_lit("untrusted"),
        AskForApproval::OnFailure => jstr_lit("on-failure"),
        AskForApproval::Never => jstr_lit("never"),
    }
}

fn enc_review_decision(d: ReviewDecision) -> (r: Json)
    ensures
        r@ == spec_enc_review_decision(d),
{
    match d {
        ReviewDecision::Approved => jstr_lit("approved"),
        ReviewDecision::ApprovedForSession => jstr_lit("approved_for_session"),
        ReviewDecision::Denied => jstr_lit("denied"),
        ReviewDecision::Abort => jstr_lit("abort"),
    }
}

fn enc_effort(e: Option<ReasoningEffort>) -> (r: Json)
    ensures
        r@ == spec_enc_effort(e),
{
    match e {
        Some(ReasoningEffort::Low) => jstr_lit("low"),
        Some(ReasoningEffort::Medium) => jstr_lit("medium"),
        Some(ReasoningEffort::High) => jstr_lit("high"),
        None => Json::Null,
    }
}

fn enc_summary(su: Option<ReasoningSummary>) -> (r: Json)
    ensures
        r@ == spec_enc_summary(su),
{
    match su {
        Some(ReasoningSummary::Auto) => jstr_lit("auto"),
        Some(ReasoningSummary::Concise) => jstr_lit("concise"),
        Some(ReasoningSummary::Detailed) => jstr_lit("detailed"),
        None => Json::Null,
    }
}

fn enc_provider(p: &ModelProviderInfo) -> (r: Json)
    ensures
        r@ == spec_enc_provider(p@),
{
    let members = vec![
        jmember("name", jstr(&p.name)),
        jmember("base_url", jstr(&p.base_url)),
        jmember("env_key", enc_opt_str(&p.env_key)),
        jmember("env_key_instructions", enc_opt_str(&p.env_key_instructions)),
        jmember("wire_api", enc_wire_api(p.wire_api)),
        jmember("request_max_retries", enc_opt_u64(&p.request_max_retries)),
        jmember("stream_max_retries", enc_opt_u64(&p.stream_max_retries)),
        jmember("stream_idle_timeout_ms", enc_opt_u64(&p.stream_idle_timeout_ms)),
    ];
    let r = Json::Obj(members);
    proof {
        let ovs = r@->Obj_0;
        let svs = spec_enc_provider(p@)->Obj_0;
        assert(ovs.len() == 8 && svs.len() == 8);
        assert(members@[0].key@ == "name"@ && members@[0].value@ == JsonV::Str(p.name@));
        assert(ovs[0].0 == "name"@ && ovs[0].1 == JsonV::Str(p.name@));
        assert(svs[0].0 == "name"@ && svs[0].1 == JsonV::Str(p.name@));
        assert(members@[1].key@ == "base_url"@ && members@[1].value@ == JsonV::Str(p.base_url@));
        assert(ovs[1].0 == "base_url"@ && ovs[1].1 == JsonV::Str(p.base_url@));
        assert(svs[1].0 == "base_url"@ && svs[1].1 == JsonV::Str(p.base_url@));
        assert(members@[2].key@ == "env_key"@ && members@[2].value@ == spec_enc_opt_str(
            view_opt_str(p.env_key),
        ));
        assert(ovs[2].0 == "env_key"@ && ovs[2].1 == spec_enc_opt_str(view_opt_str(p.env_key)));
        assert(svs[2].0 == "env_key"@ && svs[2].1 == spec_enc_opt_str(view_opt_str(p.env_key)));
        assert(members@[3].key@ == "env_key_instructions"@ && members@[3].value@
            == spec_enc_opt_str(view_opt_str(p.env_key_instructions)));
        assert(ovs[3].0 == "env_key_instructions"@ && ovs[3].1 == spec_enc_opt_str(
            view_opt_str(p.env_key_instructions),
        ));
        assert(svs[3].0 == "env_key_instructions"@ && svs[3].1 == spec_enc_opt_str(
            view_opt_str(p.env_key_instructions),
        ));
        assert(members@[4].key@ == "wire_api"@ && members@[4].value@ == spec_enc_wire_api(
            p.wire_api,
        ));
        assert(ovs[4].0 == "wire_api"@ && ovs[4].1 == spec_enc_wire_api(p.wire_api));
        assert(svs[4].0 == "wire_api"@ && svs[4].1 == spec_enc_wire_api(p.wire_api));
        assert(members@[5].key@ == "request_max_retries"@ && members@[5].value@
            == spec_enc_opt_u64(p.request_max_retries));
        assert(ovs[5].0 == "request_max_retries"@ && ovs[5].1 == spec_enc_opt_u64(
            p.request_max_retries,
        ));
        assert(svs[5].0 == "request_max_retries"@ && svs[5].1 == spec_enc_opt_u64(
            p.request_max_retries,
        ));
        assert(members@[6].key@ == "stream_max_retries"@ && members@[6].value@
            == spec_enc_opt_u64(p.stream_max_retries));
        assert(ovs[6].0 == "stream_max_retries"@ && ovs[6].1 == spec_enc_opt_u64(
            p.stream_max_retries,
        ));
        assert(svs[6].0 == "stream_max_retries"@ && svs[6].1 == spec_enc_opt_u64(
            p.stream_max_retries,
        ));
        assert(members@[7].key@ == "stream_idle_timeout_ms"@ && members@[7].value@
            == spec_enc_opt_u64(p.stream_idle_timeout_ms));
        assert(ovs[7].0 == "stream_idle_timeout_ms"@ && ovs[7].1 == spec_enc_opt_u64(
            p.stream_idle_timeout_ms,
        ));
        assert(svs[7].0 == "stream_idle_timeout_ms"@ && svs[7].1 == spec_enc_opt_u64(
            p.stream_idle_timeout_ms,
        ));
        assert(ovs =~= svs);
    }
    r
}

fn enc_path_arr(ps: &Vec<FsPath>) -> (r: Json)
    ensures
        r@ == spec_enc_path_arr(ps.deep_view()),
{
    let mut items: Vec<Json> = Vec::new();
    let mut i: usize = 0;
    while i < ps.len()
        invariant
            i <= ps@.len(),
            items@.len() == i,
            forall|k: int| 0 <= k < i ==> items@[k]@ == spec_enc_path(ps@[k]@),
        decreases ps@.len() - i,
    {
        items.push(enc_path(&ps[i]));
        i = i + 1;
    }
    let r = Json::Arr(items);
    proof {
        assert forall|k: int| 0 <= k < ps@.len() implies r@->Arr_0[k] == spec_enc_path_arr(
            ps.deep_view(),
        )->Arr_0[k] by {
            assert(ps.deep_view()[k] == ps@[k]@);
        }
        assert(r@->Arr_0 =~= spec_enc_path_arr(ps.deep_view())->Arr_0);
    }
    r
}

fn enc_sandbox_policy(s: &SandboxPolicy) -> (r: Json)
    ensures
        r@ == spec_enc_sandbox_policy(s@),
{
    match s {
        SandboxPolicy::DangerFullAccess => {
            let members = vec![jmember("mode", jstr_lit("danger-full-access"))];
            let r = Json::Obj(members);
            proof {
                assert(members@[0].key@ == "mode"@);
                assert(r@->Obj_0[0].0 == "mode"@ && r@->Obj_0[0].1 == JsonV::Str(
                    "danger-full-access"@,
                ));
                assert(r@->Obj_0 =~= spec_enc_sandbox_policy(s@)->Obj_0);
            }
            r
        },
        SandboxPolicy::ReadOnly => {
            let members = vec![jmember("mode", jstr_lit("read-only"))];
            let r = Json::Obj(members);
            proof {
                assert(members@[0].key@ == "mode"@);
                assert(r@->Obj_0[0].0 == "mode"@ && r@->Obj_0[0].1 == JsonV::Str("read-only"@));
                assert(r@->Obj_0 =~= spec_enc_sandbox_policy(s@)->Obj_0);
            }
            r
        },
        SandboxPolicy::WorkspaceWrite { writable_roots, network_access } => {
            let members = vec![
                jmember("mode", jstr_lit("workspace-write")),
                jmember("writable_roots", enc_path_arr(writable_roots)),
                jmember("network_access", Json::Bool(*network_access)),
            ];
            let r = Json::Obj(members);
            proof {
                let ovs = r@->Obj_0;
                let svs = spec_enc_sandbox_policy(s@)->Obj_0;
                assert(ovs.len() == 3 && svs.len() == 3);
                assert(members@[0].key@ == "mode"@);
                assert(ovs[0].0 == "mode"@ && ovs[0].1 == JsonV::Str("workspace-write"@));
                assert(svs[0].0 == "mode"@ && svs[0].1 == JsonV::Str("workspace-write"@));
                assert(members@[1].key@ == "writable_roots"@ && members@[1].value@
                    == spec_enc_path_arr(writable_roots.deep_view()));
                assert(ovs[1].0 == "writable_roots"@ && ovs[1].1 == spec_enc_path_arr(
                    writable_roots.deep_view(),
                ));
                assert(svs[1].0 == "writable_roots"@ && svs[1].1 == spec_enc_path_arr(
                    writable_roots.deep_view(),
                ));
                assert(members@[2].key@ == "network_access"@ && members@[2].value@ == JsonV::Bool(
                    *network_access,
                ));
                assert(ovs[2].0 == "network_access"@ && ovs[2].1 == JsonV::Bool(*network_access));
                assert(svs[2].0 == "network_access"@ && svs[2].1 == JsonV::Bool(*network_access));
                assert(ovs =~= svs);
            }
            r
        },
    }
}

fn enc_input_item(it: &InputItem) -> (r: Json)
    ensures
        r@ == spec_enc_input_item(it@),
{
    match it {
        InputItem::Text { text } => {
            let members = vec![jmember("type", jstr_lit("text")), jmember("text", jstr(text))];
            let r = Json::Obj(members);
            proof {
                assert(members@[0].key@ == "type"@ && members@[1].key@ == "text"@);
                assert(r@->Obj_0[0].0 == "type"@ && r@->Obj_0[0].1 == JsonV::Str("text"@));
                assert(r@->Obj_0[1].0 == "text"@ && r@->Obj_0[1].1 == JsonV::Str(text@));
                assert(r@->Obj_0 =~= spec_enc_input_item(it@)->Obj_0);
            }
            r
        },
        InputItem::Image { image_url } => {
            let members = vec![
                jmember("type", jstr_lit("image")),
                jmember("image_url", jstr(image_url)),
            ];
            let r = Json::Obj(members);
            proof {
                assert(members@[0].key@ == "type"@ && members@[1].key@ == "image_url"@);
                assert(r@->Obj_0[0].0 == "type"@ && r@->Obj_0[0].1 == JsonV::Str("image"@));
                assert(r@->Obj_0[1].0 == "image_url"@ && r@->Obj_0[1].1 == JsonV::Str(
                    image_url@,
                ));
                assert(r@->Obj_0 =~= spec_enc_input_item(it@)->Obj_0);
            }
            r
        },
        InputItem::LocalImage { path } => {
            let members = vec![
                jmember("type", jstr_lit("local_image")),
                jmember("path", enc_path(path)),
            ];
            let r = Json::Obj(members);
            proof {
                assert(members@[0].key@ == "type"@ && members@[1].key@ == "path"@);
                assert(r@->Obj_0[0].0 == "type"@ && r@->Obj_0[0].1 == JsonV::Str("local_image"@));
                assert(r@->Obj_0[1].0 == "path"@ && r@->Obj_0[1].1 == spec_enc_path(path@));
                assert(r@->Obj_0 =~= spec_enc_input_item(it@)->Obj_0);
            }
            r
        },
    }
}

fn enc_input_items(items: &Vec<InputItem>) -> (r: Json)
    ensures
        r@ == spec_enc_input_items(items.deep_view()),
{
    let mut out: Vec<Json> = Vec::new();
    let mut i: usize = 0;
    while i < items.len()
        invariant
            i <= items@.len(),
            out@.len() == i,
            forall|k: int| 0 <= k < i ==> out@[k]@ == spec_enc_input_item(items@[k]@),
        decreases items@.len() - i,
    {
        out.push(enc_input_item(&items[i]));
        i = i + 1;
    }
    let r = Json::Arr(out);
    proof {
        assert forall|k: int| 0 <= k < items@.len() implies r@->Arr_0[k] == spec_enc_input_items(
            items.deep_view(),
        )->Arr_0[k] by {
            assert(items.deep_view()[k] == items@[k]@);
        }
        assert(r@->Arr_0 =~= spec_enc_input_items(items.deep_view())->Arr_0);
    }
    r
}

/// Encodes an operation into its canonical JSON tree.
pub fn encode_op(op: &Op) -> (r: Json)
    ensures
        r@ == spec_encode_op(op@),
{
    match op {
        Op::ConfigureSession {
            provider,
            model,
            model_reasoning_effort,
            model_reasoning_summary,
            user_instructions,
            base_instructions,
            approval_policy,
            sandbox_policy,
            disable_response_storage,
            notify,
            cwd,
            resume_path,
        } => {
            let members = vec![
                jmember("type", jstr_lit("configure_session")),
                jmember("provider", enc_provider(provider)),
                jmember("model", jstr(model)),
                jmember("model_reasoning_effort", enc_effort(*model_reasoning_effort)),
                jmember("model_reasoning_summary", enc_summary(*model_reasoning_summary)),
                jmember("user_instructions", enc_opt_str(user_instructions)),
                jmember("base_instructions", enc_opt_str(base_instructions)),
                jmember("approval_policy", enc_approval_policy(*approval_policy)),
                jmember("sandbox_policy", enc_sandbox_policy(sandbox_policy)),
                jmember("disable_response_storage", Json::Bool(*disable_response_storage)),
                jmember(
                    "notify",
                    match notify {
                        Some(ws) => enc_str_arr(ws),
                        None => Json::Null,
                    },
                ),
                jmember("cwd", enc_path(cwd)),
                jmember(
                    "resume_path",
                    match resume_path {
                        Some(p) => enc_path(p),
                        None => Json::Null,
                    },
                ),
            ];
            let r = Json::Obj(members);
            proof {
                let ovs = r@->Obj_0;
                let svs = spec_encode_op(op@)->Obj_0;
                assert(ovs.len() == 13 && svs.len() == 13);
                assert(members@[0].key@ == "type"@);
                assert(ovs[0].0 == "type"@ && ovs[0].1 == JsonV::Str("configure_session"@));
                assert(svs[0].0 == "type"@ && svs[0].1 == JsonV::Str("configure_session"@));
                assert(members@[1].key@ == "provider"@ && members@[1].value@ == spec_enc_provider(
                    provider@,
                ));
                assert(ovs[1].0 == "provider"@ && ovs[1].1 == spec_enc_provider(provider@));
                assert(svs[1].0 == "provider"@ && svs[1].1 == spec_enc_provider(provider@));
                assert(members@[2].key@ == "model"@ && members@[2].value@ == JsonV::Str(model@));
                assert(ovs[2].0 == "model"@ && ovs[2].1 == JsonV::Str(model@));
                assert(svs[2].0 == "model"@ && svs[2].1 == JsonV::Str(model@));
                assert(members@[3].key@ == "model_reasoning_effort"@ && members@[3].value@
                    == spec_enc_effort(*model_reasoning_effort));
                assert(ovs[3].0 == "model_reasoning_effort"@ && ovs[3].1 == spec_enc_effort(
                    *model_reasoning_effort,
                ));
                assert(svs[3].0 == "model_reasoning_effort"@ && svs[3].1 == spec_enc_effort(
                    *model_reasoning_effort,
                ));
                assert(members@[4].key@ == "model_reasoning_summary"@ && members@[4].value@
                    == spec_enc_summary(*model_reasoning_summary));
                assert(ovs[4].0 == "model_reasoning_summary"@ && ovs[4].1 == spec_enc_summary(
                    *model_reasoning_summary,
                ));
                assert(svs[4].0 == "model_reasoning_summary"@ && svs[4].1 == spec_enc_summary(
                    *model_reasoning_summary,
                ));
                assert(members@[5].key@ == "user_instructions"@ && members@[5].value@
                    == spec_enc_opt_str(view_opt_str(*user_instructions)));
                assert(ovs[5].0 == "user_instructions"@ && ovs[5].1 == spec_enc_opt_str(
                    view_opt_str(*user_instructions),
                ));
                assert(svs[5].0 == "user_instructions"@ && svs[5].1 == spec_enc_opt_str(
                    view_opt_str(*user_instructions),
                ));
                assert(members@[6].key@ == "base_instructions"@ && members@[6].value@
                    == spec_enc_opt_str(view_opt_str(*base_instructions)));
                assert(ovs[6].0 == "base_instructions"@ && ovs[6].1 == spec_enc_opt_str(
                    view_opt_str(*base_instructions),
                ));
                assert(svs[6].0 == "base_instructions"@ && svs[6].1 == spec_enc_opt_str(
                    view_opt_str(*base_instructions),
                ));
                assert(members@[7].key@ == "approval_policy"@ && members@[7].value@
                    == spec_enc_approval_policy(*approval_policy));
                assert(ovs[7].0 == "approval_policy"@ && ovs[7].1 == spec_enc_approval_policy(
                    *approval_policy,
                ));
                assert(svs[7].0 == "approval_policy"@ && svs[7].1 == spec_enc_approval_policy(
                    *approval_policy,
                ));
                assert(members@[8].key@ == "sandbox_policy"@ && members@[8].value@
                    == spec_enc_sandbox_policy(sandbox_policy@));
                assert(ovs[8].0 == "sandbox_policy"@ && ovs[8].1 == spec_enc_sandbox_policy(
                    sandbox_policy@,
                ));
                assert(svs[8].0 == "sandbox_policy"@ && svs[8].1 == spec_enc_sandbox_policy(
                    sandbox_policy@,
                ));
                assert(members@[9].key@ == "disable_response_storage"@ && members@[9].value@
                    == JsonV::Bool(*disable_response_storage));
                assert(ovs[9].0 == "disable_response_storage"@ && ovs[9].1 == JsonV::Bool(
                    *disable_response_storage,
                ));
                assert(svs[9].0 == "disable_response_storage"@ && svs[9].1 == JsonV::Bool(
                    *disable_response_storage,
                ));
                let nv = (match view_opt_str_list(*notify) {
                    Some(ws) => spec_enc_str_arr(ws),
                    None => JsonV::Null,
                });
                assert(members@[10].key@ == "notify"@ && members@[10].value@ == nv);
                assert(ovs[10].0 == "notify"@ && ovs[10].1 == nv);
                assert(svs[10].0 == "notify"@ && svs[10].1 == nv);
                assert(members@[11].key@ == "cwd"@ && members@[11].value@ == spec_enc_path(cwd@));
                assert(ovs[11].0 == "cwd"@ && ovs[11].1 == spec_enc_path(cwd@));
                assert(svs[11].0 == "cwd"@ && svs[11].1 == spec_enc_path(cwd@));
                let rv = (match view_opt_fs_path(*resume_path) {
                    Some(p) => spec_enc_path(p),
                    None => JsonV::Null,
                });
                assert(members@[12].key@ == "resume_path"@ && members@[12].value@ == rv);
                assert(ovs[12].0 == "resume_path"@ && ovs[12].1 == rv);
                assert(svs[12].0 == "resume_path"@ && svs[12].1 == rv);
                assert(ovs =~= svs);
            }
            r
        },
        Op::Interrupt => {
            let members = vec![jmember("type", jstr_lit("interrupt"))];
            let r = Json::Obj(members);
            proof {
                assert(members@[0].key@ == "type"@);
                assert(r@->Obj_0[0].0 == "type"@ && r@->Obj_0[0].1 == JsonV::Str("interrupt"@));
                assert(r@->Obj_0 =~= spec_encode_op(op@)->Obj_0);
            }
            r
        },
        Op::UserInput { items } => {
            let members = vec![
                jmember("type", jstr_lit("user_input")),
                jmember("items", enc_input_items(items)),
            ];
            let r = Json::Obj(members);
            proof {
                assert(members@[0].key@ == "type"@ && members@[1].key@ == "items"@);
                assert(members@[1].value@ == spec_enc_input_items(items.deep_view()));
                assert(r@->Obj_0[0].0 == "type"@ && r@->Obj_0[0].1 == JsonV::Str("user_input"@));
                assert(r@->Obj_0[1].0 == "items"@ && r@->Obj_0[1].1 == spec_enc_input_items(
                    items.deep_view(),
                ));
                assert(r@->Obj_0 =~= spec_encode_op(op@)->Obj_0);
            }
            r
        },
        Op::ExecApproval { id, decision } => {
            let members = vec![
                jmember("type", jstr_lit("exec_approval")),
                jmember("id", jstr(id)),
                jmember("decision", enc_review_decision(*decision)),
            ];
            let r = Json::Obj(members);
            proof {
                assert(members@[0].key@ == "type"@ && members@[1].key@ == "id"@ && members@[2].key@
                    == "decision"@);
                assert(members@[2].value@ == spec_enc_review_decision(*decision));
                assert(r@->Obj_0[0].0 == "type"@ && r@->Obj_0[0].1 == JsonV::Str(
                    "exec_approval"@,
                ));
                assert(r@->Obj_0[1].0 == "id"@ && r@->Obj_0[1].1 == JsonV::Str(id@));
                assert(r@->Obj_0[2].0 == "decision"@ && r@->Obj_0[2].1
                    == spec_enc_review_decision(*decision));
                assert(r@->Obj_0 =~= spec_encode_op(op@)->Obj_0);
            }
            r
        },
        Op::PatchApproval { id, decision } => {
            let members = vec![
                jmember("type", jstr_lit("patch_approval")),
                jmember("id", jstr(id)),
                jmember("decision", enc_review_decision(*decision)),
            ];
            let r = Json::Obj(members);
            proof {
                assert(members@[0].key@ == "type"@ && members@[1].key@ == "id"@ && members@[2].key@
                    == "decision"@);
                assert(members@[2].value@ == spec_enc_review_decision(*decision));
                assert(r@->Obj_0[0].0 == "type"@ && r@->Obj_0[0].1 == JsonV::Str(
                    "patch_approval"@,
                ));
                assert(r@->Obj_0[1].0 == "id"@ && r@->Obj_0[1].1 == JsonV::Str(id@));
                assert(r@->Obj_0[2].0 == "decision"@ && r@->Obj_0[2].1
                    == spec_enc_review_decision(*decision));
                assert(r@->Obj_0 =~= spec_encode_op(op@)->Obj_0);
            }
            r
        },
        Op::AddToHistory { text } => {
            let members = vec![
                jmember("type", jstr_lit("add_to_history")),
                jmember("text", jstr(text)),
            ];
            let r = Json::Obj(members);
            proof {
                assert(members@[0].key@ == "type"@ && members@[1].key@ == "text"@);
                assert(r@->Obj_0[0].0 == "type"@ && r@->Obj_0[0].1 == JsonV::Str(
                    "add_to_history"@,
                ));
                assert(r@->Obj_0[1].0 == "text"@ && r@->Obj_0[1].1 == JsonV::Str(text@));
                assert(r@->Obj_0 =~= spec_encode_op(op@)->Obj_0);
            }
            r
        },
        Op::GetHistoryEntryRequest { offset, log_id } => {
            let members = vec![
                jmember("type", jstr_lit("get_history_entry_request")),
                jmember("offset", Json::UInt(*offset as u64)),
                jmember("log_id", Json::UInt(*log_id)),
            ];
            let r = Json::Obj(members);
            proof {
                assert(members@[0].key@ == "type"@ && members@[1].key@ == "offset"@
                    && members@[2].key@ == "log_id"@);
                assert(members@[1].value@ == JsonV::UInt(*offset as u64));
                assert(members@[2].value@ == JsonV::UInt(*log_id));
                assert(r@->Obj_0[0].0 == "type"@ && r@->Obj_0[0].1 == JsonV::Str(
                    "get_history_entry_request"@,
                ));
                assert(r@->Obj_0[1].0 == "offset"@ && r@->Obj_0[1].1 == JsonV::UInt(
                    *offset as u64,
                ));
                assert(r@->Obj_0[2].0 == "log_id"@ && r@->Obj_0[2].1 == JsonV::UInt(*log_id));
                assert(r@->Obj_0 =~= spec_encode_op(op@)->Obj_0);
            }
            r
        },
        Op::Shutdown => {
            let members = vec![jmember("type", jstr_lit("shutdown"))];
            let r = Json::Obj(members);
            proof {
                assert(members@[0].key@ == "type"@);
                assert(r@->Obj_0[0].0 == "type"@ && r@->Obj_0[0].1 == JsonV::Str("shutdown"@));
                assert(r@->Obj_0 =~= spec_encode_op(op@)->Obj_0);
            }
            r
        },
    }
}

/// Encodes a submission into its canonical JSON tree.
pub fn encode_submission(s: &Submission) -> (r: Json)
    ensures
        r@ == spec_encode_submission(s@),
{
    let members = vec![jmember("id", jstr(&s.id)), jmember("op", encode_op(&s.op))];
    let r = Json::Obj(members);
    proof {
        assert(members@[0].key@ == "id"@ && members@[1].key@ == "op"@);
        assert(members@[1].value@ == spec_encode_op(s.op@));
        assert(r@->Obj_0[0].0 == "id"@ && r@->Obj_0[0].1 == JsonV::Str(s.id@));
        assert(r@->Obj_0[1].0 == "op"@ && r@->Obj_0[1].1 == spec_encode_op(s.op@));
        assert(r@->Obj_0 =~= spec_encode_submission(s@)->Obj_0);
    }
    r
}

fn dec_wire_api(v: &Json) -> (r: Option<WireApi>)
    ensures
        r == spec_dec_wire_api(v@),
{
    match v {
        Json::Str(t) => {
            if *t == String::from_str("responses") {
                Some(WireApi::Responses)
            } else if *t == String::from_str("chat") {
                Some(WireApi::Chat)
            } else {
                None
            }
        },
        _ => None,
    }
}

fn dec_approval_policy(v: &Json) -> (r: Option<AskForApproval>)
    ensures
        r == spec_dec_approval_policy(v@),
{
    match v {
        Json::Str(t) => {
            if *t == String::from_str("untrusted") {
                Some(AskForApproval::UnlessTrusted)
            } else if *t == String::from_str("on-failure") {
                Some(AskForApproval::OnFailure)
            } else if *t == String::from_str("never") {
                Some(AskForApproval::Never)
            } else {
                None
            }
        },
        _ => None,
    }
}

fn dec_review_decision(v: &Json) -> (r: Option<ReviewDecision>)
    ensures
        r == spec_dec_review_decision(v@),
{
    match v {
        Json::Str(t) => {
            if *t == String::from_str("approved") {
                Some(ReviewDecision::Approved)
            } else if *t == String::from_str("approved_for_session") {
                Some(ReviewDecision::ApprovedForSession)
            } else if *t == String::from_str("denied") {
                Some(ReviewDecision::Denied)
            } else if *t == String::from_str("abort") {
                Some(ReviewDecision::Abort)
            } else {
                None
            }
        },
        _ => None,
    }
}

fn dec_effort(v: &Json) -> (r: Option<Option<ReasoningEffort>>)
    ensures
        r == spec_dec_effort(v@),
{
    match v {
        Json::Null => Some(None),
        Json::Str(t) => {
            if *t == String::from_str("low") {
                Some(Some(ReasoningEffort::Low))
            } else if *t == String::from_str("medium") {
                Some(Some(ReasoningEffort::Medium))
            } else if *t == String::from_str("high") {
                Some(Some(ReasoningEffort::High))
            } else {
                None
            }
        },
        _ => None,
    }
}

fn dec_summary(v: &Json) -> (r: Option<Option<ReasoningSummary>>)
    ensures
        r == spec_dec_summary(v@),
{
    match v {
        Json::Null => Some(None),
        Json::Str(t) => {
            if *t == String::from_str("auto") {
                Some(Some(ReasoningSummary::Auto))
            } else if *t == String::from_str("concise") {
                Some(Some(ReasoningSummary::Concise))
            } else if *t == String::from_str("detailed") {
                Some(Some(ReasoningSummary::Detailed))
            } else {
                None
            }
        },
        _ => None,
    }
}

fn dec_provider(v: &Json) -> (r: Option<ModelProviderInfo>)
    ensures
        match r {
            Some(p) => spec_dec_provider(v@) == Some(p@),
            None => spec_dec_provider(v@) is None,
        },
{
    let members = match v {
        Json::Obj(members) => members,
        _ => {
            proof {
                assert(!(v@ is Obj));
            }
            return None;
        },
    };
    let ghost ms = v@->Obj_0;
    proof {
        assert(ms.len() == members@.len());
        assert forall|k: int| 0 <= k < ms.len() implies ms[k] == crate::json::spec_members_view(
            members@,
        )[k] by {
            assert(ms[k].0 == members@[k].key@ && ms[k].1 == members@[k].value@);
        }
        assert(crate::json::spec_members_view(members@) =~= ms);
    }
    let name = match obj_get_value(members, "name") {
        Some(Json::Str(t)) => t.clone(),
        _ => {
            return None;
        },
    };
    let base_url = match obj_get_value(members, "base_url") {
        Some(Json::Str(t)) => t.clone(),
        _ => {
            return None;
        },
    };
    let env_key = match obj_get_value(members, "env_key") {
        None => None,
        Some(v2) => match dec_opt_str(v2) {
            Some(o) => o,
            None => {
                return None;
            },
        },
    };
    let env_key_instructions = match obj_get_value(members, "env_key_instructions") {
        None => None,
        Some(v2) => match dec_opt_str(v2) {
            Some(o) => o,
            None => {
                return None;
            },
        },
    };
    let wire_api = match obj_get_value(members, "wire_api") {
        Some(v2) => match dec_wire_api(v2) {
            Some(w) => w,
            None => {
                return None;
            },
        },
        None => {
            return None;
        },
    };
    let request_max_retries = match obj_get_value(members, "request_max_retries") {
        None => None,
        Some(v2) => match dec_opt_u64(v2) {
            Some(o) => o,
            None => {
                return None;
            },
        },
    };
    let stream_max_retries = match obj_get_value(members, "stream_max_retries") {
        None => None,
        Some(v2) => match dec_opt_u64(v2) {
            Some(o) => o,
            None => {
                return None;
            },
        },
    };
    let stream_idle_timeout_ms = match obj_get_value(members, "stream_idle_timeout_ms") {
        None => None,
        Some(v2) => match dec_opt_u64(v2) {
            Some(o) => o,
            None => {
                return None;
            },
        },
    };
    Some(
        ModelProviderInfo {
            name,
            base_url,
            env_key,
            env_key_instructions,
            wire_api,
            request_max_retries,
            stream_max_retries,
            stream_idle_timeout_ms,
        },
    )
}

/// A list with an undecodable path at position `i` never decodes.
proof fn lemma_path_list_prefix_none(items: Seq<JsonV>, i: int)
    requires
        0 <= i < items.len(),
        spec_dec_path(items[i]) is None,
    ensures
        spec_dec_path_list(items) is None,
    decreases items.len(),
{
    if items.len() > 0 {
        if i == items.len() - 1 {
        } else {
            lemma_path_list_prefix_none(items.drop_last(), i);
        }
    }
}

fn dec_path_arr(v: &Json) -> (r: Option<Vec<FsPath>>)
    ensures
        match v@ {
            JsonV::Arr(items) => match r {
                Some(ps) => spec_dec_path_list(items) == Some(ps.deep_view()),
                None => spec_dec_path_list(items) is None,
            },
            _ => r is None,
        },
{
    let items = match v {
        Json::Arr(items) => items,
        _ => {
            proof {
                assert(!(v@ is Arr));
            }
            return None;
        },
    };
    let ghost ivs = v@->Arr_0;
    proof {
        assert(ivs.len() == items@.len());
        assert forall|k: int| 0 <= k < ivs.len() implies ivs[k] == items@[k]@ by {}
    }
    let mut out: Vec<FsPath> = Vec::new();
    let mut i: usize = 0;
    while i < items.len()
        invariant
            v@ is Arr && v@->Arr_0 == ivs,
            i <= items@.len(),
            ivs.len() == items@.len(),
            forall|k: int| 0 <= k < ivs.len() ==> ivs[k] == items@[k]@,
            spec_dec_path_list(ivs.take(i as int)) == Some(out.deep_view()),
        decreases items@.len() - i,
    {
        let ghost pre = out.deep_view();
        match dec_path(&items[i]) {
            Some(p) => {
                let ghost pv = p@;
                out.push(p);
                proof {
                    assert(ivs.take(i + 1 as int).drop_last() =~= ivs.take(i as int));
                    assert(ivs.take(i + 1 as int).last() == ivs[i as int]);
                    assert forall|k: int| 0 <= k < out.deep_view().len() implies out.deep_view()[k]
                        == pre.push(pv)[k] by {
                        assert(out.deep_view()[k] == out@[k]@);
                    }
                    assert(out.deep_view() =~= pre.push(pv));
                }
            },
            None => {
                proof {
                    lemma_path_list_prefix_none(ivs, i as int);
                }
                return None;
            },
        }
        i = i + 1;
    }
    proof {
        assert(ivs.take(ivs.len() as int) =~= ivs);
    }
    Some(out)
}

fn dec_sandbox_policy(v: &Json) -> (r: Option<SandboxPolicy>)
    ensures
        match r {
            Some(sp) => spec_dec_sandbox_policy(v@) == Some(sp@),
            None => spec_dec_sandbox_policy(v@) is None,
        },
{
    let members = match v {
        Json::Obj(members) => members,
        _ => {
            proof {
                assert(!(v@ is Obj));
            }
            return None;
        },
    };
    let ghost ms = v@->Obj_0;
    proof {
        assert(ms.len() == members@.len());
        assert forall|k: int| 0 <= k < ms.len() implies ms[k] == crate::json::spec_members_view(
            members@,
        )[k] by {
            assert(ms[k].0 == members@[k].key@ && ms[k].1 == members@[k].value@);
        }
        assert(crate::json::spec_members_view(members@) =~= ms);
    }
    let mode = match obj_get_value(members, "mode") {
        Some(Json::Str(t)) => t,
        _ => {
            return None;
        },
    };
    if *mode == String::from_str("danger-full-access") {
        Some(SandboxPolicy::DangerFullAccess)
    } else if *mode == String::from_str("read-only") {
        Some(SandboxPolicy::ReadOnly)
    } else if *mode == String::from_str("workspace-write") {
        let writable_roots = match obj_get_value(members, "writable_roots") {
            None => {
                let empty: Vec<FsPath> = Vec::new();
                proof {
                    assert(empty.deep_view() =~= Seq::<PathV>::empty());
                }
                empty
            },
            Some(v2) => match dec_path_arr(v2) {
                Some(ps) => ps,
                None => {
                    return None;
                },
            },
        };
        let network_access = match obj_get_value(members, "network_access") {
            None => false,
            Some(Json::Bool(b)) => *b,
            Some(_) => {
                return None;
            },
        };
        Some(SandboxPolicy::WorkspaceWrite { writable_roots, network_access })
    } else {
        None
    }
}

fn dec_input_item(v: &Json) -> (r: Option<InputItem>)
    ensures
        match r {
            Some(it) => spec_dec_input_item(v@) == Some(it@),
            None => spec_dec_input_item(v@) is None,
        },
{
    let members = match v {
        Json::Obj(members) => members,
        _ => {
            proof {
                assert(!(v@ is Obj));
            }
            return None;
        },
    };
    let ghost ms = v@->Obj_0;
    proof {
        assert(ms.len() == members@.len());
        assert forall|k: int| 0 <= k < ms.len() implies ms[k] == crate::json::spec_members_view(
            members@,
        )[k] by {
            assert(ms[k].0 == members@[k].key@ && ms[k].1 == members@[k].value@);
        }
        assert(crate::json::spec_members_view(members@) =~= ms);
    }
    let ty = match obj_get_value(members, "type") {
        Some(Json::Str(t)) => t,
        _ => {
            return None;
        },
    };
    if *ty == String::from_str("text") {
        match obj_get_value(members, "text") {
            Some(Json::Str(t)) => Some(InputItem::Text { text: t.clone() }),
            _ => None,
        }
    } else if *ty == String::from_str("image") {
        match obj_get_value(members, "image_url") {
            Some(Json::Str(t)) => Some(InputItem::Image { image_url: t.clone() }),
            _ => None,
        }
    } else if *ty == String::from_str("local_image") {
        match obj_get_value(members, "path") {
            Some(v2) => match dec_path(v2) {
                Some(path) => Some(InputItem::LocalImage { path }),
                None => None,
            },
            None => None,
        }
    } else {
        None
    }
}

/// A list with an undecodable input item at position `i` never decodes.
proof fn lemma_input_list_prefix_none(items: Seq<JsonV>, i: int)
    requires
        0 <= i < items.len(),
        spec_dec_input_item(items[i]) is None,
    ensures
        spec_dec_input_list(items) is None,
    decreases items.len(),
{
    if items.len() > 0 {
        if i == items.len() - 1 {
        } else {
            lemma_input_list_prefix_none(items.drop_last(), i);
        }
    }
}

fn dec_input_items(v: &Json) -> (r: Option<Vec<InputItem>>)
    ensures
        match v@ {
            JsonV::Arr(items) => match r {
                Some(its) => spec_dec_input_list(items) == Some(its.deep_view()),
                None => spec_dec_input_list(items) is None,
            },
            _ => r is None,
        },
{
    let items = match v {
        Json::Arr(items) => items,
        _ => {
            proof {
                assert(!(v@ is Arr));
            }
            return None;
        },
    };
    let ghost ivs = v@->Arr_0;
    proof {
        assert(ivs.len() == items@.len());
        assert forall|k: int| 0 <= k < ivs.len() implies ivs[k] == items@[k]@ by {}
    }
    let mut out: Vec<InputItem> = Vec::new();
    let mut i: usize = 0;
    while i < items.len()
        invariant
            v@ is Arr && v@->Arr_0 == ivs,
            i <= items@.len(),
            ivs.len() == items@.len(),
            forall|k: int| 0 <= k < ivs.len() ==> ivs[k] == items@[k]@,
            spec_dec_input_list(ivs.take(i as int)) == Some(out.deep_view()),
        decreases items@.len() - i,
    {
        let ghost pre = out.deep_view();
        match dec_input_item(&items[i]) {
            Some(it) => {
                let ghost itv = it@;
                out.push(it);
                proof {
                    assert(ivs.take(i + 1 as int).drop_last() =~= ivs.take(i as int));
                    assert(ivs.take(i + 1 as int).last() == ivs[i as int]);
                    assert forall|k: int| 0 <= k < out.deep_view().len() implies out.deep_view()[k]
                        == pre.push(itv)[k] by {
                        assert(out.deep_view()[k] == out@[k]@);
                    }
                    assert(out.deep_view() =~= pre.push(itv));
                }
            },
            None => {
                proof {
                    lemma_input_list_prefix_none(ivs, i as int);
                }
                return None;
            },
        }
        i = i + 1;
    }
    proof {
        assert(ivs.take(ivs.len() as int) =~= ivs);
    }
    Some(out)
}

/// Decodes an operation from its canonical or serde-shaped JSON tree:
/// fields are found by key in any order, unknown members are ignored, and
/// fields the original wire may omit take their defaults. `None` for
/// anything else, unknown discriminators included.
pub fn decode_op(j: &Json) -> (r: Option<Op>)
    ensures
        match r {
            Some(op) => spec_decode_op(j@) == Some(op@),
            None => spec_decode_op(j@) is None,
        },
{
    let members = match j {
        Json::Obj(members) => members,
        _ => {
            proof {
                assert(!(j@ is Obj));
            }
            return None;
        },
    };
    let ghost ms = j@->Obj_0;
    proof {
        assert(ms.len() == members@.len());
        assert forall|k: int| 0 <= k < ms.len() implies ms[k] == crate::json::spec_members_view(
            members@,
        )[k] by {
            assert(ms[k].0 == members@[k].key@ && ms[k].1 == members@[k].value@);
        }
        assert(crate::json::spec_members_view(members@) =~= ms);
    }
    let ty = match obj_get_value(members, "type") {
        Some(Json::Str(t)) => t,
        _ => {
            return None;
        },
    };
    if *ty == String::from_str("configure_session") {
        let provider = match obj_get_value(members, "provider") {
            Some(v) => match dec_provider(v) {
                Some(p) => p,
                None => {
                    return None;
                },
            },
            None => {
                return None;
            },
        };
        let model = match obj_get_value(members, "model") {
            Some(Json::Str(t)) => t.clone(),
            _ => {
                return None;
            },
        };
        let model_reasoning_effort = match obj_get_value(members, "model_reasoning_effort") {
            None => None,
            Some(v) => match dec_effort(v) {
                Some(e) => e,
                None => {
                    return None;
                },
            },
        };
        let model_reasoning_summary = match obj_get_value(members, "model_reasoning_summary") {
            None => None,
            Some(v) => match dec_summary(v) {
                Some(su) => su,
                None => {
                    return None;
                },
            },
        };
        let user_instructions = match obj_get_value(members, "user_instructions") {
            None => None,
            Some(v) => match dec_opt_str(v) {
                Some(o) => o,
                None => {
                    return None;
                },
            },
        };
        let base_instructions = match obj_get_value(members, "base_instructions") {
            None => None,
            Some(v) => match dec_opt_str(v) {
                Some(o) => o,
                None => {
                    return None;
                },
            },
        };
        let approval_policy = match obj_get_value(members, "approval_policy") {
            Some(v) => match dec_approval_policy(v) {
                Some(a) => a,
                None => {
                    return None;
                },
            },
            None => {
                return None;
            },
        };
        let sandbox_policy = match obj_get_value(members, "sandbox_policy") {
            Some(v) => match dec_sandbox_policy(v) {
                Some(sp) => sp,
                None => {
                    return None;
                },
            },
            None => {
                return None;
            },
        };
        let disable_response_storage = match obj_get_value(members, "disable_response_storage") {
            None => false,
            Some(Json::Bool(b)) => *b,
            Some(_) => {
                return None;
            },
        };
        let notify = match obj_get_value(members, "notify") {
            None => None,
            Some(Json::Null) => None,
            Some(v) => match v {
                Json::Arr(_) => match dec_str_arr(v) {
                    Some(ws) => Some(ws),
                    None => {
                        return None;
                    },
                },
                _ => {
                    return None;
                },
            },
        };
        let cwd = match obj_get_value(members, "cwd") {
            Some(v) => match dec_path(v) {
                Some(p) => p,
                None => {
                    return None;
                },
            },
            None => {
                return None;
            },
        };
        let resume_path = match obj_get_value(members, "resume_path") {
            None => None,
            Some(Json::Null) => None,
            Some(v) => match dec_path(v) {
                Some(p) => Some(p),
                None => {
                    return None;
                },
            },
        };
        Some(
            Op::ConfigureSession {
                provider,
                model,
                model_reasoning_effort,
                model_reasoning_summary,
                user_instructions,
                base_instructions,
                approval_policy,
                sandbox_policy,
                disable_response_storage,
                notify,
                cwd,
                resume_path,
            },
        )
    } else if *ty == String::from_str("interrupt") {
        Some(Op::Interrupt)
    } else if *ty == String::from_str("user_input") {
        match obj_get_value(members, "items") {
            Some(v) => match v {
                Json::Arr(_) => match dec_input_items(v) {
                    Some(items) => Some(Op::UserInput { items }),
                    None => None,
                },
                _ => None,
            },
            None => None,
        }
    } else if *ty == String::from_str("exec_approval") {
        let id = match obj_get_value(members, "id") {
            Some(Json::Str(t)) => t.clone(),
            _ => {
                return None;
            },
        };
        match obj_get_value(members, "decision") {
            Some(v) => match dec_review_decision(v) {
                Some(decision) => Some(Op::ExecApproval { id, decision }),
                None => None,
            },
            None => None,
        }
    } else if *ty == String::from_str("patch_approval") {
        let id = match obj_get_value(members, "id") {
            Some(Json::Str(t)) => t.clone(),
            _ => {
                return None;
            },
        };
        match obj_get_value(members, "decision") {
            Some(v) => match dec_review_decision(v) {
                Some(decision) => Some(Op::PatchApproval { id, decision }),
                None => None,
            },
            None => None,
        }
    } else if *ty == String::from_str("add_to_history") {
        match obj_get_value(members, "text") {
            Some(Json::Str(t)) => Some(Op::AddToHistory { text: t.clone() }),
            _ => None,
        }
    } else if *ty == String::from_str("get_history_entry_request") {
        let offset = match obj_get_value(members, "offset") {
            Some(Json::UInt(n)) => {
                if *n <= usize::MAX as u64 {
                    *n as usize
                } else {
                    return None;
                }
            },
            _ => {
                return None;
            },
        };
        match obj_get_value(members, "log_id") {
            Some(Json::UInt(log_id)) => Some(Op::GetHistoryEntryRequest { offset, log_id: *log_id }),
            _ => None,
        }
    } else if *ty == String::from_str("shutdown") {
        Some(Op::Shutdown)
    } else {
        None
    }
}

/// Decodes a submission from its JSON tree: the id and the operation found
/// by key, in any order.
pub fn decode_submission(j: &Json) -> (r: Option<Submission>)
    ensures
        match r {
            Some(sub) => spec_decode_submission(j@) == Some(sub@),
            None => spec_decode_submission(j@) is None,
        },
{
    let members = match j {
        Json::Obj(members) => members,
        _ => {
            proof {
                assert(!(j@ is Obj));
            }
            return None;
        },
    };
    let ghost ms = j@->Obj_0;
    proof {
        assert(ms.len() == members@.len());
        assert forall|k: int| 0 <= k < ms.len() implies ms[k] == crate::json::spec_members_view(
            members@,
        )[k] by {
            assert(ms[k].0 == members@[k].key@ && ms[k].1 == members@[k].value@);
        }
        assert(crate::json::spec_members_view(members@) =~= ms);
    }
    let id = match obj_get_value(members, "id") {
        Some(Json::Str(t)) => t.clone(),
        _ => {
            return None;
        },
    };
    match obj_get_value(members, "op") {
        Some(v) => match decode_op(v) {
            Some(op) => Some(Submission { id, op }),
            None => None,
        },
        None => None,
    }
}

} // verus!
