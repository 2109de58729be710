//! The wire encoding of a streaming model request: the payload fields, the
//! conversation input items, and the reasoning configuration, as one JSON
//! tree the edge prints and sends. The tool catalog is not modelled; the
//! request carries an empty tool list.

use crate::apply_patch::ApplyPatchAction;
use crate::client_common::OpenAiReasoningEffort;
use crate::client_common::OpenAiReasoningSummary;
use crate::client_common::Reasoning;
use crate::client_common::ResponsesApiRequest;
use crate::codec::enc_str_arr;
use crate::codec::jmember;
use crate::codec::jstr;
use crate::codec::jstr_lit;
use crate::codec::spec_enc_changes;
use crate::codec::spec_enc_str_arr;
use crate::codec::spec_patch_changes_view;
use crate::json::Json;
use crate::json::JsonV;
use crate::json::print_json;
use crate::json::spec_print;
use crate::models::ContentItem;
use crate::models::ResponseItem;
use vstd::prelude::*;

verus! {

broadcast use {vstd::std_specs::vec::group_vec_axioms, vstd::seq::group_seq_axioms};

/// One piece of message content on the wire.
pub open spec fn spec_enc_content_item(it: ContentItem) -> JsonV {
    match it {
        ContentItem::InputText { text } => JsonV::Obj(
            seq![("type"@, JsonV::Str("input_text"@)), ("text"@, JsonV::Str(text@))],
        ),
        ContentItem::OutputText { text } => JsonV::Obj(
            seq![("type"@, JsonV::Str("output_text"@)), ("text"@, JsonV::Str(text@))],
        ),
    }
}

/// A message's content list on the wire.
pub open spec fn spec_enc_content(items: Seq<ContentItem>) -> JsonV {
    JsonV::Arr(Seq::new(items.len(), |i: int| spec_enc_content_item(items[i])))
}

/// The arguments string of a shell tool call: a JSON document of its own,
/// carried as a string.
pub open spec fn spec_shell_arguments(command: Seq<Seq<char>>) -> Seq<char> {
    spec_print(JsonV::Obj(seq![("command"@, spec_enc_str_arr(command))]))
}

/// The arguments string of a patch tool call.
pub open spec fn spec_patch_arguments(action: ApplyPatchAction) -> Seq<char> {
    spec_print(
        JsonV::Obj(
            seq![("changes"@, spec_enc_changes(spec_patch_changes_view(action.spec_changes())))],
        ),
    )
}

/// One transcript item on the wire: messages and reasoning as the provider
/// shapes them, tool calls as function calls whose arguments are a nested
/// JSON string, and outputs under their call id.
pub open spec fn spec_enc_response_item(it: ResponseItem) -> JsonV {
    match it {
        ResponseItem::Message { id, role, content } => JsonV::Obj(
            seq![
                ("type"@, JsonV::Str("message"@)),
                (
                    "id"@,
                    match id {
                        Some(s) => JsonV::Str(s@),
                        None => JsonV::Null,
                    },
                ),
                ("role"@, JsonV::Str(role@)),
                ("content"@, spec_enc_content(content@)),
            ],
        ),
        ResponseItem::Reasoning { summary_text } => JsonV::Obj(
            seq![
                ("type"@, JsonV::Str("reasoning"@)),
                (
                    "summary"@,
                    JsonV::Arr(
                        seq![
                            JsonV::Obj(
                                seq![
                                    ("type"@, JsonV::Str("summary_text"@)),
                                    ("text"@, JsonV::Str(summary_text@)),
                                ],
                            ),
                        ],
                    ),
                ),
            ],
        ),
        ResponseItem::ShellToolCall { call_id, command } => JsonV::Obj(
            seq![
                ("type"@, JsonV::Str("function_call"@)),
                ("name"@, JsonV::Str("shell"@)),
                ("arguments"@, JsonV::Str(spec_shell_arguments(command.deep_view()))),
                ("call_id"@, JsonV::Str(call_id@)),
            ],
        ),
        ResponseItem::PatchToolCall { call_id, action } => JsonV::Obj(
            seq![
                ("type"@, JsonV::Str("function_call"@)),
                ("name"@, JsonV::Str("apply_patch"@)),
                ("arguments"@, JsonV::Str(spec_patch_arguments(action))),
                ("call_id"@, JsonV::Str(call_id@)),
            ],
        ),
        ResponseItem::McpToolCall { call_id, server, tool } => JsonV::Obj(
            seq![
                ("type"@, JsonV::Str("function_call"@)),
                ("name"@, JsonV::Str(server@ + "."@ + tool@)),
                ("arguments"@, JsonV::Str("{}"@)),
                ("call_id"@, JsonV::Str(call_id@)),
            ],
        ),
        ResponseItem::FunctionCallOutput { call_id, output } => JsonV::Obj(
            seq![
                ("type"@, JsonV::Str("function_call_output"@)),
                ("call_id"@, JsonV::Str(call_id@)),
                ("output"@, JsonV::Str(output@)),
            ],
        ),
        ResponseItem::GhostSnapshot { ghost_commit } => JsonV::Obj(
            seq![
                ("type"@, JsonV::Str("ghost_snapshot"@)),
                ("ghost_commit"@, JsonV::Str(ghost_commit@)),
            ],
        ),
    }
}

/// The conversation input list on the wire.
pub open spec fn spec_enc_input(items: Seq<ResponseItem>) -> JsonV {
    JsonV::Arr(Seq::new(items.len(), |i: int| spec_enc_response_item(items[i])))
}

/// The reasoning configuration on the wire: null when disabled.
pub open spec fn spec_enc_reasoning(r: Option<Reasoning>) -> JsonV {
    match r {
        Some(reasoning) => JsonV::Obj(
            seq![
                (
                    "effort"@,
                    match reasoning.effort {
                        OpenAiReasoningEffort::Low => JsonV::Str("low"@),
                        OpenAiReasoningEffort::Medium => JsonV::Str("medium"@),
                        OpenAiReasoningEffort::High => JsonV::Str("high"@),
                    },
                ),
                (
                    "summary"@,
                    match reasoning.summary {
                        Some(OpenAiReasoningSummary::Auto) => JsonV::Str("auto"@),
                        Some(OpenAiReasoningSummary::Concise) => JsonV::Str("concise"@),
                        Some(OpenAiReasoningSummary::Detailed) => JsonV::Str("detailed"@),
                        None => JsonV::Null,
                    },
                ),
            ],
        ),
        None => JsonV::Null,
    }
}

/// The whole request payload on the wire: the model, the assembled
/// instructions, the conversation input, an empty tool catalog with
/// `tool_choice` fixed to `auto`, no parallel tool calls, the reasoning
/// configuration, the storage flag, streaming on, and the encrypted
/// reasoning trail requested exactly when the flag says so.
pub open spec fn spec_encode_responses_request(
    rq: ResponsesApiRequest,
    input: Seq<ResponseItem>,
) -> JsonV {
    JsonV::Obj(
        seq![
            ("model"@, JsonV::Str(rq.model@)),
            ("instructions"@, JsonV::Str(rq.instructions@)),
            ("input"@, spec_enc_input(input)),
            ("tools"@, JsonV::Arr(Seq::empty())),
            ("tool_choice"@, JsonV::Str(rq.tool_choice@)),
            ("parallel_tool_calls"@, JsonV::Bool(rq.parallel_tool_calls)),
            ("reasoning"@, spec_enc_reasoning(rq.reasoning)),
            ("store"@, JsonV::Bool(rq.store)),
            ("stream"@, JsonV::Bool(rq.stream)),
            (
                "include"@,
                if rq.include_encrypted_reasoning {
                    spec_enc_str_arr(seq!["reasoning.encrypted_content"@])
                } else {
                    JsonV::Arr(Seq::empty())
                },
            ),
        ],
    )
}

fn enc_content_item(it: &ContentItem) -> (r: Json)
    ensures
        r@ == spec_enc_content_item(*it),
{
    match it {
        ContentItem::InputText { text } => {
            let members = vec![jmember("type", jstr_lit("input_text")), jmember("text", jstr(text))];
            let r = Json::Obj(members);
            proof {
                assert(members@[0].key@ == "type"@ && members@[1].key@ == "text"@);
                assert(r@->Obj_0[0].0 == "type"@ && r@->Obj_0[0].1 == JsonV::Str("input_text"@));
                assert(r@->Obj_0[1].0 == "text"@ && r@->Obj_0[1].1 == JsonV::Str(text@));
                assert(r@->Obj_0 =~= spec_enc_content_item(*it)->Obj_0);
            }
            r
        },
        ContentItem::OutputText { text } => {
            let members = vec![
                jmember("type", jstr_lit("output_text")),
                jmember("text", jstr(text)),
            ];
            let r = Json::Obj(members);
            proof {
                assert(members@[0].key@ == "type"@ && members@[1].key@ == "text"@);
                assert(r@->Obj_0[0].0 == "type"@ && r@->Obj_0[0].1 == JsonV::Str("output_text"@));
                assert(r@->Obj_0[1].0 == "text"@ && r@->Obj_0[1].1 == JsonV::Str(text@));
                assert(r@->Obj_0 =~= spec_enc_content_item(*it)->Obj_0);
            }
            r
        },
    }
}

fn enc_content(items: &Vec<ContentItem>) -> (r: Json)
    ensures
        r@ == spec_enc_content(items@),
{
    let mut out: Vec<Json> = Vec::new();
    let mut i: usize = 0;
    while i < items.len()
        invariant
            i <= items@.len(),
            out@.len() == i,
            forall|k: int| 0 <= k < i ==> out@[k]@ == spec_enc_content_item(items@[k]),
        decreases items@.len() - i,
    {
        out.push(enc_content_item(&items[i]));
        i = i + 1;
    }
    let r = Json::Arr(out);
    proof {
        assert(r@->Arr_0 =~= spec_enc_content(items@)->Arr_0);
    }
    r
}

/// Encodes one transcript item for the request's input list.
pub fn enc_response_item(it: &ResponseItem) -> (r: Json)
    ensures
        r@ == spec_enc_response_item(*it),
{
    match it {
        ResponseItem::Message { id, role, content } => {
            let id_json = match id {
                Some(s) => Json::Str(s.clone()),
                None => Json::Null,
            };
            let ghost idv = id_json@;
            let members = vec![
                jmember("type", jstr_lit("message")),
                jmember("id", id_json),
                jmember("role", jstr(role)),
                jmember("content", enc_content(content)),
            ];
            let r = Json::Obj(members);
            proof {
                assert(members@[0].key@ == "type"@ && members@[1].key@ == "id"@
                    && members@[2].key@ == "role"@ && members@[3].key@ == "content"@);
                assert(members@[1].value@ == idv);
                assert(members@[3].value@ == spec_enc_content(content@));
                assert(r@->Obj_0[0].0 == "type"@ && r@->Obj_0[0].1 == JsonV::Str("message"@));
                assert(r@->Obj_0[1].0 == "id"@ && r@->Obj_0[1].1 == idv);
                assert(r@->Obj_0[2].0 == "role"@ && r@->Obj_0[2].1 == JsonV::Str(role@));
                assert(r@->Obj_0[3].0 == "content"@ && r@->Obj_0[3].1 == spec_enc_content(
                    content@,
                ));
                assert(r@->Obj_0 =~= spec_enc_response_item(*it)->Obj_0);
            }
            r
        },
        ResponseItem::Reasoning { summary_text } => {
            let entry_members = vec![
                jmember("type", jstr_lit("summary_text")),
                jmember("text", jstr(summary_text)),
            ];
            let entry = Json::Obj(entry_members);
            proof {
                assert(entry_members@[0].key@ == "type"@ && entry_members@[1].key@ == "text"@);
                assert(entry@->Obj_0[0].0 == "type"@ && entry@->Obj_0[0].1 == JsonV::Str(
                    "summary_text"@,
                ));
                assert(entry@->Obj_0[1].0 == "text"@ && entry@->Obj_0[1].1 == JsonV::Str(
                    summary_text@,
                ));
            }
            let ghost entry_view = entry@;
            let summary_items = vec![entry];
            let summary = Json::Arr(summary_items);
            proof {
                assert(summary@->Arr_0[0] == entry_view);
            }
            let ghost summary_view = summary@;
            let members = vec![
                jmember("type", jstr_lit("reasoning")),
                jmember("summary", summary),
            ];
            let r = Json::Obj(members);
            proof {
                let svs = spec_enc_response_item(*it)->Obj_0;
                assert(members@[0].key@ == "type"@ && members@[1].key@ == "summary"@);
                assert(members@[1].value@ == summary_view);
                assert(r@->Obj_0[0].0 == "type"@ && r@->Obj_0[0].1 == JsonV::Str("reasoning"@));
                assert(r@->Obj_0[1].0 == "summary"@ && r@->Obj_0[1].1 == summary_view);
                assert(entry_view->Obj_0 =~= svs[1].1->Arr_0[0]->Obj_0);
                assert(summary_view->Arr_0 =~= svs[1].1->Arr_0);
                assert(r@->Obj_0 =~= svs);
            }
            r
        },
        ResponseItem::ShellToolCall { call_id, command } => {
            let args_members = vec![jmember("command", enc_str_arr(command))];
            let args_obj = Json::Obj(args_members);
            proof {
                assert(args_members@[0].key@ == "command"@);
                assert(args_obj@->Obj_0[0].0 == "command"@ && args_obj@->Obj_0[0].1
                    == spec_enc_str_arr(command.deep_view()));
                assert(args_obj@->Obj_0 =~= seq![
                    ("command"@, spec_enc_str_arr(command.deep_view())),
                ]);
            }
            let arguments = print_json(&args_obj);
            let members = vec![
                jmember("type", jstr_lit("function_call")),
                jmember("name", jstr_lit("shell")),
                jmember("arguments", Json::Str(arguments)),
                jmember("call_id", jstr(call_id)),
            ];
            let r = Json::Obj(members);
            proof {
                assert(members@[0].key@ == "type"@ && members@[1].key@ == "name"@
                    && members@[2].key@ == "arguments"@ && members@[3].key@ == "call_id"@);
                assert(members@[2].value@ == JsonV::Str(spec_shell_arguments(command.deep_view())));
                assert(r@->Obj_0[0].0 == "type"@ && r@->Obj_0[0].1 == JsonV::Str(
                    "function_call"@,
                ));
                assert(r@->Obj_0[1].0 == "name"@ && r@->Obj_0[1].1 == JsonV::Str("shell"@));
                assert(r@->Obj_0[2].0 == "arguments"@ && r@->Obj_0[2].1 == JsonV::Str(
                    spec_shell_arguments(command.deep_view()),
                ));
                assert(r@->Obj_0[3].0 == "call_id"@ && r@->Obj_0[3].1 == JsonV::Str(call_id@));
                assert(r@->Obj_0 =~= spec_enc_response_item(*it)->Obj_0);
            }
            r
        },
        ResponseItem::PatchToolCall { call_id, action } => {
            let args_members = vec![
                jmember(
                    "changes",
                    crate::codec::enc_changes(&crate::codec::patch_changes_for_wire(action)),
                ),
            ];
            let args_obj = Json::Obj(args_members);
            proof {
                assert(args_members@[0].key@ == "changes"@);
                assert(args_members@[0].value@ == spec_enc_changes(
                    spec_patch_changes_view(action.spec_changes()),
                ));
                assert(args_obj@->Obj_0[0].0 == "changes"@ && args_obj@->Obj_0[0].1
                    == spec_enc_changes(spec_patch_changes_view(action.spec_changes())));
                assert(args_obj@->Obj_0 =~= seq![
                    (
                        "changes"@,
                        spec_enc_changes(spec_patch_changes_view(action.spec_changes())),
                    ),
                ]);
            }
            let arguments = print_json(&args_obj);
            let members = vec![
                jmember("type", jstr_lit("function_call")),
                jmember("name", jstr_lit("apply_patch")),
                jmember("arguments", Json::Str(arguments)),
                jmember("call_id", jstr(call_id)),
            ];
            let r = Json::Obj(members);
            proof {
                assert(members@[0].key@ == "type"@ && members@[1].key@ == "name"@
                    && members@[2].key@ == "arguments"@ && members@[3].key@ == "call_id"@);
                assert(members@[2].value@ == JsonV::Str(spec_patch_arguments(*action)));
                assert(r@->Obj_0[0].0 == "type"@ && r@->Obj_0[0].1 == JsonV::Str(
                    "function_call"@,
                ));
                assert(r@->Obj_0[1].0 == "name"@ && r@->Obj_0[1].1 == JsonV::Str("apply_patch"@));
                assert(r@->Obj_0[2].0 == "arguments"@ && r@->Obj_0[2].1 == JsonV::Str(
                    spec_patch_arguments(*action),
                ));
                assert(r@->Obj_0[3].0 == "call_id"@ && r@->Obj_0[3].1 == JsonV::Str(call_id@));
                assert(r@->Obj_0 =~= spec_enc_response_item(*it)->Obj_0);
            }
            r
        },
        ResponseItem::McpToolCall { call_id, server, tool } => {
            let mut name = server.clone();
            name.append(".");
            name.append(tool.as_str());
            let members = vec![
                jmember("type", jstr_lit("function_call")),
                jmember("name", Json::Str(name)),
                jmember("arguments", jstr_lit("{}")),
                jmember("call_id", jstr(call_id)),
            ];
            let r = Json::Obj(members);
            proof {
                assert(members@[0].key@ == "type"@ && members@[1].key@ == "name"@
                    && members@[2].key@ == "arguments"@ && members@[3].key@ == "call_id"@);
                assert(members@[1].value@ == JsonV::Str(server@ + "."@ + tool@));
                assert(r@->Obj_0[0].0 == "type"@ && r@->Obj_0[0].1 == JsonV::Str(
                    "function_call"@,
                ));
                assert(r@->Obj_0[1].0 == "name"@ && r@->Obj_0[1].1 == JsonV::Str(
                    server@ + "."@ + tool@,
                ));
                assert(r@->Obj_0[2].0 == "arguments"@ && r@->Obj_0[2].1 == JsonV::Str("{}"@));
                assert(r@->Obj_0[3].0 == "call_id"@ && r@->Obj_0[3].1 == JsonV::Str(call_id@));
                assert(r@->Obj_0 =~= spec_enc_response_item(*it)->Obj_0);
            }
            r
        },
        ResponseItem::FunctionCallOutput { call_id, output } => {
            let members = vec![
                jmember("type", jstr_lit("function_call_output")),
                jmember("call_id", jstr(call_id)),
                jmember("output", jstr(output)),
            ];
            let r = Json::Obj(members);
            proof {
                assert(members@[0].key@ == "type"@ && members@[1].key@ == "call_id"@
                    && members@[2].key@ == "output"@);
                assert(r@->Obj_0[0].0 == "type"@ && r@->Obj_0[0].1 == JsonV::Str(
                    "function_call_output"@,
                ));
                assert(r@->Obj_0[1].0 == "call_id"@ && r@->Obj_0[1].1 == JsonV::Str(call_id@));
                assert(r@->Obj_0[2].0 == "output"@ && r@->Obj_0[2].1 == JsonV::Str(output@));
                assert(r@->Obj_0 =~= spec_enc_response_item(*it)->Obj_0);
            }
            r
        },
        ResponseItem::GhostSnapshot { ghost_commit } => {
            let members = vec![
                jmember("type", jstr_lit("ghost_snapshot")),
                jmember("ghost_commit", jstr(ghost_commit)),
            ];
            let r = Json::Obj(members);
            proof {
                assert(members@[0].key@ == "type"@ && members@[1].key@ == "ghost_commit"@);
                assert(r@->Obj_0[0].0 == "type"@ && r@->Obj_0[0].1 == JsonV::Str(
                    "ghost_snapshot"@,
                ));
                assert(r@->Obj_0[1].0 == "ghost_commit"@ && r@->Obj_0[1].1 == JsonV::Str(
                    ghost_commit@,
                ));
                assert(r@->Obj_0 =~= spec_enc_response_item(*it)->Obj_0);
            }
            r
        },
    }
}

fn enc_input(items: &Vec<ResponseItem>) -> (r: Json)
    ensures
        r@ == spec_enc_input(items@),
{
    let mut out: Vec<Json> = Vec::new();
    let mut i: usize = 0;
    while i < items.len()
        invariant
            i <= items@.len(),
            out@.len() == i,
            forall|k: int| 0 <= k < i ==> out@[k]@ == spec_enc_response_item(items@[k]),
        decreases items@.len() - i,
    {
        out.push(enc_response_item(&items[i]));
        i = i + 1;
    }
    let r = Json::Arr(out);
    proof {
        assert(r@->Arr_0 =~= spec_enc_input(items@)->Arr_0);
    }
    r
}

fn enc_reasoning(reasoning: &Option<Reasoning>) -> (r: Json)
    ensures
        r@ == spec_enc_reasoning(*reasoning),
{
    match reasoning {
        Some(cfg) => {
            let effort = match cfg.effort {
                OpenAiReasoningEffort::Low => jstr_lit("low"),
                OpenAiReasoningEffort::Medium => jstr_lit("medium"),
                OpenAiReasoningEffort::High => jstr_lit("high"),
            };
            let summary = match cfg.summary {
                Some(OpenAiReasoningSummary::Auto) => jstr_lit("auto"),
                Some(OpenAiReasoningSummary::Concise) => jstr_lit("concise"),
                Some(OpenAiReasoningSummary::Detailed) => jstr_lit("detailed"),
                None => Json::Null,
            };
            let ghost ev = effort@;
            let ghost sv = summary@;
            let members = vec![jmember("effort", effort), jmember("summary", summary)];
            let r = Json::Obj(members);
            proof {
                assert(members@[0].key@ == "effort"@ && members@[1].key@ == "summary"@);
                assert(members@[0].value@ == ev && members@[1].value@ == sv);
                assert(r@->Obj_0[0].0 == "effort"@ && r@->Obj_0[0].1 == ev);
                assert(r@->Obj_0[1].0 == "summary"@ && r@->Obj_0[1].1 == sv);
                assert(r@->Obj_0 =~= spec_enc_reasoning(*reasoning)->Obj_0);
            }
            r
        },
        None => Json::Null,
    }
}

/// Encodes the whole request payload as its JSON tree; the edge prints and
/// sends it.
pub fn encode_responses_request(rq: &ResponsesApiRequest, input: &Vec<ResponseItem>) -> (r: Json)
    ensures
        r@ == spec_encode_responses_request(*rq, input@),
{
    let include_list = if rq.include_encrypted_reasoning {
        let mut ws: Vec<String> = Vec::new();
        ws.push(String::from_str("reasoning.encrypted_content"));
        let j = enc_str_arr(&ws);
        proof {
            assert(ws.deep_view() =~= seq!["reasoning.encrypted_content"@]);
        }
        j
    } else {
        Json::Arr(Vec::new())
    };
    let ghost include_view = include_list@;
    let members = vec![
        jmember("model", jstr(&rq.model)),
        jmember("instructions", jstr(&rq.instructions)),
        jmember("input", enc_input(input)),
        jmember("tools", Json::Arr(Vec::new())),
        jmember("tool_choice", jstr(&rq.tool_choice)),
        jmember("parallel_tool_calls", Json::Bool(rq.parallel_tool_calls)),
        jmember("reasoning", enc_reasoning(&rq.reasoning)),
        jmember("store", Json::Bool(rq.store)),
        jmember("stream", Json::Bool(rq.stream)),
        jmember("include", include_list),
    ];
    let r = Json::Obj(members);
    proof {
        let ovs = r@->Obj_0;
        let svs = spec_encode_responses_request(*rq, input@)->Obj_0;
        assert(ovs.len() == 10 && svs.len() == 10);
        assert(members@[0].key@ == "model"@ && members@[0].value@ == JsonV::Str(rq.model@));
        assert(ovs[0].0 == "model"@ && ovs[0].1 == JsonV::Str(rq.model@));
        assert(svs[0].0 == "model"@ && svs[0].1 == JsonV::Str(rq.model@));
        assert(members@[1].key@ == "instructions"@ && members@[1].value@ == JsonV::Str(
            rq.instructions@,
        ));
        assert(ovs[1].0 == "instructions"@ && ovs[1].1 == JsonV::Str(rq.instructions@));
        assert(svs[1].0 == "instructions"@ && svs[1].1 == JsonV::Str(rq.instructions@));
        assert(members@[2].key@ == "input"@ && members@[2].value@ == spec_enc_input(input@));
        assert(ovs[2].0 == "input"@ && ovs[2].1 == spec_enc_input(input@));
        assert(svs[2].0 == "input"@ && svs[2].1 == spec_enc_input(input@));
        assert(members@[3].key@ == "tools"@);
        assert(members@[3].value@->Arr_0 =~= Seq::<JsonV>::empty());
        assert(ovs[3].0 == "tools"@ && ovs[3].1 =~= JsonV::Arr(Seq::empty()));
        assert(svs[3].0 == "tools"@ && svs[3].1 == JsonV::Arr(Seq::empty()));
        assert(members@[4].key@ == "tool_choice"@ && members@[4].value@ == JsonV::Str(
            rq.tool_choice@,
        ));
        assert(ovs[4].0 == "tool_choice"@ && ovs[4].1 == JsonV::Str(rq.tool_choice@));
        assert(svs[4].0 == "tool_choice"@ && svs[4].1 == JsonV::Str(rq.tool_choice@));
        assert(members@[5].key@ == "parallel_tool_calls"@ && members@[5].value@ == JsonV::Bool(
            rq.parallel_tool_calls,
        ));
        assert(ovs[5].0 == "parallel_tool_calls"@ && ovs[5].1 == JsonV::Bool(
            rq.parallel_tool_calls,
        ));
        assert(svs[5].0 == "parallel_tool_calls"@ && svs[5].1 == JsonV::Bool(
            rq.parallel_tool_calls,
        ));
        assert(members@[6].key@ == "reasoning"@ && members@[6].value@ == spec_enc_reasoning(
            rq.reasoning,
        ));
        assert(ovs[6].0 == "reasoning"@ && ovs[6].1 == spec_enc_reasoning(rq.reasoning));
        assert(svs[6].0 == "reasoning"@ && svs[6].1 == spec_enc_reasoning(rq.reasoning));
        assert(members@[7].key@ == "store"@ && members@[7].value@ == JsonV::Bool(rq.store));
        assert(ovs[7].0 == "store"@ && ovs[7].1 == JsonV::Bool(rq.store));
        assert(svs[7].0 == "store"@ && svs[7].1 == JsonV::Bool(rq.store));
        assert(members@[8].key@ == "stream"@ && members@[8].value@ == JsonV::Bool(rq.stream));
        assert(ovs[8].0 == "stream"@ && ovs[8].1 == JsonV::Bool(rq.stream));
        assert(svs[8].0 == "stream"@ && svs[8].1 == JsonV::Bool(rq.stream));
        assert(members@[9].key@ == "include"@ && members@[9].value@ == include_view);
        assert(ovs[9].0 == "include"@ && ovs[9].1 == include_view);
        assert(svs[9].1 =~= include_view);
        assert(svs[9].0 == "include"@);
        assert(ovs =~= svs);
    }
    r
}

} // verus!
