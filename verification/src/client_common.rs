//! Request construction for a model turn: the assembled instructions, the
//! reasoning configuration, and the payload fields of the streaming request.

use crate::models::ResponseItem;
use crate::protocol::ReasoningEffort;
use crate::protocol::ReasoningSummary;
use crate::strutil::spec_starts_with;
use crate::strutil::starts_with_prefix;
use vstd::prelude::*;

verus! {

/// The built-in base prompt; every request's instructions start with it.
pub const BASE_INSTRUCTIONS: &'static str = "You are a coding agent. Work inside the user's repository, propose shell commands and file patches through the tools, and report what you did.";

/// The appendix describing the patch tool, for model families that need it
/// spelled out.
pub const APPLY_PATCH_TOOL_INSTRUCTIONS: &'static str = "Use the apply_patch tool to edit files; give every change as a unified diff against the current file contents.";

/// The configuration a request reads: the model identifier and whether the
/// deployment forces reasoning summaries on.
#[derive(Debug)]
pub struct Config {
    pub model: String,
    pub model_supports_reasoning_summaries: bool,
}

/// API request payload for a single model turn.
#[derive(Debug)]
pub struct Prompt {
    /// Conversation context input items.
    pub input: Vec<ResponseItem>,
    /// Instructions from the user, appended to the base instructions.
    pub user_instructions: Option<String>,
    /// Whether the provider stores the conversation tail server-side.
    pub store: bool,
    /// Overrides the built-in base instructions when set.
    pub base_instructions_override: Option<String>,
}

/// The full instruction text: the base (or its override), the user
/// instructions when present, and the patch-tool appendix for model
/// identifiers that begin with "gpt-4.1", each separated by one newline.
pub open spec fn spec_full_instructions(
    base_override: Option<String>,
    user_instructions: Option<String>,
    model: Seq<char>,
) -> Seq<char> {
    let base = match base_override {
        Some(b) => b@,
        None => BASE_INSTRUCTIONS@,
    };
    let with_user = match user_instructions {
        Some(u) => base + "\n"@ + u@,
        None => base,
    };
    if spec_starts_with(model, "gpt-4.1"@) {
        with_user + "\n"@ + APPLY_PATCH_TOOL_INSTRUCTIONS@
    } else {
        with_user
    }
}

impl Prompt {
    /// Assembles the instruction text sent with a request.
    pub fn get_full_instructions(&self, model: &str) -> (r: String)
        ensures
            r@ == spec_full_instructions(
                self.base_instructions_override,
                self.user_instructions,
                model@,
            ),
    {
        let mut out = match &self.base_instructions_override {
            Some(b) => b.clone(),
            None => String::from_str(BASE_INSTRUCTIONS),
        };
        if let Some(user) = &self.user_instructions {
            out.append("\n");
            out.append(user.as_str());
        }
        if starts_with_prefix(model, "gpt-4.1") {
            out.append("\n");
            out.append(APPLY_PATCH_TOOL_INSTRUCTIONS);
        }
        out
    }
}

/// Whether reasoning summaries are requested for this model: forced by
/// configuration, or a model identifier beginning with "o" or "codex".
pub open spec fn spec_model_supports_reasoning_summaries(c: Config) -> bool {
    ||| c.model_supports_reasoning_summaries
    ||| spec_starts_with(c.model@, "o"@)
    ||| spec_starts_with(c.model@, "codex"@)
}

/// Decides whether reasoning summaries are requested for this model.
pub fn model_supports_reasoning_summaries(config: &Config) -> (r: bool)
    ensures
        r == spec_model_supports_reasoning_summaries(*config),
{
    if config.model_supports_reasoning_summaries {
        return true;
    }
    starts_with_prefix(config.model.as_str(), "o") || starts_with_prefix(
        config.model.as_str(),
        "codex",
    )
}

/// The effort field of a request's reasoning configuration.
#[derive(Debug, Clone, Copy, PartialEq, Eq, Structural)]
pub enum OpenAiReasoningEffort {
    Low,
    Medium,
    High,
}

/// The summary field of a request's reasoning configuration.
#[derive(Debug, Clone, Copy, PartialEq, Eq, Structural)]
pub enum OpenAiReasoningSummary {
    Auto,
    Concise,
    Detailed,
}

/// The reasoning configuration sent with a request.
#[derive(Debug, Clone, Copy, PartialEq, Eq, Structural)]
pub struct Reasoning {
    pub effort: OpenAiReasoningEffort,
    pub summary: Option<OpenAiReasoningSummary>,
}

/// Maps the configured effort onto the wire form.
pub fn reasoning_effort_to_openai(effort: Option<ReasoningEffort>) -> (r: Option<
    OpenAiReasoningEffort,
>)
    ensures
        r == (match effort {
            Some(ReasoningEffort::Low) => Some(OpenAiReasoningEffort::Low),
            Some(ReasoningEffort::Medium) => Some(OpenAiReasoningEffort::Medium),
            Some(ReasoningEffort::High) => Some(OpenAiReasoningEffort::High),
            None => None::<OpenAiReasoningEffort>,
        }),
{
    match effort {
        Some(ReasoningEffort::Low) => Some(OpenAiReasoningEffort::Low),
        Some(ReasoningEffort::Medium) => Some(OpenAiReasoningEffort::Medium),
        Some(ReasoningEffort::High) => Some(OpenAiReasoningEffort::High),
        None => None,
    }
}

/// Maps the configured summary onto the wire form.
pub fn reasoning_summary_to_openai(summary: Option<ReasoningSummary>) -> (r: Option<
    OpenAiReasoningSummary,
>)
    ensures
        r == (match summary {
            Some(ReasoningSummary::Auto) => Some(OpenAiReasoningSummary::Auto),
            Some(ReasoningSummary::Concise) => Some(OpenAiReasoningSummary::Concise),
            Some(ReasoningSummary::Detailed) => Some(OpenAiReasoningSummary::Detailed),
            None => None::<OpenAiReasoningSummary>,
        }),
{
    match summary {
        Some(ReasoningSummary::Auto) => Some(OpenAiReasoningSummary::Auto),
        Some(ReasoningSummary::Concise) => Some(OpenAiReasoningSummary::Concise),
        Some(ReasoningSummary::Detailed) => Some(OpenAiReasoningSummary::Detailed),
        None => None,
    }
}

/// The reasoning configuration for a request: present only when the model
/// supports summaries and an effort is configured.
pub fn create_reasoning_param_for_request(
    config: &Config,
    effort: Option<ReasoningEffort>,
    summary: Option<ReasoningSummary>,
) -> (r: Option<Reasoning>)
    ensures
        !spec_model_supports_reasoning_summaries(*config) ==> r is None,
        spec_model_supports_reasoning_summaries(*config) && effort is None ==> r is None,
        spec_model_supports_reasoning_summaries(*config) && effort is Some ==> (r matches Some(
            reasoning,
        ) && Some(reasoning.effort) == (match effort {
            Some(ReasoningEffort::Low) => Some(OpenAiReasoningEffort::Low),
            Some(ReasoningEffort::Medium) => Some(OpenAiReasoningEffort::Medium),
            Some(ReasoningEffort::High) => Some(OpenAiReasoningEffort::High),
            None => None::<OpenAiReasoningEffort>,
        }) && reasoning.summary == (match summary {
            Some(ReasoningSummary::Auto) => Some(OpenAiReasoningSummary::Auto),
            Some(ReasoningSummary::Concise) => Some(OpenAiReasoningSummary::Concise),
            Some(ReasoningSummary::Detailed) => Some(OpenAiReasoningSummary::Detailed),
            None => None::<OpenAiReasoningSummary>,
        })),
{
    if model_supports_reasoning_summaries(config) {
        match reasoning_effort_to_openai(effort) {
            Some(e) => Some(Reasoning { effort: e, summary: reasoning_summary_to_openai(summary) }),
            None => None,
        }
    } else {
        None
    }
}

/// The fixed fields of a streaming request, and whether the encrypted
/// reasoning trail must be requested back: that happens exactly when the
/// provider does not store the conversation and reasoning is on.
#[derive(Debug)]
pub struct ResponsesApiRequest {
    pub model: String,
    pub instructions: String,
    pub tool_choice: String,
    pub parallel_tool_calls: bool,
    pub reasoning: Option<Reasoning>,
    pub store: bool,
    pub stream: bool,
    pub include_encrypted_reasoning: bool,
}

/// Builds the streaming request payload: tool choice is always `auto`,
/// parallel tool calls are off, streaming is on, and the encrypted
/// reasoning trail is requested exactly when responses are not stored
/// server-side while reasoning is enabled.
pub fn build_responses_api_request(
    config: &Config,
    prompt: &Prompt,
    effort: Option<ReasoningEffort>,
    summary: Option<ReasoningSummary>,
) -> (r: ResponsesApiRequest)
    ensures
        r.model@ == config.model@,
        r.instructions@ == spec_full_instructions(
            prompt.base_instructions_override,
            prompt.user_instructions,
            config.model@,
        ),
        r.tool_choice@ == "auto"@,
        r.parallel_tool_calls == false,
        r.store == prompt.store,
        r.stream == true,
        r.include_encrypted_reasoning == (!prompt.store && r.reasoning is Some),
{
    let reasoning = create_reasoning_param_for_request(config, effort, summary);
    let include_encrypted_reasoning = !prompt.store && reasoning.is_some();
    ResponsesApiRequest {
        model: config.model.clone(),
        instructions: prompt.get_full_instructions(config.model.as_str()),
        tool_choice: String::from_str("auto"),
        parallel_tool_calls: false,
        reasoning,
        store: prompt.store,
        stream: true,
        include_encrypted_reasoning,
    }
}

} // verus!
