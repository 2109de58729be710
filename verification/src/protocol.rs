//! Protocol data for a session between a client and the agent: the submission
//! queue / event queue envelope, the operation and event taxonomies, and the
//! policies that govern command approval and sandboxing.

use crate::json::Json;
use crate::models::HistoryEntry;
use crate::paths::FsPath;
use crate::paths::PathV;
use crate::paths::clone_strings;
use vstd::prelude::*;

verus! {

/// The platform the agent runs on, as far as sandboxing is concerned.
/// Callers determine it at the edge and pass it down; the rules over it are
/// pure.
#[derive(Debug, Clone, Copy, PartialEq, Eq, Structural)]
pub enum HostPlatform {
    MacOs,
    Linux,
    Other,
}

/// Determines the conditions under which the user is consulted to approve
/// running a command proposed by the agent.
#[derive(Debug, Clone, Copy, PartialEq, Eq, Structural)]
pub enum AskForApproval {
    /// Only "known safe" commands that only read files are auto-approved;
    /// everything else asks the user.
    UnlessTrusted,
    /// All commands are auto-approved inside a sandbox; a failure is
    /// escalated to the user for approval without a sandbox.
    OnFailure,
    /// Never ask the user; failures are returned to the model.
    Never,
}

impl Default for AskForApproval {
    fn default() -> (r: Self)
        ensures
            r == AskForApproval::UnlessTrusted,
    {
        AskForApproval::UnlessTrusted
    }
}

/// User's decision in response to an approval request.
#[derive(Debug, Clone, Copy, PartialEq, Eq, Structural)]
pub enum ReviewDecision {
    /// Execute this one command.
    Approved,
    /// Execute, and auto-approve identical commands for this session.
    ApprovedForSession,
    /// Do not execute; the agent may try something else.
    Denied,
    /// Do not execute and stop until the user's next command.
    Abort,
}

impl Default for ReviewDecision {
    fn default() -> (r: Self)
        ensures
            r == ReviewDecision::Denied,
    {
        ReviewDecision::Denied
    }
}

/// Determines execution restrictions for model shell commands.
#[derive(Debug)]
pub enum SandboxPolicy {
    /// No restrictions whatsoever. Use with caution.
    DangerFullAccess,
    /// Read-only access to the entire file system.
    ReadOnly,
    /// As `ReadOnly`, but with write access to the working directory and the
    /// configured roots.
    WorkspaceWrite { writable_roots: Vec<FsPath>, network_access: bool },
}

impl Clone for SandboxPolicy {
    fn clone(&self) -> (r: Self)
        ensures
            r == *self || policy_view_eq(r, *self),
    {
        match self {
            SandboxPolicy::DangerFullAccess => SandboxPolicy::DangerFullAccess,
            SandboxPolicy::ReadOnly => SandboxPolicy::ReadOnly,
            SandboxPolicy::WorkspaceWrite { writable_roots, network_access } => {
                SandboxPolicy::WorkspaceWrite {
                    writable_roots: clone_paths(writable_roots),
                    network_access: *network_access,
                }
            },
        }
    }
}

/// Two policies that agree on everything a contract can observe: the variant,
/// the network flag, and the views of the writable roots.
pub open spec fn policy_view_eq(a: SandboxPolicy, b: SandboxPolicy) -> bool {
    match (a, b) {
        (SandboxPolicy::DangerFullAccess, SandboxPolicy::DangerFullAccess) => true,
        (SandboxPolicy::ReadOnly, SandboxPolicy::ReadOnly) => true,
        (
            SandboxPolicy::WorkspaceWrite { writable_roots: ra, network_access: na },
            SandboxPolicy::WorkspaceWrite { writable_roots: rb, network_access: nb },
        ) => na == nb && ra.deep_view() == rb.deep_view(),
        _ => false,
    }
}

/// Clones a vector of paths, keeping the view of every element.
pub fn clone_paths(v: &Vec<FsPath>) -> (r: Vec<FsPath>)
    ensures
        r.deep_view() == v.deep_view(),
{
    let mut r: Vec<FsPath> = Vec::new();
    let mut i: usize = 0;
    while i < v.len()
        invariant
            i <= v.len(),
            r@.len() == i,
            forall|j: int| 0 <= j < i ==> r@[j]@ == v@[j]@,
        decreases v.len() - i,
    {
        r.push(v[i].clone());
        i = i + 1;
    }
    proof {
        assert(r.deep_view().len() == r@.len());
        assert(v.deep_view().len() == v@.len());
        assert forall|j: int| 0 <= j < r@.len() implies r.deep_view()[j] == v.deep_view()[j] by {
            assert(r.deep_view()[j] == r@[j].deep_view());
            assert(v.deep_view()[j] == v@[j].deep_view());
        }
        assert(r.deep_view() =~= v.deep_view());
    }
    r
}

impl SandboxPolicy {
    /// Returns a policy with read-only disk access and no network.
    pub fn new_read_only_policy() -> (r: Self)
        ensures
            r == SandboxPolicy::ReadOnly,
    {
        SandboxPolicy::ReadOnly
    }

    /// Returns a policy that can read the entire disk but write only to the
    /// working directory (and, on macOS, the per-user temporary directory),
    /// with no network access.
    pub fn new_workspace_write_policy() -> (r: Self)
        ensures
            r matches SandboxPolicy::WorkspaceWrite { writable_roots, network_access } && writable_roots@
                =~= Seq::<FsPath>::empty() && network_access == false,
    {
        SandboxPolicy::WorkspaceWrite { writable_roots: Vec::new(), network_access: false }
    }

    /// Always true: restricting read access is not supported at this layer.
    pub fn has_full_disk_read_access(&self) -> (r: bool)
        ensures
            r == true,
    {
        true
    }

    pub fn has_full_disk_write_access(&self) -> (r: bool)
        ensures
            r == (self matches SandboxPolicy::DangerFullAccess),
    {
        match self {
            SandboxPolicy::DangerFullAccess => true,
            SandboxPolicy::ReadOnly => false,
            SandboxPolicy::WorkspaceWrite { .. } => false,
        }
    }

    pub fn has_full_network_access(&self) -> (r: bool)
        ensures
            r == spec_has_full_network_access(*self),
    {
        match self {
            SandboxPolicy::DangerFullAccess => true,
            SandboxPolicy::ReadOnly => false,
            SandboxPolicy::WorkspaceWrite { network_access, .. } => *network_access,
        }
    }

    /// The writable roots handed to the sandbox installer, tailored to the
    /// working directory: the configured roots plus `cwd`, plus the per-user
    /// temporary directory on macOS.
    pub fn get_writable_roots_with_cwd(
        &self,
        cwd: &FsPath,
        platform: HostPlatform,
        tmpdir: Option<&FsPath>,
    ) -> (r: Vec<FsPath>)
        ensures
            r.deep_view() == spec_writable_roots_with_cwd(
                *self,
                cwd@,
                platform,
                match tmpdir {
                    Some(t) => Some(t@),
                    None => None,
                },
            ),
    {
        match self {
            SandboxPolicy::DangerFullAccess => Vec::new(),
            SandboxPolicy::ReadOnly => Vec::new(),
            SandboxPolicy::WorkspaceWrite { writable_roots, .. } => {
                let mut roots = clone_paths(writable_roots);
                roots.push(cwd.clone());
                proof {
                    assert(roots.deep_view() =~= writable_roots.deep_view().push(cwd@));
                }
                if matches!(platform, HostPlatform::MacOs) {
                    if let Some(t) = tmpdir {
                        let ghost before = roots.deep_view();
                        roots.push(t.clone());
                        proof {
                            assert(roots.deep_view() =~= before.push(t@));
                        }
                    }
                }
                roots
            },
        }
    }
}

pub open spec fn spec_has_full_network_access(p: SandboxPolicy) -> bool {
    match p {
        SandboxPolicy::DangerFullAccess => true,
        SandboxPolicy::ReadOnly => false,
        SandboxPolicy::WorkspaceWrite { writable_roots, network_access } => network_access,
    }
}

/// The roots a sandboxed command may write: empty unless the policy is
/// `WorkspaceWrite`, in which case the configured roots plus `cwd` plus, on
/// macOS only, the temporary directory when one is known.
pub open spec fn spec_writable_roots_with_cwd(
    p: SandboxPolicy,
    cwd: PathV,
    platform: HostPlatform,
    tmpdir: Option<PathV>,
) -> Seq<PathV> {
    match p {
        SandboxPolicy::DangerFullAccess => Seq::empty(),
        SandboxPolicy::ReadOnly => Seq::empty(),
        SandboxPolicy::WorkspaceWrite { writable_roots, network_access } => {
            let base = writable_roots.deep_view().push(cwd);
            if platform == HostPlatform::MacOs && tmpdir is Some {
                base.push(tmpdir->Some_0)
            } else {
                base
            }
        },
    }
}

/// For a `WorkspaceWrite` policy the writable roots always contain the
/// working directory, and away from macOS they are exactly the configured
/// roots plus the working directory: no temporary directory is added.
pub proof fn lemma_writable_roots_contain_cwd(
    p: SandboxPolicy,
    cwd: PathV,
    platform: HostPlatform,
    tmpdir: Option<PathV>,
)
    requires
        p matches SandboxPolicy::WorkspaceWrite { .. },
    ensures
        spec_writable_roots_with_cwd(p, cwd, platform, tmpdir).contains(cwd),
        platform != HostPlatform::MacOs ==> spec_writable_roots_with_cwd(p, cwd, platform, tmpdir)
            =~= p->WorkspaceWrite_writable_roots.deep_view().push(cwd),
{
    let r = spec_writable_roots_with_cwd(p, cwd, platform, tmpdir);
    let base = p->WorkspaceWrite_writable_roots.deep_view().push(cwd);
    assert(base[base.len() - 1] == cwd);
    if platform == HostPlatform::MacOs && tmpdir is Some {
        assert(r[base.len() - 1] == cwd);
    } else {
        assert(r[base.len() - 1] == cwd);
    }
}

/// Counts of tokens used, per turn or accumulated per session.
#[derive(Debug)]
pub struct TokenUsage {
    pub input_tokens: u64,
    pub cached_input_tokens: Option<u64>,
    pub output_tokens: u64,
    pub reasoning_output_tokens: Option<u64>,
    pub total_tokens: u64,
}

impl Clone for TokenUsage {
    fn clone(&self) -> (r: Self)
        ensures
            r == *self,
    {
        TokenUsage {
            input_tokens: self.input_tokens,
            cached_input_tokens: self.cached_input_tokens,
            output_tokens: self.output_tokens,
            reasoning_output_tokens: self.reasoning_output_tokens,
            total_tokens: self.total_tokens,
        }
    }
}

impl Default for TokenUsage {
    fn default() -> (r: Self)
        ensures
            r.input_tokens == 0,
            r.cached_input_tokens is None,
            r.output_tokens == 0,
            r.reasoning_output_tokens is None,
            r.total_tokens == 0,
    {
        TokenUsage {
            input_tokens: 0,
            cached_input_tokens: None,
            output_tokens: 0,
            reasoning_output_tokens: None,
            total_tokens: 0,
        }
    }
}

/// The mathematical value of an optional counter: absent counts as zero.
pub open spec fn opt_count(c: Option<u64>) -> int {
    match c {
        Some(n) => n as int,
        None => 0,
    }
}

/// Sum of two optional counters: `None` only when both sides are absent.
pub open spec fn opt_sum(a: Option<u64>, b: Option<u64>) -> Option<int> {
    match (a, b) {
        (None, None) => None,
        _ => Some(opt_count(a) + opt_count(b)),
    }
}

/// Spec-level image of an optional `u64` counter.
pub open spec fn opt_as_int(c: Option<u64>) -> Option<int> {
    match c {
        Some(n) => Some(n as int),
        None => None,
    }
}

/// Whether every counter of `a` fits together with `b` in a `u64`.
pub open spec fn usage_sum_fits(a: TokenUsage, b: TokenUsage) -> bool {
    &&& a.input_tokens + b.input_tokens <= u64::MAX
    &&& opt_count(a.cached_input_tokens) + opt_count(b.cached_input_tokens) <= u64::MAX
    &&& a.output_tokens + b.output_tokens <= u64::MAX
    &&& opt_count(a.reasoning_output_tokens) + opt_count(b.reasoning_output_tokens) <= u64::MAX
    &&& a.total_tokens + b.total_tokens <= u64::MAX
}

/// Sums two usage reports field by field. An optional counter stays absent
/// only when it is absent on both sides.
pub fn add_token_usage(current_usage: &TokenUsage, new_usage: &TokenUsage) -> (r: TokenUsage)
    requires
        usage_sum_fits(*current_usage, *new_usage),
    ensures
        r.input_tokens == current_usage.input_tokens + new_usage.input_tokens,
        opt_as_int(r.cached_input_tokens) == opt_sum(
            current_usage.cached_input_tokens,
            new_usage.cached_input_tokens,
        ),
        r.output_tokens == current_usage.output_tokens + new_usage.output_tokens,
        opt_as_int(r.reasoning_output_tokens) == opt_sum(
            current_usage.reasoning_output_tokens,
            new_usage.reasoning_output_tokens,
        ),
        r.total_tokens == current_usage.total_tokens + new_usage.total_tokens,
{
    let cached_input_tokens: Option<u64> = match (
        current_usage.cached_input_tokens,
        new_usage.cached_input_tokens,
    ) {
        (Some(current), Some(new)) => Some(current + new),
        (Some(current), None) => Some(current),
        (None, Some(new)) => Some(new),
        (None, None) => None,
    };
    let reasoning_output_tokens: Option<u64> = match (
        current_usage.reasoning_output_tokens,
        new_usage.reasoning_output_tokens,
    ) {
        (Some(current), Some(new)) => Some(current + new),
        (Some(current), None) => Some(current),
        (None, Some(new)) => Some(new),
        (None, None) => None,
    };
    TokenUsage {
        input_tokens: current_usage.input_tokens + new_usage.input_tokens,
        cached_input_tokens,
        output_tokens: current_usage.output_tokens + new_usage.output_tokens,
        reasoning_output_tokens,
        total_tokens: current_usage.total_tokens + new_usage.total_tokens,
    }
}

/// Saturating addition on counters.
pub fn sat_add(a: u64, b: u64) -> (r: u64)
    ensures
        r == spec_sat_add(a, b),
{
    if a > u64::MAX - b {
        u64::MAX
    } else {
        a + b
    }
}

/// The sum, capped at the largest counter value.
pub open spec fn spec_sat_add(a: u64, b: u64) -> u64 {
    if a + b <= u64::MAX {
        (a + b) as u64
    } else {
        u64::MAX
    }
}

/// Accumulates a turn's usage into the session's running total. Every
/// counter grows by the turn's counter, saturating at the maximum, so the
/// accumulator never decreases.
pub fn accumulate_token_usage(current: &TokenUsage, new_usage: &TokenUsage) -> (r: TokenUsage)
    ensures
        r.input_tokens == spec_sat_add(current.input_tokens, new_usage.input_tokens),
        opt_count(r.cached_input_tokens) == spec_sat_add_opt(
            current.cached_input_tokens,
            new_usage.cached_input_tokens,
        ),
        r.output_tokens == spec_sat_add(current.output_tokens, new_usage.output_tokens),
        opt_count(r.reasoning_output_tokens) == spec_sat_add_opt(
            current.reasoning_output_tokens,
            new_usage.reasoning_output_tokens,
        ),
        r.total_tokens == spec_sat_add(current.total_tokens, new_usage.total_tokens),
        r.input_tokens >= current.input_tokens,
        opt_count(r.cached_input_tokens) >= opt_count(current.cached_input_tokens),
        r.output_tokens >= current.output_tokens,
        opt_count(r.reasoning_output_tokens) >= opt_count(current.reasoning_output_tokens),
        r.total_tokens >= current.total_tokens,
{
    let cached = match (current.cached_input_tokens, new_usage.cached_input_tokens) {
        (Some(a), Some(b)) => Some(sat_add(a, b)),
        (Some(a), None) => Some(a),
        (None, Some(b)) => Some(b),
        (None, None) => None,
    };
    let reasoning = match (current.reasoning_output_tokens, new_usage.reasoning_output_tokens) {
        (Some(a), Some(b)) => Some(sat_add(a, b)),
        (Some(a), None) => Some(a),
        (None, Some(b)) => Some(b),
        (None, None) => None,
    };
    TokenUsage {
        input_tokens: sat_add(current.input_tokens, new_usage.input_tokens),
        cached_input_tokens: cached,
        output_tokens: sat_add(current.output_tokens, new_usage.output_tokens),
        reasoning_output_tokens: reasoning,
        total_tokens: sat_add(current.total_tokens, new_usage.total_tokens),
    }
}

/// Saturating sum of optional counters, as a number.
pub open spec fn spec_sat_add_opt(a: Option<u64>, b: Option<u64>) -> int {
    match (a, b) {
        (Some(x), Some(y)) => spec_sat_add(x, y) as int,
        (Some(x), None) => x as int,
        (None, Some(y)) => y as int,
        (None, None) => 0,
    }
}

/// The session token accumulator never decreases: adding a turn's usage to
/// the running total leaves every counter at least as large as it was.
pub proof fn lemma_token_accumulator_monotonic(current: TokenUsage, new: TokenUsage, summed: TokenUsage)
    requires
        summed.input_tokens == current.input_tokens + new.input_tokens,
        opt_as_int(summed.cached_input_tokens) == opt_sum(
            current.cached_input_tokens,
            new.cached_input_tokens,
        ),
        summed.output_tokens == current.output_tokens + new.output_tokens,
        opt_as_int(summed.reasoning_output_tokens) == opt_sum(
            current.reasoning_output_tokens,
            new.reasoning_output_tokens,
        ),
        summed.total_tokens == current.total_tokens + new.total_tokens,
    ensures
        summed.input_tokens >= current.input_tokens,
        opt_count(summed.cached_input_tokens) >= opt_count(current.cached_input_tokens),
        summed.output_tokens >= current.output_tokens,
        opt_count(summed.reasoning_output_tokens) >= opt_count(current.reasoning_output_tokens),
        summed.total_tokens >= current.total_tokens,
{
}

/// The wire protocol of a model provider.
#[derive(Debug, Clone, Copy, PartialEq, Eq, Structural)]
pub enum WireApi {
    /// The streaming "Responses" protocol.
    Responses,
    /// The older chat-completions protocol, adapted to the same events.
    Chat,
}

/// Descriptor of a model provider: where to reach it and how to retry.
#[derive(Debug)]
pub struct ModelProviderInfo {
    pub name: String,
    pub base_url: String,
    pub env_key: Option<String>,
    pub env_key_instructions: Option<String>,
    pub wire_api: WireApi,
    pub request_max_retries: Option<u64>,
    pub stream_max_retries: Option<u64>,
    pub stream_idle_timeout_ms: Option<u64>,
}

impl ModelProviderInfo {
    /// How many times a failed request is retried; a small default applies
    /// when the provider does not say.
    pub fn request_max_retries(&self) -> (r: u64)
        ensures
            r == spec_request_max_retries(*self),
    {
        match self.request_max_retries {
            Some(n) => n,
            None => 4,
        }
    }
}

/// The provider's retry budget, defaulting to four.
pub open spec fn spec_request_max_retries(p: ModelProviderInfo) -> u64 {
    match p.request_max_retries {
        Some(n) => n,
        None => 4,
    }
}

/// User input.
#[derive(Debug)]
pub enum InputItem {
    Text { text: String },
    /// Pre-encoded data URI image.
    Image { image_url: String },
    /// A local image path, converted to a data URI before serialization.
    LocalImage { path: FsPath },
}

/// Submission Queue entry: a request from the user.
#[derive(Debug)]
pub struct Submission {
    /// Unique id, correlating the submission with the events it produces.
    pub id: String,
    pub op: Op,
}

/// A submission's operation.
#[derive(Debug)]
pub enum Op {
    /// Configure the session; must be the first submission.
    ConfigureSession {
        provider: ModelProviderInfo,
        model: String,
        model_reasoning_effort: Option<ReasoningEffort>,
        model_reasoning_summary: Option<ReasoningSummary>,
        user_instructions: Option<String>,
        base_instructions: Option<String>,
        approval_policy: AskForApproval,
        sandbox_policy: SandboxPolicy,
        disable_response_storage: bool,
        notify: Option<Vec<String>>,
        /// The session root; an absolute path.
        cwd: FsPath,
        resume_path: Option<FsPath>,
    },
    /// Abort the current task; no dedicated event answers it.
    Interrupt,
    /// Input from the user: starts a turn.
    UserInput { items: Vec<InputItem> },
    /// The user's decision on a pending command approval.
    ExecApproval { id: String, decision: ReviewDecision },
    /// The user's decision on a pending patch approval.
    PatchApproval { id: String, decision: ReviewDecision },
    /// Append to the persistent cross-session message history.
    AddToHistory { text: String },
    /// Request one history entry by log id and offset.
    GetHistoryEntryRequest { offset: usize, log_id: u64 },
    /// Shut the session down.
    Shutdown,
}

/// The effort a reasoning model should spend; absent means reasoning is
/// disabled.
#[derive(Debug, Clone, Copy, PartialEq, Eq, Structural)]
pub enum ReasoningEffort {
    Low,
    Medium,
    High,
}

/// Which reasoning summary to request; absent means none.
#[derive(Debug, Clone, Copy, PartialEq, Eq, Structural)]
pub enum ReasoningSummary {
    Auto,
    Concise,
    Detailed,
}

/// Event Queue entry: an event from the agent, correlated by submission id.
#[derive(Debug)]
pub struct Event {
    /// The id of the submission this event answers, or of the running turn.
    pub id: String,
    pub msg: EventMsg,
}

/// An event's payload.
#[derive(Debug)]
pub enum EventMsg {
    /// Error while executing a submission.
    Error(ErrorEvent),
    /// The agent has started a task.
    TaskStarted,
    /// The agent has completed all actions of a task.
    TaskComplete(TaskCompleteEvent),
    /// Periodic report of the tokens used in the session.
    TokenCount(TokenUsage),
    /// Agent text output.
    AgentMessage(AgentMessageEvent),
    /// Incremental agent text output.
    AgentMessageDelta(AgentMessageDeltaEvent),
    /// A reasoning summary.
    AgentReasoning(AgentReasoningEvent),
    /// Incremental reasoning summary output.
    AgentReasoningDelta(AgentReasoningDeltaEvent),
    /// Acknowledges the session configuration.
    SessionConfigured(SessionConfiguredEvent),
    McpToolCallBegin(McpToolCallBeginEvent),
    McpToolCallEnd(McpToolCallEndEvent),
    /// The agent is about to execute a command.
    ExecCommandBegin(ExecCommandBeginEvent),
    ExecCommandEnd(ExecCommandEndEvent),
    ExecApprovalRequest(ExecApprovalRequestEvent),
    ApplyPatchApprovalRequest(ApplyPatchApprovalRequestEvent),
    BackgroundEvent(BackgroundEventEvent),
    /// The agent is about to apply a patch; mirrors `ExecCommandBegin`.
    PatchApplyBegin(PatchApplyBeginEvent),
    /// A patch application finished.
    PatchApplyEnd(PatchApplyEndEvent),
    /// Answer to `GetHistoryEntryRequest`.
    GetHistoryEntryResponse(GetHistoryEntryResponseEvent),
    /// The agent is shutting down.
    ShutdownComplete,
}

#[derive(Debug)]
pub struct ErrorEvent {
    pub message: String,
}

#[derive(Debug)]
pub struct TaskCompleteEvent {
    pub last_agent_message: Option<String>,
}

#[derive(Debug)]
pub struct AgentMessageEvent {
    pub message: String,
}

#[derive(Debug)]
pub struct AgentMessageDeltaEvent {
    pub delta: String,
}

#[derive(Debug)]
pub struct AgentReasoningEvent {
    pub text: String,
}

#[derive(Debug)]
pub struct AgentReasoningDeltaEvent {
    pub delta: String,
}

/// The result a tool server reported for one call.
#[derive(Debug)]
pub struct CallToolResult {
    pub content: Vec<String>,
    pub is_error: Option<bool>,
}

#[derive(Debug)]
pub struct McpToolCallBeginEvent {
    /// Pairs this with the matching `McpToolCallEnd`.
    pub call_id: String,
    /// The tool server's configured name.
    pub server: String,
    /// The tool's name on that server.
    pub tool: String,
    /// The call's arguments, if any.
    pub arguments: Option<Json>,
}

#[derive(Debug)]
pub struct McpToolCallEndEvent {
    /// Pairs this with the matching `McpToolCallBegin`.
    pub call_id: String,
    /// The call's result; possibly an error.
    pub result: Result<CallToolResult, String>,
}

impl McpToolCallEndEvent {
    /// Whether the call succeeded: a result that is not marked as an error.
    pub fn is_success(&self) -> (r: bool)
        ensures
            r == spec_mcp_call_success(*self),
    {
        match &self.result {
            Ok(result) => match result.is_error {
                Some(e) => !e,
                None => true,
            },
            Err(_) => false,
        }
    }
}

/// A tool call succeeded when it returned a result not marked as an error.
pub open spec fn spec_mcp_call_success(e: McpToolCallEndEvent) -> bool {
    match e.result {
        Ok(result) => !(result.is_error matches Some(true)),
        Err(_) => false,
    }
}

#[derive(Debug)]
pub struct ExecCommandBeginEvent {
    /// Pairs this with the matching `ExecCommandEnd`.
    pub call_id: String,
    /// The command about to run.
    pub command: Vec<String>,
    /// Its working directory.
    pub cwd: FsPath,
}

#[derive(Debug)]
pub struct ExecCommandEndEvent {
    /// Pairs this with the matching `ExecCommandBegin`.
    pub call_id: String,
    pub stdout: String,
    pub stderr: String,
    pub exit_code: i32,
}

#[derive(Debug)]
pub struct ExecApprovalRequestEvent {
    pub call_id: String,
    pub command: Vec<String>,
    pub cwd: FsPath,
    /// Why the user is asked, e.g. a retry without a sandbox.
    pub reason: Option<String>,
}

/// One changed file inside a patch event.
#[derive(Debug)]
pub struct FileChangeEntry {
    pub path: FsPath,
    pub change: FileChange,
}

#[derive(Debug)]
pub struct ApplyPatchApprovalRequestEvent {
    pub call_id: String,
    pub changes: Vec<FileChangeEntry>,
    /// Why the user is asked, e.g. extra write access.
    pub reason: Option<String>,
    /// A root the agent asks to be writable for the rest of the session.
    pub grant_root: Option<FsPath>,
}

#[derive(Debug)]
pub struct BackgroundEventEvent {
    pub message: String,
}

#[derive(Debug)]
pub struct PatchApplyBeginEvent {
    /// Pairs this with the matching `PatchApplyEnd`.
    pub call_id: String,
    /// True when no approval request preceded this patch.
    pub auto_approved: bool,
    pub changes: Vec<FileChangeEntry>,
}

#[derive(Debug)]
pub struct PatchApplyEndEvent {
    /// Pairs this with the matching `PatchApplyBegin`.
    pub call_id: String,
    pub stdout: String,
    pub stderr: String,
    pub success: bool,
}

#[derive(Debug)]
pub struct GetHistoryEntryResponseEvent {
    pub offset: usize,
    pub log_id: u64,
    /// The entry at the offset, when available.
    pub entry: Option<HistoryEntry>,
}

#[derive(Debug)]
pub struct SessionConfiguredEvent {
    /// Unique id of the session, in its textual form.
    pub session_id: String,
    /// The model being queried.
    pub model: String,
    /// Identifier of the history log file.
    pub history_log_id: u64,
    /// Number of entries already in the history log.
    pub history_entry_count: usize,
}

/// A file change on the wire.
#[derive(Debug)]
pub enum FileChange {
    Add { content: String },
    Delete,
    Update { unified_diff: String, move_path: Option<FsPath> },
}

/// One hunk of a diff: the 1-based first line, the removed and added lines.
#[derive(Debug)]
pub struct Chunk {
    pub orig_index: u32,
    pub deleted_lines: Vec<String>,
    pub inserted_lines: Vec<String>,
}

} // verus!
