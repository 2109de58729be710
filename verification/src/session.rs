//! The turn core: session state, and the loop that consumes a model stream,
//! dispatches tool calls through the safety evaluator and the user's
//! decisions, and emits the event stream a front end observes. Tool work is
//! handed back by the edge as plain outcomes; the decisions over them are
//! pure and verified.

use crate::apply_patch::ApplyPatchAction;
use crate::client::ResponseEvent;
use crate::models::ContentItem;
use crate::models::ResponseItem;
use crate::paths::FsPath;
use crate::protocol::AgentMessageDeltaEvent;
use crate::protocol::AgentMessageEvent;
use crate::protocol::AgentReasoningDeltaEvent;
use crate::protocol::AgentReasoningEvent;
use crate::protocol::AskForApproval;
use crate::protocol::CallToolResult;
use crate::protocol::ErrorEvent;
use crate::protocol::Event;
use crate::protocol::EventMsg;
use crate::protocol::ExecCommandBeginEvent;
use crate::protocol::ExecCommandEndEvent;
use crate::protocol::ExecApprovalRequestEvent;
use crate::protocol::HostPlatform;
use crate::protocol::McpToolCallBeginEvent;
use crate::protocol::McpToolCallEndEvent;
use crate::protocol::PatchApplyBeginEvent;
use crate::protocol::PatchApplyEndEvent;
use crate::protocol::ReviewDecision;
use crate::protocol::SandboxPolicy;
use crate::protocol::SessionConfiguredEvent;
use crate::protocol::TaskCompleteEvent;
use crate::protocol::TokenUsage;
use crate::protocol::accumulate_token_usage;
use crate::protocol::opt_count;
use crate::safety::ApprovedCommandSet;
use crate::safety::SafetyCheck;
use crate::safety::assess_command_safety;
use crate::safety::assess_patch_safety;
use crate::paths::clone_strings;
use vstd::prelude::*;

verus! {

broadcast use {vstd::std_specs::vec::group_vec_axioms, vstd::seq::group_seq_axioms};

/// A running conversation: its identity, configuration, transcript, prior
/// approvals and token accounting.
pub struct Session {
    /// Unique session id, in textual form.
    pub id: String,
    pub model: String,
    /// The session root; relative paths resolve against it.
    pub cwd: FsPath,
    pub approval_policy: AskForApproval,
    pub sandbox_policy: SandboxPolicy,
    pub platform: HostPlatform,
    /// Commands the user approved for the rest of the session.
    pub approved: ApprovedCommandSet,
    /// Token accounting across turns; never decreases.
    pub token_usage: TokenUsage,
    /// The provider's id of the last completed response.
    pub previous_response_id: Option<String>,
    /// The conversation transcript; append-only.
    pub history: Vec<ResponseItem>,
}

impl Session {
    /// Opens a session with a fresh identifier.
    pub fn new(
        model: String,
        cwd: FsPath,
        approval_policy: AskForApproval,
        sandbox_policy: SandboxPolicy,
        platform: HostPlatform,
    ) -> (r: Session)
        ensures
            r.id@.len() == 36,
            r.model@ == model@,
            r.cwd@ == cwd@,
            r.approval_policy == approval_policy,
            r.platform == platform,
            r.token_usage.input_tokens == 0 && r.token_usage.output_tokens == 0
                && r.token_usage.total_tokens == 0 && r.token_usage.cached_input_tokens is None
                && r.token_usage.reasoning_output_tokens is None,
            r.previous_response_id is None,
            r.history@.len() == 0,
            r.approved.as_set() =~= Set::<Seq<Seq<char>>>::empty(),
    {
        Session {
            id: crate::runtime::new_session_id(),
            model,
            cwd,
            approval_policy,
            sandbox_policy,
            platform,
            approved: ApprovedCommandSet::new(),
            token_usage: TokenUsage::default(),
            previous_response_id: None,
            history: Vec::new(),
        }
    }

    /// The acknowledgment a front end receives for its configuration.
    pub fn session_configured_event(&self, history_log_id: u64, history_entry_count: usize) -> (r:
        EventMsg)
        ensures
            r matches EventMsg::SessionConfigured(e) && e.session_id@ == self.id@ && e.model@
                == self.model@ && e.history_log_id == history_log_id && e.history_entry_count
                == history_entry_count,
    {
        EventMsg::SessionConfigured(
            SessionConfiguredEvent {
                session_id: self.id.clone(),
                model: self.model.clone(),
                history_log_id,
                history_entry_count,
            },
        )
    }
}

/// What the edge collected from one tool invocation.
#[derive(Debug)]
pub struct ExecOutcome {
    pub stdout: String,
    pub stderr: String,
    pub exit_code: i32,
}

/// The kind of a paired begin/end event.
#[derive(Debug, Clone, Copy, PartialEq, Eq, Structural)]
pub enum CallKind {
    Exec,
    Patch,
    Mcp,
}

/// The begin marker an event carries, with its kind and call id.
pub open spec fn spec_begin_id(m: EventMsg) -> Option<(CallKind, Seq<char>)> {
    match m {
        EventMsg::ExecCommandBegin(b) => Some((CallKind::Exec, b.call_id@)),
        EventMsg::PatchApplyBegin(b) => Some((CallKind::Patch, b.call_id@)),
        EventMsg::McpToolCallBegin(b) => Some((CallKind::Mcp, b.call_id@)),
        _ => None,
    }
}

/// The end marker an event carries, with its kind and call id.
pub open spec fn spec_end_id(m: EventMsg) -> Option<(CallKind, Seq<char>)> {
    match m {
        EventMsg::ExecCommandEnd(e) => Some((CallKind::Exec, e.call_id@)),
        EventMsg::PatchApplyEnd(e) => Some((CallKind::Patch, e.call_id@)),
        EventMsg::McpToolCallEnd(e) => Some((CallKind::Mcp, e.call_id@)),
        _ => None,
    }
}

/// How many events of the sequence begin a call of this kind and id.
pub open spec fn count_begins(s: Seq<Event>, k: CallKind, cid: Seq<char>) -> int
    decreases s.len(),
{
    if s.len() == 0 {
        0
    } else {
        count_begins(s.drop_last(), k, cid) + if spec_begin_id(s.last().msg) == Some((k, cid)) {
            1int
        } else {
            0int
        }
    }
}

/// How many events of the sequence end a call of this kind and id.
pub open spec fn count_ends(s: Seq<Event>, k: CallKind, cid: Seq<char>) -> int
    decreases s.len(),
{
    if s.len() == 0 {
        0
    } else {
        count_ends(s.drop_last(), k, cid) + if spec_end_id(s.last().msg) == Some((k, cid)) {
            1int
        } else {
            0int
        }
    }
}

/// Appending one event changes the counts by that event's own markers.
pub proof fn lemma_count_push(s: Seq<Event>, e: Event, k: CallKind, cid: Seq<char>)
    ensures
        count_begins(s.push(e), k, cid) == count_begins(s, k, cid) + if spec_begin_id(e.msg)
            == Some((k, cid)) {
            1int
        } else {
            0int
        },
        count_ends(s.push(e), k, cid) == count_ends(s, k, cid) + if spec_end_id(e.msg) == Some(
            (k, cid),
        ) {
            1int
        } else {
            0int
        },
{
    assert(s.push(e).drop_last() =~= s);
    assert(s.push(e).last() == e);
}

/// Whether an event is a streamed delta.
pub open spec fn spec_is_delta(m: EventMsg) -> bool {
    m is AgentMessageDelta || m is AgentReasoningDelta
}

/// Whether an event echoes model output (a delta, a message or a
/// reasoning summary); the tool events are not echoes.
pub open spec fn spec_is_stream_echo(m: EventMsg) -> bool {
    ||| m is AgentMessageDelta
    ||| m is AgentReasoningDelta
    ||| m is AgentMessage
    ||| m is AgentReasoning
}

/// How many tool calls the model stream carries.
pub open spec fn count_tool_call_items(s: Seq<ResponseEvent>) -> int
    decreases s.len(),
{
    if s.len() == 0 {
        0
    } else {
        count_tool_call_items(s.drop_last()) + if spec_is_tool_call(s.last()) {
            1int
        } else {
            0int
        }
    }
}

/// How many finished assistant messages the model stream carries.
pub open spec fn count_message_items(s: Seq<ResponseEvent>) -> int
    decreases s.len(),
{
    if s.len() == 0 {
        0
    } else {
        count_message_items(s.drop_last()) + (match s.last() {
            ResponseEvent::OutputItemDone(item) => if item is Message {
                1int
            } else {
                0int
            },
            _ => 0int,
        })
    }
}

/// How many finished reasoning summaries the model stream carries.
pub open spec fn count_reasoning_items(s: Seq<ResponseEvent>) -> int
    decreases s.len(),
{
    if s.len() == 0 {
        0
    } else {
        count_reasoning_items(s.drop_last()) + (match s.last() {
            ResponseEvent::OutputItemDone(item) => if item is Reasoning {
                1int
            } else {
                0int
            },
            _ => 0int,
        })
    }
}

/// How many message events the turn emitted.
pub open spec fn count_agent_message_events(s: Seq<Event>) -> int
    decreases s.len(),
{
    if s.len() == 0 {
        0
    } else {
        count_agent_message_events(s.drop_last()) + if s.last().msg is AgentMessage {
            1int
        } else {
            0int
        }
    }
}

/// How many reasoning events the turn emitted.
pub open spec fn count_agent_reasoning_events(s: Seq<Event>) -> int
    decreases s.len(),
{
    if s.len() == 0 {
        0
    } else {
        count_agent_reasoning_events(s.drop_last()) + if s.last().msg is AgentReasoning {
            1int
        } else {
            0int
        }
    }
}

/// The provider id of the last completed response in the stream, if any.
pub open spec fn spec_last_completed_id(s: Seq<ResponseEvent>) -> Option<String>
    decreases s.len(),
{
    if s.len() == 0 {
        None
    } else {
        match s.last() {
            ResponseEvent::Completed { response_id, token_usage } => Some(response_id),
            _ => spec_last_completed_id(s.drop_last()),
        }
    }
}

/// How many text deltas the model stream carries.
pub open spec fn count_text_delta_items(s: Seq<ResponseEvent>) -> int
    decreases s.len(),
{
    if s.len() == 0 {
        0
    } else {
        count_text_delta_items(s.drop_last()) + if s.last() is OutputTextDelta {
            1int
        } else {
            0int
        }
    }
}

/// How many reasoning deltas the model stream carries.
pub open spec fn count_reasoning_delta_items(s: Seq<ResponseEvent>) -> int
    decreases s.len(),
{
    if s.len() == 0 {
        0
    } else {
        count_reasoning_delta_items(s.drop_last()) + if s.last() is ReasoningSummaryDelta {
            1int
        } else {
            0int
        }
    }
}

/// How many message-delta events the turn emitted.
pub open spec fn count_message_delta_events(s: Seq<Event>) -> int
    decreases s.len(),
{
    if s.len() == 0 {
        0
    } else {
        count_message_delta_events(s.drop_last()) + if s.last().msg is AgentMessageDelta {
            1int
        } else {
            0int
        }
    }
}

/// How many reasoning-delta events the turn emitted.
pub open spec fn count_reasoning_delta_events(s: Seq<Event>) -> int
    decreases s.len(),
{
    if s.len() == 0 {
        0
    } else {
        count_reasoning_delta_events(s.drop_last()) + if s.last().msg is AgentReasoningDelta {
            1int
        } else {
            0int
        }
    }
}

/// One step of the stream: the item at `p` accounts for the counters and
/// for the last completed response id of the prefix through `p`.
proof fn lemma_item_counts_step(s: Seq<ResponseEvent>, p: int)
    requires
        0 <= p < s.len(),
    ensures
        count_text_delta_items(s.take(p + 1)) == count_text_delta_items(s.take(p)) + if s[p]
            is OutputTextDelta {
            1int
        } else {
            0int
        },
        count_reasoning_delta_items(s.take(p + 1)) == count_reasoning_delta_items(s.take(p)) + if s[p]
            is ReasoningSummaryDelta {
            1int
        } else {
            0int
        },
        count_message_items(s.take(p + 1)) == count_message_items(s.take(p)) + (match s[p] {
            ResponseEvent::OutputItemDone(item) => if item is Message {
                1int
            } else {
                0int
            },
            _ => 0int,
        }),
        count_reasoning_items(s.take(p + 1)) == count_reasoning_items(s.take(p)) + (match s[p] {
            ResponseEvent::OutputItemDone(item) => if item is Reasoning {
                1int
            } else {
                0int
            },
            _ => 0int,
        }),
        count_tool_call_items(s.take(p + 1)) == count_tool_call_items(s.take(p)) + if spec_is_tool_call(
            s[p],
        ) {
            1int
        } else {
            0int
        },
        spec_last_completed_id(s.take(p + 1)) == (match s[p] {
            ResponseEvent::Completed { response_id, token_usage } => Some(response_id),
            _ => spec_last_completed_id(s.take(p)),
        }),
{
    assert(s.take(p + 1).drop_last() =~= s.take(p));
    assert(s.take(p + 1).last() == s[p]);
}

/// Pushing an event moves the delta counters by that event's own kind.
proof fn lemma_delta_counts_push(pre: Seq<Event>, s: Seq<Event>)
    requires
        s.len() == pre.len() + 1,
        s =~= pre.push(s.last()),
    ensures
        count_message_delta_events(s) == count_message_delta_events(pre) + if s.last().msg
            is AgentMessageDelta {
            1int
        } else {
            0int
        },
        count_reasoning_delta_events(s) == count_reasoning_delta_events(pre) + if s.last().msg
            is AgentReasoningDelta {
            1int
        } else {
            0int
        },
        count_agent_message_events(s) == count_agent_message_events(pre) + if s.last().msg
            is AgentMessage {
            1int
        } else {
            0int
        },
        count_agent_reasoning_events(s) == count_agent_reasoning_events(pre) + if s.last().msg
            is AgentReasoning {
            1int
        } else {
            0int
        },
{
    assert(s == pre.push(s.last()));
    assert(s.drop_last() =~= pre);
}

/// Extending the events with echo-free entries keeps the echo counters.
proof fn lemma_delta_counts_extend(s1: Seq<Event>, s2: Seq<Event>)
    requires
        s1.len() <= s2.len(),
        forall|i: int| 0 <= i < s1.len() ==> #[trigger] s2[i] == s1[i],
        forall|i: int| s1.len() <= i < s2.len() ==> !spec_is_stream_echo((#[trigger] s2[i]).msg),
    ensures
        count_message_delta_events(s2) == count_message_delta_events(s1),
        count_reasoning_delta_events(s2) == count_reasoning_delta_events(s1),
        count_agent_message_events(s2) == count_agent_message_events(s1),
        count_agent_reasoning_events(s2) == count_agent_reasoning_events(s1),
    decreases s2.len(),
{
    if s2.len() == s1.len() {
        assert(s2 =~= s1);
    } else {
        lemma_delta_counts_extend(s1, s2.drop_last());
    }
}

/// The concatenated text of a message's content.
pub open spec fn spec_message_text(content: Seq<ContentItem>) -> Seq<char>
    decreases content.len(),
{
    if content.len() == 0 {
        Seq::empty()
    } else {
        spec_message_text(content.drop_last()) + (match content.last() {
            ContentItem::InputText { text } => text@,
            ContentItem::OutputText { text } => text@,
        })
    }
}

/// Concatenates the text of a message's content.
pub fn message_text(content: &Vec<ContentItem>) -> (r: String)
    ensures
        r@ == spec_message_text(content@),
{
    let mut out = String::new();
    let mut i: usize = 0;
    while i < content.len()
        invariant
            i <= content@.len(),
            out@ == spec_message_text(content@.take(i as int)),
        decreases content@.len() - i,
    {
        proof {
            assert(content@.take(i + 1 as int).drop_last() =~= content@.take(i as int));
            assert(content@.take(i + 1 as int).last() == content@[i as int]);
        }
        match &content[i] {
            ContentItem::InputText { text } => out.append(text.as_str()),
            ContentItem::OutputText { text } => out.append(text.as_str()),
        }
        i = i + 1;
    }
    proof {
        assert(content@.take(content@.len() as int) =~= content@);
    }
    out
}

/// The outcome handed to a tool call when the executor gave none back.
fn missing_outcome() -> (r: ExecOutcome)
    ensures
        r.exit_code == -1,
{
    ExecOutcome {
        stdout: String::new(),
        stderr: String::from_str("tool execution produced no outcome"),
        exit_code: -1,
    }
}

/// The events of a well-formed turn: the turn markers bracket everything,
/// appear once each, every begin marker is balanced by its end marker, the
/// deltas stay strictly inside the brackets, and every event carries the
/// turn's submission id.
pub open spec fn spec_turn_shape(s: Seq<Event>, sub_id: Seq<char>) -> bool {
    &&& s.len() >= 2
    &&& s[0].msg is TaskStarted
    &&& s.last().msg is TaskComplete
    &&& forall|i: int|
        0 < i < s.len() - 1 ==> !((#[trigger] s[i].msg) is TaskStarted) && !(s[i].msg
            is TaskComplete)
    &&& forall|i: int| 0 <= i < s.len() ==> (#[trigger] s[i].id@) == sub_id
    &&& forall|k: CallKind, cid: Seq<char>|
        #[trigger] count_begins(s, k, cid) == count_ends(s, k, cid)
    &&& forall|i: int| 0 <= i < s.len() && spec_is_delta(#[trigger] s[i].msg) ==> 0 < i < s.len() - 1
}

/// Pushes one turn event, stamped with the submission id.
fn push_event(out: &mut Vec<Event>, sub_id: &String, msg: EventMsg)
    ensures
        final(out)@.len() == old(out)@.len() + 1,
        final(out)@ == old(out)@.push(final(out)@.last()),
        final(out)@.last().id@ == sub_id@,
        final(out)@.last().msg == msg,
{
    out.push(Event { id: sub_id.clone(), msg });
}

/// Runs one turn: consumes the model stream, dispatches tool calls through
/// the safety evaluator and the user's decisions, appends the transcript,
/// accounts tokens, and returns the turn's events. `exec_outcomes` are the
/// results the edge collected for the tool invocations, in order;
/// `decisions` answer the approval requests, in order (an exhausted list
/// denies); a sandboxed command that fails under the on-failure policy
/// asks for approval to retry without the sandbox and consumes a further
/// outcome when granted. The returned events form a well-shaped turn: bracketed by one
/// `TaskStarted` and one `TaskComplete`, every begin marker balanced by its
/// end marker of the same call id, deltas strictly inside the brackets, and
/// every event stamped with the submission id. Each text or reasoning
/// delta of the stream is forwarded as its delta event, each finished
/// message or reasoning summary as its message or reasoning event, the
/// provider id of the last completed response becomes the next turn's
/// previous-response id, and the token accumulator never decreases.
#[verifier::loop_isolation(false)]
pub fn run_turn(
    session: &mut Session,
    sub_id: &String,
    stream: Vec<ResponseEvent>,
    exec_outcomes: Vec<ExecOutcome>,
    decisions: Vec<ReviewDecision>,
) -> (r: Vec<Event>)
    ensures
        spec_turn_shape(r@, sub_id@),
        final(session).token_usage.input_tokens >= old(session).token_usage.input_tokens,
        opt_count(final(session).token_usage.cached_input_tokens) >= opt_count(
            old(session).token_usage.cached_input_tokens,
        ),
        final(session).token_usage.output_tokens >= old(session).token_usage.output_tokens,
        opt_count(final(session).token_usage.reasoning_output_tokens) >= opt_count(
            old(session).token_usage.reasoning_output_tokens,
        ),
        final(session).token_usage.total_tokens >= old(session).token_usage.total_tokens,
        old(session).history@.is_prefix_of(final(session).history@),
        final(session).id@ == old(session).id@,
        final(session).model@ == old(session).model@,
        count_message_delta_events(r@) == count_text_delta_items(stream@),
        count_reasoning_delta_events(r@) == count_reasoning_delta_items(stream@),
        count_agent_message_events(r@) == count_message_items(stream@),
        count_agent_reasoning_events(r@) == count_reasoning_items(stream@),
        final(session).history@.len() == old(session).history@.len() + count_message_items(
            stream@,
        ) + count_reasoning_items(stream@) + count_tool_call_items(stream@),
        final(session).previous_response_id == (match spec_last_completed_id(stream@) {
            Some(id) => Some(id),
            None => old(session).previous_response_id,
        }),
{
    let ghost all = stream@;
    let ghost mut processed: int = 0;
    let mut input = stream;
    let mut outcomes = exec_outcomes;
    let mut decisions = decisions;
    let mut out: Vec<Event> = Vec::new();
    let mut last_agent_message: Option<String> = None;

    push_event(&mut out, sub_id, EventMsg::TaskStarted);
    proof {
        assert forall|k: CallKind, cid: Seq<char>| #[trigger] count_begins(out@, k, cid)
            == count_ends(out@, k, cid) by {
            lemma_count_push(Seq::empty(), out@.last(), k, cid);
            assert(out@ =~= Seq::empty().push(out@.last()));
        }
        lemma_delta_counts_push(Seq::empty(), out@);
        assert(all.take(0) =~= Seq::<ResponseEvent>::empty());
        assert(all.skip(0) =~= all);
    }

    while input.len() > 0
        invariant
            out@.len() >= 1,
            out@[0].msg is TaskStarted,
            forall|i: int| 0 <= i < out@.len() ==> (#[trigger] out@[i].id@) == sub_id@,
            forall|i: int| 0 < i < out@.len() ==> !((#[trigger] out@[i].msg) is TaskStarted),
            forall|i: int| 0 <= i < out@.len() ==> !((#[trigger] out@[i].msg) is TaskComplete),
            forall|k: CallKind, cid: Seq<char>|
                #[trigger] count_begins(out@, k, cid) == count_ends(out@, k, cid),
            session.token_usage.input_tokens >= old(session).token_usage.input_tokens,
            opt_count(session.token_usage.cached_input_tokens) >= opt_count(
                old(session).token_usage.cached_input_tokens,
            ),
            session.token_usage.output_tokens >= old(session).token_usage.output_tokens,
            opt_count(session.token_usage.reasoning_output_tokens) >= opt_count(
                old(session).token_usage.reasoning_output_tokens,
            ),
            session.token_usage.total_tokens >= old(session).token_usage.total_tokens,
            old(session).history@.is_prefix_of(session.history@),
            session.id@ == old(session).id@,
            session.model@ == old(session).model@,
            0 <= processed <= all.len(),
            input@ =~= all.skip(processed),
            count_message_delta_events(out@) == count_text_delta_items(all.take(processed)),
            count_reasoning_delta_events(out@) == count_reasoning_delta_items(
                all.take(processed),
            ),
            count_agent_message_events(out@) == count_message_items(all.take(processed)),
            count_agent_reasoning_events(out@) == count_reasoning_items(all.take(processed)),
            session.history@.len() == old(session).history@.len() + count_message_items(
                all.take(processed),
            ) + count_reasoning_items(all.take(processed)) + count_tool_call_items(
                all.take(processed),
            ),
            session.previous_response_id == (match spec_last_completed_id(all.take(processed)) {
                Some(id) => Some(id),
                None => old(session).previous_response_id,
            }),
        decreases input.len(),
    {
        proof {
            assert(all.skip(processed)[0] == all[processed]);
            assert(all.skip(processed).drop_first() =~= all.skip(processed + 1));
        }
        let ev = input.remove(0);
        proof {
            assert(ev == all[processed]);
            assert(input@ =~= all.skip(processed + 1));
            lemma_item_counts_step(all, processed);
        }
        match ev {
            ResponseEvent::Created => {},
            ResponseEvent::OutputTextDelta(delta) => {
                let ghost pre_push = out@;
                push_event(
                    &mut out,
                    sub_id,
                    EventMsg::AgentMessageDelta(AgentMessageDeltaEvent { delta }),
                );
                proof {
                    lemma_counts_after_plain_push(pre_push, out@);
                    lemma_delta_counts_push(pre_push, out@);
                }
            },
            ResponseEvent::ReasoningSummaryDelta(delta) => {
                let ghost pre_push = out@;
                push_event(
                    &mut out,
                    sub_id,
                    EventMsg::AgentReasoningDelta(AgentReasoningDeltaEvent { delta }),
                );
                proof {
                    lemma_counts_after_plain_push(pre_push, out@);
                    lemma_delta_counts_push(pre_push, out@);
                }
            },
            ResponseEvent::Completed { response_id, token_usage } => {
                session.previous_response_id = Some(response_id);
                match token_usage {
                    Some(usage) => {
                        session.token_usage = accumulate_token_usage(
                            &session.token_usage,
                            &usage,
                        );
                        let ghost pre_push = out@;
                        push_event(&mut out, sub_id, EventMsg::TokenCount(usage));
                        proof {
                            lemma_counts_after_plain_push(pre_push, out@);
                            lemma_delta_counts_push(pre_push, out@);
                        }
                    },
                    None => {},
                }
            },
            ResponseEvent::OutputItemDone(item) => {
                match item {
                    ResponseItem::Message { id, role, content } => {
                        let message = message_text(&content);
                        last_agent_message = Some(message.clone());
                        let ghost pre_push = out@;
                        push_event(
                            &mut out,
                            sub_id,
                            EventMsg::AgentMessage(AgentMessageEvent { message }),
                        );
                        session.history.push(ResponseItem::Message { id, role, content });
                        proof {
                            lemma_counts_after_plain_push(pre_push, out@);
                            lemma_delta_counts_push(pre_push, out@);
                            assert(old(session).history@.is_prefix_of(session.history@));
                        }
                    },
                    ResponseItem::Reasoning { summary_text } => {
                        let ghost pre_push = out@;
                        push_event(
                            &mut out,
                            sub_id,
                            EventMsg::AgentReasoning(
                                AgentReasoningEvent { text: summary_text.clone() },
                            ),
                        );
                        session.history.push(ResponseItem::Reasoning { summary_text });
                        proof {
                            lemma_counts_after_plain_push(pre_push, out@);
                            lemma_delta_counts_push(pre_push, out@);
                        }
                    },
                    ResponseItem::ShellToolCall { call_id, command } => {
                        let verdict = assess_command_safety(
                            &command,
                            session.approval_policy,
                            &session.sandbox_policy,
                            &session.approved,
                            session.platform,
                        );
                        match verdict {
                            SafetyCheck::AutoApprove { sandbox_type } => {
                                let ghost pre_block = out@;
                                run_command_block(
                                    session,
                                    &mut out,
                                    sub_id,
                                    &mut outcomes,
                                    &mut decisions,
                                    call_id,
                                    command,
                                    false,
                                    sandbox_type.is_some(),
                                );
                                proof {
                                    lemma_delta_counts_extend(pre_block, out@);
                                }
                            },
                            SafetyCheck::AskUser => {
                                let ghost pre_push = out@;
                                push_event(
                                    &mut out,
                                    sub_id,
                                    EventMsg::ExecApprovalRequest(
                                        ExecApprovalRequestEvent {
                                            call_id: call_id.clone(),
                                            command: clone_strings(&command),
                                            cwd: session.cwd.clone(),
                                            reason: None,
                                        },
                                    ),
                                );
                                proof {
                                    lemma_counts_after_plain_push(pre_push, out@);
                                    lemma_delta_counts_push(pre_push, out@);
                                }
                                let decision = if decisions.len() > 0 {
                                    decisions.remove(0)
                                } else {
                                    ReviewDecision::Denied
                                };
                                match decision {
                                    ReviewDecision::Approved => {
                                        let ghost pre_block = out@;
                                        run_command_block(
                                            session,
                                            &mut out,
                                            sub_id,
                                            &mut outcomes,
                                            &mut decisions,
                                            call_id,
                                            command,
                                            false,
                                            false,
                                        );
                                        proof {
                                            lemma_delta_counts_extend(pre_block, out@);
                                        }
                                    },
                                    ReviewDecision::ApprovedForSession => {
                                        let ghost pre_block = out@;
                                        run_command_block(
                                            session,
                                            &mut out,
                                            sub_id,
                                            &mut outcomes,
                                            &mut decisions,
                                            call_id,
                                            command,
                                            true,
                                            false,
                                        );
                                        proof {
                                            lemma_delta_counts_extend(pre_block, out@);
                                        }
                                    },
                                    _ => {
                                        session.history.push(
                                            ResponseItem::FunctionCallOutput {
                                                call_id,
                                                output: String::from_str(
                                                    "rejected by the user",
                                                ),
                                            },
                                        );
                                    },
                                }
                            },
                            SafetyCheck::Reject { reason } => {
                                session.history.push(
                                    ResponseItem::FunctionCallOutput { call_id, output: reason },
                                );
                            },
                        }
                    },
                    ResponseItem::PatchToolCall { call_id, action } => {
                        let roots = session.sandbox_policy.get_writable_roots_with_cwd(
                            &session.cwd,
                            session.platform,
                            None,
                        );
                        let verdict = assess_patch_safety(
                            &action,
                            session.approval_policy,
                            &roots,
                            &session.cwd,
                            session.platform,
                        );
                        match verdict {
                            SafetyCheck::AutoApprove { .. } => {
                                let ghost pre_block = out@;
                                run_patch_block(
                                    session,
                                    &mut out,
                                    sub_id,
                                    &mut outcomes,
                                    call_id,
                                    &action,
                                    true,
                                );
                                proof {
                                    lemma_delta_counts_extend(pre_block, out@);
                                }
                            },
                            SafetyCheck::AskUser => {
                                let ghost pre_push = out@;
                                push_event(
                                    &mut out,
                                    sub_id,
                                    EventMsg::ApplyPatchApprovalRequest(
                                        crate::protocol::ApplyPatchApprovalRequestEvent {
                                            call_id: call_id.clone(),
                                            changes: crate::codec::patch_changes_for_wire(&action),
                                            reason: None,
                                            grant_root: None,
                                        },
                                    ),
                                );
                                proof {
                                    lemma_counts_after_plain_push(pre_push, out@);
                                    lemma_delta_counts_push(pre_push, out@);
                                }
                                let decision = if decisions.len() > 0 {
                                    decisions.remove(0)
                                } else {
                                    ReviewDecision::Denied
                                };
                                match decision {
                                    ReviewDecision::Approved | ReviewDecision::ApprovedForSession => {
                                        let ghost pre_block = out@;
                                        run_patch_block(
                                            session,
                                            &mut out,
                                            sub_id,
                                            &mut outcomes,
                                            call_id,
                                            &action,
                                            false,
                                        );
                                        proof {
                                            lemma_delta_counts_extend(pre_block, out@);
                                        }
                                    },
                                    _ => {
                                        session.history.push(
                                            ResponseItem::FunctionCallOutput {
                                                call_id,
                                                output: String::from_str(
                                                    "rejected by the user",
                                                ),
                                            },
                                        );
                                    },
                                }
                            },
                            SafetyCheck::Reject { reason } => {
                                let ghost pre_push = out@;
                                push_event(
                                    &mut out,
                                    sub_id,
                                    EventMsg::Error(ErrorEvent { message: reason.clone() }),
                                );
                                session.history.push(
                                    ResponseItem::FunctionCallOutput { call_id, output: reason },
                                );
                                proof {
                                    lemma_counts_after_plain_push(pre_push, out@);
                                    lemma_delta_counts_push(pre_push, out@);
                                }
                            },
                        }
                    },
                    ResponseItem::McpToolCall { call_id, server, tool } => {
                        let ghost pre_block = out@;
                        run_mcp_block(
                            session,
                            &mut out,
                            sub_id,
                            &mut outcomes,
                            call_id,
                            server,
                            tool,
                        );
                        proof {
                            lemma_delta_counts_extend(pre_block, out@);
                        }
                    },
                    ResponseItem::FunctionCallOutput { .. } => {},
                    ResponseItem::GhostSnapshot { .. } => {},
                }
            },
        }
        proof {
            processed = processed + 1;
        }
    }

    proof {
        assert(all.skip(processed).len() == 0);
        assert(processed == all.len());
        assert(all.take(processed) =~= all);
    }
    let ghost pre_push = out@;
    push_event(&mut out, sub_id, EventMsg::TaskComplete(TaskCompleteEvent { last_agent_message }));
    proof {
        lemma_counts_after_plain_push(pre_push, out@);
        lemma_delta_counts_push(pre_push, out@);
        assert forall|i: int|
            0 <= i < out@.len() && spec_is_delta(#[trigger] out@[i].msg) implies 0 < i < out@.len()
            - 1 by {
            if i == 0 {
                assert(out@[0].msg is TaskStarted);
            }
        }
        assert(spec_turn_shape(out@, sub_id@));
    }
    out
}

/// After pushing an event that carries no begin or end marker, the counts
/// stay balanced if they were balanced before the push.
proof fn lemma_counts_after_plain_push(pre: Seq<Event>, s: Seq<Event>)
    requires
        s.len() == pre.len() + 1,
        s =~= pre.push(s.last()),
        spec_begin_id(s.last().msg) is None,
        spec_end_id(s.last().msg) is None,
        forall|k: CallKind, cid: Seq<char>|
            #[trigger] count_begins(pre, k, cid) == count_ends(pre, k, cid),
    ensures
        forall|k: CallKind, cid: Seq<char>|
            #[trigger] count_begins(s, k, cid) == count_ends(s, k, cid),
{
    assert forall|k: CallKind, cid: Seq<char>| #[trigger] count_begins(s, k, cid) == count_ends(
        s,
        k,
        cid,
    ) by {
        lemma_count_push(pre, s.last(), k, cid);
        assert(s == pre.push(s.last()));
    }
}

/// Emits the begin/end pair for an approved command and records the
/// outcome in the transcript. When a sandboxed run fails under the
/// on-failure policy, the user is asked to approve a retry without the
/// sandbox: on approval a second begin/end pair runs the command again and
/// only the second outcome is recorded, on denial the rejection is; a
/// session-wide approval is remembered either way.
#[verifier::loop_isolation(false)]
fn run_command_block(
    session: &mut Session,
    out: &mut Vec<Event>,
    sub_id: &String,
    outcomes: &mut Vec<ExecOutcome>,
    decisions: &mut Vec<ReviewDecision>,
    call_id: String,
    command: Vec<String>,
    remember: bool,
    sandboxed: bool,
)
    requires
        old(out)@.len() >= 1,
        old(out)@[0].msg is TaskStarted,
        forall|i: int| 0 <= i < old(out)@.len() ==> (#[trigger] old(out)@[i].id@) == sub_id@,
        forall|i: int| 0 < i < old(out)@.len() ==> !((#[trigger] old(out)@[i].msg) is TaskStarted),
        forall|i: int| 0 <= i < old(out)@.len() ==> !((#[trigger] old(out)@[i].msg) is TaskComplete),
        forall|k: CallKind, cid: Seq<char>|
            #[trigger] count_begins(old(out)@, k, cid) == count_ends(old(out)@, k, cid),
    ensures
        final(out)@.len() >= old(out)@.len(),
        final(out)@[0].msg is TaskStarted,
        forall|i: int| 0 <= i < final(out)@.len() ==> (#[trigger] final(out)@[i].id@) == sub_id@,
        forall|i: int| 0 < i < final(out)@.len() ==> !((#[trigger] final(out)@[i].msg) is TaskStarted),
        forall|i: int|
            0 <= i < final(out)@.len() ==> !((#[trigger] final(out)@[i].msg) is TaskComplete),
        forall|k: CallKind, cid: Seq<char>|
            #[trigger] count_begins(final(out)@, k, cid) == count_ends(final(out)@, k, cid),
        forall|i: int|
            0 <= i < old(out)@.len() ==> (#[trigger] final(out)@[i]) == old(out)@[i],
        forall|i: int|
            old(out)@.len() <= i < final(out)@.len() ==> !spec_is_stream_echo(
                (#[trigger] final(out)@[i]).msg,
            ),
        final(session).token_usage == old(session).token_usage,
        final(session).previous_response_id == old(session).previous_response_id,
        old(session).history@.is_prefix_of(final(session).history@),
        final(session).history@.len() == old(session).history@.len() + 1,
        final(session).id@ == old(session).id@,
        final(session).model@ == old(session).model@,
        final(out)@[old(out)@.len() as int].msg matches EventMsg::ExecCommandBegin(b)
            && b.call_id@ == call_id@ && b.command.deep_view() == command.deep_view(),
        old(outcomes)@.len() > 0 ==> (final(out)@[old(out)@.len() as int + 1].msg
            matches EventMsg::ExecCommandEnd(e) && e.call_id@ == call_id@ && e.stdout@ == old(
            outcomes,
        )@[0].stdout@ && e.stderr@ == old(outcomes)@[0].stderr@ && e.exit_code == old(
            outcomes,
        )@[0].exit_code),
{
    let ghost o0 = out@;
    push_event(
        out,
        sub_id,
        EventMsg::ExecCommandBegin(
            ExecCommandBeginEvent {
                call_id: call_id.clone(),
                command: clone_strings(&command),
                cwd: session.cwd.clone(),
            },
        ),
    );
    let ghost o1 = out@;
    let outcome = if outcomes.len() > 0 {
        outcomes.remove(0)
    } else {
        missing_outcome()
    };
    let first_output = outcome.stdout.clone();
    let first_exit = outcome.exit_code;
    push_event(
        out,
        sub_id,
        EventMsg::ExecCommandEnd(
            ExecCommandEndEvent {
                call_id: call_id.clone(),
                stdout: outcome.stdout,
                stderr: outcome.stderr,
                exit_code: outcome.exit_code,
            },
        ),
    );
    if remember {
        session.approved.insert(clone_strings(&command));
    }
    proof {
        assert forall|k: CallKind, cid: Seq<char>| #[trigger] count_begins(out@, k, cid)
            == count_ends(out@, k, cid) by {
            lemma_count_push(o0, o1.last(), k, cid);
            lemma_count_push(o1, out@.last(), k, cid);
            assert(o1 =~= o0.push(o1.last()));
            assert(out@ =~= o1.push(out@.last()));
        }
    }
    if sandboxed && first_exit != 0 && matches!(session.approval_policy, AskForApproval::OnFailure)
    {
        let ghost o2 = out@;
        push_event(
            out,
            sub_id,
            EventMsg::ExecApprovalRequest(
                ExecApprovalRequestEvent {
                    call_id: call_id.clone(),
                    command: clone_strings(&command),
                    cwd: session.cwd.clone(),
                    reason: Some(
                        String::from_str(
                            "command failed in the sandbox; approve to retry without it",
                        ),
                    ),
                },
            ),
        );
        proof {
            lemma_counts_after_plain_push(o2, out@);
        }
        let decision = if decisions.len() > 0 {
            decisions.remove(0)
        } else {
            ReviewDecision::Denied
        };
        match decision {
            ReviewDecision::Approved | ReviewDecision::ApprovedForSession => {
                if matches!(decision, ReviewDecision::ApprovedForSession) {
                    session.approved.insert(clone_strings(&command));
                }
                let ghost o3 = out@;
                push_event(
                    out,
                    sub_id,
                    EventMsg::ExecCommandBegin(
                        ExecCommandBeginEvent {
                            call_id: call_id.clone(),
                            command: clone_strings(&command),
                            cwd: session.cwd.clone(),
                        },
                    ),
                );
                let ghost o4 = out@;
                let retry = if outcomes.len() > 0 {
                    outcomes.remove(0)
                } else {
                    missing_outcome()
                };
                let retry_output = retry.stdout.clone();
                push_event(
                    out,
                    sub_id,
                    EventMsg::ExecCommandEnd(
                        ExecCommandEndEvent {
                            call_id: call_id.clone(),
                            stdout: retry.stdout,
                            stderr: retry.stderr,
                            exit_code: retry.exit_code,
                        },
                    ),
                );
                session.history.push(
                    ResponseItem::FunctionCallOutput { call_id, output: retry_output },
                );
                proof {
                    assert forall|k: CallKind, cid: Seq<char>| #[trigger] count_begins(
                        out@,
                        k,
                        cid,
                    ) == count_ends(out@, k, cid) by {
                        lemma_count_push(o3, o4.last(), k, cid);
                        lemma_count_push(o4, out@.last(), k, cid);
                        assert(o4 =~= o3.push(o4.last()));
                        assert(out@ =~= o4.push(out@.last()));
                    }
                }
            },
            _ => {
                session.history.push(
                    ResponseItem::FunctionCallOutput {
                        call_id,
                        output: String::from_str("rejected by the user"),
                    },
                );
            },
        }
    } else {
        session.history.push(
            ResponseItem::FunctionCallOutput { call_id, output: first_output },
        );
    }
}

/// Emits the begin/end pair for an approved patch and records the outcome
/// in the transcript.
#[verifier::loop_isolation(false)]
fn run_patch_block(
    session: &mut Session,
    out: &mut Vec<Event>,
    sub_id: &String,
    outcomes: &mut Vec<ExecOutcome>,
    call_id: String,
    action: &ApplyPatchAction,
    auto_approved: bool,
)
    requires
        old(out)@.len() >= 1,
        old(out)@[0].msg is TaskStarted,
        forall|i: int| 0 <= i < old(out)@.len() ==> (#[trigger] old(out)@[i].id@) == sub_id@,
        forall|i: int| 0 < i < old(out)@.len() ==> !((#[trigger] old(out)@[i].msg) is TaskStarted),
        forall|i: int| 0 <= i < old(out)@.len() ==> !((#[trigger] old(out)@[i].msg) is TaskComplete),
        forall|k: CallKind, cid: Seq<char>|
            #[trigger] count_begins(old(out)@, k, cid) == count_ends(old(out)@, k, cid),
    ensures
        final(out)@.len() >= old(out)@.len(),
        final(out)@[0].msg is TaskStarted,
        forall|i: int| 0 <= i < final(out)@.len() ==> (#[trigger] final(out)@[i].id@) == sub_id@,
        forall|i: int| 0 < i < final(out)@.len() ==> !((#[trigger] final(out)@[i].msg) is TaskStarted),
        forall|i: int|
            0 <= i < final(out)@.len() ==> !((#[trigger] final(out)@[i].msg) is TaskComplete),
        forall|k: CallKind, cid: Seq<char>|
            #[trigger] count_begins(final(out)@, k, cid) == count_ends(final(out)@, k, cid),
        forall|i: int|
            0 <= i < old(out)@.len() ==> (#[trigger] final(out)@[i]) == old(out)@[i],
        forall|i: int|
            old(out)@.len() <= i < final(out)@.len() ==> !spec_is_stream_echo(
                (#[trigger] final(out)@[i]).msg,
            ),
        final(session).token_usage == old(session).token_usage,
        final(session).previous_response_id == old(session).previous_response_id,
        old(session).history@.is_prefix_of(final(session).history@),
        final(session).history@.len() == old(session).history@.len() + 1,
        final(session).id@ == old(session).id@,
        final(session).model@ == old(session).model@,
        final(out)@[old(out)@.len() as int].msg matches EventMsg::PatchApplyBegin(b)
            && b.call_id@ == call_id@ && b.auto_approved == auto_approved
            && b.changes.deep_view() == crate::codec::spec_patch_changes_view(
            action.spec_changes(),
        ),
        old(outcomes)@.len() > 0 ==> (final(out)@[old(out)@.len() as int + 1].msg
            matches EventMsg::PatchApplyEnd(e) && e.call_id@ == call_id@ && e.stdout@ == old(
            outcomes,
        )@[0].stdout@ && e.stderr@ == old(outcomes)@[0].stderr@ && e.success == (old(
            outcomes,
        )@[0].exit_code == 0)),
{
    let ghost o0 = out@;
    push_event(
        out,
        sub_id,
        EventMsg::PatchApplyBegin(
            PatchApplyBeginEvent {
                call_id: call_id.clone(),
                auto_approved,
                changes: crate::codec::patch_changes_for_wire(action),
            },
        ),
    );
    let ghost o1 = out@;
    let outcome = if outcomes.len() > 0 {
        outcomes.remove(0)
    } else {
        missing_outcome()
    };
    let output = outcome.stdout.clone();
    push_event(
        out,
        sub_id,
        EventMsg::PatchApplyEnd(
            PatchApplyEndEvent {
                call_id: call_id.clone(),
                stdout: outcome.stdout,
                stderr: outcome.stderr,
                success: outcome.exit_code == 0,
            },
        ),
    );
    session.history.push(ResponseItem::FunctionCallOutput { call_id, output });
    proof {
        assert forall|k: CallKind, cid: Seq<char>| #[trigger] count_begins(out@, k, cid)
            == count_ends(out@, k, cid) by {
            lemma_count_push(o0, o1.last(), k, cid);
            lemma_count_push(o1, out@.last(), k, cid);
            assert(o1 =~= o0.push(o1.last()));
            assert(out@ =~= o1.push(out@.last()));
        }
    }
}

/// Emits the begin/end pair for a tool-server call and records the outcome
/// in the transcript.
#[verifier::loop_isolation(false)]
fn run_mcp_block(
    session: &mut Session,
    out: &mut Vec<Event>,
    sub_id: &String,
    outcomes: &mut Vec<ExecOutcome>,
    call_id: String,
    server: String,
    tool: String,
)
    requires
        old(out)@.len() >= 1,
        old(out)@[0].msg is TaskStarted,
        forall|i: int| 0 <= i < old(out)@.len() ==> (#[trigger] old(out)@[i].id@) == sub_id@,
        forall|i: int| 0 < i < old(out)@.len() ==> !((#[trigger] old(out)@[i].msg) is TaskStarted),
        forall|i: int| 0 <= i < old(out)@.len() ==> !((#[trigger] old(out)@[i].msg) is TaskComplete),
        forall|k: CallKind, cid: Seq<char>|
            #[trigger] count_begins(old(out)@, k, cid) == count_ends(old(out)@, k, cid),
    ensures
        final(out)@.len() >= old(out)@.len(),
        final(out)@[0].msg is TaskStarted,
        forall|i: int| 0 <= i < final(out)@.len() ==> (#[trigger] final(out)@[i].id@) == sub_id@,
        forall|i: int| 0 < i < final(out)@.len() ==> !((#[trigger] final(out)@[i].msg) is TaskStarted),
        forall|i: int|
            0 <= i < final(out)@.len() ==> !((#[trigger] final(out)@[i].msg) is TaskComplete),
        forall|k: CallKind, cid: Seq<char>|
            #[trigger] count_begins(final(out)@, k, cid) == count_ends(final(out)@, k, cid),
        forall|i: int|
            0 <= i < old(out)@.len() ==> (#[trigger] final(out)@[i]) == old(out)@[i],
        forall|i: int|
            old(out)@.len() <= i < final(out)@.len() ==> !spec_is_stream_echo(
                (#[trigger] final(out)@[i]).msg,
            ),
        final(session).token_usage == old(session).token_usage,
        final(session).previous_response_id == old(session).previous_response_id,
        old(session).history@.is_prefix_of(final(session).history@),
        final(session).history@.len() == old(session).history@.len() + 1,
        final(session).id@ == old(session).id@,
        final(session).model@ == old(session).model@,
        final(out)@[old(out)@.len() as int].msg matches EventMsg::McpToolCallBegin(b)
            && b.call_id@ == call_id@ && b.server@ == server@ && b.tool@ == tool@,
        old(outcomes)@.len() > 0 ==> (final(out)@[old(out)@.len() as int + 1].msg
            matches EventMsg::McpToolCallEnd(e) && e.call_id@ == call_id@ && (e.result is Ok
            <==> old(outcomes)@[0].exit_code == 0)),
{
    let ghost o0 = out@;
    push_event(
        out,
        sub_id,
        EventMsg::McpToolCallBegin(
            McpToolCallBeginEvent { call_id: call_id.clone(), server, tool, arguments: None },
        ),
    );
    let ghost o1 = out@;
    let outcome = if outcomes.len() > 0 {
        outcomes.remove(0)
    } else {
        missing_outcome()
    };
    let result: Result<CallToolResult, String> = if outcome.exit_code == 0 {
        let mut content: Vec<String> = Vec::new();
        content.push(outcome.stdout);
        Ok(CallToolResult { content, is_error: Some(false) })
    } else {
        Err(outcome.stderr)
    };
    push_event(
        out,
        sub_id,
        EventMsg::McpToolCallEnd(McpToolCallEndEvent { call_id: call_id.clone(), result }),
    );
    session.history.push(ResponseItem::FunctionCallOutput { call_id, output: String::new() });
    proof {
        assert forall|k: CallKind, cid: Seq<char>| #[trigger] count_begins(out@, k, cid)
            == count_ends(out@, k, cid) by {
            lemma_count_push(o0, o1.last(), k, cid);
            lemma_count_push(o1, out@.last(), k, cid);
            assert(o1 =~= o0.push(o1.last()));
            assert(out@ =~= o1.push(out@.last()));
        }
    }
}

/// Whether a stream item asks for tool work.
pub open spec fn spec_is_tool_call(ev: ResponseEvent) -> bool {
    match ev {
        ResponseEvent::OutputItemDone(item) => match item {
            ResponseItem::ShellToolCall { .. } => true,
            ResponseItem::PatchToolCall { .. } => true,
            ResponseItem::McpToolCall { .. } => true,
            _ => false,
        },
        _ => false,
    }
}

/// Whether the turn must run another model round: a round that carried
/// tool calls appended their outputs to the transcript, and those must be
/// fed back until a round completes without tool calls.
pub fn turn_needs_another_round(stream: &Vec<ResponseEvent>) -> (r: bool)
    ensures
        r == exists|i: int| 0 <= i < stream@.len() && spec_is_tool_call(#[trigger] stream@[i]),
{
    let mut i: usize = 0;
    while i < stream.len()
        invariant
            i <= stream@.len(),
            forall|j: int| 0 <= j < i ==> !spec_is_tool_call(#[trigger] stream@[j]),
        decreases stream@.len() - i,
    {
        let is_call = match &stream[i] {
            ResponseEvent::OutputItemDone(item) => match item {
                ResponseItem::ShellToolCall { .. } => true,
                ResponseItem::PatchToolCall { .. } => true,
                ResponseItem::McpToolCall { .. } => true,
                _ => false,
            },
            _ => false,
        };
        if is_call {
            proof {
                assert(spec_is_tool_call(stream@[i as int]));
            }
            return true;
        }
        i = i + 1;
    }
    false
}

/// A turn the driver must start: the submission id and the user's items.
pub struct TurnRequest {
    pub sub_id: String,
    pub items: Vec<crate::protocol::InputItem>,
}

/// Dispatches one submission. Turn-starting input is handed back for the
/// driver to run with the model stream; everything else is answered
/// directly. An approval for a target this model does not hold pending is
/// forgiven without an event, and `Interrupt` answers with no event.
pub fn handle_submission(
    session: &mut Session,
    history: &mut crate::history::HistoryStore,
    sub: crate::protocol::Submission,
) -> (r: (Vec<Event>, Option<TurnRequest>))
    ensures
        final(session).token_usage == old(session).token_usage,
        final(session).history@ == old(session).history@,
        match sub.op {
            crate::protocol::Op::ConfigureSession { model, cwd, approval_policy, .. } => {
                &&& r.1 is None
                &&& r.0@.len() == 1
                &&& r.0@[0].id@ == sub.id@
                &&& (cwd@.absolute ==> {
                    &&& (r.0@[0].msg matches EventMsg::SessionConfigured(e) && e.session_id@
                        == old(session).id@ && e.model@ == model@)
                    &&& final(session).model@ == model@
                    &&& final(session).cwd@ == cwd@
                    &&& final(session).approval_policy == approval_policy
                })
                &&& (!cwd@.absolute ==> {
                    &&& (r.0@[0].msg matches EventMsg::Error(e) && e.message@
                        == "cwd is not absolute"@)
                    &&& final(session).model@ == old(session).model@
                    &&& final(session).cwd@ == old(session).cwd@
                    &&& final(session).approval_policy == old(session).approval_policy
                })
            },
            crate::protocol::Op::Interrupt => r.0@.len() == 0 && r.1 is None,
            crate::protocol::Op::UserInput { items } => {
                &&& r.0@.len() == 0
                &&& (r.1 matches Some(t) && t.sub_id@ == sub.id@ && t.items@ == items@)
            },
            crate::protocol::Op::ExecApproval { .. } => r.0@.len() == 0 && r.1 is None,
            crate::protocol::Op::PatchApproval { .. } => r.0@.len() == 0 && r.1 is None,
            crate::protocol::Op::AddToHistory { text } => {
                &&& r.0@.len() == 0 && r.1 is None
                &&& final(history).spec_log_id() == old(history).spec_log_id()
                &&& (crate::history::spec_is_sensitive(text@) ==> final(history).spec_entries()
                    == old(history).spec_entries())
                &&& (!crate::history::spec_is_sensitive(text@) ==> final(history).spec_entries()
                    == old(history).spec_entries().push(text))
            },
            crate::protocol::Op::GetHistoryEntryRequest { offset, log_id } => {
                &&& r.1 is None
                &&& r.0@.len() == 1
                &&& r.0@[0].id@ == sub.id@
                &&& (r.0@[0].msg matches EventMsg::GetHistoryEntryResponse(e) && e.offset == offset
                    && e.log_id == log_id && (log_id == old(history).spec_log_id() && offset < old(
                    history,
                ).spec_entries().len() ==> e.entry is Some) && (log_id != old(
                    history,
                ).spec_log_id() ==> e.entry is None))
            },
            crate::protocol::Op::Shutdown => {
                &&& r.1 is None
                &&& r.0@.len() == 1
                &&& r.0@[0].id@ == sub.id@
                &&& r.0@[0].msg is ShutdownComplete
            },
        },
{
    let crate::protocol::Submission { id, op } = sub;
    match op {
        crate::protocol::Op::ConfigureSession {
            model,
            cwd,
            approval_policy,
            sandbox_policy,
            ..
        } => {
            if !cwd.is_absolute() {
                let mut events: Vec<Event> = Vec::new();
                events.push(
                    Event {
                        id,
                        msg: EventMsg::Error(
                            crate::protocol::ErrorEvent {
                                message: String::from_str("cwd is not absolute"),
                            },
                        ),
                    },
                );
                return (events, None);
            }
            session.model = model;
            session.cwd = cwd;
            session.approval_policy = approval_policy;
            session.sandbox_policy = sandbox_policy;
            let msg = session.session_configured_event(history.log_id(), history.entry_count());
            let mut events: Vec<Event> = Vec::new();
            events.push(Event { id, msg });
            (events, None)
        },
        crate::protocol::Op::Interrupt => (Vec::new(), None),
        crate::protocol::Op::UserInput { items } => {
            (Vec::new(), Some(TurnRequest { sub_id: id, items }))
        },
        crate::protocol::Op::ExecApproval { .. } => (Vec::new(), None),
        crate::protocol::Op::PatchApproval { .. } => (Vec::new(), None),
        crate::protocol::Op::AddToHistory { text } => {
            history.append(text);
            (Vec::new(), None)
        },
        crate::protocol::Op::GetHistoryEntryRequest { offset, log_id } => {
            let entry = history.lookup(log_id, offset);
            let mut events: Vec<Event> = Vec::new();
            events.push(
                Event {
                    id,
                    msg: EventMsg::GetHistoryEntryResponse(
                        crate::protocol::GetHistoryEntryResponseEvent { offset, log_id, entry },
                    ),
                },
            );
            (events, None)
        },
        crate::protocol::Op::Shutdown => {
            let mut events: Vec<Event> = Vec::new();
            events.push(Event { id, msg: EventMsg::ShutdownComplete });
            (events, None)
        },
    }
}

} // verus!
