//! The streaming-client state machine. The edge performs the HTTP request
//! and splits the response into server-sent events, already parsed into
//! plain frames; the logic here turns the frame stream into the normalized
//! response events, decides retries, and computes backoff.

use crate::error::CodexErr;
use crate::models::ResponseItem;
use crate::protocol::TokenUsage;
use vstd::prelude::*;

verus! {

broadcast use {vstd::std_specs::vec::group_vec_axioms, vstd::seq::group_seq_axioms};

/// A normalized event of one model response stream.
#[derive(Debug)]
pub enum ResponseEvent {
    Created,
    OutputItemDone(ResponseItem),
    Completed { response_id: String, token_usage: Option<TokenUsage> },
    OutputTextDelta(String),
    ReasoningSummaryDelta(String),
}

/// The envelope of a `response.completed` frame.
#[derive(Debug)]
pub struct ResponseCompleted {
    pub id: String,
    pub usage: Option<TokenUsage>,
}

/// One server-sent event, parsed by the edge into the values the state
/// machine reads. A `None` payload stands for a frame whose payload was
/// absent or did not parse; such frames are skipped, as the wire allows.
#[derive(Debug)]
pub enum SseFrame {
    /// `response.output_item.done`.
    OutputItemDone { item: Option<ResponseItem> },
    /// `response.output_text.delta`.
    OutputTextDelta { delta: Option<String> },
    /// `response.reasoning_summary_text.delta`.
    ReasoningSummaryDelta { delta: Option<String> },
    /// `response.created`; whether a response payload was present.
    Created { has_response: bool },
    /// `response.failed`. The outer option is the response payload; the
    /// inner is the extracted `error.message`.
    Failed { response_error: Option<Option<String>> },
    /// `response.completed`, with its parsed envelope if it parsed.
    Completed { response: Option<ResponseCompleted> },
    /// A known kind that is deliberately not surfaced.
    Ignored,
    /// An unknown kind; logged by the edge, never surfaced.
    Unknown,
    /// The transport failed mid-stream; the edge reports it here and the
    /// stream ends with this error.
    TransportError { message: String },
}

/// What the fold appends for one frame or at the end of the stream.
pub enum SseEmission {
    /// A normalized event.
    Ev(ResponseEvent),
    /// A terminal error with the message the server gave.
    FailMsg(String),
    /// A terminal error for a `response.failed` frame without a message.
    FailDefault,
    /// A terminal error for a stream that closed before `response.completed`.
    FailClosed,
}

/// Whether a frame ends the stream with an error.
pub open spec fn spec_frame_fatal(f: SseFrame) -> bool {
    ||| f matches SseFrame::Failed { response_error: Some(_) }
    ||| f is TransportError
}

/// Whether a frame captures the completion envelope.
pub open spec fn spec_frame_captures(f: SseFrame) -> bool {
    f matches SseFrame::Completed { response: Some(_) }
}

/// The event a non-terminal frame emits, if any.
pub open spec fn spec_frame_event(f: SseFrame) -> Option<ResponseEvent> {
    match f {
        SseFrame::OutputItemDone { item: Some(item) } => Some(
            ResponseEvent::OutputItemDone(item),
        ),
        SseFrame::OutputTextDelta { delta: Some(delta) } => Some(
            ResponseEvent::OutputTextDelta(delta),
        ),
        SseFrame::ReasoningSummaryDelta { delta: Some(delta) } => Some(
            ResponseEvent::ReasoningSummaryDelta(delta),
        ),
        SseFrame::Created { has_response: true } => Some(ResponseEvent::Created),
        _ => None,
    }
}

/// The whole stream folded: events in source order; the first fatal frame
/// ends the stream; at the end of input the captured completion envelope
/// (the last one wins) becomes the final `Completed` event, and a stream
/// that closes without one ends in an error.
pub open spec fn spec_sse_fold(frames: Seq<SseFrame>, captured: Option<ResponseCompleted>) -> Seq<
    SseEmission,
>
    decreases frames.len(),
{
    if frames.len() == 0 {
        match captured {
            Some(rc) => seq![
                SseEmission::Ev(
                    ResponseEvent::Completed { response_id: rc.id, token_usage: rc.usage },
                ),
            ],
            None => seq![SseEmission::FailClosed],
        }
    } else {
        let f = frames[0];
        match f {
            SseFrame::Failed { response_error: Some(om) } => match om {
                Some(m) => seq![SseEmission::FailMsg(m)],
                None => seq![SseEmission::FailDefault],
            },
            SseFrame::TransportError { message } => seq![SseEmission::FailMsg(message)],
            SseFrame::Completed { response: Some(rc) } => spec_sse_fold(
                frames.drop_first(),
                Some(rc),
            ),
            _ => match spec_frame_event(f) {
                Some(ev) => seq![SseEmission::Ev(ev)] + spec_sse_fold(
                    frames.drop_first(),
                    captured,
                ),
                None => spec_sse_fold(frames.drop_first(), captured),
            },
        }
    }
}

/// Whether an output entry realizes an emission: events and carried
/// messages are kept, and the synthesized errors carry their fixed texts.
pub open spec fn spec_emission_matches(o: Result<ResponseEvent, CodexErr>, e: SseEmission) -> bool {
    match e {
        SseEmission::Ev(ev) => o == Ok::<ResponseEvent, CodexErr>(ev),
        SseEmission::FailMsg(m) => o matches Err(CodexErr::Stream { message }) && message@ == m@,
        SseEmission::FailDefault => o matches Err(CodexErr::Stream { message }) && message@
            == "response.failed event received"@,
        SseEmission::FailClosed => o matches Err(CodexErr::Stream { message }) && message@
            == "stream closed before response.completed"@,
    }
}

/// Consumes a parsed SSE stream and produces the normalized response
/// events: exactly the fold of the frames, element for element.
#[verifier::loop_isolation(false)]
pub fn process_sse(frames: Vec<SseFrame>) -> (r: Vec<Result<ResponseEvent, CodexErr>>)
    ensures
        r@.len() == spec_sse_fold(frames@, None).len(),
        forall|i: int|
            0 <= i < r@.len() ==> spec_emission_matches(
                r@[i],
                #[trigger] spec_sse_fold(frames@, None)[i],
            ),
{
    let ghost all = frames@;
    let mut input = frames;
    let mut out: Vec<Result<ResponseEvent, CodexErr>> = Vec::new();
    let ghost mut done: Seq<SseEmission> = Seq::empty();
    let mut captured: Option<ResponseCompleted> = None;
    let mut i: usize = 0;
    let n = input.len();
    proof {
        assert(all.skip(0) =~= all);
    }
    while i < n
        invariant
            n == all.len(),
            i <= n,
            input@ =~= all.skip(i as int),
            out@.len() == done.len(),
            forall|k: int| 0 <= k < done.len() ==> spec_emission_matches(out@[k], #[trigger] done[k]),
            spec_sse_fold(all, None) =~= done + spec_sse_fold(all.skip(i as int), captured),
        decreases n - i,
    {
        proof {
            assert(all.skip(i as int)[0] == all[i as int]);
            assert(all.skip(i as int).drop_first() =~= all.skip(i + 1 as int));
        }
        let frame = input.remove(0);
        proof {
            assert(frame == all[i as int]);
        }
        match frame {
            SseFrame::Failed { response_error: Some(om) } => {
                match om {
                    Some(m) => {
                        let ghost em = SseEmission::FailMsg(m);
                        out.push(Err(CodexErr::Stream { message: m }));
                        proof {
                            done = done.push(em);
                            assert(spec_sse_fold(all.skip(i as int), captured) =~= seq![em]);
                            assert(spec_sse_fold(all, None) =~= done);
                        }
                        return out;
                    },
                    None => {
                        let ghost em = SseEmission::FailDefault;
                        out.push(
                            Err(
                                CodexErr::Stream {
                                    message: String::from_str("response.failed event received"),
                                },
                            ),
                        );
                        proof {
                            done = done.push(em);
                            assert(spec_sse_fold(all.skip(i as int), captured) =~= seq![em]);
                            assert(spec_sse_fold(all, None) =~= done);
                        }
                        return out;
                    },
                }
            },
            SseFrame::TransportError { message } => {
                let ghost em = SseEmission::FailMsg(message);
                out.push(Err(CodexErr::Stream { message }));
                proof {
                    done = done.push(em);
                    assert(spec_sse_fold(all.skip(i as int), captured) =~= seq![em]);
                    assert(spec_sse_fold(all, None) =~= done);
                }
                return out;
            },
            SseFrame::Completed { response } => {
                match response {
                    Some(rc) => {
                        captured = Some(rc);
                    },
                    None => {},
                }
            },
            SseFrame::OutputItemDone { item } => {
                match item {
                    Some(it) => {
                        let ghost em = SseEmission::Ev(ResponseEvent::OutputItemDone(it));
                        out.push(Ok(ResponseEvent::OutputItemDone(it)));
                        proof {
                            done = done.push(em);
                        }
                    },
                    None => {},
                }
            },
            SseFrame::OutputTextDelta { delta } => {
                match delta {
                    Some(d) => {
                        let ghost em = SseEmission::Ev(ResponseEvent::OutputTextDelta(d));
                        out.push(Ok(ResponseEvent::OutputTextDelta(d)));
                        proof {
                            done = done.push(em);
                        }
                    },
                    None => {},
                }
            },
            SseFrame::ReasoningSummaryDelta { delta } => {
                match delta {
                    Some(d) => {
                        let ghost em = SseEmission::Ev(ResponseEvent::ReasoningSummaryDelta(d));
                        out.push(Ok(ResponseEvent::ReasoningSummaryDelta(d)));
                        proof {
                            done = done.push(em);
                        }
                    },
                    None => {},
                }
            },
            SseFrame::Created { has_response } => {
                if has_response {
                    let ghost em = SseEmission::Ev(ResponseEvent::Created);
                    out.push(Ok(ResponseEvent::Created));
                    proof {
                        done = done.push(em);
                    }
                }
            },
            SseFrame::Failed { response_error: None } => {},
            SseFrame::Ignored => {},
            SseFrame::Unknown => {},
        }
        i = i + 1;
    }
    proof {
        assert(all.skip(n as int) =~= Seq::<SseFrame>::empty());
    }
    match captured {
        Some(rc) => {
            let ghost em = SseEmission::Ev(
                ResponseEvent::Completed { response_id: rc.id, token_usage: rc.usage },
            );
            out.push(Ok(ResponseEvent::Completed { response_id: rc.id, token_usage: rc.usage }));
            proof {
                done = done.push(em);
                assert(spec_sse_fold(all, None) =~= done);
            }
        },
        None => {
            let ghost em = SseEmission::FailClosed;
            out.push(
                Err(
                    CodexErr::Stream {
                        message: String::from_str("stream closed before response.completed"),
                    },
                ),
            );
            proof {
                done = done.push(em);
                assert(spec_sse_fold(all, None) =~= done);
            }
        },
    }
    out
}

/// The SSE fold always ends in exactly one terminal element: everything
/// before the last element is an ordinary event and never a `Completed`;
/// the last element is an error or the single `Completed`. A stream without
/// a fatal frame and without a completion envelope ends in the
/// stream-closed error; one without a fatal frame but with a completion
/// envelope ends in the `Completed` event.
pub proof fn lemma_sse_fold_terminal(frames: Seq<SseFrame>, captured: Option<ResponseCompleted>)
    ensures
        spec_sse_fold(frames, captured).len() >= 1,
        forall|i: int|
            0 <= i < spec_sse_fold(frames, captured).len() - 1 ==> ((#[trigger] spec_sse_fold(
                frames,
                captured,
            )[i]) matches SseEmission::Ev(ev) && !(ev is Completed)),
        spec_sse_fold(frames, captured).last() matches SseEmission::Ev(ev) ==> ev is Completed,
        (forall|i: int| 0 <= i < frames.len() ==> !spec_frame_fatal(#[trigger] frames[i])) && (
        forall|i: int| 0 <= i < frames.len() ==> !spec_frame_captures(#[trigger] frames[i]))
            && captured is None ==> spec_sse_fold(frames, captured).last()
            == SseEmission::FailClosed,
        (forall|i: int| 0 <= i < frames.len() ==> !spec_frame_fatal(#[trigger] frames[i])) && ((
        exists|i: int| 0 <= i < frames.len() && spec_frame_captures(#[trigger] frames[i]))
            || captured is Some) ==> (spec_sse_fold(frames, captured).last() matches SseEmission::Ev(
            ev,
        ) && ev is Completed),
    decreases frames.len(),
{
    let fold = spec_sse_fold(frames, captured);
    if frames.len() == 0 {
    } else {
        let f = frames[0];
        match f {
            SseFrame::Failed { response_error: Some(om) } => {},
            SseFrame::TransportError { message } => {},
            SseFrame::Completed { response: Some(rc) } => {
                lemma_sse_fold_terminal(frames.drop_first(), Some(rc));
                assert(spec_frame_captures(frames[0]));
                assert forall|i: int| 0 <= i < frames.drop_first().len() implies frames.drop_first()[i]
                    == frames[i + 1] by {}
            },
            _ => {
                lemma_sse_fold_terminal(frames.drop_first(), captured);
                assert forall|i: int| 0 <= i < frames.drop_first().len() implies frames.drop_first()[i]
                    == frames[i + 1] by {}
                if exists|w: int| 0 <= w < frames.len() && spec_frame_captures(#[trigger] frames[w]) {
                    let w = choose|w: int|
                        0 <= w < frames.len() && spec_frame_captures(#[trigger] frames[w]);
                    assert(!spec_frame_captures(frames[0]));
                    assert(frames.drop_first()[w - 1] == frames[w]);
                    assert(exists|j: int|
                        0 <= j < frames.drop_first().len() && spec_frame_captures(
                            #[trigger] frames.drop_first()[j],
                        ));
                }
                match spec_frame_event(f) {
                    Some(ev) => {
                        let rest = spec_sse_fold(frames.drop_first(), captured);
                        assert(fold == seq![SseEmission::Ev(ev)] + rest);
                        assert(fold.last() == rest.last());
                        assert(!(ev is Completed));
                        assert forall|i: int| 0 <= i < fold.len() - 1 implies (#[trigger] fold[i])
                            matches SseEmission::Ev(ev2) && !(ev2 is Completed) by {
                            if i > 0 {
                                assert(fold[i] == rest[i - 1]);
                            }
                        }
                    },
                    None => {},
                }
            },
        }
    }
}

/// What the retry loop does after a failed request attempt.
#[derive(Debug, PartialEq, Eq, Structural)]
pub enum RetryDecision {
    /// Sleep this many milliseconds, then retry.
    RetryAfter { delay_ms: u64 },
    /// The status is not retryable; fail with `UnexpectedStatus`.
    FailUnexpectedStatus,
    /// The retry budget is spent; fail with `RetryLimit`.
    FailRetryLimit,
}

/// Exponential backoff: 200 milliseconds doubled per attempt, capped at 32
/// seconds.
pub open spec fn spec_backoff_ms(attempt: u64) -> u64 {
    if attempt <= 1 {
        200
    } else if attempt == 2 {
        400
    } else if attempt == 3 {
        800
    } else if attempt == 4 {
        1600
    } else if attempt == 5 {
        3200
    } else if attempt == 6 {
        6400
    } else if attempt == 7 {
        12800
    } else if attempt == 8 {
        25600
    } else {
        32000
    }
}

/// The backoff delay before the given attempt is retried.
pub fn backoff_ms(attempt: u64) -> (r: u64)
    ensures
        r == spec_backoff_ms(attempt),
{
    if attempt <= 1 {
        200
    } else if attempt == 2 {
        400
    } else if attempt == 3 {
        800
    } else if attempt == 4 {
        1600
    } else if attempt == 5 {
        3200
    } else if attempt == 6 {
        6400
    } else if attempt == 7 {
        12800
    } else if attempt == 8 {
        25600
    } else {
        32000
    }
}

/// Whether a failed HTTP status may be retried: 429 and the server errors.
pub open spec fn spec_retryable_status(status: u16) -> bool {
    status == 429 || (500 <= status && status < 600)
}

/// The retry rule after a response with a failed HTTP status, in attempt
/// order (the first attempt is 1): a status that is neither 429 nor a
/// server error fails at once; past the retry budget the retry limit is
/// reported; otherwise the wait honours the server's `Retry-After` seconds
/// when given and falls back to exponential backoff.
pub open spec fn spec_retry_decision(
    attempt: u64,
    max_retries: u64,
    status: u16,
    retry_after_secs: Option<u64>,
) -> RetryDecision {
    if !spec_retryable_status(status) {
        RetryDecision::FailUnexpectedStatus
    } else if attempt > max_retries {
        RetryDecision::FailRetryLimit
    } else {
        match retry_after_secs {
            Some(s) => RetryDecision::RetryAfter {
                delay_ms: if s > u64::MAX / 1000 {
                    u64::MAX
                } else {
                    (s * 1000) as u64
                },
            },
            None => RetryDecision::RetryAfter { delay_ms: spec_backoff_ms(attempt) },
        }
    }
}

/// Decides what the retry loop does after attempt number `attempt` ended
/// in the given failed HTTP status.
pub fn next_retry_decision(
    attempt: u64,
    max_retries: u64,
    status: u16,
    retry_after_secs: Option<u64>,
) -> (r: RetryDecision)
    ensures
        r == spec_retry_decision(attempt, max_retries, status, retry_after_secs),
{
    let retryable = status == 429 || (500 <= status && status < 600);
    if !retryable {
        RetryDecision::FailUnexpectedStatus
    } else if attempt > max_retries {
        RetryDecision::FailRetryLimit
    } else {
        match retry_after_secs {
            Some(s) => {
                let delay_ms = if s > u64::MAX / 1000 {
                    u64::MAX
                } else {
                    s * 1000
                };
                RetryDecision::RetryAfter { delay_ms }
            },
            None => RetryDecision::RetryAfter { delay_ms: backoff_ms(attempt) },
        }
    }
}

/// The retry rule after a transport error: retry with backoff while the
/// budget lasts, else give up.
pub fn next_transport_retry_decision(attempt: u64, max_retries: u64) -> (r: Option<u64>)
    ensures
        attempt > max_retries ==> r is None,
        attempt <= max_retries ==> r == Some(spec_backoff_ms(attempt)),
{
    if attempt > max_retries {
        None
    } else {
        Some(backoff_ms(attempt))
    }
}

/// One chunk of a chat-completions stream, parsed by the edge: the content
/// fragment of the first choice, or the terminating chunk with the
/// completion id.
#[derive(Debug)]
pub enum ChatFrame {
    /// A fragment of the assistant message; `None` when the chunk carried
    /// no content.
    ContentDelta { delta: Option<String> },
    /// The terminating chunk, with the completion id if the wire gave one.
    Done { id: Option<String> },
    /// Any other chunk kind; skipped.
    Ignored,
}

/// The aggregation of a chat stream started with `acc` already collected:
/// the full assistant text and the completion id at the first terminating
/// chunk, or nothing when the stream ends without one.
pub open spec fn spec_chat_agg(frames: Seq<ChatFrame>, acc: Seq<char>) -> Option<
    (Seq<char>, Option<String>),
>
    decreases frames.len(),
{
    if frames.len() == 0 {
        None
    } else {
        match frames[0] {
            ChatFrame::ContentDelta { delta: Some(d) } => spec_chat_agg(
                frames.drop_first(),
                acc + d@,
            ),
            ChatFrame::Done { id } => Some((acc, id)),
            _ => spec_chat_agg(frames.drop_first(), acc),
        }
    }
}

/// Adapts a chat-completions stream to the normalized response events:
/// only the final aggregated assistant message is surfaced, followed by
/// the `Completed` event; a stream that ends without its terminating chunk
/// ends in the stream-closed error, like the streaming protocol.
#[verifier::loop_isolation(false)]
pub fn aggregate_chat(frames: Vec<ChatFrame>) -> (r: Vec<Result<ResponseEvent, CodexErr>>)
    ensures
        match spec_chat_agg(frames@, Seq::empty()) {
            Some((text, id)) => {
                &&& r@.len() == 2
                &&& (r@[0] matches Ok(ev) && (ev matches ResponseEvent::OutputItemDone(item) && (
                item matches ResponseItem::Message { id: mid, role, content } && mid is None
                    && role@ == "assistant"@ && content@.len() == 1 && (content@[0]
                    matches crate::models::ContentItem::OutputText { text: t } && t@ == text))))
                &&& (r@[1] matches Ok(ev) && (ev matches ResponseEvent::Completed {
                    response_id,
                    token_usage,
                } && token_usage is None && response_id@ == (match id {
                    Some(s) => s@,
                    None => Seq::<char>::empty(),
                })))
            },
            None => r@.len() == 1 && (r@[0] matches Err(CodexErr::Stream { message }) && message@
                == "stream closed before response.completed"@),
        },
{
    let ghost all = frames@;
    let mut input = frames;
    let mut acc = String::new();
    let mut i: usize = 0;
    let n = input.len();
    proof {
        assert(all.skip(0) =~= all);
    }
    while i < n
        invariant
            n == all.len(),
            i <= n,
            input@ =~= all.skip(i as int),
            spec_chat_agg(all, Seq::empty()) == spec_chat_agg(all.skip(i as int), acc@),
        decreases n - i,
    {
        proof {
            assert(all.skip(i as int)[0] == all[i as int]);
            assert(all.skip(i as int).drop_first() =~= all.skip(i + 1 as int));
        }
        let frame = input.remove(0);
        match frame {
            ChatFrame::ContentDelta { delta } => {
                match delta {
                    Some(d) => {
                        acc.append(d.as_str());
                    },
                    None => {},
                }
            },
            ChatFrame::Done { id } => {
                let response_id = match id {
                    Some(s) => s,
                    None => String::new(),
                };
                let mut content: Vec<crate::models::ContentItem> = Vec::new();
                content.push(crate::models::ContentItem::OutputText { text: acc });
                let mut out: Vec<Result<ResponseEvent, CodexErr>> = Vec::new();
                out.push(
                    Ok(
                        ResponseEvent::OutputItemDone(
                            ResponseItem::Message {
                                id: None,
                                role: String::from_str("assistant"),
                                content,
                            },
                        ),
                    ),
                );
                out.push(
                    Ok(ResponseEvent::Completed { response_id, token_usage: None }),
                );
                return out;
            },
            ChatFrame::Ignored => {},
        }
        i = i + 1;
    }
    proof {
        assert(all.skip(n as int) =~= Seq::<ChatFrame>::empty());
    }
    let mut out: Vec<Result<ResponseEvent, CodexErr>> = Vec::new();
    out.push(
        Err(
            CodexErr::Stream {
                message: String::from_str("stream closed before response.completed"),
            },
        ),
    );
    out
}

} // verus!
