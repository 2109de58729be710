//! Items of the conversation transcript: what the user and the model said,
//! and the tool work the model asked for, already decoded by the wire layer
//! into plain values.

use crate::apply_patch::ApplyPatchAction;
use vstd::prelude::*;

verus! {

/// One piece of a message's content.
#[derive(Debug)]
pub enum ContentItem {
    InputText { text: String },
    OutputText { text: String },
}

/// A single element of the conversation transcript.
#[derive(Debug)]
pub enum ResponseItem {
    /// A user, developer or assistant message.
    Message { id: Option<String>, role: String, content: Vec<ContentItem> },
    /// A reasoning summary the model emitted.
    Reasoning { summary_text: String },
    /// The model asks to run a shell command.
    ShellToolCall { call_id: String, command: Vec<String> },
    /// The model asks to apply a file patch.
    PatchToolCall { call_id: String, action: ApplyPatchAction },
    /// The model asks to invoke an external tool server.
    McpToolCall { call_id: String, server: String, tool: String },
    /// The recorded result of a tool call, fed back to the model.
    FunctionCallOutput { call_id: String, output: String },
    /// A snapshot marker that an undo can restore.
    GhostSnapshot { ghost_commit: String },
}

/// A persisted past user message, addressed by log file and offset.
#[derive(Debug)]
pub struct HistoryEntry {
    pub text: String,
    pub log_id: u64,
    pub offset: usize,
}

impl Clone for HistoryEntry {
    fn clone(&self) -> (r: Self)
        ensures
            r.text@ == self.text@,
            r.log_id == self.log_id,
            r.offset == self.offset,
    {
        HistoryEntry { text: self.text.clone(), log_id: self.log_id, offset: self.offset }
    }
}

/// The last snapshot marker in a transcript, searched from the end: its
/// index and commit, if any.
pub open spec fn spec_last_ghost_snapshot(items: Seq<ResponseItem>) -> Option<(int, Seq<char>)>
    decreases items.len(),
{
    if items.len() == 0 {
        None
    } else {
        match items.last() {
            ResponseItem::GhostSnapshot { ghost_commit } => Some(
                ((items.len() - 1) as int, ghost_commit@),
            ),
            _ => spec_last_ghost_snapshot(items.drop_last()),
        }
    }
}

/// Finds the most recent snapshot marker in the transcript: the item index
/// and the commit it names.
pub fn find_last_ghost_snapshot(items: &Vec<ResponseItem>) -> (r: Option<(usize, String)>)
    ensures
        match r {
            Some((i, commit)) => spec_last_ghost_snapshot(items@) == Some((i as int, commit@)),
            None => spec_last_ghost_snapshot(items@) is None,
        },
{
    let mut i: usize = items.len();
    proof {
        assert(items@.take(items@.len() as int) =~= items@);
    }
    while i > 0
        invariant
            i <= items@.len(),
            spec_last_ghost_snapshot(items@) == spec_last_ghost_snapshot(items@.take(i as int)),
        decreases i,
    {
        i = i - 1;
        let ghost pre = items@.take(i + 1 as int);
        proof {
            assert(pre.last() == items@[i as int]);
            assert(pre.drop_last() =~= items@.take(i as int));
        }
        if let ResponseItem::GhostSnapshot { ghost_commit } = &items[i] {
            return Some((i, ghost_commit.clone()));
        }
    }
    proof {
        assert(items@.take(0) =~= Seq::<ResponseItem>::empty());
    }
    None
}

} // verus!
