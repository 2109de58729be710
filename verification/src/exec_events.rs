//! The flat conversation-event shape a headless front end prints: one
//! item per unit of work, with started/updated/completed markers.

use vstd::prelude::*;

verus! {

/// Top-level events of the headless conversation stream.
#[derive(Debug)]
pub enum ConversationEvent {
    SessionCreated(SessionCreatedEvent),
    TurnStarted(TurnStartedEvent),
    TurnCompleted(TurnCompletedEvent),
    ItemStarted(ItemStartedEvent),
    ItemUpdated(ItemUpdatedEvent),
    ItemCompleted(ItemCompletedEvent),
    Error(ConversationErrorEvent),
}

#[derive(Debug)]
pub struct SessionCreatedEvent {
    pub session_id: String,
}

#[derive(Debug)]
pub struct TurnStartedEvent {
}

#[derive(Debug)]
pub struct TurnCompletedEvent {
    pub usage: Usage,
}

/// Minimal usage summary for a turn.
#[derive(Debug, Clone, Copy, PartialEq, Eq, Structural)]
pub struct Usage {
    pub input_tokens: u64,
    pub cached_input_tokens: u64,
    pub output_tokens: u64,
}

#[derive(Debug)]
pub struct ItemStartedEvent {
    pub item: ConversationItem,
}

#[derive(Debug)]
pub struct ItemCompletedEvent {
    pub item: ConversationItem,
}

#[derive(Debug)]
pub struct ItemUpdatedEvent {
    pub item: ConversationItem,
}

/// Fatal error emitted on the stream.
#[derive(Debug)]
pub struct ConversationErrorEvent {
    pub message: String,
}

/// One conversation item with its payload.
#[derive(Debug)]
pub struct ConversationItem {
    pub id: String,
    pub details: ConversationItemDetails,
}

/// The payloads of the supported conversation item kinds.
#[derive(Debug)]
pub enum ConversationItemDetails {
    AssistantMessage(AssistantMessageItem),
    Reasoning(ReasoningItem),
    CommandExecution(CommandExecutionItem),
    FileChange(FileChangeItem),
    McpToolCall(McpToolCallItem),
    WebSearch(WebSearchItem),
    TodoList(TodoListItem),
    Error(ErrorItem),
}

/// Session metadata.
#[derive(Debug)]
pub struct SessionItem {
    pub session_id: String,
}

/// Assistant message payload.
#[derive(Debug)]
pub struct AssistantMessageItem {
    pub text: String,
}

/// Reasoning summary payload.
#[derive(Debug)]
pub struct ReasoningItem {
    pub text: String,
}

#[derive(Debug, Clone, Copy, PartialEq, Eq, Structural)]
pub enum CommandExecutionStatus {
    InProgress,
    Completed,
    Failed,
}

/// Local shell command execution payload.
#[derive(Debug)]
pub struct CommandExecutionItem {
    pub command: String,
    pub aggregated_output: String,
    pub exit_code: Option<i32>,
    pub status: CommandExecutionStatus,
}

/// Single file change summary of a patch.
#[derive(Debug)]
pub struct FileUpdateChange {
    pub path: String,
    pub kind: PatchChangeKind,
}

#[derive(Debug, Clone, Copy, PartialEq, Eq, Structural)]
pub enum PatchApplyStatus {
    Completed,
    Failed,
}

/// Patch application payload.
#[derive(Debug)]
pub struct FileChangeItem {
    pub changes: Vec<FileUpdateChange>,
    pub status: PatchApplyStatus,
}

/// The kinds of change a patch can make to a file.
#[derive(Debug, Clone, Copy, PartialEq, Eq, Structural)]
pub enum PatchChangeKind {
    Add,
    Delete,
    Update,
}

#[derive(Debug, Clone, Copy, PartialEq, Eq, Structural)]
pub enum McpToolCallStatus {
    InProgress,
    Completed,
    Failed,
}

#[derive(Debug)]
pub struct McpToolCallItem {
    pub server: String,
    pub tool: String,
    pub status: McpToolCallStatus,
}

#[derive(Debug)]
pub struct WebSearchItem {
    pub query: String,
}

#[derive(Debug)]
pub struct ErrorItem {
    pub message: String,
}

#[derive(Debug)]
pub struct TodoItem {
    pub text: String,
    pub completed: bool,
}

#[derive(Debug)]
pub struct TodoListItem {
    pub items: Vec<TodoItem>,
}

/// The command status for an exit code: zero completes, anything else
/// fails.
pub fn command_status_for_exit(exit_code: i32) -> (r: CommandExecutionStatus)
    ensures
        exit_code == 0 ==> r == CommandExecutionStatus::Completed,
        exit_code != 0 ==> r == CommandExecutionStatus::Failed,
{
    if exit_code == 0 {
        CommandExecutionStatus::Completed
    } else {
        CommandExecutionStatus::Failed
    }
}

} // verus!
