//! The values of the app-server protocol that the client reads: thread
//! items, turns and the notifications that update them.
//!
//! Free-form JSON payloads (MCP call arguments and results, web search
//! actions) arrive here as the typed facts the client reads of them.
use vstd::prelude::*;

use crate::projection::{HookRunSummary, MessagePhase, TurnStatus};
use crate::history_cell::mcp_result::McpToolCallResult;
use crate::history_cell::search::WebSearchAction;
use crate::multi_agents::{CollabAgentToolCall, SubAgentActivity};

verus! {

/// One input of a user message.
#[derive(Debug)]
pub enum UserInput {
    Text(String),
    Image,
    LocalImage { path: String },
    Skill(String),
    Mention(String),
}

/// How a patch changes a file.
#[derive(Debug)]
pub enum PatchChangeKind {
    Add,
    Delete,
    Update { move_path: Option<String> },
}

/// One file of a patch.
#[derive(Debug)]
pub struct FileUpdateChange {
    pub path: String,
    pub kind: PatchChangeKind,
    pub diff: String,
}

/// The state of a command execution.
#[derive(Clone, Copy, Debug, PartialEq, Eq, Structural)]
pub enum CommandExecutionStatus {
    InProgress,
    Completed,
    Failed,
    Declined,
}

/// The state of a patch application.
#[derive(Clone, Copy, Debug, PartialEq, Eq, Structural)]
pub enum PatchApplyStatus {
    InProgress,
    Completed,
    Failed,
    Declined,
}

/// The state of a tool call (MCP, dynamic or sub-agent).
#[derive(Clone, Copy, Debug, PartialEq, Eq, Structural)]
pub enum ToolCallStatus {
    InProgress,
    Completed,
    Failed,
}

/// One output item of a dynamic tool call: its text when it is text.
#[derive(Debug)]
pub struct DynamicContentItem {
    pub input_text: Option<String>,
}

/// A canonical item of a conversation thread.
#[derive(Debug)]
pub enum ThreadItem {
    UserMessage { id: String, client_id: Option<String>, content: Vec<UserInput> },
    HookPrompt { id: String, fragments: Vec<String> },
    AgentMessage { id: String, text: String, phase: Option<MessagePhase> },
    Plan { id: String, text: String },
    Reasoning { id: String, summary: Vec<String>, content: Vec<String> },
    CommandExecution {
        id: String,
        command: String,
        status: CommandExecutionStatus,
        aggregated_output: Option<String>,
        exit_code: Option<i32>,
        duration_ms: Option<i64>,
    },
    FileChange { id: String, changes: Vec<FileUpdateChange>, status: PatchApplyStatus },
    /// An MCP tool call: its server and tool, its arguments in compact JSON
    /// text and their `title` string, and what came back.
    McpToolCall {
        id: String,
        server: String,
        tool: String,
        arguments: String,
        title: Option<String>,
        status: ToolCallStatus,
        result: Option<McpToolCallResult>,
        error: Option<String>,
        duration_ms: Option<i64>,
    },
    DynamicToolCall {
        id: String,
        tool: String,
        status: ToolCallStatus,
        content_items: Option<Vec<DynamicContentItem>>,
        success: Option<bool>,
        duration_ms: Option<i64>,
    },
    /// A collaboration tool call.
    CollabAgentToolCall(CollabAgentToolCall),
    /// Activity of a sub-agent.
    SubAgentActivity(SubAgentActivity),
    /// A web search: its query and its typed action.
    WebSearch { id: String, query: Option<String>, action: Option<WebSearchAction> },
    ImageView { id: String, path: String },
    Sleep,
    ImageGeneration {
        id: String,
        status: String,
        saved_path: Option<String>,
        revised_prompt: Option<String>,
    },
    EnteredReviewMode { id: String, review: String },
    ExitedReviewMode { id: String, review: String },
    ContextCompaction { id: String },
    UnknownItem { id: String, upstream_type: String },
}

/// A turn of a thread.
#[derive(Debug)]
pub struct Turn {
    pub id: String,
    pub items: Vec<ThreadItem>,
    pub status: TurnStatus,
    pub completed_at: Option<i64>,
    pub duration_ms: Option<i64>,
}

/// A conversation thread: its turns, oldest first.
#[derive(Debug)]
pub struct Thread {
    pub turns: Vec<Turn>,
}

/// A model the server offers.
#[derive(Clone, Debug)]
pub struct Model {
    pub id: String,
    pub model: String,
    pub provider_id: String,
    pub display_name: String,
    pub description: String,
    pub hidden: bool,
    pub is_default: bool,
}

/// A question that a tool put to the user.
#[derive(Clone, Debug)]
pub struct ToolRequestUserInputQuestion {
    pub id: String,
    pub question: String,
}

/// The user's answer to such a question.
#[derive(Clone, Debug)]
pub struct ToolRequestUserInputAnswer {
    pub answers: Vec<String>,
}

/// One step of a turn plan.
#[derive(Clone, Copy, Debug, PartialEq, Eq, Structural)]
pub enum TurnPlanStepStatus {
    Pending,
    InProgress,
    Completed,
}

/// A step of a turn plan.
#[derive(Debug)]
pub struct TurnPlanStep {
    pub step: String,
    pub status: TurnPlanStepStatus,
}

/// A notification from the server about the conversation.
#[derive(Debug)]
pub enum ServerNotification {
    TurnStarted { turn_id: String },
    TurnCompleted { turn: Turn },
    ItemStarted { item: ThreadItem },
    ItemCompleted { item: ThreadItem },
    AgentMessageDelta { item_id: String, delta: String },
    ReasoningSummaryTextDelta { item_id: String, delta: String },
    ReasoningSummaryPartAdded { item_id: String },
    ReasoningTextDelta { item_id: String, delta: String },
    PlanDelta { item_id: String, delta: String },
    CommandExecutionOutputDelta { item_id: String, delta: String },
    FileChangePatchUpdated { item_id: String, changes: Vec<FileUpdateChange> },
    TurnDiffUpdated { turn_id: String, diff: String },
    TurnPlanUpdated { turn_id: String, plan: Vec<TurnPlanStep> },
    Warning { message: String },
    Error { message: String, will_retry: bool },
    HookStarted { turn_id: Option<String>, run: HookRunSummary },
    HookCompleted { run: HookRunSummary },
    /// A notification the transcript does not follow.
    Other,
}

} // verus!
