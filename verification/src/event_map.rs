//! Mapping between agent events and journal event envelopes.
//!
//! Agent events are what the agent loop emits; journal payloads are what the
//! event journal stores.  Each agent event maps to one payload; reading a
//! payload back gives the agent event again, with the fields the journal does
//! not keep reset (iterations of tool events, token usage) and the risk and
//! decision texts in their canonical spelling.  JSON documents (tool inputs
//! and outputs, approval arguments, state patches) are carried as JSON text.
use vstd::prelude::*;

use crate::json::{
    compaction_data_json, compaction_json, error_json, error_object_json, json_field_present, json_has_field, json_str_field,
    json_string_field, json_u64_field, json_u64_field_of,
};
use crate::text::str_eq;

verus! {

/// Why a run stopped.
#[derive(Clone, Copy, PartialEq, Eq, Structural)]
pub enum RunStopReason {
    Completed,
    NeedsUser,
    BlockedByPolicy,
    BudgetExceeded,
    Cancelled,
    Error,
}

/// Why the model stopped producing output.
#[derive(Clone, Copy, PartialEq, Eq, Structural)]
pub enum ModelStopReason {
    EndTurn,
    ToolUse,
    NeedsUser,
    MaxTokens,
    Safety,
    Unknown,
}

/// The journal's risk grade of an approval request.
#[derive(Clone, Copy, PartialEq, Eq, Structural)]
pub enum RiskLevel {
    Low,
    Medium,
    High,
    Critical,
}

/// The journal's record of an approval decision.
#[derive(Clone, Copy, PartialEq, Eq, Structural)]
pub enum ApprovalDecision {
    Approved,
    Denied,
    Timeout,
}

/// How a tool span ended in the journal.
#[derive(Clone, Copy, PartialEq, Eq, Structural)]
pub enum SpanStatus {
    Success,
    Failure,
}

/// Who a memory belongs to.
#[derive(Clone, Copy, PartialEq, Eq, Structural)]
pub enum MemoryScope {
    Session,
    User,
    Agent,
    Org,
}

/// A tool call: its id, the tool, and the input document (JSON text).
pub struct ToolCall {
    pub call_id: String,
    pub tool_name: String,
    pub input: String,
}

/// A finished tool call: its id, the tool, and the output document.
pub struct ToolResultSummary {
    pub call_id: String,
    pub tool_name: String,
    pub output: String,
}

/// What the agent loop emits.
#[allow(inconsistent_fields)]
pub enum AgentEvent {
    TextDelta { run_id: String, session_id: String, iteration: u32, delta: String },
    ToolCallRequested { run_id: String, session_id: String, iteration: u32, call: ToolCall },
    ToolCallCompleted { run_id: String, session_id: String, iteration: u32, result: ToolResultSummary },
    ToolCallFailed { run_id: String, session_id: String, iteration: u32, call_id: String, tool_name: String, error: String },
    RunFinished { run_id: String, session_id: String, reason: RunStopReason, total_iterations: u32, final_answer: Option<String> },
    RunStarted { run_id: String, session_id: String, provider: String, max_iterations: u32 },
    IterationStarted { run_id: String, session_id: String, iteration: u32 },
    /// `usage` is the token usage document, when the model reported one.
    ModelOutput { run_id: String, session_id: String, iteration: u32, stop_reason: ModelStopReason, directive_count: usize, usage: Option<String> },
    /// `patch` is the state patch document.
    StatePatched { run_id: String, session_id: String, iteration: u32, patch: String, revision: u64 },
    ContextCompacted { run_id: String, session_id: String, iteration: u32, dropped_count: usize, tokens_before: usize, tokens_after: usize },
    ApprovalRequested { run_id: String, session_id: String, approval_id: String, call_id: String, tool_name: String, arguments: String, risk: String },
    ApprovalResolved { run_id: String, session_id: String, approval_id: String, decision: String, reason: Option<String> },
    RunErrored { run_id: String, session_id: String, error: String },
}

#[allow(inconsistent_fields)]
/// What the journal stores.  `Other` stands for the payload kinds that have
/// no agent event (file writes, memory events and the like), by name.
pub enum EventPayload {
    TextDelta { delta: String, index: Option<u32> },
    ToolCallRequested { call_id: String, tool_name: String, arguments: String, category: Option<String> },
    ToolCallCompleted { tool_run_id: String, call_id: Option<String>, tool_name: String, result: String, duration_ms: u64, status: SpanStatus },
    RunFinished { reason: String, total_iterations: u32, final_answer: Option<String> },
    RunStarted { provider: String, max_iterations: u32 },
    StepStarted { index: u32 },
    StepFinished { index: u32, stop_reason: String, directive_count: usize },
    StatePatched { index: Option<u32>, patch: String, revision: u64 },
    Custom { event_type: String, data: String },
    ApprovalRequested { approval_id: String, call_id: String, tool_name: String, arguments: String, risk: RiskLevel },
    ApprovalResolved { approval_id: String, decision: ApprovalDecision, reason: Option<String> },
    ErrorRaised { message: String },
    Message { role: String, content: String, model: Option<String> },
    MessageDelta { role: String, delta: String },
    ToolResult { call_id: String, tool_name: String, result: String, duration_ms: u64, status: SpanStatus },
    Error { error: String },
    MemoryProposed { scope: MemoryScope, proposal_id: String, entries_ref: String, source_run_id: Option<String> },
    MemoryCommitted { scope: MemoryScope, memory_id: String, committed_ref: String, supersedes: Option<String> },
    ObservationAppended { scope: MemoryScope, observation_ref: String, source_run_id: Option<String> },
    ReflectionCompacted { scope: MemoryScope, summary_ref: String },
    MemoryTombstoned { scope: MemoryScope, memory_id: String, reason: String },
    Other { kind: String },
}

/// A journal entry: ids, position, time (microseconds), payload and
/// string metadata.
pub struct EventEnvelope {
    pub event_id: String,
    pub session_id: String,
    pub branch_id: String,
    pub run_id: Option<String>,
    pub seq: u64,
    pub timestamp: u64,
    pub parent_id: Option<String>,
    pub payload: EventPayload,
    pub metadata: Vec<(String, String)>,
    pub schema_version: u8,
}

// ---------------------------------------------------------------------------
// Abstract views
// ---------------------------------------------------------------------------

/// An optional string as plain text.
pub open spec fn opt_view(o: Option<String>) -> Option<Seq<char>> {
    match o {
        Some(s) => Some(s@),
        None => None,
    }
}

/// An agent event with its texts as character sequences.
#[allow(inconsistent_fields)]
pub enum AgentEventV {
    TextDelta { run_id: Seq<char>, session_id: Seq<char>, iteration: u32, delta: Seq<char> },
    ToolCallRequested { run_id: Seq<char>, session_id: Seq<char>, iteration: u32, call_id: Seq<char>, tool_name: Seq<char>, input: Seq<char> },
    ToolCallCompleted { run_id: Seq<char>, session_id: Seq<char>, iteration: u32, call_id: Seq<char>, tool_name: Seq<char>, output: Seq<char> },
    ToolCallFailed { run_id: Seq<char>, session_id: Seq<char>, iteration: u32, call_id: Seq<char>, tool_name: Seq<char>, error: Seq<char> },
    RunFinished { run_id: Seq<char>, session_id: Seq<char>, reason: RunStopReason, total_iterations: u32, final_answer: Option<Seq<char>> },
    RunStarted { run_id: Seq<char>, session_id: Seq<char>, provider: Seq<char>, max_iterations: u32 },
    IterationStarted { run_id: Seq<char>, session_id: Seq<char>, iteration: u32 },
    ModelOutput { run_id: Seq<char>, session_id: Seq<char>, iteration: u32, stop_reason: ModelStopReason, directive_count: usize, usage: Option<Seq<char>> },
    StatePatched { run_id: Seq<char>, session_id: Seq<char>, iteration: u32, patch: Seq<char>, revision: u64 },
    ContextCompacted { run_id: Seq<char>, session_id: Seq<char>, iteration: u32, dropped_count: usize, tokens_before: usize, tokens_after: usize },
    ApprovalRequested { run_id: Seq<char>, session_id: Seq<char>, approval_id: Seq<char>, call_id: Seq<char>, tool_name: Seq<char>, arguments: Seq<char>, risk: Seq<char> },
    ApprovalResolved { run_id: Seq<char>, session_id: Seq<char>, approval_id: Seq<char>, decision: Seq<char>, reason: Option<Seq<char>> },
    RunErrored { run_id: Seq<char>, session_id: Seq<char>, error: Seq<char> },
}

impl View for AgentEvent {
    type V = AgentEventV;

    open spec fn view(&self) -> AgentEventV {
        match self {
            AgentEvent::TextDelta { run_id, session_id, iteration, delta } =>
                AgentEventV::TextDelta { run_id: run_id@, session_id: session_id@, iteration: *iteration, delta: delta@ },
            AgentEvent::ToolCallRequested { run_id, session_id, iteration, call } =>
                AgentEventV::ToolCallRequested { run_id: run_id@, session_id: session_id@, iteration: *iteration,
                    call_id: call.call_id@, tool_name: call.tool_name@, input: call.input@ },
            AgentEvent::ToolCallCompleted { run_id, session_id, iteration, result } =>
                AgentEventV::ToolCallCompleted { run_id: run_id@, session_id: session_id@, iteration: *iteration,
                    call_id: result.call_id@, tool_name: result.tool_name@, output: result.output@ },
            AgentEvent::ToolCallFailed { run_id, session_id, iteration, call_id, tool_name, error } =>
                AgentEventV::ToolCallFailed { run_id: run_id@, session_id: session_id@, iteration: *iteration,
                    call_id: call_id@, tool_name: tool_name@, error: error@ },
            AgentEvent::RunFinished { run_id, session_id, reason, total_iterations, final_answer } =>
                AgentEventV::RunFinished { run_id: run_id@, session_id: session_id@, reason: *reason,
                    total_iterations: *total_iterations, final_answer: opt_view(*final_answer) },
            AgentEvent::RunStarted { run_id, session_id, provider, max_iterations } =>
                AgentEventV::RunStarted { run_id: run_id@, session_id: session_id@, provider: provider@, max_iterations: *max_iterations },
            AgentEvent::IterationStarted { run_id, session_id, iteration } =>
                AgentEventV::IterationStarted { run_id: run_id@, session_id: session_id@, iteration: *iteration },
            AgentEvent::ModelOutput { run_id, session_id, iteration, stop_reason, directive_count, usage } =>
                AgentEventV::ModelOutput { run_id: run_id@, session_id: session_id@, iteration: *iteration,
                    stop_reason: *stop_reason, directive_count: *directive_count, usage: opt_view(*usage) },
            AgentEvent::StatePatched { run_id, session_id, iteration, patch, revision } =>
                AgentEventV::StatePatched { run_id: run_id@, session_id: session_id@, iteration: *iteration, patch: patch@, revision: *revision },
            AgentEvent::ContextCompacted { run_id, session_id, iteration, dropped_count, tokens_before, tokens_after } =>
                AgentEventV::ContextCompacted { run_id: run_id@, session_id: session_id@, iteration: *iteration,
                    dropped_count: *dropped_count, tokens_before: *tokens_before, tokens_after: *tokens_after },
            AgentEvent::ApprovalRequested { run_id, session_id, approval_id, call_id, tool_name, arguments, risk } =>
                AgentEventV::ApprovalRequested { run_id: run_id@, session_id: session_id@, approval_id: approval_id@,
                    call_id: call_id@, tool_name: tool_name@, arguments: arguments@, risk: risk@ },
            AgentEvent::ApprovalResolved { run_id, session_id, approval_id, decision, reason } =>
                AgentEventV::ApprovalResolved { run_id: run_id@, session_id: session_id@, approval_id: approval_id@,
                    decision: decision@, reason: opt_view(*reason) },
            AgentEvent::RunErrored { run_id, session_id, error } =>
                AgentEventV::RunErrored { run_id: run_id@, session_id: session_id@, error: error@ },
        }
    }
}

/// A journal payload with its texts as character sequences.
#[allow(inconsistent_fields)]
pub enum PayloadV {
    TextDelta { delta: Seq<char>, index: Option<u32> },
    ToolCallRequested { call_id: Seq<char>, tool_name: Seq<char>, arguments: Seq<char>, category: Option<Seq<char>> },
    ToolCallCompleted { tool_run_id: Seq<char>, call_id: Option<Seq<char>>, tool_name: Seq<char>, result: Seq<char>, duration_ms: u64, status: SpanStatus },
    RunFinished { reason: Seq<char>, total_iterations: u32, final_answer: Option<Seq<char>> },
    RunStarted { provider: Seq<char>, max_iterations: u32 },
    StepStarted { index: u32 },
    StepFinished { index: u32, stop_reason: Seq<char>, directive_count: usize },
    StatePatched { index: Option<u32>, patch: Seq<char>, revision: u64 },
    Custom { event_type: Seq<char>, data: Seq<char> },
    ApprovalRequested { approval_id: Seq<char>, call_id: Seq<char>, tool_name: Seq<char>, arguments: Seq<char>, risk: RiskLevel },
    ApprovalResolved { approval_id: Seq<char>, decision: ApprovalDecision, reason: Option<Seq<char>> },
    ErrorRaised { message: Seq<char> },
    Message { role: Seq<char>, content: Seq<char>, model: Option<Seq<char>> },
    MessageDelta { role: Seq<char>, delta: Seq<char> },
    ToolResult { call_id: Seq<char>, tool_name: Seq<char>, result: Seq<char>, duration_ms: u64, status: SpanStatus },
    Error { error: Seq<char> },
    MemoryProposed { scope: MemoryScope, proposal_id: Seq<char>, entries_ref: Seq<char>, source_run_id: Option<Seq<char>> },
    MemoryCommitted { scope: MemoryScope, memory_id: Seq<char>, committed_ref: Seq<char>, supersedes: Option<Seq<char>> },
    ObservationAppended { scope: MemoryScope, observation_ref: Seq<char>, source_run_id: Option<Seq<char>> },
    ReflectionCompacted { scope: MemoryScope, summary_ref: Seq<char> },
    MemoryTombstoned { scope: MemoryScope, memory_id: Seq<char>, reason: Seq<char> },
    Other { kind: Seq<char> },
}

impl View for EventPayload {
    type V = PayloadV;

    open spec fn view(&self) -> PayloadV {
        match self {
            EventPayload::TextDelta { delta, index } => PayloadV::TextDelta { delta: delta@, index: *index },
            EventPayload::ToolCallRequested { call_id, tool_name, arguments, category } =>
                PayloadV::ToolCallRequested { call_id: call_id@, tool_name: tool_name@, arguments: arguments@, category: opt_view(*category) },
            EventPayload::ToolCallCompleted { tool_run_id, call_id, tool_name, result, duration_ms, status } =>
                PayloadV::ToolCallCompleted { tool_run_id: tool_run_id@, call_id: opt_view(*call_id), tool_name: tool_name@,
                    result: result@, duration_ms: *duration_ms, status: *status },
            EventPayload::RunFinished { reason, total_iterations, final_answer } =>
                PayloadV::RunFinished { reason: reason@, total_iterations: *total_iterations, final_answer: opt_view(*final_answer) },
            EventPayload::RunStarted { provider, max_iterations } => PayloadV::RunStarted { provider: provider@, max_iterations: *max_iterations },
            EventPayload::StepStarted { index } => PayloadV::StepStarted { index: *index },
            EventPayload::StepFinished { index, stop_reason, directive_count } =>
                PayloadV::StepFinished { index: *index, stop_reason: stop_reason@, directive_count: *directive_count },
            EventPayload::StatePatched { index, patch, revision } => PayloadV::StatePatched { index: *index, patch: patch@, revision: *revision },
            EventPayload::Custom { event_type, data } => PayloadV::Custom { event_type: event_type@, data: data@ },
            EventPayload::ApprovalRequested { approval_id, call_id, tool_name, arguments, risk } =>
                PayloadV::ApprovalRequested { approval_id: approval_id@, call_id: call_id@, tool_name: tool_name@, arguments: arguments@, risk: *risk },
            EventPayload::ApprovalResolved { approval_id, decision, reason } =>
                PayloadV::ApprovalResolved { approval_id: approval_id@, decision: *decision, reason: opt_view(*reason) },
            EventPayload::ErrorRaised { message } => PayloadV::ErrorRaised { message: message@ },
            EventPayload::Message { role, content, model } => PayloadV::Message { role: role@, content: content@, model: opt_view(*model) },
            EventPayload::MessageDelta { role, delta } => PayloadV::MessageDelta { role: role@, delta: delta@ },
            EventPayload::ToolResult { call_id, tool_name, result, duration_ms, status } =>
                PayloadV::ToolResult { call_id: call_id@, tool_name: tool_name@, result: result@, duration_ms: *duration_ms, status: *status },
            EventPayload::Error { error } => PayloadV::Error { error: error@ },
            EventPayload::MemoryProposed { scope, proposal_id, entries_ref, source_run_id } =>
                PayloadV::MemoryProposed { scope: *scope, proposal_id: proposal_id@, entries_ref: entries_ref@, source_run_id: opt_view(*source_run_id) },
            EventPayload::MemoryCommitted { scope, memory_id, committed_ref, supersedes } =>
                PayloadV::MemoryCommitted { scope: *scope, memory_id: memory_id@, committed_ref: committed_ref@, supersedes: opt_view(*supersedes) },
            EventPayload::ObservationAppended { scope, observation_ref, source_run_id } =>
                PayloadV::ObservationAppended { scope: *scope, observation_ref: observation_ref@, source_run_id: opt_view(*source_run_id) },
            EventPayload::ReflectionCompacted { scope, summary_ref } =>
                PayloadV::ReflectionCompacted { scope: *scope, summary_ref: summary_ref@ },
            EventPayload::MemoryTombstoned { scope, memory_id, reason } =>
                PayloadV::MemoryTombstoned { scope: *scope, memory_id: memory_id@, reason: reason@ },
            EventPayload::Other { kind } => PayloadV::Other { kind: kind@ },
        }
    }
}

// ---------------------------------------------------------------------------
// Enumerations as text
// ---------------------------------------------------------------------------

/// The name of a run stop reason.
pub open spec fn run_stop_reason_name(r: RunStopReason) -> Seq<char> {
    match r {
        RunStopReason::Completed => "Completed"@,
        RunStopReason::NeedsUser => "NeedsUser"@,
        RunStopReason::BlockedByPolicy => "BlockedByPolicy"@,
        RunStopReason::BudgetExceeded => "BudgetExceeded"@,
        RunStopReason::Cancelled => "Cancelled"@,
        RunStopReason::Error => "Error"@,
    }
}

/// The run stop reason named `s`; an unknown name reads as `Completed`.
pub open spec fn run_stop_reason_named(s: Seq<char>) -> RunStopReason {
    if s == "NeedsUser"@ {
        RunStopReason::NeedsUser
    } else if s == "BlockedByPolicy"@ {
        RunStopReason::BlockedByPolicy
    } else if s == "BudgetExceeded"@ {
        RunStopReason::BudgetExceeded
    } else if s == "Cancelled"@ {
        RunStopReason::Cancelled
    } else if s == "Error"@ {
        RunStopReason::Error
    } else {
        RunStopReason::Completed
    }
}

/// The name of a model stop reason.
pub open spec fn model_stop_reason_name(r: ModelStopReason) -> Seq<char> {
    match r {
        ModelStopReason::EndTurn => "EndTurn"@,
        ModelStopReason::ToolUse => "ToolUse"@,
        ModelStopReason::NeedsUser => "NeedsUser"@,
        ModelStopReason::MaxTokens => "MaxTokens"@,
        ModelStopReason::Safety => "Safety"@,
        ModelStopReason::Unknown => "Unknown"@,
    }
}

/// The model stop reason named `s`; an unknown name reads as `Unknown`.
pub open spec fn model_stop_reason_named(s: Seq<char>) -> ModelStopReason {
    if s == "EndTurn"@ {
        ModelStopReason::EndTurn
    } else if s == "ToolUse"@ {
        ModelStopReason::ToolUse
    } else if s == "NeedsUser"@ {
        ModelStopReason::NeedsUser
    } else if s == "MaxTokens"@ {
        ModelStopReason::MaxTokens
    } else if s == "Safety"@ {
        ModelStopReason::Safety
    } else {
        ModelStopReason::Unknown
    }
}

/// The name of a risk level.
pub open spec fn risk_level_name(r: RiskLevel) -> Seq<char> {
    match r {
        RiskLevel::Low => "low"@,
        RiskLevel::Medium => "medium"@,
        RiskLevel::High => "high"@,
        RiskLevel::Critical => "critical"@,
    }
}

/// The risk level named `s`; an unknown name reads as `Low`.
pub open spec fn risk_level_named(s: Seq<char>) -> RiskLevel {
    if s == "medium"@ {
        RiskLevel::Medium
    } else if s == "high"@ {
        RiskLevel::High
    } else if s == "critical"@ {
        RiskLevel::Critical
    } else {
        RiskLevel::Low
    }
}

/// The name of an approval decision.
pub open spec fn approval_decision_name(d: ApprovalDecision) -> Seq<char> {
    match d {
        ApprovalDecision::Approved => "approved"@,
        ApprovalDecision::Denied => "denied"@,
        ApprovalDecision::Timeout => "timeout"@,
    }
}

/// The approval decision named `s`; an unknown name reads as `Denied`.
pub open spec fn approval_decision_named(s: Seq<char>) -> ApprovalDecision {
    if s == "approved"@ {
        ApprovalDecision::Approved
    } else if s == "timeout"@ {
        ApprovalDecision::Timeout
    } else {
        ApprovalDecision::Denied
    }
}

pub fn run_stop_reason_to_str(r: RunStopReason) -> (s: &'static str)
    ensures
        s@ == run_stop_reason_name(r),
{
    match r {
        RunStopReason::Completed => "Completed",
        RunStopReason::NeedsUser => "NeedsUser",
        RunStopReason::BlockedByPolicy => "BlockedByPolicy",
        RunStopReason::BudgetExceeded => "BudgetExceeded",
        RunStopReason::Cancelled => "Cancelled",
        RunStopReason::Error => "Error",
    }
}

pub fn parse_run_stop_reason(s: &str) -> (r: RunStopReason)
    ensures
        r == run_stop_reason_named(s@),
{
    if str_eq(s, "NeedsUser") {
        RunStopReason::NeedsUser
    } else if str_eq(s, "BlockedByPolicy") {
        RunStopReason::BlockedByPolicy
    } else if str_eq(s, "BudgetExceeded") {
        RunStopReason::BudgetExceeded
    } else if str_eq(s, "Cancelled") {
        RunStopReason::Cancelled
    } else if str_eq(s, "Error") {
        RunStopReason::Error
    } else {
        RunStopReason::Completed
    }
}

pub fn model_stop_reason_to_str(r: ModelStopReason) -> (s: &'static str)
    ensures
        s@ == model_stop_reason_name(r),
{
    match r {
        ModelStopReason::EndTurn => "EndTurn",
        ModelStopReason::ToolUse => "ToolUse",
        ModelStopReason::NeedsUser => "NeedsUser",
        ModelStopReason::MaxTokens => "MaxTokens",
        ModelStopReason::Safety => "Safety",
        ModelStopReason::Unknown => "Unknown",
    }
}

pub fn parse_model_stop_reason(s: &str) -> (r: ModelStopReason)
    ensures
        r == model_stop_reason_named(s@),
{
    if str_eq(s, "EndTurn") {
        ModelStopReason::EndTurn
    } else if str_eq(s, "ToolUse") {
        ModelStopReason::ToolUse
    } else if str_eq(s, "NeedsUser") {
        ModelStopReason::NeedsUser
    } else if str_eq(s, "MaxTokens") {
        ModelStopReason::MaxTokens
    } else if str_eq(s, "Safety") {
        ModelStopReason::Safety
    } else {
        ModelStopReason::Unknown
    }
}

pub fn risk_level_to_str(r: RiskLevel) -> (s: &'static str)
    ensures
        s@ == risk_level_name(r),
{
    match r {
        RiskLevel::Low => "low",
        RiskLevel::Medium => "medium",
        RiskLevel::High => "high",
        RiskLevel::Critical => "critical",
    }
}

pub fn parse_risk_level(s: &str) -> (r: RiskLevel)
    ensures
        r == risk_level_named(s@),
{
    if str_eq(s, "medium") {
        RiskLevel::Medium
    } else if str_eq(s, "high") {
        RiskLevel::High
    } else if str_eq(s, "critical") {
        RiskLevel::Critical
    } else {
        RiskLevel::Low
    }
}

pub fn approval_decision_to_str(d: ApprovalDecision) -> (s: &'static str)
    ensures
        s@ == approval_decision_name(d),
{
    match d {
        ApprovalDecision::Approved => "approved",
        ApprovalDecision::Denied => "denied",
        ApprovalDecision::Timeout => "timeout",
    }
}

pub fn parse_approval_decision(s: &str) -> (d: ApprovalDecision)
    ensures
        d == approval_decision_named(s@),
{
    if str_eq(s, "approved") {
        ApprovalDecision::Approved
    } else if str_eq(s, "timeout") {
        ApprovalDecision::Timeout
    } else {
        ApprovalDecision::Denied
    }
}

// ---------------------------------------------------------------------------
// The mapping
// ---------------------------------------------------------------------------

/// The payload an agent event is journaled as.  `tool_run_id` is the span id
/// given to tool completions.
pub open spec fn to_payload(e: AgentEventV, tool_run_id: Seq<char>) -> PayloadV {
    match e {
        AgentEventV::TextDelta { delta, iteration, .. } => PayloadV::TextDelta { delta, index: Some(iteration) },
        AgentEventV::ToolCallRequested { call_id, tool_name, input, .. } =>
            PayloadV::ToolCallRequested { call_id, tool_name, arguments: input, category: None },
        AgentEventV::ToolCallCompleted { call_id, tool_name, output, .. } =>
            PayloadV::ToolCallCompleted { tool_run_id, call_id: Some(call_id), tool_name, result: output, duration_ms: 0, status: SpanStatus::Success },
        AgentEventV::ToolCallFailed { call_id, tool_name, error, .. } =>
            PayloadV::ToolCallCompleted { tool_run_id, call_id: Some(call_id), tool_name, result: error_object_json(error), duration_ms: 0, status: SpanStatus::Failure },
        AgentEventV::RunFinished { reason, total_iterations, final_answer, .. } =>
            PayloadV::RunFinished { reason: run_stop_reason_name(reason), total_iterations, final_answer },
        AgentEventV::RunStarted { provider, max_iterations, .. } => PayloadV::RunStarted { provider, max_iterations },
        AgentEventV::IterationStarted { iteration, .. } => PayloadV::StepStarted { index: iteration },
        AgentEventV::ModelOutput { iteration, stop_reason, directive_count, .. } =>
            PayloadV::StepFinished { index: iteration, stop_reason: model_stop_reason_name(stop_reason), directive_count },
        AgentEventV::StatePatched { iteration, patch, revision, .. } => PayloadV::StatePatched { index: Some(iteration), patch, revision },
        AgentEventV::ContextCompacted { iteration, dropped_count, tokens_before, tokens_after, .. } =>
            PayloadV::Custom { event_type: "context_compacted"@, data: compaction_json(iteration, dropped_count, tokens_before, tokens_after) },
        AgentEventV::ApprovalRequested { approval_id, call_id, tool_name, arguments, risk, .. } =>
            PayloadV::ApprovalRequested { approval_id, call_id, tool_name, arguments, risk: risk_level_named(risk) },
        AgentEventV::ApprovalResolved { approval_id, decision, reason, .. } =>
            PayloadV::ApprovalResolved { approval_id, decision: approval_decision_named(decision), reason },
        AgentEventV::RunErrored { error, .. } => PayloadV::ErrorRaised { message: error },
    }
}

/// `o`, or `d` when absent.
pub open spec fn or_default<T>(o: Option<T>, d: T) -> T {
    match o {
        Some(v) => v,
        None => d,
    }
}

/// The agent event a payload reads back as, for run `r` of session `s`;
/// `None` for payloads with no agent event.
pub open spec fn to_event(r: Seq<char>, s: Seq<char>, p: PayloadV) -> Option<AgentEventV> {
    match p {
        PayloadV::TextDelta { delta, index } =>
            Some(AgentEventV::TextDelta { run_id: r, session_id: s, iteration: or_default(index, 0u32), delta }),
        PayloadV::ToolCallRequested { call_id, tool_name, arguments, .. } =>
            Some(AgentEventV::ToolCallRequested { run_id: r, session_id: s, iteration: 0, call_id, tool_name, input: arguments }),
        PayloadV::ToolCallCompleted { call_id, tool_name, result, status, .. } => match status {
            SpanStatus::Success => Some(AgentEventV::ToolCallCompleted { run_id: r, session_id: s, iteration: 0,
                call_id: or_default(call_id, Seq::empty()), tool_name, output: result }),
            SpanStatus::Failure => Some(AgentEventV::ToolCallFailed { run_id: r, session_id: s, iteration: 0,
                call_id: or_default(call_id, Seq::empty()), tool_name,
                error: or_default(json_string_field(result, "error"@), "unknown error"@) }),
        },
        PayloadV::RunStarted { provider, max_iterations } =>
            Some(AgentEventV::RunStarted { run_id: r, session_id: s, provider, max_iterations }),
        PayloadV::RunFinished { reason, total_iterations, final_answer } =>
            Some(AgentEventV::RunFinished { run_id: r, session_id: s, reason: run_stop_reason_named(reason), total_iterations, final_answer }),
        PayloadV::StepStarted { index } => Some(AgentEventV::IterationStarted { run_id: r, session_id: s, iteration: index }),
        PayloadV::StepFinished { index, stop_reason, directive_count } =>
            Some(AgentEventV::ModelOutput { run_id: r, session_id: s, iteration: index,
                stop_reason: model_stop_reason_named(stop_reason), directive_count, usage: None }),
        PayloadV::StatePatched { index, patch, revision } => if state_patch_doc(patch) {
            Some(AgentEventV::StatePatched { run_id: r, session_id: s, iteration: or_default(index, 0u32), patch, revision })
        } else {
            None
        },
        PayloadV::ApprovalRequested { approval_id, call_id, tool_name, arguments, risk } =>
            Some(AgentEventV::ApprovalRequested { run_id: r, session_id: s, approval_id, call_id, tool_name, arguments,
                risk: risk_level_name(risk) }),
        PayloadV::ApprovalResolved { approval_id, decision, reason } =>
            Some(AgentEventV::ApprovalResolved { run_id: r, session_id: s, approval_id, decision: approval_decision_name(decision), reason }),
        PayloadV::ErrorRaised { message } => Some(AgentEventV::RunErrored { run_id: r, session_id: s, error: message }),
        PayloadV::Custom { event_type, data } => if event_type == "context_compacted"@ {
            Some(AgentEventV::ContextCompacted { run_id: r, session_id: s,
                iteration: or_default(json_u64_field(data, "iteration"@), 0u64) as u32,
                dropped_count: or_default(json_u64_field(data, "dropped_count"@), 0u64) as usize,
                tokens_before: or_default(json_u64_field(data, "tokens_before"@), 0u64) as usize,
                tokens_after: or_default(json_u64_field(data, "tokens_after"@), 0u64) as usize })
        } else {
            None
        },
        PayloadV::Message { role, content, .. } => if role == "assistant"@ {
            Some(AgentEventV::TextDelta { run_id: r, session_id: s, iteration: 0, delta: content })
        } else {
            None
        },
        _ => None,
    }
}

/// Whether `patch` is a state patch document: a JSON object with a string
/// `format`, a `patch` and a string `source`.  (Which format and source
/// names are accepted is not checked here.)
pub open spec fn state_patch_doc(patch: Seq<char>) -> bool {
    &&& json_string_field(patch, "format"@) is Some
    &&& json_field_present(patch, "patch"@)
    &&& json_string_field(patch, "source"@) is Some
}

/// Checks that `patch` is a state patch document.
pub fn is_state_patch_doc(patch: &str) -> (b: bool)
    ensures
        b == state_patch_doc(patch@),
{
    json_str_field(patch, "format").is_some() && json_has_field(patch, "patch") && json_str_field(patch, "source").is_some()
}

/// A state patch event carries a state patch document.
pub open spec fn patch_well_formed(e: AgentEventV) -> bool {
    match e {
        AgentEventV::StatePatched { patch, .. } => state_patch_doc(patch),
        _ => true,
    }
}

/// The JSON documents made for an event read back as written: the error of
/// a failed tool call, the counts of a compaction.
pub open spec fn json_readback(e: AgentEventV) -> bool {
    match e {
        AgentEventV::ToolCallFailed { error, .. } => json_string_field(error_object_json(error), "error"@) == Some(error),
        AgentEventV::ContextCompacted { iteration, dropped_count, tokens_before, tokens_after, .. } => {
            let d = compaction_json(iteration, dropped_count, tokens_before, tokens_after);
            &&& json_u64_field(d, "iteration"@) == Some(iteration as u64)
            &&& json_u64_field(d, "dropped_count"@) == Some(dropped_count as u64)
            &&& json_u64_field(d, "tokens_before"@) == Some(tokens_before as u64)
            &&& json_u64_field(d, "tokens_after"@) == Some(tokens_after as u64)
        },
        _ => true,
    }
}

/// The envelope `env` journals `event` as described by `arcan_to_lago`.
pub open spec fn journals(
    env: EventEnvelope,
    session_id: Seq<char>,
    branch_id: Seq<char>,
    seq: u64,
    run_id: Seq<char>,
    event: AgentEventV,
    arcan_event_id: Seq<char>,
    event_id: Seq<char>,
    tool_run_id: Seq<char>,
    timestamp: u64,
) -> bool {
    &&& env.event_id@ == event_id
    &&& env.session_id@ == session_id
    &&& env.branch_id@ == branch_id
    &&& env.run_id matches Some(r) && r@ == run_id
    &&& env.seq == seq
    &&& env.timestamp == timestamp
    &&& env.parent_id is None
    &&& env.payload@ == to_payload(event, tool_run_id)
    &&& env.metadata@.len() == 1
    &&& env.metadata@[0].0@ == "arcan_event_id"@
    &&& env.metadata@[0].1@ == arcan_event_id
    &&& env.schema_version == 1
}

/// Clones an optional string.
fn clone_opt(o: &Option<String>) -> (r: Option<String>)
    ensures
        opt_view(r) == opt_view(*o),
{
    match o {
        Some(s) => Some(s.clone()),
        None => None,
    }
}

/// Journals an agent event of run `run_id` as an envelope at position `seq`.
/// The envelope's id, the span id of tool completions and the time stamp
/// are fresh values supplied by the caller.
pub fn arcan_to_lago(
    session_id: &str,
    branch_id: &str,
    seq: u64,
    run_id: &str,
    event: &AgentEvent,
    arcan_event_id: &str,
    event_id: String,
    tool_run_id: String,
    timestamp: u64,
) -> (env: EventEnvelope)
    ensures
        journals(env, session_id@, branch_id@, seq, run_id@, event@, arcan_event_id@, event_id@, tool_run_id@, timestamp),
        json_readback(event@),
{
    let mut metadata: Vec<(String, String)> = Vec::new();
    metadata.push(("arcan_event_id".to_owned(), arcan_event_id.to_owned()));
    let payload = match event {
        AgentEvent::TextDelta { delta, iteration, .. } => EventPayload::TextDelta { delta: delta.clone(), index: Some(*iteration) },
        AgentEvent::ToolCallRequested { call, .. } => EventPayload::ToolCallRequested {
            call_id: call.call_id.clone(),
            tool_name: call.tool_name.clone(),
            arguments: call.input.clone(),
            category: None,
        },
        AgentEvent::ToolCallCompleted { result, .. } => EventPayload::ToolCallCompleted {
            tool_run_id,
            call_id: Some(result.call_id.clone()),
            tool_name: result.tool_name.clone(),
            result: result.output.clone(),
            duration_ms: 0,
            status: SpanStatus::Success,
        },
        AgentEvent::ToolCallFailed { call_id, tool_name, error, .. } => EventPayload::ToolCallCompleted {
            tool_run_id,
            call_id: Some(call_id.clone()),
            tool_name: tool_name.clone(),
            result: error_json(error.as_str()),
            duration_ms: 0,
            status: SpanStatus::Failure,
        },
        AgentEvent::RunFinished { final_answer, reason, total_iterations, .. } => EventPayload::RunFinished {
            reason: run_stop_reason_to_str(*reason).to_owned(),
            total_iterations: *total_iterations,
            final_answer: clone_opt(final_answer),
        },
        AgentEvent::RunStarted { provider, max_iterations, .. } =>
            EventPayload::RunStarted { provider: provider.clone(), max_iterations: *max_iterations },
        AgentEvent::IterationStarted { iteration, .. } => EventPayload::StepStarted { index: *iteration },
        AgentEvent::ModelOutput { iteration, stop_reason, directive_count, .. } => EventPayload::StepFinished {
            index: *iteration,
            stop_reason: model_stop_reason_to_str(*stop_reason).to_owned(),
            directive_count: *directive_count,
        },
        AgentEvent::StatePatched { iteration, patch, revision, .. } =>
            EventPayload::StatePatched { index: Some(*iteration), patch: patch.clone(), revision: *revision },
        AgentEvent::ContextCompacted { iteration, dropped_count, tokens_before, tokens_after, .. } => EventPayload::Custom {
            event_type: "context_compacted".to_owned(),
            data: compaction_data_json(*iteration, *dropped_count, *tokens_before, *tokens_after),
        },
        AgentEvent::ApprovalRequested { approval_id, call_id, tool_name, arguments, risk, .. } => EventPayload::ApprovalRequested {
            approval_id: approval_id.clone(),
            call_id: call_id.clone(),
            tool_name: tool_name.clone(),
            arguments: arguments.clone(),
            risk: parse_risk_level(risk.as_str()),
        },
        AgentEvent::ApprovalResolved { approval_id, decision, reason, .. } => EventPayload::ApprovalResolved {
            approval_id: approval_id.clone(),
            decision: parse_approval_decision(decision.as_str()),
            reason: clone_opt(reason),
        },
        AgentEvent::RunErrored { error, .. } => EventPayload::ErrorRaised { message: error.clone() },
    };
    EventEnvelope {
        event_id,
        session_id: session_id.to_owned(),
        branch_id: branch_id.to_owned(),
        run_id: Some(run_id.to_owned()),
        seq,
        timestamp,
        parent_id: None,
        payload,
        metadata,
        schema_version: 1,
    }
}

/// Reads a journal envelope back as an agent event; `None` for payloads
/// with no agent event.  The run id is the envelope's (empty when absent),
/// the session id the envelope's.
pub fn lago_to_arcan(envelope: &EventEnvelope) -> (r: Option<AgentEvent>)
    ensures
        match r {
            Some(e) => to_event(or_default(opt_view(envelope.run_id), Seq::empty()), envelope.session_id@, envelope.payload@) == Some(e@),
            None => to_event(or_default(opt_view(envelope.run_id), Seq::empty()), envelope.session_id@, envelope.payload@) is None,
        },
        match envelope.payload {
            EventPayload::Message { role, content, .. } => role@ == "assistant"@
                ==> (r matches Some(AgentEvent::TextDelta { delta, session_id, iteration, .. })
                    && delta@ == content@ && session_id@ == envelope.session_id@ && iteration == 0),
            _ => true,
        },
{
    let run_id = match &envelope.run_id {
        Some(r) => r.clone(),
        None => String::new(),
    };
    let session_id = envelope.session_id.clone();
    match &envelope.payload {
        EventPayload::TextDelta { delta, index } => Some(AgentEvent::TextDelta {
            run_id,
            session_id,
            iteration: match index { Some(i) => *i, None => 0 },
            delta: delta.clone(),
        }),
        EventPayload::ToolCallRequested { call_id, tool_name, arguments, .. } => Some(AgentEvent::ToolCallRequested {
            run_id,
            session_id,
            iteration: 0,
            call: ToolCall { call_id: call_id.clone(), tool_name: tool_name.clone(), input: arguments.clone() },
        }),
        EventPayload::ToolCallCompleted { call_id, tool_name, result, status, .. } => {
            let cid = match call_id {
                Some(c) => c.clone(),
                None => String::new(),
            };
            match status {
                SpanStatus::Success => Some(AgentEvent::ToolCallCompleted {
                    run_id,
                    session_id,
                    iteration: 0,
                    result: ToolResultSummary { call_id: cid, tool_name: tool_name.clone(), output: result.clone() },
                }),
                SpanStatus::Failure => {
                    let error = match json_str_field(result.as_str(), "error") {
                        Some(e) => e,
                        None => "unknown error".to_owned(),
                    };
                    Some(AgentEvent::ToolCallFailed { run_id, session_id, iteration: 0, call_id: cid, tool_name: tool_name.clone(), error })
                },
            }
        },
        EventPayload::RunStarted { provider, max_iterations } =>
            Some(AgentEvent::RunStarted { run_id, session_id, provider: provider.clone(), max_iterations: *max_iterations }),
        EventPayload::RunFinished { reason, total_iterations, final_answer } => Some(AgentEvent::RunFinished {
            run_id,
            session_id,
            reason: parse_run_stop_reason(reason.as_str()),
            total_iterations: *total_iterations,
            final_answer: clone_opt(final_answer),
        }),
        EventPayload::StepStarted { index } => Some(AgentEvent::IterationStarted { run_id, session_id, iteration: *index }),
        EventPayload::StepFinished { index, stop_reason, directive_count } => Some(AgentEvent::ModelOutput {
            run_id,
            session_id,
            iteration: *index,
            stop_reason: parse_model_stop_reason(stop_reason.as_str()),
            directive_count: *directive_count,
            usage: None,
        }),
        EventPayload::StatePatched { index, patch, revision } => if is_state_patch_doc(patch.as_str()) {
            Some(AgentEvent::StatePatched {
            run_id,
            session_id,
            iteration: match index { Some(i) => *i, None => 0 },
            patch: patch.clone(),
            revision: *revision,
        })
        } else {
            None
        },
        EventPayload::ApprovalRequested { approval_id, call_id, tool_name, arguments, risk } => Some(AgentEvent::ApprovalRequested {
            run_id,
            session_id,
            approval_id: approval_id.clone(),
            call_id: call_id.clone(),
            tool_name: tool_name.clone(),
            arguments: arguments.clone(),
            risk: risk_level_to_str(*risk).to_owned(),
        }),
        EventPayload::ApprovalResolved { approval_id, decision, reason } => Some(AgentEvent::ApprovalResolved {
            run_id,
            session_id,
            approval_id: approval_id.clone(),
            decision: approval_decision_to_str(*decision).to_owned(),
            reason: clone_opt(reason),
        }),
        EventPayload::ErrorRaised { message } => Some(AgentEvent::RunErrored { run_id, session_id, error: message.clone() }),
        EventPayload::Custom { event_type, data } => {
            if str_eq(event_type.as_str(), "context_compacted") {
                let it = match json_u64_field_of(data.as_str(), "iteration") { Some(v) => v, None => 0 };
                let dc = match json_u64_field_of(data.as_str(), "dropped_count") { Some(v) => v, None => 0 };
                let tb = match json_u64_field_of(data.as_str(), "tokens_before") { Some(v) => v, None => 0 };
                let ta = match json_u64_field_of(data.as_str(), "tokens_after") { Some(v) => v, None => 0 };
                Some(AgentEvent::ContextCompacted {
                    run_id,
                    session_id,
                    iteration: it as u32,
                    dropped_count: dc as usize,
                    tokens_before: tb as usize,
                    tokens_after: ta as usize,
                })
            } else {
                None
            }
        },
        EventPayload::Message { role, content, .. } => {
            if str_eq(role.as_str(), "assistant") {
                Some(AgentEvent::TextDelta { run_id, session_id, iteration: 0, delta: content.clone() })
            } else {
                None
            }
        },
        _ => None,
    }
}

// ---------------------------------------------------------------------------
// Laws
// ---------------------------------------------------------------------------

/// Reading a run stop reason's name gives the reason back.
pub proof fn lemma_run_stop_reason_round_trip(r: RunStopReason)
    ensures
        run_stop_reason_named(run_stop_reason_name(r)) == r,
{
    reveal_strlit("Completed");
    reveal_strlit("NeedsUser");
    reveal_strlit("BlockedByPolicy");
    reveal_strlit("BudgetExceeded");
    reveal_strlit("Cancelled");
    reveal_strlit("Error");
    assert("Completed"@.len() == 9 && "Completed"@[0] == 'C' && "Completed"@[1] == 'o');
    assert("NeedsUser"@.len() == 9 && "NeedsUser"@[0] == 'N' && "NeedsUser"@[1] == 'e');
    assert("BlockedByPolicy"@.len() == 15 && "BlockedByPolicy"@[0] == 'B' && "BlockedByPolicy"@[1] == 'l');
    assert("BudgetExceeded"@.len() == 14 && "BudgetExceeded"@[0] == 'B' && "BudgetExceeded"@[1] == 'u');
    assert("Cancelled"@.len() == 9 && "Cancelled"@[0] == 'C' && "Cancelled"@[1] == 'a');
    assert("Error"@.len() == 5 && "Error"@[0] == 'E' && "Error"@[1] == 'r');
}

/// Reading a model stop reason's name gives the reason back.
pub proof fn lemma_model_stop_reason_round_trip(r: ModelStopReason)
    ensures
        model_stop_reason_named(model_stop_reason_name(r)) == r,
{
    reveal_strlit("EndTurn");
    reveal_strlit("ToolUse");
    reveal_strlit("NeedsUser");
    reveal_strlit("MaxTokens");
    reveal_strlit("Safety");
    reveal_strlit("Unknown");
    assert("EndTurn"@.len() == 7 && "EndTurn"@[0] == 'E' && "EndTurn"@[1] == 'n');
    assert("ToolUse"@.len() == 7 && "ToolUse"@[0] == 'T' && "ToolUse"@[1] == 'o');
    assert("NeedsUser"@.len() == 9 && "NeedsUser"@[0] == 'N' && "NeedsUser"@[1] == 'e');
    assert("MaxTokens"@.len() == 9 && "MaxTokens"@[0] == 'M' && "MaxTokens"@[1] == 'a');
    assert("Safety"@.len() == 6 && "Safety"@[0] == 'S' && "Safety"@[1] == 'a');
    assert("Unknown"@.len() == 7 && "Unknown"@[0] == 'U' && "Unknown"@[1] == 'n');
}

/// Reading a risk level's name gives the level back.
pub proof fn lemma_risk_level_round_trip(r: RiskLevel)
    ensures
        risk_level_named(risk_level_name(r)) == r,
{
    reveal_strlit("low");
    reveal_strlit("medium");
    reveal_strlit("high");
    reveal_strlit("critical");
    assert("low"@.len() == 3 && "low"@[0] == 'l' && "low"@[1] == 'o');
    assert("medium"@.len() == 6 && "medium"@[0] == 'm' && "medium"@[1] == 'e');
    assert("high"@.len() == 4 && "high"@[0] == 'h' && "high"@[1] == 'i');
    assert("critical"@.len() == 8 && "critical"@[0] == 'c' && "critical"@[1] == 'r');
}

/// Reading an approval decision's name gives the decision back.
pub proof fn lemma_approval_decision_round_trip(d: ApprovalDecision)
    ensures
        approval_decision_named(approval_decision_name(d)) == d,
{
    reveal_strlit("approved");
    reveal_strlit("denied");
    reveal_strlit("timeout");
    assert("approved"@.len() == 8 && "approved"@[0] == 'a' && "approved"@[1] == 'p');
    assert("denied"@.len() == 6 && "denied"@[0] == 'd' && "denied"@[1] == 'e');
    assert("timeout"@.len() == 7 && "timeout"@[0] == 't' && "timeout"@[1] == 'i');
}

/// An agent event as it comes back from the journal for run `r` of session
/// `s`: the ids are the journal's, tool events lose their iteration, model
/// output loses its usage, and risk and decision texts take their canonical
/// spelling.
pub open spec fn normalized(e: AgentEventV, r: Seq<char>, s: Seq<char>) -> AgentEventV {
    match e {
        AgentEventV::TextDelta { iteration, delta, .. } => AgentEventV::TextDelta { run_id: r, session_id: s, iteration, delta },
        AgentEventV::ToolCallRequested { call_id, tool_name, input, .. } =>
            AgentEventV::ToolCallRequested { run_id: r, session_id: s, iteration: 0, call_id, tool_name, input },
        AgentEventV::ToolCallCompleted { call_id, tool_name, output, .. } =>
            AgentEventV::ToolCallCompleted { run_id: r, session_id: s, iteration: 0, call_id, tool_name, output },
        AgentEventV::ToolCallFailed { call_id, tool_name, error, .. } =>
            AgentEventV::ToolCallFailed { run_id: r, session_id: s, iteration: 0, call_id, tool_name, error },
        AgentEventV::RunFinished { reason, total_iterations, final_answer, .. } =>
            AgentEventV::RunFinished { run_id: r, session_id: s, reason, total_iterations, final_answer },
        AgentEventV::RunStarted { provider, max_iterations, .. } =>
            AgentEventV::RunStarted { run_id: r, session_id: s, provider, max_iterations },
        AgentEventV::IterationStarted { iteration, .. } => AgentEventV::IterationStarted { run_id: r, session_id: s, iteration },
        AgentEventV::ModelOutput { iteration, stop_reason, directive_count, .. } =>
            AgentEventV::ModelOutput { run_id: r, session_id: s, iteration, stop_reason, directive_count, usage: None },
        AgentEventV::StatePatched { iteration, patch, revision, .. } =>
            AgentEventV::StatePatched { run_id: r, session_id: s, iteration, patch, revision },
        AgentEventV::ContextCompacted { iteration, dropped_count, tokens_before, tokens_after, .. } =>
            AgentEventV::ContextCompacted { run_id: r, session_id: s, iteration, dropped_count, tokens_before, tokens_after },
        AgentEventV::ApprovalRequested { approval_id, call_id, tool_name, arguments, risk, .. } =>
            AgentEventV::ApprovalRequested { run_id: r, session_id: s, approval_id, call_id, tool_name, arguments,
                risk: risk_level_name(risk_level_named(risk)) },
        AgentEventV::ApprovalResolved { approval_id, decision, reason, .. } =>
            AgentEventV::ApprovalResolved { run_id: r, session_id: s, approval_id,
                decision: approval_decision_name(approval_decision_named(decision)), reason },
        AgentEventV::RunErrored { error, .. } => AgentEventV::RunErrored { run_id: r, session_id: s, error },
    }
}

/// Every agent event survives the journal: reading back the payload it is
/// journaled as gives the event again, normalized as `normalized` says (a
/// state patch must carry a state patch document).
/// (The JSON documents made on the way read back as written.)
pub proof fn lemma_events_survive_journal(e: AgentEventV, tool_run_id: Seq<char>, r: Seq<char>, s: Seq<char>)
    requires
        json_readback(e),
        patch_well_formed(e),
    ensures
        to_event(r, s, to_payload(e, tool_run_id)) == Some(normalized(e, r, s)),
{
    reveal_strlit("context_compacted");
    match e {
        AgentEventV::RunFinished { reason, .. } => lemma_run_stop_reason_round_trip(reason),
        AgentEventV::ModelOutput { stop_reason, .. } => lemma_model_stop_reason_round_trip(stop_reason),
        AgentEventV::ContextCompacted { iteration, dropped_count, tokens_before, tokens_after, .. } => {
            assert((iteration as u64) as u32 == iteration);
            assert((dropped_count as u64) as usize == dropped_count);
            assert((tokens_before as u64) as usize == tokens_before);
            assert((tokens_after as u64) as usize == tokens_after);
        },
        _ => {},
    }
}

/// Journaling an event already in canonical form and reading it back gives
/// it again, up to the fields the journal does not keep.  In particular a
/// text delta, a run start or finish, an iteration start, a state patch, a
/// compaction and a run error come back unchanged apart from their ids.
pub proof fn lemma_journal_keeps_plain_events(e: AgentEventV, tool_run_id: Seq<char>)
    requires
        json_readback(e),
        patch_well_formed(e),
        e is TextDelta || e is RunStarted || e is RunFinished || e is IterationStarted || e is StatePatched
            || e is ContextCompacted || e is RunErrored,
    ensures
        to_event(event_ids(e).0, event_ids(e).1, to_payload(e, tool_run_id)) == Some(e),
{
    lemma_events_survive_journal(e, tool_run_id, event_ids(e).0, event_ids(e).1);
}

/// A journaled assistant message replays as its text: it reads back exactly
/// as a text delta carrying the message's content would (iteration 0), so no
/// assistant text is lost on replay; a message of any other role replays as
/// nothing.
pub proof fn lemma_assistant_message_replays_as_text(r: Seq<char>, s: Seq<char>, role: Seq<char>, content: Seq<char>, model: Option<Seq<char>>)
    ensures
        role == "assistant"@ ==> to_event(r, s, PayloadV::Message { role, content, model })
            == to_event(r, s, PayloadV::TextDelta { delta: content, index: None }),
        role == "assistant"@ ==> to_event(r, s, PayloadV::Message { role, content, model })
            == Some(AgentEventV::TextDelta { run_id: r, session_id: s, iteration: 0, delta: content }),
        role != "assistant"@ ==> to_event(r, s, PayloadV::Message { role, content, model }) is None,
{
}

/// The run and session ids of an event.
pub open spec fn event_ids(e: AgentEventV) -> (Seq<char>, Seq<char>) {
    match e {
        AgentEventV::TextDelta { run_id, session_id, .. } => (run_id, session_id),
        AgentEventV::ToolCallRequested { run_id, session_id, .. } => (run_id, session_id),
        AgentEventV::ToolCallCompleted { run_id, session_id, .. } => (run_id, session_id),
        AgentEventV::ToolCallFailed { run_id, session_id, .. } => (run_id, session_id),
        AgentEventV::RunFinished { run_id, session_id, .. } => (run_id, session_id),
        AgentEventV::RunStarted { run_id, session_id, .. } => (run_id, session_id),
        AgentEventV::IterationStarted { run_id, session_id, .. } => (run_id, session_id),
        AgentEventV::ModelOutput { run_id, session_id, .. } => (run_id, session_id),
        AgentEventV::StatePatched { run_id, session_id, .. } => (run_id, session_id),
        AgentEventV::ContextCompacted { run_id, session_id, .. } => (run_id, session_id),
        AgentEventV::ApprovalRequested { run_id, session_id, .. } => (run_id, session_id),
        AgentEventV::ApprovalResolved { run_id, session_id, .. } => (run_id, session_id),
        AgentEventV::RunErrored { run_id, session_id, .. } => (run_id, session_id),
    }
}

} // verus!
