//! Memory scope settings and committed memory entries.
use vstd::prelude::*;

use crate::event_map::MemoryScope;

verus! {

/// Runtime configuration for memory scopes.
pub struct MemoryScopeConfig {
    /// Which scopes are enabled for this agent.
    pub enabled_scopes: Vec<MemoryScope>,
    /// Number of observations before triggering compaction.
    pub observation_threshold: usize,
    /// Token budget per scope for context inclusion.
    pub per_scope_token_budget: usize,
}

impl Default for MemoryScopeConfig {
    /// The session and user scopes, compaction after 20 observations, and
    /// 4000 tokens per scope.
    fn default() -> (c: Self)
        ensures
            c.enabled_scopes@ == seq![MemoryScope::Session, MemoryScope::User],
            c.observation_threshold == 20,
            c.per_scope_token_budget == 4000,
    {
        let mut enabled_scopes: Vec<MemoryScope> = Vec::new();
        enabled_scopes.push(MemoryScope::Session);
        enabled_scopes.push(MemoryScope::User);
        MemoryScopeConfig { enabled_scopes, observation_threshold: 20, per_scope_token_budget: 4000 }
    }
}

/// A committed memory entry with its provenance.
pub struct MemoryEntry {
    pub memory_id: String,
    pub scope: MemoryScope,
    pub content: String,
    pub source_run_id: Option<String>,
    pub source_event_ids: Vec<String>,
    pub created_at: u64,
}

} // verus!
