//! Verified core of the arcan agent runtime harness.
pub mod text;
pub mod json;
pub mod tools;
pub mod tool_io;
pub mod edit;
pub mod fs;
pub mod memory;
pub mod sandbox;
pub mod event_map;
pub mod memory_projection;
pub mod keyed;
pub mod retention;
pub mod policy_middleware;
pub mod ephemeral;
pub mod observation;
pub mod skill_events;
pub mod policy_violation;
pub mod sandbox_types;
pub mod bubblewrap;
pub mod local_provider;
pub mod praxis;
pub mod credential;
pub mod provider_config;
pub mod mcp;
pub mod skills;
pub mod memory_tools;
pub mod learning;
pub mod oauth;
pub mod sandbox_manifest;
pub mod state_projection;
pub mod memory_scope;
pub mod sse_bridge;
pub mod tracked_fs;
pub mod repository;
pub mod remote_journal;
pub mod model_providers;
pub mod vercel;
pub mod rig_bridge;
