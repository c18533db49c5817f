//! The vocabulary shared by sandbox providers: ids, specs, exec requests and
//! results, handles, statuses, capabilities and errors.
use vstd::prelude::*;

use crate::text::push_str;

verus! {

/// A sandbox's id.
pub struct SandboxId(pub String);

/// A snapshot's id.
pub struct SnapshotId(pub String);

/// The lifecycle state of a sandbox.
pub enum SandboxStatus {
    Starting,
    Running,
    Stopping,
    Stopped,
    Snapshotted,
    Failed { reason: String },
}

/// What a provider can do, as a set of flags.
#[derive(Clone, Copy, PartialEq, Eq, Structural)]
pub struct SandboxCapabilitySet {
    pub filesystem_read: bool,
    pub filesystem_write: bool,
    pub network_outbound: bool,
    pub persistence: bool,
    pub custom_image: bool,
}

/// How long a sandbox's state lives.
#[derive(Clone, Copy, PartialEq, Eq, Structural)]
pub enum PersistencePolicy {
    Ephemeral,
    Persistent,
}

/// The resources a sandbox is given.
pub struct SandboxResources {
    pub vcpus: u32,
    pub memory_mb: u32,
    pub disk_mb: u32,
    pub timeout_secs: u64,
}

/// What to create: a name, an image, resources, environment, persistence,
/// capabilities and labels.
pub struct SandboxSpec {
    pub name: String,
    pub image: Option<String>,
    pub resources: SandboxResources,
    pub env: Vec<(String, String)>,
    pub persistence: PersistencePolicy,
    pub capabilities: SandboxCapabilitySet,
    pub labels: Vec<(String, String)>,
}

/// A command to run inside a sandbox.
pub struct ExecRequest {
    pub command: Vec<String>,
    pub working_dir: Option<String>,
    pub env: Vec<(String, String)>,
    pub timeout_secs: Option<u64>,
    pub stdin: Option<Vec<u8>>,
}

/// What a command run inside a sandbox produced.
pub struct ExecResult {
    pub stdout: Vec<u8>,
    pub stderr: Vec<u8>,
    pub exit_code: i32,
    pub duration_ms: u64,
}

/// A live sandbox: id, name, status, creation time (RFC 3339 text),
/// provider name and provider metadata (JSON text).
pub struct SandboxHandle {
    pub id: SandboxId,
    pub name: String,
    pub status: SandboxStatus,
    pub created_at: String,
    pub provider: String,
    pub metadata: String,
}

/// A listed sandbox.
pub struct SandboxInfo {
    pub id: SandboxId,
    pub name: String,
    pub status: SandboxStatus,
    pub created_at: String,
}

/// Why a sandbox operation failed.
pub enum SandboxError {
    ProviderError { provider: String, message: String },
    NotFound(SandboxId),
    CapabilityDenied { capability: String },
    ExecTimeout { sandbox_id: SandboxId, timeout_secs: u64 },
    Serialization(String),
    Io(String),
}

/// The provider error of `provider` with `message`.
pub fn provider_error(provider: &str, message: String) -> (e: SandboxError)
    ensures
        e matches SandboxError::ProviderError { provider: p, message: m } && p@ == provider@ && m@ == message@,
{
    SandboxError::ProviderError { provider: provider.to_owned(), message }
}

/// `prefix` followed by `detail`, as a provider error of `provider`.
pub fn provider_error_with(provider: &str, prefix: &str, detail: &str) -> (e: SandboxError)
    ensures
        e matches SandboxError::ProviderError { provider: p, message: m } && p@ == provider@ && m@ == prefix@ + detail@,
{
    let mut m = prefix.to_owned();
    push_str(&mut m, detail);
    provider_error(provider, m)
}

/// How a command run with a time limit ended.
pub enum RunOutcome {
    /// It finished: exit code (absent when killed by a signal) and outputs.
    Finished { exit_code: Option<i32>, stdout: Vec<u8>, stderr: Vec<u8> },
    /// It could not be started.
    SpawnFailed(String),
    /// The time limit passed first.
    TimedOut,
}

/// What a provider reports for a command run in sandbox `id` with limit
/// `timeout_secs` that took `elapsed_ms`: the result (exit code -1 without
/// one), `spawn_prefix` followed by the error when it could not start, or
/// `ExecTimeout` when it ran out of time.
pub fn exec_outcome(provider: &str, spawn_prefix: &str, id: &str, timeout_secs: u64, elapsed_ms: u64, outcome: RunOutcome) -> (r: Result<ExecResult, SandboxError>)
    ensures
        match outcome {
            RunOutcome::Finished { exit_code, stdout, stderr } => r matches Ok(x)
                && x.exit_code == (match exit_code { Some(c) => c, None => -1i32 })
                && x.stdout@ == stdout@ && x.stderr@ == stderr@ && x.duration_ms == elapsed_ms,
            RunOutcome::SpawnFailed(e) => r matches Err(SandboxError::ProviderError { provider: p, message: m })
                && p@ == provider@ && m@ == spawn_prefix@ + e@,
            RunOutcome::TimedOut => r matches Err(SandboxError::ExecTimeout { sandbox_id, timeout_secs: t })
                && sandbox_id.0@ == id@ && t == timeout_secs,
        },
{
    match outcome {
        RunOutcome::Finished { exit_code, stdout, stderr } => Ok(ExecResult {
            stdout,
            stderr,
            exit_code: match exit_code {
                Some(c) => c,
                None => -1,
            },
            duration_ms: elapsed_ms,
        }),
        RunOutcome::SpawnFailed(e) => Err(provider_error_with(provider, spawn_prefix, e.as_str())),
        RunOutcome::TimedOut => Err(SandboxError::ExecTimeout { sandbox_id: SandboxId(id.to_owned()), timeout_secs }),
    }
}

/// The time limit of a request: its own, or 60 seconds.
pub fn request_timeout_secs(req: &ExecRequest) -> (t: u64)
    ensures
        t == (match req.timeout_secs { Some(s) => s, None => 60u64 }),
{
    match req.timeout_secs {
        Some(s) => s,
        None => 60,
    }
}

} // verus!
