//! The Vercel Sandbox API as a sandbox provider: every sandbox is a
//! Firecracker microVM; stopping a sandbox snapshots it, and resuming
//! restores that implicit snapshot.
//!
//! The HTTP requests and the JSON bodies are the caller's part; this module
//! builds the endpoints and request parts, reads statuses and responses,
//! and decides on retries.
use vstd::prelude::*;

use crate::sandbox_types::{
    ExecRequest, ExecResult, PersistencePolicy, SandboxCapabilitySet, SandboxError, SandboxHandle, SandboxId,
    SandboxInfo, SandboxSpec, SandboxStatus, SnapshotId,
};
use crate::text::{push_str, str_eq};

verus! {

/// The time stamp `text` denotes, read as a UTC date and time and written
/// back in RFC 3339 form; or the parse error's message.
pub uninterp spec fn utc_time(text: Seq<char>) -> Result<Seq<char>, Seq<char>>;

/// `str::parse::<chrono::DateTime<chrono::Utc>>`, then `to_rfc3339`.
/// Trusted: the answer is named `utc_time`; an error is given by its
/// message.
#[verifier::external_body]
fn parse_utc(text: &str) -> (r: Result<String, String>)
    ensures
        match r {
            Ok(t) => utc_time(text@) == Ok::<Seq<char>, Seq<char>>(t@),
            Err(e) => utc_time(text@) == Err::<Seq<char>, Seq<char>>(e@),
        },
{
    match text.parse::<chrono::DateTime<chrono::Utc>>() {
        Ok(t) => Ok(t.to_rfc3339()),
        Err(e) => Err(e.to_string()),
    }
}

/// The body of a create request.
pub struct CreateSandboxRequest {
    pub name: String,
    /// Virtual CPUs and memory in megabytes.
    pub resources: Option<(u32, u32)>,
    pub persistent: bool,
    pub env: Vec<(String, String)>,
}

/// The body of an exec request.
pub struct ExecSandboxRequest {
    pub command: Vec<String>,
    pub cwd: Option<String>,
    pub timeout: Option<u64>,
    pub env: Vec<(String, String)>,
}

/// A sandbox as the API describes it.
pub struct VercelSandbox {
    pub id: String,
    pub name: String,
    pub status: String,
    pub created_at: String,
}

/// What follows a response: retry after a delay (429 and 503), or take it.
pub enum SendStep {
    Retry { delay_ms: u64, error: SandboxError },
    Accept,
}

/// The provider error of the Vercel backend with `message`.
pub open spec fn vercel_error(e: SandboxError, message: Seq<char>) -> bool {
    e matches SandboxError::ProviderError { provider, message: m } && provider@ == "vercel"@ && m@ == message
}

fn vercel_err(message: String) -> (e: SandboxError)
    ensures
        vercel_error(e, message@),
{
    SandboxError::ProviderError { provider: "vercel".to_owned(), message }
}

/// Whether a status is what a Vercel status name stands for; an unknown
/// name is taken as running.
pub open spec fn is_status_named(st: SandboxStatus, s: Seq<char>) -> bool {
    if s == "starting"@ {
        st is Starting
    } else if s == "running"@ {
        st is Running
    } else if s == "stopped"@ || s == "snapshotted"@ {
        st is Snapshotted
    } else if s == "stopping"@ {
        st is Stopping
    } else if s == "error"@ {
        st matches SandboxStatus::Failed { reason } && reason@ == "provider reported error"@
    } else {
        st is Running
    }
}

/// Reads a Vercel status name.
pub fn map_status(s: &str) -> (r: SandboxStatus)
    ensures
        is_status_named(r, s@),
{
    if str_eq(s, "starting") {
        SandboxStatus::Starting
    } else if str_eq(s, "running") {
        SandboxStatus::Running
    } else if str_eq(s, "stopped") || str_eq(s, "snapshotted") {
        SandboxStatus::Snapshotted
    } else if str_eq(s, "stopping") {
        SandboxStatus::Stopping
    } else if str_eq(s, "error") {
        SandboxStatus::Failed { reason: "provider reported error".to_owned() }
    } else {
        SandboxStatus::Running
    }
}

/// The error of a failed response: 404 is a missing sandbox (`unknown`
/// when none is named), 402 and 403 deny API access, 408 and 504 are
/// timeouts; any other status is a provider error with its text and body.
pub fn map_status_error(status: u16, status_text: &str, body: &str, sandbox_id: Option<&SandboxId>) -> (e: SandboxError)
    ensures
        status == 404 ==> (e matches SandboxError::NotFound(id)
            && id.0@ == match sandbox_id { Some(s) => s.0@, None => "unknown"@ }),
        (status == 402 || status == 403) ==> (e matches SandboxError::CapabilityDenied { capability } && capability@ == "api_access"@),
        (status == 408 || status == 504) ==> (e matches SandboxError::ExecTimeout { sandbox_id: id, timeout_secs }
            && timeout_secs == 0 && id.0@ == match sandbox_id { Some(s) => s.0@, None => "unknown"@ }),
        !(status == 404 || status == 402 || status == 403 || status == 408 || status == 504)
            ==> vercel_error(e, "HTTP "@ + status_text@ + ": "@ + body@),
{
    let named = match sandbox_id {
        Some(s) => SandboxId(s.0.clone()),
        None => SandboxId("unknown".to_owned()),
    };
    if status == 404 {
        SandboxError::NotFound(named)
    } else if status == 402 || status == 403 {
        SandboxError::CapabilityDenied { capability: "api_access".to_owned() }
    } else if status == 408 || status == 504 {
        SandboxError::ExecTimeout { sandbox_id: named, timeout_secs: 0 }
    } else {
        let mut m = "HTTP ".to_owned();
        push_str(&mut m, status_text);
        push_str(&mut m, ": ");
        push_str(&mut m, body);
        vercel_err(m)
    }
}

/// The handle of a described sandbox, its creation time checked and
/// normalized.
pub fn vercel_sandbox_to_handle(s: VercelSandbox) -> (r: Result<SandboxHandle, SandboxError>)
    ensures
        match utc_time(s.created_at@) {
            Err(e) => r matches Err(x) && vercel_error(x, "invalid createdAt timestamp '"@ + s.created_at@ + "': "@ + e),
            Ok(t) => r matches Ok(h) && h.id.0@ == s.id@ && h.name@ == s.name@ && is_status_named(h.status, s.status@)
                && h.created_at@ == t && h.provider@ == "vercel"@ && h.metadata@ == "null"@,
        },
{
    let created_at = match parse_utc(s.created_at.as_str()) {
        Ok(t) => t,
        Err(e) => {
            let mut m = "invalid createdAt timestamp '".to_owned();
            push_str(&mut m, s.created_at.as_str());
            push_str(&mut m, "': ");
            push_str(&mut m, e.as_str());
            return Err(vercel_err(m));
        },
    };
    let status = map_status(s.status.as_str());
    Ok(SandboxHandle {
        id: SandboxId(s.id),
        name: s.name,
        status,
        created_at,
        provider: "vercel".to_owned(),
        metadata: "null".to_owned(),
    })
}

/// The listing of a described sandbox, its creation time checked and
/// normalized.
pub fn vercel_sandbox_to_info(s: VercelSandbox) -> (r: Result<SandboxInfo, SandboxError>)
    ensures
        match utc_time(s.created_at@) {
            Err(e) => r matches Err(x) && vercel_error(x, "invalid createdAt timestamp '"@ + s.created_at@ + "': "@ + e),
            Ok(t) => r matches Ok(i) && i.id.0@ == s.id@ && i.name@ == s.name@ && is_status_named(i.status, s.status@)
                && i.created_at@ == t,
        },
{
    match vercel_sandbox_to_handle(s) {
        Ok(h) => Ok(SandboxInfo { id: h.id, name: h.name, status: h.status, created_at: h.created_at }),
        Err(e) => Err(e),
    }
}

/// A provider backed by the Vercel Sandbox API.
pub struct VercelSandboxProvider {
    api_token: String,
    team_id: Option<String>,
    base_url: String,
}

impl VercelSandboxProvider {
    /// The bearer token.
    pub closed spec fn token(&self) -> Seq<char> {
        self.api_token@
    }

    /// The team the requests are scoped to, if any.
    pub closed spec fn team(&self) -> Option<Seq<char>> {
        match self.team_id {
            Some(t) => Some(t@),
            None => None,
        }
    }

    /// The API's base URL.
    pub closed spec fn base(&self) -> Seq<char> {
        self.base_url@
    }

    /// A provider with a token and an optional team, on the public API.
    pub fn new(api_token: String, team_id: Option<String>) -> (p: Self)
        ensures
            p.token() == api_token@,
            p.team() == match team_id { Some(t) => Some(t@), None => None::<Seq<char>> },
            p.base() == "https://api.vercel.com"@,
    {
        VercelSandboxProvider { api_token, team_id, base_url: "https://api.vercel.com".to_owned() }
    }

    /// The provider configured by `VERCEL_TOKEN` (else
    /// `VERCEL_SANDBOX_API_KEY`) and `VERCEL_TEAM_ID`, given their values.
    pub fn from_env_values(vercel_token: Option<String>, sandbox_api_key: Option<String>, team_id: Option<String>) -> (r: Result<Self, SandboxError>)
        ensures
            vercel_token is None && sandbox_api_key is None ==> (r matches Err(e)
                && vercel_error(e, "VERCEL_TOKEN or VERCEL_SANDBOX_API_KEY must be set"@)),
            vercel_token matches Some(t) ==> (r matches Ok(p) && p.token() == t@),
            vercel_token is None && sandbox_api_key is Some ==> (r matches Ok(p) && p.token() == sandbox_api_key->0@),
            r matches Ok(p) ==> p.team() == (match team_id { Some(t) => Some(t@), None => None::<Seq<char>> })
                && p.base() == "https://api.vercel.com"@,
    {
        let token = match vercel_token {
            Some(t) => t,
            None => match sandbox_api_key {
                Some(k) => k,
                None => return Err(vercel_err("VERCEL_TOKEN or VERCEL_SANDBOX_API_KEY must be set".to_owned())),
            },
        };
        Ok(Self::new(token, team_id))
    }

    /// The provider on another base URL.
    pub fn with_base_url(self, url: String) -> (p: Self)
        ensures
            p.token() == self.token(),
            p.team() == self.team(),
            p.base() == url@,
    {
        VercelSandboxProvider { api_token: self.api_token, team_id: self.team_id, base_url: url }
    }

    /// The provider's name.
    pub fn name(&self) -> (s: &'static str)
        ensures
            s@ == "vercel"@,
    {
        "vercel"
    }

    /// File system read and write, outbound network and persistence; no
    /// custom images.
    pub fn capabilities(&self) -> (c: SandboxCapabilitySet)
        ensures
            c.filesystem_read && c.filesystem_write && c.network_outbound && c.persistence && !c.custom_image,
    {
        SandboxCapabilitySet { filesystem_read: true, filesystem_write: true, network_outbound: true, persistence: true, custom_image: false }
    }

    /// The URL of an API path, scoped to the team when there is one.
    pub fn url(&self, path: &str) -> (u: String)
        ensures
            u@ == self.base() + path@ + match self.team() { Some(t) => "?teamId="@ + t, None => Seq::empty() },
    {
        let mut u = self.base_url.clone();
        push_str(&mut u, path);
        match &self.team_id {
            Some(t) => {
                push_str(&mut u, "?teamId=");
                push_str(&mut u, t.as_str());
            },
            None => {},
        }
        u
    }

    /// The URL of an action on a sandbox (`/v1/sandboxes/{id}` and the
    /// action's suffix).
    pub fn sandbox_url(&self, id: &SandboxId, suffix: &str) -> (u: String)
        ensures
            u@ == self.base() + "/v1/sandboxes/"@ + id.0@ + suffix@ + match self.team() { Some(t) => "?teamId="@ + t, None => Seq::empty() },
    {
        let mut p = "/v1/sandboxes/".to_owned();
        push_str(&mut p, id.0.as_str());
        push_str(&mut p, suffix);
        self.url(p.as_str())
    }

    /// The `Authorization` header.
    pub fn authorization(&self) -> (h: String)
        ensures
            h@ == "Bearer "@ + self.token(),
    {
        let mut h = "Bearer ".to_owned();
        push_str(&mut h, self.api_token.as_str());
        h
    }

    /// What follows a response to attempt `attempt` (of 3): 429 and 503
    /// are retried after 100, 200 or 400 ms; anything else is taken.
    pub fn send_step(&self, attempt: usize, status: u16, status_text: &str) -> (r: SendStep)
        requires
            attempt < 3,
        ensures
            (status == 429 || status == 503) ==> (r matches SendStep::Retry { delay_ms, error }
                && delay_ms == (if attempt == 0 { 100u64 } else if attempt == 1 { 200u64 } else { 400u64 })
                && vercel_error(error, "HTTP "@ + status_text@ + ": rate-limited or service unavailable"@)),
            !(status == 429 || status == 503) ==> r is Accept,
    {
        if status == 429 || status == 503 {
            let delay_ms: u64 = if attempt == 0 { 100 } else if attempt == 1 { 200 } else { 400 };
            let mut m = "HTTP ".to_owned();
            push_str(&mut m, status_text);
            push_str(&mut m, ": rate-limited or service unavailable");
            SendStep::Retry { delay_ms, error: vercel_err(m) }
        } else {
            SendStep::Accept
        }
    }

    /// The body of a create request: the name, the resources, persistence
    /// unless ephemeral, and the environment.
    pub fn create_request(&self, spec: SandboxSpec) -> (r: CreateSandboxRequest)
        ensures
            r.name == spec.name,
            r.resources == Some((spec.resources.vcpus, spec.resources.memory_mb)),
            r.persistent == (spec.persistence != PersistencePolicy::Ephemeral),
            r.env == spec.env,
    {
        CreateSandboxRequest {
            name: spec.name,
            resources: Some((spec.resources.vcpus, spec.resources.memory_mb)),
            persistent: match spec.persistence { PersistencePolicy::Ephemeral => false, _ => true },
            env: spec.env,
        }
    }

    /// The body of an exec request.
    pub fn exec_request(&self, req: ExecRequest) -> (r: ExecSandboxRequest)
        ensures
            r.command == req.command,
            r.cwd == req.working_dir,
            r.timeout == req.timeout_secs,
            r.env == req.env,
    {
        ExecSandboxRequest { command: req.command, cwd: req.working_dir, timeout: req.timeout_secs, env: req.env }
    }

    /// The result of an exec response.
    pub fn exec_result(&self, stdout: String, stderr: String, exit_code: i32, duration_ms: u64) -> (r: ExecResult)
        ensures
            r.stdout@ == vstd::utf8::encode_utf8(stdout@),
            r.stderr@ == vstd::utf8::encode_utf8(stderr@),
            r.exit_code == exit_code,
            r.duration_ms == duration_ms,
    {
        let out = vstd::slice::slice_to_vec(stdout.as_str().as_bytes());
        let err = vstd::slice::slice_to_vec(stderr.as_str().as_bytes());
        ExecResult { stdout: out, stderr: err, exit_code, duration_ms }
    }

    /// The snapshot of a stopped sandbox: the sandbox's own id.
    pub fn snapshot_of(&self, id: &SandboxId) -> (s: SnapshotId)
        ensures
            s.0@ == id.0@,
    {
        SnapshotId(id.0.clone())
    }

    /// Whether a destroy response means success: 404 (already gone) or a
    /// success status.
    pub fn destroyed(&self, status: u16) -> (b: bool)
        ensures
            b == (status == 404 || (200 <= status < 300)),
    {
        status == 404 || (200 <= status && status < 300)
    }
}

/// The error once every attempt was rate-limited: the last one's, or a
/// generic one when there was none.
pub fn retries_exhausted(last: Option<SandboxError>) -> (e: SandboxError)
    ensures
        match last {
            Some(x) => e == x,
            None => vercel_error(e, "request failed after all retries"@),
        },
{
    match last {
        Some(x) => x,
        None => vercel_err("request failed after all retries".to_owned()),
    }
}

} // verus!
