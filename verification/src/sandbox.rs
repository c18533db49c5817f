//! Sandbox policy for shell commands and the decisions of the local runner.
//!
//! Spawning, waiting and reading pipes are the caller's part; this module
//! decides what may run, with which environment and working directory, and
//! what a finished (or timed out) process is reported as.
use vstd::prelude::*;

use crate::fs::{join, join_path, path_starts_with, starts_with_components, outcome_view};
use crate::tools::{annotations, declares, make_definition, ToolDefinition};
use crate::text::{contains_str, push_str, seq_has, u64_to_decimal, decimal};

verus! {

/// Outbound network access granted to sandboxed commands.
pub enum NetworkPolicy {
    Disabled,
    AllowAll,
    AllowList(Vec<String>),
}

/// The limits a sandboxed command runs under.
pub struct SandboxPolicy {
    pub workspace_root: String,
    pub shell_enabled: bool,
    pub network: NetworkPolicy,
    /// Names of the request variables passed through (a set: no name twice).
    pub allowed_env: Vec<String>,
    pub max_execution_ms: u64,
    pub max_stdout_bytes: usize,
    pub max_stderr_bytes: usize,
    pub max_processes: u16,
    pub max_memory_mb: u32,
}

/// No two strings of `v` are equal.
pub open spec fn distinct_strings(v: Seq<String>) -> bool {
    forall|i: int, j: int| 0 <= i < j < v.len() ==> #[trigger] v[i]@ != #[trigger] v[j]@
}

/// No two pairs of `v` have equal keys.
pub open spec fn distinct_keys(v: Seq<(String, String)>) -> bool {
    forall|i: int, j: int| 0 <= i < j < v.len() ==> #[trigger] v[i].0@ != #[trigger] v[j].0@
}

impl SandboxPolicy {
    /// The allowed variable names form a set.
    pub open spec fn wf(&self) -> bool {
        distinct_strings(self.allowed_env@)
    }

    /// The most restrictive policy: no shell, no network, no variables,
    /// 30 s, 512 KiB of output per stream, 16 processes, 512 MB.
    pub fn locked_down(workspace_root: String) -> (p: Self)
        ensures
            p.wf(),
            p.workspace_root@ == workspace_root@,
            !p.shell_enabled,
            p.network is Disabled,
            p.allowed_env@.len() == 0,
            p.max_execution_ms == 30_000,
            p.max_stdout_bytes == 512 * 1024,
            p.max_stderr_bytes == 512 * 1024,
            p.max_processes == 16,
            p.max_memory_mb == 512,
    {
        SandboxPolicy {
            workspace_root,
            shell_enabled: false,
            network: NetworkPolicy::Disabled,
            allowed_env: Vec::new(),
            max_execution_ms: 30_000,
            max_stdout_bytes: 512 * 1024,
            max_stderr_bytes: 512 * 1024,
            max_processes: 16,
            max_memory_mb: 512,
        }
    }
}

/// A command to run: the executable, its arguments, an optional working
/// directory and the variables it asks for (keys distinct).
pub struct CommandRequest {
    pub executable: String,
    pub args: Vec<String>,
    pub cwd: Option<String>,
    pub env: Vec<(String, String)>,
}

/// What a finished command reported.
pub struct CommandResult {
    pub exit_code: i32,
    pub stdout: String,
    pub stderr: String,
}

/// Why a command was not run or did not finish.
pub enum SandboxError {
    ShellDisabled,
    PolicyViolation(String),
    Runner(String),
    Timeout(u64),
    Io(String),
}

impl SandboxError {
    /// The message shown for this error.
    pub open spec fn message(&self) -> Seq<char> {
        match self {
            SandboxError::ShellDisabled => "shell execution is disabled by policy"@,
            SandboxError::PolicyViolation(s) => "command violates sandbox policy: "@ + s@,
            SandboxError::Runner(s) => "command runner failed: "@ + s@,
            SandboxError::Timeout(ms) => "command timed out after "@ + decimal(*ms as nat) + "ms"@,
            SandboxError::Io(s) => "IO error: "@ + s@,
        }
    }

    /// Renders the error as its message.
    pub fn to_string(&self) -> (s: String)
        ensures
            s@ == self.message(),
    {
        match self {
            SandboxError::ShellDisabled => "shell execution is disabled by policy".to_owned(),
            SandboxError::PolicyViolation(m) => {
                let mut s = "command violates sandbox policy: ".to_owned();
                push_str(&mut s, m.as_str());
                s
            },
            SandboxError::Runner(m) => {
                let mut s = "command runner failed: ".to_owned();
                push_str(&mut s, m.as_str());
                s
            },
            SandboxError::Timeout(ms) => {
                let mut s = "command timed out after ".to_owned();
                let d = u64_to_decimal(*ms);
                push_str(&mut s, d.as_str());
                push_str(&mut s, "ms");
                s
            },
            SandboxError::Io(m) => {
                let mut s = "IO error: ".to_owned();
                push_str(&mut s, m.as_str());
                s
            },
        }
    }
}

/// Something that runs a command under a policy.
pub trait CommandRunner {
    fn run(&self, policy: &SandboxPolicy, request: &CommandRequest) -> Result<CommandResult, SandboxError>;
}

/// Lossy UTF-8 decoding of `bytes`: invalid sequences become U+FFFD.
pub uninterp spec fn utf8_lossy(bytes: Seq<u8>) -> Seq<char>;

/// `String::from_utf8_lossy` of std.  Trusted: the text is named
/// `utf8_lossy`; for valid UTF-8 it is the decoded text, as std documents.
/// How invalid sequences are replaced is not stated here.
#[verifier::external_body]
pub(crate) fn from_utf8_lossy(bytes: &[u8]) -> (s: String)
    ensures
        s@ == utf8_lossy(bytes@),
        vstd::utf8::valid_utf8(bytes@) ==> s@ == vstd::utf8::decode_utf8(bytes@),
{
    String::from_utf8_lossy(bytes).into_owned()
}

/// The marker appended to an output cut at `max` of `total` bytes.
pub open spec fn truncation_marker(total: nat, max: nat) -> Seq<char> {
    "\n\n... [truncated: "@ + decimal(total) + " bytes total, showing first "@ + decimal(max) + "]"@
}

/// Captured output as reported: decoded whole when within `max` bytes,
/// otherwise its first `max` bytes decoded and followed by the marker.
pub open spec fn truncated_output(raw: Seq<u8>, max: nat) -> Seq<char> {
    if raw.len() <= max {
        utf8_lossy(raw)
    } else {
        utf8_lossy(raw.take(max as int)) + truncation_marker(raw.len(), max)
    }
}

/// The requested variables whose names are in `allowed`, in request order.
pub open spec fn allowed_pairs(allowed: Seq<String>, requested: Seq<(String, String)>) -> Seq<(Seq<char>, Seq<char>)>
    decreases requested.len(),
{
    if requested.len() == 0 {
        Seq::empty()
    } else {
        let kv = requested.last();
        let rest = allowed_pairs(allowed, requested.drop_last());
        if seq_has(allowed, kv.0@) {
            rest.push((kv.0@, kv.1@))
        } else {
            rest
        }
    }
}

/// The variables a command gets: the requested ones whose names the policy
/// allows, in request order, then `PATH` (from the caller's environment) and
/// `TERM`.  Applied in order, a later entry overrides an earlier one.
pub open spec fn command_env_spec(allowed: Seq<String>, requested: Seq<(String, String)>, path: Seq<char>) -> Seq<(Seq<char>, Seq<char>)> {
    allowed_pairs(allowed, requested) + seq![("PATH"@, path), ("TERM"@, "xterm-256color"@)]
}

/// The views of a list of variable pairs.
pub open spec fn pair_views(v: Seq<(String, String)>) -> Seq<(Seq<char>, Seq<char>)> {
    v.map_values(|kv: (String, String)| (kv.0@, kv.1@))
}

/// How waiting on a spawned command ended.
pub enum WaitOutcome {
    /// It exited; the exit code is absent when a signal ended it.
    Exited(Option<i32>),
    /// The time limit passed first (the process was then killed).
    TimedOut,
    /// Waiting failed with this error text.
    WaitFailed(String),
}

/// Runs commands as local child processes.
pub struct LocalCommandRunner;

impl LocalCommandRunner {
    /// Refuses every command when the policy disables the shell.
    pub fn preflight(policy: &SandboxPolicy) -> (r: Result<(), SandboxError>)
        ensures
            policy.shell_enabled <==> r is Ok,
            !policy.shell_enabled ==> r matches Err(SandboxError::ShellDisabled),
    {
        if !policy.shell_enabled {
            Err(SandboxError::ShellDisabled)
        } else {
            Ok(())
        }
    }

    /// The working directory for a request's `cwd`: `canonical` is the
    /// outcome of canonicalising `cwd` (joined onto the workspace root when
    /// relative), `canonical_root` that of the root.  It must lie under the
    /// root.
    pub fn validate_cwd(
        policy: &SandboxPolicy,
        cwd: &str,
        canonical: &Result<String, String>,
        canonical_root: &Result<String, String>,
    ) -> (r: Result<String, SandboxError>)
        ensures
            match outcome_view(*canonical) {
                Err(e) => r matches Err(SandboxError::Io(m)) && m@ == e,
                Ok(c) => match outcome_view(*canonical_root) {
                    Err(e) => r matches Err(SandboxError::Io(m)) && m@ == e,
                    Ok(root) => if path_starts_with(c, root) {
                        r matches Ok(s) && s@ == c
                    } else {
                        r matches Err(SandboxError::PolicyViolation(m))
                            && m@ == "cwd '"@ + c + "' escapes workspace root '"@ + root + "'"@
                    },
                },
            },
    {
        match canonical {
            Err(e) => Err(SandboxError::Io(e.clone())),
            Ok(c) => match canonical_root {
                Err(e) => Err(SandboxError::Io(e.clone())),
                Ok(root) => {
                    if starts_with_components(c.as_str(), root.as_str()) {
                        Ok(c.clone())
                    } else {
                        let mut m = "cwd '".to_owned();
                        push_str(&mut m, c.as_str());
                        push_str(&mut m, "' escapes workspace root '");
                        push_str(&mut m, root.as_str());
                        push_str(&mut m, "'");
                        Err(SandboxError::PolicyViolation(m))
                    }
                },
            },
        }
    }

    /// The path to canonicalise for a request's `cwd`: itself when absolute,
    /// otherwise joined onto the workspace root.
    pub fn cwd_to_resolve(policy: &SandboxPolicy, cwd: &str) -> (r: String)
        ensures
            r@ == join_path(policy.workspace_root@, cwd@),
    {
        join(policy.workspace_root.as_str(), cwd)
    }

    /// Cuts captured output at `max_bytes`, appending a marker that gives
    /// the full size when anything was cut.
    pub fn truncate_output(raw: &[u8], max_bytes: usize) -> (s: String)
        ensures
            s@ == truncated_output(raw@, max_bytes as nat),
            raw@.len() <= max_bytes && vstd::utf8::valid_utf8(raw@) ==> s@ == vstd::utf8::decode_utf8(raw@),
            raw@.len() > max_bytes && vstd::utf8::valid_utf8(raw@.take(max_bytes as int)) ==> s@
                == vstd::utf8::decode_utf8(raw@.take(max_bytes as int)) + truncation_marker(raw@.len(), max_bytes as nat),
    {
        if raw.len() <= max_bytes {
            from_utf8_lossy(raw)
        } else {
            let mut head: Vec<u8> = Vec::new();
            let mut i: usize = 0;
            while i < max_bytes
                invariant
                    i <= max_bytes < raw@.len(),
                    head@ == raw@.take(i as int),
                decreases max_bytes - i,
            {
                head.push(raw[i]);
                assert(raw@.take(i + 1) == raw@.take(i as int).push(raw@[i as int]));
                i = i + 1;
            }
            let mut s = from_utf8_lossy(head.as_slice());
            push_str(&mut s, "\n\n... [truncated: ");
            let total = u64_to_decimal(raw.len() as u64);
            push_str(&mut s, total.as_str());
            push_str(&mut s, " bytes total, showing first ");
            let shown = u64_to_decimal(max_bytes as u64);
            push_str(&mut s, shown.as_str());
            push_str(&mut s, "]");
            s
        }
    }

    /// The environment for a request: the allowed requested variables, then
    /// `PATH` set to `path` and `TERM`.
    pub fn command_env(policy: &SandboxPolicy, request: &CommandRequest, path: &str) -> (env: Vec<(String, String)>)
        ensures
            pair_views(env@) == command_env_spec(policy.allowed_env@, request.env@, path@),
    {
        let mut env: Vec<(String, String)> = Vec::new();
        let mut i: usize = 0;
        while i < request.env.len()
            invariant
                i <= request.env@.len(),
                pair_views(env@) == allowed_pairs(policy.allowed_env@, request.env@.take(i as int)),
            decreases request.env.len() - i,
        {
            let ghost before = request.env@.take(i as int);
            assert(request.env@.take(i + 1) == before.push(request.env@[i as int]));
            assert(request.env@.take(i + 1).drop_last() == before);
            let k = &request.env[i].0;
            let v = &request.env[i].1;
            let ghost old_env = env@;
            if contains_str(&policy.allowed_env, k.as_str()) {
                env.push((k.clone(), v.clone()));
                assert(pair_views(env@) == pair_views(old_env).push((k@, v@)));
            }
            i = i + 1;
        }
        assert(request.env@.take(request.env@.len() as int) == request.env@);
        let ghost filtered = env@;
        env.push(("PATH".to_owned(), path.to_owned()));
        env.push(("TERM".to_owned(), "xterm-256color".to_owned()));
        assert(pair_views(env@) == pair_views(filtered) + seq![("PATH"@, path@), ("TERM"@, "xterm-256color"@)]);
        env
    }

    /// What a spawned command is reported as: its code (-1 without one) and
    /// its outputs cut at the policy's limits; `Timeout` with the limit when
    /// it ran too long; `Io` when waiting failed.
    pub fn finish(policy: &SandboxPolicy, outcome: WaitOutcome, stdout_raw: &[u8], stderr_raw: &[u8]) -> (r: Result<CommandResult, SandboxError>)
        ensures
            match outcome {
                WaitOutcome::Exited(code) => r matches Ok(res)
                    && res.exit_code == (match code { Some(c) => c, None => -1i32 })
                    && res.stdout@ == truncated_output(stdout_raw@, policy.max_stdout_bytes as nat)
                    && res.stderr@ == truncated_output(stderr_raw@, policy.max_stderr_bytes as nat),
                WaitOutcome::TimedOut => r matches Err(SandboxError::Timeout(ms)) && ms == policy.max_execution_ms,
                WaitOutcome::WaitFailed(e) => r matches Err(SandboxError::Io(m)) && m@ == e@,
            },
    {
        match outcome {
            WaitOutcome::Exited(code) => {
                let exit_code = match code {
                    Some(c) => c,
                    None => -1i32,
                };
                Ok(CommandResult {
                    exit_code,
                    stdout: Self::truncate_output(stdout_raw, policy.max_stdout_bytes),
                    stderr: Self::truncate_output(stderr_raw, policy.max_stderr_bytes),
                })
            },
            WaitOutcome::TimedOut => Err(SandboxError::Timeout(policy.max_execution_ms)),
            WaitOutcome::WaitFailed(e) => Err(SandboxError::Io(e)),
        }
    }
}

/// The request the bash tool makes for a command line: `/bin/bash -c <line>`,
/// in `cwd` when given, with no variables.
pub open spec fn bash_request_spec(r: CommandRequest, command: Seq<char>, cwd: Option<Seq<char>>) -> bool {
    &&& r.executable@ == "/bin/bash"@
    &&& r.args@.len() == 2
    &&& r.args@[0]@ == "-c"@
    &&& r.args@[1]@ == command
    &&& match cwd {
        Some(c) => r.cwd matches Some(d) && d@ == c,
        None => r.cwd is None,
    }
    &&& r.env@.len() == 0
}

/// Runs shell command lines through a command runner under a policy.
pub struct BashTool {
    pub policy: SandboxPolicy,
    pub runner: Box<dyn CommandRunner>,
}

impl BashTool {
    pub fn new(policy: SandboxPolicy, runner: Box<dyn CommandRunner>) -> (t: Self)
        ensures
            t.policy == policy,
    {
        BashTool { policy, runner }
    }

    pub fn definition(&self) -> (d: ToolDefinition)
        ensures
            declares(d, "bash"@, "Executes a bash command in the sandbox."@,
                "{\"type\":\"object\",\"properties\":{\"command\":{\"type\":\"string\",\"description\":\"The command line to execute\"},\"cwd\":{\"type\":\"string\",\"description\":\"Working directory (optional)\"}},\"required\":[\"command\"]}"@,
                "Bash Command"@, (false, true, false, true, true), "shell"@, ("shell"@, "exec"@), 60),
    {
        make_definition("bash", "Executes a bash command in the sandbox.",
            "{\"type\":\"object\",\"properties\":{\"command\":{\"type\":\"string\",\"description\":\"The command line to execute\"},\"cwd\":{\"type\":\"string\",\"description\":\"Working directory (optional)\"}},\"required\":[\"command\"]}",
            "Bash Command", annotations(false, true, false, true, true), "shell", "shell", "exec", 60)
    }

    /// The request for `command`, run in `cwd` when given.
    pub fn request_for(command: &str, cwd: Option<&str>) -> (r: CommandRequest)
        ensures
            bash_request_spec(r, command@, match cwd { Some(c) => Some(c@), None => None }),
    {
        let mut args: Vec<String> = Vec::new();
        args.push("-c".to_owned());
        args.push(command.to_owned());
        let cwd = match cwd {
            Some(c) => Some(c.to_owned()),
            None => None,
        };
        CommandRequest { executable: "/bin/bash".to_owned(), args, cwd, env: Vec::new() }
    }

    /// What the tool reports for a runner's outcome: the result as it is,
    /// or the error's message.
    pub fn report(outcome: Result<CommandResult, SandboxError>) -> (r: Result<CommandResult, String>)
        ensures
            match outcome {
                Ok(res) => r == Ok::<CommandResult, String>(res),
                Err(e) => r matches Err(m) && m@ == e.message(),
            },
    {
        match outcome {
            Ok(res) => Ok(res),
            Err(e) => Err(e.to_string()),
        }
    }

    /// Runs `command` (as `request_for` builds it) through the runner under
    /// the tool's policy; a runner error becomes its message.  What the
    /// runner returns is its own: whatever it is, the report is `report` of
    /// it.
    pub fn run_command(&self, command: &str, cwd: Option<&str>) -> (r: Result<CommandResult, String>)
        ensures
            r is Ok || exists|e: SandboxError| #[trigger] e.message() == r->Err_0@,
    {
        let request = Self::request_for(command, cwd);
        let outcome = self.runner.run(&self.policy, &request);
        let ghost o = outcome;
        let r = Self::report(outcome);
        proof {
            if let Err(e) = o {
                assert(e.message() == r->Err_0@);
            }
        }
        r
    }
}

} // verus!
