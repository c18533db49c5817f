//! Wiring of the canonical tool suite (filesystem, editing, shell, memory):
//! the configuration, which tools are registered, and how shell commands
//! are handed to a sandbox provider.
use vstd::prelude::*;
use vstd::string::StringSliceAdditionalSpecFns;

use crate::edit::EditFileTool;
use crate::fs::{path_file_name, file_name_of, FsPolicy, GlobTool, GrepTool, ListDirTool, ReadFileTool, WriteFileTool};
use crate::memory::{ReadMemoryTool, WriteMemoryTool};
use crate::sandbox::{pair_views, BashTool, CommandRequest, CommandResult, NetworkPolicy, SandboxPolicy, utf8_lossy, from_utf8_lossy};
use crate::sandbox_types::{ExecRequest, ExecResult, PersistencePolicy, SandboxCapabilitySet, SandboxResources, SandboxSpec};
use crate::text::{push_str, views};
use crate::tools::ToolDefinition;
use crate::local_provider::{lowercase, to_lowercase};

verus! {

/// What the tool suite is configured with.
pub struct PraxisConfig {
    pub workspace_root: String,
    pub shell_enabled: bool,
    pub network: NetworkPolicy,
    /// Variables passed through to commands (a set, in sorted order).
    pub allowed_env: Vec<String>,
    pub max_execution_ms: u64,
    pub max_stdout_bytes: usize,
    pub max_stderr_bytes: usize,
    /// Where memory files live; without it no memory tools are registered.
    pub memory_dir: Option<String>,
}

impl PraxisConfig {
    /// The defaults for a workspace: shell on, no network, `HOME`, `LANG`,
    /// `PATH` and `TERM` passed through, 120 s, 512 KiB per output stream,
    /// no memory directory.
    pub fn new(workspace_root: String) -> (c: Self)
        ensures
            c.workspace_root@ == workspace_root@,
            c.shell_enabled,
            c.network is Disabled,
            views(c.allowed_env@) == seq!["HOME"@, "LANG"@, "PATH"@, "TERM"@],
            c.max_execution_ms == 120_000,
            c.max_stdout_bytes == 512 * 1024,
            c.max_stderr_bytes == 512 * 1024,
            c.memory_dir is None,
    {
        let mut allowed_env: Vec<String> = Vec::new();
        allowed_env.push("HOME".to_owned());
        allowed_env.push("LANG".to_owned());
        allowed_env.push("PATH".to_owned());
        allowed_env.push("TERM".to_owned());
        assert(views(allowed_env@) =~= seq!["HOME"@, "LANG"@, "PATH"@, "TERM"@]);
        PraxisConfig {
            workspace_root,
            shell_enabled: true,
            network: NetworkPolicy::Disabled,
            allowed_env,
            max_execution_ms: 120_000,
            max_stdout_bytes: 512 * 1024,
            max_stderr_bytes: 512 * 1024,
            memory_dir: None,
        }
    }

    /// The same configuration with memory files in `dir`.
    pub fn with_memory_dir(self, dir: String) -> (c: Self)
        ensures
            c.memory_dir matches Some(d) && d@ == dir@,
            c.workspace_root == self.workspace_root,
            c.shell_enabled == self.shell_enabled,
            c.max_execution_ms == self.max_execution_ms,
    {
        let mut c = self;
        c.memory_dir = Some(dir);
        c
    }

    /// The same configuration with the shell disabled.
    pub fn with_shell_disabled(self) -> (c: Self)
        ensures
            !c.shell_enabled,
            c.workspace_root == self.workspace_root,
            c.memory_dir == self.memory_dir,
            c.max_execution_ms == self.max_execution_ms,
    {
        let mut c = self;
        c.shell_enabled = false;
        c
    }

    /// The same configuration with another network policy.
    pub fn with_network(self, policy: NetworkPolicy) -> (c: Self)
        ensures
            c.network == policy,
            c.workspace_root == self.workspace_root,
            c.shell_enabled == self.shell_enabled,
            c.memory_dir == self.memory_dir,
            c.max_execution_ms == self.max_execution_ms,
    {
        let mut c = self;
        c.network = policy;
        c
    }

    /// The same configuration with another time limit.
    pub fn with_max_execution_ms(self, ms: u64) -> (c: Self)
        ensures
            c.max_execution_ms == ms,
            c.workspace_root == self.workspace_root,
            c.shell_enabled == self.shell_enabled,
            c.memory_dir == self.memory_dir,
    {
        let mut c = self;
        c.max_execution_ms = ms;
        c
    }

    /// The workspace boundary for the filesystem tools.
    pub fn fs_policy(&self) -> (p: FsPolicy)
        ensures
            p.workspace_root@ == self.workspace_root@,
    {
        FsPolicy::new(self.workspace_root.clone())
    }

    /// The sandbox policy for the shell tool: the configured workspace,
    /// shell switch, network, variables, time and output limits (with 16
    /// processes and 512 MB of memory).
    pub fn sandbox_policy(&self) -> (p: SandboxPolicy)
        ensures
            p.workspace_root@ == self.workspace_root@,
            p.shell_enabled == self.shell_enabled,
            views(p.allowed_env@) == views(self.allowed_env@),
            p.max_execution_ms == self.max_execution_ms,
            p.max_stdout_bytes == self.max_stdout_bytes,
            p.max_stderr_bytes == self.max_stderr_bytes,
    {
        let mut allowed: Vec<String> = Vec::new();
        let mut i: usize = 0;
        while i < self.allowed_env.len()
            invariant
                i <= self.allowed_env@.len(),
                views(allowed@) == views(self.allowed_env@.take(i as int)),
            decreases self.allowed_env.len() - i,
        {
            let ghost before = allowed@;
            allowed.push(self.allowed_env[i].clone());
            assert(views(allowed@) == views(before).push(self.allowed_env@[i as int]@));
            assert(views(self.allowed_env@.take(i + 1)) == views(self.allowed_env@.take(i as int)).push(self.allowed_env@[i as int]@));
            i = i + 1;
        }
        assert(self.allowed_env@.take(self.allowed_env@.len() as int) == self.allowed_env@);
        let network = match &self.network {
            NetworkPolicy::Disabled => NetworkPolicy::Disabled,
            NetworkPolicy::AllowAll => NetworkPolicy::AllowAll,
            NetworkPolicy::AllowList(hosts) => NetworkPolicy::AllowList(hosts.clone()),
        };
        SandboxPolicy {
            workspace_root: self.workspace_root.clone(),
            shell_enabled: self.shell_enabled,
            network,
            allowed_env: allowed,
            max_execution_ms: self.max_execution_ms,
            max_stdout_bytes: self.max_stdout_bytes,
            max_stderr_bytes: self.max_stderr_bytes,
            max_processes: 16,
            max_memory_mb: 512,
        }
    }
}

/// The names of the registered tools, in registration order; the memory
/// tools come last and only with a memory directory.
pub open spec fn tool_names(include_memory: bool) -> Seq<Seq<char>> {
    seq!["read_file"@, "write_file"@, "list_dir"@, "glob"@, "grep"@, "edit_file"@, "bash"@]
        + if include_memory { seq!["read_memory"@, "write_memory"@] } else { Seq::empty() }
}

/// The names of the registered tools.
pub fn praxis_tool_names(include_memory: bool) -> (v: Vec<&'static str>)
    ensures
        v@.map_values(|s: &'static str| s@) == tool_names(include_memory),
{
    let mut v: Vec<&'static str> = Vec::new();
    v.push("read_file");
    v.push("write_file");
    v.push("list_dir");
    v.push("glob");
    v.push("grep");
    v.push("edit_file");
    v.push("bash");
    if include_memory {
        v.push("read_memory");
        v.push("write_memory");
    }
    assert(v@.map_values(|s: &'static str| s@) =~= tool_names(include_memory));
    v
}

/// The tools registered with an agent, by declaration.
pub struct ToolRegistry {
    pub definitions: Vec<ToolDefinition>,
}

/// The names of a list of declarations.
pub open spec fn definition_names(v: Seq<ToolDefinition>) -> Seq<Seq<char>> {
    v.map_values(|d: ToolDefinition| d.name@)
}

impl ToolRegistry {
    pub fn new() -> (r: Self)
        ensures
            r.definitions@.len() == 0,
    {
        ToolRegistry { definitions: Vec::new() }
    }

    /// Adds a declaration.
    pub fn register(&mut self, d: ToolDefinition)
        ensures
            definition_names(final(self).definitions@) == definition_names(old(self).definitions@).push(d.name@),
    {
        self.definitions.push(d);
        assert(definition_names(self.definitions@) =~= definition_names(old(self).definitions@).push(d.name@));
    }
}

/// Registers the tool suite for `config`: the six filesystem tools, the
/// shell tool (running commands through `runner`) and, with a memory
/// directory, the two memory tools.  Returns how many were registered.
pub fn register_praxis_tools(config: &PraxisConfig, runner: Box<dyn crate::sandbox::CommandRunner>, registry: &mut ToolRegistry) -> (n: usize)
    ensures
        definition_names(final(registry).definitions@)
            == definition_names(old(registry).definitions@) + tool_names(config.memory_dir is Some),
        n == tool_names(config.memory_dir is Some).len(),
{
    let ghost start = definition_names(registry.definitions@);
    registry.register(ReadFileTool::new(config.fs_policy()).definition());
    registry.register(WriteFileTool::new(config.fs_policy()).definition());
    registry.register(ListDirTool::new(config.fs_policy()).definition());
    registry.register(GlobTool::new(config.fs_policy()).definition());
    registry.register(GrepTool::new(config.fs_policy()).definition());
    registry.register(EditFileTool::new(config.fs_policy()).definition());
    registry.register(BashTool::new(config.sandbox_policy(), runner).definition());
    let mut n: usize = 7;
    match &config.memory_dir {
        Some(dir) => {
            registry.register(ReadMemoryTool::new(dir.clone()).definition());
            registry.register(WriteMemoryTool::new(dir.clone()).definition());
            n = 9;
        },
        None => {},
    }
    assert(definition_names(registry.definitions@) =~= start + tool_names(config.memory_dir is Some));
    n
}

/// The sandbox session a set of tools shares: its agent and session.
/// Snapshotting it on pause and destroying it on end are the caller's part.
pub struct SandboxSessionLifecycle {
    pub agent_id: String,
    pub session_id: String,
}

impl SandboxSessionLifecycle {
    pub fn new(agent_id: String, session_id: String) -> (l: Self)
        ensures
            l.agent_id == agent_id,
            l.session_id == session_id,
    {
        SandboxSessionLifecycle { agent_id, session_id }
    }
}

/// Registers the tool suite for one agent session: as
/// `register_praxis_tools`, the shell tool running commands through the
/// session's persistent sandbox (`runner`); returns the count and the
/// session's lifecycle.
pub fn register_praxis_tools_for_session(
    config: &PraxisConfig,
    runner: Box<dyn crate::sandbox::CommandRunner>,
    agent_id: &str,
    session_id: &str,
    registry: &mut ToolRegistry,
) -> (r: (usize, SandboxSessionLifecycle))
    ensures
        definition_names(final(registry).definitions@)
            == definition_names(old(registry).definitions@) + tool_names(config.memory_dir is Some),
        r.0 == tool_names(config.memory_dir is Some).len(),
        r.1.agent_id@ == agent_id@,
        r.1.session_id@ == session_id@,
{
    let n = register_praxis_tools(config, runner, registry);
    (n, SandboxSessionLifecycle::new(agent_id.to_owned(), session_id.to_owned()))
}

/// `a` divided by `b`, rounded up.
pub open spec fn div_ceil(a: u64, b: u64) -> u64 {
    if a % b == 0 { (a / b) as u64 } else { (a / b + 1) as u64 }
}

fn div_ceil_1000(a: u64) -> (r: u64)
    ensures
        r == div_ceil(a, 1000),
{
    if a % 1000 == 0 { a / 1000 } else { a / 1000 + 1 }
}

/// The sandbox for running one command under `policy`: named after the
/// entity, default image, 1 vCPU, 512 MB, 1 GB of disk, the policy's time
/// limit in whole seconds (rounded up), ephemeral, reading and writing
/// files, labelled with the entity.
pub fn derive_sandbox_spec(policy: &SandboxPolicy, entity_id: &str) -> (s: SandboxSpec)
    ensures
        s.name@ == "praxis-"@ + entity_id@,
        s.image is None,
        s.resources.vcpus == 1 && s.resources.memory_mb == 512 && s.resources.disk_mb == 1024,
        s.resources.timeout_secs == div_ceil(policy.max_execution_ms, 1000),
        s.env@.len() == 0,
        s.persistence == PersistencePolicy::Ephemeral,
        s.capabilities == (SandboxCapabilitySet { filesystem_read: true, filesystem_write: true, network_outbound: false, persistence: false, custom_image: false }),
        s.labels@.len() == 1 && s.labels@[0].0@ == "entity_id"@ && s.labels@[0].1@ == entity_id@,
{
    let mut name = "praxis-".to_owned();
    push_str(&mut name, entity_id);
    let mut labels: Vec<(String, String)> = Vec::new();
    labels.push(("entity_id".to_owned(), entity_id.to_owned()));
    SandboxSpec {
        name,
        image: None,
        resources: SandboxResources { vcpus: 1, memory_mb: 512, disk_mb: 1024, timeout_secs: div_ceil_1000(policy.max_execution_ms) },
        env: Vec::new(),
        persistence: PersistencePolicy::Ephemeral,
        capabilities: SandboxCapabilitySet { filesystem_read: true, filesystem_write: true, network_outbound: false, persistence: false, custom_image: false },
        labels,
    }
}

/// The largest character boundary of the UTF-8 bytes `b` at or below `m`.
pub open spec fn floor_boundary(b: Seq<u8>, m: int) -> int
    decreases m,
{
    if m <= 0 {
        0
    } else if vstd::utf8::is_char_boundary(b, m) {
        m
    } else {
        floor_boundary(b, m - 1)
    }
}

/// The output text of a sandboxed command cut at `max` bytes, as UTF-8: the
/// lossy decoding of the bytes, and when that is longer than `max`, its
/// longest prefix of whole characters that fits in `max` bytes.
pub open spec fn cut_output(bytes: Seq<u8>, max: nat) -> Seq<u8> {
    let full = vstd::utf8::encode_utf8(utf8_lossy(bytes));
    if full.len() > max { full.take(floor_boundary(full, max as int)) } else { full }
}

proof fn lemma_floor_boundary(b: Seq<u8>, m: int)
    ensures
        0 <= floor_boundary(b, m) <= (if m < 0 { 0 } else { m }),
    decreases m,
{
    if m > 0 && !vstd::utf8::is_char_boundary(b, m) {
        lemma_floor_boundary(b, m - 1);
    }
}

/// Decodes a command's output (invalid UTF-8 replaced) and cuts it to at
/// most `max_bytes` bytes, at the last character boundary that fits.
pub fn truncate(bytes: &[u8], max_bytes: usize) -> (s: String)
    ensures
        vstd::utf8::encode_utf8(s@) == cut_output(bytes@, max_bytes as nat),
        vstd::utf8::encode_utf8(s@).len() <= max_bytes,
        vstd::utf8::encode_utf8(utf8_lossy(bytes@)).len() <= max_bytes ==> s@ == utf8_lossy(bytes@),
{
    let full = from_utf8_lossy(bytes);
    let fs = full.as_str();
    let ghost fb = vstd::utf8::encode_utf8(full@);
    proof {
        broadcast use vstd::utf8::encode_utf8_valid_utf8, vstd::utf8::encode_utf8_decode_utf8;
        assert(fs.spec_bytes() == fb);
    }
    if fs.as_bytes().len() > max_bytes {
        let mut k: usize = max_bytes;
        while k > 0 && !fs.is_char_boundary(k)
            invariant
                k <= max_bytes,
                fs.spec_bytes() == fb,
                floor_boundary(fb, k as int) == floor_boundary(fb, max_bytes as int),
            decreases k,
        {
            k = k - 1;
        }
        proof {
            lemma_floor_boundary(fb, max_bytes as int);
            if k > 0 {
                assert(vstd::utf8::is_char_boundary(fb, k as int));
            } else {
                assert(vstd::utf8::is_char_boundary(fb, 0));
            }
        }
        let (head, _) = fs.split_at(k);
        let r = head.to_owned();
        proof {
            broadcast use vstd::utf8::encode_utf8_valid_utf8, vstd::utf8::encode_utf8_decode_utf8;
        }
        r
    } else {
        full
    }
}

/// The sandbox request for a shell command under `policy`: the executable
/// then its arguments, in the request's working directory (the workspace
/// root when it names none), with its variables and the policy's time limit
/// in whole seconds; refused when the policy disables the shell.  The
/// second part names the sandbox: the working directory's last component,
/// or `praxis`.
pub fn exec_request_for(policy: &SandboxPolicy, request: &CommandRequest) -> (r: Result<(ExecRequest, String), String>)
    ensures
        !policy.shell_enabled ==> (r matches Err(m) && m@ == "shell execution is disabled by policy"@),
        policy.shell_enabled ==> (r matches Ok((x, entity))
            && views(x.command@) == seq![request.executable@] + views(request.args@)
            && (x.working_dir matches Some(d) && d@ == (match request.cwd { Some(c) => c@, None => policy.workspace_root@ }))
            && pair_views(x.env@) == pair_views(request.env@)
            && x.timeout_secs == Some(div_ceil(policy.max_execution_ms, 1000))
            && x.stdin is None
            && entity@ == (match path_file_name(match request.cwd { Some(c) => c@, None => policy.workspace_root@ }) {
                Some(n) => n,
                None => "praxis"@,
            })),
{
    if !policy.shell_enabled {
        return Err("shell execution is disabled by policy".to_owned());
    }
    let mut command: Vec<String> = Vec::new();
    command.push(request.executable.clone());
    let mut i: usize = 0;
    while i < request.args.len()
        invariant
            i <= request.args@.len(),
            views(command@) == seq![request.executable@] + views(request.args@.take(i as int)),
        decreases request.args.len() - i,
    {
        let ghost before = command@;
        command.push(request.args[i].clone());
        assert(views(command@) == views(before).push(request.args@[i as int]@));
        assert(views(request.args@.take(i + 1)) == views(request.args@.take(i as int)).push(request.args@[i as int]@));
        i = i + 1;
    }
    assert(request.args@.take(request.args@.len() as int) == request.args@);
    let cwd = match &request.cwd {
        Some(c) => c.clone(),
        None => policy.workspace_root.clone(),
    };
    let mut env: Vec<(String, String)> = Vec::new();
    let mut k: usize = 0;
    while k < request.env.len()
        invariant
            k <= request.env@.len(),
            pair_views(env@) == pair_views(request.env@.take(k as int)),
        decreases request.env.len() - k,
    {
        let ghost before = env@;
        env.push((request.env[k].0.clone(), request.env[k].1.clone()));
        assert(pair_views(env@) == pair_views(before).push((request.env@[k as int].0@, request.env@[k as int].1@)));
        assert(request.env@.take(k + 1) == request.env@.take(k as int).push(request.env@[k as int]));
        k = k + 1;
    }
    assert(request.env@.take(request.env@.len() as int) == request.env@);
    let entity = match file_name_of(cwd.as_str()) {
        Some(n) => n,
        None => "praxis".to_owned(),
    };
    Ok((ExecRequest { command, working_dir: Some(cwd), env, timeout_secs: Some(div_ceil_1000(policy.max_execution_ms)), stdin: None }, entity))
}

/// What a finished sandboxed command is reported as: its exit code and its
/// outputs decoded and cut at the policy's limits.
pub fn finish_sandboxed(policy: &SandboxPolicy, result: &ExecResult) -> (c: CommandResult)
    ensures
        c.exit_code == result.exit_code,
        vstd::utf8::encode_utf8(c.stdout@) == cut_output(result.stdout@, policy.max_stdout_bytes as nat),
        vstd::utf8::encode_utf8(c.stderr@) == cut_output(result.stderr@, policy.max_stderr_bytes as nat),
{
    let stdout = truncate(result.stdout.as_slice(), policy.max_stdout_bytes);
    let stderr = truncate(result.stderr.as_slice(), policy.max_stderr_bytes);
    CommandResult { exit_code: result.exit_code, stdout, stderr }
}

/// The sandbox backend `ARCAN_SANDBOX_PROVIDER` selects.
#[derive(Clone, Copy, PartialEq, Eq, Structural)]
pub enum ProviderChoice {
    /// Docker or nsjail, falling back to bubblewrap when neither is there.
    Local,
    /// Linux namespaces through bubblewrap (the default).
    Bubblewrap,
}

/// Reads `ARCAN_SANDBOX_PROVIDER` (empty when unset): `local` in any case
/// selects the local backend, anything else bubblewrap.
pub fn select_provider(name: &str) -> (c: ProviderChoice)
    ensures
        c == (if lowercase(name@) == "local"@ { ProviderChoice::Local } else { ProviderChoice::Bubblewrap }),
{
    let lower = to_lowercase(name);
    if crate::text::str_eq(lower.as_str(), "local") {
        ProviderChoice::Local
    } else {
        ProviderChoice::Bubblewrap
    }
}

} // verus!
