//! The bubblewrap sandbox provider: one workspace directory per sandbox,
//! commands run under `bwrap` namespace isolation when the binary exists and
//! as plain subprocesses otherwise, snapshots as tarballs.
//!
//! Creating directories, spawning and waiting are the caller's part; this
//! module decides paths, command lines and how outcomes are reported.
use vstd::prelude::*;

use crate::fs::{join, join_path};
use crate::json::{json_object, json_object_text, json_string_field, key_unique, members_view, JsonScalar, JsonScalarV};
use crate::sandbox_types::{provider_error, ExecRequest, SandboxCapabilitySet, SandboxError, SandboxHandle, SandboxId, SandboxInfo, SandboxStatus};
use crate::text::{push_str, views};

verus! {

/// A command line to spawn: program, arguments, working directory (when
/// set) and extra variables, applied in order.
pub struct CommandLine {
    pub program: String,
    pub args: Vec<String>,
    pub current_dir: Option<String>,
    pub env: Vec<(String, String)>,
}

/// Pushes `s` onto `v`.
fn push_arg(v: &mut Vec<String>, s: &str)
    ensures
        views(final(v)@) == views(old(v)@).push(s@),
{
    v.push(s.to_owned());
    assert(views(v@) =~= views(old(v)@).push(s@));
}

/// Pushes every string of `items` onto `v`.
fn push_args(v: &mut Vec<String>, items: &Vec<String>)
    ensures
        views(final(v)@) == views(old(v)@) + views(items@),
{
    let mut i: usize = 0;
    while i < items.len()
        invariant
            i <= items@.len(),
            views(v@) == views(old(v)@) + views(items@.take(i as int)),
        decreases items.len() - i,
    {
        push_arg(v, items[i].as_str());
        assert(views(items@.take(i + 1)) == views(items@.take(i as int)).push(items@[i as int]@));
        i = i + 1;
    }
    assert(items@.take(items@.len() as int) == items@);
}

/// Copies a list of variable pairs.
fn copy_env(env: &Vec<(String, String)>) -> (r: Vec<(String, String)>)
    ensures
        r@.len() == env@.len(),
        forall|i: int| 0 <= i < env@.len() ==> #[trigger] r@[i].0@ == env@[i].0@ && r@[i].1@ == env@[i].1@,
{
    let mut r: Vec<(String, String)> = Vec::new();
    let mut i: usize = 0;
    while i < env.len()
        invariant
            i <= env@.len(),
            r@.len() == i,
            forall|k: int| 0 <= k < i ==> #[trigger] r@[k].0@ == env@[k].0@ && r@[k].1@ == env@[k].1@,
        decreases env.len() - i,
    {
        let k = env[i].0.clone();
        let v = env[i].1.clone();
        let ghost before = r@;
        r.push((k, v));
        assert forall|j: int| 0 <= j < i + 1 implies #[trigger] r@[j].0@ == env@[j].0@ && r@[j].1@ == env@[j].1@ by {
            if j < i {
                assert(r@[j] == before[j]);
            }
        }
        i = i + 1;
    }
    r
}

/// The `bwrap` arguments that confine a command to `workspace`: the
/// workspace mounted at `/workspace`, fresh `/proc` and `/dev`, read-only
/// system directories (`/lib64` only where it exists), no network, a new
/// session.
pub open spec fn bwrap_prefix(workspace: Seq<char>, lib64: bool) -> Seq<Seq<char>> {
    seq!["--bind"@, workspace, "/workspace"@, "--proc"@, "/proc"@, "--dev"@, "/dev"@,
        "--ro-bind"@, "/usr"@, "/usr"@, "--ro-bind"@, "/lib"@, "/lib"@]
        + (if lib64 { seq!["--ro-bind"@, "/lib64"@, "/lib64"@] } else { Seq::empty() })
        + seq!["--ro-bind"@, "/bin"@, "/bin"@, "--unshare-net"@, "--new-session"@, "--"@]
}

/// The text `format!("{:?}", Path::new(p))` gives: the path quoted, with
/// the characters `Debug` escapes escaped.
pub uninterp spec fn path_debug_text(p: Seq<char>) -> Seq<char>;

/// `Debug` of `std::path::Path`.  Trusted: the text is named
/// `path_debug_text`.
#[verifier::external_body]
fn path_debug(p: &str) -> (r: String)
    ensures
        r@ == path_debug_text(p@),
{
    format!("{:?}", std::path::Path::new(p))
}

/// How unpacking a snapshot tarball went: `tar` could not be started (with
/// the error's text), or it exited, successfully or not (with the exit
/// status's text).
pub enum TarOutcome {
    SpawnFailed(String),
    Exited { success: bool, status: String },
}

/// The sandbox provider built on bubblewrap.
pub struct BubblewrapProvider {
    pub workspace_root: String,
    pub use_bwrap: bool,
}

impl BubblewrapProvider {
    /// A provider rooted at `workspace_root`; `bwrap_found` says whether a
    /// `bwrap` binary is on the search path.
    pub fn new(workspace_root: String, bwrap_found: bool) -> (p: Self)
        ensures
            p.workspace_root@ == workspace_root@,
            p.use_bwrap == bwrap_found,
    {
        BubblewrapProvider { workspace_root, use_bwrap: bwrap_found }
    }

    /// The provider's name.
    pub fn name(&self) -> (n: &'static str)
        ensures
            n@ == "bubblewrap"@,
    {
        "bubblewrap"
    }

    /// Files can be read and written, and sandboxes persist.
    pub fn capabilities(&self) -> (c: SandboxCapabilitySet)
        ensures
            c == (SandboxCapabilitySet { filesystem_read: true, filesystem_write: true, network_outbound: false, persistence: true, custom_image: false }),
    {
        SandboxCapabilitySet { filesystem_read: true, filesystem_write: true, network_outbound: false, persistence: true, custom_image: false }
    }

    /// A sandbox's workspace directory: the root joined with its id.
    pub fn workspace_dir(&self, id: &SandboxId) -> (p: String)
        ensures
            p@ == join_path(self.workspace_root@, id.0@),
    {
        join(self.workspace_root.as_str(), id.0.as_str())
    }

    /// A sandbox's snapshot tarball: `<id>.tar.gz` under the root.
    pub fn snapshot_path(&self, id: &SandboxId) -> (p: String)
        ensures
            p@ == join_path(self.workspace_root@, id.0@ + ".tar.gz"@),
    {
        let mut name = id.0.clone();
        push_str(&mut name, ".tar.gz");
        join(self.workspace_root.as_str(), name.as_str())
    }

    /// The metadata of sandbox `id`: the JSON object of its workspace
    /// directory and whether commands run under bwrap.
    pub open spec fn metadata_json(&self, id: Seq<char>) -> Seq<char> {
        json_object_text(seq![
            ("workspace"@, JsonScalarV::Str(join_path(self.workspace_root@, id))),
            ("use_bwrap"@, JsonScalarV::Bool(self.use_bwrap)),
        ])
    }

    /// `h` is the running sandbox `id` of this provider, named `name` and
    /// stamped `created_at`.
    pub open spec fn is_handle(&self, h: SandboxHandle, id: Seq<char>, name: Seq<char>, created_at: Seq<char>) -> bool {
        &&& h.id.0@ == id
        &&& h.name@ == name
        &&& h.status is Running
        &&& h.created_at@ == created_at
        &&& h.provider@ == "bubblewrap"@
        &&& h.metadata@ == self.metadata_json(id)
    }

    /// The handle of the running sandbox `id`, named `name`, stamped
    /// `created_at`; its metadata's `workspace` reads back as the sandbox's
    /// workspace directory.
    pub fn handle(&self, id: &SandboxId, name: String, created_at: String) -> (h: SandboxHandle)
        ensures
            self.is_handle(h, id.0@, name@, created_at@),
            json_string_field(h.metadata@, "workspace"@) == Some(join_path(self.workspace_root@, id.0@)),
    {
        let mut members: Vec<(String, JsonScalar)> = Vec::new();
        members.push(("workspace".to_owned(), JsonScalar::Str(self.workspace_dir(id))));
        members.push(("use_bwrap".to_owned(), JsonScalar::Bool(self.use_bwrap)));
        let metadata = json_object(&members);
        proof {
            let m = members_view(members@);
            assert(m == seq![
                ("workspace"@, JsonScalarV::Str(join_path(self.workspace_root@, id.0@))),
                ("use_bwrap"@, JsonScalarV::Bool(self.use_bwrap)),
            ]);
            reveal_strlit("workspace");
            reveal_strlit("use_bwrap");
            assert("workspace"@ != "use_bwrap"@) by { assert("workspace"@[0] != "use_bwrap"@[0]); }
            assert(key_unique(m, 0));
            assert(crate::json::reads_back(metadata@, m[0]));
        }
        SandboxHandle {
            id: SandboxId(id.0.clone()),
            name,
            status: SandboxStatus::Running,
            created_at,
            provider: "bubblewrap".to_owned(),
            metadata,
        }
    }

    /// Finishes resuming sandbox `id`: `unpacked` is how unpacking its
    /// tarball went, `None` where its workspace was there and nothing was
    /// unpacked.  A resumed sandbox is running under its own id as name.
    pub fn resume_finish(&self, id: &SandboxId, unpacked: Option<TarOutcome>, created_at: String) -> (r: Result<SandboxHandle, SandboxError>)
        ensures
            match unpacked {
                None => r matches Ok(h) && self.is_handle(h, id.0@, id.0@, created_at@),
                Some(TarOutcome::Exited { success: true, .. }) => r matches Ok(h) && self.is_handle(h, id.0@, id.0@, created_at@),
                Some(TarOutcome::SpawnFailed(e)) => r matches Err(SandboxError::ProviderError { provider: p, message: m })
                    && p@ == "bubblewrap"@ && m@ == "tar extract failed: "@ + e@,
                Some(TarOutcome::Exited { success: false, status }) => r matches Err(SandboxError::ProviderError { provider: p, message: m })
                    && p@ == "bubblewrap"@
                    && m@ == "tar exited with "@ + status@ + " while extracting "@ + path_debug_text(join_path(self.workspace_root@, id.0@ + ".tar.gz"@)),
            },
    {
        match unpacked {
            Some(TarOutcome::SpawnFailed(e)) => {
                let mut m = "tar extract failed: ".to_owned();
                push_str(&mut m, e.as_str());
                Err(provider_error("bubblewrap", m))
            },
            Some(TarOutcome::Exited { success: false, status }) => {
                let mut m = "tar exited with ".to_owned();
                push_str(&mut m, status.as_str());
                push_str(&mut m, " while extracting ");
                let tarball = self.snapshot_path(id);
                let shown = path_debug(tarball.as_str());
                push_str(&mut m, shown.as_str());
                Err(provider_error("bubblewrap", m))
            },
            _ => Ok(self.handle(id, id.0.clone(), created_at)),
        }
    }

    /// Refuses to run in a sandbox whose workspace is gone, or an empty
    /// command.
    pub fn run_preflight(&self, id: &SandboxId, workspace_exists: bool, req: &ExecRequest) -> (r: Result<(), SandboxError>)
        ensures
            !workspace_exists ==> (r matches Err(SandboxError::NotFound(x)) && x.0@ == id.0@),
            workspace_exists && req.command@.len() == 0 ==> (r matches Err(SandboxError::ProviderError { provider: p, message: m })
                && p@ == "bubblewrap"@ && m@ == "command vector is empty"@),
            workspace_exists && req.command@.len() > 0 ==> r is Ok,
    {
        if !workspace_exists {
            return Err(SandboxError::NotFound(SandboxId(id.0.clone())));
        }
        if req.command.len() == 0 {
            return Err(provider_error("bubblewrap", "command vector is empty".to_owned()));
        }
        Ok(())
    }

    /// The command line for a request in `workspace`.  Under bwrap: `bwrap`
    /// with the confining arguments and then the command, in the request's
    /// working directory when it names one.  Without it: the command itself,
    /// in the request's working directory or else the workspace.  Either
    /// way with the request's variables.  `lib64` says whether `/lib64`
    /// exists.
    pub fn build_command(workspace: &str, req: &ExecRequest, use_bwrap: bool, lib64: bool) -> (c: CommandLine)
        requires
            req.command@.len() > 0,
        ensures
            c.env@.len() == req.env@.len(),
            forall|i: int| 0 <= i < req.env@.len() ==> #[trigger] c.env@[i].0@ == req.env@[i].0@ && c.env@[i].1@ == req.env@[i].1@,
            use_bwrap ==> c.program@ == "bwrap"@
                && views(c.args@) == bwrap_prefix(workspace@, lib64) + views(req.command@)
                && match req.working_dir { Some(d) => c.current_dir matches Some(x) && x@ == d@, None => c.current_dir is None },
            !use_bwrap ==> c.program@ == req.command@[0]@
                && views(c.args@) == views(req.command@).drop_first()
                && match req.working_dir { Some(d) => c.current_dir matches Some(x) && x@ == d@, None => c.current_dir matches Some(x) && x@ == workspace@ },
    {
        let env = copy_env(&req.env);
        if use_bwrap {
            let mut args: Vec<String> = Vec::new();
            push_arg(&mut args, "--bind");
            push_arg(&mut args, workspace);
            push_arg(&mut args, "/workspace");
            push_arg(&mut args, "--proc");
            push_arg(&mut args, "/proc");
            push_arg(&mut args, "--dev");
            push_arg(&mut args, "/dev");
            push_arg(&mut args, "--ro-bind");
            push_arg(&mut args, "/usr");
            push_arg(&mut args, "/usr");
            push_arg(&mut args, "--ro-bind");
            push_arg(&mut args, "/lib");
            push_arg(&mut args, "/lib");
            let ghost head = views(args@);
            if lib64 {
                push_arg(&mut args, "--ro-bind");
                push_arg(&mut args, "/lib64");
                push_arg(&mut args, "/lib64");
            }
            let ghost mid = views(args@);
            push_arg(&mut args, "--ro-bind");
            push_arg(&mut args, "/bin");
            push_arg(&mut args, "/bin");
            push_arg(&mut args, "--unshare-net");
            push_arg(&mut args, "--new-session");
            push_arg(&mut args, "--");
            let ghost pre = views(args@);
            assert(pre == bwrap_prefix(workspace@, lib64));
            push_args(&mut args, &req.command);
            let current_dir = match &req.working_dir {
                Some(d) => Some(d.clone()),
                None => None,
            };
            CommandLine { program: "bwrap".to_owned(), args, current_dir, env }
        } else {
            let mut args: Vec<String> = Vec::new();
            let mut i: usize = 1;
            while i < req.command.len()
                invariant
                    1 <= i <= req.command@.len(),
                    views(args@) == views(req.command@).subrange(1, i as int),
                decreases req.command.len() - i,
            {
                push_arg(&mut args, req.command[i].as_str());
                assert(views(req.command@).subrange(1, i + 1) == views(req.command@).subrange(1, i as int).push(req.command@[i as int]@));
                i = i + 1;
            }
            let current_dir = match &req.working_dir {
                Some(d) => Some(d.clone()),
                None => Some(workspace.to_owned()),
            };
            CommandLine { program: req.command[0].clone(), args, current_dir, env }
        }
    }

    /// The `tar` arguments that pack a sandbox's workspace into its tarball.
    pub fn snapshot_args(&self, id: &SandboxId) -> (a: Vec<String>)
        ensures
            views(a@) == seq!["-czf"@, join_path(self.workspace_root@, id.0@ + ".tar.gz"@), "-C"@, self.workspace_root@, id.0@],
    {
        let mut a: Vec<String> = Vec::new();
        push_arg(&mut a, "-czf");
        let tarball = self.snapshot_path(id);
        push_arg(&mut a, tarball.as_str());
        push_arg(&mut a, "-C");
        push_arg(&mut a, self.workspace_root.as_str());
        push_arg(&mut a, id.0.as_str());
        a
    }

    /// What resuming a sandbox takes: nothing when its workspace is there;
    /// unpacking its tarball (with these `tar` arguments) when only the
    /// tarball is; `NotFound` when neither is.
    pub fn resume_step(&self, id: &SandboxId, workspace_exists: bool, tarball_exists: bool) -> (r: Result<Option<Vec<String>>, SandboxError>)
        ensures
            workspace_exists ==> r matches Ok(None),
            !workspace_exists && tarball_exists ==> (r matches Ok(Some(a))
                && views(a@) == seq!["-xzf"@, join_path(self.workspace_root@, id.0@ + ".tar.gz"@), "-C"@, self.workspace_root@]),
            !workspace_exists && !tarball_exists ==> (r matches Err(SandboxError::NotFound(x)) && x.0@ == id.0@),
    {
        if workspace_exists {
            Ok(None)
        } else if tarball_exists {
            Ok(Some(self.resume_args(id)))
        } else {
            Err(SandboxError::NotFound(SandboxId(id.0.clone())))
        }
    }

    /// The `tar` arguments that unpack a sandbox's tarball under the root.
    pub fn resume_args(&self, id: &SandboxId) -> (a: Vec<String>)
        ensures
            views(a@) == seq!["-xzf"@, join_path(self.workspace_root@, id.0@ + ".tar.gz"@), "-C"@, self.workspace_root@],
    {
        let mut a: Vec<String> = Vec::new();
        push_arg(&mut a, "-xzf");
        let tarball = self.snapshot_path(id);
        push_arg(&mut a, tarball.as_str());
        push_arg(&mut a, "-C");
        push_arg(&mut a, self.workspace_root.as_str());
        a
    }
}

/// The listing of a workspace root's entries (name, whether a directory,
/// creation time): each directory is a running sandbox of that name.
pub open spec fn listed_sandboxes(entries: Seq<(String, bool, String)>) -> Seq<(Seq<char>, Seq<char>)>
    decreases entries.len(),
{
    if entries.len() == 0 {
        Seq::empty()
    } else {
        let prev = listed_sandboxes(entries.drop_last());
        let e = entries.last();
        if e.1 { prev.push((e.0@, e.2@)) } else { prev }
    }
}

/// Lists the sandboxes of a workspace root from its entries.
pub fn list_infos(entries: Vec<(String, bool, String)>) -> (r: Vec<SandboxInfo>)
    ensures
        r@.map_values(|i: SandboxInfo| (i.id.0@, i.created_at@)) == listed_sandboxes(entries@),
        forall|k: int| 0 <= k < r@.len() ==> (#[trigger] r@[k]).name@ == r@[k].id.0@ && r@[k].status is Running,
{
    let mut r: Vec<SandboxInfo> = Vec::new();
    let mut i: usize = 0;
    while i < entries.len()
        invariant
            i <= entries@.len(),
            r@.map_values(|x: SandboxInfo| (x.id.0@, x.created_at@)) == listed_sandboxes(entries@.take(i as int)),
            forall|k: int| 0 <= k < r@.len() ==> (#[trigger] r@[k]).name@ == r@[k].id.0@ && r@[k].status is Running,
        decreases entries.len() - i,
    {
        assert(entries@.take(i + 1).drop_last() == entries@.take(i as int));
        assert(entries@.take(i + 1).last() == entries@[i as int]);
        if entries[i].1 {
            let ghost before = r@;
            r.push(SandboxInfo {
                id: SandboxId(entries[i].0.clone()),
                name: entries[i].0.clone(),
                status: SandboxStatus::Running,
                created_at: entries[i].2.clone(),
            });
            assert(r@.map_values(|x: SandboxInfo| (x.id.0@, x.created_at@))
                == before.map_values(|x: SandboxInfo| (x.id.0@, x.created_at@)).push((r@.last().id.0@, r@.last().created_at@)));
        }
        i = i + 1;
    }
    assert(entries@.take(entries@.len() as int) == entries@);
    r
}

} // verus!
