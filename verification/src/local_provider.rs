//! The local sandbox provider: Docker containers when a Docker socket is
//! available, otherwise nsjail.  Running `docker`, `nsjail` and `tar` is the
//! caller's part; this module picks the backend and decides the command
//! lines, names and how `docker ps` output is read.
use vstd::prelude::*;

use crate::edit::{lines_of, split_lines};
use crate::fs::{join, join_path};
use crate::sandbox_types::{ExecRequest, SandboxCapabilitySet, SandboxError, SandboxId, SandboxSpec, SandboxStatus};
use crate::text::{chars_vec, decimal, push_str, string_from_chars, u64_to_decimal, views};

verus! {

/// The isolation backend.
pub enum LocalBackend {
    Docker { socket: String },
    Nsjail { nsjail_bin: String },
}

/// The sandbox provider on Docker or nsjail.
pub struct LocalSandboxProvider {
    pub backend: LocalBackend,
    pub workspace_root: String,
}

/// Pushes `s` onto `v`.
fn push_arg(v: &mut Vec<String>, s: &str)
    ensures
        views(final(v)@) == views(old(v)@).push(s@),
{
    v.push(s.to_owned());
    assert(views(v@) =~= views(old(v)@).push(s@));
}

/// Why no local backend could be used.
pub open spec fn no_backend_message() -> Seq<char> {
    "no local sandbox backend available: Docker socket not found and nsjail not in PATH"@
}

/// `s` without every leading repetition of `p`.
pub open spec fn trim_prefix_all(s: Seq<char>, p: Seq<char>) -> Seq<char>
    decreases s.len(),
{
    if p.len() > 0 && s.len() >= p.len() && s.take(p.len() as int) == p {
        trim_prefix_all(s.skip(p.len() as int), p)
    } else {
        s
    }
}

/// The position of the first `c` in `s` at or after `from`.
pub open spec fn find_from(s: Seq<char>, c: char, from: int) -> Option<int>
    decreases s.len() - from,
{
    if from >= s.len() || from < 0 {
        None
    } else if s[from] == c {
        Some(from)
    } else {
        find_from(s, c, from + 1)
    }
}

/// The `k`-th tab-separated field of `line` when it is split into at most
/// four fields (`splitn(4, '\t')`), for `k` of 1 or 2.
pub open spec fn tab_field(line: Seq<char>, start: int, k: nat) -> Option<Seq<char>>
    decreases k,
{
    match find_from(line, '\t', start) {
        None => None,
        Some(t) => if k <= 1 {
            match find_from(line, '\t', t + 1) {
                Some(u) => Some(line.subrange(t + 1, u)),
                None => Some(line.subrange(t + 1, line.len() as int)),
            }
        } else {
            tab_field(line, t + 1, (k - 1) as nat)
        },
    }
}

/// The lower-case form of `s` (`str::to_lowercase`).
pub uninterp spec fn lowercase(s: Seq<char>) -> Seq<char>;

/// `str::to_lowercase` of std.  Trusted: the text is named `lowercase`;
/// Unicode case mapping is not stated here.
#[verifier::external_body]
pub(crate) fn to_lowercase(s: &str) -> (r: String)
    ensures
        r@ == lowercase(s@),
{
    s.to_lowercase()
}

/// Whether `s` contains `"up"`.
pub open spec fn contains_up(s: Seq<char>) -> bool {
    exists|i: int| 0 <= i && i + 1 < s.len() && s[i] == 'u' && #[trigger] s[i + 1] == 'p'
}

/// A listed container: its name without the `arcan-` prefixes, running when
/// its status mentions "up" (in any case), stopped otherwise.
pub open spec fn listed(line: Seq<char>) -> Option<(Seq<char>, SandboxStatus)> {
    match tab_field(line, 0, 1) {
        None => None,
        Some(name) => Some((
            trim_prefix_all(name, "arcan-"@),
            if contains_up(lowercase(or_empty(tab_field(line, 0, 2)))) { SandboxStatus::Running } else { SandboxStatus::Stopped },
        )),
    }
}

/// `o`, or the empty text.
pub open spec fn or_empty(o: Option<Seq<char>>) -> Seq<char> {
    match o {
        Some(s) => s,
        None => Seq::empty(),
    }
}

/// The containers listed by `docker ps` output, one per line with at least
/// two fields.
pub open spec fn listed_all(lines: Seq<Seq<char>>) -> Seq<(Seq<char>, SandboxStatus)>
    decreases lines.len(),
{
    if lines.len() == 0 {
        Seq::empty()
    } else {
        let prev = listed_all(lines.drop_last());
        match listed(lines.last()) {
            Some(x) => prev.push(x),
            None => prev,
        }
    }
}

/// The position of the first `c` in `cs` at or after `from`.
fn find_char_from(cs: &Vec<char>, c: char, from: usize) -> (r: Option<usize>)
    requires
        from <= cs@.len(),
    ensures
        match r {
            Some(i) => find_from(cs@, c, from as int) == Some(i as int) && from <= i < cs@.len(),
            None => find_from(cs@, c, from as int) is None,
        },
{
    let mut i = from;
    while i < cs.len()
        invariant
            from <= i <= cs@.len(),
            find_from(cs@, c, from as int) == find_from(cs@, c, i as int),
        decreases cs.len() - i,
    {
        if cs[i] == c {
            return Some(i);
        }
        i = i + 1;
    }
    None
}

/// The `k`-th field (1 or 2) of a line.
fn tab_field_of(cs: &Vec<char>, start: usize, k: usize) -> (r: Option<String>)
    requires
        start <= cs@.len(),
    ensures
        match r {
            Some(s) => tab_field(cs@, start as int, k as nat) == Some(s@),
            None => tab_field(cs@, start as int, k as nat) is None,
        },
    decreases k,
{
    let n = cs.len();
    match find_char_from(cs, '\t', start) {
        None => None,
        Some(t) => {
            if k <= 1 {
                match find_char_from(cs, '\t', t + 1) {
                    Some(u) => Some(string_from_chars(cs.as_slice(), t + 1, u)),
                    None => Some(string_from_chars(cs.as_slice(), t + 1, cs.len())),
                }
            } else {
                tab_field_of(cs, t + 1, k - 1)
            }
        },
    }
}

/// Removes every leading `arcan-` from `s`.
fn trim_arcan_prefixes(s: &str) -> (r: String)
    ensures
        r@ == trim_prefix_all(s@, "arcan-"@),
{
    proof {
        reveal_strlit("arcan-");
    }
    let cs = chars_vec(s);
    let p = chars_vec("arcan-");
    let mut start: usize = 0;
    assert(cs@.skip(0) == cs@);
    assert(p@.len() == 6);
    while cs.len() - start >= 6
        invariant
            p@ == "arcan-"@,
            p@.len() == 6,
            cs@ == s@,
            start <= cs@.len(),
            trim_prefix_all(s@, "arcan-"@) == trim_prefix_all(cs@.skip(start as int), p@),
        decreases cs.len() - start,
    {
        let mut k: usize = 0;
        let mut same = true;
        let n = cs.len();
        while k < 6
            invariant
                n == cs@.len(),
                p@.len() == 6,
                k <= p@.len(),
                start + p@.len() <= cs@.len(),
                same == (forall|j: int| 0 <= j < k ==> cs@[start + j] == p@[j]),
            decreases p.len() - k,
        {
            if cs[start + k] != p[k] {
                same = false;
            }
            k = k + 1;
        }
        let ghost rest = cs@.skip(start as int);
        if !same {
            assert(rest.take(p@.len() as int) != p@) by {
                let j = choose|j: int| 0 <= j < p@.len() && !(cs@[start + j] == p@[j]);
                assert(rest.take(p@.len() as int)[j] == cs@[start + j]);
            }
            return string_from_chars(cs.as_slice(), start, cs.len());
        }
        assert(rest.take(p@.len() as int) =~= p@);
        assert(rest.skip(p@.len() as int) =~= cs@.skip(start + p@.len()));
        start = start + 6;
    }
    let ghost rest = cs@.skip(start as int);
    assert(rest.len() < p@.len());
    string_from_chars(cs.as_slice(), start, cs.len())
}

/// Whether `s` contains "up".
fn has_up(s: &str) -> (b: bool)
    ensures
        b == contains_up(s@),
{
    let cs = chars_vec(s);
    let mut i: usize = 0;
    while cs.len() > 1 && i < cs.len() - 1
        invariant
            cs@ == s@,
            forall|j: int| 0 <= j < i && j + 1 < cs@.len() ==> !(cs@[j] == 'u' && #[trigger] cs@[j + 1] == 'p'),
        decreases cs.len() - i,
    {
        if cs[i] == 'u' && cs[i + 1] == 'p' {
            assert(cs@[i + 1 as int] == 'p');
            return true;
        }
        i = i + 1;
    }
    false
}

impl LocalSandboxProvider {
    /// Picks the backend: Docker when a socket was found, else nsjail when
    /// its binary was found, else an error.
    pub fn detect(workspace_root: String, docker_socket: Option<String>, nsjail_bin: Option<String>) -> (r: Result<Self, String>)
        ensures
            match docker_socket {
                Some(s) => r matches Ok(p) && p.workspace_root@ == workspace_root@
                    && (p.backend matches LocalBackend::Docker { socket } && socket@ == s@),
                None => match nsjail_bin {
                    Some(b) => r matches Ok(p) && p.workspace_root@ == workspace_root@
                        && (p.backend matches LocalBackend::Nsjail { nsjail_bin } && nsjail_bin@ == b@),
                    None => r matches Err(m) && m@ == no_backend_message(),
                },
            },
    {
        match docker_socket {
            Some(socket) => Ok(LocalSandboxProvider { backend: LocalBackend::Docker { socket }, workspace_root }),
            None => match nsjail_bin {
                Some(b) => Ok(LocalSandboxProvider { backend: LocalBackend::Nsjail { nsjail_bin: b }, workspace_root }),
                None => Err("no local sandbox backend available: Docker socket not found and nsjail not in PATH".to_owned()),
            },
        }
    }

    pub fn with_docker(socket: String, workspace_root: String) -> (p: Self)
        ensures
            p.workspace_root@ == workspace_root@,
            p.backend matches LocalBackend::Docker { socket: s } && s@ == socket@,
    {
        LocalSandboxProvider { backend: LocalBackend::Docker { socket }, workspace_root }
    }

    pub fn with_nsjail(nsjail_bin: String, workspace_root: String) -> (p: Self)
        ensures
            p.workspace_root@ == workspace_root@,
            p.backend matches LocalBackend::Nsjail { nsjail_bin: b } && b@ == nsjail_bin@,
    {
        LocalSandboxProvider { backend: LocalBackend::Nsjail { nsjail_bin }, workspace_root }
    }

    /// The provider's name.
    pub fn name(&self) -> (n: &'static str)
        ensures
            n@ == "local"@,
    {
        "local"
    }

    /// Files can be read and written and sandboxes persist; Docker also runs
    /// custom images.
    pub fn capabilities(&self) -> (c: SandboxCapabilitySet)
        ensures
            c == (SandboxCapabilitySet { filesystem_read: true, filesystem_write: true, network_outbound: false,
                persistence: true, custom_image: self.backend is Docker }),
    {
        let docker = match &self.backend {
            LocalBackend::Docker { .. } => true,
            LocalBackend::Nsjail { .. } => false,
        };
        SandboxCapabilitySet { filesystem_read: true, filesystem_write: true, network_outbound: false, persistence: true, custom_image: docker }
    }

    /// A sandbox's workspace directory.
    pub fn workspace_dir(&self, id: &SandboxId) -> (p: String)
        ensures
            p@ == join_path(self.workspace_root@, id.0@),
    {
        join(self.workspace_root.as_str(), id.0.as_str())
    }

    /// A sandbox's snapshot tarball (nsjail).
    pub fn snapshot_path(&self, id: &SandboxId) -> (p: String)
        ensures
            p@ == join_path(self.workspace_root@, id.0@ + ".tar.gz"@),
    {
        let mut name = id.0.clone();
        push_str(&mut name, ".tar.gz");
        join(self.workspace_root.as_str(), name.as_str())
    }

    /// A sandbox's container name: `arcan-<id>`.
    pub fn container_name(id: &SandboxId) -> (n: String)
        ensures
            n@ == "arcan-"@ + id.0@,
    {
        let mut n = "arcan-".to_owned();
        push_str(&mut n, id.0.as_str());
        n
    }

    /// A sandbox's snapshot image: `arcan-snap-<id>`.
    pub fn snapshot_image(id: &SandboxId) -> (n: String)
        ensures
            n@ == "arcan-snap-"@ + id.0@,
    {
        let mut n = "arcan-snap-".to_owned();
        push_str(&mut n, id.0.as_str());
        n
    }

    /// The provider error with `message`.
    pub fn err(message: String) -> (e: SandboxError)
        ensures
            e matches SandboxError::ProviderError { provider: p, message: m } && p@ == "local"@ && m@ == message@,
    {
        SandboxError::ProviderError { provider: "local".to_owned(), message }
    }

    /// The `docker run` arguments that start a sandbox's container: named,
    /// labelled with its session, limited in memory and CPUs, with its
    /// workspace mounted, running the spec's image (Ubuntu 22.04 by
    /// default) idle.
    pub fn docker_create_args(&self, spec: &SandboxSpec, id: &SandboxId) -> (a: Vec<String>)
        ensures
            views(a@) == seq!["run"@, "-d"@, "--name"@, "arcan-"@ + id.0@, "--label"@, "arcan.session="@ + id.0@,
                "--memory"@, decimal(spec.resources.memory_mb as nat) + "m"@, "--cpus"@, decimal(spec.resources.vcpus as nat),
                "-v"@, join_path(self.workspace_root@, id.0@) + ":/workspace"@,
                match spec.image { Some(i) => i@, None => "ubuntu:22.04"@ }, "sleep"@, "infinity"@],
    {
        let mut a: Vec<String> = Vec::new();
        push_arg(&mut a, "run");
        push_arg(&mut a, "-d");
        push_arg(&mut a, "--name");
        let container = Self::container_name(id);
        push_arg(&mut a, container.as_str());
        push_arg(&mut a, "--label");
        let mut label = "arcan.session=".to_owned();
        push_str(&mut label, id.0.as_str());
        push_arg(&mut a, label.as_str());
        push_arg(&mut a, "--memory");
        let mut mem = u64_to_decimal(spec.resources.memory_mb as u64);
        push_str(&mut mem, "m");
        push_arg(&mut a, mem.as_str());
        push_arg(&mut a, "--cpus");
        let cpus = u64_to_decimal(spec.resources.vcpus as u64);
        push_arg(&mut a, cpus.as_str());
        push_arg(&mut a, "-v");
        let mut volume = self.workspace_dir(id);
        push_str(&mut volume, ":/workspace");
        push_arg(&mut a, volume.as_str());
        match &spec.image {
            Some(i) => push_arg(&mut a, i.as_str()),
            None => push_arg(&mut a, "ubuntu:22.04"),
        }
        push_arg(&mut a, "sleep");
        push_arg(&mut a, "infinity");
        a
    }

    /// The `docker exec` arguments for a request: each variable as `-e
    /// K=V`, the working directory as `-w`, the container, then the command.
    pub fn docker_exec_args(id: &SandboxId, req: &ExecRequest) -> (a: Vec<String>)
        ensures
            views(a@) == seq!["exec"@]
                + env_flags(req.env@)
                + (match req.working_dir { Some(d) => seq!["-w"@, d@], None => Seq::empty() })
                + seq!["arcan-"@ + id.0@]
                + views(req.command@),
    {
        let mut a: Vec<String> = Vec::new();
        push_arg(&mut a, "exec");
        let mut i: usize = 0;
        while i < req.env.len()
            invariant
                i <= req.env@.len(),
                views(a@) == seq!["exec"@] + env_flags(req.env@.take(i as int)),
            decreases req.env.len() - i,
        {
            push_arg(&mut a, "-e");
            let mut kv = req.env[i].0.clone();
            push_str(&mut kv, "=");
            push_str(&mut kv, req.env[i].1.as_str());
            push_arg(&mut a, kv.as_str());
            assert(req.env@.take(i + 1).drop_last() == req.env@.take(i as int));
            i = i + 1;
        }
        assert(req.env@.take(req.env@.len() as int) == req.env@);
        match &req.working_dir {
            Some(d) => {
                push_arg(&mut a, "-w");
                push_arg(&mut a, d.as_str());
            },
            None => {},
        }
        let container = Self::container_name(id);
        push_arg(&mut a, container.as_str());
        let mut j: usize = 0;
        let ghost base = views(a@);
        while j < req.command.len()
            invariant
                j <= req.command@.len(),
                views(a@) == base + views(req.command@.take(j as int)),
            decreases req.command.len() - j,
        {
            push_arg(&mut a, req.command[j].as_str());
            assert(views(req.command@.take(j + 1)) == views(req.command@.take(j as int)).push(req.command@[j as int]@));
            j = j + 1;
        }
        assert(req.command@.take(req.command@.len() as int) == req.command@);
        a
    }

    /// The nsjail arguments for a request in a sandbox: run once, chrooted
    /// at `/`, with the workspace mounted at `/workspace`, then the command.
    pub fn nsjail_args(&self, id: &SandboxId, req: &ExecRequest) -> (a: Vec<String>)
        ensures
            views(a@) == seq!["--mode"@, "once"@, "--chroot"@, "/"@, "--bindmount"@,
                join_path(self.workspace_root@, id.0@) + ":/workspace"@, "--"@] + views(req.command@),
    {
        let mut a: Vec<String> = Vec::new();
        push_arg(&mut a, "--mode");
        push_arg(&mut a, "once");
        push_arg(&mut a, "--chroot");
        push_arg(&mut a, "/");
        push_arg(&mut a, "--bindmount");
        let mut mount = self.workspace_dir(id);
        push_str(&mut mount, ":/workspace");
        push_arg(&mut a, mount.as_str());
        push_arg(&mut a, "--");
        let ghost base = views(a@);
        let mut j: usize = 0;
        while j < req.command.len()
            invariant
                j <= req.command@.len(),
                views(a@) == base + views(req.command@.take(j as int)),
            decreases req.command.len() - j,
        {
            push_arg(&mut a, req.command[j].as_str());
            assert(views(req.command@.take(j + 1)) == views(req.command@.take(j as int)).push(req.command@[j as int]@));
            j = j + 1;
        }
        assert(req.command@.take(req.command@.len() as int) == req.command@);
        a
    }

    /// The `docker run` arguments that bring a sandbox back from its
    /// snapshot image when its container is gone: named, labelled, with its
    /// workspace mounted, idle.
    pub fn docker_resume_run_args(&self, id: &SandboxId) -> (a: Vec<String>)
        ensures
            views(a@) == seq!["run"@, "-d"@, "--name"@, "arcan-"@ + id.0@, "--label"@, "arcan.session="@ + id.0@,
                "-v"@, join_path(self.workspace_root@, id.0@) + ":/workspace"@, "arcan-snap-"@ + id.0@, "sleep"@, "infinity"@],
    {
        let mut a: Vec<String> = Vec::new();
        push_arg(&mut a, "run");
        push_arg(&mut a, "-d");
        push_arg(&mut a, "--name");
        let container = Self::container_name(id);
        push_arg(&mut a, container.as_str());
        push_arg(&mut a, "--label");
        let mut label = "arcan.session=".to_owned();
        push_str(&mut label, id.0.as_str());
        push_arg(&mut a, label.as_str());
        push_arg(&mut a, "-v");
        let mut volume = self.workspace_dir(id);
        push_str(&mut volume, ":/workspace");
        push_arg(&mut a, volume.as_str());
        let image = Self::snapshot_image(id);
        push_arg(&mut a, image.as_str());
        push_arg(&mut a, "sleep");
        push_arg(&mut a, "infinity");
        a
    }

    /// The `docker ps` arguments listing the sandboxes' containers.
    pub fn docker_list_args() -> (a: Vec<String>)
        ensures
            views(a@) == seq!["ps"@, "-a"@, "--filter"@, "label=arcan.session"@, "--format"@,
                "{{.ID}}\t{{.Names}}\t{{.Status}}\t{{.CreatedAt}}"@],
    {
        let mut a: Vec<String> = Vec::new();
        push_arg(&mut a, "ps");
        push_arg(&mut a, "-a");
        push_arg(&mut a, "--filter");
        push_arg(&mut a, "label=arcan.session");
        push_arg(&mut a, "--format");
        push_arg(&mut a, "{{.ID}}\t{{.Names}}\t{{.Status}}\t{{.CreatedAt}}");
        a
    }

    /// The `tar` arguments that pack a sandbox's workspace into its
    /// snapshot tarball.
    pub fn nsjail_snapshot_args(&self, id: &SandboxId) -> (a: Vec<String>)
        ensures
            views(a@) == seq!["-czf"@, join_path(self.workspace_root@, id.0@ + ".tar.gz"@), "-C"@, self.workspace_root@, id.0@],
    {
        let mut a: Vec<String> = Vec::new();
        push_arg(&mut a, "-czf");
        let tarball = self.snapshot_path(id);
        push_arg(&mut a, tarball.as_str());
        push_arg(&mut a, "-C");
        push_arg(&mut a, self.workspace_root.as_str());
        push_arg(&mut a, id.0.as_str());
        a
    }

    /// The `tar` arguments that unpack a sandbox's snapshot tarball into
    /// the workspace root.
    pub fn nsjail_resume_args(&self, id: &SandboxId) -> (a: Vec<String>)
        ensures
            views(a@) == seq!["-xzf"@, join_path(self.workspace_root@, id.0@ + ".tar.gz"@), "-C"@, self.workspace_root@],
    {
        let mut a: Vec<String> = Vec::new();
        push_arg(&mut a, "-xzf");
        let tarball = self.snapshot_path(id);
        push_arg(&mut a, tarball.as_str());
        push_arg(&mut a, "-C");
        push_arg(&mut a, self.workspace_root.as_str());
        a
    }

    /// Reads `docker ps` output (one container per line, tab-separated id,
    /// name, status and creation time) into names and statuses; lines with
    /// fewer than two fields are skipped.
    pub fn parse_docker_ps(text: &str) -> (r: Vec<(String, SandboxStatus)>)
        ensures
            r@.len() == listed_all(lines_of(text@)).len(),
            forall|i: int| 0 <= i < r@.len() ==> #[trigger] r@[i].0@ == listed_all(lines_of(text@))[i].0
                && r@[i].1 == listed_all(lines_of(text@))[i].1,
    {
        let lines = split_lines(text);
        let ghost ls = lines_of(text@);
        let mut r: Vec<(String, SandboxStatus)> = Vec::new();
        let mut i: usize = 0;
        while i < lines.len()
            invariant
                i <= lines@.len(),
                views(lines@) == ls,
                r@.len() == listed_all(ls.take(i as int)).len(),
                forall|k: int| 0 <= k < r@.len() ==> #[trigger] r@[k].0@ == listed_all(ls.take(i as int))[k].0
                    && r@[k].1 == listed_all(ls.take(i as int))[k].1,
            decreases lines.len() - i,
        {
            let cs = chars_vec(lines[i].as_str());
            assert(ls.take(i + 1).drop_last() == ls.take(i as int));
            assert(ls.take(i + 1).last() == cs@);
            match tab_field_of(&cs, 0, 1) {
                None => {},
                Some(name) => {
                    let status_field = match tab_field_of(&cs, 0, 2) {
                        Some(s) => s,
                        None => String::new(),
                    };
                    let lower = to_lowercase(status_field.as_str());
                    let status = if has_up(lower.as_str()) { SandboxStatus::Running } else { SandboxStatus::Stopped };
                    let trimmed = trim_arcan_prefixes(name.as_str());
                    r.push((trimmed, status));
                },
            }
            i = i + 1;
        }
        assert(ls.take(lines@.len() as int) == ls);
        r
    }
}

/// The `-e K=V` flags for a list of variables.
pub open spec fn env_flags(env: Seq<(String, String)>) -> Seq<Seq<char>>
    decreases env.len(),
{
    if env.len() == 0 {
        Seq::empty()
    } else {
        env_flags(env.drop_last()) + seq!["-e"@, env.last().0@ + "="@ + env.last().1@]
    }
}

} // verus!
