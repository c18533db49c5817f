//! The sandbox file manifest: one entry per file written into a sandbox,
//! keyed by sandbox and path, the latest write replacing earlier ones.
//!
//! Reading the file back from the provider and storing it in the blob store
//! are the caller's part; their outcome is the entry's blob reference.
use vstd::prelude::*;

use crate::sandbox_types::SandboxId;
use crate::text::{lemma_text_lt_total, lemma_text_lt_trans, str_eq, str_lt, text_lt};

verus! {

/// A single file-write record.
pub struct FileManifestEntry {
    /// Stable record identifier (a UUID).
    pub id: String,
    /// Sandbox the file belongs to.
    pub sandbox_id: SandboxId,
    /// Agent session during which the file was written.
    pub session_id: String,
    /// Absolute path inside the sandbox.
    pub path: String,
    /// Content size in bytes.
    pub size_bytes: u64,
    /// SHA-256 hex hash of the content at write time.
    pub sha256: String,
    /// Key in the blob store, when the content could be stored.
    pub blob_hash: Option<String>,
    /// Unix permission bits.
    pub mode: u32,
    /// When the file was written, in microseconds since the UNIX epoch.
    pub written_at: i64,
    /// Soft-delete flag.
    pub deleted: bool,
    /// Name of the provider that held the file at write time.
    pub provider_at_write: String,
}

/// The key of an entry: its sandbox and path.
pub open spec fn key_of(e: FileManifestEntry) -> (Seq<char>, Seq<char>) {
    (e.sandbox_id.0@, e.path@)
}

/// The entry of `v` under `k`, the first one holding it.
pub open spec fn entry_at(v: Seq<FileManifestEntry>, k: (Seq<char>, Seq<char>)) -> Option<FileManifestEntry>
    decreases v.len(),
{
    if v.len() == 0 {
        None
    } else if key_of(v[0]) == k {
        Some(v[0])
    } else {
        entry_at(v.drop_first(), k)
    }
}

proof fn lemma_entry_at_index(v: Seq<FileManifestEntry>, k: (Seq<char>, Seq<char>))
    ensures
        match entry_at(v, k) {
            Some(e) => exists|i: int| 0 <= i < v.len() && v[i] == e && key_of(e) == k,
            None => forall|i: int| 0 <= i < v.len() ==> key_of(#[trigger] v[i]) != k,
        },
    decreases v.len(),
{
    if v.len() > 0 {
        lemma_entry_at_index(v.drop_first(), k);
        if key_of(v[0]) != k {
            match entry_at(v.drop_first(), k) {
                Some(e) => {
                    let i = choose|i: int| 0 <= i < v.drop_first().len() && v.drop_first()[i] == e && key_of(e) == k;
                    assert(v[i + 1] == e);
                },
                None => {
                    assert forall|i: int| 0 <= i < v.len() implies key_of(#[trigger] v[i]) != k by {
                        if i > 0 {
                            assert(v[i] == v.drop_first()[i - 1]);
                        }
                    }
                },
            }
        }
    }
}

proof fn lemma_entry_at_unique(v: Seq<FileManifestEntry>, i: int)
    requires
        0 <= i < v.len(),
        forall|a: int, b: int| 0 <= a < b < v.len() ==> key_of(#[trigger] v[a]) != key_of(#[trigger] v[b]),
    ensures
        entry_at(v, key_of(v[i])) == Some(v[i]),
    decreases v.len(),
{
    if i > 0 {
        assert(key_of(v[0]) != key_of(v[i]));
        assert forall|a: int, b: int| 0 <= a < b < v.drop_first().len() implies key_of(#[trigger] v.drop_first()[a]) != key_of(#[trigger] v.drop_first()[b]) by {
            assert(v.drop_first()[a] == v[a + 1]);
            assert(v.drop_first()[b] == v[b + 1]);
        }
        assert(v.drop_first()[i - 1] == v[i]);
        lemma_entry_at_unique(v.drop_first(), i - 1);
    }
}

/// The index of all files written across all sandboxes.
pub struct SandboxManifest {
    entries: Vec<FileManifestEntry>,
}

impl SandboxManifest {
    /// The entries held, one per key.
    pub closed spec fn entries(&self) -> Seq<FileManifestEntry> {
        self.entries@
    }

    /// The entry held for a sandbox and path.
    pub open spec fn at(&self, sandbox_id: Seq<char>, path: Seq<char>) -> Option<FileManifestEntry> {
        entry_at(self.entries(), (sandbox_id, path))
    }

    /// No two entries share a key.
    pub open spec fn wf(&self) -> bool {
        forall|a: int, b: int| 0 <= a < b < self.entries().len() ==> key_of(#[trigger] self.entries()[a]) != key_of(#[trigger] self.entries()[b])
    }

    /// An empty manifest.
    pub fn new() -> (m: Self)
        ensures
            m.wf(),
            m.entries().len() == 0,
    {
        SandboxManifest { entries: Vec::new() }
    }

    fn find(&self, sandbox_id: &str, path: &str) -> (r: Option<usize>)
        ensures
            match r {
                Some(i) => i < self.entries().len() && key_of(self.entries()[i as int]) == (sandbox_id@, path@)
                    && self.at(sandbox_id@, path@) == Some(self.entries()[i as int]),
                None => self.at(sandbox_id@, path@) is None
                    && forall|j: int| 0 <= j < self.entries().len() ==> key_of(#[trigger] self.entries()[j]) != (sandbox_id@, path@),
            },
    {
        let mut i: usize = 0;
        assert(self.entries@.skip(0) == self.entries@);
        while i < self.entries.len()
            invariant
                i <= self.entries@.len(),
                entry_at(self.entries@, (sandbox_id@, path@)) == entry_at(self.entries@.skip(i as int), (sandbox_id@, path@)),
                forall|j: int| 0 <= j < i ==> key_of(#[trigger] self.entries@[j]) != (sandbox_id@, path@),
            decreases self.entries.len() - i,
        {
            assert(self.entries@.skip(i as int)[0] == self.entries@[i as int]);
            assert(self.entries@.skip(i as int).drop_first() == self.entries@.skip(i + 1));
            if str_eq(self.entries[i].sandbox_id.0.as_str(), sandbox_id) && str_eq(self.entries[i].path.as_str(), path) {
                return Some(i);
            }
            i = i + 1;
        }
        None
    }

    /// Inserts the entry for its sandbox and path, replacing the one held.
    pub fn upsert(&mut self, entry: FileManifestEntry)
        requires
            old(self).wf(),
        ensures
            final(self).wf(),
            final(self).at(entry.sandbox_id.0@, entry.path@) == Some(entry),
            forall|s: Seq<char>, p: Seq<char>| (s, p) != key_of(entry) ==> #[trigger] final(self).at(s, p) == old(self).at(s, p),
            final(self).entries().len() == old(self).entries().len()
                + if old(self).at(entry.sandbox_id.0@, entry.path@) is None { 1int } else { 0int },
    {
        let ghost old_v = self.entries@;
        let ghost k = key_of(entry);
        match self.find(entry.sandbox_id.0.as_str(), entry.path.as_str()) {
            Some(i) => {
                self.entries.set(i, entry);
                assert forall|a: int, b: int| 0 <= a < b < self.entries@.len() implies key_of(#[trigger] self.entries@[a]) != key_of(#[trigger] self.entries@[b]) by {
                    if a != i && b != i {
                        assert(self.entries@[a] == old_v[a]);
                        assert(self.entries@[b] == old_v[b]);
                    }
                }
                proof {
                    lemma_entry_at_unique(self.entries@, i as int);
                    assert forall|s: Seq<char>, p: Seq<char>| (s, p) != k implies #[trigger] entry_at(self.entries@, (s, p)) == entry_at(old_v, (s, p)) by {
                        lemma_entry_at_index(self.entries@, (s, p));
                        lemma_entry_at_index(old_v, (s, p));
                        match entry_at(old_v, (s, p)) {
                            Some(e) => {
                                let j = choose|j: int| 0 <= j < old_v.len() && old_v[j] == e && key_of(e) == (s, p);
                                assert(j != i);
                                assert(self.entries@[j] == e);
                                lemma_entry_at_unique(self.entries@, j);
                            },
                            None => {
                                match entry_at(self.entries@, (s, p)) {
                                    Some(e) => {
                                        let j = choose|j: int| 0 <= j < self.entries@.len() && self.entries@[j] == e && key_of(e) == (s, p);
                                        assert(j != i);
                                        assert(old_v[j] == e);
                                        assert(false);
                                    },
                                    None => {},
                                }
                            },
                        }
                    }
                }
            },
            None => {
                self.entries.push(entry);
                assert forall|a: int, b: int| 0 <= a < b < self.entries@.len() implies key_of(#[trigger] self.entries@[a]) != key_of(#[trigger] self.entries@[b]) by {
                    if b == old_v.len() {
                        assert(self.entries@[a] == old_v[a]);
                    } else {
                        assert(self.entries@[a] == old_v[a]);
                        assert(self.entries@[b] == old_v[b]);
                    }
                }
                proof {
                    lemma_entry_at_unique(self.entries@, old_v.len() as int);
                    assert forall|s: Seq<char>, p: Seq<char>| (s, p) != k implies #[trigger] entry_at(self.entries@, (s, p)) == entry_at(old_v, (s, p)) by {
                        lemma_entry_at_index(self.entries@, (s, p));
                        lemma_entry_at_index(old_v, (s, p));
                        match entry_at(old_v, (s, p)) {
                            Some(e) => {
                                let j = choose|j: int| 0 <= j < old_v.len() && old_v[j] == e && key_of(e) == (s, p);
                                assert(self.entries@[j] == e);
                                lemma_entry_at_unique(self.entries@, j);
                            },
                            None => {
                                match entry_at(self.entries@, (s, p)) {
                                    Some(e) => {
                                        let j = choose|j: int| 0 <= j < self.entries@.len() && self.entries@[j] == e && key_of(e) == (s, p);
                                        assert(j != old_v.len());
                                        assert(old_v[j] == e);
                                        assert(false);
                                    },
                                    None => {},
                                }
                            },
                        }
                    }
                }
            },
        }
    }

    /// The entry for a file of a sandbox, if any.
    pub fn get(&self, sandbox_id: &SandboxId, path: &str) -> (r: Option<&FileManifestEntry>)
        ensures
            match self.at(sandbox_id.0@, path@) {
                Some(e) => r == Some(&e),
                None => r is None,
            },
    {
        match self.find(sandbox_id.0.as_str(), path) {
            Some(i) => Some(&self.entries[i]),
            None => None,
        }
    }

    /// The entries of a sandbox, by path.
    pub fn list_sandbox(&self, sandbox_id: &SandboxId) -> (r: Vec<&FileManifestEntry>)
        requires
            self.wf(),
        ensures
            forall|a: int, b: int| 0 <= a < b < r@.len() ==> text_lt((#[trigger] r@[a]).path@, (#[trigger] r@[b]).path@),
            forall|a: int| 0 <= a < r@.len() ==> (#[trigger] r@[a]).sandbox_id.0@ == sandbox_id.0@ && self.entries().contains(*r@[a]),
            forall|e: FileManifestEntry| self.entries().contains(e) && e.sandbox_id.0@ == sandbox_id.0@ ==> r@.contains(&e),
    {
        let mut out: Vec<&FileManifestEntry> = Vec::new();
        let mut i: usize = 0;
        while i < self.entries.len()
            invariant
                i <= self.entries@.len(),
                self.wf(),
                forall|a: int, b: int| 0 <= a < b < out@.len() ==> text_lt((#[trigger] out@[a]).path@, (#[trigger] out@[b]).path@),
                forall|a: int| 0 <= a < out@.len() ==> exists|j: int| 0 <= j < i && #[trigger] out@[a] == &self.entries@[j] && self.entries@[j].sandbox_id.0@ == sandbox_id.0@,
                forall|j: int| 0 <= j < i && (#[trigger] self.entries@[j]).sandbox_id.0@ == sandbox_id.0@ ==> out@.contains(&self.entries@[j]),
            decreases self.entries.len() - i,
        {
            let e = &self.entries[i];
            if str_eq(e.sandbox_id.0.as_str(), sandbox_id.0.as_str()) {
                let mut p: usize = 0;
                while p < out.len() && str_lt(out[p].path.as_str(), e.path.as_str())
                    invariant
                        p <= out@.len(),
                        forall|a: int| 0 <= a < p ==> text_lt((#[trigger] out@[a]).path@, e.path@),
                    decreases out.len() - p,
                {
                    p = p + 1;
                }
                proof {
                    // The paths of the entries held for this sandbox differ from e's.
                    assert forall|a: int| 0 <= a < out@.len() implies (#[trigger] out@[a]).path@ != e.path@ by {
                        let j = choose|j: int| 0 <= j < i && out@[a] == &self.entries@[j] && self.entries@[j].sandbox_id.0@ == sandbox_id.0@;
                        assert(self.entries()[j] == self.entries@[j]);
                        assert(self.entries()[i as int] == self.entries@[i as int]);
                        assert(key_of(self.entries()[j]) != key_of(self.entries()[i as int]));
                    }
                    if p < out@.len() {
                        lemma_text_lt_total(e.path@, out@[p as int].path@);
                    }
                }
                let ghost before = out@;
                out.insert(p, e);
                assert forall|a: int, b: int| 0 <= a < b < out@.len() implies text_lt((#[trigger] out@[a]).path@, (#[trigger] out@[b]).path@) by {
                    if b < p {
                        assert(out@[a] == before[a] && out@[b] == before[b]);
                    } else if b == p {
                        assert(out@[a] == before[a]);
                    } else if a == p {
                        assert(out@[b] == before[b - 1]);
                        if b - 1 > p {
                            lemma_text_lt_trans(e.path@, before[p as int].path@, before[b - 1].path@);
                        }
                    } else if a < p {
                        assert(out@[a] == before[a] && out@[b] == before[b - 1]);
                    } else {
                        assert(out@[a] == before[a - 1] && out@[b] == before[b - 1]);
                    }
                }
                assert forall|a: int| 0 <= a < out@.len() implies exists|j: int| 0 <= j < i + 1 && #[trigger] out@[a] == &self.entries@[j] && self.entries@[j].sandbox_id.0@ == sandbox_id.0@ by {
                    if a < p {
                        assert(out@[a] == before[a]);
                    } else if a == p {
                        assert(out@[a] == &self.entries@[i as int]);
                    } else {
                        assert(out@[a] == before[a - 1]);
                    }
                }
                assert forall|j: int| 0 <= j < i + 1 && (#[trigger] self.entries@[j]).sandbox_id.0@ == sandbox_id.0@ implies out@.contains(&self.entries@[j]) by {
                    if j < i {
                        let a = choose|a: int| 0 <= a < before.len() && before[a] == &self.entries@[j];
                        if a < p {
                            assert(out@[a] == before[a]);
                        } else {
                            assert(out@[a + 1] == before[a]);
                        }
                    } else {
                        assert(out@[p as int] == &self.entries@[j]);
                    }
                }
            }
            i = i + 1;
        }
        proof {
            assert forall|a: int| 0 <= a < out@.len() implies (#[trigger] out@[a]).sandbox_id.0@ == sandbox_id.0@ && self.entries@.contains(*out@[a]) by {
                let j = choose|j: int| 0 <= j < i && out@[a] == &self.entries@[j] && self.entries@[j].sandbox_id.0@ == sandbox_id.0@;
                assert(self.entries@[j] == *out@[a]);
            }
            assert forall|e: FileManifestEntry| self.entries@.contains(e) && e.sandbox_id.0@ == sandbox_id.0@ implies out@.contains(&e) by {
                let j = choose|j: int| 0 <= j < self.entries@.len() && self.entries@[j] == e;
                assert(self.entries@[j].sandbox_id.0@ == sandbox_id.0@);
            }
        }
        out
    }

    /// How many entries are held.
    pub fn len(&self) -> (n: usize)
        ensures
            n == self.entries().len(),
    {
        self.entries.len()
    }

    /// Whether no entry is held.
    pub fn is_empty(&self) -> (b: bool)
        ensures
            b == (self.entries().len() == 0),
    {
        self.entries.len() == 0
    }
}

/// What a `FileWritten` event tells of a file.
pub struct FileWrittenParams {
    pub sandbox_id: SandboxId,
    pub session_id: String,
    pub path: String,
    pub size_bytes: u64,
    pub sha256: String,
    pub mode: u32,
    pub provider_name: String,
}

/// The manifest entry of a written file: its blob reference is what
/// storing its content gave (`None` when the provider could not read it
/// back or the store refused it); `id` and `written_at` are fresh values
/// from the caller.  The entry is not deleted.
pub fn sync_file_written(p: FileWrittenParams, blob_hash: Option<String>, id: String, written_at: i64) -> (e: FileManifestEntry)
    ensures
        e.id == id,
        e.sandbox_id == p.sandbox_id,
        e.session_id == p.session_id,
        e.path == p.path,
        e.size_bytes == p.size_bytes,
        e.sha256 == p.sha256,
        e.blob_hash == blob_hash,
        e.mode == p.mode,
        e.written_at == written_at,
        !e.deleted,
        e.provider_at_write == p.provider_name,
{
    FileManifestEntry {
        id,
        sandbox_id: p.sandbox_id,
        session_id: p.session_id,
        path: p.path,
        size_bytes: p.size_bytes,
        sha256: p.sha256,
        blob_hash,
        mode: p.mode,
        written_at,
        deleted: false,
        provider_at_write: p.provider_name,
    }
}

} // verus!
