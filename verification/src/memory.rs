//! Persistent agent memory files, one markdown file per key.
use vstd::prelude::*;

use crate::fs::{join, join_path};
use crate::text::{chars_vec, push_str};
use crate::tools::{annotations, declares, make_definition, ToolDefinition};

verus! {

/// Whether `c` is alphanumeric in the Unicode sense (`char::is_alphanumeric`).
pub uninterp spec fn is_alphanumeric(c: char) -> bool;

/// `char::is_alphanumeric` of std.  Trusted: the answer is named
/// `is_alphanumeric` (Unicode `Alphabetic` or `Numeric`); within ASCII those
/// are exactly the letters and digits.  Which other characters are is not
/// stated here.
#[verifier::external_body]
fn char_is_alphanumeric(c: char) -> (r: bool)
    ensures
        r == is_alphanumeric(c),
        (c as u32) < 128 ==> (r <==> (('a' <= c <= 'z') || ('A' <= c <= 'Z') || ('0' <= c <= '9'))),
{
    c.is_alphanumeric()
}

/// A character allowed in a memory key.
pub open spec fn key_char_ok(c: char) -> bool {
    is_alphanumeric(c) || c == '-' || c == '_'
}

/// Why `key` is refused as a memory key, if it is: checked in this order,
/// emptiness, a length over 64 bytes, and a character other than
/// alphanumerics, `-` and `_`.  A dot is none of those, so a key that passes
/// neither starts with `.` nor holds `..`.
pub open spec fn memory_key_error(key: Seq<char>) -> Option<Seq<char>> {
    if key.len() == 0 {
        Some("Memory key cannot be empty"@)
    } else if vstd::utf8::encode_utf8(key).len() > 64 {
        Some("Memory key too long (max 64 characters)"@)
    } else if !(forall|i: int| 0 <= i < key.len() ==> key_char_ok(#[trigger] key[i])) {
        Some("Memory key must contain only alphanumeric characters, hyphens, and underscores"@)
    } else {
        None
    }
}

/// Checks that a memory key is safe to use as a file name: an accepted key
/// holds no dot at all.
pub fn validate_memory_key(key: &str) -> (r: Result<(), String>)
    ensures
        match memory_key_error(key@) {
            None => r is Ok,
            Some(msg) => r matches Err(m) && m@ == msg,
        },
        r is Ok ==> forall|i: int| 0 <= i < key@.len() ==> #[trigger] key@[i] != '.',
{
    let cs = chars_vec(key);
    if cs.len() == 0 {
        return Err("Memory key cannot be empty".to_owned());
    }
    if key.as_bytes().len() > 64 {
        return Err("Memory key too long (max 64 characters)".to_owned());
    }
    let mut i: usize = 0;
    while i < cs.len()
        invariant
            i <= cs@.len(),
            cs@ == key@,
            key@.len() > 0,
            vstd::utf8::encode_utf8(key@).len() <= 64,
            forall|k: int| 0 <= k < i ==> key_char_ok(#[trigger] key@[k]) && key@[k] != '.',
        decreases cs.len() - i,
    {
        let c = cs[i];
        if !(char_is_alphanumeric(c) || c == '-' || c == '_') {
            assert(!key_char_ok(key@[i as int]));
            return Err("Memory key must contain only alphanumeric characters, hyphens, and underscores".to_owned());
        }
        assert(c != '.');
        i = i + 1;
    }
    Ok(())
}

/// The file holding the memory for `key`: `{key}.md` in the memory directory.
pub open spec fn memory_file_spec(memory_dir: Seq<char>, key: Seq<char>) -> Seq<char> {
    join_path(memory_dir, key + ".md"@)
}

fn memory_file(memory_dir: &str, key: &str) -> (r: String)
    ensures
        r@ == memory_file_spec(memory_dir@, key@),
{
    let mut name = key.to_owned();
    push_str(&mut name, ".md");
    join(memory_dir, name.as_str())
}

/// Reads the agent's memory file by key.
pub struct ReadMemoryTool {
    pub memory_dir: String,
}

impl ReadMemoryTool {
    pub fn new(memory_dir: String) -> (t: Self)
        ensures
            t.memory_dir@ == memory_dir@,
    {
        ReadMemoryTool { memory_dir }
    }

    pub fn definition(&self) -> (d: ToolDefinition)
        ensures
            declares(d, "read_memory"@, "Read the agent's persistent memory file by key."@,
                "{\"type\":\"object\",\"properties\":{\"key\":{\"type\":\"string\",\"description\":\"Memory key (e.g. 'global', 'session', or custom name)\"}},\"required\":[\"key\"]}"@,
                "Read Memory"@, (true, false, true, false, false), "memory"@, ("memory"@, "read"@), 10),
    {
        make_definition("read_memory", "Read the agent's persistent memory file by key.",
            "{\"type\":\"object\",\"properties\":{\"key\":{\"type\":\"string\",\"description\":\"Memory key (e.g. 'global', 'session', or custom name)\"}},\"required\":[\"key\"]}",
            "Read Memory", annotations(true, false, true, false, false), "memory", "memory", "read", 10)
    }

    /// The file to read for `key`, once the key is valid.
    pub fn file_for(&self, key: &str) -> (r: Result<String, String>)
        ensures
            match memory_key_error(key@) {
                None => r matches Ok(p) && p@ == memory_file_spec(self.memory_dir@, key@),
                Some(msg) => r matches Err(m) && m@ == msg,
            },
    {
        match validate_memory_key(key) {
            Err(m) => Err(m),
            Ok(()) => Ok(memory_file(self.memory_dir.as_str(), key)),
        }
    }
}

/// Writes the agent's memory file by key.
pub struct WriteMemoryTool {
    pub memory_dir: String,
}

impl WriteMemoryTool {
    pub fn new(memory_dir: String) -> (t: Self)
        ensures
            t.memory_dir@ == memory_dir@,
    {
        WriteMemoryTool { memory_dir }
    }

    pub fn definition(&self) -> (d: ToolDefinition)
        ensures
            declares(d, "write_memory"@, "Write to the agent's persistent memory file by key."@,
                "{\"type\":\"object\",\"properties\":{\"key\":{\"type\":\"string\",\"description\":\"Memory key (e.g. 'global', 'session', or custom name)\"},\"content\":{\"type\":\"string\",\"description\":\"Markdown content to write\"}},\"required\":[\"key\",\"content\"]}"@,
                "Write Memory"@, (false, true, false, false, false), "memory"@, ("memory"@, "write"@), 10),
    {
        make_definition("write_memory", "Write to the agent's persistent memory file by key.",
            "{\"type\":\"object\",\"properties\":{\"key\":{\"type\":\"string\",\"description\":\"Memory key (e.g. 'global', 'session', or custom name)\"},\"content\":{\"type\":\"string\",\"description\":\"Markdown content to write\"}},\"required\":[\"key\",\"content\"]}",
            "Write Memory", annotations(false, true, false, false, false), "memory", "memory", "write", 10)
    }

    /// The file to write for `key`, once the key is valid.
    pub fn file_for(&self, key: &str) -> (r: Result<String, String>)
        ensures
            match memory_key_error(key@) {
                None => r matches Ok(p) && p@ == memory_file_spec(self.memory_dir@, key@),
                Some(msg) => r matches Err(m) && m@ == msg,
            },
    {
        match validate_memory_key(key) {
            Err(m) => Err(m),
            Ok(()) => Ok(memory_file(self.memory_dir.as_str(), key)),
        }
    }
}

} // verus!
