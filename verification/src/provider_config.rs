//! Model provider configuration: OpenAI-compatible, Ollama, Anthropic and
//! the local apfel server.  Reading the environment and talking HTTP is the
//! caller's part; the values read are handed in here.
use vstd::prelude::*;

use crate::text::{chars_vec, decimal, parse_u64, parsed_u64, push_str, string_from_chars, u64_to_decimal};

verus! {

/// What a `u32` setting reads as: the number when the text parses as one.
pub open spec fn parsed_u32(s: Seq<char>) -> Option<u32> {
    match parsed_u64(s) {
        Some(n) => if n <= u32::MAX { Some(n as u32) } else { None },
        None => None,
    }
}

/// Parses a `u32` as `str::parse::<u32>` does.
pub fn parse_u32(s: &str) -> (r: Option<u32>)
    ensures
        r == parsed_u32(s@),
{
    match parse_u64(s) {
        Some(n) => if n <= 4294967295 { Some(n as u32) } else { None },
        None => None,
    }
}

/// A token limit setting: the number it holds, or 4096 when absent or not a
/// number.
pub open spec fn token_limit(setting: Option<Seq<char>>) -> u32 {
    match setting {
        Some(s) => match parsed_u32(s) {
            Some(n) => n,
            None => 4096,
        },
        None => 4096,
    }
}

fn token_limit_of(setting: &Option<String>) -> (n: u32)
    ensures
        n == token_limit(match setting { Some(s) => Some(s@), None => None }),
{
    match setting {
        Some(s) => match parse_u32(s.as_str()) {
            Some(n) => n,
            None => 4096,
        },
        None => 4096,
    }
}

/// `o`'s text, or `d`.
pub open spec fn or_text(o: Option<String>, d: Seq<char>) -> Seq<char> {
    match o {
        Some(s) => s@,
        None => d,
    }
}

fn or_string(o: Option<String>, d: &str) -> (r: String)
    ensures
        r@ == or_text(o, d@),
{
    match o {
        Some(s) => s,
        None => d.to_owned(),
    }
}

/// The settings of an OpenAI-compatible endpoint.
pub struct OpenAiConfig {
    pub api_key: String,
    pub model: String,
    pub max_tokens: u32,
    pub base_url: String,
    pub provider_name: String,
}

impl OpenAiConfig {
    /// OpenAI's settings from the values of `OPENAI_API_KEY` (required),
    /// `OPENAI_MODEL` (`gpt-4o`), `OPENAI_MAX_TOKENS` (4096) and
    /// `OPENAI_BASE_URL` (`https://api.openai.com`).
    pub fn openai_from_values(api_key: Option<String>, model: Option<String>, max_tokens: Option<String>, base_url: Option<String>) -> (r: Result<Self, String>)
        ensures
            api_key is None ==> (r matches Err(m) && m@ == "OPENAI_API_KEY environment variable not set"@),
            api_key matches Some(k) ==> (r matches Ok(c)
                && c.api_key@ == k@
                && c.model@ == or_text(model, "gpt-4o"@)
                && c.max_tokens == token_limit(match max_tokens { Some(s) => Some(s@), None => None })
                && c.base_url@ == or_text(base_url, "https://api.openai.com"@)
                && c.provider_name@ == "openai"@),
    {
        let api_key = match api_key {
            Some(k) => k,
            None => return Err("OPENAI_API_KEY environment variable not set".to_owned()),
        };
        let max_tokens = token_limit_of(&max_tokens);
        Ok(OpenAiConfig {
            api_key,
            model: or_string(model, "gpt-4o"),
            max_tokens,
            base_url: or_string(base_url, "https://api.openai.com"),
            provider_name: "openai".to_owned(),
        })
    }

    /// Ollama's settings from the values of `OLLAMA_MODEL` (`llama3.2`),
    /// `OLLAMA_MAX_TOKENS` (4096) and `OLLAMA_BASE_URL`
    /// (`http://localhost:11434`), with no API key.
    pub fn ollama_from_values(model: Option<String>, max_tokens: Option<String>, base_url: Option<String>) -> (c: Self)
        ensures
            c.api_key@.len() == 0,
            c.model@ == or_text(model, "llama3.2"@),
            c.max_tokens == token_limit(match max_tokens { Some(s) => Some(s@), None => None }),
            c.base_url@ == or_text(base_url, "http://localhost:11434"@),
            c.provider_name@ == "ollama"@,
    {
        let max_tokens = token_limit_of(&max_tokens);
        OpenAiConfig {
            api_key: String::new(),
            model: or_string(model, "llama3.2"),
            max_tokens,
            base_url: or_string(base_url, "http://localhost:11434"),
            provider_name: "ollama".to_owned(),
        }
    }
}

/// The settings of the Anthropic API.
pub struct AnthropicConfig {
    pub api_key: String,
    pub model: String,
    pub max_tokens: u32,
    pub base_url: String,
}

impl AnthropicConfig {
    /// The settings from the values of `ANTHROPIC_API_KEY` (required),
    /// `ANTHROPIC_MODEL` (`default_model` when unset), `ANTHROPIC_MAX_TOKENS`
    /// (4096) and `ANTHROPIC_BASE_URL` (`https://api.anthropic.com`).
    pub fn from_values(api_key: Option<String>, model: Option<String>, default_model: &str, max_tokens: Option<String>, base_url: Option<String>) -> (r: Result<Self, String>)
        ensures
            api_key is None ==> (r matches Err(m) && m@ == "ANTHROPIC_API_KEY environment variable not set"@),
            api_key matches Some(k) ==> (r matches Ok(c)
                && c.api_key@ == k@
                && c.model@ == or_text(model, default_model@)
                && c.max_tokens == token_limit(match max_tokens { Some(s) => Some(s@), None => None })
                && c.base_url@ == or_text(base_url, "https://api.anthropic.com"@)),
    {
        let api_key = match api_key {
            Some(k) => k,
            None => return Err("ANTHROPIC_API_KEY environment variable not set".to_owned()),
        };
        let max_tokens = token_limit_of(&max_tokens);
        Ok(AnthropicConfig {
            api_key,
            model: or_string(model, default_model),
            max_tokens,
            base_url: or_string(base_url, "https://api.anthropic.com"),
        })
    }
}

/// The port apfel serves on by default.
pub const DEFAULT_PORT: u16 = 11435;

/// What the apfel server reports about its model.
pub struct ApfelModelInfo {
    pub model: String,
    pub context_window: u32,
    pub version: String,
    pub languages: Vec<String>,
}

/// The apfel base URL: `APFEL_BASE_URL` when set, else the default port on
/// localhost.
pub fn resolve_base_url(setting: Option<String>) -> (r: String)
    ensures
        r@ == or_text(setting, "http://localhost:"@ + decimal(DEFAULT_PORT as nat)),
{
    match setting {
        Some(s) => s,
        None => {
            let mut r = "http://localhost:".to_owned();
            let p = u64_to_decimal(DEFAULT_PORT as u64);
            push_str(&mut r, p.as_str());
            r
        },
    }
}

/// `s` without its trailing `/` characters.
pub open spec fn trim_trailing_slashes(s: Seq<char>) -> Seq<char>
    decreases s.len(),
{
    if s.len() > 0 && s.last() == '/' { trim_trailing_slashes(s.drop_last()) } else { s }
}

/// The text after the last `:` of `s` (all of `s` without one).
pub open spec fn after_last_colon(s: Seq<char>) -> Seq<char>
    decreases s.len(),
{
    if s.len() == 0 {
        s
    } else if s.last() == ':' {
        Seq::empty()
    } else {
        after_last_colon(s.drop_last()).push(s.last())
    }
}

/// The port of an apfel base URL: the number after its last `:` (trailing
/// slashes ignored), or the default port.
pub open spec fn apfel_port_spec(base_url: Seq<char>) -> u16 {
    match parsed_u64(trim_trailing_slashes(after_last_colon(base_url))) {
        Some(n) => if n <= u16::MAX { n as u16 } else { DEFAULT_PORT },
        None => DEFAULT_PORT,
    }
}

/// The port apfel is started on for a base URL.
pub fn apfel_port(base_url: &str) -> (p: u16)
    ensures
        p == apfel_port_spec(base_url@),
{
    let cs = chars_vec(base_url);
    let n = cs.len();
    let mut start: usize = n;
    assert(cs@.take(n as int) =~= cs@);
    assert(cs@.subrange(n as int, n as int) =~= Seq::<char>::empty());
    while start > 0 && cs[start - 1] != ':'
        invariant
            start <= n,
            n == cs@.len(),
            after_last_colon(cs@) == after_last_colon(cs@.take(start as int)) + cs@.subrange(start as int, n as int),
        decreases start,
    {
        let ghost t = cs@.take(start as int);
        assert(t.drop_last() == cs@.take(start - 1));
        assert(cs@.subrange(start - 1, n as int) == seq![t.last()] + cs@.subrange(start as int, n as int));
        start = start - 1;
    }
    proof {
        if start > 0 {
            assert(cs@.take(start as int).last() == ':');
        } else {
            assert(cs@.take(0) =~= Seq::<char>::empty());
        }
    }
    let mut end: usize = n;
    while end > start && cs[end - 1] == '/'
        invariant
            start <= end <= n,
            n == cs@.len(),
            trim_trailing_slashes(cs@.subrange(start as int, n as int)) == trim_trailing_slashes(cs@.subrange(start as int, end as int)),
        decreases end,
    {
        assert(cs@.subrange(start as int, end as int).drop_last() == cs@.subrange(start as int, end - 1));
        end = end - 1;
    }
    let tail = string_from_chars(cs.as_slice(), start, end);
    assert(after_last_colon(base_url@) == cs@.subrange(start as int, n as int)) by {
        assert(cs@ == base_url@);
    }
    match parse_u64(tail.as_str()) {
        Some(v) => if v <= 65535 { v as u16 } else { DEFAULT_PORT },
        None => DEFAULT_PORT,
    }
}

/// `s` without its trailing `/` characters (`trim_end_matches('/')`).
pub fn strip_trailing_slashes(s: &str) -> (r: String)
    ensures
        r@ == trim_trailing_slashes(s@),
{
    let cs = chars_vec(s);
    let mut end: usize = cs.len();
    assert(cs@.take(end as int) =~= cs@);
    while end > 0 && cs[end - 1] == '/'
        invariant
            end <= cs@.len(),
            cs@ == s@,
            trim_trailing_slashes(s@) == trim_trailing_slashes(cs@.take(end as int)),
        decreases end,
    {
        assert(cs@.take(end as int).drop_last() == cs@.take(end - 1));
        end = end - 1;
    }
    assert(cs@.subrange(0, end as int) == cs@.take(end as int));
    string_from_chars(cs.as_slice(), 0, end)
}

/// The health endpoint of a base URL.
pub fn health_url(base_url: &str) -> (r: String)
    ensures
        r@ == trim_trailing_slashes(base_url@) + "/health"@,
{
    let mut r = strip_trailing_slashes(base_url);
    push_str(&mut r, "/health");
    r
}

/// Whether a health report says the server is usable.
pub fn health_ok(status: &str, model_available: bool) -> (b: bool)
    ensures
        b == (status@ == "ok"@ && model_available),
{
    crate::text::str_eq(status, "ok") && model_available
}

/// The next wait between readiness polls: doubled, at most a second.
pub fn next_poll_delay_ms(delay_ms: u64) -> (d: u64)
    ensures
        d == (if delay_ms * 2 <= 1000 { delay_ms * 2 } else { 1000 }),
{
    if delay_ms <= 500 { delay_ms * 2 } else { 1000 }
}

} // verus!
