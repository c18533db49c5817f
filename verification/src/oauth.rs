//! The OpenAI OAuth flows: PKCE verifier and challenge, the authorization
//! URL, reading the browser's callback request, and the decisions of the
//! device-code polling loop.
//!
//! Opening the browser, the callback socket, the HTTP requests and the
//! waiting between polls are the caller's part.
use vstd::prelude::*;

use crate::credential::{encode, percent_encoded};
use crate::sandbox::pair_views;
use crate::skills::{char_is_whitespace, is_whitespace};
use crate::text::{chars_vec, push_str, str_eq, string_from_chars};

verus! {

/// The SHA-256 digest of `data`.
pub uninterp spec fn sha256(data: Seq<u8>) -> Seq<u8>;

/// The character of a six-bit value in the URL-safe base64 alphabet:
/// `A`-`Z`, `a`-`z`, `0`-`9`, `-`, `_`.
pub open spec fn b64_char(v: int) -> char {
    if v < 26 {
        (65 + v) as char
    } else if v < 52 {
        (97 + v - 26) as char
    } else if v < 62 {
        (48 + v - 52) as char
    } else if v == 62 {
        '-'
    } else {
        '_'
    }
}

/// The URL-safe base64 encoding of `data`, without padding: every three
/// bytes become four characters; a final one or two bytes become two or
/// three characters.
pub open spec fn base64_url(data: Seq<u8>) -> Seq<char>
    decreases data.len(),
{
    if data.len() == 0 {
        Seq::empty()
    } else {
        let a = data[0] as int;
        let b = if data.len() > 1 { data[1] as int } else { 0 };
        let c = if data.len() > 2 { data[2] as int } else { 0 };
        if data.len() == 1 {
            seq![b64_char(a / 4), b64_char((a % 4) * 16)]
        } else if data.len() == 2 {
            seq![b64_char(a / 4), b64_char((a % 4) * 16 + b / 16), b64_char((b % 16) * 4)]
        } else {
            seq![b64_char(a / 4), b64_char((a % 4) * 16 + b / 16), b64_char((b % 16) * 4 + c / 64), b64_char(c % 64)]
                + base64_url(data.skip(3))
        }
    }
}

/// The query pairs of `url` (names and values percent-decoded), or the
/// parse error's message.
pub uninterp spec fn url_query(url: Seq<char>) -> Result<Seq<(Seq<char>, Seq<char>)>, Seq<char>>;

/// `sha2::Sha256::digest`.  Trusted: the digest is named `sha256`; it is
/// 32 bytes long, as the output type fixes.
#[verifier::external_body]
fn sha256_of(data: &[u8]) -> (r: Vec<u8>)
    ensures
        r@ == sha256(data@),
        r@.len() == 32,
{
    <sha2::Sha256 as sha2::Digest>::digest(data).to_vec()
}

/// `base64::engine::general_purpose::URL_SAFE_NO_PAD.encode`.  Trusted:
/// the text is the unpadded URL-safe base64 of the bytes, as `base64_url`
/// spells it out (RFC 4648, section 5, without `=`).
#[verifier::external_body]
fn base64_url_of(data: &[u8]) -> (r: String)
    ensures
        r@ == base64_url(data@),
{
    base64::Engine::encode(&base64::engine::general_purpose::URL_SAFE_NO_PAD, data)
}

/// 32 bytes from `rand::rng()`.  Trusted: only their number is stated;
/// the bytes are random.
#[verifier::external_body]
fn random_bytes_32() -> (r: Vec<u8>)
    ensures
        r@.len() == 32,
{
    let mut bytes = [0u8; 32];
    rand::Rng::fill(&mut rand::rng(), &mut bytes[..]);
    bytes.to_vec()
}

/// `url::Url::parse`, then `Url::query_pairs`.  Trusted: the answer is
/// named `url_query`; an error is given by its message.
#[verifier::external_body]
fn query_pairs_of(url: &str) -> (r: Result<Vec<(String, String)>, String>)
    ensures
        match r {
            Ok(v) => url_query(url@) == Ok::<Seq<(Seq<char>, Seq<char>)>, Seq<char>>(pair_views(v@)),
            Err(e) => url_query(url@) == Err::<Seq<(Seq<char>, Seq<char>)>, Seq<char>>(e@),
        },
{
    match url::Url::parse(url) {
        Ok(u) => Ok(u.query_pairs().map(|(k, v)| (k.into_owned(), v.into_owned())).collect()),
        Err(e) => Err(e.to_string()),
    }
}

/// A new PKCE code verifier: 32 random bytes, URL-safe base64 encoded.
pub fn generate_code_verifier() -> (v: String)
    ensures
        exists|b: Seq<u8>| b.len() == 32 && v@ == #[trigger] base64_url(b),
{
    let bytes = random_bytes_32();
    base64_url_of(bytes.as_slice())
}

/// The S256 code challenge of a verifier: the URL-safe base64 encoding of
/// the SHA-256 digest of its UTF-8 bytes.
pub fn compute_code_challenge(verifier: &str) -> (c: String)
    ensures
        c@ == base64_url(sha256(vstd::utf8::encode_utf8(verifier@))),
{
    let digest = sha256_of(verifier.as_bytes());
    base64_url_of(digest.as_slice())
}

/// The URL-encoded form of `s`.
pub open spec fn url_encoded(s: Seq<char>) -> Seq<char> {
    percent_encoded(vstd::utf8::encode_utf8(s))
}

/// The OpenAI authorization URL for a code challenge.
pub open spec fn authorization_url(challenge: Seq<char>) -> Seq<char> {
    "https://auth.openai.com/authorize?response_type=code&client_id="@
        + url_encoded("app_scp_BIqDzYAUWMiRFEih7bh0N"@)
        + "&redirect_uri="@ + url_encoded("http://127.0.0.1:8769/callback"@)
        + "&scope="@ + url_encoded("openai.public"@)
        + "&code_challenge="@ + url_encoded(challenge)
        + "&code_challenge_method=S256"@
}

/// Builds the authorization URL the browser is sent to.
pub fn pkce_authorization_url(challenge: &str) -> (u: String)
    ensures
        u@ == authorization_url(challenge@),
{
    let mut u = "https://auth.openai.com/authorize?response_type=code&client_id=".to_owned();
    push_str(&mut u, encode("app_scp_BIqDzYAUWMiRFEih7bh0N").as_str());
    push_str(&mut u, "&redirect_uri=");
    push_str(&mut u, encode("http://127.0.0.1:8769/callback").as_str());
    push_str(&mut u, "&scope=");
    push_str(&mut u, encode("openai.public").as_str());
    push_str(&mut u, "&code_challenge=");
    push_str(&mut u, encode(challenge).as_str());
    push_str(&mut u, "&code_challenge_method=S256");
    u
}

/// The first position at or after `i` that holds a newline, if any.
pub open spec fn newline_from(s: Seq<char>, i: int) -> Option<int>
    decreases s.len() - i,
{
    if i < 0 || i >= s.len() {
        None
    } else if s[i] == '\n' {
        Some(i)
    } else {
        newline_from(s, i + 1)
    }
}

/// The first line of `s` as `str::lines` gives it: up to the first
/// newline, without a carriage return before it; none for empty text.
pub open spec fn first_line(s: Seq<char>) -> Option<Seq<char>> {
    if s.len() == 0 {
        None
    } else {
        match newline_from(s, 0) {
            None => Some(s),
            Some(i) => Some(if i > 0 && s[i - 1] == '\r' { s.take(i - 1) } else { s.take(i) }),
        }
    }
}

/// The first position at or after `i` that is not white space (or the
/// end).
pub open spec fn skip_space(s: Seq<char>, i: int) -> int
    decreases s.len() - i,
{
    if i < 0 || i >= s.len() {
        s.len() as int
    } else if is_whitespace(s[i]) {
        skip_space(s, i + 1)
    } else {
        i
    }
}

/// The first position at or after `i` that is white space (or the end).
pub open spec fn skip_word(s: Seq<char>, i: int) -> int
    decreases s.len() - i,
{
    if i < 0 || i >= s.len() {
        s.len() as int
    } else if !is_whitespace(s[i]) {
        skip_word(s, i + 1)
    } else {
        i
    }
}

/// The second white-space separated word of `s`, if any.
pub open spec fn second_word(s: Seq<char>) -> Option<Seq<char>> {
    let a = skip_word(s, skip_space(s, 0));
    let b = skip_space(s, a);
    if b < s.len() {
        Some(s.subrange(b, skip_word(s, b)))
    } else {
        None
    }
}

proof fn lemma_skip_space_bounds(s: Seq<char>, i: int)
    requires
        0 <= i <= s.len(),
    ensures
        i <= skip_space(s, i) <= s.len(),
        skip_space(s, i) < s.len() ==> !is_whitespace(s[skip_space(s, i)]),
    decreases s.len() - i,
{
    if i < s.len() && is_whitespace(s[i]) {
        lemma_skip_space_bounds(s, i + 1);
    }
}

proof fn lemma_skip_word_bounds(s: Seq<char>, i: int)
    requires
        0 <= i <= s.len(),
    ensures
        i <= skip_word(s, i) <= s.len(),
    decreases s.len() - i,
{
    if i < s.len() && !is_whitespace(s[i]) {
        lemma_skip_word_bounds(s, i + 1);
    }
}

fn skip_space_at(cs: &Vec<char>, i: usize) -> (r: usize)
    requires
        i <= cs@.len(),
    ensures
        r as int == skip_space(cs@, i as int),
        i <= r <= cs@.len(),
{
    let mut k = i;
    while k < cs.len() && char_is_whitespace(cs[k])
        invariant
            i <= k <= cs@.len(),
            skip_space(cs@, i as int) == skip_space(cs@, k as int),
        decreases cs.len() - k,
    {
        k = k + 1;
    }
    k
}

fn skip_word_at(cs: &Vec<char>, i: usize) -> (r: usize)
    requires
        i <= cs@.len(),
    ensures
        r as int == skip_word(cs@, i as int),
        i <= r <= cs@.len(),
{
    let mut k = i;
    while k < cs.len() && !char_is_whitespace(cs[k])
        invariant
            i <= k <= cs@.len(),
            skip_word(cs@, i as int) == skip_word(cs@, k as int),
        decreases cs.len() - k,
    {
        k = k + 1;
    }
    k
}

/// The requested path of an HTTP request: the second word of its first
/// line.
pub fn request_path(request: &str) -> (r: Option<String>)
    ensures
        match first_line(request@) {
            None => r is None,
            Some(l) => match second_word(l) {
                None => r is None,
                Some(p) => r matches Some(x) && x@ == p,
            },
        },
{
    let cs = chars_vec(request);
    let n = cs.len();
    if n == 0 {
        return None;
    }
    let mut e: usize = 0;
    while e < n && cs[e] != '\n'
        invariant
            e <= n,
            n == cs@.len(),
            newline_from(cs@, 0) == newline_from(cs@, e as int),
        decreases n - e,
    {
        e = e + 1;
    }
    let end = if e < n && e > 0 && cs[e - 1] == '\r' { e - 1 } else { e };
    let line_text = string_from_chars(cs.as_slice(), 0, end);
    let line = chars_vec(line_text.as_str());
    assert(first_line(request@) == Some(line@)) by {
        if e == n {
            assert(cs@.subrange(0, n as int) == cs@);
        } else {
            assert(cs@.subrange(0, end as int) == cs@.take(end as int));
        }
    }
    let a0 = skip_space_at(&line, 0);
    let a = skip_word_at(&line, a0);
    let b = skip_space_at(&line, a);
    if b < line.len() {
        let c = skip_word_at(&line, b);
        Some(string_from_chars(line.as_slice(), b, c))
    } else {
        None
    }
}

/// The value of the first pair named `key`.
pub open spec fn first_value(pairs: Seq<(Seq<char>, Seq<char>)>, key: Seq<char>) -> Option<Seq<char>>
    decreases pairs.len(),
{
    if pairs.len() == 0 {
        None
    } else if pairs[0].0 == key {
        Some(pairs[0].1)
    } else {
        first_value(pairs.drop_first(), key)
    }
}

fn first_value_of(pairs: &Vec<(String, String)>, key: &str) -> (r: Option<String>)
    ensures
        match first_value(pair_views(pairs@), key@) {
            Some(v) => r matches Some(x) && x@ == v,
            None => r is None,
        },
{
    let mut i: usize = 0;
    assert(pair_views(pairs@).skip(0) == pair_views(pairs@));
    while i < pairs.len()
        invariant
            i <= pairs@.len(),
            first_value(pair_views(pairs@), key@) == first_value(pair_views(pairs@).skip(i as int), key@),
        decreases pairs.len() - i,
    {
        assert(pair_views(pairs@).skip(i as int)[0] == (pairs@[i as int].0@, pairs@[i as int].1@));
        assert(pair_views(pairs@).skip(i as int).drop_first() == pair_views(pairs@).skip(i + 1));
        if str_eq(pairs[i].0.as_str(), key) {
            return Some(pairs[i].1.clone());
        }
        i = i + 1;
    }
    None
}

/// The page sent back to the browser after a callback.
pub enum CallbackReply {
    /// Authentication went through.
    Authenticated,
    /// The authorization server reported an error.
    Failed,
}

/// The page's text, an HTTP response.
pub open spec fn reply_text(r: CallbackReply) -> Seq<char> {
    match r {
        CallbackReply::Authenticated => "HTTP/1.1 200 OK\r\nContent-Type: text/html\r\n\r\n<html><body><h1>Authenticated!</h1><p>You can close this window and return to the terminal.</p></body></html>"@,
        CallbackReply::Failed => "HTTP/1.1 200 OK\r\nContent-Type: text/html\r\n\r\n<html><body><h1>Authentication Failed</h1><p>You can close this window.</p></body></html>"@,
    }
}

impl CallbackReply {
    /// The HTTP response to write.
    pub fn text(&self) -> (s: &'static str)
        ensures
            s@ == reply_text(*self),
    {
        match self {
            CallbackReply::Authenticated => "HTTP/1.1 200 OK\r\nContent-Type: text/html\r\n\r\n<html><body><h1>Authenticated!</h1><p>You can close this window and return to the terminal.</p></body></html>",
            CallbackReply::Failed => "HTTP/1.1 200 OK\r\nContent-Type: text/html\r\n\r\n<html><body><h1>Authentication Failed</h1><p>You can close this window.</p></body></html>",
        }
    }
}

/// What a callback request gives: the authorization code, or the error
/// message; and whether (and which) page is sent back.
pub open spec fn callback_outcome(request: Seq<char>) -> (Result<Seq<char>, Seq<char>>, Option<CallbackReply>) {
    let path = match first_line(request) {
        None => None,
        Some(l) => second_word(l),
    };
    match path {
        None => (Err("malformed callback request"@), None),
        Some(p) => match url_query("http://127.0.0.1:8769"@ + p) {
            Err(e) => (Err("failed to parse callback URL: "@ + e), None),
            Ok(pairs) => match first_value(pairs, "error"@) {
                Some(err) => (
                    Err("OAuth error: "@ + err + " \u{2014} "@ + match first_value(pairs, "error_description"@) {
                        Some(d) => d,
                        None => Seq::empty(),
                    }),
                    Some(CallbackReply::Failed),
                ),
                None => match first_value(pairs, "code"@) {
                    Some(c) => (Ok(c), Some(CallbackReply::Authenticated)),
                    None => (Err("no authorization code in callback"@), None),
                },
            },
        },
    }
}

/// Reads the browser's callback request (its text): the authorization
/// code or the error, and the page to send back, if any.
pub fn read_callback(request: &str) -> (r: (Result<String, String>, Option<CallbackReply>))
    ensures
        r.1 == callback_outcome(request@).1,
        match callback_outcome(request@).0 {
            Ok(c) => r.0 matches Ok(x) && x@ == c,
            Err(m) => r.0 matches Err(x) && x@ == m,
        },
{
    let path = match request_path(request) {
        None => return (Err("malformed callback request".to_owned()), None),
        Some(p) => p,
    };
    let mut url = "http://127.0.0.1:8769".to_owned();
    push_str(&mut url, path.as_str());
    let pairs = match query_pairs_of(url.as_str()) {
        Err(e) => {
            let mut m = "failed to parse callback URL: ".to_owned();
            push_str(&mut m, e.as_str());
            return (Err(m), None);
        },
        Ok(v) => v,
    };
    match first_value_of(&pairs, "error") {
        Some(err) => {
            let desc = match first_value_of(&pairs, "error_description") {
                Some(d) => d,
                None => String::new(),
            };
            let mut m = "OAuth error: ".to_owned();
            push_str(&mut m, err.as_str());
            push_str(&mut m, " \u{2014} ");
            push_str(&mut m, desc.as_str());
            (Err(m), Some(CallbackReply::Failed))
        },
        None => match first_value_of(&pairs, "code") {
            Some(c) => (Ok(c), Some(CallbackReply::Authenticated)),
            None => (Err("no authorization code in callback".to_owned()), None),
        },
    }
}

/// Seconds between device-code polls: the server's interval, at least 5.
pub fn poll_interval_secs(interval: u64) -> (s: u64)
    ensures
        s == if interval < 5 { 5 } else { interval },
{
    if interval < 5 { 5 } else { interval }
}

/// Seconds the device code is polled for: its lifetime, at most 900.
pub fn poll_window_secs(expires_in: u64) -> (s: u64)
    ensures
        s == if expires_in > 900 { 900 } else { expires_in },
{
    if expires_in > 900 { 900 } else { expires_in }
}

/// What to do after a device-code poll.
pub enum PollStep {
    /// The user authorized: the body holds the tokens.
    Authorized,
    /// Not yet: poll again, after waiting `extra_secs` more.
    Wait { extra_secs: u64 },
    /// Give up with this message.
    Fail { message: String },
}

/// The failure message for a response with an unexpected status.
pub open spec fn status_failure(what: Seq<char>, status: Seq<char>, body: Seq<char>) -> Seq<char> {
    what + " ("@ + status + "): "@ + body
}

/// Builds the failure message for a response with an unexpected status.
pub fn status_failure_message(what: &str, status: &str, body: &str) -> (m: String)
    ensures
        m@ == status_failure(what@, status@, body@),
{
    let mut m = what.to_owned();
    push_str(&mut m, " (");
    push_str(&mut m, status);
    push_str(&mut m, "): ");
    push_str(&mut m, body);
    m
}

/// The step after a device-code poll answered with a success flag, status
/// and body; `oauth_error` is the body read as an OAuth error response
/// (its `error` and `error_description`), when it is one.
pub fn device_poll_step(success: bool, status: &str, body: &str, oauth_error: Option<(String, Option<String>)>) -> (r: PollStep)
    ensures
        success ==> r is Authorized,
        !success ==> match oauth_error {
            None => r matches PollStep::Fail { message } && message@ == status_failure("unexpected device token response"@, status@, body@),
            Some((e, d)) => if e@ == "authorization_pending"@ {
                r matches PollStep::Wait { extra_secs } && extra_secs == 0
            } else if e@ == "slow_down"@ {
                r matches PollStep::Wait { extra_secs } && extra_secs == 5
            } else if e@ == "expired_token"@ {
                r matches PollStep::Fail { message } && message@ == "device code expired, please try again"@
            } else if e@ == "access_denied"@ {
                r matches PollStep::Fail { message } && message@ == "authorization denied by user"@
            } else {
                r matches PollStep::Fail { message } && message@ == "device auth error: "@ + match d {
                    Some(t) => t@,
                    None => e@,
                }
            },
        },
{
    if success {
        return PollStep::Authorized;
    }
    match oauth_error {
        None => PollStep::Fail { message: status_failure_message("unexpected device token response", status, body) },
        Some((e, d)) => {
            if str_eq(e.as_str(), "authorization_pending") {
                PollStep::Wait { extra_secs: 0 }
            } else if str_eq(e.as_str(), "slow_down") {
                PollStep::Wait { extra_secs: 5 }
            } else if str_eq(e.as_str(), "expired_token") {
                PollStep::Fail { message: "device code expired, please try again".to_owned() }
            } else if str_eq(e.as_str(), "access_denied") {
                PollStep::Fail { message: "authorization denied by user".to_owned() }
            } else {
                let mut m = "device auth error: ".to_owned();
                match d {
                    Some(t) => push_str(&mut m, t.as_str()),
                    None => push_str(&mut m, e.as_str()),
                }
                PollStep::Fail { message: m }
            }
        },
    }
}

} // verus!
