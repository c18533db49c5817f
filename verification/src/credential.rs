//! Provider credentials: static API keys and OAuth token sets, with the
//! PKCE helpers, the token lifecycle decisions and URL encoding.
//!
//! HTTP exchanges, the local callback listener and the credentials files are
//! the caller's part.
use vstd::prelude::*;

use crate::fs::{join, join_path};
use crate::text::{push_char, push_str};

verus! {

/// Something that authorises provider requests.
pub trait Credential {
    /// The value of the authorisation header, or why there is none.
    fn auth_header(&self) -> Result<String, String>;

    /// What kind of credential this is.
    fn kind(&self) -> &'static str;

    /// Whether the credential must be refreshed before use.
    fn needs_refresh(&self) -> bool;
}

/// A bearer API key.
pub struct ApiKeyCredential {
    api_key: String,
}

impl ApiKeyCredential {
    /// The key.
    pub closed spec fn key(&self) -> Seq<char> {
        self.api_key@
    }

    pub fn new(api_key: String) -> (c: Self)
        ensures
            c.key() == api_key@,
    {
        ApiKeyCredential { api_key }
    }

    /// The key itself.
    pub fn raw_key(&self) -> (k: &str)
        ensures
            k@ == self.key(),
    {
        self.api_key.as_str()
    }

    /// Whether the key is empty.
    pub fn is_empty(&self) -> (b: bool)
        ensures
            b == (self.key().len() == 0),
    {
        self.api_key.as_str().as_bytes().len() == 0
    }

    /// How the credential prints: the key is redacted.
    pub fn debug_string(&self) -> (s: String)
        ensures
            s@ == "ApiKeyCredential { api_key: \"[REDACTED]\" }"@,
    {
        "ApiKeyCredential { api_key: \"[REDACTED]\" }".to_owned()
    }
}

impl Credential for ApiKeyCredential {
    /// `Bearer <key>`; an empty key is refused.
    fn auth_header(&self) -> (r: Result<String, String>)
        ensures
            self.key().len() == 0 ==> (r matches Err(m) && m@ == "API key is empty"@),
            self.key().len() > 0 ==> (r matches Ok(h) && h@ == "Bearer "@ + self.key()),
    {
        if self.api_key.as_str().as_bytes().len() == 0 {
            return Err("API key is empty".to_owned());
        }
        let mut h = "Bearer ".to_owned();
        push_str(&mut h, self.api_key.as_str());
        Ok(h)
    }

    fn kind(&self) -> (k: &'static str)
        ensures
            k@ == "api_key"@,
    {
        "api_key"
    }

    fn needs_refresh(&self) -> (b: bool)
        ensures
            !b,
    {
        false
    }
}

/// An Anthropic API key, sent as is.
pub struct AnthropicApiKeyCredential {
    api_key: String,
}

impl AnthropicApiKeyCredential {
    /// The key.
    pub closed spec fn key(&self) -> Seq<char> {
        self.api_key@
    }

    pub fn new(api_key: String) -> (c: Self)
        ensures
            c.key() == api_key@,
    {
        AnthropicApiKeyCredential { api_key }
    }

    /// The key itself.
    pub fn raw_key(&self) -> (k: &str)
        ensures
            k@ == self.key(),
    {
        self.api_key.as_str()
    }

    /// How the credential prints: the key is redacted.
    pub fn debug_string(&self) -> (s: String)
        ensures
            s@ == "AnthropicApiKeyCredential { api_key: \"[REDACTED]\" }"@,
    {
        "AnthropicApiKeyCredential { api_key: \"[REDACTED]\" }".to_owned()
    }
}

impl Credential for AnthropicApiKeyCredential {
    /// The key itself; an empty key is refused.
    fn auth_header(&self) -> (r: Result<String, String>)
        ensures
            self.key().len() == 0 ==> (r matches Err(m) && m@ == "Anthropic API key is empty"@),
            self.key().len() > 0 ==> (r matches Ok(h) && h@ == self.key()),
    {
        if self.api_key.as_str().as_bytes().len() == 0 {
            return Err("Anthropic API key is empty".to_owned());
        }
        Ok(self.api_key.clone())
    }

    fn kind(&self) -> (k: &'static str)
        ensures
            k@ == "anthropic_api_key"@,
    {
        "anthropic_api_key"
    }

    fn needs_refresh(&self) -> (b: bool)
        ensures
            !b,
    {
        false
    }
}

/// An OAuth token set: the access token, the refresh token when granted,
/// the expiry (seconds since the epoch) and the provider.
pub struct OAuthTokenSet {
    pub access_token: String,
    pub refresh_token: Option<String>,
    pub expires_at: u64,
    pub provider: String,
}

/// The current time in seconds since the Unix epoch (std `SystemTime::now`);
/// 0 before the epoch.  Nothing is stated of the value.
#[verifier::external_body]
fn now_secs() -> (t: u64) {
    match std::time::SystemTime::now().duration_since(std::time::UNIX_EPOCH) {
        Ok(d) => d.as_secs(),
        Err(_) => 0,
    }
}

/// Whether a token expiring at `expires_at` counts as expired at `now`:
/// within a minute of its expiry it already does.
pub open spec fn expired_at(expires_at: u64, now: u64) -> bool {
    now >= (if expires_at >= 60 { expires_at - 60 } else { 0 })
}

impl OAuthTokenSet {
    /// Whether the tokens count as expired at time `now`.
    pub fn is_expired_at(&self, now: u64) -> (b: bool)
        ensures
            b == expired_at(self.expires_at, now),
    {
        now >= self.expires_at.saturating_sub(60)
    }

    /// Whether the tokens count as expired now: the answer of
    /// `is_expired_at` at the time the clock gave (the clock's reading is
    /// not stated).
    pub fn is_expired(&self) -> (b: bool)
        ensures
            exists|t: u64| b == #[trigger] expired_at(self.expires_at, t),
            self.expires_at <= 60 ==> b,
    {
        let t = now_secs();
        let b = self.is_expired_at(t);
        assert(b == expired_at(self.expires_at, t));
        b
    }
}

/// The token set a token response yields at time `now` for `provider`:
/// its tokens, expiring `expires_in` seconds later (an hour when the
/// response gives no lifetime).
pub fn token_set_from(access_token: String, refresh_token: Option<String>, expires_in: Option<u64>, provider: &str, now: u64) -> (t: OAuthTokenSet)
    requires
        now + (match expires_in { Some(e) => e, None => 3600u64 }) <= u64::MAX,
    ensures
        t.access_token@ == access_token@,
        t.refresh_token == refresh_token,
        t.expires_at == now + (match expires_in { Some(e) => e, None => 3600u64 }),
        t.provider@ == provider@,
{
    let lifetime = match expires_in {
        Some(e) => e,
        None => 3600,
    };
    OAuthTokenSet { access_token, refresh_token, expires_at: now + lifetime, provider: provider.to_owned() }
}

/// The OpenAI OAuth client id.
pub open spec fn openai_client_id() -> Seq<char> {
    "app_scp_BIqDzYAUWMiRFEih7bh0N"@
}

/// The OpenAI token endpoint.
pub open spec fn openai_token_url() -> Seq<char> {
    "https://auth.openai.com/oauth/token"@
}

/// What to do before authorising a request with OAuth tokens.
pub enum AuthStep {
    /// Send this header.
    Ready(String),
    /// Refresh first, with this refresh token.
    Refresh(String),
    /// The tokens expired and cannot be refreshed.
    Fail(String),
}

/// OAuth tokens with the client and endpoint that refresh them.
pub struct OAuthCredential {
    pub tokens: OAuthTokenSet,
    pub client_id: String,
    pub token_url: String,
}

impl OAuthCredential {
    pub fn new(tokens: OAuthTokenSet, client_id: String, token_url: String) -> (c: Self)
        ensures
            c.tokens == tokens,
            c.client_id@ == client_id@,
            c.token_url@ == token_url@,
    {
        OAuthCredential { tokens, client_id, token_url }
    }

    /// OAuth tokens of OpenAI's public client.
    pub fn openai(tokens: OAuthTokenSet) -> (c: Self)
        ensures
            c.tokens == tokens,
            c.client_id@ == openai_client_id(),
            c.token_url@ == openai_token_url(),
    {
        OAuthCredential::new(tokens, "app_scp_BIqDzYAUWMiRFEih7bh0N".to_owned(), "https://auth.openai.com/oauth/token".to_owned())
    }

    /// The provider the tokens belong to.
    pub fn provider_name(&self) -> (p: String)
        ensures
            p@ == self.tokens.provider@,
    {
        self.tokens.provider.clone()
    }

    /// How the credential prints: provider and endpoint, no tokens.
    pub fn debug_string(&self) -> (s: String)
        ensures
            s@ == "OAuthCredential { provider: \""@ + self.tokens.provider@ + "\", token_url: \""@ + self.token_url@ + "\" }"@,
    {
        let mut s = "OAuthCredential { provider: \"".to_owned();
        push_str(&mut s, self.tokens.provider.as_str());
        push_str(&mut s, "\", token_url: \"");
        push_str(&mut s, self.token_url.as_str());
        push_str(&mut s, "\" }");
        s
    }

    /// What authorising a request at time `now` takes: the bearer header
    /// while the tokens are fresh, otherwise a refresh with the refresh
    /// token, or a failure when there is none.
    pub fn auth_step(&self, now: u64) -> (r: AuthStep)
        ensures
            !expired_at(self.tokens.expires_at, now) ==> (r matches AuthStep::Ready(h) && h@ == "Bearer "@ + self.tokens.access_token@),
            expired_at(self.tokens.expires_at, now) ==> match self.tokens.refresh_token {
                Some(rt) => r matches AuthStep::Refresh(x) && x@ == rt@,
                None => r matches AuthStep::Fail(m) && m@ == "no refresh token available, re-login required"@,
            },
    {
        if !self.tokens.is_expired_at(now) {
            let mut h = "Bearer ".to_owned();
            push_str(&mut h, self.tokens.access_token.as_str());
            return AuthStep::Ready(h);
        }
        match &self.tokens.refresh_token {
            Some(rt) => AuthStep::Refresh(rt.clone()),
            None => AuthStep::Fail("no refresh token available, re-login required".to_owned()),
        }
    }

    /// Takes in refreshed tokens: the new access token and expiry, and the
    /// new refresh token when one was granted (the old one is kept
    /// otherwise).
    pub fn apply_refresh(&mut self, fresh: OAuthTokenSet)
        ensures
            final(self).tokens.access_token == fresh.access_token,
            final(self).tokens.expires_at == fresh.expires_at,
            final(self).tokens.refresh_token == (match fresh.refresh_token {
                Some(rt) => Some(rt),
                None => old(self).tokens.refresh_token,
            }),
            final(self).tokens.provider == old(self).tokens.provider,
            final(self).client_id == old(self).client_id,
            final(self).token_url == old(self).token_url,
    {
        self.tokens.access_token = fresh.access_token;
        match fresh.refresh_token {
            Some(rt) => {
                self.tokens.refresh_token = Some(rt);
            },
            None => {},
        }
        self.tokens.expires_at = fresh.expires_at;
    }
}

/// The authorisation header of OAuth tokens at time `now`: the bearer
/// header while they are fresh; once expired, a request to refresh when a
/// refresh token is held, else the demand to log in again.
pub open spec fn oauth_header_at(tokens: OAuthTokenSet, now: u64) -> Result<Seq<char>, Seq<char>> {
    if !expired_at(tokens.expires_at, now) {
        Ok("Bearer "@ + tokens.access_token@)
    } else if tokens.refresh_token is Some {
        Err("token expired; refresh required"@)
    } else {
        Err("no refresh token available, re-login required"@)
    }
}

/// A header outcome as plain text.
pub open spec fn header_view(r: Result<String, String>) -> Result<Seq<char>, Seq<char>> {
    match r {
        Ok(h) => Ok(h@),
        Err(m) => Err(m@),
    }
}

impl Credential for OAuthCredential {
    /// The header of the tokens at the time the clock gave (the clock's
    /// reading is not stated).
    fn auth_header(&self) -> (r: Result<String, String>)
        ensures
            exists|t: u64| header_view(r) == #[trigger] oauth_header_at(self.tokens, t),
            r matches Ok(h) ==> h@ == "Bearer "@ + self.tokens.access_token@,
    {
        let t = now_secs();
        let r = match self.auth_step(t) {
            AuthStep::Ready(h) => Ok(h),
            AuthStep::Refresh(_) => Err("token expired; refresh required".to_owned()),
            AuthStep::Fail(m) => Err(m),
        };
        assert(header_view(r) == oauth_header_at(self.tokens, t));
        r
    }

    fn kind(&self) -> (k: &'static str)
        ensures
            k@ == "oauth"@,
    {
        "oauth"
    }

    /// Whether the tokens are expired at the time the clock gave (the
    /// clock's reading is not stated).
    fn needs_refresh(&self) -> (b: bool)
        ensures
            exists|t: u64| b == #[trigger] expired_at(self.tokens.expires_at, t),
            self.tokens.expires_at <= 60 ==> b,
    {
        self.tokens.is_expired()
    }
}

/// The directory of stored credentials under a home directory.
pub fn credentials_dir(home: &str) -> (p: String)
    ensures
        p@ == join_path(join_path(home@, ".arcan"@), "credentials"@),
{
    let a = join(home, ".arcan");
    join(a.as_str(), "credentials")
}

/// The file of a provider's stored credentials: `<provider>.json` in the
/// credentials directory.
pub fn credential_path(home: &str, provider: &str) -> (p: String)
    ensures
        p@ == join_path(join_path(join_path(home@, ".arcan"@), "credentials"@), provider@ + ".json"@),
{
    let dir = credentials_dir(home);
    let mut name = provider.to_owned();
    push_str(&mut name, ".json");
    join(dir.as_str(), name.as_str())
}

/// The provider whose credentials a file holds: its name without `.json`.
pub open spec fn stored_provider(file_name: Seq<char>) -> Option<Seq<char>> {
    if file_name.len() >= 5 && file_name.skip(file_name.len() - 5) == ".json"@ {
        Some(file_name.take(file_name.len() - 5))
    } else {
        None
    }
}

/// The provider of a credentials file, if its name ends in `.json`.
pub fn stored_provider_of(file_name: &str) -> (r: Option<String>)
    ensures
        match r {
            Some(p) => stored_provider(file_name@) == Some(p@),
            None => stored_provider(file_name@) is None,
        },
{
    proof {
        reveal_strlit(".json");
    }
    let cs = crate::text::chars_vec(file_name);
    let suffix = crate::text::chars_vec(".json");
    let n = cs.len();
    assert(suffix@.len() == 5);
    if n < 5 {
        return None;
    }
    let mut k: usize = 0;
    while k < 5
        invariant
            suffix@.len() == 5,
            cs@ == file_name@,
            n == cs@.len(),
            n >= 5,
            suffix@ == ".json"@,
            k <= 5,
            forall|j: int| 0 <= j < k ==> cs@[n - 5 + j] == suffix@[j],
        decreases 5 - k,
    {
        if cs[n - 5 + k] != suffix[k] {
            assert(cs@.skip(n - 5)[k as int] != ".json"@[k as int]);
            return None;
        }
        k = k + 1;
    }
    assert(cs@.skip(n - 5) =~= ".json"@);
    Some(crate::text::string_from_chars(cs.as_slice(), 0, n - 5))
}

/// Whether `b` passes through URL encoding unchanged: ASCII letters,
/// digits, `-`, `_`, `.` and `~`.
pub open spec fn unreserved(b: u8) -> bool {
    (0x41 <= b <= 0x5A) || (0x61 <= b <= 0x7A) || (0x30 <= b <= 0x39) || b == 0x2D || b == 0x5F || b == 0x2E || b == 0x7E
}

/// The upper-case hexadecimal digit of `d` (`0 <= d < 16`).
pub open spec fn hex_upper(d: nat) -> char {
    if d < 10 { ((d + 48) as u8) as char } else { ((d + 55) as u8) as char }
}

/// The percent-encoding of `bytes`: unreserved bytes as themselves, every
/// other byte as `%` and two upper-case hexadecimal digits.
pub open spec fn percent_encoded(bytes: Seq<u8>) -> Seq<char>
    decreases bytes.len(),
{
    if bytes.len() == 0 {
        Seq::empty()
    } else {
        let b = bytes.last();
        percent_encoded(bytes.drop_last()) + if unreserved(b) {
            seq![b as char]
        } else {
            seq!['%', hex_upper(b as nat / 16), hex_upper(b as nat % 16)]
        }
    }
}

/// The bytes as characters, one for one.
pub open spec fn byte_chars(b: Seq<u8>) -> Seq<char> {
    b.map_values(|x: u8| x as char)
}

proof fn lemma_percent_encoded_len(b: Seq<u8>)
    ensures
        percent_encoded(b).len() >= b.len(),
        (exists|i: int| 0 <= i < b.len() && !unreserved(#[trigger] b[i])) ==> percent_encoded(b).len() > b.len(),
    decreases b.len(),
{
    if b.len() > 0 {
        lemma_percent_encoded_len(b.drop_last());
        if exists|i: int| 0 <= i < b.len() && !unreserved(#[trigger] b[i]) {
            let i = choose|i: int| 0 <= i < b.len() && !unreserved(#[trigger] b[i]);
            if i < b.len() - 1 {
                assert(b.drop_last()[i] == b[i]);
            }
        }
    }
}

/// Percent-encoding gives ASCII text, and it leaves the bytes as they are
/// (as characters) exactly when every byte is unreserved.
pub proof fn lemma_percent_encoding_laws(b: Seq<u8>)
    ensures
        forall|i: int| 0 <= i < percent_encoded(b).len() ==> (#[trigger] percent_encoded(b)[i] as u32) < 128,
        (forall|i: int| 0 <= i < b.len() ==> unreserved(#[trigger] b[i])) <==> percent_encoded(b) == byte_chars(b),
    decreases b.len(),
{
    lemma_percent_encoded_len(b);
    if b.len() > 0 {
        let p = b.drop_last();
        lemma_percent_encoding_laws(p);
        let x = b.last();
        let tail = if unreserved(x) { seq![x as char] } else { seq!['%', hex_upper(x as nat / 16), hex_upper(x as nat % 16)] };
        assert(percent_encoded(b) == percent_encoded(p) + tail);
        assert forall|i: int| 0 <= i < percent_encoded(b).len() implies (#[trigger] percent_encoded(b)[i] as u32) < 128 by {
            if i >= percent_encoded(p).len() {
                let k = i - percent_encoded(p).len();
                assert(percent_encoded(b)[i] == tail[k]);
                if unreserved(x) {
                    assert((x as char) as u32 == x as u32);
                } else {
                    assert(k == 0 || k == 1 || k == 2);
                }
            } else {
                assert(percent_encoded(b)[i] == percent_encoded(p)[i]);
            }
        }
        if forall|i: int| 0 <= i < b.len() ==> unreserved(#[trigger] b[i]) {
            assert forall|i: int| 0 <= i < p.len() implies unreserved(#[trigger] p[i]) by {
                assert(p[i] == b[i]);
            }
            assert(unreserved(b[b.len() - 1]));
            assert(byte_chars(b) == byte_chars(p).push(x as char));
            assert(percent_encoded(b) == byte_chars(b));
        } else {
            assert(percent_encoded(b).len() > b.len());
            assert(byte_chars(b).len() == b.len());
        }
    } else {
        assert(byte_chars(b) =~= Seq::<char>::empty());
    }
}

fn hex_digit_upper(d: u8) -> (c: char)
    requires
        d < 16,
    ensures
        c == hex_upper(d as nat),
{
    if d < 10 { (d + 48) as char } else { (d + 55) as char }
}

/// Percent-encodes the UTF-8 bytes of `s` for use in a URL.
pub fn encode(s: &str) -> (r: String)
    ensures
        r@ == percent_encoded(vstd::utf8::encode_utf8(s@)),
{
    let bytes = s.as_bytes();
    let mut r = String::new();
    let mut i: usize = 0;
    while i < bytes.len()
        invariant
            i <= bytes@.len(),
            bytes@ == vstd::utf8::encode_utf8(s@),
            r@ == percent_encoded(bytes@.take(i as int)),
        decreases bytes.len() - i,
    {
        let b = bytes[i];
        assert(bytes@.take(i + 1).drop_last() == bytes@.take(i as int));
        assert(bytes@.take(i + 1).last() == b);
        if (0x41 <= b && b <= 0x5A) || (0x61 <= b && b <= 0x7A) || (0x30 <= b && b <= 0x39) || b == 0x2D || b == 0x5F || b == 0x2E || b == 0x7E {
            push_char(&mut r, b as char);
        } else {
            push_char(&mut r, '%');
            push_char(&mut r, hex_digit_upper(b / 16));
            push_char(&mut r, hex_digit_upper(b % 16));
        }
        i = i + 1;
    }
    assert(bytes@.take(bytes@.len() as int) == bytes@);
    r
}

} // verus!
