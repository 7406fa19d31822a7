//! AI assistant: base-URL normalisation, request URL, API-key cleaning, the
//! user-facing error messages, and the incremental parser of the streamed
//! (server-sent events) chat-completion reply.
use vstd::prelude::*;
use crate::text::{
    chars_eq, chars_of, decimal, has_prefix, is_whitespace, is_ws, owned, push_char, push_decimal,
    push_str, starts_with, string_from_seq, trim, trim_chars, trim_end_char, trim_end_char_chars,
};

verus! {

/// One chat message handed to the chat-completions endpoint.
pub struct AiMessage {
    /// "user" | "assistant" | "system"
    pub role: String,
    pub content: String,
}

/// What the settings page shows of the assistant (never the key itself).
pub struct AiConfig {
    pub has_key: bool,
    pub model: String,
    pub base_url: String,
}

/// Seconds after which a request is abandoned (quoted in the timeout message).
pub const TIMEOUT_SECS: u64 = 60;

// ---------------------------------------------------------------------------
// Base URL
// ---------------------------------------------------------------------------

/// The default, OpenAI-compatible, endpoint.
pub open spec fn default_base_url() -> Seq<char> {
    "https://api.openai.com/v1"@
}

/// Trimmed input with trailing slashes removed; anything that is not
/// `http://` / `https://` falls back to the default endpoint.
pub open spec fn spec_normalize_base_url(raw: Seq<char>) -> Seq<char> {
    let t = trim_end_char(trim(raw), '/');
    if has_prefix(t, "http://"@) || has_prefix(t, "https://"@) {
        t
    } else {
        default_base_url()
    }
}

/// The chat-completions request URL for a configured base URL.
pub open spec fn spec_chat_url(raw: Seq<char>) -> Seq<char> {
    spec_normalize_base_url(raw) + "/chat/completions"@
}

/// Normalises the configured base URL: surrounding whitespace and trailing `/`
/// removed; empty or non-http(s) input falls back to the default endpoint.
pub fn normalize_base_url(raw: &str) -> (r: String)
    ensures
        r@ == spec_normalize_base_url(raw@),
        has_prefix(r@, "http://"@) || has_prefix(r@, "https://"@),
        r@.len() > 0 && r@.last() != '/',
{
    let cs = chars_of(raw);
    let t0 = trim_chars(cs.as_slice());
    let t = trim_end_char_chars(t0.as_slice(), '/');
    let http = chars_of("http://");
    let https = chars_of("https://");
    proof {
        reveal_strlit("http://");
        reveal_strlit("https://");
        reveal_strlit("https://api.openai.com/v1");
        lemma_trim_end_char_last(t0@, '/');
    }
    if starts_with(t.as_slice(), http.as_slice()) || starts_with(t.as_slice(), https.as_slice()) {
        proof {
            assert(t@.len() >= 7);
        }
        string_from_seq(t.as_slice())
    } else {
        let r = owned("https://api.openai.com/v1");
        proof {
            assert(r@.subrange(0, 8) =~= "https://"@);
        }
        r
    }
}

/// `trim_end_char` never leaves `c` as the last character.
pub proof fn lemma_trim_end_char_last(s: Seq<char>, c: char)
    ensures
        trim_end_char(s, c).len() > 0 ==> trim_end_char(s, c).last() != c,
        trim_end_char(s, c).len() <= s.len(),
    decreases s.len(),
{
    if s.len() > 0 && s.last() == c {
        lemma_trim_end_char_last(s.drop_last(), c);
    }
}

/// Request URL: normalised base URL followed by `/chat/completions`.
pub fn chat_url(base_url: &str) -> (r: String)
    ensures
        r@ == spec_chat_url(base_url@),
{
    let mut r = normalize_base_url(base_url);
    push_str(&mut r, "/chat/completions");
    r
}

// ---------------------------------------------------------------------------
// API key
// ---------------------------------------------------------------------------

/// The key with every whitespace character removed.
pub open spec fn strip_ws(s: Seq<char>) -> Seq<char>
    decreases s.len(),
{
    if s.len() == 0 {
        s
    } else {
        let sub = strip_ws(s.drop_last());
        if is_ws(s.last()) {
            sub
        } else {
            sub.push(s.last())
        }
    }
}

/// Removes all whitespace (pasted keys often carry spaces or line breaks).
pub fn clean_key(api_key: &str) -> (r: String)
    ensures
        r@ == strip_ws(api_key@),
{
    let cs = chars_of(api_key);
    let mut r = String::new();
    let mut i: usize = 0;
    while i < cs.len()
        invariant
            i <= cs.len(),
            cs@ == api_key@,
            r@ == strip_ws(cs@.take(i as int)),
        decreases cs.len() - i,
    {
        let c = cs[i];
        assert(cs@.take(i as int + 1).drop_last() =~= cs@.take(i as int));
        if !is_whitespace(c) {
            push_char(&mut r, c);
        }
        i += 1;
    }
    assert(cs@.take(cs.len() as int) =~= cs@);
    r
}

/// A cleaned key holds no whitespace.
pub proof fn lemma_strip_ws_no_ws(s: Seq<char>)
    ensures
        forall|i: int| 0 <= i < strip_ws(s).len() ==> !is_ws(#[trigger] strip_ws(s)[i]),
        strip_ws(s).len() <= s.len(),
    decreases s.len(),
{
    if s.len() > 0 {
        lemma_strip_ws_no_ws(s.drop_last());
    }
}

/// A string without whitespace is left unchanged by cleaning.
pub proof fn lemma_strip_ws_identity(s: Seq<char>)
    requires
        forall|i: int| 0 <= i < s.len() ==> !is_ws(#[trigger] s[i]),
    ensures
        strip_ws(s) == s,
    decreases s.len(),
{
    if s.len() > 0 {
        let t = s.drop_last();
        assert forall|i: int| 0 <= i < t.len() implies !is_ws(#[trigger] t[i]) by {
            assert(t[i] == s[i]);
        }
        lemma_strip_ws_identity(t);
        assert(t.push(s.last()) =~= s);
    }
}

/// Cleaning a key twice is the same as cleaning it once.
pub proof fn law_clean_key_idempotent(s: Seq<char>)
    ensures
        strip_ws(strip_ws(s)) == strip_ws(s),
{
    lemma_strip_ws_no_ws(s);
    lemma_strip_ws_identity(strip_ws(s));
}

/// File name (under the application data directory) of the encrypted AI key.
pub open spec fn key_file_name() -> Seq<char> {
    "ai-key.bin"@
}

/// What has to be encrypted and written, and where.
pub struct KeyWrite {
    pub file_name: String,
    pub key: String,
}

/// Message returned when the key is empty after cleaning.
pub open spec fn empty_key_message() -> Seq<char> {
    "API Key 不能为空"@
}

/// Validates a key for encrypted storage under `file_name`: the key is cleaned
/// of whitespace and refused when nothing is left.
pub fn save_encrypted_key(file_name: &str, api_key: &str) -> (r: Result<KeyWrite, String>)
    ensures
        match r {
            Ok(w) => w.file_name@ == file_name@ && w.key@ == strip_ws(api_key@)
                && strip_ws(api_key@).len() > 0,
            Err(e) => strip_ws(api_key@).len() == 0 && e@ == empty_key_message(),
        },
{
    let cleaned = clean_key(api_key);
    let cs = chars_of(cleaned.as_str());
    if cs.len() == 0 {
        return Err(owned("API Key 不能为空"));
    }
    Ok(KeyWrite { file_name: owned(file_name), key: cleaned })
}

/// Validates the AI key for encrypted storage (see `save_encrypted_key`).
pub fn save_key(api_key: &str) -> (r: Result<KeyWrite, String>)
    ensures
        match r {
            Ok(w) => w.file_name@ == key_file_name() && w.key@ == strip_ws(api_key@)
                && strip_ws(api_key@).len() > 0,
            Err(e) => strip_ws(api_key@).len() == 0 && e@ == empty_key_message(),
        },
{
    save_encrypted_key("ai-key.bin", api_key)
}

/// The text of a byte sequence that is valid UTF-8 (none otherwise).
pub uninterp spec fn utf8_decode(bytes: Seq<u8>) -> Option<Seq<char>>;

/// `String::from_utf8(bytes)`, its error dropped: the result is claimed
/// only to be a function of the bytes (named `utf8_decode`).
#[verifier::external_body]
fn utf8_string(bytes: Vec<u8>) -> (r: Option<String>)
    ensures
        match r {
            Some(s) => utf8_decode(bytes@) == Some(s@),
            None => utf8_decode(bytes@) is None,
        },
{
    String::from_utf8(bytes).ok()
}

/// The stored key after decryption: the decryption's error is passed on,
/// and decrypted bytes that are not UTF-8 are refused.
pub open spec fn spec_load_key(decrypted: Result<Seq<u8>, Seq<char>>) -> Result<Seq<char>, Seq<char>> {
    match decrypted {
        Err(e) => Err(e),
        Ok(b) => match utf8_decode(b) {
            Some(k) => Ok(k),
            None => Err("API Key 解码失败"@),
        },
    }
}

/// Turns the decrypted key file into the key (see `spec_load_key`).
pub fn load_key(decrypted: Result<Vec<u8>, String>) -> (r: Result<String, String>)
    ensures
        match spec_load_key(match decrypted { Ok(b) => Ok(b@), Err(e) => Err(e@) }) {
            Ok(k) => r is Ok && r->Ok_0@ == k,
            Err(e) => r is Err && r->Err_0@ == e,
        },
{
    match decrypted {
        Err(e) => Err(e),
        Ok(b) => match utf8_string(b) {
            Some(k) => Ok(k),
            None => Err(owned("API Key 解码失败")),
        },
    }
}

/// How a streamed reply ended: completed with the end marker, or cut off
/// (the front end is told that the reply is incomplete).
pub fn stream_outcome(finished: bool) -> (r: Result<(), String>)
    ensures
        finished ==> r is Ok,
        !finished ==> r is Err && r->Err_0@ == "连接意外中断"@,
{
    if finished { Ok(()) } else { Err(owned("连接意外中断")) }
}

/// Message shown when the reply stream broke off before its end.
pub fn incomplete_reply_message() -> (r: String)
    ensures
        r@ == "连接意外中断，回复不完整"@,
{
    owned("连接意外中断，回复不完整")
}

/// Message shown when reading the reply stream failed.
pub fn stream_read_error(detail: &str) -> (r: String)
    ensures
        r@ == "网络读取中断: "@ + detail@,
{
    let mut r = owned("网络读取中断: ");
    push_str(&mut r, detail);
    r
}

/// The configuration shown to the front end: key presence, model and the
/// normalised base URL.
pub fn get_ai_config(has_key: bool, model: String, base_url: &str) -> (c: AiConfig)
    ensures
        c.has_key == has_key,
        c.model@ == model@,
        c.base_url@ == spec_normalize_base_url(base_url@),
{
    AiConfig { has_key, model, base_url: normalize_base_url(base_url) }
}

// ---------------------------------------------------------------------------
// Error messages
// ---------------------------------------------------------------------------

/// User-facing network error text (never holds the URL, the key or content).
pub open spec fn spec_net_error(is_timeout: bool, is_connect: bool, detail: Seq<char>, connect_msg: Seq<char>) -> Seq<char> {
    if is_timeout {
        "请求超时（超过 "@ + decimal(TIMEOUT_SECS as nat) + " 秒无响应）"@
    } else if is_connect {
        connect_msg
    } else {
        "网络请求失败: "@ + detail
    }
}

/// Network error of the chat request: timeout, connection failure, or the
/// error's own text.
pub fn friendly_net_error(is_timeout: bool, is_connect: bool, detail: &str) -> (r: String)
    ensures
        r@ == spec_net_error(is_timeout, is_connect, detail@, "无法连接到接口地址，请检查网络与 BaseURL 配置"@),
{
    net_error(is_timeout, is_connect, detail, "无法连接到接口地址，请检查网络与 BaseURL 配置")
}

pub(crate) fn net_error(is_timeout: bool, is_connect: bool, detail: &str, connect_msg: &str) -> (r: String)
    ensures
        r@ == spec_net_error(is_timeout, is_connect, detail@, connect_msg@),
{
    if is_timeout {
        let mut r = owned("请求超时（超过 ");
        push_decimal(&mut r, TIMEOUT_SECS);
        push_str(&mut r, " 秒无响应）");
        r
    } else if is_connect {
        owned(connect_msg)
    } else {
        let mut r = owned("网络请求失败: ");
        push_str(&mut r, detail);
        r
    }
}

/// User-facing text for a non-success HTTP status, with the server's error
/// detail when one was given.
pub open spec fn spec_http_error(status: u16, detail: Option<Seq<char>>) -> Seq<char> {
    if status == 401 {
        match detail {
            Some(d) => "API Key 无效（401）："@ + d,
            None => "API Key 无效（401 Unauthorized）"@,
        }
    } else if status == 429 {
        "请求过于频繁（429），请稍后再试"@
    } else {
        match detail {
            Some(d) => "接口返回错误（HTTP "@ + decimal(status as nat) + "）："@ + d,
            None => "接口返回错误（HTTP "@ + decimal(status as nat) + "）"@,
        }
    }
}

/// Error message for a failed chat-completions request.
pub fn http_error_msg(status: u16, detail: Option<String>) -> (r: String)
    ensures
        r@ == spec_http_error(status, match detail { Some(d) => Some(d@), None => None }),
{
    if status == 401 {
        match detail {
            Some(d) => {
                let mut r = owned("API Key 无效（401）：");
                push_str(&mut r, d.as_str());
                r
            },
            None => owned("API Key 无效（401 Unauthorized）"),
        }
    } else if status == 429 {
        owned("请求过于频繁（429），请稍后再试")
    } else {
        let mut r = owned("接口返回错误（HTTP ");
        push_decimal(&mut r, status as u64);
        match detail {
            Some(d) => {
                push_str(&mut r, "）：");
                push_str(&mut r, d.as_str());
                assert(r@ =~= "接口返回错误（HTTP "@ + decimal(status as nat) + "）："@ + d@);
                r
            },
            None => {
                push_str(&mut r, "）");
                r
            },
        }
    }
}

// ---------------------------------------------------------------------------
// JSON lookups and lossy UTF-8 (outside computations)
// ---------------------------------------------------------------------------

/// The string found at a JSON pointer in a JSON document, if the text parses
/// and the pointer leads to a string.
pub uninterp spec fn json_pointer_text(doc: Seq<char>, pointer: Seq<char>) -> Option<Seq<char>>;

/// Parses `doc` with `serde_json::from_str::<serde_json::Value>` and looks the
/// pointer up with `Value::pointer`, then `Value::as_str`. The contract claims
/// only that the result is a function of the two texts (named
/// `json_pointer_text`); nothing is claimed about JSON syntax itself.
#[verifier::external_body]
pub(crate) fn json_pointer_str(doc: &str, pointer: &str) -> (r: Option<String>)
    ensures
        match r {
            Some(s) => json_pointer_text(doc@, pointer@) == Some(s@),
            None => json_pointer_text(doc@, pointer@) is None,
        },
{
    serde_json::from_str::<serde_json::Value>(doc)
        .ok()
        .and_then(|v| v.pointer(pointer).and_then(|x| x.as_str()).map(|s| s.to_string()))
}

/// Whether a JSON document parses and the value at a JSON pointer is an
/// array. (serde_json's indexing with a number reaches into arrays only,
/// while a pointer's number token also matches an object key; a lookup that
/// indexes by number checks the kind first.)
pub uninterp spec fn json_pointer_array(doc: Seq<char>, pointer: Seq<char>) -> bool;

/// Parses `doc` with `serde_json::from_str::<serde_json::Value>`, looks the
/// pointer up with `Value::pointer` and asks `Value::is_array`; false when
/// the text does not parse or nothing is there. The contract claims only that
/// the result is a function of the two texts (named `json_pointer_array`).
#[verifier::external_body]
pub(crate) fn json_pointer_is_array(doc: &str, pointer: &str) -> (r: bool)
    ensures
        r == json_pointer_array(doc@, pointer@),
{
    match serde_json::from_str::<serde_json::Value>(doc) {
        Ok(v) => v.pointer(pointer).map_or(false, serde_json::Value::is_array),
        Err(_) => false,
    }
}

/// The content delta of a stream event, as `["choices"][0]["delta"]["content"]`
/// reads it: `choices` must be an array.
pub open spec fn spec_delta_content(doc: Seq<char>) -> Option<Seq<char>> {
    if json_pointer_array(doc, "/choices"@) {
        json_pointer_text(doc, "/choices/0/delta/content"@)
    } else {
        None
    }
}

/// Reads the content delta of a stream event (see `spec_delta_content`).
pub fn delta_content(doc: &str) -> (r: Option<String>)
    ensures
        match r {
            Some(s) => spec_delta_content(doc@) == Some(s@),
            None => spec_delta_content(doc@) is None,
        },
{
    if json_pointer_is_array(doc, "/choices") {
        json_pointer_str(doc, "/choices/0/delta/content")
    } else {
        None
    }
}

/// The text that `String::from_utf8_lossy` makes of a byte sequence.
pub uninterp spec fn utf8_lossy(bytes: Seq<u8>) -> Seq<char>;

/// `String::from_utf8_lossy(bytes).into_owned()`: the result is claimed only to
/// be a function of the bytes (named `utf8_lossy`).
#[verifier::external_body]
pub(crate) fn lossy_string(bytes: &[u8]) -> (r: String)
    ensures
        r@ == utf8_lossy(bytes@),
{
    String::from_utf8_lossy(bytes).into_owned()
}

/// Server error detail of a failed request body: `error.message`, if present
/// and not empty.
pub open spec fn spec_error_detail(body: Seq<char>) -> Option<Seq<char>> {
    match json_pointer_text(body, "/error/message"@) {
        Some(m) => if m.len() > 0 { Some(m) } else { None },
        None => None,
    }
}

/// Extracts `error.message` from an error response body (empty counts as absent).
pub fn error_detail(body: &str) -> (r: Option<String>)
    ensures
        match r {
            Some(s) => spec_error_detail(body@) == Some(s@),
            None => spec_error_detail(body@) is None,
        },
{
    match json_pointer_str(body, "/error/message") {
        Some(m) => {
            let cs = chars_of(m.as_str());
            if cs.len() > 0 { Some(m) } else { None }
        },
        None => None,
    }
}

// ---------------------------------------------------------------------------
// Streamed reply (server-sent events)
// ---------------------------------------------------------------------------

/// What one line of the stream asks for.
pub enum SseLine {
    /// Blank, a non-data line, unparsable, or a data line without content.
    Skip,
    /// `data: [DONE]`: the reply is complete.
    Done,
    /// A content delta to show.
    Chunk(String),
}

/// Spec-level image of `SseLine`.
pub enum SseLineSpec {
    Skip,
    Done,
    Chunk(Seq<char>),
}

pub open spec fn sse_line_view(l: SseLine) -> SseLineSpec {
    match l {
        SseLine::Skip => SseLineSpec::Skip,
        SseLine::Done => SseLineSpec::Done,
        SseLine::Chunk(s) => SseLineSpec::Chunk(s@),
    }
}

/// Meaning of one raw line (bytes up to and including its `\n`).
pub open spec fn spec_sse_line(line: Seq<u8>) -> SseLineSpec {
    let t = trim(utf8_lossy(line));
    if t.len() == 0 || !has_prefix(t, "data:"@) {
        SseLineSpec::Skip
    } else {
        let data = trim(t.subrange(5, t.len() as int));
        if data == "[DONE]"@ {
            SseLineSpec::Done
        } else {
            match spec_delta_content(data) {
                Some(c) => SseLineSpec::Chunk(c),
                None => SseLineSpec::Skip,
            }
        }
    }
}

/// A content line passes its delta on exactly as the server sent it: a data
/// line (after `data:` and surrounding blanks, not `[DONE]`) whose JSON has
/// `choices` as an array yields the string at `choices[0].delta.content`,
/// unchanged (no trimming, nothing added or dropped), and a chunk is only
/// ever such a string. So the shown reply is the concatenation of the
/// deltas, spaces included.
pub proof fn law_chunk_is_the_delta_verbatim(line: Seq<u8>, c: Seq<char>)
    ensures
        ({
            let t = trim(utf8_lossy(line));
            let data = trim(t.subrange(5, t.len() as int));
            let is_data = t.len() > 0 && has_prefix(t, "data:"@) && data != "[DONE]"@;
            &&& spec_sse_line(line) == SseLineSpec::Chunk(c) <==> (is_data
                && json_pointer_array(data, "/choices"@)
                && json_pointer_text(data, "/choices/0/delta/content"@) == Some(c))
        }),
{
}

/// Interprets one raw line of the stream.
pub fn sse_line(line: &[u8]) -> (r: SseLine)
    ensures
        sse_line_view(r) == spec_sse_line(line@),
{
    let text = lossy_string(line);
    let cs = chars_of(text.as_str());
    let t = trim_chars(cs.as_slice());
    let prefix = chars_of("data:");
    proof {
        reveal_strlit("data:");
    }
    if t.len() == 0 || !starts_with(t.as_slice(), prefix.as_slice()) {
        return SseLine::Skip;
    }
    let mut rest: Vec<char> = Vec::new();
    let mut i: usize = 5;
    while i < t.len()
        invariant
            5 <= i <= t.len(),
            rest@ == t@.subrange(5, i as int),
        decreases t.len() - i,
    {
        rest.push(t[i]);
        assert(rest@ =~= t@.subrange(5, i + 1));
        i += 1;
    }
    let data = trim_chars(rest.as_slice());
    let done = chars_of("[DONE]");
    if chars_eq(data.as_slice(), done.as_slice()) {
        return SseLine::Done;
    }
    let doc = string_from_seq(data.as_slice());
    match delta_content(doc.as_str()) {
        Some(c) => SseLine::Chunk(c),
        None => SseLine::Skip,
    }
}

/// Index of the first `\n`, or the length when there is none.
pub open spec fn first_newline(buf: Seq<u8>) -> int
    decreases buf.len(),
{
    if buf.len() == 0 {
        0
    } else if buf[0] == 10u8 {
        0
    } else {
        1 + first_newline(buf.drop_first())
    }
}

proof fn lemma_first_newline(buf: Seq<u8>, i: int)
    requires
        0 <= i <= buf.len(),
        forall|k: int| 0 <= k < i ==> buf[k] != 10u8,
        i == buf.len() || buf[i] == 10u8,
    ensures
        first_newline(buf) == i,
    decreases i,
{
    if i > 0 {
        let t = buf.drop_first();
        assert forall|k: int| 0 <= k < i - 1 implies t[k] != 10u8 by {
            assert(t[k] == buf[k + 1]);
        }
        lemma_first_newline(t, i - 1);
    }
}

/// Result of draining complete lines: contents to show, what stays buffered,
/// and whether the end marker was seen.
pub open spec fn drain_lines(buf: Seq<u8>) -> (Seq<Seq<char>>, Seq<u8>, bool)
    decreases buf.len(),
{
    let p = first_newline(buf);
    if 0 <= p < buf.len() {
        let line = buf.subrange(0, p + 1);
        let rest = buf.subrange(p + 1, buf.len() as int);
        match spec_sse_line(line) {
            SseLineSpec::Done => (Seq::empty(), rest, true),
            SseLineSpec::Chunk(c) => {
                let r = drain_lines(rest);
                (seq![c] + r.0, r.1, r.2)
            },
            SseLineSpec::Skip => drain_lines(rest),
        }
    } else {
        (Seq::empty(), buf, false)
    }
}

proof fn lemma_first_newline_prefix(a: Seq<u8>, b: Seq<u8>)
    requires
        first_newline(a) < a.len(),
    ensures
        first_newline(a + b) == first_newline(a),
    decreases a.len(),
{
    if a.len() > 0 && a[0] != 10u8 {
        assert((a + b).drop_first() =~= a.drop_first() + b);
        lemma_first_newline_prefix(a.drop_first(), b);
    }
}

proof fn lemma_first_newline_bounds(buf: Seq<u8>)
    ensures
        0 <= first_newline(buf) <= buf.len(),
        first_newline(buf) < buf.len() ==> buf[first_newline(buf)] == 10u8,
    decreases buf.len(),
{
    if buf.len() > 0 && buf[0] != 10u8 {
        lemma_first_newline_bounds(buf.drop_first());
    }
}

/// Splitting the byte stream into chunks does not change what is shown:
/// draining `a` and then what stayed buffered followed by `b` emits the same
/// deltas, in the same order, and reaches the same end state as draining
/// `a + b` at once (after the end marker the rest is ignored).
pub proof fn law_chunking_is_invisible(a: Seq<u8>, b: Seq<u8>)
    ensures
        ({
            let whole = drain_lines(a + b);
            let first = drain_lines(a);
            let second = drain_lines(first.1 + b);
            &&& first.2 ==> whole.0 == first.0 && whole.2
            &&& !first.2 ==> whole.0 == first.0 + second.0 && whole.1 == second.1 && whole.2 == second.2
        }),
    decreases a.len(),
{
    lemma_first_newline_bounds(a);
    let p = first_newline(a);
    if p < a.len() {
        lemma_first_newline_prefix(a, b);
        let line = a.subrange(0, p + 1);
        assert((a + b).subrange(0, p + 1) =~= line);
        let rest = a.subrange(p + 1, a.len() as int);
        assert((a + b).subrange(p + 1, (a + b).len() as int) =~= rest + b);
        law_chunking_is_invisible(rest, b);
        match spec_sse_line(line) {
            SseLineSpec::Done => {},
            SseLineSpec::Chunk(c) => {
                let r = drain_lines(rest);
                let r2 = drain_lines(r.1 + b);
                if !r.2 {
                    assert(seq![c] + (r.0 + r2.0) =~= (seq![c] + r.0) + r2.0);
                }
            },
            SseLineSpec::Skip => {},
        }
    } else {
        assert(drain_lines(a) == (Seq::<Seq<char>>::empty(), a, false));
        assert(Seq::<Seq<char>>::empty() + drain_lines(a + b).0 =~= drain_lines(a + b).0);
    }
}

/// Every delta that draining shows is, unchanged, the chunk of one complete
/// line of the buffer (see `law_chunk_is_the_delta_verbatim`): draining
/// invents and alters nothing.
pub proof fn law_drained_chunks_come_from_lines(buf: Seq<u8>, k: int)
    requires
        0 <= k < drain_lines(buf).0.len(),
    ensures
        exists|a: int, b: int|
            0 <= a < b <= buf.len() && buf[b - 1] == 10u8
                && #[trigger] spec_sse_line(buf.subrange(a, b)) == SseLineSpec::Chunk(drain_lines(buf).0[k]),
    decreases buf.len(),
{
    lemma_first_newline_bounds(buf);
    let p = first_newline(buf);
    if 0 <= p < buf.len() {
        let line = buf.subrange(0, p + 1);
        let rest = buf.subrange(p + 1, buf.len() as int);
        let off = p + 1;
        match spec_sse_line(line) {
            SseLineSpec::Done => {},
            SseLineSpec::Chunk(c) => {
                if k == 0 {
                    assert(spec_sse_line(buf.subrange(0, p + 1)) == SseLineSpec::Chunk(drain_lines(buf).0[k]));
                } else {
                    let r = drain_lines(rest);
                    assert(drain_lines(buf).0[k] == r.0[k - 1]);
                    law_drained_chunks_come_from_lines(rest, k - 1);
                    let (a, b) = choose|a: int, b: int|
                        0 <= a < b <= rest.len() && rest[b - 1] == 10u8
                            && #[trigger] spec_sse_line(rest.subrange(a, b)) == SseLineSpec::Chunk(r.0[k - 1]);
                    assert(buf.subrange(a + off, b + off) =~= rest.subrange(a, b));
                    assert(buf[b + off - 1] == rest[b - 1]);
                    assert(spec_sse_line(buf.subrange(a + off, b + off)) == SseLineSpec::Chunk(drain_lines(buf).0[k]));
                }
            },
            SseLineSpec::Skip => {
                law_drained_chunks_come_from_lines(rest, k);
                let (a, b) = choose|a: int, b: int|
                    0 <= a < b <= rest.len() && rest[b - 1] == 10u8
                        && #[trigger] spec_sse_line(rest.subrange(a, b)) == SseLineSpec::Chunk(drain_lines(rest).0[k]);
                assert(buf.subrange(a + off, b + off) =~= rest.subrange(a, b));
                assert(buf[b + off - 1] == rest[b - 1]);
                assert(spec_sse_line(buf.subrange(a + off, b + off)) == SseLineSpec::Chunk(drain_lines(buf).0[k]));
            },
        }
    }
}

/// Incremental parser of the streamed reply: bytes arrive in arbitrary
/// chunks; every complete line is interpreted in order.
pub struct SseParser {
    buf: Vec<u8>,
    finished: bool,
}

impl SseParser {
    /// Bytes received but not yet forming a complete line.
    pub closed spec fn pending(&self) -> Seq<u8> {
        self.buf@
    }

    /// Whether `data: [DONE]` has been seen.
    pub closed spec fn is_done(&self) -> bool {
        self.finished
    }

    pub fn new() -> (p: Self)
        ensures
            p.pending() == Seq::<u8>::empty(),
            !p.is_done(),
    {
        SseParser { buf: Vec::new(), finished: false }
    }

    /// Whether the reply completed.
    pub fn finished(&self) -> (b: bool)
        ensures
            b == self.is_done(),
    {
        self.finished
    }

    /// Splits off the first complete line, if any.
    fn take_line(&mut self) -> (r: Option<Vec<u8>>)
        ensures
            final(self).finished == old(self).finished,
            ({
                let p = first_newline(old(self).buf@);
                match r {
                    Some(line) => 0 <= p < old(self).buf@.len()
                        && line@ == old(self).buf@.subrange(0, p + 1)
                        && final(self).buf@ == old(self).buf@.subrange(p + 1, old(self).buf@.len() as int),
                    None => !(0 <= p < old(self).buf@.len()) && final(self).buf@ == old(self).buf@,
                }
            }),
    {
        let n = self.buf.len();
        let mut i: usize = 0;
        while i < n && self.buf[i] != 10u8
            invariant
                i <= n,
                n == self.buf@.len(),
                forall|k: int| 0 <= k < i ==> self.buf@[k] != 10u8,
            decreases n - i,
        {
            i += 1;
        }
        proof {
            lemma_first_newline(self.buf@, i as int);
        }
        if i == n {
            return None;
        }
        let mut line: Vec<u8> = Vec::new();
        let mut rest: Vec<u8> = Vec::new();
        let mut k: usize = 0;
        while k < n
            invariant
                i < n,
                k <= n,
                n == self.buf@.len(),
                k <= i + 1 ==> line@ == self.buf@.subrange(0, k as int) && rest@.len() == 0,
                k > i + 1 ==> line@ == self.buf@.subrange(0, i + 1)
                    && rest@ == self.buf@.subrange(i + 1, k as int),
            decreases n - k,
        {
            if k <= i {
                line.push(self.buf[k]);
                assert(line@ =~= self.buf@.subrange(0, k + 1));
            } else {
                rest.push(self.buf[k]);
                assert(rest@ =~= self.buf@.subrange(i + 1, k + 1));
            }
            k += 1;
        }
        if i + 1 == n {
            assert(rest@ =~= self.buf@.subrange(i + 1, n as int));
        }
        self.buf = rest;
        Some(line)
    }

    /// Feeds the next chunk of the response body and returns the content
    /// deltas that became complete, in order. After the end marker the
    /// parser ignores further input.
    pub fn feed(&mut self, chunk: &[u8]) -> (out: Vec<String>)
        ensures
            old(self).is_done() ==> out@.len() == 0 && *final(self) == *old(self),
            !old(self).is_done() ==> ({
                let d = drain_lines(old(self).pending() + chunk@);
                &&& out@.map_values(|s: String| s@) == d.0
                &&& final(self).pending() == d.1
                &&& final(self).is_done() == d.2
            }),
    {
        let mut out: Vec<String> = Vec::new();
        if self.finished {
            return out;
        }
        let ghost start = self.buf@ + chunk@;
        let mut j: usize = 0;
        while j < chunk.len()
            invariant
                j <= chunk.len(),
                !self.finished,
                self.buf@ == old(self).buf@ + chunk@.take(j as int),
            decreases chunk.len() - j,
        {
            self.buf.push(chunk[j]);
            assert(old(self).buf@ + chunk@.take(j as int + 1) =~= (old(self).buf@ + chunk@.take(j as int)).push(chunk@[j as int]));
            j += 1;
        }
        assert(chunk@.take(chunk.len() as int) =~= chunk@);
        loop
            invariant_except_break
                !self.finished,
                drain_lines(start) == (out@.map_values(|s: String| s@) + drain_lines(self.buf@).0,
                    drain_lines(self.buf@).1, drain_lines(self.buf@).2),
            ensures
                drain_lines(start) == (out@.map_values(|s: String| s@), self.buf@, self.finished),
            decreases self.buf@.len(),
        {
            let ghost before = self.buf@;
            match self.take_line() {
                None => {
                    assert(drain_lines(before) == (Seq::<Seq<char>>::empty(), before, false));
                    assert(out@.map_values(|s: String| s@) + Seq::<Seq<char>>::empty() =~= out@.map_values(|s: String| s@));
                    break;
                },
                Some(line) => {
                    match sse_line(line.as_slice()) {
                        SseLine::Skip => {},
                        SseLine::Done => {
                            self.finished = true;
                            assert(out@.map_values(|s: String| s@) + Seq::<Seq<char>>::empty() =~= out@.map_values(|s: String| s@));
                            break;
                        },
                        SseLine::Chunk(c) => {
                            let ghost cv = c@;
                            let ghost prev = out@.map_values(|s: String| s@);
                            out.push(c);
                            assert(out@.map_values(|s: String| s@) =~= prev.push(cv));
                            assert(prev + (seq![cv] + drain_lines(self.buf@).0) =~= prev.push(cv) + drain_lines(self.buf@).0);
                        },
                    }
                },
            }
        }
        out
    }
}

} // verus!
