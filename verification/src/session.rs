//! The generation-session logic: frames the provider request bodies as JSON
//! text, interprets the lines of the streamed response, classifies transport
//! errors and response statuses into the error taxonomy, and enforces the two
//! generation timeouts. The network transport itself lives outside this
//! crate; parsing one stream fragment is delegated to `serde_json` behind a
//! trusted wrapper.

use vstd::prelude::*;
use crate::error::YetiError;
use crate::text::dec_seq;
use crate::text::u64_to_string;
use crate::text::join_with;
use crate::text::has_prefix;
use crate::text::str_has_prefix;
use crate::text::str_eq_str;
use crate::text::contains_seq;
use crate::text::str_contains;
use crate::prompt::SYSTEM_PROMPT;

verus! {

/// The escape sequence JSON uses for one character inside a string literal.
pub open spec fn json_escaped_char(c: char) -> Seq<char> {
    if c == '"' {
        seq!['\\', '"']
    } else if c == '\\' {
        seq!['\\', '\\']
    } else if c == '\u{8}' {
        seq!['\\', 'b']
    } else if c == '\u{c}' {
        seq!['\\', 'f']
    } else if c == '\n' {
        seq!['\\', 'n']
    } else if c == '\r' {
        seq!['\\', 'r']
    } else if c == '\t' {
        seq!['\\', 't']
    } else if (c as u32) < 0x20 {
        seq!['\\', 'u', '0', '0', hex_digit((c as u32 / 16) as nat), hex_digit(
            (c as u32 % 16) as nat,
        )]
    } else {
        seq![c]
    }
}

/// The hexadecimal digit for a value below 16.
pub open spec fn hex_digit(d: nat) -> char {
    if d == 0 {
        '0'
    } else if d == 1 {
        '1'
    } else if d == 2 {
        '2'
    } else if d == 3 {
        '3'
    } else if d == 4 {
        '4'
    } else if d == 5 {
        '5'
    } else if d == 6 {
        '6'
    } else if d == 7 {
        '7'
    } else if d == 8 {
        '8'
    } else if d == 9 {
        '9'
    } else if d == 10 {
        'a'
    } else if d == 11 {
        'b'
    } else if d == 12 {
        'c'
    } else if d == 13 {
        'd'
    } else if d == 14 {
        'e'
    } else {
        'f'
    }
}

fn hex_digit_char(d: u32) -> (r: char)
    requires
        d < 16,
    ensures
        r == hex_digit(d as nat),
{
    if d == 0 {
        '0'
    } else if d == 1 {
        '1'
    } else if d == 2 {
        '2'
    } else if d == 3 {
        '3'
    } else if d == 4 {
        '4'
    } else if d == 5 {
        '5'
    } else if d == 6 {
        '6'
    } else if d == 7 {
        '7'
    } else if d == 8 {
        '8'
    } else if d == 9 {
        '9'
    } else if d == 10 {
        'a'
    } else if d == 11 {
        'b'
    } else if d == 12 {
        'c'
    } else if d == 13 {
        'd'
    } else if d == 14 {
        'e'
    } else {
        'f'
    }
}

/// The text with every character JSON-escaped.
pub open spec fn json_escaped(s: Seq<char>) -> Seq<char>
    decreases s.len(),
{
    if s.len() == 0 {
        Seq::<char>::empty()
    } else {
        json_escaped(s.drop_last()) + json_escaped_char(s.last())
    }
}

/// Escapes a string for inclusion in a JSON string literal.
pub fn escape_json(s: &str) -> (r: String)
    ensures
        r@ == json_escaped(s@),
{
    let len: usize = s.unicode_len();
    let mut r = String::new();
    let mut i: usize = 0;
    proof {
        assert(r@ =~= json_escaped(s@.take(0)));
    }
    while i < len
        invariant
            0 <= i <= len,
            len == s@.len(),
            r@ == json_escaped(s@.take(i as int)),
        decreases len - i,
    {
        let c = s.get_char(i);
        let u: u32 = c as u32;
        proof {
            assert(s@.take(i + 1).drop_last() =~= s@.take(i as int));
            assert(s@.take(i + 1).last() == s@[i as int]);
        }
        if c == '"' {
            r.push('\\');
            r.push('"');
        } else if c == '\\' {
            r.push('\\');
            r.push('\\');
        } else if c == '\u{8}' {
            r.push('\\');
            r.push('b');
        } else if c == '\u{c}' {
            r.push('\\');
            r.push('f');
        } else if c == '\n' {
            r.push('\\');
            r.push('n');
        } else if c == '\r' {
            r.push('\\');
            r.push('r');
        } else if c == '\t' {
            r.push('\\');
            r.push('t');
        } else if u < 0x20 {
            r.push('\\');
            r.push('u');
            r.push('0');
            r.push('0');
            r.push(hex_digit_char(u / 16));
            r.push(hex_digit_char(u % 16));
        } else {
            r.push(c);
        }
        proof {
            assert(r@ =~= json_escaped(s@.take(i + 1)));
        }
        i += 1;
    }
    proof {
        assert(s@.take(len as int) =~= s@);
    }
    r
}

/// One element of the JSON `messages` array.
pub open spec fn message_json(role: Seq<char>, content: Seq<char>) -> Seq<char> {
    "{\"role\":\""@ + role + "\",\"content\":\""@ + json_escaped(content) + "\"}"@
}

fn build_message(role: &str, content: &str) -> (r: String)
    ensures
        r@ == message_json(role@, content@),
{
    let mut r = "{\"role\":\"".to_owned();
    r.append(role);
    r.append("\",\"content\":\"");
    let esc = escape_json(content);
    r.append(esc.as_str());
    r.append("\"}");
    proof {
        assert(r@ =~= message_json(role@, content@));
    }
    r
}

/// The JSON body of a chat request: the model, the messages, a fixed zero
/// temperature when requested, the completion-token cap, and the stream
/// flag, in that order.
pub open spec fn chat_request_spec(
    model: Seq<char>,
    msgs: Seq<Seq<char>>,
    temp_zero: bool,
    max_tokens: nat,
    stream: bool,
) -> Seq<char> {
    "{\"model\":\""@ + json_escaped(model) + "\",\"messages\":["@ + join_with(msgs, ","@) + "]"@
        + (if temp_zero {
        ",\"temperature\":0.0"@
    } else {
        Seq::<char>::empty()
    }) + ",\"max_completion_tokens\":"@ + dec_seq(max_tokens) + ",\"stream\":"@ + (if stream {
        "true"@
    } else {
        "false"@
    }) + "}"@
}

fn build_chat_request(
    model: &str,
    msgs: &Vec<String>,
    temp_zero: bool,
    max_tokens: u64,
    stream: bool,
) -> (r: String)
    ensures
        r@ == chat_request_spec(model@, msgs.deep_view(), temp_zero, max_tokens as nat, stream),
{
    let mut r = "{\"model\":\"".to_owned();
    let esc = escape_json(model);
    r.append(esc.as_str());
    r.append("\",\"messages\":[");
    let joined = crate::text::join_strings(msgs, ",");
    r.append(joined.as_str());
    r.append("]");
    if temp_zero {
        r.append(",\"temperature\":0.0");
    }
    r.append(",\"max_completion_tokens\":");
    let cap = u64_to_string(max_tokens);
    r.append(cap.as_str());
    r.append(",\"stream\":");
    if stream {
        r.append("true");
    } else {
        r.append("false");
    }
    r.append("}");
    proof {
        assert(r@ =~= chat_request_spec(
            model@,
            msgs.deep_view(),
            temp_zero,
            max_tokens as nat,
            stream,
        ));
    }
    r
}

/// The request body of the streamed generation call: the fixed system
/// prompt and the user prompt, zero temperature, a 500-token cap, streamed.
pub open spec fn generation_request_spec(model: Seq<char>, user_prompt: Seq<char>) -> Seq<char> {
    chat_request_spec(
        model,
        seq![message_json("system"@, SYSTEM_PROMPT@), message_json("user"@, user_prompt)],
        true,
        500,
        true,
    )
}

/// Builds the JSON body of the streamed generation request.
pub fn generation_request_body(model: &str, user_prompt: &str) -> (r: String)
    ensures
        r@ == generation_request_spec(model@, user_prompt@),
{
    let mut msgs: Vec<String> = Vec::new();
    let m1 = build_message("system", SYSTEM_PROMPT);
    msgs.push(m1);
    let m2 = build_message("user", user_prompt);
    msgs.push(m2);
    proof {
        assert(msgs.deep_view() =~= seq![
            message_json("system"@, SYSTEM_PROMPT@),
            message_json("user"@, user_prompt@),
        ]);
    }
    build_chat_request(model, &msgs, true, 500, true)
}

/// The request body of the credential-validation probe: one short user
/// message against the default model, a 10-token cap, not streamed.
pub open spec fn validation_request_spec(model: Seq<char>) -> Seq<char> {
    chat_request_spec(model, seq![message_json("user"@, "Hi"@)], false, 10, false)
}

/// Builds the JSON body of the credential-validation probe.
pub fn validation_request_body(model: &str) -> (r: String)
    ensures
        r@ == validation_request_spec(model@),
{
    let mut msgs: Vec<String> = Vec::new();
    let m1 = build_message("user", "Hi");
    msgs.push(m1);
    proof {
        assert(msgs.deep_view() =~= seq![message_json("user"@, "Hi"@)]);
    }
    build_chat_request(model, &msgs, false, 10, false)
}

/// The request body of the model-readiness probe: one short user message, a
/// 4-token cap, not streamed.
pub open spec fn readiness_request_spec(model: Seq<char>) -> Seq<char> {
    chat_request_spec(model, seq![message_json("user"@, "ping"@)], false, 4, false)
}

/// Builds the JSON body of the model-readiness probe.
pub fn readiness_request_body(model: &str) -> (r: String)
    ensures
        r@ == readiness_request_spec(model@),
{
    let mut msgs: Vec<String> = Vec::new();
    let m1 = build_message("user", "ping");
    msgs.push(m1);
    proof {
        assert(msgs.deep_view() =~= seq![message_json("user"@, "ping"@)]);
    }
    build_chat_request(model, &msgs, false, 4, false)
}

/// The text carried by one stream fragment, as `serde_json` reads it from
/// the fragment's JSON at `choices[0].delta.content`; nothing when the
/// fragment is not JSON or carries no text there. A function of the fragment
/// text alone.
pub uninterp spec fn stream_content_of(s: Seq<char>) -> Option<Seq<char>>;

/// Relies on `serde_json::from_str`, `serde_json::Value::get` and
/// `serde_json::Value::as_str`: parses one stream fragment and reads the
/// text at `choices[0].delta.content`.
#[verifier::external_body]
fn extract_stream_content(data: &str) -> (r: Option<String>)
    ensures
        r.deep_view() == stream_content_of(data@),
{
    let v: serde_json::Value = match serde_json::from_str(data) {
        Ok(v) => v,
        Err(_) => return None,
    };
    let c = v.get("choices")?.get(0)?.get("delta")?.get("content")?;
    c.as_str().map(|s| s.to_string())
}

/// What one line of the streamed response means.
#[derive(Debug, Clone)]
pub enum StreamStep {
    /// The line carries nothing: it is blank, not a data line, or a data
    /// line without text content.
    Ignore,
    /// The stream-end sentinel.
    Done,
    /// One text fragment to accumulate.
    Fragment(String),
}

/// The mathematical value of a [`StreamStep`].
pub ghost enum StreamStepV {
    Ignore,
    Done,
    Fragment(Seq<char>),
}

impl View for StreamStep {
    type V = StreamStepV;

    open spec fn view(&self) -> StreamStepV {
        match self {
            StreamStep::Ignore => StreamStepV::Ignore,
            StreamStep::Done => StreamStepV::Done,
            StreamStep::Fragment(s) => StreamStepV::Fragment(s@),
        }
    }
}

/// How one line of the streamed response is interpreted: only lines starting
/// with the data marker count; the `[DONE]` payload ends the stream; any
/// other payload contributes its stream content, if it has one.
pub open spec fn stream_line_spec(line: Seq<char>) -> StreamStepV {
    if line.len() == 0 || !has_prefix(line, "data: "@) {
        StreamStepV::Ignore
    } else {
        let payload = line.skip("data: "@.len() as int);
        if payload == "[DONE]"@ {
            StreamStepV::Done
        } else {
            match stream_content_of(payload) {
                Some(c) => StreamStepV::Fragment(c),
                None => StreamStepV::Ignore,
            }
        }
    }
}

/// Interprets one line of the streamed response.
pub fn process_stream_line(line: &str) -> (r: StreamStep)
    ensures
        r@ == stream_line_spec(line@),
{
    let len: usize = line.unicode_len();
    proof {
        reveal_strlit("data: ");
    }
    if len == 0 || !str_has_prefix(line, "data: ") {
        return StreamStep::Ignore;
    }
    let payload = line.substring_char(6, len);
    proof {
        assert(payload@ =~= line@.skip("data: "@.len() as int));
    }
    if str_eq_str(payload, "[DONE]") {
        return StreamStep::Done;
    }
    match extract_stream_content(payload) {
        Some(c) => StreamStep::Fragment(c),
        None => StreamStep::Ignore,
    }
}

/// Appends one received fragment to the accumulated text.
pub fn append_fragment(acc: &mut String, fragment: &str)
    ensures
        final(acc)@ == old(acc)@ + fragment@,
{
    acc.append(fragment);
}

/// Classifies a transport-layer error by its text: authentication failures
/// are recognized by a 401 marker, rate limiting by a 429 marker, and
/// everything else is a network error carrying the text itself.
pub fn classify_transport_error(err_text: &str) -> (r: YetiError)
    ensures
        contains_seq(err_text@, "401"@) ==> r is InvalidApiKey && r->InvalidApiKey_0@
            == "Authentication failed"@,
        !contains_seq(err_text@, "401"@) && contains_seq(err_text@, "429"@) ==> r is ApiError
            && r->ApiError_status == 429 && r->ApiError_message@
            == "Rate limited. Please wait and try again."@,
        !contains_seq(err_text@, "401"@) && !contains_seq(err_text@, "429"@) ==> r
            is NetworkError && r->NetworkError_0@ == err_text@,
{
    if str_contains(err_text, "401") {
        YetiError::InvalidApiKey("Authentication failed".to_owned())
    } else if str_contains(err_text, "429") {
        YetiError::ApiError { status: 429, message: "Rate limited. Please wait and try again.".to_owned() }
    } else {
        YetiError::NetworkError(err_text.to_owned())
    }
}

/// Whether an HTTP status means success.
pub open spec fn is_success_status(status: u16) -> bool {
    200 <= status < 300
}

/// Classifies the response status of the credential-validation probe: 2xx
/// accepts the credential, 401 rejects it, anything else is a provider
/// error.
pub fn classify_validation_status(status: u16) -> (r: Result<(), YetiError>)
    ensures
        r is Ok <==> is_success_status(status),
        !is_success_status(status) && status == 401 ==> r->Err_0 is InvalidApiKey
            && r->Err_0->InvalidApiKey_0@ == "Invalid API key"@,
        !is_success_status(status) && status != 401 ==> r->Err_0 is ApiError
            && r->Err_0->ApiError_status == status && r->Err_0->ApiError_message@
            == "API request failed"@,
{
    if 200 <= status && status < 300 {
        Ok(())
    } else if status == 401 {
        Err(YetiError::InvalidApiKey("Invalid API key".to_owned()))
    } else {
        Err(YetiError::ApiError { status, message: "API request failed".to_owned() })
    }
}

/// Classifies the response status of the model-readiness probe: any failure
/// is surfaced as a distinct provider error.
pub fn classify_readiness_status(status: u16) -> (r: Result<(), YetiError>)
    ensures
        r is Ok <==> is_success_status(status),
        !is_success_status(status) ==> r->Err_0 is ApiError && r->Err_0->ApiError_status
            == status && r->Err_0->ApiError_message@ == "Provider readiness check failed"@,
{
    if 200 <= status && status < 300 {
        Ok(())
    } else {
        Err(YetiError::ApiError { status, message: "Provider readiness check failed".to_owned() })
    }
}

/// Classifies the response status of the generation call itself: a failure
/// carries the status and the response body verbatim.
pub fn classify_generation_status(status: u16, body_text: String) -> (r: Result<(), YetiError>)
    ensures
        r is Ok <==> is_success_status(status),
        !is_success_status(status) ==> r->Err_0 is ApiError && r->Err_0->ApiError_status
            == status && r->Err_0->ApiError_message@ == body_text@,
{
    if 200 <= status && status < 300 {
        Ok(())
    } else {
        Err(YetiError::ApiError { status, message: body_text })
    }
}

/// The failure reported when the credential probe fails just before a
/// generation call.
pub fn prevalidation_failure(detail: &str) -> (r: String)
    ensures
        r@ == "API key validation failed before generation: "@ + detail@,
{
    let mut r = "API key validation failed before generation: ".to_owned();
    r.append(detail);
    r
}

/// The failure reported when the model-readiness probe fails.
pub fn readiness_failure(detail: &str) -> (r: String)
    ensures
        r@ == "Provider readiness check failed: "@ + detail@,
{
    let mut r = "Provider readiness check failed: ".to_owned();
    r.append(detail);
    r
}

/// The idle timeout: a generation with no fragment at all fails after this
/// many milliseconds.
pub const NO_CHUNK_TIMEOUT_MS: u64 = 45000;

/// The overall timeout: a generation fails after this many milliseconds
/// regardless of partial progress.
pub const MAX_GENERATION_TIMEOUT_MS: u64 = 120000;

/// Whether a generation that started at `started_at_ms` has timed out at
/// `now_ms`: either nothing arrived within the idle timeout, or the overall
/// timeout passed.
pub open spec fn timed_out_spec(started_at_ms: u64, now_ms: u64, got_any: bool) -> bool {
    let elapsed = if now_ms >= started_at_ms {
        now_ms - started_at_ms
    } else {
        0
    };
    (!got_any && elapsed >= NO_CHUNK_TIMEOUT_MS) || elapsed >= MAX_GENERATION_TIMEOUT_MS
}

/// Decides whether a running generation has timed out.
pub fn generation_timed_out(started_at_ms: u64, now_ms: u64, generated_len: usize) -> (r: bool)
    ensures
        r == timed_out_spec(started_at_ms, now_ms, generated_len > 0),
{
    let elapsed: u64 = if now_ms >= started_at_ms {
        now_ms - started_at_ms
    } else {
        0
    };
    (generated_len == 0 && elapsed >= NO_CHUNK_TIMEOUT_MS) || elapsed >= MAX_GENERATION_TIMEOUT_MS
}

} // verus!
