//! The request/response wire layer of the remote text-generation call.
//!
//! The request envelope is framed here as JSON text: the prompt is escaped
//! and embedded in a fixed body template, and the credential is carried to
//! the fixed endpoint address as a query parameter. The response envelope
//! is parsed and narrowed to the first candidate's first content part. The
//! network call itself lives outside the library; it is handed the URL and
//! body and brings back a status and body text.

use crate::json::{spec_member, sp_json, Json, JsonV};
use crate::text::{chars_of, push_char};
use vstd::prelude::*;
use vstd::string::StringExecFns;

verus! {

/// The fixed address of the remote text-generation endpoint.
pub open spec fn spec_endpoint() -> Seq<char> {
    "https://generativelanguage.googleapis.com/v1beta/models/gemini-3-flash-preview:generateContent"@
}

/// The endpoint address with the credential as a query parameter.
pub open spec fn spec_request_url(credential: Seq<char>) -> Seq<char> {
    spec_endpoint() + "?key="@ + credential
}

/// Builds the request URL for `credential`.
pub fn request_url(credential: &str) -> (r: String)
    ensures
        r@ == spec_request_url(credential@),
{
    let mut r = String::new();
    r.append(
        "https://generativelanguage.googleapis.com/v1beta/models/gemini-3-flash-preview:generateContent",
    );
    r.append("?key=");
    r.append(credential);
    r
}

/// The hexadecimal digit for `d`, lower case.
pub open spec fn hex_char(d: u32) -> char {
    if d == 0 {
        '0'
    } else if d == 1 {
        '1'
    } else if d == 2 {
        '2'
    } else if d == 3 {
        '3'
    } else if d == 4 {
        '4'
    } else if d == 5 {
        '5'
    } else if d == 6 {
        '6'
    } else if d == 7 {
        '7'
    } else if d == 8 {
        '8'
    } else if d == 9 {
        '9'
    } else if d == 10 {
        'a'
    } else if d == 11 {
        'b'
    } else if d == 12 {
        'c'
    } else if d == 13 {
        'd'
    } else if d == 14 {
        'e'
    } else {
        'f'
    }
}

/// How one character is written inside a JSON string: quote, backslash and
/// the named control characters get a two-character escape, the remaining
/// control characters a `\u00..` escape, everything else stands as itself.
pub open spec fn esc_char(c: char) -> Seq<char> {
    if c == '"' {
        seq!['\\', '"']
    } else if c == '\\' {
        seq!['\\', '\\']
    } else if c == '\u{8}' {
        seq!['\\', 'b']
    } else if c == '\u{c}' {
        seq!['\\', 'f']
    } else if c == '\n' {
        seq!['\\', 'n']
    } else if c == '\r' {
        seq!['\\', 'r']
    } else if c == '\t' {
        seq!['\\', 't']
    } else if (c as u32) < 0x20 {
        seq!['\\', 'u', '0', '0', hex_char((c as u32) / 16), hex_char((c as u32) % 16)]
    } else {
        seq![c]
    }
}

/// `s` written as the inside of a JSON string literal.
pub open spec fn esc(s: Seq<char>) -> Seq<char>
    decreases s.len(),
{
    if s.len() == 0 {
        Seq::empty()
    } else {
        esc_char(s[0]) + esc(s.drop_first())
    }
}

proof fn lemma_esc_concat(a: Seq<char>, b: Seq<char>)
    ensures
        esc(a + b) == esc(a) + esc(b),
    decreases a.len(),
{
    if a.len() == 0 {
        assert(a + b =~= b);
        assert(esc(a) + esc(b) =~= esc(b));
    } else {
        assert((a + b).drop_first() =~= a.drop_first() + b);
        lemma_esc_concat(a.drop_first(), b);
        assert(esc_char(a[0]) + (esc(a.drop_first()) + esc(b)) =~= (esc_char(a[0]) + esc(
            a.drop_first(),
        )) + esc(b));
    }
}

/// Appends one escaped character to `out`.
fn append_escaped_char(out: &mut String, c: char)
    ensures
        final(out)@ == old(out)@ + esc_char(c),
{
    if c == '"' {
        push_char(out, '\\');
        push_char(out, '"');
    } else if c == '\\' {
        push_char(out, '\\');
        push_char(out, '\\');
    } else if c == '\u{8}' {
        push_char(out, '\\');
        push_char(out, 'b');
    } else if c == '\u{c}' {
        push_char(out, '\\');
        push_char(out, 'f');
    } else if c == '\n' {
        push_char(out, '\\');
        push_char(out, 'n');
    } else if c == '\r' {
        push_char(out, '\\');
        push_char(out, 'r');
    } else if c == '\t' {
        push_char(out, '\\');
        push_char(out, 't');
    } else if (c as u32) < 0x20 {
        let u = c as u32;
        let hi: u32 = u / 16;
        let lo: u32 = u % 16;
        let hc: char = if hi == 0 {
            '0'
        } else {
            '1'
        };
        let lc: char = if lo == 0 {
            '0'
        } else if lo == 1 {
            '1'
        } else if lo == 2 {
            '2'
        } else if lo == 3 {
            '3'
        } else if lo == 4 {
            '4'
        } else if lo == 5 {
            '5'
        } else if lo == 6 {
            '6'
        } else if lo == 7 {
            '7'
        } else if lo == 8 {
            '8'
        } else if lo == 9 {
            '9'
        } else if lo == 10 {
            'a'
        } else if lo == 11 {
            'b'
        } else if lo == 12 {
            'c'
        } else if lo == 13 {
            'd'
        } else if lo == 14 {
            'e'
        } else {
            'f'
        };
        push_char(out, '\\');
        push_char(out, 'u');
        push_char(out, '0');
        push_char(out, '0');
        push_char(out, hc);
        push_char(out, lc);
        proof {
            assert(old(out)@ + seq!['\\'] + seq!['u'] + seq!['0'] + seq!['0'] + seq![hc]
                + seq![lc] =~= old(out)@ + esc_char(c));
        }
    } else {
        push_char(out, c);
    }
    proof {
        assert(final(out)@ =~= old(out)@ + esc_char(c));
    }
}

/// Writes `s` as the inside of a JSON string literal.
pub fn escape_json(s: &str) -> (r: String)
    ensures
        r@ == esc(s@),
{
    let cs = chars_of(s);
    let n = cs.len();
    let mut out = String::new();
    let mut i: usize = 0;
    proof {
        assert(s@.take(0) =~= Seq::<char>::empty());
    }
    while i < n
        invariant
            i <= n,
            n == s@.len(),
            cs@ == s@,
            out@ == esc(s@.take(i as int)),
        decreases n - i,
    {
        proof {
            assert(s@.take(i + 1) =~= s@.take(i as int) + seq![s@[i as int]]);
            lemma_esc_concat(s@.take(i as int), seq![s@[i as int]]);
            assert(seq![s@[i as int]].drop_first() =~= Seq::<char>::empty());
            assert(esc(Seq::<char>::empty()) == Seq::<char>::empty());
            assert(esc(seq![s@[i as int]]) =~= esc_char(s@[i as int]));
        }
        append_escaped_char(&mut out, cs[i]);
        i = i + 1;
    }
    proof {
        assert(s@.take(n as int) =~= s@);
    }
    out
}

/// The request body for one generation call: the prompt embedded in the
/// fixed envelope, with the temperature pinned low and a native-JSON
/// response asked for.
pub open spec fn spec_request_body(prompt: Seq<char>) -> Seq<char> {
    "{\"contents\":[{\"parts\":[{\"text\":\""@ + esc(prompt)
        + "\"}]}],\"generation_config\":{\"temperature\":0.2,\"responseMimeType\":\"application/json\"}}"@
}

/// Builds the request body for `prompt`.
pub fn build_request_body(prompt: &str) -> (r: String)
    ensures
        r@ == spec_request_body(prompt@),
{
    let mut r = String::new();
    r.append("{\"contents\":[{\"parts\":[{\"text\":\"");
    let escaped = escape_json(prompt);
    r.append(escaped.as_str());
    r.append(
        "\"}]}],\"generation_config\":{\"temperature\":0.2,\"responseMimeType\":\"application/json\"}}",
    );
    r
}

/// Why a generation call failed.
#[derive(Debug)]
pub enum LlmError {
    /// The network call could not complete; carries the transport's report.
    Transport(String),
    /// The endpoint answered with a non-success status; carries status and
    /// body text.
    Remote(u16, String),
    /// The response envelope or the model's payload was not the expected
    /// shape; carries a description.
    Decode(String),
    /// The envelope was well-formed but held no candidate or no content
    /// part; carries which of the two was missing.
    EmptyResponse(String),
}

/// The mathematical shape of a [`LlmError`].
pub enum LlmErrorV {
    Transport(Seq<char>),
    Remote(u16, Seq<char>),
    Decode(Seq<char>),
    EmptyResponse(Seq<char>),
}

impl View for LlmError {
    type V = LlmErrorV;

    open spec fn view(&self) -> LlmErrorV {
        match self {
            LlmError::Transport(m) => LlmErrorV::Transport(m@),
            LlmError::Remote(code, body) => LlmErrorV::Remote(*code, body@),
            LlmError::Decode(m) => LlmErrorV::Decode(m@),
            LlmError::EmptyResponse(m) => LlmErrorV::EmptyResponse(m@),
        }
    }
}

/// The one-line rendering of an error, shown to the user behind the
/// localized error prefix.
pub open spec fn sp_error_message(e: LlmErrorV) -> Seq<char> {
    match e {
        LlmErrorV::Transport(m) => "Failed to send request to Gemini API: "@ + m,
        LlmErrorV::Remote(code, body) => "Gemini API error ("@ + crate::text::dec_digits(
            code as nat,
        ) + "): "@ + body,
        LlmErrorV::Decode(m) => m,
        LlmErrorV::EmptyResponse(m) => m,
    }
}

impl LlmError {
    /// Renders the error as one line of text.
    pub fn message(&self) -> (r: String)
        ensures
            r@ == sp_error_message(self@),
    {
        match self {
            LlmError::Transport(m) => {
                let mut r = String::new();
                r.append("Failed to send request to Gemini API: ");
                r.append(m.as_str());
                r
            },
            LlmError::Remote(code, body) => {
                let mut r = String::new();
                r.append("Gemini API error (");
                let digits = crate::text::fmt_u64(*code as u64);
                r.append(digits.as_str());
                r.append("): ");
                r.append(body.as_str());
                r
            },
            LlmError::Decode(m) => m.clone(),
            LlmError::EmptyResponse(m) => m.clone(),
        }
    }
}

/// What [`decode_envelope`] yields for a response body: the first
/// candidate's first part's text, a decode error when the body is not an
/// envelope of the documented shape, or an empty-response error when the
/// candidate or part list is empty.
pub open spec fn sp_decode_envelope(s: Seq<char>) -> Result<Seq<char>, LlmErrorV> {
    match sp_json(s) {
        None => Err(LlmErrorV::Decode("Failed to parse Gemini response"@)),
        Some(v) => match v {
            JsonV::Obj(ms) => match spec_member(ms, "candidates"@) {
                Some(JsonV::Arr(cands)) => {
                    if cands.len() == 0 {
                        Err(LlmErrorV::EmptyResponse("No candidates returned"@))
                    } else {
                        match cands[0] {
                            JsonV::Obj(c0) => match spec_member(c0, "content"@) {
                                Some(JsonV::Obj(ct)) => match spec_member(ct, "parts"@) {
                                    Some(JsonV::Arr(parts)) => {
                                        if parts.len() == 0 {
                                            Err(
                                                LlmErrorV::EmptyResponse("No parts returned"@),
                                            )
                                        } else {
                                            match parts[0] {
                                                JsonV::Obj(p0) => match spec_member(
                                                    p0,
                                                    "text"@,
                                                ) {
                                                    Some(JsonV::Str(t)) => Ok(t),
                                                    _ => Err(
                                                        LlmErrorV::Decode(
                                                            "Failed to parse Gemini response"@,
                                                        ),
                                                    ),
                                                },
                                                _ => Err(
                                                    LlmErrorV::Decode(
                                                        "Failed to parse Gemini response"@,
                                                    ),
                                                ),
                                            }
                                        }
                                    },
                                    _ => Err(
                                        LlmErrorV::Decode("Failed to parse Gemini response"@),
                                    ),
                                },
                                _ => Err(LlmErrorV::Decode("Failed to parse Gemini response"@)),
                            },
                            _ => Err(LlmErrorV::Decode("Failed to parse Gemini response"@)),
                        }
                    }
                },
                _ => Err(LlmErrorV::Decode("Failed to parse Gemini response"@)),
            },
            _ => Err(LlmErrorV::Decode("Failed to parse Gemini response"@)),
        },
    }
}

/// A decode error for a response body that is not the documented envelope.
fn envelope_decode_error() -> (r: LlmError)
    ensures
        r@ == LlmErrorV::Decode("Failed to parse Gemini response"@),
{
    LlmError::Decode(String::from_str("Failed to parse Gemini response"))
}

/// Narrows a response body to the first candidate's first part's text.
pub fn decode_envelope(body: &str) -> (r: Result<String, LlmError>)
    ensures
        match sp_decode_envelope(body@) {
            Ok(t) => r matches Ok(s) && s@ == t,
            Err(e) => r matches Err(x) && x@ == e,
        },
{
    let parsed = match crate::json::parse_json(body) {
        Some(v) => v,
        None => {
            return Err(envelope_decode_error());
        },
    };
    let cands_j = match parsed.get("candidates") {
        Some(c) => c,
        None => {
            return Err(envelope_decode_error());
        },
    };
    let cands = match cands_j {
        Json::Arr(items) => items,
        _ => {
            return Err(envelope_decode_error());
        },
    };
    if cands.len() == 0 {
        return Err(LlmError::EmptyResponse(String::from_str("No candidates returned")));
    }
    let c0 = &cands[0];
    proof {
        assert(cands_j@ matches JsonV::Arr(cv) && cv[0] == c0@);
    }
    let content_j = match c0.get("content") {
        Some(c) => c,
        None => {
            return Err(envelope_decode_error());
        },
    };
    let parts_j = match content_j.get("parts") {
        Some(p) => p,
        None => {
            return Err(envelope_decode_error());
        },
    };
    let parts = match parts_j {
        Json::Arr(items) => items,
        _ => {
            return Err(envelope_decode_error());
        },
    };
    if parts.len() == 0 {
        return Err(LlmError::EmptyResponse(String::from_str("No parts returned")));
    }
    let p0 = &parts[0];
    proof {
        assert(parts_j@ matches JsonV::Arr(pv) && pv[0] == p0@);
    }
    let text_j = match p0.get("text") {
        Some(t) => t,
        None => {
            return Err(envelope_decode_error());
        },
    };
    match text_j {
        Json::Str(t) => Ok(t.clone()),
        _ => Err(envelope_decode_error()),
    }
}

} // verus!
