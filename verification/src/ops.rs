//! The two named operations, as the pair of halves the asynchronous
//! network call splits each into: building the outbound request, and
//! turning the transport's outcome into a typed result.
//!
//! The network call itself is not here: a caller takes the URL and body,
//! performs one POST, and hands back either the status and body text or
//! the transport's failure report.

use crate::extract::{extract_json, spec_extract_json};
use crate::prompt::{build_check_prompt, build_enhance_prompt, spec_check_prompt,
    spec_enhance_prompt};
use crate::presets::StylePreset;
use crate::results::{decode_check_payload, decode_enhance_payload, sp_decode_check_payload,
    sp_decode_enhance_payload, CheckResult, CheckResultV, EnhanceResult, EnhanceResultV};
use crate::wire::{build_request_body, decode_envelope, request_url, sp_decode_envelope,
    sp_error_message, spec_request_body, spec_request_url, LlmError, LlmErrorV};
use vstd::prelude::*;

verus! {

/// What the transport brings back from one POST: the HTTP status code and
/// the response body text.
pub struct HttpResponse {
    pub status: u16,
    pub body: String,
}

/// The mathematical shape of an [`HttpResponse`].
pub struct HttpResponseV {
    pub status: u16,
    pub body: Seq<char>,
}

impl View for HttpResponse {
    type V = HttpResponseV;

    open spec fn view(&self) -> HttpResponseV {
        HttpResponseV { status: self.status, body: self.body@ }
    }
}

/// The transport's outcome: a response, or its failure report.
pub type TransportOutcome = Result<HttpResponse, String>;

/// The mathematical shape of a [`TransportOutcome`].
pub open spec fn transport_outcome_view(r: TransportOutcome) -> Result<HttpResponseV, Seq<char>> {
    match r {
        Ok(h) => Ok(h@),
        Err(t) => Err(t@),
    }
}

/// How one operation ends: its typed result, or one flattened message.
pub enum OperationOutcome<T> {
    Success(T),
    Failure(String),
}

/// The candidate text a transport outcome carries: a transport failure
/// and a non-success status each become their error; a success status has
/// its body read as the response envelope.
pub open spec fn sp_candidate_text(r: Result<HttpResponseV, Seq<char>>) -> Result<
    Seq<char>,
    LlmErrorV,
> {
    match r {
        Err(t) => Err(LlmErrorV::Transport(t)),
        Ok(h) => {
            if !(200 <= h.status && h.status <= 299) {
                Err(LlmErrorV::Remote(h.status, h.body))
            } else {
                sp_decode_envelope(h.body)
            }
        },
    }
}

/// Extracts the candidate text from a transport outcome.
pub fn llm_candidate_text(resp: &TransportOutcome) -> (r: Result<String, LlmError>)
    ensures
        match sp_candidate_text(transport_outcome_view(*resp)) {
            Ok(t) => r matches Ok(s) && s@ == t,
            Err(e) => r matches Err(x) && x@ == e,
        },
{
    match resp {
        Err(t) => Err(LlmError::Transport(t.clone())),
        Ok(h) => {
            if h.status < 200 || h.status > 299 {
                Err(LlmError::Remote(h.status, h.body.clone()))
            } else {
                decode_envelope(h.body.as_str())
            }
        },
    }
}

/// What completing a grammar check with a transport outcome yields.
pub open spec fn sp_complete_check(r: Result<HttpResponseV, Seq<char>>) -> Result<
    CheckResultV,
    LlmErrorV,
> {
    match sp_candidate_text(r) {
        Err(e) => Err(e),
        Ok(text) => sp_decode_check_payload(spec_extract_json(text)),
    }
}

/// What completing an enhancement with a transport outcome yields.
pub open spec fn sp_complete_enhance(r: Result<HttpResponseV, Seq<char>>) -> Result<
    EnhanceResultV,
    LlmErrorV,
> {
    match sp_candidate_text(r) {
        Err(e) => Err(e),
        Ok(text) => sp_decode_enhance_payload(spec_extract_json(text)),
    }
}

/// The grammar-check service: holds the credential and prepares and
/// completes check calls.
pub struct GrammarChecker {
    credential: String,
}

impl View for GrammarChecker {
    type V = Seq<char>;

    closed spec fn view(&self) -> Seq<char> {
        self.credential@
    }
}

impl GrammarChecker {
    /// A checker that will authenticate with `credential`.
    pub fn new(credential: String) -> (r: GrammarChecker)
        ensures
            r@ == credential@,
    {
        GrammarChecker { credential }
    }

    /// The URL and body of the check request for `text` with explanations
    /// in `lang`.
    pub fn check_request(&self, text: &str, lang: &str) -> (r: (String, String))
        ensures
            r.0@ == spec_request_url(self@),
            r.1@ == spec_request_body(spec_check_prompt(text@, lang@)),
    {
        let prompt = build_check_prompt(text, lang);
        (request_url(self.credential.as_str()), build_request_body(prompt.as_str()))
    }

    /// Turns the transport's outcome into the check's outcome, the error
    /// taxonomy flattened to one message only here.
    pub fn check_complete(resp: &TransportOutcome) -> (r: OperationOutcome<CheckResult>)
        ensures
            match sp_complete_check(transport_outcome_view(*resp)) {
                Ok(c) => r matches OperationOutcome::Success(cr) && cr@ == c,
                Err(e) => r matches OperationOutcome::Failure(m) && m@ == sp_error_message(e),
            },
    {
        match llm_candidate_text(resp) {
            Err(e) => OperationOutcome::Failure(e.message()),
            Ok(text) => {
                let payload = extract_json(text.as_str());
                match decode_check_payload(payload.as_str()) {
                    Ok(c) => OperationOutcome::Success(c),
                    Err(e) => OperationOutcome::Failure(e.message()),
                }
            },
        }
    }
}

/// The enhancement service: holds the credential and prepares and
/// completes enhancement calls.
pub struct TextEnhancer {
    credential: String,
}

impl View for TextEnhancer {
    type V = Seq<char>;

    closed spec fn view(&self) -> Seq<char> {
        self.credential@
    }
}

impl TextEnhancer {
    /// An enhancer that will authenticate with `credential`.
    pub fn new(credential: String) -> (r: TextEnhancer)
        ensures
            r@ == credential@,
    {
        TextEnhancer { credential }
    }

    /// The URL and body of the enhancement request for `text` in the
    /// style of `preset`, with explanations in `lang`.
    pub fn enhance_request(&self, text: &str, preset: &StylePreset, lang: &str) -> (r: (
        String,
        String,
    ))
        ensures
            r.0@ == spec_request_url(self@),
            r.1@ == spec_request_body(spec_enhance_prompt(text@, preset@, lang@)),
    {
        let prompt = build_enhance_prompt(text, preset, lang);
        (request_url(self.credential.as_str()), build_request_body(prompt.as_str()))
    }

    /// Turns the transport's outcome into the enhancement's outcome.
    pub fn enhance_complete(resp: &TransportOutcome) -> (r: OperationOutcome<EnhanceResult>)
        ensures
            match sp_complete_enhance(transport_outcome_view(*resp)) {
                Ok(c) => r matches OperationOutcome::Success(er) && er@ == c,
                Err(e) => r matches OperationOutcome::Failure(m) && m@ == sp_error_message(e),
            },
    {
        match llm_candidate_text(resp) {
            Err(e) => OperationOutcome::Failure(e.message()),
            Ok(text) => {
                let payload = extract_json(text.as_str());
                match decode_enhance_payload(payload.as_str()) {
                    Ok(c) => OperationOutcome::Success(c),
                    Err(e) => OperationOutcome::Failure(e.message()),
                }
            },
        }
    }
}

} // verus!
