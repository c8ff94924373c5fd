//! Typed operation results: their decoding from the model's JSON payload
//! and their rendering into the display text the interface shows.

use crate::i18n::{
    sp_changes_label, sp_corrected_label, sp_enhanced_label, sp_found_issues_tpl, sp_no_issues,
    Language,
};
use crate::json::{spec_member, sp_json, Json, JsonV};
use crate::text::{dec_digits, fmt_u64, push_char, replace_all, spec_replace};
use crate::wire::{LlmError, LlmErrorV};
use vstd::prelude::*;
use vstd::string::StringExecFns;

verus! {

/// One detected error span. `original` is the model's claim of a span of
/// the input; the library does not check that claim.
pub struct GrammarIssue {
    pub original: String,
    pub corrected: String,
    pub explanation: String,
    pub rule: String,
}

/// The mathematical shape of a [`GrammarIssue`].
pub struct GrammarIssueV {
    pub original: Seq<char>,
    pub corrected: Seq<char>,
    pub explanation: Seq<char>,
    pub rule: Seq<char>,
}

impl View for GrammarIssue {
    type V = GrammarIssueV;

    open spec fn view(&self) -> GrammarIssueV {
        GrammarIssueV {
            original: self.original@,
            corrected: self.corrected@,
            explanation: self.explanation@,
            rule: self.rule@,
        }
    }
}

/// What a grammar check yields: the issue list, the corrected full text,
/// and an optional summary.
pub struct CheckResult {
    pub issues: Vec<GrammarIssue>,
    pub corrected_text: String,
    pub summary: Option<String>,
}

/// The mathematical shape of a [`CheckResult`].
pub struct CheckResultV {
    pub issues: Seq<GrammarIssueV>,
    pub corrected_text: Seq<char>,
    pub summary: Option<Seq<char>>,
}

impl View for CheckResult {
    type V = CheckResultV;

    open spec fn view(&self) -> CheckResultV {
        CheckResultV {
            issues: Seq::new(self.issues@.len(), |i: int| self.issues[i]@),
            corrected_text: self.corrected_text@,
            summary: match self.summary {
                Some(s) => Some(s@),
                None => None,
            },
        }
    }
}

/// What an enhancement yields: the rewritten text and the rationale list.
pub struct EnhanceResult {
    pub enhanced_text: String,
    pub changes_made: Vec<String>,
}

/// The mathematical shape of an [`EnhanceResult`].
pub struct EnhanceResultV {
    pub enhanced_text: Seq<char>,
    pub changes_made: Seq<Seq<char>>,
}

impl View for EnhanceResult {
    type V = EnhanceResultV;

    open spec fn view(&self) -> EnhanceResultV {
        EnhanceResultV {
            enhanced_text: self.enhanced_text@,
            changes_made: Seq::new(self.changes_made@.len(), |i: int| self.changes_made[i]@),
        }
    }
}

/// The issue a JSON object describes, if it has the four string fields.
pub open spec fn sp_decode_issue(v: JsonV) -> Option<GrammarIssueV> {
    match v {
        JsonV::Obj(ms) => match (
            spec_member(ms, "original"@),
            spec_member(ms, "corrected"@),
            spec_member(ms, "explanation"@),
            spec_member(ms, "rule"@),
        ) {
            (
                Some(JsonV::Str(o)),
                Some(JsonV::Str(c)),
                Some(JsonV::Str(e)),
                Some(JsonV::Str(r)),
            ) => Some(GrammarIssueV { original: o, corrected: c, explanation: e, rule: r }),
            _ => None,
        },
        _ => None,
    }
}

/// The issues described from index `i` on, or `None` if any element is
/// not an issue object.
pub open spec fn sp_issues_from(items: Seq<JsonV>, i: int) -> Option<Seq<GrammarIssueV>>
    decreases items.len() - i,
{
    if !(0 <= i && i <= items.len()) {
        None
    } else if i == items.len() {
        Some(Seq::empty())
    } else {
        match sp_decode_issue(items[i]) {
            None => None,
            Some(gi) => match sp_issues_from(items, i + 1) {
                None => None,
                Some(rest) => Some(seq![gi] + rest),
            },
        }
    }
}

/// The check result a JSON value describes: an `issues` array of issue
/// objects and a `corrected_text` string are demanded; `summary` may be
/// missing or null. Members beside these are ignored.
pub open spec fn sp_decode_check(v: JsonV) -> Option<CheckResultV> {
    match v {
        JsonV::Obj(ms) => match (spec_member(ms, "issues"@), spec_member(ms, "corrected_text"@)) {
            (Some(JsonV::Arr(items)), Some(JsonV::Str(t))) => match sp_issues_from(items, 0) {
                None => None,
                Some(iss) => match spec_member(ms, "summary"@) {
                    None => Some(CheckResultV { issues: iss, corrected_text: t, summary: None }),
                    Some(JsonV::Null) => Some(
                        CheckResultV { issues: iss, corrected_text: t, summary: None },
                    ),
                    Some(JsonV::Str(su)) => Some(
                        CheckResultV { issues: iss, corrected_text: t, summary: Some(su) },
                    ),
                    Some(_) => None,
                },
            },
            _ => None,
        },
        _ => None,
    }
}

/// The strings from index `i` on, or `None` if any element is not a
/// string.
pub open spec fn sp_strings_from(items: Seq<JsonV>, i: int) -> Option<Seq<Seq<char>>>
    decreases items.len() - i,
{
    if !(0 <= i && i <= items.len()) {
        None
    } else if i == items.len() {
        Some(Seq::empty())
    } else {
        match items[i] {
            JsonV::Str(s) => match sp_strings_from(items, i + 1) {
                None => None,
                Some(rest) => Some(seq![s] + rest),
            },
            _ => None,
        }
    }
}

/// The enhancement result a JSON value describes: an `enhanced_text`
/// string and a `changes_made` array of strings. Members beside these are
/// ignored.
pub open spec fn sp_decode_enhance(v: JsonV) -> Option<EnhanceResultV> {
    match v {
        JsonV::Obj(ms) => match (
            spec_member(ms, "enhanced_text"@),
            spec_member(ms, "changes_made"@),
        ) {
            (Some(JsonV::Str(t)), Some(JsonV::Arr(items))) => match sp_strings_from(items, 0) {
                None => None,
                Some(cs) => Some(EnhanceResultV { enhanced_text: t, changes_made: cs }),
            },
            _ => None,
        },
        _ => None,
    }
}

/// What decoding an extracted payload text as a check result yields.
pub open spec fn sp_decode_check_payload(s: Seq<char>) -> Result<CheckResultV, LlmErrorV> {
    match sp_json(s) {
        None => Err(LlmErrorV::Decode("Failed to parse JSON"@)),
        Some(v) => match sp_decode_check(v) {
            None => Err(LlmErrorV::Decode("Failed to parse JSON"@)),
            Some(c) => Ok(c),
        },
    }
}

/// What decoding an extracted payload text as an enhancement result
/// yields.
pub open spec fn sp_decode_enhance_payload(s: Seq<char>) -> Result<EnhanceResultV, LlmErrorV> {
    match sp_json(s) {
        None => Err(LlmErrorV::Decode("Failed to parse JSON"@)),
        Some(v) => match sp_decode_enhance(v) {
            None => Err(LlmErrorV::Decode("Failed to parse JSON"@)),
            Some(c) => Ok(c),
        },
    }
}

/// Decodes one issue object.
fn decode_issue(j: &Json) -> (r: Option<GrammarIssue>)
    ensures
        match sp_decode_issue(j@) {
            Some(v) => r matches Some(gi) && gi@ == v,
            None => r is None,
        },
{
    let o = match j.get("original") {
        Some(Json::Str(s)) => s.clone(),
        _ => {
            return None;
        },
    };
    let c = match j.get("corrected") {
        Some(Json::Str(s)) => s.clone(),
        _ => {
            return None;
        },
    };
    let e = match j.get("explanation") {
        Some(Json::Str(s)) => s.clone(),
        _ => {
            return None;
        },
    };
    let ru = match j.get("rule") {
        Some(Json::Str(s)) => s.clone(),
        _ => {
            return None;
        },
    };
    Some(GrammarIssue { original: o, corrected: c, explanation: e, rule: ru })
}

/// Decodes the issue objects from index `i` on.
fn decode_issues_from(items: &Vec<Json>, i: usize) -> (r: Option<Vec<GrammarIssue>>)
    requires
        i <= items@.len(),
    ensures
        match sp_issues_from(crate::json::jsons_view(items@), i as int) {
            Some(v) => r matches Some(gs) && Seq::new(gs@.len(), |k: int| gs[k]@) == v,
            None => r is None,
        },
    decreases items@.len() - i,
{
    let ghost iv = crate::json::jsons_view(items@);
    if i == items.len() {
        let out: Vec<GrammarIssue> = Vec::new();
        proof {
            assert(Seq::new(out@.len(), |k: int| out[k]@) =~= Seq::<GrammarIssueV>::empty());
        }
        return Some(out);
    }
    proof {
        assert(iv[i as int] == items[i as int]@);
    }
    match decode_issue(&items[i]) {
        None => None,
        Some(gi) => match decode_issues_from(items, i + 1) {
            None => None,
            Some(mut rest) => {
                let ghost tail = Seq::new(rest@.len(), |k: int| rest[k]@);
                rest.insert(0, gi);
                proof {
                    assert(Seq::new(rest@.len(), |k: int| rest[k]@) =~= seq![gi@] + tail);
                }
                Some(rest)
            },
        },
    }
}

/// Decodes the string elements from index `i` on.
fn decode_strings_from(items: &Vec<Json>, i: usize) -> (r: Option<Vec<String>>)
    requires
        i <= items@.len(),
    ensures
        match sp_strings_from(crate::json::jsons_view(items@), i as int) {
            Some(v) => r matches Some(ss) && Seq::new(ss@.len(), |k: int| ss[k]@) == v,
            None => r is None,
        },
    decreases items@.len() - i,
{
    let ghost iv = crate::json::jsons_view(items@);
    if i == items.len() {
        let out: Vec<String> = Vec::new();
        proof {
            assert(Seq::new(out@.len(), |k: int| out[k]@) =~= Seq::<Seq<char>>::empty());
        }
        return Some(out);
    }
    proof {
        assert(iv[i as int] == items[i as int]@);
    }
    match &items[i] {
        Json::Str(s) => {
            let s = s.clone();
            match decode_strings_from(items, i + 1) {
                None => None,
                Some(mut rest) => {
                    let ghost tail = Seq::new(rest@.len(), |k: int| rest[k]@);
                    rest.insert(0, s);
                    proof {
                        assert(Seq::new(rest@.len(), |k: int| rest[k]@) =~= seq![s@] + tail);
                    }
                    Some(rest)
                },
            }
        },
        _ => None,
    }
}

/// A decode error for a payload that is not the asked-for shape.
fn payload_decode_error() -> (r: LlmError)
    ensures
        r@ == LlmErrorV::Decode("Failed to parse JSON"@),
{
    LlmError::Decode(String::from_str("Failed to parse JSON"))
}

/// Decodes an extracted payload text as a check result.
pub fn decode_check_payload(text: &str) -> (r: Result<CheckResult, LlmError>)
    ensures
        match sp_decode_check_payload(text@) {
            Ok(c) => r matches Ok(cr) && cr@ == c,
            Err(e) => r matches Err(x) && x@ == e,
        },
{
    let parsed = match crate::json::parse_json(text) {
        Some(v) => v,
        None => {
            return Err(payload_decode_error());
        },
    };
    let items = match parsed.get("issues") {
        Some(ij) => match ij {
            Json::Arr(items) => {
                proof {
                    assert(ij@ matches JsonV::Arr(a) && a =~= crate::json::jsons_view(items@));
                }
                items
            },
            _ => {
                return Err(payload_decode_error());
            },
        },
        _ => {
            return Err(payload_decode_error());
        },
    };
    let corrected = match parsed.get("corrected_text") {
        Some(Json::Str(t)) => t.clone(),
        _ => {
            return Err(payload_decode_error());
        },
    };
    let issues = match decode_issues_from(items, 0) {
        Some(gs) => gs,
        None => {
            return Err(payload_decode_error());
        },
    };
    let summary = match parsed.get("summary") {
        None => None,
        Some(Json::Null) => None,
        Some(Json::Str(s)) => Some(s.clone()),
        Some(_) => {
            return Err(payload_decode_error());
        },
    };
    let out = CheckResult { issues, corrected_text: corrected, summary };
    proof {
        assert(out@.issues =~= (match sp_decode_check_payload(text@) {
            Ok(c) => c.issues,
            Err(_) => Seq::empty(),
        }));
    }
    Ok(out)
}

/// Decodes an extracted payload text as an enhancement result.
pub fn decode_enhance_payload(text: &str) -> (r: Result<EnhanceResult, LlmError>)
    ensures
        match sp_decode_enhance_payload(text@) {
            Ok(c) => r matches Ok(er) && er@ == c,
            Err(e) => r matches Err(x) && x@ == e,
        },
{
    let parsed = match crate::json::parse_json(text) {
        Some(v) => v,
        None => {
            return Err(payload_decode_error());
        },
    };
    let enhanced = match parsed.get("enhanced_text") {
        Some(Json::Str(t)) => t.clone(),
        _ => {
            return Err(payload_decode_error());
        },
    };
    let items = match parsed.get("changes_made") {
        Some(cj) => match cj {
            Json::Arr(items) => {
                proof {
                    assert(cj@ matches JsonV::Arr(a) && a =~= crate::json::jsons_view(items@));
                }
                items
            },
            _ => {
                return Err(payload_decode_error());
            },
        },
        _ => {
            return Err(payload_decode_error());
        },
    };
    let changes = match decode_strings_from(items, 0) {
        Some(ss) => ss,
        None => {
            return Err(payload_decode_error());
        },
    };
    let out = EnhanceResult { enhanced_text: enhanced, changes_made: changes };
    proof {
        assert(out@.changes_made =~= (match sp_decode_enhance_payload(text@) {
            Ok(c) => c.changes_made,
            Err(_) => Seq::empty(),
        }));
    }
    Ok(out)
}

/// The rendered block for one issue: its one-based number, the span and
/// its correction, then the explanation and the rule.
pub open spec fn sp_issue_block(gi: GrammarIssueV, number: nat) -> Seq<char> {
    dec_digits(number) + ". \""@ + gi.original + "\" -> \""@ + gi.corrected + "\"\n   "@
        + gi.explanation + " ("@ + gi.rule + ")\n\n"@
}

/// The rendered blocks of the first `i` issues, in order.
pub open spec fn sp_issue_blocks(issues: Seq<GrammarIssueV>, i: int) -> Seq<char>
    decreases i,
{
    if i <= 0 {
        Seq::empty()
    } else {
        sp_issue_blocks(issues, i - 1) + sp_issue_block(issues[i - 1], i as nat)
    }
}

/// The rendered text of a check result: the "no issues" line or the
/// issue-count header with the numbered issue blocks, then a separator
/// and the corrected full text.
pub open spec fn sp_format_check(lang: Language, c: CheckResultV) -> Seq<char> {
    (if c.issues.len() == 0 {
        sp_no_issues(lang) + "\n\n"@
    } else {
        spec_replace(sp_found_issues_tpl(lang), "{}"@, dec_digits(c.issues.len())) + "\n\n"@
            + sp_issue_blocks(c.issues, c.issues.len() as int)
    }) + "---\n"@ + sp_corrected_label(lang) + "\n\n"@ + c.corrected_text
}

/// The rendered line for one change.
pub open spec fn sp_change_line(change: Seq<char>) -> Seq<char> {
    "* "@ + change + "\n"@
}

/// The rendered lines of the first `i` changes, in order.
pub open spec fn sp_change_lines(changes: Seq<Seq<char>>, i: int) -> Seq<char>
    decreases i,
{
    if i <= 0 {
        Seq::empty()
    } else {
        sp_change_lines(changes, i - 1) + sp_change_line(changes[i - 1])
    }
}

/// The rendered text of an enhancement result: the enhanced text under
/// its header, then a separator and the bulleted change list.
pub open spec fn sp_format_enhance(lang: Language, e: EnhanceResultV) -> Seq<char> {
    sp_enhanced_label(lang) + "\n\n"@ + e.enhanced_text + "\n\n---\n"@ + sp_changes_label(lang)
        + "\n\n"@ + sp_change_lines(e.changes_made, e.changes_made.len() as int)
}

/// Renders a check result for display.
#[verifier::rlimit(60)]
pub fn format_check_result(lang: Language, c: &CheckResult) -> (r: String)
    ensures
        r@ == sp_format_check(lang, c@),
{
    let s = lang.strings();
    let mut out = String::new();
    let n = c.issues.len();
    if n == 0 {
        out.append(s.no_issues);
        out.append("\n\n");
    } else {
        proof {
            reveal_strlit("{}");
        }
        let count = fmt_u64(n as u64);
        let header = replace_all(s.found_issues, "{}", count.as_str());
        out.append(header.as_str());
        out.append("\n\n");
        let mut i: usize = 0;
        while i < n
            invariant
                i <= n,
                n == c.issues@.len(),
                c@.issues.len() == n,
                out@ == spec_replace(sp_found_issues_tpl(lang), "{}"@, dec_digits(n as nat))
                    + "\n\n"@ + sp_issue_blocks(c@.issues, i as int),
            decreases n - i,
        {
            proof {
                assert(c@.issues[i as int] == c.issues[i as int]@);
            }
            let num = fmt_u64((i + 1) as u64);
            out.append(num.as_str());
            out.append(". \"");
            out.append(c.issues[i].original.as_str());
            out.append("\" -> \"");
            out.append(c.issues[i].corrected.as_str());
            out.append("\"\n   ");
            out.append(c.issues[i].explanation.as_str());
            out.append(" (");
            out.append(c.issues[i].rule.as_str());
            out.append(")\n\n");
            i = i + 1;
        }
    }
    out.append("---\n");
    out.append(s.corrected_text);
    out.append("\n\n");
    out.append(c.corrected_text.as_str());
    out
}

/// Renders an enhancement result for display.
#[verifier::rlimit(60)]
pub fn format_enhance_result(lang: Language, e: &EnhanceResult) -> (r: String)
    ensures
        r@ == sp_format_enhance(lang, e@),
{
    let s = lang.strings();
    let mut out = String::new();
    out.append(s.enhanced_text);
    out.append("\n\n");
    out.append(e.enhanced_text.as_str());
    out.append("\n\n---\n");
    out.append(s.changes_made);
    out.append("\n\n");
    let n = e.changes_made.len();
    let mut i: usize = 0;
    while i < n
        invariant
            i <= n,
            n == e.changes_made@.len(),
            e@.changes_made.len() == n,
            out@ == sp_enhanced_label(lang) + "\n\n"@ + e@.enhanced_text + "\n\n---\n"@
                + sp_changes_label(lang) + "\n\n"@ + sp_change_lines(e@.changes_made, i as int),
        decreases n - i,
    {
        proof {
            assert(e@.changes_made[i as int] == e.changes_made[i as int]@);
        }
        out.append("* ");
        out.append(e.changes_made[i].as_str());
        out.append("\n");
        i = i + 1;
    }
    out
}

} // verus!
