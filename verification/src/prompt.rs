//! Prompt construction for the two operations.
//!
//! Both prompts carry an explicit role instruction, repeat the explanation
//! language at every place an explanation is demanded, show a literal JSON
//! schema the answer must match, and append the input text verbatim at the
//! end, never escaped or truncated. No length cap is applied here: an
//! oversized input is for the remote service to reject.

use crate::presets::StylePreset;
use crate::text::{ends_with, occurs_at};
use vstd::prelude::*;
use vstd::string::StringExecFns;

verus! {

/// The grammar-check prompt for `text` with explanations in `lang`.
pub open spec fn spec_check_prompt(text: Seq<char>, lang: Seq<char>) -> Seq<char> {
    "Please act as a professional grammar checker. Check the following text for grammar, spelling, and punctuation errors.\nThe user's interface language is "@
        + lang + ". Assessment and explanations MUST BE in "@ + lang
        + ".\n\nFor each issue found:\n1.  Identify the original text.\n2.  Provide the corrected text.\n3.  Explain why it is an error (concise explanation in "@
        + lang + ").\n4.  Cite the grammar rule involved (in "@ + lang
        + ").\n\nReturn the result in strict JSON format matching this structure:\n{\n  \"issues\": [\n    {\n      \"original\": \"substring with error\",\n      \"corrected\": \"corrected substring\",\n      \"explanation\": \"explanation in "@
        + lang + "\",\n      \"rule\": \"grammar rule in "@ + lang
        + "\"\n    }\n  ],\n  \"corrected_text\": \"the full text with all corrections applied\"\n}\n\nIf there are no errors, return an empty \"issues\" list.\n\nText to check:\n"@
        + text
}

/// Builds the grammar-check prompt.
pub fn build_check_prompt(text: &str, lang: &str) -> (r: String)
    ensures
        r@ == spec_check_prompt(text@, lang@),
{
    let mut r = String::new();
    r.append(
        "Please act as a professional grammar checker. Check the following text for grammar, spelling, and punctuation errors.\nThe user's interface language is ",
    );
    r.append(lang);
    r.append(". Assessment and explanations MUST BE in ");
    r.append(lang);
    r.append(
        ".\n\nFor each issue found:\n1.  Identify the original text.\n2.  Provide the corrected text.\n3.  Explain why it is an error (concise explanation in ",
    );
    r.append(lang);
    r.append(").\n4.  Cite the grammar rule involved (in ");
    r.append(lang);
    r.append(
        ").\n\nReturn the result in strict JSON format matching this structure:\n{\n  \"issues\": [\n    {\n      \"original\": \"substring with error\",\n      \"corrected\": \"corrected substring\",\n      \"explanation\": \"explanation in ",
    );
    r.append(lang);
    r.append("\",\n      \"rule\": \"grammar rule in ");
    r.append(lang);
    r.append(
        "\"\n    }\n  ],\n  \"corrected_text\": \"the full text with all corrections applied\"\n}\n\nIf there are no errors, return an empty \"issues\" list.\n\nText to check:\n",
    );
    r.append(text);
    r
}

/// The enhancement prompt for `text` in the style of `preset`, with
/// explanations in `lang`.
pub open spec fn spec_enhance_prompt(
    text: Seq<char>,
    preset: crate::presets::StylePresetV,
    lang: Seq<char>,
) -> Seq<char> {
    "Please act as a professional writing editor. Enhance the following text to match the style: \""@
        + preset.name + "\".\nDescription of style: "@ + preset.instructions
        + ".\nThe user's interface language is "@ + lang + ". Explanations MUST BE in "@ + lang
        + ".\n\nAnalyze the text and rewrite it to better fit the requested style.\nList the specific changes you made and explain why (in "@
        + lang
        + ").\n\nReturn the result in strict JSON format matching this structure:\n{\n  \"enhanced_text\": \"the rewritten text\",\n  \"changes_made\": [\n    \"Change 1: explanation in "@
        + lang + "\",\n    \"Change 2: explanation in "@ + lang
        + "\"\n  ]\n}\n\nText to enhance:\n"@ + text
}

/// Builds the enhancement prompt.
pub fn build_enhance_prompt(text: &str, preset: &StylePreset, lang: &str) -> (r: String)
    ensures
        r@ == spec_enhance_prompt(text@, preset@, lang@),
{
    let mut r = String::new();
    r.append(
        "Please act as a professional writing editor. Enhance the following text to match the style: \"",
    );
    r.append(preset.name.as_str());
    r.append("\".\nDescription of style: ");
    r.append(preset.instructions.as_str());
    r.append(".\nThe user's interface language is ");
    r.append(lang);
    r.append(". Explanations MUST BE in ");
    r.append(lang);
    r.append(
        ".\n\nAnalyze the text and rewrite it to better fit the requested style.\nList the specific changes you made and explain why (in ",
    );
    r.append(lang);
    r.append(
        ").\n\nReturn the result in strict JSON format matching this structure:\n{\n  \"enhanced_text\": \"the rewritten text\",\n  \"changes_made\": [\n    \"Change 1: explanation in ",
    );
    r.append(lang);
    r.append("\",\n    \"Change 2: explanation in ");
    r.append(lang);
    r.append("\"\n  ]\n}\n\nText to enhance:\n");
    r.append(text);
    r
}

proof fn lemma_occurs_mid(a: Seq<char>, b: Seq<char>, c: Seq<char>)
    ensures
        occurs_at(a + b + c, b, a.len() as int),
{
    assert((a + b + c).subrange(a.len() as int, a.len() + b.len() as int) =~= b);
}

proof fn lemma_ends_concat(a: Seq<char>, b: Seq<char>)
    ensures
        ends_with(a + b, b),
{
    assert((a + b).subrange(a.len() as int, (a + b).len() as int) =~= b);
}

/// The check prompt carries the input text as a verbatim trailing
/// substring, and repeats the explanation language at four or more
/// pairwise disjoint places, one for each instruction site that demands
/// an explanation.
pub proof fn lemma_check_prompt_quotes_input(text: Seq<char>, lang: Seq<char>)
    ensures
        ends_with(spec_check_prompt(text, lang), text),
        exists|i1: int, i2: int, i3: int, i4: int|
            {
                &&& occurs_at(spec_check_prompt(text, lang), lang, i1)
                &&& occurs_at(spec_check_prompt(text, lang), lang, i2)
                &&& occurs_at(spec_check_prompt(text, lang), lang, i3)
                &&& occurs_at(spec_check_prompt(text, lang), lang, i4)
                &&& i1 + lang.len() <= i2
                &&& i2 + lang.len() <= i3
                &&& i3 + lang.len() <= i4
            },
{
    let p = spec_check_prompt(text, lang);
    let l1 =
        "Please act as a professional grammar checker. Check the following text for grammar, spelling, and punctuation errors.\nThe user's interface language is "@;
    let l2 = ". Assessment and explanations MUST BE in "@;
    let l3 =
        ".\n\nFor each issue found:\n1.  Identify the original text.\n2.  Provide the corrected text.\n3.  Explain why it is an error (concise explanation in "@;
    let l4 = ").\n4.  Cite the grammar rule involved (in "@;
    let l5 =
        ").\n\nReturn the result in strict JSON format matching this structure:\n{\n  \"issues\": [\n    {\n      \"original\": \"substring with error\",\n      \"corrected\": \"corrected substring\",\n      \"explanation\": \"explanation in "@;
    let l6 = "\",\n      \"rule\": \"grammar rule in "@;
    let l7 =
        "\"\n    }\n  ],\n  \"corrected_text\": \"the full text with all corrections applied\"\n}\n\nIf there are no errors, return an empty \"issues\" list.\n\nText to check:\n"@;
    let whole_prefix = l1 + lang + l2 + lang + l3 + lang + l4 + lang + l5 + lang + l6 + lang + l7;
    assert(p =~= whole_prefix + text);
    lemma_ends_concat(whole_prefix, text);

    let c1 = l2 + lang + l3 + lang + l4 + lang + l5 + lang + l6 + lang + l7 + text;
    assert(p =~= l1 + lang + c1);
    lemma_occurs_mid(l1, lang, c1);
    let o1 = l1.len() as int;

    let a2 = l1 + lang + l2;
    let c2 = l3 + lang + l4 + lang + l5 + lang + l6 + lang + l7 + text;
    assert(p =~= a2 + lang + c2);
    lemma_occurs_mid(a2, lang, c2);
    let o2 = a2.len() as int;

    let a3 = a2 + lang + l3;
    let c3 = l4 + lang + l5 + lang + l6 + lang + l7 + text;
    assert(p =~= a3 + lang + c3);
    lemma_occurs_mid(a3, lang, c3);
    let o3 = a3.len() as int;

    let a4 = a3 + lang + l4;
    let c4 = l5 + lang + l6 + lang + l7 + text;
    assert(p =~= a4 + lang + c4);
    lemma_occurs_mid(a4, lang, c4);
    let o4 = a4.len() as int;

    assert(occurs_at(p, lang, o1));
    assert(occurs_at(p, lang, o2));
    assert(occurs_at(p, lang, o3));
    assert(occurs_at(p, lang, o4));
    assert(o1 + lang.len() <= o2);
    assert(o2 + lang.len() <= o3);
    assert(o3 + lang.len() <= o4);
}

} // verus!
