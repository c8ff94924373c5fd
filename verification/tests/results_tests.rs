use akkurate::i18n::Language;
use akkurate::results::{
    decode_check_payload, decode_enhance_payload, format_check_result, format_enhance_result,
    CheckResult, EnhanceResult, GrammarIssue,
};
use akkurate::text::fmt_u64;
use akkurate::wire::LlmError;

#[test]
fn empty_issue_list_decodes() {
    let r = decode_check_payload("{\"issues\": [], \"corrected_text\": \"Hello world.\"}")
        .expect("decodes");
    assert!(r.issues.is_empty());
    assert_eq!(r.corrected_text, "Hello world.");
    assert!(r.summary.is_none());
}

#[test]
fn issues_and_summary_decode_in_order() {
    let payload = "{\"issues\":[{\"original\":\"teh\",\"corrected\":\"the\",\"explanation\":\"typo\",\"rule\":\"spelling\"},{\"original\":\"a\",\"corrected\":\"an\",\"explanation\":\"article\",\"rule\":\"grammar\"}],\"corrected_text\":\"done\",\"summary\":\"two fixes\"}";
    let r = decode_check_payload(payload).expect("decodes");
    assert_eq!(r.issues.len(), 2);
    assert_eq!(r.issues[0].original, "teh");
    assert_eq!(r.issues[0].corrected, "the");
    assert_eq!(r.issues[1].explanation, "article");
    assert_eq!(r.issues[1].rule, "grammar");
    assert_eq!(r.summary.as_deref(), Some("two fixes"));
}

#[test]
fn null_or_missing_summary_is_none_and_extra_members_are_ignored() {
    let r = decode_check_payload(
        "{\"issues\":[],\"corrected_text\":\"x\",\"summary\":null,\"extra\":[1,2]}",
    )
    .expect("decodes");
    assert!(r.summary.is_none());
}

#[test]
fn malformed_check_payloads_are_decode_errors() {
    for payload in [
        "not json",
        "{\"corrected_text\":\"x\"}",
        "{\"issues\":[]}",
        "{\"issues\":{},\"corrected_text\":\"x\"}",
        "{\"issues\":[{\"original\":\"a\"}],\"corrected_text\":\"x\"}",
        "{\"issues\":[],\"corrected_text\":5}",
        "{\"issues\":[],\"corrected_text\":\"x\",\"summary\":7}",
    ] {
        match decode_check_payload(payload) {
            Err(LlmError::Decode(m)) => assert_eq!(m, "Failed to parse JSON"),
            _ => panic!("expected a decode error for {payload:?}"),
        }
    }
}

#[test]
fn enhance_payload_decodes() {
    let r = decode_enhance_payload(
        "{\"enhanced_text\":\"Better.\",\"changes_made\":[\"c1\",\"c2\"]}",
    )
    .expect("decodes");
    assert_eq!(r.enhanced_text, "Better.");
    assert_eq!(r.changes_made, vec!["c1", "c2"]);
}

#[test]
fn malformed_enhance_payloads_are_decode_errors() {
    for payload in [
        "{}",
        "{\"enhanced_text\":\"x\"}",
        "{\"enhanced_text\":\"x\",\"changes_made\":[1]}",
        "{\"enhanced_text\":[],\"changes_made\":[]}",
    ] {
        assert!(decode_enhance_payload(payload).is_err(), "for {payload:?}");
    }
}

#[test]
fn check_render_without_issues() {
    let r = CheckResult {
        issues: Vec::new(),
        corrected_text: String::from("Hello world."),
        summary: None,
    };
    assert_eq!(
        format_check_result(Language::English, &r),
        "[OK] No grammar issues found!\n\n---\nCorrected text:\n\nHello world."
    );
    assert_eq!(
        format_check_result(Language::Chinese, &r),
        "[OK] 没有发现语法问题!\n\n---\n修正后的文本:\n\nHello world."
    );
}

#[test]
fn check_render_numbers_issues_in_order() {
    let r = CheckResult {
        issues: vec![
            GrammarIssue {
                original: String::from("teh"),
                corrected: String::from("the"),
                explanation: String::from("typo"),
                rule: String::from("spelling"),
            },
            GrammarIssue {
                original: String::from("a apple"),
                corrected: String::from("an apple"),
                explanation: String::from("article before a vowel"),
                rule: String::from("articles"),
            },
        ],
        corrected_text: String::from("The text."),
        summary: None,
    };
    assert_eq!(
        format_check_result(Language::English, &r),
        "Found 2 issue(s):\n\n1. \"teh\" -> \"the\"\n   typo (spelling)\n\n2. \"a apple\" -> \"an apple\"\n   article before a vowel (articles)\n\n---\nCorrected text:\n\nThe text."
    );
}

#[test]
fn enhance_render_lists_changes_in_order() {
    let r = EnhanceResult {
        enhanced_text: String::from("Better."),
        changes_made: vec![String::from("c1"), String::from("c2")],
    };
    assert_eq!(
        format_enhance_result(Language::English, &r),
        "Enhanced text:\n\nBetter.\n\n---\nChanges made:\n\n* c1\n* c2\n"
    );
}

#[test]
fn enhance_render_with_no_changes() {
    let r = EnhanceResult { enhanced_text: String::from("Same."), changes_made: Vec::new() };
    assert_eq!(
        format_enhance_result(Language::English, &r),
        "Enhanced text:\n\nSame.\n\n---\nChanges made:\n\n"
    );
}

#[test]
fn decimal_rendering() {
    assert_eq!(fmt_u64(0), "0");
    assert_eq!(fmt_u64(7), "7");
    assert_eq!(fmt_u64(10), "10");
    assert_eq!(fmt_u64(12345), "12345");
    assert_eq!(fmt_u64(u64::MAX), "18446744073709551615");
}
