use akkurate::presets::StylePreset;
use akkurate::prompt::{build_check_prompt, build_enhance_prompt};

#[test]
fn check_prompt_ends_with_input_verbatim() {
    let text = "Ths is a sentnce. \"Quotes\" & <tags> stay as-is.\n";
    let p = build_check_prompt(text, "English");
    assert!(p.ends_with(text));
}

#[test]
fn check_prompt_repeats_language_at_least_four_times() {
    let p = build_check_prompt("hello", "中文");
    assert!(p.matches("中文").count() >= 4);
    let q = build_check_prompt("hello", "English");
    assert!(q.matches("English").count() >= 4);
}

#[test]
fn check_prompt_has_role_and_schema() {
    let p = build_check_prompt("hello", "English");
    assert!(p.starts_with("Please act as a professional grammar checker."));
    assert!(p.contains("\"issues\": ["));
    assert!(p.contains("\"corrected_text\": \"the full text with all corrections applied\""));
    assert!(p.contains("Text to check:\nhello"));
}

#[test]
fn enhance_prompt_carries_preset_and_input() {
    let preset = StylePreset {
        name: String::from("Casual"),
        tone: String::from("friendly"),
        formality: String::from("informal"),
        instructions: String::from("Keep it relaxed"),
    };
    let text = "Dear sir or madam";
    let p = build_enhance_prompt(text, &preset, "English");
    assert!(p.starts_with(
        "Please act as a professional writing editor. Enhance the following text to match the style: \"Casual\"."
    ));
    assert!(p.contains("Description of style: Keep it relaxed."));
    assert!(p.ends_with("Text to enhance:\nDear sir or madam"));
    assert!(p.matches("English").count() >= 4);
    assert!(p.contains("\"enhanced_text\": \"the rewritten text\""));
}

#[test]
fn prompts_are_deterministic() {
    let a = build_check_prompt("x", "English");
    let b = build_check_prompt("x", "English");
    assert_eq!(a, b);
}
