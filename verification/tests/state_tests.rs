use akkurate::config::{ApiConfig, AppConfig, Preferences};
use akkurate::presets::StylePreset;
use akkurate::i18n::Language;
use akkurate::ops::{GrammarChecker, HttpResponse, OperationOutcome};
use akkurate::state::{Action, App, AppFlags, Message, Screen, StartupFollowUp};

fn config_with_key(key: &str) -> AppConfig {
    AppConfig {
        api: ApiConfig { gemini_key: String::from(key) },
        preferences: Preferences {
            default_preset: String::from("casual"),
            theme: String::from("dark"),
            language: String::from("english"),
            auto_copy: true,
        },
    }
}

fn plain_flags() -> AppFlags {
    AppFlags {
        initial_text: None,
        auto_check: false,
        auto_enhance: false,
        check_clipboard: false,
        enhance_clipboard: false,
    }
}

fn ready_app() -> App {
    let (mut app, _) = App::new(config_with_key("SECRET-REDACTED"), Vec::new(), plain_flags());
    let a = app.update(Message::InputChanged(String::from("Hello world")));
    assert!(matches!(a, Action::Stay));
    app
}

fn envelope_with_payload(payload: &str) -> String {
    let escaped = payload.replace('\\', "\\\\").replace('"', "\\\"");
    format!("{{\"candidates\":[{{\"content\":{{\"parts\":[{{\"text\":\"{escaped}\"}}]}}}}]}}")
}

#[test]
fn defaults_from_default_config() {
    let (app, follow) = App::new(AppConfig::default(), Vec::new(), plain_flags());
    assert!(app.credential.is_none());
    assert!(app.show_setup_guide);
    assert_eq!(app.language, Language::Chinese);
    assert_eq!(app.screen, Screen::Main);
    assert_eq!(app.selected_preset, "casual");
    assert_eq!(follow, StartupFollowUp::Stay);
    assert!(!app.check_pending && !app.enhance_pending);
}

#[test]
fn startup_flags_pick_screen_and_follow_up() {
    let flags = AppFlags {
        initial_text: Some(String::from("check me")),
        auto_check: true,
        auto_enhance: false,
        check_clipboard: false,
        enhance_clipboard: false,
    };
    let (app, follow) = App::new(config_with_key("SECRET-REDACTED"), Vec::new(), flags);
    assert_eq!(app.input_text, "check me");
    assert_eq!(follow, StartupFollowUp::Check);
    assert_eq!(app.screen, Screen::Main);

    let flags2 = AppFlags {
        initial_text: None,
        auto_check: false,
        auto_enhance: false,
        check_clipboard: true,
        enhance_clipboard: false,
    };
    let (app2, follow2) = App::new(config_with_key("SECRET-REDACTED"), Vec::new(), flags2);
    assert_eq!(follow2, StartupFollowUp::PasteCheck);
    assert_eq!(app2.screen, Screen::Popup);
}

#[test]
fn check_without_credential_is_refused() {
    let (mut app, _) = App::new(config_with_key(""), Vec::new(), plain_flags());
    app.update(Message::InputChanged(String::from("Hello")));
    let a = app.update(Message::CheckGrammar);
    assert!(matches!(a, Action::Stay));
    assert_eq!(app.error_message.as_deref(), Some("API key not configured. Go to Settings."));
    assert!(!app.check_pending);
}

#[test]
fn check_with_blank_input_is_refused() {
    let (mut app, _) = App::new(config_with_key("SECRET-REDACTED"), Vec::new(), plain_flags());
    app.update(Message::InputChanged(String::from("  \n\t ")));
    let a = app.update(Message::CheckGrammar);
    assert!(matches!(a, Action::Stay));
    assert_eq!(app.error_message.as_deref(), Some("Please enter some text to check"));
    assert!(!app.check_pending);
}

#[test]
fn check_dispatches_and_is_single_flight() {
    let mut app = ready_app();
    let first = app.update(Message::CheckGrammar);
    match &first {
        Action::DispatchCheck { url, body } => {
            assert!(url.ends_with("?key=SECRET-REDACTED"));
            assert!(body.contains("Hello world"));
        }
        other => panic!("expected a dispatch, got {other:?}"),
    }
    assert!(app.check_pending);
    assert!(app.error_message.is_none());

    // a second request while the first is pending is a hard no-op
    let second = app.update(Message::CheckGrammar);
    assert!(matches!(second, Action::Stay));
    assert!(app.check_pending);
    assert!(app.error_message.is_none());
    assert_eq!(app.input_text, "Hello world");
}

#[test]
fn check_and_enhance_slots_are_independent() {
    let mut app = ready_app();
    let a = app.update(Message::CheckGrammar);
    assert!(matches!(a, Action::DispatchCheck { .. }));
    let b = app.update(Message::EnhanceText);
    assert!(matches!(b, Action::DispatchEnhance { .. }));
    assert!(app.check_pending && app.enhance_pending);
    // completions are kind-scoped
    app.update(Message::EnhanceComplete(OperationOutcome::Failure(String::from("boom"))));
    assert!(app.check_pending);
    assert!(!app.enhance_pending);
}

#[test]
fn successful_check_completion_renders_and_clears() {
    let mut app = ready_app();
    app.update(Message::CheckGrammar);
    let outcome = GrammarChecker::check_complete(&Ok(HttpResponse {
        status: 200,
        body: envelope_with_payload("{\"issues\": [], \"corrected_text\": \"Hello world.\"}"),
    }));
    match &outcome {
        OperationOutcome::Success(r) => {
            assert!(r.issues.is_empty());
            assert_eq!(r.corrected_text, "Hello world.");
        }
        OperationOutcome::Failure(m) => panic!("unexpected failure: {m}"),
    }
    app.update(Message::CheckComplete(outcome));
    assert!(!app.check_pending);
    assert!(app.error_message.is_none());
    assert_eq!(
        app.result_text,
        "[OK] No grammar issues found!\n\n---\nCorrected text:\n\nHello world."
    );
}

#[test]
fn malformed_model_answer_fails_with_a_decode_error_and_returns_to_idle() {
    let mut app = ready_app();
    app.update(Message::CheckGrammar);
    assert!(app.check_pending);
    let outcome = GrammarChecker::check_complete(&Ok(HttpResponse {
        status: 200,
        body: envelope_with_payload("this is not JSON {"),
    }));
    match &outcome {
        OperationOutcome::Failure(m) => assert_eq!(m, "Failed to parse JSON"),
        OperationOutcome::Success(_) => panic!("expected a failure"),
    }
    app.update(Message::CheckComplete(outcome));
    assert!(!app.check_pending);
    assert_eq!(app.error_message.as_deref(), Some("Error: Failed to parse JSON"));
    assert_eq!(app.input_text, "Hello world");
}

#[test]
fn transport_and_remote_failures_flatten_to_messages() {
    let t = GrammarChecker::check_complete(&Err(String::from("timed out")));
    match t {
        OperationOutcome::Failure(m) => {
            assert_eq!(m, "Failed to send request to Gemini API: timed out")
        }
        _ => panic!("expected a failure"),
    }
    let r = GrammarChecker::check_complete(&Ok(HttpResponse {
        status: 500,
        body: String::from("oops"),
    }));
    match r {
        OperationOutcome::Failure(m) => assert_eq!(m, "Gemini API error (500): oops"),
        _ => panic!("expected a failure"),
    }
}

#[test]
fn failure_keeps_the_stale_result_visible() {
    let mut app = ready_app();
    app.update(Message::CheckGrammar);
    app.update(Message::CheckComplete(OperationOutcome::Success(
        akkurate::results::CheckResult {
            issues: Vec::new(),
            corrected_text: String::from("Old result."),
            summary: None,
        },
    )));
    let old_result = app.result_text.clone();
    app.update(Message::CheckGrammar);
    app.update(Message::CheckComplete(OperationOutcome::Failure(String::from("x"))));
    assert_eq!(app.result_text, old_result);
    assert_eq!(app.error_message.as_deref(), Some("Error: x"));
}

#[test]
fn enhance_resolves_the_selected_preset() {
    let mut app = ready_app();
    app.update(Message::PresetSelected(String::from("no-such-preset")));
    let a = app.update(Message::EnhanceText);
    assert!(matches!(a, Action::Stay));
    assert_eq!(app.error_message.as_deref(), Some("Invalid preset selected"));
    assert!(!app.enhance_pending);

    app.update(Message::PresetSelected(String::from("business")));
    let b = app.update(Message::EnhanceText);
    match b {
        Action::DispatchEnhance { body, .. } => {
            assert!(body.contains("Business"));
        }
        other => panic!("expected a dispatch, got {other:?}"),
    }
}

#[test]
fn custom_presets_flow_into_enhancement() {
    let custom = vec![(
        String::from("casual"),
        StylePreset {
            name: String::from("Pirate"),
            tone: String::from("salty"),
            formality: String::from("none"),
            instructions: String::from("Talk like a pirate"),
        },
    )];
    let (mut app, _) = App::new(config_with_key("SECRET-REDACTED"), custom, plain_flags());
    app.update(Message::InputChanged(String::from("Hello")));
    match app.update(Message::EnhanceText) {
        Action::DispatchEnhance { body, .. } => {
            assert!(body.contains("Pirate"));
            assert!(body.contains("Talk like a pirate"));
        }
        other => panic!("expected a dispatch, got {other:?}"),
    }
}

#[test]
fn clear_all_resets_text_but_not_slots() {
    let mut app = ready_app();
    app.update(Message::CheckGrammar);
    app.update(Message::ClearAll);
    assert_eq!(app.input_text, "");
    assert_eq!(app.result_text, "");
    assert!(app.error_message.is_none());
    assert!(app.check_pending);
}

#[test]
fn copy_result_only_when_there_is_one() {
    let mut app = ready_app();
    assert!(matches!(app.update(Message::CopyResult), Action::Stay));
    app.update(Message::CheckComplete(OperationOutcome::Success(
        akkurate::results::CheckResult {
            issues: Vec::new(),
            corrected_text: String::from("R."),
            summary: None,
        },
    )));
    match app.update(Message::CopyResult) {
        Action::CopyToClipboard(t) => assert_eq!(t, app.result_text),
        other => panic!("expected a copy action, got {other:?}"),
    }
}

#[test]
fn saving_the_credential_reports_and_completes() {
    let (mut app, _) = App::new(AppConfig::default(), Vec::new(), plain_flags());
    app.update(Message::ApiKeyInputChanged(String::from("SECRET-REDACTED")));
    match app.update(Message::SaveApiKey) {
        Action::SaveConfigReport(c) => assert_eq!(c.api.gemini_key, "SECRET-REDACTED"),
        other => panic!("expected a save, got {other:?}"),
    }
    assert!(app.credential.is_none());
    app.update(Message::SaveCompleted(None));
    assert_eq!(app.credential.as_deref(), Some("SECRET-REDACTED"));
    assert!(!app.show_setup_guide);
    assert!(app.error_message.is_none());
}

#[test]
fn failed_save_reports_the_error() {
    let (mut app, _) = App::new(config_with_key(""), Vec::new(), plain_flags());
    app.update(Message::SaveApiKey);
    app.update(Message::SaveCompleted(Some(String::from("disk full"))));
    assert_eq!(app.error_message.as_deref(), Some("Failed to save config: disk full"));
    assert!(app.credential.is_none());
}

#[test]
fn theme_and_language_changes_persist() {
    let mut app = ready_app();
    match app.update(Message::ThemeChanged(String::from("light"))) {
        Action::SaveConfig(c) => assert_eq!(c.preferences.theme, "light"),
        other => panic!("expected a save, got {other:?}"),
    }
    assert_eq!(app.theme_preference, "light");
    match app.update(Message::LanguageChanged(Language::Chinese)) {
        Action::SaveConfig(c) => assert_eq!(c.preferences.language, "chinese"),
        other => panic!("expected a save, got {other:?}"),
    }
    assert_eq!(app.language, Language::Chinese);
}

#[test]
fn paste_and_check_uses_the_clipboard_text() {
    let mut app = ready_app();
    let a = app.update(Message::PasteAndCheck(Ok(String::from("from clipboard"))));
    assert!(matches!(a, Action::DispatchCheck { .. }));
    assert_eq!(app.input_text, "from clipboard");
    assert!(app.check_pending);

    let mut app2 = ready_app();
    let b = app2.update(Message::PasteAndCheck(Ok(String::new())));
    assert!(matches!(b, Action::Stay));
    assert_eq!(app2.error_message.as_deref(), Some("剪切板为空"));

    let mut app3 = ready_app();
    let c = app3.update(Message::PasteAndCheck(Err(String::from("no display"))));
    assert!(matches!(c, Action::Stay));
    assert_eq!(app3.error_message.as_deref(), Some("剪切板读取失败: no display"));
}

#[test]
fn navigation_and_clipboard_note() {
    let mut app = ready_app();
    app.update(Message::CopyCommand(String::from("akkurate -s")));
    assert_eq!(app.clipboard_msg.as_deref(), Some("Copied!"));
    app.update(Message::NavigateTo(Screen::Help));
    assert_eq!(app.screen, Screen::Help);
    assert!(app.clipboard_msg.is_none());
}

#[test]
fn i18n_surface() {
    assert_eq!(Language::Chinese.display_name(), "中文");
    assert_eq!(Language::English.display_name(), "English");
    assert_eq!(Language::all(), vec![Language::Chinese, Language::English]);
    let s = Language::English.strings();
    assert_eq!(s.preset_display_name("casual"), "Casual");
    assert_eq!(s.preset_display_name("unknown-key"), "unknown-key");
    let z = Language::Chinese.strings();
    assert_eq!(z.preset_display_name("business"), "商务");
    assert_eq!(Language::default(), Language::Chinese);
}

#[test]
fn default_config_values() {
    let c = AppConfig::default();
    assert_eq!(c.api.gemini_key, "");
    assert_eq!(c.preferences.default_preset, "casual");
    assert_eq!(c.preferences.theme, "dark");
    assert_eq!(c.preferences.language, "chinese");
    assert!(c.preferences.auto_copy);
}
