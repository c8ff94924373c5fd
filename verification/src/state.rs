//! The application state machine.
//!
//! One value of [`App`] owns every interface-visible field. Each user
//! intent or completion arrives as a [`Message`]; [`App::update`] applies
//! exactly the transition [`spec_step`] describes and hands back the one
//! [`Action`] the surroundings must perform: dispatch a network call,
//! write the clipboard, or persist the configuration. The two operation
//! kinds have independent pending slots, and a request for a kind already
//! pending is a hard no-op, so at most one call per kind is ever
//! outstanding.

use crate::config::{ApiConfigV, AppConfig, AppConfigV, PreferencesV};
use crate::i18n::{
    sp_api_not_configured, sp_display_name, sp_enter_text_check, sp_enter_text_enhance,
    sp_error_prefix, sp_invalid_preset, sp_save_failed, Language,
};
use crate::ops::OperationOutcome;
use crate::presets::{builtin_presets, entry_views, spec_get, spec_merge, PresetManager,
    PresetTable, StylePreset};
use crate::prompt::{build_check_prompt, build_enhance_prompt, spec_check_prompt,
    spec_enhance_prompt};
use crate::results::{
    format_check_result, format_enhance_result, sp_format_check, sp_format_enhance, CheckResult,
    EnhanceResult,
};
use crate::text::{is_blank, is_blank_str, str_eq};
use crate::wire::{build_request_body, request_url, spec_request_body, spec_request_url};
use vstd::prelude::*;
use vstd::string::StringExecFns;

verus! {

/// Which screen the interface shows.
#[derive(Clone, Copy, PartialEq, Eq, Structural, Debug)]
pub enum Screen {
    Main,
    Settings,
    Help,
    Popup,
}

/// What the process was started with.
pub struct AppFlags {
    pub initial_text: Option<String>,
    pub auto_check: bool,
    pub auto_enhance: bool,
    pub check_clipboard: bool,
    pub enhance_clipboard: bool,
}

/// The mathematical shape of an [`AppFlags`].
pub struct AppFlagsV {
    pub initial_text: Option<Seq<char>>,
    pub auto_check: bool,
    pub auto_enhance: bool,
    pub check_clipboard: bool,
    pub enhance_clipboard: bool,
}

impl View for AppFlags {
    type V = AppFlagsV;

    open spec fn view(&self) -> AppFlagsV {
        AppFlagsV {
            initial_text: match self.initial_text {
                Some(t) => Some(t@),
                None => None,
            },
            auto_check: self.auto_check,
            auto_enhance: self.auto_enhance,
            check_clipboard: self.check_clipboard,
            enhance_clipboard: self.enhance_clipboard,
        }
    }
}

/// A user intent or an asynchronous completion. Clipboard reads happen
/// outside the library; the messages that used to trigger them carry what
/// the read brought back.
pub enum Message {
    NavigateTo(Screen),
    InputChanged(String),
    PresetSelected(String),
    CheckGrammar,
    EnhanceText,
    CheckComplete(OperationOutcome<CheckResult>),
    EnhanceComplete(OperationOutcome<EnhanceResult>),
    CopyResult,
    PasteFromClipboard(Option<String>),
    ClearAll,
    CopyCommand(String),
    PasteAndCheck(Result<String, String>),
    PasteAndEnhance(Option<String>),
    ApiKeyInputChanged(String),
    SaveApiKey,
    SaveCompleted(Option<String>),
    ThemeChanged(String),
    LanguageChanged(Language),
    ToggleSetupGuide,
    ClearClipboardMsg,
}

/// What the surroundings must do after a transition.
#[derive(Debug)]
pub enum Action {
    Stay,
    DispatchCheck { url: String, body: String },
    DispatchEnhance { url: String, body: String },
    CopyToClipboard(String),
    SaveConfig(AppConfig),
    SaveConfigReport(AppConfig),
}

/// The mathematical shape of an [`Action`].
pub enum ActionV {
    Stay,
    DispatchCheck { url: Seq<char>, body: Seq<char> },
    DispatchEnhance { url: Seq<char>, body: Seq<char> },
    CopyToClipboard(Seq<char>),
    SaveConfig(AppConfigV),
    SaveConfigReport(AppConfigV),
}

impl View for Action {
    type V = ActionV;

    open spec fn view(&self) -> ActionV {
        match self {
            Action::Stay => ActionV::Stay,
            Action::DispatchCheck { url, body } => ActionV::DispatchCheck {
                url: url@,
                body: body@,
            },
            Action::DispatchEnhance { url, body } => ActionV::DispatchEnhance {
                url: url@,
                body: body@,
            },
            Action::CopyToClipboard(t) => ActionV::CopyToClipboard(t@),
            Action::SaveConfig(c) => ActionV::SaveConfig(c@),
            Action::SaveConfigReport(c) => ActionV::SaveConfigReport(c@),
        }
    }
}

/// What `App::new` asks the surroundings to feed back first.
#[derive(Clone, Copy, PartialEq, Eq, Structural, Debug)]
pub enum StartupFollowUp {
    Stay,
    Check,
    Enhance,
    PasteCheck,
    PasteEnhance,
}

/// The application state: the configuration, the resolved credential, the
/// preset table, and every interface-visible field.
pub struct App {
    pub config: AppConfig,
    pub credential: Option<String>,
    pub presets: PresetManager,
    pub screen: Screen,
    pub input_text: String,
    pub result_text: String,
    pub selected_preset: String,
    pub check_pending: bool,
    pub enhance_pending: bool,
    pub error_message: Option<String>,
    pub show_setup_guide: bool,
    pub api_key_input: String,
    pub theme_preference: String,
    pub language: Language,
    pub clipboard_msg: Option<String>,
}

/// The mathematical shape of an [`App`].
pub struct AppV {
    pub config: AppConfigV,
    pub credential: Option<Seq<char>>,
    pub presets: PresetTable,
    pub screen: Screen,
    pub input_text: Seq<char>,
    pub result_text: Seq<char>,
    pub selected_preset: Seq<char>,
    pub check_pending: bool,
    pub enhance_pending: bool,
    pub error_message: Option<Seq<char>>,
    pub show_setup_guide: bool,
    pub api_key_input: Seq<char>,
    pub theme_preference: Seq<char>,
    pub language: Language,
    pub clipboard_msg: Option<Seq<char>>,
}

impl View for App {
    type V = AppV;

    open spec fn view(&self) -> AppV {
        AppV {
            config: self.config@,
            credential: match self.credential {
                Some(c) => Some(c@),
                None => None,
            },
            presets: self.presets@,
            screen: self.screen,
            input_text: self.input_text@,
            result_text: self.result_text@,
            selected_preset: self.selected_preset@,
            check_pending: self.check_pending,
            enhance_pending: self.enhance_pending,
            error_message: match self.error_message {
                Some(e) => Some(e@),
                None => None,
            },
            show_setup_guide: self.show_setup_guide,
            api_key_input: self.api_key_input@,
            theme_preference: self.theme_preference@,
            language: self.language,
            clipboard_msg: match self.clipboard_msg {
                Some(m) => Some(m@),
                None => None,
            },
        }
    }
}

/// The transition for a check request: a no-op while a check is already
/// pending; a complaint when no credential is configured or the input is
/// blank; otherwise the slot turns pending, the error clears, and the
/// prepared call is dispatched.
pub open spec fn spec_request_check(st: AppV) -> (AppV, ActionV) {
    if st.check_pending {
        (st, ActionV::Stay)
    } else {
        match st.credential {
            None => (
                AppV { error_message: Some(sp_api_not_configured(st.language)), ..st },
                ActionV::Stay,
            ),
            Some(cred) => {
                if is_blank(st.input_text) {
                    (
                        AppV { error_message: Some(sp_enter_text_check(st.language)), ..st },
                        ActionV::Stay,
                    )
                } else {
                    (
                        AppV { check_pending: true, error_message: None, ..st },
                        ActionV::DispatchCheck {
                            url: spec_request_url(cred),
                            body: spec_request_body(
                                spec_check_prompt(st.input_text, sp_display_name(st.language)),
                            ),
                        },
                    )
                }
            },
        }
    }
}

/// The transition for an enhancement request: as for a check, with the
/// selected preset resolved first; an unresolvable key is a complaint.
pub open spec fn spec_request_enhance(st: AppV) -> (AppV, ActionV) {
    if st.enhance_pending {
        (st, ActionV::Stay)
    } else {
        match st.credential {
            None => (
                AppV { error_message: Some(sp_api_not_configured(st.language)), ..st },
                ActionV::Stay,
            ),
            Some(cred) => {
                if is_blank(st.input_text) {
                    (
                        AppV { error_message: Some(sp_enter_text_enhance(st.language)), ..st },
                        ActionV::Stay,
                    )
                } else {
                    match spec_get(st.presets, st.selected_preset) {
                        None => (
                            AppV { error_message: Some(sp_invalid_preset(st.language)), ..st },
                            ActionV::Stay,
                        ),
                        Some(p) => (
                            AppV { enhance_pending: true, error_message: None, ..st },
                            ActionV::DispatchEnhance {
                                url: spec_request_url(cred),
                                body: spec_request_body(
                                    spec_enhance_prompt(
                                        st.input_text,
                                        p,
                                        sp_display_name(st.language),
                                    ),
                                ),
                            },
                        ),
                    }
                }
            },
        }
    }
}

/// The whole transition table: the state after `m` and the action it
/// demands.
pub open spec fn spec_step(pre: AppV, m: Message) -> (AppV, ActionV) {
    match m {
        Message::NavigateTo(s) => (AppV { screen: s, clipboard_msg: None, ..pre }, ActionV::Stay),
        Message::InputChanged(s) => (AppV { input_text: s@, ..pre }, ActionV::Stay),
        Message::PresetSelected(p) => (AppV { selected_preset: p@, ..pre }, ActionV::Stay),
        Message::CheckGrammar => spec_request_check(pre),
        Message::EnhanceText => spec_request_enhance(pre),
        Message::CheckComplete(outcome) => match outcome {
            OperationOutcome::Success(cr) => (
                AppV {
                    check_pending: false,
                    result_text: sp_format_check(pre.language, cr@),
                    error_message: None,
                    ..pre
                },
                ActionV::Stay,
            ),
            OperationOutcome::Failure(msg) => (
                AppV {
                    check_pending: false,
                    error_message: Some(sp_error_prefix(pre.language) + ": "@ + msg@),
                    ..pre
                },
                ActionV::Stay,
            ),
        },
        Message::EnhanceComplete(outcome) => match outcome {
            OperationOutcome::Success(er) => (
                AppV {
                    enhance_pending: false,
                    result_text: sp_format_enhance(pre.language, er@),
                    error_message: None,
                    ..pre
                },
                ActionV::Stay,
            ),
            OperationOutcome::Failure(msg) => (
                AppV {
                    enhance_pending: false,
                    error_message: Some(sp_error_prefix(pre.language) + ": "@ + msg@),
                    ..pre
                },
                ActionV::Stay,
            ),
        },
        Message::CopyResult => {
            if pre.result_text.len() > 0 {
                (pre, ActionV::CopyToClipboard(pre.result_text))
            } else {
                (pre, ActionV::Stay)
            }
        },
        Message::PasteFromClipboard(ot) => match ot {
            Some(t) => (AppV { input_text: t@, ..pre }, ActionV::Stay),
            None => (pre, ActionV::Stay),
        },
        Message::ClearAll => (
            AppV {
                input_text: Seq::empty(),
                result_text: Seq::empty(),
                error_message: None,
                ..pre
            },
            ActionV::Stay,
        ),
        Message::CopyCommand(cmd) => (
            AppV {
                clipboard_msg: Some(
                    if pre.language == Language::Chinese {
                        "已复制!"@
                    } else {
                        "Copied!"@
                    },
                ),
                ..pre
            },
            ActionV::CopyToClipboard(cmd@),
        ),
        Message::PasteAndCheck(res) => match res {
            Ok(t) => {
                if t@.len() > 0 {
                    spec_request_check(AppV { input_text: t@, ..pre })
                } else {
                    (AppV { error_message: Some("剪切板为空"@), ..pre }, ActionV::Stay)
                }
            },
            Err(e) => (
                AppV { error_message: Some("剪切板读取失败: "@ + e@), ..pre },
                ActionV::Stay,
            ),
        },
        Message::PasteAndEnhance(ot) => match ot {
            Some(t) => spec_request_enhance(AppV { input_text: t@, ..pre }),
            None => (pre, ActionV::Stay),
        },
        Message::ApiKeyInputChanged(k) => (AppV { api_key_input: k@, ..pre }, ActionV::Stay),
        Message::SaveApiKey => {
            let c2 = AppConfigV {
                api: ApiConfigV { gemini_key: pre.api_key_input },
                preferences: pre.config.preferences,
            };
            (AppV { config: c2, ..pre }, ActionV::SaveConfigReport(c2))
        },
        Message::SaveCompleted(oe) => match oe {
            None => (
                AppV {
                    credential: Some(pre.config.api.gemini_key),
                    show_setup_guide: false,
                    error_message: None,
                    ..pre
                },
                ActionV::Stay,
            ),
            Some(e) => (
                AppV { error_message: Some(sp_save_failed(pre.language) + ": "@ + e@), ..pre },
                ActionV::Stay,
            ),
        },
        Message::ThemeChanged(t) => {
            let c2 = AppConfigV {
                api: pre.config.api,
                preferences: PreferencesV { theme: t@, ..pre.config.preferences },
            };
            (AppV { theme_preference: t@, config: c2, ..pre }, ActionV::SaveConfig(c2))
        },
        Message::LanguageChanged(l) => {
            let lv = if l == Language::Chinese {
                "chinese"@
            } else {
                "english"@
            };
            let c2 = AppConfigV {
                api: pre.config.api,
                preferences: PreferencesV { language: lv, ..pre.config.preferences },
            };
            (AppV { language: l, config: c2, ..pre }, ActionV::SaveConfig(c2))
        },
        Message::ToggleSetupGuide => (
            AppV { show_setup_guide: !pre.show_setup_guide, ..pre },
            ActionV::Stay,
        ),
        Message::ClearClipboardMsg => (AppV { clipboard_msg: None, ..pre }, ActionV::Stay),
    }
}

/// The state a process starts in, and what to feed back first.
pub open spec fn spec_init(c: AppConfigV, custom: PresetTable, f: AppFlagsV) -> (
    AppV,
    StartupFollowUp,
) {
    let follow = match f.initial_text {
        Some(_) => {
            if f.auto_check {
                StartupFollowUp::Check
            } else if f.auto_enhance {
                StartupFollowUp::Enhance
            } else {
                StartupFollowUp::Stay
            }
        },
        None => {
            if f.check_clipboard {
                StartupFollowUp::PasteCheck
            } else if f.enhance_clipboard {
                StartupFollowUp::PasteEnhance
            } else {
                StartupFollowUp::Stay
            }
        },
    };
    (
        AppV {
            config: c,
            credential: if c.api.gemini_key.len() > 0 {
                Some(c.api.gemini_key)
            } else {
                None
            },
            presets: spec_merge(builtin_presets(), custom),
            screen: if f.check_clipboard || f.enhance_clipboard {
                Screen::Popup
            } else {
                Screen::Main
            },
            input_text: match f.initial_text {
                Some(t) => t,
                None => Seq::empty(),
            },
            result_text: Seq::empty(),
            selected_preset: c.preferences.default_preset,
            check_pending: false,
            enhance_pending: false,
            error_message: None,
            show_setup_guide: c.api.gemini_key.len() == 0,
            api_key_input: c.api.gemini_key,
            theme_preference: c.preferences.theme,
            language: if c.preferences.language == "english"@ {
                Language::English
            } else {
                Language::Chinese
            },
            clipboard_msg: None,
        },
        follow,
    )
}

impl App {
    /// Builds the starting state from the loaded configuration, the
    /// externally supplied preset entries, and the startup flags.
    pub fn new(config: AppConfig, custom_presets: Vec<(String, StylePreset)>, flags: AppFlags)
        -> (r: (App, StartupFollowUp))
        ensures
            ({
                let (s, f) = spec_init(config@, entry_views(custom_presets@), flags@);
                r.0@ == s && r.1 == f
            }),
    {
        let mut presets = PresetManager::new();
        presets.merge(custom_presets);
        let key_present = !config.api.gemini_key.as_str().is_empty();
        let credential = if key_present {
            Some(config.api.gemini_key.clone())
        } else {
            None
        };
        let language = if str_eq(config.preferences.language.as_str(), "english") {
            Language::English
        } else {
            Language::Chinese
        };
        let screen = if flags.check_clipboard || flags.enhance_clipboard {
            Screen::Popup
        } else {
            Screen::Main
        };
        let auto_check = flags.auto_check;
        let auto_enhance = flags.auto_enhance;
        let check_clipboard = flags.check_clipboard;
        let enhance_clipboard = flags.enhance_clipboard;
        let (input_text, follow): (String, StartupFollowUp) = match flags.initial_text {
            Some(t) => {
                let fw = if auto_check {
                    StartupFollowUp::Check
                } else if auto_enhance {
                    StartupFollowUp::Enhance
                } else {
                    StartupFollowUp::Stay
                };
                (t, fw)
            },
            None => {
                let fw = if check_clipboard {
                    StartupFollowUp::PasteCheck
                } else if enhance_clipboard {
                    StartupFollowUp::PasteEnhance
                } else {
                    StartupFollowUp::Stay
                };
                (String::new(), fw)
            },
        };
        let app = App {
            selected_preset: config.preferences.default_preset.clone(),
            theme_preference: config.preferences.theme.clone(),
            api_key_input: config.api.gemini_key.clone(),
            language,
            config,
            credential,
            presets,
            screen,
            input_text,
            result_text: String::new(),
            check_pending: false,
            enhance_pending: false,
            error_message: None,
            show_setup_guide: !key_present,
            clipboard_msg: None,
        };
        (app, follow)
    }

    /// Applies the check-request transition.
    fn request_check(&mut self) -> (r: Action)
        ensures
            ({
                let (s2, a) = spec_request_check(old(self)@);
                final(self)@ == s2 && r@ == a
            }),
    {
        if self.check_pending {
            return Action::Stay;
        }
        let s = self.language.strings();
        let cred = match &self.credential {
            None => {
                self.error_message = Some(String::from_str(s.api_not_configured));
                return Action::Stay;
            },
            Some(c) => c.clone(),
        };
        if is_blank_str(self.input_text.as_str()) {
            self.error_message = Some(String::from_str(s.enter_text_check));
            return Action::Stay;
        }
        self.check_pending = true;
        self.error_message = None;
        let prompt = build_check_prompt(self.input_text.as_str(), self.language.display_name());
        Action::DispatchCheck {
            url: request_url(cred.as_str()),
            body: build_request_body(prompt.as_str()),
        }
    }

    /// Applies the enhancement-request transition.
    fn request_enhance(&mut self) -> (r: Action)
        ensures
            ({
                let (s2, a) = spec_request_enhance(old(self)@);
                final(self)@ == s2 && r@ == a
            }),
    {
        if self.enhance_pending {
            return Action::Stay;
        }
        let s = self.language.strings();
        let cred = match &self.credential {
            None => {
                self.error_message = Some(String::from_str(s.api_not_configured));
                return Action::Stay;
            },
            Some(c) => c.clone(),
        };
        if is_blank_str(self.input_text.as_str()) {
            self.error_message = Some(String::from_str(s.enter_text_enhance));
            return Action::Stay;
        }
        let preset = match self.presets.get(self.selected_preset.as_str()) {
            None => {
                self.error_message = Some(String::from_str(s.invalid_preset));
                return Action::Stay;
            },
            Some(p) => p.duplicate(),
        };
        self.enhance_pending = true;
        self.error_message = None;
        let prompt = build_enhance_prompt(
            self.input_text.as_str(),
            &preset,
            self.language.display_name(),
        );
        Action::DispatchEnhance {
            url: request_url(cred.as_str()),
            body: build_request_body(prompt.as_str()),
        }
    }

    /// Applies one transition of the table and returns the action it
    /// demands.
    pub fn update(&mut self, m: Message) -> (r: Action)
        ensures
            ({
                let (s2, a) = spec_step(old(self)@, m);
                final(self)@ == s2 && r@ == a
            }),
    {
        match m {
            Message::NavigateTo(s) => {
                self.screen = s;
                self.clipboard_msg = None;
                Action::Stay
            },
            Message::InputChanged(s) => {
                self.input_text = s;
                Action::Stay
            },
            Message::PresetSelected(p) => {
                self.selected_preset = p;
                Action::Stay
            },
            Message::CheckGrammar => self.request_check(),
            Message::EnhanceText => self.request_enhance(),
            Message::CheckComplete(outcome) => {
                self.check_pending = false;
                match outcome {
                    OperationOutcome::Success(cr) => {
                        self.result_text = format_check_result(self.language, &cr);
                        self.error_message = None;
                    },
                    OperationOutcome::Failure(msg) => {
                        let s = self.language.strings();
                        let mut e = String::from_str(s.error_prefix);
                        e.append(": ");
                        e.append(msg.as_str());
                        self.error_message = Some(e);
                    },
                }
                Action::Stay
            },
            Message::EnhanceComplete(outcome) => {
                self.enhance_pending = false;
                match outcome {
                    OperationOutcome::Success(er) => {
                        self.result_text = format_enhance_result(self.language, &er);
                        self.error_message = None;
                    },
                    OperationOutcome::Failure(msg) => {
                        let s = self.language.strings();
                        let mut e = String::from_str(s.error_prefix);
                        e.append(": ");
                        e.append(msg.as_str());
                        self.error_message = Some(e);
                    },
                }
                Action::Stay
            },
            Message::CopyResult => {
                if !self.result_text.as_str().is_empty() {
                    Action::CopyToClipboard(self.result_text.clone())
                } else {
                    Action::Stay
                }
            },
            Message::PasteFromClipboard(ot) => {
                match ot {
                    Some(t) => {
                        self.input_text = t;
                    },
                    None => {},
                }
                Action::Stay
            },
            Message::ClearAll => {
                self.input_text = String::new();
                self.result_text = String::new();
                self.error_message = None;
                Action::Stay
            },
            Message::CopyCommand(cmd) => {
                self.clipboard_msg = Some(
                    if self.language == Language::Chinese {
                        String::from_str("已复制!")
                    } else {
                        String::from_str("Copied!")
                    },
                );
                Action::CopyToClipboard(cmd)
            },
            Message::PasteAndCheck(res) => match res {
                Ok(t) => {
                    if !t.as_str().is_empty() {
                        self.input_text = t;
                        self.request_check()
                    } else {
                        self.error_message = Some(String::from_str("剪切板为空"));
                        Action::Stay
                    }
                },
                Err(e) => {
                    let mut msg = String::from_str("剪切板读取失败: ");
                    msg.append(e.as_str());
                    self.error_message = Some(msg);
                    Action::Stay
                },
            },
            Message::PasteAndEnhance(ot) => match ot {
                Some(t) => {
                    self.input_text = t;
                    self.request_enhance()
                },
                None => Action::Stay,
            },
            Message::ApiKeyInputChanged(k) => {
                self.api_key_input = k;
                Action::Stay
            },
            Message::SaveApiKey => {
                self.config.api.gemini_key = self.api_key_input.clone();
                Action::SaveConfigReport(self.config.duplicate())
            },
            Message::SaveCompleted(oe) => {
                match oe {
                    None => {
                        self.credential = Some(self.config.api.gemini_key.clone());
                        self.show_setup_guide = false;
                        self.error_message = None;
                    },
                    Some(e) => {
                        let s = self.language.strings();
                        let mut msg = String::from_str(s.save_failed);
                        msg.append(": ");
                        msg.append(e.as_str());
                        self.error_message = Some(msg);
                    },
                }
                Action::Stay
            },
            Message::ThemeChanged(t) => {
                self.theme_preference = t.clone();
                self.config.preferences.theme = t;
                Action::SaveConfig(self.config.duplicate())
            },
            Message::LanguageChanged(l) => {
                self.language = l;
                self.config.preferences.language = if l == Language::Chinese {
                    String::from_str("chinese")
                } else {
                    String::from_str("english")
                };
                Action::SaveConfig(self.config.duplicate())
            },
            Message::ToggleSetupGuide => {
                self.show_setup_guide = !self.show_setup_guide;
                Action::Stay
            },
            Message::ClearClipboardMsg => {
                self.clipboard_msg = None;
                Action::Stay
            },
        }
    }
}

/// A check request made while a check is already pending changes no state
/// and dispatches nothing: with the completion transitions, which alone
/// clear a pending slot, at most one check call is ever outstanding, and
/// likewise for enhancement.
pub proof fn lemma_single_flight(st: AppV)
    requires
        st.check_pending,
        st.enhance_pending,
    ensures
        spec_step(st, Message::CheckGrammar) == (st, ActionV::Stay),
        spec_step(st, Message::EnhanceText) == (st, ActionV::Stay),
{
}

} // verus!
