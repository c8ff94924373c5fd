//! The persisted application configuration: the credential and the user
//! preferences. Reading and writing the configuration file is outside the
//! library; the values live here.

use vstd::prelude::*;
use vstd::string::StringExecFns;

verus! {

/// The credential for the remote endpoint; empty means not configured.
#[derive(Debug)]
pub struct ApiConfig {
    pub gemini_key: String,
}

/// The mathematical shape of an [`ApiConfig`].
pub struct ApiConfigV {
    pub gemini_key: Seq<char>,
}

impl View for ApiConfig {
    type V = ApiConfigV;

    open spec fn view(&self) -> ApiConfigV {
        ApiConfigV { gemini_key: self.gemini_key@ }
    }
}

/// The user preferences.
#[derive(Debug)]
pub struct Preferences {
    pub default_preset: String,
    pub theme: String,
    pub language: String,
    pub auto_copy: bool,
}

/// The mathematical shape of a [`Preferences`].
pub struct PreferencesV {
    pub default_preset: Seq<char>,
    pub theme: Seq<char>,
    pub language: Seq<char>,
    pub auto_copy: bool,
}

impl View for Preferences {
    type V = PreferencesV;

    open spec fn view(&self) -> PreferencesV {
        PreferencesV {
            default_preset: self.default_preset@,
            theme: self.theme@,
            language: self.language@,
            auto_copy: self.auto_copy,
        }
    }
}

/// The whole persisted configuration.
#[derive(Debug)]
pub struct AppConfig {
    pub api: ApiConfig,
    pub preferences: Preferences,
}

/// The mathematical shape of an [`AppConfig`].
pub struct AppConfigV {
    pub api: ApiConfigV,
    pub preferences: PreferencesV,
}

impl View for AppConfig {
    type V = AppConfigV;

    open spec fn view(&self) -> AppConfigV {
        AppConfigV { api: self.api@, preferences: self.preferences@ }
    }
}

/// The configuration a fresh installation starts from.
pub open spec fn spec_default_config() -> AppConfigV {
    AppConfigV {
        api: ApiConfigV { gemini_key: Seq::empty() },
        preferences: PreferencesV {
            default_preset: "casual"@,
            theme: "dark"@,
            language: "chinese"@,
            auto_copy: true,
        },
    }
}

impl Default for AppConfig {
    /// An empty credential and the fixed default preferences.
    fn default() -> (r: AppConfig)
        ensures
            r@ == spec_default_config(),
    {
        AppConfig {
            api: ApiConfig { gemini_key: String::new() },
            preferences: Preferences {
                default_preset: String::from_str("casual"),
                theme: String::from_str("dark"),
                language: String::from_str("chinese"),
                auto_copy: true,
            },
        }
    }
}

impl AppConfig {
    /// An owned copy with the same contents.
    pub fn duplicate(&self) -> (r: AppConfig)
        ensures
            r@ == self@,
    {
        AppConfig {
            api: ApiConfig { gemini_key: self.api.gemini_key.clone() },
            preferences: Preferences {
                default_preset: self.preferences.default_preset.clone(),
                theme: self.preferences.theme.clone(),
                language: self.preferences.language.clone(),
                auto_copy: self.preferences.auto_copy,
            },
        }
    }
}

} // verus!
