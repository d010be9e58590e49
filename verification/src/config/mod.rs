//! LoomWM configuration.
//!
//! Handles all configuration:
//! - User preferences
//! - Keybindings
//! - Theme settings
//! - AI service configuration

use crate::text::adjoined;
use vstd::prelude::*;
use vstd::string::StringExecFns;

pub mod keybindings;
pub mod settings;
pub mod theme;

pub use keybindings::{Keybinding, KeybindingAction};
pub use settings::Config;
pub use theme::Theme;

verus! {

/// Why the configuration could not be used.
#[derive(Debug)]
pub enum ConfigError {
    /// Failed to read config file.
    ReadError(String),
    /// Failed to parse config.
    ParseError(String),
    /// Invalid keybinding.
    InvalidKeybinding(String),
    /// Security violation.
    SecurityViolation(String),
}

/// The mathematical value of a [`ConfigError`].
pub ghost enum ConfigErrorView {
    ReadError(Seq<char>),
    ParseError(Seq<char>),
    InvalidKeybinding(Seq<char>),
    SecurityViolation(Seq<char>),
}

impl View for ConfigError {
    type V = ConfigErrorView;

    open spec fn view(&self) -> ConfigErrorView {
        match *self {
            ConfigError::ReadError(reason) => ConfigErrorView::ReadError(reason@),
            ConfigError::ParseError(reason) => ConfigErrorView::ParseError(reason@),
            ConfigError::InvalidKeybinding(reason) => ConfigErrorView::InvalidKeybinding(reason@),
            ConfigError::SecurityViolation(reason) => ConfigErrorView::SecurityViolation(reason@),
        }
    }
}

impl ConfigErrorView {
    /// The error in words.
    pub open spec fn message(self) -> Seq<char> {
        match self {
            ConfigErrorView::ReadError(detail) => "Failed to read config file: "@ + detail,
            ConfigErrorView::ParseError(detail) => "Failed to parse config: "@ + detail,
            ConfigErrorView::InvalidKeybinding(detail) => "Invalid keybinding: "@ + detail,
            ConfigErrorView::SecurityViolation(detail) => "Security violation: "@ + detail,
        }
    }
}

impl ConfigError {
    /// The error in words.
    pub fn message(&self) -> (message: String)
        ensures
            message@ == self@.message(),
    {
        match self {
            ConfigError::ReadError(detail) => String::from_str("Failed to read config file: ").concat(detail.as_str()),
            ConfigError::ParseError(detail) => String::from_str("Failed to parse config: ").concat(detail.as_str()),
            ConfigError::InvalidKeybinding(detail) => String::from_str("Invalid keybinding: ").concat(detail.as_str()),
            ConfigError::SecurityViolation(detail) => String::from_str("Security violation: ").concat(detail.as_str()),
        }
    }
}

/// What the operations of the configuration return.
pub type Result<T> = std::result::Result<T, ConfigError>;

/// The config directory of LoomWM for a user whose config directory is
/// `base`: the directory `loom-wm` in it, or in the current directory if
/// the user has none.
pub open spec fn spec_config_dir(base: Option<Seq<char>>) -> Seq<char> {
    adjoined(
        match base {
            Some(base) => base,
            None => "."@,
        },
        "loom-wm"@,
    )
}

/// The config file of LoomWM: `config.toml` in the config directory.
pub open spec fn spec_config_file(base: Option<Seq<char>>) -> Seq<char> {
    adjoined(spec_config_dir(base), "config.toml"@)
}

/// The view of a text that may be missing.
pub open spec fn text_of(text: Option<&str>) -> Option<Seq<char>> {
    match text {
        Some(text) => Some(text@),
        None => None,
    }
}

/// `config_dir` of the `dirs` crate: the config directory of the user, if
/// the environment names one. Nothing is claimed of it. A path that is not
/// valid Unicode comes back with the offending parts replaced.
#[verifier::external_body]
fn user_config_dir() -> (dir: Option<String>) {
    dirs::config_dir().map(|path| path.to_string_lossy().into_owned())
}

/// The config directory of LoomWM for a user whose config directory is
/// `base`, if there is one.
pub fn config_dir_in(base: Option<&str>) -> (dir: String)
    ensures
        dir@ == spec_config_dir(text_of(base)),
{
    match base {
        Some(base) => crate::text::path_join(base, "loom-wm"),
        None => crate::text::path_join(".", "loom-wm"),
    }
}

/// The config file of LoomWM for a user whose config directory is `base`,
/// if there is one.
pub fn config_file_in(base: Option<&str>) -> (file: String)
    ensures
        file@ == spec_config_file(text_of(base)),
{
    let dir = config_dir_in(base);
    crate::text::path_join(dir.as_str(), "config.toml")
}

/// Get the config directory path.
///
/// This is [`config_dir_in`] the config directory of the user, as the
/// environment names it.
pub fn config_dir() -> (dir: String)
    ensures
        exists|base: Option<Seq<char>>| dir@ == #[trigger] spec_config_dir(base),
{
    match user_config_dir() {
        Some(base) => {
            let dir = config_dir_in(Some(base.as_str()));
            assert(dir@ == spec_config_dir(Some(base@)));
            dir
        },
        None => {
            let dir = config_dir_in(None);
            assert(dir@ == spec_config_dir(None));
            dir
        },
    }
}

/// Get the default config file path.
///
/// This is [`config_file_in`] the config directory of the user, as the
/// environment names it.
pub fn config_file() -> (file: String)
    ensures
        exists|base: Option<Seq<char>>| file@ == #[trigger] spec_config_file(base),
{
    match user_config_dir() {
        Some(base) => {
            let file = config_file_in(Some(base.as_str()));
            assert(file@ == spec_config_file(Some(base@)));
            file
        },
        None => {
            let file = config_file_in(None);
            assert(file@ == spec_config_file(None));
            file
        },
    }
}

} // verus!
