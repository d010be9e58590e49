//! Main configuration struct.

use crate::config::keybindings::{default_keybindings, keybinding_views, Keybinding};
use crate::config::theme::Theme;
use crate::config::{ConfigError, ConfigErrorView};
use crate::scalar::Scalar;
use vstd::prelude::*;
use vstd::string::StringSliceAdditionalSpecFns;

verus! {

/// The largest config file that is read, in bytes (1MB).
pub const MAX_CONFIG_SIZE: usize = 1_048_576;

/// The bit pattern of the default initial zoom, `1.0`.
pub const DEFAULT_ZOOM_BITS: u64 = 0x3FF0_0000_0000_0000;

/// The bit pattern of the default zoom sensitivity, `0.1`.
pub const DEFAULT_ZOOM_SENSITIVITY_BITS: u64 = 0x3FB9_9999_9999_999A;

/// The bit pattern of the default pan sensitivity, `1.0`.
pub const DEFAULT_PAN_SENSITIVITY_BITS: u64 = 0x3FF0_0000_0000_0000;

/// The bit pattern of the default grid spacing, `50.0`.
pub const DEFAULT_GRID_SPACING_BITS: u64 = 0x4049_0000_0000_0000;

/// All settings.
///
/// The configuration holds a secret, the API key, so it has no `Debug`
/// output of its own.
#[derive(Clone)]
pub struct Config {
    /// General settings.
    pub general: GeneralConfig,
    /// Canvas settings.
    pub canvas: CanvasConfig,
    /// AI settings.
    pub ai: AiConfig,
    /// Theme settings.
    pub theme: Theme,
    /// Keybindings.
    pub keybindings: Vec<Keybinding>,
}

/// General settings.
#[derive(Debug, Clone)]
pub struct GeneralConfig {
    /// Enable debug logging.
    pub debug: bool,
    /// Default terminal application.
    pub terminal: String,
    /// Default launcher command.
    pub launcher: Option<String>,
}

/// Canvas settings.
#[derive(Debug, Clone, Copy, PartialEq, Eq, Structural)]
pub struct CanvasConfig {
    /// Initial zoom level.
    pub initial_zoom: Scalar,
    /// Zoom sensitivity (mouse wheel).
    pub zoom_sensitivity: Scalar,
    /// Pan sensitivity.
    pub pan_sensitivity: Scalar,
    /// Show grid in background.
    pub show_grid: bool,
    /// Grid spacing in pixels.
    pub grid_spacing: Scalar,
}

/// AI settings.
#[derive(Clone)]
pub struct AiConfig {
    /// Enable AI features.
    pub enabled: bool,
    /// AI service URL (for remote LLM).
    pub service_url: Option<String>,
    /// API key for AI service (WARNING: stored in plaintext).
    pub api_key: Option<String>,
    /// Use local model instead of remote.
    pub use_local: bool,
    /// Local model path.
    pub local_model_path: Option<String>,
}

impl GeneralConfig {
    /// No debug logging, the terminal `foot`, no launcher.
    pub open spec fn is_default(&self) -> bool {
        !self.debug && self.terminal@ == "foot"@ && self.launcher is None
    }
}

impl CanvasConfig {
    /// Zoom 1, zoom sensitivity 0.1, pan sensitivity 1, and a grid every 50
    /// pixels.
    pub open spec fn spec_default() -> CanvasConfig {
        CanvasConfig {
            initial_zoom: Scalar { bits: DEFAULT_ZOOM_BITS },
            zoom_sensitivity: Scalar { bits: DEFAULT_ZOOM_SENSITIVITY_BITS },
            pan_sensitivity: Scalar { bits: DEFAULT_PAN_SENSITIVITY_BITS },
            show_grid: true,
            grid_spacing: Scalar { bits: DEFAULT_GRID_SPACING_BITS },
        }
    }
}

impl AiConfig {
    /// AI features on, with a remote service that is not configured yet.
    pub open spec fn is_default(&self) -> bool {
        &&& self.enabled
        &&& self.service_url is None
        &&& self.api_key is None
        &&& !self.use_local
        &&& self.local_model_path is None
    }

    /// The API key to use: the one from the environment, if there is one,
    /// and the configured one otherwise.
    pub open spec fn spec_api_key(&self, from_environment: Option<Seq<char>>) -> Option<Seq<char>> {
        match from_environment {
            Some(key) => Some(key),
            None => match self.api_key {
                Some(key) => Some(key@),
                None => None,
            },
        }
    }

    /// What to show in place of the API key in logs and debug output:
    /// that there is one, and never the key itself.
    pub fn redacted_api_key(&self) -> (shown: Option<&'static str>)
        ensures
            shown is Some <==> self.api_key is Some,
            shown is Some ==> shown->Some_0@ == "[REDACTED]"@,
    {
        match &self.api_key {
            Some(_) => Some("[REDACTED]"),
            None => None,
        }
    }

    /// Get API key from config or environment variable (env var takes
    /// precedence).
    ///
    /// `from_environment` is the key that the environment holds, if any.
    pub fn get_api_key(&self, from_environment: Option<String>) -> (key: Option<String>)
        ensures
            match key {
                Some(key) => self.spec_api_key(
                    match from_environment {
                        Some(key) => Some(key@),
                        None => None,
                    },
                ) == Some(key@),
                None => from_environment is None && self.api_key is None,
            },
    {
        match from_environment {
            Some(key) => Some(key),
            None => match &self.api_key {
                Some(key) => Some(key.clone()),
                None => None,
            },
        }
    }
}

impl Config {
    /// Whether every part of the configuration is the default.
    pub open spec fn is_default(&self) -> bool {
        &&& self.general.is_default()
        &&& self.canvas == CanvasConfig::spec_default()
        &&& self.ai.is_default()
        &&& self.theme.is_default()
        &&& keybinding_views(self.keybindings@) == default_keybindings()
    }

    /// Whether a config file of `len` bytes is small enough to be parsed.
    pub open spec fn size_outcome(len: nat) -> Result<(), ConfigErrorView> {
        if len > MAX_CONFIG_SIZE {
            Err(ConfigErrorView::SecurityViolation("Config file exceeds maximum size of 1MB"@))
        } else {
            Ok(())
        }
    }

    /// Refuses the content of a config file that is larger than
    /// [`MAX_CONFIG_SIZE`], before it is parsed.
    pub fn check_size(content: &str) -> (outcome: Result<(), ConfigError>)
        ensures
            match outcome {
                Ok(()) => Self::size_outcome(content.spec_bytes().len()) is Ok,
                Err(e) => Self::size_outcome(content.spec_bytes().len()) == Err::<
                    (),
                    ConfigErrorView,
                >(e@),
            },
    {
        // Limit config file size to prevent DoS (1MB max)
        if content.as_bytes().len() > MAX_CONFIG_SIZE {
            return Err(
                ConfigError::SecurityViolation(
                    "Config file exceeds maximum size of 1MB".to_owned(),
                ),
            );
        }
        Ok(())
    }
}

impl Default for Config {
    fn default() -> (config: Config)
        ensures
            config.is_default(),
    {
        Config {
            general: GeneralConfig::default(),
            canvas: CanvasConfig::default(),
            ai: AiConfig::default(),
            theme: Theme::default(),
            keybindings: Keybinding::defaults(),
        }
    }
}

impl Default for GeneralConfig {
    fn default() -> (config: GeneralConfig)
        ensures
            config.is_default(),
    {
        GeneralConfig { debug: false, terminal: default_terminal(), launcher: None }
    }
}

impl Default for CanvasConfig {
    fn default() -> (config: CanvasConfig)
        ensures
            config == CanvasConfig::spec_default(),
    {
        CanvasConfig {
            initial_zoom: default_zoom(),
            zoom_sensitivity: default_zoom_sensitivity(),
            pan_sensitivity: default_pan_sensitivity(),
            show_grid: true,
            grid_spacing: default_grid_spacing(),
        }
    }
}

impl Default for AiConfig {
    fn default() -> (config: AiConfig)
        ensures
            config.is_default(),
    {
        AiConfig {
            enabled: true,
            service_url: None,
            api_key: None,
            use_local: false,
            local_model_path: None,
        }
    }
}

pub fn default_terminal() -> (terminal: String)
    ensures
        terminal@ == "foot"@,
{
    "foot".to_owned()
}

pub fn default_zoom() -> (zoom: Scalar)
    ensures
        zoom.bits == DEFAULT_ZOOM_BITS,
{
    Scalar { bits: DEFAULT_ZOOM_BITS }
}

pub fn default_zoom_sensitivity() -> (sensitivity: Scalar)
    ensures
        sensitivity.bits == DEFAULT_ZOOM_SENSITIVITY_BITS,
{
    Scalar { bits: DEFAULT_ZOOM_SENSITIVITY_BITS }
}

pub fn default_pan_sensitivity() -> (sensitivity: Scalar)
    ensures
        sensitivity.bits == DEFAULT_PAN_SENSITIVITY_BITS,
{
    Scalar { bits: DEFAULT_PAN_SENSITIVITY_BITS }
}

pub fn default_grid_spacing() -> (spacing: Scalar)
    ensures
        spacing.bits == DEFAULT_GRID_SPACING_BITS,
{
    Scalar { bits: DEFAULT_GRID_SPACING_BITS }
}

pub fn default_true() -> (r: bool)
    ensures
        r,
{
    true
}

} // verus!
