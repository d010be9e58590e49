//! Keybinding configuration.
//!
//! Security note: Command execution is restricted to prevent arbitrary code
//! execution. Only predefined actions and allowlisted applications are
//! permitted.

use crate::config::{ConfigError, ConfigErrorView};
use crate::text::{is_alphanumeric, occurs_in};
use vstd::prelude::*;
use vstd::std_specs::iter::IteratorSpec;

verus! {

broadcast use vstd::string::group_string_axioms;

/// A key combination and what it does.
#[derive(Debug, Clone)]
pub struct Keybinding {
    /// Key combination (e.g., "Super+Return", "Super+Shift+Q").
    pub key: String,
    /// Action to perform.
    pub action: KeybindingAction,
}

/// What a keybinding does.
#[allow(inconsistent_fields)]
#[derive(Debug, Clone)]
pub enum KeybindingAction {
    /// Open terminal (uses the configured terminal).
    Terminal,
    /// Open launcher/command palette (uses the configured launcher).
    Launcher,
    /// Close focused node.
    Close,
    /// Toggle fullscreen for focused node.
    Fullscreen,
    /// Pan the canvas.
    Pan { direction: Direction },
    /// Zoom in/out.
    Zoom { direction: ZoomDirection },
    /// Reset view to origin.
    ResetView,
    /// Open AI command input.
    AiPrompt,
    /// Launch a desktop application by its .desktop file name (safe).
    /// Example: "firefox", "org.gnome.Calculator".
    LaunchApp { app_id: String },
    /// Run a script from the scripts directory of the configuration
    /// (restricted).
    RunScript { script_name: String },
    /// Quit the compositor.
    Quit,
}

/// A direction to pan in.
#[derive(Debug, Clone, Copy, PartialEq, Eq, Structural)]
pub enum Direction {
    Up,
    Down,
    Left,
    Right,
}

/// A direction to zoom in.
#[derive(Debug, Clone, Copy, PartialEq, Eq, Structural)]
pub enum ZoomDirection {
    In,
    Out,
}

/// The mathematical value of a [`KeybindingAction`].
#[allow(inconsistent_fields)]
pub ghost enum KeybindingActionView {
    Terminal,
    Launcher,
    Close,
    Fullscreen,
    Pan { direction: Direction },
    Zoom { direction: ZoomDirection },
    ResetView,
    AiPrompt,
    LaunchApp { app_id: Seq<char> },
    RunScript { script_name: Seq<char> },
    Quit,
}

impl View for KeybindingAction {
    type V = KeybindingActionView;

    open spec fn view(&self) -> KeybindingActionView {
        match *self {
            KeybindingAction::Terminal => KeybindingActionView::Terminal,
            KeybindingAction::Launcher => KeybindingActionView::Launcher,
            KeybindingAction::Close => KeybindingActionView::Close,
            KeybindingAction::Fullscreen => KeybindingActionView::Fullscreen,
            KeybindingAction::Pan { direction } => KeybindingActionView::Pan { direction },
            KeybindingAction::Zoom { direction } => KeybindingActionView::Zoom { direction },
            KeybindingAction::ResetView => KeybindingActionView::ResetView,
            KeybindingAction::AiPrompt => KeybindingActionView::AiPrompt,
            KeybindingAction::LaunchApp { app_id } => KeybindingActionView::LaunchApp {
                app_id: app_id@,
            },
            KeybindingAction::RunScript { script_name } => KeybindingActionView::RunScript {
                script_name: script_name@,
            },
            KeybindingAction::Quit => KeybindingActionView::Quit,
        }
    }
}

/// The mathematical value of a [`Keybinding`].
pub ghost struct KeybindingView {
    pub key: Seq<char>,
    pub action: KeybindingActionView,
}

impl View for Keybinding {
    type V = KeybindingView;

    open spec fn view(&self) -> KeybindingView {
        KeybindingView { key: self.key@, action: self.action@ }
    }
}

/// The default keybindings, in their order.
pub open spec fn default_keybindings() -> Seq<KeybindingView> {
    seq![
        KeybindingView { key: "Super+Return"@, action: KeybindingActionView::Terminal },
        KeybindingView { key: "Super+D"@, action: KeybindingActionView::Launcher },
        KeybindingView { key: "Super+Q"@, action: KeybindingActionView::Close },
        KeybindingView { key: "Super+F"@, action: KeybindingActionView::Fullscreen },
        KeybindingView { key: "Super+Space"@, action: KeybindingActionView::AiPrompt },
        KeybindingView { key: "Super+0"@, action: KeybindingActionView::ResetView },
        KeybindingView {
            key: "Super+Plus"@,
            action: KeybindingActionView::Zoom { direction: ZoomDirection::In },
        },
        KeybindingView {
            key: "Super+Minus"@,
            action: KeybindingActionView::Zoom { direction: ZoomDirection::Out },
        },
        KeybindingView { key: "Super+Shift+Q"@, action: KeybindingActionView::Quit },
    ]
}

/// The values of a list of keybindings, in the order of the list.
pub open spec fn keybinding_views(bindings: Seq<Keybinding>) -> Seq<KeybindingView> {
    bindings.map_values(|binding: Keybinding| binding@)
}

impl Keybinding {
    pub fn new(key: &str, action: KeybindingAction) -> (binding: Keybinding)
        ensures
            binding@ == (KeybindingView { key: key@, action: action@ }),
    {
        Keybinding { key: key.to_owned(), action }
    }

    /// Default keybindings.
    pub fn defaults() -> (bindings: Vec<Keybinding>)
        ensures
            keybinding_views(bindings@) == default_keybindings(),
    {
        let mut bindings: Vec<Keybinding> = Vec::new();
        bindings.push(Keybinding::new("Super+Return", KeybindingAction::Terminal));
        bindings.push(Keybinding::new("Super+D", KeybindingAction::Launcher));
        bindings.push(Keybinding::new("Super+Q", KeybindingAction::Close));
        bindings.push(Keybinding::new("Super+F", KeybindingAction::Fullscreen));
        bindings.push(Keybinding::new("Super+Space", KeybindingAction::AiPrompt));
        bindings.push(Keybinding::new("Super+0", KeybindingAction::ResetView));
        bindings.push(
            Keybinding::new("Super+Plus", KeybindingAction::Zoom { direction: ZoomDirection::In }),
        );
        bindings.push(
            Keybinding::new(
                "Super+Minus",
                KeybindingAction::Zoom { direction: ZoomDirection::Out },
            ),
        );
        bindings.push(Keybinding::new("Super+Shift+Q", KeybindingAction::Quit));
        assert(keybinding_views(bindings@) =~= default_keybindings());
        bindings
    }
}

/// A character that may stand in a script name or an app ID: a letter, a
/// digit, an underscore, a hyphen or a dot.
pub open spec fn is_name_char(c: char) -> bool {
    is_alphanumeric(c) || c == '_' || c == '-' || c == '.'
}

/// Whether every character of the text may stand in a name.
pub open spec fn all_name_chars(text: Seq<char>) -> bool {
    forall|i: int| 0 <= i < text.len() ==> is_name_char(#[trigger] text[i])
}

/// Whether the text holds the character.
pub open spec fn has_char(text: Seq<char>, c: char) -> bool {
    exists|i: int| 0 <= i < text.len() && #[trigger] text[i] == c
}

/// A script name is valid when it is not empty, has no path separator and
/// no `..` in it, and is made of name characters.
pub open spec fn is_valid_script_name(name: Seq<char>) -> bool {
    &&& name.len() > 0
    &&& !has_char(name, '/')
    &&& !has_char(name, '\\')
    &&& !occurs_in(".."@, name)
    &&& all_name_chars(name)
}

/// An app ID is valid when it is not empty, has no path separator in it,
/// and is made of name characters.
pub open spec fn is_valid_app_id(app_id: Seq<char>) -> bool {
    &&& app_id.len() > 0
    &&& !has_char(app_id, '/')
    &&& !has_char(app_id, '\\')
    &&& all_name_chars(app_id)
}

/// What [`validate_script_name`] answers.
pub open spec fn script_name_outcome(name: Seq<char>) -> Result<(), ConfigErrorView> {
    if name.len() == 0 {
        Err(ConfigErrorView::SecurityViolation("Script name cannot be empty"@))
    } else if !is_valid_script_name(name) {
        Err(ConfigErrorView::SecurityViolation("Script name contains invalid characters"@))
    } else {
        Ok(())
    }
}

/// What [`validate_app_id`] answers.
pub open spec fn app_id_outcome(app_id: Seq<char>) -> Result<(), ConfigErrorView> {
    if app_id.len() == 0 {
        Err(ConfigErrorView::SecurityViolation("App ID cannot be empty"@))
    } else if !is_valid_app_id(app_id) {
        Err(ConfigErrorView::SecurityViolation("App ID contains invalid characters"@))
    } else {
        Ok(())
    }
}

/// Whether the text holds the character.
fn contains_char(text: &str, c: char) -> (r: bool)
    ensures
        r == has_char(text@, c),
{
    for found in it: text.chars()
        invariant
            it.seq() == text@,
            forall|i: int| 0 <= i < it.index() ==> text@[i] != c,
    {
        if found == c {
            assert(text@[it.index() as int] == c);
            return true;
        }
    }
    false
}

/// Whether every character of the text may stand in a name.
fn only_name_chars(text: &str) -> (r: bool)
    ensures
        r == all_name_chars(text@),
{
    for c in it: text.chars()
        invariant
            it.seq() == text@,
            forall|i: int| 0 <= i < it.index() ==> is_name_char(#[trigger] text@[i]),
    {
        if !(crate::text::char_is_alphanumeric(c) || c == '_' || c == '-' || c == '.') {
            assert(!is_name_char(text@[it.index() as int]));
            return false;
        }
    }
    true
}

/// Validate a script name (must be alphanumeric with underscores/hyphens,
/// no path separators).
pub fn validate_script_name(name: &str) -> (outcome: Result<(), ConfigError>)
    ensures
        outcome is Ok <==> is_valid_script_name(name@),
        match outcome {
            Ok(()) => script_name_outcome(name@) is Ok,
            Err(e) => script_name_outcome(name@) == Err::<(), ConfigErrorView>(e@),
        },
{
    // Must not be empty
    if name.is_empty() {
        return Err(ConfigError::SecurityViolation("Script name cannot be empty".to_owned()));
    }
    // Must not contain path separators or special characters
    if contains_char(name, '/') || contains_char(name, '\\') || crate::text::contains(name, "..") {
        return Err(
            ConfigError::SecurityViolation("Script name contains invalid characters".to_owned()),
        );
    }
    // Only allow alphanumeric, underscore, hyphen, and dot (for extension)
    if !only_name_chars(name) {
        return Err(
            ConfigError::SecurityViolation("Script name contains invalid characters".to_owned()),
        );
    }
    Ok(())
}

/// Validate an app_id (must be a valid desktop file identifier).
pub fn validate_app_id(app_id: &str) -> (outcome: Result<(), ConfigError>)
    ensures
        outcome is Ok <==> is_valid_app_id(app_id@),
        match outcome {
            Ok(()) => app_id_outcome(app_id@) is Ok,
            Err(e) => app_id_outcome(app_id@) == Err::<(), ConfigErrorView>(e@),
        },
{
    if app_id.is_empty() {
        return Err(ConfigError::SecurityViolation("App ID cannot be empty".to_owned()));
    }
    // Must not contain path separators
    if contains_char(app_id, '/') || contains_char(app_id, '\\') {
        return Err(ConfigError::SecurityViolation("App ID contains invalid characters".to_owned()));
    }
    // Only allow alphanumeric, dots, and hyphens (standard for desktop file names)
    if !only_name_chars(app_id) {
        return Err(ConfigError::SecurityViolation("App ID contains invalid characters".to_owned()));
    }
    Ok(())
}

/// Whether a file with the permission bits `mode` may be executed by
/// anyone.
pub fn is_executable(mode: u32) -> (r: bool)
    ensures
        r == (mode & 0o111 != 0),
{
    mode & 0o111 != 0
}

} // verus!
