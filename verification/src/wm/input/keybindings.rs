//! Keybinding system for LoomWM.
//!
//! Handles compositor-level keyboard shortcuts that are processed before
//! being forwarded to clients.
//!
//! # Default Keybindings
//!
//! - `Logo+Q`: Quit the compositor
//! - `Ctrl+Alt+Backspace`: Quit the compositor (alternative)
//! - `Logo+W`: Close focused window
//! - `Alt+Tab`: Focus next window
//! - `Alt+Shift+Tab`: Focus previous window
//! - `Logo+F`: Toggle fullscreen

use crate::wm::input::keysyms;
use smallvec::SmallVec;
use vstd::prelude::*;

verus! {

/// Actions that can be triggered by keybindings.
#[derive(Debug, Clone, Copy, PartialEq, Eq, Structural)]
pub enum KeyAction {
    /// Do nothing (used for suppressed key releases).
    NoAction,
    /// Quit the compositor.
    Quit,
    /// Close the currently focused window.
    CloseFocused,
    /// Focus the next window.
    FocusNext,
    /// Focus the previous window.
    FocusPrev,
    /// Toggle fullscreen for focused window.
    ToggleFullscreen,
}

/// The modifier keys that are held down, as far as keybindings look at
/// them.
#[derive(Debug, Clone, Copy, PartialEq, Eq, Structural)]
pub struct ModifiersState {
    /// The "control" key.
    pub ctrl: bool,
    /// The "alt" key.
    pub alt: bool,
    /// The "shift" key.
    pub shift: bool,
    /// The "logo" key, also known as the "windows" or "super" key.
    pub logo: bool,
}

impl ModifiersState {
    /// No modifier.
    pub open spec fn spec_default() -> ModifiersState {
        ModifiersState { ctrl: false, alt: false, shift: false, logo: false }
    }
}

impl Default for ModifiersState {
    /// No modifier.
    fn default() -> (modifiers: ModifiersState)
        ensures
            modifiers == ModifiersState::spec_default(),
    {
        ModifiersState { ctrl: false, alt: false, shift: false, logo: false }
    }
}

/// A single keybinding pattern.
#[derive(Debug, Clone, Copy, PartialEq, Eq, Structural)]
pub struct KeyPattern {
    /// Required modifiers.
    pub modifiers: ModifiersState,
    /// The keysym to match.
    pub keysym: u32,
    /// Action to execute.
    pub action: KeyAction,
}

impl KeyPattern {
    /// The required modifiers are all held down; further modifiers do not
    /// matter.
    pub open spec fn spec_modifiers_match(&self, modifiers: ModifiersState) -> bool {
        &&& self.modifiers.ctrl ==> modifiers.ctrl
        &&& self.modifiers.alt ==> modifiers.alt
        &&& self.modifiers.shift ==> modifiers.shift
        &&& self.modifiers.logo ==> modifiers.logo
    }

    /// The keysym is the pattern's and the required modifiers are held
    /// down.
    pub open spec fn spec_matches(&self, keysym: u32, modifiers: ModifiersState) -> bool {
        self.keysym == keysym && self.spec_modifiers_match(modifiers)
    }

    /// Create a new key pattern.
    pub fn new(keysym: u32, modifiers: ModifiersState, action: KeyAction) -> (pattern: KeyPattern)
        ensures
            pattern == (KeyPattern { modifiers, keysym, action }),
    {
        KeyPattern { modifiers, keysym, action }
    }

    /// Check if this pattern matches the given keysym and modifiers.
    #[verifier::when_used_as_spec(spec_matches)]
    pub fn matches(&self, keysym: u32, modifiers: ModifiersState) -> (r: bool)
        ensures
            r == self.spec_matches(keysym, modifiers),
    {
        self.keysym == keysym && self.modifiers_match(modifiers)
    }

    /// Check if the modifiers match (allowing extra modifiers).
    #[verifier::when_used_as_spec(spec_modifiers_match)]
    fn modifiers_match(&self, modifiers: ModifiersState) -> (r: bool)
        ensures
            r == self.spec_modifiers_match(modifiers),
    {
        (!self.modifiers.ctrl || modifiers.ctrl) && (!self.modifiers.alt || modifiers.alt) && (
        !self.modifiers.shift || modifiers.shift) && (!self.modifiers.logo || modifiers.logo)
    }
}

/// A list of key patterns in a `SmallVec` of the `smallvec` crate, which
/// keeps up to sixteen of them without heap allocation.
#[verifier::external_body]
pub struct PatternList {
    items: SmallVec<[KeyPattern; 16]>,
}

/// The patterns that a list holds, first to last.
pub uninterp spec fn patterns_of(bindings: PatternList) -> Seq<KeyPattern>;

/// `SmallVec::new` of the `smallvec` crate: a vector that holds nothing.
#[verifier::external_body]
fn bindings_new() -> (bindings: PatternList)
    ensures
        patterns_of(bindings) == Seq::<KeyPattern>::empty(),
{
    PatternList { items: SmallVec::new() }
}

/// `SmallVec::push` of the `smallvec` crate: the item is appended after all
/// others, which stay as they are.
#[verifier::external_body]
fn bindings_push(bindings: &mut PatternList, pattern: KeyPattern)
    ensures
        patterns_of(*final(bindings)) == patterns_of(*old(bindings)).push(pattern),
{
    bindings.items.push(pattern)
}

/// `SmallVec::clear` of the `smallvec` crate: every item is removed.
#[verifier::external_body]
fn bindings_clear(bindings: &mut PatternList)
    ensures
        patterns_of(*final(bindings)) == Seq::<KeyPattern>::empty(),
{
    bindings.items.clear()
}

/// `SmallVec::len` of the `smallvec` crate: the number of items stored.
#[verifier::external_body]
fn bindings_len(bindings: &PatternList) -> (len: usize)
    ensures
        len == patterns_of(*bindings).len(),
{
    bindings.items.len()
}

/// `SmallVec::as_slice` of the `smallvec` crate: the items as a slice, in
/// their order.
#[verifier::external_body]
fn bindings_as_slice(bindings: &PatternList) -> (patterns: &[KeyPattern])
    ensures
        patterns@ == patterns_of(*bindings),
{
    bindings.items.as_slice()
}

/// Whether `patterns[i]` is the first pattern that matches.
pub open spec fn is_first_match(
    patterns: Seq<KeyPattern>,
    i: int,
    keysym: u32,
    modifiers: ModifiersState,
) -> bool {
    &&& 0 <= i < patterns.len()
    &&& patterns[i].matches(keysym, modifiers)
    &&& forall|j: int| 0 <= j < i ==> !(#[trigger] patterns[j]).matches(keysym, modifiers)
}

/// The bindings of a fresh [`Keybindings`], in the order in which they are
/// tried.
pub open spec fn default_patterns() -> Seq<KeyPattern> {
    seq![
        KeyPattern {
            keysym: keysyms::KEY_q,
            modifiers: ModifiersState { logo: true, ..ModifiersState::spec_default() },
            action: KeyAction::Quit,
        },
        KeyPattern {
            keysym: keysyms::KEY_BackSpace,
            modifiers: ModifiersState { ctrl: true, alt: true, ..ModifiersState::spec_default() },
            action: KeyAction::Quit,
        },
        KeyPattern {
            keysym: keysyms::KEY_w,
            modifiers: ModifiersState { logo: true, ..ModifiersState::spec_default() },
            action: KeyAction::CloseFocused,
        },
        KeyPattern {
            keysym: keysyms::KEY_Tab,
            modifiers: ModifiersState { alt: true, ..ModifiersState::spec_default() },
            action: KeyAction::FocusNext,
        },
        KeyPattern {
            keysym: keysyms::KEY_Tab,
            modifiers: ModifiersState { alt: true, shift: true, ..ModifiersState::spec_default() },
            action: KeyAction::FocusPrev,
        },
        KeyPattern {
            keysym: keysyms::KEY_f,
            modifiers: ModifiersState { logo: true, ..ModifiersState::spec_default() },
            action: KeyAction::ToggleFullscreen,
        },
    ]
}

/// Keybindings manager.
///
/// Stores and processes keybindings for the compositor. Up to sixteen
/// bindings are held without heap allocation.
pub struct Keybindings {
    /// List of keybindings.
    bindings: PatternList,
}

impl View for Keybindings {
    type V = Seq<KeyPattern>;

    closed spec fn view(&self) -> Seq<KeyPattern> {
        patterns_of(self.bindings)
    }
}

impl Keybindings {
    /// Create a new keybindings manager with default bindings.
    pub fn new() -> (bindings: Keybindings)
        ensures
            bindings@ == default_patterns(),
    {
        let mut bindings = bindings_new();
        let none = ModifiersState { ctrl: false, alt: false, shift: false, logo: false };
        // Logo+Q: Quit
        bindings_push(
            &mut bindings,
            KeyPattern::new(
                keysyms::KEY_q,
                ModifiersState { logo: true, ..none },
                KeyAction::Quit,
            ),
        );
        // Ctrl+Alt+Backspace: Quit (emergency exit)
        bindings_push(
            &mut bindings,
            KeyPattern::new(
                keysyms::KEY_BackSpace,
                ModifiersState { ctrl: true, alt: true, ..none },
                KeyAction::Quit,
            ),
        );
        // Logo+W: Close focused window
        bindings_push(
            &mut bindings,
            KeyPattern::new(
                keysyms::KEY_w,
                ModifiersState { logo: true, ..none },
                KeyAction::CloseFocused,
            ),
        );
        // Alt+Tab: Focus next
        bindings_push(
            &mut bindings,
            KeyPattern::new(
                keysyms::KEY_Tab,
                ModifiersState { alt: true, ..none },
                KeyAction::FocusNext,
            ),
        );
        // Alt+Shift+Tab: Focus previous
        bindings_push(
            &mut bindings,
            KeyPattern::new(
                keysyms::KEY_Tab,
                ModifiersState { alt: true, shift: true, ..none },
                KeyAction::FocusPrev,
            ),
        );
        // Logo+F: Toggle fullscreen
        bindings_push(
            &mut bindings,
            KeyPattern::new(
                keysyms::KEY_f,
                ModifiersState { logo: true, ..none },
                KeyAction::ToggleFullscreen,
            ),
        );
        assert(patterns_of(bindings) =~= default_patterns());
        Keybindings { bindings }
    }

    /// Process a key press and return an action if a keybinding matches.
    ///
    /// The bindings are tried in the order in which they were added, and
    /// the first that matches decides. Returns `Some(action)` if a
    /// keybinding was matched, `None` otherwise.
    pub fn process(&self, keysym: u32, modifiers: ModifiersState) -> (action: Option<KeyAction>)
        ensures
            match action {
                Some(action) => exists|i: int| #[trigger]
                    is_first_match(self@, i, keysym, modifiers) && action == self@[i].action,
                None => forall|i: int|
                    0 <= i < self@.len() ==> !(#[trigger] self@[i]).matches(keysym, modifiers),
            },
    {
        let patterns = bindings_as_slice(&self.bindings);
        let mut i: usize = 0;
        while i < patterns.len()
            invariant
                patterns@ == self@,
                i <= patterns.len(),
                forall|j: int| 0 <= j < i ==> !(#[trigger] self@[j]).matches(keysym, modifiers),
            decreases patterns.len() - i,
        {
            if patterns[i].matches(keysym, modifiers) {
                assert(is_first_match(self@, i as int, keysym, modifiers));
                return Some(patterns[i].action);
            }
            i += 1;
        }
        None
    }

    /// Add a custom keybinding, to be tried after all others.
    pub fn add(&mut self, keysym: u32, modifiers: ModifiersState, action: KeyAction)
        ensures
            final(self)@ == old(self)@.push(KeyPattern { modifiers, keysym, action }),
    {
        bindings_push(&mut self.bindings, KeyPattern::new(keysym, modifiers, action));
    }

    /// Clear all keybindings.
    pub fn clear(&mut self)
        ensures
            final(self)@ == Seq::<KeyPattern>::empty(),
    {
        bindings_clear(&mut self.bindings);
    }

    /// The number of keybindings.
    pub fn len(&self) -> (len: usize)
        ensures
            len == self@.len(),
    {
        bindings_len(&self.bindings)
    }
}

impl Default for Keybindings {
    fn default() -> (bindings: Keybindings)
        ensures
            bindings@ == default_patterns(),
    {
        Keybindings::new()
    }
}

/// The first binding that matches is the only one that counts: whatever is
/// added after it changes nothing for the keys it matches.
pub proof fn lemma_first_match_survives_add(
    patterns: Seq<KeyPattern>,
    added: KeyPattern,
    i: int,
    keysym: u32,
    modifiers: ModifiersState,
)
    requires
        is_first_match(patterns, i, keysym, modifiers),
    ensures
        is_first_match(patterns.push(added), i, keysym, modifiers),
{
}

} // verus!
