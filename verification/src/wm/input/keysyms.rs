//! The X11 keysyms that the default keybindings name.
//!
//! The names and values are those of the X Window System protocol.

#![allow(non_upper_case_globals)]

use vstd::prelude::*;

verus! {

/// Back space, back char.
pub const KEY_BackSpace: u32 = 0xff08;

/// Tab.
pub const KEY_Tab: u32 = 0xff09;

/// Return, enter.
pub const KEY_Return: u32 = 0xff0d;

/// Latin small letter a.
pub const KEY_a: u32 = 0x0061;

/// Latin small letter f.
pub const KEY_f: u32 = 0x0066;

/// Latin small letter q.
pub const KEY_q: u32 = 0x0071;

/// Latin small letter w.
pub const KEY_w: u32 = 0x0077;

} // verus!
