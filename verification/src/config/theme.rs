//! Theme configuration for LoomWM.

use crate::scalar::Single;
use vstd::prelude::*;

verus! {

/// The bit pattern of the default border width, `2.0`.
pub const DEFAULT_BORDER_WIDTH_BITS: u32 = 0x4000_0000;

/// The bit pattern of the default corner radius, `8.0`.
pub const DEFAULT_CORNER_RADIUS_BITS: u32 = 0x4100_0000;

/// The bit pattern of the default font size, `14.0`.
pub const DEFAULT_FONT_SIZE_BITS: u32 = 0x4160_0000;

/// Colours, borders and fonts.
#[derive(Debug, Clone)]
pub struct Theme {
    /// Background color (hex).
    pub background: String,
    /// Grid color (hex).
    pub grid: String,
    /// Node border color.
    pub node_border: String,
    /// Node border color when focused.
    pub node_border_focused: String,
    /// Connection line color.
    pub connection: String,
    /// Text color.
    pub text: String,
    /// Accent color (for highlights, AI elements).
    pub accent: String,
    /// Node border width.
    pub border_width: Single,
    /// Node corner radius.
    pub corner_radius: Single,
    /// Font family.
    pub font_family: String,
    /// Font size.
    pub font_size: Single,
}

impl Theme {
    /// Whether the theme is the dark default theme.
    pub open spec fn is_default(&self) -> bool {
        &&& self.background@ == "#0a0a0f"@
        &&& self.grid@ == "#1a1a2e"@
        &&& self.node_border@ == "#2d2d44"@
        &&& self.node_border_focused@ == "#6366f1"@
        &&& self.connection@ == "#4f46e5"@
        &&& self.text@ == "#e2e8f0"@
        &&& self.accent@ == "#8b5cf6"@
        &&& self.border_width == (Single { bits: DEFAULT_BORDER_WIDTH_BITS })
        &&& self.corner_radius == (Single { bits: DEFAULT_CORNER_RADIUS_BITS })
        &&& self.font_family@ == "Inter"@
        &&& self.font_size == (Single { bits: DEFAULT_FONT_SIZE_BITS })
    }
}

impl Default for Theme {
    /// The dark default theme.
    fn default() -> (theme: Theme)
        ensures
            theme.is_default(),
    {
        Theme {
            background: default_background(),
            grid: default_grid(),
            node_border: default_node_border(),
            node_border_focused: default_node_border_focused(),
            connection: default_connection(),
            text: default_text(),
            accent: default_accent(),
            border_width: default_border_width(),
            corner_radius: default_corner_radius(),
            font_family: default_font(),
            font_size: default_font_size(),
        }
    }
}

// Dark theme defaults (modern, minimal)
pub fn default_background() -> (color: String)
    ensures
        color@ == "#0a0a0f"@,
{
    "#0a0a0f".to_owned()
}

pub fn default_grid() -> (color: String)
    ensures
        color@ == "#1a1a2e"@,
{
    "#1a1a2e".to_owned()
}

pub fn default_node_border() -> (color: String)
    ensures
        color@ == "#2d2d44"@,
{
    "#2d2d44".to_owned()
}

/// Indigo accent.
pub fn default_node_border_focused() -> (color: String)
    ensures
        color@ == "#6366f1"@,
{
    "#6366f1".to_owned()
}

pub fn default_connection() -> (color: String)
    ensures
        color@ == "#4f46e5"@,
{
    "#4f46e5".to_owned()
}

pub fn default_text() -> (color: String)
    ensures
        color@ == "#e2e8f0"@,
{
    "#e2e8f0".to_owned()
}

/// Purple for AI elements.
pub fn default_accent() -> (color: String)
    ensures
        color@ == "#8b5cf6"@,
{
    "#8b5cf6".to_owned()
}

pub fn default_border_width() -> (width: Single)
    ensures
        width.bits == DEFAULT_BORDER_WIDTH_BITS,
{
    Single { bits: DEFAULT_BORDER_WIDTH_BITS }
}

pub fn default_corner_radius() -> (radius: Single)
    ensures
        radius.bits == DEFAULT_CORNER_RADIUS_BITS,
{
    Single { bits: DEFAULT_CORNER_RADIUS_BITS }
}

pub fn default_font() -> (family: String)
    ensures
        family@ == "Inter"@,
{
    "Inter".to_owned()
}

pub fn default_font_size() -> (size: Single)
    ensures
        size.bits == DEFAULT_FONT_SIZE_BITS,
{
    Single { bits: DEFAULT_FONT_SIZE_BITS }
}

} // verus!
