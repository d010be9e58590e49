//! Security constants and resource limits.
//!
//! The limits keep a client from exhausting the compositor. All of them are
//! conservative defaults.

use vstd::prelude::*;
use vstd::std_specs::iter::IteratorSpec;
use vstd::string::StringSliceAdditionalSpecFns;

verus! {

broadcast use vstd::string::group_string_axioms;

/// Maximum number of simultaneous Wayland clients.
pub const MAX_CLIENTS: usize = 256;

/// Maximum number of surfaces per client.
pub const MAX_SURFACES_PER_CLIENT: usize = 100;

/// Maximum total surfaces across all clients.
pub const MAX_TOTAL_SURFACES: usize = 10_000;

/// Maximum buffer size in bytes (256 MB).
pub const MAX_BUFFER_SIZE: usize = 268_435_456;

/// Maximum buffer width (16K resolution).
pub const MAX_BUFFER_WIDTH: u32 = 16384;

/// Maximum buffer height (16K resolution).
pub const MAX_BUFFER_HEIGHT: u32 = 16384;

/// Maximum pending Wayland messages per client before throttling.
pub const MAX_PENDING_MESSAGES: usize = 1000;

/// Maximum clipboard size in bytes (16 MB).
pub const MAX_CLIPBOARD_SIZE: usize = 16_777_216;

/// Maximum number of keyboard shortcuts.
pub const MAX_KEYBINDINGS: usize = 500;

/// Maximum window title length in bytes.
pub const MAX_TITLE_LENGTH: usize = 4096;

/// Maximum app ID length in bytes.
pub const MAX_APP_ID_LENGTH: usize = 512;

/// A buffer is within the limits when neither side is too long and all of
/// its pixels together are not too many bytes.
pub open spec fn spec_is_valid_buffer_size(width: u32, height: u32, bytes_per_pixel: u32) -> bool {
    &&& width <= MAX_BUFFER_WIDTH
    &&& height <= MAX_BUFFER_HEIGHT
    &&& width * height * bytes_per_pixel <= MAX_BUFFER_SIZE
}

/// Validate that a buffer size is within security limits.
#[verifier::when_used_as_spec(spec_is_valid_buffer_size)]
pub fn is_valid_buffer_size(width: u32, height: u32, bytes_per_pixel: u32) -> (r: bool)
    ensures
        r == spec_is_valid_buffer_size(width, height, bytes_per_pixel),
{
    if width > MAX_BUFFER_WIDTH || height > MAX_BUFFER_HEIGHT {
        return false;
    }
    assert(width * height <= 16384 * 16384) by (nonlinear_arith)
        requires
            width <= 16384,
            height <= 16384,
    ;
    let pixels: u64 = width as u64 * height as u64;
    assert(pixels * bytes_per_pixel <= 0x1000_0000 * 0xFFFF_FFFF) by (nonlinear_arith)
        requires
            pixels <= 0x1000_0000,
            bytes_per_pixel <= 0xFFFF_FFFF,
    ;
    pixels * bytes_per_pixel as u64 <= MAX_BUFFER_SIZE as u64
}

/// A title is valid when it is at most [`MAX_TITLE_LENGTH`] bytes long.
pub open spec fn spec_is_valid_title(title: &str) -> bool {
    title.spec_bytes().len() <= MAX_TITLE_LENGTH
}

/// Validate string length for titles and identifiers.
#[verifier::when_used_as_spec(spec_is_valid_title)]
pub fn is_valid_title(title: &str) -> (r: bool)
    ensures
        r == spec_is_valid_title(title),
{
    title.as_bytes().len() <= MAX_TITLE_LENGTH
}

/// A printable ASCII character, the space included: `' '` to `'~'`.
pub open spec fn is_printable_ascii(c: char) -> bool {
    ' ' <= c <= '~'
}

/// An app ID is valid when it is at most [`MAX_APP_ID_LENGTH`] bytes long
/// and holds printable ASCII characters only.
pub open spec fn spec_is_valid_app_id(app_id: &str) -> bool {
    &&& app_id.spec_bytes().len() <= MAX_APP_ID_LENGTH
    &&& forall|i: int| 0 <= i < app_id@.len() ==> is_printable_ascii(#[trigger] app_id@[i])
}

/// Validate app ID length and characters.
#[verifier::when_used_as_spec(spec_is_valid_app_id)]
pub fn is_valid_app_id(app_id: &str) -> (r: bool)
    ensures
        r == spec_is_valid_app_id(app_id),
{
    if app_id.as_bytes().len() > MAX_APP_ID_LENGTH {
        return false;
    }
    for c in it: app_id.chars()
        invariant
            it.seq() == app_id@,
            forall|i: int| 0 <= i < it.index() ==> is_printable_ascii(#[trigger] app_id@[i]),
    {
        if !(' ' <= c && c <= '~') {
            return false;
        }
    }
    true
}

} // verus!
