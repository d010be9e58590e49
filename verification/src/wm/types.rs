//! Plain data types of the compositor: state flags, coordinates and
//! rectangles.

use vstd::prelude::*;
use vstd::std_specs::ops::{BitOrSpec, BitOrSpecImpl};

verus! {

/// Window state flags, packed into a single byte.
#[derive(Debug, Clone, Copy, PartialEq, Eq, Hash, Structural)]
pub struct WindowFlags {
    bits: u8,
}

impl WindowFlags {
    /// Window is currently visible.
    pub const VISIBLE: u8 = 0b0000_0001;

    /// Window is maximized.
    pub const MAXIMIZED: u8 = 0b0000_0010;

    /// Window is fullscreen.
    pub const FULLSCREEN: u8 = 0b0000_0100;

    /// Window is minimized.
    pub const MINIMIZED: u8 = 0b0000_1000;

    /// Window has keyboard focus.
    pub const FOCUSED: u8 = 0b0001_0000;

    /// Window is being resized.
    pub const RESIZING: u8 = 0b0010_0000;

    /// Window is being moved.
    pub const MOVING: u8 = 0b0100_0000;

    /// Window requested attention.
    pub const URGENT: u8 = 0b1000_0000;

    /// The flags as a byte, one bit per flag.
    pub closed spec fn spec_bits(self) -> u8 {
        self.bits
    }

    /// Whether every flag of `other` is set.
    pub open spec fn spec_contains(self, other: WindowFlags) -> bool {
        self.bits() & other.bits() == other.bits()
    }

    /// The flags as a byte, one bit per flag.
    #[verifier::when_used_as_spec(spec_bits)]
    pub fn bits(self) -> (bits: u8)
        ensures
            bits == self.spec_bits(),
    {
        self.bits
    }

    /// The flags that are set in `bits`. Every bit is a flag.
    pub fn from_bits(bits: u8) -> (flags: WindowFlags)
        ensures
            flags.bits() == bits,
    {
        WindowFlags { bits }
    }

    /// No flag.
    pub fn empty() -> (flags: WindowFlags)
        ensures
            flags.bits() == 0,
    {
        WindowFlags { bits: 0 }
    }

    /// Every flag.
    pub fn all() -> (flags: WindowFlags)
        ensures
            flags.bits() == 0xFF,
    {
        WindowFlags { bits: 0xFF }
    }

    /// The window is visible, and nothing else.
    pub fn visible() -> (flags: WindowFlags)
        ensures
            flags.bits() == WindowFlags::VISIBLE,
    {
        WindowFlags { bits: WindowFlags::VISIBLE }
    }

    /// The window is maximized, and nothing else.
    pub fn maximized() -> (flags: WindowFlags)
        ensures
            flags.bits() == WindowFlags::MAXIMIZED,
    {
        WindowFlags { bits: WindowFlags::MAXIMIZED }
    }

    /// The window is fullscreen, and nothing else.
    pub fn fullscreen() -> (flags: WindowFlags)
        ensures
            flags.bits() == WindowFlags::FULLSCREEN,
    {
        WindowFlags { bits: WindowFlags::FULLSCREEN }
    }

    /// The window is minimized, and nothing else.
    pub fn minimized() -> (flags: WindowFlags)
        ensures
            flags.bits() == WindowFlags::MINIMIZED,
    {
        WindowFlags { bits: WindowFlags::MINIMIZED }
    }

    /// The window has keyboard focus, and nothing else.
    pub fn focused() -> (flags: WindowFlags)
        ensures
            flags.bits() == WindowFlags::FOCUSED,
    {
        WindowFlags { bits: WindowFlags::FOCUSED }
    }

    /// The window is being resized, and nothing else.
    pub fn resizing() -> (flags: WindowFlags)
        ensures
            flags.bits() == WindowFlags::RESIZING,
    {
        WindowFlags { bits: WindowFlags::RESIZING }
    }

    /// The window is being moved, and nothing else.
    pub fn moving() -> (flags: WindowFlags)
        ensures
            flags.bits() == WindowFlags::MOVING,
    {
        WindowFlags { bits: WindowFlags::MOVING }
    }

    /// The window requested attention, and nothing else.
    pub fn urgent() -> (flags: WindowFlags)
        ensures
            flags.bits() == WindowFlags::URGENT,
    {
        WindowFlags { bits: WindowFlags::URGENT }
    }

    /// Whether no flag is set.
    pub fn is_empty(self) -> (r: bool)
        ensures
            r == (self.bits() == 0),
    {
        self.bits == 0
    }

    /// Whether every flag of `other` is set.
    #[verifier::when_used_as_spec(spec_contains)]
    pub fn contains(self, other: WindowFlags) -> (r: bool)
        ensures
            r == self.spec_contains(other),
    {
        self.bits & other.bits == other.bits
    }

    /// Sets the flags of `other`.
    pub fn insert(&mut self, other: WindowFlags)
        ensures
            final(self).bits() == old(self).bits() | other.bits(),
    {
        self.bits = self.bits | other.bits;
    }

    /// Clears the flags of `other`.
    pub fn remove(&mut self, other: WindowFlags)
        ensures
            final(self).bits() == old(self).bits() & !other.bits(),
    {
        self.bits = self.bits & !other.bits;
    }
}

impl std::ops::BitOr for WindowFlags {
    type Output = WindowFlags;

    /// The flags of either side.
    fn bitor(self, other: WindowFlags) -> (flags: WindowFlags) {
        WindowFlags { bits: self.bits | other.bits }
    }
}

impl BitOrSpecImpl for WindowFlags {
    open spec fn obeys_bitor_spec() -> bool {
        true
    }

    open spec fn bitor_req(self, other: WindowFlags) -> bool {
        true
    }

    closed spec fn bitor_spec(self, other: WindowFlags) -> WindowFlags {
        WindowFlags { bits: self.bits | other.bits }
    }
}

impl Default for WindowFlags {
    /// No flag.
    fn default() -> (flags: WindowFlags)
        ensures
            flags.bits() == 0,
    {
        WindowFlags { bits: 0 }
    }
}

/// What `|` gives: the flags of either side.
pub proof fn lemma_window_flags_union(a: WindowFlags, b: WindowFlags)
    ensures
        <WindowFlags as BitOrSpec>::bitor_spec(a, b).bits() == a.bits() | b.bits(),
{
}

/// Flags that were inserted are contained, flags that were removed are not
/// unless they are no flags at all, and a union contains both of its sides.
pub proof fn lemma_window_flags_laws(flags: u8, other: u8)
    ensures
        (flags | other) & other == other,
        (flags | other) & flags == flags,
        other != 0 ==> (flags & !other) & other != other,
        (flags & !other) & other == 0,
        flags & 0 == 0,
{
    assert((flags | other) & other == other) by (bit_vector);
    assert((flags | other) & flags == flags) by (bit_vector);
    assert((flags & !other) & other == 0) by (bit_vector);
    assert(flags & 0 == 0) by (bit_vector);
}

/// Surface state flags.
#[derive(Debug, Clone, Copy, PartialEq, Eq, Hash, Structural)]
pub struct SurfaceFlags {
    bits: u8,
}

impl SurfaceFlags {
    /// Surface has pending damage.
    pub const DAMAGED: u8 = 0b0000_0001;

    /// Surface has a committed buffer.
    pub const HAS_BUFFER: u8 = 0b0000_0010;

    /// Surface is opaque (no alpha blending needed).
    pub const OPAQUE: u8 = 0b0000_0100;

    /// Surface uses input region.
    pub const INPUT_REGION: u8 = 0b0000_1000;

    /// All four flags.
    pub const ALL: u8 = 0b0000_1111;

    /// The flags as a byte, one bit per flag.
    pub closed spec fn spec_bits(self) -> u8 {
        self.bits
    }

    /// Whether every flag of `other` is set.
    pub open spec fn spec_contains(self, other: SurfaceFlags) -> bool {
        self.bits() & other.bits() == other.bits()
    }

    /// The flags as a byte, one bit per flag.
    #[verifier::when_used_as_spec(spec_bits)]
    pub fn bits(self) -> (bits: u8)
        ensures
            bits == self.spec_bits(),
    {
        self.bits
    }

    /// The flags that are set in `bits`; bits that are no flag are dropped.
    pub fn from_bits_truncate(bits: u8) -> (flags: SurfaceFlags)
        ensures
            flags.bits() == bits & SurfaceFlags::ALL,
    {
        SurfaceFlags { bits: bits & SurfaceFlags::ALL }
    }

    /// No flag.
    pub fn empty() -> (flags: SurfaceFlags)
        ensures
            flags.bits() == 0,
    {
        SurfaceFlags { bits: 0 }
    }

    /// Whether every flag of `other` is set.
    #[verifier::when_used_as_spec(spec_contains)]
    pub fn contains(self, other: SurfaceFlags) -> (r: bool)
        ensures
            r == self.spec_contains(other),
    {
        self.bits & other.bits == other.bits
    }

    /// Sets the flags of `other`.
    pub fn insert(&mut self, other: SurfaceFlags)
        ensures
            final(self).bits() == old(self).bits() | other.bits(),
    {
        self.bits = self.bits | other.bits;
    }

    /// Clears the flags of `other`.
    pub fn remove(&mut self, other: SurfaceFlags)
        ensures
            final(self).bits() == old(self).bits() & !other.bits(),
    {
        self.bits = self.bits & !other.bits;
    }
}

impl Default for SurfaceFlags {
    /// No flag.
    fn default() -> (flags: SurfaceFlags)
        ensures
            flags.bits() == 0,
    {
        SurfaceFlags { bits: 0 }
    }
}

/// Logical coordinates (DPI-independent).
#[derive(Debug, Clone, Copy, PartialEq, Eq, Structural)]
pub struct LogicalPoint {
    pub x: i32,
    pub y: i32,
}

impl LogicalPoint {
    pub fn new(x: i32, y: i32) -> (point: LogicalPoint)
        ensures
            point == (LogicalPoint { x, y }),
    {
        LogicalPoint { x, y }
    }
}

impl Default for LogicalPoint {
    /// The origin.
    fn default() -> (point: LogicalPoint)
        ensures
            point == (LogicalPoint { x: 0, y: 0 }),
    {
        LogicalPoint { x: 0, y: 0 }
    }
}

/// Logical size (DPI-independent).
#[derive(Debug, Clone, Copy, PartialEq, Eq, Structural)]
pub struct LogicalSize {
    pub width: u32,
    pub height: u32,
}

impl LogicalSize {
    pub fn new(width: u32, height: u32) -> (size: LogicalSize)
        ensures
            size == (LogicalSize { width, height }),
    {
        LogicalSize { width, height }
    }

    /// Width times height.
    pub fn area(&self) -> (area: u64)
        ensures
            area == self.width * self.height,
    {
        assert(self.width * self.height <= 0xFFFF_FFFF * 0xFFFF_FFFF) by (nonlinear_arith)
            requires
                self.width <= 0xFFFF_FFFF,
                self.height <= 0xFFFF_FFFF,
        ;
        self.width as u64 * self.height as u64
    }
}

impl Default for LogicalSize {
    /// The empty size.
    fn default() -> (size: LogicalSize)
        ensures
            size == (LogicalSize { width: 0, height: 0 }),
    {
        LogicalSize { width: 0, height: 0 }
    }
}

/// Physical coordinates (actual pixels).
#[derive(Debug, Clone, Copy, PartialEq, Eq, Structural)]
pub struct PhysicalPoint {
    pub x: i32,
    pub y: i32,
}

impl Default for PhysicalPoint {
    /// The origin.
    fn default() -> (point: PhysicalPoint)
        ensures
            point == (PhysicalPoint { x: 0, y: 0 }),
    {
        PhysicalPoint { x: 0, y: 0 }
    }
}

/// Physical size (actual pixels).
#[derive(Debug, Clone, Copy, PartialEq, Eq, Structural)]
pub struct PhysicalSize {
    pub width: u32,
    pub height: u32,
}

impl Default for PhysicalSize {
    /// The empty size.
    fn default() -> (size: PhysicalSize)
        ensures
            size == (PhysicalSize { width: 0, height: 0 }),
    {
        PhysicalSize { width: 0, height: 0 }
    }
}

/// An unsigned 32-bit extent read as a signed one: an extent above
/// `i32::MAX` counts as negative, as in two's complement.
pub open spec fn signed_extent(extent: u32) -> int {
    if extent <= i32::MAX {
        extent as int
    } else {
        extent - 0x1_0000_0000
    }
}

/// The edge that lies `extent` from `start`, held within the range of `i32`.
pub open spec fn far_edge(start: i32, extent: u32) -> int {
    let edge = start + signed_extent(extent);
    if edge > i32::MAX {
        i32::MAX as int
    } else if edge < i32::MIN {
        i32::MIN as int
    } else {
        edge
    }
}

/// The distance from `near` to `far` as an unsigned 32-bit extent, wrapping
/// around where it is negative or too large.
pub open spec fn wrapped_extent(near: int, far: int) -> u32 {
    ((far - near) % 0x1_0000_0000) as u32
}

pub open spec fn min_int(a: int, b: int) -> int {
    if a <= b {
        a
    } else {
        b
    }
}

pub open spec fn max_int(a: int, b: int) -> int {
    if a >= b {
        a
    } else {
        b
    }
}

fn edge(start: i32, extent: u32) -> (r: i32)
    ensures
        r == far_edge(start, extent),
{
    let signed: i64 = if extent <= 0x7FFF_FFFF {
        extent as i64
    } else {
        extent as i64 - 0x1_0000_0000
    };
    let sum: i64 = start as i64 + signed;
    if sum > 0x7FFF_FFFF {
        0x7FFF_FFFF
    } else if sum < -0x8000_0000 {
        -0x8000_0000
    } else {
        sum as i32
    }
}

fn extent_between(near: i32, far: i32) -> (r: u32)
    ensures
        r == wrapped_extent(near as int, far as int),
{
    let distance: i64 = far as i64 - near as i64;
    if distance < 0 {
        (distance + 0x1_0000_0000) as u32
    } else {
        distance as u32
    }
}

/// A rectangle for damage tracking and hit testing.
///
/// The right and bottom edges are not part of the rectangle.
#[derive(Debug, Clone, Copy, PartialEq, Eq, Structural)]
pub struct Rect {
    pub x: i32,
    pub y: i32,
    pub width: u32,
    pub height: u32,
}

impl Rect {
    /// The right edge: `x` plus the width, held within the range of `i32`.
    pub open spec fn right(&self) -> int {
        far_edge(self.x, self.width)
    }

    /// The bottom edge: `y` plus the height, held within the range of `i32`.
    pub open spec fn bottom(&self) -> int {
        far_edge(self.y, self.height)
    }

    /// A point is inside from the left and top edges up to, but not
    /// including, the right and bottom edges.
    pub open spec fn spec_contains(&self, x: i32, y: i32) -> bool {
        self.x <= x < self.right() && self.y <= y < self.bottom()
    }

    /// Two rectangles intersect when each starts before the other ends, on
    /// both axes.
    pub open spec fn spec_intersects(&self, other: &Rect) -> bool {
        &&& self.x < other.right()
        &&& self.right() > other.x
        &&& self.y < other.bottom()
        &&& self.bottom() > other.y
    }

    /// The rectangle from the greater of the two left and top edges to the
    /// lesser of the two right and bottom edges, if the rectangles
    /// intersect.
    pub open spec fn spec_intersection(&self, other: &Rect) -> Option<Rect> {
        if self.spec_intersects(other) {
            let x = max_int(self.x as int, other.x as int);
            let y = max_int(self.y as int, other.y as int);
            Some(
                Rect {
                    x: x as i32,
                    y: y as i32,
                    width: wrapped_extent(x, min_int(self.right(), other.right())),
                    height: wrapped_extent(y, min_int(self.bottom(), other.bottom())),
                },
            )
        } else {
            None
        }
    }

    /// The rectangle from the lesser of the two left and top edges to the
    /// greater of the two right and bottom edges.
    pub open spec fn spec_union(&self, other: &Rect) -> Rect {
        let x = min_int(self.x as int, other.x as int);
        let y = min_int(self.y as int, other.y as int);
        Rect {
            x: x as i32,
            y: y as i32,
            width: wrapped_extent(x, max_int(self.right(), other.right())),
            height: wrapped_extent(y, max_int(self.bottom(), other.bottom())),
        }
    }

    pub fn new(x: i32, y: i32, width: u32, height: u32) -> (rect: Rect)
        ensures
            rect == (Rect { x, y, width, height }),
    {
        Rect { x, y, width, height }
    }

    /// Check if a point is inside the rectangle.
    #[verifier::when_used_as_spec(spec_contains)]
    pub fn contains(&self, x: i32, y: i32) -> (r: bool)
        ensures
            r == self.spec_contains(x, y),
    {
        x >= self.x && y >= self.y && x < edge(self.x, self.width) && y < edge(
            self.y,
            self.height,
        )
    }

    /// Check if two rectangles intersect.
    #[verifier::when_used_as_spec(spec_intersects)]
    pub fn intersects(&self, other: &Rect) -> (r: bool)
        ensures
            r == self.spec_intersects(other),
    {
        self.x < edge(other.x, other.width) && edge(self.x, self.width) > other.x && self.y
            < edge(other.y, other.height) && edge(self.y, self.height) > other.y
    }

    /// Compute the intersection of two rectangles.
    #[verifier::when_used_as_spec(spec_intersection)]
    pub fn intersection(&self, other: &Rect) -> (r: Option<Rect>)
        ensures
            r == self.spec_intersection(other),
    {
        if !self.intersects(other) {
            return None;
        }
        let x: i32 = if self.x >= other.x { self.x } else { other.x };
        let y: i32 = if self.y >= other.y { self.y } else { other.y };
        let right_a: i32 = edge(self.x, self.width);
        let right_b: i32 = edge(other.x, other.width);
        let bottom_a: i32 = edge(self.y, self.height);
        let bottom_b: i32 = edge(other.y, other.height);
        let right: i32 = if right_a <= right_b { right_a } else { right_b };
        let bottom: i32 = if bottom_a <= bottom_b { bottom_a } else { bottom_b };
        Some(
            Rect { x, y, width: extent_between(x, right), height: extent_between(y, bottom) },
        )
    }

    /// Compute the union (bounding box) of two rectangles.
    #[verifier::when_used_as_spec(spec_union)]
    pub fn union(&self, other: &Rect) -> (r: Rect)
        ensures
            r == self.spec_union(other),
    {
        let x: i32 = if self.x <= other.x { self.x } else { other.x };
        let y: i32 = if self.y <= other.y { self.y } else { other.y };
        let right_a: i32 = edge(self.x, self.width);
        let right_b: i32 = edge(other.x, other.width);
        let bottom_a: i32 = edge(self.y, self.height);
        let bottom_b: i32 = edge(other.y, other.height);
        let right: i32 = if right_a >= right_b { right_a } else { right_b };
        let bottom: i32 = if bottom_a >= bottom_b { bottom_a } else { bottom_b };
        Rect { x, y, width: extent_between(x, right), height: extent_between(y, bottom) }
    }
}

impl Default for Rect {
    /// The empty rectangle at the origin.
    fn default() -> (rect: Rect)
        ensures
            rect == (Rect { x: 0, y: 0, width: 0, height: 0 }),
    {
        Rect { x: 0, y: 0, width: 0, height: 0 }
    }
}

/// A rectangle is ordinary when its far edges are the near edges plus width
/// and height, with nothing lost to the range of `i32`.
pub open spec fn is_ordinary(rect: Rect) -> bool {
    &&& rect.width <= i32::MAX
    &&& rect.height <= i32::MAX
    &&& rect.x + rect.width <= i32::MAX
    &&& rect.y + rect.height <= i32::MAX
}

/// Intersecting is symmetric, and so are the intersection and the union.
pub proof fn lemma_rect_symmetry(a: Rect, b: Rect)
    ensures
        a.spec_intersects(&b) == b.spec_intersects(&a),
        a.spec_intersection(&b) == b.spec_intersection(&a),
        a.spec_union(&b) == b.spec_union(&a),
{
}

/// Where the far edge is not before the near one, the extent between them
/// is their distance.
pub proof fn lemma_extent_is_distance(near: int, far: int)
    requires
        0 <= far - near < 0x1_0000_0000,
    ensures
        wrapped_extent(near, far) == far - near,
{
}

/// For ordinary rectangles, a point is in the intersection exactly when it
/// is in both.
pub proof fn lemma_intersection_points(a: Rect, b: Rect, x: i32, y: i32)
    requires
        is_ordinary(a),
        is_ordinary(b),
    ensures
        (a.spec_contains(x, y) && b.spec_contains(x, y)) <==> (a.spec_intersection(&b) is Some
            && a.spec_intersection(&b).unwrap().spec_contains(x, y)),
{
    if a.spec_intersects(&b) {
        let left = max_int(a.x as int, b.x as int);
        let top = max_int(a.y as int, b.y as int);
        let right = min_int(a.right(), b.right());
        let bottom = min_int(a.bottom(), b.bottom());
        lemma_extent_is_distance(left, right);
        lemma_extent_is_distance(top, bottom);
        let both = a.spec_intersection(&b).unwrap();
        assert(both.right() == right);
        assert(both.bottom() == bottom);
    }
}

/// For ordinary rectangles with an ordinary union, a point of either
/// rectangle is in the union.
pub proof fn lemma_union_points(a: Rect, b: Rect, x: i32, y: i32)
    requires
        is_ordinary(a),
        is_ordinary(b),
        is_ordinary(a.spec_union(&b)),
        a.spec_contains(x, y) || b.spec_contains(x, y),
    ensures
        a.spec_union(&b).spec_contains(x, y),
{
    let left = min_int(a.x as int, b.x as int);
    let top = min_int(a.y as int, b.y as int);
    let right = max_int(a.right(), b.right());
    let bottom = max_int(a.bottom(), b.bottom());
    lemma_extent_is_distance(left, right);
    lemma_extent_is_distance(top, bottom);
    let all = a.spec_union(&b);
    assert(all.right() == right);
    assert(all.bottom() == bottom);
}

} // verus!
