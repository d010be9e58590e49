//! The viewport: which part of the canvas the screen shows.
//!
//! A viewport is a pan and a uniform zoom. Its state is kept and guarded
//! here; the arithmetic that moves it is the caller's. A caller that pans or
//! zooms computes where the motion leads and hands the outcome in, and the
//! viewport decides whether the motion is applied at all and how far it may
//! go.

use crate::canvas::limits::{clamp_coordinate, is_valid_coordinate};
use crate::scalar::Scalar;
use vstd::prelude::*;

verus! {

/// The bit pattern of the smallest zoom level, `0.1`.
pub const MIN_ZOOM_BITS: u64 = 0x3FB9_9999_9999_999A;

/// The bit pattern of the largest zoom level, `10.0`.
pub const MAX_ZOOM_BITS: u64 = 0x4024_0000_0000_0000;

/// The bit pattern of the zoom level of a fresh viewport, `1.0`.
pub const DEFAULT_ZOOM_BITS: u64 = 0x3FF0_0000_0000_0000;

/// The bit pattern of the default screen width, `1920.0`.
pub const DEFAULT_SCREEN_WIDTH_BITS: u64 = 0x409E_0000_0000_0000;

/// The bit pattern of the default screen height, `1080.0`.
pub const DEFAULT_SCREEN_HEIGHT_BITS: u64 = 0x4090_E000_0000_0000;

pub open spec fn spec_min_zoom() -> Scalar {
    Scalar { bits: MIN_ZOOM_BITS }
}

pub open spec fn spec_max_zoom() -> Scalar {
    Scalar { bits: MAX_ZOOM_BITS }
}

/// The smallest zoom level.
#[verifier::when_used_as_spec(spec_min_zoom)]
pub fn min_zoom() -> (s: Scalar)
    ensures
        s == spec_min_zoom(),
{
    Scalar { bits: MIN_ZOOM_BITS }
}

/// The largest zoom level.
#[verifier::when_used_as_spec(spec_max_zoom)]
pub fn max_zoom() -> (s: Scalar)
    ensures
        s == spec_max_zoom(),
{
    Scalar { bits: MAX_ZOOM_BITS }
}

/// A zoom level within `[min_zoom(), max_zoom()]`, both ends included.
pub open spec fn is_valid_zoom(zoom: Scalar) -> bool {
    min_zoom().le(zoom) && zoom.le(max_zoom())
}

/// The zoom level moved into `[min_zoom(), max_zoom()]`; a NaN stays as it
/// is.
pub open spec fn spec_clamp_zoom(zoom: Scalar) -> Scalar {
    zoom.clamp(min_zoom(), max_zoom())
}

/// Moves a zoom level into the allowed range.
#[verifier::when_used_as_spec(spec_clamp_zoom)]
pub fn clamp_zoom(zoom: Scalar) -> (r: Scalar)
    ensures
        r == spec_clamp_zoom(zoom),
{
    zoom.clamp(min_zoom(), max_zoom())
}

/// The part of the canvas that a viewport shows: an axis-aligned rectangle
/// given by its four edges in canvas coordinates.
///
/// A viewport centred on `(x, y)` shows `screen_width / 2 / zoom` to either
/// side of `x` and `screen_height / 2 / zoom` to either side of `y`.
#[derive(Debug, Clone, Copy, PartialEq, Eq, Structural)]
pub struct VisibleRect {
    pub left: Scalar,
    pub right: Scalar,
    pub top: Scalar,
    pub bottom: Scalar,
}

impl VisibleRect {
    /// A point is inside when it lies between the edges on both axes, the
    /// edges included. No point is inside a rectangle with a NaN edge, and a
    /// point with a NaN coordinate is inside no rectangle.
    pub open spec fn spec_contains(&self, x: Scalar, y: Scalar) -> bool {
        self.left.le(x) && x.le(self.right) && self.top.le(y) && y.le(self.bottom)
    }

    /// Whether the point `(x, y)` is inside the rectangle.
    #[verifier::when_used_as_spec(spec_contains)]
    pub fn contains(&self, x: Scalar, y: Scalar) -> (r: bool)
        ensures
            r == self.spec_contains(x, y),
    {
        self.left.le(x) && x.le(self.right) && self.top.le(y) && y.le(self.bottom)
    }
}

/// Pan and zoom of the canvas on the screen.
///
/// `(x, y)` is the canvas point at the centre of the screen.
#[derive(Debug, Clone, Copy, PartialEq, Eq, Structural)]
pub struct Viewport {
    /// Centre X position in canvas coordinates.
    pub x: Scalar,
    /// Centre Y position in canvas coordinates.
    pub y: Scalar,
    /// Zoom level (1.0 = 100%).
    pub zoom: Scalar,
    /// Screen width in pixels.
    pub screen_width: Scalar,
    /// Screen height in pixels.
    pub screen_height: Scalar,
}

impl Viewport {
    /// The state that every operation of the viewport keeps: the centre
    /// within the bounds of the canvas and the zoom within its range.
    pub open spec fn wf(&self) -> bool {
        is_valid_coordinate(self.x) && is_valid_coordinate(self.y) && is_valid_zoom(self.zoom)
    }

    /// A pan is applied only if both deltas are finite.
    pub open spec fn pan_accepted(dx: Scalar, dy: Scalar) -> bool {
        dx.is_finite() && dy.is_finite()
    }

    /// A zoom is applied only if the factor and the fixed point are finite.
    pub open spec fn zoom_accepted(factor: Scalar, center_x: Scalar, center_y: Scalar) -> bool {
        factor.is_finite() && center_x.is_finite() && center_y.is_finite()
    }

    /// The viewport after [`Viewport::pan`].
    pub open spec fn spec_pan(
        self,
        dx: Scalar,
        dy: Scalar,
        moved_x: Scalar,
        moved_y: Scalar,
    ) -> Viewport {
        if Self::pan_accepted(dx, dy) {
            Viewport { x: clamp_coordinate(moved_x), y: clamp_coordinate(moved_y), ..self }
        } else {
            self
        }
    }

    /// The viewport after [`Viewport::zoom_at`].
    pub open spec fn spec_zoom_at(
        self,
        factor: Scalar,
        center_x: Scalar,
        center_y: Scalar,
        scaled_zoom: Scalar,
        moved_x: Scalar,
        moved_y: Scalar,
    ) -> Viewport {
        if Self::zoom_accepted(factor, center_x, center_y) {
            Viewport {
                x: clamp_coordinate(moved_x),
                y: clamp_coordinate(moved_y),
                zoom: clamp_zoom(scaled_zoom),
                ..self
            }
        } else {
            self
        }
    }

    /// The viewport after [`Viewport::reset`].
    pub open spec fn spec_reset(self) -> Viewport {
        Viewport {
            x: Scalar { bits: 0 },
            y: Scalar { bits: 0 },
            zoom: Scalar { bits: DEFAULT_ZOOM_BITS },
            ..self
        }
    }

    /// The viewport of a 1920 by 1080 screen, centred on the origin at zoom 1.
    pub open spec fn spec_default() -> Viewport {
        Viewport {
            x: Scalar { bits: 0 },
            y: Scalar { bits: 0 },
            zoom: Scalar { bits: DEFAULT_ZOOM_BITS },
            screen_width: Scalar { bits: DEFAULT_SCREEN_WIDTH_BITS },
            screen_height: Scalar { bits: DEFAULT_SCREEN_HEIGHT_BITS },
        }
    }

    /// A viewport centred on the origin at zoom 1.
    pub fn new(screen_width: Scalar, screen_height: Scalar) -> (viewport: Viewport)
        ensures
            viewport == (Viewport {
                x: Scalar { bits: 0 },
                y: Scalar { bits: 0 },
                zoom: Scalar { bits: DEFAULT_ZOOM_BITS },
                screen_width,
                screen_height,
            }),
            viewport.wf(),
    {
        Viewport {
            x: Scalar { bits: 0 },
            y: Scalar { bits: 0 },
            zoom: Scalar { bits: DEFAULT_ZOOM_BITS },
            screen_width,
            screen_height,
        }
    }

    /// Pans the viewport by `(dx, dy)` screen pixels.
    ///
    /// `(moved_x, moved_y)` is where the caller's arithmetic puts the centre:
    /// `x + dx / zoom` and `y + dy / zoom`. A delta that is not finite is
    /// ignored and the viewport stays as it is; otherwise the centre moves
    /// there, each axis clamped to the bounds of the canvas.
    pub fn pan(&mut self, dx: Scalar, dy: Scalar, moved_x: Scalar, moved_y: Scalar)
        ensures
            *final(self) == old(self).spec_pan(dx, dy, moved_x, moved_y),
            !dx.is_finite() || !dy.is_finite() ==> *final(self) == *old(self),
            old(self).wf() && !moved_x.is_nan() && !moved_y.is_nan() ==> final(self).wf(),
    {
        if !dx.is_finite() || !dy.is_finite() {
            return;
        }
        self.x = clamp_coordinate(moved_x);
        self.y = clamp_coordinate(moved_y);
    }

    /// Zooms by `factor`, keeping the canvas point `(center_x, center_y)`
    /// where it is on the screen.
    ///
    /// `scaled_zoom` is what the caller's arithmetic makes of `zoom *
    /// factor`. With `ratio` for `clamp_zoom(scaled_zoom) / zoom`,
    /// `(moved_x, moved_y)` is where it puts the centre: `center_x -
    /// (center_x - x) * ratio` and `center_y - (center_y - y) * ratio`. An
    /// input that is not finite is ignored and the viewport stays as it is;
    /// otherwise the zoom becomes the scaled zoom, clamped to its range, and
    /// the centre moves, each axis clamped to the bounds of the canvas.
    pub fn zoom_at(
        &mut self,
        factor: Scalar,
        center_x: Scalar,
        center_y: Scalar,
        scaled_zoom: Scalar,
        moved_x: Scalar,
        moved_y: Scalar,
    )
        ensures
            *final(self) == old(self).spec_zoom_at(
                factor,
                center_x,
                center_y,
                scaled_zoom,
                moved_x,
                moved_y,
            ),
            !scaled_zoom.is_nan() && is_valid_zoom(old(self).zoom) ==> is_valid_zoom(
                final(self).zoom,
            ),
            old(self).wf() && !scaled_zoom.is_nan() && !moved_x.is_nan() && !moved_y.is_nan()
                ==> final(self).wf(),
    {
        if !factor.is_finite() || !center_x.is_finite() || !center_y.is_finite() {
            return;
        }
        self.zoom = clamp_zoom(scaled_zoom);
        self.x = clamp_coordinate(moved_x);
        self.y = clamp_coordinate(moved_y);
    }

    /// Puts the centre back on the origin at zoom 1.
    pub fn reset(&mut self)
        ensures
            *final(self) == old(self).spec_reset(),
            final(self).wf(),
    {
        self.x = Scalar { bits: 0 };
        self.y = Scalar { bits: 0 };
        self.zoom = Scalar { bits: DEFAULT_ZOOM_BITS };
    }
}

impl Default for Viewport {
    /// The viewport of a 1920 by 1080 screen.
    fn default() -> (viewport: Viewport)
        ensures
            viewport == Viewport::spec_default(),
    {
        Viewport::new(
            Scalar { bits: DEFAULT_SCREEN_WIDTH_BITS },
            Scalar { bits: DEFAULT_SCREEN_HEIGHT_BITS },
        )
    }
}

/// One call of [`Viewport::zoom_at`]: its inputs and what the caller's
/// arithmetic made of them.
pub ghost struct ZoomStep {
    pub factor: Scalar,
    pub center_x: Scalar,
    pub center_y: Scalar,
    pub scaled_zoom: Scalar,
    pub moved_x: Scalar,
    pub moved_y: Scalar,
}

/// The viewport after a sequence of zooms, applied first to last.
pub open spec fn after_zooms(viewport: Viewport, steps: Seq<ZoomStep>) -> Viewport
    decreases steps.len(),
{
    if steps.len() == 0 {
        viewport
    } else {
        let step = steps.last();
        after_zooms(viewport, steps.drop_last()).spec_zoom_at(
            step.factor,
            step.center_x,
            step.center_y,
            step.scaled_zoom,
            step.moved_x,
            step.moved_y,
        )
    }
}

/// A pan with a delta that is not finite, a NaN among them, leaves the
/// viewport unchanged.
pub proof fn lemma_pan_ignores_non_finite(
    viewport: Viewport,
    dx: Scalar,
    dy: Scalar,
    moved_x: Scalar,
    moved_y: Scalar,
)
    requires
        !dx.is_finite() || !dy.is_finite(),
    ensures
        viewport.spec_pan(dx, dy, moved_x, moved_y) == viewport,
{
}

/// A zoom within the range stays within it over any sequence of zooms whose
/// scaled zoom levels are numbers.
pub proof fn lemma_zoom_stays_in_range(viewport: Viewport, steps: Seq<ZoomStep>)
    requires
        is_valid_zoom(viewport.zoom),
        forall|i: int| 0 <= i < steps.len() ==> !(#[trigger] steps[i]).scaled_zoom.is_nan(),
    ensures
        is_valid_zoom(after_zooms(viewport, steps).zoom),
    decreases steps.len(),
{
    if steps.len() > 0 {
        lemma_zoom_stays_in_range(viewport, steps.drop_last());
    }
}

/// Panning and zooming keep a well-formed viewport well formed, as long as
/// the caller's arithmetic yields numbers.
pub proof fn lemma_motion_keeps_wf(viewport: Viewport, dx: Scalar, dy: Scalar, step: ZoomStep)
    requires
        viewport.wf(),
        !step.scaled_zoom.is_nan(),
        !step.moved_x.is_nan(),
        !step.moved_y.is_nan(),
    ensures
        viewport.spec_pan(dx, dy, step.moved_x, step.moved_y).wf(),
        viewport.spec_zoom_at(
            step.factor,
            step.center_x,
            step.center_y,
            step.scaled_zoom,
            step.moved_x,
            step.moved_y,
        ).wf(),
        viewport.spec_reset().wf(),
{
}

} // verus!
