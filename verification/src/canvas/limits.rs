//! Resource limits of the canvas.
//!
//! The limits bound what one canvas can cost in memory and time, whatever its
//! callers do. They are enforced when a node or a connection is admitted.

use crate::scalar::Scalar;
use vstd::prelude::*;

verus! {

/// Maximum number of nodes on one canvas.
pub const MAX_NODES: usize = 10_000;

/// Maximum number of connections on one canvas.
pub const MAX_CONNECTIONS: usize = 100_000;

/// The bit pattern of the largest canvas coordinate, `1_000_000.0`.
pub const MAX_COORDINATE_BITS: u64 = 0x412E_8480_0000_0000;

/// The bit pattern of the smallest canvas coordinate, `-1_000_000.0`.
pub const MIN_COORDINATE_BITS: u64 = 0xC12E_8480_0000_0000;

pub open spec fn spec_max_coordinate() -> Scalar {
    Scalar { bits: MAX_COORDINATE_BITS }
}

pub open spec fn spec_min_coordinate() -> Scalar {
    Scalar { bits: MIN_COORDINATE_BITS }
}

/// The largest canvas coordinate.
#[verifier::when_used_as_spec(spec_max_coordinate)]
pub fn max_coordinate() -> (s: Scalar)
    ensures
        s == spec_max_coordinate(),
{
    Scalar { bits: MAX_COORDINATE_BITS }
}

/// The smallest canvas coordinate.
#[verifier::when_used_as_spec(spec_min_coordinate)]
pub fn min_coordinate() -> (s: Scalar)
    ensures
        s == spec_min_coordinate(),
{
    Scalar { bits: MIN_COORDINATE_BITS }
}

/// A coordinate the canvas accepts: a finite number within
/// `[min_coordinate(), max_coordinate()]`, both ends included.
pub open spec fn spec_is_valid_coordinate(coord: Scalar) -> bool {
    coord.is_finite() && min_coordinate().le(coord) && coord.le(max_coordinate())
}

/// Whether a coordinate is within the bounds of the canvas.
#[verifier::when_used_as_spec(spec_is_valid_coordinate)]
pub fn is_valid_coordinate(coord: Scalar) -> (r: bool)
    ensures
        r == spec_is_valid_coordinate(coord),
{
    coord.is_finite() && min_coordinate().le(coord) && coord.le(max_coordinate())
}

/// The coordinate moved into the bounds of the canvas: what lies beyond an
/// end becomes that end, and a NaN stays as it is.
pub open spec fn spec_clamp_coordinate(coord: Scalar) -> Scalar {
    coord.clamp(min_coordinate(), max_coordinate())
}

/// Moves a coordinate into the bounds of the canvas.
#[verifier::when_used_as_spec(spec_clamp_coordinate)]
pub fn clamp_coordinate(coord: Scalar) -> (r: Scalar)
    ensures
        r == spec_clamp_coordinate(coord),
{
    coord.clamp(min_coordinate(), max_coordinate())
}

/// A coordinate is valid exactly when its magnitude is at most that of the
/// largest coordinate: the bounds are symmetric, and every infinity and NaN
/// has a greater magnitude.
pub proof fn lemma_valid_coordinate_by_magnitude(coord: Scalar)
    ensures
        is_valid_coordinate(coord) <==> coord.magnitude() <= MAX_COORDINATE_BITS,
{
}

/// Clamping gives a valid coordinate for everything but NaN, and changes no
/// valid coordinate.
pub proof fn lemma_clamp_coordinate_valid(coord: Scalar)
    ensures
        !coord.is_nan() ==> is_valid_coordinate(clamp_coordinate(coord)),
        coord.is_nan() ==> clamp_coordinate(coord) == coord,
        is_valid_coordinate(coord) ==> clamp_coordinate(coord) == coord,
{
}

} // verus!
