//! Choosing the mode of an output.

use crate::wm::types::signed_extent;
use vstd::prelude::*;

verus! {

/// The mode of an output to use, given which of its modes the output
/// prefers: the first preferred mode, or the first mode if none is
/// preferred, or none if the output has no mode.
pub open spec fn spec_select_mode(preferred: Seq<bool>) -> Option<int> {
    if preferred.len() == 0 {
        None
    } else if exists|i: int| 0 <= i < preferred.len() && preferred[i] {
        Some(first_preferred(preferred))
    } else {
        Some(0)
    }
}

/// The index of the first preferred mode, if there is one.
pub open spec fn first_preferred(preferred: Seq<bool>) -> int
    decreases preferred.len(),
{
    if preferred.len() == 0 || preferred[0] {
        0
    } else {
        1 + first_preferred(preferred.drop_first())
    }
}

/// The first preferred mode is a preferred mode, and no mode before it is
/// preferred.
pub proof fn lemma_first_preferred(preferred: Seq<bool>)
    requires
        exists|i: int| 0 <= i < preferred.len() && preferred[i],
    ensures
        0 <= first_preferred(preferred) < preferred.len(),
        preferred[first_preferred(preferred)],
        forall|j: int| 0 <= j < first_preferred(preferred) ==> !preferred[j],
    decreases preferred.len(),
{
    if !preferred[0] {
        let rest = preferred.drop_first();
        let i = choose|i: int| 0 <= i < preferred.len() && preferred[i];
        assert(rest[i - 1]);
        lemma_first_preferred(rest);
        assert forall|j: int| 0 <= j < first_preferred(preferred) implies !preferred[j] by {
            if j > 0 {
                assert(!rest[j - 1]);
            }
        }
    }
}

/// Picks the mode of an output.
///
/// `preferred[i]` says whether the output prefers its mode `i`.
pub fn select_mode(preferred: &[bool]) -> (mode: Option<usize>)
    ensures
        match mode {
            Some(i) => spec_select_mode(preferred@) == Some(i as int) && i < preferred@.len(),
            None => spec_select_mode(preferred@) is None,
        },
{
    if preferred.len() == 0 {
        return None;
    }
    let mut i: usize = 0;
    while i < preferred.len()
        invariant
            i <= preferred.len(),
            forall|j: int| 0 <= j < i ==> !preferred@[j],
        decreases preferred.len() - i,
    {
        if preferred[i] {
            proof {
                lemma_first_preferred(preferred@);
                let first = first_preferred(preferred@);
                if first < i {
                    assert(!preferred@[first]);
                }
            }
            return Some(i);
        }
        i += 1;
    }
    Some(0)
}

/// A refresh rate in hertz as one in millihertz, within 32 bits: what is
/// more than that wraps around.
pub open spec fn spec_refresh_millihertz(hertz: u32) -> int {
    signed_extent(((hertz * 1000) % 0x1_0000_0000) as u32)
}

/// The refresh rate of a mode in millihertz.
pub fn refresh_millihertz(hertz: u32) -> (millihertz: i32)
    ensures
        millihertz == spec_refresh_millihertz(hertz),
        hertz <= 2_147_483 ==> millihertz == hertz * 1000,
{
    let wide: u64 = hertz as u64 * 1000;
    let low: u64 = wide % 0x1_0000_0000;
    if low <= 0x7FFF_FFFF {
        low as i32
    } else {
        (low as i64 - 0x1_0000_0000) as i32
    }
}

} // verus!
