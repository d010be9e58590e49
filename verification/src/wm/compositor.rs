//! Main compositor struct.

use crate::wm::CoreError;
use vstd::prelude::*;

verus! {

/// The compositor. It holds nothing yet.
pub struct Compositor {}

impl Compositor {
    /// A compositor that is ready to run. This cannot fail yet.
    pub fn new() -> (compositor: Result<Compositor, CoreError>)
        ensures
            compositor is Ok,
    {
        Ok(Compositor {  })
    }

    /// Runs the compositor. There is no event loop yet, so this returns at
    /// once.
    pub fn run(&mut self) -> (outcome: Result<(), CoreError>)
        ensures
            outcome is Ok,
    {
        Ok(())
    }
}

} // verus!
