//! Suggestion engine.
//!
//! Analyzes the canvas and suggests related content, node positions and
//! connections.

use crate::canvas::node::NodeId;
use crate::canvas::Canvas;
use crate::scalar::{Scalar, Single};
use vstd::prelude::*;

verus! {

/// Looks at a canvas for things to suggest.
pub struct SuggestionEngine {}

/// Something the user may want to do.
#[derive(Debug, Clone)]
pub struct Suggestion {
    pub description: String,
    pub action: SuggestedAction,
    /// How sure the engine is, from 0 to 1.
    pub confidence: Single,
}

/// What a suggestion proposes to do.
#[derive(Debug, Clone)]
pub enum SuggestedAction {
    /// Connect two nodes.
    Connect { from: NodeId, to: NodeId },
    /// Group nodes together.
    Group { nodes: Vec<NodeId> },
    /// Move a node to a better position.
    Reposition { node: NodeId, x: Scalar, y: Scalar },
    /// Open related content.
    OpenRelated { query: String },
}

impl SuggestionEngine {
    pub fn new() -> (engine: SuggestionEngine) {
        SuggestionEngine {  }
    }

    /// Analyze the canvas and return suggestions. There is no analysis yet,
    /// so there are none.
    pub fn analyze(&self, canvas: &Canvas) -> (suggestions: Vec<Suggestion>)
        ensures
            suggestions@.len() == 0,
    {
        Vec::new()
    }
}

impl Default for SuggestionEngine {
    fn default() -> (engine: SuggestionEngine) {
        SuggestionEngine::new()
    }
}

} // verus!
