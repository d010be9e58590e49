//! The node protocol.
//!
//! Allows Wayland clients to:
//! - Request to be treated as a node (instead of traditional window)
//! - Set node metadata (label, type, connections)
//! - Receive canvas position updates

use vstd::prelude::*;

verus! {

/// Node hints that clients can set.
#[derive(Debug, Clone)]
pub struct NodeHints {
    /// Suggested label for the node.
    pub label: Option<String>,
    /// Whether this node prefers to be grouped with similar content.
    pub groupable: bool,
    /// Content type hint for AI classification.
    pub content_type: Option<String>,
    /// Suggested connections to other nodes.
    pub suggested_connections: Vec<String>,
}

impl NodeHints {
    /// Whether the hints say nothing: no label, not groupable, no content
    /// type and no connections.
    pub open spec fn is_empty(&self) -> bool {
        &&& self.label is None
        &&& !self.groupable
        &&& self.content_type is None
        &&& self.suggested_connections@.len() == 0
    }

    /// Hints that say nothing.
    pub fn new() -> (hints: NodeHints)
        ensures
            hints.is_empty(),
    {
        NodeHints {
            label: None,
            groupable: false,
            content_type: None,
            suggested_connections: Vec::new(),
        }
    }

    /// The same hints with a label.
    pub fn with_label(self, label: &str) -> (hints: NodeHints)
        ensures
            hints.label is Some,
            hints.label->Some_0@ == label@,
            hints.groupable == self.groupable,
            hints.content_type == self.content_type,
            hints.suggested_connections == self.suggested_connections,
    {
        let mut hints = self;
        hints.label = Some(label.to_owned());
        hints
    }

    /// The same hints, groupable.
    pub fn groupable(self) -> (hints: NodeHints)
        ensures
            hints.groupable,
            hints.label == self.label,
            hints.content_type == self.content_type,
            hints.suggested_connections == self.suggested_connections,
    {
        let mut hints = self;
        hints.groupable = true;
        hints
    }
}

impl Default for NodeHints {
    fn default() -> (hints: NodeHints)
        ensures
            hints.is_empty(),
    {
        NodeHints::new()
    }
}

/// Server-side handler for the node protocol.
pub struct NodeProtocolHandler {}

impl NodeProtocolHandler {
    pub fn new() -> (handler: NodeProtocolHandler) {
        NodeProtocolHandler {  }
    }
}

impl Default for NodeProtocolHandler {
    fn default() -> (handler: NodeProtocolHandler) {
        NodeProtocolHandler::new()
    }
}

} // verus!
