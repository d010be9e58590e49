//! The infinite canvas: nodes, the connections between them, and the viewport
//! that maps the canvas to the screen.

use vstd::prelude::*;
use vstd::string::StringExecFns;

pub mod connection;
pub mod limits;
pub mod node;
pub mod registry;
pub mod viewport;

pub use connection::{Connection, ConnectionType};
pub use node::{Node, NodeId, NodeType};
pub use registry::Canvas;
pub use viewport::{Viewport, VisibleRect};

verus! {

/// Why the canvas refused an operation.
#[derive(Debug)]
pub enum CanvasError {
    /// A connection names a node that the canvas does not hold.
    NodeNotFound(NodeId),
    /// The connection is not allowed.
    InvalidConnection(String),
    /// A resource limit of the canvas would be exceeded.
    ResourceLimitExceeded(String),
}

/// The mathematical value of a [`CanvasError`].
pub ghost enum CanvasErrorView {
    NodeNotFound(NodeId),
    InvalidConnection(Seq<char>),
    ResourceLimitExceeded(Seq<char>),
}

impl View for CanvasError {
    type V = CanvasErrorView;

    open spec fn view(&self) -> CanvasErrorView {
        match *self {
            CanvasError::NodeNotFound(id) => CanvasErrorView::NodeNotFound(id),
            CanvasError::InvalidConnection(reason) => CanvasErrorView::InvalidConnection(reason@),
            CanvasError::ResourceLimitExceeded(limit) => CanvasErrorView::ResourceLimitExceeded(
                limit@,
            ),
        }
    }
}

impl CanvasErrorView {
    /// The error in words.
    pub open spec fn message(self) -> Seq<char> {
        match self {
            CanvasErrorView::NodeNotFound(id) => "Node not found: "@ + crate::text::decimal(id as nat),
            CanvasErrorView::InvalidConnection(detail) => "Invalid connection: "@ + detail,
            CanvasErrorView::ResourceLimitExceeded(detail) => "Resource limit exceeded: "@ + detail,
        }
    }
}

impl CanvasError {
    /// The error in words.
    pub fn message(&self) -> (message: String)
        ensures
            message@ == self@.message(),
    {
        match self {
            CanvasError::NodeNotFound(id) => String::from_str("Node not found: ").concat(
                crate::text::decimal_string(*id).as_str(),
            ),
            CanvasError::InvalidConnection(detail) => String::from_str("Invalid connection: ").concat(detail.as_str()),
            CanvasError::ResourceLimitExceeded(detail) => String::from_str("Resource limit exceeded: ").concat(detail.as_str()),
        }
    }
}

/// What the operations of the canvas return.
pub type Result<T> = std::result::Result<T, CanvasError>;

} // verus!
