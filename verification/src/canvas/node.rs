//! Nodes: the content items placed on the canvas.
//!
//! A node is a Wayland surface, a piece of generated content, a group of
//! other nodes, a text note or a media reference.

use crate::scalar::Scalar;
use vstd::prelude::*;

verus! {

/// Identifies a node within one canvas. The caller chooses it.
pub type NodeId = u64;

/// The bit pattern of the default node width, `800.0`.
pub const DEFAULT_WIDTH_BITS: u64 = 0x4089_0000_0000_0000;

/// The bit pattern of the default node height, `600.0`.
pub const DEFAULT_HEIGHT_BITS: u64 = 0x4082_C000_0000_0000;

/// The bit pattern of the default node scale, `1.0`.
pub const DEFAULT_SCALE_BITS: u64 = 0x3FF0_0000_0000_0000;

/// What a node shows.
#[derive(Debug, Clone)]
pub enum NodeType {
    /// A Wayland surface (application).
    Surface { surface_id: u64 },
    /// Generated content.
    Generated { content: String },
    /// A group containing other nodes.
    Group { children: Vec<NodeId> },
    /// A text note.
    Note { text: String },
    /// An image or other media.
    Media { path: String },
}

/// The mathematical value of a [`NodeType`].
pub ghost enum NodeTypeView {
    Surface { surface_id: u64 },
    Generated { content: Seq<char> },
    Group { children: Seq<NodeId> },
    Note { text: Seq<char> },
    Media { path: Seq<char> },
}

impl View for NodeType {
    type V = NodeTypeView;

    open spec fn view(&self) -> NodeTypeView {
        match *self {
            NodeType::Surface { surface_id } => NodeTypeView::Surface { surface_id },
            NodeType::Generated { content } => NodeTypeView::Generated { content: content@ },
            NodeType::Group { children } => NodeTypeView::Group { children: children@ },
            NodeType::Note { text } => NodeTypeView::Note { text: text@ },
            NodeType::Media { path } => NodeTypeView::Media { path: path@ },
        }
    }
}

/// A content item on the canvas.
///
/// `x` and `y` are the node's anchor point in canvas coordinates.
#[derive(Debug, Clone)]
pub struct Node {
    pub id: NodeId,
    pub node_type: NodeType,
    pub x: Scalar,
    pub y: Scalar,
    pub width: Scalar,
    pub height: Scalar,
    pub scale: Scalar,
    pub label: Option<String>,
}

/// The mathematical value of a [`Node`].
pub ghost struct NodeView {
    pub id: NodeId,
    pub node_type: NodeTypeView,
    pub x: Scalar,
    pub y: Scalar,
    pub width: Scalar,
    pub height: Scalar,
    pub scale: Scalar,
    pub label: Option<Seq<char>>,
}

impl View for Node {
    type V = NodeView;

    open spec fn view(&self) -> NodeView {
        NodeView {
            id: self.id,
            node_type: self.node_type@,
            x: self.x,
            y: self.y,
            width: self.width,
            height: self.height,
            scale: self.scale,
            label: match self.label {
                Some(label) => Some(label@),
                None => None,
            },
        }
    }
}

impl Node {
    /// A node of the default size, 800 by 600 at scale 1, without a label.
    pub fn new(id: NodeId, node_type: NodeType, x: Scalar, y: Scalar) -> (node: Node)
        ensures
            node@ == (NodeView {
                id,
                node_type: node_type@,
                x,
                y,
                width: Scalar { bits: DEFAULT_WIDTH_BITS },
                height: Scalar { bits: DEFAULT_HEIGHT_BITS },
                scale: Scalar { bits: DEFAULT_SCALE_BITS },
                label: None,
            }),
    {
        Node {
            id,
            node_type,
            x,
            y,
            width: Scalar { bits: DEFAULT_WIDTH_BITS },
            height: Scalar { bits: DEFAULT_HEIGHT_BITS },
            scale: Scalar { bits: DEFAULT_SCALE_BITS },
            label: None,
        }
    }

    /// The same node with another size.
    pub fn with_size(self, width: Scalar, height: Scalar) -> (node: Node)
        ensures
            node@ == (NodeView { width, height, ..self@ }),
    {
        let mut node = self;
        node.width = width;
        node.height = height;
        node
    }

    /// The same node with a label.
    pub fn with_label(self, label: &str) -> (node: Node)
        ensures
            node@ == (NodeView { label: Some(label@), ..self@ }),
    {
        let mut node = self;
        node.label = Some(label.to_owned());
        node
    }
}

} // verus!
