//! Connections: directed relationships between nodes.

use crate::canvas::node::NodeId;
use vstd::prelude::*;

verus! {

/// The kind of relationship a connection stands for.
#[derive(Debug, Clone)]
pub enum ConnectionType {
    /// Simple visual link.
    Link,
    /// Data flows from one node to another.
    DataFlow,
    /// Semantic relationship.
    Semantic { relationship: String },
}

/// The mathematical value of a [`ConnectionType`].
pub ghost enum ConnectionTypeView {
    Link,
    DataFlow,
    Semantic { relationship: Seq<char> },
}

impl View for ConnectionType {
    type V = ConnectionTypeView;

    open spec fn view(&self) -> ConnectionTypeView {
        match *self {
            ConnectionType::Link => ConnectionTypeView::Link,
            ConnectionType::DataFlow => ConnectionTypeView::DataFlow,
            ConnectionType::Semantic { relationship } => ConnectionTypeView::Semantic {
                relationship: relationship@,
            },
        }
    }
}

/// A directed edge from one node to another.
///
/// A connection has no identity of its own: two connections with the same
/// fields cannot be told apart.
#[derive(Debug, Clone)]
pub struct Connection {
    pub from: NodeId,
    pub to: NodeId,
    pub connection_type: ConnectionType,
}

/// The mathematical value of a [`Connection`].
pub ghost struct ConnectionView {
    pub from: NodeId,
    pub to: NodeId,
    pub connection_type: ConnectionTypeView,
}

impl ConnectionView {
    /// Whether the connection starts or ends at the node `id`.
    pub open spec fn touches(self, id: NodeId) -> bool {
        self.from == id || self.to == id
    }
}

impl View for Connection {
    type V = ConnectionView;

    open spec fn view(&self) -> ConnectionView {
        ConnectionView { from: self.from, to: self.to, connection_type: self.connection_type@ }
    }
}

impl Connection {
    /// A plain link from `from` to `to`.
    pub fn new(from: NodeId, to: NodeId) -> (connection: Connection)
        ensures
            connection@ == (ConnectionView {
                from,
                to,
                connection_type: ConnectionTypeView::Link,
            }),
    {
        Connection { from, to, connection_type: ConnectionType::Link }
    }

    /// The same connection with another kind.
    pub fn with_type(self, connection_type: ConnectionType) -> (connection: Connection)
        ensures
            connection@ == (ConnectionView { connection_type: connection_type@, ..self@ }),
    {
        let mut connection = self;
        connection.connection_type = connection_type;
        connection
    }
}

} // verus!
