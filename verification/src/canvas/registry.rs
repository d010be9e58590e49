//! The canvas: the bounded registry that owns every node, every connection
//! and the viewport.

use crate::canvas::connection::{Connection, ConnectionTypeView, ConnectionView};
use crate::canvas::limits::{is_valid_coordinate, MAX_CONNECTIONS, MAX_NODES};
use crate::canvas::node::{Node, NodeId, NodeView};
use crate::canvas::viewport::{Viewport, VisibleRect};
use crate::canvas::{CanvasError, CanvasErrorView};
use std::collections::hash_map::Entry;
use std::collections::HashMap;
use vstd::prelude::*;
use vstd::std_specs::iter::IteratorSpec;

verus! {

broadcast use vstd::std_specs::hash::group_hash_axioms;

/// The mathematical value of a [`Canvas`]: its nodes by id, its connections
/// in the order in which they were made, and its viewport.
pub ghost struct CanvasView {
    pub nodes: Map<NodeId, NodeView>,
    pub connections: Seq<ConnectionView>,
    pub viewport: Viewport,
}

impl CanvasView {
    /// The limits that every canvas keeps.
    pub open spec fn wf(self) -> bool {
        &&& self.nodes.dom().finite()
        &&& self.nodes.len() <= MAX_NODES
        &&& self.connections.len() <= MAX_CONNECTIONS
    }

    /// Whether the canvas takes the node: there is room for one more, and
    /// the node's anchor point is within the bounds of the canvas.
    pub open spec fn admits(self, node: NodeView) -> bool {
        self.nodes.len() < MAX_NODES && is_valid_coordinate(node.x) && is_valid_coordinate(node.y)
    }

    /// The canvas with `node` stored under its id, in place of any node that
    /// had the id before.
    pub open spec fn with_node(self, node: NodeView) -> CanvasView {
        CanvasView { nodes: self.nodes.insert(node.id, node), ..self }
    }

    /// The canvas after an attempt to add `node`: with the node if the
    /// canvas admits it, and as before if not.
    pub open spec fn add(self, node: NodeView) -> CanvasView {
        if self.admits(node) {
            self.with_node(node)
        } else {
            self
        }
    }

    /// The canvas without the node `id` and without the connections that
    /// start or end at it.
    pub open spec fn without_node(self, id: NodeId) -> CanvasView {
        CanvasView {
            nodes: self.nodes.remove(id),
            connections: self.connections.filter(|c: ConnectionView| !c.touches(id)),
            ..self
        }
    }

    /// The number of connections that start or end at the node `id`.
    pub open spec fn degree(self, id: NodeId) -> nat {
        self.connections.filter(|c: ConnectionView| c.touches(id)).len()
    }

    /// The canvas with one more link, from `from` to `to`, after all others.
    pub open spec fn with_link(self, from: NodeId, to: NodeId) -> CanvasView {
        CanvasView {
            connections: self.connections.push(
                ConnectionView { from, to, connection_type: ConnectionTypeView::Link },
            ),
            ..self
        }
    }

    /// Whether the canvas holds a node `id` with its anchor point in
    /// `visible`.
    pub open spec fn is_visible(self, visible: VisibleRect, id: NodeId) -> bool {
        self.nodes.contains_key(id) && visible.contains(self.nodes[id].x, self.nodes[id].y)
    }

    /// Whether `ids` names each visible node once, and `shown` holds the
    /// nodes that `ids` names, in the same order.
    pub open spec fn lists_visible(
        self,
        visible: VisibleRect,
        ids: Seq<NodeId>,
        shown: Seq<NodeView>,
    ) -> bool {
        &&& ids.no_duplicates()
        &&& forall|id: NodeId| ids.contains(id) <==> self.is_visible(visible, id)
        &&& shown.len() == ids.len()
        &&& forall|i: int| 0 <= i < ids.len() ==> shown[i] == self.nodes[#[trigger] ids[i]]
    }

    /// The canvas after an attempt to connect `from` to `to`: with the link
    /// if [`CanvasView::connect_outcome`] is `Ok`, and as before if not.
    pub open spec fn connect(self, from: NodeId, to: NodeId) -> CanvasView {
        if self.connect_outcome(from, to) is Ok {
            self.with_link(from, to)
        } else {
            self
        }
    }

    /// Why the canvas refuses the node, if it does.
    pub open spec fn refusal(self, node: NodeView) -> CanvasErrorView {
        if self.nodes.len() >= MAX_NODES {
            CanvasErrorView::ResourceLimitExceeded("Maximum nodes (10000) exceeded"@)
        } else {
            CanvasErrorView::ResourceLimitExceeded("Node coordinates out of bounds"@)
        }
    }

    /// What [`Canvas::connect`] answers.
    pub open spec fn connect_outcome(self, from: NodeId, to: NodeId) -> Result<(), CanvasErrorView> {
        if self.connections.len() >= MAX_CONNECTIONS {
            Err(CanvasErrorView::ResourceLimitExceeded("Maximum connections (100000) exceeded"@))
        } else if !self.nodes.contains_key(from) {
            Err(CanvasErrorView::NodeNotFound(from))
        } else if !self.nodes.contains_key(to) {
            Err(CanvasErrorView::NodeNotFound(to))
        } else {
            Ok(())
        }
    }
}

/// The values of a list of nodes, in the order of the list.
pub open spec fn views_of(nodes: Seq<&Node>) -> Seq<NodeView> {
    nodes.map_values(|node: &Node| node@)
}

/// The infinite canvas.
///
/// A canvas that starts within its limits, at most [`MAX_NODES`] nodes and
/// [`MAX_CONNECTIONS`] connections, stays within them: see
/// [`CanvasView::wf`].
pub struct Canvas {
    nodes: HashMap<NodeId, Node>,
    connections: Vec<Connection>,
    viewport: Viewport,
}

impl View for Canvas {
    type V = CanvasView;

    closed spec fn view(&self) -> CanvasView {
        CanvasView {
            nodes: self.nodes@.map_values(|node: Node| node@),
            connections: self.connections@.map_values(|c: Connection| c@),
            viewport: self.viewport,
        }
    }
}

impl Canvas {
    /// An empty canvas with the default viewport.
    pub fn new() -> (canvas: Canvas)
        ensures
            canvas@.nodes == Map::<NodeId, NodeView>::empty(),
            canvas@.connections == Seq::<ConnectionView>::empty(),
            canvas@.viewport == Viewport::spec_default(),
            canvas@.wf(),
    {
        let canvas = Canvas {
            nodes: HashMap::new(),
            connections: Vec::new(),
            viewport: Viewport::default(),
        };
        assert(canvas@.nodes =~= Map::<NodeId, NodeView>::empty());
        assert(canvas@.connections =~= Seq::<ConnectionView>::empty());
        canvas
    }

    /// Adds a node to the canvas under its own id.
    ///
    /// A node whose id is already taken replaces the node that had it. A
    /// full canvas and a node outside the coordinate bounds are refused with
    /// [`CanvasError::ResourceLimitExceeded`], and the canvas stays as it is.
    pub fn add_node(&mut self, node: Node) -> (result: Result<NodeId, CanvasError>)
        ensures
            old(self)@.wf() ==> final(self)@.wf(),
            final(self)@ == old(self)@.add(node@),
            match result {
                Ok(id) => {
                    &&& old(self)@.admits(node@)
                    &&& id == node.id
                    &&& final(self)@ == old(self)@.with_node(node@)
                },
                Err(e) => {
                    &&& !old(self)@.admits(node@)
                    &&& e@ == old(self)@.refusal(node@)
                    &&& final(self)@ == old(self)@
                },
            },
    {
        assert(self@.nodes.dom() =~= self.nodes@.dom());
        if self.nodes.len() >= MAX_NODES {
            return Err(
                CanvasError::ResourceLimitExceeded("Maximum nodes (10000) exceeded".to_string()),
            );
        }
        if !is_valid_coordinate(node.x) || !is_valid_coordinate(node.y) {
            return Err(
                CanvasError::ResourceLimitExceeded("Node coordinates out of bounds".to_string()),
            );
        }
        let id = node.id;
        let ghost before = self.nodes@;
        self.nodes.insert(id, node);
        assert(self.nodes@.map_values(|node: Node| node@) =~= before.map_values(
            |node: Node| node@,
        ).insert(id, node@));
        Ok(id)
    }

    /// The node stored under `id`, if there is one.
    pub fn get_node(&self, id: NodeId) -> (result: Option<&Node>)
        ensures
            match result {
                Some(node) => self@.nodes.contains_key(id) && node@ == self@.nodes[id],
                None => !self@.nodes.contains_key(id),
            },
    {
        self.nodes.get(&id)
    }

    /// Removes the node `id` together with every connection that starts or
    /// ends at it, and returns the node.
    ///
    /// Without such a node there is nothing to return, and only the
    /// connections that name the id go.
    pub fn remove_node(&mut self, id: NodeId) -> (result: Option<Node>)
        ensures
            old(self)@.wf() ==> final(self)@.wf(),
            final(self)@ == old(self)@.without_node(id),
            final(self)@.connections.len() + old(self)@.degree(id) == old(self)@.connections.len(),
            match result {
                Some(node) => old(self)@.nodes.contains_key(id) && node@ == old(self)@.nodes[id],
                None => !old(self)@.nodes.contains_key(id),
            },
    {
        let ghost before = self.connections@.map_values(|c: Connection| c@);
        let ghost keep = |c: ConnectionView| !c.touches(id);
        let mut kept: Vec<Connection> = Vec::new();
        let mut rest: Vec<Connection> = Vec::new();
        std::mem::swap(&mut self.connections, &mut rest);
        let ghost all = rest@;
        for connection in it: rest.into_iter()
            invariant
                it.seq() == all,
                before == all.map_values(|c: Connection| c@),
                keep == |c: ConnectionView| !c.touches(id),
                kept@.map_values(|c: Connection| c@) == before.take(it.index() as int).filter(keep),
        {
            proof {
                let i = it.index() as int;
                assert(before.take(i + 1) =~= before.take(i).push(connection@));
                Seq::lemma_filter_push(before.take(i), connection@, keep);
            }
            let ghost shown = kept@.map_values(|c: Connection| c@);
            if connection.from != id && connection.to != id {
                kept.push(connection);
                assert(kept@.map_values(|c: Connection| c@) =~= shown.push(connection@));
            }
        }
        self.connections = kept;
        let ghost nodes_before = self.nodes@;
        let result = self.nodes.remove(&id);
        proof {
            assert(before.take(before.len() as int) =~= before);
            assert(self.nodes@.map_values(|node: Node| node@) =~= nodes_before.map_values(
                |node: Node| node@,
            ).remove(id));
            lemma_filter_split(before, id);
            before.lemma_filter_len(keep);
            assert(final(self)@.nodes.dom() =~= self.nodes@.dom());
            assert(old(self)@.nodes.dom() =~= nodes_before.dom());
        }
        result
    }

    /// Connects two nodes of the canvas by a plain link.
    ///
    /// A canvas with no room for another connection refuses with
    /// [`CanvasError::ResourceLimitExceeded`]; an end that is not on the
    /// canvas, `from` before `to`, with [`CanvasError::NodeNotFound`]. A
    /// refused connection leaves the canvas as it is.
    pub fn connect(&mut self, from: NodeId, to: NodeId) -> (result: Result<(), CanvasError>)
        ensures
            old(self)@.wf() ==> final(self)@.wf(),
            final(self)@ == old(self)@.connect(from, to),
            match result {
                Ok(()) => {
                    &&& old(self)@.connect_outcome(from, to) is Ok
                    &&& final(self)@ == old(self)@.with_link(from, to)
                    &&& final(self)@.connections.len() == old(self)@.connections.len() + 1
                },
                Err(e) => {
                    &&& old(self)@.connect_outcome(from, to) == Err::<(), CanvasErrorView>(e@)
                    &&& final(self)@ == old(self)@
                },
            },
    {
        if self.connections.len() >= MAX_CONNECTIONS {
            return Err(
                CanvasError::ResourceLimitExceeded(
                    "Maximum connections (100000) exceeded".to_string(),
                ),
            );
        }
        if !self.nodes.contains_key(&from) {
            return Err(CanvasError::NodeNotFound(from));
        }
        if !self.nodes.contains_key(&to) {
            return Err(CanvasError::NodeNotFound(to));
        }
        let ghost before = self.connections@.map_values(|c: Connection| c@);
        let connection = Connection::new(from, to);
        self.connections.push(connection);
        assert(self.connections@.map_values(|c: Connection| c@) =~= before.push(connection@));
        Ok(())
    }

    /// The node stored under `id`, for the caller to change.
    ///
    /// The canvas takes whatever the caller leaves in the node: neither the
    /// coordinates nor the id are looked at again.
    pub fn get_node_mut(&mut self, id: NodeId) -> (result: Option<&mut Node>)
        ensures
            old(self)@.wf() ==> final(self)@.wf(),
            match result {
                Some(node) => {
                    &&& old(self)@.nodes.contains_key(id)
                    &&& node@ == old(self)@.nodes[id]
                    &&& final(self)@ == (CanvasView {
                        nodes: old(self)@.nodes.insert(id, final(node)@),
                        ..old(self)@
                    })
                },
                None => !old(self)@.nodes.contains_key(id) && final(self)@ == old(self)@,
            },
    {
        let ghost before = self.nodes@;
        match self.nodes.entry(id) {
            Entry::Occupied(entry) => {
                let node = entry.into_mut();
                proof {
                    assert(before.insert(id, *final(node)).map_values(|node: Node| node@)
                        =~= before.map_values(|node: Node| node@).insert(id, final(node)@));
                }
                Some(node)
            },
            Entry::Vacant(entry) => {
                proof {
                    assert(before.remove(id) =~= before);
                }
                None
            },
        }
    }

    /// The viewport of the canvas, for the caller to move.
    pub fn viewport_mut(&mut self) -> (viewport: &mut Viewport)
        ensures
            old(self)@.wf() ==> final(self)@.wf(),
            *viewport == old(self)@.viewport,
            final(self)@ == (CanvasView { viewport: *final(viewport), ..old(self)@ }),
    {
        &mut self.viewport
    }

    /// The nodes whose anchor point lies in `visible`, each once, in no
    /// particular order.
    ///
    /// Only the anchor point counts: a node that reaches into the rectangle
    /// from an anchor outside it is not listed.
    pub fn visible_nodes(&self, visible: &VisibleRect) -> (result: Vec<&Node>)
        ensures
            exists|ids: Seq<NodeId>| #[trigger]
                self@.lists_visible(*visible, ids, views_of(result@)),
    {
        let mut result: Vec<&Node> = Vec::new();
        let ghost mut ids: Seq<NodeId> = Seq::empty();
        let ghost mut places: Seq<int> = Seq::empty();
        let ghost entries = self.nodes.iter().remaining();
        for entry in it: self.nodes.iter()
            invariant
                it.seq() == entries,
                entries == self.nodes.iter().remaining(),
                entries.no_duplicates(),
                ids.no_duplicates(),
                ids.len() == result.len(),
                forall|i: int|
                    0 <= i < ids.len() ==> self@.is_visible(*visible, #[trigger] ids[i])
                        && result[i]@ == self@.nodes[ids[i]],
                places.len() == ids.len(),
                forall|i: int|
                    0 <= i < ids.len() ==> 0 <= #[trigger] places[i] < it.index()
                        && *entries[places[i]].0 == ids[i],
                forall|j: int|
                    0 <= j < it.index() && self@.is_visible(*visible, *(#[trigger] entries[j]).0)
                        ==> ids.contains(*entries[j].0),
        {
            let (key, node) = entry;
            proof {
                let j = it.index() as int;
                assert(entries[j] == entry);
                assert(self.nodes@.contains_key(*key) && self.nodes@[*key] == *node);
            }
            if visible.contains(node.x, node.y) {
                proof {
                    let j = it.index() as int;
                    if ids.contains(*key) {
                        let i = choose|i: int| 0 <= i < ids.len() && ids[i] == *key;
                        let k = places[i];
                        assert(self.nodes@[*entries[k].0] == *entries[k].1);
                        assert(entries[k] == entries[j]);
                    }
                    let earlier = ids;
                    ids = ids.push(*key);
                    places = places.push(j);
                    assert(ids[ids.len() - 1] == *key);
                    assert forall|k: int|
                        0 <= k < j && self@.is_visible(
                            *visible,
                            *(#[trigger] entries[k]).0,
                        ) implies ids.contains(*entries[k].0) by {
                        let i = choose|i: int|
                            0 <= i < earlier.len() && earlier[i] == *entries[k].0;
                        assert(ids[i] == *entries[k].0);
                    }
                }
                result.push(node);
            }
        }
        proof {
            assert forall|id: NodeId| self@.is_visible(*visible, id) implies ids.contains(id) by {
                assert(self.nodes@.contains_key(id));
                let pair = (&id, &self.nodes@[id]);
                assert(entries.contains(pair));
                let j = choose|j: int| 0 <= j < entries.len() && entries[j] == pair;
                assert(*entries[j].0 == id);
            }
            assert(self@.lists_visible(*visible, ids, views_of(result@)));
        }
        result
    }

    /// The number of nodes on the canvas.
    pub fn node_count(&self) -> (count: usize)
        ensures
            count == self@.nodes.len(),
    {
        assert(self@.nodes.dom() =~= self.nodes@.dom());
        self.nodes.len()
    }

    /// The number of connections on the canvas.
    pub fn connection_count(&self) -> (count: usize)
        ensures
            count == self@.connections.len(),
    {
        self.connections.len()
    }

    /// The viewport of the canvas.
    pub fn viewport(&self) -> (viewport: &Viewport)
        ensures
            *viewport == self@.viewport,
    {
        &self.viewport
    }
}

impl Default for Canvas {
    /// An empty canvas with the default viewport.
    fn default() -> (canvas: Canvas)
        ensures
            canvas@.nodes == Map::<NodeId, NodeView>::empty(),
            canvas@.connections == Seq::<ConnectionView>::empty(),
            canvas@.viewport == Viewport::spec_default(),
    {
        Canvas::new()
    }
}

/// A node that the canvas admits is found again under its id, with every
/// field as it was handed in.
pub proof fn lemma_added_node_is_found(canvas: CanvasView, node: NodeView)
    requires
        canvas.admits(node),
    ensures
        canvas.with_node(node).nodes.contains_key(node.id),
        canvas.with_node(node).nodes[node.id] == node,
{
}

/// Adding a node leaves every other node, every connection and the viewport
/// as they were, and a canvas within its limits stays within them.
pub proof fn lemma_added_node_changes_nothing_else(
    canvas: CanvasView,
    node: NodeView,
    other: NodeId,
)
    requires
        canvas.wf(),
        canvas.admits(node),
        other != node.id,
    ensures
        canvas.with_node(node).wf(),
        canvas.with_node(node).nodes.contains_key(other) == canvas.nodes.contains_key(other),
        canvas.nodes.contains_key(other) ==> canvas.with_node(node).nodes[other]
            == canvas.nodes[other],
        canvas.with_node(node).connections == canvas.connections,
        canvas.with_node(node).viewport == canvas.viewport,
{
}

/// The canvas after attempts to add the nodes of a list, first to last.
pub open spec fn after_adds(canvas: CanvasView, nodes: Seq<NodeView>) -> CanvasView
    decreases nodes.len(),
{
    if nodes.len() == 0 {
        canvas
    } else {
        after_adds(canvas, nodes.drop_last()).add(nodes.last())
    }
}

/// The ids of the first `n` nodes of a list.
pub open spec fn ids_of(nodes: Seq<NodeView>, n: int) -> Set<NodeId> {
    Set::new(|id: NodeId| exists|i: int| 0 <= i < n && (#[trigger] nodes[i]).id == id)
}

/// An empty canvas has room for [`MAX_NODES`] nodes and for no more: of
/// nodes with ids of their own and anchor points within the bounds, it
/// admits one after the other up to that number, and then none.
pub proof fn lemma_room_for_max_nodes(canvas: CanvasView, nodes: Seq<NodeView>)
    requires
        canvas.nodes == Map::<NodeId, NodeView>::empty(),
        nodes.len() <= MAX_NODES,
        forall|i: int|
            0 <= i < nodes.len() ==> is_valid_coordinate((#[trigger] nodes[i]).x)
                && is_valid_coordinate(nodes[i].y),
        forall|i: int, j: int|
            0 <= i < j < nodes.len() ==> (#[trigger] nodes[i]).id != (#[trigger] nodes[j]).id,
    ensures
        after_adds(canvas, nodes).nodes.dom() == ids_of(nodes, nodes.len() as int),
        after_adds(canvas, nodes).nodes.dom().finite(),
        after_adds(canvas, nodes).nodes.len() == nodes.len(),
        nodes.len() > 0 ==> after_adds(canvas, nodes.drop_last()).admits(nodes.last()),
        nodes.len() == MAX_NODES ==> forall|extra: NodeView|
            !(#[trigger] after_adds(canvas, nodes).admits(extra)),
    decreases nodes.len(),
{
    if nodes.len() == 0 {
        assert(after_adds(canvas, nodes).nodes.dom() =~= ids_of(nodes, 0));
    } else {
        let rest = nodes.drop_last();
        let last = nodes.last();
        lemma_room_for_max_nodes(canvas, rest);
        let before = after_adds(canvas, rest);
        assert(before.admits(last));
        assert(!before.nodes.dom().contains(last.id)) by {
            if before.nodes.dom().contains(last.id) {
                let i = choose|i: int| 0 <= i < rest.len() && (#[trigger] rest[i]).id == last.id;
                assert(nodes[i].id == nodes[nodes.len() - 1].id);
            }
        }
        assert(after_adds(canvas, nodes).nodes.dom() =~= ids_of(nodes, nodes.len() as int)) by {
            assert forall|id: NodeId| ids_of(nodes, nodes.len() as int).contains(id) implies (
            #[trigger] after_adds(canvas, nodes).nodes.dom().contains(id)) by {
                let i = choose|i: int| 0 <= i < nodes.len() && (#[trigger] nodes[i]).id == id;
                if i < rest.len() {
                    assert(rest[i].id == id);
                    assert(ids_of(rest, rest.len() as int).contains(id));
                }
            }
            assert forall|id: NodeId| #[trigger]
                after_adds(canvas, nodes).nodes.dom().contains(id) implies ids_of(
                nodes,
                nodes.len() as int,
            ).contains(id) by {
                if id == last.id {
                    assert(nodes[nodes.len() - 1].id == id);
                } else {
                    assert(ids_of(rest, rest.len() as int).contains(id));
                    let i = choose|i: int| 0 <= i < rest.len() && (#[trigger] rest[i]).id == id;
                    assert(nodes[i].id == id);
                }
            }
        }
    }
}

/// On a canvas with room for another connection, connecting fails, with
/// [`CanvasError::NodeNotFound`], exactly when one of the two ends is
/// missing, and otherwise there is one connection more.
pub proof fn lemma_connect_needs_both_ends(canvas: CanvasView, from: NodeId, to: NodeId)
    requires
        canvas.connections.len() < MAX_CONNECTIONS,
    ensures
        !canvas.nodes.contains_key(from) ==> canvas.connect_outcome(from, to) == Err::<
            (),
            CanvasErrorView,
        >(CanvasErrorView::NodeNotFound(from)),
        canvas.nodes.contains_key(from) && !canvas.nodes.contains_key(to)
            ==> canvas.connect_outcome(from, to) == Err::<(), CanvasErrorView>(
            CanvasErrorView::NodeNotFound(to),
        ),
        canvas.nodes.contains_key(from) && canvas.nodes.contains_key(to)
            ==> canvas.connect_outcome(from, to) is Ok,
        canvas.with_link(from, to).connections.len() == canvas.connections.len() + 1,
        canvas.wf() ==> canvas.with_link(from, to).wf(),
{
}

/// Removing a node removes the node and all of the connections that touch
/// it, and no others: the number of connections goes down by exactly the
/// node's degree, and no connection that is left names the node.
pub proof fn lemma_remove_drops_touching_connections(canvas: CanvasView, id: NodeId)
    ensures
        !canvas.without_node(id).nodes.contains_key(id),
        canvas.without_node(id).connections.len() + canvas.degree(id)
            == canvas.connections.len(),
        canvas.without_node(id).degree(id) == 0,
        forall|i: int|
            0 <= i < canvas.without_node(id).connections.len() ==> !(
            #[trigger] canvas.without_node(id).connections[i]).touches(id),
        canvas.wf() ==> canvas.without_node(id).wf(),
{
    let keep = |c: ConnectionView| !c.touches(id);
    let touching = |c: ConnectionView| c.touches(id);
    let left = canvas.connections.filter(keep);
    lemma_filter_split(canvas.connections, id);
    canvas.connections.lemma_filter_len(keep);
    assert forall|i: int| 0 <= i < left.len() implies !(#[trigger] left[i]).touches(id) by {
        canvas.connections.lemma_filter_pred(keep, i);
    }
    assert(left.all(|c: ConnectionView| !touching(c)));
    left.lemma_all_neg_filter_empty(touching);
}

/// Of the connections of a canvas, those that touch a node and those that
/// do not add up to all.
pub proof fn lemma_filter_split(connections: Seq<ConnectionView>, id: NodeId)
    ensures
        connections.filter(|c: ConnectionView| !c.touches(id)).len() + connections.filter(
            |c: ConnectionView| c.touches(id),
        ).len() == connections.len(),
    decreases connections.len(),
{
    let keep = |c: ConnectionView| !c.touches(id);
    let drop = |c: ConnectionView| c.touches(id);
    if connections.len() == 0 {
        reveal(Seq::filter);
    } else {
        let rest = connections.drop_last();
        lemma_filter_split(rest, id);
        assert(connections =~= rest.push(connections.last()));
        rest.lemma_filter_len_push(keep, connections.last());
        rest.lemma_filter_len_push(drop, connections.last());
    }
}

} // verus!
