//! The mutable directed graph of processing nodes: a source, a decoder, and
//! lazily created sink nodes, together with the links between them and their
//! execution states.

use vstd::prelude::*;
use vstd::pervasive::VecAdditionalExecFns;
use crate::media::MediaKind;

verus! {

/// Execution states of the graph and of its nodes. `Halted` is the state a
/// fatal lifecycle error forces; `Active` is the running state set right
/// after construction.
#[derive(Clone, Copy, Debug, PartialEq, Eq, Structural)]
pub enum RunState {
    Halted,
    Ready,
    Paused,
    Active,
}

/// The kind tag of a node. A graph holds at most one node of each kind.
#[derive(Clone, Copy, Debug, PartialEq, Eq, Structural)]
pub enum NodeKind {
    Source,
    Decoder,
    Sink(MediaKind),
}

/// A processing node: its kind tag and its own execution state.
#[derive(Clone, Copy, Debug, PartialEq, Eq, Structural)]
pub struct Node {
    pub kind: NodeKind,
    pub state: RunState,
}

/// A directed link from one node's output to another node's input.
#[derive(Clone, Copy, Debug, PartialEq, Eq, Structural)]
pub struct Link {
    pub from: usize,
    pub to: usize,
}

/// A non-owning token for a node, handed to asynchronous callbacks. It must
/// be resolved against the live graph before any mutation; resolution fails
/// once the graph is gone or the node id no longer denotes the expected node.
#[derive(Clone, Copy, Debug, PartialEq, Eq, Structural)]
pub struct WeakNodeRef {
    pub node_id: usize,
}

/// The mathematical image of a graph.
#[verifier::ext_equal]
pub struct GraphV {
    pub nodes: Seq<Node>,
    pub links: Seq<Link>,
    pub state: RunState,
}

/// Some node of kind `k` exists in the graph.
pub open spec fn has_node_of_kind(g: GraphV, k: NodeKind) -> bool {
    exists|i: int| 0 <= i < g.nodes.len() && g.nodes[i].kind == k
}

/// Well-formedness: node kinds are pairwise distinct (so at most one
/// decoder and at most one sink per media kind), and every link joins
/// existing nodes.
pub open spec fn wf_graph(g: GraphV) -> bool {
    &&& forall|i: int, j: int|
        0 <= i < j < g.nodes.len() ==> #[trigger] g.nodes[i].kind != #[trigger] g.nodes[j].kind
    &&& forall|i: int|
        0 <= i < g.links.len() ==> (#[trigger] g.links[i]).from < g.nodes.len() && g.links[i].to
            < g.nodes.len()
}

/// The graph after its execution state is set to `s`, which propagates to
/// every node.
pub open spec fn graph_with_state(g: GraphV, s: RunState) -> GraphV {
    GraphV {
        nodes: Seq::new(g.nodes.len(), |i: int| Node { kind: g.nodes[i].kind, state: s }),
        links: g.links,
        state: s,
    }
}

/// The executable graph. It is owned exclusively by the controller; every
/// other component reaches it through fallible upgrades of non-owning
/// tokens.
pub struct Graph {
    nodes: Vec<Node>,
    links: Vec<Link>,
    state: RunState,
}

impl View for Graph {
    type V = GraphV;

    closed spec fn view(&self) -> GraphV {
        GraphV { nodes: self.nodes@, links: self.links@, state: self.state }
    }
}

impl Graph {
    /// An empty graph in the halted state.
    pub fn new() -> (g: Graph)
        ensures
            g@.nodes.len() == 0,
            g@.links.len() == 0,
            g@.state == RunState::Halted,
    {
        Graph { nodes: Vec::new(), links: Vec::new(), state: RunState::Halted }
    }

    /// Number of nodes; node ids are exactly `0..node_count()`.
    pub fn node_count(&self) -> (n: usize)
        ensures
            n == self@.nodes.len(),
    {
        self.nodes.len()
    }

    /// The graph's own execution state.
    pub fn current_state(&self) -> (s: RunState)
        ensures
            s == self@.state,
    {
        self.state
    }

    /// Append a node of the given kind in the halted state; its id is
    /// returned and stays stable for the graph's whole life.
    pub fn add_node(&mut self, kind: NodeKind) -> (id: usize)
        ensures
            id == old(self)@.nodes.len(),
            final(self)@.nodes == old(self)@.nodes.push(
                (Node { kind, state: RunState::Halted }),
            ),
            final(self)@.links == old(self)@.links,
            final(self)@.state == old(self)@.state,
    {
        let id = self.nodes.len();
        self.nodes.push(Node { kind, state: RunState::Halted });
        id
    }

    /// Link one existing node's output to another existing node's input.
    pub fn add_link(&mut self, from: usize, to: usize)
        requires
            from < old(self)@.nodes.len(),
            to < old(self)@.nodes.len(),
        ensures
            final(self)@.nodes == old(self)@.nodes,
            final(self)@.links == old(self)@.links.push((Link { from, to })),
            final(self)@.state == old(self)@.state,
    {
        self.links.push(Link { from, to });
    }

    /// Bring one node's execution state in sync with the graph's, so a
    /// freshly attached node starts consuming immediately if the graph is
    /// already running.
    pub fn sync_node(&mut self, id: usize)
        requires
            id < old(self)@.nodes.len(),
        ensures
            final(self)@.nodes == old(self)@.nodes.update(
                id as int,
                (Node { kind: old(self)@.nodes[id as int].kind, state: old(self)@.state }),
            ),
            final(self)@.links == old(self)@.links,
            final(self)@.state == old(self)@.state,
    {
        let kind = self.nodes[id].kind;
        let state = self.state;
        self.nodes.set(id, Node { kind, state });
    }

    /// Set the graph's execution state; the change propagates to every
    /// node, as it does in the external collaborator.
    pub fn set_state(&mut self, s: RunState)
        ensures
            final(self)@ == graph_with_state(old(self)@, s),
    {
        self.state = s;
        let n = self.nodes.len();
        let mut i: usize = 0;
        while i < n
            invariant
                i <= n,
                n == self.nodes@.len(),
                self.state == s,
                self.links@ == old(self)@.links,
                forall|j: int|
                    0 <= j < i ==> #[trigger] self.nodes@[j] == (Node {
                        kind: old(self)@.nodes[j].kind,
                        state: s,
                    }),
                forall|j: int| i <= j < n ==> #[trigger] self.nodes@[j] == old(self)@.nodes[j],
            decreases n - i,
        {
            let kind = self.nodes[i].kind;
            self.nodes.set(i, Node { kind, state: s });
            i += 1;
        }
        proof {
            assert(self@.nodes =~= graph_with_state(old(self)@, s).nodes);
            assert(self@ =~= graph_with_state(old(self)@, s));
        }
    }

    /// Number of links.
    pub fn link_count(&self) -> (n: usize)
        ensures
            n == self@.links.len(),
    {
        self.links.len()
    }

    /// Read one link by position, in the order the links were added.
    pub fn link_at(&self, i: usize) -> (l: Link)
        requires
            i < self@.links.len(),
        ensures
            l == self@.links[i as int],
    {
        self.links[i]
    }

    /// Read one node by id.
    pub fn node(&self, id: usize) -> (n: Node)
        requires
            id < self@.nodes.len(),
        ensures
            n == self@.nodes[id as int],
    {
        self.nodes[id]
    }

    /// Whether `id` denotes the decoder node: the resolution step a weak
    /// decoder token must pass before a discovery callback may proceed.
    pub fn is_decoder(&self, id: usize) -> (r: bool)
        ensures
            r == (id < self@.nodes.len() && self@.nodes[id as int].kind is Decoder),
    {
        if id < self.nodes.len() {
            match self.nodes[id].kind {
                NodeKind::Decoder => true,
                _ => false,
            }
        } else {
            false
        }
    }

    /// Locate the sink node of a media kind, if one was ever attached.
    pub fn find_sink(&self, kind: MediaKind) -> (r: Option<usize>)
        ensures
            match r {
                Option::Some(i) => i < self@.nodes.len() && self@.nodes[i as int].kind
                    == NodeKind::Sink(kind),
                Option::None => !has_node_of_kind(self@, NodeKind::Sink(kind)),
            },
    {
        let n = self.nodes.len();
        let mut i: usize = 0;
        while i < n
            invariant
                i <= n,
                n == self@.nodes.len(),
                forall|j: int| 0 <= j < i ==> #[trigger] self@.nodes[j].kind != NodeKind::Sink(kind),
            decreases n - i,
        {
            match self.nodes[i].kind {
                NodeKind::Sink(k) => {
                    if k == kind {
                        return Some(i);
                    }
                },
                _ => {},
            }
            i += 1;
        }
        None
    }
}

} // verus!
