//! The snapshot form of the tree store: plain data that survives a
//! checkpoint.
//!
//! A snapshot differs from the live form in exactly two ways. A player
//! node's regret-matching capability is transient: it is dropped on the way
//! out and is always absent on the way back in, so only the player identity
//! is durable. And a node's fixed-width edge and counter tables are carried
//! as variable-length sequences: on the way back in they are re-padded to
//! full width, with unwritten tail entries unoccupied or zero, and entries
//! beyond the table width dropped.
//!
//! The conversion laws at the end of this module state that, up to those two
//! points, a value survives the round trip unchanged.

use vstd::prelude::*;

use crate::node::{NodeDataView, NodeView, PlayerDataView, TerminalData, NUM_EDGES};
use crate::state::{GameStateView, CFRStateView, TraversalState};
use crate::state_store::StateStoreView;

verus! {

/// The durable part of a per-decision-point payload: the player identity
/// alone. The regret matcher is represented as absent.
#[derive(Clone, Copy, Debug, PartialEq, Eq, Structural)]
pub struct PlayerDataSnapshot {
    pub player_idx: usize,
}

/// The durable form of a node payload.
#[derive(Clone, Copy, Debug, PartialEq, Eq, Structural)]
pub enum NodeDataSnapshot {
    Root,
    Chance,
    Player(PlayerDataSnapshot),
    Terminal(TerminalData),
}

/// The durable form of a tree vertex: the edge and counter tables flattened
/// to variable-length sequences.
pub struct NodeSnapshot {
    pub idx: usize,
    pub data: NodeDataSnapshot,
    pub parent: Option<usize>,
    pub parent_child_idx: Option<usize>,
    pub children: Vec<Option<usize>>,
    pub count: Vec<u32>,
}

/// What a `NodeSnapshot` observably is.
#[verifier::ext_equal]
pub ghost struct NodeSnapshotView {
    pub idx: usize,
    pub data: NodeDataSnapshot,
    pub parent: Option<usize>,
    pub parent_child_idx: Option<usize>,
    pub children: Seq<Option<usize>>,
    pub count: Seq<u32>,
}

impl View for NodeSnapshot {
    type V = NodeSnapshotView;

    open spec fn view(&self) -> NodeSnapshotView {
        NodeSnapshotView {
            idx: self.idx,
            data: self.data,
            parent: self.parent,
            parent_child_idx: self.parent_child_idx,
            children: self.children@,
            count: self.count@,
        }
    }
}

/// The durable form of one tree.
pub struct CFRStateSnapshot {
    pub starting_game_state: crate::state::GameState,
    pub nodes: Vec<NodeSnapshot>,
}

/// What a `CFRStateSnapshot` observably is.
#[verifier::ext_equal]
pub ghost struct CFRStateSnapshotView {
    pub starting: GameStateView,
    pub nodes: Seq<NodeSnapshotView>,
}

impl View for CFRStateSnapshot {
    type V = CFRStateSnapshotView;

    open spec fn view(&self) -> CFRStateSnapshotView {
        CFRStateSnapshotView {
            starting: self.starting_game_state@,
            nodes: self.nodes@.map_values(|n: NodeSnapshot| n@),
        }
    }
}

/// The durable form of a whole store: the ordered tree sequence and the
/// ordered per-player cursor stacks.
pub struct StateStoreSnapshot {
    pub cfr_states: Vec<CFRStateSnapshot>,
    pub traversal_states: Vec<Vec<TraversalState>>,
}

/// What a `StateStoreSnapshot` observably is.
#[verifier::ext_equal]
pub ghost struct StateStoreSnapshotView {
    pub trees: Seq<CFRStateSnapshotView>,
    pub stacks: Seq<Seq<TraversalState>>,
}

impl View for StateStoreSnapshot {
    type V = StateStoreSnapshotView;

    open spec fn view(&self) -> StateStoreSnapshotView {
        StateStoreSnapshotView {
            trees: self.cfr_states@.map_values(|t: CFRStateSnapshot| t@),
            stacks: self.traversal_states@.map_values(|v: Vec<TraversalState>| v@),
        }
    }
}

/// The durable form of a node payload: a player node keeps only its player
/// identity.
pub open spec fn snap_of_data(d: NodeDataView) -> NodeDataSnapshot {
    match d {
        NodeDataView::Root => NodeDataSnapshot::Root,
        NodeDataView::Chance => NodeDataSnapshot::Chance,
        NodeDataView::Player(p) => NodeDataSnapshot::Player(
            PlayerDataSnapshot { player_idx: p.player_idx },
        ),
        NodeDataView::Terminal(t) => NodeDataSnapshot::Terminal(t),
    }
}

/// The payload read back from its durable form: a player node comes back
/// with no matcher attached.
pub open spec fn data_of_snap(d: NodeDataSnapshot) -> NodeDataView {
    match d {
        NodeDataSnapshot::Root => NodeDataView::Root,
        NodeDataSnapshot::Chance => NodeDataView::Chance,
        NodeDataSnapshot::Player(p) => NodeDataView::Player(
            PlayerDataView { has_matcher: false, player_idx: p.player_idx },
        ),
        NodeDataSnapshot::Terminal(t) => NodeDataView::Terminal(t),
    }
}

/// A payload with its transient part dropped: what a snapshot round trip
/// preserves of it.
pub open spec fn persisted_data(d: NodeDataView) -> NodeDataView {
    match d {
        NodeDataView::Player(p) => NodeDataView::Player(
            PlayerDataView { has_matcher: false, player_idx: p.player_idx },
        ),
        _ => d,
    }
}

/// A variable-length edge sequence re-padded to the full table width:
/// unwritten tail entries are unoccupied, entries beyond the width dropped.
pub open spec fn padded_children(s: Seq<Option<usize>>) -> Seq<Option<usize>> {
    Seq::new(NUM_EDGES as nat, |i: int| if i < s.len() { s[i] } else { None })
}

/// A variable-length counter sequence re-padded to the full table width.
pub open spec fn padded_counts(s: Seq<u32>) -> Seq<u32> {
    Seq::new(NUM_EDGES as nat, |i: int| if i < s.len() { s[i] } else { 0u32 })
}

/// The durable form of a node.
pub open spec fn snap_of_node(n: NodeView) -> NodeSnapshotView {
    NodeSnapshotView {
        idx: n.idx,
        data: snap_of_data(n.data),
        parent: n.parent,
        parent_child_idx: n.parent_child_idx,
        children: n.children,
        count: n.count,
    }
}

/// The node read back from its durable form, tables re-padded to full width.
pub open spec fn node_of_snap(s: NodeSnapshotView) -> NodeView {
    NodeView {
        idx: s.idx,
        data: data_of_snap(s.data),
        parent: s.parent,
        parent_child_idx: s.parent_child_idx,
        children: padded_children(s.children),
        count: padded_counts(s.count),
    }
}

/// A node with its transient part dropped: what a snapshot round trip
/// preserves of it.
pub open spec fn persisted_node(n: NodeView) -> NodeView {
    NodeView { data: persisted_data(n.data), ..n }
}

/// The durable form of one tree.
pub open spec fn snap_of_tree(t: CFRStateView) -> CFRStateSnapshotView {
    CFRStateSnapshotView {
        starting: t.starting,
        nodes: t.nodes.map_values(|n: NodeView| snap_of_node(n)),
    }
}

/// The tree read back from its durable form.
pub open spec fn tree_of_snap(s: CFRStateSnapshotView) -> CFRStateView {
    CFRStateView {
        starting: s.starting,
        nodes: s.nodes.map_values(|n: NodeSnapshotView| node_of_snap(n)),
    }
}

/// A tree with every node's transient part dropped.
pub open spec fn persisted_tree(t: CFRStateView) -> CFRStateView {
    CFRStateView { starting: t.starting, nodes: t.nodes.map_values(|n: NodeView| persisted_node(n)) }
}

/// The durable form of a whole store. Cursor stacks are durable as they are.
pub open spec fn snap_of_store(v: StateStoreView) -> StateStoreSnapshotView {
    StateStoreSnapshotView {
        trees: v.trees.map_values(|t: CFRStateView| snap_of_tree(t)),
        stacks: v.stacks,
    }
}

/// The store read back from its durable form.
pub open spec fn store_of_snap(s: StateStoreSnapshotView) -> StateStoreView {
    StateStoreView {
        trees: s.trees.map_values(|t: CFRStateSnapshotView| tree_of_snap(t)),
        stacks: s.stacks,
    }
}

/// A store with every matcher dropped: what a snapshot round trip preserves.
pub open spec fn persisted_store(v: StateStoreView) -> StateStoreView {
    StateStoreView { trees: v.trees.map_values(|t: CFRStateView| persisted_tree(t)), stacks: v.stacks }
}

/// Law: a node payload survives a snapshot round trip unchanged, except
/// that an attached regret matcher is dropped while the player identity is
/// kept exactly.
pub proof fn lemma_data_roundtrip(d: NodeDataView)
    ensures
        data_of_snap(snap_of_data(d)) == persisted_data(d),
{
}

/// Law: a well-formed node survives a snapshot round trip unchanged, except
/// that an attached regret matcher is dropped.
pub proof fn lemma_node_roundtrip(n: NodeView)
    requires
        n.wf(),
    ensures
        node_of_snap(snap_of_node(n)) == persisted_node(n),
{
    assert(padded_children(n.children) =~= n.children);
    assert(padded_counts(n.count) =~= n.count);
    assert(node_of_snap(snap_of_node(n)) =~= persisted_node(n));
}

/// Law: a well-formed tree survives a snapshot round trip unchanged, except
/// that the regret matchers of its player nodes are dropped; in particular
/// its starting configuration is kept exactly.
pub proof fn lemma_tree_roundtrip(t: CFRStateView)
    requires
        t.wf(),
    ensures
        tree_of_snap(snap_of_tree(t)) == persisted_tree(t),
{
    assert forall|i: int| 0 <= i < t.nodes.len() implies tree_of_snap(snap_of_tree(t)).nodes[i]
        == persisted_tree(t).nodes[i] by {
        lemma_node_roundtrip(t.nodes[i]);
    }
    assert(tree_of_snap(snap_of_tree(t)) =~= persisted_tree(t));
}

/// Law: a well-formed store survives a snapshot round trip unchanged, except
/// that every regret matcher is dropped. The read-back store holds the same
/// number of trees, each with the exact starting configuration, node layout
/// and counters it was written with, and the exact cursor stacks.
pub proof fn lemma_store_roundtrip(v: StateStoreView)
    requires
        v.wf(),
    ensures
        store_of_snap(snap_of_store(v)) == persisted_store(v),
{
    assert forall|i: int| 0 <= i < v.trees.len() implies store_of_snap(snap_of_store(v)).trees[i]
        == persisted_store(v).trees[i] by {
        lemma_tree_roundtrip(v.trees[i]);
    }
    assert(store_of_snap(snap_of_store(v)) =~= persisted_store(v));
}

} // verus!
