//! The per-tree state: the immutable starting game configuration, the node
//! arena that grows from it, and the traversal cursor used to suspend and
//! resume a tree walk.

use vstd::prelude::*;

use crate::node::{root_node_view, Node, NodeView};
use crate::snapshot::{snap_of_tree, tree_of_snap, CFRStateSnapshot, NodeSnapshot,
    NodeSnapshotView};

verus! {

/// The immutable starting configuration of one game tree: the chip stacks,
/// the forced bets and the first player to act.
///
/// The tree core stores and returns this value verbatim and never computes
/// with the amounts. Each amount is an `f32` stored as its IEEE 754 bit
/// pattern, so that the core itself never touches floating point; callers
/// convert at the boundary.
#[derive(Debug)]
pub struct GameState {
    pub stacks_bits: Vec<u32>,
    pub big_blind_bits: u32,
    pub small_blind_bits: u32,
    pub ante_bits: u32,
    pub dealer_idx: usize,
}

/// What a `GameState` observably is.
#[verifier::ext_equal]
pub ghost struct GameStateView {
    pub stacks_bits: Seq<u32>,
    pub big_blind_bits: u32,
    pub small_blind_bits: u32,
    pub ante_bits: u32,
    pub dealer_idx: usize,
}

impl View for GameState {
    type V = GameStateView;

    open spec fn view(&self) -> GameStateView {
        GameStateView {
            stacks_bits: self.stacks_bits@,
            big_blind_bits: self.big_blind_bits,
            small_blind_bits: self.small_blind_bits,
            ante_bits: self.ante_bits,
            dealer_idx: self.dealer_idx,
        }
    }
}

impl GameState {
    /// A starting configuration from its parts.
    pub fn new_starting(
        stacks_bits: Vec<u32>,
        big_blind_bits: u32,
        small_blind_bits: u32,
        ante_bits: u32,
        dealer_idx: usize,
    ) -> (r: Self)
        ensures
            r@ == (GameStateView {
                stacks_bits: stacks_bits@,
                big_blind_bits,
                small_blind_bits,
                ante_bits,
                dealer_idx,
            }),
    {
        GameState { stacks_bits, big_blind_bits, small_blind_bits, ante_bits, dealer_idx }
    }
}

impl Clone for GameState {
    fn clone(&self) -> (res: Self)
        ensures
            res@ == self@,
    {
        let mut stacks_bits: Vec<u32> = Vec::new();
        let mut i: usize = 0;
        while i < self.stacks_bits.len()
            invariant
                i <= self.stacks_bits@.len(),
                stacks_bits@ == self.stacks_bits@.take(i as int),
            decreases self.stacks_bits@.len() - i,
        {
            proof {
                assert(self.stacks_bits@.take(i + 1int) =~= self.stacks_bits@.take(
                    i as int,
                ).push(self.stacks_bits@[i as int]));
            }
            stacks_bits.push(self.stacks_bits[i]);
            i = i + 1;
        }
        proof {
            assert(self.stacks_bits@.take(self.stacks_bits@.len() as int) =~= self.stacks_bits@);
        }
        GameState {
            stacks_bits,
            big_blind_bits: self.big_blind_bits,
            small_blind_bits: self.small_blind_bits,
            ante_bits: self.ante_bits,
            dealer_idx: self.dealer_idx,
        }
    }
}

impl PartialEq for GameState {
    fn eq(&self, other: &Self) -> (r: bool)
    {
        if self.big_blind_bits != other.big_blind_bits
            || self.small_blind_bits != other.small_blind_bits
            || self.ante_bits != other.ante_bits
            || self.dealer_idx != other.dealer_idx
            || self.stacks_bits.len() != other.stacks_bits.len() {
            return false;
        }
        let mut i: usize = 0;
        while i < self.stacks_bits.len()
            invariant
                i <= self.stacks_bits@.len(),
                self.stacks_bits@.len() == other.stacks_bits@.len(),
                forall|j: int| 0 <= j < i ==> self.stacks_bits@[j] == other.stacks_bits@[j],
            decreases self.stacks_bits@.len() - i,
        {
            if self.stacks_bits[i] != other.stacks_bits[i] {
                return false;
            }
            i = i + 1;
        }
        proof {
            assert(self.stacks_bits@ =~= other.stacks_bits@);
        }
        true
    }
}

impl vstd::std_specs::cmp::PartialEqSpecImpl for GameState {
    open spec fn obeys_eq_spec() -> bool {
        true
    }

    open spec fn eq_spec(&self, other: &Self) -> bool {
        self@ == other@
    }
}

impl Eq for GameState {}

/// A point-in-time traversal cursor: the node a walk stands on, the child
/// edge it has chosen, and the player whose walk this is. Copyable and
/// compared by value.
#[derive(Clone, Copy, Debug, PartialEq, Eq, Structural)]
pub struct TraversalState {
    pub node_idx: usize,
    pub chosen_child_idx: usize,
    pub player_idx: usize,
}

impl TraversalState {
    pub fn new(node_idx: usize, chosen_child_idx: usize, player_idx: usize) -> (r: Self)
        ensures
            r == (TraversalState { node_idx, chosen_child_idx, player_idx }),
    {
        TraversalState { node_idx, chosen_child_idx, player_idx }
    }

    /// The permanent restart cursor for a player: standing on the root, edge
    /// 0 chosen.
    pub fn new_root(player_idx: usize) -> (r: Self)
        ensures
            r == (TraversalState { node_idx: 0, chosen_child_idx: 0, player_idx }),
    {
        TraversalState::new(0, 0, player_idx)
    }

    pub fn node_idx(&self) -> (r: usize)
        ensures
            r == self.node_idx,
    {
        self.node_idx
    }

    pub fn chosen_child_idx(&self) -> (r: usize)
        ensures
            r == self.chosen_child_idx,
    {
        self.chosen_child_idx
    }

    pub fn player_idx(&self) -> (r: usize)
        ensures
            r == self.player_idx,
    {
        self.player_idx
    }
}

/// The root cursor seeded for `player_idx`, as a spec value.
pub open spec fn root_cursor(player_idx: usize) -> TraversalState {
    TraversalState { node_idx: 0, chosen_child_idx: 0, player_idx }
}

/// One CFR tree: the starting configuration it was opened with and the node
/// arena grown from it. Immutable after construction except for arena growth
/// and write-once edge linking through `Node` operations.
#[derive(Debug)]
pub struct CFRState {
    starting_game_state: GameState,
    nodes: Vec<Node>,
}

/// What a `CFRState` observably is.
#[verifier::ext_equal]
pub ghost struct CFRStateView {
    pub starting: GameStateView,
    pub nodes: Seq<NodeView>,
}

impl View for CFRState {
    type V = CFRStateView;

    closed spec fn view(&self) -> CFRStateView {
        CFRStateView {
            starting: self.starting_game_state@,
            nodes: self.nodes@.map_values(|n: Node| n@),
        }
    }
}

/// The arena a fresh tree starts with: exactly the root node.
pub open spec fn fresh_tree_view(starting: GameStateView) -> CFRStateView {
    CFRStateView { starting, nodes: seq![root_node_view()] }
}

impl CFRStateView {
    /// Every node of the arena has full-width edge and counter tables.
    pub open spec fn wf(self) -> bool {
        forall|i: int| 0 <= i < self.nodes.len() ==> (#[trigger] self.nodes[i]).wf()
    }
}

impl CFRState {
    /// Every node of the arena has full-width edge and counter tables.
    pub open spec fn wf(&self) -> bool {
        self@.wf()
    }

    /// A fresh tree over the given starting configuration, holding only the
    /// root node.
    pub fn new(game_state: GameState) -> (r: Self)
        ensures
            r.wf(),
            r@ == fresh_tree_view(game_state@),
    {
        let root = Node::new_root();
        let mut nodes: Vec<Node> = Vec::new();
        nodes.push(root);
        let r = CFRState { starting_game_state: game_state, nodes };
        proof {
            assert(r@.nodes =~= seq![root_node_view()]);
        }
        r
    }

    /// The node at arena position `idx`, if the arena reaches that far.
    pub fn get(&self, idx: usize) -> (r: Option<&Node>)
        ensures
            match r {
                Some(n) => idx < self@.nodes.len() && n@ == self@.nodes[idx as int],
                None => idx >= self@.nodes.len(),
            },
    {
        if idx < self.nodes.len() {
            Some(&self.nodes[idx])
        } else {
            None
        }
    }

    /// A copy of the starting configuration this tree was opened with.
    pub fn starting_game_state(&self) -> (r: GameState)
        ensures
            r@ == self@.starting,
    {
        self.starting_game_state.clone()
    }

    /// The durable form of this tree: its starting configuration and every
    /// node's durable form, in arena order.
    pub fn to_snapshot(&self) -> (s: CFRStateSnapshot)
        ensures
            s@ == snap_of_tree(self@),
    {
        let mut nodes: Vec<NodeSnapshot> = Vec::new();
        let mut i: usize = 0;
        while i < self.nodes.len()
            invariant
                i <= self.nodes@.len(),
                nodes@.map_values(|n: NodeSnapshot| n@) == self.nodes@.take(i as int).map_values(
                    |n: Node| crate::snapshot::snap_of_node(n@),
                ),
            decreases self.nodes@.len() - i,
        {
            proof {
                assert(self.nodes@.take(i + 1int).map_values(
                    |n: Node| crate::snapshot::snap_of_node(n@),
                ) =~= self.nodes@.take(i as int).map_values(
                    |n: Node| crate::snapshot::snap_of_node(n@),
                ).push(crate::snapshot::snap_of_node(self.nodes@[i as int]@)));
            }
            nodes.push(self.nodes[i].to_snapshot());
            proof {
                assert(nodes@.map_values(|n: NodeSnapshot| n@) =~= self.nodes@.take(
                    i + 1int,
                ).map_values(|n: Node| crate::snapshot::snap_of_node(n@)));
            }
            i = i + 1;
        }
        let s = CFRStateSnapshot { starting_game_state: self.starting_game_state.clone(), nodes };
        proof {
            assert(self.nodes@.take(self.nodes@.len() as int) =~= self.nodes@);
            assert(self.nodes@.map_values(|n: Node| crate::snapshot::snap_of_node(n@))
                =~= self@.nodes.map_values(|n: NodeView| crate::snapshot::snap_of_node(n)));
            assert(s@ =~= snap_of_tree(self@));
        }
        s
    }

    /// The tree read back from its durable form: every node re-padded to
    /// full width, every matcher absent.
    pub fn from_snapshot(s: &CFRStateSnapshot) -> (r: Self)
        ensures
            r.wf(),
            r@ == tree_of_snap(s@),
    {
        let mut nodes: Vec<Node> = Vec::new();
        let mut i: usize = 0;
        while i < s.nodes.len()
            invariant
                i <= s.nodes@.len(),
                nodes@.map_values(|n: Node| n@) == s.nodes@.take(i as int).map_values(
                    |n: NodeSnapshot| crate::snapshot::node_of_snap(n@),
                ),
                forall|j: int| 0 <= j < nodes@.len() ==> (#[trigger] nodes@[j]).wf(),
            decreases s.nodes@.len() - i,
        {
            proof {
                assert(s.nodes@.take(i + 1int).map_values(
                    |n: NodeSnapshot| crate::snapshot::node_of_snap(n@),
                ) =~= s.nodes@.take(i as int).map_values(
                    |n: NodeSnapshot| crate::snapshot::node_of_snap(n@),
                ).push(crate::snapshot::node_of_snap(s.nodes@[i as int]@)));
            }
            nodes.push(Node::from_snapshot(&s.nodes[i]));
            proof {
                assert(nodes@.map_values(|n: Node| n@) =~= s.nodes@.take(i + 1int).map_values(
                    |n: NodeSnapshot| crate::snapshot::node_of_snap(n@),
                ));
            }
            i = i + 1;
        }
        let r = CFRState { starting_game_state: s.starting_game_state.clone(), nodes };
        proof {
            assert(s.nodes@.take(s.nodes@.len() as int) =~= s.nodes@);
            assert(s.nodes@.map_values(|n: NodeSnapshot| crate::snapshot::node_of_snap(n@))
                =~= s@.nodes.map_values(|n: NodeSnapshotView| crate::snapshot::node_of_snap(n)));
            assert(r@ =~= tree_of_snap(s@));
        }
        r
    }
}

impl Clone for CFRState {
    fn clone(&self) -> (res: Self)
        ensures
            res@ == self@,
    {
        let mut nodes: Vec<Node> = Vec::new();
        let mut i: usize = 0;
        while i < self.nodes.len()
            invariant
                i <= self.nodes@.len(),
                nodes@.map_values(|n: Node| n@) == self.nodes@.take(i as int).map_values(
                    |n: Node| n@,
                ),
            decreases self.nodes@.len() - i,
        {
            proof {
                assert(self.nodes@.take(i + 1int).map_values(|n: Node| n@) =~= self.nodes@.take(
                    i as int,
                ).map_values(|n: Node| n@).push(self.nodes@[i as int]@));
            }
            nodes.push(self.nodes[i].clone());
            proof {
                assert(nodes@.map_values(|n: Node| n@) =~= self.nodes@.take(i + 1int).map_values(
                    |n: Node| n@,
                ));
            }
            i = i + 1;
        }
        proof {
            assert(self.nodes@.take(self.nodes@.len() as int) =~= self.nodes@);
        }
        let res = CFRState { starting_game_state: self.starting_game_state.clone(), nodes };
        proof {
            assert(res@ =~= self@);
        }
        res
    }
}

} // verus!
