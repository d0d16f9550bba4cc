//! A single tree vertex of the CFR game tree: a fixed-capacity edge table, a
//! visit counter per edge, and a variant payload for root, chance, player and
//! terminal vertices.

use vstd::prelude::*;

use crate::snapshot::{node_of_snap, snap_of_data, snap_of_node, data_of_snap, NodeDataSnapshot,
    NodeSnapshot, PlayerDataSnapshot};

verus! {

/// Width of a node's edge table. Edge labels are card identifiers for chance
/// nodes and action identifiers for player nodes; both alphabets are capped at
/// this size.
pub const NUM_EDGES: usize = 52;

/// Per-decision-point payload: an optionally attached regret-matching
/// capability and the identity of the player who acts here.
///
/// The matcher is transient: it is never persisted, and is absent after a
/// snapshot round trip. Only `player_idx` is durable.
#[derive(Debug)]
pub struct PlayerData {
    pub regret_matcher: Option<Box<little_sorry::RegretMatcher>>,
    pub player_idx: usize,
}

/// The regret-matching capability attached to player nodes. The tree core
/// never looks inside it; it only holds, clones and drops it.
#[verifier::external_type_specification]
#[verifier::external_body]
pub struct ExRegretMatcher(little_sorry::CfrPlusRegretMatcher);

/// What a `PlayerData` value observably is: whether a matcher is attached,
/// and the player identity.
pub ghost struct PlayerDataView {
    pub has_matcher: bool,
    pub player_idx: usize,
}

impl View for PlayerData {
    type V = PlayerDataView;

    open spec fn view(&self) -> PlayerDataView {
        PlayerDataView {
            has_matcher: self.regret_matcher is Some,
            player_idx: self.player_idx,
        }
    }
}

/// Relies on `little_sorry::CfrPlusRegretMatcher`'s derived `Clone`
/// (through the `Clone` impls of `Option` and `Box`): cloning yields an
/// attached matcher exactly when one was attached.
#[verifier::external_body]
fn clone_regret_matcher(
    m: &Option<Box<little_sorry::RegretMatcher>>,
) -> (r: Option<Box<little_sorry::RegretMatcher>>)
    ensures
        r is Some <==> m is Some,
{
    m.clone()
}

impl Clone for PlayerData {
    fn clone(&self) -> (res: Self)
        ensures
            res@ == self@,
    {
        PlayerData {
            regret_matcher: clone_regret_matcher(&self.regret_matcher),
            player_idx: self.player_idx,
        }
    }
}

/// Aggregate payoff at a leaf. The amount is an `f32` stored as its IEEE 754
/// bit pattern, so that the tree core itself never performs floating-point
/// arithmetic; callers convert at the boundary.
#[derive(Clone, Copy, Debug, PartialEq, Eq, Structural)]
pub struct TerminalData {
    pub total_utility_bits: u32,
}

impl TerminalData {
    pub fn new(total_utility_bits: u32) -> (r: Self)
        ensures
            r.total_utility_bits == total_utility_bits,
    {
        TerminalData { total_utility_bits }
    }
}

impl Default for TerminalData {
    fn default() -> (r: Self)
        ensures
            r.total_utility_bits == 0,
    {
        TerminalData::new(0)
    }
}

/// Variant payload of a tree vertex.
#[derive(Debug)]
pub enum NodeData {
    /// The unique game-start vertex, always at arena position 0. Traversals
    /// begin here and follow child edges for the first real event.
    Root,
    /// One dealing event; each edge label is a card identifier, and the edge
    /// counter records how often that card has been dealt along this edge.
    Chance,
    /// One decision point for one player; each edge label is an action
    /// identifier.
    Player(PlayerData),
    /// A leaf carrying the payoff of the hand. A terminal node has no real
    /// outgoing edges; edge 0 is a reserved bookkeeping slot.
    Terminal(TerminalData),
}

/// What a `NodeData` value observably is.
pub ghost enum NodeDataView {
    Root,
    Chance,
    Player(PlayerDataView),
    Terminal(TerminalData),
}

impl View for NodeData {
    type V = NodeDataView;

    open spec fn view(&self) -> NodeDataView {
        match self {
            NodeData::Root => NodeDataView::Root,
            NodeData::Chance => NodeDataView::Chance,
            NodeData::Player(pd) => NodeDataView::Player(pd@),
            NodeData::Terminal(td) => NodeDataView::Terminal(*td),
        }
    }
}

impl NodeData {
    pub fn is_terminal(&self) -> (r: bool)
        ensures
            r == (self@ is Terminal),
    {
        matches!(self, NodeData::Terminal(_))
    }

    pub fn is_chance(&self) -> (r: bool)
        ensures
            r == (self@ is Chance),
    {
        matches!(self, NodeData::Chance)
    }

    pub fn is_player(&self) -> (r: bool)
        ensures
            r == (self@ is Player),
    {
        matches!(self, NodeData::Player(_))
    }

    pub fn is_root(&self) -> (r: bool)
        ensures
            r == (self@ is Root),
    {
        matches!(self, NodeData::Root)
    }

    /// The variant's name, for diagnostics and display.
    pub fn variant_name(&self) -> (r: &'static str)
        ensures
            self@ is Root ==> r@ == "Root"@,
            self@ is Chance ==> r@ == "Chance"@,
            self@ is Player ==> r@ == "Player"@,
            self@ is Terminal ==> r@ == "Terminal"@,
    {
        match self {
            NodeData::Root => "Root",
            NodeData::Chance => "Chance",
            NodeData::Player(_) => "Player",
            NodeData::Terminal(_) => "Terminal",
        }
    }
}

impl Clone for NodeData {
    fn clone(&self) -> (res: Self)
        ensures
            res@ == self@,
    {
        match self {
            NodeData::Root => NodeData::Root,
            NodeData::Chance => NodeData::Chance,
            NodeData::Player(pd) => NodeData::Player(pd.clone()),
            NodeData::Terminal(td) => NodeData::Terminal(*td),
        }
    }
}

/// What a `Node` observably is: its position, payload, parent link, and the
/// full edge and counter tables.
#[verifier::ext_equal]
pub ghost struct NodeView {
    pub idx: usize,
    pub data: NodeDataView,
    pub parent: Option<usize>,
    pub parent_child_idx: Option<usize>,
    pub children: Seq<Option<usize>>,
    pub count: Seq<u32>,
}

/// An edge table with every slot unoccupied.
pub open spec fn empty_children() -> Seq<Option<usize>> {
    Seq::new(NUM_EDGES as nat, |i: int| None::<usize>)
}

/// A counter table with every counter at zero.
pub open spec fn zero_counts() -> Seq<u32> {
    Seq::new(NUM_EDGES as nat, |i: int| 0u32)
}

/// The unique self-parented root vertex as a fresh arena begins with it.
pub open spec fn root_node_view() -> NodeView {
    NodeView {
        idx: 0,
        data: NodeDataView::Root,
        parent: Some(0),
        parent_child_idx: None,
        children: empty_children(),
        count: zero_counts(),
    }
}

/// A single tree vertex.
///
/// `idx` is the node's position in its arena and is stable for its lifetime.
/// The root is self-parented (`parent == Some(0)`); every other node records
/// the parent index and the edge label through which it was reached.
///
/// The edge table is fixed at [`NUM_EDGES`] slots: the label is the slot
/// index, giving constant-time lookup and node-local layout at the cost of a
/// fixed per-node footprint. A slot, once occupied, is never overwritten.
#[derive(Debug)]
pub struct Node {
    pub idx: usize,
    pub data: NodeData,
    pub parent: Option<usize>,
    pub parent_child_idx: Option<usize>,
    children: Vec<Option<usize>>,
    count: Vec<u32>,
}

impl View for Node {
    type V = NodeView;

    closed spec fn view(&self) -> NodeView {
        NodeView {
            idx: self.idx,
            data: self.data@,
            parent: self.parent,
            parent_child_idx: self.parent_child_idx,
            children: self.children@,
            count: self.count@,
        }
    }
}

impl NodeView {
    /// Both tables span the full edge alphabet.
    pub open spec fn wf(self) -> bool {
        self.children.len() == NUM_EDGES && self.count.len() == NUM_EDGES
    }
}

impl Node {
    /// Both tables span the full edge alphabet.
    pub open spec fn wf(&self) -> bool {
        self@.wf()
    }

    /// The unique self-parented root at arena position 0.
    pub fn new_root() -> (n: Self)
        ensures
            n.wf(),
            n@ == root_node_view(),
    {
        Node {
            idx: 0,
            data: NodeData::Root,
            parent: Some(0),
            parent_child_idx: None,
            children: unoccupied_row(),
            count: zero_row(),
        }
    }

    /// A non-root node with the given position, parent and payload. The node
    /// is not registered into any arena; insertion and edge-linking are the
    /// caller's responsibility.
    pub fn new(idx: usize, parent: usize, parent_child_idx: usize, data: NodeData) -> (n: Self)
        ensures
            n.wf(),
            n@ == (NodeView {
                idx,
                data: data@,
                parent: Some(parent),
                parent_child_idx: Some(parent_child_idx),
                children: empty_children(),
                count: zero_counts(),
            }),
    {
        Node {
            idx,
            data,
            parent: Some(parent),
            parent_child_idx: Some(parent_child_idx),
            children: unoccupied_row(),
            count: zero_row(),
        }
    }

    /// Link the edge `idx` to the node at arena position `child`. Edges are
    /// write-once: the slot must still be unoccupied.
    pub fn set_child(&mut self, idx: usize, child: usize)
        requires
            old(self).wf(),
            idx < NUM_EDGES,
            old(self)@.children[idx as int] is None,
        ensures
            final(self).wf(),
            final(self)@ == (NodeView {
                children: old(self)@.children.update(idx as int, Some(child)),
                ..old(self)@
            }),
    {
        self.children[idx] = Some(child);
    }

    /// The neighbour reached over edge `idx`, if that edge has been linked.
    pub fn get_child(&self, idx: usize) -> (r: Option<usize>)
        requires
            self.wf(),
            idx < NUM_EDGES,
        ensures
            r == self@.children[idx as int],
    {
        self.children[idx]
    }

    /// Count one more visit over edge `idx`. On a terminal node only the
    /// reserved bookkeeping slot 0 may be counted.
    pub fn increment_count(&mut self, idx: usize)
        requires
            old(self).wf(),
            idx < NUM_EDGES,
            idx == 0 || !(old(self)@.data is Terminal),
            old(self)@.count[idx as int] < u32::MAX,
        ensures
            final(self).wf(),
            final(self)@ == (NodeView {
                count: old(self)@.count.update(
                    idx as int,
                    (old(self)@.count[idx as int] + 1) as u32,
                ),
                ..old(self)@
            }),
    {
        let c = self.count[idx];
        self.count[idx] = c + 1;
    }

    /// The occupied edges of a table, in ascending edge-label order, each
    /// paired with the neighbour it links to.
    pub open spec fn child_pairs(s: Seq<Option<usize>>) -> Seq<(usize, usize)>
        decreases s.len(),
    {
        if s.len() == 0 {
            Seq::empty()
        } else {
            Self::child_pairs(s.drop_last()) + match s.last() {
                Some(c) => seq![(((s.len() - 1) as usize), c)],
                None => Seq::empty(),
            }
        }
    }

    /// All occupied edges with their neighbours, in ascending edge-label
    /// order. Meant for diagnostics and visualisation, not hot-path
    /// traversal.
    pub fn iter_children(&self) -> (r: Vec<(usize, usize)>)
        requires
            self.wf(),
        ensures
            r@ == Self::child_pairs(self@.children),
    {
        let mut r: Vec<(usize, usize)> = Vec::new();
        let mut i: usize = 0;
        while i < NUM_EDGES
            invariant
                self.wf(),
                i <= NUM_EDGES,
                r@ == Self::child_pairs(self@.children.take(i as int)),
            decreases NUM_EDGES - i,
        {
            proof {
                assert(self@.children.take(i + 1int).drop_last() =~= self@.children.take(
                    i as int,
                ));
                assert(self@.children.take(i + 1int).last() == self@.children[i as int]);
            }
            if let Some(c) = self.children[i] {
                r.push((i, c));
            }
            i = i + 1;
        }
        proof {
            assert(self@.children.take(NUM_EDGES as int) =~= self@.children);
        }
        r
    }

    /// The number of visits counted over edge `idx`.
    pub fn get_count(&self, idx: usize) -> (r: u32)
        requires
            self.wf(),
            idx < NUM_EDGES,
        ensures
            r == self@.count[idx as int],
    {
        self.count[idx]
    }
}

impl PlayerData {
    /// The durable form of this payload: the player identity alone; the
    /// matcher is written as absent.
    pub fn to_snapshot(&self) -> (s: PlayerDataSnapshot)
        ensures
            s == (PlayerDataSnapshot { player_idx: self@.player_idx }),
    {
        PlayerDataSnapshot { player_idx: self.player_idx }
    }

    /// The payload read back from its durable form: no matcher attached
    /// until the caller reattaches one.
    pub fn from_snapshot(s: &PlayerDataSnapshot) -> (r: Self)
        ensures
            r@ == (PlayerDataView { has_matcher: false, player_idx: s.player_idx }),
    {
        PlayerData { regret_matcher: None, player_idx: s.player_idx }
    }
}

impl NodeData {
    /// The durable form of this payload.
    pub fn to_snapshot(&self) -> (s: NodeDataSnapshot)
        ensures
            s == snap_of_data(self@),
    {
        match self {
            NodeData::Root => NodeDataSnapshot::Root,
            NodeData::Chance => NodeDataSnapshot::Chance,
            NodeData::Player(pd) => NodeDataSnapshot::Player(pd.to_snapshot()),
            NodeData::Terminal(td) => NodeDataSnapshot::Terminal(*td),
        }
    }

    /// The payload read back from its durable form: a player node comes
    /// back with no matcher attached.
    pub fn from_snapshot(s: &NodeDataSnapshot) -> (r: Self)
        ensures
            r@ == data_of_snap(*s),
    {
        match s {
            NodeDataSnapshot::Root => NodeData::Root,
            NodeDataSnapshot::Chance => NodeData::Chance,
            NodeDataSnapshot::Player(pd) => NodeData::Player(PlayerData::from_snapshot(pd)),
            NodeDataSnapshot::Terminal(td) => NodeData::Terminal(*td),
        }
    }
}

impl Node {
    /// The durable form of this node: both tables written out in full as
    /// variable-length sequences, the matcher written as absent.
    pub fn to_snapshot(&self) -> (s: NodeSnapshot)
        ensures
            s@ == snap_of_node(self@),
    {
        NodeSnapshot {
            idx: self.idx,
            data: self.data.to_snapshot(),
            parent: self.parent,
            parent_child_idx: self.parent_child_idx,
            children: copy_option_row(&self.children),
            count: copy_count_row(&self.count),
        }
    }

    /// The node read back from its durable form, both tables re-padded to
    /// the full edge alphabet: unwritten tail entries are unoccupied or
    /// zero, entries beyond the width dropped.
    pub fn from_snapshot(s: &NodeSnapshot) -> (n: Self)
        ensures
            n.wf(),
            n@ == node_of_snap(s@),
    {
        let mut children: Vec<Option<usize>> = Vec::new();
        let mut i: usize = 0;
        while i < NUM_EDGES
            invariant
                i <= NUM_EDGES,
                children@.len() == i,
                forall|j: int|
                    0 <= j < i ==> children@[j] == (if j < s.children@.len() {
                        s.children@[j]
                    } else {
                        None::<usize>
                    }),
            decreases NUM_EDGES - i,
        {
            if i < s.children.len() {
                children.push(s.children[i]);
            } else {
                children.push(None);
            }
            i = i + 1;
        }
        let mut count: Vec<u32> = Vec::new();
        let mut k: usize = 0;
        while k < NUM_EDGES
            invariant
                k <= NUM_EDGES,
                count@.len() == k,
                forall|j: int|
                    0 <= j < k ==> count@[j] == (if j < s.count@.len() {
                        s.count@[j]
                    } else {
                        0u32
                    }),
            decreases NUM_EDGES - k,
        {
            if k < s.count.len() {
                count.push(s.count[k]);
            } else {
                count.push(0);
            }
            k = k + 1;
        }
        let n = Node {
            idx: s.idx,
            data: NodeData::from_snapshot(&s.data),
            parent: s.parent,
            parent_child_idx: s.parent_child_idx,
            children,
            count,
        };
        proof {
            assert(n@.children =~= crate::snapshot::padded_children(s@.children));
            assert(n@.count =~= crate::snapshot::padded_counts(s@.count));
            assert(n@ =~= node_of_snap(s@));
        }
        n
    }
}

impl Clone for Node {
    fn clone(&self) -> (res: Self)
        ensures
            res@ == self@,
    {
        Node {
            idx: self.idx,
            data: self.data.clone(),
            parent: self.parent,
            parent_child_idx: self.parent_child_idx,
            children: copy_option_row(&self.children),
            count: copy_count_row(&self.count),
        }
    }
}

/// An element-for-element copy of an edge table.
fn copy_option_row(v: &Vec<Option<usize>>) -> (r: Vec<Option<usize>>)
    ensures
        r@ == v@,
{
    let mut r: Vec<Option<usize>> = Vec::new();
    let mut i: usize = 0;
    while i < v.len()
        invariant
            i <= v@.len(),
            r@ == v@.take(i as int),
        decreases v@.len() - i,
    {
        proof {
            assert(v@.take(i + 1int) =~= v@.take(i as int).push(v@[i as int]));
        }
        r.push(v[i]);
        i = i + 1;
    }
    proof {
        assert(v@.take(v@.len() as int) =~= v@);
    }
    r
}

/// An element-for-element copy of a counter table.
fn copy_count_row(v: &Vec<u32>) -> (r: Vec<u32>)
    ensures
        r@ == v@,
{
    let mut r: Vec<u32> = Vec::new();
    let mut i: usize = 0;
    while i < v.len()
        invariant
            i <= v@.len(),
            r@ == v@.take(i as int),
        decreases v@.len() - i,
    {
        proof {
            assert(v@.take(i + 1int) =~= v@.take(i as int).push(v@[i as int]));
        }
        r.push(v[i]);
        i = i + 1;
    }
    proof {
        assert(v@.take(v@.len() as int) =~= v@);
    }
    r
}

/// Law: after an unoccupied edge `e` of a node is linked to child `c` (the
/// table update that `set_child` performs), looking the edge up as
/// `get_child` does yields `Some(c)`. Linking an edge that is already
/// occupied is excluded by `set_child`'s precondition: edges are write-once.
pub proof fn lemma_set_child_then_get_child(n: NodeView, e: int, c: usize)
    requires
        n.wf(),
        0 <= e < NUM_EDGES,
    ensures
        n.children.update(e, Some(c))[e] == Some(c),
{
}

/// An edge's counter table after `increment_count` has been applied to edge
/// `e` a total of `k` times.
pub open spec fn counts_after(c: Seq<u32>, e: int, k: nat) -> Seq<u32>
    decreases k,
{
    if k == 0 {
        c
    } else {
        let prev = counts_after(c, e, (k - 1) as nat);
        prev.update(e, (prev[e] + 1) as u32)
    }
}

/// Law: a fresh node's counters all start at zero, and `k` applications of
/// `increment_count` to edge `e` (each performing the update stated in its
/// contract) leave that edge's counter — as `get_count` reads it — at
/// exactly `k`.
pub proof fn lemma_counts_accumulate(e: int, k: nat)
    requires
        0 <= e < NUM_EDGES,
        k <= u32::MAX,
    ensures
        zero_counts()[e] == 0,
        counts_after(zero_counts(), e, k).len() == NUM_EDGES,
        counts_after(zero_counts(), e, k)[e] == k,
    decreases k,
{
    if k > 0 {
        lemma_counts_accumulate(e, (k - 1) as nat);
    }
}

/// A `Vec` edge table with every slot unoccupied.
fn unoccupied_row() -> (v: Vec<Option<usize>>)
    ensures
        v@ == empty_children(),
{
    let mut v: Vec<Option<usize>> = Vec::new();
    while v.len() < NUM_EDGES
        invariant
            v@.len() <= NUM_EDGES,
            forall|i: int| 0 <= i < v@.len() ==> v@[i] is None,
        decreases NUM_EDGES - v.len(),
    {
        v.push(None);
    }
    proof {
        assert(v@ =~= empty_children());
    }
    v
}

/// A `Vec` counter table with every counter at zero.
fn zero_row() -> (v: Vec<u32>)
    ensures
        v@ == zero_counts(),
{
    let mut v: Vec<u32> = Vec::new();
    while v.len() < NUM_EDGES
        invariant
            v@.len() <= NUM_EDGES,
            forall|i: int| 0 <= i < v@.len() ==> v@[i] == 0u32,
        decreases NUM_EDGES - v.len(),
    {
        v.push(0);
    }
    proof {
        assert(v@ =~= zero_counts());
    }
    v
}

} // verus!
