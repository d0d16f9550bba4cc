//! The store that holds every CFR tree of one solve, and, per player, the
//! stack of traversal cursors that lets a recursive tree walk be suspended
//! and resumed without recursion.
//!
//! Tree slots conventionally hold one tree per player ordinal. A per-player
//! cursor stack is seeded with a permanent root cursor when its tree is
//! opened; pushing duplicates the top cursor before a walk descends, and
//! popping removes the top cursor when the walk backtracks.
//!
//! The store owns its storage directly. A duplicate made through `clone` is
//! an independent copy, not an alias: callers that need one store shared by
//! several workers keep a single owner and pass it by mutable reference.

use vstd::prelude::*;

use crate::snapshot::{snap_of_store, store_of_snap, CFRStateSnapshot, CFRStateSnapshotView,
    StateStoreSnapshot};
use crate::state::{fresh_tree_view, root_cursor, CFRState, CFRStateView, GameState,
    TraversalState};

verus! {

/// All CFR trees of one solve and the per-player cursor stacks.
#[derive(Debug)]
pub struct StateStore {
    cfr_states: Vec<CFRState>,
    traversal_states: Vec<Vec<TraversalState>>,
}

/// What a `StateStore` observably is: the ordered tree sequence and the
/// ordered per-player cursor stacks (push and pop happen at the tail).
#[verifier::ext_equal]
pub ghost struct StateStoreView {
    pub trees: Seq<CFRStateView>,
    pub stacks: Seq<Seq<TraversalState>>,
}

impl View for StateStore {
    type V = StateStoreView;

    closed spec fn view(&self) -> StateStoreView {
        StateStoreView {
            trees: self.cfr_states@.map_values(|s: CFRState| s@),
            stacks: self.traversal_states@.map_values(|v: Vec<TraversalState>| v@),
        }
    }
}

impl StateStoreView {
    /// Every tree of the store is well formed.
    pub open spec fn wf(self) -> bool {
        forall|i: int| 0 <= i < self.trees.len() ==> (#[trigger] self.trees[i]).wf()
    }

    /// The store after a new tree is opened for `player_idx`: one fresh tree
    /// appended, a stack holding only a root cursor appended, and then a
    /// working copy of the top cursor pushed onto the stack at slot
    /// `player_idx`.
    pub open spec fn after_new_state(self, starting: crate::state::GameStateView, player_idx: usize) -> StateStoreView {
        let seeded = self.stacks.push(seq![root_cursor(player_idx)]);
        StateStoreView {
            trees: self.trees.push(fresh_tree_view(starting)),
            stacks: seeded.update(
                player_idx as int,
                seeded[player_idx as int].push(seeded[player_idx as int].last()),
            ),
        }
    }

    /// The store after the top cursor of `player_idx`'s stack is duplicated.
    pub open spec fn after_push_traversal(self, player_idx: usize) -> StateStoreView {
        StateStoreView {
            trees: self.trees,
            stacks: self.stacks.update(
                player_idx as int,
                self.stacks[player_idx as int].push(self.stacks[player_idx as int].last()),
            ),
        }
    }

    /// The store after the top cursor of `player_idx`'s stack is removed.
    pub open spec fn after_pop_traversal(self, player_idx: usize) -> StateStoreView {
        StateStoreView {
            trees: self.trees,
            stacks: self.stacks.update(
                player_idx as int,
                self.stacks[player_idx as int].drop_last(),
            ),
        }
    }

    /// The store after every tree and every cursor stack of `other` is
    /// appended, in their original order.
    pub open spec fn after_merge(self, other: StateStoreView) -> StateStoreView {
        StateStoreView { trees: self.trees + other.trees, stacks: self.stacks + other.stacks }
    }
}

impl StateStore {
    /// Every tree of the store is well formed.
    pub open spec fn wf(&self) -> bool {
        self@.wf()
    }

    /// An empty store: no trees and no cursor stacks.
    pub fn new() -> (r: Self)
        ensures
            r@ == (StateStoreView { trees: Seq::empty(), stacks: Seq::empty() }),
    {
        let r = StateStore { cfr_states: Vec::new(), traversal_states: Vec::new() };
        proof {
            assert(r@ =~= StateStoreView { trees: Seq::empty(), stacks: Seq::empty() });
        }
        r
    }

    /// The number of trees held.
    pub fn len(&self) -> (r: usize)
        ensures
            r == self@.trees.len(),
    {
        self.cfr_states.len()
    }

    /// Whether the store holds no tree.
    pub fn is_empty(&self) -> (r: bool)
        ensures
            r == (self@.trees.len() == 0),
    {
        self.len() == 0
    }

    /// The depth of `player_idx`'s cursor stack; 0 for a player that has no
    /// stack yet.
    pub fn traversal_len(&self, player_idx: usize) -> (r: usize)
        ensures
            (player_idx as int) < self@.stacks.len() ==> r == self@.stacks[player_idx as int].len(),
            (player_idx as int) >= self@.stacks.len() ==> r == 0,
    {
        if player_idx < self.traversal_states.len() {
            self.traversal_states[player_idx].len()
        } else {
            0
        }
    }

    /// A copy of the top cursor of `player_idx`'s stack; nothing (not a
    /// failure) when the player is unknown or the stack is empty.
    pub fn peek_traversal(&self, player_idx: usize) -> (r: Option<TraversalState>)
        ensures
            ((player_idx as int) < self@.stacks.len() && self@.stacks[player_idx as int].len() > 0)
                ==> r == Some(self@.stacks[player_idx as int].last()),
            !((player_idx as int) < self@.stacks.len() && self@.stacks[player_idx as int].len()
                > 0) ==> r is None,
    {
        if player_idx < self.traversal_states.len() {
            let stack = &self.traversal_states[player_idx];
            if stack.len() > 0 {
                Some(stack[stack.len() - 1])
            } else {
                None
            }
        } else {
            None
        }
    }

    /// Open a new tree rooted at `game_state` and hand out a handle to the
    /// tree at slot `player_idx` together with a working cursor.
    ///
    /// The tree sequence grows by one. A stack holding a permanent root
    /// cursor is appended, and a working copy of the top cursor of the stack
    /// at slot `player_idx` is pushed onto that stack; when `player_idx` is
    /// the slot just seeded, that stack therefore ends two cursors deep.
    pub fn new_state(&mut self, game_state: GameState, player_idx: usize) -> (r: (
        CFRState,
        TraversalState,
    ))
        requires
            old(self).wf(),
            player_idx <= old(self)@.stacks.len(),
            player_idx <= old(self)@.trees.len(),
            (player_idx as int) < old(self)@.stacks.len() ==> old(self)@.stacks[player_idx as int].len() > 0,
        ensures
            final(self).wf(),
            final(self)@ == old(self)@.after_new_state(game_state@, player_idx),
            r.0@ == final(self)@.trees[player_idx as int],
            r.1 == final(self)@.stacks[player_idx as int].last(),
    {
        self.cfr_states.push(CFRState::new(game_state));

        let mut seed: Vec<TraversalState> = Vec::new();
        seed.push(TraversalState::new_root(player_idx));
        self.traversal_states.push(seed);

        let stack = &mut self.traversal_states[player_idx];
        let last = stack[stack.len() - 1];
        let working = TraversalState::new(
            last.node_idx(),
            last.chosen_child_idx(),
            last.player_idx(),
        );
        stack.push(working);

        let state = self.cfr_states[player_idx].clone();
        proof {
            assert(self@ =~= old(self)@.after_new_state(game_state@, player_idx));
        }
        (state, working)
    }

    /// Duplicate the top cursor of `player_idx`'s stack, push the duplicate,
    /// and hand out the tree at slot `player_idx` together with the new
    /// cursor. The caller must have opened that slot already.
    pub fn push_traversal(&mut self, player_idx: usize) -> (r: (CFRState, TraversalState))
        requires
            old(self).wf(),
            (player_idx as int) < old(self)@.stacks.len(),
            old(self)@.stacks[player_idx as int].len() > 0,
            (player_idx as int) < old(self)@.trees.len(),
        ensures
            final(self).wf(),
            final(self)@ == old(self)@.after_push_traversal(player_idx),
            r.0@ == old(self)@.trees[player_idx as int],
            r.1 == old(self)@.stacks[player_idx as int].last(),
    {
        let stack = &mut self.traversal_states[player_idx];
        let last = stack[stack.len() - 1];
        let working = TraversalState::new(
            last.node_idx(),
            last.chosen_child_idx(),
            last.player_idx(),
        );
        stack.push(working);

        let state = self.cfr_states[player_idx].clone();
        proof {
            assert(self@ =~= old(self)@.after_push_traversal(player_idx));
        }
        (state, working)
    }

    /// Remove the top cursor of `player_idx`'s stack. The stack must not be
    /// empty.
    pub fn pop_traversal(&mut self, player_idx: usize)
        requires
            (player_idx as int) < old(self)@.stacks.len(),
            old(self)@.stacks[player_idx as int].len() > 0,
        ensures
            final(self)@ == old(self)@.after_pop_traversal(player_idx),
    {
        let stack = &mut self.traversal_states[player_idx];
        stack.pop();
        proof {
            assert(old(self)@.stacks[player_idx as int].subrange(
                0,
                old(self)@.stacks[player_idx as int].len() - 1,
            ) =~= old(self)@.stacks[player_idx as int].drop_last());
            assert(self@ =~= old(self)@.after_pop_traversal(player_idx));
        }
    }

    /// Append every tree and every cursor stack of `other`, preserving their
    /// order. Nothing is deduplicated and no slot is renumbered; this folds
    /// independently completed solves into one accumulating store.
    pub fn merge_from(&mut self, other: &StateStore)
        ensures
            final(self)@ == old(self)@.after_merge(other@),
            (old(self).wf() && other.wf()) ==> final(self).wf(),
    {
        let mut i: usize = 0;
        while i < other.cfr_states.len()
            invariant
                i <= other.cfr_states@.len(),
                self.cfr_states@.map_values(|s: CFRState| s@) == old(self)@.trees
                    + other.cfr_states@.take(i as int).map_values(|s: CFRState| s@),
                self.traversal_states == old(self).traversal_states,
            decreases other.cfr_states@.len() - i,
        {
            proof {
                assert(other.cfr_states@.take(i + 1int).map_values(|s: CFRState| s@)
                    =~= other.cfr_states@.take(i as int).map_values(|s: CFRState| s@).push(
                    other.cfr_states@[i as int]@,
                ));
            }
            self.cfr_states.push(other.cfr_states[i].clone());
            proof {
                assert(self.cfr_states@.map_values(|s: CFRState| s@) =~= (old(self)@.trees
                    + other.cfr_states@.take(i as int).map_values(|s: CFRState| s@)).push(
                    other.cfr_states@[i as int]@,
                ));
                assert((old(self)@.trees + other.cfr_states@.take(i as int).map_values(
                    |s: CFRState| s@,
                )).push(other.cfr_states@[i as int]@) =~= old(self)@.trees
                    + other.cfr_states@.take(i + 1int).map_values(|s: CFRState| s@));
            }
            i = i + 1;
        }
        proof {
            assert(other.cfr_states@.take(other.cfr_states@.len() as int) =~= other.cfr_states@);
        }
        let mut j: usize = 0;
        while j < other.traversal_states.len()
            invariant
                j <= other.traversal_states@.len(),
                self.cfr_states@.map_values(|s: CFRState| s@) == old(self)@.trees + other@.trees,
                self.traversal_states@.map_values(|v: Vec<TraversalState>| v@) == old(
                    self,
                )@.stacks + other.traversal_states@.take(j as int).map_values(
                    |v: Vec<TraversalState>| v@,
                ),
            decreases other.traversal_states@.len() - j,
        {
            proof {
                assert(other.traversal_states@.take(j + 1int).map_values(
                    |v: Vec<TraversalState>| v@,
                ) =~= other.traversal_states@.take(j as int).map_values(
                    |v: Vec<TraversalState>| v@,
                ).push(other.traversal_states@[j as int]@));
            }
            self.traversal_states.push(copy_cursor_row(&other.traversal_states[j]));
            proof {
                assert(self.traversal_states@.map_values(|v: Vec<TraversalState>| v@) =~= (old(
                    self,
                )@.stacks + other.traversal_states@.take(j as int).map_values(
                    |v: Vec<TraversalState>| v@,
                )).push(other.traversal_states@[j as int]@));
                assert((old(self)@.stacks + other.traversal_states@.take(j as int).map_values(
                    |v: Vec<TraversalState>| v@,
                )).push(other.traversal_states@[j as int]@) =~= old(self)@.stacks
                    + other.traversal_states@.take(j + 1int).map_values(
                    |v: Vec<TraversalState>| v@,
                ));
            }
            j = j + 1;
        }
        proof {
            assert(other.traversal_states@.take(other.traversal_states@.len() as int)
                =~= other.traversal_states@);
            assert(self@ =~= old(self)@.after_merge(other@));
        }
    }
    /// The durable form of the whole store, ready to be checkpointed: every
    /// tree in its durable form, every cursor stack as it is. The live store
    /// is left untouched; in the written form every matcher is absent.
    pub fn to_snapshot(&self) -> (s: StateStoreSnapshot)
        ensures
            s@ == snap_of_store(self@),
    {
        let mut cfr_states: Vec<CFRStateSnapshot> = Vec::new();
        let mut i: usize = 0;
        while i < self.cfr_states.len()
            invariant
                i <= self.cfr_states@.len(),
                cfr_states@.map_values(|t: CFRStateSnapshot| t@) == self.cfr_states@.take(
                    i as int,
                ).map_values(|t: CFRState| crate::snapshot::snap_of_tree(t@)),
            decreases self.cfr_states@.len() - i,
        {
            proof {
                assert(self.cfr_states@.take(i + 1int).map_values(
                    |t: CFRState| crate::snapshot::snap_of_tree(t@),
                ) =~= self.cfr_states@.take(i as int).map_values(
                    |t: CFRState| crate::snapshot::snap_of_tree(t@),
                ).push(crate::snapshot::snap_of_tree(self.cfr_states@[i as int]@)));
            }
            cfr_states.push(self.cfr_states[i].to_snapshot());
            proof {
                assert(cfr_states@.map_values(|t: CFRStateSnapshot| t@) =~= self.cfr_states@.take(
                    i + 1int,
                ).map_values(|t: CFRState| crate::snapshot::snap_of_tree(t@)));
            }
            i = i + 1;
        }
        let mut traversal_states: Vec<Vec<TraversalState>> = Vec::new();
        let mut j: usize = 0;
        while j < self.traversal_states.len()
            invariant
                j <= self.traversal_states@.len(),
                traversal_states@.map_values(|v: Vec<TraversalState>| v@)
                    == self.traversal_states@.take(j as int).map_values(
                    |v: Vec<TraversalState>| v@,
                ),
            decreases self.traversal_states@.len() - j,
        {
            proof {
                assert(self.traversal_states@.take(j + 1int).map_values(
                    |v: Vec<TraversalState>| v@,
                ) =~= self.traversal_states@.take(j as int).map_values(
                    |v: Vec<TraversalState>| v@,
                ).push(self.traversal_states@[j as int]@));
            }
            traversal_states.push(copy_cursor_row(&self.traversal_states[j]));
            proof {
                assert(traversal_states@.map_values(|v: Vec<TraversalState>| v@)
                    =~= self.traversal_states@.take(j + 1int).map_values(
                    |v: Vec<TraversalState>| v@,
                ));
            }
            j = j + 1;
        }
        let s = StateStoreSnapshot { cfr_states, traversal_states };
        proof {
            assert(self.cfr_states@.take(self.cfr_states@.len() as int) =~= self.cfr_states@);
            assert(self.traversal_states@.take(self.traversal_states@.len() as int)
                =~= self.traversal_states@);
            assert(self.cfr_states@.map_values(|t: CFRState| crate::snapshot::snap_of_tree(t@))
                =~= self@.trees.map_values(|t: CFRStateView| crate::snapshot::snap_of_tree(t)));
            assert(s@ =~= snap_of_store(self@));
        }
        s
    }

    /// The store read back from its durable form: a fresh, independently
    /// owned store, every tree re-padded, every matcher absent.
    pub fn from_snapshot(s: &StateStoreSnapshot) -> (r: Self)
        ensures
            r.wf(),
            r@ == store_of_snap(s@),
    {
        let mut cfr_states: Vec<CFRState> = Vec::new();
        let mut i: usize = 0;
        while i < s.cfr_states.len()
            invariant
                i <= s.cfr_states@.len(),
                cfr_states@.map_values(|t: CFRState| t@) == s.cfr_states@.take(
                    i as int,
                ).map_values(|t: CFRStateSnapshot| crate::snapshot::tree_of_snap(t@)),
                forall|k: int| 0 <= k < cfr_states@.len() ==> (#[trigger] cfr_states@[k]).wf(),
            decreases s.cfr_states@.len() - i,
        {
            proof {
                assert(s.cfr_states@.take(i + 1int).map_values(
                    |t: CFRStateSnapshot| crate::snapshot::tree_of_snap(t@),
                ) =~= s.cfr_states@.take(i as int).map_values(
                    |t: CFRStateSnapshot| crate::snapshot::tree_of_snap(t@),
                ).push(crate::snapshot::tree_of_snap(s.cfr_states@[i as int]@)));
            }
            cfr_states.push(CFRState::from_snapshot(&s.cfr_states[i]));
            proof {
                assert(cfr_states@.map_values(|t: CFRState| t@) =~= s.cfr_states@.take(
                    i + 1int,
                ).map_values(|t: CFRStateSnapshot| crate::snapshot::tree_of_snap(t@)));
            }
            i = i + 1;
        }
        let mut traversal_states: Vec<Vec<TraversalState>> = Vec::new();
        let mut j: usize = 0;
        while j < s.traversal_states.len()
            invariant
                j <= s.traversal_states@.len(),
                traversal_states@.map_values(|v: Vec<TraversalState>| v@)
                    == s.traversal_states@.take(j as int).map_values(
                    |v: Vec<TraversalState>| v@,
                ),
            decreases s.traversal_states@.len() - j,
        {
            proof {
                assert(s.traversal_states@.take(j + 1int).map_values(
                    |v: Vec<TraversalState>| v@,
                ) =~= s.traversal_states@.take(j as int).map_values(
                    |v: Vec<TraversalState>| v@,
                ).push(s.traversal_states@[j as int]@));
            }
            traversal_states.push(copy_cursor_row(&s.traversal_states[j]));
            proof {
                assert(traversal_states@.map_values(|v: Vec<TraversalState>| v@)
                    =~= s.traversal_states@.take(j + 1int).map_values(
                    |v: Vec<TraversalState>| v@,
                ));
            }
            j = j + 1;
        }
        let r = StateStore { cfr_states, traversal_states };
        proof {
            assert(s.cfr_states@.take(s.cfr_states@.len() as int) =~= s.cfr_states@);
            assert(s.traversal_states@.take(s.traversal_states@.len() as int)
                =~= s.traversal_states@);
            assert(s.cfr_states@.map_values(
                |t: CFRStateSnapshot| crate::snapshot::tree_of_snap(t@),
            ) =~= s@.trees.map_values(
                |t: CFRStateSnapshotView| crate::snapshot::tree_of_snap(t),
            ));
            assert(r@ =~= store_of_snap(s@));
        }
        r
    }
}

impl Clone for StateStore {
    fn clone(&self) -> (res: Self)
        ensures
            res@ == self@,
    {
        let mut cfr_states: Vec<CFRState> = Vec::new();
        let mut i: usize = 0;
        while i < self.cfr_states.len()
            invariant
                i <= self.cfr_states@.len(),
                cfr_states@.map_values(|s: CFRState| s@) == self.cfr_states@.take(
                    i as int,
                ).map_values(|s: CFRState| s@),
            decreases self.cfr_states@.len() - i,
        {
            proof {
                assert(self.cfr_states@.take(i + 1int).map_values(|s: CFRState| s@)
                    =~= self.cfr_states@.take(i as int).map_values(|s: CFRState| s@).push(
                    self.cfr_states@[i as int]@,
                ));
            }
            cfr_states.push(self.cfr_states[i].clone());
            proof {
                assert(cfr_states@.map_values(|s: CFRState| s@) =~= self.cfr_states@.take(
                    i + 1int,
                ).map_values(|s: CFRState| s@));
            }
            i = i + 1;
        }
        let mut traversal_states: Vec<Vec<TraversalState>> = Vec::new();
        let mut j: usize = 0;
        while j < self.traversal_states.len()
            invariant
                j <= self.traversal_states@.len(),
                traversal_states@.map_values(|v: Vec<TraversalState>| v@)
                    == self.traversal_states@.take(j as int).map_values(
                    |v: Vec<TraversalState>| v@,
                ),
            decreases self.traversal_states@.len() - j,
        {
            proof {
                assert(self.traversal_states@.take(j + 1int).map_values(
                    |v: Vec<TraversalState>| v@,
                ) =~= self.traversal_states@.take(j as int).map_values(
                    |v: Vec<TraversalState>| v@,
                ).push(self.traversal_states@[j as int]@));
            }
            traversal_states.push(copy_cursor_row(&self.traversal_states[j]));
            proof {
                assert(traversal_states@.map_values(|v: Vec<TraversalState>| v@)
                    =~= self.traversal_states@.take(j + 1int).map_values(
                    |v: Vec<TraversalState>| v@,
                ));
            }
            j = j + 1;
        }
        let res = StateStore { cfr_states, traversal_states };
        proof {
            assert(self.cfr_states@.take(self.cfr_states@.len() as int) =~= self.cfr_states@);
            assert(self.traversal_states@.take(self.traversal_states@.len() as int)
                =~= self.traversal_states@);
            assert(res@ =~= self@);
        }
        res
    }
}

impl Default for StateStore {
    fn default() -> (r: Self)
        ensures
            r@ == (StateStoreView { trees: Seq::empty(), stacks: Seq::empty() }),
    {
        StateStore::new()
    }
}

/// Law: opening a new tree for the next free player slot grows the tree
/// sequence by one and leaves that player's cursor stack exactly two deep —
/// the permanent root cursor plus the working copy — and the new tree's
/// starting configuration is exactly the one handed in. (For a slot that
/// already has a stack, `new_state` still appends one tree and one seeded
/// stack but deepens the existing stack by only one.)
pub proof fn lemma_new_state_effects(
    v: StateStoreView,
    starting: crate::state::GameStateView,
    p: usize,
)
    requires
        p == v.stacks.len(),
        p == v.trees.len(),
    ensures
        v.after_new_state(starting, p).trees.len() == v.trees.len() + 1,
        v.after_new_state(starting, p).stacks.len() == v.stacks.len() + 1,
        v.after_new_state(starting, p).stacks[p as int].len() == 2,
        v.after_new_state(starting, p).trees[p as int].starting == starting,
{
}

/// Law: duplicating the top cursor for player `p` deepens that player's
/// stack by exactly one, leaves every other stack as it was, and leaves the
/// tree sequence unchanged.
pub proof fn lemma_push_traversal_effects(v: StateStoreView, p: usize)
    requires
        (p as int) < v.stacks.len(),
        v.stacks[p as int].len() > 0,
    ensures
        v.after_push_traversal(p).trees == v.trees,
        v.after_push_traversal(p).stacks.len() == v.stacks.len(),
        v.after_push_traversal(p).stacks[p as int].len() == v.stacks[p as int].len() + 1,
        forall|q: int|
            0 <= q < v.stacks.len() && q != p ==> v.after_push_traversal(p).stacks[q]
                == v.stacks[q],
{
}

/// Law: removing the top cursor for player `p` shortens that player's stack
/// by exactly one, leaves every other stack as it was, and leaves the tree
/// sequence unchanged. Popping an empty stack is excluded by
/// `pop_traversal`'s precondition.
pub proof fn lemma_pop_traversal_effects(v: StateStoreView, p: usize)
    requires
        (p as int) < v.stacks.len(),
        v.stacks[p as int].len() > 0,
    ensures
        v.after_pop_traversal(p).trees == v.trees,
        v.after_pop_traversal(p).stacks.len() == v.stacks.len(),
        v.after_pop_traversal(p).stacks[p as int].len() == v.stacks[p as int].len() - 1,
        forall|q: int|
            0 <= q < v.stacks.len() && q != p ==> v.after_pop_traversal(p).stacks[q]
                == v.stacks[q],
{
}

/// Law: merging a store of `A` trees with one of `B` trees yields `A + B`
/// trees; the first `A` trees and stacks are the receiver's, unchanged, and
/// the appended entries equal the merged store's entries in their original
/// order. Nothing is deduplicated or renumbered.
pub proof fn lemma_merge_effects(a: StateStoreView, b: StateStoreView)
    ensures
        a.after_merge(b).trees.len() == a.trees.len() + b.trees.len(),
        a.after_merge(b).stacks.len() == a.stacks.len() + b.stacks.len(),
        forall|i: int| 0 <= i < a.trees.len() ==> a.after_merge(b).trees[i] == a.trees[i],
        forall|i: int|
            0 <= i < b.trees.len() ==> a.after_merge(b).trees[a.trees.len() + i] == b.trees[i],
        forall|i: int| 0 <= i < a.stacks.len() ==> a.after_merge(b).stacks[i] == a.stacks[i],
        forall|i: int|
            0 <= i < b.stacks.len() ==> a.after_merge(b).stacks[a.stacks.len() + i] == b.stacks[i],
{
}

/// An element-for-element copy of one cursor stack.
fn copy_cursor_row(v: &Vec<TraversalState>) -> (r: Vec<TraversalState>)
    ensures
        r@ == v@,
{
    let mut r: Vec<TraversalState> = Vec::new();
    let mut i: usize = 0;
    while i < v.len()
        invariant
            i <= v@.len(),
            r@ == v@.take(i as int),
        decreases v@.len() - i,
    {
        proof {
            assert(v@.take(i + 1int) =~= v@.take(i as int).push(v@[i as int]));
        }
        r.push(v[i]);
        i = i + 1;
    }
    proof {
        assert(v@.take(v@.len() as int) =~= v@);
    }
    r
}

} // verus!
