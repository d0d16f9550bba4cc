//! In-memory game-tree representation and state management for a
//! counterfactual-regret-minimisation (CFR) solver.
//!
//! The crate offers an index-addressed arena of [`node::Node`] vertices with a
//! fixed-width edge table, per-player resumable traversal cursors, and a
//! [`state_store::StateStore`] that holds many independent trees, merges the
//! results of separate solves, and converts to and from a plain snapshot form
//! for checkpointing.

pub mod node;
pub mod snapshot;
pub mod state;
pub mod state_store;

pub use node::{Node, NodeData, PlayerData, TerminalData};
pub use state::{CFRState, GameState, TraversalState};
pub use state_store::StateStore;
