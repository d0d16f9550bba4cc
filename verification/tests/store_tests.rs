use cfr_arena::state::GameState;
use cfr_arena::state_store::StateStore;

fn bits(x: f32) -> u32 {
    x.to_bits()
}

fn starting_config() -> GameState {
    GameState::new_starting(vec![bits(100.0); 3], bits(10.0), bits(5.0), bits(0.0), 0)
}

#[test]
fn test_new() {
    let store = StateStore::new();
    assert_eq!(store.len(), 0, "New state store should have no states");
}

#[test]
fn test_push() {
    let mut state_store = StateStore::new();
    let game_state = starting_config();
    let (state, _traversal) = state_store.new_state(game_state.clone(), 0);
    assert_eq!(
        state_store.len(),
        1,
        "State store should have one state after push"
    );
    assert_eq!(
        state.starting_game_state(),
        game_state,
        "State should match the game state"
    );
}

#[test]
fn test_push_len() {
    let mut state_store = StateStore::new();

    let game_state = starting_config();

    let _stores = (0..2)
        .map(|i| {
            let (state, traversal) = state_store.new_state(game_state.clone(), i);
            assert_eq!(
                state_store.len(),
                i + 1,
                "State store should have one state after push"
            );
            (state, traversal)
        })
        .collect::<Vec<_>>();

    assert_eq!(2, state_store.len(), "State store should have two states");

    let mut store_clones = (0..2).map(|_| state_store.clone()).collect::<Vec<_>>();

    for (player_idx, cloned_state_store) in store_clones.iter_mut().enumerate() {
        assert_eq!(
            cloned_state_store.len(),
            2,
            "Cloned state store should have two states"
        );

        let (_, _) = cloned_state_store.push_traversal(player_idx);
        assert_eq!(
            cloned_state_store.len(),
            2,
            "Cloned state store should still have two states"
        );
    }

    for i in 0..2 {
        state_store.pop_traversal(i);
    }
}

#[test]
fn test_default_is_empty() {
    let store = StateStore::default();
    assert!(store.is_empty());
    assert_eq!(store.len(), 0);
}

#[test]
fn test_new_state_effects() {
    // Opening a tree grows the tree sequence by one and the target player's
    // stack by exactly two entries: the permanent root cursor plus the
    // working copy
    let mut store = StateStore::new();
    assert_eq!(store.traversal_len(0), 0);
    let (state, traversal) = store.new_state(starting_config(), 0);
    assert_eq!(store.len(), 1);
    assert_eq!(store.traversal_len(0), 2);
    assert_eq!(state.starting_game_state(), starting_config());
    assert_eq!(traversal.node_idx(), 0);
    assert_eq!(traversal.chosen_child_idx(), 0);
    assert_eq!(traversal.player_idx(), 0);
}

#[test]
fn test_push_pop_traversal_depth() {
    let mut store = StateStore::new();
    let (_state, _traversal) = store.new_state(starting_config(), 0);
    assert_eq!(store.traversal_len(0), 2);

    let (_tree, cursor) = store.push_traversal(0);
    assert_eq!(store.traversal_len(0), 3, "push deepens the stack by one");
    assert_eq!(store.len(), 1, "push leaves the tree count unchanged");
    assert_eq!(cursor.player_idx(), 0);

    store.pop_traversal(0);
    assert_eq!(store.traversal_len(0), 2, "pop shortens the stack by one");
    store.pop_traversal(0);
    assert_eq!(
        store.traversal_len(0),
        1,
        "popping the working cursor leaves the permanent root cursor"
    );
    assert_eq!(store.len(), 1);
}

#[test]
fn test_peek_traversal() {
    let mut store = StateStore::new();
    assert_eq!(store.peek_traversal(0), None, "unknown player peeks nothing");

    let (_state, traversal) = store.new_state(starting_config(), 0);
    let top = store.peek_traversal(0).expect("seeded player has a cursor");
    assert_eq!(top, traversal);
    assert_eq!(store.peek_traversal(5), None);
}

#[test]
fn test_traversal_len_unknown_player() {
    let store = StateStore::new();
    assert_eq!(store.traversal_len(9), 0);
}

#[test]
fn test_merge_from_sizes() {
    // Merging a store of size A with one of size B yields size A + B
    let mut a = StateStore::new();
    let (_s, _t) = a.new_state(starting_config(), 0);

    let mut b = StateStore::new();
    let (_s0, _t0) = b.new_state(starting_config(), 0);
    let (_s1, _t1) = b.new_state(starting_config(), 1);

    a.merge_from(&b);
    assert_eq!(a.len(), 3);
    assert!(!a.is_empty());
    // b is untouched
    assert_eq!(b.len(), 2);
}

#[test]
fn test_merge_from_appends_in_order() {
    let mut a = StateStore::new();
    let (_s, _t) = a.new_state(starting_config(), 0);
    a.push_traversal(0);

    let mut b = StateStore::new();
    let (_s0, _t0) = b.new_state(starting_config(), 0);
    let (_s1, _t1) = b.new_state(starting_config(), 1);

    a.merge_from(&b);

    // a's own stack (slot 0) is unchanged: root + working + pushed copy
    assert_eq!(a.traversal_len(0), 3);
    // b's stacks are appended after a's, in their original order
    assert_eq!(a.traversal_len(1), 2);
    assert_eq!(a.traversal_len(2), 2);
    assert_eq!(a.traversal_len(3), 0);
    assert_eq!(a.peek_traversal(1), b.peek_traversal(0));
    assert_eq!(a.peek_traversal(2), b.peek_traversal(1));
}

#[test]
fn test_merge_from_empty() {
    let mut a = StateStore::new();
    let (_s, _t) = a.new_state(starting_config(), 0);
    let b = StateStore::new();
    a.merge_from(&b);
    assert_eq!(a.len(), 1);

    let mut c = StateStore::new();
    c.merge_from(&a);
    assert_eq!(c.len(), 1);
    assert_eq!(c.traversal_len(0), 2);
}

#[test]
fn test_store_duplicates_are_independent() {
    // A store owns its storage: a clone is an independent copy, and a push
    // through one copy is not seen by the other
    let mut store = StateStore::new();
    let (_s0, _t0) = store.new_state(starting_config(), 0);
    let (_s1, _t1) = store.new_state(starting_config(), 1);
    assert_eq!(store.len(), 2);

    let mut dup_a = store.clone();
    let mut dup_b = store.clone();
    dup_a.push_traversal(0);
    dup_b.push_traversal(1);

    assert_eq!(store.len(), 2);
    assert_eq!(dup_a.len(), 2);
    assert_eq!(dup_b.len(), 2);
    assert_eq!(dup_a.traversal_len(0), 3);
    assert_eq!(dup_b.traversal_len(1), 3);
    assert_eq!(store.traversal_len(0), 2);
    assert_eq!(store.traversal_len(1), 2);
}

#[test]
fn test_game_state_equality() {
    let a = starting_config();
    let b = starting_config();
    assert_eq!(a, b);

    let c = GameState::new_starting(vec![bits(50.0); 3], bits(10.0), bits(5.0), bits(0.0), 0);
    assert_ne!(a, c);

    let d = GameState::new_starting(vec![bits(100.0); 2], bits(10.0), bits(5.0), bits(0.0), 0);
    assert_ne!(a, d);
}

#[test]
fn test_reopening_a_slot_deepens_its_stack() {
    // Opening a second tree for a player that already has a stack appends
    // the tree and a freshly seeded stack, and deepens the player's own
    // stack by one
    let mut store = StateStore::new();
    let (_s0, _t0) = store.new_state(starting_config(), 0);
    let (_s1, _t1) = store.new_state(starting_config(), 0);
    assert_eq!(store.len(), 2);
    assert_eq!(store.traversal_len(0), 3);
    assert_eq!(store.traversal_len(1), 1);
}
