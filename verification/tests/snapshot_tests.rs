use little_sorry::RegretMinimizer;
use cfr_arena::node::{Node, NodeData, PlayerData, TerminalData};
use cfr_arena::snapshot::StateStoreSnapshot;
use cfr_arena::state::{GameState, TraversalState};
use cfr_arena::state_store::StateStore;

fn bits(x: f32) -> u32 {
    x.to_bits()
}

fn starting_config() -> GameState {
    GameState::new_starting(vec![bits(100.0); 3], bits(10.0), bits(5.0), bits(0.0), 0)
}

#[test]
fn node_test_node_serialization() {
    let original_node = Node::new(5, 1, 2, NodeData::Chance);

    // Set some children and increment counts to test table round-tripping
    let mut node = original_node.clone();
    node.set_child(0, 10);
    node.set_child(3, 15);
    node.increment_count(0);
    node.increment_count(0);
    node.increment_count(3);

    // To the durable form and back
    let snapshot = node.to_snapshot();
    let deserialized_node = Node::from_snapshot(&snapshot);

    // Verify node properties
    assert_eq!(deserialized_node.idx, 5);
    assert_eq!(deserialized_node.parent, Some(1));
    assert_eq!(deserialized_node.parent_child_idx, Some(2));
    assert!(matches!(deserialized_node.data, NodeData::Chance));

    // Verify children and count tables were preserved
    assert_eq!(deserialized_node.get_child(0), Some(10));
    assert_eq!(deserialized_node.get_child(3), Some(15));
    assert_eq!(deserialized_node.get_count(0), 2);
    assert_eq!(deserialized_node.get_count(3), 1);
}

#[test]
fn test_serialization_test_node_serialization() {
    let original_node = Node::new(5, 1, 2, NodeData::Chance);

    let mut node = original_node.clone();
    node.set_child(0, 10);
    node.set_child(3, 15);
    node.increment_count(0);
    node.increment_count(0);
    node.increment_count(3);

    let snapshot = node.to_snapshot();
    println!("Node snapshot carries {} edge entries", snapshot.children.len());
    let deserialized_node = Node::from_snapshot(&snapshot);

    assert_eq!(deserialized_node.idx, 5);
    assert_eq!(deserialized_node.parent, Some(1));
    assert_eq!(deserialized_node.parent_child_idx, Some(2));
    assert!(matches!(deserialized_node.data, NodeData::Chance));

    assert_eq!(deserialized_node.get_child(0), Some(10));
    assert_eq!(deserialized_node.get_child(3), Some(15));
    assert_eq!(deserialized_node.get_count(0), 2);
    assert_eq!(deserialized_node.get_count(3), 1);
}

#[test]
fn node_test_player_data_serialization() {
    // Create PlayerData with a RegretMatcher attached
    let regret_matcher = little_sorry::RegretMatcher::new(5);
    let player_data = PlayerData {
        regret_matcher: Some(Box::new(regret_matcher)),
        player_idx: 7,
    };

    // To the durable form and back
    let snapshot = player_data.to_snapshot();
    let deserialized_data = PlayerData::from_snapshot(&snapshot);

    // Verify player index was preserved
    assert_eq!(deserialized_data.player_idx, 7);

    // Verify the RegretMatcher was dropped on the way out (as expected)
    assert!(deserialized_data.regret_matcher.is_none());
}

#[test]
fn test_serialization_test_player_data_serialization() {
    let regret_matcher = little_sorry::RegretMatcher::new(5);
    let player_data = PlayerData {
        regret_matcher: Some(Box::new(regret_matcher)),
        player_idx: 7,
    };

    let snapshot = player_data.to_snapshot();
    println!("PlayerData snapshot keeps player {}", snapshot.player_idx);
    let deserialized_data = PlayerData::from_snapshot(&snapshot);

    assert_eq!(deserialized_data.player_idx, 7);
    assert!(deserialized_data.regret_matcher.is_none());
}

#[test]
fn test_node_data_serialization() {
    // Test each NodeData variant
    let variants = vec![
        NodeData::Root,
        NodeData::Chance,
        NodeData::Player(PlayerData {
            regret_matcher: None,
            player_idx: 3,
        }),
        NodeData::Terminal(TerminalData::new(bits(42.5))),
    ];

    for original_data in variants {
        // To the durable form and back
        let snapshot = original_data.to_snapshot();
        let deserialized_data = NodeData::from_snapshot(&snapshot);

        // Verify the variant is preserved
        assert_eq!(original_data.is_root(), deserialized_data.is_root());
        assert_eq!(original_data.is_chance(), deserialized_data.is_chance());
        assert_eq!(original_data.is_player(), deserialized_data.is_player());
        assert_eq!(original_data.is_terminal(), deserialized_data.is_terminal());

        // For terminal data, also check the utility value
        if let NodeData::Terminal(ref original_terminal) = original_data {
            if let NodeData::Terminal(ref deserialized_terminal) = deserialized_data {
                assert_eq!(
                    original_terminal.total_utility_bits,
                    deserialized_terminal.total_utility_bits
                );
            }
        }

        // For player data, check the player index
        if let NodeData::Player(ref original_player) = original_data {
            if let NodeData::Player(ref deserialized_player) = deserialized_data {
                assert_eq!(original_player.player_idx, deserialized_player.player_idx);
            }
        }
    }
}

#[test]
fn test_cfr_state_serialization() {
    let game_state = starting_config();
    let cfr_state = cfr_arena::state::CFRState::new(game_state.clone());

    // To the durable form and back
    let snapshot = cfr_state.to_snapshot();
    let deserialized_state = cfr_arena::state::CFRState::from_snapshot(&snapshot);

    // Check that the deserialized state has the root node
    let root_node = deserialized_state.get(0).expect("No root node found");
    assert!(
        matches!(root_node.data, NodeData::Root),
        "Root node data should be NodeData::Root"
    );

    // Check that the starting game state was properly carried over
    assert_eq!(
        deserialized_state.starting_game_state().big_blind_bits,
        bits(10.0)
    );
    assert_eq!(
        deserialized_state.starting_game_state().small_blind_bits,
        bits(5.0)
    );
}

#[test]
fn test_traversal_state_serialization() {
    let traversal = TraversalState::new(42, 7, 3);

    // A cursor is durable as it is: carry it through a whole-store snapshot
    let snapshot = StateStoreSnapshot {
        cfr_states: Vec::new(),
        traversal_states: vec![vec![traversal]],
    };
    let store = StateStore::from_snapshot(&snapshot);
    let deserialized_traversal = store.peek_traversal(0).expect("No cursor found");

    // Check that the properties were preserved
    assert_eq!(deserialized_traversal.node_idx(), 42);
    assert_eq!(deserialized_traversal.chosen_child_idx(), 7);
    assert_eq!(deserialized_traversal.player_idx(), 3);
}

#[test]
fn test_store_snapshot_roundtrip() {
    // A store with two trees, both configured with stacks of 100.0, big
    // blind 10.0, small blind 5.0, no ante, first actor 0
    let mut state_store = StateStore::new();
    let game_state = starting_config();
    let (_state, _traversal) = state_store.new_state(game_state.clone(), 0);
    let (_state2, _traversal2) = state_store.new_state(game_state.clone(), 1);

    let snapshot = state_store.to_snapshot();
    let loaded_store = StateStore::from_snapshot(&snapshot);

    assert_eq!(
        loaded_store.len(),
        state_store.len(),
        "Loaded state store should have the same number of states"
    );
    for player_idx in 0..2 {
        assert_eq!(loaded_store.traversal_len(player_idx), 2);
        let snapshot_again = loaded_store.to_snapshot();
        let tree = &snapshot_again.cfr_states[player_idx];
        assert_eq!(tree.starting_game_state.big_blind_bits, bits(10.0));
        assert_eq!(tree.starting_game_state.small_blind_bits, bits(5.0));
        assert_eq!(tree.starting_game_state.stacks_bits, vec![bits(100.0); 3]);
    }
}

#[test]
fn test_snapshot_pads_short_tables() {
    // A snapshot written with short tables comes back padded: unwritten
    // entries are unoccupied or zero
    let node = Node::new(9, 1, 0, NodeData::Chance);
    let mut snapshot = node.to_snapshot();
    snapshot.children.truncate(2);
    snapshot.count.truncate(2);
    snapshot.children[1] = Some(30);
    snapshot.count[0] = 4;

    let rebuilt = Node::from_snapshot(&snapshot);
    assert_eq!(rebuilt.get_child(1), Some(30));
    assert_eq!(rebuilt.get_count(0), 4);
    assert_eq!(rebuilt.get_child(51), None);
    assert_eq!(rebuilt.get_count(51), 0);
}
