use little_sorry::RegretMinimizer;
use cfr_arena::node::{Node, NodeData, PlayerData, TerminalData, NUM_EDGES};

fn bits(x: f32) -> u32 {
    x.to_bits()
}

#[test]
fn test_terminal_data_default() {
    let terminal_data = TerminalData::default();
    assert_eq!(terminal_data.total_utility_bits, bits(0.0));
}

#[test]
fn test_terminal_data_new() {
    let terminal_data = TerminalData::new(bits(10.0));
    assert_eq!(terminal_data.total_utility_bits, bits(10.0));
}

#[test]
fn test_node_data_is_terminal() {
    let node_data = NodeData::Terminal(TerminalData::new(bits(10.0)));
    assert!(node_data.is_terminal());
}

#[test]
fn test_node_data_is_chance() {
    let node_data = NodeData::Chance;
    assert!(node_data.is_chance());
}

#[test]
fn test_node_data_is_player() {
    let node_data = NodeData::Player(PlayerData {
        regret_matcher: None,
        player_idx: 0,
    });
    assert!(node_data.is_player());
}

#[test]
fn test_node_data_is_root() {
    let node_data = NodeData::Root;
    assert!(node_data.is_root());
}

#[test]
fn test_node_new_root() {
    let node = Node::new_root();
    assert_eq!(node.idx, 0);
    // Root is its own parent
    assert!(node.parent.is_some());
    assert_eq!(node.parent, Some(0));
    assert!(matches!(node.data, NodeData::Root));
}

#[test]
fn test_node_new() {
    let node = Node::new(1, 0, 0, NodeData::Chance);
    assert_eq!(node.idx, 1);
    assert_eq!(node.parent, Some(0));
    assert!(matches!(node.data, NodeData::Chance));
}

#[test]
fn test_node_set_get_child() {
    let mut node = Node::new(1, 0, 0, NodeData::Chance);
    node.set_child(0, 2);
    assert_eq!(node.get_child(0), Some(2));
}

#[test]
fn test_node_increment_count() {
    let mut node = Node::new(1, 0, 0, NodeData::Chance);
    node.increment_count(0);
    assert_eq!(node.get_count(0), 1);
}

#[test]
fn test_node_counts_accumulate() {
    let mut node = Node::new(1, 0, 0, NodeData::Chance);
    assert_eq!(node.get_count(7), 0);
    for _ in 0..5 {
        node.increment_count(7);
    }
    assert_eq!(node.get_count(7), 5);
    assert_eq!(node.get_count(0), 0);
}

#[test]
fn test_terminal_bookkeeping_count() {
    let mut node = Node::new(3, 0, 1, NodeData::Terminal(TerminalData::new(bits(1.5))));
    node.increment_count(0);
    node.increment_count(0);
    assert_eq!(node.get_count(0), 2);
}

#[test]
fn test_set_child_last_edge() {
    let mut node = Node::new_root();
    node.set_child(NUM_EDGES - 1, 9);
    assert_eq!(node.get_child(NUM_EDGES - 1), Some(9));
    assert_eq!(node.get_child(0), None);
}

#[test]
fn test_iter_children_ascending() {
    let mut node = Node::new(1, 0, 0, NodeData::Chance);
    node.set_child(10, 4);
    node.set_child(2, 3);
    node.set_child(51, 8);
    let pairs = node.iter_children();
    assert_eq!(pairs, vec![(2, 3), (10, 4), (51, 8)]);
}

#[test]
fn test_iter_children_empty() {
    let node = Node::new_root();
    assert!(node.iter_children().is_empty());
}

#[test]
fn test_node_clone_keeps_tables() {
    let mut node = Node::new(4, 2, 6, NodeData::Chance);
    node.set_child(5, 11);
    node.increment_count(5);
    let copy = node.clone();
    assert_eq!(copy.idx, 4);
    assert_eq!(copy.parent, Some(2));
    assert_eq!(copy.parent_child_idx, Some(6));
    assert_eq!(copy.get_child(5), Some(11));
    assert_eq!(copy.get_count(5), 1);
}

#[test]
fn test_variant_names() {
    assert_eq!(NodeData::Root.variant_name(), "Root");
    assert_eq!(NodeData::Chance.variant_name(), "Chance");
    let player = NodeData::Player(PlayerData {
        regret_matcher: None,
        player_idx: 1,
    });
    assert_eq!(player.variant_name(), "Player");
    let terminal = NodeData::Terminal(TerminalData::new(bits(2.0)));
    assert_eq!(terminal.variant_name(), "Terminal");
}

#[test]
fn test_player_data_clone_keeps_matcher() {
    let regret_matcher = little_sorry::RegretMatcher::new(5);
    let player_data = PlayerData {
        regret_matcher: Some(Box::new(regret_matcher)),
        player_idx: 2,
    };
    let copy = player_data.clone();
    assert!(copy.regret_matcher.is_some());
    assert_eq!(copy.player_idx, 2);

    let bare = PlayerData {
        regret_matcher: None,
        player_idx: 2,
    };
    assert!(bare.clone().regret_matcher.is_none());
}
