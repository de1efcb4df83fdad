use pglsp::node_range::{estimate_node_range, PathNode, RangedNode};
use pglsp::text::TextRange;

fn path_node(depth: i32, path: &str, location: Option<u32>) -> PathNode {
    PathNode { depth, path: path.to_string(), location }
}

fn ranged(node: usize, depth: i32, path: &str, start: u32, end: u32) -> RangedNode {
    RangedNode { node, depth, path: path.to_string(), range: TextRange::new(start, end) }
}

#[test]
fn nodes_span_their_children_and_tokens() {
    let nodes = vec![
        path_node(3, "0.1.0", None),
        path_node(2, "0.1", Some(25)),
        path_node(2, "0.0", Some(12)),
        path_node(2, "0.2", None),
        path_node(1, "0", None),
    ];
    let tokens = vec![
        Some(TextRange::new(20, 24)),
        Some(TextRange::new(25, 31)),
        Some(TextRange::new(12, 19)),
        None,
        Some(TextRange::new(0, 11)),
    ];
    assert_eq!(
        estimate_node_range(&nodes, &tokens),
        vec![
            ranged(4, 1, "0", 0, 31),
            ranged(2, 2, "0.0", 12, 19),
            ranged(1, 2, "0.1", 20, 31),
            ranged(0, 3, "0.1.0", 20, 24),
        ]
    );
}

#[test]
fn children_are_ranged_before_their_parents() {
    let nodes = vec![path_node(1, "0", None), path_node(2, "0.0", None)];
    let tokens = vec![Some(TextRange::new(5, 6)), Some(TextRange::new(0, 3))];
    assert_eq!(
        estimate_node_range(&nodes, &tokens),
        vec![ranged(0, 1, "0", 0, 6), ranged(1, 2, "0.0", 0, 3)]
    );
}
