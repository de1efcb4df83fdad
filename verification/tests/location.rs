use pglsp::location::{derive_location, location_via_matches, try_derive_location, NodeTag};
use pglsp::nested::{nested_nodes, try_nested_nodes, NestedNode, TreeNode};

#[test]
fn test_derive_location() {
    let input = "with c as (insert into contact (id) values ('id')) select * from c;";
    // the location of the common table expression `c`
    let cte_location = 5;

    let l = derive_location(&NodeTag::InsertStmt, input, cte_location, Some(23));

    assert_eq!(l, Some(11));
}

#[test]
fn nearest_match_after_the_parent_wins() {
    // starts before the parent are ignored; the one nearest the first child wins
    assert_eq!(location_via_matches(&vec![2, 10, 20, 30], 5, Some(22)), 20);
    // without children, the nearest one after the parent
    assert_eq!(location_via_matches(&vec![2, 10, 20, 30], 5, None), 10);
    // on a tie the first one stays
    assert_eq!(location_via_matches(&vec![10, 14], 0, Some(12)), 10);
}

#[test]
fn values_lists_and_names_are_located() {
    let input = "insert into contact (id) values ('id');";
    assert_eq!(derive_location(&NodeTag::SelectStmt, input, 0, None), Some(25));
    assert_eq!(derive_location(&NodeTag::List, input, 0, None), Some(20));
    assert_eq!(
        derive_location(&NodeTag::AlterTableCmd("x".to_string()), "alter table t drop x", 0, None),
        Some(0)
    );
}

#[test]
fn literals_have_no_location() {
    assert_eq!(derive_location(&NodeTag::Integer, "select 1", 0, None), None);
    assert_eq!(try_derive_location(&NodeTag::StringValue, "select 'a'", 0, None), Some(None));
}

#[test]
fn locations_that_cannot_be_derived_give_none() {
    // a kind whose location is not derived
    assert_eq!(try_derive_location(&NodeTag::Other, "select 1", 0, None), None);
    // no match at or after the parent
    assert_eq!(try_derive_location(&NodeTag::InsertStmt, "select 1", 0, None), None);
    // the match lies after the first child
    assert_eq!(try_derive_location(&NodeTag::InsertStmt, "x insert into t", 0, Some(1)), None);
    // a pattern that does not compile
    assert_eq!(try_derive_location(&NodeTag::AccessPriv("(".to_string()), "select (", 0, None), None);
}

fn node(tag: NodeTag, location: Option<i32>, children: Vec<usize>) -> TreeNode {
    TreeNode { tag, location, children }
}

fn nested(node: usize, depth: i32, location: i32, path: &str) -> NestedNode {
    NestedNode { node, depth, location, path: path.to_string() }
}

#[test]
fn nested_nodes_are_walked_located_and_ordered() {
    let text = "insert into contact (id) values ('id');";
    let tree = vec![
        node(NodeTag::InsertStmt, None, vec![1, 2]),
        node(NodeTag::Other, Some(12), vec![]),
        node(NodeTag::SelectStmt, None, vec![3]),
        node(NodeTag::List, None, vec![4]),
        node(NodeTag::Other, Some(33), vec![]),
    ];
    assert_eq!(
        nested_nodes(&tree, text, 1),
        vec![
            nested(1, 2, 12, "0.0"),
            nested(2, 2, 25, "0.1"),
            nested(3, 3, 32, "0.1.0"),
            nested(4, 4, 33, "0.1.0.0"),
        ]
    );
}

#[test]
fn literals_without_location_are_left_out() {
    let tree = vec![
        node(NodeTag::SelectStmt, None, vec![1, 2]),
        node(NodeTag::Integer, None, vec![]),
        node(NodeTag::Other, Some(7), vec![]),
    ];
    assert_eq!(try_nested_nodes(&tree, "select 1", 1), Some(vec![nested(2, 2, 7, "0.1")]));
}

#[test]
fn an_underivable_location_gives_none() {
    let tree = vec![node(NodeTag::SelectStmt, None, vec![1]), node(NodeTag::InsertStmt, None, vec![])];
    assert_eq!(try_nested_nodes(&tree, "select 1", 1), None);
}
