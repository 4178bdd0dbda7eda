use rmk::matrix::{regions_disjoint, NodeMatrixSpec};

fn node(rows: usize, cols: usize, row_offset: usize, col_offset: usize) -> NodeMatrixSpec {
    NodeMatrixSpec { rows, cols, row_offset, col_offset }
}

#[test]
fn global_position_adds_the_offsets() {
    let n = node(4, 6, 4, 10);
    assert_eq!(n.global_position(0, 0), Some((4, 10)));
    assert_eq!(n.global_position(3, 5), Some((7, 15)));
    assert_eq!(n.global_position(4, 0), None);
    assert_eq!(n.global_position(0, 6), None);
}

#[test]
fn global_position_does_not_wrap() {
    let n = node(4, 4, usize::MAX - 1, 0);
    assert_eq!(n.global_position(0, 0), Some((usize::MAX - 1, 0)));
    assert_eq!(n.global_position(1, 3), Some((usize::MAX, 3)));
    assert_eq!(n.global_position(2, 0), None);
}

#[test]
fn nodes_side_by_side_do_not_overlap() {
    let left = node(4, 6, 0, 0);
    let right = node(4, 6, 0, 6);
    let below = node(4, 6, 4, 0);
    assert!(!left.overlaps(right));
    assert!(!right.overlaps(left));
    assert!(!left.overlaps(below));
    assert!(!below.overlaps(right));
}

#[test]
fn nodes_that_share_a_key_overlap() {
    let a = node(4, 6, 0, 0);
    assert!(a.overlaps(a));
    assert!(a.overlaps(node(4, 6, 3, 5)));
    assert!(node(4, 6, 3, 5).overlaps(a));
    assert!(a.overlaps(node(1, 1, 2, 2)));
    assert!(node(1, 1, 2, 2).overlaps(a));
    assert!(!a.overlaps(node(4, 6, 3, 6)));
    assert!(!a.overlaps(node(4, 6, 4, 5)));
}

#[test]
fn empty_nodes_overlap_nothing() {
    let a = node(4, 6, 0, 0);
    assert!(!a.overlaps(node(0, 6, 1, 1)));
    assert!(!a.overlaps(node(4, 0, 1, 1)));
    assert!(!node(0, 0, 0, 0).overlaps(a));
    assert!(!node(0, 0, 0, 0).overlaps(node(0, 0, 0, 0)));
}

#[test]
fn overlap_is_decided_at_the_edge_of_the_machine() {
    let far = node(usize::MAX, usize::MAX, usize::MAX, usize::MAX);
    assert!(far.overlaps(far));
    assert!(far.overlaps(node(1, 1, usize::MAX, usize::MAX)));
    assert!(!far.overlaps(node(usize::MAX, usize::MAX, 0, 0)));
    assert!(node(usize::MAX, usize::MAX, 1, 1).overlaps(node(2, 2, 0, 0)));
}

#[test]
fn regions_disjoint_checks_every_pair() {
    assert!(regions_disjoint(&vec![]));
    assert!(regions_disjoint(&vec![node(4, 6, 0, 0)]));
    assert!(regions_disjoint(&vec![node(4, 6, 0, 0), node(4, 6, 0, 6), node(4, 6, 4, 0)]));
    assert!(!regions_disjoint(&vec![node(4, 6, 0, 0), node(4, 6, 0, 6), node(1, 1, 3, 5)]));
    assert!(!regions_disjoint(&vec![node(4, 6, 0, 0), node(4, 6, 0, 6), node(1, 1, 3, 6)]));
    assert!(!regions_disjoint(&vec![node(1, 1, 0, 0), node(1, 1, 5, 5), node(1, 1, 0, 0)]));
}
