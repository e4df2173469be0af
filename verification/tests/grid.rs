use vibetree::grid::{SplitDirection, TerminalNode, HALF_RATIO_BITS};

fn tree() -> TerminalNode {
    TerminalNode::single(1)
        .split(SplitDirection::Vertical, 2)
        .split(SplitDirection::Horizontal, 3)
}

#[test]
fn half_ratio_is_one_half() {
    assert_eq!(f32::from_bits(HALF_RATIO_BITS), 0.5f32);
}

#[test]
fn split_appends_new_terminal() {
    let t = tree();
    assert_eq!(t.terminal_ids(), vec![1, 2, 3]);
    match t {
        TerminalNode::Split { direction, ratio_bits, right, .. } => {
            assert_eq!(direction, SplitDirection::Horizontal);
            assert_eq!(ratio_bits, HALF_RATIO_BITS);
            assert!(matches!(*right, TerminalNode::Leaf { terminal_id: 3 }));
        }
        _ => panic!("expected a split"),
    }
}

#[test]
fn remove_keeps_other_terminals_in_order() {
    assert_eq!(tree().remove(2).unwrap().terminal_ids(), vec![1, 3]);
    assert_eq!(tree().remove(1).unwrap().terminal_ids(), vec![2, 3]);
    assert_eq!(tree().remove(3).unwrap().terminal_ids(), vec![1, 2]);
}

#[test]
fn remove_collapses_split_to_remaining_side() {
    let t = TerminalNode::single(1).split(SplitDirection::Vertical, 2);
    assert!(matches!(t.remove(1), Some(TerminalNode::Leaf { terminal_id: 2 })));
}

#[test]
fn remove_last_terminal_leaves_nothing() {
    assert!(TerminalNode::single(4).remove(4).is_none());
}

#[test]
fn remove_absent_terminal_changes_nothing() {
    assert_eq!(tree().remove(99).unwrap().terminal_ids(), vec![1, 2, 3]);
}

#[test]
fn clone_keeps_tree() {
    let t = tree();
    let c = t.clone();
    assert_eq!(c.terminal_ids(), t.terminal_ids());
    assert_eq!(c.remove(1).unwrap().terminal_ids(), vec![2, 3]);
}
