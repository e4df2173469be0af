//! Binary tree layout for terminal splits.
//!
//! A split's ratio is kept as the bit pattern of an `f32` (`f32::to_bits`),
//! so the tree holds no floating-point value; only the geometry reads it.
use vstd::prelude::*;

verus! {

/// The bit pattern of the `f32` value 0.5, the ratio of a new split.
pub const HALF_RATIO_BITS: u32 = 0x3f00_0000u32;

/// How a split divides its area.
#[derive(Debug, Clone, Copy, PartialEq, Eq, Structural)]
pub enum SplitDirection {
    Horizontal,
    Vertical,
}

/// A tree of terminals: a single terminal, or two subtrees side by side.
#[derive(Debug)]
pub enum TerminalNode {
    Leaf { terminal_id: u64 },
    Split {
        direction: SplitDirection,
        ratio_bits: u32,
        left: Box<TerminalNode>,
        right: Box<TerminalNode>,
    },
}

/// The terminal ids of a tree, left to right.
pub open spec fn ids(n: TerminalNode) -> Seq<u64>
    decreases n,
{
    match n {
        TerminalNode::Leaf { terminal_id } => seq![terminal_id],
        TerminalNode::Split { left, right, .. } => ids(*left) + ids(*right),
    }
}

/// The tree without the terminal `id`: a split that loses one side is
/// replaced by the other side; `None` when nothing is left.
pub open spec fn removed(n: TerminalNode, id: u64) -> Option<TerminalNode>
    decreases n,
{
    match n {
        TerminalNode::Leaf { terminal_id } => if terminal_id == id {
            None
        } else {
            Some(n)
        },
        TerminalNode::Split { direction, ratio_bits, left, right } => {
            match (removed(*left, id), removed(*right, id)) {
                (Some(l), Some(r)) => Some(
                    TerminalNode::Split {
                        direction,
                        ratio_bits,
                        left: Box::new(l),
                        right: Box::new(r),
                    },
                ),
                (Some(x), None) => Some(x),
                (None, Some(x)) => Some(x),
                (None, None) => None,
            }
        },
    }
}

/// `s` without the occurrences of `id`, order kept.
pub open spec fn without(s: Seq<u64>, id: u64) -> Seq<u64>
    decreases s.len(),
{
    if s.len() == 0 {
        s
    } else if s.last() == id {
        without(s.drop_last(), id)
    } else {
        without(s.drop_last(), id).push(s.last())
    }
}

/// The ids of a possibly empty tree.
pub open spec fn opt_ids(n: Option<TerminalNode>) -> Seq<u64> {
    match n {
        Some(t) => ids(t),
        None => seq![],
    }
}

impl Clone for TerminalNode {
    /// A copy of the tree.
    fn clone(&self) -> (r: Self)
        ensures
            r == *self,
        decreases self,
    {
        match self {
            TerminalNode::Leaf { terminal_id } => TerminalNode::Leaf { terminal_id: *terminal_id },
            TerminalNode::Split { direction, ratio_bits, left, right } => {
                let l: TerminalNode = (**left).clone();
                let r: TerminalNode = (**right).clone();
                TerminalNode::Split {
                    direction: *direction,
                    ratio_bits: *ratio_bits,
                    left: Box::new(l),
                    right: Box::new(r),
                }
            },
        }
    }
}

impl TerminalNode {
    /// A tree of one terminal.
    pub fn single(terminal_id: u64) -> (n: Self)
        ensures
            n == (TerminalNode::Leaf { terminal_id }),
    {
        TerminalNode::Leaf { terminal_id }
    }

    /// Split this node, placing the existing content on the left and a new terminal on the right.
    pub fn split(self, direction: SplitDirection, new_terminal_id: u64) -> (n: Self)
        ensures
            n == (TerminalNode::Split {
                direction,
                ratio_bits: HALF_RATIO_BITS,
                left: Box::new(self),
                right: Box::new(TerminalNode::Leaf { terminal_id: new_terminal_id }),
            }),
    {
        TerminalNode::Split {
            direction,
            ratio_bits: HALF_RATIO_BITS,
            left: Box::new(self),
            right: Box::new(TerminalNode::Leaf { terminal_id: new_terminal_id }),
        }
    }

    /// Get all terminal IDs in this tree.
    pub fn terminal_ids(&self) -> (v: Vec<u64>)
        ensures
            v@ == ids(*self),
        decreases self,
    {
        match self {
            TerminalNode::Leaf { terminal_id } => {
                let mut v = Vec::new();
                v.push(*terminal_id);
                assert(v@ == seq![*terminal_id]);
                v
            },
            TerminalNode::Split { left, right, .. } => {
                let mut v = left.terminal_ids();
                let mut r = right.terminal_ids();
                v.append(&mut r);
                v
            },
        }
    }

    /// Remove a terminal from the tree. Returns the simplified tree, or None if the tree is empty.
    pub fn remove(self, id: u64) -> (r: Option<Self>)
        ensures
            r == removed(self, id),
        decreases self,
    {
        match self {
            TerminalNode::Leaf { terminal_id } => {
                if terminal_id == id {
                    None
                } else {
                    Some(TerminalNode::Leaf { terminal_id })
                }
            },
            TerminalNode::Split { direction, ratio_bits, left, right } => {
                let l = (*left).remove(id);
                let r = (*right).remove(id);
                match (l, r) {
                    (Some(l), Some(r)) => Some(
                        TerminalNode::Split {
                            direction,
                            ratio_bits,
                            left: Box::new(l),
                            right: Box::new(r),
                        },
                    ),
                    (Some(node), None) => Some(node),
                    (None, Some(node)) => Some(node),
                    (None, None) => None,
                }
            },
        }
    }
}

proof fn lemma_without_concat(a: Seq<u64>, b: Seq<u64>, id: u64)
    ensures
        without(a + b, id) == without(a, id) + without(b, id),
    decreases b.len(),
{
    if b.len() == 0 {
        assert(a + b == a);
        assert(without(b, id) == b);
        assert(without(a, id) + without(b, id) == without(a, id));
    } else {
        assert((a + b).drop_last() == a + b.drop_last());
        assert((a + b).last() == b.last());
        lemma_without_concat(a, b.drop_last(), id);
        if b.last() == id {
        } else {
            assert(without(a, id) + without(b.drop_last(), id).push(b.last()) == (without(a, id)
                + without(b.drop_last(), id)).push(b.last()));
        }
    }
}

/// Removing a terminal leaves exactly the other terminals, in the same order.
pub proof fn law_remove_keeps_others(n: TerminalNode, id: u64)
    ensures
        opt_ids(removed(n, id)) == without(ids(n), id),
    decreases n,
{
    match n {
        TerminalNode::Leaf { terminal_id } => {
            let s = seq![terminal_id];
            assert(s.drop_last() == Seq::<u64>::empty());
            assert(without(Seq::<u64>::empty(), id) == Seq::<u64>::empty());
            if terminal_id != id {
                assert(Seq::<u64>::empty().push(terminal_id) == s);
            }
        },
        TerminalNode::Split { direction, ratio_bits, left, right } => {
            law_remove_keeps_others(*left, id);
            law_remove_keeps_others(*right, id);
            lemma_without_concat(ids(*left), ids(*right), id);
            match (removed(*left, id), removed(*right, id)) {
                (Some(l), Some(r)) => {},
                (Some(x), None) => {
                    assert(without(ids(*left), id) + Seq::<u64>::empty() == without(
                        ids(*left),
                        id,
                    ));
                },
                (None, Some(x)) => {
                    assert(Seq::<u64>::empty() + without(ids(*right), id) == without(
                        ids(*right),
                        id,
                    ));
                },
                (None, None) => {
                    assert(Seq::<u64>::empty() + Seq::<u64>::empty() == Seq::<u64>::empty());
                },
            }
        },
    }
}

/// Splitting a node appends the new terminal after the existing ones.
pub proof fn law_split_appends(n: TerminalNode, direction: SplitDirection, new_terminal_id: u64)
    ensures
        ids(
            TerminalNode::Split {
                direction,
                ratio_bits: HALF_RATIO_BITS,
                left: Box::new(n),
                right: Box::new(TerminalNode::Leaf { terminal_id: new_terminal_id }),
            },
        ) == ids(n).push(new_terminal_id),
{
    let leaf = TerminalNode::Leaf { terminal_id: new_terminal_id };
    assert(ids(leaf) == seq![new_terminal_id]);
    assert(ids(n) + seq![new_terminal_id] == ids(n).push(new_terminal_id));
}

/// A tree always holds at least one terminal.
pub proof fn law_tree_not_empty(n: TerminalNode)
    ensures
        ids(n).len() >= 1,
    decreases n,
{
    match n {
        TerminalNode::Leaf { .. } => {},
        TerminalNode::Split { left, right, .. } => {
            law_tree_not_empty(*left);
        },
    }
}

/// Removing a terminal that is not in the tree gives the tree back unchanged.
pub proof fn law_remove_absent(n: TerminalNode, id: u64)
    requires
        !ids(n).contains(id),
    ensures
        removed(n, id) == Some(n),
    decreases n,
{
    match n {
        TerminalNode::Leaf { terminal_id } => {
            assert(ids(n)[0] == terminal_id);
        },
        TerminalNode::Split { direction, ratio_bits, left, right } => {
            assert forall|x: u64| ids(*left).contains(x) implies ids(n).contains(x) by {
                let i = choose|i: int| 0 <= i < ids(*left).len() && ids(*left)[i] == x;
                assert(ids(n)[i] == x);
            }
            assert forall|x: u64| ids(*right).contains(x) implies ids(n).contains(x) by {
                let i = choose|i: int| 0 <= i < ids(*right).len() && ids(*right)[i] == x;
                assert(ids(n)[ids(*left).len() + i] == x);
            }
            law_remove_absent(*left, id);
            law_remove_absent(*right, id);
        },
    }
}

} // verus!
