//! PyTree structure metadata.
use vstd::prelude::*;
use std::sync::Arc;

verus! {

/// The kind of a PyTree node.
#[derive(Debug, Clone, PartialEq, Eq)]
pub enum NodeKind {
    Dict(Vec<String>),
    Tuple(usize),
    List(usize),
    Leaf,
}

/// Shape of a PyTree: its node kind, its children and its leaf count.
#[derive(Debug, Clone)]
pub struct TreeDef {
    pub kind: NodeKind,
    pub children: Vec<Arc<TreeDef>>,
    pub num_leaves: usize,
}

impl TreeDef {
    /// A single leaf: no children, one leaf.
    pub fn leaf() -> (t: Arc<Self>)
        ensures
            t.kind is Leaf,
            t.children@.len() == 0,
            t.num_leaves == 1,
    {
        Arc::new(TreeDef { kind: NodeKind::Leaf, children: Vec::new(), num_leaves: 1 })
    }

    /// Whether the node is a leaf.
    pub fn is_leaf(&self) -> (b: bool)
        ensures
            b == self.kind is Leaf,
    {
        match self.kind {
            NodeKind::Leaf => true,
            _ => false,
        }
    }

    /// The number of leaves under the node.
    pub fn num_leaves(&self) -> (n: usize)
        ensures
            n == self.num_leaves,
    {
        self.num_leaves
    }
}

} // verus!
