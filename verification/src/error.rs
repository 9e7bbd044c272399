//! The typed errors a bake can fail with. A bake either produces a whole
//! clip table or reports one of these; it never emits a partial table.

use vstd::prelude::*;

verus! {

#[derive(Clone, Copy, PartialEq, Eq, Structural, Debug)]
pub enum BakeError {
    /// A node lists a child index that names no node.
    ChildOutOfRange { parent: usize, child: usize },
    /// A node is claimed as a child by two different parents.
    DuplicateParent { child: usize },
    /// A node's parent chain never reaches a root.
    CyclicHierarchy { node: usize },
    /// A node's bind transform cannot be rebuilt from scale, rotation and
    /// translation: it contains shear.
    NonDecomposableTransform { node: usize },
    /// A channel's sample times are negative, not increasing, or too large
    /// for a frame slot.
    InvalidSampleTime { channel: usize },
    /// A channel targets a node index that names no node.
    ChannelTargetOutOfRange { channel: usize },
    /// A mesh holds more than one geometric primitive, where one mesh must
    /// mean one bone slot.
    MultiPrimitiveMesh,
}

impl BakeError {
    /// A short description of the error.
    pub fn describe(&self) -> (r: &'static str)
    {
        match self {
            BakeError::ChildOutOfRange { .. } => "a node lists a child index out of range",
            BakeError::DuplicateParent { .. } => "a node is claimed as a child twice",
            BakeError::CyclicHierarchy { .. } => "the node hierarchy contains a cycle",
            BakeError::NonDecomposableTransform { .. } => "a bind transform contains shear",
            BakeError::InvalidSampleTime { .. } => "a channel's sample times are invalid",
            BakeError::ChannelTargetOutOfRange { .. } => "a channel targets a missing node",
            BakeError::MultiPrimitiveMesh => "a mesh holds more than one primitive",
        }
    }
}

} // verus!
