//! Keyed animation sets as the renderer holds them.

use vstd::prelude::*;

verus! {

use crate::command_list::InputCommand;

/// Which animation a character plays.
#[derive(Clone, Copy, PartialEq, Eq, Structural, Debug)]
pub enum AnimationKey {
    IdleStand,
    IdleCrouch,
    WalkForward,
    WalkBackward,
    DashForward,
    DashBackward,
    Jump,
    JumpForward,
    JumpBackward,
    BlockStand,
    BlockCrouch,
    InputCommand(InputCommand),
}

/// One keyframe of a keyed animation: how long it is held, and one
/// world-space transform per bone slot.
pub struct Keyframe {
    pub duration: usize,
    pub transforms: Vec<glam::Mat4>,
}

/// A keyed animation.
pub struct AnimationData {
    pub animation_key: AnimationKey,
    pub keyframes: Vec<Keyframe>,
}

/// Every keyed animation of one character.
pub struct Animations {
    pub data: Vec<AnimationData>,
}

} // verus!
