//! Baked clips and the runtime blend primitive.
//!
//! A clip is an immutable table of frames, each an ordered row of
//! world-space TRS values, one per bone slot; the slot order is shared by
//! every frame and every clip baked from one node table. Playback blends
//! between a keyframe and the one after it, wrapping past the last frame
//! back to frame zero: a clip always loops, and a caller wanting to stop
//! at the end must keep its own bookkeeping.

use vstd::prelude::*;

verus! {

use crate::math::Scalar;
use crate::trs::{Trs, spec_trs_lerp};

/// A baked, named animation: `data[frame][bone_slot]` is a world-space
/// TRS.
#[derive(Debug)]
pub struct AnimationData {
    pub name: String,
    pub data: Vec<Vec<Trs>>,
}

impl AnimationData {
    /// Blends bone `index` between `keyframe` and the frame after it at
    /// weight `s`; past the last frame the blend wraps to frame zero.
    pub fn blend(&self, keyframe: usize, index: usize, s: &Scalar) -> (r: Trs)
        requires
            keyframe < self.data@.len(),
            index < self.data@[keyframe as int]@.len(),
            index < self.data@[(keyframe + 1) % (self.data@.len() as int)]@.len(),
        ensures
            r == spec_trs_lerp(
                self.data@[keyframe as int]@[index as int],
                self.data@[(keyframe + 1) % (self.data@.len() as int)]@[index as int],
                s.raw,
            ),
    {
        let frame_count = self.data.len();
        let next = (keyframe + 1) % frame_count;
        let curr = &self.data[keyframe][index];
        let next = &self.data[next][index];
        curr.lerp(next, s)
    }

    /// As `blend`, but checking its bounds: `None` exactly where the
    /// keyframe or the bone slot is out of range.
    pub fn try_blend(&self, keyframe: usize, index: usize, s: &Scalar) -> (r: Option<Trs>)
        ensures
            r is Some <==> {
                &&& keyframe < self.data@.len()
                &&& index < self.data@[keyframe as int]@.len()
                &&& index < self.data@[(keyframe + 1) % (self.data@.len() as int)]@.len()
            },
            r matches Some(t) ==> t == spec_trs_lerp(
                self.data@[keyframe as int]@[index as int],
                self.data@[(keyframe + 1) % (self.data@.len() as int)]@[index as int],
                s.raw,
            ),
    {
        if keyframe >= self.data.len() {
            return None;
        }
        let next = (keyframe + 1) % self.data.len();
        if index >= self.data[keyframe].len() {
            return None;
        }
        if index >= self.data[next].len() {
            return None;
        }
        Some(self.blend(keyframe, index, s))
    }
}

/// The loop-wrap law: blending from the last keyframe interpolates towards
/// frame zero, never past the last frame.
pub proof fn lemma_blend_wraps(clip: AnimationData, keyframe: usize, index: usize, s: Scalar)
    requires
        clip.data@.len() > 0,
        keyframe as int == clip.data@.len() - 1,
        index < clip.data@[keyframe as int]@.len(),
        index < clip.data@[0]@.len(),
    ensures
        spec_trs_lerp(
            clip.data@[keyframe as int]@[index as int],
            clip.data@[(keyframe + 1) % (clip.data@.len() as int)]@[index as int],
            s.raw,
        ) == spec_trs_lerp(
            clip.data@[keyframe as int]@[index as int],
            clip.data@[0]@[index as int],
            s.raw,
        ),
{
    let n = clip.data@.len() as int;
    assert((keyframe + 1) % n == 0) by {
        assert(n % n == 0) by (nonlinear_arith)
            requires
                n > 0,
        ;
    };
}

/// How many rendered frames each baked keyframe is held for during
/// playback.
pub const KEYFRAME_SPEED: usize = 8;

/// Splits a playback counter into the keyframe to blend from and the
/// number of rendered frames already spent on it; the caller turns the
/// remainder into the fractional blend weight.
pub fn playback_phase(counter: usize) -> (r: (usize, usize))
    ensures
        r.0 == counter / KEYFRAME_SPEED,
        r.1 == counter % KEYFRAME_SPEED,
{
    (counter / KEYFRAME_SPEED, counter % KEYFRAME_SPEED)
}

} // verus!
