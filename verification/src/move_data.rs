//! Frame data for moves: what a move does on each frame it is active.

use vstd::prelude::*;

verus! {

use crate::command_list::MoveType;
use crate::rect::CollisionBoxes;

#[derive(Clone, Copy, PartialEq, Eq, Structural, Debug)]
pub enum CancelProperties {
    NoCancel,
    SpecialCancel,
}

#[derive(Clone, Copy, PartialEq, Eq, Structural, Debug)]
pub enum HitKind {
    High,
    Medium,
    Low,
}

pub struct StrikeData {
    pub damage: usize,
    pub hit_stun: usize,
    pub block_stun: usize,
    pub block_hitstop_frames: usize,
    pub hit_hitstop_frames: usize,
    pub cancel_properties: CancelProperties,
    pub hit_kind: HitKind,
}

#[derive(Clone, Copy, PartialEq, Eq, Structural, Debug)]
pub enum ThrowData {
    /// An ordinary throw.
    Standard,
}

pub enum AttackData {
    Strike(StrikeData),
    Throw(ThrowData),
}

pub struct Hitboxes {
    pub attack_data: AttackData,
    pub collision: Vec<CollisionBoxes>,
}

pub struct Hurtboxes {
    pub collision: Vec<CollisionBoxes>,
}

pub struct FrameData {
    pub frame_duration: usize,
    pub hitboxes: Option<Hitboxes>,
    pub hurtboxes: Option<Hurtboxes>,
    pub blocking_volume: Vec<CollisionBoxes>,
}

pub struct MoveData {
    pub move_type: MoveType,
    pub frame_data: Vec<FrameData>,
}

/// The sum of the frame durations of a move's frame data.
pub open spec fn spec_total_frames(frames: Seq<FrameData>) -> int
    decreases frames.len(),
{
    if frames.len() == 0 {
        0
    } else {
        spec_total_frames(frames.drop_last()) + frames.last().frame_duration
    }
}

impl MoveData {
    /// How many frames the move takes in all.
    pub fn get_total_frames(&self) -> (r: usize)
        requires
            spec_total_frames(self.frame_data@) <= usize::MAX,
        ensures
            r == spec_total_frames(self.frame_data@),
    {
        let mut total: usize = 0;
        let n = self.frame_data.len();
        proof {
            assert(self.frame_data@.take(0) =~= Seq::<FrameData>::empty());
        }
        for i in 0..n
            invariant
                n == self.frame_data@.len(),
                total == spec_total_frames(self.frame_data@.take(i as int)),
                spec_total_frames(self.frame_data@) <= usize::MAX,
        {
            proof {
                lemma_total_frames_prefix_bound(self.frame_data@, i + 1);
                assert(self.frame_data@.take(i + 1).drop_last() =~= self.frame_data@.take(
                    i as int,
                ));
                assert(self.frame_data@.take(i + 1).last() == self.frame_data@[i as int]);
            }
            total = total + self.frame_data[i].frame_duration;
        }
        proof {
            assert(self.frame_data@.take(n as int) =~= self.frame_data@);
        }
        total
    }
}

/// Every prefix sum of frame durations is at most the whole sum, since
/// durations are never negative.
proof fn lemma_total_frames_prefix_bound(frames: Seq<FrameData>, k: int)
    requires
        0 <= k <= frames.len(),
    ensures
        spec_total_frames(frames.take(k)) <= spec_total_frames(frames),
    decreases frames.len() - k,
{
    if k == frames.len() {
        assert(frames.take(k) =~= frames);
    } else {
        lemma_total_frames_prefix_bound(frames, k + 1);
        assert(frames.take(k + 1).drop_last() =~= frames.take(k));
        assert(spec_total_frames(frames.take(k)) <= spec_total_frames(frames.take(k + 1)));
    }
}

} // verus!
