//! Animation channels and the sampler that buckets them into frame slots.
//!
//! A channel carries time-tagged samples for one property of one node. A
//! sample at time `t` lands in integer frame slot `floor(t)`; the mapping is
//! many-to-one, and where several samples of a channel land in one slot, or
//! several channels write one cell, the last write in declaration order
//! wins. The largest slot reached by any sample fixes the clip's frame
//! count; a clip with no samples has exactly one frame.

use vstd::prelude::*;

verus! {

use crate::error::BakeError;
use crate::math::{
    Scalar, frame_slot, frame_slot_of, negative_of, scalar_is_negative, scalar_lt, scalar_lt_of,
};

/// The samples of one channel: each pairs a time with the value the
/// targeted property takes.
pub enum ChannelSamples {
    Translation(Vec<(Scalar, glam::Vec3)>),
    Rotation(Vec<(Scalar, glam::Quat)>),
    Scale(Vec<(Scalar, glam::Vec3)>),
}

/// An animation channel: the node it targets and its samples.
pub struct Channel {
    pub target: usize,
    pub samples: ChannelSamples,
}

/// One cell of the sparse grid: the property values some channel wrote at
/// one frame for one node, each present or absent.
#[derive(Clone, Copy)]
pub struct BoneChannelData {
    pub translation: Option<glam::Vec3>,
    pub rotation: Option<glam::Quat>,
    pub scale: Option<glam::Vec3>,
}

impl BoneChannelData {
    /// The cell no channel has written.
    pub fn empty() -> (r: Self)
        ensures
            r == (BoneChannelData { translation: None, rotation: None, scale: None }),
    {
        BoneChannelData { translation: None, rotation: None, scale: None }
    }
}

/// The times of a sample sequence.
pub open spec fn spec_times<V>(s: Seq<(Scalar, V)>) -> Seq<glam::Vec2> {
    Seq::new(s.len(), |i: int| s[i].0.raw)
}

/// The times of a channel's samples.
pub open spec fn spec_channel_times(c: Channel) -> Seq<glam::Vec2> {
    match c.samples {
        ChannelSamples::Translation(v) => spec_times(v@),
        ChannelSamples::Rotation(v) => spec_times(v@),
        ChannelSamples::Scale(v) => spec_times(v@),
    }
}

/// Valid sample times: none negative, strictly increasing, and each landing
/// in a representable frame slot.
pub open spec fn spec_times_valid(ts: Seq<glam::Vec2>) -> bool {
    &&& forall|i: int| 0 <= i < ts.len() ==> !negative_of(ts[i])
    &&& forall|i: int| #![trigger ts[i]] 0 < i < ts.len() ==> scalar_lt_of(ts[i - 1], ts[i])
    &&& forall|i: int| 0 <= i < ts.len() ==> frame_slot_of(ts[i]) < usize::MAX
}

/// A channel is valid for a node table of `node_count` nodes when it
/// targets a node of the table and its times are valid.
pub open spec fn spec_channel_valid(c: Channel, node_count: int) -> bool {
    c.target < node_count && spec_times_valid(spec_channel_times(c))
}

pub open spec fn spec_channels_valid(channels: Seq<Channel>, node_count: int) -> bool {
    forall|c: int| 0 <= c < channels.len() ==> spec_channel_valid(channels[c], node_count)
}

/// The largest frame slot reached by the times, zero where there are none.
pub open spec fn spec_max_slot_times(ts: Seq<glam::Vec2>) -> int
    decreases ts.len(),
{
    if ts.len() == 0 {
        0
    } else {
        let rest = spec_max_slot_times(ts.drop_last());
        let last = frame_slot_of(ts.last()) as int;
        if last > rest {
            last
        } else {
            rest
        }
    }
}

/// The largest frame slot reached by any channel's samples.
pub open spec fn spec_max_slot(channels: Seq<Channel>) -> int
    decreases channels.len(),
{
    if channels.len() == 0 {
        0
    } else {
        let rest = spec_max_slot(channels.drop_last());
        let here = spec_max_slot_times(spec_channel_times(channels.last()));
        if here > rest {
            here
        } else {
            rest
        }
    }
}

/// The number of frames the channels define: one more than the largest
/// slot, so one frame when no channel has samples.
pub open spec fn spec_frame_count(channels: Seq<Channel>) -> int {
    spec_max_slot(channels) + 1
}

/// The value of the last sample landing in `slot`, scanning the sequence
/// from its end.
pub open spec fn spec_last_sample_at<V>(s: Seq<(Scalar, V)>, slot: usize) -> Option<V>
    decreases s.len(),
{
    if s.len() == 0 {
        None
    } else if frame_slot_of(s.last().0.raw) == slot {
        Some(s.last().1)
    } else {
        spec_last_sample_at(s.drop_last(), slot)
    }
}

/// The translation the sparse grid holds at `(slot, node)`: what the last
/// translation channel write in declaration order left there.
pub open spec fn spec_sampled_translation(channels: Seq<Channel>, node: int, slot: usize) -> Option<
    glam::Vec3,
>
    decreases channels.len(),
{
    if channels.len() == 0 {
        None
    } else {
        let c = channels.last();
        let rest = spec_sampled_translation(channels.drop_last(), node, slot);
        match c.samples {
            ChannelSamples::Translation(v) => if c.target == node {
                match spec_last_sample_at(v@, slot) {
                    Some(x) => Some(x),
                    None => rest,
                }
            } else {
                rest
            },
            _ => rest,
        }
    }
}

/// As `spec_sampled_translation`, for rotation.
pub open spec fn spec_sampled_rotation(channels: Seq<Channel>, node: int, slot: usize) -> Option<
    glam::Quat,
>
    decreases channels.len(),
{
    if channels.len() == 0 {
        None
    } else {
        let c = channels.last();
        let rest = spec_sampled_rotation(channels.drop_last(), node, slot);
        match c.samples {
            ChannelSamples::Rotation(v) => if c.target == node {
                match spec_last_sample_at(v@, slot) {
                    Some(x) => Some(x),
                    None => rest,
                }
            } else {
                rest
            },
            _ => rest,
        }
    }
}

/// As `spec_sampled_translation`, for scale.
pub open spec fn spec_sampled_scale(channels: Seq<Channel>, node: int, slot: usize) -> Option<
    glam::Vec3,
>
    decreases channels.len(),
{
    if channels.len() == 0 {
        None
    } else {
        let c = channels.last();
        let rest = spec_sampled_scale(channels.drop_last(), node, slot);
        match c.samples {
            ChannelSamples::Scale(v) => if c.target == node {
                match spec_last_sample_at(v@, slot) {
                    Some(x) => Some(x),
                    None => rest,
                }
            } else {
                rest
            },
            _ => rest,
        }
    }
}

/// What every cell of the sparse grid holds.
pub open spec fn spec_sparse_cell(channels: Seq<Channel>, node: int, slot: usize) -> BoneChannelData {
    BoneChannelData {
        translation: spec_sampled_translation(channels, node, slot),
        rotation: spec_sampled_rotation(channels, node, slot),
        scale: spec_sampled_scale(channels, node, slot),
    }
}

/// Checks one sample sequence's times.
fn times_valid<V>(samples: &Vec<(Scalar, V)>) -> (r: bool)
    ensures
        r == spec_times_valid(spec_times(samples@)),
{
    let n = samples.len();
    for i in 0..n
        invariant
            n == samples@.len(),
            forall|j: int| 0 <= j < i ==> !negative_of(spec_times(samples@)[j]),
            forall|j: int| #![trigger spec_times(samples@)[j]] 0 < j < i ==> scalar_lt_of(
                spec_times(samples@)[j - 1],
                spec_times(samples@)[j],
            ),
            forall|j: int| 0 <= j < i ==> frame_slot_of(spec_times(samples@)[j]) < usize::MAX,
    {
        proof {
            assert(spec_times(samples@)[i as int] == samples@[i as int].0.raw);
        }
        if scalar_is_negative(&samples[i].0) {
            return false;
        }
        if frame_slot(&samples[i].0) == usize::MAX {
            return false;
        }
        if i > 0 {
            proof {
                assert(spec_times(samples@)[i - 1] == samples@[i - 1].0.raw);
            }
            if !scalar_lt(&samples[i - 1].0, &samples[i].0) {
                return false;
            }
        }
    }
    true
}

/// The largest frame slot the samples reach.
fn max_slot_times<V>(samples: &Vec<(Scalar, V)>) -> (r: usize)
    ensures
        r == spec_max_slot_times(spec_times(samples@)),
{
    let mut m: usize = 0;
    let n = samples.len();
    proof {
        assert(spec_times(samples@).take(0) =~= Seq::<glam::Vec2>::empty());
    }
    for i in 0..n
        invariant
            n == samples@.len(),
            m == spec_max_slot_times(spec_times(samples@).take(i as int)),
    {
        proof {
            assert(spec_times(samples@).take(i + 1).drop_last() =~= spec_times(samples@).take(
                i as int,
            ));
            assert(spec_times(samples@).take(i + 1).last() == spec_times(samples@)[i as int]);
        }
        let slot = frame_slot(&samples[i].0);
        if slot > m {
            m = slot;
        }
    }
    proof {
        assert(spec_times(samples@).take(n as int) =~= spec_times(samples@));
    }
    m
}

/// Each time's slot is at most the sequence's largest slot.
proof fn lemma_slot_le_max_times(ts: Seq<glam::Vec2>, i: int)
    requires
        0 <= i < ts.len(),
    ensures
        frame_slot_of(ts[i]) <= spec_max_slot_times(ts),
    decreases ts.len(),
{
    if i == ts.len() - 1 {
    } else {
        lemma_slot_le_max_times(ts.drop_last(), i);
    }
}

/// Each channel's largest slot is at most the overall largest slot.
proof fn lemma_channel_max_le_max(channels: Seq<Channel>, c: int)
    requires
        0 <= c < channels.len(),
    ensures
        spec_max_slot_times(spec_channel_times(channels[c])) <= spec_max_slot(channels),
    decreases channels.len(),
{
    if c == channels.len() - 1 {
    } else {
        lemma_channel_max_le_max(channels.drop_last(), c);
    }
}

/// Builds the sparse grid: `spec_frame_count` rows of one cell per node,
/// each cell holding what the channels wrote there, last write winning.
/// Channels are checked first: one with a bad target or bad times fails the
/// whole sampling, and the error names the first such channel.
pub fn sample_channels(node_count: usize, channels: &Vec<Channel>) -> (r: Result<
    Vec<Vec<BoneChannelData>>,
    BakeError,
>)
    ensures
        r is Ok <==> spec_channels_valid(channels@, node_count as int),
        r matches Ok(g) ==> {
            &&& g@.len() == spec_frame_count(channels@)
            &&& forall|f: int| 0 <= f < g@.len() ==> #[trigger] g@[f]@.len() == node_count
            &&& forall|f: int, nd: int|
                0 <= f < g@.len() && 0 <= nd < node_count ==> #[trigger] g@[f]@[nd]
                    == spec_sparse_cell(channels@, nd, f as usize)
        },
        r matches Err(e) ==> match e {
            BakeError::ChannelTargetOutOfRange { channel } => {
                &&& 0 <= channel < channels@.len()
                &&& channels@[channel as int].target >= node_count
                &&& forall|c: int|
                    0 <= c < channel ==> spec_channel_valid(channels@[c], node_count as int)
            },
            BakeError::InvalidSampleTime { channel } => {
                &&& 0 <= channel < channels@.len()
                &&& channels@[channel as int].target < node_count
                &&& !spec_times_valid(spec_channel_times(channels@[channel as int]))
                &&& forall|c: int|
                    0 <= c < channel ==> spec_channel_valid(channels@[c], node_count as int)
            },
            _ => false,
        },
{
    let num_channels = channels.len();

    // Validate every channel before touching the grid.
    for c in 0..num_channels
        invariant
            num_channels == channels@.len(),
            forall|c2: int| 0 <= c2 < c ==> spec_channel_valid(channels@[c2], node_count as int),
    {
        if channels[c].target >= node_count {
            return Err(BakeError::ChannelTargetOutOfRange { channel: c });
        }
        let ok = match &channels[c].samples {
            ChannelSamples::Translation(v) => times_valid(v),
            ChannelSamples::Rotation(v) => times_valid(v),
            ChannelSamples::Scale(v) => times_valid(v),
        };
        if !ok {
            return Err(BakeError::InvalidSampleTime { channel: c });
        }
    }

    // The clip length: one more than the largest slot in use.
    let mut max_frame: usize = 0;
    for c in 0..num_channels
        invariant
            num_channels == channels@.len(),
            spec_channels_valid(channels@, node_count as int),
            max_frame == spec_max_slot(channels@.take(c as int)),
            max_frame < usize::MAX,
    {
        proof {
            assert(channels@.take(c + 1).drop_last() =~= channels@.take(c as int));
            assert(channels@.take(c + 1).last() == channels@[c as int]);
        }
        let here = match &channels[c].samples {
            ChannelSamples::Translation(v) => max_slot_times(v),
            ChannelSamples::Rotation(v) => max_slot_times(v),
            ChannelSamples::Scale(v) => max_slot_times(v),
        };
        proof {
            lemma_max_slot_times_bound(spec_channel_times(channels@[c as int]));
        }
        if here > max_frame {
            max_frame = here;
        }
    }
    proof {
        assert(channels@.take(num_channels as int) =~= channels@);
    }
    let num_keyframes = max_frame + 1;

    // An empty grid of the right shape.
    let mut grid: Vec<Vec<BoneChannelData>> = Vec::new();
    for f in 0..num_keyframes
        invariant
            grid@.len() == f,
            forall|f2: int| 0 <= f2 < f ==> #[trigger] grid@[f2]@.len() == node_count,
            forall|f2: int, nd: int|
                0 <= f2 < f && 0 <= nd < node_count ==> #[trigger] grid@[f2]@[nd]
                    == (BoneChannelData { translation: None, rotation: None, scale: None }),
    {
        let mut row: Vec<BoneChannelData> = Vec::new();
        for nd in 0..node_count
            invariant
                row@.len() == nd,
                forall|nd2: int|
                    0 <= nd2 < nd ==> #[trigger] row@[nd2] == (BoneChannelData {
                        translation: None,
                        rotation: None,
                        scale: None,
                    }),
        {
            row.push(BoneChannelData::empty());
        }
        grid.push(row);
    }
    proof {
        lemma_empty_grid_is_sampled(channels@.take(0), grid@, node_count as int);
        assert(channels@.take(0) =~= Seq::<Channel>::empty());
    }

    // Write every channel into the grid, in declaration order.
    for c in 0..num_channels
        invariant
            num_channels == channels@.len(),
            spec_channels_valid(channels@, node_count as int),
            spec_frame_count(channels@) == grid@.len(),
            grid@.len() == max_frame + 1,
            forall|f: int| 0 <= f < grid@.len() ==> #[trigger] grid@[f]@.len() == node_count,
            forall|f: int, nd: int|
                0 <= f < grid@.len() && 0 <= nd < node_count ==> #[trigger] grid@[f]@[nd]
                    == spec_sparse_cell(channels@.take(c as int), nd, f as usize),
    {
        proof {
            lemma_channel_max_le_max(channels@, c as int);
        }
        let target = channels[c].target;
        match &channels[c].samples {
            ChannelSamples::Translation(v) => {
                write_translation_channel(&mut grid, target, v);
            },
            ChannelSamples::Rotation(v) => {
                write_rotation_channel(&mut grid, target, v);
            },
            ChannelSamples::Scale(v) => {
                write_scale_channel(&mut grid, target, v);
            },
        }
        proof {
            assert(channels@.take(c + 1).drop_last() =~= channels@.take(c as int));
            assert(channels@.take(c + 1).last() == channels@[c as int]);
        }
    }
    proof {
        assert(channels@.take(num_channels as int) =~= channels@);
    }
    Ok(grid)
}

/// Writes one translation channel into the grid: each sample lands in its
/// time's slot, later samples overwriting earlier ones there.
fn write_translation_channel(
    grid: &mut Vec<Vec<BoneChannelData>>,
    target: usize,
    samples: &Vec<(Scalar, glam::Vec3)>,
)
    requires
        spec_max_slot_times(spec_times(samples@)) < old(grid)@.len(),
        forall|f: int| 0 <= f < old(grid)@.len() ==> target < #[trigger] old(grid)@[f]@.len(),
    ensures
        final(grid)@.len() == old(grid)@.len(),
        forall|f: int|
            0 <= f < old(grid)@.len() ==> #[trigger] final(grid)@[f]@.len() == old(
                grid,
            )@[f]@.len(),
        forall|f: int, nd: int|
            0 <= f < old(grid)@.len() && 0 <= nd < old(grid)@[f]@.len() && nd != target
                ==> #[trigger] final(grid)@[f]@[nd] == old(grid)@[f]@[nd],
        forall|f: int|
            0 <= f < old(grid)@.len() ==> #[trigger] final(grid)@[f]@[target as int]
                == (BoneChannelData {
                translation: match spec_last_sample_at(samples@, f as usize) {
                    Some(x) => Some(x),
                    None => old(grid)@[f]@[target as int].translation,
                },
                ..old(grid)@[f]@[target as int]
            }),
{
    let num_frames = grid.len();
    let n = samples.len();
    proof {
        assert(samples@.take(0) =~= Seq::<(Scalar, glam::Vec3)>::empty());
    }
    for s in 0..n
        invariant
            n == samples@.len(),
            num_frames == old(grid)@.len(),
            spec_max_slot_times(spec_times(samples@)) < old(grid)@.len(),
            forall|f: int| 0 <= f < old(grid)@.len() ==> target < #[trigger] old(grid)@[f]@.len(),
            grid@.len() == old(grid)@.len(),
            forall|f: int|
                0 <= f < old(grid)@.len() ==> #[trigger] grid@[f]@.len() == old(grid)@[f]@.len(),
            forall|f: int, nd: int|
                0 <= f < old(grid)@.len() && 0 <= nd < old(grid)@[f]@.len() && nd != target
                    ==> #[trigger] grid@[f]@[nd] == old(grid)@[f]@[nd],
            forall|f: int|
                0 <= f < old(grid)@.len() ==> #[trigger] grid@[f]@[target as int]
                    == (BoneChannelData {
                    translation: match spec_last_sample_at(samples@.take(s as int), f as usize) {
                        Some(x) => Some(x),
                        None => old(grid)@[f]@[target as int].translation,
                    },
                    ..old(grid)@[f]@[target as int]
                }),
    {
        proof {
            lemma_slot_le_max_times(spec_times(samples@), s as int);
            assert(samples@.take(s + 1).drop_last() =~= samples@.take(s as int));
            assert(samples@.take(s + 1).last() == samples@[s as int]);
        }
        let slot = frame_slot(&samples[s].0);
        grid[slot][target].translation = Some(samples[s].1);
    }
    proof {
        assert(samples@.take(n as int) =~= samples@);
    }
}

/// As `write_translation_channel`, for rotation.
fn write_rotation_channel(
    grid: &mut Vec<Vec<BoneChannelData>>,
    target: usize,
    samples: &Vec<(Scalar, glam::Quat)>,
)
    requires
        spec_max_slot_times(spec_times(samples@)) < old(grid)@.len(),
        forall|f: int| 0 <= f < old(grid)@.len() ==> target < #[trigger] old(grid)@[f]@.len(),
    ensures
        final(grid)@.len() == old(grid)@.len(),
        forall|f: int|
            0 <= f < old(grid)@.len() ==> #[trigger] final(grid)@[f]@.len() == old(
                grid,
            )@[f]@.len(),
        forall|f: int, nd: int|
            0 <= f < old(grid)@.len() && 0 <= nd < old(grid)@[f]@.len() && nd != target
                ==> #[trigger] final(grid)@[f]@[nd] == old(grid)@[f]@[nd],
        forall|f: int|
            0 <= f < old(grid)@.len() ==> #[trigger] final(grid)@[f]@[target as int]
                == (BoneChannelData {
                rotation: match spec_last_sample_at(samples@, f as usize) {
                    Some(x) => Some(x),
                    None => old(grid)@[f]@[target as int].rotation,
                },
                ..old(grid)@[f]@[target as int]
            }),
{
    let num_frames = grid.len();
    let n = samples.len();
    proof {
        assert(samples@.take(0) =~= Seq::<(Scalar, glam::Quat)>::empty());
    }
    for s in 0..n
        invariant
            n == samples@.len(),
            num_frames == old(grid)@.len(),
            spec_max_slot_times(spec_times(samples@)) < old(grid)@.len(),
            forall|f: int| 0 <= f < old(grid)@.len() ==> target < #[trigger] old(grid)@[f]@.len(),
            grid@.len() == old(grid)@.len(),
            forall|f: int|
                0 <= f < old(grid)@.len() ==> #[trigger] grid@[f]@.len() == old(grid)@[f]@.len(),
            forall|f: int, nd: int|
                0 <= f < old(grid)@.len() && 0 <= nd < old(grid)@[f]@.len() && nd != target
                    ==> #[trigger] grid@[f]@[nd] == old(grid)@[f]@[nd],
            forall|f: int|
                0 <= f < old(grid)@.len() ==> #[trigger] grid@[f]@[target as int]
                    == (BoneChannelData {
                    rotation: match spec_last_sample_at(samples@.take(s as int), f as usize) {
                        Some(x) => Some(x),
                        None => old(grid)@[f]@[target as int].rotation,
                    },
                    ..old(grid)@[f]@[target as int]
                }),
    {
        proof {
            lemma_slot_le_max_times(spec_times(samples@), s as int);
            assert(samples@.take(s + 1).drop_last() =~= samples@.take(s as int));
            assert(samples@.take(s + 1).last() == samples@[s as int]);
        }
        let slot = frame_slot(&samples[s].0);
        grid[slot][target].rotation = Some(samples[s].1);
    }
    proof {
        assert(samples@.take(n as int) =~= samples@);
    }
}

/// As `write_translation_channel`, for scale.
fn write_scale_channel(
    grid: &mut Vec<Vec<BoneChannelData>>,
    target: usize,
    samples: &Vec<(Scalar, glam::Vec3)>,
)
    requires
        spec_max_slot_times(spec_times(samples@)) < old(grid)@.len(),
        forall|f: int| 0 <= f < old(grid)@.len() ==> target < #[trigger] old(grid)@[f]@.len(),
    ensures
        final(grid)@.len() == old(grid)@.len(),
        forall|f: int|
            0 <= f < old(grid)@.len() ==> #[trigger] final(grid)@[f]@.len() == old(
                grid,
            )@[f]@.len(),
        forall|f: int, nd: int|
            0 <= f < old(grid)@.len() && 0 <= nd < old(grid)@[f]@.len() && nd != target
                ==> #[trigger] final(grid)@[f]@[nd] == old(grid)@[f]@[nd],
        forall|f: int|
            0 <= f < old(grid)@.len() ==> #[trigger] final(grid)@[f]@[target as int]
                == (BoneChannelData {
                scale: match spec_last_sample_at(samples@, f as usize) {
                    Some(x) => Some(x),
                    None => old(grid)@[f]@[target as int].scale,
                },
                ..old(grid)@[f]@[target as int]
            }),
{
    let num_frames = grid.len();
    let n = samples.len();
    proof {
        assert(samples@.take(0) =~= Seq::<(Scalar, glam::Vec3)>::empty());
    }
    for s in 0..n
        invariant
            n == samples@.len(),
            num_frames == old(grid)@.len(),
            spec_max_slot_times(spec_times(samples@)) < old(grid)@.len(),
            forall|f: int| 0 <= f < old(grid)@.len() ==> target < #[trigger] old(grid)@[f]@.len(),
            grid@.len() == old(grid)@.len(),
            forall|f: int|
                0 <= f < old(grid)@.len() ==> #[trigger] grid@[f]@.len() == old(grid)@[f]@.len(),
            forall|f: int, nd: int|
                0 <= f < old(grid)@.len() && 0 <= nd < old(grid)@[f]@.len() && nd != target
                    ==> #[trigger] grid@[f]@[nd] == old(grid)@[f]@[nd],
            forall|f: int|
                0 <= f < old(grid)@.len() ==> #[trigger] grid@[f]@[target as int]
                    == (BoneChannelData {
                    scale: match spec_last_sample_at(samples@.take(s as int), f as usize) {
                        Some(x) => Some(x),
                        None => old(grid)@[f]@[target as int].scale,
                    },
                    ..old(grid)@[f]@[target as int]
                }),
    {
        proof {
            lemma_slot_le_max_times(spec_times(samples@), s as int);
            assert(samples@.take(s + 1).drop_last() =~= samples@.take(s as int));
            assert(samples@.take(s + 1).last() == samples@[s as int]);
        }
        let slot = frame_slot(&samples[s].0);
        grid[slot][target].scale = Some(samples[s].1);
    }
    proof {
        assert(samples@.take(n as int) =~= samples@);
    }
}

/// The largest slot of valid times is below `usize::MAX`.
proof fn lemma_max_slot_times_bound(ts: Seq<glam::Vec2>)
    requires
        spec_times_valid(ts),
    ensures
        spec_max_slot_times(ts) < usize::MAX,
    decreases ts.len(),
{
    if ts.len() > 0 {
        assert(spec_times_valid(ts.drop_last()));
        lemma_max_slot_times_bound(ts.drop_last());
    }
}

/// A grid of empty cells is what zero channels sample.
proof fn lemma_empty_grid_is_sampled(
    channels: Seq<Channel>,
    grid: Seq<Vec<BoneChannelData>>,
    node_count: int,
)
    requires
        channels.len() == 0,
        forall|f: int, nd: int|
            0 <= f < grid.len() && 0 <= nd < node_count ==> #[trigger] grid[f]@[nd]
                == (BoneChannelData { translation: None, rotation: None, scale: None }),
    ensures
        forall|f: int, nd: int|
            0 <= f < grid.len() && 0 <= nd < node_count ==> #[trigger] grid[f]@[nd]
                == spec_sparse_cell(channels, nd, f as usize),
{
}

} // verus!
