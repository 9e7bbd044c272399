//! The gap filler: completing the sparse grid into dense local TRS.
//!
//! Each property of each node is filled independently. At frame zero an
//! absent property falls back to the component of the node's decomposed
//! bind transform; a bind transform that decomposition cannot rebuild is a
//! data error, reported, never papered over. After frame zero an absent
//! property holds the value resolved at the previous frame: one causal
//! left-to-right sweep, never consulting a later frame or another node.

use vstd::prelude::*;

verus! {

use crate::channels::{BoneChannelData, spec_sparse_cell};
use crate::error::BakeError;
use crate::math::Scalar;
use crate::scene::Node;
use crate::trs::{Trs, spec_decomposable, spec_decompose_trs};

/// The option's value, or the default where it is absent.
pub open spec fn spec_opt_or<T>(o: Option<T>, d: T) -> T {
    match o {
        Some(x) => x,
        None => d,
    }
}

/// Whether a cell still misses some property.
pub open spec fn spec_cell_incomplete(cell: BoneChannelData) -> bool {
    cell.translation is None || cell.rotation is None || cell.scale is None
}

/// The dense value of node `nd` at frame `f`: the sparse value where one
/// was sampled; at frame zero otherwise the bind component, later
/// otherwise the previous frame's resolved value.
pub open spec fn spec_resolved(
    sparse: Seq<Vec<BoneChannelData>>,
    table: Seq<Node>,
    f: int,
    nd: int,
) -> Trs
    decreases f,
{
    if f <= 0 {
        let cell = sparse[0]@[nd];
        let bind = spec_decompose_trs(table[nd].transform);
        Trs {
            translation: spec_opt_or(cell.translation, bind.translation),
            rotation: spec_opt_or(cell.rotation, bind.rotation),
            scale: spec_opt_or(cell.scale, bind.scale),
        }
    } else {
        let cell = sparse[f]@[nd];
        let prev = spec_resolved(sparse, table, f - 1, nd);
        Trs {
            translation: spec_opt_or(cell.translation, prev.translation),
            rotation: spec_opt_or(cell.rotation, prev.rotation),
            scale: spec_opt_or(cell.scale, prev.scale),
        }
    }
}

/// Completes the sparse grid into dense local TRS, frame by frame. Fails
/// on the first node whose frame-zero cell is incomplete while its bind
/// transform cannot be decomposed without loss.
pub fn fill_gaps(sparse: &Vec<Vec<BoneChannelData>>, table: &Vec<Node>, tolerance: &Scalar) -> (r:
    Result<Vec<Vec<Trs>>, BakeError>)
    requires
        sparse@.len() >= 1,
        forall|f: int| 0 <= f < sparse@.len() ==> #[trigger] sparse@[f]@.len() == table@.len(),
    ensures
        r is Ok <==> (forall|nd: int|
            0 <= nd < table@.len() && spec_cell_incomplete(#[trigger] sparse@[0]@[nd])
                ==> spec_decomposable(table@[nd].transform, tolerance.raw)),
        r matches Ok(d) ==> {
            &&& d@.len() == sparse@.len()
            &&& forall|f: int| 0 <= f < d@.len() ==> #[trigger] d@[f]@.len() == table@.len()
            &&& forall|f: int, nd: int|
                0 <= f < d@.len() && 0 <= nd < table@.len() ==> #[trigger] d@[f]@[nd]
                    == spec_resolved(sparse@, table@, f, nd)
        },
        r matches Err(e) ==> match e {
            BakeError::NonDecomposableTransform { node } => {
                &&& 0 <= node < table@.len()
                &&& spec_cell_incomplete(sparse@[0]@[node as int])
                &&& !spec_decomposable(table@[node as int].transform, tolerance.raw)
                &&& forall|nd: int|
                    0 <= nd < node ==> (spec_cell_incomplete(#[trigger] sparse@[0]@[nd])
                        ==> spec_decomposable(table@[nd].transform, tolerance.raw))
            },
            _ => false,
        },
{
    let n = table.len();
    let frames = sparse.len();

    // Frame zero: sampled values, with bind-pose components as defaults.
    let mut row0: Vec<Trs> = Vec::new();
    for nd in 0..n
        invariant
            n == table@.len(),
            frames == sparse@.len(),
            frames >= 1,
            forall|f: int| 0 <= f < frames ==> #[trigger] sparse@[f]@.len() == n,
            row0@.len() == nd,
            forall|nd2: int|
                0 <= nd2 < nd ==> #[trigger] row0@[nd2] == spec_resolved(sparse@, table@, 0, nd2),
            forall|nd2: int|
                0 <= nd2 < nd ==> (spec_cell_incomplete(#[trigger] sparse@[0]@[nd2])
                    ==> spec_decomposable(table@[nd2].transform, tolerance.raw)),
    {
        let cell = sparse[0][nd];
        if cell.translation.is_some() && cell.rotation.is_some() && cell.scale.is_some() {
            row0.push(
                Trs {
                    translation: cell.translation.unwrap(),
                    rotation: cell.rotation.unwrap(),
                    scale: cell.scale.unwrap(),
                },
            );
        } else {
            match Trs::from_matrix(&table[nd].transform, tolerance) {
                None => {
                    return Err(BakeError::NonDecomposableTransform { node: nd });
                },
                Some(bind) => {
                    let translation = match cell.translation {
                        Some(v) => v,
                        None => bind.translation,
                    };
                    let rotation = match cell.rotation {
                        Some(v) => v,
                        None => bind.rotation,
                    };
                    let scale = match cell.scale {
                        Some(v) => v,
                        None => bind.scale,
                    };
                    row0.push(Trs { translation, rotation, scale });
                },
            }
        }
    }

    let mut dense: Vec<Vec<Trs>> = Vec::new();
    dense.push(row0);

    // Later frames: sampled values, with the previous frame as default.
    for f in 1..frames
        invariant
            n == table@.len(),
            frames == sparse@.len(),
            forall|f2: int| 0 <= f2 < frames ==> #[trigger] sparse@[f2]@.len() == n,
            dense@.len() == f,
            forall|f2: int| 0 <= f2 < f ==> #[trigger] dense@[f2]@.len() == n,
            forall|f2: int, nd: int|
                0 <= f2 < f && 0 <= nd < n ==> #[trigger] dense@[f2]@[nd] == spec_resolved(
                    sparse@,
                    table@,
                    f2,
                    nd,
                ),
    {
        let mut row: Vec<Trs> = Vec::new();
        for nd in 0..n
            invariant
                n == table@.len(),
                frames == sparse@.len(),
                1 <= f < frames,
                forall|f2: int| 0 <= f2 < frames ==> #[trigger] sparse@[f2]@.len() == n,
                dense@.len() == f,
                forall|f2: int| 0 <= f2 < f ==> #[trigger] dense@[f2]@.len() == n,
                forall|f2: int, nd2: int|
                    0 <= f2 < f && 0 <= nd2 < n ==> #[trigger] dense@[f2]@[nd2] == spec_resolved(
                        sparse@,
                        table@,
                        f2,
                        nd2,
                    ),
                row@.len() == nd,
                forall|nd2: int|
                    0 <= nd2 < nd ==> #[trigger] row@[nd2] == spec_resolved(
                        sparse@,
                        table@,
                        f as int,
                        nd2,
                    ),
        {
            let cell = sparse[f][nd];
            let prev = dense[f - 1][nd];
            let translation = match cell.translation {
                Some(v) => v,
                None => prev.translation,
            };
            let rotation = match cell.rotation {
                Some(v) => v,
                None => prev.rotation,
            };
            let scale = match cell.scale {
                Some(v) => v,
                None => prev.scale,
            };
            row.push(Trs { translation, rotation, scale });
        }
        dense.push(row);
    }
    Ok(dense)
}

/// The monotonic hold law: where, for one node and one property, the
/// sparse grid is empty below slot `s0`, holds a value at `s0`, and holds
/// nothing above it, the dense grid shows the bind component strictly below
/// `s0` and the sampled value from `s0` on. Stated per property; this is
/// the translation form.
pub proof fn lemma_gap_fill_hold(
    sparse: Seq<Vec<BoneChannelData>>,
    table: Seq<Node>,
    nd: int,
    s0: int,
    val: glam::Vec3,
    f: int,
)
    requires
        0 <= nd,
        0 <= s0,
        0 <= f < sparse.len(),
        forall|f2: int|
            0 <= f2 < sparse.len() ==> #[trigger] sparse[f2]@[nd].translation == (if f2 == s0 {
                Some(val)
            } else {
                None::<glam::Vec3>
            }),
    ensures
        spec_resolved(sparse, table, f, nd).translation == (if f < s0 {
            spec_decompose_trs(table[nd].transform).translation
        } else {
            val
        }),
    decreases f,
{
    if f > 0 {
        lemma_gap_fill_hold(sparse, table, nd, s0, val, f - 1);
    }
}

/// The monotonic hold law for rotation.
pub proof fn lemma_gap_fill_hold_rotation(
    sparse: Seq<Vec<BoneChannelData>>,
    table: Seq<Node>,
    nd: int,
    s0: int,
    val: glam::Quat,
    f: int,
)
    requires
        0 <= nd,
        0 <= s0,
        0 <= f < sparse.len(),
        forall|f2: int|
            0 <= f2 < sparse.len() ==> #[trigger] sparse[f2]@[nd].rotation == (if f2 == s0 {
                Some(val)
            } else {
                None::<glam::Quat>
            }),
    ensures
        spec_resolved(sparse, table, f, nd).rotation == (if f < s0 {
            spec_decompose_trs(table[nd].transform).rotation
        } else {
            val
        }),
    decreases f,
{
    if f > 0 {
        lemma_gap_fill_hold_rotation(sparse, table, nd, s0, val, f - 1);
    }
}

/// The monotonic hold law for scale.
pub proof fn lemma_gap_fill_hold_scale(
    sparse: Seq<Vec<BoneChannelData>>,
    table: Seq<Node>,
    nd: int,
    s0: int,
    val: glam::Vec3,
    f: int,
)
    requires
        0 <= nd,
        0 <= s0,
        0 <= f < sparse.len(),
        forall|f2: int|
            0 <= f2 < sparse.len() ==> #[trigger] sparse[f2]@[nd].scale == (if f2 == s0 {
                Some(val)
            } else {
                None::<glam::Vec3>
            }),
    ensures
        spec_resolved(sparse, table, f, nd).scale == (if f < s0 {
            spec_decompose_trs(table[nd].transform).scale
        } else {
            val
        }),
    decreases f,
{
    if f > 0 {
        lemma_gap_fill_hold_scale(sparse, table, nd, s0, val, f - 1);
    }
}

} // verus!
