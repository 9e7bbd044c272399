//! The bake pipeline: from a scene description and its animations to baked
//! clips.
//!
//! For each animation the channels are bucketed into a sparse grid, the
//! grid is completed from the bind pose, local transforms are composed up
//! the hierarchy into world space, and the world table is restricted to
//! mesh-bearing nodes, in ascending node order — an order fixed by the node
//! table alone and therefore shared by every clip of one character. Any
//! failure aborts the whole bake: no partial table is ever returned.

use vstd::prelude::*;

verus! {

use crate::channels::{
    Channel, sample_channels, spec_channels_valid, spec_frame_count, spec_sparse_cell,
    spec_times_valid, spec_channel_times, BoneChannelData,
};
use crate::clip::AnimationData;
use crate::compose::{compose_world, spec_acyclic, spec_local_mats, spec_world};
use crate::error::BakeError;
use crate::fill::{fill_gaps, spec_cell_incomplete, spec_opt_or, spec_resolved};
use crate::math::Scalar;
use crate::scene::{
    Node, SceneNode, build_node_table, spec_children_in_range, spec_declares, spec_single_parent,
    spec_table_matches, spec_table_wf,
};
use crate::trs::{Trs, spec_decomposable, spec_decompose_trs, spec_trs_matrix};

/// One animation as the scene description hands it over: a name and its
/// channels.
pub struct AnimationSource {
    pub name: String,
    pub channels: Vec<Channel>,
}

/// The parent the scene's child lists give a node, where it has one. With
/// a single-parent scene this pins the node table completely.
pub open spec fn spec_parent_of(scene: Seq<SceneNode>, c: int) -> Option<usize> {
    if exists|p: int| spec_declares(scene, p, c) {
        Some((choose|p: int| spec_declares(scene, p, c)) as usize)
    } else {
        None
    }
}

/// The node table a well-formed scene builds.
pub open spec fn spec_node_table(scene: Seq<SceneNode>) -> Seq<Node> {
    Seq::new(
        scene.len(),
        |c: int| Node {
            transform: scene[c].transform,
            parent_index: spec_parent_of(scene, c),
            has_mesh: scene[c].has_mesh,
        },
    )
}

/// With one parent per child, any table matching the scene is the table.
pub proof fn lemma_table_is_spec(scene: Seq<SceneNode>, table: Seq<Node>)
    requires
        spec_single_parent(scene),
        spec_table_matches(scene, table),
    ensures
        table == spec_node_table(scene),
{
    assert forall|c: int| 0 <= c < scene.len() implies table[c] == spec_node_table(scene)[c] by {
        assert(table[c].transform == scene[c].transform);
        assert(table[c].has_mesh == scene[c].has_mesh);
        match table[c].parent_index {
            Some(p) => {
                assert(spec_declares(scene, p as int, c));
                let q = choose|q: int| spec_declares(scene, q, c);
                assert(spec_declares(scene, q, c));
                assert(q == p as int);
                assert(0 <= q < scene.len());
                assert(spec_parent_of(scene, c) == Some(q as usize));
                assert(q as usize == p);
            },
            None => {
                assert(forall|p: int| !spec_declares(scene, p, c));
                assert(spec_parent_of(scene, c) is None);
            },
        }
        assert(table[c].parent_index == spec_parent_of(scene, c));
    }
    assert(table =~= spec_node_table(scene));
}

/// The mesh-bearing node indices, in ascending order. This order depends
/// on the node table alone, never on any animation's channels, so every
/// clip of one character shares it.
pub open spec fn spec_mesh_nodes(table: Seq<Node>) -> Seq<usize>
    decreases table.len(),
{
    if table.len() == 0 {
        Seq::empty()
    } else {
        let rest = spec_mesh_nodes(table.drop_last());
        if table.last().has_mesh {
            rest.push((table.len() - 1) as usize)
        } else {
            rest
        }
    }
}

/// Mesh node indices name nodes of the table.
pub proof fn lemma_mesh_nodes_in_range(table: Seq<Node>, k: int)
    requires
        0 <= k < spec_mesh_nodes(table).len(),
    ensures
        spec_mesh_nodes(table)[k] < table.len(),
    decreases table.len(),
{
    if table.len() > 0 {
        let rest = spec_mesh_nodes(table.drop_last());
        if k < rest.len() {
            lemma_mesh_nodes_in_range(table.drop_last(), k);
        }
    }
}

/// Collects the mesh-bearing node indices in ascending order.
fn mesh_node_indices(table: &Vec<Node>) -> (r: Vec<usize>)
    ensures
        r@ == spec_mesh_nodes(table@),
{
    let n = table.len();
    let mut r: Vec<usize> = Vec::new();
    proof {
        assert(table@.take(0) =~= Seq::<Node>::empty());
    }
    for i in 0..n
        invariant
            n == table@.len(),
            r@ == spec_mesh_nodes(table@.take(i as int)),
    {
        proof {
            assert(table@.take(i + 1).drop_last() =~= table@.take(i as int));
            assert(table@.take(i + 1).last() == table@[i as int]);
        }
        if table[i].has_mesh {
            r.push(i);
        }
    }
    proof {
        assert(table@.take(n as int) =~= table@);
    }
    r
}

/// Restricts each world-space frame to the mesh-bearing nodes, slot `k`
/// reading node `mesh[k]`, converted to TRS by plain decomposition. A clip
/// with no mesh nodes keeps its frame count, every frame an empty bone
/// row: a valid degenerate clip, not an error.
fn filter_mesh_frames(world: &Vec<Vec<glam::Mat4>>, mesh: &Vec<usize>, node_count: usize) -> (r:
    Vec<Vec<Trs>>)
    requires
        forall|f: int| 0 <= f < world@.len() ==> #[trigger] world@[f]@.len() == node_count,
        forall|k: int| 0 <= k < mesh@.len() ==> #[trigger] mesh@[k] < node_count,
    ensures
        r@.len() == world@.len(),
        forall|f: int| 0 <= f < r@.len() ==> #[trigger] r@[f]@.len() == mesh@.len(),
        forall|f: int, k: int|
            0 <= f < r@.len() && 0 <= k < mesh@.len() ==> #[trigger] r@[f]@[k]
                == spec_decompose_trs(world@[f]@[mesh@[k] as int]),
{
    let mut r: Vec<Vec<Trs>> = Vec::new();
    let frames = world.len();
    for f in 0..frames
        invariant
            frames == world@.len(),
            forall|f2: int| 0 <= f2 < frames ==> #[trigger] world@[f2]@.len() == node_count,
            forall|k: int| 0 <= k < mesh@.len() ==> #[trigger] mesh@[k] < node_count,
            r@.len() == f,
            forall|f2: int| 0 <= f2 < f ==> #[trigger] r@[f2]@.len() == mesh@.len(),
            forall|f2: int, k: int|
                0 <= f2 < f && 0 <= k < mesh@.len() ==> #[trigger] r@[f2]@[k]
                    == spec_decompose_trs(world@[f2]@[mesh@[k] as int]),
    {
        let m = mesh.len();
        let mut row: Vec<Trs> = Vec::new();
        for k in 0..m
            invariant
                frames == world@.len(),
                f < frames,
                m == mesh@.len(),
                forall|f2: int| 0 <= f2 < frames ==> #[trigger] world@[f2]@.len() == node_count,
                forall|k2: int| 0 <= k2 < m ==> #[trigger] mesh@[k2] < node_count,
                row@.len() == k,
                forall|k2: int|
                    0 <= k2 < k ==> #[trigger] row@[k2] == spec_decompose_trs(
                        world@[f as int]@[mesh@[k2] as int],
                    ),
        {
            row.push(Trs::decomposed(&world[f][mesh[k]]));
        }
        r.push(row);
    }
    r
}

/// The dense local TRS of node `nd` at frame `f`, written over the
/// channels themselves: the sampled value where one landed, the bind
/// component at frame zero otherwise, the previous frame's value later.
pub open spec fn spec_dense_cell(channels: Seq<Channel>, table: Seq<Node>, f: int, nd: int) -> Trs
    decreases f,
{
    let cell = spec_sparse_cell(channels, nd, if f <= 0 {
        0 as usize
    } else {
        f as usize
    });
    if f <= 0 {
        let bind = spec_decompose_trs(table[nd].transform);
        Trs {
            translation: spec_opt_or(cell.translation, bind.translation),
            rotation: spec_opt_or(cell.rotation, bind.rotation),
            scale: spec_opt_or(cell.scale, bind.scale),
        }
    } else {
        let prev = spec_dense_cell(channels, table, f - 1, nd);
        Trs {
            translation: spec_opt_or(cell.translation, prev.translation),
            rotation: spec_opt_or(cell.rotation, prev.rotation),
            scale: spec_opt_or(cell.scale, prev.scale),
        }
    }
}

/// A grid holding every sampled cell resolves to the dense cells.
proof fn lemma_resolved_is_dense_cell(
    grid: Seq<Vec<BoneChannelData>>,
    channels: Seq<Channel>,
    table: Seq<Node>,
    f: int,
    nd: int,
)
    requires
        0 <= f < grid.len(),
        0 <= nd < table.len(),
        forall|f2: int| 0 <= f2 < grid.len() ==> #[trigger] grid[f2]@.len() == table.len(),
        forall|f2: int, nd2: int|
            0 <= f2 < grid.len() && 0 <= nd2 < table.len() ==> #[trigger] grid[f2]@[nd2]
                == spec_sparse_cell(channels, nd2, f2 as usize),
    ensures
        spec_resolved(grid, table, f, nd) == spec_dense_cell(channels, table, f, nd),
    decreases f,
{
    if f > 0 {
        lemma_resolved_is_dense_cell(grid, channels, table, f - 1, nd);
    }
}

/// One frame of a baked clip: slot `k` holds the world transform of mesh
/// node `k`, decomposed to TRS.
pub open spec fn spec_baked_frame(channels: Seq<Channel>, table: Seq<Node>, f: int) -> Seq<Trs> {
    let locals = Seq::new(table.len(), |nd: int| spec_dense_cell(channels, table, f, nd));
    let mats = spec_local_mats(locals);
    let mesh = spec_mesh_nodes(table);
    Seq::new(
        mesh.len(),
        |k: int|
            spec_decompose_trs(spec_world(table, mats, mesh[k] as int, table.len() as nat)),
    )
}

/// All frames of a baked clip: one per frame slot the channels define,
/// never fewer than one. A table without mesh nodes keeps that frame
/// count, each frame an empty bone row.
pub open spec fn spec_baked_frames(channels: Seq<Channel>, table: Seq<Node>) -> Seq<Seq<Trs>> {
    Seq::new(spec_frame_count(channels) as nat, |f: int| spec_baked_frame(channels, table, f))
}

/// Whether one animation's channels bake against a table: every channel
/// valid, and every node a gap fill must derive from its bind pose
/// decomposable.
pub open spec fn spec_anim_bakes(channels: Seq<Channel>, table: Seq<Node>, tol: glam::Vec2) -> bool {
    &&& spec_channels_valid(channels, table.len() as int)
    &&& forall|nd: int|
        0 <= nd < table.len() && spec_cell_incomplete(
            #[trigger] spec_sparse_cell(channels, nd, 0),
        ) ==> spec_decomposable(table[nd].transform, tol)
}

/// Whether the whole scene bakes: a well-formed forest, and every
/// animation baking against its table.
pub open spec fn spec_bake_ok(
    scene: Seq<SceneNode>,
    animations: Seq<AnimationSource>,
    tol: glam::Vec2,
) -> bool {
    &&& spec_children_in_range(scene)
    &&& spec_single_parent(scene)
    &&& spec_acyclic(spec_node_table(scene))
    &&& forall|a: int|
        0 <= a < animations.len() ==> spec_anim_bakes(
            #[trigger] animations[a].channels@,
            spec_node_table(scene),
            tol,
        )
}

/// Bakes every animation of a scene into a clip table. The result is all
/// or nothing: the first failure of any stage aborts the bake.
pub fn build_animation_list(
    scene: &Vec<SceneNode>,
    animations: &Vec<AnimationSource>,
    tolerance: &Scalar,
) -> (r: Result<Vec<AnimationData>, BakeError>)
    ensures
        r is Ok <==> spec_bake_ok(scene@, animations@, tolerance.raw),
        r matches Ok(out) ==> {
            &&& out@.len() == animations@.len()
            &&& forall|a: int|
                0 <= a < animations@.len() ==> (#[trigger] out@[a].name)@ == animations@[a].name@
            &&& forall|a: int|
                0 <= a < animations@.len() ==> (#[trigger] out@[a].data)@.len()
                    == spec_baked_frames(animations@[a].channels@, spec_node_table(scene@)).len()
            &&& forall|a: int, f: int|
                0 <= a < animations@.len() && 0 <= f < out@[a].data@.len()
                    ==> (#[trigger] out@[a].data@[f])@ == spec_baked_frames(
                    animations@[a].channels@,
                    spec_node_table(scene@),
                )[f]
        },
        r matches Err(e) ==> match e {
            BakeError::ChildOutOfRange { .. } | BakeError::DuplicateParent { .. } => !(
            spec_children_in_range(scene@) && spec_single_parent(scene@)),
            BakeError::CyclicHierarchy { .. } => spec_children_in_range(scene@)
                && spec_single_parent(scene@) && !spec_acyclic(spec_node_table(scene@)),
            BakeError::ChannelTargetOutOfRange { channel } => exists|a: int|
                0 <= a < animations@.len()
                    && #[trigger] animations@[a].channels@[channel as int].target
                    >= spec_node_table(scene@).len(),
            BakeError::InvalidSampleTime { channel } => exists|a: int|
                0 <= a < animations@.len() && !spec_times_valid(
                    spec_channel_times(#[trigger] animations@[a].channels@[channel as int]),
                ),
            BakeError::NonDecomposableTransform { node } => exists|a: int|
                0 <= a < animations@.len() && spec_cell_incomplete(
                    spec_sparse_cell(#[trigger] animations@[a].channels@, node as int, 0),
                ) && !spec_decomposable(
                    spec_node_table(scene@)[node as int].transform,
                    tolerance.raw,
                ),
            BakeError::MultiPrimitiveMesh => false,
        },
{
    let table = match build_node_table(scene) {
        Ok(t) => t,
        Err(e) => {
            return Err(e);
        },
    };
    proof {
        lemma_table_is_spec(scene@, table@);
    }
    match crate::compose::check_acyclic(&table) {
        Ok(()) => {},
        Err(e) => {
            return Err(e);
        },
    }
    let mesh = mesh_node_indices(&table);
    proof {
        assert forall|k: int| 0 <= k < mesh@.len() implies #[trigger] mesh@[k]
            < table@.len() by {
            lemma_mesh_nodes_in_range(table@, k);
        }
    }
    let n = table.len();
    let num_animations = animations.len();
    let mut out: Vec<AnimationData> = Vec::new();
    for a in 0..num_animations
        invariant
            num_animations == animations@.len(),
            n == table@.len(),
            table@ == spec_node_table(scene@),
            spec_table_wf(table@),
            spec_acyclic(table@),
            mesh@ == spec_mesh_nodes(table@),
            forall|k: int| 0 <= k < mesh@.len() ==> #[trigger] mesh@[k] < n,
            out@.len() == a,
            forall|a2: int|
                0 <= a2 < a ==> spec_anim_bakes(
                    #[trigger] animations@[a2].channels@,
                    table@,
                    tolerance.raw,
                ),
            forall|a2: int|
                0 <= a2 < a ==> (#[trigger] out@[a2].name)@ == animations@[a2].name@,
            forall|a2: int|
                0 <= a2 < a ==> (#[trigger] out@[a2].data)@.len() == spec_baked_frames(
                    animations@[a2].channels@,
                    table@,
                ).len(),
            forall|a2: int, f: int|
                0 <= a2 < a && 0 <= f < out@[a2].data@.len() ==> (#[trigger] out@[a2].data@[f])@
                    == spec_baked_frames(animations@[a2].channels@, table@)[f],
    {
        let src = &animations[a];
        let sparse = match sample_channels(n, &src.channels) {
            Ok(g) => g,
            Err(e) => {
                return Err(e);
            },
        };
        let dense = match fill_gaps(&sparse, &table, tolerance) {
            Ok(d) => d,
            Err(e) => {
                return Err(e);
            },
        };
        proof {
            assert forall|f: int, nd: int|
                0 <= f < dense@.len() && 0 <= nd < n implies #[trigger] dense@[f]@[nd]
                == spec_dense_cell(src.channels@, table@, f, nd) by {
                lemma_resolved_is_dense_cell(sparse@, src.channels@, table@, f, nd);
            }
            assert(spec_anim_bakes(src.channels@, table@, tolerance.raw)) by {
                assert forall|nd: int|
                    0 <= nd < table@.len() && spec_cell_incomplete(
                        #[trigger] spec_sparse_cell(src.channels@, nd, 0),
                    ) implies spec_decomposable(table@[nd].transform, tolerance.raw) by {
                    assert(sparse@[0]@[nd] == spec_sparse_cell(src.channels@, nd, 0));
                }
            }
        }
        let world = match compose_world(&table, &dense) {
            Ok(w) => w,
            Err(e) => {
                proof {
                    assert(false);
                }
                return Err(e);
            },
        };
        let frames = filter_mesh_frames(&world, &mesh, n);
        proof {
            assert forall|f: int|
                0 <= f < frames@.len() implies (#[trigger] frames@[f])@ =~= spec_baked_frame(
                src.channels@,
                table@,
                f,
            ) by {
                let locals = Seq::new(
                    table@.len(),
                    |nd: int| spec_dense_cell(src.channels@, table@, f, nd),
                );
                assert(spec_local_mats(dense@[f]@) =~= spec_local_mats(locals));
            }
            assert(frames@.len() == spec_baked_frames(src.channels@, table@).len());
        }
        out.push(AnimationData { name: src.name.clone(), data: frames });
    }
    Ok(out)
}


/// The stable-order law: two clips baked over one node table lay out the
/// same bone slots — slot `k` of either reads the world transform of node
/// `spec_mesh_nodes(table)[k]`, whatever the two channel lists hold.
pub proof fn lemma_bone_order_stable(
    table: Seq<Node>,
    ch1: Seq<Channel>,
    ch2: Seq<Channel>,
    f1: int,
    f2: int,
    k: int,
)
    requires
        0 <= k < spec_mesh_nodes(table).len(),
    ensures
        spec_baked_frame(ch1, table, f1).len() == spec_baked_frame(ch2, table, f2).len(),
        spec_baked_frame(ch1, table, f1)[k] == spec_decompose_trs(
            spec_world(
                table,
                spec_local_mats(Seq::new(table.len(), |nd: int| spec_dense_cell(ch1, table, f1, nd))),
                spec_mesh_nodes(table)[k] as int,
                table.len() as nat,
            ),
        ),
        spec_baked_frame(ch2, table, f2)[k] == spec_decompose_trs(
            spec_world(
                table,
                spec_local_mats(Seq::new(table.len(), |nd: int| spec_dense_cell(ch2, table, f2, nd))),
                spec_mesh_nodes(table)[k] as int,
                table.len() as nat,
            ),
        ),
{
}

} // verus!
