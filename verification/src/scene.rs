//! The scene graph: building the node table and checking the hierarchy.
//!
//! Nodes arrive with a local bind transform and a list of child indices.
//! The builder turns declared children into at-most-one parent link per
//! node, rejecting a child claimed by two parents; the cycle check then
//! proves every parent chain reaches a root, so that later stages may walk
//! chains freely.

use vstd::prelude::*;

verus! {

use crate::error::BakeError;

/// A node as the scene description hands it over: its local bind transform,
/// the indices of its children, and whether a mesh hangs off it.
pub struct SceneNode {
    pub transform: glam::Mat4,
    pub children: Vec<usize>,
    pub has_mesh: bool,
}

/// A node of the built table: the same transform and mesh flag, with the
/// child lists resolved into an optional parent link.
pub struct Node {
    pub transform: glam::Mat4,
    pub parent_index: Option<usize>,
    pub has_mesh: bool,
}

/// Whether node `p` declares node `c` among its children.
pub open spec fn spec_declares(scene: Seq<SceneNode>, p: int, c: int) -> bool {
    0 <= p < scene.len() && scene[p].children@.contains(c as usize)
}

/// Every declared child names a node of the scene.
pub open spec fn spec_children_in_range(scene: Seq<SceneNode>) -> bool {
    forall|p: int, i: int|
        0 <= p < scene.len() && 0 <= i < scene[p].children@.len() ==> scene[p].children@[i]
            < scene.len()
}

/// No node is declared a child by two different parents.
pub open spec fn spec_single_parent(scene: Seq<SceneNode>) -> bool {
    forall|p1: int, p2: int, c: int|
        spec_declares(scene, p1, c) && spec_declares(scene, p2, c) ==> p1 == p2
}

/// What the built table must say of each node.
pub open spec fn spec_table_matches(scene: Seq<SceneNode>, table: Seq<Node>) -> bool {
    &&& table.len() == scene.len()
    &&& forall|i: int|
        0 <= i < scene.len() ==> #[trigger] table[i].transform == scene[i].transform
    &&& forall|i: int| 0 <= i < scene.len() ==> #[trigger] table[i].has_mesh == scene[i].has_mesh
    &&& forall|c: int|
        0 <= c < scene.len() ==> match #[trigger] table[c].parent_index {
            Some(p) => spec_declares(scene, p as int, c),
            None => forall|p: int| !spec_declares(scene, p, c),
        }
}

/// Parent links point at nodes of the table.
pub open spec fn spec_table_wf(table: Seq<Node>) -> bool {
    forall|i: int|
        0 <= i < table.len() ==> match #[trigger] table[i].parent_index {
            Some(p) => p < table.len(),
            None => true,
        }
}

/// What each error of the builder attests of the scene.
pub open spec fn spec_build_error_justified(scene: Seq<SceneNode>, e: BakeError) -> bool {
    match e {
        BakeError::ChildOutOfRange { parent, child } => spec_declares(
            scene,
            parent as int,
            child as int,
        ) && child >= scene.len(),
        BakeError::DuplicateParent { child } => exists|p1: int, p2: int|
            #![trigger spec_declares(scene, p1, child as int), spec_declares(scene, p2, child as int)]
            p1 != p2 && spec_declares(scene, p1, child as int) && spec_declares(
                scene,
                p2,
                child as int,
            ),
        _ => false,
    }
}

/// Builds the node table: one entry per node, each child's parent set to
/// the node that declared it. A child claimed by two different parents is a
/// malformed scene and is rejected; a parent repeating the same child is
/// taken once.
#[verifier::rlimit(60)]
pub fn build_node_table(scene: &Vec<SceneNode>) -> (r: Result<Vec<Node>, BakeError>)
    ensures
        r is Ok <==> spec_children_in_range(scene@) && spec_single_parent(scene@),
        r matches Ok(table) ==> spec_table_matches(scene@, table@) && spec_table_wf(table@),
        r matches Err(e) ==> spec_build_error_justified(scene@, e),
{
    let n = scene.len();
    let mut table: Vec<Node> = Vec::new();
    for i in 0..n
        invariant
            n == scene@.len(),
            table@.len() == i,
            forall|j: int| 0 <= j < i ==> #[trigger] table@[j].transform == scene@[j].transform,
            forall|j: int| 0 <= j < i ==> #[trigger] table@[j].has_mesh == scene@[j].has_mesh,
            forall|j: int| 0 <= j < i ==> #[trigger] table@[j].parent_index is None,
    {
        table.push(
            Node {
                transform: scene[i].transform,
                parent_index: None,
                has_mesh: scene[i].has_mesh,
            },
        );
    }

    for p in 0..n
        invariant
            n == scene@.len(),
            table@.len() == n,
            forall|j: int| 0 <= j < n ==> #[trigger] table@[j].transform == scene@[j].transform,
            forall|j: int| 0 <= j < n ==> #[trigger] table@[j].has_mesh == scene@[j].has_mesh,
            // Children of nodes before `p` are in range.
            forall|p2: int, i2: int|
                0 <= p2 < p && 0 <= i2 < scene@[p2].children@.len()
                    ==> scene@[p2].children@[i2] < n,
            // Each parent link so far records a declaration by a node before `p`.
            forall|c: int|
                0 <= c < n ==> match #[trigger] table@[c].parent_index {
                    Some(q) => q < p && spec_declares(scene@, q as int, c),
                    None => forall|q: int| 0 <= q < p ==> !spec_declares(scene@, q, c),
                },
            // No child seen twice from two distinct parents so far.
            forall|q1: int, q2: int, c: int|
                0 <= q1 < p && 0 <= q2 < p && spec_declares(scene@, q1, c) && spec_declares(
                    scene@,
                    q2,
                    c,
                ) ==> q1 == q2,
    {
        let m = scene[p].children.len();
        for i in 0..m
            invariant
                n == scene@.len(),
                p < n,
                m == scene@[p as int].children@.len(),
                table@.len() == n,
                forall|j: int|
                    0 <= j < n ==> #[trigger] table@[j].transform == scene@[j].transform,
                forall|j: int| 0 <= j < n ==> #[trigger] table@[j].has_mesh == scene@[j].has_mesh,
                forall|p2: int, i2: int|
                    0 <= p2 < p && 0 <= i2 < scene@[p2].children@.len()
                        ==> scene@[p2].children@[i2] < n,
                // Children of `p` seen so far are in range, hold their
                // parent link, and nobody before `p` declares them.
                forall|i2: int| 0 <= i2 < i ==> scene@[p as int].children@[i2] < n,
                forall|i2: int|
                    0 <= i2 < i ==> table@[#[trigger] scene@[p as int].children@[i2] as int].parent_index
                        == Some(p),
                forall|i2: int, q: int|
                    #![trigger spec_declares(scene@, q, scene@[p as int].children@[i2] as int)]
                    0 <= i2 < i && 0 <= q < p ==> !spec_declares(
                        scene@,
                        q,
                        scene@[p as int].children@[i2] as int,
                    ),
                // Parent links record declarations, by earlier nodes or by `p`
                // through a child already seen.
                forall|c: int|
                    0 <= c < n ==> match #[trigger] table@[c].parent_index {
                        Some(q) => spec_declares(scene@, q as int, c) && (q < p || (q == p
                            && exists|i2: int|
                                0 <= i2 < i && scene@[p as int].children@[i2] == c)),
                        None => (forall|q: int| 0 <= q < p ==> !spec_declares(scene@, q, c))
                            && (forall|i2: int|
                                0 <= i2 < i ==> scene@[p as int].children@[i2] != c),
                    },
                forall|q1: int, q2: int, c: int|
                    0 <= q1 < p && 0 <= q2 < p && spec_declares(scene@, q1, c) && spec_declares(
                        scene@,
                        q2,
                        c,
                    ) ==> q1 == q2,
        {
            let c = scene[p].children[i];
            proof {
                assert(spec_declares(scene@, p as int, c as int));
            }
            if c >= n {
                return Err(BakeError::ChildOutOfRange { parent: p, child: c });
            }
            match table[c].parent_index {
                Some(q) => {
                    if q != p {
                        proof {
                            assert(spec_declares(scene@, q as int, c as int));
                            assert(spec_declares(scene@, p as int, c as int));
                            assert(q as int != p as int);
                            assert(exists|p1: int, p2: int|
                                #![trigger spec_declares(scene@, p1, c as int), spec_declares(scene@, p2, c as int)]
                                p1 != p2 && spec_declares(scene@, p1, c as int) && spec_declares(
                                    scene@,
                                    p2,
                                    c as int,
                                ));
                            assert(!spec_single_parent(scene@));
                            assert(spec_build_error_justified(
                                scene@,
                                BakeError::DuplicateParent { child: c },
                            )) by {
                                let e = BakeError::DuplicateParent { child: c };
                                assert(e->DuplicateParent_child == c);
                                assert(spec_declares(
                                    scene@,
                                    q as int,
                                    e->DuplicateParent_child as int,
                                ));
                                assert(spec_declares(
                                    scene@,
                                    p as int,
                                    e->DuplicateParent_child as int,
                                ));
                                assert(q as int != p as int);
                            }
                        }
                        return Err(BakeError::DuplicateParent { child: c });
                    }
                },
                None => {
                    table[c].parent_index = Some(p);
                },
            }
        }
        proof {
            assert forall|q1: int, q2: int, c: int|
                0 <= q1 < p + 1 && 0 <= q2 < p + 1 && spec_declares(scene@, q1, c)
                    && spec_declares(scene@, q2, c) implies q1 == q2 by {
                if q1 != q2 && !(q1 < p && q2 < p) {
                    // One of the two is `p`; its child was just processed,
                    // and nobody before `p` declares a processed child.
                    let other = if q1 == p { q2 } else { q1 };
                    let mine = p as int;
                    assert(spec_declares(scene@, mine, c));
                    assert(scene@[mine].children@.contains(c as usize));
                    let i2 = choose|i2: int|
                        0 <= i2 < scene@[mine].children@.len() && scene@[mine].children@[i2]
                            == c as usize;
                    assert(!spec_declares(scene@, other, scene@[mine].children@[i2] as int));
                    assert((scene@[mine].children@[i2] as int) as usize == c as usize);
                    assert(!spec_declares(scene@, other, c));
                }
            }
        }
    }
    Ok(table)
}

} // verus!
