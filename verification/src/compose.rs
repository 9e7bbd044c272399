//! World-space composition: walking parent chains.
//!
//! A node's world transform is its parent's world transform times its own
//! local matrix; a root's is its local matrix alone. The walk up the chain
//! is bounded by the node count, so a malformed table whose chains never
//! reach a root is reported as a cycle instead of looping forever.

use vstd::prelude::*;

verus! {

use crate::error::BakeError;
use crate::math::{mat_mul, mat_mul_of};
use crate::scene::{Node, spec_table_wf};
use crate::trs::{Trs, spec_trs_matrix};

/// The number of links from node `i` to its root, or `None` where `fuel`
/// links do not reach one.
pub open spec fn spec_chain_depth(table: Seq<Node>, i: int, fuel: nat) -> Option<nat>
    decreases fuel,
{
    if 0 <= i < table.len() {
        match table[i].parent_index {
            None => Some(0 as nat),
            Some(p) => if fuel == 0 {
                None
            } else {
                match spec_chain_depth(table, p as int, (fuel - 1) as nat) {
                    None => None,
                    Some(d) => Some((d + 1) as nat),
                }
            },
        }
    } else {
        None
    }
}

/// Every parent chain reaches a root within as many links as there are
/// nodes: the hierarchy is a forest.
pub open spec fn spec_acyclic(table: Seq<Node>) -> bool {
    forall|i: int| 0 <= i < table.len() ==> spec_chain_depth(table, i, table.len()) is Some
}

/// Chain depth does not change once the fuel is enough to reach the root.
pub proof fn lemma_chain_depth_fuel(table: Seq<Node>, i: int, f1: nat, f2: nat)
    requires
        spec_chain_depth(table, i, f1) is Some,
        f1 <= f2,
    ensures
        spec_chain_depth(table, i, f2) == spec_chain_depth(table, i, f1),
    decreases f1,
{
    if 0 <= i < table.len() {
        match table[i].parent_index {
            None => {},
            Some(p) => {
                lemma_chain_depth_fuel(table, p as int, (f1 - 1) as nat, (f2 - 1) as nat);
            },
        }
    }
}

/// A chain depth is at most the fuel that found it, and that depth alone
/// is already fuel enough.
pub proof fn lemma_chain_depth_tight(table: Seq<Node>, i: int, f: nat)
    requires
        spec_chain_depth(table, i, f) is Some,
    ensures
        spec_chain_depth(table, i, f)->Some_0 <= f,
        spec_chain_depth(table, i, spec_chain_depth(table, i, f)->Some_0) == spec_chain_depth(
            table,
            i,
            f,
        ),
    decreases f,
{
    if 0 <= i < table.len() {
        match table[i].parent_index {
            None => {},
            Some(p) => {
                lemma_chain_depth_tight(table, p as int, (f - 1) as nat);
            },
        }
    }
}

/// A node's parent sits one link closer to the root.
pub proof fn lemma_parent_depth(table: Seq<Node>, i: int)
    requires
        spec_table_wf(table),
        0 <= i < table.len(),
        spec_chain_depth(table, i, table.len()) is Some,
        table[i].parent_index is Some,
    ensures
        ({
            let p = table[i].parent_index->Some_0 as int;
            spec_chain_depth(table, p, table.len()) is Some
                && spec_chain_depth(table, p, table.len())->Some_0 + 1 == spec_chain_depth(
                table,
                i,
                table.len(),
            )->Some_0
        }),
{
    let p = table[i].parent_index->Some_0 as int;
    let n = table.len();
    assert(spec_chain_depth(table, p, (n - 1) as nat) is Some);
    lemma_chain_depth_fuel(table, p, (n - 1) as nat, n);
}

/// Checks that every node's parent chain reaches a root. On success the
/// table is acyclic; the error names a node whose chain is not.
pub fn check_acyclic(table: &Vec<Node>) -> (r: Result<(), BakeError>)
    requires
        spec_table_wf(table@),
    ensures
        r is Ok <==> spec_acyclic(table@),
        r matches Err(e) ==> match e {
            BakeError::CyclicHierarchy { node } => 0 <= node < table@.len()
                && spec_chain_depth(table@, node as int, table@.len()) is None,
            _ => false,
        },
{
    let n = table.len();
    for i in 0..n
        invariant
            n == table@.len(),
            spec_table_wf(table@),
            forall|j: int| 0 <= j < i ==> spec_chain_depth(table@, j, table@.len()) is Some,
    {
        let mut current = i;
        let mut steps: usize = 0;
        // Walk up at most `n` links; a chain that long cannot reach a root.
        while table[current].parent_index.is_some() && steps < n
            invariant
                n == table@.len(),
                spec_table_wf(table@),
                i < n,
                current < n,
                steps <= n,
                ({
                    let rest = spec_chain_depth(table@, current as int, (n - steps) as nat);
                    spec_chain_depth(table@, i as int, n as nat) == match rest {
                        None => None::<nat>,
                        Some(d) => Some((d + steps) as nat),
                    }
                }),
            decreases n - steps,
        {
            let p = table[current].parent_index.unwrap();
            proof {
                assert(spec_chain_depth(table@, current as int, (n - steps) as nat) == match
                    spec_chain_depth(table@, p as int, (n - steps - 1) as nat) {
                    None => None::<nat>,
                    Some(d) => Some((d + 1) as nat),
                });
            }
            current = p;
            steps = steps + 1;
        }
        if table[current].parent_index.is_some() {
            proof {
                assert(steps == n);
                assert(spec_chain_depth(table@, current as int, 0) is None);
            }
            return Err(BakeError::CyclicHierarchy { node: i });
        }
        proof {
            assert(spec_chain_depth(table@, current as int, (n - steps) as nat) == Some(0 as nat));
        }
    }
    Ok(())
}

/// The world transform of node `i` at one frame, over the local matrices
/// `locals`: the parent's world transform times the node's local matrix,
/// the local matrix alone at a root.
pub open spec fn spec_world(table: Seq<Node>, locals: Seq<glam::Mat4>, i: int, fuel: nat) -> glam::Mat4
    decreases fuel,
{
    if 0 <= i < table.len() && table.len() == locals.len() {
        match table[i].parent_index {
            None => locals[i],
            Some(p) => if fuel == 0 {
                locals[i]
            } else {
                mat_mul_of(spec_world(table, locals, p as int, (fuel - 1) as nat), locals[i])
            },
        }
    } else {
        locals[i]
    }
}

/// The world transform does not change once the fuel covers the chain.
pub proof fn lemma_world_fuel(table: Seq<Node>, locals: Seq<glam::Mat4>, i: int, f1: nat, f2: nat)
    requires
        table.len() == locals.len(),
        spec_chain_depth(table, i, f1) is Some,
        f1 <= f2,
    ensures
        spec_world(table, locals, i, f2) == spec_world(table, locals, i, f1),
    decreases f1,
{
    if 0 <= i < table.len() {
        match table[i].parent_index {
            None => {},
            Some(p) => {
                lemma_chain_depth_fuel(table, p as int, (f1 - 1) as nat, (f2 - 1) as nat);
                lemma_world_fuel(table, locals, p as int, (f1 - 1) as nat, (f2 - 1) as nat);
            },
        }
    }
}

/// Computes node `i`'s world transform by walking its parent chain,
/// multiplying each ancestor's world result onto the local matrix.
fn world_matrix(table: &Vec<Node>, locals: &Vec<glam::Mat4>, i: usize) -> (r: glam::Mat4)
    requires
        spec_table_wf(table@),
        table@.len() == locals@.len(),
        i < table@.len(),
        spec_chain_depth(table@, i as int, table@.len()) is Some,
    ensures
        r == spec_world(table@, locals@, i as int, table@.len() as nat),
    decreases spec_chain_depth(table@, i as int, table@.len())->Some_0,
{
    match table[i].parent_index {
        None => locals[i],
        Some(p) => {
            proof {
                lemma_parent_depth(table@, i as int);
            }
            let parent_world = world_matrix(table, locals, p);
            let r = mat_mul(&parent_world, &locals[i]);
            proof {
                let n = table@.len() as nat;
                let d_i = spec_chain_depth(table@, i as int, n)->Some_0;
                let d_p = spec_chain_depth(table@, p as int, n)->Some_0;
                lemma_chain_depth_tight(table@, i as int, n);
                lemma_chain_depth_tight(table@, p as int, n);
                lemma_world_fuel(table@, locals@, p as int, d_p, n);
                lemma_world_fuel(table@, locals@, p as int, d_p, (n - 1) as nat);
                assert(spec_world(table@, locals@, i as int, n) == mat_mul_of(
                    spec_world(table@, locals@, p as int, (n - 1) as nat),
                    locals@[i as int],
                ));
            }
            r
        },
    }
}

/// The local matrices of one frame of local TRS values.
pub open spec fn spec_local_mats(row: Seq<Trs>) -> Seq<glam::Mat4> {
    Seq::new(row.len(), |i: int| spec_trs_matrix(row[i]))
}

/// Converts dense local TRS rows into world-space matrices, frame by frame.
/// Every parent chain is checked before any walk, so a cyclic table is
/// rejected rather than walked forever.
pub fn compose_world(table: &Vec<Node>, locals: &Vec<Vec<Trs>>) -> (r: Result<
    Vec<Vec<glam::Mat4>>,
    BakeError,
>)
    requires
        spec_table_wf(table@),
        forall|f: int| 0 <= f < locals@.len() ==> #[trigger] locals@[f]@.len() == table@.len(),
    ensures
        r is Ok <==> spec_acyclic(table@),
        r matches Ok(w) ==> {
            &&& w@.len() == locals@.len()
            &&& forall|f: int| 0 <= f < w@.len() ==> #[trigger] w@[f]@.len() == table@.len()
            &&& forall|f: int, i: int|
                0 <= f < w@.len() && 0 <= i < table@.len() ==> #[trigger] w@[f]@[i] == spec_world(
                    table@,
                    spec_local_mats(locals@[f]@),
                    i,
                    table@.len() as nat,
                )
        },
        r matches Err(e) ==> e matches BakeError::CyclicHierarchy { .. },
{
    match check_acyclic(table) {
        Err(e) => {
            return Err(e);
        },
        Ok(()) => {},
    }
    let frames = locals.len();
    let n = table.len();
    let mut world: Vec<Vec<glam::Mat4>> = Vec::new();
    for f in 0..frames
        invariant
            frames == locals@.len(),
            n == table@.len(),
            spec_table_wf(table@),
            spec_acyclic(table@),
            forall|f2: int| 0 <= f2 < frames ==> #[trigger] locals@[f2]@.len() == n,
            world@.len() == f,
            forall|f2: int| 0 <= f2 < f ==> #[trigger] world@[f2]@.len() == n,
            forall|f2: int, i: int|
                0 <= f2 < f && 0 <= i < n ==> #[trigger] world@[f2]@[i] == spec_world(
                    table@,
                    spec_local_mats(locals@[f2]@),
                    i,
                    n as nat,
                ),
    {
        // First the local matrix of every node of this frame.
        let mut mats: Vec<glam::Mat4> = Vec::new();
        for i in 0..n
            invariant
                n == table@.len(),
                frames == locals@.len(),
                f < frames,
                locals@[f as int]@.len() == n,
                mats@.len() == i,
                forall|j: int|
                    0 <= j < i ==> #[trigger] mats@[j] == spec_local_mats(locals@[f as int]@)[j],
        {
            mats.push(locals[f][i].matrix());
        }
        proof {
            assert(mats@ =~= spec_local_mats(locals@[f as int]@));
        }
        // Then each node's world transform by its chain walk.
        let mut row: Vec<glam::Mat4> = Vec::new();
        for i in 0..n
            invariant
                n == table@.len(),
                spec_table_wf(table@),
                spec_acyclic(table@),
                mats@.len() == n,
                mats@ == spec_local_mats(locals@[f as int]@),
                row@.len() == i,
                forall|j: int|
                    0 <= j < i ==> #[trigger] row@[j] == spec_world(
                        table@,
                        mats@,
                        j,
                        n as nat,
                    ),
        {
            row.push(world_matrix(table, &mats, i));
        }
        world.push(row);
    }
    Ok(world)
}

} // verus!
