//! The frame render loop's texture/mesh submission protocol.
//!
//! Per frame, in order: the texture delta's additions are applied to the
//! cache, the toolkit's shape list is tessellated into draw primitives, every
//! mesh primitive's texture is looked up (it must exist) and its vertex data
//! submitted, and only after all draws the delta's removals are applied — so
//! a texture can never be evicted while a draw of the same frame still
//! references it. The GPU submission itself is the embedding's; verified here
//! are the cache bookkeeping, the must-exist check, and the ordering.

use vstd::prelude::*;

use crate::texcache::TextureCache;
use crate::texcache::apply_adds;

verus! {

/// One tessellated draw primitive, as far as the submission protocol reads
/// it: a textured mesh carries the id of the texture it samples; an opaque
/// callback primitive is out of scope and skipped.
#[derive(Clone, Copy, PartialEq, Eq, Structural, Debug)]
pub enum DrawPrim {
    Mesh(u64),
    Callback,
}

/// The error of a frame whose delta failed to provide a texture some mesh
/// references: a programming-invariant violation the embedding treats as
/// fatal, carrying the offending texture id.
#[derive(Clone, Copy, PartialEq, Eq, Structural, Debug)]
pub struct MissingTexture {
    pub id: u64,
}

/// The texture ids the frame's mesh primitives reference, in draw order;
/// callback primitives contribute nothing.
pub open spec fn mesh_ids(prims: Seq<DrawPrim>) -> Seq<u64>
    decreases prims.len(),
{
    if prims.len() == 0 {
        Seq::<u64>::empty()
    } else {
        mesh_ids(prims.drop_last()) + (match prims.last() {
            DrawPrim::Mesh(id) => seq![id],
            DrawPrim::Callback => Seq::<u64>::empty(),
        })
    }
}

/// The cache mapping after one whole frame: the delta's additions applied
/// first, its removals last.
pub open spec fn after_frame<V>(
    m: Map<u64, V>,
    additions: Seq<(u64, V)>,
    removals: Seq<u64>,
) -> Map<u64, V> {
    apply_adds(m, additions).remove_keys(removals.to_set())
}

/// Checks the frame's must-exist invariant and flattens the primitive list
/// into the draw order: the texture ids of the mesh primitives, each
/// guaranteed present in the cache, with callback primitives skipped. Returns
/// the first missing texture id instead if the delta's additions did not
/// cover some referenced texture.
pub fn plan_draws<V>(cache: &TextureCache<V>, prims: &Vec<DrawPrim>) -> (r: Result<
    Vec<u64>,
    MissingTexture,
>)
    requires
        cache.wf(),
    ensures
        match r {
            Ok(ids) => {
                &&& ids@ == mesh_ids(prims@)
                &&& forall|i: int| 0 <= i < ids@.len() ==> cache@.contains_key(#[trigger] ids@[i])
            },
            Err(e) => {
                &&& !cache@.contains_key(e.id)
                &&& exists|i: int|
                    0 <= i < prims@.len() && prims@[i] == DrawPrim::Mesh(e.id) && (forall|j: int|
                        0 <= j < i ==> (#[trigger] prims@[j] matches DrawPrim::Mesh(id2)
                            ==> cache@.contains_key(id2)))
            },
        },
{
    let n = prims.len();
    let mut ids: Vec<u64> = Vec::new();
    let mut i: usize = 0;
    proof {
        assert(mesh_ids(prims@.take(0)) =~= Seq::<u64>::empty());
    }
    while i < n
        invariant
            0 <= i <= n,
            n == prims@.len(),
            cache.wf(),
            ids@ == mesh_ids(prims@.take(i as int)),
            forall|j: int| 0 <= j < ids@.len() ==> cache@.contains_key(#[trigger] ids@[j]),
            forall|j: int|
                0 <= j < i ==> (#[trigger] prims@[j] matches DrawPrim::Mesh(id2)
                    ==> cache@.contains_key(id2)),
        decreases n - i,
    {
        proof {
            assert(prims@.take(i + 1).drop_last() =~= prims@.take(i as int));
            assert(prims@.take(i + 1).last() == prims@[i as int]);
        }
        match prims[i] {
            DrawPrim::Mesh(id) => {
                if !cache.contains(id) {
                    return Err(MissingTexture { id });
                }
                ids.push(id);
                proof {
                    assert(ids@ =~= mesh_ids(prims@.take(i + 1)));
                }
            },
            DrawPrim::Callback => {
                proof {
                    assert(ids@ =~= mesh_ids(prims@.take(i + 1)));
                }
            },
        }
        i = i + 1;
    }
    proof {
        assert(prims@.take(n as int) =~= prims@);
    }
    Ok(ids)
}

/// One whole frame of cache bookkeeping: applies the delta's additions,
/// checks that every mesh primitive's texture is now present — the embedding
/// submits the draws at exactly this point — and applies the delta's removals
/// only after, so no draw of this frame can reference an evicted entry. On a
/// missing texture the frame is abandoned as fatal: the removals are not
/// applied.
pub fn render_frame<V>(
    cache: &mut TextureCache<V>,
    additions: Vec<(u64, V)>,
    prims: &Vec<DrawPrim>,
    removals: &Vec<u64>,
) -> (r: Result<Vec<u64>, MissingTexture>)
    requires
        old(cache).wf(),
    ensures
        final(cache).wf(),
        ({
            let mid = apply_adds(old(cache)@, additions@);
            match r {
                Ok(ids) => {
                    &&& ids@ == mesh_ids(prims@)
                    &&& forall|i: int| 0 <= i < ids@.len() ==> mid.contains_key(#[trigger] ids@[i])
                    &&& final(cache)@ == after_frame(old(cache)@, additions@, removals@)
                },
                Err(e) => {
                    &&& !mid.contains_key(e.id)
                    &&& exists|i: int|
                        0 <= i < prims@.len() && prims@[i] == DrawPrim::Mesh(e.id) && (forall|
                            j: int,
                        |
                            0 <= j < i ==> (#[trigger] prims@[j] matches DrawPrim::Mesh(id2)
                                ==> mid.contains_key(id2)))
                    &&& final(cache)@ == mid
                },
            }
        }),
{
    cache.apply_additions(additions);
    let planned = plan_draws(cache, prims);
    match planned {
        Ok(ids) => {
            cache.apply_removals(removals);
            Ok(ids)
        },
        Err(e) => Err(e),
    }
}

/// Law (eviction safety): in a frame whose texture delta removes an id that
/// no mesh primitive of the frame references, the cache entry is gone after
/// the frame, and the frame's draw order never mentions that id.
pub proof fn lemma_eviction_safety<V>(
    m: Map<u64, V>,
    additions: Seq<(u64, V)>,
    prims: Seq<DrawPrim>,
    removals: Seq<u64>,
    id: u64,
)
    requires
        removals.contains(id),
        !mesh_ids(prims).contains(id),
    ensures
        !after_frame(m, additions, removals).contains_key(id),
        forall|i: int| 0 <= i < mesh_ids(prims).len() ==> mesh_ids(prims)[i] != id,
{
    assert(removals.to_set().contains(id));
    assert forall|i: int| 0 <= i < mesh_ids(prims).len() implies mesh_ids(prims)[i] != id by {
        if mesh_ids(prims)[i] == id {
            assert(mesh_ids(prims).contains(id));
        }
    }
}

} // verus!
