//! The final merge target for built batch lists.
//!
//! After a render target's builder is finished, its opaque and alpha batch
//! lists are either appended wholesale (when a scissor rectangle confines
//! them) or merged into a shared container: opaque batches merge into the
//! first compatible batch anywhere; alpha batches merge only at or after
//! the position of the previous merge, which preserves their relative
//! order.

use vstd::prelude::*;
use crate::geom::Rect;
use crate::gpu::PrimitiveInstanceData;
use crate::key::{BatchFeatures, BatchKey};
use crate::lists::PrimitiveBatch;

verus! {

/// The mathematical content of one batch: its key, its instance records in
/// order, and its feature union.
#[verifier::ext_equal]
pub struct BatchV {
    pub key: BatchKey,
    pub instances: Seq<PrimitiveInstanceData>,
    pub features: BatchFeatures,
}

pub open spec fn batch_view(b: PrimitiveBatch) -> BatchV {
    BatchV { key: b.key, instances: b.instances@, features: b.features }
}

pub open spec fn batches_view(s: Seq<PrimitiveBatch>) -> Seq<BatchV> {
    s.map_values(|b: PrimitiveBatch| batch_view(b))
}

/// Two batches merged: instances concatenated, textures widened, features
/// unioned.
pub open spec fn merged_batch(a: BatchV, b: BatchV) -> BatchV {
    BatchV {
        key: a.key.spec_merge_textures(b.key),
        instances: a.instances + b.instances,
        features: a.features.spec_union(b.features),
    }
}

/// The first batch at or after `from` whose key is compatible with `key`.
pub open spec fn find_compatible_from(s: Seq<BatchV>, key: BatchKey, from: int) -> Option<int>
    decreases s.len() - from,
{
    if from < 0 || from >= s.len() {
        None::<int>
    } else if s[from].key.spec_is_compatible_with(key) {
        Some(from)
    } else {
        find_compatible_from(s, key, from + 1)
    }
}

/// Merge one batch into a list: into the first compatible batch at or
/// after `from` if there is one, else appended at the end. The second
/// component is the position the next ordered merge must start from.
pub open spec fn merge_one(dst: Seq<BatchV>, b: BatchV, from: int) -> (Seq<BatchV>, int) {
    match find_compatible_from(dst, b.key, from) {
        Some(i) => (dst.update(i, merged_batch(dst[i], b)), i),
        None => (dst.push(b), dst.len() as int + 1),
    }
}

/// Merge a whole list of batches, order-free: each source batch joins the
/// first compatible destination batch, scanning from the front.
pub open spec fn merge_unordered(dst: Seq<BatchV>, src: Seq<BatchV>) -> Seq<BatchV>
    decreases src.len(),
{
    if src.len() == 0 {
        dst
    } else {
        merge_unordered(merge_one(dst, src[0], 0).0, src.drop_first())
    }
}

/// Merge a whole list of batches keeping order: each source batch may only
/// join a destination batch at or after the one the previous source batch
/// joined.
pub open spec fn merge_ordered(dst: Seq<BatchV>, src: Seq<BatchV>, from: int) -> Seq<BatchV>
    decreases src.len(),
{
    if src.len() == 0 {
        dst
    } else {
        let stepped = merge_one(dst, src[0], from);
        merge_ordered(stepped.0, src.drop_first(), stepped.1)
    }
}

/// The batches of one render task, ready for the rendering backend: opaque
/// batches first (order among them irrelevant), then alpha batches in
/// strict sequence order.
pub struct AlphaBatchContainer {
    pub opaque_batches: Vec<PrimitiveBatch>,
    pub alpha_batches: Vec<PrimitiveBatch>,
    /// The overall scissor rectangle for this render task, if one is
    /// required.
    pub task_scissor_rect: Option<Rect>,
    /// The rectangle of the owning render target that these batches affect.
    pub task_rect: Rect,
}

impl AlphaBatchContainer {
    pub fn new(task_scissor_rect: Option<Rect>) -> (r: AlphaBatchContainer)
        ensures
            r.opaque_batches@.len() == 0,
            r.alpha_batches@.len() == 0,
            r.task_scissor_rect == task_scissor_rect,
            r.task_rect == (Rect { min_x: 0, min_y: 0, max_x: 0, max_y: 0 }),
    {
        AlphaBatchContainer {
            opaque_batches: Vec::new(),
            alpha_batches: Vec::new(),
            task_scissor_rect,
            task_rect: Rect::zero(),
        }
    }

    pub fn is_empty(&self) -> (r: bool)
        ensures
            r == (self.opaque_batches@.len() == 0 && self.alpha_batches@.len() == 0),
    {
        self.opaque_batches.is_empty() && self.alpha_batches.is_empty()
    }

    /// Merge one batch into the opaque list, scanning from the front for
    /// the first compatible batch.
    fn merge_opaque_batch(&mut self, other: PrimitiveBatch)
        requires
            old(self).opaque_batches@.len() < usize::MAX - 1,
        ensures
            batches_view(final(self).opaque_batches@) == merge_one(
                batches_view(old(self).opaque_batches@),
                batch_view(other),
                0,
            ).0,
            final(self).opaque_batches@.len() <= old(self).opaque_batches@.len() + 1,
            final(self).alpha_batches == old(self).alpha_batches,
            final(self).task_scissor_rect == old(self).task_scissor_rect,
            final(self).task_rect == old(self).task_rect,
    {
        let ghost dstv = batches_view(self.opaque_batches@);
        let found = self.find_opaque_compatible(&other.key);
        match found {
            Some(i) => {
                let b = &mut self.opaque_batches[i];
                b.merge(other);
                proof {
                    assert(batches_view(self.opaque_batches@) =~= dstv.update(
                        i as int,
                        merged_batch(dstv[i as int], batch_view(other)),
                    ));
                }
            }
            None => {
                self.opaque_batches.push(other);
                proof {
                    assert(batches_view(self.opaque_batches@) =~= dstv.push(batch_view(other)));
                }
            }
        }
    }

    /// The first opaque batch compatible with `key`, scanning forward.
    fn find_opaque_compatible(&self, key: &BatchKey) -> (r: Option<usize>)
        ensures
            match r {
                Some(i) => i < self.opaque_batches@.len() && find_compatible_from(
                    batches_view(self.opaque_batches@),
                    *key,
                    0,
                ) == Some(i as int),
                None => find_compatible_from(batches_view(self.opaque_batches@), *key, 0)
                    is None,
            },
    {
        let ghost dstv = batches_view(self.opaque_batches@);
        let n = self.opaque_batches.len();
        let mut i: usize = 0;
        while i < n
            invariant
                n == self.opaque_batches@.len(),
                dstv == batches_view(self.opaque_batches@),
                0 <= i <= n,
                find_compatible_from(dstv, *key, 0) == find_compatible_from(dstv, *key, i as int),
            decreases n - i,
        {
            if self.opaque_batches[i].key.is_compatible_with(key) {
                return Some(i);
            }
            i = i + 1;
        }
        None
    }

    /// The first alpha batch at or after `from` compatible with `key`.
    fn find_alpha_compatible_from(&self, key: &BatchKey, from: usize) -> (r: Option<usize>)
        ensures
            match r {
                Some(i) => from <= i < self.alpha_batches@.len() && find_compatible_from(
                    batches_view(self.alpha_batches@),
                    *key,
                    from as int,
                ) == Some(i as int),
                None => find_compatible_from(batches_view(self.alpha_batches@), *key, from as int)
                    is None,
            },
    {
        let ghost dstv = batches_view(self.alpha_batches@);
        let n = self.alpha_batches.len();
        if from >= n {
            return None;
        }
        let mut i: usize = from;
        while i < n
            invariant
                n == self.alpha_batches@.len(),
                dstv == batches_view(self.alpha_batches@),
                from <= i <= n,
                find_compatible_from(dstv, *key, from as int) == find_compatible_from(
                    dstv,
                    *key,
                    i as int,
                ),
            decreases n - i,
        {
            if self.alpha_batches[i].key.is_compatible_with(key) {
                return Some(i);
            }
            i = i + 1;
        }
        None
    }

    /// Fold a finished builder's two lists into this container and widen
    /// the affected target rectangle.
    pub fn merge(
        &mut self,
        opaque_src: Vec<PrimitiveBatch>,
        alpha_src: Vec<PrimitiveBatch>,
        task_rect: &Rect,
    )
        requires
            old(self).opaque_batches@.len() + opaque_src@.len() < usize::MAX - 1,
            old(self).alpha_batches@.len() + alpha_src@.len() < usize::MAX - 1,
        ensures
            batches_view(final(self).opaque_batches@) == merge_unordered(
                batches_view(old(self).opaque_batches@),
                batches_view(opaque_src@),
            ),
            batches_view(final(self).alpha_batches@) == merge_ordered(
                batches_view(old(self).alpha_batches@),
                batches_view(alpha_src@),
                0,
            ),
            final(self).task_rect == old(self).task_rect.spec_union(*task_rect),
            final(self).task_scissor_rect == old(self).task_scissor_rect,
    {
        self.task_rect = self.task_rect.union(task_rect);

        let ghost opaque_src0 = batches_view(opaque_src@);
        let ghost dst0 = batches_view(self.opaque_batches@);
        let mut opaque_src = opaque_src;
        let mut guard: usize = 0;
        while opaque_src.len() > 0
            invariant
                merge_unordered(dst0, opaque_src0) == merge_unordered(
                    batches_view(self.opaque_batches@),
                    batches_view(opaque_src@),
                ),
                self.opaque_batches@.len() + opaque_src@.len() <= old(
                    self,
                ).opaque_batches@.len() + opaque_src0.len(),
                self.alpha_batches == old(self).alpha_batches,
                self.task_scissor_rect == old(self).task_scissor_rect,
                self.task_rect == old(self).task_rect.spec_union(*task_rect),
                old(self).opaque_batches@.len() + opaque_src0.len() < usize::MAX - 1,
            decreases opaque_src@.len(),
        {
            let ghost srcv = batches_view(opaque_src@);
            let b = opaque_src.remove(0);
            proof {
                assert(batches_view(opaque_src@) =~= srcv.drop_first());
                assert(batch_view(b) == srcv[0]);
            }
            self.merge_opaque_batch(b);
        }

        let ghost alpha_src0 = batches_view(alpha_src@);
        let ghost adst0 = batches_view(self.alpha_batches@);
        let mut alpha_src = alpha_src;
        let mut min_batch_index: usize = 0;
        while alpha_src.len() > 0
            invariant
                merge_ordered(adst0, alpha_src0, 0) == merge_ordered(
                    batches_view(self.alpha_batches@),
                    batches_view(alpha_src@),
                    min_batch_index as int,
                ),
                self.alpha_batches@.len() + alpha_src@.len() <= old(
                    self,
                ).alpha_batches@.len() + alpha_src0.len(),
                batches_view(self.opaque_batches@) == merge_unordered(dst0, opaque_src0),
                self.task_scissor_rect == old(self).task_scissor_rect,
                self.task_rect == old(self).task_rect.spec_union(*task_rect),
                old(self).alpha_batches@.len() + alpha_src0.len() < usize::MAX - 1,
                min_batch_index as int <= self.alpha_batches@.len() + 1,
            decreases alpha_src@.len(),
        {
            let ghost srcv = batches_view(alpha_src@);
            let ghost adstv = batches_view(self.alpha_batches@);
            let b = alpha_src.remove(0);
            proof {
                assert(batches_view(alpha_src@) =~= srcv.drop_first());
                assert(batch_view(b) == srcv[0]);
            }
            let found = self.find_alpha_compatible_from(&b.key, min_batch_index);
            match found {
                Some(i) => {
                    let ghost bv = batch_view(b);
                    let elem = &mut self.alpha_batches[i];
                    elem.merge(b);
                    min_batch_index = i;
                    proof {
                        assert(batches_view(self.alpha_batches@) =~= adstv.update(
                            i as int,
                            merged_batch(adstv[i as int], bv),
                        ));
                    }
                }
                None => {
                    let n = self.alpha_batches.len();
                    let ghost bv = batch_view(b);
                    self.alpha_batches.push(b);
                    min_batch_index = n + 1;
                    proof {
                        assert(batches_view(self.alpha_batches@) =~= adstv.push(bv));
                    }
                }
            }
        }
    }
}

} // verus!
