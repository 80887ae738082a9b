//! The batch containers and their matching engines.
//!
//! [`OpaqueBatchList`] holds batches of non-blended primitives, which may be
//! reordered freely; [`AlphaBatchList`] holds batches of blended primitives,
//! whose relative order must be preserved wherever their footprints overlap.
//! Both answer "which batch shall this primitive join" through
//! `set_params_and_get_batch`, which returns the index of the selected
//! batch after widening its key and features.

use vstd::prelude::*;
use crate::geom::Rect;
use crate::gpu::PrimitiveInstanceData;
use crate::key::{BatchFeatures, BatchKey, BatchKind, BlendMode, ZBufferId};
use vstd::multiset::Multiset;
use vstd::seq_lib::lemma_multiset_commutative;

verus! {

/// An ordered sequence of GPU instance records sharing one key, plus the
/// union of the shader features its primitives requested.
pub struct PrimitiveBatch {
    pub key: BatchKey,
    pub instances: Vec<PrimitiveInstanceData>,
    pub features: BatchFeatures,
}

impl PrimitiveBatch {
    /// A batch created empty for a given key.
    pub fn new(key: BatchKey) -> (r: PrimitiveBatch)
        ensures
            r.key == key,
            r.instances@.len() == 0,
            r.features.bits == 0,
    {
        PrimitiveBatch { key, instances: Vec::new(), features: BatchFeatures::empty() }
    }

    /// Append another batch's instances, widening key and features.
    pub fn merge(&mut self, other: PrimitiveBatch)
        ensures
            final(self).instances@ == old(self).instances@ + other.instances@,
            final(self).features == old(self).features.spec_union(other.features),
            final(self).key == old(self).key.spec_merge_textures(other.key),
    {
        let mut other = other;
        self.instances.append(&mut other.instances);
        self.features = self.features.union(other.features);
        self.key.textures.merge(&other.key.textures);
    }
}

/// Relates a batch before and after it absorbs one more primitive's
/// parameters and the records in `added`: textures widened, features
/// unioned, instances extended.
pub open spec fn batch_params_merged(
    pre: PrimitiveBatch,
    post: PrimitiveBatch,
    key: BatchKey,
    features: BatchFeatures,
    added: Seq<PrimitiveInstanceData>,
) -> bool {
    &&& post.key == pre.key.spec_merge_textures(key)
    &&& post.features == pre.features.spec_union(features)
    &&& post.instances@ == pre.instances@ + added
}

/// A batch freshly created for `key` that then absorbed `key`/`features`
/// and the records in `added`.
pub open spec fn batch_is_fresh(
    post: PrimitiveBatch,
    key: BatchKey,
    features: BatchFeatures,
    added: Seq<PrimitiveInstanceData>,
) -> bool {
    &&& post.key == key
    &&& post.features == features
    &&& post.instances@ == added
}

/// Total number of instance records over a sequence of batches.
pub open spec fn total_instances(batches: Seq<PrimitiveBatch>) -> int
    decreases batches.len(),
{
    if batches.len() == 0 {
        0
    } else {
        total_instances(batches.drop_last()) + batches.last().instances@.len()
    }
}

/// Replacing one batch changes the total by the difference in that batch.
pub proof fn lemma_total_instances_update(batches: Seq<PrimitiveBatch>, i: int, b: PrimitiveBatch)
    requires
        0 <= i < batches.len(),
    ensures
        total_instances(batches.update(i, b)) == total_instances(batches) + b.instances@.len()
            - batches[i].instances@.len(),
    decreases batches.len(),
{
    let n = batches.len() as int;
    if i == n - 1 {
        assert(batches.update(i, b).drop_last() =~= batches.drop_last());
    } else {
        assert(batches.update(i, b).drop_last() =~= batches.drop_last().update(i, b));
        lemma_total_instances_update(batches.drop_last(), i, b);
    }
}

/// Appending a batch adds its instance count to the total.
pub proof fn lemma_total_instances_push(batches: Seq<PrimitiveBatch>, b: PrimitiveBatch)
    ensures
        total_instances(batches.push(b)) == total_instances(batches) + b.instances@.len(),
{
    assert(batches.push(b).drop_last() =~= batches);
}

/// If every batch keeps its instance sequence length, the total is kept.
pub proof fn lemma_total_instances_congruence(a: Seq<PrimitiveBatch>, b: Seq<PrimitiveBatch>)
    requires
        a.len() == b.len(),
        forall|i: int| 0 <= i < a.len() ==> a[i].instances@.len() == b[i].instances@.len(),
    ensures
        total_instances(a) == total_instances(b),
    decreases a.len(),
{
    if a.len() > 0 {
        lemma_total_instances_congruence(a.drop_last(), b.drop_last());
    }
}

/// Per-batch bounding boxes used to answer overlap queries cheaply.
///
/// `batch` is always the union of every rectangle added. Per-item
/// rectangles are kept only from the moment the union rectangle stops being
/// a tight approximation of the occupied area, judged by comparing the sum
/// of the two individual areas against the area of their union.
pub struct BatchRects {
    pub batch: Rect,
    /// Whether per-item tracking has begun; until then `items` is unused.
    pub tracking: bool,
    pub items: Vec<Rect>,
}

/// The evolution of the optional per-item list when one rectangle is added.
pub open spec fn spec_add_items(
    batch: Rect,
    items: Option<Seq<Rect>>,
    r: Rect,
) -> Option<Seq<Rect>> {
    match items {
        Some(s) => Some(s.push(r)),
        None => if batch.spec_area() + r.spec_area() < batch.spec_union(r).spec_area() {
            Some(seq![batch, r])
        } else {
            None
        },
    }
}

impl BatchRects {
    /// The per-item rectangles as a sequence, if tracking has begun.
    pub open spec fn items_view(self) -> Option<Seq<Rect>> {
        if self.tracking {
            Some(self.items@)
        } else {
            None
        }
    }

    /// What `intersects` answers: a miss on the union rectangle is final;
    /// otherwise per-item rectangles decide if present, else the union's
    /// answer is trusted.
    pub open spec fn spec_intersects(self, r: Rect) -> bool {
        if !self.batch.spec_intersects(r) {
            false
        } else if self.tracking {
            exists|i: int| 0 <= i < self.items@.len() && self.items@[i].spec_intersects(r)
        } else {
            true
        }
    }

    pub fn new() -> (r: BatchRects)
        ensures
            r.batch == (Rect { min_x: 0, min_y: 0, max_x: 0, max_y: 0 }),
            r.items_view() is None,
    {
        BatchRects { batch: Rect::zero(), tracking: false, items: Vec::new() }
    }

    /// Record one more rectangle: the union always grows; item tracking
    /// continues once begun, and begins when the union becomes loose.
    pub fn add_rect(&mut self, rect: &Rect)
        ensures
            final(self).batch == old(self).batch.spec_union(*rect),
            final(self).items_view() == spec_add_items(
                old(self).batch,
                old(self).items_view(),
                *rect,
            ),
    {
        let union = self.batch.union(rect);
        if self.tracking {
            self.items.push(*rect);
        } else if self.batch.area() + rect.area() < union.area() {
            let mut items: Vec<Rect> = Vec::new();
            items.push(self.batch);
            items.push(*rect);
            proof {
                assert(items@ =~= seq![old(self).batch, *rect]);
            }
            self.items = items;
            self.tracking = true;
        }
        self.batch = union;
    }

    pub fn intersects(&self, rect: &Rect) -> (r: bool)
        ensures
            r == self.spec_intersects(*rect),
    {
        if !self.batch.intersects(rect) {
            return false;
        }
        if !self.tracking {
            return true;
        }
        let n = self.items.len();
        let mut i: usize = 0;
        while i < n
            invariant
                n == self.items@.len(),
                0 <= i <= n,
                self.tracking,
                self.batch.spec_intersects(*rect),
                forall|k: int| 0 <= k < i ==> !self.items@[k].spec_intersects(*rect),
            decreases n - i,
        {
            if self.items[i].intersects(rect) {
                proof {
                    assert(self.items@[i as int].spec_intersects(*rect));
                }
                return true;
            }
            i = i + 1;
        }
        false
    }
}

/// Relates a `BatchRects` before and after one `add_rect` call.
pub open spec fn batch_rects_stepped(pre: BatchRects, post: BatchRects, r: Rect) -> bool {
    &&& post.batch == pre.batch.spec_union(r)
    &&& post.items_view() == spec_add_items(pre.batch, pre.items_view(), r)
}

/// The union rectangle after a sequence of `add_rect` transitions,
/// starting from a given rectangle.
pub open spec fn union_after_adds(start: Rect, rs: Seq<Rect>) -> Rect
    decreases rs.len(),
{
    if rs.len() == 0 {
        start
    } else {
        union_after_adds(start, rs.drop_last()).spec_union(rs.last())
    }
}

/// After any sequence of added rectangles, the tracked union rectangle is
/// exactly the bounding box of all of them, whether or not per-item
/// tracking activated: the per-item list never influences the union.
pub proof fn lemma_batch_rect_is_union_of_added(rs: Seq<Rect>)
    ensures
        union_after_adds(Rect { min_x: 0, min_y: 0, max_x: 0, max_y: 0 }, rs)
            == crate::geom::union_of(rs),
    decreases rs.len(),
{
    if rs.len() > 0 {
        lemma_batch_rect_is_union_of_added(rs.drop_last());
    }
}

/// Reverse-scan over the alpha list, from index `i` towards the front:
/// the first compatible batch wins, and the scan stops early at the first
/// batch whose footprint overlaps the incoming rectangle.
pub open spec fn alpha_scan(
    batches: Seq<PrimitiveBatch>,
    rects: Seq<BatchRects>,
    key: BatchKey,
    zrect: Rect,
    i: int,
) -> Option<int>
    decreases i + 1,
{
    if i < 0 {
        None::<int>
    } else if batches[i].key.spec_is_compatible_with(key) {
        Some(i)
    } else if rects[i].spec_intersects(zrect) {
        None::<int>
    } else {
        alpha_scan(batches, rects, key, zrect, i - 1)
    }
}

/// The batch container for blended primitives, in paint order.
pub struct AlphaBatchList {
    pub batches: Vec<PrimitiveBatch>,
    pub batch_rects: Vec<BatchRects>,
    pub current_batch_index: usize,
    pub current_z_id: ZBufferId,
    pub break_advanced_blend_batches: bool,
}

impl AlphaBatchList {
    /// One bounding-box tracker per batch; the cached index is in range or
    /// the sentinel.
    pub open spec fn wf(self) -> bool {
        &&& self.batches@.len() == self.batch_rects@.len()
        &&& (self.current_batch_index == usize::MAX
            || self.current_batch_index < self.batches@.len())
        &&& self.batches@.len() < usize::MAX
    }

    /// The fast path: several segments of one primitive share a z plane, so
    /// an incoming key matching the current batch at the same z reuses it
    /// without rescanning and without recording its rectangle again.
    pub open spec fn spec_fast_path(self, key: BatchKey, z_id: ZBufferId) -> bool {
        &&& z_id == self.current_z_id
        &&& self.current_batch_index != usize::MAX
        &&& self.batches@[self.current_batch_index as int].key.spec_is_compatible_with(key)
    }

    /// Which existing batch the slow path selects, if any. Advanced blend
    /// modes never reuse a batch when the builder is configured to break
    /// them apart.
    pub open spec fn spec_selected(self, key: BatchKey, zrect: Rect) -> Option<int> {
        if (key.blend_mode is Advanced) && self.break_advanced_blend_batches {
            None::<int>
        } else {
            alpha_scan(self.batches@, self.batch_rects@, key, zrect, self.batches@.len() - 1)
        }
    }

    pub fn new(break_advanced_blend_batches: bool) -> (r: AlphaBatchList)
        ensures
            r.wf(),
            r.batches@.len() == 0,
            r.current_batch_index == usize::MAX,
            r.current_z_id == ZBufferId::spec_invalid(),
            r.break_advanced_blend_batches == break_advanced_blend_batches,
    {
        AlphaBatchList {
            batches: Vec::new(),
            batch_rects: Vec::new(),
            current_batch_index: usize::MAX,
            current_z_id: ZBufferId::invalid(),
            break_advanced_blend_batches,
        }
    }

    /// Drop every batch, typically because a later primitive occludes all
    /// previous content.
    pub fn clear(&mut self)
        ensures
            final(self).wf(),
            final(self).batches@.len() == 0,
            final(self).batch_rects@.len() == 0,
            final(self).current_batch_index == usize::MAX,
            final(self).current_z_id == ZBufferId::spec_invalid(),
            final(self).break_advanced_blend_batches == old(self).break_advanced_blend_batches,
    {
        self.current_batch_index = usize::MAX;
        self.current_z_id = ZBufferId::invalid();
        self.batches.clear();
        self.batch_rects.clear();
    }

    /// Select (or create) the batch for one primitive at a z plane, widen
    /// its key and features, and return its index, so that the caller can
    /// append instance records to it.
    pub fn set_params_and_get_batch(
        &mut self,
        key: BatchKey,
        features: BatchFeatures,
        z_bounding_rect: &Rect,
        z_id: ZBufferId,
    ) -> (idx: usize)
        requires
            old(self).wf(),
            old(self).batches@.len() < usize::MAX - 1,
            z_bounding_rect.wf(),
        ensures
            final(self).wf(),
            alpha_list_stepped(*old(self), *final(self), idx, key, features, *z_bounding_rect, z_id, Seq::<PrimitiveInstanceData>::empty()),
    {
        let n = self.batches.len();
        if z_id != self.current_z_id || self.current_batch_index == usize::MAX
            || !self.batches[self.current_batch_index].key.is_compatible_with(&key)
        {
            let mut selected: Option<usize> = None;
            let mut blocked = false;
            let break_advanced = match key.blend_mode {
                BlendMode::Advanced(_) => self.break_advanced_blend_batches,
                _ => false,
            };
            if !break_advanced {
                let ghost bs = self.batches@;
                let ghost rs = self.batch_rects@;
                let mut i = n;
                while i > 0 && selected.is_none() && !blocked
                    invariant
                        self.batches@ == bs,
                        self.batch_rects@ == rs,
                        n == bs.len(),
                        n == rs.len(),
                        0 <= i <= n,
                        selected is None && !blocked ==> alpha_scan(bs, rs, key, *z_bounding_rect, n - 1)
                            == alpha_scan(bs, rs, key, *z_bounding_rect, i - 1),
                        match selected {
                            Some(j) => alpha_scan(bs, rs, key, *z_bounding_rect, n - 1)
                                == Some(j as int) && j < n,
                            None => blocked ==> alpha_scan(bs, rs, key, *z_bounding_rect, n - 1)
                                is None,
                        },
                    decreases i,
                {
                    i = i - 1;
                    if self.batches[i].key.is_compatible_with(&key) {
                        selected = Some(i);
                    } else if self.batch_rects[i].intersects(z_bounding_rect) {
                        blocked = true;
                    }
                }
            }

            let idx = match selected {
                Some(i) => i,
                None => {
                    let new_batch = PrimitiveBatch::new(key);
                    self.batches.push(new_batch);
                    self.batch_rects.push(BatchRects::new());
                    n
                }
            };

            self.current_batch_index = idx;
            self.batch_rects[idx].add_rect(z_bounding_rect);
            self.current_z_id = z_id;

            let b = &mut self.batches[idx];
            b.features = b.features.union(features);
            b.key.textures.merge(&key.textures);

            proof {
                if old(self).spec_selected(key, *z_bounding_rect) is None {
                    crate::texture::lemma_merge_self_identity(key.textures);
                    assert(0u8 | features.bits == features.bits) by (bit_vector);
                    assert(self.batches@[n as int].instances@
                        =~= Seq::<PrimitiveInstanceData>::empty());
                }
            }
            idx
        } else {
            let idx = self.current_batch_index;
            let b = &mut self.batches[idx];
            b.features = b.features.union(features);
            b.key.textures.merge(&key.textures);
            idx
        }
    }
}

/// Relates an alpha list before and after one `set_params_and_get_batch`
/// call that returned `idx`.
pub open spec fn alpha_list_stepped(
    pre: AlphaBatchList,
    post: AlphaBatchList,
    idx: usize,
    key: BatchKey,
    features: BatchFeatures,
    zrect: Rect,
    z_id: ZBufferId,
    added: Seq<PrimitiveInstanceData>,
) -> bool {
    let n = pre.batches@.len() as int;
    &&& post.break_advanced_blend_batches == pre.break_advanced_blend_batches
    &&& post.current_batch_index == idx
    &&& (idx as int) < post.batches@.len()
    &&& if pre.spec_fast_path(key, z_id) {
        &&& idx == pre.current_batch_index
        &&& post.current_z_id == pre.current_z_id
        &&& post.batches@.len() == n
        &&& post.batch_rects@ == pre.batch_rects@
        &&& batch_params_merged(pre.batches@[idx as int], post.batches@[idx as int], key, features, added)
        &&& forall|k: int| 0 <= k < n && k != idx ==> post.batches@[k] == pre.batches@[k]
    } else {
        &&& post.current_z_id == z_id
        &&& match pre.spec_selected(key, zrect) {
            Some(j) => {
                &&& idx as int == j
                &&& post.batches@.len() == n
                &&& post.batch_rects@.len() == n
                &&& batch_params_merged(pre.batches@[j], post.batches@[j], key, features, added)
                &&& batch_rects_stepped(pre.batch_rects@[j], post.batch_rects@[j], zrect)
                &&& forall|k: int| 0 <= k < n && k != j ==> post.batches@[k] == pre.batches@[k]
                &&& forall|k: int| 0 <= k < n && k != j ==> post.batch_rects@[k]
                    == pre.batch_rects@[k]
            }
            None => {
                &&& idx as int == n
                &&& post.batches@.len() == n + 1
                &&& post.batch_rects@.len() == n + 1
                &&& batch_is_fresh(post.batches@[n], key, features, added)
                &&& post.batch_rects@[n].batch == (Rect {
                    min_x: 0,
                    min_y: 0,
                    max_x: 0,
                    max_y: 0,
                }).spec_union(zrect)
                &&& post.batch_rects@[n].items_view() is None
                &&& forall|k: int| 0 <= k < n ==> post.batches@[k] == pre.batches@[k]
                &&& forall|k: int| 0 <= k < n ==> post.batch_rects@[k] == pre.batch_rects@[k]
            }
        }
    }
}

/// Bounded reverse-scan over the opaque list: at most `remaining` batches
/// are examined, the first compatible one wins.
pub open spec fn opaque_scan(
    batches: Seq<PrimitiveBatch>,
    key: BatchKey,
    i: int,
    remaining: int,
) -> Option<int>
    decreases i + 1,
{
    if i < 0 || remaining <= 0 {
        None::<int>
    } else if batches[i].key.spec_is_compatible_with(key) {
        Some(i)
    } else {
        opaque_scan(batches, key, i - 1, remaining - 1)
    }
}

/// The batch container for non-blended primitives.
///
/// Order among opaque batches is irrelevant for correctness (the depth
/// buffer resolves visibility), so batches may be merged freely; the
/// heuristics only serve batch count and GPU efficiency.
pub struct OpaqueBatchList {
    /// A primitive whose bounding area exceeds this threshold is a large
    /// occluder and is only ever merged into the last batch.
    pub pixel_area_threshold_for_new_batch: i128,
    pub batches: Vec<PrimitiveBatch>,
    pub current_batch_index: usize,
    /// How many batches the reverse scan may examine.
    pub lookback_count: usize,
}

impl OpaqueBatchList {
    pub open spec fn wf(self) -> bool {
        &&& (self.current_batch_index == usize::MAX
            || self.current_batch_index < self.batches@.len())
        &&& self.batches@.len() < usize::MAX
    }

    /// Which existing batch is selected for the given key, if any.
    pub open spec fn spec_selected(self, key: BatchKey, zrect: Rect) -> Option<int> {
        let n = self.batches@.len() as int;
        if zrect.spec_area() > self.pixel_area_threshold_for_new_batch {
            if n > 0 && self.batches@[n - 1].key.spec_is_compatible_with(key) {
                Some(n - 1)
            } else {
                None::<int>
            }
        } else {
            opaque_scan(self.batches@, key, n - 1, self.lookback_count as int)
        }
    }

    /// The cached current batch is reused without scanning when the
    /// primitive is not a large occluder and the keys fit.
    pub open spec fn spec_fast_path(self, key: BatchKey, zrect: Rect) -> bool {
        &&& zrect.spec_area() <= self.pixel_area_threshold_for_new_batch
        &&& self.current_batch_index != usize::MAX
        &&& self.batches@[self.current_batch_index as int].key.spec_is_compatible_with(key)
    }

    pub fn new(pixel_area_threshold_for_new_batch: i128, lookback_count: usize) -> (r:
        OpaqueBatchList)
        ensures
            r.wf(),
            r.batches@.len() == 0,
            r.current_batch_index == usize::MAX,
            r.pixel_area_threshold_for_new_batch == pixel_area_threshold_for_new_batch,
            r.lookback_count == lookback_count,
    {
        OpaqueBatchList {
            pixel_area_threshold_for_new_batch,
            batches: Vec::new(),
            current_batch_index: usize::MAX,
            lookback_count,
        }
    }

    /// Drop every batch.
    pub fn clear(&mut self)
        ensures
            final(self).wf(),
            final(self).batches@.len() == 0,
            final(self).current_batch_index == usize::MAX,
            final(self).pixel_area_threshold_for_new_batch == old(
                self,
            ).pixel_area_threshold_for_new_batch,
            final(self).lookback_count == old(self).lookback_count,
    {
        self.current_batch_index = usize::MAX;
        self.batches.clear();
    }

    /// Select (or create) the batch for one opaque primitive, widen its key
    /// and features, and return its index.
    pub fn set_params_and_get_batch(
        &mut self,
        key: BatchKey,
        features: BatchFeatures,
        z_bounding_rect: &Rect,
    ) -> (idx: usize)
        requires
            old(self).wf(),
            old(self).batches@.len() < usize::MAX - 1,
        ensures
            final(self).wf(),
            opaque_list_stepped(*old(self), *final(self), idx, key, features, *z_bounding_rect, Seq::<PrimitiveInstanceData>::empty()),
    {
        let n = self.batches.len();
        let is_large_occluder = z_bounding_rect.area()
            > self.pixel_area_threshold_for_new_batch;
        if is_large_occluder || self.current_batch_index == usize::MAX
            || !self.batches[self.current_batch_index].key.is_compatible_with(&key)
        {
            let mut selected: Option<usize> = None;
            if is_large_occluder {
                if n > 0 && self.batches[n - 1].key.is_compatible_with(&key) {
                    selected = Some(n - 1);
                }
            } else {
                let ghost bs = self.batches@;
                let mut i = n;
                let mut examined: usize = 0;
                while i > 0 && examined < self.lookback_count && selected.is_none()
                    invariant
                        self.batches@ == bs,
                        n == bs.len(),
                        0 <= i <= n,
                        examined == n - i,
                        examined <= self.lookback_count,
                        self.lookback_count == old(self).lookback_count,
                        selected is None ==> opaque_scan(bs, key, n - 1, self.lookback_count as int)
                            == opaque_scan(bs, key, i - 1, self.lookback_count - examined),
                        match selected {
                            Some(j) => opaque_scan(bs, key, n - 1, self.lookback_count as int)
                                == Some(j as int) && j < n,
                            None => true,
                        },
                    decreases i,
                {
                    i = i - 1;
                    examined = examined + 1;
                    if self.batches[i].key.is_compatible_with(&key) {
                        selected = Some(i);
                    }
                }
            }

            let idx = match selected {
                Some(i) => i,
                None => {
                    let new_batch = PrimitiveBatch::new(key);
                    self.batches.push(new_batch);
                    n
                }
            };
            self.current_batch_index = idx;

            let b = &mut self.batches[idx];
            b.features = b.features.union(features);
            b.key.textures.merge(&key.textures);

            proof {
                if old(self).spec_selected(key, *z_bounding_rect) is None {
                    crate::texture::lemma_merge_self_identity(key.textures);
                    assert(0u8 | features.bits == features.bits) by (bit_vector);
                    assert(self.batches@[n as int].instances@
                        =~= Seq::<PrimitiveInstanceData>::empty());
                }
            }
            idx
        } else {
            let idx = self.current_batch_index;
            let b = &mut self.batches[idx];
            b.features = b.features.union(features);
            b.key.textures.merge(&key.textures);
            idx
        }
    }

    /// Reverse every batch's instance sequence. Opaque primitives arrive in
    /// front-to-back paint order; submitting them reversed maximizes
    /// depth-buffer early rejection. Called exactly once per pass.
    pub fn finalize(&mut self)
        ensures
            opaque_list_finalized(*old(self), *final(self)),
    {
        let n = self.batches.len();
        let mut k: usize = 0;
        while k < n
            invariant
                n == self.batches@.len(),
                n == old(self).batches@.len(),
                0 <= k <= n,
                forall|j: int| 0 <= j < k ==> {
                    &&& self.batches@[j].instances@ == old(self).batches@[j].instances@.reverse()
                    &&& self.batches@[j].key == old(self).batches@[j].key
                    &&& self.batches@[j].features == old(self).batches@[j].features
                },
                forall|j: int| k <= j < n ==> self.batches@[j] == old(self).batches@[j],
                self.current_batch_index == old(self).current_batch_index,
                self.pixel_area_threshold_for_new_batch == old(
                    self,
                ).pixel_area_threshold_for_new_batch,
                self.lookback_count == old(self).lookback_count,
            decreases n - k,
        {
            let m = self.batches[k].instances.len();
            let mut rev: Vec<PrimitiveInstanceData> = Vec::new();
            let mut i: usize = m;
            while i > 0
                invariant
                    m == self.batches@[k as int].instances@.len(),
                    k < n,
                    n == self.batches@.len(),
                    0 <= i <= m,
                    rev@.len() == m - i,
                    forall|j: int| 0 <= j < m - i ==> rev@[j]
                        == self.batches@[k as int].instances@[m - 1 - j],
                decreases i,
            {
                i = i - 1;
                let inst = self.batches[k].instances[i];
                rev.push(inst);
            }
            proof {
                assert(rev@ =~= self.batches@[k as int].instances@.reverse());
            }
            self.batches[k].instances = rev;
            k = k + 1;
        }
    }
}

/// Relates an opaque list before and after one `set_params_and_get_batch`
/// call that returned `idx`.
pub open spec fn opaque_list_stepped(
    pre: OpaqueBatchList,
    post: OpaqueBatchList,
    idx: usize,
    key: BatchKey,
    features: BatchFeatures,
    zrect: Rect,
    added: Seq<PrimitiveInstanceData>,
) -> bool {
    let n = pre.batches@.len() as int;
    &&& post.pixel_area_threshold_for_new_batch == pre.pixel_area_threshold_for_new_batch
    &&& post.lookback_count == pre.lookback_count
    &&& post.current_batch_index == idx
    &&& (idx as int) < post.batches@.len()
    &&& if pre.spec_fast_path(key, zrect) {
        &&& idx == pre.current_batch_index
        &&& post.batches@.len() == n
        &&& batch_params_merged(pre.batches@[idx as int], post.batches@[idx as int], key, features, added)
        &&& forall|k: int| 0 <= k < n && k != idx ==> post.batches@[k] == pre.batches@[k]
    } else {
        match pre.spec_selected(key, zrect) {
            Some(j) => {
                &&& idx as int == j
                &&& post.batches@.len() == n
                &&& batch_params_merged(pre.batches@[j], post.batches@[j], key, features, added)
                &&& forall|k: int| 0 <= k < n && k != j ==> post.batches@[k] == pre.batches@[k]
            }
            None => {
                &&& idx as int == n
                &&& post.batches@.len() == n + 1
                &&& batch_is_fresh(post.batches@[n], key, features, added)
                &&& forall|k: int| 0 <= k < n ==> post.batches@[k] == pre.batches@[k]
            }
        }
    }
}

/// A rectangle whose area exceeds the large-occluder threshold never
/// triggers the lookback search: when the last batch's key does not fit
/// (or there is no batch), a new batch is appended at the end.
pub proof fn lemma_large_occluder_appends_new_batch(
    pre: OpaqueBatchList,
    post: OpaqueBatchList,
    idx: usize,
    key: BatchKey,
    features: BatchFeatures,
    zrect: Rect,
)
    requires
        opaque_list_stepped(pre, post, idx, key, features, zrect, Seq::<PrimitiveInstanceData>::empty()),
        zrect.spec_area() > pre.pixel_area_threshold_for_new_batch,
        pre.batches@.len() == 0 || !pre.batches@.last().key.spec_is_compatible_with(key),
    ensures
        idx as int == pre.batches@.len(),
        post.batches@.len() == pre.batches@.len() + 1,
        batch_is_fresh(
            post.batches@[pre.batches@.len() as int],
            key,
            features,
            Seq::<PrimitiveInstanceData>::empty(),
        ),
{
}

/// Alpha-list order preservation: two primitives added in sequence to a
/// fresh list, on distinct z planes, with incompatible keys and overlapping
/// bounding rectangles, land in distinct batches, the first primitive's
/// batch preceding the second's: the overlap stops the reverse scan, so the
/// second primitive can never be merged past the first.
pub proof fn lemma_alpha_overlap_preserves_order(
    l0: AlphaBatchList,
    l1: AlphaBatchList,
    l2: AlphaBatchList,
    i1: usize,
    i2: usize,
    k1: BatchKey,
    k2: BatchKey,
    f1: BatchFeatures,
    f2: BatchFeatures,
    r1: Rect,
    r2: Rect,
    z1: ZBufferId,
    z2: ZBufferId,
)
    requires
        l0.batches@.len() == 0,
        l0.current_batch_index == usize::MAX,
        alpha_list_stepped(l0, l1, i1, k1, f1, r1, z1, Seq::<PrimitiveInstanceData>::empty()),
        alpha_list_stepped(l1, l2, i2, k2, f2, r2, z2, Seq::<PrimitiveInstanceData>::empty()),
        z1 != z2,
        !k1.spec_is_compatible_with(k2),
        !r1.spec_is_empty(),
        r1.spec_intersects(r2),
    ensures
        i1 == 0,
        i2 == 1,
        l2.batches@.len() == 2,
        l2.batches@[0].key.kind == k1.kind,
        l2.batches@[1].key.kind == k2.kind,
{
    assert(l1.batch_rects@[0].batch == (Rect { min_x: 0, min_y: 0, max_x: 0, max_y: 0 })
        .spec_union(r1));
    assert(l1.batch_rects@[0].batch == r1);
    assert(l1.batch_rects@[0].spec_intersects(r2));
    assert(alpha_scan(l1.batches@, l1.batch_rects@, k2, r2, 0) is None);
}

/// One `set_params_and_get_batch` transition adds `added.len()` instance
/// records to the alpha list in total.
pub proof fn lemma_alpha_stepped_total(
    pre: AlphaBatchList,
    post: AlphaBatchList,
    idx: usize,
    key: BatchKey,
    features: BatchFeatures,
    zrect: Rect,
    z_id: ZBufferId,
    added: Seq<PrimitiveInstanceData>,
)
    requires
        pre.wf(),
        alpha_list_stepped(pre, post, idx, key, features, zrect, z_id, added),
    ensures
        total_instances(post.batches@) == total_instances(pre.batches@) + added.len(),
{
    let n = pre.batches@.len() as int;
    if pre.spec_fast_path(key, z_id) || pre.spec_selected(key, zrect) is Some {
        assert(post.batches@ =~= pre.batches@.update(idx as int, post.batches@[idx as int]));
        lemma_total_instances_update(pre.batches@, idx as int, post.batches@[idx as int]);
    } else {
        assert(post.batches@ =~= pre.batches@.push(post.batches@[n]));
        lemma_total_instances_push(pre.batches@, post.batches@[n]);
    }
}

/// One `set_params_and_get_batch` transition adds `added.len()` instance
/// records to the opaque list in total.
pub proof fn lemma_opaque_stepped_total(
    pre: OpaqueBatchList,
    post: OpaqueBatchList,
    idx: usize,
    key: BatchKey,
    features: BatchFeatures,
    zrect: Rect,
    added: Seq<PrimitiveInstanceData>,
)
    requires
        pre.wf(),
        opaque_list_stepped(pre, post, idx, key, features, zrect, added),
    ensures
        total_instances(post.batches@) == total_instances(pre.batches@) + added.len(),
{
    let n = pre.batches@.len() as int;
    if pre.spec_fast_path(key, zrect) || pre.spec_selected(key, zrect) is Some {
        assert(post.batches@ =~= pre.batches@.update(idx as int, post.batches@[idx as int]));
        lemma_total_instances_update(pre.batches@, idx as int, post.batches@[idx as int]);
    } else {
        assert(post.batches@ =~= pre.batches@.push(post.batches@[n]));
        lemma_total_instances_push(pre.batches@, post.batches@[n]);
    }
}

/// Appending records to the batch just selected extends the transition:
/// selecting with nothing added and then pushing `more` onto the selected
/// batch is one transition that added `added + more`.
pub proof fn lemma_alpha_stepped_extend(
    pre: AlphaBatchList,
    mid: AlphaBatchList,
    post: AlphaBatchList,
    idx: usize,
    key: BatchKey,
    features: BatchFeatures,
    zrect: Rect,
    z_id: ZBufferId,
    added: Seq<PrimitiveInstanceData>,
    more: Seq<PrimitiveInstanceData>,
)
    requires
        alpha_list_stepped(pre, mid, idx, key, features, zrect, z_id, added),
        post.batches@.len() == mid.batches@.len(),
        (idx as int) < mid.batches@.len(),
        post.batches@[idx as int].key == mid.batches@[idx as int].key,
        post.batches@[idx as int].features == mid.batches@[idx as int].features,
        post.batches@[idx as int].instances@ == mid.batches@[idx as int].instances@ + more,
        forall|k: int| 0 <= k < mid.batches@.len() && k != idx ==> post.batches@[k]
            == mid.batches@[k],
        post.batch_rects@ == mid.batch_rects@,
        post.current_batch_index == mid.current_batch_index,
        post.current_z_id == mid.current_z_id,
        post.break_advanced_blend_batches == mid.break_advanced_blend_batches,
    ensures
        alpha_list_stepped(pre, post, idx, key, features, zrect, z_id, added + more),
{
    if pre.spec_fast_path(key, z_id) {
        assert(post.batches@[idx as int].instances@ =~= pre.batches@[idx as int].instances@ + (
        added + more));
    } else {
        match pre.spec_selected(key, zrect) {
            Some(j) => {
                assert(post.batches@[j].instances@ =~= pre.batches@[j].instances@ + (added
                    + more));
            }
            None => {
                assert(post.batches@[pre.batches@.len() as int].instances@ =~= added + more);
            }
        }
    }
}

/// The opaque-list counterpart of [`lemma_alpha_stepped_extend`].
pub proof fn lemma_opaque_stepped_extend(
    pre: OpaqueBatchList,
    mid: OpaqueBatchList,
    post: OpaqueBatchList,
    idx: usize,
    key: BatchKey,
    features: BatchFeatures,
    zrect: Rect,
    added: Seq<PrimitiveInstanceData>,
    more: Seq<PrimitiveInstanceData>,
)
    requires
        opaque_list_stepped(pre, mid, idx, key, features, zrect, added),
        post.batches@.len() == mid.batches@.len(),
        (idx as int) < mid.batches@.len(),
        post.batches@[idx as int].key == mid.batches@[idx as int].key,
        post.batches@[idx as int].features == mid.batches@[idx as int].features,
        post.batches@[idx as int].instances@ == mid.batches@[idx as int].instances@ + more,
        forall|k: int| 0 <= k < mid.batches@.len() && k != idx ==> post.batches@[k]
            == mid.batches@[k],
        post.current_batch_index == mid.current_batch_index,
        post.pixel_area_threshold_for_new_batch == mid.pixel_area_threshold_for_new_batch,
        post.lookback_count == mid.lookback_count,
    ensures
        opaque_list_stepped(pre, post, idx, key, features, zrect, added + more),
{
    if pre.spec_fast_path(key, zrect) {
        assert(post.batches@[idx as int].instances@ =~= pre.batches@[idx as int].instances@ + (
        added + more));
    } else {
        match pre.spec_selected(key, zrect) {
            Some(j) => {
                assert(post.batches@[j].instances@ =~= pre.batches@[j].instances@ + (added
                    + more));
            }
            None => {
                assert(post.batches@[pre.batches@.len() as int].instances@ =~= added + more);
            }
        }
    }
}

/// Relates an opaque list before and after `finalize`: every batch's
/// instance sequence is reversed; nothing else changes.
pub open spec fn opaque_list_finalized(pre: OpaqueBatchList, post: OpaqueBatchList) -> bool {
    &&& post.batches@.len() == pre.batches@.len()
    &&& forall|k: int| 0 <= k < pre.batches@.len() ==> {
        &&& (#[trigger] post.batches@[k]).instances@ == pre.batches@[k].instances@.reverse()
        &&& post.batches@[k].key == pre.batches@[k].key
        &&& post.batches@[k].features == pre.batches@[k].features
    }
    &&& post.current_batch_index == pre.current_batch_index
    &&& post.pixel_area_threshold_for_new_batch == pre.pixel_area_threshold_for_new_batch
    &&& post.lookback_count == pre.lookback_count
}

/// Finalizing is not idempotent: a second finalization re-reverses, so
/// after two finalizations every batch holds its original instance
/// sequence again, not the reversed one.
pub proof fn lemma_finalize_twice_restores_order(
    l0: OpaqueBatchList,
    l1: OpaqueBatchList,
    l2: OpaqueBatchList,
)
    requires
        opaque_list_finalized(l0, l1),
        opaque_list_finalized(l1, l2),
    ensures
        l2.batches@.len() == l0.batches@.len(),
        forall|k: int| 0 <= k < l0.batches@.len() ==> (#[trigger] l2.batches@[k]).instances@
            == l0.batches@[k].instances@,
{
    assert forall|k: int| 0 <= k < l0.batches@.len() implies (#[trigger] l2.batches@[k])
        .instances@ == l0.batches@[k].instances@ by {
        assert(l2.batches@[k].instances@ == l0.batches@[k].instances@.reverse().reverse());
        assert(l0.batches@[k].instances@.reverse().reverse() =~= l0.batches@[k].instances@);
    }
}


/// One emitted draw record, tagged with the shader kind and blend mode of
/// the batch it joined. A batch's kind and blend mode never change after
/// creation (only its textures widen), so this tag is stable.
pub open spec fn emission_seq(b: PrimitiveBatch) -> Seq<(BatchKind, BlendMode,
    PrimitiveInstanceData,
)> {
    b.instances@.map_values(
        |inst: PrimitiveInstanceData| (b.key.kind, b.key.blend_mode, inst),
    )
}

/// Everything a list of batches would draw: each instance record together
/// with its batch's shader kind and blend mode, as a multiset (the order
/// across batches is the list's own concern).
pub open spec fn batch_emissions(batches: Seq<PrimitiveBatch>) -> Multiset<(BatchKind, BlendMode,
    PrimitiveInstanceData,
)>
    decreases batches.len(),
{
    if batches.len() == 0 {
        Multiset::empty()
    } else {
        batch_emissions(batches.drop_last()).add(emission_seq(batches.last()).to_multiset())
    }
}

/// The emissions of a sequence of records joining a batch of the given
/// kind and blend mode.
pub open spec fn tagged(key: BatchKey, added: Seq<PrimitiveInstanceData>) -> Multiset<(BatchKind,
    BlendMode,
    PrimitiveInstanceData,
)> {
    added.map_values(
        |inst: PrimitiveInstanceData| (key.kind, key.blend_mode, inst),
    ).to_multiset()
}

/// Extending one batch by `added` records, without touching its kind or
/// blend mode, adds exactly their tagged emissions.
proof fn lemma_batch_emissions_update(
    batches: Seq<PrimitiveBatch>,
    i: int,
    b: PrimitiveBatch,
    added: Seq<PrimitiveInstanceData>,
)
    requires
        0 <= i < batches.len(),
        b.instances@ == batches[i].instances@ + added,
        b.key.kind == batches[i].key.kind,
        b.key.blend_mode == batches[i].key.blend_mode,
    ensures
        batch_emissions(batches.update(i, b)) == batch_emissions(batches).add(
            tagged(b.key, added),
        ),
    decreases batches.len(),
{
    let n = batches.len() as int;
    assert(emission_seq(b) =~= emission_seq(batches[i]) + added.map_values(
        |inst: PrimitiveInstanceData| (b.key.kind, b.key.blend_mode, inst),
    ));
    lemma_multiset_commutative(
        emission_seq(batches[i]),
        added.map_values(|inst: PrimitiveInstanceData| (b.key.kind, b.key.blend_mode, inst)),
    );
    if i == n - 1 {
        assert(batches.update(i, b).drop_last() =~= batches.drop_last());
        assert(batch_emissions(batches.update(i, b)) =~= batch_emissions(batches).add(
            tagged(b.key, added),
        ));
    } else {
        assert(batches.update(i, b).drop_last() =~= batches.drop_last().update(i, b));
        lemma_batch_emissions_update(batches.drop_last(), i, b, added);
        assert(batch_emissions(batches.update(i, b)) =~= batch_emissions(batches).add(
            tagged(b.key, added),
        ));
    }
}

/// Appending a fresh batch adds exactly its own tagged emissions.
proof fn lemma_batch_emissions_push(batches: Seq<PrimitiveBatch>, b: PrimitiveBatch)
    ensures
        batch_emissions(batches.push(b)) == batch_emissions(batches).add(
            tagged(b.key, b.instances@),
        ),
{
    assert(batches.push(b).drop_last() =~= batches);
    assert(emission_seq(b) =~= b.instances@.map_values(
        |inst: PrimitiveInstanceData| (b.key.kind, b.key.blend_mode, inst),
    ));
    assert(batch_emissions(batches.push(b)) =~= batch_emissions(batches).add(
        tagged(b.key, b.instances@),
    ));
}

/// A successful alpha-list scan lands on a batch whose key is compatible
/// with the probe.
proof fn lemma_alpha_scan_compatible(
    batches: Seq<PrimitiveBatch>,
    rects: Seq<BatchRects>,
    key: BatchKey,
    zrect: Rect,
    i: int,
    j: int,
)
    requires
        alpha_scan(batches, rects, key, zrect, i) == Some(j),
    ensures
        0 <= j <= i,
        batches[j].key.spec_is_compatible_with(key),
    decreases i + 1,
{
    if i >= 0 && !batches[i].key.spec_is_compatible_with(key) && !rects[i].spec_intersects(
        zrect,
    ) {
        lemma_alpha_scan_compatible(batches, rects, key, zrect, i - 1, j);
    }
}

/// A successful opaque-list scan lands on a compatible batch too.
proof fn lemma_opaque_scan_compatible(
    batches: Seq<PrimitiveBatch>,
    key: BatchKey,
    i: int,
    remaining: int,
    j: int,
)
    requires
        opaque_scan(batches, key, i, remaining) == Some(j),
    ensures
        0 <= j <= i,
        batches[j].key.spec_is_compatible_with(key),
    decreases i + 1,
{
    if i >= 0 && remaining > 0 && !batches[i].key.spec_is_compatible_with(key) {
        lemma_opaque_scan_compatible(batches, key, i - 1, remaining - 1, j);
    }
}

/// One alpha-list transition adds exactly the tagged emissions of the
/// records it appended: the selected batch always shares the probe key's
/// kind and blend mode, so the tag is the probe's.
pub proof fn lemma_alpha_stepped_emissions(
    pre: AlphaBatchList,
    post: AlphaBatchList,
    idx: usize,
    key: BatchKey,
    features: BatchFeatures,
    zrect: Rect,
    z_id: ZBufferId,
    added: Seq<PrimitiveInstanceData>,
)
    requires
        pre.wf(),
        alpha_list_stepped(pre, post, idx, key, features, zrect, z_id, added),
    ensures
        batch_emissions(post.batches@) == batch_emissions(pre.batches@).add(tagged(key, added)),
{
    let n = pre.batches@.len() as int;
    if pre.spec_fast_path(key, z_id) {
        assert(post.batches@ =~= pre.batches@.update(idx as int, post.batches@[idx as int]));
        lemma_batch_emissions_update(pre.batches@, idx as int, post.batches@[idx as int], added);
        assert(tagged(post.batches@[idx as int].key, added) =~= tagged(key, added));
    } else {
        match pre.spec_selected(key, zrect) {
            Some(j) => {
                if !((key.blend_mode is Advanced) && pre.break_advanced_blend_batches) {
                    lemma_alpha_scan_compatible(
                        pre.batches@,
                        pre.batch_rects@,
                        key,
                        zrect,
                        n - 1,
                        j,
                    );
                }
                assert(post.batches@ =~= pre.batches@.update(j, post.batches@[j]));
                lemma_batch_emissions_update(pre.batches@, j, post.batches@[j], added);
                assert(tagged(post.batches@[j].key, added) =~= tagged(key, added));
            }
            None => {
                assert(post.batches@ =~= pre.batches@.push(post.batches@[n]));
                lemma_batch_emissions_push(pre.batches@, post.batches@[n]);
                assert(tagged(post.batches@[n].key, post.batches@[n].instances@) =~= tagged(
                    key,
                    added,
                ));
            }
        }
    }
}

/// The opaque-list counterpart of [`lemma_alpha_stepped_emissions`].
pub proof fn lemma_opaque_stepped_emissions(
    pre: OpaqueBatchList,
    post: OpaqueBatchList,
    idx: usize,
    key: BatchKey,
    features: BatchFeatures,
    zrect: Rect,
    added: Seq<PrimitiveInstanceData>,
)
    requires
        pre.wf(),
        opaque_list_stepped(pre, post, idx, key, features, zrect, added),
    ensures
        batch_emissions(post.batches@) == batch_emissions(pre.batches@).add(tagged(key, added)),
{
    let n = pre.batches@.len() as int;
    if pre.spec_fast_path(key, zrect) {
        assert(post.batches@ =~= pre.batches@.update(idx as int, post.batches@[idx as int]));
        lemma_batch_emissions_update(pre.batches@, idx as int, post.batches@[idx as int], added);
        assert(tagged(post.batches@[idx as int].key, added) =~= tagged(key, added));
    } else {
        match pre.spec_selected(key, zrect) {
            Some(j) => {
                if zrect.spec_area() > pre.pixel_area_threshold_for_new_batch {
                } else {
                    lemma_opaque_scan_compatible(
                        pre.batches@,
                        key,
                        n - 1,
                        pre.lookback_count as int,
                        j,
                    );
                }
                assert(post.batches@ =~= pre.batches@.update(j, post.batches@[j]));
                lemma_batch_emissions_update(pre.batches@, j, post.batches@[j], added);
                assert(tagged(post.batches@[j].key, added) =~= tagged(key, added));
            }
            None => {
                assert(post.batches@ =~= pre.batches@.push(post.batches@[n]));
                lemma_batch_emissions_push(pre.batches@, post.batches@[n]);
                assert(tagged(post.batches@[n].key, post.batches@[n].instances@) =~= tagged(
                    key,
                    added,
                ));
            }
        }
    }
}


/// Tagging a single record gives a singleton emission multiset.
pub proof fn lemma_tagged_singleton(key: BatchKey, inst: PrimitiveInstanceData)
    ensures
        tagged(key, seq![inst]) == Multiset::empty().insert((key.kind, key.blend_mode, inst)),
{
    broadcast use vstd::seq_lib::group_to_multiset_ensures;
    broadcast use vstd::multiset::group_multiset_axioms;

    let mapped = seq![inst].map_values(
        |i: PrimitiveInstanceData| (key.kind, key.blend_mode, i),
    );
    let empty_seq = Seq::<(BatchKind, BlendMode, PrimitiveInstanceData)>::empty();
    assert(mapped =~= empty_seq.push((key.kind, key.blend_mode, inst)));
    vstd::multiset::lemma_multiset_empty_len(empty_seq.to_multiset());
    assert(mapped.to_multiset() =~= empty_seq.to_multiset().insert(
        (key.kind, key.blend_mode, inst),
    ));
    assert(tagged(key, seq![inst]) =~= Multiset::empty().insert(
        (key.kind, key.blend_mode, inst),
    ));
}

} // verus!
