use batching::geom::Rect;
use batching::key::MixBlendMode;
use batching::gpu::{BrushInstance, PrimitiveHeaderIndex, PrimitiveInstanceData};
use batching::key::{
    BatchFeatures, BatchKey, BatchKind, BlendMode, BrushBatchKind, BrushFlags, EdgeAaSegmentMask,
    ZBufferId,
};
use batching::lists::{AlphaBatchList, BatchRects, OpaqueBatchList};
use batching::texture::{BatchTextures, CacheTextureId, Swizzle, TextureSource};

fn tex(id: u64) -> TextureSource {
    TextureSource::TextureCache(CacheTextureId(id), Swizzle::Rgba8)
}

fn key(kind: BrushBatchKind, blend: BlendMode, t: TextureSource) -> BatchKey {
    BatchKey::new(
        BatchKind::Brush(kind),
        blend,
        BatchTextures::prim_textured(t, TextureSource::Invalid),
    )
}

fn inst(n: i32) -> PrimitiveInstanceData {
    PrimitiveInstanceData::Brush(BrushInstance {
        prim_header_index: PrimitiveHeaderIndex(n),
        clip_task_address: 0,
        segment_index: 0,
        edge_flags: EdgeAaSegmentMask::empty(),
        brush_flags: BrushFlags::empty(),
        resource_address: 0,
    })
}

fn r(min_x: i32, min_y: i32, max_x: i32, max_y: i32) -> Rect {
    Rect::new(min_x, min_y, max_x, max_y)
}

#[test]
fn batch_rects_union_tracks_all_added_rects() {
    let mut br = BatchRects::new();
    br.add_rect(&r(0, 0, 10, 10));
    assert_eq!(br.batch, r(0, 0, 10, 10));
    br.add_rect(&r(5, 5, 20, 20));
    assert_eq!(br.batch, r(0, 0, 20, 20));
    // Distant rectangle: union still exact, whether or not per-item
    // tracking has begun.
    br.add_rect(&r(100, 100, 110, 110));
    assert_eq!(br.batch, r(0, 0, 110, 110));
}

#[test]
fn batch_rects_activates_item_tracking_when_union_is_loose() {
    let mut br = BatchRects::new();
    br.add_rect(&r(0, 0, 10, 10));
    assert!(!br.tracking);
    // A far-away rectangle makes the bounding box a poor approximation:
    // sum of areas (100 + 100) < union area (110 * 110).
    br.add_rect(&r(100, 100, 110, 110));
    assert!(br.tracking);
    // The gap between the two rectangles no longer reports an overlap.
    assert!(!br.intersects(&r(40, 40, 60, 60)));
    assert!(br.intersects(&r(5, 5, 6, 6)));
    assert!(br.intersects(&r(105, 105, 106, 106)));
}

#[test]
fn batch_rects_without_items_trusts_the_union() {
    let mut br = BatchRects::new();
    br.add_rect(&r(0, 0, 10, 10));
    br.add_rect(&r(5, 0, 15, 10));
    assert!(!br.tracking);
    // Inside the union: reported as an overlap without item checks.
    assert!(br.intersects(&r(8, 2, 9, 3)));
    assert!(!br.intersects(&r(50, 50, 60, 60)));
}

#[test]
fn alpha_list_overlap_blocks_merging_past_an_incompatible_batch() {
    // P1 (key K1) then P2 (key K2), overlapping rects, incompatible keys:
    // P2's batch must come after P1's.
    let mut list = AlphaBatchList::new(false);
    let k1 = key(BrushBatchKind::Solid, BlendMode::PremultipliedAlpha, tex(1));
    let k2 = key(BrushBatchKind::Solid, BlendMode::PremultipliedAlpha, tex(2));
    let rect = r(0, 0, 10, 10);
    let i1 = list.set_params_and_get_batch(k1, BatchFeatures::empty(), &rect, ZBufferId(1));
    list.batches[i1].instances.push(inst(1));
    let i2 = list.set_params_and_get_batch(k2, BatchFeatures::empty(), &rect, ZBufferId(2));
    list.batches[i2].instances.push(inst(2));
    assert_eq!(i1, 0);
    assert_eq!(i2, 1);
    assert!(i1 < i2);
    assert_eq!(list.batches.len(), 2);
}

#[test]
fn alpha_list_merges_over_a_non_overlapping_incompatible_batch() {
    // A (K1, [0,0,10,10]); B (K2, [100,100,110,110]) non-overlapping with
    // A; C (K1, [0,0,10,10]). B's rectangle does not intersect C's, so the
    // reverse scan passes B and C lands in A's batch.
    let mut list = AlphaBatchList::new(false);
    let k1 = key(BrushBatchKind::Solid, BlendMode::PremultipliedAlpha, tex(1));
    let k2 = key(BrushBatchKind::Solid, BlendMode::PremultipliedAlpha, tex(2));
    let ra = r(0, 0, 10, 10);
    let rb = r(100, 100, 110, 110);
    let ia = list.set_params_and_get_batch(k1, BatchFeatures::empty(), &ra, ZBufferId(1));
    let ib = list.set_params_and_get_batch(k2, BatchFeatures::empty(), &rb, ZBufferId(2));
    let ic = list.set_params_and_get_batch(k1, BatchFeatures::empty(), &ra, ZBufferId(3));
    assert_eq!(ia, 0);
    assert_eq!(ib, 1);
    assert_eq!(ic, 0, "C must merge into A's batch: B does not overlap");
    assert_eq!(list.batches.len(), 2);
}

#[test]
fn alpha_list_fast_path_reuses_current_batch_for_same_z() {
    let mut list = AlphaBatchList::new(false);
    let k1 = key(BrushBatchKind::Solid, BlendMode::PremultipliedAlpha, tex(1));
    let rect = r(0, 0, 10, 10);
    let i1 = list.set_params_and_get_batch(k1, BatchFeatures::empty(), &rect, ZBufferId(5));
    let i2 = list.set_params_and_get_batch(k1, BatchFeatures::empty(), &rect, ZBufferId(5));
    assert_eq!(i1, i2);
    assert_eq!(list.batches.len(), 1);
}

#[test]
fn alpha_list_breaks_advanced_blend_batches_when_configured() {
    let mut list = AlphaBatchList::new(true);
    let k = key(
        BrushBatchKind::Solid,
        BlendMode::Advanced(MixBlendMode::Overlay),
        tex(1),
    );
    let rect = r(0, 0, 10, 10);
    let i1 = list.set_params_and_get_batch(k, BatchFeatures::empty(), &rect, ZBufferId(1));
    let i2 = list.set_params_and_get_batch(k, BatchFeatures::empty(), &rect, ZBufferId(2));
    assert_eq!(i1, 0);
    assert_eq!(i2, 1, "advanced blends never reuse a batch here");
}

#[test]
fn opaque_list_large_occluder_appends_rather_than_searching() {
    // Threshold 100 square pixels; a prior batch with an incompatible key
    // sits at the end; the large rectangle must open a new batch even
    // though a compatible batch is within the lookback window.
    let mut list = OpaqueBatchList::new(100, 10);
    let k1 = key(BrushBatchKind::Solid, BlendMode::NoBlend, tex(1));
    let k2 = key(BrushBatchKind::Solid, BlendMode::NoBlend, tex(2));
    let small = r(0, 0, 5, 5);
    let i1 = list.set_params_and_get_batch(k1, BatchFeatures::empty(), &small);
    let i2 = list.set_params_and_get_batch(k2, BatchFeatures::empty(), &small);
    assert_eq!((i1, i2), (0, 1));

    // Area 400 > 100, and the last batch (k2) is incompatible with k1.
    let large = r(0, 0, 20, 20);
    let i3 = list.set_params_and_get_batch(k1, BatchFeatures::empty(), &large);
    assert_eq!(i3, 2, "large occluders only consider the last batch");
    assert_eq!(list.batches.len(), 3);
}

#[test]
fn opaque_list_large_occluder_merges_into_last_batch_when_compatible() {
    let mut list = OpaqueBatchList::new(100, 10);
    let k1 = key(BrushBatchKind::Solid, BlendMode::NoBlend, tex(1));
    let small = r(0, 0, 5, 5);
    let i1 = list.set_params_and_get_batch(k1, BatchFeatures::empty(), &small);
    let large = r(0, 0, 20, 20);
    let i2 = list.set_params_and_get_batch(k1, BatchFeatures::empty(), &large);
    assert_eq!((i1, i2), (0, 0));
}

#[test]
fn opaque_list_lookback_bounds_the_scan() {
    let mut list = OpaqueBatchList::new(1_000_000, 1);
    let k1 = key(BrushBatchKind::Solid, BlendMode::NoBlend, tex(1));
    let k2 = key(BrushBatchKind::Solid, BlendMode::NoBlend, tex(2));
    let k3 = key(BrushBatchKind::Solid, BlendMode::NoBlend, tex(3));
    let rect = r(0, 0, 5, 5);
    list.set_params_and_get_batch(k1, BatchFeatures::empty(), &rect);
    list.set_params_and_get_batch(k2, BatchFeatures::empty(), &rect);
    // k1 exists at index 0 but the lookback of 1 only examines index 1.
    let i3 = list.set_params_and_get_batch(k1, BatchFeatures::empty(), &rect);
    assert_eq!(i3, 2);
}

#[test]
fn finalize_reverses_each_batch_and_twice_restores() {
    let mut list = OpaqueBatchList::new(1_000_000, 10);
    let k1 = key(BrushBatchKind::Solid, BlendMode::NoBlend, tex(1));
    let rect = r(0, 0, 5, 5);
    let idx = list.set_params_and_get_batch(k1, BatchFeatures::empty(), &rect);
    list.batches[idx].instances.push(inst(1));
    list.batches[idx].instances.push(inst(2));
    list.batches[idx].instances.push(inst(3));

    list.finalize();
    assert_eq!(list.batches[idx].instances, vec![inst(3), inst(2), inst(1)]);

    // Finalizing again is not idempotent: it re-reverses, restoring the
    // original order, which differs from the single-finalize order.
    let once = list.batches[idx].instances.clone();
    list.finalize();
    assert_eq!(list.batches[idx].instances, vec![inst(1), inst(2), inst(3)]);
    assert_ne!(list.batches[idx].instances, once);
}
