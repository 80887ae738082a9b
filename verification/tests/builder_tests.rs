use batching::builder::{AlphaBatchBuilder, BatchBuilder, BrushBatchParameters, SegmentInstanceData};
use batching::key::{EDGE_AA_LEFT, EDGE_AA_TOP};
use batching::texture::TextureSet;
use batching::context::BrushSegment;
use batching::gpu::{BrushInstance, PrimitiveHeaderIndex, PrimitiveInstanceData};
use batching::key::BrushFlags;
use batching::prim::SegmentInstance;
use batching::container::AlphaBatchContainer;
use batching::context::{
    ClipMaskKind, ClipTaskIndex, GpuCache, GpuCacheHandle, RenderTargetContext, RenderTask,
    RenderTaskGraph, SpatialTree, TransformPalette,
};
use batching::geom::Rect;
use batching::gpu::{PrimitiveHeaders, TransformedRectKind};
use batching::gpu::{AlphaType, ImageBrushData, RasterizationSpace, ShaderColorMode};
use batching::key::{
    BatchFeatures, BatchKey, BatchKind, BlendMode, BrushBatchKind, EdgeAaSegmentMask,
    RenderTaskId, ZBufferId, ZBufferIdGenerator,
};
use batching::prim::{
    PrimCommonData, PrimitiveCommand, PrimitiveInstance,
    PrimitiveInstanceKind, PrimitiveVisibility, SegmentInstanceIndex, SegmentStore,
    VisibilityState, VIS_IS_BACKDROP,
};
use batching::texture::{BatchTextures, CacheTextureId, Swizzle, TextureSource};

fn r(min_x: i32, min_y: i32, max_x: i32, max_y: i32) -> Rect {
    Rect::new(min_x, min_y, max_x, max_y)
}

fn builder() -> BatchBuilder {
    BatchBuilder::new(AlphaBatchBuilder::new(1000, 1000, false, 10, RenderTaskId(0), 0))
}

fn context() -> RenderTargetContext {
    RenderTargetContext {
        break_advanced_blend_batches: false,
        use_advanced_blending: false,
        use_dual_source_blending: true,
        clip_mask_instances: vec![ClipMaskKind::NoMask, ClipMaskKind::NoMask, ClipMaskKind::Clipped],
        spatial_tree: SpatialTree { transform_kinds: vec![TransformedRectKind::AxisAligned] },
        default_image_handle: GpuCacheHandle { address: Some(1) },
        default_black_rect_handle: GpuCacheHandle { address: Some(2) },
    }
}

fn empty_store() -> SegmentStore {
    SegmentStore { segment_instances: Vec::new(), segments: Vec::new() }
}

fn rect_prim(state: VisibilityState, is_opaque: bool) -> PrimitiveInstance {
    PrimitiveInstance {
        kind: PrimitiveInstanceKind::Rectangle {
            segment_instance_index: SegmentInstanceIndex::Unused,
        },
        local_rect: r(0, 0, 10, 10),
        common: PrimCommonData {
            is_opaque,
            gpu_cache_handle: GpuCacheHandle { address: Some(3) },
            edge_aa_mask: EdgeAaSegmentMask::all(),
            may_need_repetition: false,
            has_anti_aliasing: false,
        },
        vis: PrimitiveVisibility {
            state,
            clip_task_index: ClipTaskIndex::Invalid,
            pic_coverage_rect: r(0, 0, 10, 10),
            local_clip_rect: r(0, 0, 10, 10),
        },
    }
}

fn total(b: &BatchBuilder) -> usize {
    let alpha: usize = b.batcher.alpha_batch_list.batches.iter().map(|x| x.instances.len()).sum();
    let opaque: usize =
        b.batcher.opaque_batch_list.batches.iter().map(|x| x.instances.len()).sum();
    alpha + opaque
}

#[allow(clippy::too_many_arguments)]
fn run(
    b: &mut BatchBuilder,
    ctx: &RenderTargetContext,
    tasks: &RenderTaskGraph,
    prims: &Vec<PrimitiveInstance>,
    store: &SegmentStore,
    z: &mut ZBufferIdGenerator,
) {
    let cmd = PrimitiveCommand::Simple { prim_instance_index: 0 };
    let mut gpu_cache = GpuCache::new();
    let mut headers = PrimitiveHeaders::new();
    let mut transforms = TransformPalette::new();
    let segments: Vec<RenderTaskId> = Vec::new();
    b.add_prim_to_batch(
        &cmd,
        0,
        ctx,
        &mut gpu_cache,
        tasks,
        &mut headers,
        &mut transforms,
        z,
        prims,
        store,
        &segments,
    );
}

#[test]
fn culled_primitive_emits_nothing() {
    let mut b = builder();
    let ctx = context();
    let tasks = RenderTaskGraph { tasks: Vec::new() };
    let prims = vec![rect_prim(VisibilityState::Culled, true)];
    let mut z = ZBufferIdGenerator::new();
    run(&mut b, &ctx, &tasks, &prims, &empty_store(), &mut z);
    assert_eq!(total(&b), 0);
    assert_eq!(b.batcher.opaque_batch_list.batches.len(), 0);
    assert_eq!(b.batcher.alpha_batch_list.batches.len(), 0);
}

#[test]
fn opaque_rectangle_emits_one_opaque_instance() {
    let mut b = builder();
    let ctx = context();
    let tasks = RenderTaskGraph { tasks: Vec::new() };
    let prims = vec![rect_prim(VisibilityState::Visible { vis_flags: 0 }, true)];
    let mut z = ZBufferIdGenerator::new();
    run(&mut b, &ctx, &tasks, &prims, &empty_store(), &mut z);
    assert_eq!(total(&b), 1);
    assert_eq!(b.batcher.opaque_batch_list.batches.len(), 1);
    assert_eq!(b.batcher.alpha_batch_list.batches.len(), 0);
    assert_eq!(
        b.batcher.opaque_batch_list.batches[0].key.blend_mode,
        BlendMode::NoBlend
    );
}

#[test]
fn translucent_rectangle_goes_to_the_alpha_list() {
    let mut b = builder();
    let ctx = context();
    let tasks = RenderTaskGraph { tasks: Vec::new() };
    let prims = vec![rect_prim(VisibilityState::Visible { vis_flags: 0 }, false)];
    let mut z = ZBufferIdGenerator::new();
    run(&mut b, &ctx, &tasks, &prims, &empty_store(), &mut z);
    assert_eq!(total(&b), 1);
    assert_eq!(b.batcher.alpha_batch_list.batches.len(), 1);
    assert_eq!(
        b.batcher.alpha_batch_list.batches[0].key.blend_mode,
        BlendMode::PremultipliedAlpha
    );
}

#[test]
fn backdrop_discards_all_previous_batches() {
    let mut b = builder();
    let ctx = context();
    let tasks = RenderTaskGraph { tasks: Vec::new() };
    let mut z = ZBufferIdGenerator::new();

    let prims = vec![rect_prim(VisibilityState::Visible { vis_flags: 0 }, true)];
    run(&mut b, &ctx, &tasks, &prims, &empty_store(), &mut z);
    assert_eq!(total(&b), 1);

    let backdrop = vec![rect_prim(
        VisibilityState::Visible { vis_flags: VIS_IS_BACKDROP },
        true,
    )];
    run(&mut b, &ctx, &tasks, &backdrop, &empty_store(), &mut z);
    assert_eq!(total(&b), 0);
    assert_eq!(b.batcher.opaque_batch_list.batches.len(), 0);
}

#[test]
fn segmented_rectangle_skips_fully_clipped_segments() {
    // Three segments; the clip records at slots 0..3 are NoMask, NoMask,
    // Clipped: exactly two instances are emitted.
    let seg = BrushSegment { edge_flags: EdgeAaSegmentMask::all(), brush_flags: BrushFlags::empty() };
    let store = SegmentStore {
        segment_instances: vec![SegmentInstance {
            gpu_cache_handle: GpuCacheHandle { address: Some(11) },
            segments_start: 0,
            segments_len: 3,
        }],
        segments: vec![seg, seg, seg],
    };
    let mut prim = rect_prim(VisibilityState::Visible { vis_flags: 0 }, true);
    prim.kind = PrimitiveInstanceKind::Rectangle {
        segment_instance_index: SegmentInstanceIndex::At(0),
    };
    prim.vis.clip_task_index = ClipTaskIndex::At(0);

    let mut b = builder();
    let ctx = context();
    let tasks = RenderTaskGraph { tasks: Vec::new() };
    let mut z = ZBufferIdGenerator::new();
    run(&mut b, &ctx, &tasks, &vec![prim], &store, &mut z);
    assert_eq!(total(&b), 2);
}

#[test]
fn three_disjoint_opaque_rectangles_share_one_batch_and_reverse() {
    // Three opaque rectangles with identical keys, disjoint rects, all
    // below the large-occluder threshold: one batch with three instances,
    // and after finalize the instance order is reversed.
    let mut batcher = AlphaBatchBuilder::new(1000, 1000, false, 10, RenderTaskId(0), 0);
    let k = BatchKey::new(
        BatchKind::Brush(BrushBatchKind::Solid),
        BlendMode::NoBlend,
        BatchTextures::prim_textured(
            TextureSource::TextureCache(CacheTextureId(1), Swizzle::Rgba8),
            TextureSource::Invalid,
        ),
    );
    let rects = [r(0, 0, 10, 10), r(20, 0, 30, 10), r(40, 0, 50, 10)];
    let mut made = Vec::new();
    for (i, rect) in rects.iter().enumerate() {
        let instance = PrimitiveInstanceData::Brush(BrushInstance {
            prim_header_index: PrimitiveHeaderIndex(i as i32),
            clip_task_address: 0,
            segment_index: 0,
            edge_flags: EdgeAaSegmentMask::empty(),
            brush_flags: BrushFlags::empty(),
            resource_address: 0,
        });
        made.push(instance);
        batcher.push_single_instance(
            k,
            BatchFeatures::empty(),
            rect,
            ZBufferId(i as i32),
            instance,
        );
    }
    assert_eq!(batcher.opaque_batch_list.batches.len(), 1);
    assert_eq!(batcher.alpha_batch_list.batches.len(), 0);
    assert_eq!(batcher.opaque_batch_list.batches[0].instances, made);

    batcher.opaque_batch_list.finalize();
    let reversed: Vec<_> = made.iter().rev().cloned().collect();
    assert_eq!(batcher.opaque_batch_list.batches[0].instances, reversed);
}

#[test]
fn build_merges_into_the_shared_container_without_scissor() {
    let mut batcher = AlphaBatchBuilder::new(1000, 1000, false, 10, RenderTaskId(0), 0);
    let k = BatchKey::new(
        BatchKind::Brush(BrushBatchKind::Solid),
        BlendMode::NoBlend,
        BatchTextures::empty(),
    );
    let instance = PrimitiveInstanceData::Brush(BrushInstance {
        prim_header_index: PrimitiveHeaderIndex(0),
        clip_task_address: 0,
        segment_index: 0,
        edge_flags: EdgeAaSegmentMask::empty(),
        brush_flags: BrushFlags::empty(),
        resource_address: 0,
    });
    batcher.push_single_instance(k, BatchFeatures::empty(), &r(0, 0, 5, 5), ZBufferId(0), instance);

    let mut containers: Vec<AlphaBatchContainer> = Vec::new();
    let mut merged = AlphaBatchContainer::new(None);
    batcher.build(&mut containers, &mut merged, r(0, 0, 100, 100), None);
    assert!(containers.is_empty());
    assert_eq!(merged.opaque_batches.len(), 1);
    assert_eq!(merged.opaque_batches[0].instances.len(), 1);
    assert_eq!(merged.task_rect, r(0, 0, 100, 100));
}

#[test]
fn build_keeps_scissored_tasks_in_their_own_container() {
    let batcher = AlphaBatchBuilder::new(1000, 1000, false, 10, RenderTaskId(0), 0);
    let mut containers: Vec<AlphaBatchContainer> = Vec::new();
    let mut merged = AlphaBatchContainer::new(None);
    let scissor = r(5, 5, 50, 50);
    batcher.build(&mut containers, &mut merged, r(0, 0, 100, 100), Some(scissor));
    assert!(merged.is_empty());
    assert_eq!(containers.len(), 1);
    assert_eq!(containers[0].task_scissor_rect, Some(scissor));
    assert_eq!(containers[0].task_rect, r(0, 0, 100, 100));
}

#[test]
fn container_merge_combines_compatible_batches_in_order() {
    // Two builders emit into separate lists; the container merges opaque
    // batches into the first compatible entry and keeps alpha order.
    let mut merged = AlphaBatchContainer::new(None);
    for n in 0..2 {
        let mut batcher = AlphaBatchBuilder::new(1000, 1000, false, 10, RenderTaskId(n), 0);
        let k = BatchKey::new(
            BatchKind::Brush(BrushBatchKind::Solid),
            BlendMode::NoBlend,
            BatchTextures::empty(),
        );
        let instance = PrimitiveInstanceData::Brush(BrushInstance {
            prim_header_index: PrimitiveHeaderIndex(n as i32),
            clip_task_address: 0,
            segment_index: 0,
            edge_flags: EdgeAaSegmentMask::empty(),
            brush_flags: BrushFlags::empty(),
            resource_address: 0,
        });
        batcher.push_single_instance(
            k,
            BatchFeatures::empty(),
            &r(0, 0, 5, 5),
            ZBufferId(0),
            instance,
        );
        let mut containers: Vec<AlphaBatchContainer> = Vec::new();
        batcher.build(&mut containers, &mut merged, r(0, 0, 100, 100), None);
    }
    assert_eq!(merged.opaque_batches.len(), 1);
    assert_eq!(merged.opaque_batches[0].instances.len(), 2);
}

#[test]
fn container_merge_keeps_alpha_batches_in_submission_order() {
    // Two builders each emit one alpha batch; the second builder's batch
    // has the same key, so the ordered merge folds it into the first.
    let mut merged = AlphaBatchContainer::new(None);
    let k = BatchKey::new(
        BatchKind::Brush(BrushBatchKind::Solid),
        BlendMode::PremultipliedAlpha,
        BatchTextures::empty(),
    );
    for n in 0..2 {
        let mut batcher = AlphaBatchBuilder::new(1000, 1000, false, 10, RenderTaskId(n), 0);
        let instance = PrimitiveInstanceData::Brush(BrushInstance {
            prim_header_index: PrimitiveHeaderIndex(n as i32),
            clip_task_address: 0,
            segment_index: 0,
            edge_flags: EdgeAaSegmentMask::empty(),
            brush_flags: BrushFlags::empty(),
            resource_address: 0,
        });
        batcher.push_single_instance(
            k,
            BatchFeatures::empty(),
            &r(0, 0, 5, 5),
            ZBufferId(0),
            instance,
        );
        let mut containers: Vec<AlphaBatchContainer> = Vec::new();
        batcher.build(&mut containers, &mut merged, r(0, 0, 100, 100), None);
    }
    assert_eq!(merged.alpha_batches.len(), 1);
    assert_eq!(merged.alpha_batches[0].instances.len(), 2);
    // The earlier builder's instance stays first.
    match merged.alpha_batches[0].instances[0] {
        PrimitiveInstanceData::Brush(b) => assert_eq!(b.prim_header_index, PrimitiveHeaderIndex(0)),
        _ => panic!("a brush instance was pushed"),
    }
}

fn brush_of(inst: &PrimitiveInstanceData) -> BrushInstance {
    match inst {
        PrimitiveInstanceData::Brush(b) => *b,
        _ => panic!("a brush record was expected"),
    }
}

#[test]
fn instanced_fan_out_emits_each_segment_with_its_own_data() {
    let segs = vec![
        BrushSegment {
            edge_flags: EdgeAaSegmentMask::from_bits(EDGE_AA_LEFT),
            brush_flags: BrushFlags::empty(),
        },
        BrushSegment {
            edge_flags: EdgeAaSegmentMask::from_bits(EDGE_AA_TOP),
            brush_flags: BrushFlags::empty(),
        },
    ];
    let data = vec![
        SegmentInstanceData { textures: TextureSet::untextured(), specific_resource_address: 10 },
        SegmentInstanceData { textures: TextureSet::untextured(), specific_resource_address: 11 },
    ];
    let params = BrushBatchParameters::instanced(
        BrushBatchKind::Solid,
        ImageBrushData {
            color_mode: ShaderColorMode::Image,
            alpha_type: AlphaType::PremultipliedAlpha,
            raster_space: RasterizationSpace::Local,
            opacity: 65536,
        }
        .encode(),
        data,
    );
    let ctx = context();
    let tasks = RenderTaskGraph { tasks: Vec::new() };
    let mut b = builder();
    b.add_segmented_prim_to_batch(
        Some(&segs),
        true,
        &params,
        BlendMode::PremultipliedAlpha,
        BatchFeatures::empty(),
        BrushFlags::empty(),
        EdgeAaSegmentMask::all(),
        PrimitiveHeaderIndex(7),
        &r(0, 0, 10, 10),
        TransformedRectKind::AxisAligned,
        ZBufferId(0),
        ClipTaskIndex::At(0),
        &ctx,
        &tasks,
    );
    // An opaque primitive with no mask, axis-aligned and without forced
    // antialiasing draws without blending: both records join one opaque
    // batch, in segment order, each with its own index and address.
    assert_eq!(b.batcher.opaque_batch_list.batches.len(), 1);
    let batch = &b.batcher.opaque_batch_list.batches[0];
    assert_eq!(batch.key.blend_mode, BlendMode::NoBlend);
    assert_eq!(batch.instances.len(), 2);
    let first = brush_of(&batch.instances[0]);
    let second = brush_of(&batch.instances[1]);
    assert_eq!(first.segment_index, 0);
    assert_eq!(second.segment_index, 1);
    assert_eq!(first.resource_address, 10);
    assert_eq!(second.resource_address, 11);
    assert_eq!(first.edge_flags, EdgeAaSegmentMask::from_bits(EDGE_AA_LEFT));
    assert_eq!(second.edge_flags, EdgeAaSegmentMask::from_bits(EDGE_AA_TOP));
    assert_eq!(first.prim_header_index, PrimitiveHeaderIndex(7));
}

#[test]
fn masked_segment_blends_while_unmasked_opaque_segment_does_not() {
    // Slot 0 carries no mask; with an opaque primitive the segment draws
    // unblended. A translucent primitive must blend instead.
    let seg =
        BrushSegment { edge_flags: EdgeAaSegmentMask::all(), brush_flags: BrushFlags::empty() };
    let data =
        SegmentInstanceData { textures: TextureSet::untextured(), specific_resource_address: 0 };
    let ctx = context();
    let tasks = RenderTaskGraph { tasks: Vec::new() };
    for (opaque, expected) in [(true, BlendMode::NoBlend), (false, BlendMode::PremultipliedAlpha)]
    {
        let mut b = builder();
        b.add_segment_to_batch(
            &seg,
            &data,
            0,
            BrushBatchKind::Solid,
            PrimitiveHeaderIndex(0),
            BlendMode::PremultipliedAlpha,
            BatchFeatures::empty(),
            BrushFlags::empty(),
            EdgeAaSegmentMask::all(),
            &r(0, 0, 10, 10),
            TransformedRectKind::AxisAligned,
            ZBufferId(0),
            opaque,
            ClipTaskIndex::At(0),
            &ctx,
            &tasks,
        );
        let (opaque_total, alpha_total) = (
            b.batcher.opaque_batch_list.batches.len(),
            b.batcher.alpha_batch_list.batches.len(),
        );
        match expected {
            BlendMode::NoBlend => assert_eq!((opaque_total, alpha_total), (1, 0)),
            _ => assert_eq!((opaque_total, alpha_total), (0, 1)),
        }
    }
}

#[test]
fn fully_clipped_segment_leaves_the_batcher_untouched() {
    let seg =
        BrushSegment { edge_flags: EdgeAaSegmentMask::all(), brush_flags: BrushFlags::empty() };
    let data =
        SegmentInstanceData { textures: TextureSet::untextured(), specific_resource_address: 0 };
    let ctx = context();
    let tasks = RenderTaskGraph { tasks: Vec::new() };
    let mut b = builder();
    // Slot 2 of the test context is Clipped.
    b.add_segment_to_batch(
        &seg,
        &data,
        2,
        BrushBatchKind::Solid,
        PrimitiveHeaderIndex(0),
        BlendMode::PremultipliedAlpha,
        BatchFeatures::empty(),
        BrushFlags::empty(),
        EdgeAaSegmentMask::all(),
        &r(0, 0, 10, 10),
        TransformedRectKind::AxisAligned,
        ZBufferId(0),
        false,
        ClipTaskIndex::At(0),
        &ctx,
        &tasks,
    );
    assert_eq!(b.batcher.opaque_batch_list.batches.len(), 0);
    assert_eq!(b.batcher.alpha_batch_list.batches.len(), 0);
}
