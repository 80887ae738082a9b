use batching::builder::{AlphaBatchBuilder, BatchBuilder};
use batching::context::BrushSegment;
use batching::key::BrushFlags;
use batching::context::{
    ClipMaskKind, ClipTaskIndex, GpuCache, GpuCacheHandle, RenderTargetContext, RenderTask,
    RenderTaskGraph, SpatialTree, TransformPalette,
};
use batching::geom::Rect;
use batching::gpu::{PrimitiveHeaders, TransformPaletteId, TransformedRectKind};
use batching::key::{
    BatchKind, BlendMode, BrushBatchKind, ColorDepth, ColorRange, EdgeAaSegmentMask, GlyphFormat,
    MixBlendMode, PatternKind, RenderTaskId, YuvColorSpace, YuvFormat, ZBufferIdGenerator,
};
use batching::prim::{
    CompositorSurfaceKind, FetchedGlyph, Filter, GlyphGroup, Picture3DContext,
    PictureCompositeMode, PictureInfo, PrimCommonData, PrimitiveCommand, PrimitiveInstance,
    PrimitiveInstanceKind, PrimitiveVisibility, SegmentInstanceIndex, SegmentStore,
    VisibilityState, VisibleGradientTile, VisibleImageTile,
};
use batching::texture::CacheTextureId;

fn r(min_x: i32, min_y: i32, max_x: i32, max_y: i32) -> Rect {
    Rect::new(min_x, min_y, max_x, max_y)
}

fn builder() -> BatchBuilder {
    BatchBuilder::new(AlphaBatchBuilder::new(1000, 1000, false, 10, RenderTaskId(0), 0))
}

fn context() -> RenderTargetContext {
    RenderTargetContext {
        break_advanced_blend_batches: false,
        use_advanced_blending: false,
        use_dual_source_blending: true,
        clip_mask_instances: vec![ClipMaskKind::NoMask; 8],
        spatial_tree: SpatialTree { transform_kinds: vec![TransformedRectKind::AxisAligned] },
        default_image_handle: GpuCacheHandle { address: Some(1) },
        default_black_rect_handle: GpuCacheHandle { address: Some(2) },
    }
}

fn tasks(n: u32) -> RenderTaskGraph {
    let mut v = Vec::new();
    for i in 0..n {
        v.push(RenderTask {
            has_output: true,
            uv_rect_address: 100 + i as i32,
            target_texture: CacheTextureId(i as u64),
            has_mask_sub_pass: false,
        });
    }
    RenderTaskGraph { tasks: v }
}

fn common() -> PrimCommonData {
    PrimCommonData {
        is_opaque: false,
        gpu_cache_handle: GpuCacheHandle { address: Some(3) },
        edge_aa_mask: EdgeAaSegmentMask::all(),
        may_need_repetition: false,
        has_anti_aliasing: false,
    }
}

fn prim(kind: PrimitiveInstanceKind) -> PrimitiveInstance {
    PrimitiveInstance {
        kind,
        local_rect: r(0, 0, 10, 10),
        common: common(),
        vis: PrimitiveVisibility {
            state: VisibilityState::Visible { vis_flags: 0 },
            clip_task_index: ClipTaskIndex::Invalid,
            pic_coverage_rect: r(0, 0, 10, 10),
            local_clip_rect: r(0, 0, 10, 10),
        },
    }
}

fn total(b: &BatchBuilder) -> usize {
    let alpha: usize = b.batcher.alpha_batch_list.batches.iter().map(|x| x.instances.len()).sum();
    let opaque: usize =
        b.batcher.opaque_batch_list.batches.iter().map(|x| x.instances.len()).sum();
    alpha + opaque
}

fn run(b: &mut BatchBuilder, cmd: &PrimitiveCommand, tg: &RenderTaskGraph, p: PrimitiveInstance) {
    let ctx = context();
    let prims = vec![p];
    let store = SegmentStore { segment_instances: Vec::new(), segments: Vec::new() };
    let mut gpu_cache = GpuCache::new();
    let mut headers = PrimitiveHeaders::new();
    let mut transforms = TransformPalette::new();
    let mut z = ZBufferIdGenerator::new();
    let segments: Vec<RenderTaskId> = Vec::new();
    b.add_prim_to_batch(
        cmd,
        0,
        &ctx,
        &mut gpu_cache,
        tg,
        &mut headers,
        &mut transforms,
        &mut z,
        &prims,
        &store,
        &segments,
    );
}

fn simple() -> PrimitiveCommand {
    PrimitiveCommand::Simple { prim_instance_index: 0 }
}

#[test]
fn text_run_emits_one_instance_per_glyph_grouped_by_texture() {
    let glyphs_a = vec![
        FetchedGlyph { index_in_text_run: 0, uv_rect_address: 10 },
        FetchedGlyph { index_in_text_run: 1, uv_rect_address: 11 },
    ];
    let glyphs_b = vec![FetchedGlyph { index_in_text_run: 2, uv_rect_address: 12 }];
    let kind = PrimitiveInstanceKind::TextRun {
        glyph_groups: vec![
            GlyphGroup {
                texture_id: batching::texture::TextureSource::TextureCache(
                    CacheTextureId(1),
                    batching::texture::Swizzle::Rgba8,
                ),
                glyph_format: GlyphFormat::Alpha,
                glyphs: glyphs_a,
            },
            GlyphGroup {
                texture_id: batching::texture::TextureSource::TextureCache(
                    CacheTextureId(2),
                    batching::texture::Swizzle::Rgba8,
                ),
                glyph_format: GlyphFormat::Subpixel,
                glyphs: glyphs_b,
            },
        ],
        shadow: false,
        raster_scale_fixed: 65536,
    };
    let mut b = builder();
    run(&mut b, &simple(), &tasks(0), prim(kind));
    assert_eq!(total(&b), 3);
    // Different textures and blend modes make two alpha batches.
    assert_eq!(b.batcher.alpha_batch_list.batches.len(), 2);
    assert_eq!(
        b.batcher.alpha_batch_list.batches[0].key.kind,
        BatchKind::TextRun(GlyphFormat::Alpha)
    );
    assert_eq!(
        b.batcher.alpha_batch_list.batches[1].key.blend_mode,
        BlendMode::SubpixelDualSource
    );
}

#[test]
fn yuv_image_resolves_every_plane_into_one_batch() {
    let kind = PrimitiveInstanceKind::YuvImage {
        format: YuvFormat::PlanarYCbCr,
        color_depth: ColorDepth::Color8,
        color_space: YuvColorSpace::Rec709,
        color_range: ColorRange::Limited,
        src_yuv0: RenderTaskId(0),
        src_yuv1: RenderTaskId(1),
        src_yuv2: RenderTaskId(2),
        segment_instance_index: SegmentInstanceIndex::Unused,
        compositor_surface_kind: CompositorSurfaceKind::Blit,
    };
    let mut b = builder();
    run(&mut b, &simple(), &tasks(3), prim(kind));
    assert_eq!(total(&b), 1);
    let key = &b.batcher.alpha_batch_list.batches[0].key;
    match key.kind {
        BatchKind::Brush(BrushBatchKind::YuvImage(_, format, ..)) => {
            assert_eq!(format, YuvFormat::PlanarYCbCr);
        }
        _ => panic!("yuv primitives batch under the yuv brush kind"),
    }
}

#[test]
fn yuv_image_with_an_unresolved_plane_is_skipped() {
    let mut tg = tasks(3);
    tg.tasks[1].has_output = false;
    let kind = PrimitiveInstanceKind::YuvImage {
        format: YuvFormat::NV12,
        color_depth: ColorDepth::Color8,
        color_space: YuvColorSpace::Rec601,
        color_range: ColorRange::Full,
        src_yuv0: RenderTaskId(0),
        src_yuv1: RenderTaskId(1),
        src_yuv2: RenderTaskId(2),
        segment_instance_index: SegmentInstanceIndex::Unused,
        compositor_surface_kind: CompositorSurfaceKind::Blit,
    };
    let mut b = builder();
    run(&mut b, &simple(), &tg, prim(kind));
    assert_eq!(total(&b), 0);
}

#[test]
fn underlay_compositor_surface_batches_an_alpha_cutout() {
    let kind = PrimitiveInstanceKind::YuvImage {
        format: YuvFormat::NV12,
        color_depth: ColorDepth::Color8,
        color_space: YuvColorSpace::Rec601,
        color_range: ColorRange::Full,
        src_yuv0: RenderTaskId(0),
        src_yuv1: RenderTaskId(1),
        src_yuv2: RenderTaskId(2),
        segment_instance_index: SegmentInstanceIndex::Unused,
        compositor_surface_kind: CompositorSurfaceKind::Underlay,
    };
    let mut b = builder();
    run(&mut b, &simple(), &tasks(3), prim(kind));
    assert_eq!(total(&b), 1);
    let key = &b.batcher.alpha_batch_list.batches[0].key;
    assert_eq!(key.blend_mode, BlendMode::PremultipliedDestOut);
    assert_eq!(key.kind, BatchKind::Brush(BrushBatchKind::Solid));
}

#[test]
fn tiled_image_emits_one_instance_per_visible_tile() {
    let tiles = vec![
        VisibleImageTile {
            src_color: RenderTaskId(0),
            edge_flags: EdgeAaSegmentMask::all(),
            local_rect: r(0, 0, 5, 5),
            local_clip_rect: r(0, 0, 5, 5),
        },
        VisibleImageTile {
            src_color: RenderTaskId(1),
            edge_flags: EdgeAaSegmentMask::empty(),
            local_rect: r(5, 0, 10, 5),
            local_clip_rect: r(5, 0, 10, 5),
        },
    ];
    let kind = PrimitiveInstanceKind::Image {
        src_color: RenderTaskId(0),
        premultiplied: true,
        segment_instance_index: SegmentInstanceIndex::Unused,
        visible_tiles: tiles,
        normalized_uvs: false,
        compositor_surface_kind: CompositorSurfaceKind::Blit,
    };
    let mut b = builder();
    run(&mut b, &simple(), &tasks(2), prim(kind));
    assert_eq!(total(&b), 2);
}

#[test]
fn whole_image_with_no_output_is_skipped() {
    let mut tg = tasks(1);
    tg.tasks[0].has_output = false;
    let kind = PrimitiveInstanceKind::Image {
        src_color: RenderTaskId(0),
        premultiplied: true,
        segment_instance_index: SegmentInstanceIndex::Unused,
        visible_tiles: Vec::new(),
        normalized_uvs: false,
        compositor_surface_kind: CompositorSurfaceKind::Blit,
    };
    let mut b = builder();
    run(&mut b, &simple(), &tg, prim(kind));
    assert_eq!(total(&b), 0);
}

#[test]
fn non_premultiplied_image_blends_with_plain_alpha() {
    let kind = PrimitiveInstanceKind::Image {
        src_color: RenderTaskId(0),
        premultiplied: false,
        segment_instance_index: SegmentInstanceIndex::Unused,
        visible_tiles: Vec::new(),
        normalized_uvs: false,
        compositor_surface_kind: CompositorSurfaceKind::Blit,
    };
    let mut b = builder();
    run(&mut b, &simple(), &tasks(1), prim(kind));
    assert_eq!(total(&b), 1);
    assert_eq!(b.batcher.alpha_batch_list.batches[0].key.blend_mode, BlendMode::Alpha);
}

#[test]
fn tiled_linear_gradient_emits_one_instance_per_tile() {
    let tiles = vec![
        VisibleGradientTile {
            handle: GpuCacheHandle { address: Some(20) },
            local_rect: r(0, 0, 5, 10),
            local_clip_rect: r(0, 0, 5, 10),
        },
        VisibleGradientTile {
            handle: GpuCacheHandle { address: Some(21) },
            local_rect: r(5, 0, 10, 10),
            local_clip_rect: r(5, 0, 10, 10),
        },
        VisibleGradientTile {
            handle: GpuCacheHandle { address: Some(22) },
            local_rect: r(10, 0, 15, 10),
            local_clip_rect: r(10, 0, 15, 10),
        },
    ];
    let kind = PrimitiveInstanceKind::LinearGradient {
        gpu_cache_handle: GpuCacheHandle { address: Some(5) },
        extra_gpu_address_required: true,
        visible_tiles: tiles,
        brush_segments: Vec::new(),
    };
    let cmd = PrimitiveCommand::Complex { prim_instance_index: 0, gpu_address: 77 };
    let mut b = builder();
    run(&mut b, &cmd, &tasks(0), prim(kind));
    assert_eq!(total(&b), 3);
    assert_eq!(
        b.batcher.alpha_batch_list.batches[0].key.kind,
        BatchKind::Brush(BrushBatchKind::LinearGradient)
    );
}

#[test]
fn cached_gradient_falls_back_to_nothing_when_its_task_is_empty() {
    let mut tg = tasks(1);
    tg.tasks[0].has_output = false;
    let kind = PrimitiveInstanceKind::RadialGradient {
        src_color: RenderTaskId(0),
        visible_tiles: Vec::new(),
        brush_segments: Vec::new(),
    };
    let mut b = builder();
    run(&mut b, &simple(), &tg, prim(kind));
    assert_eq!(total(&b), 0);
}

#[test]
fn image_border_emits_per_segment() {
    let seg =
        BrushSegment { edge_flags: EdgeAaSegmentMask::all(), brush_flags: BrushFlags::empty() };
    let kind = PrimitiveInstanceKind::ImageBorder {
        src_color: RenderTaskId(0),
        brush_segments: vec![seg, seg, seg, seg],
    };
    let mut b = builder();
    run(&mut b, &simple(), &tasks(1), prim(kind));
    assert_eq!(total(&b), 4);
}

#[test]
fn normal_border_zips_segments_with_their_edge_tasks() {
    let seg =
        BrushSegment { edge_flags: EdgeAaSegmentMask::all(), brush_flags: BrushFlags::empty() };
    let kind = PrimitiveInstanceKind::NormalBorder {
        border_task_ids: vec![RenderTaskId(0), RenderTaskId(1)],
        brush_segments: vec![seg, seg],
    };
    let mut b = builder();
    run(&mut b, &simple(), &tasks(2), prim(kind));
    assert_eq!(total(&b), 2);
}

#[test]
fn clear_primitive_knocks_a_hole_with_dest_out_blending() {
    let mut b = builder();
    run(&mut b, &simple(), &tasks(0), prim(PrimitiveInstanceKind::Clear));
    assert_eq!(total(&b), 1);
    assert_eq!(
        b.batcher.alpha_batch_list.batches[0].key.blend_mode,
        BlendMode::PremultipliedDestOut
    );
}

#[test]
fn line_decoration_without_a_task_is_a_solid_brush() {
    let mut b = builder();
    run(
        &mut b,
        &simple(),
        &tasks(0),
        prim(PrimitiveInstanceKind::LineDecoration { render_task: None }),
    );
    assert_eq!(total(&b), 1);
    assert_eq!(
        b.batcher.alpha_batch_list.batches[0].key.kind,
        BatchKind::Brush(BrushBatchKind::Solid)
    );
}

fn picture(mode: PictureCompositeMode) -> PrimitiveInstance {
    prim(PrimitiveInstanceKind::Picture {
        picture: PictureInfo {
            composite_mode: Some(mode),
            context_3d: Picture3DContext::Out,
            primary_render_task_id: Some(RenderTaskId(0)),
            secondary_render_task_id: Some(RenderTaskId(1)),
            surface_is_opaque: false,
            snapshot_detached: false,
        },
    })
}

#[test]
fn blurred_picture_draws_its_intermediate_surface() {
    let mut b = builder();
    run(&mut b, &simple(), &tasks(2), picture(PictureCompositeMode::Filter(Filter::Blur)));
    assert_eq!(total(&b), 1);
    assert_eq!(
        b.batcher.alpha_batch_list.batches[0].key.blend_mode,
        BlendMode::PremultipliedAlpha
    );
}

#[test]
fn drop_shadows_draw_each_shadow_then_the_content() {
    let shadows = vec![
        GpuCacheHandle { address: Some(30) },
        GpuCacheHandle { address: Some(31) },
    ];
    let mut b = builder();
    run(
        &mut b,
        &simple(),
        &tasks(2),
        picture(PictureCompositeMode::Filter(Filter::DropShadows(shadows))),
    );
    assert_eq!(total(&b), 3);
}

#[test]
fn mix_blend_multiply_uses_the_readback_path_without_dual_source() {
    let mut b = BatchBuilder::new(AlphaBatchBuilder::new(
        1000,
        1000,
        false,
        10,
        RenderTaskId(7),
        0,
    ));
    let ctx = RenderTargetContext { use_dual_source_blending: false, ..context() };
    let prims = vec![picture(PictureCompositeMode::MixBlend(MixBlendMode::Multiply))];
    let store = SegmentStore { segment_instances: Vec::new(), segments: Vec::new() };
    let tg = tasks(2);
    let mut gpu_cache = GpuCache::new();
    let mut headers = PrimitiveHeaders::new();
    let mut transforms = TransformPalette::new();
    let mut z = ZBufferIdGenerator::new();
    let segments: Vec<RenderTaskId> = Vec::new();
    b.add_prim_to_batch(
        &simple(),
        0,
        &ctx,
        &mut gpu_cache,
        &tg,
        &mut headers,
        &mut transforms,
        &mut z,
        &prims,
        &store,
        &segments,
    );
    assert_eq!(total(&b), 1);
    match b.batcher.alpha_batch_list.batches[0].key.kind {
        BatchKind::Brush(BrushBatchKind::MixBlend { task_id, backdrop_id }) => {
            assert_eq!(task_id, RenderTaskId(7));
            assert_eq!(backdrop_id, RenderTaskId(1));
        }
        _ => panic!("the readback path batches under the mix-blend brush kind"),
    }
}

#[test]
fn mix_blend_screen_blends_directly() {
    let mut b = builder();
    run(&mut b, &simple(), &tasks(2), picture(PictureCompositeMode::MixBlend(MixBlendMode::Screen)));
    assert_eq!(total(&b), 1);
    assert_eq!(b.batcher.alpha_batch_list.batches[0].key.blend_mode, BlendMode::Screen);
}

#[test]
fn tile_cache_pictures_are_not_batched_here() {
    let mut b = builder();
    run(&mut b, &simple(), &tasks(2), picture(PictureCompositeMode::TileCache));
    assert_eq!(total(&b), 0);
}

#[test]
fn detached_snapshot_pictures_emit_nothing() {
    let mut p = picture(PictureCompositeMode::Filter(Filter::Blur));
    if let PrimitiveInstanceKind::Picture { picture } = &mut p.kind {
        picture.snapshot_detached = true;
    }
    let mut b = builder();
    run(&mut b, &simple(), &tasks(2), p);
    assert_eq!(total(&b), 0);
}

#[test]
fn quad_command_emits_one_instance_per_segment_task() {
    let cmd = PrimitiveCommand::Quad {
        pattern: PatternKind::ColorOrTexture,
        prim_instance_index: 0,
        gpu_buffer_address: 9,
        edge_flags: EdgeAaSegmentMask::empty(),
        transform_id: TransformPaletteId::identity(),
        src_color_task_id: RenderTaskId(0),
    };
    let ctx = context();
    let prims = vec![prim(PrimitiveInstanceKind::Clear)];
    let store = SegmentStore { segment_instances: Vec::new(), segments: Vec::new() };
    let tg = tasks(3);
    let mut gpu_cache = GpuCache::new();
    let mut headers = PrimitiveHeaders::new();
    let mut transforms = TransformPalette::new();
    let mut z = ZBufferIdGenerator::new();
    let segments = vec![RenderTaskId(1), RenderTaskId(2)];
    let mut b = builder();
    b.add_prim_to_batch(
        &cmd,
        0,
        &ctx,
        &mut gpu_cache,
        &tg,
        &mut headers,
        &mut transforms,
        &mut z,
        &prims,
        &store,
        &segments,
    );
    assert_eq!(total(&b), 2);
    assert_eq!(
        b.batcher.alpha_batch_list.batches[0].key.kind,
        BatchKind::Quad(PatternKind::ColorOrTexture)
    );
}

#[test]
fn backdrop_render_redraws_the_captured_backdrop() {
    let mut b = builder();
    run(
        &mut b,
        &simple(),
        &tasks(1),
        prim(PrimitiveInstanceKind::BackdropRender { pic_task_id: RenderTaskId(0) }),
    );
    assert_eq!(total(&b), 1);
}

#[test]
fn backdrop_capture_emits_nothing() {
    let mut b = builder();
    run(&mut b, &simple(), &tasks(0), prim(PrimitiveInstanceKind::BackdropCapture));
    assert_eq!(total(&b), 0);
}
