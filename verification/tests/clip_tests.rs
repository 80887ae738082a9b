use batching::clip::{
    ClipBatcher, ClipData, ClipInstance, ClipItemKind, ClipMaskInstanceList, ClipMode,
    ClipNodeRange, ClipStore,
};
use batching::context::{RenderTask, RenderTaskGraph, SpatialTree, TransformPalette};
use batching::geom::Rect;
use batching::gpu::TransformedRectKind;
use batching::key::RenderTaskId;
use batching::texture::CacheTextureId;

fn r(min_x: i32, min_y: i32, max_x: i32, max_y: i32) -> Rect {
    Rect::new(min_x, min_y, max_x, max_y)
}

fn rect_clip(rect: Rect, mode: ClipMode, same_coord: bool) -> ClipInstance {
    ClipInstance {
        kind: ClipItemKind::Rectangle { rect, mode },
        spatial_node_index: 0,
        same_coord_system: same_coord,
        use_fast_path: false,
        coord_system_is_root: true,
        world_device_rect: Some(rect),
    }
}

fn harness() -> (RenderTaskGraph, SpatialTree, TransformPalette) {
    (
        RenderTaskGraph {
            tasks: vec![RenderTask {
                has_output: true,
                uv_rect_address: 42,
                target_texture: CacheTextureId(9),
                has_mask_sub_pass: false,
            }],
        },
        SpatialTree { transform_kinds: vec![TransformedRectKind::AxisAligned] },
        TransformPalette::new(),
    )
}

#[test]
fn clip_mask_instance_list_starts_empty() {
    let list = ClipMaskInstanceList::new();
    assert!(list.is_empty());
}

#[test]
fn add_clip_region_records_a_primary_slow_rectangle() {
    let mut batcher = ClipBatcher::new(false);
    batcher.add_clip_region(1, 2, r(0, 0, 8, 8), 8, 8, 0, 0, 0, 0, 65536);
    assert_eq!(batcher.primary_clips.slow_rectangles.len(), 1);
    assert!(batcher.secondary_clips.is_empty());
    let inst = &batcher.primary_clips.slow_rectangles[0];
    assert_eq!(inst.local_pos_x, 1);
    assert_eq!(inst.local_pos_y, 2);
    assert_eq!(
        inst.clip_data,
        ClipData::Uniform { width: 8, height: 8, mode: ClipMode::Clip }
    );
}

#[test]
fn same_coord_rectangle_clip_is_skipped_and_first_flag_stays() {
    let (tasks, tree, mut transforms) = harness();
    let store = ClipStore {
        instances: vec![
            rect_clip(r(0, 0, 10, 10), ClipMode::Clip, true),
            rect_clip(r(0, 0, 10, 10), ClipMode::ClipOut, false),
        ],
    };
    let mut batcher = ClipBatcher::new(false);
    let clear = batcher.add(
        ClipNodeRange { first: 0, count: 2 },
        0,
        &tasks,
        &store,
        &mut transforms,
        &tree,
        r(0, 0, 100, 100),
        65536,
        0,
        0,
        0,
        0,
    );
    assert!(!clear);
    // The skipped clip leaves the ClipOut rectangle as the first drawn
    // clip, so it lands in the primary list.
    assert_eq!(batcher.primary_clips.slow_rectangles.len(), 1);
    assert_eq!(batcher.secondary_clips.slow_rectangles.len(), 0);
}

#[test]
fn first_tiled_rectangle_clip_clears_to_one() {
    let (tasks, tree, mut transforms) = harness();
    // A mask of 1000x1000 device pixels exceeds the tiling threshold.
    let mask_rect = r(0, 0, 1000, 1000);
    let store = ClipStore {
        instances: vec![rect_clip(r(0, 0, 300, 300), ClipMode::Clip, false)],
    };
    let mut batcher = ClipBatcher::new(false);
    let clear = batcher.add(
        ClipNodeRange { first: 0, count: 1 },
        0,
        &tasks,
        &store,
        &mut transforms,
        &tree,
        mask_rect,
        65536,
        0,
        0,
        0,
        0,
    );
    assert!(clear, "a first tiled rectangle lets the mask clear to one");
    // 8x8 tiles of 128 pixels cover 1000x1000; the clip rectangle fully
    // contains the four tiles in its top-left 256x256 corner, whose
    // pixels it cannot affect, so 60 tiles are drawn.
    assert_eq!(batcher.primary_clips.slow_rectangles.len(), 60);
}

#[test]
fn second_clip_goes_to_the_secondary_list() {
    let (tasks, tree, mut transforms) = harness();
    let store = ClipStore {
        instances: vec![
            rect_clip(r(0, 0, 10, 10), ClipMode::ClipOut, false),
            rect_clip(r(2, 2, 8, 8), ClipMode::ClipOut, false),
        ],
    };
    let mut batcher = ClipBatcher::new(false);
    let clear = batcher.add(
        ClipNodeRange { first: 0, count: 2 },
        0,
        &tasks,
        &store,
        &mut transforms,
        &tree,
        r(0, 0, 100, 100),
        65536,
        0,
        0,
        0,
        0,
    );
    assert!(!clear);
    assert_eq!(batcher.primary_clips.slow_rectangles.len(), 1);
    assert_eq!(batcher.secondary_clips.slow_rectangles.len(), 1);
}

#[test]
fn box_shadow_clips_group_by_texture() {
    let (tasks, tree, mut transforms) = harness();
    let shadow = ClipInstance {
        kind: ClipItemKind::BoxShadow {
            render_task: Some(RenderTaskId(0)),
            resource_address: 0,
            src_rect_width: 16,
            src_rect_height: 16,
            clip_mode: 0,
            stretch_mode_x: 1,
            stretch_mode_y: 1,
            dest_rect: r(0, 0, 30, 30),
        },
        spatial_node_index: 0,
        same_coord_system: false,
        use_fast_path: false,
        coord_system_is_root: true,
        world_device_rect: None,
    };
    let store = ClipStore { instances: vec![shadow] };
    let mut batcher = ClipBatcher::new(false);
    batcher.add(
        ClipNodeRange { first: 0, count: 1 },
        0,
        &tasks,
        &store,
        &mut transforms,
        &tree,
        r(0, 0, 100, 100),
        65536,
        0,
        0,
        0,
        0,
    );
    assert_eq!(batcher.primary_clips.box_shadows.len(), 1);
    assert_eq!(batcher.primary_clips.box_shadows[0].1.len(), 1);
    // The instance carries the resolved UV rectangle address of the task.
    assert_eq!(batcher.primary_clips.box_shadows[0].1[0].resource_address, 42);
}

#[test]
fn rounded_rectangle_uses_the_fast_path_when_flagged() {
    let (tasks, tree, mut transforms) = harness();
    let mut rounded = rect_clip(r(0, 0, 10, 10), ClipMode::Clip, false);
    rounded.kind = ClipItemKind::RoundedRectangle { rect: r(0, 0, 10, 10), mode: ClipMode::Clip };
    rounded.use_fast_path = true;
    let store = ClipStore { instances: vec![rounded] };
    let mut batcher = ClipBatcher::new(false);
    batcher.add(
        ClipNodeRange { first: 0, count: 1 },
        0,
        &tasks,
        &store,
        &mut transforms,
        &tree,
        r(0, 0, 100, 100),
        65536,
        0,
        0,
        0,
        0,
    );
    assert_eq!(batcher.primary_clips.fast_rectangles.len(), 1);
    assert_eq!(batcher.primary_clips.slow_rectangles.len(), 0);
}
