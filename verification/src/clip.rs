//! The clip-mask batching engine.
//!
//! A simpler sibling of the primitive batcher: it turns the clip items of
//! a clip task into rasterization instances for the mask shaders. The
//! first clip of a task may overwrite all pixels (no blending), so it goes
//! into a primary list drawn without blending; later clips multiply into
//! the mask and go into a secondary list.

use vstd::prelude::*;
use crate::context::{RenderTaskGraph, SpatialTree, TransformPalette};
use crate::geom::Rect;
use crate::gpu::TransformPaletteId;
use crate::key::RenderTaskId;
use crate::texture::TextureSource;

verus! {

/// Size in device pixels of the tiles that large clip rectangles are
/// drawn in.
pub const CLIP_RECTANGLE_TILE_SIZE: i32 = 128;

/// The minimum area of a clip mask before it is worth drawing in tiles.
pub const CLIP_RECTANGLE_AREA_THRESHOLD: i128 = 65536;

/// Whether a clip keeps the inside or the outside of its shape.
#[derive(Clone, Copy, Debug, PartialEq, Eq, Structural)]
pub enum ClipMode {
    Clip,
    ClipOut,
}

/// The shape parameters handed to the mask shader.
#[derive(Clone, Copy, Debug, PartialEq, Eq, Structural)]
pub enum ClipData {
    /// A plain rectangle of the given size.
    Uniform { width: i32, height: i32, mode: ClipMode },
    /// A rounded rectangle of the given size.
    Rounded { width: i32, height: i32, mode: ClipMode },
}

/// Fields shared by every clip-mask instance.
#[derive(Clone, Copy, Debug, PartialEq, Eq, Structural)]
pub struct ClipMaskInstanceCommon {
    pub sub_rect: Rect,
    pub task_origin_x: i32,
    pub task_origin_y: i32,
    pub screen_origin_x: i32,
    pub screen_origin_y: i32,
    /// Device pixel scale in 16.16 fixed point.
    pub device_pixel_scale: i32,
    pub clip_transform_id: TransformPaletteId,
    pub prim_transform_id: TransformPaletteId,
}

/// One rectangle or rounded-rectangle mask instance.
#[derive(Clone, Copy, Debug, PartialEq, Eq, Structural)]
pub struct ClipMaskInstanceRect {
    pub common: ClipMaskInstanceCommon,
    pub local_pos_x: i32,
    pub local_pos_y: i32,
    pub clip_data: ClipData,
}

/// One box-shadow mask instance.
#[derive(Clone, Copy, Debug, PartialEq, Eq, Structural)]
pub struct ClipMaskInstanceBoxShadow {
    pub common: ClipMaskInstanceCommon,
    pub resource_address: i32,
    pub src_rect_width: i32,
    pub src_rect_height: i32,
    pub clip_mode: i32,
    pub stretch_mode_x: i32,
    pub stretch_mode_y: i32,
    pub dest_rect: Rect,
}

/// One rasterized-mask instance applied to a primitive.
#[derive(Clone, Copy, Debug, PartialEq, Eq, Structural)]
pub struct MaskInstance {
    pub prim_address: i32,
    pub clip_address: i32,
}

/// A list of clip instances to be drawn into a target, kept per scissor
/// rectangle and per mask texture.
pub struct ClipMaskInstanceList {
    pub mask_instances_fast: Vec<MaskInstance>,
    pub mask_instances_slow: Vec<MaskInstance>,
    pub mask_instances_fast_with_scissor: Vec<(Rect, Vec<MaskInstance>)>,
    pub mask_instances_slow_with_scissor: Vec<(Rect, Vec<MaskInstance>)>,
    pub image_mask_instances: Vec<(TextureSource, Vec<MaskInstance>)>,
    pub image_mask_instances_with_scissor: Vec<(Rect, TextureSource, Vec<MaskInstance>)>,
}

impl ClipMaskInstanceList {
    pub fn new() -> (r: ClipMaskInstanceList)
        ensures
            r.mask_instances_fast@.len() == 0,
            r.mask_instances_slow@.len() == 0,
            r.mask_instances_fast_with_scissor@.len() == 0,
            r.mask_instances_slow_with_scissor@.len() == 0,
            r.image_mask_instances@.len() == 0,
            r.image_mask_instances_with_scissor@.len() == 0,
    {
        ClipMaskInstanceList {
            mask_instances_fast: Vec::new(),
            mask_instances_slow: Vec::new(),
            mask_instances_fast_with_scissor: Vec::new(),
            mask_instances_slow_with_scissor: Vec::new(),
            image_mask_instances: Vec::new(),
            image_mask_instances_with_scissor: Vec::new(),
        }
    }

    pub fn is_empty(&self) -> (r: bool)
        ensures
            r == (self.mask_instances_fast@.len() == 0 && self.mask_instances_slow@.len() == 0
                && self.mask_instances_fast_with_scissor@.len() == 0
                && self.mask_instances_slow_with_scissor@.len() == 0
                && self.image_mask_instances@.len() == 0
                && self.image_mask_instances_with_scissor@.len() == 0),
    {
        self.mask_instances_fast.is_empty() && self.mask_instances_slow.is_empty()
            && self.mask_instances_fast_with_scissor.is_empty()
            && self.mask_instances_slow_with_scissor.is_empty()
            && self.image_mask_instances.is_empty()
            && self.image_mask_instances_with_scissor.is_empty()
    }
}

/// The clip instances of one pass: filled rectangles with rounded corners
/// in the slow or fast shader variant, and box shadows grouped by their
/// mask texture.
pub struct ClipBatchList {
    pub slow_rectangles: Vec<ClipMaskInstanceRect>,
    pub fast_rectangles: Vec<ClipMaskInstanceRect>,
    pub box_shadows: Vec<(TextureSource, Vec<ClipMaskInstanceBoxShadow>)>,
}

/// Box-shadow instances over all textures of a list.
pub open spec fn box_shadow_total(s: Seq<(TextureSource, Vec<ClipMaskInstanceBoxShadow>)>) -> int
    decreases s.len(),
{
    if s.len() == 0 {
        0
    } else {
        box_shadow_total(s.drop_last()) + s.last().1@.len()
    }
}

/// All instances of a clip batch list.
pub open spec fn clip_list_total(l: ClipBatchList) -> int {
    l.slow_rectangles@.len() + l.fast_rectangles@.len() + box_shadow_total(l.box_shadows@)
}

impl ClipBatchList {
    pub fn new() -> (r: ClipBatchList)
        ensures
            r.slow_rectangles@.len() == 0,
            r.fast_rectangles@.len() == 0,
            r.box_shadows@.len() == 0,
            clip_list_total(r) == 0,
    {
        ClipBatchList {
            slow_rectangles: Vec::new(),
            fast_rectangles: Vec::new(),
            box_shadows: Vec::new(),
        }
    }

    pub fn is_empty(&self) -> (r: bool)
        ensures
            r == (self.slow_rectangles@.len() == 0 && self.fast_rectangles@.len() == 0
                && self.box_shadows@.len() == 0),
    {
        self.slow_rectangles.is_empty() && self.fast_rectangles.is_empty()
            && self.box_shadows.is_empty()
    }

    /// Append one box-shadow instance under its mask texture, keeping one
    /// entry per texture in insertion order.
    fn push_box_shadow(&mut self, texture: TextureSource, instance: ClipMaskInstanceBoxShadow)
        requires
            old(self).box_shadows@.len() < usize::MAX - 1,
        ensures
            final(self).slow_rectangles == old(self).slow_rectangles,
            final(self).fast_rectangles == old(self).fast_rectangles,
            box_shadow_total(final(self).box_shadows@) == box_shadow_total(
                old(self).box_shadows@,
            ) + 1,
            clip_list_total(*final(self)) == clip_list_total(*old(self)) + 1,
            old(self).box_shadows@.len() <= final(self).box_shadows@.len() <= old(
                self,
            ).box_shadows@.len() + 1,
    {
        let n = self.box_shadows.len();
        let ghost orig = self.box_shadows@;
        let mut i: usize = 0;
        while i < n
            invariant
                n == self.box_shadows@.len(),
                self.box_shadows@ == orig,
                0 <= i <= n,
                self.slow_rectangles == old(self).slow_rectangles,
                self.fast_rectangles == old(self).fast_rectangles,
                self.box_shadows@ == old(self).box_shadows@,
            decreases n - i,
        {
            if self.box_shadows[i].0 == texture {
                self.box_shadows[i].1.push(instance);
                proof {
                    lemma_box_shadow_total_update(
                        orig,
                        i as int,
                        self.box_shadows@[i as int],
                    );
                }
                return;
            }
            i = i + 1;
        }
        let mut group: Vec<ClipMaskInstanceBoxShadow> = Vec::new();
        group.push(instance);
        self.box_shadows.push((texture, group));
        proof {
            assert(self.box_shadows@.drop_last() =~= orig);
        }
    }
}

/// Replacing one texture group changes the total by the group difference.
proof fn lemma_box_shadow_total_update(
    s: Seq<(TextureSource, Vec<ClipMaskInstanceBoxShadow>)>,
    i: int,
    e: (TextureSource, Vec<ClipMaskInstanceBoxShadow>),
)
    requires
        0 <= i < s.len(),
    ensures
        box_shadow_total(s.update(i, e)) == box_shadow_total(s) + e.1@.len() - s[i].1@.len(),
    decreases s.len(),
{
    if i == s.len() - 1 {
        assert(s.update(i, e).drop_last() =~= s.drop_last());
    } else {
        assert(s.update(i, e).drop_last() =~= s.drop_last().update(i, e));
        lemma_box_shadow_total_update(s.drop_last(), i, e);
    }
}

/// One clip item of a clip task, as the clip store hands it out.
pub struct ClipInstance {
    pub kind: ClipItemKind,
    /// The spatial node the clip is expressed in.
    pub spatial_node_index: usize,
    /// The clip shares the primitive's coordinate system, so rectangle
    /// clips are handled by the primitive's own clip rectangle instead.
    pub same_coord_system: bool,
    /// The rounded-rectangle fast shader path applies.
    pub use_fast_path: bool,
    /// Whether the clip node's coordinate system is the root one.
    pub coord_system_is_root: bool,
    /// The clip rectangle projected to device pixels, when the transform
    /// admits a projection.
    pub world_device_rect: Option<Rect>,
}

/// The shape of one clip item. Image masks are routed through a different
/// pass and never reach this batcher.
pub enum ClipItemKind {
    Rectangle { rect: Rect, mode: ClipMode },
    RoundedRectangle { rect: Rect, mode: ClipMode },
    BoxShadow {
        render_task: Option<RenderTaskId>,
        resource_address: i32,
        src_rect_width: i32,
        src_rect_height: i32,
        clip_mode: i32,
        stretch_mode_x: i32,
        stretch_mode_y: i32,
        dest_rect: Rect,
    },
    Image,
}

/// A contiguous range of clip instances belonging to one clip task.
#[derive(Clone, Copy, Debug, PartialEq, Eq, Structural)]
pub struct ClipNodeRange {
    pub first: usize,
    pub count: usize,
}

/// The clip store, reduced to the instances the batcher walks.
pub struct ClipStore {
    pub instances: Vec<ClipInstance>,
}

/// Whether walking one clip item appends at least one instance.
pub open spec fn spec_item_added(item: ClipItemKind, same_coord_system: bool) -> bool {
    match item {
        ClipItemKind::BoxShadow { .. } => true,
        ClipItemKind::Rectangle { mode: ClipMode::ClipOut, .. } => true,
        ClipItemKind::Rectangle { mode: ClipMode::Clip, .. } => !same_coord_system,
        ClipItemKind::RoundedRectangle { .. } => true,
        ClipItemKind::Image => false,
    }
}

/// The first-clip flag after walking a prefix of the range.
pub open spec fn spec_first_after(store: ClipStore, first: int, n: int) -> bool
    decreases n,
{
    if n <= 0 {
        true
    } else {
        let inst = store.instances@[first + n - 1];
        spec_first_after(store, first, n - 1) && !spec_item_added(
            inst.kind,
            inst.same_coord_system,
        )
    }
}

/// How many tile columns cover the mask rectangle.
pub open spec fn spec_x_tiles(mask: Rect) -> int {
    ((mask.max_x as int) - (mask.min_x as int) + 127) / 128
}

/// How many tile rows cover the mask rectangle.
pub open spec fn spec_y_tiles(mask: Rect) -> int {
    ((mask.max_y as int) - (mask.min_y as int) + 127) / 128
}

/// Whether the tile at grid position (x, y) is drawn: it is skipped
/// exactly when the clip rectangle fully contains it in device space.
pub open spec fn spec_tile_drawn(mask: Rect, world: Rect, x: int, y: int) -> bool {
    let width = (mask.max_x as int) - (mask.min_x as int);
    let height = (mask.max_y as int) - (mask.min_y as int);
    let p0x = x * 128;
    let p0y = y * 128;
    let p1x = if p0x + 128 < width {
        p0x + 128
    } else {
        width
    };
    let p1y = if p0y + 128 < height {
        p0y + 128
    } else {
        height
    };
    !((world.min_x as int) <= (mask.min_x as int) + p0x && (world.min_y as int) <= (
    mask.min_y as int) + p0y && (mask.min_x as int) + p1x <= (world.max_x as int) && (
    mask.min_y as int) + p1y <= (world.max_y as int))
}

/// Drawn tiles among the first `n` columns of row `y`.
pub open spec fn spec_row_drawn(mask: Rect, world: Rect, y: int, n: int) -> int
    decreases n,
{
    if n <= 0 {
        0
    } else {
        spec_row_drawn(mask, world, y, n - 1) + if spec_tile_drawn(mask, world, n - 1, y) {
            1int
        } else {
            0int
        }
    }
}

/// Drawn tiles over the first `ny` rows of a grid `nx` columns wide.
pub open spec fn spec_tiles_drawn(mask: Rect, world: Rect, ny: int, nx: int) -> int
    decreases ny,
{
    if ny <= 0 {
        0
    } else {
        spec_tiles_drawn(mask, world, ny - 1, nx) + spec_row_drawn(mask, world, ny - 1, nx)
    }
}

/// A row draws at most one tile per column.
proof fn lemma_row_drawn_bound(mask: Rect, world: Rect, y: int, n: int)
    requires
        0 <= n,
    ensures
        0 <= spec_row_drawn(mask, world, y, n) <= n,
    decreases n,
{
    if n > 0 {
        lemma_row_drawn_bound(mask, world, y, n - 1);
    }
}

/// A grid draws at most one tile per cell.
proof fn lemma_tiles_drawn_bound(mask: Rect, world: Rect, ny: int, nx: int)
    requires
        0 <= ny,
        0 <= nx,
    ensures
        0 <= spec_tiles_drawn(mask, world, ny, nx) <= ny * nx,
    decreases ny,
{
    if ny > 0 {
        lemma_tiles_drawn_bound(mask, world, ny - 1, nx);
        lemma_row_drawn_bound(mask, world, ny - 1, nx);
        assert((ny - 1) * nx + nx == ny * nx) by (nonlinear_arith);
    }
}

/// Batcher managing draw calls into the clip mask render targets.
///
/// The first clip in each task overwrites all pixels of the clip region,
/// so it can be drawn with blending disabled; subsequent clips are drawn
/// in a second pass with multiplicative blending.
pub struct ClipBatcher {
    pub primary_clips: ClipBatchList,
    pub secondary_clips: ClipBatchList,
    pub gpu_supports_fast_clears: bool,
}

impl ClipBatcher {
    pub fn new(gpu_supports_fast_clears: bool) -> (r: ClipBatcher)
        ensures
            clip_list_total(r.primary_clips) == 0,
            clip_list_total(r.secondary_clips) == 0,
            r.gpu_supports_fast_clears == gpu_supports_fast_clears,
    {
        ClipBatcher {
            primary_clips: ClipBatchList::new(),
            secondary_clips: ClipBatchList::new(),
            gpu_supports_fast_clears,
        }
    }

    /// Record one axis-aligned clip region rectangle, always as a primary
    /// slow rectangle with identity transforms.
    pub fn add_clip_region(
        &mut self,
        local_pos_x: i32,
        local_pos_y: i32,
        sub_rect: Rect,
        clip_width: i32,
        clip_height: i32,
        task_origin_x: i32,
        task_origin_y: i32,
        screen_origin_x: i32,
        screen_origin_y: i32,
        device_pixel_scale: i32,
    )
        requires
            old(self).primary_clips.slow_rectangles@.len() < usize::MAX - 1,
        ensures
            final(self).primary_clips.slow_rectangles@ == old(
                self,
            ).primary_clips.slow_rectangles@.push(
                ClipMaskInstanceRect {
                    common: ClipMaskInstanceCommon {
                        sub_rect,
                        task_origin_x,
                        task_origin_y,
                        screen_origin_x,
                        screen_origin_y,
                        device_pixel_scale,
                        clip_transform_id: TransformPaletteId {
                            index: 0,
                            kind: crate::gpu::TransformedRectKind::AxisAligned,
                        },
                        prim_transform_id: TransformPaletteId {
                            index: 0,
                            kind: crate::gpu::TransformedRectKind::AxisAligned,
                        },
                    },
                    local_pos_x,
                    local_pos_y,
                    clip_data: ClipData::Uniform {
                        width: clip_width,
                        height: clip_height,
                        mode: ClipMode::Clip,
                    },
                },
            ),
            final(self).primary_clips.fast_rectangles == old(self).primary_clips.fast_rectangles,
            final(self).primary_clips.box_shadows == old(self).primary_clips.box_shadows,
            final(self).secondary_clips == old(self).secondary_clips,
            final(self).gpu_supports_fast_clears == old(self).gpu_supports_fast_clears,
    {
        let instance = ClipMaskInstanceRect {
            common: ClipMaskInstanceCommon {
                sub_rect,
                task_origin_x,
                task_origin_y,
                screen_origin_x,
                screen_origin_y,
                device_pixel_scale,
                clip_transform_id: TransformPaletteId::identity(),
                prim_transform_id: TransformPaletteId::identity(),
            },
            local_pos_x,
            local_pos_y,
            clip_data: ClipData::Uniform {
                width: clip_width,
                height: clip_height,
                mode: ClipMode::Clip,
            },
        };
        self.primary_clips.slow_rectangles.push(instance);
    }

    /// Append a slow rectangle to the list this clip goes to: the primary
    /// list only for the first clip of a task, and only when the GPU
    /// cannot clear fast.
    fn push_slow_rectangle(&mut self, is_first_clip: bool, instance: ClipMaskInstanceRect)
        requires
            old(self).primary_clips.slow_rectangles@.len() < usize::MAX - 1,
            old(self).secondary_clips.slow_rectangles@.len() < usize::MAX - 1,
        ensures
            final(self).gpu_supports_fast_clears == old(self).gpu_supports_fast_clears,
            is_first_clip && !old(self).gpu_supports_fast_clears ==> {
                &&& final(self).primary_clips.slow_rectangles@ == old(
                    self,
                ).primary_clips.slow_rectangles@.push(instance)
                &&& final(self).primary_clips.fast_rectangles == old(
                    self,
                ).primary_clips.fast_rectangles
                &&& final(self).primary_clips.box_shadows == old(self).primary_clips.box_shadows
                &&& final(self).secondary_clips == old(self).secondary_clips
            },
            !(is_first_clip && !old(self).gpu_supports_fast_clears) ==> {
                &&& final(self).secondary_clips.slow_rectangles@ == old(
                    self,
                ).secondary_clips.slow_rectangles@.push(instance)
                &&& final(self).secondary_clips.fast_rectangles == old(
                    self,
                ).secondary_clips.fast_rectangles
                &&& final(self).secondary_clips.box_shadows == old(
                    self,
                ).secondary_clips.box_shadows
                &&& final(self).primary_clips == old(self).primary_clips
            },
    {
        if is_first_clip && !self.gpu_supports_fast_clears {
            self.primary_clips.slow_rectangles.push(instance);
        } else {
            self.secondary_clips.slow_rectangles.push(instance);
        }
    }

    /// Append a fast-path rounded rectangle the same way.
    fn push_fast_rectangle(&mut self, is_first_clip: bool, instance: ClipMaskInstanceRect)
        requires
            old(self).primary_clips.fast_rectangles@.len() < usize::MAX - 1,
            old(self).secondary_clips.fast_rectangles@.len() < usize::MAX - 1,
        ensures
            final(self).gpu_supports_fast_clears == old(self).gpu_supports_fast_clears,
            is_first_clip && !old(self).gpu_supports_fast_clears ==> {
                &&& final(self).primary_clips.fast_rectangles@ == old(
                    self,
                ).primary_clips.fast_rectangles@.push(instance)
                &&& final(self).primary_clips.slow_rectangles == old(
                    self,
                ).primary_clips.slow_rectangles
                &&& final(self).primary_clips.box_shadows == old(self).primary_clips.box_shadows
                &&& final(self).secondary_clips == old(self).secondary_clips
            },
            !(is_first_clip && !old(self).gpu_supports_fast_clears) ==> {
                &&& final(self).secondary_clips.fast_rectangles@ == old(
                    self,
                ).secondary_clips.fast_rectangles@.push(instance)
                &&& final(self).secondary_clips.slow_rectangles == old(
                    self,
                ).secondary_clips.slow_rectangles
                &&& final(self).secondary_clips.box_shadows == old(
                    self,
                ).secondary_clips.box_shadows
                &&& final(self).primary_clips == old(self).primary_clips
            },
    {
        if is_first_clip && !self.gpu_supports_fast_clears {
            self.primary_clips.fast_rectangles.push(instance);
        } else {
            self.secondary_clips.fast_rectangles.push(instance);
        }
    }

    /// Where appropriate, draw a large clip rectangle as a series of
    /// tiles, skipping the tiles that the clip rectangle fully contains
    /// (their pixels cannot be affected). Returns whether the tiled path
    /// was taken; the caller then clears the task to one first.
    fn add_tiled_clip_mask(
        &mut self,
        mask_screen_rect: Rect,
        local_clip_rect: Rect,
        coord_system_is_root: bool,
        world_device_rect: Option<Rect>,
        common: &ClipMaskInstanceCommon,
        is_first_clip: bool,
    ) -> (r: bool)
        requires
            mask_screen_rect.wf(),
            local_clip_rect.wf(),
            (local_clip_rect.max_x as int) - (local_clip_rect.min_x as int) <= 0x7fffffff,
            (local_clip_rect.max_y as int) - (local_clip_rect.min_y as int) <= 0x7fffffff,
            old(self).primary_clips.slow_rectangles@.len() + 0x4000000000000 < usize::MAX,
            old(self).secondary_clips.slow_rectangles@.len() + 0x4000000000000 < usize::MAX,
            mask_screen_rect.spec_area() < 0x40000000,
        ensures
            r == (mask_screen_rect.spec_area() >= CLIP_RECTANGLE_AREA_THRESHOLD
                && coord_system_is_root && world_device_rect is Some),
            final(self).gpu_supports_fast_clears == old(self).gpu_supports_fast_clears,
            !r ==> *final(self) == *old(self),
            final(self).primary_clips.fast_rectangles == old(self).primary_clips.fast_rectangles,
            final(self).primary_clips.box_shadows == old(self).primary_clips.box_shadows,
            final(self).secondary_clips.fast_rectangles == old(
                self,
            ).secondary_clips.fast_rectangles,
            final(self).secondary_clips.box_shadows == old(self).secondary_clips.box_shadows,
            (r && is_first_clip && !old(self).gpu_supports_fast_clears)
                ==> final(self).primary_clips.slow_rectangles@.len()
                == old(self).primary_clips.slow_rectangles@.len() + spec_tiles_drawn(
                mask_screen_rect,
                world_device_rect->0,
                spec_y_tiles(mask_screen_rect),
                spec_x_tiles(mask_screen_rect),
            ),
            (r && !(is_first_clip && !old(self).gpu_supports_fast_clears))
                ==> final(self).secondary_clips.slow_rectangles@.len()
                == old(self).secondary_clips.slow_rectangles@.len() + spec_tiles_drawn(
                mask_screen_rect,
                world_device_rect->0,
                spec_y_tiles(mask_screen_rect),
                spec_x_tiles(mask_screen_rect),
            ),
            final(self).primary_clips.slow_rectangles@.len() >= old(
                self,
            ).primary_clips.slow_rectangles@.len(),
            final(self).secondary_clips.slow_rectangles@.len() >= old(
                self,
            ).secondary_clips.slow_rectangles@.len(),
            final(self).primary_clips.slow_rectangles@.len() <= old(
                self,
            ).primary_clips.slow_rectangles@.len() + 0x4000000000000,
            final(self).secondary_clips.slow_rectangles@.len() <= old(
                self,
            ).secondary_clips.slow_rectangles@.len() + 0x4000000000000,
            (is_first_clip && !old(self).gpu_supports_fast_clears)
                ==> final(self).secondary_clips.slow_rectangles
                == old(self).secondary_clips.slow_rectangles,
            (!(is_first_clip && !old(self).gpu_supports_fast_clears))
                ==> final(self).primary_clips.slow_rectangles
                == old(self).primary_clips.slow_rectangles,
    {
        if mask_screen_rect.area() < CLIP_RECTANGLE_AREA_THRESHOLD {
            return false;
        }
        if !coord_system_is_root {
            return false;
        }
        let world_rect = match world_device_rect {
            Some(rect) => rect,
            None => {
                return false;
            }
        };

        let width64: i64 = mask_screen_rect.max_x as i64 - mask_screen_rect.min_x as i64;
        let height64: i64 = mask_screen_rect.max_y as i64 - mask_screen_rect.min_y as i64;
        proof {
            assert((width64 as int) * (height64 as int) == mask_screen_rect.spec_area());
            assert(width64 <= 0x40000000 && height64 <= 0x40000000 && width64 >= 1 && height64
                >= 1) by (nonlinear_arith)
                requires
                    0 <= width64 as int,
                    0 <= height64 as int,
                    (width64 as int) * (height64 as int) < 0x40000000,
                    (width64 as int) * (height64 as int) >= 65536,
            ;
        }
        let width: i32 = width64 as i32;
        let height: i32 = height64 as i32;
        let x_tiles = (width + CLIP_RECTANGLE_TILE_SIZE - 1) / CLIP_RECTANGLE_TILE_SIZE;
        let y_tiles = (height + CLIP_RECTANGLE_TILE_SIZE - 1) / CLIP_RECTANGLE_TILE_SIZE;
        proof {
            assert(1 <= x_tiles <= 0x800001);
            assert(1 <= y_tiles <= 0x800001);
            assert(x_tiles == spec_x_tiles(mask_screen_rect));
            assert(y_tiles == spec_y_tiles(mask_screen_rect));
        }

        let use_fast_clears = self.gpu_supports_fast_clears;
        let target_primary = is_first_clip && !use_fast_clears;
        let clip_width = local_clip_rect.max_x - local_clip_rect.min_x;
        let clip_height = local_clip_rect.max_y - local_clip_rect.min_y;
        let ghost base_primary = self.primary_clips.slow_rectangles@.len() as int;
        let ghost base_secondary = self.secondary_clips.slow_rectangles@.len() as int;

        let mut y: i32 = 0;
        while y < y_tiles
            invariant
                0 <= y <= y_tiles,
                1 <= y_tiles <= 0x800001,
                1 <= x_tiles <= 0x800001,
                1 <= width <= 0x40000000,
                1 <= height <= 0x40000000,
                width as int == (mask_screen_rect.max_x as int) - (mask_screen_rect.min_x as int),
                height as int == (mask_screen_rect.max_y as int) - (
                mask_screen_rect.min_y as int),
                x_tiles == spec_x_tiles(mask_screen_rect),
                y_tiles == spec_y_tiles(mask_screen_rect),
                self.gpu_supports_fast_clears == old(self).gpu_supports_fast_clears,
                self.primary_clips.fast_rectangles == old(self).primary_clips.fast_rectangles,
                self.primary_clips.box_shadows == old(self).primary_clips.box_shadows,
                self.secondary_clips.fast_rectangles == old(self).secondary_clips.fast_rectangles,
                self.secondary_clips.box_shadows == old(self).secondary_clips.box_shadows,
                base_primary == old(self).primary_clips.slow_rectangles@.len(),
                base_secondary == old(self).secondary_clips.slow_rectangles@.len(),
                target_primary ==> self.primary_clips.slow_rectangles@.len() == base_primary
                    + spec_tiles_drawn(mask_screen_rect, world_rect, y as int, x_tiles as int),
                target_primary ==> self.secondary_clips.slow_rectangles == old(
                    self,
                ).secondary_clips.slow_rectangles,
                !target_primary ==> self.secondary_clips.slow_rectangles@.len() == base_secondary
                    + spec_tiles_drawn(mask_screen_rect, world_rect, y as int, x_tiles as int),
                !target_primary ==> self.primary_clips.slow_rectangles == old(
                    self,
                ).primary_clips.slow_rectangles,
                old(self).primary_clips.slow_rectangles@.len() + 0x4000000000000 < usize::MAX,
                old(self).secondary_clips.slow_rectangles@.len() + 0x4000000000000 < usize::MAX,
                target_primary == (is_first_clip && !old(self).gpu_supports_fast_clears),
            decreases y_tiles - y,
        {
            proof {
                lemma_tiles_drawn_bound(mask_screen_rect, world_rect, y as int, x_tiles as int);
                assert((y as int) * (x_tiles as int) <= 0x800001 * 0x800001)
                    by (nonlinear_arith)
                    requires
                        0 <= y as int <= 0x800001,
                        0 <= x_tiles as int <= 0x800001,
                ;
            }
            let mut x: i32 = 0;
            while x < x_tiles
                invariant
                    0 <= x <= x_tiles,
                    0 <= y < y_tiles,
                    1 <= y_tiles <= 0x800001,
                    1 <= x_tiles <= 0x800001,
                    1 <= width <= 0x40000000,
                    1 <= height <= 0x40000000,
                    width as int == (mask_screen_rect.max_x as int) - (
                    mask_screen_rect.min_x as int),
                    height as int == (mask_screen_rect.max_y as int) - (
                    mask_screen_rect.min_y as int),
                    x_tiles == spec_x_tiles(mask_screen_rect),
                    y_tiles == spec_y_tiles(mask_screen_rect),
                    mask_screen_rect.wf(),
                    self.gpu_supports_fast_clears == old(self).gpu_supports_fast_clears,
                    self.primary_clips.fast_rectangles == old(self).primary_clips.fast_rectangles,
                    self.primary_clips.box_shadows == old(self).primary_clips.box_shadows,
                    self.secondary_clips.fast_rectangles == old(
                        self,
                    ).secondary_clips.fast_rectangles,
                    self.secondary_clips.box_shadows == old(self).secondary_clips.box_shadows,
                    base_primary == old(self).primary_clips.slow_rectangles@.len(),
                    base_secondary == old(self).secondary_clips.slow_rectangles@.len(),
                    target_primary ==> self.primary_clips.slow_rectangles@.len() == base_primary
                        + spec_tiles_drawn(mask_screen_rect, world_rect, y as int,
                    x_tiles as int) + spec_row_drawn(mask_screen_rect, world_rect, y as int,
                    x as int),
                    target_primary ==> self.secondary_clips.slow_rectangles == old(
                        self,
                    ).secondary_clips.slow_rectangles,
                    !target_primary ==> self.secondary_clips.slow_rectangles@.len()
                        == base_secondary + spec_tiles_drawn(mask_screen_rect, world_rect,
                    y as int, x_tiles as int) + spec_row_drawn(mask_screen_rect, world_rect,
                    y as int, x as int),
                    !target_primary ==> self.primary_clips.slow_rectangles == old(
                        self,
                    ).primary_clips.slow_rectangles,
                    old(self).primary_clips.slow_rectangles@.len() + 0x4000000000000
                        < usize::MAX,
                    old(self).secondary_clips.slow_rectangles@.len() + 0x4000000000000
                        < usize::MAX,
                    target_primary == (is_first_clip && !old(self).gpu_supports_fast_clears),
                    0 <= spec_tiles_drawn(mask_screen_rect, world_rect, y as int, x_tiles as int)
                        <= (y as int) * (x_tiles as int),
                    (y as int) * (x_tiles as int) <= 0x800001 * 0x800001,
                decreases x_tiles - x,
            {
                proof {
                    lemma_row_drawn_bound(mask_screen_rect, world_rect, y as int, x as int);
                    assert(0 <= (x as int) * 128 && (x as int) * 128 + 128 <= (
                    x_tiles as int) * 128 && 0 <= (y as int) * 128 && (y as int) * 128 + 128 <= (
                    y_tiles as int) * 128) by (nonlinear_arith)
                        requires
                            0 <= (x as int) && (x as int) < (x_tiles as int),
                            0 <= (y as int) && (y as int) < (y_tiles as int),
                    ;
                    assert((x_tiles as int) * 128 < (width as int) + 128 && (y_tiles as int)
                        * 128 < (height as int) + 128) by (nonlinear_arith)
                        requires
                            x_tiles as int == ((width as int) + 127) / 128,
                            y_tiles as int == ((height as int) + 127) / 128,
                            1 <= width as int,
                            1 <= height as int,
                    ;
                }
                let p0_x = x * CLIP_RECTANGLE_TILE_SIZE;
                let p0_y = y * CLIP_RECTANGLE_TILE_SIZE;
                let p1_x = if p0_x + CLIP_RECTANGLE_TILE_SIZE < width {
                    p0_x + CLIP_RECTANGLE_TILE_SIZE
                } else {
                    width
                };
                let p1_y = if p0_y + CLIP_RECTANGLE_TILE_SIZE < height {
                    p0_y + CLIP_RECTANGLE_TILE_SIZE
                } else {
                    height
                };
                let normalized_sub_rect = Rect {
                    min_x: p0_x,
                    min_y: p0_y,
                    max_x: p1_x,
                    max_y: p1_y,
                };
                let world_sub_rect = Rect {
                    min_x: mask_screen_rect.min_x + p0_x,
                    min_y: mask_screen_rect.min_y + p0_y,
                    max_x: mask_screen_rect.min_x + p1_x,
                    max_y: mask_screen_rect.min_y + p1_y,
                };

                // Pixels in a tile that the clip rectangle fully contains
                // cannot be changed by it: skip such tiles.
                let contained = world_rect.min_x <= world_sub_rect.min_x && world_rect.min_y
                    <= world_sub_rect.min_y && world_sub_rect.max_x <= world_rect.max_x
                    && world_sub_rect.max_y <= world_rect.max_y;
                proof {
                    assert(contained == !spec_tile_drawn(
                        mask_screen_rect,
                        world_rect,
                        x as int,
                        y as int,
                    ));
                }
                if !contained {
                    let instance = ClipMaskInstanceRect {
                        common: ClipMaskInstanceCommon {
                            sub_rect: normalized_sub_rect,
                            ..*common
                        },
                        local_pos_x: local_clip_rect.min_x,
                        local_pos_y: local_clip_rect.min_y,
                        clip_data: ClipData::Uniform {
                            width: clip_width,
                            height: clip_height,
                            mode: ClipMode::Clip,
                        },
                    };
                    if target_primary {
                        self.primary_clips.slow_rectangles.push(instance);
                    } else {
                        self.secondary_clips.slow_rectangles.push(instance);
                    }
                }
                x = x + 1;
            }
            y = y + 1;
        }
        proof {
            lemma_tiles_drawn_bound(
                mask_screen_rect,
                world_rect,
                y_tiles as int,
                x_tiles as int,
            );
            assert((y_tiles as int) * (x_tiles as int) <= 0x800001 * 0x800001)
                by (nonlinear_arith)
                requires
                    0 <= y_tiles as int <= 0x800001,
                    0 <= x_tiles as int <= 0x800001,
            ;
        }

        true
    }
}

/// A rectangle whose size fits the instance encoding.
pub open spec fn rect_size_ok(r: Rect) -> bool {
    &&& r.wf()
    &&& (r.max_x as int) - (r.min_x as int) <= 0x7fffffff
    &&& (r.max_y as int) - (r.min_y as int) <= 0x7fffffff
}

/// Whether a clip rectangle goes down the tiled path.
pub open spec fn spec_item_tiled(inst: ClipInstance, actual_rect: Rect) -> bool {
    &&& actual_rect.spec_area() >= CLIP_RECTANGLE_AREA_THRESHOLD
    &&& inst.coord_system_is_root
    &&& inst.world_device_rect is Some
}

/// Whether one item is a rectangle clip that is drawn tiled, which lets
/// the mask be cleared to one first.
pub open spec fn spec_item_clears(inst: ClipInstance, actual_rect: Rect) -> bool {
    &&& inst.kind matches ClipItemKind::Rectangle { mode: ClipMode::Clip, .. }
    &&& !inst.same_coord_system
    &&& spec_item_tiled(inst, actual_rect)
}

/// Whether the mask can be cleared to one after walking a prefix of the
/// range: some tiled rectangle was the first clip of the task.
pub open spec fn spec_clear_after(store: ClipStore, first: int, n: int, actual_rect: Rect) -> bool
    decreases n,
{
    if n <= 0 {
        false
    } else {
        spec_clear_after(store, first, n - 1, actual_rect) || (spec_first_after(
            store,
            first,
            n - 1,
        ) && spec_item_clears(store.instances@[first + n - 1], actual_rect))
    }
}

/// How many mask instances one clip item appends: one for most shapes,
/// one per drawn tile for a tiled rectangle, none for a rectangle already
/// handled by the primitive's own coordinate system.
pub open spec fn spec_item_emission(inst: ClipInstance, actual_rect: Rect) -> int {
    match inst.kind {
        ClipItemKind::BoxShadow { .. } => 1,
        ClipItemKind::RoundedRectangle { .. } => 1,
        ClipItemKind::Rectangle { mode: ClipMode::ClipOut, .. } => 1,
        ClipItemKind::Rectangle { mode: ClipMode::Clip, .. } => {
            if inst.same_coord_system {
                0
            } else if spec_item_tiled(inst, actual_rect) {
                spec_tiles_drawn(
                    actual_rect,
                    inst.world_device_rect->0,
                    spec_y_tiles(actual_rect),
                    spec_x_tiles(actual_rect),
                )
            } else {
                1
            }
        }
        ClipItemKind::Image => 0,
    }
}

/// Mask instances the first `n` items of the range put into the primary
/// lists: an item draws primary exactly while it is the first drawn clip
/// of the task and the GPU cannot clear fast.
pub open spec fn spec_primary_emission(
    store: ClipStore,
    first: int,
    n: int,
    actual_rect: Rect,
    fast_clears: bool,
) -> int
    decreases n,
{
    if n <= 0 {
        0
    } else {
        spec_primary_emission(store, first, n - 1, actual_rect, fast_clears) + if spec_first_after(
            store,
            first,
            n - 1,
        ) && !fast_clears {
            spec_item_emission(store.instances@[first + n - 1], actual_rect)
        } else {
            0int
        }
    }
}

/// Mask instances the first `n` items put into the secondary lists: the
/// complement of the primary share.
pub open spec fn spec_secondary_emission(
    store: ClipStore,
    first: int,
    n: int,
    actual_rect: Rect,
    fast_clears: bool,
) -> int
    decreases n,
{
    if n <= 0 {
        0
    } else {
        spec_secondary_emission(store, first, n - 1, actual_rect, fast_clears) + if !(
        spec_first_after(store, first, n - 1) && !fast_clears) {
            spec_item_emission(store.instances@[first + n - 1], actual_rect)
        } else {
            0int
        }
    }
}

/// Preconditions on one clip item the walk reads.
pub open spec fn clip_item_wf(
    inst: ClipInstance,
    spatial_tree: SpatialTree,
    render_tasks: RenderTaskGraph,
) -> bool {
    &&& spatial_tree.spec_contains(inst.spatial_node_index)
    &&& match inst.kind {
        ClipItemKind::Image => false,
        ClipItemKind::BoxShadow { render_task, .. } => {
            &&& render_task matches Some(id)
            &&& render_tasks.spec_contains(render_task->0)
            &&& render_tasks.spec_location(render_task->0) is Some
        }
        ClipItemKind::Rectangle { rect, .. } => rect_size_ok(rect),
        ClipItemKind::RoundedRectangle { rect, .. } => rect_size_ok(rect),
    }
}

impl ClipBatcher {
    /// Walk the clips of one clip task, in order, and record one mask
    /// instance per drawable clip. Returns whether the task's mask can be
    /// cleared to one before drawing, which holds exactly when the first
    /// drawn clip was a tiled rectangle.
    pub fn add(
        &mut self,
        clip_node_range: ClipNodeRange,
        root_spatial_node_index: usize,
        render_tasks: &RenderTaskGraph,
        clip_store: &ClipStore,
        transforms: &mut TransformPalette,
        spatial_tree: &SpatialTree,
        actual_rect: Rect,
        surface_device_pixel_scale: i32,
        task_origin_x: i32,
        task_origin_y: i32,
        screen_origin_x: i32,
        screen_origin_y: i32,
    ) -> (clear_to_one: bool)
        requires
            clip_node_range.first + clip_node_range.count <= clip_store.instances@.len(),
            clip_node_range.count < 0x1000,
            forall|i: int|
                clip_node_range.first <= i < clip_node_range.first + clip_node_range.count
                    ==> clip_item_wf(#[trigger] clip_store.instances@[i], *spatial_tree,
                *render_tasks),
            spatial_tree.spec_contains(root_spatial_node_index),
            old(transforms).interned < 0x10000000,
            actual_rect.wf(),
            rect_size_ok(actual_rect),
            actual_rect.spec_area() < 0x40000000,
            old(self).primary_clips.slow_rectangles@.len() + (clip_node_range.count as int)
                * 0x4000000000001 < usize::MAX - 1,
            old(self).secondary_clips.slow_rectangles@.len() + (clip_node_range.count as int)
                * 0x4000000000001 < usize::MAX - 1,
            old(self).primary_clips.fast_rectangles@.len() + clip_node_range.count < usize::MAX
                - 1,
            old(self).secondary_clips.fast_rectangles@.len() + clip_node_range.count
                < usize::MAX - 1,
            old(self).primary_clips.box_shadows@.len() + clip_node_range.count < usize::MAX - 1,
            old(self).secondary_clips.box_shadows@.len() + clip_node_range.count < usize::MAX
                - 1,
        ensures
            clear_to_one == spec_clear_after(
                *clip_store,
                clip_node_range.first as int,
                clip_node_range.count as int,
                actual_rect,
            ),
            clip_list_total(final(self).primary_clips) == clip_list_total(
                old(self).primary_clips,
            ) + spec_primary_emission(
                *clip_store,
                clip_node_range.first as int,
                clip_node_range.count as int,
                actual_rect,
                old(self).gpu_supports_fast_clears,
            ),
            clip_list_total(final(self).secondary_clips) == clip_list_total(
                old(self).secondary_clips,
            ) + spec_secondary_emission(
                *clip_store,
                clip_node_range.first as int,
                clip_node_range.count as int,
                actual_rect,
                old(self).gpu_supports_fast_clears,
            ),
            final(self).gpu_supports_fast_clears == old(self).gpu_supports_fast_clears,
            final(self).primary_clips.slow_rectangles@.len() >= old(
                self,
            ).primary_clips.slow_rectangles@.len(),
            final(self).secondary_clips.slow_rectangles@.len() >= old(
                self,
            ).secondary_clips.slow_rectangles@.len(),
            final(self).primary_clips.fast_rectangles@.len() >= old(
                self,
            ).primary_clips.fast_rectangles@.len(),
            final(self).secondary_clips.fast_rectangles@.len() >= old(
                self,
            ).secondary_clips.fast_rectangles@.len(),
            box_shadow_total(final(self).primary_clips.box_shadows@) >= box_shadow_total(
                old(self).primary_clips.box_shadows@,
            ),
            box_shadow_total(final(self).secondary_clips.box_shadows@) >= box_shadow_total(
                old(self).secondary_clips.box_shadows@,
            ),
    {
        let first = clip_node_range.first;
        let count = clip_node_range.count;
        let mut is_first_clip = true;
        let mut clear_to_one = false;

        let actual_width = actual_rect.max_x - actual_rect.min_x;
        let actual_height = actual_rect.max_y - actual_rect.min_y;
        let store_len = clip_store.instances.len();

        let mut i: usize = 0;
        while i < count
            invariant
                first + count <= clip_store.instances@.len(),
                store_len == clip_store.instances@.len(),
                count < 0x1000,
                0 <= i <= count,
                is_first_clip == spec_first_after(*clip_store, first as int, i as int),
                clear_to_one == spec_clear_after(*clip_store, first as int, i as int, actual_rect),
                clip_list_total(self.primary_clips) == clip_list_total(old(self).primary_clips)
                    + spec_primary_emission(*clip_store, first as int, i as int, actual_rect,
                old(self).gpu_supports_fast_clears),
                clip_list_total(self.secondary_clips) == clip_list_total(
                    old(self).secondary_clips,
                ) + spec_secondary_emission(*clip_store, first as int, i as int, actual_rect,
                old(self).gpu_supports_fast_clears),
                forall|k: int| first <= k < first + count ==> clip_item_wf(
                    #[trigger] clip_store.instances@[k],
                    *spatial_tree,
                    *render_tasks,
                ),
                spatial_tree.spec_contains(root_spatial_node_index),
                transforms.interned <= old(transforms).interned + 2 * (i as int),
                old(transforms).interned < 0x10000000,
                actual_rect.wf(),
                rect_size_ok(actual_rect),
                actual_rect.spec_area() < 0x40000000,
                self.gpu_supports_fast_clears == old(self).gpu_supports_fast_clears,
                self.primary_clips.slow_rectangles@.len() >= old(
                    self,
                ).primary_clips.slow_rectangles@.len(),
                self.secondary_clips.slow_rectangles@.len() >= old(
                    self,
                ).secondary_clips.slow_rectangles@.len(),
                self.primary_clips.fast_rectangles@.len() >= old(
                    self,
                ).primary_clips.fast_rectangles@.len(),
                self.secondary_clips.fast_rectangles@.len() >= old(
                    self,
                ).secondary_clips.fast_rectangles@.len(),
                self.primary_clips.slow_rectangles@.len() <= old(
                    self,
                ).primary_clips.slow_rectangles@.len() + (i as int) * 0x4000000000001,
                self.secondary_clips.slow_rectangles@.len() <= old(
                    self,
                ).secondary_clips.slow_rectangles@.len() + (i as int) * 0x4000000000001,
                self.primary_clips.fast_rectangles@.len() <= old(
                    self,
                ).primary_clips.fast_rectangles@.len() + (i as int),
                self.secondary_clips.fast_rectangles@.len() <= old(
                    self,
                ).secondary_clips.fast_rectangles@.len() + (i as int),
                self.primary_clips.box_shadows@.len() <= old(
                    self,
                ).primary_clips.box_shadows@.len() + (i as int),
                self.secondary_clips.box_shadows@.len() <= old(
                    self,
                ).secondary_clips.box_shadows@.len() + (i as int),
                box_shadow_total(self.primary_clips.box_shadows@) >= box_shadow_total(
                    old(self).primary_clips.box_shadows@,
                ),
                box_shadow_total(self.secondary_clips.box_shadows@) >= box_shadow_total(
                    old(self).secondary_clips.box_shadows@,
                ),
                old(self).primary_clips.slow_rectangles@.len() + (count as int)
                    * 0x4000000000001 < usize::MAX - 1,
                old(self).secondary_clips.slow_rectangles@.len() + (count as int)
                    * 0x4000000000001 < usize::MAX - 1,
                old(self).primary_clips.fast_rectangles@.len() + count < usize::MAX - 1,
                old(self).secondary_clips.fast_rectangles@.len() + count < usize::MAX - 1,
                old(self).primary_clips.box_shadows@.len() + count < usize::MAX - 1,
                old(self).secondary_clips.box_shadows@.len() + count < usize::MAX - 1,
                actual_width as int == (actual_rect.max_x as int) - (actual_rect.min_x as int),
                actual_height as int == (actual_rect.max_y as int) - (actual_rect.min_y as int),
            decreases count - i,
        {
            proof {
                assert(((i as int) + 1) * 0x4000000000001 == (i as int) * 0x4000000000001
                    + 0x4000000000001 && ((i as int) + 1) * 0x4000000000001 <= (count as int)
                    * 0x4000000000001 && 0 <= (i as int) * 0x4000000000001) by (nonlinear_arith)
                    requires
                        0 <= i as int,
                        (i as int) + 1 <= count as int,
                ;
                assert(clip_item_wf(
                    clip_store.instances@[first + i as int],
                    *spatial_tree,
                    *render_tasks,
                ));
            }
            let inst = &clip_store.instances[first + i];
            let clip_transform_id = transforms.get_id(inst.spatial_node_index, spatial_tree);
            let prim_transform_id = transforms.get_id(root_spatial_node_index, spatial_tree);

            let common = ClipMaskInstanceCommon {
                sub_rect: Rect { min_x: 0, min_y: 0, max_x: actual_width, max_y: actual_height },
                task_origin_x,
                task_origin_y,
                screen_origin_x,
                screen_origin_y,
                device_pixel_scale: surface_device_pixel_scale,
                clip_transform_id,
                prim_transform_id,
            };

            let added_clip: bool = match &inst.kind {
                ClipItemKind::Image => {
                    proof {
                        assert(false);
                    }
                    false
                }
                ClipItemKind::BoxShadow {
                    render_task,
                    src_rect_width,
                    src_rect_height,
                    clip_mode,
                    stretch_mode_x,
                    stretch_mode_y,
                    dest_rect,
                    ..
                } => {
                    let task_id = match render_task {
                        Some(id) => *id,
                        None => {
                            proof {
                                assert(false);
                            }
                            RenderTaskId(0)
                        }
                    };
                    let loc = render_tasks.resolve_location(task_id);
                    let (uv_rect_address, texture) = match loc {
                        Some(pair) => pair,
                        None => {
                            proof {
                                assert(false);
                            }
                            (0i32, TextureSource::Invalid)
                        }
                    };
                    let instance = ClipMaskInstanceBoxShadow {
                        common,
                        resource_address: uv_rect_address,
                        src_rect_width: *src_rect_width,
                        src_rect_height: *src_rect_height,
                        clip_mode: *clip_mode,
                        stretch_mode_x: *stretch_mode_x,
                        stretch_mode_y: *stretch_mode_y,
                        dest_rect: *dest_rect,
                    };
                    if is_first_clip && !self.gpu_supports_fast_clears {
                        self.primary_clips.push_box_shadow(texture, instance);
                    } else {
                        self.secondary_clips.push_box_shadow(texture, instance);
                    }
                    true
                }
                ClipItemKind::Rectangle { rect, mode: ClipMode::ClipOut } => {
                    let instance = ClipMaskInstanceRect {
                        common,
                        local_pos_x: rect.min_x,
                        local_pos_y: rect.min_y,
                        clip_data: ClipData::Uniform {
                            width: rect.max_x - rect.min_x,
                            height: rect.max_y - rect.min_y,
                            mode: ClipMode::ClipOut,
                        },
                    };
                    self.push_slow_rectangle(is_first_clip, instance);
                    true
                }
                ClipItemKind::Rectangle { rect, mode: ClipMode::Clip } => {
                    if inst.same_coord_system {
                        false
                    } else {
                        if self.add_tiled_clip_mask(
                            actual_rect,
                            *rect,
                            inst.coord_system_is_root,
                            inst.world_device_rect,
                            &common,
                            is_first_clip,
                        ) {
                            clear_to_one = clear_to_one || is_first_clip;
                        } else {
                            let instance = ClipMaskInstanceRect {
                                common,
                                local_pos_x: rect.min_x,
                                local_pos_y: rect.min_y,
                                clip_data: ClipData::Uniform {
                                    width: rect.max_x - rect.min_x,
                                    height: rect.max_y - rect.min_y,
                                    mode: ClipMode::Clip,
                                },
                            };
                            self.push_slow_rectangle(is_first_clip, instance);
                        }
                        true
                    }
                }
                ClipItemKind::RoundedRectangle { rect, mode } => {
                    let instance = ClipMaskInstanceRect {
                        common,
                        local_pos_x: rect.min_x,
                        local_pos_y: rect.min_y,
                        clip_data: ClipData::Rounded {
                            width: rect.max_x - rect.min_x,
                            height: rect.max_y - rect.min_y,
                            mode: *mode,
                        },
                    };
                    if inst.use_fast_path {
                        self.push_fast_rectangle(is_first_clip, instance);
                    } else {
                        self.push_slow_rectangle(is_first_clip, instance);
                    }
                    true
                }
            };

            is_first_clip = is_first_clip && !added_clip;
            i = i + 1;
        }

        clear_to_one
    }
}

} // verus!
