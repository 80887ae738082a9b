//! The primitives handed to the batcher, in paint order.
//!
//! Each primitive arrives as a command naming an instance, whose kind
//! carries the data its dispatch arm reads: source render tasks, segment
//! decompositions, glyph groups, gradient tiles. The visibility pass has
//! already run; a primitive reaching the batcher is `Culled` or `Visible`.

use vstd::prelude::*;
use crate::context::{BrushSegment, ClipTaskIndex, GpuCacheHandle};
use crate::geom::Rect;
use crate::gpu::TransformPaletteId;
use crate::key::{
    ColorDepth, ColorRange, EdgeAaSegmentMask, GlyphFormat, MixBlendMode, PatternKind,
    RenderTaskId, YuvColorSpace, YuvFormat, BRUSH_NORMALIZED_UVS,
};
use crate::texture::TextureSource;

verus! {

/// The primitive is known to fully cover the render target and doubles as
/// its clear color: everything batched before it is invisible.
pub const VIS_IS_BACKDROP: u8 = 2;

/// What the visibility pass concluded for a primitive.
#[derive(Clone, Copy, Debug, PartialEq, Eq, Structural)]
pub enum VisibilityState {
    /// Never set: reaching the batcher in this state is a bug upstream.
    Unset,
    /// Fully culled; the batcher skips it without effect.
    Culled,
    /// Visible, with flags.
    Visible { vis_flags: u8 },
    /// Routed around the batcher entirely; must not reach it.
    PassThrough,
}

/// What the visibility and clipping passes recorded for a primitive.
#[derive(Clone, Copy, Debug, PartialEq, Eq, Structural)]
pub struct PrimitiveVisibility {
    pub state: VisibilityState,
    pub clip_task_index: ClipTaskIndex,
    /// Bounding rectangle in the picture space of the current surface.
    pub pic_coverage_rect: Rect,
    /// The clip rectangle in the primitive's local space.
    pub local_clip_rect: Rect,
}

/// Data shared by every primitive kind.
#[derive(Clone, Copy, Debug, PartialEq, Eq, Structural)]
pub struct PrimCommonData {
    /// Whether the primitive covers its rectangle with full opacity.
    pub is_opaque: bool,
    pub gpu_cache_handle: GpuCacheHandle,
    /// Which edges may be anti-aliased.
    pub edge_aa_mask: EdgeAaSegmentMask,
    pub may_need_repetition: bool,
    /// Anti-aliasing requested explicitly for the primitive.
    pub has_anti_aliasing: bool,
}

/// Where a per-primitive segment decomposition lives, if any.
#[derive(Clone, Copy, Debug, PartialEq, Eq, Structural)]
pub enum SegmentInstanceIndex {
    /// The field was never filled in: an upstream bug if read.
    Invalid,
    /// The primitive legitimately has no segment decomposition.
    Unused,
    /// Segments and their GPU handle are at this slot of the scratch store.
    At(usize),
}

/// One entry of the segment scratch store.
pub struct SegmentInstance {
    pub gpu_cache_handle: GpuCacheHandle,
    pub segments_start: usize,
    pub segments_len: usize,
}

/// The scratch store of segment decompositions shared by the primitives of
/// one frame.
pub struct SegmentStore {
    pub segment_instances: Vec<SegmentInstance>,
    pub segments: Vec<BrushSegment>,
}

impl SegmentStore {
    /// Every instance's range lies inside the segment buffer and has a
    /// resolved GPU handle.
    pub open spec fn wf(self) -> bool {
        &&& forall|i: int| 0 <= i < self.segment_instances@.len() ==> {
            &&& (#[trigger] self.segment_instances@[i]).segments_start
                + self.segment_instances@[i].segments_len <= self.segments@.len()
            &&& self.segment_instances@[i].gpu_cache_handle.address is Some
        }
        &&& forall|j: int| 0 <= j < self.segments@.len()
            ==> ((#[trigger] self.segments@[j]).brush_flags.bits & BRUSH_NORMALIZED_UVS) == 0
    }
}

/// A filter a composited picture runs through.
pub enum Filter {
    Blur,
    /// Opacity in 16.16 fixed point.
    Opacity(i32),
    /// One drop shadow per entry: the GPU handle of its parameters.
    DropShadows(Vec<GpuCacheHandle>),
    /// Any other color filter, pre-encoded: its shader filter mode, its
    /// user-data word, and whether it keeps an opaque source opaque.
    Generic { filter_mode: i32, user_data: i32, preserves_opacity: bool },
}

/// How a composited picture is blended into its parent.
pub enum PictureCompositeMode {
    /// Handled by the tile cache, never batched here.
    TileCache,
    /// Drawn from a different code path, never batched here.
    IntermediateSurface,
    Filter(Filter),
    MixBlend(MixBlendMode),
    Blit,
    SvgFilter,
}

/// Whether a picture takes part in a 3D rendering context.
#[derive(Clone, Copy, Debug, PartialEq, Eq, Structural)]
pub enum Picture3DContext {
    /// The root of a 3D context; it never carries a raster config.
    InRoot,
    /// A child of a 3D context, drawn by plane splitting.
    InChild,
    /// No 3D context.
    Out,
}

/// The composited-picture data the batcher reads.
pub struct PictureInfo {
    /// Present when the picture was rendered to an intermediate surface.
    pub composite_mode: Option<PictureCompositeMode>,
    pub context_3d: Picture3DContext,
    pub primary_render_task_id: Option<RenderTaskId>,
    pub secondary_render_task_id: Option<RenderTaskId>,
    /// Whether the picture's surface is known opaque.
    pub surface_is_opaque: bool,
    /// A snapshot of the picture was detached from the frame.
    pub snapshot_detached: bool,
}

/// One visible tile of a tiled image.
#[derive(Clone, Copy, Debug, PartialEq, Eq, Structural)]
pub struct VisibleImageTile {
    pub src_color: RenderTaskId,
    pub edge_flags: EdgeAaSegmentMask,
    pub local_rect: Rect,
    pub local_clip_rect: Rect,
}

/// One visible tile of a tiled gradient.
#[derive(Clone, Copy, Debug, PartialEq, Eq, Structural)]
pub struct VisibleGradientTile {
    pub handle: GpuCacheHandle,
    pub local_rect: Rect,
    pub local_clip_rect: Rect,
}

/// One glyph as rasterized for a text run.
#[derive(Clone, Copy, Debug, PartialEq, Eq, Structural)]
pub struct FetchedGlyph {
    pub index_in_text_run: i32,
    pub uv_rect_address: i32,
}

/// One texture group of rasterized glyphs, as the resource cache hands
/// them back: all glyphs of the group share one texture and format.
pub struct GlyphGroup {
    pub texture_id: TextureSource,
    pub glyph_format: GlyphFormat,
    pub glyphs: Vec<FetchedGlyph>,
}

/// Whether a primitive is promoted to a compositor surface, and how.
#[derive(Clone, Copy, Debug, PartialEq, Eq, Structural)]
pub enum CompositorSurfaceKind {
    /// Drawn under the content; an alpha cutout is batched instead.
    Underlay,
    /// Drawn over the content; nothing is batched.
    Overlay,
    /// Not promoted; batched normally.
    Blit,
}

impl CompositorSurfaceKind {
    /// True when the surface needs an alpha cutout rendered in its place.
    pub fn needs_cutout(&self) -> (r: bool)
        ensures
            r == (*self is Underlay),
    {
        match self {
            CompositorSurfaceKind::Underlay => true,
            CompositorSurfaceKind::Overlay | CompositorSurfaceKind::Blit => false,
        }
    }
}

/// The kinds of primitive the dispatch distinguishes, each carrying what
/// its arm reads.
pub enum PrimitiveInstanceKind {
    /// A composited picture.
    Picture { picture: PictureInfo },
    /// A solid rectangle on the legacy brush path.
    Rectangle { segment_instance_index: SegmentInstanceIndex },
    /// Planar YUV video, up to three planes.
    YuvImage {
        format: YuvFormat,
        color_depth: ColorDepth,
        color_space: YuvColorSpace,
        color_range: ColorRange,
        src_yuv0: RenderTaskId,
        src_yuv1: RenderTaskId,
        src_yuv2: RenderTaskId,
        segment_instance_index: SegmentInstanceIndex,
        compositor_surface_kind: CompositorSurfaceKind,
    },
    /// An image, either whole or split into visible tiles.
    Image {
        src_color: RenderTaskId,
        premultiplied: bool,
        segment_instance_index: SegmentInstanceIndex,
        visible_tiles: Vec<VisibleImageTile>,
        normalized_uvs: bool,
        compositor_surface_kind: CompositorSurfaceKind,
    },
    /// A run of glyphs, pre-grouped by texture.
    TextRun { glyph_groups: Vec<GlyphGroup>, shadow: bool, raster_scale_fixed: i32 },
    /// A line decoration, rasterized by a task unless solid.
    LineDecoration { render_task: Option<RenderTaskId> },
    /// A gradient rendered by the gradient shader directly.
    LinearGradient {
        gpu_cache_handle: GpuCacheHandle,
        extra_gpu_address_required: bool,
        visible_tiles: Vec<VisibleGradientTile>,
        brush_segments: Vec<BrushSegment>,
    },
    /// A gradient rendered into a cached texture first.
    CachedLinearGradient {
        src_color: RenderTaskId,
        visible_tiles: Vec<VisibleGradientTile>,
        brush_segments: Vec<BrushSegment>,
    },
    RadialGradient {
        src_color: RenderTaskId,
        visible_tiles: Vec<VisibleGradientTile>,
        brush_segments: Vec<BrushSegment>,
    },
    ConicGradient {
        src_color: RenderTaskId,
        visible_tiles: Vec<VisibleGradientTile>,
        brush_segments: Vec<BrushSegment>,
    },
    /// A border drawn from a cached image, with per-segment sources.
    ImageBorder { src_color: RenderTaskId, brush_segments: Vec<BrushSegment> },
    /// A border drawn from per-edge render tasks.
    NormalBorder { border_task_ids: Vec<RenderTaskId>, brush_segments: Vec<BrushSegment> },
    /// Writes transparent pixels, used to knock holes into the target.
    Clear,
    /// Always routed through the quad path; must not reach this dispatch.
    BoxShadow,
    /// Marks where a backdrop is captured; emits nothing here.
    BackdropCapture,
    /// Re-renders a captured backdrop.
    BackdropRender { pic_task_id: RenderTaskId },
}

/// One primitive in the batcher's input order.
pub struct PrimitiveInstance {
    pub kind: PrimitiveInstanceKind,
    /// The primitive's rectangle in its local space.
    pub local_rect: Rect,
    pub common: PrimCommonData,
    pub vis: PrimitiveVisibility,
}

/// One batching command, naming a primitive instance and how it arrives.
pub enum PrimitiveCommand {
    Simple { prim_instance_index: usize },
    Complex { prim_instance_index: usize, gpu_address: i32 },
    Instance { prim_instance_index: usize, gpu_buffer_address: i32 },
    /// A pattern-driven quad with an optional segment list.
    Quad {
        pattern: PatternKind,
        prim_instance_index: usize,
        gpu_buffer_address: i32,
        edge_flags: EdgeAaSegmentMask,
        transform_id: TransformPaletteId,
        src_color_task_id: RenderTaskId,
    },
}

impl PrimitiveCommand {
    /// Which primitive instance the command names.
    pub open spec fn spec_prim_index(self) -> usize {
        match self {
            PrimitiveCommand::Simple { prim_instance_index } => prim_instance_index,
            PrimitiveCommand::Complex { prim_instance_index, .. } => prim_instance_index,
            PrimitiveCommand::Instance { prim_instance_index, .. } => prim_instance_index,
            PrimitiveCommand::Quad { prim_instance_index, .. } => prim_instance_index,
        }
    }
}

} // verus!
