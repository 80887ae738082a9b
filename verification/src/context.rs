//! Models of the read-only collaborators the batcher queries.
//!
//! The batcher never owns these: the spatial tree answers transform
//! classification, the GPU cache hands out addresses for pre-uploaded data
//! blocks, the render task graph resolves intermediate-surface outputs, and
//! the clip scratch buffer records the clip-mask outcome per primitive
//! segment. Each is held here as plain data with exact query contracts.

use vstd::prelude::*;
use crate::gpu::{TransformPaletteId, TransformedRectKind, OPAQUE_TASK_ADDRESS};
use crate::key::{BrushFlags, EdgeAaSegmentMask, RenderTaskId};
use crate::texture::{CacheTextureId, Swizzle, TextureSource};

verus! {

/// Position of a primitive's clip-task records in the clip scratch buffer,
/// or the explicit "no clip task" state.
#[derive(Clone, Copy, Debug, PartialEq, Eq, Structural)]
pub enum ClipTaskIndex {
    /// The primitive has no clip task at all.
    Invalid,
    /// Records for the primitive's segments start at this offset.
    At(usize),
}

impl ClipTaskIndex {
    /// The scratch-buffer offset of a primitive's first clip record.
    pub open spec fn base_of(self) -> int {
        match self {
            ClipTaskIndex::At(base) => base as int,
            ClipTaskIndex::Invalid => 0,
        }
    }
}

/// The clip-mask outcome recorded for one primitive segment.
#[derive(Clone, Copy, Debug, PartialEq, Eq, Structural)]
pub enum ClipMaskKind {
    /// A mask was rasterized by this render task.
    Mask(RenderTaskId),
    /// No mask is needed; the shader sees the no-op task address.
    NoMask,
    /// The segment is clipped away entirely and must not be drawn.
    Clipped,
}

/// A handle into the GPU cache; the address is present once the block has
/// been uploaded.
#[derive(Clone, Copy, Debug, PartialEq, Eq, Structural)]
pub struct GpuCacheHandle {
    pub address: Option<i32>,
}

/// The GPU cache: an address allocator for shader-readable data blocks.
/// Per-frame blocks are appended at increasing addresses.
pub struct GpuCache {
    pub next_frame_address: i32,
}

impl GpuCache {
    pub fn new() -> (r: GpuCache)
        ensures
            r.next_frame_address == 0,
    {
        GpuCache { next_frame_address: 0 }
    }

    /// The address of a pre-allocated handle; the handle must be resolved.
    pub fn get_address(&self, handle: &GpuCacheHandle) -> (r: i32)
        requires
            handle.address is Some,
        ensures
            Some(r) == handle.address,
    {
        match handle.address {
            Some(a) => a,
            None => 0,
        }
    }

    /// The address of a handle that may not have been uploaded.
    pub fn try_get_address(&self, handle: &GpuCacheHandle) -> (r: Option<i32>)
        ensures
            r == handle.address,
    {
        handle.address
    }

    /// Allocate a transient per-frame block of `blocks` words and return a
    /// resolved handle to it.
    pub fn push_per_frame_blocks(&mut self, blocks: i32) -> (r: GpuCacheHandle)
        requires
            0 <= blocks,
            old(self).next_frame_address + blocks <= i32::MAX,
        ensures
            r.address == Some(old(self).next_frame_address),
            final(self).next_frame_address == old(self).next_frame_address + blocks,
    {
        let addr = self.next_frame_address;
        self.next_frame_address = self.next_frame_address + blocks;
        GpuCacheHandle { address: Some(addr) }
    }
}

/// One node of the render task graph, as the batcher sees it: where its
/// output landed, or that it produced none.
#[derive(Clone, Copy, Debug, PartialEq, Eq, Structural)]
pub struct RenderTask {
    /// Whether the task produced visible output this frame.
    pub has_output: bool,
    /// GPU cache address of the task's UV rectangle.
    pub uv_rect_address: i32,
    /// The texture its output was written to.
    pub target_texture: CacheTextureId,
    /// Whether a mask sub-pass runs over the task's output, which forfeits
    /// opacity.
    pub has_mask_sub_pass: bool,
}

/// The render task graph, read-only during batching.
pub struct RenderTaskGraph {
    pub tasks: Vec<RenderTask>,
}

impl RenderTaskGraph {
    pub open spec fn spec_contains(self, id: RenderTaskId) -> bool {
        (id.0 as int) < self.tasks@.len()
    }

    /// What `resolve_location` answers for a task.
    pub open spec fn spec_location(self, id: RenderTaskId) -> Option<(i32, TextureSource)> {
        let task = self.tasks@[id.0 as int];
        if task.has_output {
            Some(
                (
                    task.uv_rect_address,
                    TextureSource::TextureCache(task.target_texture, Swizzle::Rgba8),
                ),
            )
        } else {
            None
        }
    }

    /// The GPU cache address and texture of a task's output; `None` means
    /// the task produced no visible output and the caller must skip the
    /// primitive.
    pub fn resolve_location(&self, id: RenderTaskId) -> (r: Option<(i32, TextureSource)>)
        requires
            self.spec_contains(id),
        ensures
            r == self.spec_location(id),
    {
        let task = self.tasks[id.0 as usize];
        if task.has_output {
            Some(
                (
                    task.uv_rect_address,
                    TextureSource::TextureCache(task.target_texture, Swizzle::Rgba8),
                ),
            )
        } else {
            None
        }
    }

    /// The texture a task renders into.
    pub fn get_target_texture(&self, id: RenderTaskId) -> (r: CacheTextureId)
        requires
            self.spec_contains(id),
        ensures
            r == self.tasks@[id.0 as int].target_texture,
    {
        self.tasks[id.0 as usize].target_texture
    }

    /// The UV rectangle address of a task's output.
    pub fn get_texture_address(&self, id: RenderTaskId) -> (r: i32)
        requires
            self.spec_contains(id),
        ensures
            r == self.tasks@[id.0 as int].uv_rect_address,
    {
        self.tasks[id.0 as usize].uv_rect_address
    }

    /// Whether a mask sub-pass runs over the task output.
    pub fn has_mask_sub_pass(&self, id: RenderTaskId) -> (r: bool)
        requires
            self.spec_contains(id),
        ensures
            r == self.tasks@[id.0 as int].has_mask_sub_pass,
    {
        self.tasks[id.0 as usize].has_mask_sub_pass
    }
}

/// The GPU address under which a render task is handed to a shader.
pub fn render_task_address(id: RenderTaskId) -> (r: u32)
    ensures
        r == id.0,
{
    id.0
}

/// The spatial tree, reduced to the one query the batcher makes: how the
/// transform from a spatial node to the root is classified.
pub struct SpatialTree {
    pub transform_kinds: Vec<TransformedRectKind>,
}

impl SpatialTree {
    pub open spec fn spec_contains(self, node: usize) -> bool {
        (node as int) < self.transform_kinds@.len()
    }

    pub fn transform_kind(&self, node: usize) -> (r: TransformedRectKind)
        requires
            self.spec_contains(node),
        ensures
            r == self.transform_kinds@[node as int],
    {
        self.transform_kinds[node]
    }
}

/// The transform palette: interns one transform entry per primitive and
/// hands back its id, carrying the spatial tree's classification.
pub struct TransformPalette {
    pub interned: u32,
}

impl TransformPalette {
    pub fn new() -> (r: TransformPalette)
        ensures
            r.interned == 0,
    {
        TransformPalette { interned: 0 }
    }

    /// The palette id for a node's transform relative to the root.
    pub fn get_id(
        &mut self,
        prim_spatial_node_index: usize,
        spatial_tree: &SpatialTree,
    ) -> (r: TransformPaletteId)
        requires
            spatial_tree.spec_contains(prim_spatial_node_index),
            old(self).interned < u32::MAX,
        ensures
            r.kind == spatial_tree.transform_kinds@[prim_spatial_node_index as int],
            r.index == old(self).interned,
            final(self).interned == old(self).interned + 1,
    {
        let id = TransformPaletteId {
            index: self.interned,
            kind: spatial_tree.transform_kind(prim_spatial_node_index),
        };
        self.interned = self.interned + 1;
        id
    }
}

/// One decomposed sub-rectangle of a primitive, with its own edge flags.
#[derive(Clone, Copy, Debug, PartialEq, Eq, Structural)]
pub struct BrushSegment {
    pub edge_flags: EdgeAaSegmentMask,
    pub brush_flags: BrushFlags,
}

/// The per-target context the batcher reads: configuration switches, the
/// spatial tree, the clip scratch buffer, and the pre-uploaded default
/// data handles.
pub struct RenderTargetContext {
    pub break_advanced_blend_batches: bool,
    pub use_advanced_blending: bool,
    pub use_dual_source_blending: bool,
    /// Clip-mask outcome per (clip task, segment offset).
    pub clip_mask_instances: Vec<ClipMaskKind>,
    pub spatial_tree: SpatialTree,
    pub default_image_handle: GpuCacheHandle,
    pub default_black_rect_handle: GpuCacheHandle,
}

impl RenderTargetContext {
    /// Every mask entry points at an existing render task, and the default
    /// handles are resolved.
    pub open spec fn wf(self, render_tasks: RenderTaskGraph) -> bool {
        &&& forall|i: int| 0 <= i < self.clip_mask_instances@.len()
            ==> (#[trigger] self.clip_mask_instances@[i] matches ClipMaskKind::Mask(id)
            ==> render_tasks.spec_contains(id))
        &&& self.clip_mask_instances@.len() > 0
        &&& self.clip_mask_instances@[0] is NoMask
        &&& self.default_image_handle.address is Some
        &&& self.default_black_rect_handle.address is Some
    }

    /// What `get_clip_task_and_texture` answers for a clip record.
    pub open spec fn spec_clip_task(
        self,
        render_tasks: RenderTaskGraph,
        slot: int,
    ) -> Option<(u32, TextureSource)> {
        match self.clip_mask_instances@[slot] {
            ClipMaskKind::Mask(id) => Some(
                (
                    id.0,
                    TextureSource::TextureCache(
                        render_tasks.tasks@[id.0 as int].target_texture,
                        Swizzle::Rgba8,
                    ),
                ),
            ),
            ClipMaskKind::NoMask => Some((OPAQUE_TASK_ADDRESS, TextureSource::Invalid)),
            ClipMaskKind::Clipped => None,
        }
    }

    /// Whether the clip record for a segment admits drawing at all.
    pub open spec fn spec_clip_emits(self, slot: int) -> bool {
        !(self.clip_mask_instances@[slot] is Clipped)
    }

    /// The GPU task address and clip-mask texture for one segment of a clip
    /// task: `None` means the segment is fully clipped away and must not be
    /// emitted.
    pub fn get_clip_task_and_texture(
        &self,
        clip_task_index: ClipTaskIndex,
        offset: usize,
        render_tasks: &RenderTaskGraph,
    ) -> (r: Option<(u32, TextureSource)>)
        requires
            self.wf(*render_tasks),
            clip_task_index.base_of() + offset < self.clip_mask_instances@.len(),
        ensures
            r == self.spec_clip_task(*render_tasks, clip_task_index.base_of() + offset),
    {
        let base = match clip_task_index {
            ClipTaskIndex::At(base) => base,
            ClipTaskIndex::Invalid => 0,
        };
        proof {
            assert(base as int == clip_task_index.base_of());
            assert((base as int) + (offset as int) < self.clip_mask_instances@.len());
        }
        let n = self.clip_mask_instances.len();
        let slot = base + offset;
        match self.clip_mask_instances[slot] {
            ClipMaskKind::Mask(task_id) => {
                Some(
                    (
                        render_task_address(task_id),
                        TextureSource::TextureCache(
                            render_tasks.get_target_texture(task_id),
                            Swizzle::Rgba8,
                        ),
                    ),
                )
            }
            ClipMaskKind::NoMask => Some((OPAQUE_TASK_ADDRESS, TextureSource::Invalid)),
            ClipMaskKind::Clipped => None,
        }
    }

    /// The clip task address and texture for an unsegmented primitive.
    pub fn get_prim_clip_task_and_texture(
        &self,
        clip_task_index: ClipTaskIndex,
        render_tasks: &RenderTaskGraph,
    ) -> (r: Option<(u32, TextureSource)>)
        requires
            self.wf(*render_tasks),
            clip_task_index.base_of() < self.clip_mask_instances@.len(),
        ensures
            r == self.spec_clip_task(*render_tasks, clip_task_index.base_of()),
    {
        self.get_clip_task_and_texture(clip_task_index, 0, render_tasks)
    }
}

} // verus!
