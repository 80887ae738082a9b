//! The per-render-target batch builders.
//!
//! [`AlphaBatchBuilder`] owns one opaque and one alpha batch list and
//! routes each incoming primitive to the right one by blend mode.
//! [`BatchBuilder`] translates whole primitives into zero or more GPU
//! instance records, resolving textures and clip tasks through the
//! collaborator models, and pushes them through the routing layer.

use vstd::prelude::*;
use crate::container::{batches_view, merge_ordered, merge_unordered, AlphaBatchContainer, BatchV};
use crate::context::{
    BrushSegment, ClipTaskIndex, GpuCache, RenderTargetContext, RenderTaskGraph,
    TransformPalette,
};
use crate::geom::Rect;
use crate::gpu::{
    AlphaType, BrushInstance, GlyphInstance, ImageBrushData, PrimUserData, PrimitiveHeader,
    PrimitiveHeaderIndex, PrimitiveHeaders, PrimitiveInstanceData, QuadInstance, RasterizationSpace,
    ShaderColorMode, SplitCompositeInstance, TransformPaletteId, TransformedRectKind,
    INVALID_SEGMENT_INDEX, OPAQUE_TASK_ADDRESS, SHADER_OPACITY_FULL,
};
use crate::key::{
    BatchFeatures, BatchKey, BatchKind, BlendMode, BrushBatchKind, BrushFlags, EdgeAaSegmentMask,
    GlyphFormat, MixBlendMode, RenderTaskId, ZBufferId, ZBufferIdGenerator, BRUSH_FORCE_AA,
    BRUSH_NORMALIZED_UVS, BRUSH_PERSPECTIVE_INTERPOLATION, BRUSH_SEGMENT_RELATIVE,
    FEATURE_ALPHA_PASS, FEATURE_ANTIALIASING, FEATURE_CLIP_MASK, FEATURE_REPETITION,
};
use crate::prim::{
    CompositorSurfaceKind, Filter, GlyphGroup, Picture3DContext, PictureCompositeMode,
    PrimitiveCommand, PrimitiveInstance, PrimitiveInstanceKind, SegmentInstanceIndex,
    SegmentStore, VisibilityState, VIS_IS_BACKDROP,
};
use crate::lists::{
    alpha_list_stepped, batch_emissions, lemma_alpha_stepped_emissions,
    lemma_alpha_stepped_extend, lemma_alpha_stepped_total, lemma_opaque_stepped_emissions,
    lemma_opaque_stepped_extend, lemma_opaque_stepped_total, opaque_list_stepped,
    total_instances, AlphaBatchList, OpaqueBatchList, PrimitiveBatch,
};
use vstd::multiset::Multiset;
use crate::texture::{BatchTextures, TextureSet, TextureSource};

verus! {

/// All instance records held by a builder, over both of its lists.
pub open spec fn builder_total(b: AlphaBatchBuilder) -> int {
    total_instances(b.alpha_batch_list.batches@) + total_instances(b.opaque_batch_list.batches@)
}

/// Everything a builder would draw: each instance record of either list,
/// tagged with the shader kind and blend mode of the batch holding it.
pub open spec fn builder_emissions(b: AlphaBatchBuilder) -> Multiset<(BatchKind, BlendMode,
    PrimitiveInstanceData,
)> {
    batch_emissions(b.alpha_batch_list.batches@).add(
        batch_emissions(b.opaque_batch_list.batches@),
    )
}

/// Per-segment instance data: the segment's textures and its resource
/// address.
#[derive(Clone, Copy, Debug, PartialEq, Eq, Structural)]
pub struct SegmentInstanceData {
    pub textures: TextureSet,
    pub specific_resource_address: i32,
}

/// Either one set of per-segment data shared by all segments, or one entry
/// per segment.
pub enum SegmentDataKind {
    Shared(SegmentInstanceData),
    Instanced(Vec<SegmentInstanceData>),
}

/// The parameters specific to one kind of brush, shared by the common
/// emission path.
pub struct BrushBatchParameters {
    pub batch_kind: BrushBatchKind,
    pub prim_user_data: PrimUserData,
    pub segment_data: SegmentDataKind,
}

impl BrushBatchParameters {
    /// Parameters with one data entry per segment.
    pub fn instanced(
        batch_kind: BrushBatchKind,
        prim_user_data: PrimUserData,
        segment_data: Vec<SegmentInstanceData>,
    ) -> (r: BrushBatchParameters)
        ensures
            r.batch_kind == batch_kind,
            r.prim_user_data == prim_user_data,
            r.segment_data matches SegmentDataKind::Instanced(d) && d@ == segment_data@,
    {
        BrushBatchParameters {
            batch_kind,
            prim_user_data,
            segment_data: SegmentDataKind::Instanced(segment_data),
        }
    }

    /// Parameters shared across all segments.
    pub fn shared(
        batch_kind: BrushBatchKind,
        textures: TextureSet,
        prim_user_data: PrimUserData,
        specific_resource_address: i32,
    ) -> (r: BrushBatchParameters)
        ensures
            r.batch_kind == batch_kind,
            r.prim_user_data == prim_user_data,
            r.segment_data matches SegmentDataKind::Shared(d) && d == (SegmentInstanceData {
                textures,
                specific_resource_address,
            }),
    {
        BrushBatchParameters {
            batch_kind,
            prim_user_data,
            segment_data: SegmentDataKind::Shared(
                SegmentInstanceData { textures, specific_resource_address },
            ),
        }
    }
}

/// Builds batches for the primitives of one render target.
pub struct AlphaBatchBuilder {
    pub alpha_batch_list: AlphaBatchList,
    pub opaque_batch_list: OpaqueBatchList,
    pub render_task_id: RenderTaskId,
    pub render_task_address: u32,
}

/// The opaque list of a builder with every instance sequence reversed, as
/// `finalize` leaves it.
pub open spec fn reversed_views(s: Seq<BatchV>) -> Seq<BatchV> {
    s.map_values(
        |b: BatchV| BatchV { key: b.key, instances: b.instances.reverse(), features: b.features },
    )
}

impl AlphaBatchBuilder {
    pub open spec fn wf(self) -> bool {
        &&& self.alpha_batch_list.wf()
        &&& self.opaque_batch_list.wf()
    }

    /// Room for `n` more batch selections in both lists.
    pub open spec fn spec_room(self, n: int) -> bool {
        &&& self.alpha_batch_list.batches@.len() + n < usize::MAX - 1
        &&& self.opaque_batch_list.batches@.len() + n < usize::MAX - 1
    }

    /// A builder for one render target. The large-occluder threshold is a
    /// quarter of the screen area.
    pub fn new(
        screen_width: i32,
        screen_height: i32,
        break_advanced_blend_batches: bool,
        lookback_count: usize,
        render_task_id: RenderTaskId,
        render_task_address: u32,
    ) -> (r: AlphaBatchBuilder)
        requires
            0 <= screen_width,
            0 <= screen_height,
        ensures
            r.wf(),
            r.alpha_batch_list.batches@.len() == 0,
            r.opaque_batch_list.batches@.len() == 0,
            r.alpha_batch_list.break_advanced_blend_batches == break_advanced_blend_batches,
            r.opaque_batch_list.lookback_count == lookback_count,
            r.opaque_batch_list.pixel_area_threshold_for_new_batch == (screen_width as int)
                * (screen_height as int) / 4,
            r.render_task_id == render_task_id,
            r.render_task_address == render_task_address,
    {
        proof {
            assert((screen_width as int) * (screen_height as int) <= 0x10000000000000000
                && (screen_width as int) * (screen_height as int) >= 0) by (nonlinear_arith)
                requires
                    0 <= screen_width as int <= 0x100000000,
                    0 <= screen_height as int <= 0x100000000,
            ;
        }
        let batch_area_threshold: i128 = (screen_width as i128) * (screen_height as i128) / 4;
        AlphaBatchBuilder {
            alpha_batch_list: AlphaBatchList::new(break_advanced_blend_batches),
            opaque_batch_list: OpaqueBatchList::new(batch_area_threshold, lookback_count),
            render_task_id,
            render_task_address,
        }
    }

    /// Drop all batches accumulated so far, because a later primitive
    /// occludes everything before it.
    pub fn clear(&mut self)
        ensures
            final(self).wf(),
            final(self).alpha_batch_list.batches@.len() == 0,
            final(self).alpha_batch_list.batch_rects@.len() == 0,
            final(self).opaque_batch_list.batches@.len() == 0,
            final(self).alpha_batch_list.current_batch_index == usize::MAX,
            final(self).alpha_batch_list.current_z_id == ZBufferId::spec_invalid(),
            final(self).opaque_batch_list.current_batch_index == usize::MAX,
            final(self).alpha_batch_list.break_advanced_blend_batches == old(
                self,
            ).alpha_batch_list.break_advanced_blend_batches,
            final(self).opaque_batch_list.pixel_area_threshold_for_new_batch == old(
                self,
            ).opaque_batch_list.pixel_area_threshold_for_new_batch,
            final(self).opaque_batch_list.lookback_count == old(
                self,
            ).opaque_batch_list.lookback_count,
            final(self).render_task_id == old(self).render_task_id,
            final(self).render_task_address == old(self).render_task_address,
    {
        self.alpha_batch_list.clear();
        self.opaque_batch_list.clear();
    }

    /// Select the batch for one primitive: blended primitives go to the
    /// order-preserving alpha list, opaque ones to the free-order opaque
    /// list.
    pub fn set_params_and_get_batch(
        &mut self,
        key: BatchKey,
        features: BatchFeatures,
        bounding_rect: &Rect,
        z_id: ZBufferId,
    ) -> (idx: usize)
        requires
            old(self).wf(),
            old(self).spec_room(1),
            bounding_rect.wf(),
        ensures
            final(self).wf(),
            final(self).render_task_id == old(self).render_task_id,
            final(self).render_task_address == old(self).render_task_address,
            key.blend_mode.spec_needs_alpha_list() ==> alpha_list_stepped(
                old(self).alpha_batch_list,
                final(self).alpha_batch_list,
                idx,
                key,
                features,
                *bounding_rect,
                z_id,
                Seq::<PrimitiveInstanceData>::empty(),
            ) && final(self).opaque_batch_list == old(self).opaque_batch_list,
            !key.blend_mode.spec_needs_alpha_list() ==> opaque_list_stepped(
                old(self).opaque_batch_list,
                final(self).opaque_batch_list,
                idx,
                key,
                features,
                *bounding_rect,
                Seq::<PrimitiveInstanceData>::empty(),
            ) && final(self).alpha_batch_list == old(self).alpha_batch_list,
    {
        match key.blend_mode {
            BlendMode::NoBlend => {
                self.opaque_batch_list.set_params_and_get_batch(key, features, bounding_rect)
            }
            BlendMode::Alpha
            | BlendMode::PremultipliedAlpha
            | BlendMode::PremultipliedDestOut
            | BlendMode::SubpixelDualSource
            | BlendMode::Advanced(_)
            | BlendMode::MultiplyDualSource
            | BlendMode::Screen
            | BlendMode::Exclusion
            | BlendMode::PlusLighter => {
                self.alpha_batch_list.set_params_and_get_batch(key, features, bounding_rect, z_id)
            }
        }
    }

    /// Select a batch and append one instance record to it.
    pub fn push_single_instance(
        &mut self,
        key: BatchKey,
        features: BatchFeatures,
        bounding_rect: &Rect,
        z_id: ZBufferId,
        instance: PrimitiveInstanceData,
    ) -> (idx: usize)
        requires
            old(self).wf(),
            old(self).spec_room(1),
            bounding_rect.wf(),
        ensures
            final(self).wf(),
            final(self).render_task_id == old(self).render_task_id,
            final(self).render_task_address == old(self).render_task_address,
            builder_total(*final(self)) == builder_total(*old(self)) + 1,
            builder_emissions(*final(self)) == builder_emissions(*old(self)).insert(
                (key.kind, key.blend_mode, instance),
            ),
            key.blend_mode.spec_needs_alpha_list() ==> alpha_list_stepped(
                old(self).alpha_batch_list,
                final(self).alpha_batch_list,
                idx,
                key,
                features,
                *bounding_rect,
                z_id,
                seq![instance],
            ) && final(self).opaque_batch_list == old(self).opaque_batch_list,
            !key.blend_mode.spec_needs_alpha_list() ==> opaque_list_stepped(
                old(self).opaque_batch_list,
                final(self).opaque_batch_list,
                idx,
                key,
                features,
                *bounding_rect,
                seq![instance],
            ) && final(self).alpha_batch_list == old(self).alpha_batch_list,
    {
        let is_alpha = match key.blend_mode {
            BlendMode::NoBlend => false,
            _ => true,
        };
        let idx = self.set_params_and_get_batch(key, features, bounding_rect, z_id);
        let ghost mid = *self;
        if is_alpha {
            self.alpha_batch_list.batches[idx].instances.push(instance);
            proof {
                assert(self.alpha_batch_list.batches@[idx as int].instances@
                    =~= mid.alpha_batch_list.batches@[idx as int].instances@ + seq![instance]);
                lemma_alpha_stepped_extend(
                    old(self).alpha_batch_list,
                    mid.alpha_batch_list,
                    self.alpha_batch_list,
                    idx,
                    key,
                    features,
                    *bounding_rect,
                    z_id,
                    Seq::<PrimitiveInstanceData>::empty(),
                    seq![instance],
                );
                assert(Seq::<PrimitiveInstanceData>::empty() + seq![instance] =~= seq![instance]);
                lemma_alpha_stepped_total(
                    old(self).alpha_batch_list,
                    self.alpha_batch_list,
                    idx,
                    key,
                    features,
                    *bounding_rect,
                    z_id,
                    seq![instance],
                );
                lemma_alpha_stepped_emissions(
                    old(self).alpha_batch_list,
                    self.alpha_batch_list,
                    idx,
                    key,
                    features,
                    *bounding_rect,
                    z_id,
                    seq![instance],
                );
                crate::lists::lemma_tagged_singleton(key, instance);
                assert(builder_emissions(*self) =~= builder_emissions(*old(self)).insert(
                    (key.kind, key.blend_mode, instance),
                ));
            }
        } else {
            self.opaque_batch_list.batches[idx].instances.push(instance);
            proof {
                assert(self.opaque_batch_list.batches@[idx as int].instances@
                    =~= mid.opaque_batch_list.batches@[idx as int].instances@ + seq![instance]);
                lemma_opaque_stepped_extend(
                    old(self).opaque_batch_list,
                    mid.opaque_batch_list,
                    self.opaque_batch_list,
                    idx,
                    key,
                    features,
                    *bounding_rect,
                    Seq::<PrimitiveInstanceData>::empty(),
                    seq![instance],
                );
                assert(Seq::<PrimitiveInstanceData>::empty() + seq![instance] =~= seq![instance]);
                lemma_opaque_stepped_total(
                    old(self).opaque_batch_list,
                    self.opaque_batch_list,
                    idx,
                    key,
                    features,
                    *bounding_rect,
                    seq![instance],
                );
                lemma_opaque_stepped_emissions(
                    old(self).opaque_batch_list,
                    self.opaque_batch_list,
                    idx,
                    key,
                    features,
                    *bounding_rect,
                    seq![instance],
                );
                crate::lists::lemma_tagged_singleton(key, instance);
                assert(builder_emissions(*self) =~= builder_emissions(*old(self)).insert(
                    (key.kind, key.blend_mode, instance),
                ));
            }
        }
        idx
    }

    /// Finish this builder: reverse the opaque batches for front-to-back
    /// submission, then either fold both lists into the shared container
    /// (no scissor) or append them as a container of their own.
    pub fn build(
        self,
        batch_containers: &mut Vec<AlphaBatchContainer>,
        merged_batches: &mut AlphaBatchContainer,
        task_rect: Rect,
        task_scissor_rect: Option<Rect>,
    )
        requires
            self.wf(),
            old(merged_batches).opaque_batches@.len() + self.opaque_batch_list.batches@.len()
                < usize::MAX - 1,
            old(merged_batches).alpha_batches@.len() + self.alpha_batch_list.batches@.len()
                < usize::MAX - 1,
            old(batch_containers)@.len() < usize::MAX - 1,
        ensures
            match task_scissor_rect {
                Option::None => {
                    &&& final(batch_containers)@ == old(batch_containers)@
                    &&& batches_view(final(merged_batches).opaque_batches@) == merge_unordered(
                        batches_view(old(merged_batches).opaque_batches@),
                        reversed_views(batches_view(self.opaque_batch_list.batches@)),
                    )
                    &&& batches_view(final(merged_batches).alpha_batches@) == merge_ordered(
                        batches_view(old(merged_batches).alpha_batches@),
                        batches_view(self.alpha_batch_list.batches@),
                        0,
                    )
                    &&& final(merged_batches).task_rect == old(
                        merged_batches,
                    ).task_rect.spec_union(task_rect)
                    &&& final(merged_batches).task_scissor_rect == old(
                        merged_batches,
                    ).task_scissor_rect
                }
                Option::Some(_) => {
                    &&& *final(merged_batches) == *old(merged_batches)
                    &&& final(batch_containers)@.len() == old(batch_containers)@.len() + 1
                    &&& forall|k: int| 0 <= k < old(batch_containers)@.len()
                        ==> final(batch_containers)@[k] == old(batch_containers)@[k]
                    &&& batches_view(
                        final(batch_containers)@.last().opaque_batches@,
                    ) == reversed_views(batches_view(self.opaque_batch_list.batches@))
                    &&& batches_view(final(batch_containers)@.last().alpha_batches@)
                        == batches_view(self.alpha_batch_list.batches@)
                    &&& final(batch_containers)@.last().task_scissor_rect == task_scissor_rect
                    &&& final(batch_containers)@.last().task_rect == task_rect
                }
            },
    {
        let mut this = self;
        let ghost opaque0 = batches_view(this.opaque_batch_list.batches@);
        this.opaque_batch_list.finalize();
        proof {
            assert(batches_view(this.opaque_batch_list.batches@) =~= reversed_views(opaque0));
        }
        match task_scissor_rect {
            Option::None => {
                let AlphaBatchBuilder { alpha_batch_list, opaque_batch_list, .. } = this;
                merged_batches.merge(
                    opaque_batch_list.batches,
                    alpha_batch_list.batches,
                    &task_rect,
                );
            }
            Option::Some(scissor) => {
                let AlphaBatchBuilder { alpha_batch_list, opaque_batch_list, .. } = this;
                batch_containers.push(
                    AlphaBatchContainer {
                        alpha_batches: alpha_batch_list.batches,
                        opaque_batches: opaque_batch_list.batches,
                        task_scissor_rect: Some(scissor),
                        task_rect,
                    },
                );
            }
        }
    }
}

/// How many of the `n` segment clip records starting at `base` admit
/// drawing (are not fully clipped away).
pub open spec fn emitted_in_range(ctx: RenderTargetContext, base: int, n: int) -> int
    decreases n,
{
    if n <= 0 {
        0
    } else {
        emitted_in_range(ctx, base, n - 1) + if ctx.spec_clip_emits(base + n - 1) {
            1int
        } else {
            0int
        }
    }
}

/// Segment fan-out law: a brush with a segment list emits one record per
/// segment whose clip record admits drawing — exactly the segment count
/// when no segment is fully clipped — and a brush without a segment list
/// emits exactly one record (the `None` case of
/// [`BatchBuilder::add_segmented_prim_to_batch`]); per-segment data
/// without segments is excluded by that function's precondition.
pub proof fn lemma_segment_fanout_counts(ctx: RenderTargetContext, base: int, n: int)
    requires
        0 <= n,
    ensures
        0 <= emitted_in_range(ctx, base, n) <= n,
        (forall|i: int| 0 <= i < n ==> #[trigger] ctx.spec_clip_emits(base + i))
            ==> emitted_in_range(ctx, base, n) == n,
    decreases n,
{
    if n > 0 {
        lemma_segment_fanout_counts(ctx, base, n - 1);
    }
}

/// Translates primitives into GPU instance records and pushes them into
/// one render target's batch lists.
pub struct BatchBuilder {
    pub batcher: AlphaBatchBuilder,
}

impl BatchBuilder {
    pub fn new(batcher: AlphaBatchBuilder) -> (r: BatchBuilder)
        ensures
            r.batcher == batcher,
    {
        BatchBuilder { batcher }
    }

    /// Hand the accumulated batches back for `build`.
    pub fn finalize(self) -> (r: AlphaBatchBuilder)
        ensures
            r == self.batcher,
    {
        self.batcher
    }

    /// Drop all batches accumulated so far for this render target.
    pub fn clear_batches(&mut self)
        ensures
            final(self).batcher.wf(),
            final(self).batcher.alpha_batch_list.batches@.len() == 0,
            final(self).batcher.alpha_batch_list.batch_rects@.len() == 0,
            final(self).batcher.opaque_batch_list.batches@.len() == 0,
            final(self).batcher.alpha_batch_list.current_batch_index == usize::MAX,
            final(self).batcher.alpha_batch_list.current_z_id == ZBufferId::spec_invalid(),
            final(self).batcher.opaque_batch_list.current_batch_index == usize::MAX,
            final(self).batcher.render_task_id == old(self).batcher.render_task_id,
            final(self).batcher.render_task_address == old(self).batcher.render_task_address,
            final(self).batcher.alpha_batch_list.break_advanced_blend_batches == old(
                self,
            ).batcher.alpha_batch_list.break_advanced_blend_batches,
            final(self).batcher.opaque_batch_list.pixel_area_threshold_for_new_batch == old(
                self,
            ).batcher.opaque_batch_list.pixel_area_threshold_for_new_batch,
            final(self).batcher.opaque_batch_list.lookback_count == old(
                self,
            ).batcher.opaque_batch_list.lookback_count,
    {
        self.batcher.clear();
    }

    /// Emit one brush instance into the batch selected by `batch_key`.
    pub fn add_brush_instance_to_batches(
        &mut self,
        batch_key: BatchKey,
        features: BatchFeatures,
        bounding_rect: &Rect,
        z_id: ZBufferId,
        segment_index: i32,
        edge_flags: EdgeAaSegmentMask,
        clip_task_address: u32,
        brush_flags: BrushFlags,
        prim_header_index: PrimitiveHeaderIndex,
        resource_address: i32,
    )
        requires
            old(self).batcher.wf(),
            old(self).batcher.spec_room(1),
            bounding_rect.wf(),
            !((brush_flags.bits & BRUSH_NORMALIZED_UVS) == BRUSH_NORMALIZED_UVS && (features.bits
                & FEATURE_REPETITION) == FEATURE_REPETITION),
        ensures
            final(self).batcher.wf(),
            builder_total(final(self).batcher) == builder_total(old(self).batcher) + 1,
            batcher_config_kept(old(self).batcher, final(self).batcher),
            batcher_lens_grow(old(self).batcher, final(self).batcher, 1),
            builder_emissions(final(self).batcher) == builder_emissions(old(self).batcher).insert(
                (
                    batch_key.kind,
                    batch_key.blend_mode,
                    PrimitiveInstanceData::Brush(
                        BrushInstance {
                            prim_header_index,
                            clip_task_address,
                            segment_index,
                            edge_flags,
                            brush_flags,
                            resource_address,
                        },
                    ),
                ),
            ),
            batch_key.blend_mode.spec_needs_alpha_list() ==> exists|idx: usize|
                alpha_list_stepped(
                    old(self).batcher.alpha_batch_list,
                    final(self).batcher.alpha_batch_list,
                    idx,
                    batch_key,
                    features,
                    *bounding_rect,
                    z_id,
                    seq![
                        PrimitiveInstanceData::Brush(
                            BrushInstance {
                                prim_header_index,
                                clip_task_address,
                                segment_index,
                                edge_flags,
                                brush_flags,
                                resource_address,
                            },
                        ),
                    ],
                ) && final(self).batcher.opaque_batch_list == old(self).batcher.opaque_batch_list,
            !batch_key.blend_mode.spec_needs_alpha_list() ==> exists|idx: usize|
                opaque_list_stepped(
                    old(self).batcher.opaque_batch_list,
                    final(self).batcher.opaque_batch_list,
                    idx,
                    batch_key,
                    features,
                    *bounding_rect,
                    seq![
                        PrimitiveInstanceData::Brush(
                            BrushInstance {
                                prim_header_index,
                                clip_task_address,
                                segment_index,
                                edge_flags,
                                brush_flags,
                                resource_address,
                            },
                        ),
                    ],
                ) && final(self).batcher.alpha_batch_list == old(self).batcher.alpha_batch_list,
    {
        let instance = BrushInstance {
            prim_header_index,
            clip_task_address,
            segment_index,
            edge_flags,
            brush_flags,
            resource_address,
        };
        let _ = self.batcher.push_single_instance(
            batch_key,
            features,
            bounding_rect,
            z_id,
            PrimitiveInstanceData::Brush(instance),
        );
    }

    /// Emit one plane-splitting composite instance.
    pub fn add_split_composite_instance_to_batches(
        &mut self,
        batch_key: BatchKey,
        features: BatchFeatures,
        bounding_rect: &Rect,
        z_id: ZBufferId,
        prim_header_index: PrimitiveHeaderIndex,
        polygons_address: i32,
    )
        requires
            old(self).batcher.wf(),
            old(self).batcher.spec_room(1),
            bounding_rect.wf(),
        ensures
            final(self).batcher.wf(),
            builder_total(final(self).batcher) == builder_total(old(self).batcher) + 1,
            batcher_config_kept(old(self).batcher, final(self).batcher),
            batcher_lens_grow(old(self).batcher, final(self).batcher, 1),
            builder_emissions(final(self).batcher) == builder_emissions(old(self).batcher).insert(
                (
                    batch_key.kind,
                    batch_key.blend_mode,
                    PrimitiveInstanceData::SplitComposite(
                        SplitCompositeInstance {
                            prim_header_index,
                            render_task_address: old(self).batcher.render_task_address,
                            polygons_address,
                            z: z_id,
                        },
                    ),
                ),
            ),
    {
        let render_task_address = self.batcher.render_task_address;
        let instance = SplitCompositeInstance {
            prim_header_index,
            render_task_address,
            polygons_address,
            z: z_id,
        };
        let _ = self.batcher.push_single_instance(
            batch_key,
            features,
            bounding_rect,
            z_id,
            PrimitiveInstanceData::SplitComposite(instance),
        );
    }
}

/// The builder's configuration is untouched by emission.
pub open spec fn batcher_config_kept(pre: AlphaBatchBuilder, post: AlphaBatchBuilder) -> bool {
    &&& post.render_task_id == pre.render_task_id
    &&& post.render_task_address == pre.render_task_address
    &&& post.alpha_batch_list.break_advanced_blend_batches
        == pre.alpha_batch_list.break_advanced_blend_batches
    &&& post.opaque_batch_list.pixel_area_threshold_for_new_batch
        == pre.opaque_batch_list.pixel_area_threshold_for_new_batch
    &&& post.opaque_batch_list.lookback_count == pre.opaque_batch_list.lookback_count
}

/// Emission never removes batches and creates at most `n` new ones.
pub open spec fn batcher_lens_grow(pre: AlphaBatchBuilder, post: AlphaBatchBuilder, n: int) -> bool {
    &&& pre.alpha_batch_list.batches@.len() <= post.alpha_batch_list.batches@.len()
        <= pre.alpha_batch_list.batches@.len() + n
    &&& pre.opaque_batch_list.batches@.len() <= post.opaque_batch_list.batches@.len()
        <= pre.opaque_batch_list.batches@.len() + n
}

/// The blend mode one segment is drawn with: no blending exactly when the
/// primitive is opaque, the segment needs no clip mask, no edge of a
/// complex transform asks for antialiasing, and antialiasing was not
/// forced for the whole primitive; otherwise the primitive's alpha blend
/// mode.
pub open spec fn spec_segment_blend(
    prim_is_opaque: bool,
    clip_task_address: u32,
    seg_edge_bits: u8,
    transform_kind: TransformedRectKind,
    brush_flags: BrushFlags,
    alpha_blend_mode: BlendMode,
) -> BlendMode {
    if !prim_is_opaque || clip_task_address != OPAQUE_TASK_ADDRESS || (seg_edge_bits != 0
        && transform_kind == TransformedRectKind::Complex) || (brush_flags.bits & BRUSH_FORCE_AA)
        == BRUSH_FORCE_AA {
        alpha_blend_mode
    } else {
        BlendMode::NoBlend
    }
}

/// The key one admitted segment batches under: its blend decision, the
/// brush kind, the segment's own textures and the resolved clip mask.
pub open spec fn spec_segment_key(
    batch_kind: BrushBatchKind,
    blend: BlendMode,
    segment_data: SegmentInstanceData,
    clip_mask: TextureSource,
) -> BatchKey {
    BatchKey {
        blend_mode: blend,
        kind: BatchKind::Brush(batch_kind),
        textures: BatchTextures { input: segment_data.textures, clip_mask },
    }
}

/// The record one admitted segment emits: its index, its edge flags
/// restricted to the allowed mask, the combined brush flags, and the
/// segment's own resource address.
pub open spec fn spec_segment_record(
    segment: BrushSegment,
    segment_data: SegmentInstanceData,
    segment_index: i32,
    prim_header_index: PrimitiveHeaderIndex,
    edge_aa_mask: EdgeAaSegmentMask,
    brush_flags: BrushFlags,
    clip_task_address: u32,
) -> PrimitiveInstanceData {
    PrimitiveInstanceData::Brush(
        BrushInstance {
            prim_header_index,
            clip_task_address,
            segment_index,
            edge_flags: EdgeAaSegmentMask { bits: segment.edge_flags.bits & edge_aa_mask.bits },
            brush_flags: BrushFlags {
                bits: (brush_flags.bits | BRUSH_PERSPECTIVE_INTERPOLATION)
                    | segment.brush_flags.bits,
            },
            resource_address: segment_data.specific_resource_address,
        },
    )
}

/// The per-segment data entry used for segment `i`: the shared entry, or
/// the i-th of the instanced list.
pub open spec fn spec_seg_data_at(sd: SegmentDataKind, i: int) -> SegmentInstanceData {
    match sd {
        SegmentDataKind::Shared(d) => d,
        SegmentDataKind::Instanced(v) => v@[i],
    }
}

/// Everything the first `n` segments of a brush emit: one tagged record
/// per segment whose clip record admits drawing, carrying that segment's
/// index, edge flags, data and blend decision.
pub open spec fn expected_segment_emissions(
    segs: Seq<BrushSegment>,
    sd: SegmentDataKind,
    n: int,
    batch_kind: BrushBatchKind,
    alpha_blend_mode: BlendMode,
    prim_is_opaque: bool,
    transform_kind: TransformedRectKind,
    prim_header_index: PrimitiveHeaderIndex,
    edge_aa_mask: EdgeAaSegmentMask,
    brush_flags: BrushFlags,
    ctx: RenderTargetContext,
    tasks: RenderTaskGraph,
    base: int,
) -> Multiset<(BatchKind, BlendMode, PrimitiveInstanceData)>
    decreases n,
{
    if n <= 0 {
        Multiset::empty()
    } else {
        let rest = expected_segment_emissions(
            segs,
            sd,
            n - 1,
            batch_kind,
            alpha_blend_mode,
            prim_is_opaque,
            transform_kind,
            prim_header_index,
            edge_aa_mask,
            brush_flags,
            ctx,
            tasks,
            base,
        );
        if ctx.spec_clip_emits(base + n - 1) {
            match ctx.spec_clip_task(tasks, base + n - 1) {
                Some(clip) => rest.insert(
                    (
                        BatchKind::Brush(batch_kind),
                        spec_segment_blend(
                            prim_is_opaque,
                            clip.0,
                            segs[n - 1].edge_flags.bits,
                            transform_kind,
                            brush_flags,
                            alpha_blend_mode,
                        ),
                        spec_segment_record(
                            segs[n - 1],
                            spec_seg_data_at(sd, n - 1),
                            (n - 1) as i32,
                            prim_header_index,
                            edge_aa_mask,
                            brush_flags,
                            clip.0,
                        ),
                    ),
                ),
                None => rest,
            }
        } else {
            rest
        }
    }
}

impl BatchBuilder {
    /// Emit one segment of a brush primitive, unless its clip record says
    /// it is fully clipped away.
    ///
    /// `edge_aa_mask` names the edges *allowed* to anti-alias; a segment's
    /// own edge flags are intersected with it.
    pub fn add_segment_to_batch(
        &mut self,
        segment: &BrushSegment,
        segment_data: &SegmentInstanceData,
        segment_index: i32,
        batch_kind: BrushBatchKind,
        prim_header_index: PrimitiveHeaderIndex,
        alpha_blend_mode: BlendMode,
        features: BatchFeatures,
        brush_flags: BrushFlags,
        edge_aa_mask: EdgeAaSegmentMask,
        bounding_rect: &Rect,
        transform_kind: TransformedRectKind,
        z_id: ZBufferId,
        prim_is_opaque: bool,
        clip_task_index: ClipTaskIndex,
        ctx: &RenderTargetContext,
        render_tasks: &RenderTaskGraph,
    )
        requires
            old(self).batcher.wf(),
            old(self).batcher.spec_room(1),
            bounding_rect.wf(),
            ctx.wf(*render_tasks),
            0 <= segment_index,
            clip_task_index.base_of() + segment_index < ctx.clip_mask_instances@.len(),
            (features.bits & FEATURE_REPETITION) == FEATURE_REPETITION ==> (brush_flags.bits
                & BRUSH_NORMALIZED_UVS) == 0 && (segment.brush_flags.bits & BRUSH_NORMALIZED_UVS)
                == 0,
        ensures
            final(self).batcher.wf(),
            batcher_config_kept(old(self).batcher, final(self).batcher),
            batcher_lens_grow(old(self).batcher, final(self).batcher, 1),
            builder_total(final(self).batcher) == builder_total(old(self).batcher) + if ctx
                .spec_clip_emits(clip_task_index.base_of() + segment_index) {
                1int
            } else {
                0int
            },
            !ctx.spec_clip_emits(clip_task_index.base_of() + segment_index) ==> *final(self)
                == *old(self),
            ctx.spec_clip_emits(clip_task_index.base_of() + segment_index) ==> (ctx.spec_clip_task(
                *render_tasks,
                clip_task_index.base_of() + segment_index,
            ) matches Some(clip) && {
                let blend = spec_segment_blend(
                    prim_is_opaque,
                    clip.0,
                    segment.edge_flags.bits,
                    transform_kind,
                    brush_flags,
                    alpha_blend_mode,
                );
                let key = spec_segment_key(batch_kind, blend, *segment_data, clip.1);
                let record = spec_segment_record(
                    *segment,
                    *segment_data,
                    segment_index,
                    prim_header_index,
                    edge_aa_mask,
                    brush_flags,
                    clip.0,
                );
                &&& builder_emissions(final(self).batcher) == builder_emissions(
                    old(self).batcher,
                ).insert((key.kind, key.blend_mode, record))
                &&& (blend.spec_needs_alpha_list() ==> (exists|idx: usize|
                    alpha_list_stepped(
                        old(self).batcher.alpha_batch_list,
                        final(self).batcher.alpha_batch_list,
                        idx,
                        key,
                        features,
                        *bounding_rect,
                        z_id,
                        seq![record],
                    )) && final(self).batcher.opaque_batch_list == old(
                    self,
                ).batcher.opaque_batch_list)
                &&& (!blend.spec_needs_alpha_list() ==> (exists|idx: usize|
                    opaque_list_stepped(
                        old(self).batcher.opaque_batch_list,
                        final(self).batcher.opaque_batch_list,
                        idx,
                        key,
                        features,
                        *bounding_rect,
                        seq![record],
                    )) && final(self).batcher.alpha_batch_list == old(
                    self,
                ).batcher.alpha_batch_list)
            }),
    {
        match ctx.get_clip_task_and_texture(clip_task_index, segment_index as usize, render_tasks) {
            Some((clip_task_address, clip_mask)) => {
                let is_inner = segment.edge_flags.is_empty();
                let needs_blending = !prim_is_opaque || clip_task_address != OPAQUE_TASK_ADDRESS
                    || (!is_inner && transform_kind == TransformedRectKind::Complex)
                    || brush_flags.contains(BRUSH_FORCE_AA);

                let textures = BatchTextures { input: segment_data.textures, clip_mask };

                let batch_key = BatchKey {
                    blend_mode: if needs_blending {
                        alpha_blend_mode
                    } else {
                        BlendMode::NoBlend
                    },
                    kind: BatchKind::Brush(batch_kind),
                    textures,
                };

                let all_flags = brush_flags.union(
                    BrushFlags::from_bits(BRUSH_PERSPECTIVE_INTERPOLATION),
                ).union(segment.brush_flags);
                proof {
                    let a = brush_flags.bits;
                    let c = segment.brush_flags.bits;
                    if (features.bits & FEATURE_REPETITION) == FEATURE_REPETITION {
                        assert(((a | 1u16) | c) & 128u16 == 0) by (bit_vector)
                            requires
                                a & 128u16 == 0,
                                c & 128u16 == 0,
                        ;
                    }
                }
                self.add_brush_instance_to_batches(
                    batch_key,
                    features,
                    bounding_rect,
                    z_id,
                    segment_index,
                    segment.edge_flags.intersect(edge_aa_mask),
                    clip_task_address,
                    all_flags,
                    prim_header_index,
                    segment_data.specific_resource_address,
                );
            }
            None => {
            }
        }
    }

    /// Fan a brush primitive out into instances: one per segment when a
    /// segment list is present (zipped with per-segment data when that is
    /// instanced), exactly one for the whole primitive otherwise. The
    /// fourth combination, per-segment data without segments, is an
    /// upstream invariant violation and is ruled out by precondition.
    pub fn add_segmented_prim_to_batch(
        &mut self,
        brush_segments: Option<&Vec<BrushSegment>>,
        prim_is_opaque: bool,
        params: &BrushBatchParameters,
        blend_mode: BlendMode,
        features: BatchFeatures,
        brush_flags: BrushFlags,
        edge_aa_mask: EdgeAaSegmentMask,
        prim_header_index: PrimitiveHeaderIndex,
        bounding_rect: &Rect,
        transform_kind: TransformedRectKind,
        z_id: ZBufferId,
        clip_task_index: ClipTaskIndex,
        ctx: &RenderTargetContext,
        render_tasks: &RenderTaskGraph,
    )
        requires
            old(self).batcher.wf(),
            bounding_rect.wf(),
            ctx.wf(*render_tasks),
            !(brush_segments is None && params.segment_data is Instanced),
            match brush_segments {
                Some(segs) => {
                    &&& old(self).batcher.spec_room(segs@.len() as int)
                    &&& clip_task_index.base_of() + segs@.len()
                        <= ctx.clip_mask_instances@.len()
                    &&& segs@.len() < 0x7fffffff
                    &&& (params.segment_data matches SegmentDataKind::Instanced(d) ==> d@.len()
                        == segs@.len())
                    &&& (features.bits & FEATURE_REPETITION) == FEATURE_REPETITION
                        ==> (brush_flags.bits & BRUSH_NORMALIZED_UVS) == 0 && forall|i: int|
                        0 <= i < segs@.len() ==> ((#[trigger] segs@[i]).brush_flags.bits
                            & BRUSH_NORMALIZED_UVS) == 0
                }
                None => {
                    &&& old(self).batcher.spec_room(1)
                    &&& clip_task_index.base_of() < ctx.clip_mask_instances@.len()
                    &&& ctx.spec_clip_emits(clip_task_index.base_of())
                    &&& ((features.bits & FEATURE_REPETITION) == FEATURE_REPETITION
                        ==> (brush_flags.bits & BRUSH_NORMALIZED_UVS) == 0)
                }
            },
        ensures
            final(self).batcher.wf(),
            batcher_config_kept(old(self).batcher, final(self).batcher),
            match brush_segments {
                Some(segs) => {
                    &&& builder_total(final(self).batcher) == builder_total(old(self).batcher)
                        + emitted_in_range(*ctx, clip_task_index.base_of(), segs@.len() as int)
                    &&& batcher_lens_grow(
                        old(self).batcher,
                        final(self).batcher,
                        segs@.len() as int,
                    )
                    &&& builder_emissions(final(self).batcher) == builder_emissions(
                        old(self).batcher,
                    ).add(
                        expected_segment_emissions(
                            segs@,
                            params.segment_data,
                            segs@.len() as int,
                            params.batch_kind,
                            blend_mode,
                            prim_is_opaque,
                            transform_kind,
                            prim_header_index,
                            edge_aa_mask,
                            brush_flags,
                            *ctx,
                            *render_tasks,
                            clip_task_index.base_of(),
                        ),
                    )
                }
                None => {
                    &&& builder_total(final(self).batcher) == builder_total(old(self).batcher)
                        + 1
                    &&& batcher_lens_grow(old(self).batcher, final(self).batcher, 1)
                    &&& (params.segment_data matches SegmentDataKind::Shared(d) && (ctx
                        .spec_clip_task(*render_tasks, clip_task_index.base_of()) matches Some(
                        clip,
                    ) && {
                        let key = BatchKey {
                            blend_mode,
                            kind: BatchKind::Brush(params.batch_kind),
                            textures: BatchTextures { input: d.textures, clip_mask: clip.1 },
                        };
                        let record = PrimitiveInstanceData::Brush(
                            BrushInstance {
                                prim_header_index,
                                clip_task_address: clip.0,
                                segment_index: INVALID_SEGMENT_INDEX,
                                edge_flags: edge_aa_mask,
                                brush_flags: BrushFlags {
                                    bits: brush_flags.bits | BRUSH_PERSPECTIVE_INTERPOLATION,
                                },
                                resource_address: d.specific_resource_address,
                            },
                        );
                        &&& builder_emissions(final(self).batcher) == builder_emissions(
                            old(self).batcher,
                        ).insert((key.kind, key.blend_mode, record))
                        &&& (blend_mode.spec_needs_alpha_list() ==> (exists|idx: usize|
                            alpha_list_stepped(
                                old(self).batcher.alpha_batch_list,
                                final(self).batcher.alpha_batch_list,
                                idx,
                                key,
                                features,
                                *bounding_rect,
                                z_id,
                                seq![record],
                            )) && final(self).batcher.opaque_batch_list == old(
                            self,
                        ).batcher.opaque_batch_list)
                        &&& (!blend_mode.spec_needs_alpha_list() ==> (exists|idx: usize|
                            opaque_list_stepped(
                                old(self).batcher.opaque_batch_list,
                                final(self).batcher.opaque_batch_list,
                                idx,
                                key,
                                features,
                                *bounding_rect,
                                seq![record],
                            )) && final(self).batcher.alpha_batch_list == old(
                            self,
                        ).batcher.alpha_batch_list)
                    }))
                }
            },
    {
        match brush_segments {
            Some(segs) => {
                let n = segs.len();
                proof {
                    broadcast use vstd::multiset::group_multiset_axioms;

                    assert(builder_emissions(self.batcher) =~= builder_emissions(
                        self.batcher,
                    ).add(Multiset::empty()));
                }
                let mut i: usize = 0;
                while i < n
                    invariant
                        n == segs@.len(),
                        0 <= i <= n,
                        self.batcher.wf(),
                        batcher_config_kept(old(self).batcher, self.batcher),
                        batcher_lens_grow(old(self).batcher, self.batcher, i as int),
                        builder_total(self.batcher) == builder_total(old(self).batcher)
                            + emitted_in_range(*ctx, clip_task_index.base_of(), i as int),
                        builder_emissions(self.batcher) == builder_emissions(
                            old(self).batcher,
                        ).add(
                            expected_segment_emissions(
                                segs@,
                                params.segment_data,
                                i as int,
                                params.batch_kind,
                                blend_mode,
                                prim_is_opaque,
                                transform_kind,
                                prim_header_index,
                                edge_aa_mask,
                                brush_flags,
                                *ctx,
                                *render_tasks,
                                clip_task_index.base_of(),
                            ),
                        ),
                        old(self).batcher.spec_room(n as int),
                        n < 0x7fffffff,
                        clip_task_index.base_of() + n <= ctx.clip_mask_instances@.len(),
                        ctx.wf(*render_tasks),
                        bounding_rect.wf(),
                        params.segment_data matches SegmentDataKind::Instanced(d) ==> d@.len()
                            == n,
                        (features.bits & FEATURE_REPETITION) == FEATURE_REPETITION
                            ==> (brush_flags.bits & BRUSH_NORMALIZED_UVS) == 0 && forall|k: int|
                            0 <= k < n ==> ((#[trigger] segs@[k]).brush_flags.bits
                                & BRUSH_NORMALIZED_UVS) == 0,
                    decreases n - i,
                {
                    let segment = &segs[i];
                    let seg_data = match &params.segment_data {
                        SegmentDataKind::Instanced(d) => &d[i],
                        SegmentDataKind::Shared(d) => d,
                    };
                    proof {
                        assert(*seg_data == spec_seg_data_at(params.segment_data, i as int));
                    }
                    let ghost pre_emissions = builder_emissions(self.batcher);
                    self.add_segment_to_batch(
                        segment,
                        seg_data,
                        i as i32,
                        params.batch_kind,
                        prim_header_index,
                        blend_mode,
                        features,
                        brush_flags,
                        edge_aa_mask,
                        bounding_rect,
                        transform_kind,
                        z_id,
                        prim_is_opaque,
                        clip_task_index,
                        ctx,
                        render_tasks,
                    );
                    proof {
                        broadcast use vstd::multiset::group_multiset_axioms;

                        let base = clip_task_index.base_of();
                        let exp_i = expected_segment_emissions(
                            segs@,
                            params.segment_data,
                            i as int,
                            params.batch_kind,
                            blend_mode,
                            prim_is_opaque,
                            transform_kind,
                            prim_header_index,
                            edge_aa_mask,
                            brush_flags,
                            *ctx,
                            *render_tasks,
                            base,
                        );
                        let exp_next = expected_segment_emissions(
                            segs@,
                            params.segment_data,
                            i as int + 1,
                            params.batch_kind,
                            blend_mode,
                            prim_is_opaque,
                            transform_kind,
                            prim_header_index,
                            edge_aa_mask,
                            brush_flags,
                            *ctx,
                            *render_tasks,
                            base,
                        );
                        if ctx.spec_clip_emits(base + i as int) {
                            assert(builder_emissions(self.batcher) =~= builder_emissions(
                                old(self).batcher,
                            ).add(exp_next));
                        } else {
                            assert(exp_next == exp_i);
                        }
                    }
                    i = i + 1;
                }
            }
            None => {
                match &params.segment_data {
                    SegmentDataKind::Shared(segment_data) => {
                        let clip = ctx.get_prim_clip_task_and_texture(
                            clip_task_index,
                            render_tasks,
                        );
                        let (clip_task_address, clip_mask) = match clip {
                            Some(pair) => pair,
                            None => {
                                proof {
                                    assert(false);
                                }
                                (0u32, TextureSource::Invalid)
                            }
                        };

                        let textures = BatchTextures { input: segment_data.textures, clip_mask };

                        let batch_key = BatchKey {
                            blend_mode,
                            kind: BatchKind::Brush(params.batch_kind),
                            textures,
                        };

                        let all_flags = brush_flags.union(
                            BrushFlags::from_bits(BRUSH_PERSPECTIVE_INTERPOLATION),
                        );
                        proof {
                            let a = brush_flags.bits;
                            if (features.bits & FEATURE_REPETITION) == FEATURE_REPETITION {
                                assert((a | 1u16) & 128u16 == 0) by (bit_vector)
                                    requires
                                        a & 128u16 == 0,
                                ;
                            }
                        }
                        self.add_brush_instance_to_batches(
                            batch_key,
                            features,
                            bounding_rect,
                            z_id,
                            crate::gpu::INVALID_SEGMENT_INDEX,
                            edge_aa_mask,
                            clip_task_address,
                            all_flags,
                            prim_header_index,
                            segment_data.specific_resource_address,
                        );
                    }
                    SegmentDataKind::Instanced(_) => {
                        proof {
                            assert(false);
                        }
                    }
                }
            }
        }
    }
}

impl BatchBuilder {
    /// Draw a (potentially masked) alpha cutout where a compositor
    /// underlay surface will be blended through by the compositor.
    fn add_compositor_surface_cutout(
        &mut self,
        prim_rect: Rect,
        local_clip_rect: Rect,
        clip_task_index: ClipTaskIndex,
        transform_id: TransformPaletteId,
        z_id: ZBufferId,
        bounding_rect: &Rect,
        ctx: &RenderTargetContext,
        gpu_cache: &GpuCache,
        render_tasks: &RenderTaskGraph,
        prim_headers: &mut PrimitiveHeaders,
    )
        requires
            old(self).batcher.wf(),
            old(self).batcher.spec_room(1),
            bounding_rect.wf(),
            ctx.wf(*render_tasks),
            clip_task_index.base_of() < ctx.clip_mask_instances@.len(),
            ctx.spec_clip_emits(clip_task_index.base_of()),
            old(prim_headers).headers@.len() < 0x7fffffff,
        ensures
            final(self).batcher.wf(),
            batcher_config_kept(old(self).batcher, final(self).batcher),
            batcher_lens_grow(old(self).batcher, final(self).batcher, 1),
            builder_total(final(self).batcher) == builder_total(old(self).batcher) + 1,
            final(prim_headers).headers@.len() == old(prim_headers).headers@.len() + 1,
            (ctx.spec_clip_task(*render_tasks, clip_task_index.base_of()) matches Some(clip) && {
                let key = BatchKey {
                    blend_mode: BlendMode::PremultipliedDestOut,
                    kind: BatchKind::Brush(BrushBatchKind::Solid),
                    textures: BatchTextures {
                        input: TextureSet::spec_untextured(),
                        clip_mask: clip.1,
                    },
                };
                let record = PrimitiveInstanceData::Brush(
                    BrushInstance {
                        prim_header_index: PrimitiveHeaderIndex(
                            old(prim_headers).headers@.len() as i32,
                        ),
                        clip_task_address: clip.0,
                        segment_index: INVALID_SEGMENT_INDEX,
                        edge_flags: EdgeAaSegmentMask { bits: 0 },
                        brush_flags: BrushFlags { bits: 0 },
                        resource_address: 0,
                    },
                );
                &&& builder_emissions(final(self).batcher) == builder_emissions(
                    old(self).batcher,
                ).insert((key.kind, key.blend_mode, record))
                &&& (exists|idx: usize|
                    alpha_list_stepped(
                        old(self).batcher.alpha_batch_list,
                        final(self).batcher.alpha_batch_list,
                        idx,
                        key,
                        BatchFeatures { bits: FEATURE_ALPHA_PASS | FEATURE_CLIP_MASK },
                        *bounding_rect,
                        z_id,
                        seq![record],
                    ))
                &&& final(self).batcher.opaque_batch_list == old(self).batcher.opaque_batch_list
            }),
    {
        let prim_cache_address = gpu_cache.get_address(&ctx.default_black_rect_handle);

        let clip = ctx.get_prim_clip_task_and_texture(clip_task_index, render_tasks);
        let (clip_task_address, clip_mask_texture_id) = match clip {
            Some(pair) => pair,
            None => {
                proof {
                    assert(false);
                }
                (0u32, TextureSource::Invalid)
            }
        };

        let prim_header = PrimitiveHeader {
            local_rect: prim_rect,
            local_clip_rect,
            specific_prim_address: prim_cache_address,
            transform_id,
        };
        let task_address = self.batcher.render_task_address;
        let prim_header_index = prim_headers.push(
            &prim_header,
            z_id,
            task_address,
            PrimUserData { data0: SHADER_OPACITY_FULL, data1: 0, data2: 0, data3: 0 },
        );

        let batch_key = BatchKey {
            blend_mode: BlendMode::PremultipliedDestOut,
            kind: BatchKind::Brush(BrushBatchKind::Solid),
            textures: BatchTextures::prim_untextured(clip_mask_texture_id),
        };

        let features = BatchFeatures::from_bits(FEATURE_ALPHA_PASS | FEATURE_CLIP_MASK);
        proof {
            assert((0u16 & 128u16) != 128u16) by (bit_vector);
            assert(batch_key.textures == (BatchTextures {
                input: TextureSet::spec_untextured(),
                clip_mask: clip_mask_texture_id,
            }));
            assert(features == (BatchFeatures { bits: FEATURE_ALPHA_PASS | FEATURE_CLIP_MASK }));
        }
        self.add_brush_instance_to_batches(
            batch_key,
            features,
            bounding_rect,
            z_id,
            crate::gpu::INVALID_SEGMENT_INDEX,
            EdgeAaSegmentMask::empty(),
            clip_task_address,
            BrushFlags::empty(),
            prim_header_index,
            0,
        );
    }
}

/// Total number of glyphs over the texture groups of a text run.
pub open spec fn glyph_total(groups: Seq<GlyphGroup>) -> int
    decreases groups.len(),
{
    if groups.len() == 0 {
        0
    } else {
        glyph_total(groups.drop_last()) + groups.last().glyphs@.len()
    }
}

/// How many segments a stored segment decomposition holds, if the
/// primitive has one.
pub open spec fn sii_count(sii: SegmentInstanceIndex, store: SegmentStore) -> Option<int> {
    match sii {
        SegmentInstanceIndex::At(i) => Some(store.segment_instances@[i as int].segments_len as int),
        _ => None::<int>,
    }
}

/// Instances emitted by the common fan-out: one per admitted segment, or
/// exactly one when there is no segment list.
pub open spec fn segmented_emission(ctx: RenderTargetContext, base: int, count: Option<int>) -> int {
    match count {
        Some(n) => emitted_in_range(ctx, base, n),
        None => 1,
    }
}

/// Whether a visible primitive is flagged as the render target's backdrop.
pub open spec fn spec_is_backdrop(state: VisibilityState) -> bool {
    state matches VisibilityState::Visible { vis_flags } && (vis_flags & VIS_IS_BACKDROP)
        == VIS_IS_BACKDROP
}

/// How many GPU instance records one visible, non-backdrop primitive
/// contributes to the batch lists.
pub open spec fn kind_emission(
    cmd: PrimitiveCommand,
    prim: PrimitiveInstance,
    ctx: RenderTargetContext,
    tasks: RenderTaskGraph,
    store: SegmentStore,
) -> int {
    let base = prim.vis.clip_task_index.base_of();
    match prim.kind {
        PrimitiveInstanceKind::Picture { picture } => {
            if picture.snapshot_detached {
                0
            } else {
                match picture.composite_mode {
                    Some(PictureCompositeMode::TileCache) => 0,
                    Some(PictureCompositeMode::IntermediateSurface) => 0,
                    Some(PictureCompositeMode::Filter(Filter::DropShadows(shadows))) => shadows@.len() as int + 1,
                    Some(PictureCompositeMode::Filter(_)) => 1,
                    Some(PictureCompositeMode::MixBlend(_)) => 1,
                    Some(PictureCompositeMode::Blit) => match picture.context_3d {
                        Picture3DContext::InChild => match cmd {
                            PrimitiveCommand::Complex { .. } => 1,
                            PrimitiveCommand::Instance { .. } => 1,
                            _ => 0,
                        },
                        Picture3DContext::Out => 1,
                        Picture3DContext::InRoot => 0,
                    },
                    Some(PictureCompositeMode::SvgFilter) => 1,
                    None => 0,
                }
            }
        }
        PrimitiveInstanceKind::Rectangle { segment_instance_index } => segmented_emission(
            ctx,
            base,
            sii_count(segment_instance_index, store),
        ),
        PrimitiveInstanceKind::YuvImage {
            format,
            src_yuv0,
            src_yuv1,
            src_yuv2,
            segment_instance_index,
            compositor_surface_kind,
            ..
        } => {
            if compositor_surface_kind is Underlay {
                1
            } else {
                let planes = format.spec_plane_num() as int;
                if (planes >= 1 ==> tasks.spec_location(src_yuv0) is Some) && (planes >= 2
                    ==> tasks.spec_location(src_yuv1) is Some) && (planes >= 3
                    ==> tasks.spec_location(src_yuv2) is Some) {
                    segmented_emission(ctx, base, sii_count(segment_instance_index, store))
                } else {
                    0
                }
            }
        }
        PrimitiveInstanceKind::Image {
            src_color,
            segment_instance_index,
            visible_tiles,
            compositor_surface_kind,
            ..
        } => {
            if compositor_surface_kind is Underlay {
                1
            } else if visible_tiles@.len() == 0 {
                if tasks.spec_location(src_color) is Some {
                    segmented_emission(ctx, base, sii_count(segment_instance_index, store))
                } else {
                    0
                }
            } else {
                visible_tiles@.len() as int
            }
        }
        PrimitiveInstanceKind::TextRun { glyph_groups, .. } => glyph_total(glyph_groups@),
        PrimitiveInstanceKind::LineDecoration { .. } => 1,
        PrimitiveInstanceKind::LinearGradient { visible_tiles, brush_segments, .. } => {
            if visible_tiles@.len() == 0 {
                if brush_segments@.len() == 0 {
                    1
                } else {
                    emitted_in_range(ctx, base, brush_segments@.len() as int)
                }
            } else {
                visible_tiles@.len() as int
            }
        }
        PrimitiveInstanceKind::CachedLinearGradient { src_color, visible_tiles, brush_segments }
        | PrimitiveInstanceKind::RadialGradient { src_color, visible_tiles, brush_segments }
        | PrimitiveInstanceKind::ConicGradient { src_color, visible_tiles, brush_segments } => {
            if tasks.spec_location(src_color) is None {
                0
            } else if visible_tiles@.len() == 0 {
                if brush_segments@.len() == 0 {
                    1
                } else {
                    emitted_in_range(ctx, base, brush_segments@.len() as int)
                }
            } else {
                visible_tiles@.len() as int
            }
        }
        PrimitiveInstanceKind::ImageBorder { src_color, brush_segments } => {
            if tasks.spec_location(src_color) is None {
                0
            } else if brush_segments@.len() == 0 {
                1
            } else {
                emitted_in_range(ctx, base, brush_segments@.len() as int)
            }
        }
        PrimitiveInstanceKind::NormalBorder { brush_segments, .. } => emitted_in_range(
            ctx,
            base,
            brush_segments@.len() as int,
        ),
        PrimitiveInstanceKind::Clear => 1,
        PrimitiveInstanceKind::BoxShadow => 0,
        PrimitiveInstanceKind::BackdropCapture => 0,
        PrimitiveInstanceKind::BackdropRender { .. } => 1,
    }
}

/// No segment in the sequence carries the normalized-UV flag; repetition
/// and normalized UVs cannot be combined.
pub open spec fn segs_norm_free(s: Seq<BrushSegment>) -> bool {
    forall|i: int| 0 <= i < s.len() ==> ((#[trigger] s[i]).brush_flags.bits
        & BRUSH_NORMALIZED_UVS) == 0
}

/// The brush-flag values the dispatch builds never set the normalized-UV
/// bit unless an image explicitly asks for it.
proof fn lemma_norm_bit_clear(a: u16)
    requires
        a == 0 || a == 1 || a == 256 || a == 257,
    ensures
        (a & BRUSH_NORMALIZED_UVS) == 0,
{
    assert((a & 128u16) == 0) by (bit_vector)
        requires
            a == 0 || a == 1 || a == 256 || a == 257,
    ;
}

/// Flag unions keep the normalized-UV bit clear when both sides do.
proof fn lemma_union_norm_clear(a: u16, b: u16)
    requires
        (a & BRUSH_NORMALIZED_UVS) == 0,
        (b & BRUSH_NORMALIZED_UVS) == 0,
    ensures
        ((a | b) & BRUSH_NORMALIZED_UVS) == 0,
{
    assert(((a | b) & 128u16) == 0) by (bit_vector)
        requires
            a & 128u16 == 0,
            b & 128u16 == 0,
    ;
}

/// The constant brush flags the dispatch combines never carry the
/// normalized-UV bit.
proof fn lemma_flag_constants()
    ensures
        (BRUSH_PERSPECTIVE_INTERPOLATION & BRUSH_NORMALIZED_UVS) == 0,
        ((BRUSH_SEGMENT_RELATIVE | BRUSH_PERSPECTIVE_INTERPOLATION) & BRUSH_NORMALIZED_UVS) == 0,
{
    assert((1u16 & 128u16) == 0 && ((2u16 | 1u16) & 128u16) == 0) by (bit_vector);
}

/// Feature bits are disjoint, so the repetition bit of their union is
/// exactly the repetition contribution.
proof fn lemma_features_rep_bit(x4: u8, x2: u8, x8: u8)
    requires
        x4 == 0 || x4 == 4,
        x2 == 0 || x2 == 2,
        x8 == 0 || x8 == 8,
    ensures
        (((x4 | x2) | x8) & FEATURE_REPETITION) == x4,
{
    assert((((x4 | x2) | x8) & 4u8) == x4) by (bit_vector)
        requires
            x4 == 0 || x4 == 4,
            x2 == 0 || x2 == 2,
            x8 == 0 || x8 == 8,
    ;
}

/// Conditions on a primitive's segment decomposition reference.
pub open spec fn seg_conditions(
    sii: SegmentInstanceIndex,
    prim: PrimitiveInstance,
    ctx: RenderTargetContext,
    store: SegmentStore,
) -> bool {
    let base = prim.vis.clip_task_index.base_of();
    match sii {
        SegmentInstanceIndex::At(i) => {
            &&& (i as int) < store.segment_instances@.len()
            &&& base + store.segment_instances@[i as int].segments_len
                <= ctx.clip_mask_instances@.len()
            &&& store.segment_instances@[i as int].segments_len < 0x10000
        }
        SegmentInstanceIndex::Unused => {
            &&& prim.common.gpu_cache_handle.address is Some
            &&& ctx.spec_clip_emits(base)
        }
        SegmentInstanceIndex::Invalid => false,
    }
}

/// Conditions on a gradient's own segment list and visible tiles.
pub open spec fn gradient_conditions(
    visible_tiles: Seq<crate::prim::VisibleGradientTile>,
    brush_segments: Seq<BrushSegment>,
    prim: PrimitiveInstance,
    ctx: RenderTargetContext,
) -> bool {
    let base = prim.vis.clip_task_index.base_of();
    &&& segs_norm_free(brush_segments)
    &&& brush_segments.len() < 0x10000
    &&& (visible_tiles.len() == 0 ==> {
        &&& base + brush_segments.len() <= ctx.clip_mask_instances@.len()
        &&& (brush_segments.len() == 0 ==> ctx.spec_clip_emits(base))
    })
    &&& (visible_tiles.len() > 0 ==> {
        &&& visible_tiles.len() < 0x10000
        &&& ctx.spec_clip_emits(base)
        &&& forall|i: int| 0 <= i < visible_tiles.len()
            ==> (#[trigger] visible_tiles[i]).handle.address is Some
    })
}

/// The per-kind preconditions of the dispatch, for a visible, non-backdrop
/// primitive: everything the arm unwraps must be present, and everything
/// it indexes must be in range.
pub open spec fn arm_wf(
    cmd: PrimitiveCommand,
    prim: PrimitiveInstance,
    ctx: RenderTargetContext,
    tasks: RenderTaskGraph,
    store: SegmentStore,
) -> bool {
    let base = prim.vis.clip_task_index.base_of();
    let cliplen = ctx.clip_mask_instances@.len() as int;
    match prim.kind {
        PrimitiveInstanceKind::Picture { picture } => {
            &&& picture.composite_mode is Some
            &&& (picture.primary_render_task_id matches Some(tid) && tasks.spec_contains(tid))
            &&& (!picture.snapshot_detached ==> match picture.composite_mode {
                Some(PictureCompositeMode::TileCache) => true,
                Some(PictureCompositeMode::IntermediateSurface) => true,
                Some(m) => {
                    &&& tasks.spec_location(picture.primary_render_task_id->0) is Some
                    &&& ctx.spec_clip_emits(base)
                    &&& (m matches PictureCompositeMode::Filter(Filter::DropShadows(sh)) ==> {
                        &&& (picture.secondary_render_task_id matches Some(sid)
                            && tasks.spec_contains(sid))
                        &&& sh@.len() < 0x10000
                        &&& forall|i: int| 0 <= i < sh@.len() ==> (#[trigger] sh@[i]).address
                            is Some
                    })
                    &&& (m is MixBlend ==> (picture.secondary_render_task_id matches Some(sid2)
                        && tasks.spec_contains(sid2)))
                    &&& (m is Blit ==> !(picture.context_3d is InRoot))
                }
                None => true,
            })
        }
        PrimitiveInstanceKind::Rectangle { segment_instance_index } => seg_conditions(
            segment_instance_index,
            prim,
            ctx,
            store,
        ),
        PrimitiveInstanceKind::YuvImage {
            format,
            src_yuv0,
            src_yuv1,
            src_yuv2,
            segment_instance_index,
            compositor_surface_kind,
            ..
        } => {
            &&& seg_conditions(segment_instance_index, prim, ctx, store)
            &&& (compositor_surface_kind is Underlay ==> ctx.spec_clip_emits(base))
            &&& (!(compositor_surface_kind is Underlay) ==> {
                &&& (format.spec_plane_num() >= 1 ==> tasks.spec_contains(src_yuv0))
                &&& (format.spec_plane_num() >= 2 ==> tasks.spec_contains(src_yuv1))
                &&& (format.spec_plane_num() >= 3 ==> tasks.spec_contains(src_yuv2))
                &&& prim.common.gpu_cache_handle.address is Some
            })
        }
        PrimitiveInstanceKind::Image {
            src_color,
            segment_instance_index,
            visible_tiles,
            normalized_uvs,
            compositor_surface_kind,
            ..
        } => {
            &&& (compositor_surface_kind is Underlay ==> ctx.spec_clip_emits(base))
            &&& (!(compositor_surface_kind is Underlay) ==> {
                &&& tasks.spec_contains(src_color)
                &&& (normalized_uvs ==> !prim.common.may_need_repetition)
                &&& prim.common.gpu_cache_handle.address is Some
                &&& (visible_tiles@.len() == 0 ==> (tasks.spec_location(src_color) is Some
                    ==> seg_conditions(segment_instance_index, prim, ctx, store)))
                &&& (visible_tiles@.len() > 0 ==> {
                    &&& visible_tiles@.len() < 0x10000
                    &&& ctx.spec_clip_emits(base)
                    &&& forall|i: int| 0 <= i < visible_tiles@.len() ==> tasks.spec_contains(
                        (#[trigger] visible_tiles@[i]).src_color,
                    ) && tasks.spec_location(visible_tiles@[i].src_color) is Some
                })
            })
        }
        PrimitiveInstanceKind::TextRun { glyph_groups, .. } => {
            &&& prim.common.gpu_cache_handle.address is Some
            &&& ctx.spec_clip_emits(base)
            &&& glyph_groups@.len() < 0x10000
            &&& glyph_total(glyph_groups@) < 0x10000
            &&& forall|g: int| 0 <= g < glyph_groups@.len() ==> {
                &&& (#[trigger] glyph_groups@[g]).glyphs@.len() < 0x10000
                &&& glyph_groups@[g].texture_id != TextureSource::Invalid
                &&& (glyph_groups@[g].glyph_format == GlyphFormat::Subpixel
                    || glyph_groups@[g].glyph_format == GlyphFormat::TransformedSubpixel
                    ==> ctx.use_dual_source_blending)
            }
        }
        PrimitiveInstanceKind::LineDecoration { render_task } => {
            &&& prim.common.gpu_cache_handle.address is Some
            &&& ctx.spec_clip_emits(base)
            &&& (render_task matches Some(id) ==> (tasks.spec_contains(id)
                && tasks.spec_location(id) is Some))
        }
        PrimitiveInstanceKind::LinearGradient {
            gpu_cache_handle,
            extra_gpu_address_required,
            visible_tiles,
            brush_segments,
        } => {
            &&& (cmd matches PrimitiveCommand::Complex { .. } || cmd
                matches PrimitiveCommand::Instance { .. })
            &&& gpu_cache_handle.address is Some
            &&& gradient_conditions(visible_tiles@, brush_segments@, prim, ctx)
        }
        PrimitiveInstanceKind::CachedLinearGradient { src_color, visible_tiles, brush_segments }
        | PrimitiveInstanceKind::RadialGradient { src_color, visible_tiles, brush_segments }
        | PrimitiveInstanceKind::ConicGradient { src_color, visible_tiles, brush_segments } => {
            &&& tasks.spec_contains(src_color)
            &&& prim.common.gpu_cache_handle.address is Some
            &&& gradient_conditions(visible_tiles@, brush_segments@, prim, ctx)
        }
        PrimitiveInstanceKind::ImageBorder { src_color, brush_segments } => {
            &&& tasks.spec_contains(src_color)
            &&& prim.common.gpu_cache_handle.address is Some
            &&& segs_norm_free(brush_segments@)
            &&& brush_segments@.len() < 0x10000
            &&& base + brush_segments@.len() <= cliplen
            &&& (brush_segments@.len() == 0 ==> ctx.spec_clip_emits(base))
        }
        PrimitiveInstanceKind::NormalBorder { border_task_ids, brush_segments } => {
            &&& prim.common.gpu_cache_handle.address is Some
            &&& border_task_ids@.len() == brush_segments@.len()
            &&& brush_segments@.len() < 0x10000
            &&& base + brush_segments@.len() <= cliplen
            &&& segs_norm_free(brush_segments@)
            &&& forall|i: int| 0 <= i < border_task_ids@.len() ==> tasks.spec_contains(
                #[trigger] border_task_ids@[i],
            ) && tasks.spec_location(border_task_ids@[i]) is Some
        }
        PrimitiveInstanceKind::Clear => {
            &&& prim.common.gpu_cache_handle.address is Some
            &&& ctx.spec_clip_emits(base)
        }
        PrimitiveInstanceKind::BoxShadow => false,
        PrimitiveInstanceKind::BackdropCapture => true,
        PrimitiveInstanceKind::BackdropRender { pic_task_id } => {
            &&& tasks.spec_contains(pic_task_id)
            &&& tasks.spec_location(pic_task_id) is Some
            &&& ctx.spec_clip_emits(base)
        }
    }
}

/// All the dispatch's preconditions for one command: the named primitive
/// exists, its visibility state is legal, and the data its arm reads is
/// present and in range.
pub open spec fn prim_wf(
    cmd: PrimitiveCommand,
    prim: PrimitiveInstance,
    ctx: RenderTargetContext,
    tasks: RenderTaskGraph,
    store: SegmentStore,
) -> bool {
    match cmd {
        PrimitiveCommand::Quad { src_color_task_id, .. } => {
            &&& prim.vis.pic_coverage_rect.wf()
            &&& tasks.spec_contains(src_color_task_id)
            &&& tasks.spec_location(src_color_task_id) is Some
        }
        _ => {
            &&& !(prim.vis.state is Unset)
            &&& !(prim.vis.state is PassThrough)
            &&& (prim.vis.state is Visible ==> {
                &&& prim.vis.pic_coverage_rect.wf()
                &&& prim.vis.clip_task_index.base_of() < ctx.clip_mask_instances@.len()
                &&& (!spec_is_backdrop(prim.vis.state) ==> arm_wf(cmd, prim, ctx, tasks, store))
            })
        }
    }
}

/// Copy one stored segment decomposition out of the scratch store.
fn collect_store_segments(store: &SegmentStore, i: usize) -> (r: Vec<BrushSegment>)
    requires
        store.wf(),
        (i as int) < store.segment_instances@.len(),
    ensures
        r@.len() == store.segment_instances@[i as int].segments_len,
        segs_norm_free(r@),
{
    let start = store.segment_instances[i].segments_start;
    let len = store.segment_instances[i].segments_len;
    let total = store.segments.len();
    let mut out: Vec<BrushSegment> = Vec::new();
    let mut k: usize = 0;
    while k < len
        invariant
            store.wf(),
            (i as int) < store.segment_instances@.len(),
            start == store.segment_instances@[i as int].segments_start,
            len == store.segment_instances@[i as int].segments_len,
            total == store.segments@.len(),
            start + len <= total,
            0 <= k <= len,
            out@.len() == k,
            segs_norm_free(out@),
        decreases len - k,
    {
        out.push(store.segments[start + k]);
        k = k + 1;
    }
    out
}

/// Every group contributes a non-negative glyph count, so prefix totals
/// are monotone.
pub proof fn lemma_glyph_total_mono(groups: Seq<GlyphGroup>, g: int, h: int)
    requires
        0 <= g <= h <= groups.len(),
    ensures
        0 <= glyph_total(groups.subrange(0, g)) <= glyph_total(groups.subrange(0, h)),
    decreases h - g,
{
    if g == h {
        lemma_glyph_total_nonneg(groups.subrange(0, g));
    } else {
        lemma_glyph_total_mono(groups, g, h - 1);
        assert(groups.subrange(0, h).drop_last() =~= groups.subrange(0, h - 1));
    }
}

/// A glyph total is never negative.
pub proof fn lemma_glyph_total_nonneg(groups: Seq<GlyphGroup>)
    ensures
        glyph_total(groups) >= 0,
    decreases groups.len(),
{
    if groups.len() > 0 {
        lemma_glyph_total_nonneg(groups.drop_last());
    }
}

/// The shader index of a mix-blend mode.
fn mix_blend_mode_index(mode: MixBlendMode) -> i32 {
    match mode {
        MixBlendMode::Multiply => 1,
        MixBlendMode::Screen => 2,
        MixBlendMode::Overlay => 3,
        MixBlendMode::Darken => 4,
        MixBlendMode::Lighten => 5,
        MixBlendMode::ColorDodge => 6,
        MixBlendMode::ColorBurn => 7,
        MixBlendMode::HardLight => 8,
        MixBlendMode::SoftLight => 9,
        MixBlendMode::Difference => 10,
        MixBlendMode::Exclusion => 11,
        MixBlendMode::Hue => 12,
        MixBlendMode::Saturation => 13,
        MixBlendMode::Color => 14,
        MixBlendMode::Luminosity => 15,
        MixBlendMode::PlusLighter => 16,
    }
}

impl BatchBuilder {
    /// Translate one primitive command into zero or more GPU instance
    /// records and push them into this render target's batch lists.
    ///
    /// A culled primitive changes nothing. A visible backdrop discards
    /// every batch accumulated so far, since everything before it is
    /// invisible. Every other visible primitive contributes exactly
    /// [`kind_emission`] records, dispatched on its kind.
    #[verifier::rlimit(100)]
    #[verifier::spinoff_prover]
    pub fn add_prim_to_batch(
        &mut self,
        cmd: &PrimitiveCommand,
        prim_spatial_node_index: usize,
        ctx: &RenderTargetContext,
        gpu_cache: &mut GpuCache,
        render_tasks: &RenderTaskGraph,
        prim_headers: &mut PrimitiveHeaders,
        transforms: &mut TransformPalette,
        z_generator: &mut ZBufferIdGenerator,
        prim_instances: &Vec<PrimitiveInstance>,
        segment_store: &SegmentStore,
        segments: &Vec<RenderTaskId>,
    )
        requires
            old(self).batcher.wf(),
            old(self).batcher.spec_room(0x20000),
            cmd.spec_prim_index() < prim_instances@.len(),
            ctx.wf(*render_tasks),
            segment_store.wf(),
            ctx.spatial_tree.spec_contains(prim_spatial_node_index),
            old(transforms).interned < 0x10000000,
            old(z_generator).next_id < 0x10000000,
            old(prim_headers).headers@.len() < 0x10000000,
            old(gpu_cache).next_frame_address < 0x10000000,
            segments@.len() < 0x10000,
            prim_wf(
                *cmd,
                prim_instances@[cmd.spec_prim_index() as int],
                *ctx,
                *render_tasks,
                *segment_store,
            ),
        ensures
            final(self).batcher.wf(),
            batcher_config_kept(old(self).batcher, final(self).batcher),
            ({
                let prim = prim_instances@[cmd.spec_prim_index() as int];
                match *cmd {
                    PrimitiveCommand::Quad { .. } => builder_total(final(self).batcher)
                        == builder_total(old(self).batcher) + if segments@.len() == 0 {
                        1int
                    } else {
                        segments@.len() as int
                    },
                    _ => {
                        if prim.vis.state is Culled {
                            &&& *final(self) == *old(self)
                            &&& *final(gpu_cache) == *old(gpu_cache)
                            &&& *final(prim_headers) == *old(prim_headers)
                            &&& *final(transforms) == *old(transforms)
                            &&& *final(z_generator) == *old(z_generator)
                        } else if spec_is_backdrop(prim.vis.state) {
                            &&& final(self).batcher.alpha_batch_list.batches@.len() == 0
                            &&& final(self).batcher.opaque_batch_list.batches@.len() == 0
                        } else {
                            builder_total(final(self).batcher) == builder_total(
                                old(self).batcher,
                            ) + kind_emission(*cmd, prim, *ctx, *render_tasks, *segment_store)
                        }
                    }
                }
            }),
    {
        // The quad path carries its own pattern and segment tasks; it is
        // handled before the visibility-driven dispatch.
        if let PrimitiveCommand::Quad {
            pattern,
            prim_instance_index,
            gpu_buffer_address,
            transform_id,
            src_color_task_id,
            ..
        } = cmd {
            let prim_instance = &prim_instances[*prim_instance_index];
            let bounding_rect = prim_instance.vis.pic_coverage_rect;
            let render_task_address = self.batcher.render_task_address;

            let loc = render_tasks.resolve_location(*src_color_task_id);
            let (_uv, texture) = match loc {
                Some(pair) => pair,
                None => {
                    proof {
                        assert(false);
                    }
                    (0i32, TextureSource::Invalid)
                }
            };
            let textures = BatchTextures::prim_textured(texture, TextureSource::Invalid);
            let key = BatchKey::new(
                BatchKind::Quad(*pattern),
                BlendMode::PremultipliedAlpha,
                textures,
            );

            let n = segments.len();
            if n == 0 {
                let z_id = z_generator.next();
                let instance = QuadInstance {
                    pattern: *pattern,
                    render_task_address,
                    transform_id: *transform_id,
                    gpu_buffer_address: *gpu_buffer_address,
                    segment_index: INVALID_SEGMENT_INDEX,
                    z: z_id,
                };
                let _ = self.batcher.push_single_instance(
                    key,
                    BatchFeatures::empty(),
                    &bounding_rect,
                    z_id,
                    PrimitiveInstanceData::Quad(instance),
                );
            } else {
                let mut i: usize = 0;
                while i < n
                    invariant
                        n == segments@.len(),
                        n < 0x10000,
                        0 <= i <= n,
                        self.batcher.wf(),
                        batcher_config_kept(old(self).batcher, self.batcher),
                        batcher_lens_grow(old(self).batcher, self.batcher, i as int),
                        old(self).batcher.spec_room(0x20000),
                        builder_total(self.batcher) == builder_total(old(self).batcher)
                            + i as int,
                        z_generator.next_id <= old(z_generator).next_id + i,
                        old(z_generator).next_id < 0x10000000,
                        bounding_rect.wf(),
                        render_task_address == self.batcher.render_task_address,
                        key.blend_mode == BlendMode::PremultipliedAlpha,
                    decreases n - i,
                {
                    let z_id = z_generator.next();
                    let instance = QuadInstance {
                        pattern: *pattern,
                        render_task_address,
                        transform_id: *transform_id,
                        gpu_buffer_address: *gpu_buffer_address,
                        segment_index: i as i32,
                        z: z_id,
                    };
                    let _ = self.batcher.push_single_instance(
                        key,
                        BatchFeatures::empty(),
                        &bounding_rect,
                        z_id,
                        PrimitiveInstanceData::Quad(instance),
                    );
                    i = i + 1;
                }
            }
            return;
        }

        let prim_instance_index = match cmd {
            PrimitiveCommand::Simple { prim_instance_index } => *prim_instance_index,
            PrimitiveCommand::Complex { prim_instance_index, .. } => *prim_instance_index,
            PrimitiveCommand::Instance { prim_instance_index, .. } => *prim_instance_index,
            PrimitiveCommand::Quad { prim_instance_index, .. } => *prim_instance_index,
        };
        let extra_prim_gpu_address: Option<i32> = match cmd {
            PrimitiveCommand::Complex { gpu_address, .. } => Some(*gpu_address),
            PrimitiveCommand::Instance { gpu_buffer_address, .. } => Some(*gpu_buffer_address),
            _ => None,
        };

        let prim_instance = &prim_instances[prim_instance_index];
        let is_anti_aliased = prim_instance.common.has_anti_aliasing;

        let brush_flags = if is_anti_aliased {
            BrushFlags::from_bits(BRUSH_FORCE_AA)
        } else {
            BrushFlags::empty()
        };

        let vis_flags = match prim_instance.vis.state {
            VisibilityState::Culled => {
                return;
            }
            VisibilityState::PassThrough | VisibilityState::Unset => {
                proof {
                    assert(false);
                }
                return;
            }
            VisibilityState::Visible { vis_flags } => vis_flags,
        };

        // A backdrop covers the whole target and becomes its clear color:
        // everything batched before it would be invisible.
        if (vis_flags & VIS_IS_BACKDROP) == VIS_IS_BACKDROP {
            self.clear_batches();
            return;
        }
        proof {
            assert(!spec_is_backdrop(prim_instance.vis.state));
        }

        let transform_id = transforms.get_id(prim_spatial_node_index, &ctx.spatial_tree);
        let transform_kind = transform_id.transform_kind();
        let bounding_rect = prim_instance.vis.pic_coverage_rect;
        let z_id = z_generator.next();
        let prim_rect = prim_instance.local_rect;
        let task_address = self.batcher.render_task_address;

        let x4: u8 = if prim_instance.common.may_need_repetition {
            FEATURE_REPETITION
        } else {
            0
        };
        let x2: u8 = if transform_kind != TransformedRectKind::AxisAligned || is_anti_aliased {
            FEATURE_ANTIALIASING
        } else {
            0
        };
        let has_clip_task = match prim_instance.vis.clip_task_index {
            ClipTaskIndex::At(_) => true,
            ClipTaskIndex::Invalid => false,
        };
        let x8: u8 = if has_clip_task {
            FEATURE_CLIP_MASK
        } else {
            0
        };
        let batch_features = BatchFeatures::from_bits((x4 | x2) | x8);
        proof {
            lemma_features_rep_bit(x4, x2, x8);
            lemma_norm_bit_clear(brush_flags.bits);
        }

        if let PrimitiveInstanceKind::Picture { picture } = &prim_instance.kind {
            if picture.snapshot_detached {
                return;
            }
            let blend_mode = BlendMode::PremultipliedAlpha;
            let prim_cache_address = gpu_cache.get_address(&ctx.default_image_handle);
            let pic_brush_flags = brush_flags.union(
                BrushFlags::from_bits(BRUSH_PERSPECTIVE_INTERPOLATION),
            );
            proof {
                lemma_flag_constants();
                lemma_union_norm_clear(brush_flags.bits, BRUSH_PERSPECTIVE_INTERPOLATION);
            }

            let composite_mode = match &picture.composite_mode {
                Some(m) => m,
                None => {
                    proof {
                        assert(false);
                    }
                    return;
                }
            };
            let pic_task_id = match picture.primary_render_task_id {
                Some(id) => id,
                None => {
                    proof {
                        assert(false);
                    }
                    return;
                }
            };

            let mut is_opaque = !has_clip_task && picture.surface_is_opaque && transform_kind
                == TransformedRectKind::AxisAligned && !is_anti_aliased;
            if render_tasks.has_mask_sub_pass(pic_task_id) {
                is_opaque = false;
            }

            match composite_mode {
                PictureCompositeMode::TileCache => {
                    return;
                }
                PictureCompositeMode::IntermediateSurface => {
                    return;
                }
                _ => {}
            }

            let prim_header = PrimitiveHeader {
                local_rect: prim_rect,
                local_clip_rect: prim_instance.vis.local_clip_rect,
                specific_prim_address: prim_cache_address,
                transform_id,
            };

            let clip = ctx.get_prim_clip_task_and_texture(
                prim_instance.vis.clip_task_index,
                render_tasks,
            );
            let (clip_task_address, clip_mask_texture_id) = match clip {
                Some(pair) => pair,
                None => {
                    proof {
                        assert(false);
                    }
                    (0u32, TextureSource::Invalid)
                }
            };

            let loc = render_tasks.resolve_location(pic_task_id);
            let (uv_rect_address, texture) = match loc {
                Some(pair) => pair,
                None => {
                    proof {
                        assert(false);
                    }
                    (0i32, TextureSource::Invalid)
                }
            };
            let textures = BatchTextures::prim_textured(texture, clip_mask_texture_id);

            match composite_mode {
                PictureCompositeMode::TileCache => {
                    proof {
                        assert(false);
                    }
                }
                PictureCompositeMode::IntermediateSurface => {
                    proof {
                        assert(false);
                    }
                }
                PictureCompositeMode::Filter(filter) => {
                    match filter {
                        Filter::Blur => {
                            let kind = BatchKind::Brush(
                                BrushBatchKind::Image(crate::texture::ImageBufferKind::Texture2D),
                            );
                            let key = BatchKey::new(kind, blend_mode, textures);
                            let prim_header_index = prim_headers.push(
                                &prim_header,
                                z_id,
                                task_address,
                                ImageBrushData {
                                    color_mode: ShaderColorMode::Image,
                                    alpha_type: AlphaType::PremultipliedAlpha,
                                    raster_space: RasterizationSpace::Screen,
                                    opacity: SHADER_OPACITY_FULL,
                                }.encode(),
                            );
                            self.add_brush_instance_to_batches(
                                key,
                                batch_features,
                                &bounding_rect,
                                z_id,
                                INVALID_SEGMENT_INDEX,
                                EdgeAaSegmentMask::all(),
                                clip_task_address,
                                pic_brush_flags,
                                prim_header_index,
                                uv_rect_address,
                            );
                        }
                        Filter::DropShadows(shadows) => {
                            // One instance per shadow first, then the content.
                            let kind = BatchKind::Brush(
                                BrushBatchKind::Image(crate::texture::ImageBufferKind::Texture2D),
                            );
                            let secondary_id = match picture.secondary_render_task_id {
                                Some(id) => id,
                                None => {
                                    proof {
                                        assert(false);
                                    }
                                    pic_task_id
                                }
                            };
                            let content_source = TextureSource::TextureCache(
                                render_tasks.get_target_texture(secondary_id),
                                crate::texture::Swizzle::Rgba8,
                            );
                            let shadow_uv_rect_address = uv_rect_address;
                            let shadow_textures = textures;
                            let content_uv_rect_address = render_tasks.get_texture_address(
                                secondary_id,
                            );
                            let content_textures = BatchTextures::prim_textured(
                                content_source,
                                clip_mask_texture_id,
                            );
                            let shadow_key = BatchKey::new(kind, blend_mode, shadow_textures);
                            let content_key = BatchKey::new(kind, blend_mode, content_textures);

                            let ns = shadows.len();
                            let mut j: usize = 0;
                            while j < ns
                                invariant
                                    ns == shadows@.len(),
                                    ns < 0x10000,
                                    0 <= j <= ns,
                                    self.batcher.wf(),
                                    batcher_config_kept(old(self).batcher, self.batcher),
                                    batcher_lens_grow(old(self).batcher, self.batcher, j as int),
                                    old(self).batcher.spec_room(0x20000),
                                    builder_total(self.batcher) == builder_total(
                                        old(self).batcher,
                                    ) + j as int,
                                    prim_headers.headers@.len() <= old(
                                        prim_headers,
                                    ).headers@.len() + 1 + j,
                                    old(prim_headers).headers@.len() < 0x10000000,
                                    bounding_rect.wf(),
                                    (pic_brush_flags.bits & BRUSH_NORMALIZED_UVS) == 0,
                                    forall|k: int| 0 <= k < ns ==> (#[trigger] shadows@[k]).address
                                        is Some,
                                    shadow_key.blend_mode == BlendMode::PremultipliedAlpha,
                                    task_address == self.batcher.render_task_address,
                                decreases ns - j,
                            {
                                let shadow_prim_address = gpu_cache.get_address(&shadows[j]);
                                let shadow_prim_header = PrimitiveHeader {
                                    local_rect: prim_rect,
                                    local_clip_rect: prim_instance.vis.local_clip_rect,
                                    specific_prim_address: shadow_prim_address,
                                    transform_id,
                                };
                                let shadow_prim_header_index = prim_headers.push(
                                    &shadow_prim_header,
                                    z_id,
                                    task_address,
                                    ImageBrushData {
                                        color_mode: ShaderColorMode::Alpha,
                                        alpha_type: AlphaType::PremultipliedAlpha,
                                        raster_space: RasterizationSpace::Screen,
                                        opacity: SHADER_OPACITY_FULL,
                                    }.encode(),
                                );
                                self.add_brush_instance_to_batches(
                                    shadow_key,
                                    batch_features,
                                    &bounding_rect,
                                    z_id,
                                    INVALID_SEGMENT_INDEX,
                                    EdgeAaSegmentMask::all(),
                                    clip_task_address,
                                    pic_brush_flags,
                                    shadow_prim_header_index,
                                    shadow_uv_rect_address,
                                );
                                j = j + 1;
                            }
                            let z_id_content = z_generator.next();
                            let content_prim_header_index = prim_headers.push(
                                &prim_header,
                                z_id_content,
                                task_address,
                                ImageBrushData {
                                    color_mode: ShaderColorMode::Image,
                                    alpha_type: AlphaType::PremultipliedAlpha,
                                    raster_space: RasterizationSpace::Screen,
                                    opacity: SHADER_OPACITY_FULL,
                                }.encode(),
                            );
                            self.add_brush_instance_to_batches(
                                content_key,
                                batch_features,
                                &bounding_rect,
                                z_id_content,
                                INVALID_SEGMENT_INDEX,
                                EdgeAaSegmentMask::all(),
                                clip_task_address,
                                pic_brush_flags,
                                content_prim_header_index,
                                content_uv_rect_address,
                            );
                        }
                        Filter::Opacity(amount) => {
                            let key = BatchKey::new(
                                BatchKind::Brush(BrushBatchKind::Opacity),
                                BlendMode::PremultipliedAlpha,
                                textures,
                            );
                            let prim_header_index = prim_headers.push(
                                &prim_header,
                                z_id,
                                task_address,
                                PrimUserData {
                                    data0: uv_rect_address,
                                    data1: *amount,
                                    data2: 0,
                                    data3: 0,
                                },
                            );
                            self.add_brush_instance_to_batches(
                                key,
                                batch_features,
                                &bounding_rect,
                                z_id,
                                INVALID_SEGMENT_INDEX,
                                EdgeAaSegmentMask::all(),
                                clip_task_address,
                                pic_brush_flags,
                                prim_header_index,
                                0,
                            );
                        }
                        Filter::Generic { filter_mode, user_data, preserves_opacity } => {
                            let is_opaque = is_opaque && *preserves_opacity;
                            let blend_mode = if is_opaque {
                                BlendMode::NoBlend
                            } else {
                                BlendMode::PremultipliedAlpha
                            };
                            let key = BatchKey::new(
                                BatchKind::Brush(BrushBatchKind::Blend),
                                blend_mode,
                                textures,
                            );
                            let prim_header_index = prim_headers.push(
                                &prim_header,
                                z_id,
                                task_address,
                                PrimUserData {
                                    data0: uv_rect_address,
                                    data1: *filter_mode,
                                    data2: *user_data,
                                    data3: 0,
                                },
                            );
                            self.add_brush_instance_to_batches(
                                key,
                                batch_features,
                                &bounding_rect,
                                z_id,
                                INVALID_SEGMENT_INDEX,
                                EdgeAaSegmentMask::all(),
                                clip_task_address,
                                pic_brush_flags,
                                prim_header_index,
                                0,
                            );
                        }
                    }
                }
                PictureCompositeMode::MixBlend(mode) => {
                    let direct = BlendMode::from_mix_blend_mode(
                        *mode,
                        ctx.use_advanced_blending,
                        !ctx.break_advanced_blend_batches,
                        ctx.use_dual_source_blending,
                    );
                    match direct {
                        Some(direct_blend) => {
                            let key = BatchKey::new(
                                BatchKind::Brush(
                                    BrushBatchKind::Image(
                                        crate::texture::ImageBufferKind::Texture2D,
                                    ),
                                ),
                                direct_blend,
                                textures,
                            );
                            let color_mode = match direct_blend {
                                BlendMode::MultiplyDualSource
                                    => ShaderColorMode::MultiplyDualSource,
                                _ => ShaderColorMode::Image,
                            };
                            let prim_header_index = prim_headers.push(
                                &prim_header,
                                z_id,
                                task_address,
                                ImageBrushData {
                                    color_mode,
                                    alpha_type: AlphaType::PremultipliedAlpha,
                                    raster_space: RasterizationSpace::Screen,
                                    opacity: SHADER_OPACITY_FULL,
                                }.encode(),
                            );
                            self.add_brush_instance_to_batches(
                                key,
                                batch_features,
                                &bounding_rect,
                                z_id,
                                INVALID_SEGMENT_INDEX,
                                EdgeAaSegmentMask::all(),
                                clip_task_address,
                                pic_brush_flags,
                                prim_header_index,
                                uv_rect_address,
                            );
                        }
                        None => {
                            // Readback path: composite against a captured
                            // copy of the backdrop.
                            let backdrop_id = match picture.secondary_render_task_id {
                                Some(id) => id,
                                None => {
                                    proof {
                                        assert(false);
                                    }
                                    pic_task_id
                                }
                            };
                            let color0 = render_tasks.get_target_texture(backdrop_id);
                            let color1 = render_tasks.get_target_texture(pic_task_id);
                            let batch_key = BatchKey::new(
                                BatchKind::Brush(
                                    BrushBatchKind::MixBlend {
                                        task_id: self.batcher.render_task_id,
                                        backdrop_id,
                                    },
                                ),
                                BlendMode::PremultipliedAlpha,
                                BatchTextures {
                                    input: TextureSet {
                                        color0: TextureSource::TextureCache(
                                            color0,
                                            crate::texture::Swizzle::Rgba8,
                                        ),
                                        color1: TextureSource::TextureCache(
                                            color1,
                                            crate::texture::Swizzle::Rgba8,
                                        ),
                                        color2: TextureSource::Invalid,
                                    },
                                    clip_mask: clip_mask_texture_id,
                                },
                            );
                            let src_uv_address = render_tasks.get_texture_address(pic_task_id);
                            let readback_uv_address = render_tasks.get_texture_address(
                                backdrop_id,
                            );
                            let prim_header_index = prim_headers.push(
                                &prim_header,
                                z_id,
                                task_address,
                                PrimUserData {
                                    data0: mix_blend_mode_index(*mode),
                                    data1: readback_uv_address,
                                    data2: src_uv_address,
                                    data3: 0,
                                },
                            );
                            let instance = BrushInstance {
                                prim_header_index,
                                clip_task_address,
                                segment_index: INVALID_SEGMENT_INDEX,
                                edge_flags: EdgeAaSegmentMask::all(),
                                brush_flags: pic_brush_flags,
                                resource_address: 0,
                            };
                            let _ = self.batcher.push_single_instance(
                                batch_key,
                                batch_features,
                                &bounding_rect,
                                z_id,
                                PrimitiveInstanceData::Brush(instance),
                            );
                        }
                    }
                }
                PictureCompositeMode::Blit => {
                    match picture.context_3d {
                        Picture3DContext::InRoot => {
                            proof {
                                assert(false);
                            }
                        }
                        Picture3DContext::InChild => {
                            // A plane-split child without its polygon
                            // address is not drawable yet.
                            let polygons_address = match extra_prim_gpu_address {
                                Some(address) => address,
                                None => {
                                    return;
                                }
                            };
                            let child_header = PrimitiveHeader {
                                local_rect: prim_rect,
                                local_clip_rect: prim_instance.vis.local_clip_rect,
                                specific_prim_address: -1,
                                transform_id,
                            };
                            let z_id_child = z_generator.next();
                            let prim_header_index = prim_headers.push(
                                &child_header,
                                z_id_child,
                                task_address,
                                PrimUserData {
                                    data0: uv_rect_address,
                                    data1: BRUSH_PERSPECTIVE_INTERPOLATION as i32,
                                    data2: 0,
                                    data3: clip_task_address as i32,
                                },
                            );
                            let key = BatchKey::new(
                                BatchKind::SplitComposite,
                                BlendMode::PremultipliedAlpha,
                                textures,
                            );
                            self.add_split_composite_instance_to_batches(
                                key,
                                BatchFeatures::from_bits(FEATURE_CLIP_MASK),
                                &bounding_rect,
                                z_id_child,
                                prim_header_index,
                                polygons_address,
                            );
                        }
                        Picture3DContext::Out => {
                            let batch_params = BrushBatchParameters::shared(
                                BrushBatchKind::Image(crate::texture::ImageBufferKind::Texture2D),
                                textures.input,
                                ImageBrushData {
                                    color_mode: ShaderColorMode::Image,
                                    alpha_type: AlphaType::PremultipliedAlpha,
                                    raster_space: RasterizationSpace::Screen,
                                    opacity: SHADER_OPACITY_FULL,
                                }.encode(),
                                uv_rect_address,
                            );
                            let prim_header_index = prim_headers.push(
                                &prim_header,
                                z_id,
                                task_address,
                                batch_params.prim_user_data,
                            );
                            let blit_blend = if is_opaque {
                                BlendMode::NoBlend
                            } else {
                                BlendMode::PremultipliedAlpha
                            };
                            self.add_segmented_prim_to_batch(
                                None,
                                is_opaque,
                                &batch_params,
                                blit_blend,
                                batch_features,
                                pic_brush_flags,
                                EdgeAaSegmentMask::all(),
                                prim_header_index,
                                &bounding_rect,
                                transform_kind,
                                z_id,
                                prim_instance.vis.clip_task_index,
                                ctx,
                                render_tasks,
                            );
                        }
                    }
                }
                PictureCompositeMode::SvgFilter => {
                    let kind = BatchKind::Brush(
                        BrushBatchKind::Image(crate::texture::ImageBufferKind::Texture2D),
                    );
                    let key = BatchKey::new(kind, blend_mode, textures);
                    let prim_header_index = prim_headers.push(
                        &prim_header,
                        z_id,
                        task_address,
                        ImageBrushData {
                            color_mode: ShaderColorMode::Image,
                            alpha_type: AlphaType::PremultipliedAlpha,
                            raster_space: RasterizationSpace::Screen,
                            opacity: SHADER_OPACITY_FULL,
                        }.encode(),
                    );
                    self.add_brush_instance_to_batches(
                        key,
                        batch_features,
                        &bounding_rect,
                        z_id,
                        INVALID_SEGMENT_INDEX,
                        EdgeAaSegmentMask::all(),
                        clip_task_address,
                        pic_brush_flags,
                        prim_header_index,
                        uv_rect_address,
                    );
                }
            }
            return;
        }

        let needs_blending = !prim_instance.common.is_opaque || has_clip_task || transform_kind
            == TransformedRectKind::Complex || is_anti_aliased;
        let blend_mode = if needs_blending {
            BlendMode::PremultipliedAlpha
        } else {
            BlendMode::NoBlend
        };

        let segment_instance_index = match &prim_instance.kind {
            PrimitiveInstanceKind::Rectangle { segment_instance_index }
                => *segment_instance_index,
            PrimitiveInstanceKind::YuvImage { segment_instance_index, .. }
                => *segment_instance_index,
            _ => SegmentInstanceIndex::Unused,
        };

        let (prim_cache_address, segments_opt): (Option<i32>, Option<Vec<BrushSegment>>) =
            match segment_instance_index {
            SegmentInstanceIndex::Unused => {
                (gpu_cache.try_get_address(&prim_instance.common.gpu_cache_handle), None)
            }
            SegmentInstanceIndex::At(si) => {
                let segs = collect_store_segments(segment_store, si);
                let address = gpu_cache.get_address(
                    &segment_store.segment_instances[si].gpu_cache_handle,
                );
                (Some(address), Some(segs))
            }
            SegmentInstanceIndex::Invalid => {
                proof {
                    assert(false);
                }
                (None, None)
            }
        };

        match &prim_instance.kind {
            PrimitiveInstanceKind::CachedLinearGradient {
                src_color,
                visible_tiles,
                brush_segments,
            }
            | PrimitiveInstanceKind::RadialGradient { src_color, visible_tiles, brush_segments }
            | PrimitiveInstanceKind::ConicGradient { src_color, visible_tiles, brush_segments } => {
                // All of these lower to the image brush shader over a
                // texture the gradient was rendered into.
                let loc = render_tasks.resolve_location(*src_color);
                let (uv_rect_address, texture_source) = match loc {
                    Some(pair) => pair,
                    None => {
                        return;
                    }
                };
                let textures_set = TextureSet::prim_textured(texture_source);
                let specific = gpu_cache.get_address(&prim_instance.common.gpu_cache_handle);
                let prim_header = PrimitiveHeader {
                    local_rect: prim_rect,
                    local_clip_rect: prim_instance.vis.local_clip_rect,
                    specific_prim_address: specific,
                    transform_id,
                };
                let prim_user_data = ImageBrushData {
                    color_mode: ShaderColorMode::Image,
                    alpha_type: AlphaType::PremultipliedAlpha,
                    raster_space: RasterizationSpace::Local,
                    opacity: SHADER_OPACITY_FULL,
                }.encode();
                let batch_kind = BrushBatchKind::Image(texture_source.image_buffer_kind());

                if visible_tiles.len() == 0 {
                    let batch_params = BrushBatchParameters::shared(
                        batch_kind,
                        textures_set,
                        prim_user_data,
                        uv_rect_address,
                    );
                    let prim_header_index = prim_headers.push(
                        &prim_header,
                        z_id,
                        task_address,
                        batch_params.prim_user_data,
                    );
                    if brush_segments.len() == 0 {
                        self.add_segmented_prim_to_batch(
                            None,
                            prim_instance.common.is_opaque,
                            &batch_params,
                            blend_mode,
                            batch_features,
                            brush_flags,
                            prim_instance.common.edge_aa_mask,
                            prim_header_index,
                            &bounding_rect,
                            transform_kind,
                            z_id,
                            prim_instance.vis.clip_task_index,
                            ctx,
                            render_tasks,
                        );
                    } else {
                        self.add_segmented_prim_to_batch(
                            Some(brush_segments),
                            prim_instance.common.is_opaque,
                            &batch_params,
                            blend_mode,
                            batch_features,
                            brush_flags,
                            prim_instance.common.edge_aa_mask,
                            prim_header_index,
                            &bounding_rect,
                            transform_kind,
                            z_id,
                            prim_instance.vis.clip_task_index,
                            ctx,
                            render_tasks,
                        );
                    }
                } else {
                    let clip = ctx.get_prim_clip_task_and_texture(
                        prim_instance.vis.clip_task_index,
                        render_tasks,
                    );
                    let (clip_task_address, clip_mask) = match clip {
                        Some(pair) => pair,
                        None => {
                            proof {
                                assert(false);
                            }
                            (0u32, TextureSource::Invalid)
                        }
                    };
                    let batch_key = BatchKey {
                        blend_mode,
                        kind: BatchKind::Brush(batch_kind),
                        textures: BatchTextures { input: textures_set, clip_mask },
                    };
                    let tile_flags = brush_flags.union(
                        BrushFlags::from_bits(BRUSH_PERSPECTIVE_INTERPOLATION),
                    );
                    proof {
                        lemma_flag_constants();
                        lemma_union_norm_clear(brush_flags.bits, BRUSH_PERSPECTIVE_INTERPOLATION);
                    }
                    let n = visible_tiles.len();
                    let mut i: usize = 0;
                    while i < n
                        invariant
                            n == visible_tiles@.len(),
                            n < 0x10000,
                            0 <= i <= n,
                            self.batcher.wf(),
                            batcher_config_kept(old(self).batcher, self.batcher),
                            batcher_lens_grow(old(self).batcher, self.batcher, i as int),
                            old(self).batcher.spec_room(0x20000),
                            builder_total(self.batcher) == builder_total(old(self).batcher)
                                + i as int,
                            prim_headers.headers@.len() <= old(prim_headers).headers@.len() + 1
                                + i,
                            old(prim_headers).headers@.len() < 0x10000000,
                            bounding_rect.wf(),
                            (tile_flags.bits & BRUSH_NORMALIZED_UVS) == 0,
                            (batch_features.bits & FEATURE_REPETITION) == FEATURE_REPETITION
                                ==> (tile_flags.bits & BRUSH_NORMALIZED_UVS) == 0,
                            task_address == self.batcher.render_task_address,
                        decreases n - i,
                    {
                        let tile = visible_tiles[i];
                        let tile_prim_header = PrimitiveHeader {
                            local_rect: tile.local_rect,
                            local_clip_rect: tile.local_clip_rect,
                            specific_prim_address: specific,
                            transform_id,
                        };
                        let prim_header_index = prim_headers.push(
                            &tile_prim_header,
                            z_id,
                            task_address,
                            prim_user_data,
                        );
                        self.add_brush_instance_to_batches(
                            batch_key,
                            batch_features,
                            &bounding_rect,
                            z_id,
                            INVALID_SEGMENT_INDEX,
                            prim_instance.common.edge_aa_mask,
                            clip_task_address,
                            tile_flags,
                            prim_header_index,
                            uv_rect_address,
                        );
                        i = i + 1;
                    }
                }
                return;
            }
            _ => {}
        }

        match &prim_instance.kind {
            PrimitiveInstanceKind::Picture { .. } => {
                proof {
                    assert(false);
                }
            }
            PrimitiveInstanceKind::CachedLinearGradient { .. }
            | PrimitiveInstanceKind::RadialGradient { .. }
            | PrimitiveInstanceKind::ConicGradient { .. } => {
                proof {
                    assert(false);
                }
            }
            PrimitiveInstanceKind::BoxShadow => {
                proof {
                    assert(false);
                }
            }
            PrimitiveInstanceKind::BackdropCapture => {}
            PrimitiveInstanceKind::Clear => {
                let clip = ctx.get_prim_clip_task_and_texture(
                    prim_instance.vis.clip_task_index,
                    render_tasks,
                );
                let (clip_task_address, clip_mask_texture_id) = match clip {
                    Some(pair) => pair,
                    None => {
                        proof {
                            assert(false);
                        }
                        (0u32, TextureSource::Invalid)
                    }
                };
                let address = match prim_cache_address {
                    Some(a) => a,
                    None => {
                        proof {
                            assert(false);
                        }
                        0
                    }
                };
                let prim_header = PrimitiveHeader {
                    local_rect: prim_rect,
                    local_clip_rect: prim_instance.vis.local_clip_rect,
                    specific_prim_address: address,
                    transform_id,
                };
                let prim_header_index = prim_headers.push(
                    &prim_header,
                    z_id,
                    task_address,
                    PrimUserData {
                        data0: SHADER_OPACITY_FULL,
                        data1: 0,
                        data2: 0,
                        data3: 0,
                    },
                );
                let batch_key = BatchKey {
                    blend_mode: BlendMode::PremultipliedDestOut,
                    kind: BatchKind::Brush(BrushBatchKind::Solid),
                    textures: BatchTextures::prim_untextured(clip_mask_texture_id),
                };
                let clear_flags = brush_flags.union(
                    BrushFlags::from_bits(BRUSH_PERSPECTIVE_INTERPOLATION),
                );
                proof {
                    lemma_flag_constants();
                    lemma_union_norm_clear(brush_flags.bits, BRUSH_PERSPECTIVE_INTERPOLATION);
                }
                self.add_brush_instance_to_batches(
                    batch_key,
                    batch_features,
                    &bounding_rect,
                    z_id,
                    INVALID_SEGMENT_INDEX,
                    prim_instance.common.edge_aa_mask,
                    clip_task_address,
                    clear_flags,
                    prim_header_index,
                    0,
                );
            }
            PrimitiveInstanceKind::NormalBorder { border_task_ids, brush_segments } => {
                let n = border_task_ids.len();
                let mut segment_data: Vec<SegmentInstanceData> = Vec::new();
                let mut i: usize = 0;
                while i < n
                    invariant
                        n == border_task_ids@.len(),
                        0 <= i <= n,
                        segment_data@.len() == i,
                        forall|k: int| 0 <= k < n ==> render_tasks.spec_contains(
                            #[trigger] border_task_ids@[k],
                        ) && render_tasks.spec_location(border_task_ids@[k]) is Some,
                    decreases n - i,
                {
                    let loc = render_tasks.resolve_location(border_task_ids[i]);
                    match loc {
                        Some((uv_rect_address, texture)) => {
                            segment_data.push(
                                SegmentInstanceData {
                                    textures: TextureSet::prim_textured(texture),
                                    specific_resource_address: uv_rect_address,
                                },
                            );
                        }
                        None => {
                            proof {
                                assert(false);
                            }
                        }
                    }
                    i = i + 1;
                }
                let batch_params = BrushBatchParameters::instanced(
                    BrushBatchKind::Image(crate::texture::ImageBufferKind::Texture2D),
                    ImageBrushData {
                        color_mode: ShaderColorMode::Image,
                        alpha_type: AlphaType::PremultipliedAlpha,
                        raster_space: RasterizationSpace::Local,
                        opacity: SHADER_OPACITY_FULL,
                    }.encode(),
                    segment_data,
                );
                let address = match prim_cache_address {
                    Some(a) => a,
                    None => {
                        proof {
                            assert(false);
                        }
                        0
                    }
                };
                let prim_header = PrimitiveHeader {
                    local_rect: prim_rect,
                    local_clip_rect: prim_instance.vis.local_clip_rect,
                    specific_prim_address: address,
                    transform_id,
                };
                let prim_header_index = prim_headers.push(
                    &prim_header,
                    z_id,
                    task_address,
                    batch_params.prim_user_data,
                );
                self.add_segmented_prim_to_batch(
                    Some(brush_segments),
                    prim_instance.common.is_opaque,
                    &batch_params,
                    blend_mode,
                    batch_features,
                    brush_flags,
                    prim_instance.common.edge_aa_mask,
                    prim_header_index,
                    &bounding_rect,
                    transform_kind,
                    z_id,
                    prim_instance.vis.clip_task_index,
                    ctx,
                    render_tasks,
                );
            }
            PrimitiveInstanceKind::TextRun { glyph_groups, shadow, raster_scale_fixed } => {
                let clip = ctx.get_prim_clip_task_and_texture(
                    prim_instance.vis.clip_task_index,
                    render_tasks,
                );
                let (clip_task_address, clip_mask_texture_id) = match clip {
                    Some(pair) => pair,
                    None => {
                        proof {
                            assert(false);
                        }
                        (0u32, TextureSource::Invalid)
                    }
                };
                let address = match prim_cache_address {
                    Some(a) => a,
                    None => {
                        proof {
                            assert(false);
                        }
                        0
                    }
                };
                let prim_header = PrimitiveHeader {
                    local_rect: prim_rect,
                    local_clip_rect: prim_instance.vis.local_clip_rect,
                    specific_prim_address: address,
                    transform_id,
                };
                let prim_header_index = prim_headers.push(
                    &prim_header,
                    z_id,
                    task_address,
                    PrimUserData {
                        data0: *raster_scale_fixed,
                        data1: 0,
                        data2: 0,
                        data3: 0,
                    },
                );
                let ng = glyph_groups.len();
                let mut g: usize = 0;
                while g < ng
                    invariant
                        ng == glyph_groups@.len(),
                        0 <= g <= ng,
                        self.batcher.wf(),
                        batcher_config_kept(old(self).batcher, self.batcher),
                        batcher_lens_grow(
                            old(self).batcher,
                            self.batcher,
                            glyph_total(glyph_groups@.subrange(0, g as int)),
                        ),
                        old(self).batcher.spec_room(0x20000),
                        builder_total(self.batcher) == builder_total(old(self).batcher)
                            + glyph_total(glyph_groups@.subrange(0, g as int)),
                        glyph_total(glyph_groups@) < 0x10000,
                        bounding_rect.wf(),
                        forall|k: int| 0 <= k < ng ==> {
                            &&& (#[trigger] glyph_groups@[k]).glyphs@.len() < 0x10000
                            &&& glyph_groups@[k].texture_id != TextureSource::Invalid
                            &&& (glyph_groups@[k].glyph_format == GlyphFormat::Subpixel
                                || glyph_groups@[k].glyph_format
                                == GlyphFormat::TransformedSubpixel
                                ==> ctx.use_dual_source_blending)
                        },
                    decreases ng - g,
                {
                    let group = &glyph_groups[g];
                    let (group_blend, color_mode) = match group.glyph_format {
                        GlyphFormat::Subpixel | GlyphFormat::TransformedSubpixel => {
                            (BlendMode::SubpixelDualSource, ShaderColorMode::SubpixelDualSource)
                        }
                        GlyphFormat::Alpha | GlyphFormat::TransformedAlpha
                        | GlyphFormat::Bitmap => {
                            (BlendMode::PremultipliedAlpha, ShaderColorMode::Alpha)
                        }
                        GlyphFormat::ColorBitmap => {
                            (
                                BlendMode::PremultipliedAlpha,
                                if *shadow {
                                    ShaderColorMode::BitmapShadow
                                } else {
                                    ShaderColorMode::ColorBitmap
                                },
                            )
                        }
                    };
                    let group_textures = BatchTextures::prim_textured(
                        group.texture_id,
                        clip_mask_texture_id,
                    );
                    let key = BatchKey::new(
                        BatchKind::TextRun(group.glyph_format),
                        group_blend,
                        group_textures,
                    );
                    let nj = group.glyphs.len();
                    let mut j: usize = 0;
                    proof {
                        lemma_glyph_total_mono(glyph_groups@, g as int, g as int + 1);
                        lemma_glyph_total_mono(glyph_groups@, g as int + 1, ng as int);
                        assert(glyph_groups@.subrange(0, g as int + 1).drop_last()
                            =~= glyph_groups@.subrange(0, g as int));
                        assert(glyph_groups@.subrange(0, ng as int) =~= glyph_groups@);
                    }
                    while j < nj
                        invariant
                            ng == glyph_groups@.len(),
                            g < ng,
                            nj == glyph_groups@[g as int].glyphs@.len(),
                            group == &glyph_groups@[g as int],
                            0 <= j <= nj,
                            self.batcher.wf(),
                            batcher_config_kept(old(self).batcher, self.batcher),
                            batcher_lens_grow(
                                old(self).batcher,
                                self.batcher,
                                glyph_total(glyph_groups@.subrange(0, g as int)) + j as int,
                            ),
                            old(self).batcher.spec_room(0x20000),
                            builder_total(self.batcher) == builder_total(old(self).batcher)
                                + glyph_total(glyph_groups@.subrange(0, g as int)) + j as int,
                            glyph_total(glyph_groups@.subrange(0, g as int)) + nj
                                == glyph_total(glyph_groups@.subrange(0, g as int + 1)),
                            glyph_total(glyph_groups@.subrange(0, g as int)) >= 0,
                            glyph_total(glyph_groups@.subrange(0, g as int + 1)) <= glyph_total(
                                glyph_groups@,
                            ),
                            glyph_total(glyph_groups@) < 0x10000,
                            bounding_rect.wf(),
                            !(group_blend is NoBlend),
                        decreases nj - j,
                    {
                        let glyph = group.glyphs[j];
                        let instance = GlyphInstance {
                            prim_header_index,
                            clip_task_address,
                            index_in_text_run: glyph.index_in_text_run,
                            uv_rect_address: glyph.uv_rect_address,
                            color_mode,
                        };
                        let _ = self.batcher.push_single_instance(
                            key,
                            batch_features,
                            &bounding_rect,
                            z_id,
                            PrimitiveInstanceData::Glyph(instance),
                        );
                        j = j + 1;
                    }
                    g = g + 1;
                }
                proof {
                    assert(glyph_groups@.subrange(0, ng as int) =~= glyph_groups@);
                }
            }
            PrimitiveInstanceKind::LineDecoration { render_task } => {
                let clip = ctx.get_prim_clip_task_and_texture(
                    prim_instance.vis.clip_task_index,
                    render_tasks,
                );
                let (clip_task_address, clip_mask_texture_id) = match clip {
                    Some(pair) => pair,
                    None => {
                        proof {
                            assert(false);
                        }
                        (0u32, TextureSource::Invalid)
                    }
                };
                let (batch_kind, line_textures, prim_user_data, specific_resource_address) =
                    match render_task {
                    Some(task_id) => {
                        let loc = render_tasks.resolve_location(*task_id);
                        let (uv_rect_address, texture) = match loc {
                            Some(pair) => pair,
                            None => {
                                proof {
                                    assert(false);
                                }
                                (0i32, TextureSource::Invalid)
                            }
                        };
                        (
                            BrushBatchKind::Image(texture.image_buffer_kind()),
                            BatchTextures::prim_textured(texture, clip_mask_texture_id),
                            ImageBrushData {
                                color_mode: ShaderColorMode::Image,
                                alpha_type: AlphaType::PremultipliedAlpha,
                                raster_space: RasterizationSpace::Local,
                                opacity: SHADER_OPACITY_FULL,
                            }.encode(),
                            uv_rect_address,
                        )
                    }
                    None => {
                        (
                            BrushBatchKind::Solid,
                            BatchTextures::prim_untextured(clip_mask_texture_id),
                            PrimUserData {
                                data0: SHADER_OPACITY_FULL,
                                data1: 0,
                                data2: 0,
                                data3: 0,
                            },
                            0i32,
                        )
                    }
                };
                let address = match prim_cache_address {
                    Some(a) => a,
                    None => {
                        proof {
                            assert(false);
                        }
                        0
                    }
                };
                let prim_header = PrimitiveHeader {
                    local_rect: prim_rect,
                    local_clip_rect: prim_instance.vis.local_clip_rect,
                    specific_prim_address: address,
                    transform_id,
                };
                let prim_header_index = prim_headers.push(
                    &prim_header,
                    z_id,
                    task_address,
                    prim_user_data,
                );
                let batch_key = BatchKey {
                    blend_mode,
                    kind: BatchKind::Brush(batch_kind),
                    textures: line_textures,
                };
                let line_flags = brush_flags.union(
                    BrushFlags::from_bits(BRUSH_PERSPECTIVE_INTERPOLATION),
                );
                proof {
                    lemma_flag_constants();
                    lemma_union_norm_clear(brush_flags.bits, BRUSH_PERSPECTIVE_INTERPOLATION);
                }
                self.add_brush_instance_to_batches(
                    batch_key,
                    batch_features,
                    &bounding_rect,
                    z_id,
                    INVALID_SEGMENT_INDEX,
                    prim_instance.common.edge_aa_mask,
                    clip_task_address,
                    line_flags,
                    prim_header_index,
                    specific_resource_address,
                );
            }
            PrimitiveInstanceKind::Rectangle { .. } => {
                let batch_params = BrushBatchParameters::shared(
                    BrushBatchKind::Solid,
                    TextureSet::untextured(),
                    PrimUserData {
                        data0: SHADER_OPACITY_FULL,
                        data1: 0,
                        data2: 0,
                        data3: 0,
                    },
                    0,
                );
                let address = match prim_cache_address {
                    Some(a) => a,
                    None => {
                        proof {
                            assert(false);
                        }
                        0
                    }
                };
                let prim_header = PrimitiveHeader {
                    local_rect: prim_rect,
                    local_clip_rect: prim_instance.vis.local_clip_rect,
                    specific_prim_address: address,
                    transform_id,
                };
                let prim_header_index = prim_headers.push(
                    &prim_header,
                    z_id,
                    task_address,
                    batch_params.prim_user_data,
                );
                match &segments_opt {
                    Some(segs) => {
                        self.add_segmented_prim_to_batch(
                            Some(segs),
                            prim_instance.common.is_opaque,
                            &batch_params,
                            blend_mode,
                            batch_features,
                            brush_flags,
                            prim_instance.common.edge_aa_mask,
                            prim_header_index,
                            &bounding_rect,
                            transform_kind,
                            z_id,
                            prim_instance.vis.clip_task_index,
                            ctx,
                            render_tasks,
                        );
                    }
                    None => {
                        self.add_segmented_prim_to_batch(
                            None,
                            prim_instance.common.is_opaque,
                            &batch_params,
                            blend_mode,
                            batch_features,
                            brush_flags,
                            prim_instance.common.edge_aa_mask,
                            prim_header_index,
                            &bounding_rect,
                            transform_kind,
                            z_id,
                            prim_instance.vis.clip_task_index,
                            ctx,
                            render_tasks,
                        );
                    }
                }
            }
            PrimitiveInstanceKind::YuvImage {
                format,
                color_depth,
                color_space,
                color_range,
                src_yuv0,
                src_yuv1,
                src_yuv2,
                compositor_surface_kind,
                ..
            } => {
                if compositor_surface_kind.needs_cutout() {
                    self.add_compositor_surface_cutout(
                        prim_rect,
                        prim_instance.vis.local_clip_rect,
                        prim_instance.vis.clip_task_index,
                        transform_id,
                        z_id,
                        &bounding_rect,
                        ctx,
                        gpu_cache,
                        render_tasks,
                        prim_headers,
                    );
                    return;
                }

                let planes = format.get_plane_num();
                let mut color0 = TextureSource::Invalid;
                let mut color1 = TextureSource::Invalid;
                let mut color2 = TextureSource::Invalid;
                let mut uv0: i32 = 0;
                let mut uv1: i32 = 0;
                let mut uv2: i32 = 0;
                if planes >= 1 {
                    match render_tasks.resolve_location(*src_yuv0) {
                        Some((uv, t)) => {
                            color0 = t;
                            uv0 = uv;
                        }
                        None => {
                            return;
                        }
                    }
                }
                if planes >= 2 {
                    match render_tasks.resolve_location(*src_yuv1) {
                        Some((uv, t)) => {
                            color1 = t;
                            uv1 = uv;
                        }
                        None => {
                            return;
                        }
                    }
                }
                if planes >= 3 {
                    match render_tasks.resolve_location(*src_yuv2) {
                        Some((uv, t)) => {
                            color2 = t;
                            uv2 = uv;
                        }
                        None => {
                            return;
                        }
                    }
                }
                let buffer_kind = color0.image_buffer_kind();
                let kind = BrushBatchKind::YuvImage(
                    buffer_kind,
                    *format,
                    *color_depth,
                    *color_space,
                    *color_range,
                );
                let batch_params = BrushBatchParameters::shared(
                    kind,
                    TextureSet { color0, color1, color2 },
                    PrimUserData { data0: uv0, data1: uv1, data2: uv2, data3: 0 },
                    0,
                );
                let address = match prim_cache_address {
                    Some(a) => a,
                    None => {
                        proof {
                            assert(false);
                        }
                        0
                    }
                };
                let prim_header = PrimitiveHeader {
                    local_rect: prim_rect,
                    local_clip_rect: prim_instance.vis.local_clip_rect,
                    specific_prim_address: address,
                    transform_id,
                };
                let prim_header_index = prim_headers.push(
                    &prim_header,
                    z_id,
                    task_address,
                    batch_params.prim_user_data,
                );
                match &segments_opt {
                    Some(segs) => {
                        self.add_segmented_prim_to_batch(
                            Some(segs),
                            prim_instance.common.is_opaque,
                            &batch_params,
                            blend_mode,
                            batch_features,
                            brush_flags,
                            prim_instance.common.edge_aa_mask,
                            prim_header_index,
                            &bounding_rect,
                            transform_kind,
                            z_id,
                            prim_instance.vis.clip_task_index,
                            ctx,
                            render_tasks,
                        );
                    }
                    None => {
                        self.add_segmented_prim_to_batch(
                            None,
                            prim_instance.common.is_opaque,
                            &batch_params,
                            blend_mode,
                            batch_features,
                            brush_flags,
                            prim_instance.common.edge_aa_mask,
                            prim_header_index,
                            &bounding_rect,
                            transform_kind,
                            z_id,
                            prim_instance.vis.clip_task_index,
                            ctx,
                            render_tasks,
                        );
                    }
                }
            }
            PrimitiveInstanceKind::Image {
                src_color,
                premultiplied,
                segment_instance_index: image_sii,
                visible_tiles,
                normalized_uvs,
                compositor_surface_kind,
            } => {
                if compositor_surface_kind.needs_cutout() {
                    self.add_compositor_surface_cutout(
                        prim_rect,
                        prim_instance.vis.local_clip_rect,
                        prim_instance.vis.clip_task_index,
                        transform_id,
                        z_id,
                        &bounding_rect,
                        ctx,
                        gpu_cache,
                        render_tasks,
                        prim_headers,
                    );
                    return;
                }

                let prim_user_data = ImageBrushData {
                    color_mode: ShaderColorMode::Image,
                    alpha_type: if *premultiplied {
                        AlphaType::PremultipliedAlpha
                    } else {
                        AlphaType::Alpha
                    },
                    raster_space: RasterizationSpace::Local,
                    opacity: SHADER_OPACITY_FULL,
                }.encode();
                let image_blend = if needs_blending {
                    if *premultiplied {
                        BlendMode::PremultipliedAlpha
                    } else {
                        BlendMode::Alpha
                    }
                } else {
                    BlendMode::NoBlend
                };
                let image_flags = if *normalized_uvs {
                    brush_flags.union(BrushFlags::from_bits(BRUSH_NORMALIZED_UVS))
                } else {
                    brush_flags
                };
                proof {
                    if (batch_features.bits & FEATURE_REPETITION) == FEATURE_REPETITION {
                        assert(image_flags.bits == brush_flags.bits);
                    }
                }

                if visible_tiles.len() == 0 {
                    let loc = render_tasks.resolve_location(*src_color);
                    let (uv_rect_address, texture_source) = match loc {
                        Some(pair) => pair,
                        None => {
                            return;
                        }
                    };
                    let batch_params = BrushBatchParameters::shared(
                        BrushBatchKind::Image(texture_source.image_buffer_kind()),
                        TextureSet::prim_textured(texture_source),
                        prim_user_data,
                        uv_rect_address,
                    );
                    let (inner_address, inner_segments): (i32, Option<Vec<BrushSegment>>) =
                        match image_sii {
                        SegmentInstanceIndex::Unused => {
                            let address = match prim_cache_address {
                                Some(a) => a,
                                None => {
                                    proof {
                                        assert(false);
                                    }
                                    0
                                }
                            };
                            (address, None)
                        }
                        SegmentInstanceIndex::At(si) => {
                            let segs = collect_store_segments(segment_store, *si);
                            let address = gpu_cache.get_address(
                                &segment_store.segment_instances[*si].gpu_cache_handle,
                            );
                            (address, Some(segs))
                        }
                        SegmentInstanceIndex::Invalid => {
                            proof {
                                assert(false);
                            }
                            (0, None)
                        }
                    };
                    let prim_header = PrimitiveHeader {
                        local_rect: prim_rect,
                        local_clip_rect: prim_instance.vis.local_clip_rect,
                        specific_prim_address: inner_address,
                        transform_id,
                    };
                    let prim_header_index = prim_headers.push(
                        &prim_header,
                        z_id,
                        task_address,
                        batch_params.prim_user_data,
                    );
                    match &inner_segments {
                        Some(segs) => {
                            self.add_segmented_prim_to_batch(
                                Some(segs),
                                prim_instance.common.is_opaque,
                                &batch_params,
                                image_blend,
                                batch_features,
                                image_flags,
                                prim_instance.common.edge_aa_mask,
                                prim_header_index,
                                &bounding_rect,
                                transform_kind,
                                z_id,
                                prim_instance.vis.clip_task_index,
                                ctx,
                                render_tasks,
                            );
                        }
                        None => {
                            self.add_segmented_prim_to_batch(
                                None,
                                prim_instance.common.is_opaque,
                                &batch_params,
                                image_blend,
                                batch_features,
                                image_flags,
                                prim_instance.common.edge_aa_mask,
                                prim_header_index,
                                &bounding_rect,
                                transform_kind,
                                z_id,
                                prim_instance.vis.clip_task_index,
                                ctx,
                                render_tasks,
                            );
                        }
                    }
                } else {
                    let clip = ctx.get_prim_clip_task_and_texture(
                        prim_instance.vis.clip_task_index,
                        render_tasks,
                    );
                    let (clip_task_address, clip_mask) = match clip {
                        Some(pair) => pair,
                        None => {
                            proof {
                                assert(false);
                            }
                            (0u32, TextureSource::Invalid)
                        }
                    };
                    let tile_flags = image_flags.union(
                        BrushFlags::from_bits(
                            BRUSH_SEGMENT_RELATIVE | BRUSH_PERSPECTIVE_INTERPOLATION,
                        ),
                    );
                    proof {
                        let a = image_flags.bits;
                        assert((2u16 | 1u16) == 3u16) by (bit_vector);
                        if (batch_features.bits & FEATURE_REPETITION) == FEATURE_REPETITION {
                            assert((a | 3u16) & 128u16 == 0) by (bit_vector)
                                requires
                                    a & 128u16 == 0,
                            ;
                        }
                    }
                    let chunk_size: usize = 510;
                    let n = visible_tiles.len();
                    let mut prim_header_index = PrimitiveHeaderIndex(0);
                    let mut i: usize = 0;
                    while i < n
                        invariant
                            n == visible_tiles@.len(),
                            n < 0x10000,
                            chunk_size == 510,
                            0 <= i <= n,
                            self.batcher.wf(),
                            batcher_config_kept(old(self).batcher, self.batcher),
                            batcher_lens_grow(old(self).batcher, self.batcher, i as int),
                            old(self).batcher.spec_room(0x20000),
                            builder_total(self.batcher) == builder_total(old(self).batcher)
                                + i as int,
                            prim_headers.headers@.len() <= old(prim_headers).headers@.len() + 1
                                + i,
                            old(prim_headers).headers@.len() < 0x10000000,
                            gpu_cache.next_frame_address <= old(gpu_cache).next_frame_address
                                + 1023 * (i as int + 1),
                            old(gpu_cache).next_frame_address < 0x10000000,
                            bounding_rect.wf(),
                            (batch_features.bits & FEATURE_REPETITION) == FEATURE_REPETITION
                                ==> (tile_flags.bits & BRUSH_NORMALIZED_UVS) == 0,
                            forall|k: int| 0 <= k < n ==> render_tasks.spec_contains(
                                (#[trigger] visible_tiles@[k]).src_color,
                            ) && render_tasks.spec_location(visible_tiles@[k].src_color)
                                is Some,
                            task_address == self.batcher.render_task_address,
                            image_blend == (if needs_blending {
                                if *premultiplied {
                                    BlendMode::PremultipliedAlpha
                                } else {
                                    BlendMode::Alpha
                                }
                            } else {
                                BlendMode::NoBlend
                            }),
                        decreases n - i,
                    {
                        if i % chunk_size == 0 {
                            let gpu_handle = gpu_cache.push_per_frame_blocks(1023);
                            let chunk_header = PrimitiveHeader {
                                local_rect: prim_rect,
                                local_clip_rect: prim_instance.vis.local_clip_rect,
                                specific_prim_address: gpu_cache.get_address(&gpu_handle),
                                transform_id,
                            };
                            prim_header_index = prim_headers.push(
                                &chunk_header,
                                z_id,
                                task_address,
                                prim_user_data,
                            );
                        }
                        let tile = visible_tiles[i];
                        let loc = render_tasks.resolve_location(tile.src_color);
                        let (uv_rect_address, texture) = match loc {
                            Some(pair) => pair,
                            None => {
                                proof {
                                    assert(false);
                                }
                                (0i32, TextureSource::Invalid)
                            }
                        };
                        let tile_textures = BatchTextures::prim_textured(texture, clip_mask);
                        let batch_key = BatchKey {
                            blend_mode: image_blend,
                            kind: BatchKind::Brush(
                                BrushBatchKind::Image(texture.image_buffer_kind()),
                            ),
                            textures: tile_textures,
                        };
                        self.add_brush_instance_to_batches(
                            batch_key,
                            batch_features,
                            &bounding_rect,
                            z_id,
                            (i % chunk_size) as i32,
                            tile.edge_flags,
                            clip_task_address,
                            tile_flags,
                            prim_header_index,
                            uv_rect_address,
                        );
                        i = i + 1;
                    }
                }
            }
            PrimitiveInstanceKind::LinearGradient {
                gpu_cache_handle,
                visible_tiles,
                brush_segments,
                ..
            } => {
                let polygons_address = match extra_prim_gpu_address {
                    Some(address) => address,
                    None => {
                        proof {
                            assert(false);
                        }
                        0
                    }
                };
                let user_data = PrimUserData {
                    data0: polygons_address,
                    data1: 0,
                    data2: 0,
                    data3: 0,
                };
                if visible_tiles.len() == 0 {
                    let batch_params = BrushBatchParameters::shared(
                        BrushBatchKind::LinearGradient,
                        TextureSet::untextured(),
                        user_data,
                        0,
                    );
                    let prim_header = PrimitiveHeader {
                        local_rect: prim_rect,
                        local_clip_rect: prim_instance.vis.local_clip_rect,
                        specific_prim_address: gpu_cache.get_address(gpu_cache_handle),
                        transform_id,
                    };
                    let prim_header_index = prim_headers.push(
                        &prim_header,
                        z_id,
                        task_address,
                        user_data,
                    );
                    if brush_segments.len() == 0 {
                        self.add_segmented_prim_to_batch(
                            None,
                            prim_instance.common.is_opaque,
                            &batch_params,
                            blend_mode,
                            batch_features,
                            brush_flags,
                            prim_instance.common.edge_aa_mask,
                            prim_header_index,
                            &bounding_rect,
                            transform_kind,
                            z_id,
                            prim_instance.vis.clip_task_index,
                            ctx,
                            render_tasks,
                        );
                    } else {
                        self.add_segmented_prim_to_batch(
                            Some(brush_segments),
                            prim_instance.common.is_opaque,
                            &batch_params,
                            blend_mode,
                            batch_features,
                            brush_flags,
                            prim_instance.common.edge_aa_mask,
                            prim_header_index,
                            &bounding_rect,
                            transform_kind,
                            z_id,
                            prim_instance.vis.clip_task_index,
                            ctx,
                            render_tasks,
                        );
                    }
                } else {
                    let clip = ctx.get_prim_clip_task_and_texture(
                        prim_instance.vis.clip_task_index,
                        render_tasks,
                    );
                    let (clip_task_address, clip_mask) = match clip {
                        Some(pair) => pair,
                        None => {
                            proof {
                                assert(false);
                            }
                            (0u32, TextureSource::Invalid)
                        }
                    };
                    let key = BatchKey {
                        blend_mode,
                        kind: BatchKind::Brush(BrushBatchKind::LinearGradient),
                        textures: BatchTextures::prim_untextured(clip_mask),
                    };
                    let tile_flags = brush_flags.union(
                        BrushFlags::from_bits(BRUSH_PERSPECTIVE_INTERPOLATION),
                    );
                    proof {
                        lemma_flag_constants();
                        lemma_union_norm_clear(brush_flags.bits, BRUSH_PERSPECTIVE_INTERPOLATION);
                    }
                    let n = visible_tiles.len();
                    let mut i: usize = 0;
                    while i < n
                        invariant
                            n == visible_tiles@.len(),
                            n < 0x10000,
                            0 <= i <= n,
                            self.batcher.wf(),
                            batcher_config_kept(old(self).batcher, self.batcher),
                            batcher_lens_grow(old(self).batcher, self.batcher, i as int),
                            old(self).batcher.spec_room(0x20000),
                            builder_total(self.batcher) == builder_total(old(self).batcher)
                                + i as int,
                            prim_headers.headers@.len() <= old(prim_headers).headers@.len() + 1
                                + i,
                            old(prim_headers).headers@.len() < 0x10000000,
                            bounding_rect.wf(),
                            (tile_flags.bits & BRUSH_NORMALIZED_UVS) == 0,
                            forall|k: int| 0 <= k < n ==> (#[trigger] visible_tiles@[k])
                                .handle.address is Some,
                            task_address == self.batcher.render_task_address,
                        decreases n - i,
                    {
                        let tile = visible_tiles[i];
                        proof {
                            assert(visible_tiles@[i as int].handle.address is Some);
                        }
                        let tile_prim_header = PrimitiveHeader {
                            local_rect: tile.local_rect,
                            local_clip_rect: tile.local_clip_rect,
                            specific_prim_address: gpu_cache.get_address(&tile.handle),
                            transform_id,
                        };
                        let prim_header_index = prim_headers.push(
                            &tile_prim_header,
                            z_id,
                            task_address,
                            user_data,
                        );
                        self.add_brush_instance_to_batches(
                            key,
                            batch_features,
                            &bounding_rect,
                            z_id,
                            INVALID_SEGMENT_INDEX,
                            prim_instance.common.edge_aa_mask,
                            clip_task_address,
                            tile_flags,
                            prim_header_index,
                            0,
                        );
                        i = i + 1;
                    }
                }
            }
            PrimitiveInstanceKind::ImageBorder { src_color, brush_segments } => {
                let loc = render_tasks.resolve_location(*src_color);
                let (uv_rect_address, texture_source) = match loc {
                    Some(pair) => pair,
                    None => {
                        return;
                    }
                };
                let textures_set = TextureSet::prim_textured(texture_source);
                let specific = gpu_cache.get_address(&prim_instance.common.gpu_cache_handle);
                let prim_header = PrimitiveHeader {
                    local_rect: prim_rect,
                    local_clip_rect: prim_instance.vis.local_clip_rect,
                    specific_prim_address: specific,
                    transform_id,
                };
                let batch_params = BrushBatchParameters::shared(
                    BrushBatchKind::Image(texture_source.image_buffer_kind()),
                    textures_set,
                    ImageBrushData {
                        color_mode: ShaderColorMode::Image,
                        alpha_type: AlphaType::PremultipliedAlpha,
                        raster_space: RasterizationSpace::Local,
                        opacity: SHADER_OPACITY_FULL,
                    }.encode(),
                    uv_rect_address,
                );
                let prim_header_index = prim_headers.push(
                    &prim_header,
                    z_id,
                    task_address,
                    batch_params.prim_user_data,
                );
                if brush_segments.len() == 0 {
                    self.add_segmented_prim_to_batch(
                        None,
                        prim_instance.common.is_opaque,
                        &batch_params,
                        blend_mode,
                        batch_features,
                        brush_flags,
                        prim_instance.common.edge_aa_mask,
                        prim_header_index,
                        &bounding_rect,
                        transform_kind,
                        z_id,
                        prim_instance.vis.clip_task_index,
                        ctx,
                        render_tasks,
                    );
                } else {
                    self.add_segmented_prim_to_batch(
                        Some(brush_segments),
                        prim_instance.common.is_opaque,
                        &batch_params,
                        blend_mode,
                        batch_features,
                        brush_flags,
                        prim_instance.common.edge_aa_mask,
                        prim_header_index,
                        &bounding_rect,
                        transform_kind,
                        z_id,
                        prim_instance.vis.clip_task_index,
                        ctx,
                        render_tasks,
                    );
                }
            }
            PrimitiveInstanceKind::BackdropRender { pic_task_id } => {
                let backdrop_address = gpu_cache.get_address(&ctx.default_image_handle);
                let clip = ctx.get_prim_clip_task_and_texture(
                    prim_instance.vis.clip_task_index,
                    render_tasks,
                );
                let (clip_task_address, clip_mask_texture_id) = match clip {
                    Some(pair) => pair,
                    None => {
                        proof {
                            assert(false);
                        }
                        (0u32, TextureSource::Invalid)
                    }
                };
                let loc = render_tasks.resolve_location(*pic_task_id);
                let (_uv, texture) = match loc {
                    Some(pair) => pair,
                    None => {
                        proof {
                            assert(false);
                        }
                        (0i32, TextureSource::Invalid)
                    }
                };
                let key = BatchKey::new(
                    BatchKind::Brush(
                        BrushBatchKind::Image(crate::texture::ImageBufferKind::Texture2D),
                    ),
                    BlendMode::PremultipliedAlpha,
                    BatchTextures::prim_textured(texture, clip_mask_texture_id),
                );
                let prim_header = PrimitiveHeader {
                    local_rect: prim_rect,
                    local_clip_rect: prim_instance.vis.local_clip_rect,
                    specific_prim_address: backdrop_address,
                    transform_id,
                };
                let prim_header_index = prim_headers.push(
                    &prim_header,
                    z_id,
                    task_address,
                    ImageBrushData {
                        color_mode: ShaderColorMode::Image,
                        alpha_type: AlphaType::PremultipliedAlpha,
                        raster_space: RasterizationSpace::Screen,
                        opacity: SHADER_OPACITY_FULL,
                    }.encode(),
                );
                let uv_rect_handle = gpu_cache.push_per_frame_blocks(6);
                let resource_address = gpu_cache.get_address(&uv_rect_handle);
                self.add_brush_instance_to_batches(
                    key,
                    batch_features,
                    &bounding_rect,
                    z_id,
                    INVALID_SEGMENT_INDEX,
                    EdgeAaSegmentMask::all(),
                    clip_task_address,
                    brush_flags,
                    prim_header_index,
                    resource_address,
                );
            }
        }
    }
}

} // verus!
