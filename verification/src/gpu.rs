//! GPU-consumable per-primitive records.
//!
//! A batch carries an ordered sequence of instance records; the shader named
//! by the batch key reads one record per drawn instance. The record layouts
//! here hold the fields the shaders consume, as plain values.

use vstd::prelude::*;
use crate::geom::Rect;
use crate::key::{BrushFlags, EdgeAaSegmentMask, PatternKind, ZBufferId};

verus! {

/// Sentinel segment index used when a primitive has no segment list.
pub const INVALID_SEGMENT_INDEX: i32 = 0xffff;

/// GPU task address recognized by the shader as "no clip mask applies".
pub const OPAQUE_TASK_ADDRESS: u32 = 0x7fffffff;

/// A full-opacity value in the 16.16 fixed-point encoding the shaders use.
pub const SHADER_OPACITY_FULL: i32 = 0x10000;

/// Whether a transform is a simple scale/translation or something the
/// shaders must treat as arbitrary.
#[derive(Clone, Copy, Debug, PartialEq, Eq, Structural)]
pub enum TransformedRectKind {
    AxisAligned,
    Complex,
}

/// An entry in the transform palette, carrying the classification of the
/// transform it names.
#[derive(Clone, Copy, Debug, PartialEq, Eq, Structural)]
pub struct TransformPaletteId {
    pub index: u32,
    pub kind: TransformedRectKind,
}

impl TransformPaletteId {
    /// The identity transform's palette entry.
    pub fn identity() -> (r: TransformPaletteId)
        ensures
            r.index == 0,
            r.kind == TransformedRectKind::AxisAligned,
    {
        TransformPaletteId { index: 0, kind: TransformedRectKind::AxisAligned }
    }

    pub fn transform_kind(&self) -> (r: TransformedRectKind)
        ensures
            r == self.kind,
    {
        self.kind
    }
}

/// Index of an interned primitive header.
#[derive(Clone, Copy, Debug, PartialEq, Eq, Structural)]
pub struct PrimitiveHeaderIndex(pub i32);

/// How the text shader combines the glyph texture with the text color.
#[derive(Clone, Copy, Debug, PartialEq, Eq, Structural)]
pub enum ShaderColorMode {
    Alpha,
    SubpixelDualSource,
    BitmapShadow,
    ColorBitmap,
    Image,
    MultiplyDualSource,
}

#[derive(Clone, Copy, Debug, PartialEq, Eq, Structural)]
pub enum AlphaType {
    Alpha,
    PremultipliedAlpha,
}

#[derive(Clone, Copy, Debug, PartialEq, Eq, Structural)]
pub enum RasterizationSpace {
    Local,
    Screen,
}

/// The four per-primitive user-data words handed to a shader.
#[derive(Clone, Copy, Debug, PartialEq, Eq, Structural)]
pub struct PrimUserData {
    pub data0: i32,
    pub data1: i32,
    pub data2: i32,
    pub data3: i32,
}

/// The user-data encoding shared by every image-brush shader.
#[derive(Clone, Copy, Debug, PartialEq, Eq, Structural)]
pub struct ImageBrushData {
    pub color_mode: ShaderColorMode,
    pub alpha_type: AlphaType,
    pub raster_space: RasterizationSpace,
    /// Opacity in 16.16 fixed point.
    pub opacity: i32,
}

impl ImageBrushData {
    /// Pack the image-brush parameters into the user-data words.
    pub fn encode(&self) -> (r: PrimUserData)
        ensures
            r == self.spec_encode(),
    {
        PrimUserData {
            data0: match self.color_mode {
                ShaderColorMode::Alpha => 0,
                ShaderColorMode::SubpixelDualSource => 1,
                ShaderColorMode::BitmapShadow => 2,
                ShaderColorMode::ColorBitmap => 3,
                ShaderColorMode::Image => 4,
                ShaderColorMode::MultiplyDualSource => 5,
            },
            data1: match self.alpha_type {
                AlphaType::Alpha => 0,
                AlphaType::PremultipliedAlpha => 1,
            },
            data2: match self.raster_space {
                RasterizationSpace::Local => 0,
                RasterizationSpace::Screen => 1,
            },
            data3: self.opacity,
        }
    }

    pub open spec fn spec_encode(self) -> PrimUserData {
        PrimUserData {
            data0: match self.color_mode {
                ShaderColorMode::Alpha => 0,
                ShaderColorMode::SubpixelDualSource => 1,
                ShaderColorMode::BitmapShadow => 2,
                ShaderColorMode::ColorBitmap => 3,
                ShaderColorMode::Image => 4,
                ShaderColorMode::MultiplyDualSource => 5,
            },
            data1: match self.alpha_type {
                AlphaType::Alpha => 0,
                AlphaType::PremultipliedAlpha => 1,
            },
            data2: match self.raster_space {
                RasterizationSpace::Local => 0,
                RasterizationSpace::Screen => 1,
            },
            data3: self.opacity,
        }
    }
}

/// The per-primitive header interned once per emitted primitive; instances
/// refer to it by index.
#[derive(Clone, Copy, Debug, PartialEq, Eq, Structural)]
pub struct PrimitiveHeader {
    pub local_rect: Rect,
    pub local_clip_rect: Rect,
    pub specific_prim_address: i32,
    pub transform_id: TransformPaletteId,
}

/// One interned header together with the per-primitive values the shaders
/// read beside it.
#[derive(Clone, Copy, Debug, PartialEq, Eq, Structural)]
pub struct PrimitiveHeaderEntry {
    pub header: PrimitiveHeader,
    pub z_id: ZBufferId,
    pub render_task_address: u32,
    pub user_data: PrimUserData,
}

/// The interned store of primitive headers for one frame.
pub struct PrimitiveHeaders {
    pub headers: Vec<PrimitiveHeaderEntry>,
}

impl PrimitiveHeaders {
    pub fn new() -> (r: PrimitiveHeaders)
        ensures
            r.headers@.len() == 0,
    {
        PrimitiveHeaders { headers: Vec::new() }
    }

    /// Intern one header and return its index.
    pub fn push(
        &mut self,
        header: &PrimitiveHeader,
        z_id: ZBufferId,
        render_task_address: u32,
        user_data: PrimUserData,
    ) -> (r: PrimitiveHeaderIndex)
        requires
            old(self).headers@.len() < 0x7fffffff,
        ensures
            final(self).headers@ == old(self).headers@.push(
                PrimitiveHeaderEntry { header: *header, z_id, render_task_address, user_data },
            ),
            r == PrimitiveHeaderIndex(old(self).headers@.len() as i32),
    {
        let idx = self.headers.len();
        self.headers.push(
            PrimitiveHeaderEntry { header: *header, z_id, render_task_address, user_data },
        );
        PrimitiveHeaderIndex(idx as i32)
    }
}

/// One brush-shader instance.
#[derive(Clone, Copy, Debug, PartialEq, Eq, Structural)]
pub struct BrushInstance {
    pub prim_header_index: PrimitiveHeaderIndex,
    pub clip_task_address: u32,
    pub segment_index: i32,
    pub edge_flags: EdgeAaSegmentMask,
    pub brush_flags: BrushFlags,
    pub resource_address: i32,
}

/// One plane-splitting composite instance.
#[derive(Clone, Copy, Debug, PartialEq, Eq, Structural)]
pub struct SplitCompositeInstance {
    pub prim_header_index: PrimitiveHeaderIndex,
    pub render_task_address: u32,
    pub polygons_address: i32,
    pub z: ZBufferId,
}

/// One glyph of a text run.
#[derive(Clone, Copy, Debug, PartialEq, Eq, Structural)]
pub struct GlyphInstance {
    pub prim_header_index: PrimitiveHeaderIndex,
    pub clip_task_address: u32,
    pub index_in_text_run: i32,
    pub uv_rect_address: i32,
    pub color_mode: ShaderColorMode,
}

/// One instance of a pattern-driven quad.
#[derive(Clone, Copy, Debug, PartialEq, Eq, Structural)]
pub struct QuadInstance {
    pub pattern: PatternKind,
    pub render_task_address: u32,
    pub transform_id: TransformPaletteId,
    pub gpu_buffer_address: i32,
    pub segment_index: i32,
    pub z: ZBufferId,
}

/// An opaque GPU instance record: one drawn instance in some batch.
#[derive(Clone, Copy, Debug, PartialEq, Eq, Structural)]
pub enum PrimitiveInstanceData {
    Brush(BrushInstance),
    SplitComposite(SplitCompositeInstance),
    Glyph(GlyphInstance),
    Quad(QuadInstance),
}

} // verus!
