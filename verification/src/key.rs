//! Batch identity: shader kind, blend mode and flag sets.

use vstd::prelude::*;
use crate::texture::{BatchTextures, ImageBufferKind};

verus! {

/// Identity of a node in the render task graph.
#[derive(Clone, Copy, Debug, PartialEq, Eq, Structural)]
pub struct RenderTaskId(pub u32);

/// The format glyphs were rasterized in, which selects the text shader.
#[derive(Clone, Copy, Debug, PartialEq, Eq, Structural)]
pub enum GlyphFormat {
    Alpha,
    TransformedAlpha,
    Subpixel,
    TransformedSubpixel,
    Bitmap,
    ColorBitmap,
}

#[derive(Clone, Copy, Debug, PartialEq, Eq, Structural)]
pub enum YuvFormat {
    NV12,
    P010,
    NV16,
    PlanarYCbCr,
    InterleavedYCbCr,
}

impl YuvFormat {
    /// How many texture planes the format samples from.
    pub fn get_plane_num(&self) -> (r: usize)
        ensures
            r == self.spec_plane_num(),
    {
        match self {
            YuvFormat::NV12 | YuvFormat::P010 | YuvFormat::NV16 => 2,
            YuvFormat::PlanarYCbCr => 3,
            YuvFormat::InterleavedYCbCr => 1,
        }
    }

    pub open spec fn spec_plane_num(self) -> usize {
        match self {
            YuvFormat::NV12 | YuvFormat::P010 | YuvFormat::NV16 => 2usize,
            YuvFormat::PlanarYCbCr => 3usize,
            YuvFormat::InterleavedYCbCr => 1usize,
        }
    }
}

#[derive(Clone, Copy, Debug, PartialEq, Eq, Structural)]
pub enum ColorDepth {
    Color8,
    Color10,
    Color12,
    Color16,
}

#[derive(Clone, Copy, Debug, PartialEq, Eq, Structural)]
pub enum YuvColorSpace {
    Rec601,
    Rec709,
    Rec2020,
    Identity,
}

#[derive(Clone, Copy, Debug, PartialEq, Eq, Structural)]
pub enum ColorRange {
    Limited,
    Full,
}

/// The pattern a quad-based primitive is filled with.
#[derive(Clone, Copy, Debug, PartialEq, Eq, Structural)]
pub enum PatternKind {
    ColorOrTexture,
    RadialGradient,
    ConicGradient,
    Mask,
}

/// CSS mix-blend modes that a stacking context can composite with.
#[derive(Clone, Copy, Debug, PartialEq, Eq, Structural)]
pub enum MixBlendMode {
    Multiply,
    Screen,
    Overlay,
    Darken,
    Lighten,
    ColorDodge,
    ColorBurn,
    HardLight,
    SoftLight,
    Difference,
    Exclusion,
    Hue,
    Saturation,
    Color,
    Luminosity,
    PlusLighter,
}

/// How a batch's output is blended into the destination.
#[derive(Clone, Copy, Debug, PartialEq, Eq, Structural)]
pub enum BlendMode {
    /// No blending: the batch overwrites destination pixels.
    NoBlend,
    Alpha,
    PremultipliedAlpha,
    PremultipliedDestOut,
    SubpixelDualSource,
    Advanced(MixBlendMode),
    MultiplyDualSource,
    Screen,
    Exclusion,
    PlusLighter,
}

impl BlendMode {
    /// The blend mode a mix-blend composite can use directly, if the GPU
    /// configuration supports one; `None` means a readback path is needed.
    pub fn from_mix_blend_mode(
        mode: MixBlendMode,
        advanced_blend: bool,
        coherent: bool,
        dual_source: bool,
    ) -> (r: Option<BlendMode>)
        ensures
            r == BlendMode::spec_from_mix_blend_mode(mode, advanced_blend, coherent, dual_source),
    {
        match mode {
            MixBlendMode::Multiply if dual_source => Some(BlendMode::MultiplyDualSource),
            MixBlendMode::Screen => Some(BlendMode::Screen),
            MixBlendMode::Exclusion => Some(BlendMode::Exclusion),
            MixBlendMode::PlusLighter => Some(BlendMode::PlusLighter),
            _ if advanced_blend && coherent => Some(BlendMode::Advanced(mode)),
            _ => None,
        }
    }

    pub open spec fn spec_from_mix_blend_mode(
        mode: MixBlendMode,
        advanced_blend: bool,
        coherent: bool,
        dual_source: bool,
    ) -> Option<BlendMode> {
        if mode == MixBlendMode::Multiply && dual_source {
            Some(BlendMode::MultiplyDualSource)
        } else if mode == MixBlendMode::Screen {
            Some(BlendMode::Screen)
        } else if mode == MixBlendMode::Exclusion {
            Some(BlendMode::Exclusion)
        } else if mode == MixBlendMode::PlusLighter {
            Some(BlendMode::PlusLighter)
        } else if advanced_blend && coherent {
            Some(BlendMode::Advanced(mode))
        } else {
            None
        }
    }

    /// True for every mode that needs the order-preserving alpha list.
    pub open spec fn spec_needs_alpha_list(self) -> bool {
        self != BlendMode::NoBlend
    }
}

/// The brush shader variant a batch runs.
#[derive(Clone, Copy, Debug, PartialEq, Eq, Structural)]
pub enum BrushBatchKind {
    Solid,
    Image(ImageBufferKind),
    Blend,
    MixBlend { task_id: RenderTaskId, backdrop_id: RenderTaskId },
    YuvImage(ImageBufferKind, YuvFormat, ColorDepth, YuvColorSpace, ColorRange),
    LinearGradient,
    Opacity,
}

/// The top-level shader family a batch runs.
#[derive(Clone, Copy, Debug, PartialEq, Eq, Structural)]
pub enum BatchKind {
    SplitComposite,
    TextRun(GlyphFormat),
    Brush(BrushBatchKind),
    Quad(PatternKind),
}

/// Optional shader capabilities requested by primitives in a batch. The
/// batch records the union of everything its primitives asked for.
#[derive(Clone, Copy, Debug, PartialEq, Eq, Structural)]
pub struct BatchFeatures {
    pub bits: u8,
}

/// The batch contains primitives drawn in the blended pass.
pub const FEATURE_ALPHA_PASS: u8 = 1;

/// At least one primitive wants edge anti-aliasing.
pub const FEATURE_ANTIALIASING: u8 = 2;

/// At least one primitive repeats its pattern.
pub const FEATURE_REPETITION: u8 = 4;

/// At least one primitive may sample a clip mask.
pub const FEATURE_CLIP_MASK: u8 = 8;

impl BatchFeatures {
    pub fn empty() -> (r: BatchFeatures)
        ensures
            r.bits == 0,
    {
        BatchFeatures { bits: 0 }
    }

    pub fn from_bits(bits: u8) -> (r: BatchFeatures)
        ensures
            r.bits == bits,
    {
        BatchFeatures { bits }
    }

    pub open spec fn spec_union(self, other: BatchFeatures) -> BatchFeatures {
        BatchFeatures { bits: self.bits | other.bits }
    }

    pub fn union(&self, other: BatchFeatures) -> (r: BatchFeatures)
        ensures
            r == self.spec_union(other),
    {
        BatchFeatures { bits: self.bits | other.bits }
    }

    pub fn contains(&self, flag: u8) -> (r: bool)
        ensures
            r == ((self.bits & flag) == flag),
    {
        (self.bits & flag) == flag
    }
}

/// Per-segment edge flags naming which sides of a segment may be
/// anti-aliased.
#[derive(Clone, Copy, Debug, PartialEq, Eq, Structural)]
pub struct EdgeAaSegmentMask {
    pub bits: u8,
}

pub const EDGE_AA_LEFT: u8 = 1;

pub const EDGE_AA_TOP: u8 = 2;

pub const EDGE_AA_RIGHT: u8 = 4;

pub const EDGE_AA_BOTTOM: u8 = 8;

/// All four edges allowed.
pub const EDGE_AA_ALL: u8 = 15;

impl EdgeAaSegmentMask {
    pub fn empty() -> (r: EdgeAaSegmentMask)
        ensures
            r.bits == 0,
    {
        EdgeAaSegmentMask { bits: 0 }
    }

    pub fn all() -> (r: EdgeAaSegmentMask)
        ensures
            r.bits == EDGE_AA_ALL,
    {
        EdgeAaSegmentMask { bits: EDGE_AA_ALL }
    }

    pub fn from_bits(bits: u8) -> (r: EdgeAaSegmentMask)
        ensures
            r.bits == bits,
    {
        EdgeAaSegmentMask { bits }
    }

    pub fn is_empty(&self) -> (r: bool)
        ensures
            r == (self.bits == 0),
    {
        self.bits == 0
    }

    /// The edges allowed by both masks.
    pub fn intersect(&self, other: EdgeAaSegmentMask) -> (r: EdgeAaSegmentMask)
        ensures
            r.bits == (self.bits & other.bits),
    {
        EdgeAaSegmentMask { bits: self.bits & other.bits }
    }
}

/// Per-instance flags of the brush shaders.
#[derive(Clone, Copy, Debug, PartialEq, Eq, Structural)]
pub struct BrushFlags {
    pub bits: u16,
}

/// Apply perspective interpolation to UVs.
pub const BRUSH_PERSPECTIVE_INTERPOLATION: u16 = 1;

/// The brush is segment-relative.
pub const BRUSH_SEGMENT_RELATIVE: u16 = 2;

/// The brush repeats on the x axis.
pub const BRUSH_SEGMENT_REPEAT_X: u16 = 4;

/// The brush repeats on the y axis.
pub const BRUSH_SEGMENT_REPEAT_Y: u16 = 8;

/// UVs are normalized to the texture rather than given in texels.
pub const BRUSH_NORMALIZED_UVS: u16 = 128;

/// Anti-aliasing was requested explicitly for the whole primitive.
pub const BRUSH_FORCE_AA: u16 = 256;

impl BrushFlags {
    pub fn empty() -> (r: BrushFlags)
        ensures
            r.bits == 0,
    {
        BrushFlags { bits: 0 }
    }

    pub fn from_bits(bits: u16) -> (r: BrushFlags)
        ensures
            r.bits == bits,
    {
        BrushFlags { bits }
    }

    pub open spec fn spec_union(self, other: BrushFlags) -> BrushFlags {
        BrushFlags { bits: self.bits | other.bits }
    }

    pub fn union(&self, other: BrushFlags) -> (r: BrushFlags)
        ensures
            r == self.spec_union(other),
    {
        BrushFlags { bits: self.bits | other.bits }
    }

    pub fn contains(&self, flag: u16) -> (r: bool)
        ensures
            r == ((self.bits & flag) == flag),
    {
        (self.bits & flag) == flag
    }
}

/// A position in the depth buffer assigned to one primitive's plane.
#[derive(Clone, Copy, Debug, PartialEq, Eq, Structural)]
pub struct ZBufferId(pub i32);

impl ZBufferId {
    /// A sentinel that no generated id ever equals.
    pub fn invalid() -> (r: ZBufferId)
        ensures
            r == ZBufferId::spec_invalid(),
    {
        ZBufferId(i32::MAX)
    }

    pub open spec fn spec_invalid() -> ZBufferId {
        ZBufferId(i32::MAX)
    }
}

/// Hands out fresh depth-buffer ids in increasing order.
pub struct ZBufferIdGenerator {
    pub next_id: i32,
}

impl ZBufferIdGenerator {
    pub fn new() -> (r: ZBufferIdGenerator)
        ensures
            r.next_id == 0,
    {
        ZBufferIdGenerator { next_id: 0 }
    }

    /// The next unused id; every id handed out is distinct and none is ever
    /// the invalid sentinel.
    pub fn next(&mut self) -> (r: ZBufferId)
        requires
            old(self).next_id < i32::MAX - 1,
        ensures
            r == ZBufferId(old(self).next_id),
            final(self).next_id == old(self).next_id + 1,
            r != ZBufferId::spec_invalid(),
    {
        let id = ZBufferId(self.next_id);
        self.next_id = self.next_id + 1;
        id
    }
}

/// The identity of a batch: its shader kind, blend mode and textures.
///
/// Immutable once constructed, except that a held batch's `textures` may be
/// widened through merging in further compatible primitives.
#[derive(Clone, Copy, Debug, PartialEq, Eq, Structural)]
pub struct BatchKey {
    pub kind: BatchKind,
    pub blend_mode: BlendMode,
    pub textures: BatchTextures,
}

impl BatchKey {
    pub fn new(kind: BatchKind, blend_mode: BlendMode, textures: BatchTextures) -> (r: BatchKey)
        ensures
            r == (BatchKey { kind, blend_mode, textures }),
    {
        BatchKey { kind, blend_mode, textures }
    }

    /// Equal kind and blend mode, slot-wise compatible textures.
    pub open spec fn spec_is_compatible_with(self, other: BatchKey) -> bool {
        self.kind == other.kind && self.blend_mode == other.blend_mode
            && self.textures.spec_is_compatible_with(other.textures)
    }

    pub fn is_compatible_with(&self, other: &BatchKey) -> (r: bool)
        ensures
            r == self.spec_is_compatible_with(*other),
    {
        self.kind == other.kind && self.blend_mode == other.blend_mode
            && self.textures.is_compatible_with(&other.textures)
    }

    /// The key with its textures widened by a compatible primitive's key.
    pub open spec fn spec_merge_textures(self, other: BatchKey) -> BatchKey {
        BatchKey { textures: self.textures.spec_merge(other.textures), ..self }
    }
}

/// Key compatibility is symmetric in its two operands.
pub proof fn lemma_key_compatibility_symmetric(a: BatchKey, b: BatchKey)
    ensures
        a.spec_is_compatible_with(b) == b.spec_is_compatible_with(a),
{
    crate::texture::lemma_textures_compatibility_symmetric(a.textures, b.textures);
}

} // verus!
