//! Texture bindings and batch identity.
//!
//! A draw batch is identified by a [`BatchKey`]: the shader kind, the blend
//! mode and the set of texture bindings it needs. Two keys are *compatible*
//! when one batch could absorb the other's primitives: equal kind and blend
//! mode, and slot-wise compatible textures, where an unbound slot fits with
//! anything and a bound slot only with itself.

use vstd::prelude::*;

verus! {

/// Identity of a texture held in the texture cache.
#[derive(Clone, Copy, Debug, PartialEq, Eq, Structural)]
pub struct CacheTextureId(pub u64);

/// Channel reordering applied when a texture is sampled.
#[derive(Clone, Copy, Debug, PartialEq, Eq, Structural)]
pub enum Swizzle {
    Rgba8,
    Bgra8,
}

/// A texture that a shader can sample from, or `Invalid` for an unbound slot.
#[derive(Clone, Copy, Debug, PartialEq, Eq, Structural)]
pub enum TextureSource {
    /// The slot is unused; it fits with any concrete binding.
    Invalid,
    /// A placeholder binding used when a shader requires a bound slot but the
    /// batch has no meaningful texture for it.
    Dummy,
    /// A concrete texture in the texture cache.
    TextureCache(CacheTextureId, Swizzle),
}

/// The sampler binding class a texture needs in the shader.
#[derive(Clone, Copy, Debug, PartialEq, Eq, Structural)]
pub enum ImageBufferKind {
    Texture2D,
    TextureRect,
}

impl TextureSource {
    /// Two slots fit together when at least one is unbound or both name the
    /// same texture.
    pub open spec fn spec_is_compatible(self, other: TextureSource) -> bool {
        self == TextureSource::Invalid || other == TextureSource::Invalid || self == other
    }

    /// The concrete binding wins; an unbound right-hand side keeps the left.
    pub open spec fn spec_combine(self, other: TextureSource) -> TextureSource {
        if other == TextureSource::Invalid {
            self
        } else {
            other
        }
    }

    pub fn is_compatible(&self, other: &TextureSource) -> (r: bool)
        ensures
            r == self.spec_is_compatible(*other),
    {
        *self == TextureSource::Invalid || *other == TextureSource::Invalid || *self == *other
    }

    pub fn combine(&self, other: TextureSource) -> (r: TextureSource)
        ensures
            r == self.spec_combine(other),
    {
        if other == TextureSource::Invalid {
            *self
        } else {
            other
        }
    }

    /// The sampler class this source needs when used as an image brush.
    pub fn image_buffer_kind(&self) -> (r: ImageBufferKind)
        ensures
            r == ImageBufferKind::Texture2D,
    {
        ImageBufferKind::Texture2D
    }
}

/// Slot compatibility is symmetric: either side may offer the unbound slot.
pub proof fn lemma_source_compatibility_symmetric(a: TextureSource, b: TextureSource)
    ensures
        a.spec_is_compatible(b) == b.spec_is_compatible(a),
{
}

/// An unbound slot is the identity of `combine`, on either side.
pub proof fn lemma_combine_invalid_identity(x: TextureSource)
    ensures
        TextureSource::Invalid.spec_combine(x) == x,
        x.spec_combine(TextureSource::Invalid) == x,
{
}

/// Once a slot holds a concrete binding, combining in a compatible slot
/// cannot change it: only an unbound slot is ever widened.
pub proof fn lemma_combine_preserves_bound_slot(a: TextureSource, b: TextureSource)
    requires
        a.spec_is_compatible(b),
        a != TextureSource::Invalid,
    ensures
        a.spec_combine(b) == a,
{
}

/// The color input texture slots of a primitive, without the clip mask.
#[derive(Clone, Copy, Debug, PartialEq, Eq, Structural)]
pub struct TextureSet {
    pub color0: TextureSource,
    pub color1: TextureSource,
    pub color2: TextureSource,
}

impl TextureSet {
    /// The set with every slot unbound, as a specification value.
    pub open spec fn spec_untextured() -> TextureSet {
        TextureSet {
            color0: TextureSource::Invalid,
            color1: TextureSource::Invalid,
            color2: TextureSource::Invalid,
        }
    }

    /// One bound color slot, the rest unbound, as a specification value.
    pub open spec fn spec_prim_textured(color: TextureSource) -> TextureSet {
        TextureSet {
            color0: color,
            color1: TextureSource::Invalid,
            color2: TextureSource::Invalid,
        }
    }

    pub open spec fn spec_is_compatible_with(self, other: TextureSet) -> bool {
        self.color0.spec_is_compatible(other.color0)
            && self.color1.spec_is_compatible(other.color1)
            && self.color2.spec_is_compatible(other.color2)
    }

    pub open spec fn spec_combine(self, other: TextureSet) -> TextureSet {
        TextureSet {
            color0: self.color0.spec_combine(other.color0),
            color1: self.color1.spec_combine(other.color1),
            color2: self.color2.spec_combine(other.color2),
        }
    }

    /// A set with every slot unbound.
    pub fn untextured() -> (r: TextureSet)
        ensures
            r == TextureSet::spec_untextured(),
    {
        TextureSet {
            color0: TextureSource::Invalid,
            color1: TextureSource::Invalid,
            color2: TextureSource::Invalid,
        }
    }

    /// A primitive sampling one color texture.
    pub fn prim_textured(color: TextureSource) -> (r: TextureSet)
        ensures
            r == TextureSet::spec_prim_textured(color),
    {
        TextureSet {
            color0: color,
            color1: TextureSource::Invalid,
            color2: TextureSource::Invalid,
        }
    }

    pub fn is_compatible_with(&self, other: &TextureSet) -> (r: bool)
        ensures
            r == self.spec_is_compatible_with(*other),
    {
        self.color0.is_compatible(&other.color0)
            && self.color1.is_compatible(&other.color1)
            && self.color2.is_compatible(&other.color2)
    }
}

/// Input texture slots of a batch together with its clip-mask slot.
#[derive(Clone, Copy, Debug, PartialEq, Eq, Structural)]
pub struct BatchTextures {
    pub input: TextureSet,
    pub clip_mask: TextureSource,
}

impl BatchTextures {
    pub open spec fn spec_is_compatible_with(self, other: BatchTextures) -> bool {
        self.clip_mask.spec_is_compatible(other.clip_mask)
            && self.input.spec_is_compatible_with(other.input)
    }

    /// Slot-wise widening: every unbound slot takes the other side's binding.
    pub open spec fn spec_merge(self, other: BatchTextures) -> BatchTextures {
        BatchTextures {
            input: self.input.spec_combine(other.input),
            clip_mask: self.clip_mask.spec_combine(other.clip_mask),
        }
    }

    /// No binding slots set at all.
    pub fn empty() -> (r: BatchTextures)
        ensures
            r.input == TextureSet::spec_untextured(),
            r.clip_mask == TextureSource::Invalid,
    {
        BatchTextures {
            input: TextureSet::untextured(),
            clip_mask: TextureSource::Invalid,
        }
    }

    /// A textured primitive with an optional clip mask.
    pub fn prim_textured(color: TextureSource, clip_mask: TextureSource) -> (r: BatchTextures)
        ensures
            r.input == TextureSet::spec_prim_textured(color),
            r.clip_mask == clip_mask,
    {
        BatchTextures {
            input: TextureSet::prim_textured(color),
            clip_mask,
        }
    }

    /// An untextured primitive with an optional clip mask.
    pub fn prim_untextured(clip_mask: TextureSource) -> (r: BatchTextures)
        ensures
            r.input == TextureSet::spec_untextured(),
            r.clip_mask == clip_mask,
    {
        BatchTextures {
            input: TextureSet::untextured(),
            clip_mask,
        }
    }

    /// A composite effect with a single input texture and no clip mask.
    pub fn composite_rgb(texture: TextureSource) -> (r: BatchTextures)
        ensures
            r.input == TextureSet::spec_prim_textured(texture),
            r.clip_mask == TextureSource::Invalid,
    {
        BatchTextures {
            input: TextureSet::prim_textured(texture),
            clip_mask: TextureSource::Invalid,
        }
    }

    /// A composite effect with up to three input textures and no clip mask.
    pub fn composite_yuv(
        color0: TextureSource,
        color1: TextureSource,
        color2: TextureSource,
    ) -> (r: BatchTextures)
        ensures
            r.input == (TextureSet { color0, color1, color2 }),
            r.clip_mask == TextureSource::Invalid,
    {
        BatchTextures {
            input: TextureSet { color0, color1, color2 },
            clip_mask: TextureSource::Invalid,
        }
    }

    pub fn is_compatible_with(&self, other: &BatchTextures) -> (r: bool)
        ensures
            r == self.spec_is_compatible_with(*other),
    {
        if !self.clip_mask.is_compatible(&other.clip_mask) {
            return false;
        }
        self.input.is_compatible_with(&other.input)
    }

    /// The widened set when the two are compatible, `None` otherwise.
    pub fn combine_textures(&self, other: BatchTextures) -> (r: Option<BatchTextures>)
        ensures
            self.spec_is_compatible_with(other) ==> r == Some(self.spec_merge(other)),
            !self.spec_is_compatible_with(other) ==> r is None,
    {
        if !self.is_compatible_with(&other) {
            return None;
        }
        Some(self.merged_with(&other))
    }

    /// The in-place widening used once compatibility has been established.
    pub fn merge(&mut self, other: &BatchTextures)
        ensures
            *final(self) == old(self).spec_merge(*other),
    {
        *self = self.merged_with(other);
    }

    fn merged_with(&self, other: &BatchTextures) -> (r: BatchTextures)
        ensures
            r == self.spec_merge(*other),
    {
        BatchTextures {
            input: TextureSet {
                color0: self.input.color0.combine(other.input.color0),
                color1: self.input.color1.combine(other.input.color1),
                color2: self.input.color2.combine(other.input.color2),
            },
            clip_mask: self.clip_mask.combine(other.clip_mask),
        }
    }
}

/// Texture-set compatibility is symmetric in its two operands.
pub proof fn lemma_textures_compatibility_symmetric(a: BatchTextures, b: BatchTextures)
    ensures
        a.spec_is_compatible_with(b) == b.spec_is_compatible_with(a),
{
}

/// Widening a texture set with itself changes nothing.
pub proof fn lemma_merge_self_identity(a: BatchTextures)
    ensures
        a.spec_merge(a) == a,
{
}

} // verus!
