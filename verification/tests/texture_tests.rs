use batching::key::{BatchKey, BatchKind, BlendMode, BrushBatchKind};
use batching::texture::{BatchTextures, CacheTextureId, Swizzle, TextureSet, TextureSource};

fn tex(id: u64) -> TextureSource {
    TextureSource::TextureCache(CacheTextureId(id), Swizzle::Rgba8)
}

#[test]
fn slot_compatibility_invalid_fits_anything() {
    assert!(TextureSource::Invalid.is_compatible(&tex(1)));
    assert!(tex(1).is_compatible(&TextureSource::Invalid));
    assert!(tex(1).is_compatible(&tex(1)));
    assert!(!tex(1).is_compatible(&tex(2)));
}

#[test]
fn slot_compatibility_is_symmetric() {
    let slots = [TextureSource::Invalid, TextureSource::Dummy, tex(1), tex(2)];
    for a in slots.iter() {
        for b in slots.iter() {
            assert_eq!(a.is_compatible(b), b.is_compatible(a));
        }
    }
}

#[test]
fn combine_invalid_is_identity_on_either_side() {
    for x in [TextureSource::Invalid, TextureSource::Dummy, tex(5)] {
        assert_eq!(TextureSource::Invalid.combine(x), x);
        assert_eq!(x.combine(TextureSource::Invalid), x);
    }
}

#[test]
fn combine_keeps_concrete_binding() {
    assert_eq!(tex(3).combine(tex(3)), tex(3));
    // The concrete right-hand binding wins.
    assert_eq!(TextureSource::Invalid.combine(tex(9)), tex(9));
}

#[test]
fn batch_textures_compatibility_symmetric() {
    let a = BatchTextures::prim_textured(tex(1), TextureSource::Invalid);
    let b = BatchTextures::prim_untextured(tex(7));
    let c = BatchTextures::prim_textured(tex(2), tex(7));
    for x in [a, b, c] {
        for y in [a, b, c] {
            assert_eq!(x.is_compatible_with(&y), y.is_compatible_with(&x));
        }
    }
}

#[test]
fn combine_textures_widens_invalid_slots_only() {
    let a = BatchTextures::prim_textured(tex(1), TextureSource::Invalid);
    let b = BatchTextures::prim_untextured(tex(7));
    let merged = a.combine_textures(b).expect("compatible sets must merge");
    assert_eq!(merged.input.color0, tex(1));
    assert_eq!(merged.clip_mask, tex(7));

    let c = BatchTextures::prim_textured(tex(2), TextureSource::Invalid);
    assert!(a.combine_textures(c).is_none());
}

#[test]
fn merge_widens_in_place() {
    let mut a = BatchTextures::empty();
    let b = BatchTextures::prim_textured(tex(4), tex(9));
    a.merge(&b);
    assert_eq!(a.input.color0, tex(4));
    assert_eq!(a.clip_mask, tex(9));
    // Merging a compatible key never overwrites a concrete binding.
    let c = BatchTextures::prim_untextured(TextureSource::Invalid);
    a.merge(&c);
    assert_eq!(a.input.color0, tex(4));
    assert_eq!(a.clip_mask, tex(9));
}

#[test]
fn key_compatibility_needs_kind_blend_and_textures() {
    let solid = BatchKey::new(
        BatchKind::Brush(BrushBatchKind::Solid),
        BlendMode::PremultipliedAlpha,
        BatchTextures::empty(),
    );
    let solid2 = BatchKey::new(
        BatchKind::Brush(BrushBatchKind::Solid),
        BlendMode::PremultipliedAlpha,
        BatchTextures::prim_textured(tex(1), TextureSource::Invalid),
    );
    let blend = BatchKey::new(
        BatchKind::Brush(BrushBatchKind::Blend),
        BlendMode::PremultipliedAlpha,
        BatchTextures::empty(),
    );
    let opaque = BatchKey::new(
        BatchKind::Brush(BrushBatchKind::Solid),
        BlendMode::NoBlend,
        BatchTextures::empty(),
    );
    assert!(solid.is_compatible_with(&solid2));
    assert!(solid2.is_compatible_with(&solid));
    assert!(!solid.is_compatible_with(&blend));
    assert!(!solid.is_compatible_with(&opaque));
}
