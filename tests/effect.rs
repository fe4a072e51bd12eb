use render_dispatch::effect::{OitResolveEffect, UniformGroups};
use render_dispatch::ids::EffectMaterialId;
use render_dispatch::render_states::{
    Blend, BlendEquationType, BlendMultiplierType, Cull, DepthTest, RenderStates, WriteMask,
};

#[test]
fn oit_resolve_render_states() {
    let effect = OitResolveEffect::default();
    let states = effect.render_states();
    match states.blend {
        Blend::Enabled { rgb_equation, alpha_equation, .. } => {
            assert_eq!(rgb_equation, BlendEquationType::Add);
            assert_eq!(alpha_equation, BlendEquationType::Add);
        }
        Blend::Disabled => panic!("resolve must blend"),
    }
    assert_eq!(states.depth_test, DepthTest::Always);
    assert_eq!(states.cull, Cull::Disabled);
    assert!(!states.write_mask.depth);
    assert_eq!(states.write_mask, WriteMask::color());
}

#[test]
fn oit_default_blend_multipliers() {
    let effect = OitResolveEffect::default();
    assert_eq!(
        effect.blend,
        Blend::Enabled {
            source_rgb_multiplier: BlendMultiplierType::OneMinusSrcAlpha,
            source_alpha_multiplier: BlendMultiplierType::OneMinusSrcAlpha,
            destination_rgb_multiplier: BlendMultiplierType::SrcAlpha,
            destination_alpha_multiplier: BlendMultiplierType::SrcAlpha,
            rgb_equation: BlendEquationType::Add,
            alpha_equation: BlendEquationType::Add,
        }
    );
}

#[test]
fn oit_render_states_keep_custom_blend() {
    let effect = OitResolveEffect { blend: Blend::Disabled };
    let states = effect.render_states();
    assert_eq!(states.blend, Blend::Disabled);
    assert_eq!(states.depth_test, DepthTest::Always);
    assert_ne!(states, RenderStates::default());
}

#[test]
fn oit_fragment_source_with_both_textures() {
    let effect = OitResolveEffect::default();
    let s = effect.fragment_shader_source(Some("COLOR"), Some("DEPTH"), "TONE", "CMAP", "BODY");
    assert_eq!(s, "COLOR\nDEPTH\nTONE\nCMAP\nBODY");
}

#[test]
fn oit_fragment_source_without_textures() {
    let effect = OitResolveEffect::default();
    let s = effect.fragment_shader_source(None, None, "tone()", "cmap()", "void main() {}");
    assert_eq!(s, "\n\ntone()\ncmap()\nvoid main() {}");
}

#[test]
fn oit_fragment_source_color_only() {
    let effect = OitResolveEffect::default();
    let s = effect.fragment_shader_source(Some("c"), None, "t", "m", "b");
    assert_eq!(s, "c\n\nt\nm\nb");
}

#[test]
fn oit_id_follows_texture_presence() {
    let effect = OitResolveEffect::default();
    assert_eq!(
        effect.id(true, false),
        EffectMaterialId::OitResolveEffect { color_texture: true, depth_texture: false }
    );
    assert_ne!(effect.id(true, false), effect.id(false, true));
    assert_ne!(effect.id(false, false), effect.id(true, true));
}

#[test]
fn oit_uniforms_follow_bound_textures() {
    let effect = OitResolveEffect::default();
    assert_eq!(
        effect.use_uniforms(false, true),
        UniformGroups { color_texture: false, depth_texture: true, tone_mapping: true, color_mapping: true }
    );
    assert_eq!(
        effect.use_uniforms(true, false),
        UniformGroups { color_texture: true, depth_texture: false, tone_mapping: true, color_mapping: true }
    );
}

#[test]
fn default_render_states_are_opaque() {
    let s = RenderStates::default();
    assert_eq!(s.depth_test, DepthTest::Less);
    assert_eq!(s.cull, Cull::Disabled);
    assert_eq!(s.write_mask, WriteMask::color_and_depth());
    assert_eq!(s.blend, Blend::Disabled);
    assert!(WriteMask::depth().depth && !WriteMask::depth().red);
}
