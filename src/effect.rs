use vstd::prelude::*;
use vstd::string::*;
use crate::ids::EffectMaterialId;
use crate::render_states::{Blend, BlendEquationType, BlendMultiplierType, Cull, DepthTest, RenderStates, WriteMask};

verus! {

/// The text of an optional shader helper, empty when it is absent.
pub open spec fn text_or_empty(t: Option<Seq<char>>) -> Seq<char> {
    match t {
        Some(s) => s,
        None => Seq::empty(),
    }
}

/// The fragment shader of the resolve effect: the color-texture helper, the
/// depth-texture helper, tone mapping and color mapping, each followed by a
/// line break, then the effect's own body. Helpers come before the body that
/// calls them.
pub open spec fn oit_fragment_source(
    color_texture: Option<Seq<char>>,
    depth_texture: Option<Seq<char>>,
    tone_mapping: Seq<char>,
    color_mapping: Seq<char>,
    body: Seq<char>,
) -> Seq<char> {
    text_or_empty(color_texture) + seq!['\n'] + text_or_empty(depth_texture) + seq!['\n'] + tone_mapping
        + seq!['\n'] + color_mapping + seq!['\n'] + body
}

/// The uniform groups a draw must push into the compiled program.
#[derive(Clone, Copy, Debug, PartialEq, Eq, Structural)]
pub struct UniformGroups {
    pub color_texture: bool,
    pub depth_texture: bool,
    pub tone_mapping: bool,
    pub color_mapping: bool,
}

/// Resolves order-independent transparency: a full-screen pass that
/// composites the accumulated transparent contributions onto the target.
#[derive(Clone, Copy, Debug, PartialEq, Eq, Structural)]
pub struct OitResolveEffect {
    /// How the resolved color is blended into the render target.
    pub blend: Blend,
}

/// The blend of a resolve pass: the source weighted by one minus its alpha,
/// the destination by the source alpha, added on both channels.
pub open spec fn oit_default_blend() -> Blend {
    Blend::Enabled {
        source_rgb_multiplier: BlendMultiplierType::OneMinusSrcAlpha,
        source_alpha_multiplier: BlendMultiplierType::OneMinusSrcAlpha,
        destination_rgb_multiplier: BlendMultiplierType::SrcAlpha,
        destination_alpha_multiplier: BlendMultiplierType::SrcAlpha,
        rgb_equation: BlendEquationType::Add,
        alpha_equation: BlendEquationType::Add,
    }
}

impl Default for OitResolveEffect {
    fn default() -> (r: OitResolveEffect)
        ensures
            r.blend == oit_default_blend(),
    {
        OitResolveEffect {
            blend: Blend::Enabled {
                source_rgb_multiplier: BlendMultiplierType::OneMinusSrcAlpha,
                source_alpha_multiplier: BlendMultiplierType::OneMinusSrcAlpha,
                destination_rgb_multiplier: BlendMultiplierType::SrcAlpha,
                destination_alpha_multiplier: BlendMultiplierType::SrcAlpha,
                rgb_equation: BlendEquationType::Add,
                alpha_equation: BlendEquationType::Add,
            },
        }
    }
}

impl OitResolveEffect {
    /// Composes the fragment shader from the sampling helpers of the bound
    /// input textures, the tone-mapping and color-mapping helpers and the
    /// effect's body.
    pub fn fragment_shader_source(
        &self,
        color_texture: Option<&str>,
        depth_texture: Option<&str>,
        tone_mapping: &str,
        color_mapping: &str,
        body: &str,
    ) -> (r: String)
        ensures
            r@ == oit_fragment_source(
                match color_texture {
                    Some(t) => Some(t@),
                    None => None,
                },
                match depth_texture {
                    Some(t) => Some(t@),
                    None => None,
                },
                tone_mapping@,
                color_mapping@,
                body@,
            ),
    {
        let newline = "\n";
        proof {
            reveal_strlit("\n");
        }
        assert(newline@ == seq!['\n']);
        let mut r = String::new();
        if let Some(t) = color_texture {
            r.append(t);
        }
        r.append(newline);
        if let Some(t) = depth_texture {
            r.append(t);
        }
        r.append(newline);
        r.append(tone_mapping);
        r.append(newline);
        r.append(color_mapping);
        r.append(newline);
        r.append(body);
        r
    }

    /// The fragment-stage identity: this variant and which input textures are
    /// bound.
    pub fn id(&self, color_texture: bool, depth_texture: bool) -> (r: EffectMaterialId)
        ensures
            r == (EffectMaterialId::OitResolveEffect { color_texture, depth_texture }),
    {
        EffectMaterialId::OitResolveEffect { color_texture, depth_texture }
    }

    /// The uniforms a draw pushes: the bindings of each bound input texture,
    /// and always the tone-mapping and color-mapping parameters.
    pub fn use_uniforms(&self, color_texture: bool, depth_texture: bool) -> (r: UniformGroups)
        ensures
            r == (UniformGroups { color_texture, depth_texture, tone_mapping: true, color_mapping: true }),
    {
        UniformGroups { color_texture, depth_texture, tone_mapping: true, color_mapping: true }
    }

    /// A full-screen resolve: every fragment passes the depth test, nothing is
    /// culled, only color is written, with this effect's blend.
    pub fn render_states(&self) -> (r: RenderStates)
        ensures
            r.depth_test == DepthTest::Always,
            r.cull == Cull::Disabled,
            r.write_mask == (WriteMask { red: true, green: true, blue: true, alpha: true, depth: false }),
            r.blend == self.blend,
    {
        RenderStates { depth_test: DepthTest::Always, cull: Cull::Disabled, write_mask: WriteMask::color(), blend: self.blend }
    }
}

} // verus!
