use vstd::prelude::*;

verus! {

/// Which fragments the depth test lets through.
#[derive(Clone, Copy, Debug, PartialEq, Eq, Structural)]
pub enum DepthTest {
    Never,
    Less,
    Equal,
    LessOrEqual,
    Greater,
    NotEqual,
    GreaterOrEqual,
    Always,
}

/// Which faces are discarded before rasterisation.
#[derive(Clone, Copy, Debug, PartialEq, Eq, Structural)]
pub enum Cull {
    Disabled,
    Back,
    Front,
    FrontAndBack,
}

/// Which channels of the render target a draw may write.
#[derive(Clone, Copy, Debug, PartialEq, Eq, Structural)]
pub struct WriteMask {
    pub red: bool,
    pub green: bool,
    pub blue: bool,
    pub alpha: bool,
    pub depth: bool,
}

impl WriteMask {
    /// Writes the four color channels and leaves the depth buffer untouched.
    pub fn color() -> (r: WriteMask)
        ensures
            r.red && r.green && r.blue && r.alpha,
            !r.depth,
    {
        WriteMask { red: true, green: true, blue: true, alpha: true, depth: false }
    }

    /// Writes the depth buffer only.
    pub fn depth() -> (r: WriteMask)
        ensures
            !r.red && !r.green && !r.blue && !r.alpha,
            r.depth,
    {
        WriteMask { red: false, green: false, blue: false, alpha: false, depth: true }
    }

    /// Writes every channel.
    pub fn color_and_depth() -> (r: WriteMask)
        ensures
            r.red && r.green && r.blue && r.alpha && r.depth,
    {
        WriteMask { red: true, green: true, blue: true, alpha: true, depth: true }
    }
}

/// The factor a blend applies to the source or the destination.
#[derive(Clone, Copy, Debug, PartialEq, Eq, Structural)]
pub enum BlendMultiplierType {
    Zero,
    One,
    SrcColor,
    OneMinusSrcColor,
    SrcAlpha,
    OneMinusSrcAlpha,
    DstAlpha,
    OneMinusDstAlpha,
    DstColor,
    OneMinusDstColor,
    SrcAlphaSaturate,
}

/// How the weighted source and destination are combined.
#[derive(Clone, Copy, Debug, PartialEq, Eq, Structural)]
pub enum BlendEquationType {
    Add,
    Subtract,
    ReverseSubtract,
    Max,
    Min,
}

/// The blend stage of the pipeline.
#[derive(Clone, Copy, Debug, PartialEq, Eq, Structural)]
pub enum Blend {
    Enabled {
        source_rgb_multiplier: BlendMultiplierType,
        source_alpha_multiplier: BlendMultiplierType,
        destination_rgb_multiplier: BlendMultiplierType,
        destination_alpha_multiplier: BlendMultiplierType,
        rgb_equation: BlendEquationType,
        alpha_equation: BlendEquationType,
    },
    Disabled,
}

/// The fixed-function configuration that accompanies a compiled program for
/// one draw. The line width, a real number, is carried beside it by the
/// drawing layer.
#[derive(Clone, Copy, Debug, PartialEq, Eq, Structural)]
pub struct RenderStates {
    pub depth_test: DepthTest,
    pub cull: Cull,
    pub write_mask: WriteMask,
    pub blend: Blend,
}

impl Default for RenderStates {
    /// Opaque drawing: nearer fragments win, every channel is written, no
    /// blending and no culling.
    fn default() -> (r: RenderStates)
        ensures
            r.depth_test == DepthTest::Less,
            r.cull == Cull::Disabled,
            r.write_mask == (WriteMask { red: true, green: true, blue: true, alpha: true, depth: true }),
            r.blend == Blend::Disabled,
    {
        RenderStates {
            depth_test: DepthTest::Less,
            cull: Cull::Disabled,
            write_mask: WriteMask::color_and_depth(),
            blend: Blend::Disabled,
        }
    }
}

} // verus!
