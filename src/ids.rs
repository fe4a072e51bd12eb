use vstd::prelude::*;

verus! {

/// The per-vertex attributes a material asks for, or a geometry can supply.
#[derive(Clone, Copy, Debug, PartialEq, Eq, Structural)]
pub struct Attributes {
    pub normal: bool,
    pub tangents: bool,
    pub uv: bool,
    pub color: bool,
}

/// One bit per attribute.
pub open spec fn attribute_bits(a: Attributes) -> nat {
    (if a.normal { 1nat } else { 0 }) + (if a.tangents { 2nat } else { 0 }) + (if a.uv { 4nat } else { 0 })
        + (if a.color { 8nat } else { 0 })
}

impl Attributes {
    /// The set with no attribute in it.
    pub fn none() -> (r: Attributes)
        ensures
            !r.normal && !r.tangents && !r.uv && !r.color,
    {
        Attributes { normal: false, tangents: false, uv: false, color: false }
    }

    /// The attributes present in both sets.
    pub fn intersection(&self, other: &Attributes) -> (r: Attributes)
        ensures
            r.normal == (self.normal && other.normal),
            r.tangents == (self.tangents && other.tangents),
            r.uv == (self.uv && other.uv),
            r.color == (self.color && other.color),
    {
        Attributes {
            normal: self.normal && other.normal,
            tangents: self.tangents && other.tangents,
            uv: self.uv && other.uv,
            color: self.color && other.color,
        }
    }

    /// The attributes packed into four bits.
    pub fn bits(&self) -> (r: u16)
        ensures
            r as nat == attribute_bits(*self),
            r < 16,
    {
        let mut r: u16 = 0;
        if self.normal {
            r = r + 1;
        }
        if self.tangents {
            r = r + 2;
        }
        if self.uv {
            r = r + 4;
        }
        if self.color {
            r = r + 8;
        }
        r
    }
}

/// Identifies the vertex stage of a program: the geometry variant together
/// with the attributes it feeds to the shader.
#[derive(Clone, Copy, Debug, PartialEq, Eq, Structural)]
pub enum GeometryId {
    Lines { colors: bool },
    Mesh { attributes: Attributes },
    InstancedMesh { attributes: Attributes },
}

/// Identifies the fragment stage of a program: the material or effect variant
/// together with which input textures it samples.
#[derive(Clone, Copy, Debug, PartialEq, Eq, Structural)]
pub enum EffectMaterialId {
    ColorMaterial { texture: bool },
    OitResolveEffect { color_texture: bool, depth_texture: bool },
}

/// A variant tag in the high byte, the variant's flags in the low bits.
pub open spec fn geometry_bits(g: GeometryId) -> nat {
    match g {
        GeometryId::Lines { colors } => 0x100 + (if colors { 1nat } else { 0 }),
        GeometryId::Mesh { attributes } => 0x200 + attribute_bits(attributes),
        GeometryId::InstancedMesh { attributes } => 0x300 + attribute_bits(attributes),
    }
}

/// A variant tag in the high byte, the texture flags in the low bits.
pub open spec fn effect_bits(e: EffectMaterialId) -> nat {
    match e {
        EffectMaterialId::ColorMaterial { texture } => 0x100 + (if texture { 1nat } else { 0 }),
        EffectMaterialId::OitResolveEffect { color_texture, depth_texture } => 0x200 + (if color_texture {
            1nat
        } else {
            0
        }) + (if depth_texture { 2nat } else { 0 }),
    }
}

/// The cache key of the program that pairs a vertex stage with a fragment
/// stage.
pub open spec fn program_key_of(g: GeometryId, e: EffectMaterialId) -> nat {
    geometry_bits(g) * 0x10000 + effect_bits(e)
}

impl GeometryId {
    pub fn bits(&self) -> (r: u16)
        ensures
            r as nat == geometry_bits(*self),
    {
        match self {
            GeometryId::Lines { colors } => if *colors {
                0x101
            } else {
                0x100
            },
            GeometryId::Mesh { attributes } => 0x200 + attributes.bits(),
            GeometryId::InstancedMesh { attributes } => 0x300 + attributes.bits(),
        }
    }
}

impl EffectMaterialId {
    pub fn bits(&self) -> (r: u16)
        ensures
            r as nat == effect_bits(*self),
    {
        match self {
            EffectMaterialId::ColorMaterial { texture } => if *texture {
                0x101
            } else {
                0x100
            },
            EffectMaterialId::OitResolveEffect { color_texture, depth_texture } => {
                let c: u16 = if *color_texture {
                    1
                } else {
                    0
                };
                let d: u16 = if *depth_texture {
                    2
                } else {
                    0
                };
                0x200 + c + d
            },
        }
    }
}

/// The key under which the program for this pair of stages is cached.
pub fn program_key(geometry: &GeometryId, effect: &EffectMaterialId) -> (r: u32)
    ensures
        r as nat == program_key_of(*geometry, *effect),
{
    let g = geometry.bits();
    let e = effect.bits();
    assert(g < 0x400 && e < 0x400);
    g as u32 * 0x10000 + e as u32
}

/// Distinct attribute sets pack into distinct bits.
pub proof fn lemma_attribute_bits_injective(a: Attributes, b: Attributes)
    ensures
        a != b ==> attribute_bits(a) != attribute_bits(b),
        attribute_bits(a) < 16,
{
}

/// Distinct vertex-stage identities have distinct bits, so two geometries
/// share a cached vertex stage only when variant and attributes agree.
pub proof fn lemma_geometry_id_injective(a: GeometryId, b: GeometryId)
    ensures
        a != b ==> geometry_bits(a) != geometry_bits(b),
        0x100 <= geometry_bits(a) < 0x400,
{
    match (a, b) {
        (GeometryId::Mesh { attributes: x }, GeometryId::Mesh { attributes: y }) => lemma_attribute_bits_injective(x, y),
        (GeometryId::InstancedMesh { attributes: x }, GeometryId::InstancedMesh { attributes: y }) => lemma_attribute_bits_injective(x, y),
        _ => {},
    }
}

/// Distinct fragment-stage identities have distinct bits.
pub proof fn lemma_effect_id_injective(a: EffectMaterialId, b: EffectMaterialId)
    ensures
        a != b ==> effect_bits(a) != effect_bits(b),
        0x100 <= effect_bits(a) < 0x400,
{
}

/// Two draws share a cached program only when both their vertex-stage and
/// their fragment-stage identities are equal.
pub proof fn lemma_program_key_injective(g1: GeometryId, e1: EffectMaterialId, g2: GeometryId, e2: EffectMaterialId)
    ensures
        (g1 != g2 || e1 != e2) ==> program_key_of(g1, e1) != program_key_of(g2, e2),
{
    lemma_geometry_id_injective(g1, g2);
    lemma_geometry_id_injective(g2, g1);
    lemma_effect_id_injective(e1, e2);
    lemma_effect_id_injective(e2, e1);
    if g1 != g2 {
        assert(program_key_of(g1, e1) != program_key_of(g2, e2)) by (nonlinear_arith)
            requires
                geometry_bits(g1) != geometry_bits(g2),
                effect_bits(e1) < 0x10000,
                effect_bits(e2) < 0x10000,
                program_key_of(g1, e1) == geometry_bits(g1) * 0x10000 + effect_bits(e1),
                program_key_of(g2, e2) == geometry_bits(g2) * 0x10000 + effect_bits(e2),
        ;
    }
}

} // verus!
