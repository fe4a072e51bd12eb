use vstd::prelude::*;
use vstd::string::*;
use crate::ids::{Attributes, GeometryId};

verus! {

/// The primitive topology a geometry draws with.
#[derive(Clone, Copy, Debug, PartialEq, Eq, Structural)]
pub enum Topology {
    Points,
    Lines,
    Triangles,
}

/// The integer type of an index buffer.
#[derive(Clone, Copy, Debug, PartialEq, Eq, Structural)]
pub enum IndexType {
    U8,
    U16,
    U32,
}

/// The index buffer of a line set: absent, or `count` indices of one type.
#[derive(Clone, Copy, Debug, PartialEq, Eq, Structural)]
pub enum IndexBuffer {
    Unindexed,
    Indexed { index_type: IndexType, count: u32 },
}

/// The draw call a line set issues.
#[derive(Clone, Copy, Debug, PartialEq, Eq, Structural)]
pub enum DrawCall {
    /// Draws `vertex_count` vertices in buffer order.
    Arrays { vertex_count: u32 },
    /// Draws through the index buffer.
    Elements { index_type: IndexType, count: u32 },
}

/// The vertex buffers bound as attributes of the program before a draw.
#[derive(Clone, Copy, Debug, PartialEq, Eq, Structural)]
pub struct AttributeBindings {
    pub position: bool,
    pub color: bool,
}

/// What one draw of a line set does: bind these attributes, then issue this
/// call.
#[derive(Clone, Copy, Debug, PartialEq, Eq, Structural)]
pub struct DrawPlan {
    pub attributes: AttributeBindings,
    pub call: DrawCall,
}

/// Why a line set cannot be drawn.
#[derive(Clone, Copy, Debug, PartialEq, Eq, Structural)]
pub enum LinesError {
    /// A line list takes its vertices in pairs; this one has an odd count.
    OddVertexCount { vertex_count: u32 },
}

/// The buffers of a line list as the draw logic sees them: how many vertices
/// were uploaded, whether a color buffer accompanies them, and the index
/// buffer.
#[derive(Clone, Copy, Debug, PartialEq, Eq, Structural)]
pub struct BaseLines {
    pub vertex_count: u32,
    pub has_colors: bool,
    pub indices: IndexBuffer,
}

/// Vertex colors reach the shader only when the lines have them and the
/// material asks for them.
pub open spec fn uses_vertex_colors(lines: BaseLines, required: Attributes) -> bool {
    lines.has_colors && required.color
}

/// The line that switches vertex colors on in the vertex shader.
pub open spec fn vertex_colors_define() -> Seq<char> {
    "#define USE_VERTEX_COLORS\n"@
}

/// The vertex shader of a line list: the body, preceded by the vertex-color
/// switch when vertex colors are used.
pub open spec fn lines_vertex_source(colors: bool, body: Seq<char>) -> Seq<char> {
    if colors {
        vertex_colors_define() + body
    } else {
        body
    }
}

impl BaseLines {
    /// Lines over `vertex_count` freshly uploaded positions, drawn in buffer
    /// order, without colors.
    pub fn new(vertex_count: u32) -> (r: BaseLines)
        ensures
            r.vertex_count == vertex_count,
            !r.has_colors,
            r.indices == IndexBuffer::Unindexed,
    {
        BaseLines { vertex_count, has_colors: false, indices: IndexBuffer::Unindexed }
    }

    /// The attributes bound before a draw: the positions always, the colors
    /// when the program declares a color attribute and the lines have colors.
    pub fn use_attributes(&self, program_requires_color: bool) -> (r: AttributeBindings)
        ensures
            r.position,
            r.color == (program_requires_color && self.has_colors),
    {
        AttributeBindings { position: true, color: program_requires_color && self.has_colors }
    }

    /// Binds the attributes and picks the draw call: through the index buffer
    /// when there is one, else over every vertex. An odd vertex count cannot
    /// form a line list and is refused.
    pub fn draw(&self, program_requires_color: bool) -> (r: Result<DrawPlan, LinesError>)
        ensures
            self.vertex_count % 2 == 1 ==> r == Err::<DrawPlan, LinesError>(
                LinesError::OddVertexCount { vertex_count: self.vertex_count },
            ),
            self.vertex_count % 2 == 0 ==> r is Ok,
            r matches Ok(plan) ==> {
                &&& plan.attributes.position
                &&& plan.attributes.color == (program_requires_color && self.has_colors)
                &&& plan.call == match self.indices {
                    IndexBuffer::Unindexed => DrawCall::Arrays { vertex_count: self.vertex_count },
                    IndexBuffer::Indexed { index_type, count } => DrawCall::Elements { index_type, count },
                }
            },
    {
        if self.vertex_count % 2 != 0 {
            return Err(LinesError::OddVertexCount { vertex_count: self.vertex_count });
        }
        let attributes = self.use_attributes(program_requires_color);
        let call = match self.indices {
            IndexBuffer::Unindexed => DrawCall::Arrays { vertex_count: self.vertex_count },
            IndexBuffer::Indexed { index_type, count } => DrawCall::Elements { index_type, count },
        };
        Ok(DrawPlan { attributes, call })
    }

    /// A line set is drawn as a line list.
    pub fn vertex_type(&self) -> (r: Topology)
        ensures
            r == Topology::Lines,
    {
        Topology::Lines
    }

    /// The vertex-stage identity: the line variant and whether vertex colors
    /// are used.
    pub fn id(&self, required: Attributes) -> (r: GeometryId)
        ensures
            r == (GeometryId::Lines { colors: uses_vertex_colors(*self, required) }),
    {
        GeometryId::Lines { colors: self.has_colors && required.color }
    }

    /// The vertex shader: `body` with the vertex-color switch spliced in front
    /// when vertex colors are used.
    pub fn vertex_shader_source(&self, required: Attributes, body: &str) -> (r: String)
        ensures
            r@ == lines_vertex_source(uses_vertex_colors(*self, required), body@),
    {
        let mut r = String::new();
        if self.has_colors && required.color {
            r.append("#define USE_VERTEX_COLORS\n");
        }
        r.append(body);
        r
    }
}

/// Two line sets whose vertex-stage identities agree have the same vertex
/// shader, so a program cached under the identity serves both.
pub proof fn lemma_lines_source_follows_id(
    a: BaseLines,
    required_a: Attributes,
    b: BaseLines,
    required_b: Attributes,
    body: Seq<char>,
)
    ensures
        (GeometryId::Lines { colors: uses_vertex_colors(a, required_a) }) == (GeometryId::Lines {
            colors: uses_vertex_colors(b, required_b),
        }) ==> lines_vertex_source(uses_vertex_colors(a, required_a), body) == lines_vertex_source(
            uses_vertex_colors(b, required_b),
            body,
        ),
{
}

} // verus!
