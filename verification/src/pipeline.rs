//! Layout and state descriptions a render pipeline hands to the packer.

use vstd::prelude::*;

verus! {

/// How a pipeline assembles a mesh's vertices into primitives.
#[derive(Clone, Copy, Debug, PartialEq, Eq, Structural)]
pub enum PrimitiveTopology {
    PointList,
    LineList,
    LineStrip,
    TriangleList,
    TriangleStrip,
}

/// Integer width of an index buffer.
#[derive(Clone, Copy, Debug, PartialEq, Eq, Structural)]
pub enum IndexFormat {
    Uint16,
    Uint32,
}

/// Numeric shape of one vertex attribute element: a 32-bit float scalar or a
/// 2-, 3- or 4-component vector of them.
#[derive(Clone, Copy, Debug, PartialEq, Eq, Structural)]
pub enum VertexFormat {
    Float,
    Float2,
    Float3,
    Float4,
}

impl VertexFormat {
    /// Byte size of one element of this format.
    pub open spec fn size(self) -> nat {
        match self {
            VertexFormat::Float => 4,
            VertexFormat::Float2 => 8,
            VertexFormat::Float3 => 12,
            VertexFormat::Float4 => 16,
        }
    }

    pub fn get_size(&self) -> (s: usize)
        ensures
            s == self.size(),
    {
        match self {
            VertexFormat::Float => 4,
            VertexFormat::Float2 => 8,
            VertexFormat::Float3 => 12,
            VertexFormat::Float4 => 16,
        }
    }
}

/// One slot of an interleaved vertex layout: which named attribute fills it,
/// the element format, and the byte offset of the slot within a vertex record.
pub struct VertexAttributeDescriptor {
    pub name: String,
    pub offset: usize,
    pub format: VertexFormat,
}

/// The exact interleaved byte layout a pipeline expects: the byte size of one
/// complete vertex record (`stride`) and the slots that make it up, in order.
pub struct VertexBufferDescriptor {
    pub stride: usize,
    pub attributes: Vec<VertexAttributeDescriptor>,
}

impl VertexBufferDescriptor {
    /// Every slot lies entirely within one vertex record.
    pub open spec fn wf(self) -> bool {
        forall|k: int|
            0 <= k < self.attributes@.len() ==> #[trigger] self.attributes@[k].offset
                + self.attributes@[k].format.size() <= self.stride
    }
}

/// The per-entity pipeline configuration this crate writes into: the topology
/// the pipeline must be specialized to.
pub struct PipelineSpecialization {
    pub primitive_topology: PrimitiveTopology,
}

/// The descriptor of the standard vertex layout the renderer registers at
/// setup: position, normal and texture coordinates interleaved into one
/// 32-byte record per vertex.
pub fn standard_vertex_descriptor() -> (d: VertexBufferDescriptor)
    ensures
        d.wf(),
        crate::mesh::slots_disjoint(&d),
        d.stride == 32,
        d.attributes@.len() == 3,
        d.attributes@[0].name@ == "Vertex_Position"@,
        d.attributes@[0].offset == 0,
        d.attributes@[0].format == VertexFormat::Float3,
        d.attributes@[1].name@ == "Vertex_Normal"@,
        d.attributes@[1].offset == 12,
        d.attributes@[1].format == VertexFormat::Float3,
        d.attributes@[2].name@ == "Vertex_Uv"@,
        d.attributes@[2].offset == 24,
        d.attributes@[2].format == VertexFormat::Float2,
{
    let mut attributes: Vec<VertexAttributeDescriptor> = Vec::new();
    attributes.push(
        VertexAttributeDescriptor {
            name: String::from_str("Vertex_Position"),
            offset: 0,
            format: VertexFormat::Float3,
        },
    );
    attributes.push(
        VertexAttributeDescriptor {
            name: String::from_str("Vertex_Normal"),
            offset: 12,
            format: VertexFormat::Float3,
        },
    );
    attributes.push(
        VertexAttributeDescriptor {
            name: String::from_str("Vertex_Uv"),
            offset: 24,
            format: VertexFormat::Float2,
        },
    );
    VertexBufferDescriptor { stride: 32, attributes }
}

} // verus!
