//! Primitive shape generators: pure data builders that produce small meshes.
//!
//! Sizes arrive as the bit patterns of the 32-bit floats they stand for, like
//! every element value in this crate; negating a coordinate is flipping the
//! IEEE-754 sign bit.

use crate::mesh::{Mesh, VertexAttribute};
use crate::pipeline::PrimitiveTopology;
use vstd::prelude::*;

verus! {

/// Bit pattern of the 32-bit float `1.0`.
pub const FLOAT_ONE_BITS: u32 = 0x3F80_0000;

/// Bit pattern of the 32-bit float `-1.0`.
pub const FLOAT_NEG_ONE_BITS: u32 = 0xBF80_0000;

/// The sign bit of a 32-bit float: `b ^ FLOAT_SIGN_BIT` encodes the negation
/// of the float `b` encodes.
pub const FLOAT_SIGN_BIT: u32 = 0x8000_0000;

/// An axis-aligned rectangle in the `z = 0` plane, centered on the origin,
/// given by its half extents along `x` and `y`.
pub struct Quad {
    pub half_extent_x: u32,
    pub half_extent_y: u32,
}

/// A square in the `z = 0` plane, centered on the origin, given by its half
/// extent.
pub struct Plane {
    pub half_extent: u32,
}

/// An axis-aligned cube with half extent one, centered on the origin.
pub struct Cube;

/// The mesh a [`Quad`] with half extents `hx`, `hy` generates: four vertices
/// in the order south-west, north-west, north-east, south-east, each with the
/// `+z` normal and the texture coordinates that put the image upright, and two
/// triangles winding counter-clockwise when seen from `+z`.
pub open spec fn is_quad_mesh(m: &Mesh, hx: u32, hy: u32) -> bool {
    let positions = m.attributes@[0].values->Float3_0@;
    let normals = m.attributes@[1].values->Float3_0@;
    let uvs = m.attributes@[2].values->Float2_0@;
    &&& m.primitive_topology == PrimitiveTopology::TriangleList
    &&& m.attributes@.len() == 3
    &&& m.attributes@[0].name@ == "Vertex_Position"@
    &&& m.attributes@[1].name@ == "Vertex_Normal"@
    &&& m.attributes@[2].name@ == "Vertex_Uv"@
    &&& m.attributes@[0].values is Float3
    &&& m.attributes@[1].values is Float3
    &&& m.attributes@[2].values is Float2
    &&& positions.len() == 4
    &&& positions[0]@ =~= seq![hx ^ FLOAT_SIGN_BIT, hy ^ FLOAT_SIGN_BIT, 0u32]
    &&& positions[1]@ =~= seq![hx ^ FLOAT_SIGN_BIT, hy, 0u32]
    &&& positions[2]@ =~= seq![hx, hy, 0u32]
    &&& positions[3]@ =~= seq![hx, hy ^ FLOAT_SIGN_BIT, 0u32]
    &&& normals.len() == 4
    &&& forall|i: int| 0 <= i < 4 ==> #[trigger] normals[i]@ =~= seq![0u32, 0u32, FLOAT_ONE_BITS]
    &&& uvs.len() == 4
    &&& uvs[0]@ =~= seq![0u32, FLOAT_ONE_BITS]
    &&& uvs[1]@ =~= seq![0u32, 0u32]
    &&& uvs[2]@ =~= seq![FLOAT_ONE_BITS, 0u32]
    &&& uvs[3]@ =~= seq![FLOAT_ONE_BITS, FLOAT_ONE_BITS]
    &&& m.indices is Some
    &&& m.indices->0@ =~= seq![0u32, 2u32, 1u32, 0u32, 3u32, 2u32]
}

impl Quad {
    /// Generates the quad's mesh.  The result depends on the half extents
    /// alone, so regenerating with the same size is byte-identical.
    pub fn mesh(&self) -> (m: Mesh)
        ensures
            is_quad_mesh(&m, self.half_extent_x, self.half_extent_y),
    {
        let nx = self.half_extent_x ^ FLOAT_SIGN_BIT;
        let ny = self.half_extent_y ^ FLOAT_SIGN_BIT;
        let px = self.half_extent_x;
        let py = self.half_extent_y;
        let positions: Vec<[u32; 3]> = vec![
            [nx, ny, 0u32],
            [nx, py, 0u32],
            [px, py, 0u32],
            [px, ny, 0u32],
        ];
        let normals: Vec<[u32; 3]> = vec![
            [0u32, 0u32, FLOAT_ONE_BITS],
            [0u32, 0u32, FLOAT_ONE_BITS],
            [0u32, 0u32, FLOAT_ONE_BITS],
            [0u32, 0u32, FLOAT_ONE_BITS],
        ];
        let uvs: Vec<[u32; 2]> = vec![
            [0u32, FLOAT_ONE_BITS],
            [0u32, 0u32],
            [FLOAT_ONE_BITS, 0u32],
            [FLOAT_ONE_BITS, FLOAT_ONE_BITS],
        ];
        let indices: Vec<u32> = vec![0, 2, 1, 0, 3, 2];
        let mut attributes: Vec<VertexAttribute> = Vec::new();
        attributes.push(VertexAttribute::position(positions));
        attributes.push(VertexAttribute::normal(normals));
        attributes.push(VertexAttribute::uv(uvs));
        Mesh {
            primitive_topology: PrimitiveTopology::TriangleList,
            attributes,
            indices: Some(indices),
        }
    }
}

impl Plane {
    /// Generates the plane's mesh: the quad with equal half extents.
    pub fn mesh(&self) -> (m: Mesh)
        ensures
            is_quad_mesh(&m, self.half_extent, self.half_extent),
    {
        Quad { half_extent_x: self.half_extent, half_extent_y: self.half_extent }.mesh()
    }
}

/// The mesh a [`Cube`] generates: six faces of four vertices each, in the
/// order top, bottom, right, left, front, back, every vertex carrying the
/// face's outward normal and per-face texture coordinates, and each face two
/// triangles winding counter-clockwise when seen from outside.
pub open spec fn is_cube_mesh(m: &Mesh) -> bool {
    let positions = m.attributes@[0].values->Float3_0@;
    let normals = m.attributes@[1].values->Float3_0@;
    let uvs = m.attributes@[2].values->Float2_0@;
    &&& m.primitive_topology == PrimitiveTopology::TriangleList
    &&& m.attributes@.len() == 3
    &&& m.attributes@[0].name@ == "Vertex_Position"@
    &&& m.attributes@[1].name@ == "Vertex_Normal"@
    &&& m.attributes@[2].name@ == "Vertex_Uv"@
    &&& m.attributes@[0].values is Float3
    &&& m.attributes@[1].values is Float3
    &&& m.attributes@[2].values is Float2
    &&& positions.len() == 24
    &&& normals.len() == 24
    &&& uvs.len() == 24
    &&& positions[0]@ =~= seq![FLOAT_NEG_ONE_BITS, FLOAT_NEG_ONE_BITS, FLOAT_ONE_BITS]
    &&& positions[1]@ =~= seq![FLOAT_ONE_BITS, FLOAT_NEG_ONE_BITS, FLOAT_ONE_BITS]
    &&& positions[2]@ =~= seq![FLOAT_ONE_BITS, FLOAT_ONE_BITS, FLOAT_ONE_BITS]
    &&& positions[3]@ =~= seq![FLOAT_NEG_ONE_BITS, FLOAT_ONE_BITS, FLOAT_ONE_BITS]
    &&& positions[4]@ =~= seq![FLOAT_NEG_ONE_BITS, FLOAT_ONE_BITS, FLOAT_NEG_ONE_BITS]
    &&& positions[5]@ =~= seq![FLOAT_ONE_BITS, FLOAT_ONE_BITS, FLOAT_NEG_ONE_BITS]
    &&& positions[6]@ =~= seq![FLOAT_ONE_BITS, FLOAT_NEG_ONE_BITS, FLOAT_NEG_ONE_BITS]
    &&& positions[7]@ =~= seq![FLOAT_NEG_ONE_BITS, FLOAT_NEG_ONE_BITS, FLOAT_NEG_ONE_BITS]
    &&& positions[8]@ =~= seq![FLOAT_ONE_BITS, FLOAT_NEG_ONE_BITS, FLOAT_NEG_ONE_BITS]
    &&& positions[9]@ =~= seq![FLOAT_ONE_BITS, FLOAT_ONE_BITS, FLOAT_NEG_ONE_BITS]
    &&& positions[10]@ =~= seq![FLOAT_ONE_BITS, FLOAT_ONE_BITS, FLOAT_ONE_BITS]
    &&& positions[11]@ =~= seq![FLOAT_ONE_BITS, FLOAT_NEG_ONE_BITS, FLOAT_ONE_BITS]
    &&& positions[12]@ =~= seq![FLOAT_NEG_ONE_BITS, FLOAT_NEG_ONE_BITS, FLOAT_ONE_BITS]
    &&& positions[13]@ =~= seq![FLOAT_NEG_ONE_BITS, FLOAT_ONE_BITS, FLOAT_ONE_BITS]
    &&& positions[14]@ =~= seq![FLOAT_NEG_ONE_BITS, FLOAT_ONE_BITS, FLOAT_NEG_ONE_BITS]
    &&& positions[15]@ =~= seq![FLOAT_NEG_ONE_BITS, FLOAT_NEG_ONE_BITS, FLOAT_NEG_ONE_BITS]
    &&& positions[16]@ =~= seq![FLOAT_ONE_BITS, FLOAT_ONE_BITS, FLOAT_NEG_ONE_BITS]
    &&& positions[17]@ =~= seq![FLOAT_NEG_ONE_BITS, FLOAT_ONE_BITS, FLOAT_NEG_ONE_BITS]
    &&& positions[18]@ =~= seq![FLOAT_NEG_ONE_BITS, FLOAT_ONE_BITS, FLOAT_ONE_BITS]
    &&& positions[19]@ =~= seq![FLOAT_ONE_BITS, FLOAT_ONE_BITS, FLOAT_ONE_BITS]
    &&& positions[20]@ =~= seq![FLOAT_ONE_BITS, FLOAT_NEG_ONE_BITS, FLOAT_ONE_BITS]
    &&& positions[21]@ =~= seq![FLOAT_NEG_ONE_BITS, FLOAT_NEG_ONE_BITS, FLOAT_ONE_BITS]
    &&& positions[22]@ =~= seq![FLOAT_NEG_ONE_BITS, FLOAT_NEG_ONE_BITS, FLOAT_NEG_ONE_BITS]
    &&& positions[23]@ =~= seq![FLOAT_ONE_BITS, FLOAT_NEG_ONE_BITS, FLOAT_NEG_ONE_BITS]
    &&& normals[0]@ =~= seq![0u32, 0u32, FLOAT_ONE_BITS]
    &&& normals[1]@ =~= seq![0u32, 0u32, FLOAT_ONE_BITS]
    &&& normals[2]@ =~= seq![0u32, 0u32, FLOAT_ONE_BITS]
    &&& normals[3]@ =~= seq![0u32, 0u32, FLOAT_ONE_BITS]
    &&& normals[4]@ =~= seq![0u32, 0u32, FLOAT_NEG_ONE_BITS]
    &&& normals[5]@ =~= seq![0u32, 0u32, FLOAT_NEG_ONE_BITS]
    &&& normals[6]@ =~= seq![0u32, 0u32, FLOAT_NEG_ONE_BITS]
    &&& normals[7]@ =~= seq![0u32, 0u32, FLOAT_NEG_ONE_BITS]
    &&& normals[8]@ =~= seq![FLOAT_ONE_BITS, 0u32, 0u32]
    &&& normals[9]@ =~= seq![FLOAT_ONE_BITS, 0u32, 0u32]
    &&& normals[10]@ =~= seq![FLOAT_ONE_BITS, 0u32, 0u32]
    &&& normals[11]@ =~= seq![FLOAT_ONE_BITS, 0u32, 0u32]
    &&& normals[12]@ =~= seq![FLOAT_NEG_ONE_BITS, 0u32, 0u32]
    &&& normals[13]@ =~= seq![FLOAT_NEG_ONE_BITS, 0u32, 0u32]
    &&& normals[14]@ =~= seq![FLOAT_NEG_ONE_BITS, 0u32, 0u32]
    &&& normals[15]@ =~= seq![FLOAT_NEG_ONE_BITS, 0u32, 0u32]
    &&& normals[16]@ =~= seq![0u32, FLOAT_ONE_BITS, 0u32]
    &&& normals[17]@ =~= seq![0u32, FLOAT_ONE_BITS, 0u32]
    &&& normals[18]@ =~= seq![0u32, FLOAT_ONE_BITS, 0u32]
    &&& normals[19]@ =~= seq![0u32, FLOAT_ONE_BITS, 0u32]
    &&& normals[20]@ =~= seq![0u32, FLOAT_NEG_ONE_BITS, 0u32]
    &&& normals[21]@ =~= seq![0u32, FLOAT_NEG_ONE_BITS, 0u32]
    &&& normals[22]@ =~= seq![0u32, FLOAT_NEG_ONE_BITS, 0u32]
    &&& normals[23]@ =~= seq![0u32, FLOAT_NEG_ONE_BITS, 0u32]
    &&& uvs[0]@ =~= seq![0u32, 0u32]
    &&& uvs[1]@ =~= seq![FLOAT_ONE_BITS, 0u32]
    &&& uvs[2]@ =~= seq![FLOAT_ONE_BITS, FLOAT_ONE_BITS]
    &&& uvs[3]@ =~= seq![0u32, FLOAT_ONE_BITS]
    &&& uvs[4]@ =~= seq![FLOAT_ONE_BITS, 0u32]
    &&& uvs[5]@ =~= seq![0u32, 0u32]
    &&& uvs[6]@ =~= seq![0u32, FLOAT_ONE_BITS]
    &&& uvs[7]@ =~= seq![FLOAT_ONE_BITS, FLOAT_ONE_BITS]
    &&& uvs[8]@ =~= seq![0u32, 0u32]
    &&& uvs[9]@ =~= seq![FLOAT_ONE_BITS, 0u32]
    &&& uvs[10]@ =~= seq![FLOAT_ONE_BITS, FLOAT_ONE_BITS]
    &&& uvs[11]@ =~= seq![0u32, FLOAT_ONE_BITS]
    &&& uvs[12]@ =~= seq![FLOAT_ONE_BITS, 0u32]
    &&& uvs[13]@ =~= seq![0u32, 0u32]
    &&& uvs[14]@ =~= seq![0u32, FLOAT_ONE_BITS]
    &&& uvs[15]@ =~= seq![FLOAT_ONE_BITS, FLOAT_ONE_BITS]
    &&& uvs[16]@ =~= seq![FLOAT_ONE_BITS, 0u32]
    &&& uvs[17]@ =~= seq![0u32, 0u32]
    &&& uvs[18]@ =~= seq![0u32, FLOAT_ONE_BITS]
    &&& uvs[19]@ =~= seq![FLOAT_ONE_BITS, FLOAT_ONE_BITS]
    &&& uvs[20]@ =~= seq![0u32, 0u32]
    &&& uvs[21]@ =~= seq![FLOAT_ONE_BITS, 0u32]
    &&& uvs[22]@ =~= seq![FLOAT_ONE_BITS, FLOAT_ONE_BITS]
    &&& uvs[23]@ =~= seq![0u32, FLOAT_ONE_BITS]
    &&& m.indices is Some
    &&& m.indices->0@ =~= seq![0u32, 1u32, 2u32, 2u32, 3u32, 0u32, 4u32, 5u32, 6u32, 6u32, 7u32, 4u32, 8u32, 9u32, 10u32, 10u32, 11u32, 8u32, 12u32, 13u32, 14u32, 14u32, 15u32, 12u32, 16u32, 17u32, 18u32, 18u32, 19u32, 16u32, 20u32, 21u32, 22u32, 22u32, 23u32, 20u32]
}

impl Cube {
    /// Generates the cube's mesh.
    pub fn mesh(&self) -> (m: Mesh)
        ensures
            is_cube_mesh(&m),
    {
        let positions: Vec<[u32; 3]> = vec![
            [FLOAT_NEG_ONE_BITS, FLOAT_NEG_ONE_BITS, FLOAT_ONE_BITS],
            [FLOAT_ONE_BITS, FLOAT_NEG_ONE_BITS, FLOAT_ONE_BITS],
            [FLOAT_ONE_BITS, FLOAT_ONE_BITS, FLOAT_ONE_BITS],
            [FLOAT_NEG_ONE_BITS, FLOAT_ONE_BITS, FLOAT_ONE_BITS],
            [FLOAT_NEG_ONE_BITS, FLOAT_ONE_BITS, FLOAT_NEG_ONE_BITS],
            [FLOAT_ONE_BITS, FLOAT_ONE_BITS, FLOAT_NEG_ONE_BITS],
            [FLOAT_ONE_BITS, FLOAT_NEG_ONE_BITS, FLOAT_NEG_ONE_BITS],
            [FLOAT_NEG_ONE_BITS, FLOAT_NEG_ONE_BITS, FLOAT_NEG_ONE_BITS],
            [FLOAT_ONE_BITS, FLOAT_NEG_ONE_BITS, FLOAT_NEG_ONE_BITS],
            [FLOAT_ONE_BITS, FLOAT_ONE_BITS, FLOAT_NEG_ONE_BITS],
            [FLOAT_ONE_BITS, FLOAT_ONE_BITS, FLOAT_ONE_BITS],
            [FLOAT_ONE_BITS, FLOAT_NEG_ONE_BITS, FLOAT_ONE_BITS],
            [FLOAT_NEG_ONE_BITS, FLOAT_NEG_ONE_BITS, FLOAT_ONE_BITS],
            [FLOAT_NEG_ONE_BITS, FLOAT_ONE_BITS, FLOAT_ONE_BITS],
            [FLOAT_NEG_ONE_BITS, FLOAT_ONE_BITS, FLOAT_NEG_ONE_BITS],
            [FLOAT_NEG_ONE_BITS, FLOAT_NEG_ONE_BITS, FLOAT_NEG_ONE_BITS],
            [FLOAT_ONE_BITS, FLOAT_ONE_BITS, FLOAT_NEG_ONE_BITS],
            [FLOAT_NEG_ONE_BITS, FLOAT_ONE_BITS, FLOAT_NEG_ONE_BITS],
            [FLOAT_NEG_ONE_BITS, FLOAT_ONE_BITS, FLOAT_ONE_BITS],
            [FLOAT_ONE_BITS, FLOAT_ONE_BITS, FLOAT_ONE_BITS],
            [FLOAT_ONE_BITS, FLOAT_NEG_ONE_BITS, FLOAT_ONE_BITS],
            [FLOAT_NEG_ONE_BITS, FLOAT_NEG_ONE_BITS, FLOAT_ONE_BITS],
            [FLOAT_NEG_ONE_BITS, FLOAT_NEG_ONE_BITS, FLOAT_NEG_ONE_BITS],
            [FLOAT_ONE_BITS, FLOAT_NEG_ONE_BITS, FLOAT_NEG_ONE_BITS],
        ];
        let normals: Vec<[u32; 3]> = vec![
            [0u32, 0u32, FLOAT_ONE_BITS],
            [0u32, 0u32, FLOAT_ONE_BITS],
            [0u32, 0u32, FLOAT_ONE_BITS],
            [0u32, 0u32, FLOAT_ONE_BITS],
            [0u32, 0u32, FLOAT_NEG_ONE_BITS],
            [0u32, 0u32, FLOAT_NEG_ONE_BITS],
            [0u32, 0u32, FLOAT_NEG_ONE_BITS],
            [0u32, 0u32, FLOAT_NEG_ONE_BITS],
            [FLOAT_ONE_BITS, 0u32, 0u32],
            [FLOAT_ONE_BITS, 0u32, 0u32],
            [FLOAT_ONE_BITS, 0u32, 0u32],
            [FLOAT_ONE_BITS, 0u32, 0u32],
            [FLOAT_NEG_ONE_BITS, 0u32, 0u32],
            [FLOAT_NEG_ONE_BITS, 0u32, 0u32],
            [FLOAT_NEG_ONE_BITS, 0u32, 0u32],
            [FLOAT_NEG_ONE_BITS, 0u32, 0u32],
            [0u32, FLOAT_ONE_BITS, 0u32],
            [0u32, FLOAT_ONE_BITS, 0u32],
            [0u32, FLOAT_ONE_BITS, 0u32],
            [0u32, FLOAT_ONE_BITS, 0u32],
            [0u32, FLOAT_NEG_ONE_BITS, 0u32],
            [0u32, FLOAT_NEG_ONE_BITS, 0u32],
            [0u32, FLOAT_NEG_ONE_BITS, 0u32],
            [0u32, FLOAT_NEG_ONE_BITS, 0u32],
        ];
        let uvs: Vec<[u32; 2]> = vec![
            [0u32, 0u32],
            [FLOAT_ONE_BITS, 0u32],
            [FLOAT_ONE_BITS, FLOAT_ONE_BITS],
            [0u32, FLOAT_ONE_BITS],
            [FLOAT_ONE_BITS, 0u32],
            [0u32, 0u32],
            [0u32, FLOAT_ONE_BITS],
            [FLOAT_ONE_BITS, FLOAT_ONE_BITS],
            [0u32, 0u32],
            [FLOAT_ONE_BITS, 0u32],
            [FLOAT_ONE_BITS, FLOAT_ONE_BITS],
            [0u32, FLOAT_ONE_BITS],
            [FLOAT_ONE_BITS, 0u32],
            [0u32, 0u32],
            [0u32, FLOAT_ONE_BITS],
            [FLOAT_ONE_BITS, FLOAT_ONE_BITS],
            [FLOAT_ONE_BITS, 0u32],
            [0u32, 0u32],
            [0u32, FLOAT_ONE_BITS],
            [FLOAT_ONE_BITS, FLOAT_ONE_BITS],
            [0u32, 0u32],
            [FLOAT_ONE_BITS, 0u32],
            [FLOAT_ONE_BITS, FLOAT_ONE_BITS],
            [0u32, FLOAT_ONE_BITS],
        ];
        let indices: Vec<u32> = vec![0, 1, 2, 2, 3, 0, 4, 5, 6, 6, 7, 4, 8, 9, 10, 10, 11, 8, 12, 13, 14, 14, 15, 12, 16, 17, 18, 18, 19, 16, 20, 21, 22, 22, 23, 20];
        let mut attributes: Vec<VertexAttribute> = Vec::new();
        attributes.push(VertexAttribute::position(positions));
        attributes.push(VertexAttribute::normal(normals));
        attributes.push(VertexAttribute::uv(uvs));
        Mesh {
            primitive_topology: PrimitiveTopology::TriangleList,
            attributes,
            indices: Some(indices),
        }
    }
}

} // verus!
