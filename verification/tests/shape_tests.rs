use mesh_buffers::mesh::VertexAttributeValues;
use mesh_buffers::pipeline::{standard_vertex_descriptor, IndexFormat, PrimitiveTopology};
use mesh_buffers::shape::{Cube, Plane, Quad};

fn float3_values(values: &VertexAttributeValues) -> &Vec<[u32; 3]> {
    match values {
        VertexAttributeValues::Float3(v) => v,
        other => panic!("expected Float3 values, got {:?}", other),
    }
}

#[test]
fn quad_of_size_two() {
    // A quad of size 2 x 2 has half extent 1 on both axes.
    let quad = Quad { half_extent_x: 1.0f32.to_bits(), half_extent_y: 1.0f32.to_bits() };
    let mesh = quad.mesh();

    assert_eq!(mesh.primitive_topology, PrimitiveTopology::TriangleList);
    assert_eq!(mesh.attributes.len(), 3);

    let positions = float3_values(&mesh.attributes[0].values);
    assert_eq!(positions.len(), 4, "a quad has exactly 4 vertices");
    let p = 1.0f32.to_bits();
    let n = (-1.0f32).to_bits();
    let z = 0.0f32.to_bits();
    assert_eq!(positions[0], [n, n, z]);
    assert_eq!(positions[1], [n, p, z]);
    assert_eq!(positions[2], [p, p, z]);
    assert_eq!(positions[3], [p, n, z]);

    // Exactly 6 indices: two triangles, both winding counter-clockwise when
    // seen from +z (the normal's side).
    let indices = mesh.indices.as_ref().unwrap();
    assert_eq!(indices, &vec![0, 2, 1, 0, 3, 2]);
}

#[test]
fn quad_regenerates_byte_identical() {
    let quad = Quad { half_extent_x: 1.0f32.to_bits(), half_extent_y: 1.0f32.to_bits() };
    let first = quad.mesh();
    let second = Quad { half_extent_x: 1.0f32.to_bits(), half_extent_y: 1.0f32.to_bits() }.mesh();

    let descriptor = standard_vertex_descriptor();
    assert_eq!(
        first.get_vertex_buffer_bytes(&descriptor).unwrap(),
        second.get_vertex_buffer_bytes(&descriptor).unwrap()
    );
    assert_eq!(
        first.get_index_buffer_bytes(IndexFormat::Uint16),
        second.get_index_buffer_bytes(IndexFormat::Uint16)
    );
}

#[test]
fn plane_is_a_square_quad() {
    let plane = Plane { half_extent: 2.5f32.to_bits() };
    let quad = Quad { half_extent_x: 2.5f32.to_bits(), half_extent_y: 2.5f32.to_bits() };
    let descriptor = standard_vertex_descriptor();
    assert_eq!(
        plane.mesh().get_vertex_buffer_bytes(&descriptor).unwrap(),
        quad.mesh().get_vertex_buffer_bytes(&descriptor).unwrap()
    );
}

#[test]
fn cube_has_six_faces() {
    let mesh = Cube.mesh();
    assert_eq!(mesh.primitive_topology, PrimitiveTopology::TriangleList);
    assert_eq!(mesh.attributes.len(), 3);

    let positions = float3_values(&mesh.attributes[0].values);
    assert_eq!(positions.len(), 24);
    let p = 1.0f32.to_bits();
    let n = (-1.0f32).to_bits();
    // The first face is the top: all four vertices at z = +1.
    assert_eq!(positions[0], [n, n, p]);
    assert_eq!(positions[1], [p, n, p]);
    assert_eq!(positions[2], [p, p, p]);
    assert_eq!(positions[3], [n, p, p]);

    let normals = float3_values(&mesh.attributes[1].values);
    let z = 0.0f32.to_bits();
    for i in 0..4 {
        assert_eq!(normals[i], [z, z, p]);
    }

    let indices = mesh.indices.as_ref().unwrap();
    assert_eq!(indices.len(), 36);
    assert_eq!(&indices[0..6], &[0, 1, 2, 2, 3, 0]);
    assert_eq!(&indices[30..36], &[20, 21, 22, 22, 23, 20]);
}
