use mesh_buffers::mesh::{Mesh, MeshToVertexBufferError, VertexAttribute, VertexAttributeValues};
use mesh_buffers::pipeline::{
    standard_vertex_descriptor, IndexFormat, PrimitiveTopology, VertexAttributeDescriptor,
    VertexBufferDescriptor, VertexFormat,
};

fn bits3(v: [f32; 3]) -> [u32; 3] {
    [v[0].to_bits(), v[1].to_bits(), v[2].to_bits()]
}

fn bits2(v: [f32; 2]) -> [u32; 2] {
    [v[0].to_bits(), v[1].to_bits()]
}

fn le3(v: [f32; 3]) -> Vec<u8> {
    let mut out = Vec::new();
    for c in v.iter() {
        out.extend_from_slice(&c.to_le_bytes());
    }
    out
}

fn le2(v: [f32; 2]) -> Vec<u8> {
    let mut out = Vec::new();
    for c in v.iter() {
        out.extend_from_slice(&c.to_le_bytes());
    }
    out
}

fn three_vertex_mesh() -> Mesh {
    let vertices = [
        ([0., 0., 0.], [1., 1., 1.], [2., 2.]),
        ([3., 3., 3.], [4., 4., 4.], [5., 5.]),
        ([6., 6., 6.], [7., 7., 7.], [8., 8.]),
    ];

    let mut positions = Vec::new();
    let mut normals = Vec::new();
    let mut uvs = Vec::new();
    for (position, normal, uv) in vertices.iter() {
        positions.push(bits3(*position));
        normals.push(bits3(*normal));
        uvs.push(bits2(*uv));
    }

    Mesh {
        primitive_topology: PrimitiveTopology::TriangleStrip,
        attributes: vec![
            VertexAttribute::position(positions),
            VertexAttribute::normal(normals),
            VertexAttribute::uv(uvs),
        ],
        indices: None,
    }
}

#[test]
fn test_get_vertex_bytes() {
    let vertices = [
        ([0., 0., 0.], [1., 1., 1.], [2., 2.]),
        ([3., 3., 3.], [4., 4., 4.], [5., 5.]),
        ([6., 6., 6.], [7., 7., 7.], [8., 8.]),
    ];

    let mesh = three_vertex_mesh();

    // The raw bytes of the same vertices laid out as interleaved
    // position/normal/uv records.
    let mut expected_vertices: Vec<u8> = Vec::new();
    for (position, normal, uv) in vertices.iter() {
        expected_vertices.extend_from_slice(&le3(*position));
        expected_vertices.extend_from_slice(&le3(*normal));
        expected_vertices.extend_from_slice(&le2(*uv));
    }

    let descriptor = standard_vertex_descriptor();
    assert_eq!(
        mesh.get_vertex_buffer_bytes(&descriptor).unwrap(),
        expected_vertices,
        "buffer bytes are equal"
    );
}

#[test]
fn packed_regions_follow_descriptor() {
    let vertices = [
        ([0., 0., 0.], [1., 1., 1.], [2., 2.]),
        ([3., 3., 3.], [4., 4., 4.], [5., 5.]),
        ([6., 6., 6.], [7., 7., 7.], [8., 8.]),
    ];
    let mesh = three_vertex_mesh();
    let descriptor = standard_vertex_descriptor();
    let buffer = mesh.get_vertex_buffer_bytes(&descriptor).unwrap();

    assert_eq!(buffer.len(), 32 * 3);
    for (i, (position, normal, uv)) in vertices.iter().enumerate() {
        let at = 32 * i;
        assert_eq!(&buffer[at..at + 12], le3(*position).as_slice());
        assert_eq!(&buffer[at + 12..at + 24], le3(*normal).as_slice());
        assert_eq!(&buffer[at + 24..at + 32], le2(*uv).as_slice());
    }
}

#[test]
fn missing_attribute_fails_without_buffer() {
    let positions = vec![bits3([0., 0., 0.]), bits3([1., 1., 1.])];
    let mesh = Mesh {
        primitive_topology: PrimitiveTopology::TriangleList,
        attributes: vec![VertexAttribute::position(positions)],
        indices: None,
    };
    // The standard descriptor also references Vertex_Normal, which this mesh
    // lacks; that first missing name is reported and no buffer comes back.
    let descriptor = standard_vertex_descriptor();
    match mesh.get_vertex_buffer_bytes(&descriptor) {
        Err(MeshToVertexBufferError::MissingVertexAttribute { attribute_name }) => {
            assert_eq!(attribute_name, "Vertex_Normal");
        }
        Err(other) => panic!("wrong error: {:?}", other),
        Ok(_) => panic!("packing must fail for a mesh missing a referenced attribute"),
    }
}

#[test]
fn empty_descriptor_packs_empty_buffer() {
    let mesh = three_vertex_mesh();
    let descriptor = VertexBufferDescriptor { stride: 0, attributes: Vec::new() };
    assert_eq!(mesh.get_vertex_buffer_bytes(&descriptor).unwrap(), Vec::<u8>::new());
}

#[test]
fn duplicate_names_use_first_match() {
    // Two attributes share a name; the packer must take the first.
    let mesh = Mesh {
        primitive_topology: PrimitiveTopology::TriangleList,
        attributes: vec![
            VertexAttribute {
                name: "Vertex_Custom".to_string(),
                values: VertexAttributeValues::Float(vec![1.0f32.to_bits(), 2.0f32.to_bits()]),
            },
            VertexAttribute {
                name: "Vertex_Custom".to_string(),
                values: VertexAttributeValues::Float(vec![3.0f32.to_bits(), 4.0f32.to_bits()]),
            },
        ],
        indices: None,
    };
    let descriptor = VertexBufferDescriptor {
        stride: 4,
        attributes: vec![VertexAttributeDescriptor {
            name: "Vertex_Custom".to_string(),
            offset: 0,
            format: VertexFormat::Float,
        }],
    };
    let buffer = mesh.get_vertex_buffer_bytes(&descriptor).unwrap();
    let mut expected = Vec::new();
    expected.extend_from_slice(&1.0f32.to_le_bytes());
    expected.extend_from_slice(&2.0f32.to_le_bytes());
    assert_eq!(buffer, expected);
}

#[test]
fn attribute_bytes_are_little_endian() {
    let values = VertexAttributeValues::Float(vec![1.0f32.to_bits()]);
    assert_eq!(values.len(), 1);
    assert_eq!(values.get_bytes(), vec![0x00, 0x00, 0x80, 0x3f]);

    let values4 = VertexAttributeValues::Float4(vec![[
        1.0f32.to_bits(),
        2.0f32.to_bits(),
        3.0f32.to_bits(),
        4.0f32.to_bits(),
    ]]);
    assert_eq!(values4.len(), 1);
    let mut expected = Vec::new();
    for c in [1.0f32, 2.0, 3.0, 4.0].iter() {
        expected.extend_from_slice(&c.to_le_bytes());
    }
    assert_eq!(values4.get_bytes(), expected);
}

#[test]
fn vertex_format_sizes() {
    assert_eq!(VertexFormat::Float.get_size(), 4);
    assert_eq!(VertexFormat::Float2.get_size(), 8);
    assert_eq!(VertexFormat::Float3.get_size(), 12);
    assert_eq!(VertexFormat::Float4.get_size(), 16);
}

#[test]
fn index_width_16_truncates() {
    let mut mesh = Mesh::new(PrimitiveTopology::TriangleList);
    mesh.indices = Some(vec![0, 1, 65536]);
    let bytes = mesh.get_index_buffer_bytes(IndexFormat::Uint16).unwrap();
    // 65536 narrows exactly as `as u16` does: to 0.
    assert_eq!(65536u32 as u16, 0);
    assert_eq!(bytes, vec![0, 0, 1, 0, 0, 0]);
}

#[test]
fn index_width_32_keeps_values() {
    let mut mesh = Mesh::new(PrimitiveTopology::TriangleList);
    mesh.indices = Some(vec![1, 2, 70000]);
    let bytes = mesh.get_index_buffer_bytes(IndexFormat::Uint32).unwrap();
    let mut expected = Vec::new();
    for i in [1u32, 2, 70000].iter() {
        expected.extend_from_slice(&i.to_le_bytes());
    }
    assert_eq!(bytes, expected);
}

#[test]
fn no_indices_no_buffer() {
    let mesh = Mesh::new(PrimitiveTopology::TriangleList);
    assert!(mesh.get_index_buffer_bytes(IndexFormat::Uint16).is_none());
    assert!(mesh.get_index_buffer_bytes(IndexFormat::Uint32).is_none());

    // An empty index list is a buffer all the same: absence is different from
    // emptiness.
    let mut indexed = Mesh::new(PrimitiveTopology::TriangleList);
    indexed.indices = Some(Vec::new());
    assert_eq!(indexed.get_index_buffer_bytes(IndexFormat::Uint16), Some(Vec::new()));
}

#[test]
fn format_follows_variant() {
    assert_eq!(
        VertexFormat::from(&VertexAttributeValues::Float(vec![0])),
        VertexFormat::Float
    );
    assert_eq!(
        VertexFormat::from(&VertexAttributeValues::Float2(vec![[0, 0]])),
        VertexFormat::Float2
    );
    assert_eq!(
        VertexFormat::from(&VertexAttributeValues::Float3(vec![[0, 0, 0]])),
        VertexFormat::Float3
    );
    assert_eq!(
        VertexFormat::from(&VertexAttributeValues::Float4(vec![[0, 0, 0, 0]])),
        VertexFormat::Float4
    );
}

#[test]
fn short_attribute_packs_only_its_chunks() {
    // The first attribute fixes the vertex count at 2; the uv attribute
    // supplies only one element, so only its first chunk is copied and the
    // second record's uv region stays zero.
    let mesh = Mesh {
        primitive_topology: PrimitiveTopology::TriangleList,
        attributes: vec![
            VertexAttribute::position(vec![bits3([1., 1., 1.]), bits3([2., 2., 2.])]),
            VertexAttribute::uv(vec![bits2([3., 4.])]),
        ],
        indices: None,
    };
    let descriptor = VertexBufferDescriptor {
        stride: 20,
        attributes: vec![
            VertexAttributeDescriptor {
                name: "Vertex_Position".to_string(),
                offset: 0,
                format: VertexFormat::Float3,
            },
            VertexAttributeDescriptor {
                name: "Vertex_Uv".to_string(),
                offset: 12,
                format: VertexFormat::Float2,
            },
        ],
    };
    let buffer = mesh.get_vertex_buffer_bytes(&descriptor).unwrap();
    assert_eq!(buffer.len(), 40);
    assert_eq!(&buffer[0..12], le3([1., 1., 1.]).as_slice());
    assert_eq!(&buffer[12..20], le2([3., 4.]).as_slice());
    assert_eq!(&buffer[20..32], le3([2., 2., 2.]).as_slice());
    assert_eq!(&buffer[32..40], &[0u8; 8]);
}
