use mesh_buffers::mesh::{Mesh, MeshToVertexBufferError, VertexAttribute};
use mesh_buffers::pipeline::{standard_vertex_descriptor, IndexFormat, PrimitiveTopology};
use mesh_buffers::resource::{
    plan_mesh_resources, register_mesh_resources, specialize_mesh_topology, MeshProvisionError,
    MeshResourceAction, MeshResourceRegistry, RenderResourceAssignments,
};

fn bits3(v: [f32; 3]) -> [u32; 3] {
    [v[0].to_bits(), v[1].to_bits(), v[2].to_bits()]
}

fn bits2(v: [f32; 2]) -> [u32; 2] {
    [v[0].to_bits(), v[1].to_bits()]
}

fn small_mesh() -> Mesh {
    Mesh {
        primitive_topology: PrimitiveTopology::TriangleList,
        attributes: vec![
            VertexAttribute::position(vec![bits3([0., 0., 0.]), bits3([1., 0., 0.])]),
            VertexAttribute::normal(vec![bits3([0., 0., 1.]), bits3([0., 0., 1.])]),
            VertexAttribute::uv(vec![bits2([0., 0.]), bits2([1., 1.])]),
        ],
        indices: Some(vec![0, 1]),
    }
}

#[test]
fn provisioning_is_idempotent() {
    let mut registry = MeshResourceRegistry::new();
    let descriptor = standard_vertex_descriptor();
    let mesh = small_mesh();
    let mesh_id = 7u64;
    // The external resource context, reduced to what the test needs: it hands
    // out handles and counts how often a buffer is created.
    let mut buffers_created = 0u64;

    let action = plan_mesh_resources(&registry, mesh_id, Some(&mesh), &descriptor, IndexFormat::Uint16)
        .unwrap();
    let (vertex_handle, index_handle) = match action {
        MeshResourceAction::CreateBuffers { vertex_bytes, index_bytes } => {
            assert_eq!(vertex_bytes.len(), 32 * 2);
            buffers_created += 1;
            let vertex_handle = 100u64;
            let index_handle = index_bytes.map(|bytes| {
                assert_eq!(bytes.len(), 2 * 2);
                buffers_created += 1;
                101u64
            });
            register_mesh_resources(&mut registry, mesh_id, vertex_handle, index_handle);
            (vertex_handle, index_handle)
        }
        MeshResourceAction::UseCached { .. } => panic!("first provisioning must create"),
    };

    let second = plan_mesh_resources(&registry, mesh_id, Some(&mesh), &descriptor, IndexFormat::Uint16)
        .unwrap();
    match second {
        MeshResourceAction::UseCached { vertex_buffer, index_buffer } => {
            assert_eq!(vertex_buffer, vertex_handle);
            assert_eq!(index_buffer, index_handle);
        }
        MeshResourceAction::CreateBuffers { .. } => panic!("second provisioning must reuse"),
    }
    assert_eq!(buffers_created, 2);
}

#[test]
fn cache_hit_needs_no_mesh() {
    let mut registry = MeshResourceRegistry::new();
    let descriptor = standard_vertex_descriptor();
    register_mesh_resources(&mut registry, 3, 40, None);
    // Once cached, the asset store is not consulted at all.
    let action =
        plan_mesh_resources(&registry, 3, None, &descriptor, IndexFormat::Uint16).unwrap();
    match action {
        MeshResourceAction::UseCached { vertex_buffer, index_buffer } => {
            assert_eq!(vertex_buffer, 40);
            assert_eq!(index_buffer, None);
        }
        MeshResourceAction::CreateBuffers { .. } => panic!("registered identity must hit"),
    }
}

#[test]
fn unknown_mesh_identity_fails() {
    let registry = MeshResourceRegistry::new();
    let descriptor = standard_vertex_descriptor();
    match plan_mesh_resources(&registry, 9, None, &descriptor, IndexFormat::Uint16) {
        Err(MeshProvisionError::UnknownMeshIdentity { mesh_id }) => assert_eq!(mesh_id, 9),
        other => panic!("expected an unknown-identity failure, got {:?}", other.map(|_| ())),
    }
}

#[test]
fn packing_failure_aborts_provisioning() {
    let registry = MeshResourceRegistry::new();
    let descriptor = standard_vertex_descriptor();
    let mesh = Mesh {
        primitive_topology: PrimitiveTopology::TriangleList,
        attributes: vec![VertexAttribute::position(vec![bits3([0., 0., 0.])])],
        indices: Some(vec![0]),
    };
    match plan_mesh_resources(&registry, 1, Some(&mesh), &descriptor, IndexFormat::Uint16) {
        Err(MeshProvisionError::Packing(MeshToVertexBufferError::MissingVertexAttribute {
            attribute_name,
        })) => assert_eq!(attribute_name, "Vertex_Normal"),
        other => panic!("expected a packing failure, got {:?}", other.map(|_| ())),
    }
}

#[test]
fn specializer_is_idempotent() {
    let mesh = Mesh::new(PrimitiveTopology::LineStrip);
    let mut assignments = RenderResourceAssignments::new();

    specialize_mesh_topology(&mesh, &mut assignments.pipeline_specialization);
    assert_eq!(
        assignments.pipeline_specialization.primitive_topology,
        PrimitiveTopology::LineStrip
    );

    // Nothing changed in between: a second pass leaves the topology as it is.
    specialize_mesh_topology(&mesh, &mut assignments.pipeline_specialization);
    assert_eq!(
        assignments.pipeline_specialization.primitive_topology,
        PrimitiveTopology::LineStrip
    );
}

#[test]
fn set_vertex_buffer_replaces_by_name() {
    let mut assignments = RenderResourceAssignments::new();
    assignments.set_vertex_buffer("Vertex", 1, Some(2));
    assignments.set_vertex_buffer("Vertex", 3, None);
    assert_eq!(assignments.vertex_buffers.len(), 1);
    assert_eq!(assignments.vertex_buffers[0].name, "Vertex");
    assert_eq!(assignments.vertex_buffers[0].vertex_buffer, 3);
    assert_eq!(assignments.vertex_buffers[0].index_buffer, None);

    assignments.set_vertex_buffer("Instance", 4, None);
    assert_eq!(assignments.vertex_buffers.len(), 2);
    assert_eq!(assignments.vertex_buffers[1].name, "Instance");
    assert_eq!(assignments.vertex_buffers[1].vertex_buffer, 4);
}
