//! Memoized provisioning of GPU buffer handles, keyed by mesh identity, and
//! propagation of a mesh's topology into a per-entity render configuration.
//!
//! Buffer creation itself belongs to an external resource context; this module
//! decides.  The caller looks the mesh up in its asset store, asks
//! [`plan_mesh_resources`] what to do, performs any buffer creation the plan
//! demands, and hands the fresh handles back to [`register_mesh_resources`] so
//! that every later plan for the same identity reuses them.

use crate::mesh::{index_buffer_bytes, missing_attribute_error, Mesh, MeshToVertexBufferError};
use crate::pipeline::{
    IndexFormat, PipelineSpecialization, PrimitiveTopology, VertexBufferDescriptor,
};
use std::collections::HashMap;
use vstd::prelude::*;

verus! {

broadcast use vstd::std_specs::hash::group_hash_axioms;

/// The memoization table: for each mesh identity, the GPU buffer handles the
/// resource context has already created — one slot for the vertex buffer, one
/// for the index buffer.  Entries are never replaced by provisioning; uploaded
/// buffers are immutable, and freeing them is the resource context's business.
pub struct MeshResourceRegistry {
    vertex_buffers: HashMap<u64, u64>,
    index_buffers: HashMap<u64, u64>,
}

impl MeshResourceRegistry {
    /// The vertex-buffer slot: mesh identity to handle.
    pub closed spec fn vertex_map(&self) -> Map<u64, u64> {
        self.vertex_buffers@
    }

    /// The index-buffer slot: mesh identity to handle.  An identity absent
    /// here but present in the vertex slot was provisioned without indices.
    pub closed spec fn index_map(&self) -> Map<u64, u64> {
        self.index_buffers@
    }

    pub fn new() -> (r: MeshResourceRegistry)
        ensures
            r.vertex_map() == Map::<u64, u64>::empty(),
            r.index_map() == Map::<u64, u64>::empty(),
    {
        MeshResourceRegistry { vertex_buffers: HashMap::new(), index_buffers: HashMap::new() }
    }

    /// The cached vertex-buffer handle for this identity, if one exists.
    pub fn get_vertex_buffer(&self, mesh_id: u64) -> (r: Option<u64>)
        ensures
            r == (if self.vertex_map().contains_key(mesh_id) {
                Some(self.vertex_map()[mesh_id])
            } else {
                None::<u64>
            }),
    {
        match self.vertex_buffers.get(&mesh_id) {
            Some(h) => Some(*h),
            None => None,
        }
    }

    /// The cached index-buffer handle for this identity, if one exists.
    pub fn get_index_buffer(&self, mesh_id: u64) -> (r: Option<u64>)
        ensures
            r == (if self.index_map().contains_key(mesh_id) {
                Some(self.index_map()[mesh_id])
            } else {
                None::<u64>
            }),
    {
        match self.index_buffers.get(&mesh_id) {
            Some(h) => Some(*h),
            None => None,
        }
    }
}

/// The registry's vertex slot after handles are registered for an identity.
pub open spec fn registered_vertex_map(before: Map<u64, u64>, mesh_id: u64, handle: u64) -> Map<
    u64,
    u64,
> {
    before.insert(mesh_id, handle)
}

/// The registry's index slot after handles are registered for an identity: a
/// mesh without an index buffer registers nothing in that slot.
pub open spec fn registered_index_map(
    before: Map<u64, u64>,
    mesh_id: u64,
    handle: Option<u64>,
) -> Map<u64, u64> {
    match handle {
        Some(h) => before.insert(mesh_id, h),
        None => before,
    }
}

/// What the external resource context must do to provision one mesh.
pub enum MeshResourceAction {
    /// Cache hit: both handles already exist (the index handle where one was
    /// ever created); use them as they are, creating nothing.
    UseCached { vertex_buffer: u64, index_buffer: Option<u64> },
    /// Cache miss: create a vertex buffer holding exactly these bytes and,
    /// when index bytes are present, an index buffer holding those; then
    /// register the returned handles under this mesh identity.
    CreateBuffers { vertex_bytes: Vec<u8>, index_bytes: Option<Vec<u8>> },
}

/// Why provisioning one mesh identity failed.  Either failure aborts that
/// identity's provisioning before any buffer is created.
#[derive(Debug)]
pub enum MeshProvisionError {
    /// The identity was not in the asset store.
    UnknownMeshIdentity { mesh_id: u64 },
    /// The mesh cannot satisfy the pipeline's vertex layout.
    Packing(MeshToVertexBufferError),
}

/// Decides how to provision the buffers for `mesh_id`: reuse the registered
/// handles when the registry already has them, otherwise pack `mesh` (the
/// asset store's lookup result for `mesh_id`) into fresh buffer bytes for the
/// resource context to upload.  Nothing is created or registered here, so a
/// failed pack leaves no partial resource behind.
pub fn plan_mesh_resources(
    registry: &MeshResourceRegistry,
    mesh_id: u64,
    mesh: Option<&Mesh>,
    vertex_buffer_descriptor: &VertexBufferDescriptor,
    index_format: IndexFormat,
) -> (r: Result<MeshResourceAction, MeshProvisionError>)
    requires
        vertex_buffer_descriptor.wf(),
        mesh is Some ==> vertex_buffer_descriptor.stride * mesh->0.spec_vertex_count()
            <= usize::MAX,
    ensures
        registry.vertex_map().contains_key(mesh_id) ==> r == Ok::<_, MeshProvisionError>(
            MeshResourceAction::UseCached {
                vertex_buffer: registry.vertex_map()[mesh_id],
                index_buffer: if registry.index_map().contains_key(mesh_id) {
                    Some(registry.index_map()[mesh_id])
                } else {
                    None
                },
            },
        ),
        !registry.vertex_map().contains_key(mesh_id) && mesh is None ==> r == Err::<
            MeshResourceAction,
            _,
        >(MeshProvisionError::UnknownMeshIdentity { mesh_id }),
        !registry.vertex_map().contains_key(mesh_id) && mesh is Some ==> match r {
            Ok(a) => match a {
                MeshResourceAction::CreateBuffers { vertex_bytes, index_bytes } => {
                    &&& mesh->0.satisfies_descriptor(vertex_buffer_descriptor)
                    &&& vertex_bytes@ == mesh->0.packed_bytes(vertex_buffer_descriptor)
                    &&& (index_bytes is Some <==> mesh->0.indices is Some)
                    &&& index_bytes is Some ==> index_bytes->0@ == index_buffer_bytes(
                        mesh->0.indices->0@,
                        index_format,
                    )
                },
                _ => false,
            },
            Err(e) => match e {
                MeshProvisionError::Packing(p) => match p {
                    MeshToVertexBufferError::MissingVertexAttribute { attribute_name } => (
                    missing_attribute_error(mesh->0, vertex_buffer_descriptor, attribute_name@)),
                    _ => false,
                },
                _ => false,
            },
        },
{
    if let Some(vertex_buffer) = registry.get_vertex_buffer(mesh_id) {
        let index_buffer = registry.get_index_buffer(mesh_id);
        return Ok(MeshResourceAction::UseCached { vertex_buffer, index_buffer });
    }
    let mesh = match mesh {
        Some(m) => m,
        None => {
            return Err(MeshProvisionError::UnknownMeshIdentity { mesh_id });
        },
    };
    let vertex_bytes = match mesh.get_vertex_buffer_bytes(vertex_buffer_descriptor) {
        Ok(b) => b,
        Err(e) => {
            return Err(MeshProvisionError::Packing(e));
        },
    };
    let index_bytes = mesh.get_index_buffer_bytes(index_format);
    Ok(MeshResourceAction::CreateBuffers { vertex_bytes, index_bytes })
}

/// Records the handles the resource context created for `mesh_id`, so that
/// every later [`plan_mesh_resources`] for this identity reuses them.
pub fn register_mesh_resources(
    registry: &mut MeshResourceRegistry,
    mesh_id: u64,
    vertex_buffer: u64,
    index_buffer: Option<u64>,
)
    ensures
        final(registry).vertex_map() == registered_vertex_map(
            old(registry).vertex_map(),
            mesh_id,
            vertex_buffer,
        ),
        final(registry).index_map() == registered_index_map(
            old(registry).index_map(),
            mesh_id,
            index_buffer,
        ),
{
    registry.vertex_buffers.insert(mesh_id, vertex_buffer);
    if let Some(h) = index_buffer {
        registry.index_buffers.insert(mesh_id, h);
    }
}

/// Law: provisioning is idempotent.  Once the handles created on a cache miss
/// for a fresh mesh identity are registered, the registry's slots hold exactly
/// those handles — so by the cache-hit postcondition of
/// [`plan_mesh_resources`], a second provisioning of the same identity returns
/// [`MeshResourceAction::UseCached`] with the registered pair and asks for no
/// buffer to be created.
pub proof fn lemma_provisioning_idempotent(
    vertex_map: Map<u64, u64>,
    index_map: Map<u64, u64>,
    mesh_id: u64,
    vertex_buffer: u64,
    index_buffer: Option<u64>,
)
    ensures
        ({
            let v2 = registered_vertex_map(vertex_map, mesh_id, vertex_buffer);
            let i2 = registered_index_map(index_map, mesh_id, index_buffer);
            &&& v2.contains_key(mesh_id)
            &&& v2[mesh_id] == vertex_buffer
            &&& match index_buffer {
                Some(h) => i2.contains_key(mesh_id) && i2[mesh_id] == h,
                None => !index_map.contains_key(mesh_id) ==> !i2.contains_key(mesh_id),
            }
        }),
{
}

/// One named vertex-buffer binding of an entity's render configuration: the
/// handle pair resolved for one draw, under the binding name the pipeline
/// looks it up by.
pub struct VertexBufferBinding {
    pub name: String,
    pub vertex_buffer: u64,
    pub index_buffer: Option<u64>,
}

/// Index of the first binding in `bindings` whose name equals `name`.
pub open spec fn spec_find_binding(bindings: Seq<VertexBufferBinding>, name: Seq<char>) -> Option<
    int,
>
    decreases bindings.len(),
{
    if bindings.len() == 0 {
        None
    } else if bindings[0].name@ == name {
        Some(0int)
    } else {
        match spec_find_binding(bindings.skip(1), name) {
            None => None,
            Some(j) => Some(j + 1),
        }
    }
}

/// `spec_find_binding` returns the first match: a valid index whose name
/// matches, with no match before it; or `None` when no binding matches.
pub proof fn lemma_find_binding_first_match(bindings: Seq<VertexBufferBinding>, name: Seq<char>)
    ensures
        match spec_find_binding(bindings, name) {
            Some(k) => 0 <= k < bindings.len() && bindings[k].name@ == name && (forall|j: int|
                0 <= j < k ==> #[trigger] bindings[j].name@ != name),
            None => forall|j: int| 0 <= j < bindings.len() ==> #[trigger] bindings[j].name@ != name,
        },
    decreases bindings.len(),
{
    if bindings.len() != 0 && bindings[0].name@ != name {
        let rest = bindings.skip(1);
        lemma_find_binding_first_match(rest, name);
        match spec_find_binding(bindings, name) {
            Some(k) => {
                assert(rest[k - 1] == bindings[k]);
                assert forall|j: int| 0 <= j < k implies #[trigger] bindings[j].name@ != name by {
                    if j > 0 {
                        assert(bindings[j] == rest[j - 1]);
                    }
                }
            },
            None => {
                assert forall|j: int| 0 <= j < bindings.len() implies #[trigger] bindings[j].name@
                    != name by {
                    if j > 0 {
                        assert(bindings[j] == rest[j - 1]);
                    }
                }
            },
        }
    }
}

/// The per-entity render configuration this crate writes into: the named
/// vertex-buffer bindings resolved for the entity's draws, and the pipeline
/// specialization carrying the topology.
pub struct RenderResourceAssignments {
    pub vertex_buffers: Vec<VertexBufferBinding>,
    pub pipeline_specialization: PipelineSpecialization,
}

impl RenderResourceAssignments {
    /// A fresh configuration: no bindings, triangle-list topology until the
    /// specializer copies the mesh's own.
    pub fn new() -> (r: RenderResourceAssignments)
        ensures
            r.vertex_buffers@ == Seq::<VertexBufferBinding>::empty(),
            r.pipeline_specialization.primitive_topology == PrimitiveTopology::TriangleList,
    {
        RenderResourceAssignments {
            vertex_buffers: Vec::new(),
            pipeline_specialization: PipelineSpecialization {
                primitive_topology: PrimitiveTopology::TriangleList,
            },
        }
    }

    /// Attaches a resolved handle pair under `name`: the first binding with
    /// that name is replaced, or a new binding is appended when none exists.
    /// Mesh provisioning attaches under the conventional name "Vertex".
    pub fn set_vertex_buffer(&mut self, name: &str, vertex_buffer: u64, index_buffer: Option<u64>)
        ensures
            final(self).pipeline_specialization == old(self).pipeline_specialization,
            match spec_find_binding(old(self).vertex_buffers@, name@) {
                Some(k) => {
                    &&& final(self).vertex_buffers@.len() == old(self).vertex_buffers@.len()
                    &&& forall|j: int|
                        0 <= j < old(self).vertex_buffers@.len() && j != k
                            ==> #[trigger] final(self).vertex_buffers@[j] == old(
                            self,
                        ).vertex_buffers@[j]
                    &&& final(self).vertex_buffers@[k].name@ == name@
                    &&& final(self).vertex_buffers@[k].vertex_buffer == vertex_buffer
                    &&& final(self).vertex_buffers@[k].index_buffer == index_buffer
                },
                None => {
                    &&& final(self).vertex_buffers@.len() == old(self).vertex_buffers@.len() + 1
                    &&& forall|j: int|
                        0 <= j < old(self).vertex_buffers@.len()
                            ==> #[trigger] final(self).vertex_buffers@[j] == old(
                            self,
                        ).vertex_buffers@[j]
                    &&& final(self).vertex_buffers@.last().name@ == name@
                    &&& final(self).vertex_buffers@.last().vertex_buffer == vertex_buffer
                    &&& final(self).vertex_buffers@.last().index_buffer == index_buffer
                },
            },
    {
        proof {
            lemma_find_binding_first_match(self.vertex_buffers@, name@);
        }
        let owned = String::from_str(name);
        let n = self.vertex_buffers.len();
        let mut i: usize = 0;
        while i < n
            invariant
                i <= n,
                n == self.vertex_buffers@.len(),
                *self == *old(self),
                forall|j: int| 0 <= j < i ==> #[trigger] self.vertex_buffers@[j].name@ != name@,
                owned@ == name@,
            decreases n - i,
        {
            if self.vertex_buffers[i].name == owned {
                proof {
                    lemma_find_binding_first_match(self.vertex_buffers@, name@);
                    let f = spec_find_binding(self.vertex_buffers@, name@);
                    assert(f is Some);
                    assert(f->0 == i);
                }
                self.vertex_buffers[i] = VertexBufferBinding {
                    name: owned,
                    vertex_buffer,
                    index_buffer,
                };
                return ;
            }
            i = i + 1;
        }
        self.vertex_buffers.push(VertexBufferBinding { name: owned, vertex_buffer, index_buffer });
    }
}

/// The render configuration after the topology specializer ran against a mesh
/// with topology `t`.
pub open spec fn specialized(c: PipelineSpecialization, t: PrimitiveTopology) -> (
    PipelineSpecialization) {
    PipelineSpecialization { primitive_topology: t }
}

/// The whole decision of the specializer pass for one entity: copy the mesh's
/// primitive topology into the entity's pipeline configuration.  The host
/// scheduler invokes it for each entity whose mesh reference or render
/// configuration changed since the last pass.
pub fn specialize_mesh_topology(mesh: &Mesh, specialization: &mut PipelineSpecialization)
    ensures
        *final(specialization) == specialized(*old(specialization), mesh.primitive_topology),
{
    specialization.primitive_topology = mesh.primitive_topology;
}

/// Law: the topology specializer is idempotent.  A second run against the same
/// mesh leaves the configuration exactly as the first run left it.
pub proof fn lemma_specializer_idempotent(c: PipelineSpecialization, t: PrimitiveTopology)
    ensures
        specialized(specialized(c, t), t) == specialized(c, t),
{
}

} // verus!
