//! Mesh-to-GPU-buffer packing.
//!
//! A [`mesh::Mesh`] stores geometry attribute-major: one array per named
//! attribute (position, normal, uv, ...), plus optional 32-bit indices.  A GPU
//! pipeline instead wants a single interleaved vertex buffer whose byte layout
//! is dictated by a [`pipeline::VertexBufferDescriptor`].  This crate packs a
//! mesh into exactly that layout (or fails naming the attribute the mesh is
//! missing), narrows the index list to a requested index width, and memoizes
//! the resulting GPU buffer handles so each mesh is packed and uploaded at
//! most once per resource context.
//!
//! Element values are carried as the 32-bit patterns of the underlying
//! IEEE-754 floats; packing never interprets them, it only moves bytes.

pub mod mesh;
pub mod pipeline;
pub mod resource;
pub mod shape;
