//! Verified bookkeeping for OpenGL objects: vertex buffers and their
//! attribute layout, vertex arrays, and shader programs with their uniform
//! locations. Every operation returns the GL calls it makes as values, so the
//! decisions are checked here and the calls are performed by the owner of the
//! GL context.
use vstd::prelude::*;

pub mod command;
pub mod gl_buffers;
pub mod gl_vertex_array;
pub mod shader;

verus! {
}
