//! A backend-agnostic description of GPU resources together with the
//! command-buffer and pipeline-binding model of an OpenGL backend.
//!
//! Nothing in this crate touches a graphics context. Every operation that
//! would drive the context instead yields the ordered list of context calls
//! ([`context::GlCall`]) that the caller has to issue, so that recording,
//! caching and replay can be stated and proved over plain values.

pub mod api;
pub mod asset;
pub mod attribute;
pub mod buffer;
pub mod buffer_layout;
pub mod command;
pub mod context;
pub mod device;
pub mod ecs;
pub mod gl_buffer;
pub mod glenum;
pub mod grouping;
pub mod image;
pub mod layout;
pub mod material;
pub mod memory;
pub mod pipeline;
pub mod platform;
pub mod render;
pub mod shader;
pub mod shader_mod;
pub mod shared_types;
pub mod vertex_array;
pub mod vertex_layout;
