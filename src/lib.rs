//! Vertex attribute formats and their compatibility with shader input types.

pub mod attrib;
pub mod shade;
