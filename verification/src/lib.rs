//! A small voxel world core: block templates registered under dense integer
//! ids, placements of those templates on an integer grid, and a render
//! dispatch that turns the placements into an ordered list of draw calls.
//! The GPU itself (buffers, shaders, textures, the window) lives outside this
//! crate; the library models templates and placements as plain values and
//! proves what the dispatch emits for them.

pub mod block_mesh;
pub mod camera;
pub mod errors;
pub mod world;
