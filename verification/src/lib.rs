//! Decision and data-layout logic of a GPU falling-sand simulation.
//!
//! The GPU work (device, buffers, pipelines, passes) and the window loop run
//! outside this crate; here live the values they are driven by: the codes the
//! shaders read, the sizes and contents of the simulation buffers, which
//! buffers each frame binds, the per-frame command values, and the
//! application's reaction to window events.
pub mod structures;
pub mod resources;
pub mod frames;
pub mod graphics;
pub mod application;

