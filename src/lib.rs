//! Host-side logic of a small real-time renderer: the surface/device lifecycle
//! state machine, the frame-submission protocol, geometry uploads, vertex
//! layouts and the fixed pipeline description.
//!
//! Everything here works on plain values. The GPU objects themselves live with
//! the caller, which performs the actions that these functions decide.
pub mod platform;
pub mod surface;
pub mod upload;
pub mod vertex;
pub mod mesh;
pub mod pipeline;
pub mod renderer;
pub mod laws;
pub mod window;
