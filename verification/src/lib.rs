//! The core of a small 3D scene viewer: what goes into the vertex and index
//! buffers of a scene, what the one render pipeline looks like, how the
//! presentation surface reacts to resizes and failed acquisitions, and which
//! commands make up a frame.
//!
//! The crate decides and describes; it never touches a window or a device.
//! Positions, normals, matrices and colours are floating point numbers that
//! are carried as their bit patterns.

pub mod app;
pub mod assets;
pub mod bytes;
pub mod camera;
pub mod gpu;
pub mod layout;
pub mod pipeline;
pub mod renderer;
pub mod scene_gltf;
pub mod shader;
pub mod viewer;
