//! Geometry handling for a small Vulkan model viewer: decoding the vertex,
//! normal and index streams of a glTF mesh, preparing them for upload to the
//! GPU, and the bookkeeping of the renderer and of the window's event loop.
//! The calls into the GPU driver, the window system and the audio device are
//! made by the application around this library.
pub mod descriptor;
pub mod events;
pub mod glb_file;
pub mod gpu;
pub mod model;
pub mod rectangle;
pub mod renderer;
pub mod words;

