//! Rendering: the renderer front end and the OpenGL back end's bookkeeping.

pub mod renderer;
pub mod gl_enums;
pub mod buffer;
pub mod gl_context;
pub mod gl_enqueue;
pub mod color;
pub mod texture;
pub mod shader;
pub mod gl_debug;
pub mod gl_shader;
pub mod vulkan;
