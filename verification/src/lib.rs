//! Core of a live shader-preview engine: the annotation preprocessor for
//! GLSL sources, the frame clock, the render-target model and the runtime
//! state machine that binds them together.

pub mod buffers;
pub mod canvas;
pub mod comments;
pub mod directives;
pub mod glsl;
pub mod gpu;
pub mod ogl;
pub mod picture;
pub mod quad;
pub mod raii;
pub mod runtime;
pub mod samplers;
pub mod shaders;
pub mod text;
pub mod textures;
pub mod timeline;
pub mod watcher;
