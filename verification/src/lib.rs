//! A small GPU resource layer: buffers and vertex arrays, shader programs,
//! and the bookkeeping that ties them to a rendering backend.

pub mod backend;
pub mod buffers;
pub mod diagnostics;
pub mod fileops;
pub mod gl_helper_functions;
pub mod gpu;
pub mod handles;
pub mod renderer;
pub mod resourcemanager;
pub mod shaders;

pub use crate::diagnostics::callbackfn;
