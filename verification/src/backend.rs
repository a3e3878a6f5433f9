//! The rendering backend as the library sees it.
//!
//! Every operation on the GPU goes through a [`Backend`]. The library never
//! talks to a backend directly: it drives a [`Gpu`], which forwards each
//! request and keeps a ghost record of it together with the backend's answer.
//! Contracts elsewhere in the crate are stated over that record.

use vstd::prelude::*;
use crate::shaders::ShaderSource;

verus! {

/// A binding point for buffer objects.
#[derive(Clone, Copy, Debug, PartialEq, Eq, Structural)]
pub enum BufferTarget {
    /// Vertex attribute data.
    Array,
    /// Indices for indexed drawing.
    ElementArray,
}

/// How a buffer's storage is going to be used.
#[derive(Clone, Copy, Debug, PartialEq, Eq, Structural)]
pub enum BufferUsage {
    /// Written once, drawn from many times.
    StaticDraw,
}

/// The machine type of one vertex component.
#[derive(Clone, Copy, Debug, PartialEq, Eq, Structural)]
pub enum ComponentType {
    /// IEEE-754 single precision.
    Float,
}

/// A programmable pipeline stage.
#[derive(Clone, Copy, Debug, PartialEq, Eq, Structural)]
pub enum ShaderStage {
    Vertex,
    Fragment,
}

/// The primitive assembled from consecutive indices.
#[derive(Clone, Copy, Debug, PartialEq, Eq, Structural)]
pub enum Primitive {
    Triangles,
}

/// The machine type of one index.
#[derive(Clone, Copy, Debug, PartialEq, Eq, Structural)]
pub enum IndexType {
    /// 32-bit unsigned.
    UnsignedInt,
}

/// A descriptive string the backend can be asked for.
#[derive(Clone, Copy, Debug, PartialEq, Eq, Structural)]
pub enum StringName {
    Vendor,
    Renderer,
    Version,
    ShadingLanguageVersion,
}

/// The error code a backend reports when nothing went wrong.
pub const NO_ERROR: u32 = 0;

/// One request made of the backend, with the answer where there is one.
pub enum GlCall {
    GenVertexArray { array: u32 },
    BindVertexArray { array: u32 },
    GenBuffer { buffer: u32 },
    BindBuffer { target: BufferTarget, buffer: u32 },
    BufferData { target: BufferTarget, words: Seq<u32>, usage: BufferUsage },
    VertexAttribPointer {
        index: u32,
        size: i32,
        component: ComponentType,
        normalized: bool,
        stride: i32,
        offset: usize,
    },
    EnableVertexAttribArray { index: u32 },
    GetError { code: u32 },
    CreateShader { stage: ShaderStage, shader: u32 },
    ShaderSource { shader: u32, source: Seq<u8> },
    CompileShader { shader: u32 },
    CompileStatus { shader: u32, compiled: bool },
    ShaderInfoLog { shader: u32, log: Seq<u8> },
    CreateProgram { program: u32 },
    AttachShader { program: u32, shader: u32 },
    LinkProgram { program: u32 },
    ValidateProgram { program: u32 },
    LinkStatus { program: u32, linked: bool },
    ProgramInfoLog { program: u32, log: Seq<u8> },
    DetachShader { program: u32, shader: u32 },
    DeleteShader { shader: u32 },
    DeleteProgram { program: u32 },
    UseProgram { program: u32 },
    GetUniformLocation { program: u32, uniform: Seq<u8>, location: i32 },
    ClearColorBuffer,
    DrawElements { mode: Primitive, count: i32, index_type: IndexType, offset: usize },
    GetString { name: StringName, text: Seq<u8> },
}

/// The operations the library needs from a graphics backend.
///
/// Nothing is assumed of what an implementation answers: every function that
/// drives a backend is verified for all answers.
pub trait Backend {
    /// Creates one vertex-array object and returns its name.
    fn gen_vertex_array(&mut self) -> u32;

    /// Makes `array` the active vertex array.
    fn bind_vertex_array(&mut self, array: u32);

    /// Creates one buffer object and returns its name.
    fn gen_buffer(&mut self) -> u32;

    /// Binds `buffer` to `target`.
    fn bind_buffer(&mut self, target: BufferTarget, buffer: u32);

    /// Replaces the storage of the buffer bound to `target` with `words`.
    fn buffer_data(&mut self, target: BufferTarget, words: &Vec<u32>, usage: BufferUsage);

    /// Describes attribute `index` of the active vertex array: `size`
    /// components of type `kind` per vertex, `stride` bytes from one vertex
    /// to the next, starting `offset` bytes into the bound array buffer.
    fn vertex_attrib_pointer(
        &mut self,
        index: u32,
        size: i32,
        kind: ComponentType,
        normalized: bool,
        stride: i32,
        offset: usize,
    );

    /// Switches attribute `index` of the active vertex array on.
    fn enable_vertex_attrib_array(&mut self, index: u32);

    /// Returns and clears the oldest pending error code, [`NO_ERROR`] if none.
    fn get_error(&mut self) -> u32;

    /// Creates an empty shader object for `stage` and returns its name.
    fn create_shader(&mut self, stage: ShaderStage) -> u32;

    /// Replaces the source text of `shader`.
    fn shader_source(&mut self, shader: u32, source: &ShaderSource);

    /// Compiles the source text of `shader`.
    fn compile_shader(&mut self, shader: u32);

    /// Whether the last compilation of `shader` succeeded.
    fn compile_status(&mut self, shader: u32) -> bool;

    /// The diagnostics of the last compilation of `shader`.
    fn shader_info_log(&mut self, shader: u32) -> Vec<u8>;

    /// Creates an empty program object and returns its name.
    fn create_program(&mut self) -> u32;

    /// Attaches `shader` to `program`.
    fn attach_shader(&mut self, program: u32, shader: u32);

    /// Links `program`.
    fn link_program(&mut self, program: u32);

    /// Validates `program` against the current state.
    fn validate_program(&mut self, program: u32);

    /// Whether the last link of `program` succeeded.
    fn link_status(&mut self, program: u32) -> bool;

    /// The diagnostics of the last link or validation of `program`.
    fn program_info_log(&mut self, program: u32) -> Vec<u8>;

    /// Detaches `shader` from `program`.
    fn detach_shader(&mut self, program: u32, shader: u32);

    /// Deletes `shader`.
    fn delete_shader(&mut self, shader: u32);

    /// Deletes `program`.
    fn delete_program(&mut self, program: u32);

    /// Makes `program` the active program.
    fn use_program(&mut self, program: u32);

    /// The location of uniform `name` in `program`, `-1` if it has none.
    fn get_uniform_location(&mut self, program: u32, name: &ShaderSource) -> i32;

    /// Clears the colour buffer.
    fn clear_color_buffer(&mut self);

    /// Draws `count` indices of type `kind` from the bound element array
    /// buffer, starting `offset` bytes into it.
    fn draw_elements(&mut self, mode: Primitive, count: i32, kind: IndexType, offset: usize);

    /// The bytes of the string `name`, without a terminator.
    fn get_string(&mut self, name: StringName) -> Vec<u8>;
}

} // verus!
