//! A backend together with the record of what was asked of it.

use vstd::prelude::*;
use crate::backend::{
    Backend, BufferTarget, BufferUsage, ComponentType, GlCall, IndexType, Primitive, ShaderStage,
    StringName,
};
use crate::shaders::ShaderSource;

verus! {

/// A backend and the requests made of it so far.
///
/// Each method forwards one request to the backend and appends it, with the
/// backend's answer, to [`Gpu::calls`]. The record can only grow, and only
/// through these methods, so a contract over it says which requests a
/// function made, in which order, and what it was told.
pub struct Gpu<B: Backend> {
    backend: B,
    log: Ghost<Seq<GlCall>>,
}

impl<B: Backend> Gpu<B> {
    /// Every request made so far, oldest first.
    pub closed spec fn calls(&self) -> Seq<GlCall> {
        self.log@
    }

    /// The backend behind the record.
    pub closed spec fn device(&self) -> B {
        self.backend
    }

    /// Takes charge of `backend`; nothing has been asked of it yet.
    pub fn new(backend: B) -> (gpu: Self)
        ensures
            gpu.calls() == Seq::<GlCall>::empty(),
            gpu.device() == backend,
    {
        Gpu { backend, log: Ghost(Seq::empty()) }
    }

    /// The backend, for inspection.
    pub fn backend(&self) -> (b: &B)
        ensures
            *b == self.device(),
    {
        &self.backend
    }

    /// Gives the backend back.
    pub fn into_backend(self) -> (b: B)
        ensures
            b == self.device(),
    {
        self.backend
    }

    /// Creates one vertex-array object.
    pub fn gen_vertex_array(&mut self) -> (array: u32)
        ensures
            final(self).calls() == old(self).calls().push((GlCall::GenVertexArray { array })),
    {
        let array = self.backend.gen_vertex_array();
        self.log = Ghost(self.log@.push(GlCall::GenVertexArray { array }));
        array
    }

    /// Makes `array` the active vertex array.
    pub fn bind_vertex_array(&mut self, array: u32)
        ensures
            final(self).calls() == old(self).calls().push((GlCall::BindVertexArray { array })),
    {
        self.backend.bind_vertex_array(array);
        self.log = Ghost(self.log@.push(GlCall::BindVertexArray { array }));
    }

    /// Creates one buffer object.
    pub fn gen_buffer(&mut self) -> (buffer: u32)
        ensures
            final(self).calls() == old(self).calls().push((GlCall::GenBuffer { buffer })),
    {
        let buffer = self.backend.gen_buffer();
        self.log = Ghost(self.log@.push(GlCall::GenBuffer { buffer }));
        buffer
    }

    /// Binds `buffer` to `target`.
    pub fn bind_buffer(&mut self, target: BufferTarget, buffer: u32)
        ensures
            final(self).calls() == old(self).calls().push((GlCall::BindBuffer { target, buffer })),
    {
        self.backend.bind_buffer(target, buffer);
        self.log = Ghost(self.log@.push(GlCall::BindBuffer { target, buffer }));
    }

    /// Uploads `words` as the storage of the buffer bound to `target`.
    pub fn buffer_data(&mut self, target: BufferTarget, words: &Vec<u32>, usage: BufferUsage)
        ensures
            final(self).calls() == old(self).calls().push((GlCall::BufferData { target, words: words@, usage })),
    {
        self.backend.buffer_data(target, words, usage);
        self.log = Ghost(self.log@.push(GlCall::BufferData { target, words: words@, usage }));
    }

    /// Describes the layout of attribute `index`.
    pub fn vertex_attrib_pointer(&mut self, index: u32, size: i32, kind: ComponentType, normalized: bool, stride: i32, offset: usize)
        ensures
            final(self).calls() == old(self).calls().push((GlCall::VertexAttribPointer { index, size, component: kind, normalized, stride, offset })),
    {
        self.backend.vertex_attrib_pointer(index, size, kind, normalized, stride, offset);
        self.log = Ghost(self.log@.push(GlCall::VertexAttribPointer { index, size, component: kind, normalized, stride, offset }));
    }

    /// Switches attribute `index` on.
    pub fn enable_vertex_attrib_array(&mut self, index: u32)
        ensures
            final(self).calls() == old(self).calls().push((GlCall::EnableVertexAttribArray { index })),
    {
        self.backend.enable_vertex_attrib_array(index);
        self.log = Ghost(self.log@.push(GlCall::EnableVertexAttribArray { index }));
    }

    /// Asks for the oldest pending error code.
    pub fn get_error(&mut self) -> (code: u32)
        ensures
            final(self).calls() == old(self).calls().push((GlCall::GetError { code })),
    {
        let code = self.backend.get_error();
        self.log = Ghost(self.log@.push(GlCall::GetError { code }));
        code
    }

    /// Creates an empty shader object for `stage`.
    pub fn create_shader(&mut self, stage: ShaderStage) -> (shader: u32)
        ensures
            final(self).calls() == old(self).calls().push((GlCall::CreateShader { stage, shader })),
    {
        let shader = self.backend.create_shader(stage);
        self.log = Ghost(self.log@.push(GlCall::CreateShader { stage, shader }));
        shader
    }

    /// Hands `shader` its source text.
    pub fn shader_source(&mut self, shader: u32, source: &ShaderSource)
        ensures
            final(self).calls() == old(self).calls().push((GlCall::ShaderSource { shader, source: source@ })),
    {
        self.backend.shader_source(shader, source);
        self.log = Ghost(self.log@.push(GlCall::ShaderSource { shader, source: source@ }));
    }

    /// Compiles `shader`.
    pub fn compile_shader(&mut self, shader: u32)
        ensures
            final(self).calls() == old(self).calls().push((GlCall::CompileShader { shader })),
    {
        self.backend.compile_shader(shader);
        self.log = Ghost(self.log@.push(GlCall::CompileShader { shader }));
    }

    /// Asks whether `shader` compiled.
    pub fn compile_status(&mut self, shader: u32) -> (compiled: bool)
        ensures
            final(self).calls() == old(self).calls().push((GlCall::CompileStatus { shader, compiled })),
    {
        let compiled = self.backend.compile_status(shader);
        self.log = Ghost(self.log@.push(GlCall::CompileStatus { shader, compiled }));
        compiled
    }

    /// Asks for the compiler's diagnostics on `shader`.
    pub fn shader_info_log(&mut self, shader: u32) -> (log: Vec<u8>)
        ensures
            final(self).calls() == old(self).calls().push((GlCall::ShaderInfoLog { shader, log: log@ })),
    {
        let log = self.backend.shader_info_log(shader);
        self.log = Ghost(self.log@.push(GlCall::ShaderInfoLog { shader, log: log@ }));
        log
    }

    /// Creates an empty program object.
    pub fn create_program(&mut self) -> (program: u32)
        ensures
            final(self).calls() == old(self).calls().push((GlCall::CreateProgram { program })),
    {
        let program = self.backend.create_program();
        self.log = Ghost(self.log@.push(GlCall::CreateProgram { program }));
        program
    }

    /// Attaches `shader` to `program`.
    pub fn attach_shader(&mut self, program: u32, shader: u32)
        ensures
            final(self).calls() == old(self).calls().push((GlCall::AttachShader { program, shader })),
    {
        self.backend.attach_shader(program, shader);
        self.log = Ghost(self.log@.push(GlCall::AttachShader { program, shader }));
    }

    /// Links `program`.
    pub fn link_program(&mut self, program: u32)
        ensures
            final(self).calls() == old(self).calls().push((GlCall::LinkProgram { program })),
    {
        self.backend.link_program(program);
        self.log = Ghost(self.log@.push(GlCall::LinkProgram { program }));
    }

    /// Validates `program`.
    pub fn validate_program(&mut self, program: u32)
        ensures
            final(self).calls() == old(self).calls().push((GlCall::ValidateProgram { program })),
    {
        self.backend.validate_program(program);
        self.log = Ghost(self.log@.push(GlCall::ValidateProgram { program }));
    }

    /// Asks whether `program` linked.
    pub fn link_status(&mut self, program: u32) -> (linked: bool)
        ensures
            final(self).calls() == old(self).calls().push((GlCall::LinkStatus { program, linked })),
    {
        let linked = self.backend.link_status(program);
        self.log = Ghost(self.log@.push(GlCall::LinkStatus { program, linked }));
        linked
    }

    /// Asks for the linker's diagnostics on `program`.
    pub fn program_info_log(&mut self, program: u32) -> (log: Vec<u8>)
        ensures
            final(self).calls() == old(self).calls().push((GlCall::ProgramInfoLog { program, log: log@ })),
    {
        let log = self.backend.program_info_log(program);
        self.log = Ghost(self.log@.push(GlCall::ProgramInfoLog { program, log: log@ }));
        log
    }

    /// Detaches `shader` from `program`.
    pub fn detach_shader(&mut self, program: u32, shader: u32)
        ensures
            final(self).calls() == old(self).calls().push((GlCall::DetachShader { program, shader })),
    {
        self.backend.detach_shader(program, shader);
        self.log = Ghost(self.log@.push(GlCall::DetachShader { program, shader }));
    }

    /// Deletes `shader`.
    pub fn delete_shader(&mut self, shader: u32)
        ensures
            final(self).calls() == old(self).calls().push((GlCall::DeleteShader { shader })),
    {
        self.backend.delete_shader(shader);
        self.log = Ghost(self.log@.push(GlCall::DeleteShader { shader }));
    }

    /// Deletes `program`.
    pub fn delete_program(&mut self, program: u32)
        ensures
            final(self).calls() == old(self).calls().push((GlCall::DeleteProgram { program })),
    {
        self.backend.delete_program(program);
        self.log = Ghost(self.log@.push(GlCall::DeleteProgram { program }));
    }

    /// Makes `program` the active program.
    pub fn use_program(&mut self, program: u32)
        ensures
            final(self).calls() == old(self).calls().push((GlCall::UseProgram { program })),
    {
        self.backend.use_program(program);
        self.log = Ghost(self.log@.push(GlCall::UseProgram { program }));
    }

    /// Looks up uniform `name` in `program`.
    pub fn get_uniform_location(&mut self, program: u32, name: &ShaderSource) -> (location: i32)
        ensures
            final(self).calls() == old(self).calls().push((GlCall::GetUniformLocation { program, uniform: name@, location })),
    {
        let location = self.backend.get_uniform_location(program, name);
        self.log = Ghost(self.log@.push(GlCall::GetUniformLocation { program, uniform: name@, location }));
        location
    }

    /// Clears the colour buffer.
    pub fn clear_color_buffer(&mut self)
        ensures
            final(self).calls() == old(self).calls().push((GlCall::ClearColorBuffer)),
    {
        self.backend.clear_color_buffer();
        self.log = Ghost(self.log@.push(GlCall::ClearColorBuffer));
    }

    /// Draws `count` indices from the bound element array buffer.
    pub fn draw_elements(&mut self, mode: Primitive, count: i32, kind: IndexType, offset: usize)
        ensures
            final(self).calls() == old(self).calls().push((GlCall::DrawElements { mode, count, index_type: kind, offset })),
    {
        self.backend.draw_elements(mode, count, kind, offset);
        self.log = Ghost(self.log@.push(GlCall::DrawElements { mode, count, index_type: kind, offset }));
    }

    /// Asks for the descriptive string `name`.
    pub fn get_string(&mut self, name: StringName) -> (text: Vec<u8>)
        ensures
            final(self).calls() == old(self).calls().push((GlCall::GetString { name, text: text@ })),
    {
        let text = self.backend.get_string(name);
        self.log = Ghost(self.log@.push(GlCall::GetString { name, text: text@ }));
        text
    }

}

} // verus!
