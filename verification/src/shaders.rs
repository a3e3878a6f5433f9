//! Shader source text and linked shader programs.

use vstd::prelude::*;
use vstd::slice::slice_to_vec;
use vstd::utf8::encode_utf8;
use crate::backend::{Backend, GlCall, ShaderStage};
use crate::gpu::Gpu;

verus! {

/// Why a piece of source text could not be loaded.
#[derive(Clone, Copy, Debug, PartialEq, Eq, Structural)]
pub enum SourceError {
    /// The file could not be read.
    IoError,
    /// The text holds a terminator byte.
    InvalidSource,
}

/// Whether `bytes` holds the terminator byte anywhere.
pub open spec fn has_terminator(bytes: Seq<u8>) -> bool {
    exists|i: int| 0 <= i < bytes.len() && bytes[i] == 0u8
}

/// What validating `bytes` as source text gives: the bytes themselves, or
/// `InvalidSource` if a terminator is among them.
pub open spec fn checked_source(bytes: Seq<u8>) -> Result<Seq<u8>, SourceError> {
    if has_terminator(bytes) {
        Err(SourceError::InvalidSource)
    } else {
        Ok(bytes)
    }
}

/// What loading a file gives, `read` being its contents or `None` if it
/// could not be read.
pub open spec fn loaded_source(read: Option<Seq<u8>>) -> Result<Seq<u8>, SourceError> {
    match read {
        None => Err(SourceError::IoError),
        Some(bytes) => checked_source(bytes),
    }
}

/// The view of a validation result.
pub open spec fn source_result_view(r: Result<ShaderSource, SourceError>) -> Result<
    Seq<u8>,
    SourceError,
> {
    match r {
        Ok(s) => Ok(s@),
        Err(e) => Err(e),
    }
}

/// Tells whether a terminator byte occurs in `bytes`.
pub fn contains_terminator(bytes: &[u8]) -> (found: bool)
    ensures
        found == has_terminator(bytes@),
{
    let mut i: usize = 0;
    while i < bytes.len()
        invariant
            i <= bytes.len(),
            forall|j: int| 0 <= j < i ==> bytes[j] != 0u8,
        decreases bytes.len() - i,
    {
        if bytes[i] == 0 {
            return true;
        }
        i += 1;
    }
    false
}

/// Text handed to the backend: shader code, or a name looked up in a program.
///
/// It never holds a terminator byte, so it can be passed on as a
/// terminated string without being cut short.
pub struct ShaderSource {
    src: Vec<u8>,
}

impl View for ShaderSource {
    type V = Seq<u8>;

    closed spec fn view(&self) -> Seq<u8> {
        self.src@
    }
}

impl ShaderSource {
    #[verifier::type_invariant]
    spec fn terminator_free(self) -> bool {
        !has_terminator(self.src@)
    }

    /// Validates the contents of a file; `read` is `None` when the file could
    /// not be read.
    pub fn from_file(read: Option<Vec<u8>>) -> (r: Result<Self, SourceError>)
        ensures
            source_result_view(r) == loaded_source(
                match read {
                    Some(b) => Some(b@),
                    None => None,
                },
            ),
    {
        crate::fileops::read_file_into_cstring(read)
    }

    /// Validates a string.
    pub fn from_string(src: String) -> (r: Result<Self, SourceError>)
        ensures
            source_result_view(r) == checked_source(encode_utf8(src@)),
    {
        let bytes = src.as_str().as_bytes();
        Self::from_bytes(slice_to_vec(bytes))
    }

    /// Validates a byte vector.
    pub fn from_bytes(src: Vec<u8>) -> (r: Result<Self, SourceError>)
        ensures
            source_result_view(r) == checked_source(src@),
    {
        if contains_terminator(src.as_slice()) {
            Err(SourceError::InvalidSource)
        } else {
            Ok(ShaderSource { src })
        }
    }

    /// Wraps a byte vector that the caller has validated already; nothing is
    /// checked here.
    pub fn from_byte_vec(src: Vec<u8>) -> (s: Self)
        requires
            !has_terminator(src@),
        ensures
            s@ == src@,
    {
        ShaderSource { src }
    }

    /// The bytes of the text; no terminator is among them.
    pub fn as_bytes(&self) -> (bytes: &Vec<u8>)
        ensures
            bytes@ == self@,
            !has_terminator(self@),
    {
        proof {
            use_type_invariant(self);
        }
        &self.src
    }

    /// The number of bytes in the text.
    pub fn len(&self) -> (n: usize)
        ensures
            n == self@.len(),
    {
        self.src.len()
    }
}

/// Validating text twice gives the same bytes both times, the bytes that
/// went in, and they hold no terminator; validating the result again changes
/// nothing.
pub proof fn lemma_source_round_trip(bytes: Seq<u8>)
    requires
        !has_terminator(bytes),
    ensures
        checked_source(bytes) == Ok::<Seq<u8>, SourceError>(bytes),
        checked_source(checked_source(bytes)->Ok_0) == checked_source(bytes),
        !has_terminator(checked_source(bytes)->Ok_0),
{
}

/// Why a shader program could not be built or used.
#[derive(Debug, PartialEq, Eq)]
pub enum ShaderError {
    /// The source of one stage did not compile; `log` is what the compiler
    /// said, and is never empty.
    ShaderCompileError { stage: ShaderStage, log: Vec<u8> },
    /// The compiled stages did not link; `log` is what the linker said, and
    /// is never empty.
    ShaderLinkError { log: Vec<u8> },
    /// The program is not the active one.
    NotBound,
}

/// What a shader error is, mathematically.
pub enum ShaderErrorModel {
    ShaderCompileError { stage: ShaderStage, log: Seq<u8> },
    ShaderLinkError { log: Seq<u8> },
    NotBound,
}

impl View for ShaderError {
    type V = ShaderErrorModel;

    open spec fn view(&self) -> ShaderErrorModel {
        match *self {
            ShaderError::ShaderCompileError { stage, log } => ShaderErrorModel::ShaderCompileError {
                stage,
                log: log@,
            },
            ShaderError::ShaderLinkError { log } => ShaderErrorModel::ShaderLinkError { log: log@ },
            ShaderError::NotBound => ShaderErrorModel::NotBound,
        }
    }
}

/// The text reported when the backend has nothing to say about a failure:
/// the bytes of `no log`.
pub open spec fn fallback_diagnostic() -> Seq<u8> {
    seq![110u8, 111u8, 32u8, 108u8, 111u8, 103u8]
}

/// The diagnostic reported for a backend log: the log itself, or the
/// fallback text if the log is empty.
pub open spec fn diagnostic(log: Seq<u8>) -> Seq<u8> {
    if log.len() == 0 {
        fallback_diagnostic()
    } else {
        log
    }
}

/// The diagnostic reported for a backend log; it is never empty.
pub fn diagnostic_of(log: Vec<u8>) -> (text: Vec<u8>)
    ensures
        text@ == diagnostic(log@),
        text@.len() > 0,
{
    if log.len() == 0 {
        let mut text: Vec<u8> = Vec::new();
        text.push(110u8);
        text.push(111u8);
        text.push(32u8);
        text.push(108u8);
        text.push(111u8);
        text.push(103u8);
        assert(text@ =~= fallback_diagnostic());
        text
    } else {
        log
    }
}

/// The requests that compile `source` for `stage` as the shader named
/// `shader`. `compiled` is the status the backend reported; if it is
/// `false`, the backend is asked for its log, which is `log`, and the shader
/// is deleted.
pub open spec fn compile_calls(
    stage: ShaderStage,
    shader: u32,
    source: Seq<u8>,
    compiled: bool,
    log: Seq<u8>,
) -> Seq<GlCall> {
    seq![
        GlCall::CreateShader { stage, shader },
        GlCall::ShaderSource { shader, source },
        GlCall::CompileShader { shader },
        GlCall::CompileStatus { shader, compiled },
    ] + (if compiled {
        Seq::<GlCall>::empty()
    } else {
        seq![GlCall::ShaderInfoLog { shader, log }, GlCall::DeleteShader { shader }]
    })
}

/// What compiling gives: the shader's name if the backend reported success,
/// else a compile error for `stage` with the diagnostic for `log`.
pub open spec fn compile_result(stage: ShaderStage, shader: u32, compiled: bool, log: Seq<u8>)
    -> Result<u32, ShaderErrorModel> {
    if compiled {
        Ok(shader)
    } else {
        Err(ShaderErrorModel::ShaderCompileError { stage, log: diagnostic(log) })
    }
}

/// The view of a compilation result.
pub open spec fn compiled_view(r: Result<u32, ShaderError>) -> Result<u32, ShaderErrorModel> {
    match r {
        Ok(shader) => Ok(shader),
        Err(e) => Err(e@),
    }
}

/// Compiles `source` as a shader for stage `kind` and checks that it
/// compiled. A shader that did not compile is deleted again.
pub fn compile_shader<B: Backend>(gpu: &mut Gpu<B>, kind: ShaderStage, source: &ShaderSource) -> (r:
    Result<u32, ShaderError>)
    ensures
        exists|shader: u32, compiled: bool, log: Seq<u8>|
            {
                &&& final(gpu).calls() == old(gpu).calls() + #[trigger] compile_calls(
                    kind,
                    shader,
                    source@,
                    compiled,
                    log,
                )
                &&& compiled_view(r) == compile_result(kind, shader, compiled, log)
            },
{
    let shader = gpu.create_shader(kind);
    gpu.shader_source(shader, source);
    gpu.compile_shader(shader);
    let compiled = gpu.compile_status(shader);
    if compiled {
        assert(gpu.calls() =~= old(gpu).calls() + compile_calls(
            kind,
            shader,
            source@,
            true,
            Seq::empty(),
        ));
        Ok(shader)
    } else {
        let log = gpu.shader_info_log(shader);
        gpu.delete_shader(shader);
        assert(gpu.calls() =~= old(gpu).calls() + compile_calls(
            kind,
            shader,
            source@,
            false,
            log@,
        ));
        let ghost log_view = log@;
        let text = diagnostic_of(log);
        let r = Err(ShaderError::ShaderCompileError { stage: kind, log: text });
        assert(compiled_view(r) == compile_result(kind, shader, false, log_view));
        r
    }
}

/// A linked shader program for two-dimensional drawing.
#[derive(Clone, Copy, Debug, PartialEq, Eq, Structural)]
pub struct Shader2D {
    /// The backend's name for the program.
    pub handle: u32,
    /// Whether the program is the active one.
    pub is_bound: bool,
}

/// The program name that stands for no program.
pub const NO_PROGRAM: u32 = 0;

/// What the backend answered in the course of building a program.
pub struct BuildAnswers {
    /// The name given to the vertex shader.
    pub vertex: u32,
    pub vertex_compiled: bool,
    pub vertex_log: Seq<u8>,
    /// The name given to the fragment shader.
    pub fragment: u32,
    pub fragment_compiled: bool,
    pub fragment_log: Seq<u8>,
    /// The name given to the program.
    pub program: u32,
    pub linked: bool,
    pub link_log: Seq<u8>,
}

/// The requests that attach two compiled shaders to a new program, link and
/// validate it, and ask whether it linked.
pub open spec fn link_calls(program: u32, vertex: u32, fragment: u32, linked: bool) -> Seq<GlCall> {
    seq![
        GlCall::CreateProgram { program },
        GlCall::AttachShader { program, shader: vertex },
        GlCall::AttachShader { program, shader: fragment },
        GlCall::LinkProgram { program },
        GlCall::ValidateProgram { program },
        GlCall::LinkStatus { program, linked },
    ]
}

/// The requests that release the two shaders of a program.
pub open spec fn release_calls(program: u32, vertex: u32, fragment: u32) -> Seq<GlCall> {
    seq![
        GlCall::DetachShader { program, shader: vertex },
        GlCall::DetachShader { program, shader: fragment },
        GlCall::DeleteShader { shader: vertex },
        GlCall::DeleteShader { shader: fragment },
    ]
}

/// Every request made while building a program from the two sources, given
/// the backend's answers.
///
/// The vertex source is compiled first. If it fails, nothing else happens.
/// Then the fragment source is compiled; if it fails, the vertex shader is
/// deleted. Then the program is created and linked. Whether or not it
/// linked, both shaders are released; a program that did not link is
/// deleted, one that did is made the active program.
pub open spec fn build_calls(vertex_source: Seq<u8>, fragment_source: Seq<u8>, a: BuildAnswers)
    -> Seq<GlCall> {
    let first = compile_calls(
        ShaderStage::Vertex,
        a.vertex,
        vertex_source,
        a.vertex_compiled,
        a.vertex_log,
    );
    let second = compile_calls(
        ShaderStage::Fragment,
        a.fragment,
        fragment_source,
        a.fragment_compiled,
        a.fragment_log,
    );
    if !a.vertex_compiled {
        first
    } else if !a.fragment_compiled {
        first + second + seq![GlCall::DeleteShader { shader: a.vertex }]
    } else if !a.linked {
        first + second + link_calls(a.program, a.vertex, a.fragment, false)
            + seq![GlCall::ProgramInfoLog { program: a.program, log: a.link_log }] + release_calls(
            a.program,
            a.vertex,
            a.fragment,
        ) + seq![GlCall::DeleteProgram { program: a.program }]
    } else {
        first + second + link_calls(a.program, a.vertex, a.fragment, true) + release_calls(
            a.program,
            a.vertex,
            a.fragment,
        ) + seq![GlCall::UseProgram { program: a.program }]
    }
}

/// What building a program gives, given the backend's answers: the bound
/// program if both stages compiled and the program linked, else the error
/// of the first step that failed.
pub open spec fn build_result(a: BuildAnswers) -> Result<Shader2D, ShaderErrorModel> {
    if !a.vertex_compiled {
        Err(
            ShaderErrorModel::ShaderCompileError {
                stage: ShaderStage::Vertex,
                log: diagnostic(a.vertex_log),
            },
        )
    } else if !a.fragment_compiled {
        Err(
            ShaderErrorModel::ShaderCompileError {
                stage: ShaderStage::Fragment,
                log: diagnostic(a.fragment_log),
            },
        )
    } else if !a.linked {
        Err(ShaderErrorModel::ShaderLinkError { log: diagnostic(a.link_log) })
    } else {
        Ok(Shader2D { handle: a.program, is_bound: true })
    }
}

/// The view of a build result.
pub open spec fn built_view(r: Result<Shader2D, ShaderError>) -> Result<Shader2D, ShaderErrorModel> {
    match r {
        Ok(shader) => Ok(shader),
        Err(e) => Err(e@),
    }
}

impl Shader2D {
    /// Builds a program from a fragment and a vertex source: compiles both,
    /// links them, releases the compiled shaders and makes the program the
    /// active one. Compilation and linking are checked; the first failure
    /// ends the build, and nothing the build created outlives it.
    pub fn new<B: Backend>(
        gpu: &mut Gpu<B>,
        fragment_source: ShaderSource,
        vertex_source: ShaderSource,
    ) -> (r: Result<Shader2D, ShaderError>)
        ensures
            exists|a: BuildAnswers|
                {
                    &&& final(gpu).calls() == old(gpu).calls() + #[trigger] build_calls(
                        vertex_source@,
                        fragment_source@,
                        a,
                    )
                    &&& built_view(r) == build_result(a)
                },
    {
        let ghost asked = gpu.calls();
        let vs = match compile_shader(gpu, ShaderStage::Vertex, &vertex_source) {
            Ok(vs) => vs,
            Err(e) => {
                proof {
                    let (shader, compiled, log) = choose|shader: u32, compiled: bool, log: Seq<u8>|
                        {
                            &&& gpu.calls() == asked + #[trigger] compile_calls(
                                ShaderStage::Vertex,
                                shader,
                                vertex_source@,
                                compiled,
                                log,
                            )
                            &&& compiled_view(Err(e)) == compile_result(
                                ShaderStage::Vertex,
                                shader,
                                compiled,
                                log,
                            )
                        };
                    let a = BuildAnswers {
                        vertex: shader,
                        vertex_compiled: false,
                        vertex_log: log,
                        fragment: 0,
                        fragment_compiled: false,
                        fragment_log: Seq::empty(),
                        program: 0,
                        linked: false,
                        link_log: Seq::empty(),
                    };
                    assert(gpu.calls() == asked + build_calls(
                        vertex_source@,
                        fragment_source@,
                        a,
                    ));
                    assert(built_view(Err(e)) == build_result(a));
                }
                return Err(e);
            },
        };
        let ghost (_, _, vs_log) = choose|shader: u32, compiled: bool, log: Seq<u8>|
            {
                &&& gpu.calls() == asked + #[trigger] compile_calls(
                    ShaderStage::Vertex,
                    shader,
                    vertex_source@,
                    compiled,
                    log,
                )
                &&& compiled_view(Ok(vs)) == compile_result(
                    ShaderStage::Vertex,
                    shader,
                    compiled,
                    log,
                )
            };
        let ghost first = compile_calls(ShaderStage::Vertex, vs, vertex_source@, true, vs_log);
        assert(gpu.calls() == asked + first);
        let fs = match compile_shader(gpu, ShaderStage::Fragment, &fragment_source) {
            Ok(fs) => fs,
            Err(e) => {
                let ghost mid = gpu.calls();
                gpu.delete_shader(vs);
                proof {
                    let (shader, compiled, log) = choose|shader: u32, compiled: bool, log: Seq<u8>|
                        {
                            &&& mid == asked + first + #[trigger] compile_calls(
                                ShaderStage::Fragment,
                                shader,
                                fragment_source@,
                                compiled,
                                log,
                            )
                            &&& compiled_view(Err(e)) == compile_result(
                                ShaderStage::Fragment,
                                shader,
                                compiled,
                                log,
                            )
                        };
                    let a = BuildAnswers {
                        vertex: vs,
                        vertex_compiled: true,
                        vertex_log: vs_log,
                        fragment: shader,
                        fragment_compiled: false,
                        fragment_log: log,
                        program: 0,
                        linked: false,
                        link_log: Seq::empty(),
                    };
                    assert(gpu.calls() =~= asked + build_calls(
                        vertex_source@,
                        fragment_source@,
                        a,
                    ));
                    assert(built_view(Err(e)) == build_result(a));
                }
                return Err(e);
            },
        };
        let ghost (_, _, fs_log) = choose|shader: u32, compiled: bool, log: Seq<u8>|
            {
                &&& gpu.calls() == asked + first + #[trigger] compile_calls(
                    ShaderStage::Fragment,
                    shader,
                    fragment_source@,
                    compiled,
                    log,
                )
                &&& compiled_view(Ok(fs)) == compile_result(
                    ShaderStage::Fragment,
                    shader,
                    compiled,
                    log,
                )
            };
        let ghost second = compile_calls(ShaderStage::Fragment, fs, fragment_source@, true, fs_log);
        assert(gpu.calls() == asked + first + second);

        let handle = gpu.create_program();
        gpu.attach_shader(handle, vs);
        gpu.attach_shader(handle, fs);
        gpu.link_program(handle);
        gpu.validate_program(handle);
        let linked = gpu.link_status(handle);
        assert(gpu.calls() =~= asked + first + second + link_calls(handle, vs, fs, linked));
        if !linked {
            let log = gpu.program_info_log(handle);
            let ghost link_log = log@;
            gpu.detach_shader(handle, vs);
            gpu.detach_shader(handle, fs);
            gpu.delete_shader(vs);
            gpu.delete_shader(fs);
            gpu.delete_program(handle);
            let text = diagnostic_of(log);
            let r = Err(ShaderError::ShaderLinkError { log: text });
            proof {
                let a = BuildAnswers {
                    vertex: vs,
                    vertex_compiled: true,
                    vertex_log: vs_log,
                    fragment: fs,
                    fragment_compiled: true,
                    fragment_log: fs_log,
                    program: handle,
                    linked: false,
                    link_log,
                };
                assert(gpu.calls() =~= asked + build_calls(vertex_source@, fragment_source@, a));
                assert(built_view(r) == build_result(a));
            }
            return r;
        }
        gpu.detach_shader(handle, vs);
        gpu.detach_shader(handle, fs);
        gpu.delete_shader(vs);
        gpu.delete_shader(fs);
        gpu.use_program(handle);
        let r = Ok(Shader2D { handle, is_bound: true });
        proof {
            let a = BuildAnswers {
                vertex: vs,
                vertex_compiled: true,
                vertex_log: vs_log,
                fragment: fs,
                fragment_compiled: true,
                fragment_log: fs_log,
                program: handle,
                linked: true,
                link_log: Seq::empty(),
            };
            assert(gpu.calls() =~= asked + build_calls(vertex_source@, fragment_source@, a));
            assert(built_view(r) == build_result(a));
        }
        r
    }

    /// The program once it has been bound.
    pub open spec fn bound(self) -> Shader2D {
        Shader2D { handle: self.handle, is_bound: true }
    }

    /// The program once it has been unbound.
    pub open spec fn unbound(self) -> Shader2D {
        Shader2D { handle: self.handle, is_bound: false }
    }

    /// The requests that binding the program takes: none if it is bound,
    /// else one that makes it the active program.
    pub open spec fn bind_calls(self) -> Seq<GlCall> {
        if self.is_bound {
            Seq::<GlCall>::empty()
        } else {
            seq![GlCall::UseProgram { program: self.handle }]
        }
    }

    /// The requests that unbinding the program takes: none if it is not
    /// bound, else one that makes no program the active one.
    pub open spec fn unbind_calls(self) -> Seq<GlCall> {
        if self.is_bound {
            seq![GlCall::UseProgram { program: NO_PROGRAM }]
        } else {
            Seq::<GlCall>::empty()
        }
    }

    /// Makes the program the active one. A program that is bound already is
    /// left alone, and nothing is asked of the backend.
    pub fn bind<B: Backend>(&mut self, gpu: &mut Gpu<B>)
        ensures
            *final(self) == old(self).bound(),
            final(gpu).calls() == old(gpu).calls() + old(self).bind_calls(),
    {
        if self.is_bound {
            assert(gpu.calls() =~= old(gpu).calls() + old(self).bind_calls());
            return ;
        }
        self.is_bound = true;
        gpu.use_program(self.handle);
        assert(gpu.calls() =~= old(gpu).calls() + old(self).bind_calls());
    }

    /// Makes no program the active one, if this one was. A program that is
    /// not bound is left alone, and nothing is asked of the backend.
    pub fn unbind<B: Backend>(&mut self, gpu: &mut Gpu<B>)
        ensures
            *final(self) == old(self).unbound(),
            final(gpu).calls() == old(gpu).calls() + old(self).unbind_calls(),
    {
        if !self.is_bound {
            assert(gpu.calls() =~= old(gpu).calls() + old(self).unbind_calls());
            return ;
        }
        self.is_bound = false;
        gpu.use_program(NO_PROGRAM);
        assert(gpu.calls() =~= old(gpu).calls() + old(self).unbind_calls());
    }

    /// Looks up the location of the uniform `name`. The program must be
    /// bound; one that is not is refused without asking the backend. The
    /// location is the backend's answer as it stands: `-1` says that the
    /// program has no active uniform of that name, and is no error.
    pub fn get_uniform_location<B: Backend>(&self, gpu: &mut Gpu<B>, name: &ShaderSource) -> (r:
        Result<i32, ShaderError>)
        ensures
            lookup_outcome(*self, name@, old(gpu).calls(), final(gpu).calls(), lookup_view(r)),
    {
        if !self.is_bound {
            return Err(ShaderError::NotBound);
        }
        Ok(gpu.get_uniform_location(self.handle, name))
    }
}

/// The view of a lookup result.
pub open spec fn lookup_view(r: Result<i32, ShaderError>) -> Result<i32, ShaderErrorModel> {
    match r {
        Ok(location) => Ok(location),
        Err(e) => Err(e@),
    }
}

/// What looking up the uniform `name` in `shader` does to the record
/// `asked` of backend requests, and what it returns: `NotBound` and no
/// request for a program that is not bound, else one request and the
/// location the backend answered.
pub open spec fn lookup_outcome(
    shader: Shader2D,
    name: Seq<u8>,
    asked: Seq<GlCall>,
    asked_after: Seq<GlCall>,
    r: Result<i32, ShaderErrorModel>,
) -> bool {
    if !shader.is_bound {
        r == Err::<i32, ShaderErrorModel>(ShaderErrorModel::NotBound) && asked_after == asked
    } else {
        r matches Ok(location) && asked_after == asked.push(
            GlCall::GetUniformLocation { program: shader.handle, uniform: name, location },
        )
    }
}

/// Binding a program that is bound changes nothing and asks nothing of the
/// backend; so binding twice is the same as binding once.
pub proof fn lemma_bind_is_idempotent(shader: Shader2D)
    ensures
        shader.is_bound ==> shader.bound() == shader,
        shader.bound().bound() == shader.bound(),
        shader.bound().bind_calls() == Seq::<GlCall>::empty(),
{
}

/// A lookup in a program that is not bound fails with `NotBound`; the same
/// lookup after binding gives a location.
pub proof fn lemma_lookup_needs_binding(
    shader: Shader2D,
    name: Seq<u8>,
    asked: Seq<GlCall>,
    asked_after: Seq<GlCall>,
    r: Result<i32, ShaderErrorModel>,
    asked_again: Seq<GlCall>,
    r_bound: Result<i32, ShaderErrorModel>,
)
    requires
        !shader.is_bound,
        lookup_outcome(shader, name, asked, asked_after, r),
        lookup_outcome(shader.bound(), name, asked_after + shader.bind_calls(), asked_again, r_bound),
    ensures
        r == Err::<i32, ShaderErrorModel>(ShaderErrorModel::NotBound),
        r_bound is Ok,
        asked_again == asked.push(GlCall::UseProgram { program: shader.handle }).push(
            GlCall::GetUniformLocation {
                program: shader.handle,
                uniform: name,
                location: r_bound->Ok_0,
            },
        ),
{
    assert(asked_after + shader.bind_calls() =~= asked.push(
        GlCall::UseProgram { program: shader.handle },
    ));
}

/// A build in which a stage fails to compile ends in a compile error for
/// the first such stage, with a diagnostic that is not empty; no program is
/// created, and no shader is left behind.
pub proof fn lemma_compile_failure_propagates(
    vertex_source: Seq<u8>,
    fragment_source: Seq<u8>,
    a: BuildAnswers,
)
    requires
        !a.vertex_compiled || !a.fragment_compiled,
    ensures
        build_result(a) matches Err(ShaderErrorModel::ShaderCompileError { stage, log }) && log.len()
            > 0 && stage == (if a.vertex_compiled {
            ShaderStage::Fragment
        } else {
            ShaderStage::Vertex
        }),
        forall|program: u32|
            !build_calls(vertex_source, fragment_source, a).contains(
                GlCall::CreateProgram { program },
            ),
        build_calls(vertex_source, fragment_source, a).contains(
            GlCall::DeleteShader { shader: a.vertex },
        ),
        a.vertex_compiled ==> build_calls(vertex_source, fragment_source, a).contains(
            GlCall::DeleteShader { shader: a.fragment },
        ),
{
    let calls = build_calls(vertex_source, fragment_source, a);
    if !a.vertex_compiled {
        assert(calls.len() == 6);
        assert(calls[5] == GlCall::DeleteShader { shader: a.vertex });
    } else {
        assert(calls.len() == 11);
        assert(calls[9] == GlCall::DeleteShader { shader: a.fragment });
        assert(calls[10] == GlCall::DeleteShader { shader: a.vertex });
    }
}

/// Once built, a program is bound or it does not exist: a build that
/// succeeds gives a bound program whose name is the one the backend gave.
pub proof fn lemma_built_program_is_bound(a: BuildAnswers)
    ensures
        build_result(a) matches Ok(shader) ==> (shader.is_bound && shader.handle == a.program
            && a.vertex_compiled && a.fragment_compiled && a.linked),
{
}

} // verus!
