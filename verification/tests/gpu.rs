use std::collections::VecDeque;

use moon::backend::{
    Backend, BufferTarget, BufferUsage, ComponentType, IndexType, Primitive, ShaderStage,
    StringName,
};
use moon::buffers::{
    create_ind_buff, create_vert_arr, create_vert_buff, last_bound, to_words, Buffer, BufferData,
    BufferError, BufferManager, BufferState, FloatBits,
};
use moon::gl_helper_functions::{copy_until_terminator, get_gl_string};
use moon::gpu::Gpu;
use moon::handles::{BufferHandle, HandleKind};
use moon::renderer::render_triangle_2d;
use moon::shaders::{compile_shader, diagnostic_of, Shader2D, ShaderError, ShaderSource};

/// One request as the recording backend saw it, with its answer.
#[derive(Clone, Debug, PartialEq, Eq)]
enum Call {
    GenVertexArray(u32),
    BindVertexArray(u32),
    GenBuffer(u32),
    BindBuffer(BufferTarget, u32),
    BufferData(BufferTarget, Vec<u32>, BufferUsage),
    VertexAttribPointer(u32, i32, ComponentType, bool, i32, usize),
    EnableVertexAttribArray(u32),
    GetError(u32),
    CreateShader(ShaderStage, u32),
    ShaderSource(u32, Vec<u8>),
    CompileShader(u32),
    CompileStatus(u32, bool),
    ShaderInfoLog(u32, Vec<u8>),
    CreateProgram(u32),
    AttachShader(u32, u32),
    LinkProgram(u32),
    ValidateProgram(u32),
    LinkStatus(u32, bool),
    ProgramInfoLog(u32, Vec<u8>),
    DetachShader(u32, u32),
    DeleteShader(u32),
    DeleteProgram(u32),
    UseProgram(u32),
    GetUniformLocation(u32, Vec<u8>, i32),
    ClearColorBuffer,
    DrawElements(Primitive, i32, IndexType, usize),
    GetString(StringName, Vec<u8>),
}

/// A backend that records what it is asked and answers from a script.
/// Names count up from 11. A shader whose source holds `#error` does not
/// compile.
struct Recorder {
    calls: Vec<Call>,
    next_name: u32,
    errors: VecDeque<u32>,
    sources: Vec<(u32, Vec<u8>)>,
    links: bool,
    log: Vec<u8>,
    location: i32,
    string: Vec<u8>,
}

impl Recorder {
    fn new() -> Recorder {
        Recorder {
            calls: Vec::new(),
            next_name: 11,
            errors: VecDeque::new(),
            sources: Vec::new(),
            links: true,
            log: b"0:1: error".to_vec(),
            location: 4,
            string: b"4.5.0".to_vec(),
        }
    }

    fn name(&mut self) -> u32 {
        let n = self.next_name;
        self.next_name += 1;
        n
    }
}

impl Backend for Recorder {
    fn gen_vertex_array(&mut self) -> u32 {
        let n = self.name();
        self.calls.push(Call::GenVertexArray(n));
        n
    }

    fn bind_vertex_array(&mut self, array: u32) {
        self.calls.push(Call::BindVertexArray(array));
    }

    fn gen_buffer(&mut self) -> u32 {
        let n = self.name();
        self.calls.push(Call::GenBuffer(n));
        n
    }

    fn bind_buffer(&mut self, target: BufferTarget, buffer: u32) {
        self.calls.push(Call::BindBuffer(target, buffer));
    }

    fn buffer_data(&mut self, target: BufferTarget, words: &Vec<u32>, usage: BufferUsage) {
        self.calls.push(Call::BufferData(target, words.clone(), usage));
    }

    fn vertex_attrib_pointer(
        &mut self,
        index: u32,
        size: i32,
        kind: ComponentType,
        normalized: bool,
        stride: i32,
        offset: usize,
    ) {
        self.calls.push(Call::VertexAttribPointer(index, size, kind, normalized, stride, offset));
    }

    fn enable_vertex_attrib_array(&mut self, index: u32) {
        self.calls.push(Call::EnableVertexAttribArray(index));
    }

    fn get_error(&mut self) -> u32 {
        let code = self.errors.pop_front().unwrap_or(0);
        self.calls.push(Call::GetError(code));
        code
    }

    fn create_shader(&mut self, stage: ShaderStage) -> u32 {
        let n = self.name();
        self.calls.push(Call::CreateShader(stage, n));
        n
    }

    fn shader_source(&mut self, shader: u32, source: &ShaderSource) {
        self.sources.push((shader, source.as_bytes().clone()));
        self.calls.push(Call::ShaderSource(shader, source.as_bytes().clone()));
    }

    fn compile_shader(&mut self, shader: u32) {
        self.calls.push(Call::CompileShader(shader));
    }

    fn compile_status(&mut self, shader: u32) -> bool {
        let source = self.sources.iter().find(|s| s.0 == shader).map(|s| s.1.clone());
        let ok = match source {
            Some(text) => !text.windows(6).any(|w| w == b"#error"),
            None => false,
        };
        self.calls.push(Call::CompileStatus(shader, ok));
        ok
    }

    fn shader_info_log(&mut self, shader: u32) -> Vec<u8> {
        self.calls.push(Call::ShaderInfoLog(shader, self.log.clone()));
        self.log.clone()
    }

    fn create_program(&mut self) -> u32 {
        let n = self.name();
        self.calls.push(Call::CreateProgram(n));
        n
    }

    fn attach_shader(&mut self, program: u32, shader: u32) {
        self.calls.push(Call::AttachShader(program, shader));
    }

    fn link_program(&mut self, program: u32) {
        self.calls.push(Call::LinkProgram(program));
    }

    fn validate_program(&mut self, program: u32) {
        self.calls.push(Call::ValidateProgram(program));
    }

    fn link_status(&mut self, program: u32) -> bool {
        self.calls.push(Call::LinkStatus(program, self.links));
        self.links
    }

    fn program_info_log(&mut self, program: u32) -> Vec<u8> {
        self.calls.push(Call::ProgramInfoLog(program, self.log.clone()));
        self.log.clone()
    }

    fn detach_shader(&mut self, program: u32, shader: u32) {
        self.calls.push(Call::DetachShader(program, shader));
    }

    fn delete_shader(&mut self, shader: u32) {
        self.calls.push(Call::DeleteShader(shader));
    }

    fn delete_program(&mut self, program: u32) {
        self.calls.push(Call::DeleteProgram(program));
    }

    fn use_program(&mut self, program: u32) {
        self.calls.push(Call::UseProgram(program));
    }

    fn get_uniform_location(&mut self, program: u32, name: &ShaderSource) -> i32 {
        self.calls.push(Call::GetUniformLocation(program, name.as_bytes().clone(), self.location));
        self.location
    }

    fn clear_color_buffer(&mut self) {
        self.calls.push(Call::ClearColorBuffer);
    }

    fn draw_elements(&mut self, mode: Primitive, count: i32, kind: IndexType, offset: usize) {
        self.calls.push(Call::DrawElements(mode, count, kind, offset));
    }

    fn get_string(&mut self, name: StringName) -> Vec<u8> {
        self.calls.push(Call::GetString(name, self.string.clone()));
        self.string.clone()
    }
}

fn floats(values: &[f32]) -> Vec<FloatBits> {
    values.iter().map(|v| FloatBits { bits: v.to_bits() }).collect()
}

fn bits(values: &[f32]) -> Vec<u32> {
    values.iter().map(|v| v.to_bits()).collect()
}

fn source(text: &str) -> ShaderSource {
    ShaderSource::from_string(String::from(text)).unwrap()
}

const SQUARE: [f32; 8] = [-0.5, -0.5, 0.5, -0.5, 0.5, 0.5, -0.5, 0.5];

/// A manager with its array, on a recorder whose record is empty again.
fn ready() -> (Gpu<Recorder>, BufferManager<u32, FloatBits>) {
    let mut gpu = Gpu::new(Recorder::new());
    let manager = BufferManager::new(&mut gpu).unwrap();
    let mut recorder = gpu.into_backend();
    recorder.calls.clear();
    (Gpu::new(recorder), manager)
}

#[test]
fn new_manager_creates_and_binds_its_array() {
    let mut gpu = Gpu::new(Recorder::new());
    let manager: BufferManager<u32, FloatBits> = BufferManager::new(&mut gpu).unwrap();
    assert!(manager.is_initialized());
    assert_eq!(manager.name, 11);
    assert_eq!(
        manager.array_handle(),
        Some(BufferHandle { kind: HandleKind::VertexArray, id: 0 })
    );
    assert_eq!(manager.vertex_count(), 0);
    assert_eq!(manager.index_count(), 0);
    assert_eq!(manager.handles_issued(), 1);
    assert_eq!(
        gpu.backend().calls,
        vec![Call::GenVertexArray(11), Call::BindVertexArray(11), Call::GetError(0)]
    );
}

#[test]
fn new_manager_fails_when_the_backend_does() {
    let mut recorder = Recorder::new();
    recorder.errors.push_back(0x0505);
    let mut gpu = Gpu::new(recorder);
    let r: Result<BufferManager<u32, FloatBits>, BufferError> = BufferManager::new(&mut gpu);
    assert!(matches!(r, Err(BufferError::BackendAllocationFailed)));
}

#[test]
fn empty_manager_has_no_array() {
    let manager: BufferManager<u32, FloatBits> = BufferManager::empty();
    assert!(!manager.is_initialized());
    assert_eq!(manager.array_handle(), None);
    assert_eq!(manager.handles_issued(), 0);
    assert_eq!(manager.name, 0);
}

#[test]
fn array_is_created_once() {
    let mut gpu = Gpu::new(Recorder::new());
    let mut manager: BufferManager<u32, FloatBits> = BufferManager::empty();
    assert_eq!(manager.init_array(&mut gpu), Ok(()));
    assert!(manager.is_initialized());
    assert_eq!(gpu.backend().calls.len(), 3);
    assert_eq!(manager.init_array(&mut gpu), Ok(()));
    assert_eq!(gpu.backend().calls.len(), 3);
    assert_eq!(manager.handles_issued(), 1);
}

#[test]
fn failed_array_leaves_the_manager_empty() {
    let mut recorder = Recorder::new();
    recorder.errors.push_back(1);
    let mut gpu = Gpu::new(recorder);
    let mut manager: BufferManager<u32, FloatBits> = BufferManager::empty();
    assert_eq!(manager.init_array(&mut gpu), Err(BufferError::BackendAllocationFailed));
    assert!(!manager.is_initialized());
    assert_eq!(manager.handles_issued(), 0);
    assert_eq!(manager.init_array(&mut gpu), Ok(()));
    assert!(manager.is_initialized());
}

#[test]
fn vertex_buffer_reports_its_element_count() {
    let (mut gpu, mut manager) = ready();
    let h = manager.vertex_buffer(&mut gpu, floats(&SQUARE), 2).unwrap();
    assert_eq!(h.element_count, 8);
    assert_eq!(h.slot, 0);
    assert_eq!(h.handle, BufferHandle { kind: HandleKind::VertexBuffer, id: 1 });
    assert_eq!(manager.vertex_count(), 1);
    let stored = &manager.vertex_buffers()[0];
    assert_eq!(stored.handle, h.handle);
    assert_eq!(stored.name, 12);
    assert_eq!(stored.state, BufferState::Bound(0));
    assert_eq!(stored.data, floats(&SQUARE));
}

#[test]
fn vertex_buffer_is_uploaded_and_attached() {
    let (mut gpu, mut manager) = ready();
    manager.vertex_buffer(&mut gpu, floats(&SQUARE), 2).unwrap();
    assert_eq!(
        gpu.backend().calls,
        vec![
            Call::GenBuffer(12),
            Call::BindBuffer(BufferTarget::Array, 12),
            Call::BufferData(BufferTarget::Array, bits(&SQUARE), BufferUsage::StaticDraw),
            Call::VertexAttribPointer(0, 2, ComponentType::Float, false, 8, 0),
            Call::EnableVertexAttribArray(0),
            Call::GetError(0),
        ]
    );
}

#[test]
fn every_divisible_length_is_accepted() {
    for components in 1u32..=4 {
        for vertices in 0usize..5 {
            let (mut gpu, mut manager) = ready();
            let data = vec![FloatBits { bits: 7 }; vertices * components as usize];
            let h = manager.vertex_buffer(&mut gpu, data, components).unwrap();
            assert_eq!(h.element_count, vertices * components as usize);
        }
    }
}

#[test]
fn stride_is_four_bytes_a_component() {
    let (mut gpu, mut manager) = ready();
    manager.vertex_buffer(&mut gpu, floats(&[1.0, 2.0, 3.0]), 3).unwrap();
    assert_eq!(
        gpu.backend().calls[3],
        Call::VertexAttribPointer(0, 3, ComponentType::Float, false, 12, 0)
    );
}

#[test]
fn indivisible_length_is_an_invalid_layout() {
    for components in 2u32..=5 {
        let (mut gpu, mut manager) = ready();
        let data = vec![FloatBits { bits: 0 }; components as usize + 1];
        let r = manager.vertex_buffer(&mut gpu, data, components);
        assert_eq!(r, Err(BufferError::InvalidLayout));
        assert!(gpu.backend().calls.is_empty());
        assert_eq!(manager.vertex_count(), 0);
        assert_eq!(manager.handles_issued(), 1);
    }
}

#[test]
fn no_components_is_an_invalid_layout() {
    let (mut gpu, mut manager) = ready();
    assert_eq!(manager.vertex_buffer(&mut gpu, floats(&SQUARE), 0), Err(BufferError::InvalidLayout));
    assert_eq!(manager.vertex_buffer(&mut gpu, Vec::new(), 0), Err(BufferError::InvalidLayout));
    assert!(gpu.backend().calls.is_empty());
}

#[test]
fn stride_beyond_the_backend_is_an_invalid_layout() {
    let (mut gpu, mut manager) = ready();
    let r = manager.vertex_buffer(&mut gpu, Vec::new(), 0x2000_0000);
    assert_eq!(r, Err(BufferError::InvalidLayout));
    assert!(gpu.backend().calls.is_empty());
    let r = manager.vertex_buffer(&mut gpu, Vec::new(), 0x1FFF_FFFF);
    assert!(r.is_ok());
    assert_eq!(
        gpu.backend().calls[3],
        Call::VertexAttribPointer(0, 0x1FFF_FFFF, ComponentType::Float, false, 0x7FFF_FFFC, 0)
    );
}

#[test]
fn buffers_need_the_array() {
    let mut gpu = Gpu::new(Recorder::new());
    let mut manager: BufferManager<u32, FloatBits> = BufferManager::empty();
    let r = manager.vertex_buffer(&mut gpu, floats(&SQUARE), 2);
    assert_eq!(r, Err(BufferError::ArrayNotInitialized));
    let r = manager.index_buffer(&mut gpu, vec![0, 1, 2]);
    assert_eq!(r, Err(BufferError::ArrayNotInitialized));
    assert!(gpu.backend().calls.is_empty());
    assert_eq!(manager.vertex_count(), 0);
    assert_eq!(manager.index_count(), 0);
}

#[test]
fn invalid_layout_is_seen_before_the_missing_array() {
    let mut gpu = Gpu::new(Recorder::new());
    let mut manager: BufferManager<u32, FloatBits> = BufferManager::empty();
    let r = manager.vertex_buffer(&mut gpu, floats(&[1.0, 2.0, 3.0]), 2);
    assert_eq!(r, Err(BufferError::InvalidLayout));
}

#[test]
fn failed_upload_stores_nothing() {
    let (gpu, mut manager) = ready();
    let mut recorder = gpu.into_backend();
    recorder.errors.push_back(0x0505);
    let mut gpu = Gpu::new(recorder);
    let r = manager.vertex_buffer(&mut gpu, floats(&SQUARE), 2);
    assert_eq!(r, Err(BufferError::BackendAllocationFailed));
    assert_eq!(manager.vertex_count(), 0);
    assert_eq!(manager.handles_issued(), 1);
    assert_eq!(gpu.backend().calls.len(), 6);
    let r = manager.index_buffer(&mut gpu, vec![0, 1, 2]);
    assert!(r.is_ok());
    let mut recorder = gpu.into_backend();
    recorder.errors.push_back(0x0501);
    let mut gpu = Gpu::new(recorder);
    let r = manager.index_buffer(&mut gpu, vec![0, 1, 2]);
    assert_eq!(r, Err(BufferError::BackendAllocationFailed));
    assert_eq!(manager.index_count(), 1);
    assert_eq!(manager.handles_issued(), 2);
}

#[test]
fn index_buffer_is_uploaded() {
    let (mut gpu, mut manager) = ready();
    let h = manager.index_buffer(&mut gpu, vec![0, 1, 2, 2, 3, 0]).unwrap();
    assert_eq!(h.element_count, 6);
    assert_eq!(h.slot, 0);
    assert_eq!(h.handle, BufferHandle { kind: HandleKind::IndexBuffer, id: 1 });
    assert_eq!(
        gpu.backend().calls,
        vec![
            Call::GenBuffer(12),
            Call::BindBuffer(BufferTarget::ElementArray, 12),
            Call::BufferData(
                BufferTarget::ElementArray,
                vec![0, 1, 2, 2, 3, 0],
                BufferUsage::StaticDraw
            ),
            Call::GetError(0),
        ]
    );
    let stored = &manager.index_buffers()[0];
    assert_eq!(stored.name, 12);
    assert_eq!(stored.state, BufferState::Bound(0));
    assert_eq!(stored.data, vec![0, 1, 2, 2, 3, 0]);
}

#[test]
fn empty_index_buffer_is_accepted() {
    let (mut gpu, mut manager) = ready();
    let h = manager.index_buffer(&mut gpu, Vec::new()).unwrap();
    assert_eq!(h.element_count, 0);
}

#[test]
fn slots_follow_the_order_of_creation() {
    let (mut gpu, mut manager) = ready();
    let v0 = manager.vertex_buffer(&mut gpu, floats(&SQUARE), 2).unwrap();
    let i0 = manager.index_buffer(&mut gpu, vec![0, 1, 2]).unwrap();
    let v1 = manager.vertex_buffer(&mut gpu, floats(&SQUARE), 4).unwrap();
    let i1 = manager.index_buffer(&mut gpu, vec![2, 3, 0]).unwrap();
    assert_eq!((v0.slot, v1.slot), (0, 1));
    assert_eq!((i0.slot, i1.slot), (0, 1));
    for (n, b) in manager.vertex_buffers().iter().enumerate() {
        assert_eq!(b.state, BufferState::Bound(n));
    }
    for (n, b) in manager.index_buffers().iter().enumerate() {
        assert_eq!(b.state, BufferState::Bound(n));
    }
}

#[test]
fn handles_increase_across_mixed_creation() {
    let (mut gpu, mut manager) = ready();
    let mut ids: Vec<u64> = vec![manager.array_handle().unwrap().id];
    for round in 0..6 {
        if round % 2 == 0 {
            ids.push(manager.vertex_buffer(&mut gpu, floats(&SQUARE), 2).unwrap().handle.id);
        } else {
            ids.push(manager.index_buffer(&mut gpu, vec![0, 1, 2]).unwrap().handle.id);
        }
    }
    assert_eq!(ids, vec![0, 1, 2, 3, 4, 5, 6]);
    for pair in ids.windows(2) {
        assert!(pair[0] < pair[1]);
    }
    assert_eq!(manager.handles_issued(), 7);
}

#[test]
fn no_index_buffer_before_one_is_created() {
    let (mut gpu, mut manager) = ready();
    assert!(manager.last_bound_index_buffer().is_none());
    manager.vertex_buffer(&mut gpu, floats(&SQUARE), 2).unwrap();
    assert!(manager.last_bound_index_buffer().is_none());
    let empty: BufferManager<u32, FloatBits> = BufferManager::empty();
    assert!(empty.last_bound_index_buffer().is_none());
}

#[test]
fn last_bound_index_buffer_is_the_newest() {
    let (mut gpu, mut manager) = ready();
    let a = manager.index_buffer(&mut gpu, vec![0, 1, 2]).unwrap();
    assert_eq!(manager.last_bound_index_buffer().unwrap().handle, a.handle);
    let b = manager.index_buffer(&mut gpu, vec![0, 1, 2, 3]).unwrap();
    let last = manager.last_bound_index_buffer().unwrap();
    assert_eq!(last.handle, b.handle);
    assert_eq!(last.data, vec![0, 1, 2, 3]);
    assert_eq!(last.state, BufferState::Bound(1));
}

fn buffer(id: u64, state: BufferState) -> Buffer<u32> {
    Buffer {
        handle: BufferHandle { kind: HandleKind::IndexBuffer, id },
        name: id as u32,
        state,
        data: Vec::new(),
    }
}

#[test]
fn scan_finds_the_newest_bound_buffer() {
    assert_eq!(last_bound::<u32>(&Vec::new()), None);
    let unbound = vec![buffer(1, BufferState::Unbound), buffer(2, BufferState::Unbound)];
    assert_eq!(last_bound(&unbound), None);
    let mixed = vec![
        buffer(1, BufferState::Bound(0)),
        buffer(2, BufferState::Bound(1)),
        buffer(3, BufferState::Unbound),
    ];
    assert_eq!(last_bound(&mixed), Some(1));
    let first = vec![buffer(1, BufferState::Bound(0)), buffer(2, BufferState::Unbound)];
    assert_eq!(last_bound(&first), Some(0));
    let all = vec![buffer(1, BufferState::Bound(0)), buffer(2, BufferState::Bound(1))];
    assert_eq!(last_bound(&all), Some(1));
}

#[test]
fn elements_become_words() {
    assert_eq!(to_words(&vec![1u32, 2, 3]), vec![1, 2, 3]);
    assert_eq!(to_words::<u32>(&Vec::new()), Vec::<u32>::new());
    assert_eq!(to_words(&floats(&[1.0, -2.0])), vec![0x3f80_0000, 0xc000_0000]);
    assert_eq!(FloatBits { bits: 9 }.to_word(), 9);
    assert_eq!(5u32.to_word(), 5);
}

#[test]
fn upload_helpers_return_name_and_error() {
    let mut recorder = Recorder::new();
    recorder.errors.push_back(0);
    recorder.errors.push_back(0x0502);
    recorder.errors.push_back(0x0505);
    let mut gpu = Gpu::new(recorder);
    assert_eq!(create_vert_arr(&mut gpu), (11, 0));
    assert_eq!(create_vert_buff(&mut gpu, &vec![1, 2, 3, 4], 2, 5), (12, 0x0502));
    assert_eq!(create_ind_buff(&mut gpu, &vec![0, 1, 2]), (13, 0x0505));
    let calls = &gpu.backend().calls;
    assert_eq!(calls.len(), 13);
    assert_eq!(calls[6], Call::VertexAttribPointer(5, 2, ComponentType::Float, false, 8, 0));
    assert_eq!(calls[7], Call::EnableVertexAttribArray(5));
    assert_eq!(calls[10], Call::BindBuffer(BufferTarget::ElementArray, 13));
}

#[test]
fn build_links_and_binds_the_program() {
    let mut gpu = Gpu::new(Recorder::new());
    let shader = Shader2D::new(&mut gpu, source("frag"), source("vert")).unwrap();
    assert_eq!(shader, Shader2D { handle: 13, is_bound: true });
    assert_eq!(
        gpu.backend().calls,
        vec![
            Call::CreateShader(ShaderStage::Vertex, 11),
            Call::ShaderSource(11, b"vert".to_vec()),
            Call::CompileShader(11),
            Call::CompileStatus(11, true),
            Call::CreateShader(ShaderStage::Fragment, 12),
            Call::ShaderSource(12, b"frag".to_vec()),
            Call::CompileShader(12),
            Call::CompileStatus(12, true),
            Call::CreateProgram(13),
            Call::AttachShader(13, 11),
            Call::AttachShader(13, 12),
            Call::LinkProgram(13),
            Call::ValidateProgram(13),
            Call::LinkStatus(13, true),
            Call::DetachShader(13, 11),
            Call::DetachShader(13, 12),
            Call::DeleteShader(11),
            Call::DeleteShader(12),
            Call::UseProgram(13),
        ]
    );
}

#[test]
fn malformed_vertex_source_is_a_compile_error() {
    let mut gpu = Gpu::new(Recorder::new());
    let r = Shader2D::new(&mut gpu, source("frag"), source("#error vert"));
    assert_eq!(
        r,
        Err(ShaderError::ShaderCompileError {
            stage: ShaderStage::Vertex,
            log: b"0:1: error".to_vec()
        })
    );
    assert_eq!(
        gpu.backend().calls,
        vec![
            Call::CreateShader(ShaderStage::Vertex, 11),
            Call::ShaderSource(11, b"#error vert".to_vec()),
            Call::CompileShader(11),
            Call::CompileStatus(11, false),
            Call::ShaderInfoLog(11, b"0:1: error".to_vec()),
            Call::DeleteShader(11),
        ]
    );
}

#[test]
fn malformed_fragment_source_is_a_compile_error() {
    let mut gpu = Gpu::new(Recorder::new());
    let r = Shader2D::new(&mut gpu, source("#error"), source("vert"));
    match r {
        Err(ShaderError::ShaderCompileError { stage, log }) => {
            assert_eq!(stage, ShaderStage::Fragment);
            assert!(!log.is_empty());
        }
        _ => panic!("the build went on with a shader that did not compile"),
    }
    let calls = &gpu.backend().calls;
    assert_eq!(calls.len(), 11);
    assert_eq!(calls[8], Call::ShaderInfoLog(12, b"0:1: error".to_vec()));
    assert_eq!(calls[9], Call::DeleteShader(12));
    assert_eq!(calls[10], Call::DeleteShader(11));
    assert!(!calls.iter().any(|c| matches!(c, Call::CreateProgram(_))));
}

#[test]
fn silent_compiler_still_gives_a_diagnostic() {
    let mut recorder = Recorder::new();
    recorder.log = Vec::new();
    let mut gpu = Gpu::new(recorder);
    let r = Shader2D::new(&mut gpu, source("frag"), source("#error"));
    assert_eq!(
        r,
        Err(ShaderError::ShaderCompileError { stage: ShaderStage::Vertex, log: b"no log".to_vec() })
    );
}

#[test]
fn diagnostic_is_never_empty() {
    assert_eq!(diagnostic_of(Vec::new()), b"no log".to_vec());
    assert_eq!(diagnostic_of(b"x".to_vec()), b"x".to_vec());
    assert_eq!(diagnostic_of(vec![0]), vec![0]);
}

#[test]
fn failed_link_is_a_link_error() {
    let mut recorder = Recorder::new();
    recorder.links = false;
    let mut gpu = Gpu::new(recorder);
    let r = Shader2D::new(&mut gpu, source("frag"), source("vert"));
    assert_eq!(r, Err(ShaderError::ShaderLinkError { log: b"0:1: error".to_vec() }));
    let calls = &gpu.backend().calls;
    assert_eq!(
        calls[13..].to_vec(),
        vec![
            Call::LinkStatus(13, false),
            Call::ProgramInfoLog(13, b"0:1: error".to_vec()),
            Call::DetachShader(13, 11),
            Call::DetachShader(13, 12),
            Call::DeleteShader(11),
            Call::DeleteShader(12),
            Call::DeleteProgram(13),
        ]
    );
    assert!(!calls.iter().any(|c| matches!(c, Call::UseProgram(_))));
}

#[test]
fn compile_shader_returns_the_name() {
    let mut gpu = Gpu::new(Recorder::new());
    assert_eq!(compile_shader(&mut gpu, ShaderStage::Fragment, &source("ok")), Ok(11));
    let r = compile_shader(&mut gpu, ShaderStage::Fragment, &source("#error"));
    assert_eq!(
        r,
        Err(ShaderError::ShaderCompileError {
            stage: ShaderStage::Fragment,
            log: b"0:1: error".to_vec()
        })
    );
    assert_eq!(gpu.backend().calls.len(), 10);
}

#[test]
fn binding_twice_changes_nothing() {
    let mut gpu = Gpu::new(Recorder::new());
    let mut shader = Shader2D::new(&mut gpu, source("frag"), source("vert")).unwrap();
    let asked = gpu.backend().calls.len();
    shader.bind(&mut gpu);
    shader.bind(&mut gpu);
    assert!(shader.is_bound);
    assert_eq!(shader.handle, 13);
    assert_eq!(gpu.backend().calls.len(), asked);
}

#[test]
fn unbound_program_is_bound_by_one_request() {
    let mut gpu = Gpu::new(Recorder::new());
    let mut shader = Shader2D { handle: 21, is_bound: true };
    shader.unbind(&mut gpu);
    assert!(!shader.is_bound);
    shader.unbind(&mut gpu);
    assert_eq!(gpu.backend().calls, vec![Call::UseProgram(0)]);
    shader.bind(&mut gpu);
    assert!(shader.is_bound);
    shader.bind(&mut gpu);
    assert_eq!(gpu.backend().calls, vec![Call::UseProgram(0), Call::UseProgram(21)]);
}

#[test]
fn uniform_lookup_needs_a_bound_program() {
    let mut gpu = Gpu::new(Recorder::new());
    let mut shader = Shader2D { handle: 21, is_bound: false };
    let name = source("u_color");
    assert_eq!(shader.get_uniform_location(&mut gpu, &name), Err(ShaderError::NotBound));
    assert!(gpu.backend().calls.is_empty());
    shader.bind(&mut gpu);
    assert_eq!(shader.get_uniform_location(&mut gpu, &name), Ok(4));
    assert_eq!(
        gpu.backend().calls,
        vec![Call::UseProgram(21), Call::GetUniformLocation(21, b"u_color".to_vec(), 4)]
    );
}

#[test]
fn missing_uniform_is_no_error() {
    let mut recorder = Recorder::new();
    recorder.location = -1;
    let mut gpu = Gpu::new(recorder);
    let shader = Shader2D { handle: 21, is_bound: true };
    assert_eq!(shader.get_uniform_location(&mut gpu, &source("unused")), Ok(-1));
}

#[test]
fn nothing_is_drawn_without_an_index_buffer() {
    let (mut gpu, mut manager) = ready();
    render_triangle_2d(&mut gpu, &manager);
    assert!(gpu.backend().calls.is_empty());
    manager.vertex_buffer(&mut gpu, floats(&SQUARE), 2).unwrap();
    let asked = gpu.backend().calls.len();
    render_triangle_2d(&mut gpu, &manager);
    assert_eq!(gpu.backend().calls.len(), asked);
}

#[test]
fn draw_covers_the_newest_index_buffer() {
    let (mut gpu, mut manager) = ready();
    manager.vertex_buffer(&mut gpu, floats(&SQUARE), 2).unwrap();
    manager.index_buffer(&mut gpu, vec![0, 1, 2]).unwrap();
    manager.index_buffer(&mut gpu, vec![0, 1, 2, 2, 3, 0]).unwrap();
    let asked = gpu.backend().calls.len();
    render_triangle_2d(&mut gpu, &manager);
    assert_eq!(
        gpu.backend().calls[asked..].to_vec(),
        vec![
            Call::ClearColorBuffer,
            Call::DrawElements(Primitive::Triangles, 6, IndexType::UnsignedInt, 0),
        ]
    );
}

#[test]
fn backend_string_ends_in_a_terminator() {
    let mut gpu = Gpu::new(Recorder::new());
    assert_eq!(get_gl_string(&mut gpu, StringName::Version), Some(String::from("4.5.0\0")));
    assert_eq!(gpu.backend().calls, vec![Call::GetString(StringName::Version, b"4.5.0".to_vec())]);
}

#[test]
fn backend_string_is_cut_at_its_terminator() {
    let mut recorder = Recorder::new();
    recorder.string = b"NVIDIA\0junk".to_vec();
    let mut gpu = Gpu::new(recorder);
    assert_eq!(get_gl_string(&mut gpu, StringName::Vendor), Some(String::from("NVIDIA\0")));
    let mut recorder = Recorder::new();
    recorder.string = Vec::new();
    let mut gpu = Gpu::new(recorder);
    assert_eq!(get_gl_string(&mut gpu, StringName::Renderer), Some(String::from("\0")));
}

#[test]
fn backend_string_that_is_not_text_is_missing() {
    let mut recorder = Recorder::new();
    recorder.string = vec![b'a', 0xff, b'b'];
    let mut gpu = Gpu::new(recorder);
    assert_eq!(get_gl_string(&mut gpu, StringName::ShadingLanguageVersion), None);
}

#[test]
fn prefix_stops_at_the_first_terminator() {
    assert_eq!(copy_until_terminator(&vec![1, 2, 0, 3, 0]), vec![1, 2]);
    assert_eq!(copy_until_terminator(&vec![0, 1]), Vec::<u8>::new());
    assert_eq!(copy_until_terminator(&vec![1, 2, 3]), vec![1, 2, 3]);
    assert_eq!(copy_until_terminator(&Vec::new()), Vec::<u8>::new());
}

#[test]
fn record_is_handed_back_with_the_backend() {
    let mut gpu = Gpu::new(Recorder::new());
    gpu.use_program(3);
    assert_eq!(gpu.get_error(), 0);
    assert_eq!(gpu.backend().calls.len(), 2);
    let recorder = gpu.into_backend();
    assert_eq!(recorder.calls, vec![Call::UseProgram(3), Call::GetError(0)]);
}
