//! Vertex and index buffers, and the vertex array that owns them.

use vstd::prelude::*;
use crate::backend::{Backend, BufferTarget, BufferUsage, ComponentType, GlCall, NO_ERROR};
use crate::gpu::Gpu;
use crate::handles::{BufferHandle, HandleAllocator, HandleKind};

verus! {

/// Why a buffer or a vertex array could not be created.
#[derive(Clone, Copy, Debug, PartialEq, Eq, Structural)]
pub enum BufferError {
    /// The vertex data cannot be cut into vertices of the size asked for.
    InvalidLayout,
    /// The backend reported an error, or cannot address another buffer.
    BackendAllocationFailed,
    /// The manager has no vertex array yet.
    ArrayNotInitialized,
}

/// Whether a buffer is attached to its vertex array, and where.
#[derive(Clone, Copy, Debug, PartialEq, Eq, Structural)]
pub enum BufferState {
    Unbound,
    /// Attached at the given slot.
    Bound(usize),
}

/// An element of buffer data: a value the GPU reads as one 32-bit word.
pub trait BufferData {
    /// The word the GPU receives for this element.
    spec fn word(&self) -> u32;

    /// The word the GPU receives for this element.
    fn to_word(&self) -> (w: u32)
        ensures
            w == self.word(),
    ;
}

impl BufferData for u32 {
    open spec fn word(&self) -> u32 {
        *self
    }

    fn to_word(&self) -> (w: u32) {
        *self
    }
}

/// A single-precision number, held as its IEEE-754 bit pattern.
#[derive(Clone, Copy, Debug, PartialEq, Eq, Structural)]
pub struct FloatBits {
    pub bits: u32,
}

impl BufferData for FloatBits {
    open spec fn word(&self) -> u32 {
        self.bits
    }

    fn to_word(&self) -> (w: u32) {
        self.bits
    }
}

/// The words the GPU receives for `data`.
pub open spec fn words_of<T: BufferData>(data: Seq<T>) -> Seq<u32> {
    data.map_values(|t: T| t.word())
}

/// A buffer object and the data it was filled with.
pub struct Buffer<T: BufferData> {
    /// The library's handle for the buffer.
    pub handle: BufferHandle,
    /// The backend's name for the buffer.
    pub name: u32,
    pub state: BufferState,
    pub data: Vec<T>,
}

/// What a buffer is, mathematically.
pub struct BufferModel {
    pub handle: BufferHandle,
    pub name: u32,
    pub state: BufferState,
    pub words: Seq<u32>,
}

impl<T: BufferData> View for Buffer<T> {
    type V = BufferModel;

    open spec fn view(&self) -> BufferModel {
        BufferModel {
            handle: self.handle,
            name: self.name,
            state: self.state,
            words: words_of(self.data@),
        }
    }
}

/// The models of a sequence of buffers.
pub open spec fn models_of<T: BufferData>(buffers: Seq<Buffer<T>>) -> Seq<BufferModel> {
    buffers.map_values(|b: Buffer<T>| b@)
}

/// The bytes one buffer element takes on the GPU.
pub const BYTES_PER_ELEMENT: u32 = 4;

/// The most components a vertex can have for its stride to fit the backend.
pub const MAX_COMPONENTS: u32 = 0x1FFF_FFFF;

/// The most buffers of one kind a manager holds.
pub const MAX_BUFFERS: usize = 0xFFFF_FFFF;

/// The most indices one draw call can cover.
pub const MAX_INDICES: usize = 0x7FFF_FFFF;

/// Whether `len` elements can be cut into vertices of `components` each,
/// with a stride the backend can be told.
pub open spec fn valid_layout(len: nat, components: nat) -> bool {
    &&& 0 < components <= MAX_COMPONENTS
    &&& len % components == 0
}

/// The requests that create a vertex array and make it the active one;
/// `code` is the error code the backend reported at the end.
pub open spec fn array_calls(array: u32, code: u32) -> Seq<GlCall> {
    seq![
        GlCall::GenVertexArray { array },
        GlCall::BindVertexArray { array },
        GlCall::GetError { code },
    ]
}

/// The requests that create a vertex buffer named `buffer`, fill it with
/// `words`, and attach it at attribute `slot` as `size` contiguous floats per
/// vertex; `code` is the error code the backend reported at the end.
pub open spec fn vertex_upload_calls(
    buffer: u32,
    words: Seq<u32>,
    size: i32,
    slot: u32,
    code: u32,
) -> Seq<GlCall> {
    seq![
        GlCall::GenBuffer { buffer },
        GlCall::BindBuffer { target: BufferTarget::Array, buffer },
        GlCall::BufferData { target: BufferTarget::Array, words, usage: BufferUsage::StaticDraw },
        GlCall::VertexAttribPointer {
            index: slot,
            size,
            component: ComponentType::Float,
            normalized: false,
            stride: (size * BYTES_PER_ELEMENT) as i32,
            offset: 0,
        },
        GlCall::EnableVertexAttribArray { index: slot },
        GlCall::GetError { code },
    ]
}

/// The requests that create an index buffer named `buffer` and fill it with
/// `words`; `code` is the error code the backend reported at the end.
pub open spec fn index_upload_calls(buffer: u32, words: Seq<u32>, code: u32) -> Seq<GlCall> {
    seq![
        GlCall::GenBuffer { buffer },
        GlCall::BindBuffer { target: BufferTarget::ElementArray, buffer },
        GlCall::BufferData {
            target: BufferTarget::ElementArray,
            words,
            usage: BufferUsage::StaticDraw,
        },
        GlCall::GetError { code },
    ]
}

/// Creates a vertex array and makes it the active one. Returns its name and
/// the error code the backend reported.
pub fn create_vert_arr<B: Backend>(gpu: &mut Gpu<B>) -> (r: (u32, u32))
    ensures
        final(gpu).calls() == old(gpu).calls() + array_calls(r.0, r.1),
{
    let array = gpu.gen_vertex_array();
    gpu.bind_vertex_array(array);
    let code = gpu.get_error();
    assert(gpu.calls() =~= old(gpu).calls() + array_calls(array, code));
    (array, code)
}

/// Creates a buffer, uploads `positions` to it as static vertex data, and
/// attaches it at attribute `buffcount` of the active vertex array as `size`
/// contiguous floats per vertex. Returns the buffer's name and the error code
/// the backend reported.
pub fn create_vert_buff<B: Backend>(
    gpu: &mut Gpu<B>,
    positions: &Vec<u32>,
    size: u32,
    buffcount: u32,
) -> (r: (u32, u32))
    requires
        size <= MAX_COMPONENTS,
    ensures
        final(gpu).calls() == old(gpu).calls() + vertex_upload_calls(
            r.0,
            positions@,
            size as i32,
            buffcount,
            r.1,
        ),
{
    let buffer = gpu.gen_buffer();
    gpu.bind_buffer(BufferTarget::Array, buffer);
    gpu.buffer_data(BufferTarget::Array, positions, BufferUsage::StaticDraw);
    let stride: u32 = size * BYTES_PER_ELEMENT;
    gpu.vertex_attrib_pointer(
        buffcount,
        size as i32,
        ComponentType::Float,
        false,
        stride as i32,
        0,
    );
    gpu.enable_vertex_attrib_array(buffcount);
    let code = gpu.get_error();
    assert(gpu.calls() =~= old(gpu).calls() + vertex_upload_calls(
        buffer,
        positions@,
        size as i32,
        buffcount,
        code,
    ));
    (buffer, code)
}

/// Creates a buffer and uploads `indices` to it as static index data.
/// Returns the buffer's name and the error code the backend reported.
pub fn create_ind_buff<B: Backend>(gpu: &mut Gpu<B>, indices: &Vec<u32>) -> (r: (u32, u32))
    ensures
        final(gpu).calls() == old(gpu).calls() + index_upload_calls(r.0, indices@, r.1),
{
    let buffer = gpu.gen_buffer();
    gpu.bind_buffer(BufferTarget::ElementArray, buffer);
    gpu.buffer_data(BufferTarget::ElementArray, indices, BufferUsage::StaticDraw);
    let code = gpu.get_error();
    assert(gpu.calls() =~= old(gpu).calls() + index_upload_calls(buffer, indices@, code));
    (buffer, code)
}

/// The words the GPU receives for `data`.
pub fn to_words<T: BufferData>(data: &Vec<T>) -> (words: Vec<u32>)
    ensures
        words@ == words_of(data@),
{
    let mut words: Vec<u32> = Vec::new();
    let mut i: usize = 0;
    while i < data.len()
        invariant
            i <= data.len(),
            words@.len() == i,
            forall|j: int| 0 <= j < i ==> words@[j] == (#[trigger] data@[j]).word(),
        decreases data.len() - i,
    {
        words.push(data[i].to_word());
        i += 1;
    }
    assert(words@ =~= words_of(data@));
    words
}

/// What a buffer manager is, mathematically.
pub struct ManagerModel {
    /// The handle of the vertex array, once there is one.
    pub array: Option<BufferHandle>,
    /// The backend's name for the vertex array.
    pub name: u32,
    /// The vertex buffers, oldest first.
    pub vertex: Seq<BufferModel>,
    /// The index buffers, oldest first.
    pub index: Seq<BufferModel>,
    /// How many handles the manager has issued.
    pub issued: nat,
}

/// That the buffers in `buffers` are of kind `kind`, each bound at its own
/// position, with handles that grow along the sequence and were all issued
/// after the first of `issued` handles.
pub open spec fn buffers_in_order(buffers: Seq<BufferModel>, kind: HandleKind, issued: nat) -> bool {
    &&& buffers.len() <= MAX_BUFFERS
    &&& forall|i: int|
        0 <= i < buffers.len() ==> {
            &&& (#[trigger] buffers[i]).handle.kind == kind
            &&& 0 < buffers[i].handle.id < issued
            &&& buffers[i].state == BufferState::Bound(i as usize)
        }
    &&& forall|i: int, j: int|
        0 <= i < j < buffers.len() ==> (#[trigger] buffers[i]).handle.id < (
        #[trigger] buffers[j]).handle.id
}

impl ManagerModel {
    /// The invariant of a buffer manager.
    ///
    /// The vertex array is created before any buffer and has the first
    /// handle; every buffer is bound at the slot that is its position among
    /// the buffers of its kind; no handle occurs twice; every handle issued
    /// belongs to the array or to a buffer; an index buffer holds no more
    /// indices than one draw call can cover.
    pub open spec fn wf(self) -> bool {
        &&& self.array matches Some(h) ==> h.kind == HandleKind::VertexArray && h.id == 0
        &&& self.array is None ==> self.vertex.len() == 0 && self.index.len() == 0
        &&& self.issued == (if self.array is Some {
            1nat
        } else {
            0nat
        }) + self.vertex.len() + self.index.len()
        &&& buffers_in_order(self.vertex, HandleKind::VertexBuffer, self.issued)
        &&& buffers_in_order(self.index, HandleKind::IndexBuffer, self.issued)
        &&& forall|i: int, j: int|
            0 <= i < self.vertex.len() && 0 <= j < self.index.len() ==> (
            #[trigger] self.vertex[i]).handle.id != (#[trigger] self.index[j]).handle.id
        &&& forall|j: int|
            0 <= j < self.index.len() ==> (#[trigger] self.index[j]).words.len() <= MAX_INDICES
    }

    /// Whether the manager has its vertex array.
    pub open spec fn initialized(self) -> bool {
        self.array is Some
    }

    /// The manager with one more vertex buffer, which takes the next handle
    /// and the next slot.
    pub open spec fn with_vertex(self, name: u32, words: Seq<u32>) -> ManagerModel {
        ManagerModel {
            vertex: self.vertex.push(
                BufferModel {
                    handle: BufferHandle { kind: HandleKind::VertexBuffer, id: self.issued as u64 },
                    name,
                    state: BufferState::Bound(self.vertex.len() as usize),
                    words,
                },
            ),
            issued: self.issued + 1,
            ..self
        }
    }

    /// The manager with one more index buffer, which takes the next handle
    /// and the next slot.
    pub open spec fn with_index(self, name: u32, words: Seq<u32>) -> ManagerModel {
        ManagerModel {
            index: self.index.push(
                BufferModel {
                    handle: BufferHandle { kind: HandleKind::IndexBuffer, id: self.issued as u64 },
                    name,
                    state: BufferState::Bound(self.index.len() as usize),
                    words,
                },
            ),
            issued: self.issued + 1,
            ..self
        }
    }
}

/// What creating a vertex buffer returns: its handle, its attribute slot,
/// and the number of elements it was filled with.
#[derive(Clone, Copy, Debug, PartialEq, Eq, Structural)]
pub struct VertexBufferHandle {
    pub handle: BufferHandle,
    pub slot: u32,
    pub element_count: usize,
}

/// What creating an index buffer returns: its handle, its position among
/// the index buffers, and the number of indices it was filled with.
#[derive(Clone, Copy, Debug, PartialEq, Eq, Structural)]
pub struct IndexBufferHandle {
    pub handle: BufferHandle,
    pub slot: u32,
    pub element_count: usize,
}

/// The position of the newest buffer in `buffers` that is bound, if any is.
pub fn last_bound<T: BufferData>(buffers: &Vec<Buffer<T>>) -> (found: Option<usize>)
    ensures
        match found {
            Some(i) => {
                &&& i < buffers@.len()
                &&& buffers@[i as int].state is Bound
                &&& forall|j: int| i < j < buffers@.len() ==> buffers@[j].state is Unbound
            },
            None => forall|j: int| 0 <= j < buffers@.len() ==> buffers@[j].state is Unbound,
        },
{
    let mut i: usize = buffers.len();
    while i > 0
        invariant
            i <= buffers@.len(),
            forall|j: int| i <= j < buffers@.len() ==> buffers@[j].state is Unbound,
        decreases i,
    {
        i -= 1;
        match buffers[i].state {
            BufferState::Bound(_) => {
                return Some(i);
            },
            BufferState::Unbound => {},
        }
    }
    None
}

/// A vertex array with its vertex and index buffers.
pub struct BufferManager<I: BufferData, V: BufferData> {
    /// The backend's name for the vertex array; zero while there is none.
    pub name: u32,
    array: Option<BufferHandle>,
    vertex: Vec<Buffer<V>>,
    index: Vec<Buffer<I>>,
    handles: HandleAllocator,
}

impl<I: BufferData, V: BufferData> View for BufferManager<I, V> {
    type V = ManagerModel;

    closed spec fn view(&self) -> ManagerModel {
        ManagerModel {
            array: self.array,
            name: self.name,
            vertex: models_of(self.vertex@),
            index: models_of(self.index@),
            issued: self.handles.issued(),
        }
    }
}

impl<I: BufferData, V: BufferData> BufferManager<I, V> {
    /// A manager without a vertex array. No buffer can be created on it
    /// until [`BufferManager::init_array`] has succeeded.
    pub fn empty() -> (m: Self)
        ensures
            m@.wf(),
            m@ == (ManagerModel {
                array: None,
                name: 0,
                vertex: Seq::empty(),
                index: Seq::empty(),
                issued: 0,
            }),
    {
        let m = BufferManager {
            name: 0,
            array: None,
            vertex: Vec::new(),
            index: Vec::new(),
            handles: HandleAllocator::new(),
        };
        assert(m@.vertex =~= Seq::empty());
        assert(m@.index =~= Seq::empty());
        m
    }

    /// Creates the vertex array of a manager that has none and makes it the
    /// active one. Fails, and leaves the manager as it was, if the backend
    /// reports an error. A manager that has its array is left alone.
    pub fn init_array<B: Backend>(&mut self, gpu: &mut Gpu<B>) -> (r: Result<(), BufferError>)
        requires
            old(self)@.wf(),
        ensures
            final(self)@.wf(),
            old(self)@.initialized() ==> {
                &&& r is Ok
                &&& final(self)@ == old(self)@
                &&& final(gpu).calls() == old(gpu).calls()
            },
            !old(self)@.initialized() ==> exists|array: u32, code: u32|
                {
                    &&& final(gpu).calls() == old(gpu).calls() + #[trigger] array_calls(array, code)
                    &&& code == NO_ERROR ==> r is Ok && final(self)@ == (ManagerModel {
                        array: Some(BufferHandle { kind: HandleKind::VertexArray, id: 0 }),
                        name: array,
                        issued: 1,
                        ..old(self)@
                    })
                    &&& code != NO_ERROR ==> r == Err::<(), BufferError>(
                        BufferError::BackendAllocationFailed,
                    ) && final(self)@ == old(self)@
                },
    {
        if self.array.is_some() {
            return Ok(());
        }
        let (array, code) = create_vert_arr(gpu);
        if code != NO_ERROR {
            return Err(BufferError::BackendAllocationFailed);
        }
        let handle = self.handles.next_handle(HandleKind::VertexArray);
        self.array = Some(handle);
        self.name = array;
        assert(self@.vertex =~= old(self)@.vertex);
        assert(self@.index =~= old(self)@.index);
        Ok(())
    }

    /// Creates a manager and its vertex array, which becomes the active one.
    /// Fails if the backend reports an error.
    pub fn new<B: Backend>(gpu: &mut Gpu<B>) -> (r: Result<Self, BufferError>)
        ensures
            exists|array: u32, code: u32|
                {
                    &&& final(gpu).calls() == old(gpu).calls() + #[trigger] array_calls(array, code)
                    &&& code == NO_ERROR ==> (r matches Ok(m) && m@.wf() && m@ == (ManagerModel {
                        array: Some(BufferHandle { kind: HandleKind::VertexArray, id: 0 }),
                        name: array,
                        vertex: Seq::empty(),
                        index: Seq::empty(),
                        issued: 1,
                    }))
                    &&& code != NO_ERROR ==> (r matches Err(e) && e
                        == BufferError::BackendAllocationFailed)
                },
    {
        let mut m = Self::empty();
        match m.init_array(gpu) {
            Ok(()) => Ok(m),
            Err(e) => Err(e),
        }
    }

    /// Whether the manager has its vertex array.
    pub fn is_initialized(&self) -> (b: bool)
        ensures
            b == self@.initialized(),
    {
        self.array.is_some()
    }

    /// The handle of the vertex array, once there is one.
    pub fn array_handle(&self) -> (h: Option<BufferHandle>)
        ensures
            h == self@.array,
    {
        self.array
    }

    /// How many vertex buffers there are.
    pub fn vertex_count(&self) -> (n: usize)
        ensures
            n == self@.vertex.len(),
    {
        self.vertex.len()
    }

    /// How many index buffers there are.
    pub fn index_count(&self) -> (n: usize)
        ensures
            n == self@.index.len(),
    {
        self.index.len()
    }

    /// How many handles the manager has issued.
    pub fn handles_issued(&self) -> (n: u64)
        ensures
            n == self@.issued,
    {
        self.handles.count()
    }
}

/// What creating a vertex buffer from `words`, cut into vertices of
/// `components` each, does to a manager `pre` and to the record `asked` of
/// backend requests, and what it returns.
///
/// A layout that is not valid is refused before anything else is looked at,
/// then a manager without its array, then one that is full; in all three
/// cases nothing is asked of the backend. Otherwise the backend is asked to
/// create, fill and attach the buffer, and its error code decides.
pub open spec fn vertex_buffer_outcome(
    pre: ManagerModel,
    words: Seq<u32>,
    components: u32,
    asked: Seq<GlCall>,
    post: ManagerModel,
    asked_after: Seq<GlCall>,
    r: Result<VertexBufferHandle, BufferError>,
) -> bool {
    if !valid_layout(words.len(), components as nat) {
        r == Err::<VertexBufferHandle, BufferError>(BufferError::InvalidLayout) && post == pre
            && asked_after == asked
    } else if !pre.initialized() {
        r == Err::<VertexBufferHandle, BufferError>(BufferError::ArrayNotInitialized) && post
            == pre && asked_after == asked
    } else if pre.vertex.len() >= MAX_BUFFERS {
        r == Err::<VertexBufferHandle, BufferError>(BufferError::BackendAllocationFailed) && post
            == pre && asked_after == asked
    } else {
        exists|name: u32, code: u32|
            {
                &&& asked_after == asked + #[trigger] vertex_upload_calls(
                    name,
                    words,
                    components as i32,
                    pre.vertex.len() as u32,
                    code,
                )
                &&& code != NO_ERROR ==> post == pre && r == Err::<VertexBufferHandle, BufferError>(
                    BufferError::BackendAllocationFailed,
                )
                &&& code == NO_ERROR ==> post == pre.with_vertex(name, words) && r == Ok::<
                    VertexBufferHandle,
                    BufferError,
                >(
                    VertexBufferHandle {
                        handle: BufferHandle {
                            kind: HandleKind::VertexBuffer,
                            id: pre.issued as u64,
                        },
                        slot: pre.vertex.len() as u32,
                        element_count: words.len() as usize,
                    },
                )
            }
    }
}

/// What creating an index buffer from `words` does to a manager `pre` and to
/// the record `asked` of backend requests, and what it returns.
///
/// A manager without its array is refused first, then one that is full or
/// asked to hold more indices than a draw call can cover; in these cases
/// nothing is asked of the backend. Otherwise the backend is asked to create
/// and fill the buffer, and its error code decides.
pub open spec fn index_buffer_outcome(
    pre: ManagerModel,
    words: Seq<u32>,
    asked: Seq<GlCall>,
    post: ManagerModel,
    asked_after: Seq<GlCall>,
    r: Result<IndexBufferHandle, BufferError>,
) -> bool {
    if !pre.initialized() {
        r == Err::<IndexBufferHandle, BufferError>(BufferError::ArrayNotInitialized) && post == pre
            && asked_after == asked
    } else if pre.index.len() >= MAX_BUFFERS || words.len() > MAX_INDICES {
        r == Err::<IndexBufferHandle, BufferError>(BufferError::BackendAllocationFailed) && post
            == pre && asked_after == asked
    } else {
        exists|name: u32, code: u32|
            {
                &&& asked_after == asked + #[trigger] index_upload_calls(name, words, code)
                &&& code != NO_ERROR ==> post == pre && r == Err::<IndexBufferHandle, BufferError>(
                    BufferError::BackendAllocationFailed,
                )
                &&& code == NO_ERROR ==> post == pre.with_index(name, words) && r == Ok::<
                    IndexBufferHandle,
                    BufferError,
                >(
                    IndexBufferHandle {
                        handle: BufferHandle {
                            kind: HandleKind::IndexBuffer,
                            id: pre.issued as u64,
                        },
                        slot: pre.index.len() as u32,
                        element_count: words.len() as usize,
                    },
                )
            }
    }
}

impl<I: BufferData, V: BufferData> BufferManager<I, V> {
    /// Creates a vertex buffer from `data`, `components_per_vertex` elements
    /// to a vertex, uploads it as static data and attaches it at the next
    /// free attribute slot of the vertex array.
    pub fn vertex_buffer<B: Backend>(
        &mut self,
        gpu: &mut Gpu<B>,
        data: Vec<V>,
        components_per_vertex: u32,
    ) -> (r: Result<VertexBufferHandle, BufferError>)
        requires
            old(self)@.wf(),
        ensures
            final(self)@.wf(),
            vertex_buffer_outcome(
                old(self)@,
                words_of(data@),
                components_per_vertex,
                old(gpu).calls(),
                final(self)@,
                final(gpu).calls(),
                r,
            ),
    {
        if components_per_vertex == 0 || components_per_vertex > MAX_COMPONENTS || data.len() % (
        components_per_vertex as usize) != 0 {
            return Err(BufferError::InvalidLayout);
        }
        if self.array.is_none() {
            return Err(BufferError::ArrayNotInitialized);
        }
        if self.vertex.len() >= MAX_BUFFERS {
            return Err(BufferError::BackendAllocationFailed);
        }
        let slot = self.vertex.len();
        let words = to_words(&data);
        let (name, code) = create_vert_buff(gpu, &words, components_per_vertex, slot as u32);
        if code != NO_ERROR {
            return Err(BufferError::BackendAllocationFailed);
        }
        let element_count = data.len();
        let handle = self.handles.next_handle(HandleKind::VertexBuffer);
        let buffer = Buffer { handle, name, state: BufferState::Bound(slot), data };
        self.vertex.push(buffer);
        proof {
            assert(self@.vertex =~= old(self)@.vertex.push(buffer@));
            assert(self@.index =~= old(self)@.index);
            assert(self@ == old(self)@.with_vertex(name, words@));
        }
        Ok(VertexBufferHandle { handle, slot: slot as u32, element_count })
    }

    /// Creates an index buffer from `data` and uploads it as static data.
    /// It is bound at its position among the index buffers.
    pub fn index_buffer<B: Backend>(&mut self, gpu: &mut Gpu<B>, data: Vec<I>) -> (r: Result<
        IndexBufferHandle,
        BufferError,
    >)
        requires
            old(self)@.wf(),
        ensures
            final(self)@.wf(),
            index_buffer_outcome(
                old(self)@,
                words_of(data@),
                old(gpu).calls(),
                final(self)@,
                final(gpu).calls(),
                r,
            ),
    {
        if self.array.is_none() {
            return Err(BufferError::ArrayNotInitialized);
        }
        if self.index.len() >= MAX_BUFFERS || data.len() > MAX_INDICES {
            return Err(BufferError::BackendAllocationFailed);
        }
        let slot = self.index.len();
        let words = to_words(&data);
        let (name, code) = create_ind_buff(gpu, &words);
        if code != NO_ERROR {
            return Err(BufferError::BackendAllocationFailed);
        }
        let element_count = data.len();
        let handle = self.handles.next_handle(HandleKind::IndexBuffer);
        let buffer = Buffer { handle, name, state: BufferState::Bound(slot), data };
        self.index.push(buffer);
        proof {
            assert(self@.index =~= old(self)@.index.push(buffer@));
            assert(self@.vertex =~= old(self)@.vertex);
            assert(self@ == old(self)@.with_index(name, words@));
        }
        Ok(IndexBufferHandle { handle, slot: slot as u32, element_count })
    }

    /// The newest index buffer that is bound: the one created last, since
    /// buffers are bound when created and stay so. `None` while there is no
    /// index buffer.
    pub fn last_bound_index_buffer(&self) -> (r: Option<&Buffer<I>>)
        requires
            self@.wf(),
        ensures
            match r {
                Some(b) => self@.index.len() > 0 && b@ == self@.index.last(),
                None => self@.index.len() == 0,
            },
    {
        match last_bound(&self.index) {
            Some(i) => {
                proof {
                    let n = self@.index.len() as int;
                    assert(self@.index[n - 1].state is Bound);
                    assert(self.index@[n - 1]@ == self@.index[n - 1]);
                }
                Some(&self.index[i])
            },
            None => {
                proof {
                    if self@.index.len() > 0 {
                        assert(self@.index[0].state is Bound);
                        assert(self.index@[0]@ == self@.index[0]);
                    }
                }
                None
            },
        }
    }

    /// The vertex buffers, oldest first.
    pub fn vertex_buffers(&self) -> (v: &Vec<Buffer<V>>)
        ensures
            models_of(v@) == self@.vertex,
    {
        &self.vertex
    }

    /// The index buffers, oldest first.
    pub fn index_buffers(&self) -> (v: &Vec<Buffer<I>>)
        ensures
            models_of(v@) == self@.index,
    {
        &self.index
    }
}

/// No two buffers of a manager share a handle, whatever their kinds, and
/// none shares the handle of the vertex array: within a kind, and across
/// kinds, a handle names one object.
pub proof fn lemma_handles_never_repeat(m: ManagerModel)
    requires
        m.wf(),
    ensures
        forall|i: int, j: int|
            0 <= i < j < m.vertex.len() ==> (#[trigger] m.vertex[i]).handle.id < (
            #[trigger] m.vertex[j]).handle.id,
        forall|i: int, j: int|
            0 <= i < j < m.index.len() ==> (#[trigger] m.index[i]).handle.id < (
            #[trigger] m.index[j]).handle.id,
        forall|i: int, j: int|
            0 <= i < m.vertex.len() && 0 <= j < m.index.len() ==> (
            #[trigger] m.vertex[i]).handle != (#[trigger] m.index[j]).handle,
        forall|i: int|
            0 <= i < m.vertex.len() ==> Some((#[trigger] m.vertex[i]).handle) != m.array,
        forall|j: int| 0 <= j < m.index.len() ==> Some((#[trigger] m.index[j]).handle) != m.array,
{
}

/// A buffer created on a manager gets a handle greater than every handle
/// the manager holds, whichever kind the new buffer and the old ones are of.
pub proof fn lemma_new_handle_is_greatest(m: ManagerModel, name: u32, words: Seq<u32>)
    requires
        m.wf(),
        m.initialized(),
    ensures
        forall|i: int|
            0 <= i < m.vertex.len() ==> (#[trigger] m.vertex[i]).handle.id < m.with_vertex(
                name,
                words,
            ).vertex.last().handle.id,
        forall|j: int|
            0 <= j < m.index.len() ==> (#[trigger] m.index[j]).handle.id < m.with_vertex(
                name,
                words,
            ).vertex.last().handle.id,
        forall|i: int|
            0 <= i < m.vertex.len() ==> (#[trigger] m.vertex[i]).handle.id < m.with_index(
                name,
                words,
            ).index.last().handle.id,
        forall|j: int|
            0 <= j < m.index.len() ==> (#[trigger] m.index[j]).handle.id < m.with_index(
                name,
                words,
            ).index.last().handle.id,
        m.array->Some_0.id < m.with_vertex(name, words).vertex.last().handle.id,
        m.array->Some_0.id < m.with_index(name, words).index.last().handle.id,
{
}

/// Vertex data whose length is a multiple of the vertex size is accepted:
/// on a manager with its array and room for a buffer, the buffer is created
/// whenever the backend reports no error, and the element count returned is
/// the length of the data.
pub proof fn lemma_divisible_data_is_accepted(
    pre: ManagerModel,
    words: Seq<u32>,
    components: u32,
    asked: Seq<GlCall>,
    post: ManagerModel,
    asked_after: Seq<GlCall>,
    r: Result<VertexBufferHandle, BufferError>,
)
    requires
        pre.wf(),
        pre.initialized(),
        pre.vertex.len() < MAX_BUFFERS,
        words.len() <= usize::MAX,
        0 < components <= MAX_COMPONENTS,
        words.len() % (components as nat) == 0,
        vertex_buffer_outcome(pre, words, components, asked, post, asked_after, r),
        asked_after.len() > 0,
        asked_after.last() == (GlCall::GetError { code: NO_ERROR }),
    ensures
        r matches Ok(h) && h.element_count == words.len() && h.slot == pre.vertex.len(),
        post == pre.with_vertex(post.vertex.last().name, words),
        post.wf(),
{
    let (name, code) = choose|name: u32, code: u32|
        {
            &&& asked_after == asked + #[trigger] vertex_upload_calls(
                name,
                words,
                components as i32,
                pre.vertex.len() as u32,
                code,
            )
            &&& code != NO_ERROR ==> post == pre && r == Err::<VertexBufferHandle, BufferError>(
                BufferError::BackendAllocationFailed,
            )
            &&& code == NO_ERROR ==> post == pre.with_vertex(name, words) && r == Ok::<
                VertexBufferHandle,
                BufferError,
            >(
                VertexBufferHandle {
                    handle: BufferHandle { kind: HandleKind::VertexBuffer, id: pre.issued as u64 },
                    slot: pre.vertex.len() as u32,
                    element_count: words.len() as usize,
                },
            )
        };
    let calls = vertex_upload_calls(
        name,
        words,
        components as i32,
        pre.vertex.len() as u32,
        code,
    );
    assert(calls.len() == 6);
    assert(asked_after.last() == calls[5]);
    assert(code == NO_ERROR);
}

/// Vertex data whose length is no multiple of the vertex size is refused as
/// an invalid layout, whatever the state of the manager; the manager stays
/// as it was and nothing is asked of the backend.
pub proof fn lemma_indivisible_data_is_refused(
    pre: ManagerModel,
    words: Seq<u32>,
    components: u32,
    asked: Seq<GlCall>,
    post: ManagerModel,
    asked_after: Seq<GlCall>,
    r: Result<VertexBufferHandle, BufferError>,
)
    requires
        components == 0 || words.len() % (components as nat) != 0,
        vertex_buffer_outcome(pre, words, components, asked, post, asked_after, r),
    ensures
        r == Err::<VertexBufferHandle, BufferError>(BufferError::InvalidLayout),
        post == pre,
        asked_after == asked,
{
}

/// The index buffer created last is the newest one: after an index buffer
/// has been added, it is the last of the manager's index buffers, bound at
/// the last slot, and holds the data it was created from.
pub proof fn lemma_newest_index_buffer_is_last(m: ManagerModel, name: u32, words: Seq<u32>)
    requires
        m.wf(),
    ensures
        m.with_index(name, words).index.len() == m.index.len() + 1,
        m.with_index(name, words).index.last().words == words,
        m.with_index(name, words).index.last().name == name,
        m.with_index(name, words).index.last().state == BufferState::Bound(
            m.index.len() as usize,
        ),
        m.with_index(name, words).index.last().handle.id == m.issued,
{
}

} // verus!
