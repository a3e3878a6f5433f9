//! Drawing what a buffer manager holds.

use vstd::prelude::*;
use crate::backend::{Backend, GlCall, IndexType, Primitive};
use crate::buffers::{BufferData, BufferManager, ManagerModel};
use crate::gpu::Gpu;

verus! {

/// The requests that draw one frame from a manager: none while it has no
/// index buffer; else the colour buffer is cleared and triangles are drawn
/// from every index of the newest index buffer, starting at its first.
pub open spec fn frame_calls(m: ManagerModel) -> Seq<GlCall> {
    if m.index.len() == 0 {
        Seq::<GlCall>::empty()
    } else {
        seq![
            GlCall::ClearColorBuffer,
            GlCall::DrawElements {
                mode: Primitive::Triangles,
                count: m.index.last().words.len() as i32,
                index_type: IndexType::UnsignedInt,
                offset: 0,
            },
        ]
    }
}

/// Draws one frame of triangles from the index buffer that was bound last.
/// The draw covers the whole buffer.
pub fn render_triangle_2d<B: Backend, I: BufferData, V: BufferData>(
    gpu: &mut Gpu<B>,
    bufferm: &BufferManager<I, V>,
)
    requires
        bufferm@.wf(),
    ensures
        final(gpu).calls() == old(gpu).calls() + frame_calls(bufferm@),
{
    match bufferm.last_bound_index_buffer() {
        None => {
            assert(gpu.calls() =~= old(gpu).calls() + frame_calls(bufferm@));
        },
        Some(ind_buff) => {
            let data_len = ind_buff.data.len();
            assert(data_len == bufferm@.index.last().words.len());
            gpu.clear_color_buffer();
            gpu.draw_elements(Primitive::Triangles, data_len as i32, IndexType::UnsignedInt, 0);
            assert(gpu.calls() =~= old(gpu).calls() + frame_calls(bufferm@));
        },
    }
}

} // verus!
