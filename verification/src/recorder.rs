use vstd::prelude::*;

verus! {

/// Number of vertices in the colored tetrahedron payload: four faces of
/// three vertices each.
pub const G_TETRAHEDRON_VERTEX_COUNT: u32 = 12;

/// Bytes per vertex: a three-component position and a four-component
/// color, four bytes per component.
pub const G_VERTEX_STRIDE_BYTES: u32 = 28;

/// The usage state a GPU resource is in. A command that touches a
/// resource must declare the state the resource is actually in; moving
/// between states is an explicit barrier command, never implicit.
#[derive(Clone, Copy, Debug, PartialEq, Eq, Structural)]
pub enum ResourceState {
    /// Readable by the presentation engine.
    Present,
    /// Writable as a render target.
    RenderTarget,
    /// Readable by any shader stage (buffers uploaded once).
    GenericRead,
}

/// The rectangle of the target the rasterizer maps clip space onto.
#[derive(Clone, Copy, Debug, PartialEq, Eq, Structural)]
pub struct Viewport {
    pub width: u32,
    pub height: u32,
}

/// The rectangle outside of which pixels are discarded.
#[derive(Clone, Copy, Debug, PartialEq, Eq, Structural)]
pub struct ScissorRect {
    pub left: i32,
    pub top: i32,
    pub right: i32,
    pub bottom: i32,
}

/// Where the input assembler reads vertices: a span of the vertex buffer
/// and the stride between consecutive vertices.
#[derive(Clone, Copy, Debug, PartialEq, Eq, Structural)]
pub struct VertexBufferView {
    pub size_in_bytes: u32,
    pub stride_in_bytes: u32,
}

/// One recorded command, with the plain values the backend call would
/// carry.
#[derive(Clone, Copy, Debug, PartialEq, Eq, Structural)]
pub enum GraphicsCommand {
    /// Bind the root signature.
    SetRootSignature,
    /// Bind the shader-visible descriptor heaps.
    SetDescriptorHeaps,
    /// Point root parameter `slot` at a descriptor table.
    SetRootDescriptorTable { slot: u32, base_gpu_ptr: u64 },
    /// Set the rasterizer viewport.
    SetViewports { viewport: Viewport },
    /// Set the scissor rectangle.
    SetScissorRects { rect: ScissorRect },
    /// Declare that image `resource` moves from `state_before` to
    /// `state_after`. The declared `state_before` must equal the state
    /// the resource was actually last set to.
    Transition { resource: usize, state_before: ResourceState, state_after: ResourceState },
    /// Bind the render-target view at `rtv_cpu_ptr` for output merging.
    SetRenderTargets { rtv_cpu_ptr: usize },
    /// Clear the render target at `rtv_cpu_ptr` to the fixed clear color.
    ClearRenderTargetView { rtv_cpu_ptr: usize },
    /// Triangle-list topology.
    SetPrimitiveTopology,
    /// Bind the vertex buffer span.
    SetVertexBuffers { view: VertexBufferView },
    /// Draw `vertex_count` vertices.
    DrawInstanced {
        vertex_count: u32,
        instance_count: u32,
        start_vertex: u32,
        start_instance: u32,
    },
}

/// The single reusable recording object: one ordered command sequence is
/// built per frame, closed before submission, and reset before the next
/// recording begins.
pub struct CommandList {
    /// Whether the list is open for recording. Lists are created open and
    /// must be closed before submission.
    pub recording: bool,
    /// The commands recorded so far, in order.
    pub commands: Vec<GraphicsCommand>,
}

impl CommandList {
    /// A fresh list, open for recording and empty.
    pub fn create() -> (r: Self)
        ensures
            r.recording,
            r.commands@ == Seq::<GraphicsCommand>::empty(),
    {
        CommandList { recording: true, commands: Vec::new() }
    }

    /// Closes the list; its sequence is complete and may be submitted.
    pub fn close(&mut self)
        requires
            old(self).recording,
        ensures
            !final(self).recording,
            final(self).commands@ == old(self).commands@,
    {
        self.recording = false;
    }

    /// Reopens the list on a reset allocator, discarding the previous
    /// sequence. Only legal once the previous sequence is closed.
    pub fn reset(&mut self)
        requires
            !old(self).recording,
        ensures
            final(self).recording,
            final(self).commands@ == Seq::<GraphicsCommand>::empty(),
    {
        self.recording = true;
        self.commands = Vec::new();
    }

    /// Appends one command to the open sequence.
    pub fn record(&mut self, command: GraphicsCommand)
        requires
            old(self).recording,
        ensures
            final(self).recording,
            final(self).commands@ == old(self).commands@.push(command),
    {
        self.commands.push(command);
    }
}

/// The exact command sequence one frame records: bind state, then a
/// barrier moving the surface image from "present" to "render target",
/// the clear and the draw, and the matching barrier moving it back. The
/// barrier pair is mandatory and order-sensitive; reordering it against
/// the clear or the draw is undefined behavior at the backend level.
pub open spec fn spec_frame_commands(
    image_index: usize,
    rtv_cpu_ptr: usize,
    cbv_gpu_ptr: u64,
    viewport: Viewport,
    scissor: ScissorRect,
    vbv: VertexBufferView,
) -> Seq<GraphicsCommand> {
    seq![
        GraphicsCommand::SetRootSignature,
        GraphicsCommand::SetDescriptorHeaps,
        GraphicsCommand::SetRootDescriptorTable { slot: 0, base_gpu_ptr: cbv_gpu_ptr },
        GraphicsCommand::SetViewports { viewport },
        GraphicsCommand::SetScissorRects { rect: scissor },
        GraphicsCommand::Transition {
            resource: image_index,
            state_before: ResourceState::Present,
            state_after: ResourceState::RenderTarget,
        },
        GraphicsCommand::SetRenderTargets { rtv_cpu_ptr },
        GraphicsCommand::ClearRenderTargetView { rtv_cpu_ptr },
        GraphicsCommand::SetPrimitiveTopology,
        GraphicsCommand::SetVertexBuffers { view: vbv },
        GraphicsCommand::DrawInstanced {
            vertex_count: G_TETRAHEDRON_VERTEX_COUNT,
            instance_count: 1,
            start_vertex: 0,
            start_instance: 0,
        },
        GraphicsCommand::Transition {
            resource: image_index,
            state_before: ResourceState::RenderTarget,
            state_after: ResourceState::Present,
        },
    ]
}

/// Barrier round trip: in every recorded frame sequence the one
/// "present to render target" transition for the frame's image is matched
/// by exactly one "render target to present" transition later in the same
/// sequence, and no other transition touches any resource.
pub proof fn lemma_barrier_round_trip(
    image_index: usize,
    rtv_cpu_ptr: usize,
    cbv_gpu_ptr: u64,
    viewport: Viewport,
    scissor: ScissorRect,
    vbv: VertexBufferView,
)
    ensures
        ({
            let cmds = spec_frame_commands(
                image_index,
                rtv_cpu_ptr,
                cbv_gpu_ptr,
                viewport,
                scissor,
                vbv,
            );
            &&& cmds.len() == 12
            &&& cmds[5] == (GraphicsCommand::Transition {
                resource: image_index,
                state_before: ResourceState::Present,
                state_after: ResourceState::RenderTarget,
            })
            &&& cmds[11] == (GraphicsCommand::Transition {
                resource: image_index,
                state_before: ResourceState::RenderTarget,
                state_after: ResourceState::Present,
            })
            &&& forall|k: int|
                0 <= k < cmds.len() && k != 5 && k != 11 ==> !(cmds[k] is Transition)
        }),
{
    let cmds = spec_frame_commands(image_index, rtv_cpu_ptr, cbv_gpu_ptr, viewport, scissor, vbv);
    assert forall|k: int| 0 <= k < cmds.len() && k != 5 && k != 11 implies !(cmds[k] is Transition) by {
        if k == 0 || k == 1 || k == 2 || k == 3 || k == 4 || k == 6 || k == 7 || k == 8 || k == 9
            || k == 10 {
            assert(!(cmds[k] is Transition));
        }
    }
}

} // verus!
