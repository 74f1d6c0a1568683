use vstd::prelude::*;
use crate::G_MAX_FRAME_COUNT;
use crate::G_WIDTH;
use crate::G_HEIGHT;
use crate::constant_buffer::ConstantBufferRegion;
use crate::constant_buffer::MATRIX_WORD_COUNT;
use crate::constant_buffer::encodes_matrix;
use crate::descriptors::DescriptorHeap;
use crate::descriptors::HeapKind;
use crate::fence::FenceQueue;
use crate::recorder::CommandList;
use crate::recorder::GraphicsCommand;
use crate::recorder::ResourceState;
use crate::recorder::ScissorRect;
use crate::recorder::VertexBufferView;
use crate::recorder::Viewport;
use crate::recorder::G_TETRAHEDRON_VERTEX_COUNT;
use crate::recorder::G_VERTEX_STRIDE_BYTES;
use crate::recorder::spec_frame_commands;
use crate::surface::PresentationSurface;

verus! {

/// Bit pattern the GPU pipeline reads as the scalar one in its 32-bit
/// number format; the diagonal of the initial transform.
pub const UNIT_SCALE_BITS: u32 = 0x3F800000;

/// Lifecycle phase of the renderer: created empty, then the pipeline
/// objects exist, then the assets are uploaded and frames may be drawn.
#[derive(Clone, Copy, Debug, PartialEq, Eq, Structural)]
pub enum Phase {
    Created,
    PipelineLoaded,
    Ready,
}

/// Lifecycle of one frame slot's command storage. A slot may only begin
/// recording when it is `Ready`, and it becomes `Ready` again only after
/// the fence confirms its submitted work has retired.
#[derive(Clone, Copy, Debug, PartialEq, Eq, Structural)]
pub enum SlotState {
    /// No work in flight; the slot's allocator may be reset.
    Ready,
    /// The slot's allocator is backing an open recording.
    Recording,
    /// The slot's work has been submitted and not yet confirmed complete.
    Submitted,
}

/// The values the backend reports while the pipeline is being built:
/// heap base handles, the per-kind descriptor strides queried from the
/// device, and which presentable image is current first.
#[derive(Clone, Copy, Debug, PartialEq, Eq)]
pub struct PipelineConfig {
    /// CPU base handle of the render-target-view heap.
    pub rtv_heap_base_cpu_ptr: usize,
    /// Device-reported stride of render-target-view records.
    pub rtv_increment_size: u32,
    /// CPU base handle of the shader-visible constant-buffer-view heap.
    pub cbv_heap_base_cpu_ptr: usize,
    /// GPU base handle of the constant-buffer-view heap.
    pub cbv_heap_base_gpu_ptr: u64,
    /// Device-reported stride of constant-buffer-view records.
    pub cbv_increment_size: u32,
    /// The image the surface reports as current right after creation.
    pub initial_image_index: usize,
}

/// The sixteen words of the initial transform: unit scale on the
/// diagonal, zero elsewhere, row major.
pub open spec fn identity_matrix_words() -> Seq<u32> {
    seq![
        UNIT_SCALE_BITS, 0u32, 0u32, 0u32,
        0u32, UNIT_SCALE_BITS, 0u32, 0u32,
        0u32, 0u32, UNIT_SCALE_BITS, 0u32,
        0u32, 0u32, 0u32, UNIT_SCALE_BITS,
    ]
}

/// Builds the initial transform as a vector of words.
pub fn make_identity_matrix_words() -> (r: Vec<u32>)
    ensures
        r@ == identity_matrix_words(),
{
    let mut words: Vec<u32> = Vec::new();
    let mut k: usize = 0;
    while k < MATRIX_WORD_COUNT
        invariant
            k <= MATRIX_WORD_COUNT,
            words@.len() == k,
            forall|j: int|
                0 <= j < k ==> words@[j] == (if j % 5 == 0 {
                    UNIT_SCALE_BITS
                } else {
                    0u32
                }),
        decreases MATRIX_WORD_COUNT - k,
    {
        if k % 5 == 0 {
            words.push(UNIT_SCALE_BITS);
        } else {
            words.push(0u32);
        }
        k = k + 1;
    }
    proof {
        assert(words@ =~= identity_matrix_words());
    }
    words
}

/// The frame pipeline: per-slot command storage and fence targets, the
/// recorder, the fence-paired submission queue, the presentation surface
/// and the descriptor heaps, driven by one CPU thread while the GPU
/// consumes submissions asynchronously, up to `frame_count` frames deep.
pub struct Renderer {
    /// Lifecycle phase; drawing methods demand `Ready`.
    pub phase: Phase,
    /// Rasterizer viewport, fixed at creation.
    pub viewport: Viewport,
    /// Scissor rectangle, fixed at creation.
    pub scissor_rect: ScissorRect,
    /// How many frames may be in flight; two here, hard cap three.
    pub frame_count: usize,
    /// The slot being prepared: the surface's reported current image.
    pub frame_index: usize,
    /// Per slot, the fence value the GPU must reach before the slot's
    /// storage may be reused; bumped on every reuse, never decreased.
    pub fence_values: Vec<u64>,
    /// Per slot, where its command storage is in its lifecycle.
    pub slot_states: Vec<SlotState>,
    /// Last-set usage state of each presentable image; barrier commands
    /// must declare these exactly.
    pub render_target_states: Vec<ResourceState>,
    /// Fixed-capacity heap of render-target views, one per image.
    pub rtv_descriptor_heap: DescriptorHeap,
    /// Device-reported stride of render-target-view records.
    pub rtv_descriptor_size: u32,
    /// Shader-visible heap holding the one constant-buffer view.
    pub cbv_descriptor_heap: DescriptorHeap,
    /// The single reusable recording object.
    pub command_list: CommandList,
    /// The submission queue and its fence: the one channel by which the
    /// CPU learns GPU progress.
    pub command_queue: FenceQueue,
    /// The ring of presentable images and the backend's report of which
    /// is current.
    pub swap_chain: PresentationSurface,
    /// Where the input assembler reads the uploaded vertices.
    pub vertex_buffer_view: VertexBufferView,
    /// The persistently mapped per-frame transform region.
    pub constant_buffer: ConstantBufferRegion,
}

impl Renderer {
    /// Shape that holds in every phase: index in range, one entry of each
    /// per-slot vector per slot, well-formed components.
    pub open spec fn wf_structure(&self) -> bool {
        &&& 1 <= self.frame_count <= G_MAX_FRAME_COUNT
        &&& self.frame_index < self.frame_count
        &&& self.fence_values@.len() == self.frame_count
        &&& self.slot_states@.len() == self.frame_count
        &&& self.render_target_states@.len() == self.frame_count
        &&& self.swap_chain.wf()
        &&& self.swap_chain.image_count == self.frame_count
        &&& self.command_queue.wf()
        &&& self.rtv_descriptor_heap.wf()
        &&& self.cbv_descriptor_heap.wf()
        &&& self.constant_buffer.wf()
    }

    /// The heaps as the pipeline created them: one render-target view per
    /// image at the device-reported stride, and one shader-visible
    /// constant-buffer view.
    pub open spec fn wf_heaps(&self) -> bool {
        &&& self.rtv_descriptor_heap.kind is RenderTargetView
        &&& self.rtv_descriptor_heap.capacity == self.frame_count
        &&& !self.rtv_descriptor_heap.shader_visible
        &&& self.rtv_descriptor_size == self.rtv_descriptor_heap.increment_size
        &&& self.cbv_descriptor_heap.kind is CbvSrvUav
        &&& self.cbv_descriptor_heap.capacity == 1
        &&& self.cbv_descriptor_heap.shader_visible
    }

    /// Every presentable image rests in the "present" state between
    /// frames; each recording returns it there.
    pub open spec fn wf_images(&self) -> bool {
        forall|i: int|
            0 <= i < self.render_target_states@.len() ==> self.render_target_states@[i]
                is Present
    }

    /// Nothing signalled yet: all targets zero, the fence at zero, the
    /// queue idle, every slot reusable.
    pub open spec fn wf_fresh(&self) -> bool {
        &&& forall|i: int| 0 <= i < self.fence_values@.len() ==> self.fence_values@[i] == 0
        &&& self.command_queue.completed_spec() == 0
        &&& self.command_queue.pending_spec().len() == 0
        &&& forall|i: int| 0 <= i < self.slot_states@.len() ==> self.slot_states@[i] is Ready
    }

    /// The fence protocol invariant. The current slot's target is the
    /// next value the queue will signal — exactly one above the highest
    /// signalled so far — and every other slot's target is already
    /// signalled, so a wait on it is guaranteed to be satisfiable.
    pub open spec fn wf_synced(&self) -> bool {
        &&& self.fence_values@[self.frame_index as int] == self.command_queue.max_signaled() + 1
        &&& forall|i: int|
            0 <= i < self.fence_values@.len() && i != self.frame_index
                ==> self.fence_values@[i] <= self.command_queue.max_signaled()
        &&& forall|i: int|
            0 <= i < self.fence_values@.len() && i != self.frame_index
                ==> (self.command_queue.completed_spec() >= self.fence_values@[i]
                    || self.command_queue.pending_spec().contains(self.fence_values@[i]))
    }

    /// The whole-renderer invariant, by phase.
    pub open spec fn wf(&self) -> bool {
        &&& self.wf_structure()
        &&& self.wf_images()
        &&& self.phase is Created ==> self.wf_fresh()
        &&& self.phase is PipelineLoaded ==> self.wf_fresh() && self.wf_heaps()
        &&& self.phase is Ready ==> self.wf_synced() && self.wf_heaps()
    }

    /// A renderer before any backend object exists: two frames in
    /// flight, fixed viewport and scissor, everything else at rest.
    pub fn new() -> (r: Renderer)
        ensures
            r.wf(),
            r.phase is Created,
            r.frame_count == 2,
            r.frame_index == 0,
            r.viewport == (Viewport { width: G_WIDTH, height: G_HEIGHT }),
            r.scissor_rect == (ScissorRect {
                left: 0,
                top: 0,
                right: G_WIDTH as i32,
                bottom: G_HEIGHT as i32,
            }),
    {
        let frame_count: usize = 2;
        let mut fence_values: Vec<u64> = Vec::new();
        let mut slot_states: Vec<SlotState> = Vec::new();
        let mut render_target_states: Vec<ResourceState> = Vec::new();
        let mut i: usize = 0;
        while i < frame_count
            invariant
                i <= frame_count,
                frame_count == 2,
                fence_values@.len() == i,
                slot_states@.len() == i,
                render_target_states@.len() == i,
                forall|j: int| 0 <= j < i ==> fence_values@[j] == 0,
                forall|j: int| 0 <= j < i ==> slot_states@[j] is Ready,
                forall|j: int| 0 <= j < i ==> render_target_states@[j] is Present,
            decreases frame_count - i,
        {
            fence_values.push(0u64);
            slot_states.push(SlotState::Ready);
            render_target_states.push(ResourceState::Present);
            i = i + 1;
        }
        let mut command_list = CommandList::create();
        command_list.close();
        Renderer {
            phase: Phase::Created,
            viewport: Viewport { width: G_WIDTH, height: G_HEIGHT },
            scissor_rect: ScissorRect {
                left: 0,
                top: 0,
                right: G_WIDTH as i32,
                bottom: G_HEIGHT as i32,
            },
            frame_count,
            frame_index: 0,
            fence_values,
            slot_states,
            render_target_states,
            rtv_descriptor_heap: DescriptorHeap::placeholder(),
            rtv_descriptor_size: 0,
            cbv_descriptor_heap: DescriptorHeap::placeholder(),
            command_list,
            command_queue: FenceQueue::new(0),
            swap_chain: PresentationSurface::create(2, 0),
            vertex_buffer_view: VertexBufferView { size_in_bytes: 0, stride_in_bytes: 0 },
            constant_buffer: ConstantBufferRegion::new(),
        }
    }

    /// Records the pipeline objects the backend created: the surface with
    /// one image per frame slot, and the two descriptor heaps at the
    /// base handles and device-reported strides in `config`. Adopts the
    /// image the surface reports as current. Backend creation failure is
    /// fatal at the call site and never reaches this method.
    pub fn load_pipeline(&mut self, config: &PipelineConfig)
        requires
            old(self).wf(),
            old(self).phase is Created,
            config.initial_image_index < old(self).frame_count,
            config.rtv_heap_base_cpu_ptr + old(self).frame_count * config.rtv_increment_size
                <= usize::MAX,
            config.cbv_heap_base_cpu_ptr + config.cbv_increment_size <= usize::MAX,
            config.cbv_heap_base_gpu_ptr + config.cbv_increment_size <= u64::MAX,
        ensures
            final(self).wf(),
            final(self).phase is PipelineLoaded,
            final(self).frame_index == config.initial_image_index,
            final(self).swap_chain == (PresentationSurface {
                image_count: old(self).frame_count,
                current_image: config.initial_image_index,
            }),
            final(self).rtv_descriptor_heap == (DescriptorHeap {
                kind: HeapKind::RenderTargetView,
                capacity: old(self).frame_count as u32,
                shader_visible: false,
                base_cpu_ptr: config.rtv_heap_base_cpu_ptr,
                base_gpu_ptr: 0,
                increment_size: config.rtv_increment_size,
            }),
            final(self).cbv_descriptor_heap == (DescriptorHeap {
                kind: HeapKind::CbvSrvUav,
                capacity: 1,
                shader_visible: true,
                base_cpu_ptr: config.cbv_heap_base_cpu_ptr,
                base_gpu_ptr: config.cbv_heap_base_gpu_ptr,
                increment_size: config.cbv_increment_size,
            }),
            final(self).rtv_descriptor_size == config.rtv_increment_size,
            final(self).frame_count == old(self).frame_count,
            final(self).fence_values@ == old(self).fence_values@,
            final(self).slot_states@ == old(self).slot_states@,
            final(self).command_queue == old(self).command_queue,
            final(self).viewport == old(self).viewport,
            final(self).scissor_rect == old(self).scissor_rect,
            *final(self) == (Renderer {
                phase: Phase::PipelineLoaded,
                frame_index: config.initial_image_index,
                rtv_descriptor_heap: final(self).rtv_descriptor_heap,
                rtv_descriptor_size: config.rtv_increment_size,
                cbv_descriptor_heap: final(self).cbv_descriptor_heap,
                swap_chain: final(self).swap_chain,
                ..*old(self)
            }),
    {
        proof {
            assert(self.frame_count * config.rtv_increment_size <= 3 * 0xFFFFFFFF)
                by (nonlinear_arith)
                requires
                    self.frame_count <= 3,
                    config.rtv_increment_size <= 0xFFFFFFFF,
            ;
        }
        self.swap_chain = PresentationSurface::create(
            self.frame_count,
            config.initial_image_index,
        );
        self.frame_index = config.initial_image_index;
        self.rtv_descriptor_size = config.rtv_increment_size;
        self.rtv_descriptor_heap = DescriptorHeap::create_heap(
            HeapKind::RenderTargetView,
            self.frame_count as u32,
            false,
            config.rtv_heap_base_cpu_ptr,
            0,
            config.rtv_increment_size,
        );
        self.cbv_descriptor_heap = DescriptorHeap::create_heap(
            HeapKind::CbvSrvUav,
            1,
            true,
            config.cbv_heap_base_cpu_ptr,
            config.cbv_heap_base_gpu_ptr,
            config.cbv_increment_size,
        );
        self.phase = Phase::PipelineLoaded;
    }

    /// Blocks until every batch submitted so far has retired: signals the
    /// current slot's target on the queue, waits for the fence to reach
    /// it, then bumps the slot's target so the next wait on this slot has
    /// a fresh, strictly larger value. On return the queue is drained.
    pub fn wait_for_gpu(&mut self)
        requires
            old(self).wf(),
            old(self).phase is Ready,
            old(self).fence_values@[old(self).frame_index as int] < u64::MAX,
        ensures
            final(self).wf(),
            final(self).phase is Ready,
            final(self).frame_index == old(self).frame_index,
            final(self).command_queue.completed_spec() == old(self).fence_values@[old(
                self,
            ).frame_index as int],
            final(self).command_queue.pending_spec().len() == 0,
            final(self).fence_values@ == old(self).fence_values@.update(
                old(self).frame_index as int,
                (old(self).fence_values@[old(self).frame_index as int] + 1) as u64,
            ),
            final(self).slot_states@ == old(self).slot_states@,
            final(self).render_target_states@ == old(self).render_target_states@,
            final(self).command_list == old(self).command_list,
            final(self).swap_chain == old(self).swap_chain,
            final(self).constant_buffer == old(self).constant_buffer,
            final(self).vertex_buffer_view == old(self).vertex_buffer_view,
            final(self).frame_count == old(self).frame_count,
            final(self).phase == old(self).phase,
            final(self).viewport == old(self).viewport,
            final(self).scissor_rect == old(self).scissor_rect,
            final(self).rtv_descriptor_heap == old(self).rtv_descriptor_heap,
            final(self).rtv_descriptor_size == old(self).rtv_descriptor_size,
            final(self).cbv_descriptor_heap == old(self).cbv_descriptor_heap,
    {
        let current_fence_index: usize = self.frame_index;
        let current_fence_value: u64 = self.fence_values[current_fence_index];
        // Schedule a signal: the fence reads this value once all work
        // submitted before this point has retired.
        self.command_queue.signal(current_fence_value);
        // Block until the fence has been processed. Any failure of the
        // backend wait would be fatal at the call site; the model's wait
        // always succeeds.
        let _waited: bool = self.command_queue.wait_if_needed(current_fence_value);
        // Increment the fence target for the current frame.
        self.fence_values[current_fence_index] = current_fence_value + 1;
    }

    /// Records the uploaded assets: the vertex-buffer span of the twelve
    /// tetrahedron vertices, the initial unit-scale transform in the
    /// mapped constant buffer, and the synchronization objects; then
    /// waits until the uploads are confirmed visible to the GPU before
    /// the first draw.
    pub fn load_assets(&mut self)
        requires
            old(self).wf(),
            old(self).phase is PipelineLoaded,
        ensures
            final(self).wf(),
            final(self).phase is Ready,
            final(self).frame_index == old(self).frame_index,
            final(self).vertex_buffer_view == (VertexBufferView {
                size_in_bytes: (G_TETRAHEDRON_VERTEX_COUNT * G_VERTEX_STRIDE_BYTES) as u32,
                stride_in_bytes: G_VERTEX_STRIDE_BYTES,
            }),
            encodes_matrix(final(self).constant_buffer.bytes_spec(), identity_matrix_words()),
            final(self).command_queue.completed_spec() == 1,
            final(self).command_queue.pending_spec().len() == 0,
            final(self).fence_values@ == old(self).fence_values@.update(
                old(self).frame_index as int,
                2u64,
            ),
            final(self).slot_states@ == old(self).slot_states@,
            final(self).frame_count == old(self).frame_count,
            !final(self).command_list.recording,
            final(self).command_list.commands@ == Seq::<GraphicsCommand>::empty(),
            final(self).swap_chain == old(self).swap_chain,
            final(self).rtv_descriptor_heap == old(self).rtv_descriptor_heap,
            final(self).rtv_descriptor_size == old(self).rtv_descriptor_size,
            final(self).cbv_descriptor_heap == old(self).cbv_descriptor_heap,
            final(self).viewport == old(self).viewport,
            final(self).scissor_rect == old(self).scissor_rect,
            final(self).render_target_states@ == old(self).render_target_states@,
    {
        // Vertex buffer view over the uploaded tetrahedron payload.
        self.vertex_buffer_view = VertexBufferView {
            size_in_bytes: G_TETRAHEDRON_VERTEX_COUNT * G_VERTEX_STRIDE_BYTES,
            stride_in_bytes: G_VERTEX_STRIDE_BYTES,
        };
        // The recording object exists from here on; it is created in the
        // recording state with nothing to record, so it is closed at once
        // — the frame loop expects to find it closed.
        let mut command_list = CommandList::create();
        command_list.close();
        self.command_list = command_list;
        // Initialize the mapped constant buffer with the unit transform.
        let words = make_identity_matrix_words();
        self.constant_buffer.write_matrix(&words);
        // The fence was created at the current slot's value; bump the
        // slot's target so the coming signal is strictly above it.
        let current_fence_index: usize = self.frame_index;
        let current_fence_value: u64 = self.fence_values[current_fence_index];
        self.fence_values[current_fence_index] = current_fence_value + 1;
        self.phase = Phase::Ready;
        // Wait for the upload work to execute before the first frame.
        self.wait_for_gpu();
    }

    /// Writes this frame's transform into the mapped constant-buffer
    /// region, byte for byte, leaving the padding untouched. The fence
    /// protocol guarantees the GPU has finished reading the previous
    /// contents before the frame loop calls this.
    pub fn update(&mut self, matrix_words: &Vec<u32>)
        requires
            old(self).wf(),
            old(self).phase is Ready,
            matrix_words@.len() == MATRIX_WORD_COUNT,
        ensures
            final(self).wf(),
            encodes_matrix(final(self).constant_buffer.bytes_spec(), matrix_words@),
            *final(self) == (Renderer {
                constant_buffer: final(self).constant_buffer,
                ..*old(self)
            }),
    {
        self.constant_buffer.write_matrix(matrix_words);
    }

    /// Records a transition barrier. The declared `state_before` must be
    /// the state the image was actually last set to — declaring anything
    /// else is undefined behavior at the backend level, so the contract
    /// forbids it — and from here on the image is tracked in
    /// `state_after`.
    pub fn record_transition(
        &mut self,
        resource: usize,
        state_before: ResourceState,
        state_after: ResourceState,
    )
        requires
            old(self).command_list.recording,
            resource < old(self).render_target_states@.len(),
            old(self).render_target_states@[resource as int] == state_before,
        ensures
            final(self).command_list.recording,
            final(self).command_list.commands@ == old(self).command_list.commands@.push(
                GraphicsCommand::Transition { resource, state_before, state_after },
            ),
            final(self).render_target_states@ == old(self).render_target_states@.update(
                resource as int,
                state_after,
            ),
            *final(self) == (Renderer {
                command_list: final(self).command_list,
                render_target_states: final(self).render_target_states,
                ..*old(self)
            }),
    {
        self.command_list.record(
            GraphicsCommand::Transition { resource, state_before, state_after },
        );
        self.render_target_states[resource] = state_after;
    }

    /// Resets the current slot's allocator and the recording object and
    /// rebuilds the frame's command sequence against them, closing it
    /// for submission. Only legal while the slot has no work in flight —
    /// the backend rejects a reset whose prior commands are still
    /// executing. The recorded sequence is exactly
    /// `spec_frame_commands` for the current image: state binding, the
    /// barrier to "render target", clear and draw, and the barrier back
    /// to "present".
    pub fn populate_command_list(&mut self)
        requires
            old(self).wf(),
            old(self).phase is Ready,
            old(self).slot_states@[old(self).frame_index as int] is Ready || old(
                self,
            ).slot_states@[old(self).frame_index as int] is Recording,
            !old(self).command_list.recording,
        ensures
            final(self).wf(),
            !final(self).command_list.recording,
            final(self).command_list.commands@ == spec_frame_commands(
                old(self).frame_index,
                (old(self).rtv_descriptor_heap.base_cpu_ptr + old(self).frame_index * old(
                    self,
                ).rtv_descriptor_heap.increment_size) as usize,
                old(self).cbv_descriptor_heap.base_gpu_ptr,
                old(self).viewport,
                old(self).scissor_rect,
                old(self).vertex_buffer_view,
            ),
            final(self).slot_states@ == old(self).slot_states@.update(
                old(self).frame_index as int,
                SlotState::Recording,
            ),
            final(self).render_target_states@ == old(self).render_target_states@,
            *final(self) == (Renderer {
                command_list: final(self).command_list,
                slot_states: final(self).slot_states,
                render_target_states: final(self).render_target_states,
                ..*old(self)
            }),
    {
        let image_index: usize = self.frame_index;
        // Reset the slot's allocator and reopen the recording object on
        // it; the requires guarantee the slot's prior work has retired.
        self.slot_states[image_index] = SlotState::Recording;
        self.command_list.reset();
        // Bind pipeline state, root signature and the descriptor table.
        self.command_list.record(GraphicsCommand::SetRootSignature);
        self.command_list.record(GraphicsCommand::SetDescriptorHeaps);
        let cbv_handle = self.cbv_descriptor_heap.view_handle(0);
        let cbv_gpu = cbv_handle.gpu.unwrap();
        self.command_list.record(
            GraphicsCommand::SetRootDescriptorTable { slot: 0, base_gpu_ptr: cbv_gpu.ptr },
        );
        self.command_list.record(GraphicsCommand::SetViewports { viewport: self.viewport });
        self.command_list.record(GraphicsCommand::SetScissorRects { rect: self.scissor_rect });
        // The image leaves "present" exactly here and must return.
        self.record_transition(
            image_index,
            ResourceState::Present,
            ResourceState::RenderTarget,
        );
        // The render-target view of this image: the heap base offset by
        // the image index at the device-reported stride.
        let rtv_handle = self.rtv_descriptor_heap.view_handle(image_index as u32);
        self.command_list.record(
            GraphicsCommand::SetRenderTargets { rtv_cpu_ptr: rtv_handle.cpu.ptr },
        );
        self.command_list.record(
            GraphicsCommand::ClearRenderTargetView { rtv_cpu_ptr: rtv_handle.cpu.ptr },
        );
        self.command_list.record(GraphicsCommand::SetPrimitiveTopology);
        self.command_list.record(
            GraphicsCommand::SetVertexBuffers { view: self.vertex_buffer_view },
        );
        self.command_list.record(
            GraphicsCommand::DrawInstanced {
                vertex_count: G_TETRAHEDRON_VERTEX_COUNT,
                instance_count: 1,
                start_vertex: 0,
                start_instance: 0,
            },
        );
        // The mandatory matching barrier: back to "present".
        self.record_transition(
            image_index,
            ResourceState::RenderTarget,
            ResourceState::Present,
        );
        self.command_list.close();
        proof {
            assert(self.command_list.commands@ =~= spec_frame_commands(
                old(self).frame_index,
                (old(self).rtv_descriptor_heap.base_cpu_ptr + old(self).frame_index * old(
                    self,
                ).rtv_descriptor_heap.increment_size) as usize,
                old(self).cbv_descriptor_heap.base_gpu_ptr,
                old(self).viewport,
                old(self).scissor_rect,
                old(self).vertex_buffer_view,
            ));
            assert(self.render_target_states@ =~= old(self).render_target_states@);
            assert(self.slot_states@ =~= old(self).slot_states@.update(
                old(self).frame_index as int,
                SlotState::Recording,
            ));
        }
    }

    /// Prepares the next frame. Signals the just-submitted work's target
    /// on the queue, adopts the image the surface now reports as
    /// current, blocks — only if needed — until that slot's previous
    /// work is confirmed complete, and gives the slot a fresh target one
    /// above the value just signalled, so each slot's target is strictly
    /// increasing across its reuses.
    pub fn move_to_next_frame(&mut self)
        requires
            old(self).wf(),
            old(self).phase is Ready,
            old(self).fence_values@[old(self).frame_index as int] < u64::MAX,
        ensures
            final(self).wf(),
            final(self).frame_index == old(self).swap_chain.current_image,
            final(self).command_queue.completed_spec() >= old(self).fence_values@[old(
                self,
            ).swap_chain.current_image as int],
            final(self).fence_values@[old(self).swap_chain.current_image as int] > old(
                self,
            ).fence_values@[old(self).swap_chain.current_image as int],
            forall|i: int|
                0 <= i < old(self).fence_values@.len() ==> final(self).fence_values@[old(
                    self,
                ).swap_chain.current_image as int] > old(self).fence_values@[i],
            final(self).fence_values@ == old(self).fence_values@.update(
                old(self).swap_chain.current_image as int,
                (old(self).fence_values@[old(self).frame_index as int] + 1) as u64,
            ),
            final(self).fence_values@ == sync_step(
                old(self).fence_values@,
                old(self).frame_index as int,
                old(self).swap_chain.current_image as int,
            ),
            final(self).slot_states@ == old(self).slot_states@.update(
                old(self).swap_chain.current_image as int,
                SlotState::Ready,
            ),
            final(self).command_queue.completed_spec() == (if old(
                self,
            ).command_queue.completed_spec() >= old(self).fence_values@[old(
                self,
            ).swap_chain.current_image as int] {
                old(self).command_queue.completed_spec()
            } else {
                old(self).fence_values@[old(self).swap_chain.current_image as int]
            }),
            old(self).command_queue.completed_spec() >= old(self).fence_values@[old(
                self,
            ).swap_chain.current_image as int] ==> final(self).command_queue.pending_spec() == old(
                self,
            ).command_queue.pending_spec().push(
                old(self).fence_values@[old(self).frame_index as int],
            ),
            *final(self) == (Renderer {
                frame_index: final(self).frame_index,
                fence_values: final(self).fence_values,
                slot_states: final(self).slot_states,
                command_queue: final(self).command_queue,
                ..*old(self)
            }),
    {
        // The fence value for this frame was set at the end of the
        // previous call; schedule a signal for it on the queue.
        let current_fence_index: usize = self.frame_index;
        let current_fence_value: u64 = self.fence_values[current_fence_index];
        self.command_queue.signal(current_fence_value);
        proof {
            // Everything the invariant knew to be signalled is still
            // outstanding or retired after one more signal is enqueued.
            let appended = self.command_queue.pending_spec();
            assert(appended[appended.len() - 1] == current_fence_value);
            assert(appended.contains(current_fence_value));
            assert forall|i: int|
                0 <= i < self.fence_values@.len() && i != old(self).frame_index implies (
            self.command_queue.completed_spec() >= self.fence_values@[i]
                || self.command_queue.pending_spec().contains(self.fence_values@[i])) by {
                if !(self.command_queue.completed_spec() >= self.fence_values@[i]) {
                    let j = choose|j: int|
                        0 <= j < old(self).command_queue.pending_spec().len() && old(
                            self,
                        ).command_queue.pending_spec()[j] == self.fence_values@[i];
                    assert(appended[j] == self.fence_values@[i]);
                }
            }
        }
        // Adopt the image the backend reports as current — queried, not
        // computed, because the report need not be round-robin.
        self.frame_index = self.swap_chain.current_image_index();
        let next_fence_index: usize = self.frame_index;
        let next_fence_value: u64 = self.fence_values[next_fence_index];
        let ghost signaled = self.command_queue;
        // If the next frame's slot is not ready to be reused yet, wait
        // until it is; the wait never returns early.
        let _waited: bool = self.command_queue.wait_if_needed(next_fence_value);
        proof {
            // The wait retires in order, so every signalled target is
            // still either retired or outstanding.
            assert forall|i: int|
                0 <= i < self.fence_values@.len() && i != next_fence_index implies (
            self.command_queue.completed_spec() >= self.fence_values@[i]
                || self.command_queue.pending_spec().contains(self.fence_values@[i])) by {
                if !(signaled.completed_spec() >= self.fence_values@[i]) {
                    assert(signaled.pending_spec().contains(self.fence_values@[i]));
                }
            }
            // The wait stops exactly at the target: the target was
            // signalled, and retirement lands on each signalled value in
            // turn.
            if signaled.completed_spec() < next_fence_value {
                assert(signaled.pending_spec().contains(next_fence_value));
                assert(self.command_queue.completed_spec() == next_fence_value);
            }
        }
        // The slot's previous work is confirmed complete: it may record
        // again, under a fresh, strictly larger target.
        self.slot_states[next_fence_index] = SlotState::Ready;
        self.fence_values[next_fence_index] = current_fence_value + 1;
    }

    /// Draws and presents one frame: records the frame's command
    /// sequence, submits it to the queue, presents — the backend reports
    /// which image is current next — and moves to that frame. Returns
    /// zero, the status the frame loop expects.
    pub fn render(&mut self, reported_next_image: usize) -> (r: i32)
        requires
            old(self).wf(),
            old(self).phase is Ready,
            old(self).slot_states@[old(self).frame_index as int] is Ready || old(
                self,
            ).slot_states@[old(self).frame_index as int] is Recording,
            !old(self).command_list.recording,
            reported_next_image < old(self).frame_count,
            old(self).fence_values@[old(self).frame_index as int] < u64::MAX,
        ensures
            final(self).wf(),
            r == 0,
            !final(self).command_list.recording,
            final(self).command_list.commands@ == spec_frame_commands(
                old(self).frame_index,
                (old(self).rtv_descriptor_heap.base_cpu_ptr + old(self).frame_index * old(
                    self,
                ).rtv_descriptor_heap.increment_size) as usize,
                old(self).cbv_descriptor_heap.base_gpu_ptr,
                old(self).viewport,
                old(self).scissor_rect,
                old(self).vertex_buffer_view,
            ),
            final(self).frame_index == reported_next_image,
            final(self).command_queue.completed_spec() >= old(self).fence_values@[
                reported_next_image as int
            ],
            final(self).fence_values@[reported_next_image as int] > old(self).fence_values@[
                reported_next_image as int
            ],
            final(self).fence_values@ == old(self).fence_values@.update(
                reported_next_image as int,
                (old(self).fence_values@[old(self).frame_index as int] + 1) as u64,
            ),
            final(self).slot_states@[reported_next_image as int] is Ready,
            old(self).frame_index != reported_next_image ==> final(self).slot_states@[old(
                self,
            ).frame_index as int] is Submitted,
            final(self).swap_chain.current_image == reported_next_image,
            final(self).render_target_states@ == old(self).render_target_states@,
            final(self).phase is Ready,
            final(self).command_queue.completed_spec() == (if old(
                self,
            ).command_queue.completed_spec() >= old(self).fence_values@[
                reported_next_image as int
            ] {
                old(self).command_queue.completed_spec()
            } else {
                old(self).fence_values@[reported_next_image as int]
            }),
            old(self).command_queue.completed_spec() >= old(self).fence_values@[
                reported_next_image as int
            ] ==> final(self).command_queue.pending_spec() == old(
                self,
            ).command_queue.pending_spec().push(
                old(self).fence_values@[old(self).frame_index as int],
            ),
    {
        self.populate_command_list();
        // Submit the closed sequence to the queue; the GPU consumes it
        // asynchronously, in submission order.
        let submitted_index: usize = self.frame_index;
        self.slot_states[submitted_index] = SlotState::Submitted;
        // Present the frame; the backend reports the image that is
        // current next.
        self.swap_chain.present(reported_next_image);
        self.move_to_next_frame();
        0
    }

    /// Final drain before teardown: waits until the GPU no longer
    /// references any resource, so releasing them afterwards is safe.
    pub fn destroy(&mut self)
        requires
            old(self).wf(),
            old(self).phase is Ready,
            old(self).fence_values@[old(self).frame_index as int] < u64::MAX,
        ensures
            final(self).wf(),
            final(self).command_queue.pending_spec().len() == 0,
            final(self).command_queue.completed_spec() == old(self).fence_values@[old(
                self,
            ).frame_index as int],
    {
        self.wait_for_gpu();
    }
}


/// One synchronizer step, as `move_to_next_frame` performs it on the
/// per-slot targets: the slot the backend reported as current next gets
/// the target one above the value just signalled for the outgoing slot.
pub open spec fn sync_step(targets: Seq<u64>, current: int, next: int) -> Seq<u64> {
    targets.update(next, (targets[current] + 1) as u64)
}

/// The synchronizer's invariant over the per-slot targets: the current
/// slot's target is one above the highest value signalled so far, and
/// every other slot's target is at or below that maximum.
pub open spec fn sync_inv(targets: Seq<u64>, current: int, max_signaled: u64) -> bool {
    &&& 0 <= current < targets.len()
    &&& targets[current] == max_signaled + 1
    &&& forall|i: int| 0 <= i < targets.len() && i != current ==> targets[i] <= max_signaled
}

/// The slot that is current once the steps in `picks` have run.
pub open spec fn current_after(current: int, picks: Seq<int>) -> int {
    if picks.len() == 0 {
        current
    } else {
        picks.last()
    }
}

/// The per-slot targets once the steps in `picks` have run, in order.
pub open spec fn targets_after(targets: Seq<u64>, current: int, picks: Seq<int>) -> Seq<u64>
    decreases picks.len(),
{
    if picks.len() == 0 {
        targets
    } else {
        sync_step(
            targets_after(targets, current, picks.drop_last()),
            current_after(current, picks.drop_last()),
            picks.last(),
        )
    }
}

/// One step keeps the invariant, with the signalled maximum one higher,
/// and strictly raises the reused slot's target.
proof fn lemma_sync_step_preserves_inv(
    targets: Seq<u64>,
    current: int,
    max_signaled: u64,
    next: int,
)
    requires
        sync_inv(targets, current, max_signaled),
        0 <= next < targets.len(),
        max_signaled + 2 <= u64::MAX,
    ensures
        sync_inv(sync_step(targets, current, next), next, (max_signaled + 1) as u64),
        sync_step(targets, current, next)[next] > targets[next],
        sync_step(targets, current, next).len() == targets.len(),
{
}

/// Running any run of steps keeps the invariant, raising the signalled
/// maximum once per step.
proof fn lemma_sync_run_preserves_inv(
    targets: Seq<u64>,
    current: int,
    max_signaled: u64,
    picks: Seq<int>,
)
    requires
        sync_inv(targets, current, max_signaled),
        forall|j: int| 0 <= j < picks.len() ==> 0 <= #[trigger] picks[j] < targets.len(),
        max_signaled + picks.len() + 1 <= u64::MAX,
    ensures
        sync_inv(
            targets_after(targets, current, picks),
            current_after(current, picks),
            (max_signaled + picks.len()) as u64,
        ),
        targets_after(targets, current, picks).len() == targets.len(),
    decreases picks.len(),
{
    if picks.len() > 0 {
        let shorter = picks.drop_last();
        assert(forall|j: int| 0 <= j < shorter.len() ==> 0 <= #[trigger] shorter[j] < targets.len());
        lemma_sync_run_preserves_inv(targets, current, max_signaled, shorter);
        lemma_sync_step_preserves_inv(
            targets_after(targets, current, shorter),
            current_after(current, shorter),
            (max_signaled + shorter.len()) as u64,
            picks.last(),
        );
    }
}

/// Across any sequence of frames — any choice of reported next images —
/// each slot's target is strictly increasing across successive reuses of
/// that slot: the step that reuses a slot leaves its target strictly
/// above the value it had before, so no wait on a reused slot is ever
/// ambiguous. `move_to_next_frame` performs exactly `sync_step`, and
/// `load_assets` establishes `sync_inv`.
pub proof fn lemma_slot_targets_strictly_increase(
    targets: Seq<u64>,
    current: int,
    max_signaled: u64,
    picks: Seq<int>,
    k: int,
)
    requires
        sync_inv(targets, current, max_signaled),
        forall|j: int| 0 <= j < picks.len() ==> 0 <= #[trigger] picks[j] < targets.len(),
        max_signaled + picks.len() + 1 <= u64::MAX,
        0 <= k < picks.len(),
    ensures
        targets_after(targets, current, picks.take(k + 1))[picks[k]] > targets_after(
            targets,
            current,
            picks.take(k),
        )[picks[k]],
{
    let prefix = picks.take(k);
    let extended = picks.take(k + 1);
    assert(extended.drop_last() =~= prefix);
    assert(extended.last() == picks[k]);
    assert(forall|j: int| 0 <= j < prefix.len() ==> 0 <= #[trigger] prefix[j] < targets.len());
    lemma_sync_run_preserves_inv(targets, current, max_signaled, prefix);
    lemma_sync_step_preserves_inv(
        targets_after(targets, current, prefix),
        current_after(current, prefix),
        (max_signaled + k) as u64,
        picks[k],
    );
}

} // verus!
