use frame_pipeline::dx_renderer::{PipelineConfig, Renderer, SlotState, UNIT_SCALE_BITS};
use frame_pipeline::recorder::{
    GraphicsCommand, ResourceState, ScissorRect, VertexBufferView, Viewport,
};
use frame_pipeline::{G_HEIGHT, G_WIDTH};

fn test_config() -> PipelineConfig {
    PipelineConfig {
        rtv_heap_base_cpu_ptr: 4096,
        rtv_increment_size: 32,
        cbv_heap_base_cpu_ptr: 8192,
        cbv_heap_base_gpu_ptr: 1 << 32,
        cbv_increment_size: 64,
        initial_image_index: 0,
    }
}

fn ready_renderer() -> Renderer {
    let mut r = Renderer::new();
    r.load_pipeline(&test_config());
    r.load_assets();
    r
}

fn expected_frame_commands(image_index: usize) -> Vec<GraphicsCommand> {
    let rtv_cpu_ptr = 4096 + image_index * 32;
    let cbv_gpu_ptr = 1u64 << 32;
    vec![
        GraphicsCommand::SetRootSignature,
        GraphicsCommand::SetDescriptorHeaps,
        GraphicsCommand::SetRootDescriptorTable { slot: 0, base_gpu_ptr: cbv_gpu_ptr },
        GraphicsCommand::SetViewports { viewport: Viewport { width: G_WIDTH, height: G_HEIGHT } },
        GraphicsCommand::SetScissorRects {
            rect: ScissorRect { left: 0, top: 0, right: G_WIDTH as i32, bottom: G_HEIGHT as i32 },
        },
        GraphicsCommand::Transition {
            resource: image_index,
            state_before: ResourceState::Present,
            state_after: ResourceState::RenderTarget,
        },
        GraphicsCommand::SetRenderTargets { rtv_cpu_ptr },
        GraphicsCommand::ClearRenderTargetView { rtv_cpu_ptr },
        GraphicsCommand::SetPrimitiveTopology,
        GraphicsCommand::SetVertexBuffers {
            view: VertexBufferView { size_in_bytes: 336, stride_in_bytes: 28 },
        },
        GraphicsCommand::DrawInstanced {
            vertex_count: 12,
            instance_count: 1,
            start_vertex: 0,
            start_instance: 0,
        },
        GraphicsCommand::Transition {
            resource: image_index,
            state_before: ResourceState::RenderTarget,
            state_after: ResourceState::Present,
        },
    ]
}

#[test]
fn new_renderer_defaults() {
    let r = Renderer::new();
    assert_eq!(r.frame_count, 2);
    assert_eq!(r.frame_index, 0);
    assert_eq!(r.viewport, Viewport { width: 1280, height: 720 });
    assert_eq!(r.scissor_rect, ScissorRect { left: 0, top: 0, right: 1280, bottom: 720 });
    assert_eq!(r.fence_values, vec![0, 0]);
}

#[test]
fn load_pipeline_records_backend_reports() {
    let mut r = Renderer::new();
    let config = PipelineConfig { initial_image_index: 1, ..test_config() };
    r.load_pipeline(&config);
    assert_eq!(r.frame_index, 1);
    assert_eq!(r.swap_chain.image_count, 2);
    assert_eq!(r.swap_chain.current_image, 1);
    assert_eq!(r.rtv_descriptor_heap.base_cpu_ptr, 4096);
    assert_eq!(r.rtv_descriptor_heap.capacity, 2);
    assert_eq!(r.rtv_descriptor_size, 32);
    assert_eq!(r.cbv_descriptor_heap.capacity, 1);
    assert!(r.cbv_descriptor_heap.shader_visible);
}

#[test]
fn load_assets_uploads_and_waits_for_the_gpu() {
    let r = ready_renderer();
    // The initial upload was signalled at one and waited for.
    assert_eq!(r.command_queue.completed_value(), 1);
    assert_eq!(r.command_queue.pending_count(), 0);
    // The current slot's next target is two; the other slot is untouched.
    assert_eq!(r.fence_values, vec![2, 0]);
    // Twelve vertices of twenty-eight bytes each.
    assert_eq!(
        r.vertex_buffer_view,
        VertexBufferView { size_in_bytes: 336, stride_in_bytes: 28 }
    );
}

#[test]
fn load_assets_writes_the_unit_transform() {
    let r = ready_renderer();
    let bytes = r.constant_buffer.read_back();
    assert_eq!(bytes.len(), 256);
    for k in 0..16 {
        let expected: u32 = if k % 5 == 0 { UNIT_SCALE_BITS } else { 0 };
        let got = u32::from_le_bytes([
            bytes[4 * k],
            bytes[4 * k + 1],
            bytes[4 * k + 2],
            bytes[4 * k + 3],
        ]);
        assert_eq!(got, expected);
    }
    assert_eq!(UNIT_SCALE_BITS, 1.0f32.to_bits());
}

#[test]
fn recorded_sequence_is_the_fixed_frame_program() {
    let mut r = ready_renderer();
    r.populate_command_list();
    assert!(!r.command_list.recording);
    assert_eq!(r.command_list.commands, expected_frame_commands(0));
}

#[test]
fn barrier_pair_brackets_the_draw_exactly_once() {
    let mut r = ready_renderer();
    r.populate_command_list();
    let cmds = &r.command_list.commands;
    let mut open_at: Option<usize> = None;
    let mut close_at: Option<usize> = None;
    let mut transitions = 0;
    for (i, c) in cmds.iter().enumerate() {
        if let GraphicsCommand::Transition { resource, state_before, state_after } = c {
            transitions += 1;
            assert_eq!(*resource, 0);
            match (state_before, state_after) {
                (ResourceState::Present, ResourceState::RenderTarget) => {
                    assert!(open_at.is_none());
                    open_at = Some(i);
                }
                (ResourceState::RenderTarget, ResourceState::Present) => {
                    assert!(close_at.is_none());
                    close_at = Some(i);
                }
                _ => panic!("unexpected transition"),
            }
        }
    }
    assert_eq!(transitions, 2);
    let open_at = open_at.expect("missing transition to render target");
    let close_at = close_at.expect("missing transition back to present");
    assert!(open_at < close_at);
}

#[test]
fn second_frame_does_not_block_when_its_slot_is_fresh() {
    // Two frames back to back: the second slot has no work in flight,
    // so moving to it must not wait — the fence is untouched and no
    // outstanding signal is consumed.
    let mut r = ready_renderer();
    let status = r.render(1);
    assert_eq!(status, 0);
    assert_eq!(r.frame_index, 1);
    assert_eq!(r.command_queue.completed_value(), 1);
    assert_eq!(r.command_queue.pending_count(), 1);
    assert_eq!(r.fence_values, vec![2, 3]);
    assert_eq!(r.slot_states[1], SlotState::Ready);
    assert_eq!(r.slot_states[0], SlotState::Submitted);
}

#[test]
fn second_frame_does_not_block_when_gpu_completes_instantly() {
    // Simulated instant completion: everything signalled retires before
    // the next frame, so no later wait ever consumes a signal.
    let mut r = ready_renderer();
    r.render(1);
    r.command_queue.retire_all();
    assert_eq!(r.command_queue.completed_value(), 2);
    r.render(0);
    // The wait for slot zero's target of two was already satisfied: the
    // newly signalled three is still outstanding, untouched.
    assert_eq!(r.command_queue.completed_value(), 2);
    assert_eq!(r.command_queue.pending_count(), 1);
}

#[test]
fn reusing_a_slot_blocks_until_its_work_retires() {
    // Without simulated GPU progress, returning to slot zero must block
    // until the fence reaches that slot's target of two.
    let mut r = ready_renderer();
    r.render(1);
    assert_eq!(r.command_queue.completed_value(), 1);
    r.render(0);
    assert!(r.command_queue.completed_value() >= 2);
    assert_eq!(r.frame_index, 0);
    assert_eq!(r.fence_values, vec![4, 3]);
}

#[test]
fn slot_targets_strictly_increase_across_reuses() {
    let mut r = ready_renderer();
    let mut last_for_slot: [u64; 2] = [r.fence_values[0], r.fence_values[1]];
    for frame in 0..12 {
        let next = (frame + 1) % 2;
        r.render(next);
        let new_target = r.fence_values[next];
        assert!(new_target > last_for_slot[next]);
        last_for_slot[next] = new_target;
    }
}

#[test]
fn update_then_readback_reproduces_exact_bytes() {
    // A known near-identity matrix written through the mapped region
    // must read back byte for byte: the backend applies no
    // transformation of its own.
    let mut r = ready_renderer();
    let matrix: [f32; 16] = [
        1.0, 0.0, 0.0, 0.0,
        0.0, 1.0, 0.0, 0.0,
        0.0, 0.0, 1.0, 0.0,
        0.5, -0.25, 2.0, 1.0,
    ];
    let words: Vec<u32> = matrix.iter().map(|v| v.to_bits()).collect();
    r.update(&words);
    let bytes = r.constant_buffer.read_back();
    let mut expected: Vec<u8> = Vec::new();
    for v in matrix.iter() {
        expected.extend_from_slice(&v.to_le_bytes());
    }
    assert_eq!(&bytes[..64], &expected[..]);
    // The padding past the matrix is untouched: still the zeros the
    // region was mapped with.
    for i in 64..256 {
        assert_eq!(bytes[i], 0);
    }
}

#[test]
fn wait_for_gpu_drains_the_queue() {
    let mut r = ready_renderer();
    r.render(1);
    r.wait_for_gpu();
    assert_eq!(r.command_queue.pending_count(), 0);
    assert_eq!(r.command_queue.completed_value(), 3);
    assert_eq!(r.fence_values, vec![2, 4]);
}

#[test]
fn destroy_performs_a_final_drain() {
    let mut r = ready_renderer();
    r.render(1);
    r.render(0);
    r.destroy();
    assert_eq!(r.command_queue.pending_count(), 0);
}

#[test]
fn presentation_reports_drive_slot_selection() {
    // The frame index follows the backend's report, not a counter: a
    // backend that reports the same image twice keeps the renderer on
    // that slot.
    let mut r = ready_renderer();
    r.render(0);
    assert_eq!(r.frame_index, 0);
    assert_eq!(r.swap_chain.current_image, 0);
    r.render(1);
    assert_eq!(r.frame_index, 1);
}
