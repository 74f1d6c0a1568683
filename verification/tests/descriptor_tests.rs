use frame_pipeline::dx_descriptor_handles::{
    CD3D12_CPU_DESCRIPTOR_HANDLE, CD3D12_GPU_DESCRIPTOR_HANDLE,
};
use frame_pipeline::descriptors::{DescriptorHeap, HeapKind};

#[test]
fn cpu_handle_new_is_zero() {
    let h = CD3D12_CPU_DESCRIPTOR_HANDLE::new();
    assert_eq!(h.ptr, 0);
}

#[test]
fn cpu_handle_from_keeps_address() {
    let h = CD3D12_CPU_DESCRIPTOR_HANDLE::from(4096);
    assert_eq!(h.ptr, 4096);
}

#[test]
fn cpu_handle_offset_forward() {
    let base = CD3D12_CPU_DESCRIPTOR_HANDLE::from(1000);
    let h = CD3D12_CPU_DESCRIPTOR_HANDLE::from_offset(&base, 3, 32);
    assert_eq!(h.ptr, 1096);
}

#[test]
fn cpu_handle_offset_backward() {
    let base = CD3D12_CPU_DESCRIPTOR_HANDLE::from(1096);
    let h = CD3D12_CPU_DESCRIPTOR_HANDLE::from_offset(&base, -2, 32);
    assert_eq!(h.ptr, 1032);
}

#[test]
fn cpu_handle_offset_in_place() {
    let mut h = CD3D12_CPU_DESCRIPTOR_HANDLE::from(500);
    h.offset(1, 128);
    assert_eq!(h.ptr, 628);
    h.offset(1, 128);
    assert_eq!(h.ptr, 756);
}

#[test]
fn gpu_handle_new_is_zero() {
    let h = CD3D12_GPU_DESCRIPTOR_HANDLE::new();
    assert_eq!(h.ptr, 0);
}

#[test]
fn gpu_handle_offset_forward() {
    let base = CD3D12_GPU_DESCRIPTOR_HANDLE::from(70000);
    let h = CD3D12_GPU_DESCRIPTOR_HANDLE::from_offset(&base, 5, 64);
    assert_eq!(h.ptr, 70320);
}

#[test]
fn gpu_handle_offset_backward() {
    let base = CD3D12_GPU_DESCRIPTOR_HANDLE::from(70320);
    let mut h = CD3D12_GPU_DESCRIPTOR_HANDLE::from(0);
    h = CD3D12_GPU_DESCRIPTOR_HANDLE::from_offset(&base, -5, 64);
    assert_eq!(h.ptr, 70000);
}

#[test]
fn view_handle_obeys_offset_law() {
    // cpu_ptr == base_cpu_ptr + index * increment_size, for every index
    // below the capacity.
    let heap = DescriptorHeap::create_heap(HeapKind::RenderTargetView, 3, false, 4096, 0, 128);
    assert_eq!(heap.view_handle(0).cpu.ptr, 4096);
    assert_eq!(heap.view_handle(1).cpu.ptr, 4096 + 128);
    assert_eq!(heap.view_handle(2).cpu.ptr, 4096 + 2 * 128);
}

#[test]
fn view_handle_gpu_side_only_when_shader_visible() {
    let plain = DescriptorHeap::create_heap(HeapKind::RenderTargetView, 2, false, 4096, 0, 32);
    assert!(plain.view_handle(1).gpu.is_none());

    let visible = DescriptorHeap::create_heap(HeapKind::CbvSrvUav, 2, true, 8192, 1 << 20, 32);
    let gpu = visible.view_handle(1).gpu.expect("shader-visible heap must expose a GPU handle");
    assert_eq!(gpu.ptr, (1u64 << 20) + 32);
}
