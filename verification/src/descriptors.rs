use vstd::prelude::*;
use crate::dx_descriptor_handles::{CD3D12_CPU_DESCRIPTOR_HANDLE, CD3D12_GPU_DESCRIPTOR_HANDLE};

verus! {

/// The kind of view records a descriptor heap holds.
#[derive(Clone, Copy, Debug, PartialEq, Eq, Structural)]
pub enum HeapKind {
    /// Render-target views.
    RenderTargetView,
    /// Shader-visible constant-buffer, shader-resource and unordered views.
    CbvSrvUav,
}

/// One view's handles: where the CPU writes the view record, and, for
/// shader-visible heaps only, where the shader pipeline reads it.
#[derive(Clone, Copy, Debug, PartialEq, Eq)]
pub struct ViewHandle {
    pub cpu: CD3D12_CPU_DESCRIPTOR_HANDLE,
    pub gpu: Option<CD3D12_GPU_DESCRIPTOR_HANDLE>,
}

/// A fixed-capacity contiguous block of view descriptors of one kind.
/// Individual view addresses are `base + index * increment_size`, where
/// `increment_size` is the backend-reported, kind-specific stride queried
/// once at startup — never hardcoded. The heap never grows.
#[derive(Clone, Copy, Debug, PartialEq, Eq)]
pub struct DescriptorHeap {
    pub kind: HeapKind,
    /// How many view records the heap holds; fixed at creation.
    pub capacity: u32,
    /// Whether the shader pipeline can read this heap.
    pub shader_visible: bool,
    /// CPU-side address of the first record, reported by the backend.
    pub base_cpu_ptr: usize,
    /// GPU-side address of the first record; meaningful only when
    /// `shader_visible`.
    pub base_gpu_ptr: u64,
    /// Backend-reported stride between consecutive records, in bytes.
    pub increment_size: u32,
}

impl DescriptorHeap {
    /// Every record of the heap lies inside the address space, and the
    /// capacity is small enough to index with a signed 32-bit offset.
    pub open spec fn wf(&self) -> bool {
        &&& self.base_cpu_ptr + self.capacity * self.increment_size <= usize::MAX
        &&& self.base_gpu_ptr + self.capacity * self.increment_size <= u64::MAX
        &&& self.capacity <= 0x7FFFFFFF
    }

    /// An empty placeholder heap, before the backend has created the real
    /// one: zero capacity, zero bases.
    pub fn placeholder() -> (r: Self)
        ensures
            r.wf(),
            r.capacity == 0,
    {
        DescriptorHeap {
            kind: HeapKind::RenderTargetView,
            capacity: 0,
            shader_visible: false,
            base_cpu_ptr: 0,
            base_gpu_ptr: 0,
            increment_size: 0,
        }
    }

    /// Records a heap the backend created, with the base handles and the
    /// per-kind increment size it reported. The caller guarantees every
    /// record lies inside the address space; heap creation failure itself
    /// is fatal at the call site and never reaches this constructor.
    pub fn create_heap(
        kind: HeapKind,
        capacity: u32,
        shader_visible: bool,
        base_cpu_ptr: usize,
        base_gpu_ptr: u64,
        increment_size: u32,
    ) -> (r: Self)
        requires
            base_cpu_ptr + capacity * increment_size <= usize::MAX,
            base_gpu_ptr + capacity * increment_size <= u64::MAX,
            capacity <= 0x7FFFFFFF,
        ensures
            r.wf(),
            r == (DescriptorHeap {
                kind,
                capacity,
                shader_visible,
                base_cpu_ptr,
                base_gpu_ptr,
                increment_size,
            }),
    {
        DescriptorHeap { kind, capacity, shader_visible, base_cpu_ptr, base_gpu_ptr, increment_size }
    }

    /// The handles of view `index`. The CPU-side address is exactly
    /// `base_cpu_ptr + index * increment_size`; the GPU-side address is
    /// present exactly for shader-visible heaps and obeys the same law.
    /// An index at or past the capacity is a programmer error the caller
    /// must never make.
    pub fn view_handle(&self, index: u32) -> (r: ViewHandle)
        requires
            self.wf(),
            index < self.capacity,
        ensures
            r.cpu.ptr == self.base_cpu_ptr + index * self.increment_size,
            self.shader_visible ==> r.gpu == Some(
                CD3D12_GPU_DESCRIPTOR_HANDLE {
                    ptr: (self.base_gpu_ptr + index * self.increment_size) as u64,
                },
            ),
            !self.shader_visible ==> r.gpu is None,
    {
        proof {
            assert(index * self.increment_size <= self.capacity * self.increment_size)
                by (nonlinear_arith)
                requires
                    index < self.capacity,
                    self.increment_size >= 0,
            ;
        }
        let base_cpu = CD3D12_CPU_DESCRIPTOR_HANDLE { ptr: self.base_cpu_ptr };
        let cpu = CD3D12_CPU_DESCRIPTOR_HANDLE::from_offset(
            &base_cpu,
            index as i32,
            self.increment_size,
        );
        let gpu: Option<CD3D12_GPU_DESCRIPTOR_HANDLE> = if self.shader_visible {
            let base_gpu = CD3D12_GPU_DESCRIPTOR_HANDLE { ptr: self.base_gpu_ptr };
            Some(
                CD3D12_GPU_DESCRIPTOR_HANDLE::from_offset(
                    &base_gpu,
                    index as i32,
                    self.increment_size,
                ),
            )
        } else {
            None
        };
        ViewHandle { cpu, gpu }
    }
}

} // verus!
