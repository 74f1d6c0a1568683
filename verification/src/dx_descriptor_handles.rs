use vstd::prelude::*;

verus! {

/// A CPU-side descriptor handle: the address of one view record inside a
/// descriptor heap's CPU-visible block.
#[allow(non_camel_case_types)]
#[derive(Clone, Copy, Debug, PartialEq, Eq)]
pub struct CD3D12_CPU_DESCRIPTOR_HANDLE {
    pub ptr: usize,
}

impl CD3D12_CPU_DESCRIPTOR_HANDLE {
    /// The zero handle, before any heap start has been assigned.
    pub fn new() -> (r: Self)
        ensures
            r.ptr == 0,
    {
        CD3D12_CPU_DESCRIPTOR_HANDLE { ptr: 0 }
    }

    /// Wraps a heap-start address reported by the backend.
    pub fn from(other: usize) -> (r: Self)
        ensures
            r.ptr == other,
    {
        CD3D12_CPU_DESCRIPTOR_HANDLE { ptr: other }
    }

    /// The address `offset_index` descriptors away from `handle`, at the
    /// backend-reported per-descriptor stride. The caller guarantees the
    /// result stays inside the address space.
    pub fn offset_cpu_descriptor_handle(
        handle: &CD3D12_CPU_DESCRIPTOR_HANDLE,
        offset_index: i32,
        descriptor_increment_size: u32,
    ) -> (r: CD3D12_CPU_DESCRIPTOR_HANDLE)
        requires
            0 <= handle.ptr + offset_index * descriptor_increment_size <= usize::MAX,
        ensures
            r.ptr == handle.ptr + offset_index * descriptor_increment_size,
    {
        let offset_index_64: i64 = offset_index as i64;
        let increment_64: i64 = descriptor_increment_size as i64;
        if offset_index_64 >= 0 {
            let step: usize = (offset_index_64 as usize) * (increment_64 as usize);
            CD3D12_CPU_DESCRIPTOR_HANDLE { ptr: handle.ptr + step }
        } else {
            let negated: i64 = -offset_index_64;
            proof {
                assert(negated * increment_64 == -(offset_index_64 * increment_64))
                    by (nonlinear_arith)
                    requires
                        negated == -offset_index_64,
                ;
                assert(0 <= negated * increment_64 <= 0x80000000 * 0xFFFFFFFF)
                    by (nonlinear_arith)
                    requires
                        0 <= negated <= 0x80000000,
                        0 <= increment_64 <= 0xFFFFFFFF,
                ;
            }
            let step: usize = (negated as usize) * (increment_64 as usize);
            CD3D12_CPU_DESCRIPTOR_HANDLE { ptr: handle.ptr - step }
        }
    }

    /// A handle `offset_index` descriptors past `other`.
    pub fn from_offset(
        other: &CD3D12_CPU_DESCRIPTOR_HANDLE,
        offset_index: i32,
        descriptor_increment_size: u32,
    ) -> (r: Self)
        requires
            0 <= other.ptr + offset_index * descriptor_increment_size <= usize::MAX,
        ensures
            r.ptr == other.ptr + offset_index * descriptor_increment_size,
    {
        Self::offset_cpu_descriptor_handle(other, offset_index, descriptor_increment_size)
    }

    /// Moves this handle `offset_index` descriptors forward.
    pub fn offset(&mut self, offset_index: i32, descriptor_increment_size: u32)
        requires
            0 <= old(self).ptr + offset_index * descriptor_increment_size <= usize::MAX,
        ensures
            final(self).ptr == old(self).ptr + offset_index * descriptor_increment_size,
    {
        *self = Self::offset_cpu_descriptor_handle(self, offset_index, descriptor_increment_size);
    }
}

/// A GPU-side descriptor handle: the address of one view record as the
/// shader pipeline sees it, valid only for shader-visible heaps.
#[allow(non_camel_case_types)]
#[derive(Clone, Copy, Debug, PartialEq, Eq)]
pub struct CD3D12_GPU_DESCRIPTOR_HANDLE {
    pub ptr: u64,
}

impl CD3D12_GPU_DESCRIPTOR_HANDLE {
    /// The zero handle, before any heap start has been assigned.
    pub fn new() -> (r: Self)
        ensures
            r.ptr == 0,
    {
        CD3D12_GPU_DESCRIPTOR_HANDLE { ptr: 0 }
    }

    /// Wraps a heap-start address reported by the backend.
    pub fn from(other: u64) -> (r: Self)
        ensures
            r.ptr == other,
    {
        CD3D12_GPU_DESCRIPTOR_HANDLE { ptr: other }
    }

    /// The address `offset_index` descriptors away from `handle`, at the
    /// backend-reported per-descriptor stride. The caller guarantees the
    /// result stays inside the address space.
    pub fn offset_gpu_descriptor_handle(
        handle: &CD3D12_GPU_DESCRIPTOR_HANDLE,
        offset_index: i32,
        descriptor_increment_size: u32,
    ) -> (r: CD3D12_GPU_DESCRIPTOR_HANDLE)
        requires
            0 <= handle.ptr + offset_index * descriptor_increment_size <= u64::MAX,
        ensures
            r.ptr == handle.ptr + offset_index * descriptor_increment_size,
    {
        let offset_index_64: i64 = offset_index as i64;
        let increment_64: i64 = descriptor_increment_size as i64;
        if offset_index_64 >= 0 {
            let step: u64 = (offset_index_64 as u64) * (increment_64 as u64);
            CD3D12_GPU_DESCRIPTOR_HANDLE { ptr: handle.ptr + step }
        } else {
            let negated: i64 = -offset_index_64;
            proof {
                assert(negated * increment_64 == -(offset_index_64 * increment_64))
                    by (nonlinear_arith)
                    requires
                        negated == -offset_index_64,
                ;
                assert(0 <= negated * increment_64 <= 0x80000000 * 0xFFFFFFFF)
                    by (nonlinear_arith)
                    requires
                        0 <= negated <= 0x80000000,
                        0 <= increment_64 <= 0xFFFFFFFF,
                ;
            }
            let step: u64 = (negated as u64) * (increment_64 as u64);
            CD3D12_GPU_DESCRIPTOR_HANDLE { ptr: handle.ptr - step }
        }
    }

    /// A handle `offset_index` descriptors past `other`.
    pub fn from_offset(
        other: &CD3D12_GPU_DESCRIPTOR_HANDLE,
        offset_index: i32,
        descriptor_increment_size: u32,
    ) -> (r: Self)
        requires
            0 <= other.ptr + offset_index * descriptor_increment_size <= u64::MAX,
        ensures
            r.ptr == other.ptr + offset_index * descriptor_increment_size,
    {
        Self::offset_gpu_descriptor_handle(other, offset_index, descriptor_increment_size)
    }

    /// Moves this handle `offset_index` descriptors forward.
    pub fn offset(&mut self, offset_index: i32, descriptor_increment_size: u32)
        requires
            0 <= old(self).ptr + offset_index * descriptor_increment_size <= u64::MAX,
        ensures
            final(self).ptr == old(self).ptr + offset_index * descriptor_increment_size,
    {
        *self = Self::offset_gpu_descriptor_handle(self, offset_index, descriptor_increment_size);
    }
}

} // verus!
