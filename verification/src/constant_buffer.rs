use vstd::prelude::*;

verus! {

/// Size of the constant-buffer region in bytes. The backend requires
/// constant buffers to be 256-byte aligned, so one 64-byte matrix is
/// padded out to this size.
pub const CB_SIZE_BYTES: usize = 256;

/// A row-major 4-by-4 matrix of 32-bit values is 16 words.
pub const MATRIX_WORD_COUNT: usize = 16;

/// The little-endian 32-bit word starting at byte `4 * k` of `bytes`.
pub open spec fn le_word_at(bytes: Seq<u8>, k: int) -> int {
    bytes[4 * k] + 0x100 * bytes[4 * k + 1] + 0x10000 * bytes[4 * k + 2] + 0x1000000 * bytes[4 * k
        + 3]
}

/// The first sixteen little-endian words of `bytes` are exactly `words`.
pub open spec fn encodes_matrix(bytes: Seq<u8>, words: Seq<u32>) -> bool {
    &&& words.len() == MATRIX_WORD_COUNT
    &&& forall|k: int| 0 <= k < MATRIX_WORD_COUNT ==> le_word_at(bytes, k) == words[k]
}

/// A persistently CPU-mapped region of a GPU-visible buffer. The renderer
/// writes a fresh transform into the first 64 bytes once per frame and
/// never unmaps; only the CPU writes, only the GPU reads, and a write must
/// not begin until the GPU has finished reading the previous contents —
/// the fence protocol, not a lock, enforces that.
pub struct ConstantBufferRegion {
    bytes: Vec<u8>,
}

impl ConstantBufferRegion {
    /// The mapped bytes as the GPU will read them.
    pub closed spec fn bytes_spec(&self) -> Seq<u8> {
        self.bytes@
    }

    /// The region always spans the full aligned size.
    pub open spec fn wf(&self) -> bool {
        self.bytes_spec().len() == CB_SIZE_BYTES
    }

    /// A freshly mapped region, zero-filled.
    pub fn new() -> (r: Self)
        ensures
            r.wf(),
            forall|i: int| 0 <= i < CB_SIZE_BYTES ==> r.bytes_spec()[i] == 0,
    {
        let mut bytes: Vec<u8> = Vec::new();
        let mut i: usize = 0;
        while i < CB_SIZE_BYTES
            invariant
                i <= CB_SIZE_BYTES,
                bytes@.len() == i,
                forall|j: int| 0 <= j < i ==> bytes@[j] == 0,
            decreases CB_SIZE_BYTES - i,
        {
            bytes.push(0u8);
            i = i + 1;
        }
        ConstantBufferRegion { bytes }
    }

    /// Writes the sixteen matrix words into the first 64 bytes, little
    /// endian, leaving the padding untouched. After the call the region
    /// holds exactly the bytes of `words` — the backend applies no
    /// transformation of its own.
    pub fn write_matrix(&mut self, words: &Vec<u32>)
        requires
            old(self).wf(),
            words@.len() == MATRIX_WORD_COUNT,
        ensures
            final(self).wf(),
            encodes_matrix(final(self).bytes_spec(), words@),
            forall|i: int|
                4 * MATRIX_WORD_COUNT <= i < CB_SIZE_BYTES ==> final(self).bytes_spec()[i] == old(
                    self,
                ).bytes_spec()[i],
    {
        let mut k: usize = 0;
        while k < MATRIX_WORD_COUNT
            invariant
                k <= MATRIX_WORD_COUNT,
                self.wf(),
                words@.len() == MATRIX_WORD_COUNT,
                forall|j: int| 0 <= j < k ==> le_word_at(self.bytes_spec(), j) == words@[j],
                forall|i: int|
                    4 * k <= i < CB_SIZE_BYTES ==> self.bytes_spec()[i] == old(
                        self,
                    ).bytes_spec()[i],
            decreases MATRIX_WORD_COUNT - k,
        {
            let w: u32 = words[k];
            let b0: u8 = (w & 0xFF) as u8;
            let b1: u8 = ((w >> 8) & 0xFF) as u8;
            let b2: u8 = ((w >> 16) & 0xFF) as u8;
            let b3: u8 = ((w >> 24) & 0xFF) as u8;
            proof {
                assert(w == (w & 0xFF) + 0x100 * ((w >> 8) & 0xFF) + 0x10000 * ((w >> 16) & 0xFF)
                    + 0x1000000 * ((w >> 24) & 0xFF)) by (bit_vector);
                assert((w & 0xFF) < 0x100 && ((w >> 8) & 0xFF) < 0x100 && ((w >> 16) & 0xFF) < 0x100
                    && ((w >> 24) & 0xFF) < 0x100) by (bit_vector);
            }
            self.bytes[4 * k] = b0;
            self.bytes[4 * k + 1] = b1;
            self.bytes[4 * k + 2] = b2;
            self.bytes[4 * k + 3] = b3;
            k = k + 1;
        }
    }

    /// Reads one byte back through the mapped pointer.
    pub fn byte_at(&self, i: usize) -> (r: u8)
        requires
            self.wf(),
            i < CB_SIZE_BYTES,
        ensures
            r == self.bytes_spec()[i as int],
    {
        self.bytes[i]
    }

    /// Reads the whole region back through the mapped pointer, byte for
    /// byte.
    pub fn read_back(&self) -> (r: Vec<u8>)
        requires
            self.wf(),
        ensures
            r@ == self.bytes_spec(),
    {
        let mut out: Vec<u8> = Vec::new();
        let mut i: usize = 0;
        while i < CB_SIZE_BYTES
            invariant
                self.wf(),
                i <= CB_SIZE_BYTES,
                out@.len() == i,
                forall|j: int| 0 <= j < i ==> out@[j] == self.bytes_spec()[j],
            decreases CB_SIZE_BYTES - i,
        {
            out.push(self.bytes[i]);
            i = i + 1;
        }
        proof {
            assert(out@ =~= self.bytes_spec());
        }
        out
    }
}

} // verus!
