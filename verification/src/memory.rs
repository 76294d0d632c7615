//! The sandbox instance's linear memory.
//!
//! One contiguous, host-visible byte region with a bump allocator.  The host
//! receives plain addresses; every (address, length) pair it hands back is
//! funnelled through the checked view constructors here before any byte is
//! touched.  No other module performs unchecked address arithmetic.

use vstd::prelude::*;

verus! {

/// Alignment of every address the allocator hands out, in bytes.
pub const BLOCK_ALIGN: u32 = 8;

/// A null address is allowed only for an empty buffer.
pub open spec fn buffer_nonnull(addr: u32, len: u32) -> bool {
    len == 0 || addr != 0
}

/// The region `[addr, addr + len)` lies inside a memory of `mem_len`
/// bytes.  An empty buffer lies in bounds whatever its address: it names
/// no byte.
pub open spec fn buffer_in_bounds(mem_len: int, addr: u32, len: u32) -> bool {
    len == 0 || addr + len <= mem_len
}

/// The bytes an (address, length) pair names in `mem`; an empty buffer
/// names the empty sequence whatever its address.
pub open spec fn buffer_bytes(mem: Seq<u8>, addr: int, len: int) -> Seq<u8> {
    if len <= 0 {
        Seq::empty()
    } else {
        mem.subrange(addr, addr + len)
    }
}

/// `post` is `pre` with exactly the region starting at `addr` replaced by
/// `data`: every byte outside that region is untouched.
pub open spec fn bytes_written(pre: Seq<u8>, post: Seq<u8>, addr: int, data: Seq<u8>) -> bool {
    &&& post.len() == pre.len()
    &&& forall|i: int| 0 <= i < data.len() ==> post[addr + i] == data[i]
    &&& forall|i: int|
        0 <= i < pre.len() && !(addr <= i < addr + data.len() as int) ==> post[i] == pre[i]
}

/// The two regions share no byte.
pub open spec fn region_disjoint(a: int, a_len: int, b: int, b_len: int) -> bool {
    a + a_len <= b || b + b_len <= a
}

/// Buffer safety, framing half: a call that wrote `data` at `w` left every
/// region disjoint from `[w, w + data.len())` exactly as it was.
pub proof fn lemma_frame_preserved(pre: Seq<u8>, post: Seq<u8>, w: int, data: Seq<u8>, a: int, l: int)
    requires
        bytes_written(pre, post, w, data),
        0 <= a,
        0 <= l,
        a + l <= pre.len(),
        region_disjoint(a, l, w, data.len() as int),
    ensures
        post.subrange(a, a + l) == pre.subrange(a, a + l),
{
    assert(post.subrange(a, a + l) =~= pre.subrange(a, a + l));
}

/// `n` rounded up to the next multiple of the allocator's alignment.
pub open spec fn align_up(n: int) -> int {
    ((n + BLOCK_ALIGN - 1) / (BLOCK_ALIGN as int)) * (BLOCK_ALIGN as int)
}

/// Why an (address, length) pair was refused by the checked view
/// constructors.
#[derive(Clone, Copy, Debug, PartialEq, Eq, Structural)]
pub enum BufferFault {
    /// The address was null while the length was nonzero.
    NullAddress,
    /// The region runs past the end of the linear memory.
    OutOfBounds,
}

/// The linear memory of one sandbox instance, together with the bump
/// allocator that hands blocks of it to the host.
pub struct LinearMemory {
    data: Vec<u8>,
    next: usize,
}

impl View for LinearMemory {
    type V = Seq<u8>;

    closed spec fn view(&self) -> Seq<u8> {
        self.data@
    }
}

impl LinearMemory {
    /// First offset the allocator has not yet handed out.
    pub closed spec fn alloc_mark(&self) -> int {
        self.next as int
    }

    /// Allocator consistency: the mark never dips below the first aligned
    /// address, stays inside the region once anything fits there, and the
    /// region itself is addressable with 32-bit offsets.
    pub open spec fn wf(&self) -> bool {
        &&& BLOCK_ALIGN <= self.alloc_mark()
        &&& (self.alloc_mark() <= self@.len() || self.alloc_mark() == BLOCK_ALIGN)
        &&& self@.len() <= u32::MAX
    }

    /// A fresh, zeroed instance of `size` bytes.  Address 0 is never handed
    /// out, so it can serve as the null sentinel.
    pub fn new(size: u32) -> (m: LinearMemory)
        ensures
            m.wf(),
            m@.len() == size,
            forall|i: int| 0 <= i < size ==> m@[i] == 0u8,
            m.alloc_mark() == BLOCK_ALIGN,
    {
        let mut data: Vec<u8> = Vec::new();
        while data.len() < size as usize
            invariant
                data@.len() <= size,
                forall|i: int| 0 <= i < data@.len() ==> data@[i] == 0u8,
            decreases size - data@.len(),
        {
            data.push(0u8);
        }
        LinearMemory { data, next: BLOCK_ALIGN as usize }
    }

    /// Number of bytes in the region.
    pub fn size(&self) -> (s: usize)
        ensures
            s == self@.len(),
    {
        self.data.len()
    }

    /// Hand out a fresh block of `length` bytes, aligned to `BLOCK_ALIGN`.
    ///
    /// A zero length yields the non-null, aligned sentinel `BLOCK_ALIGN`
    /// with no storage behind it.  When no block fits, the null address 0 is
    /// returned and the caller must check for it before use; the memory
    /// itself is never grown.
    pub fn allocate(&mut self, length: u32) -> (addr: u32)
        requires
            old(self).wf(),
        ensures
            final(self).wf(),
            final(self)@ == old(self)@,
            length == 0 ==> addr == BLOCK_ALIGN && final(self).alloc_mark() == old(
                self,
            ).alloc_mark(),
            length > 0 ==> (if align_up(old(self).alloc_mark()) + length <= old(self)@.len() {
                &&& addr == align_up(old(self).alloc_mark())
                &&& addr % BLOCK_ALIGN == 0
                &&& old(self).alloc_mark() <= addr
                &&& addr + length <= old(self)@.len()
                &&& final(self).alloc_mark() == addr + length
            } else {
                addr == 0 && final(self).alloc_mark() == old(self).alloc_mark()
            }),
    {
        if length == 0 {
            return BLOCK_ALIGN;
        }
        proof {
            let n = old(self).alloc_mark();
            assert(n <= ((n + 7) / 8) * 8 < n + 8 && (((n + 7) / 8) * 8) % 8 == 0)
                by (nonlinear_arith)
                requires
                    0 <= n,
            ;
            assert(align_up(n) == ((n + 7) / 8) * 8);
        }
        let aligned: u64 = ((self.next as u64) + 7) / 8 * 8;
        if aligned + (length as u64) <= (self.data.len() as u64) {
            let addr: u32 = aligned as u32;
            self.next = (aligned + (length as u64)) as usize;
            addr
        } else {
            0
        }
    }

    /// Give back the block most recently handed out, named by the same
    /// address and length that `allocate` returned.  Only the latest block
    /// can be reclaimed; any other pair is refused and nothing changes.
    pub fn release(&mut self, addr: u32, length: u32) -> (ok: bool)
        requires
            old(self).wf(),
        ensures
            final(self).wf(),
            final(self)@ == old(self)@,
            ok <==> (BLOCK_ALIGN <= addr && addr + length == old(self).alloc_mark()),
            ok ==> final(self).alloc_mark() == addr,
            !ok ==> final(self).alloc_mark() == old(self).alloc_mark(),
    {
        if addr >= BLOCK_ALIGN && (addr as u64) + (length as u64) == (self.next as u64) {
            self.next = addr as usize;
            true
        } else {
            false
        }
    }

    /// The single read-side chokepoint: turn an (address, length) pair into
    /// a checked byte view, or say exactly why it is refused.  An empty
    /// buffer is valid whatever its address.
    pub fn view_buffer(&self, addr: u32, len: u32) -> (r: Result<Vec<u8>, BufferFault>)
        ensures
            (match r {
                Ok(v) => buffer_nonnull(addr, len) && buffer_in_bounds(self@.len() as int, addr, len)
                    && v@ == buffer_bytes(self@, addr as int, len as int),
                Err(BufferFault::NullAddress) => !buffer_nonnull(addr, len),
                Err(BufferFault::OutOfBounds) => buffer_nonnull(addr, len) && !buffer_in_bounds(
                    self@.len() as int,
                    addr,
                    len,
                ),
            }),
    {
        if len == 0 {
            return Ok(Vec::new());
        }
        if addr == 0 {
            return Err(BufferFault::NullAddress);
        }
        if (addr as u64) + (len as u64) > (self.data.len() as u64) {
            return Err(BufferFault::OutOfBounds);
        }
        Ok(self.read_bytes(addr, len))
    }

    /// The single write-side chokepoint: copy `data` to `addr` after the
    /// same null and bounds checks, or refuse and leave memory untouched.
    pub fn store_bytes(&mut self, addr: u32, data: &Vec<u8>) -> (r: Result<(), BufferFault>)
        ensures
            final(self).alloc_mark() == old(self).alloc_mark(),
            (match r {
                Ok(_) => (data@.len() == 0 || (addr != 0 && addr + data@.len() <= old(self)@.len()))
                    && bytes_written(old(self)@, final(self)@, addr as int, data@),
                Err(BufferFault::NullAddress) => data@.len() > 0 && addr == 0 && final(self)@ == old(
                    self,
                )@,
                Err(BufferFault::OutOfBounds) => data@.len() > 0 && addr != 0 && addr + data@.len()
                    > old(self)@.len() && final(self)@ == old(self)@,
            }),
    {
        if data.len() == 0 {
            return Ok(());
        }
        if addr == 0 {
            return Err(BufferFault::NullAddress);
        }
        let mem_len = self.data.len();
        if (addr as usize) > mem_len || data.len() > mem_len - (addr as usize) {
            return Err(BufferFault::OutOfBounds);
        }
        self.write_bytes(addr, data);
        Ok(())
    }

    /// Raw bounded read; callers must have established the bounds.
    pub(crate) fn read_bytes(&self, addr: u32, len: u32) -> (r: Vec<u8>)
        requires
            addr + len <= self@.len(),
        ensures
            r@ == self@.subrange(addr as int, addr + len),
    {
        let mut out: Vec<u8> = Vec::new();
        let mut i: usize = 0;
        let n = self.data.len();
        while i < len as usize
            invariant
                addr + len <= self@.len(),
                n == self@.len(),
                i <= len,
                out@ == self@.subrange(addr as int, addr + i),
            decreases len - i,
        {
            assert(addr as usize + i < n);
            out.push(self.data[addr as usize + i]);
            assert(self@.subrange(addr as int, addr + i + 1) =~= self@.subrange(
                addr as int,
                addr + i,
            ).push(self@[addr + i]));
            i = i + 1;
        }
        out
    }

    /// Raw bounded write; callers must have established the bounds.
    pub(crate) fn write_bytes(&mut self, addr: u32, data: &Vec<u8>)
        requires
            data@.len() == 0 || addr + data@.len() <= old(self)@.len(),
        ensures
            final(self).alloc_mark() == old(self).alloc_mark(),
            bytes_written(old(self)@, final(self)@, addr as int, data@),
    {
        let mut i: usize = 0;
        let n = self.data.len();
        while i < data.len()
            invariant
                data@.len() == 0 || addr + data@.len() <= self@.len(),
                n == self@.len(),
                self@.len() == old(self)@.len(),
                self.alloc_mark() == old(self).alloc_mark(),
                i <= data@.len(),
                forall|j: int| 0 <= j < i ==> self@[addr + j] == data@[j],
                forall|j: int|
                    0 <= j < self@.len() && !(addr <= j < addr + i) ==> self@[j] == old(self)@[j],
            decreases data@.len() - i,
        {
            assert(addr as usize + i < n);
            let idx: usize = addr as usize + i;
            self.data[idx] = data[i];
            i = i + 1;
        }
    }
}

} // verus!
