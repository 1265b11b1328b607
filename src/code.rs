//! A snapshot of executable memory that the probe engine reads and patches.
use crate::arch::MAX_INSTRUCTION_LEN;
use vstd::prelude::*;

verus! {

/// The bytes of `bytes` from `off` on, at most one instruction's worth.
pub open spec fn window_of(bytes: Seq<u8>, off: int) -> Seq<u8> {
    if off + MAX_INSTRUCTION_LEN <= bytes.len() {
        bytes.subrange(off, off + MAX_INSTRUCTION_LEN)
    } else {
        bytes.subrange(off, bytes.len() as int)
    }
}

/// `bytes` with the run starting at `off` overwritten by `src`.
pub open spec fn splice(bytes: Seq<u8>, off: int, src: Seq<u8>) -> Seq<u8> {
    Seq::new(
        bytes.len(),
        |i: int|
            if off <= i < off + src.len() {
                src[i - off]
            } else {
                bytes[i]
            },
    )
}

/// A run of executable memory: `bytes[i]` is the byte at address `base + i`.
pub struct CodeRegion {
    pub base: usize,
    pub bytes: Vec<u8>,
}

impl CodeRegion {
    /// The region's addresses all fit in a `usize`.
    pub open spec fn wf(&self) -> bool {
        self.base + self.bytes@.len() <= usize::MAX
    }

    /// The `len` bytes from `addr` on lie inside the region.
    pub open spec fn holds(&self, addr: int, len: int) -> bool {
        self.base <= addr && addr + len <= self.base + self.bytes@.len()
    }

    pub fn new(base: usize, bytes: Vec<u8>) -> (r: CodeRegion)
        requires
            base + bytes@.len() <= usize::MAX,
        ensures
            r.wf(),
            r.base == base,
            r.bytes@ == bytes@,
    {
        CodeRegion { base, bytes }
    }

    /// The bytes from `addr` on, up to the longest instruction or the end of
    /// the region.
    pub fn window(&self, addr: usize) -> (r: Vec<u8>)
        requires
            self.wf(),
            self.holds(addr as int, 1),
        ensures
            r@ == window_of(self.bytes@, addr - self.base),
    {
        let off = addr - self.base;
        let end = if self.bytes.len() - off >= MAX_INSTRUCTION_LEN {
            off + MAX_INSTRUCTION_LEN
        } else {
            self.bytes.len()
        };
        let mut r: Vec<u8> = Vec::new();
        let mut i: usize = off;
        while i < end
            invariant
                off <= i <= end <= self.bytes@.len(),
                r@ == self.bytes@.subrange(off as int, i as int),
            decreases end - i,
        {
            r.push(self.bytes[i]);
            i = i + 1;
        }
        r
    }

    /// Writes one byte at `addr`.
    pub fn write_byte(&mut self, addr: usize, b: u8)
        requires
            old(self).wf(),
            old(self).holds(addr as int, 1),
        ensures
            final(self).base == old(self).base,
            final(self).bytes@ == old(self).bytes@.update(addr - old(self).base, b),
    {
        let off = addr - self.base;
        self.bytes.set(off, b);
    }

    /// Writes the first `len` bytes of `src` from `addr` on.
    pub fn write_bytes(&mut self, addr: usize, src: &[u8], len: usize)
        requires
            old(self).wf(),
            len <= src@.len(),
            old(self).holds(addr as int, len as int),
        ensures
            final(self).base == old(self).base,
            final(self).bytes@ == splice(
                old(self).bytes@,
                addr - old(self).base,
                src@.subrange(0, len as int),
            ),
    {
        let off = addr - self.base;
        let ghost start = self.bytes@;
        let mut i: usize = 0;
        while i < len
            invariant
                self.base == old(self).base,
                off == addr - self.base,
                off + len <= self.bytes@.len(),
                self.bytes@.len() == start.len(),
                self.wf(),
                len <= src@.len(),
                0 <= i <= len,
                forall|j: int|
                    0 <= j < self.bytes@.len() ==> #[trigger] self.bytes@[j] == if off <= j < off + i {
                        src@[j - off]
                    } else {
                        start[j]
                    },
            decreases len - i,
        {
            self.bytes.set(off + i, src[i]);
            i = i + 1;
        }
        assert(self.bytes@ =~= splice(start, off as int, src@.subrange(0, len as int)));
    }

    pub fn base(&self) -> (r: usize)
        ensures
            r == self.base,
    {
        self.base
    }

    pub fn as_bytes(&self) -> (r: &[u8])
        ensures
            r@ == self.bytes@,
    {
        self.bytes.as_slice()
    }
}

} // verus!
