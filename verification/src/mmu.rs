//! The flat virtual address space: a fixed-size byte buffer with
//! bounds-checked reads and writes, little-endian fixed-width accessors,
//! and a bump-allocation cursor used while program segments are placed.
use vstd::prelude::*;

verus! {

/// The little-endian 16-bit value stored at offset `a` of `mem`.
pub open spec fn u16_le_at(mem: Seq<u8>, a: int) -> u16 {
    (mem[a] + mem[a + 1] * 0x100) as u16
}

/// The little-endian 32-bit value stored at offset `a` of `mem`.
pub open spec fn u32_le_at(mem: Seq<u8>, a: int) -> u32 {
    (mem[a] + mem[a + 1] * 0x100 + mem[a + 2] * 0x1_0000 + mem[a + 3] * 0x100_0000) as u32
}

/// The little-endian 64-bit value stored at offset `a` of `mem`.
pub open spec fn u64_le_at(mem: Seq<u8>, a: int) -> u64 {
    (mem[a] + mem[a + 1] * 0x100 + mem[a + 2] * 0x1_0000 + mem[a + 3] * 0x100_0000 + mem[a + 4]
        * 0x1_0000_0000 + mem[a + 5] * 0x100_0000_0000 + mem[a + 6] * 0x1_0000_0000_0000 + mem[a
        + 7] * 0x100_0000_0000_0000) as u64
}

/// `mem` with the lowest byte of `v` stored at offset `a`.
pub open spec fn store_u8_le(mem: Seq<u8>, a: int, v: u64) -> Seq<u8> {
    mem.update(a, (v % 0x100) as u8)
}

/// `mem` with the low 2 bytes of `v` stored little-endian at offset `a`.
pub open spec fn store_u16_le(mem: Seq<u8>, a: int, v: u64) -> Seq<u8> {
    mem.update(a, (v % 0x100) as u8).update(a + 1, ((v / 0x100) % 0x100) as u8)
}

/// `mem` with the low 4 bytes of `v` stored little-endian at offset `a`.
pub open spec fn store_u32_le(mem: Seq<u8>, a: int, v: u64) -> Seq<u8> {
    mem.update(a, (v % 0x100) as u8).update(a + 1, ((v / 0x100) % 0x100) as u8).update(
        a + 2,
        ((v / 0x1_0000) % 0x100) as u8,
    ).update(a + 3, ((v / 0x100_0000) % 0x100) as u8)
}

/// `mem` with all 8 bytes of `v` stored little-endian at offset `a`.
pub open spec fn store_u64_le(mem: Seq<u8>, a: int, v: u64) -> Seq<u8> {
    mem.update(a, (v % 0x100) as u8).update(a + 1, ((v / 0x100) % 0x100) as u8).update(
        a + 2,
        ((v / 0x1_0000) % 0x100) as u8,
    ).update(a + 3, ((v / 0x100_0000) % 0x100) as u8).update(
        a + 4,
        ((v / 0x1_0000_0000) % 0x100) as u8,
    ).update(a + 5, ((v / 0x100_0000_0000) % 0x100) as u8).update(
        a + 6,
        ((v / 0x1_0000_0000_0000) % 0x100) as u8,
    ).update(a + 7, ((v / 0x100_0000_0000_0000) % 0x100) as u8)
}

/// An offset into the flat address space. Arithmetic on addresses is
/// modular, mirroring 64-bit pointer wraparound.
#[derive(Clone, Copy, Debug, PartialEq, Eq, Structural)]
pub struct VirtAddr(pub usize);

/// The byte store every load, store and fetch goes through. The buffer
/// size is fixed at construction; every access range must lie inside it.
pub struct Mmu {
    memory: Vec<u8>,
    cur_alloc: VirtAddr,
    /// Where execution begins, recorded by the image-loading collaborator
    /// before a `Machine` is built around this memory.
    pub entry_point: Option<VirtAddr>,
}

impl View for Mmu {
    type V = Seq<u8>;

    closed spec fn view(&self) -> Seq<u8> {
        self.memory@
    }
}

impl Mmu {
    /// The bump-allocation cursor: one past the highest address handed out
    /// to a segment or an allocation so far.
    pub closed spec fn cursor(&self) -> usize {
        self.cur_alloc.0
    }

    /// The recorded entry point, as contracts see it.
    pub closed spec fn entry(&self) -> Option<VirtAddr> {
        self.entry_point
    }

    /// The whole buffer fits the address width: its length is a `usize`.
    pub proof fn lemma_size_fits(&self)
        ensures
            self@.len() <= usize::MAX,
    {
        vstd::std_specs::vec::axiom_spec_len(&self.memory);
    }

    /// The recorded entry point.
    pub fn get_entry_point(&self) -> (r: Option<VirtAddr>)
        ensures
            r == self.entry(),
    {
        self.entry_point
    }

    /// Records the entry point the image loader found.
    pub fn set_entry_point(&mut self, a: VirtAddr)
        ensures
            final(self)@ == old(self)@,
            final(self).cursor() == old(self).cursor(),
            final(self).entry() == Some(a),
    {
        self.entry_point = Some(a);
    }

    /// The buffer's size, fixed at construction.
    pub fn size(&self) -> (r: usize)
        ensures
            r == self@.len(),
    {
        self.memory.len()
    }

    pub fn new(size: usize) -> (r: Mmu)
        ensures
            r@ == Seq::new(size as nat, |i: int| 0u8),
            r@.len() == size,
            r.cursor() == 0,
            r.entry() is None,
    {
        let memory = vec![0u8; size];
        proof {
            assert(memory@ =~= Seq::new(size as nat, |i: int| 0u8));
        }
        Mmu { memory, cur_alloc: VirtAddr(0), entry_point: None }
    }

    /// Hands out `size` bytes above everything placed so far; the cursor
    /// advances modularly, as address arithmetic does.
    pub fn allocate(&mut self, size: usize) -> (r: VirtAddr)
        ensures
            r.0 == old(self).cursor(),
            final(self).cursor() == old(self).cursor().wrapping_add(size),
            final(self)@ == old(self)@,
            final(self).entry() == old(self).entry(),
    {
        let r = self.cur_alloc;
        self.cur_alloc = VirtAddr(self.cur_alloc.0.wrapping_add(size));
        r
    }

    /// A copy of the `size` bytes at `addr`.
    pub fn read(&self, addr: VirtAddr, size: usize) -> (r: Vec<u8>)
        requires
            addr.0 + size <= self@.len(),
        ensures
            r@ == self@.subrange(addr.0 as int, addr.0 + size),
    {
        let mut buf = vec![0u8; size];
        self.read_into(addr, &mut buf);
        buf
    }

    /// Fills `buf` with the bytes at `addr`.
    pub fn read_into(&self, addr: VirtAddr, buf: &mut Vec<u8>)
        requires
            addr.0 + old(buf)@.len() <= self@.len(),
        ensures
            final(buf)@ == self@.subrange(addr.0 as int, addr.0 + old(buf)@.len()),
    {
        let n = buf.len();
        let total = self.memory.len();
        let mut i: usize = 0;
        while i < n
            invariant
                n == old(buf)@.len(),
                buf@.len() == n,
                i <= n,
                addr.0 + n <= total,
                total == self@.len(),
                forall|j: int| 0 <= j < i ==> buf@[j] == self@[addr.0 + j],
            decreases n - i,
        {
            let b = self.memory[addr.0 + i];
            buf[i] = b;
            i = i + 1;
        }
        proof {
            assert(buf@ =~= self@.subrange(addr.0 as int, addr.0 + old(buf)@.len()));
        }
    }

    /// The byte at `addr`.
    pub fn read_u8(&self, addr: VirtAddr) -> (r: u8)
        requires
            addr.0 + 1 <= self@.len(),
        ensures
            r == self@[addr.0 as int],
    {
        self.memory[addr.0]
    }

    /// The little-endian 16-bit value at `addr`.
    pub fn read_u16(&self, addr: VirtAddr) -> (r: u16)
        requires
            addr.0 + 2 <= self@.len(),
        ensures
            r == u16_le_at(self@, addr.0 as int),
    {
        proof {
            self.lemma_size_fits();
        }
        let b0 = self.memory[addr.0];
        let b1 = self.memory[addr.0 + 1];
        b0 as u16 + b1 as u16 * 0x100
    }

    /// The little-endian 32-bit value at `addr`; instruction fetch reads
    /// every instruction word through this.
    pub fn read_u32(&self, addr: VirtAddr) -> (r: u32)
        requires
            addr.0 + 4 <= self@.len(),
        ensures
            r == u32_le_at(self@, addr.0 as int),
    {
        proof {
            self.lemma_size_fits();
        }
        let b0 = self.memory[addr.0];
        let b1 = self.memory[addr.0 + 1];
        let b2 = self.memory[addr.0 + 2];
        let b3 = self.memory[addr.0 + 3];
        b0 as u32 + b1 as u32 * 0x100 + b2 as u32 * 0x1_0000 + b3 as u32 * 0x100_0000
    }

    /// The little-endian 64-bit value at `addr`.
    pub fn read_u64(&self, addr: VirtAddr) -> (r: u64)
        requires
            addr.0 + 8 <= self@.len(),
        ensures
            r == u64_le_at(self@, addr.0 as int),
    {
        proof {
            self.lemma_size_fits();
        }
        let b0 = self.memory[addr.0];
        let b1 = self.memory[addr.0 + 1];
        let b2 = self.memory[addr.0 + 2];
        let b3 = self.memory[addr.0 + 3];
        let b4 = self.memory[addr.0 + 4];
        let b5 = self.memory[addr.0 + 5];
        let b6 = self.memory[addr.0 + 6];
        let b7 = self.memory[addr.0 + 7];
        b0 as u64 + b1 as u64 * 0x100 + b2 as u64 * 0x1_0000 + b3 as u64 * 0x100_0000 + b4 as u64
            * 0x1_0000_0000 + b5 as u64 * 0x100_0000_0000 + b6 as u64 * 0x1_0000_0000_0000
            + b7 as u64 * 0x100_0000_0000_0000
    }

    /// Stores the lowest byte of `v` at `addr`.
    pub fn write_u8(&mut self, addr: VirtAddr, v: u64)
        requires
            addr.0 + 1 <= old(self)@.len(),
        ensures
            final(self)@ == store_u8_le(old(self)@, addr.0 as int, v),
            final(self).cursor() == old(self).cursor(),
            final(self).entry() == old(self).entry(),
    {
        self.memory[addr.0] = (v % 0x100) as u8;
    }

    /// Stores the low 2 bytes of `v` little-endian at `addr`.
    pub fn write_u16(&mut self, addr: VirtAddr, v: u64)
        requires
            addr.0 + 2 <= old(self)@.len(),
        ensures
            final(self)@ == store_u16_le(old(self)@, addr.0 as int, v),
            final(self).cursor() == old(self).cursor(),
            final(self).entry() == old(self).entry(),
    {
        proof {
            self.lemma_size_fits();
        }
        self.memory[addr.0] = (v % 0x100) as u8;
        self.memory[addr.0 + 1] = ((v / 0x100) % 0x100) as u8;
    }

    /// Stores the low 4 bytes of `v` little-endian at `addr`.
    pub fn write_u32(&mut self, addr: VirtAddr, v: u64)
        requires
            addr.0 + 4 <= old(self)@.len(),
        ensures
            final(self)@ == store_u32_le(old(self)@, addr.0 as int, v),
            final(self).cursor() == old(self).cursor(),
            final(self).entry() == old(self).entry(),
    {
        proof {
            self.lemma_size_fits();
        }
        self.memory[addr.0] = (v % 0x100) as u8;
        self.memory[addr.0 + 1] = ((v / 0x100) % 0x100) as u8;
        self.memory[addr.0 + 2] = ((v / 0x1_0000) % 0x100) as u8;
        self.memory[addr.0 + 3] = ((v / 0x100_0000) % 0x100) as u8;
    }

    /// Stores all 8 bytes of `v` little-endian at `addr`.
    pub fn write_u64(&mut self, addr: VirtAddr, v: u64)
        requires
            addr.0 + 8 <= old(self)@.len(),
        ensures
            final(self)@ == store_u64_le(old(self)@, addr.0 as int, v),
            final(self).cursor() == old(self).cursor(),
            final(self).entry() == old(self).entry(),
    {
        proof {
            self.lemma_size_fits();
        }
        self.memory[addr.0] = (v % 0x100) as u8;
        self.memory[addr.0 + 1] = ((v / 0x100) % 0x100) as u8;
        self.memory[addr.0 + 2] = ((v / 0x1_0000) % 0x100) as u8;
        self.memory[addr.0 + 3] = ((v / 0x100_0000) % 0x100) as u8;
        self.memory[addr.0 + 4] = ((v / 0x1_0000_0000) % 0x100) as u8;
        self.memory[addr.0 + 5] = ((v / 0x100_0000_0000) % 0x100) as u8;
        self.memory[addr.0 + 6] = ((v / 0x1_0000_0000_0000) % 0x100) as u8;
        self.memory[addr.0 + 7] = ((v / 0x100_0000_0000_0000) % 0x100) as u8;
    }

    /// Places one program segment: writes `data` at `load_addr` and lifts
    /// the allocation cursor past its end. The image loader calls this
    /// once per loadable segment, in the order the image supplies them;
    /// segments carrying no virtual address never reach it.
    pub fn load_segment(&mut self, load_addr: VirtAddr, data: &Vec<u8>)
        requires
            load_addr.0 + data@.len() <= old(self)@.len(),
        ensures
            final(self).entry() == old(self).entry(),
            final(self)@.len() == old(self)@.len(),
            final(self)@.subrange(load_addr.0 as int, load_addr.0 + data@.len()) == data@,
            forall|j: int|
                0 <= j < final(self)@.len() && !(load_addr.0 <= j < load_addr.0 + data@.len())
                    ==> final(self)@[j] == old(self)@[j],
            final(self).cursor() == if old(self).cursor() >= load_addr.0 + data@.len() {
                old(self).cursor() as int
            } else {
                load_addr.0 + data@.len()
            },
    {
        proof {
            self.lemma_size_fits();
        }
        self.write_from(load_addr, data);
        let end = load_addr.0 + data.len();
        if end > self.cur_alloc.0 {
            self.cur_alloc = VirtAddr(end);
        }
    }

    /// Copies `buf` into the buffer at `addr`; no byte outside the range
    /// `[addr, addr + buf.len())` changes.
    pub fn write_from(&mut self, addr: VirtAddr, buf: &Vec<u8>)
        requires
            addr.0 + buf@.len() <= old(self)@.len(),
        ensures
            final(self)@.len() == old(self)@.len(),
            final(self)@.subrange(addr.0 as int, addr.0 + buf@.len()) == buf@,
            forall|j: int|
                0 <= j < final(self)@.len() && !(addr.0 <= j < addr.0 + buf@.len())
                    ==> final(self)@[j] == old(self)@[j],
            final(self).cursor() == old(self).cursor(),
            final(self).entry() == old(self).entry(),
    {
        let n = buf.len();
        let total = self.memory.len();
        let mut i: usize = 0;
        while i < n
            invariant
                n == buf@.len(),
                i <= n,
                addr.0 + n <= total,
                total == self@.len(),
                self@.len() == old(self)@.len(),
                forall|j: int| 0 <= j < i ==> self@[addr.0 + j] == buf@[j],
                forall|j: int|
                    0 <= j < self@.len() && !(addr.0 <= j < addr.0 + n) ==> self@[j] == old(
                        self,
                    )@[j],
                self.cursor() == old(self).cursor(),
                self.entry() == old(self).entry(),
            decreases n - i,
        {
            let b = buf[i];
            self.memory[addr.0 + i] = b;
            i = i + 1;
        }
        proof {
            assert(self@.subrange(addr.0 as int, addr.0 + buf@.len()) =~= buf@);
        }
    }
}

} // verus!
