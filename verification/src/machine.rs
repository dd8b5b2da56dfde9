//! The architectural state: 31 general-purpose registers, the hardwired
//! zero register, the program counter, and the owned flat memory, together
//! with the fetch-decode-execute step that drives it.
use vstd::prelude::*;

use crate::decode::parse_instruction;
use crate::decode::spec_decode;
use crate::decode::Instruction;
use crate::engine::access_ok;
use crate::engine::execute;
use crate::engine::spec_step;
use crate::mmu::store_u16_le;
use crate::mmu::store_u32_le;
use crate::mmu::store_u64_le;
use crate::mmu::store_u8_le;
use crate::mmu::u16_le_at;
use crate::mmu::u32_le_at;
use crate::mmu::u64_le_at;
use crate::mmu::Mmu;
use crate::mmu::VirtAddr;

verus! {

/// The register-file slot that holds the program counter, one past the 32
/// general-purpose slots.
pub const REG_PC: u8 = 32;

/// `regs` with `v` written to slot `rd` — except slot 0, the hardwired
/// zero register, which discards every write.
pub open spec fn set_reg(regs: Seq<u64>, rd: int, v: u64) -> Seq<u64> {
    if rd == 0 {
        regs
    } else {
        regs.update(rd, v)
    }
}

/// A step outcome the fetch-execute loop cannot continue past on its own:
/// an unrecognized bit pattern (carrying the raw word), a recognized
/// instruction whose semantics are stubbed, or a system-call trap awaiting
/// the host.
#[derive(Clone, Copy, Debug, PartialEq, Eq, Structural)]
pub enum VmExit {
    InvalidOpcode(u32),
    NotImpl,
    Syscall,
}

/// The architectural state: one owned flat memory and a fixed file of 33
/// 64-bit slots — 31 general-purpose registers, the hardwired zero
/// register at slot 0, and the program counter at slot `REG_PC`.
pub struct Machine {
    pub mmu: Mmu,
    registers: Vec<u64>,
}

impl Machine {
    /// The register file, program counter included, as contracts see it.
    pub closed spec fn regs(&self) -> Seq<u64> {
        self.registers@
    }

    /// The memory contents, as contracts see them.
    pub closed spec fn mem(&self) -> Seq<u8> {
        self.mmu@
    }

    /// The memory's allocation cursor, as contracts see it.
    pub closed spec fn cursor(&self) -> usize {
        self.mmu.cursor()
    }

    /// The memory's recorded entry point, as contracts see it.
    pub closed spec fn entry(&self) -> Option<VirtAddr> {
        self.mmu.entry()
    }

    /// The memory buffer fits the address width: its length is a `usize`.
    pub proof fn lemma_mem_fits(&self)
        ensures
            self.mem().len() <= usize::MAX,
    {
        self.mmu.lemma_size_fits();
    }

    /// The register file has its 33 slots and the zero register reads 0.
    pub open spec fn wf(&self) -> bool {
        self.regs().len() == 33 && self.regs()[0] == 0
    }

    /// A machine starts at the entry point its memory records: every
    /// general-purpose register 0, the program counter on the entry.
    pub fn new(mmu: Mmu) -> (r: Machine)
        requires
            mmu.entry() is Some,
        ensures
            r.wf(),
            r.regs().len() == 33,
            forall|i: int| 0 <= i < 32 ==> r.regs()[i] == 0,
            r.regs()[REG_PC as int] == mmu.entry().unwrap().0 as u64,
            r.mem() == mmu@,
            r.cursor() == mmu.cursor(),
            r.entry() == mmu.entry(),
    {
        let entry_point = mmu.get_entry_point().unwrap();
        let mut r = Machine { mmu, registers: vec![0u64; 33] };
        r.registers[REG_PC as usize] = entry_point.0 as u64;
        r
    }

    /// The value in register slot `reg` (slot `REG_PC`: the program
    /// counter).
    pub fn get_r(&self, reg: u8) -> (r: u64)
        requires
            reg < 33,
            self.wf(),
        ensures
            r == self.regs()[reg as int],
    {
        self.registers[reg as usize]
    }

    /// Writes `value` to register slot `reg`. A write to the zero register
    /// is silently discarded — never an error: the result is always `Ok`.
    pub fn set_r(&mut self, reg: u8, value: u64) -> (r: Result<(), VmExit>)
        requires
            reg < 33,
            old(self).wf(),
        ensures
            final(self).wf(),
            r == Ok::<(), VmExit>(()),
            final(self).regs() == set_reg(old(self).regs(), reg as int, value),
            final(self).mem() == old(self).mem(),
            final(self).cursor() == old(self).cursor(),
            final(self).entry() == old(self).entry(),
    {
        if reg != 0 {
            self.registers[reg as usize] = value;
        }
        Ok(())
    }

    /// The program counter, read as an address.
    pub fn get_pc(&self) -> (r: VirtAddr)
        requires
            self.wf(),
        ensures
            r.0 == self.regs()[REG_PC as int] as usize,
    {
        VirtAddr(self.get_r(REG_PC) as usize)
    }

    /// The byte of memory at `addr`, for the execute engine's loads.
    pub(crate) fn mem_read_u8(&self, addr: VirtAddr) -> (r: u8)
        requires
            addr.0 + 1 <= self.mem().len(),
        ensures
            r == self.mem()[addr.0 as int],
    {
        self.mmu.read_u8(addr)
    }

    /// The little-endian 16-bit value of memory at `addr`.
    pub(crate) fn mem_read_u16(&self, addr: VirtAddr) -> (r: u16)
        requires
            addr.0 + 2 <= self.mem().len(),
        ensures
            r == u16_le_at(self.mem(), addr.0 as int),
    {
        self.mmu.read_u16(addr)
    }

    /// The little-endian 32-bit value of memory at `addr`.
    pub(crate) fn mem_read_u32(&self, addr: VirtAddr) -> (r: u32)
        requires
            addr.0 + 4 <= self.mem().len(),
        ensures
            r == u32_le_at(self.mem(), addr.0 as int),
    {
        self.mmu.read_u32(addr)
    }

    /// The little-endian 64-bit value of memory at `addr`.
    pub(crate) fn mem_read_u64(&self, addr: VirtAddr) -> (r: u64)
        requires
            addr.0 + 8 <= self.mem().len(),
        ensures
            r == u64_le_at(self.mem(), addr.0 as int),
    {
        self.mmu.read_u64(addr)
    }

    /// Stores the lowest byte of `v` at `addr`, registers untouched.
    pub(crate) fn mem_write_u8(&mut self, addr: VirtAddr, v: u64)
        requires
            addr.0 + 1 <= old(self).mem().len(),
        ensures
            final(self).regs() == old(self).regs(),
            final(self).mem() == store_u8_le(old(self).mem(), addr.0 as int, v),
            final(self).cursor() == old(self).cursor(),
            final(self).entry() == old(self).entry(),
    {
        self.mmu.write_u8(addr, v);
    }

    /// Stores the low 2 bytes of `v` little-endian at `addr`.
    pub(crate) fn mem_write_u16(&mut self, addr: VirtAddr, v: u64)
        requires
            addr.0 + 2 <= old(self).mem().len(),
        ensures
            final(self).regs() == old(self).regs(),
            final(self).mem() == store_u16_le(old(self).mem(), addr.0 as int, v),
            final(self).cursor() == old(self).cursor(),
            final(self).entry() == old(self).entry(),
    {
        self.mmu.write_u16(addr, v);
    }

    /// Stores the low 4 bytes of `v` little-endian at `addr`.
    pub(crate) fn mem_write_u32(&mut self, addr: VirtAddr, v: u64)
        requires
            addr.0 + 4 <= old(self).mem().len(),
        ensures
            final(self).regs() == old(self).regs(),
            final(self).mem() == store_u32_le(old(self).mem(), addr.0 as int, v),
            final(self).cursor() == old(self).cursor(),
            final(self).entry() == old(self).entry(),
    {
        self.mmu.write_u32(addr, v);
    }

    /// Stores all 8 bytes of `v` little-endian at `addr`.
    pub(crate) fn mem_write_u64(&mut self, addr: VirtAddr, v: u64)
        requires
            addr.0 + 8 <= old(self).mem().len(),
        ensures
            final(self).regs() == old(self).regs(),
            final(self).mem() == store_u64_le(old(self).mem(), addr.0 as int, v),
            final(self).cursor() == old(self).cursor(),
            final(self).entry() == old(self).entry(),
    {
        self.mmu.write_u64(addr, v);
    }

    /// The step's preconditions on the current state: the word at the
    /// program counter can be fetched, and whatever it decodes to touches
    /// memory only inside the buffer. A violation is a host or loader
    /// fault, not guest behaviour to emulate.
    pub open spec fn step_enabled(&self) -> bool {
        let pc = self.regs()[REG_PC as int] as int;
        &&& pc + 4 <= self.mem().len()
        &&& match spec_decode(u32_le_at(self.mem(), pc)) {
            Some(i) => access_ok(i, self.regs(), self.mem()),
            None => true,
        }
    }

    /// Whether the range `[a, a + width)` lies inside memory.
    fn access_within(&self, a: u64, width: usize) -> (b: bool)
        ensures
            b == (a + width <= self.mem().len()),
    {
        let sz = self.mmu.size();
        if sz < width {
            false
        } else {
            a <= (sz - width) as u64
        }
    }

    /// Decides `step_enabled` at run time: whether the next step's memory
    /// touches — the fetch, and whatever access the fetched word asks for —
    /// all lie inside the buffer. An unverified driver tests this before
    /// stepping and treats `false` as the fatal loader fault it is.
    pub fn can_step(&self) -> (b: bool)
        requires
            self.wf(),
        ensures
            b == self.step_enabled(),
    {
        proof {
            self.lemma_mem_fits();
        }
        let pc = self.get_r(REG_PC);
        if !self.access_within(pc, 4) {
            return false;
        }
        let w = self.mmu.read_u32(VirtAddr(pc as usize));
        let i = match parse_instruction(w) {
            Ok(i) => i,
            Err(_) => {
                return true;
            },
        };
        match i {
            Instruction::Lb(it) => self.access_within(self.get_r(it.rs1).wrapping_add(it.imm), 1),
            Instruction::Lh(it) => self.access_within(self.get_r(it.rs1).wrapping_add(it.imm), 2),
            Instruction::Lw(it) => self.access_within(self.get_r(it.rs1).wrapping_add(it.imm), 4),
            Instruction::Ld(it) => self.access_within(self.get_r(it.rs1).wrapping_add(it.imm), 8),
            Instruction::Lbu(it) => self.access_within(self.get_r(it.rs1).wrapping_add(it.imm), 1),
            Instruction::Lhu(it) => self.access_within(self.get_r(it.rs1).wrapping_add(it.imm), 2),
            Instruction::Lwu(it) => self.access_within(self.get_r(it.rs1).wrapping_add(it.imm), 4),
            Instruction::Sb(s) => self.access_within(self.get_r(s.rs1).wrapping_add(s.imm), 1),
            Instruction::Sh(s) => self.access_within(self.get_r(s.rs1).wrapping_add(s.imm), 2),
            Instruction::Sw(s) => self.access_within(self.get_r(s.rs1).wrapping_add(s.imm), 4),
            Instruction::Sd(s) => self.access_within(self.get_r(s.rs1).wrapping_add(s.imm), 8),
            _ => true,
        }
    }

    /// One fetch-decode-execute cycle: reads the word at the program
    /// counter, decodes it, executes it, then advances the program counter
    /// by 4 — so control transfers, which pre-bias their target by −4,
    /// land exactly where they aimed. On any `VmExit` the state is left as
    /// the failing stage found it; in particular a syscall trap leaves the
    /// program counter on the ECALL itself.
    pub fn step(&mut self) -> (r: Result<(), VmExit>)
        requires
            old(self).wf(),
            old(self).step_enabled(),
        ensures
            final(self).wf(),
            match spec_step(old(self).regs(), old(self).mem()) {
                Ok((regs2, mem2)) => r == Ok::<(), VmExit>(()) && final(self).regs() == regs2
                    && final(self).mem() == mem2,
                Err(e) => r == Err::<(), VmExit>(e) && final(self).regs() == old(self).regs()
                    && final(self).mem() == old(self).mem(),
            },
            final(self).cursor() == old(self).cursor(),
            final(self).entry() == old(self).entry(),
    {
        proof {
            self.mmu.lemma_size_fits();
        }
        let pc = self.get_pc();
        let inst_word = self.mmu.read_u32(pc);
        let inst = match parse_instruction(inst_word) {
            Ok(i) => i,
            Err(e) => {
                return Err(e);
            },
        };
        match execute(&inst, self) {
            Ok(()) => {},
            Err(e) => {
                return Err(e);
            },
        }
        let next = self.get_r(REG_PC).wrapping_add(4);
        self.set_r(REG_PC, next)
    }
}

} // verus!
