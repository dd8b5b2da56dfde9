//! The execution engine: the meaning of every decoded instruction as a
//! function from (registers, memory) to the next (registers, memory) or a
//! `VmExit`, and the verified executor that realizes it. Register
//! arithmetic is modular 64-bit; signed comparisons and shifts reinterpret
//! the bit pattern; control transfers write their target pre-biased by −4,
//! composing with the step loop's unconditional advance of 4.
use vstd::prelude::*;

use crate::decode::spec_decode;
use crate::decode::Instruction;
use crate::formats::sext32;
use crate::machine::set_reg;
use crate::machine::Machine;
use crate::machine::VmExit;
use crate::machine::REG_PC;
use crate::mmu::store_u16_le;
use crate::mmu::store_u32_le;
use crate::mmu::store_u64_le;
use crate::mmu::store_u8_le;
use crate::mmu::u16_le_at;
use crate::mmu::u32_le_at;
use crate::mmu::u64_le_at;
use crate::mmu::VirtAddr;

verus! {

/// Sign-extends a byte to 64 bits.
pub open spec fn sext8(v: u64) -> u64
    recommends
        v < 0x100,
{
    if v < 0x80 {
        v
    } else {
        (v + 0xFFFF_FFFF_FFFF_FF00) as u64
    }
}

/// Sign-extends a 16-bit value to 64 bits.
pub open spec fn sext16(v: u64) -> u64
    recommends
        v < 0x1_0000,
{
    if v < 0x8000 {
        v
    } else {
        (v + 0xFFFF_FFFF_FFFF_0000) as u64
    }
}

/// The register value read as a signed 64-bit number.
pub open spec fn as_signed(v: u64) -> int {
    if v < 0x8000_0000_0000_0000 {
        v as int
    } else {
        v - 0x1_0000_0000_0000_0000
    }
}

/// The low 32 bits of a register value.
pub open spec fn low32(v: u64) -> u64 {
    v % 0x1_0000_0000
}

/// The 32-bit arithmetic right shift of the low word of `v`, as a 32-bit
/// bit pattern.
pub open spec fn sra32(v: u64, sh: u64) -> u64
    recommends
        sh < 32,
{
    ((((v as u32) as i32) >> sh) as u32) as u64
}

/// The address a load or store touches: base register plus sign-extended
/// offset, modular.
pub open spec fn eff_addr(regs: Seq<u64>, rs1: u8, imm: u64) -> u64 {
    regs[rs1 as int].wrapping_add(imm)
}

/// Every byte the instruction would load or store lies inside memory.
/// Only loads and stores constrain anything; a violation is a fatal
/// host/loader fault, distinct from every `VmExit`.
pub open spec fn access_ok(i: Instruction, regs: Seq<u64>, mem: Seq<u8>) -> bool {
    match i {
        Instruction::Lb(it) => eff_addr(regs, it.rs1, it.imm) + 1 <= mem.len(),
        Instruction::Lh(it) => eff_addr(regs, it.rs1, it.imm) + 2 <= mem.len(),
        Instruction::Lw(it) => eff_addr(regs, it.rs1, it.imm) + 4 <= mem.len(),
        Instruction::Ld(it) => eff_addr(regs, it.rs1, it.imm) + 8 <= mem.len(),
        Instruction::Lbu(it) => eff_addr(regs, it.rs1, it.imm) + 1 <= mem.len(),
        Instruction::Lhu(it) => eff_addr(regs, it.rs1, it.imm) + 2 <= mem.len(),
        Instruction::Lwu(it) => eff_addr(regs, it.rs1, it.imm) + 4 <= mem.len(),
        Instruction::Sb(s) => eff_addr(regs, s.rs1, s.imm) + 1 <= mem.len(),
        Instruction::Sh(s) => eff_addr(regs, s.rs1, s.imm) + 2 <= mem.len(),
        Instruction::Sw(s) => eff_addr(regs, s.rs1, s.imm) + 4 <= mem.len(),
        Instruction::Sd(s) => eff_addr(regs, s.rs1, s.imm) + 8 <= mem.len(),
        _ => true,
    }
}

/// The register file after a taken-or-not branch: on a taken branch the
/// program counter gets the target pre-biased by −4, otherwise nothing
/// changes.
pub open spec fn branch_to(regs: Seq<u64>, imm: u64, taken: bool) -> Seq<u64> {
    if taken {
        set_reg(
            regs,
            REG_PC as int,
            regs[REG_PC as int].wrapping_add(imm).wrapping_sub(4),
        )
    } else {
        regs
    }
}

/// What executing one decoded instruction does to the architectural
/// state: the next (registers, memory), or the `VmExit` it raises. The
/// program counter is whatever slot `REG_PC` holds; the step loop's
/// unconditional advance of 4 is not included here.
pub open spec fn exec_result(i: Instruction, regs: Seq<u64>, mem: Seq<u8>) -> Result<
    (Seq<u64>, Seq<u8>),
    VmExit,
> {
    let pc = regs[REG_PC as int];
    match i {
        Instruction::Lui(u) => Ok((set_reg(regs, u.rd as int, u.imm), mem)),
        Instruction::Auipc(u) => Ok((set_reg(regs, u.rd as int, pc.wrapping_add(u.imm)), mem)),
        Instruction::Jal(j) => Ok(
            (
                set_reg(
                    set_reg(regs, j.rd as int, pc.wrapping_add(4)),
                    REG_PC as int,
                    pc.wrapping_add(j.imm).wrapping_sub(4),
                ),
                mem,
            ),
        ),
        Instruction::Jalr(it) => Ok(
            (
                set_reg(
                    set_reg(regs, it.rd as int, pc.wrapping_add(4)),
                    REG_PC as int,
                    regs[it.rs1 as int].wrapping_add(it.imm).wrapping_sub(4),
                ),
                mem,
            ),
        ),
        Instruction::Beq(b) => Ok(
            (branch_to(regs, b.imm, regs[b.rs1 as int] == regs[b.rs2 as int]), mem),
        ),
        Instruction::Bne(b) => Ok(
            (branch_to(regs, b.imm, regs[b.rs1 as int] != regs[b.rs2 as int]), mem),
        ),
        Instruction::Blt(b) => Ok(
            (
                branch_to(
                    regs,
                    b.imm,
                    as_signed(regs[b.rs1 as int]) < as_signed(regs[b.rs2 as int]),
                ),
                mem,
            ),
        ),
        Instruction::Bge(b) => Ok(
            (
                branch_to(
                    regs,
                    b.imm,
                    as_signed(regs[b.rs1 as int]) >= as_signed(regs[b.rs2 as int]),
                ),
                mem,
            ),
        ),
        Instruction::Bltu(b) => Ok(
            (branch_to(regs, b.imm, regs[b.rs1 as int] < regs[b.rs2 as int]), mem),
        ),
        Instruction::Bgeu(b) => Ok(
            (branch_to(regs, b.imm, regs[b.rs1 as int] >= regs[b.rs2 as int]), mem),
        ),
        Instruction::Lb(it) => Ok(
            (
                set_reg(
                    regs,
                    it.rd as int,
                    sext8(mem[eff_addr(regs, it.rs1, it.imm) as int] as u64),
                ),
                mem,
            ),
        ),
        Instruction::Lh(it) => Ok(
            (
                set_reg(
                    regs,
                    it.rd as int,
                    sext16(u16_le_at(mem, eff_addr(regs, it.rs1, it.imm) as int) as u64),
                ),
                mem,
            ),
        ),
        Instruction::Lw(it) => Ok(
            (
                set_reg(
                    regs,
                    it.rd as int,
                    sext32(u32_le_at(mem, eff_addr(regs, it.rs1, it.imm) as int) as u64),
                ),
                mem,
            ),
        ),
        Instruction::Ld(it) => Ok(
            (
                set_reg(regs, it.rd as int, u64_le_at(mem, eff_addr(regs, it.rs1, it.imm) as int)),
                mem,
            ),
        ),
        Instruction::Lbu(it) => Ok(
            (
                set_reg(regs, it.rd as int, mem[eff_addr(regs, it.rs1, it.imm) as int] as u64),
                mem,
            ),
        ),
        Instruction::Lhu(it) => Ok(
            (
                set_reg(
                    regs,
                    it.rd as int,
                    u16_le_at(mem, eff_addr(regs, it.rs1, it.imm) as int) as u64,
                ),
                mem,
            ),
        ),
        Instruction::Lwu(it) => Ok(
            (
                set_reg(
                    regs,
                    it.rd as int,
                    u32_le_at(mem, eff_addr(regs, it.rs1, it.imm) as int) as u64,
                ),
                mem,
            ),
        ),
        Instruction::Sb(s) => Ok(
            (regs, store_u8_le(mem, eff_addr(regs, s.rs1, s.imm) as int, regs[s.rs2 as int])),
        ),
        Instruction::Sh(s) => Ok(
            (regs, store_u16_le(mem, eff_addr(regs, s.rs1, s.imm) as int, regs[s.rs2 as int])),
        ),
        Instruction::Sw(s) => Ok(
            (regs, store_u32_le(mem, eff_addr(regs, s.rs1, s.imm) as int, regs[s.rs2 as int])),
        ),
        Instruction::Sd(s) => Ok(
            (regs, store_u64_le(mem, eff_addr(regs, s.rs1, s.imm) as int, regs[s.rs2 as int])),
        ),
        Instruction::Addi(it) => Ok(
            (set_reg(regs, it.rd as int, regs[it.rs1 as int].wrapping_add(it.imm)), mem),
        ),
        Instruction::Slti(it) => Ok(
            (
                set_reg(
                    regs,
                    it.rd as int,
                    if as_signed(regs[it.rs1 as int]) < as_signed(it.imm) {
                        1u64
                    } else {
                        0u64
                    },
                ),
                mem,
            ),
        ),
        Instruction::Sltiu(it) => Ok(
            (
                set_reg(
                    regs,
                    it.rd as int,
                    if regs[it.rs1 as int] < it.imm {
                        1u64
                    } else {
                        0u64
                    },
                ),
                mem,
            ),
        ),
        Instruction::Xori(it) => Ok(
            (set_reg(regs, it.rd as int, regs[it.rs1 as int] ^ it.imm), mem),
        ),
        Instruction::Ori(it) => Ok(
            (set_reg(regs, it.rd as int, regs[it.rs1 as int] | it.imm), mem),
        ),
        Instruction::Andi(it) => Ok(
            (set_reg(regs, it.rd as int, regs[it.rs1 as int] & it.imm), mem),
        ),
        Instruction::Slli(sh) => Ok(
            (set_reg(regs, sh.rd as int, regs[sh.rs1 as int] << (sh.shamt as u64)), mem),
        ),
        Instruction::Srli(sh) => Ok(
            (set_reg(regs, sh.rd as int, regs[sh.rs1 as int] >> (sh.shamt as u64)), mem),
        ),
        Instruction::Srai(sh) => Ok(
            (
                set_reg(
                    regs,
                    sh.rd as int,
                    (((regs[sh.rs1 as int] as i64) >> (sh.shamt as u64)) as u64),
                ),
                mem,
            ),
        ),
        Instruction::Add(r) => Ok(
            (
                set_reg(regs, r.rd as int, regs[r.rs1 as int].wrapping_add(regs[r.rs2 as int])),
                mem,
            ),
        ),
        Instruction::Sub(r) => Ok(
            (
                set_reg(regs, r.rd as int, regs[r.rs1 as int].wrapping_sub(regs[r.rs2 as int])),
                mem,
            ),
        ),
        Instruction::Sll(r) => Ok(
            (
                set_reg(regs, r.rd as int, regs[r.rs1 as int] << (regs[r.rs2 as int] % 64)),
                mem,
            ),
        ),
        Instruction::Slt(r) => Ok(
            (
                set_reg(
                    regs,
                    r.rd as int,
                    if as_signed(regs[r.rs1 as int]) < as_signed(regs[r.rs2 as int]) {
                        1u64
                    } else {
                        0u64
                    },
                ),
                mem,
            ),
        ),
        Instruction::Sltu(r) => Ok(
            (
                set_reg(
                    regs,
                    r.rd as int,
                    if regs[r.rs1 as int] < regs[r.rs2 as int] {
                        1u64
                    } else {
                        0u64
                    },
                ),
                mem,
            ),
        ),
        Instruction::Xor(r) => Ok(
            (set_reg(regs, r.rd as int, regs[r.rs1 as int] ^ regs[r.rs2 as int]), mem),
        ),
        Instruction::Srl(r) => Ok(
            (
                set_reg(regs, r.rd as int, regs[r.rs1 as int] >> (regs[r.rs2 as int] % 64)),
                mem,
            ),
        ),
        Instruction::Sra(r) => Ok(
            (
                set_reg(
                    regs,
                    r.rd as int,
                    (((regs[r.rs1 as int] as i64) >> (regs[r.rs2 as int] % 64)) as u64),
                ),
                mem,
            ),
        ),
        Instruction::Or(r) => Ok(
            (set_reg(regs, r.rd as int, regs[r.rs1 as int] | regs[r.rs2 as int]), mem),
        ),
        Instruction::And(r) => Ok(
            (set_reg(regs, r.rd as int, regs[r.rs1 as int] & regs[r.rs2 as int]), mem),
        ),
        Instruction::Ecall => Err(VmExit::Syscall),
        Instruction::Ebreak => Err(VmExit::NotImpl),
        Instruction::Addiw(it) => Ok(
            (
                set_reg(
                    regs,
                    it.rd as int,
                    sext32(low32(regs[it.rs1 as int].wrapping_add(it.imm))),
                ),
                mem,
            ),
        ),
        Instruction::Slliw(sh) => Ok(
            (
                set_reg(
                    regs,
                    sh.rd as int,
                    sext32(low32(low32(regs[sh.rs1 as int]) << ((sh.shamt as u64) % 32))),
                ),
                mem,
            ),
        ),
        Instruction::Srliw(sh) => Ok(
            (
                set_reg(
                    regs,
                    sh.rd as int,
                    sext32(low32(regs[sh.rs1 as int]) >> ((sh.shamt as u64) % 32)),
                ),
                mem,
            ),
        ),
        Instruction::Sraiw(sh) => Ok(
            (
                set_reg(
                    regs,
                    sh.rd as int,
                    sext32(sra32(regs[sh.rs1 as int], (sh.shamt as u64) % 32)),
                ),
                mem,
            ),
        ),
        Instruction::Addw(r) => Ok(
            (
                set_reg(
                    regs,
                    r.rd as int,
                    sext32(low32(regs[r.rs1 as int].wrapping_add(regs[r.rs2 as int]))),
                ),
                mem,
            ),
        ),
        Instruction::Subw(r) => Ok(
            (
                set_reg(
                    regs,
                    r.rd as int,
                    sext32(low32(regs[r.rs1 as int].wrapping_sub(regs[r.rs2 as int]))),
                ),
                mem,
            ),
        ),
        Instruction::Sllw(r) => Ok(
            (
                set_reg(
                    regs,
                    r.rd as int,
                    sext32(low32(low32(regs[r.rs1 as int]) << (regs[r.rs2 as int] % 32))),
                ),
                mem,
            ),
        ),
        Instruction::Srlw(r) => Ok(
            (
                set_reg(
                    regs,
                    r.rd as int,
                    sext32(low32(regs[r.rs1 as int]) >> (regs[r.rs2 as int] % 32)),
                ),
                mem,
            ),
        ),
        Instruction::Sraw(r) => Ok(
            (
                set_reg(
                    regs,
                    r.rd as int,
                    sext32(sra32(regs[r.rs1 as int], regs[r.rs2 as int] % 32)),
                ),
                mem,
            ),
        ),
    }
}

/// One whole step of the machine, as contracts see it: fetch the word at
/// the program counter, decode it, execute it, then advance the program
/// counter by 4. Every failing stage returns its `VmExit` with the state
/// untouched.
pub open spec fn spec_step(regs: Seq<u64>, mem: Seq<u8>) -> Result<(Seq<u64>, Seq<u8>), VmExit> {
    let w = u32_le_at(mem, regs[REG_PC as int] as int);
    match spec_decode(w) {
        None => Err(VmExit::InvalidOpcode(w)),
        Some(i) => match exec_result(i, regs, mem) {
            Err(e) => Err(e),
            Ok((regs2, mem2)) => Ok(
                (regs2.update(REG_PC as int, regs2[REG_PC as int].wrapping_add(4)), mem2),
            ),
        },
    }
}

/// Signed comparison of two register values, computed by biasing both
/// into unsigned order.
fn signed_lt(a: u64, b: u64) -> (r: bool)
    ensures
        r == (as_signed(a) < as_signed(b)),
{
    a.wrapping_add(0x8000_0000_0000_0000) < b.wrapping_add(0x8000_0000_0000_0000)
}

/// Runs one decoded instruction against the machine, realizing
/// `exec_result` exactly: the same register and memory effects on
/// success, the same `VmExit` and an untouched state on failure.
pub fn execute(i: &Instruction, m: &mut Machine) -> (r: Result<(), VmExit>)
    requires
        old(m).wf(),
        i.wf(),
        access_ok(*i, old(m).regs(), old(m).mem()),
    ensures
        final(m).wf(),
        match exec_result(*i, old(m).regs(), old(m).mem()) {
            Ok((regs2, mem2)) => r == Ok::<(), VmExit>(()) && final(m).regs() == regs2
                && final(m).mem() == mem2,
            Err(e) => r == Err::<(), VmExit>(e) && final(m).regs() == old(m).regs()
                && final(m).mem() == old(m).mem(),
        },
        final(m).cursor() == old(m).cursor(),
        final(m).entry() == old(m).entry(),
{
    proof {
        m.lemma_mem_fits();
    }
    match *i {
        Instruction::Lui(u) => m.set_r(u.rd, u.imm),
        Instruction::Auipc(u) => {
            let pc = m.get_r(REG_PC);
            m.set_r(u.rd, pc.wrapping_add(u.imm))
        },
        Instruction::Jal(j) => {
            let pc = m.get_r(REG_PC);
            match m.set_r(j.rd, pc.wrapping_add(4)) {
                Ok(()) => {},
                Err(e) => {
                    return Err(e);
                },
            }
            m.set_r(REG_PC, pc.wrapping_add(j.imm).wrapping_sub(4))
        },
        Instruction::Jalr(it) => {
            let pc = m.get_r(REG_PC);
            let target = m.get_r(it.rs1).wrapping_add(it.imm).wrapping_sub(4);
            match m.set_r(it.rd, pc.wrapping_add(4)) {
                Ok(()) => {},
                Err(e) => {
                    return Err(e);
                },
            }
            m.set_r(REG_PC, target)
        },
        Instruction::Beq(b) => {
            let t = m.get_r(REG_PC).wrapping_add(b.imm).wrapping_sub(4);
            if m.get_r(b.rs1) == m.get_r(b.rs2) {
                m.set_r(REG_PC, t)
            } else {
                Ok(())
            }
        },
        Instruction::Bne(b) => {
            let t = m.get_r(REG_PC).wrapping_add(b.imm).wrapping_sub(4);
            if m.get_r(b.rs1) != m.get_r(b.rs2) {
                m.set_r(REG_PC, t)
            } else {
                Ok(())
            }
        },
        Instruction::Blt(b) => {
            let t = m.get_r(REG_PC).wrapping_add(b.imm).wrapping_sub(4);
            if signed_lt(m.get_r(b.rs1), m.get_r(b.rs2)) {
                m.set_r(REG_PC, t)
            } else {
                Ok(())
            }
        },
        Instruction::Bge(b) => {
            let t = m.get_r(REG_PC).wrapping_add(b.imm).wrapping_sub(4);
            if !signed_lt(m.get_r(b.rs1), m.get_r(b.rs2)) {
                m.set_r(REG_PC, t)
            } else {
                Ok(())
            }
        },
        Instruction::Bltu(b) => {
            let t = m.get_r(REG_PC).wrapping_add(b.imm).wrapping_sub(4);
            if m.get_r(b.rs1) < m.get_r(b.rs2) {
                m.set_r(REG_PC, t)
            } else {
                Ok(())
            }
        },
        Instruction::Bgeu(b) => {
            let t = m.get_r(REG_PC).wrapping_add(b.imm).wrapping_sub(4);
            if m.get_r(b.rs1) >= m.get_r(b.rs2) {
                m.set_r(REG_PC, t)
            } else {
                Ok(())
            }
        },
        Instruction::Lb(it) => {
            let a = m.get_r(it.rs1).wrapping_add(it.imm);
            let b = m.mem_read_u8(VirtAddr(a as usize));
            let v = if (b as u64) < 0x80 {
                b as u64
            } else {
                b as u64 + 0xFFFF_FFFF_FFFF_FF00
            };
            m.set_r(it.rd, v)
        },
        Instruction::Lh(it) => {
            let a = m.get_r(it.rs1).wrapping_add(it.imm);
            let h = m.mem_read_u16(VirtAddr(a as usize));
            let v = if (h as u64) < 0x8000 {
                h as u64
            } else {
                h as u64 + 0xFFFF_FFFF_FFFF_0000
            };
            m.set_r(it.rd, v)
        },
        Instruction::Lw(it) => {
            let a = m.get_r(it.rs1).wrapping_add(it.imm);
            let w = m.mem_read_u32(VirtAddr(a as usize));
            let v = if (w as u64) < 0x8000_0000 {
                w as u64
            } else {
                w as u64 + 0xFFFF_FFFF_0000_0000
            };
            m.set_r(it.rd, v)
        },
        Instruction::Ld(it) => {
            let a = m.get_r(it.rs1).wrapping_add(it.imm);
            let v = m.mem_read_u64(VirtAddr(a as usize));
            m.set_r(it.rd, v)
        },
        Instruction::Lbu(it) => {
            let a = m.get_r(it.rs1).wrapping_add(it.imm);
            let b = m.mem_read_u8(VirtAddr(a as usize));
            m.set_r(it.rd, b as u64)
        },
        Instruction::Lhu(it) => {
            let a = m.get_r(it.rs1).wrapping_add(it.imm);
            let h = m.mem_read_u16(VirtAddr(a as usize));
            m.set_r(it.rd, h as u64)
        },
        Instruction::Lwu(it) => {
            let a = m.get_r(it.rs1).wrapping_add(it.imm);
            let w = m.mem_read_u32(VirtAddr(a as usize));
            m.set_r(it.rd, w as u64)
        },
        Instruction::Sb(s) => {
            let a = m.get_r(s.rs1).wrapping_add(s.imm);
            let v = m.get_r(s.rs2);
            m.mem_write_u8(VirtAddr(a as usize), v);
            Ok(())
        },
        Instruction::Sh(s) => {
            let a = m.get_r(s.rs1).wrapping_add(s.imm);
            let v = m.get_r(s.rs2);
            m.mem_write_u16(VirtAddr(a as usize), v);
            Ok(())
        },
        Instruction::Sw(s) => {
            let a = m.get_r(s.rs1).wrapping_add(s.imm);
            let v = m.get_r(s.rs2);
            m.mem_write_u32(VirtAddr(a as usize), v);
            Ok(())
        },
        Instruction::Sd(s) => {
            let a = m.get_r(s.rs1).wrapping_add(s.imm);
            let v = m.get_r(s.rs2);
            m.mem_write_u64(VirtAddr(a as usize), v);
            Ok(())
        },
        Instruction::Addi(it) => {
            let v = m.get_r(it.rs1).wrapping_add(it.imm);
            m.set_r(it.rd, v)
        },
        Instruction::Slti(it) => {
            let v: u64 = if signed_lt(m.get_r(it.rs1), it.imm) {
                1
            } else {
                0
            };
            m.set_r(it.rd, v)
        },
        Instruction::Sltiu(it) => {
            let v: u64 = if m.get_r(it.rs1) < it.imm {
                1
            } else {
                0
            };
            m.set_r(it.rd, v)
        },
        Instruction::Xori(it) => {
            let v = m.get_r(it.rs1) ^ it.imm;
            m.set_r(it.rd, v)
        },
        Instruction::Ori(it) => {
            let v = m.get_r(it.rs1) | it.imm;
            m.set_r(it.rd, v)
        },
        Instruction::Andi(it) => {
            let v = m.get_r(it.rs1) & it.imm;
            m.set_r(it.rd, v)
        },
        Instruction::Slli(sh) => {
            let v = m.get_r(sh.rs1) << (sh.shamt as u64);
            m.set_r(sh.rd, v)
        },
        Instruction::Srli(sh) => {
            let v = m.get_r(sh.rs1) >> (sh.shamt as u64);
            m.set_r(sh.rd, v)
        },
        Instruction::Srai(sh) => {
            let v = ((m.get_r(sh.rs1) as i64) >> (sh.shamt as u64)) as u64;
            m.set_r(sh.rd, v)
        },
        Instruction::Add(r) => {
            let v = m.get_r(r.rs1).wrapping_add(m.get_r(r.rs2));
            m.set_r(r.rd, v)
        },
        Instruction::Sub(r) => {
            let v = m.get_r(r.rs1).wrapping_sub(m.get_r(r.rs2));
            m.set_r(r.rd, v)
        },
        Instruction::Sll(r) => {
            let v = m.get_r(r.rs1) << (m.get_r(r.rs2) % 64);
            m.set_r(r.rd, v)
        },
        Instruction::Slt(r) => {
            let v: u64 = if signed_lt(m.get_r(r.rs1), m.get_r(r.rs2)) {
                1
            } else {
                0
            };
            m.set_r(r.rd, v)
        },
        Instruction::Sltu(r) => {
            let v: u64 = if m.get_r(r.rs1) < m.get_r(r.rs2) {
                1
            } else {
                0
            };
            m.set_r(r.rd, v)
        },
        Instruction::Xor(r) => {
            let v = m.get_r(r.rs1) ^ m.get_r(r.rs2);
            m.set_r(r.rd, v)
        },
        Instruction::Srl(r) => {
            let v = m.get_r(r.rs1) >> (m.get_r(r.rs2) % 64);
            m.set_r(r.rd, v)
        },
        Instruction::Sra(r) => {
            let v = ((m.get_r(r.rs1) as i64) >> (m.get_r(r.rs2) % 64)) as u64;
            m.set_r(r.rd, v)
        },
        Instruction::Or(r) => {
            let v = m.get_r(r.rs1) | m.get_r(r.rs2);
            m.set_r(r.rd, v)
        },
        Instruction::And(r) => {
            let v = m.get_r(r.rs1) & m.get_r(r.rs2);
            m.set_r(r.rd, v)
        },
        Instruction::Ecall => Err(VmExit::Syscall),
        Instruction::Ebreak => Err(VmExit::NotImpl),
        Instruction::Addiw(it) => {
            let s = m.get_r(it.rs1).wrapping_add(it.imm) % 0x1_0000_0000;
            let v = if s < 0x8000_0000 {
                s
            } else {
                s + 0xFFFF_FFFF_0000_0000
            };
            m.set_r(it.rd, v)
        },
        Instruction::Slliw(sh) => {
            let s = ((m.get_r(sh.rs1) % 0x1_0000_0000) << ((sh.shamt as u64) % 32))
                % 0x1_0000_0000;
            let v = if s < 0x8000_0000 {
                s
            } else {
                s + 0xFFFF_FFFF_0000_0000
            };
            m.set_r(sh.rd, v)
        },
        Instruction::Srliw(sh) => {
            let lo = m.get_r(sh.rs1) % 0x1_0000_0000;
            let k = (sh.shamt as u64) % 32;
            let s = lo >> k;
            proof {
                assert(s < 0x1_0000_0000) by (bit_vector)
                    requires
                        lo < 0x1_0000_0000,
                        s == lo >> k,
                ;
            }
            let v = if s < 0x8000_0000 {
                s
            } else {
                s + 0xFFFF_FFFF_0000_0000
            };
            m.set_r(sh.rd, v)
        },
        Instruction::Sraiw(sh) => {
            let s = ((((m.get_r(sh.rs1) as u32) as i32) >> ((sh.shamt as u64) % 32)) as u32)
                as u64;
            let v = if s < 0x8000_0000 {
                s
            } else {
                s + 0xFFFF_FFFF_0000_0000
            };
            m.set_r(sh.rd, v)
        },
        Instruction::Addw(r) => {
            let s = m.get_r(r.rs1).wrapping_add(m.get_r(r.rs2)) % 0x1_0000_0000;
            let v = if s < 0x8000_0000 {
                s
            } else {
                s + 0xFFFF_FFFF_0000_0000
            };
            m.set_r(r.rd, v)
        },
        Instruction::Subw(r) => {
            let s = m.get_r(r.rs1).wrapping_sub(m.get_r(r.rs2)) % 0x1_0000_0000;
            let v = if s < 0x8000_0000 {
                s
            } else {
                s + 0xFFFF_FFFF_0000_0000
            };
            m.set_r(r.rd, v)
        },
        Instruction::Sllw(r) => {
            let s = ((m.get_r(r.rs1) % 0x1_0000_0000) << (m.get_r(r.rs2) % 32)) % 0x1_0000_0000;
            let v = if s < 0x8000_0000 {
                s
            } else {
                s + 0xFFFF_FFFF_0000_0000
            };
            m.set_r(r.rd, v)
        },
        Instruction::Srlw(r) => {
            let lo = m.get_r(r.rs1) % 0x1_0000_0000;
            let k = m.get_r(r.rs2) % 32;
            let s = lo >> k;
            proof {
                assert(s < 0x1_0000_0000) by (bit_vector)
                    requires
                        lo < 0x1_0000_0000,
                        s == lo >> k,
                ;
            }
            let v = if s < 0x8000_0000 {
                s
            } else {
                s + 0xFFFF_FFFF_0000_0000
            };
            m.set_r(r.rd, v)
        },
        Instruction::Sraw(r) => {
            let s = ((((m.get_r(r.rs1) as u32) as i32) >> (m.get_r(r.rs2) % 32)) as u32) as u64;
            let v = if s < 0x8000_0000 {
                s
            } else {
                s + 0xFFFF_FFFF_0000_0000
            };
            m.set_r(r.rd, v)
        },
    }
}

} // verus!
