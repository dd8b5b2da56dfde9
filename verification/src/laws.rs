//! Laws the core obeys, proved over the same spec functions its contracts
//! use: the zero register stays zero, the dispatcher rejects everything
//! outside its table, stored values are read back exactly, and an ECALL
//! suspends the machine without moving it.
use vstd::prelude::*;

use crate::decode::spec_decode;
use crate::decode::supported_opcode;
use crate::decode::Instruction;
use crate::engine::access_ok;
use crate::engine::eff_addr;
use crate::engine::exec_result;
use crate::engine::low32;
use crate::engine::spec_step;
use crate::formats::sext32;
use crate::formats::Itype;
use crate::formats::Stype;
use crate::machine::VmExit;
use crate::machine::REG_PC;
use crate::mmu::store_u16_le;
use crate::mmu::store_u32_le;
use crate::mmu::store_u64_le;
use crate::mmu::store_u8_le;
use crate::mmu::u16_le_at;
use crate::mmu::u32_le_at;
use crate::mmu::u64_le_at;

verus! {

/// Whatever instruction executes, and whatever it computes, the zero
/// register still reads 0 afterwards: every write to slot 0 is discarded.
pub proof fn lemma_register_zero_preserved(i: Instruction, regs: Seq<u64>, mem: Seq<u8>)
    requires
        i.wf(),
        regs.len() == 33,
        regs[0] == 0,
    ensures
        match exec_result(i, regs, mem) {
            Ok((regs2, mem2)) => regs2.len() == 33 && regs2[0] == 0,
            Err(_) => true,
        },
{
}

/// The zero register also survives a whole step, the program-counter
/// advance included.
pub proof fn lemma_step_register_zero(regs: Seq<u64>, mem: Seq<u8>)
    requires
        regs.len() == 33,
        regs[0] == 0,
    ensures
        match spec_step(regs, mem) {
            Ok((regs2, mem2)) => regs2.len() == 33 && regs2[0] == 0,
            Err(_) => true,
        },
{
    let w = u32_le_at(mem, regs[REG_PC as int] as int);
    if let Some(i) = spec_decode(w) {
        crate::decode::lemma_decode_wf(w);
        lemma_register_zero_preserved(i, regs, mem);
    }
}

/// Executing any instruction never grows or shrinks the state: the
/// register file keeps its 33 slots and the memory its size.
pub proof fn lemma_exec_preserves_shape(i: Instruction, regs: Seq<u64>, mem: Seq<u8>)
    requires
        i.wf(),
        regs.len() == 33,
        access_ok(i, regs, mem),
    ensures
        match exec_result(i, regs, mem) {
            Ok((regs2, mem2)) => regs2.len() == 33 && mem2.len() == mem.len(),
            Err(_) => true,
        },
{
}

/// So does a whole step, the program-counter advance included: a run can
/// keep stepping.
pub proof fn lemma_step_preserves_shape(regs: Seq<u64>, mem: Seq<u8>)
    requires
        regs.len() == 33,
        match spec_decode(u32_le_at(mem, regs[REG_PC as int] as int)) {
            Some(i) => access_ok(i, regs, mem),
            None => true,
        },
    ensures
        match spec_step(regs, mem) {
            Ok((regs2, mem2)) => regs2.len() == 33 && mem2.len() == mem.len(),
            Err(_) => true,
        },
{
    let w = u32_le_at(mem, regs[REG_PC as int] as int);
    if let Some(i) = spec_decode(w) {
        crate::decode::lemma_decode_wf(w);
        lemma_exec_preserves_shape(i, regs, mem);
    }
}

/// A word whose opcode is outside the dispatch table never decodes: there
/// is no silent default route.
pub proof fn lemma_unknown_opcode_rejected(w: u32)
    requires
        !supported_opcode(w % 0x80),
    ensures
        spec_decode(w) is None,
{
}

/// Conversely, everything that decodes came through a table opcode.
pub proof fn lemma_decoded_opcode_supported(w: u32)
    ensures
        spec_decode(w) is Some ==> supported_opcode(w % 0x80),
{
}

/// Reading a stored byte back: the low byte of what was written.
pub proof fn lemma_store_u8_round_trip(mem: Seq<u8>, a: int, v: u64)
    requires
        0 <= a,
        a + 1 <= mem.len(),
    ensures
        store_u8_le(mem, a, v)[a] == (v % 0x100) as u8,
{
}

/// Reading a stored 16-bit value back: the low 16 bits of what was
/// written.
pub proof fn lemma_store_u16_round_trip(mem: Seq<u8>, a: int, v: u64)
    requires
        0 <= a,
        a + 2 <= mem.len(),
    ensures
        u16_le_at(store_u16_le(mem, a, v), a) == (v % 0x1_0000) as u16,
{
    assert(v % 0x100 + ((v / 0x100) % 0x100) * 0x100 == v % 0x1_0000) by (bit_vector);
}

/// Reading a stored 32-bit value back: the low 32 bits of what was
/// written.
pub proof fn lemma_store_u32_round_trip(mem: Seq<u8>, a: int, v: u64)
    requires
        0 <= a,
        a + 4 <= mem.len(),
    ensures
        u32_le_at(store_u32_le(mem, a, v), a) == (v % 0x1_0000_0000) as u32,
{
    assert(v % 0x100 + ((v / 0x100) % 0x100) * 0x100 + ((v / 0x1_0000) % 0x100) * 0x1_0000 + ((v
        / 0x100_0000) % 0x100) * 0x100_0000 == v % 0x1_0000_0000) by (bit_vector);
}

/// Reading a stored 64-bit value back: exactly what was written.
pub proof fn lemma_store_u64_round_trip(mem: Seq<u8>, a: int, v: u64)
    requires
        0 <= a,
        a + 8 <= mem.len(),
    ensures
        u64_le_at(store_u64_le(mem, a, v), a) == v,
{
    assert(v % 0x100 + ((v / 0x100) % 0x100) * 0x100 + ((v / 0x1_0000) % 0x100) * 0x1_0000 + ((v
        / 0x100_0000) % 0x100) * 0x100_0000 + ((v / 0x1_0000_0000) % 0x100) * 0x1_0000_0000 + ((v
        / 0x100_0000_0000) % 0x100) * 0x100_0000_0000 + ((v / 0x1_0000_0000_0000) % 0x100)
        * 0x1_0000_0000_0000 + ((v / 0x100_0000_0000_0000) % 0x100) * 0x100_0000_0000_0000
        == v) by (bit_vector);
}

/// A 32-bit store then a 32-bit load of the same effective address puts
/// the sign-extension of the stored register's low 32 bits in the load's
/// destination — for any register contents and any memory in bounds.
pub proof fn lemma_store_load_round_trip(regs: Seq<u64>, mem: Seq<u8>, s: Stype, l: Itype)
    requires
        regs.len() == 33,
        s.wf(),
        l.wf(),
        l.rs1 == s.rs1,
        l.imm == s.imm,
        l.rd != 0,
        eff_addr(regs, s.rs1, s.imm) + 4 <= mem.len(),
    ensures
        exec_result(Instruction::Sw(s), regs, mem) matches Ok((regs1, mem1)) && exec_result(
            Instruction::Lw(l),
            regs1,
            mem1,
        ) matches Ok((regs2, mem2)) && regs2[l.rd as int] == sext32(low32(regs[s.rs2 as int])),
{
    let a = eff_addr(regs, s.rs1, s.imm) as int;
    let v = regs[s.rs2 as int];
    lemma_store_u32_round_trip(mem, a, v);
}

/// Stepping onto an ECALL raises the syscall trap; with `step`'s
/// contract, which leaves the state untouched on every exit, the program
/// counter stays on the ECALL itself.
pub proof fn lemma_ecall_suspends(regs: Seq<u64>, mem: Seq<u8>)
    requires
        spec_decode(u32_le_at(mem, regs[REG_PC as int] as int)) == Some(Instruction::Ecall),
    ensures
        spec_step(regs, mem) == Err::<(Seq<u64>, Seq<u8>), VmExit>(VmExit::Syscall),
{
}

} // verus!

