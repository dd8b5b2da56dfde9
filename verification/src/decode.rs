//! The decoder/dispatcher: maps a raw 32-bit instruction word to one of the
//! RV64I instruction variants by its 7-bit opcode, then by `funct3` and,
//! where mnemonics overload `funct3`, by the secondary `funct7`/mode field.
//! Every bit pattern outside the dispatch table is rejected as
//! `InvalidOpcode` — never routed to a silent default.
use vstd::prelude::*;

use crate::formats::Btype;
use crate::formats::Itype;
use crate::formats::ItypeShift;
use crate::formats::Jtype;
use crate::formats::Rtype;
use crate::formats::Stype;
use crate::formats::Utype;
use crate::machine::VmExit;

verus! {

/// One decoded instruction: a closed tagged variant over every RV64I
/// opcode this core knows, each holding its format's fields.
#[derive(Clone, Copy, Debug, PartialEq, Eq, Structural)]
pub enum Instruction {
    Lui(Utype),
    Auipc(Utype),
    Jal(Jtype),
    Jalr(Itype),
    Beq(Btype),
    Bne(Btype),
    Blt(Btype),
    Bge(Btype),
    Bltu(Btype),
    Bgeu(Btype),
    Lb(Itype),
    Lh(Itype),
    Lw(Itype),
    Lbu(Itype),
    Lhu(Itype),
    Lwu(Itype),
    Ld(Itype),
    Sb(Stype),
    Sh(Stype),
    Sw(Stype),
    Sd(Stype),
    Addi(Itype),
    Slti(Itype),
    Sltiu(Itype),
    Xori(Itype),
    Ori(Itype),
    Andi(Itype),
    Slli(ItypeShift),
    Srli(ItypeShift),
    Srai(ItypeShift),
    Add(Rtype),
    Sub(Rtype),
    Sll(Rtype),
    Slt(Rtype),
    Sltu(Rtype),
    Xor(Rtype),
    Srl(Rtype),
    Sra(Rtype),
    Or(Rtype),
    And(Rtype),
    Ecall,
    Ebreak,
    Addiw(Itype),
    Slliw(ItypeShift),
    Srliw(ItypeShift),
    Sraiw(ItypeShift),
    Addw(Rtype),
    Subw(Rtype),
    Sllw(Rtype),
    Srlw(Rtype),
    Sraw(Rtype),
}

impl Instruction {
    /// Every register index and selector field of the carried format lies
    /// in its bit-slice's range.
    pub open spec fn wf(self) -> bool {
        match self {
            Instruction::Lui(u) => u.wf(),
            Instruction::Auipc(u) => u.wf(),
            Instruction::Jal(j) => j.wf(),
            Instruction::Jalr(i) => i.wf(),
            Instruction::Beq(b) => b.wf(),
            Instruction::Bne(b) => b.wf(),
            Instruction::Blt(b) => b.wf(),
            Instruction::Bge(b) => b.wf(),
            Instruction::Bltu(b) => b.wf(),
            Instruction::Bgeu(b) => b.wf(),
            Instruction::Lb(i) => i.wf(),
            Instruction::Lh(i) => i.wf(),
            Instruction::Lw(i) => i.wf(),
            Instruction::Lbu(i) => i.wf(),
            Instruction::Lhu(i) => i.wf(),
            Instruction::Lwu(i) => i.wf(),
            Instruction::Ld(i) => i.wf(),
            Instruction::Sb(s) => s.wf(),
            Instruction::Sh(s) => s.wf(),
            Instruction::Sw(s) => s.wf(),
            Instruction::Sd(s) => s.wf(),
            Instruction::Addi(i) => i.wf(),
            Instruction::Slti(i) => i.wf(),
            Instruction::Sltiu(i) => i.wf(),
            Instruction::Xori(i) => i.wf(),
            Instruction::Ori(i) => i.wf(),
            Instruction::Andi(i) => i.wf(),
            Instruction::Slli(s) => s.wf(),
            Instruction::Srli(s) => s.wf(),
            Instruction::Srai(s) => s.wf(),
            Instruction::Add(r) => r.wf(),
            Instruction::Sub(r) => r.wf(),
            Instruction::Sll(r) => r.wf(),
            Instruction::Slt(r) => r.wf(),
            Instruction::Sltu(r) => r.wf(),
            Instruction::Xor(r) => r.wf(),
            Instruction::Srl(r) => r.wf(),
            Instruction::Sra(r) => r.wf(),
            Instruction::Or(r) => r.wf(),
            Instruction::And(r) => r.wf(),
            Instruction::Ecall => true,
            Instruction::Ebreak => true,
            Instruction::Addiw(i) => i.wf(),
            Instruction::Slliw(s) => s.wf(),
            Instruction::Srliw(s) => s.wf(),
            Instruction::Sraiw(s) => s.wf(),
            Instruction::Addw(r) => r.wf(),
            Instruction::Subw(r) => r.wf(),
            Instruction::Sllw(r) => r.wf(),
            Instruction::Srlw(r) => r.wf(),
            Instruction::Sraw(r) => r.wf(),
        }
    }
}

/// Branch group, opcode 1100011: picked by `funct3`.
pub open spec fn spec_decode_branch(w: u32) -> Option<Instruction> {
    let b = Btype::spec_from(w);
    if b.funct3 == 0 {
        Some(Instruction::Beq(b))
    } else if b.funct3 == 1 {
        Some(Instruction::Bne(b))
    } else if b.funct3 == 4 {
        Some(Instruction::Blt(b))
    } else if b.funct3 == 5 {
        Some(Instruction::Bge(b))
    } else if b.funct3 == 6 {
        Some(Instruction::Bltu(b))
    } else if b.funct3 == 7 {
        Some(Instruction::Bgeu(b))
    } else {
        None
    }
}

/// Load group, opcode 0000011: picked by `funct3`.
pub open spec fn spec_decode_load(w: u32) -> Option<Instruction> {
    let i = Itype::spec_from(w);
    if i.funct3 == 0 {
        Some(Instruction::Lb(i))
    } else if i.funct3 == 1 {
        Some(Instruction::Lh(i))
    } else if i.funct3 == 2 {
        Some(Instruction::Lw(i))
    } else if i.funct3 == 3 {
        Some(Instruction::Ld(i))
    } else if i.funct3 == 4 {
        Some(Instruction::Lbu(i))
    } else if i.funct3 == 5 {
        Some(Instruction::Lhu(i))
    } else if i.funct3 == 6 {
        Some(Instruction::Lwu(i))
    } else {
        None
    }
}

/// Store group, opcode 0100011: picked by `funct3`.
pub open spec fn spec_decode_store(w: u32) -> Option<Instruction> {
    let s = Stype::spec_from(w);
    if s.funct3 == 0 {
        Some(Instruction::Sb(s))
    } else if s.funct3 == 1 {
        Some(Instruction::Sh(s))
    } else if s.funct3 == 2 {
        Some(Instruction::Sw(s))
    } else if s.funct3 == 3 {
        Some(Instruction::Sd(s))
    } else {
        None
    }
}

/// Immediate ALU group, opcode 0010011: picked by `funct3`; the two shift
/// codes go on to the shift-immediate sub-decoder keyed by the mode field.
pub open spec fn spec_decode_imm_alu(w: u32) -> Option<Instruction> {
    let i = Itype::spec_from(w);
    if i.funct3 == 0 {
        Some(Instruction::Addi(i))
    } else if i.funct3 == 2 {
        Some(Instruction::Slti(i))
    } else if i.funct3 == 3 {
        Some(Instruction::Sltiu(i))
    } else if i.funct3 == 4 {
        Some(Instruction::Xori(i))
    } else if i.funct3 == 6 {
        Some(Instruction::Ori(i))
    } else if i.funct3 == 7 {
        Some(Instruction::Andi(i))
    } else if i.funct3 == 1 {
        Some(Instruction::Slli(ItypeShift::spec_from(w)))
    } else {
        let sh = ItypeShift::spec_from(w);
        if sh.mode == 0 {
            Some(Instruction::Srli(sh))
        } else if sh.mode == 0x10 {
            Some(Instruction::Srai(sh))
        } else {
            None
        }
    }
}

/// Register ALU group, opcode 0110011: picked by `funct3` and `funct7`.
pub open spec fn spec_decode_reg_alu(w: u32) -> Option<Instruction> {
    let r = Rtype::spec_from(w);
    if r.funct3 == 0 && r.funct7 == 0 {
        Some(Instruction::Add(r))
    } else if r.funct3 == 0 && r.funct7 == 0x20 {
        Some(Instruction::Sub(r))
    } else if r.funct3 == 1 && r.funct7 == 0 {
        Some(Instruction::Sll(r))
    } else if r.funct3 == 2 && r.funct7 == 0 {
        Some(Instruction::Slt(r))
    } else if r.funct3 == 3 && r.funct7 == 0 {
        Some(Instruction::Sltu(r))
    } else if r.funct3 == 4 && r.funct7 == 0 {
        Some(Instruction::Xor(r))
    } else if r.funct3 == 5 && r.funct7 == 0 {
        Some(Instruction::Srl(r))
    } else if r.funct3 == 5 && r.funct7 == 0x20 {
        Some(Instruction::Sra(r))
    } else if r.funct3 == 6 && r.funct7 == 0 {
        Some(Instruction::Or(r))
    } else if r.funct3 == 7 && r.funct7 == 0 {
        Some(Instruction::And(r))
    } else {
        None
    }
}

/// System group, opcode 1110011: `funct3` 000, then the 12-bit upper field
/// tells ECALL (0) from EBREAK (1).
pub open spec fn spec_decode_system(w: u32) -> Option<Instruction> {
    if (w / 0x1000) % 8 == 0 {
        if w / 0x10_0000 == 0 {
            Some(Instruction::Ecall)
        } else if w / 0x10_0000 == 1 {
            Some(Instruction::Ebreak)
        } else {
            None
        }
    } else {
        None
    }
}

/// 32-bit-word immediate ALU group, opcode 0011011: ADDIW and the word
/// shifts, the right shifts keyed by the 7-bit mode field.
pub open spec fn spec_decode_imm_alu_word(w: u32) -> Option<Instruction> {
    let i = Itype::spec_from(w);
    if i.funct3 == 0 {
        Some(Instruction::Addiw(i))
    } else if i.funct3 == 1 {
        Some(Instruction::Slliw(ItypeShift::spec_from(w)))
    } else if i.funct3 == 5 {
        if w / 0x200_0000 == 0 {
            Some(Instruction::Srliw(ItypeShift::spec_from(w)))
        } else if w / 0x200_0000 == 0x20 {
            Some(Instruction::Sraiw(ItypeShift::spec_from(w)))
        } else {
            None
        }
    } else {
        None
    }
}

/// 32-bit-word register ALU group, opcode 0111011: picked by `funct3` and
/// `funct7`.
pub open spec fn spec_decode_reg_alu_word(w: u32) -> Option<Instruction> {
    let r = Rtype::spec_from(w);
    if r.funct3 == 0 && r.funct7 == 0 {
        Some(Instruction::Addw(r))
    } else if r.funct3 == 0 && r.funct7 == 0x20 {
        Some(Instruction::Subw(r))
    } else if r.funct3 == 1 && r.funct7 == 0 {
        Some(Instruction::Sllw(r))
    } else if r.funct3 == 5 && r.funct7 == 0 {
        Some(Instruction::Srlw(r))
    } else if r.funct3 == 5 && r.funct7 == 0x20 {
        Some(Instruction::Sraw(r))
    } else {
        None
    }
}

/// What decoding a raw word yields: the instruction its bit pattern spells,
/// or nothing when the pattern is outside the dispatch table.
pub open spec fn spec_decode(w: u32) -> Option<Instruction> {
    let opcode = w % 0x80;
    if opcode == 0x37 {
        Some(Instruction::Lui(Utype::spec_from(w)))
    } else if opcode == 0x17 {
        Some(Instruction::Auipc(Utype::spec_from(w)))
    } else if opcode == 0x6F {
        Some(Instruction::Jal(Jtype::spec_from(w)))
    } else if opcode == 0x67 {
        Some(Instruction::Jalr(Itype::spec_from(w)))
    } else if opcode == 0x63 {
        spec_decode_branch(w)
    } else if opcode == 0x03 {
        spec_decode_load(w)
    } else if opcode == 0x23 {
        spec_decode_store(w)
    } else if opcode == 0x13 {
        spec_decode_imm_alu(w)
    } else if opcode == 0x33 {
        spec_decode_reg_alu(w)
    } else if opcode == 0x73 {
        spec_decode_system(w)
    } else if opcode == 0x1B {
        spec_decode_imm_alu_word(w)
    } else if opcode == 0x3B {
        spec_decode_reg_alu_word(w)
    } else {
        None
    }
}

/// The twelve opcode values the dispatch table covers; every word whose
/// low 7 bits fall outside this set is rejected.
pub open spec fn supported_opcode(op: u32) -> bool {
    op == 0x37 || op == 0x17 || op == 0x6F || op == 0x67 || op == 0x63 || op == 0x03 || op == 0x23
        || op == 0x13 || op == 0x33 || op == 0x73 || op == 0x1B || op == 0x3B
}

/// A decoded instruction, or `InvalidOpcode` carrying the raw word.
pub open spec fn or_invalid(o: Option<Instruction>, w: u32) -> Result<Instruction, VmExit> {
    match o {
        Some(i) => Ok(i),
        None => Err(VmExit::InvalidOpcode(w)),
    }
}

/// Whatever `spec_decode` yields decodes well-formed fields.
pub proof fn lemma_decode_wf(w: u32)
    ensures
        spec_decode(w) matches Some(i) ==> i.wf(),
{
    Rtype::lemma_spec_from_wf(w);
    Itype::lemma_spec_from_wf(w);
    ItypeShift::lemma_spec_from_wf(w);
    Stype::lemma_spec_from_wf(w);
    Btype::lemma_spec_from_wf(w);
    Utype::lemma_spec_from_wf(w);
    Jtype::lemma_spec_from_wf(w);
}

fn parse_branch(w: u32) -> (r: Result<Instruction, VmExit>)
    ensures
        r == or_invalid(spec_decode_branch(w), w),
{
    let b = Btype::from(w);
    match b.funct3 {
        0 => Ok(Instruction::Beq(b)),
        1 => Ok(Instruction::Bne(b)),
        4 => Ok(Instruction::Blt(b)),
        5 => Ok(Instruction::Bge(b)),
        6 => Ok(Instruction::Bltu(b)),
        7 => Ok(Instruction::Bgeu(b)),
        _ => Err(VmExit::InvalidOpcode(w)),
    }
}

fn parse_load(w: u32) -> (r: Result<Instruction, VmExit>)
    ensures
        r == or_invalid(spec_decode_load(w), w),
{
    let i = Itype::from(w);
    match i.funct3 {
        0 => Ok(Instruction::Lb(i)),
        1 => Ok(Instruction::Lh(i)),
        2 => Ok(Instruction::Lw(i)),
        3 => Ok(Instruction::Ld(i)),
        4 => Ok(Instruction::Lbu(i)),
        5 => Ok(Instruction::Lhu(i)),
        6 => Ok(Instruction::Lwu(i)),
        _ => Err(VmExit::InvalidOpcode(w)),
    }
}

fn parse_store(w: u32) -> (r: Result<Instruction, VmExit>)
    ensures
        r == or_invalid(spec_decode_store(w), w),
{
    let s = Stype::from(w);
    match s.funct3 {
        0 => Ok(Instruction::Sb(s)),
        1 => Ok(Instruction::Sh(s)),
        2 => Ok(Instruction::Sw(s)),
        3 => Ok(Instruction::Sd(s)),
        _ => Err(VmExit::InvalidOpcode(w)),
    }
}

fn parse_imm_alu(w: u32) -> (r: Result<Instruction, VmExit>)
    ensures
        r == or_invalid(spec_decode_imm_alu(w), w),
{
    let i = Itype::from(w);
    match i.funct3 {
        0 => Ok(Instruction::Addi(i)),
        2 => Ok(Instruction::Slti(i)),
        3 => Ok(Instruction::Sltiu(i)),
        4 => Ok(Instruction::Xori(i)),
        6 => Ok(Instruction::Ori(i)),
        7 => Ok(Instruction::Andi(i)),
        1 => Ok(Instruction::Slli(ItypeShift::from(w))),
        _ => {
            let sh = ItypeShift::from(w);
            match sh.mode {
                0 => Ok(Instruction::Srli(sh)),
                0x10 => Ok(Instruction::Srai(sh)),
                _ => Err(VmExit::InvalidOpcode(w)),
            }
        },
    }
}

fn parse_reg_alu(w: u32) -> (r: Result<Instruction, VmExit>)
    ensures
        r == or_invalid(spec_decode_reg_alu(w), w),
{
    let r = Rtype::from(w);
    match (r.funct3, r.funct7) {
        (0, 0) => Ok(Instruction::Add(r)),
        (0, 0x20) => Ok(Instruction::Sub(r)),
        (1, 0) => Ok(Instruction::Sll(r)),
        (2, 0) => Ok(Instruction::Slt(r)),
        (3, 0) => Ok(Instruction::Sltu(r)),
        (4, 0) => Ok(Instruction::Xor(r)),
        (5, 0) => Ok(Instruction::Srl(r)),
        (5, 0x20) => Ok(Instruction::Sra(r)),
        (6, 0) => Ok(Instruction::Or(r)),
        (7, 0) => Ok(Instruction::And(r)),
        _ => Err(VmExit::InvalidOpcode(w)),
    }
}

fn parse_system(w: u32) -> (r: Result<Instruction, VmExit>)
    ensures
        r == or_invalid(spec_decode_system(w), w),
{
    let funct3 = (w / 0x1000) % 8;
    if funct3 == 0 {
        let upper = w / 0x10_0000;
        match upper {
            0 => Ok(Instruction::Ecall),
            1 => Ok(Instruction::Ebreak),
            _ => Err(VmExit::InvalidOpcode(w)),
        }
    } else {
        Err(VmExit::InvalidOpcode(w))
    }
}

fn parse_imm_alu_word(w: u32) -> (r: Result<Instruction, VmExit>)
    ensures
        r == or_invalid(spec_decode_imm_alu_word(w), w),
{
    let i = Itype::from(w);
    match i.funct3 {
        0 => Ok(Instruction::Addiw(i)),
        1 => Ok(Instruction::Slliw(ItypeShift::from(w))),
        5 => {
            let mode = w / 0x200_0000;
            match mode {
                0 => Ok(Instruction::Srliw(ItypeShift::from(w))),
                0x20 => Ok(Instruction::Sraiw(ItypeShift::from(w))),
                _ => Err(VmExit::InvalidOpcode(w)),
            }
        },
        _ => Err(VmExit::InvalidOpcode(w)),
    }
}

fn parse_reg_alu_word(w: u32) -> (r: Result<Instruction, VmExit>)
    ensures
        r == or_invalid(spec_decode_reg_alu_word(w), w),
{
    let r = Rtype::from(w);
    match (r.funct3, r.funct7) {
        (0, 0) => Ok(Instruction::Addw(r)),
        (0, 0x20) => Ok(Instruction::Subw(r)),
        (1, 0) => Ok(Instruction::Sllw(r)),
        (5, 0) => Ok(Instruction::Srlw(r)),
        (5, 0x20) => Ok(Instruction::Sraw(r)),
        _ => Err(VmExit::InvalidOpcode(w)),
    }
}

/// Decodes one raw instruction word, or reports exactly which word did not
/// decode: the result is `Ok` precisely on the bit patterns the dispatch
/// table covers.
pub fn parse_instruction(w: u32) -> (r: Result<Instruction, VmExit>)
    ensures
        r == or_invalid(spec_decode(w), w),
        r matches Ok(i) ==> i.wf(),
{
    proof {
        lemma_decode_wf(w);
    }
    let opcode = w % 0x80;
    match opcode {
        0x37 => Ok(Instruction::Lui(Utype::from(w))),
        0x17 => Ok(Instruction::Auipc(Utype::from(w))),
        0x6F => Ok(Instruction::Jal(Jtype::from(w))),
        0x67 => Ok(Instruction::Jalr(Itype::from(w))),
        0x63 => parse_branch(w),
        0x03 => parse_load(w),
        0x23 => parse_store(w),
        0x13 => parse_imm_alu(w),
        0x33 => parse_reg_alu(w),
        0x73 => parse_system(w),
        0x1B => parse_imm_alu_word(w),
        0x3B => parse_reg_alu_word(w),
        _ => Err(VmExit::InvalidOpcode(w)),
    }
}

} // verus!
