//! The six RISC-V instruction formats (plus the shift-immediate variant of
//! the I format): stateless record shapes, each built once from a raw 32-bit
//! instruction word by fixed bit-slices. Register indices are 5-bit fields,
//! selector codes 3, 6 or 7 bits, and every immediate is assembled from its
//! split fields and sign-extended to the full 64-bit register width, with
//! the sign always taken from the word's bit 31.
use vstd::prelude::*;

verus! {

/// Sign-extends a 12-bit value to 64 bits: bit 11 fills all higher bits.
pub open spec fn sext12(v: u64) -> u64
    recommends
        v < 0x1000,
{
    if v < 0x800 {
        v
    } else {
        (v + 0xFFFF_FFFF_FFFF_F000) as u64
    }
}

/// Sign-extends a 13-bit value to 64 bits: bit 12 fills all higher bits.
pub open spec fn sext13(v: u64) -> u64
    recommends
        v < 0x2000,
{
    if v < 0x1000 {
        v
    } else {
        (v + 0xFFFF_FFFF_FFFF_E000) as u64
    }
}

/// Sign-extends a 21-bit value to 64 bits: bit 20 fills all higher bits.
pub open spec fn sext21(v: u64) -> u64
    recommends
        v < 0x20_0000,
{
    if v < 0x10_0000 {
        v
    } else {
        (v + 0xFFFF_FFFF_FFE0_0000) as u64
    }
}

/// Sign-extends a 32-bit value to 64 bits: bit 31 fills all higher bits.
pub open spec fn sext32(v: u64) -> u64
    recommends
        v < 0x1_0000_0000,
{
    if v < 0x8000_0000 {
        v
    } else {
        (v + 0xFFFF_FFFF_0000_0000) as u64
    }
}

/// R format: register-register operations.
/// Fields, low to high: opcode, rd, funct3, rs1, rs2, funct7.
#[derive(Clone, Copy, Debug, PartialEq, Eq, Structural)]
pub struct Rtype {
    pub funct7: u8,
    pub rs2: u8,
    pub rs1: u8,
    pub funct3: u8,
    pub rd: u8,
}

impl Rtype {
    pub open spec fn spec_from(w: u32) -> Rtype {
        Rtype {
            funct7: (w / 0x200_0000) as u8,
            rs2: ((w / 0x10_0000) % 0x20) as u8,
            rs1: ((w / 0x8000) % 0x20) as u8,
            funct3: ((w / 0x1000) % 8) as u8,
            rd: ((w / 0x80) % 0x20) as u8,
        }
    }

    /// Every field lies in its bit-slice's range.
    pub open spec fn wf(self) -> bool {
        self.funct7 < 0x80 && self.rs2 < 32 && self.rs1 < 32 && self.funct3 < 8 && self.rd < 32
    }

    pub proof fn lemma_spec_from_wf(w: u32)
        ensures
            Rtype::spec_from(w).wf(),
    {
    }

    pub fn from(w: u32) -> (r: Rtype)
        ensures
            r == Rtype::spec_from(w),
            r.wf(),
    {
        Rtype {
            funct7: (w / 0x200_0000) as u8,
            rs2: ((w / 0x10_0000) % 0x20) as u8,
            rs1: ((w / 0x8000) % 0x20) as u8,
            funct3: ((w / 0x1000) % 8) as u8,
            rd: ((w / 0x80) % 0x20) as u8,
        }
    }
}

/// I format: loads, immediate ALU operations, JALR.
/// The immediate is the word's top 12 bits, sign-extended.
#[derive(Clone, Copy, Debug, PartialEq, Eq, Structural)]
pub struct Itype {
    pub imm: u64,
    pub rs1: u8,
    pub funct3: u8,
    pub rd: u8,
}

impl Itype {
    pub open spec fn spec_from(w: u32) -> Itype {
        Itype {
            imm: sext12((w / 0x10_0000) as u64),
            rs1: ((w / 0x8000) % 0x20) as u8,
            funct3: ((w / 0x1000) % 8) as u8,
            rd: ((w / 0x80) % 0x20) as u8,
        }
    }

    pub open spec fn wf(self) -> bool {
        self.rs1 < 32 && self.funct3 < 8 && self.rd < 32
    }

    pub proof fn lemma_spec_from_wf(w: u32)
        ensures
            Itype::spec_from(w).wf(),
    {
    }

    pub fn from(w: u32) -> (r: Itype)
        ensures
            r == Itype::spec_from(w),
            r.wf(),
    {
        let raw = (w / 0x10_0000) as u64;
        let imm = if raw < 0x800 {
            raw
        } else {
            raw + 0xFFFF_FFFF_FFFF_F000
        };
        Itype {
            imm,
            rs1: ((w / 0x8000) % 0x20) as u8,
            funct3: ((w / 0x1000) % 8) as u8,
            rd: ((w / 0x80) % 0x20) as u8,
        }
    }
}

/// The shift-immediate variant of the I format: a 6-bit shift amount in
/// place of the immediate's low bits, and a 6-bit mode field telling
/// logical from arithmetic shifts.
#[derive(Clone, Copy, Debug, PartialEq, Eq, Structural)]
pub struct ItypeShift {
    pub mode: u8,
    pub shamt: u8,
    pub rs1: u8,
    pub funct3: u8,
    pub rd: u8,
}

impl ItypeShift {
    pub open spec fn spec_from(w: u32) -> ItypeShift {
        ItypeShift {
            mode: (w / 0x400_0000) as u8,
            shamt: ((w / 0x10_0000) % 0x40) as u8,
            rs1: ((w / 0x8000) % 0x20) as u8,
            funct3: ((w / 0x1000) % 8) as u8,
            rd: ((w / 0x80) % 0x20) as u8,
        }
    }

    pub open spec fn wf(self) -> bool {
        self.mode < 0x40 && self.shamt < 64 && self.rs1 < 32 && self.funct3 < 8 && self.rd < 32
    }

    pub proof fn lemma_spec_from_wf(w: u32)
        ensures
            ItypeShift::spec_from(w).wf(),
    {
    }

    pub fn from(w: u32) -> (r: ItypeShift)
        ensures
            r == ItypeShift::spec_from(w),
            r.wf(),
    {
        ItypeShift {
            mode: (w / 0x400_0000) as u8,
            shamt: ((w / 0x10_0000) % 0x40) as u8,
            rs1: ((w / 0x8000) % 0x20) as u8,
            funct3: ((w / 0x1000) % 8) as u8,
            rd: ((w / 0x80) % 0x20) as u8,
        }
    }
}

/// S format: stores. The 12-bit immediate is split into a high part
/// (bits 31:25) and a low part (bits 11:7), then sign-extended.
#[derive(Clone, Copy, Debug, PartialEq, Eq, Structural)]
pub struct Stype {
    pub imm: u64,
    pub rs2: u8,
    pub rs1: u8,
    pub funct3: u8,
}

impl Stype {
    pub open spec fn spec_from(w: u32) -> Stype {
        Stype {
            imm: sext12(((w / 0x200_0000) * 0x20 + (w / 0x80) % 0x20) as u64),
            rs2: ((w / 0x10_0000) % 0x20) as u8,
            rs1: ((w / 0x8000) % 0x20) as u8,
            funct3: ((w / 0x1000) % 8) as u8,
        }
    }

    pub open spec fn wf(self) -> bool {
        self.rs2 < 32 && self.rs1 < 32 && self.funct3 < 8
    }

    pub proof fn lemma_spec_from_wf(w: u32)
        ensures
            Stype::spec_from(w).wf(),
    {
    }

    pub fn from(w: u32) -> (r: Stype)
        ensures
            r == Stype::spec_from(w),
            r.wf(),
    {
        let imm115 = w / 0x200_0000;
        let imm40 = (w / 0x80) % 0x20;
        let raw = (imm115 * 0x20 + imm40) as u64;
        let imm = if raw < 0x800 {
            raw
        } else {
            raw + 0xFFFF_FFFF_FFFF_F000
        };
        Stype {
            imm,
            rs2: ((w / 0x10_0000) % 0x20) as u8,
            rs1: ((w / 0x8000) % 0x20) as u8,
            funct3: ((w / 0x1000) % 8) as u8,
        }
    }
}

/// B format: branches. The 13-bit immediate is assembled from four split
/// fields, its low bit implicitly 0, then sign-extended.
#[derive(Clone, Copy, Debug, PartialEq, Eq, Structural)]
pub struct Btype {
    pub imm: u64,
    pub rs2: u8,
    pub rs1: u8,
    pub funct3: u8,
}

impl Btype {
    pub open spec fn spec_from(w: u32) -> Btype {
        Btype {
            imm: sext13(
                ((w / 0x8000_0000) * 0x1000 + ((w / 0x80) % 2) * 0x800 + ((w / 0x200_0000) % 0x40)
                    * 0x20 + ((w / 0x100) % 0x10) * 2) as u64,
            ),
            rs2: ((w / 0x10_0000) % 0x20) as u8,
            rs1: ((w / 0x8000) % 0x20) as u8,
            funct3: ((w / 0x1000) % 8) as u8,
        }
    }

    pub open spec fn wf(self) -> bool {
        self.rs2 < 32 && self.rs1 < 32 && self.funct3 < 8
    }

    pub proof fn lemma_spec_from_wf(w: u32)
        ensures
            Btype::spec_from(w).wf(),
    {
    }

    pub fn from(w: u32) -> (r: Btype)
        ensures
            r == Btype::spec_from(w),
            r.wf(),
    {
        let imm12 = w / 0x8000_0000;
        let imm11 = (w / 0x80) % 2;
        let imm105 = (w / 0x200_0000) % 0x40;
        let imm41 = (w / 0x100) % 0x10;
        let raw = (imm12 * 0x1000 + imm11 * 0x800 + imm105 * 0x20 + imm41 * 2) as u64;
        let imm = if raw < 0x1000 {
            raw
        } else {
            raw + 0xFFFF_FFFF_FFFF_E000
        };
        Btype {
            imm,
            rs2: ((w / 0x10_0000) % 0x20) as u8,
            rs1: ((w / 0x8000) % 0x20) as u8,
            funct3: ((w / 0x1000) % 8) as u8,
        }
    }
}

/// U format: LUI and AUIPC. The immediate is the word's top 20 bits placed
/// in bits 31:12, read as a signed 32-bit value and extended to 64 bits.
#[derive(Clone, Copy, Debug, PartialEq, Eq, Structural)]
pub struct Utype {
    pub imm: u64,
    pub rd: u8,
}

impl Utype {
    pub open spec fn spec_from(w: u32) -> Utype {
        Utype { imm: sext32(((w / 0x1000) * 0x1000) as u64), rd: ((w / 0x80) % 0x20) as u8 }
    }

    pub open spec fn wf(self) -> bool {
        self.rd < 32
    }

    pub proof fn lemma_spec_from_wf(w: u32)
        ensures
            Utype::spec_from(w).wf(),
    {
    }

    pub fn from(w: u32) -> (r: Utype)
        ensures
            r == Utype::spec_from(w),
            r.wf(),
    {
        let raw = ((w / 0x1000) * 0x1000) as u64;
        let imm = if raw < 0x8000_0000 {
            raw
        } else {
            raw + 0xFFFF_FFFF_0000_0000
        };
        Utype { imm, rd: ((w / 0x80) % 0x20) as u8 }
    }
}

/// J format: JAL. The 21-bit immediate is assembled from four split
/// fields, its low bit implicitly 0, then sign-extended.
#[derive(Clone, Copy, Debug, PartialEq, Eq, Structural)]
pub struct Jtype {
    pub imm: u64,
    pub rd: u8,
}

impl Jtype {
    pub open spec fn spec_from(w: u32) -> Jtype {
        Jtype {
            imm: sext21(
                ((w / 0x8000_0000) * 0x10_0000 + ((w / 0x1000) % 0x100) * 0x1000 + ((w / 0x10_0000)
                    % 2) * 0x800 + ((w / 0x20_0000) % 0x400) * 2) as u64,
            ),
            rd: ((w / 0x80) % 0x20) as u8,
        }
    }

    pub open spec fn wf(self) -> bool {
        self.rd < 32
    }

    pub proof fn lemma_spec_from_wf(w: u32)
        ensures
            Jtype::spec_from(w).wf(),
    {
    }

    pub fn from(w: u32) -> (r: Jtype)
        ensures
            r == Jtype::spec_from(w),
            r.wf(),
    {
        let imm20 = w / 0x8000_0000;
        let imm1912 = (w / 0x1000) % 0x100;
        let imm11 = (w / 0x10_0000) % 2;
        let imm101 = (w / 0x20_0000) % 0x400;
        let raw = (imm20 * 0x10_0000 + imm1912 * 0x1000 + imm11 * 0x800 + imm101 * 2) as u64;
        let imm = if raw < 0x10_0000 {
            raw
        } else {
            raw + 0xFFFF_FFFF_FFE0_0000
        };
        Jtype { imm, rd: ((w / 0x80) % 0x20) as u8 }
    }
}

} // verus!
