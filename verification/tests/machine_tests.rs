use remu::machine::REG_PC;
use remu::Machine;
use remu::Mmu;
use remu::VirtAddr;
use remu::VmExit;

fn word_r(f7: u32, rs2: u32, rs1: u32, f3: u32, rd: u32, op: u32) -> u32 {
    (f7 << 25) | (rs2 << 20) | (rs1 << 15) | (f3 << 12) | (rd << 7) | op
}

fn word_i(imm: i32, rs1: u32, f3: u32, rd: u32, op: u32) -> u32 {
    (((imm as u32) & 0xFFF) << 20) | (rs1 << 15) | (f3 << 12) | (rd << 7) | op
}

fn word_s(imm: i32, rs2: u32, rs1: u32, f3: u32) -> u32 {
    let v = (imm as u32) & 0xFFF;
    ((v >> 5) << 25) | (rs2 << 20) | (rs1 << 15) | (f3 << 12) | ((v & 0x1F) << 7) | 0x23
}

fn word_b(imm: i32, rs2: u32, rs1: u32, f3: u32) -> u32 {
    let v = (imm as u32) & 0x1FFF;
    (((v >> 12) & 1) << 31) | (((v >> 5) & 0x3F) << 25) | (rs2 << 20) | (rs1 << 15) | (f3 << 12)
        | (((v >> 1) & 0xF) << 8) | (((v >> 11) & 1) << 7) | 0x63
}

fn word_u(imm20: u32, rd: u32, op: u32) -> u32 {
    (imm20 << 12) | (rd << 7) | op
}

fn word_j(imm: i32, rd: u32) -> u32 {
    let v = (imm as u32) & 0x1F_FFFF;
    (((v >> 20) & 1) << 31) | (((v >> 1) & 0x3FF) << 21) | (((v >> 11) & 1) << 20)
        | (((v >> 12) & 0xFF) << 12) | (rd << 7) | 0x6F
}

/// A machine whose memory holds `words` starting at `entry`, with the
/// program counter on the first of them.
fn boot(words: &[u32], entry: usize) -> Machine {
    let mut mmu = Mmu::new(0x4000);
    for (k, &w) in words.iter().enumerate() {
        mmu.write_u32(VirtAddr(entry + 4 * k), w as u64);
    }
    mmu.set_entry_point(VirtAddr(entry));
    Machine::new(mmu)
}

#[test]
fn test_machine_starts_at_entry() {
    let m = boot(&[0x13], 0x1000);
    assert_eq!(m.get_pc(), VirtAddr(0x1000));
    for reg in 0..32 {
        assert_eq!(m.get_r(reg), 0);
    }
}

#[test]
fn test_register_zero_stays_zero() {
    // ADDI x0, x0, 5 and LUI x0, 0xFFFFF: the computed results are
    // discarded, never an error.
    let mut m = boot(&[word_i(5, 0, 0, 0, 0x13), word_u(0xFFFFF, 0, 0x37)], 0);
    m.step().unwrap();
    assert_eq!(m.get_r(0), 0);
    m.step().unwrap();
    assert_eq!(m.get_r(0), 0);
    m.set_r(0, 77).unwrap();
    assert_eq!(m.get_r(0), 0);
}

#[test]
fn test_arithmetic_wraparound() {
    // ADDI x1, x0, -1; ADDI x2, x1, 1: the maximum 64-bit value plus one
    // wraps to zero.
    let mut m = boot(&[word_i(-1, 0, 0, 1, 0x13), word_i(1, 1, 0, 2, 0x13)], 0);
    m.step().unwrap();
    assert_eq!(m.get_r(1), u64::MAX);
    m.step().unwrap();
    assert_eq!(m.get_r(2), 0);
}

#[test]
fn test_jal_control_transfer() {
    let mut m = boot(&[word_j(0x20, 1)], 0x1000);
    m.step().unwrap();
    assert_eq!(m.get_pc(), VirtAddr(0x1020));
    assert_eq!(m.get_r(1), 0x1004);
}

#[test]
fn test_jalr_control_transfer() {
    let mut m = boot(&[word_i(4, 1, 0, 2, 0x67)], 0x1000);
    m.set_r(1, 0x3000).unwrap();
    m.step().unwrap();
    assert_eq!(m.get_pc(), VirtAddr(0x3004));
    assert_eq!(m.get_r(2), 0x1004);
}

#[test]
fn test_store_load_round_trip() {
    // SW x1, 0(x2); LW x3, 0(x2) with x2 on a valid zeroed region: x3
    // gets the sign-extension of x1's low 32 bits.
    let mut m = boot(&[word_s(0, 1, 2, 2), word_i(0, 2, 2, 3, 0x03)], 0);
    m.set_r(1, 0x8000_0001).unwrap();
    m.set_r(2, 0x2000).unwrap();
    m.step().unwrap();
    m.step().unwrap();
    assert_eq!(m.get_r(3), 0xFFFF_FFFF_8000_0001);
}

#[test]
fn test_syscall_suspension() {
    // Stepping onto an ECALL reports the trap and leaves the program
    // counter on the ECALL itself; the caller decides how to go on.
    let mut m = boot(&[0x73], 0x100);
    assert_eq!(m.step(), Err(VmExit::Syscall));
    assert_eq!(m.get_pc(), VirtAddr(0x100));
    assert_eq!(m.step(), Err(VmExit::Syscall));
    assert_eq!(m.get_pc(), VirtAddr(0x100));
}

#[test]
fn test_ebreak_not_implemented() {
    let mut m = boot(&[0x0010_0073], 0);
    assert_eq!(m.step(), Err(VmExit::NotImpl));
    assert_eq!(m.get_pc(), VirtAddr(0));
}

#[test]
fn test_invalid_opcode_surfaces() {
    let mut m = boot(&[0xFFFF_FFFF], 0);
    assert_eq!(m.step(), Err(VmExit::InvalidOpcode(0xFFFF_FFFF)));
    assert_eq!(m.get_pc(), VirtAddr(0));
}

#[test]
fn test_lui_auipc() {
    let mut m = boot(&[word_u(0x12345, 5, 0x37), word_u(0xFFFFF, 6, 0x37), word_u(1, 7, 0x17)], 0);
    m.step().unwrap();
    assert_eq!(m.get_r(5), 0x1234_5000);
    m.step().unwrap();
    assert_eq!(m.get_r(6), 0xFFFF_FFFF_FFFF_F000);
    m.step().unwrap();
    // AUIPC at pc 8 with immediate 1 << 12.
    assert_eq!(m.get_r(7), 0x1008);
}

#[test]
fn test_branches_signed_and_unsigned() {
    // x1 = -1 (unsigned maximum), x2 = 1.
    // BLT x1, x2 is taken: -1 < 1 signed.
    let mut m = boot(&[word_b(0x10, 2, 1, 4)], 0x100);
    m.set_r(1, u64::MAX).unwrap();
    m.set_r(2, 1).unwrap();
    m.step().unwrap();
    assert_eq!(m.get_pc(), VirtAddr(0x110));

    // BLTU x1, x2 is not taken: u64::MAX < 1 is false unsigned.
    let mut m = boot(&[word_b(0x10, 2, 1, 6)], 0x100);
    m.set_r(1, u64::MAX).unwrap();
    m.set_r(2, 1).unwrap();
    m.step().unwrap();
    assert_eq!(m.get_pc(), VirtAddr(0x104));

    // BEQ taken with equal operands, BNE not taken.
    let mut m = boot(&[word_b(0x20, 2, 1, 0)], 0x100);
    m.set_r(1, 9).unwrap();
    m.set_r(2, 9).unwrap();
    m.step().unwrap();
    assert_eq!(m.get_pc(), VirtAddr(0x120));

    let mut m = boot(&[word_b(0x20, 2, 1, 1)], 0x100);
    m.set_r(1, 9).unwrap();
    m.set_r(2, 9).unwrap();
    m.step().unwrap();
    assert_eq!(m.get_pc(), VirtAddr(0x104));

    // BGE taken on equality; a backward branch lands backward.
    let mut m = boot(&[word_b(-0x10, 2, 1, 5)], 0x100);
    m.set_r(1, 5).unwrap();
    m.set_r(2, 5).unwrap();
    m.step().unwrap();
    assert_eq!(m.get_pc(), VirtAddr(0xF0));

    // BGEU not taken: 1 < u64::MAX unsigned.
    let mut m = boot(&[word_b(0x10, 2, 1, 7)], 0x100);
    m.set_r(1, 1).unwrap();
    m.set_r(2, u64::MAX).unwrap();
    m.step().unwrap();
    assert_eq!(m.get_pc(), VirtAddr(0x104));
}

#[test]
fn test_immediate_alu() {
    let mut m = boot(
        &[
            word_i(-16, 1, 2, 5, 0x13),  // SLTI x5, x1, -16
            word_i(-1, 1, 3, 6, 0x13),   // SLTIU x6, x1, -1
            word_i(0xF0, 1, 4, 7, 0x13), // XORI x7, x1, 0xF0
            word_i(0x0F, 1, 6, 8, 0x13), // ORI x8, x1, 0x0F
            word_i(0x3C, 1, 7, 9, 0x13), // ANDI x9, x1, 0x3C
        ],
        0,
    );
    m.set_r(1, 0xFF).unwrap();
    m.step().unwrap();
    // 255 < -16 signed is false.
    assert_eq!(m.get_r(5), 0);
    m.step().unwrap();
    // 255 < 0xFFFF...FF unsigned is true.
    assert_eq!(m.get_r(6), 1);
    m.step().unwrap();
    assert_eq!(m.get_r(7), 0x0F);
    m.step().unwrap();
    assert_eq!(m.get_r(8), 0xFF);
    m.step().unwrap();
    assert_eq!(m.get_r(9), 0x3C);
}

#[test]
fn test_shifts() {
    let mut m = boot(
        &[
            word_i(0, 1, 1, 5, 0x13) | (60 << 20),                // SLLI x5, x1, 60
            word_i(0, 1, 5, 6, 0x13) | (4 << 20),                 // SRLI x6, x1, 4
            word_i(0, 1, 5, 7, 0x13) | (0x10 << 26) | (4 << 20),  // SRAI x7, x1, 4
        ],
        0,
    );
    m.set_r(1, 0xF000_0000_0000_000F).unwrap();
    m.step().unwrap();
    assert_eq!(m.get_r(5), 0xF000_0000_0000_0000);
    m.step().unwrap();
    assert_eq!(m.get_r(6), 0x0F00_0000_0000_0000);
    m.step().unwrap();
    assert_eq!(m.get_r(7), 0xFF00_0000_0000_0000);
}

#[test]
fn test_register_alu() {
    let mut m = boot(
        &[
            word_r(0, 2, 1, 0, 5, 0x33),    // ADD x5, x1, x2
            word_r(0x20, 2, 1, 0, 6, 0x33), // SUB x6, x1, x2
            word_r(0, 2, 1, 1, 7, 0x33),    // SLL x7, x1, x2
            word_r(0, 2, 1, 2, 8, 0x33),    // SLT x8, x1, x2
            word_r(0, 2, 1, 3, 9, 0x33),    // SLTU x9, x1, x2
            word_r(0, 2, 1, 4, 10, 0x33),   // XOR x10, x1, x2
            word_r(0, 2, 1, 5, 11, 0x33),   // SRL x11, x1, x2
            word_r(0x20, 2, 1, 5, 12, 0x33),// SRA x12, x1, x2
            word_r(0, 2, 1, 6, 13, 0x33),   // OR x13, x1, x2
            word_r(0, 2, 1, 7, 14, 0x33),   // AND x14, x1, x2
        ],
        0,
    );
    m.set_r(1, 0x8000_0000_0000_0000).unwrap();
    m.set_r(2, 65).unwrap();  // shift amounts are masked to 6 bits: 65 -> 1
    m.step().unwrap();
    assert_eq!(m.get_r(5), 0x8000_0000_0000_0041);
    m.step().unwrap();
    assert_eq!(m.get_r(6), 0x7FFF_FFFF_FFFF_FFBF);
    m.step().unwrap();
    assert_eq!(m.get_r(7), 0);
    m.step().unwrap();
    // The sign bit makes x1 the smaller operand signed.
    assert_eq!(m.get_r(8), 1);
    m.step().unwrap();
    assert_eq!(m.get_r(9), 0);
    m.step().unwrap();
    assert_eq!(m.get_r(10), 0x8000_0000_0000_0041);
    m.step().unwrap();
    assert_eq!(m.get_r(11), 0x4000_0000_0000_0000);
    m.step().unwrap();
    assert_eq!(m.get_r(12), 0xC000_0000_0000_0000);
    m.step().unwrap();
    assert_eq!(m.get_r(13), 0x8000_0000_0000_0041);
    m.step().unwrap();
    assert_eq!(m.get_r(14), 0);
}

#[test]
fn test_word_width_ops() {
    let mut m = boot(
        &[
            word_r(0, 2, 1, 0, 5, 0x3B),     // ADDW x5, x1, x2
            word_r(0x20, 2, 1, 0, 6, 0x3B),  // SUBW x6, x1, x2
            word_i(1, 1, 0, 7, 0x1B),        // ADDIW x7, x1, 1
            word_r(0, 2, 1, 1, 8, 0x3B),     // SLLW x8, x1, x2
            word_r(0, 1, 1, 5, 9, 0x3B),     // SRLW x9, x1, x1
            word_r(0x20, 1, 1, 5, 10, 0x3B), // SRAW x10, x1, x1
        ],
        0,
    );
    m.set_r(1, 0x7FFF_FFFF).unwrap();
    m.set_r(2, 1).unwrap();
    m.step().unwrap();
    // 32-bit overflow sign-extends back to 64 bits.
    assert_eq!(m.get_r(5), 0xFFFF_FFFF_8000_0000);
    m.step().unwrap();
    assert_eq!(m.get_r(6), 0x7FFF_FFFE);
    m.step().unwrap();
    assert_eq!(m.get_r(7), 0xFFFF_FFFF_8000_0000);
    m.step().unwrap();
    // Low word shifted left by 1, truncated to 32 bits, sign-extended.
    assert_eq!(m.get_r(8), 0xFFFF_FFFF_FFFF_FFFE);
    m.step().unwrap();
    // Word shift amounts are masked to 5 bits: 0x7FFFFFFF -> 31.
    assert_eq!(m.get_r(9), 0);
    m.step().unwrap();
    assert_eq!(m.get_r(10), 0);
}

#[test]
fn test_word_width_shift_immediates() {
    let mut m = boot(
        &[
            word_i(0, 1, 1, 5, 0x1B) | (3 << 20),                // SLLIW x5, x1, 3
            word_i(0, 1, 5, 6, 0x1B) | (4 << 20),                // SRLIW x6, x1, 4
            word_i(0, 1, 5, 7, 0x1B) | (0x20 << 25) | (4 << 20), // SRAIW x7, x1, 4
        ],
        0,
    );
    m.set_r(1, 0x9000_0001).unwrap();
    m.step().unwrap();
    // 0x90000001 << 3 truncates to 0x80000008, negative as 32 bits.
    assert_eq!(m.get_r(5), 0xFFFF_FFFF_8000_0008);
    m.step().unwrap();
    assert_eq!(m.get_r(6), 0x0900_0000);
    m.step().unwrap();
    assert_eq!(m.get_r(7), 0xFFFF_FFFF_F900_0000);
}

#[test]
fn test_loads_and_stores_each_width() {
    let mut m = boot(
        &[
            word_s(0, 1, 2, 0),        // SB x1, 0(x2)
            word_i(0, 2, 0, 5, 0x03),  // LB x5, 0(x2)
            word_i(0, 2, 4, 6, 0x03),  // LBU x6, 0(x2)
            word_s(8, 1, 2, 1),        // SH x1, 8(x2)
            word_i(8, 2, 1, 7, 0x03),  // LH x7, 8(x2)
            word_i(8, 2, 5, 8, 0x03),  // LHU x8, 8(x2)
            word_s(16, 1, 2, 3),       // SD x1, 16(x2)
            word_i(16, 2, 3, 9, 0x03), // LD x9, 16(x2)
            word_s(24, 1, 2, 2),       // SW x1, 24(x2)
            word_i(24, 2, 6, 10, 0x03),// LWU x10, 24(x2)
        ],
        0,
    );
    m.set_r(1, 0xFFFF_FFFF_FFFF_ABCD).unwrap();
    m.set_r(2, 0x2000).unwrap();
    for _ in 0..10 {
        m.step().unwrap();
    }
    assert_eq!(m.get_r(5), 0xFFFF_FFFF_FFFF_FFCD);
    assert_eq!(m.get_r(6), 0xCD);
    assert_eq!(m.get_r(7), 0xFFFF_FFFF_FFFF_ABCD);
    assert_eq!(m.get_r(8), 0xABCD);
    assert_eq!(m.get_r(9), 0xFFFF_FFFF_FFFF_ABCD);
    assert_eq!(m.get_r(10), 0xFFFF_ABCD);
}

#[test]
fn test_negative_offset_addressing() {
    // SW x1, -4(x2); LW x3, -4(x2).
    let mut m = boot(&[word_s(-4, 1, 2, 2), word_i(-4, 2, 2, 3, 0x03)], 0);
    m.set_r(1, 0x1234_5678).unwrap();
    m.set_r(2, 0x2004).unwrap();
    m.step().unwrap();
    m.step().unwrap();
    assert_eq!(m.get_r(3), 0x1234_5678);
    assert_eq!(m.mmu.read_u32(VirtAddr(0x2000)), 0x1234_5678);
}

#[test]
fn test_pc_register_readable() {
    let m = boot(&[0x13], 0x1000);
    assert_eq!(m.get_r(REG_PC), 0x1000);
}

#[test]
fn test_can_step_detects_bounds_faults() {
    // A load whose effective address lies outside the buffer is a fatal
    // loader fault, reported before stepping.
    let mut m = boot(&[word_i(0, 2, 2, 3, 0x03)], 0);
    m.set_r(2, 0x2000).unwrap();
    assert!(m.can_step());
    m.set_r(2, 0x4000).unwrap();
    assert!(!m.can_step());
    m.set_r(2, u64::MAX - 1).unwrap();
    assert!(!m.can_step());

    // A fetch outside the buffer is one too.
    let mut m2 = boot(&[0x13], 0);
    m2.set_r(REG_PC, 0x3FFE).unwrap();
    assert!(!m2.can_step());

    // An undecodable word is not a bounds fault: the step itself reports
    // the invalid opcode.
    let m3 = boot(&[0xFFFF_FFFF], 0);
    assert!(m3.can_step());
}
