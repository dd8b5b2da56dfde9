//! A user-mode RV64I instruction-set emulator: a flat virtual memory,
//! fixed-bitfield instruction decoding, and an execute engine driving one
//! fetch-decode-execute cycle per step.
pub mod decode;
pub mod engine;
pub mod formats;
pub mod laws;
pub mod machine;
pub mod mmu;

pub use machine::Machine;
pub use machine::VmExit;
pub use mmu::Mmu;
pub use mmu::VirtAddr;
