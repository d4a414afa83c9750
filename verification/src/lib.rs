//! A cycle-counted interpreter for the MOS 6502 instruction set.
//!
//! [`Mem`] is a flat 64 KiB byte-addressable store; [`CPU`] owns the register
//! file (program counter, stack pointer, accumulator, index registers, flag
//! byte) and executes instructions against a `Mem` image under a cycle
//! budget. The `machine` module states, as specification functions, what
//! each supported instruction does to the machine state; `CPU::execute` is
//! proved to follow that model exactly, and `laws` proves the properties
//! that hold of the instruction set as a whole.

pub mod cpu;
pub mod laws;
pub mod machine;
pub mod memory;

pub use cpu::CPU;
pub use memory::Mem;
pub use memory::MEM_MAX;
