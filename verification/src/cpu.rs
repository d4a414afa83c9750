use vstd::prelude::*;

use crate::machine::after_fetch;
use crate::machine::and_im;
use crate::machine::asl_acc;
use crate::machine::asl_zp;
use crate::machine::czn_updated;
use crate::machine::fetched;
use crate::machine::jsr_abs;
use crate::machine::lda_im;
use crate::machine::ldx_im;
use crate::machine::lemma_word_from_zero;
use crate::machine::rts;
use crate::machine::run;
use crate::machine::step;
use crate::machine::word_at;
use crate::machine::word_from;
use crate::machine::zn_updated;
use crate::machine::MachineState;
use crate::memory::Mem;

verus! {

/// The 6502 register file: program counter, stack pointer, accumulator, the
/// two index registers, and the flag byte. The processor fetches, decodes
/// and executes instructions against a [`Mem`] image; what every supported
/// instruction does is stated by the specification functions of
/// [`crate::machine`], and [`CPU::execute`] is proved to follow them.
#[derive(PartialEq, Eq, Structural)]
pub struct CPU {
    /// Program counter: address of the next byte to fetch.
    pub pc: u16,
    /// Stack pointer: offset into the fixed stack page 0x0100.
    pub sp: u8,
    /// Accumulator.
    pub a: u8,
    /// X index register.
    pub x: u8,
    /// Y index register.
    pub y: u8,
    /// Flag byte; see the bit masks `C` through `N`.
    pub flags: u8,
}

impl CPU {
    /// Carry flag.
    pub const C: u8 = 0x01;

    /// Zero flag.
    pub const Z: u8 = 0x02;

    /// Interrupt-disable flag.
    pub const I: u8 = 0x04;

    /// Decimal-mode flag.
    pub const D: u8 = 0x08;

    /// Break flag.
    pub const B: u8 = 0x10;

    /// The unused bit, always set after reset.
    pub const UNUSED: u8 = 0x20;

    /// Overflow flag.
    pub const V: u8 = 0x40;

    /// Negative flag.
    pub const N: u8 = 0x80;

    /// Loads a byte into the accumulator.
    pub const INS_LDA_IM: u8 = 0xA9;

    /// Loads a byte into the X register.
    pub const INS_LDX_IM: u8 = 0xA2;

    /// Jumps to a subroutine at a given absolute address.
    pub const INS_JSR_AB: u8 = 0x20;

    /// Returns from a subroutine entered by `INS_JSR_AB`.
    pub const INS_RTS: u8 = 0x60;

    /// ANDs a byte into the accumulator.
    pub const INS_AND_IM: u8 = 0x29;

    /// Arithmetic shift left of the accumulator.
    pub const INS_ASL_ACC: u8 = 0x0A;

    /// Arithmetic shift left of a zero-page memory cell.
    pub const INS_ASL_ZP: u8 = 0x06;

    /// A processor with its power-on defaults: stack pointer at the top of
    /// its page, general registers zero, flag byte with only the unused bit
    /// set.
    pub fn new() -> (cpu: CPU)
        ensures
            cpu == (CPU { pc: 0u16, sp: 0xFFu8, a: 0u8, x: 0u8, y: 0u8, flags: CPU::UNUSED }),
    {
        CPU { pc: 0, sp: 0xFF, a: 0, x: 0, y: 0, flags: Self::UNUSED }
    }

    /// Re-reads the program counter from the reset vector at 0xFFFC/0xFFFD
    /// (little-endian) and restores the power-on register defaults.
    pub fn reset(&mut self, memory: &Mem)
        requires
            memory.wf(),
        ensures
            *final(self) == (CPU {
                pc: word_at(memory@, 0xFFFC),
                sp: 0xFFu8,
                a: 0u8,
                x: 0u8,
                y: 0u8,
                flags: CPU::UNUSED,
            }),
    {
        self.pc = self.read_word(memory, 0xFFFC);
        self.sp = 0xFF;
        self.a = 0;
        self.x = 0;
        self.y = 0;
        self.flags = Self::UNUSED;
    }

    /// Reads the little-endian word at `address`: two raw byte reads, with
    /// no program-counter advance and no cycle charge; used for the reset
    /// vector.
    pub fn read_word(&self, memory: &Mem, address: u16) -> (w: u16)
        requires
            memory.wf(),
        ensures
            w == word_at(memory@, address),
    {
        let low: u16 = memory.read_byte(address) as u16;
        let high: u16 = memory.read_byte(address.wrapping_add(1)) as u16;
        (high << 8) | low
    }

    /// Fetches the byte at the program counter: advances the counter by one,
    /// wrapping at the 16-bit boundary, and debits one cycle from `cycles`,
    /// the budget stopping at zero rather than wrapping.
    pub fn fetch_byte(&mut self, cycles: &mut u32, memory: &Mem) -> (data: u8)
        requires
            memory.wf(),
        ensures
            data == memory@[old(self).pc as int],
            *final(self) == (CPU { pc: old(self).pc.wrapping_add(1), ..*old(self) }),
            *final(cycles) == (*old(cycles)).saturating_sub(1),
    {
        let data = memory.read_byte(self.pc);
        self.pc = self.pc.wrapping_add(1);
        *cycles = cycles.saturating_sub(1);
        data
    }

    /// Absolute addressing: fetches the low then the high byte of the
    /// effective address, charging one cycle each, and returns both raw
    /// bytes together with the address they form.
    pub fn process_address_abs(&mut self, cycles: &mut u32, memory: &Mem) -> (r: (u8, u8, u16))
        requires
            memory.wf(),
        ensures
            ({
                let s = MachineState { cpu: *old(self), mem: memory@, cycles: *old(cycles) };
                let s1 = after_fetch(s);
                &&& r.0 == fetched(s)
                &&& r.1 == fetched(s1)
                &&& r.2 == word_from(r.0, r.1)
                &&& (MachineState { cpu: *final(self), mem: memory@, cycles: *final(cycles) })
                    == after_fetch(s1)
            }),
    {
        let low: u8 = self.fetch_byte(cycles, memory);
        let high: u8 = self.fetch_byte(cycles, memory);
        (low, high, ((high as u16) << 8) | (low as u16))
    }

    /// Zero-page addressing: fetches one byte as the low byte of the
    /// effective address, whose high byte is fixed at zero.
    pub fn process_address_zp(&mut self, cycles: &mut u32, memory: &Mem) -> (r: (u8, u16))
        requires
            memory.wf(),
        ensures
            ({
                let s = MachineState { cpu: *old(self), mem: memory@, cycles: *old(cycles) };
                &&& r.0 == fetched(s)
                &&& r.1 == word_from(r.0, 0)
                &&& r.1 == r.0 as u16
                &&& (MachineState { cpu: *final(self), mem: memory@, cycles: *final(cycles) })
                    == after_fetch(s)
            }),
    {
        let low: u8 = self.fetch_byte(cycles, memory);
        let high: u8 = 0x00;
        proof {
            lemma_word_from_zero(low);
        }
        (low, ((high as u16) << 8) | (low as u16))
    }

    /// Clears Zero and Negative, then sets each from the given result of the
    /// current instruction; no other flag bit moves.
    fn set_zn(&mut self, zero: bool, negative: bool)
        ensures
            *final(self) == (CPU { flags: zn_updated(old(self).flags, zero, negative), ..*old(self) }),
    {
        let mut f: u8 = self.flags & !(Self::Z | Self::N);
        if zero {
            f = f | Self::Z;
        }
        if negative {
            f = f | Self::N;
        }
        self.flags = f;
    }

    /// Clears Carry, Zero and Negative, then sets each from the given shift
    /// outcome; no other flag bit moves.
    fn set_czn(&mut self, carry: bool, zero: bool, negative: bool)
        ensures
            *final(self) == (CPU {
                flags: czn_updated(old(self).flags, carry, zero, negative),
                ..*old(self)
            }),
    {
        let mut f: u8 = self.flags & !(Self::C | Self::Z | Self::N);
        if carry {
            f = f | Self::C;
        }
        if zero {
            f = f | Self::Z;
        }
        if negative {
            f = f | Self::N;
        }
        self.flags = f;
    }

    /// Read-only accessor for the program counter.
    pub fn pc(&self) -> (r: &u16)
        ensures
            *r == self.pc,
    {
        &self.pc
    }

    /// Read-only accessor for the stack pointer.
    pub fn sp(&self) -> (r: &u8)
        ensures
            *r == self.sp,
    {
        &self.sp
    }

    /// Read-only accessor for the accumulator.
    pub fn a(&self) -> (r: &u8)
        ensures
            *r == self.a,
    {
        &self.a
    }

    /// Read-only accessor for the X register.
    pub fn x(&self) -> (r: &u8)
        ensures
            *r == self.x,
    {
        &self.x
    }

    /// Read-only accessor for the Y register.
    pub fn y(&self) -> (r: &u8)
        ensures
            *r == self.y,
    {
        &self.y
    }

    /// Read-only accessor for the flag byte.
    pub fn flags(&self) -> (r: &u8)
        ensures
            *r == self.flags,
    {
        &self.flags
    }

    /// Fetch–decode–execute until the cycle budget runs out. The budget is
    /// checked before each opcode fetch, never mid-instruction, so an
    /// instruction once dispatched completes in full even when it debits the
    /// budget down to zero. A byte that decodes to no supported opcode has
    /// no effect beyond its own fetch; execution goes on at the next byte —
    /// a deliberate permissiveness, where real hardware's behaviour would be
    /// undefined.
    #[verifier::loop_isolation(false)]
    pub fn execute(&mut self, cycles: u32, memory: &mut Mem)
        requires
            old(memory).wf(),
        ensures
            final(memory).wf(),
            ({
                let r = run(MachineState { cpu: *old(self), mem: old(memory)@, cycles: cycles });
                &&& *final(self) == r.cpu
                &&& final(memory)@ == r.mem
            }),
    {
        let mut cy: u32 = cycles;
        while cy > 0
            invariant
                memory.wf(),
                run(MachineState { cpu: *old(self), mem: old(memory)@, cycles: cycles }) == run(
                    MachineState { cpu: *self, mem: memory@, cycles: cy },
                ),
            decreases cy,
        {
            let ghost s_pre = MachineState { cpu: *self, mem: memory@, cycles: cy };
            let instruction: u8 = self.fetch_byte(&mut cy, memory);
            proof {
                assert(instruction == fetched(s_pre));
                assert(MachineState { cpu: *self, mem: memory@, cycles: cy } == after_fetch(s_pre));
            }
            let ghost s1 = after_fetch(s_pre);
            if instruction == Self::INS_LDA_IM {
                let value: u8 = self.fetch_byte(&mut cy, memory);
                self.a = value;
                self.set_zn(value == 0, value & 0x80 != 0);
                proof {
                    assert(MachineState { cpu: *self, mem: memory@, cycles: cy } == lda_im(s1));
                }
            } else if instruction == Self::INS_LDX_IM {
                let value: u8 = self.fetch_byte(&mut cy, memory);
                self.x = value;
                self.set_zn(value == 0, value & 0x80 != 0);
                proof {
                    assert(MachineState { cpu: *self, mem: memory@, cycles: cy } == ldx_im(s1));
                }
            } else if instruction == Self::INS_JSR_AB {
                let (_, _, dest_address) = self.process_address_abs(&mut cy, memory);
                let pushed: u16 = self.pc.wrapping_sub(1);
                memory.write_byte(0x0100u16 | (self.sp as u16), (pushed >> 8) as u8);
                self.sp = self.sp.wrapping_sub(1);
                memory.write_byte(0x0100u16 | (self.sp as u16), (pushed & 0xFF) as u8);
                self.sp = self.sp.wrapping_sub(1);
                self.pc = dest_address;
                cy = cy.saturating_sub(3);
                proof {
                    assert(MachineState { cpu: *self, mem: memory@, cycles: cy } == jsr_abs(s1));
                }
            } else if instruction == Self::INS_AND_IM {
                let value: u8 = self.fetch_byte(&mut cy, memory);
                let result: u8 = self.a & value;
                self.a = result;
                self.set_zn(result == 0, value & 0x80 != 0);
                proof {
                    assert(MachineState { cpu: *self, mem: memory@, cycles: cy } == and_im(s1));
                }
            } else if instruction == Self::INS_ASL_ACC {
                let value: u8 = self.a;
                let result: u8 = value << 1;
                self.a = result;
                self.set_czn(value & 0x80 != 0, result == 0, result & 0x80 != 0);
                cy = cy.saturating_sub(1);
                proof {
                    assert(MachineState { cpu: *self, mem: memory@, cycles: cy } == asl_acc(s1));
                }
            } else if instruction == Self::INS_ASL_ZP {
                let (_, address) = self.process_address_zp(&mut cy, memory);
                let value: u8 = memory.read_byte(address);
                let result: u8 = value << 1;
                memory.write_byte(address, result);
                self.set_czn(value & 0x80 != 0, result == 0, result & 0x80 != 0);
                cy = cy.saturating_sub(1);
                proof {
                    assert(MachineState { cpu: *self, mem: memory@, cycles: cy } == asl_zp(s1));
                }
            } else if instruction == Self::INS_RTS {
                self.sp = self.sp.wrapping_add(1);
                let low: u8 = memory.read_byte(0x0100u16 | (self.sp as u16));
                self.sp = self.sp.wrapping_add(1);
                let high: u8 = memory.read_byte(0x0100u16 | (self.sp as u16));
                self.pc = (((high as u16) << 8) | (low as u16)).wrapping_add(1);
                cy = cy.saturating_sub(5);
                proof {
                    assert(MachineState { cpu: *self, mem: memory@, cycles: cy } == rts(s1));
                }
            }
            proof {
                assert(MachineState { cpu: *self, mem: memory@, cycles: cy } == step(s_pre));
                assert(run(s_pre) == run(step(s_pre)));
            }
        }
    }
}

} // verus!
