use vstd::prelude::*;

use crate::cpu::CPU;

verus! {

/// The whole machine at one instant: the register file, the memory image as
/// the sequence of its bytes, and the remaining cycle budget. The
/// specification functions below say, over values of this type, exactly what
/// each supported instruction does; `CPU::execute` is proved to follow them.
#[verifier::ext_equal]
pub ghost struct MachineState {
    pub cpu: CPU,
    pub mem: Seq<u8>,
    pub cycles: u32,
}

/// The 16-bit word whose low byte is `lo` and whose high byte is `hi`.
pub open spec fn word_from(lo: u8, hi: u8) -> u16 {
    ((hi as u16) << 8) | (lo as u16)
}

/// The low byte of `w`.
pub open spec fn low_byte(w: u16) -> u8 {
    (w & 0xFF) as u8
}

/// The high byte of `w`.
pub open spec fn high_byte(w: u16) -> u8 {
    (w >> 8) as u8
}

/// The little-endian word held at `address`: low byte first, the second byte
/// taken from the next address, wrapping around the top of the address space.
pub open spec fn word_at(m: Seq<u8>, address: u16) -> u16 {
    word_from(m[address as int], m[address.wrapping_add(1) as int])
}

/// The address of a stack cell: the stack lives in the fixed page 0x0100,
/// indexed by the 8-bit stack pointer.
pub open spec fn stack_addr(sp: u8) -> u16 {
    0x0100u16 | (sp as u16)
}

/// The flag byte after an instruction that re-evaluates Zero and Negative:
/// both bits are cleared first, then each is set from the instruction's own
/// defining result. Every other bit is left exactly as it was.
pub open spec fn zn_updated(flags: u8, zero: bool, negative: bool) -> u8 {
    let cleared = flags & !(CPU::Z | CPU::N);
    let with_z = if zero {
        cleared | CPU::Z
    } else {
        cleared
    };
    if negative {
        with_z | CPU::N
    } else {
        with_z
    }
}

/// As [`zn_updated`], for the shift family, which additionally rewrites Carry
/// with the bit shifted out.
pub open spec fn czn_updated(flags: u8, carry: bool, zero: bool, negative: bool) -> u8 {
    let cleared = flags & !(CPU::C | CPU::Z | CPU::N);
    let with_c = if carry {
        cleared | CPU::C
    } else {
        cleared
    };
    let with_z = if zero {
        with_c | CPU::Z
    } else {
        with_c
    };
    if negative {
        with_z | CPU::N
    } else {
        with_z
    }
}

/// The byte a fetch at the program counter returns.
pub open spec fn fetched(s: MachineState) -> u8 {
    s.mem[s.cpu.pc as int]
}

/// The state after one fetch: the program counter advances by one, wrapping
/// at the 16-bit boundary, and one cycle is debited (the budget never goes
/// below zero).
pub open spec fn after_fetch(s: MachineState) -> MachineState {
    MachineState {
        cpu: CPU { pc: s.cpu.pc.wrapping_add(1), ..s.cpu },
        cycles: s.cycles.saturating_sub(1),
        ..s
    }
}

/// Load-immediate into the accumulator, from the state after the opcode
/// fetch: fetch the operand, store it in the accumulator, set Zero and
/// Negative from the new accumulator value.
pub open spec fn lda_im(s: MachineState) -> MachineState {
    let v = fetched(s);
    let s1 = after_fetch(s);
    MachineState {
        cpu: CPU { a: v, flags: zn_updated(s1.cpu.flags, v == 0, v & 0x80 != 0), ..s1.cpu },
        ..s1
    }
}

/// Load-immediate into the X register; as [`lda_im`] for X.
pub open spec fn ldx_im(s: MachineState) -> MachineState {
    let v = fetched(s);
    let s1 = after_fetch(s);
    MachineState {
        cpu: CPU { x: v, flags: zn_updated(s1.cpu.flags, v == 0, v & 0x80 != 0), ..s1.cpu },
        ..s1
    }
}

/// Logical AND immediate: fetch the operand, AND it into the accumulator,
/// set Zero from the new accumulator value. Negative is set from the
/// operand's high bit, not from the result's — a deliberate, documented
/// choice this interpreter preserves; real hardware takes Negative from the
/// result.
pub open spec fn and_im(s: MachineState) -> MachineState {
    let v = fetched(s);
    let s1 = after_fetch(s);
    let result = s1.cpu.a & v;
    MachineState {
        cpu: CPU {
            a: result,
            flags: zn_updated(s1.cpu.flags, result == 0, v & 0x80 != 0),
            ..s1.cpu
        },
        ..s1
    }
}

/// Arithmetic shift left of the accumulator: Carry takes the bit shifted
/// out, Zero and Negative follow the shifted result, and the instruction
/// charges one extra cycle beyond its opcode fetch.
pub open spec fn asl_acc(s: MachineState) -> MachineState {
    let v = s.cpu.a;
    let result = v << 1;
    MachineState {
        cpu: CPU {
            a: result,
            flags: czn_updated(s.cpu.flags, v & 0x80 != 0, result == 0, result & 0x80 != 0),
            ..s.cpu
        },
        cycles: s.cycles.saturating_sub(1),
        ..s
    }
}

/// Arithmetic shift left of a zero-page cell: fetch the one-byte operand as
/// the low byte of an address whose high byte is zero, shift the byte stored
/// there left by one and write it back, update Carry, Zero and Negative as
/// in [`asl_acc`], and charge one extra cycle.
pub open spec fn asl_zp(s: MachineState) -> MachineState {
    let lo = fetched(s);
    let s1 = after_fetch(s);
    let address = word_from(lo, 0);
    let v = s1.mem[address as int];
    let result = v << 1;
    MachineState {
        cpu: CPU {
            flags: czn_updated(s1.cpu.flags, v & 0x80 != 0, result == 0, result & 0x80 != 0),
            ..s1.cpu
        },
        mem: s1.mem.update(address as int, result),
        cycles: s1.cycles.saturating_sub(1),
    }
}

/// Jump to subroutine at an absolute address: fetch the destination's low
/// and high bytes, push the return address minus one (the address of the
/// instruction's last byte) high byte first onto the stack — the stack
/// pointer decrementing after each push — set the program counter to the
/// destination, and charge the instruction's three extra cycles (six in all
/// with the three fetches).
pub open spec fn jsr_abs(s: MachineState) -> MachineState {
    let lo = fetched(s);
    let s1 = after_fetch(s);
    let hi = fetched(s1);
    let s2 = after_fetch(s1);
    let dest = word_from(lo, hi);
    let pushed = s2.cpu.pc.wrapping_sub(1);
    let sp0 = s2.cpu.sp;
    let sp1 = sp0.wrapping_sub(1);
    MachineState {
        cpu: CPU { pc: dest, sp: sp1.wrapping_sub(1), ..s2.cpu },
        mem: s2.mem.update(stack_addr(sp0) as int, high_byte(pushed)).update(
            stack_addr(sp1) as int,
            low_byte(pushed),
        ),
        cycles: s2.cycles.saturating_sub(3),
    }
}

/// Return from subroutine: pop the low byte then the high byte — the stack
/// pointer incrementing before each read — add one to the popped address
/// (the call pushed the address of its own last byte), set the program
/// counter there, and charge the instruction's five extra cycles (six in all
/// with the opcode fetch).
pub open spec fn rts(s: MachineState) -> MachineState {
    let sp1 = s.cpu.sp.wrapping_add(1);
    let lo = s.mem[stack_addr(sp1) as int];
    let sp2 = sp1.wrapping_add(1);
    let hi = s.mem[stack_addr(sp2) as int];
    MachineState {
        cpu: CPU { pc: word_from(lo, hi).wrapping_add(1), sp: sp2, ..s.cpu },
        cycles: s.cycles.saturating_sub(5),
        ..s
    }
}

/// A zero-page address is just its low byte: forming a word with a zero
/// high byte changes nothing.
pub proof fn lemma_word_from_zero(lo: u8)
    ensures
        word_from(lo, 0) == lo as u16,
{
    assert(((0u8 as u16) << 8) | (lo as u16) == lo as u16) by (bit_vector);
}

/// One instruction, from opcode fetch to completion: fetch the opcode byte,
/// then dispatch on it. A byte that is no supported opcode has no effect
/// beyond its own fetch; the machine goes on with the next byte.
pub open spec fn step(s: MachineState) -> MachineState {
    let op = fetched(s);
    let s1 = after_fetch(s);
    if op == CPU::INS_LDA_IM {
        lda_im(s1)
    } else if op == CPU::INS_LDX_IM {
        ldx_im(s1)
    } else if op == CPU::INS_JSR_AB {
        jsr_abs(s1)
    } else if op == CPU::INS_AND_IM {
        and_im(s1)
    } else if op == CPU::INS_ASL_ACC {
        asl_acc(s1)
    } else if op == CPU::INS_ASL_ZP {
        asl_zp(s1)
    } else if op == CPU::INS_RTS {
        rts(s1)
    } else {
        s1
    }
}

/// The machine run to exhaustion of its cycle budget: instructions execute
/// one after another while the budget is positive; each instruction, once
/// begun, completes in full, the budget never falling below zero.
pub open spec fn run(s: MachineState) -> MachineState
    decreases s.cycles,
{
    if s.cycles == 0 {
        s
    } else {
        run(step(s))
    }
}

} // verus!
