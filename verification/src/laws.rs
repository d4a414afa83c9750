use vstd::prelude::*;

use crate::cpu::CPU;
use crate::machine::after_fetch;
use crate::machine::czn_updated;
use crate::machine::fetched;
use crate::machine::high_byte;
use crate::machine::low_byte;
use crate::machine::stack_addr;
use crate::machine::step;
use crate::machine::word_from;
use crate::machine::zn_updated;
use crate::machine::MachineState;

verus! {

/// After a `zn_updated` write, Zero and Negative hold exactly the bits
/// asked for, and every other flag bit keeps its old value.
pub proof fn lemma_zn_updated_bits(f: u8, zero: bool, negative: bool)
    ensures
        (zn_updated(f, zero, negative) & CPU::Z != 0) == zero,
        (zn_updated(f, zero, negative) & CPU::N != 0) == negative,
        zn_updated(f, zero, negative) & CPU::C == f & CPU::C,
        zn_updated(f, zero, negative) & CPU::I == f & CPU::I,
        zn_updated(f, zero, negative) & CPU::D == f & CPU::D,
        zn_updated(f, zero, negative) & CPU::B == f & CPU::B,
        zn_updated(f, zero, negative) & CPU::UNUSED == f & CPU::UNUSED,
        zn_updated(f, zero, negative) & CPU::V == f & CPU::V,
{
    assert((zn_updated(f, zero, negative) & 0x02u8 != 0) == zero
        && (zn_updated(f, zero, negative) & 0x80u8 != 0) == negative
        && zn_updated(f, zero, negative) & 0x01u8 == f & 0x01u8
        && zn_updated(f, zero, negative) & 0x04u8 == f & 0x04u8
        && zn_updated(f, zero, negative) & 0x08u8 == f & 0x08u8
        && zn_updated(f, zero, negative) & 0x10u8 == f & 0x10u8
        && zn_updated(f, zero, negative) & 0x20u8 == f & 0x20u8
        && zn_updated(f, zero, negative) & 0x40u8 == f & 0x40u8) by (bit_vector);
}

/// After a `czn_updated` write, Carry, Zero and Negative hold exactly the
/// bits asked for, and every other flag bit keeps its old value.
pub proof fn lemma_czn_updated_bits(f: u8, carry: bool, zero: bool, negative: bool)
    ensures
        (czn_updated(f, carry, zero, negative) & CPU::C != 0) == carry,
        (czn_updated(f, carry, zero, negative) & CPU::Z != 0) == zero,
        (czn_updated(f, carry, zero, negative) & CPU::N != 0) == negative,
        czn_updated(f, carry, zero, negative) & CPU::I == f & CPU::I,
        czn_updated(f, carry, zero, negative) & CPU::D == f & CPU::D,
        czn_updated(f, carry, zero, negative) & CPU::B == f & CPU::B,
        czn_updated(f, carry, zero, negative) & CPU::UNUSED == f & CPU::UNUSED,
        czn_updated(f, carry, zero, negative) & CPU::V == f & CPU::V,
{
    assert((czn_updated(f, carry, zero, negative) & 0x01u8 != 0) == carry
        && (czn_updated(f, carry, zero, negative) & 0x02u8 != 0) == zero
        && (czn_updated(f, carry, zero, negative) & 0x80u8 != 0) == negative
        && czn_updated(f, carry, zero, negative) & 0x04u8 == f & 0x04u8
        && czn_updated(f, carry, zero, negative) & 0x08u8 == f & 0x08u8
        && czn_updated(f, carry, zero, negative) & 0x10u8 == f & 0x10u8
        && czn_updated(f, carry, zero, negative) & 0x20u8 == f & 0x20u8
        && czn_updated(f, carry, zero, negative) & 0x40u8 == f & 0x40u8) by (bit_vector);
}

/// A 16-bit word is its high byte over its low byte.
pub proof fn lemma_split16(w: u16)
    ensures
        word_from(low_byte(w), high_byte(w)) == w,
{
    assert(((((w >> 8) as u8) as u16) << 8) | (((w & 0xFF) as u8) as u16) == w) by (bit_vector);
}

/// A stack cell's address is its offset into page 0x0100, so distinct stack
/// pointers address distinct cells.
pub proof fn lemma_stack_addr_is_page_one(sp: u8)
    ensures
        stack_addr(sp) == 0x0100 + sp as u16,
{
    assert(0x0100u16 | (sp as u16) == 0x0100 + (sp as u16)) by (bit_vector);
}

/// Law: load-immediate into the accumulator stores the operand byte
/// exactly; the Zero flag ends set iff that byte is zero, and the Negative
/// flag ends set iff its bit 7 is one.
pub proof fn lemma_load_immediate_accumulator(s: MachineState, v: u8)
    requires
        fetched(s) == CPU::INS_LDA_IM,
        fetched(after_fetch(s)) == v,
    ensures
        step(s).cpu.a == v,
        (step(s).cpu.flags & CPU::Z != 0) == (v == 0),
        (step(s).cpu.flags & CPU::N != 0) == (v & 0x80 != 0),
{
    lemma_zn_updated_bits(s.cpu.flags, v == 0, v & 0x80 != 0);
}

/// Law: load-immediate into the X register stores the operand byte exactly,
/// with the same Zero and Negative outcome as the accumulator load.
pub proof fn lemma_load_immediate_x(s: MachineState, v: u8)
    requires
        fetched(s) == CPU::INS_LDX_IM,
        fetched(after_fetch(s)) == v,
    ensures
        step(s).cpu.x == v,
        (step(s).cpu.flags & CPU::Z != 0) == (v == 0),
        (step(s).cpu.flags & CPU::N != 0) == (v & 0x80 != 0),
{
    lemma_zn_updated_bits(s.cpu.flags, v == 0, v & 0x80 != 0);
}

/// Law: no instruction touches a flag bit outside its defined effect set —
/// Zero and Negative for the loads and the AND, Carry, Zero and Negative
/// for the shifts, none at all for the rest. In particular the Unused bit,
/// once set, stays set across every step, and Interrupt-Disable, Decimal,
/// Break and Overflow never move.
pub proof fn lemma_undefined_flags_untouched(s: MachineState)
    ensures
        step(s).cpu.flags & CPU::I == s.cpu.flags & CPU::I,
        step(s).cpu.flags & CPU::D == s.cpu.flags & CPU::D,
        step(s).cpu.flags & CPU::B == s.cpu.flags & CPU::B,
        step(s).cpu.flags & CPU::UNUSED == s.cpu.flags & CPU::UNUSED,
        step(s).cpu.flags & CPU::V == s.cpu.flags & CPU::V,
{
    let op = fetched(s);
    let s1 = after_fetch(s);
    if op == CPU::INS_LDA_IM {
        lemma_zn_updated_bits(s.cpu.flags, fetched(s1) == 0, fetched(s1) & 0x80 != 0);
    } else if op == CPU::INS_LDX_IM {
        lemma_zn_updated_bits(s.cpu.flags, fetched(s1) == 0, fetched(s1) & 0x80 != 0);
    } else if op == CPU::INS_AND_IM {
        let result = s1.cpu.a & fetched(s1);
        lemma_zn_updated_bits(s.cpu.flags, result == 0, fetched(s1) & 0x80 != 0);
    } else if op == CPU::INS_ASL_ACC {
        let result = s1.cpu.a << 1;
        lemma_czn_updated_bits(s.cpu.flags, s1.cpu.a & 0x80 != 0, result == 0, result & 0x80 != 0);
    } else if op == CPU::INS_ASL_ZP {
        let v = s1.mem[word_from(fetched(s1), 0) as int];
        let result = v << 1;
        lemma_czn_updated_bits(s.cpu.flags, v & 0x80 != 0, result == 0, result & 0x80 != 0);
    }
}

/// Law: a subroutine call whose destination holds the matching return comes
/// full circle. The call pushes the address of its own last byte (the
/// program counter plus two) high byte first; the return pops it back and
/// adds one, so the program counter lands on the instruction after the
/// three-byte call, the stack pointer returns to its pre-call value, every
/// register and flag is as it was, and nothing in memory moved but the two
/// stack cells the call wrote.
pub proof fn lemma_subroutine_round_trip(s: MachineState)
    requires
        s.mem.len() == 0x10000,
        fetched(s) == CPU::INS_JSR_AB,
        fetched(step(s)) == CPU::INS_RTS,
    ensures
        ({
            let u = step(step(s));
            let pushed = s.cpu.pc.wrapping_add(2);
            &&& u.cpu.pc == s.cpu.pc.wrapping_add(3)
            &&& u.cpu.sp == s.cpu.sp
            &&& u.cpu.a == s.cpu.a
            &&& u.cpu.x == s.cpu.x
            &&& u.cpu.y == s.cpu.y
            &&& u.cpu.flags == s.cpu.flags
            &&& u.mem == s.mem.update(stack_addr(s.cpu.sp) as int, high_byte(pushed)).update(
                stack_addr(s.cpu.sp.wrapping_sub(1)) as int,
                low_byte(pushed),
            )
            &&& u.cycles == s.cycles.saturating_sub(12)
        }),
{
    let pushed = s.cpu.pc.wrapping_add(2);
    let t = step(s);
    let sp0 = s.cpu.sp;
    let sp1 = sp0.wrapping_sub(1);
    assert(after_fetch(after_fetch(after_fetch(s))).cpu.pc.wrapping_sub(1) == pushed);
    assert(t.mem == s.mem.update(stack_addr(sp0) as int, high_byte(pushed)).update(
        stack_addr(sp1) as int,
        low_byte(pushed),
    ));
    lemma_stack_addr_is_page_one(sp0);
    lemma_stack_addr_is_page_one(sp1);
    assert(t.cpu.sp.wrapping_add(1) == sp1);
    assert(t.cpu.sp.wrapping_add(1).wrapping_add(1) == sp0);
    lemma_split16(pushed);
}

} // verus!
