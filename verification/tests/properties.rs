use emulation_6502::CPU;
use emulation_6502::Mem;

/// A processor reset against an image whose reset vector points at 0x8000.
fn setup() -> (CPU, Mem) {
    let mut cpu: CPU = CPU::new();
    let mut mem: Mem = Mem::new();

    mem.write_byte(0xFFFC, 0x00);
    mem.write_byte(0xFFFD, 0x80);

    cpu.reset(&mem);

    (cpu, mem)
}

fn flag_set(cpu: &CPU, mask: u8) -> bool {
    *cpu.flags() & mask != 0
}

#[test]
fn new_cpu_has_power_on_defaults() {
    let cpu: CPU = CPU::new();
    assert_eq!(*cpu.pc(), 0x0000);
    assert_eq!(*cpu.sp(), 0xFF);
    assert_eq!(*cpu.a(), 0x00);
    assert_eq!(*cpu.x(), 0x00);
    assert_eq!(*cpu.y(), 0x00);
    assert_eq!(*cpu.flags(), CPU::UNUSED);
}

#[test]
fn reset_reads_the_reset_vector() {
    let (cpu, _mem): (CPU, Mem) = setup();
    assert_eq!(*cpu.pc(), 0x8000);
    assert_eq!(*cpu.sp(), 0xFF);
    assert_eq!(*cpu.flags(), CPU::UNUSED);
}

#[test]
fn mem_starts_zeroed_and_round_trips_writes() {
    let mut mem: Mem = Mem::new();
    assert_eq!(mem.read_byte(0x0000), 0x00);
    assert_eq!(mem.read_byte(0xFFFF), 0x00);
    mem.write_byte(0x1234, 0xAB);
    assert_eq!(mem.read_byte(0x1234), 0xAB);
    mem.init();
    assert_eq!(mem.read_byte(0x1234), 0x00);
}

#[test]
fn lda_immediate_loads_the_value() {
    let (mut cpu, mut mem): (CPU, Mem) = setup();
    mem.write_byte(0x8000, CPU::INS_LDA_IM);
    mem.write_byte(0x8001, 0x42);
    cpu.execute(2, &mut mem);
    assert_eq!(*cpu.a(), 0x42);
    assert!(!flag_set(&cpu, CPU::Z));
    assert!(!flag_set(&cpu, CPU::N));
}

#[test]
fn lda_immediate_zero_sets_the_zero_flag() {
    let (mut cpu, mut mem): (CPU, Mem) = setup();
    mem.write_byte(0x8000, CPU::INS_LDA_IM);
    mem.write_byte(0x8001, 0x00);
    cpu.execute(2, &mut mem);
    assert_eq!(*cpu.a(), 0x00);
    assert!(flag_set(&cpu, CPU::Z));
    assert!(!flag_set(&cpu, CPU::N));
}

#[test]
fn lda_immediate_high_bit_sets_the_negative_flag() {
    let (mut cpu, mut mem): (CPU, Mem) = setup();
    mem.write_byte(0x8000, CPU::INS_LDA_IM);
    mem.write_byte(0x8001, 0x80);
    cpu.execute(2, &mut mem);
    assert_eq!(*cpu.a(), 0x80);
    assert!(!flag_set(&cpu, CPU::Z));
    assert!(flag_set(&cpu, CPU::N));
}

#[test]
fn ldx_immediate_loads_the_value_and_flags() {
    let (mut cpu, mut mem): (CPU, Mem) = setup();
    mem.write_byte(0x8000, CPU::INS_LDX_IM);
    mem.write_byte(0x8001, 0x00);
    mem.write_byte(0x8002, CPU::INS_LDX_IM);
    mem.write_byte(0x8003, 0x90);
    cpu.execute(2, &mut mem);
    assert_eq!(*cpu.x(), 0x00);
    assert!(flag_set(&cpu, CPU::Z));
    cpu.execute(2, &mut mem);
    assert_eq!(*cpu.x(), 0x90);
    assert!(!flag_set(&cpu, CPU::Z));
    assert!(flag_set(&cpu, CPU::N));
}

#[test]
fn asl_acc_on_0x20_clears_carry_zero_negative() {
    let (mut cpu, mut mem): (CPU, Mem) = setup();
    mem.write_byte(0x8000, CPU::INS_LDA_IM);
    mem.write_byte(0x8001, 0x20);
    mem.write_byte(0x8002, CPU::INS_ASL_ACC);
    cpu.execute(4, &mut mem);
    assert_eq!(*cpu.a(), 0x40);
    assert!(!flag_set(&cpu, CPU::C));
    assert!(!flag_set(&cpu, CPU::Z));
    assert!(!flag_set(&cpu, CPU::N));
}

#[test]
fn asl_acc_chain_sets_carry_and_negative_only() {
    let (mut cpu, mut mem): (CPU, Mem) = setup();
    mem.write_byte(0x8000, CPU::INS_LDA_IM);
    mem.write_byte(0x8001, 0x20);
    mem.write_byte(0x8002, CPU::INS_ASL_ACC);
    mem.write_byte(0x8003, CPU::INS_LDA_IM);
    mem.write_byte(0x8004, 0xEF);
    mem.write_byte(0x8005, CPU::INS_ASL_ACC);
    cpu.execute(8, &mut mem);
    assert_eq!(*cpu.a(), 0xDE);
    assert!(flag_set(&cpu, CPU::C));
    assert!(flag_set(&cpu, CPU::N));
    assert!(!flag_set(&cpu, CPU::Z));
    assert!(!flag_set(&cpu, CPU::I));
    assert!(!flag_set(&cpu, CPU::D));
    assert!(!flag_set(&cpu, CPU::B));
    assert!(!flag_set(&cpu, CPU::V));
    assert!(flag_set(&cpu, CPU::UNUSED));
}

#[test]
fn jsr_pushes_the_return_address_in_six_cycles() {
    let (mut cpu, mut mem): (CPU, Mem) = setup();
    mem.write_byte(0x8000, CPU::INS_JSR_AB);
    mem.write_byte(0x8001, 0x49);
    mem.write_byte(0x8002, 0x50);
    // An instruction at the destination: a budget of exactly six cycles must
    // not reach it.
    mem.write_byte(0x5049, CPU::INS_LDA_IM);
    mem.write_byte(0x504A, 0x77);
    cpu.execute(6, &mut mem);
    assert_eq!(*cpu.pc(), 0x5049);
    assert_eq!(*cpu.a(), 0x00);
    assert_eq!(*cpu.sp(), 0xFD);
    // The return address 0x8003 is encoded on the stack as 0x8002 (the
    // address of the call's last byte), high byte first.
    assert_eq!(mem.read_byte(0x01FF), 0x80);
    assert_eq!(mem.read_byte(0x01FE), 0x02);
}

#[test]
fn rts_restores_pc_and_stack_pointer() {
    let (mut cpu, mut mem): (CPU, Mem) = setup();
    mem.write_byte(0x8000, CPU::INS_JSR_AB);
    mem.write_byte(0x8001, 0x49);
    mem.write_byte(0x8002, 0x50);
    mem.write_byte(0x5049, CPU::INS_LDX_IM);
    mem.write_byte(0x504A, 0x02);
    mem.write_byte(0x504B, CPU::INS_RTS);
    cpu.execute(14, &mut mem);
    assert_eq!(*cpu.pc(), 0x8003);
    assert_eq!(*cpu.x(), 0x02);
    // The return popped both pushed bytes: the stack pointer is back at its
    // pre-call value.
    assert_eq!(*cpu.sp(), 0xFF);
}

#[test]
fn and_immediate_takes_negative_from_the_operand() {
    let (mut cpu, mut mem): (CPU, Mem) = setup();
    mem.write_byte(0x8000, CPU::INS_LDA_IM);
    mem.write_byte(0x8001, 0x0F);
    mem.write_byte(0x8002, CPU::INS_AND_IM);
    mem.write_byte(0x8003, 0xF0);
    cpu.execute(4, &mut mem);
    assert_eq!(*cpu.a(), 0x00);
    assert!(flag_set(&cpu, CPU::Z));
    // Negative follows the operand's high bit, not the result's.
    assert!(flag_set(&cpu, CPU::N));
}

#[test]
fn asl_zero_page_shifts_the_addressed_cell() {
    let (mut cpu, mut mem): (CPU, Mem) = setup();
    mem.write_byte(0x8000, CPU::INS_ASL_ZP);
    mem.write_byte(0x8001, 0x42);
    mem.write_byte(0x0042, 0x81);
    cpu.execute(3, &mut mem);
    assert_eq!(mem.read_byte(0x0042), 0x02);
    assert_eq!(*cpu.pc(), 0x8002);
    assert!(flag_set(&cpu, CPU::C));
    assert!(!flag_set(&cpu, CPU::Z));
    assert!(!flag_set(&cpu, CPU::N));
}

#[test]
fn asl_zero_page_to_zero_sets_zero_and_carry() {
    let (mut cpu, mut mem): (CPU, Mem) = setup();
    mem.write_byte(0x8000, CPU::INS_ASL_ZP);
    mem.write_byte(0x8001, 0x42);
    mem.write_byte(0x0042, 0x80);
    cpu.execute(3, &mut mem);
    assert_eq!(mem.read_byte(0x0042), 0x00);
    assert!(flag_set(&cpu, CPU::C));
    assert!(flag_set(&cpu, CPU::Z));
    assert!(!flag_set(&cpu, CPU::N));
}

#[test]
fn unknown_opcode_is_skipped() {
    let (mut cpu, mut mem): (CPU, Mem) = setup();
    mem.write_byte(0x8000, 0xFF);
    cpu.execute(1, &mut mem);
    assert_eq!(*cpu.pc(), 0x8001);
    assert_eq!(*cpu.a(), 0x00);
    assert_eq!(*cpu.x(), 0x00);
    assert_eq!(*cpu.y(), 0x00);
    assert_eq!(*cpu.sp(), 0xFF);
    assert_eq!(*cpu.flags(), CPU::UNUSED);
}

#[test]
fn an_instruction_once_begun_completes_on_a_short_budget() {
    let (mut cpu, mut mem): (CPU, Mem) = setup();
    mem.write_byte(0x8000, CPU::INS_LDA_IM);
    mem.write_byte(0x8001, 0x55);
    // One cycle pays for the opcode fetch alone, but the dispatched
    // instruction still completes in full.
    cpu.execute(1, &mut mem);
    assert_eq!(*cpu.a(), 0x55);
    assert_eq!(*cpu.pc(), 0x8002);
}

#[test]
fn fetch_byte_wraps_the_program_counter() {
    let mut cpu: CPU = CPU::new();
    let mut mem: Mem = Mem::new();
    mem.write_byte(0xFFFC, 0xFF);
    mem.write_byte(0xFFFD, 0xFF);
    mem.write_byte(0xFFFF, 0xAB);
    cpu.reset(&mem);
    assert_eq!(*cpu.pc(), 0xFFFF);
    let mut cycles: u32 = 1;
    let data = cpu.fetch_byte(&mut cycles, &mem);
    assert_eq!(data, 0xAB);
    assert_eq!(*cpu.pc(), 0x0000);
    assert_eq!(cycles, 0);
}
