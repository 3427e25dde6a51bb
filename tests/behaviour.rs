use emu6502::cpu::{ExecError, Step, CPU};

const C: u8 = 0b0000_0001;
const Z: u8 = 0b0000_0010;
const V: u8 = 0b0100_0000;
const N: u8 = 0b1000_0000;

fn loaded(program: Vec<u8>) -> CPU {
    let mut cpu = CPU::new();
    cpu.load(program);
    cpu.reset();
    cpu
}

#[test]
fn lda_zero_sets_z_and_clears_n() {
    let mut cpu = CPU::new();
    cpu.load_and_run(vec![0xa9, 0x00, 0x00]).unwrap();
    assert_eq!(cpu.register_a, 0);
    assert_eq!(cpu.processor_status & Z, Z);
    assert_eq!(cpu.processor_status & N, 0);
}

#[test]
fn lda_ff_sets_n_and_clears_z() {
    let mut cpu = CPU::new();
    cpu.load_and_run(vec![0xa9, 0xff, 0x00]).unwrap();
    assert_eq!(cpu.register_a, 0xff);
    assert_eq!(cpu.processor_status & N, N);
    assert_eq!(cpu.processor_status & Z, 0);
}

#[test]
fn tax_then_inx_wraps_to_zero() {
    let mut cpu = CPU::new();
    cpu.load_and_run(vec![0xa9, 0xff, 0xaa, 0xe8, 0x00]).unwrap();
    assert_eq!(cpu.register_x, 0);
    assert_eq!(cpu.processor_status & Z, Z);
    assert_eq!(cpu.processor_status & N, 0);
}

#[test]
fn adc_signed_overflow_without_carry() {
    let mut cpu = CPU::new();
    cpu.load_and_run(vec![0xa9, 0x50, 0x69, 0x50, 0x00]).unwrap();
    assert_eq!(cpu.register_a, 0xa0);
    assert_eq!(cpu.processor_status & V, V);
    assert_eq!(cpu.processor_status & N, N);
    assert_eq!(cpu.processor_status & C, 0);
}

#[test]
fn adc_carry_out_without_overflow() {
    let mut cpu = CPU::new();
    cpu.load_and_run(vec![0xa9, 0x50, 0x69, 0xd0, 0x00]).unwrap();
    assert_eq!(cpu.register_a, 0x20);
    assert_eq!(cpu.processor_status & C, C);
    assert_eq!(cpu.processor_status & V, 0);
}

#[test]
fn sbc_with_borrow_in() {
    let mut cpu = CPU::new();
    cpu.load_and_run(vec![0xa9, 0xd0, 0xe9, 0x70, 0x00]).unwrap();
    assert_eq!(cpu.register_a, 0x5f);
    assert_eq!(cpu.processor_status & C, C);
    assert_eq!(cpu.processor_status & V, V);
    assert_eq!(cpu.processor_status & N, 0);
}

#[test]
fn adc_nine_bit_sum_is_exact() {
    // SEC; LDA #$FF; ADC #$FF: 0xff + 0xff + 1 = 0x1ff = carry 1, A 0xff.
    let mut cpu = CPU::new();
    cpu.load_and_run(vec![0x38, 0xa9, 0xff, 0x69, 0xff, 0x00]).unwrap();
    assert_eq!(cpu.register_a, 0xff);
    assert_eq!(cpu.processor_status & C, C);
    assert_eq!(cpu.processor_status & V, 0);
    assert_eq!(cpu.processor_status & N, N);
}

#[test]
fn jmp_indirect_does_not_cross_page() {
    let mut cpu = loaded(vec![0x6c, 0xff, 0x30]);
    cpu.memory_write(0x30ff, 0x40);
    cpu.memory_write(0x3000, 0x80);
    cpu.memory_write(0x3100, 0x50);
    assert_eq!(cpu.step(), Ok(Step::Continue));
    assert_eq!(cpu.program_counter, 0x8040);
    assert_ne!(cpu.program_counter, 0x5040);
}

#[test]
fn jmp_indirect_high_byte_from_page_start() {
    let mut cpu = loaded(vec![0x6c, 0xff, 0x30]);
    cpu.memory_write(0x3000, 0x40);
    cpu.memory_write(0x30ff, 0x80);
    cpu.memory_write(0x3100, 0x50);
    cpu.step().unwrap();
    assert_eq!(cpu.program_counter, 0x4080);
}

#[test]
fn jmp_indirect_inside_page() {
    let mut cpu = loaded(vec![0x6c, 0x10, 0x30]);
    cpu.memory_write(0x3010, 0x34);
    cpu.memory_write(0x3011, 0x12);
    cpu.step().unwrap();
    assert_eq!(cpu.program_counter, 0x1234);
}

#[test]
fn jmp_absolute() {
    let mut cpu = loaded(vec![0x4c, 0x00, 0x90]);
    cpu.step().unwrap();
    assert_eq!(cpu.program_counter, 0x9000);
}

#[test]
fn pha_pla_round_trip() {
    // LDA #$42; PHA; LDA #$00; PLA; BRK
    let mut cpu = CPU::new();
    cpu.load_and_run(vec![0xa9, 0x42, 0x48, 0xa9, 0x00, 0x68, 0x00]).unwrap();
    assert_eq!(cpu.register_a, 0x42);
    assert_eq!(cpu.stack_pointer, 0xfd);
    assert_eq!(cpu.memory_read(0x01fd), 0x42);
    assert_eq!(cpu.processor_status & Z, 0);
}

#[test]
fn push_with_stack_pointer_zero_wraps() {
    // LDX #$00; TXS; LDA #$11; PHA; BRK
    let mut cpu = CPU::new();
    cpu.load_and_run(vec![0xa2, 0x00, 0x9a, 0xa9, 0x11, 0x48, 0x00]).unwrap();
    assert_eq!(cpu.memory_read(0x0100), 0x11);
    assert_eq!(cpu.stack_pointer, 0xff);
}

#[test]
fn jsr_then_rts_returns_after_call() {
    // $8000: JSR $8006; LDX #$07; BRK   $8006: LDY #$09; RTS
    let mut cpu = loaded(vec![0x20, 0x06, 0x80, 0xa2, 0x07, 0x00, 0xa0, 0x09, 0x60]);
    cpu.step().unwrap();
    assert_eq!(cpu.program_counter, 0x8006);
    assert_eq!(cpu.stack_pointer, 0xfb);
    assert_eq!(cpu.memory_read(0x01fd), 0x80);
    assert_eq!(cpu.memory_read(0x01fc), 0x02);
    cpu.step().unwrap();
    cpu.step().unwrap();
    assert_eq!(cpu.program_counter, 0x8003);
    assert_eq!(cpu.stack_pointer, 0xfd);
    assert_eq!(cpu.execute(), Ok(()));
    assert_eq!(cpu.register_x, 7);
    assert_eq!(cpu.register_y, 9);
    assert_eq!(cpu.program_counter, 0x8006);
}

#[test]
fn branch_not_taken_advances_two() {
    // LDA #$01; BEQ +5; BRK
    let mut cpu = loaded(vec![0xa9, 0x01, 0xf0, 0x05, 0x00]);
    cpu.step().unwrap();
    cpu.step().unwrap();
    assert_eq!(cpu.program_counter, 0x8004);
}

#[test]
fn branch_taken_skips_forward() {
    // LDA #$00; BEQ +2; LDX #$01; BRK
    let mut cpu = loaded(vec![0xa9, 0x00, 0xf0, 0x02, 0xa2, 0x01, 0x00]);
    cpu.step().unwrap();
    cpu.step().unwrap();
    assert_eq!(cpu.program_counter, 0x8006);
    assert_eq!(cpu.execute(), Ok(()));
    assert_eq!(cpu.register_x, 0);
}

#[test]
fn unknown_opcode_names_the_byte() {
    let mut cpu = CPU::new();
    assert_eq!(cpu.load_and_run(vec![0xea, 0x02]), Err(ExecError::UnknownOpcode(0x02)));
    assert_eq!(cpu.program_counter, 0x8002);
}

#[test]
fn step_limit_stops_an_endless_loop() {
    let mut cpu = loaded(vec![0x4c, 0x00, 0x80]);
    assert_eq!(cpu.execute_steps(10), Err(ExecError::StepLimit));
    assert_eq!(cpu.program_counter, 0x8000);
}

#[test]
fn step_reports_break_and_continue() {
    let mut cpu = loaded(vec![0xea, 0x00]);
    assert_eq!(cpu.step(), Ok(Step::Continue));
    assert_eq!(cpu.program_counter, 0x8001);
    assert_eq!(cpu.step(), Ok(Step::Break));
    assert_eq!(cpu.program_counter, 0x8002);
}

#[test]
fn bit_copies_bits_seven_and_six() {
    let mut cpu = CPU::new();
    cpu.memory_write(0x10, 0xc0);
    cpu.load_and_run(vec![0xa9, 0x01, 0x24, 0x10, 0x00]).unwrap();
    assert_eq!(cpu.register_a, 1);
    assert_eq!(cpu.processor_status & Z, Z);
    assert_eq!(cpu.processor_status & N, N);
    assert_eq!(cpu.processor_status & V, V);
}

#[test]
fn rol_accumulator_through_carry() {
    // SEC; LDA #$80; ROL A
    let mut cpu = CPU::new();
    cpu.load_and_run(vec![0x38, 0xa9, 0x80, 0x2a, 0x00]).unwrap();
    assert_eq!(cpu.register_a, 0x01);
    assert_eq!(cpu.processor_status & C, C);
}

#[test]
fn ror_accumulator_through_carry() {
    // CLC; LDA #$01; ROR A
    let mut cpu = CPU::new();
    cpu.load_and_run(vec![0x18, 0xa9, 0x01, 0x6a, 0x00]).unwrap();
    assert_eq!(cpu.register_a, 0x00);
    assert_eq!(cpu.processor_status & C, C);
    assert_eq!(cpu.processor_status & Z, Z);
}

#[test]
fn ror_zero_page_is_opcode_0x66() {
    // SEC; ROR $20
    let mut cpu = CPU::new();
    cpu.memory_write(0x20, 0x02);
    cpu.load_and_run(vec![0x38, 0x66, 0x20, 0x00]).unwrap();
    assert_eq!(cpu.memory_read(0x20), 0x81);
    assert_eq!(cpu.processor_status & C, 0);
    assert_eq!(cpu.processor_status & N, N);
}

#[test]
fn rol_zero_page_is_opcode_0x26() {
    // CLC; ROL $20
    let mut cpu = CPU::new();
    cpu.memory_write(0x20, 0x81);
    cpu.load_and_run(vec![0x18, 0x26, 0x20, 0x00]).unwrap();
    assert_eq!(cpu.memory_read(0x20), 0x02);
    assert_eq!(cpu.processor_status & C, C);
}

#[test]
fn asl_and_lsr_on_memory() {
    let mut cpu = CPU::new();
    cpu.memory_write(0x20, 0x81);
    cpu.memory_write(0x21, 0x03);
    cpu.load_and_run(vec![0x06, 0x20, 0x46, 0x21, 0x00]).unwrap();
    assert_eq!(cpu.memory_read(0x20), 0x02);
    assert_eq!(cpu.memory_read(0x21), 0x01);
    assert_eq!(cpu.processor_status & C, C);
}

#[test]
fn php_plp_force_break_and_unused() {
    // SEC; PHP; CLC; PLP
    let mut cpu = CPU::new();
    cpu.load_and_run(vec![0x38, 0x08, 0x18, 0x28, 0x00]).unwrap();
    assert_eq!(cpu.memory_read(0x01fd), 0x31);
    assert_eq!(cpu.processor_status, 0x21);
    assert_eq!(cpu.stack_pointer, 0xfd);
}

#[test]
fn rti_pulls_status_then_pc() {
    // push $90, $00, $C3 as PCH, PCL, P; RTI
    let mut cpu = CPU::new();
    let program = vec![0xa9, 0x90, 0x48, 0xa9, 0x00, 0x48, 0xa9, 0xc3, 0x48, 0x40];
    cpu.load_and_run(program).unwrap();
    assert_eq!(cpu.processor_status, 0xe3);
    assert_eq!(cpu.program_counter, 0x9001);
    assert_eq!(cpu.stack_pointer, 0xfd);
}

#[test]
fn txs_and_tsx() {
    // LDX #$40; TXS; LDX #$00; TSX
    let mut cpu = CPU::new();
    cpu.load_and_run(vec![0xa2, 0x40, 0x9a, 0xa2, 0x00, 0xba, 0x00]).unwrap();
    assert_eq!(cpu.stack_pointer, 0x40);
    assert_eq!(cpu.register_x, 0x40);
    assert_eq!(cpu.processor_status & (Z | N), 0);
}

#[test]
fn indirect_x_load() {
    let mut cpu = CPU::new();
    cpu.memory_write(0x24, 0x74);
    cpu.memory_write(0x25, 0x20);
    cpu.memory_write(0x2074, 0x5a);
    cpu.load_and_run(vec![0xa2, 0x04, 0xa1, 0x20, 0x00]).unwrap();
    assert_eq!(cpu.register_a, 0x5a);
}

#[test]
fn indirect_y_load() {
    let mut cpu = CPU::new();
    cpu.memory_write(0x86, 0x28);
    cpu.memory_write(0x87, 0x40);
    cpu.memory_write(0x4038, 0x77);
    cpu.load_and_run(vec![0xa0, 0x10, 0xb1, 0x86, 0x00]).unwrap();
    assert_eq!(cpu.register_a, 0x77);
}

#[test]
fn zero_page_x_wraps_within_page() {
    let mut cpu = CPU::new();
    cpu.memory_write(0x7f, 0x99);
    cpu.load_and_run(vec![0xa2, 0xff, 0xb5, 0x80, 0x00]).unwrap();
    assert_eq!(cpu.register_a, 0x99);
}

#[test]
fn absolute_y_store() {
    let mut cpu = CPU::new();
    cpu.load_and_run(vec![0xa9, 0x66, 0xa0, 0x03, 0x99, 0x00, 0x02, 0x00]).unwrap();
    assert_eq!(cpu.memory_read(0x0203), 0x66);
}

#[test]
fn flag_set_and_clear_ops() {
    let mut cpu = CPU::new();
    cpu.load_and_run(vec![0x38, 0x78, 0xf8, 0x00]).unwrap();
    assert_eq!(cpu.processor_status, 0x0d);
    let mut cpu = CPU::new();
    cpu.load_and_run(vec![0x38, 0x78, 0xf8, 0x18, 0x58, 0xd8, 0x00]).unwrap();
    assert_eq!(cpu.processor_status, 0x00);
}

#[test]
fn clv_clears_overflow() {
    let mut cpu = CPU::new();
    cpu.load_and_run(vec![0xa9, 0x50, 0x69, 0x50, 0xb8, 0x00]).unwrap();
    assert_eq!(cpu.processor_status & V, 0);
    assert_eq!(cpu.processor_status & N, N);
}

#[test]
fn cmp_greater_operand_clears_carry() {
    let mut cpu = CPU::new();
    cpu.load_and_run(vec![0xa9, 0x05, 0xc9, 0x06, 0x00]).unwrap();
    assert_eq!(cpu.processor_status & C, 0);
    assert_eq!(cpu.processor_status & Z, 0);
}

#[test]
fn inc_zero_page_wraps() {
    let mut cpu = CPU::new();
    cpu.memory_write(0x10, 0xff);
    cpu.load_and_run(vec![0xe6, 0x10, 0x00]).unwrap();
    assert_eq!(cpu.memory_read(0x10), 0x00);
    assert_eq!(cpu.processor_status & Z, Z);
}

#[test]
fn ora_then_eor() {
    let mut cpu = CPU::new();
    cpu.load_and_run(vec![0xa9, 0x0f, 0x09, 0xf0, 0x49, 0xff, 0x00]).unwrap();
    assert_eq!(cpu.register_a, 0x00);
    assert_eq!(cpu.processor_status & Z, Z);
}

#[test]
fn new_processor_state() {
    let cpu = CPU::new();
    assert_eq!(cpu.register_a, 0);
    assert_eq!(cpu.register_x, 0);
    assert_eq!(cpu.register_y, 0);
    assert_eq!(cpu.processor_status, 0);
    assert_eq!(cpu.program_counter, 0);
    assert_eq!(cpu.stack_pointer, 0xfd);
    assert_eq!(cpu.memory_read(0xffff), 0);
}

#[test]
fn load_and_reset_follow_the_vector() {
    let mut cpu = CPU::new();
    cpu.register_a = 3;
    cpu.stack_pointer = 0x10;
    cpu.processor_status = 0xff;
    cpu.load(vec![0xea]);
    assert_eq!(cpu.memory_read(0x8000), 0xea);
    assert_eq!(cpu.memory_read(0xfffc), 0x00);
    assert_eq!(cpu.memory_read(0xfffd), 0x80);
    cpu.reset();
    assert_eq!(cpu.register_a, 0);
    assert_eq!(cpu.stack_pointer, 0xfd);
    assert_eq!(cpu.processor_status, 0);
    assert_eq!(cpu.program_counter, 0x8000);
}

#[test]
fn load_largest_program() {
    let mut cpu = CPU::new();
    cpu.load(vec![0xea; 0x8000]);
    assert_eq!(cpu.memory_read(0x8000), 0xea);
    assert_eq!(cpu.memory_read(0xfffb), 0xea);
    assert_eq!(cpu.memory_read(0xfffc), 0x00);
    assert_eq!(cpu.memory_read(0xfffd), 0x80);
    assert_eq!(cpu.memory_read(0xfffe), 0xea);
    assert_eq!(cpu.memory_read(0x7fff), 0x00);
}

#[test]
fn memory_u16_little_endian_and_wrapping() {
    let mut cpu = CPU::new();
    cpu.memory_write_u16(0x1234, 0xbeef);
    assert_eq!(cpu.memory_read(0x1234), 0xef);
    assert_eq!(cpu.memory_read(0x1235), 0xbe);
    assert_eq!(cpu.memory_read_u16(0x1234), 0xbeef);
    cpu.memory_write_u16(0xffff, 0x1122);
    assert_eq!(cpu.memory_read(0xffff), 0x22);
    assert_eq!(cpu.memory_read(0x0000), 0x11);
    assert_eq!(cpu.memory_read_u16(0xffff), 0x1122);
}
