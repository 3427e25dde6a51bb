use emu6502::cpu::CPU;

#[test]
fn test_0xa9_lda_is_loading_accumulator() {
    let mut cpu = CPU::new();
    cpu.load_and_run(vec![0xa9, 0x05, 0x00]).unwrap();
    assert_eq!(cpu.register_a, 5);
    assert!(cpu.processor_status & 0b0000_0010 == 0);
    assert!(cpu.processor_status & 0b1000_0000 == 0);
}

#[test]
fn test_0xa9_lda_zero_flag() {
    let mut cpu = CPU::new();
    cpu.load_and_run(vec![0xa9, 0x00, 0x00]).unwrap();
    assert_eq!(cpu.register_a, 0);
    assert!(cpu.processor_status & 0b0000_0010 == 0b10);
}

#[test]
fn test_0xa9_lda_negative_flag() {
    let mut cpu = CPU::new();
    cpu.load_and_run(vec![0xa9, 0xff, 0x00]).unwrap();
    assert!(cpu.processor_status & 0b1000_0000 == 0b1000_0000);
}

#[test]
fn test_0xa2_ldx_is_loading_register_x() {
    let mut cpu = CPU::new();
    cpu.load_and_run(vec![0xa2, 0x05, 0x00]).unwrap();
    assert_eq!(cpu.register_x, 5);
    assert!(cpu.processor_status & 0b0000_0010 == 0);
    assert!(cpu.processor_status & 0b1000_0000 == 0);
}

#[test]
fn test_0xa2_ldx_zero_flag() {
    let mut cpu = CPU::new();
    cpu.load_and_run(vec![0xa2, 0x00, 0x00]).unwrap();
    assert_eq!(cpu.register_x, 0);
    assert!(cpu.processor_status & 0b0000_0010 == 0b10);
}

#[test]
fn test_0xa2_ldx_negative_flag() {
    let mut cpu = CPU::new();
    cpu.load_and_run(vec![0xa2, 0xff, 0x00]).unwrap();
    assert!(cpu.processor_status & 0b1000_0000 == 0b1000_0000);
}

#[test]
fn test_0xa0_ldy_is_loading_register_y() {
    let mut cpu = CPU::new();
    cpu.load_and_run(vec![0xa0, 0x05, 0x00]).unwrap();
    assert_eq!(cpu.register_y, 5);
    assert!(cpu.processor_status & 0b0000_0010 == 0);
    assert!(cpu.processor_status & 0b1000_0000 == 0);
}

#[test]
fn test_0xa0_ldy_zero_flag() {
    let mut cpu = CPU::new();
    cpu.load_and_run(vec![0xa0, 0x00, 0x00]).unwrap();
    assert_eq!(cpu.register_y, 0);
    assert!(cpu.processor_status & 0b0000_0010 == 0b10);
}

#[test]
fn test_0xa0_ldy_negative_flag() {
    let mut cpu = CPU::new();
    cpu.load_and_run(vec![0xa0, 0xff, 0x00]).unwrap();
    assert!(cpu.processor_status & 0b1000_0000 == 0b1000_0000);
}


#[test]
fn test_0xaa_tax_is_moving_from_a_to_x() {
    let mut cpu = CPU::new();
    cpu.load_and_run(vec![0xa9, 0x05, 0xaa, 0x00]).unwrap();
    assert_eq!(cpu.register_x, 5);
}

#[test]
fn test_0xa8_tay_is_moving_from_a_to_y() {
    let mut cpu = CPU::new();
    cpu.load_and_run(vec![0xa9, 0x05, 0xa8, 0x00]).unwrap();
    assert_eq!(cpu.register_y, 5);
}

#[test]
fn test_0x98_tya_is_moving_from_y_to_a() {
    let mut cpu = CPU::new();
    cpu.load_and_run(vec![0xa0, 0x05, 0x98, 0x00]).unwrap();
    assert_eq!(cpu.register_a, 5);
}

#[test]
fn test_0x8a_txa_is_moving_from_x_to_a() {
    let mut cpu = CPU::new();
    cpu.load_and_run(vec![0xa2, 0x05, 0x8a, 0x00]).unwrap();
    assert_eq!(cpu.register_a, 5);
}

#[test]
fn test_inx_overflow() {
    let mut cpu = CPU::new();
    cpu.register_x = 0xff;
    cpu.load_and_run(vec![0xa9, 0xff, 0xaa, 0xe8, 0x00]).unwrap();

    assert_eq!(cpu.register_x, 0)
}

#[test]
fn test_iny_overflow() {
    let mut cpu = CPU::new();
    cpu.register_y = 0xff;
    cpu.load_and_run(vec![0xa0, 0xff, 0xa8, 0xe8, 0x00]).unwrap();

    assert_eq!(cpu.register_y, 0)
}

#[test]
fn test_0xca_dex() {
    let mut cpu = CPU::new();
    cpu.register_x = 0x00;
    cpu.load_and_run(vec![0xca, 0x00]).unwrap();

    assert_eq!(cpu.register_x, 0xff)
}

#[test]
fn test_0x88_dex() {
    let mut cpu = CPU::new();
    cpu.register_y = 0x00;
    cpu.load_and_run(vec![0x88, 0x00]).unwrap();

    assert_eq!(cpu.register_y, 0xff)
}

#[test]
fn test_cmp_carry_flag() {
    let mut cpu = CPU::new();
    cpu.load_and_run(vec![0xa9, 0x05, 0xc9, 0x04, 0x00]).unwrap();

    assert!(cpu.processor_status & 0b0000_0001 == 0b0000_0001);
}

#[test]
fn test_cmp_zero_flag() {
    let mut cpu = CPU::new();
    cpu.load_and_run(vec![0xa9, 0x05, 0xc9, 0x05, 0x00]).unwrap();

    assert!(cpu.processor_status & 0b0000_0011 == 0b0000_0011);
}

#[test]
fn test_cmp_negative_flag() {
    let mut cpu = CPU::new();
    cpu.load_and_run(vec![0xa9, 0x05, 0xc9, 0x06, 0x00]).unwrap();

    assert!(cpu.processor_status & 0b1000_0000 == 0b1000_0000);
}

#[test]
fn test_cpx_carry_flag() {
    let mut cpu = CPU::new();
    cpu.load_and_run(vec![0xa2, 0x05, 0xe0, 0x04, 0x00]).unwrap();

    assert!(cpu.processor_status & 0b0000_0001 == 0b0000_0001);
}

#[test]
fn test_cpx_zero_flag() {
    let mut cpu = CPU::new();
    cpu.load_and_run(vec![0xa2, 0x05, 0xe0, 0x05, 0x00]).unwrap();

    assert!(cpu.processor_status & 0b0000_0011 == 0b0000_0011);
}

#[test]
fn test_cpx_negative_flag() {
    let mut cpu = CPU::new();
    cpu.load_and_run(vec![0xa2, 0x05, 0xe0, 0x06, 0x00]).unwrap();

    assert!(cpu.processor_status & 0b1000_0000 == 0b1000_0000);
}

#[test]
fn test_cpy_carry_flag() {
    let mut cpu = CPU::new();
    cpu.load_and_run(vec![0xa0, 0x05, 0xc0, 0x04, 0x00]).unwrap();

    assert!(cpu.processor_status & 0b0000_0001 == 0b0000_0001);
}

#[test]
fn test_cpy_zero_flag() {
    let mut cpu = CPU::new();
    cpu.load_and_run(vec![0xa0, 0x05, 0xc0, 0x05, 0x00]).unwrap();

    assert!(cpu.processor_status & 0b0000_0011 == 0b0000_0011);
}

#[test]
fn test_cpy_negative_flag() {
    let mut cpu = CPU::new();
    cpu.load_and_run(vec![0xa0, 0x05, 0xc0, 0x06, 0x00]).unwrap();

    assert!(cpu.processor_status & 0b1000_0000 == 0b1000_0000);
}

#[test]
fn test_adc_0x69() {
    let mut cpu = CPU::new();
    cpu.load_and_run(vec![0x69, 0x50, 0x00]).unwrap();

    assert_eq!(cpu.register_a, 0x50);
}

#[test]
fn test_adc_overflow_negative_flag() {
    let mut cpu = CPU::new();
    cpu.load_and_run(vec![0xa9, 0x50, 0x69, 0x50, 0x00]).unwrap();

    assert!(cpu.processor_status & 0b0100_0000 == 0b0100_0000);
    assert!(cpu.processor_status & 0b1000_0000 == 0b1000_0000);
    assert_eq!(cpu.register_a, 0xa0);
}

#[test]
fn test_adc_carry_flag() {
    let mut cpu = CPU::new();
    cpu.load_and_run(vec![0xa9, 0x50, 0x69, 0xd0, 0x00]).unwrap();

    assert!(cpu.processor_status & 0b0000_0001 == 0b0000_0001);
    assert_eq!(cpu.register_a, 0x20);
}

#[test]
fn test_sbc_0xe9() {
    let mut cpu = CPU::new();
    cpu.load_and_run(vec![0xa9, 0x50, 0xe9, 0xf0, 0x00]).unwrap();

    assert_eq!(cpu.register_a, 0x5f);
}

#[test]
fn test_sbc_overflow_negative_flag() {
    let mut cpu = CPU::new();
    cpu.load_and_run(vec![0xa9, 0x50, 0xe9, 0xb0, 0x00]).unwrap();

    assert!(cpu.processor_status & 0b0100_0000 == 0b0100_0000);
    assert!(cpu.processor_status & 0b1000_0000 == 0b1000_0000);
    assert_eq!(cpu.register_a, 0x9f);
}

#[test]
fn test_sbc_carry_flag() {
    let mut cpu = CPU::new();
    cpu.load_and_run(vec![0xa9, 0xd0, 0xe9, 0x70, 0x00]).unwrap();

    assert!(cpu.processor_status & 0b0000_0001 == 0b0000_0001);
    assert_eq!(cpu.register_a, 0x5f);
}

#[test]
fn test_and_0x29() {
    let mut cpu = CPU::new();
    cpu.load_and_run(vec![0xa9, 0x50, 0x29, 0x50, 0x00]).unwrap();

    assert_eq!(cpu.register_a, 0x50);
}

#[test]
fn test_and_zero_flag() {
    let mut cpu = CPU::new();
    cpu.load_and_run(vec![0xa9, 0x50, 0x29, 0x00, 0x00]).unwrap();

    assert!(cpu.processor_status & 0b0000_0010 == 0b0000_0010);
    assert_eq!(cpu.register_a, 0x00);
}

#[test]
fn test_and_negative_flag() {
    let mut cpu = CPU::new();
    cpu.load_and_run(vec![0xa9, 0xff, 0x29, 0xff, 0x00]).unwrap();

    assert!(cpu.processor_status & 0b1000_0000 == 0b1000_0000);
    assert_eq!(cpu.register_a, 0xff);
}

#[test]
fn test_asl_accumulator() {
    let mut cpu = CPU::new();
    cpu.load_and_run(vec![0xa9, 0x01, 0x0a, 0x00]).unwrap();

    assert_eq!(cpu.register_a, 0x02);
}

#[test]
fn test_0x24_bit() {
    let mut cpu = CPU::new();
    cpu.register_a = 0b00000010;
    cpu.load_and_run(vec![0x24, 0x01]).unwrap();

    // The operand at $01 is zero: Z is set, and N and V copy its clear bits 7 and 6.
    assert!(cpu.processor_status & 0b0000_0010 == 0b0000_0010);
    assert!(cpu.processor_status & 0b1000_0000 == 0);
    assert!(cpu.processor_status & 0b0100_0000 == 0);
}

#[test]
fn test_0x85_sta() {
    let mut cpu = CPU::new();
    cpu.register_a = 0b00000010;
    cpu.load_and_run(vec![0x85, 0x02]).unwrap();

    assert!(cpu.memory_read(0x02) == cpu.register_a);
}

#[test]
fn test_0x86_stx() {
    let mut cpu = CPU::new();
    cpu.register_x = 0b00000010;
    cpu.load_and_run(vec![0x86, 0x02]).unwrap();

    assert!(cpu.memory_read(0x02) == cpu.register_x);
}

#[test]
fn test_0x84_sty() {
    let mut cpu = CPU::new();
    cpu.register_y = 0b00000010;
    cpu.load_and_run(vec![0x84, 0x02]).unwrap();

    assert!(cpu.memory_read(0x02) == cpu.register_y);
}

#[test]
fn test_0xd0_bne_snippet() {
    let mut cpu = CPU::new();

    /*
        LDX #$08
    decrement:
        DEX
        CPX #$03
        BNE decrement
        BRK
    */
    
    cpu.load_and_run(vec![0xa2, 0x08, 0xca, 0xe0, 0x03, 0xd0, 0xfb, 0x00 ]).unwrap();
    assert_eq!(cpu.register_x, 0x03);
}

#[test]
fn test_0xc6_dec() {
    let mut cpu = CPU::new();
    cpu.load_and_run(vec![0xa9, 0x05, 0x85, 0x02, 0xc6, 0x02]).unwrap();

    assert_eq!(cpu.memory_read(0x02), cpu.register_a - 1);
}

#[test]
fn test_0xe6_inc() {
    let mut cpu = CPU::new();
    cpu.load_and_run(vec![0xa9, 0x05, 0x85, 0x02, 0xe6, 0x02]).unwrap();

    assert_eq!(cpu.memory_read(0x02), cpu.register_a + 1);
}

#[test]
fn test_0x49_eor() {
    let mut cpu = CPU::new();
    cpu.load_and_run(vec![0x49, 0xff]).unwrap();

    assert_eq!(cpu.register_a, 0xff);
}

#[test]
fn test_0x4a_lsr() {
    let mut cpu = CPU::new();
    cpu.load_and_run(vec![0xa9, 0x05, 0x4a, 0x00]).unwrap();

    assert_eq!(cpu.register_a, 2);
    assert!(cpu.processor_status & 1 == 1);
}
