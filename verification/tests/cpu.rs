use nes_cpu::cpu::CPU;

#[test]
fn test_0xa9_lda_immediate_load_data() {
    let mut cpu = CPU::default();

    // Assign value 0x05 to register_a, break
    let program = vec![0xa9, 0x05, 0x00];
    assert_eq!(cpu.load_and_run(program), Ok(()));

    assert_eq!(cpu.register_a, 0x05); // Register A should hold 0x05
    assert_eq!(cpu.status, 0); // Status should not change
}

#[test]
fn test_0xa9_lda_zero_flag() {
    let mut cpu = CPU::new();

    // Assign zero to accumulator, break
    let program = vec![0xa9, 0x00, 0x00];
    assert_eq!(cpu.load_and_run(program), Ok(()));

    assert_eq!(cpu.status & 0b0000_0010, 0b10); // Ensure zero flag is set
}

#[test]
fn test_0xa9_lda_negative_flag() {
    let mut cpu = CPU::new();

    // Assign negative to accumulator, break
    let program = vec![0xa9, 0x80, 0x00];
    assert_eq!(cpu.load_and_run(program), Ok(()));

    assert_eq!(cpu.status & 0x80, 0x80); // Ensure negative flag is set
}

#[test]
fn test_0xaa_tax_move_a_to_x() {
    let mut cpu = CPU::new();

    // Move 0xff into register_a, copy register_a to register_x, break
    let program = vec![0xa9, 0xff, 0xaa, 0x00];
    assert_eq!(cpu.load_and_run(program), Ok(()));

    assert_eq!(cpu.register_x, 0xFF); // register_x should hold register_a value
}

#[test]
fn test_5_ops_working_together() {
    let mut cpu = CPU::new();

    // Move 126 into register_a, copy register_a to register_x, increment register_x, break
    let program = vec![0xa9, 126, 0xaa, 0xe8, 0x00];
    assert_eq!(cpu.load_and_run(program), Ok(()));

    assert_eq!(cpu.register_x, 127); // register_x should hold register_a value + 1
    assert_eq!(cpu.status, 0);
}

#[test]
fn test_inx_overflow() {
    let mut cpu = CPU::new();

    // add 1 to register x, add 1 to register x, break
    let program = vec![0xa9, 0xff, 0xaa, 0xe8, 0xe8, 0x00];
    assert_eq!(cpu.load_and_run(program), Ok(()));
    assert_eq!(cpu.register_x, 1);
}
