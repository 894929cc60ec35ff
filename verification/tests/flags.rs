use nes_cpu::cpu::CPU;
use nes_cpu::flags::{is_set, set_flag, NEGATIVE_FLAG, ZERO_FLAG};

#[test]
fn flag_masks() {
    assert_eq!(ZERO_FLAG, 0b0000_0010);
    assert_eq!(NEGATIVE_FLAG, 0b1000_0000);
}

#[test]
fn is_set_tests_one_bit() {
    assert!(is_set(0b0000_0010, ZERO_FLAG));
    assert!(!is_set(0b1111_1101, ZERO_FLAG));
    assert!(is_set(0b1000_0000, NEGATIVE_FLAG));
    assert!(!is_set(0b0111_1111, NEGATIVE_FLAG));
    assert!(!is_set(0, ZERO_FLAG));
    assert!(is_set(0xFF, NEGATIVE_FLAG));
}

#[test]
fn set_flag_sets_and_clears_one_bit() {
    assert_eq!(set_flag(0b0000_0000, ZERO_FLAG, true), 0b0000_0010);
    assert_eq!(set_flag(0b0100_0001, ZERO_FLAG, true), 0b0100_0011);
    assert_eq!(set_flag(0b0100_0011, ZERO_FLAG, true), 0b0100_0011);
    assert_eq!(set_flag(0b0100_0011, ZERO_FLAG, false), 0b0100_0001);
    assert_eq!(set_flag(0b1111_1111, ZERO_FLAG, false), 0b1111_1101);
    assert_eq!(set_flag(0b0000_0000, NEGATIVE_FLAG, true), 0b1000_0000);
    assert_eq!(set_flag(0b1111_1111, NEGATIVE_FLAG, false), 0b0111_1111);
    assert_eq!(set_flag(0b0000_0000, NEGATIVE_FLAG, false), 0b0000_0000);
}

#[test]
fn set_flag_keeps_the_other_bits_for_every_status() {
    for status in 0..=u8::MAX {
        for &mask in [ZERO_FLAG, NEGATIVE_FLAG].iter() {
            for &on in [false, true].iter() {
                let updated = set_flag(status, mask, on);
                assert_eq!(is_set(updated, mask), on);
                assert_eq!(updated & !mask, status & !mask);
            }
        }
    }
}

#[test]
fn update_zero_flag_touches_only_zero() {
    let mut cpu = CPU::new();
    cpu.status = 0b0100_0001;
    cpu.update_zero_flag(0);
    assert_eq!(cpu.status, 0b0100_0011);
    cpu.update_zero_flag(1);
    assert_eq!(cpu.status, 0b0100_0001);
    cpu.status = 0b1111_1111;
    cpu.update_zero_flag(0x80);
    assert_eq!(cpu.status, 0b1111_1101);
}

#[test]
fn update_negative_flag_touches_only_negative() {
    let mut cpu = CPU::new();
    cpu.status = 0b0100_0001;
    cpu.update_negative_flag(0x80);
    assert_eq!(cpu.status, 0b1100_0001);
    cpu.update_negative_flag(0x7F);
    assert_eq!(cpu.status, 0b0100_0001);
    cpu.status = 0b1111_1111;
    cpu.update_negative_flag(0);
    assert_eq!(cpu.status, 0b0111_1111);
    cpu.update_negative_flag(0xFF);
    assert_eq!(cpu.status, 0b1111_1111);
}

#[test]
fn update_zero_and_negative_flags_exact_values() {
    let mut cpu = CPU::new();
    cpu.update_zero_and_negative_flags(0x00);
    assert_eq!(cpu.status, 0b0000_0010);
    cpu.update_zero_and_negative_flags(0x80);
    assert_eq!(cpu.status, 0b1000_0000);
    cpu.update_zero_and_negative_flags(0x01);
    assert_eq!(cpu.status, 0b0000_0000);
    cpu.status = 0b0111_1101;
    cpu.update_zero_and_negative_flags(0xFF);
    assert_eq!(cpu.status, 0b1111_1101);
    cpu.update_zero_and_negative_flags(0x00);
    assert_eq!(cpu.status, 0b0111_1111);
}

#[test]
fn update_zero_and_negative_flags_for_every_status_and_value() {
    for status in 0..=u8::MAX {
        for value in 0..=u8::MAX {
            let mut cpu = CPU::new();
            cpu.status = status;
            cpu.register_a = 0x11;
            cpu.register_x = 0x22;
            cpu.program_counter = 0x3344;
            cpu.update_zero_and_negative_flags(value);
            assert_eq!(cpu.status & ZERO_FLAG != 0, value == 0);
            assert_eq!(cpu.status & NEGATIVE_FLAG != 0, value & 0x80 != 0);
            assert_eq!(cpu.status & 0b0111_1101, status & 0b0111_1101);
            assert_eq!(cpu.register_a, 0x11);
            assert_eq!(cpu.register_x, 0x22);
            assert_eq!(cpu.program_counter, 0x3344);
        }
    }
}
