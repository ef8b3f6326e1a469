use gb_cpu::arithmetic;
use gb_cpu::bit::{bit_check, bit_reset, bit_set, BitIndex};
use gb_cpu::emulator_error::EmulatorError;
use gb_cpu::flags_register::FlagsRegister;
use gb_cpu::logical;
use gb_cpu::rotation;

fn clear_flags() -> FlagsRegister {
    FlagsRegister::from(0x00u8)
}

fn set_flags(carry: bool) -> FlagsRegister {
    FlagsRegister { carry, half_carry: true, subtract: true, zero: true }
}

#[test]
fn should_add_values() {
    // right, left, result, carry, half-carry, zero, subtract
    let cases: [(u8, u8, u8, bool, bool, bool, bool); 6] = [
        (0x12, 0x01, 0x13, false, false, false, false),
        (0xFF, 0x01, 0x00, true, true, false, false),
        (0x0F, 0x01, 0x10, false, true, false, false),
        (0x7F, 0x01, 0x80, false, true, false, false),
        (0x10, 0x01, 0x11, false, false, false, false),
        (0x00, 0x00, 0x00, false, false, true, false),
    ];
    for (right, left, result, carry, half_carry, zero, subtract) in cases {
        let mut flags = clear_flags();
        assert_eq!(arithmetic::add(left, right, &mut flags), result);
        assert_eq!(flags.zero, zero);
        assert_eq!(flags.carry, carry);
        assert_eq!(flags.half_carry, half_carry);
        assert_eq!(flags.subtract, subtract);
    }
}

#[test]
fn add_matches_wrapping_sum_for_all_bytes() {
    for l in 0u16..=255 {
        for r in 0u16..=255 {
            let mut flags = clear_flags();
            let result = arithmetic::add(l as u8, r as u8, &mut flags);
            assert_eq!(result as u16, (l + r) % 256);
            assert_eq!(flags.carry, l + r > 255);
            assert_eq!(flags.half_carry, (l & 0xF) + (r & 0xF) > 0xF);
            assert!(!flags.subtract);
        }
    }
}

#[test]
fn should_add_with_carry_value_to_register_a() {
    let cases: [(u8, u8, u8, bool, bool, bool, bool); 6] = [
        (0x12, 0x01, 0x13, false, false, false, false),
        (0xFF, 0x01, 0x01, true, true, false, false),
        (0x0F, 0x01, 0x10, false, true, false, false),
        (0x7F, 0x01, 0x80, false, true, false, false),
        (0x10, 0x01, 0x11, false, false, false, false),
        (0x00, 0x00, 0x00, false, false, true, false),
    ];
    for (right, left, result, carry, half_carry, zero, subtract) in cases {
        let mut flags = clear_flags();
        assert_eq!(arithmetic::add_c(left, right, &mut flags), result);
        assert_eq!(flags.zero, zero);
        assert_eq!(flags.carry, carry);
        assert_eq!(flags.half_carry, half_carry);
        assert_eq!(flags.subtract, subtract);
    }
}

#[test]
fn add_c_carry_out_scenario() {
    let mut flags = FlagsRegister { zero: false, subtract: false, half_carry: false, carry: false };
    let result = arithmetic::add_c(0xFF, 0x01, &mut flags);
    assert_eq!(result, 0x01);
    assert!(flags.carry);
    assert!(flags.half_carry);
    assert!(!flags.zero);
}

#[test]
fn should_add_value() {
    let cases: [(u16, u16, u16, bool, bool, bool, bool); 7] = [
        (0x1234, 0x0101, 0x1335, false, false, false, false),
        (0xFFFF, 0x0001, 0x0000, true, true, false, false),
        (0x0FFF, 0x0001, 0x1000, false, true, false, false),
        (0x7FFF, 0x0001, 0x8000, false, true, false, false),
        (0x08FF, 0x0701, 0x1000, false, true, false, false),
        (0x1000, 0x0001, 0x1001, false, false, false, false),
        (0x0000, 0x0000, 0x0000, false, false, true, false),
    ];
    for (left, right, result, carry, half_carry, zero, subtract) in cases {
        let mut flags = clear_flags();
        assert_eq!(arithmetic::add_hl(left, right, &mut flags), result);
        assert_eq!(flags.zero, zero);
        assert_eq!(flags.carry, carry);
        assert_eq!(flags.half_carry, half_carry);
        assert_eq!(flags.subtract, subtract);
    }
}

#[test]
fn should_sub_values() {
    let cases: [(u8, u8, u8, bool, bool, bool, bool); 6] = [
        (0x12, 0x01, 0x11, false, false, false, true),
        (0x01, 0x02, 0xFF, true, true, false, true),
        (0x10, 0x01, 0x0F, false, true, false, true),
        (0x80, 0x01, 0x7F, false, true, false, true),
        (0x01, 0x01, 0x00, false, false, true, true),
        (0x20, 0x10, 0x10, false, false, false, true),
    ];
    for (left, right, result, carry, half_carry, zero, subtract) in cases {
        let mut flags = clear_flags();
        assert_eq!(arithmetic::sub(left, right, &mut flags), result);
        assert_eq!(flags.zero, zero);
        assert_eq!(flags.carry, carry);
        assert_eq!(flags.half_carry, half_carry);
        assert_eq!(flags.subtract, subtract);
    }
}

#[test]
fn sub_matches_wrapping_difference_for_all_bytes() {
    for l in 0i32..=255 {
        for r in 0i32..=255 {
            let mut flags = clear_flags();
            let result = arithmetic::sub(l as u8, r as u8, &mut flags);
            assert_eq!(result as i32, (l - r).rem_euclid(256));
            assert_eq!(flags.carry, l < r);
            assert_eq!(flags.half_carry, (l & 0xF) < (r & 0xF));
            assert!(flags.subtract);
        }
    }
}

#[test]
fn should_sub_with_carry() {
    let cases: [(u8, u8, u8, bool, bool, bool, bool); 6] = [
        (0x12, 0x01, 0x11, false, false, false, true),
        (0x01, 0x02, 0xFE, true, true, false, true),
        (0x10, 0x01, 0x0F, false, true, false, true),
        (0x80, 0x01, 0x7F, false, true, false, true),
        (0x01, 0x01, 0x00, false, false, true, true),
        (0x20, 0x10, 0x10, false, false, false, true),
    ];
    for (left, right, result, carry, half_carry, zero, subtract) in cases {
        let mut flags = clear_flags();
        assert_eq!(arithmetic::sub_c(left, right, &mut flags), result);
        assert_eq!(flags.zero, zero);
        assert_eq!(flags.carry, carry);
        assert_eq!(flags.half_carry, half_carry);
        assert_eq!(flags.subtract, subtract);
    }
}

#[test]
fn sub_c_borrow_scenario() {
    let mut flags = FlagsRegister { zero: false, subtract: false, half_carry: false, carry: false };
    let result = arithmetic::sub_c(0x01, 0x02, &mut flags);
    assert_eq!(result, 0xFE);
    assert!(flags.carry);
    assert!(flags.half_carry);
    assert!(!flags.zero);
}

#[test]
fn should_perform_and_operation() {
    let cases: [(u8, u8, u8, bool); 8] = [
        (0b0000_0000, 0b0000_0000, 0b0000_0000, true),
        (0b1111_1111, 0b1111_1111, 0b1111_1111, false),
        (0b1010_1010, 0b0101_0101, 0b0000_0000, true),
        (0b1111_0000, 0b0000_1111, 0b0000_0000, true),
        (0b1100_1100, 0b1010_1010, 0b1000_1000, false),
        (0b0000_1111, 0b1111_0000, 0b0000_0000, true),
        (0b1111_1111, 0b0000_0000, 0b0000_0000, true),
        (0b0000_0001, 0b0000_0001, 0b0000_0001, false),
    ];
    for (left, right, result, zero) in cases {
        let mut flags = clear_flags();
        assert_eq!(logical::and(left, right, &mut flags), result);
        assert_eq!(flags.zero, zero);
        assert!(!flags.carry);
        assert!(flags.half_carry);
        assert!(!flags.subtract);
    }
}

#[test]
fn should_perform_or_to_register_in_a() {
    let cases: [(u8, u8, u8, bool); 8] = [
        (0b0000_0000, 0b0000_0000, 0b0000_0000, true),
        (0b1111_1111, 0b1111_1111, 0b1111_1111, false),
        (0b1010_1010, 0b0101_0101, 0b1111_1111, false),
        (0b1111_0000, 0b0000_1111, 0b1111_1111, false),
        (0b1100_1100, 0b1010_1010, 0b1110_1110, false),
        (0b0000_1111, 0b1111_0000, 0b1111_1111, false),
        (0b1111_1111, 0b0000_0000, 0b1111_1111, false),
        (0b0000_0001, 0b0000_0001, 0b0000_0001, false),
    ];
    for (left, right, result, zero) in cases {
        let mut flags = clear_flags();
        assert_eq!(logical::or(left, right, &mut flags), result);
        assert_eq!(flags.zero, zero);
        assert!(!flags.carry);
        assert!(!flags.half_carry);
        assert!(!flags.subtract);
    }
}

#[test]
fn should_perform_xor_operation() {
    let cases: [(u8, u8, u8, bool); 8] = [
        (0b0000_0000, 0b0000_0000, 0b0000_0000, true),
        (0b1111_1111, 0b1111_1111, 0b0000_0000, true),
        (0b1010_1010, 0b0101_0101, 0b1111_1111, false),
        (0b1111_0000, 0b0000_1111, 0b1111_1111, false),
        (0b1100_1100, 0b1010_1010, 0b0110_0110, false),
        (0b0000_1111, 0b1111_0000, 0b1111_1111, false),
        (0b1111_1111, 0b0000_0000, 0b1111_1111, false),
        (0b0000_0001, 0b0000_0001, 0b0000_0000, true),
    ];
    for (left, right, result, zero) in cases {
        let mut flags = clear_flags();
        assert_eq!(logical::xor(left, right, &mut flags), result);
        assert_eq!(flags.zero, zero);
        assert!(!flags.carry);
        assert!(!flags.half_carry);
        assert!(!flags.subtract);
    }
}

#[test]
fn should_negate_each_bit() {
    let cases: [(u8, u8, bool); 8] = [
        (0x00, 0xFF, false),
        (0x01, 0xFE, false),
        (0x7F, 0x80, false),
        (0x80, 0x7F, false),
        (0xFE, 0x01, false),
        (0xFF, 0x00, true),
        (0xAB, 0x54, false),
        (0x00, 0xFF, false),
    ];
    for (value, result, zero) in cases {
        let mut flags = clear_flags();
        assert_eq!(logical::complement(value, &mut flags), result);
        assert_eq!(flags.zero, zero);
        assert!(!flags.carry);
        assert!(flags.half_carry);
        assert!(flags.subtract);
    }
}

#[test]
fn complement_keeps_carry() {
    let mut flags = set_flags(true);
    logical::complement(0x0F, &mut flags);
    assert!(flags.carry);
}

#[test]
fn should_rotate_left() {
    // value, carry in, result, carry out
    let cases: [(u8, bool, u8, bool); 8] = [
        (0x00, false, 0x00, false),
        (0x00, true, 0x00, false),
        (0x01, false, 0x02, false),
        (0x01, true, 0x02, false),
        (0xFF, false, 0xFF, true),
        (0xFF, true, 0xFF, true),
        (0x80, false, 0x01, true),
        (0x80, true, 0x01, true),
    ];
    for (value, carry_in, result, carry) in cases {
        let mut flags = set_flags(carry_in);
        assert_eq!(rotation::rotate_left(value, &mut flags), result);
        assert_eq!(flags.carry, carry);
        assert!(!flags.half_carry);
        assert!(!flags.subtract);
        assert!(flags.zero);
    }
}

#[test]
fn should_rotate_left_though_carry() {
    let cases: [(u8, bool, u8, bool); 8] = [
        (0x00, false, 0x00, false),
        (0x00, true, 0x01, false),
        (0x01, false, 0x02, false),
        (0x01, true, 0x03, false),
        (0xFF, false, 0xFF, true),
        (0xFF, true, 0xFF, true),
        (0x80, false, 0x01, true),
        (0x80, true, 0x01, true),
    ];
    for (value, carry_in, result, carry) in cases {
        let mut flags = set_flags(carry_in);
        assert_eq!(rotation::rotate_left_through_carry(value, &mut flags), result);
        assert_eq!(flags.carry, carry);
        assert!(!flags.half_carry);
        assert!(!flags.subtract);
        assert!(flags.zero);
    }
}

#[test]
fn should_rotate_right() {
    let cases: [(u8, bool, u8, bool); 8] = [
        (0x00, false, 0x00, false),
        (0x00, true, 0x00, false),
        (0x01, false, 0x80, true),
        (0x01, true, 0x80, true),
        (0xFF, false, 0xFF, true),
        (0xFF, true, 0xFF, true),
        (0x80, false, 0x40, false),
        (0x80, true, 0x40, false),
    ];
    for (value, carry_in, result, carry) in cases {
        let mut flags = set_flags(carry_in);
        assert_eq!(rotation::rotate_right(value, &mut flags), result);
        assert_eq!(flags.carry, carry);
        assert!(!flags.half_carry);
        assert!(!flags.subtract);
        assert!(!flags.zero);
    }
}

#[test]
fn should_rotate_right_though_carry() {
    let cases: [(u8, bool, u8, bool); 8] = [
        (0x00, false, 0x00, false),
        (0x00, true, 0x80, false),
        (0x01, false, 0x00, true),
        (0x01, true, 0x80, true),
        (0xFF, false, 0x7F, true),
        (0xFF, true, 0xFF, true),
        (0x80, false, 0x40, false),
        (0x80, true, 0xC0, false),
    ];
    for (value, carry_in, result, carry) in cases {
        let mut flags = set_flags(carry_in);
        assert_eq!(rotation::rotate_right_through_carry(value, &mut flags), result);
        assert_eq!(flags.carry, carry);
        assert!(!flags.half_carry);
        assert!(!flags.subtract);
        assert!(!flags.zero);
    }
}

#[test]
fn rotate_through_carry_round_trip_for_all_bytes() {
    for value in 0u16..=255 {
        for carry in [false, true] {
            let value = value as u8;
            let mut flags = set_flags(carry);
            let left = rotation::rotate_left_through_carry(value, &mut flags);
            let back = rotation::rotate_right_through_carry(left, &mut flags);
            assert_eq!(back, value);
        }
    }
}

#[test]
fn should_shift_right() {
    // value, carry in, result, carry out, zero
    let cases: [(u8, bool, u8, bool, bool); 8] = [
        (0x00, false, 0x00, false, true),
        (0x00, true, 0x00, false, true),
        (0x01, false, 0x00, true, true),
        (0x01, true, 0x00, true, true),
        (0xFF, false, 0x7F, true, false),
        (0xFF, true, 0x7F, true, false),
        (0x80, false, 0x40, false, false),
        (0x80, true, 0x40, false, false),
    ];
    for (value, carry_in, result, carry, zero) in cases {
        let mut flags = set_flags(carry_in);
        assert_eq!(rotation::shift_right_logical(value, &mut flags), result);
        assert_eq!(flags.carry, carry);
        assert!(!flags.half_carry);
        assert!(!flags.subtract);
        assert_eq!(flags.zero, zero);
    }
}

#[test]
fn shift_right_arithmetic_keeps_sign() {
    let cases: [(u8, u8, bool, bool); 5] = [
        (0x80, 0xC0, false, false),
        (0x81, 0xC0, true, false),
        (0x01, 0x00, true, true),
        (0x7E, 0x3F, false, false),
        (0xFF, 0xFF, true, false),
    ];
    for (value, result, carry, zero) in cases {
        let mut flags = set_flags(false);
        assert_eq!(rotation::shift_right_arithmetic(value, &mut flags), result);
        assert_eq!(flags.carry, carry);
        assert_eq!(flags.zero, zero);
        assert!(!flags.half_carry);
        assert!(!flags.subtract);
    }
}

#[test]
fn shift_left_moves_bit_seven_to_carry() {
    let cases: [(u8, u8, bool, bool); 4] = [
        (0x80, 0x00, true, true),
        (0x41, 0x82, false, false),
        (0xFF, 0xFE, true, false),
        (0x00, 0x00, false, true),
    ];
    for (value, result, carry, zero) in cases {
        let mut flags = set_flags(false);
        assert_eq!(rotation::shift_left(value, &mut flags), result);
        assert_eq!(flags.carry, carry);
        assert_eq!(flags.zero, zero);
        assert!(!flags.half_carry);
        assert!(!flags.subtract);
    }
}

#[test]
fn should_swap_nibbles() {
    let cases: [(u8, u8, bool); 5] =
        [(0xF0, 0x0F, false), (0x80, 0x08, false), (0xAD, 0xDA, false), (0x15, 0x51, false), (0x00, 0x00, true)];
    for (value, result, zero) in cases {
        let mut flags = clear_flags();
        assert_eq!(rotation::swap_nibbles(value, &mut flags), result);
        assert_eq!(flags.zero, zero);
        assert!(!flags.carry);
        assert!(!flags.half_carry);
        assert!(!flags.subtract);
    }
}

#[test]
fn swap_nibbles_twice_is_identity() {
    for value in 0u16..=255 {
        let value = value as u8;
        let mut flags = clear_flags();
        let once = rotation::swap_nibbles(value, &mut flags);
        assert_eq!(rotation::swap_nibbles(once, &mut flags), value);
    }
}

#[test]
fn should_build_bit_index() {
    let cases: [(u8, Result<BitIndex, EmulatorError>); 9] = [
        (0, Ok(BitIndex(0))),
        (1, Ok(BitIndex(1))),
        (3, Ok(BitIndex(3))),
        (4, Ok(BitIndex(4))),
        (6, Ok(BitIndex(6))),
        (7, Ok(BitIndex(7))),
        (8, Err(EmulatorError::OutOfBoundsIndex(8))),
        (10, Err(EmulatorError::OutOfBoundsIndex(10))),
        (25, Err(EmulatorError::OutOfBoundsIndex(25))),
    ];
    for (idx, expected) in cases {
        assert_eq!(BitIndex::build(idx), expected);
    }
}

#[test]
fn bit_index_accepts_exactly_zero_to_seven() {
    for idx in 0u16..=255 {
        let idx = idx as u8;
        let result = BitIndex::build(idx);
        if idx <= 7 {
            assert_eq!(result, Ok(BitIndex(idx)));
        } else {
            assert_eq!(result, Err(EmulatorError::OutOfBoundsIndex(idx)));
        }
    }
}

#[test]
fn should_perform_bit_check() {
    let cases: [(u8, u8, bool); 13] = [
        (0b0000_0000, 3, true),
        (0b1000_0000, 7, false),
        (0b1010_1010, 0, true),
        (0b1010_1010, 1, false),
        (0b1111_0000, 3, true),
        (0b1100_1100, 6, false),
        (0b1100_1100, 5, true),
        (0b0000_1111, 0, false),
        (0b0000_1111, 3, false),
        (0b0000_1111, 4, true),
        (0b1111_1111, 7, false),
        (0b0000_0001, 1, true),
        (0b0000_0001, 0, false),
    ];
    for (value, idx, zero) in cases {
        let mut flags = clear_flags();
        bit_check(value, idx, &mut flags);
        assert_eq!(flags.zero, zero);
        assert!(!flags.carry);
        assert!(flags.half_carry);
        assert!(!flags.subtract);
    }
}

#[test]
fn bit_check_scenario_keeps_carry() {
    let mut flags = FlagsRegister { zero: false, subtract: true, half_carry: false, carry: true };
    bit_check(0b0000_1111, 4, &mut flags);
    assert!(flags.zero);
    assert!(flags.half_carry);
    assert!(!flags.subtract);
    assert!(flags.carry);
}

#[test]
fn should_perform_noop() {
    let cases: [(u8, u8); 3] = [(0b0000_0000, 8), (0b1000_0000, 25), (0b1010_1010, 10)];
    for (value, idx) in cases {
        let mut flags = clear_flags();
        bit_check(value, idx, &mut flags);
        assert!(!flags.zero);
        assert!(!flags.carry);
        assert!(!flags.half_carry);
        assert!(!flags.subtract);
    }
}

#[test]
fn should_perform_bit_set() {
    let cases: [(u8, u8, u8); 13] = [
        (0b0000_0000, 3, 0b0000_1000),
        (0b1000_0000, 7, 0b1000_0000),
        (0b1010_1010, 0, 0b1010_1011),
        (0b1010_1010, 1, 0b1010_1010),
        (0b1111_0000, 3, 0b1111_1000),
        (0b1100_1100, 6, 0b1100_1100),
        (0b1100_1100, 5, 0b1110_1100),
        (0b0000_1111, 0, 0b0000_1111),
        (0b0000_1111, 3, 0b0000_1111),
        (0b0000_1111, 4, 0b0001_1111),
        (0b1111_1111, 7, 0b1111_1111),
        (0b0000_0001, 1, 0b0000_0011),
        (0b0000_0001, 0, 0b0000_0001),
    ];
    for (value, idx, result) in cases {
        assert_eq!(bit_set(value, idx), result);
    }
}

#[test]
fn bit_set_noop_on_bad_index() {
    let cases: [(u8, u8); 3] = [(0b0000_0000, 8), (0b1000_0000, 25), (0b1010_1010, 10)];
    for (value, idx) in cases {
        assert_eq!(bit_set(value, idx), value);
    }
}

#[test]
fn bit_reset_clears_one_bit() {
    let cases: [(u8, u8, u8); 5] = [
        (0b1111_1111, 0, 0b1111_1110),
        (0b1111_1111, 7, 0b0111_1111),
        (0b0000_1000, 3, 0b0000_0000),
        (0b0000_1000, 2, 0b0000_1000),
        (0b1010_1010, 8, 0b1010_1010),
    ];
    for (value, idx, result) in cases {
        assert_eq!(bit_reset(value, idx), result);
    }
}
