use gb_cpu::flags_register::FlagsRegister;
use gb_cpu::registers::Registers;

#[test]
fn should_be_able_to_manipulate_bc_virtual_register() {
    let mut registers = Registers::new();
    registers.set_bc(0xABCD);
    assert_eq!(registers.b, 0xAB);
    assert_eq!(registers.c, 0xCD);
    assert_eq!(registers.get_bc(), 0xABCD);
}

#[test]
fn should_be_able_to_manipulate_af_virtual_register() {
    let mut registers = Registers::new();
    registers.set_af(0xABF0);
    assert_eq!(registers.a, 0xAB);
    assert_eq!(u8::from(registers.f), 0xF0);
    assert_eq!(registers.get_af(), 0xABF0);
}

#[test]
fn should_be_able_to_manipulate_de_virtual_register() {
    let mut registers = Registers::new();
    registers.set_de(0xABCD);
    assert_eq!(registers.d, 0xAB);
    assert_eq!(registers.e, 0xCD);
    assert_eq!(registers.get_de(), 0xABCD);
}

#[test]
fn should_be_able_to_manipulate_hl_virtual_register() {
    let mut registers = Registers::new();
    registers.set_hl(0xABCD);
    assert_eq!(registers.h, 0xAB);
    assert_eq!(registers.l, 0xCD);
    assert_eq!(registers.get_hl(), 0xABCD);
}

#[test]
fn af_round_trip_drops_low_flag_nibble() {
    let mut registers = Registers::new();
    registers.set_af(0x12FF);
    assert_eq!(registers.a, 0x12);
    assert_eq!(registers.get_af(), 0x12F0);
    registers.set_af(0x34A5);
    assert!(registers.f.zero);
    assert!(!registers.f.subtract);
    assert!(registers.f.half_carry);
    assert!(!registers.f.carry);
    assert_eq!(registers.get_af(), 0x34A0);
}

#[test]
fn pair_round_trip_on_edge_values() {
    for value in [0x0000u16, 0x00FF, 0xFF00, 0xFFFF, 0x1234] {
        let mut registers = Registers::new();
        registers.set_bc(value);
        assert_eq!(registers.get_bc(), value);
        registers.set_de(value);
        assert_eq!(registers.get_de(), value);
        registers.set_hl(value);
        assert_eq!(registers.get_hl(), value);
        registers.set_sp(value);
        assert_eq!(registers.get_sp(), value);
    }
}

#[test]
fn setting_one_pair_leaves_the_others() {
    let mut registers = Registers::new();
    registers.set_bc(0x1122);
    registers.set_de(0x3344);
    registers.set_hl(0x5566);
    registers.set_sp(0x7788);
    assert_eq!(registers.get_bc(), 0x1122);
    assert_eq!(registers.get_de(), 0x3344);
    assert_eq!(registers.get_hl(), 0x5566);
    assert_eq!(registers.get_sp(), 0x7788);
    assert_eq!(registers.a, 0);
}

#[test]
fn new_registers_are_zero() {
    let registers = Registers::new();
    assert_eq!(registers.get_af(), 0);
    assert_eq!(registers.get_bc(), 0);
    assert_eq!(registers.get_de(), 0);
    assert_eq!(registers.get_hl(), 0);
    assert_eq!(registers.get_sp(), 0);
}

#[test]
fn flags_byte_round_trip_keeps_high_nibble() {
    for byte in 0u16..=255 {
        let byte = byte as u8;
        assert_eq!(FlagsRegister::from_byte(byte).to_byte(), byte & 0xF0);
    }
}

#[test]
fn flags_pack_in_bit_order() {
    let flags = FlagsRegister { zero: true, subtract: false, half_carry: false, carry: false };
    assert_eq!(flags.to_byte(), 0x80);
    let flags = FlagsRegister { zero: false, subtract: true, half_carry: false, carry: false };
    assert_eq!(flags.to_byte(), 0x40);
    let flags = FlagsRegister { zero: false, subtract: false, half_carry: true, carry: false };
    assert_eq!(flags.to_byte(), 0x20);
    let flags = FlagsRegister { zero: false, subtract: false, half_carry: false, carry: true };
    assert_eq!(flags.to_byte(), 0x10);
    let flags = FlagsRegister::from(0x5Au8);
    assert!(!flags.zero);
    assert!(flags.subtract);
    assert!(!flags.half_carry);
    assert!(flags.carry);
}
