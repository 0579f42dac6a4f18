use gbemu::registers::{FlagRegister, Registers};

fn flags(zero: bool, subtract: bool, half_carry: bool, carry: bool) -> FlagRegister {
    FlagRegister { zero, subtract, half_carry, carry }
}

#[test]
fn pair_round_trip_bc_de_hl() {
    for v in [0x0000u16, 0x0001, 0x1234, 0xBEEF, 0xFF00, 0xFFFF] {
        let mut r = Registers::new();
        r.set_bc(v);
        assert_eq!(r.get_bc(), v);
        r.set_de(v);
        assert_eq!(r.get_de(), v);
        r.set_hl(v);
        assert_eq!(r.get_hl(), v);
    }
}

#[test]
fn pair_round_trip_af_with_clear_low_nibble() {
    for v in [0x0000u16, 0x12F0, 0xAB80, 0xFFF0] {
        let mut r = Registers::new();
        r.set_af(v);
        assert_eq!(r.get_af(), v);
    }
}

#[test]
fn af_drops_the_low_nibble_of_f() {
    let mut r = Registers::new();
    r.set_af(0x12FF);
    assert_eq!(r.a, 0x12);
    assert_eq!(r.f, flags(true, true, true, true));
    assert_eq!(r.get_af(), 0x12F0);
}

#[test]
fn set_pair_splits_high_then_low() {
    let mut r = Registers::new();
    r.set_bc(0xA1B2);
    r.set_de(0xC3D4);
    r.set_hl(0xE5F6);
    assert_eq!((r.b, r.c, r.d, r.e, r.h, r.l), (0xA1, 0xB2, 0xC3, 0xD4, 0xE5, 0xF6));
    assert_eq!(r.a, 0);
    assert_eq!(r.f, flags(false, false, false, false));
}

#[test]
fn flags_round_trip_for_every_flag_set() {
    for bits in 0u8..16 {
        let f = flags(bits & 8 != 0, bits & 4 != 0, bits & 2 != 0, bits & 1 != 0);
        assert_eq!(FlagRegister::from(u8::from(f)), f);
    }
}

#[test]
fn flags_encode_to_their_bit_positions() {
    assert_eq!(u8::from(flags(true, false, false, false)), 0x80);
    assert_eq!(u8::from(flags(false, true, false, false)), 0x40);
    assert_eq!(u8::from(flags(false, false, true, false)), 0x20);
    assert_eq!(u8::from(flags(false, false, false, true)), 0x10);
    assert_eq!(u8::from(flags(true, true, true, true)), 0xF0);
    assert_eq!(u8::from(flags(false, false, false, false)), 0x00);
}

#[test]
fn flags_decode_reads_each_bit_alone() {
    assert_eq!(FlagRegister::from(0x80u8), flags(true, false, false, false));
    assert_eq!(FlagRegister::from(0x40u8), flags(false, true, false, false));
    assert_eq!(FlagRegister::from(0x20u8), flags(false, false, true, false));
    assert_eq!(FlagRegister::from(0x10u8), flags(false, false, false, true));
    assert_eq!(FlagRegister::from(0x0Fu8), flags(false, false, false, false));
}

#[test]
fn flags_byte_keeps_only_the_high_nibble() {
    for b in [0x00u8, 0x0F, 0x5A, 0xA5, 0xFF] {
        assert_eq!(u8::from(FlagRegister::from(b)), b & 0xF0);
    }
}
