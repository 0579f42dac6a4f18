use gbemu::graphics::{empty_tile, TilePixelValue};
use gbemu::instructions::{
    ArithmeticTarget, IncTarget, Indirect, Instruction, LoadType, LoadWordTarget, PrefixTarget,
};

#[test]
fn plain_table_entries() {
    assert_eq!(Instruction::from_byte(0x00, false), Some(Instruction::NOP()));
    assert_eq!(Instruction::from_byte(0x80, false), Some(Instruction::ADD(ArithmeticTarget::B)));
    assert_eq!(Instruction::from_byte(0x86, false), Some(Instruction::ADD(ArithmeticTarget::HLI)));
    assert_eq!(Instruction::from_byte(0x87, false), Some(Instruction::ADD(ArithmeticTarget::A)));
    assert_eq!(Instruction::from_byte(0xC6, false), Some(Instruction::ADD(ArithmeticTarget::D8)));
    assert_eq!(Instruction::from_byte(0x8E, false), Some(Instruction::ADC(ArithmeticTarget::HLI)));
    assert_eq!(Instruction::from_byte(0x95, false), Some(Instruction::SUB(ArithmeticTarget::L)));
    assert_eq!(Instruction::from_byte(0xDE, false), Some(Instruction::SBC(ArithmeticTarget::D8)));
    assert_eq!(Instruction::from_byte(0xAF, false), Some(Instruction::XOR(ArithmeticTarget::A)));
    assert_eq!(Instruction::from_byte(0x34, false), Some(Instruction::INC(IncTarget::HLI)));
    assert_eq!(Instruction::from_byte(0x33, false), Some(Instruction::INC(IncTarget::SP)));
    assert_eq!(
        Instruction::from_byte(0x21, false),
        Some(Instruction::LD(LoadType::Word(LoadWordTarget::HL)))
    );
    assert_eq!(
        Instruction::from_byte(0x32, false),
        Some(Instruction::LD(LoadType::IndirectFromA(Indirect::HLIndirectMinus)))
    );
    assert_eq!(
        Instruction::from_byte(0xEA, false),
        Some(Instruction::LD(LoadType::IndirectFromA(Indirect::WordIndirect)))
    );
}

#[test]
fn prefixed_table_entries() {
    assert_eq!(Instruction::from_byte(0x30, true), Some(Instruction::SWAP(PrefixTarget::B)));
    assert_eq!(Instruction::from_byte(0x36, true), Some(Instruction::SWAP(PrefixTarget::HLI)));
    assert_eq!(Instruction::from_byte(0x37, true), Some(Instruction::SWAP(PrefixTarget::A)));
}

#[test]
fn tables_are_separate() {
    assert_eq!(Instruction::from_byte(0x34, true), Some(Instruction::SWAP(PrefixTarget::H)));
    assert_eq!(Instruction::from_byte(0x34, false), Some(Instruction::INC(IncTarget::HLI)));
    assert_eq!(Instruction::from_byte(0x00, true), None);
    assert_eq!(Instruction::from_byte(0x80, true), None);
}

#[test]
fn unassigned_bytes_have_no_instruction() {
    for b in [0x06u8, 0x10, 0x76, 0xA0, 0xB0, 0xC3, 0xCB, 0xD3, 0xFF] {
        assert_eq!(Instruction::from_byte(b, false), None);
    }
    assert_eq!(Instruction::from_byte(0x2F, true), None);
    assert_eq!(Instruction::from_byte(0x38, true), None);
}

#[test]
fn plain_table_has_the_expected_number_of_entries() {
    let plain = (0u16..256).filter(|b| Instruction::from_byte(*b as u8, false).is_some()).count();
    let prefixed = (0u16..256).filter(|b| Instruction::from_byte(*b as u8, true).is_some()).count();
    assert_eq!(plain, 68);
    assert_eq!(prefixed, 8);
}

#[test]
fn empty_tile_is_all_zero() {
    let t = empty_tile();
    for row in t.iter() {
        for p in row.iter() {
            assert_eq!(*p, TilePixelValue::Zero);
        }
    }
}
