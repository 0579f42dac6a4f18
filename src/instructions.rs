//! Instructions and the two opcode tables that decode them.

use vstd::prelude::*;

verus! {

/// A decoded instruction: one variant per opcode family, carrying only the
/// operand selector that it executes with.
#[derive(Clone, Copy, Debug, PartialEq, Eq, Structural)]
pub enum Instruction {
    ADD(ArithmeticTarget),
    ADC(ArithmeticTarget),
    SUB(ArithmeticTarget),
    SBC(ArithmeticTarget),
    INC(IncTarget),
    RLC(PrefixTarget),
    JP(JumpTest),
    LD(LoadType),
    PUSH(MultipleBytesRegister),
    POP(MultipleBytesRegister),
    CALL(JumpTest),
    RET(JumpTest),
    NOP(),
    HALT(),
    SWAP(PrefixTarget),
    XOR(ArithmeticTarget),
}

/// The operand of an arithmetic instruction: a register, the byte that HL
/// addresses, or the byte after the opcode.
#[derive(Clone, Copy, Debug, PartialEq, Eq, Structural)]
pub enum ArithmeticTarget {
    A,
    B,
    C,
    D,
    E,
    H,
    L,
    HLI,
    D8,
}

#[derive(Clone, Copy, Debug, PartialEq, Eq, Structural)]
pub enum IncTarget {
    A,
    B,
    C,
    D,
    E,
    H,
    L,
    HLI,
    BC,
    DE,
    HL,
    SP,
}

/// The operand of a prefixed bit operation.
#[derive(Clone, Copy, Debug, PartialEq, Eq, Structural)]
pub enum PrefixTarget {
    A,
    B,
    C,
    D,
    E,
    H,
    L,
    HLI,
}

/// The condition of a jump, call or return.
#[derive(Clone, Copy, Debug, PartialEq, Eq, Structural)]
pub enum JumpTest {
    NotZero,
    Zero,
    NotCarry,
    Carry,
    Always,
}

#[derive(Clone, Copy, Debug, PartialEq, Eq, Structural)]
pub enum LoadByteTarget {
    A,
    B,
    C,
    D,
    E,
    H,
    L,
    HLI,
}

#[derive(Clone, Copy, Debug, PartialEq, Eq, Structural)]
pub enum LoadByteSource {
    A,
    B,
    C,
    D,
    E,
    H,
    L,
    D8,
    HLI,
}

#[derive(Clone, Copy, Debug, PartialEq, Eq, Structural)]
pub enum LoadType {
    Byte(LoadByteTarget, LoadByteSource),
    Word(LoadWordTarget),
    IndirectFromA(Indirect),
}

#[derive(Clone, Copy, Debug, PartialEq, Eq, Structural)]
pub enum LoadWordTarget {
    BC,
    DE,
    HL,
    SP,
}


/// A register pair, as PUSH and POP name it.
#[derive(Clone, Copy, Debug, PartialEq, Eq, Structural)]
pub enum MultipleBytesRegister {
    AF,
    BC,
    DE,
    HL,
}

#[derive(Clone, Copy, Debug, PartialEq, Eq, Structural)]
pub enum Indirect {
    BCIndirect,
    DEIndirect,
    HLIndirectMinus,
    HLIndirectPlus,
    WordIndirect,
    LastByteIndirect,
}

/// The opcode that escapes to the prefixed table.
pub const PREFIX_ESCAPE: u8 = 0xCB;

/// Opcodes name their register operand by their low three bits, in the
/// order B, C, D, E, H, L, (HL), A.
pub open spec fn arithmetic_operand(i: u8) -> ArithmeticTarget {
    if i == 0 {
        ArithmeticTarget::B
    } else if i == 1 {
        ArithmeticTarget::C
    } else if i == 2 {
        ArithmeticTarget::D
    } else if i == 3 {
        ArithmeticTarget::E
    } else if i == 4 {
        ArithmeticTarget::H
    } else if i == 5 {
        ArithmeticTarget::L
    } else if i == 6 {
        ArithmeticTarget::HLI
    } else {
        ArithmeticTarget::A
    }
}

/// The byte target of an 8-bit increment, in the same register order.
pub open spec fn inc_operand(i: u8) -> IncTarget {
    if i == 0 {
        IncTarget::B
    } else if i == 1 {
        IncTarget::C
    } else if i == 2 {
        IncTarget::D
    } else if i == 3 {
        IncTarget::E
    } else if i == 4 {
        IncTarget::H
    } else if i == 5 {
        IncTarget::L
    } else if i == 6 {
        IncTarget::HLI
    } else {
        IncTarget::A
    }
}

/// The operand of a prefixed operation, in the same register order.
pub open spec fn prefix_operand(i: u8) -> PrefixTarget {
    if i == 0 {
        PrefixTarget::B
    } else if i == 1 {
        PrefixTarget::C
    } else if i == 2 {
        PrefixTarget::D
    } else if i == 3 {
        PrefixTarget::E
    } else if i == 4 {
        PrefixTarget::H
    } else if i == 5 {
        PrefixTarget::L
    } else if i == 6 {
        PrefixTarget::HLI
    } else {
        PrefixTarget::A
    }
}

/// The table of plain opcodes. Each arithmetic family fills a row of eight
/// opcodes with its register forms and has one immediate form; increments,
/// 16-bit loads and stores through A sit in the first quarter of the table,
/// one per row of sixteen.
pub open spec fn plain_opcode(b: u8) -> Option<Instruction> {
    if b == 0x00 {
        Some(Instruction::NOP())
    } else if 0x80 <= b < 0x88 {
        Some(Instruction::ADD(arithmetic_operand(b % 8)))
    } else if 0x88 <= b < 0x90 {
        Some(Instruction::ADC(arithmetic_operand(b % 8)))
    } else if 0x90 <= b < 0x98 {
        Some(Instruction::SUB(arithmetic_operand(b % 8)))
    } else if 0x98 <= b < 0xA0 {
        Some(Instruction::SBC(arithmetic_operand(b % 8)))
    } else if 0xA8 <= b < 0xB0 {
        Some(Instruction::XOR(arithmetic_operand(b % 8)))
    } else if b == 0xC6 {
        Some(Instruction::ADD(ArithmeticTarget::D8))
    } else if b == 0xCE {
        Some(Instruction::ADC(ArithmeticTarget::D8))
    } else if b == 0xD6 {
        Some(Instruction::SUB(ArithmeticTarget::D8))
    } else if b == 0xDE {
        Some(Instruction::SBC(ArithmeticTarget::D8))
    } else if b == 0xEE {
        Some(Instruction::XOR(ArithmeticTarget::D8))
    } else if b < 0x40 && b % 8 == 4 {
        Some(Instruction::INC(inc_operand(b / 8)))
    } else if b < 0x40 && b % 16 == 3 {
        Some(
            Instruction::INC(
                if b / 16 == 0 {
                    IncTarget::BC
                } else if b / 16 == 1 {
                    IncTarget::DE
                } else if b / 16 == 2 {
                    IncTarget::HL
                } else {
                    IncTarget::SP
                },
            ),
        )
    } else if b < 0x40 && b % 16 == 1 {
        Some(
            Instruction::LD(
                LoadType::Word(
                    if b / 16 == 0 {
                        LoadWordTarget::BC
                    } else if b / 16 == 1 {
                        LoadWordTarget::DE
                    } else if b / 16 == 2 {
                        LoadWordTarget::HL
                    } else {
                        LoadWordTarget::SP
                    },
                ),
            ),
        )
    } else if b < 0x40 && b % 16 == 2 {
        Some(
            Instruction::LD(
                LoadType::IndirectFromA(
                    if b / 16 == 0 {
                        Indirect::BCIndirect
                    } else if b / 16 == 1 {
                        Indirect::DEIndirect
                    } else if b / 16 == 2 {
                        Indirect::HLIndirectPlus
                    } else {
                        Indirect::HLIndirectMinus
                    },
                ),
            ),
        )
    } else if b == 0xE2 {
        Some(Instruction::LD(LoadType::IndirectFromA(Indirect::LastByteIndirect)))
    } else if b == 0xEA {
        Some(Instruction::LD(LoadType::IndirectFromA(Indirect::WordIndirect)))
    } else {
        None
    }
}

/// The table of prefixed opcodes: so far the nibble swaps, one row of eight.
pub open spec fn prefixed_opcode(b: u8) -> Option<Instruction> {
    if 0x30 <= b < 0x38 {
        Some(Instruction::SWAP(prefix_operand(b % 8)))
    } else {
        None
    }
}

/// The instruction that `byte` decodes to in the prefixed table if
/// `is_prefix`, else in the plain table.
pub open spec fn decode(byte: u8, is_prefix: bool) -> Option<Instruction> {
    if is_prefix {
        prefixed_opcode(byte)
    } else {
        plain_opcode(byte)
    }
}

impl Instruction {
    pub fn from_byte(byte: u8, is_prefix: bool) -> (r: Option<Instruction>)
        ensures
            r == decode(byte, is_prefix),
    {
        if is_prefix {
            Instruction::from_byte_prefixed(byte)
        } else {
            Instruction::from_byte_not_prefixed(byte)
        }
    }

    pub fn from_byte_prefixed(byte: u8) -> (r: Option<Instruction>)
        ensures
            r == prefixed_opcode(byte),
    {
        match byte {
            0x30 => Some(Instruction::SWAP(PrefixTarget::B)),
            0x31 => Some(Instruction::SWAP(PrefixTarget::C)),
            0x32 => Some(Instruction::SWAP(PrefixTarget::D)),
            0x33 => Some(Instruction::SWAP(PrefixTarget::E)),
            0x34 => Some(Instruction::SWAP(PrefixTarget::H)),
            0x35 => Some(Instruction::SWAP(PrefixTarget::L)),
            0x36 => Some(Instruction::SWAP(PrefixTarget::HLI)),
            0x37 => Some(Instruction::SWAP(PrefixTarget::A)),
            _ => None,
        }
    }

    pub fn from_byte_not_prefixed(byte: u8) -> (r: Option<Instruction>)
        ensures
            r == plain_opcode(byte),
    {
        match byte {
            0x00 => Some(Instruction::NOP()),

            0x3c => Some(Instruction::INC(IncTarget::A)),
            0x04 => Some(Instruction::INC(IncTarget::B)),
            0x14 => Some(Instruction::INC(IncTarget::D)),
            0x24 => Some(Instruction::INC(IncTarget::H)),
            0x0c => Some(Instruction::INC(IncTarget::C)),
            0x1c => Some(Instruction::INC(IncTarget::E)),
            0x2c => Some(Instruction::INC(IncTarget::L)),
            0x34 => Some(Instruction::INC(IncTarget::HLI)),
            0x03 => Some(Instruction::INC(IncTarget::BC)),
            0x13 => Some(Instruction::INC(IncTarget::DE)),
            0x23 => Some(Instruction::INC(IncTarget::HL)),
            0x33 => Some(Instruction::INC(IncTarget::SP)),

            0x87 => Some(Instruction::ADD(ArithmeticTarget::A)),
            0x80 => Some(Instruction::ADD(ArithmeticTarget::B)),
            0x81 => Some(Instruction::ADD(ArithmeticTarget::C)),
            0x82 => Some(Instruction::ADD(ArithmeticTarget::D)),
            0x83 => Some(Instruction::ADD(ArithmeticTarget::E)),
            0x84 => Some(Instruction::ADD(ArithmeticTarget::H)),
            0x85 => Some(Instruction::ADD(ArithmeticTarget::L)),
            0x86 => Some(Instruction::ADD(ArithmeticTarget::HLI)),
            0xc6 => Some(Instruction::ADD(ArithmeticTarget::D8)),

            0x8f => Some(Instruction::ADC(ArithmeticTarget::A)),
            0x88 => Some(Instruction::ADC(ArithmeticTarget::B)),
            0x89 => Some(Instruction::ADC(ArithmeticTarget::C)),
            0x8a => Some(Instruction::ADC(ArithmeticTarget::D)),
            0x8b => Some(Instruction::ADC(ArithmeticTarget::E)),
            0x8c => Some(Instruction::ADC(ArithmeticTarget::H)),
            0x8d => Some(Instruction::ADC(ArithmeticTarget::L)),
            0x8e => Some(Instruction::ADC(ArithmeticTarget::HLI)),
            0xce => Some(Instruction::ADC(ArithmeticTarget::D8)),

            0x97 => Some(Instruction::SUB(ArithmeticTarget::A)),
            0x90 => Some(Instruction::SUB(ArithmeticTarget::B)),
            0x91 => Some(Instruction::SUB(ArithmeticTarget::C)),
            0x92 => Some(Instruction::SUB(ArithmeticTarget::D)),
            0x93 => Some(Instruction::SUB(ArithmeticTarget::E)),
            0x94 => Some(Instruction::SUB(ArithmeticTarget::H)),
            0x95 => Some(Instruction::SUB(ArithmeticTarget::L)),
            0x96 => Some(Instruction::SUB(ArithmeticTarget::HLI)),
            0xd6 => Some(Instruction::SUB(ArithmeticTarget::D8)),

            0x9f => Some(Instruction::SBC(ArithmeticTarget::A)),
            0x98 => Some(Instruction::SBC(ArithmeticTarget::B)),
            0x99 => Some(Instruction::SBC(ArithmeticTarget::C)),
            0x9a => Some(Instruction::SBC(ArithmeticTarget::D)),
            0x9b => Some(Instruction::SBC(ArithmeticTarget::E)),
            0x9c => Some(Instruction::SBC(ArithmeticTarget::H)),
            0x9d => Some(Instruction::SBC(ArithmeticTarget::L)),
            0x9e => Some(Instruction::SBC(ArithmeticTarget::HLI)),
            0xde => Some(Instruction::SBC(ArithmeticTarget::D8)),

            0x01 => Some(Instruction::LD(LoadType::Word(LoadWordTarget::BC))),
            0x11 => Some(Instruction::LD(LoadType::Word(LoadWordTarget::DE))),
            0x21 => Some(Instruction::LD(LoadType::Word(LoadWordTarget::HL))),
            0x31 => Some(Instruction::LD(LoadType::Word(LoadWordTarget::SP))),

            0xaf => Some(Instruction::XOR(ArithmeticTarget::A)),
            0xa8 => Some(Instruction::XOR(ArithmeticTarget::B)),
            0xa9 => Some(Instruction::XOR(ArithmeticTarget::C)),
            0xaa => Some(Instruction::XOR(ArithmeticTarget::D)),
            0xab => Some(Instruction::XOR(ArithmeticTarget::E)),
            0xac => Some(Instruction::XOR(ArithmeticTarget::H)),
            0xad => Some(Instruction::XOR(ArithmeticTarget::L)),
            0xae => Some(Instruction::XOR(ArithmeticTarget::HLI)),
            0xee => Some(Instruction::XOR(ArithmeticTarget::D8)),

            0xe2 => Some(Instruction::LD(LoadType::IndirectFromA(Indirect::LastByteIndirect))),
            0x02 => Some(Instruction::LD(LoadType::IndirectFromA(Indirect::BCIndirect))),
            0x12 => Some(Instruction::LD(LoadType::IndirectFromA(Indirect::DEIndirect))),
            0x22 => Some(Instruction::LD(LoadType::IndirectFromA(Indirect::HLIndirectPlus))),
            0x32 => Some(Instruction::LD(LoadType::IndirectFromA(Indirect::HLIndirectMinus))),
            0xea => Some(Instruction::LD(LoadType::IndirectFromA(Indirect::WordIndirect))),

            _ => None,
        }
    }
}

} // verus!
