//! The register file: seven 8-bit cells, the flag register, and the derived
//! 16-bit pair views.

use vstd::prelude::*;

use crate::instructions::MultipleBytesRegister;

verus! {

pub const ZERO_FLAG_BYTE_POSITION: u8 = 7;
pub const SUBTRACT_FLAG_BYTE_POSITION: u8 = 6;
pub const HALF_CARRY_FLAG_BYTE_POSITION: u8 = 5;
pub const CARRY_FLAG_BYTE_POSITION: u8 = 4;

/// The four condition flags.
#[derive(Clone, Copy, Debug, PartialEq, Eq, Structural)]
pub struct FlagRegister {
    pub zero: bool,
    pub subtract: bool,
    pub half_carry: bool,
    pub carry: bool,
}

/// The byte that holds `f`: zero at bit 7, subtract at bit 6, half-carry at
/// bit 5, carry at bit 4, and the low nibble clear.
pub open spec fn encode_flags(f: FlagRegister) -> u8 {
    (if f.zero { 0x80u8 } else { 0u8 }) | (if f.subtract { 0x40u8 } else { 0u8 }) | (if f.half_carry {
        0x20u8
    } else {
        0u8
    }) | (if f.carry { 0x10u8 } else { 0u8 })
}

/// The flags that a byte holds; its low nibble is ignored.
pub open spec fn decode_flags(b: u8) -> FlagRegister {
    FlagRegister {
        zero: b & 0x80 != 0,
        subtract: b & 0x40 != 0,
        half_carry: b & 0x20 != 0,
        carry: b & 0x10 != 0,
    }
}

impl From<FlagRegister> for u8 {
    fn from(flag: FlagRegister) -> (r: u8) {
        let r = (if flag.zero { 1u8 } else { 0u8 }) << ZERO_FLAG_BYTE_POSITION | (if flag.subtract {
            1u8
        } else {
            0u8
        }) << SUBTRACT_FLAG_BYTE_POSITION | (if flag.half_carry { 1u8 } else { 0u8 })
            << HALF_CARRY_FLAG_BYTE_POSITION | (if flag.carry { 1u8 } else { 0u8 })
            << CARRY_FLAG_BYTE_POSITION;
        proof {
            let z = flag.zero;
            let s = flag.subtract;
            let h = flag.half_carry;
            let c = flag.carry;
            assert(((if z { 1u8 } else { 0u8 }) << 7u8 | (if s { 1u8 } else { 0u8 }) << 6u8 | (if h {
                1u8
            } else {
                0u8
            }) << 5u8 | (if c { 1u8 } else { 0u8 }) << 4u8) == ((if z { 0x80u8 } else { 0u8 }) | (if s {
                0x40u8
            } else {
                0u8
            }) | (if h { 0x20u8 } else { 0u8 }) | (if c { 0x10u8 } else { 0u8 }))) by (bit_vector);
        }
        r
    }
}

impl vstd::std_specs::convert::FromSpecImpl<FlagRegister> for u8 {
    open spec fn obeys_from_spec() -> bool {
        true
    }

    open spec fn from_spec(v: FlagRegister) -> u8 {
        encode_flags(v)
    }
}

impl From<u8> for FlagRegister {
    fn from(byte: u8) -> (r: FlagRegister) {
        let zero = (byte >> ZERO_FLAG_BYTE_POSITION) & 1 != 0;
        let subtract = (byte >> SUBTRACT_FLAG_BYTE_POSITION) & 1 != 0;
        let half_carry = (byte >> HALF_CARRY_FLAG_BYTE_POSITION) & 1 != 0;
        let carry = (byte >> CARRY_FLAG_BYTE_POSITION) & 1 != 0;
        proof {
            assert(((byte >> 7u8) & 1 != 0) == (byte & 0x80 != 0)) by (bit_vector);
            assert(((byte >> 6u8) & 1 != 0) == (byte & 0x40 != 0)) by (bit_vector);
            assert(((byte >> 5u8) & 1 != 0) == (byte & 0x20 != 0)) by (bit_vector);
            assert(((byte >> 4u8) & 1 != 0) == (byte & 0x10 != 0)) by (bit_vector);
        }
        FlagRegister { zero, subtract, half_carry, carry }
    }
}

impl vstd::std_specs::convert::FromSpecImpl<u8> for FlagRegister {
    open spec fn obeys_from_spec() -> bool {
        true
    }

    open spec fn from_spec(v: u8) -> FlagRegister {
        decode_flags(v)
    }
}

/// Decoding the byte of a flag set gives back the same flags.
pub proof fn lemma_flags_round_trip(f: FlagRegister)
    ensures
        decode_flags(encode_flags(f)) == f,
{
    let z = f.zero;
    let s = f.subtract;
    let h = f.half_carry;
    let c = f.carry;
    let b = encode_flags(f);
    assert(b == ((if z { 0x80u8 } else { 0u8 }) | (if s { 0x40u8 } else { 0u8 }) | (if h {
        0x20u8
    } else {
        0u8
    }) | (if c { 0x10u8 } else { 0u8 })));
    assert({
        let b2 = (if z { 0x80u8 } else { 0u8 }) | (if s { 0x40u8 } else { 0u8 }) | (if h {
            0x20u8
        } else {
            0u8
        }) | (if c { 0x10u8 } else { 0u8 });
        &&& (b2 & 0x80 != 0) == z
        &&& (b2 & 0x40 != 0) == s
        &&& (b2 & 0x20 != 0) == h
        &&& (b2 & 0x10 != 0) == c
    }) by (bit_vector);
}

/// Encoding the flags that a byte holds keeps its four flag bits and clears
/// the low nibble.
pub proof fn lemma_flags_byte_normalised(b: u8)
    ensures
        encode_flags(decode_flags(b)) == b & 0xF0,
{
    assert(((if b & 0x80 != 0 { 0x80u8 } else { 0u8 }) | (if b & 0x40 != 0 { 0x40u8 } else { 0u8 })
        | (if b & 0x20 != 0 { 0x20u8 } else { 0u8 }) | (if b & 0x10 != 0 { 0x10u8 } else { 0u8 }))
        == b & 0xF0) by (bit_vector);
}

/// The eight 8-bit cells of the register file; F is held as its flags.
#[derive(Clone, Copy, Debug, PartialEq, Eq, Structural)]
pub struct Registers {
    pub a: u8,
    pub b: u8,
    pub c: u8,
    pub d: u8,
    pub e: u8,
    pub f: FlagRegister,
    pub h: u8,
    pub l: u8,
}

/// The 16-bit value with `hi` as its high byte and `lo` as its low byte.
pub open spec fn word(hi: u8, lo: u8) -> u16 {
    (hi as int * 256 + lo as int) as u16
}

pub open spec fn high_byte(v: u16) -> u8 {
    (v / 256) as u8
}

pub open spec fn low_byte(v: u16) -> u8 {
    (v % 256) as u8
}

impl Registers {
    pub open spec fn af(self) -> u16 {
        word(self.a, encode_flags(self.f))
    }

    pub open spec fn bc(self) -> u16 {
        word(self.b, self.c)
    }

    pub open spec fn de(self) -> u16 {
        word(self.d, self.e)
    }

    pub open spec fn hl(self) -> u16 {
        word(self.h, self.l)
    }

    /// The value of a register pair.
    pub open spec fn pair(self, p: MultipleBytesRegister) -> u16 {
        match p {
            MultipleBytesRegister::AF => self.af(),
            MultipleBytesRegister::BC => self.bc(),
            MultipleBytesRegister::DE => self.de(),
            MultipleBytesRegister::HL => self.hl(),
        }
    }

    /// The register file after `v` is written to a pair: its high byte goes
    /// to the first cell, its low byte to the second.
    pub open spec fn with_pair(self, p: MultipleBytesRegister, v: u16) -> Registers {
        match p {
            MultipleBytesRegister::AF => Registers { a: high_byte(v), f: decode_flags(low_byte(v)), ..self },
            MultipleBytesRegister::BC => Registers { b: high_byte(v), c: low_byte(v), ..self },
            MultipleBytesRegister::DE => Registers { d: high_byte(v), e: low_byte(v), ..self },
            MultipleBytesRegister::HL => Registers { h: high_byte(v), l: low_byte(v), ..self },
        }
    }

    /// All cells zero and all flags clear.
    pub fn new() -> (r: Registers)
        ensures
            r == (Registers {
                a: 0,
                b: 0,
                c: 0,
                d: 0,
                e: 0,
                f: decode_flags(0),
                h: 0,
                l: 0,
            }),
    {
        let r = Registers {
            a: 0,
            b: 0,
            c: 0,
            d: 0,
            e: 0,
            f: FlagRegister { zero: false, subtract: false, half_carry: false, carry: false },
            h: 0,
            l: 0,
        };
        assert(decode_flags(0) == r.f) by {
            assert(0u8 & 0x80 == 0 && 0u8 & 0x40 == 0 && 0u8 & 0x20 == 0 && 0u8 & 0x10 == 0)
                by (bit_vector);
        }
        r
    }

    pub fn get_af(&self) -> (r: u16)
        ensures
            r == self.af(),
    {
        join(self.a, u8::from(self.f))
    }

    pub fn get_bc(&self) -> (r: u16)
        ensures
            r == self.bc(),
    {
        join(self.b, self.c)
    }

    pub fn get_de(&self) -> (r: u16)
        ensures
            r == self.de(),
    {
        join(self.d, self.e)
    }

    pub fn get_hl(&self) -> (r: u16)
        ensures
            r == self.hl(),
    {
        join(self.h, self.l)
    }

    pub fn set_af(&mut self, af: u16)
        ensures
            *final(self) == old(self).with_pair(MultipleBytesRegister::AF, af),
    {
        let (hi, lo) = split(af);
        self.a = hi;
        self.f = lo.into();
    }

    pub fn set_bc(&mut self, bc: u16)
        ensures
            *final(self) == old(self).with_pair(MultipleBytesRegister::BC, bc),
    {
        let (hi, lo) = split(bc);
        self.b = hi;
        self.c = lo;
    }

    pub fn set_de(&mut self, de: u16)
        ensures
            *final(self) == old(self).with_pair(MultipleBytesRegister::DE, de),
    {
        let (hi, lo) = split(de);
        self.d = hi;
        self.e = lo;
    }

    pub fn set_hl(&mut self, hl: u16)
        ensures
            *final(self) == old(self).with_pair(MultipleBytesRegister::HL, hl),
    {
        let (hi, lo) = split(hl);
        self.h = hi;
        self.l = lo;
    }
}

/// `hi` shifted into the high byte, `lo` in the low byte.
pub fn join(hi: u8, lo: u8) -> (r: u16)
    ensures
        r == word(hi, lo),
{
    let r = (hi as u16) << 8 | lo as u16;
    assert(((hi as u16) << 8u16 | lo as u16) == (hi as u16) * 256 + (lo as u16)) by (bit_vector);
    r
}

/// The high and the low byte of `v`.
pub fn split(v: u16) -> (r: (u8, u8))
    ensures
        r.0 == high_byte(v),
        r.1 == low_byte(v),
{
    let hi = (v >> 8) as u8;
    let lo = v as u8;
    assert((v >> 8u16) as u8 == v / 256 && v as u8 == v % 256) by (bit_vector);
    (hi, lo)
}

/// Reading a pair right after writing `v` to it gives `v` back. For AF this
/// holds only where the low nibble of `v` is clear, as the flag register
/// keeps no low nibble.
pub proof fn lemma_pair_round_trip(r: Registers, p: MultipleBytesRegister, v: u16)
    requires
        p is AF ==> v % 16 == 0,
    ensures
        r.with_pair(p, v).pair(p) == v,
{
    match p {
        MultipleBytesRegister::AF => {
            lemma_flags_byte_normalised(low_byte(v));
            let lo = low_byte(v);
            assert(lo & 0xF0 == lo) by (bit_vector)
                requires
                    lo % 16 == 0,
            ;
        },
        _ => {},
    }
}

} // verus!
