//! The execution engine: fetch, decode and execute against the register file
//! and the memory bus.

use vstd::prelude::*;

use crate::error::{EmulatorError, OpcodePage};
use crate::instructions::{
    decode,
    ArithmeticTarget,
    Instruction,
    JumpTest,
    LoadByteSource,
    LoadByteTarget,
    LoadType,
    LoadWordTarget,
    MultipleBytesRegister,
    PrefixTarget,
    PREFIX_ESCAPE,
};
use crate::memory::{lemma_load_ok_iff_mapped, lemma_write_keeps_wf, mapped, BusView, MemoryBus};
use crate::registers::{decode_flags, high_byte, join, low_byte, split, word, FlagRegister, Registers};

verus! {

/// The whole machine as the contracts see it.
pub struct MachineState {
    pub registers: Registers,
    pub pc: u16,
    pub sp: u16,
    pub halted: bool,
    pub bus: BusView,
}

impl MachineState {
    pub open spec fn with_registers(self, r: Registers) -> MachineState {
        MachineState { registers: r, ..self }
    }
}

/// `v + n`, wrapping modulo 65536.
pub open spec fn offset(v: u16, n: int) -> u16 {
    ((v as int + n) % 0x10000) as u16
}

pub open spec fn low_nibble(v: u8) -> int {
    v as int % 16
}

/// ADD: the sum wraps to 8 bits; carry says whether it overflowed. The
/// half-carry rule compares the low nibble of the accumulator after the
/// addition with the low nibble of the result. Both are the same byte, so
/// this is not the conventional carry out of bit 3 of the operands; it is
/// kept as the engine defines it.
pub open spec fn add_spec(r: Registers, v: u8) -> Registers {
    let sum = r.a as int + v as int;
    let result = (sum % 256) as u8;
    Registers {
        a: result,
        f: FlagRegister {
            zero: result == 0,
            subtract: false,
            half_carry: low_nibble(result) + low_nibble(result) > 0xF,
            carry: sum > 0xFF,
        },
        ..r
    }
}

/// SUB: the difference wraps to 8 bits; carry says whether it borrowed. The
/// half-carry rule mirrors that of ADD, comparing the accumulator after the
/// subtraction with the result, so it never holds.
pub open spec fn sub_spec(r: Registers, v: u8) -> Registers {
    let diff = r.a as int - v as int;
    let result = ((diff + 256) % 256) as u8;
    Registers {
        a: result,
        f: FlagRegister {
            zero: result == 0,
            subtract: false,
            half_carry: low_nibble(result) < low_nibble(result),
            carry: diff < 0,
        },
        ..r
    }
}

/// The operand of ADC and SBC: one more than `v`, wrapping, when the carry
/// flag is clear, and `v` itself when it is set. This is the reverse of the
/// conventional fold; it is kept as the engine defines it.
pub open spec fn carry_folded(r: Registers, v: u8) -> u8 {
    if r.f.carry {
        v
    } else {
        ((v as int + 1) % 256) as u8
    }
}

pub open spec fn adc_spec(r: Registers, v: u8) -> Registers {
    add_spec(r, carry_folded(r, v))
}

pub open spec fn sbc_spec(r: Registers, v: u8) -> Registers {
    sub_spec(r, carry_folded(r, v))
}

/// `v` with its two nibbles exchanged.
pub open spec fn swapped(v: u8) -> u8 {
    ((v as int % 16) * 16 + v as int / 16) as u8
}

/// The flags after a nibble swap that produced `result`.
pub open spec fn swap_flags(result: u8) -> FlagRegister {
    FlagRegister { zero: result == 0, subtract: false, half_carry: false, carry: false }
}

/// Whether a jump, call or return with condition `test` is taken.
pub open spec fn condition_holds(test: JumpTest, f: FlagRegister) -> bool {
    match test {
        JumpTest::NotZero => !f.zero,
        JumpTest::Zero => f.zero,
        JumpTest::NotCarry => !f.carry,
        JumpTest::Carry => f.carry,
        JumpTest::Always => true,
    }
}

/// The little-endian word at `address`: low byte there, high byte after it.
pub open spec fn read_word(bus: BusView, address: u16) -> Result<u16, EmulatorError> {
    match bus.load(address) {
        Err(e) => Err(e),
        Ok(lo) => match bus.load(offset(address, 1)) {
            Err(e) => Err(e),
            Ok(hi) => Ok(word(hi, lo)),
        },
    }
}

/// PUSH: the stack pointer goes down by one and the high byte is written
/// there, then down by one more and the low byte is written there.
pub open spec fn push_spec(s: MachineState, v: u16) -> Result<MachineState, EmulatorError> {
    let hi_at = offset(s.sp, -1);
    let lo_at = offset(s.sp, -2);
    match s.bus.write(hi_at, high_byte(v)) {
        Err(e) => Err(e),
        Ok(b1) => match b1.write(lo_at, low_byte(v)) {
            Err(e) => Err(e),
            Ok(b2) => Ok(MachineState { sp: lo_at, bus: b2, ..s }),
        },
    }
}

/// POP: the low byte at the stack pointer and the high byte above it; the
/// stack pointer goes up by two.
pub open spec fn pop_spec(s: MachineState) -> Result<(MachineState, u16), EmulatorError> {
    match read_word(s.bus, s.sp) {
        Err(e) => Err(e),
        Ok(v) => Ok((MachineState { sp: offset(s.sp, 2), ..s }, v)),
    }
}

/// JP: the word after the opcode if the jump is taken, else the next
/// instruction, three bytes on.
pub open spec fn jump_spec(s: MachineState, should_jump: bool) -> Result<u16, EmulatorError> {
    if should_jump {
        read_word(s.bus, offset(s.pc, 1))
    } else {
        Ok(offset(s.pc, 3))
    }
}

/// CALL: if taken, push the address of the next instruction and go to the
/// word after the opcode. Where that word cannot be read, the call fails
/// before anything is pushed; the target itself is read once the push is
/// done.
pub open spec fn call_spec(s: MachineState, should_jump: bool) -> Result<
    (MachineState, u16),
    EmulatorError,
> {
    let next_pc = offset(s.pc, 3);
    if should_jump {
        match read_word(s.bus, offset(s.pc, 1)) {
            Err(e) => Err(e),
            Ok(_) => match push_spec(s, next_pc) {
                Err(e) => Err(e),
                Ok(s2) => match read_word(s2.bus, offset(s.pc, 1)) {
                    Err(e) => Err(e),
                    Ok(target) => Ok((s2, target)),
                },
            },
        }
    } else {
        Ok((s, next_pc))
    }
}

/// RET: if taken, pop the return address, else go on by one byte.
pub open spec fn return_spec(s: MachineState, should_jump: bool) -> Result<
    (MachineState, u16),
    EmulatorError,
> {
    if should_jump {
        pop_spec(s)
    } else {
        Ok((s, offset(s.pc, 1)))
    }
}

/// The value of an arithmetic operand: a register, the byte that HL
/// addresses, or the byte after the opcode.
pub open spec fn arithmetic_value(s: MachineState, t: ArithmeticTarget) -> Result<u8, EmulatorError> {
    match t {
        ArithmeticTarget::A => Ok(s.registers.a),
        ArithmeticTarget::B => Ok(s.registers.b),
        ArithmeticTarget::C => Ok(s.registers.c),
        ArithmeticTarget::D => Ok(s.registers.d),
        ArithmeticTarget::E => Ok(s.registers.e),
        ArithmeticTarget::H => Ok(s.registers.h),
        ArithmeticTarget::L => Ok(s.registers.l),
        ArithmeticTarget::HLI => s.bus.load(s.registers.hl()),
        ArithmeticTarget::D8 => s.bus.load(offset(s.pc, 1)),
    }
}

/// The length of an arithmetic instruction: two bytes with an immediate
/// operand, else one.
pub open spec fn arithmetic_width(t: ArithmeticTarget) -> int {
    if t is D8 {
        2
    } else {
        1
    }
}

/// The value that an 8-bit load reads.
pub open spec fn load_source_value(s: MachineState, src: LoadByteSource) -> Result<u8, EmulatorError> {
    match src {
        LoadByteSource::A => Ok(s.registers.a),
        LoadByteSource::B => Ok(s.registers.b),
        LoadByteSource::C => Ok(s.registers.c),
        LoadByteSource::D => Ok(s.registers.d),
        LoadByteSource::E => Ok(s.registers.e),
        LoadByteSource::H => Ok(s.registers.h),
        LoadByteSource::L => Ok(s.registers.l),
        LoadByteSource::HLI => s.bus.load(s.registers.hl()),
        LoadByteSource::D8 => s.bus.load(offset(s.pc, 1)),
    }
}

/// The machine after an 8-bit load stores `v` into its target.
pub open spec fn load_target_store(s: MachineState, t: LoadByteTarget, v: u8) -> Result<
    MachineState,
    EmulatorError,
> {
    let r = s.registers;
    match t {
        LoadByteTarget::A => Ok(s.with_registers(Registers { a: v, ..r })),
        LoadByteTarget::B => Ok(s.with_registers(Registers { b: v, ..r })),
        LoadByteTarget::C => Ok(s.with_registers(Registers { c: v, ..r })),
        LoadByteTarget::D => Ok(s.with_registers(Registers { d: v, ..r })),
        LoadByteTarget::E => Ok(s.with_registers(Registers { e: v, ..r })),
        LoadByteTarget::H => Ok(s.with_registers(Registers { h: v, ..r })),
        LoadByteTarget::L => Ok(s.with_registers(Registers { l: v, ..r })),
        LoadByteTarget::HLI => match s.bus.write(r.hl(), v) {
            Err(e) => Err(e),
            Ok(b) => Ok(MachineState { bus: b, ..s }),
        },
    }
}

/// The machine after a 16-bit load puts `w` into its target.
pub open spec fn load_word_store(s: MachineState, t: LoadWordTarget, w: u16) -> MachineState {
    match t {
        LoadWordTarget::BC => s.with_registers(s.registers.with_pair(MultipleBytesRegister::BC, w)),
        LoadWordTarget::DE => s.with_registers(s.registers.with_pair(MultipleBytesRegister::DE, w)),
        LoadWordTarget::HL => s.with_registers(s.registers.with_pair(MultipleBytesRegister::HL, w)),
        LoadWordTarget::SP => MachineState { sp: w, ..s },
    }
}

/// The register that a prefixed operation names; `HLI` names memory instead.
pub open spec fn prefix_register(r: Registers, t: PrefixTarget) -> u8 {
    match t {
        PrefixTarget::A => r.a,
        PrefixTarget::B => r.b,
        PrefixTarget::C => r.c,
        PrefixTarget::D => r.d,
        PrefixTarget::E => r.e,
        PrefixTarget::H => r.h,
        PrefixTarget::L => r.l,
        PrefixTarget::HLI => 0,
    }
}

pub open spec fn with_prefix_register(r: Registers, t: PrefixTarget, v: u8) -> Registers {
    match t {
        PrefixTarget::A => Registers { a: v, ..r },
        PrefixTarget::B => Registers { b: v, ..r },
        PrefixTarget::C => Registers { c: v, ..r },
        PrefixTarget::D => Registers { d: v, ..r },
        PrefixTarget::E => Registers { e: v, ..r },
        PrefixTarget::H => Registers { h: v, ..r },
        PrefixTarget::L => Registers { l: v, ..r },
        PrefixTarget::HLI => r,
    }
}

/// SWAP: exchange the nibbles of the operand, in place, and set the flags
/// from the result.
pub open spec fn swap_spec(s: MachineState, t: PrefixTarget) -> Result<MachineState, EmulatorError> {
    let hl = s.registers.hl();
    if t is HLI {
        match s.bus.load(hl) {
            Err(e) => Err(e),
            Ok(v) => match s.bus.write(hl, swapped(v)) {
                Err(e) => Err(e),
                Ok(b) => Ok(
                    MachineState {
                        registers: Registers { f: swap_flags(swapped(v)), ..s.registers },
                        bus: b,
                        ..s
                    },
                ),
            },
        }
    } else {
        let v = prefix_register(s.registers, t);
        Ok(
            s.with_registers(
                with_prefix_register(
                    Registers { f: swap_flags(swapped(v)), ..s.registers },
                    t,
                    swapped(v),
                ),
            ),
        )
    }
}

/// A prefixed SWAP goes on by two bytes: the escape and the opcode.
pub open spec fn swap_instruction_spec(s: MachineState, t: PrefixTarget) -> Result<
    (MachineState, u16),
    EmulatorError,
> {
    match swap_spec(s, t) {
        Err(e) => Err(e),
        Ok(s2) => Ok((s2, offset(s.pc, 2))),
    }
}

/// The machine after an arithmetic instruction with operand `t` and rule
/// `op`, with the address of the next instruction.
pub open spec fn arithmetic_spec(
    s: MachineState,
    t: ArithmeticTarget,
    op: spec_fn(Registers, u8) -> Registers,
) -> Result<(MachineState, u16), EmulatorError> {
    match arithmetic_value(s, t) {
        Err(e) => Err(e),
        Ok(v) => Ok((s.with_registers(op(s.registers, v)), offset(s.pc, arithmetic_width(t)))),
    }
}

/// LD: an 8-bit load goes on by two bytes after an immediate source and by
/// one otherwise; a 16-bit load reads the word after the opcode and goes on
/// by three. Stores through A have no execution rule yet.
pub open spec fn load_spec(s: MachineState, lt: LoadType) -> Result<(MachineState, u16), EmulatorError> {
    match lt {
        LoadType::Byte(target, source) => match load_source_value(s, source) {
            Err(e) => Err(e),
            Ok(v) => match load_target_store(s, target, v) {
                Err(e) => Err(e),
                Ok(s2) => Ok((s2, offset(s.pc, if source is D8 { 2 } else { 1 }))),
            },
        },
        LoadType::Word(target) => match read_word(s.bus, offset(s.pc, 1)) {
            Err(e) => Err(e),
            Ok(w) => Ok((load_word_store(s, target, w), offset(s.pc, 3))),
        },
        LoadType::IndirectFromA(_) => Err(EmulatorError::UnimplementedInstructionForm),
    }
}

/// Whether a call that left the machine at `after`, returning `r`, did what
/// `expected` says: on success the new machine and the next address, on an
/// error that error with the machine as it was in `before`.
pub open spec fn outcome(
    before: MachineState,
    after: MachineState,
    r: Result<u16, EmulatorError>,
    expected: Result<(MachineState, u16), EmulatorError>,
) -> bool {
    match expected {
        Ok((s2, next)) => r == Ok::<u16, EmulatorError>(next) && after == s2,
        Err(e) => r == Err::<u16, EmulatorError>(e) && after == before,
    }
}

/// What executing `i` does: the machine afterwards, its program counter not
/// yet moved, and the address of the next instruction. A halted machine
/// stays as it is. On an error nothing changes.
#[verifier::opaque]
pub open spec fn execute_spec(s: MachineState, i: Instruction) -> Result<(MachineState, u16), EmulatorError> {
    if s.halted {
        Ok((s, s.pc))
    } else {
        match i {
            Instruction::ADD(t) => arithmetic_spec(s, t, |r: Registers, v: u8| add_spec(r, v)),
            Instruction::ADC(t) => arithmetic_spec(s, t, |r: Registers, v: u8| adc_spec(r, v)),
            Instruction::SUB(t) => arithmetic_spec(s, t, |r: Registers, v: u8| sub_spec(r, v)),
            Instruction::SBC(t) => arithmetic_spec(s, t, |r: Registers, v: u8| sbc_spec(r, v)),
            Instruction::JP(test) => match jump_spec(s, condition_holds(test, s.registers.f)) {
                Err(e) => Err(e),
                Ok(target) => Ok((s, target)),
            },
            Instruction::LD(lt) => load_spec(s, lt),
            Instruction::PUSH(p) => match push_spec(s, s.registers.pair(p)) {
                Err(e) => Err(e),
                Ok(s2) => Ok((s2, offset(s.pc, 1))),
            },
            Instruction::POP(p) => match pop_spec(s) {
                Err(e) => Err(e),
                Ok((s2, v)) => Ok((s2.with_registers(s2.registers.with_pair(p, v)), offset(s.pc, 1))),
            },
            Instruction::CALL(test) => call_spec(s, condition_holds(test, s.registers.f)),
            Instruction::RET(test) => return_spec(s, condition_holds(test, s.registers.f)),
            Instruction::NOP() => Ok((s, offset(s.pc, 1))),
            Instruction::HALT() => Ok((MachineState { halted: true, ..s }, offset(s.pc, 1))),
            Instruction::SWAP(t) => swap_instruction_spec(s, t),
            Instruction::INC(_) | Instruction::RLC(_)
            | Instruction::XOR(_) => Err(EmulatorError::UnimplementedInstructionForm),
        }
    }
}

/// The opcode byte at the program counter and whether it came from the
/// prefixed table: after the escape byte, the byte that follows it.
pub open spec fn fetch(s: MachineState) -> Result<(u8, bool), EmulatorError> {
    match s.bus.load(s.pc) {
        Err(e) => Err(e),
        Ok(b) => if b == PREFIX_ESCAPE {
            match s.bus.load(offset(s.pc, 1)) {
                Err(e) => Err(e),
                Ok(b2) => Ok((b2, true)),
            }
        } else {
            Ok((b, false))
        },
    }
}

/// One step of the machine: a halted machine stays as it is; otherwise fetch,
/// decode, execute, and move the program counter to the next instruction.
pub open spec fn step_spec(s: MachineState) -> Result<MachineState, EmulatorError> {
    if s.halted {
        Ok(s)
    } else {
        match fetch(s) {
            Err(e) => Err(e),
            Ok((b, prefixed)) => match decode(b, prefixed) {
                None => Err(
                    EmulatorError::UnimplementedOpcode {
                        byte: b,
                        page: if prefixed {
                            OpcodePage::Prefixed
                        } else {
                            OpcodePage::Plain
                        },
                    },
                ),
                Some(i) => match execute_spec(s, i) {
                    Err(e) => Err(e),
                    Ok((s2, next)) => Ok(MachineState { pc: next, ..s2 }),
                },
            },
        }
    }
}

/// Popping right after a push gives the pushed word back and leaves the
/// stack pointer where it was before the push. This needs both pushed bytes
/// to land in mapped memory that the boot overlay does not shadow: there a
/// write reaches ROM bank 0 while a read answers from the overlay.
pub proof fn lemma_push_pop_round_trip(s: MachineState, v: u16)
    requires
        s.bus.wf(),
        mapped(offset(s.sp, -1)),
        mapped(offset(s.sp, -2)),
        !s.bus.boot_shadows(offset(s.sp, -1)),
        !s.bus.boot_shadows(offset(s.sp, -2)),
    ensures
        push_spec(s, v) matches Ok(s2) && pop_spec(s2) matches Ok((s3, w)) && w == v && s3.sp
            == s.sp,
{
    let hi_at = offset(s.sp, -1);
    let lo_at = offset(s.sp, -2);
    lemma_write_keeps_wf(s.bus, hi_at, high_byte(v));
    let b1 = s.bus.write(hi_at, high_byte(v))->Ok_0;
    lemma_write_keeps_wf(b1, lo_at, low_byte(v));
    let b2 = b1.write(lo_at, low_byte(v))->Ok_0;
    assert(offset(lo_at, 1) == hi_at);
    assert(b2.read(lo_at) == Some(low_byte(v)));
    assert(b2.read(hi_at) == Some(high_byte(v)));
    assert(word(high_byte(v), low_byte(v)) == v);
    assert(offset(lo_at, 2) == s.sp);
}

/// A byte that the table in use has no entry for stops the step with
/// `UnimplementedOpcode`, naming the byte and the table; `step` then leaves
/// the machine as it was.
pub proof fn lemma_unknown_opcode_stops(s: MachineState)
    requires
        !s.halted,
        fetch(s) matches Ok((b, prefixed)) && decode(b, prefixed) is None,
    ensures
        step_spec(s) == Err::<MachineState, EmulatorError>(
            EmulatorError::UnimplementedOpcode {
                byte: fetch(s)->Ok_0.0,
                page: if fetch(s)->Ok_0.1 {
                    OpcodePage::Prefixed
                } else {
                    OpcodePage::Plain
                },
            },
        ),
{
}

/// A step over the byte `0x00` moves the program counter on by one and
/// changes nothing else.
pub proof fn lemma_nop_step(s: MachineState)
    requires
        !s.halted,
        s.bus.load(s.pc) == Ok::<u8, EmulatorError>(0),
    ensures
        step_spec(s) == Ok::<MachineState, EmulatorError>(MachineState { pc: offset(s.pc, 1), ..s }),
{
    reveal(execute_spec);
    assert(decode(0, false) == Some(Instruction::NOP()));
}

/// An unconditional JP goes to the little-endian word after the opcode:
/// low byte at `pc + 1`, high byte at `pc + 2`.
pub proof fn lemma_jump_always(s: MachineState, lo: u8, hi: u8)
    requires
        !s.halted,
        s.bus.load(offset(s.pc, 1)) == Ok::<u8, EmulatorError>(lo),
        s.bus.load(offset(s.pc, 2)) == Ok::<u8, EmulatorError>(hi),
    ensures
        execute_spec(s, Instruction::JP(JumpTest::Always)) == Ok::<(MachineState, u16), EmulatorError>(
            (s, word(hi, lo)),
        ),
{
    let at = offset(s.pc, 1);
    assert(offset(at, 1) == offset(s.pc, 2));
    assert(read_word(s.bus, at) == Ok::<u16, EmulatorError>(word(hi, lo)));
    assert(jump_spec(s, true) == Ok::<u16, EmulatorError>(word(hi, lo)));
    reveal(execute_spec);
}

/// The CPU: register file, program counter, stack pointer, bus, and whether
/// it has halted.
pub struct CPU {
    pub registers: Registers,
    pub pc: u16,
    pub bus: MemoryBus,
    pub sp: u16,
    pub is_halted: bool,
}

impl View for CPU {
    type V = MachineState;

    open spec fn view(&self) -> MachineState {
        MachineState {
            registers: self.registers,
            pc: self.pc,
            sp: self.sp,
            halted: self.is_halted,
            bus: self.bus@,
        }
    }
}

impl CPU {
    /// The machine at power-on: registers zeroed, flags clear, program
    /// counter and stack pointer at zero, running.
    pub fn new(bus: MemoryBus) -> (cpu: CPU)
        ensures
            cpu@ == (MachineState {
                registers: Registers {
                    a: 0,
                    b: 0,
                    c: 0,
                    d: 0,
                    e: 0,
                    f: decode_flags(0),
                    h: 0,
                    l: 0,
                },
                pc: 0,
                sp: 0,
                halted: false,
                bus: bus@,
            }),
    {
        CPU { registers: Registers::new(), pc: 0, bus, sp: 0, is_halted: false }
    }

    pub fn add(&mut self, nbr: u8)
        ensures
            final(self)@ == old(self)@.with_registers(add_spec(old(self).registers, nbr)),
    {
        let a = self.registers.a;
        let result = a.wrapping_add(nbr);
        let overflow = a as u16 + nbr as u16 > 0xFF;
        self.registers.a = result;
        self.registers.f.zero = result == 0;
        self.registers.f.subtract = false;
        self.registers.f.carry = overflow;
        assert(result & 0xF == result % 16) by (bit_vector);
        self.registers.f.half_carry = (self.registers.a & 0xF) + (result & 0xF) > 0xF;
    }

    pub fn adc(&mut self, nbr: u8)
        ensures
            final(self)@ == old(self)@.with_registers(adc_spec(old(self).registers, nbr)),
    {
        let nbr = if self.registers.f.carry {
            nbr
        } else {
            nbr.wrapping_add(1)
        };
        self.add(nbr);
    }

    pub fn sub(&mut self, nbr: u8)
        ensures
            final(self)@ == old(self)@.with_registers(sub_spec(old(self).registers, nbr)),
    {
        let a = self.registers.a;
        let result = a.wrapping_sub(nbr);
        let overflow = nbr > a;
        self.registers.a = result;
        self.registers.f.zero = result == 0;
        self.registers.f.subtract = false;
        self.registers.f.carry = overflow;
        self.registers.f.half_carry = (self.registers.a & 0xF) < (result & 0xF);
    }

    pub fn sbc(&mut self, nbr: u8)
        ensures
            final(self)@ == old(self)@.with_registers(sbc_spec(old(self).registers, nbr)),
    {
        let nbr = if self.registers.f.carry {
            nbr
        } else {
            nbr.wrapping_add(1)
        };
        self.sub(nbr);
    }

    /// Swaps the nibbles of `value` and sets the flags from the result.
    pub fn swap_nibbles(&mut self, value: u8) -> (r: u8)
        ensures
            r == swapped(value),
            final(self)@ == old(self)@.with_registers(
                Registers { f: swap_flags(swapped(value)), ..old(self).registers },
            ),
    {
        let new_value = ((value & 0xf) << 4) | ((value & 0xf0) >> 4);
        assert(((value & 0xf) << 4u8) | ((value & 0xf0) >> 4u8) == (value % 16) * 16 + value / 16)
            by (bit_vector);
        self.registers.f.zero = new_value == 0;
        self.registers.f.subtract = false;
        self.registers.f.half_carry = false;
        self.registers.f.carry = false;
        new_value
    }

    /// The byte after the opcode.
    pub fn read_next_byte(&self) -> (r: Result<u8, EmulatorError>)
        requires
            self@.bus.wf(),
        ensures
            r == self@.bus.load(offset(self.pc, 1)),
    {
        self.bus.read_byte(self.pc.wrapping_add(1))
    }

    /// The little-endian word after the opcode.
    pub fn read_next_word(&self) -> (r: Result<u16, EmulatorError>)
        requires
            self@.bus.wf(),
        ensures
            r == read_word(self@.bus, offset(self.pc, 1)),
    {
        let at = self.pc.wrapping_add(1);
        match self.bus.read_byte(at) {
            Err(e) => Err(e),
            Ok(lo) => match self.bus.read_byte(at.wrapping_add(1)) {
                Err(e) => Err(e),
                Ok(hi) => Ok(join(hi, lo)),
            },
        }
    }

    pub fn jump(&self, should_jump: bool) -> (r: Result<u16, EmulatorError>)
        requires
            self@.bus.wf(),
        ensures
            r == jump_spec(self@, should_jump),
    {
        if should_jump {
            self.read_next_word()
        } else {
            Ok(self.pc.wrapping_add(3))
        }
    }

    /// Pushes `value`: the high byte below the stack pointer, the low byte
    /// below that. Where either address is not mapped, nothing changes.
    pub fn push(&mut self, value: u16) -> (r: Result<(), EmulatorError>)
        requires
            old(self)@.bus.wf(),
        ensures
            match push_spec(old(self)@, value) {
                Ok(s2) => r is Ok && final(self)@ == s2,
                Err(e) => r == Err::<(), EmulatorError>(e) && final(self)@ == old(self)@,
            },
            final(self)@.bus.wf(),
    {
        let hi_at = self.sp.wrapping_sub(1);
        let lo_at = hi_at.wrapping_sub(1);
        proof {
            lemma_write_keeps_wf(self@.bus, hi_at, high_byte(value));
        }
        if !self.bus.is_mapped(hi_at) {
            return Err(EmulatorError::AddressOutOfRange { address: hi_at });
        }
        if !self.bus.is_mapped(lo_at) {
            proof {
                let b1 = self@.bus.write(hi_at, high_byte(value))->Ok_0;
                lemma_write_keeps_wf(b1, lo_at, low_byte(value));
            }
            return Err(EmulatorError::AddressOutOfRange { address: lo_at });
        }
        let (hi, lo) = split(value);
        let _ = self.bus.write_byte(hi_at, hi);
        let _ = self.bus.write_byte(lo_at, lo);
        self.sp = lo_at;
        Ok(())
    }

    /// Pops a word: the low byte at the stack pointer, the high byte above.
    pub fn pop(&mut self) -> (r: Result<u16, EmulatorError>)
        requires
            old(self)@.bus.wf(),
        ensures
            match pop_spec(old(self)@) {
                Ok((s2, v)) => r == Ok::<u16, EmulatorError>(v) && final(self)@ == s2,
                Err(e) => r == Err::<u16, EmulatorError>(e) && final(self)@ == old(self)@,
            },
            final(self)@.bus.wf(),
    {
        let lo = match self.bus.read_byte(self.sp) {
            Ok(b) => b,
            Err(e) => return Err(e),
        };
        let hi_at = self.sp.wrapping_add(1);
        let hi = match self.bus.read_byte(hi_at) {
            Ok(b) => b,
            Err(e) => return Err(e),
        };
        self.sp = hi_at.wrapping_add(1);
        Ok(join(hi, lo))
    }

    /// Calls the word after the opcode if `should_jump`, pushing the address
    /// of the next instruction; returns where execution goes on.
    pub fn call(&mut self, should_jump: bool) -> (r: Result<u16, EmulatorError>)
        requires
            old(self)@.bus.wf(),
        ensures
            outcome(old(self)@, final(self)@, r, call_spec(old(self)@, should_jump)),
            final(self)@.bus.wf(),
    {
        let next_pc = self.pc.wrapping_add(3);
        if should_jump {
            match self.read_next_word() {
                Err(e) => return Err(e),
                Ok(_) => {},
            }
            let at = self.pc.wrapping_add(1);
            proof {
                lemma_load_ok_iff_mapped(self@.bus, at);
                lemma_load_ok_iff_mapped(self@.bus, offset(at, 1));
            }
            match self.push(next_pc) {
                Err(e) => Err(e),
                Ok(()) => {
                    proof {
                        lemma_load_ok_iff_mapped(self@.bus, at);
                        lemma_load_ok_iff_mapped(self@.bus, offset(at, 1));
                    }
                    self.read_next_word()
                },
            }
        } else {
            Ok(next_pc)
        }
    }

    /// Returns to the popped address if `should_jump`, else goes on by one.
    pub fn return_(&mut self, should_jump: bool) -> (r: Result<u16, EmulatorError>)
        requires
            old(self)@.bus.wf(),
        ensures
            outcome(old(self)@, final(self)@, r, return_spec(old(self)@, should_jump)),
            final(self)@.bus.wf(),
    {
        if should_jump {
            self.pop()
        } else {
            Ok(self.pc.wrapping_add(1))
        }
    }

    /// Whether a jump, call or return with condition `test` is taken now.
    fn condition(&self, test: JumpTest) -> (r: bool)
        ensures
            r == condition_holds(test, self.registers.f),
    {
        match test {
            JumpTest::NotZero => !self.registers.f.zero,
            JumpTest::NotCarry => !self.registers.f.carry,
            JumpTest::Zero => self.registers.f.zero,
            JumpTest::Carry => self.registers.f.carry,
            JumpTest::Always => true,
        }
    }

    fn arithmetic_operand(&self, target: ArithmeticTarget) -> (r: Result<u8, EmulatorError>)
        requires
            self@.bus.wf(),
        ensures
            r == arithmetic_value(self@, target),
    {
        match target {
            ArithmeticTarget::A => Ok(self.registers.a),
            ArithmeticTarget::B => Ok(self.registers.b),
            ArithmeticTarget::C => Ok(self.registers.c),
            ArithmeticTarget::D => Ok(self.registers.d),
            ArithmeticTarget::E => Ok(self.registers.e),
            ArithmeticTarget::H => Ok(self.registers.h),
            ArithmeticTarget::L => Ok(self.registers.l),
            ArithmeticTarget::HLI => self.bus.read_byte(self.registers.get_hl()),
            ArithmeticTarget::D8 => self.read_next_byte(),
        }
    }

    fn load_source(&self, source: LoadByteSource) -> (r: Result<u8, EmulatorError>)
        requires
            self@.bus.wf(),
        ensures
            r == load_source_value(self@, source),
    {
        match source {
            LoadByteSource::A => Ok(self.registers.a),
            LoadByteSource::D8 => self.read_next_byte(),
            LoadByteSource::HLI => self.bus.read_byte(self.registers.get_hl()),
            LoadByteSource::B => Ok(self.registers.b),
            LoadByteSource::C => Ok(self.registers.c),
            LoadByteSource::D => Ok(self.registers.d),
            LoadByteSource::E => Ok(self.registers.e),
            LoadByteSource::H => Ok(self.registers.h),
            LoadByteSource::L => Ok(self.registers.l),
        }
    }

    fn execute_load(&mut self, load_type: LoadType) -> (r: Result<u16, EmulatorError>)
        requires
            old(self)@.bus.wf(),
        ensures
            outcome(old(self)@, final(self)@, r, load_spec(old(self)@, load_type)),
            final(self)@.bus.wf(),
    {
        match load_type {
            LoadType::Byte(target, source) => {
                let source_value = match self.load_source(source) {
                    Err(e) => return Err(e),
                    Ok(v) => v,
                };
                match target {
                    LoadByteTarget::A => self.registers.a = source_value,
                    LoadByteTarget::HLI => {
                        let hl = self.registers.get_hl();
                        match self.bus.write_byte(hl, source_value) {
                            Err(e) => return Err(e),
                            Ok(()) => {},
                        }
                    },
                    LoadByteTarget::B => self.registers.b = source_value,
                    LoadByteTarget::C => self.registers.c = source_value,
                    LoadByteTarget::D => self.registers.d = source_value,
                    LoadByteTarget::E => self.registers.e = source_value,
                    LoadByteTarget::H => self.registers.h = source_value,
                    LoadByteTarget::L => self.registers.l = source_value,
                }
                match source {
                    LoadByteSource::D8 => Ok(self.pc.wrapping_add(2)),
                    _ => Ok(self.pc.wrapping_add(1)),
                }
            },
            LoadType::Word(target) => {
                let word = match self.read_next_word() {
                    Err(e) => return Err(e),
                    Ok(w) => w,
                };
                match target {
                    LoadWordTarget::BC => self.registers.set_bc(word),
                    LoadWordTarget::DE => self.registers.set_de(word),
                    LoadWordTarget::HL => self.registers.set_hl(word),
                    LoadWordTarget::SP => self.sp = word,
                }
                Ok(self.pc.wrapping_add(3))
            },
            LoadType::IndirectFromA(_) => Err(EmulatorError::UnimplementedInstructionForm),
        }
    }

    fn execute_swap(&mut self, target: PrefixTarget) -> (r: Result<u16, EmulatorError>)
        requires
            old(self)@.bus.wf(),
        ensures
            outcome(old(self)@, final(self)@, r, swap_instruction_spec(old(self)@, target)),
            final(self)@.bus.wf(),
    {
        match target {
            PrefixTarget::A => {
                let v = self.swap_nibbles(self.registers.a);
                self.registers.a = v;
            },
            PrefixTarget::B => {
                let v = self.swap_nibbles(self.registers.b);
                self.registers.b = v;
            },
            PrefixTarget::C => {
                let v = self.swap_nibbles(self.registers.c);
                self.registers.c = v;
            },
            PrefixTarget::D => {
                let v = self.swap_nibbles(self.registers.d);
                self.registers.d = v;
            },
            PrefixTarget::E => {
                let v = self.swap_nibbles(self.registers.e);
                self.registers.e = v;
            },
            PrefixTarget::H => {
                let v = self.swap_nibbles(self.registers.h);
                self.registers.h = v;
            },
            PrefixTarget::L => {
                let v = self.swap_nibbles(self.registers.l);
                self.registers.l = v;
            },
            PrefixTarget::HLI => {
                let hl = self.registers.get_hl();
                let byte = match self.bus.read_byte(hl) {
                    Err(e) => return Err(e),
                    Ok(b) => b,
                };
                let value = self.swap_nibbles(byte);
                proof {
                    lemma_load_ok_iff_mapped(self@.bus, hl);
                    lemma_write_keeps_wf(self@.bus, hl, value);
                }
                let _ = self.bus.write_byte(hl, value);
            },
        }
        Ok(self.pc.wrapping_add(2))
    }

    /// Executes `instruction` and returns the address of the next one; the
    /// program counter itself is left for the caller to move. A halted CPU
    /// does nothing. On an error nothing changes.
    #[verifier::spinoff_prover]
    #[verifier::rlimit(100)]
    pub fn execute(&mut self, instruction: Instruction) -> (r: Result<u16, EmulatorError>)
        requires
            old(self)@.bus.wf(),
        ensures
            outcome(old(self)@, final(self)@, r, execute_spec(old(self)@, instruction)),
            final(self)@.bus.wf(),
    {
        proof {
            reveal(execute_spec);
        }
        if self.is_halted {
            return Ok(self.pc);
        }
        match instruction {
            Instruction::ADD(target) => match self.arithmetic_operand(target) {
                Err(e) => Err(e),
                Ok(v) => {
                    self.add(v);
                    Ok(self.pc.wrapping_add(if target == ArithmeticTarget::D8 { 2 } else { 1 }))
                },
            },
            Instruction::ADC(target) => match self.arithmetic_operand(target) {
                Err(e) => Err(e),
                Ok(v) => {
                    self.adc(v);
                    Ok(self.pc.wrapping_add(if target == ArithmeticTarget::D8 { 2 } else { 1 }))
                },
            },
            Instruction::SUB(target) => match self.arithmetic_operand(target) {
                Err(e) => Err(e),
                Ok(v) => {
                    self.sub(v);
                    Ok(self.pc.wrapping_add(if target == ArithmeticTarget::D8 { 2 } else { 1 }))
                },
            },
            Instruction::SBC(target) => match self.arithmetic_operand(target) {
                Err(e) => Err(e),
                Ok(v) => {
                    self.sbc(v);
                    Ok(self.pc.wrapping_add(if target == ArithmeticTarget::D8 { 2 } else { 1 }))
                },
            },
            Instruction::JP(test) => {
                let jump_condition = self.condition(test);
                self.jump(jump_condition)
            },
            Instruction::LD(load_type) => self.execute_load(load_type),
            Instruction::PUSH(target) => {
                let value = match target {
                    MultipleBytesRegister::BC => self.registers.get_bc(),
                    MultipleBytesRegister::AF => self.registers.get_af(),
                    MultipleBytesRegister::DE => self.registers.get_de(),
                    MultipleBytesRegister::HL => self.registers.get_hl(),
                };
                match self.push(value) {
                    Err(e) => Err(e),
                    Ok(()) => Ok(self.pc.wrapping_add(1)),
                }
            },
            Instruction::POP(target) => {
                let value = match self.pop() {
                    Err(e) => return Err(e),
                    Ok(v) => v,
                };
                match target {
                    MultipleBytesRegister::AF => self.registers.set_af(value),
                    MultipleBytesRegister::BC => self.registers.set_bc(value),
                    MultipleBytesRegister::DE => self.registers.set_de(value),
                    MultipleBytesRegister::HL => self.registers.set_hl(value),
                }
                Ok(self.pc.wrapping_add(1))
            },
            Instruction::CALL(test) => {
                let jump_condition = self.condition(test);
                self.call(jump_condition)
            },
            Instruction::RET(test) => {
                let jump_condition = self.condition(test);
                self.return_(jump_condition)
            },
            Instruction::NOP() => Ok(self.pc.wrapping_add(1)),
            Instruction::HALT() => {
                self.is_halted = true;
                Ok(self.pc.wrapping_add(1))
            },
            Instruction::SWAP(target) => self.execute_swap(target),
            Instruction::INC(_) | Instruction::RLC(_) | Instruction::XOR(_) => Err(
                EmulatorError::UnimplementedInstructionForm,
            ),
        }
    }

    /// Runs one instruction: fetches the byte at the program counter (and,
    /// after the escape byte, the one that follows it), decodes it, executes
    /// it and moves the program counter on; returns the new program counter.
    /// A halted CPU stays where it is. On an error nothing changes.
    pub fn step(&mut self) -> (r: Result<u16, EmulatorError>)
        requires
            old(self)@.bus.wf(),
        ensures
            match step_spec(old(self)@) {
                Ok(s2) => r == Ok::<u16, EmulatorError>(s2.pc) && final(self)@ == s2,
                Err(e) => r == Err::<u16, EmulatorError>(e) && final(self)@ == old(self)@,
            },
            final(self)@.bus.wf(),
    {
        if self.is_halted {
            return Ok(self.pc);
        }
        let mut instruction_byte = match self.bus.read_byte(self.pc) {
            Err(e) => return Err(e),
            Ok(b) => b,
        };
        let is_prefix = instruction_byte == PREFIX_ESCAPE;
        if is_prefix {
            instruction_byte = match self.bus.read_byte(self.pc.wrapping_add(1)) {
                Err(e) => return Err(e),
                Ok(b) => b,
            };
        }
        match Instruction::from_byte(instruction_byte, is_prefix) {
            None => Err(
                EmulatorError::UnimplementedOpcode {
                    byte: instruction_byte,
                    page: if is_prefix {
                        OpcodePage::Prefixed
                    } else {
                        OpcodePage::Plain
                    },
                },
            ),
            Some(instruction) => match self.execute(instruction) {
                Err(e) => Err(e),
                Ok(next) => {
                    self.pc = next;
                    Ok(self.pc)
                },
            },
        }
    }
}

} // verus!
