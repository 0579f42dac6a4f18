use gbemu::cpu::CPU;
use gbemu::error::{EmulatorError, OpcodePage};
use gbemu::instructions::{
    ArithmeticTarget, Instruction, JumpTest, LoadByteSource, LoadByteTarget, LoadType,
    MultipleBytesRegister, PrefixTarget,
};
use gbemu::memory::MemoryBus;
use gbemu::registers::{FlagRegister, Registers};

/// A machine whose cartridge holds `program` from address 0 and zeros after.
fn machine(program: &[u8]) -> CPU {
    let mut image = vec![0u8; 0x8000];
    image[..program.len()].copy_from_slice(program);
    CPU::new(MemoryBus::new(None, image).unwrap())
}

fn flags(zero: bool, subtract: bool, half_carry: bool, carry: bool) -> FlagRegister {
    FlagRegister { zero, subtract, half_carry, carry }
}

fn snapshot(cpu: &CPU) -> (Registers, u16, u16, bool) {
    (cpu.registers, cpu.pc, cpu.sp, cpu.is_halted)
}

#[test]
fn add_0x0f_and_0x01() {
    let mut cpu = machine(&[]);
    cpu.registers.a = 0x0F;
    cpu.add(0x01);
    assert_eq!(cpu.registers.a, 0x10);
    assert!(!cpu.registers.f.zero);
    assert!(!cpu.registers.f.carry);
    assert!(!cpu.registers.f.subtract);
}

#[test]
fn add_0xff_and_0x01_wraps_to_zero() {
    let mut cpu = machine(&[]);
    cpu.registers.a = 0xFF;
    cpu.add(0x01);
    assert_eq!(cpu.registers.a, 0x00);
    assert!(cpu.registers.f.zero);
    assert!(cpu.registers.f.carry);
    assert!(!cpu.registers.f.subtract);
}

#[test]
fn add_half_carry_follows_the_low_nibble_of_the_result() {
    let mut cpu = machine(&[]);
    cpu.registers.a = 0x05;
    cpu.add(0x03);
    assert_eq!(cpu.registers.a, 0x08);
    assert!(cpu.registers.f.half_carry);
    cpu.registers.a = 0x0F;
    cpu.add(0x01);
    assert_eq!(cpu.registers.a, 0x10);
    assert!(!cpu.registers.f.half_carry);
}

#[test]
fn sub_wraps_and_sets_carry_on_borrow() {
    let mut cpu = machine(&[]);
    cpu.registers.a = 0x10;
    cpu.sub(0x01);
    assert_eq!(cpu.registers.a, 0x0F);
    assert_eq!(cpu.registers.f, flags(false, false, false, false));
    cpu.registers.a = 0x00;
    cpu.sub(0x01);
    assert_eq!(cpu.registers.a, 0xFF);
    assert_eq!(cpu.registers.f, flags(false, false, false, true));
    cpu.registers.a = 0x42;
    cpu.sub(0x42);
    assert_eq!(cpu.registers.a, 0x00);
    assert_eq!(cpu.registers.f, flags(true, false, false, false));
}

#[test]
fn adc_adds_one_more_when_carry_is_clear() {
    let mut cpu = machine(&[]);
    cpu.registers.a = 0x01;
    cpu.registers.f.carry = false;
    cpu.adc(0x01);
    assert_eq!(cpu.registers.a, 0x03);
    cpu.registers.a = 0x01;
    cpu.registers.f.carry = true;
    cpu.adc(0x01);
    assert_eq!(cpu.registers.a, 0x02);
}

#[test]
fn adc_fold_wraps_the_operand() {
    let mut cpu = machine(&[]);
    cpu.registers.a = 0x05;
    cpu.registers.f.carry = false;
    cpu.adc(0xFF);
    assert_eq!(cpu.registers.a, 0x05);
    assert!(!cpu.registers.f.carry);
}

#[test]
fn sbc_subtracts_one_more_when_carry_is_clear() {
    let mut cpu = machine(&[]);
    cpu.registers.a = 0x05;
    cpu.registers.f.carry = false;
    cpu.sbc(0x01);
    assert_eq!(cpu.registers.a, 0x03);
    cpu.registers.a = 0x05;
    cpu.registers.f.carry = true;
    cpu.sbc(0x01);
    assert_eq!(cpu.registers.a, 0x04);
}

#[test]
fn swap_nibbles_exchanges_and_sets_zero() {
    let mut cpu = machine(&[]);
    cpu.registers.f = flags(true, true, true, true);
    assert_eq!(cpu.swap_nibbles(0xAB), 0xBA);
    assert_eq!(cpu.registers.f, flags(false, false, false, false));
    assert_eq!(cpu.swap_nibbles(0x00), 0x00);
    assert_eq!(cpu.registers.f, flags(true, false, false, false));
}

#[test]
fn nop_step_from_zero() {
    let mut cpu = machine(&[0x00]);
    let before = cpu.registers;
    assert_eq!(cpu.step(), Ok(1));
    assert_eq!(cpu.pc, 1);
    assert_eq!(cpu.registers, before);
    assert_eq!(cpu.sp, 0);
    assert!(!cpu.is_halted);
}

#[test]
fn jump_always_reads_little_endian_target() {
    let mut cpu = machine(&[0x00, 0x34, 0x12]);
    assert_eq!(cpu.execute(Instruction::JP(JumpTest::Always)), Ok(0x1234));
    assert_eq!(cpu.jump(true), Ok(0x1234));
}

#[test]
fn jump_not_taken_skips_three_bytes() {
    let mut cpu = machine(&[0x00, 0x34, 0x12]);
    cpu.registers.f.zero = true;
    assert_eq!(cpu.execute(Instruction::JP(JumpTest::NotZero)), Ok(3));
    assert_eq!(cpu.execute(Instruction::JP(JumpTest::Zero)), Ok(0x1234));
    assert_eq!(cpu.execute(Instruction::JP(JumpTest::Carry)), Ok(3));
    assert_eq!(cpu.execute(Instruction::JP(JumpTest::NotCarry)), Ok(0x1234));
}

#[test]
fn unknown_plain_opcode_stops_and_changes_nothing() {
    let mut cpu = machine(&[0xD3]);
    cpu.registers.a = 0x12;
    cpu.sp = 0xFFFE;
    let before = snapshot(&cpu);
    assert_eq!(
        cpu.step(),
        Err(EmulatorError::UnimplementedOpcode { byte: 0xD3, page: OpcodePage::Plain })
    );
    assert_eq!(snapshot(&cpu), before);
}

#[test]
fn unknown_prefixed_opcode_stops_and_changes_nothing() {
    let mut cpu = machine(&[0xCB, 0x00]);
    let before = snapshot(&cpu);
    assert_eq!(
        cpu.step(),
        Err(EmulatorError::UnimplementedOpcode { byte: 0x00, page: OpcodePage::Prefixed })
    );
    assert_eq!(snapshot(&cpu), before);
}

#[test]
fn push_then_pop_round_trip() {
    for (sp, v) in [(0xFFFEu16, 0xBEEFu16), (0xD000, 0x1234), (0xC002, 0x00FF), (0xE100, 0xFF00)] {
        let mut cpu = machine(&[]);
        cpu.sp = sp;
        assert_eq!(cpu.push(v), Ok(()));
        assert_eq!(cpu.sp, sp.wrapping_sub(2));
        assert_eq!(cpu.pop(), Ok(v));
        assert_eq!(cpu.sp, sp);
    }
}

#[test]
fn push_stores_high_byte_above_low_byte() {
    let mut cpu = machine(&[]);
    cpu.sp = 0xD000;
    assert_eq!(cpu.push(0xABCD), Ok(()));
    assert_eq!(cpu.bus.read_byte(0xCFFF), Ok(0xAB));
    assert_eq!(cpu.bus.read_byte(0xCFFE), Ok(0xCD));
}

#[test]
fn push_to_unmapped_stack_changes_nothing() {
    let mut cpu = machine(&[]);
    cpu.sp = 0xFF00;
    assert_eq!(cpu.push(0x1234), Err(EmulatorError::AddressOutOfRange { address: 0xFEFF }));
    assert_eq!(cpu.sp, 0xFF00);
    cpu.sp = 0xFF81;
    assert_eq!(cpu.push(0x1234), Err(EmulatorError::AddressOutOfRange { address: 0xFF7F }));
    assert_eq!(cpu.sp, 0xFF81);
    assert_eq!(cpu.bus.read_byte(0xFF80), Ok(0));
}

#[test]
fn push_and_pop_instructions_move_register_pairs() {
    let mut cpu = machine(&[]);
    cpu.sp = 0xFFFE;
    cpu.registers.set_bc(0x1234);
    assert_eq!(cpu.execute(Instruction::PUSH(MultipleBytesRegister::BC)), Ok(1));
    assert_eq!(cpu.execute(Instruction::POP(MultipleBytesRegister::DE)), Ok(1));
    assert_eq!(cpu.registers.get_de(), 0x1234);
    assert_eq!(cpu.sp, 0xFFFE);
}

#[test]
fn step_add_register_and_immediate() {
    let mut cpu = machine(&[0x80, 0xC6, 0x05]);
    cpu.registers.a = 1;
    cpu.registers.b = 2;
    assert_eq!(cpu.step(), Ok(1));
    assert_eq!(cpu.registers.a, 3);
    assert_eq!(cpu.step(), Ok(3));
    assert_eq!(cpu.registers.a, 8);
}

#[test]
fn step_add_through_hl() {
    let mut cpu = machine(&[0x86]);
    cpu.registers.set_hl(0xC010);
    assert_eq!(cpu.bus.write_byte(0xC010, 0x21), Ok(()));
    cpu.registers.a = 0x01;
    assert_eq!(cpu.step(), Ok(1));
    assert_eq!(cpu.registers.a, 0x22);
}

#[test]
fn step_add_through_unmapped_hl_changes_nothing() {
    let mut cpu = machine(&[0x86]);
    cpu.registers.set_hl(0xFEA0);
    let before = snapshot(&cpu);
    assert_eq!(cpu.step(), Err(EmulatorError::AddressOutOfRange { address: 0xFEA0 }));
    assert_eq!(snapshot(&cpu), before);
}

#[test]
fn step_load_word_into_hl_and_sp() {
    let mut cpu = machine(&[0x21, 0x34, 0x12, 0x31, 0xFE, 0xFF]);
    assert_eq!(cpu.step(), Ok(3));
    assert_eq!(cpu.registers.get_hl(), 0x1234);
    assert_eq!(cpu.step(), Ok(6));
    assert_eq!(cpu.sp, 0xFFFE);
}

#[test]
fn load_byte_forms() {
    let mut cpu = machine(&[0x00, 0x77]);
    let ld = |t, s| Instruction::LD(LoadType::Byte(t, s));
    assert_eq!(cpu.execute(ld(LoadByteTarget::B, LoadByteSource::D8)), Ok(2));
    assert_eq!(cpu.registers.b, 0x77);
    assert_eq!(cpu.execute(ld(LoadByteTarget::A, LoadByteSource::B)), Ok(1));
    assert_eq!(cpu.registers.a, 0x77);
    cpu.registers.set_hl(0xC100);
    assert_eq!(cpu.execute(ld(LoadByteTarget::HLI, LoadByteSource::A)), Ok(1));
    assert_eq!(cpu.bus.read_byte(0xC100), Ok(0x77));
    assert_eq!(cpu.execute(ld(LoadByteTarget::L, LoadByteSource::HLI)), Ok(1));
    assert_eq!(cpu.registers.l, 0x77);
}

#[test]
fn step_swap_through_prefix() {
    let mut cpu = machine(&[0xCB, 0x37, 0xCB, 0x36]);
    cpu.registers.a = 0xAB;
    assert_eq!(cpu.step(), Ok(2));
    assert_eq!(cpu.registers.a, 0xBA);
    cpu.registers.set_hl(0xC000);
    assert_eq!(cpu.bus.write_byte(0xC000, 0xF0), Ok(()));
    assert_eq!(cpu.step(), Ok(4));
    assert_eq!(cpu.bus.read_byte(0xC000), Ok(0x0F));
    assert!(!cpu.registers.f.zero);
}

#[test]
fn swap_register_to_zero_sets_zero() {
    let mut cpu = machine(&[]);
    cpu.registers.c = 0;
    assert_eq!(cpu.execute(Instruction::SWAP(PrefixTarget::C)), Ok(2));
    assert!(cpu.registers.f.zero);
}

#[test]
fn halt_stops_the_machine() {
    let mut cpu = machine(&[0x00, 0x00]);
    assert_eq!(cpu.execute(Instruction::HALT()), Ok(1));
    assert!(cpu.is_halted);
    assert_eq!(cpu.step(), Ok(0));
    assert_eq!(cpu.pc, 0);
    assert_eq!(cpu.execute(Instruction::NOP()), Ok(0));
}

#[test]
fn decoded_forms_without_rule_are_reported() {
    let mut cpu = machine(&[0xAF, 0x3C, 0x02]);
    let before = snapshot(&cpu);
    assert_eq!(cpu.step(), Err(EmulatorError::UnimplementedInstructionForm));
    assert_eq!(snapshot(&cpu), before);
    cpu.pc = 1;
    assert_eq!(cpu.step(), Err(EmulatorError::UnimplementedInstructionForm));
    cpu.pc = 2;
    assert_eq!(cpu.step(), Err(EmulatorError::UnimplementedInstructionForm));
    assert_eq!(cpu.execute(Instruction::XOR(ArithmeticTarget::B)), Err(EmulatorError::UnimplementedInstructionForm));
}

#[test]
fn call_then_return() {
    let mut program = vec![0u8; 0x110];
    program[0x101] = 0x00;
    program[0x102] = 0x02;
    let mut cpu = machine(&program);
    cpu.pc = 0x0100;
    cpu.sp = 0xFFFE;
    assert_eq!(cpu.call(true), Ok(0x0200));
    assert_eq!(cpu.sp, 0xFFFC);
    assert_eq!(cpu.bus.read_byte(0xFFFD), Ok(0x01));
    assert_eq!(cpu.bus.read_byte(0xFFFC), Ok(0x03));
    cpu.pc = 0x0200;
    assert_eq!(cpu.return_(true), Ok(0x0103));
    assert_eq!(cpu.sp, 0xFFFE);
}

#[test]
fn call_and_return_not_taken() {
    let mut cpu = machine(&[]);
    cpu.pc = 0x0010;
    cpu.sp = 0xFFFE;
    cpu.registers.f.zero = true;
    assert_eq!(cpu.execute(Instruction::CALL(JumpTest::NotZero)), Ok(0x0013));
    assert_eq!(cpu.execute(Instruction::RET(JumpTest::NotZero)), Ok(0x0011));
    assert_eq!(cpu.sp, 0xFFFE);
}

#[test]
fn call_with_unmapped_stack_changes_nothing() {
    let mut cpu = machine(&[0x00, 0x00, 0x02]);
    cpu.sp = 0xFF00;
    let before = snapshot(&cpu);
    assert_eq!(cpu.call(true), Err(EmulatorError::AddressOutOfRange { address: 0xFEFF }));
    assert_eq!(snapshot(&cpu), before);
}

#[test]
fn program_counter_wraps() {
    let mut cpu = machine(&[]);
    cpu.pc = 0xFFFE;
    assert_eq!(cpu.bus.write_byte(0xFFFE, 0x00), Ok(()));
    assert_eq!(cpu.step(), Ok(0xFFFF));
    cpu.pc = 0xFFFF;
    assert_eq!(cpu.execute(Instruction::NOP()), Ok(0x0000));
}

#[test]
fn stack_pointer_wraps_on_pop() {
    let mut cpu = machine(&[]);
    cpu.sp = 0xFFFE;
    assert_eq!(cpu.bus.write_byte(0xFFFE, 0x34), Ok(()));
    assert_eq!(cpu.pop(), Err(EmulatorError::AddressOutOfRange { address: 0xFFFF }));
    assert_eq!(cpu.sp, 0xFFFE);
}

#[test]
fn new_machine_is_zeroed() {
    let cpu = machine(&[]);
    assert_eq!(cpu.registers, Registers::new());
    assert_eq!(cpu.registers.get_af(), 0);
    assert_eq!((cpu.pc, cpu.sp, cpu.is_halted), (0, 0, false));
}
