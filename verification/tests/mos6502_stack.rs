use emulators::instruction::{AddressingMode, Mos6502Instruction, Mos6502InstructionCode};
use emulators::memory::{Memory, AVAILABLE_MEMORY};
use emulators::mos6502cpu::Mos6502Cpu;
#[test]
fn it_should_push_accumulator_onto_stack() {
    let mut cpu = Mos6502Cpu::new([0u8; AVAILABLE_MEMORY]);
    cpu.registers.s = 0xff;
    cpu.registers.a = 0x42;
    cpu.execute_instruction(&Mos6502Instruction {
        instruction: Mos6502InstructionCode::Pha,
        addressing_mode: AddressingMode::Implicit,
    }).unwrap();
    assert_eq!(cpu.memory[0x1ff], 0x42);
    assert_eq!(cpu.registers.s, 0xfe);
}

#[test]
fn it_should_push_status_onto_stack() {
    let mut cpu = Mos6502Cpu::new([0u8; AVAILABLE_MEMORY]);
    cpu.registers.s = 0xff;
    cpu.registers.p.carry = true;
    let expected = cpu.registers.p.to_byte();
    cpu.execute_instruction(&Mos6502Instruction {
        instruction: Mos6502InstructionCode::Php,
        addressing_mode: AddressingMode::Implicit,
    }).unwrap();
    assert_eq!(cpu.memory[0x1ff], expected);
    assert_eq!(cpu.registers.s, 0xfe);
}

#[test]
fn it_should_pull_accumulator_without_setting_anything() {
    let mut cpu = Mos6502Cpu::new([0u8; AVAILABLE_MEMORY]);
    cpu.registers.s = 0xfe;
    cpu.registers.a = 0;
    cpu.memory[0x1ff] = 0x42;
    cpu.execute_instruction(&Mos6502Instruction {
        instruction: Mos6502InstructionCode::Pla,
        addressing_mode: AddressingMode::Implicit,
    }).unwrap();
    assert_eq!(cpu.registers.a, 0x42);
    assert_eq!(cpu.registers.s, 0xff);
    assert!(!cpu.registers.p.zero);
    assert!(!cpu.registers.p.negative);
}

#[test]
fn it_should_pull_accumulator_setting_zero() {
    let mut cpu = Mos6502Cpu::new([0u8; AVAILABLE_MEMORY]);
    cpu.registers.s = 0xfe;
    cpu.registers.a = 0x42;
    cpu.memory[0x1ff] = 0x0;
    cpu.execute_instruction(&Mos6502Instruction {
        instruction: Mos6502InstructionCode::Pla,
        addressing_mode: AddressingMode::Implicit,
    }).unwrap();
    assert_eq!(cpu.registers.a, 0x0);
    assert_eq!(cpu.registers.s, 0xff);
    assert!(cpu.registers.p.zero);
    assert!(!cpu.registers.p.negative);
}

#[test]
fn it_should_pull_accumulator_setting_negative() {
    let mut cpu = Mos6502Cpu::new([0u8; AVAILABLE_MEMORY]);
    cpu.registers.s = 0xfe;
    cpu.registers.a = 0x42;
    cpu.memory[0x1ff] = 0x80;
    cpu.execute_instruction(&Mos6502Instruction {
        instruction: Mos6502InstructionCode::Pla,
        addressing_mode: AddressingMode::Implicit,
    }).unwrap();
    assert_eq!(cpu.registers.a, 0x80);
    assert_eq!(cpu.registers.s, 0xff);
    assert!(!cpu.registers.p.zero);
    assert!(cpu.registers.p.negative);
}

#[test]
fn it_should_pull_status() {
    let mut cpu = Mos6502Cpu::new([0u8; AVAILABLE_MEMORY]);
    cpu.registers.s = 0xfe;
    cpu.registers.p.carry = true;
    cpu.memory[0x1ff] = cpu.registers.p.to_byte();
    cpu.registers.p.carry = false;
    cpu.execute_instruction(&Mos6502Instruction {
        instruction: Mos6502InstructionCode::Plp,
        addressing_mode: AddressingMode::Implicit,
    }).unwrap();
    assert_eq!(cpu.registers.s, 0xff);
    assert!(cpu.registers.p.carry);
    assert!(!cpu.registers.p.zero);
    assert!(!cpu.registers.p.interrupt_disable);
    assert!(!cpu.registers.p.negative);
    assert!(!cpu.registers.p.decimal);
    assert!(!cpu.registers.p.overflow);
    assert!(!cpu.registers.p.break_flag);
}
