use emulators::instruction::{AddressingMode, Mos6502Instruction, Mos6502InstructionCode};
use emulators::memory::{Memory, AVAILABLE_MEMORY};
use emulators::mos6502cpu::Mos6502Cpu;
#[test]
fn it_should_execute_and_not_set_anything() {
    let m = [0u8; AVAILABLE_MEMORY];
    let mut cpu = Mos6502Cpu::new(m);
    cpu.registers.a = 0x03;
    cpu.execute_instruction(&Mos6502Instruction {
        instruction: Mos6502InstructionCode::And,
        addressing_mode: AddressingMode::Immediate { byte: 0x01 },
    })
    .unwrap();
    assert_eq!(cpu.registers.a, 0x01);
    assert!(!cpu.registers.p.zero);
    assert!(!cpu.registers.p.negative);
}

#[test]
fn it_should_execute_and_set_zero() {
    let m = [0u8; AVAILABLE_MEMORY];
    let mut cpu = Mos6502Cpu::new(m);
    cpu.registers.a = 0x03;
    cpu.execute_instruction(&Mos6502Instruction {
        instruction: Mos6502InstructionCode::And,
        addressing_mode: AddressingMode::Immediate { byte: 0x04 },
    })
    .unwrap();
    assert_eq!(cpu.registers.a, 0);
    assert!(cpu.registers.p.zero);
    assert!(!cpu.registers.p.negative);
}

#[test]
fn it_should_execute_and_set_negative() {
    let m = [0u8; AVAILABLE_MEMORY];
    let mut cpu = Mos6502Cpu::new(m);
    cpu.registers.a = 0x80;
    cpu.execute_instruction(&Mos6502Instruction {
        instruction: Mos6502InstructionCode::And,
        addressing_mode: AddressingMode::Immediate { byte: 0x80 },
    })
    .unwrap();
    assert_eq!(cpu.registers.a, 0x80);
    assert!(!cpu.registers.p.zero);
    assert!(cpu.registers.p.negative);
}

#[test]
fn it_should_perform_exclusive_or() {
    let m = [0u8; AVAILABLE_MEMORY];
    let mut cpu = Mos6502Cpu::new(m);
    cpu.registers.a = 0x02;
    cpu.execute_instruction(&Mos6502Instruction {
        instruction: Mos6502InstructionCode::Eor,
        addressing_mode: AddressingMode::Immediate { byte: 0x01 },
    })
    .unwrap();
    assert_eq!(cpu.registers.a, 0x03);
    assert!(!cpu.registers.p.zero);
    assert!(!cpu.registers.p.negative);
}

#[test]
fn it_should_perform_exclusive_or_and_set_zero() {
    let m = [0u8; AVAILABLE_MEMORY];
    let mut cpu = Mos6502Cpu::new(m);
    cpu.registers.a = 0x02;
    cpu.execute_instruction(&Mos6502Instruction {
        instruction: Mos6502InstructionCode::Eor,
        addressing_mode: AddressingMode::Immediate { byte: 0x02 },
    })
    .unwrap();
    assert_eq!(cpu.registers.a, 0x0);
    assert!(cpu.registers.p.zero);
    assert!(!cpu.registers.p.negative);
}

#[test]
fn it_should_perform_exclusive_or_and_set_negative() {
    let m = [0u8; AVAILABLE_MEMORY];
    let mut cpu = Mos6502Cpu::new(m);
    cpu.registers.a = 0x0;
    cpu.execute_instruction(&Mos6502Instruction {
        instruction: Mos6502InstructionCode::Eor,
        addressing_mode: AddressingMode::Immediate { byte: 0x80 },
    })
    .unwrap();
    assert_eq!(cpu.registers.a, 0x80);
    assert!(!cpu.registers.p.zero);
    assert!(cpu.registers.p.negative);
}

#[test]
fn it_should_execute_inclusive_or_and_set_nothing() {
    let m = [0u8; AVAILABLE_MEMORY];
    let mut cpu = Mos6502Cpu::new(m);
    cpu.registers.a = 0x0;
    cpu.execute_instruction(&Mos6502Instruction {
        instruction: Mos6502InstructionCode::Ora,
        addressing_mode: AddressingMode::Immediate { byte: 0x42 },
    })
    .unwrap();
    assert_eq!(cpu.registers.a, 0x42);
    assert!(!cpu.registers.p.zero);
    assert!(!cpu.registers.p.negative);
}

#[test]
fn it_should_execute_inclusive_or_and_set_zero() {
    let m = [0u8; AVAILABLE_MEMORY];
    let mut cpu = Mos6502Cpu::new(m);
    cpu.registers.a = 0x0;
    cpu.execute_instruction(&Mos6502Instruction {
        instruction: Mos6502InstructionCode::Ora,
        addressing_mode: AddressingMode::Immediate { byte: 0x0 },
    })
    .unwrap();
    assert_eq!(cpu.registers.a, 0x0);
    assert!(cpu.registers.p.zero);
    assert!(!cpu.registers.p.negative);
}

#[test]
fn it_should_execute_inclusive_or_and_set_negative() {
    let m = [0u8; AVAILABLE_MEMORY];
    let mut cpu = Mos6502Cpu::new(m);
    cpu.registers.a = 0x80;
    cpu.execute_instruction(&Mos6502Instruction {
        instruction: Mos6502InstructionCode::Ora,
        addressing_mode: AddressingMode::Immediate { byte: 0x0 },
    })
    .unwrap();
    assert_eq!(cpu.registers.a, 0x80);
    assert!(!cpu.registers.p.zero);
    assert!(cpu.registers.p.negative);
}
