use emulators::instruction::{AddressingMode, Mos6502Instruction, Mos6502InstructionCode};
use emulators::memory::{Memory, AVAILABLE_MEMORY};
use emulators::mos6502cpu::Mos6502Cpu;
#[test]
fn it_should_execut_asl_with_no_flag() {
    let mut cpu = Mos6502Cpu::new([0u8; AVAILABLE_MEMORY]);
    cpu.registers.a = 0x03;
    cpu.execute_instruction(&Mos6502Instruction {
        instruction: Mos6502InstructionCode::Asl,
        addressing_mode: AddressingMode::Accumulator,
    }).unwrap();
    assert_eq!(cpu.registers.a, 0x06);
    assert!(!cpu.registers.p.carry);
    assert!(!cpu.registers.p.negative);
    assert!(!cpu.registers.p.zero);
}

#[test]
fn it_should_execut_asl_setting_carry() {
    let mut cpu = Mos6502Cpu::new([0u8; AVAILABLE_MEMORY]);
    cpu.registers.a = 0xc0;
    cpu.execute_instruction(&Mos6502Instruction {
        instruction: Mos6502InstructionCode::Asl,
        addressing_mode: AddressingMode::Accumulator,
    }).unwrap();
    assert_eq!(cpu.registers.a, 0x80);
    assert!(cpu.registers.p.carry);
    assert!(cpu.registers.p.negative);
    assert!(!cpu.registers.p.zero);
}

#[test]
fn it_should_execut_asl_setting_zero() {
    let mut cpu = Mos6502Cpu::new([0u8; AVAILABLE_MEMORY]);
    cpu.registers.a = 0x80;
    cpu.execute_instruction(&Mos6502Instruction {
        instruction: Mos6502InstructionCode::Asl,
        addressing_mode: AddressingMode::Accumulator,
    }).unwrap();
    assert_eq!(cpu.registers.a, 0);
    assert!(cpu.registers.p.carry);
    assert!(!cpu.registers.p.negative);
    assert!(cpu.registers.p.zero);
}

#[test]
fn it_should_substract_one_and_not_set_anything() {
    let mut cpu = Mos6502Cpu::new([0u8; AVAILABLE_MEMORY]);
    cpu.memory[0] = 0x42;
    cpu.execute_instruction(&Mos6502Instruction {
        instruction: Mos6502InstructionCode::Dec,
        addressing_mode: AddressingMode::Absolute { high_byte: 0, low_byte: 0 },
    }).unwrap();
    assert_eq!(cpu.memory[0], 0x41);
    assert!(!cpu.registers.p.negative);
    assert!(!cpu.registers.p.zero);
}

#[test]
fn it_should_substract_one_and_set_zero() {
    let mut cpu = Mos6502Cpu::new([0u8; AVAILABLE_MEMORY]);
    cpu.memory[0] = 0x01;
    cpu.execute_instruction(&Mos6502Instruction {
        instruction: Mos6502InstructionCode::Dec,
        addressing_mode: AddressingMode::Absolute { high_byte: 0, low_byte: 0 },
    }).unwrap();
    assert_eq!(cpu.memory[0], 0x0);
    assert!(!cpu.registers.p.negative);
    assert!(cpu.registers.p.zero);
}

#[test]
fn it_should_substract_one_and_set_negative() {
    let mut cpu = Mos6502Cpu::new([0u8; AVAILABLE_MEMORY]);
    cpu.memory[0] = 0x0;
    cpu.execute_instruction(&Mos6502Instruction {
        instruction: Mos6502InstructionCode::Dec,
        addressing_mode: AddressingMode::Absolute { high_byte: 0, low_byte: 0 },
    }).unwrap();
    assert_eq!(cpu.memory[0], 0xff);
    assert!(cpu.registers.p.negative);
    assert!(!cpu.registers.p.zero);
}

#[test]
fn it_should_substract_one_from_x_and_not_set_anything() {
    let mut cpu = Mos6502Cpu::new([0u8; AVAILABLE_MEMORY]);
    cpu.registers.x = 0x42;
    cpu.execute_instruction(&Mos6502Instruction {
        instruction: Mos6502InstructionCode::Dex,
        addressing_mode: AddressingMode::Implicit,
    }).unwrap();
    assert_eq!(cpu.registers.x, 0x41);
    assert!(!cpu.registers.p.negative);
    assert!(!cpu.registers.p.zero);
}

#[test]
fn it_should_substract_one_from_x_and_set_zero() {
    let mut cpu = Mos6502Cpu::new([0u8; AVAILABLE_MEMORY]);
    cpu.registers.x = 0x01;
    cpu.execute_instruction(&Mos6502Instruction {
        instruction: Mos6502InstructionCode::Dex,
        addressing_mode: AddressingMode::Implicit,
    }).unwrap();
    assert_eq!(cpu.registers.x, 0x0);
    assert!(!cpu.registers.p.negative);
    assert!(cpu.registers.p.zero);
}

#[test]
fn it_should_substract_one_from_x_and_set_negative() {
    let mut cpu = Mos6502Cpu::new([0u8; AVAILABLE_MEMORY]);
    cpu.registers.x = 0x0;
    cpu.execute_instruction(&Mos6502Instruction {
        instruction: Mos6502InstructionCode::Dex,
        addressing_mode: AddressingMode::Implicit,
    }).unwrap();
    assert_eq!(cpu.registers.x, 0xff);
    assert!(cpu.registers.p.negative);
    assert!(!cpu.registers.p.zero);
}

#[test]
fn it_should_substract_one_from_y_and_not_set_anything() {
    let mut cpu = Mos6502Cpu::new([0u8; AVAILABLE_MEMORY]);
    cpu.registers.y = 0x42;
    cpu.execute_instruction(&Mos6502Instruction {
        instruction: Mos6502InstructionCode::Dey,
        addressing_mode: AddressingMode::Implicit,
    }).unwrap();
    assert_eq!(cpu.registers.y, 0x41);
    assert!(!cpu.registers.p.negative);
    assert!(!cpu.registers.p.zero);
}

#[test]
fn it_should_substract_one_from_y_and_set_zero() {
    let mut cpu = Mos6502Cpu::new([0u8; AVAILABLE_MEMORY]);
    cpu.registers.y = 0x01;
    cpu.execute_instruction(&Mos6502Instruction {
        instruction: Mos6502InstructionCode::Dey,
        addressing_mode: AddressingMode::Implicit,
    }).unwrap();
    assert_eq!(cpu.registers.y, 0x0);
    assert!(!cpu.registers.p.negative);
    assert!(cpu.registers.p.zero);
}

#[test]
fn it_should_substract_one_from_y_and_set_negative() {
    let mut cpu = Mos6502Cpu::new([0u8; AVAILABLE_MEMORY]);
    cpu.registers.y = 0x0;
    cpu.execute_instruction(&Mos6502Instruction {
        instruction: Mos6502InstructionCode::Dey,
        addressing_mode: AddressingMode::Implicit,
    }).unwrap();
    assert_eq!(cpu.registers.y, 0xff);
    assert!(cpu.registers.p.negative);
    assert!(!cpu.registers.p.zero);
}

#[test]
fn it_should_increment_one_and_not_set_anything() {
    let mut cpu = Mos6502Cpu::new([0u8; AVAILABLE_MEMORY]);
    cpu.memory[0] = 0x42;
    cpu.execute_instruction(&Mos6502Instruction {
        instruction: Mos6502InstructionCode::Inc,
        addressing_mode: AddressingMode::Absolute { high_byte: 0, low_byte: 0 },
    }).unwrap();
    assert_eq!(cpu.memory[0], 0x43);
    assert!(!cpu.registers.p.negative);
    assert!(!cpu.registers.p.zero);
}

#[test]
fn it_should_increment_one_and_set_zero() {
    let mut cpu = Mos6502Cpu::new([0u8; AVAILABLE_MEMORY]);
    cpu.memory[0] = 0xff;
    cpu.execute_instruction(&Mos6502Instruction {
        instruction: Mos6502InstructionCode::Inc,
        addressing_mode: AddressingMode::Absolute { high_byte: 0, low_byte: 0 },
    }).unwrap();
    assert_eq!(cpu.memory[0], 0x0);
    assert!(!cpu.registers.p.negative);
    assert!(cpu.registers.p.zero);
}

#[test]
fn it_should_increment_one_and_set_negative() {
    let mut cpu = Mos6502Cpu::new([0u8; AVAILABLE_MEMORY]);
    cpu.memory[0] = 0xfe;
    cpu.execute_instruction(&Mos6502Instruction {
        instruction: Mos6502InstructionCode::Inc,
        addressing_mode: AddressingMode::Absolute { high_byte: 0, low_byte: 0 },
    }).unwrap();
    assert_eq!(cpu.memory[0], 0xff);
    assert!(cpu.registers.p.negative);
    assert!(!cpu.registers.p.zero);
}

#[test]
fn it_should_increment_one_from_x_and_not_set_anything() {
    let mut cpu = Mos6502Cpu::new([0u8; AVAILABLE_MEMORY]);
    cpu.registers.x = 0x42;
    cpu.execute_instruction(&Mos6502Instruction {
        instruction: Mos6502InstructionCode::Inx,
        addressing_mode: AddressingMode::Implicit,
    }).unwrap();
    assert_eq!(cpu.registers.x, 0x43);
    assert!(!cpu.registers.p.negative);
    assert!(!cpu.registers.p.zero);
}

#[test]
fn it_should_increment_one_from_x_and_set_zero() {
    let mut cpu = Mos6502Cpu::new([0u8; AVAILABLE_MEMORY]);
    cpu.registers.x = 0xff;
    cpu.execute_instruction(&Mos6502Instruction {
        instruction: Mos6502InstructionCode::Inx,
        addressing_mode: AddressingMode::Implicit,
    }).unwrap();
    assert_eq!(cpu.registers.x, 0x0);
    assert!(!cpu.registers.p.negative);
    assert!(cpu.registers.p.zero);
}

#[test]
fn it_should_increment_one_from_x_and_set_negative() {
    let mut cpu = Mos6502Cpu::new([0u8; AVAILABLE_MEMORY]);
    cpu.registers.x = 0xfe;
    cpu.execute_instruction(&Mos6502Instruction {
        instruction: Mos6502InstructionCode::Inx,
        addressing_mode: AddressingMode::Implicit,
    }).unwrap();
    assert_eq!(cpu.registers.x, 0xff);
    assert!(cpu.registers.p.negative);
    assert!(!cpu.registers.p.zero);
}

#[test]
fn it_should_increment_one_from_y_and_not_set_anything() {
    let mut cpu = Mos6502Cpu::new([0u8; AVAILABLE_MEMORY]);
    cpu.registers.y = 0x42;
    cpu.execute_instruction(&Mos6502Instruction {
        instruction: Mos6502InstructionCode::Iny,
        addressing_mode: AddressingMode::Implicit,
    }).unwrap();
    assert_eq!(cpu.registers.y, 0x43);
    assert!(!cpu.registers.p.negative);
    assert!(!cpu.registers.p.zero);
}

#[test]
fn it_should_increment_one_from_y_and_set_zero() {
    let mut cpu = Mos6502Cpu::new([0u8; AVAILABLE_MEMORY]);
    cpu.registers.y = 0xff;
    cpu.execute_instruction(&Mos6502Instruction {
        instruction: Mos6502InstructionCode::Iny,
        addressing_mode: AddressingMode::Implicit,
    }).unwrap();
    assert_eq!(cpu.registers.y, 0x0);
    assert!(!cpu.registers.p.negative);
    assert!(cpu.registers.p.zero);
}

#[test]
fn it_should_increment_one_from_y_and_set_negative() {
    let mut cpu = Mos6502Cpu::new([0u8; AVAILABLE_MEMORY]);
    cpu.registers.y = 0xfe;
    cpu.execute_instruction(&Mos6502Instruction {
        instruction: Mos6502InstructionCode::Iny,
        addressing_mode: AddressingMode::Implicit,
    }).unwrap();
    assert_eq!(cpu.registers.y, 0xff);
    assert!(cpu.registers.p.negative);
    assert!(!cpu.registers.p.zero);
}

#[test]
fn it_should_shift_right_without_setting_anything() {
    let mut cpu = Mos6502Cpu::new([0u8; AVAILABLE_MEMORY]);
    cpu.registers.a = 0x02;
    cpu.execute_instruction(&Mos6502Instruction {
        instruction: Mos6502InstructionCode::Lsr,
        addressing_mode: AddressingMode::Accumulator,
    }).unwrap();
    assert_eq!(cpu.registers.a, 0x01);
    assert!(!cpu.registers.p.carry);
    assert!(!cpu.registers.p.negative);
    assert!(!cpu.registers.p.zero);
}

#[test]
fn it_should_shift_right_setting_carry() {
    let mut cpu = Mos6502Cpu::new([0u8; AVAILABLE_MEMORY]);
    cpu.registers.a = 0x03;
    cpu.execute_instruction(&Mos6502Instruction {
        instruction: Mos6502InstructionCode::Lsr,
        addressing_mode: AddressingMode::Accumulator,
    }).unwrap();
    assert_eq!(cpu.registers.a, 0x01);
    assert!(cpu.registers.p.carry);
    assert!(!cpu.registers.p.negative);
    assert!(!cpu.registers.p.zero);
}

#[test]
fn it_should_shift_right_setting_zero() {
    let mut cpu = Mos6502Cpu::new([0u8; AVAILABLE_MEMORY]);
    cpu.registers.a = 0x00;
    cpu.execute_instruction(&Mos6502Instruction {
        instruction: Mos6502InstructionCode::Lsr,
        addressing_mode: AddressingMode::Accumulator,
    }).unwrap();
    assert_eq!(cpu.registers.a, 0x00);
    assert!(!cpu.registers.p.carry);
    assert!(!cpu.registers.p.negative);
    assert!(cpu.registers.p.zero);
}

#[test]
fn it_should_rotate_left_without_setting_anything() {
    let mut cpu = Mos6502Cpu::new([0u8; AVAILABLE_MEMORY]);
    cpu.registers.a = 0x02;
    cpu.execute_instruction(&Mos6502Instruction {
        instruction: Mos6502InstructionCode::Rol,
        addressing_mode: AddressingMode::Accumulator,
    }).unwrap();
    assert_eq!(cpu.registers.a, 0x04);
    assert!(!cpu.registers.p.carry);
    assert!(!cpu.registers.p.negative);
    assert!(!cpu.registers.p.zero);
}

#[test]
fn it_should_rotate_left_with_carry_without_setting_anything() {
    let mut cpu = Mos6502Cpu::new([0u8; AVAILABLE_MEMORY]);
    cpu.registers.p.carry = true;
    cpu.registers.a = 0x02;
    cpu.execute_instruction(&Mos6502Instruction {
        instruction: Mos6502InstructionCode::Rol,
        addressing_mode: AddressingMode::Accumulator,
    }).unwrap();
    assert_eq!(cpu.registers.a, 0x05);
    assert!(!cpu.registers.p.carry);
    assert!(!cpu.registers.p.negative);
    assert!(!cpu.registers.p.zero);
}

#[test]
fn it_should_rotate_left_setting_carry_and_negative() {
    let mut cpu = Mos6502Cpu::new([0u8; AVAILABLE_MEMORY]);
    cpu.registers.a = 0xC0;
    cpu.execute_instruction(&Mos6502Instruction {
        instruction: Mos6502InstructionCode::Rol,
        addressing_mode: AddressingMode::Accumulator,
    }).unwrap();
    assert_eq!(cpu.registers.a, 0x80);
    assert!(cpu.registers.p.carry);
    assert!(cpu.registers.p.negative);
    assert!(!cpu.registers.p.zero);
}

#[test]
fn it_should_rotate_left_setting_zero() {
    let mut cpu = Mos6502Cpu::new([0u8; AVAILABLE_MEMORY]);
    cpu.registers.a = 0x00;
    cpu.execute_instruction(&Mos6502Instruction {
        instruction: Mos6502InstructionCode::Rol,
        addressing_mode: AddressingMode::Accumulator,
    }).unwrap();
    assert_eq!(cpu.registers.a, 0x00);
    assert!(!cpu.registers.p.carry);
    assert!(!cpu.registers.p.negative);
    assert!(cpu.registers.p.zero);
}

#[test]
fn it_should_rotate_right_without_setting_anything() {
    let mut cpu = Mos6502Cpu::new([0u8; AVAILABLE_MEMORY]);
    cpu.registers.a = 0x02;
    cpu.execute_instruction(&Mos6502Instruction {
        instruction: Mos6502InstructionCode::Ror,
        addressing_mode: AddressingMode::Accumulator,
    }).unwrap();
    assert_eq!(cpu.registers.a, 0x01);
    assert!(!cpu.registers.p.carry);
    assert!(!cpu.registers.p.negative);
    assert!(!cpu.registers.p.zero);
}

#[test]
fn it_should_rotate_right_with_carry_without_setting_anything() {
    let mut cpu = Mos6502Cpu::new([0u8; AVAILABLE_MEMORY]);
    cpu.registers.p.carry = true;
    cpu.registers.a = 0x02;
    cpu.execute_instruction(&Mos6502Instruction {
        instruction: Mos6502InstructionCode::Ror,
        addressing_mode: AddressingMode::Accumulator,
    }).unwrap();
    assert_eq!(cpu.registers.a, 0x81);
    assert!(!cpu.registers.p.carry);
    assert!(cpu.registers.p.negative);
    assert!(!cpu.registers.p.zero);
}

#[test]
fn it_should_rotate_right_setting_carry() {
    let mut cpu = Mos6502Cpu::new([0u8; AVAILABLE_MEMORY]);
    cpu.registers.a = 0x03;
    cpu.execute_instruction(&Mos6502Instruction {
        instruction: Mos6502InstructionCode::Ror,
        addressing_mode: AddressingMode::Accumulator,
    }).unwrap();
    assert_eq!(cpu.registers.a, 0x01);
    assert!(cpu.registers.p.carry);
    assert!(!cpu.registers.p.negative);
    assert!(!cpu.registers.p.zero);
}

#[test]
fn it_should_rotate_right_setting_zero() {
    let mut cpu = Mos6502Cpu::new([0u8; AVAILABLE_MEMORY]);
    cpu.registers.a = 0x00;
    cpu.execute_instruction(&Mos6502Instruction {
        instruction: Mos6502InstructionCode::Ror,
        addressing_mode: AddressingMode::Accumulator,
    }).unwrap();
    assert_eq!(cpu.registers.a, 0x00);
    assert!(!cpu.registers.p.carry);
    assert!(!cpu.registers.p.negative);
    assert!(cpu.registers.p.zero);
}
