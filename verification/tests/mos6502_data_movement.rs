use emulators::instruction::{AddressingMode, Mos6502Instruction, Mos6502InstructionCode};
use emulators::memory::{Memory, AVAILABLE_MEMORY};
use emulators::mos6502cpu::Mos6502Cpu;
#[test]
fn it_should_load_into_accumulator_and_not_set_anything() {
    let m = [0u8; AVAILABLE_MEMORY];
    let mut cpu = Mos6502Cpu::new(m);
    cpu.registers.a = 0;
    cpu.execute_instruction(&Mos6502Instruction {
        instruction: Mos6502InstructionCode::Lda,
        addressing_mode: AddressingMode::Immediate { byte: 0x42 },
    })
    .unwrap();
    assert_eq!(cpu.registers.a, 0x42);
    assert!(!cpu.registers.p.zero);
    assert!(!cpu.registers.p.negative);
}

#[test]
fn it_should_load_into_accumulator_and_set_zero() {
    let m = [0u8; AVAILABLE_MEMORY];
    let mut cpu = Mos6502Cpu::new(m);
    cpu.registers.a = 0x42;
    cpu.execute_instruction(&Mos6502Instruction {
        instruction: Mos6502InstructionCode::Lda,
        addressing_mode: AddressingMode::Immediate { byte: 0x00 },
    })
    .unwrap();
    assert_eq!(cpu.registers.a, 0x0);
    assert!(cpu.registers.p.zero);
    assert!(!cpu.registers.p.negative);
}

#[test]
fn it_should_load_into_accumulator_and_set_negative() {
    let m = [0u8; AVAILABLE_MEMORY];
    let mut cpu = Mos6502Cpu::new(m);
    cpu.registers.a = 0;
    cpu.execute_instruction(&Mos6502Instruction {
        instruction: Mos6502InstructionCode::Lda,
        addressing_mode: AddressingMode::Immediate { byte: 0x80 },
    })
    .unwrap();
    assert_eq!(cpu.registers.a, 0x80);
    assert!(!cpu.registers.p.zero);
    assert!(cpu.registers.p.negative);
}

#[test]
fn it_should_load_into_x_and_not_set_anything() {
    let m = [0u8; AVAILABLE_MEMORY];
    let mut cpu = Mos6502Cpu::new(m);
    cpu.registers.x = 0;
    cpu.execute_instruction(&Mos6502Instruction {
        instruction: Mos6502InstructionCode::Ldx,
        addressing_mode: AddressingMode::Immediate { byte: 0x42 },
    })
    .unwrap();
    assert_eq!(cpu.registers.x, 0x42);
    assert!(!cpu.registers.p.zero);
    assert!(!cpu.registers.p.negative);
}

#[test]
fn it_should_load_into_x_and_set_zero() {
    let m = [0u8; AVAILABLE_MEMORY];
    let mut cpu = Mos6502Cpu::new(m);
    cpu.registers.x = 0x42;
    cpu.execute_instruction(&Mos6502Instruction {
        instruction: Mos6502InstructionCode::Ldx,
        addressing_mode: AddressingMode::Immediate { byte: 0x00 },
    })
    .unwrap();
    assert_eq!(cpu.registers.x, 0x0);
    assert!(cpu.registers.p.zero);
    assert!(!cpu.registers.p.negative);
}

#[test]
fn it_should_load_into_x_and_set_negative() {
    let m = [0u8; AVAILABLE_MEMORY];
    let mut cpu = Mos6502Cpu::new(m);
    cpu.registers.x = 0;
    cpu.execute_instruction(&Mos6502Instruction {
        instruction: Mos6502InstructionCode::Ldx,
        addressing_mode: AddressingMode::Immediate { byte: 0x80 },
    })
    .unwrap();
    assert_eq!(cpu.registers.x, 0x80);
    assert!(!cpu.registers.p.zero);
    assert!(cpu.registers.p.negative);
}

#[test]
fn it_should_load_into_y_and_not_set_anything() {
    let m = [0u8; AVAILABLE_MEMORY];
    let mut cpu = Mos6502Cpu::new(m);
    cpu.registers.y = 0;
    cpu.execute_instruction(&Mos6502Instruction {
        instruction: Mos6502InstructionCode::Ldy,
        addressing_mode: AddressingMode::Immediate { byte: 0x42 },
    })
    .unwrap();
    assert_eq!(cpu.registers.y, 0x42);
    assert!(!cpu.registers.p.zero);
    assert!(!cpu.registers.p.negative);
}

#[test]
fn it_should_load_into_y_and_set_zero() {
    let m = [0u8; AVAILABLE_MEMORY];
    let mut cpu = Mos6502Cpu::new(m);
    cpu.registers.y = 0x42;
    cpu.execute_instruction(&Mos6502Instruction {
        instruction: Mos6502InstructionCode::Ldy,
        addressing_mode: AddressingMode::Immediate { byte: 0x00 },
    })
    .unwrap();
    assert_eq!(cpu.registers.y, 0x0);
    assert!(cpu.registers.p.zero);
    assert!(!cpu.registers.p.negative);
}

#[test]
fn it_should_load_into_y_and_set_negative() {
    let m = [0u8; AVAILABLE_MEMORY];
    let mut cpu = Mos6502Cpu::new(m);
    cpu.registers.y = 0;
    cpu.execute_instruction(&Mos6502Instruction {
        instruction: Mos6502InstructionCode::Ldy,
        addressing_mode: AddressingMode::Immediate { byte: 0x80 },
    })
    .unwrap();
    assert_eq!(cpu.registers.y, 0x80);
    assert!(!cpu.registers.p.zero);
    assert!(cpu.registers.p.negative);
}

#[test]
fn it_should_store_the_accumulator() {
    let m = [0u8; AVAILABLE_MEMORY];
    let mut cpu = Mos6502Cpu::new(m);
    cpu.memory.set(0, 0);
    cpu.registers.a = 0x42;
    cpu.execute_instruction(&Mos6502Instruction {
        instruction: Mos6502InstructionCode::Sta,
        addressing_mode: AddressingMode::Absolute {
            high_byte: 0,
            low_byte: 0,
        },
    })
    .unwrap();
    assert_eq!(cpu.memory.get(0), 0x42);
}

#[test]
fn it_should_store_x() {
    let m = [0u8; AVAILABLE_MEMORY];
    let mut cpu = Mos6502Cpu::new(m);
    cpu.memory.set(0, 0);
    cpu.registers.x = 0x42;
    cpu.execute_instruction(&Mos6502Instruction {
        instruction: Mos6502InstructionCode::Stx,
        addressing_mode: AddressingMode::Absolute {
            high_byte: 0,
            low_byte: 0,
        },
    })
    .unwrap();
    assert_eq!(cpu.memory.get(0), 0x42);
}

#[test]
fn it_should_store_y() {
    let m = [0u8; AVAILABLE_MEMORY];
    let mut cpu = Mos6502Cpu::new(m);
    cpu.memory.set(0, 0);
    cpu.registers.y = 0x42;
    cpu.execute_instruction(&Mos6502Instruction {
        instruction: Mos6502InstructionCode::Sty,
        addressing_mode: AddressingMode::Absolute {
            high_byte: 0,
            low_byte: 0,
        },
    })
    .unwrap();
    assert_eq!(cpu.memory.get(0), 0x42);
}

#[test]
fn it_should_move_a_to_x() {
    let m = [0u8; AVAILABLE_MEMORY];
    let mut cpu = Mos6502Cpu::new(m);
    cpu.registers.x = 0;
    cpu.registers.a = 0x42;
    cpu.execute_instruction(&Mos6502Instruction {
        instruction: Mos6502InstructionCode::Tax,
        addressing_mode: AddressingMode::Implicit,
    })
    .unwrap();
    assert_eq!(cpu.registers.x, 0x42);
    assert!(!cpu.registers.p.zero);
    assert!(!cpu.registers.p.negative);
}

#[test]
fn it_should_move_a_to_x_setting_zero() {
    let m = [0u8; AVAILABLE_MEMORY];
    let mut cpu = Mos6502Cpu::new(m);
    cpu.registers.x = 0x42;
    cpu.registers.a = 0;
    cpu.execute_instruction(&Mos6502Instruction {
        instruction: Mos6502InstructionCode::Tax,
        addressing_mode: AddressingMode::Implicit,
    })
    .unwrap();
    assert_eq!(cpu.registers.x, 0);
    assert!(cpu.registers.p.zero);
    assert!(!cpu.registers.p.negative);
}

#[test]
fn it_should_move_a_to_x_setting_negative() {
    let m = [0u8; AVAILABLE_MEMORY];
    let mut cpu = Mos6502Cpu::new(m);
    cpu.registers.x = 0;
    cpu.registers.a = 0x80;
    cpu.execute_instruction(&Mos6502Instruction {
        instruction: Mos6502InstructionCode::Tax,
        addressing_mode: AddressingMode::Implicit,
    })
    .unwrap();
    assert_eq!(cpu.registers.x, 0x80);
    assert!(!cpu.registers.p.zero);
    assert!(cpu.registers.p.negative);
}

#[test]
fn it_should_move_a_to_y() {
    let m = [0u8; AVAILABLE_MEMORY];
    let mut cpu = Mos6502Cpu::new(m);
    cpu.registers.y = 0;
    cpu.registers.a = 0x42;
    cpu.execute_instruction(&Mos6502Instruction {
        instruction: Mos6502InstructionCode::Tay,
        addressing_mode: AddressingMode::Implicit,
    })
    .unwrap();
    assert_eq!(cpu.registers.y, 0x42);
    assert!(!cpu.registers.p.zero);
    assert!(!cpu.registers.p.negative);
}

#[test]
fn it_should_move_a_to_y_setting_zero() {
    let m = [0u8; AVAILABLE_MEMORY];
    let mut cpu = Mos6502Cpu::new(m);
    cpu.registers.y = 0x42;
    cpu.registers.a = 0;
    cpu.execute_instruction(&Mos6502Instruction {
        instruction: Mos6502InstructionCode::Tay,
        addressing_mode: AddressingMode::Implicit,
    })
    .unwrap();
    assert_eq!(cpu.registers.y, 0);
    assert!(cpu.registers.p.zero);
    assert!(!cpu.registers.p.negative);
}

#[test]
fn it_should_move_a_to_y_setting_negative() {
    let m = [0u8; AVAILABLE_MEMORY];
    let mut cpu = Mos6502Cpu::new(m);
    cpu.registers.y = 0;
    cpu.registers.a = 0x80;
    cpu.execute_instruction(&Mos6502Instruction {
        instruction: Mos6502InstructionCode::Tay,
        addressing_mode: AddressingMode::Implicit,
    })
    .unwrap();
    assert_eq!(cpu.registers.y, 0x80);
    assert!(!cpu.registers.p.zero);
    assert!(cpu.registers.p.negative);
}

#[test]
fn it_should_move_s_to_x() {
    let m = [0u8; AVAILABLE_MEMORY];
    let mut cpu = Mos6502Cpu::new(m);
    cpu.registers.x = 0;
    cpu.registers.s = 0x42;
    cpu.execute_instruction(&Mos6502Instruction {
        instruction: Mos6502InstructionCode::Tsx,
        addressing_mode: AddressingMode::Implicit,
    })
    .unwrap();
    assert_eq!(cpu.registers.x, 0x42);
    assert!(!cpu.registers.p.zero);
    assert!(!cpu.registers.p.negative);
}

#[test]
fn it_should_move_s_to_x_setting_zero() {
    let m = [0u8; AVAILABLE_MEMORY];
    let mut cpu = Mos6502Cpu::new(m);
    cpu.registers.x = 0x42;
    cpu.registers.s = 0;
    cpu.execute_instruction(&Mos6502Instruction {
        instruction: Mos6502InstructionCode::Tsx,
        addressing_mode: AddressingMode::Implicit,
    })
    .unwrap();
    assert_eq!(cpu.registers.x, 0);
    assert!(cpu.registers.p.zero);
    assert!(!cpu.registers.p.negative);
}

#[test]
fn it_should_move_s_to_x_setting_negative() {
    let m = [0u8; AVAILABLE_MEMORY];
    let mut cpu = Mos6502Cpu::new(m);
    cpu.registers.x = 0;
    cpu.registers.s = 0x80;
    cpu.execute_instruction(&Mos6502Instruction {
        instruction: Mos6502InstructionCode::Tsx,
        addressing_mode: AddressingMode::Implicit,
    })
    .unwrap();
    assert_eq!(cpu.registers.x, 0x80);
    assert!(!cpu.registers.p.zero);
    assert!(cpu.registers.p.negative);
}

#[test]
fn it_should_move_x_to_a() {
    let m = [0u8; AVAILABLE_MEMORY];
    let mut cpu = Mos6502Cpu::new(m);
    cpu.registers.a = 0;
    cpu.registers.x = 0x42;
    cpu.execute_instruction(&Mos6502Instruction {
        instruction: Mos6502InstructionCode::Txa,
        addressing_mode: AddressingMode::Implicit,
    })
    .unwrap();
    assert_eq!(cpu.registers.a, 0x42);
    assert!(!cpu.registers.p.zero);
    assert!(!cpu.registers.p.negative);
}

#[test]
fn it_should_move_x_to_a_setting_zero() {
    let m = [0u8; AVAILABLE_MEMORY];
    let mut cpu = Mos6502Cpu::new(m);
    cpu.registers.a = 0x42;
    cpu.registers.x = 0;
    cpu.execute_instruction(&Mos6502Instruction {
        instruction: Mos6502InstructionCode::Txa,
        addressing_mode: AddressingMode::Implicit,
    })
    .unwrap();
    assert_eq!(cpu.registers.a, 0);
    assert!(cpu.registers.p.zero);
    assert!(!cpu.registers.p.negative);
}

#[test]
fn it_should_move_x_to_a_setting_negative() {
    let m = [0u8; AVAILABLE_MEMORY];
    let mut cpu = Mos6502Cpu::new(m);
    cpu.registers.a = 0;
    cpu.registers.x = 0x80;
    cpu.execute_instruction(&Mos6502Instruction {
        instruction: Mos6502InstructionCode::Txa,
        addressing_mode: AddressingMode::Implicit,
    })
    .unwrap();
    assert_eq!(cpu.registers.a, 0x80);
    assert!(!cpu.registers.p.zero);
    assert!(cpu.registers.p.negative);
}

#[test]
fn it_should_move_x_to_s() {
    let m = [0u8; AVAILABLE_MEMORY];
    let mut cpu = Mos6502Cpu::new(m);
    cpu.registers.s = 0;
    cpu.registers.x = 0x42;
    cpu.execute_instruction(&Mos6502Instruction {
        instruction: Mos6502InstructionCode::Txs,
        addressing_mode: AddressingMode::Implicit,
    })
    .unwrap();
    assert_eq!(cpu.registers.s, 0x42);
    assert!(!cpu.registers.p.zero);
    assert!(!cpu.registers.p.negative);
}

#[test]
fn it_should_move_x_to_s_without_setting_zero() {
    let m = [0u8; AVAILABLE_MEMORY];
    let mut cpu = Mos6502Cpu::new(m);
    cpu.registers.s = 0x42;
    cpu.registers.x = 0;
    cpu.execute_instruction(&Mos6502Instruction {
        instruction: Mos6502InstructionCode::Txs,
        addressing_mode: AddressingMode::Implicit,
    })
    .unwrap();
    assert_eq!(cpu.registers.s, 0);
    assert!(!cpu.registers.p.zero);
    assert!(!cpu.registers.p.negative);
}

#[test]
fn it_should_move_x_to_s_without_setting_negative() {
    let m = [0u8; AVAILABLE_MEMORY];
    let mut cpu = Mos6502Cpu::new(m);
    cpu.registers.s = 0;
    cpu.registers.x = 0x80;
    cpu.execute_instruction(&Mos6502Instruction {
        instruction: Mos6502InstructionCode::Txs,
        addressing_mode: AddressingMode::Implicit,
    })
    .unwrap();
    assert_eq!(cpu.registers.s, 0x80);
    assert!(!cpu.registers.p.zero);
    assert!(!cpu.registers.p.negative);
}

#[test]
fn it_should_move_y_to_a() {
    let m = [0u8; AVAILABLE_MEMORY];
    let mut cpu = Mos6502Cpu::new(m);
    cpu.registers.a = 0;
    cpu.registers.y = 0x42;
    cpu.execute_instruction(&Mos6502Instruction {
        instruction: Mos6502InstructionCode::Tya,
        addressing_mode: AddressingMode::Implicit,
    })
    .unwrap();
    assert_eq!(cpu.registers.a, 0x42);
    assert!(!cpu.registers.p.zero);
    assert!(!cpu.registers.p.negative);
}

#[test]
fn it_should_move_y_to_a_setting_zero() {
    let m = [0u8; AVAILABLE_MEMORY];
    let mut cpu = Mos6502Cpu::new(m);
    cpu.registers.a = 0x42;
    cpu.registers.y = 0;
    cpu.execute_instruction(&Mos6502Instruction {
        instruction: Mos6502InstructionCode::Tya,
        addressing_mode: AddressingMode::Implicit,
    })
    .unwrap();
    assert_eq!(cpu.registers.a, 0);
    assert!(cpu.registers.p.zero);
    assert!(!cpu.registers.p.negative);
}

#[test]
fn it_should_move_y_to_a_setting_negative() {
    let m = [0u8; AVAILABLE_MEMORY];
    let mut cpu = Mos6502Cpu::new(m);
    cpu.registers.a = 0;
    cpu.registers.y = 0x80;
    cpu.execute_instruction(&Mos6502Instruction {
        instruction: Mos6502InstructionCode::Tya,
        addressing_mode: AddressingMode::Implicit,
    })
    .unwrap();
    assert_eq!(cpu.registers.a, 0x80);
    assert!(!cpu.registers.p.zero);
    assert!(cpu.registers.p.negative);
}
