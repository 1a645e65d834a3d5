use emulators::instruction::{AddressingMode, Mos6502Instruction, Mos6502InstructionCode};
use emulators::memory::{Memory, AVAILABLE_MEMORY};
use emulators::mos6502cpu::Mos6502Cpu;
#[test]
fn it_should_branch_if_carry_is_clear_on_bcc() {
    let m = [0u8; AVAILABLE_MEMORY];
    let mut cpu = Mos6502Cpu::new(m);
    cpu.registers.p.carry = false;
    cpu.registers.pc = 0;
    cpu.execute_instruction(&Mos6502Instruction {
        instruction: Mos6502InstructionCode::Bcc,
        addressing_mode: AddressingMode::Relative { byte: 0x42 },
    })
    .unwrap();
    assert_eq!(cpu.registers.pc, 0x42);
}

#[test]
fn it_should_branch_back_if_carry_is_clear_on_bcc_and_argument_is_negative() {
    let m = [0u8; AVAILABLE_MEMORY];
    let mut cpu = Mos6502Cpu::new(m);
    cpu.registers.p.carry = false;
    cpu.registers.pc = 1;
    cpu.execute_instruction(&Mos6502Instruction {
        instruction: Mos6502InstructionCode::Bcc,
        addressing_mode: AddressingMode::Relative { byte: 0xff },
    })
    .unwrap();
    assert_eq!(cpu.registers.pc, 0x0);
}

#[test]
fn it_shouldnt_branch_if_carry_is_set_on_bcc() {
    let m = [0u8; AVAILABLE_MEMORY];
    let mut cpu = Mos6502Cpu::new(m);
    cpu.registers.p.carry = true;
    cpu.registers.pc = 0;
    cpu.execute_instruction(&Mos6502Instruction {
        instruction: Mos6502InstructionCode::Bcc,
        addressing_mode: AddressingMode::Relative { byte: 0x42 },
    })
    .unwrap();
    assert_eq!(cpu.registers.pc, 0x0);
}

#[test]
fn it_shouldnt_branch_if_carry_is_clear_on_bcs() {
    let m = [0u8; AVAILABLE_MEMORY];
    let mut cpu = Mos6502Cpu::new(m);
    cpu.registers.p.carry = false;
    cpu.registers.pc = 0;
    cpu.execute_instruction(&Mos6502Instruction {
        instruction: Mos6502InstructionCode::Bcs,
        addressing_mode: AddressingMode::Relative { byte: 0x42 },
    })
    .unwrap();
    assert_eq!(cpu.registers.pc, 0x0);
}

#[test]
fn it_should_branch_if_carry_is_set_on_bcs() {
    let m = [0u8; AVAILABLE_MEMORY];
    let mut cpu = Mos6502Cpu::new(m);
    cpu.registers.p.carry = true;
    cpu.registers.pc = 0;
    cpu.execute_instruction(&Mos6502Instruction {
        instruction: Mos6502InstructionCode::Bcs,
        addressing_mode: AddressingMode::Relative { byte: 0x42 },
    })
    .unwrap();
    assert_eq!(cpu.registers.pc, 0x42);
}

#[test]
fn it_shouldnt_branch_if_zero_is_clear_on_beq() {
    let m = [0u8; AVAILABLE_MEMORY];
    let mut cpu = Mos6502Cpu::new(m);
    cpu.registers.p.zero = false;
    cpu.registers.pc = 0;
    cpu.execute_instruction(&Mos6502Instruction {
        instruction: Mos6502InstructionCode::Beq,
        addressing_mode: AddressingMode::Relative { byte: 0x42 },
    })
    .unwrap();
    assert_eq!(cpu.registers.pc, 0x0);
}

#[test]
fn it_should_branch_if_zero_is_set_on_beq() {
    let m = [0u8; AVAILABLE_MEMORY];
    let mut cpu = Mos6502Cpu::new(m);
    cpu.registers.p.zero = true;
    cpu.registers.pc = 0;
    cpu.execute_instruction(&Mos6502Instruction {
        instruction: Mos6502InstructionCode::Beq,
        addressing_mode: AddressingMode::Relative { byte: 0x42 },
    })
    .unwrap();
    assert_eq!(cpu.registers.pc, 0x42);
}

#[test]
fn it_shouldnt_branch_if_negative_is_clear_on_bmi() {
    let m = [0u8; AVAILABLE_MEMORY];
    let mut cpu = Mos6502Cpu::new(m);
    cpu.registers.p.negative = false;
    cpu.registers.pc = 0;
    cpu.execute_instruction(&Mos6502Instruction {
        instruction: Mos6502InstructionCode::Bmi,
        addressing_mode: AddressingMode::Relative { byte: 0x42 },
    })
    .unwrap();
    assert_eq!(cpu.registers.pc, 0x0);
}

#[test]
fn it_should_branch_if_negative_is_set_on_bmi() {
    let m = [0u8; AVAILABLE_MEMORY];
    let mut cpu = Mos6502Cpu::new(m);
    cpu.registers.p.negative = true;
    cpu.registers.pc = 0;
    cpu.execute_instruction(&Mos6502Instruction {
        instruction: Mos6502InstructionCode::Bmi,
        addressing_mode: AddressingMode::Relative { byte: 0x42 },
    })
    .unwrap();
    assert_eq!(cpu.registers.pc, 0x42);
}

#[test]
fn it_should_branch_if_zero_is_clear_on_bne() {
    let m = [0u8; AVAILABLE_MEMORY];
    let mut cpu = Mos6502Cpu::new(m);
    cpu.registers.p.zero = false;
    cpu.registers.pc = 0;
    cpu.execute_instruction(&Mos6502Instruction {
        instruction: Mos6502InstructionCode::Bne,
        addressing_mode: AddressingMode::Relative { byte: 0x42 },
    })
    .unwrap();
    assert_eq!(cpu.registers.pc, 0x42);
}

#[test]
fn it_shouldnt_branch_if_zero_is_set_on_bne() {
    let m = [0u8; AVAILABLE_MEMORY];
    let mut cpu = Mos6502Cpu::new(m);
    cpu.registers.p.zero = true;
    cpu.registers.pc = 0;
    cpu.execute_instruction(&Mos6502Instruction {
        instruction: Mos6502InstructionCode::Bne,
        addressing_mode: AddressingMode::Relative { byte: 0x42 },
    })
    .unwrap();
    assert_eq!(cpu.registers.pc, 0x0);
}

#[test]
fn it_should_branch_if_negative_is_clear_on_bpl() {
    let m = [0u8; AVAILABLE_MEMORY];
    let mut cpu = Mos6502Cpu::new(m);
    cpu.registers.p.negative = false;
    cpu.registers.pc = 0;
    cpu.execute_instruction(&Mos6502Instruction {
        instruction: Mos6502InstructionCode::Bpl,
        addressing_mode: AddressingMode::Relative { byte: 0x42 },
    })
    .unwrap();
    assert_eq!(cpu.registers.pc, 0x42);
}

#[test]
fn it_shouldnt_branch_if_negative_is_set_on_bpl() {
    let m = [0u8; AVAILABLE_MEMORY];
    let mut cpu = Mos6502Cpu::new(m);
    cpu.registers.p.negative = true;
    cpu.registers.pc = 0;
    cpu.execute_instruction(&Mos6502Instruction {
        instruction: Mos6502InstructionCode::Bpl,
        addressing_mode: AddressingMode::Relative { byte: 0x42 },
    })
    .unwrap();
    assert_eq!(cpu.registers.pc, 0x0);
}

#[test]
fn it_should_change_program_counter_to_fffe_on_break() {
    let m = [0u8; AVAILABLE_MEMORY];
    let mut cpu = Mos6502Cpu::new(m);
    cpu.memory.set(0xfffe, 0x24);
    cpu.memory.set(0xffff, 0x42);
    cpu.registers.p.break_flag = false;
    cpu.registers.pc = 2;
    cpu.execute_instruction(&Mos6502Instruction {
        instruction: Mos6502InstructionCode::Brk,
        addressing_mode: AddressingMode::Implicit,
    })
    .unwrap();
    assert!(cpu.registers.p.break_flag);
    assert!(cpu.registers.p.interrupt_disable);
    assert_eq!(cpu.registers.pc, 0x4224);
}

#[test]
fn it_should_save_in_stack_status_on_break() {
    let m = [0u8; AVAILABLE_MEMORY];
    let mut cpu = Mos6502Cpu::new(m);
    cpu.registers.s = 3;
    cpu.registers.pc = 0x4224;
    cpu.execute_instruction(&Mos6502Instruction {
        instruction: Mos6502InstructionCode::Brk,
        addressing_mode: AddressingMode::Implicit,
    })
    .unwrap();
    assert_eq!(cpu.registers.s, 0);
    assert_eq!(cpu.memory.get(0x103), 0x42);
    assert_eq!(cpu.memory.get(0x102), 0x25);
    assert_eq!(cpu.memory.get(0x101), 0x30);
}

#[test]
fn it_should_branch_if_overflow_is_clear_on_bvc() {
    let m = [0u8; AVAILABLE_MEMORY];
    let mut cpu = Mos6502Cpu::new(m);
    cpu.registers.p.overflow = false;
    cpu.registers.pc = 0;
    cpu.execute_instruction(&Mos6502Instruction {
        instruction: Mos6502InstructionCode::Bvc,
        addressing_mode: AddressingMode::Relative { byte: 0x42 },
    })
    .unwrap();
    assert_eq!(cpu.registers.pc, 0x42);
}

#[test]
fn it_shouldnt_branch_if_overflow_is_set_on_bvc() {
    let m = [0u8; AVAILABLE_MEMORY];
    let mut cpu = Mos6502Cpu::new(m);
    cpu.registers.p.overflow = true;
    cpu.registers.pc = 0;
    cpu.execute_instruction(&Mos6502Instruction {
        instruction: Mos6502InstructionCode::Bvc,
        addressing_mode: AddressingMode::Relative { byte: 0x42 },
    })
    .unwrap();
    assert_eq!(cpu.registers.pc, 0x0);
}

#[test]
fn it_shouldnt_branch_if_overflow_is_clear_on_bvs() {
    let m = [0u8; AVAILABLE_MEMORY];
    let mut cpu = Mos6502Cpu::new(m);
    cpu.registers.p.overflow = false;
    cpu.registers.pc = 0;
    cpu.execute_instruction(&Mos6502Instruction {
        instruction: Mos6502InstructionCode::Bvs,
        addressing_mode: AddressingMode::Relative { byte: 0x42 },
    })
    .unwrap();
    assert_eq!(cpu.registers.pc, 0x0);
}

#[test]
fn it_should_branch_if_overflow_is_set_on_bvs() {
    let m = [0u8; AVAILABLE_MEMORY];
    let mut cpu = Mos6502Cpu::new(m);
    cpu.registers.p.overflow = true;
    cpu.registers.pc = 0;
    cpu.execute_instruction(&Mos6502Instruction {
        instruction: Mos6502InstructionCode::Bvs,
        addressing_mode: AddressingMode::Relative { byte: 0x42 },
    })
    .unwrap();
    assert_eq!(cpu.registers.pc, 0x42);
}

#[test]
fn it_should_change_program_counter_to_fffe_on_irq() {
    let m = [0u8; AVAILABLE_MEMORY];
    let mut cpu = Mos6502Cpu::new(m);
    cpu.memory.set(0xfffe, 0x24);
    cpu.memory.set(0xffff, 0x42);
    cpu.registers.p.break_flag = false;
    cpu.registers.pc = 2;
    cpu.execute_instruction(&Mos6502Instruction {
        instruction: Mos6502InstructionCode::Irq,
        addressing_mode: AddressingMode::Implicit,
    })
    .unwrap();
    assert!(cpu.registers.p.break_flag);
    assert!(cpu.registers.p.interrupt_disable);
    assert_eq!(cpu.registers.pc, 0x4224);
}

#[test]
fn it_should_save_in_stack_status_on_irq() {
    let m = [0u8; AVAILABLE_MEMORY];
    let mut cpu = Mos6502Cpu::new(m);
    cpu.registers.s = 3;
    cpu.registers.pc = 0x4224;
    cpu.execute_instruction(&Mos6502Instruction {
        instruction: Mos6502InstructionCode::Irq,
        addressing_mode: AddressingMode::Implicit,
    })
    .unwrap();
    assert_eq!(cpu.registers.s, 0);
    assert_eq!(cpu.memory.get(0x103), 0x42);
    assert_eq!(cpu.memory.get(0x102), 0x25);
    assert_eq!(cpu.memory.get(0x101), 0x30);
}

#[test]
fn it_should_jump() {
    let m = [0u8; AVAILABLE_MEMORY];
    let mut cpu = Mos6502Cpu::new(m);
    cpu.registers.pc = 0;
    cpu.execute_instruction(&Mos6502Instruction {
        instruction: Mos6502InstructionCode::Jmp,
        addressing_mode: AddressingMode::Absolute {
            high_byte: 0x42,
            low_byte: 0x24,
        },
    })
    .unwrap();
    assert_eq!(cpu.registers.pc, 0x4224);
}

#[test]
fn it_should_jump_and_push_pc_to_stack() {
    let m = [0u8; AVAILABLE_MEMORY];
    let mut cpu = Mos6502Cpu::new(m);
    cpu.registers.pc = 0x0042;
    cpu.registers.s = 0xff;
    cpu.execute_instruction(&Mos6502Instruction {
        instruction: Mos6502InstructionCode::Jsr,
        addressing_mode: AddressingMode::Absolute {
            high_byte: 0x42,
            low_byte: 0x24,
        },
    })
    .unwrap();
    assert_eq!(cpu.registers.pc, 0x4224);
    assert_eq!(cpu.memory.get(0x1ff), 0x00);
    assert_eq!(cpu.memory.get(0x1fe), 0x41);
}

#[test]
fn it_should_change_program_counter_to_fffe_on_nmi() {
    let m = [0u8; AVAILABLE_MEMORY];
    let mut cpu = Mos6502Cpu::new(m);
    cpu.memory.set(0xfffa, 0x24);
    cpu.memory.set(0xfffb, 0x42);
    cpu.registers.p.break_flag = false;
    cpu.registers.pc = 2;
    cpu.execute_instruction(&Mos6502Instruction {
        instruction: Mos6502InstructionCode::Nmi,
        addressing_mode: AddressingMode::Implicit,
    })
    .unwrap();
    assert!(!cpu.registers.p.break_flag);
    assert!(cpu.registers.p.interrupt_disable);
    assert_eq!(cpu.registers.pc, 0x4224);
}

#[test]
fn it_should_save_in_stack_status_on_nmi() {
    let m = [0u8; AVAILABLE_MEMORY];
    let mut cpu = Mos6502Cpu::new(m);
    cpu.registers.s = 3;
    cpu.registers.pc = 0x4224;
    cpu.execute_instruction(&Mos6502Instruction {
        instruction: Mos6502InstructionCode::Nmi,
        addressing_mode: AddressingMode::Implicit,
    })
    .unwrap();
    assert_eq!(cpu.registers.s, 0);
    assert_eq!(cpu.memory.get(0x103), 0x42);
    assert_eq!(cpu.memory.get(0x102), 0x25);
    assert_eq!(cpu.memory.get(0x101), 0x30);
}

#[test]
fn it_should_ignore_interrupt_disable_on_nmi() {
    let m = [0u8; AVAILABLE_MEMORY];
    let mut cpu = Mos6502Cpu::new(m);
    cpu.registers.p.break_flag = false;
    cpu.registers.p.interrupt_disable = true;
    cpu.memory.set(0xfffa, 0x24);
    cpu.memory.set(0xfffb, 0x42);
    cpu.registers.pc = 2;
    cpu.execute_instruction(&Mos6502Instruction {
        instruction: Mos6502InstructionCode::Nmi,
        addressing_mode: AddressingMode::Implicit,
    })
    .unwrap();
    assert!(!cpu.registers.p.break_flag);
    assert!(cpu.registers.p.interrupt_disable);
    assert_eq!(cpu.registers.pc, 0x4224);
}

#[test]
fn it_should_change_program_counter_to_fffe_on_rst() {
    let m = [0u8; AVAILABLE_MEMORY];
    let mut cpu = Mos6502Cpu::new(m);
    cpu.memory.set(0xfffc, 0x24);
    cpu.memory.set(0xfffd, 0x42);
    cpu.registers.p.break_flag = false;
    cpu.registers.pc = 2;
    cpu.execute_instruction(&Mos6502Instruction {
        instruction: Mos6502InstructionCode::Rst,
        addressing_mode: AddressingMode::Implicit,
    })
    .unwrap();
    assert!(!cpu.registers.p.break_flag);
    assert!(cpu.registers.p.interrupt_disable);
    assert_eq!(cpu.registers.pc, 0x4224);
}

#[test]
fn it_should_save_in_stack_status_on_rst() {
    let m = [0u8; AVAILABLE_MEMORY];
    let mut cpu = Mos6502Cpu::new(m);
    cpu.registers.s = 3;
    cpu.registers.pc = 0x4224;
    cpu.execute_instruction(&Mos6502Instruction {
        instruction: Mos6502InstructionCode::Rst,
        addressing_mode: AddressingMode::Implicit,
    })
    .unwrap();
    assert_eq!(cpu.registers.s, 0);
    assert_eq!(cpu.memory.get(0x103), 0x42);
    assert_eq!(cpu.memory.get(0x102), 0x25);
    assert_eq!(cpu.memory.get(0x101), 0x30);
}

#[test]
fn it_should_return_from_interrupt() {
    let m = [0u8; AVAILABLE_MEMORY];
    let mut cpu = Mos6502Cpu::new(m);
    cpu.registers.pc = 0x0042;
    cpu.registers.s = 0xfc;
    cpu.registers.p.carry = false;
    cpu.memory.set(0x1fd, 0x01);
    cpu.memory.set(0x1fe, 0x00);
    cpu.memory.set(0x1ff, 0x42);
    cpu.execute_instruction(&Mos6502Instruction {
        instruction: Mos6502InstructionCode::Rti,
        addressing_mode: AddressingMode::Implicit,
    })
    .unwrap();
    assert_eq!(cpu.registers.pc, 0x4200);
    assert_eq!(cpu.registers.s, 0xff);
    assert!(cpu.registers.p.carry);
}

#[test]
fn it_should_return_from_subroutine() {
    let m = [0u8; AVAILABLE_MEMORY];
    let mut cpu = Mos6502Cpu::new(m);
    cpu.registers.pc = 0x0042;
    cpu.registers.s = 0xfd;
    cpu.memory.set(0x1fe, 0xff);
    cpu.memory.set(0x1ff, 0x41);
    cpu.execute_instruction(&Mos6502Instruction {
        instruction: Mos6502InstructionCode::Rts,
        addressing_mode: AddressingMode::Implicit,
    })
    .unwrap();
    assert_eq!(cpu.registers.pc, 0x4200);
    assert_eq!(cpu.registers.s, 0xff);
}
