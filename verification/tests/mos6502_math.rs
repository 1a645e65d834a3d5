use emulators::instruction::{AddressingMode, Mos6502Instruction, Mos6502InstructionCode};
use emulators::memory::{Memory, AVAILABLE_MEMORY};
use emulators::mos6502cpu::Mos6502Cpu;
#[test]
fn it_should_adc_without_prev_carry_overflow_carry_negative_nor_zero() {
    let m = [0u8; AVAILABLE_MEMORY];
    let mut cpu = Mos6502Cpu::new(m);
    cpu.registers.a = 0x21;
    cpu.registers.p.carry = false;
    cpu.execute_instruction(&Mos6502Instruction {
        instruction: Mos6502InstructionCode::Adc,
        addressing_mode: AddressingMode::Immediate { byte: 0x21 },
    })
    .unwrap();
    assert_eq!(cpu.registers.a, 0x42);
    assert!(!cpu.registers.p.carry);
    assert!(!cpu.registers.p.zero);
    assert!(!cpu.registers.p.overflow);
    assert!(!cpu.registers.p.negative);
}

#[test]
fn it_should_adc_with_prev_carry_without_overflow_carry_negative_nor_zero() {
    let m = [0u8; AVAILABLE_MEMORY];
    let mut cpu = Mos6502Cpu::new(m);
    cpu.registers.a = 0x21;
    cpu.registers.p.carry = true;
    cpu.execute_instruction(&Mos6502Instruction {
        instruction: Mos6502InstructionCode::Adc,
        addressing_mode: AddressingMode::Immediate { byte: 0x21 },
    })
    .unwrap();
    assert_eq!(cpu.registers.a, 0x43);
    assert!(!cpu.registers.p.carry);
    assert!(!cpu.registers.p.zero);
    assert!(!cpu.registers.p.overflow);
    assert!(!cpu.registers.p.negative);
}

#[test]
fn it_should_adc_with_overflow_without_prev_carry_carry_negative_nor_zero() {
    let m = [0u8; AVAILABLE_MEMORY];
    let mut cpu = Mos6502Cpu::new(m);
    cpu.registers.a = 0x42;
    cpu.registers.p.carry = false;
    cpu.execute_instruction(&Mos6502Instruction {
        instruction: Mos6502InstructionCode::Adc,
        addressing_mode: AddressingMode::Immediate { byte: 0x42 },
    })
    .unwrap();
    assert_eq!(cpu.registers.a, 0x84);
    assert!(!cpu.registers.p.carry);
    assert!(!cpu.registers.p.zero);
    assert!(cpu.registers.p.overflow);
    assert!(cpu.registers.p.negative);
}

#[test]
fn it_should_adc_with_prev_carry_overflow_without_carry_negative_nor_zero() {
    let m = [0u8; AVAILABLE_MEMORY];
    let mut cpu = Mos6502Cpu::new(m);
    cpu.registers.a = 0x42;
    cpu.registers.p.carry = true;
    cpu.execute_instruction(&Mos6502Instruction {
        instruction: Mos6502InstructionCode::Adc,
        addressing_mode: AddressingMode::Immediate { byte: 0x42 },
    })
    .unwrap();
    assert_eq!(cpu.registers.a, 0x85);
    assert!(!cpu.registers.p.carry);
    assert!(!cpu.registers.p.zero);
    assert!(cpu.registers.p.overflow);
    assert!(cpu.registers.p.negative);
}

#[test]
fn it_should_adc_with_carry_without_prev_carry_overflow_negative_nor_zero() {
    let m = [0u8; AVAILABLE_MEMORY];
    let mut cpu = Mos6502Cpu::new(m);
    cpu.registers.a = 0x84;
    cpu.registers.p.carry = false;
    cpu.execute_instruction(&Mos6502Instruction {
        instruction: Mos6502InstructionCode::Adc,
        addressing_mode: AddressingMode::Immediate { byte: 0x84 },
    })
    .unwrap();
    assert_eq!(cpu.registers.a, 0x08);
    assert!(cpu.registers.p.carry);
    assert!(!cpu.registers.p.zero);
    assert!(cpu.registers.p.overflow);
    assert!(!cpu.registers.p.negative);
}

#[test]
fn it_should_adc_with_prev_carry_carry_without_overflow_negative_nor_zero() {
    let m = [0u8; AVAILABLE_MEMORY];
    let mut cpu = Mos6502Cpu::new(m);
    cpu.registers.a = 0x84;
    cpu.registers.p.carry = true;
    cpu.execute_instruction(&Mos6502Instruction {
        instruction: Mos6502InstructionCode::Adc,
        addressing_mode: AddressingMode::Immediate { byte: 0x84 },
    })
    .unwrap();
    assert_eq!(cpu.registers.a, 0x09);
    assert!(cpu.registers.p.carry);
    assert!(!cpu.registers.p.zero);
    assert!(cpu.registers.p.overflow);
    assert!(!cpu.registers.p.negative);
}

#[test]
fn it_should_adc_with_zero_without_prev_carry_overflow_carry_nor_negative() {
    let m = [0u8; AVAILABLE_MEMORY];
    let mut cpu = Mos6502Cpu::new(m);
    cpu.registers.a = 0x42;
    cpu.registers.p.carry = false;
    cpu.execute_instruction(&Mos6502Instruction {
        instruction: Mos6502InstructionCode::Adc,
        addressing_mode: AddressingMode::Immediate { byte: 0xbe },
    })
    .unwrap();
    assert_eq!(cpu.registers.a, 0);
    assert!(cpu.registers.p.carry);
    assert!(cpu.registers.p.zero);
    assert!(!cpu.registers.p.overflow);
    assert!(!cpu.registers.p.negative);
}

#[test]
fn it_should_adc_with_prev_carry_zero_without_overflow_carry_nor_negative() {
    let m = [0u8; AVAILABLE_MEMORY];
    let mut cpu = Mos6502Cpu::new(m);
    cpu.registers.a = 0x41;
    cpu.registers.p.carry = true;
    cpu.execute_instruction(&Mos6502Instruction {
        instruction: Mos6502InstructionCode::Adc,
        addressing_mode: AddressingMode::Immediate { byte: 0xbe },
    })
    .unwrap();
    assert_eq!(cpu.registers.a, 0);
    assert!(cpu.registers.p.carry);
    assert!(cpu.registers.p.zero);
    assert!(!cpu.registers.p.overflow);
    assert!(!cpu.registers.p.negative);
}

#[test]
fn it_should_adc_normally_when_decimal_is_disabled() {
    let m = [0u8; AVAILABLE_MEMORY];
    let mut cpu = Mos6502Cpu::without_decimal(m);
    cpu.registers.a = 0x61;
    cpu.registers.p.carry = false;
    cpu.registers.p.decimal = true;
    cpu.execute_instruction(&Mos6502Instruction {
        instruction: Mos6502InstructionCode::Adc,
        addressing_mode: AddressingMode::Immediate { byte: 0xb0 },
    })
    .unwrap();
    assert_eq!(cpu.registers.a, 0x11);
    assert!(cpu.registers.p.carry);
    assert!(!cpu.registers.p.zero);
    assert!(!cpu.registers.p.overflow);
    assert!(!cpu.registers.p.negative);
}

#[test]
fn it_should_set_zero_and_carry_on_cmp_on_same_values_but_not_negative() {
    let m = [0u8; AVAILABLE_MEMORY];
    let mut cpu = Mos6502Cpu::new(m);
    cpu.registers.a = 0x42;
    cpu.execute_instruction(&Mos6502Instruction {
        instruction: Mos6502InstructionCode::Cmp,
        addressing_mode: AddressingMode::Immediate { byte: 0x42 },
    })
    .unwrap();
    assert_eq!(cpu.registers.a, 0x42);
    assert!(cpu.registers.p.zero);
    assert!(cpu.registers.p.carry);
    assert!(!cpu.registers.p.negative);
}

#[test]
fn it_should_set_zero_and_carry_on_cmp_on_with_zeroes_but_not_negative() {
    let m = [0u8; AVAILABLE_MEMORY];
    let mut cpu = Mos6502Cpu::new(m);
    cpu.registers.a = 0x0;
    cpu.execute_instruction(&Mos6502Instruction {
        instruction: Mos6502InstructionCode::Cmp,
        addressing_mode: AddressingMode::Immediate { byte: 0x0 },
    })
    .unwrap();
    assert_eq!(cpu.registers.a, 0x0);
    assert!(cpu.registers.p.zero);
    assert!(cpu.registers.p.carry);
    assert!(!cpu.registers.p.negative);
}

#[test]
fn it_should_set_carry_on_cmp_with_smaller_value() {
    let m = [0u8; AVAILABLE_MEMORY];
    let mut cpu = Mos6502Cpu::new(m);
    cpu.registers.a = 0x42;
    cpu.execute_instruction(&Mos6502Instruction {
        instruction: Mos6502InstructionCode::Cmp,
        addressing_mode: AddressingMode::Immediate { byte: 0x41 },
    })
    .unwrap();
    assert_eq!(cpu.registers.a, 0x42);
    assert!(!cpu.registers.p.zero);
    assert!(cpu.registers.p.carry);
    assert!(!cpu.registers.p.negative);
}

#[test]
fn it_should_set_negative_on_cmp_with_bigger_value() {
    let m = [0u8; AVAILABLE_MEMORY];
    let mut cpu = Mos6502Cpu::new(m);
    cpu.registers.a = 0x42;
    cpu.execute_instruction(&Mos6502Instruction {
        instruction: Mos6502InstructionCode::Cmp,
        addressing_mode: AddressingMode::Immediate { byte: 0x43 },
    })
    .unwrap();
    assert_eq!(cpu.registers.a, 0x42);
    assert!(!cpu.registers.p.zero);
    assert!(!cpu.registers.p.carry);
    assert!(cpu.registers.p.negative);
}

#[test]
fn it_should_set_zero_and_carry_on_cpx_on_same_values_but_not_negative() {
    let m = [0u8; AVAILABLE_MEMORY];
    let mut cpu = Mos6502Cpu::new(m);
    cpu.registers.x = 0x42;
    cpu.execute_instruction(&Mos6502Instruction {
        instruction: Mos6502InstructionCode::Cpx,
        addressing_mode: AddressingMode::Immediate { byte: 0x42 },
    })
    .unwrap();
    assert_eq!(cpu.registers.x, 0x42);
    assert!(cpu.registers.p.zero);
    assert!(cpu.registers.p.carry);
    assert!(!cpu.registers.p.negative);
}

#[test]
fn it_should_set_carry_on_cpx_with_smaller_value() {
    let m = [0u8; AVAILABLE_MEMORY];
    let mut cpu = Mos6502Cpu::new(m);
    cpu.registers.x = 0x42;
    cpu.execute_instruction(&Mos6502Instruction {
        instruction: Mos6502InstructionCode::Cpx,
        addressing_mode: AddressingMode::Immediate { byte: 0x41 },
    })
    .unwrap();
    assert_eq!(cpu.registers.x, 0x42);
    assert!(!cpu.registers.p.zero);
    assert!(cpu.registers.p.carry);
    assert!(!cpu.registers.p.negative);
}

#[test]
fn it_should_set_negative_on_cpx_with_bigger_value() {
    let m = [0u8; AVAILABLE_MEMORY];
    let mut cpu = Mos6502Cpu::new(m);
    cpu.registers.x = 0x42;
    cpu.execute_instruction(&Mos6502Instruction {
        instruction: Mos6502InstructionCode::Cpx,
        addressing_mode: AddressingMode::Immediate { byte: 0x43 },
    })
    .unwrap();
    assert_eq!(cpu.registers.x, 0x42);
    assert!(!cpu.registers.p.zero);
    assert!(!cpu.registers.p.carry);
    assert!(cpu.registers.p.negative);
}

#[test]
fn it_should_set_zero_and_carry_on_cpy_on_same_values_but_not_negative() {
    let m = [0u8; AVAILABLE_MEMORY];
    let mut cpu = Mos6502Cpu::new(m);
    cpu.registers.y = 0x42;
    cpu.execute_instruction(&Mos6502Instruction {
        instruction: Mos6502InstructionCode::Cpy,
        addressing_mode: AddressingMode::Immediate { byte: 0x42 },
    })
    .unwrap();
    assert_eq!(cpu.registers.y, 0x42);
    assert!(cpu.registers.p.zero);
    assert!(cpu.registers.p.carry);
    assert!(!cpu.registers.p.negative);
}

#[test]
fn it_should_set_carry_on_cpy_with_smaller_value() {
    let m = [0u8; AVAILABLE_MEMORY];
    let mut cpu = Mos6502Cpu::new(m);
    cpu.registers.y = 0x42;
    cpu.execute_instruction(&Mos6502Instruction {
        instruction: Mos6502InstructionCode::Cpy,
        addressing_mode: AddressingMode::Immediate { byte: 0x41 },
    })
    .unwrap();
    assert_eq!(cpu.registers.y, 0x42);
    assert!(!cpu.registers.p.zero);
    assert!(cpu.registers.p.carry);
    assert!(!cpu.registers.p.negative);
}

#[test]
fn it_should_set_negative_on_cpy_with_bigger_value() {
    let m = [0u8; AVAILABLE_MEMORY];
    let mut cpu = Mos6502Cpu::new(m);
    cpu.registers.y = 0x42;
    cpu.execute_instruction(&Mos6502Instruction {
        instruction: Mos6502InstructionCode::Cpy,
        addressing_mode: AddressingMode::Immediate { byte: 0x43 },
    })
    .unwrap();
    assert_eq!(cpu.registers.y, 0x42);
    assert!(!cpu.registers.p.zero);
    assert!(!cpu.registers.p.carry);
    assert!(cpu.registers.p.negative);
}

#[test]
fn it_should_subtract_with_carry_set() {
    let m = [0u8; AVAILABLE_MEMORY];
    let mut cpu = Mos6502Cpu::new(m);
    cpu.registers.a = 0x42;
    cpu.registers.p.carry = true;
    cpu.execute_instruction(&Mos6502Instruction {
        instruction: Mos6502InstructionCode::Sbc,
        addressing_mode: AddressingMode::Immediate { byte: 0x01 },
    })
    .unwrap();
    assert_eq!(cpu.registers.a, 0x41);
    assert!(!cpu.registers.p.zero);
    assert!(cpu.registers.p.carry);
    assert!(!cpu.registers.p.negative);
    assert!(!cpu.registers.p.overflow);
}

#[test]
fn it_should_subtract_with_carry_clear() {
    let m = [0u8; AVAILABLE_MEMORY];
    let mut cpu = Mos6502Cpu::new(m);
    cpu.registers.a = 0x42;
    cpu.registers.p.carry = false;
    cpu.execute_instruction(&Mos6502Instruction {
        instruction: Mos6502InstructionCode::Sbc,
        addressing_mode: AddressingMode::Immediate { byte: 0x01 },
    })
    .unwrap();
    assert_eq!(cpu.registers.a, 0x40);
    assert!(!cpu.registers.p.zero);
    assert!(cpu.registers.p.carry);
    assert!(!cpu.registers.p.negative);
    assert!(!cpu.registers.p.overflow);
}

#[test]
fn it_should_subtract_setting_zero() {
    let m = [0u8; AVAILABLE_MEMORY];
    let mut cpu = Mos6502Cpu::new(m);
    cpu.registers.a = 0x42;
    cpu.registers.p.carry = true;
    cpu.execute_instruction(&Mos6502Instruction {
        instruction: Mos6502InstructionCode::Sbc,
        addressing_mode: AddressingMode::Immediate { byte: 0x42 },
    })
    .unwrap();
    assert_eq!(cpu.registers.a, 0x0);
    assert!(cpu.registers.p.zero);
    assert!(cpu.registers.p.carry);
    assert!(!cpu.registers.p.negative);
    assert!(!cpu.registers.p.overflow);
}

#[test]
fn it_should_subtract_setting_carry_and_negative() {
    let m = [0u8; AVAILABLE_MEMORY];
    let mut cpu = Mos6502Cpu::new(m);
    cpu.registers.a = 0xc0;
    cpu.registers.p.carry = true;
    cpu.execute_instruction(&Mos6502Instruction {
        instruction: Mos6502InstructionCode::Sbc,
        addressing_mode: AddressingMode::Immediate { byte: 0x40 },
    })
    .unwrap();
    assert_eq!(cpu.registers.a, 0x80);
    assert!(!cpu.registers.p.zero);
    assert!(cpu.registers.p.carry);
    assert!(cpu.registers.p.negative);
    assert!(!cpu.registers.p.overflow);
}

#[test]
fn it_should_subtract_setting_overflow() {
    let m = [0u8; AVAILABLE_MEMORY];
    let mut cpu = Mos6502Cpu::new(m);
    cpu.registers.a = 0x7f;
    cpu.registers.p.carry = true;
    cpu.execute_instruction(&Mos6502Instruction {
        instruction: Mos6502InstructionCode::Sbc,
        addressing_mode: AddressingMode::Immediate { byte: 0xff },
    })
    .unwrap();
    assert_eq!(cpu.registers.a, 0x80);
    assert!(!cpu.registers.p.zero);
    assert!(!cpu.registers.p.carry);
    assert!(cpu.registers.p.negative);
    assert!(cpu.registers.p.overflow);
}

#[test]
fn it_should_subtract_setting_overflow_on_frontier() {
    let m = [0u8; AVAILABLE_MEMORY];
    let mut cpu = Mos6502Cpu::new(m);
    cpu.registers.a = 0x0;
    cpu.registers.p.carry = true;
    cpu.execute_instruction(&Mos6502Instruction {
        instruction: Mos6502InstructionCode::Sbc,
        addressing_mode: AddressingMode::Immediate { byte: 0x80 },
    })
    .unwrap();
    assert_eq!(cpu.registers.a, 0x80);
    assert!(!cpu.registers.p.zero);
    assert!(!cpu.registers.p.carry);
    assert!(cpu.registers.p.negative);
    assert!(cpu.registers.p.overflow);
}

#[test]
fn it_should_subtract_wrapping_around() {
    let m = [0u8; AVAILABLE_MEMORY];
    let mut cpu = Mos6502Cpu::new(m);
    cpu.registers.a = 0x0;
    cpu.registers.p.carry = false;
    cpu.execute_instruction(&Mos6502Instruction {
        instruction: Mos6502InstructionCode::Sbc,
        addressing_mode: AddressingMode::Immediate { byte: 0x00 },
    })
    .unwrap();
    assert_eq!(cpu.registers.a, 0xff);
    assert!(!cpu.registers.p.zero);
    assert!(!cpu.registers.p.carry);
    assert!(cpu.registers.p.negative);
    assert!(!cpu.registers.p.overflow);
}

#[test]
fn it_should_subtract_without_wrapping_around() {
    let m = [0u8; AVAILABLE_MEMORY];
    let mut cpu = Mos6502Cpu::new(m);
    cpu.registers.a = 0x00;
    cpu.registers.p.carry = false;
    cpu.execute_instruction(&Mos6502Instruction {
        instruction: Mos6502InstructionCode::Sbc,
        addressing_mode: AddressingMode::Immediate { byte: 0x00 },
    })
    .unwrap();
    assert_eq!(cpu.registers.a, 0xff);
    assert!(!cpu.registers.p.zero);
    assert!(!cpu.registers.p.carry);
    assert!(cpu.registers.p.negative);
    assert!(!cpu.registers.p.overflow);
}

#[test]
fn it_should_subtract_doing_nothing() {
    let m = [0u8; AVAILABLE_MEMORY];
    let mut cpu = Mos6502Cpu::new(m);
    cpu.registers.a = 0x00;
    cpu.registers.p.carry = true;
    cpu.execute_instruction(&Mos6502Instruction {
        instruction: Mos6502InstructionCode::Sbc,
        addressing_mode: AddressingMode::Immediate { byte: 0x00 },
    })
    .unwrap();
    assert_eq!(cpu.registers.a, 0x0);
    assert!(cpu.registers.p.zero);
    assert!(cpu.registers.p.carry);
    assert!(!cpu.registers.p.negative);
    assert!(!cpu.registers.p.overflow);
}

#[test]
fn it_should_subtract_normally_when_decimal_is_disabled() {
    let m = [0u8; AVAILABLE_MEMORY];
    let mut cpu = Mos6502Cpu::new(m);
    cpu.registers.a = 0x4F;
    cpu.registers.p.carry = true;
    cpu.registers.p.decimal = true;
    cpu.execute_instruction(&Mos6502Instruction {
        instruction: Mos6502InstructionCode::Sbc,
        addressing_mode: AddressingMode::Immediate { byte: 0x01 },
    })
    .unwrap();
    assert_eq!(cpu.registers.a, 0x4E);
    assert!(!cpu.registers.p.zero);
    assert!(cpu.registers.p.carry);
    assert!(!cpu.registers.p.negative);
    assert!(!cpu.registers.p.overflow);
}
