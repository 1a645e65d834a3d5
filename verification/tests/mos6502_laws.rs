use emulators::instruction::{AddressingMode, Mos6502Instruction, Mos6502InstructionCode};
use emulators::memory::{Memory, AVAILABLE_MEMORY};
use emulators::mos6502cpu::{Mos6502Cpu, ProcessorStatus};

fn run(cpu: &mut Mos6502Cpu<[u8; AVAILABLE_MEMORY]>, instruction: Mos6502InstructionCode, mode: AddressingMode) {
    cpu.execute_instruction(&Mos6502Instruction { instruction, addressing_mode: mode }).unwrap();
}

#[test]
fn decimal_adc_adds_bcd_numbers() {
    let mut cpu = Mos6502Cpu::new([0u8; AVAILABLE_MEMORY]);
    cpu.registers.p.decimal = true;
    cpu.registers.a = 0x58;
    cpu.registers.p.carry = true;
    run(&mut cpu, Mos6502InstructionCode::Adc, AddressingMode::Immediate { byte: 0x46 });
    assert_eq!(cpu.registers.a, 0x05);
    assert!(cpu.registers.p.carry);
    cpu.registers.a = 0x12;
    cpu.registers.p.carry = false;
    run(&mut cpu, Mos6502InstructionCode::Adc, AddressingMode::Immediate { byte: 0x34 });
    assert_eq!(cpu.registers.a, 0x46);
    assert!(!cpu.registers.p.carry);
}

#[test]
fn decimal_sbc_subtracts_bcd_numbers() {
    let mut cpu = Mos6502Cpu::new([0u8; AVAILABLE_MEMORY]);
    cpu.registers.p.decimal = true;
    cpu.registers.a = 0x21;
    cpu.registers.p.carry = true;
    run(&mut cpu, Mos6502InstructionCode::Sbc, AddressingMode::Immediate { byte: 0x34 });
    assert_eq!(cpu.registers.a, 0x87);
    assert!(!cpu.registers.p.carry);
}

#[test]
fn without_decimal_mode_adc_stays_binary() {
    let mut cpu = Mos6502Cpu::without_decimal([0u8; AVAILABLE_MEMORY]);
    cpu.registers.p.decimal = true;
    cpu.registers.a = 0x58;
    run(&mut cpu, Mos6502InstructionCode::Adc, AddressingMode::Immediate { byte: 0x46 });
    assert_eq!(cpu.registers.a, 0x9e);
}

#[test]
fn php_then_plp_restores_the_flags_but_break() {
    let mut cpu = Mos6502Cpu::new([0u8; AVAILABLE_MEMORY]);
    cpu.registers.p = ProcessorStatus::from_byte(0xCB);
    cpu.registers.p.break_flag = true;
    let before = cpu.registers.p;
    run(&mut cpu, Mos6502InstructionCode::Php, AddressingMode::Implicit);
    cpu.registers.p = ProcessorStatus::new();
    run(&mut cpu, Mos6502InstructionCode::Plp, AddressingMode::Implicit);
    assert_eq!(cpu.registers.p, ProcessorStatus { break_flag: false, ..before });
    assert_eq!(cpu.registers.s, 0xff);
}

#[test]
fn pha_then_pla_gives_the_byte_back() {
    let mut cpu = Mos6502Cpu::new([0u8; AVAILABLE_MEMORY]);
    cpu.registers.a = 0x99;
    run(&mut cpu, Mos6502InstructionCode::Pha, AddressingMode::Implicit);
    assert_eq!(cpu.memory.get(0x1ff), 0x99);
    cpu.registers.a = 0;
    run(&mut cpu, Mos6502InstructionCode::Pla, AddressingMode::Implicit);
    assert_eq!(cpu.registers.a, 0x99);
    assert_eq!(cpu.registers.s, 0xff);
}

#[test]
fn can_step_refuses_overflowing_addresses() {
    let mut memory = [0u8; AVAILABLE_MEMORY];
    // LDA $FFFF,X with X = 1 would compute address 0x10000.
    memory[0] = 0xBD;
    memory[1] = 0xFF;
    memory[2] = 0xFF;
    let mut cpu = Mos6502Cpu::new(memory);
    cpu.registers.x = 1;
    assert!(!cpu.can_step());
    cpu.registers.x = 0;
    assert!(cpu.can_step());
    assert!(cpu.execute().is_ok());
    assert_eq!(cpu.registers.pc, 3);
}

#[test]
fn can_step_refuses_an_instruction_cut_by_the_end_of_memory() {
    let mut memory = [0u8; AVAILABLE_MEMORY];
    memory[0xFFFF] = 0xAD;
    let mut cpu = Mos6502Cpu::new(memory);
    cpu.registers.pc = 0xFFFF;
    assert!(!cpu.can_step());
}

#[test]
fn instructions_print_in_assembler_syntax() {
    let instruction = Mos6502Instruction::new(
        Mos6502InstructionCode::Lda,
        AddressingMode::AbsoluteIndexedX { high_byte: 0x12, low_byte: 0xab },
    );
    assert_eq!(instruction.to_string(), "LDA $12ab,x");
    let instruction = Mos6502Instruction::new(Mos6502InstructionCode::Rts, AddressingMode::Implicit);
    assert_eq!(instruction.to_string(), "RTS ");
    assert_eq!(AddressingMode::IndirectIndexed { byte: 0x0f }.to_string(), "($0f),y");
    assert_eq!(AddressingMode::Immediate { byte: 0xff }.to_string(), "#ff");
}

#[test]
fn rts_after_jsr_returns_past_the_call() {
    let mut cpu = Mos6502Cpu::new([0u8; AVAILABLE_MEMORY]);
    cpu.registers.pc = 0x1236;
    cpu.registers.s = 0x80;
    run(&mut cpu, Mos6502InstructionCode::Jsr, AddressingMode::Absolute { high_byte: 0x40, low_byte: 0x00 });
    assert_eq!(cpu.registers.pc, 0x4000);
    assert_eq!(cpu.registers.s, 0x7e);
    run(&mut cpu, Mos6502InstructionCode::Rts, AddressingMode::Implicit);
    assert_eq!(cpu.registers.pc, 0x1236);
    assert_eq!(cpu.registers.s, 0x80);
}

#[test]
fn decoded_size_counts_the_operand_bytes() {
    for opcode in 0u16..=255 {
        let instruction = Mos6502Instruction::from(vec![opcode as u8, 0x10, 0x20]);
        if instruction.instruction == Mos6502InstructionCode::Nop {
            continue;
        }
        let operands = match instruction.addressing_mode {
            AddressingMode::Implicit | AddressingMode::Accumulator => 0,
            AddressingMode::Absolute { .. }
            | AddressingMode::Indirect { .. }
            | AddressingMode::AbsoluteIndexedX { .. }
            | AddressingMode::AbsoluteIndexedY { .. } => 2,
            _ => 1,
        };
        assert_eq!(instruction.size(), Ok(1 + operands), "opcode {:#04x}", opcode);
    }
}

#[test]
fn reading_a_mode_gives_back_what_was_stored_through_it() {
    let mut cpu = Mos6502Cpu::new([0u8; AVAILABLE_MEMORY]);
    cpu.registers.x = 3;
    cpu.registers.y = 5;
    cpu.memory.set(0x13, 0x00);
    cpu.memory.set(0x14, 0x20);
    cpu.memory.set(0x40, 0x34);
    cpu.memory.set(0x41, 0x12);
    let modes = [
        AddressingMode::Accumulator,
        AddressingMode::ZeroPage { byte: 0x80 },
        AddressingMode::ZeroPageIndexedX { byte: 0xFE },
        AddressingMode::ZeroPageIndexedY { byte: 0x90 },
        AddressingMode::Absolute { high_byte: 0x30, low_byte: 0x00 },
        AddressingMode::AbsoluteIndexedX { high_byte: 0x30, low_byte: 0x10 },
        AddressingMode::AbsoluteIndexedY { high_byte: 0x30, low_byte: 0x20 },
        AddressingMode::IndexedIndirect { byte: 0x10 },
        AddressingMode::IndirectIndexed { byte: 0x40 },
    ];
    for (i, mode) in modes.iter().enumerate() {
        let value = 0xA0 + i as u8;
        cpu.set_value_to_addressing_mode(mode, value).unwrap();
        assert_eq!(cpu.get_value_from_addressing_mode(mode).unwrap(), value, "{:?}", mode);
    }
    assert_eq!(cpu.memory.get(0x2000), 0xA7);
    assert_eq!(cpu.memory.get(0x1239), 0xA8);
}
