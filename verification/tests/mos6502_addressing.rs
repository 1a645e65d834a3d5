use emulators::instruction::{AddressingMode, Mos6502Instruction, Mos6502InstructionCode};
use emulators::memory::{Memory, AVAILABLE_MEMORY};
use emulators::mos6502cpu::Mos6502Cpu;
#[test]
fn it_should_get_value_from_addressing_mode_for_accumulator() {
    let m = [0u8; AVAILABLE_MEMORY];
    let mut cpu = Mos6502Cpu::new(m);
    cpu.registers.a = 0x42;
    assert_eq!(
        cpu.get_value_from_addressing_mode(&AddressingMode::Accumulator)
            .unwrap(),
        0x42
    );
}

#[test]
fn it_should_get_value_from_addressing_mode_for_immediate() {
    let m = [0u8; AVAILABLE_MEMORY];
    let cpu = Mos6502Cpu::new(m);
    assert_eq!(
        cpu.get_value_from_addressing_mode(&AddressingMode::Immediate { byte: 0x42 })
            .unwrap(),
        0x42
    );
}

#[test]
fn it_should_get_value_from_addressing_mode_for_zero_page() {
    let m = [0u8; AVAILABLE_MEMORY];
    let mut cpu = Mos6502Cpu::new(m);
    cpu.memory.set(0x35, 0x42);
    assert_eq!(
        cpu.get_value_from_addressing_mode(&AddressingMode::ZeroPage { byte: 0x35 })
            .unwrap(),
        0x42
    );
}

#[test]
fn it_should_get_value_from_addressing_mode_for_zero_page_indexed_by_x() {
    let m = [0u8; AVAILABLE_MEMORY];
    let mut cpu = Mos6502Cpu::new(m);
    cpu.memory.set(0x20, 0x42);
    cpu.registers.x = 0x60;
    assert_eq!(
        cpu.get_value_from_addressing_mode(&AddressingMode::ZeroPageIndexedX { byte: 0xC0 })
            .unwrap(),
        0x42
    );
}

#[test]
fn it_should_get_value_from_addressing_mode_for_zero_page_indexed_by_y() {
    let m = [0u8; AVAILABLE_MEMORY];
    let mut cpu = Mos6502Cpu::new(m);
    cpu.memory.set(0x20, 0x42);
    cpu.registers.y = 0x60;
    assert_eq!(
        cpu.get_value_from_addressing_mode(&AddressingMode::ZeroPageIndexedY { byte: 0xC0 })
            .unwrap(),
        0x42
    );
}

#[test]
fn it_should_get_value_from_addressing_mode_for_absolute() {
    let m = [0u8; AVAILABLE_MEMORY];
    let mut cpu = Mos6502Cpu::new(m);
    cpu.memory.set(0x2442, 0x42);
    assert_eq!(
        cpu.get_value_from_addressing_mode(&AddressingMode::Absolute {
            high_byte: 0x24,
            low_byte: 0x42,
        })
        .unwrap(),
        0x42
    );
}

#[test]
fn it_should_get_value_from_addressing_mode_for_absolute_indexed_by_x() {
    let m = [0u8; AVAILABLE_MEMORY];
    let mut cpu = Mos6502Cpu::new(m);
    cpu.memory.set(0x2443, 0x42);
    cpu.registers.x = 1;
    assert_eq!(
        cpu.get_value_from_addressing_mode(&AddressingMode::AbsoluteIndexedX {
            high_byte: 0x24,
            low_byte: 0x42,
        })
        .unwrap(),
        0x42
    );
}

#[test]
fn it_should_get_value_from_addressing_mode_for_absolute_indexed_by_y() {
    let m = [0u8; AVAILABLE_MEMORY];
    let mut cpu = Mos6502Cpu::new(m);
    cpu.memory.set(0x2443, 0x42);
    cpu.registers.y = 1;
    assert_eq!(
        cpu.get_value_from_addressing_mode(&AddressingMode::AbsoluteIndexedY {
            high_byte: 0x24,
            low_byte: 0x42,
        })
        .unwrap(),
        0x42
    );
}

#[test]
fn it_should_get_value_from_addressing_mode_for_indexed_indirect() {
    let m = [0u8; AVAILABLE_MEMORY];
    let mut cpu = Mos6502Cpu::new(m);
    cpu.memory.set(0x24, 0x74);
    cpu.memory.set(0x25, 0x20);
    cpu.memory.set(0x2074, 0x42);
    cpu.registers.x = 0x04;
    assert_eq!(
        cpu.get_value_from_addressing_mode(&AddressingMode::IndexedIndirect { byte: 0x20 })
            .unwrap(),
        0x42
    );
}

#[test]
fn it_should_get_value_from_addressing_mode_for_indirect_indexed() {
    let m = [0u8; AVAILABLE_MEMORY];
    let mut cpu = Mos6502Cpu::new(m);
    cpu.memory.set(0x86, 0x28);
    cpu.memory.set(0x87, 0x40);
    cpu.memory.set(0x4028, 0x42);
    cpu.registers.y = 0x10;
    assert_eq!(
        cpu.get_value_from_addressing_mode(&AddressingMode::IndexedIndirect { byte: 0x86 })
            .unwrap(),
        0x42
    );
}

#[test]
fn it_should_set_value_to_addressing_mode_for_accumulator() {
    let m = [0u8; AVAILABLE_MEMORY];
    let mut cpu = Mos6502Cpu::new(m);
    cpu.registers.a = 0;
    cpu.set_value_to_addressing_mode(&AddressingMode::Accumulator, 0x42)
        .unwrap();
    assert_eq!(cpu.registers.a, 0x42);
}

#[test]
fn it_should_set_value_to_addressing_mode_for_zero_page() {
    let m = [0u8; AVAILABLE_MEMORY];
    let mut cpu = Mos6502Cpu::new(m);
    cpu.set_value_to_addressing_mode(&AddressingMode::ZeroPage { byte: 0x35 }, 0x42)
        .unwrap();
    assert_eq!(cpu.memory.get(0x35), 0x42);
}

#[test]
fn it_should_set_value_to_addressing_mode_for_zero_page_indexed_by_x() {
    let m = [0u8; AVAILABLE_MEMORY];
    let mut cpu = Mos6502Cpu::new(m);
    cpu.registers.x = 0x60;
    cpu.set_value_to_addressing_mode(&AddressingMode::ZeroPageIndexedX { byte: 0xC0 }, 0x42)
        .unwrap();
    assert_eq!(cpu.memory.get(0x20), 0x42);
}

#[test]
fn it_should_set_value_to_addressing_mode_for_zero_page_indexed_by_y() {
    let m = [0u8; AVAILABLE_MEMORY];
    let mut cpu = Mos6502Cpu::new(m);
    cpu.registers.y = 0x60;
    cpu.set_value_to_addressing_mode(&AddressingMode::ZeroPageIndexedY { byte: 0xC0 }, 0x42)
        .unwrap();
    assert_eq!(cpu.memory.get(0x20), 0x42);
}

#[test]
fn it_should_set_value_to_addressing_mode_for_absolute() {
    let m = [0u8; AVAILABLE_MEMORY];
    let mut cpu = Mos6502Cpu::new(m);
    cpu.set_value_to_addressing_mode(
        &AddressingMode::Absolute {
            high_byte: 0x24,
            low_byte: 0x42,
        },
        0x42,
    )
    .unwrap();
    assert_eq!(cpu.memory.get(0x2442), 0x42);
}

#[test]
fn it_should_set_value_to_addressing_mode_for_absolute_indexed_by_x() {
    let m = [0u8; AVAILABLE_MEMORY];
    let mut cpu = Mos6502Cpu::new(m);
    cpu.registers.x = 1;
    cpu.set_value_to_addressing_mode(
        &AddressingMode::AbsoluteIndexedX {
            high_byte: 0x24,
            low_byte: 0x42,
        },
        0x42,
    )
    .unwrap();
    assert_eq!(cpu.memory.get(0x2443), 0x42);
}

#[test]
fn it_should_set_value_to_addressing_mode_for_absolute_indexed_by_y() {
    let m = [0u8; AVAILABLE_MEMORY];
    let mut cpu = Mos6502Cpu::new(m);
    cpu.registers.y = 1;
    cpu.set_value_to_addressing_mode(
        &AddressingMode::AbsoluteIndexedY {
            high_byte: 0x24,
            low_byte: 0x42,
        },
        0x42,
    )
    .unwrap();
    assert_eq!(cpu.memory.get(0x2443), 0x42);
}

#[test]
fn it_should_set_value_to_addressing_mode_for_indexed_indirect() {
    let m = [0u8; AVAILABLE_MEMORY];
    let mut cpu = Mos6502Cpu::new(m);
    cpu.memory.set(0x24, 0x74);
    cpu.memory.set(0x25, 0x20);
    cpu.registers.x = 0x04;
    cpu.set_value_to_addressing_mode(&AddressingMode::IndexedIndirect { byte: 0x20 }, 0x42)
        .unwrap();
    assert_eq!(cpu.memory.get(0x2074), 0x42);
}

#[test]
fn it_should_set_value_to_addressing_mode_for_indirect_indexed() {
    let m = [0u8; AVAILABLE_MEMORY];
    let mut cpu = Mos6502Cpu::new(m);
    cpu.memory.set(0x86, 0x28);
    cpu.memory.set(0x87, 0x40);
    cpu.registers.y = 0x10;
    cpu.set_value_to_addressing_mode(&AddressingMode::IndexedIndirect { byte: 0x86 }, 0x42)
        .unwrap();
    assert_eq!(cpu.memory.get(0x4028), 0x42);
}

#[test]
fn it_should_get_address_from_addressing_mode_for_absolute() {
    let m = [0u8; AVAILABLE_MEMORY];
    let cpu = Mos6502Cpu::new(m);
    let address = cpu
        .get_address_from_addressing_mode(&AddressingMode::Absolute {
            high_byte: 0x42,
            low_byte: 0x24,
        })
        .unwrap();
    assert_eq!(address, 0x4224);
}

#[test]
fn it_should_get_address_from_addressing_mode_for_indirect() {
    let m = [0u8; AVAILABLE_MEMORY];
    let mut cpu = Mos6502Cpu::new(m);
    cpu.memory.set(0x0120, 0xFC);
    cpu.memory.set(0x0121, 0xBA);
    let address = cpu
        .get_address_from_addressing_mode(&AddressingMode::Indirect {
            high_byte: 0x01,
            low_byte: 0x20,
        })
        .unwrap();
    assert_eq!(address, 0xBAFC);
}

#[test]
fn it_should_get_address_from_addressing_mode_for_zero_page() {
    let m = [0u8; AVAILABLE_MEMORY];
    let cpu = Mos6502Cpu::new(m);
    let address = cpu
        .get_address_from_addressing_mode(&AddressingMode::ZeroPage { byte: 0x42 })
        .unwrap();
    assert_eq!(address, 0x42);
}

#[test]
fn it_should_get_address_from_addressing_mode_for_zero_page_indexed_by_x() {
    let m = [0u8; AVAILABLE_MEMORY];
    let mut cpu = Mos6502Cpu::new(m);
    cpu.registers.x = 0x80;
    let address = cpu
        .get_address_from_addressing_mode(&AddressingMode::ZeroPageIndexedX { byte: 0xff })
        .unwrap();
    assert_eq!(address, 0x7f);
}

#[test]
fn it_should_get_address_from_addressing_mode_for_absolute_indexed_by_x() {
    let m = [0u8; AVAILABLE_MEMORY];
    let mut cpu = Mos6502Cpu::new(m);
    cpu.registers.x = 0x80;
    let address = cpu
        .get_address_from_addressing_mode(&AddressingMode::AbsoluteIndexedX {
            low_byte: 0xff,
            high_byte: 0x00,
        })
        .unwrap();
    assert_eq!(address, 0x17f);
}

#[test]
fn it_should_get_address_from_addressing_mode_for_absolute_indexed_by_y() {
    let m = [0u8; AVAILABLE_MEMORY];
    let mut cpu = Mos6502Cpu::new(m);
    cpu.registers.y = 0x80;
    let address = cpu
        .get_address_from_addressing_mode(&AddressingMode::AbsoluteIndexedY {
            low_byte: 0xff,
            high_byte: 0x00,
        })
        .unwrap();
    assert_eq!(address, 0x17f);
}

#[test]
fn it_should_get_address_from_addressing_mode_for_indexed_indirect() {
    let m = [0u8; AVAILABLE_MEMORY];
    let mut cpu = Mos6502Cpu::new(m);
    cpu.memory.set(0x24, 0x74);
    cpu.memory.set(0x25, 0x20);
    cpu.registers.x = 0x04;
    let address = cpu
        .get_address_from_addressing_mode(&AddressingMode::IndexedIndirect { byte: 0x20 })
        .unwrap();
    assert_eq!(address, 0x2074);
}

#[test]
fn it_should_get_address_from_addressing_mode_for_indirect_indexed() {
    let m = [0u8; AVAILABLE_MEMORY];
    let mut cpu = Mos6502Cpu::new(m);
    cpu.memory.set(0x86, 0x28);
    cpu.memory.set(0x87, 0x40);
    cpu.registers.y = 0x10;
    let address = cpu
        .get_address_from_addressing_mode(&AddressingMode::IndexedIndirect { byte: 0x86 })
        .unwrap();
    assert_eq!(address, 0x4028);
}
