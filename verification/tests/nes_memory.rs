use emulators::memory::Memory;
use emulators::nes::nes_memory::{NesMemory, ROM_SIZE};

#[test]
fn it_should_set_in_ram() {
    let mut memory = NesMemory::new([0; ROM_SIZE]);
    memory.set(0x0, 0x42);
    assert_eq!(memory.ram[0x0], 0x42);
}

#[test]
fn it_should_set_in_ram_mirroring() {
    let mut memory = NesMemory::new([0; ROM_SIZE]);
    memory.set(0x800, 0x42);
    assert_eq!(memory.ram[0x0], 0x42);
}

#[test]
fn it_should_set_in_io_registers() {
    let mut memory = NesMemory::new([0; ROM_SIZE]);
    memory.set(0x2000, 0x42);
    assert_eq!(memory.io_registers[0x0].current, 0x42);
    memory.set(0x4001, 0x42);
    assert_eq!(memory.io_registers[0x9].current, 0x42);
}

#[test]
fn it_should_set_in_io_registers_mirroring() {
    let mut memory = NesMemory::new([0; ROM_SIZE]);
    memory.set(0x2008, 0x42);
    assert_eq!(memory.io_registers[0x0].current, 0x42);
}

#[test]
fn it_should_set_in_expansion_rom() {
    let mut memory = NesMemory::new([0; ROM_SIZE]);
    memory.set(0x4020, 0x42);
    assert_eq!(memory.expansion_rom[0x0], 0x42);
}

#[test]
fn it_should_set_in_sram() {
    let mut memory = NesMemory::new([0; ROM_SIZE]);
    memory.set(0x6000, 0x42);
    assert_eq!(memory.sram[0x0], 0x42);
}

#[test]
fn it_shouldnt_set_in_rom() {
    let mut memory = NesMemory::new([0; ROM_SIZE]);
    memory.set(0x8000, 0x42);
    assert_eq!(memory.sram[0x0], 0x0);
}

#[test]
fn it_should_get_from_ram() {
    let mut memory = NesMemory::new([0; ROM_SIZE]);
    memory.ram[0x0] = 0x42;
    assert_eq!(memory.get(0), 0x42);
}

#[test]
fn it_should_get_from_ram_with_mirroring() {
    let mut memory = NesMemory::new([0; ROM_SIZE]);
    memory.ram[0x0] = 0x42;
    assert_eq!(memory.get(0), 0x42);
    assert_eq!(memory.get(0x0800), 0x42);
    assert_eq!(memory.get(0x1000), 0x42);
    assert_eq!(memory.get(0x1800), 0x42);
}

#[test]
fn it_should_get_from_io_registers() {
    let mut memory = NesMemory::new([0; ROM_SIZE]);
    memory.io_registers[0x0].update(0x42);
    assert_eq!(memory.get(0x2000), 0x42);
    memory.io_registers[0x9].update(0x42);
    assert_eq!(memory.get(0x4001), 0x42);
}

#[test]
fn it_should_get_from_io_registers_mirroring() {
    let mut memory = NesMemory::new([0; ROM_SIZE]);
    memory.io_registers[0x0].update(0x42);
    assert_eq!(memory.get(0x2000), 0x42);
    assert_eq!(memory.get(0x2008), 0x42);
    assert_eq!(memory.get(0x2010), 0x42);
}

#[test]
fn it_should_get_from_expansion_rom() {
    let mut memory = NesMemory::new([0; ROM_SIZE]);
    memory.expansion_rom[0x0] = 0x42;
    assert_eq!(memory.get(0x4020), 0x42);
}

#[test]
fn it_should_get_from_sram() {
    let mut memory = NesMemory::new([0; ROM_SIZE]);
    memory.sram[0x0] = 0x42;
    assert_eq!(memory.get(0x6000), 0x42);
}

#[test]
fn it_should_get_from_rom() {
    let memory = NesMemory::new([0x42; ROM_SIZE]);
    assert_eq!(memory.get(0x8000), 0x42);
}

#[test]
fn it_should_slice_from_rom() {
    let memory = NesMemory::new([1; ROM_SIZE]);
    assert_eq!(memory.slice(0x8000, 0x8002), &vec![1, 1][..]);
}
