use emulators::memory::Memory;
use emulators::nes::nes::Nes;
use emulators::nes::nes_memory::{NesMemory, ROM_SIZE};
use emulators::nes::ppu::{
    AddressRegister, PpuMode, Register2000, Register2001, Register2002, SpriteMode, Ppu,
};
use emulators::nes::video_ram::VideoRam;

#[test]
fn power_up_jumps_to_the_reset_vector() {
    let mut rom = [0u8; ROM_SIZE];
    rom[0x7FFC] = 0x34;
    rom[0x7FFD] = 0x12;
    let mut nes = Nes::new(rom);
    assert!(nes.power_up().is_ok());
    assert_eq!(nes.cpu.registers.pc, 0x1234);
    assert!(nes.cpu.registers.p.interrupt_disable);
    assert_eq!(nes.cpu.registers.s, 0xFC);
    assert_eq!(nes.cpu.memory.get(0x1FF), 0x00);
    assert_eq!(nes.cpu.memory.get(0x1FE), 0x01);
    assert!(!nes.cpu.decimal_enabled);
}

#[test]
fn a_second_power_up_is_ignored_while_interrupts_are_disabled() {
    let mut rom = [0u8; ROM_SIZE];
    rom[0x7FFC] = 0x00;
    rom[0x7FFD] = 0x80;
    let mut nes = Nes::new(rom);
    nes.power_up().unwrap();
    nes.power_up().unwrap();
    assert_eq!(nes.cpu.registers.pc, 0x8000);
    assert_eq!(nes.cpu.registers.s, 0xFC);
}

#[test]
fn ram_writes_are_seen_through_every_mirror() {
    let mut memory = NesMemory::new([0; ROM_SIZE]);
    memory.set(0x1801, 7);
    assert_eq!(memory.get(0x0001), 7);
    assert_eq!(memory.get(0x0801), 7);
    assert_eq!(memory.get(0x1001), 7);
    assert_eq!(memory.get(0x0002), 0);
}

#[test]
fn io_registers_remember_the_previous_value() {
    let mut memory = NesMemory::new([0; ROM_SIZE]);
    memory.set(0x3FFF, 1);
    memory.set(0x2007, 2);
    assert_eq!(memory.io_registers[7].previous, 1);
    assert_eq!(memory.io_registers[7].current, 2);
    memory.set(0x401F, 9);
    assert_eq!(memory.io_registers[0x27].current, 9);
}

#[test]
fn the_whole_expansion_rom_window_is_backed() {
    let mut memory = NesMemory::new([0; ROM_SIZE]);
    memory.set(0x5FFF, 0x99);
    assert_eq!(memory.get(0x5FFF), 0x99);
    assert_eq!(memory.expansion_rom[0x1FDF], 0x99);
}

#[test]
fn writes_into_rom_change_nothing() {
    let mut memory = NesMemory::new([3; ROM_SIZE]);
    memory.set(0xFFFF, 4);
    assert_eq!(memory.get(0xFFFF), 3);
    assert_eq!(memory.len(), 0x10000);
    assert!(!memory.is_empty());
}

#[test]
fn video_ram_repeats_every_0x4000_bytes() {
    let mut vram = VideoRam::new();
    vram.set(0x7F25, 5);
    assert_eq!(vram.get(0x3F05), 5);
    assert_eq!(vram.palettes[5], 5);
    vram.set(0xE123, 6);
    assert_eq!(vram.get(0x2123), 6);
    assert_eq!(vram.get(0x3123), 6);
}

#[test]
fn only_tiles_at_multiples_of_0x1000_have_rows() {
    let mut vram = VideoRam::new();
    vram.pattern_tables[0] = 0x80;
    vram.pattern_tables[8] = 0x80;
    assert_eq!(vram.get_tile(1).len(), 0);
    assert_eq!(vram.get_tile(0xFFFF).len(), 0);
    let tile = vram.get_tile(0x1000);
    assert_eq!(tile.len(), 8);
    assert_eq!(tile[0], vec![3, 0, 0, 0, 0, 0, 0, 0]);
}

#[test]
fn control_register_fields() {
    let register = Register2000 { value: 0b1111_0011 };
    assert_eq!(register.get_name_table(), 3);
    assert_eq!(register.get_memory_read_offset(), 1);
    assert_eq!(register.get_sprite_pattern_table(), 0);
    assert_eq!(register.get_background_pattern_table(), 1);
    assert_eq!(register.get_sprint_mode(), SpriteMode::EightSixteen);
    assert_eq!(register.get_ppu_mode(), PpuMode::Master);
    assert!(register.is_nmi_enabled());
    let register = Register2000 { value: 0b0000_0100 };
    assert_eq!(register.get_memory_read_offset(), 32);
    assert_eq!(register.get_sprint_mode(), SpriteMode::EightEight);
    assert_eq!(register.get_ppu_mode(), PpuMode::Slave);
    assert!(!register.is_nmi_enabled());
}

#[test]
fn mask_and_status_registers() {
    let mask = Register2001 { value: 0x18 };
    assert!(mask.is_background_shown());
    assert!(mask.are_sprites_shown());
    let mut status = Register2002::new();
    status.set_vblank_is_occurring();
    assert_eq!(status.value(), 0x80);
    status.value = 0xF0;
    assert!(status.is_scanline_sprite_count_bigger_than_eight());
    assert!(status.is_there_pixel_overlap());
    status.disable_vram_writes();
    assert_eq!(status.value(), 0xE0);
    status.set_vblank_stopped();
    assert_eq!(status.value(), 0x60);
    status.value = 0x7F;
    status.enable_vram_writes();
    assert_eq!(status.value(), 0x10);
    assert_eq!(AddressRegister::new().value, 0);
}

#[test]
fn ppu_ports_reach_sprite_and_video_memory() {
    let memory = NesMemory::new([0; ROM_SIZE]);
    let mut ppu = Ppu::new();
    assert_eq!(ppu.write(0x2003, 0x10, &memory), Some(0x10));
    assert_eq!(ppu.write(0x2004, 0xAB, &memory), Some(0xAB));
    assert_eq!(ppu.sprite_memory[0x10], 0xAB);
    assert_eq!(ppu.read(0x2004), Some(0xAB));
    ppu.write(0x2006, 0x21, &memory);
    ppu.write(0x2005, 0x08, &memory);
    ppu.write(0x2007, 0x55, &memory);
    assert_eq!(ppu.video_ram.get(0x2108), 0x55);
    assert_eq!(ppu.read(0x2007), Some(0x55));
    assert_eq!(ppu.write(0x2002, 0x01, &memory), Some(0x01));
    assert_eq!(ppu.read(0x2002), Some(0x00));
    assert_eq!(ppu.read(0x2008), None);
    assert_eq!(ppu.write(0x3000, 1, &memory), None);
}

#[test]
fn sprite_dma_copies_a_whole_page() {
    let mut memory = NesMemory::new([0; ROM_SIZE]);
    memory.set(0x0200, 1);
    memory.set(0x02FF, 2);
    let mut ppu = Ppu::new();
    assert_eq!(ppu.write(0x4014, 0x02, &memory), Some(0x02));
    assert_eq!(ppu.register4014.value, 2);
    assert_eq!(ppu.sprite_memory[0], 1);
    assert_eq!(ppu.sprite_memory[255], 2);
    assert_eq!(ppu.read(0x4014), Some(2));
}
