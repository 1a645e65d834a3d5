pub mod nes;
pub mod nes_memory;
pub mod ppu;
pub mod video_ram;
