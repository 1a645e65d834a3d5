use vstd::prelude::*;
use crate::memory::{Memory, AVAILABLE_MEMORY};

verus! {

broadcast use vstd::array::group_array_axioms;

/// Size of the cartridge ROM mapped at `0x8000..=0xFFFF`.
pub const ROM_SIZE: usize = 0x8000;

/// A memory-mapped I/O register that remembers the value it held before the
/// last write.
#[derive(Clone, Copy, Debug)]
pub struct IORegister {
    pub previous: u8,
    pub current: u8,
}

impl IORegister {
    /// Stores `new_current`, keeping the value it replaces in `previous`.
    pub fn update(&mut self, new_current: u8)
        ensures
            final(self).previous == old(self).current,
            final(self).current == new_current,
    {
        self.previous = self.current;
        self.current = new_current;
    }
}

/// Index of the I/O register that answers at `index`
/// (`0x2000..0x4000` mirrors its eight registers every eight bytes).
pub open spec fn io_register_index(index: u16) -> int
    recommends
        0x2000 <= index < 0x4020,
{
    if index < 0x4000 {
        (index - 0x2000) % 8
    } else {
        index - 0x4000 + 8
    }
}

/// The lowest address that reaches the same storage as `index`.
pub open spec fn canonical_address(index: u16) -> u16 {
    if index < 0x2000 {
        (index % 0x800) as u16
    } else if index < 0x4000 {
        (0x2000 + (index - 0x2000) % 8) as u16
    } else {
        index
    }
}

/// The CPU address space of the NES: 2 KiB of RAM mirrored up to `0x2000`,
/// the I/O registers, the expansion ROM, the battery-backed SRAM and the
/// read-only cartridge ROM.
pub struct NesMemory {
    pub ram: [u8; 0x800],
    pub io_registers: [IORegister; 0x28],
    /// Backs the whole `0x4020..0x6000` window.
    pub expansion_rom: [u8; 0x1FE0],
    pub sram: [u8; 0x2000],
    pub rom: [u8; ROM_SIZE],
}

impl NesMemory {
    /// The memory of a machine that was just switched on with `rom` inserted.
    pub open spec fn spec_new(rom: [u8; ROM_SIZE]) -> NesMemory {
        NesMemory {
            ram: vstd::array::spec_array_fill_for_copy_type::<u8, 0x800>(0),
            io_registers: vstd::array::spec_array_fill_for_copy_type::<IORegister, 0x28>(
                IORegister { current: 0, previous: 0 },
            ),
            expansion_rom: vstd::array::spec_array_fill_for_copy_type::<u8, 0x1FE0>(0),
            sram: vstd::array::spec_array_fill_for_copy_type::<u8, 0x2000>(0),
            rom,
        }
    }

    pub fn new(rom: [u8; ROM_SIZE]) -> (r: NesMemory)
        ensures
            r == Self::spec_new(rom),
    {
        NesMemory {
            ram: [0; 0x800],
            io_registers: [IORegister { current: 0, previous: 0 }; 0x28],
            expansion_rom: [0; 0x1FE0],
            sram: [0; 0x2000],
            rom,
        }
    }

    fn set_in_ram(&mut self, index: u16, new_value: u8)
        requires
            index < 0x2000,
        ensures
            *final(self) == old(self).spec_set(index, new_value),
    {
        self.ram[index as usize % 0x800] = new_value;
        assert(self.ram =~= vstd::array::spec_array_update(old(self).ram, (index % 0x800) as int, new_value));
    }

    fn set_in_io(&mut self, index: u16, new_value: u8)
        requires
            0x2000 <= index < 0x4020,
        ensures
            *final(self) == old(self).spec_set(index, new_value),
    {
        let slot: usize = if index < 0x4000 {
            let io_index = index - 0x2000;
            io_index as usize % 8
        } else {
            index as usize - 0x4000 + 0x8
        };
        let mut register = self.io_registers[slot];
        register.update(new_value);
        self.io_registers[slot] = register;
        assert(self.io_registers =~= vstd::array::spec_array_update(
            old(self).io_registers,
            io_register_index(index),
            IORegister { previous: old(self).io_registers[io_register_index(index)].current, current: new_value },
        ));
    }

    fn set_in_expansion_rom(&mut self, index: u16, new_value: u8)
        requires
            0x4020 <= index < 0x6000,
        ensures
            *final(self) == old(self).spec_set(index, new_value),
    {
        self.expansion_rom[index as usize - 0x4020] = new_value;
        assert(self.expansion_rom =~= vstd::array::spec_array_update(
            old(self).expansion_rom,
            index - 0x4020,
            new_value,
        ));
    }

    fn set_in_sram(&mut self, index: u16, new_value: u8)
        requires
            0x6000 <= index < 0x8000,
        ensures
            *final(self) == old(self).spec_set(index, new_value),
    {
        self.sram[index as usize - 0x6000] = new_value;
        assert(self.sram =~= vstd::array::spec_array_update(old(self).sram, index - 0x6000, new_value));
    }

    fn get_from_ram(&self, index: u16) -> (r: u8)
        requires
            index < 0x2000,
        ensures
            r == self.spec_get(index),
    {
        self.ram[index as usize % 0x800]
    }

    fn get_from_io(&self, index: u16) -> (r: u8)
        requires
            0x2000 <= index < 0x4020,
        ensures
            r == self.spec_get(index),
    {
        if index < 0x4000 {
            let io_index = index - 0x2000;
            self.io_registers[io_index as usize % 8].current
        } else {
            self.io_registers[index as usize - 0x4000 + 0x8].current
        }
    }

    fn get_from_expansion_rom(&self, index: u16) -> (r: u8)
        requires
            0x4020 <= index < 0x6000,
        ensures
            r == self.spec_get(index),
    {
        self.expansion_rom[index as usize - 0x4020]
    }

    fn get_from_sram(&self, index: u16) -> (r: u8)
        requires
            0x6000 <= index < 0x8000,
        ensures
            r == self.spec_get(index),
    {
        self.sram[index as usize - 0x6000]
    }

    fn get_from_rom(&self, index: u16) -> (r: u8)
        requires
            0x8000 <= index,
        ensures
            r == self.spec_get(index),
    {
        self.rom[index as usize - 0x8000]
    }

    /// The ROM bytes mapped at addresses `from..to`; only the ROM can be
    /// sliced.
    pub fn slice(&self, from: usize, to: usize) -> (r: &[u8])
        requires
            0x8000 <= from <= to <= AVAILABLE_MEMORY,
        ensures
            r@ == self.rom@.subrange(from - 0x8000, to - 0x8000),
    {
        &self.rom[(from - 0x8000)..(to - 0x8000)]
    }
}

impl Memory for NesMemory {
    open spec fn spec_get(&self, index: u16) -> u8 {
        if index < 0x2000 {
            self.ram[(index % 0x800) as int]
        } else if index < 0x4020 {
            self.io_registers[io_register_index(index)].current
        } else if index < 0x6000 {
            self.expansion_rom[index - 0x4020]
        } else if index < 0x8000 {
            self.sram[index - 0x6000]
        } else {
            self.rom[index - 0x8000]
        }
    }

    /// Writes reach RAM, the I/O registers, the expansion ROM and SRAM;
    /// a write into the cartridge ROM is ignored.
    open spec fn spec_set(&self, index: u16, value: u8) -> Self {
        if index < 0x2000 {
            NesMemory { ram: vstd::array::spec_array_update(self.ram, (index % 0x800) as int, value), ..*self }
        } else if index < 0x4020 {
            let slot = io_register_index(index);
            NesMemory {
                io_registers: vstd::array::spec_array_update(
                    self.io_registers,
                    slot,
                    IORegister { previous: self.io_registers[slot].current, current: value },
                ),
                ..*self
            }
        } else if index < 0x6000 {
            NesMemory {
                expansion_rom: vstd::array::spec_array_update(self.expansion_rom, index - 0x4020, value),
                ..*self
            }
        } else if index < 0x8000 {
            NesMemory { sram: vstd::array::spec_array_update(self.sram, index - 0x6000, value), ..*self }
        } else {
            *self
        }
    }

    open spec fn spec_len(&self) -> nat {
        AVAILABLE_MEMORY as nat
    }

    fn set(&mut self, index: u16, new_value: u8) {
        if index < 0x2000 {
            self.set_in_ram(index, new_value);
        } else if index < 0x4020 {
            self.set_in_io(index, new_value);
        } else if index < 0x6000 {
            self.set_in_expansion_rom(index, new_value);
        } else if index < 0x8000 {
            self.set_in_sram(index, new_value);
        }
    }

    fn get(&self, index: u16) -> (r: u8) {
        if index < 0x2000 {
            self.get_from_ram(index)
        } else if index < 0x4020 {
            self.get_from_io(index)
        } else if index < 0x6000 {
            self.get_from_expansion_rom(index)
        } else if index < 0x8000 {
            self.get_from_sram(index)
        } else {
            self.get_from_rom(index)
        }
    }

    fn len(&self) -> (r: usize) {
        AVAILABLE_MEMORY
    }
}

/// Every address reads the same byte as its canonical mirror: RAM repeats
/// every `0x800` bytes below `0x2000`, the PPU registers every eight bytes
/// below `0x4000`.
pub proof fn lemma_nes_memory_mirroring(memory: NesMemory, index: u16)
    ensures
        memory.spec_get(index) == memory.spec_get(canonical_address(index)),
{
}

/// After a write, an address reads the written byte exactly when it shares
/// its storage with the written address (and the write did not target the
/// ROM); every other address keeps its byte.
pub proof fn lemma_nes_memory_read_after_write(memory: NesMemory, index: u16, value: u8, probe: u16)
    ensures
        memory.spec_set(index, value).spec_get(probe) == if index < 0x8000 && canonical_address(index)
            == canonical_address(probe) {
            value
        } else {
            memory.spec_get(probe)
        },
{
}

/// Writing into the cartridge ROM leaves the whole memory unchanged.
pub proof fn lemma_nes_rom_is_read_only(memory: NesMemory, index: u16, value: u8)
    requires
        index >= 0x8000,
    ensures
        memory.spec_set(index, value) == memory,
{
}

} // verus!
