use vstd::prelude::*;
use crate::bit_utils::{spec_word, two_bytes_to_word};
use crate::memory::Memory;
use crate::nes::video_ram::VideoRam;

verus! {

broadcast use vstd::array::group_array_axioms;

/// Height of the sprites the PPU draws.
#[derive(Clone, Copy, Debug, PartialEq, Eq, Structural)]
pub enum SpriteMode {
    EightEight,
    EightSixteen,
}

/// Whether the PPU drives or follows the external colour bus.
#[derive(Clone, Copy, Debug, PartialEq, Eq, Structural)]
pub enum PpuMode {
    Master,
    Slave,
}

/// Whether bit `n` of `value` is set.
pub open spec fn bit_is_set(value: u8, n: nat) -> bool {
    (value as int / vstd::arithmetic::power2::pow2(n) as int) % 2 == 1
}

/// The bit facts the register accessors rely on.
proof fn lemma_register_bits(x: u8)
    by (bit_vector)
    ensures
        (x & 0x03) == x % 4,
        ((x & 0x04) > 0) == ((x / 4) % 2 == 1),
        ((x & 0x08) >> 3) == (x / 8) % 2,
        ((x & 0x08) > 0) == ((x / 8) % 2 == 1),
        ((x & 0x10) >> 4) == (x / 16) % 2,
        ((x & 0x10) > 0) == ((x / 16) % 2 == 1),
        ((x & 0x20) > 0) == ((x / 32) % 2 == 1),
        ((x & 0x40) > 0) == ((x / 64) % 2 == 1),
        ((x & 0x80) > 0) == (x >= 128),
        (x & 0x10) == 16 * ((x / 16) % 2),
        (x & !0x10u8) == x - 16 * ((x / 16) % 2),
        (x | 0x80) == if x >= 128 { x as int } else { x + 128 },
        (x & !0x80u8) == x % 128,
{
}

proof fn lemma_pow2_small()
    ensures
        vstd::arithmetic::power2::pow2(2) == 4,
        vstd::arithmetic::power2::pow2(3) == 8,
        vstd::arithmetic::power2::pow2(4) == 16,
        vstd::arithmetic::power2::pow2(5) == 32,
        vstd::arithmetic::power2::pow2(6) == 64,
        vstd::arithmetic::power2::pow2(7) == 128,
{
    vstd::arithmetic::power2::lemma2_to64();
}

/// PPU control register (`0x2000`).
pub struct Register2000 {
    pub value: u8,
}

impl Register2000 {
    pub fn new() -> (r: Register2000)
        ensures
            r.value == 0,
    {
        Register2000 { value: 0 }
    }

    /// Which of the four name tables is displayed (bits 0 and 1).
    pub fn get_name_table(&self) -> (r: u8)
        ensures
            r == self.value % 4,
    {
        proof {
            lemma_register_bits(self.value);
        }
        self.value & 0x03
    }

    /// How far the video address moves after each access: 32 (one row
    /// down) when bit 2 is set, else 1.
    pub fn get_memory_read_offset(&self) -> (r: u8)
        ensures
            r == if bit_is_set(self.value, 2) { 32u8 } else { 1u8 },
    {
        proof {
            lemma_register_bits(self.value);
            lemma_pow2_small();
        }
        if (self.value & 0x04) > 0 {
            32
        } else {
            1
        }
    }

    /// The pattern table of the sprites (bit 3).
    pub fn get_sprite_pattern_table(&self) -> (r: u8)
        ensures
            r == (self.value / 8) % 2,
    {
        proof {
            lemma_register_bits(self.value);
        }
        (self.value & 0x08) >> 3
    }

    /// The pattern table of the background (bit 4).
    pub fn get_background_pattern_table(&self) -> (r: u8)
        ensures
            r == (self.value / 16) % 2,
    {
        proof {
            lemma_register_bits(self.value);
        }
        (self.value & 0x10) >> 4
    }

    /// Sprites are 8x16 when bit 5 is set, else 8x8.
    pub fn get_sprint_mode(&self) -> (r: SpriteMode)
        ensures
            r == if bit_is_set(self.value, 5) { SpriteMode::EightSixteen } else { SpriteMode::EightEight },
    {
        proof {
            lemma_register_bits(self.value);
            lemma_pow2_small();
        }
        if (self.value & 0x20) > 0 {
            SpriteMode::EightSixteen
        } else {
            SpriteMode::EightEight
        }
    }

    /// The PPU is master when bit 6 is set, else slave.
    pub fn get_ppu_mode(&self) -> (r: PpuMode)
        ensures
            r == if bit_is_set(self.value, 6) { PpuMode::Master } else { PpuMode::Slave },
    {
        proof {
            lemma_register_bits(self.value);
            lemma_pow2_small();
        }
        if (self.value & 0x40) > 0 {
            PpuMode::Master
        } else {
            PpuMode::Slave
        }
    }

    /// A non-maskable interrupt is raised on vertical blank when bit 7 is
    /// set.
    pub fn is_nmi_enabled(&self) -> (r: bool)
        ensures
            r == bit_is_set(self.value, 7),
    {
        proof {
            lemma_register_bits(self.value);
            lemma_pow2_small();
        }
        (self.value & 0x80) > 0
    }
}

/// PPU mask register (`0x2001`).
pub struct Register2001 {
    pub value: u8,
}

impl Register2001 {
    pub fn new() -> (r: Register2001)
        ensures
            r.value == 0,
    {
        Register2001 { value: 0 }
    }

    /// The background is drawn when bit 3 is set.
    pub fn is_background_shown(&self) -> (r: bool)
        ensures
            r == bit_is_set(self.value, 3),
    {
        proof {
            lemma_register_bits(self.value);
            lemma_pow2_small();
        }
        (self.value & 0x08) > 0
    }

    /// Sprites are drawn when bit 4 is set.
    pub fn are_sprites_shown(&self) -> (r: bool)
        ensures
            r == bit_is_set(self.value, 4),
    {
        proof {
            lemma_register_bits(self.value);
            lemma_pow2_small();
        }
        (self.value & 0x10) > 0
    }
}

/// PPU status register (`0x2002`).
pub struct Register2002 {
    pub value: u8,
}

impl Register2002 {
    pub fn new() -> (r: Register2002)
        ensures
            r.value == 0,
    {
        Register2002 { value: 0 }
    }

    /// Keeps bit 4 of the status and clears every other bit.
    pub fn enable_vram_writes(&mut self)
        ensures
            final(self).value == if bit_is_set(old(self).value, 4) { 16u8 } else { 0u8 },
    {
        proof {
            lemma_register_bits(self.value);
            lemma_pow2_small();
        }
        self.value = self.value & 0x10;
    }

    /// Clears bit 4 of the status.
    pub fn disable_vram_writes(&mut self)
        ensures
            final(self).value == old(self).value - if bit_is_set(old(self).value, 4) { 16int } else { 0 },
    {
        proof {
            lemma_register_bits(self.value);
            lemma_pow2_small();
        }
        self.value = self.value & !0x10;
    }

    /// More than eight sprites share a scanline when bit 5 is set.
    pub fn is_scanline_sprite_count_bigger_than_eight(&self) -> (r: bool)
        ensures
            r == bit_is_set(self.value, 5),
    {
        proof {
            lemma_register_bits(self.value);
            lemma_pow2_small();
        }
        (self.value & 0x20) > 0
    }

    /// Sprite 0 overlapped the background when bit 6 is set.
    pub fn is_there_pixel_overlap(&self) -> (r: bool)
        ensures
            r == bit_is_set(self.value, 6),
    {
        proof {
            lemma_register_bits(self.value);
            lemma_pow2_small();
        }
        (self.value & 0x40) > 0
    }

    /// Sets bit 7: a vertical blank is in progress.
    pub fn set_vblank_is_occurring(&mut self)
        ensures
            final(self).value == if old(self).value >= 128 { old(self).value as int } else { old(self).value + 128 },
    {
        proof {
            lemma_register_bits(self.value);
        }
        self.value = self.value | 0x80;
    }

    /// Clears bit 7: the vertical blank is over.
    pub fn set_vblank_stopped(&mut self)
        ensures
            final(self).value == old(self).value % 128,
    {
        proof {
            lemma_register_bits(self.value);
        }
        self.value = self.value & !0x80;
    }

    pub fn value(&self) -> (r: u8)
        ensures
            r == self.value,
    {
        self.value
    }
}

/// One of the byte-wide address registers (`0x2003`, `0x2005`, `0x2006`).
pub struct AddressRegister {
    pub value: u8,
}

impl AddressRegister {
    pub fn new() -> (r: AddressRegister)
        ensures
            r.value == 0,
    {
        AddressRegister { value: 0 }
    }
}

/// Sprite DMA register (`0x4014`).
pub struct Register4014 {
    pub value: u8,
}

impl Register4014 {
    pub fn new() -> (r: Register4014)
        ensures
            r.value == 0,
    {
        Register4014 { value: 0 }
    }
}

/// The picture processing unit: its registers, its sprite memory and the
/// video memory it draws from.
pub struct Ppu {
    pub register2000: Register2000,
    pub register2001: Register2001,
    pub register2002: Register2002,
    pub register2003: AddressRegister,
    pub register2005: AddressRegister,
    pub register2006: AddressRegister,
    pub register4014: Register4014,
    pub sprite_memory: [u8; 256],
    pub video_ram: VideoRam,
}

/// The sprite memory after a DMA transfer of the 256 bytes that start at
/// `start` in `memory` (addresses wrap around at `0xFFFF`).
pub open spec fn dma_copy<M: Memory>(memory: M, start: u16) -> Seq<u8> {
    Seq::new(256, |i: int| memory.spec_get(((start + i) % 0x10000) as u16))
}

impl Ppu {
    pub open spec fn is_fresh(self) -> bool {
        &&& self.register2000.value == 0
        &&& self.register2001.value == 0
        &&& self.register2002.value == 0
        &&& self.register2003.value == 0
        &&& self.register2005.value == 0
        &&& self.register2006.value == 0
        &&& self.register4014.value == 0
        &&& forall|i: int| 0 <= i < 256 ==> self.sprite_memory[i] == 0
        &&& self.video_ram == VideoRam::spec_new()
    }

    /// A powered-up PPU: every register and every memory cell holds zero.
    pub fn new() -> (r: Ppu)
        ensures
            r.is_fresh(),
    {
        Ppu {
            register2000: Register2000::new(),
            register2001: Register2001::new(),
            register2002: Register2002::new(),
            register2003: AddressRegister::new(),
            register2005: AddressRegister::new(),
            register2006: AddressRegister::new(),
            register4014: Register4014::new(),
            sprite_memory: [0; 256],
            video_ram: VideoRam::new(),
        }
    }

    /// The sprite memory cell that `0x2004` reaches: the one `0x2003` holds.
    fn sprite_address(&self) -> (r: u8)
        ensures
            r == self.register2003.value,
    {
        self.register2003.value
    }

    /// The video memory address that `0x2007` reaches: `0x2006` gives its
    /// high byte and `0x2005` its low byte.
    fn video_address(&self) -> (r: u16)
        ensures
            r == spec_word(self.register2006.value, self.register2005.value),
    {
        let low_byte = self.register2005.value;
        let high_byte = self.register2006.value;
        two_bytes_to_word(high_byte, low_byte)
    }

    /// The byte a read of the CPU address `port` gets from the PPU, or
    /// `None` where no PPU register answers.
    pub open spec fn spec_read(&self, port: u16) -> Option<u8> {
        if port == 0x2000 {
            Some(self.register2000.value)
        } else if port == 0x2001 {
            Some(self.register2001.value)
        } else if port == 0x2002 {
            Some(self.register2002.value)
        } else if port == 0x2003 {
            Some(self.register2003.value)
        } else if port == 0x2004 {
            Some(self.sprite_memory[self.register2003.value as int])
        } else if port == 0x2005 {
            Some(self.register2005.value)
        } else if port == 0x2006 {
            Some(self.register2006.value)
        } else if port == 0x2007 {
            Some(self.video_ram.spec_get(spec_word(self.register2006.value, self.register2005.value)))
        } else if port == 0x4014 {
            Some(self.register4014.value)
        } else {
            None
        }
    }

    pub fn read(&self, port: u16) -> (r: Option<u8>)
        ensures
            r == self.spec_read(port),
    {
        if port == 0x2000 {
            Some(self.register2000.value)
        } else if port == 0x2001 {
            Some(self.register2001.value)
        } else if port == 0x2002 {
            Some(self.register2002.value())
        } else if port == 0x2003 {
            Some(self.register2003.value)
        } else if port == 0x2004 {
            let address = self.sprite_address();
            Some(self.sprite_memory[address as usize])
        } else if port == 0x2005 {
            Some(self.register2005.value)
        } else if port == 0x2006 {
            Some(self.register2006.value)
        } else if port == 0x2007 {
            let address = self.video_address();
            Some(self.video_ram.get(address))
        } else if port == 0x4014 {
            Some(self.register4014.value)
        } else {
            None
        }
    }

    /// Copies the 256 bytes of `memory` that start at `starting_address`
    /// into the sprite memory.
    fn save_to_sprite_memory<M: Memory>(&mut self, starting_address: u16, memory: &M)
        ensures
            final(self).sprite_memory@ == dma_copy(*memory, starting_address),
            *final(self) == (Ppu { sprite_memory: final(self).sprite_memory, ..*old(self) }),
    {
        let mut i: usize = 0;
        while i < 256
            invariant
                i <= 256,
                *self == (Ppu { sprite_memory: self.sprite_memory, ..*old(self) }),
                forall|k: int|
                    0 <= k < i ==> #[trigger] self.sprite_memory[k] == dma_copy(*memory, starting_address)[k],
            decreases 256 - i,
        {
            let ram_index = starting_address.wrapping_add(i as u16);
            let value = memory.get(ram_index);
            self.sprite_memory[i] = value;
            i = i + 1;
        }
        assert(self.sprite_memory@ =~= dma_copy(*memory, starting_address));
    }

    /// What a write of `value` at the CPU address `port` does to the PPU:
    /// the registers store it (`0x2002` ignores it), `0x2004` stores it in
    /// sprite memory, `0x2007` in video memory, and `0x4014` also copies page
    /// `value` of `memory` into sprite memory.
    pub open spec fn spec_write<M: Memory>(self, port: u16, value: u8, memory: M) -> Ppu {
        if port == 0x2000 {
            Ppu { register2000: Register2000 { value }, ..self }
        } else if port == 0x2001 {
            Ppu { register2001: Register2001 { value }, ..self }
        } else if port == 0x2003 {
            Ppu { register2003: AddressRegister { value }, ..self }
        } else if port == 0x2004 {
            Ppu {
                sprite_memory: vstd::array::spec_array_update(
                    self.sprite_memory,
                    self.register2003.value as int,
                    value,
                ),
                ..self
            }
        } else if port == 0x2005 {
            Ppu { register2005: AddressRegister { value }, ..self }
        } else if port == 0x2006 {
            Ppu { register2006: AddressRegister { value }, ..self }
        } else if port == 0x2007 {
            Ppu {
                video_ram: self.video_ram.spec_set(
                    spec_word(self.register2006.value, self.register2005.value),
                    value,
                ),
                ..self
            }
        } else {
            self
        }
    }

    /// Writes `value` at the CPU address `port`. Returns the value written,
    /// or `None` where no PPU register answers.
    pub fn write<M: Memory>(&mut self, port: u16, value: u8, memory: &M) -> (r: Option<u8>)
        ensures
            port == 0x4014 ==> {
                &&& final(self).register4014.value == value
                &&& final(self).sprite_memory@ == dma_copy(*memory, (value as int * 0x100) as u16)
                &&& *final(self) == (Ppu {
                    register4014: final(self).register4014,
                    sprite_memory: final(self).sprite_memory,
                    ..*old(self)
                })
            },
            port != 0x4014 ==> *final(self) == old(self).spec_write(port, value, *memory),
            r == if old(self).spec_read(port) is Some { Some(value) } else { None },
    {
        if port == 0x2000 {
            self.register2000.value = value;
        } else if port == 0x2001 {
            self.register2001.value = value;
        } else if port == 0x2002 {
        } else if port == 0x2003 {
            self.register2003.value = value;
        } else if port == 0x2004 {
            let address = self.sprite_address();
            self.sprite_memory[address as usize] = value;
            assert(self.sprite_memory =~= vstd::array::spec_array_update(
                old(self).sprite_memory,
                old(self).register2003.value as int,
                value,
            ));
        } else if port == 0x2005 {
            self.register2005.value = value;
        } else if port == 0x2006 {
            self.register2006.value = value;
        } else if port == 0x2007 {
            let address = self.video_address();
            self.video_ram.set(address, value);
        } else if port == 0x4014 {
            self.register4014.value = value;
            let start = (value as u16).wrapping_mul(0x100);
            self.save_to_sprite_memory(start, memory);
        } else {
            return None;
        }
        Some(value)
    }
}


/// The ports that hold a register the processor writes and reads back.
pub open spec fn register_port(port: u16) -> bool {
    port == 0x2000 || port == 0x2001 || port == 0x2003 || port == 0x2005 || port == 0x2006
}

/// The ports that read a register directly (not through an address).
pub open spec fn plain_port(port: u16) -> bool {
    register_port(port) || port == 0x2002 || port == 0x4014
}

/// Each register port keeps what is written to it: reading a port right
/// after writing `value` to it gives `value`, and every other port that
/// reads a register directly reads as before. The status port ignores
/// writes. The data ports read back what they wrote too: the sprite byte
/// at the sprite address (0x2004) and the video byte at the video address
/// (0x2007), which leave the registers alone.
pub proof fn lemma_ppu_register_read_after_write<M: Memory>(ppu: Ppu, port: u16, other: u16, value: u8, memory: M)
    ensures
        register_port(port) ==> ppu.spec_write(port, value, memory).spec_read(port) == Some(value),
        register_port(port) && plain_port(other) && other != port ==> ppu.spec_write(port, value, memory).spec_read(
            other,
        ) == ppu.spec_read(other),
        ppu.spec_write(0x2002, value, memory) == ppu,
        ppu.spec_write(0x2004, value, memory).spec_read(0x2004) == Some(value),
        ppu.spec_write(0x2007, value, memory).spec_read(0x2007) == Some(value),
        plain_port(other) ==> ppu.spec_write(0x2004, value, memory).spec_read(other) == ppu.spec_read(other),
        plain_port(other) ==> ppu.spec_write(0x2007, value, memory).spec_read(other) == ppu.spec_read(other),
{
    let address = spec_word(ppu.register2006.value, ppu.register2005.value);
    crate::nes::video_ram::lemma_video_ram_read_after_write(ppu.video_ram, address, value, address);
}

} // verus!
