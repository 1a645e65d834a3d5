use vstd::prelude::*;
use crate::bit_utils::spec_word;
use crate::instruction::{AddressingMode, Mos6502Instruction, Mos6502InstructionCode};
use crate::memory::Memory;
use crate::mos6502cpu::{CpuResult, Mos6502Cpu};
use crate::nes::nes_memory::{NesMemory, ROM_SIZE};
use crate::nes::ppu::Ppu;

verus! {

/// The reset signal the console raises when it is switched on.
pub open spec fn reset_instruction() -> Mos6502Instruction {
    Mos6502Instruction { instruction: Mos6502InstructionCode::Rst, addressing_mode: AddressingMode::Implicit }
}

/// A NES console: a 6502 without decimal mode wired to the NES memory map,
/// and the picture processing unit.
pub struct Nes {
    pub cpu: Mos6502Cpu<NesMemory>,
    pub ppu: Ppu,
}

impl Nes {
    /// The processor of a console just switched on with `rom` inserted.
    pub open spec fn spec_new_cpu(rom: [u8; ROM_SIZE]) -> Mos6502Cpu<NesMemory> {
        Mos6502Cpu::spec_new(NesMemory::spec_new(rom), false)
    }

    pub fn new(rom: [u8; ROM_SIZE]) -> (r: Nes)
        ensures
            r.cpu == Self::spec_new_cpu(rom),
            r.ppu.is_fresh(),
    {
        let memory = NesMemory::new(rom);
        let cpu = Mos6502Cpu::without_decimal(memory);
        let ppu = Ppu::new();
        Nes { cpu, ppu }
    }

    /// Raises the reset signal on the processor.
    pub fn power_up(&mut self) -> (r: CpuResult)
        requires
            old(self).cpu.pre_execute(reset_instruction()),
        ensures
            (final(self).cpu, r) == old(self).cpu.spec_execute(reset_instruction()),
            final(self).ppu == old(self).ppu,
    {
        self.cpu.execute_instruction(
            &Mos6502Instruction::new(Mos6502InstructionCode::Rst, AddressingMode::Implicit),
        )
    }
}

/// Switching a console on runs the reset sequence: the processor jumps to
/// the reset vector stored in the last bytes of the ROM (`0xFFFC`, low byte
/// first), with interrupts disabled and three bytes pushed on the stack.
pub proof fn lemma_power_up_jumps_to_reset_vector(rom: [u8; ROM_SIZE])
    ensures
        Nes::spec_new_cpu(rom).pre_execute(reset_instruction()),
        ({
            let (cpu, r) = Nes::spec_new_cpu(rom).spec_execute(reset_instruction());
            &&& r is Ok
            &&& cpu.registers.pc == spec_word(rom[0x7FFD], rom[0x7FFC])
            &&& cpu.registers.p.interrupt_disable
            &&& cpu.registers.s == 0xFC
            &&& cpu.memory.rom == rom
        }),
{
}

} // verus!
