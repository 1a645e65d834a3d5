use vstd::prelude::*;
use crate::instruction::AddressingMode;
use crate::memory::Memory;
use crate::mos6502cpu::{mode_can_store, CpuError, CpuResult, Mos6502Cpu, ProcessorStatus};

verus! {

impl<M: Memory> Mos6502Cpu<M> {
    /// PLA: pulls a byte into A, setting Z and N.
    pub open spec fn spec_pla(self) -> Self {
        let value = self.spec_pulled();
        self.spec_pull_state().with_a(value).with_zn(value)
    }

    /// PLP: pulls the flags; the break flag reads as clear.
    pub open spec fn spec_plp(self) -> Self {
        self.spec_pull_state().with_flags(ProcessorStatus::spec_from_byte(self.spec_pulled()))
    }

    pub fn execute_pha(&mut self, addressing_mode: &AddressingMode) -> (r: CpuResult)
        ensures
            (*final(self), r) == old(self).implicit_only(
                *addressing_mode,
                old(self).spec_push(old(self).registers.a),
            ),
    {
        if let AddressingMode::Implicit = addressing_mode {
            let a = self.registers.a;
            self.push(a);
            Ok(())
        } else {
            Err(CpuError::InvalidAddressingMode)
        }
    }

    pub fn execute_php(&mut self, addressing_mode: &AddressingMode) -> (r: CpuResult)
        ensures
            (*final(self), r) == old(self).implicit_only(
                *addressing_mode,
                old(self).spec_push(old(self).registers.p.spec_to_byte()),
            ),
    {
        if let AddressingMode::Implicit = addressing_mode {
            let status = self.registers.p.to_byte();
            self.push(status);
            Ok(())
        } else {
            Err(CpuError::InvalidAddressingMode)
        }
    }

    pub fn execute_pla(&mut self, addressing_mode: &AddressingMode) -> (r: CpuResult)
        ensures
            (*final(self), r) == old(self).implicit_only(*addressing_mode, old(self).spec_pla()),
    {
        if let AddressingMode::Implicit = addressing_mode {
            let new_a = self.pull();
            self.registers.a = new_a;
            self.update_negative_flag(new_a);
            self.update_zero_flag(new_a);
            Ok(())
        } else {
            Err(CpuError::InvalidAddressingMode)
        }
    }

    pub fn execute_plp(&mut self, addressing_mode: &AddressingMode) -> (r: CpuResult)
        ensures
            (*final(self), r) == old(self).implicit_only(*addressing_mode, old(self).spec_plp()),
    {
        if let AddressingMode::Implicit = addressing_mode {
            let new_status = self.pull();
            self.registers.p = ProcessorStatus::from_byte(new_status);
            Ok(())
        } else {
            Err(CpuError::InvalidAddressingMode)
        }
    }
}


/// Packing the flags into a byte and reading them back gives the same
/// flags, except the break flag, which reads as clear.
pub proof fn lemma_status_byte_round_trip(p: ProcessorStatus)
    ensures
        ProcessorStatus::spec_from_byte(p.spec_to_byte()) == (ProcessorStatus { break_flag: false, ..p }),
{
}

/// On a flat memory, pulling right after a push gives back the pushed byte
/// and restores the stack pointer (PHA/PLA and PHP/PLP undo each other's
/// stack effect).
pub proof fn lemma_pull_after_push(cpu: Mos6502Cpu<[u8; crate::memory::AVAILABLE_MEMORY]>, value: u8)
    ensures
        cpu.spec_push(value).spec_pulled() == value,
        cpu.spec_push(value).spec_pull_state().registers == cpu.registers,
        cpu.spec_push(value).spec_pull_state().memory == cpu.memory.spec_set(
            (0x100 + cpu.registers.s) as u16,
            value,
        ),
{
    let pushed = cpu.spec_push(value);
    assert((pushed.registers.s + 1) % 256 == cpu.registers.s);
    crate::memory::lemma_flat_memory_read_after_write(
        cpu.memory,
        (0x100 + cpu.registers.s) as u16,
        value,
        (0x100 + cpu.registers.s) as u16,
    );
}

/// On a flat memory, RTS right after JSR returns: it goes on after the JSR's
/// operand (the program counter it had) with the stack pointer back where
/// it was.
pub proof fn lemma_rts_after_jsr(
    cpu: Mos6502Cpu<[u8; crate::memory::AVAILABLE_MEMORY]>,
    high_byte: u8,
    low_byte: u8,
)
    requires
        cpu.registers.pc >= 1,
    ensures
        ({
            let (called, r) = cpu.spec_jsr(AddressingMode::Absolute { high_byte, low_byte });
            &&& r is Ok
            &&& called.rts_pre(AddressingMode::Implicit)
            &&& called.spec_rts().registers.pc == cpu.registers.pc
            &&& called.spec_rts().registers.s == cpu.registers.s
        }),
{
    let return_address = (cpu.registers.pc - 1) as u16;
    let high = crate::bit_utils::spec_high_byte(return_address);
    let low = crate::bit_utils::spec_low_byte(return_address);
    let first = cpu.spec_push(high);
    let second = first.spec_push(low);
    let first_address = (0x100 + cpu.registers.s) as u16;
    let second_address = (0x100 + first.registers.s) as u16;
    crate::memory::lemma_flat_memory_read_after_write(first.memory, second_address, low, second_address);
    crate::memory::lemma_flat_memory_read_after_write(first.memory, second_address, low, first_address);
    crate::memory::lemma_flat_memory_read_after_write(cpu.memory, first_address, high, first_address);
    assert(second.spec_pulled() == low);
    assert(second.spec_pull_state().spec_pulled() == high);
    assert(crate::bit_utils::spec_word(high, low) == return_address);
}

/// The addresses of the pointer that an indirect mode reads its address
/// from (none for the other modes).
pub open spec fn pointer_addresses(cpu: Mos6502Cpu<[u8; crate::memory::AVAILABLE_MEMORY]>, mode: AddressingMode) -> Set<int> {
    match mode {
        AddressingMode::IndexedIndirect { byte } => set![
            (byte + cpu.registers.x) % 256,
            ((byte + cpu.registers.x) % 256 + 1) as u16 as int,
        ],
        AddressingMode::IndirectIndexed { byte } => set![byte as int, (byte + 1) as u16 as int],
        _ => Set::empty(),
    }
}

/// On a flat memory, reading through a mode right after storing a byte
/// through it gives that byte back, where the store did not overwrite the
/// pointer the mode reads its address from.
pub proof fn lemma_read_after_store(
    cpu: Mos6502Cpu<[u8; crate::memory::AVAILABLE_MEMORY]>,
    mode: AddressingMode,
    value: u8,
)
    requires
        mode_can_store(mode),
        cpu.mode_safe(mode),
        !pointer_addresses(cpu, mode).contains(cpu.mode_address(mode) as u16 as int),
    ensures
        cpu.mode_store(mode, value).mode_value(mode) == value,
{
    let target = cpu.mode_address(mode) as u16;
    let stored = cpu.mode_store(mode, value);
    match mode {
        AddressingMode::Accumulator => {},
        AddressingMode::IndexedIndirect { byte } => {
            let p = ((byte + cpu.registers.x) % 256) as u16;
            let q = ((byte + cpu.registers.x) % 256 + 1) as u16;
            crate::memory::lemma_flat_memory_read_after_write(cpu.memory, target, value, p);
            crate::memory::lemma_flat_memory_read_after_write(cpu.memory, target, value, q);
            assert(stored.mode_address(mode) == cpu.mode_address(mode));
            crate::memory::lemma_flat_memory_read_after_write(cpu.memory, target, value, target);
        },
        AddressingMode::IndirectIndexed { byte } => {
            let p = byte as u16;
            let q = (byte + 1) as u16;
            crate::memory::lemma_flat_memory_read_after_write(cpu.memory, target, value, p);
            crate::memory::lemma_flat_memory_read_after_write(cpu.memory, target, value, q);
            assert(stored.mode_address(mode) == cpu.mode_address(mode));
            crate::memory::lemma_flat_memory_read_after_write(cpu.memory, target, value, target);
        },
        _ => {
            assert(stored.mode_address(mode) == cpu.mode_address(mode));
            crate::memory::lemma_flat_memory_read_after_write(cpu.memory, target, value, target);
        },
    }
}

} // verus!
