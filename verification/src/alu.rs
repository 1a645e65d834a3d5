use vstd::prelude::*;
use crate::instruction::AddressingMode;
use crate::memory::Memory;
use crate::mos6502cpu::{CpuError, CpuResult, Mos6502Cpu};

verus! {

/// The addressing modes of the arithmetic and logic group
/// (ADC, AND, CMP, EOR, LDA, ORA, SBC).
pub open spec fn is_alu_mode(mode: AddressingMode) -> bool {
    match mode {
        AddressingMode::Immediate { .. }
        | AddressingMode::ZeroPage { .. }
        | AddressingMode::ZeroPageIndexedX { .. }
        | AddressingMode::IndexedIndirect { .. }
        | AddressingMode::IndirectIndexed { .. }
        | AddressingMode::Absolute { .. }
        | AddressingMode::AbsoluteIndexedX { .. }
        | AddressingMode::AbsoluteIndexedY { .. } => true,
        _ => false,
    }
}

/// The result of a mode check: success exactly when `ok`.
pub open spec fn check_result(ok: bool) -> CpuResult {
    if ok {
        Ok(())
    } else {
        Err(CpuError::InvalidAddressingMode)
    }
}

impl<M: Memory> Mos6502Cpu<M> {
    pub fn check_alu_address(&self, addressing_mode: &AddressingMode) -> (r: CpuResult)
        ensures
            r == check_result(is_alu_mode(*addressing_mode)),
    {
        match addressing_mode {
            AddressingMode::Immediate { .. } => Ok(()),
            AddressingMode::ZeroPage { .. } => Ok(()),
            AddressingMode::ZeroPageIndexedX { .. } => Ok(()),
            AddressingMode::IndexedIndirect { .. } => Ok(()),
            AddressingMode::IndirectIndexed { .. } => Ok(()),
            AddressingMode::Absolute { .. } => Ok(()),
            AddressingMode::AbsoluteIndexedX { .. } => Ok(()),
            AddressingMode::AbsoluteIndexedY { .. } => Ok(()),
            _ => Err(CpuError::InvalidAddressingMode),
        }
    }

    /// Sets the zero flag exactly when `answer` is zero.
    pub fn update_zero_flag(&mut self, answer: u8)
        ensures
            *final(self) == old(self).with_flags(
                crate::mos6502cpu::ProcessorStatus { zero: answer == 0, ..old(self).registers.p },
            ),
    {
        self.registers.p.zero = answer == 0;
    }

    /// Sets the negative flag to bit 7 of `answer`.
    pub fn update_negative_flag(&mut self, answer: u8)
        ensures
            *final(self) == old(self).with_flags(
                crate::mos6502cpu::ProcessorStatus { negative: answer >= 0x80, ..old(self).registers.p },
            ),
    {
        let negative = answer & 0x80 > 0;
        assert(negative == (answer >= 0x80)) by (bit_vector)
            requires
                negative == (answer & 0x80 > 0),
        ;
        self.registers.p.negative = negative;
    }
}

} // verus!
