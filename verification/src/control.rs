use vstd::prelude::*;
use crate::alu::check_result;
use crate::instruction::AddressingMode;
use crate::memory::Memory;
use crate::mos6502cpu::{CpuError, CpuResult, Mos6502Cpu, ProcessorStatus};

verus! {

/// The addressing modes of BIT.
pub open spec fn is_bit_mode(mode: AddressingMode) -> bool {
    mode is ZeroPage || mode is Absolute
}

impl<M: Memory> Mos6502Cpu<M> {
    /// BIT: zero tells whether the operand and the accumulator share no set
    /// bit; overflow and negative copy bits 6 and 7 of the operand.
    pub open spec fn spec_bit(self, mode: AddressingMode) -> (Self, CpuResult) {
        let value = self.mode_value(mode);
        self.checked(
            is_bit_mode(mode),
            (
                self.with_flags(
                    ProcessorStatus {
                        zero: value & self.registers.a == 0,
                        overflow: (value as int / 0x40) % 2 == 1,
                        negative: value >= 0x80,
                        ..self.registers.p
                    },
                ),
                Ok(()),
            ),
        )
    }

    /// A flag instruction: sets the flags to `p`, with an implicit operand.
    pub open spec fn spec_set_flags(self, mode: AddressingMode, p: ProcessorStatus) -> (Self, CpuResult) {
        self.implicit_only(mode, self.with_flags(p))
    }

    pub fn execute_bit(&mut self, addressing_mode: &AddressingMode) -> (r: CpuResult)
        requires
            is_bit_mode(*addressing_mode) ==> old(self).mode_safe(*addressing_mode),
        ensures
            (*final(self), r) == old(self).spec_bit(*addressing_mode),
    {
        self.check_bit_address(addressing_mode)?;
        let value = self.get_value_from_addressing_mode(addressing_mode)?;
        let answer = value & self.registers.a;
        self.update_zero_flag(answer);
        let overflow = value & 0x40 > 0;
        let negative = value & 0x80 > 0;
        assert(overflow == ((value / 0x40) % 2 == 1)) by (bit_vector)
            requires
                overflow == (value & 0x40 > 0),
        ;
        assert(negative == (value >= 0x80)) by (bit_vector)
            requires
                negative == (value & 0x80 > 0),
        ;
        self.registers.p.overflow = overflow;
        self.registers.p.negative = negative;
        Ok(())
    }

    pub fn execute_clc(&mut self, addressing_mode: &AddressingMode) -> (r: CpuResult)
        ensures
            (*final(self), r) == old(self).spec_set_flags(
                *addressing_mode,
                ProcessorStatus { carry: false, ..old(self).registers.p },
            ),
    {
        if let AddressingMode::Implicit = addressing_mode {
            self.registers.p.carry = false;
            Ok(())
        } else {
            Err(CpuError::InvalidAddressingMode)
        }
    }

    pub fn execute_cld(&mut self, addressing_mode: &AddressingMode) -> (r: CpuResult)
        ensures
            (*final(self), r) == old(self).spec_set_flags(
                *addressing_mode,
                ProcessorStatus { decimal: false, ..old(self).registers.p },
            ),
    {
        if let AddressingMode::Implicit = addressing_mode {
            self.registers.p.decimal = false;
            Ok(())
        } else {
            Err(CpuError::InvalidAddressingMode)
        }
    }

    pub fn execute_cli(&mut self, addressing_mode: &AddressingMode) -> (r: CpuResult)
        ensures
            (*final(self), r) == old(self).spec_set_flags(
                *addressing_mode,
                ProcessorStatus { interrupt_disable: false, ..old(self).registers.p },
            ),
    {
        if let AddressingMode::Implicit = addressing_mode {
            self.registers.p.interrupt_disable = false;
            Ok(())
        } else {
            Err(CpuError::InvalidAddressingMode)
        }
    }

    pub fn execute_clv(&mut self, addressing_mode: &AddressingMode) -> (r: CpuResult)
        ensures
            (*final(self), r) == old(self).spec_set_flags(
                *addressing_mode,
                ProcessorStatus { overflow: false, ..old(self).registers.p },
            ),
    {
        if let AddressingMode::Implicit = addressing_mode {
            self.registers.p.overflow = false;
            Ok(())
        } else {
            Err(CpuError::InvalidAddressingMode)
        }
    }

    pub fn execute_sec(&mut self, addressing_mode: &AddressingMode) -> (r: CpuResult)
        ensures
            (*final(self), r) == old(self).spec_set_flags(
                *addressing_mode,
                ProcessorStatus { carry: true, ..old(self).registers.p },
            ),
    {
        if let AddressingMode::Implicit = addressing_mode {
            self.registers.p.carry = true;
            Ok(())
        } else {
            Err(CpuError::InvalidAddressingMode)
        }
    }

    pub fn execute_sed(&mut self, addressing_mode: &AddressingMode) -> (r: CpuResult)
        ensures
            (*final(self), r) == old(self).spec_set_flags(
                *addressing_mode,
                ProcessorStatus { decimal: true, ..old(self).registers.p },
            ),
    {
        if let AddressingMode::Implicit = addressing_mode {
            self.registers.p.decimal = true;
            Ok(())
        } else {
            Err(CpuError::InvalidAddressingMode)
        }
    }

    pub fn execute_sei(&mut self, addressing_mode: &AddressingMode) -> (r: CpuResult)
        ensures
            (*final(self), r) == old(self).spec_set_flags(
                *addressing_mode,
                ProcessorStatus { interrupt_disable: true, ..old(self).registers.p },
            ),
    {
        if let AddressingMode::Implicit = addressing_mode {
            self.registers.p.interrupt_disable = true;
            Ok(())
        } else {
            Err(CpuError::InvalidAddressingMode)
        }
    }

    pub fn check_bit_address(&self, addressing_mode: &AddressingMode) -> (r: CpuResult)
        ensures
            r == check_result(is_bit_mode(*addressing_mode)),
    {
        match addressing_mode {
            AddressingMode::ZeroPage { .. } => Ok(()),
            AddressingMode::Absolute { .. } => Ok(()),
            _ => Err(CpuError::InvalidAddressingMode),
        }
    }
}

} // verus!
