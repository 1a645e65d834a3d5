use vstd::prelude::*;
use crate::alu::is_alu_mode;
use crate::instruction::AddressingMode;
use crate::memory::Memory;
use crate::mos6502cpu::{mode_has_value, CpuResult, Mos6502Cpu};

verus! {

impl<M: Memory> Mos6502Cpu<M> {
    /// AND without the mode check: A becomes A & operand, setting Z and N.
    pub open spec fn spec_and_unchecked(self, mode: AddressingMode) -> (Self, CpuResult) {
        let answer = self.registers.a & self.mode_value(mode);
        self.checked(mode_has_value(mode), (self.with_a(answer).with_zn(answer), Ok(())))
    }

    /// EOR without the mode check: A becomes A ^ operand, setting Z and N.
    pub open spec fn spec_eor_unchecked(self, mode: AddressingMode) -> (Self, CpuResult) {
        let answer = self.registers.a ^ self.mode_value(mode);
        self.checked(mode_has_value(mode), (self.with_a(answer).with_zn(answer), Ok(())))
    }

    /// ORA without the mode check: A becomes A | operand, setting Z and N.
    pub open spec fn spec_ora_unchecked(self, mode: AddressingMode) -> (Self, CpuResult) {
        let answer = self.registers.a | self.mode_value(mode);
        self.checked(mode_has_value(mode), (self.with_a(answer).with_zn(answer), Ok(())))
    }

    pub fn execute_and(&mut self, addressing_mode: &AddressingMode) -> (r: CpuResult)
        requires
            is_alu_mode(*addressing_mode) ==> old(self).mode_safe(*addressing_mode),
        ensures
            (*final(self), r) == old(self).checked(
                is_alu_mode(*addressing_mode),
                old(self).spec_and_unchecked(*addressing_mode),
            ),
    {
        self.check_alu_address(addressing_mode)?;
        self.execute_and_unchecked(addressing_mode)
    }

    pub fn execute_and_unchecked(&mut self, addressing_mode: &AddressingMode) -> (r: CpuResult)
        requires
            old(self).mode_safe(*addressing_mode),
        ensures
            (*final(self), r) == old(self).spec_and_unchecked(*addressing_mode),
    {
        let value = self.get_value_from_addressing_mode(addressing_mode)?;
        let answer = self.registers.a & value;
        self.registers.a = answer;
        self.update_zero_flag(answer);
        self.update_negative_flag(answer);
        Ok(())
    }

    pub fn execute_eor(&mut self, addressing_mode: &AddressingMode) -> (r: CpuResult)
        requires
            is_alu_mode(*addressing_mode) ==> old(self).mode_safe(*addressing_mode),
        ensures
            (*final(self), r) == old(self).checked(
                is_alu_mode(*addressing_mode),
                old(self).spec_eor_unchecked(*addressing_mode),
            ),
    {
        self.check_alu_address(addressing_mode)?;
        self.execute_eor_unchecked(addressing_mode)
    }

    pub fn execute_eor_unchecked(&mut self, addressing_mode: &AddressingMode) -> (r: CpuResult)
        requires
            old(self).mode_safe(*addressing_mode),
        ensures
            (*final(self), r) == old(self).spec_eor_unchecked(*addressing_mode),
    {
        let value = self.get_value_from_addressing_mode(addressing_mode)?;
        let answer = self.registers.a ^ value;
        self.registers.a = answer;
        self.update_zero_flag(answer);
        self.update_negative_flag(answer);
        Ok(())
    }

    pub fn execute_ora(&mut self, addressing_mode: &AddressingMode) -> (r: CpuResult)
        requires
            is_alu_mode(*addressing_mode) ==> old(self).mode_safe(*addressing_mode),
        ensures
            (*final(self), r) == old(self).checked(
                is_alu_mode(*addressing_mode),
                old(self).spec_ora_unchecked(*addressing_mode),
            ),
    {
        self.check_alu_address(addressing_mode)?;
        self.execute_ora_unchecked(addressing_mode)
    }

    pub fn execute_ora_unchecked(&mut self, addressing_mode: &AddressingMode) -> (r: CpuResult)
        requires
            old(self).mode_safe(*addressing_mode),
        ensures
            (*final(self), r) == old(self).spec_ora_unchecked(*addressing_mode),
    {
        let value = self.get_value_from_addressing_mode(addressing_mode)?;
        let answer = self.registers.a | value;
        self.registers.a = answer;
        self.update_zero_flag(answer);
        self.update_negative_flag(answer);
        Ok(())
    }
}

} // verus!
