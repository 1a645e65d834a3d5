use vstd::prelude::*;
use crate::alu::check_result;
use crate::instruction::AddressingMode;
use crate::memory::Memory;
use crate::mos6502cpu::{bit_value, mode_has_value, CpuError, CpuResult, Mos6502Cpu, ProcessorStatus};

verus! {

/// The addressing modes of ASL, LSR, ROL and ROR.
pub open spec fn is_shifting_mode(mode: AddressingMode) -> bool {
    match mode {
        AddressingMode::Accumulator
        | AddressingMode::ZeroPage { .. }
        | AddressingMode::ZeroPageIndexedX { .. }
        | AddressingMode::Absolute { .. }
        | AddressingMode::AbsoluteIndexedX { .. } => true,
        _ => false,
    }
}

/// The addressing modes of INC and DEC.
pub open spec fn is_memory_shifting_mode(mode: AddressingMode) -> bool {
    match mode {
        AddressingMode::ZeroPage { .. }
        | AddressingMode::ZeroPageIndexedX { .. }
        | AddressingMode::Absolute { .. }
        | AddressingMode::AbsoluteIndexedX { .. } => true,
        _ => false,
    }
}

impl<M: Memory> Mos6502Cpu<M> {
    /// A read-modify-write step: reads the operand of `mode`, sets Z and N
    /// from `answer`, sets carry to `carry`, and stores `answer` back
    /// through `mode`.
    pub open spec fn spec_modify(self, mode: AddressingMode, answer: u8, carry: bool) -> (
        Self,
        CpuResult,
    ) {
        self.checked(
            mode_has_value(mode),
            self.with_zn(answer).with_flags(
                ProcessorStatus { carry, ..self.with_zn(answer).registers.p },
            ).spec_store(mode, answer),
        )
    }

    /// ASL without the mode check: shifts the operand left; bit 7 goes to carry.
    pub open spec fn spec_asl_unchecked(self, mode: AddressingMode) -> (Self, CpuResult) {
        let value = self.mode_value(mode);
        self.spec_modify(mode, ((value as int * 2) % 256) as u8, value >= 0x80)
    }

    /// LSR without the mode check: shifts the operand right; bit 0 goes to
    /// carry and the result is never negative.
    pub open spec fn spec_lsr_unchecked(self, mode: AddressingMode) -> (Self, CpuResult) {
        let value = self.mode_value(mode);
        self.spec_modify(mode, value / 2, value % 2 == 1)
    }

    /// ROL without the mode check: rotates the operand left through carry.
    pub open spec fn spec_rol_unchecked(self, mode: AddressingMode) -> (Self, CpuResult) {
        let value = self.mode_value(mode);
        self.spec_modify(
            mode,
            ((value as int * 2) % 256 + bit_value(self.registers.p.carry)) as u8,
            value >= 0x80,
        )
    }

    /// ROR without the mode check: rotates the operand right through carry.
    pub open spec fn spec_ror_unchecked(self, mode: AddressingMode) -> (Self, CpuResult) {
        let value = self.mode_value(mode);
        self.spec_modify(
            mode,
            (value as int / 2 + 0x80 * bit_value(self.registers.p.carry)) as u8,
            value % 2 == 1,
        )
    }

    /// DEC without the mode check: the operand minus one, modulo 256.
    pub open spec fn spec_dec_unchecked(self, mode: AddressingMode) -> (Self, CpuResult) {
        let answer = ((self.mode_value(mode) as int + 255) % 256) as u8;
        self.checked(mode_has_value(mode), self.with_zn(answer).spec_store(mode, answer))
    }

    /// INC without the mode check: the operand plus one, modulo 256.
    pub open spec fn spec_inc_unchecked(self, mode: AddressingMode) -> (Self, CpuResult) {
        let answer = ((self.mode_value(mode) as int + 1) % 256) as u8;
        self.checked(mode_has_value(mode), self.with_zn(answer).spec_store(mode, answer))
    }

    pub fn execute_asl(&mut self, addressing_mode: &AddressingMode) -> (r: CpuResult)
        requires
            is_shifting_mode(*addressing_mode) ==> old(self).mode_safe(*addressing_mode),
        ensures
            (*final(self), r) == old(self).checked(
                is_shifting_mode(*addressing_mode),
                old(self).spec_asl_unchecked(*addressing_mode),
            ),
    {
        self.check_data_shifting_address(addressing_mode)?;
        self.execute_asl_unchecked(addressing_mode)
    }

    pub fn execute_asl_unchecked(&mut self, addressing_mode: &AddressingMode) -> (r: CpuResult)
        requires
            old(self).mode_safe(*addressing_mode),
        ensures
            (*final(self), r) == old(self).spec_asl_unchecked(*addressing_mode),
    {
        let value = self.get_value_from_addressing_mode(addressing_mode)?;
        let future_carry = value & 0x80 > 0;
        let answer = value << 1;
        assert(future_carry == (value >= 0x80) && answer == (value * 2) % 256) by (bit_vector)
            requires
                future_carry == (value & 0x80 > 0),
                answer == value << 1,
        ;
        self.update_zero_flag(answer);
        self.update_negative_flag(answer);
        self.registers.p.carry = future_carry;
        self.set_value_to_addressing_mode(addressing_mode, answer)
    }

    pub fn execute_dec(&mut self, addressing_mode: &AddressingMode) -> (r: CpuResult)
        requires
            is_memory_shifting_mode(*addressing_mode) ==> old(self).mode_safe(*addressing_mode),
        ensures
            (*final(self), r) == old(self).checked(
                is_memory_shifting_mode(*addressing_mode),
                old(self).spec_dec_unchecked(*addressing_mode),
            ),
    {
        self.check_memory_data_shifting_address(addressing_mode)?;
        self.execute_dec_unchecked(addressing_mode)
    }

    pub fn execute_dec_unchecked(&mut self, addressing_mode: &AddressingMode) -> (r: CpuResult)
        requires
            old(self).mode_safe(*addressing_mode),
        ensures
            (*final(self), r) == old(self).spec_dec_unchecked(*addressing_mode),
    {
        let value = self.get_value_from_addressing_mode(addressing_mode)?;
        let answer = self.decrement(value);
        self.set_value_to_addressing_mode(addressing_mode, answer)
    }

    pub fn execute_dex(&mut self, addressing_mode: &AddressingMode) -> (r: CpuResult)
        ensures
            (*final(self), r) == old(self).implicit_only(
                *addressing_mode,
                old(self).with_x(((old(self).registers.x as int + 255) % 256) as u8).with_zn(
                    ((old(self).registers.x as int + 255) % 256) as u8,
                ),
            ),
    {
        if let AddressingMode::Implicit = addressing_mode {
            let value = self.registers.x;
            let answer = self.decrement(value);
            self.registers.x = answer;
            Ok(())
        } else {
            Err(CpuError::InvalidAddressingMode)
        }
    }

    pub fn execute_dey(&mut self, addressing_mode: &AddressingMode) -> (r: CpuResult)
        ensures
            (*final(self), r) == old(self).implicit_only(
                *addressing_mode,
                old(self).with_y(((old(self).registers.y as int + 255) % 256) as u8).with_zn(
                    ((old(self).registers.y as int + 255) % 256) as u8,
                ),
            ),
    {
        if let AddressingMode::Implicit = addressing_mode {
            let value = self.registers.y;
            let answer = self.decrement(value);
            self.registers.y = answer;
            Ok(())
        } else {
            Err(CpuError::InvalidAddressingMode)
        }
    }

    pub fn execute_inc(&mut self, addressing_mode: &AddressingMode) -> (r: CpuResult)
        requires
            is_memory_shifting_mode(*addressing_mode) ==> old(self).mode_safe(*addressing_mode),
        ensures
            (*final(self), r) == old(self).checked(
                is_memory_shifting_mode(*addressing_mode),
                old(self).spec_inc_unchecked(*addressing_mode),
            ),
    {
        self.check_memory_data_shifting_address(addressing_mode)?;
        self.execute_inc_unchecked(addressing_mode)
    }

    pub fn execute_inc_unchecked(&mut self, addressing_mode: &AddressingMode) -> (r: CpuResult)
        requires
            old(self).mode_safe(*addressing_mode),
        ensures
            (*final(self), r) == old(self).spec_inc_unchecked(*addressing_mode),
    {
        let value = self.get_value_from_addressing_mode(addressing_mode)?;
        let answer = self.increment(value);
        self.set_value_to_addressing_mode(addressing_mode, answer)?;
        Ok(())
    }

    pub fn execute_inx(&mut self, addressing_mode: &AddressingMode) -> (r: CpuResult)
        ensures
            (*final(self), r) == old(self).implicit_only(
                *addressing_mode,
                old(self).with_x(((old(self).registers.x as int + 1) % 256) as u8).with_zn(
                    ((old(self).registers.x as int + 1) % 256) as u8,
                ),
            ),
    {
        if let AddressingMode::Implicit = addressing_mode {
            let value = self.registers.x;
            let answer = self.increment(value);
            self.registers.x = answer;
            Ok(())
        } else {
            Err(CpuError::InvalidAddressingMode)
        }
    }

    pub fn execute_iny(&mut self, addressing_mode: &AddressingMode) -> (r: CpuResult)
        ensures
            (*final(self), r) == old(self).implicit_only(
                *addressing_mode,
                old(self).with_y(((old(self).registers.y as int + 1) % 256) as u8).with_zn(
                    ((old(self).registers.y as int + 1) % 256) as u8,
                ),
            ),
    {
        if let AddressingMode::Implicit = addressing_mode {
            let value = self.registers.y;
            let answer = self.increment(value);
            self.registers.y = answer;
            Ok(())
        } else {
            Err(CpuError::InvalidAddressingMode)
        }
    }

    pub fn execute_lsr(&mut self, addressing_mode: &AddressingMode) -> (r: CpuResult)
        requires
            is_shifting_mode(*addressing_mode) ==> old(self).mode_safe(*addressing_mode),
        ensures
            (*final(self), r) == old(self).checked(
                is_shifting_mode(*addressing_mode),
                old(self).spec_lsr_unchecked(*addressing_mode),
            ),
    {
        self.check_data_shifting_address(addressing_mode)?;
        self.execute_lsr_unchecked(addressing_mode)
    }

    pub fn execute_lsr_unchecked(&mut self, addressing_mode: &AddressingMode) -> (r: CpuResult)
        requires
            old(self).mode_safe(*addressing_mode),
        ensures
            (*final(self), r) == old(self).spec_lsr_unchecked(*addressing_mode),
    {
        let value = self.get_value_from_addressing_mode(addressing_mode)?;
        let answer = value >> 1;
        let carry = value & 0x01 > 0;
        assert(answer == value / 2 && carry == (value % 2 == 1)) by (bit_vector)
            requires
                answer == value >> 1,
                carry == (value & 0x01 > 0),
        ;
        self.update_zero_flag(answer);
        self.registers.p.carry = carry;
        self.registers.p.negative = false;
        self.set_value_to_addressing_mode(addressing_mode, answer)
    }

    pub fn execute_rol(&mut self, addressing_mode: &AddressingMode) -> (r: CpuResult)
        requires
            is_shifting_mode(*addressing_mode) ==> old(self).mode_safe(*addressing_mode),
        ensures
            (*final(self), r) == old(self).checked(
                is_shifting_mode(*addressing_mode),
                old(self).spec_rol_unchecked(*addressing_mode),
            ),
    {
        self.check_data_shifting_address(addressing_mode)?;
        self.execute_rol_unchecked(addressing_mode)
    }

    pub fn execute_rol_unchecked(&mut self, addressing_mode: &AddressingMode) -> (r: CpuResult)
        requires
            old(self).mode_safe(*addressing_mode),
        ensures
            (*final(self), r) == old(self).spec_rol_unchecked(*addressing_mode),
    {
        let carry_mask: u8 = if self.registers.p.carry { 1 } else { 0 };
        let value = self.get_value_from_addressing_mode(addressing_mode)?;
        let answer = (value << 1) | carry_mask;
        let carry = value & 0x80 > 0;
        assert(answer == (value * 2) % 256 + carry_mask && carry == (value >= 0x80)) by (bit_vector)
            requires
                answer == (value << 1) | carry_mask,
                carry_mask == 0 || carry_mask == 1,
                carry == (value & 0x80 > 0),
        ;
        self.update_zero_flag(answer);
        self.update_negative_flag(answer);
        self.registers.p.carry = carry;
        self.set_value_to_addressing_mode(addressing_mode, answer)
    }

    pub fn execute_ror(&mut self, addressing_mode: &AddressingMode) -> (r: CpuResult)
        requires
            is_shifting_mode(*addressing_mode) ==> old(self).mode_safe(*addressing_mode),
        ensures
            (*final(self), r) == old(self).checked(
                is_shifting_mode(*addressing_mode),
                old(self).spec_ror_unchecked(*addressing_mode),
            ),
    {
        self.check_data_shifting_address(addressing_mode)?;
        self.execute_ror_unchecked(addressing_mode)
    }

    pub fn execute_ror_unchecked(&mut self, addressing_mode: &AddressingMode) -> (r: CpuResult)
        requires
            old(self).mode_safe(*addressing_mode),
        ensures
            (*final(self), r) == old(self).spec_ror_unchecked(*addressing_mode),
    {
        let carry_mask: u8 = if self.registers.p.carry { 0x80 } else { 0 };
        let value = self.get_value_from_addressing_mode(addressing_mode)?;
        let answer = (value >> 1) | carry_mask;
        let carry = value & 0x01 > 0;
        assert(answer == value / 2 + carry_mask && carry == (value % 2 == 1)) by (bit_vector)
            requires
                answer == (value >> 1) | carry_mask,
                carry_mask == 0 || carry_mask == 0x80,
                carry == (value & 0x01 > 0),
        ;
        self.update_zero_flag(answer);
        self.update_negative_flag(answer);
        self.registers.p.carry = carry;
        self.set_value_to_addressing_mode(addressing_mode, answer)
    }

    /// Adds one modulo 256 and sets Z and N from the result.
    fn increment(&mut self, value: u8) -> (r: u8)
        ensures
            r == ((value as int + 1) % 256) as u8,
            *final(self) == old(self).with_zn(r),
    {
        let answer = value.wrapping_add(1);
        self.update_zero_flag(answer);
        self.update_negative_flag(answer);
        answer
    }

    /// Subtracts one modulo 256 (adding 0xff) and sets Z and N from the result.
    fn decrement(&mut self, value: u8) -> (r: u8)
        ensures
            r == ((value as int + 255) % 256) as u8,
            *final(self) == old(self).with_zn(r),
    {
        let answer = value.wrapping_add(0xff);
        self.update_zero_flag(answer);
        self.update_negative_flag(answer);
        answer
    }

    pub fn check_data_shifting_address(&self, addressing_mode: &AddressingMode) -> (r: CpuResult)
        ensures
            r == check_result(is_shifting_mode(*addressing_mode)),
    {
        match addressing_mode {
            AddressingMode::Accumulator => Ok(()),
            AddressingMode::ZeroPage { .. } => Ok(()),
            AddressingMode::ZeroPageIndexedX { .. } => Ok(()),
            AddressingMode::Absolute { .. } => Ok(()),
            AddressingMode::AbsoluteIndexedX { .. } => Ok(()),
            _ => Err(CpuError::InvalidAddressingMode),
        }
    }

    pub fn check_memory_data_shifting_address(&self, addressing_mode: &AddressingMode) -> (r:
        CpuResult)
        ensures
            r == check_result(is_memory_shifting_mode(*addressing_mode)),
    {
        match addressing_mode {
            AddressingMode::ZeroPage { .. } => Ok(()),
            AddressingMode::ZeroPageIndexedX { .. } => Ok(()),
            AddressingMode::Absolute { .. } => Ok(()),
            AddressingMode::AbsoluteIndexedX { .. } => Ok(()),
            _ => Err(CpuError::InvalidAddressingMode),
        }
    }
}

} // verus!
