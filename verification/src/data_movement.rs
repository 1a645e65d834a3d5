use vstd::prelude::*;
use crate::alu::{check_result, is_alu_mode};
use crate::instruction::AddressingMode;
use crate::memory::Memory;
use crate::mos6502cpu::{mode_has_value, CpuError, CpuResult, Mos6502Cpu};

verus! {

/// The addressing modes of LDX.
pub open spec fn is_load_y_indexed_mode(mode: AddressingMode) -> bool {
    match mode {
        AddressingMode::Immediate { .. }
        | AddressingMode::ZeroPage { .. }
        | AddressingMode::ZeroPageIndexedY { .. }
        | AddressingMode::Absolute { .. }
        | AddressingMode::AbsoluteIndexedY { .. } => true,
        _ => false,
    }
}

/// The addressing modes of LDY.
pub open spec fn is_load_x_indexed_mode(mode: AddressingMode) -> bool {
    match mode {
        AddressingMode::Immediate { .. }
        | AddressingMode::ZeroPage { .. }
        | AddressingMode::ZeroPageIndexedX { .. }
        | AddressingMode::Absolute { .. }
        | AddressingMode::AbsoluteIndexedX { .. } => true,
        _ => false,
    }
}

/// The addressing modes of STA and of the read-modify-write undocumented
/// instructions.
pub open spec fn is_store_mode(mode: AddressingMode) -> bool {
    match mode {
        AddressingMode::ZeroPage { .. }
        | AddressingMode::ZeroPageIndexedX { .. }
        | AddressingMode::Absolute { .. }
        | AddressingMode::AbsoluteIndexedX { .. }
        | AddressingMode::AbsoluteIndexedY { .. }
        | AddressingMode::IndexedIndirect { .. }
        | AddressingMode::IndirectIndexed { .. } => true,
        _ => false,
    }
}

/// The addressing modes of STX.
pub open spec fn is_stx_mode(mode: AddressingMode) -> bool {
    mode is ZeroPage || mode is ZeroPageIndexedY || mode is Absolute
}

/// The addressing modes of STY.
pub open spec fn is_sty_mode(mode: AddressingMode) -> bool {
    mode is ZeroPage || mode is ZeroPageIndexedX || mode is Absolute
}

impl<M: Memory> Mos6502Cpu<M> {
    /// LDA without the mode check: the operand goes to A and sets Z and N.
    pub open spec fn spec_lda_unchecked(self, mode: AddressingMode) -> (Self, CpuResult) {
        let value = self.mode_value(mode);
        self.checked(mode_has_value(mode), (self.with_a(value).with_zn(value), Ok(())))
    }

    /// LDX without the mode check: the operand goes to X and sets Z and N.
    pub open spec fn spec_ldx_unchecked(self, mode: AddressingMode) -> (Self, CpuResult) {
        let value = self.mode_value(mode);
        self.checked(mode_has_value(mode), (self.with_x(value).with_zn(value), Ok(())))
    }

    /// The processor after storing `value` at the address of `mode`.
    pub open spec fn spec_store_at_address(self, mode: AddressingMode, value: u8) -> Self {
        self.with_write(self.mode_address(mode) as u16, value)
    }

    pub fn execute_lda(&mut self, addressing_mode: &AddressingMode) -> (r: CpuResult)
        requires
            is_alu_mode(*addressing_mode) ==> old(self).mode_safe(*addressing_mode),
        ensures
            (*final(self), r) == old(self).checked(
                is_alu_mode(*addressing_mode),
                old(self).spec_lda_unchecked(*addressing_mode),
            ),
    {
        self.check_alu_address(addressing_mode)?;
        self.execute_lda_unchecked(addressing_mode)
    }

    pub fn execute_lda_unchecked(&mut self, addressing_mode: &AddressingMode) -> (r: CpuResult)
        requires
            old(self).mode_safe(*addressing_mode),
        ensures
            (*final(self), r) == old(self).spec_lda_unchecked(*addressing_mode),
    {
        let value = self.get_value_from_addressing_mode(addressing_mode)?;
        self.registers.a = value;
        self.update_zero_flag(value);
        self.update_negative_flag(value);
        Ok(())
    }

    pub fn execute_ldx(&mut self, addressing_mode: &AddressingMode) -> (r: CpuResult)
        requires
            is_load_y_indexed_mode(*addressing_mode) ==> old(self).mode_safe(*addressing_mode),
        ensures
            (*final(self), r) == old(self).checked(
                is_load_y_indexed_mode(*addressing_mode),
                old(self).spec_ldx_unchecked(*addressing_mode),
            ),
    {
        self.check_data_load_address_y(addressing_mode)?;
        self.execute_ldx_unchecked(addressing_mode)
    }

    pub fn execute_ldx_unchecked(&mut self, addressing_mode: &AddressingMode) -> (r: CpuResult)
        requires
            old(self).mode_safe(*addressing_mode),
        ensures
            (*final(self), r) == old(self).spec_ldx_unchecked(*addressing_mode),
    {
        let value = self.get_value_from_addressing_mode(addressing_mode)?;
        self.registers.x = value;
        self.update_zero_flag(value);
        self.update_negative_flag(value);
        Ok(())
    }

    pub fn execute_ldy(&mut self, addressing_mode: &AddressingMode) -> (r: CpuResult)
        requires
            is_load_x_indexed_mode(*addressing_mode) ==> old(self).mode_safe(*addressing_mode),
        ensures
            (*final(self), r) == old(self).checked(
                is_load_x_indexed_mode(*addressing_mode),
                (
                    old(self).with_y(old(self).mode_value(*addressing_mode)).with_zn(
                        old(self).mode_value(*addressing_mode),
                    ),
                    Ok(()),
                ),
            ),
    {
        self.check_data_load_address_x(addressing_mode)?;
        let value = self.get_value_from_addressing_mode(addressing_mode)?;
        self.registers.y = value;
        self.update_zero_flag(value);
        self.update_negative_flag(value);
        Ok(())
    }

    pub fn execute_sta(&mut self, addressing_mode: &AddressingMode) -> (r: CpuResult)
        requires
            is_store_mode(*addressing_mode) ==> old(self).mode_safe(*addressing_mode),
        ensures
            (*final(self), r) == old(self).checked(
                is_store_mode(*addressing_mode),
                (old(self).spec_store_at_address(*addressing_mode, old(self).registers.a), Ok(())),
            ),
    {
        self.check_data_store_address(addressing_mode)?;
        let address = self.get_address_from_addressing_mode(addressing_mode)?;
        self.memory.set(address, self.registers.a);
        Ok(())
    }

    pub fn execute_stx(&mut self, addressing_mode: &AddressingMode) -> (r: CpuResult)
        ensures
            (*final(self), r) == old(self).checked(
                is_stx_mode(*addressing_mode),
                (old(self).spec_store_at_address(*addressing_mode, old(self).registers.x), Ok(())),
            ),
    {
        match addressing_mode {
            AddressingMode::ZeroPage { .. }
            | AddressingMode::ZeroPageIndexedY { .. }
            | AddressingMode::Absolute { .. } => {
                let address = self.get_address_from_addressing_mode(addressing_mode)?;
                self.memory.set(address, self.registers.x);
                Ok(())
            },
            _ => Err(CpuError::InvalidAddressingMode),
        }
    }

    pub fn execute_sty(&mut self, addressing_mode: &AddressingMode) -> (r: CpuResult)
        ensures
            (*final(self), r) == old(self).checked(
                is_sty_mode(*addressing_mode),
                (old(self).spec_store_at_address(*addressing_mode, old(self).registers.y), Ok(())),
            ),
    {
        match addressing_mode {
            AddressingMode::ZeroPage { .. }
            | AddressingMode::ZeroPageIndexedX { .. }
            | AddressingMode::Absolute { .. } => {
                let address = self.get_address_from_addressing_mode(addressing_mode)?;
                self.memory.set(address, self.registers.y);
                Ok(())
            },
            _ => Err(CpuError::InvalidAddressingMode),
        }
    }

    pub fn execute_tax(&mut self, addressing_mode: &AddressingMode) -> (r: CpuResult)
        ensures
            (*final(self), r) == old(self).implicit_only(
                *addressing_mode,
                old(self).with_x(old(self).registers.a).with_zn(old(self).registers.a),
            ),
    {
        if let AddressingMode::Implicit = addressing_mode {
            self.execute_tax_unchecked();
            Ok(())
        } else {
            Err(CpuError::InvalidAddressingMode)
        }
    }

    pub fn execute_tax_unchecked(&mut self)
        ensures
            *final(self) == old(self).with_x(old(self).registers.a).with_zn(old(self).registers.a),
    {
        let a_value = self.registers.a;
        self.registers.x = a_value;
        self.update_zero_flag(a_value);
        self.update_negative_flag(a_value);
    }

    pub fn execute_tay(&mut self, addressing_mode: &AddressingMode) -> (r: CpuResult)
        ensures
            (*final(self), r) == old(self).implicit_only(
                *addressing_mode,
                old(self).with_y(old(self).registers.a).with_zn(old(self).registers.a),
            ),
    {
        if let AddressingMode::Implicit = addressing_mode {
            let a_value = self.registers.a;
            self.registers.y = a_value;
            self.update_zero_flag(a_value);
            self.update_negative_flag(a_value);
            Ok(())
        } else {
            Err(CpuError::InvalidAddressingMode)
        }
    }

    pub fn execute_tsx(&mut self, addressing_mode: &AddressingMode) -> (r: CpuResult)
        ensures
            (*final(self), r) == old(self).implicit_only(
                *addressing_mode,
                old(self).with_x(old(self).registers.s).with_zn(old(self).registers.s),
            ),
    {
        if let AddressingMode::Implicit = addressing_mode {
            let s_value = self.registers.s;
            self.registers.x = s_value;
            self.update_zero_flag(s_value);
            self.update_negative_flag(s_value);
            Ok(())
        } else {
            Err(CpuError::InvalidAddressingMode)
        }
    }

    pub fn execute_txa(&mut self, addressing_mode: &AddressingMode) -> (r: CpuResult)
        ensures
            (*final(self), r) == old(self).implicit_only(
                *addressing_mode,
                old(self).with_a(old(self).registers.x).with_zn(old(self).registers.x),
            ),
    {
        if let AddressingMode::Implicit = addressing_mode {
            self.execute_txa_unchecked();
            Ok(())
        } else {
            Err(CpuError::InvalidAddressingMode)
        }
    }

    pub fn execute_txa_unchecked(&mut self)
        ensures
            *final(self) == old(self).with_a(old(self).registers.x).with_zn(old(self).registers.x),
    {
        let x_value = self.registers.x;
        self.registers.a = x_value;
        self.update_zero_flag(x_value);
        self.update_negative_flag(x_value);
    }

    pub fn execute_txs(&mut self, addressing_mode: &AddressingMode) -> (r: CpuResult)
        ensures
            (*final(self), r) == old(self).implicit_only(
                *addressing_mode,
                old(self).with_s(old(self).registers.x),
            ),
    {
        if let AddressingMode::Implicit = addressing_mode {
            let x_value = self.registers.x;
            self.registers.s = x_value;
            Ok(())
        } else {
            Err(CpuError::InvalidAddressingMode)
        }
    }

    pub fn execute_tya(&mut self, addressing_mode: &AddressingMode) -> (r: CpuResult)
        ensures
            (*final(self), r) == old(self).implicit_only(
                *addressing_mode,
                old(self).with_a(old(self).registers.y).with_zn(old(self).registers.y),
            ),
    {
        if let AddressingMode::Implicit = addressing_mode {
            let y_value = self.registers.y;
            self.registers.a = y_value;
            self.update_zero_flag(y_value);
            self.update_negative_flag(y_value);
            Ok(())
        } else {
            Err(CpuError::InvalidAddressingMode)
        }
    }

    pub fn check_data_load_address_y(&self, addressing_mode: &AddressingMode) -> (r: CpuResult)
        ensures
            r == check_result(is_load_y_indexed_mode(*addressing_mode)),
    {
        match addressing_mode {
            AddressingMode::Immediate { .. } => Ok(()),
            AddressingMode::ZeroPage { .. } => Ok(()),
            AddressingMode::ZeroPageIndexedY { .. } => Ok(()),
            AddressingMode::Absolute { .. } => Ok(()),
            AddressingMode::AbsoluteIndexedY { .. } => Ok(()),
            _ => Err(CpuError::InvalidAddressingMode),
        }
    }

    pub fn check_data_load_address_x(&self, addressing_mode: &AddressingMode) -> (r: CpuResult)
        ensures
            r == check_result(is_load_x_indexed_mode(*addressing_mode)),
    {
        match addressing_mode {
            AddressingMode::Immediate { .. } => Ok(()),
            AddressingMode::ZeroPage { .. } => Ok(()),
            AddressingMode::ZeroPageIndexedX { .. } => Ok(()),
            AddressingMode::Absolute { .. } => Ok(()),
            AddressingMode::AbsoluteIndexedX { .. } => Ok(()),
            _ => Err(CpuError::InvalidAddressingMode),
        }
    }

    pub fn check_data_store_address(&self, addressing_mode: &AddressingMode) -> (r: CpuResult)
        ensures
            r == check_result(is_store_mode(*addressing_mode)),
    {
        match addressing_mode {
            AddressingMode::ZeroPage { .. } => Ok(()),
            AddressingMode::ZeroPageIndexedX { .. } => Ok(()),
            AddressingMode::Absolute { .. } => Ok(()),
            AddressingMode::AbsoluteIndexedX { .. } => Ok(()),
            AddressingMode::AbsoluteIndexedY { .. } => Ok(()),
            AddressingMode::IndexedIndirect { .. } => Ok(()),
            AddressingMode::IndirectIndexed { .. } => Ok(()),
            _ => Err(CpuError::InvalidAddressingMode),
        }
    }
}

} // verus!
