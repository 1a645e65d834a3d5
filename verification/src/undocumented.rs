use vstd::prelude::*;
use crate::bit_utils::{spec_high_byte, spec_two_complement, two_complement, word_to_two_bytes};
use crate::data_movement::is_store_mode;
use crate::instruction::AddressingMode;
use crate::memory::Memory;
use crate::mos6502cpu::{mode_has_value, CpuError, CpuResult, Mos6502Cpu, ProcessorStatus};

verus! {

/// The addressing modes of SAX.
pub open spec fn is_sax_mode(mode: AddressingMode) -> bool {
    mode is IndexedIndirect || mode is ZeroPage || mode is ZeroPageIndexedY || mode is Absolute
}

/// The addressing modes of LAX other than immediate.
pub open spec fn is_lax_memory_mode(mode: AddressingMode) -> bool {
    match mode {
        AddressingMode::ZeroPage { .. }
        | AddressingMode::ZeroPageIndexedY { .. }
        | AddressingMode::IndexedIndirect { .. }
        | AddressingMode::IndirectIndexed { .. }
        | AddressingMode::Absolute { .. }
        | AddressingMode::AbsoluteIndexedY { .. } => true,
        _ => false,
    }
}

/// Runs a second step on the state left by a first one, unless the first failed.
pub open spec fn then<M: Memory>(
    first: (Mos6502Cpu<M>, CpuResult),
    second: spec_fn(Mos6502Cpu<M>) -> (Mos6502Cpu<M>, CpuResult),
) -> (Mos6502Cpu<M>, CpuResult) {
    if first.1 is Ok {
        second(first.0)
    } else {
        first
    }
}

/// The second step of a sequence runs in a state where `safe` holds.
pub open spec fn then_safe<M: Memory>(
    first: (Mos6502Cpu<M>, CpuResult),
    safe: spec_fn(Mos6502Cpu<M>) -> bool,
) -> bool {
    first.1 is Ok ==> safe(first.0)
}

impl<M: Memory> Mos6502Cpu<M> {
    /// AHX/SHX/SHY: stores `register` ANDed with the high byte of the
    /// effective address.
    pub open spec fn spec_store_high_and(self, mode: AddressingMode, register: u8) -> (Self, CpuResult) {
        self.spec_store(mode, register & spec_high_byte(self.mode_address(mode) as u16))
    }

    pub open spec fn spec_ahx(self, mode: AddressingMode) -> (Self, CpuResult) {
        self.checked(
            mode is IndirectIndexed || mode is AbsoluteIndexedY,
            self.spec_store_high_and(mode, self.registers.x & self.registers.a),
        )
    }

    pub open spec fn spec_alr(self, mode: AddressingMode) -> (Self, CpuResult) {
        self.checked(
            mode is Immediate,
            then(self.spec_and_unchecked(mode), |s: Self| s.spec_lsr_unchecked(mode)),
        )
    }

    pub open spec fn spec_anc(self, mode: AddressingMode) -> (Self, CpuResult) {
        match mode {
            AddressingMode::Immediate { byte } => {
                let s = self.spec_and_unchecked(mode).0;
                (s.with_flags(ProcessorStatus { carry: byte >= 0x80, ..s.registers.p }), Ok(()))
            },
            _ => (self, Err(CpuError::InvalidAddressingMode)),
        }
    }

    pub open spec fn spec_arr(self, mode: AddressingMode) -> (Self, CpuResult) {
        self.checked(
            mode is Immediate,
            then(self.spec_and_unchecked(mode), |s: Self| s.spec_ror_unchecked(mode)),
        )
    }

    pub open spec fn spec_axs(self, mode: AddressingMode) -> (Self, CpuResult) {
        match mode {
            AddressingMode::Immediate { byte } => {
                let operand1 = self.registers.x & self.registers.a;
                let operand2 = spec_two_complement(byte);
                (
                    self.spec_compare(operand1, operand2).with_x(
                        ((operand1 - operand2 + 256) % 256) as u8,
                    ),
                    Ok(()),
                )
            },
            _ => (self, Err(CpuError::InvalidAddressingMode)),
        }
    }

    pub open spec fn spec_dcp(self, mode: AddressingMode) -> (Self, CpuResult) {
        self.checked(
            is_store_mode(mode),
            then(
                self.spec_dec_unchecked(mode),
                |s: Self| s.spec_compare_unchecked(s.registers.a, mode),
            ),
        )
    }

    pub open spec fn dcp_pre(self, mode: AddressingMode) -> bool {
        is_store_mode(mode) ==> self.mode_safe(mode) && then_safe(
            self.spec_dec_unchecked(mode),
            |s: Self| s.mode_safe(mode),
        )
    }

    pub open spec fn spec_isc(self, mode: AddressingMode) -> (Self, CpuResult) {
        self.checked(
            is_store_mode(mode),
            then(self.spec_inc_unchecked(mode), |s: Self| s.spec_sbc_unchecked(mode)),
        )
    }

    pub open spec fn isc_pre(self, mode: AddressingMode) -> bool {
        is_store_mode(mode) ==> self.mode_safe(mode) && then_safe(
            self.spec_inc_unchecked(mode),
            |s: Self| s.mode_safe(mode),
        )
    }

    pub open spec fn spec_las(self, mode: AddressingMode) -> (Self, CpuResult) {
        let answer = self.mode_value(mode) & self.registers.p.spec_to_byte();
        self.checked(
            mode is AbsoluteIndexedY,
            (self.with_x(answer).with_a(answer).with_flags(ProcessorStatus::spec_from_byte(answer)), Ok(())),
        )
    }

    pub open spec fn spec_lax(self, mode: AddressingMode) -> (Self, CpuResult) {
        if mode is Immediate {
            then(
                self.spec_lda_unchecked(mode),
                |s: Self| (s.with_x(s.registers.a).with_zn(s.registers.a), Ok(())),
            )
        } else {
            self.checked(
                is_lax_memory_mode(mode),
                then(self.spec_lda_unchecked(mode), |s: Self| s.spec_ldx_unchecked(mode)),
            )
        }
    }

    pub open spec fn spec_rla(self, mode: AddressingMode) -> (Self, CpuResult) {
        self.checked(
            is_store_mode(mode),
            then(self.spec_rol_unchecked(mode), |s: Self| s.spec_and_unchecked(mode)),
        )
    }

    pub open spec fn rla_pre(self, mode: AddressingMode) -> bool {
        is_store_mode(mode) ==> self.mode_safe(mode) && then_safe(
            self.spec_rol_unchecked(mode),
            |s: Self| s.mode_safe(mode),
        )
    }

    pub open spec fn spec_rra(self, mode: AddressingMode) -> (Self, CpuResult) {
        self.checked(
            is_store_mode(mode),
            then(self.spec_ror_unchecked(mode), |s: Self| s.spec_adc_unchecked(mode)),
        )
    }

    pub open spec fn rra_pre(self, mode: AddressingMode) -> bool {
        is_store_mode(mode) ==> self.mode_safe(mode) && then_safe(
            self.spec_ror_unchecked(mode),
            |s: Self| s.mode_safe(mode),
        )
    }

    pub open spec fn spec_slo(self, mode: AddressingMode) -> (Self, CpuResult) {
        self.checked(
            is_store_mode(mode),
            then(self.spec_asl_unchecked(mode), |s: Self| s.spec_ora_unchecked(mode)),
        )
    }

    pub open spec fn slo_pre(self, mode: AddressingMode) -> bool {
        is_store_mode(mode) ==> self.mode_safe(mode) && then_safe(
            self.spec_asl_unchecked(mode),
            |s: Self| s.mode_safe(mode),
        )
    }

    pub open spec fn spec_sre(self, mode: AddressingMode) -> (Self, CpuResult) {
        self.checked(
            is_store_mode(mode),
            then(self.spec_lsr_unchecked(mode), |s: Self| s.spec_eor_unchecked(mode)),
        )
    }

    pub open spec fn sre_pre(self, mode: AddressingMode) -> bool {
        is_store_mode(mode) ==> self.mode_safe(mode) && then_safe(
            self.spec_lsr_unchecked(mode),
            |s: Self| s.mode_safe(mode),
        )
    }

    pub open spec fn spec_tas(self, mode: AddressingMode) -> (Self, CpuResult) {
        self.checked(
            mode is AbsoluteIndexedY,
            self.with_flags(ProcessorStatus::spec_from_byte(self.registers.a & self.registers.x)).spec_ahx(mode),
        )
    }

    pub open spec fn spec_xaa(self, mode: AddressingMode) -> (Self, CpuResult) {
        self.checked(
            mode is Immediate,
            self.with_a(self.registers.x).with_zn(self.registers.x).spec_and_unchecked(mode),
        )
    }

    pub fn execute_ahx(&mut self, addressing_mode: &AddressingMode) -> (r: CpuResult)
        requires
            (*addressing_mode is IndirectIndexed || *addressing_mode is AbsoluteIndexedY) ==> old(self).mode_safe(*addressing_mode),
        ensures
            (*final(self), r) == old(self).spec_ahx(*addressing_mode),
    {
        match addressing_mode {
            AddressingMode::IndirectIndexed { .. } | AddressingMode::AbsoluteIndexedY { .. } => {
                let address = self.get_address_from_addressing_mode(addressing_mode)?;
                let (_, high_byte) = word_to_two_bytes(address);
                let answer = self.registers.x & self.registers.a & high_byte;
                self.set_value_to_addressing_mode(addressing_mode, answer)
            },
            _ => Err(CpuError::InvalidAddressingMode),
        }
    }

    pub fn execute_alr(&mut self, addressing_mode: &AddressingMode) -> (r: CpuResult)
        ensures
            (*final(self), r) == old(self).spec_alr(*addressing_mode),
    {
        if let AddressingMode::Immediate { .. } = addressing_mode {
            self.execute_and_unchecked(addressing_mode)?;
            self.execute_lsr_unchecked(addressing_mode)
        } else {
            Err(CpuError::InvalidAddressingMode)
        }
    }

    pub fn execute_anc(&mut self, addressing_mode: &AddressingMode) -> (r: CpuResult)
        ensures
            (*final(self), r) == old(self).spec_anc(*addressing_mode),
    {
        if let AddressingMode::Immediate { byte } = addressing_mode {
            let b: u8 = *byte;
            let future_carry = b & 0x80 > 0;
            assert(future_carry == (b >= 0x80)) by (bit_vector)
                requires
                    future_carry == (b & 0x80 > 0),
            ;
            self.execute_and_unchecked(addressing_mode)?;
            self.registers.p.carry = future_carry;
            Ok(())
        } else {
            Err(CpuError::InvalidAddressingMode)
        }
    }

    pub fn execute_arr(&mut self, addressing_mode: &AddressingMode) -> (r: CpuResult)
        ensures
            (*final(self), r) == old(self).spec_arr(*addressing_mode),
    {
        if let AddressingMode::Immediate { .. } = addressing_mode {
            self.execute_and_unchecked(addressing_mode)?;
            self.execute_ror_unchecked(addressing_mode)
        } else {
            Err(CpuError::InvalidAddressingMode)
        }
    }

    /// AXS: X becomes (A & X) minus the operand, flags as in a comparison.
    /// The operand is negated through a 16-bit intermediate that overflows
    /// for zero, so a zero operand is not accepted.
    pub fn execute_axs(&mut self, addressing_mode: &AddressingMode) -> (r: CpuResult)
        requires
            *addressing_mode matches AddressingMode::Immediate { byte } ==> byte != 0,
        ensures
            (*final(self), r) == old(self).spec_axs(*addressing_mode),
    {
        if let AddressingMode::Immediate { byte } = addressing_mode {
            let operand1 = self.registers.x & self.registers.a;
            let operand2 = two_complement(*byte);
            self.registers.x = self.compare(operand1, operand2);
            Ok(())
        } else {
            Err(CpuError::InvalidAddressingMode)
        }
    }

    pub fn execute_dcp(&mut self, addressing_mode: &AddressingMode) -> (r: CpuResult)
        requires
            old(self).dcp_pre(*addressing_mode),
        ensures
            (*final(self), r) == old(self).spec_dcp(*addressing_mode),
    {
        self.check_data_store_address(addressing_mode)?;
        self.execute_dec_unchecked(addressing_mode)?;
        self.execute_cmp_unchecked(addressing_mode)
    }

    pub fn execute_isc(&mut self, addressing_mode: &AddressingMode) -> (r: CpuResult)
        requires
            old(self).isc_pre(*addressing_mode),
        ensures
            (*final(self), r) == old(self).spec_isc(*addressing_mode),
    {
        self.check_data_store_address(addressing_mode)?;
        self.execute_inc_unchecked(addressing_mode)?;
        self.execute_sbc_unchecked(addressing_mode)
    }

    pub fn execute_las(&mut self, addressing_mode: &AddressingMode) -> (r: CpuResult)
        requires
            *addressing_mode is AbsoluteIndexedY ==> old(self).mode_safe(*addressing_mode),
        ensures
            (*final(self), r) == old(self).spec_las(*addressing_mode),
    {
        if let AddressingMode::AbsoluteIndexedY { .. } = addressing_mode {
            let value = self.get_value_from_addressing_mode(addressing_mode)?;
            let answer = value & self.registers.p.to_byte();
            self.registers.x = answer;
            self.registers.a = answer;
            self.registers.p = ProcessorStatus::from_byte(answer);
            Ok(())
        } else {
            Err(CpuError::InvalidAddressingMode)
        }
    }

    pub fn execute_lax(&mut self, addressing_mode: &AddressingMode) -> (r: CpuResult)
        requires
            is_lax_memory_mode(*addressing_mode) ==> old(self).mode_safe(*addressing_mode),
        ensures
            (*final(self), r) == old(self).spec_lax(*addressing_mode),
    {
        match addressing_mode {
            AddressingMode::Immediate { .. } => {
                self.execute_lda_unchecked(addressing_mode)?;
                self.execute_tax_unchecked();
                Ok(())
            },
            AddressingMode::ZeroPage { .. }
            | AddressingMode::ZeroPageIndexedY { .. }
            | AddressingMode::IndexedIndirect { .. }
            | AddressingMode::IndirectIndexed { .. }
            | AddressingMode::Absolute { .. }
            | AddressingMode::AbsoluteIndexedY { .. } => {
                self.execute_lda_unchecked(addressing_mode)?;
                self.execute_ldx_unchecked(addressing_mode)
            },
            _ => Err(CpuError::InvalidAddressingMode),
        }
    }

    pub fn execute_rla(&mut self, addressing_mode: &AddressingMode) -> (r: CpuResult)
        requires
            old(self).rla_pre(*addressing_mode),
        ensures
            (*final(self), r) == old(self).spec_rla(*addressing_mode),
    {
        self.check_data_store_address(addressing_mode)?;
        self.execute_rol_unchecked(addressing_mode)?;
        self.execute_and_unchecked(addressing_mode)
    }

    pub fn execute_rra(&mut self, addressing_mode: &AddressingMode) -> (r: CpuResult)
        requires
            old(self).rra_pre(*addressing_mode),
        ensures
            (*final(self), r) == old(self).spec_rra(*addressing_mode),
    {
        self.check_data_store_address(addressing_mode)?;
        self.execute_ror_unchecked(addressing_mode)?;
        self.execute_adc_unchecked(addressing_mode)
    }

    pub fn execute_sax(&mut self, addressing_mode: &AddressingMode) -> (r: CpuResult)
        ensures
            (*final(self), r) == old(self).checked(
                is_sax_mode(*addressing_mode),
                old(self).spec_store(*addressing_mode, old(self).registers.a & old(self).registers.x),
            ),
    {
        match addressing_mode {
            AddressingMode::IndexedIndirect { .. }
            | AddressingMode::ZeroPage { .. }
            | AddressingMode::ZeroPageIndexedY { .. }
            | AddressingMode::Absolute { .. } => {
                let answer = self.registers.a & self.registers.x;
                self.set_value_to_addressing_mode(addressing_mode, answer)
            },
            _ => Err(CpuError::InvalidAddressingMode),
        }
    }

    pub fn execute_shx(&mut self, addressing_mode: &AddressingMode) -> (r: CpuResult)
        requires
            *addressing_mode is AbsoluteIndexedY ==> old(self).mode_safe(*addressing_mode),
        ensures
            (*final(self), r) == old(self).checked(
                *addressing_mode is AbsoluteIndexedY,
                old(self).spec_store_high_and(*addressing_mode, old(self).registers.x),
            ),
    {
        if let AddressingMode::AbsoluteIndexedY { .. } = addressing_mode {
            let address = self.get_address_from_addressing_mode(addressing_mode)?;
            let (_, high_byte) = word_to_two_bytes(address);
            let answer = self.registers.x & high_byte;
            self.set_value_to_addressing_mode(addressing_mode, answer)
        } else {
            Err(CpuError::InvalidAddressingMode)
        }
    }

    pub fn execute_shy(&mut self, addressing_mode: &AddressingMode) -> (r: CpuResult)
        requires
            *addressing_mode is AbsoluteIndexedX ==> old(self).mode_safe(*addressing_mode),
        ensures
            (*final(self), r) == old(self).checked(
                *addressing_mode is AbsoluteIndexedX,
                old(self).spec_store_high_and(*addressing_mode, old(self).registers.y),
            ),
    {
        if let AddressingMode::AbsoluteIndexedX { .. } = addressing_mode {
            let address = self.get_address_from_addressing_mode(addressing_mode)?;
            let (_, high_byte) = word_to_two_bytes(address);
            let answer = self.registers.y & high_byte;
            self.set_value_to_addressing_mode(addressing_mode, answer)
        } else {
            Err(CpuError::InvalidAddressingMode)
        }
    }

    pub fn execute_slo(&mut self, addressing_mode: &AddressingMode) -> (r: CpuResult)
        requires
            old(self).slo_pre(*addressing_mode),
        ensures
            (*final(self), r) == old(self).spec_slo(*addressing_mode),
    {
        self.check_data_store_address(addressing_mode)?;
        self.execute_asl_unchecked(addressing_mode)?;
        self.execute_ora_unchecked(addressing_mode)
    }

    pub fn execute_sre(&mut self, addressing_mode: &AddressingMode) -> (r: CpuResult)
        requires
            old(self).sre_pre(*addressing_mode),
        ensures
            (*final(self), r) == old(self).spec_sre(*addressing_mode),
    {
        self.check_data_store_address(addressing_mode)?;
        self.execute_lsr_unchecked(addressing_mode)?;
        self.execute_eor_unchecked(addressing_mode)
    }

    pub fn execute_tas(&mut self, addressing_mode: &AddressingMode) -> (r: CpuResult)
        requires
            *addressing_mode is AbsoluteIndexedY ==> old(self).mode_safe(*addressing_mode),
        ensures
            (*final(self), r) == old(self).spec_tas(*addressing_mode),
    {
        if let AddressingMode::AbsoluteIndexedY { .. } = addressing_mode {
            self.registers.p = ProcessorStatus::from_byte(self.registers.a & self.registers.x);
            self.execute_ahx(addressing_mode)
        } else {
            Err(CpuError::InvalidAddressingMode)
        }
    }

    pub fn execute_xaa(&mut self, addressing_mode: &AddressingMode) -> (r: CpuResult)
        ensures
            (*final(self), r) == old(self).spec_xaa(*addressing_mode),
    {
        if let AddressingMode::Immediate { .. } = addressing_mode {
            self.execute_txa_unchecked();
            self.execute_and_unchecked(addressing_mode)
        } else {
            Err(CpuError::InvalidAddressingMode)
        }
    }
}

} // verus!
