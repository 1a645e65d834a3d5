use vstd::prelude::*;
use crate::bit_utils::{
    spec_high_byte, spec_low_byte, spec_word, two_bytes_to_word, two_complement, word_to_two_bytes,
};
use crate::instruction::AddressingMode;
use crate::math::signed;
use crate::memory::Memory;
use crate::mos6502cpu::{
    mode_has_address, CpuError, CpuResult, Mos6502Cpu, ProcessorStatus, INTERRUPT_HANDLERS_START,
};

verus! {

/// The addressing modes of JMP.
pub open spec fn is_jmp_mode(mode: AddressingMode) -> bool {
    mode is Indirect || mode is Absolute
}

impl<M: Memory> Mos6502Cpu<M> {
    /// Where a relative branch by `offset` (a signed byte) lands.
    pub open spec fn branch_target(&self, offset: u8) -> int {
        self.registers.pc + signed(offset)
    }

    /// A branch by `offset` stays within the 16-bit address space.
    pub open spec fn branch_safe(&self, offset: u8) -> bool {
        0 <= self.branch_target(offset) <= 0xFFFF
    }

    /// The processor after moving the program counter by `offset`; the
    /// page flag records whether the old and the new counter share a page.
    pub open spec fn spec_take_branch(self, offset: u8) -> Self {
        let target = self.branch_target(offset) as u16;
        Mos6502Cpu {
            page_crossed: spec_high_byte(self.registers.pc) == spec_high_byte(target),
            ..self.with_pc(target)
        }
    }

    /// A conditional branch: relative operand only; the branch is taken
    /// exactly when `condition` holds.
    pub open spec fn spec_branch(self, mode: AddressingMode, condition: bool) -> (Self, CpuResult) {
        match mode {
            AddressingMode::Relative { byte } => if condition {
                (self.spec_take_branch(byte), Ok(()))
            } else {
                (self, Ok(()))
            },
            _ => (self, Err(CpuError::InvalidAddressingMode)),
        }
    }

    /// A conditional branch cannot leave the address space.
    pub open spec fn branch_pre(&self, mode: AddressingMode, condition: bool) -> bool {
        match mode {
            AddressingMode::Relative { byte } => condition ==> self.branch_safe(byte),
            _ => true,
        }
    }

    /// The address of entry `index` of the interrupt vector table.
    pub open spec fn vector_address(index: u16) -> int {
        INTERRUPT_HANDLERS_START + index * 2
    }

    /// An interrupt: pushes the return address (PC + 1, high byte first)
    /// and the flags, then jumps through vector `index` with interrupts
    /// disabled.
    pub open spec fn spec_interruption(self, index: u16) -> Self {
        let return_address = (self.registers.pc + 1) as u16;
        let pushed = self.spec_push(spec_high_byte(return_address)).spec_push(
            spec_low_byte(return_address),
        ).spec_push(self.registers.p.spec_to_byte());
        let handler = spec_word(
            pushed.read((Self::vector_address(index) + 1) as u16),
            pushed.read(Self::vector_address(index) as u16),
        );
        pushed.with_pc(handler).with_flags(
            ProcessorStatus { interrupt_disable: true, ..pushed.registers.p },
        )
    }

    /// BRK: unless interrupts are disabled, sets the break flag and takes
    /// the IRQ/BRK vector.
    pub open spec fn spec_brk(self, mode: AddressingMode) -> (Self, CpuResult) {
        self.implicit_only(
            mode,
            if !self.registers.p.interrupt_disable {
                self.with_flags(ProcessorStatus { break_flag: true, ..self.registers.p }).spec_interruption(2)
            } else {
                self
            },
        )
    }

    /// RST: unless interrupts are disabled, takes the reset vector.
    pub open spec fn spec_rst(self, mode: AddressingMode) -> (Self, CpuResult) {
        self.implicit_only(
            mode,
            if !self.registers.p.interrupt_disable {
                self.spec_interruption(1)
            } else {
                self
            },
        )
    }

    /// JSR: pushes PC - 1 (high byte first) and jumps to the operand.
    pub open spec fn spec_jsr(self, mode: AddressingMode) -> (Self, CpuResult) {
        match mode {
            AddressingMode::Absolute { high_byte, low_byte } => {
                let return_address = (self.registers.pc - 1) as u16;
                (
                    self.spec_push(spec_high_byte(return_address)).spec_push(
                        spec_low_byte(return_address),
                    ).with_pc(spec_word(high_byte, low_byte)),
                    Ok(()),
                )
            },
            _ => (self, Err(CpuError::InvalidAddressingMode)),
        }
    }

    /// The word that two pulls return, low byte first.
    pub open spec fn spec_pulled_word(self) -> u16 {
        let low = self.spec_pulled();
        let after_low = self.spec_pull_state();
        spec_word(after_low.spec_pulled(), low)
    }

    /// RTI: pulls the flags, then the return address.
    pub open spec fn spec_rti(self) -> Self {
        let flags = ProcessorStatus::spec_from_byte(self.spec_pulled());
        let after_flags = self.spec_pull_state().with_flags(flags);
        after_flags.spec_pull_state().spec_pull_state().with_pc(after_flags.spec_pulled_word())
    }

    /// RTS: pulls the return address and continues after it.
    pub open spec fn spec_rts(self) -> Self {
        self.spec_pull_state().spec_pull_state().with_pc((self.spec_pulled_word() + 1) as u16)
    }

    /// RTS continues within the address space.
    pub open spec fn rts_pre(&self, mode: AddressingMode) -> bool {
        mode is Implicit ==> self.spec_pulled_word() < 0xFFFF
    }

    /// An interrupt's return address fits in 16 bits.
    pub open spec fn interrupt_pre(&self, mode: AddressingMode, taken: bool) -> bool {
        mode is Implicit && taken ==> self.registers.pc < 0xFFFF
    }

    pub fn execute_bcc(&mut self, addressing_mode: &AddressingMode) -> (r: CpuResult)
        requires
            old(self).branch_pre(*addressing_mode, !old(self).registers.p.carry),
        ensures
            (*final(self), r) == old(self).spec_branch(*addressing_mode, !old(self).registers.p.carry),
    {
        let offset = self.get_branch_offset(addressing_mode)?;
        if !self.registers.p.carry {
            self.update_pc_from_offset(offset);
        }
        Ok(())
    }

    pub fn execute_bcs(&mut self, addressing_mode: &AddressingMode) -> (r: CpuResult)
        requires
            old(self).branch_pre(*addressing_mode, old(self).registers.p.carry),
        ensures
            (*final(self), r) == old(self).spec_branch(*addressing_mode, old(self).registers.p.carry),
    {
        let offset = self.get_branch_offset(addressing_mode)?;
        if self.registers.p.carry {
            self.update_pc_from_offset(offset);
        }
        Ok(())
    }

    pub fn execute_beq(&mut self, addressing_mode: &AddressingMode) -> (r: CpuResult)
        requires
            old(self).branch_pre(*addressing_mode, old(self).registers.p.zero),
        ensures
            (*final(self), r) == old(self).spec_branch(*addressing_mode, old(self).registers.p.zero),
    {
        let offset = self.get_branch_offset(addressing_mode)?;
        if self.registers.p.zero {
            self.update_pc_from_offset(offset);
        }
        Ok(())
    }

    pub fn execute_bmi(&mut self, addressing_mode: &AddressingMode) -> (r: CpuResult)
        requires
            old(self).branch_pre(*addressing_mode, old(self).registers.p.negative),
        ensures
            (*final(self), r) == old(self).spec_branch(
                *addressing_mode,
                old(self).registers.p.negative,
            ),
    {
        let offset = self.get_branch_offset(addressing_mode)?;
        if self.registers.p.negative {
            self.update_pc_from_offset(offset);
        }
        Ok(())
    }

    pub fn execute_bne(&mut self, addressing_mode: &AddressingMode) -> (r: CpuResult)
        requires
            old(self).branch_pre(*addressing_mode, !old(self).registers.p.zero),
        ensures
            (*final(self), r) == old(self).spec_branch(*addressing_mode, !old(self).registers.p.zero),
    {
        let offset = self.get_branch_offset(addressing_mode)?;
        if !self.registers.p.zero {
            self.update_pc_from_offset(offset);
        }
        Ok(())
    }

    pub fn execute_bpl(&mut self, addressing_mode: &AddressingMode) -> (r: CpuResult)
        requires
            old(self).branch_pre(*addressing_mode, !old(self).registers.p.negative),
        ensures
            (*final(self), r) == old(self).spec_branch(
                *addressing_mode,
                !old(self).registers.p.negative,
            ),
    {
        let offset = self.get_branch_offset(addressing_mode)?;
        if !self.registers.p.negative {
            self.update_pc_from_offset(offset);
        }
        Ok(())
    }

    pub fn execute_brk(&mut self, addressing_mode: &AddressingMode) -> (r: CpuResult)
        requires
            old(self).interrupt_pre(*addressing_mode, !old(self).registers.p.interrupt_disable),
        ensures
            (*final(self), r) == old(self).spec_brk(*addressing_mode),
    {
        if let AddressingMode::Implicit = addressing_mode {
            if !self.registers.p.interrupt_disable {
                self.registers.p.break_flag = true;
                self.execute_interruption(2);
            }
            Ok(())
        } else {
            Err(CpuError::InvalidAddressingMode)
        }
    }

    pub fn execute_bvc(&mut self, addressing_mode: &AddressingMode) -> (r: CpuResult)
        requires
            old(self).branch_pre(*addressing_mode, !old(self).registers.p.overflow),
        ensures
            (*final(self), r) == old(self).spec_branch(
                *addressing_mode,
                !old(self).registers.p.overflow,
            ),
    {
        let offset = self.get_branch_offset(addressing_mode)?;
        if !self.registers.p.overflow {
            self.update_pc_from_offset(offset);
        }
        Ok(())
    }

    pub fn execute_bvs(&mut self, addressing_mode: &AddressingMode) -> (r: CpuResult)
        requires
            old(self).branch_pre(*addressing_mode, old(self).registers.p.overflow),
        ensures
            (*final(self), r) == old(self).spec_branch(
                *addressing_mode,
                old(self).registers.p.overflow,
            ),
    {
        let offset = self.get_branch_offset(addressing_mode)?;
        if self.registers.p.overflow {
            self.update_pc_from_offset(offset);
        }
        Ok(())
    }

    pub fn execute_jmp(&mut self, addressing_mode: &AddressingMode) -> (r: CpuResult)
        requires
            is_jmp_mode(*addressing_mode) ==> old(self).address_safe(*addressing_mode),
        ensures
            (*final(self), r) == old(self).checked(
                is_jmp_mode(*addressing_mode),
                (old(self).with_pc(old(self).mode_address(*addressing_mode) as u16), Ok(())),
            ),
    {
        self.check_jmp_address(addressing_mode)?;
        let address = self.get_address_from_addressing_mode(addressing_mode)?;
        self.registers.pc = address;
        Ok(())
    }

    pub fn execute_jsr(&mut self, addressing_mode: &AddressingMode) -> (r: CpuResult)
        requires
            *addressing_mode is Absolute ==> old(self).registers.pc >= 1,
        ensures
            (*final(self), r) == old(self).spec_jsr(*addressing_mode),
    {
        if let AddressingMode::Absolute { high_byte, low_byte } = addressing_mode {
            let address = two_bytes_to_word(*high_byte, *low_byte);
            let (low_byte, high_byte) = word_to_two_bytes(self.registers.pc - 1);
            self.push(high_byte);
            self.push(low_byte);
            self.registers.pc = address;
            Ok(())
        } else {
            Err(CpuError::InvalidAddressingMode)
        }
    }

    pub fn execute_nmi(&mut self, addressing_mode: &AddressingMode) -> (r: CpuResult)
        requires
            old(self).interrupt_pre(*addressing_mode, true),
        ensures
            (*final(self), r) == old(self).implicit_only(
                *addressing_mode,
                old(self).spec_interruption(0),
            ),
    {
        if let AddressingMode::Implicit = addressing_mode {
            self.execute_interruption(0);
            Ok(())
        } else {
            Err(CpuError::InvalidAddressingMode)
        }
    }

    pub fn execute_rst(&mut self, addressing_mode: &AddressingMode) -> (r: CpuResult)
        requires
            old(self).interrupt_pre(*addressing_mode, !old(self).registers.p.interrupt_disable),
        ensures
            (*final(self), r) == old(self).spec_rst(*addressing_mode),
    {
        if let AddressingMode::Implicit = addressing_mode {
            if !self.registers.p.interrupt_disable {
                self.execute_interruption(1);
            }
            Ok(())
        } else {
            Err(CpuError::InvalidAddressingMode)
        }
    }

    pub fn execute_rti(&mut self, addressing_mode: &AddressingMode) -> (r: CpuResult)
        ensures
            (*final(self), r) == old(self).implicit_only(*addressing_mode, old(self).spec_rti()),
    {
        if let AddressingMode::Implicit = addressing_mode {
            let status = self.pull();
            self.registers.p = ProcessorStatus::from_byte(status);
            let (low_byte, high_byte) = (self.pull(), self.pull());
            self.registers.pc = two_bytes_to_word(high_byte, low_byte);
            Ok(())
        } else {
            Err(CpuError::InvalidAddressingMode)
        }
    }

    pub fn execute_rts(&mut self, addressing_mode: &AddressingMode) -> (r: CpuResult)
        requires
            old(self).rts_pre(*addressing_mode),
        ensures
            (*final(self), r) == old(self).implicit_only(*addressing_mode, old(self).spec_rts()),
    {
        if let AddressingMode::Implicit = addressing_mode {
            let (low_byte, high_byte) = (self.pull(), self.pull());
            self.registers.pc = two_bytes_to_word(high_byte, low_byte) + 1;
            Ok(())
        } else {
            Err(CpuError::InvalidAddressingMode)
        }
    }

    /// Pushes the return address and the flags and jumps through the
    /// interrupt vector `index` (0: NMI, 1: RESET, 2: IRQ/BRK).
    fn execute_interruption(&mut self, index: u16)
        requires
            index <= 2,
            old(self).registers.pc < 0xFFFF,
        ensures
            *final(self) == old(self).spec_interruption(index),
    {
        let p_byte = self.registers.p.to_byte();
        let (low_byte, high_byte) = word_to_two_bytes(self.registers.pc + 1);
        self.push(high_byte);
        self.push(low_byte);
        self.push(p_byte);
        let high_byte = self.memory.get(INTERRUPT_HANDLERS_START + index * 2 + 1);
        let low_byte = self.memory.get(INTERRUPT_HANDLERS_START + index * 2);
        let handler = two_bytes_to_word(high_byte, low_byte);
        self.registers.pc = handler;
        self.registers.p.interrupt_disable = true;
    }

    fn get_branch_offset(&self, addressing_mode: &AddressingMode) -> (r: Result<u8, CpuError>)
        ensures
            match *addressing_mode {
                AddressingMode::Relative { byte } => r == Ok::<u8, CpuError>(byte),
                _ => r == Err::<u8, CpuError>(CpuError::InvalidAddressingMode),
            },
    {
        match addressing_mode {
            AddressingMode::Relative { byte } => Ok(*byte),
            _ => Err(CpuError::InvalidAddressingMode),
        }
    }

    fn update_pc_from_offset(&mut self, offset: u8)
        requires
            old(self).branch_safe(offset),
        ensures
            *final(self) == old(self).spec_take_branch(offset),
    {
        let pc = self.registers.pc;
        let new_pc = if offset & 0x80 == 0 {
            assert(offset < 0x80) by (bit_vector)
                requires
                    offset & 0x80 == 0,
            ;
            pc + offset as u16
        } else {
            assert(offset >= 0x80) by (bit_vector)
                requires
                    offset & 0x80 != 0,
            ;
            pc - two_complement(offset) as u16
        };
        self.update_page_crossed_status(pc, new_pc);
        self.registers.pc = new_pc;
    }

    pub fn check_jmp_address(&self, addressing_mode: &AddressingMode) -> (r: CpuResult)
        ensures
            r == crate::alu::check_result(is_jmp_mode(*addressing_mode)),
    {
        match addressing_mode {
            AddressingMode::Indirect { .. } => Ok(()),
            AddressingMode::Absolute { .. } => Ok(()),
            _ => Err(CpuError::InvalidAddressingMode),
        }
    }
}

} // verus!
