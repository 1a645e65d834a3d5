use vstd::prelude::*;
use crate::alu::is_alu_mode;
use crate::branch::is_jmp_mode;
use crate::control::is_bit_mode;
use crate::data_movement::{
    is_load_x_indexed_mode, is_load_y_indexed_mode, is_stx_mode, is_store_mode, is_sty_mode,
};
use crate::data_shifting::{is_memory_shifting_mode, is_shifting_mode};
use crate::math::is_compare_mode;
use crate::undocumented::{is_lax_memory_mode, is_sax_mode};

verus! {

/// How an instruction finds its operand.
#[derive(Clone, Copy, Debug, PartialEq, Eq, Structural)]
pub enum AddressingMode {
    Implicit,
    Accumulator,
    Immediate { byte: u8 },
    ZeroPage { byte: u8 },
    Absolute { high_byte: u8, low_byte: u8 },
    Relative { byte: u8 },
    Indirect { high_byte: u8, low_byte: u8 },
    ZeroPageIndexedX { byte: u8 },
    ZeroPageIndexedY { byte: u8 },
    AbsoluteIndexedX { high_byte: u8, low_byte: u8 },
    AbsoluteIndexedY { high_byte: u8, low_byte: u8 },
    IndexedIndirect { byte: u8 },
    IndirectIndexed { byte: u8 },
}

/// The mnemonics understood by the emulator, documented and undocumented.
#[derive(Clone, Copy, Debug, PartialEq, Eq, Structural)]
pub enum Mos6502InstructionCode {
    Adc,
    Ahx,
    Alr,
    Anc,
    And,
    Arr,
    Asl,
    Axs,
    Bcc,
    Bcs,
    Beq,
    Bit,
    Bmi,
    Bne,
    Bpl,
    Brk,
    Bvc,
    Bvs,
    Clc,
    Cld,
    Cli,
    Clv,
    Cmp,
    Cpx,
    Cpy,
    Dcp,
    Dec,
    Dex,
    Dey,
    Eor,
    Inc,
    Inx,
    Iny,
    Irq,
    Isc,
    Jmp,
    Jsr,
    Lax,
    Las,
    Lda,
    Ldx,
    Ldy,
    Lsr,
    Nmi,
    Nop,
    Ora,
    Pha,
    Php,
    Pla,
    Plp,
    Rla,
    Rol,
    Ror,
    Rra,
    Rst,
    Rti,
    Rts,
    Sax,
    Sbc,
    Sec,
    Sed,
    Sei,
    Shy,
    Shx,
    Slo,
    Sre,
    Sta,
    Stx,
    Sty,
    Tas,
    Tax,
    Tay,
    Tsx,
    Txa,
    Txs,
    Tya,
    Xaa,
}

/// Why an instruction has no size or no cycle count.
#[derive(Clone, Copy, Debug, PartialEq, Eq, Structural)]
pub enum Mos6502InstructionError {
    InvalidAddressingMode {
        addressing_mode: AddressingMode,
        instruction_code: Mos6502InstructionCode,
    },
    NoSize { instruction_code: Mos6502InstructionCode },
    NoCycles { instruction_code: Mos6502InstructionCode },
}

/// How many cycles an instruction takes, possibly depending on whether a
/// branch is taken and whether a page boundary is crossed.
#[derive(Clone, Copy, Debug, PartialEq, Eq, Structural)]
pub enum Cycles {
    Single(u8),
    OneCondition { not_met: u8, met: u8 },
    TwoConditions { not_met: u8, first_met: u8, second_met: u8 },
}

/// A decoded instruction: a mnemonic and the addressing mode of its operand.
#[derive(Clone, Copy, Debug, PartialEq, Eq, Structural)]
pub struct Mos6502Instruction {
    pub instruction: Mos6502InstructionCode,
    pub addressing_mode: AddressingMode,
}

impl Mos6502Instruction {
    pub fn new(
        instruction: Mos6502InstructionCode,
        addressing_mode: AddressingMode,
    ) -> (r: Mos6502Instruction)
        ensures
            r.instruction == instruction,
            r.addressing_mode == addressing_mode,
    {
        Mos6502Instruction { instruction, addressing_mode }
    }
}


/// The number of operand bytes that follow the opcode for an addressing mode.
pub open spec fn operand_length(mode: AddressingMode) -> u8 {
    match mode {
        AddressingMode::Implicit | AddressingMode::Accumulator => 0,
        AddressingMode::Absolute { .. }
        | AddressingMode::Indirect { .. }
        | AddressingMode::AbsoluteIndexedX { .. }
        | AddressingMode::AbsoluteIndexedY { .. } => 2,
        _ => 1,
    }
}

/// The size of the instructions whose size does not depend on their
/// addressing mode.
pub open spec fn fixed_size(code: Mos6502InstructionCode) -> Option<u8> {
    match code {
        Mos6502InstructionCode::Brk | Mos6502InstructionCode::Clc | Mos6502InstructionCode::Cld
        | Mos6502InstructionCode::Cli | Mos6502InstructionCode::Clv | Mos6502InstructionCode::Dex
        | Mos6502InstructionCode::Dey | Mos6502InstructionCode::Inx | Mos6502InstructionCode::Iny
        | Mos6502InstructionCode::Nop | Mos6502InstructionCode::Pha | Mos6502InstructionCode::Php
        | Mos6502InstructionCode::Pla | Mos6502InstructionCode::Plp | Mos6502InstructionCode::Rti
        | Mos6502InstructionCode::Rts | Mos6502InstructionCode::Sec | Mos6502InstructionCode::Sed
        | Mos6502InstructionCode::Sei | Mos6502InstructionCode::Tax | Mos6502InstructionCode::Tay
        | Mos6502InstructionCode::Tsx | Mos6502InstructionCode::Txa | Mos6502InstructionCode::Txs
        | Mos6502InstructionCode::Tya => Some(1u8),
        Mos6502InstructionCode::Alr | Mos6502InstructionCode::Anc | Mos6502InstructionCode::Arr
        | Mos6502InstructionCode::Axs | Mos6502InstructionCode::Xaa | Mos6502InstructionCode::Bcc
        | Mos6502InstructionCode::Bcs | Mos6502InstructionCode::Beq | Mos6502InstructionCode::Bmi
        | Mos6502InstructionCode::Bne | Mos6502InstructionCode::Bpl | Mos6502InstructionCode::Bvc
        | Mos6502InstructionCode::Bvs => Some(2u8),
        Mos6502InstructionCode::Jsr | Mos6502InstructionCode::Las | Mos6502InstructionCode::Shx
        | Mos6502InstructionCode::Shy | Mos6502InstructionCode::Tas => Some(3u8),
        _ => None,
    }
}

/// The addressing modes that give the other instructions a size.
pub open spec fn size_modes(code: Mos6502InstructionCode, mode: AddressingMode) -> bool {
    match code {
        Mos6502InstructionCode::Adc | Mos6502InstructionCode::And | Mos6502InstructionCode::Cmp
        | Mos6502InstructionCode::Eor | Mos6502InstructionCode::Lda | Mos6502InstructionCode::Ora
        | Mos6502InstructionCode::Sbc => is_alu_mode(mode),
        Mos6502InstructionCode::Ahx => mode is AbsoluteIndexedY || mode is IndirectIndexed,
        Mos6502InstructionCode::Bit => is_bit_mode(mode),
        Mos6502InstructionCode::Cpx | Mos6502InstructionCode::Cpy => is_compare_mode(mode),
        Mos6502InstructionCode::Dcp | Mos6502InstructionCode::Isc | Mos6502InstructionCode::Rla
        | Mos6502InstructionCode::Rra | Mos6502InstructionCode::Slo | Mos6502InstructionCode::Sre
        | Mos6502InstructionCode::Sta => is_store_mode(mode),
        Mos6502InstructionCode::Dec | Mos6502InstructionCode::Inc => is_memory_shifting_mode(mode),
        Mos6502InstructionCode::Jmp => is_jmp_mode(mode),
        Mos6502InstructionCode::Lax => mode is Immediate || is_lax_memory_mode(mode),
        Mos6502InstructionCode::Ldx => is_load_y_indexed_mode(mode),
        Mos6502InstructionCode::Ldy => is_load_x_indexed_mode(mode),
        Mos6502InstructionCode::Asl | Mos6502InstructionCode::Lsr | Mos6502InstructionCode::Rol
        | Mos6502InstructionCode::Ror => is_shifting_mode(mode),
        Mos6502InstructionCode::Sax => is_sax_mode(mode),
        Mos6502InstructionCode::Stx => is_stx_mode(mode),
        Mos6502InstructionCode::Sty => is_sty_mode(mode),
        _ => false,
    }
}

impl Mos6502Instruction {
    /// The error for an addressing mode that this instruction does not take.
    pub open spec fn spec_invalid_addressing_mode(self) -> Mos6502InstructionError {
        Mos6502InstructionError::InvalidAddressingMode {
            addressing_mode: self.addressing_mode,
            instruction_code: self.instruction,
        }
    }

    /// One opcode byte plus its operand bytes when `ok`, an invalid
    /// addressing mode otherwise.
    pub open spec fn spec_sized(self, ok: bool) -> Result<u8, Mos6502InstructionError> {
        if ok {
            Ok((1 + operand_length(self.addressing_mode)) as u8)
        } else {
            Err(self.spec_invalid_addressing_mode())
        }
    }

    /// The size in bytes of the instruction: fixed for some mnemonics,
    /// otherwise one opcode byte plus the operand bytes of the mode;
    /// interrupts have none.
    pub open spec fn spec_size(self) -> Result<u8, Mos6502InstructionError> {
        match self.instruction {
            Mos6502InstructionCode::Irq | Mos6502InstructionCode::Nmi | Mos6502InstructionCode::Rst => Err(
                Mos6502InstructionError::NoSize { instruction_code: self.instruction },
            ),
            _ => match fixed_size(self.instruction) {
                Some(n) => Ok(n),
                None => self.spec_sized(size_modes(self.instruction, self.addressing_mode)),
            },
        }
    }

    pub open spec fn spec_alu_cycles(self) -> Result<Cycles, Mos6502InstructionError> {
        match self.addressing_mode {
            AddressingMode::Immediate { .. } => Ok(Cycles::Single(2)),
            AddressingMode::ZeroPage { .. } => Ok(Cycles::Single(3)),
            AddressingMode::ZeroPageIndexedX { .. } => Ok(Cycles::Single(4)),
            AddressingMode::IndexedIndirect { .. } => Ok(Cycles::Single(6)),
            AddressingMode::IndirectIndexed { .. } => Ok(Cycles::OneCondition { not_met: 5, met: 6 }),
            AddressingMode::Absolute { .. } => Ok(Cycles::Single(4)),
            AddressingMode::AbsoluteIndexedX { .. } => Ok(Cycles::OneCondition { not_met: 4, met: 5 }),
            AddressingMode::AbsoluteIndexedY { .. } => Ok(Cycles::OneCondition { not_met: 4, met: 5 }),
            _ => Err(self.spec_invalid_addressing_mode()),
        }
    }

    pub open spec fn spec_alu_accumulator_cycles(self) -> Result<Cycles, Mos6502InstructionError> {
        match self.addressing_mode {
            AddressingMode::ZeroPage { .. } => Ok(Cycles::Single(3)),
            AddressingMode::ZeroPageIndexedX { .. } => Ok(Cycles::Single(4)),
            AddressingMode::IndexedIndirect { .. } => Ok(Cycles::Single(6)),
            AddressingMode::IndirectIndexed { .. } => Ok(Cycles::Single(6)),
            AddressingMode::Absolute { .. } => Ok(Cycles::Single(4)),
            AddressingMode::AbsoluteIndexedX { .. } => Ok(Cycles::Single(5)),
            AddressingMode::AbsoluteIndexedY { .. } => Ok(Cycles::Single(5)),
            _ => Err(self.spec_invalid_addressing_mode()),
        }
    }

    pub open spec fn spec_unofficial_alu_accumulator_cycles(self) -> Result<Cycles, Mos6502InstructionError> {
        match self.addressing_mode {
            AddressingMode::ZeroPage { .. } => Ok(Cycles::Single(5)),
            AddressingMode::ZeroPageIndexedX { .. } => Ok(Cycles::Single(6)),
            AddressingMode::IndexedIndirect { .. } => Ok(Cycles::Single(8)),
            AddressingMode::IndirectIndexed { .. } => Ok(Cycles::Single(8)),
            AddressingMode::Absolute { .. } => Ok(Cycles::Single(6)),
            AddressingMode::AbsoluteIndexedX { .. } => Ok(Cycles::Single(7)),
            AddressingMode::AbsoluteIndexedY { .. } => Ok(Cycles::Single(7)),
            _ => Err(self.spec_invalid_addressing_mode()),
        }
    }

    pub open spec fn spec_data_movement_cycles(self) -> Result<Cycles, Mos6502InstructionError> {
        match self.addressing_mode {
            AddressingMode::Accumulator => Ok(Cycles::Single(2)),
            AddressingMode::ZeroPage { .. } => Ok(Cycles::Single(5)),
            AddressingMode::ZeroPageIndexedX { .. } => Ok(Cycles::Single(6)),
            AddressingMode::Absolute { .. } => Ok(Cycles::Single(6)),
            AddressingMode::AbsoluteIndexedX { .. } => Ok(Cycles::Single(7)),
            _ => Err(self.spec_invalid_addressing_mode()),
        }
    }

    /// The cycle count of the instruction, as listed in the 6502 tables.
    pub open spec fn spec_cycles(self) -> Result<Cycles, Mos6502InstructionError> {
        match self.instruction {
            Mos6502InstructionCode::Adc => self.spec_alu_cycles(),
            Mos6502InstructionCode::Ahx => Ok(Cycles::OneCondition { not_met: 5, met: 6 }),
            Mos6502InstructionCode::Alr => Ok(Cycles::Single(2)),
            Mos6502InstructionCode::Anc => Ok(Cycles::Single(2)),
            Mos6502InstructionCode::And => self.spec_alu_cycles(),
            Mos6502InstructionCode::Arr => Ok(Cycles::Single(2)),
            Mos6502InstructionCode::Asl => self.spec_data_movement_cycles(),
            Mos6502InstructionCode::Axs => Ok(Cycles::Single(2)),
            Mos6502InstructionCode::Bcc => Ok(Cycles::TwoConditions { not_met: 2, first_met: 3, second_met: 5 }),
            Mos6502InstructionCode::Bcs => Ok(Cycles::TwoConditions { not_met: 2, first_met: 3, second_met: 5 }),
            Mos6502InstructionCode::Beq => Ok(Cycles::TwoConditions { not_met: 2, first_met: 3, second_met: 5 }),
            Mos6502InstructionCode::Bit => match self.addressing_mode {
                AddressingMode::ZeroPage { .. } => Ok(Cycles::Single(3)),
                AddressingMode::Absolute { .. } => Ok(Cycles::Single(4)),
                _ => Err(self.spec_invalid_addressing_mode()),
            },
            Mos6502InstructionCode::Bmi => Ok(Cycles::TwoConditions { not_met: 2, first_met: 3, second_met: 5 }),
            Mos6502InstructionCode::Bne => Ok(Cycles::TwoConditions { not_met: 2, first_met: 3, second_met: 5 }),
            Mos6502InstructionCode::Bpl => Ok(Cycles::TwoConditions { not_met: 2, first_met: 3, second_met: 5 }),
            Mos6502InstructionCode::Brk => Ok(Cycles::Single(7)),
            Mos6502InstructionCode::Bvc => Ok(Cycles::TwoConditions { not_met: 2, first_met: 3, second_met: 5 }),
            Mos6502InstructionCode::Bvs => Ok(Cycles::TwoConditions { not_met: 2, first_met: 3, second_met: 5 }),
            Mos6502InstructionCode::Clc => Ok(Cycles::Single(2)),
            Mos6502InstructionCode::Cld => Ok(Cycles::Single(2)),
            Mos6502InstructionCode::Cli => Ok(Cycles::Single(2)),
            Mos6502InstructionCode::Clv => Ok(Cycles::Single(2)),
            Mos6502InstructionCode::Cmp => self.spec_alu_cycles(),
            Mos6502InstructionCode::Cpx => match self.addressing_mode {
                AddressingMode::Immediate { .. } => Ok(Cycles::Single(2)),
                AddressingMode::ZeroPage { .. } => Ok(Cycles::Single(3)),
                AddressingMode::Absolute { .. } => Ok(Cycles::Single(4)),
                _ => Err(self.spec_invalid_addressing_mode()),
            },
            Mos6502InstructionCode::Cpy => match self.addressing_mode {
                AddressingMode::Immediate { .. } => Ok(Cycles::Single(2)),
                AddressingMode::ZeroPage { .. } => Ok(Cycles::Single(3)),
                AddressingMode::Absolute { .. } => Ok(Cycles::Single(4)),
                _ => Err(self.spec_invalid_addressing_mode()),
            },
            Mos6502InstructionCode::Dec => match self.addressing_mode {
                AddressingMode::ZeroPage { .. } => Ok(Cycles::Single(5)),
                AddressingMode::ZeroPageIndexedX { .. } => Ok(Cycles::Single(6)),
                AddressingMode::Absolute { .. } => Ok(Cycles::Single(6)),
                AddressingMode::AbsoluteIndexedX { .. } => Ok(Cycles::Single(7)),
                _ => Err(self.spec_invalid_addressing_mode()),
            },
            Mos6502InstructionCode::Dcp => self.spec_unofficial_alu_accumulator_cycles(),
            Mos6502InstructionCode::Dex => Ok(Cycles::Single(2)),
            Mos6502InstructionCode::Dey => Ok(Cycles::Single(2)),
            Mos6502InstructionCode::Eor => self.spec_alu_cycles(),
            Mos6502InstructionCode::Inc => match self.addressing_mode {
                AddressingMode::ZeroPage { .. } => Ok(Cycles::Single(5)),
                AddressingMode::ZeroPageIndexedX { .. } => Ok(Cycles::Single(6)),
                AddressingMode::Absolute { .. } => Ok(Cycles::Single(6)),
                AddressingMode::AbsoluteIndexedX { .. } => Ok(Cycles::Single(7)),
                _ => Err(self.spec_invalid_addressing_mode()),
            },
            Mos6502InstructionCode::Inx => Ok(Cycles::Single(2)),
            Mos6502InstructionCode::Iny => Ok(Cycles::Single(2)),
            Mos6502InstructionCode::Irq => Ok(Cycles::Single(7)),
            Mos6502InstructionCode::Isc => self.spec_unofficial_alu_accumulator_cycles(),
            Mos6502InstructionCode::Jmp => match self.addressing_mode {
                AddressingMode::Indirect { .. } => Ok(Cycles::Single(5)),
                AddressingMode::Absolute { .. } => Ok(Cycles::Single(3)),
                _ => Err(self.spec_invalid_addressing_mode()),
            },
            Mos6502InstructionCode::Jsr => Ok(Cycles::Single(6)),
            Mos6502InstructionCode::Las => Ok(Cycles::OneCondition { not_met: 4, met: 5 }),
            Mos6502InstructionCode::Lax => match self.addressing_mode {
                AddressingMode::Immediate { .. } => Ok(Cycles::Single(2)),
                AddressingMode::ZeroPage { .. } => Ok(Cycles::Single(3)),
                AddressingMode::ZeroPageIndexedY { .. } => Ok(Cycles::Single(4)),
                AddressingMode::IndexedIndirect { .. } => Ok(Cycles::Single(6)),
                AddressingMode::IndirectIndexed { .. } => Ok(Cycles::OneCondition { not_met: 5, met: 6 }),
                AddressingMode::Absolute { .. } => Ok(Cycles::Single(4)),
                AddressingMode::AbsoluteIndexedY { .. } => Ok(Cycles::OneCondition { not_met: 4, met: 5 }),
                _ => Err(self.spec_invalid_addressing_mode()),
            },
            Mos6502InstructionCode::Lda => self.spec_alu_cycles(),
            Mos6502InstructionCode::Ldx => match self.addressing_mode {
                AddressingMode::Immediate { .. } => Ok(Cycles::Single(2)),
                AddressingMode::ZeroPage { .. } => Ok(Cycles::Single(3)),
                AddressingMode::ZeroPageIndexedY { .. } => Ok(Cycles::Single(4)),
                AddressingMode::Absolute { .. } => Ok(Cycles::Single(4)),
                AddressingMode::AbsoluteIndexedY { .. } => Ok(Cycles::OneCondition { not_met: 4, met: 5 }),
                _ => Err(self.spec_invalid_addressing_mode()),
            },
            Mos6502InstructionCode::Ldy => match self.addressing_mode {
                AddressingMode::Immediate { .. } => Ok(Cycles::Single(2)),
                AddressingMode::ZeroPage { .. } => Ok(Cycles::Single(3)),
                AddressingMode::ZeroPageIndexedX { .. } => Ok(Cycles::Single(4)),
                AddressingMode::Absolute { .. } => Ok(Cycles::Single(4)),
                AddressingMode::AbsoluteIndexedX { .. } => Ok(Cycles::OneCondition { not_met: 4, met: 5 }),
                _ => Err(self.spec_invalid_addressing_mode()),
            },
            Mos6502InstructionCode::Lsr => self.spec_data_movement_cycles(),
            Mos6502InstructionCode::Nmi => Ok(Cycles::Single(7)),
            Mos6502InstructionCode::Nop => match self.addressing_mode {
                AddressingMode::Immediate { .. } => Ok(Cycles::Single(2)),
                AddressingMode::Implicit => Ok(Cycles::Single(2)),
                AddressingMode::ZeroPage { .. } => Ok(Cycles::Single(3)),
                AddressingMode::ZeroPageIndexedX { .. } => Ok(Cycles::Single(4)),
                AddressingMode::Absolute { .. } => Ok(Cycles::Single(4)),
                AddressingMode::AbsoluteIndexedX { .. } => Ok(Cycles::OneCondition { not_met: 4, met: 5 }),
                _ => Err(self.spec_invalid_addressing_mode()),
            },
            Mos6502InstructionCode::Ora => self.spec_alu_cycles(),
            Mos6502InstructionCode::Pha => Ok(Cycles::Single(3)),
            Mos6502InstructionCode::Php => Ok(Cycles::Single(3)),
            Mos6502InstructionCode::Pla => Ok(Cycles::Single(4)),
            Mos6502InstructionCode::Plp => Ok(Cycles::Single(4)),
            Mos6502InstructionCode::Rla => self.spec_unofficial_alu_accumulator_cycles(),
            Mos6502InstructionCode::Rol => self.spec_data_movement_cycles(),
            Mos6502InstructionCode::Ror => self.spec_data_movement_cycles(),
            Mos6502InstructionCode::Rra => self.spec_unofficial_alu_accumulator_cycles(),
            Mos6502InstructionCode::Rst => Ok(Cycles::Single(7)),
            Mos6502InstructionCode::Rti => Ok(Cycles::Single(6)),
            Mos6502InstructionCode::Rts => Ok(Cycles::Single(6)),
            Mos6502InstructionCode::Sax => match self.addressing_mode {
                AddressingMode::IndexedIndirect { .. } => Ok(Cycles::Single(6)),
                AddressingMode::ZeroPage { .. } => Ok(Cycles::Single(3)),
                AddressingMode::ZeroPageIndexedY { .. } => Ok(Cycles::Single(4)),
                AddressingMode::Absolute { .. } => Ok(Cycles::Single(4)),
                _ => Err(self.spec_invalid_addressing_mode()),
            },
            Mos6502InstructionCode::Sbc => self.spec_alu_cycles(),
            Mos6502InstructionCode::Sec => Ok(Cycles::Single(2)),
            Mos6502InstructionCode::Sed => Ok(Cycles::Single(2)),
            Mos6502InstructionCode::Sei => Ok(Cycles::Single(2)),
            Mos6502InstructionCode::Shy => Ok(Cycles::Single(5)),
            Mos6502InstructionCode::Shx => Ok(Cycles::Single(5)),
            Mos6502InstructionCode::Slo => self.spec_unofficial_alu_accumulator_cycles(),
            Mos6502InstructionCode::Sre => self.spec_unofficial_alu_accumulator_cycles(),
            Mos6502InstructionCode::Sta => self.spec_alu_accumulator_cycles(),
            Mos6502InstructionCode::Stx => match self.addressing_mode {
                AddressingMode::ZeroPage { .. } => Ok(Cycles::Single(3)),
                AddressingMode::ZeroPageIndexedY { .. } => Ok(Cycles::Single(4)),
                AddressingMode::Absolute { .. } => Ok(Cycles::Single(4)),
                _ => Err(self.spec_invalid_addressing_mode()),
            },
            Mos6502InstructionCode::Sty => match self.addressing_mode {
                AddressingMode::ZeroPage { .. } => Ok(Cycles::Single(3)),
                AddressingMode::ZeroPageIndexedX { .. } => Ok(Cycles::Single(4)),
                AddressingMode::Absolute { .. } => Ok(Cycles::Single(4)),
                _ => Err(self.spec_invalid_addressing_mode()),
            },
            Mos6502InstructionCode::Tas => Ok(Cycles::Single(5)),
            Mos6502InstructionCode::Tax => Ok(Cycles::Single(2)),
            Mos6502InstructionCode::Tay => Ok(Cycles::Single(2)),
            Mos6502InstructionCode::Tsx => Ok(Cycles::Single(2)),
            Mos6502InstructionCode::Txa => Ok(Cycles::Single(2)),
            Mos6502InstructionCode::Txs => Ok(Cycles::Single(2)),
            Mos6502InstructionCode::Tya => Ok(Cycles::Single(2)),
            Mos6502InstructionCode::Xaa => Ok(Cycles::Single(2)),
        }
    }

    fn invalid_addressing_mode(&self) -> (r: Mos6502InstructionError)
        ensures
            r == self.spec_invalid_addressing_mode(),
    {
        Mos6502InstructionError::InvalidAddressingMode {
            addressing_mode: self.addressing_mode,
            instruction_code: self.instruction,
        }
    }

    fn alu_size(&self) -> (r: Result<u8, Mos6502InstructionError>)
        ensures
            r == self.spec_sized(is_alu_mode(self.addressing_mode)),
    {
        match self.addressing_mode {
            AddressingMode::Immediate { .. } => Ok(2),
            AddressingMode::ZeroPage { .. } => Ok(2),
            AddressingMode::ZeroPageIndexedX { .. } => Ok(2),
            AddressingMode::IndexedIndirect { .. } => Ok(2),
            AddressingMode::IndirectIndexed { .. } => Ok(2),
            AddressingMode::Absolute { .. } => Ok(3),
            AddressingMode::AbsoluteIndexedX { .. } => Ok(3),
            AddressingMode::AbsoluteIndexedY { .. } => Ok(3),
            _ => Err(self.invalid_addressing_mode()),
        }
    }

    fn alu_accumulator_size(&self) -> (r: Result<u8, Mos6502InstructionError>)
        ensures
            r == self.spec_sized(is_store_mode(self.addressing_mode)),
    {
        match self.addressing_mode {
            AddressingMode::ZeroPage { .. } => Ok(2),
            AddressingMode::ZeroPageIndexedX { .. } => Ok(2),
            AddressingMode::IndexedIndirect { .. } => Ok(2),
            AddressingMode::IndirectIndexed { .. } => Ok(2),
            AddressingMode::Absolute { .. } => Ok(3),
            AddressingMode::AbsoluteIndexedX { .. } => Ok(3),
            AddressingMode::AbsoluteIndexedY { .. } => Ok(3),
            _ => Err(self.invalid_addressing_mode()),
        }
    }

    fn data_movement_size(&self) -> (r: Result<u8, Mos6502InstructionError>)
        ensures
            r == self.spec_sized(is_shifting_mode(self.addressing_mode)),
    {
        match self.addressing_mode {
            AddressingMode::Accumulator => Ok(1),
            AddressingMode::ZeroPage { .. } => Ok(2),
            AddressingMode::ZeroPageIndexedX { .. } => Ok(2),
            AddressingMode::Absolute { .. } => Ok(3),
            AddressingMode::AbsoluteIndexedX { .. } => Ok(3),
            _ => Err(self.invalid_addressing_mode()),
        }
    }

    fn alu_cycles(&self) -> (r: Result<Cycles, Mos6502InstructionError>)
        ensures
            r == self.spec_alu_cycles(),
    {
        match self.addressing_mode {
            AddressingMode::Immediate { .. } => Ok(Cycles::Single(2)),
            AddressingMode::ZeroPage { .. } => Ok(Cycles::Single(3)),
            AddressingMode::ZeroPageIndexedX { .. } => Ok(Cycles::Single(4)),
            AddressingMode::IndexedIndirect { .. } => Ok(Cycles::Single(6)),
            AddressingMode::IndirectIndexed { .. } => Ok(Cycles::OneCondition { not_met: 5, met: 6 }),
            AddressingMode::Absolute { .. } => Ok(Cycles::Single(4)),
            AddressingMode::AbsoluteIndexedX { .. } => Ok(Cycles::OneCondition { not_met: 4, met: 5 }),
            AddressingMode::AbsoluteIndexedY { .. } => Ok(Cycles::OneCondition { not_met: 4, met: 5 }),
            _ => Err(self.invalid_addressing_mode()),
        }
    }

    fn alu_accumulator_cycles(&self) -> (r: Result<Cycles, Mos6502InstructionError>)
        ensures
            r == self.spec_alu_accumulator_cycles(),
    {
        match self.addressing_mode {
            AddressingMode::ZeroPage { .. } => Ok(Cycles::Single(3)),
            AddressingMode::ZeroPageIndexedX { .. } => Ok(Cycles::Single(4)),
            AddressingMode::IndexedIndirect { .. } => Ok(Cycles::Single(6)),
            AddressingMode::IndirectIndexed { .. } => Ok(Cycles::Single(6)),
            AddressingMode::Absolute { .. } => Ok(Cycles::Single(4)),
            AddressingMode::AbsoluteIndexedX { .. } => Ok(Cycles::Single(5)),
            AddressingMode::AbsoluteIndexedY { .. } => Ok(Cycles::Single(5)),
            _ => Err(self.invalid_addressing_mode()),
        }
    }

    fn unofficial_alu_accumulator_cycles(&self) -> (r: Result<Cycles, Mos6502InstructionError>)
        ensures
            r == self.spec_unofficial_alu_accumulator_cycles(),
    {
        match self.addressing_mode {
            AddressingMode::ZeroPage { .. } => Ok(Cycles::Single(5)),
            AddressingMode::ZeroPageIndexedX { .. } => Ok(Cycles::Single(6)),
            AddressingMode::IndexedIndirect { .. } => Ok(Cycles::Single(8)),
            AddressingMode::IndirectIndexed { .. } => Ok(Cycles::Single(8)),
            AddressingMode::Absolute { .. } => Ok(Cycles::Single(6)),
            AddressingMode::AbsoluteIndexedX { .. } => Ok(Cycles::Single(7)),
            AddressingMode::AbsoluteIndexedY { .. } => Ok(Cycles::Single(7)),
            _ => Err(self.invalid_addressing_mode()),
        }
    }

    fn data_movement_cycles(&self) -> (r: Result<Cycles, Mos6502InstructionError>)
        ensures
            r == self.spec_data_movement_cycles(),
    {
        match self.addressing_mode {
            AddressingMode::Accumulator => Ok(Cycles::Single(2)),
            AddressingMode::ZeroPage { .. } => Ok(Cycles::Single(5)),
            AddressingMode::ZeroPageIndexedX { .. } => Ok(Cycles::Single(6)),
            AddressingMode::Absolute { .. } => Ok(Cycles::Single(6)),
            AddressingMode::AbsoluteIndexedX { .. } => Ok(Cycles::Single(7)),
            _ => Err(self.invalid_addressing_mode()),
        }
    }

    pub fn size(&self) -> (r: Result<u8, Mos6502InstructionError>)
        ensures
            r == self.spec_size(),
    {
        match self.instruction {
            Mos6502InstructionCode::Adc => self.alu_size(),
            Mos6502InstructionCode::Ahx => match self.addressing_mode {
                AddressingMode::AbsoluteIndexedY { .. } => Ok(3),
                AddressingMode::IndirectIndexed { .. } => Ok(2),
                _ => Err(self.invalid_addressing_mode()),
            },
            Mos6502InstructionCode::Alr => Ok(2),
            Mos6502InstructionCode::Anc => Ok(2),
            Mos6502InstructionCode::And => self.alu_size(),
            Mos6502InstructionCode::Arr => Ok(2),
            Mos6502InstructionCode::Asl => self.data_movement_size(),
            Mos6502InstructionCode::Axs => Ok(2),
            Mos6502InstructionCode::Bcc => Ok(2),
            Mos6502InstructionCode::Bcs => Ok(2),
            Mos6502InstructionCode::Beq => Ok(2),
            Mos6502InstructionCode::Bit => match self.addressing_mode {
                AddressingMode::ZeroPage { .. } => Ok(2),
                AddressingMode::Absolute { .. } => Ok(3),
                _ => Err(self.invalid_addressing_mode()),
            },
            Mos6502InstructionCode::Bmi => Ok(2),
            Mos6502InstructionCode::Bne => Ok(2),
            Mos6502InstructionCode::Bpl => Ok(2),
            Mos6502InstructionCode::Brk => Ok(1),
            Mos6502InstructionCode::Bvc => Ok(2),
            Mos6502InstructionCode::Bvs => Ok(2),
            Mos6502InstructionCode::Clc => Ok(1),
            Mos6502InstructionCode::Cld => Ok(1),
            Mos6502InstructionCode::Cli => Ok(1),
            Mos6502InstructionCode::Clv => Ok(1),
            Mos6502InstructionCode::Cmp => self.alu_size(),
            Mos6502InstructionCode::Cpx => match self.addressing_mode {
                AddressingMode::Immediate { .. } => Ok(2),
                AddressingMode::ZeroPage { .. } => Ok(2),
                AddressingMode::Absolute { .. } => Ok(3),
                _ => Err(self.invalid_addressing_mode()),
            },
            Mos6502InstructionCode::Cpy => match self.addressing_mode {
                AddressingMode::Immediate { .. } => Ok(2),
                AddressingMode::ZeroPage { .. } => Ok(2),
                AddressingMode::Absolute { .. } => Ok(3),
                _ => Err(self.invalid_addressing_mode()),
            },
            Mos6502InstructionCode::Dcp => self.alu_accumulator_size(),
            Mos6502InstructionCode::Dec => match self.addressing_mode {
                AddressingMode::ZeroPage { .. } => Ok(2),
                AddressingMode::ZeroPageIndexedX { .. } => Ok(2),
                AddressingMode::Absolute { .. } => Ok(3),
                AddressingMode::AbsoluteIndexedX { .. } => Ok(3),
                _ => Err(self.invalid_addressing_mode()),
            },
            Mos6502InstructionCode::Dex => Ok(1),
            Mos6502InstructionCode::Dey => Ok(1),
            Mos6502InstructionCode::Eor => self.alu_size(),
            Mos6502InstructionCode::Inc => match self.addressing_mode {
                AddressingMode::ZeroPage { .. } => Ok(2),
                AddressingMode::ZeroPageIndexedX { .. } => Ok(2),
                AddressingMode::Absolute { .. } => Ok(3),
                AddressingMode::AbsoluteIndexedX { .. } => Ok(3),
                _ => Err(self.invalid_addressing_mode()),
            },
            Mos6502InstructionCode::Inx => Ok(1),
            Mos6502InstructionCode::Iny => Ok(1),
            Mos6502InstructionCode::Irq => Err(Mos6502InstructionError::NoSize { instruction_code: Mos6502InstructionCode::Irq, }),
            Mos6502InstructionCode::Isc => self.alu_accumulator_size(),
            Mos6502InstructionCode::Jmp => match self.addressing_mode {
                AddressingMode::Indirect { .. } => Ok(3),
                AddressingMode::Absolute { .. } => Ok(3),
                _ => Err(self.invalid_addressing_mode()),
            },
            Mos6502InstructionCode::Jsr => Ok(3),
            Mos6502InstructionCode::Las => Ok(3),
            Mos6502InstructionCode::Lax => match self.addressing_mode {
                AddressingMode::Immediate { .. } => Ok(2),
                AddressingMode::ZeroPage { .. } => Ok(2),
                AddressingMode::ZeroPageIndexedY { .. } => Ok(2),
                AddressingMode::IndexedIndirect { .. } => Ok(2),
                AddressingMode::IndirectIndexed { .. } => Ok(2),
                AddressingMode::Absolute { .. } => Ok(3),
                AddressingMode::AbsoluteIndexedY { .. } => Ok(3),
                _ => Err(self.invalid_addressing_mode()),
            },
            Mos6502InstructionCode::Lda => self.alu_size(),
            Mos6502InstructionCode::Ldx => match self.addressing_mode {
                AddressingMode::Immediate { .. } => Ok(2),
                AddressingMode::ZeroPage { .. } => Ok(2),
                AddressingMode::ZeroPageIndexedY { .. } => Ok(2),
                AddressingMode::Absolute { .. } => Ok(3),
                AddressingMode::AbsoluteIndexedY { .. } => Ok(3),
                _ => Err(self.invalid_addressing_mode()),
            },
            Mos6502InstructionCode::Ldy => match self.addressing_mode {
                AddressingMode::Immediate { .. } => Ok(2),
                AddressingMode::ZeroPage { .. } => Ok(2),
                AddressingMode::ZeroPageIndexedX { .. } => Ok(2),
                AddressingMode::Absolute { .. } => Ok(3),
                AddressingMode::AbsoluteIndexedX { .. } => Ok(3),
                _ => Err(self.invalid_addressing_mode()),
            },
            Mos6502InstructionCode::Lsr => self.data_movement_size(),
            Mos6502InstructionCode::Nmi => Err(Mos6502InstructionError::NoSize { instruction_code: Mos6502InstructionCode::Nmi, }),
            Mos6502InstructionCode::Nop => Ok(1),
            Mos6502InstructionCode::Ora => self.alu_size(),
            Mos6502InstructionCode::Pha => Ok(1),
            Mos6502InstructionCode::Php => Ok(1),
            Mos6502InstructionCode::Pla => Ok(1),
            Mos6502InstructionCode::Plp => Ok(1),
            Mos6502InstructionCode::Rla => self.alu_accumulator_size(),
            Mos6502InstructionCode::Rol => self.data_movement_size(),
            Mos6502InstructionCode::Ror => self.data_movement_size(),
            Mos6502InstructionCode::Rra => self.alu_accumulator_size(),
            Mos6502InstructionCode::Rst => Err(Mos6502InstructionError::NoSize { instruction_code: Mos6502InstructionCode::Rst, }),
            Mos6502InstructionCode::Rti => Ok(1),
            Mos6502InstructionCode::Rts => Ok(1),
            Mos6502InstructionCode::Sax => match self.addressing_mode {
                AddressingMode::IndexedIndirect { .. } => Ok(2),
                AddressingMode::ZeroPage { .. } => Ok(2),
                AddressingMode::ZeroPageIndexedY { .. } => Ok(2),
                AddressingMode::Absolute { .. } => Ok(3),
                _ => Err(self.invalid_addressing_mode()),
            },
            Mos6502InstructionCode::Sbc => self.alu_size(),
            Mos6502InstructionCode::Sec => Ok(1),
            Mos6502InstructionCode::Sed => Ok(1),
            Mos6502InstructionCode::Sei => Ok(1),
            Mos6502InstructionCode::Shx => Ok(3),
            Mos6502InstructionCode::Shy => Ok(3),
            Mos6502InstructionCode::Slo => self.alu_accumulator_size(),
            Mos6502InstructionCode::Sre => self.alu_accumulator_size(),
            Mos6502InstructionCode::Sta => self.alu_accumulator_size(),
            Mos6502InstructionCode::Stx => match self.addressing_mode {
                AddressingMode::ZeroPage { .. } => Ok(2),
                AddressingMode::ZeroPageIndexedY { .. } => Ok(2),
                AddressingMode::Absolute { .. } => Ok(3),
                _ => Err(self.invalid_addressing_mode()),
            },
            Mos6502InstructionCode::Sty => match self.addressing_mode {
                AddressingMode::ZeroPage { .. } => Ok(2),
                AddressingMode::ZeroPageIndexedX { .. } => Ok(2),
                AddressingMode::Absolute { .. } => Ok(3),
                _ => Err(self.invalid_addressing_mode()),
            },
            Mos6502InstructionCode::Tas => Ok(3),
            Mos6502InstructionCode::Tax => Ok(1),
            Mos6502InstructionCode::Tay => Ok(1),
            Mos6502InstructionCode::Tsx => Ok(1),
            Mos6502InstructionCode::Txa => Ok(1),
            Mos6502InstructionCode::Txs => Ok(1),
            Mos6502InstructionCode::Tya => Ok(1),
            Mos6502InstructionCode::Xaa => Ok(2),
        }
    }

    pub fn get_cycles(&self) -> (r: Result<Cycles, Mos6502InstructionError>)
        ensures
            r == self.spec_cycles(),
    {
        match self.instruction {
            Mos6502InstructionCode::Adc => self.alu_cycles(),
            Mos6502InstructionCode::Ahx => Ok(Cycles::OneCondition { not_met: 5, met: 6 }),
            Mos6502InstructionCode::Alr => Ok(Cycles::Single(2)),
            Mos6502InstructionCode::Anc => Ok(Cycles::Single(2)),
            Mos6502InstructionCode::And => self.alu_cycles(),
            Mos6502InstructionCode::Arr => Ok(Cycles::Single(2)),
            Mos6502InstructionCode::Asl => self.data_movement_cycles(),
            Mos6502InstructionCode::Axs => Ok(Cycles::Single(2)),
            Mos6502InstructionCode::Bcc => Ok(Cycles::TwoConditions { not_met: 2, first_met: 3, second_met: 5 }),
            Mos6502InstructionCode::Bcs => Ok(Cycles::TwoConditions { not_met: 2, first_met: 3, second_met: 5 }),
            Mos6502InstructionCode::Beq => Ok(Cycles::TwoConditions { not_met: 2, first_met: 3, second_met: 5 }),
            Mos6502InstructionCode::Bit => match self.addressing_mode {
                AddressingMode::ZeroPage { .. } => Ok(Cycles::Single(3)),
                AddressingMode::Absolute { .. } => Ok(Cycles::Single(4)),
                _ => Err(self.invalid_addressing_mode()),
            },
            Mos6502InstructionCode::Bmi => Ok(Cycles::TwoConditions { not_met: 2, first_met: 3, second_met: 5 }),
            Mos6502InstructionCode::Bne => Ok(Cycles::TwoConditions { not_met: 2, first_met: 3, second_met: 5 }),
            Mos6502InstructionCode::Bpl => Ok(Cycles::TwoConditions { not_met: 2, first_met: 3, second_met: 5 }),
            Mos6502InstructionCode::Brk => Ok(Cycles::Single(7)),
            Mos6502InstructionCode::Bvc => Ok(Cycles::TwoConditions { not_met: 2, first_met: 3, second_met: 5 }),
            Mos6502InstructionCode::Bvs => Ok(Cycles::TwoConditions { not_met: 2, first_met: 3, second_met: 5 }),
            Mos6502InstructionCode::Clc => Ok(Cycles::Single(2)),
            Mos6502InstructionCode::Cld => Ok(Cycles::Single(2)),
            Mos6502InstructionCode::Cli => Ok(Cycles::Single(2)),
            Mos6502InstructionCode::Clv => Ok(Cycles::Single(2)),
            Mos6502InstructionCode::Cmp => self.alu_cycles(),
            Mos6502InstructionCode::Cpx => match self.addressing_mode {
                AddressingMode::Immediate { .. } => Ok(Cycles::Single(2)),
                AddressingMode::ZeroPage { .. } => Ok(Cycles::Single(3)),
                AddressingMode::Absolute { .. } => Ok(Cycles::Single(4)),
                _ => Err(self.invalid_addressing_mode()),
            },
            Mos6502InstructionCode::Cpy => match self.addressing_mode {
                AddressingMode::Immediate { .. } => Ok(Cycles::Single(2)),
                AddressingMode::ZeroPage { .. } => Ok(Cycles::Single(3)),
                AddressingMode::Absolute { .. } => Ok(Cycles::Single(4)),
                _ => Err(self.invalid_addressing_mode()),
            },
            Mos6502InstructionCode::Dec => match self.addressing_mode {
                AddressingMode::ZeroPage { .. } => Ok(Cycles::Single(5)),
                AddressingMode::ZeroPageIndexedX { .. } => Ok(Cycles::Single(6)),
                AddressingMode::Absolute { .. } => Ok(Cycles::Single(6)),
                AddressingMode::AbsoluteIndexedX { .. } => Ok(Cycles::Single(7)),
                _ => Err(self.invalid_addressing_mode()),
            },
            Mos6502InstructionCode::Dcp => self.unofficial_alu_accumulator_cycles(),
            Mos6502InstructionCode::Dex => Ok(Cycles::Single(2)),
            Mos6502InstructionCode::Dey => Ok(Cycles::Single(2)),
            Mos6502InstructionCode::Eor => self.alu_cycles(),
            Mos6502InstructionCode::Inc => match self.addressing_mode {
                AddressingMode::ZeroPage { .. } => Ok(Cycles::Single(5)),
                AddressingMode::ZeroPageIndexedX { .. } => Ok(Cycles::Single(6)),
                AddressingMode::Absolute { .. } => Ok(Cycles::Single(6)),
                AddressingMode::AbsoluteIndexedX { .. } => Ok(Cycles::Single(7)),
                _ => Err(self.invalid_addressing_mode()),
            },
            Mos6502InstructionCode::Inx => Ok(Cycles::Single(2)),
            Mos6502InstructionCode::Iny => Ok(Cycles::Single(2)),
            Mos6502InstructionCode::Irq => Ok(Cycles::Single(7)),
            Mos6502InstructionCode::Isc => self.unofficial_alu_accumulator_cycles(),
            Mos6502InstructionCode::Jmp => match self.addressing_mode {
                AddressingMode::Indirect { .. } => Ok(Cycles::Single(5)),
                AddressingMode::Absolute { .. } => Ok(Cycles::Single(3)),
                _ => Err(self.invalid_addressing_mode()),
            },
            Mos6502InstructionCode::Jsr => Ok(Cycles::Single(6)),
            Mos6502InstructionCode::Las => Ok(Cycles::OneCondition { not_met: 4, met: 5 }),
            Mos6502InstructionCode::Lax => match self.addressing_mode {
                AddressingMode::Immediate { .. } => Ok(Cycles::Single(2)),
                AddressingMode::ZeroPage { .. } => Ok(Cycles::Single(3)),
                AddressingMode::ZeroPageIndexedY { .. } => Ok(Cycles::Single(4)),
                AddressingMode::IndexedIndirect { .. } => Ok(Cycles::Single(6)),
                AddressingMode::IndirectIndexed { .. } => Ok(Cycles::OneCondition { not_met: 5, met: 6 }),
                AddressingMode::Absolute { .. } => Ok(Cycles::Single(4)),
                AddressingMode::AbsoluteIndexedY { .. } => Ok(Cycles::OneCondition { not_met: 4, met: 5 }),
                _ => Err(self.invalid_addressing_mode()),
            },
            Mos6502InstructionCode::Lda => self.alu_cycles(),
            Mos6502InstructionCode::Ldx => match self.addressing_mode {
                AddressingMode::Immediate { .. } => Ok(Cycles::Single(2)),
                AddressingMode::ZeroPage { .. } => Ok(Cycles::Single(3)),
                AddressingMode::ZeroPageIndexedY { .. } => Ok(Cycles::Single(4)),
                AddressingMode::Absolute { .. } => Ok(Cycles::Single(4)),
                AddressingMode::AbsoluteIndexedY { .. } => Ok(Cycles::OneCondition { not_met: 4, met: 5 }),
                _ => Err(self.invalid_addressing_mode()),
            },
            Mos6502InstructionCode::Ldy => match self.addressing_mode {
                AddressingMode::Immediate { .. } => Ok(Cycles::Single(2)),
                AddressingMode::ZeroPage { .. } => Ok(Cycles::Single(3)),
                AddressingMode::ZeroPageIndexedX { .. } => Ok(Cycles::Single(4)),
                AddressingMode::Absolute { .. } => Ok(Cycles::Single(4)),
                AddressingMode::AbsoluteIndexedX { .. } => Ok(Cycles::OneCondition { not_met: 4, met: 5 }),
                _ => Err(self.invalid_addressing_mode()),
            },
            Mos6502InstructionCode::Lsr => self.data_movement_cycles(),
            Mos6502InstructionCode::Nmi => Ok(Cycles::Single(7)),
            Mos6502InstructionCode::Nop => match self.addressing_mode {
                AddressingMode::Immediate { .. } => Ok(Cycles::Single(2)),
                AddressingMode::Implicit => Ok(Cycles::Single(2)),
                AddressingMode::ZeroPage { .. } => Ok(Cycles::Single(3)),
                AddressingMode::ZeroPageIndexedX { .. } => Ok(Cycles::Single(4)),
                AddressingMode::Absolute { .. } => Ok(Cycles::Single(4)),
                AddressingMode::AbsoluteIndexedX { .. } => Ok(Cycles::OneCondition { not_met: 4, met: 5 }),
                _ => Err(self.invalid_addressing_mode()),
            },
            Mos6502InstructionCode::Ora => self.alu_cycles(),
            Mos6502InstructionCode::Pha => Ok(Cycles::Single(3)),
            Mos6502InstructionCode::Php => Ok(Cycles::Single(3)),
            Mos6502InstructionCode::Pla => Ok(Cycles::Single(4)),
            Mos6502InstructionCode::Plp => Ok(Cycles::Single(4)),
            Mos6502InstructionCode::Rla => self.unofficial_alu_accumulator_cycles(),
            Mos6502InstructionCode::Rol => self.data_movement_cycles(),
            Mos6502InstructionCode::Ror => self.data_movement_cycles(),
            Mos6502InstructionCode::Rra => self.unofficial_alu_accumulator_cycles(),
            Mos6502InstructionCode::Rst => Ok(Cycles::Single(7)),
            Mos6502InstructionCode::Rti => Ok(Cycles::Single(6)),
            Mos6502InstructionCode::Rts => Ok(Cycles::Single(6)),
            Mos6502InstructionCode::Sax => match self.addressing_mode {
                AddressingMode::IndexedIndirect { .. } => Ok(Cycles::Single(6)),
                AddressingMode::ZeroPage { .. } => Ok(Cycles::Single(3)),
                AddressingMode::ZeroPageIndexedY { .. } => Ok(Cycles::Single(4)),
                AddressingMode::Absolute { .. } => Ok(Cycles::Single(4)),
                _ => Err(self.invalid_addressing_mode()),
            },
            Mos6502InstructionCode::Sbc => self.alu_cycles(),
            Mos6502InstructionCode::Sec => Ok(Cycles::Single(2)),
            Mos6502InstructionCode::Sed => Ok(Cycles::Single(2)),
            Mos6502InstructionCode::Sei => Ok(Cycles::Single(2)),
            Mos6502InstructionCode::Shy => Ok(Cycles::Single(5)),
            Mos6502InstructionCode::Shx => Ok(Cycles::Single(5)),
            Mos6502InstructionCode::Slo => self.unofficial_alu_accumulator_cycles(),
            Mos6502InstructionCode::Sre => self.unofficial_alu_accumulator_cycles(),
            Mos6502InstructionCode::Sta => self.alu_accumulator_cycles(),
            Mos6502InstructionCode::Stx => match self.addressing_mode {
                AddressingMode::ZeroPage { .. } => Ok(Cycles::Single(3)),
                AddressingMode::ZeroPageIndexedY { .. } => Ok(Cycles::Single(4)),
                AddressingMode::Absolute { .. } => Ok(Cycles::Single(4)),
                _ => Err(self.invalid_addressing_mode()),
            },
            Mos6502InstructionCode::Sty => match self.addressing_mode {
                AddressingMode::ZeroPage { .. } => Ok(Cycles::Single(3)),
                AddressingMode::ZeroPageIndexedX { .. } => Ok(Cycles::Single(4)),
                AddressingMode::Absolute { .. } => Ok(Cycles::Single(4)),
                _ => Err(self.invalid_addressing_mode()),
            },
            Mos6502InstructionCode::Tas => Ok(Cycles::Single(5)),
            Mos6502InstructionCode::Tax => Ok(Cycles::Single(2)),
            Mos6502InstructionCode::Tay => Ok(Cycles::Single(2)),
            Mos6502InstructionCode::Tsx => Ok(Cycles::Single(2)),
            Mos6502InstructionCode::Txa => Ok(Cycles::Single(2)),
            Mos6502InstructionCode::Txs => Ok(Cycles::Single(2)),
            Mos6502InstructionCode::Tya => Ok(Cycles::Single(2)),
            Mos6502InstructionCode::Xaa => Ok(Cycles::Single(2)),
        }
    }
}


/// The mnemonic in row `aaa` of a table of eight.
pub open spec fn code_at(aaa: u8, row: Seq<Mos6502InstructionCode>) -> Mos6502InstructionCode {
    row[aaa as int]
}

/// Opcodes whose two low bits are `01`: the arithmetic and logic group,
/// mnemonic chosen by bits 7-5, addressing mode by bits 4-2.
pub open spec fn decode_group_one(aaa: u8, bbb: u8, b1: u8, b2: u8) -> Mos6502Instruction {
    let mode = if bbb == 0 {
        AddressingMode::IndexedIndirect { byte: b1 }
    } else if bbb == 1 {
        AddressingMode::ZeroPage { byte: b1 }
    } else if bbb == 2 {
        AddressingMode::Immediate { byte: b1 }
    } else if bbb == 3 {
        AddressingMode::Absolute { high_byte: b2, low_byte: b1 }
    } else if bbb == 4 {
        AddressingMode::IndirectIndexed { byte: b1 }
    } else if bbb == 5 {
        AddressingMode::ZeroPageIndexedX { byte: b1 }
    } else if bbb == 6 {
        AddressingMode::AbsoluteIndexedY { high_byte: b2, low_byte: b1 }
    } else {
        AddressingMode::AbsoluteIndexedX { high_byte: b2, low_byte: b1 }
    };
    let code = if aaa == 4 && bbb == 2 {
        // there is no immediate STA: the opcode is a two-byte NOP
        Mos6502InstructionCode::Nop
    } else {
        code_at(
            aaa,
            seq![
                Mos6502InstructionCode::Ora,
                Mos6502InstructionCode::And,
                Mos6502InstructionCode::Eor,
                Mos6502InstructionCode::Adc,
                Mos6502InstructionCode::Sta,
                Mos6502InstructionCode::Lda,
                Mos6502InstructionCode::Cmp,
                Mos6502InstructionCode::Sbc,
            ],
        )
    };
    Mos6502Instruction { instruction: code, addressing_mode: mode }
}

/// The one-byte NOP that unassigned opcodes decode to.
pub open spec fn implicit_nop() -> Mos6502Instruction {
    Mos6502Instruction {
        instruction: Mos6502InstructionCode::Nop,
        addressing_mode: AddressingMode::Implicit,
    }
}

/// Opcodes whose two low bits are `10`: shifts, X-register loads and
/// stores, increments and decrements.
pub open spec fn decode_group_two(aaa: u8, bbb: u8, b1: u8, b2: u8) -> Mos6502Instruction {
    let row = seq![
        Mos6502InstructionCode::Asl,
        Mos6502InstructionCode::Rol,
        Mos6502InstructionCode::Lsr,
        Mos6502InstructionCode::Ror,
        Mos6502InstructionCode::Stx,
        Mos6502InstructionCode::Ldx,
        Mos6502InstructionCode::Dec,
        Mos6502InstructionCode::Inc,
    ];
    let code = code_at(aaa, row);
    let uses_y = aaa == 4 || aaa == 5;
    if bbb == 0 {
        if aaa == 4 || aaa == 6 || aaa == 7 {
            Mos6502Instruction {
                instruction: Mos6502InstructionCode::Nop,
                addressing_mode: AddressingMode::Immediate { byte: b1 },
            }
        } else if aaa == 5 {
            Mos6502Instruction {
                instruction: Mos6502InstructionCode::Ldx,
                addressing_mode: AddressingMode::Immediate { byte: b1 },
            }
        } else {
            implicit_nop()
        }
    } else if bbb == 1 {
        Mos6502Instruction { instruction: code, addressing_mode: AddressingMode::ZeroPage { byte: b1 } }
    } else if bbb == 2 {
        if aaa < 4 {
            Mos6502Instruction { instruction: code, addressing_mode: AddressingMode::Accumulator }
        } else {
            Mos6502Instruction {
                instruction: code_at(
                    (aaa - 4) as u8,
                    seq![
                        Mos6502InstructionCode::Txa,
                        Mos6502InstructionCode::Tax,
                        Mos6502InstructionCode::Dex,
                        Mos6502InstructionCode::Nop,
                    ],
                ),
                addressing_mode: AddressingMode::Implicit,
            }
        }
    } else if bbb == 3 {
        Mos6502Instruction {
            instruction: code,
            addressing_mode: AddressingMode::Absolute { high_byte: b2, low_byte: b1 },
        }
    } else if bbb == 4 {
        implicit_nop()
    } else if bbb == 5 {
        Mos6502Instruction {
            instruction: code,
            addressing_mode: if uses_y {
                AddressingMode::ZeroPageIndexedY { byte: b1 }
            } else {
                AddressingMode::ZeroPageIndexedX { byte: b1 }
            },
        }
    } else if bbb == 6 {
        Mos6502Instruction {
            instruction: if aaa == 4 {
                Mos6502InstructionCode::Txs
            } else if aaa == 5 {
                Mos6502InstructionCode::Tsx
            } else {
                Mos6502InstructionCode::Nop
            },
            addressing_mode: AddressingMode::Implicit,
        }
    } else if aaa == 4 {
        implicit_nop()
    } else {
        Mos6502Instruction {
            instruction: code,
            addressing_mode: if uses_y {
                AddressingMode::AbsoluteIndexedY { high_byte: b2, low_byte: b1 }
            } else {
                AddressingMode::AbsoluteIndexedX { high_byte: b2, low_byte: b1 }
            },
        }
    }
}

/// Opcodes whose two low bits are `00`: control flow, flags, Y-register
/// loads and stores, comparisons with X and Y.
pub open spec fn decode_group_zero(aaa: u8, bbb: u8, b1: u8, b2: u8) -> Mos6502Instruction {
    let nop = Mos6502InstructionCode::Nop;
    if bbb == 0 {
        if aaa == 0 {
            Mos6502Instruction { instruction: Mos6502InstructionCode::Brk, addressing_mode: AddressingMode::Implicit }
        } else if aaa == 1 {
            Mos6502Instruction {
                instruction: Mos6502InstructionCode::Jsr,
                addressing_mode: AddressingMode::Absolute { high_byte: b2, low_byte: b1 },
            }
        } else if aaa == 2 {
            Mos6502Instruction { instruction: Mos6502InstructionCode::Rti, addressing_mode: AddressingMode::Implicit }
        } else if aaa == 3 {
            Mos6502Instruction { instruction: Mos6502InstructionCode::Rts, addressing_mode: AddressingMode::Implicit }
        } else {
            Mos6502Instruction {
                instruction: code_at(
                    (aaa - 4) as u8,
                    seq![nop, Mos6502InstructionCode::Ldy, Mos6502InstructionCode::Cpy, Mos6502InstructionCode::Cpx],
                ),
                addressing_mode: AddressingMode::Immediate { byte: b1 },
            }
        }
    } else if bbb == 1 {
        Mos6502Instruction {
            instruction: code_at(
                aaa,
                seq![nop, Mos6502InstructionCode::Bit, nop, nop, Mos6502InstructionCode::Sty,
                    Mos6502InstructionCode::Ldy, Mos6502InstructionCode::Cpy, Mos6502InstructionCode::Cpx],
            ),
            addressing_mode: AddressingMode::ZeroPage { byte: b1 },
        }
    } else if bbb == 2 {
        Mos6502Instruction {
            instruction: code_at(
                aaa,
                seq![Mos6502InstructionCode::Php, Mos6502InstructionCode::Plp, Mos6502InstructionCode::Pha,
                    Mos6502InstructionCode::Pla, Mos6502InstructionCode::Dey, Mos6502InstructionCode::Tay,
                    Mos6502InstructionCode::Iny, Mos6502InstructionCode::Inx],
            ),
            addressing_mode: AddressingMode::Implicit,
        }
    } else if bbb == 3 {
        Mos6502Instruction {
            instruction: code_at(
                aaa,
                seq![nop, Mos6502InstructionCode::Bit, Mos6502InstructionCode::Jmp, Mos6502InstructionCode::Jmp,
                    Mos6502InstructionCode::Sty, Mos6502InstructionCode::Ldy, Mos6502InstructionCode::Cpy,
                    Mos6502InstructionCode::Cpx],
            ),
            addressing_mode: if aaa == 3 {
                AddressingMode::Indirect { high_byte: b2, low_byte: b1 }
            } else {
                AddressingMode::Absolute { high_byte: b2, low_byte: b1 }
            },
        }
    } else if bbb == 4 {
        Mos6502Instruction {
            instruction: code_at(
                aaa,
                seq![Mos6502InstructionCode::Bpl, Mos6502InstructionCode::Bmi, Mos6502InstructionCode::Bvc,
                    Mos6502InstructionCode::Bvs, Mos6502InstructionCode::Bcc, Mos6502InstructionCode::Bcs,
                    Mos6502InstructionCode::Bne, Mos6502InstructionCode::Beq],
            ),
            addressing_mode: AddressingMode::Relative { byte: b1 },
        }
    } else if bbb == 5 {
        Mos6502Instruction {
            instruction: code_at(
                aaa,
                seq![nop, nop, nop, nop, Mos6502InstructionCode::Sty, Mos6502InstructionCode::Ldy, nop, nop],
            ),
            addressing_mode: AddressingMode::ZeroPageIndexedX { byte: b1 },
        }
    } else if bbb == 6 {
        Mos6502Instruction {
            instruction: code_at(
                aaa,
                seq![Mos6502InstructionCode::Clc, Mos6502InstructionCode::Sec, Mos6502InstructionCode::Cli,
                    Mos6502InstructionCode::Sei, Mos6502InstructionCode::Tya, Mos6502InstructionCode::Clv,
                    Mos6502InstructionCode::Cld, Mos6502InstructionCode::Sed],
            ),
            addressing_mode: AddressingMode::Implicit,
        }
    } else if aaa == 4 {
        implicit_nop()
    } else {
        Mos6502Instruction {
            instruction: if aaa == 5 { Mos6502InstructionCode::Ldy } else { nop },
            addressing_mode: AddressingMode::AbsoluteIndexedX { high_byte: b2, low_byte: b1 },
        }
    }
}

/// The instruction that an opcode and the two bytes after it encode, read
/// through the `aaabbbcc` layout of the 6502 opcode byte.
pub open spec fn spec_decode(opcode: u8, b1: u8, b2: u8) -> Mos6502Instruction {
    let aaa = opcode / 32;
    let bbb = (opcode / 4) % 8;
    let cc = opcode % 4;
    if cc == 1 {
        decode_group_one(aaa, bbb, b1, b2)
    } else if cc == 2 {
        decode_group_two(aaa, bbb, b1, b2)
    } else if cc == 0 {
        decode_group_zero(aaa, bbb, b1, b2)
    } else if opcode == 0xEB {
        Mos6502Instruction {
            instruction: Mos6502InstructionCode::Sbc,
            addressing_mode: AddressingMode::Immediate { byte: b1 },
        }
    } else {
        implicit_nop()
    }
}

/// The byte at `index`, or zero past the end.
pub open spec fn byte_or_zero(bytes: Seq<u8>, index: int) -> u8 {
    if 0 <= index < bytes.len() {
        bytes[index]
    } else {
        0
    }
}

/// The instruction that `bytes` start with.
pub open spec fn spec_decode_bytes(bytes: Seq<u8>) -> Mos6502Instruction {
    spec_decode(bytes[0], byte_or_zero(bytes, 1), byte_or_zero(bytes, 2))
}

/// `bytes` hold a whole instruction: the opcode and all of its operand bytes.
pub open spec fn holds_instruction(bytes: Seq<u8>) -> bool {
    &&& bytes.len() >= 1
    &&& bytes.len() >= 1 + operand_length(spec_decode(bytes[0], 0, 0).addressing_mode)
}

impl Mos6502Instruction {
    /// Decodes the instruction at the start of `bytes`.
    #[verifier::rlimit(100)]
    pub fn from(bytes: Vec<u8>) -> (r: Mos6502Instruction)
        requires
            holds_instruction(bytes@),
        ensures
            r == spec_decode_bytes(bytes@),
    {
        match bytes[0] {
            0x00 => Mos6502Instruction {
                instruction: Mos6502InstructionCode::Brk,
                addressing_mode: AddressingMode::Implicit,
            },
            0x01 => Mos6502Instruction {
                instruction: Mos6502InstructionCode::Ora,
                addressing_mode: AddressingMode::IndexedIndirect { byte: bytes[1] },
            },
            0x04 => Mos6502Instruction {
                instruction: Mos6502InstructionCode::Nop,
                addressing_mode: AddressingMode::ZeroPage { byte: bytes[1] },
            },
            0x05 => Mos6502Instruction {
                instruction: Mos6502InstructionCode::Ora,
                addressing_mode: AddressingMode::ZeroPage { byte: bytes[1] },
            },
            0x06 => Mos6502Instruction {
                instruction: Mos6502InstructionCode::Asl,
                addressing_mode: AddressingMode::ZeroPage { byte: bytes[1] },
            },
            0x08 => Mos6502Instruction {
                instruction: Mos6502InstructionCode::Php,
                addressing_mode: AddressingMode::Implicit,
            },
            0x09 => Mos6502Instruction {
                instruction: Mos6502InstructionCode::Ora,
                addressing_mode: AddressingMode::Immediate { byte: bytes[1] },
            },
            0x0A => Mos6502Instruction {
                instruction: Mos6502InstructionCode::Asl,
                addressing_mode: AddressingMode::Accumulator,
            },
            0x0C => Mos6502Instruction {
                instruction: Mos6502InstructionCode::Nop,
                addressing_mode: AddressingMode::Absolute {
                    low_byte: bytes[1],
                    high_byte: bytes[2],
                },
            },
            0x0D => Mos6502Instruction {
                instruction: Mos6502InstructionCode::Ora,
                addressing_mode: AddressingMode::Absolute {
                    low_byte: bytes[1],
                    high_byte: bytes[2],
                },
            },
            0x0E => Mos6502Instruction {
                instruction: Mos6502InstructionCode::Asl,
                addressing_mode: AddressingMode::Absolute {
                    low_byte: bytes[1],
                    high_byte: bytes[2],
                },
            },
            0x10 => Mos6502Instruction {
                instruction: Mos6502InstructionCode::Bpl,
                addressing_mode: AddressingMode::Relative { byte: bytes[1] },
            },
            0x11 => Mos6502Instruction {
                instruction: Mos6502InstructionCode::Ora,
                addressing_mode: AddressingMode::IndirectIndexed { byte: bytes[1] },
            },
            0x14 => Mos6502Instruction {
                instruction: Mos6502InstructionCode::Nop,
                addressing_mode: AddressingMode::ZeroPageIndexedX { byte: bytes[1] },
            },
            0x15 => Mos6502Instruction {
                instruction: Mos6502InstructionCode::Ora,
                addressing_mode: AddressingMode::ZeroPageIndexedX { byte: bytes[1] },
            },
            0x16 => Mos6502Instruction {
                instruction: Mos6502InstructionCode::Asl,
                addressing_mode: AddressingMode::ZeroPageIndexedX { byte: bytes[1] },
            },
            0x18 => Mos6502Instruction {
                instruction: Mos6502InstructionCode::Clc,
                addressing_mode: AddressingMode::Implicit,
            },
            0x19 => Mos6502Instruction {
                instruction: Mos6502InstructionCode::Ora,
                addressing_mode: AddressingMode::AbsoluteIndexedY {
                    low_byte: bytes[1],
                    high_byte: bytes[2],
                },
            },
            0x1A => Mos6502Instruction {
                instruction: Mos6502InstructionCode::Nop,
                addressing_mode: AddressingMode::Implicit,
            },
            0x1C => Mos6502Instruction {
                instruction: Mos6502InstructionCode::Nop,
                addressing_mode: AddressingMode::AbsoluteIndexedX {
                    low_byte: bytes[1],
                    high_byte: bytes[2],
                },
            },
            0x1D => Mos6502Instruction {
                instruction: Mos6502InstructionCode::Ora,
                addressing_mode: AddressingMode::AbsoluteIndexedX {
                    low_byte: bytes[1],
                    high_byte: bytes[2],
                },
            },
            0x1E => Mos6502Instruction {
                instruction: Mos6502InstructionCode::Asl,
                addressing_mode: AddressingMode::AbsoluteIndexedX {
                    low_byte: bytes[1],
                    high_byte: bytes[2],
                },
            },
            0x20 => Mos6502Instruction {
                instruction: Mos6502InstructionCode::Jsr,
                addressing_mode: AddressingMode::Absolute {
                    low_byte: bytes[1],
                    high_byte: bytes[2],
                },
            },
            0x21 => Mos6502Instruction {
                instruction: Mos6502InstructionCode::And,
                addressing_mode: AddressingMode::IndexedIndirect { byte: bytes[1] },
            },
            0x24 => Mos6502Instruction {
                instruction: Mos6502InstructionCode::Bit,
                addressing_mode: AddressingMode::ZeroPage { byte: bytes[1] },
            },
            0x25 => Mos6502Instruction {
                instruction: Mos6502InstructionCode::And,
                addressing_mode: AddressingMode::ZeroPage { byte: bytes[1] },
            },
            0x26 => Mos6502Instruction {
                instruction: Mos6502InstructionCode::Rol,
                addressing_mode: AddressingMode::ZeroPage { byte: bytes[1] },
            },
            0x28 => Mos6502Instruction {
                instruction: Mos6502InstructionCode::Plp,
                addressing_mode: AddressingMode::Implicit,
            },
            0x29 => Mos6502Instruction {
                instruction: Mos6502InstructionCode::And,
                addressing_mode: AddressingMode::Immediate { byte: bytes[1] },
            },
            0x2A => Mos6502Instruction {
                instruction: Mos6502InstructionCode::Rol,
                addressing_mode: AddressingMode::Accumulator,
            },
            0x2C => Mos6502Instruction {
                instruction: Mos6502InstructionCode::Bit,
                addressing_mode: AddressingMode::Absolute {
                    low_byte: bytes[1],
                    high_byte: bytes[2],
                },
            },
            0x2D => Mos6502Instruction {
                instruction: Mos6502InstructionCode::And,
                addressing_mode: AddressingMode::Absolute {
                    low_byte: bytes[1],
                    high_byte: bytes[2],
                },
            },
            0x2E => Mos6502Instruction {
                instruction: Mos6502InstructionCode::Rol,
                addressing_mode: AddressingMode::Absolute {
                    low_byte: bytes[1],
                    high_byte: bytes[2],
                },
            },
            0x30 => Mos6502Instruction {
                instruction: Mos6502InstructionCode::Bmi,
                addressing_mode: AddressingMode::Relative { byte: bytes[1] },
            },
            0x31 => Mos6502Instruction {
                instruction: Mos6502InstructionCode::And,
                addressing_mode: AddressingMode::IndirectIndexed { byte: bytes[1] },
            },
            0x34 => Mos6502Instruction {
                instruction: Mos6502InstructionCode::Nop,
                addressing_mode: AddressingMode::ZeroPageIndexedX { byte: bytes[1] },
            },
            0x35 => Mos6502Instruction {
                instruction: Mos6502InstructionCode::And,
                addressing_mode: AddressingMode::ZeroPageIndexedX { byte: bytes[1] },
            },
            0x36 => Mos6502Instruction {
                instruction: Mos6502InstructionCode::Rol,
                addressing_mode: AddressingMode::ZeroPageIndexedX { byte: bytes[1] },
            },
            0x38 => Mos6502Instruction {
                instruction: Mos6502InstructionCode::Sec,
                addressing_mode: AddressingMode::Implicit,
            },
            0x39 => Mos6502Instruction {
                instruction: Mos6502InstructionCode::And,
                addressing_mode: AddressingMode::AbsoluteIndexedY {
                    low_byte: bytes[1],
                    high_byte: bytes[2],
                },
            },
            0x3A => Mos6502Instruction {
                instruction: Mos6502InstructionCode::Nop,
                addressing_mode: AddressingMode::Implicit,
            },
            0x3C => Mos6502Instruction {
                instruction: Mos6502InstructionCode::Nop,
                addressing_mode: AddressingMode::AbsoluteIndexedX {
                    low_byte: bytes[1],
                    high_byte: bytes[2],
                },
            },
            0x3D => Mos6502Instruction {
                instruction: Mos6502InstructionCode::And,
                addressing_mode: AddressingMode::AbsoluteIndexedX {
                    low_byte: bytes[1],
                    high_byte: bytes[2],
                },
            },
            0x3E => Mos6502Instruction {
                instruction: Mos6502InstructionCode::Rol,
                addressing_mode: AddressingMode::AbsoluteIndexedX {
                    low_byte: bytes[1],
                    high_byte: bytes[2],
                },
            },
            0x40 => Mos6502Instruction {
                instruction: Mos6502InstructionCode::Rti,
                addressing_mode: AddressingMode::Implicit,
            },
            0x41 => Mos6502Instruction {
                instruction: Mos6502InstructionCode::Eor,
                addressing_mode: AddressingMode::IndexedIndirect { byte: bytes[1] },
            },
            0x44 => Mos6502Instruction {
                instruction: Mos6502InstructionCode::Nop,
                addressing_mode: AddressingMode::ZeroPage { byte: bytes[1] },
            },
            0x45 => Mos6502Instruction {
                instruction: Mos6502InstructionCode::Eor,
                addressing_mode: AddressingMode::ZeroPage { byte: bytes[1] },
            },
            0x46 => Mos6502Instruction {
                instruction: Mos6502InstructionCode::Lsr,
                addressing_mode: AddressingMode::ZeroPage { byte: bytes[1] },
            },
            0x48 => Mos6502Instruction {
                instruction: Mos6502InstructionCode::Pha,
                addressing_mode: AddressingMode::Implicit,
            },
            0x49 => Mos6502Instruction {
                instruction: Mos6502InstructionCode::Eor,
                addressing_mode: AddressingMode::Immediate { byte: bytes[1] },
            },
            0x4A => Mos6502Instruction {
                instruction: Mos6502InstructionCode::Lsr,
                addressing_mode: AddressingMode::Accumulator,
            },
            0x4C => Mos6502Instruction {
                instruction: Mos6502InstructionCode::Jmp,
                addressing_mode: AddressingMode::Absolute {
                    low_byte: bytes[1],
                    high_byte: bytes[2],
                },
            },
            0x4D => Mos6502Instruction {
                instruction: Mos6502InstructionCode::Eor,
                addressing_mode: AddressingMode::Absolute {
                    low_byte: bytes[1],
                    high_byte: bytes[2],
                },
            },
            0x4E => Mos6502Instruction {
                instruction: Mos6502InstructionCode::Lsr,
                addressing_mode: AddressingMode::Absolute {
                    low_byte: bytes[1],
                    high_byte: bytes[2],
                },
            },
            0x50 => Mos6502Instruction {
                instruction: Mos6502InstructionCode::Bvc,
                addressing_mode: AddressingMode::Relative { byte: bytes[1] },
            },
            0x51 => Mos6502Instruction {
                instruction: Mos6502InstructionCode::Eor,
                addressing_mode: AddressingMode::IndirectIndexed { byte: bytes[1] },
            },
            0x54 => Mos6502Instruction {
                instruction: Mos6502InstructionCode::Nop,
                addressing_mode: AddressingMode::ZeroPageIndexedX { byte: bytes[1] },
            },
            0x55 => Mos6502Instruction {
                instruction: Mos6502InstructionCode::Eor,
                addressing_mode: AddressingMode::ZeroPageIndexedX { byte: bytes[1] },
            },
            0x56 => Mos6502Instruction {
                instruction: Mos6502InstructionCode::Lsr,
                addressing_mode: AddressingMode::ZeroPageIndexedX { byte: bytes[1] },
            },
            0x58 => Mos6502Instruction {
                instruction: Mos6502InstructionCode::Cli,
                addressing_mode: AddressingMode::Implicit,
            },
            0x59 => Mos6502Instruction {
                instruction: Mos6502InstructionCode::Eor,
                addressing_mode: AddressingMode::AbsoluteIndexedY {
                    low_byte: bytes[1],
                    high_byte: bytes[2],
                },
            },
            0x5A => Mos6502Instruction {
                instruction: Mos6502InstructionCode::Nop,
                addressing_mode: AddressingMode::Implicit,
            },
            0x5C => Mos6502Instruction {
                instruction: Mos6502InstructionCode::Nop,
                addressing_mode: AddressingMode::AbsoluteIndexedX {
                    low_byte: bytes[1],
                    high_byte: bytes[2],
                },
            },
            0x5D => Mos6502Instruction {
                instruction: Mos6502InstructionCode::Eor,
                addressing_mode: AddressingMode::AbsoluteIndexedX {
                    low_byte: bytes[1],
                    high_byte: bytes[2],
                },
            },
            0x5E => Mos6502Instruction {
                instruction: Mos6502InstructionCode::Lsr,
                addressing_mode: AddressingMode::AbsoluteIndexedX {
                    low_byte: bytes[1],
                    high_byte: bytes[2],
                },
            },
            0x60 => Mos6502Instruction {
                instruction: Mos6502InstructionCode::Rts,
                addressing_mode: AddressingMode::Implicit,
            },
            0x61 => Mos6502Instruction {
                instruction: Mos6502InstructionCode::Adc,
                addressing_mode: AddressingMode::IndexedIndirect { byte: bytes[1] },
            },
            0x64 => Mos6502Instruction {
                instruction: Mos6502InstructionCode::Nop,
                addressing_mode: AddressingMode::ZeroPage { byte: bytes[1] },
            },
            0x65 => Mos6502Instruction {
                instruction: Mos6502InstructionCode::Adc,
                addressing_mode: AddressingMode::ZeroPage { byte: bytes[1] },
            },
            0x66 => Mos6502Instruction {
                instruction: Mos6502InstructionCode::Ror,
                addressing_mode: AddressingMode::ZeroPage { byte: bytes[1] },
            },
            0x68 => Mos6502Instruction {
                instruction: Mos6502InstructionCode::Pla,
                addressing_mode: AddressingMode::Implicit,
            },
            0x69 => Mos6502Instruction {
                instruction: Mos6502InstructionCode::Adc,
                addressing_mode: AddressingMode::Immediate { byte: bytes[1] },
            },
            0x6A => Mos6502Instruction {
                instruction: Mos6502InstructionCode::Ror,
                addressing_mode: AddressingMode::Accumulator,
            },
            0x6C => Mos6502Instruction {
                instruction: Mos6502InstructionCode::Jmp,
                addressing_mode: AddressingMode::Indirect {
                    low_byte: bytes[1],
                    high_byte: bytes[2],
                },
            },
            0x6D => Mos6502Instruction {
                instruction: Mos6502InstructionCode::Adc,
                addressing_mode: AddressingMode::Absolute {
                    low_byte: bytes[1],
                    high_byte: bytes[2],
                },
            },
            0x6E => Mos6502Instruction {
                instruction: Mos6502InstructionCode::Ror,
                addressing_mode: AddressingMode::Absolute {
                    low_byte: bytes[1],
                    high_byte: bytes[2],
                },
            },
            0x70 => Mos6502Instruction {
                instruction: Mos6502InstructionCode::Bvs,
                addressing_mode: AddressingMode::Relative { byte: bytes[1] },
            },
            0x71 => Mos6502Instruction {
                instruction: Mos6502InstructionCode::Adc,
                addressing_mode: AddressingMode::IndirectIndexed { byte: bytes[1] },
            },
            0x74 => Mos6502Instruction {
                instruction: Mos6502InstructionCode::Nop,
                addressing_mode: AddressingMode::ZeroPageIndexedX { byte: bytes[1] },
            },
            0x75 => Mos6502Instruction {
                instruction: Mos6502InstructionCode::Adc,
                addressing_mode: AddressingMode::ZeroPageIndexedX { byte: bytes[1] },
            },
            0x76 => Mos6502Instruction {
                instruction: Mos6502InstructionCode::Ror,
                addressing_mode: AddressingMode::ZeroPageIndexedX { byte: bytes[1] },
            },
            0x78 => Mos6502Instruction {
                instruction: Mos6502InstructionCode::Sei,
                addressing_mode: AddressingMode::Implicit,
            },
            0x79 => Mos6502Instruction {
                instruction: Mos6502InstructionCode::Adc,
                addressing_mode: AddressingMode::AbsoluteIndexedY {
                    low_byte: bytes[1],
                    high_byte: bytes[2],
                },
            },
            0x7A => Mos6502Instruction {
                instruction: Mos6502InstructionCode::Nop,
                addressing_mode: AddressingMode::Implicit,
            },
            0x7C => Mos6502Instruction {
                instruction: Mos6502InstructionCode::Nop,
                addressing_mode: AddressingMode::AbsoluteIndexedX {
                    low_byte: bytes[1],
                    high_byte: bytes[2],
                },
            },
            0x7D => Mos6502Instruction {
                instruction: Mos6502InstructionCode::Adc,
                addressing_mode: AddressingMode::AbsoluteIndexedX {
                    low_byte: bytes[1],
                    high_byte: bytes[2],
                },
            },
            0x7E => Mos6502Instruction {
                instruction: Mos6502InstructionCode::Ror,
                addressing_mode: AddressingMode::AbsoluteIndexedX {
                    low_byte: bytes[1],
                    high_byte: bytes[2],
                },
            },
            0x80 => Mos6502Instruction {
                instruction: Mos6502InstructionCode::Nop,
                addressing_mode: AddressingMode::Immediate { byte: bytes[1] },
            },
            0x81 => Mos6502Instruction {
                instruction: Mos6502InstructionCode::Sta,
                addressing_mode: AddressingMode::IndexedIndirect { byte: bytes[1] },
            },
            0x82 => Mos6502Instruction {
                instruction: Mos6502InstructionCode::Nop,
                addressing_mode: AddressingMode::Immediate { byte: bytes[1] },
            },
            0x84 => Mos6502Instruction {
                instruction: Mos6502InstructionCode::Sty,
                addressing_mode: AddressingMode::ZeroPage { byte: bytes[1] },
            },
            0x85 => Mos6502Instruction {
                instruction: Mos6502InstructionCode::Sta,
                addressing_mode: AddressingMode::ZeroPage { byte: bytes[1] },
            },
            0x86 => Mos6502Instruction {
                instruction: Mos6502InstructionCode::Stx,
                addressing_mode: AddressingMode::ZeroPage { byte: bytes[1] },
            },
            0x88 => Mos6502Instruction {
                instruction: Mos6502InstructionCode::Dey,
                addressing_mode: AddressingMode::Implicit,
            },
            0x89 => Mos6502Instruction {
                instruction: Mos6502InstructionCode::Nop,
                addressing_mode: AddressingMode::Immediate { byte: bytes[1] },
            },
            0x8A => Mos6502Instruction {
                instruction: Mos6502InstructionCode::Txa,
                addressing_mode: AddressingMode::Implicit,
            },
            0x8C => Mos6502Instruction {
                instruction: Mos6502InstructionCode::Sty,
                addressing_mode: AddressingMode::Absolute {
                    low_byte: bytes[1],
                    high_byte: bytes[2],
                },
            },
            0x8D => Mos6502Instruction {
                instruction: Mos6502InstructionCode::Sta,
                addressing_mode: AddressingMode::Absolute {
                    low_byte: bytes[1],
                    high_byte: bytes[2],
                },
            },
            0x8E => Mos6502Instruction {
                instruction: Mos6502InstructionCode::Stx,
                addressing_mode: AddressingMode::Absolute {
                    low_byte: bytes[1],
                    high_byte: bytes[2],
                },
            },
            0x90 => Mos6502Instruction {
                instruction: Mos6502InstructionCode::Bcc,
                addressing_mode: AddressingMode::Relative { byte: bytes[1] },
            },
            0x91 => Mos6502Instruction {
                instruction: Mos6502InstructionCode::Sta,
                addressing_mode: AddressingMode::IndirectIndexed { byte: bytes[1] },
            },
            0x94 => Mos6502Instruction {
                instruction: Mos6502InstructionCode::Sty,
                addressing_mode: AddressingMode::ZeroPageIndexedX { byte: bytes[1] },
            },
            0x95 => Mos6502Instruction {
                instruction: Mos6502InstructionCode::Sta,
                addressing_mode: AddressingMode::ZeroPageIndexedX { byte: bytes[1] },
            },
            0x96 => Mos6502Instruction {
                instruction: Mos6502InstructionCode::Stx,
                addressing_mode: AddressingMode::ZeroPageIndexedY { byte: bytes[1] },
            },
            0x98 => Mos6502Instruction {
                instruction: Mos6502InstructionCode::Tya,
                addressing_mode: AddressingMode::Implicit,
            },
            0x99 => Mos6502Instruction {
                instruction: Mos6502InstructionCode::Sta,
                addressing_mode: AddressingMode::AbsoluteIndexedY {
                    low_byte: bytes[1],
                    high_byte: bytes[2],
                },
            },
            0x9A => Mos6502Instruction {
                instruction: Mos6502InstructionCode::Txs,
                addressing_mode: AddressingMode::Implicit,
            },
            0x9D => Mos6502Instruction {
                instruction: Mos6502InstructionCode::Sta,
                addressing_mode: AddressingMode::AbsoluteIndexedX {
                    low_byte: bytes[1],
                    high_byte: bytes[2],
                },
            },
            0xB0 => Mos6502Instruction {
                instruction: Mos6502InstructionCode::Bcs,
                addressing_mode: AddressingMode::Relative { byte: bytes[1] },
            },
            0xA0 => Mos6502Instruction {
                instruction: Mos6502InstructionCode::Ldy,
                addressing_mode: AddressingMode::Immediate { byte: bytes[1] },
            },
            0xA1 => Mos6502Instruction {
                instruction: Mos6502InstructionCode::Lda,
                addressing_mode: AddressingMode::IndexedIndirect { byte: bytes[1] },
            },
            0xA2 => Mos6502Instruction {
                instruction: Mos6502InstructionCode::Ldx,
                addressing_mode: AddressingMode::Immediate { byte: bytes[1] },
            },
            0xA4 => Mos6502Instruction {
                instruction: Mos6502InstructionCode::Ldy,
                addressing_mode: AddressingMode::ZeroPage { byte: bytes[1] },
            },
            0xA5 => Mos6502Instruction {
                instruction: Mos6502InstructionCode::Lda,
                addressing_mode: AddressingMode::ZeroPage { byte: bytes[1] },
            },
            0xA6 => Mos6502Instruction {
                instruction: Mos6502InstructionCode::Ldx,
                addressing_mode: AddressingMode::ZeroPage { byte: bytes[1] },
            },
            0xA8 => Mos6502Instruction {
                instruction: Mos6502InstructionCode::Tay,
                addressing_mode: AddressingMode::Implicit,
            },
            0xA9 => Mos6502Instruction {
                instruction: Mos6502InstructionCode::Lda,
                addressing_mode: AddressingMode::Immediate { byte: bytes[1] },
            },
            0xAA => Mos6502Instruction {
                instruction: Mos6502InstructionCode::Tax,
                addressing_mode: AddressingMode::Implicit,
            },
            0xAC => Mos6502Instruction {
                instruction: Mos6502InstructionCode::Ldy,
                addressing_mode: AddressingMode::Absolute {
                    low_byte: bytes[1],
                    high_byte: bytes[2],
                },
            },
            0xAD => Mos6502Instruction {
                instruction: Mos6502InstructionCode::Lda,
                addressing_mode: AddressingMode::Absolute {
                    low_byte: bytes[1],
                    high_byte: bytes[2],
                },
            },
            0xAE => Mos6502Instruction {
                instruction: Mos6502InstructionCode::Ldx,
                addressing_mode: AddressingMode::Absolute {
                    low_byte: bytes[1],
                    high_byte: bytes[2],
                },
            },
            0xB1 => Mos6502Instruction {
                instruction: Mos6502InstructionCode::Lda,
                addressing_mode: AddressingMode::IndirectIndexed { byte: bytes[1] },
            },
            0xB4 => Mos6502Instruction {
                instruction: Mos6502InstructionCode::Ldy,
                addressing_mode: AddressingMode::ZeroPageIndexedX { byte: bytes[1] },
            },
            0xB5 => Mos6502Instruction {
                instruction: Mos6502InstructionCode::Lda,
                addressing_mode: AddressingMode::ZeroPageIndexedX { byte: bytes[1] },
            },
            0xB6 => Mos6502Instruction {
                instruction: Mos6502InstructionCode::Ldx,
                addressing_mode: AddressingMode::ZeroPageIndexedY { byte: bytes[1] },
            },
            0xB8 => Mos6502Instruction {
                instruction: Mos6502InstructionCode::Clv,
                addressing_mode: AddressingMode::Implicit,
            },
            0xB9 => Mos6502Instruction {
                instruction: Mos6502InstructionCode::Lda,
                addressing_mode: AddressingMode::AbsoluteIndexedY {
                    low_byte: bytes[1],
                    high_byte: bytes[2],
                },
            },
            0xBA => Mos6502Instruction {
                instruction: Mos6502InstructionCode::Tsx,
                addressing_mode: AddressingMode::Implicit,
            },
            0xBC => Mos6502Instruction {
                instruction: Mos6502InstructionCode::Ldy,
                addressing_mode: AddressingMode::AbsoluteIndexedX {
                    low_byte: bytes[1],
                    high_byte: bytes[2],
                },
            },
            0xBD => Mos6502Instruction {
                instruction: Mos6502InstructionCode::Lda,
                addressing_mode: AddressingMode::AbsoluteIndexedX {
                    low_byte: bytes[1],
                    high_byte: bytes[2],
                },
            },
            0xBE => Mos6502Instruction {
                instruction: Mos6502InstructionCode::Ldx,
                addressing_mode: AddressingMode::AbsoluteIndexedY {
                    low_byte: bytes[1],
                    high_byte: bytes[2],
                },
            },
            0xC0 => Mos6502Instruction {
                instruction: Mos6502InstructionCode::Cpy,
                addressing_mode: AddressingMode::Immediate { byte: bytes[1] },
            },
            0xC1 => Mos6502Instruction {
                instruction: Mos6502InstructionCode::Cmp,
                addressing_mode: AddressingMode::IndexedIndirect { byte: bytes[1] },
            },
            0xC2 => Mos6502Instruction {
                instruction: Mos6502InstructionCode::Nop,
                addressing_mode: AddressingMode::Immediate { byte: bytes[1] },
            },
            0xC4 => Mos6502Instruction {
                instruction: Mos6502InstructionCode::Cpy,
                addressing_mode: AddressingMode::ZeroPage { byte: bytes[1] },
            },
            0xC5 => Mos6502Instruction {
                instruction: Mos6502InstructionCode::Cmp,
                addressing_mode: AddressingMode::ZeroPage { byte: bytes[1] },
            },
            0xC6 => Mos6502Instruction {
                instruction: Mos6502InstructionCode::Dec,
                addressing_mode: AddressingMode::ZeroPage { byte: bytes[1] },
            },
            0xC8 => Mos6502Instruction {
                instruction: Mos6502InstructionCode::Iny,
                addressing_mode: AddressingMode::Implicit,
            },
            0xC9 => Mos6502Instruction {
                instruction: Mos6502InstructionCode::Cmp,
                addressing_mode: AddressingMode::Immediate { byte: bytes[1] },
            },
            0xCA => Mos6502Instruction {
                instruction: Mos6502InstructionCode::Dex,
                addressing_mode: AddressingMode::Implicit,
            },
            0xCC => Mos6502Instruction {
                instruction: Mos6502InstructionCode::Cpy,
                addressing_mode: AddressingMode::Absolute {
                    low_byte: bytes[1],
                    high_byte: bytes[2],
                },
            },
            0xCD => Mos6502Instruction {
                instruction: Mos6502InstructionCode::Cmp,
                addressing_mode: AddressingMode::Absolute {
                    low_byte: bytes[1],
                    high_byte: bytes[2],
                },
            },
            0xCE => Mos6502Instruction {
                instruction: Mos6502InstructionCode::Dec,
                addressing_mode: AddressingMode::Absolute {
                    low_byte: bytes[1],
                    high_byte: bytes[2],
                },
            },
            0xD0 => Mos6502Instruction {
                instruction: Mos6502InstructionCode::Bne,
                addressing_mode: AddressingMode::Relative { byte: bytes[1] },
            },
            0xD1 => Mos6502Instruction {
                instruction: Mos6502InstructionCode::Cmp,
                addressing_mode: AddressingMode::IndirectIndexed { byte: bytes[1] },
            },
            0xD4 => Mos6502Instruction {
                instruction: Mos6502InstructionCode::Nop,
                addressing_mode: AddressingMode::ZeroPageIndexedX { byte: bytes[1] },
            },
            0xD5 => Mos6502Instruction {
                instruction: Mos6502InstructionCode::Cmp,
                addressing_mode: AddressingMode::ZeroPageIndexedX { byte: bytes[1] },
            },
            0xD6 => Mos6502Instruction {
                instruction: Mos6502InstructionCode::Dec,
                addressing_mode: AddressingMode::ZeroPageIndexedX { byte: bytes[1] },
            },
            0xD8 => Mos6502Instruction {
                instruction: Mos6502InstructionCode::Cld,
                addressing_mode: AddressingMode::Implicit,
            },
            0xD9 => Mos6502Instruction {
                instruction: Mos6502InstructionCode::Cmp,
                addressing_mode: AddressingMode::AbsoluteIndexedY {
                    low_byte: bytes[1],
                    high_byte: bytes[2],
                },
            },
            0xDA => Mos6502Instruction {
                instruction: Mos6502InstructionCode::Nop,
                addressing_mode: AddressingMode::Implicit,
            },
            0xDC => Mos6502Instruction {
                instruction: Mos6502InstructionCode::Nop,
                addressing_mode: AddressingMode::AbsoluteIndexedX {
                    low_byte: bytes[1],
                    high_byte: bytes[2],
                },
            },
            0xDD => Mos6502Instruction {
                instruction: Mos6502InstructionCode::Cmp,
                addressing_mode: AddressingMode::AbsoluteIndexedX {
                    low_byte: bytes[1],
                    high_byte: bytes[2],
                },
            },
            0xDE => Mos6502Instruction {
                instruction: Mos6502InstructionCode::Dec,
                addressing_mode: AddressingMode::AbsoluteIndexedX {
                    low_byte: bytes[1],
                    high_byte: bytes[2],
                },
            },
            0xE0 => Mos6502Instruction {
                instruction: Mos6502InstructionCode::Cpx,
                addressing_mode: AddressingMode::Immediate { byte: bytes[1] },
            },
            0xE1 => Mos6502Instruction {
                instruction: Mos6502InstructionCode::Sbc,
                addressing_mode: AddressingMode::IndexedIndirect { byte: bytes[1] },
            },
            0xE2 => Mos6502Instruction {
                instruction: Mos6502InstructionCode::Nop,
                addressing_mode: AddressingMode::Immediate { byte: bytes[1] },
            },
            0xE4 => Mos6502Instruction {
                instruction: Mos6502InstructionCode::Cpx,
                addressing_mode: AddressingMode::ZeroPage { byte: bytes[1] },
            },
            0xE5 => Mos6502Instruction {
                instruction: Mos6502InstructionCode::Sbc,
                addressing_mode: AddressingMode::ZeroPage { byte: bytes[1] },
            },
            0xE6 => Mos6502Instruction {
                instruction: Mos6502InstructionCode::Inc,
                addressing_mode: AddressingMode::ZeroPage { byte: bytes[1] },
            },
            0xE8 => Mos6502Instruction {
                instruction: Mos6502InstructionCode::Inx,
                addressing_mode: AddressingMode::Implicit,
            },
            0xE9 => Mos6502Instruction {
                instruction: Mos6502InstructionCode::Sbc,
                addressing_mode: AddressingMode::Immediate { byte: bytes[1] },
            },
            0xEB => Mos6502Instruction {
                instruction: Mos6502InstructionCode::Sbc,
                addressing_mode: AddressingMode::Immediate { byte: bytes[1] },
            },
            0xEC => Mos6502Instruction {
                instruction: Mos6502InstructionCode::Cpx,
                addressing_mode: AddressingMode::Absolute {
                    low_byte: bytes[1],
                    high_byte: bytes[2],
                },
            },
            0xED => Mos6502Instruction {
                instruction: Mos6502InstructionCode::Sbc,
                addressing_mode: AddressingMode::Absolute {
                    low_byte: bytes[1],
                    high_byte: bytes[2],
                },
            },
            0xEE => Mos6502Instruction {
                instruction: Mos6502InstructionCode::Inc,
                addressing_mode: AddressingMode::Absolute {
                    low_byte: bytes[1],
                    high_byte: bytes[2],
                },
            },
            0xF0 => Mos6502Instruction {
                instruction: Mos6502InstructionCode::Beq,
                addressing_mode: AddressingMode::Relative { byte: bytes[1] },
            },
            0xF1 => Mos6502Instruction {
                instruction: Mos6502InstructionCode::Sbc,
                addressing_mode: AddressingMode::IndirectIndexed { byte: bytes[1] },
            },
            0xF4 => Mos6502Instruction {
                instruction: Mos6502InstructionCode::Nop,
                addressing_mode: AddressingMode::ZeroPageIndexedX { byte: bytes[1] },
            },
            0xF5 => Mos6502Instruction {
                instruction: Mos6502InstructionCode::Sbc,
                addressing_mode: AddressingMode::ZeroPageIndexedX { byte: bytes[1] },
            },
            0xF6 => Mos6502Instruction {
                instruction: Mos6502InstructionCode::Inc,
                addressing_mode: AddressingMode::ZeroPageIndexedX { byte: bytes[1] },
            },
            0xF8 => Mos6502Instruction {
                instruction: Mos6502InstructionCode::Sed,
                addressing_mode: AddressingMode::Implicit,
            },
            0xF9 => Mos6502Instruction {
                instruction: Mos6502InstructionCode::Sbc,
                addressing_mode: AddressingMode::AbsoluteIndexedY {
                    low_byte: bytes[1],
                    high_byte: bytes[2],
                },
            },
            0xFA => Mos6502Instruction {
                instruction: Mos6502InstructionCode::Nop,
                addressing_mode: AddressingMode::Implicit,
            },
            0xFC => Mos6502Instruction {
                instruction: Mos6502InstructionCode::Nop,
                addressing_mode: AddressingMode::AbsoluteIndexedX {
                    low_byte: bytes[1],
                    high_byte: bytes[2],
                },
            },
            0xFD => Mos6502Instruction {
                instruction: Mos6502InstructionCode::Sbc,
                addressing_mode: AddressingMode::AbsoluteIndexedX {
                    low_byte: bytes[1],
                    high_byte: bytes[2],
                },
            },
            0xFE => Mos6502Instruction {
                instruction: Mos6502InstructionCode::Inc,
                addressing_mode: AddressingMode::AbsoluteIndexedX {
                    low_byte: bytes[1],
                    high_byte: bytes[2],
                },
            },
            _ => Mos6502Instruction {
                instruction: Mos6502InstructionCode::Nop,
                addressing_mode: AddressingMode::Implicit,
            },
        }
    }
}


/// Whether the size of the instruction that opcode `opcode` decodes to
/// counts the opcode and exactly the operand bytes its addressing mode
/// takes; the NOP forms are exempt, being one byte whatever mode they
/// decode with.
pub open spec fn size_counts_operands(opcode: u8, b1: u8, b2: u8) -> bool {
    let instruction = spec_decode(opcode, b1, b2);
    instruction.instruction != Mos6502InstructionCode::Nop ==> instruction.spec_size() == Ok::<
        u8,
        Mos6502InstructionError,
    >((1 + operand_length(instruction.addressing_mode)) as u8)
}

/// Whether `instruction` is one byte plus the operand bytes of its mode,
/// or a NOP.
pub open spec fn sized_by_mode(instruction: Mos6502Instruction) -> bool {
    instruction.instruction != Mos6502InstructionCode::Nop ==> instruction.spec_size() == Ok::<
        u8,
        Mos6502InstructionError,
    >((1 + operand_length(instruction.addressing_mode)) as u8)
}

proof fn lemma_group_sized(aaa: u8, bbb: u8, b1: u8, b2: u8)
    requires
        aaa < 8,
        bbb < 8,
    ensures
        sized_by_mode(decode_group_one(aaa, bbb, b1, b2)),
        sized_by_mode(decode_group_two(aaa, bbb, b1, b2)),
        sized_by_mode(decode_group_zero(aaa, bbb, b1, b2)),
{
    if aaa == 0 {
    } else if aaa == 1 {
    } else if aaa == 2 {
    } else if aaa == 3 {
    } else if aaa == 4 {
    } else if aaa == 5 {
    } else if aaa == 6 {
    } else {
    }
}

/// The program counter moves past exactly the bytes the decoder read: for
/// every opcode but the NOP forms, the size of the decoded instruction is
/// one plus the operand bytes of its addressing mode.
pub proof fn lemma_size_counts_decoded_bytes(opcode: u8, b1: u8, b2: u8)
    ensures
        size_counts_operands(opcode, b1, b2),
{
    lemma_group_sized(opcode / 32, (opcode / 4) % 8, b1, b2);
}


/// The documented opcodes of the MOS 6502 as the manufacturer's opcode
/// matrix lists them: the mnemonic and the addressing mode, with `b1` and
/// `b2` the operand bytes that follow (low byte first); `None` for the
/// opcodes the matrix leaves undocumented.
pub open spec fn published_instruction(opcode: u8, b1: u8, b2: u8) -> Option<(Mos6502InstructionCode, AddressingMode)> {
    match opcode {
        0x00 => Some((Mos6502InstructionCode::Brk, AddressingMode::Implicit)),
        0x01 => Some((Mos6502InstructionCode::Ora, AddressingMode::IndexedIndirect { byte: b1 })),
        0x05 => Some((Mos6502InstructionCode::Ora, AddressingMode::ZeroPage { byte: b1 })),
        0x06 => Some((Mos6502InstructionCode::Asl, AddressingMode::ZeroPage { byte: b1 })),
        0x08 => Some((Mos6502InstructionCode::Php, AddressingMode::Implicit)),
        0x09 => Some((Mos6502InstructionCode::Ora, AddressingMode::Immediate { byte: b1 })),
        0x0A => Some((Mos6502InstructionCode::Asl, AddressingMode::Accumulator)),
        0x0D => Some((Mos6502InstructionCode::Ora, AddressingMode::Absolute { high_byte: b2, low_byte: b1 })),
        0x0E => Some((Mos6502InstructionCode::Asl, AddressingMode::Absolute { high_byte: b2, low_byte: b1 })),
        0x10 => Some((Mos6502InstructionCode::Bpl, AddressingMode::Relative { byte: b1 })),
        0x11 => Some((Mos6502InstructionCode::Ora, AddressingMode::IndirectIndexed { byte: b1 })),
        0x15 => Some((Mos6502InstructionCode::Ora, AddressingMode::ZeroPageIndexedX { byte: b1 })),
        0x16 => Some((Mos6502InstructionCode::Asl, AddressingMode::ZeroPageIndexedX { byte: b1 })),
        0x18 => Some((Mos6502InstructionCode::Clc, AddressingMode::Implicit)),
        0x19 => Some((Mos6502InstructionCode::Ora, AddressingMode::AbsoluteIndexedY { high_byte: b2, low_byte: b1 })),
        0x1D => Some((Mos6502InstructionCode::Ora, AddressingMode::AbsoluteIndexedX { high_byte: b2, low_byte: b1 })),
        0x1E => Some((Mos6502InstructionCode::Asl, AddressingMode::AbsoluteIndexedX { high_byte: b2, low_byte: b1 })),
        0x20 => Some((Mos6502InstructionCode::Jsr, AddressingMode::Absolute { high_byte: b2, low_byte: b1 })),
        0x21 => Some((Mos6502InstructionCode::And, AddressingMode::IndexedIndirect { byte: b1 })),
        0x24 => Some((Mos6502InstructionCode::Bit, AddressingMode::ZeroPage { byte: b1 })),
        0x25 => Some((Mos6502InstructionCode::And, AddressingMode::ZeroPage { byte: b1 })),
        0x26 => Some((Mos6502InstructionCode::Rol, AddressingMode::ZeroPage { byte: b1 })),
        0x28 => Some((Mos6502InstructionCode::Plp, AddressingMode::Implicit)),
        0x29 => Some((Mos6502InstructionCode::And, AddressingMode::Immediate { byte: b1 })),
        0x2A => Some((Mos6502InstructionCode::Rol, AddressingMode::Accumulator)),
        0x2C => Some((Mos6502InstructionCode::Bit, AddressingMode::Absolute { high_byte: b2, low_byte: b1 })),
        0x2D => Some((Mos6502InstructionCode::And, AddressingMode::Absolute { high_byte: b2, low_byte: b1 })),
        0x2E => Some((Mos6502InstructionCode::Rol, AddressingMode::Absolute { high_byte: b2, low_byte: b1 })),
        0x30 => Some((Mos6502InstructionCode::Bmi, AddressingMode::Relative { byte: b1 })),
        0x31 => Some((Mos6502InstructionCode::And, AddressingMode::IndirectIndexed { byte: b1 })),
        0x35 => Some((Mos6502InstructionCode::And, AddressingMode::ZeroPageIndexedX { byte: b1 })),
        0x36 => Some((Mos6502InstructionCode::Rol, AddressingMode::ZeroPageIndexedX { byte: b1 })),
        0x38 => Some((Mos6502InstructionCode::Sec, AddressingMode::Implicit)),
        0x39 => Some((Mos6502InstructionCode::And, AddressingMode::AbsoluteIndexedY { high_byte: b2, low_byte: b1 })),
        0x3D => Some((Mos6502InstructionCode::And, AddressingMode::AbsoluteIndexedX { high_byte: b2, low_byte: b1 })),
        0x3E => Some((Mos6502InstructionCode::Rol, AddressingMode::AbsoluteIndexedX { high_byte: b2, low_byte: b1 })),
        0x40 => Some((Mos6502InstructionCode::Rti, AddressingMode::Implicit)),
        0x41 => Some((Mos6502InstructionCode::Eor, AddressingMode::IndexedIndirect { byte: b1 })),
        0x45 => Some((Mos6502InstructionCode::Eor, AddressingMode::ZeroPage { byte: b1 })),
        0x46 => Some((Mos6502InstructionCode::Lsr, AddressingMode::ZeroPage { byte: b1 })),
        0x48 => Some((Mos6502InstructionCode::Pha, AddressingMode::Implicit)),
        0x49 => Some((Mos6502InstructionCode::Eor, AddressingMode::Immediate { byte: b1 })),
        0x4A => Some((Mos6502InstructionCode::Lsr, AddressingMode::Accumulator)),
        0x4C => Some((Mos6502InstructionCode::Jmp, AddressingMode::Absolute { high_byte: b2, low_byte: b1 })),
        0x4D => Some((Mos6502InstructionCode::Eor, AddressingMode::Absolute { high_byte: b2, low_byte: b1 })),
        0x4E => Some((Mos6502InstructionCode::Lsr, AddressingMode::Absolute { high_byte: b2, low_byte: b1 })),
        0x50 => Some((Mos6502InstructionCode::Bvc, AddressingMode::Relative { byte: b1 })),
        0x51 => Some((Mos6502InstructionCode::Eor, AddressingMode::IndirectIndexed { byte: b1 })),
        0x55 => Some((Mos6502InstructionCode::Eor, AddressingMode::ZeroPageIndexedX { byte: b1 })),
        0x56 => Some((Mos6502InstructionCode::Lsr, AddressingMode::ZeroPageIndexedX { byte: b1 })),
        0x58 => Some((Mos6502InstructionCode::Cli, AddressingMode::Implicit)),
        0x59 => Some((Mos6502InstructionCode::Eor, AddressingMode::AbsoluteIndexedY { high_byte: b2, low_byte: b1 })),
        0x5D => Some((Mos6502InstructionCode::Eor, AddressingMode::AbsoluteIndexedX { high_byte: b2, low_byte: b1 })),
        0x5E => Some((Mos6502InstructionCode::Lsr, AddressingMode::AbsoluteIndexedX { high_byte: b2, low_byte: b1 })),
        0x60 => Some((Mos6502InstructionCode::Rts, AddressingMode::Implicit)),
        0x61 => Some((Mos6502InstructionCode::Adc, AddressingMode::IndexedIndirect { byte: b1 })),
        0x65 => Some((Mos6502InstructionCode::Adc, AddressingMode::ZeroPage { byte: b1 })),
        0x66 => Some((Mos6502InstructionCode::Ror, AddressingMode::ZeroPage { byte: b1 })),
        0x68 => Some((Mos6502InstructionCode::Pla, AddressingMode::Implicit)),
        0x69 => Some((Mos6502InstructionCode::Adc, AddressingMode::Immediate { byte: b1 })),
        0x6A => Some((Mos6502InstructionCode::Ror, AddressingMode::Accumulator)),
        0x6C => Some((Mos6502InstructionCode::Jmp, AddressingMode::Indirect { high_byte: b2, low_byte: b1 })),
        0x6D => Some((Mos6502InstructionCode::Adc, AddressingMode::Absolute { high_byte: b2, low_byte: b1 })),
        0x6E => Some((Mos6502InstructionCode::Ror, AddressingMode::Absolute { high_byte: b2, low_byte: b1 })),
        0x70 => Some((Mos6502InstructionCode::Bvs, AddressingMode::Relative { byte: b1 })),
        0x71 => Some((Mos6502InstructionCode::Adc, AddressingMode::IndirectIndexed { byte: b1 })),
        0x75 => Some((Mos6502InstructionCode::Adc, AddressingMode::ZeroPageIndexedX { byte: b1 })),
        0x76 => Some((Mos6502InstructionCode::Ror, AddressingMode::ZeroPageIndexedX { byte: b1 })),
        0x78 => Some((Mos6502InstructionCode::Sei, AddressingMode::Implicit)),
        0x79 => Some((Mos6502InstructionCode::Adc, AddressingMode::AbsoluteIndexedY { high_byte: b2, low_byte: b1 })),
        0x7D => Some((Mos6502InstructionCode::Adc, AddressingMode::AbsoluteIndexedX { high_byte: b2, low_byte: b1 })),
        0x7E => Some((Mos6502InstructionCode::Ror, AddressingMode::AbsoluteIndexedX { high_byte: b2, low_byte: b1 })),
        0x81 => Some((Mos6502InstructionCode::Sta, AddressingMode::IndexedIndirect { byte: b1 })),
        0x84 => Some((Mos6502InstructionCode::Sty, AddressingMode::ZeroPage { byte: b1 })),
        0x85 => Some((Mos6502InstructionCode::Sta, AddressingMode::ZeroPage { byte: b1 })),
        0x86 => Some((Mos6502InstructionCode::Stx, AddressingMode::ZeroPage { byte: b1 })),
        0x88 => Some((Mos6502InstructionCode::Dey, AddressingMode::Implicit)),
        0x8A => Some((Mos6502InstructionCode::Txa, AddressingMode::Implicit)),
        0x8C => Some((Mos6502InstructionCode::Sty, AddressingMode::Absolute { high_byte: b2, low_byte: b1 })),
        0x8D => Some((Mos6502InstructionCode::Sta, AddressingMode::Absolute { high_byte: b2, low_byte: b1 })),
        0x8E => Some((Mos6502InstructionCode::Stx, AddressingMode::Absolute { high_byte: b2, low_byte: b1 })),
        0x90 => Some((Mos6502InstructionCode::Bcc, AddressingMode::Relative { byte: b1 })),
        0x91 => Some((Mos6502InstructionCode::Sta, AddressingMode::IndirectIndexed { byte: b1 })),
        0x94 => Some((Mos6502InstructionCode::Sty, AddressingMode::ZeroPageIndexedX { byte: b1 })),
        0x95 => Some((Mos6502InstructionCode::Sta, AddressingMode::ZeroPageIndexedX { byte: b1 })),
        0x96 => Some((Mos6502InstructionCode::Stx, AddressingMode::ZeroPageIndexedY { byte: b1 })),
        0x98 => Some((Mos6502InstructionCode::Tya, AddressingMode::Implicit)),
        0x99 => Some((Mos6502InstructionCode::Sta, AddressingMode::AbsoluteIndexedY { high_byte: b2, low_byte: b1 })),
        0x9A => Some((Mos6502InstructionCode::Txs, AddressingMode::Implicit)),
        0x9D => Some((Mos6502InstructionCode::Sta, AddressingMode::AbsoluteIndexedX { high_byte: b2, low_byte: b1 })),
        0xA0 => Some((Mos6502InstructionCode::Ldy, AddressingMode::Immediate { byte: b1 })),
        0xA1 => Some((Mos6502InstructionCode::Lda, AddressingMode::IndexedIndirect { byte: b1 })),
        0xA2 => Some((Mos6502InstructionCode::Ldx, AddressingMode::Immediate { byte: b1 })),
        0xA4 => Some((Mos6502InstructionCode::Ldy, AddressingMode::ZeroPage { byte: b1 })),
        0xA5 => Some((Mos6502InstructionCode::Lda, AddressingMode::ZeroPage { byte: b1 })),
        0xA6 => Some((Mos6502InstructionCode::Ldx, AddressingMode::ZeroPage { byte: b1 })),
        0xA8 => Some((Mos6502InstructionCode::Tay, AddressingMode::Implicit)),
        0xA9 => Some((Mos6502InstructionCode::Lda, AddressingMode::Immediate { byte: b1 })),
        0xAA => Some((Mos6502InstructionCode::Tax, AddressingMode::Implicit)),
        0xAC => Some((Mos6502InstructionCode::Ldy, AddressingMode::Absolute { high_byte: b2, low_byte: b1 })),
        0xAD => Some((Mos6502InstructionCode::Lda, AddressingMode::Absolute { high_byte: b2, low_byte: b1 })),
        0xAE => Some((Mos6502InstructionCode::Ldx, AddressingMode::Absolute { high_byte: b2, low_byte: b1 })),
        0xB0 => Some((Mos6502InstructionCode::Bcs, AddressingMode::Relative { byte: b1 })),
        0xB1 => Some((Mos6502InstructionCode::Lda, AddressingMode::IndirectIndexed { byte: b1 })),
        0xB4 => Some((Mos6502InstructionCode::Ldy, AddressingMode::ZeroPageIndexedX { byte: b1 })),
        0xB5 => Some((Mos6502InstructionCode::Lda, AddressingMode::ZeroPageIndexedX { byte: b1 })),
        0xB6 => Some((Mos6502InstructionCode::Ldx, AddressingMode::ZeroPageIndexedY { byte: b1 })),
        0xB8 => Some((Mos6502InstructionCode::Clv, AddressingMode::Implicit)),
        0xB9 => Some((Mos6502InstructionCode::Lda, AddressingMode::AbsoluteIndexedY { high_byte: b2, low_byte: b1 })),
        0xBA => Some((Mos6502InstructionCode::Tsx, AddressingMode::Implicit)),
        0xBC => Some((Mos6502InstructionCode::Ldy, AddressingMode::AbsoluteIndexedX { high_byte: b2, low_byte: b1 })),
        0xBD => Some((Mos6502InstructionCode::Lda, AddressingMode::AbsoluteIndexedX { high_byte: b2, low_byte: b1 })),
        0xBE => Some((Mos6502InstructionCode::Ldx, AddressingMode::AbsoluteIndexedY { high_byte: b2, low_byte: b1 })),
        0xC0 => Some((Mos6502InstructionCode::Cpy, AddressingMode::Immediate { byte: b1 })),
        0xC1 => Some((Mos6502InstructionCode::Cmp, AddressingMode::IndexedIndirect { byte: b1 })),
        0xC4 => Some((Mos6502InstructionCode::Cpy, AddressingMode::ZeroPage { byte: b1 })),
        0xC5 => Some((Mos6502InstructionCode::Cmp, AddressingMode::ZeroPage { byte: b1 })),
        0xC6 => Some((Mos6502InstructionCode::Dec, AddressingMode::ZeroPage { byte: b1 })),
        0xC8 => Some((Mos6502InstructionCode::Iny, AddressingMode::Implicit)),
        0xC9 => Some((Mos6502InstructionCode::Cmp, AddressingMode::Immediate { byte: b1 })),
        0xCA => Some((Mos6502InstructionCode::Dex, AddressingMode::Implicit)),
        0xCC => Some((Mos6502InstructionCode::Cpy, AddressingMode::Absolute { high_byte: b2, low_byte: b1 })),
        0xCD => Some((Mos6502InstructionCode::Cmp, AddressingMode::Absolute { high_byte: b2, low_byte: b1 })),
        0xCE => Some((Mos6502InstructionCode::Dec, AddressingMode::Absolute { high_byte: b2, low_byte: b1 })),
        0xD0 => Some((Mos6502InstructionCode::Bne, AddressingMode::Relative { byte: b1 })),
        0xD1 => Some((Mos6502InstructionCode::Cmp, AddressingMode::IndirectIndexed { byte: b1 })),
        0xD5 => Some((Mos6502InstructionCode::Cmp, AddressingMode::ZeroPageIndexedX { byte: b1 })),
        0xD6 => Some((Mos6502InstructionCode::Dec, AddressingMode::ZeroPageIndexedX { byte: b1 })),
        0xD8 => Some((Mos6502InstructionCode::Cld, AddressingMode::Implicit)),
        0xD9 => Some((Mos6502InstructionCode::Cmp, AddressingMode::AbsoluteIndexedY { high_byte: b2, low_byte: b1 })),
        0xDD => Some((Mos6502InstructionCode::Cmp, AddressingMode::AbsoluteIndexedX { high_byte: b2, low_byte: b1 })),
        0xDE => Some((Mos6502InstructionCode::Dec, AddressingMode::AbsoluteIndexedX { high_byte: b2, low_byte: b1 })),
        0xE0 => Some((Mos6502InstructionCode::Cpx, AddressingMode::Immediate { byte: b1 })),
        0xE1 => Some((Mos6502InstructionCode::Sbc, AddressingMode::IndexedIndirect { byte: b1 })),
        0xE4 => Some((Mos6502InstructionCode::Cpx, AddressingMode::ZeroPage { byte: b1 })),
        0xE5 => Some((Mos6502InstructionCode::Sbc, AddressingMode::ZeroPage { byte: b1 })),
        0xE6 => Some((Mos6502InstructionCode::Inc, AddressingMode::ZeroPage { byte: b1 })),
        0xE8 => Some((Mos6502InstructionCode::Inx, AddressingMode::Implicit)),
        0xE9 => Some((Mos6502InstructionCode::Sbc, AddressingMode::Immediate { byte: b1 })),
        0xEA => Some((Mos6502InstructionCode::Nop, AddressingMode::Implicit)),
        0xEC => Some((Mos6502InstructionCode::Cpx, AddressingMode::Absolute { high_byte: b2, low_byte: b1 })),
        0xED => Some((Mos6502InstructionCode::Sbc, AddressingMode::Absolute { high_byte: b2, low_byte: b1 })),
        0xEE => Some((Mos6502InstructionCode::Inc, AddressingMode::Absolute { high_byte: b2, low_byte: b1 })),
        0xF0 => Some((Mos6502InstructionCode::Beq, AddressingMode::Relative { byte: b1 })),
        0xF1 => Some((Mos6502InstructionCode::Sbc, AddressingMode::IndirectIndexed { byte: b1 })),
        0xF5 => Some((Mos6502InstructionCode::Sbc, AddressingMode::ZeroPageIndexedX { byte: b1 })),
        0xF6 => Some((Mos6502InstructionCode::Inc, AddressingMode::ZeroPageIndexedX { byte: b1 })),
        0xF8 => Some((Mos6502InstructionCode::Sed, AddressingMode::Implicit)),
        0xF9 => Some((Mos6502InstructionCode::Sbc, AddressingMode::AbsoluteIndexedY { high_byte: b2, low_byte: b1 })),
        0xFD => Some((Mos6502InstructionCode::Sbc, AddressingMode::AbsoluteIndexedX { high_byte: b2, low_byte: b1 })),
        0xFE => Some((Mos6502InstructionCode::Inc, AddressingMode::AbsoluteIndexedX { high_byte: b2, low_byte: b1 })),
        _ => None,
    }
}

/// Every documented opcode decodes to the mnemonic and addressing mode that
/// the published opcode matrix gives it, its operand taken from the bytes
/// that follow.
pub proof fn lemma_decoder_follows_the_opcode_matrix(opcode: u8, b1: u8, b2: u8)
    ensures
        published_instruction(opcode, b1, b2) matches Some((code, mode)) ==> spec_decode(opcode, b1, b2)
            == (Mos6502Instruction { instruction: code, addressing_mode: mode }),
{
    let aaa = opcode / 32;
    if aaa == 0 {
    } else if aaa == 1 {
    } else if aaa == 2 {
    } else if aaa == 3 {
    } else if aaa == 4 {
    } else if aaa == 5 {
    } else if aaa == 6 {
    } else {
    }
}

} // verus!
