use vstd::prelude::*;
use crate::alu::is_alu_mode;
use crate::bit_utils::{spec_word, two_bytes_to_word};
use crate::branch::is_jmp_mode;
use crate::control::is_bit_mode;
use crate::data_movement::{is_load_x_indexed_mode, is_load_y_indexed_mode, is_store_mode};
use crate::data_shifting::{is_memory_shifting_mode, is_shifting_mode};
use crate::instruction::{holds_instruction, operand_length, AddressingMode, Mos6502Instruction, Mos6502InstructionCode};
use crate::math::{is_compare_mode, signed};
use crate::memory::Memory;
use crate::mos6502cpu::Mos6502Cpu;
use crate::undocumented::is_lax_memory_mode;

verus! {

/// The undocumented read-modify-write instructions, whose second half
/// reads the operand address again after the first half wrote memory.
pub open spec fn is_read_modify_write(code: Mos6502InstructionCode) -> bool {
    code is Dcp || code is Isc || code is Rla || code is Rra || code is Slo || code is Sre
}

fn operand_length_of(mode: &AddressingMode) -> (r: u8)
    ensures
        r == operand_length(*mode),
{
    match mode {
        AddressingMode::Implicit | AddressingMode::Accumulator => 0,
        AddressingMode::Absolute { .. }
        | AddressingMode::Indirect { .. }
        | AddressingMode::AbsoluteIndexedX { .. }
        | AddressingMode::AbsoluteIndexedY { .. } => 2,
        _ => 1,
    }
}

fn alu_mode(mode: &AddressingMode) -> (r: bool)
    ensures
        r == is_alu_mode(*mode),
{
    match mode {
        AddressingMode::Immediate { .. }
        | AddressingMode::ZeroPage { .. }
        | AddressingMode::ZeroPageIndexedX { .. }
        | AddressingMode::IndexedIndirect { .. }
        | AddressingMode::IndirectIndexed { .. }
        | AddressingMode::Absolute { .. }
        | AddressingMode::AbsoluteIndexedX { .. }
        | AddressingMode::AbsoluteIndexedY { .. } => true,
        _ => false,
    }
}

fn shifting_mode(mode: &AddressingMode) -> (r: bool)
    ensures
        r == is_shifting_mode(*mode),
{
    match mode {
        AddressingMode::Accumulator
        | AddressingMode::ZeroPage { .. }
        | AddressingMode::ZeroPageIndexedX { .. }
        | AddressingMode::Absolute { .. }
        | AddressingMode::AbsoluteIndexedX { .. } => true,
        _ => false,
    }
}

fn memory_shifting_mode(mode: &AddressingMode) -> (r: bool)
    ensures
        r == is_memory_shifting_mode(*mode),
{
    match mode {
        AddressingMode::ZeroPage { .. }
        | AddressingMode::ZeroPageIndexedX { .. }
        | AddressingMode::Absolute { .. }
        | AddressingMode::AbsoluteIndexedX { .. } => true,
        _ => false,
    }
}

fn store_mode(mode: &AddressingMode) -> (r: bool)
    ensures
        r == is_store_mode(*mode),
{
    match mode {
        AddressingMode::ZeroPage { .. }
        | AddressingMode::ZeroPageIndexedX { .. }
        | AddressingMode::Absolute { .. }
        | AddressingMode::AbsoluteIndexedX { .. }
        | AddressingMode::AbsoluteIndexedY { .. }
        | AddressingMode::IndexedIndirect { .. }
        | AddressingMode::IndirectIndexed { .. } => true,
        _ => false,
    }
}

fn load_y_indexed_mode(mode: &AddressingMode) -> (r: bool)
    ensures
        r == is_load_y_indexed_mode(*mode),
{
    match mode {
        AddressingMode::Immediate { .. }
        | AddressingMode::ZeroPage { .. }
        | AddressingMode::ZeroPageIndexedY { .. }
        | AddressingMode::Absolute { .. }
        | AddressingMode::AbsoluteIndexedY { .. } => true,
        _ => false,
    }
}

fn load_x_indexed_mode(mode: &AddressingMode) -> (r: bool)
    ensures
        r == is_load_x_indexed_mode(*mode),
{
    match mode {
        AddressingMode::Immediate { .. }
        | AddressingMode::ZeroPage { .. }
        | AddressingMode::ZeroPageIndexedX { .. }
        | AddressingMode::Absolute { .. }
        | AddressingMode::AbsoluteIndexedX { .. } => true,
        _ => false,
    }
}

fn lax_memory_mode(mode: &AddressingMode) -> (r: bool)
    ensures
        r == is_lax_memory_mode(*mode),
{
    match mode {
        AddressingMode::ZeroPage { .. }
        | AddressingMode::ZeroPageIndexedY { .. }
        | AddressingMode::IndexedIndirect { .. }
        | AddressingMode::IndirectIndexed { .. }
        | AddressingMode::Absolute { .. }
        | AddressingMode::AbsoluteIndexedY { .. } => true,
        _ => false,
    }
}

impl<M: Memory> Mos6502Cpu<M> {
    /// Whether the address of `mode` can be computed in 16 bits.
    fn mode_is_safe(&self, mode: &AddressingMode) -> (r: bool)
        ensures
            r == self.mode_safe(*mode),
    {
        match mode {
            AddressingMode::AbsoluteIndexedX { high_byte, low_byte } => {
                let base = two_bytes_to_word(*high_byte, *low_byte);
                base as u32 + self.registers.x as u32 <= 0xFFFF
            },
            AddressingMode::AbsoluteIndexedY { high_byte, low_byte } => {
                let base = two_bytes_to_word(*high_byte, *low_byte);
                base as u32 + self.registers.y as u32 <= 0xFFFF
            },
            AddressingMode::IndirectIndexed { byte } => {
                let low_byte = self.memory.get(*byte as u16);
                let high_byte = self.memory.get(*byte as u16 + 1);
                let base = two_bytes_to_word(high_byte, low_byte);
                base as u32 + self.registers.y as u32 <= 0xFFFF
            },
            _ => true,
        }
    }

    /// Whether `mode` names an address that a jump can use.
    fn address_is_safe(&self, mode: &AddressingMode) -> (r: bool)
        ensures
            r == self.address_safe(*mode),
    {
        if !self.mode_is_safe(mode) {
            return false;
        }
        match mode {
            AddressingMode::Indirect { high_byte, low_byte } => two_bytes_to_word(*high_byte, *low_byte) < 0xFFFF,
            _ => true,
        }
    }

    /// Whether a branch by `mode`, taken when `condition` holds, stays in the
    /// address space when the program counter is `pc`.
    fn branch_is_safe(&self, pc: u16, mode: &AddressingMode, condition: bool) -> (r: bool)
        ensures
            r == self.with_pc(pc).branch_pre(*mode, condition),
    {
        match mode {
            AddressingMode::Relative { byte } => {
                if !condition {
                    true
                } else if *byte >= 0x80 {
                    pc as i32 + (*byte as i32 - 256) >= 0
                } else {
                    pc as i32 + *byte as i32 <= 0xFFFF
                }
            },
            _ => true,
        }
    }

    /// The return address that RTS would pull.
    fn pulled_word(&self) -> (r: u16)
        ensures
            r == self.spec_pulled_word(),
    {
        let first = self.registers.s.wrapping_add(1);
        let second = first.wrapping_add(1);
        let low_byte = self.memory.get(0x100 + first as u16);
        let high_byte = self.memory.get(0x100 + second as u16);
        two_bytes_to_word(high_byte, low_byte)
    }

    /// Whether `instruction` can run, with the program counter at `pc`,
    /// within the machine's arithmetic. It answers exactly, except for the
    /// undocumented read-modify-write instructions in indirect-indexed mode
    /// with a non-zero Y, which it refuses.
    pub fn can_execute_at(&self, pc: u16, instruction: &Mos6502Instruction) -> (r: bool)
        ensures
            r ==> self.with_pc(pc).pre_execute(*instruction),
            !(is_read_modify_write(instruction.instruction) && instruction.addressing_mode is IndirectIndexed
                && self.registers.y != 0) ==> (r == self.with_pc(pc).pre_execute(*instruction)),
    {
        let mode = &instruction.addressing_mode;
        let p = self.registers.p;
        proof {
            assert(self.with_pc(pc).mode_safe(*mode) == self.mode_safe(*mode));
            assert(self.with_pc(pc).address_safe(*mode) == self.address_safe(*mode));
            assert(self.with_pc(pc).spec_pulled_word() == self.spec_pulled_word());
        }
        match instruction.instruction {
            Mos6502InstructionCode::Adc | Mos6502InstructionCode::And | Mos6502InstructionCode::Cmp
            | Mos6502InstructionCode::Eor | Mos6502InstructionCode::Lda | Mos6502InstructionCode::Ora
            | Mos6502InstructionCode::Sbc => !alu_mode(mode) || self.mode_is_safe(mode),
            Mos6502InstructionCode::Ahx => match mode {
                AddressingMode::IndirectIndexed { .. } | AddressingMode::AbsoluteIndexedY { .. } => self.mode_is_safe(
                    mode,
                ),
                _ => true,
            },
            Mos6502InstructionCode::Asl | Mos6502InstructionCode::Lsr | Mos6502InstructionCode::Rol
            | Mos6502InstructionCode::Ror => !shifting_mode(mode) || self.mode_is_safe(mode),
            Mos6502InstructionCode::Axs => match mode {
                AddressingMode::Immediate { byte } => *byte != 0,
                _ => true,
            },
            Mos6502InstructionCode::Bcc => self.branch_is_safe(pc, mode, !p.carry),
            Mos6502InstructionCode::Bcs => self.branch_is_safe(pc, mode, p.carry),
            Mos6502InstructionCode::Beq => self.branch_is_safe(pc, mode, p.zero),
            Mos6502InstructionCode::Bmi => self.branch_is_safe(pc, mode, p.negative),
            Mos6502InstructionCode::Bne => self.branch_is_safe(pc, mode, !p.zero),
            Mos6502InstructionCode::Bpl => self.branch_is_safe(pc, mode, !p.negative),
            Mos6502InstructionCode::Bvc => self.branch_is_safe(pc, mode, !p.overflow),
            Mos6502InstructionCode::Bvs => self.branch_is_safe(pc, mode, p.overflow),
            Mos6502InstructionCode::Bit => match mode {
                AddressingMode::ZeroPage { .. } | AddressingMode::Absolute { .. } => self.mode_is_safe(mode),
                _ => true,
            },
            Mos6502InstructionCode::Brk | Mos6502InstructionCode::Irq | Mos6502InstructionCode::Rst => match mode {
                AddressingMode::Implicit => p.interrupt_disable || pc < 0xFFFF,
                _ => true,
            },
            Mos6502InstructionCode::Nmi => match mode {
                AddressingMode::Implicit => pc < 0xFFFF,
                _ => true,
            },
            Mos6502InstructionCode::Cpx | Mos6502InstructionCode::Cpy => match mode {
                AddressingMode::Immediate { .. } | AddressingMode::ZeroPage { .. } | AddressingMode::Absolute {
                    ..
                } => self.mode_is_safe(mode),
                _ => true,
            },
            Mos6502InstructionCode::Dcp | Mos6502InstructionCode::Isc | Mos6502InstructionCode::Rla
            | Mos6502InstructionCode::Rra | Mos6502InstructionCode::Slo | Mos6502InstructionCode::Sre => {
                if !store_mode(mode) {
                    true
                } else {
                    match mode {
                        AddressingMode::IndirectIndexed { .. } => self.registers.y == 0,
                        _ => self.mode_is_safe(mode),
                    }
                }
            },
            Mos6502InstructionCode::Dec | Mos6502InstructionCode::Inc => !memory_shifting_mode(mode) || self.mode_is_safe(
                mode,
            ),
            Mos6502InstructionCode::Jmp => match mode {
                AddressingMode::Indirect { .. } | AddressingMode::Absolute { .. } => self.address_is_safe(mode),
                _ => true,
            },
            Mos6502InstructionCode::Jsr => match mode {
                AddressingMode::Absolute { .. } => pc >= 1,
                _ => true,
            },
            Mos6502InstructionCode::Las | Mos6502InstructionCode::Shx | Mos6502InstructionCode::Tas => match mode {
                AddressingMode::AbsoluteIndexedY { .. } => self.mode_is_safe(mode),
                _ => true,
            },
            Mos6502InstructionCode::Shy => match mode {
                AddressingMode::AbsoluteIndexedX { .. } => self.mode_is_safe(mode),
                _ => true,
            },
            Mos6502InstructionCode::Lax => !lax_memory_mode(mode) || self.mode_is_safe(mode),
            Mos6502InstructionCode::Ldx => !load_y_indexed_mode(mode) || self.mode_is_safe(mode),
            Mos6502InstructionCode::Ldy => !load_x_indexed_mode(mode) || self.mode_is_safe(mode),
            Mos6502InstructionCode::Rts => match mode {
                AddressingMode::Implicit => self.pulled_word() < 0xFFFF,
                _ => true,
            },
            Mos6502InstructionCode::Sta => !store_mode(mode) || self.mode_is_safe(mode),
            _ => true,
        }
    }

    /// Whether the next `execute` can run within the machine's arithmetic:
    /// the instruction is whole in memory, the program counter can move past
    /// it, and the instruction itself can run (see `can_execute_at`).
    pub fn can_step(&self) -> (r: bool)
        ensures
            r ==> self.pre_step(),
            !(is_read_modify_write(self.spec_next_instruction().instruction)
                && self.spec_next_instruction().addressing_mode is IndirectIndexed && self.registers.y != 0) ==> (r
                == self.pre_step()),
    {
        let bytes = self.get_next_instruction_bytes();
        if bytes.len() == 0 {
            return false;
        }
        let probe_bytes = vec![bytes[0], 0, 0];
        let probe = Mos6502Instruction::from(probe_bytes);
        let needed = 1 + operand_length_of(&probe.addressing_mode) as usize;
        if bytes.len() < needed {
            return false;
        }
        assert(holds_instruction(bytes@));
        let instruction = Mos6502Instruction::from(bytes);
        match instruction.size() {
            Err(_) => true,
            Ok(size) => {
                if self.registers.pc as u32 + size as u32 > 0xFFFF {
                    false
                } else {
                    self.can_execute_at(self.registers.pc + size as u16, &instruction)
                }
            },
        }
    }
}

} // verus!
