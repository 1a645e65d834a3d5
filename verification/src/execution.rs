use vstd::prelude::*;
use crate::alu::is_alu_mode;
use crate::branch::is_jmp_mode;
use crate::control::is_bit_mode;
use crate::data_movement::{
    is_load_x_indexed_mode, is_load_y_indexed_mode, is_stx_mode, is_store_mode, is_sty_mode,
};
use crate::data_shifting::{is_memory_shifting_mode, is_shifting_mode};
use crate::instruction::{
    holds_instruction, spec_decode_bytes, AddressingMode, Cycles, Mos6502Instruction,
    Mos6502InstructionCode, Mos6502InstructionError,
};
use crate::math::is_compare_mode;
use crate::memory::{Memory, AVAILABLE_MEMORY};
use crate::mos6502cpu::{CpuError, CpuResult, Mos6502Cpu, ProcessorStatus};
use crate::undocumented::{is_lax_memory_mode, is_sax_mode};

verus! {

/// Why a fetch-decode-execute step failed.
#[derive(Clone, Copy, Debug, PartialEq, Eq, Structural)]
pub enum ExecutionError {
    Instruction(Mos6502InstructionError),
    Cpu(CpuError),
}

impl<M: Memory> Mos6502Cpu<M> {
    /// What executing `instruction` does to the processor, and its outcome.
    pub open spec fn spec_execute(self, instruction: Mos6502Instruction) -> (Self, CpuResult) {
        let mode = instruction.addressing_mode;
        let a = self.registers.a;
        let x = self.registers.x;
        let y = self.registers.y;
        let p = self.registers.p;
        match instruction.instruction {
            Mos6502InstructionCode::Adc => self.spec_adc(mode),
            Mos6502InstructionCode::Ahx => self.spec_ahx(mode),
            Mos6502InstructionCode::Alr => self.spec_alr(mode),
            Mos6502InstructionCode::Anc => self.spec_anc(mode),
            Mos6502InstructionCode::And => self.checked(is_alu_mode(mode), self.spec_and_unchecked(mode)),
            Mos6502InstructionCode::Arr => self.spec_arr(mode),
            Mos6502InstructionCode::Asl => self.checked(is_shifting_mode(mode), self.spec_asl_unchecked(mode)),
            Mos6502InstructionCode::Axs => self.spec_axs(mode),
            Mos6502InstructionCode::Bcc => self.spec_branch(mode, !p.carry),
            Mos6502InstructionCode::Bcs => self.spec_branch(mode, p.carry),
            Mos6502InstructionCode::Beq => self.spec_branch(mode, p.zero),
            Mos6502InstructionCode::Bit => self.spec_bit(mode),
            Mos6502InstructionCode::Bmi => self.spec_branch(mode, p.negative),
            Mos6502InstructionCode::Bne => self.spec_branch(mode, !p.zero),
            Mos6502InstructionCode::Bpl => self.spec_branch(mode, !p.negative),
            Mos6502InstructionCode::Brk => self.spec_brk(mode),
            Mos6502InstructionCode::Bvc => self.spec_branch(mode, !p.overflow),
            Mos6502InstructionCode::Bvs => self.spec_branch(mode, p.overflow),
            Mos6502InstructionCode::Clc => self.spec_set_flags(mode, ProcessorStatus { carry: false, ..p }),
            Mos6502InstructionCode::Cld => self.spec_set_flags(mode, ProcessorStatus { decimal: false, ..p }),
            Mos6502InstructionCode::Cli => self.spec_set_flags(
                mode,
                ProcessorStatus { interrupt_disable: false, ..p },
            ),
            Mos6502InstructionCode::Clv => self.spec_set_flags(mode, ProcessorStatus { overflow: false, ..p }),
            Mos6502InstructionCode::Cmp => self.checked(is_alu_mode(mode), self.spec_compare_unchecked(a, mode)),
            Mos6502InstructionCode::Cpx => self.checked(is_compare_mode(mode), self.spec_compare_unchecked(x, mode)),
            Mos6502InstructionCode::Cpy => self.checked(is_compare_mode(mode), self.spec_compare_unchecked(y, mode)),
            Mos6502InstructionCode::Dcp => self.spec_dcp(mode),
            Mos6502InstructionCode::Dec => self.checked(
                is_memory_shifting_mode(mode),
                self.spec_dec_unchecked(mode),
            ),
            Mos6502InstructionCode::Dex => self.implicit_only(
                mode,
                self.with_x(((x + 255) % 256) as u8).with_zn(((x + 255) % 256) as u8),
            ),
            Mos6502InstructionCode::Dey => self.implicit_only(
                mode,
                self.with_y(((y + 255) % 256) as u8).with_zn(((y + 255) % 256) as u8),
            ),
            Mos6502InstructionCode::Eor => self.checked(is_alu_mode(mode), self.spec_eor_unchecked(mode)),
            Mos6502InstructionCode::Inc => self.checked(
                is_memory_shifting_mode(mode),
                self.spec_inc_unchecked(mode),
            ),
            Mos6502InstructionCode::Inx => self.implicit_only(
                mode,
                self.with_x(((x + 1) % 256) as u8).with_zn(((x + 1) % 256) as u8),
            ),
            Mos6502InstructionCode::Iny => self.implicit_only(
                mode,
                self.with_y(((y + 1) % 256) as u8).with_zn(((y + 1) % 256) as u8),
            ),
            Mos6502InstructionCode::Irq => self.spec_brk(mode),
            Mos6502InstructionCode::Isc => self.spec_isc(mode),
            Mos6502InstructionCode::Jmp => self.checked(
                is_jmp_mode(mode),
                (self.with_pc(self.mode_address(mode) as u16), Ok(())),
            ),
            Mos6502InstructionCode::Jsr => self.spec_jsr(mode),
            Mos6502InstructionCode::Las => self.spec_las(mode),
            Mos6502InstructionCode::Lax => self.spec_lax(mode),
            Mos6502InstructionCode::Lda => self.checked(is_alu_mode(mode), self.spec_lda_unchecked(mode)),
            Mos6502InstructionCode::Ldx => self.checked(
                is_load_y_indexed_mode(mode),
                self.spec_ldx_unchecked(mode),
            ),
            Mos6502InstructionCode::Ldy => self.checked(
                is_load_x_indexed_mode(mode),
                (self.with_y(self.mode_value(mode)).with_zn(self.mode_value(mode)), Ok(())),
            ),
            Mos6502InstructionCode::Lsr => self.checked(is_shifting_mode(mode), self.spec_lsr_unchecked(mode)),
            Mos6502InstructionCode::Nmi => self.implicit_only(mode, self.spec_interruption(0)),
            Mos6502InstructionCode::Nop => (self, Ok(())),
            Mos6502InstructionCode::Ora => self.checked(is_alu_mode(mode), self.spec_ora_unchecked(mode)),
            Mos6502InstructionCode::Pha => self.implicit_only(mode, self.spec_push(a)),
            Mos6502InstructionCode::Php => self.implicit_only(mode, self.spec_push(p.spec_to_byte())),
            Mos6502InstructionCode::Pla => self.implicit_only(mode, self.spec_pla()),
            Mos6502InstructionCode::Plp => self.implicit_only(mode, self.spec_plp()),
            Mos6502InstructionCode::Rla => self.spec_rla(mode),
            Mos6502InstructionCode::Rol => self.checked(is_shifting_mode(mode), self.spec_rol_unchecked(mode)),
            Mos6502InstructionCode::Ror => self.checked(is_shifting_mode(mode), self.spec_ror_unchecked(mode)),
            Mos6502InstructionCode::Rra => self.spec_rra(mode),
            Mos6502InstructionCode::Rst => self.spec_rst(mode),
            Mos6502InstructionCode::Rti => self.implicit_only(mode, self.spec_rti()),
            Mos6502InstructionCode::Rts => self.implicit_only(mode, self.spec_rts()),
            Mos6502InstructionCode::Sax => self.checked(is_sax_mode(mode), self.spec_store(mode, a & x)),
            Mos6502InstructionCode::Sbc => self.spec_sbc(mode),
            Mos6502InstructionCode::Sec => self.spec_set_flags(mode, ProcessorStatus { carry: true, ..p }),
            Mos6502InstructionCode::Sed => self.spec_set_flags(mode, ProcessorStatus { decimal: true, ..p }),
            Mos6502InstructionCode::Sei => self.spec_set_flags(
                mode,
                ProcessorStatus { interrupt_disable: true, ..p },
            ),
            Mos6502InstructionCode::Shx => self.checked(mode is AbsoluteIndexedY, self.spec_store_high_and(mode, x)),
            Mos6502InstructionCode::Shy => self.checked(mode is AbsoluteIndexedX, self.spec_store_high_and(mode, y)),
            Mos6502InstructionCode::Slo => self.spec_slo(mode),
            Mos6502InstructionCode::Sre => self.spec_sre(mode),
            Mos6502InstructionCode::Sta => self.checked(is_store_mode(mode), (self.spec_store_at_address(mode, a), Ok(()))),
            Mos6502InstructionCode::Stx => self.checked(is_stx_mode(mode), (self.spec_store_at_address(mode, x), Ok(()))),
            Mos6502InstructionCode::Sty => self.checked(is_sty_mode(mode), (self.spec_store_at_address(mode, y), Ok(()))),
            Mos6502InstructionCode::Tas => self.spec_tas(mode),
            Mos6502InstructionCode::Tax => self.implicit_only(mode, self.with_x(a).with_zn(a)),
            Mos6502InstructionCode::Tay => self.implicit_only(mode, self.with_y(a).with_zn(a)),
            Mos6502InstructionCode::Tsx => self.implicit_only(
                mode,
                self.with_x(self.registers.s).with_zn(self.registers.s),
            ),
            Mos6502InstructionCode::Txa => self.implicit_only(mode, self.with_a(x).with_zn(x)),
            Mos6502InstructionCode::Txs => self.implicit_only(mode, self.with_s(x)),
            Mos6502InstructionCode::Tya => self.implicit_only(mode, self.with_a(y).with_zn(y)),
            Mos6502InstructionCode::Xaa => self.spec_xaa(mode),
        }
    }

    /// Executing `instruction` stays within the machine's arithmetic: no
    /// 16-bit address computation overflows and no zero operand is negated.
    pub open spec fn pre_execute(self, instruction: Mos6502Instruction) -> bool {
        let mode = instruction.addressing_mode;
        let p = self.registers.p;
        match instruction.instruction {
            Mos6502InstructionCode::Adc | Mos6502InstructionCode::And | Mos6502InstructionCode::Cmp
            | Mos6502InstructionCode::Eor | Mos6502InstructionCode::Lda | Mos6502InstructionCode::Ora
            | Mos6502InstructionCode::Sbc => is_alu_mode(mode) ==> self.mode_safe(mode),
            Mos6502InstructionCode::Ahx => (mode is IndirectIndexed || mode is AbsoluteIndexedY)
                ==> self.mode_safe(mode),
            Mos6502InstructionCode::Asl | Mos6502InstructionCode::Lsr | Mos6502InstructionCode::Rol
            | Mos6502InstructionCode::Ror => is_shifting_mode(mode) ==> self.mode_safe(mode),
            Mos6502InstructionCode::Axs => mode matches AddressingMode::Immediate { byte } ==> byte != 0,
            Mos6502InstructionCode::Bcc => self.branch_pre(mode, !p.carry),
            Mos6502InstructionCode::Bcs => self.branch_pre(mode, p.carry),
            Mos6502InstructionCode::Beq => self.branch_pre(mode, p.zero),
            Mos6502InstructionCode::Bmi => self.branch_pre(mode, p.negative),
            Mos6502InstructionCode::Bne => self.branch_pre(mode, !p.zero),
            Mos6502InstructionCode::Bpl => self.branch_pre(mode, !p.negative),
            Mos6502InstructionCode::Bvc => self.branch_pre(mode, !p.overflow),
            Mos6502InstructionCode::Bvs => self.branch_pre(mode, p.overflow),
            Mos6502InstructionCode::Bit => is_bit_mode(mode) ==> self.mode_safe(mode),
            Mos6502InstructionCode::Brk | Mos6502InstructionCode::Irq | Mos6502InstructionCode::Rst => self.interrupt_pre(
                mode,
                !p.interrupt_disable,
            ),
            Mos6502InstructionCode::Nmi => self.interrupt_pre(mode, true),
            Mos6502InstructionCode::Cpx | Mos6502InstructionCode::Cpy => is_compare_mode(mode)
                ==> self.mode_safe(mode),
            Mos6502InstructionCode::Dcp => self.dcp_pre(mode),
            Mos6502InstructionCode::Isc => self.isc_pre(mode),
            Mos6502InstructionCode::Rla => self.rla_pre(mode),
            Mos6502InstructionCode::Rra => self.rra_pre(mode),
            Mos6502InstructionCode::Slo => self.slo_pre(mode),
            Mos6502InstructionCode::Sre => self.sre_pre(mode),
            Mos6502InstructionCode::Dec | Mos6502InstructionCode::Inc => is_memory_shifting_mode(mode)
                ==> self.mode_safe(mode),
            Mos6502InstructionCode::Jmp => is_jmp_mode(mode) ==> self.address_safe(mode),
            Mos6502InstructionCode::Jsr => mode is Absolute ==> self.registers.pc >= 1,
            Mos6502InstructionCode::Las | Mos6502InstructionCode::Shx | Mos6502InstructionCode::Tas => mode
                is AbsoluteIndexedY ==> self.mode_safe(mode),
            Mos6502InstructionCode::Shy => mode is AbsoluteIndexedX ==> self.mode_safe(mode),
            Mos6502InstructionCode::Lax => is_lax_memory_mode(mode) ==> self.mode_safe(mode),
            Mos6502InstructionCode::Ldx => is_load_y_indexed_mode(mode) ==> self.mode_safe(mode),
            Mos6502InstructionCode::Ldy => is_load_x_indexed_mode(mode) ==> self.mode_safe(mode),
            Mos6502InstructionCode::Rts => self.rts_pre(mode),
            Mos6502InstructionCode::Sta => is_store_mode(mode) ==> self.mode_safe(mode),
            _ => true,
        }
    }

    /// Executes one decoded instruction.
    pub fn execute_instruction(&mut self, instruction: &Mos6502Instruction) -> (r: CpuResult)
        requires
            old(self).pre_execute(*instruction),
        ensures
            (*final(self), r) == old(self).spec_execute(*instruction),
    {
        if !self.can_run(instruction) {
            return Ok(());
        }
        let mode = &instruction.addressing_mode;
        match instruction.instruction {
            Mos6502InstructionCode::Adc => self.execute_adc(mode),
            Mos6502InstructionCode::Ahx => self.execute_ahx(mode),
            Mos6502InstructionCode::Alr => self.execute_alr(mode),
            Mos6502InstructionCode::Anc => self.execute_anc(mode),
            Mos6502InstructionCode::And => self.execute_and(mode),
            Mos6502InstructionCode::Arr => self.execute_arr(mode),
            Mos6502InstructionCode::Asl => self.execute_asl(mode),
            Mos6502InstructionCode::Axs => self.execute_axs(mode),
            Mos6502InstructionCode::Bcc => self.execute_bcc(mode),
            Mos6502InstructionCode::Bcs => self.execute_bcs(mode),
            Mos6502InstructionCode::Beq => self.execute_beq(mode),
            Mos6502InstructionCode::Bit => self.execute_bit(mode),
            Mos6502InstructionCode::Bmi => self.execute_bmi(mode),
            Mos6502InstructionCode::Bne => self.execute_bne(mode),
            Mos6502InstructionCode::Bpl => self.execute_bpl(mode),
            Mos6502InstructionCode::Brk => self.execute_brk(mode),
            Mos6502InstructionCode::Bvc => self.execute_bvc(mode),
            Mos6502InstructionCode::Bvs => self.execute_bvs(mode),
            Mos6502InstructionCode::Clc => self.execute_clc(mode),
            Mos6502InstructionCode::Cld => self.execute_cld(mode),
            Mos6502InstructionCode::Cli => self.execute_cli(mode),
            Mos6502InstructionCode::Clv => self.execute_clv(mode),
            Mos6502InstructionCode::Cmp => self.execute_cmp(mode),
            Mos6502InstructionCode::Cpx => self.execute_cpx(mode),
            Mos6502InstructionCode::Cpy => self.execute_cpy(mode),
            Mos6502InstructionCode::Dcp => self.execute_dcp(mode),
            Mos6502InstructionCode::Dec => self.execute_dec(mode),
            Mos6502InstructionCode::Dex => self.execute_dex(mode),
            Mos6502InstructionCode::Dey => self.execute_dey(mode),
            Mos6502InstructionCode::Eor => self.execute_eor(mode),
            Mos6502InstructionCode::Inc => self.execute_inc(mode),
            Mos6502InstructionCode::Inx => self.execute_inx(mode),
            Mos6502InstructionCode::Iny => self.execute_iny(mode),
            Mos6502InstructionCode::Irq => self.execute_brk(mode),
            Mos6502InstructionCode::Isc => self.execute_isc(mode),
            Mos6502InstructionCode::Jmp => self.execute_jmp(mode),
            Mos6502InstructionCode::Jsr => self.execute_jsr(mode),
            Mos6502InstructionCode::Las => self.execute_las(mode),
            Mos6502InstructionCode::Lax => self.execute_lax(mode),
            Mos6502InstructionCode::Lda => self.execute_lda(mode),
            Mos6502InstructionCode::Ldx => self.execute_ldx(mode),
            Mos6502InstructionCode::Ldy => self.execute_ldy(mode),
            Mos6502InstructionCode::Lsr => self.execute_lsr(mode),
            Mos6502InstructionCode::Nmi => self.execute_nmi(mode),
            Mos6502InstructionCode::Nop => {
                self.execute_nop();
                Ok(())
            },
            Mos6502InstructionCode::Ora => self.execute_ora(mode),
            Mos6502InstructionCode::Pha => self.execute_pha(mode),
            Mos6502InstructionCode::Php => self.execute_php(mode),
            Mos6502InstructionCode::Pla => self.execute_pla(mode),
            Mos6502InstructionCode::Plp => self.execute_plp(mode),
            Mos6502InstructionCode::Rla => self.execute_rla(mode),
            Mos6502InstructionCode::Rol => self.execute_rol(mode),
            Mos6502InstructionCode::Ror => self.execute_ror(mode),
            Mos6502InstructionCode::Rra => self.execute_rra(mode),
            Mos6502InstructionCode::Rst => self.execute_rst(mode),
            Mos6502InstructionCode::Rti => self.execute_rti(mode),
            Mos6502InstructionCode::Rts => self.execute_rts(mode),
            Mos6502InstructionCode::Sax => self.execute_sax(mode),
            Mos6502InstructionCode::Sbc => self.execute_sbc(mode),
            Mos6502InstructionCode::Sec => self.execute_sec(mode),
            Mos6502InstructionCode::Sed => self.execute_sed(mode),
            Mos6502InstructionCode::Sei => self.execute_sei(mode),
            Mos6502InstructionCode::Shx => self.execute_shx(mode),
            Mos6502InstructionCode::Shy => self.execute_shy(mode),
            Mos6502InstructionCode::Slo => self.execute_slo(mode),
            Mos6502InstructionCode::Sre => self.execute_sre(mode),
            Mos6502InstructionCode::Sta => self.execute_sta(mode),
            Mos6502InstructionCode::Stx => self.execute_stx(mode),
            Mos6502InstructionCode::Sty => self.execute_sty(mode),
            Mos6502InstructionCode::Tas => self.execute_tas(mode),
            Mos6502InstructionCode::Tax => self.execute_tax(mode),
            Mos6502InstructionCode::Tay => self.execute_tay(mode),
            Mos6502InstructionCode::Tsx => self.execute_tsx(mode),
            Mos6502InstructionCode::Txa => self.execute_txa(mode),
            Mos6502InstructionCode::Txs => self.execute_txs(mode),
            Mos6502InstructionCode::Tya => self.execute_tya(mode),
            Mos6502InstructionCode::Xaa => self.execute_xaa(mode),
        }
    }

    fn execute_nop(&self) {
    }

    /// Every instruction may run.
    pub fn can_run(&self, instruction: &Mos6502Instruction) -> (r: bool)
        ensures
            r,
    {
        true
    }

    pub fn get_pc(&self) -> (r: u16)
        ensures
            r == self.registers.pc,
    {
        self.registers.pc
    }

    /// Whether the program counter has left the address space; a 16-bit
    /// program counter never does.
    pub fn is_done(&self) -> (r: bool)
        ensures
            r == (self.registers.pc >= AVAILABLE_MEMORY),
    {
        self.registers.pc as usize >= AVAILABLE_MEMORY
    }

    /// Moves the program counter forward by `steps`.
    pub fn increase_pc(&mut self, steps: u8)
        requires
            old(self).registers.pc + steps <= 0xFFFF,
        ensures
            *final(self) == old(self).with_pc((old(self).registers.pc + steps) as u16),
    {
        self.registers.pc += steps as u16
    }

    /// The bytes from the program counter on, up to three and no further
    /// than the end of memory.
    pub open spec fn spec_next_instruction_bytes(self) -> Seq<u8> {
        let from = self.registers.pc as int;
        let to = if from + 3 < self.memory.spec_len() {
            from + 3
        } else {
            self.memory.spec_len() as int
        };
        Seq::new((if to > from { to - from } else { 0 }) as nat, |i: int| self.read((from + i) as u16))
    }

    pub fn get_next_instruction_bytes(&self) -> (r: Vec<u8>)
        ensures
            r@ == self.spec_next_instruction_bytes(),
    {
        let mut res = Vec::with_capacity(3);
        let from = self.registers.pc as usize;
        let len = self.memory.len();
        let to = if from + 3 < len { from + 3 } else { len };
        let mut i = from;
        while i < to
            invariant
                from == self.registers.pc,
                to == (if from + 3 < self.memory.spec_len() {
                    from + 3
                } else {
                    self.memory.spec_len() as int
                }),
                from <= i,
                i <= to || i == from,
                res@.len() == i - from,
                forall|k: int| 0 <= k < res@.len() ==> res@[k] == self.read((from + k) as u16),
            decreases to - i,
        {
            res.push(self.memory.get(i as u16));
            i += 1;
        }
        assert(res@ =~= self.spec_next_instruction_bytes());
        res
    }

    /// The cycles of an instruction whose count depends only on whether a
    /// page was crossed.
    pub open spec fn spec_cycles_from_one_condition(
        self,
        instruction: Mos6502Instruction,
        not_met: u8,
        met: u8,
    ) -> Result<u8, ExecutionError> {
        match instruction.instruction {
            Mos6502InstructionCode::Adc | Mos6502InstructionCode::And | Mos6502InstructionCode::Cmp
            | Mos6502InstructionCode::Eor | Mos6502InstructionCode::Lax | Mos6502InstructionCode::Lda
            | Mos6502InstructionCode::Ldx | Mos6502InstructionCode::Ldy | Mos6502InstructionCode::Nop
            | Mos6502InstructionCode::Ora | Mos6502InstructionCode::Sbc => Ok(
                if self.page_crossed {
                    met
                } else {
                    not_met
                },
            ),
            _ => Err(ExecutionError::Cpu(CpuError::InvalidCyclesCalculation)),
        }
    }

    /// The condition under which a branch instruction is taken.
    pub open spec fn branch_condition(self, code: Mos6502InstructionCode) -> Option<bool> {
        let p = self.registers.p;
        match code {
            Mos6502InstructionCode::Bcc => Some(!p.carry),
            Mos6502InstructionCode::Bcs => Some(p.carry),
            Mos6502InstructionCode::Beq => Some(p.zero),
            Mos6502InstructionCode::Bmi => Some(p.negative),
            Mos6502InstructionCode::Bne => Some(!p.zero),
            Mos6502InstructionCode::Bpl => Some(!p.negative),
            Mos6502InstructionCode::Bvc => Some(!p.overflow),
            Mos6502InstructionCode::Bvs => Some(p.overflow),
            _ => None,
        }
    }

    /// The cycles of a branch: untaken, taken, or taken across a page.
    pub open spec fn spec_cycles_from_two_conditions(
        self,
        instruction: Mos6502Instruction,
        not_met: u8,
        first_met: u8,
        second_met: u8,
    ) -> Result<u8, ExecutionError> {
        match self.branch_condition(instruction.instruction) {
            Some(condition) => Ok(
                if condition {
                    if self.page_crossed {
                        second_met
                    } else {
                        first_met
                    }
                } else {
                    not_met
                },
            ),
            None => Err(ExecutionError::Cpu(CpuError::InvalidCyclesCalculation)),
        }
    }

    /// The cycle count of `instruction` in the current state.
    pub open spec fn spec_cycles_for_instruction(self, instruction: Mos6502Instruction) -> Result<
        u8,
        ExecutionError,
    > {
        match instruction.spec_cycles() {
            Err(e) => Err(ExecutionError::Instruction(e)),
            Ok(Cycles::Single(cycles)) => Ok(cycles),
            Ok(Cycles::OneCondition { not_met, met }) => self.spec_cycles_from_one_condition(
                instruction,
                not_met,
                met,
            ),
            Ok(Cycles::TwoConditions { not_met, first_met, second_met }) => self.spec_cycles_from_two_conditions(
                instruction,
                not_met,
                first_met,
                second_met,
            ),
        }
    }

    /// Counts the cycles of `instruction`; on success the page flag is
    /// cleared for the next instruction.
    pub fn get_cycles_for_instruction(&mut self, instruction: &Mos6502Instruction) -> (r: Result<
        u8,
        ExecutionError,
    >)
        ensures
            r == old(self).spec_cycles_for_instruction(*instruction),
            r is Ok ==> *final(self) == (Mos6502Cpu { page_crossed: false, ..*old(self) }),
            r is Err ==> *final(self) == *old(self),
    {
        let cycles = match instruction.get_cycles() {
            Err(e) => return Err(ExecutionError::Instruction(e)),
            Ok(Cycles::Single(cycles)) => cycles,
            Ok(Cycles::OneCondition { not_met, met }) => {
                self.get_cycles_from_one_condition(instruction, not_met, met)?
            },
            Ok(Cycles::TwoConditions { not_met, first_met, second_met }) => {
                self.get_cycles_from_two_conditions(instruction, not_met, first_met, second_met)?
            },
        };
        self.page_crossed = false;
        Ok(cycles)
    }

    pub fn get_cycles_from_one_condition(
        &self,
        instruction: &Mos6502Instruction,
        not_met: u8,
        met: u8,
    ) -> (r: Result<u8, ExecutionError>)
        ensures
            r == self.spec_cycles_from_one_condition(*instruction, not_met, met),
    {
        match instruction.instruction {
            Mos6502InstructionCode::Adc | Mos6502InstructionCode::And | Mos6502InstructionCode::Cmp
            | Mos6502InstructionCode::Eor | Mos6502InstructionCode::Lax | Mos6502InstructionCode::Lda
            | Mos6502InstructionCode::Ldx | Mos6502InstructionCode::Ldy | Mos6502InstructionCode::Nop
            | Mos6502InstructionCode::Ora | Mos6502InstructionCode::Sbc => {
                if self.page_crossed {
                    Ok(met)
                } else {
                    Ok(not_met)
                }
            },
            _ => Err(ExecutionError::Cpu(CpuError::InvalidCyclesCalculation)),
        }
    }

    pub fn get_cycles_from_two_conditions(
        &self,
        instruction: &Mos6502Instruction,
        not_met: u8,
        first_met: u8,
        second_met: u8,
    ) -> (r: Result<u8, ExecutionError>)
        ensures
            r == self.spec_cycles_from_two_conditions(*instruction, not_met, first_met, second_met),
    {
        let condition = match instruction.instruction {
            Mos6502InstructionCode::Bcc => !self.registers.p.carry,
            Mos6502InstructionCode::Bcs => self.registers.p.carry,
            Mos6502InstructionCode::Beq => self.registers.p.zero,
            Mos6502InstructionCode::Bmi => self.registers.p.negative,
            Mos6502InstructionCode::Bne => !self.registers.p.zero,
            Mos6502InstructionCode::Bpl => !self.registers.p.negative,
            Mos6502InstructionCode::Bvc => !self.registers.p.overflow,
            Mos6502InstructionCode::Bvs => self.registers.p.overflow,
            _ => return Err(ExecutionError::Cpu(CpuError::InvalidCyclesCalculation)),
        };
        if condition {
            if self.page_crossed {
                Ok(second_met)
            } else {
                Ok(first_met)
            }
        } else {
            Ok(not_met)
        }
    }

    /// The instruction at the program counter.
    pub open spec fn spec_next_instruction(self) -> Mos6502Instruction {
        spec_decode_bytes(self.spec_next_instruction_bytes())
    }

    /// One fetch-decode-execute step can run without overflowing: the
    /// instruction is whole in memory, the program counter can move past
    /// it, and executing it stays within the machine's arithmetic.
    pub open spec fn pre_step(self) -> bool {
        let instruction = self.spec_next_instruction();
        &&& holds_instruction(self.spec_next_instruction_bytes())
        &&& instruction.spec_size() matches Ok(size) ==> {
            &&& self.registers.pc + size <= 0xFFFF
            &&& self.with_pc((self.registers.pc + size) as u16).pre_execute(instruction)
        }
    }

    /// One fetch-decode-execute step: the program counter moves past the
    /// instruction, the instruction runs, and its cycles are counted.
    pub open spec fn spec_step(self) -> (Self, Result<u8, ExecutionError>) {
        let instruction = self.spec_next_instruction();
        match instruction.spec_size() {
            Err(e) => (self, Err(ExecutionError::Instruction(e))),
            Ok(size) => {
                let (executed, outcome) = self.with_pc((self.registers.pc + size) as u16).spec_execute(
                    instruction,
                );
                match outcome {
                    Err(e) => (executed, Err(ExecutionError::Cpu(e))),
                    Ok(_) => {
                        let cycles = executed.spec_cycles_for_instruction(instruction);
                        if cycles is Ok {
                            (Mos6502Cpu { page_crossed: false, ..executed }, cycles)
                        } else {
                            (executed, cycles)
                        }
                    },
                }
            },
        }
    }

    /// Fetches, decodes and executes the instruction at the program
    /// counter; returns the cycles it took.
    pub fn execute(&mut self) -> (r: Result<u8, ExecutionError>)
        requires
            old(self).pre_step(),
        ensures
            (*final(self), r) == old(self).spec_step(),
    {
        let bytes = self.get_next_instruction_bytes();
        let instruction = Mos6502Instruction::from(bytes);
        let size = match instruction.size() {
            Ok(size) => size,
            Err(e) => return Err(ExecutionError::Instruction(e)),
        };
        self.increase_pc(size);
        match self.execute_instruction(&instruction) {
            Ok(()) => {},
            Err(e) => return Err(ExecutionError::Cpu(e)),
        }
        self.get_cycles_for_instruction(&instruction)
    }
}

} // verus!
