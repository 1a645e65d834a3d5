use vstd::prelude::*;
use crate::bit_utils::{spec_word, spec_high_byte, two_bytes_to_word};
use crate::instruction::AddressingMode;
use crate::memory::Memory;

verus! {

/// First address of the interrupt vectors (NMI, RESET, IRQ/BRK).
pub const INTERRUPT_HANDLERS_START: u16 = 0xFFFA;

/// Errors raised while executing an instruction.
#[derive(Clone, Copy, Debug, PartialEq, Eq, Structural)]
pub enum CpuError {
    ReservedMemory,
    InvalidAddressingMode,
    InvalidCyclesCalculation,
}

/// The outcome of executing one instruction.
pub type CpuResult = Result<(), CpuError>;

/// The flags of the status register `P`.
#[derive(Clone, Copy, Debug, PartialEq, Eq, Structural)]
pub struct ProcessorStatus {
    pub negative: bool,
    pub overflow: bool,
    pub break_flag: bool,
    pub decimal: bool,
    pub interrupt_disable: bool,
    pub zero: bool,
    pub carry: bool,
}

/// `1` when `flag` holds, `0` otherwise.
pub open spec fn bit_value(flag: bool) -> int {
    if flag { 1 } else { 0 }
}

/// Whether bit `n` (0 = least significant) of `byte` is set.
pub open spec fn bit_set(byte: u8, n: nat) -> bool {
    (byte as int / vstd::arithmetic::power2::pow2(n) as int) % 2 == 1
}

impl ProcessorStatus {
    /// The status a powered-up processor starts with.
    pub open spec fn spec_new() -> ProcessorStatus {
        ProcessorStatus {
            negative: false,
            overflow: false,
            break_flag: true,
            decimal: false,
            interrupt_disable: false,
            zero: false,
            carry: false,
        }
    }

    /// The flags packed in a byte, as pulled from the stack; the break flag
    /// is not kept in the register and reads as clear.
    pub open spec fn spec_from_byte(byte: u8) -> ProcessorStatus {
        ProcessorStatus {
            negative: byte >= 0x80,
            overflow: (byte as int / 0x40) % 2 == 1,
            break_flag: false,
            decimal: (byte as int / 0x08) % 2 == 1,
            interrupt_disable: (byte as int / 0x04) % 2 == 1,
            zero: (byte as int / 0x02) % 2 == 1,
            carry: byte as int % 2 == 1,
        }
    }

    /// The byte pushed on the stack for these flags: bits 5 and 4 are
    /// always set.
    pub open spec fn spec_to_byte(self) -> u8 {
        (0x80 * bit_value(self.negative) + 0x40 * bit_value(self.overflow) + 0x20 + 0x10 + 0x08
            * bit_value(self.decimal) + 0x04 * bit_value(self.interrupt_disable) + 0x02
            * bit_value(self.zero) + bit_value(self.carry)) as u8
    }

    pub fn new() -> (r: ProcessorStatus)
        ensures
            r == Self::spec_new(),
    {
        ProcessorStatus {
            negative: false,
            overflow: false,
            break_flag: true,
            decimal: false,
            interrupt_disable: false,
            zero: false,
            carry: false,
        }
    }

    pub fn from_byte(byte: u8) -> (r: ProcessorStatus)
        ensures
            r == Self::spec_from_byte(byte),
    {
        let negative = (byte & 0x80) > 0;
        let overflow = (byte & 0x40) > 0;
        let decimal = (byte & 0x08) > 0;
        let interrupt_disable = (byte & 0x04) > 0;
        let zero = (byte & 0x02) > 0;
        let carry = (byte & 0x01) > 0;
        assert(negative == (byte >= 0x80)) by (bit_vector)
            requires negative == ((byte & 0x80) > 0);
        assert(overflow == ((byte / 0x40) % 2 == 1)) by (bit_vector)
            requires overflow == ((byte & 0x40) > 0);
        assert(decimal == ((byte / 0x08) % 2 == 1)) by (bit_vector)
            requires decimal == ((byte & 0x08) > 0);
        assert(interrupt_disable == ((byte / 0x04) % 2 == 1)) by (bit_vector)
            requires interrupt_disable == ((byte & 0x04) > 0);
        assert(zero == ((byte / 0x02) % 2 == 1)) by (bit_vector)
            requires zero == ((byte & 0x02) > 0);
        assert(carry == (byte % 2 == 1)) by (bit_vector)
            requires carry == ((byte & 0x01) > 0);
        ProcessorStatus {
            negative,
            overflow,
            break_flag: false,
            decimal,
            interrupt_disable,
            zero,
            carry,
        }
    }

    pub fn to_byte(&self) -> (r: u8)
        ensures
            r == self.spec_to_byte(),
    {
        let n: u8 = if self.negative { 0x80 } else { 0 };
        let v: u8 = if self.overflow { 0x40 } else { 0 };
        let d: u8 = if self.decimal { 0x08 } else { 0 };
        let i: u8 = if self.interrupt_disable { 0x04 } else { 0 };
        let z: u8 = if self.zero { 0x02 } else { 0 };
        let c: u8 = if self.carry { 0x01 } else { 0 };
        let r: u8 = n | v | 0x20 | 0x10 | d | i | z | c;
        assert(r == n + v + 0x30 + d + i + z + c) by (bit_vector)
            requires
                r == n | v | 0x20 | 0x10 | d | i | z | c,
                n == 0x80 || n == 0,
                v == 0x40 || v == 0,
                d == 0x08 || d == 0,
                i == 0x04 || i == 0,
                z == 0x02 || z == 0,
                c == 0x01 || c == 0,
        ;
        r
    }
}

/// The registers of the processor.
#[derive(Clone, Copy, Debug, PartialEq, Eq, Structural)]
pub struct RegisterSet {
    pub pc: u16,
    pub s: u8,
    pub x: u8,
    pub y: u8,
    pub a: u8,
    pub p: ProcessorStatus,
}

impl RegisterSet {
    pub open spec fn spec_new() -> RegisterSet {
        RegisterSet { pc: 0, s: 0xff, x: 0, y: 0, a: 0, p: ProcessorStatus::spec_new() }
    }

    pub fn new() -> (r: RegisterSet)
        ensures
            r == Self::spec_new(),
    {
        RegisterSet { pc: 0, s: 0xff, x: 0, y: 0, a: 0, p: ProcessorStatus::new() }
    }
}

/// A MOS 6502 processor attached to a memory.
pub struct Mos6502Cpu<M: Memory> {
    pub memory: M,
    pub registers: RegisterSet,
    pub page_crossed: bool,
    pub decimal_enabled: bool,
}

/// The addressing modes that name a memory address.
pub open spec fn mode_has_address(mode: AddressingMode) -> bool {
    match mode {
        AddressingMode::Indirect { .. }
        | AddressingMode::Absolute { .. }
        | AddressingMode::AbsoluteIndexedX { .. }
        | AddressingMode::AbsoluteIndexedY { .. }
        | AddressingMode::ZeroPage { .. }
        | AddressingMode::ZeroPageIndexedX { .. }
        | AddressingMode::ZeroPageIndexedY { .. }
        | AddressingMode::IndexedIndirect { .. }
        | AddressingMode::IndirectIndexed { .. } => true,
        _ => false,
    }
}

/// The addressing modes that yield an operand value.
pub open spec fn mode_has_value(mode: AddressingMode) -> bool {
    match mode {
        AddressingMode::Accumulator | AddressingMode::Immediate { .. } => true,
        AddressingMode::Indirect { .. } => false,
        _ => mode_has_address(mode),
    }
}

/// The addressing modes that can receive a value.
pub open spec fn mode_can_store(mode: AddressingMode) -> bool {
    match mode {
        AddressingMode::Accumulator => true,
        AddressingMode::Indirect { .. } => false,
        _ => mode_has_address(mode),
    }
}

impl<M: Memory> Mos6502Cpu<M> {
    /// The byte at `address`.
    pub open spec fn read(&self, address: u16) -> u8 {
        self.memory.spec_get(address)
    }

    /// The little-endian word stored at `address` and `address + 1`.
    pub open spec fn read_word(&self, address: int) -> int {
        self.read((address + 1) as u16) as int * 256 + self.read(address as u16) as int
    }

    /// The address named by `mode`, before any 16-bit overflow check; only
    /// meaningful when `mode_has_address(mode)`.
    pub open spec fn mode_address(&self, mode: AddressingMode) -> int {
        match mode {
            AddressingMode::Indirect { high_byte, low_byte } => self.read_word(
                spec_word(high_byte, low_byte) as int,
            ),
            AddressingMode::Absolute { high_byte, low_byte } => spec_word(high_byte, low_byte) as int,
            AddressingMode::AbsoluteIndexedX { high_byte, low_byte } => spec_word(
                high_byte,
                low_byte,
            ) + self.registers.x,
            AddressingMode::AbsoluteIndexedY { high_byte, low_byte } => spec_word(
                high_byte,
                low_byte,
            ) + self.registers.y,
            AddressingMode::ZeroPage { byte } => byte as int,
            AddressingMode::ZeroPageIndexedX { byte } => (byte + self.registers.x) % 256,
            AddressingMode::ZeroPageIndexedY { byte } => (byte + self.registers.y) % 256,
            AddressingMode::IndexedIndirect { byte } => self.read_word((byte + self.registers.x) % 256),
            AddressingMode::IndirectIndexed { byte } => self.read_word(byte as int) + self.registers.y,
            _ => 0,
        }
    }

    /// The base address that an indexed mode adds its index to.
    pub open spec fn mode_base_address(&self, mode: AddressingMode) -> int {
        match mode {
            AddressingMode::AbsoluteIndexedX { high_byte, low_byte } => spec_word(high_byte, low_byte) as int,
            AddressingMode::AbsoluteIndexedY { high_byte, low_byte } => spec_word(high_byte, low_byte) as int,
            AddressingMode::IndirectIndexed { byte } => self.read_word(byte as int),
            _ => self.mode_address(mode),
        }
    }

    /// Reading or writing through `mode` stays within 16-bit arithmetic.
    /// Indexed absolute and indirect-indexed modes add the index with a
    /// checked 16-bit addition.
    pub open spec fn mode_safe(&self, mode: AddressingMode) -> bool {
        match mode {
            AddressingMode::AbsoluteIndexedX { .. }
            | AddressingMode::AbsoluteIndexedY { .. }
            | AddressingMode::IndirectIndexed { .. } => self.mode_address(mode) <= 0xFFFF,
            _ => true,
        }
    }

    /// Computing the address of `mode` stays within 16-bit arithmetic: on
    /// top of `mode_safe`, the pointer of an indirect jump must not be the
    /// last address.
    pub open spec fn address_safe(&self, mode: AddressingMode) -> bool {
        &&& self.mode_safe(mode)
        &&& match mode {
            AddressingMode::Indirect { high_byte, low_byte } => spec_word(high_byte, low_byte) < 0xFFFF,
            _ => true,
        }
    }

    /// The operand value that `mode` yields; only meaningful when
    /// `mode_has_value(mode)`.
    pub open spec fn mode_value(&self, mode: AddressingMode) -> u8 {
        match mode {
            AddressingMode::Accumulator => self.registers.a,
            AddressingMode::Immediate { byte } => byte,
            _ => self.read(self.mode_address(mode) as u16),
        }
    }

    /// The processor after storing `value` through `mode`; only meaningful
    /// when `mode_can_store(mode)`. Indexed absolute and indirect-indexed
    /// stores also record whether base and effective address share a page.
    pub open spec fn mode_store(self, mode: AddressingMode, value: u8) -> Self {
        match mode {
            AddressingMode::Accumulator => Mos6502Cpu {
                registers: RegisterSet { a: value, ..self.registers },
                ..self
            },
            AddressingMode::AbsoluteIndexedX { .. }
            | AddressingMode::AbsoluteIndexedY { .. }
            | AddressingMode::IndirectIndexed { .. } => Mos6502Cpu {
                memory: self.memory.spec_set(self.mode_address(mode) as u16, value),
                page_crossed: spec_high_byte(self.mode_base_address(mode) as u16) == spec_high_byte(
                    self.mode_address(mode) as u16,
                ),
                ..self
            },
            _ => Mos6502Cpu {
                memory: self.memory.spec_set(self.mode_address(mode) as u16, value),
                ..self
            },
        }
    }

    /// The outcome of storing `value` through `mode`.
    pub open spec fn spec_store(self, mode: AddressingMode, value: u8) -> (Self, CpuResult) {
        if mode_can_store(mode) {
            (self.mode_store(mode, value), Ok(()))
        } else {
            (self, Err(CpuError::InvalidAddressingMode))
        }
    }

    /// The processor with new registers.
    pub open spec fn with_registers(self, registers: RegisterSet) -> Self {
        Mos6502Cpu { registers, ..self }
    }

    /// The processor with new flags.
    pub open spec fn with_flags(self, p: ProcessorStatus) -> Self {
        self.with_registers(RegisterSet { p, ..self.registers })
    }

    /// The processor with the zero and negative flags describing `value`.
    pub open spec fn with_zn(self, value: u8) -> Self {
        self.with_flags(ProcessorStatus { zero: value == 0, negative: value >= 0x80, ..self.registers.p })
    }

    /// The processor with a new accumulator.
    pub open spec fn with_a(self, value: u8) -> Self {
        self.with_registers(RegisterSet { a: value, ..self.registers })
    }

    /// The processor with a new X register.
    pub open spec fn with_x(self, value: u8) -> Self {
        self.with_registers(RegisterSet { x: value, ..self.registers })
    }

    /// The processor with a new Y register.
    pub open spec fn with_y(self, value: u8) -> Self {
        self.with_registers(RegisterSet { y: value, ..self.registers })
    }

    /// The processor with a new stack pointer.
    pub open spec fn with_s(self, value: u8) -> Self {
        self.with_registers(RegisterSet { s: value, ..self.registers })
    }

    /// The processor with a new program counter.
    pub open spec fn with_pc(self, value: u16) -> Self {
        self.with_registers(RegisterSet { pc: value, ..self.registers })
    }

    /// The processor with `value` written at `address`.
    pub open spec fn with_write(self, address: u16, value: u8) -> Self {
        Mos6502Cpu { memory: self.memory.spec_set(address, value), ..self }
    }

    /// The processor after pushing `value`: it is written at `0x100 + S`
    /// and `S` moves down, wrapping within the page.
    pub open spec fn spec_push(self, value: u8) -> Self {
        Mos6502Cpu {
            memory: self.memory.spec_set((0x100 + self.registers.s) as u16, value),
            registers: RegisterSet { s: ((self.registers.s + 255) % 256) as u8, ..self.registers },
            ..self
        }
    }

    /// The processor after pulling a byte: `S` moves up, wrapping within
    /// the page.
    pub open spec fn spec_pull_state(self) -> Self {
        self.with_s(((self.registers.s + 1) % 256) as u8)
    }

    /// The byte that a pull returns.
    pub open spec fn spec_pulled(self) -> u8 {
        self.read((0x100 + (self.registers.s + 1) % 256) as u16)
    }

    /// `outcome` when the mode check passed, otherwise an invalid
    /// addressing mode error with the processor unchanged.
    pub open spec fn checked(self, ok: bool, outcome: (Self, CpuResult)) -> (Self, CpuResult) {
        if ok {
            outcome
        } else {
            (self, Err(CpuError::InvalidAddressingMode))
        }
    }

    /// `next` for an implicit operand, an invalid addressing mode error
    /// otherwise.
    pub open spec fn implicit_only(self, mode: AddressingMode, next: Self) -> (Self, CpuResult) {
        self.checked(mode is Implicit, (next, Ok(())))
    }

    pub open spec fn spec_new(memory: M, decimal_enabled: bool) -> Self {
        Mos6502Cpu {
            memory,
            registers: RegisterSet::spec_new(),
            page_crossed: false,
            decimal_enabled,
        }
    }

    /// A processor with decimal mode available, as on the original 6502.
    pub fn new(memory: M) -> (r: Self)
        ensures
            r == Self::spec_new(memory, true),
    {
        Mos6502Cpu {
            decimal_enabled: true,
            memory,
            registers: RegisterSet::new(),
            page_crossed: false,
        }
    }

    /// A processor whose decimal flag has no effect on arithmetic, as on the
    /// NES's 2A03.
    pub fn without_decimal(memory: M) -> (r: Self)
        ensures
            r == Self::spec_new(memory, false),
    {
        Mos6502Cpu {
            decimal_enabled: false,
            memory,
            registers: RegisterSet::new(),
            page_crossed: false,
        }
    }

    pub fn set_pc(&mut self, address: u16)
        ensures
            *final(self) == old(self).with_pc(address),
    {
        self.registers.pc = address;
    }

    pub fn get_address_from_addressing_mode(&self, addressing_mode: &AddressingMode) -> (r: Result<
        u16,
        CpuError,
    >)
        requires
            self.address_safe(*addressing_mode),
        ensures
            mode_has_address(*addressing_mode) ==> r == Ok::<u16, CpuError>(
                self.mode_address(*addressing_mode) as u16,
            ),
            !mode_has_address(*addressing_mode) ==> r == Err::<u16, CpuError>(
                CpuError::InvalidAddressingMode,
            ),
    {
        match addressing_mode {
            AddressingMode::Indirect { high_byte, low_byte } => {
                let indirect_address = two_bytes_to_word(*high_byte, *low_byte);
                let (low_byte, high_byte) = (
                    self.memory.get(indirect_address),
                    self.memory.get(indirect_address + 1),
                );
                Ok(two_bytes_to_word(high_byte, low_byte))
            },
            AddressingMode::Absolute { high_byte, low_byte } => Ok(
                two_bytes_to_word(*high_byte, *low_byte),
            ),
            AddressingMode::AbsoluteIndexedX { low_byte, high_byte } => {
                let address = two_bytes_to_word(*high_byte, *low_byte);
                Ok(address + self.registers.x as u16)
            },
            AddressingMode::AbsoluteIndexedY { low_byte, high_byte } => {
                let address = two_bytes_to_word(*high_byte, *low_byte);
                Ok(address + self.registers.y as u16)
            },
            AddressingMode::ZeroPage { byte } => Ok(*byte as u16),
            AddressingMode::ZeroPageIndexedX { byte } => {
                Ok(self.registers.x.wrapping_add(*byte) as u16)
            },
            AddressingMode::ZeroPageIndexedY { byte } => {
                Ok(self.registers.y.wrapping_add(*byte) as u16)
            },
            AddressingMode::IndexedIndirect { byte } => {
                let b: u8 = *byte;
                let x: u8 = self.registers.x;
                let indirect_address = ((b as u16 + x as u16) as u8) as u16;
                assert(indirect_address == (b + x) % 256) by (bit_vector)
                    requires
                        indirect_address == ((b as u16 + x as u16) as u8) as u16,
                ;
                let (low_byte, high_byte) = (
                    self.memory.get(indirect_address),
                    self.memory.get(indirect_address + 1),
                );
                Ok(two_bytes_to_word(high_byte, low_byte))
            },
            AddressingMode::IndirectIndexed { byte } => {
                let (low_byte, high_byte) = (
                    self.memory.get(*byte as u16),
                    self.memory.get(*byte as u16 + 1),
                );
                Ok(two_bytes_to_word(high_byte, low_byte) + self.registers.y as u16)
            },
            _ => Err(CpuError::InvalidAddressingMode),
        }
    }

    pub fn get_value_from_addressing_mode(&self, addressing_mode: &AddressingMode) -> (r: Result<
        u8,
        CpuError,
    >)
        requires
            self.mode_safe(*addressing_mode),
        ensures
            mode_has_value(*addressing_mode) ==> r == Ok::<u8, CpuError>(
                self.mode_value(*addressing_mode),
            ),
            !mode_has_value(*addressing_mode) ==> r == Err::<u8, CpuError>(
                CpuError::InvalidAddressingMode,
            ),
    {
        match addressing_mode {
            AddressingMode::Accumulator => Ok(self.registers.a),
            AddressingMode::Immediate { byte } => Ok(*byte),
            AddressingMode::ZeroPage { byte } => Ok(self.memory.get(*byte as u16)),
            AddressingMode::ZeroPageIndexedX { .. }
            | AddressingMode::ZeroPageIndexedY { .. }
            | AddressingMode::Absolute { .. }
            | AddressingMode::AbsoluteIndexedX { .. }
            | AddressingMode::AbsoluteIndexedY { .. }
            | AddressingMode::IndexedIndirect { .. }
            | AddressingMode::IndirectIndexed { .. } => {
                let address = self.get_address_from_addressing_mode(addressing_mode)?;
                Ok(self.memory.get(address))
            },
            _ => Err(CpuError::InvalidAddressingMode),
        }
    }

    pub fn set_value_to_addressing_mode(&mut self, addressing_mode: &AddressingMode, new_value: u8) -> (r:
        CpuResult)
        requires
            old(self).mode_safe(*addressing_mode),
        ensures
            (*final(self), r) == old(self).spec_store(*addressing_mode, new_value),
    {
        match addressing_mode {
            AddressingMode::Accumulator => {
                self.registers.a = new_value;
                Ok(())
            },
            AddressingMode::ZeroPage { byte } => {
                self.memory.set(*byte as u16, new_value);
                Ok(())
            },
            AddressingMode::ZeroPageIndexedX { byte } => {
                let address = self.registers.x.wrapping_add(*byte) as u16;
                self.memory.set(address, new_value);
                Ok(())
            },
            AddressingMode::ZeroPageIndexedY { byte } => {
                let address = self.registers.y.wrapping_add(*byte) as u16;
                self.memory.set(address, new_value);
                Ok(())
            },
            AddressingMode::Absolute { high_byte, low_byte } => {
                let address = two_bytes_to_word(*high_byte, *low_byte);
                self.memory.set(address, new_value);
                Ok(())
            },
            AddressingMode::AbsoluteIndexedX { high_byte, low_byte } => {
                let x = self.registers.x as u16;
                let address = two_bytes_to_word(*high_byte, *low_byte);
                self.memory.set(address + x, new_value);
                self.update_page_crossed_status(address, address + x);
                Ok(())
            },
            AddressingMode::AbsoluteIndexedY { high_byte, low_byte } => {
                let y = self.registers.y as u16;
                let address = two_bytes_to_word(*high_byte, *low_byte);
                self.memory.set(address + y, new_value);
                self.update_page_crossed_status(address, address + y);
                Ok(())
            },
            AddressingMode::IndexedIndirect { byte } => {
                let b: u8 = *byte;
                let x: u8 = self.registers.x;
                let indirect_address = ((b as u16 + x as u16) as u8) as u16;
                assert(indirect_address == (b + x) % 256) by (bit_vector)
                    requires
                        indirect_address == ((b as u16 + x as u16) as u8) as u16,
                ;
                let (low_byte, high_byte) = (
                    self.memory.get(indirect_address),
                    self.memory.get(indirect_address + 1),
                );
                self.memory.set(two_bytes_to_word(high_byte, low_byte), new_value);
                Ok(())
            },
            AddressingMode::IndirectIndexed { byte } => {
                let y = self.registers.y as u16;
                let (low_byte, high_byte) = (
                    self.memory.get(*byte as u16),
                    self.memory.get(*byte as u16 + 1),
                );
                let indirect_address = two_bytes_to_word(high_byte, low_byte);
                let direct_address = indirect_address + y;
                self.update_page_crossed_status(indirect_address, direct_address);
                self.memory.set(direct_address, new_value);
                Ok(())
            },
            _ => Err(CpuError::InvalidAddressingMode),
        }
    }

    /// Records whether `original` and `new` lie in the same 256-byte page.
    pub fn update_page_crossed_status(&mut self, original: u16, new: u16)
        ensures
            *final(self) == (Mos6502Cpu {
                page_crossed: spec_high_byte(original) == spec_high_byte(new),
                ..*old(self)
            }),
    {
        let same = (original & 0xff00) == (new & 0xff00);
        assert(same == (original / 256 == new / 256)) by (bit_vector)
            requires
                same == ((original & 0xff00) == (new & 0xff00)),
        ;
        self.page_crossed = same;
    }

    /// Writes `value` at the top of the stack and moves the stack pointer down.
    pub fn push(&mut self, value: u8)
        ensures
            *final(self) == old(self).spec_push(value),
    {
        self.memory.set(self.registers.s as u16 + 0x100, value);
        self.registers.s = self.registers.s.wrapping_sub(1);
    }

    /// Moves the stack pointer up and reads the byte it points to.
    pub fn pull(&mut self) -> (r: u8)
        ensures
            *final(self) == old(self).spec_pull_state(),
            r == old(self).spec_pulled(),
    {
        self.registers.s = self.registers.s.wrapping_add(1);
        self.memory.get(self.registers.s as u16 + 0x100)
    }
}

} // verus!
