use vstd::prelude::*;
use crate::alu::{check_result, is_alu_mode};
use crate::instruction::AddressingMode;
use crate::memory::Memory;
use crate::mos6502cpu::{bit_value, mode_has_value, CpuError, CpuResult, Mos6502Cpu, ProcessorStatus};

verus! {

/// A byte read as a two's complement signed number.
pub open spec fn signed(value: u8) -> int {
    if value >= 0x80 {
        value - 256
    } else {
        value as int
    }
}

/// The addressing modes of CPX and CPY.
pub open spec fn is_compare_mode(mode: AddressingMode) -> bool {
    mode is Immediate || mode is ZeroPage || mode is Absolute
}

/// The flags after a binary addition of `a`, `value` and `carry_in`.
#[verifier::opaque]
pub open spec fn add_flags(p: ProcessorStatus, a: u8, value: u8, carry_in: int) -> ProcessorStatus {
    let sum = a + value + carry_in;
    let answer = (sum % 256) as u8;
    ProcessorStatus {
        zero: answer == 0,
        negative: answer >= 0x80,
        carry: sum > 255,
        overflow: !(-128 <= signed(a) + signed(value) + carry_in <= 127),
        ..p
    }
}

/// The flags after a binary subtraction of `value` and `borrow` from `a`.
#[verifier::opaque]
pub open spec fn sub_flags(p: ProcessorStatus, a: u8, value: u8, borrow: int) -> ProcessorStatus {
    let difference = a - value - borrow;
    let answer = ((difference + 512) % 256) as u8;
    ProcessorStatus {
        zero: answer == 0,
        negative: answer >= 0x80,
        carry: difference >= 0,
        overflow: !(-128 <= signed(a) - signed(value) - borrow <= 127),
        ..p
    }
}

/// The low digit sum of a decimal-mode ADC.
pub open spec fn decimal_add_low(a: u8, value: u8, carry_in: u8) -> u8 {
    (a % 16 + value % 16 + carry_in) as u8
}

/// The high digit sum of a decimal-mode ADC, before its adjustment.
pub open spec fn decimal_add_high(a: u8, value: u8, carry_in: u8) -> u8 {
    (a / 16 + value / 16 + if decimal_add_low(a, value, carry_in) > 9 { 1u8 } else { 0u8 }) as u8
}

/// The high digit of a decimal-mode ADC after its adjustment.
pub open spec fn decimal_add_high_adjusted(a: u8, value: u8, carry_in: u8) -> u8 {
    let ah = decimal_add_high(a, value, carry_in);
    if ah > 9 { (ah + 6) as u8 } else { ah }
}

/// The accumulator after a decimal-mode ADC, as the NMOS 6502 computes it:
/// each digit is added and adjusted by 6 when it exceeds 9.
#[verifier::opaque]
pub open spec fn decimal_add_result(a: u8, value: u8, carry_in: u8) -> u8 {
    let al = decimal_add_low(a, value, carry_in);
    let al_adjusted = if al > 9 { (al + 6) as u8 } else { al };
    (decimal_add_high_adjusted(a, value, carry_in) % 16 * 16 + al_adjusted % 16) as u8
}

/// The flags after a decimal-mode ADC: zero comes from the binary sum,
/// negative and overflow from the high digit before its adjustment, carry
/// from the adjusted high digit.
#[verifier::opaque]
pub open spec fn decimal_add_flags(p: ProcessorStatus, a: u8, value: u8, carry_in: u8) -> ProcessorStatus {
    let ah = decimal_add_high(a, value, carry_in);
    let ah_shifted = ah % 16 * 16;
    ProcessorStatus {
        zero: a.wrapping_add(value).wrapping_add(carry_in) == 0,
        negative: (ah / 8) % 2 == 1,
        overflow: (ah_shifted >= 0x80) != (a >= 0x80) && (a >= 0x80) == (value >= 0x80),
        carry: decimal_add_high_adjusted(a, value, carry_in) > 15,
        ..p
    }
}

/// The low digit of a decimal-mode SBC before its adjustment (byte
/// arithmetic wraps modulo 256).
pub open spec fn decimal_sub_low(a: u8, value: u8, borrow: u8) -> u8 {
    (a % 16).wrapping_sub(value % 16).wrapping_sub(borrow)
}

/// The accumulator after a decimal-mode SBC, as the NMOS 6502 computes it:
/// a digit that went below zero is adjusted by 6 and borrows from the next.
#[verifier::opaque]
pub open spec fn decimal_sub_result(a: u8, value: u8, borrow: u8) -> u8 {
    let al = decimal_sub_low(a, value, borrow);
    let al_high = (al / 16) % 2 == 1;
    let al_adjusted = if al_high { (al - 6) as u8 } else { al };
    let ah = (a / 16).wrapping_sub(value / 16).wrapping_sub(if al_high { 1u8 } else { 0u8 });
    let ah_adjusted = if (ah / 16) % 2 == 1 { (ah - 6) as u8 } else { ah };
    (ah_adjusted % 16 * 16 + al_adjusted % 16) as u8
}

/// One binary addition with carry, done as two wrapping byte additions.
proof fn lemma_add_step(a: u8, value: u8, carry: u8, tmp: u8, answer: u8)
    requires
        carry <= 1,
        tmp == (a + value) % 256,
        answer == (tmp + carry) % 256,
    ensures
        answer == (a + value + carry) % 256,
        ((a + value > 0xff) || (tmp + carry > 0xff)) == (a + value + carry > 255),
        ((a >= 0x80 && value >= 0x80 && answer < 0x80) || (a < 0x80 && value < 0x80 && answer
            >= 0x80)) == !(-128 <= signed(a) + signed(value) + carry <= 127),
{
}

/// One binary subtraction with borrow, done as two wrapping byte subtractions.
proof fn lemma_sub_step(a: u8, value: u8, borrow: u8, tmp: u8, answer: u8)
    requires
        borrow <= 1,
        tmp == (a - value + 256) % 256,
        answer == (tmp - borrow + 256) % 256,
    ensures
        answer == (a - value - borrow + 512) % 256,
        !((a < value) || (tmp < borrow)) == (a - value - borrow >= 0),
        ((a >= 0x80) != (answer >= 0x80) && (a >= 0x80) != (value >= 0x80)) == !(-128 <= signed(a)
            - signed(value) - borrow <= 127),
{
}

impl<M: Memory> Mos6502Cpu<M> {
    /// The carry flag as a number.
    pub open spec fn carry_in(&self) -> int {
        bit_value(self.registers.p.carry)
    }

    /// The borrow implied by a clear carry flag.
    pub open spec fn borrow_in(&self) -> int {
        1 - bit_value(self.registers.p.carry)
    }

    /// Binary ADC without the mode check.
    pub open spec fn spec_adc_unchecked(self, mode: AddressingMode) -> (Self, CpuResult) {
        let a = self.registers.a;
        let value = self.mode_value(mode);
        self.checked(
            mode_has_value(mode),
            (
                self.with_flags(add_flags(self.registers.p, a, value, self.carry_in())).with_a(
                    ((a + value + self.carry_in()) % 256) as u8,
                ),
                Ok(()),
            ),
        )
    }

    /// Decimal ADC without the mode check.
    pub open spec fn spec_adc_decimal_unchecked(self, mode: AddressingMode) -> (Self, CpuResult) {
        let a = self.registers.a;
        let value = self.mode_value(mode);
        self.checked(
            mode_has_value(mode),
            (
                self.with_flags(decimal_add_flags(self.registers.p, a, value, self.carry_in() as u8)).with_a(
                    decimal_add_result(a, value, self.carry_in() as u8),
                ),
                Ok(()),
            ),
        )
    }

    /// ADC: decimal when the decimal flag is set and decimal mode is
    /// available, binary otherwise.
    pub open spec fn spec_adc(self, mode: AddressingMode) -> (Self, CpuResult) {
        self.checked(
            is_alu_mode(mode),
            if self.decimal_enabled && self.registers.p.decimal {
                self.spec_adc_decimal_unchecked(mode)
            } else {
                self.spec_adc_unchecked(mode)
            },
        )
    }

    /// The processor after a binary subtraction of `value` from A (flags
    /// only; A is not written).
    pub open spec fn spec_sbc_flags(self, value: u8) -> Self {
        self.with_flags(sub_flags(self.registers.p, self.registers.a, value, self.borrow_in()))
    }

    /// The byte that a binary subtraction of `value` from A gives.
    pub open spec fn spec_sbc_answer(self, value: u8) -> u8 {
        ((self.registers.a - value - self.borrow_in() + 512) % 256) as u8
    }

    /// Binary SBC without the mode check.
    pub open spec fn spec_sbc_unchecked(self, mode: AddressingMode) -> (Self, CpuResult) {
        let value = self.mode_value(mode);
        self.checked(
            mode_has_value(mode),
            (self.spec_sbc_flags(value).with_a(self.spec_sbc_answer(value)), Ok(())),
        )
    }

    /// Decimal SBC without the mode check: flags as in binary mode.
    pub open spec fn spec_sbc_decimal_unchecked(self, mode: AddressingMode) -> (Self, CpuResult) {
        let value = self.mode_value(mode);
        self.checked(
            mode_has_value(mode),
            (
                self.spec_sbc_flags(value).with_a(
                    decimal_sub_result(self.registers.a, value, self.borrow_in() as u8),
                ),
                Ok(()),
            ),
        )
    }

    /// SBC: decimal when the decimal flag is set and decimal mode is
    /// available, binary otherwise.
    pub open spec fn spec_sbc(self, mode: AddressingMode) -> (Self, CpuResult) {
        self.checked(
            is_alu_mode(mode),
            if self.decimal_enabled && self.registers.p.decimal {
                self.spec_sbc_decimal_unchecked(mode)
            } else {
                self.spec_sbc_unchecked(mode)
            },
        )
    }

    /// The processor after comparing `register` with `value`: Z and N from
    /// the difference, carry when `register >= value`.
    pub open spec fn spec_compare(self, register: u8, value: u8) -> Self {
        let answer = ((register - value + 256) % 256) as u8;
        self.with_zn(answer).with_flags(
            ProcessorStatus { carry: register >= value, ..self.with_zn(answer).registers.p },
        )
    }

    /// A comparison of `register` with the operand of `mode`, without the mode check.
    pub open spec fn spec_compare_unchecked(self, register: u8, mode: AddressingMode) -> (
        Self,
        CpuResult,
    ) {
        self.checked(
            mode_has_value(mode),
            (self.spec_compare(register, self.mode_value(mode)), Ok(())),
        )
    }

    pub fn execute_adc(&mut self, addressing_mode: &AddressingMode) -> (r: CpuResult)
        requires
            is_alu_mode(*addressing_mode) ==> old(self).mode_safe(*addressing_mode),
        ensures
            (*final(self), r) == old(self).spec_adc(*addressing_mode),
    {
        self.check_alu_address(addressing_mode)?;
        if self.decimal_enabled && self.registers.p.decimal {
            self.execute_adc_decimal_unchecked(addressing_mode)
        } else {
            self.execute_adc_unchecked(addressing_mode)
        }
    }

    pub fn execute_adc_unchecked(&mut self, addressing_mode: &AddressingMode) -> (r: CpuResult)
        requires
            old(self).mode_safe(*addressing_mode),
        ensures
            (*final(self), r) == old(self).spec_adc_unchecked(*addressing_mode),
    {
        let value = self.get_value_from_addressing_mode(addressing_mode)?;
        let a = self.registers.a;
        let carry_as_u8: u8 = if self.registers.p.carry { 1 } else { 0 };
        let tmp = a.wrapping_add(value);
        let first_carry = a as u16 + value as u16 > 0xff;
        let answer = tmp.wrapping_add(carry_as_u8);
        let second_carry = tmp as u16 + carry_as_u8 as u16 > 0xff;
        proof {
            lemma_add_step(a, value, carry_as_u8, tmp, answer);
        }
        self.update_zero_flag(answer);
        self.update_negative_flag(answer);
        self.registers.p.carry = first_carry || second_carry;
        let overflow = self.calculate_overflow(a, value, answer);
        self.registers.p.overflow = overflow;
        self.registers.a = answer;
        assert(self.registers.p == add_flags(old(self).registers.p, a, value, carry_as_u8 as int)) by {
            reveal(add_flags);
        }
        Ok(())
    }

    pub fn execute_adc_decimal_unchecked(&mut self, addressing_mode: &AddressingMode) -> (r:
        CpuResult)
        requires
            old(self).mode_safe(*addressing_mode),
        ensures
            (*final(self), r) == old(self).spec_adc_decimal_unchecked(*addressing_mode),
    {
        let value = self.get_value_from_addressing_mode(addressing_mode)?;
        let a = self.registers.a;
        let carry_as_u8: u8 = if self.registers.p.carry { 1 } else { 0 };
        let mut al = a % 16 + value % 16 + carry_as_u8;
        let al_carry: u8 = if al > 9 { 1 } else { 0 };
        let mut ah = a / 16 + value / 16 + al_carry;
        if al > 9 {
            al += 6
        };
        let zero = a.wrapping_add(value).wrapping_add(carry_as_u8) == 0;
        let shifted = ah % 16 * 16;
        let negative = (ah / 8) % 2 == 1;
        let overflow = (shifted >= 0x80) != (a >= 0x80) && (a >= 0x80) == (value >= 0x80);
        if ah > 9 {
            ah += 6
        };
        let carry = ah > 15;
        let result = ah % 16 * 16 + al % 16;
        let flags = ProcessorStatus { zero, negative, overflow, carry, ..self.registers.p };
        assert(flags == decimal_add_flags(self.registers.p, a, value, carry_as_u8)) by {
            reveal(decimal_add_flags);
        }
        assert(result == decimal_add_result(a, value, carry_as_u8)) by {
            reveal(decimal_add_result);
        }
        self.registers.p = flags;
        self.registers.a = result;
        Ok(())
    }

    pub fn execute_cmp(&mut self, addressing_mode: &AddressingMode) -> (r: CpuResult)
        requires
            is_alu_mode(*addressing_mode) ==> old(self).mode_safe(*addressing_mode),
        ensures
            (*final(self), r) == old(self).checked(
                is_alu_mode(*addressing_mode),
                old(self).spec_compare_unchecked(old(self).registers.a, *addressing_mode),
            ),
    {
        self.check_alu_address(addressing_mode)?;
        self.execute_cmp_unchecked(addressing_mode)
    }

    pub fn execute_cmp_unchecked(&mut self, addressing_mode: &AddressingMode) -> (r: CpuResult)
        requires
            old(self).mode_safe(*addressing_mode),
        ensures
            (*final(self), r) == old(self).spec_compare_unchecked(
                old(self).registers.a,
                *addressing_mode,
            ),
    {
        let value = self.get_value_from_addressing_mode(addressing_mode)?;
        let a = self.registers.a;
        self.compare(a, value);
        Ok(())
    }

    pub fn execute_cpx(&mut self, addressing_mode: &AddressingMode) -> (r: CpuResult)
        requires
            is_compare_mode(*addressing_mode) ==> old(self).mode_safe(*addressing_mode),
        ensures
            (*final(self), r) == old(self).checked(
                is_compare_mode(*addressing_mode),
                old(self).spec_compare_unchecked(old(self).registers.x, *addressing_mode),
            ),
    {
        self.check_compare_address(addressing_mode)?;
        let value = self.get_value_from_addressing_mode(addressing_mode)?;
        let x = self.registers.x;
        self.compare(x, value);
        Ok(())
    }

    pub fn execute_cpy(&mut self, addressing_mode: &AddressingMode) -> (r: CpuResult)
        requires
            is_compare_mode(*addressing_mode) ==> old(self).mode_safe(*addressing_mode),
        ensures
            (*final(self), r) == old(self).checked(
                is_compare_mode(*addressing_mode),
                old(self).spec_compare_unchecked(old(self).registers.y, *addressing_mode),
            ),
    {
        self.check_compare_address(addressing_mode)?;
        let value = self.get_value_from_addressing_mode(addressing_mode)?;
        let y = self.registers.y;
        self.compare(y, value);
        Ok(())
    }

    pub fn execute_sbc(&mut self, addressing_mode: &AddressingMode) -> (r: CpuResult)
        requires
            is_alu_mode(*addressing_mode) ==> old(self).mode_safe(*addressing_mode),
        ensures
            (*final(self), r) == old(self).spec_sbc(*addressing_mode),
    {
        self.check_alu_address(addressing_mode)?;
        if self.decimal_enabled && self.registers.p.decimal {
            self.execute_sbc_decimal_unchecked(addressing_mode)
        } else {
            self.execute_sbc_unchecked(addressing_mode)
        }
    }

    pub fn execute_sbc_unchecked(&mut self, addressing_mode: &AddressingMode) -> (r: CpuResult)
        requires
            old(self).mode_safe(*addressing_mode),
        ensures
            (*final(self), r) == old(self).spec_sbc_unchecked(*addressing_mode),
    {
        let value = self.get_value_from_addressing_mode(addressing_mode)?;
        let answer = self.sbc_logic(value);
        self.registers.a = answer;
        Ok(())
    }

    pub fn execute_sbc_decimal_unchecked(&mut self, addressing_mode: &AddressingMode) -> (r:
        CpuResult)
        requires
            old(self).mode_safe(*addressing_mode),
        ensures
            (*final(self), r) == old(self).spec_sbc_decimal_unchecked(*addressing_mode),
    {
        let value = self.get_value_from_addressing_mode(addressing_mode)?;
        let a = self.registers.a;
        let borrow: u8 = if self.registers.p.carry { 0 } else { 1 };
        let mut al = (a % 16).wrapping_sub(value % 16).wrapping_sub(borrow);
        let al_high = (al / 16) % 2 == 1;
        if al_high {
            al -= 6
        };
        let al_borrow: u8 = if al_high { 1 } else { 0 };
        let mut ah = (a / 16).wrapping_sub(value / 16).wrapping_sub(al_borrow);
        if (ah / 16) % 2 == 1 {
            ah -= 6
        };
        let result = ah % 16 * 16 + al % 16;
        assert(result == decimal_sub_result(a, value, borrow)) by {
            reveal(decimal_sub_result);
        }
        self.sbc_logic(value);
        self.registers.a = result;
        Ok(())
    }

    /// Subtracts `value` and the borrow from A, setting Z, N, C and V; A
    /// itself is left to the caller.
    fn sbc_logic(&mut self, value: u8) -> (r: u8)
        ensures
            r == old(self).spec_sbc_answer(value),
            *final(self) == old(self).spec_sbc_flags(value),
    {
        let a = self.registers.a;
        let borrow: u8 = if self.registers.p.carry { 0 } else { 1 };
        let tmp = a.wrapping_sub(value);
        let first_carry = a < value;
        let answer = tmp.wrapping_sub(borrow);
        let second_carry = tmp < borrow;
        proof {
            lemma_sub_step(a, value, borrow, tmp, answer);
        }
        self.update_zero_flag(answer);
        self.update_negative_flag(answer);
        self.registers.p.carry = !(first_carry || second_carry);
        let overflow = ((a ^ answer) & 0x80) > 0 && ((a ^ value) & 0x80) > 0;
        assert(overflow == ((a >= 0x80) != (answer >= 0x80) && (a >= 0x80) != (value >= 0x80)))
            by (bit_vector)
            requires
                overflow == (((a ^ answer) & 0x80) > 0 && ((a ^ value) & 0x80) > 0),
        ;
        self.registers.p.overflow = overflow;
        assert(self.registers.p == sub_flags(old(self).registers.p, a, value, borrow as int)) by {
            reveal(sub_flags);
        }
        answer
    }

    /// Whether adding two bytes of the same sign gave a result of the other sign.
    fn calculate_overflow(&self, op1: u8, op2: u8, result: u8) -> (r: bool)
        ensures
            r == ((op1 >= 0x80 && op2 >= 0x80 && result < 0x80) || (op1 < 0x80 && op2 < 0x80
                && result >= 0x80)),
    {
        let (s1, s2, s3) = ((op1 & 0x80) > 0, (op2 & 0x80) > 0, (result & 0x80) > 0);
        assert(s1 == (op1 >= 0x80) && s2 == (op2 >= 0x80) && s3 == (result >= 0x80)) by (bit_vector)
            requires
                s1 == ((op1 & 0x80) > 0),
                s2 == ((op2 & 0x80) > 0),
                s3 == ((result & 0x80) > 0),
        ;
        (s1 && s2 && !s3) || (!s1 && !s2 && s3)
    }

    /// Compares `register` with `value`; returns their difference modulo 256.
    pub fn compare(&mut self, register: u8, value: u8) -> (r: u8)
        ensures
            r == ((register - value + 256) % 256) as u8,
            *final(self) == old(self).spec_compare(register, value),
    {
        let answer = register.wrapping_sub(value);
        let carry = register < value;
        self.update_zero_flag(answer);
        self.update_negative_flag(answer);
        self.registers.p.carry = !carry;
        answer
    }

    pub fn check_compare_address(&self, addressing_mode: &AddressingMode) -> (r: CpuResult)
        ensures
            r == check_result(is_compare_mode(*addressing_mode)),
    {
        match addressing_mode {
            AddressingMode::Immediate { .. } => Ok(()),
            AddressingMode::ZeroPage { .. } => Ok(()),
            AddressingMode::Absolute { .. } => Ok(()),
            _ => Err(CpuError::InvalidAddressingMode),
        }
    }
}


/// Whether `byte` holds two decimal digits (packed BCD).
pub open spec fn is_bcd(byte: u8) -> bool {
    byte % 16 <= 9 && byte / 16 <= 9
}

/// The number (0 to 99) a packed BCD byte holds.
pub open spec fn bcd_value(byte: u8) -> int {
    (byte / 16) * 10 + byte % 16
}

/// The packed BCD byte of a number from 0 to 99.
pub open spec fn bcd_byte(n: int) -> u8 {
    ((n / 10) * 16 + n % 10) as u8
}

/// Two digits `high` and `low` packed as BCD.
proof fn lemma_bcd_digits(high: int, low: int)
    requires
        0 <= high <= 9,
        0 <= low <= 9,
    ensures
        bcd_byte(10 * high + low) == (high * 16 + low) as u8,
{
    vstd::arithmetic::div_mod::lemma_fundamental_div_mod_converse_div(10 * high + low, 10, high, low);
    vstd::arithmetic::div_mod::lemma_fundamental_div_mod_converse_mod(10 * high + low, 10, high, low);
}

/// The two digits of a packed BCD byte.
proof fn lemma_bcd_split(byte: u8)
    ensures
        byte as int == (byte / 16) as int * 16 + (byte % 16) as int,
        0 <= byte % 16 < 16,
{
}

/// Decimal-mode ADC on packed BCD operands adds them as decimal numbers:
/// the accumulator gets the last two digits of the sum and the carry tells
/// whether the sum reached 100.
pub proof fn lemma_decimal_add_is_bcd_addition(p: ProcessorStatus, a: u8, value: u8, carry_in: u8)
    requires
        is_bcd(a),
        is_bcd(value),
        carry_in <= 1,
    ensures
        decimal_add_result(a, value, carry_in) == bcd_byte((bcd_value(a) + bcd_value(value) + carry_in) % 100),
        decimal_add_flags(p, a, value, carry_in).carry == (bcd_value(a) + bcd_value(value) + carry_in >= 100),
{
    reveal(decimal_add_result);
    reveal(decimal_add_flags);
    let al = (a % 16) as int;
    let ah = (a / 16) as int;
    let vl = (value % 16) as int;
    let vh = (value / 16) as int;
    let low = al + vl + carry_in;
    assert(decimal_add_low(a, value, carry_in) as int == low);
    let carry1: int = if low > 9 { 1 } else { 0 };
    let high = ah + vh + carry1;
    assert(decimal_add_high(a, value, carry_in) as int == high);
    let carry2: int = if high > 9 { 1 } else { 0 };
    let low_adjusted: int = if low > 9 { low + 6 } else { low };
    let high_adjusted: int = if high > 9 { high + 6 } else { high };
    assert(decimal_add_high_adjusted(a, value, carry_in) as int == high_adjusted);
    vstd::arithmetic::div_mod::lemma_fundamental_div_mod_converse_mod(low_adjusted, 16, carry1, low - 10 * carry1);
    vstd::arithmetic::div_mod::lemma_fundamental_div_mod_converse_mod(high_adjusted, 16, carry2, high - 10 * carry2);
    let sum = bcd_value(a) + bcd_value(value) + carry_in;
    let rest = 10 * (high - 10 * carry2) + (low - 10 * carry1);
    assert(sum == carry2 * 100 + rest);
    vstd::arithmetic::div_mod::lemma_fundamental_div_mod_converse_mod(sum, 100, carry2, rest);
    lemma_bcd_digits(high - 10 * carry2, low - 10 * carry1);
}

/// Decimal-mode SBC on packed BCD operands subtracts them as decimal
/// numbers (modulo 100), and no borrow comes out exactly when the decimal
/// difference is not negative.
pub proof fn lemma_decimal_sub_is_bcd_subtraction(a: u8, value: u8, borrow: u8)
    requires
        is_bcd(a),
        is_bcd(value),
        borrow <= 1,
    ensures
        decimal_sub_result(a, value, borrow) == bcd_byte(
            (bcd_value(a) - bcd_value(value) - borrow + 100) % 100,
        ),
        (a - value - borrow >= 0) == (bcd_value(a) - bcd_value(value) - borrow >= 0),
{
    reveal(decimal_sub_result);
    lemma_bcd_split(a);
    lemma_bcd_split(value);
    let al = (a % 16) as int;
    let ah = (a / 16) as int;
    let vl = (value % 16) as int;
    let vh = (value / 16) as int;
    let low = al - vl - borrow;
    let borrow1: int = if low < 0 { 1 } else { 0 };
    let low_byte = decimal_sub_low(a, value, borrow);
    assert(low_byte as int == low + 256 * borrow1);
    assert(((low_byte / 16) % 2 == 1) == (borrow1 == 1));
    let low_adjusted: int = if borrow1 == 1 { low_byte - 6 } else { low_byte as int };
    vstd::arithmetic::div_mod::lemma_fundamental_div_mod_converse_mod(
        low_adjusted,
        16,
        if borrow1 == 1 { 15int } else { 0 },
        low + 10 * borrow1,
    );
    let high = ah - vh - borrow1;
    let borrow2: int = if high < 0 { 1 } else { 0 };
    let high_byte = (a / 16).wrapping_sub(value / 16).wrapping_sub(if borrow1 == 1 { 1u8 } else { 0u8 });
    assert(high_byte as int == high + 256 * borrow2);
    assert(((high_byte / 16) % 2 == 1) == (borrow2 == 1));
    let high_adjusted: int = if borrow2 == 1 { high_byte - 6 } else { high_byte as int };
    vstd::arithmetic::div_mod::lemma_fundamental_div_mod_converse_mod(
        high_adjusted,
        16,
        if borrow2 == 1 { 15int } else { 0 },
        high + 10 * borrow2,
    );
    let difference = bcd_value(a) - bcd_value(value) - borrow;
    let rest = 10 * (high + 10 * borrow2) + (low + 10 * borrow1);
    assert(difference + 100 == (1 - borrow2) * 100 + rest);
    vstd::arithmetic::div_mod::lemma_fundamental_div_mod_converse_mod(difference + 100, 100, 1 - borrow2, rest);
    lemma_bcd_digits(high + 10 * borrow2, low + 10 * borrow1);
}

} // verus!
