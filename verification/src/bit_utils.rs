use vstd::prelude::*;

verus! {

/// The 16-bit word whose high byte is `high` and whose low byte is `low`.
pub open spec fn spec_word(high: u8, low: u8) -> u16 {
    (high as int * 256 + low as int) as u16
}

/// The low byte of a 16-bit word.
pub open spec fn spec_low_byte(word: u16) -> u8 {
    (word % 256) as u8
}

/// The high byte of a 16-bit word.
pub open spec fn spec_high_byte(word: u16) -> u8 {
    (word / 256) as u8
}

/// The two's complement negation of `value`, as a byte.
pub open spec fn spec_two_complement(value: u8) -> u8 {
    ((256 - value as int) % 256) as u8
}

/// Negates `value` in two's complement. The computation goes through a
/// 16-bit intermediate that overflows for zero, so zero is not accepted.
pub fn two_complement(value: u8) -> (r: u8)
    requires
        value != 0,
    ensures
        r == spec_two_complement(value),
{
    let wide: u16 = value as u16;
    let inverted: u16 = !wide;
    assert(inverted == 0xffff - wide) by (bit_vector)
        requires
            inverted == !wide,
            wide < 256,
    ;
    let sum: u16 = inverted + 1;
    let r: u8 = sum as u8;
    assert(r == sum % 256) by (bit_vector)
        requires
            r == sum as u8,
    ;
    r
}

/// Builds a word from its high and low bytes.
pub fn two_bytes_to_word(high_byte: u8, low_byte: u8) -> (r: u16)
    ensures
        r == spec_word(high_byte, low_byte),
        r as int == high_byte as int * 256 + low_byte as int,
{
    let r: u16 = (high_byte as u16) << 8 | (low_byte as u16);
    assert(r == high_byte as int * 256 + low_byte as int) by (bit_vector)
        requires
            r == (high_byte as u16) << 8 | (low_byte as u16),
    ;
    r
}

/// Splits a word into `(low byte, high byte)`.
pub fn word_to_two_bytes(word: u16) -> (r: (u8, u8))
    ensures
        r.0 == spec_low_byte(word),
        r.1 == spec_high_byte(word),
        spec_word(r.1, r.0) == word,
{
    let high: u16 = (word & 0xff00) >> 8;
    assert(high == word / 256) by (bit_vector)
        requires
            high == (word & 0xff00) >> 8,
    ;
    let low: u8 = (word & 0xff) as u8;
    assert(low == word % 256) by (bit_vector)
        requires
            low == (word & 0xff) as u8,
    ;
    (low, high as u8)
}

} // verus!
