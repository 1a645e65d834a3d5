use vstd::prelude::*;
use crate::bit_utils::{spec_word, two_bytes_to_word};

verus! {

/// The byte the shift hardware returns: the 16-bit word `shift0:shift1`
/// shifted right by `8 - offset`, keeping its low byte.
pub open spec fn shifted_byte(shift0: u8, shift1: u8, offset: u8) -> u8 {
    ((spec_word(shift0, shift1) as int / vstd::arithmetic::power2::pow2((8 - offset) as nat) as int) % 256) as u8
}

/// Output port that sets how far the shift register is read (0 to 7).
pub struct ExternalShiftOffsetWriter {
    shift_offset: u8,
}

impl ExternalShiftOffsetWriter {
    #[verifier::type_invariant]
    spec fn offset_in_range(&self) -> bool {
        self.shift_offset < 8
    }

    /// The offset last written.
    pub closed spec fn offset(&self) -> u8 {
        self.shift_offset
    }

    pub fn new() -> (r: ExternalShiftOffsetWriter)
        ensures
            r.offset() == 0,
    {
        ExternalShiftOffsetWriter { shift_offset: 0 }
    }

    pub fn get_shift_offset(&self) -> (r: u8)
        ensures
            r == self.offset(),
            r < 8,
    {
        proof {
            use_type_invariant(self);
        }
        self.shift_offset
    }

    /// Keeps the low three bits of `value` as the new offset.
    pub fn write(&mut self, value: u8)
        ensures
            final(self).offset() == value % 8,
    {
        assert(value & 0x07 == value % 8) by (bit_vector);
        self.shift_offset = value & 0x07;
    }
}

/// Output port that pushes a byte into the 16-bit shift register: the new
/// byte becomes the high half and the previous one the low half.
pub struct ExternalShiftWriter {
    shift0: u8,
    shift1: u8,
}

impl ExternalShiftWriter {
    /// The high byte of the shift register.
    pub closed spec fn high(&self) -> u8 {
        self.shift0
    }

    /// The low byte of the shift register.
    pub closed spec fn low(&self) -> u8 {
        self.shift1
    }

    pub fn write(&mut self, value: u8)
        ensures
            final(self).high() == value,
            final(self).low() == old(self).high(),
    {
        self.shift1 = self.shift0;
        self.shift0 = value;
    }

    pub fn new() -> (r: ExternalShiftWriter)
        ensures
            r.high() == 0,
            r.low() == 0,
    {
        ExternalShiftWriter { shift0: 0, shift1: 0 }
    }

    pub fn get_shift0(&self) -> (r: u8)
        ensures
            r == self.high(),
    {
        self.shift0
    }

    pub fn get_shift1(&self) -> (r: u8)
        ensures
            r == self.low(),
    {
        self.shift1
    }
}

/// Input port that reads the shift register through the offset.
pub struct ExternalShiftReader {}

impl ExternalShiftReader {
    /// A reader of the register that `shift_writer` fills, at the offset
    /// that `offset_writer` sets.
    pub fn new(shift_writer: &ExternalShiftWriter, offset_writer: &ExternalShiftOffsetWriter) -> (r: ExternalShiftReader) {
        ExternalShiftReader {}
    }

    /// The byte the register shows at the current offset.
    pub fn read(&self, shift_writer: &ExternalShiftWriter, offset_writer: &ExternalShiftOffsetWriter) -> (r: u8)
        ensures
            r == shifted_byte(shift_writer.high(), shift_writer.low(), offset_writer.offset()),
    {
        let offset = offset_writer.get_shift_offset();
        let v = two_bytes_to_word(shift_writer.get_shift0(), shift_writer.get_shift1());
        let amount: u16 = (8 - offset) as u16;
        proof {
            vstd::bits::lemma_u16_shr_is_div(v, amount);
        }
        ((v >> amount) % 256) as u8
    }
}

/// Writing two bytes and then an offset shows, at that offset, the bits of
/// the word formed by the two bytes (the later one high).
pub proof fn lemma_shift_reads_written_bytes(first: u8, second: u8, offset: u8)
    requires
        offset < 8,
    ensures
        shifted_byte(second, first, offset) == ((second as int * 256 + first as int) / vstd::arithmetic::power2::pow2(
            (8 - offset) as nat,
        ) as int) % 256,
{
}

} // verus!
