use vstd::prelude::*;

verus! {

broadcast use vstd::array::group_array_axioms;

/// Size of the address space of the MOS 6502 (64 KiB).
pub const AVAILABLE_MEMORY: usize = 0x10000;

/// A byte-addressed memory seen through a 16-bit address bus.
///
/// `spec_get` and `spec_set` give the abstract behaviour of `get` and `set`,
/// so that code generic over the memory can be specified exactly.
pub trait Memory: Sized {
    /// The byte that `get(index)` returns.
    spec fn spec_get(&self, index: u16) -> u8;

    /// The memory after `set(index, value)`.
    spec fn spec_set(&self, index: u16, value: u8) -> Self;

    /// The value that `len` returns.
    spec fn spec_len(&self) -> nat;

    fn set(&mut self, index: u16, new_value: u8)
        ensures
            *final(self) == old(self).spec_set(index, new_value),
    ;

    fn get(&self, index: u16) -> (r: u8)
        ensures
            r == self.spec_get(index),
    ;

    fn len(&self) -> (r: usize)
        ensures
            r == self.spec_len(),
    ;

    fn is_empty(&self) -> (r: bool)
        ensures
            r == (self.spec_len() == 0),
    {
        self.len() == 0
    }
}

/// A flat 64 KiB memory: every address is backed by its own byte.
impl Memory for [u8; AVAILABLE_MEMORY] {
    open spec fn spec_get(&self, index: u16) -> u8 {
        self[index as int]
    }

    open spec fn spec_set(&self, index: u16, value: u8) -> Self {
        vstd::array::spec_array_update(*self, index as int, value)
    }

    open spec fn spec_len(&self) -> nat {
        AVAILABLE_MEMORY as nat
    }

    fn set(&mut self, index: u16, new_value: u8) {
        self[index as usize] = new_value;
        assert(*self =~= vstd::array::spec_array_update(*old(self), index as int, new_value));
    }

    fn get(&self, index: u16) -> (r: u8) {
        self[index as usize]
    }

    fn len(&self) -> (r: usize) {
        AVAILABLE_MEMORY
    }
}

/// Reading a flat memory right after writing it gives back what was written,
/// and every other address keeps its byte.
pub proof fn lemma_flat_memory_read_after_write(
    memory: [u8; AVAILABLE_MEMORY],
    index: u16,
    value: u8,
    probe: u16,
)
    ensures
        memory.spec_set(index, value).spec_get(probe) == if probe == index {
            value
        } else {
            memory.spec_get(probe)
        },
{
}

} // verus!
