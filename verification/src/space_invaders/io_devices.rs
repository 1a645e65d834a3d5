use vstd::prelude::*;

verus! {

/// An output port whose writes are ignored.
pub struct DummyOutputDevice {}

impl DummyOutputDevice {
    pub fn write(&mut self, value: u8)
        ensures
            *final(self) == *old(self),
    {
    }
}

/// An input port that always reads `value`.
pub struct DummyInputDevice {
    pub value: u8,
}

impl DummyInputDevice {
    pub fn read(&mut self) -> (r: u8)
        ensures
            r == old(self).value,
            *final(self) == *old(self),
    {
        self.value
    }
}

} // verus!
