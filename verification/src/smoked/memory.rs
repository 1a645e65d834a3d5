use vstd::prelude::*;
use vstd::string::StringSliceAdditionalSpecFns;

verus! {

/// Why a memory access was refused.
#[derive(Clone, Copy, Debug, PartialEq, Eq, Structural)]
pub enum MemoryError {
    WrongMemoryAddress { address: usize },
    ErrorFetchingFunctionFromMemory,
}

/// The byte-addressed heap of the Smoke virtual machine.
pub struct Memory(pub Vec<u8>);

/// `memory` with `bytes` written from `address` on.
pub open spec fn spec_copy(memory: Seq<u8>, bytes: Seq<u8>, address: int) -> Seq<u8> {
    memory.subrange(0, address) + bytes + memory.subrange(address + bytes.len(), memory.len() as int)
}

/// Calls `std::str::from_utf8`, which succeeds exactly on byte strings that
/// are valid UTF-8 and then returns a string slice over the same bytes.
#[verifier::external_body]
pub(crate) fn str_from_utf8(bytes: &[u8]) -> (r: Option<&str>)
    ensures
        r is Some <==> vstd::utf8::valid_utf8(bytes@),
        r matches Some(text) ==> text.spec_bytes() == bytes@,
{
    std::str::from_utf8(bytes).ok()
}

impl Memory {
    /// A memory of `capacity` bytes, all zero.
    pub fn new(capacity: usize) -> (r: Memory)
        ensures
            r.0@ == Seq::new(capacity as nat, |_i: int| 0u8),
    {
        let mut raw_memory: Vec<u8> = Vec::with_capacity(capacity);
        let mut i: usize = 0;
        while i < capacity
            invariant
                i <= capacity,
                raw_memory@ == Seq::new(i as nat, |_i: int| 0u8),
            decreases capacity - i,
        {
            raw_memory.push(0);
            i = i + 1;
            assert(raw_memory@ =~= Seq::new(i as nat, |_i: int| 0u8));
        }
        Memory(raw_memory)
    }

    /// The `size` bytes that start at `address`; a range that runs past the
    /// end of the memory is refused.
    pub fn get_u8_vector(&self, address: usize, size: usize) -> (r: Result<&[u8], MemoryError>)
        ensures
            address + size <= self.0@.len() ==> (r matches Ok(bytes) && bytes@ == self.0@.subrange(
                address as int,
                address + size,
            )),
            address + size > self.0@.len() ==> r == Err::<&[u8], MemoryError>(
                MemoryError::WrongMemoryAddress { address },
            ),
    {
        if address > self.0.len() || size > self.0.len() - address {
            return Err(MemoryError::WrongMemoryAddress { address });
        }
        Ok(vstd::slice::slice_subrange(self.0.as_slice(), address, address + size))
    }

    /// Writes `vector` into the memory from `address` on.
    pub fn copy_u8_vector(&mut self, vector: &[u8], address: usize)
        requires
            address + vector@.len() <= old(self).0@.len(),
        ensures
            final(self).0@ == spec_copy(old(self).0@, vector@, address as int),
    {
        let mut i: usize = 0;
        while i < vector.len()
            invariant
                address + vector@.len() <= old(self).0@.len(),
                i <= vector@.len(),
                self.0@.len() == old(self).0@.len(),
                forall|k: int| 0 <= k < address ==> #[trigger] self.0@[k] == old(self).0@[k],
                forall|k: int| 0 <= k < i ==> #[trigger] self.0@[address + k] == vector@[k],
                forall|k: int|
                    address + i <= k < self.0@.len() ==> #[trigger] self.0@[k] == old(self).0@[k],
            decreases vector@.len() - i,
        {
            assert(address + i < self.0.len());
            self.0.set(address + i, vector[i]);
            i = i + 1;
        }
        assert forall|k: int| 0 <= k < self.0@.len() implies #[trigger] self.0@[k] == spec_copy(
            old(self).0@,
            vector@,
            address as int,
        )[k] by {
            if address <= k < address + vector@.len() {
                assert(self.0@[address + (k - address)] == vector@[k - address]);
            }
        }
        assert(self.0@ =~= spec_copy(old(self).0@, vector@, address as int));
    }

    /// The text stored in the `size` bytes at `address`; a range that runs
    /// past the end of the memory is refused.
    pub fn get_string(&self, address: usize, size: usize) -> (r: Result<&str, MemoryError>)
        requires
            address + size <= self.0@.len() ==> vstd::utf8::valid_utf8(
                self.0@.subrange(address as int, address + size),
            ),
        ensures
            address + size <= self.0@.len() ==> (r matches Ok(text) && text.spec_bytes()
                == self.0@.subrange(address as int, address + size)),
            address + size > self.0@.len() ==> r == Err::<&str, MemoryError>(
                MemoryError::WrongMemoryAddress { address },
            ),
    {
        let bytes = self.get_u8_vector(address, size)?;
        match str_from_utf8(bytes) {
            Some(text) => Ok(text),
            None => Err(MemoryError::ErrorFetchingFunctionFromMemory),
        }
    }

    /// Writes the bytes of `value` into the memory from `address` on.
    pub fn copy_string(&mut self, value: &str, address: usize)
        requires
            address + value.spec_bytes().len() <= old(self).0@.len(),
        ensures
            final(self).0@ == spec_copy(old(self).0@, value.spec_bytes(), address as int),
    {
        let bs = value.as_bytes();
        self.copy_u8_vector(bs, address)
    }
}

/// Reading back what was just written gives the bytes written.
pub proof fn lemma_copy_then_read(memory: Seq<u8>, bytes: Seq<u8>, address: int)
    requires
        0 <= address,
        address + bytes.len() <= memory.len(),
    ensures
        spec_copy(memory, bytes, address).subrange(address, address + bytes.len()) == bytes,
        spec_copy(memory, bytes, address).len() == memory.len(),
{
    assert(spec_copy(memory, bytes, address).subrange(address, address + bytes.len()) =~= bytes);
}

} // verus!
