use vstd::prelude::*;

verus! {

/// The size in bytes of a value of the virtual machine: a tag word and
/// the largest variant, three machine words.
pub const VALUE_SIZE: usize = 40;

/// The size in bytes of a machine word as the virtual machine stores it.
pub const USIZE_SIZE: usize = 8;

/// Where an instruction came from: the address of its file name in memory
/// and the line in that file.
#[derive(Clone, Copy, Debug, PartialEq, Eq, Structural)]
pub struct Location {
    pub address: usize,
    pub line: usize,
}

} // verus!
