pub mod allocator;
pub mod assembler;
pub mod cpu;
pub mod instruction;
pub mod memory;
pub mod text;
