pub mod alu;
pub mod bit_utils;
pub mod branch;
pub mod control;
pub mod data_movement;
pub mod data_shifting;
pub mod disassembler;
pub mod instruction;
pub mod instruction_text;
pub mod logical;
pub mod math;
pub mod memory;
pub mod mos6502cpu;
pub mod stack;
pub mod step_check;
pub mod undocumented;
pub mod execution;
pub mod nes;
pub mod smoked;

pub mod space_invaders;
