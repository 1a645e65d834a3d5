# emulators

A verified library of small machine emulators and their tools, checked with
Verus, and a command-line front end.

## Layout

- `src/` — the verified library.
  - MOS 6502: `instruction.rs` (decoding, sizes, cycle counts),
    `instruction_text.rs` (assembly text), `mos6502cpu.rs` and the
    instruction groups (`alu.rs`, `branch.rs`, `control.rs`,
    `data_movement.rs`, `data_shifting.rs`, `logical.rs`, `math.rs`,
    `stack.rs`, `undocumented.rs`), `execution.rs` (dispatch) and
    `step_check.rs` (whether a step stays within the machine's arithmetic).
  - `nes/` — NES memory map, video RAM, picture processing unit registers and
    the console's power-up.
  - `smoked/` — the smoked virtual machine's allocator, memory, bytecode
    instructions and assembler.
  - `space_invaders/` — the screen, the external shift register, sound
    triggers and console options of the Space Invaders machine.
  - `disassembler/` — the Intel 8080 disassembler.
- `tests/` — tests of the library.
- `app/` — the command-line program: `mos6502`, `nes`, `disassemble` and
  `assemble` subcommands that read files and hand their bytes to the library.

Every public function states its result in its `ensures`; the properties
that relate several functions are public proof functions whose names start
with `lemma_`.
