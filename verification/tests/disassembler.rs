use emulators::disassembler::intel8080::{get_instruction, get_instructions, Instruction, Register};

#[test]
fn three_byte_instructions_take_their_address() {
    let (instruction, extra) = get_instruction(&[0xc3, 0x34, 0x12]).unwrap();
    assert!(matches!(instruction, Instruction::Jmp { address: [0x34, 0x12] }));
    assert_eq!(extra, 2);
    let (instruction, extra) = get_instruction(&[0x01, 0x02, 0x03]).unwrap();
    assert!(matches!(
        instruction,
        Instruction::Lxi { register: Register::B, low_byte: 0x02, high_byte: 0x03 }
    ));
    assert_eq!(extra, 2);
}

#[test]
fn registers_are_decoded_from_the_opcode() {
    let (instruction, extra) = get_instruction(&[0x78]).unwrap();
    assert!(matches!(instruction, Instruction::Mov { source: Register::A, destiny: Register::B }));
    assert_eq!(extra, 0);
    let (instruction, _) = get_instruction(&[0xf5]).unwrap();
    assert!(matches!(instruction, Instruction::Push { register: Register::Psw }));
    let (instruction, extra) = get_instruction(&[0x3e, 0x42]).unwrap();
    assert!(matches!(instruction, Instruction::Mvi { register: Register::A, byte: 0x42 }));
    assert_eq!(extra, 1);
}

#[test]
fn unknown_opcodes_decode_as_noop() {
    let (instruction, extra) = get_instruction(&[0x08]).unwrap();
    assert!(matches!(instruction, Instruction::Noop));
    assert_eq!(extra, 0);
}

#[test]
fn a_program_is_listed_after_one_noop_per_byte() {
    let instructions = get_instructions(vec![0x3e, 0x01, 0xc9]).unwrap();
    assert_eq!(instructions.len(), 5);
    assert!(instructions[..3].iter().all(|i| matches!(i, Instruction::Noop)));
    assert!(matches!(instructions[3], Instruction::Mvi { register: Register::A, byte: 0x01 }));
    assert!(matches!(instructions[4], Instruction::Ret));
}
