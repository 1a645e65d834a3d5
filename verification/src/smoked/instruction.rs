use vstd::prelude::*;
use crate::smoked::text::{decimal_text, push_decimal};

verus! {

/// The operations of the Smoke virtual machine; those that carry a number
/// take it as their operand.
#[derive(Clone, Debug, PartialEq, Eq, Structural)]
pub enum InstructionType {
    Return,
    Constant(usize),
    Nil,
    True,
    False,
    Plus,
    Minus,
    Mult,
    Div,
    Not,
    Equal,
    NotEqual,
    Greater,
    GreaterEqual,
    Less,
    LessEqual,
    Noop,
    StringConcat,
    Syscall,
    SetGlobal(usize),
    GetGlobal(usize),
    SetLocal(usize),
    GetLocal(usize),
    JmpIfFalse(usize),
    Jmp(usize),
    Loop(usize),
    Call,
    ArrayAlloc,
    ArrayGet,
    ArraySet,
    MultiArraySet,
    ObjectAlloc,
    ObjectGet,
    ObjectSet,
    And,
    Or,
    Abs,
    Push,
    Pop,
    RepeatedArraySet,
    Strlen,
    Swap,
    ToStr,
}

/// One instruction of a program, with the index of the source location it
/// came from.
#[derive(Clone, Debug, PartialEq, Eq, Structural)]
pub struct Instruction {
    pub instruction_type: InstructionType,
    pub location: usize,
}

/// The eight little-endian bytes of `value`.
pub open spec fn le_bytes(value: u64) -> Seq<u8> {
    seq![
        value as u8,
        (value >> 8) as u8,
        (value >> 16) as u8,
        (value >> 24) as u8,
        (value >> 32) as u8,
        (value >> 40) as u8,
        (value >> 48) as u8,
        (value >> 56) as u8,
    ]
}

/// The number whose little-endian bytes start at `offset` in `bytes`.
pub open spec fn le_value(bytes: Seq<u8>, offset: int) -> u64 {
    (bytes[offset] as u64) | ((bytes[offset + 1] as u64) << 8u64) | ((bytes[offset + 2] as u64)
        << 16u64) | ((bytes[offset + 3] as u64) << 24u64) | ((bytes[offset + 4] as u64) << 32u64)
        | ((bytes[offset + 5] as u64) << 40u64) | ((bytes[offset + 6] as u64) << 48u64) | ((
    bytes[offset + 7] as u64) << 56u64)
}

proof fn lemma_le_round_trip(value: u64)
    by (bit_vector)
    ensures
        value == ((value as u8) as u64) | ((((value >> 8u64) as u8) as u64) << 8u64) | ((((value
            >> 16u64) as u8) as u64) << 16u64) | ((((value >> 24u64) as u8) as u64) << 24u64)
            | ((((value >> 32u64) as u8) as u64) << 32u64) | ((((value >> 40u64) as u8) as u64)
            << 40u64) | ((((value >> 48u64) as u8) as u64) << 48u64) | ((((value >> 56u64) as u8)
            as u64) << 56u64),
{
}

/// Reading back the little-endian bytes of a number gives the number.
pub proof fn lemma_le_value_of_le_bytes(value: u64, prefix: Seq<u8>, suffix: Seq<u8>)
    ensures
        le_value(prefix + le_bytes(value) + suffix, prefix.len() as int) == value,
{
    let all = prefix + le_bytes(value) + suffix;
    let o = prefix.len() as int;
    assert(all[o] == value as u8);
    assert(all[o + 1] == (value >> 8) as u8);
    assert(all[o + 2] == (value >> 16) as u8);
    assert(all[o + 3] == (value >> 24) as u8);
    assert(all[o + 4] == (value >> 32) as u8);
    assert(all[o + 5] == (value >> 40) as u8);
    assert(all[o + 6] == (value >> 48) as u8);
    assert(all[o + 7] == (value >> 56) as u8);
    lemma_le_round_trip(value);
}

/// Appends the eight little-endian bytes of `value`.
pub(crate) fn push_le_bytes(bytes: &mut Vec<u8>, value: u64)
    ensures
        final(bytes)@ == old(bytes)@ + le_bytes(value),
{
    bytes.push(value as u8);
    bytes.push((value >> 8) as u8);
    bytes.push((value >> 16) as u8);
    bytes.push((value >> 24) as u8);
    bytes.push((value >> 32) as u8);
    bytes.push((value >> 40) as u8);
    bytes.push((value >> 48) as u8);
    bytes.push((value >> 56) as u8);
    assert(bytes@ =~= old(bytes)@ + le_bytes(value));
}

/// The number stored little-endian in the eight bytes at `offset`.
fn usize_from_le_bytes(bytes: &[u8], offset: usize) -> (r: usize)
    requires
        offset + 8 <= bytes@.len(),
    ensures
        r == le_value(bytes@, offset as int) as usize,
{
    let value: u64 = (bytes[offset] as u64) | ((bytes[offset + 1] as u64) << 8u64) | ((bytes[offset + 2] as u64)
        << 16u64) | ((bytes[offset + 3] as u64) << 24u64) | ((bytes[offset + 4] as u64) << 32u64)
        | ((bytes[offset + 5] as u64) << 40u64) | ((bytes[offset + 6] as u64) << 48u64) | ((
    bytes[offset + 7] as u64) << 56u64);
    value as usize
}

/// Whether an instruction of this type carries an operand.
pub open spec fn has_operand(instruction_type: InstructionType) -> bool {
    match instruction_type {
        InstructionType::Constant(_) => true,
        InstructionType::SetGlobal(_) => true,
        InstructionType::GetGlobal(_) => true,
        InstructionType::SetLocal(_) => true,
        InstructionType::GetLocal(_) => true,
        InstructionType::JmpIfFalse(_) => true,
        InstructionType::Jmp(_) => true,
        InstructionType::Loop(_) => true,
        _ => false,
    }
}

/// The operand an instruction type carries (0 for those without one).
pub open spec fn operand(instruction_type: InstructionType) -> usize {
    match instruction_type {
        InstructionType::Constant(value) => value,
        InstructionType::SetGlobal(value) => value,
        InstructionType::GetGlobal(value) => value,
        InstructionType::SetLocal(value) => value,
        InstructionType::GetLocal(value) => value,
        InstructionType::JmpIfFalse(value) => value,
        InstructionType::Jmp(value) => value,
        InstructionType::Loop(value) => value,
        _ => 0,
    }
}

/// The opcode byte an instruction type is written with. `ArraySet` is
/// written with the opcode of `ObjectAlloc`.
pub open spec fn opcode(instruction_type: InstructionType) -> u8 {
    match instruction_type {
        InstructionType::Return => 0u8,
        InstructionType::Constant(_) => 1u8,
        InstructionType::Nil => 6u8,
        InstructionType::True => 7u8,
        InstructionType::False => 8u8,
        InstructionType::Plus => 2u8,
        InstructionType::Minus => 3u8,
        InstructionType::Mult => 4u8,
        InstructionType::Div => 5u8,
        InstructionType::Not => 9u8,
        InstructionType::Equal => 10u8,
        InstructionType::NotEqual => 11u8,
        InstructionType::Greater => 12u8,
        InstructionType::GreaterEqual => 13u8,
        InstructionType::Less => 14u8,
        InstructionType::LessEqual => 15u8,
        InstructionType::Noop => 255u8,
        InstructionType::StringConcat => 16u8,
        InstructionType::Syscall => 17u8,
        InstructionType::SetGlobal(_) => 19u8,
        InstructionType::GetGlobal(_) => 18u8,
        InstructionType::SetLocal(_) => 21u8,
        InstructionType::GetLocal(_) => 20u8,
        InstructionType::JmpIfFalse(_) => 22u8,
        InstructionType::Jmp(_) => 23u8,
        InstructionType::Loop(_) => 24u8,
        InstructionType::Call => 25u8,
        InstructionType::ArrayAlloc => 26u8,
        InstructionType::ArrayGet => 27u8,
        InstructionType::ArraySet => 29u8,
        InstructionType::MultiArraySet => 35u8,
        InstructionType::ObjectAlloc => 29u8,
        InstructionType::ObjectGet => 30u8,
        InstructionType::ObjectSet => 31u8,
        InstructionType::And => 32u8,
        InstructionType::Or => 33u8,
        InstructionType::Abs => 34u8,
        InstructionType::Push => 36u8,
        InstructionType::Pop => 37u8,
        InstructionType::RepeatedArraySet => 38u8,
        InstructionType::Strlen => 39u8,
        InstructionType::Swap => 40u8,
        InstructionType::ToStr => 41u8,
    }
}

/// Whether an opcode is followed by an operand.
pub open spec fn opcode_has_operand(code: u8) -> bool {
    code == 1 || (18 <= code <= 24)
}

/// The number of bytes an instruction with this opcode takes.
pub open spec fn encoded_size(code: u8) -> nat {
    if opcode_has_operand(code) {
        17
    } else {
        9
    }
}

/// The instruction type an opcode stands for, with `operand` as its operand
/// where it takes one; unknown opcodes read as `Noop`.
pub open spec fn type_of_opcode(code: u8, operand: usize) -> InstructionType {
    if code == 0 {
        InstructionType::Return
    } else if code == 1 {
        InstructionType::Constant(operand)
    } else if code == 2 {
        InstructionType::Plus
    } else if code == 3 {
        InstructionType::Minus
    } else if code == 4 {
        InstructionType::Mult
    } else if code == 5 {
        InstructionType::Div
    } else if code == 6 {
        InstructionType::Nil
    } else if code == 7 {
        InstructionType::True
    } else if code == 8 {
        InstructionType::False
    } else if code == 9 {
        InstructionType::Not
    } else if code == 10 {
        InstructionType::Equal
    } else if code == 11 {
        InstructionType::NotEqual
    } else if code == 12 {
        InstructionType::Greater
    } else if code == 13 {
        InstructionType::GreaterEqual
    } else if code == 14 {
        InstructionType::Less
    } else if code == 15 {
        InstructionType::LessEqual
    } else if code == 16 {
        InstructionType::StringConcat
    } else if code == 17 {
        InstructionType::Syscall
    } else if code == 18 {
        InstructionType::GetGlobal(operand)
    } else if code == 19 {
        InstructionType::SetGlobal(operand)
    } else if code == 20 {
        InstructionType::GetLocal(operand)
    } else if code == 21 {
        InstructionType::SetLocal(operand)
    } else if code == 22 {
        InstructionType::JmpIfFalse(operand)
    } else if code == 23 {
        InstructionType::Jmp(operand)
    } else if code == 24 {
        InstructionType::Loop(operand)
    } else if code == 25 {
        InstructionType::Call
    } else if code == 26 {
        InstructionType::ArrayAlloc
    } else if code == 27 {
        InstructionType::ArrayGet
    } else if code == 28 {
        InstructionType::ArraySet
    } else if code == 29 {
        InstructionType::ObjectAlloc
    } else if code == 30 {
        InstructionType::ObjectGet
    } else if code == 31 {
        InstructionType::ObjectSet
    } else if code == 32 {
        InstructionType::And
    } else if code == 33 {
        InstructionType::Or
    } else if code == 34 {
        InstructionType::Abs
    } else if code == 35 {
        InstructionType::MultiArraySet
    } else if code == 36 {
        InstructionType::Push
    } else if code == 37 {
        InstructionType::Pop
    } else if code == 38 {
        InstructionType::RepeatedArraySet
    } else if code == 39 {
        InstructionType::Strlen
    } else if code == 40 {
        InstructionType::Swap
    } else if code == 41 {
        InstructionType::ToStr
    } else if code == 255 {
        InstructionType::Noop
    } else {
        InstructionType::Noop
    }
}

/// The bytes an instruction is written as: its opcode, its operand if it
/// has one, and its location, numbers little-endian.
pub open spec fn encode(instruction: Instruction) -> Seq<u8> {
    let t = instruction.instruction_type;
    seq![opcode(t)] + (if has_operand(t) {
        le_bytes(operand(t) as u64)
    } else {
        Seq::empty()
    }) + le_bytes(instruction.location as u64)
}

/// The instruction read from the front of `bytes`.
pub open spec fn decode(bytes: Seq<u8>) -> Instruction {
    let code = bytes[0];
    if opcode_has_operand(code) {
        Instruction {
            instruction_type: type_of_opcode(code, le_value(bytes, 1) as usize),
            location: le_value(bytes, 9) as usize,
        }
    } else {
        Instruction { instruction_type: type_of_opcode(code, 0), location: le_value(bytes, 1) as usize }
    }
}

/// The text of an instruction, as the disassembler prints it.
pub open spec fn instruction_text(instruction_type: InstructionType) -> Seq<char> {
    match instruction_type {
        InstructionType::Return => "RETURN"@,
        InstructionType::Constant(value) => "CONSTANT "@ + decimal_text(value as nat),
        InstructionType::Nil => "NIL"@,
        InstructionType::True => "TRUE"@,
        InstructionType::False => "FALSE"@,
        InstructionType::Plus => "PLUS"@,
        InstructionType::Minus => "MINUS"@,
        InstructionType::Mult => "MULT"@,
        InstructionType::Div => "DIV"@,
        InstructionType::Not => "NOT"@,
        InstructionType::Equal => "EQUAL"@,
        InstructionType::NotEqual => "NOT_EQUAL"@,
        InstructionType::Greater => "GREATER"@,
        InstructionType::GreaterEqual => "GREATER_EQUAL"@,
        InstructionType::Less => "LESS"@,
        InstructionType::LessEqual => "LESS_EQUAL"@,
        InstructionType::Noop => "NOOP"@,
        InstructionType::StringConcat => "STRING_CONCAT"@,
        InstructionType::Syscall => "SYSCALL"@,
        InstructionType::SetGlobal(value) => "SET_GLOBAL "@ + decimal_text(value as nat),
        InstructionType::GetGlobal(value) => "GET_GLOBAL "@ + decimal_text(value as nat),
        InstructionType::SetLocal(value) => "SET_LOCAL "@ + decimal_text(value as nat),
        InstructionType::GetLocal(value) => "GET_LOCAL "@ + decimal_text(value as nat),
        InstructionType::JmpIfFalse(value) => "JMP_IF_FALSE "@ + decimal_text(value as nat),
        InstructionType::Jmp(value) => "JMP "@ + decimal_text(value as nat),
        InstructionType::Loop(value) => "LOOP "@ + decimal_text(value as nat),
        InstructionType::Call => "CALL"@,
        InstructionType::ArrayAlloc => "ARRAY_ALLOC"@,
        InstructionType::ArrayGet => "ARRAY_GET"@,
        InstructionType::ArraySet => "ARRAY_SET"@,
        InstructionType::MultiArraySet => "MULTI_ARRAY_SET"@,
        InstructionType::ObjectAlloc => "OBJECT_ALLOC"@,
        InstructionType::ObjectGet => "OBJECT_GET"@,
        InstructionType::ObjectSet => "OBJECT_SET"@,
        InstructionType::And => "AND"@,
        InstructionType::Or => "OR"@,
        InstructionType::Abs => "ABS"@,
        InstructionType::Push => "PUSH"@,
        InstructionType::Pop => "POP"@,
        InstructionType::RepeatedArraySet => "REPEATED_ARRAY_SET"@,
        InstructionType::Strlen => "STRLEN"@,
        InstructionType::Swap => "SWAP"@,
        InstructionType::ToStr => "TO_STR"@,
    }
}

impl Instruction {
    /// The number of bytes the instruction takes: 17 with an operand, 9
    /// without.
    pub fn size(&self) -> (r: usize)
        ensures
            r == if has_operand(self.instruction_type) {
                17usize
            } else {
                9usize
            },
    {
        match &self.instruction_type {
            InstructionType::Constant(_) | InstructionType::SetGlobal(_) | InstructionType::GetGlobal(_)
            | InstructionType::SetLocal(_) | InstructionType::GetLocal(_) | InstructionType::Jmp(_)
            | InstructionType::JmpIfFalse(_) | InstructionType::Loop(_) => 17,
            _ => 9,
        }
    }

    /// The instruction written as bytes.
    pub fn to_bytes(&self) -> (r: Vec<u8>)
        ensures
            r@ == encode(*self),
    {
        let mut bytes: Vec<u8> = Vec::new();
        match &self.instruction_type {
            InstructionType::Return => bytes.push(0),
            InstructionType::Constant(value) => {
                bytes.push(1);
                push_le_bytes(&mut bytes, *value as u64);
            },
            InstructionType::Nil => bytes.push(6),
            InstructionType::True => bytes.push(7),
            InstructionType::False => bytes.push(8),
            InstructionType::Plus => bytes.push(2),
            InstructionType::Minus => bytes.push(3),
            InstructionType::Mult => bytes.push(4),
            InstructionType::Div => bytes.push(5),
            InstructionType::Not => bytes.push(9),
            InstructionType::Equal => bytes.push(10),
            InstructionType::NotEqual => bytes.push(11),
            InstructionType::Greater => bytes.push(12),
            InstructionType::GreaterEqual => bytes.push(13),
            InstructionType::Less => bytes.push(14),
            InstructionType::LessEqual => bytes.push(15),
            InstructionType::Noop => bytes.push(255),
            InstructionType::StringConcat => bytes.push(16),
            InstructionType::Syscall => bytes.push(17),
            InstructionType::SetGlobal(value) => {
                bytes.push(19);
                push_le_bytes(&mut bytes, *value as u64);
            },
            InstructionType::GetGlobal(value) => {
                bytes.push(18);
                push_le_bytes(&mut bytes, *value as u64);
            },
            InstructionType::SetLocal(value) => {
                bytes.push(21);
                push_le_bytes(&mut bytes, *value as u64);
            },
            InstructionType::GetLocal(value) => {
                bytes.push(20);
                push_le_bytes(&mut bytes, *value as u64);
            },
            InstructionType::JmpIfFalse(value) => {
                bytes.push(22);
                push_le_bytes(&mut bytes, *value as u64);
            },
            InstructionType::Jmp(value) => {
                bytes.push(23);
                push_le_bytes(&mut bytes, *value as u64);
            },
            InstructionType::Loop(value) => {
                bytes.push(24);
                push_le_bytes(&mut bytes, *value as u64);
            },
            InstructionType::Call => bytes.push(25),
            InstructionType::ArrayAlloc => bytes.push(26),
            InstructionType::ArrayGet => bytes.push(27),
            InstructionType::ArraySet => bytes.push(29),
            InstructionType::MultiArraySet => bytes.push(35),
            InstructionType::ObjectAlloc => bytes.push(29),
            InstructionType::ObjectGet => bytes.push(30),
            InstructionType::ObjectSet => bytes.push(31),
            InstructionType::And => bytes.push(32),
            InstructionType::Or => bytes.push(33),
            InstructionType::Abs => bytes.push(34),
            InstructionType::Push => bytes.push(36),
            InstructionType::Pop => bytes.push(37),
            InstructionType::RepeatedArraySet => bytes.push(38),
            InstructionType::Strlen => bytes.push(39),
            InstructionType::Swap => bytes.push(40),
            InstructionType::ToStr => bytes.push(41),
        }
        push_le_bytes(&mut bytes, self.location as u64);
        assert(bytes@ =~= encode(*self));
        bytes
    }

    /// Reads an instruction from the front of `bytes`; an unknown opcode
    /// reads as `Noop`.
    pub fn from_bytes(bytes: &[u8]) -> (r: Instruction)
        requires
            bytes@.len() >= 1,
            bytes@.len() >= encoded_size(bytes@[0]),
        ensures
            r == decode(bytes@),
    {
        match bytes[0] {
            0 => create_instruction(InstructionType::Return, bytes, 1),
            1 => create_instruction(InstructionType::Constant(usize_from_le_bytes(bytes, 1)), bytes, 9),
            2 => create_instruction(InstructionType::Plus, bytes, 1),
            3 => create_instruction(InstructionType::Minus, bytes, 1),
            4 => create_instruction(InstructionType::Mult, bytes, 1),
            5 => create_instruction(InstructionType::Div, bytes, 1),
            6 => create_instruction(InstructionType::Nil, bytes, 1),
            7 => create_instruction(InstructionType::True, bytes, 1),
            8 => create_instruction(InstructionType::False, bytes, 1),
            9 => create_instruction(InstructionType::Not, bytes, 1),
            10 => create_instruction(InstructionType::Equal, bytes, 1),
            11 => create_instruction(InstructionType::NotEqual, bytes, 1),
            12 => create_instruction(InstructionType::Greater, bytes, 1),
            13 => create_instruction(InstructionType::GreaterEqual, bytes, 1),
            14 => create_instruction(InstructionType::Less, bytes, 1),
            15 => create_instruction(InstructionType::LessEqual, bytes, 1),
            16 => create_instruction(InstructionType::StringConcat, bytes, 1),
            17 => create_instruction(InstructionType::Syscall, bytes, 1),
            18 => create_instruction(InstructionType::GetGlobal(usize_from_le_bytes(bytes, 1)), bytes, 9),
            19 => create_instruction(InstructionType::SetGlobal(usize_from_le_bytes(bytes, 1)), bytes, 9),
            20 => create_instruction(InstructionType::GetLocal(usize_from_le_bytes(bytes, 1)), bytes, 9),
            21 => create_instruction(InstructionType::SetLocal(usize_from_le_bytes(bytes, 1)), bytes, 9),
            22 => create_instruction(InstructionType::JmpIfFalse(usize_from_le_bytes(bytes, 1)), bytes, 9),
            23 => create_instruction(InstructionType::Jmp(usize_from_le_bytes(bytes, 1)), bytes, 9),
            24 => create_instruction(InstructionType::Loop(usize_from_le_bytes(bytes, 1)), bytes, 9),
            25 => create_instruction(InstructionType::Call, bytes, 1),
            26 => create_instruction(InstructionType::ArrayAlloc, bytes, 1),
            27 => create_instruction(InstructionType::ArrayGet, bytes, 1),
            28 => create_instruction(InstructionType::ArraySet, bytes, 1),
            29 => create_instruction(InstructionType::ObjectAlloc, bytes, 1),
            30 => create_instruction(InstructionType::ObjectGet, bytes, 1),
            31 => create_instruction(InstructionType::ObjectSet, bytes, 1),
            32 => create_instruction(InstructionType::And, bytes, 1),
            33 => create_instruction(InstructionType::Or, bytes, 1),
            34 => create_instruction(InstructionType::Abs, bytes, 1),
            35 => create_instruction(InstructionType::MultiArraySet, bytes, 1),
            36 => create_instruction(InstructionType::Push, bytes, 1),
            37 => create_instruction(InstructionType::Pop, bytes, 1),
            38 => create_instruction(InstructionType::RepeatedArraySet, bytes, 1),
            39 => create_instruction(InstructionType::Strlen, bytes, 1),
            40 => create_instruction(InstructionType::Swap, bytes, 1),
            41 => create_instruction(InstructionType::ToStr, bytes, 1),
            255 => create_instruction(InstructionType::Noop, bytes, 1),
            _ => create_instruction(InstructionType::Noop, bytes, 1),
        }
    }

    /// The instruction as text: its name, then its operand in decimal.
    pub fn to_string(&self) -> (r: String)
        ensures
            r@ == instruction_text(self.instruction_type),
    {
        match &self.instruction_type {
            InstructionType::Return => String::from_str("RETURN"),
            InstructionType::Constant(value) => {
                let mut text = String::from_str("CONSTANT ");
                push_decimal(&mut text, *value);
                text
            },
            InstructionType::Nil => String::from_str("NIL"),
            InstructionType::True => String::from_str("TRUE"),
            InstructionType::False => String::from_str("FALSE"),
            InstructionType::Plus => String::from_str("PLUS"),
            InstructionType::Minus => String::from_str("MINUS"),
            InstructionType::Mult => String::from_str("MULT"),
            InstructionType::Div => String::from_str("DIV"),
            InstructionType::Not => String::from_str("NOT"),
            InstructionType::Equal => String::from_str("EQUAL"),
            InstructionType::NotEqual => String::from_str("NOT_EQUAL"),
            InstructionType::Greater => String::from_str("GREATER"),
            InstructionType::GreaterEqual => String::from_str("GREATER_EQUAL"),
            InstructionType::Less => String::from_str("LESS"),
            InstructionType::LessEqual => String::from_str("LESS_EQUAL"),
            InstructionType::Noop => String::from_str("NOOP"),
            InstructionType::StringConcat => String::from_str("STRING_CONCAT"),
            InstructionType::Syscall => String::from_str("SYSCALL"),
            InstructionType::SetGlobal(value) => {
                let mut text = String::from_str("SET_GLOBAL ");
                push_decimal(&mut text, *value);
                text
            },
            InstructionType::GetGlobal(value) => {
                let mut text = String::from_str("GET_GLOBAL ");
                push_decimal(&mut text, *value);
                text
            },
            InstructionType::SetLocal(value) => {
                let mut text = String::from_str("SET_LOCAL ");
                push_decimal(&mut text, *value);
                text
            },
            InstructionType::GetLocal(value) => {
                let mut text = String::from_str("GET_LOCAL ");
                push_decimal(&mut text, *value);
                text
            },
            InstructionType::JmpIfFalse(value) => {
                let mut text = String::from_str("JMP_IF_FALSE ");
                push_decimal(&mut text, *value);
                text
            },
            InstructionType::Jmp(value) => {
                let mut text = String::from_str("JMP ");
                push_decimal(&mut text, *value);
                text
            },
            InstructionType::Loop(value) => {
                let mut text = String::from_str("LOOP ");
                push_decimal(&mut text, *value);
                text
            },
            InstructionType::Call => String::from_str("CALL"),
            InstructionType::ArrayAlloc => String::from_str("ARRAY_ALLOC"),
            InstructionType::ArrayGet => String::from_str("ARRAY_GET"),
            InstructionType::ArraySet => String::from_str("ARRAY_SET"),
            InstructionType::MultiArraySet => String::from_str("MULTI_ARRAY_SET"),
            InstructionType::ObjectAlloc => String::from_str("OBJECT_ALLOC"),
            InstructionType::ObjectGet => String::from_str("OBJECT_GET"),
            InstructionType::ObjectSet => String::from_str("OBJECT_SET"),
            InstructionType::And => String::from_str("AND"),
            InstructionType::Or => String::from_str("OR"),
            InstructionType::Abs => String::from_str("ABS"),
            InstructionType::Push => String::from_str("PUSH"),
            InstructionType::Pop => String::from_str("POP"),
            InstructionType::RepeatedArraySet => String::from_str("REPEATED_ARRAY_SET"),
            InstructionType::Strlen => String::from_str("STRLEN"),
            InstructionType::Swap => String::from_str("SWAP"),
            InstructionType::ToStr => String::from_str("TO_STR"),
        }
    }
}

/// An instruction of type `instruction_type` whose location is stored at
/// `offset` in `bytes`.
fn create_instruction(instruction_type: InstructionType, bytes: &[u8], offset: usize) -> (r: Instruction)
    requires
        offset + 8 <= bytes@.len(),
    ensures
        r == (Instruction { instruction_type, location: le_value(bytes@, offset as int) as usize }),
{
    Instruction { instruction_type, location: usize_from_le_bytes(bytes, offset) }
}

/// An instruction occupies as many bytes as `size` says.
pub proof fn lemma_encoded_length(instruction: Instruction)
    ensures
        encode(instruction).len() == if has_operand(instruction.instruction_type) {
            17int
        } else {
            9
        },
{
}

/// Reading back the bytes of an instruction gives the instruction, for
/// every instruction type but `ArraySet` (which is written with the opcode
/// of `ObjectAlloc`).
pub proof fn lemma_decode_encode(instruction: Instruction)
    requires
        instruction.instruction_type != InstructionType::ArraySet,
    ensures
        decode(encode(instruction)) == instruction,
{
    let t = instruction.instruction_type;
    if has_operand(t) {
        let operand_bytes = le_bytes(operand(t) as u64);
        let location_bytes = le_bytes(instruction.location as u64);
        lemma_le_value_of_le_bytes(operand(t) as u64, seq![opcode(t)], location_bytes);
        lemma_le_value_of_le_bytes(instruction.location as u64, seq![opcode(t)] + operand_bytes, Seq::empty());
        assert(encode(instruction) =~= seq![opcode(t)] + operand_bytes + location_bytes);
        assert(encode(instruction) =~= seq![opcode(t)] + operand_bytes + location_bytes + Seq::<u8>::empty());
    } else {
        let location_bytes = le_bytes(instruction.location as u64);
        lemma_le_value_of_le_bytes(instruction.location as u64, seq![opcode(t)], Seq::empty());
        assert(encode(instruction) =~= seq![opcode(t)] + location_bytes);
        assert(encode(instruction) =~= seq![opcode(t)] + location_bytes + Seq::<u8>::empty());
    }
}

} // verus!
