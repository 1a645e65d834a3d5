use emulators::smoked::assembler::{
    is_whitespace,
    assemble, can_assemble, lexer, parse_constants, parse_instructions, write_program, Constant,
    Token, TokenType,
};

const PROGRAM: &str = ".data\nINTEGER 42\nSTRING \"hi\"\n.code\nCONSTANT 0\nRETURN\n";

fn le(value: u64) -> Vec<u8> {
    value.to_le_bytes().to_vec()
}

fn token(token_type: TokenType, location: usize) -> Token {
    Token { token_type, location }
}

#[test]
fn lexer_reads_sections_constants_and_instructions() {
    let tokens = lexer(PROGRAM).unwrap();
    assert_eq!(
        tokens,
        vec![
            token(TokenType::Data, 0),
            token(TokenType::Constant(Constant::Integer(42)), 1),
            token(TokenType::Constant(Constant::String { start: 25, end: 27 }), 2),
            token(TokenType::Code, 3),
            token(TokenType::Instruction { start: 35, end: 43 }, 4),
            token(TokenType::Number(0), 4),
            token(TokenType::Instruction { start: 46, end: 52 }, 4),
        ]
    );
    assert_eq!(&PROGRAM[25..27], "hi");
    assert_eq!(&PROGRAM[35..43], "CONSTANT");
}

#[test]
fn lexer_reads_every_kind_of_constant() {
    let source = ".data\nnil x\nBool true\nfloat 1.5\nFunction 3 2\narray 4\nobject 2\n";
    let tokens = lexer(source).unwrap();
    let kinds: Vec<TokenType> = tokens.iter().map(|t| t.token_type).collect();
    assert_eq!(
        kinds,
        vec![
            TokenType::Data,
            TokenType::Constant(Constant::Nil),
            TokenType::Instruction { start: 10, end: 11 },
            TokenType::Constant(Constant::Bool(true)),
            TokenType::Constant(Constant::Float { start: 28, end: 31 }),
            TokenType::Constant(Constant::Function { ip: 3, arity: 2 }),
            TokenType::Constant(Constant::Array { capacity: 4 }),
            TokenType::Constant(Constant::Object { capacity: 2 }),
        ]
    );
    assert_eq!(&source[28..31], "1.5");
}

#[test]
fn lexer_stops_on_malformed_sources() {
    assert_eq!(lexer(".text\n"), None);
    assert_eq!(lexer("RETURN"), None);
    assert_eq!(lexer("integer x\n"), None);
    assert_eq!(lexer("bool yes\n"), None);
    assert_eq!(lexer("string hi\n"), None);
    assert_eq!(lexer("string \"open\n"), None);
    assert_eq!(lexer("function 1\n"), None);
    assert_eq!(lexer("array -1\n"), None);
    assert_eq!(lexer(""), Some(vec![]));
    assert_eq!(lexer(" \n\t"), Some(vec![]));
}

#[test]
fn parse_constants_builds_memory_and_table() {
    let tokens = lexer(PROGRAM).unwrap();
    let bits = vec![0u32; tokens.len()];
    let (memory, constants, next) =
        parse_constants(&tokens, 0, PROGRAM.as_bytes(), b"stdin", &bits);
    assert_eq!(memory, b"histdin".to_vec());
    let mut expected = vec![1u8];
    expected.extend(le(42));
    expected.push(4);
    expected.extend(le(0));
    expected.push(4);
    expected.extend(le(2));
    assert_eq!(constants, expected);
    assert_eq!(next, 3);
}

#[test]
fn parse_constants_reserves_arrays_and_objects() {
    let source = ".data\narray 2\nobject 1\nfloat 2.0\nfunction 7 1\nbool false\n";
    let tokens = lexer(source).unwrap();
    let mut bits = vec![0u32; tokens.len()];
    bits[3] = 2.0f32.to_bits();
    let (memory, constants, next) = parse_constants(&tokens, 0, source.as_bytes(), b"f", &bits);
    assert_eq!(next, tokens.len());
    let mut expected_memory = vec![0u8; 80];
    expected_memory.extend(le(1));
    expected_memory.extend(vec![0u8; 48]);
    expected_memory.push(b'f');
    assert_eq!(memory, expected_memory);
    let mut expected = vec![6u8];
    expected.extend(le(80));
    expected.push(7);
    expected.extend(le(48));
    expected.push(2);
    expected.extend(2.0f32.to_bits().to_le_bytes());
    expected.push(5);
    expected.extend(le(7));
    expected.extend(le(1));
    expected.push(0);
    expected.push(3);
    expected.push(0);
    expected.push(4);
    expected.extend(le(0));
    assert_eq!(constants, expected);
}

#[test]
fn parse_constants_without_data_section_only_names_the_file() {
    let tokens = lexer(".code\nRETURN\n").unwrap();
    let bits = vec![0u32; tokens.len()];
    let (memory, constants, next) = parse_constants(&tokens, 0, b".code\nRETURN\n", b"in", &bits);
    assert_eq!(memory, b"in".to_vec());
    let mut expected = vec![4u8];
    expected.extend(le(0));
    assert_eq!(constants, expected);
    assert_eq!(next, 0);
}

#[test]
fn parse_instructions_encodes_opcodes_operands_and_lines() {
    let tokens = lexer(PROGRAM).unwrap();
    let (upcodes, locations) = parse_instructions(&tokens, 3, PROGRAM.as_bytes()).unwrap();
    let mut expected = vec![1u8];
    expected.extend(le(0));
    expected.extend(le(0));
    expected.push(0);
    expected.extend(le(0));
    assert_eq!(upcodes, expected);
    assert_eq!(locations, vec![4]);
}

#[test]
fn parse_instructions_records_each_new_line() {
    let source = ".code\nPLUS \nTRUE \nTRUE \nNOOP \n";
    let tokens = lexer(source).unwrap();
    let (upcodes, locations) = parse_instructions(&tokens, 0, source.as_bytes()).unwrap();
    assert_eq!(locations, vec![1, 2, 3, 4]);
    let mut expected = vec![2u8];
    expected.extend(le(0));
    expected.push(7);
    expected.extend(le(1));
    expected.push(7);
    expected.extend(le(2));
    expected.push(255);
    expected.extend(le(3));
    assert_eq!(upcodes, expected);
}

#[test]
fn parse_instructions_rejects_unknown_tokens() {
    let source = ".code\nFLY \n";
    let tokens = lexer(source).unwrap();
    assert_eq!(parse_instructions(&tokens, 0, source.as_bytes()), None);
    let source = ".code\nreturn \n";
    let tokens = lexer(source).unwrap();
    assert_eq!(parse_instructions(&tokens, 0, source.as_bytes()), None);
    let source = ".code\n.data\n";
    let tokens = lexer(source).unwrap();
    assert_eq!(parse_instructions(&tokens, 0, source.as_bytes()), None);
    let source = ".code\nNIL \n";
    let tokens = lexer(source).unwrap();
    assert_eq!(tokens[1].token_type, TokenType::Constant(Constant::Nil));
    assert_eq!(parse_instructions(&tokens, 0, source.as_bytes()), None);
}

#[test]
fn parse_instructions_without_code_section_is_empty() {
    let source = "RETURN \n";
    let tokens = lexer(source).unwrap();
    assert_eq!(parse_instructions(&tokens, 0, source.as_bytes()), Some((vec![], vec![])));
}

#[test]
fn write_program_lays_out_the_sections() {
    let program = write_program(&[9, 8], &[1], &[5, 6], &[0]);
    let mut expected = le(1);
    expected.extend(le(2));
    expected.extend(le(2));
    expected.push(1);
    expected.extend([9, 8]);
    expected.extend(le(0));
    expected.extend(le(5));
    expected.extend(le(0));
    expected.extend(le(6));
    expected.push(0);
    assert_eq!(program, expected);
}

#[test]
fn assemble_produces_the_whole_program() {
    let tokens = lexer(PROGRAM).unwrap();
    assert!(can_assemble(&tokens, PROGRAM.len()));
    let bits = vec![0u32; tokens.len()];
    let program = assemble(&tokens, PROGRAM.as_bytes(), b"stdin", &bits).unwrap();
    let mut expected = le(27);
    expected.extend(le(7));
    expected.extend(le(1));
    expected.push(1);
    expected.extend(le(42));
    expected.push(4);
    expected.extend(le(0));
    expected.push(4);
    expected.extend(le(2));
    expected.extend(b"histdin");
    expected.extend(le(0));
    expected.extend(le(4));
    expected.push(1);
    expected.extend(le(0));
    expected.extend(le(0));
    expected.push(0);
    expected.extend(le(0));
    assert_eq!(program, expected);
}

#[test]
fn can_assemble_rejects_overflowing_capacities_and_stray_strings() {
    let huge = vec![token(TokenType::Constant(Constant::Array { capacity: usize::MAX / 2 }), 0)];
    assert!(!can_assemble(&huge, 0));
    let stray = vec![token(TokenType::Constant(Constant::String { start: 2, end: 9 }), 0)];
    assert!(!can_assemble(&stray, 4));
    assert!(can_assemble(&stray, 9));
}

fn single_constant(source: &str) -> Option<TokenType> {
    lexer(source).map(|tokens| tokens[0].token_type)
}

#[test]
fn lexer_reads_numbers_as_the_standard_parsers_do() {
    assert_eq!(
        single_constant("integer -9223372036854775808\n"),
        Some(TokenType::Constant(Constant::Integer(i64::MIN)))
    );
    assert_eq!(single_constant("integer +7\n"), Some(TokenType::Constant(Constant::Integer(7))));
    assert_eq!(single_constant("integer -0\n"), Some(TokenType::Constant(Constant::Integer(0))));
    assert_eq!(single_constant("integer 9223372036854775808\n"), None);
    assert_eq!(single_constant("integer 1_000\n"), None);
    assert_eq!(single_constant("integer -\n"), None);
    assert_eq!(single_constant("array +3\n"), Some(TokenType::Constant(Constant::Array { capacity: 3 })));
    assert_eq!(single_constant("array 007\n"), Some(TokenType::Constant(Constant::Array { capacity: 7 })));
    assert_eq!(single_constant("array -0\n"), None);
    assert_eq!(single_constant("array +\n"), None);
    assert_eq!(
        single_constant("object 18446744073709551615\n"),
        Some(TokenType::Constant(Constant::Object { capacity: usize::MAX }))
    );
    assert_eq!(single_constant("object 18446744073709551616\n"), None);
    assert_eq!(single_constant("+5 \n"), Some(TokenType::Number(5)));
}

#[test]
fn lexer_stops_where_a_slice_would_cut_a_char() {
    assert_eq!(lexer("\u{e9} x\n"), None);
    assert_eq!(lexer("\u{e9}\u{e9} x\n"), None);
}

#[test]
fn whitespace_is_what_the_standard_library_calls_whitespace() {
    for c in (0u32..=0x10FFFF).filter_map(char::from_u32) {
        assert_eq!(is_whitespace(c), c.is_whitespace(), "{:?}", c);
    }
}
