use emulators::smoked::memory::{Memory, MemoryError};

#[test]
fn it_should_copy_a_u8_aray() {
    let data = &[1u8, 1, 1, 1, 1, 1, 1, 1];
    let mut memory = Memory::new(12);
    memory.copy_u8_vector(data, 1);
    assert_eq!(memory.0[0], 0);
    assert_eq!(&memory.0[1..9], &[1u8, 1, 1, 1, 1, 1, 1, 1]);
    assert_eq!(memory.0[10], 0);
}

#[test]
fn it_should_be_able_to_store_a_string() {
    let s = String::from("42");
    let mut memory = Memory::new(10);
    memory.copy_string(&s, 0);
    let result = memory.get_string(0, s.as_bytes().len()).unwrap();
    assert_eq!(result, &s);
}

#[test]
fn reading_past_the_end_is_refused() {
    let memory = Memory::new(4);
    assert_eq!(memory.get_u8_vector(2, 3), Err(MemoryError::WrongMemoryAddress { address: 2 }));
    assert_eq!(memory.get_u8_vector(2, 2), Ok(&[0u8, 0][..]));
    assert_eq!(memory.get_string(5, 0), Err(MemoryError::WrongMemoryAddress { address: 5 }));
}

#[test]
fn strings_keep_their_utf8_bytes() {
    let mut memory = Memory::new(8);
    memory.copy_string("né", 3);
    assert_eq!(memory.get_string(3, 3), Ok("né"));
    assert_eq!(memory.0.len(), 8);
}
