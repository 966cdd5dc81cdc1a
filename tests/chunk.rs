use sagitario::chunk::{
    disassemble_chunk, disassemble_instruction, grow_capacity, Chunk, Instruction, OpCode, Operation,
    ValueArray,
};

#[test]
fn capacity_grows_to_eight_then_doubles() {
    assert_eq!(grow_capacity(0), 8);
    assert_eq!(grow_capacity(7), 8);
    assert_eq!(grow_capacity(8), 16);
    assert_eq!(grow_capacity(100), 200);
}

#[test]
fn opcodes_encode_as_bytes() {
    assert_eq!(u8::from(OpCode::CONSTANT), 0);
    assert_eq!(u8::from(OpCode::RETURN), 1);
    assert_eq!(OpCode::RETURN.byte(), 1);
}

#[test]
fn writing_grows_capacity() {
    let mut chunk = Chunk::new();
    for i in 0..9u8 {
        chunk.write_chunk(i, 100 + i);
    }
    assert_eq!(chunk.count, 9);
    assert_eq!(chunk.capacity, 16);
    assert_eq!(chunk.code, (0..9).collect::<Vec<u8>>());
    assert_eq!(chunk.lines[8], 108);
    chunk.free_chunk();
    assert_eq!(chunk.count, 0);
    assert_eq!(chunk.capacity, 0);
    assert!(chunk.code.is_empty());
}

#[test]
fn constants_are_indexed_in_order() {
    let mut chunk = Chunk::new();
    assert_eq!(chunk.add_constants(1.2f64.to_bits()), 0);
    assert_eq!(chunk.add_constants(2.5f64.to_bits()), 1);
    assert_eq!(chunk.constants.count, 2);
    assert_eq!(chunk.constants.capacity, 8);
    assert_eq!(f64::from_bits(chunk.constants.values[1]), 2.5);
    let mut values = ValueArray::new();
    values.write_value_array(7);
    values.free_value_array();
    assert_eq!(values.count, 0);
}

#[test]
fn disassembles_constant_and_return() {
    let mut chunk = Chunk::new();
    let constant = chunk.add_constants(1.2f64.to_bits()) as u8;
    chunk.write_chunk(OpCode::CONSTANT.into(), 123);
    chunk.write_chunk(constant, 123);
    chunk.write_chunk(OpCode::RETURN.into(), 123);
    chunk.write_chunk(9, 124);
    let listing = disassemble_chunk(&chunk);
    assert_eq!(
        listing,
        vec![
            Instruction {
                offset: 0,
                line: 123,
                same_line: false,
                operation: Operation::Constant { index: 0, value: Some(1.2f64.to_bits()) },
                next: 2,
            },
            Instruction { offset: 2, line: 123, same_line: true, operation: Operation::Return, next: 3 },
            Instruction { offset: 3, line: 124, same_line: false, operation: Operation::Unknown(9), next: 4 },
        ]
    );
}

#[test]
fn truncated_constant_and_missing_value() {
    let mut chunk = Chunk::new();
    chunk.write_chunk(OpCode::CONSTANT.into(), 1);
    chunk.write_chunk(5, 1);
    chunk.write_chunk(OpCode::CONSTANT.into(), 2);
    let first = disassemble_instruction(&chunk, 0);
    assert_eq!(first.operation, Operation::Constant { index: 5, value: None });
    let last = disassemble_instruction(&chunk, 2);
    assert_eq!(last.operation, Operation::Truncated);
    assert_eq!(last.next, 3);
    assert!(disassemble_chunk(&Chunk::new()).is_empty());
}
