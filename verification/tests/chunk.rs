use simpl::bytearray::ByteArray;
use simpl::bytearray::Decoded;
use simpl::bytearray::JumpTooFar;
use simpl::bytearray::Operand;
use simpl::opcode::OpCode;
use simpl::opcode::op_byte;
use simpl::value::Value;

#[test]
fn write_byte_pairs_code_and_lines() {
    let mut c = ByteArray::new();
    c.write_byte(7, 1);
    c.write_byte(9, 1);
    c.write_byte(42, 5);
    c.write_byte(0, 123);
    assert_eq!(c.code_len(), 4);
    assert_eq!(c.byte_at(0), 7);
    assert_eq!(c.line_at(0), 1);
    assert_eq!(c.byte_at(1), 9);
    assert_eq!(c.line_at(1), 1);
    assert_eq!(c.byte_at(2), 42);
    assert_eq!(c.line_at(2), 5);
    assert_eq!(c.byte_at(3), 0);
    assert_eq!(c.line_at(3), 123);
}

#[test]
fn add_constant_returns_successive_indices() {
    let mut c = ByteArray::new();
    assert_eq!(c.add_constant(Value::Num(10)), 0);
    assert_eq!(c.add_constant(Value::Str("hi".to_string())), 1);
    assert_eq!(c.add_constant(Value::Bool(true)), 2);
    assert_eq!(c.add_constant(Value::Nil), 3);
    assert_eq!(c.constants_len(), 4);
    assert!(matches!(c.constant_at(0), Value::Num(10)));
    match c.constant_at(1) {
        Value::Str(s) => assert_eq!(s, "hi"),
        _ => panic!("expected a string constant"),
    }
    assert!(matches!(c.constant_at(2), Value::Bool(true)));
    assert!(matches!(c.constant_at(3), Value::Nil));
    // Adding constants leaves the code untouched.
    assert_eq!(c.code_len(), 0);
}

#[test]
fn patch_jump_writes_big_endian_distance() {
    let mut c = ByteArray::new();
    c.write_byte(op_byte(OpCode::Jump), 1);
    let operand_at = c.code_len();
    c.write_byte(0xFF, 1);
    c.write_byte(0xFF, 1);
    for _ in 0..0x0102 {
        c.write_byte(op_byte(OpCode::Nil), 2);
    }
    let target = c.code_len();
    assert_eq!(c.patch_jump(operand_at, target), Ok(()));
    // distance = target - (operand_at + 2) = 0x0102, big endian.
    assert_eq!(c.byte_at(operand_at), 0x01);
    assert_eq!(c.byte_at(operand_at + 1), 0x02);
    // Nothing else moved.
    assert_eq!(c.code_len(), target);
    assert_eq!(c.byte_at(0), op_byte(OpCode::Jump));
    assert_eq!(c.byte_at(3), op_byte(OpCode::Nil));
}

#[test]
fn patch_jump_rejects_distance_over_16_bits() {
    let mut c = ByteArray::new();
    c.write_byte(op_byte(OpCode::Jump), 1);
    let operand_at = c.code_len();
    c.write_byte(0xAB, 1);
    c.write_byte(0xCD, 1);
    for _ in 0..0x10000 {
        c.write_byte(op_byte(OpCode::Nil), 2);
    }
    let target = c.code_len();
    assert_eq!(c.patch_jump(operand_at, target), Err(JumpTooFar));
    // The chunk is left exactly as it was.
    assert_eq!(c.byte_at(operand_at), 0xAB);
    assert_eq!(c.byte_at(operand_at + 1), 0xCD);
    // The largest distance that fits is accepted.
    assert_eq!(c.patch_jump(operand_at, operand_at + 2 + 0xFFFF), Ok(()));
    assert_eq!(c.byte_at(operand_at), 0xFF);
    assert_eq!(c.byte_at(operand_at + 1), 0xFF);
}

#[test]
fn disassemble_reports_opcode_operand_and_line() {
    let mut c = ByteArray::new();
    c.write_byte(op_byte(OpCode::Constant), 3);
    c.write_byte(5, 3);
    c.write_byte(op_byte(OpCode::Add), 4);
    c.write_byte(op_byte(OpCode::Jump), 7);
    c.write_byte(0x01, 7);
    c.write_byte(0x02, 7);
    let d0 = c.disassemble_at(0).unwrap();
    assert_eq!(
        d0,
        Decoded { op: OpCode::Constant, arg: Operand::Byte(5), line: 3, width: 2 }
    );
    let d2 = c.disassemble_at(2).unwrap();
    assert_eq!(
        d2,
        Decoded { op: OpCode::Add, arg: Operand::NoOperand, line: 4, width: 1 }
    );
    let d3 = c.disassemble_at(3).unwrap();
    assert_eq!(
        d3,
        Decoded { op: OpCode::Jump, arg: Operand::Wide(0x0102), line: 7, width: 3 }
    );
}

#[test]
fn disassemble_twice_gives_the_same_answer() {
    let mut c = ByteArray::new();
    c.write_byte(op_byte(OpCode::Constant), 11);
    c.write_byte(9, 11);
    c.write_byte(op_byte(OpCode::Return), 12);
    for off in 0..c.code_len() {
        let first = c.disassemble_at(off);
        let second = c.disassemble_at(off);
        assert_eq!(first, second);
    }
}

#[test]
fn disassemble_rejects_bad_offsets() {
    let mut c = ByteArray::new();
    // An unknown opcode byte.
    c.write_byte(200, 1);
    assert_eq!(c.disassemble_at(0), None);
    // Out of range.
    assert_eq!(c.disassemble_at(1), None);
    // A truncated two-byte operand.
    let mut t = ByteArray::new();
    t.write_byte(op_byte(OpCode::Loop), 1);
    t.write_byte(0, 1);
    assert_eq!(t.disassemble_at(0), None);
}
