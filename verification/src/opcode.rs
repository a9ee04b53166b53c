//! The closed set of instruction opcodes, their byte encoding and their
//! operand widths.

use vstd::prelude::*;

verus! {

/// One instruction opcode. The byte encoding is given by [`opcode_value`]
/// and inverted by [`opcode_from_byte`]; an instruction is the opcode byte
/// followed by `operand_width` operand bytes.
#[derive(Clone, Copy, Debug, PartialEq, Eq, Structural)]
pub enum OpCode {
    Constant,
    Nil,
    True,
    False,
    Pop,
    DefineGlobal,
    GetLocal,
    SetLocal,
    GetGlobal,
    SetGlobal,
    Equal,
    Greater,
    Less,
    Add,
    Subtract,
    Multiply,
    Divide,
    Not,
    Negate,
    Return,
    Print,
    Jump,
    JumpIfFalse,
    Loop,
}

/// The encoding of each opcode as a byte of the instruction stream.
pub open spec fn opcode_value(op: OpCode) -> u8 {
    match op {
        OpCode::Constant => 0,
        OpCode::Nil => 1,
        OpCode::True => 2,
        OpCode::False => 3,
        OpCode::Pop => 4,
        OpCode::DefineGlobal => 5,
        OpCode::GetLocal => 6,
        OpCode::SetLocal => 7,
        OpCode::GetGlobal => 8,
        OpCode::SetGlobal => 9,
        OpCode::Equal => 10,
        OpCode::Greater => 11,
        OpCode::Less => 12,
        OpCode::Add => 13,
        OpCode::Subtract => 14,
        OpCode::Multiply => 15,
        OpCode::Divide => 16,
        OpCode::Not => 17,
        OpCode::Negate => 18,
        OpCode::Return => 19,
        OpCode::Print => 20,
        OpCode::Jump => 21,
        OpCode::JumpIfFalse => 22,
        OpCode::Loop => 23,
    }
}

/// The opcode encoded by a byte, or nothing for a byte outside the opcode
/// set.
pub open spec fn opcode_from_byte(b: u8) -> Option<OpCode> {
    if b == 0 {
        Some(OpCode::Constant)
    } else if b == 1 {
        Some(OpCode::Nil)
    } else if b == 2 {
        Some(OpCode::True)
    } else if b == 3 {
        Some(OpCode::False)
    } else if b == 4 {
        Some(OpCode::Pop)
    } else if b == 5 {
        Some(OpCode::DefineGlobal)
    } else if b == 6 {
        Some(OpCode::GetLocal)
    } else if b == 7 {
        Some(OpCode::SetLocal)
    } else if b == 8 {
        Some(OpCode::GetGlobal)
    } else if b == 9 {
        Some(OpCode::SetGlobal)
    } else if b == 10 {
        Some(OpCode::Equal)
    } else if b == 11 {
        Some(OpCode::Greater)
    } else if b == 12 {
        Some(OpCode::Less)
    } else if b == 13 {
        Some(OpCode::Add)
    } else if b == 14 {
        Some(OpCode::Subtract)
    } else if b == 15 {
        Some(OpCode::Multiply)
    } else if b == 16 {
        Some(OpCode::Divide)
    } else if b == 17 {
        Some(OpCode::Not)
    } else if b == 18 {
        Some(OpCode::Negate)
    } else if b == 19 {
        Some(OpCode::Return)
    } else if b == 20 {
        Some(OpCode::Print)
    } else if b == 21 {
        Some(OpCode::Jump)
    } else if b == 22 {
        Some(OpCode::JumpIfFalse)
    } else if b == 23 {
        Some(OpCode::Loop)
    } else {
        None
    }
}

/// How many operand bytes follow the opcode byte.
pub open spec fn operand_width(op: OpCode) -> nat {
    match op {
        OpCode::Constant => 1,
        OpCode::DefineGlobal => 1,
        OpCode::GetLocal => 1,
        OpCode::SetLocal => 1,
        OpCode::GetGlobal => 1,
        OpCode::SetGlobal => 1,
        OpCode::Jump => 2,
        OpCode::JumpIfFalse => 2,
        OpCode::Loop => 2,
        _ => 0,
    }
}

/// The byte that encodes `op` in the instruction stream.
pub fn op_byte(op: OpCode) -> (r: u8)
    ensures
        r == opcode_value(op),
{
    match op {
        OpCode::Constant => 0,
        OpCode::Nil => 1,
        OpCode::True => 2,
        OpCode::False => 3,
        OpCode::Pop => 4,
        OpCode::DefineGlobal => 5,
        OpCode::GetLocal => 6,
        OpCode::SetLocal => 7,
        OpCode::GetGlobal => 8,
        OpCode::SetGlobal => 9,
        OpCode::Equal => 10,
        OpCode::Greater => 11,
        OpCode::Less => 12,
        OpCode::Add => 13,
        OpCode::Subtract => 14,
        OpCode::Multiply => 15,
        OpCode::Divide => 16,
        OpCode::Not => 17,
        OpCode::Negate => 18,
        OpCode::Return => 19,
        OpCode::Print => 20,
        OpCode::Jump => 21,
        OpCode::JumpIfFalse => 22,
        OpCode::Loop => 23,
    }
}

/// Decodes one opcode byte.
pub fn decode_op(b: u8) -> (r: Option<OpCode>)
    ensures
        r == opcode_from_byte(b),
{
    if b == 0 {
        Some(OpCode::Constant)
    } else if b == 1 {
        Some(OpCode::Nil)
    } else if b == 2 {
        Some(OpCode::True)
    } else if b == 3 {
        Some(OpCode::False)
    } else if b == 4 {
        Some(OpCode::Pop)
    } else if b == 5 {
        Some(OpCode::DefineGlobal)
    } else if b == 6 {
        Some(OpCode::GetLocal)
    } else if b == 7 {
        Some(OpCode::SetLocal)
    } else if b == 8 {
        Some(OpCode::GetGlobal)
    } else if b == 9 {
        Some(OpCode::SetGlobal)
    } else if b == 10 {
        Some(OpCode::Equal)
    } else if b == 11 {
        Some(OpCode::Greater)
    } else if b == 12 {
        Some(OpCode::Less)
    } else if b == 13 {
        Some(OpCode::Add)
    } else if b == 14 {
        Some(OpCode::Subtract)
    } else if b == 15 {
        Some(OpCode::Multiply)
    } else if b == 16 {
        Some(OpCode::Divide)
    } else if b == 17 {
        Some(OpCode::Not)
    } else if b == 18 {
        Some(OpCode::Negate)
    } else if b == 19 {
        Some(OpCode::Return)
    } else if b == 20 {
        Some(OpCode::Print)
    } else if b == 21 {
        Some(OpCode::Jump)
    } else if b == 22 {
        Some(OpCode::JumpIfFalse)
    } else if b == 23 {
        Some(OpCode::Loop)
    } else {
        None
    }
}

/// How many operand bytes follow the opcode byte of `op`.
pub fn op_operand_width(op: OpCode) -> (r: usize)
    ensures
        r == operand_width(op),
{
    match op {
        OpCode::Constant => 1,
        OpCode::DefineGlobal => 1,
        OpCode::GetLocal => 1,
        OpCode::SetLocal => 1,
        OpCode::GetGlobal => 1,
        OpCode::SetGlobal => 1,
        OpCode::Jump => 2,
        OpCode::JumpIfFalse => 2,
        OpCode::Loop => 2,
        _ => 0,
    }
}

/// Law: the byte encoding of opcodes is injective — decoding the byte that
/// encodes an opcode gives that opcode back.
pub proof fn lemma_opcode_byte_roundtrip(op: OpCode)
    ensures
        opcode_from_byte(opcode_value(op)) == Some(op),
{
}

} // verus!
