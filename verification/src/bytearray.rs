//! The instruction chunk: an append-only byte buffer of encoded
//! instructions, a parallel per-byte source-line table, and the constant
//! pool the instructions reference by index.

use vstd::prelude::*;
use crate::opcode::OpCode;
use crate::opcode::opcode_from_byte;
use crate::opcode::operand_width;
use crate::opcode::decode_op;
use crate::opcode::op_operand_width;
use crate::value::SpecValue;
use crate::value::Value;

verus! {

/// Mathematical model of a chunk: the instruction bytes, the source line of
/// each byte, and the constant pool.
pub ghost struct ChunkView {
    pub code: Seq<u8>,
    pub lines: Seq<u32>,
    pub constants: Seq<SpecValue>,
}

/// The instruction chunk. `bytes` is the encoded instruction stream;
/// `lines` holds, byte for byte, the source line each instruction byte came
/// from; `constants` is the append-only pool of literal values.
pub struct ByteArray {
    bytes: Vec<u8>,
    lines: Vec<u32>,
    constants: Vec<Value>,
}

/// Error returned by `patch_jump` when the patched distance does not fit in
/// the 16-bit jump operand.
#[derive(Clone, Copy, Debug, PartialEq, Eq, Structural)]
pub struct JumpTooFar;

/// One decoded instruction operand.
#[derive(Clone, Copy, Debug, PartialEq, Eq, Structural)]
pub enum Operand {
    /// The opcode takes no operand.
    NoOperand,
    /// A one-byte operand: a constant-pool index or a stack slot.
    Byte(u8),
    /// A two-byte big-endian operand: a jump distance.
    Wide(u16),
}

/// One instruction decoded from the chunk for diagnostics: its opcode, its
/// operand, the source line its opcode byte came from, and its total width
/// in bytes (opcode byte included).
#[derive(Clone, Copy, Debug, PartialEq, Eq, Structural)]
pub struct Decoded {
    pub op: OpCode,
    pub arg: Operand,
    pub line: u32,
    pub width: usize,
}

impl View for ByteArray {
    type V = ChunkView;

    closed spec fn view(&self) -> ChunkView {
        ChunkView {
            code: self.bytes@,
            lines: self.lines@,
            constants: self.constants@.map_values(|v: Value| v@),
        }
    }
}

/// The instruction decoded at byte offset `off` of a chunk, or nothing if
/// `off` is out of range, the byte there is no opcode, or the operand bytes
/// are truncated. A pure function of the chunk and the offset.
pub open spec fn spec_decode(c: ChunkView, off: int) -> Option<Decoded> {
    if !(0 <= off < c.code.len() && c.code.len() == c.lines.len()) {
        None
    } else {
        match opcode_from_byte(c.code[off]) {
            Option::None => None,
            Option::Some(op) => {
                let w = operand_width(op);
                if off + 1 + w > c.code.len() {
                    None
                } else if w == 0 {
                    Some(
                        Decoded {
                            op,
                            arg: Operand::NoOperand,
                            line: c.lines[off],
                            width: 1,
                        },
                    )
                } else if w == 1 {
                    Some(
                        Decoded {
                            op,
                            arg: Operand::Byte(c.code[off + 1]),
                            line: c.lines[off],
                            width: 2,
                        },
                    )
                } else {
                    Some(
                        Decoded {
                            op,
                            arg: Operand::Wide(
                                ((c.code[off + 1] as int) * 256 + (c.code[off + 2] as int)) as u16,
                            ),
                            line: c.lines[off],
                            width: 3,
                        },
                    )
                }
            },
        }
    }
}

impl ByteArray {
    /// Well-formedness: the line table runs parallel to the code, one entry
    /// per instruction byte. Every constructor establishes it and every
    /// method preserves it.
    pub open spec fn wf(&self) -> bool {
        self@.lines.len() == self@.code.len()
    }

    /// An empty chunk.
    pub fn new() -> (r: ByteArray)
        ensures
            r.wf(),
            r@.code == Seq::<u8>::empty(),
            r@.lines == Seq::<u32>::empty(),
            r@.constants == Seq::<SpecValue>::empty(),
    {
        let r = ByteArray { bytes: Vec::new(), lines: Vec::new(), constants: Vec::new() };
        proof {
            assert(r@.constants =~= Seq::<SpecValue>::empty());
        }
        r
    }

    /// Appends one instruction byte together with the source line it came
    /// from. This is the only way code enters a chunk, so the line table
    /// stays parallel to the code: `lines[i]` is the line passed with the
    /// call that produced `code[i]`.
    pub fn write_byte(&mut self, byte: u8, line: u32)
        requires
            old(self).wf(),
        ensures
            final(self).wf(),
            final(self)@.code == old(self)@.code.push(byte),
            final(self)@.lines == old(self)@.lines.push(line),
            final(self)@.constants == old(self)@.constants,
    {
        self.bytes.push(byte);
        self.lines.push(line);
    }

    /// Appends a value to the constant pool and returns its index, which is
    /// stable from then on: the pool is append-only, never reordered. It is
    /// independent of `write_byte`, so a compiler can intern a constant
    /// before emitting the instruction that references it.
    ///
    /// The pool itself is not capped; only the first 256 entries can be
    /// referenced by the one-byte operand of `OP_CONSTANT`, which is the
    /// emitting compiler's concern.
    pub fn add_constant(&mut self, value: Value) -> (idx: usize)
        requires
            old(self).wf(),
        ensures
            final(self).wf(),
            idx == old(self)@.constants.len(),
            final(self)@.constants == old(self)@.constants.push(value@),
            final(self)@.code == old(self)@.code,
            final(self)@.lines == old(self)@.lines,
    {
        let idx = self.constants.len();
        self.constants.push(value);
        proof {
            assert(self@.constants =~= old(self)@.constants.push(value@));
        }
        idx
    }

    /// The number of instruction bytes written so far — the offset the next
    /// `write_byte` will fill, which a compiler records to patch jumps.
    pub fn code_len(&self) -> (r: usize)
        ensures
            r == self@.code.len(),
    {
        self.bytes.len()
    }

    /// The instruction byte at offset `i`.
    pub fn byte_at(&self, i: usize) -> (r: u8)
        requires
            i < self@.code.len(),
        ensures
            r == self@.code[i as int],
    {
        self.bytes[i]
    }

    /// The source line the instruction byte at offset `i` came from.
    pub fn line_at(&self, i: usize) -> (r: u32)
        requires
            i < self@.lines.len(),
        ensures
            r == self@.lines[i as int],
    {
        self.lines[i]
    }

    /// The number of constants in the pool.
    pub fn constants_len(&self) -> (r: usize)
        ensures
            r == self@.constants.len(),
    {
        self.constants.len()
    }

    /// The constant at index `i` of the pool.
    pub fn constant_at(&self, i: usize) -> (r: &Value)
        requires
            i < self@.constants.len(),
        ensures
            r@ == self@.constants[i as int],
    {
        &self.constants[i]
    }

    /// Overwrites the two operand bytes at `offset` and `offset + 1` with
    /// the big-endian 16-bit distance from the instruction after the jump
    /// (at `offset + 2`) to `target`. Used to back-patch a forward jump
    /// emitted with a placeholder operand before its destination was known.
    ///
    /// Fails, leaving the chunk exactly as it was, if and only if the
    /// distance exceeds the 16-bit operand width.
    pub fn patch_jump(&mut self, offset: usize, target: usize) -> (r: Result<(), JumpTooFar>)
        requires
            old(self).wf(),
            offset + 2 <= old(self)@.code.len(),
            offset + 2 <= target,
            target <= old(self)@.code.len(),
        ensures
            final(self).wf(),
            final(self)@.lines == old(self)@.lines,
            final(self)@.constants == old(self)@.constants,
            target - (offset + 2) > 0xFFFF ==> r == Result::<(), JumpTooFar>::Err(JumpTooFar)
                && final(self)@.code == old(self)@.code,
            target - (offset + 2) <= 0xFFFF ==> r == Result::<(), JumpTooFar>::Ok(())
                && final(self)@.code == old(self)@.code.update(
                offset as int,
                (((target - (offset + 2)) / 256) as u8),
            ).update(offset as int + 1, (((target - (offset + 2)) % 256) as u8)),
    {
        let dist = target - (offset + 2);
        if dist > 0xFFFF {
            Err(JumpTooFar)
        } else {
            self.bytes[offset] = (dist / 256) as u8;
            self.bytes[offset + 1] = (dist % 256) as u8;
            Ok(())
        }
    }

    /// Decodes the instruction whose opcode byte sits at `offset`: its
    /// opcode, its operand, its total byte width and the paired source
    /// line. Returns nothing for an offset that holds no well-formed
    /// instruction. The result is a pure function of the chunk and the
    /// offset, so decoding the same offset twice gives the same answer.
    pub fn disassemble_at(&self, offset: usize) -> (r: Option<Decoded>)
        requires
            self.wf(),
        ensures
            r == spec_decode(self@, offset as int),
    {
        if offset >= self.bytes.len() {
            return None;
        }
        let b = self.bytes[offset];
        match decode_op(b) {
            Option::None => None,
            Option::Some(op) => {
                let w = op_operand_width(op);
                if self.bytes.len() - offset - 1 < w {
                    None
                } else if w == 0 {
                    Some(
                        Decoded { op, arg: Operand::NoOperand, line: self.lines[offset], width: 1 },
                    )
                } else if w == 1 {
                    Some(
                        Decoded {
                            op,
                            arg: Operand::Byte(self.bytes[offset + 1]),
                            line: self.lines[offset],
                            width: 2,
                        },
                    )
                } else {
                    let hi = self.bytes[offset + 1];
                    let lo = self.bytes[offset + 2];
                    Some(
                        Decoded {
                            op,
                            arg: Operand::Wide((hi as u16) * 256 + (lo as u16)),
                            line: self.lines[offset],
                            width: 3,
                        },
                    )
                }
            },
        }
    }
}

/// Law: disassembly is idempotent. Decoding a byte offset is a pure
/// function of the chunk and the offset, so two decodings of the same
/// offset of the same chunk yield the same opcode, operand and line.
pub proof fn lemma_disassembly_idempotent(
    c: ChunkView,
    off: int,
    first: Option<Decoded>,
    second: Option<Decoded>,
)
    requires
        first == spec_decode(c, off),
        second == spec_decode(c, off),
    ensures
        first == second,
{
}

} // verus!
