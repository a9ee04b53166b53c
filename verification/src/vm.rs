//! The virtual machine: a stack-based interpreter that fetches, decodes
//! and executes the instruction stream of a chunk.
//!
//! The execution semantics is given once, as the pure step function
//! [`spec_step`]; iterating it is [`spec_run_from`]. The executable
//! machine is proved to follow that semantics step by step, and
//! [`Vm::run`] returns exactly what iterating [`spec_step`] from the
//! fresh start state with the caller's instruction budget yields.
//!
//! Stack conventions an emitting compiler must match: `OP_JUMP_IF_FALSE`
//! pops the condition whether or not it jumps; `OP_SET_GLOBAL` and
//! `OP_SET_LOCAL` leave the assigned value on the stack (an assignment is
//! an expression), so a statement-level assignment is followed by
//! `OP_POP`.

use vstd::prelude::*;
use vstd::hash_map::StringHashMap;
use crate::bytearray::ByteArray;
use crate::bytearray::ChunkView;
use crate::opcode::OpCode;
use crate::opcode::opcode_from_byte;
use crate::opcode::opcode_value;
use crate::opcode::operand_width;
use crate::opcode::decode_op;
use crate::opcode::op_operand_width;
use crate::value::SpecValue;
use crate::value::Value;
use crate::value::truthy;
use crate::value::vals_equal;

verus! {

/// What went wrong at run time.
#[derive(Clone, Copy, Debug, PartialEq, Eq, Structural)]
pub enum ErrorKind {
    /// An operand had the wrong kind for the instruction (a non-number for
    /// arithmetic, comparison or negation; a non-string where only strings
    /// fit).
    TypeMismatch,
    /// A global variable was read or assigned before being defined.
    UndefinedVariable,
    /// An instruction needed more operands than the stack holds — a
    /// compiler bug, treated as fatal.
    StackUnderflow,
    /// Division by zero: with integer numbers this is an error, never a
    /// silent value.
    DivisionByZero,
    /// An arithmetic result left the 64-bit signed range.
    ArithmeticOverflow,
    /// The instruction stream itself is malformed: an unknown opcode byte,
    /// a truncated operand, an index outside the constant pool or the
    /// stack, a jump outside the code, a constant of the wrong kind where a
    /// variable name was expected, or running off the end without a return.
    InvalidBytecode,
}

/// A runtime error: what went wrong and the source line, recovered from the
/// chunk's line table at the faulting instruction, to report it against.
#[derive(Clone, Copy, Debug, PartialEq, Eq, Structural)]
pub struct RuntimeError {
    pub kind: ErrorKind,
    pub line: u32,
}

/// The message text for each error kind.
pub open spec fn error_text(k: ErrorKind) -> Seq<char> {
    match k {
        ErrorKind::TypeMismatch => "type mismatch"@,
        ErrorKind::UndefinedVariable => "undefined variable"@,
        ErrorKind::StackUnderflow => "stack underflow"@,
        ErrorKind::DivisionByZero => "division by zero"@,
        ErrorKind::ArithmeticOverflow => "arithmetic overflow"@,
        ErrorKind::InvalidBytecode => "invalid bytecode"@,
    }
}

impl RuntimeError {
    /// The error message; the line to report it against is the `line`
    /// field.
    pub fn message(&self) -> (r: String)
        ensures
            r@ == error_text(self.kind),
    {
        match self.kind {
            ErrorKind::TypeMismatch => "type mismatch".to_owned(),
            ErrorKind::UndefinedVariable => "undefined variable".to_owned(),
            ErrorKind::StackUnderflow => "stack underflow".to_owned(),
            ErrorKind::DivisionByZero => "division by zero".to_owned(),
            ErrorKind::ArithmeticOverflow => "arithmetic overflow".to_owned(),
            ErrorKind::InvalidBytecode => "invalid bytecode".to_owned(),
        }
    }
}

/// Mathematical model of the machine between two instructions: the next
/// instruction offset, the operand stack (top last), the global-variable
/// table, and everything printed so far.
#[verifier::ext_equal]
pub ghost struct VmState {
    pub ip: int,
    pub stack: Seq<SpecValue>,
    pub globals: Map<Seq<char>, SpecValue>,
    pub output: Seq<SpecValue>,
}

/// What one step of the machine does: continue in a new state, halt with a
/// result, or fail with a runtime error.
pub ghost enum SpecStep {
    Next(VmState),
    Halt(SpecValue),
    Fail(RuntimeError),
}

/// The model of a sequence of runtime values.
pub open spec fn vseq(s: Seq<Value>) -> Seq<SpecValue> {
    s.map_values(|v: Value| v@)
}

/// The model of a global table of runtime values.
pub open spec fn vmap(m: Map<Seq<char>, Value>) -> Map<Seq<char>, SpecValue> {
    m.map_values(|v: Value| v@)
}

/// The source line paired with the instruction byte at `ip`, or 0 when the
/// offset lies outside the line table.
pub open spec fn spec_line_at(c: ChunkView, ip: int) -> u32 {
    if 0 <= ip < c.lines.len() {
        c.lines[ip]
    } else {
        0
    }
}

/// A failing step.
pub open spec fn fail(k: ErrorKind, line: u32) -> SpecStep {
    SpecStep::Fail(RuntimeError { kind: k, line })
}

/// The result of a binary operator on two popped operands (`a` below `b`),
/// or the kind of runtime error it raises. Comparison and arithmetic
/// require numbers; addition also concatenates two strings; equality is
/// defined for any pair. Overflow and division by zero are errors.
pub open spec fn binary_result(op: OpCode, a: SpecValue, b: SpecValue) -> Result<
    SpecValue,
    ErrorKind,
> {
    match op {
        OpCode::Equal => Ok(SpecValue::Bool(vals_equal(a, b))),
        OpCode::Greater => match (a, b) {
            (SpecValue::Num(x), SpecValue::Num(y)) => Ok(SpecValue::Bool(x > y)),
            _ => Err(ErrorKind::TypeMismatch),
        },
        OpCode::Less => match (a, b) {
            (SpecValue::Num(x), SpecValue::Num(y)) => Ok(SpecValue::Bool(x < y)),
            _ => Err(ErrorKind::TypeMismatch),
        },
        OpCode::Add => match (a, b) {
            (SpecValue::Num(x), SpecValue::Num(y)) => if x + y > i64::MAX || x + y < i64::MIN {
                Err(ErrorKind::ArithmeticOverflow)
            } else {
                Ok(SpecValue::Num((x + y) as i64))
            },
            (SpecValue::Str(x), SpecValue::Str(y)) => Ok(SpecValue::Str(x + y)),
            _ => Err(ErrorKind::TypeMismatch),
        },
        OpCode::Subtract => match (a, b) {
            (SpecValue::Num(x), SpecValue::Num(y)) => if x - y > i64::MAX || x - y < i64::MIN {
                Err(ErrorKind::ArithmeticOverflow)
            } else {
                Ok(SpecValue::Num((x - y) as i64))
            },
            _ => Err(ErrorKind::TypeMismatch),
        },
        OpCode::Multiply => match (a, b) {
            (SpecValue::Num(x), SpecValue::Num(y)) => if x * y > i64::MAX || x * y < i64::MIN {
                Err(ErrorKind::ArithmeticOverflow)
            } else {
                Ok(SpecValue::Num((x * y) as i64))
            },
            _ => Err(ErrorKind::TypeMismatch),
        },
        OpCode::Divide => match (a, b) {
            (SpecValue::Num(x), SpecValue::Num(y)) => if y == 0 {
                Err(ErrorKind::DivisionByZero)
            } else {
                match x.checked_div(y) {
                    Option::Some(q) => Ok(SpecValue::Num(q)),
                    Option::None => Err(ErrorKind::ArithmeticOverflow),
                }
            },
            _ => Err(ErrorKind::TypeMismatch),
        },
        _ => Err(ErrorKind::InvalidBytecode),
    }
}

/// One step of the machine on chunk `c` from state `s`: fetch the opcode
/// byte at `s.ip`, check and fetch its operands, and dispatch. This spec
/// function is the execution semantics of the instruction set; every
/// behaviour of the executable machine is pinned to it.
pub open spec fn spec_step(c: ChunkView, s: VmState) -> SpecStep {
    let line = spec_line_at(c, s.ip);
    if !(0 <= s.ip < c.code.len()) {
        fail(ErrorKind::InvalidBytecode, line)
    } else {
        match opcode_from_byte(c.code[s.ip]) {
            Option::None => fail(ErrorKind::InvalidBytecode, line),
            Option::Some(op) => if s.ip + 1 + operand_width(op) > c.code.len() {
                fail(ErrorKind::InvalidBytecode, line)
            } else {
                spec_dispatch(c, s, op, line)
            },
        }
    }
}

/// The dispatch table of [`spec_step`], one case per opcode, assuming the
/// opcode at `s.ip` is `op` and its operand bytes are in range.
pub open spec fn spec_dispatch(c: ChunkView, s: VmState, op: OpCode, line: u32) -> SpecStep {
    let n = s.stack.len() as int;
    match op {
        OpCode::Constant => {
            let idx = c.code[s.ip + 1] as int;
            if idx >= c.constants.len() {
                fail(ErrorKind::InvalidBytecode, line)
            } else {
                SpecStep::Next(
                    VmState { ip: s.ip + 2, stack: s.stack.push(c.constants[idx]), ..s },
                )
            }
        },
        OpCode::Nil => SpecStep::Next(
            VmState { ip: s.ip + 1, stack: s.stack.push(SpecValue::Nil), ..s },
        ),
        OpCode::True => SpecStep::Next(
            VmState { ip: s.ip + 1, stack: s.stack.push(SpecValue::Bool(true)), ..s },
        ),
        OpCode::False => SpecStep::Next(
            VmState { ip: s.ip + 1, stack: s.stack.push(SpecValue::Bool(false)), ..s },
        ),
        OpCode::Pop => if n == 0 {
            fail(ErrorKind::StackUnderflow, line)
        } else {
            SpecStep::Next(VmState { ip: s.ip + 1, stack: s.stack.subrange(0, n - 1), ..s })
        },
        OpCode::DefineGlobal => {
            let idx = c.code[s.ip + 1] as int;
            if idx >= c.constants.len() {
                fail(ErrorKind::InvalidBytecode, line)
            } else {
                match c.constants[idx] {
                    SpecValue::Str(name) => if n == 0 {
                        fail(ErrorKind::StackUnderflow, line)
                    } else {
                        SpecStep::Next(
                            VmState {
                                ip: s.ip + 2,
                                stack: s.stack.subrange(0, n - 1),
                                globals: s.globals.insert(name, s.stack.last()),
                                ..s
                            },
                        )
                    },
                    _ => fail(ErrorKind::InvalidBytecode, line),
                }
            }
        },
        OpCode::GetLocal => {
            let idx = c.code[s.ip + 1] as int;
            if idx >= n {
                fail(ErrorKind::InvalidBytecode, line)
            } else {
                SpecStep::Next(VmState { ip: s.ip + 2, stack: s.stack.push(s.stack[idx]), ..s })
            }
        },
        OpCode::SetLocal => {
            let idx = c.code[s.ip + 1] as int;
            if n == 0 {
                fail(ErrorKind::StackUnderflow, line)
            } else if idx >= n {
                fail(ErrorKind::InvalidBytecode, line)
            } else {
                SpecStep::Next(
                    VmState { ip: s.ip + 2, stack: s.stack.update(idx, s.stack.last()), ..s },
                )
            }
        },
        OpCode::GetGlobal => {
            let idx = c.code[s.ip + 1] as int;
            if idx >= c.constants.len() {
                fail(ErrorKind::InvalidBytecode, line)
            } else {
                match c.constants[idx] {
                    SpecValue::Str(name) => if s.globals.contains_key(name) {
                        SpecStep::Next(
                            VmState { ip: s.ip + 2, stack: s.stack.push(s.globals[name]), ..s },
                        )
                    } else {
                        fail(ErrorKind::UndefinedVariable, line)
                    },
                    _ => fail(ErrorKind::InvalidBytecode, line),
                }
            }
        },
        OpCode::SetGlobal => {
            let idx = c.code[s.ip + 1] as int;
            if idx >= c.constants.len() {
                fail(ErrorKind::InvalidBytecode, line)
            } else {
                match c.constants[idx] {
                    SpecValue::Str(name) => if n == 0 {
                        fail(ErrorKind::StackUnderflow, line)
                    } else if s.globals.contains_key(name) {
                        SpecStep::Next(
                            VmState {
                                ip: s.ip + 2,
                                globals: s.globals.insert(name, s.stack.last()),
                                ..s
                            },
                        )
                    } else {
                        fail(ErrorKind::UndefinedVariable, line)
                    },
                    _ => fail(ErrorKind::InvalidBytecode, line),
                }
            }
        },
        OpCode::Equal | OpCode::Greater | OpCode::Less | OpCode::Add | OpCode::Subtract
            | OpCode::Multiply | OpCode::Divide => {
            if n < 2 {
                fail(ErrorKind::StackUnderflow, line)
            } else {
                match binary_result(op, s.stack[n - 2], s.stack[n - 1]) {
                    Result::Ok(v) => SpecStep::Next(
                        VmState { ip: s.ip + 1, stack: s.stack.subrange(0, n - 2).push(v), ..s },
                    ),
                    Result::Err(k) => fail(k, line),
                }
            }
        },
        OpCode::Not => if n == 0 {
            fail(ErrorKind::StackUnderflow, line)
        } else {
            SpecStep::Next(
                VmState {
                    ip: s.ip + 1,
                    stack: s.stack.subrange(0, n - 1).push(
                        SpecValue::Bool(!truthy(s.stack.last())),
                    ),
                    ..s
                },
            )
        },
        OpCode::Negate => if n == 0 {
            fail(ErrorKind::StackUnderflow, line)
        } else {
            match s.stack.last() {
                SpecValue::Num(x) => if -x > i64::MAX {
                    fail(ErrorKind::ArithmeticOverflow, line)
                } else {
                    SpecStep::Next(
                        VmState {
                            ip: s.ip + 1,
                            stack: s.stack.subrange(0, n - 1).push(SpecValue::Num((-x) as i64)),
                            ..s
                        },
                    )
                },
                _ => fail(ErrorKind::TypeMismatch, line),
            }
        },
        OpCode::Return => SpecStep::Halt(
            if n == 0 {
                SpecValue::Nil
            } else {
                s.stack.last()
            },
        ),
        OpCode::Print => if n == 0 {
            fail(ErrorKind::StackUnderflow, line)
        } else {
            SpecStep::Next(
                VmState {
                    ip: s.ip + 1,
                    stack: s.stack.subrange(0, n - 1),
                    output: s.output.push(s.stack.last()),
                    ..s
                },
            )
        },
        OpCode::Jump => {
            let w = (c.code[s.ip + 1] as int) * 256 + (c.code[s.ip + 2] as int);
            if s.ip + 3 + w > c.code.len() {
                fail(ErrorKind::InvalidBytecode, line)
            } else {
                SpecStep::Next(VmState { ip: s.ip + 3 + w, ..s })
            }
        },
        OpCode::JumpIfFalse => {
            let w = (c.code[s.ip + 1] as int) * 256 + (c.code[s.ip + 2] as int);
            if n == 0 {
                fail(ErrorKind::StackUnderflow, line)
            } else if truthy(s.stack.last()) {
                SpecStep::Next(VmState { ip: s.ip + 3, stack: s.stack.subrange(0, n - 1), ..s })
            } else if s.ip + 3 + w > c.code.len() {
                fail(ErrorKind::InvalidBytecode, line)
            } else {
                SpecStep::Next(
                    VmState { ip: s.ip + 3 + w, stack: s.stack.subrange(0, n - 1), ..s },
                )
            }
        },
        OpCode::Loop => {
            let w = (c.code[s.ip + 1] as int) * 256 + (c.code[s.ip + 2] as int);
            if w > s.ip + 3 {
                fail(ErrorKind::InvalidBytecode, line)
            } else {
                SpecStep::Next(VmState { ip: s.ip + 3 - w, ..s })
            }
        },
    }
}

/// The outcome of running from state `s` with at most `fuel + 1` steps:
/// either the run halts with a value, fails with an error — both together
/// with everything printed up to that point — or is still going.
pub ghost enum RunOutcome {
    Halted(SpecValue, Seq<SpecValue>),
    Errored(RuntimeError, Seq<SpecValue>),
    StillRunning(VmState),
}

/// Iterates [`spec_step`] for at most `fuel` steps: the outcome of the run
/// if it halts or fails within the budget, and the state it has reached
/// otherwise.
pub open spec fn spec_run_from(c: ChunkView, s: VmState, fuel: nat) -> RunOutcome
    decreases fuel,
{
    if fuel == 0 {
        RunOutcome::StillRunning(s)
    } else {
        match spec_step(c, s) {
            SpecStep::Halt(v) => RunOutcome::Halted(v, s.output),
            SpecStep::Fail(e) => RunOutcome::Errored(e, s.output),
            SpecStep::Next(s2) => spec_run_from(c, s2, (fuel - 1) as nat),
        }
    }
}

/// Law: a finished outcome is stable. Once some fuel lets the run halt or
/// fail, every larger fuel yields the very same outcome, so the result and
/// output of a halting run do not depend on the budget that observed it.
pub proof fn lemma_run_outcome_stable(c: ChunkView, s: VmState, fuel: nat, more: nat)
    requires
        fuel <= more,
        !(spec_run_from(c, s, fuel) is StillRunning),
    ensures
        spec_run_from(c, s, more) == spec_run_from(c, s, fuel),
    decreases fuel,
{
    if fuel > 0 {
        match spec_step(c, s) {
            SpecStep::Next(s2) => {
                lemma_run_outcome_stable(c, s2, (fuel - 1) as nat, (more - 1) as nat);
            },
            _ => {},
        }
    }
}

/// The state a fresh machine starts a run in: at the first instruction,
/// with an empty stack, no globals, and nothing printed.
pub open spec fn start_state() -> VmState {
    VmState { ip: 0, stack: Seq::empty(), globals: Map::empty(), output: Seq::empty() }
}

/// What one executable step reported.
pub enum StepOutcome {
    KeepGoing,
    Halted(Value),
    Failed(RuntimeError),
}

/// The virtual machine: an operand stack, a global-variable table, the
/// instruction pointer, and the values printed so far (the print channel,
/// captured so a driver can direct it anywhere).
pub struct Vm {
    stack: Vec<Value>,
    globals: StringHashMap<Value>,
    ip: usize,
    output: Vec<Value>,
}

impl View for Vm {
    type V = VmState;

    closed spec fn view(&self) -> VmState {
        VmState {
            ip: self.ip as int,
            stack: vseq(self.stack@),
            globals: vmap(self.globals@),
            output: vseq(self.output@),
        }
    }
}

proof fn lemma_vseq_push(s: Seq<Value>, v: Value)
    ensures
        vseq(s.push(v)) == vseq(s).push(v@),
{
    assert(vseq(s.push(v)) =~= vseq(s).push(v@));
}

proof fn lemma_vseq_subrange(s: Seq<Value>, i: int, j: int)
    requires
        0 <= i <= j <= s.len(),
    ensures
        vseq(s.subrange(i, j)) == vseq(s).subrange(i, j),
{
    assert(vseq(s.subrange(i, j)) =~= vseq(s).subrange(i, j));
}

proof fn lemma_vseq_update(s: Seq<Value>, i: int, v: Value)
    requires
        0 <= i < s.len(),
    ensures
        vseq(s.update(i, v)) == vseq(s).update(i, v@),
{
    assert(vseq(s.update(i, v)) =~= vseq(s).update(i, v@));
}

proof fn lemma_vmap_insert(m: Map<Seq<char>, Value>, k: Seq<char>, v: Value)
    ensures
        vmap(m.insert(k, v)) == vmap(m).insert(k, v@),
{
    assert(vmap(m.insert(k, v)) =~= vmap(m).insert(k, v@));
}

impl Vm {
    /// A fresh machine: empty stack, no globals, nothing printed yet.
    pub fn new() -> (r: Vm)
        ensures
            r@ == start_state(),
    {
        let r = Vm { stack: Vec::new(), globals: StringHashMap::new(), ip: 0, output: Vec::new() };
        proof {
            assert(r@.stack =~= start_state().stack);
            assert(r@.globals =~= start_state().globals);
            assert(r@.output =~= start_state().output);
            assert(r@ =~= start_state());
        }
        r
    }

    /// The values printed so far, in print order.
    pub fn output(&self) -> (r: &Vec<Value>)
        ensures
            vseq(r@) == self@.output,
    {
        &self.output
    }

    /// Executes one instruction, exactly as [`spec_step`] describes: the
    /// machine continues in the successor state, or reports the halt value
    /// or the runtime error, leaving the printed output as it was.
    fn step(&mut self, chunk: &ByteArray) -> (r: StepOutcome)
        requires
            chunk.wf(),
        ensures
            (spec_step(chunk@, old(self)@) matches SpecStep::Next(s2) ==> r
                == StepOutcome::KeepGoing && final(self)@ == s2),
            (spec_step(chunk@, old(self)@) matches SpecStep::Halt(v) ==> (
            r matches StepOutcome::Halted(rv) && rv@ == v) && final(self)@.output == old(
                self,
            )@.output),
            (spec_step(chunk@, old(self)@) matches SpecStep::Fail(e) ==> r
                == StepOutcome::Failed(e) && final(self)@.output == old(self)@.output),
    {
        let ip = self.ip;
        if ip >= chunk.code_len() {
            return StepOutcome::Failed(RuntimeError { kind: ErrorKind::InvalidBytecode, line: 0 });
        }
        let line = chunk.line_at(ip);
        let op = match decode_op(chunk.byte_at(ip)) {
            Option::Some(op) => op,
            Option::None => {
                return StepOutcome::Failed(
                    RuntimeError { kind: ErrorKind::InvalidBytecode, line },
                );
            },
        };
        let w = op_operand_width(op);
        if w > chunk.code_len() - ip - 1 {
            return StepOutcome::Failed(RuntimeError { kind: ErrorKind::InvalidBytecode, line });
        }
        match op {
            OpCode::Constant => {
                let idx = chunk.byte_at(ip + 1) as usize;
                if idx >= chunk.constants_len() {
                    return StepOutcome::Failed(
                        RuntimeError { kind: ErrorKind::InvalidBytecode, line },
                    );
                }
                let v = chunk.constant_at(idx).duplicate();
                self.stack.push(v);
                self.ip = ip + 2;
                proof {
                    lemma_vseq_push(old(self).stack@, v);
                }
                StepOutcome::KeepGoing
            },
            OpCode::Nil => {
                self.stack.push(Value::Nil);
                self.ip = ip + 1;
                proof {
                    lemma_vseq_push(old(self).stack@, Value::Nil);
                }
                StepOutcome::KeepGoing
            },
            OpCode::True => {
                self.stack.push(Value::Bool(true));
                self.ip = ip + 1;
                proof {
                    lemma_vseq_push(old(self).stack@, Value::Bool(true));
                }
                StepOutcome::KeepGoing
            },
            OpCode::False => {
                self.stack.push(Value::Bool(false));
                self.ip = ip + 1;
                proof {
                    lemma_vseq_push(old(self).stack@, Value::Bool(false));
                }
                StepOutcome::KeepGoing
            },
            OpCode::Pop => {
                match self.stack.pop() {
                    Option::Some(_) => {
                        self.ip = ip + 1;
                        proof {
                            lemma_vseq_subrange(
                                old(self).stack@,
                                0,
                                old(self).stack@.len() as int - 1,
                            );
                        }
                        StepOutcome::KeepGoing
                    },
                    Option::None => StepOutcome::Failed(
                        RuntimeError { kind: ErrorKind::StackUnderflow, line },
                    ),
                }
            },
            OpCode::DefineGlobal => {
                let idx = chunk.byte_at(ip + 1) as usize;
                if idx >= chunk.constants_len() {
                    return StepOutcome::Failed(
                        RuntimeError { kind: ErrorKind::InvalidBytecode, line },
                    );
                }
                let name = match chunk.constant_at(idx) {
                    Value::Str(s) => s.clone(),
                    _ => {
                        return StepOutcome::Failed(
                            RuntimeError { kind: ErrorKind::InvalidBytecode, line },
                        );
                    },
                };
                let v = match self.stack.pop() {
                    Option::Some(v) => v,
                    Option::None => {
                        return StepOutcome::Failed(
                            RuntimeError { kind: ErrorKind::StackUnderflow, line },
                        );
                    },
                };
                proof {
                    lemma_vseq_subrange(old(self).stack@, 0, old(self).stack@.len() as int - 1);
                    lemma_vmap_insert(self.globals@, name@, v);
                }
                self.globals.insert(name, v);
                self.ip = ip + 2;
                StepOutcome::KeepGoing
            },
            OpCode::GetLocal => {
                let idx = chunk.byte_at(ip + 1) as usize;
                if idx >= self.stack.len() {
                    return StepOutcome::Failed(
                        RuntimeError { kind: ErrorKind::InvalidBytecode, line },
                    );
                }
                let v = self.stack[idx].duplicate();
                self.stack.push(v);
                self.ip = ip + 2;
                proof {
                    lemma_vseq_push(old(self).stack@, v);
                }
                StepOutcome::KeepGoing
            },
            OpCode::SetLocal => {
                let idx = chunk.byte_at(ip + 1) as usize;
                if self.stack.len() == 0 {
                    return StepOutcome::Failed(
                        RuntimeError { kind: ErrorKind::StackUnderflow, line },
                    );
                }
                if idx >= self.stack.len() {
                    return StepOutcome::Failed(
                        RuntimeError { kind: ErrorKind::InvalidBytecode, line },
                    );
                }
                let v = self.stack[self.stack.len() - 1].duplicate();
                self.stack[idx] = v;
                self.ip = ip + 2;
                proof {
                    lemma_vseq_update(old(self).stack@, idx as int, v);
                }
                StepOutcome::KeepGoing
            },
            OpCode::GetGlobal => {
                let idx = chunk.byte_at(ip + 1) as usize;
                if idx >= chunk.constants_len() {
                    return StepOutcome::Failed(
                        RuntimeError { kind: ErrorKind::InvalidBytecode, line },
                    );
                }
                match chunk.constant_at(idx) {
                    Value::Str(name) => {
                        match self.globals.get(name.as_str()) {
                            Option::Some(v) => {
                                let dv = v.duplicate();
                                self.stack.push(dv);
                                self.ip = ip + 2;
                                proof {
                                    lemma_vseq_push(old(self).stack@, dv);
                                }
                                StepOutcome::KeepGoing
                            },
                            Option::None => StepOutcome::Failed(
                                RuntimeError { kind: ErrorKind::UndefinedVariable, line },
                            ),
                        }
                    },
                    _ => StepOutcome::Failed(
                        RuntimeError { kind: ErrorKind::InvalidBytecode, line },
                    ),
                }
            },
            OpCode::SetGlobal => {
                let idx = chunk.byte_at(ip + 1) as usize;
                if idx >= chunk.constants_len() {
                    return StepOutcome::Failed(
                        RuntimeError { kind: ErrorKind::InvalidBytecode, line },
                    );
                }
                let name = match chunk.constant_at(idx) {
                    Value::Str(s) => s.clone(),
                    _ => {
                        return StepOutcome::Failed(
                            RuntimeError { kind: ErrorKind::InvalidBytecode, line },
                        );
                    },
                };
                if self.stack.len() == 0 {
                    return StepOutcome::Failed(
                        RuntimeError { kind: ErrorKind::StackUnderflow, line },
                    );
                }
                if !self.globals.contains_key(name.as_str()) {
                    return StepOutcome::Failed(
                        RuntimeError { kind: ErrorKind::UndefinedVariable, line },
                    );
                }
                let v = self.stack[self.stack.len() - 1].duplicate();
                proof {
                    lemma_vmap_insert(self.globals@, name@, v);
                }
                self.globals.insert(name, v);
                self.ip = ip + 2;
                StepOutcome::KeepGoing
            },
            OpCode::Equal | OpCode::Greater | OpCode::Less | OpCode::Add | OpCode::Subtract
                | OpCode::Multiply | OpCode::Divide => {
                if self.stack.len() < 2 {
                    return StepOutcome::Failed(
                        RuntimeError { kind: ErrorKind::StackUnderflow, line },
                    );
                }
                let b = self.stack.pop().unwrap();
                let a = self.stack.pop().unwrap();
                proof {
                    assert(self.stack@ =~= old(self).stack@.subrange(
                        0,
                        old(self).stack@.len() as int - 2,
                    ));
                }
                match eval_binary(op, a, b, line) {
                    Result::Ok(v) => {
                        self.stack.push(v);
                        self.ip = ip + 1;
                        proof {
                            lemma_vseq_subrange(
                                old(self).stack@,
                                0,
                                old(self).stack@.len() as int - 2,
                            );
                            lemma_vseq_push(
                                old(self).stack@.subrange(0, old(self).stack@.len() as int - 2),
                                v,
                            );
                        }
                        StepOutcome::KeepGoing
                    },
                    Result::Err(e) => StepOutcome::Failed(e),
                }
            },
            OpCode::Not => {
                match self.stack.pop() {
                    Option::Some(v) => {
                        let r = Value::Bool(!v.is_truthy());
                        self.stack.push(r);
                        self.ip = ip + 1;
                        proof {
                            lemma_vseq_subrange(
                                old(self).stack@,
                                0,
                                old(self).stack@.len() as int - 1,
                            );
                            lemma_vseq_push(
                                old(self).stack@.subrange(0, old(self).stack@.len() as int - 1),
                                r,
                            );
                        }
                        StepOutcome::KeepGoing
                    },
                    Option::None => StepOutcome::Failed(
                        RuntimeError { kind: ErrorKind::StackUnderflow, line },
                    ),
                }
            },
            OpCode::Negate => {
                match self.stack.pop() {
                    Option::Some(v) => match v {
                        Value::Num(x) => {
                            if x == i64::MIN {
                                return StepOutcome::Failed(
                                    RuntimeError { kind: ErrorKind::ArithmeticOverflow, line },
                                );
                            }
                            let r = Value::Num(-x);
                            self.stack.push(r);
                            self.ip = ip + 1;
                            proof {
                                lemma_vseq_subrange(
                                    old(self).stack@,
                                    0,
                                    old(self).stack@.len() as int - 1,
                                );
                                lemma_vseq_push(
                                    old(self).stack@.subrange(
                                        0,
                                        old(self).stack@.len() as int - 1,
                                    ),
                                    r,
                                );
                            }
                            StepOutcome::KeepGoing
                        },
                        _ => StepOutcome::Failed(
                            RuntimeError { kind: ErrorKind::TypeMismatch, line },
                        ),
                    },
                    Option::None => StepOutcome::Failed(
                        RuntimeError { kind: ErrorKind::StackUnderflow, line },
                    ),
                }
            },
            OpCode::Return => {
                match self.stack.pop() {
                    Option::Some(v) => StepOutcome::Halted(v),
                    Option::None => StepOutcome::Halted(Value::Nil),
                }
            },
            OpCode::Print => {
                match self.stack.pop() {
                    Option::Some(v) => {
                        self.output.push(v);
                        self.ip = ip + 1;
                        proof {
                            lemma_vseq_subrange(
                                old(self).stack@,
                                0,
                                old(self).stack@.len() as int - 1,
                            );
                            lemma_vseq_push(old(self).output@, v);
                        }
                        StepOutcome::KeepGoing
                    },
                    Option::None => StepOutcome::Failed(
                        RuntimeError { kind: ErrorKind::StackUnderflow, line },
                    ),
                }
            },
            OpCode::Jump => {
                let w = (chunk.byte_at(ip + 1) as usize) * 256 + (chunk.byte_at(ip + 2) as usize);
                if w > chunk.code_len() - (ip + 3) {
                    return StepOutcome::Failed(
                        RuntimeError { kind: ErrorKind::InvalidBytecode, line },
                    );
                }
                self.ip = ip + 3 + w;
                StepOutcome::KeepGoing
            },
            OpCode::JumpIfFalse => {
                let w = (chunk.byte_at(ip + 1) as usize) * 256 + (chunk.byte_at(ip + 2) as usize);
                let v = match self.stack.pop() {
                    Option::Some(v) => v,
                    Option::None => {
                        return StepOutcome::Failed(
                            RuntimeError { kind: ErrorKind::StackUnderflow, line },
                        );
                    },
                };
                proof {
                    lemma_vseq_subrange(old(self).stack@, 0, old(self).stack@.len() as int - 1);
                }
                if v.is_truthy() {
                    self.ip = ip + 3;
                    StepOutcome::KeepGoing
                } else {
                    if w > chunk.code_len() - (ip + 3) {
                        return StepOutcome::Failed(
                            RuntimeError { kind: ErrorKind::InvalidBytecode, line },
                        );
                    }
                    self.ip = ip + 3 + w;
                    StepOutcome::KeepGoing
                }
            },
            OpCode::Loop => {
                let w = (chunk.byte_at(ip + 1) as usize) * 256 + (chunk.byte_at(ip + 2) as usize);
                if w > ip + 3 {
                    return StepOutcome::Failed(
                        RuntimeError { kind: ErrorKind::InvalidBytecode, line },
                    );
                }
                self.ip = ip + 3 - w;
                StepOutcome::KeepGoing
            },
        }
    }

    /// Runs the chunk from a fresh start: empty stack, fresh globals,
    /// nothing printed, instruction pointer at offset 0, executing at most
    /// `budget` instructions. Returns the value `OP_RETURN` halted with,
    /// the runtime error that stopped the run, or `None` when the budget
    /// ran out first; either way `self.output()` afterwards holds exactly
    /// what the run printed, in order.
    ///
    /// The budget is explicit because this machine is proved to terminate,
    /// while a chunk can loop forever; the caller chooses how many steps
    /// to allow. The contract is exact: the result is precisely what
    /// iterating the semantics [`spec_step`] from [`start_state`] with
    /// `budget` as fuel yields.
    pub fn run(&mut self, chunk: &ByteArray, budget: u64) -> (r: Option<
        Result<Value, RuntimeError>,
    >)
        requires
            chunk.wf(),
        ensures
            (r matches Option::Some(Result::Ok(v)) ==> spec_run_from(
                chunk@,
                start_state(),
                budget as nat,
            ) == RunOutcome::Halted(v@, final(self)@.output)),
            (r matches Option::Some(Result::Err(e)) ==> spec_run_from(
                chunk@,
                start_state(),
                budget as nat,
            ) == RunOutcome::Errored(e, final(self)@.output)),
            (r is None ==> spec_run_from(chunk@, start_state(), budget as nat)
                == RunOutcome::StillRunning(final(self)@)),
    {
        self.stack = Vec::new();
        self.globals = StringHashMap::new();
        self.output = Vec::new();
        self.ip = 0;
        proof {
            assert(self@.stack =~= start_state().stack);
            assert(self@.globals =~= start_state().globals);
            assert(self@.output =~= start_state().output);
            assert(self@ =~= start_state());
        }
        let mut k: u64 = 0;
        loop
            invariant
                chunk.wf(),
                k <= budget,
                spec_run_from(chunk@, start_state(), budget as nat) == spec_run_from(
                    chunk@,
                    self@,
                    (budget - k) as nat,
                ),
            decreases budget - k,
        {
            if k == budget {
                return None;
            }
            let ghost pre = self@;
            let res = self.step(chunk);
            match res {
                StepOutcome::KeepGoing => {
                    proof {
                        assert(spec_run_from(chunk@, pre, (budget - k) as nat) == spec_run_from(
                            chunk@,
                            self@,
                            (budget - (k + 1)) as nat,
                        ));
                    }
                    k = k + 1;
                },
                StepOutcome::Halted(v) => {
                    proof {
                        assert(spec_run_from(chunk@, pre, (budget - k) as nat)
                            == RunOutcome::Halted(v@, self@.output));
                    }
                    return Some(Ok(v));
                },
                StepOutcome::Failed(e) => {
                    proof {
                        assert(spec_run_from(chunk@, pre, (budget - k) as nat)
                            == RunOutcome::Errored(e, self@.output));
                    }
                    return Some(Err(e));
                },
            }
        }
    }
}

/// Law (global definition): executing `OP_DEFINE_GLOBAL` whose operand
/// names `name` pops the top of the stack and binds it to `name` in the
/// global table, leaving every other global as it was.
pub proof fn lemma_define_global_binds(c: ChunkView, s: VmState, name: Seq<char>)
    requires
        c.lines.len() == c.code.len(),
        0 <= s.ip,
        s.ip + 2 <= c.code.len(),
        c.code[s.ip] == opcode_value(OpCode::DefineGlobal),
        (c.code[s.ip + 1] as int) < c.constants.len(),
        c.constants[c.code[s.ip + 1] as int] == SpecValue::Str(name),
        s.stack.len() > 0,
    ensures
        spec_step(c, s) matches SpecStep::Next(s1) && s1.globals == s.globals.insert(
            name,
            s.stack.last(),
        ) && s1.stack == s.stack.subrange(0, s.stack.len() - 1),
{
}

/// Law (global mutation): from any state whose next two instructions are
/// `OP_SET_GLOBAL` and `OP_GET_GLOBAL`, both naming the same defined
/// global, the set binds the top of the stack to the name and the get
/// observes exactly that updated value — whatever the variable held
/// before.
pub proof fn lemma_set_then_get_global(c: ChunkView, s: VmState, name: Seq<char>)
    requires
        c.lines.len() == c.code.len(),
        0 <= s.ip,
        s.ip + 4 <= c.code.len(),
        c.code[s.ip] == opcode_value(OpCode::SetGlobal),
        c.code[s.ip + 2] == opcode_value(OpCode::GetGlobal),
        (c.code[s.ip + 1] as int) < c.constants.len(),
        (c.code[s.ip + 3] as int) < c.constants.len(),
        c.constants[c.code[s.ip + 1] as int] == SpecValue::Str(name),
        c.constants[c.code[s.ip + 3] as int] == SpecValue::Str(name),
        s.globals.contains_key(name),
        s.stack.len() > 0,
    ensures
        spec_step(c, s) matches SpecStep::Next(s1) && (s1.globals[name] == s.stack.last() && (
        spec_step(c, s1) matches SpecStep::Next(s2) && s2.stack.last() == s.stack.last())),
{
}

/// Law (undefined global): executing `OP_GET_GLOBAL` whose operand names a
/// global that was never defined fails with an undefined-variable error
/// citing the instruction's source line.
pub proof fn lemma_get_global_undefined(c: ChunkView, s: VmState, name: Seq<char>)
    requires
        c.lines.len() == c.code.len(),
        0 <= s.ip,
        s.ip + 2 <= c.code.len(),
        c.code[s.ip] == opcode_value(OpCode::GetGlobal),
        (c.code[s.ip + 1] as int) < c.constants.len(),
        c.constants[c.code[s.ip + 1] as int] == SpecValue::Str(name),
        !s.globals.contains_key(name),
    ensures
        spec_step(c, s) == fail(ErrorKind::UndefinedVariable, c.lines[s.ip]),
{
}

/// Applies a binary operator to the two popped operands, reporting the
/// value or the runtime error that [`binary_result`] assigns to them.
fn eval_binary(op: OpCode, a: Value, b: Value, line: u32) -> (r: Result<Value, RuntimeError>)
    ensures
        (binary_result(op, a@, b@) matches Result::Ok(v) ==> (
        r matches Result::Ok(rv) && rv@ == v)),
        (binary_result(op, a@, b@) matches Result::Err(k) ==> r == Result::<
            Value,
            RuntimeError,
        >::Err(RuntimeError { kind: k, line })),
{
    match op {
        OpCode::Equal => Ok(Value::Bool(a.equals(&b))),
        OpCode::Greater => match (a, b) {
            (Value::Num(x), Value::Num(y)) => Ok(Value::Bool(x > y)),
            _ => Err(RuntimeError { kind: ErrorKind::TypeMismatch, line }),
        },
        OpCode::Less => match (a, b) {
            (Value::Num(x), Value::Num(y)) => Ok(Value::Bool(x < y)),
            _ => Err(RuntimeError { kind: ErrorKind::TypeMismatch, line }),
        },
        OpCode::Add => match (a, b) {
            (Value::Num(x), Value::Num(y)) => match x.checked_add(y) {
                Option::Some(z) => Ok(Value::Num(z)),
                Option::None => Err(RuntimeError { kind: ErrorKind::ArithmeticOverflow, line }),
            },
            (Value::Str(x), Value::Str(y)) => Ok(Value::Str(x.concat(y.as_str()))),
            _ => Err(RuntimeError { kind: ErrorKind::TypeMismatch, line }),
        },
        OpCode::Subtract => match (a, b) {
            (Value::Num(x), Value::Num(y)) => match x.checked_sub(y) {
                Option::Some(z) => Ok(Value::Num(z)),
                Option::None => Err(RuntimeError { kind: ErrorKind::ArithmeticOverflow, line }),
            },
            _ => Err(RuntimeError { kind: ErrorKind::TypeMismatch, line }),
        },
        OpCode::Multiply => match (a, b) {
            (Value::Num(x), Value::Num(y)) => match x.checked_mul(y) {
                Option::Some(z) => Ok(Value::Num(z)),
                Option::None => Err(RuntimeError { kind: ErrorKind::ArithmeticOverflow, line }),
            },
            _ => Err(RuntimeError { kind: ErrorKind::TypeMismatch, line }),
        },
        OpCode::Divide => match (a, b) {
            (Value::Num(x), Value::Num(y)) => {
                if y == 0 {
                    Err(RuntimeError { kind: ErrorKind::DivisionByZero, line })
                } else {
                    match x.checked_div(y) {
                        Option::Some(q) => Ok(Value::Num(q)),
                        Option::None => Err(
                            RuntimeError { kind: ErrorKind::ArithmeticOverflow, line },
                        ),
                    }
                }
            },
            _ => Err(RuntimeError { kind: ErrorKind::TypeMismatch, line }),
        },
        _ => Err(RuntimeError { kind: ErrorKind::InvalidBytecode, line }),
    }
}

} // verus!
