//! The meaning of each instruction: its effect on memory, the program
//! counter, the input and output buffers and the halted flag.

use vstd::prelude::*;

use crate::machine::{MachineModel, VirtualMachine};
use crate::memory::{MemoryModel, VmError, MAX_ADDRESS};
use crate::opcodes::Instruction;
use crate::text::push_char;

verus! {

/// Modulus of ADD and MULT: the size of the 15-bit space.
pub const WORD_MODULUS: u32 = 32768;

/// How far an instruction got.
#[derive(Debug, Clone, Copy, PartialEq, Eq, Structural)]
pub enum Status {
    /// The instruction took effect.
    Executed,
    /// IN found no queued input: nothing changed, and the same instruction
    /// must run again once input has arrived.
    AwaitingInput,
}

/// The character that OUT writes for a resolved value: its low eight bits.
pub open spec fn output_char(v: u16) -> char {
    (v as u8) as char
}

/// `m` with the program counter moved past `i`.
pub open spec fn advanced(m: MachineModel, i: Instruction) -> MachineModel {
    MachineModel { program_counter: (m.program_counter + i.spec_byte_length()) as u16, ..m }
}

/// Writes `value` into register `target` and moves past `i`.
pub open spec fn store_then_advance(
    m: MachineModel,
    i: Instruction,
    target: u16,
    value: u16,
) -> Result<MachineModel, VmError> {
    match m.memory.write(target, value) {
        Ok(mem) => Ok(advanced(MachineModel { memory: mem, ..m }, i)),
        Err(e) => Err(e),
    }
}

/// Resolves two operands, left first.
pub open spec fn read_pair(mem: MemoryModel, b: u16, c: u16) -> Result<(u16, u16), VmError> {
    match mem.read(b) {
        Ok(x) => match mem.read(c) {
            Ok(y) => Ok((x, y)),
            Err(e) => Err(e),
        },
        Err(e) => Err(e),
    }
}

/// The result of a three-operand arithmetic or logic instruction on the
/// resolved operands `x` and `y`; `None` for division by zero.
pub open spec fn alu(i: Instruction, x: u16, y: u16) -> Option<u16> {
    match i {
        Instruction::Equality(_, _, _) => Some(if x == y { 1u16 } else { 0u16 }),
        Instruction::GreaterThan(_, _, _) => Some(if x > y { 1u16 } else { 0u16 }),
        Instruction::Add(_, _, _) => Some(((x + y) % (WORD_MODULUS as int)) as u16),
        Instruction::Mult(_, _, _) => Some(((x * y) % (WORD_MODULUS as int)) as u16),
        Instruction::Mod(_, _, _) => if y == 0 {
            None
        } else {
            Some((x % y) as u16)
        },
        Instruction::And(_, _, _) => Some(x & y),
        _ => Some(x | y),
    }
}

/// Effect of a three-operand instruction `i` writing into `a`.
pub open spec fn ternary(
    m: MachineModel,
    i: Instruction,
    a: u16,
    b: u16,
    c: u16,
) -> Result<MachineModel, VmError> {
    match read_pair(m.memory, b, c) {
        Ok((x, y)) => match alu(i, x, y) {
            Some(v) => store_then_advance(m, i, a, v),
            None => Err(VmError::ArithmeticError),
        },
        Err(e) => Err(e),
    }
}

/// Effect of a conditional jump: jump to resolved `target` when the resolved
/// `test` is non-zero (`on_nonzero`) or zero (otherwise).
pub open spec fn branch(
    m: MachineModel,
    i: Instruction,
    test: u16,
    target: u16,
    on_nonzero: bool,
) -> Result<MachineModel, VmError> {
    match m.memory.read(test) {
        Ok(x) => if (x != 0) == on_nonzero {
            match m.memory.read(target) {
                Ok(t) => Ok(MachineModel { program_counter: t, ..m }),
                Err(e) => Err(e),
            }
        } else {
            Ok(advanced(m, i))
        },
        Err(e) => Err(e),
    }
}

/// The state after executing `i` in `m`, or the fault it raises. A faulting
/// instruction changes nothing. IN with no queued input changes nothing.
pub open spec fn execute_spec(i: Instruction, m: MachineModel) -> Result<MachineModel, VmError> {
    match i {
        Instruction::Halt => Ok(MachineModel { halted: true, ..m }),
        Instruction::SetRegister(a, b) => store_then_advance(m, i, a, b),
        Instruction::Push(a) => match m.memory.read(a) {
            Ok(v) => Ok(
                advanced(
                    MachineModel {
                        memory: MemoryModel { stack: m.memory.stack.push((v, None)), ..m.memory },
                        ..m
                    },
                    i,
                ),
            ),
            Err(e) => Err(e),
        },
        Instruction::Pop(a) => if m.memory.stack.len() == 0 {
            Err(VmError::StackUnderflow)
        } else {
            match m.memory.write(a, m.memory.stack.last().0) {
                Ok(mem) => Ok(
                    advanced(
                        MachineModel {
                            memory: MemoryModel { stack: mem.stack.drop_last(), ..mem },
                            ..m
                        },
                        i,
                    ),
                ),
                Err(e) => Err(e),
            }
        },
        Instruction::Equality(a, b, c) => ternary(m, i, a, b, c),
        Instruction::GreaterThan(a, b, c) => ternary(m, i, a, b, c),
        Instruction::Jump(a) => match m.memory.read(a) {
            Ok(t) => Ok(MachineModel { program_counter: t, ..m }),
            Err(e) => Err(e),
        },
        Instruction::JumpIfNonZero(a, b) => branch(m, i, a, b, true),
        Instruction::JumpIfZero(a, b) => branch(m, i, a, b, false),
        Instruction::Add(a, b, c) => ternary(m, i, a, b, c),
        Instruction::Mult(a, b, c) => ternary(m, i, a, b, c),
        Instruction::Mod(a, b, c) => ternary(m, i, a, b, c),
        Instruction::And(a, b, c) => ternary(m, i, a, b, c),
        Instruction::Or(a, b, c) => ternary(m, i, a, b, c),
        Instruction::Not(a, b) => match m.memory.read(b) {
            Ok(x) => store_then_advance(m, i, a, !x & MAX_ADDRESS),
            Err(e) => Err(e),
        },
        Instruction::Load(a, b) => match m.memory.read(b) {
            Ok(p) => match m.memory.mem_read(p) {
                Ok(v) => store_then_advance(m, i, a, v),
                Err(e) => Err(e),
            },
            Err(e) => Err(e),
        },
        Instruction::Store(a, b) => match m.memory.read(b) {
            Ok(v) => match m.memory.read(a) {
                Ok(p) => match m.memory.mem_write(p, v) {
                    Ok(mem) => Ok(advanced(MachineModel { memory: mem, ..m }, i)),
                    Err(e) => Err(e),
                },
                Err(e) => Err(e),
            },
            Err(e) => Err(e),
        },
        Instruction::Call(a) => match m.memory.read(a) {
            Ok(t) => Ok(
                MachineModel {
                    program_counter: t,
                    memory: MemoryModel {
                        stack: m.memory.stack.push(
                            ((m.program_counter + i.spec_byte_length()) as u16, Some(t)),
                        ),
                        ..m.memory
                    },
                    ..m
                },
            ),
            Err(e) => Err(e),
        },
        Instruction::Return => if m.memory.stack.len() == 0 {
            Err(VmError::StackUnderflow)
        } else {
            Ok(
                MachineModel {
                    program_counter: m.memory.stack.last().0,
                    memory: MemoryModel { stack: m.memory.stack.drop_last(), ..m.memory },
                    ..m
                },
            )
        },
        Instruction::Out(a) => match m.memory.read(a) {
            Ok(v) => Ok(advanced(MachineModel { output: m.output.push(output_char(v)), ..m }, i)),
            Err(e) => Err(e),
        },
        Instruction::In(a) => if m.input.len() == 0 {
            Ok(m)
        } else {
            match m.memory.write(a, m.input[0] as u16) {
                Ok(mem) => Ok(
                    advanced(MachineModel { memory: mem, input: m.input.drop_first(), ..m }, i),
                ),
                Err(e) => Err(e),
            }
        },
        Instruction::Noop => Ok(advanced(m, i)),
    }
}

/// Whether executing `i` in `m` computes the address just past `i`: every
/// instruction but HALT, JMP, RET and a conditional jump that is taken or
/// whose test faults.
pub open spec fn computes_next(i: Instruction, m: MachineModel) -> bool {
    match i {
        Instruction::Halt | Instruction::Jump(_) | Instruction::Return => false,
        Instruction::JumpIfNonZero(a, _) => m.memory.read(a) == Ok::<u16, VmError>(0),
        Instruction::JumpIfZero(a, _) => m.memory.read(a) matches Ok(x) && x != 0,
        _ => true,
    }
}

/// How far `i` gets in `m` when it does not fault.
pub open spec fn status_spec(i: Instruction, m: MachineModel) -> Status {
    if i is In && m.input.len() == 0 {
        Status::AwaitingInput
    } else {
        Status::Executed
    }
}

impl Instruction {
    /// Applies this instruction to `vm`: its effect, then the move of the
    /// program counter (past the instruction, or to the jump, call or return
    /// target). On a fault nothing changes.
    pub fn execute(&self, vm: &mut VirtualMachine) -> (r: Result<Status, VmError>)
        requires
            computes_next(*self, old(vm)@) ==> old(vm).program_counter + self.spec_byte_length()
                <= u16::MAX,
        ensures
            match execute_spec(*self, old(vm)@) {
                Ok(m) => r == Ok::<Status, VmError>(status_spec(*self, old(vm)@))
                    && final(vm)@ == m,
                Err(e) => r == Err::<Status, VmError>(e) && final(vm)@ == old(vm)@,
            },
    {
        let length = self.byte_length() as u16;
        match *self {
            Instruction::Halt => {
                vm.halted = true;
            },
            Instruction::SetRegister(a, b) => {
                vm.memory.write(&a, b)?;
                vm.program_counter = vm.program_counter + length;
            },
            Instruction::Push(a) => {
                let v = vm.memory.read(&a)?;
                vm.memory.stack.push((v, None));
                vm.program_counter = vm.program_counter + length;
            },
            Instruction::Pop(a) => {
                let len = vm.memory.stack.len();
                if len == 0 {
                    return Err(VmError::StackUnderflow);
                }
                let (v, _) = vm.memory.stack[len - 1];
                vm.memory.write(&a, v)?;
                vm.memory.stack.pop();
                vm.program_counter = vm.program_counter + length;
            },
            Instruction::Equality(a, b, c) | Instruction::GreaterThan(a, b, c)
            | Instruction::Add(a, b, c) | Instruction::Mult(a, b, c) | Instruction::Mod(a, b, c)
            | Instruction::And(a, b, c) | Instruction::Or(a, b, c) => {
                let x = vm.memory.read(&b)?;
                let y = vm.memory.read(&c)?;
                let v: u16 = match *self {
                    Instruction::Equality(_, _, _) => if x == y { 1 } else { 0 },
                    Instruction::GreaterThan(_, _, _) => if x > y { 1 } else { 0 },
                    Instruction::Add(_, _, _) => ((x as u32 + y as u32) % WORD_MODULUS) as u16,
                    Instruction::Mult(_, _, _) => {
                        assert(x as u32 * y as u32 <= 65535u32 * 65535u32) by (nonlinear_arith)
                            requires
                                x <= 65535,
                                y <= 65535,
                        ;
                        ((x as u32 * y as u32) % WORD_MODULUS) as u16
                    },
                    Instruction::Mod(_, _, _) => {
                        if y == 0 {
                            return Err(VmError::ArithmeticError);
                        }
                        x % y
                    },
                    Instruction::And(_, _, _) => x & y,
                    _ => x | y,
                };
                vm.memory.write(&a, v)?;
                vm.program_counter = vm.program_counter + length;
            },
            Instruction::Jump(a) => {
                vm.program_counter = vm.memory.read(&a)?;
            },
            Instruction::JumpIfNonZero(a, b) => {
                if vm.memory.read(&a)? != 0 {
                    vm.program_counter = vm.memory.read(&b)?;
                } else {
                    vm.program_counter = vm.program_counter + length;
                }
            },
            Instruction::JumpIfZero(a, b) => {
                if vm.memory.read(&a)? == 0 {
                    vm.program_counter = vm.memory.read(&b)?;
                } else {
                    vm.program_counter = vm.program_counter + length;
                }
            },
            Instruction::Not(a, b) => {
                let x = vm.memory.read(&b)?;
                vm.memory.write(&a, !x & MAX_ADDRESS)?;
                vm.program_counter = vm.program_counter + length;
            },
            Instruction::Load(a, b) => {
                let p = vm.memory.read(&b)?;
                let v = vm.memory.mem_read(&p)?;
                vm.memory.write(&a, v)?;
                vm.program_counter = vm.program_counter + length;
            },
            Instruction::Store(a, b) => {
                let v = vm.memory.read(&b)?;
                let p = vm.memory.read(&a)?;
                vm.memory.mem_write(&p, v)?;
                vm.program_counter = vm.program_counter + length;
            },
            Instruction::Call(a) => {
                let target = vm.memory.read(&a)?;
                vm.memory.stack.push((vm.program_counter + length, Some(target)));
                vm.program_counter = target;
            },
            Instruction::Return => {
                match vm.memory.stack.pop() {
                    Some((v, _)) => {
                        vm.program_counter = v;
                    },
                    None => {
                        return Err(VmError::StackUnderflow);
                    },
                }
            },
            Instruction::Out(a) => {
                let v = vm.memory.read(&a)?;
                push_char(&mut vm.output_buffer, (#[verifier::truncate] (v as u8)) as char);
                vm.program_counter = vm.program_counter + length;
            },
            Instruction::In(a) => {
                if vm.stdin_buffer.len() == 0 {
                    return Ok(Status::AwaitingInput);
                }
                let c = vm.stdin_buffer[0];
                vm.memory.write(&a, c as u16)?;
                vm.stdin_buffer.pop_front();
                vm.program_counter = vm.program_counter + length;
            },
            Instruction::Noop => {
                vm.program_counter = vm.program_counter + length;
            },
        }
        Ok(Status::Executed)
    }
}

} // verus!
