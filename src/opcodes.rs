//! The instruction set: decoding a window of words into an `Instruction`,
//! and each instruction's mnemonic and encoded length.

use vstd::prelude::*;

verus! {

/// Highest opcode that the decoder knows.
pub const MAX_OPCODE: u16 = 21;

/// A decoded operation with its raw operands.
#[derive(Debug, Clone, Copy, PartialEq, Eq, Structural)]
pub enum Instruction {
    Halt,
    SetRegister(u16, u16),
    Push(u16),
    Pop(u16),
    Equality(u16, u16, u16),
    GreaterThan(u16, u16, u16),
    Jump(u16),
    JumpIfNonZero(u16, u16),
    JumpIfZero(u16, u16),
    Add(u16, u16, u16),
    Mult(u16, u16, u16),
    Mod(u16, u16, u16),
    And(u16, u16, u16),
    Or(u16, u16, u16),
    Not(u16, u16),
    Load(u16, u16),
    Store(u16, u16),
    Call(u16),
    Return,
    Out(u16),
    In(u16),
    Noop,
}

/// Why a window of words is not an instruction.
#[derive(Debug, Clone, Copy, PartialEq, Eq, Structural)]
pub enum DecoderError {
    /// The opcode is outside the known range.
    Invalid(u16),
    /// A known opcode that no instruction is wired to.
    NotImplemented(u16),
    /// The window ends before the operands the opcode needs.
    ParameterMissing,
    /// The window is empty.
    Empty,
}

/// Number of operands that opcode `op` takes (`op` at most `MAX_OPCODE`).
pub open spec fn operand_count(op: u16) -> nat {
    if op == 0 || op == 18 || op == 21 {
        0
    } else if op == 2 || op == 3 || op == 6 || op == 17 || op == 19 || op == 20 {
        1
    } else if op == 1 || op == 7 || op == 8 || op == 14 || op == 15 || op == 16 {
        2
    } else {
        3
    }
}

/// The instruction of opcode `op` (at most `MAX_OPCODE`) with operands `a`,
/// `b`, `c`; operands beyond its arity are ignored.
pub open spec fn assemble(op: u16, a: u16, b: u16, c: u16) -> Instruction {
    if op == 0 {
        Instruction::Halt
    } else if op == 1 {
        Instruction::SetRegister(a, b)
    } else if op == 2 {
        Instruction::Push(a)
    } else if op == 3 {
        Instruction::Pop(a)
    } else if op == 4 {
        Instruction::Equality(a, b, c)
    } else if op == 5 {
        Instruction::GreaterThan(a, b, c)
    } else if op == 6 {
        Instruction::Jump(a)
    } else if op == 7 {
        Instruction::JumpIfNonZero(a, b)
    } else if op == 8 {
        Instruction::JumpIfZero(a, b)
    } else if op == 9 {
        Instruction::Add(a, b, c)
    } else if op == 10 {
        Instruction::Mult(a, b, c)
    } else if op == 11 {
        Instruction::Mod(a, b, c)
    } else if op == 12 {
        Instruction::And(a, b, c)
    } else if op == 13 {
        Instruction::Or(a, b, c)
    } else if op == 14 {
        Instruction::Not(a, b)
    } else if op == 15 {
        Instruction::Load(a, b)
    } else if op == 16 {
        Instruction::Store(a, b)
    } else if op == 17 {
        Instruction::Call(a)
    } else if op == 18 {
        Instruction::Return
    } else if op == 19 {
        Instruction::Out(a)
    } else if op == 20 {
        Instruction::In(a)
    } else {
        Instruction::Noop
    }
}

/// Word `i` of `w`, or 0 past its end.
pub open spec fn word_or_zero(w: Seq<u16>, i: int) -> u16 {
    if 0 <= i < w.len() {
        w[i]
    } else {
        0
    }
}

/// What decoding the window `w` yields.
pub open spec fn decode_spec(w: Seq<u16>) -> Result<Instruction, DecoderError> {
    if w.len() == 0 {
        Err(DecoderError::Empty)
    } else if w[0] > MAX_OPCODE {
        Err(DecoderError::Invalid(w[0]))
    } else if w.len() < 1 + operand_count(w[0]) {
        Err(DecoderError::ParameterMissing)
    } else {
        Ok(assemble(w[0], word_or_zero(w, 1), word_or_zero(w, 2), word_or_zero(w, 3)))
    }
}

impl Instruction {
    /// Encoded length in words: the opcode and its operands.
    pub open spec fn spec_byte_length(self) -> nat {
        match self {
            Instruction::Halt | Instruction::Return | Instruction::Noop => 1,
            Instruction::Push(_) | Instruction::Pop(_) | Instruction::Jump(_)
            | Instruction::Call(_) | Instruction::Out(_) | Instruction::In(_) => 2,
            Instruction::SetRegister(_, _) | Instruction::JumpIfNonZero(_, _)
            | Instruction::JumpIfZero(_, _) | Instruction::Not(_, _) | Instruction::Load(_, _)
            | Instruction::Store(_, _) => 3,
            _ => 4,
        }
    }

    /// The assembler name of the operation.
    pub open spec fn spec_mnemonic(self) -> &'static str {
        match self {
            Instruction::Halt => "HALT",
            Instruction::SetRegister(_, _) => "SET",
            Instruction::Push(_) => "PUSH",
            Instruction::Pop(_) => "POP",
            Instruction::Equality(_, _, _) => "EQ",
            Instruction::GreaterThan(_, _, _) => "GT",
            Instruction::Jump(_) => "JMP",
            Instruction::JumpIfNonZero(_, _) => "JT",
            Instruction::JumpIfZero(_, _) => "JF",
            Instruction::Add(_, _, _) => "ADD",
            Instruction::Mult(_, _, _) => "MULT",
            Instruction::Mod(_, _, _) => "MOD",
            Instruction::And(_, _, _) => "AND",
            Instruction::Or(_, _, _) => "OR",
            Instruction::Not(_, _) => "NOT",
            Instruction::Load(_, _) => "RMEM",
            Instruction::Store(_, _) => "WMEM",
            Instruction::Call(_) => "CALL",
            Instruction::Return => "RET",
            Instruction::Out(_) => "OUT",
            Instruction::In(_) => "IN",
            Instruction::Noop => "NOOP",
        }
    }

    /// Decodes the instruction at the start of `window`. Decoding is pure: it
    /// neither reads past the window nor moves the program counter.
    pub fn decode(window: &[u16]) -> (r: Result<Instruction, DecoderError>)
        ensures
            r == decode_spec(window@),
            r matches Ok(i) ==> i.spec_byte_length() <= window@.len(),
    {
        if window.len() == 0 {
            return Err(DecoderError::Empty);
        }
        let op = window[0];
        if op > MAX_OPCODE {
            return Err(DecoderError::Invalid(op));
        }
        let needed: usize = if op == 0 || op == 18 || op == 21 {
            0
        } else if op == 2 || op == 3 || op == 6 || op == 17 || op == 19 || op == 20 {
            1
        } else if op == 1 || op == 7 || op == 8 || op == 14 || op == 15 || op == 16 {
            2
        } else {
            3
        };
        if window.len() < needed + 1 {
            return Err(DecoderError::ParameterMissing);
        }
        let a = if window.len() > 1 { window[1] } else { 0 };
        let b = if window.len() > 2 { window[2] } else { 0 };
        let c = if window.len() > 3 { window[3] } else { 0 };
        let instruction = match op {
            0 => Instruction::Halt,
            1 => Instruction::SetRegister(a, b),
            2 => Instruction::Push(a),
            3 => Instruction::Pop(a),
            4 => Instruction::Equality(a, b, c),
            5 => Instruction::GreaterThan(a, b, c),
            6 => Instruction::Jump(a),
            7 => Instruction::JumpIfNonZero(a, b),
            8 => Instruction::JumpIfZero(a, b),
            9 => Instruction::Add(a, b, c),
            10 => Instruction::Mult(a, b, c),
            11 => Instruction::Mod(a, b, c),
            12 => Instruction::And(a, b, c),
            13 => Instruction::Or(a, b, c),
            14 => Instruction::Not(a, b),
            15 => Instruction::Load(a, b),
            16 => Instruction::Store(a, b),
            17 => Instruction::Call(a),
            18 => Instruction::Return,
            19 => Instruction::Out(a),
            20 => Instruction::In(a),
            _ => Instruction::Noop,
        };
        Ok(instruction)
    }

    /// The assembler name of the operation, such as `"ADD"`.
    pub fn memnonic(&self) -> (r: &'static str)
        ensures
            r == self.spec_mnemonic(),
    {
        match self {
            Instruction::Halt => "HALT",
            Instruction::SetRegister(_, _) => "SET",
            Instruction::Push(_) => "PUSH",
            Instruction::Pop(_) => "POP",
            Instruction::Equality(_, _, _) => "EQ",
            Instruction::GreaterThan(_, _, _) => "GT",
            Instruction::Jump(_) => "JMP",
            Instruction::JumpIfNonZero(_, _) => "JT",
            Instruction::JumpIfZero(_, _) => "JF",
            Instruction::Add(_, _, _) => "ADD",
            Instruction::Mult(_, _, _) => "MULT",
            Instruction::Mod(_, _, _) => "MOD",
            Instruction::And(_, _, _) => "AND",
            Instruction::Or(_, _, _) => "OR",
            Instruction::Not(_, _) => "NOT",
            Instruction::Load(_, _) => "RMEM",
            Instruction::Store(_, _) => "WMEM",
            Instruction::Call(_) => "CALL",
            Instruction::Return => "RET",
            Instruction::Out(_) => "OUT",
            Instruction::In(_) => "IN",
            Instruction::Noop => "NOOP",
        }
    }

    /// Encoded length in words: the opcode and its operands.
    pub fn byte_length(&self) -> (r: usize)
        ensures
            r == self.spec_byte_length(),
            1 <= r <= 4,
    {
        match self {
            Instruction::Halt | Instruction::Return | Instruction::Noop => 1,
            Instruction::Push(_) | Instruction::Pop(_) | Instruction::Jump(_)
            | Instruction::Call(_) | Instruction::Out(_) | Instruction::In(_) => 2,
            Instruction::SetRegister(_, _) | Instruction::JumpIfNonZero(_, _)
            | Instruction::JumpIfZero(_, _) | Instruction::Not(_, _) | Instruction::Load(_, _)
            | Instruction::Store(_, _) => 3,
            _ => 4,
        }
    }
}

} // verus!
