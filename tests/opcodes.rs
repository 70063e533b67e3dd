use regvm::{DecoderError, Instruction};

#[test]
fn test_construct_instruction() {
    let program: [u16; 5] = [21, 19, 65, 0, 200];
    assert_eq!(Instruction::decode(&program[0..4]), Ok(Instruction::Noop));
    assert_eq!(Instruction::decode(&program[1..5]), Ok(Instruction::Out(65)));
    assert_eq!(Instruction::decode(&program[2..5]), Err(DecoderError::Invalid(65)));
    assert_eq!(Instruction::decode(&program[3..5]), Ok(Instruction::Halt));
    assert_eq!(Instruction::decode(&program[4..5]), Err(DecoderError::Invalid(200)));
}

#[test]
fn decode_empty_and_short_windows() {
    assert_eq!(Instruction::decode(&[]), Err(DecoderError::Empty));
    assert_eq!(Instruction::decode(&[9, 32768, 1]), Err(DecoderError::ParameterMissing));
    assert_eq!(Instruction::decode(&[1, 32768]), Err(DecoderError::ParameterMissing));
    assert_eq!(Instruction::decode(&[18]), Ok(Instruction::Return));
    assert_eq!(Instruction::decode(&[22, 0, 0, 0]), Err(DecoderError::Invalid(22)));
}

#[test]
fn decode_every_opcode() {
    let expected = [
        (Instruction::Halt, "HALT", 1),
        (Instruction::SetRegister(1, 2), "SET", 3),
        (Instruction::Push(1), "PUSH", 2),
        (Instruction::Pop(1), "POP", 2),
        (Instruction::Equality(1, 2, 3), "EQ", 4),
        (Instruction::GreaterThan(1, 2, 3), "GT", 4),
        (Instruction::Jump(1), "JMP", 2),
        (Instruction::JumpIfNonZero(1, 2), "JT", 3),
        (Instruction::JumpIfZero(1, 2), "JF", 3),
        (Instruction::Add(1, 2, 3), "ADD", 4),
        (Instruction::Mult(1, 2, 3), "MULT", 4),
        (Instruction::Mod(1, 2, 3), "MOD", 4),
        (Instruction::And(1, 2, 3), "AND", 4),
        (Instruction::Or(1, 2, 3), "OR", 4),
        (Instruction::Not(1, 2), "NOT", 3),
        (Instruction::Load(1, 2), "RMEM", 3),
        (Instruction::Store(1, 2), "WMEM", 3),
        (Instruction::Call(1), "CALL", 2),
        (Instruction::Return, "RET", 1),
        (Instruction::Out(1), "OUT", 2),
        (Instruction::In(1), "IN", 2),
        (Instruction::Noop, "NOOP", 1),
    ];
    for (op, (instruction, name, length)) in expected.iter().enumerate() {
        let window = [op as u16, 1, 2, 3];
        assert_eq!(Instruction::decode(&window), Ok(*instruction));
        assert_eq!(instruction.memnonic(), *name);
        assert_eq!(instruction.byte_length(), *length);
    }
}
