use tinycpu::codec::{decode, encode, CodecError, Inst};

/// The instruction a byte should decode to, computed the long way round:
/// mask the sign bit, split into opcode and operand by Euclidean division.
fn expected_decode(b: i8) -> Inst {
    let v: i8 = b & 0x7f;
    let opcode: i8 = v.div_euclid(16);
    let operand: i8 = v - 16 * opcode;
    match opcode {
        0 => Inst::Add(operand),
        1 => Inst::And(operand),
        2 => Inst::Shl(operand as u8),
        3 => Inst::Disp(operand),
        4 => Inst::Load(operand),
        5 => Inst::Str(operand),
        6 => Inst::Jmp(operand as u8),
        7 => Inst::Jz(operand as u8),
        _ => unreachable!(),
    }
}

#[test]
fn decode_is_total() {
    for b in i8::MIN..=i8::MAX {
        let i = decode(b);
        assert_eq!(i, expected_decode(b));
        assert_ne!(i, Inst::Nop);
        // Every decoded instruction is itself encodable, back to the
        // sign-masked byte.
        assert_eq!(encode(i), Ok(b & 0x7f));
    }
}

#[test]
fn decode_spot_checks() {
    assert_eq!(decode(0), Inst::Add(0));
    assert_eq!(decode(15), Inst::Add(15));
    assert_eq!(decode(21), Inst::And(5));
    assert_eq!(decode(32), Inst::Shl(0));
    assert_eq!(decode(48), Inst::Disp(0));
    assert_eq!(decode(64), Inst::Load(0));
    assert_eq!(decode(80), Inst::Str(0));
    assert_eq!(decode(96), Inst::Jmp(0));
    assert_eq!(decode(112), Inst::Jz(0));
    assert_eq!(decode(127), Inst::Jz(15));
    // The sign bit is ignored: -1 is the bit pattern of 255, masked to 127.
    assert_eq!(decode(-1), Inst::Jz(15));
    assert_eq!(decode(-128), Inst::Add(0));
    assert_eq!(decode(-113), Inst::Add(15));
}

#[test]
fn encode_spot_checks() {
    assert_eq!(encode(Inst::Add(15)), Ok(15));
    assert_eq!(encode(Inst::And(5)), Ok(21));
    assert_eq!(encode(Inst::Shl(4)), Ok(36));
    assert_eq!(encode(Inst::Disp(0)), Ok(48));
    assert_eq!(encode(Inst::Load(9)), Ok(73));
    assert_eq!(encode(Inst::Str(1)), Ok(81));
    assert_eq!(encode(Inst::Jmp(0)), Ok(96));
    assert_eq!(encode(Inst::Jz(15)), Ok(127));
    assert_eq!(encode(Inst::Nop), Ok(0));
}

#[test]
fn round_trip_all_operands() {
    for n in 0i8..=15 {
        assert_eq!(decode(encode(Inst::Add(n)).unwrap()), Inst::Add(n));
        assert_eq!(decode(encode(Inst::And(n)).unwrap()), Inst::And(n));
        assert_eq!(decode(encode(Inst::Disp(n)).unwrap()), Inst::Disp(n));
        assert_eq!(decode(encode(Inst::Load(n)).unwrap()), Inst::Load(n));
        assert_eq!(decode(encode(Inst::Str(n)).unwrap()), Inst::Str(n));
    }
    for n in 0u8..=15 {
        assert_eq!(decode(encode(Inst::Shl(n)).unwrap()), Inst::Shl(n));
        assert_eq!(decode(encode(Inst::Jmp(n)).unwrap()), Inst::Jmp(n));
        assert_eq!(decode(encode(Inst::Jz(n)).unwrap()), Inst::Jz(n));
    }
}

#[test]
fn nop_encodes_as_the_add_zero_byte() {
    // The explicit no-op shares its encoding with Add(0); the collision is
    // benign because adding zero changes nothing.
    assert_eq!(encode(Inst::Nop), Ok(0));
    assert_eq!(decode(0), Inst::Add(0));
}

#[test]
fn encode_rejects_out_of_range_operands() {
    assert_eq!(encode(Inst::Add(-1)), Err(CodecError::OperandOutOfRange));
    assert_eq!(encode(Inst::Add(16)), Err(CodecError::OperandOutOfRange));
    assert_eq!(encode(Inst::And(-3)), Err(CodecError::OperandOutOfRange));
    assert_eq!(encode(Inst::Shl(16)), Err(CodecError::OperandOutOfRange));
    assert_eq!(encode(Inst::Disp(127)), Err(CodecError::OperandOutOfRange));
    assert_eq!(encode(Inst::Load(-128)), Err(CodecError::OperandOutOfRange));
    assert_eq!(encode(Inst::Str(16)), Err(CodecError::OperandOutOfRange));
    assert_eq!(encode(Inst::Jmp(255)), Err(CodecError::OperandOutOfRange));
    assert_eq!(encode(Inst::Jz(16)), Err(CodecError::OperandOutOfRange));
}
