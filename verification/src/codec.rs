//! Instruction codec: a total decoding from a signed byte to a tagged
//! instruction, and a partial encoding back.
//!
//! An encoded instruction byte carries a 3-bit opcode in its high portion and
//! a 4-bit operand in its low portion; the sign bit of the byte is ignored.
//! Decoding masks the byte to its low 7 bits and splits it, so every one of
//! the 256 byte values yields exactly one instruction. Encoding rebuilds the
//! byte and fails with `OperandOutOfRange` whenever the operand does not fit
//! the 4-bit field.

use vstd::prelude::*;

verus! {

/// One instruction of the machine. Arithmetic and addressing operands are
/// carried as `i8` (the decoder only ever produces values in `0..=15`);
/// shift and jump operands are carried as `u8` addresses.
///
/// `Nop` is the explicit no-operation fill value used by the loader. It
/// encodes to the byte 0, which decodes as `Add(0)`: the collision is benign
/// (adding zero changes nothing) but the distinct tag keeps program listings
/// unambiguous.
#[derive(Debug, Copy, Clone, PartialEq, Eq, Structural)]
pub enum Inst {
    Add(i8),
    And(i8),
    Shl(u8),
    Disp(i8),
    Load(i8),
    Str(i8),
    Jmp(u8),
    Jz(u8),
    Nop,
}

/// Failure of `encode`: the operand does not fit its 4-bit field.
#[derive(Debug, Copy, Clone, PartialEq, Eq, Structural)]
pub enum CodecError {
    OperandOutOfRange,
}

/// The instruction denoted by a byte: mask off the sign bit, then split the
/// remaining 7 bits into opcode (high) and operand (low). Total: every byte
/// denotes exactly one instruction, and never `Nop`.
pub open spec fn spec_decode(b: i8) -> Inst {
    let v = b & 0x7f;
    if v < 16 {
        Inst::Add(v)
    } else if v < 32 {
        Inst::And((v - 16) as i8)
    } else if v < 48 {
        Inst::Shl((v - 32) as u8)
    } else if v < 64 {
        Inst::Disp((v - 48) as i8)
    } else if v < 80 {
        Inst::Load((v - 64) as i8)
    } else if v < 96 {
        Inst::Str((v - 80) as i8)
    } else if v < 112 {
        Inst::Jmp((v - 96) as u8)
    } else {
        Inst::Jz((v - 112) as u8)
    }
}

/// Whether the instruction's operand fits its 4-bit field, i.e. whether the
/// instruction can be encoded into a byte.
pub open spec fn encodable(i: Inst) -> bool {
    match i {
        Inst::Add(n) => 0 <= n <= 15,
        Inst::And(n) => 0 <= n <= 15,
        Inst::Shl(n) => n <= 15,
        Inst::Disp(n) => 0 <= n <= 15,
        Inst::Load(n) => 0 <= n <= 15,
        Inst::Str(n) => 0 <= n <= 15,
        Inst::Jmp(n) => n <= 15,
        Inst::Jz(n) => n <= 15,
        Inst::Nop => true,
    }
}

/// The byte an encodable instruction maps to: operand plus sixteen times the
/// opcode index. `Nop` shares the byte 0 with `Add(0)`.
pub open spec fn spec_encode(i: Inst) -> i8 {
    match i {
        Inst::Add(n) => n,
        Inst::And(n) => (n + 16) as i8,
        Inst::Shl(n) => (n + 32) as i8,
        Inst::Disp(n) => (n + 48) as i8,
        Inst::Load(n) => (n + 64) as i8,
        Inst::Str(n) => (n + 80) as i8,
        Inst::Jmp(n) => (n + 96) as i8,
        Inst::Jz(n) => (n + 112) as i8,
        Inst::Nop => 0,
    }
}

/// Decode a byte into an instruction. Total: no byte is rejected.
pub fn decode(b: i8) -> (r: Inst)
    ensures
        r == spec_decode(b),
{
    let v: i8 = b & 0x7f;
    proof {
        assert(0 <= (b & 0x7f) < 128) by (bit_vector);
    }
    if v < 16 {
        Inst::Add(v)
    } else if v < 32 {
        Inst::And(v - 16)
    } else if v < 48 {
        Inst::Shl((v - 32) as u8)
    } else if v < 64 {
        Inst::Disp(v - 48)
    } else if v < 80 {
        Inst::Load(v - 64)
    } else if v < 96 {
        Inst::Str(v - 80)
    } else if v < 112 {
        Inst::Jmp((v - 96) as u8)
    } else {
        Inst::Jz((v - 112) as u8)
    }
}

/// Encode an instruction into a byte, or report that its operand does not
/// fit the 4-bit field.
pub fn encode(i: Inst) -> (r: Result<i8, CodecError>)
    ensures
        encodable(i) ==> r == Ok::<i8, CodecError>(spec_encode(i)),
        !encodable(i) ==> r == Err::<i8, CodecError>(CodecError::OperandOutOfRange),
{
    match i {
        Inst::Add(n) => {
            if 0 <= n && n <= 15 {
                Ok(n)
            } else {
                Err(CodecError::OperandOutOfRange)
            }
        },
        Inst::And(n) => {
            if 0 <= n && n <= 15 {
                Ok(n + 16)
            } else {
                Err(CodecError::OperandOutOfRange)
            }
        },
        Inst::Shl(n) => {
            if n <= 15 {
                Ok((n + 32) as i8)
            } else {
                Err(CodecError::OperandOutOfRange)
            }
        },
        Inst::Disp(n) => {
            if 0 <= n && n <= 15 {
                Ok(n + 48)
            } else {
                Err(CodecError::OperandOutOfRange)
            }
        },
        Inst::Load(n) => {
            if 0 <= n && n <= 15 {
                Ok(n + 64)
            } else {
                Err(CodecError::OperandOutOfRange)
            }
        },
        Inst::Str(n) => {
            if 0 <= n && n <= 15 {
                Ok(n + 80)
            } else {
                Err(CodecError::OperandOutOfRange)
            }
        },
        Inst::Jmp(n) => {
            if n <= 15 {
                Ok((n + 96) as i8)
            } else {
                Err(CodecError::OperandOutOfRange)
            }
        },
        Inst::Jz(n) => {
            if n <= 15 {
                Ok((n + 112) as i8)
            } else {
                Err(CodecError::OperandOutOfRange)
            }
        },
        Inst::Nop => Ok(0),
    }
}

/// Totality of decoding: every byte value denotes one of the eight operation
/// variants, its operand lies within the 4-bit field (so the decoded
/// instruction is itself encodable), and the explicit no-op tag is never
/// produced by the decoder.
pub proof fn lemma_decode_total(b: i8)
    ensures
        encodable(spec_decode(b)),
        !(spec_decode(b) is Nop),
{
    assert(0 <= (b & 0x7f) < 128) by (bit_vector);
}

/// Round trip: an instruction whose operand is in range survives encoding
/// followed by decoding unchanged. `Nop` is the one exclusion: its encoding,
/// the byte 0, decodes as the behaviourally identical `Add(0)`.
pub proof fn lemma_round_trip(i: Inst)
    requires
        encodable(i),
        !(i is Nop),
    ensures
        spec_decode(spec_encode(i)) == i,
{
    assert(forall|x: i8| 0 <= x < 128 ==> x & 0x7f == x) by (bit_vector);
}

} // verus!
