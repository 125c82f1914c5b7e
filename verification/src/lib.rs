//! A minimal 8-bit educational computer: 16 signed-byte memory cells holding
//! both code and data, one accumulator register, a display latch, and a
//! program counter, driven by an 8-instruction set packed into single bytes.
//!
//! The instruction codec and the fetch-decode-execute engine are verified:
//! decoding is total over every byte value, encoding is its partial inverse,
//! and each execution step is proved to follow the documented semantics.

pub mod codec;
pub mod machine;
