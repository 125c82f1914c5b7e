//! Machine state and the fetch-decode-execute engine.
//!
//! The machine holds 16 signed-byte memory cells shared by code and data, an
//! accumulator register, a display latch, and a program counter. A program is
//! loaded by encoding 16 instructions into the cells; each execution cycle
//! fetches the byte under the program counter, decodes it, and mutates the
//! state according to the decoded instruction. `Jz` is reserved: the original
//! design never defines its zero flag, so executing it reports a typed error
//! instead of guessing a semantics.

use vstd::prelude::*;

use crate::codec::{decode, encode, encodable, spec_decode, spec_encode, Inst};

verus! {

/// Number of memory cells; addresses and the program counter stay below it.
pub const MEM_SIZE: usize = 16;

/// Failure of `load_instructions`.
#[derive(Debug, Copy, Clone, PartialEq, Eq, Structural)]
pub enum LoadError {
    /// The supplied program does not hold exactly 16 instructions.
    ProgramSizeMismatch,
    /// Some instruction's operand does not fit its 4-bit field.
    OperandOutOfRange,
}

/// Failure of a single execution cycle.
#[derive(Debug, Copy, Clone, PartialEq, Eq, Structural)]
pub enum StepError {
    /// The fetched byte decodes to `Jz`, whose zero-flag semantics the
    /// machine leaves reserved; the state is not changed.
    UnimplementedJz,
}

/// Mathematical model of the machine state.
pub ghost struct CpuModel {
    /// The 16 unified code/data cells.
    pub memory: Seq<i8>,
    /// The accumulator register.
    pub register: i8,
    /// The display latch.
    pub bcd: i8,
    /// The program counter, kept within `0..16`.
    pub pc: u8,
}

impl CpuModel {
    /// Well-formedness: exactly 16 cells, program counter in range.
    pub open spec fn wf(self) -> bool {
        &&& self.memory.len() == 16
        &&& self.pc < 16
    }
}

/// A memory cell shifted left by one bit, as `Shl` leaves it.
pub open spec fn shl1(x: i8) -> i8 {
    x << 1
}

/// The program counter after the default advance: one step forward,
/// wrapping from the last cell back to the first.
pub open spec fn pc_next(pc: u8) -> u8 {
    (((pc as int) + 1) % 16) as u8
}

/// One fetch-decode-execute cycle on the model: fetch the byte under `pc`,
/// decode it, apply the decoded instruction. Every instruction advances the
/// program counter by one (wrapping) except `Jmp`, which sets it absolutely.
/// `Jz` is reserved and leaves an error; the state is returned unchanged in
/// that case. `Nop` never arises from decoding but is carried for
/// completeness of the match.
pub open spec fn spec_step(m: CpuModel) -> Result<CpuModel, StepError> {
    let b = m.memory[m.pc as int];
    let pc1 = pc_next(m.pc);
    match spec_decode(b) {
        Inst::Add(n) => Ok(CpuModel { register: m.register.wrapping_add(n), pc: pc1, ..m }),
        Inst::And(n) => Ok(CpuModel { register: m.register & n, pc: pc1, ..m }),
        Inst::Shl(n) => Ok(
            CpuModel { memory: m.memory.update(n as int, shl1(m.memory[n as int])), pc: pc1, ..m },
        ),
        Inst::Disp(n) => Ok(CpuModel { bcd: m.memory[n as int], pc: pc1, ..m }),
        Inst::Load(n) => Ok(CpuModel { register: m.memory[n as int], pc: pc1, ..m }),
        Inst::Str(n) => Ok(CpuModel { memory: m.memory.update(n as int, m.register), pc: pc1, ..m }),
        Inst::Jmp(n) => Ok(CpuModel { pc: n, ..m }),
        Inst::Jz(_) => Err(StepError::UnimplementedJz),
        Inst::Nop => Ok(CpuModel { pc: pc1, ..m }),
    }
}

/// The machine after up to `n` cycles from `m`, together with the error that
/// stopped it early, if any: cycles run until the count is exhausted or a
/// cycle fails, and a failing cycle leaves the state as it was.
pub open spec fn spec_run(m: CpuModel, n: nat) -> (CpuModel, Option<StepError>)
    decreases n,
{
    if n == 0 {
        (m, None)
    } else {
        match spec_step(m) {
            Ok(m2) => spec_run(m2, (n - 1) as nat),
            Err(e) => (m, Some(e)),
        }
    }
}

/// The sequence of bytes a program encodes to, cell by cell.
pub open spec fn encoded(program: Seq<Inst>) -> Seq<i8> {
    Seq::new(program.len(), |j: int| spec_encode(program[j]))
}

/// Whether every instruction of a program fits its encoding.
pub open spec fn all_encodable(program: Seq<Inst>) -> bool {
    forall|j: int| 0 <= j < program.len() ==> encodable(#[trigger] program[j])
}

/// The 8-bit machine: 16 unified code/data memory cells, accumulator
/// register, display latch, and program counter.
pub struct TinyCPU {
    memory: Vec<i8>,
    register: i8,
    bcd: i8,
    pc: u8,
}

impl View for TinyCPU {
    type V = CpuModel;

    closed spec fn view(&self) -> CpuModel {
        CpuModel { memory: self.memory@, register: self.register, bcd: self.bcd, pc: self.pc }
    }
}

impl TinyCPU {
    /// A machine with every field zeroed: 16 zero cells, zero register, zero
    /// display latch, program counter at the first cell.
    pub fn new() -> (r: TinyCPU)
        ensures
            r@.wf(),
            r@ == (CpuModel { memory: Seq::new(16, |j: int| 0i8), register: 0i8, bcd: 0i8, pc: 0u8 }),
    {
        let mut memory: Vec<i8> = Vec::new();
        let mut j: usize = 0;
        while j < MEM_SIZE
            invariant
                j <= 16,
                memory@.len() == j,
                forall|k: int| 0 <= k < j ==> memory@[k] == 0i8,
            decreases 16 - j,
        {
            memory.push(0);
            j = j + 1;
        }
        let r = TinyCPU { memory, register: 0, bcd: 0, pc: 0 };
        proof {
            assert(r@.memory =~= Seq::new(16, |j: int| 0i8));
        }
        r
    }

    /// Encode a 16-instruction program and write it into memory, cell by
    /// cell. Fails, leaving the machine untouched, when the program is not
    /// exactly 16 instructions long or when any instruction's operand does
    /// not fit its 4-bit field; the register, display latch, and program
    /// counter are never changed.
    pub fn load_instructions(&mut self, insts: Vec<Inst>) -> (r: Result<(), LoadError>)
        requires
            old(self)@.wf(),
        ensures
            final(self)@.wf(),
            insts@.len() != 16 ==> r == Err::<(), LoadError>(LoadError::ProgramSizeMismatch)
                && final(self)@ == old(self)@,
            insts@.len() == 16 && !all_encodable(insts@) ==> r == Err::<(), LoadError>(
                LoadError::OperandOutOfRange,
            ) && final(self)@ == old(self)@,
            insts@.len() == 16 && all_encodable(insts@) ==> r == Ok::<(), LoadError>(())
                && final(self)@ == (CpuModel { memory: encoded(insts@), ..old(self)@ }),
    {
        if insts.len() != MEM_SIZE {
            return Err(LoadError::ProgramSizeMismatch);
        }
        let mut bytes: Vec<i8> = Vec::new();
        let mut j: usize = 0;
        while j < MEM_SIZE
            invariant
                self@ == old(self)@,
                old(self)@.wf(),
                insts@.len() == 16,
                j <= 16,
                bytes@.len() == j,
                forall|k: int| 0 <= k < j ==> encodable(#[trigger] insts@[k]),
                forall|k: int| 0 <= k < j ==> bytes@[k] == spec_encode(insts@[k]),
            decreases 16 - j,
        {
            match encode(insts[j]) {
                Ok(b) => bytes.push(b),
                Err(_) => {
                    return Err(LoadError::OperandOutOfRange);
                },
            }
            j = j + 1;
        }
        self.memory = bytes;
        proof {
            assert(self@.memory =~= encoded(insts@));
        }
        Ok(())
    }

    /// One fetch-decode-execute cycle, following `spec_step` exactly: on
    /// success the state becomes the stepped model, and on the reserved `Jz`
    /// instruction the error is reported with the state unchanged.
    pub fn step(&mut self) -> (r: Result<(), StepError>)
        requires
            old(self)@.wf(),
        ensures
            final(self)@.wf(),
            spec_step(old(self)@) matches Ok(m) ==> r == Ok::<(), StepError>(()) && final(self)@
                == m,
            spec_step(old(self)@) matches Err(e) ==> r == Err::<(), StepError>(e) && final(self)@
                == old(self)@,
    {
        let b = self.memory[self.pc as usize];
        let inst = decode(b);
        proof {
            crate::codec::lemma_decode_total(b);
        }
        let pc1: u8 = (self.pc + 1) % 16;
        match inst {
            Inst::Add(n) => {
                self.register = self.register.wrapping_add(n);
                self.pc = pc1;
                Ok(())
            },
            Inst::And(n) => {
                self.register = self.register & n;
                self.pc = pc1;
                Ok(())
            },
            Inst::Shl(n) => {
                let cur = self.memory[n as usize];
                self.memory.set(n as usize, cur << 1);
                self.pc = pc1;
                Ok(())
            },
            Inst::Disp(n) => {
                self.bcd = self.memory[n as usize];
                self.pc = pc1;
                Ok(())
            },
            Inst::Load(n) => {
                self.register = self.memory[n as usize];
                self.pc = pc1;
                Ok(())
            },
            Inst::Str(n) => {
                self.memory.set(n as usize, self.register);
                self.pc = pc1;
                Ok(())
            },
            Inst::Jmp(n) => {
                self.pc = n;
                Ok(())
            },
            Inst::Jz(_) => Err(StepError::UnimplementedJz),
            Inst::Nop => {
                self.pc = pc1;
                Ok(())
            },
        }
    }

    /// Run up to `steps` cycles, following `spec_run`: cycles execute until
    /// the count is exhausted or one fails, and a failing cycle stops the
    /// run with its error and the state it found.
    pub fn run(&mut self, steps: usize) -> (r: Result<(), StepError>)
        requires
            old(self)@.wf(),
        ensures
            final(self)@.wf(),
            final(self)@ == spec_run(old(self)@, steps as nat).0,
            ({
                match spec_run(old(self)@, steps as nat).1 {
                    Some(e) => r == Err::<(), StepError>(e),
                    None => r == Ok::<(), StepError>(()),
                }
            }),
    {
        let mut i: usize = 0;
        while i < steps
            invariant
                self@.wf(),
                i <= steps,
                spec_run(self@, (steps - i) as nat) == spec_run(old(self)@, steps as nat),
            decreases steps - i,
        {
            match self.step() {
                Ok(()) => {},
                Err(e) => {
                    return Err(e);
                },
            }
            i = i + 1;
        }
        Ok(())
    }

    /// The accumulator register.
    pub fn register(&self) -> (r: i8)
        ensures
            r == self@.register,
    {
        self.register
    }

    /// The display latch.
    pub fn bcd(&self) -> (r: i8)
        ensures
            r == self@.bcd,
    {
        self.bcd
    }

    /// The program counter.
    pub fn pc(&self) -> (r: u8)
        ensures
            r == self@.pc,
    {
        self.pc
    }

    /// The memory cells, for external inspection.
    pub fn memory(&self) -> (r: &Vec<i8>)
        ensures
            r@ == self@.memory,
    {
        &self.memory
    }
}

/// Law: `Add` wraps in two's complement and never faults. Whenever the cell
/// under the program counter decodes to `Add(n)`, the cycle succeeds, the
/// register becomes the wrapped sum — in particular the signed maximum plus
/// one wraps to the signed minimum — and everything but the register and the
/// advanced program counter is untouched.
pub proof fn lemma_add_wraparound(m: CpuModel, n: i8)
    requires
        m.wf(),
        spec_decode(m.memory[m.pc as int]) == Inst::Add(n),
    ensures
        spec_step(m) is Ok,
        ({
            let post = spec_step(m)->Ok_0;
            &&& (-128 <= m.register + n <= 127 ==> post.register == m.register + n)
            &&& (m.register + n > 127 ==> post.register == m.register + n - 256)
            &&& (m.register + n < -128 ==> post.register == m.register + n + 256)
            &&& (m.register == 127 && n == 1 ==> post.register == -128)
            &&& post.memory == m.memory
            &&& post.bcd == m.bcd
            &&& post.pc == pc_next(m.pc)
        }),
{
}

/// Law: self-modification. Whenever the cell under the program counter
/// decodes to `Shl(k)`, the cycle succeeds and shifts cell `k` left by one
/// bit in place; since memory is unified code and data, any later fetch from
/// cell `k` decodes the shifted byte, so when the shift changes the byte's
/// decoding, the instruction fetched on the next visit to that cell differs
/// from the one fetched before.
pub proof fn lemma_self_modification(m: CpuModel, k: u8)
    requires
        m.wf(),
        spec_decode(m.memory[m.pc as int]) == Inst::Shl(k),
    ensures
        spec_step(m) is Ok,
        k < 16,
        ({
            let post = spec_step(m)->Ok_0;
            &&& post.memory == m.memory.update(k as int, shl1(m.memory[k as int]))
            &&& post.memory[k as int] == shl1(m.memory[k as int])
            &&& (spec_decode(shl1(m.memory[k as int])) != spec_decode(m.memory[k as int])
                ==> spec_decode(post.memory[k as int]) != spec_decode(m.memory[k as int]))
        }),
{
    crate::codec::lemma_decode_total(m.memory[m.pc as int]);
}

/// Law: unified memory addressing, reading side. `Disp(n)` and `Load(n)`
/// can address any of the 16 cells — the decoder never produces an operand
/// outside them — including cells holding program code: the byte copied into
/// the display latch or the register is exactly the addressed cell, whatever
/// it holds, and memory itself is untouched.
pub proof fn lemma_read_any_cell(m: CpuModel)
    requires
        m.wf(),
    ensures
        spec_decode(m.memory[m.pc as int]) matches Inst::Disp(n) ==> 0 <= n <= 15 && spec_step(m)
            is Ok && ({
            let post = spec_step(m)->Ok_0;
            &&& post.bcd == m.memory[n as int]
            &&& post.memory == m.memory
            &&& post.register == m.register
            &&& post.pc == pc_next(m.pc)
        }),
        spec_decode(m.memory[m.pc as int]) matches Inst::Load(n) ==> 0 <= n <= 15 && spec_step(m)
            is Ok && ({
            let post = spec_step(m)->Ok_0;
            &&& post.register == m.memory[n as int]
            &&& post.memory == m.memory
            &&& post.bcd == m.bcd
            &&& post.pc == pc_next(m.pc)
        }),
{
    crate::codec::lemma_decode_total(m.memory[m.pc as int]);
}

/// Law: unified memory addressing, writing side. `Str(n)` can write any of
/// the 16 cells, including cells holding program code: afterwards cell `n`
/// holds the register byte and every other cell is unchanged, so a later
/// fetch from cell `n` decodes the stored register value.
pub proof fn lemma_write_any_cell(m: CpuModel, n: i8)
    requires
        m.wf(),
        spec_decode(m.memory[m.pc as int]) == Inst::Str(n),
    ensures
        spec_step(m) is Ok,
        0 <= n <= 15,
        ({
            let post = spec_step(m)->Ok_0;
            &&& post.memory == m.memory.update(n as int, m.register)
            &&& post.memory[n as int] == m.register
            &&& spec_decode(post.memory[n as int]) == spec_decode(m.register)
            &&& (forall|j: int| 0 <= j < 16 && j != n ==> post.memory[j] == m.memory[j])
            &&& post.register == m.register
            &&& post.bcd == m.bcd
            &&& post.pc == pc_next(m.pc)
        }),
{
    crate::codec::lemma_decode_total(m.memory[m.pc as int]);
}

} // verus!
