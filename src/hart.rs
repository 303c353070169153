//! The hardware thread: register file, program counter, instruction buffer,
//! and the fetch–decode–execute loop.

use vstd::prelude::*;
use crate::base_isa::Rv32i;
use crate::isa::{decoded, i_value, r_value, InstType, Rv32iI, Rv32iR};

verus! {

/// A RISC-V hardware thread.
/// Contains its own registers and program counter.
pub struct Hart {
    /// 32 general purpose registers.
    x: [u64; 32],
    /// Byte address of the next instruction.
    pc: u64,
    /// The application code that the hart is going to execute.
    code: Option<Vec<u8>>,
}

/// The abstract state of a hart.
pub struct HartView {
    pub regs: Seq<u64>,
    pub pc: u64,
    pub code: Option<Seq<u8>>,
}

/// Why a run stopped before the end of its instruction buffer.
#[derive(Debug, Clone, Copy, PartialEq, Eq, Structural)]
pub enum Fault {
    /// A fetch at `pc` that is not 4-byte aligned or whose four bytes do not
    /// all lie in the buffer.
    Bounds { pc: u64 },
    /// The word fetched at `pc` matches no supported encoding.
    Decode { pc: u64, word: u32 },
    /// An attempt to write register zero; `pc` is the address of the
    /// instruction that made it, or the program counter for a direct write.
    ReservedRegisterWrite { pc: u64 },
    /// `run` was called on a hart built without a program.
    MissingProgram,
}

/// A register access.
pub enum RWreg {
    Read(u8),
    Write(u8, u64),
}

impl HartView {
    /// Register zero reads as zero and the program counter is aligned.
    pub open spec fn wf(self) -> bool {
        &&& self.regs.len() == 32
        &&& self.regs[0] == 0
        &&& self.pc % 4 == 0
    }

    /// The state and result of writing `v` to register `rd`: writes to
    /// register zero are rejected and change nothing.
    pub open spec fn write(self, rd: u8, v: u64) -> (HartView, Result<(), Fault>) {
        if rd == 0 {
            (self, Err(Fault::ReservedRegisterWrite { pc: self.pc }))
        } else {
            (HartView { regs: self.regs.update(rd as int, v), pc: self.pc, code: self.code }, Ok(()))
        }
    }

    /// The state and result of an R-shape operation.
    pub open spec fn apply_r(self, op: Rv32iR, rd: u8, rs1: u8, rs2: u8) -> (
        HartView,
        Result<(), Fault>,
    ) {
        self.write(rd, r_value(op, self.regs[rs1 as int], self.regs[rs2 as int]))
    }

    /// The state and result of an I-shape operation.
    pub open spec fn apply_i(self, op: Rv32iI, rd: u8, rs1: u8, imm: u16) -> (
        HartView,
        Result<(), Fault>,
    ) {
        self.write(rd, i_value(op, self.regs[rs1 as int], imm))
    }
}

/// The little-endian word made of the four bytes at `i`.
pub open spec fn word_at(code: Seq<u8>, i: int) -> u32 {
    (code[i] as int + code[i + 1] as int * 0x100 + code[i + 2] as int * 0x1_0000 + code[i + 3] as int
        * 0x100_0000) as u32
}

/// Whether a fetch at `pc` lies wholly in a buffer of `len` bytes and is
/// aligned.
pub open spec fn fetchable(len: int, pc: int) -> bool {
    pc % 4 == 0 && pc + 4 <= len
}

/// The register file after executing `inst`, fetched as `word` at `pc`, or
/// the fault that stops it.
pub open spec fn execute_spec(regs: Seq<u64>, inst: InstType, pc: u64, word: u32) -> Result<
    Seq<u64>,
    Fault,
> {
    match inst {
        InstType::R(op, rd, _, rs1, rs2, _) => if rd == 0 {
            Err(Fault::ReservedRegisterWrite { pc })
        } else {
            Ok(regs.update(rd as int, r_value(op, regs[rs1 as int], regs[rs2 as int])))
        },
        InstType::I(op, rd, _, rs1, imm) => if rd == 0 {
            Err(Fault::ReservedRegisterWrite { pc })
        } else {
            Ok(regs.update(rd as int, i_value(op, regs[rs1 as int], imm)))
        },
        _ => Err(Fault::Decode { pc, word }),
    }
}

/// Runs the program `code` from `pc` with registers `regs`: the final
/// registers, the final program counter, and how the run ended.
pub open spec fn run_from(regs: Seq<u64>, pc: nat, code: Seq<u8>) -> (Seq<u64>, nat, Result<
    (),
    Fault,
>)
    decreases code.len() - pc,
{
    if pc >= code.len() {
        (regs, pc, Ok(()))
    } else if !fetchable(code.len() as int, pc as int) {
        (regs, pc, Err(Fault::Bounds { pc: pc as u64 }))
    } else {
        let word = word_at(code, pc as int);
        match execute_spec(regs, decoded(word), pc as u64, word) {
            Ok(next) => run_from(next, pc + 4, code),
            Err(f) => (regs, pc + 4, Err(f)),
        }
    }
}

proof fn lemma_le_word(b0: u8, b1: u8, b2: u8, b3: u8)
    ensures
        (b0 as u32) | ((b1 as u32) << 8u32) | ((b2 as u32) << 16u32) | ((b3 as u32) << 24u32)
            == (b0 as int + b1 as int * 0x100 + b2 as int * 0x1_0000 + b3 as int * 0x100_0000) as u32,
{
    lemma_le_word_bits(b0, b1, b2, b3);
}

proof fn lemma_le_word_bits(b0: u8, b1: u8, b2: u8, b3: u8)
    by (bit_vector)
    ensures
        (b0 as u32) | ((b1 as u32) << 8u32) | ((b2 as u32) << 16u32) | ((b3 as u32) << 24u32)
            == b0 + b1 * 0x100 + b2 * 0x1_0000 + b3 * 0x100_0000,
{
}

proof fn lemma_fields_bounded(w: u32)
    ensures
        (w >> 7u32) & 0x1f < 32,
        (w >> 15u32) & 0x1f < 32,
        (w >> 20u32) & 0x1f < 32,
{
    assert((w >> 7u32) & 0x1f < 32) by (bit_vector);
    assert((w >> 15u32) & 0x1f < 32) by (bit_vector);
    assert((w >> 20u32) & 0x1f < 32) by (bit_vector);
}

impl View for Hart {
    type V = HartView;

    closed spec fn view(&self) -> HartView {
        HartView {
            regs: self.x@,
            pc: self.pc,
            code: match self.code {
                Some(c) => Some(c@),
                None => None,
            },
        }
    }
}

impl Hart {
    /// Create a new hart (hardware thread).
    /// `code` - the code the thread is going to execute.
    pub fn new(code: Option<Vec<u8>>) -> (r: Self)
        ensures
            r@.wf(),
            r@.regs == Seq::new(32, |i: int| 0u64),
            r@.pc == 0,
            r@.code == (match code {
                Some(c) => Some(c@),
                None => None::<Seq<u8>>,
            }),
    {
        let r = Hart { x: [0; 32], pc: 0, code };
        assert(r@.regs =~= Seq::new(32, |i: int| 0u64));
        r
    }

    /// Whether the program counter has passed the end of the program.
    pub fn is_halted(&self) -> (r: bool)
        ensures
            r == (self@.code is Some && self@.pc >= self@.code.unwrap().len()),
    {
        match &self.code {
            Some(c) => self.pc >= c.len() as u64,
            None => false,
        }
    }

    /// The byte address of the next instruction.
    pub fn pc(&self) -> (r: u64)
        ensures
            r == self@.pc,
    {
        self.pc
    }

    /// Fetch the next instruction.
    fn fetch(&self) -> (r: Result<u32, Fault>)
        requires
            self@.code is Some,
        ensures
            fetchable(self@.code.unwrap().len() as int, self@.pc as int) ==> r == Ok::<u32, Fault>(
                word_at(self@.code.unwrap(), self@.pc as int),
            ),
            !fetchable(self@.code.unwrap().len() as int, self@.pc as int) ==> r == Err::<u32, Fault>(
                Fault::Bounds { pc: self@.pc },
            ),
    {
        let code = match &self.code {
            Some(c) => c,
            None => {
                return Err(Fault::MissingProgram);
            },
        };
        let len = code.len() as u64;
        if self.pc % 4 != 0 || self.pc >= len || len - self.pc < 4 {
            return Err(Fault::Bounds { pc: self.pc });
        }
        let idx = self.pc as usize;
        proof {
            lemma_le_word(code@[idx as int], code@[idx + 1], code@[idx + 2], code@[idx + 3]);
        }
        let word = (code[idx] as u32) | (code[idx + 1] as u32) << 8u32 | (code[idx + 2] as u32)
            << 16u32 | (code[idx + 3] as u32) << 24u32;
        Ok(word)
    }

    fn decode(&self, inst: u32) -> (r: InstType)
        ensures
            r == decoded(inst),
    {
        InstType::which(inst)
    }
    /// Read and write to the registers using the `RWreg`.
    pub fn reg_rw(&mut self, op: RWreg) -> (r: Result<Option<u64>, Fault>)
        requires
            old(self)@.wf(),
            match op {
                RWreg::Read(i) => i < 32,
                RWreg::Write(i, _) => i < 32,
            },
        ensures
            match op {
                RWreg::Read(i) => r == Ok::<Option<u64>, Fault>(Some(old(self)@.regs[i as int]))
                    && final(self)@ == old(self)@,
                RWreg::Write(i, v) => final(self)@ == old(self)@.write(i, v).0 && r == (match old(
                    self,
                )@.write(i, v).1 {
                    Ok(_) => Ok::<Option<u64>, Fault>(None),
                    Err(e) => Err(e),
                }),
            },
    {
        match op {
            RWreg::Read(i) => Ok(Some(self.x[i as usize])),
            RWreg::Write(0, _) => Err(Fault::ReservedRegisterWrite { pc: self.pc }),
            RWreg::Write(i, v) => {
                self.x[i as usize] = v;
                proof {
                    assert(self@.regs =~= old(self)@.write(i, v).0.regs);
                }
                Ok(None)
            },
        }
    }

    /// The value of register `reg`; register zero always reads as zero.
    pub fn read_reg(&mut self, reg: u8) -> (r: u64)
        requires
            old(self)@.wf(),
            reg < 32,
        ensures
            r == old(self)@.regs[reg as int],
            final(self)@ == old(self)@,
    {
        match self.reg_rw(RWreg::Read(reg)) {
            Ok(Some(v)) => v,
            _ => 0,
        }
    }

    /// Writes `val` to register `reg`; a write to register zero is rejected
    /// and changes nothing.
    pub fn write_reg(&mut self, reg: u8, val: u64) -> (r: Result<(), Fault>)
        requires
            old(self)@.wf(),
            reg < 32,
        ensures
            (final(self)@, r) == old(self)@.write(reg, val),
            final(self)@.wf(),
    {
        match self.reg_rw(RWreg::Write(reg, val)) {
            Ok(_) => Ok(()),
            Err(e) => Err(e),
        }
    }
    /// Executes one decoded instruction that was fetched as `word` at `pc`.
    fn execute(&mut self, inst: InstType, pc: u64, word: u32) -> (r: Result<(), Fault>)
        requires
            old(self)@.wf(),
            inst == decoded(word),
        ensures
            final(self)@.wf(),
            final(self)@.pc == old(self)@.pc,
            final(self)@.code == old(self)@.code,
            match execute_spec(old(self)@.regs, inst, pc, word) {
                Ok(regs) => r is Ok && final(self)@.regs == regs,
                Err(f) => r == Err::<(), Fault>(f) && final(self)@.regs == old(self)@.regs,
            },
    {
        proof {
            lemma_fields_bounded(word);
        }
        let done = match inst {
            InstType::R(op, rd, _funct3, rs1, rs2, _funct7) => match op {
                Rv32iR::ADD => self.op_add(rd, rs1, rs2),
                Rv32iR::SUB => self.op_sub(rd, rs1, rs2),
                Rv32iR::SLL => self.op_sll(rd, rs1, rs2),
                Rv32iR::XOR => self.op_xor(rd, rs1, rs2),
                Rv32iR::SRL => self.op_srl(rd, rs1, rs2),
                Rv32iR::SLTU => self.op_sltu(rd, rs1, rs2),
                Rv32iR::AND => self.op_and(rd, rs1, rs2),
                Rv32iR::OR => self.op_or(rd, rs1, rs2),
            },
            InstType::I(op, rd, _funct3, rs1, imm) => match op {
                Rv32iI::ADDI => self.op_addi(rd, rs1, imm),
            },
            _ => {
                return Err(Fault::Decode { pc, word });
            },
        };
        match done {
            Ok(()) => Ok(()),
            Err(_) => Err(Fault::ReservedRegisterWrite { pc }),
        }
    }

    /// Runs the program to the end of its instruction buffer, or to the
    /// first fault.
    pub fn run(&mut self) -> (r: Result<(), Fault>)
        requires
            old(self)@.wf(),
        ensures
            final(self)@.wf(),
            final(self)@.code == old(self)@.code,
            match old(self)@.code {
                None => r == Err::<(), Fault>(Fault::MissingProgram) && final(self)@ == old(self)@,
                Some(code) => {
                    let (regs, pc, res) = run_from(old(self)@.regs, old(self)@.pc as nat, code);
                    &&& final(self)@.regs == regs
                    &&& final(self)@.pc as nat == pc
                    &&& r == res
                },
            },
    {
        let len = match &self.code {
            Some(c) => c.len() as u64,
            None => {
                return Err(Fault::MissingProgram);
            },
        };
        let ghost code = self@.code.unwrap();
        let ghost target = run_from(old(self)@.regs, old(self)@.pc as nat, code);
        while self.pc < len
            invariant
                self@.wf(),
                self@.code == old(self)@.code,
                self@.code == Some(code),
                len == code.len(),
                target == run_from(old(self)@.regs, old(self)@.pc as nat, code),
                run_from(self@.regs, self@.pc as nat, code) == target,
            decreases len - self.pc,
        {
            let inst_pc = self.pc;
            let encoded_inst = match self.fetch() {
                Ok(w) => w,
                Err(f) => {
                    return Err(f);
                },
            };
            self.pc = self.pc + 4;
            let decoded_inst = self.decode(encoded_inst);
            match self.execute(decoded_inst, inst_pc, encoded_inst) {
                Ok(()) => {},
                Err(f) => {
                    return Err(f);
                },
            }
        }
        Ok(())
    }
}

} // verus!
