//! The base integer instruction set as operations on a hart's registers.

use vstd::prelude::*;
use crate::hart::{Fault, Hart, HartView};
use crate::isa::{compute_i, compute_r, Rv32iI, Rv32iR};

verus! {

/// The base RISC-V integer ISA. Each operation reads its sources, computes
/// with wraparound, and writes its destination; a destination of register
/// zero is rejected and leaves the state as it was.
pub trait Rv32i: View<V = HartView> {
    /// The `addi` instruction of type `I`.
    fn op_addi(&mut self, rd: u8, rs1: u8, imm: u16) -> (r: Result<(), Fault>)
        requires
            old(self)@.wf(),
            rd < 32,
            rs1 < 32,
        ensures
            (final(self)@, r) == old(self)@.apply_i(Rv32iI::ADDI, rd, rs1, imm),
    ;

    /// The `add` instruction of type `R`.
    fn op_add(&mut self, rd: u8, rs1: u8, rs2: u8) -> (r: Result<(), Fault>)
        requires
            old(self)@.wf(),
            rd < 32,
            rs1 < 32,
            rs2 < 32,
        ensures
            (final(self)@, r) == old(self)@.apply_r(Rv32iR::ADD, rd, rs1, rs2),
    ;

    /// The `sub` instruction of type `R`.
    fn op_sub(&mut self, rd: u8, rs1: u8, rs2: u8) -> (r: Result<(), Fault>)
        requires
            old(self)@.wf(),
            rd < 32,
            rs1 < 32,
            rs2 < 32,
        ensures
            (final(self)@, r) == old(self)@.apply_r(Rv32iR::SUB, rd, rs1, rs2),
    ;

    /// The `sll` instruction of type `R`.
    fn op_sll(&mut self, rd: u8, rs1: u8, rs2: u8) -> (r: Result<(), Fault>)
        requires
            old(self)@.wf(),
            rd < 32,
            rs1 < 32,
            rs2 < 32,
        ensures
            (final(self)@, r) == old(self)@.apply_r(Rv32iR::SLL, rd, rs1, rs2),
    ;

    /// The `sltu` instruction of type `R`.
    fn op_sltu(&mut self, rd: u8, rs1: u8, rs2: u8) -> (r: Result<(), Fault>)
        requires
            old(self)@.wf(),
            rd < 32,
            rs1 < 32,
            rs2 < 32,
        ensures
            (final(self)@, r) == old(self)@.apply_r(Rv32iR::SLTU, rd, rs1, rs2),
    ;

    /// The `xor` instruction of type `R`.
    fn op_xor(&mut self, rd: u8, rs1: u8, rs2: u8) -> (r: Result<(), Fault>)
        requires
            old(self)@.wf(),
            rd < 32,
            rs1 < 32,
            rs2 < 32,
        ensures
            (final(self)@, r) == old(self)@.apply_r(Rv32iR::XOR, rd, rs1, rs2),
    ;

    /// The `srl` instruction of type `R`.
    fn op_srl(&mut self, rd: u8, rs1: u8, rs2: u8) -> (r: Result<(), Fault>)
        requires
            old(self)@.wf(),
            rd < 32,
            rs1 < 32,
            rs2 < 32,
        ensures
            (final(self)@, r) == old(self)@.apply_r(Rv32iR::SRL, rd, rs1, rs2),
    ;

    /// The `or` instruction of type `R`.
    fn op_or(&mut self, rd: u8, rs1: u8, rs2: u8) -> (r: Result<(), Fault>)
        requires
            old(self)@.wf(),
            rd < 32,
            rs1 < 32,
            rs2 < 32,
        ensures
            (final(self)@, r) == old(self)@.apply_r(Rv32iR::OR, rd, rs1, rs2),
    ;

    /// The `and` instruction of type `R`.
    fn op_and(&mut self, rd: u8, rs1: u8, rs2: u8) -> (r: Result<(), Fault>)
        requires
            old(self)@.wf(),
            rd < 32,
            rs1 < 32,
            rs2 < 32,
        ensures
            (final(self)@, r) == old(self)@.apply_r(Rv32iR::AND, rd, rs1, rs2),
    ;
}

impl Hart {
    fn op_reg(&mut self, op: Rv32iR, rd: u8, rs1: u8, rs2: u8) -> (r: Result<(), Fault>)
        requires
            old(self)@.wf(),
            rd < 32,
            rs1 < 32,
            rs2 < 32,
        ensures
            (final(self)@, r) == old(self)@.apply_r(op, rd, rs1, rs2),
    {
        let v1 = self.read_reg(rs1);
        let v2 = self.read_reg(rs2);
        self.write_reg(rd, compute_r(op, v1, v2))
    }
}

impl Rv32i for Hart {
    fn op_addi(&mut self, rd: u8, rs1: u8, imm: u16) -> (r: Result<(), Fault>) {
        let r_val = self.read_reg(rs1);
        self.write_reg(rd, compute_i(Rv32iI::ADDI, r_val, imm))
    }

    fn op_add(&mut self, rd: u8, rs1: u8, rs2: u8) -> (r: Result<(), Fault>) {
        self.op_reg(Rv32iR::ADD, rd, rs1, rs2)
    }

    fn op_sub(&mut self, rd: u8, rs1: u8, rs2: u8) -> (r: Result<(), Fault>) {
        self.op_reg(Rv32iR::SUB, rd, rs1, rs2)
    }

    fn op_sll(&mut self, rd: u8, rs1: u8, rs2: u8) -> (r: Result<(), Fault>) {
        self.op_reg(Rv32iR::SLL, rd, rs1, rs2)
    }

    fn op_sltu(&mut self, rd: u8, rs1: u8, rs2: u8) -> (r: Result<(), Fault>) {
        self.op_reg(Rv32iR::SLTU, rd, rs1, rs2)
    }

    fn op_xor(&mut self, rd: u8, rs1: u8, rs2: u8) -> (r: Result<(), Fault>) {
        self.op_reg(Rv32iR::XOR, rd, rs1, rs2)
    }

    fn op_srl(&mut self, rd: u8, rs1: u8, rs2: u8) -> (r: Result<(), Fault>) {
        self.op_reg(Rv32iR::SRL, rd, rs1, rs2)
    }

    fn op_or(&mut self, rd: u8, rs1: u8, rs2: u8) -> (r: Result<(), Fault>) {
        self.op_reg(Rv32iR::OR, rd, rs1, rs2)
    }

    fn op_and(&mut self, rd: u8, rs1: u8, rs2: u8) -> (r: Result<(), Fault>) {
        self.op_reg(Rv32iR::AND, rd, rs1, rs2)
    }
}

} // verus!
