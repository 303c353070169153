//! Properties that hold of every input: the decoder against the encoder,
//! the register file, and the arithmetic of the operations.

use vstd::prelude::*;
use crate::hart::{fetchable, run_from, word_at, Fault, HartView};
use crate::isa::{
    decoded, r_operation, r_value, reg_modulus, shamt, InstType, Rv32iI, Rv32iR, OP_IMM, OP_REG,
};

verus! {

/// The `(funct3, funct7)` pair that selects an R-shape operation.
pub open spec fn r_functs(op: Rv32iR) -> (u32, u32) {
    match op {
        Rv32iR::ADD => (0, 0),
        Rv32iR::SUB => (0, 0x20),
        Rv32iR::SLL => (1, 0),
        Rv32iR::SLTU => (3, 0),
        Rv32iR::XOR => (4, 0),
        Rv32iR::SRL => (5, 0),
        Rv32iR::OR => (6, 0),
        Rv32iR::AND => (7, 0),
    }
}

/// Packs the fields of an R-shape word.
pub open spec fn pack_r(opcode: u32, rd: u32, funct3: u32, rs1: u32, rs2: u32, funct7: u32) -> u32 {
    opcode | (rd << 7u32) | (funct3 << 12u32) | (rs1 << 15u32) | (rs2 << 20u32) | (funct7 << 25u32)
}

/// Packs the fields of an I-shape word.
pub open spec fn pack_i(opcode: u32, rd: u32, funct3: u32, rs1: u32, imm: u32) -> u32 {
    opcode | (rd << 7u32) | (funct3 << 12u32) | (rs1 << 15u32) | (imm << 20u32)
}

/// The word that encodes R-shape operation `op` on the given registers.
pub open spec fn encode_r(op: Rv32iR, rd: u8, rs1: u8, rs2: u8) -> u32 {
    pack_r(OP_REG, rd as u32, r_functs(op).0, rs1 as u32, rs2 as u32, r_functs(op).1)
}

/// The word that encodes `addi rd, rs1, imm`, `imm` being the raw 12-bit
/// field.
pub open spec fn encode_addi(rd: u8, rs1: u8, imm: u16) -> u32 {
    pack_i(OP_IMM, rd as u32, 0, rs1 as u32, imm as u32)
}

proof fn lemma_unpack_r(opcode: u32, rd: u32, funct3: u32, rs1: u32, rs2: u32, funct7: u32)
    by (bit_vector)
    requires
        opcode < 0x80,
        rd < 32,
        funct3 < 8,
        rs1 < 32,
        rs2 < 32,
        funct7 < 0x80,
    ensures
        pack_r(opcode, rd, funct3, rs1, rs2, funct7) & 0x7f == opcode,
        (pack_r(opcode, rd, funct3, rs1, rs2, funct7) >> 7u32) & 0x1f == rd,
        (pack_r(opcode, rd, funct3, rs1, rs2, funct7) >> 12u32) & 0x7 == funct3,
        (pack_r(opcode, rd, funct3, rs1, rs2, funct7) >> 15u32) & 0x1f == rs1,
        (pack_r(opcode, rd, funct3, rs1, rs2, funct7) >> 20u32) & 0x1f == rs2,
        pack_r(opcode, rd, funct3, rs1, rs2, funct7) >> 25u32 == funct7,
{
}

proof fn lemma_unpack_i(opcode: u32, rd: u32, funct3: u32, rs1: u32, imm: u32)
    by (bit_vector)
    requires
        opcode < 0x80,
        rd < 32,
        funct3 < 8,
        rs1 < 32,
        imm < 0x1000,
    ensures
        pack_i(opcode, rd, funct3, rs1, imm) & 0x7f == opcode,
        (pack_i(opcode, rd, funct3, rs1, imm) >> 7u32) & 0x1f == rd,
        (pack_i(opcode, rd, funct3, rs1, imm) >> 12u32) & 0x7 == funct3,
        (pack_i(opcode, rd, funct3, rs1, imm) >> 15u32) & 0x1f == rs1,
        pack_i(opcode, rd, funct3, rs1, imm) >> 20u32 == imm,
{
}

/// Decoding the encoding of any supported R-shape operation, with any
/// registers, gives back exactly that operation, those registers and the
/// operation's `funct3` and `funct7`.
pub proof fn decode_encode_r(op: Rv32iR, rd: u8, rs1: u8, rs2: u8)
    requires
        rd < 32,
        rs1 < 32,
        rs2 < 32,
    ensures
        r_operation(r_functs(op).0, r_functs(op).1) == Some(op),
        decoded(encode_r(op, rd, rs1, rs2)) == InstType::R(
            op,
            rd,
            r_functs(op).0 as u8,
            rs1,
            rs2,
            r_functs(op).1 as u8,
        ),
{
    lemma_unpack_r(OP_REG, rd as u32, r_functs(op).0, rs1 as u32, rs2 as u32, r_functs(op).1);
}

/// Decoding the encoding of `addi` with any registers and any 12-bit
/// immediate gives back exactly those fields.
pub proof fn decode_encode_addi(rd: u8, rs1: u8, imm: u16)
    requires
        rd < 32,
        rs1 < 32,
        imm < 0x1000,
    ensures
        decoded(encode_addi(rd, rs1, imm)) == InstType::I(Rv32iI::ADDI, rd, 0, rs1, imm),
{
    lemma_unpack_i(OP_IMM, rd as u32, 0, rs1 as u32, imm as u32);
}

/// A write to any register but zero succeeds, and a read of that register
/// then returns the value written.
pub proof fn write_then_read(h: HartView, i: u8, v: u64)
    requires
        h.wf(),
        1 <= i < 32,
    ensures
        h.write(i, v).1 is Ok,
        h.write(i, v).0.wf(),
        h.write(i, v).0.regs[i as int] == v,
{
}

/// Register zero reads as zero whatever write was attempted before.
pub proof fn zero_register_reads_zero(h: HartView, i: u8, v: u64)
    requires
        h.wf(),
        i < 32,
    ensures
        h.write(i, v).0.regs[0] == 0,
        i == 0 ==> h.write(i, v).1 is Err && h.write(i, v).0 == h,
{
}

/// `ADD` and `SUB` wrap around modulo 2^64 instead of faulting.
pub proof fn add_sub_wrap(a: u64, b: u64)
    ensures
        r_value(Rv32iR::ADD, a, b) == (if a + b < reg_modulus() {
            a + b
        } else {
            a + b - reg_modulus()
        }),
        r_value(Rv32iR::SUB, a, b) == (if a >= b {
            a - b
        } else {
            a - b + reg_modulus()
        }),
{
}

/// `SLL` and `SRL` shift by the second source modulo 32, whatever its
/// magnitude.
pub proof fn shift_amount_mod_32(a: u64, b: u64)
    ensures
        r_value(Rv32iR::SLL, a, b) == a << ((b % 32) as u64),
        r_value(Rv32iR::SRL, a, b) == a >> ((b % 32) as u64),
        r_value(Rv32iR::SLL, a, b) == r_value(Rv32iR::SLL, a, (b % 32) as u64),
        r_value(Rv32iR::SRL, a, b) == r_value(Rv32iR::SRL, a, (b % 32) as u64),
{
    assert(b & 0x1f == b % 32) by (bit_vector);
    let m = (b % 32) as u64;
    assert(m & 0x1f == m) by (bit_vector)
        requires
            m < 32,
    ;
    assert(shamt(b) == m);
}

/// A run that reaches a word outside the supported table stops there with a
/// decode fault naming that word, the registers as they were.
pub proof fn unknown_word_stops_run(regs: Seq<u64>, pc: nat, code: Seq<u8>)
    requires
        pc % 4 == 0,
        pc + 4 <= code.len(),
        pc < 0x1_0000_0000_0000_0000,
        decoded(word_at(code, pc as int)) == InstType::UNK,
    ensures
        run_from(regs, pc, code) == (
            regs,
            pc + 4,
            Err::<(), Fault>(Fault::Decode { pc: pc as u64, word: word_at(code, pc as int) }),
        ),
{
}

/// From an aligned address inside the buffer, a run ends without fault only
/// when the buffer is a whole number of words, and a bounds fault comes
/// exactly at the address of the trailing partial word.
pub proof fn bounds_fault_at_partial_word(regs: Seq<u64>, pc: nat, code: Seq<u8>)
    requires
        pc % 4 == 0,
        pc <= code.len(),
        code.len() < 0x1_0000_0000_0000_0000,
    ensures
        run_from(regs, pc, code).2 is Ok ==> code.len() % 4 == 0,
        run_from(regs, pc, code).2 matches Err(Fault::Bounds { pc: p }) ==> code.len() % 4 != 0
            && p == code.len() - code.len() % 4,
    decreases code.len() - pc,
{
    if pc < code.len() && fetchable(code.len() as int, pc as int) {
        let word = word_at(code, pc as int);
        match crate::hart::execute_spec(regs, decoded(word), pc as u64, word) {
            Ok(next) => bounds_fault_at_partial_word(next, pc + 4, code),
            Err(_) => {},
        }
    }
}

} // verus!
