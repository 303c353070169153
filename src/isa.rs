//! Instruction encodings of the supported subset, the pure decoder that maps
//! a 32-bit instruction word to a tagged instruction value, and the value
//! each operation computes.

use vstd::prelude::*;

verus! {

/// Register-register operations (R-shape, major opcode `0x33`).
#[allow(clippy::upper_case_acronyms)]
#[derive(Debug, Clone, Copy, PartialEq, Eq, Structural)]
pub enum Rv32iR {
    ADD,
    SUB,
    SLL,
    SLTU,
    XOR,
    SRL,
    OR,
    AND,
}

/// Register-immediate operations (I-shape, major opcode `0x13`).
#[allow(clippy::upper_case_acronyms)]
#[derive(Debug, Clone, Copy, PartialEq, Eq, Structural)]
pub enum Rv32iI {
    ADDI,
}

/// Various instruction encoding shapes used by RISC-V.
#[allow(clippy::upper_case_acronyms)]
#[derive(Debug, Clone, Copy, PartialEq, Eq, Structural)]
pub enum InstType {
    /// The `R` shape, written `R(operation, rd, funct3, rs1, rs2, funct7)`.
    R(Rv32iR, u8, u8, u8, u8, u8),
    /// The `I` shape, written `I(operation, rd, funct3, rs1, imm)`; `imm`
    /// holds the raw 12-bit immediate field.
    I(Rv32iI, u8, u8, u8, u16),
    /// The `S` shape; not supported by this simulator.
    S,
    /// The `U` shape; not supported by this simulator.
    U,
    /// A word that matches no supported encoding.
    UNK,
}

/// Major opcode of register-immediate operations.
pub const OP_IMM: u32 = 0x13;

/// Major opcode of register-register operations.
pub const OP_REG: u32 = 0x33;

/// Bits 0..=6.
pub open spec fn opcode_field(w: u32) -> u32 {
    w & 0x7f
}

/// Bits 7..=11.
pub open spec fn rd_field(w: u32) -> u32 {
    (w >> 7u32) & 0x1f
}

/// Bits 12..=14.
pub open spec fn funct3_field(w: u32) -> u32 {
    (w >> 12u32) & 0x7
}

/// Bits 15..=19.
pub open spec fn rs1_field(w: u32) -> u32 {
    (w >> 15u32) & 0x1f
}

/// Bits 20..=24.
pub open spec fn rs2_field(w: u32) -> u32 {
    (w >> 20u32) & 0x1f
}

/// Bits 25..=31.
pub open spec fn funct7_field(w: u32) -> u32 {
    w >> 25u32
}

/// Bits 20..=31, the raw 12-bit immediate of the I shape.
pub open spec fn imm_field(w: u32) -> u32 {
    w >> 20u32
}

/// The R-shape table: which operation a `(funct3, funct7)` pair selects.
pub open spec fn r_operation(funct3: u32, funct7: u32) -> Option<Rv32iR> {
    if funct7 == 0 {
        if funct3 == 0 {
            Some(Rv32iR::ADD)
        } else if funct3 == 1 {
            Some(Rv32iR::SLL)
        } else if funct3 == 3 {
            Some(Rv32iR::SLTU)
        } else if funct3 == 4 {
            Some(Rv32iR::XOR)
        } else if funct3 == 5 {
            Some(Rv32iR::SRL)
        } else if funct3 == 6 {
            Some(Rv32iR::OR)
        } else if funct3 == 7 {
            Some(Rv32iR::AND)
        } else {
            None
        }
    } else if funct7 == 0x20 && funct3 == 0 {
        Some(Rv32iR::SUB)
    } else {
        None
    }
}

/// The I-shape table: which operation a `funct3` selects.
pub open spec fn i_operation(funct3: u32) -> Option<Rv32iI> {
    if funct3 == 0 {
        Some(Rv32iI::ADDI)
    } else {
        None
    }
}

/// What a 32-bit instruction word decodes to.
pub open spec fn decoded(w: u32) -> InstType {
    if opcode_field(w) == OP_IMM {
        match i_operation(funct3_field(w)) {
            Some(op) => InstType::I(
                op,
                rd_field(w) as u8,
                funct3_field(w) as u8,
                rs1_field(w) as u8,
                imm_field(w) as u16,
            ),
            None => InstType::UNK,
        }
    } else if opcode_field(w) == OP_REG {
        match r_operation(funct3_field(w), funct7_field(w)) {
            Some(op) => InstType::R(
                op,
                rd_field(w) as u8,
                funct3_field(w) as u8,
                rs1_field(w) as u8,
                rs2_field(w) as u8,
                funct7_field(w) as u8,
            ),
            None => InstType::UNK,
        }
    } else {
        InstType::UNK
    }
}

fn r_lookup(funct3: u32, funct7: u32) -> (r: Option<Rv32iR>)
    ensures
        r == r_operation(funct3, funct7),
{
    if funct7 == 0 {
        match funct3 {
            0 => Some(Rv32iR::ADD),
            1 => Some(Rv32iR::SLL),
            3 => Some(Rv32iR::SLTU),
            4 => Some(Rv32iR::XOR),
            5 => Some(Rv32iR::SRL),
            6 => Some(Rv32iR::OR),
            7 => Some(Rv32iR::AND),
            _ => None,
        }
    } else if funct7 == 0x20 && funct3 == 0 {
        Some(Rv32iR::SUB)
    } else {
        None
    }
}

impl InstType {
    /// Decodes one instruction word; any word outside the supported table
    /// gives `UNK`.
    pub fn which(inst: u32) -> (r: InstType)
        ensures
            r == decoded(inst),
    {
        let opcode = inst & 0x7f;
        let rd = (inst >> 7u32) & 0x1f;
        let funct3 = (inst >> 12u32) & 0x7;
        let rs1 = (inst >> 15u32) & 0x1f;
        if opcode == OP_IMM {
            let imm = inst >> 20u32;
            if funct3 == 0 {
                InstType::I(Rv32iI::ADDI, rd as u8, funct3 as u8, rs1 as u8, imm as u16)
            } else {
                InstType::UNK
            }
        } else if opcode == OP_REG {
            let funct7 = inst >> 25u32;
            let rs2 = (inst >> 20u32) & 0x1f;
            match r_lookup(funct3, funct7) {
                Some(op) => InstType::R(op, rd as u8, funct3 as u8, rs1 as u8, rs2 as u8, funct7 as u8),
                None => InstType::UNK,
            }
        } else {
            InstType::UNK
        }
    }
}

/// One more than the largest register value: arithmetic wraps modulo this.
pub open spec fn reg_modulus() -> int {
    0x1_0000_0000_0000_0000
}

/// Reduces an integer to a register value, modulo 2^64.
pub open spec fn wrap(v: int) -> u64 {
    (v % reg_modulus()) as u64
}

/// The low 12 bits of `imm`, read as a two's-complement number and
/// sign-extended to the register width.
pub open spec fn sign_extend_imm(imm: u16) -> u64 {
    let low = imm as int % 4096;
    if low < 2048 {
        low as u64
    } else {
        (low - 4096 + reg_modulus()) as u64
    }
}

/// The shift amount that a register value selects: its low five bits.
pub open spec fn shamt(v: u64) -> u64 {
    v & 0x1f
}

/// The value that an R-shape operation computes from its two sources.
pub open spec fn r_value(op: Rv32iR, a: u64, b: u64) -> u64 {
    match op {
        Rv32iR::ADD => wrap(a + b),
        Rv32iR::SUB => wrap(a - b),
        Rv32iR::SLL => a << shamt(b),
        Rv32iR::SLTU => if a < b {
            1
        } else {
            0
        },
        Rv32iR::XOR => a ^ b,
        Rv32iR::SRL => a >> shamt(b),
        Rv32iR::OR => a | b,
        Rv32iR::AND => a & b,
    }
}

/// The value that an I-shape operation computes from its source and raw
/// immediate.
pub open spec fn i_value(op: Rv32iI, a: u64, imm: u16) -> u64 {
    match op {
        Rv32iI::ADDI => wrap(a + sign_extend_imm(imm)),
    }
}

/// Sign-extends the low 12 bits of a raw immediate.
pub fn sign_extend(imm: u16) -> (r: u64)
    ensures
        r == sign_extend_imm(imm),
{
    let low = (imm % 4096) as u64;
    if low < 2048 {
        low
    } else {
        low + 0xffff_ffff_ffff_f000
    }
}

/// Computes an R-shape operation.
pub fn compute_r(op: Rv32iR, a: u64, b: u64) -> (r: u64)
    ensures
        r == r_value(op, a, b),
{
    let s = b & 0x1f;
    assert(s < 32) by (bit_vector)
        requires
            s == b & 0x1f,
    ;
    match op {
        Rv32iR::ADD => a.wrapping_add(b),
        Rv32iR::SUB => a.wrapping_sub(b),
        Rv32iR::SLL => a << s,
        Rv32iR::SLTU => if a < b {
            1
        } else {
            0
        },
        Rv32iR::XOR => a ^ b,
        Rv32iR::SRL => a >> s,
        Rv32iR::OR => a | b,
        Rv32iR::AND => a & b,
    }
}

/// Computes an I-shape operation.
pub fn compute_i(op: Rv32iI, a: u64, imm: u16) -> (r: u64)
    ensures
        r == i_value(op, a, imm),
{
    match op {
        Rv32iI::ADDI => a.wrapping_add(sign_extend(imm)),
    }
}

} // verus!
