use atom_riscv::{compute_i, compute_r, sign_extend, InstType, Rv32iI, Rv32iR};

fn r_word(f3: u32, f7: u32, rd: u32, rs1: u32, rs2: u32) -> u32 {
    0x33 | rd << 7 | f3 << 12 | rs1 << 15 | rs2 << 20 | f7 << 25
}

#[test]
fn decode_every_r_operation() {
    let table = [
        (0, 0, Rv32iR::ADD),
        (0, 0x20, Rv32iR::SUB),
        (1, 0, Rv32iR::SLL),
        (3, 0, Rv32iR::SLTU),
        (4, 0, Rv32iR::XOR),
        (5, 0, Rv32iR::SRL),
        (6, 0, Rv32iR::OR),
        (7, 0, Rv32iR::AND),
    ];
    for (f3, f7, op) in table {
        let w = r_word(f3, f7, 31, 17, 5);
        assert_eq!(
            InstType::which(w),
            InstType::R(op, 31, f3 as u8, 17, 5, f7 as u8)
        );
    }
}

#[test]
fn decode_addi() {
    assert_eq!(InstType::which(0x0050_0093), InstType::I(Rv32iI::ADDI, 1, 0, 0, 5));
    assert_eq!(
        InstType::which(0xfff0_8113),
        InstType::I(Rv32iI::ADDI, 2, 0, 1, 0xfff)
    );
    assert_eq!(
        InstType::which(0x0010_8133),
        InstType::R(Rv32iR::ADD, 2, 0, 1, 1, 0)
    );
}

#[test]
fn decode_unknown_words() {
    assert_eq!(InstType::which(r_word(2, 0, 1, 2, 3)), InstType::UNK);
    assert_eq!(InstType::which(r_word(1, 0x20, 1, 2, 3)), InstType::UNK);
    assert_eq!(InstType::which(r_word(0, 0x01, 1, 2, 3)), InstType::UNK);
    assert_eq!(InstType::which(0x0000_1013), InstType::UNK);
    assert_eq!(InstType::which(0x0000_0023), InstType::UNK);
    assert_eq!(InstType::which(0), InstType::UNK);
}

#[test]
fn compute_values() {
    assert_eq!(compute_r(Rv32iR::ADD, u64::MAX, 2), 1);
    assert_eq!(compute_r(Rv32iR::SUB, 0, 1), u64::MAX);
    assert_eq!(compute_r(Rv32iR::SLL, 3, 64 + 4), 3 << 4);
    assert_eq!(compute_r(Rv32iR::SRL, 0x100, 36), 0x10);
    assert_eq!(compute_r(Rv32iR::SLTU, 1, u64::MAX), 1);
    assert_eq!(compute_i(Rv32iI::ADDI, 10, 0xffe), 8);
    assert_eq!(sign_extend(0x800), 0xffff_ffff_ffff_f800);
    assert_eq!(sign_extend(0x7ff), 0x7ff);
    assert_eq!(sign_extend(0xf001), 1);
}
