use atom_riscv::{Fault, Hart, RWreg, Rv32i};

fn words(ws: &[u32]) -> Vec<u8> {
    let mut bytes = Vec::new();
    for w in ws {
        bytes.extend_from_slice(&w.to_le_bytes());
    }
    bytes
}

fn all_regs(hart: &mut Hart) -> Vec<u64> {
    (0u8..32).map(|i| hart.read_reg(i)).collect()
}

#[test]
fn test_register_write_to_x9() {
    let mut hart = Hart::new(None);
    assert_eq!(
        hart.reg_rw(RWreg::Write(0, 0x1)),
        Err(Fault::ReservedRegisterWrite { pc: 0 })
    );
    assert_eq!(hart.read_reg(0), 0);
}

#[test]
fn new_hart_is_zeroed() {
    let mut hart = Hart::new(Some(vec![]));
    assert_eq!(all_regs(&mut hart), vec![0u64; 32]);
    assert_eq!(hart.pc(), 0);
    assert!(hart.is_halted());
    assert!(!Hart::new(None).is_halted());
}

#[test]
fn reg_rw_reads_and_writes() {
    let mut hart = Hart::new(None);
    assert_eq!(hart.reg_rw(RWreg::Write(9, 0x1337)), Ok(None));
    assert_eq!(hart.reg_rw(RWreg::Read(9)), Ok(Some(0x1337)));
    assert_eq!(hart.reg_rw(RWreg::Read(0)), Ok(Some(0)));
}

#[test]
fn write_then_read_every_register() {
    let mut hart = Hart::new(None);
    for i in 1u8..32 {
        let v = u64::MAX - i as u64;
        assert_eq!(hart.write_reg(i, v), Ok(()));
        assert_eq!(hart.read_reg(i), v);
    }
    assert_eq!(hart.write_reg(0, 42), Err(Fault::ReservedRegisterWrite { pc: 0 }));
    assert_eq!(hart.read_reg(0), 0);
}

#[test]
fn add_and_sub_wrap_around() {
    let mut hart = Hart::new(None);
    hart.write_reg(1, u64::MAX).unwrap();
    hart.write_reg(2, 1).unwrap();
    hart.op_add(3, 1, 2).unwrap();
    assert_eq!(hart.read_reg(3), 0);
    hart.op_add(4, 1, 1).unwrap();
    assert_eq!(hart.read_reg(4), u64::MAX - 1);
    hart.op_sub(5, 0, 2).unwrap();
    assert_eq!(hart.read_reg(5), u64::MAX);
    hart.op_sub(6, 2, 1).unwrap();
    assert_eq!(hart.read_reg(6), 2);
}

#[test]
fn shifts_take_amount_modulo_32() {
    let mut hart = Hart::new(None);
    hart.write_reg(1, 1).unwrap();
    hart.write_reg(2, 33).unwrap();
    hart.write_reg(3, u64::MAX).unwrap();
    hart.op_sll(4, 1, 2).unwrap();
    assert_eq!(hart.read_reg(4), 2);
    hart.op_srl(5, 3, 2).unwrap();
    assert_eq!(hart.read_reg(5), u64::MAX >> 1);
    hart.write_reg(6, 0xffff_ffff_0000_0020).unwrap();
    hart.op_sll(7, 1, 6).unwrap();
    assert_eq!(hart.read_reg(7), 1);
    hart.write_reg(8, 31).unwrap();
    hart.op_sll(9, 1, 8).unwrap();
    assert_eq!(hart.read_reg(9), 1 << 31);
    hart.op_srl(10, 3, 8).unwrap();
    assert_eq!(hart.read_reg(10), u64::MAX >> 31);
}

#[test]
fn sltu_and_bitwise_ops() {
    let mut hart = Hart::new(None);
    hart.write_reg(1, 0b1100).unwrap();
    hart.write_reg(2, 0b1010).unwrap();
    hart.op_sltu(3, 2, 1).unwrap();
    assert_eq!(hart.read_reg(3), 1);
    hart.op_sltu(4, 1, 2).unwrap();
    assert_eq!(hart.read_reg(4), 0);
    hart.op_sltu(5, 1, 1).unwrap();
    assert_eq!(hart.read_reg(5), 0);
    hart.op_xor(6, 1, 2).unwrap();
    assert_eq!(hart.read_reg(6), 0b0110);
    hart.op_or(7, 1, 2).unwrap();
    assert_eq!(hart.read_reg(7), 0b1110);
    hart.op_and(8, 1, 2).unwrap();
    assert_eq!(hart.read_reg(8), 0b1000);
}

#[test]
fn addi_sign_extends_immediate() {
    let mut hart = Hart::new(None);
    hart.op_addi(1, 0, 0xfff).unwrap();
    assert_eq!(hart.read_reg(1), u64::MAX);
    hart.op_addi(2, 1, 2).unwrap();
    assert_eq!(hart.read_reg(2), 1);
    hart.op_addi(3, 0, 0x800).unwrap();
    assert_eq!(hart.read_reg(3), (-2048i64) as u64);
    hart.op_addi(4, 0, 0x7ff).unwrap();
    assert_eq!(hart.read_reg(4), 2047);
}

#[test]
fn operation_to_x0_is_rejected() {
    let mut hart = Hart::new(None);
    hart.write_reg(1, 7).unwrap();
    assert_eq!(hart.op_add(0, 1, 1), Err(Fault::ReservedRegisterWrite { pc: 0 }));
    assert_eq!(hart.op_addi(0, 1, 1), Err(Fault::ReservedRegisterWrite { pc: 0 }));
    assert_eq!(hart.read_reg(0), 0);
}

#[test]
fn run_addi_then_add() {
    let mut hart = Hart::new(Some(words(&[0x0050_0093, 0x0010_8133])));
    assert_eq!(hart.run(), Ok(()));
    let regs = all_regs(&mut hart);
    assert_eq!(regs[1], 5);
    assert_eq!(regs[2], 10);
    for (i, v) in regs.iter().enumerate() {
        if i != 1 && i != 2 {
            assert_eq!(*v, 0);
        }
    }
    assert!(hart.is_halted());
    assert_eq!(hart.pc(), 8);
}

#[test]
fn run_unknown_instruction_is_decode_fault() {
    // funct3 = 2 under the register opcode is not in the table.
    let mut hart = Hart::new(Some(words(&[0x0000_2033])));
    assert_eq!(hart.run(), Err(Fault::Decode { pc: 0, word: 0x2033 }));
    assert_eq!(all_regs(&mut hart), vec![0u64; 32]);

    let mut hart = Hart::new(Some(words(&[0x0000_0003])));
    assert_eq!(hart.run(), Err(Fault::Decode { pc: 0, word: 0x3 }));
    assert_eq!(all_regs(&mut hart), vec![0u64; 32]);
}

#[test]
fn run_partial_word_is_bounds_fault() {
    let mut code = words(&[0x0050_0093]);
    code.extend_from_slice(&[0x13, 0x00]);
    let mut hart = Hart::new(Some(code));
    assert_eq!(hart.run(), Err(Fault::Bounds { pc: 4 }));
    assert_eq!(hart.read_reg(1), 5);
    assert_eq!(hart.pc(), 4);

    let mut hart = Hart::new(Some(vec![0x93, 0x00, 0x50]));
    assert_eq!(hart.run(), Err(Fault::Bounds { pc: 0 }));
    assert_eq!(hart.read_reg(1), 0);
}

#[test]
fn run_write_to_x0_is_fault() {
    // add x0, x1, x1 at the second word.
    let mut hart = Hart::new(Some(words(&[0x0050_0093, 0x0010_8033])));
    assert_eq!(hart.run(), Err(Fault::ReservedRegisterWrite { pc: 4 }));
    assert_eq!(hart.read_reg(1), 5);
}

#[test]
fn run_without_program_is_fault() {
    let mut hart = Hart::new(None);
    assert_eq!(hart.run(), Err(Fault::MissingProgram));
}

#[test]
fn run_empty_program_halts() {
    let mut hart = Hart::new(Some(Vec::new()));
    assert_eq!(hart.run(), Ok(()));
    assert!(hart.is_halted());
}
