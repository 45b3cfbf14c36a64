use rv32i_emu::instruction::{Instruction, InstructionType};

#[test]
fn test_imm_u() {
    assert_eq!(Instruction::from_u32(0x00040137).get_imm_u(), 0x00040);
    assert_eq!(Instruction::from_u32(0x00008fb7).get_imm_u(), 0x00008);

    assert_eq!(Instruction::from_u32(0x00040137).get_imm_u(), 0x00040);
    assert_eq!(Instruction::from_u32(0x00001117).get_imm_u(), 0x1);
    assert_eq!(Instruction::from_u32(0x00000117).get_imm_u(), 0x0);
}

#[test]
fn test_imm_i() {
    assert_eq!(Instruction::from_u32(0x000002ef).get_imm_i(), 0x0);
    assert_eq!(Instruction::from_u32(0x008002ef).get_imm_i(), 0x08);
}

#[test]
fn register_and_function_fields() {
    // sw x2, -4(x1)
    let i = Instruction::from_u32(0xFE20AE23);
    assert_eq!(i.opcode(), 0x23);
    assert_eq!(i.get_rs1(), 1);
    assert_eq!(i.get_rs2(), 2);
    assert_eq!(i.get_funct3(), 2);
    assert_eq!(i.get_funct7(), 0x7F);
    assert_eq!(i.get_rd(), 0x1C);
    assert_eq!(i.get_imm_s(), 0xFFFF_FFFC);

    // every field of an all-ones word stays within its width
    let ones = Instruction::from_u32(0xFFFF_FFFF);
    assert_eq!(ones.get_rd(), 31);
    assert_eq!(ones.get_rs1(), 31);
    assert_eq!(ones.get_rs2(), 31);
    assert_eq!(ones.get_shamt(), 31);
    assert_eq!(ones.get_funct3(), 7);
    assert_eq!(ones.get_funct7(), 127);
    assert_eq!(ones.opcode(), 127);
    assert_eq!(ones.get_imm_u(), 0xF_FFFF);
}

#[test]
fn shift_amount_field() {
    // srai x3, x1, 7
    let i = Instruction::from_u32(0x4070D193);
    assert_eq!(i.get_shamt(), 7);
    assert_eq!(i._type(), Ok(InstructionType::SRAI));
}

#[test]
fn immediate_sign_extension() {
    // addi x1, x1, -1
    assert_eq!(Instruction::from_u32(0xFFF08093).get_imm_i(), 0xFFFF_FFFF);
    // addi x1, x0, 2047
    assert_eq!(Instruction::from_u32(0x7FF00093).get_imm_i(), 0x7FF);
    // addi x1, x0, -2048
    assert_eq!(Instruction::from_u32(0x80000093).get_imm_i(), 0xFFFF_F800);
    // bne x1, x0, -8
    assert_eq!(Instruction::from_u32(0xFE009CE3).get_imm_b(), 0xFFFF_FFF8);
    // beq x0, x0, 16
    assert_eq!(Instruction::from_u32(0x00000863).get_imm_b(), 16);
    // beq x0, x0, 2048: bit 11 of the offset comes from bit 7 of the word
    assert_eq!(Instruction::from_u32(0x00000063 | (1 << 7)).get_imm_b(), 0x800);
    // jal x1, -4
    assert_eq!(Instruction::from_u32(0xFFDFF0EF).get_imm_j(), 0xFFFF_FFFC);
    // jal x0, 8
    assert_eq!(Instruction::from_u32(0x0080006F).get_imm_j(), 8);
    // jal x0, 2048: bit 11 of the offset comes from bit 20 of the word
    assert_eq!(Instruction::from_u32(0x0010006F).get_imm_j(), 0x800);
    // jal x0, 0x1000: bits 19..12 of the offset stay in place
    assert_eq!(Instruction::from_u32(0x0000106F).get_imm_j(), 0x1000);
    // sw x2, 4(x1)
    assert_eq!(Instruction::from_u32(0x0020A223).get_imm_s(), 4);
}

#[test]
fn classification() {
    assert_eq!(Instruction::from_u32(0x00300093)._type(), Ok(InstructionType::ADDI));
    assert_eq!(Instruction::from_u32(0x123452B7)._type(), Ok(InstructionType::LUI));
    assert_eq!(Instruction::from_u32(0x00001317)._type(), Ok(InstructionType::AUIPC));
    assert_eq!(Instruction::from_u32(0xFE009CE3)._type(), Ok(InstructionType::BNE));
    assert_eq!(Instruction::from_u32(0x4020D1B3)._type(), Ok(InstructionType::SRA));
    assert_eq!(Instruction::from_u32(0x40208033)._type(), Ok(InstructionType::SUB));
    assert_eq!(Instruction::from_u32(0x00000073)._type(), Ok(InstructionType::ECALL));
    assert_eq!(Instruction::from_u32(0x00100073)._type(), Ok(InstructionType::EBREAK));
    assert_eq!(Instruction::from_u32(0x30001073)._type(), Ok(InstructionType::CSRRW));
    assert_eq!(Instruction::from_u32(0x0000C183)._type(), Ok(InstructionType::LBU));
    assert_eq!(Instruction::from_u32(0x00208023)._type(), Ok(InstructionType::SB));
}

#[test]
fn illegal_instructions() {
    assert_eq!(
        Instruction::from_u32(0x0000_0000)._type(),
        Err("Illegal Instruction 0x0".to_string())
    );
    assert_eq!(
        Instruction::from_u32(0xFFFF_FFFF)._type(),
        Err("Illegal Instruction 0xffffffff".to_string())
    );
    // srli with a funct7 other than 0 or 0x20
    assert!(Instruction::from_u32(0x0200D093)._type().is_err());
    // system opcode, funct3 0, immediate 2
    assert!(Instruction::from_u32(0x00200073)._type().is_err());
    // load with funct3 3
    assert!(Instruction::from_u32(0x0000B183)._type().is_err());
    assert_eq!(Instruction::from_u32(0x0000B183).get_mnemonic(), None);
}

#[test]
fn mnemonics() {
    assert_eq!(Instruction::from_u32(0x00300093).get_mnemonic(), Some("addi".to_string()));
    assert_eq!(Instruction::from_u32(0x00100073).get_mnemonic(), Some("ebreak".to_string()));
    assert_eq!(InstructionType::CSRRCI.mnemonic(), "csrrci");
    assert_eq!(InstructionType::BGEU.mnemonic(), "bgeu");
}
