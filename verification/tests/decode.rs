use emulator_rs::instructions::{DecodeError, Instruction};

#[test]
fn it_works() {
    let instr = Instruction::decode(0x7FF00193);
    assert_eq!(instr.unwrap(), Instruction::ADDI(3, 0, 2047))
}

#[test]
fn addi() {
    let instr = Instruction::decode(0x7FF00193);
    assert_eq!(instr.unwrap(), Instruction::ADDI(3, 0, 2047))
}

#[test]
fn addi2() {
    let instr = Instruction::decode(0x01400F13);
    assert_eq!(instr.unwrap(), Instruction::ADDI(30, 0, 20))
}

#[test]
fn jal() {
    let instr = Instruction::decode(0x01000FEF);
    assert_eq!(instr.unwrap(), Instruction::JAL(31, 16))
}

#[test]
fn addi_negative_immediate() {
    let instr = Instruction::decode(0xFFF00093);
    assert_eq!(instr.unwrap(), Instruction::ADDI(1, 0, 0xFFFF_FFFF));
}

#[test]
fn beq_negative_immediate() {
    let instr = Instruction::decode(0xFE208EE3);
    assert_eq!(instr.unwrap(), Instruction::BEQ(1, 2, 0xFFFF_FFFC));
}

#[test]
fn decode_rtype() {
    assert_eq!(Instruction::decode(0x00528533).unwrap(), Instruction::ADD(10, 5, 5));
    assert_eq!(Instruction::decode(0x40528533).unwrap(), Instruction::SUB(10, 5, 5));
}

#[test]
fn decode_shift_immediates() {
    assert_eq!(Instruction::decode(0x00411093).unwrap(), Instruction::SLLI(1, 2, 4));
    assert_eq!(Instruction::decode(0x00415093).unwrap(), Instruction::SRLI(1, 2, 4));
    assert_eq!(Instruction::decode(0x40415093).unwrap(), Instruction::SRAI(1, 2, 4));
}

#[test]
fn decode_system() {
    assert_eq!(Instruction::decode(0x00000073).unwrap(), Instruction::ECALL);
    assert_eq!(Instruction::decode(0x00100073).unwrap(), Instruction::EBREAK);
}

#[test]
fn decode_fence() {
    assert_eq!(Instruction::decode(0x0320000F).unwrap(), Instruction::FENCE(2, 3));
    assert_eq!(Instruction::decode(0x0000100F).unwrap(), Instruction::FENCE_I);
}

#[test]
fn decode_invalid_instruction() {
    assert_eq!(
        Instruction::decode(0x00000000),
        Err(DecodeError::InvalidInstruction(0x00000000, 0b0000000))
    );
}

#[test]
fn decode_invalid_funct3_errors() {
    assert_eq!(
        Instruction::decode(0x00001067),
        Err(DecodeError::ITypeExtract(0x00001067, 0b1100111))
    );
    assert_eq!(
        Instruction::decode(0x00002063),
        Err(DecodeError::BTypeExtract(0x00002063, 0b1100011))
    );
    assert_eq!(
        Instruction::decode(0x00003023),
        Err(DecodeError::STypeExtract(0x00003023, 0b0100011))
    );
    assert_eq!(
        Instruction::decode(0x02000033),
        Err(DecodeError::RTypeExtract(0x02000033, 0b0110011))
    );
}

#[test]
fn decode_invalid_fence() {
    assert_eq!(
        Instruction::decode(0x0000008F),
        Err(DecodeError::InvalidFence(0x0000008F, 0b0001111))
    );
}

#[test]
fn jal_negative_immediate() {
    // Backward jump: immediate bit 20 comes from instruction bit 31.
    let instr = Instruction::decode(0xFFDFF06F);
    assert_eq!(instr.unwrap(), Instruction::JAL(0, 0xFFFF_FFFC));
}

#[test]
fn jal_forward_immediate_bit_ten() {
    // Forward jump with immediate bit 10 set stays positive: instruction
    // bit 30 carries immediate bit 10, not the sign.
    let instr = Instruction::decode(0x400000EF);
    assert_eq!(instr.unwrap(), Instruction::JAL(1, 0x400));
}
