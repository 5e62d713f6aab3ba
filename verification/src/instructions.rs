//! The RV32I instruction set: the tagged instruction value produced by the
//! decoder, the decoder itself (pure bit-field extraction and opcode
//! dispatch), and the execution semantics of every instruction.
//!
//! Every instruction value carries already-extracted, already-sign-extended
//! operand fields. Register-index fields are five bits wide and shift
//! amounts are masked to five bits, which `wf` records.
use vstd::prelude::*;
use vstd::wrapping::u32_specs;

use crate::cpu::{CPU, CpuV};
use crate::mem::{MemV, MemoryError};
use crate::registers::{reg_read, reg_write};

verus! {

#[derive(Debug, Clone, Copy, PartialEq, Eq, Structural)]
pub enum DecodeError {
    RTypeExtract(u32, u32),
    ITypeExtract(u32, u32),
    STypeExtract(u32, u32),
    BTypeExtract(u32, u32),
    UTypeExtract(u32, u32),
    JTypeExtract(u32, u32),
    InvalidFence(u32, u32),
    InvalidInstruction(u32, u32),
}

pub type DecodeResult<T> = Result<T, DecodeError>;

#[allow(non_camel_case_types)]
#[derive(Debug, Clone, Copy, PartialEq, Eq, Structural)]
pub enum ExecuteStatus {
    ECALL,
    EBREAK,
    CONTINUE,
}

#[derive(Debug, Clone, Copy, PartialEq, Eq, Structural)]
pub enum ExecuteError {
    InvalidExecutionInstruction,
    MisalignedAddress,
    MemoryError(MemoryError),
}

pub type ExecuteResult<T> = Result<T, ExecuteError>;

#[allow(non_camel_case_types)]
#[derive(Debug, Clone, Copy, PartialEq, Eq, Structural)]
pub enum Instruction {
    LUI(u32, u32),
    AUIPC(u32, u32),
    JAL(u32, u32),
    JALR(u32, u32, u32),
    BEQ(u32, u32, u32),
    BNE(u32, u32, u32),
    BLT(u32, u32, u32),
    BGE(u32, u32, u32),
    BLTU(u32, u32, u32),
    BGEU(u32, u32, u32),
    LB(u32, u32, u32),
    LH(u32, u32, u32),
    LW(u32, u32, u32),
    LBU(u32, u32, u32),
    LHU(u32, u32, u32),
    SB(u32, u32, u32),
    SH(u32, u32, u32),
    SW(u32, u32, u32),
    ADDI(u32, u32, u32),
    SLTI(u32, u32, u32),
    SLTIU(u32, u32, u32),
    XORI(u32, u32, u32),
    ORI(u32, u32, u32),
    ANDI(u32, u32, u32),
    SLLI(u32, u32, u32),
    SRLI(u32, u32, u32),
    SRAI(u32, u32, u32),
    ADD(u32, u32, u32),
    SUB(u32, u32, u32),
    SLL(u32, u32, u32),
    SLT(u32, u32, u32),
    SLTU(u32, u32, u32),
    XOR(u32, u32, u32),
    SRL(u32, u32, u32),
    SRA(u32, u32, u32),
    OR(u32, u32, u32),
    AND(u32, u32, u32),
    FENCE(u32, u32),
    FENCE_I,
    ECALL,
    EBREAK,
    CSRRW(u32, u32, u32),
    CSRRS(u32, u32, u32),
    CSRRC(u32, u32, u32),
    CSRRWI(u32, u32, u32),
    CSRRSI(u32, u32, u32),
    CSRRCI(u32, u32, u32),
}

impl Instruction {
    /// Every register-index field is a valid index and every immediate shift
    /// amount is below 32. The decoder only produces such values.
    pub open spec fn wf(self) -> bool {
        match self {
            Instruction::LUI(rd, _) => rd < 32,
            Instruction::AUIPC(rd, _) => rd < 32,
            Instruction::JAL(rd, _) => rd < 32,
            Instruction::JALR(rd, rs1, _) => rd < 32 && rs1 < 32,
            Instruction::BEQ(rs1, rs2, _) => rs1 < 32 && rs2 < 32,
            Instruction::BNE(rs1, rs2, _) => rs1 < 32 && rs2 < 32,
            Instruction::BLT(rs1, rs2, _) => rs1 < 32 && rs2 < 32,
            Instruction::BGE(rs1, rs2, _) => rs1 < 32 && rs2 < 32,
            Instruction::BLTU(rs1, rs2, _) => rs1 < 32 && rs2 < 32,
            Instruction::BGEU(rs1, rs2, _) => rs1 < 32 && rs2 < 32,
            Instruction::LB(rd, rs1, _) => rd < 32 && rs1 < 32,
            Instruction::LH(rd, rs1, _) => rd < 32 && rs1 < 32,
            Instruction::LW(rd, rs1, _) => rd < 32 && rs1 < 32,
            Instruction::LBU(rd, rs1, _) => rd < 32 && rs1 < 32,
            Instruction::LHU(rd, rs1, _) => rd < 32 && rs1 < 32,
            Instruction::SB(rs1, rs2, _) => rs1 < 32 && rs2 < 32,
            Instruction::SH(rs1, rs2, _) => rs1 < 32 && rs2 < 32,
            Instruction::SW(rs1, rs2, _) => rs1 < 32 && rs2 < 32,
            Instruction::ADDI(rd, rs1, _) => rd < 32 && rs1 < 32,
            Instruction::SLTI(rd, rs1, _) => rd < 32 && rs1 < 32,
            Instruction::SLTIU(rd, rs1, _) => rd < 32 && rs1 < 32,
            Instruction::XORI(rd, rs1, _) => rd < 32 && rs1 < 32,
            Instruction::ORI(rd, rs1, _) => rd < 32 && rs1 < 32,
            Instruction::ANDI(rd, rs1, _) => rd < 32 && rs1 < 32,
            Instruction::SLLI(rd, rs1, shamt) => rd < 32 && rs1 < 32 && shamt < 32,
            Instruction::SRLI(rd, rs1, shamt) => rd < 32 && rs1 < 32 && shamt < 32,
            Instruction::SRAI(rd, rs1, shamt) => rd < 32 && rs1 < 32 && shamt < 32,
            Instruction::ADD(rd, rs1, rs2) => rd < 32 && rs1 < 32 && rs2 < 32,
            Instruction::SUB(rd, rs1, rs2) => rd < 32 && rs1 < 32 && rs2 < 32,
            Instruction::SLL(rd, rs1, rs2) => rd < 32 && rs1 < 32 && rs2 < 32,
            Instruction::SLT(rd, rs1, rs2) => rd < 32 && rs1 < 32 && rs2 < 32,
            Instruction::SLTU(rd, rs1, rs2) => rd < 32 && rs1 < 32 && rs2 < 32,
            Instruction::XOR(rd, rs1, rs2) => rd < 32 && rs1 < 32 && rs2 < 32,
            Instruction::SRL(rd, rs1, rs2) => rd < 32 && rs1 < 32 && rs2 < 32,
            Instruction::SRA(rd, rs1, rs2) => rd < 32 && rs1 < 32 && rs2 < 32,
            Instruction::OR(rd, rs1, rs2) => rd < 32 && rs1 < 32 && rs2 < 32,
            Instruction::AND(rd, rs1, rs2) => rd < 32 && rs1 < 32 && rs2 < 32,
            Instruction::FENCE(_, _) => true,
            Instruction::FENCE_I => true,
            Instruction::ECALL => true,
            Instruction::EBREAK => true,
            Instruction::CSRRW(_, _, _) => true,
            Instruction::CSRRS(_, _, _) => true,
            Instruction::CSRRC(_, _, _) => true,
            Instruction::CSRRWI(_, _, _) => true,
            Instruction::CSRRSI(_, _, _) => true,
            Instruction::CSRRCI(_, _, _) => true,
        }
    }
}

/// R format: rd, funct3, rs1, rs2, funct7.
pub open spec fn spec_extract_rtype(instr: u32) -> (u32, u32, u32, u32, u32) {
    (
        (instr >> 7) & 0x1F,
        (instr >> 12) & 0x7,
        (instr >> 15) & 0x1F,
        (instr >> 20) & 0x1F,
        (instr >> 25) & 0x7F,
    )
}

/// I format: rd, funct3, rs1, and the 12-bit immediate sign-extended from
/// bit 11.
pub open spec fn spec_extract_itype(instr: u32) -> (u32, u32, u32, u32) {
    let rd = (instr >> 7) & 0x1F;
    let funct3 = (instr >> 12) & 0x7;
    let rs1 = (instr >> 15) & 0x1F;
    let raw = instr >> 20;
    let imm = if raw & 0x800 != 0 {
        raw | 0xFFFF_F000
    } else {
        raw
    };
    (rd, funct3, rs1, imm)
}

/// S format: funct3, rs1, rs2, and the split 12-bit immediate sign-extended
/// from bit 11.
pub open spec fn spec_extract_stype(instr: u32) -> (u32, u32, u32, u32) {
    let funct3 = (instr >> 12) & 0x7;
    let rs1 = (instr >> 15) & 0x1F;
    let rs2 = (instr >> 20) & 0x1F;
    let raw = (instr >> 7) & 0x1F | (instr >> 20) & 0xFE0;
    let imm = if raw & 0x800 != 0 {
        raw | 0xFFFF_F000
    } else {
        raw
    };
    (funct3, rs1, rs2, imm)
}

/// B format: funct3, rs1, rs2, and the reassembled 13-bit branch immediate
/// (low bit implicitly 0) sign-extended from bit 12.
pub open spec fn spec_extract_btype(instr: u32) -> (u32, u32, u32, u32) {
    let funct3 = (instr >> 12) & 0x7;
    let rs1 = (instr >> 15) & 0x1F;
    let rs2 = (instr >> 20) & 0x1F;
    let raw = (instr >> 7) & 0x1E | (instr >> 20) & 0x7E0 | (instr << 4) & 0x800 | (instr >> 19)
        & 0x1000;
    let imm = if raw & 0x1000 != 0 {
        raw | 0xFFFF_E000
    } else {
        raw
    };
    (funct3, rs1, rs2, imm)
}

/// U format: rd and the 20-bit immediate already placed in bits 31:12.
pub open spec fn spec_extract_butype(instr: u32) -> (u32, u32) {
    ((instr >> 7) & 0x1F, instr & 0xFFFF_F000)
}

/// J format: rd and the reassembled 21-bit jump immediate (low bit
/// implicitly 0) sign-extended from bit 20.
pub open spec fn spec_extract_jtype(instr: u32) -> (u32, u32) {
    let rd = (instr >> 7) & 0x1F;
    let raw = (instr >> 20) & 0x7FE | (instr >> 9) & 0x800 | instr & 0xF_F000 | (instr >> 11)
        & 0x10_0000;
    let imm = if raw & 0x10_0000 != 0 {
        raw | 0xFFE0_0000
    } else {
        raw
    };
    (rd, imm)
}

/// Fence format: rd, funct3, rs1, successor set, predecessor set, and the
/// trailing reserved field.
pub open spec fn spec_extract_fence(instr: u32) -> (u32, u32, u32, u32, u32, u32) {
    (
        (instr >> 7) & 0x1F,
        (instr >> 12) & 0x7,
        (instr >> 15) & 0x1F,
        (instr >> 20) & 0xF,
        (instr >> 24) & 0xF,
        (instr >> 28) & 0xF,
    )
}

/// What the decoder yields for a given instruction word: the low 7 bits
/// select the opcode group, funct3 (and funct7 where the group is ambiguous)
/// select the instruction, and the operand fields are extracted per format.
pub open spec fn spec_decode(instr: u32) -> DecodeResult<Instruction> {
    let opcode = instr & 0x7F;
    if opcode == 0b0110111 {
        let (rd, imm) = spec_extract_butype(instr);
        Ok(Instruction::LUI(rd, imm))
    } else if opcode == 0b0010111 {
        let (rd, imm) = spec_extract_butype(instr);
        Ok(Instruction::AUIPC(rd, imm))
    } else if opcode == 0b1101111 {
        let (rd, imm) = spec_extract_jtype(instr);
        Ok(Instruction::JAL(rd, imm))
    } else if opcode == 0b1100111 {
        let (rd, funct3, rs1, imm) = spec_extract_itype(instr);
        if funct3 == 0b000 {
            Ok(Instruction::JALR(rd, rs1, imm))
        } else {
            Err(DecodeError::ITypeExtract(instr, opcode))
        }
    } else if opcode == 0b1100011 {
        let (funct3, rs1, rs2, imm) = spec_extract_btype(instr);
        if funct3 == 0b000 {
            Ok(Instruction::BEQ(rs1, rs2, imm))
        } else if funct3 == 0b001 {
            Ok(Instruction::BNE(rs1, rs2, imm))
        } else if funct3 == 0b100 {
            Ok(Instruction::BLT(rs1, rs2, imm))
        } else if funct3 == 0b101 {
            Ok(Instruction::BGE(rs1, rs2, imm))
        } else if funct3 == 0b110 {
            Ok(Instruction::BLTU(rs1, rs2, imm))
        } else if funct3 == 0b111 {
            Ok(Instruction::BGEU(rs1, rs2, imm))
        } else {
            Err(DecodeError::BTypeExtract(instr, opcode))
        }
    } else if opcode == 0b0000011 {
        let (rd, funct3, rs1, imm) = spec_extract_itype(instr);
        if funct3 == 0b000 {
            Ok(Instruction::LB(rd, rs1, imm))
        } else if funct3 == 0b001 {
            Ok(Instruction::LH(rd, rs1, imm))
        } else if funct3 == 0b010 {
            Ok(Instruction::LW(rd, rs1, imm))
        } else if funct3 == 0b100 {
            Ok(Instruction::LBU(rd, rs1, imm))
        } else if funct3 == 0b101 {
            Ok(Instruction::LHU(rd, rs1, imm))
        } else {
            Err(DecodeError::ITypeExtract(instr, opcode))
        }
    } else if opcode == 0b0100011 {
        let (funct3, rs1, rs2, imm) = spec_extract_stype(instr);
        if funct3 == 0b000 {
            Ok(Instruction::SB(rs1, rs2, imm))
        } else if funct3 == 0b001 {
            Ok(Instruction::SH(rs1, rs2, imm))
        } else if funct3 == 0b010 {
            Ok(Instruction::SW(rs1, rs2, imm))
        } else {
            Err(DecodeError::STypeExtract(instr, opcode))
        }
    } else if opcode == 0b0010011 {
        let (rd, funct3, rs1, imm) = spec_extract_itype(instr);
        if funct3 == 0b000 {
            Ok(Instruction::ADDI(rd, rs1, imm))
        } else if funct3 == 0b010 {
            Ok(Instruction::SLTI(rd, rs1, imm))
        } else if funct3 == 0b011 {
            Ok(Instruction::SLTIU(rd, rs1, imm))
        } else if funct3 == 0b100 {
            Ok(Instruction::XORI(rd, rs1, imm))
        } else if funct3 == 0b110 {
            Ok(Instruction::ORI(rd, rs1, imm))
        } else if funct3 == 0b111 {
            Ok(Instruction::ANDI(rd, rs1, imm))
        } else if funct3 == 0b001 {
            Ok(Instruction::SLLI(rd, rs1, imm & 0x1F))
        } else {
            let (rd, _funct3, rs1, shamt, funct7) = spec_extract_rtype(instr);
            if funct7 == 0b0000000 {
                Ok(Instruction::SRLI(rd, rs1, shamt))
            } else if funct7 == 0b0100000 {
                Ok(Instruction::SRAI(rd, rs1, shamt))
            } else {
                Err(DecodeError::RTypeExtract(instr, opcode))
            }
        }
    } else if opcode == 0b0110011 {
        let (rd, funct3, rs1, rs2, funct7) = spec_extract_rtype(instr);
        if funct3 == 0b000 {
            if funct7 == 0b0000000 {
                Ok(Instruction::ADD(rd, rs1, rs2))
            } else if funct7 == 0b0100000 {
                Ok(Instruction::SUB(rd, rs1, rs2))
            } else {
                Err(DecodeError::RTypeExtract(instr, opcode))
            }
        } else if funct3 == 0b001 {
            Ok(Instruction::SLL(rd, rs1, rs2))
        } else if funct3 == 0b010 {
            Ok(Instruction::SLT(rd, rs1, rs2))
        } else if funct3 == 0b011 {
            Ok(Instruction::SLTU(rd, rs1, rs2))
        } else if funct3 == 0b100 {
            Ok(Instruction::XOR(rd, rs1, rs2))
        } else if funct3 == 0b101 {
            if funct7 == 0b0000000 {
                Ok(Instruction::SRL(rd, rs1, rs2))
            } else if funct7 == 0b0100000 {
                Ok(Instruction::SRA(rd, rs1, rs2))
            } else {
                Err(DecodeError::RTypeExtract(instr, opcode))
            }
        } else if funct3 == 0b110 {
            Ok(Instruction::OR(rd, rs1, rs2))
        } else {
            Ok(Instruction::AND(rd, rs1, rs2))
        }
    } else if opcode == 0b0001111 {
        let (rd, funct3, rs1, succ, pred, reserved) = spec_extract_fence(instr);
        if rd != 0 || rs1 != 0 || reserved != 0 {
            Err(DecodeError::InvalidFence(instr, opcode))
        } else if funct3 == 0b000 {
            Ok(Instruction::FENCE(succ, pred))
        } else if funct3 == 0b001 {
            Ok(Instruction::FENCE_I)
        } else {
            Err(DecodeError::InvalidFence(instr, opcode))
        }
    } else if opcode == 0b1110011 {
        let (rd, funct3, rs1, imm) = spec_extract_itype(instr);
        if funct3 == 0b000 {
            if imm == 0b0 {
                Ok(Instruction::ECALL)
            } else if imm == 0b1 {
                Ok(Instruction::EBREAK)
            } else {
                Err(DecodeError::ITypeExtract(instr, opcode))
            }
        } else if funct3 == 0b001 {
            Ok(Instruction::CSRRW(rd, rs1, imm))
        } else if funct3 == 0b010 {
            Ok(Instruction::CSRRS(rd, rs1, imm))
        } else if funct3 == 0b011 {
            Ok(Instruction::CSRRC(rd, rs1, imm))
        } else if funct3 == 0b101 {
            Ok(Instruction::CSRRWI(rd, rs1, imm))
        } else if funct3 == 0b110 {
            Ok(Instruction::CSRRSI(rd, rs1, imm))
        } else if funct3 == 0b111 {
            Ok(Instruction::CSRRCI(rd, rs1, imm))
        } else {
            Err(DecodeError::ITypeExtract(instr, opcode))
        }
    } else {
        Err(DecodeError::InvalidInstruction(instr, opcode))
    }
}

/// A five-bit field is a valid register index or shift amount.
proof fn lemma_mask5(x: u32)
    ensures
        x & 0x1F < 32,
{
    assert(x & 0x1F < 32) by (bit_vector);
}

/// Whatever the decoder yields, its operand fields are well-formed.
pub proof fn lemma_decode_wf(instr: u32)
    ensures
        spec_decode(instr) matches Ok(i) ==> i.wf(),
{
    lemma_mask5(instr >> 7);
    lemma_mask5(instr >> 15);
    lemma_mask5(instr >> 20);
    lemma_mask5(spec_extract_itype(instr).3);
}

impl Instruction {
    fn extract_rtype(instr: u32) -> (r: (u32, u32, u32, u32, u32))
        ensures
            r == spec_extract_rtype(instr),
    {
        let rd = (instr >> 7) & 0x1F;
        let funct3 = (instr >> 12) & 0x7;
        let rs1 = (instr >> 15) & 0x1F;
        let rs2 = (instr >> 20) & 0x1F;
        let funct7 = (instr >> 25) & 0x7F;
        (rd, funct3, rs1, rs2, funct7)
    }

    fn extract_itype(instr: u32) -> (r: (u32, u32, u32, u32))
        ensures
            r == spec_extract_itype(instr),
    {
        let rd = (instr >> 7) & 0x1F;
        let funct3 = (instr >> 12) & 0x7;
        let rs1 = (instr >> 15) & 0x1F;
        let mut imm = instr >> 20;
        if imm & 0x800 != 0 {
            imm = imm | 0xFFFF_F000;
        }
        (rd, funct3, rs1, imm)
    }

    fn extract_stype(instr: u32) -> (r: (u32, u32, u32, u32))
        ensures
            r == spec_extract_stype(instr),
    {
        let funct3 = (instr >> 12) & 0x7;
        let rs1 = (instr >> 15) & 0x1F;
        let rs2 = (instr >> 20) & 0x1F;
        let mut imm = (instr >> 7) & 0x1F | (instr >> 20) & 0xFE0;
        if imm & 0x800 != 0 {
            imm = imm | 0xFFFF_F000;
        }
        (funct3, rs1, rs2, imm)
    }

    fn extract_btype(instr: u32) -> (r: (u32, u32, u32, u32))
        ensures
            r == spec_extract_btype(instr),
    {
        let funct3 = (instr >> 12) & 0x7;
        let rs1 = (instr >> 15) & 0x1F;
        let rs2 = (instr >> 20) & 0x1F;
        let mut imm = (instr >> 7) & 0x1E | (instr >> 20) & 0x7E0 | (instr << 4) & 0x800 | (instr
            >> 19) & 0x1000;
        if imm & 0x1000 != 0 {
            imm = imm | 0xFFFF_E000;
        }
        (funct3, rs1, rs2, imm)
    }

    fn extract_butype(instr: u32) -> (r: (u32, u32))
        ensures
            r == spec_extract_butype(instr),
    {
        let rd = (instr >> 7) & 0x1F;
        let imm = instr & 0xFFFF_F000;
        (rd, imm)
    }

    fn extract_jtype(instr: u32) -> (r: (u32, u32))
        ensures
            r == spec_extract_jtype(instr),
    {
        let rd = (instr >> 7) & 0x1F;
        let mut imm = (instr >> 20) & 0x7FE | (instr >> 9) & 0x800 | instr & 0xF_F000 | (instr
            >> 11) & 0x10_0000;
        if imm & 0x10_0000 != 0 {
            imm = imm | 0xFFE0_0000;
        }
        (rd, imm)
    }

    fn extract_fence(instr: u32) -> (r: (u32, u32, u32, u32, u32, u32))
        ensures
            r == spec_extract_fence(instr),
    {
        let rd = (instr >> 7) & 0x1F;
        let funct3 = (instr >> 12) & 0x7;
        let rs1 = (instr >> 15) & 0x1F;
        let succ = (instr >> 20) & 0xF;
        let pred = (instr >> 24) & 0xF;
        let imm = (instr >> 28) & 0xF;
        (rd, funct3, rs1, succ, pred, imm)
    }

    /// Decodes one 32-bit instruction word, or reports which format-level
    /// extraction failed.
    pub fn decode(instr: u32) -> (r: DecodeResult<Self>)
        ensures
            r == spec_decode(instr),
            r matches Ok(i) ==> i.wf(),
    {
        proof {
            lemma_decode_wf(instr);
        }
        let opcode = instr & 0x7F;
        match opcode {
            0b0110111 => {
                let (rd, imm) = Instruction::extract_butype(instr);
                Ok(Instruction::LUI(rd, imm))
            },
            0b0010111 => {
                let (rd, imm) = Instruction::extract_butype(instr);
                Ok(Instruction::AUIPC(rd, imm))
            },
            0b1101111 => {
                let (rd, imm) = Instruction::extract_jtype(instr);
                Ok(Instruction::JAL(rd, imm))
            },
            0b1100111 => {
                let (rd, funct3, rs1, imm) = Instruction::extract_itype(instr);
                match funct3 {
                    0b000 => Ok(Instruction::JALR(rd, rs1, imm)),
                    _ => Err(DecodeError::ITypeExtract(instr, opcode)),
                }
            },
            0b1100011 => {
                let (funct3, rs1, rs2, imm) = Instruction::extract_btype(instr);
                match funct3 {
                    0b000 => Ok(Instruction::BEQ(rs1, rs2, imm)),
                    0b001 => Ok(Instruction::BNE(rs1, rs2, imm)),
                    0b100 => Ok(Instruction::BLT(rs1, rs2, imm)),
                    0b101 => Ok(Instruction::BGE(rs1, rs2, imm)),
                    0b110 => Ok(Instruction::BLTU(rs1, rs2, imm)),
                    0b111 => Ok(Instruction::BGEU(rs1, rs2, imm)),
                    _ => Err(DecodeError::BTypeExtract(instr, opcode)),
                }
            },
            0b0000011 => {
                let (rd, funct3, rs1, imm) = Instruction::extract_itype(instr);
                match funct3 {
                    0b000 => Ok(Instruction::LB(rd, rs1, imm)),
                    0b001 => Ok(Instruction::LH(rd, rs1, imm)),
                    0b010 => Ok(Instruction::LW(rd, rs1, imm)),
                    0b100 => Ok(Instruction::LBU(rd, rs1, imm)),
                    0b101 => Ok(Instruction::LHU(rd, rs1, imm)),
                    _ => Err(DecodeError::ITypeExtract(instr, opcode)),
                }
            },
            0b0100011 => {
                let (funct3, rs1, rs2, imm) = Instruction::extract_stype(instr);
                match funct3 {
                    0b000 => Ok(Instruction::SB(rs1, rs2, imm)),
                    0b001 => Ok(Instruction::SH(rs1, rs2, imm)),
                    0b010 => Ok(Instruction::SW(rs1, rs2, imm)),
                    _ => Err(DecodeError::STypeExtract(instr, opcode)),
                }
            },
            0b0010011 => {
                let (rd, funct3, rs1, imm) = Instruction::extract_itype(instr);
                match funct3 {
                    0b000 => Ok(Instruction::ADDI(rd, rs1, imm)),
                    0b010 => Ok(Instruction::SLTI(rd, rs1, imm)),
                    0b011 => Ok(Instruction::SLTIU(rd, rs1, imm)),
                    0b100 => Ok(Instruction::XORI(rd, rs1, imm)),
                    0b110 => Ok(Instruction::ORI(rd, rs1, imm)),
                    0b111 => Ok(Instruction::ANDI(rd, rs1, imm)),
                    // The immediate shifts reuse the R-type funct7 slot in the
                    // upper bits of the I-type immediate, so the left shift
                    // masks its amount and the right shifts re-extract R-style.
                    0b001 => Ok(Instruction::SLLI(rd, rs1, imm & 0x1F)),
                    _ => {
                        let (rd, _funct3, rs1, shamt, funct7) = Instruction::extract_rtype(instr);
                        match funct7 {
                            0b0000000 => Ok(Instruction::SRLI(rd, rs1, shamt)),
                            0b0100000 => Ok(Instruction::SRAI(rd, rs1, shamt)),
                            _ => Err(DecodeError::RTypeExtract(instr, opcode)),
                        }
                    },
                }
            },
            0b0110011 => {
                let (rd, funct3, rs1, rs2, funct7) = Instruction::extract_rtype(instr);
                match funct3 {
                    0b000 => match funct7 {
                        0b0000000 => Ok(Instruction::ADD(rd, rs1, rs2)),
                        0b0100000 => Ok(Instruction::SUB(rd, rs1, rs2)),
                        _ => Err(DecodeError::RTypeExtract(instr, opcode)),
                    },
                    0b001 => Ok(Instruction::SLL(rd, rs1, rs2)),
                    0b010 => Ok(Instruction::SLT(rd, rs1, rs2)),
                    0b011 => Ok(Instruction::SLTU(rd, rs1, rs2)),
                    0b100 => Ok(Instruction::XOR(rd, rs1, rs2)),
                    0b101 => match funct7 {
                        0b0000000 => Ok(Instruction::SRL(rd, rs1, rs2)),
                        0b0100000 => Ok(Instruction::SRA(rd, rs1, rs2)),
                        _ => Err(DecodeError::RTypeExtract(instr, opcode)),
                    },
                    0b110 => Ok(Instruction::OR(rd, rs1, rs2)),
                    _ => Ok(Instruction::AND(rd, rs1, rs2)),
                }
            },
            0b0001111 => {
                let (rd, funct3, rs1, succ, pred, reserved) = Instruction::extract_fence(instr);
                // The specification fixes rd, rs1 and the reserved field at 0.
                if rd != 0 || rs1 != 0 || reserved != 0 {
                    return Err(DecodeError::InvalidFence(instr, opcode));
                }
                match funct3 {
                    0b000 => Ok(Instruction::FENCE(succ, pred)),
                    0b001 => Ok(Instruction::FENCE_I),
                    _ => Err(DecodeError::InvalidFence(instr, opcode)),
                }
            },
            0b1110011 => {
                let (rd, funct3, rs1, imm) = Instruction::extract_itype(instr);
                match funct3 {
                    0b000 => match imm {
                        0b0 => Ok(Instruction::ECALL),
                        0b1 => Ok(Instruction::EBREAK),
                        _ => Err(DecodeError::ITypeExtract(instr, opcode)),
                    },
                    0b001 => Ok(Instruction::CSRRW(rd, rs1, imm)),
                    0b010 => Ok(Instruction::CSRRS(rd, rs1, imm)),
                    0b011 => Ok(Instruction::CSRRC(rd, rs1, imm)),
                    0b101 => Ok(Instruction::CSRRWI(rd, rs1, imm)),
                    0b110 => Ok(Instruction::CSRRSI(rd, rs1, imm)),
                    0b111 => Ok(Instruction::CSRRCI(rd, rs1, imm)),
                    _ => Err(DecodeError::ITypeExtract(instr, opcode)),
                }
            },
            _ => Err(DecodeError::InvalidInstruction(instr, opcode)),
        }
    }
}


/// The machine with its program counter replaced.
pub open spec fn with_pc(s: CpuV, pc: u32) -> CpuV {
    CpuV { regs: s.regs, pc: pc, mem: s.mem }
}

/// The machine with its program counter advanced by one instruction.
pub open spec fn adv_pc(s: CpuV) -> CpuV {
    with_pc(s, u32_specs::wrapping_add(s.pc, 4))
}

/// The machine after a write to destination register `rd` (discarded when
/// `rd` is 0).
pub open spec fn set_reg(s: CpuV, rd: u32, v: u32) -> CpuV {
    CpuV { regs: reg_write(s.regs, rd, v), pc: s.pc, mem: s.mem }
}

/// The machine with its memory replaced.
pub open spec fn with_mem(s: CpuV, m: MemV) -> CpuV {
    CpuV { regs: s.regs, pc: s.pc, mem: m }
}

/// A branch outcome: the program counter advances by the immediate on the
/// taken path and by 4 otherwise.
pub open spec fn branch_step(s: CpuV, taken: bool, imm: u32) -> CpuV {
    if taken {
        with_pc(s, u32_specs::wrapping_add(s.pc, imm))
    } else {
        with_pc(s, u32_specs::wrapping_add(s.pc, 4))
    }
}

/// Sign extension of a byte already widened to 32 bits.
pub open spec fn sext8(v: u32) -> u32 {
    if v & 0x80 != 0 {
        v | 0xFFFF_FF00
    } else {
        v
    }
}

/// Sign extension of a halfword already widened to 32 bits.
pub open spec fn sext16(v: u32) -> u32 {
    if v & 0x8000 != 0 {
        v | 0xFFFF_0000
    } else {
        v
    }
}

/// The semantics of one decoded instruction: the machine after executing it
/// and the outcome. Arithmetic is 32-bit modular; loads and stores address
/// memory at `rs1 + imm` with wraparound; a misaligned jump target faults
/// before the program counter moves; fence and CSR instructions only advance
/// the program counter.
pub open spec fn exec_step(s: CpuV, i: Instruction) -> (CpuV, ExecuteResult<ExecuteStatus>) {
    match i {
        Instruction::LUI(rd, imm) => (adv_pc(set_reg(s, rd, imm)), Ok(ExecuteStatus::CONTINUE)),
        Instruction::AUIPC(rd, imm) => (
            adv_pc(set_reg(s, rd, u32_specs::wrapping_add(s.pc, imm))),
            Ok(ExecuteStatus::CONTINUE),
        ),
        Instruction::JAL(rd, imm) => {
            let s1 = set_reg(s, rd, u32_specs::wrapping_add(s.pc, 4));
            if imm % 4 != 0 {
                (s1, Err(ExecuteError::MisalignedAddress))
            } else {
                (with_pc(s1, u32_specs::wrapping_add(s1.pc, imm)), Ok(ExecuteStatus::CONTINUE))
            }
        },
        Instruction::JALR(rd, rs1, imm) => {
            let s1 = set_reg(s, rd, u32_specs::wrapping_add(s.pc, 4));
            let target = u32_specs::wrapping_add(reg_read(s1.regs, rs1), imm) & 0xFFFF_FFFE;
            if target % 4 != 0 {
                (s1, Err(ExecuteError::MisalignedAddress))
            } else {
                (with_pc(s1, target), Ok(ExecuteStatus::CONTINUE))
            }
        },
        Instruction::BEQ(rs1, rs2, imm) => (
            branch_step(s, reg_read(s.regs, rs1) == reg_read(s.regs, rs2), imm),
            Ok(ExecuteStatus::CONTINUE),
        ),
        Instruction::BNE(rs1, rs2, imm) => (
            branch_step(s, reg_read(s.regs, rs1) != reg_read(s.regs, rs2), imm),
            Ok(ExecuteStatus::CONTINUE),
        ),
        Instruction::BLT(rs1, rs2, imm) => (
            branch_step(
                s,
                (reg_read(s.regs, rs1) as i32) < (reg_read(s.regs, rs2) as i32),
                imm,
            ),
            Ok(ExecuteStatus::CONTINUE),
        ),
        Instruction::BGE(rs1, rs2, imm) => (
            branch_step(
                s,
                (reg_read(s.regs, rs1) as i32) >= (reg_read(s.regs, rs2) as i32),
                imm,
            ),
            Ok(ExecuteStatus::CONTINUE),
        ),
        Instruction::BLTU(rs1, rs2, imm) => (
            branch_step(s, reg_read(s.regs, rs1) < reg_read(s.regs, rs2), imm),
            Ok(ExecuteStatus::CONTINUE),
        ),
        Instruction::BGEU(rs1, rs2, imm) => (
            branch_step(s, reg_read(s.regs, rs1) >= reg_read(s.regs, rs2), imm),
            Ok(ExecuteStatus::CONTINUE),
        ),
        Instruction::LB(rd, rs1, imm) => {
            let a = u32_specs::wrapping_add(reg_read(s.regs, rs1), imm);
            if s.mem.mapped(a) {
                (
                    adv_pc(set_reg(s, rd, sext8(s.mem.byte_at(a) as u32))),
                    Ok(ExecuteStatus::CONTINUE),
                )
            } else {
                (s, Err(ExecuteError::MemoryError(MemoryError::UnmappedRegion)))
            }
        },
        Instruction::LH(rd, rs1, imm) => {
            let a = u32_specs::wrapping_add(reg_read(s.regs, rs1), imm);
            if s.mem.halfword_mapped(a) {
                (
                    adv_pc(set_reg(s, rd, sext16(s.mem.halfword_at(a) as u32))),
                    Ok(ExecuteStatus::CONTINUE),
                )
            } else {
                (s, Err(ExecuteError::MemoryError(MemoryError::UnmappedRegion)))
            }
        },
        Instruction::LW(rd, rs1, imm) => {
            let a = u32_specs::wrapping_add(reg_read(s.regs, rs1), imm);
            if s.mem.word_mapped(a) {
                (adv_pc(set_reg(s, rd, s.mem.word_at(a))), Ok(ExecuteStatus::CONTINUE))
            } else {
                (s, Err(ExecuteError::MemoryError(MemoryError::UnmappedRegion)))
            }
        },
        Instruction::LBU(rd, rs1, imm) => {
            let a = u32_specs::wrapping_add(reg_read(s.regs, rs1), imm);
            if s.mem.mapped(a) {
                (
                    adv_pc(set_reg(s, rd, (s.mem.byte_at(a) as u32) & 0xFF)),
                    Ok(ExecuteStatus::CONTINUE),
                )
            } else {
                (s, Err(ExecuteError::MemoryError(MemoryError::UnmappedRegion)))
            }
        },
        Instruction::LHU(rd, rs1, imm) => {
            let a = u32_specs::wrapping_add(reg_read(s.regs, rs1), imm);
            if s.mem.halfword_mapped(a) {
                (
                    adv_pc(set_reg(s, rd, (s.mem.halfword_at(a) as u32) & 0xFFFF)),
                    Ok(ExecuteStatus::CONTINUE),
                )
            } else {
                (s, Err(ExecuteError::MemoryError(MemoryError::UnmappedRegion)))
            }
        },
        Instruction::SB(rs1, rs2, imm) => {
            let a = u32_specs::wrapping_add(reg_read(s.regs, rs1), imm);
            (
                adv_pc(with_mem(s, s.mem.write(a, (reg_read(s.regs, rs2) & 0xFF) as u8))),
                Ok(ExecuteStatus::CONTINUE),
            )
        },
        Instruction::SH(rs1, rs2, imm) => {
            let a = u32_specs::wrapping_add(reg_read(s.regs, rs1), imm);
            (
                adv_pc(
                    with_mem(
                        s,
                        s.mem.write_halfword_spec(a, (reg_read(s.regs, rs2) & 0xFFFF) as u16),
                    ),
                ),
                Ok(ExecuteStatus::CONTINUE),
            )
        },
        Instruction::SW(rs1, rs2, imm) => {
            let a = u32_specs::wrapping_add(reg_read(s.regs, rs1), imm);
            (
                adv_pc(with_mem(s, s.mem.write_word_spec(a, reg_read(s.regs, rs2)))),
                Ok(ExecuteStatus::CONTINUE),
            )
        },
        Instruction::ADDI(rd, rs1, imm) => (
            adv_pc(set_reg(s, rd, u32_specs::wrapping_add(reg_read(s.regs, rs1), imm))),
            Ok(ExecuteStatus::CONTINUE),
        ),
        Instruction::SLTI(rd, rs1, imm) => (
            adv_pc(
                set_reg(
                    s,
                    rd,
                    if (reg_read(s.regs, rs1) as i32) < (imm as i32) {
                        1
                    } else {
                        0
                    },
                ),
            ),
            Ok(ExecuteStatus::CONTINUE),
        ),
        Instruction::SLTIU(rd, rs1, imm) => (
            adv_pc(
                set_reg(
                    s,
                    rd,
                    if reg_read(s.regs, rs1) < imm {
                        1
                    } else {
                        0
                    },
                ),
            ),
            Ok(ExecuteStatus::CONTINUE),
        ),
        Instruction::XORI(rd, rs1, imm) => (
            adv_pc(set_reg(s, rd, reg_read(s.regs, rs1) ^ imm)),
            Ok(ExecuteStatus::CONTINUE),
        ),
        Instruction::ORI(rd, rs1, imm) => (
            adv_pc(set_reg(s, rd, reg_read(s.regs, rs1) | imm)),
            Ok(ExecuteStatus::CONTINUE),
        ),
        Instruction::ANDI(rd, rs1, imm) => (
            adv_pc(set_reg(s, rd, reg_read(s.regs, rs1) & imm)),
            Ok(ExecuteStatus::CONTINUE),
        ),
        Instruction::SLLI(rd, rs1, shamt) => (
            adv_pc(set_reg(s, rd, reg_read(s.regs, rs1) << shamt)),
            Ok(ExecuteStatus::CONTINUE),
        ),
        Instruction::SRLI(rd, rs1, shamt) => (
            adv_pc(set_reg(s, rd, reg_read(s.regs, rs1) >> shamt)),
            Ok(ExecuteStatus::CONTINUE),
        ),
        Instruction::SRAI(rd, rs1, shamt) => (
            adv_pc(set_reg(s, rd, ((reg_read(s.regs, rs1) as i32) >> (shamt as i32)) as u32)),
            Ok(ExecuteStatus::CONTINUE),
        ),
        Instruction::ADD(rd, rs1, rs2) => (
            adv_pc(
                set_reg(
                    s,
                    rd,
                    u32_specs::wrapping_add(reg_read(s.regs, rs1), reg_read(s.regs, rs2)),
                ),
            ),
            Ok(ExecuteStatus::CONTINUE),
        ),
        Instruction::SUB(rd, rs1, rs2) => (
            adv_pc(
                set_reg(
                    s,
                    rd,
                    u32_specs::wrapping_sub(reg_read(s.regs, rs1), reg_read(s.regs, rs2)),
                ),
            ),
            Ok(ExecuteStatus::CONTINUE),
        ),
        Instruction::SLL(rd, rs1, rs2) => (
            adv_pc(set_reg(s, rd, reg_read(s.regs, rs1) << (reg_read(s.regs, rs2) & 0x1F))),
            Ok(ExecuteStatus::CONTINUE),
        ),
        Instruction::SLT(rd, rs1, rs2) => (
            adv_pc(
                set_reg(
                    s,
                    rd,
                    if (reg_read(s.regs, rs1) as i32) < (reg_read(s.regs, rs2) as i32) {
                        1
                    } else {
                        0
                    },
                ),
            ),
            Ok(ExecuteStatus::CONTINUE),
        ),
        Instruction::SLTU(rd, rs1, rs2) => (
            adv_pc(
                set_reg(
                    s,
                    rd,
                    if reg_read(s.regs, rs1) < reg_read(s.regs, rs2) {
                        1
                    } else {
                        0
                    },
                ),
            ),
            Ok(ExecuteStatus::CONTINUE),
        ),
        Instruction::XOR(rd, rs1, rs2) => (
            adv_pc(set_reg(s, rd, reg_read(s.regs, rs1) ^ reg_read(s.regs, rs2))),
            Ok(ExecuteStatus::CONTINUE),
        ),
        Instruction::SRL(rd, rs1, rs2) => (
            adv_pc(set_reg(s, rd, reg_read(s.regs, rs1) >> (reg_read(s.regs, rs2) & 0x1F))),
            Ok(ExecuteStatus::CONTINUE),
        ),
        Instruction::SRA(rd, rs1, rs2) => (
            adv_pc(
                set_reg(
                    s,
                    rd,
                    ((reg_read(s.regs, rs1) as i32) >> (((reg_read(s.regs, rs2) & 0x1F)) as i32))
                        as u32,
                ),
            ),
            Ok(ExecuteStatus::CONTINUE),
        ),
        Instruction::OR(rd, rs1, rs2) => (
            adv_pc(set_reg(s, rd, reg_read(s.regs, rs1) | reg_read(s.regs, rs2))),
            Ok(ExecuteStatus::CONTINUE),
        ),
        Instruction::AND(rd, rs1, rs2) => (
            adv_pc(set_reg(s, rd, reg_read(s.regs, rs1) & reg_read(s.regs, rs2))),
            Ok(ExecuteStatus::CONTINUE),
        ),
        Instruction::FENCE(_, _) => (adv_pc(s), Ok(ExecuteStatus::CONTINUE)),
        Instruction::FENCE_I => (adv_pc(s), Ok(ExecuteStatus::CONTINUE)),
        Instruction::ECALL => (adv_pc(s), Ok(ExecuteStatus::ECALL)),
        Instruction::EBREAK => (adv_pc(s), Ok(ExecuteStatus::EBREAK)),
        Instruction::CSRRW(_, _, _) => (adv_pc(s), Ok(ExecuteStatus::CONTINUE)),
        Instruction::CSRRS(_, _, _) => (adv_pc(s), Ok(ExecuteStatus::CONTINUE)),
        Instruction::CSRRC(_, _, _) => (adv_pc(s), Ok(ExecuteStatus::CONTINUE)),
        Instruction::CSRRWI(_, _, _) => (adv_pc(s), Ok(ExecuteStatus::CONTINUE)),
        Instruction::CSRRSI(_, _, _) => (adv_pc(s), Ok(ExecuteStatus::CONTINUE)),
        Instruction::CSRRCI(_, _, _) => (adv_pc(s), Ok(ExecuteStatus::CONTINUE)),
    }
}

impl Instruction {
    /// Executes one decoded instruction against the machine: dispatches on
    /// the instruction tag to its semantic handler.
    pub fn execute(&self, cpu: &mut CPU) -> (r: ExecuteResult<ExecuteStatus>)
        requires
            old(cpu).wf(),
            self.wf(),
        ensures
            final(cpu).wf(),
            final(cpu)@ == exec_step(old(cpu)@, *self).0,
            r == exec_step(old(cpu)@, *self).1,
    {
        match *self {
            Instruction::LUI(_, _) => self.lui(cpu),
            Instruction::AUIPC(_, _) => self.auipc(cpu),
            Instruction::JAL(_, _) => self.jal(cpu),
            Instruction::JALR(_, _, _) => self.jalr(cpu),
            Instruction::BEQ(_, _, _) => self.beq(cpu),
            Instruction::BNE(_, _, _) => self.bne(cpu),
            Instruction::BLT(_, _, _) => self.blt(cpu),
            Instruction::BGE(_, _, _) => self.bge(cpu),
            Instruction::BLTU(_, _, _) => self.bltu(cpu),
            Instruction::BGEU(_, _, _) => self.bgeu(cpu),
            Instruction::LB(_, _, _) => self.lb(cpu),
            Instruction::LH(_, _, _) => self.lh(cpu),
            Instruction::LW(_, _, _) => self.lw(cpu),
            Instruction::LBU(_, _, _) => self.lbu(cpu),
            Instruction::LHU(_, _, _) => self.lhu(cpu),
            Instruction::SB(_, _, _) => self.sb(cpu),
            Instruction::SH(_, _, _) => self.sh(cpu),
            Instruction::SW(_, _, _) => self.sw(cpu),
            Instruction::ADDI(_, _, _) => self.addi(cpu),
            Instruction::SLTI(_, _, _) => self.slti(cpu),
            Instruction::SLTIU(_, _, _) => self.sltiu(cpu),
            Instruction::XORI(_, _, _) => self.xori(cpu),
            Instruction::ORI(_, _, _) => self.ori(cpu),
            Instruction::ANDI(_, _, _) => self.andi(cpu),
            Instruction::SLLI(_, _, _) => self.slli(cpu),
            Instruction::SRLI(_, _, _) => self.srli(cpu),
            Instruction::SRAI(_, _, _) => self.srai(cpu),
            Instruction::ADD(_, _, _) => self.add(cpu),
            Instruction::SUB(_, _, _) => self.sub(cpu),
            Instruction::SLL(_, _, _) => self.sll(cpu),
            Instruction::SLT(_, _, _) => self.slt(cpu),
            Instruction::SLTU(_, _, _) => self.sltu(cpu),
            Instruction::XOR(_, _, _) => self.xor(cpu),
            Instruction::SRL(_, _, _) => self.srl(cpu),
            Instruction::SRA(_, _, _) => self.sra(cpu),
            Instruction::OR(_, _, _) => self.or(cpu),
            Instruction::AND(_, _, _) => self.and(cpu),
            Instruction::FENCE(_, _) => self.fence(cpu),
            Instruction::FENCE_I => self.fence_i(cpu),
            Instruction::ECALL => self.ecall(cpu),
            Instruction::EBREAK => self.ebreak(cpu),
            Instruction::CSRRW(_, _, _) => self.csrrw(cpu),
            Instruction::CSRRS(_, _, _) => self.csrrs(cpu),
            Instruction::CSRRC(_, _, _) => self.csrrc(cpu),
            Instruction::CSRRWI(_, _, _) => self.csrrwi(cpu),
            Instruction::CSRRSI(_, _, _) => self.csrrsi(cpu),
            Instruction::CSRRCI(_, _, _) => self.csrrci(cpu),
        }
    }

    fn lui(&self, cpu: &mut CPU) -> (r: ExecuteResult<ExecuteStatus>)
        requires
            old(cpu).wf(),
            self.wf(),
            self is LUI,
        ensures
            final(cpu).wf(),
            final(cpu)@ == exec_step(old(cpu)@, *self).0,
            r == exec_step(old(cpu)@, *self).1,
    {
        if let Instruction::LUI(rd, imm) = *self {
            cpu.registers.set(rd, imm);
        } else {
            return Err(ExecuteError::InvalidExecutionInstruction);
        }
        cpu.registers.increment_pc();
        Ok(ExecuteStatus::CONTINUE)
    }

    fn auipc(&self, cpu: &mut CPU) -> (r: ExecuteResult<ExecuteStatus>)
        requires
            old(cpu).wf(),
            self.wf(),
            self is AUIPC,
        ensures
            final(cpu).wf(),
            final(cpu)@ == exec_step(old(cpu)@, *self).0,
            r == exec_step(old(cpu)@, *self).1,
    {
        if let Instruction::AUIPC(rd, imm) = *self {
            let pc = cpu.registers.get_pc();
            cpu.registers.set(rd, pc.wrapping_add(imm));
        } else {
            return Err(ExecuteError::InvalidExecutionInstruction);
        }
        cpu.registers.increment_pc();
        Ok(ExecuteStatus::CONTINUE)
    }

    fn jal(&self, cpu: &mut CPU) -> (r: ExecuteResult<ExecuteStatus>)
        requires
            old(cpu).wf(),
            self.wf(),
            self is JAL,
        ensures
            final(cpu).wf(),
            final(cpu)@ == exec_step(old(cpu)@, *self).0,
            r == exec_step(old(cpu)@, *self).1,
    {
        if let Instruction::JAL(rd, imm) = *self {
            let pc = cpu.registers.get_pc();
            cpu.registers.set(rd, pc.wrapping_add(4));
            if imm % 4 != 0 {
                return Err(ExecuteError::MisalignedAddress);
            }
            cpu.registers.add_to_pc(imm);
        } else {
            return Err(ExecuteError::InvalidExecutionInstruction);
        }
        Ok(ExecuteStatus::CONTINUE)
    }

    fn jalr(&self, cpu: &mut CPU) -> (r: ExecuteResult<ExecuteStatus>)
        requires
            old(cpu).wf(),
            self.wf(),
            self is JALR,
        ensures
            final(cpu).wf(),
            final(cpu)@ == exec_step(old(cpu)@, *self).0,
            r == exec_step(old(cpu)@, *self).1,
    {
        if let Instruction::JALR(rd, rs1, imm) = *self {
            let pc = cpu.registers.get_pc();
            cpu.registers.set(rd, pc.wrapping_add(4));
            let address = cpu.registers.get(rs1).wrapping_add(imm) & 0xFFFF_FFFE;
            if address % 4 != 0 {
                return Err(ExecuteError::MisalignedAddress);
            }
            cpu.registers.set_pc(address);
        } else {
            return Err(ExecuteError::InvalidExecutionInstruction);
        }
        Ok(ExecuteStatus::CONTINUE)
    }

    fn beq(&self, cpu: &mut CPU) -> (r: ExecuteResult<ExecuteStatus>)
        requires
            old(cpu).wf(),
            self.wf(),
            self is BEQ,
        ensures
            final(cpu).wf(),
            final(cpu)@ == exec_step(old(cpu)@, *self).0,
            r == exec_step(old(cpu)@, *self).1,
    {
        if let Instruction::BEQ(rs1, rs2, imm) = *self {
            let v1 = cpu.registers.get(rs1);
            let v2 = cpu.registers.get(rs2);
            if v1 == v2 {
                cpu.registers.add_to_pc(imm);
            } else {
                cpu.registers.increment_pc();
            }
        } else {
            return Err(ExecuteError::InvalidExecutionInstruction);
        }
        Ok(ExecuteStatus::CONTINUE)
    }

    fn bne(&self, cpu: &mut CPU) -> (r: ExecuteResult<ExecuteStatus>)
        requires
            old(cpu).wf(),
            self.wf(),
            self is BNE,
        ensures
            final(cpu).wf(),
            final(cpu)@ == exec_step(old(cpu)@, *self).0,
            r == exec_step(old(cpu)@, *self).1,
    {
        if let Instruction::BNE(rs1, rs2, imm) = *self {
            let v1 = cpu.registers.get(rs1);
            let v2 = cpu.registers.get(rs2);
            if v1 != v2 {
                cpu.registers.add_to_pc(imm);
            } else {
                cpu.registers.increment_pc();
            }
        } else {
            return Err(ExecuteError::InvalidExecutionInstruction);
        }
        Ok(ExecuteStatus::CONTINUE)
    }

    fn blt(&self, cpu: &mut CPU) -> (r: ExecuteResult<ExecuteStatus>)
        requires
            old(cpu).wf(),
            self.wf(),
            self is BLT,
        ensures
            final(cpu).wf(),
            final(cpu)@ == exec_step(old(cpu)@, *self).0,
            r == exec_step(old(cpu)@, *self).1,
    {
        if let Instruction::BLT(rs1, rs2, imm) = *self {
            let v1 = cpu.registers.get(rs1);
            let v2 = cpu.registers.get(rs2);
            if (v1 as i32) < (v2 as i32) {
                cpu.registers.add_to_pc(imm);
            } else {
                cpu.registers.increment_pc();
            }
        } else {
            return Err(ExecuteError::InvalidExecutionInstruction);
        }
        Ok(ExecuteStatus::CONTINUE)
    }

    fn bltu(&self, cpu: &mut CPU) -> (r: ExecuteResult<ExecuteStatus>)
        requires
            old(cpu).wf(),
            self.wf(),
            self is BLTU,
        ensures
            final(cpu).wf(),
            final(cpu)@ == exec_step(old(cpu)@, *self).0,
            r == exec_step(old(cpu)@, *self).1,
    {
        if let Instruction::BLTU(rs1, rs2, imm) = *self {
            let v1 = cpu.registers.get(rs1);
            let v2 = cpu.registers.get(rs2);
            if v1 < v2 {
                cpu.registers.add_to_pc(imm);
            } else {
                cpu.registers.increment_pc();
            }
        } else {
            return Err(ExecuteError::InvalidExecutionInstruction);
        }
        Ok(ExecuteStatus::CONTINUE)
    }

    fn bge(&self, cpu: &mut CPU) -> (r: ExecuteResult<ExecuteStatus>)
        requires
            old(cpu).wf(),
            self.wf(),
            self is BGE,
        ensures
            final(cpu).wf(),
            final(cpu)@ == exec_step(old(cpu)@, *self).0,
            r == exec_step(old(cpu)@, *self).1,
    {
        if let Instruction::BGE(rs1, rs2, imm) = *self {
            let v1 = cpu.registers.get(rs1);
            let v2 = cpu.registers.get(rs2);
            if (v1 as i32) >= (v2 as i32) {
                cpu.registers.add_to_pc(imm);
            } else {
                cpu.registers.increment_pc();
            }
        } else {
            return Err(ExecuteError::InvalidExecutionInstruction);
        }
        Ok(ExecuteStatus::CONTINUE)
    }

    fn bgeu(&self, cpu: &mut CPU) -> (r: ExecuteResult<ExecuteStatus>)
        requires
            old(cpu).wf(),
            self.wf(),
            self is BGEU,
        ensures
            final(cpu).wf(),
            final(cpu)@ == exec_step(old(cpu)@, *self).0,
            r == exec_step(old(cpu)@, *self).1,
    {
        if let Instruction::BGEU(rs1, rs2, imm) = *self {
            let v1 = cpu.registers.get(rs1);
            let v2 = cpu.registers.get(rs2);
            if v1 >= v2 {
                cpu.registers.add_to_pc(imm);
            } else {
                cpu.registers.increment_pc();
            }
        } else {
            return Err(ExecuteError::InvalidExecutionInstruction);
        }
        Ok(ExecuteStatus::CONTINUE)
    }

    fn lb(&self, cpu: &mut CPU) -> (r: ExecuteResult<ExecuteStatus>)
        requires
            old(cpu).wf(),
            self.wf(),
            self is LB,
        ensures
            final(cpu).wf(),
            final(cpu)@ == exec_step(old(cpu)@, *self).0,
            r == exec_step(old(cpu)@, *self).1,
    {
        if let Instruction::LB(rd, rs1, imm) = *self {
            let address = cpu.registers.get(rs1).wrapping_add(imm);
            match cpu.memory.read_byte(address) {
                Ok(b) => {
                    let mut val: u32 = b as u32;
                    if val & 0x80 != 0 {
                        val = val | 0xFFFF_FF00;
                    }
                    cpu.registers.set(rd, val);
                },
                Err(e) => {
                    return Err(ExecuteError::MemoryError(e));
                },
            }
        } else {
            return Err(ExecuteError::InvalidExecutionInstruction);
        }
        cpu.registers.increment_pc();
        Ok(ExecuteStatus::CONTINUE)
    }

    fn lbu(&self, cpu: &mut CPU) -> (r: ExecuteResult<ExecuteStatus>)
        requires
            old(cpu).wf(),
            self.wf(),
            self is LBU,
        ensures
            final(cpu).wf(),
            final(cpu)@ == exec_step(old(cpu)@, *self).0,
            r == exec_step(old(cpu)@, *self).1,
    {
        if let Instruction::LBU(rd, rs1, imm) = *self {
            let address = cpu.registers.get(rs1).wrapping_add(imm);
            match cpu.memory.read_byte(address) {
                Ok(b) => {
                    let val: u32 = (b as u32) & 0xFF;
                    cpu.registers.set(rd, val);
                },
                Err(e) => {
                    return Err(ExecuteError::MemoryError(e));
                },
            }
        } else {
            return Err(ExecuteError::InvalidExecutionInstruction);
        }
        cpu.registers.increment_pc();
        Ok(ExecuteStatus::CONTINUE)
    }

    fn lh(&self, cpu: &mut CPU) -> (r: ExecuteResult<ExecuteStatus>)
        requires
            old(cpu).wf(),
            self.wf(),
            self is LH,
        ensures
            final(cpu).wf(),
            final(cpu)@ == exec_step(old(cpu)@, *self).0,
            r == exec_step(old(cpu)@, *self).1,
    {
        if let Instruction::LH(rd, rs1, imm) = *self {
            let address = cpu.registers.get(rs1).wrapping_add(imm);
            match cpu.memory.read_halfword(address) {
                Ok(h) => {
                    let mut val: u32 = h as u32;
                    if val & 0x8000 != 0 {
                        val = val | 0xFFFF_0000;
                    }
                    cpu.registers.set(rd, val);
                },
                Err(e) => {
                    return Err(ExecuteError::MemoryError(e));
                },
            }
        } else {
            return Err(ExecuteError::InvalidExecutionInstruction);
        }
        cpu.registers.increment_pc();
        Ok(ExecuteStatus::CONTINUE)
    }

    fn lhu(&self, cpu: &mut CPU) -> (r: ExecuteResult<ExecuteStatus>)
        requires
            old(cpu).wf(),
            self.wf(),
            self is LHU,
        ensures
            final(cpu).wf(),
            final(cpu)@ == exec_step(old(cpu)@, *self).0,
            r == exec_step(old(cpu)@, *self).1,
    {
        if let Instruction::LHU(rd, rs1, imm) = *self {
            let address = cpu.registers.get(rs1).wrapping_add(imm);
            match cpu.memory.read_halfword(address) {
                Ok(h) => {
                    let val: u32 = (h as u32) & 0xFFFF;
                    cpu.registers.set(rd, val);
                },
                Err(e) => {
                    return Err(ExecuteError::MemoryError(e));
                },
            }
        } else {
            return Err(ExecuteError::InvalidExecutionInstruction);
        }
        cpu.registers.increment_pc();
        Ok(ExecuteStatus::CONTINUE)
    }

    fn lw(&self, cpu: &mut CPU) -> (r: ExecuteResult<ExecuteStatus>)
        requires
            old(cpu).wf(),
            self.wf(),
            self is LW,
        ensures
            final(cpu).wf(),
            final(cpu)@ == exec_step(old(cpu)@, *self).0,
            r == exec_step(old(cpu)@, *self).1,
    {
        if let Instruction::LW(rd, rs1, imm) = *self {
            let address = cpu.registers.get(rs1).wrapping_add(imm);
            match cpu.memory.read_word(address) {
                Ok(w) => {
                    cpu.registers.set(rd, w);
                },
                Err(e) => {
                    return Err(ExecuteError::MemoryError(e));
                },
            }
        } else {
            return Err(ExecuteError::InvalidExecutionInstruction);
        }
        cpu.registers.increment_pc();
        Ok(ExecuteStatus::CONTINUE)
    }

    fn sb(&self, cpu: &mut CPU) -> (r: ExecuteResult<ExecuteStatus>)
        requires
            old(cpu).wf(),
            self.wf(),
            self is SB,
        ensures
            final(cpu).wf(),
            final(cpu)@ == exec_step(old(cpu)@, *self).0,
            r == exec_step(old(cpu)@, *self).1,
    {
        if let Instruction::SB(rs1, rs2, imm) = *self {
            let address = cpu.registers.get(rs1).wrapping_add(imm);
            let val = (cpu.registers.get(rs2) & 0xFF) as u8;
            match cpu.memory.write_byte(address, val) {
                Ok(_) => {},
                Err(e) => {
                    return Err(ExecuteError::MemoryError(e));
                },
            }
        } else {
            return Err(ExecuteError::InvalidExecutionInstruction);
        }
        cpu.registers.increment_pc();
        Ok(ExecuteStatus::CONTINUE)
    }

    fn sh(&self, cpu: &mut CPU) -> (r: ExecuteResult<ExecuteStatus>)
        requires
            old(cpu).wf(),
            self.wf(),
            self is SH,
        ensures
            final(cpu).wf(),
            final(cpu)@ == exec_step(old(cpu)@, *self).0,
            r == exec_step(old(cpu)@, *self).1,
    {
        if let Instruction::SH(rs1, rs2, imm) = *self {
            let address = cpu.registers.get(rs1).wrapping_add(imm);
            let val = (cpu.registers.get(rs2) & 0xFFFF) as u16;
            match cpu.memory.write_halfword(address, val) {
                Ok(_) => {},
                Err(e) => {
                    return Err(ExecuteError::MemoryError(e));
                },
            }
        } else {
            return Err(ExecuteError::InvalidExecutionInstruction);
        }
        cpu.registers.increment_pc();
        Ok(ExecuteStatus::CONTINUE)
    }

    fn sw(&self, cpu: &mut CPU) -> (r: ExecuteResult<ExecuteStatus>)
        requires
            old(cpu).wf(),
            self.wf(),
            self is SW,
        ensures
            final(cpu).wf(),
            final(cpu)@ == exec_step(old(cpu)@, *self).0,
            r == exec_step(old(cpu)@, *self).1,
    {
        if let Instruction::SW(rs1, rs2, imm) = *self {
            let address = cpu.registers.get(rs1).wrapping_add(imm);
            let val = cpu.registers.get(rs2);
            match cpu.memory.write_word(address, val) {
                Ok(_) => {},
                Err(e) => {
                    return Err(ExecuteError::MemoryError(e));
                },
            }
        } else {
            return Err(ExecuteError::InvalidExecutionInstruction);
        }
        cpu.registers.increment_pc();
        Ok(ExecuteStatus::CONTINUE)
    }

    fn addi(&self, cpu: &mut CPU) -> (r: ExecuteResult<ExecuteStatus>)
        requires
            old(cpu).wf(),
            self.wf(),
            self is ADDI,
        ensures
            final(cpu).wf(),
            final(cpu)@ == exec_step(old(cpu)@, *self).0,
            r == exec_step(old(cpu)@, *self).1,
    {
        if let Instruction::ADDI(rd, rs1, imm) = *self {
            let val: u32 = cpu.registers.get(rs1).wrapping_add(imm);
            cpu.registers.set(rd, val);
        } else {
            return Err(ExecuteError::InvalidExecutionInstruction);
        }
        cpu.registers.increment_pc();
        Ok(ExecuteStatus::CONTINUE)
    }

    fn slti(&self, cpu: &mut CPU) -> (r: ExecuteResult<ExecuteStatus>)
        requires
            old(cpu).wf(),
            self.wf(),
            self is SLTI,
        ensures
            final(cpu).wf(),
            final(cpu)@ == exec_step(old(cpu)@, *self).0,
            r == exec_step(old(cpu)@, *self).1,
    {
        if let Instruction::SLTI(rd, rs1, imm) = *self {
            let val: u32 = if (cpu.registers.get(rs1) as i32) < (imm as i32) {
                1
            } else {
                0
            };
            cpu.registers.set(rd, val);
        } else {
            return Err(ExecuteError::InvalidExecutionInstruction);
        }
        cpu.registers.increment_pc();
        Ok(ExecuteStatus::CONTINUE)
    }

    fn sltiu(&self, cpu: &mut CPU) -> (r: ExecuteResult<ExecuteStatus>)
        requires
            old(cpu).wf(),
            self.wf(),
            self is SLTIU,
        ensures
            final(cpu).wf(),
            final(cpu)@ == exec_step(old(cpu)@, *self).0,
            r == exec_step(old(cpu)@, *self).1,
    {
        if let Instruction::SLTIU(rd, rs1, imm) = *self {
            let val: u32 = if cpu.registers.get(rs1) < imm {
                1
            } else {
                0
            };
            cpu.registers.set(rd, val);
        } else {
            return Err(ExecuteError::InvalidExecutionInstruction);
        }
        cpu.registers.increment_pc();
        Ok(ExecuteStatus::CONTINUE)
    }

    fn xori(&self, cpu: &mut CPU) -> (r: ExecuteResult<ExecuteStatus>)
        requires
            old(cpu).wf(),
            self.wf(),
            self is XORI,
        ensures
            final(cpu).wf(),
            final(cpu)@ == exec_step(old(cpu)@, *self).0,
            r == exec_step(old(cpu)@, *self).1,
    {
        if let Instruction::XORI(rd, rs1, imm) = *self {
            let val: u32 = cpu.registers.get(rs1) ^ imm;
            cpu.registers.set(rd, val);
        } else {
            return Err(ExecuteError::InvalidExecutionInstruction);
        }
        cpu.registers.increment_pc();
        Ok(ExecuteStatus::CONTINUE)
    }

    fn ori(&self, cpu: &mut CPU) -> (r: ExecuteResult<ExecuteStatus>)
        requires
            old(cpu).wf(),
            self.wf(),
            self is ORI,
        ensures
            final(cpu).wf(),
            final(cpu)@ == exec_step(old(cpu)@, *self).0,
            r == exec_step(old(cpu)@, *self).1,
    {
        if let Instruction::ORI(rd, rs1, imm) = *self {
            let val: u32 = cpu.registers.get(rs1) | imm;
            cpu.registers.set(rd, val);
        } else {
            return Err(ExecuteError::InvalidExecutionInstruction);
        }
        cpu.registers.increment_pc();
        Ok(ExecuteStatus::CONTINUE)
    }

    fn andi(&self, cpu: &mut CPU) -> (r: ExecuteResult<ExecuteStatus>)
        requires
            old(cpu).wf(),
            self.wf(),
            self is ANDI,
        ensures
            final(cpu).wf(),
            final(cpu)@ == exec_step(old(cpu)@, *self).0,
            r == exec_step(old(cpu)@, *self).1,
    {
        if let Instruction::ANDI(rd, rs1, imm) = *self {
            let val: u32 = cpu.registers.get(rs1) & imm;
            cpu.registers.set(rd, val);
        } else {
            return Err(ExecuteError::InvalidExecutionInstruction);
        }
        cpu.registers.increment_pc();
        Ok(ExecuteStatus::CONTINUE)
    }

    fn slli(&self, cpu: &mut CPU) -> (r: ExecuteResult<ExecuteStatus>)
        requires
            old(cpu).wf(),
            self.wf(),
            self is SLLI,
        ensures
            final(cpu).wf(),
            final(cpu)@ == exec_step(old(cpu)@, *self).0,
            r == exec_step(old(cpu)@, *self).1,
    {
        if let Instruction::SLLI(rd, rs1, shamt) = *self {
            let val: u32 = cpu.registers.get(rs1) << shamt;
            cpu.registers.set(rd, val);
        } else {
            return Err(ExecuteError::InvalidExecutionInstruction);
        }
        cpu.registers.increment_pc();
        Ok(ExecuteStatus::CONTINUE)
    }

    fn srli(&self, cpu: &mut CPU) -> (r: ExecuteResult<ExecuteStatus>)
        requires
            old(cpu).wf(),
            self.wf(),
            self is SRLI,
        ensures
            final(cpu).wf(),
            final(cpu)@ == exec_step(old(cpu)@, *self).0,
            r == exec_step(old(cpu)@, *self).1,
    {
        if let Instruction::SRLI(rd, rs1, shamt) = *self {
            let val: u32 = cpu.registers.get(rs1) >> shamt;
            cpu.registers.set(rd, val);
        } else {
            return Err(ExecuteError::InvalidExecutionInstruction);
        }
        cpu.registers.increment_pc();
        Ok(ExecuteStatus::CONTINUE)
    }

    fn srai(&self, cpu: &mut CPU) -> (r: ExecuteResult<ExecuteStatus>)
        requires
            old(cpu).wf(),
            self.wf(),
            self is SRAI,
        ensures
            final(cpu).wf(),
            final(cpu)@ == exec_step(old(cpu)@, *self).0,
            r == exec_step(old(cpu)@, *self).1,
    {
        if let Instruction::SRAI(rd, rs1, shamt) = *self {
            let val: u32 = ((cpu.registers.get(rs1) as i32) >> (shamt as i32)) as u32;
            cpu.registers.set(rd, val);
        } else {
            return Err(ExecuteError::InvalidExecutionInstruction);
        }
        cpu.registers.increment_pc();
        Ok(ExecuteStatus::CONTINUE)
    }

    fn add(&self, cpu: &mut CPU) -> (r: ExecuteResult<ExecuteStatus>)
        requires
            old(cpu).wf(),
            self.wf(),
            self is ADD,
        ensures
            final(cpu).wf(),
            final(cpu)@ == exec_step(old(cpu)@, *self).0,
            r == exec_step(old(cpu)@, *self).1,
    {
        if let Instruction::ADD(rd, rs1, rs2) = *self {
            let v1 = cpu.registers.get(rs1);
            let v2 = cpu.registers.get(rs2);
            let val: u32 = v1.wrapping_add(v2);
            cpu.registers.set(rd, val);
        } else {
            return Err(ExecuteError::InvalidExecutionInstruction);
        }
        cpu.registers.increment_pc();
        Ok(ExecuteStatus::CONTINUE)
    }

    fn sub(&self, cpu: &mut CPU) -> (r: ExecuteResult<ExecuteStatus>)
        requires
            old(cpu).wf(),
            self.wf(),
            self is SUB,
        ensures
            final(cpu).wf(),
            final(cpu)@ == exec_step(old(cpu)@, *self).0,
            r == exec_step(old(cpu)@, *self).1,
    {
        if let Instruction::SUB(rd, rs1, rs2) = *self {
            let v1 = cpu.registers.get(rs1);
            let v2 = cpu.registers.get(rs2);
            let val: u32 = v1.wrapping_sub(v2);
            cpu.registers.set(rd, val);
        } else {
            return Err(ExecuteError::InvalidExecutionInstruction);
        }
        cpu.registers.increment_pc();
        Ok(ExecuteStatus::CONTINUE)
    }

    fn slt(&self, cpu: &mut CPU) -> (r: ExecuteResult<ExecuteStatus>)
        requires
            old(cpu).wf(),
            self.wf(),
            self is SLT,
        ensures
            final(cpu).wf(),
            final(cpu)@ == exec_step(old(cpu)@, *self).0,
            r == exec_step(old(cpu)@, *self).1,
    {
        if let Instruction::SLT(rd, rs1, rs2) = *self {
            let v1 = cpu.registers.get(rs1);
            let v2 = cpu.registers.get(rs2);
            let val: u32 = if (v1 as i32) < (v2 as i32) {
                1
            } else {
                0
            };
            cpu.registers.set(rd, val);
        } else {
            return Err(ExecuteError::InvalidExecutionInstruction);
        }
        cpu.registers.increment_pc();
        Ok(ExecuteStatus::CONTINUE)
    }

    fn sltu(&self, cpu: &mut CPU) -> (r: ExecuteResult<ExecuteStatus>)
        requires
            old(cpu).wf(),
            self.wf(),
            self is SLTU,
        ensures
            final(cpu).wf(),
            final(cpu)@ == exec_step(old(cpu)@, *self).0,
            r == exec_step(old(cpu)@, *self).1,
    {
        if let Instruction::SLTU(rd, rs1, rs2) = *self {
            let v1 = cpu.registers.get(rs1);
            let v2 = cpu.registers.get(rs2);
            let val: u32 = if v1 < v2 {
                1
            } else {
                0
            };
            cpu.registers.set(rd, val);
        } else {
            return Err(ExecuteError::InvalidExecutionInstruction);
        }
        cpu.registers.increment_pc();
        Ok(ExecuteStatus::CONTINUE)
    }

    fn xor(&self, cpu: &mut CPU) -> (r: ExecuteResult<ExecuteStatus>)
        requires
            old(cpu).wf(),
            self.wf(),
            self is XOR,
        ensures
            final(cpu).wf(),
            final(cpu)@ == exec_step(old(cpu)@, *self).0,
            r == exec_step(old(cpu)@, *self).1,
    {
        if let Instruction::XOR(rd, rs1, rs2) = *self {
            let v1 = cpu.registers.get(rs1);
            let v2 = cpu.registers.get(rs2);
            let val: u32 = v1 ^ v2;
            cpu.registers.set(rd, val);
        } else {
            return Err(ExecuteError::InvalidExecutionInstruction);
        }
        cpu.registers.increment_pc();
        Ok(ExecuteStatus::CONTINUE)
    }

    fn or(&self, cpu: &mut CPU) -> (r: ExecuteResult<ExecuteStatus>)
        requires
            old(cpu).wf(),
            self.wf(),
            self is OR,
        ensures
            final(cpu).wf(),
            final(cpu)@ == exec_step(old(cpu)@, *self).0,
            r == exec_step(old(cpu)@, *self).1,
    {
        if let Instruction::OR(rd, rs1, rs2) = *self {
            let v1 = cpu.registers.get(rs1);
            let v2 = cpu.registers.get(rs2);
            let val: u32 = v1 | v2;
            cpu.registers.set(rd, val);
        } else {
            return Err(ExecuteError::InvalidExecutionInstruction);
        }
        cpu.registers.increment_pc();
        Ok(ExecuteStatus::CONTINUE)
    }

    fn and(&self, cpu: &mut CPU) -> (r: ExecuteResult<ExecuteStatus>)
        requires
            old(cpu).wf(),
            self.wf(),
            self is AND,
        ensures
            final(cpu).wf(),
            final(cpu)@ == exec_step(old(cpu)@, *self).0,
            r == exec_step(old(cpu)@, *self).1,
    {
        if let Instruction::AND(rd, rs1, rs2) = *self {
            let v1 = cpu.registers.get(rs1);
            let v2 = cpu.registers.get(rs2);
            let val: u32 = v1 & v2;
            cpu.registers.set(rd, val);
        } else {
            return Err(ExecuteError::InvalidExecutionInstruction);
        }
        cpu.registers.increment_pc();
        Ok(ExecuteStatus::CONTINUE)
    }

    fn sll(&self, cpu: &mut CPU) -> (r: ExecuteResult<ExecuteStatus>)
        requires
            old(cpu).wf(),
            self.wf(),
            self is SLL,
        ensures
            final(cpu).wf(),
            final(cpu)@ == exec_step(old(cpu)@, *self).0,
            r == exec_step(old(cpu)@, *self).1,
    {
        if let Instruction::SLL(rd, rs1, rs2) = *self {
            let v1 = cpu.registers.get(rs1);
            let v2 = cpu.registers.get(rs2);
            let sh = v2 & 0x1F;
            proof {
                lemma_mask5(v2);
            }
            let val: u32 = v1 << sh;
            cpu.registers.set(rd, val);
        } else {
            return Err(ExecuteError::InvalidExecutionInstruction);
        }
        cpu.registers.increment_pc();
        Ok(ExecuteStatus::CONTINUE)
    }

    fn srl(&self, cpu: &mut CPU) -> (r: ExecuteResult<ExecuteStatus>)
        requires
            old(cpu).wf(),
            self.wf(),
            self is SRL,
        ensures
            final(cpu).wf(),
            final(cpu)@ == exec_step(old(cpu)@, *self).0,
            r == exec_step(old(cpu)@, *self).1,
    {
        if let Instruction::SRL(rd, rs1, rs2) = *self {
            let v1 = cpu.registers.get(rs1);
            let v2 = cpu.registers.get(rs2);
            let sh = v2 & 0x1F;
            proof {
                lemma_mask5(v2);
            }
            let val: u32 = v1 >> sh;
            cpu.registers.set(rd, val);
        } else {
            return Err(ExecuteError::InvalidExecutionInstruction);
        }
        cpu.registers.increment_pc();
        Ok(ExecuteStatus::CONTINUE)
    }

    fn sra(&self, cpu: &mut CPU) -> (r: ExecuteResult<ExecuteStatus>)
        requires
            old(cpu).wf(),
            self.wf(),
            self is SRA,
        ensures
            final(cpu).wf(),
            final(cpu)@ == exec_step(old(cpu)@, *self).0,
            r == exec_step(old(cpu)@, *self).1,
    {
        if let Instruction::SRA(rd, rs1, rs2) = *self {
            let v1 = cpu.registers.get(rs1);
            let v2 = cpu.registers.get(rs2);
            let sh = v2 & 0x1F;
            proof {
                lemma_mask5(v2);
            }
            let val: u32 = ((v1 as i32) >> (sh as i32)) as u32;
            cpu.registers.set(rd, val);
        } else {
            return Err(ExecuteError::InvalidExecutionInstruction);
        }
        cpu.registers.increment_pc();
        Ok(ExecuteStatus::CONTINUE)
    }

    fn fence(&self, cpu: &mut CPU) -> (r: ExecuteResult<ExecuteStatus>)
        requires
            old(cpu).wf(),
            self.wf(),
            self is FENCE,
        ensures
            final(cpu).wf(),
            final(cpu)@ == exec_step(old(cpu)@, *self).0,
            r == exec_step(old(cpu)@, *self).1,
    {
        if let Instruction::FENCE(_, _) = *self {
        } else {
            return Err(ExecuteError::InvalidExecutionInstruction);
        }
        cpu.registers.increment_pc();
        Ok(ExecuteStatus::CONTINUE)
    }

    fn fence_i(&self, cpu: &mut CPU) -> (r: ExecuteResult<ExecuteStatus>)
        requires
            old(cpu).wf(),
            self.wf(),
            self is FENCE_I,
        ensures
            final(cpu).wf(),
            final(cpu)@ == exec_step(old(cpu)@, *self).0,
            r == exec_step(old(cpu)@, *self).1,
    {
        if let Instruction::FENCE_I = *self {
        } else {
            return Err(ExecuteError::InvalidExecutionInstruction);
        }
        cpu.registers.increment_pc();
        Ok(ExecuteStatus::CONTINUE)
    }

    fn ecall(&self, cpu: &mut CPU) -> (r: ExecuteResult<ExecuteStatus>)
        requires
            old(cpu).wf(),
            self.wf(),
            self is ECALL,
        ensures
            final(cpu).wf(),
            final(cpu)@ == exec_step(old(cpu)@, *self).0,
            r == exec_step(old(cpu)@, *self).1,
    {
        if let Instruction::ECALL = *self {
        } else {
            return Err(ExecuteError::InvalidExecutionInstruction);
        }
        cpu.registers.increment_pc();
        Ok(ExecuteStatus::ECALL)
    }

    fn ebreak(&self, cpu: &mut CPU) -> (r: ExecuteResult<ExecuteStatus>)
        requires
            old(cpu).wf(),
            self.wf(),
            self is EBREAK,
        ensures
            final(cpu).wf(),
            final(cpu)@ == exec_step(old(cpu)@, *self).0,
            r == exec_step(old(cpu)@, *self).1,
    {
        if let Instruction::EBREAK = *self {
        } else {
            return Err(ExecuteError::InvalidExecutionInstruction);
        }
        cpu.registers.increment_pc();
        Ok(ExecuteStatus::EBREAK)
    }

    fn csrrw(&self, cpu: &mut CPU) -> (r: ExecuteResult<ExecuteStatus>)
        requires
            old(cpu).wf(),
            self.wf(),
            self is CSRRW,
        ensures
            final(cpu).wf(),
            final(cpu)@ == exec_step(old(cpu)@, *self).0,
            r == exec_step(old(cpu)@, *self).1,
    {
        if let Instruction::CSRRW(_, _, _) = *self {
        } else {
            return Err(ExecuteError::InvalidExecutionInstruction);
        }
        cpu.registers.increment_pc();
        Ok(ExecuteStatus::CONTINUE)
    }

    fn csrrs(&self, cpu: &mut CPU) -> (r: ExecuteResult<ExecuteStatus>)
        requires
            old(cpu).wf(),
            self.wf(),
            self is CSRRS,
        ensures
            final(cpu).wf(),
            final(cpu)@ == exec_step(old(cpu)@, *self).0,
            r == exec_step(old(cpu)@, *self).1,
    {
        if let Instruction::CSRRS(_, _, _) = *self {
        } else {
            return Err(ExecuteError::InvalidExecutionInstruction);
        }
        cpu.registers.increment_pc();
        Ok(ExecuteStatus::CONTINUE)
    }

    fn csrrc(&self, cpu: &mut CPU) -> (r: ExecuteResult<ExecuteStatus>)
        requires
            old(cpu).wf(),
            self.wf(),
            self is CSRRC,
        ensures
            final(cpu).wf(),
            final(cpu)@ == exec_step(old(cpu)@, *self).0,
            r == exec_step(old(cpu)@, *self).1,
    {
        if let Instruction::CSRRC(_, _, _) = *self {
        } else {
            return Err(ExecuteError::InvalidExecutionInstruction);
        }
        cpu.registers.increment_pc();
        Ok(ExecuteStatus::CONTINUE)
    }

    fn csrrwi(&self, cpu: &mut CPU) -> (r: ExecuteResult<ExecuteStatus>)
        requires
            old(cpu).wf(),
            self.wf(),
            self is CSRRWI,
        ensures
            final(cpu).wf(),
            final(cpu)@ == exec_step(old(cpu)@, *self).0,
            r == exec_step(old(cpu)@, *self).1,
    {
        if let Instruction::CSRRWI(_, _, _) = *self {
        } else {
            return Err(ExecuteError::InvalidExecutionInstruction);
        }
        cpu.registers.increment_pc();
        Ok(ExecuteStatus::CONTINUE)
    }

    fn csrrsi(&self, cpu: &mut CPU) -> (r: ExecuteResult<ExecuteStatus>)
        requires
            old(cpu).wf(),
            self.wf(),
            self is CSRRSI,
        ensures
            final(cpu).wf(),
            final(cpu)@ == exec_step(old(cpu)@, *self).0,
            r == exec_step(old(cpu)@, *self).1,
    {
        if let Instruction::CSRRSI(_, _, _) = *self {
        } else {
            return Err(ExecuteError::InvalidExecutionInstruction);
        }
        cpu.registers.increment_pc();
        Ok(ExecuteStatus::CONTINUE)
    }

    fn csrrci(&self, cpu: &mut CPU) -> (r: ExecuteResult<ExecuteStatus>)
        requires
            old(cpu).wf(),
            self.wf(),
            self is CSRRCI,
        ensures
            final(cpu).wf(),
            final(cpu)@ == exec_step(old(cpu)@, *self).0,
            r == exec_step(old(cpu)@, *self).1,
    {
        if let Instruction::CSRRCI(_, _, _) = *self {
        } else {
            return Err(ExecuteError::InvalidExecutionInstruction);
        }
        cpu.registers.increment_pc();
        Ok(ExecuteStatus::CONTINUE)
    }
}


/// A branch with equal source registers advances the program counter by the
/// branch immediate; with unequal sources it advances by exactly 4. Nothing
/// else about the machine changes.
pub proof fn lemma_beq_pc(s: CpuV, rs1: u32, rs2: u32, imm: u32)
    ensures
        reg_read(s.regs, rs1) == reg_read(s.regs, rs2) ==> exec_step(
            s,
            Instruction::BEQ(rs1, rs2, imm),
        ).0.pc == u32_specs::wrapping_add(s.pc, imm),
        reg_read(s.regs, rs1) != reg_read(s.regs, rs2) ==> exec_step(
            s,
            Instruction::BEQ(rs1, rs2, imm),
        ).0.pc == u32_specs::wrapping_add(s.pc, 4),
        exec_step(s, Instruction::BEQ(rs1, rs2, imm)).0.regs == s.regs,
        exec_step(s, Instruction::BEQ(rs1, rs2, imm)).0.mem == s.mem,
        exec_step(s, Instruction::BEQ(rs1, rs2, imm)).1 == Ok::<ExecuteStatus, ExecuteError>(
            ExecuteStatus::CONTINUE,
        ),
{
}

/// A jump whose immediate is not a multiple of 4 faults with the
/// misaligned-address error and leaves the program counter untouched; an
/// aligned one moves the program counter by the immediate.
pub proof fn lemma_jal_alignment(s: CpuV, rd: u32, imm: u32)
    ensures
        imm % 4 != 0 ==> exec_step(s, Instruction::JAL(rd, imm)).1 == Err::<
            ExecuteStatus,
            ExecuteError,
        >(ExecuteError::MisalignedAddress) && exec_step(s, Instruction::JAL(rd, imm)).0.pc == s.pc,
        imm % 4 == 0 ==> exec_step(s, Instruction::JAL(rd, imm)).1 == Ok::<
            ExecuteStatus,
            ExecuteError,
        >(ExecuteStatus::CONTINUE) && exec_step(s, Instruction::JAL(rd, imm)).0.pc
            == u32_specs::wrapping_add(s.pc, imm),
        exec_step(s, Instruction::JAL(rd, imm)).0.mem == s.mem,
{
}

/// A register-indirect jump whose computed target (low bit forced to 0) is
/// not a multiple of 4 faults with the misaligned-address error and leaves
/// the program counter untouched; otherwise the program counter becomes the
/// target.
pub proof fn lemma_jalr_alignment(s: CpuV, rd: u32, rs1: u32, imm: u32)
    ensures
        ({
            let s1 = set_reg(s, rd, u32_specs::wrapping_add(s.pc, 4));
            let target = u32_specs::wrapping_add(reg_read(s1.regs, rs1), imm) & 0xFFFF_FFFE;
            &&& target % 4 != 0 ==> exec_step(s, Instruction::JALR(rd, rs1, imm)).1 == Err::<
                ExecuteStatus,
                ExecuteError,
            >(ExecuteError::MisalignedAddress) && exec_step(
                s,
                Instruction::JALR(rd, rs1, imm),
            ).0.pc == s.pc
            &&& target % 4 == 0 ==> exec_step(s, Instruction::JALR(rd, rs1, imm)).1 == Ok::<
                ExecuteStatus,
                ExecuteError,
            >(ExecuteStatus::CONTINUE) && exec_step(s, Instruction::JALR(rd, rs1, imm)).0.pc
                == target
            &&& exec_step(s, Instruction::JALR(rd, rs1, imm)).0.mem == s.mem
        }),
{
}

} // verus!
