use emulator_rs::cpu::{CPUError, CPUStatus, CPU};
use emulator_rs::instructions::{ExecuteError, Instruction};
use emulator_rs::mem::MemoryError;

/// Drives the fetch-decode-execute loop to completion one step at a time,
/// panicking if the program runs longer than `max_steps`.
fn run_to_completion(cpu: &mut CPU, max_steps: usize) -> Result<CPUStatus, CPUError> {
    for _ in 0..max_steps {
        match cpu.run_for_steps(1) {
            Ok(CPUStatus::Continue) => {}
            other => return other,
        }
    }
    panic!("program did not halt within {} steps", max_steps);
}

#[test]
fn cpu_fetch() {
    let mut cpu = CPU::new(0, 1024);
    cpu.get_memory().write_word(0, 0x11335577).unwrap();
    assert_eq!(cpu.fetch().unwrap(), 0x11335577);
}

#[test]
fn cpu_execute() {
    let mut cpu = CPU::new(0, 1024);
    cpu.get_memory().write_word(0, 0x7FF00193).unwrap();
    let instr_fetch = cpu.fetch().unwrap();
    assert_eq!(instr_fetch, 0x7FF00193);
    let instr_decode = cpu.decode(instr_fetch).unwrap();
    assert_eq!(instr_decode, Instruction::ADDI(3, 0, 2047));
    instr_decode.execute(&mut cpu).unwrap();
    assert_eq!(cpu.get_registers().get(3), 2047);
}

#[test]
fn addi_from_fresh_cpu() {
    let mut cpu = CPU::new(0, 1024);
    let instr = Instruction::decode(0x7FF00193).unwrap();
    assert_eq!(instr, Instruction::ADDI(3, 0, 2047));
    instr.execute(&mut cpu).unwrap();
    assert_eq!(cpu.get_registers().get(3), 2047);
    assert_eq!(cpu.get_registers().get_pc(), 4);
}

#[test]
fn beq_taken_and_not_taken() {
    let mut cpu = CPU::new(0, 1024);
    cpu.get_registers().set(1, 5);
    cpu.get_registers().set(2, 5);
    cpu.get_registers().set_pc(100);
    Instruction::BEQ(1, 2, 16).execute(&mut cpu).unwrap();
    assert_eq!(cpu.get_registers().get_pc(), 116);

    cpu.get_registers().set(2, 6);
    cpu.get_registers().set_pc(100);
    Instruction::BEQ(1, 2, 16).execute(&mut cpu).unwrap();
    assert_eq!(cpu.get_registers().get_pc(), 104);
}

#[test]
fn jal_misaligned_leaves_pc() {
    let mut cpu = CPU::new(0, 1024);
    cpu.get_registers().set_pc(40);
    let r = Instruction::JAL(1, 6).execute(&mut cpu);
    assert_eq!(r, Err(ExecuteError::MisalignedAddress));
    assert_eq!(cpu.get_registers().get_pc(), 40);
}

#[test]
fn jalr_misaligned_leaves_pc() {
    let mut cpu = CPU::new(0, 1024);
    cpu.get_registers().set(5, 2);
    cpu.get_registers().set_pc(40);
    let r = Instruction::JALR(1, 5, 0).execute(&mut cpu);
    assert_eq!(r, Err(ExecuteError::MisalignedAddress));
    assert_eq!(cpu.get_registers().get_pc(), 40);
}

#[test]
fn jal_aligned_jumps_and_links() {
    let mut cpu = CPU::new(0, 1024);
    cpu.get_registers().set_pc(40);
    Instruction::JAL(1, 16).execute(&mut cpu).unwrap();
    assert_eq!(cpu.get_registers().get(1), 44);
    assert_eq!(cpu.get_registers().get_pc(), 56);
}

#[test]
fn srai_is_arithmetic() {
    let mut cpu = CPU::new(0, 1024);
    cpu.get_registers().set(2, 0x8000_0000);
    Instruction::SRAI(1, 2, 4).execute(&mut cpu).unwrap();
    assert_eq!(cpu.get_registers().get(1), 0xF800_0000);
}

#[test]
fn load_from_unmapped_memory_faults() {
    let mut cpu = CPU::new(0, 1024);
    let r = Instruction::LW(1, 0, 0x2000).execute(&mut cpu);
    assert_eq!(r, Err(ExecuteError::MemoryError(MemoryError::UnmappedRegion)));
    assert_eq!(cpu.get_registers().get_pc(), 0);
}

#[test]
fn load_sign_extends_store_writes_register() {
    let mut cpu = CPU::new(0, 1024);
    cpu.get_registers().set(2, 0xFFFF_FF85);
    // SB: write the low byte of register 2 at address 64.
    Instruction::SB(0, 2, 64).execute(&mut cpu).unwrap();
    assert_eq!(cpu.get_memory().read_byte(64).unwrap(), 0x85);
    // LB sign-extends the byte read back.
    Instruction::LB(3, 0, 64).execute(&mut cpu).unwrap();
    assert_eq!(cpu.get_registers().get(3), 0xFFFF_FF85);
    // LBU zero-extends it.
    Instruction::LBU(4, 0, 64).execute(&mut cpu).unwrap();
    assert_eq!(cpu.get_registers().get(4), 0x85);
}

#[test]
fn fetch_from_unmapped_pc_faults() {
    let mut cpu = CPU::new(0, 1024);
    cpu.get_registers().set_pc(0x10000);
    assert_eq!(cpu.fetch(), Err(CPUError::MemoryError(MemoryError::UnmappedRegion)));
}

#[test]
fn cpu_decode_wraps_decode_fault() {
    let cpu = CPU::new(0, 1024);
    assert_eq!(
        cpu.decode(0x00000000),
        Err(CPUError::DecodeError(
            emulator_rs::instructions::DecodeError::InvalidInstruction(0, 0)
        ))
    );
}

#[test]
fn cpu_execute_wraps_execute_fault() {
    let mut cpu = CPU::new(0, 1024);
    let r = cpu.execute(Instruction::LW(1, 0, 0x2000));
    assert_eq!(
        r,
        Err(CPUError::ExecuteError(ExecuteError::MemoryError(
            MemoryError::UnmappedRegion
        )))
    );
}

#[test]
fn end_to_end_computes_into_a0() {
    let mut cpu = CPU::new(0, 16384);
    // ADDI x5, x0, 21; ADD x10, x5, x5; ECALL.
    cpu.get_memory().write_word(0, 0x01500293).unwrap();
    cpu.get_memory().write_word(4, 0x00528533).unwrap();
    cpu.get_memory().write_word(8, 0x00000073).unwrap();
    let result = run_to_completion(&mut cpu, 100);
    assert_eq!(result, Ok(CPUStatus::Halt));
    assert_eq!(cpu.get_registers().get(10), 42);
    assert_eq!(cpu.get_registers().get_pc(), 12);
}

#[test]
fn run_for_steps_reports_last_iteration() {
    let mut cpu = CPU::new(0, 1024);
    cpu.get_memory().write_word(0, 0x01500293).unwrap(); // ADDI x5, x0, 21
    cpu.get_memory().write_word(4, 0x00000073).unwrap(); // ECALL
    assert_eq!(cpu.run_for_steps(1), Ok(CPUStatus::Continue));
    assert_eq!(cpu.run_for_steps(1), Ok(CPUStatus::Halt));
}

#[test]
fn run_for_steps_does_not_stop_on_halt() {
    let mut cpu = CPU::new(0, 1024);
    cpu.get_memory().write_word(0, 0x00000073).unwrap(); // ECALL
    cpu.get_memory().write_word(4, 0x00700093).unwrap(); // ADDI x1, x0, 7
    assert_eq!(cpu.run_for_steps(2), Ok(CPUStatus::Continue));
    assert_eq!(cpu.get_registers().get(1), 7);
}

#[test]
fn run_for_steps_zero_is_identity() {
    let mut cpu = CPU::new(0, 1024);
    assert_eq!(cpu.run_for_steps(0), Ok(CPUStatus::Continue));
    assert_eq!(cpu.get_registers().get_pc(), 0);
}

#[test]
fn ecall_and_ebreak_advance_pc() {
    let mut cpu = CPU::new(0, 1024);
    Instruction::ECALL.execute(&mut cpu).unwrap();
    assert_eq!(cpu.get_registers().get_pc(), 4);
    Instruction::EBREAK.execute(&mut cpu).unwrap();
    assert_eq!(cpu.get_registers().get_pc(), 8);
}

#[test]
fn csr_and_fence_are_inert() {
    let mut cpu = CPU::new(0, 1024);
    Instruction::CSRRW(1, 2, 0x300).execute(&mut cpu).unwrap();
    Instruction::FENCE(0, 0).execute(&mut cpu).unwrap();
    assert_eq!(cpu.get_registers().get_pc(), 8);
    for i in 0..32u32 {
        assert_eq!(cpu.get_registers().get(i), 0);
    }
}

#[test]
fn arithmetic_wraps_around() {
    let mut cpu = CPU::new(0, 1024);
    cpu.get_registers().set(1, 0xFFFF_FFFF);
    cpu.get_registers().set(2, 2);
    Instruction::ADD(3, 1, 2).execute(&mut cpu).unwrap();
    assert_eq!(cpu.get_registers().get(3), 1);
    Instruction::SUB(4, 0, 2).execute(&mut cpu).unwrap();
    assert_eq!(cpu.get_registers().get(4), 0xFFFF_FFFE);
}

#[test]
fn lui_and_auipc() {
    let mut cpu = CPU::new(0, 1024);
    cpu.get_registers().set_pc(0x100);
    Instruction::LUI(1, 0xABCD_E000).execute(&mut cpu).unwrap();
    assert_eq!(cpu.get_registers().get(1), 0xABCD_E000);
    Instruction::AUIPC(2, 0x0001_0000).execute(&mut cpu).unwrap();
    assert_eq!(cpu.get_registers().get(2), 0x0001_0104);
    assert_eq!(cpu.get_registers().get_pc(), 0x108);
}

#[test]
fn logical_and_comparison_ops() {
    let mut cpu = CPU::new(0, 1024);
    cpu.get_registers().set(1, 0b1100);
    cpu.get_registers().set(2, 0b1010);
    Instruction::XOR(3, 1, 2).execute(&mut cpu).unwrap();
    assert_eq!(cpu.get_registers().get(3), 0b0110);
    Instruction::OR(4, 1, 2).execute(&mut cpu).unwrap();
    assert_eq!(cpu.get_registers().get(4), 0b1110);
    Instruction::AND(5, 1, 2).execute(&mut cpu).unwrap();
    assert_eq!(cpu.get_registers().get(5), 0b1000);
    // Signed: -1 < 2; unsigned: 0xFFFF_FFFF > 2.
    cpu.get_registers().set(6, 0xFFFF_FFFF);
    Instruction::SLT(7, 6, 2).execute(&mut cpu).unwrap();
    assert_eq!(cpu.get_registers().get(7), 1);
    Instruction::SLTU(8, 6, 2).execute(&mut cpu).unwrap();
    assert_eq!(cpu.get_registers().get(8), 0);
    Instruction::SLTI(9, 6, 0).execute(&mut cpu).unwrap();
    assert_eq!(cpu.get_registers().get(9), 1);
    Instruction::SLTIU(10, 6, 0).execute(&mut cpu).unwrap();
    assert_eq!(cpu.get_registers().get(10), 0);
    Instruction::XORI(11, 1, 0b0101).execute(&mut cpu).unwrap();
    assert_eq!(cpu.get_registers().get(11), 0b1001);
    Instruction::ORI(12, 1, 0b0011).execute(&mut cpu).unwrap();
    assert_eq!(cpu.get_registers().get(12), 0b1111);
    Instruction::ANDI(13, 1, 0b0110).execute(&mut cpu).unwrap();
    assert_eq!(cpu.get_registers().get(13), 0b0100);
}

#[test]
fn register_shifts_mask_the_amount() {
    let mut cpu = CPU::new(0, 1024);
    cpu.get_registers().set(1, 0x8000_0001);
    cpu.get_registers().set(2, 33); // masked to 1
    Instruction::SLL(3, 1, 2).execute(&mut cpu).unwrap();
    assert_eq!(cpu.get_registers().get(3), 0x0000_0002);
    Instruction::SRL(4, 1, 2).execute(&mut cpu).unwrap();
    assert_eq!(cpu.get_registers().get(4), 0x4000_0000);
    Instruction::SRA(5, 1, 2).execute(&mut cpu).unwrap();
    assert_eq!(cpu.get_registers().get(5), 0xC000_0000);
    Instruction::SLLI(6, 1, 4).execute(&mut cpu).unwrap();
    assert_eq!(cpu.get_registers().get(6), 0x0000_0010);
    Instruction::SRLI(7, 1, 4).execute(&mut cpu).unwrap();
    assert_eq!(cpu.get_registers().get(7), 0x0800_0000);
}

#[test]
fn halfword_and_word_memory_ops() {
    let mut cpu = CPU::new(0, 1024);
    cpu.get_registers().set(2, 0x1234_8765);
    Instruction::SH(0, 2, 100).execute(&mut cpu).unwrap();
    assert_eq!(cpu.get_memory().read_halfword(100).unwrap(), 0x8765);
    Instruction::LH(3, 0, 100).execute(&mut cpu).unwrap();
    assert_eq!(cpu.get_registers().get(3), 0xFFFF_8765);
    Instruction::LHU(4, 0, 100).execute(&mut cpu).unwrap();
    assert_eq!(cpu.get_registers().get(4), 0x8765);
    Instruction::SW(0, 2, 200).execute(&mut cpu).unwrap();
    Instruction::LW(5, 0, 200).execute(&mut cpu).unwrap();
    assert_eq!(cpu.get_registers().get(5), 0x1234_8765);
}

#[test]
fn remaining_branches() {
    let mut cpu = CPU::new(0, 1024);
    cpu.get_registers().set(1, 0xFFFF_FFFF); // signed -1
    cpu.get_registers().set(2, 1);

    cpu.get_registers().set_pc(100);
    Instruction::BNE(1, 2, 8).execute(&mut cpu).unwrap();
    assert_eq!(cpu.get_registers().get_pc(), 108);

    cpu.get_registers().set_pc(100);
    Instruction::BLT(1, 2, 8).execute(&mut cpu).unwrap();
    assert_eq!(cpu.get_registers().get_pc(), 108);

    cpu.get_registers().set_pc(100);
    Instruction::BGE(1, 2, 8).execute(&mut cpu).unwrap();
    assert_eq!(cpu.get_registers().get_pc(), 104);

    cpu.get_registers().set_pc(100);
    Instruction::BLTU(1, 2, 8).execute(&mut cpu).unwrap();
    assert_eq!(cpu.get_registers().get_pc(), 104);

    cpu.get_registers().set_pc(100);
    Instruction::BGEU(1, 2, 8).execute(&mut cpu).unwrap();
    assert_eq!(cpu.get_registers().get_pc(), 108);
}

#[test]
fn jalr_sets_target_and_links() {
    let mut cpu = CPU::new(0, 1024);
    cpu.get_registers().set(5, 201); // low bit forced to 0 -> 200
    cpu.get_registers().set_pc(40);
    Instruction::JALR(1, 5, 0).execute(&mut cpu).unwrap();
    assert_eq!(cpu.get_registers().get(1), 44);
    assert_eq!(cpu.get_registers().get_pc(), 200);
}

#[test]
fn destination_zero_is_discarded_by_every_writer() {
    let mut cpu = CPU::new(0, 1024);
    cpu.get_registers().set(1, 9);
    Instruction::ADDI(0, 1, 5).execute(&mut cpu).unwrap();
    Instruction::LUI(0, 0xF000).execute(&mut cpu).unwrap();
    Instruction::ADD(0, 1, 1).execute(&mut cpu).unwrap();
    assert_eq!(cpu.get_registers().get(0), 0);
}
