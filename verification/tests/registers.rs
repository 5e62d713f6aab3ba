use emulator_rs::registers::RV32Registers;

#[test]
fn new() {
    let regs = RV32Registers::new();
    for i in 0..32u32 {
        assert_eq!(regs.get(i), 0);
    }
}

#[test]
fn inc_pc() {
    let mut regs = RV32Registers::new();
    assert_eq!(regs.get_pc(), 0);
    regs.increment_pc();
    assert_eq!(regs.get_pc(), 4);
}

#[test]
fn get_pc() {
    let mut regs = RV32Registers::new();
    assert_eq!(regs.get_pc(), 0);
    regs.increment_pc();
    assert_eq!(regs.get_pc(), 4);
}

#[test]
fn register_zero_reads_zero_after_write() {
    let mut regs = RV32Registers::new();
    regs.set(0, 55);
    assert_eq!(regs.get(0), 0);
    regs.set(1, 77);
    regs.set(0, 0xFFFF_FFFF);
    assert_eq!(regs.get(0), 0);
    assert_eq!(regs.get(1), 77);
}

#[test]
fn set_and_get_roundtrip() {
    let mut regs = RV32Registers::new();
    regs.set(31, 0xDEAD_BEEF);
    assert_eq!(regs.get(31), 0xDEAD_BEEF);
    regs.set(31, 3);
    assert_eq!(regs.get(31), 3);
}

#[test]
fn pc_arithmetic_wraps() {
    let mut regs = RV32Registers::new();
    regs.set_pc(0xFFFF_FFFC);
    regs.increment_pc();
    assert_eq!(regs.get_pc(), 0);
    regs.set_pc(8);
    regs.add_to_pc(0xFFFF_FFFC);
    assert_eq!(regs.get_pc(), 4);
}
