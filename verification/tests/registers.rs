use leg_sim::registers::{Registers, REGISTERS_SIZE, PC, STS, SP, LR, INTLR, IHDLR};

/// Tests that the Registers type can be set and read back at every index.
#[test]
fn test_registers_indexable() {
    let mut regs = Registers::new();

    for i in 0..REGISTERS_SIZE {
        regs.write(i, (REGISTERS_SIZE - i) as u32);
        assert_eq!(regs.read(i), (REGISTERS_SIZE - i) as u32, "Registers[{}] failed to set", i);
    }
}

#[test]
fn registers_start_zeroed() {
    let regs = Registers::new();
    for i in 0..REGISTERS_SIZE {
        assert_eq!(regs.read(i), 0);
    }
}

#[test]
fn named_registers_are_distinct_slots() {
    let mut regs = Registers::new();
    regs.write(INTLR, 1);
    regs.write(IHDLR, 2);
    regs.write(PC, 3);
    regs.write(STS, 4);
    regs.write(SP, 5);
    regs.write(LR, 6);
    assert_eq!(regs.read(INTLR), 1);
    assert_eq!(regs.read(IHDLR), 2);
    assert_eq!(regs.read(PC), 3);
    assert_eq!(regs.read(STS), 4);
    assert_eq!(regs.read(SP), 5);
    assert_eq!(regs.read(LR), 6);
}
