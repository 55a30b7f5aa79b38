use rust_risc_v::Registers;

#[test]
fn new_registers_are_zero() {
    let registers = Registers::new();
    assert_eq!(registers.inspect(), &[0u32; 32][..]);
    for register in 0..32 {
        assert_eq!(registers.read(register), 0);
    }
}

#[test]
fn write_then_read() {
    let mut registers = Registers::new();
    registers.write(1, 7);
    registers.write(31, 0xFFFFFFFF);
    assert_eq!(registers.read(1), 7);
    assert_eq!(registers.read(31), 0xFFFFFFFF);
    assert_eq!(registers.read(2), 0);
    registers.write(1, 8);
    assert_eq!(registers.read(1), 8);
}

#[test]
fn register_zero_reads_zero_after_every_write() {
    let mut registers = Registers::new();
    let writes: [(u8, u32); 8] = [
        (0, 1),
        (5, 2),
        (0, 0xFFFFFFFF),
        (31, 3),
        (0, 4),
        (1, 0x80000000),
        (0, 5),
        (0, 0),
    ];
    for (register, value) in writes {
        registers.write(register, value);
        assert_eq!(registers.read(0), 0);
        assert_eq!(registers.inspect()[0], 0);
    }
    assert_eq!(registers.read(5), 2);
    assert_eq!(registers.read(31), 3);
    assert_eq!(registers.read(1), 0x80000000);
}

#[test]
fn inspect_shows_all_registers() {
    let mut registers = Registers::new();
    for register in 0..32u8 {
        registers.write(register, 100 + register as u32);
    }
    let all = registers.inspect();
    assert_eq!(all.len(), 32);
    assert_eq!(all[0], 0);
    for register in 1..32usize {
        assert_eq!(all[register], 100 + register as u32);
    }
}
