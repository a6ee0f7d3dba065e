use mos6502::cpu::{ROM_SIZE, WRAM_SIZE};
use mos6502::memory::Memory;

#[test]
fn new_memory_is_zero() {
    let m: Memory<16> = Memory::new();
    assert_eq!(m.capacity(), 16);
    for a in 0..16u16 {
        assert_eq!(m.read_u8(a), 0);
    }
}

#[test]
fn with_program_loads_low_addresses_and_zero_fills() {
    let m: Memory<8> = Memory::with_program(&[0xA9, 0x80, 0xAA]);
    assert_eq!(m.read_u8(0), 0xA9);
    assert_eq!(m.read_u8(1), 0x80);
    assert_eq!(m.read_u8(2), 0xAA);
    for a in 3..8u16 {
        assert_eq!(m.read_u8(a), 0);
    }
}

#[test]
fn with_program_leaves_out_what_does_not_fit() {
    let m: Memory<2> = Memory::with_program(&[1, 2, 3, 4]);
    assert_eq!(m.capacity(), 2);
    assert_eq!(m.read_u8(0), 1);
    assert_eq!(m.read_u8(1), 2);
}

#[test]
fn with_empty_program_is_zero() {
    let m: Memory<4> = Memory::with_program(&[]);
    for a in 0..4u16 {
        assert_eq!(m.read_u8(a), 0);
    }
}

#[test]
fn write_changes_one_byte() {
    let mut m: Memory<4> = Memory::with_program(&[1, 2, 3, 4]);
    m.write_u8(2, 0xEE);
    assert_eq!(m.read_u8(0), 1);
    assert_eq!(m.read_u8(1), 2);
    assert_eq!(m.read_u8(2), 0xEE);
    assert_eq!(m.read_u8(3), 4);
}

#[test]
fn memory_sizes() {
    assert_eq!(WRAM_SIZE, 0x0800);
    assert_eq!(ROM_SIZE, 0x0F00);
    let rom: Memory<ROM_SIZE> = Memory::new();
    assert_eq!(rom.capacity(), 3840);
    let wram: Memory<WRAM_SIZE> = Memory::new();
    assert_eq!(wram.read_u8(0x07FF), 0);
}
