use bitflags::Flags;
use mos6502::status::{Flag, Status};

const ALL: [Flag; 8] = [Flag::C, Flag::Z, Flag::I, Flag::D, Flag::B, Flag::U, Flag::V, Flag::N];

/// A flag set whose operations are those of the `bitflags` crate.
#[derive(Debug, Clone, Copy, PartialEq)]
struct Reference(u8);

impl Flags for Reference {
    const FLAGS: &'static [bitflags::Flag<Reference>] = &[
        bitflags::Flag::new("C", Reference(0b0000_0001)),
        bitflags::Flag::new("Z", Reference(0b0000_0010)),
        bitflags::Flag::new("I", Reference(0b0000_0100)),
        bitflags::Flag::new("D", Reference(0b0000_1000)),
        bitflags::Flag::new("B", Reference(0b0001_0000)),
        bitflags::Flag::new("U", Reference(0b0010_0000)),
        bitflags::Flag::new("V", Reference(0b0100_0000)),
        bitflags::Flag::new("N", Reference(0b1000_0000)),
    ];

    type Bits = u8;

    fn bits(&self) -> u8 {
        self.0
    }

    fn from_bits_retain(bits: u8) -> Reference {
        Reference(bits)
    }
}

#[test]
fn flag_bits_are_the_documented_ones() {
    assert_eq!(Flag::C.bit(), 0b0000_0001);
    assert_eq!(Flag::Z.bit(), 0b0000_0010);
    assert_eq!(Flag::I.bit(), 0b0000_0100);
    assert_eq!(Flag::D.bit(), 0b0000_1000);
    assert_eq!(Flag::B.bit(), 0b0001_0000);
    assert_eq!(Flag::U.bit(), 0b0010_0000);
    assert_eq!(Flag::V.bit(), 0b0100_0000);
    assert_eq!(Flag::N.bit(), 0b1000_0000);
}

#[test]
fn empty_status_has_no_flag() {
    let s = Status::empty();
    assert!(s.is_empty());
    assert_eq!(s.bits(), 0);
    for flag in ALL {
        assert!(!s.contains(flag));
    }
}

#[test]
fn from_bits_keeps_every_bit() {
    for bits in 0..=255u8 {
        assert_eq!(Status::from_bits(bits).bits(), bits);
    }
    assert!(!Status::from_bits(0b0010_0000).is_empty());
}

#[test]
fn set_changes_exactly_one_flag() {
    for bits in 0..=255u8 {
        for flag in ALL {
            for value in [false, true] {
                let before = Status::from_bits(bits);
                let mut after = before;
                after.set(flag, value);
                assert_eq!(after.contains(flag), value);
                for other in ALL {
                    if other != flag {
                        assert_eq!(after.contains(other), before.contains(other));
                    }
                }
            }
        }
    }
}

#[test]
fn set_gives_exact_bytes() {
    let mut s = Status::from_bits(0b0010_0100);
    s.set(Flag::C, true);
    assert_eq!(s.bits(), 0b0010_0101);
    s.set(Flag::I, false);
    assert_eq!(s.bits(), 0b0010_0001);
    s.set(Flag::I, false);
    assert_eq!(s.bits(), 0b0010_0001);
    s.set(Flag::N, true);
    assert_eq!(s.bits(), 0b1010_0001);
}

#[test]
fn set_zn_flags_follows_the_value() {
    for bits in 0..=255u8 {
        for val in 0..=255u8 {
            let before = Status::from_bits(bits);
            let mut after = before;
            after.set_zn_flags(val);
            assert_eq!(after.contains(Flag::Z), val == 0);
            assert_eq!(after.contains(Flag::N), val & 0x80 == 0x80);
            for other in [Flag::C, Flag::I, Flag::D, Flag::B, Flag::U, Flag::V] {
                assert_eq!(after.contains(other), before.contains(other));
            }
        }
    }
}

#[test]
fn set_zn_flags_gives_exact_bytes() {
    let mut s = Status::from_bits(0b0110_0101);
    s.set_zn_flags(0);
    assert_eq!(s.bits(), 0b0110_0111);
    s.set_zn_flags(0x80);
    assert_eq!(s.bits(), 0b1110_0101);
    s.set_zn_flags(0x7F);
    assert_eq!(s.bits(), 0b0110_0101);
}

#[test]
fn status_agrees_with_bitflags() {
    for bits in 0..=255u8 {
        let ours = Status::from_bits(bits);
        let theirs = Reference(bits);
        assert_eq!(ours.is_empty(), theirs.is_empty());
        for flag in ALL {
            let single = Reference(flag.bit());
            assert_eq!(ours.contains(flag), theirs.contains(single));
            for value in [false, true] {
                let mut a = ours;
                let mut b = theirs;
                a.set(flag, value);
                b.set(single, value);
                assert_eq!(a.bits(), b.bits());
            }
        }
    }
}

#[test]
fn initial_status_is_unused_with_interrupt_disable() {
    let both = Reference(Flag::U.bit()).union(Reference(Flag::I.bit()));
    assert_eq!(both.bits(), mos6502::cpu::INITIAL_STATUS);
    assert_eq!(both.bits(), 0x24);
}
