//! The processor status register: eight condition flags packed into one byte.

use vstd::prelude::*;

verus! {

/// The name of one condition flag.
#[derive(Debug, Clone, Copy, PartialEq, Eq, Structural)]
pub enum Flag {
    /// Carry.
    C,
    /// Zero.
    Z,
    /// Interrupt disable.
    I,
    /// Decimal mode.
    D,
    /// Break.
    B,
    /// Unused.
    U,
    /// Overflow.
    V,
    /// Negative.
    N,
}

impl Flag {
    /// The bit that the flag occupies in the status byte.
    pub open spec fn mask(self) -> u8 {
        match self {
            Flag::C => 0b0000_0001u8,
            Flag::Z => 0b0000_0010u8,
            Flag::I => 0b0000_0100u8,
            Flag::D => 0b0000_1000u8,
            Flag::B => 0b0001_0000u8,
            Flag::U => 0b0010_0000u8,
            Flag::V => 0b0100_0000u8,
            Flag::N => 0b1000_0000u8,
        }
    }

    /// The bit that the flag occupies in the status byte.
    pub fn bit(self) -> (m: u8)
        ensures
            m == self.mask(),
    {
        match self {
            Flag::C => 0b0000_0001u8,
            Flag::Z => 0b0000_0010u8,
            Flag::I => 0b0000_0100u8,
            Flag::D => 0b0000_1000u8,
            Flag::B => 0b0001_0000u8,
            Flag::U => 0b0010_0000u8,
            Flag::V => 0b0100_0000u8,
            Flag::N => 0b1000_0000u8,
        }
    }
}

/// Whether `m` has exactly one bit set.
spec fn single_bit(m: u8) -> bool {
    m == 1 || m == 2 || m == 4 || m == 8 || m == 16 || m == 32 || m == 64 || m == 128
}

/// Setting one bit makes it read as set and leaves every other bit as it was.
proof fn lemma_raise_bit(b: u8, m: u8, other: u8)
    requires
        single_bit(m),
        single_bit(other),
        other != m,
    ensures
        (b | m) & m == m,
        ((b | m) & other == other) == (b & other == other),
{
    assert((b | m) & m == m) by (bit_vector);
    assert(((b | m) & other == other) == (b & other == other)) by (bit_vector)
        requires
            m == 1 || m == 2 || m == 4 || m == 8 || m == 16 || m == 32 || m == 64 || m == 128,
            other == 1 || other == 2 || other == 4 || other == 8 || other == 16 || other == 32
                || other == 64 || other == 128,
            other != m,
    ;
}

/// Clearing one bit makes it read as clear and leaves every other bit as it was.
proof fn lemma_lower_bit(b: u8, m: u8, other: u8)
    requires
        single_bit(m),
        single_bit(other),
        other != m,
    ensures
        (b & !m) & m != m,
        ((b & !m) & other == other) == (b & other == other),
{
    assert((b & !m) & m != m) by (bit_vector)
        requires
            m == 1 || m == 2 || m == 4 || m == 8 || m == 16 || m == 32 || m == 64 || m == 128,
    ;
    assert(((b & !m) & other == other) == (b & other == other)) by (bit_vector)
        requires
            m == 1 || m == 2 || m == 4 || m == 8 || m == 16 || m == 32 || m == 64 || m == 128,
            other == 1 || other == 2 || other == 4 || other == 8 || other == 16 || other == 32
                || other == 64 || other == 128,
            other != m,
    ;
}

/// A set of condition flags, held as one byte with one bit for each flag.
#[derive(Debug, Clone, Copy, PartialEq, Eq, Structural)]
pub struct Status {
    /// The packed flags.
    pub bits: u8,
}

impl View for Status {
    type V = u8;

    open spec fn view(&self) -> u8 {
        self.bits
    }
}

impl Status {
    /// Whether `flag` is set.
    pub open spec fn has(self, flag: Flag) -> bool {
        self.bits & flag.mask() == flag.mask()
    }

    /// The register with `flag` set to `value` and every other flag kept.
    pub open spec fn with(self, flag: Flag, value: bool) -> Status {
        if value {
            Status { bits: self.bits | flag.mask() }
        } else {
            Status { bits: self.bits & !flag.mask() }
        }
    }

    /// The register after a result `val`: Zero says that `val` is 0, Negative
    /// that its bit 7 is set, and the other six flags are kept.
    pub open spec fn with_zn(self, val: u8) -> Status {
        self.with(Flag::Z, val == 0).with(Flag::N, val >= 0x80)
    }

    /// `with` decides the flag it names and no other.
    pub proof fn lemma_with(self, flag: Flag, value: bool)
        ensures
            self.with(flag, value).has(flag) == value,
            forall|g: Flag| g != flag ==> self.with(flag, value).has(g) == self.has(g),
    {
        assert forall|g: Flag| g != flag implies self.with(flag, value).has(g) == self.has(g) by {
            lemma_raise_bit(self.bits, flag.mask(), g.mask());
            lemma_lower_bit(self.bits, flag.mask(), g.mask());
        }
        lemma_raise_bit(self.bits, flag.mask(), if flag == Flag::C { 2u8 } else { 1u8 });
        lemma_lower_bit(self.bits, flag.mask(), if flag == Flag::C { 2u8 } else { 1u8 });
    }

    /// After `with_zn(val)` Zero is set exactly when `val` is 0, Negative
    /// exactly when bit 7 of `val` is set, and no other flag has changed.
    pub proof fn lemma_with_zn(self, val: u8)
        ensures
            self.with_zn(val).has(Flag::Z) == (val == 0),
            self.with_zn(val).has(Flag::N) == (val & 0x80 == 0x80),
            forall|g: Flag| g != Flag::Z && g != Flag::N ==> self.with_zn(val).has(g) == self.has(g),
    {
        let mid = self.with(Flag::Z, val == 0);
        self.lemma_with(Flag::Z, val == 0);
        mid.lemma_with(Flag::N, val >= 0x80);
        assert((val >= 0x80) == (val & 0x80 == 0x80)) by (bit_vector);
    }

    /// The zero byte holds no flag.
    pub proof fn lemma_zero_has_no_flag()
        ensures
            forall|g: Flag| !(Status { bits: 0 }).has(g),
    {
        assert forall|g: Flag| !(Status { bits: 0 }).has(g) by {
            let m = g.mask();
            assert(m != 0 ==> 0u8 & m != m) by (bit_vector);
        }
    }

    /// The register with no flag set.
    pub fn empty() -> (s: Status)
        ensures
            s@ == 0,
            forall|g: Flag| !s.has(g),
    {
        proof {
            Self::lemma_zero_has_no_flag();
        }
        Status { bits: 0 }
    }

    /// The register that holds exactly the flags of `bits`.
    pub fn from_bits(bits: u8) -> (s: Status)
        ensures
            s@ == bits,
    {
        Status { bits }
    }

    /// The flags as one byte.
    pub fn bits(&self) -> (b: u8)
        ensures
            b == self@,
    {
        self.bits
    }

    /// Whether no flag is set.
    pub fn is_empty(&self) -> (r: bool)
        ensures
            r == (self@ == 0),
            r == (forall|g: Flag| !self.has(g)),
    {
        proof {
            if self.bits == 0 {
                Self::lemma_zero_has_no_flag();
            } else {
                let b = self.bits;
                assert(b != 0 ==> (b & 1 == 1 || b & 2 == 2 || b & 4 == 4 || b & 8 == 8 || b & 16
                    == 16 || b & 32 == 32 || b & 64 == 64 || b & 128 == 128)) by (bit_vector);
                assert(self.has(Flag::C) || self.has(Flag::Z) || self.has(Flag::I) || self.has(
                    Flag::D,
                ) || self.has(Flag::B) || self.has(Flag::U) || self.has(Flag::V) || self.has(
                    Flag::N,
                ));
            }
        }
        self.bits == 0
    }

    /// Whether `flag` is set.
    pub fn contains(&self, flag: Flag) -> (r: bool)
        ensures
            r == self.has(flag),
    {
        let m: u8 = flag.bit();
        self.bits & m == m
    }

    /// Sets `flag` where `value` is true, clears it where not, and keeps
    /// every other flag.
    pub fn set(&mut self, flag: Flag, value: bool)
        ensures
            *final(self) == old(self).with(flag, value),
            final(self).has(flag) == value,
            forall|g: Flag| g != flag ==> final(self).has(g) == old(self).has(g),
    {
        proof {
            self.lemma_with(flag, value);
        }
        let m: u8 = flag.bit();
        if value {
            self.bits = self.bits | m;
        } else {
            self.bits = self.bits & !m;
        }
    }

    /// Records a result `val`: Zero is set exactly when `val` is 0, Negative
    /// exactly when bit 7 of `val` is set; the other six flags are kept.
    pub fn set_zn_flags(&mut self, val: u8)
        ensures
            *final(self) == old(self).with_zn(val),
            final(self).has(Flag::Z) == (val == 0),
            final(self).has(Flag::N) == (val & 0x80 == 0x80),
            forall|g: Flag|
                g != Flag::Z && g != Flag::N ==> final(self).has(g) == old(self).has(g),
    {
        proof {
            self.lemma_with_zn(val);
            assert((val >= 0x80) == (val & 0x80 == 0x80)) by (bit_vector);
        }
        self.set(Flag::Z, val == 0);
        self.set(Flag::N, val & 0x80 == 0x80);
    }
}

} // verus!
