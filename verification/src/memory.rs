//! Fixed-capacity byte storage, addressed by a 16-bit address.

use vstd::prelude::*;

verus! {

/// `N` bytes of storage at the addresses `0..N`.
#[derive(Debug, Clone, Copy)]
pub struct Memory<const N: usize> {
    bytes: [u8; N],
}

impl<const N: usize> View for Memory<N> {
    type V = Seq<u8>;

    closed spec fn view(&self) -> Seq<u8> {
        self.bytes@
    }
}

/// What a store of `capacity` bytes holds once `program` has been loaded at
/// address 0: the bytes of `program` that fit, then zeros.
pub open spec fn loaded(program: Seq<u8>, capacity: nat) -> Seq<u8> {
    Seq::new(
        capacity,
        |i: int|
            if i < program.len() {
                program[i]
            } else {
                0u8
            },
    )
}

impl<const N: usize> Memory<N> {
    /// Every store holds exactly `N` bytes.
    pub proof fn lemma_len(&self)
        ensures
            self@.len() == N,
    {
    }

    /// A store in which every byte is 0.
    pub fn new() -> (m: Self)
        ensures
            m@ == Seq::new(N as nat, |i: int| 0u8),
    {
        let m = Memory { bytes: [0u8;N] };
        assert(m@ =~= Seq::new(N as nat, |i: int| 0u8));
        m
    }

    /// A store with `program` at its low addresses and zeros above it. Bytes
    /// of `program` at index `N` and beyond are left out.
    pub fn with_program(program: &[u8]) -> (m: Self)
        ensures
            m@ == loaded(program@, N as nat),
    {
        let mut m = Self::new();
        let mut i: usize = 0;
        while i < N && i < program.len()
            invariant
                i <= N,
                i <= program.len(),
                m@.len() == N,
                forall|j: int| 0 <= j < i ==> m@[j] == program@[j],
                forall|j: int| i <= j < N ==> m@[j] == 0u8,
            decreases N - i,
        {
            m.bytes[i] = program[i];
            i += 1;
        }
        assert(m@ =~= loaded(program@, N as nat));
        m
    }

    /// The byte at `address`.
    pub fn read_u8(&self, address: u16) -> (b: u8)
        requires
            address < N,
        ensures
            b == self@[address as int],
    {
        self.bytes[address as usize]
    }

    /// Overwrites the byte at `address` with `value`; every other byte stays.
    pub fn write_u8(&mut self, address: u16, value: u8)
        requires
            address < N,
        ensures
            final(self)@ == old(self)@.update(address as int, value),
    {
        self.bytes[address as usize] = value;
    }

    /// The number of bytes in the store.
    pub fn capacity(&self) -> (n: usize)
        ensures
            n == N,
            n == self@.len(),
    {
        N
    }
}

} // verus!
