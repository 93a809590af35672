//! Single bits of a byte reached through a pointer chain.
use vstd::prelude::*;

use crate::chain::{MemValue, PointerChain};
use crate::memory::{range_of, write_range, AddressSpace};

verus! {

/// `mask` has exactly one bit set.
pub open spec fn single_bit(mask: u8) -> bool {
    mask == 1 || mask == 2 || mask == 4 || mask == 8 || mask == 16 || mask == 32 || mask == 64
        || mask == 128
}

/// `b` with the bits of `mask` set or cleared, the others as they were.
pub open spec fn with_bits(b: u8, mask: u8, on: bool) -> u8 {
    if on {
        b | mask
    } else {
        b & !mask
    }
}

/// A flag: the bits of `mask` in the byte at the end of `chain`.
pub struct Bitflag {
    pub chain: PointerChain<u8>,
    pub mask: u8,
}

impl Bitflag {
    /// The byte that holds the flag, where it can be read.
    pub open spec fn byte_in(&self, m: Map<int, u8>) -> Option<u8> {
        self.chain.value_in(m)
    }

    /// Whether the flag is set, where its byte can be read.
    pub open spec fn state_in(&self, m: Map<int, u8>) -> Option<bool> {
        match self.byte_in(m) {
            Some(b) => Some(b & self.mask != 0),
            None => None,
        }
    }

    /// The memory after the flag is set to `on`: the byte is read, its masked bits changed
    /// and written back; nothing changes where the byte cannot be read.
    pub open spec fn after_set(&self, m: Map<int, u8>, on: bool) -> Map<int, u8> {
        match self.byte_in(m) {
            Some(b) => self.chain.written(m, with_bits(b, self.mask, on)),
            None => m,
        }
    }

    /// The memory after the flag is toggled: set to the opposite of what was read, and
    /// nothing changes where its byte cannot be read.
    pub open spec fn after_toggle(&self, m: Map<int, u8>) -> Map<int, u8> {
        match self.state_in(m) {
            Some(s) => self.after_set(m, !s),
            None => m,
        }
    }

    /// A flag for the bits of `mask` in the byte at the end of `chain`.
    pub fn new(chain: PointerChain<u8>, mask: u8) -> (r: Bitflag)
        ensures
            r.chain == chain,
            r.mask == mask,
    {
        Bitflag { chain, mask }
    }

    /// Whether the flag is set, or `None` when its byte cannot be read.
    pub fn get<M: AddressSpace>(&self, mem: &M) -> (r: Option<bool>)
        ensures
            r == self.state_in(mem.bytes()),
    {
        match self.chain.read(mem) {
            Some(b) => Some(b & self.mask != 0),
            None => None,
        }
    }

    /// Sets or clears the flag, leaving the other bits of its byte as they were; nothing is
    /// written when the byte cannot be read.
    pub fn set<M: AddressSpace>(&self, mem: &mut M, on: bool)
        ensures
            final(mem).bytes() == self.after_set(old(mem).bytes(), on),
    {
        match self.chain.read(&*mem) {
            Some(b) => {
                let v = if on {
                    b | self.mask
                } else {
                    b & !self.mask
                };
                self.chain.write(mem, v);
            },
            None => {},
        }
    }

    /// Flips the flag from the state read; nothing is written when the byte cannot be read.
    pub fn toggle<M: AddressSpace>(&self, mem: &mut M)
        ensures
            final(mem).bytes() == self.after_toggle(old(mem).bytes()),
    {
        let state = self.get(&*mem);
        self.set(mem, !state.unwrap_or(false));
    }

    /// Setting the flag and then clearing it leaves its byte with the masked bits clear and
    /// everything else as it was; that is the memory it started from exactly when those
    /// bits were clear to begin with.
    pub proof fn lemma_set_then_clear(&self, m: Map<int, u8>)
        requires
            self.byte_in(m) is Some,
            self.chain.hops_clear(m),
        ensures
            self.after_set(self.after_set(m, true), false) == self.chain.written(
                m,
                self.byte_in(m)->0 & !self.mask,
            ),
            self.byte_in(m)->0 & self.mask == 0 ==> self.after_set(self.after_set(m, true), false)
                == m,
    {
        let b = self.byte_in(m)->0;
        let t = self.chain.target(m)->0;
        let m1 = self.after_set(m, true);
        self.chain.lemma_value_bytes(m);
        self.chain.lemma_write_then_read(m, b | self.mask);
        self.chain.lemma_written_keeps_target(m, b | self.mask);
        let mask = self.mask;
        let x = (b | mask) & !mask;
        assert(x == b & !mask) by (bit_vector)
            requires
                x == (b | mask) & !mask,
        ;
        u8::lemma_encoding(x, x);
        assert(self.after_set(m1, false) =~= self.chain.written(m, x));
        if b & mask == 0 {
            assert(x == b) by (bit_vector)
                requires
                    b & mask == 0,
                    x == b & !mask,
            ;
            assert(range_of(m, t, 1) == seq![b]);
            assert(m.dom().contains(t + 0));
            assert(write_range(m, t, seq![b]) =~= m);
        }
    }

    /// With a single-bit mask, a toggle after a successful read flips exactly that bit.
    pub proof fn lemma_toggle_flips_bit(&self, m: Map<int, u8>)
        requires
            single_bit(self.mask),
            self.byte_in(m) is Some,
        ensures
            self.after_toggle(m) == self.chain.written(m, self.byte_in(m)->0 ^ self.mask),
    {
        let b = self.byte_in(m)->0;
        let mask = self.mask;
        assert(with_bits(b, mask, !(b & mask != 0)) == b ^ mask) by (bit_vector)
            requires
                mask == 1 || mask == 2 || mask == 4 || mask == 8 || mask == 16 || mask == 32
                    || mask == 64 || mask == 128,
        ;
    }
}

} // verus!
