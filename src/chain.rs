//! Pointer chains: a base address and a list of offsets, walked afresh on every access.
use core::marker::PhantomData;
use vstd::bytes::{
    spec_u32_from_le_bytes, spec_u32_to_le_bytes, spec_u64_from_le_bytes, spec_u64_to_le_bytes,
    u32_from_le_bytes, u32_to_le_bytes, u64_from_le_bytes,
};
use vstd::prelude::*;

use crate::memory::{range_mapped, range_of, write_range, AddressSpace};

verus! {

/// A value of fixed size, stored in memory as little-endian bytes.
pub trait MemValue: Sized {
    /// How many bytes a value takes.
    spec fn size() -> nat;

    /// The bytes that store `v`.
    spec fn to_le(v: Self) -> Seq<u8>;

    /// Every value takes `size()` bytes, and no two values share their bytes.
    proof fn lemma_encoding(a: Self, b: Self)
        ensures
            Self::to_le(a).len() == Self::size(),
            Self::to_le(a) == Self::to_le(b) ==> a == b,
    ;

    fn byte_len() -> (r: usize)
        ensures
            r == Self::size(),
    ;

    /// The value that `b` stores.
    fn decode(b: &[u8]) -> (r: Self)
        requires
            b@.len() == Self::size(),
        ensures
            Self::to_le(r) == b@,
    ;

    /// The bytes that store this value.
    fn encode(&self) -> (r: Vec<u8>)
        ensures
            r@ == Self::to_le(*self),
    ;
}

impl MemValue for u8 {
    open spec fn size() -> nat {
        1
    }

    open spec fn to_le(v: u8) -> Seq<u8> {
        seq![v]
    }

    proof fn lemma_encoding(a: u8, b: u8) {
        let (ea, eb) = (seq![a], seq![b]);
        if ea == eb {
            assert(ea[0] == eb[0]);
        }
    }

    fn byte_len() -> (r: usize) {
        1
    }

    fn decode(b: &[u8]) -> (r: u8) {
        let r = b[0];
        assert(seq![r] =~= b@);
        r
    }

    fn encode(&self) -> (r: Vec<u8>) {
        let mut v: Vec<u8> = Vec::new();
        v.push(*self);
        assert(v@ =~= seq![*self]);
        v
    }
}

impl MemValue for u32 {
    open spec fn size() -> nat {
        4
    }

    open spec fn to_le(v: u32) -> Seq<u8> {
        spec_u32_to_le_bytes(v)
    }

    proof fn lemma_encoding(a: u32, b: u32) {
        vstd::bytes::lemma_auto_spec_u32_to_from_le_bytes();
        assert(spec_u32_to_le_bytes(a).len() == 4);
        assert(spec_u32_to_le_bytes(b).len() == 4);
        assert(spec_u32_from_le_bytes(spec_u32_to_le_bytes(a)) == a);
        assert(spec_u32_from_le_bytes(spec_u32_to_le_bytes(b)) == b);
    }

    fn byte_len() -> (r: usize) {
        4
    }

    fn decode(b: &[u8]) -> (r: u32) {
        proof {
            vstd::bytes::lemma_auto_spec_u32_to_from_le_bytes();
        }
        u32_from_le_bytes(b)
    }

    fn encode(&self) -> (r: Vec<u8>) {
        u32_to_le_bytes(*self)
    }
}

impl MemValue for i32 {
    open spec fn size() -> nat {
        4
    }

    open spec fn to_le(v: i32) -> Seq<u8> {
        spec_u32_to_le_bytes(v as u32)
    }

    proof fn lemma_encoding(a: i32, b: i32) {
        vstd::bytes::lemma_auto_spec_u32_to_from_le_bytes();
        let (x, y) = (a as u32, b as u32);
        assert(spec_u32_to_le_bytes(x).len() == 4);
        assert(spec_u32_to_le_bytes(y).len() == 4);
        assert(spec_u32_from_le_bytes(spec_u32_to_le_bytes(x)) == x);
        assert(spec_u32_from_le_bytes(spec_u32_to_le_bytes(y)) == y);
        if x == y {
            assert(a == b) by (bit_vector)
                requires
                    a as u32 == b as u32,
            ;
        }
    }

    fn byte_len() -> (r: usize) {
        4
    }

    fn decode(b: &[u8]) -> (r: i32) {
        proof {
            vstd::bytes::lemma_auto_spec_u32_to_from_le_bytes();
        }
        let x = u32_from_le_bytes(b);
        let r = x as i32;
        assert(r as u32 == x) by (bit_vector)
            requires
                r == x as i32,
        ;
        r
    }

    fn encode(&self) -> (r: Vec<u8>) {
        u32_to_le_bytes(*self as u32)
    }
}

/// Four 32-bit values stored one after the other and accessed as one 16-byte block, so
/// that all four come from the same instant; a position of four `f32` is kept as their bits.
impl MemValue for [u32; 4] {
    open spec fn size() -> nat {
        16
    }

    open spec fn to_le(v: [u32; 4]) -> Seq<u8> {
        spec_u32_to_le_bytes(v[0]) + spec_u32_to_le_bytes(v[1]) + spec_u32_to_le_bytes(v[2])
            + spec_u32_to_le_bytes(v[3])
    }

    proof fn lemma_encoding(a: [u32; 4], b: [u32; 4]) {
        vstd::bytes::lemma_auto_spec_u32_to_from_le_bytes();
        let ea = Self::to_le(a);
        let eb = Self::to_le(b);
        assert(spec_u32_to_le_bytes(a[0]).len() == 4);
        assert(spec_u32_to_le_bytes(a[1]).len() == 4);
        assert(spec_u32_to_le_bytes(a[2]).len() == 4);
        assert(spec_u32_to_le_bytes(a[3]).len() == 4);
        assert(spec_u32_to_le_bytes(b[0]).len() == 4);
        assert(spec_u32_to_le_bytes(b[1]).len() == 4);
        assert(spec_u32_to_le_bytes(b[2]).len() == 4);
        assert(spec_u32_to_le_bytes(b[3]).len() == 4);
        if ea == eb {
            assert forall|k: int| 0 <= k < 4 implies a[k] == b[k] by {
                assert(ea.subrange(4 * k, 4 * k + 4) =~= spec_u32_to_le_bytes(a[k]));
                assert(eb.subrange(4 * k, 4 * k + 4) =~= spec_u32_to_le_bytes(b[k]));
                assert(spec_u32_from_le_bytes(spec_u32_to_le_bytes(a[k])) == a[k]);
                assert(spec_u32_from_le_bytes(spec_u32_to_le_bytes(b[k])) == b[k]);
            }
            assert(a@ =~= b@);
        }
    }

    fn byte_len() -> (r: usize) {
        16
    }

    fn decode(b: &[u8]) -> (r: [u32; 4]) {
        proof {
            vstd::bytes::lemma_auto_spec_u32_to_from_le_bytes();
        }
        let x = u32_from_le_bytes(vstd::slice::slice_subrange(b, 0, 4));
        let y = u32_from_le_bytes(vstd::slice::slice_subrange(b, 4, 8));
        let z = u32_from_le_bytes(vstd::slice::slice_subrange(b, 8, 12));
        let w = u32_from_le_bytes(vstd::slice::slice_subrange(b, 12, 16));
        let r = [x, y, z, w];
        assert(spec_u32_to_le_bytes(x) == b@.subrange(0, 4));
        assert(spec_u32_to_le_bytes(y) == b@.subrange(4, 8));
        assert(spec_u32_to_le_bytes(z) == b@.subrange(8, 12));
        assert(spec_u32_to_le_bytes(w) == b@.subrange(12, 16));
        assert(Self::to_le(r) =~= b@);
        r
    }

    fn encode(&self) -> (r: Vec<u8>) {
        let mut v = u32_to_le_bytes(self[0]);
        let mut y = u32_to_le_bytes(self[1]);
        let mut z = u32_to_le_bytes(self[2]);
        let mut w = u32_to_le_bytes(self[3]);
        v.append(&mut y);
        v.append(&mut z);
        v.append(&mut w);
        assert(v@ =~= Self::to_le(*self));
        v
    }
}

/// The 8-byte pointer stored at `a`, where all its bytes can be read and it is an
/// address of this target.
pub open spec fn read_ptr(m: Map<int, u8>, a: int) -> Option<int> {
    if range_mapped(m, a, 8) && spec_u64_from_le_bytes(range_of(m, a, 8)) <= usize::MAX {
        Some(spec_u64_from_le_bytes(range_of(m, a, 8)) as int)
    } else {
        None
    }
}

/// The final address of a walk from `addr`: each offset but the last is added and the
/// pointer stored there is followed; the last is only added. `None` where a pointer cannot
/// be read or an address would pass the largest one.
pub open spec fn walk(m: Map<int, u8>, addr: int, offs: Seq<usize>) -> Option<int>
    decreases offs.len(),
{
    if offs.len() == 0 {
        Some(addr)
    } else {
        let a = addr + offs[0];
        if a > usize::MAX {
            None
        } else if offs.len() == 1 {
            Some(a)
        } else {
            match read_ptr(m, a) {
                Some(p) => walk(m, p, offs.drop_first()),
                None => None,
            }
        }
    }
}

/// The addresses at which a walk from `addr` reads a pointer, in order, up to the first
/// that cannot be read.
pub open spec fn hop_addresses(m: Map<int, u8>, addr: int, offs: Seq<usize>) -> Seq<int>
    decreases offs.len(),
{
    if offs.len() <= 1 || addr + offs[0] > usize::MAX {
        Seq::empty()
    } else {
        let a = addr + offs[0];
        match read_ptr(m, a) {
            Some(p) => seq![a] + hop_addresses(m, p, offs.drop_first()),
            None => seq![a],
        }
    }
}

/// No pointer that the walk reads overlaps the `len` bytes from `t`.
pub open spec fn hops_clear_of(m: Map<int, u8>, addr: int, offs: Seq<usize>, t: int, len: nat) -> bool {
    forall|i: int|
        0 <= i < hop_addresses(m, addr, offs).len() ==> #[trigger] hop_addresses(m, addr, offs)[i]
            + 8 <= t || t + len <= hop_addresses(m, addr, offs)[i]
}

/// Writing bytes that no pointer of the walk overlaps leaves the walk as it was.
proof fn lemma_walk_frame(m: Map<int, u8>, addr: int, offs: Seq<usize>, t: int, data: Seq<u8>)
    requires
        hops_clear_of(m, addr, offs, t, data.len()),
    ensures
        walk(write_range(m, t, data), addr, offs) == walk(m, addr, offs),
        hop_addresses(write_range(m, t, data), addr, offs) == hop_addresses(m, addr, offs),
    decreases offs.len(),
{
    let m2 = write_range(m, t, data);
    if offs.len() > 1 && addr + offs[0] <= usize::MAX {
        let a = addr + offs[0];
        let hs = hop_addresses(m, addr, offs);
        assert(hs[0] == a);
        assert(a + 8 <= t || t + data.len() <= a);
        assert(m2.dom() =~= m.dom());
        assert(range_mapped(m2, a, 8) == range_mapped(m, a, 8));
        if range_mapped(m, a, 8) {
            assert forall|i: int| 0 <= i < 8 implies #[trigger] m2[a + i] == m[a + i] by {
                assert(m.dom().contains(a + i));
            }
            assert(range_of(m2, a, 8) =~= range_of(m, a, 8));
        }
        assert(read_ptr(m2, a) == read_ptr(m, a));
        match read_ptr(m, a) {
            Some(p) => {
                let rest = offs.drop_first();
                assert forall|i: int|
                    0 <= i < hop_addresses(m, p, rest).len() implies #[trigger] hop_addresses(
                    m,
                    p,
                    rest,
                )[i] + 8 <= t || t + data.len() <= hop_addresses(m, p, rest)[i] by {
                    assert(hs[i + 1] == hop_addresses(m, p, rest)[i]);
                }
                lemma_walk_frame(m, p, rest, t, data);
            },
            None => {},
        }
    }
}

/// A walk that meets a pointer it cannot read ends nowhere.
proof fn lemma_unreadable_hop(m: Map<int, u8>, addr: int, offs: Seq<usize>, i: int)
    requires
        0 <= i < hop_addresses(m, addr, offs).len(),
        !range_mapped(m, hop_addresses(m, addr, offs)[i], 8),
    ensures
        walk(m, addr, offs) is None,
    decreases offs.len(),
{
    let a = addr + offs[0];
    match read_ptr(m, a) {
        Some(p) => {
            assert(i != 0);
            assert(hop_addresses(m, addr, offs)[i] == hop_addresses(m, p, offs.drop_first())[i
                - 1]);
            lemma_unreadable_hop(m, p, offs.drop_first(), i - 1);
        },
        None => {},
    }
}

/// A typed location reached from a base address through a list of offsets. Nothing
/// resolved is kept: every access walks the chain again.
pub struct PointerChain<T> {
    pub base: usize,
    pub offsets: Vec<usize>,
    pub value_type: PhantomData<T>,
}

impl<T: MemValue> PointerChain<T> {
    /// The address that the chain leads to in `m`.
    pub open spec fn target(&self, m: Map<int, u8>) -> Option<int> {
        walk(m, self.base as int, self.offsets@)
    }

    /// The bytes of the value at the end of the chain, where they can be read.
    pub open spec fn bytes_in(&self, m: Map<int, u8>) -> Option<Seq<u8>> {
        match self.target(m) {
            Some(t) => if range_mapped(m, t, T::size()) {
                Some(range_of(m, t, T::size()))
            } else {
                None
            },
            None => None,
        }
    }

    /// The value at the end of the chain, where it can be read.
    pub open spec fn value_in(&self, m: Map<int, u8>) -> Option<T> {
        match self.bytes_in(m) {
            Some(b) => if exists|v: T| T::to_le(v) == b {
                Some(choose|v: T| T::to_le(v) == b)
            } else {
                None
            },
            None => None,
        }
    }

    /// The memory after `v` is written at the end of the chain; unchanged where the chain
    /// or its value cannot be reached.
    pub open spec fn written(&self, m: Map<int, u8>, v: T) -> Map<int, u8> {
        match self.target(m) {
            Some(t) => if range_mapped(m, t, T::size()) {
                write_range(m, t, T::to_le(v))
            } else {
                m
            },
            None => m,
        }
    }

    /// The pointers that the chain reads do not overlap its value.
    pub open spec fn hops_clear(&self, m: Map<int, u8>) -> bool {
        match self.target(m) {
            Some(t) => hops_clear_of(m, self.base as int, self.offsets@, t, T::size()),
            None => true,
        }
    }

    /// A chain from `base` through `offsets`.
    pub fn new(base: usize, offsets: Vec<usize>) -> (r: Self)
        ensures
            r.base == base,
            r.offsets@ == offsets@,
    {
        PointerChain { base, offsets, value_type: PhantomData }
    }

    /// The address the chain leads to now, without reading the value there.
    pub fn eval<M: AddressSpace>(&self, mem: &M) -> (r: Option<usize>)
        ensures
            self.target(mem.bytes()) == match r {
                Some(a) => Some(a as int),
                None => None,
            },
    {
        let ghost m = mem.bytes();
        let n = self.offsets.len();
        if n == 0 {
            return Some(self.base);
        }
        let mut addr = self.base;
        let mut i: usize = 0;
        assert(self.offsets@.subrange(0, n as int) =~= self.offsets@);
        while i < n - 1
            invariant
                n == self.offsets@.len(),
                n >= 1,
                i <= n - 1,
                m == mem.bytes(),
                self.target(m) == walk(m, addr as int, self.offsets@.subrange(i as int, n as int)),
            decreases n - 1 - i,
        {
            let ghost rest = self.offsets@.subrange(i as int, n as int);
            assert(rest.drop_first() =~= self.offsets@.subrange(i + 1, n as int));
            let a = match addr.checked_add(self.offsets[i]) {
                Some(a) => a,
                None => {
                    return None;
                },
            };
            let bytes = match mem.read_bytes(a, 8) {
                Some(b) => b,
                None => {
                    return None;
                },
            };
            let p = u64_from_le_bytes(bytes.as_slice());
            if p > usize::MAX as u64 {
                return None;
            }
            addr = p as usize;
            i += 1;
        }
        let ghost last = self.offsets@.subrange(i as int, n as int);
        assert(last.len() == 1 && last[0] == self.offsets@[n - 1]);
        addr.checked_add(self.offsets[n - 1])
    }

    /// The value at the end of the chain, or `None` when any hop or the value itself
    /// cannot be read.
    pub fn read<M: AddressSpace>(&self, mem: &M) -> (r: Option<T>)
        ensures
            r == self.value_in(mem.bytes()),
    {
        let t = match self.eval(mem) {
            Some(t) => t,
            None => {
                return None;
            },
        };
        let b = match mem.read_bytes(t, T::byte_len()) {
            Some(b) => b,
            None => {
                return None;
            },
        };
        let v = T::decode(b.as_slice());
        proof {
            let m = mem.bytes();
            assert(self.target(m) == Some(t as int));
            assert(self.bytes_in(m) == Some(b@));
            assert(T::to_le(v) == b@);
            let bs = b@;
            let w = choose|v: T| T::to_le(v) == bs;
            T::lemma_encoding(w, v);
            assert(self.value_in(m) == Some(v));
        }
        Some(v)
    }

    /// Writes `value` at the end of the chain; nothing is written when a hop or the
    /// value's place cannot be reached.
    pub fn write<M: AddressSpace>(&self, mem: &mut M, value: T)
        ensures
            final(mem).bytes() == self.written(old(mem).bytes(), value),
    {
        match self.eval(&*mem) {
            Some(t) => {
                let data = value.encode();
                proof {
                    T::lemma_encoding(value, value);
                }
                let _ = mem.write_bytes(t, data.as_slice());
            },
            None => {},
        }
    }

    /// Writing a value and reading it back gives that value, wherever the chain reaches a
    /// value that none of its own pointers overlaps.
    pub proof fn lemma_write_then_read(&self, m: Map<int, u8>, v: T)
        requires
            self.bytes_in(m) is Some,
            self.hops_clear(m),
        ensures
            self.value_in(self.written(m, v)) == Some(v),
    {
        let t = self.target(m)->0;
        T::lemma_encoding(v, v);
        lemma_walk_frame(m, self.base as int, self.offsets@, t, T::to_le(v));
        let m2 = self.written(m, v);
        assert(m2 == write_range(m, t, T::to_le(v)));
        assert(m2.dom() =~= m.dom());
        assert(self.target(m2) == Some(t));
        assert(range_mapped(m2, t, T::size()));
        assert(range_of(m2, t, T::size()) =~= T::to_le(v));
        assert(self.bytes_in(m2) == Some(T::to_le(v)));
        let bs = T::to_le(v);
        let w = choose|v: T| T::to_le(v) == bs;
        T::lemma_encoding(w, v);
    }

    /// Writing a value that none of the chain's pointers overlaps leaves the chain leading
    /// to the same place, still clear of its pointers.
    pub proof fn lemma_written_keeps_target(&self, m: Map<int, u8>, v: T)
        requires
            self.bytes_in(m) is Some,
            self.hops_clear(m),
        ensures
            self.target(self.written(m, v)) == self.target(m),
            self.written(m, v).dom() == m.dom(),
            self.hops_clear(self.written(m, v)),
    {
        let t = self.target(m)->0;
        T::lemma_encoding(v, v);
        lemma_walk_frame(m, self.base as int, self.offsets@, t, T::to_le(v));
        assert(self.written(m, v).dom() =~= m.dom());
    }

    /// The bytes at the end of the chain store the value that it reads there.
    pub proof fn lemma_value_bytes(&self, m: Map<int, u8>)
        requires
            self.value_in(m) is Some,
        ensures
            self.bytes_in(m) == Some(T::to_le(self.value_in(m)->0)),
    {
    }

    /// Where a pointer that the chain must follow cannot be read, the chain yields no value
    /// and writing through it changes nothing.
    pub proof fn lemma_unreadable_hop_fails(&self, m: Map<int, u8>, v: T, i: int)
        requires
            0 <= i < hop_addresses(m, self.base as int, self.offsets@).len(),
            !range_mapped(m, hop_addresses(m, self.base as int, self.offsets@)[i], 8),
        ensures
            self.target(m) is None,
            self.value_in(m) is None,
            self.written(m, v) == m,
    {
        lemma_unreadable_hop(m, self.base as int, self.offsets@, i);
    }
}

} // verus!
