//! The capability to read and write bytes of an address space, and a buffer that provides it.
use vstd::prelude::*;

verus! {

/// Every byte from `addr` up to `addr + len` can be accessed.
pub open spec fn range_mapped(m: Map<int, u8>, addr: int, len: nat) -> bool {
    forall|i: int| 0 <= i < len ==> #[trigger] m.dom().contains(addr + i)
}

/// The `len` bytes from `addr` on.
pub open spec fn range_of(m: Map<int, u8>, addr: int, len: nat) -> Seq<u8> {
    Seq::new(len, |i: int| m[addr + i])
}

/// The bytes of `m` with `data` stored from `addr` on; no address is added or removed.
pub open spec fn write_range(m: Map<int, u8>, addr: int, data: Seq<u8>) -> Map<int, u8> {
    Map::new(
        |k: int| m.dom().contains(k),
        |k: int|
            if addr <= k < addr + data.len() {
                data[k - addr]
            } else {
                m[k]
            },
    )
}

/// An address space whose bytes can be read and written: the memory of another
/// process, or a buffer standing in for it.
pub trait AddressSpace {
    /// The bytes that can be accessed now, by address.
    spec fn bytes(&self) -> Map<int, u8>;

    /// Reads `len` bytes from `addr`: all of them, or nothing when one cannot be accessed.
    fn read_bytes(&self, addr: usize, len: usize) -> (r: Option<Vec<u8>>)
        ensures
            match r {
                Some(v) => range_mapped(self.bytes(), addr as int, len as nat) && v@ == range_of(
                    self.bytes(),
                    addr as int,
                    len as nat,
                ),
                None => !range_mapped(self.bytes(), addr as int, len as nat),
            },
    ;

    /// Writes `data` from `addr` on: all of it, or nothing when a byte cannot be accessed.
    fn write_bytes(&mut self, addr: usize, data: &[u8]) -> (ok: bool)
        ensures
            ok == range_mapped(old(self).bytes(), addr as int, data@.len()),
            final(self).bytes() == (if ok {
                write_range(old(self).bytes(), addr as int, data@)
            } else {
                old(self).bytes()
            }),
    ;
}

/// A contiguous buffer of bytes that starts at a given address; nothing else is mapped.
pub struct SimMemory {
    start: usize,
    data: Vec<u8>,
}

impl SimMemory {
    pub closed spec fn start(&self) -> int {
        self.start as int
    }

    pub closed spec fn contents(&self) -> Seq<u8> {
        self.data@
    }

    /// A buffer holding `data` from address `start` on; bytes that would lie past the
    /// largest address are not mapped.
    pub fn new(start: usize, data: Vec<u8>) -> (r: SimMemory)
        ensures
            r.start() == start,
            r.contents() == data@,
    {
        SimMemory { start, data }
    }

    /// The address of the first byte.
    pub fn start_address(&self) -> (r: usize)
        ensures
            r == self.start(),
    {
        self.start
    }

    /// The bytes held, from the start address on.
    pub fn as_bytes(&self) -> (r: &[u8])
        ensures
            r@ == self.contents(),
    {
        self.data.as_slice()
    }

    /// Whether `len` bytes from `addr` lie within the buffer, and if so where they begin in it.
    fn locate(&self, addr: usize, len: usize) -> (r: Option<usize>)
        requires
            len > 0,
        ensures
            match r {
                Some(i) => i == addr - self.start() && i + len <= self.contents().len() && addr
                    + len <= usize::MAX + 1 && range_mapped(self.bytes(), addr as int, len as nat),
                None => !range_mapped(self.bytes(), addr as int, len as nat),
            },
    {
        if addr < self.start {
            assert(!self.bytes().dom().contains(addr + 0));
            return None;
        }
        let i = addr - self.start;
        if i >= self.data.len() {
            assert(!self.bytes().dom().contains(addr + 0));
            return None;
        }
        if len > self.data.len() - i {
            assert(!self.bytes().dom().contains(addr + (self.data@.len() - i)));
            return None;
        }
        if len - 1 > usize::MAX - addr {
            assert(!self.bytes().dom().contains(addr + (usize::MAX - addr + 1)));
            return None;
        }
        Some(i)
    }
}

impl AddressSpace for SimMemory {
    open spec fn bytes(&self) -> Map<int, u8> {
        Map::new(
            |k: int| self.start() <= k < self.start() + self.contents().len() && k <= usize::MAX,
            |k: int| self.contents()[k - self.start()],
        )
    }

    fn read_bytes(&self, addr: usize, len: usize) -> (r: Option<Vec<u8>>) {
        if len == 0 {
            let v: Vec<u8> = Vec::new();
            assert(v@ =~= range_of(self.bytes(), addr as int, 0));
            return Some(v);
        }
        match self.locate(addr, len) {
            None => None,
            Some(i) => {
                let mut v: Vec<u8> = Vec::new();
                let mut j: usize = 0;
                while j < len
                    invariant
                        i + len <= self.contents().len(),
                        addr + len <= usize::MAX + 1,
                        i == addr - self.start(),
                        j <= len,
                        v@ =~= range_of(self.bytes(), addr as int, j as nat),
                    decreases len - j,
                {
                    v.push(self.data[i + j]);
                    j += 1;
                }
                Some(v)
            },
        }
    }

    fn write_bytes(&mut self, addr: usize, data: &[u8]) -> (ok: bool) {
        let len = data.len();
        if len == 0 {
            assert(write_range(self.bytes(), addr as int, data@) =~= self.bytes());
            return true;
        }
        match self.locate(addr, len) {
            None => false,
            Some(i) => {
                let ghost before = self.bytes();
                let mut j: usize = 0;
                while j < len
                    invariant
                        len == data@.len(),
                        i + len <= self.contents().len(),
                        addr + len <= usize::MAX + 1,
                        i == addr - self.start(),
                        j <= len,
                        self.start() == old(self).start(),
                        self.contents().len() == old(self).contents().len(),
                        before == old(self).bytes(),
                        forall|k: int|
                            0 <= k < self.contents().len() ==> #[trigger] self.contents()[k] == if i
                                <= k < i + j {
                                data@[k - i]
                            } else {
                                old(self).contents()[k]
                            },
                    decreases len - j,
                {
                    self.data.set(i + j, data[j]);
                    j += 1;
                }
                assert(self.bytes() =~= write_range(before, addr as int, data@));
                true
            },
        }
    }
}

} // verus!
