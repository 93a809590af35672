//! Named signature scans: patterns that locate a feature in an executable image,
//! and the addressing modes that turn a match into an address within the image.
use vstd::bytes::{spec_u32_from_le_bytes, spec_u32_to_le_bytes, u32_from_le_bytes};
use vstd::prelude::*;
use vstd::slice::slice_subrange;

use crate::pattern::{first_match, into_needle, naive_search, needle_of};

verus! {

/// How the position of a match becomes an address within the image.
#[derive(Clone, Copy, Debug, PartialEq, Eq, Structural)]
pub enum AddressingMode {
    /// The match position plus the hop offset.
    Direct,
    /// A signed 4-byte little-endian displacement is stored at the match position plus the
    /// hop offset; the address is the match position plus `deref_offset` plus that displacement.
    Indirect { deref_offset: u32 },
    /// As `Indirect`, then `field_offset` more: a field inside the structure that the
    /// displacement refers to.
    IndirectTwice { deref_offset: u32, field_offset: u32 },
}

/// The largest value of a `usize` on the 64-bit targets that this library serves.
pub open spec fn max_address() -> int {
    usize::MAX as int
}

/// A 4-byte little-endian value read as a signed displacement.
pub open spec fn displacement_of(b: Seq<u8>) -> int {
    let u = spec_u32_from_le_bytes(b);
    if u < 0x8000_0000 {
        u as int
    } else {
        u as int - 0x1_0000_0000
    }
}

/// The 4 little-endian bytes that store a signed displacement.
pub open spec fn displacement_bytes(d: i32) -> Seq<u8> {
    spec_u32_to_le_bytes(
        if d >= 0 {
            d as u32
        } else {
            (d + 0x1_0000_0000) as u32
        },
    )
}

/// The address that a match at `m` resolves to, or `None` where the displacement
/// does not lie within the buffer or the address would not be a `usize`.
pub open spec fn resolved(buf: Seq<u8>, m: int, offset: int, mode: AddressingMode) -> Option<int> {
    let at = m + offset;
    match mode {
        AddressingMode::Direct => if 0 <= at <= max_address() {
            Some(at)
        } else {
            None
        },
        AddressingMode::Indirect { deref_offset } => if 0 <= at && at + 4 <= buf.len() {
            let a = m + deref_offset + displacement_of(buf.subrange(at, at + 4));
            if 0 <= a <= max_address() {
                Some(a)
            } else {
                None
            }
        } else {
            None
        },
        AddressingMode::IndirectTwice { deref_offset, field_offset } => if 0 <= at && at + 4
            <= buf.len() {
            let a = m + deref_offset + displacement_of(buf.subrange(at, at + 4)) + field_offset;
            if 0 <= a <= max_address() {
                Some(a)
            } else {
                None
            }
        } else {
            None
        },
    }
}

/// Resolves a match at `m` with the given hop offset and addressing mode.
pub fn resolve(bytes: &[u8], m: usize, offset: usize, mode: AddressingMode) -> (r: Option<usize>)
    ensures
        resolved(bytes@, m as int, offset as int, mode) == match r {
            Some(a) => Some(a as int),
            None => None,
        },
{
    let _len = bytes.len();
    let at = match m.checked_add(offset) {
        Some(at) => at,
        None => {
            return None;
        },
    };
    match mode {
        AddressingMode::Direct => Some(at),
        AddressingMode::Indirect { deref_offset } => indirect(bytes, m, at, deref_offset, 0),
        AddressingMode::IndirectTwice { deref_offset, field_offset } => {
            indirect(bytes, m, at, deref_offset, field_offset)
        },
    }
}

/// Decodes the displacement stored at `at` and adds the match position and both offsets.
fn indirect(bytes: &[u8], m: usize, at: usize, deref_offset: u32, field_offset: u32) -> (r: Option<
    usize,
>)
    ensures
        r == (if at + 4 <= bytes@.len() {
            let a = m + deref_offset + displacement_of(bytes@.subrange(at as int, at + 4))
                + field_offset;
            if 0 <= a <= max_address() {
                Some(a as usize)
            } else {
                None
            }
        } else {
            None::<usize>
        }),
{
    if bytes.len() < 4 || at > bytes.len() - 4 {
        return None;
    }
    let raw = u32_from_le_bytes(slice_subrange(bytes, at, at + 4));
    let d: i128 = if raw < 0x8000_0000 {
        raw as i128
    } else {
        raw as i128 - 0x1_0000_0000
    };
    let a: i128 = m as i128 + deref_offset as i128 + d + field_offset as i128;
    if a < 0 || a > usize::MAX as i128 {
        None
    } else {
        Some(a as usize)
    }
}

/// A direct match resolves to the match position plus the hop offset.
pub proof fn lemma_direct_resolution(buf: Seq<u8>, m: usize, offset: usize)
    requires
        m + offset <= usize::MAX,
    ensures
        resolved(buf, m as int, offset as int, AddressingMode::Direct) == Some(m + offset),
{
}

/// The displacement read back from its own bytes is the displacement itself.
pub proof fn lemma_displacement_round_trip(d: i32)
    ensures
        displacement_bytes(d).len() == 4,
        displacement_of(displacement_bytes(d)) == d,
{
    vstd::bytes::lemma_auto_spec_u32_to_from_le_bytes();
    let x: u32 = if d >= 0 {
        d as u32
    } else {
        (d + 0x1_0000_0000) as u32
    };
    assert(spec_u32_to_le_bytes(x).len() == 4);
    assert(spec_u32_from_le_bytes(spec_u32_to_le_bytes(x)) == x);
}

/// A buffer with `d` stored as a displacement at `at`.
pub open spec fn with_displacement(buf: Seq<u8>, at: int, d: i32) -> Seq<u8> {
    buf.subrange(0, at) + displacement_bytes(d) + buf.subrange(at + 4, buf.len() as int)
}

/// Storing a displacement `d` at the match position plus the hop offset, then resolving
/// the match indirectly, gives the match position plus `deref_offset` plus `d`.
pub proof fn lemma_indirect_round_trip(
    buf: Seq<u8>,
    m: usize,
    offset: usize,
    deref_offset: u32,
    d: i32,
)
    requires
        m + offset + 4 <= buf.len(),
        0 <= m + deref_offset + d <= usize::MAX,
    ensures
        resolved(
            with_displacement(buf, m + offset, d),
            m as int,
            offset as int,
            AddressingMode::Indirect { deref_offset },
        ) == Some(m + deref_offset + d),
{
    let at = m + offset;
    let planted = with_displacement(buf, at, d);
    lemma_displacement_round_trip(d);
    assert(planted.subrange(at, at + 4) =~= displacement_bytes(d));
}

/// A named feature to locate: alternative patterns, tried in order, and how a match
/// becomes an address. An alternative whose text did not compile is kept as `None` and
/// matches nothing.
pub struct Aob {
    pub name: String,
    pub patterns: Vec<Option<Vec<Option<u8>>>>,
    pub offset: usize,
    pub mode: AddressingMode,
}

/// The pattern that a compiled alternative holds, as a sequence.
pub open spec fn compiled_view(p: Option<Vec<Option<u8>>>) -> Option<Seq<Option<u8>>> {
    match p {
        Some(v) => Some(v@),
        None => None,
    }
}

/// The address given by the first alternative, from the `k`-th on, that matches: the first
/// match decides, and where its address cannot be resolved the feature is not found.
pub open spec fn scan_from(
    buf: Seq<u8>,
    needles: Seq<Option<Seq<Option<u8>>>>,
    offset: int,
    mode: AddressingMode,
    k: int,
) -> Option<int>
    decreases needles.len() - k,
{
    if k < 0 || k >= needles.len() {
        None
    } else {
        match needles[k] {
            Some(n) => match first_match(buf, n) {
                Some(m) => resolved(buf, m, offset, mode),
                None => scan_from(buf, needles, offset, mode, k + 1),
            },
            None => scan_from(buf, needles, offset, mode, k + 1),
        }
    }
}

impl Aob {
    /// The compiled patterns, in the order in which they are tried.
    pub open spec fn needles(&self) -> Seq<Option<Seq<Option<u8>>>> {
        self.patterns@.map_values(|p: Option<Vec<Option<u8>>>| compiled_view(p))
    }

    /// Where this feature lies in `buf`, if any alternative finds it.
    pub open spec fn scan(&self, buf: Seq<u8>) -> Option<int> {
        scan_from(buf, self.needles(), self.offset as int, self.mode, 0)
    }

    /// A feature with the given textual patterns; `deref` selects indirect addressing
    /// measured `deref_offset` bytes from the match, otherwise the address is direct.
    pub fn new(name: &str, patterns: &[&str], offset: usize, deref_offset: u32, deref: bool) -> (r:
        Aob)
        ensures
            r.name@ == name@,
            r.needles() == patterns@.map_values(|p: &str| needle_of(p@)),
            r.offset == offset,
            r.mode == (if deref {
                AddressingMode::Indirect { deref_offset }
            } else {
                AddressingMode::Direct
            }),
    {
        let mode = if deref {
            AddressingMode::Indirect { deref_offset }
        } else {
            AddressingMode::Direct
        };
        Aob::with_mode(name, patterns, offset, mode)
    }

    /// A feature with the given textual patterns, hop offset and addressing mode.
    pub fn with_mode(name: &str, patterns: &[&str], offset: usize, mode: AddressingMode) -> (r: Aob)
        ensures
            r.name@ == name@,
            r.needles() == patterns@.map_values(|p: &str| needle_of(p@)),
            r.offset == offset,
            r.mode == mode,
    {
        let mut compiled: Vec<Option<Vec<Option<u8>>>> = Vec::new();
        let mut i: usize = 0;
        while i < patterns.len()
            invariant
                i <= patterns@.len(),
                compiled@.len() == i,
                forall|k: int|
                    0 <= k < i ==> #[trigger] compiled_view(compiled@[k]) == needle_of(patterns@[k]@),
            decreases patterns.len() - i,
        {
            compiled.push(into_needle(patterns[i]));
            i += 1;
        }
        let r = Aob { name: String::from_str(name), patterns: compiled, offset, mode };
        assert(r.needles() =~= patterns@.map_values(|p: &str| needle_of(p@)));
        r
    }

    /// The name and address of this feature in `bytes`: the first alternative that matches
    /// gives the address, or nothing where that match cannot be resolved.
    pub fn find(&self, bytes: &[u8]) -> (r: Option<(String, usize)>)
        ensures
            self.scan(bytes@) == match r {
                Some(found) => Some(found.1 as int),
                None => None,
            },
            r matches Some(found) ==> found.0@ == self.name@,
    {
        let mut k: usize = 0;
        while k < self.patterns.len()
            invariant
                k <= self.patterns@.len(),
                self.scan(bytes@) == scan_from(
                    bytes@,
                    self.needles(),
                    self.offset as int,
                    self.mode,
                    k as int,
                ),
            decreases self.patterns.len() - k,
        {
            assert(self.needles()[k as int] == compiled_view(self.patterns@[k as int]));
            if let Some(p) = &self.patterns[k] {
                if let Some(m) = naive_search(bytes, p.as_slice()) {
                    return match resolve(bytes, m, self.offset, self.mode) {
                        Some(a) => Some((self.name.clone(), a)),
                        None => None,
                    };
                }
            }
            k += 1;
        }
        None
    }
}

/// What a scan of one image found: each located feature with its address, and the
/// names of those that could not be located, both in the order of the scans.
pub struct ScanReport {
    pub found: Vec<(String, usize)>,
    pub missing: Vec<String>,
}

/// Scans one image for every feature; a feature that is not found does not stop the others.
pub fn find_aobs(aobs: &Vec<Aob>, bytes: &[u8]) -> (r: ScanReport)
    ensures
        r.found@.len() + r.missing@.len() == aobs@.len(),
        forall|i: int|
            0 <= i < r.found@.len() ==> exists|k: int|
                0 <= k < aobs@.len() && #[trigger] r.found@[i].0@ == aobs@[k].name@ && aobs@[k].scan(
                    bytes@,
                ) == Some(r.found@[i].1 as int),
        forall|i: int|
            0 <= i < r.missing@.len() ==> exists|k: int|
                0 <= k < aobs@.len() && #[trigger] r.missing@[i]@ == aobs@[k].name@ && aobs@[k].scan(
                    bytes@,
                ) is None,
        found_spec(aobs@, bytes@) == r.found@.map_values(|e: (String, usize)| (e.0@, e.1 as int)),
        missing_spec(aobs@, bytes@) == r.missing@.map_values(|n: String| n@),
{
    let mut found: Vec<(String, usize)> = Vec::new();
    let mut missing: Vec<String> = Vec::new();
    let mut k: usize = 0;
    while k < aobs.len()
        invariant
            k <= aobs@.len(),
            found@.len() + missing@.len() == k,
            found_spec(aobs@.subrange(0, k as int), bytes@) == found@.map_values(
                |e: (String, usize)| (e.0@, e.1 as int),
            ),
            missing_spec(aobs@.subrange(0, k as int), bytes@) == missing@.map_values(
                |n: String| n@,
            ),
            forall|i: int|
                0 <= i < found@.len() ==> exists|j: int|
                    0 <= j < k && #[trigger] found@[i].0@ == aobs@[j].name@ && aobs@[j].scan(
                        bytes@,
                    ) == Some(found@[i].1 as int),
            forall|i: int|
                0 <= i < missing@.len() ==> exists|j: int|
                    0 <= j < k && #[trigger] missing@[i]@ == aobs@[j].name@ && aobs@[j].scan(
                        bytes@,
                    ) is None,
        decreases aobs.len() - k,
    {
        let aob = &aobs[k];
        let ghost pre = aobs@.subrange(0, k as int);
        let ghost next = aobs@.subrange(0, k + 1);
        assert(next.drop_last() =~= pre);
        match aob.find(bytes) {
            Some((name, a)) => {
                let ghost old_found = found@;
                found.push((name, a));
                assert(found@.map_values(|e: (String, usize)| (e.0@, e.1 as int)) =~= old_found.map_values(
                    |e: (String, usize)| (e.0@, e.1 as int),
                ).push((aob.name@, a as int)));
                assert(found@[found@.len() - 1].0@ == aobs@[k as int].name@);
            },
            None => {
                let ghost old_missing = missing@;
                missing.push(aob.name.clone());
                assert(missing@.map_values(|n: String| n@) =~= old_missing.map_values(
                    |n: String| n@,
                ).push(aob.name@));
                assert(missing@[missing@.len() - 1]@ == aobs@[k as int].name@);
            },
        }
        k += 1;
    }
    assert(aobs@.subrange(0, k as int) =~= aobs@);
    ScanReport { found, missing }
}

/// The names and addresses of the features of `aobs` that `buf` holds, in order.
pub open spec fn found_spec(aobs: Seq<Aob>, buf: Seq<u8>) -> Seq<(Seq<char>, int)>
    decreases aobs.len(),
{
    if aobs.len() == 0 {
        Seq::empty()
    } else {
        let front = found_spec(aobs.drop_last(), buf);
        match aobs.last().scan(buf) {
            Some(a) => front.push((aobs.last().name@, a)),
            None => front,
        }
    }
}

/// The names of the features of `aobs` that `buf` does not hold, in order.
pub open spec fn missing_spec(aobs: Seq<Aob>, buf: Seq<u8>) -> Seq<Seq<char>>
    decreases aobs.len(),
{
    if aobs.len() == 0 {
        Seq::empty()
    } else {
        let front = missing_spec(aobs.drop_last(), buf);
        match aobs.last().scan(buf) {
            Some(_) => front,
            None => front.push(aobs.last().name@),
        }
    }
}

} // verus!
