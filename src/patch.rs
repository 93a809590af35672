//! The patch that skips the logo screens at startup: a conditional jump at a known place
//! of the image is inverted.
use vstd::prelude::*;

use crate::memory::{range_mapped, range_of, write_range, AddressSpace};
use crate::versions::{table_of, BaseAddresses, Version};

verus! {

/// The jump as the release ships it.
pub open spec fn unpatched() -> Seq<u8> {
    seq![0x74u8, 0x30]
}

/// The jump once inverted.
pub open spec fn patched() -> Seq<u8> {
    seq![0x75u8, 0x30]
}

/// The jump at `at` can be read and is as shipped.
pub open spec fn shipped_jump_at(m: Map<int, u8>, at: int) -> bool {
    at <= usize::MAX && range_mapped(m, at, 2) && range_of(m, at, 2) == unpatched()
}

/// The memory after the patch: the jump is inverted where it is found as shipped, and
/// nothing changes otherwise.
pub open spec fn after_patch(m: Map<int, u8>, at: int) -> Map<int, u8> {
    if shipped_jump_at(m, at) {
        write_range(m, at, patched())
    } else {
        m
    }
}

/// Inverts the jump of `version` in an image loaded at `module_base`, if it is still as
/// shipped; returns whether it did.
pub fn apply_patch<M: AddressSpace>(mem: &mut M, version: Version, module_base: usize) -> (r: bool)
    ensures
        r == shipped_jump_at(old(mem).bytes(), table_of(version).no_logo + module_base),
        final(mem).bytes() == after_patch(old(mem).bytes(), table_of(version).no_logo + module_base),
{
    let offset = BaseAddresses::from(version).no_logo;
    let at = match module_base.checked_add(offset) {
        Some(at) => at,
        None => {
            return false;
        },
    };
    let current = match mem.read_bytes(at, 2) {
        Some(b) => b,
        None => {
            return false;
        },
    };
    if current[0] == 0x74 && current[1] == 0x30 {
        assert(current@ =~= unpatched());
        let data: [u8; 2] = [0x75, 0x30];
        let ok = mem.write_bytes(at, data.as_slice());
        assert(data@ =~= patched());
        ok
    } else {
        assert(current@ != unpatched()) by {
            if current@ == unpatched() {
                assert(current@[0] == 0x74 && current@[1] == 0x30);
            }
        }
        false
    }
}

} // verus!
