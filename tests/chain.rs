use libsekiro::bitflag::Bitflag;
use libsekiro::chain::PointerChain;
use libsekiro::memory::{AddressSpace, SimMemory};

const B: usize = 0x1000;

fn memory() -> SimMemory {
    SimMemory::new(B, vec![0u8; 0x400])
}

fn put(mem: &mut SimMemory, addr: usize, bytes: &[u8]) {
    assert!(mem.write_bytes(addr, bytes));
}

#[test]
fn two_hop_position_read() {
    let mut mem = memory();
    let p = B + 0x100;
    put(&mut mem, B + 0x48, &(p as u64).to_le_bytes());
    let mut v = Vec::new();
    for f in [1.0f32, 2.0, 3.0, 4.0] {
        v.extend_from_slice(&f.to_le_bytes());
    }
    put(&mut mem, p + 0x28, &v);
    let chain: PointerChain<[u32; 4]> = PointerChain::new(B, vec![0x48, 0x28]);
    let read = chain.read(&mem).map(|bits| bits.map(f32::from_bits));
    assert_eq!(read, Some([1.0, 2.0, 3.0, 4.0]));
    assert_eq!(chain.eval(&mem), Some(p + 0x28));
}

#[test]
fn write_then_read_every_type_and_depth() {
    let mut mem = memory();
    put(&mut mem, B + 0x10, &((B + 0x80) as u64).to_le_bytes());
    put(&mut mem, B + 0x88, &((B + 0x200) as u64).to_le_bytes());
    let one: PointerChain<u8> = PointerChain::new(B, vec![0x300]);
    let two: PointerChain<u32> = PointerChain::new(B, vec![0x10, 0x40]);
    let three: PointerChain<[u32; 4]> = PointerChain::new(B, vec![0x10, 0x8, 0x20]);
    one.write(&mut mem, 0xAB);
    two.write(&mut mem, 0xDEAD_BEEF);
    three.write(&mut mem, [1, 2, 3, 0xFFFF_FFFF]);
    assert_eq!(one.read(&mem), Some(0xAB));
    assert_eq!(two.read(&mem), Some(0xDEAD_BEEF));
    assert_eq!(three.read(&mem), Some([1, 2, 3, 0xFFFF_FFFF]));
    let zero: PointerChain<u32> = PointerChain::new(B + 0x3F0, vec![]);
    zero.write(&mut mem, 7);
    assert_eq!(zero.read(&mem), Some(7));
}

#[test]
fn hop_outside_buffer_reads_nothing_and_writes_nothing() {
    let mut mem = memory();
    put(&mut mem, B + 0x10, &0x9999_0000u64.to_le_bytes());
    let before = mem.as_bytes().to_vec();
    let chain: PointerChain<u32> = PointerChain::new(B, vec![0x10, 0x4, 0x8]);
    assert_eq!(chain.read(&mem), None);
    assert_eq!(chain.eval(&mem), None);
    chain.write(&mut mem, 5);
    assert_eq!(mem.as_bytes(), &before[..]);
    let value_outside: PointerChain<u32> = PointerChain::new(B, vec![0x10, 0x4]);
    assert_eq!(value_outside.eval(&mem), Some(0x9999_0004));
    assert_eq!(value_outside.read(&mem), None);
    value_outside.write(&mut mem, 5);
    assert_eq!(mem.as_bytes(), &before[..]);
    let past_end: PointerChain<u32> = PointerChain::new(B, vec![0x3FE]);
    assert_eq!(past_end.read(&mem), None);
    past_end.write(&mut mem, 5);
    assert_eq!(mem.as_bytes(), &before[..]);
}

#[test]
fn offset_overflow_fails() {
    let mem = memory();
    let chain: PointerChain<u8> = PointerChain::new(usize::MAX, vec![2]);
    assert_eq!(chain.eval(&mem), None);
}

#[test]
fn bitflag_set_and_clear_restores_byte() {
    let mut mem = memory();
    put(&mut mem, B + 5, &[0b1010_0000]);
    let flag = Bitflag::new(PointerChain::new(B + 5, vec![]), 0b0000_0100);
    assert_eq!(flag.get(&mem), Some(false));
    flag.set(&mut mem, true);
    assert_eq!(mem.as_bytes()[5], 0b1010_0100);
    assert_eq!(flag.get(&mem), Some(true));
    flag.set(&mut mem, false);
    assert_eq!(mem.as_bytes()[5], 0b1010_0000);
}

#[test]
fn bitflag_toggle_flips_only_its_bit() {
    let mut mem = memory();
    put(&mut mem, B + 9, &[0b0111_0001]);
    let flag = Bitflag::new(PointerChain::new(B + 9, vec![]), 1);
    flag.toggle(&mut mem);
    assert_eq!(mem.as_bytes()[9], 0b0111_0000);
    flag.toggle(&mut mem);
    assert_eq!(mem.as_bytes()[9], 0b0111_0001);
}

#[test]
fn bitflag_unreadable_does_nothing() {
    let mut mem = memory();
    let before = mem.as_bytes().to_vec();
    let flag = Bitflag::new(PointerChain::new(0x10, vec![]), 1);
    assert_eq!(flag.get(&mem), None);
    flag.set(&mut mem, true);
    flag.toggle(&mut mem);
    assert_eq!(mem.as_bytes(), &before[..]);
}

#[test]
fn simulated_memory_bounds() {
    let mut mem = SimMemory::new(0x20, vec![1, 2, 3, 4]);
    assert_eq!(mem.start_address(), 0x20);
    assert_eq!(mem.read_bytes(0x21, 2), Some(vec![2, 3]));
    assert_eq!(mem.read_bytes(0x23, 2), None);
    assert_eq!(mem.read_bytes(0x1F, 1), None);
    assert!(!mem.write_bytes(0x23, &[9, 9]));
    assert!(mem.write_bytes(0x22, &[9, 9]));
    assert_eq!(mem.as_bytes(), &[1, 2, 9, 9]);
}
