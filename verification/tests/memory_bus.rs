//! The memory bus: zero initialization, mirroring, and the fault boundary.

use emu6502::memory::Memory;
use emu6502::Fault;

#[test]
fn new_memory_is_zeroed() {
    let mem = Memory::new();
    assert_eq!(mem.fetch(0x0000), Ok(0));
    assert_eq!(mem.fetch(0x07FF), Ok(0));
    assert_eq!(mem.fetch(0x1FFF), Ok(0));
}

#[test]
fn write_and_fetch_round_trip() {
    let mut mem = Memory::new();
    assert_eq!(mem.write(0x0123, 0xAB), Ok(()));
    assert_eq!(mem.fetch(0x0123), Ok(0xAB));
}

#[test]
fn low_region_is_mirrored_four_times() {
    let mut mem = Memory::new();
    assert_eq!(mem.write(0x0042, 0x99), Ok(()));
    assert_eq!(mem.fetch(0x0042), Ok(0x99));
    assert_eq!(mem.fetch(0x0842), Ok(0x99));
    assert_eq!(mem.fetch(0x1042), Ok(0x99));
    assert_eq!(mem.fetch(0x1842), Ok(0x99));

    // A write through a mirror lands in the same physical byte.
    assert_eq!(mem.write(0x1FFF, 0x5A), Ok(()));
    assert_eq!(mem.fetch(0x07FF), Ok(0x5A));
}

#[test]
fn access_outside_the_backed_region_faults() {
    let mut mem = Memory::new();
    assert_eq!(mem.fetch(0x2000), Err(Fault::MemoryFault));
    assert_eq!(mem.fetch(0xFFFF), Err(Fault::MemoryFault));
    assert_eq!(mem.write(0x2000, 1), Err(Fault::MemoryFault));
    assert_eq!(mem.write(0x8000, 1), Err(Fault::MemoryFault));
    // The failing write changed nothing.
    assert_eq!(mem.fetch(0x0000), Ok(0));
}
