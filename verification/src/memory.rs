//! The memory bus: a flat 16-bit address space whose low 8 KB region is
//! backed by 2 KB of physical storage, mirrored four times.

use vstd::prelude::*;
use crate::Fault;

verus! {

/// True for the addresses that the bus implements (the mirrored RAM region).
pub open spec fn in_ram(addr: u16) -> bool {
    addr < 0x2000
}

/// The physical-storage index behind a backed address.
pub open spec fn ram_index(addr: u16) -> int {
    (addr % 0x800) as int
}

/// The byte a backed address shows; meaningful when `in_ram(addr)`.
pub open spec fn ram_read(mem: Seq<u8>, addr: u16) -> u8
    recommends
        mem.len() == 0x800,
{
    mem[ram_index(addr)]
}

/// The memory bus.  Addresses 0x0000-0x1FFF reach the 2 KB of internal RAM
/// through mirroring; any other address raises a memory fault, since routing
/// to further devices belongs to the host system.
pub struct Memory {
    internal_ram: Vec<u8>,
}

impl View for Memory {
    type V = Seq<u8>;

    closed spec fn view(&self) -> Seq<u8> {
        self.internal_ram@
    }
}

impl Memory {
    #[verifier::type_invariant]
    spec fn wf(&self) -> bool {
        self.internal_ram@.len() == 0x800
    }

    /// A zero-initialized bus.
    pub fn new() -> (r: Memory)
        ensures
            r@.len() == 0x800,
            forall|i: int| 0 <= i < 0x800 ==> r@[i] == 0u8,
    {
        let mut ram: Vec<u8> = Vec::new();
        while ram.len() < 0x800
            invariant
                ram@.len() <= 0x800,
                forall|i: int| 0 <= i < ram@.len() ==> ram@[i] == 0u8,
            decreases 0x800 - ram@.len(),
        {
            ram.push(0u8);
        }
        Memory { internal_ram: ram }
    }

    /// Reads a backed address directly, without the fault path.
    pub fn read_ram(&self, addr: u16) -> (r: u8)
        requires
            in_ram(addr),
        ensures
            r == ram_read(self@, addr),
    {
        proof {
            use_type_invariant(self);
        }
        let i: usize = (addr % 0x800) as usize;
        self.internal_ram[i]
    }

    /// Writes a backed address directly, without the fault path.
    pub fn write_ram(&mut self, addr: u16, value: u8)
        requires
            in_ram(addr),
        ensures
            final(self)@ == old(self)@.update(ram_index(addr), value),
    {
        proof {
            use_type_invariant(&*self);
        }
        let i: usize = (addr % 0x800) as usize;
        self.internal_ram[i] = value;
    }

    /// Reads one byte from the bus.
    pub fn fetch(&self, addr: u16) -> (r: Result<u8, Fault>)
        ensures
            in_ram(addr) ==> r == Ok::<u8, Fault>(ram_read(self@, addr)),
            !in_ram(addr) ==> r == Err::<u8, Fault>(Fault::MemoryFault),
    {
        if addr < 0x2000 {
            Ok(self.read_ram(addr))
        } else {
            Err(Fault::MemoryFault)
        }
    }

    /// Writes one byte to the bus.
    pub fn write(&mut self, addr: u16, value: u8) -> (r: Result<(), Fault>)
        ensures
            in_ram(addr) ==> r == Ok::<(), Fault>(())
                && final(self)@ == old(self)@.update(ram_index(addr), value),
            !in_ram(addr) ==> r == Err::<(), Fault>(Fault::MemoryFault)
                && final(self)@ == old(self)@,
    {
        if addr < 0x2000 {
            self.write_ram(addr, value);
            Ok(())
        } else {
            Err(Fault::MemoryFault)
        }
    }
}

} // verus!
