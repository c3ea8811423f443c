//! Memory
use vstd::prelude::*;

use crate::instructions::Addr;

verus! {

broadcast use crate::instructions::group_addr;

/// Number of bytes of RAM
pub const RAM_SIZE: usize = 4096;

/// RAM
pub struct Memory {
    ram: [u8; RAM_SIZE],
}

impl View for Memory {
    type V = Seq<u8>;

    closed spec fn view(&self) -> Seq<u8> {
        self.ram@
    }
}

impl Memory {
    /// Memory always holds `RAM_SIZE` bytes
    pub broadcast proof fn lemma_len(m: Memory)
        ensures
            #[trigger] m@.len() == RAM_SIZE,
    {
    }

    /// Creates a new instance intialized with `0`
    pub fn new() -> (r: Memory)
        ensures
            r@ == Seq::new(RAM_SIZE as nat, |k: int| 0u8),
    {
        let r = Memory { ram: [0u8; RAM_SIZE] };
        assert(r@ =~= Seq::new(RAM_SIZE as nat, |k: int| 0u8));
        r
    }

    /// Reads a byte at `addr`
    pub fn read(&self, addr: Addr) -> (r: u8)
        ensures
            r == self@[addr@ as int],
    {
        self.ram[addr.value() as usize]
    }

    /// Writes a `val` byte at `addr`
    pub fn write(&mut self, addr: Addr, val: u8)
        ensures
            final(self)@ == old(self)@.update(addr@ as int, val),
    {
        self.ram[addr.value() as usize] = val;
    }
}

impl Default for Memory {
    fn default() -> (r: Memory)
        ensures
            r@ == Seq::new(RAM_SIZE as nat, |k: int| 0u8),
    {
        Memory::new()
    }
}

} // verus!
