use crate::bus::{rom_index, valid_rom_len, ROM_START};
use vstd::prelude::*;

verus! {

/// Size of the flat 16-bit address space.
pub const MEMORY_SIZE: usize = 0x10000;

/// The byte a flat memory image built from `rom` holds at `address`.
pub open spec fn image_byte(rom: Seq<u8>, address: int) -> u8 {
    if address >= ROM_START {
        rom[rom_index(address, rom.len() as int)]
    } else {
        0
    }
}

/// A flat, unchecked image of the whole address space.
pub struct Memory {
    pub memory: Vec<u8>,
}

impl Memory {
    /// Zeroed memory with the PRG-ROM placed at `0x8000`; a single-bank image
    /// is repeated at `0xC000`.
    pub fn new(prg_rom: Vec<u8>) -> (r: Memory)
        requires
            valid_rom_len(prg_rom@.len()),
        ensures
            r.memory@ == Seq::new(MEMORY_SIZE as nat, |a: int| image_byte(prg_rom@, a)),
    {
        let mut memory: Vec<u8> = vec![0u8; MEMORY_SIZE];
        let len = prg_rom.len();
        let mut i: usize = 0;
        while i < MEMORY_SIZE - ROM_START
            invariant
                i <= MEMORY_SIZE - ROM_START,
                len == prg_rom@.len(),
                valid_rom_len(prg_rom@.len()),
                memory@.len() == MEMORY_SIZE,
                forall|a: int|
                    0 <= a < ROM_START ==> #[trigger] memory@[a] == 0u8,
                forall|a: int|
                    ROM_START <= a < ROM_START + i ==> #[trigger] memory@[a] == image_byte(
                        prg_rom@,
                        a,
                    ),
                forall|a: int| ROM_START + i <= a < MEMORY_SIZE ==> #[trigger] memory@[a] == 0u8,
            decreases MEMORY_SIZE - ROM_START - i,
        {
            proof {
                if len > 0x4000 {
                    assert(len == 0x8000);
                    assert(i % len == i) by (nonlinear_arith)
                        requires
                            len == 0x8000,
                            i < 0x8000,
                    ;
                }
                assert(image_byte(prg_rom@, ROM_START + i) == prg_rom@[(i % len) as int]);
            }
            memory.set(ROM_START + i, prg_rom[i % len]);
            i = i + 1;
        }
        proof {
            assert(memory@ =~= Seq::new(MEMORY_SIZE as nat, |a: int| image_byte(prg_rom@, a)));
        }
        Memory { memory }
    }

    /// The byte at `address`.
    pub fn read_byte(&self, address: usize) -> (r: u8)
        requires
            address < self.memory@.len(),
        ensures
            r == self.memory@[address as int],
    {
        self.memory[address]
    }

    /// Stores `value` at `address`.
    pub fn write_byte(&mut self, address: usize, value: u8)
        requires
            address < old(self).memory@.len(),
        ensures
            final(self).memory@ == old(self).memory@.update(address as int, value),
    {
        self.memory.set(address, value);
    }
}

} // verus!
