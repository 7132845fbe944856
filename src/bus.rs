use crate::error::EmuError;
use vstd::prelude::*;

verus! {

/// Size of the internal work RAM; it is mirrored through `0x0000..=0x1FFF`.
pub const RAM_SIZE: usize = 0x0800;

/// Last address of the mirrored internal RAM region.
pub const RAM_END: usize = 0x1FFF;

/// First address of the cartridge PRG-ROM window.
pub const ROM_START: usize = 0x8000;

/// Last address of the 16-bit address space.
pub const ADDRESS_END: usize = 0xFFFF;

/// Size of one PRG-ROM bank; an image of this size is mirrored into both banks.
pub const ROM_BANK_SIZE: usize = 0x4000;

/// The one supported mapper: fixed mapping, no translation.
pub const NROM_MAPPER: u16 = 0;

/// True for the PRG-ROM sizes the fixed mapper supports (one or two banks).
pub open spec fn valid_rom_len(len: nat) -> bool {
    len == ROM_BANK_SIZE || len == 2 * ROM_BANK_SIZE
}

/// Index into RAM that a RAM-region address resolves to.
pub open spec fn ram_index(address: int) -> int {
    address % (RAM_SIZE as int)
}

/// Index into PRG-ROM that a ROM-window address resolves to.
pub open spec fn rom_index(address: int, rom_len: int) -> int {
    if rom_len <= ROM_BANK_SIZE {
        (address - ROM_START) % rom_len
    } else {
        address - ROM_START
    }
}

/// What reading `address` yields, given the RAM and PRG-ROM contents.
pub open spec fn bus_read(ram: Seq<u8>, rom: Seq<u8>, address: int) -> Result<u8, EmuError> {
    if 0 <= address <= RAM_END {
        Ok(ram[ram_index(address)])
    } else if ROM_START <= address <= ADDRESS_END {
        Ok(rom[rom_index(address, rom.len() as int)])
    } else {
        Err(EmuError::UnmappedAddress(address as usize))
    }
}

/// What writing `value` to `address` makes of the RAM contents.
pub open spec fn bus_write(ram: Seq<u8>, address: int, value: u8) -> Result<Seq<u8>, EmuError> {
    if address >= ROM_START {
        Err(EmuError::ReadOnlyViolation(address as usize))
    } else if 0 <= address <= RAM_END {
        Ok(ram.update(ram_index(address), value))
    } else {
        Err(EmuError::UnmappedAddress(address as usize))
    }
}

/// The CPU's view of memory: mirrored internal RAM and the cartridge PRG-ROM.
pub struct Bus {
    pub prg_rom: Vec<u8>,
    pub ram: Vec<u8>,
    pub mapper: u16,
}

impl Bus {
    /// The buffers have the sizes that address resolution relies on.
    pub open spec fn wf(&self) -> bool {
        &&& self.ram@.len() == RAM_SIZE
        &&& valid_rom_len(self.prg_rom@.len())
        &&& self.mapper == NROM_MAPPER
    }

    /// Builds the address space for a cartridge; RAM starts zeroed.
    pub fn new(mapper: u16, prg_rom: Vec<u8>) -> (r: Result<Bus, EmuError>)
        requires
            mapper == NROM_MAPPER ==> valid_rom_len(prg_rom@.len()),
        ensures
            mapper != NROM_MAPPER <==> r == Err::<Bus, EmuError>(EmuError::UnsupportedMapper(mapper)),
            mapper == NROM_MAPPER <==> r is Ok,
            r matches Ok(bus) ==> {
                &&& bus.wf()
                &&& bus.mapper == mapper
                &&& bus.prg_rom@ == prg_rom@
                &&& bus.ram@ == Seq::new(RAM_SIZE as nat, |i: int| 0u8)
            },
    {
        if mapper != NROM_MAPPER {
            return Err(EmuError::UnsupportedMapper(mapper));
        }
        let ram: Vec<u8> = vec![0u8; RAM_SIZE];
        proof {
            assert(ram@ =~= Seq::new(RAM_SIZE as nat, |i: int| 0u8));
        }
        Ok(Bus { prg_rom, ram, mapper })
    }

    /// Stores `value` at `address`. Only the RAM region is writable.
    pub fn write(&mut self, address: usize, value: u8) -> (r: Result<(), EmuError>)
        requires
            old(self).wf(),
        ensures
            final(self).wf(),
            final(self).prg_rom@ == old(self).prg_rom@,
            final(self).mapper == old(self).mapper,
            match bus_write(old(self).ram@, address as int, value) {
                Ok(ram) => r == Ok::<(), EmuError>(()) && final(self).ram@ == ram,
                Err(e) => r == Err::<(), EmuError>(e) && final(self).ram@ == old(self).ram@,
            },
    {
        if address >= ROM_START {
            return Err(EmuError::ReadOnlyViolation(address));
        }
        if address <= RAM_END {
            self.ram.set(address % RAM_SIZE, value);
            Ok(())
        } else {
            Err(EmuError::UnmappedAddress(address))
        }
    }

    /// Loads the byte that `address` resolves to.
    pub fn read(&self, address: usize) -> (r: Result<u8, EmuError>)
        requires
            self.wf(),
        ensures
            r == bus_read(self.ram@, self.prg_rom@, address as int),
    {
        if address <= RAM_END {
            Ok(self.ram[address % RAM_SIZE])
        } else if ROM_START <= address && address <= ADDRESS_END {
            let mut rom_address = address - ROM_START;
            if self.prg_rom.len() <= ROM_BANK_SIZE {
                rom_address = rom_address % self.prg_rom.len();
            }
            Ok(self.prg_rom[rom_address])
        } else {
            Err(EmuError::UnmappedAddress(address))
        }
    }
}

/// A byte written through any of the four RAM mirror windows is read back
/// through every one of them.
pub proof fn lemma_ram_mirror_round_trip(
    ram: Seq<u8>,
    rom: Seq<u8>,
    k: int,
    window1: int,
    window2: int,
    value: u8,
)
    requires
        ram.len() == RAM_SIZE,
        0 <= k < RAM_SIZE,
        0 <= window1 < 4,
        0 <= window2 < 4,
    ensures
        bus_write(ram, window1 * RAM_SIZE + k, value) matches Ok(written) && bus_read(
            written,
            rom,
            window2 * RAM_SIZE + k,
        ) == Ok::<u8, EmuError>(value),
{
    assert((window1 * 0x800 + k) % 0x800 == k) by (nonlinear_arith)
        requires
            0 <= k < 0x800,
            0 <= window1 < 4,
    ;
    assert((window2 * 0x800 + k) % 0x800 == k) by (nonlinear_arith)
        requires
            0 <= k < 0x800,
            0 <= window2 < 4,
    ;
}

/// A single-bank PRG-ROM image is visible in both ROM banks: its first byte is
/// read at `0x8000` and again at `0xC000`.
pub proof fn lemma_single_bank_rom_mirrored(ram: Seq<u8>, rom: Seq<u8>)
    requires
        rom.len() == ROM_BANK_SIZE,
    ensures
        bus_read(ram, rom, ROM_START as int) == Ok::<u8, EmuError>(rom[0]),
        bus_read(ram, rom, (ROM_START + ROM_BANK_SIZE) as int) == Ok::<u8, EmuError>(rom[0]),
{
}

} // verus!
