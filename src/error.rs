use vstd::prelude::*;

verus! {

/// The conditions under which the emulator core refuses to go on. Every one of
/// them ends the current emulation session; none is retried.
#[derive(Debug, Clone, Copy, PartialEq, Eq, Structural)]
pub enum EmuError {
    /// The cartridge asks for an address-translation scheme this core lacks.
    UnsupportedMapper(u16),
    /// The address lies outside the implemented RAM and ROM regions.
    UnmappedAddress(usize),
    /// A write was aimed at the read-only cartridge ROM window.
    ReadOnlyViolation(usize),
    /// The byte at the given stream position is not in the opcode table.
    UnsupportedOpcode(u8, usize),
    /// The instruction starting at the given stream position runs past the
    /// end of the stream.
    MalformedOperand(usize),
}

} // verus!
