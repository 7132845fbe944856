use crate::error::EmuError;
use crate::instruction::{decode, parse_instruction, Instruction};
use vstd::prelude::*;

verus! {

/// Length of the iNES container header.
pub const HEADER_LEN: usize = 16;

/// Size of one PRG-ROM unit as counted by the header.
pub const PRG_ROM_UNIT: usize = 0x4000;

/// Why a cartridge image could not be taken apart.
#[derive(Debug, Clone, Copy, PartialEq, Eq, Structural)]
pub enum InesError {
    /// The image is shorter than its header.
    TooShort,
    /// The image carries a trainer area, which is not supported.
    TrainerNotSupported,
    /// The PRG-ROM size is written in exponent notation, which is not supported.
    PrgRomExponentNotation,
    /// The image holds fewer PRG-ROM bytes than its header announces.
    PrgRomTruncated,
    /// The PRG-ROM does not decode as a sequence of supported instructions.
    Decode(EmuError),
}

/// The fields of the 16-byte iNES header.
pub struct InesHeaders {
    pub nes_string: Vec<u8>,
    pub prg_rom_size_lsb: u8,
    pub chr_rom_size_lsb: u8,
    pub flags6: u8,
    pub flags7: u8,
    pub mapper_msb_submapper: u8,
    pub prg_rom_chr_rom_size_msb: u8,
    pub prg_ram_eeprom_size: u8,
    pub chr_ram_size: u8,
    pub cpu_ppu_timing: u8,
    pub hardware_type: u8,
    pub misc_roms: u8,
    pub default_expansion_device: u8,
}

/// A parsed cartridge image: its header and its decoded program.
pub struct InesContent {
    pub headers: InesHeaders,
    pub instructions: Vec<Instruction>,
}

/// The header's PRG-ROM size in 16 KiB units.
pub open spec fn prg_rom_units(msb: u8, lsb: u8) -> int {
    (msb & 0x0F) as int * 256 + lsb as int
}

/// The header's CHR-ROM size in 8 KiB units.
pub open spec fn chr_rom_units(msb: u8, lsb: u8) -> int {
    (msb >> 4u8) as int * 256 + lsb as int
}

/// The header fields are the first sixteen bytes of `bytes`, in order.
pub open spec fn headers_from(h: InesHeaders, bytes: Seq<u8>) -> bool {
    &&& h.nes_string@ == bytes.subrange(0, 4)
    &&& h.prg_rom_size_lsb == bytes[4]
    &&& h.chr_rom_size_lsb == bytes[5]
    &&& h.flags6 == bytes[6]
    &&& h.flags7 == bytes[7]
    &&& h.mapper_msb_submapper == bytes[8]
    &&& h.prg_rom_chr_rom_size_msb == bytes[9]
    &&& h.prg_ram_eeprom_size == bytes[10]
    &&& h.chr_ram_size == bytes[11]
    &&& h.cpu_ppu_timing == bytes[12]
    &&& h.hardware_type == bytes[13]
    &&& h.misc_roms == bytes[14]
    &&& h.default_expansion_device == bytes[15]
}

/// Decoding from `cursor` yields `instrs` one after another and stops at `end`.
pub open spec fn decodes_through(
    stream: Seq<u8>,
    cursor: int,
    instrs: Seq<Instruction>,
    end: int,
) -> bool
    decreases instrs.len(),
{
    if instrs.len() == 0 {
        cursor == end
    } else {
        &&& decode(stream, cursor) == Ok::<Instruction, EmuError>(instrs[0])
        &&& decodes_through(stream, cursor + instrs[0].bytes, instrs.drop_first(), end)
    }
}

/// Decoding `stream` from its start meets error `e` at an instruction that
/// starts inside the stream, after a run of instructions that decoded.
pub open spec fn decode_fails_with(stream: Seq<u8>, e: EmuError) -> bool {
    exists|done: Seq<Instruction>, at: int|
        #![trigger decodes_through(stream, 0, done, at)]
        at < stream.len() && decodes_through(stream, 0, done, at) && decode(stream, at) == Err::<
            Instruction,
            EmuError,
        >(e)
}

proof fn lemma_decodes_through_push(
    stream: Seq<u8>,
    cursor: int,
    instrs: Seq<Instruction>,
    end: int,
    next: Instruction,
)
    requires
        decodes_through(stream, cursor, instrs, end),
        decode(stream, end) == Ok::<Instruction, EmuError>(next),
    ensures
        decodes_through(stream, cursor, instrs.push(next), end + next.bytes),
    decreases instrs.len(),
{
    let pushed = instrs.push(next);
    if instrs.len() == 0 {
        assert(pushed.drop_first() =~= Seq::<Instruction>::empty());
        assert(pushed[0] == next);
        assert(decodes_through(stream, end + next.bytes, pushed.drop_first(), end + next.bytes));
    } else {
        lemma_decodes_through_push(
            stream,
            cursor + instrs[0].bytes,
            instrs.drop_first(),
            end,
            next,
        );
        assert(pushed.drop_first() =~= instrs.drop_first().push(next));
        assert(pushed[0] == instrs[0]);
    }
}

impl InesHeaders {
    /// The PRG-ROM size in 16 KiB units; exponent notation is not supported.
    pub fn get_prg_rom_size_in_16_kb(&self) -> (r: u16)
        requires
            self.prg_rom_chr_rom_size_msb & 0x0F <= 0x0E,
        ensures
            r == prg_rom_units(self.prg_rom_chr_rom_size_msb, self.prg_rom_size_lsb),
    {
        let high: u16 = (self.prg_rom_chr_rom_size_msb & 0x0F) as u16;
        high * 256 + self.prg_rom_size_lsb as u16
    }

    /// The CHR-ROM size in 8 KiB units; exponent notation is not supported.
    pub fn get_chr_rom_size_in_8_kb(&self) -> (r: u16)
        requires
            self.prg_rom_chr_rom_size_msb >> 4u8 <= 0x0E,
        ensures
            r == chr_rom_units(self.prg_rom_chr_rom_size_msb, self.chr_rom_size_lsb),
    {
        let high: u16 = (self.prg_rom_chr_rom_size_msb >> 4u8) as u16;
        high * 256 + self.chr_rom_size_lsb as u16
    }

    /// Whether the image carries a 512-byte trainer area (flags 6, bit 2).
    pub fn trainer_area_present(&self) -> (r: bool)
        ensures
            r == (self.flags6 & 0b0000_0100 != 0),
    {
        self.flags6 & 0b0000_0100 != 0
    }
}

/// Decodes a PRG-ROM buffer from its start into consecutive instructions.
/// Fails with the first decoding error met.
pub fn parse_instructions(prg_rom: &Vec<u8>) -> (r: Result<Vec<Instruction>, EmuError>)
    ensures
        r matches Ok(v) ==> decodes_through(prg_rom@, 0, v@, prg_rom@.len() as int),
        r matches Err(e) ==> decode_fails_with(prg_rom@, e),
{
    let mut instructions: Vec<Instruction> = Vec::new();
    let mut cursor: usize = 0;
    while cursor < prg_rom.len()
        invariant
            cursor <= prg_rom@.len(),
            decodes_through(prg_rom@, 0, instructions@, cursor as int),
        decreases prg_rom@.len() - cursor,
    {
        match parse_instruction(prg_rom, cursor) {
            Ok(instruction) => {
                proof {
                    lemma_decodes_through_push(
                        prg_rom@,
                        0,
                        instructions@,
                        cursor as int,
                        instruction,
                    );
                }
                cursor = cursor + instruction.bytes as usize;
                instructions.push(instruction);
            },
            Err(e) => {
                assert(decodes_through(prg_rom@, 0, instructions@, cursor as int));
                return Err(e);
            },
        }
    }
    Ok(instructions)
}

/// Takes an iNES image apart: reads its header, cuts out the PRG-ROM it
/// announces and decodes that into instructions.
pub fn parse_file_content(file_content: Vec<u8>) -> (r: Result<InesContent, InesError>)
    ensures
        file_content@.len() < HEADER_LEN <==> r == Err::<InesContent, InesError>(InesError::TooShort),
        file_content@.len() >= HEADER_LEN ==> {
            let bytes = file_content@;
            let units = prg_rom_units(bytes[9], bytes[4]);
            if bytes[6] & 0b0000_0100 != 0 {
                r == Err::<InesContent, InesError>(InesError::TrainerNotSupported)
            } else if bytes[9] & 0x0F > 0x0E {
                r == Err::<InesContent, InesError>(InesError::PrgRomExponentNotation)
            } else if bytes.len() - HEADER_LEN < units * PRG_ROM_UNIT {
                r == Err::<InesContent, InesError>(InesError::PrgRomTruncated)
            } else {
                let prg_rom = bytes.subrange(HEADER_LEN as int, HEADER_LEN + units * PRG_ROM_UNIT);
                &&& r matches Ok(c) ==> headers_from(c.headers, bytes) && decodes_through(
                    prg_rom,
                    0,
                    c.instructions@,
                    prg_rom.len() as int,
                )
                &&& r matches Err(err) ==> err matches InesError::Decode(e) && decode_fails_with(
                    prg_rom,
                    e,
                )
            }
        },
{
    if file_content.len() < HEADER_LEN {
        return Err(InesError::TooShort);
    }
    let nes_string: Vec<u8> = vec![file_content[0], file_content[1], file_content[2], file_content[3]];
    proof {
        assert(nes_string@ =~= file_content@.subrange(0, 4));
    }
    let headers = InesHeaders {
        nes_string,
        prg_rom_size_lsb: file_content[4],
        chr_rom_size_lsb: file_content[5],
        flags6: file_content[6],
        flags7: file_content[7],
        mapper_msb_submapper: file_content[8],
        prg_rom_chr_rom_size_msb: file_content[9],
        prg_ram_eeprom_size: file_content[10],
        chr_ram_size: file_content[11],
        cpu_ppu_timing: file_content[12],
        hardware_type: file_content[13],
        misc_roms: file_content[14],
        default_expansion_device: file_content[15],
    };
    if headers.trainer_area_present() {
        return Err(InesError::TrainerNotSupported);
    }
    if headers.prg_rom_chr_rom_size_msb & 0x0F > 0x0E {
        return Err(InesError::PrgRomExponentNotation);
    }
    let units: usize = headers.get_prg_rom_size_in_16_kb() as usize;
    assert(units * 0x4000 <= 0xFFFF * 0x4000) by (nonlinear_arith)
        requires
            units <= 0xFFFF,
    ;
    let size: usize = units * PRG_ROM_UNIT;
    if file_content.len() - HEADER_LEN < size {
        return Err(InesError::PrgRomTruncated);
    }
    let end: usize = HEADER_LEN + size;
    let mut prg_rom: Vec<u8> = Vec::new();
    let mut i: usize = 0;
    while i < size
        invariant
            i <= size,
            end == HEADER_LEN + size,
            end <= file_content@.len(),
            prg_rom@ =~= file_content@.subrange(HEADER_LEN as int, HEADER_LEN + i),
        decreases size - i,
    {
        prg_rom.push(file_content[HEADER_LEN + i]);
        i = i + 1;
    }
    match parse_instructions(&prg_rom) {
        Ok(instructions) => Ok(InesContent { headers, instructions }),
        Err(e) => Err(InesError::Decode(e)),
    }
}

} // verus!
