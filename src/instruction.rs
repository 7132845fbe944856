use crate::error::EmuError;
use vstd::prelude::*;

verus! {

/// The operations this core can decode and execute, one tag per opcode byte.
#[derive(Debug, Clone, Copy, PartialEq, Eq, Structural)]
pub enum OpCode {
    Brk,
    AslZpx,
    AndImmediate,
}

/// How an instruction's operand bytes are to be interpreted.
#[derive(Debug, Clone, Copy, PartialEq, Eq, Structural)]
pub enum AddressingMode {
    /// No operand.
    Implied,
    /// A literal 8-bit value.
    Immediate,
    /// An 8-bit address into the first 256 bytes.
    ZeroPage,
    /// An 8-bit zero-page base, offset by X at execution time.
    ZeroPageX,
    /// A 16-bit little-endian address.
    Absolute,
}

/// One row of the opcode table.
#[derive(Debug, Clone, Copy, PartialEq, Eq, Structural)]
pub struct OpcodeEntry {
    pub op_code: OpCode,
    pub mode: AddressingMode,
    pub bytes: u8,
    pub cycles: u8,
}

/// A decoded instruction: its operation, its operand (8- or 16-bit, at most
/// one of them), its length in the stream and its base cycle cost.
#[derive(Debug, Clone, Copy, PartialEq, Eq, Structural)]
pub struct Instruction {
    pub op_code: OpCode,
    pub short_value: Option<u8>,
    pub long_value: Option<u16>,
    pub bytes: u8,
    pub cycles: u8,
}

/// Number of operand bytes that follow the opcode byte in a given mode.
pub open spec fn operand_width(mode: AddressingMode) -> nat {
    match mode {
        AddressingMode::Implied => 0,
        AddressingMode::Immediate => 1,
        AddressingMode::ZeroPage => 1,
        AddressingMode::ZeroPageX => 1,
        AddressingMode::Absolute => 2,
    }
}

/// The opcode table: byte value to operation, addressing mode, length and
/// base cycle cost.
pub open spec fn opcode_table(byte: u8) -> Option<OpcodeEntry> {
    if byte == 0x00 {
        Some(OpcodeEntry { op_code: OpCode::Brk, mode: AddressingMode::Implied, bytes: 1, cycles: 7 })
    } else if byte == 0x16 {
        Some(OpcodeEntry { op_code: OpCode::AslZpx, mode: AddressingMode::ZeroPageX, bytes: 2, cycles: 6 })
    } else if byte == 0x29 {
        Some(OpcodeEntry { op_code: OpCode::AndImmediate, mode: AddressingMode::Immediate, bytes: 2, cycles: 2 })
    } else {
        None
    }
}

/// Every table row's length is the opcode byte plus its operand bytes.
pub open spec fn entry_consistent(e: OpcodeEntry) -> bool {
    e.bytes == 1 + operand_width(e.mode)
}

/// The instruction that an opcode table row and the stream after `cursor`
/// describe, assuming its operand bytes are all in the stream.
pub open spec fn instruction_of(e: OpcodeEntry, stream: Seq<u8>, cursor: int) -> Instruction {
    Instruction {
        op_code: e.op_code,
        short_value: if operand_width(e.mode) == 1 {
            Some(stream[cursor + 1])
        } else {
            None
        },
        long_value: if operand_width(e.mode) == 2 {
            Some((stream[cursor + 1] as int + 256 * stream[cursor + 2] as int) as u16)
        } else {
            None
        },
        bytes: e.bytes,
        cycles: e.cycles,
    }
}

/// What decoding the instruction that starts at `cursor` yields.
pub open spec fn decode(stream: Seq<u8>, cursor: int) -> Result<Instruction, EmuError> {
    if cursor >= stream.len() {
        Err(EmuError::MalformedOperand(cursor as usize))
    } else {
        match opcode_table(stream[cursor]) {
            None => Err(EmuError::UnsupportedOpcode(stream[cursor], cursor as usize)),
            Some(e) => if cursor + operand_width(e.mode) >= stream.len() {
                Err(EmuError::MalformedOperand(cursor as usize))
            } else {
                Ok(instruction_of(e, stream, cursor))
            },
        }
    }
}

/// Looks a byte up in the opcode table.
pub fn lookup_opcode(byte: u8) -> (r: Option<OpcodeEntry>)
    ensures
        r == opcode_table(byte),
        r matches Some(e) ==> entry_consistent(e),
{
    match byte {
        0x00 => Some(
            OpcodeEntry { op_code: OpCode::Brk, mode: AddressingMode::Implied, bytes: 1, cycles: 7 },
        ),
        0x16 => Some(
            OpcodeEntry {
                op_code: OpCode::AslZpx,
                mode: AddressingMode::ZeroPageX,
                bytes: 2,
                cycles: 6,
            },
        ),
        0x29 => Some(
            OpcodeEntry {
                op_code: OpCode::AndImmediate,
                mode: AddressingMode::Immediate,
                bytes: 2,
                cycles: 2,
            },
        ),
        _ => None,
    }
}

/// Number of operand bytes that follow the opcode byte in `mode`.
pub fn mode_operand_width(mode: AddressingMode) -> (r: usize)
    ensures
        r == operand_width(mode),
{
    match mode {
        AddressingMode::Implied => 0,
        AddressingMode::Immediate => 1,
        AddressingMode::ZeroPage => 1,
        AddressingMode::ZeroPageX => 1,
        AddressingMode::Absolute => 2,
    }
}

/// Decodes the instruction whose opcode byte sits at `stack_pointer` in the
/// raw PRG-ROM stream. The stream is only read.
pub fn parse_instruction(prg_rom: &Vec<u8>, stack_pointer: usize) -> (r: Result<
    Instruction,
    EmuError,
>)
    ensures
        r == decode(prg_rom@, stack_pointer as int),
        r matches Ok(i) ==> 1 <= i.bytes <= 3 && stack_pointer + i.bytes <= prg_rom@.len(),
{
    if stack_pointer >= prg_rom.len() {
        return Err(EmuError::MalformedOperand(stack_pointer));
    }
    let instruction_code = prg_rom[stack_pointer];
    let entry = match lookup_opcode(instruction_code) {
        Some(e) => e,
        None => {
            return Err(EmuError::UnsupportedOpcode(instruction_code, stack_pointer));
        },
    };
    let width = mode_operand_width(entry.mode);
    if width >= prg_rom.len() - stack_pointer {
        return Err(EmuError::MalformedOperand(stack_pointer));
    }
    let short_value = if width == 1 {
        Some(prg_rom[stack_pointer + 1])
    } else {
        None
    };
    let long_value = if width == 2 {
        Some(prg_rom[stack_pointer + 1] as u16 + 256 * (prg_rom[stack_pointer + 2] as u16))
    } else {
        None
    };
    Ok(
        Instruction {
            op_code: entry.op_code,
            short_value,
            long_value,
            bytes: entry.bytes,
            cycles: entry.cycles,
        },
    )
}

} // verus!
