use crate::bus::{Bus, RAM_SIZE};
use crate::error::EmuError;
use crate::instruction::{Instruction, OpCode};
use vstd::prelude::*;

verus! {

// Status register layout, defined here and nowhere else: Carry is bit 7,
// Zero is bit 6, Negative is bit 1. Flags are read and written only through
// the named accessors of `P6502`.

/// Status bit recording the bit shifted out by the last shift.
pub const CARRY_FLAG: u8 = 0b1000_0000;

/// Status bit recording that the last result was zero.
pub const ZERO_FLAG: u8 = 0b0100_0000;

/// Status bit recording that bit 7 of the last result was set.
pub const NEGATIVE_FLAG: u8 = 0b0000_0010;

/// `status` with the bits of `mask` set when `on`, cleared otherwise.
pub open spec fn with_flag(status: u8, mask: u8, on: bool) -> u8 {
    if on {
        status | mask
    } else {
        status & !mask
    }
}

/// True when bit 7 of `value` is set.
pub open spec fn bit_7(value: u8) -> bool {
    value & 0x80 != 0
}

/// The status after a result that updates the Zero and Negative flags.
pub open spec fn zn_status(status: u8, result: u8) -> u8 {
    with_flag(with_flag(status, ZERO_FLAG, result == 0), NEGATIVE_FLAG, bit_7(result))
}

/// A byte shifted left by one place, bit 7 dropped.
pub open spec fn shift_left(value: u8) -> u8 {
    ((value as int * 2) % 256) as u8
}

/// The zero-page address that a zero-page,X operand designates.
pub open spec fn zero_page_x(base: u8, x: u8) -> int {
    (base as int + x as int) % 256
}

/// The program counter moved past an instruction of `bytes` bytes.
pub open spec fn advance(pc: u16, bytes: u8) -> u16 {
    ((pc as int + bytes as int) % 0x10000) as u16
}

/// The instruction carries the operand that its operation needs.
pub open spec fn has_required_operand(instruction: Instruction) -> bool {
    match instruction.op_code {
        OpCode::AndImmediate => instruction.short_value is Some,
        OpCode::AslZpx => instruction.short_value is Some,
        OpCode::Brk => true,
    }
}

/// What a single step reports to the caller.
#[derive(Debug, Clone, Copy, PartialEq, Eq, Structural)]
pub struct StepOutcome {
    /// Cycles the instruction consumed.
    pub cycles: u8,
    /// The program asked for a break; the caller decides how to respond.
    pub halted: bool,
}

/// Whether bit 7 of `value` is set.
fn bit_7_set(value: u8) -> (r: bool)
    ensures
        r == bit_7(value),
{
    value & 0b1000_0000 != 0
}

/// The programmer-visible register file of the processor.
pub struct P6502 {
    pub program_counter: u16,
    pub stack_pointer: u8,
    pub accumulator: u8,
    pub x_register: u8,
    pub y_register: u8,
    pub processor_status: u8,
}

impl P6502 {
    /// The power-on reset state: stack pointer at `0xFF`, all else zero.
    pub fn new() -> (r: P6502)
        ensures
            r.program_counter == 0,
            r.stack_pointer == 0xFF,
            r.accumulator == 0,
            r.x_register == 0,
            r.y_register == 0,
            r.processor_status == 0,
    {
        P6502 {
            program_counter: 0,
            stack_pointer: 0xFF,
            accumulator: 0,
            x_register: 0,
            y_register: 0,
            processor_status: 0,
        }
    }

    /// Sets the flag bits of `mask` when `on` and clears them otherwise.
    fn update_flag(&mut self, mask: u8, on: bool)
        ensures
            final(self).processor_status == with_flag(old(self).processor_status, mask, on),
            final(self).program_counter == old(self).program_counter,
            final(self).stack_pointer == old(self).stack_pointer,
            final(self).accumulator == old(self).accumulator,
            final(self).x_register == old(self).x_register,
            final(self).y_register == old(self).y_register,
    {
        if on {
            self.processor_status = self.processor_status | mask;
        } else {
            self.processor_status = self.processor_status & !mask;
        }
    }

    /// Sets the Zero and Negative flags from `result`.
    fn update_zero_negative(&mut self, result: u8)
        ensures
            final(self).processor_status == zn_status(old(self).processor_status, result),
            final(self).program_counter == old(self).program_counter,
            final(self).stack_pointer == old(self).stack_pointer,
            final(self).accumulator == old(self).accumulator,
            final(self).x_register == old(self).x_register,
            final(self).y_register == old(self).y_register,
    {
        self.update_flag(ZERO_FLAG, result == 0);
        let negative = bit_7_set(result);
        self.update_flag(NEGATIVE_FLAG, negative);
    }

    /// Executes one decoded instruction against the registers and `memory`,
    /// moves the program counter past it and reports the cycles it took.
    pub fn execute_instruction(&mut self, instruction: Instruction, memory: &mut Bus) -> (r: Result<
        StepOutcome,
        EmuError,
    >)
        requires
            old(memory).wf(),
            has_required_operand(instruction),
        ensures
            final(memory).wf(),
            final(memory).prg_rom@ == old(memory).prg_rom@,
            r == Ok::<StepOutcome, EmuError>(
                StepOutcome { cycles: instruction.cycles, halted: instruction.op_code == OpCode::Brk },
            ),
            final(self).program_counter == advance(old(self).program_counter, instruction.bytes),
            final(self).stack_pointer == old(self).stack_pointer,
            final(self).x_register == old(self).x_register,
            final(self).y_register == old(self).y_register,
            instruction.op_code == OpCode::AndImmediate ==> {
                let result = old(self).accumulator & instruction.short_value->0;
                &&& final(self).accumulator == result
                &&& final(self).processor_status == zn_status(old(self).processor_status, result)
                &&& final(memory).ram@ == old(memory).ram@
            },
            instruction.op_code == OpCode::AslZpx ==> {
                let address = zero_page_x(instruction.short_value->0, old(self).x_register);
                let value = old(memory).ram@[address];
                let result = shift_left(value);
                &&& final(self).accumulator == old(self).accumulator
                &&& final(self).processor_status == zn_status(
                    with_flag(old(self).processor_status, CARRY_FLAG, bit_7(value)),
                    result,
                )
                &&& final(memory).ram@ == old(memory).ram@.update(address, result)
            },
            instruction.op_code == OpCode::Brk ==> {
                &&& final(self).accumulator == old(self).accumulator
                &&& final(self).processor_status == old(self).processor_status
                &&& final(memory).ram@ == old(memory).ram@
            },
    {
        match instruction.op_code {
            OpCode::AndImmediate => {
                let value = match instruction.short_value {
                    Some(v) => v,
                    None => 0,
                };
                self.accumulator = self.accumulator & value;
                let result = self.accumulator;
                self.update_zero_negative(result);
            },
            OpCode::AslZpx => {
                let base = match instruction.short_value {
                    Some(v) => v,
                    None => 0,
                };
                let address = self.x_register.wrapping_add(base) as usize;
                assert(address < RAM_SIZE);
                let value = match memory.read(address) {
                    Ok(v) => v,
                    Err(e) => {
                        return Err(e);
                    },
                };
                let carry = bit_7_set(value);
                let result = ((value as u16) * 2 % 256) as u8;
                match memory.write(address, result) {
                    Ok(()) => {},
                    Err(e) => {
                        return Err(e);
                    },
                }
                self.update_flag(CARRY_FLAG, carry);
                self.update_zero_negative(result);
            },
            OpCode::Brk => {},
        }
        self.program_counter = self.program_counter.wrapping_add(instruction.bytes as u16);
        Ok(
            StepOutcome {
                cycles: instruction.cycles,
                halted: match instruction.op_code {
                    OpCode::Brk => true,
                    _ => false,
                },
            },
        )
    }

    /// Sets the Negative flag.
    pub fn set_negative_flag(&mut self)
        ensures
            final(self).processor_status == old(self).processor_status | NEGATIVE_FLAG,
            final(self).program_counter == old(self).program_counter,
            final(self).stack_pointer == old(self).stack_pointer,
            final(self).accumulator == old(self).accumulator,
            final(self).x_register == old(self).x_register,
            final(self).y_register == old(self).y_register,
    {
        self.processor_status = self.processor_status | NEGATIVE_FLAG;
    }

    /// Sets the Zero flag.
    pub fn set_zero_flag(&mut self)
        ensures
            final(self).processor_status == old(self).processor_status | ZERO_FLAG,
            final(self).program_counter == old(self).program_counter,
            final(self).stack_pointer == old(self).stack_pointer,
            final(self).accumulator == old(self).accumulator,
            final(self).x_register == old(self).x_register,
            final(self).y_register == old(self).y_register,
    {
        self.processor_status = self.processor_status | ZERO_FLAG;
    }

    /// Sets the Carry flag.
    pub fn set_carry_flag(&mut self)
        ensures
            final(self).processor_status == old(self).processor_status | CARRY_FLAG,
            final(self).program_counter == old(self).program_counter,
            final(self).stack_pointer == old(self).stack_pointer,
            final(self).accumulator == old(self).accumulator,
            final(self).x_register == old(self).x_register,
            final(self).y_register == old(self).y_register,
    {
        self.processor_status = self.processor_status | CARRY_FLAG;
    }

    /// Clears the Carry flag.
    pub fn clear_carry_flag(&mut self)
        ensures
            final(self).processor_status == old(self).processor_status & !CARRY_FLAG,
            final(self).program_counter == old(self).program_counter,
            final(self).stack_pointer == old(self).stack_pointer,
            final(self).accumulator == old(self).accumulator,
            final(self).x_register == old(self).x_register,
            final(self).y_register == old(self).y_register,
    {
        self.processor_status = self.processor_status & !CARRY_FLAG;
    }

    /// Whether the Carry flag is set.
    pub fn carry_flag_set(&self) -> (r: bool)
        ensures
            r == (self.processor_status & CARRY_FLAG != 0),
    {
        self.processor_status & CARRY_FLAG != 0
    }

    /// Whether the Zero flag is set.
    pub fn zero_flag_set(&self) -> (r: bool)
        ensures
            r == (self.processor_status & ZERO_FLAG != 0),
    {
        self.processor_status & ZERO_FLAG != 0
    }

    /// Whether the Negative flag is set.
    pub fn negative_flag_set(&self) -> (r: bool)
        ensures
            r == (self.processor_status & NEGATIVE_FLAG != 0),
    {
        self.processor_status & NEGATIVE_FLAG != 0
    }
}

} // verus!
