use nes6502::error::EmuError;
use nes6502::instruction::{lookup_opcode, parse_instruction, AddressingMode, Instruction, OpCode};

#[test]
fn decodes_brk() {
    let stream = vec![0x00];
    let expected = Instruction {
        op_code: OpCode::Brk,
        short_value: None,
        long_value: None,
        bytes: 1,
        cycles: 7,
    };
    assert_eq!(Ok(expected), parse_instruction(&stream, 0));
}

#[test]
fn decodes_asl_zero_page_x_with_operand() {
    let stream = vec![0xEA, 0x16, 0x02];
    let expected = Instruction {
        op_code: OpCode::AslZpx,
        short_value: Some(0x02),
        long_value: None,
        bytes: 2,
        cycles: 6,
    };
    assert_eq!(Ok(expected), parse_instruction(&stream, 1));
}

#[test]
fn decodes_and_immediate() {
    let stream = vec![0x29, 0x81];
    let decoded = parse_instruction(&stream, 0).unwrap();
    assert_eq!(OpCode::AndImmediate, decoded.op_code);
    assert_eq!(Some(0x81), decoded.short_value);
    assert_eq!(2, decoded.bytes);
    assert_eq!(2, decoded.cycles);
}

#[test]
fn unsupported_opcode_is_refused() {
    let stream = vec![0x00, 0xFF, 0x00];
    assert_eq!(Err(EmuError::UnsupportedOpcode(0xFF, 1)), parse_instruction(&stream, 1));
    assert_eq!(vec![0x00, 0xFF, 0x00], stream);
}

#[test]
fn operand_past_end_is_refused() {
    let stream = vec![0x00, 0x16];
    assert_eq!(Err(EmuError::MalformedOperand(1)), parse_instruction(&stream, 1));
    assert_eq!(Err(EmuError::MalformedOperand(2)), parse_instruction(&stream, 2));
}

#[test]
fn opcode_table_rows() {
    let asl = lookup_opcode(0x16).unwrap();
    assert_eq!(AddressingMode::ZeroPageX, asl.mode);
    assert_eq!(None, lookup_opcode(0xEA));
}
