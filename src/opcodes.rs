//! The opcode table: for each supported opcode byte, its mnemonic, length,
//! nominal cycle count and addressing mode.
use vstd::prelude::*;
use crate::cpu::AddressingMode;

verus! {

/// One row of the opcode table.
#[derive(Debug, Clone, Copy)]
pub struct OpCode {
    pub code: u8,
    pub mnemonic: &'static str,
    /// Length of the instruction in bytes, opcode included.
    pub len: u8,
    /// Nominal cycle count; informational only.
    pub cycles: u8,
    pub mode: AddressingMode,
}

impl OpCode {
    fn new(code: u8, mnemonic: &'static str, len: u8, cycles: u8, mode: AddressingMode) -> (r: Self)
        ensures
            r == (OpCode { code, mnemonic, len, cycles, mode }),
    {
        OpCode { code: code, mnemonic: mnemonic, len: len, cycles: cycles, mode: mode }
    }
}

/// The documented instruction set: the row for each supported opcode byte,
/// `None` for every other byte.
pub open spec fn opcode_table(code: u8) -> Option<OpCode> {
    match code {
        0x00 => Some(OpCode { code: 0x00, mnemonic: "BRK", len: 1, cycles: 7, mode: AddressingMode::NoneAddressing }),
        0xea => Some(OpCode { code: 0xea, mnemonic: "NOP", len: 1, cycles: 2, mode: AddressingMode::NoneAddressing }),
        0xaa => Some(OpCode { code: 0xaa, mnemonic: "TAX", len: 1, cycles: 2, mode: AddressingMode::NoneAddressing }),
        0xa8 => Some(OpCode { code: 0xa8, mnemonic: "TAY", len: 1, cycles: 2, mode: AddressingMode::NoneAddressing }),
        0x98 => Some(OpCode { code: 0x98, mnemonic: "TYA", len: 1, cycles: 2, mode: AddressingMode::NoneAddressing }),
        0x8a => Some(OpCode { code: 0x8a, mnemonic: "TXA", len: 1, cycles: 2, mode: AddressingMode::NoneAddressing }),
        0xe8 => Some(OpCode { code: 0xe8, mnemonic: "INX", len: 1, cycles: 2, mode: AddressingMode::NoneAddressing }),
        0xc8 => Some(OpCode { code: 0xc8, mnemonic: "INY", len: 1, cycles: 2, mode: AddressingMode::NoneAddressing }),
        0xca => Some(OpCode { code: 0xca, mnemonic: "DEX", len: 1, cycles: 2, mode: AddressingMode::NoneAddressing }),
        0x88 => Some(OpCode { code: 0x88, mnemonic: "DEY", len: 1, cycles: 2, mode: AddressingMode::NoneAddressing }),
        0xa9 => Some(OpCode { code: 0xa9, mnemonic: "LDA", len: 2, cycles: 2, mode: AddressingMode::Immediate }),
        0xa5 => Some(OpCode { code: 0xa5, mnemonic: "LDA", len: 2, cycles: 3, mode: AddressingMode::ZeroPage }),
        0xb5 => Some(OpCode { code: 0xb5, mnemonic: "LDA", len: 2, cycles: 4, mode: AddressingMode::ZeroPage_X }),
        0xad => Some(OpCode { code: 0xad, mnemonic: "LDA", len: 3, cycles: 4, mode: AddressingMode::Absolute }),
        0xbd => Some(OpCode { code: 0xbd, mnemonic: "LDA", len: 3, cycles: 4, mode: AddressingMode::Absolute_X }),
        0xb9 => Some(OpCode { code: 0xb9, mnemonic: "LDA", len: 3, cycles: 4, mode: AddressingMode::Absolute_Y }),
        0xa1 => Some(OpCode { code: 0xa1, mnemonic: "LDA", len: 2, cycles: 6, mode: AddressingMode::Indirect_X }),
        0xb1 => Some(OpCode { code: 0xb1, mnemonic: "LDA", len: 2, cycles: 5, mode: AddressingMode::Indirect_Y }),
        0xa2 => Some(OpCode { code: 0xa2, mnemonic: "LDX", len: 2, cycles: 2, mode: AddressingMode::Immediate }),
        0xa6 => Some(OpCode { code: 0xa6, mnemonic: "LDX", len: 2, cycles: 3, mode: AddressingMode::ZeroPage }),
        0xb6 => Some(OpCode { code: 0xb6, mnemonic: "LDX", len: 2, cycles: 4, mode: AddressingMode::ZeroPage_Y }),
        0xae => Some(OpCode { code: 0xae, mnemonic: "LDX", len: 3, cycles: 4, mode: AddressingMode::Absolute }),
        0xbe => Some(OpCode { code: 0xbe, mnemonic: "LDX", len: 3, cycles: 4, mode: AddressingMode::Absolute_Y }),
        0xa0 => Some(OpCode { code: 0xa0, mnemonic: "LDY", len: 2, cycles: 2, mode: AddressingMode::Immediate }),
        0xa4 => Some(OpCode { code: 0xa4, mnemonic: "LDY", len: 2, cycles: 3, mode: AddressingMode::ZeroPage }),
        0xb4 => Some(OpCode { code: 0xb4, mnemonic: "LDY", len: 2, cycles: 4, mode: AddressingMode::ZeroPage_X }),
        0xac => Some(OpCode { code: 0xac, mnemonic: "LDY", len: 3, cycles: 4, mode: AddressingMode::Absolute }),
        0xbc => Some(OpCode { code: 0xbc, mnemonic: "LDY", len: 3, cycles: 4, mode: AddressingMode::Absolute_X }),
        0x85 => Some(OpCode { code: 0x85, mnemonic: "STA", len: 2, cycles: 3, mode: AddressingMode::ZeroPage }),
        0x95 => Some(OpCode { code: 0x95, mnemonic: "STA", len: 2, cycles: 4, mode: AddressingMode::ZeroPage_X }),
        0x8d => Some(OpCode { code: 0x8d, mnemonic: "STA", len: 3, cycles: 4, mode: AddressingMode::Absolute }),
        0x9d => Some(OpCode { code: 0x9d, mnemonic: "STA", len: 3, cycles: 5, mode: AddressingMode::Absolute_X }),
        0x99 => Some(OpCode { code: 0x99, mnemonic: "STA", len: 3, cycles: 5, mode: AddressingMode::Absolute_Y }),
        0x81 => Some(OpCode { code: 0x81, mnemonic: "STA", len: 2, cycles: 6, mode: AddressingMode::Indirect_X }),
        0x91 => Some(OpCode { code: 0x91, mnemonic: "STA", len: 2, cycles: 6, mode: AddressingMode::Indirect_Y }),
        0x86 => Some(OpCode { code: 0x86, mnemonic: "STX", len: 2, cycles: 3, mode: AddressingMode::ZeroPage }),
        0x96 => Some(OpCode { code: 0x96, mnemonic: "STX", len: 2, cycles: 4, mode: AddressingMode::ZeroPage_Y }),
        0x8e => Some(OpCode { code: 0x8e, mnemonic: "STX", len: 3, cycles: 4, mode: AddressingMode::Absolute }),
        0x84 => Some(OpCode { code: 0x84, mnemonic: "STY", len: 2, cycles: 3, mode: AddressingMode::ZeroPage }),
        0x94 => Some(OpCode { code: 0x94, mnemonic: "STY", len: 2, cycles: 4, mode: AddressingMode::ZeroPage_X }),
        0x8c => Some(OpCode { code: 0x8c, mnemonic: "STY", len: 3, cycles: 4, mode: AddressingMode::Absolute }),
        0xc9 => Some(OpCode { code: 0xc9, mnemonic: "CMP", len: 2, cycles: 2, mode: AddressingMode::Immediate }),
        0xc5 => Some(OpCode { code: 0xc5, mnemonic: "CMP", len: 2, cycles: 3, mode: AddressingMode::ZeroPage }),
        0xd5 => Some(OpCode { code: 0xd5, mnemonic: "CMP", len: 2, cycles: 4, mode: AddressingMode::ZeroPage_X }),
        0xcd => Some(OpCode { code: 0xcd, mnemonic: "CMP", len: 3, cycles: 4, mode: AddressingMode::Absolute }),
        0xdd => Some(OpCode { code: 0xdd, mnemonic: "CMP", len: 3, cycles: 4, mode: AddressingMode::Absolute_X }),
        0xd9 => Some(OpCode { code: 0xd9, mnemonic: "CMP", len: 3, cycles: 4, mode: AddressingMode::Absolute_Y }),
        0xc1 => Some(OpCode { code: 0xc1, mnemonic: "CMP", len: 2, cycles: 6, mode: AddressingMode::Indirect_X }),
        0xd1 => Some(OpCode { code: 0xd1, mnemonic: "CMP", len: 2, cycles: 5, mode: AddressingMode::Indirect_Y }),
        0xe0 => Some(OpCode { code: 0xe0, mnemonic: "CPX", len: 2, cycles: 2, mode: AddressingMode::Immediate }),
        0xe4 => Some(OpCode { code: 0xe4, mnemonic: "CPX", len: 2, cycles: 3, mode: AddressingMode::ZeroPage }),
        0xec => Some(OpCode { code: 0xec, mnemonic: "CPX", len: 3, cycles: 4, mode: AddressingMode::Absolute }),
        0xc0 => Some(OpCode { code: 0xc0, mnemonic: "CPY", len: 2, cycles: 2, mode: AddressingMode::Immediate }),
        0xc4 => Some(OpCode { code: 0xc4, mnemonic: "CPY", len: 2, cycles: 3, mode: AddressingMode::ZeroPage }),
        0xcc => Some(OpCode { code: 0xcc, mnemonic: "CPY", len: 3, cycles: 4, mode: AddressingMode::Absolute }),
        0x69 => Some(OpCode { code: 0x69, mnemonic: "ADC", len: 2, cycles: 2, mode: AddressingMode::Immediate }),
        0x65 => Some(OpCode { code: 0x65, mnemonic: "ADC", len: 2, cycles: 3, mode: AddressingMode::ZeroPage }),
        0x75 => Some(OpCode { code: 0x75, mnemonic: "ADC", len: 2, cycles: 4, mode: AddressingMode::ZeroPage_X }),
        0x6d => Some(OpCode { code: 0x6d, mnemonic: "ADC", len: 3, cycles: 4, mode: AddressingMode::Absolute }),
        0x7d => Some(OpCode { code: 0x7d, mnemonic: "ADC", len: 3, cycles: 4, mode: AddressingMode::Absolute_X }),
        0x79 => Some(OpCode { code: 0x79, mnemonic: "ADC", len: 3, cycles: 4, mode: AddressingMode::Absolute_Y }),
        0x61 => Some(OpCode { code: 0x61, mnemonic: "ADC", len: 2, cycles: 6, mode: AddressingMode::Indirect_X }),
        0x71 => Some(OpCode { code: 0x71, mnemonic: "ADC", len: 2, cycles: 5, mode: AddressingMode::Indirect_Y }),
        0xe9 => Some(OpCode { code: 0xe9, mnemonic: "SBC", len: 2, cycles: 2, mode: AddressingMode::Immediate }),
        0xe5 => Some(OpCode { code: 0xe5, mnemonic: "SBC", len: 2, cycles: 3, mode: AddressingMode::ZeroPage }),
        0xf5 => Some(OpCode { code: 0xf5, mnemonic: "SBC", len: 2, cycles: 4, mode: AddressingMode::ZeroPage_X }),
        0xed => Some(OpCode { code: 0xed, mnemonic: "SBC", len: 3, cycles: 4, mode: AddressingMode::Absolute }),
        0xfd => Some(OpCode { code: 0xfd, mnemonic: "SBC", len: 3, cycles: 4, mode: AddressingMode::Absolute_X }),
        0xf9 => Some(OpCode { code: 0xf9, mnemonic: "SBC", len: 3, cycles: 4, mode: AddressingMode::Absolute_Y }),
        0xe1 => Some(OpCode { code: 0xe1, mnemonic: "SBC", len: 2, cycles: 6, mode: AddressingMode::Indirect_X }),
        0xf1 => Some(OpCode { code: 0xf1, mnemonic: "SBC", len: 2, cycles: 5, mode: AddressingMode::Indirect_Y }),
        0x29 => Some(OpCode { code: 0x29, mnemonic: "AND", len: 2, cycles: 2, mode: AddressingMode::Immediate }),
        0x25 => Some(OpCode { code: 0x25, mnemonic: "AND", len: 2, cycles: 3, mode: AddressingMode::ZeroPage }),
        0x35 => Some(OpCode { code: 0x35, mnemonic: "AND", len: 2, cycles: 4, mode: AddressingMode::ZeroPage_X }),
        0x2d => Some(OpCode { code: 0x2d, mnemonic: "AND", len: 3, cycles: 4, mode: AddressingMode::Absolute }),
        0x3d => Some(OpCode { code: 0x3d, mnemonic: "AND", len: 3, cycles: 4, mode: AddressingMode::Absolute_X }),
        0x39 => Some(OpCode { code: 0x39, mnemonic: "AND", len: 3, cycles: 4, mode: AddressingMode::Absolute_Y }),
        0x21 => Some(OpCode { code: 0x21, mnemonic: "AND", len: 2, cycles: 6, mode: AddressingMode::Indirect_X }),
        0x31 => Some(OpCode { code: 0x31, mnemonic: "AND", len: 2, cycles: 5, mode: AddressingMode::Indirect_Y }),
        0x0a => Some(OpCode { code: 0x0a, mnemonic: "ASL", len: 1, cycles: 2, mode: AddressingMode::NoneAddressing }),
        0x06 => Some(OpCode { code: 0x06, mnemonic: "ASL", len: 2, cycles: 5, mode: AddressingMode::ZeroPage }),
        0x16 => Some(OpCode { code: 0x16, mnemonic: "ASL", len: 2, cycles: 6, mode: AddressingMode::ZeroPage_X }),
        0x0e => Some(OpCode { code: 0x0e, mnemonic: "ASL", len: 3, cycles: 6, mode: AddressingMode::Absolute }),
        0x1e => Some(OpCode { code: 0x1e, mnemonic: "ASL", len: 3, cycles: 7, mode: AddressingMode::Absolute_X }),
        0x24 => Some(OpCode { code: 0x24, mnemonic: "BIT", len: 2, cycles: 3, mode: AddressingMode::ZeroPage }),
        0x2c => Some(OpCode { code: 0x2c, mnemonic: "BIT", len: 3, cycles: 4, mode: AddressingMode::Absolute }),
        0x4c => Some(OpCode { code: 0x4c, mnemonic: "JMP", len: 3, cycles: 3, mode: AddressingMode::NoneAddressing }),
        0x6c => Some(OpCode { code: 0x6c, mnemonic: "JMP", len: 3, cycles: 5, mode: AddressingMode::NoneAddressing }),
        0x20 => Some(OpCode { code: 0x20, mnemonic: "JSR", len: 3, cycles: 6, mode: AddressingMode::NoneAddressing }),
        0xd0 => Some(OpCode { code: 0xd0, mnemonic: "BNE", len: 2, cycles: 2, mode: AddressingMode::NoneAddressing }),
        0x70 => Some(OpCode { code: 0x70, mnemonic: "BVS", len: 2, cycles: 2, mode: AddressingMode::NoneAddressing }),
        0x50 => Some(OpCode { code: 0x50, mnemonic: "BVC", len: 2, cycles: 2, mode: AddressingMode::NoneAddressing }),
        0x30 => Some(OpCode { code: 0x30, mnemonic: "BMI", len: 2, cycles: 2, mode: AddressingMode::NoneAddressing }),
        0xf0 => Some(OpCode { code: 0xf0, mnemonic: "BEQ", len: 2, cycles: 2, mode: AddressingMode::NoneAddressing }),
        0xb0 => Some(OpCode { code: 0xb0, mnemonic: "BCS", len: 2, cycles: 2, mode: AddressingMode::NoneAddressing }),
        0x90 => Some(OpCode { code: 0x90, mnemonic: "BCC", len: 2, cycles: 2, mode: AddressingMode::NoneAddressing }),
        0x10 => Some(OpCode { code: 0x10, mnemonic: "BPL", len: 2, cycles: 2, mode: AddressingMode::NoneAddressing }),
        0x49 => Some(OpCode { code: 0x49, mnemonic: "EOR", len: 2, cycles: 2, mode: AddressingMode::Immediate }),
        0x45 => Some(OpCode { code: 0x45, mnemonic: "EOR", len: 2, cycles: 3, mode: AddressingMode::ZeroPage }),
        0x55 => Some(OpCode { code: 0x55, mnemonic: "EOR", len: 2, cycles: 4, mode: AddressingMode::ZeroPage_X }),
        0x4d => Some(OpCode { code: 0x4d, mnemonic: "EOR", len: 3, cycles: 4, mode: AddressingMode::Absolute }),
        0x5d => Some(OpCode { code: 0x5d, mnemonic: "EOR", len: 3, cycles: 4, mode: AddressingMode::Absolute_X }),
        0x59 => Some(OpCode { code: 0x59, mnemonic: "EOR", len: 3, cycles: 4, mode: AddressingMode::Absolute_Y }),
        0x41 => Some(OpCode { code: 0x41, mnemonic: "EOR", len: 2, cycles: 6, mode: AddressingMode::Indirect_X }),
        0x51 => Some(OpCode { code: 0x51, mnemonic: "EOR", len: 2, cycles: 5, mode: AddressingMode::Indirect_Y }),
        0x09 => Some(OpCode { code: 0x09, mnemonic: "ORA", len: 2, cycles: 2, mode: AddressingMode::Immediate }),
        0x05 => Some(OpCode { code: 0x05, mnemonic: "ORA", len: 2, cycles: 3, mode: AddressingMode::ZeroPage }),
        0x15 => Some(OpCode { code: 0x15, mnemonic: "ORA", len: 2, cycles: 4, mode: AddressingMode::ZeroPage_X }),
        0x0d => Some(OpCode { code: 0x0d, mnemonic: "ORA", len: 3, cycles: 4, mode: AddressingMode::Absolute }),
        0x1d => Some(OpCode { code: 0x1d, mnemonic: "ORA", len: 3, cycles: 4, mode: AddressingMode::Absolute_X }),
        0x19 => Some(OpCode { code: 0x19, mnemonic: "ORA", len: 3, cycles: 4, mode: AddressingMode::Absolute_Y }),
        0x01 => Some(OpCode { code: 0x01, mnemonic: "ORA", len: 2, cycles: 6, mode: AddressingMode::Indirect_X }),
        0x11 => Some(OpCode { code: 0x11, mnemonic: "ORA", len: 2, cycles: 5, mode: AddressingMode::Indirect_Y }),
        0x2a => Some(OpCode { code: 0x2a, mnemonic: "ROL", len: 1, cycles: 2, mode: AddressingMode::NoneAddressing }),
        0x26 => Some(OpCode { code: 0x26, mnemonic: "ROL", len: 2, cycles: 5, mode: AddressingMode::ZeroPage }),
        0x36 => Some(OpCode { code: 0x36, mnemonic: "ROL", len: 2, cycles: 6, mode: AddressingMode::ZeroPage_X }),
        0x2e => Some(OpCode { code: 0x2e, mnemonic: "ROL", len: 3, cycles: 6, mode: AddressingMode::Absolute }),
        0x3e => Some(OpCode { code: 0x3e, mnemonic: "ROL", len: 3, cycles: 7, mode: AddressingMode::Absolute_X }),
        0x6a => Some(OpCode { code: 0x6a, mnemonic: "ROR", len: 1, cycles: 2, mode: AddressingMode::NoneAddressing }),
        0x66 => Some(OpCode { code: 0x66, mnemonic: "ROR", len: 2, cycles: 5, mode: AddressingMode::ZeroPage }),
        0x76 => Some(OpCode { code: 0x76, mnemonic: "ROR", len: 2, cycles: 6, mode: AddressingMode::ZeroPage_X }),
        0x6e => Some(OpCode { code: 0x6e, mnemonic: "ROR", len: 3, cycles: 6, mode: AddressingMode::Absolute }),
        0x7e => Some(OpCode { code: 0x7e, mnemonic: "ROR", len: 3, cycles: 7, mode: AddressingMode::Absolute_X }),
        0xc6 => Some(OpCode { code: 0xc6, mnemonic: "DEC", len: 2, cycles: 5, mode: AddressingMode::ZeroPage }),
        0xd6 => Some(OpCode { code: 0xd6, mnemonic: "DEC", len: 2, cycles: 6, mode: AddressingMode::ZeroPage_X }),
        0xce => Some(OpCode { code: 0xce, mnemonic: "DEC", len: 3, cycles: 6, mode: AddressingMode::Absolute }),
        0xde => Some(OpCode { code: 0xde, mnemonic: "DEC", len: 3, cycles: 7, mode: AddressingMode::Absolute_X }),
        0xe6 => Some(OpCode { code: 0xe6, mnemonic: "INC", len: 2, cycles: 5, mode: AddressingMode::ZeroPage }),
        0xf6 => Some(OpCode { code: 0xf6, mnemonic: "INC", len: 2, cycles: 6, mode: AddressingMode::ZeroPage_X }),
        0xee => Some(OpCode { code: 0xee, mnemonic: "INC", len: 3, cycles: 6, mode: AddressingMode::Absolute }),
        0xfe => Some(OpCode { code: 0xfe, mnemonic: "INC", len: 3, cycles: 7, mode: AddressingMode::Absolute_X }),
        0xd8 => Some(OpCode { code: 0xd8, mnemonic: "CLD", len: 1, cycles: 2, mode: AddressingMode::NoneAddressing }),
        0x58 => Some(OpCode { code: 0x58, mnemonic: "CLI", len: 1, cycles: 2, mode: AddressingMode::NoneAddressing }),
        0xb8 => Some(OpCode { code: 0xb8, mnemonic: "CLV", len: 1, cycles: 2, mode: AddressingMode::NoneAddressing }),
        0x18 => Some(OpCode { code: 0x18, mnemonic: "CLC", len: 1, cycles: 2, mode: AddressingMode::NoneAddressing }),
        0x38 => Some(OpCode { code: 0x38, mnemonic: "SEC", len: 1, cycles: 2, mode: AddressingMode::NoneAddressing }),
        0x78 => Some(OpCode { code: 0x78, mnemonic: "SEI", len: 1, cycles: 2, mode: AddressingMode::NoneAddressing }),
        0xf8 => Some(OpCode { code: 0xf8, mnemonic: "SED", len: 1, cycles: 2, mode: AddressingMode::NoneAddressing }),
        0x4a => Some(OpCode { code: 0x4a, mnemonic: "LSR", len: 1, cycles: 2, mode: AddressingMode::NoneAddressing }),
        0x46 => Some(OpCode { code: 0x46, mnemonic: "LSR", len: 2, cycles: 5, mode: AddressingMode::ZeroPage }),
        0x56 => Some(OpCode { code: 0x56, mnemonic: "LSR", len: 2, cycles: 6, mode: AddressingMode::ZeroPage_X }),
        0x4e => Some(OpCode { code: 0x4e, mnemonic: "LSR", len: 3, cycles: 6, mode: AddressingMode::Absolute }),
        0x5e => Some(OpCode { code: 0x5e, mnemonic: "LSR", len: 3, cycles: 7, mode: AddressingMode::Absolute_X }),
        0x48 => Some(OpCode { code: 0x48, mnemonic: "PHA", len: 1, cycles: 3, mode: AddressingMode::NoneAddressing }),
        0x68 => Some(OpCode { code: 0x68, mnemonic: "PLA", len: 1, cycles: 4, mode: AddressingMode::NoneAddressing }),
        0x08 => Some(OpCode { code: 0x08, mnemonic: "PHP", len: 1, cycles: 3, mode: AddressingMode::NoneAddressing }),
        0x28 => Some(OpCode { code: 0x28, mnemonic: "PLP", len: 1, cycles: 4, mode: AddressingMode::NoneAddressing }),
        0x60 => Some(OpCode { code: 0x60, mnemonic: "RTS", len: 1, cycles: 6, mode: AddressingMode::NoneAddressing }),
        0x40 => Some(OpCode { code: 0x40, mnemonic: "RTI", len: 1, cycles: 6, mode: AddressingMode::NoneAddressing }),
        0xba => Some(OpCode { code: 0xba, mnemonic: "TSX", len: 1, cycles: 2, mode: AddressingMode::NoneAddressing }),
        0x9a => Some(OpCode { code: 0x9a, mnemonic: "TXS", len: 1, cycles: 2, mode: AddressingMode::NoneAddressing }),
        _ => None,
    }
}

/// Looks up the row of an opcode byte.
#[verifier::rlimit(80)]
#[verifier::spinoff_prover]
pub fn lookup(code: u8) -> (r: Option<OpCode>)
    ensures
        r == opcode_table(code),
        r matches Some(o) ==> o.code == code && 1 <= o.len <= 3,
{
    match code {
        0x00 => Some(OpCode::new(0x00, "BRK", 1, 7, AddressingMode::NoneAddressing)),
        0xea => Some(OpCode::new(0xea, "NOP", 1, 2, AddressingMode::NoneAddressing)),
        0xaa => Some(OpCode::new(0xaa, "TAX", 1, 2, AddressingMode::NoneAddressing)),
        0xa8 => Some(OpCode::new(0xa8, "TAY", 1, 2, AddressingMode::NoneAddressing)),
        0x98 => Some(OpCode::new(0x98, "TYA", 1, 2, AddressingMode::NoneAddressing)),
        0x8a => Some(OpCode::new(0x8a, "TXA", 1, 2, AddressingMode::NoneAddressing)),
        0xe8 => Some(OpCode::new(0xe8, "INX", 1, 2, AddressingMode::NoneAddressing)),
        0xc8 => Some(OpCode::new(0xc8, "INY", 1, 2, AddressingMode::NoneAddressing)),
        0xca => Some(OpCode::new(0xca, "DEX", 1, 2, AddressingMode::NoneAddressing)),
        0x88 => Some(OpCode::new(0x88, "DEY", 1, 2, AddressingMode::NoneAddressing)),
        0xa9 => Some(OpCode::new(0xa9, "LDA", 2, 2, AddressingMode::Immediate)),
        0xa5 => Some(OpCode::new(0xa5, "LDA", 2, 3, AddressingMode::ZeroPage)),
        0xb5 => Some(OpCode::new(0xb5, "LDA", 2, 4, AddressingMode::ZeroPage_X)),
        0xad => Some(OpCode::new(0xad, "LDA", 3, 4, AddressingMode::Absolute)),
        0xbd => Some(OpCode::new(0xbd, "LDA", 3, 4, AddressingMode::Absolute_X)),
        0xb9 => Some(OpCode::new(0xb9, "LDA", 3, 4, AddressingMode::Absolute_Y)),
        0xa1 => Some(OpCode::new(0xa1, "LDA", 2, 6, AddressingMode::Indirect_X)),
        0xb1 => Some(OpCode::new(0xb1, "LDA", 2, 5, AddressingMode::Indirect_Y)),
        0xa2 => Some(OpCode::new(0xa2, "LDX", 2, 2, AddressingMode::Immediate)),
        0xa6 => Some(OpCode::new(0xa6, "LDX", 2, 3, AddressingMode::ZeroPage)),
        0xb6 => Some(OpCode::new(0xb6, "LDX", 2, 4, AddressingMode::ZeroPage_Y)),
        0xae => Some(OpCode::new(0xae, "LDX", 3, 4, AddressingMode::Absolute)),
        0xbe => Some(OpCode::new(0xbe, "LDX", 3, 4, AddressingMode::Absolute_Y)),
        0xa0 => Some(OpCode::new(0xa0, "LDY", 2, 2, AddressingMode::Immediate)),
        0xa4 => Some(OpCode::new(0xa4, "LDY", 2, 3, AddressingMode::ZeroPage)),
        0xb4 => Some(OpCode::new(0xb4, "LDY", 2, 4, AddressingMode::ZeroPage_X)),
        0xac => Some(OpCode::new(0xac, "LDY", 3, 4, AddressingMode::Absolute)),
        0xbc => Some(OpCode::new(0xbc, "LDY", 3, 4, AddressingMode::Absolute_X)),
        0x85 => Some(OpCode::new(0x85, "STA", 2, 3, AddressingMode::ZeroPage)),
        0x95 => Some(OpCode::new(0x95, "STA", 2, 4, AddressingMode::ZeroPage_X)),
        0x8d => Some(OpCode::new(0x8d, "STA", 3, 4, AddressingMode::Absolute)),
        0x9d => Some(OpCode::new(0x9d, "STA", 3, 5, AddressingMode::Absolute_X)),
        0x99 => Some(OpCode::new(0x99, "STA", 3, 5, AddressingMode::Absolute_Y)),
        0x81 => Some(OpCode::new(0x81, "STA", 2, 6, AddressingMode::Indirect_X)),
        0x91 => Some(OpCode::new(0x91, "STA", 2, 6, AddressingMode::Indirect_Y)),
        0x86 => Some(OpCode::new(0x86, "STX", 2, 3, AddressingMode::ZeroPage)),
        0x96 => Some(OpCode::new(0x96, "STX", 2, 4, AddressingMode::ZeroPage_Y)),
        0x8e => Some(OpCode::new(0x8e, "STX", 3, 4, AddressingMode::Absolute)),
        0x84 => Some(OpCode::new(0x84, "STY", 2, 3, AddressingMode::ZeroPage)),
        0x94 => Some(OpCode::new(0x94, "STY", 2, 4, AddressingMode::ZeroPage_X)),
        0x8c => Some(OpCode::new(0x8c, "STY", 3, 4, AddressingMode::Absolute)),
        0xc9 => Some(OpCode::new(0xc9, "CMP", 2, 2, AddressingMode::Immediate)),
        0xc5 => Some(OpCode::new(0xc5, "CMP", 2, 3, AddressingMode::ZeroPage)),
        0xd5 => Some(OpCode::new(0xd5, "CMP", 2, 4, AddressingMode::ZeroPage_X)),
        0xcd => Some(OpCode::new(0xcd, "CMP", 3, 4, AddressingMode::Absolute)),
        0xdd => Some(OpCode::new(0xdd, "CMP", 3, 4, AddressingMode::Absolute_X)),
        0xd9 => Some(OpCode::new(0xd9, "CMP", 3, 4, AddressingMode::Absolute_Y)),
        0xc1 => Some(OpCode::new(0xc1, "CMP", 2, 6, AddressingMode::Indirect_X)),
        0xd1 => Some(OpCode::new(0xd1, "CMP", 2, 5, AddressingMode::Indirect_Y)),
        0xe0 => Some(OpCode::new(0xe0, "CPX", 2, 2, AddressingMode::Immediate)),
        0xe4 => Some(OpCode::new(0xe4, "CPX", 2, 3, AddressingMode::ZeroPage)),
        0xec => Some(OpCode::new(0xec, "CPX", 3, 4, AddressingMode::Absolute)),
        0xc0 => Some(OpCode::new(0xc0, "CPY", 2, 2, AddressingMode::Immediate)),
        0xc4 => Some(OpCode::new(0xc4, "CPY", 2, 3, AddressingMode::ZeroPage)),
        0xcc => Some(OpCode::new(0xcc, "CPY", 3, 4, AddressingMode::Absolute)),
        0x69 => Some(OpCode::new(0x69, "ADC", 2, 2, AddressingMode::Immediate)),
        0x65 => Some(OpCode::new(0x65, "ADC", 2, 3, AddressingMode::ZeroPage)),
        0x75 => Some(OpCode::new(0x75, "ADC", 2, 4, AddressingMode::ZeroPage_X)),
        0x6d => Some(OpCode::new(0x6d, "ADC", 3, 4, AddressingMode::Absolute)),
        0x7d => Some(OpCode::new(0x7d, "ADC", 3, 4, AddressingMode::Absolute_X)),
        0x79 => Some(OpCode::new(0x79, "ADC", 3, 4, AddressingMode::Absolute_Y)),
        0x61 => Some(OpCode::new(0x61, "ADC", 2, 6, AddressingMode::Indirect_X)),
        0x71 => Some(OpCode::new(0x71, "ADC", 2, 5, AddressingMode::Indirect_Y)),
        0xe9 => Some(OpCode::new(0xe9, "SBC", 2, 2, AddressingMode::Immediate)),
        0xe5 => Some(OpCode::new(0xe5, "SBC", 2, 3, AddressingMode::ZeroPage)),
        0xf5 => Some(OpCode::new(0xf5, "SBC", 2, 4, AddressingMode::ZeroPage_X)),
        0xed => Some(OpCode::new(0xed, "SBC", 3, 4, AddressingMode::Absolute)),
        0xfd => Some(OpCode::new(0xfd, "SBC", 3, 4, AddressingMode::Absolute_X)),
        0xf9 => Some(OpCode::new(0xf9, "SBC", 3, 4, AddressingMode::Absolute_Y)),
        0xe1 => Some(OpCode::new(0xe1, "SBC", 2, 6, AddressingMode::Indirect_X)),
        0xf1 => Some(OpCode::new(0xf1, "SBC", 2, 5, AddressingMode::Indirect_Y)),
        0x29 => Some(OpCode::new(0x29, "AND", 2, 2, AddressingMode::Immediate)),
        0x25 => Some(OpCode::new(0x25, "AND", 2, 3, AddressingMode::ZeroPage)),
        0x35 => Some(OpCode::new(0x35, "AND", 2, 4, AddressingMode::ZeroPage_X)),
        0x2d => Some(OpCode::new(0x2d, "AND", 3, 4, AddressingMode::Absolute)),
        0x3d => Some(OpCode::new(0x3d, "AND", 3, 4, AddressingMode::Absolute_X)),
        0x39 => Some(OpCode::new(0x39, "AND", 3, 4, AddressingMode::Absolute_Y)),
        0x21 => Some(OpCode::new(0x21, "AND", 2, 6, AddressingMode::Indirect_X)),
        0x31 => Some(OpCode::new(0x31, "AND", 2, 5, AddressingMode::Indirect_Y)),
        0x0a => Some(OpCode::new(0x0a, "ASL", 1, 2, AddressingMode::NoneAddressing)),
        0x06 => Some(OpCode::new(0x06, "ASL", 2, 5, AddressingMode::ZeroPage)),
        0x16 => Some(OpCode::new(0x16, "ASL", 2, 6, AddressingMode::ZeroPage_X)),
        0x0e => Some(OpCode::new(0x0e, "ASL", 3, 6, AddressingMode::Absolute)),
        0x1e => Some(OpCode::new(0x1e, "ASL", 3, 7, AddressingMode::Absolute_X)),
        0x24 => Some(OpCode::new(0x24, "BIT", 2, 3, AddressingMode::ZeroPage)),
        0x2c => Some(OpCode::new(0x2c, "BIT", 3, 4, AddressingMode::Absolute)),
        0x4c => Some(OpCode::new(0x4c, "JMP", 3, 3, AddressingMode::NoneAddressing)),
        0x6c => Some(OpCode::new(0x6c, "JMP", 3, 5, AddressingMode::NoneAddressing)),
        0x20 => Some(OpCode::new(0x20, "JSR", 3, 6, AddressingMode::NoneAddressing)),
        0xd0 => Some(OpCode::new(0xd0, "BNE", 2, 2, AddressingMode::NoneAddressing)),
        0x70 => Some(OpCode::new(0x70, "BVS", 2, 2, AddressingMode::NoneAddressing)),
        0x50 => Some(OpCode::new(0x50, "BVC", 2, 2, AddressingMode::NoneAddressing)),
        0x30 => Some(OpCode::new(0x30, "BMI", 2, 2, AddressingMode::NoneAddressing)),
        0xf0 => Some(OpCode::new(0xf0, "BEQ", 2, 2, AddressingMode::NoneAddressing)),
        0xb0 => Some(OpCode::new(0xb0, "BCS", 2, 2, AddressingMode::NoneAddressing)),
        0x90 => Some(OpCode::new(0x90, "BCC", 2, 2, AddressingMode::NoneAddressing)),
        0x10 => Some(OpCode::new(0x10, "BPL", 2, 2, AddressingMode::NoneAddressing)),
        0x49 => Some(OpCode::new(0x49, "EOR", 2, 2, AddressingMode::Immediate)),
        0x45 => Some(OpCode::new(0x45, "EOR", 2, 3, AddressingMode::ZeroPage)),
        0x55 => Some(OpCode::new(0x55, "EOR", 2, 4, AddressingMode::ZeroPage_X)),
        0x4d => Some(OpCode::new(0x4d, "EOR", 3, 4, AddressingMode::Absolute)),
        0x5d => Some(OpCode::new(0x5d, "EOR", 3, 4, AddressingMode::Absolute_X)),
        0x59 => Some(OpCode::new(0x59, "EOR", 3, 4, AddressingMode::Absolute_Y)),
        0x41 => Some(OpCode::new(0x41, "EOR", 2, 6, AddressingMode::Indirect_X)),
        0x51 => Some(OpCode::new(0x51, "EOR", 2, 5, AddressingMode::Indirect_Y)),
        0x09 => Some(OpCode::new(0x09, "ORA", 2, 2, AddressingMode::Immediate)),
        0x05 => Some(OpCode::new(0x05, "ORA", 2, 3, AddressingMode::ZeroPage)),
        0x15 => Some(OpCode::new(0x15, "ORA", 2, 4, AddressingMode::ZeroPage_X)),
        0x0d => Some(OpCode::new(0x0d, "ORA", 3, 4, AddressingMode::Absolute)),
        0x1d => Some(OpCode::new(0x1d, "ORA", 3, 4, AddressingMode::Absolute_X)),
        0x19 => Some(OpCode::new(0x19, "ORA", 3, 4, AddressingMode::Absolute_Y)),
        0x01 => Some(OpCode::new(0x01, "ORA", 2, 6, AddressingMode::Indirect_X)),
        0x11 => Some(OpCode::new(0x11, "ORA", 2, 5, AddressingMode::Indirect_Y)),
        0x2a => Some(OpCode::new(0x2a, "ROL", 1, 2, AddressingMode::NoneAddressing)),
        0x26 => Some(OpCode::new(0x26, "ROL", 2, 5, AddressingMode::ZeroPage)),
        0x36 => Some(OpCode::new(0x36, "ROL", 2, 6, AddressingMode::ZeroPage_X)),
        0x2e => Some(OpCode::new(0x2e, "ROL", 3, 6, AddressingMode::Absolute)),
        0x3e => Some(OpCode::new(0x3e, "ROL", 3, 7, AddressingMode::Absolute_X)),
        0x6a => Some(OpCode::new(0x6a, "ROR", 1, 2, AddressingMode::NoneAddressing)),
        0x66 => Some(OpCode::new(0x66, "ROR", 2, 5, AddressingMode::ZeroPage)),
        0x76 => Some(OpCode::new(0x76, "ROR", 2, 6, AddressingMode::ZeroPage_X)),
        0x6e => Some(OpCode::new(0x6e, "ROR", 3, 6, AddressingMode::Absolute)),
        0x7e => Some(OpCode::new(0x7e, "ROR", 3, 7, AddressingMode::Absolute_X)),
        0xc6 => Some(OpCode::new(0xc6, "DEC", 2, 5, AddressingMode::ZeroPage)),
        0xd6 => Some(OpCode::new(0xd6, "DEC", 2, 6, AddressingMode::ZeroPage_X)),
        0xce => Some(OpCode::new(0xce, "DEC", 3, 6, AddressingMode::Absolute)),
        0xde => Some(OpCode::new(0xde, "DEC", 3, 7, AddressingMode::Absolute_X)),
        0xe6 => Some(OpCode::new(0xe6, "INC", 2, 5, AddressingMode::ZeroPage)),
        0xf6 => Some(OpCode::new(0xf6, "INC", 2, 6, AddressingMode::ZeroPage_X)),
        0xee => Some(OpCode::new(0xee, "INC", 3, 6, AddressingMode::Absolute)),
        0xfe => Some(OpCode::new(0xfe, "INC", 3, 7, AddressingMode::Absolute_X)),
        0xd8 => Some(OpCode::new(0xd8, "CLD", 1, 2, AddressingMode::NoneAddressing)),
        0x58 => Some(OpCode::new(0x58, "CLI", 1, 2, AddressingMode::NoneAddressing)),
        0xb8 => Some(OpCode::new(0xb8, "CLV", 1, 2, AddressingMode::NoneAddressing)),
        0x18 => Some(OpCode::new(0x18, "CLC", 1, 2, AddressingMode::NoneAddressing)),
        0x38 => Some(OpCode::new(0x38, "SEC", 1, 2, AddressingMode::NoneAddressing)),
        0x78 => Some(OpCode::new(0x78, "SEI", 1, 2, AddressingMode::NoneAddressing)),
        0xf8 => Some(OpCode::new(0xf8, "SED", 1, 2, AddressingMode::NoneAddressing)),
        0x4a => Some(OpCode::new(0x4a, "LSR", 1, 2, AddressingMode::NoneAddressing)),
        0x46 => Some(OpCode::new(0x46, "LSR", 2, 5, AddressingMode::ZeroPage)),
        0x56 => Some(OpCode::new(0x56, "LSR", 2, 6, AddressingMode::ZeroPage_X)),
        0x4e => Some(OpCode::new(0x4e, "LSR", 3, 6, AddressingMode::Absolute)),
        0x5e => Some(OpCode::new(0x5e, "LSR", 3, 7, AddressingMode::Absolute_X)),
        0x48 => Some(OpCode::new(0x48, "PHA", 1, 3, AddressingMode::NoneAddressing)),
        0x68 => Some(OpCode::new(0x68, "PLA", 1, 4, AddressingMode::NoneAddressing)),
        0x08 => Some(OpCode::new(0x08, "PHP", 1, 3, AddressingMode::NoneAddressing)),
        0x28 => Some(OpCode::new(0x28, "PLP", 1, 4, AddressingMode::NoneAddressing)),
        0x60 => Some(OpCode::new(0x60, "RTS", 1, 6, AddressingMode::NoneAddressing)),
        0x40 => Some(OpCode::new(0x40, "RTI", 1, 6, AddressingMode::NoneAddressing)),
        0xba => Some(OpCode::new(0xba, "TSX", 1, 2, AddressingMode::NoneAddressing)),
        0x9a => Some(OpCode::new(0x9a, "TXS", 1, 2, AddressingMode::NoneAddressing)),
        _ => None,
    }
}

} // verus!
