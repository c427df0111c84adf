//! The instruction table: for each opcode byte its mnemonic, its length in
//! bytes, its base cost in cycles and its addressing mode.

use vstd::prelude::*;

verus! {

/// How an instruction finds its operand.
#[derive(Debug, Clone, Copy, PartialEq, Eq, Structural)]
#[allow(non_camel_case_types)]
pub enum AddressingMode {
    Immediate,
    ZeroPage,
    ZeroPage_X,
    ZeroPage_Y,
    Absolute,
    Absolute_X,
    Absolute_Y,
    Indirect_X,
    Indirect_Y,
    NoneAddressing,
}

/// One row of the instruction table.
#[derive(Debug, Clone, Copy)]
pub struct Opcode {
    pub code: u8,
    pub mnemonic: &'static str,
    pub len: u8,
    pub cycles: u8,
    pub mode: AddressingMode,
}

impl Opcode {
    /// A row with the given columns.
    pub fn new(code: u8, mnemonic: &'static str, len: u8, cycles: u8, mode: AddressingMode) -> (op:
        Self)
        ensures
            op == (Opcode { code, mnemonic, len, cycles, mode }),
    {
        Opcode { code, mnemonic, len, cycles, mode }
    }
}

/// The instruction table as a function: the row of `code`, or `None` where
/// the byte is no documented instruction.
pub open spec fn opcode_table(code: u8) -> Option<Opcode> {
    match code {
        0x00 => Some(
            Opcode { code, mnemonic: "BRK", len: 1, cycles: 7, mode: AddressingMode::NoneAddressing },
        ),
        0x01 => Some(
            Opcode { code, mnemonic: "ORA", len: 2, cycles: 6, mode: AddressingMode::Indirect_X },
        ),
        0x05 => Some(
            Opcode { code, mnemonic: "ORA", len: 2, cycles: 3, mode: AddressingMode::ZeroPage },
        ),
        0x06 => Some(
            Opcode { code, mnemonic: "ASL", len: 2, cycles: 5, mode: AddressingMode::ZeroPage },
        ),
        0x08 => Some(
            Opcode { code, mnemonic: "PHP", len: 1, cycles: 3, mode: AddressingMode::NoneAddressing },
        ),
        0x09 => Some(
            Opcode { code, mnemonic: "ORA", len: 2, cycles: 2, mode: AddressingMode::Immediate },
        ),
        0x0A => Some(
            Opcode { code, mnemonic: "ASL", len: 1, cycles: 2, mode: AddressingMode::NoneAddressing },
        ),
        0x0D => Some(
            Opcode { code, mnemonic: "ORA", len: 3, cycles: 4, mode: AddressingMode::Absolute },
        ),
        0x0E => Some(
            Opcode { code, mnemonic: "ASL", len: 3, cycles: 6, mode: AddressingMode::Absolute },
        ),
        0x10 => Some(
            Opcode { code, mnemonic: "BPL", len: 2, cycles: 2, mode: AddressingMode::NoneAddressing },
        ),
        0x11 => Some(
            Opcode { code, mnemonic: "ORA", len: 2, cycles: 5, mode: AddressingMode::Indirect_Y },
        ),
        0x15 => Some(
            Opcode { code, mnemonic: "ORA", len: 2, cycles: 4, mode: AddressingMode::ZeroPage_X },
        ),
        0x16 => Some(
            Opcode { code, mnemonic: "ASL", len: 2, cycles: 6, mode: AddressingMode::ZeroPage_X },
        ),
        0x18 => Some(
            Opcode { code, mnemonic: "CLC", len: 1, cycles: 2, mode: AddressingMode::NoneAddressing },
        ),
        0x19 => Some(
            Opcode { code, mnemonic: "ORA", len: 3, cycles: 4, mode: AddressingMode::Absolute_Y },
        ),
        0x1D => Some(
            Opcode { code, mnemonic: "ORA", len: 3, cycles: 4, mode: AddressingMode::Absolute_X },
        ),
        0x1E => Some(
            Opcode { code, mnemonic: "ASL", len: 3, cycles: 7, mode: AddressingMode::Absolute_X },
        ),
        0x20 => Some(
            Opcode { code, mnemonic: "JSR", len: 3, cycles: 6, mode: AddressingMode::NoneAddressing },
        ),
        0x21 => Some(
            Opcode { code, mnemonic: "AND", len: 2, cycles: 6, mode: AddressingMode::Indirect_X },
        ),
        0x24 => Some(
            Opcode { code, mnemonic: "BIT", len: 2, cycles: 3, mode: AddressingMode::ZeroPage },
        ),
        0x25 => Some(
            Opcode { code, mnemonic: "AND", len: 2, cycles: 3, mode: AddressingMode::ZeroPage },
        ),
        0x26 => Some(
            Opcode { code, mnemonic: "ROL", len: 2, cycles: 5, mode: AddressingMode::ZeroPage },
        ),
        0x28 => Some(
            Opcode { code, mnemonic: "PLP", len: 1, cycles: 4, mode: AddressingMode::NoneAddressing },
        ),
        0x29 => Some(
            Opcode { code, mnemonic: "AND", len: 2, cycles: 2, mode: AddressingMode::Immediate },
        ),
        0x2A => Some(
            Opcode { code, mnemonic: "ROL", len: 1, cycles: 2, mode: AddressingMode::NoneAddressing },
        ),
        0x2C => Some(
            Opcode { code, mnemonic: "BIT", len: 3, cycles: 4, mode: AddressingMode::Absolute },
        ),
        0x2D => Some(
            Opcode { code, mnemonic: "AND", len: 3, cycles: 4, mode: AddressingMode::Absolute },
        ),
        0x2E => Some(
            Opcode { code, mnemonic: "ROL", len: 3, cycles: 6, mode: AddressingMode::Absolute },
        ),
        0x30 => Some(
            Opcode { code, mnemonic: "BMI", len: 2, cycles: 2, mode: AddressingMode::NoneAddressing },
        ),
        0x31 => Some(
            Opcode { code, mnemonic: "AND", len: 2, cycles: 5, mode: AddressingMode::Indirect_Y },
        ),
        0x35 => Some(
            Opcode { code, mnemonic: "AND", len: 2, cycles: 4, mode: AddressingMode::ZeroPage_X },
        ),
        0x36 => Some(
            Opcode { code, mnemonic: "ROL", len: 2, cycles: 6, mode: AddressingMode::ZeroPage_X },
        ),
        0x38 => Some(
            Opcode { code, mnemonic: "SEC", len: 1, cycles: 2, mode: AddressingMode::NoneAddressing },
        ),
        0x39 => Some(
            Opcode { code, mnemonic: "AND", len: 3, cycles: 4, mode: AddressingMode::Absolute_Y },
        ),
        0x3D => Some(
            Opcode { code, mnemonic: "AND", len: 3, cycles: 4, mode: AddressingMode::Absolute_X },
        ),
        0x3E => Some(
            Opcode { code, mnemonic: "ROL", len: 3, cycles: 7, mode: AddressingMode::Absolute_X },
        ),
        0x40 => Some(
            Opcode { code, mnemonic: "RTI", len: 1, cycles: 6, mode: AddressingMode::NoneAddressing },
        ),
        0x41 => Some(
            Opcode { code, mnemonic: "EOR", len: 2, cycles: 6, mode: AddressingMode::Indirect_X },
        ),
        0x45 => Some(
            Opcode { code, mnemonic: "EOR", len: 2, cycles: 3, mode: AddressingMode::ZeroPage },
        ),
        0x46 => Some(
            Opcode { code, mnemonic: "LSR", len: 2, cycles: 5, mode: AddressingMode::ZeroPage },
        ),
        0x48 => Some(
            Opcode { code, mnemonic: "PHA", len: 1, cycles: 3, mode: AddressingMode::NoneAddressing },
        ),
        0x49 => Some(
            Opcode { code, mnemonic: "EOR", len: 2, cycles: 2, mode: AddressingMode::Immediate },
        ),
        0x4A => Some(
            Opcode { code, mnemonic: "LSR", len: 1, cycles: 2, mode: AddressingMode::NoneAddressing },
        ),
        0x4C => Some(
            Opcode { code, mnemonic: "JMP", len: 3, cycles: 3, mode: AddressingMode::NoneAddressing },
        ),
        0x4D => Some(
            Opcode { code, mnemonic: "EOR", len: 3, cycles: 4, mode: AddressingMode::Absolute },
        ),
        0x4E => Some(
            Opcode { code, mnemonic: "LSR", len: 3, cycles: 6, mode: AddressingMode::Absolute },
        ),
        0x50 => Some(
            Opcode { code, mnemonic: "BVC", len: 2, cycles: 2, mode: AddressingMode::NoneAddressing },
        ),
        0x51 => Some(
            Opcode { code, mnemonic: "EOR", len: 2, cycles: 5, mode: AddressingMode::Indirect_Y },
        ),
        0x55 => Some(
            Opcode { code, mnemonic: "EOR", len: 2, cycles: 4, mode: AddressingMode::ZeroPage_X },
        ),
        0x56 => Some(
            Opcode { code, mnemonic: "LSR", len: 2, cycles: 6, mode: AddressingMode::ZeroPage_X },
        ),
        0x58 => Some(
            Opcode { code, mnemonic: "CLI", len: 1, cycles: 2, mode: AddressingMode::NoneAddressing },
        ),
        0x59 => Some(
            Opcode { code, mnemonic: "EOR", len: 3, cycles: 4, mode: AddressingMode::Absolute_Y },
        ),
        0x5D => Some(
            Opcode { code, mnemonic: "EOR", len: 3, cycles: 4, mode: AddressingMode::Absolute_X },
        ),
        0x5E => Some(
            Opcode { code, mnemonic: "LSR", len: 3, cycles: 7, mode: AddressingMode::Absolute_X },
        ),
        0x60 => Some(
            Opcode { code, mnemonic: "RTS", len: 1, cycles: 6, mode: AddressingMode::NoneAddressing },
        ),
        0x61 => Some(
            Opcode { code, mnemonic: "ADC", len: 2, cycles: 6, mode: AddressingMode::Indirect_X },
        ),
        0x65 => Some(
            Opcode { code, mnemonic: "ADC", len: 2, cycles: 3, mode: AddressingMode::ZeroPage },
        ),
        0x66 => Some(
            Opcode { code, mnemonic: "ROR", len: 2, cycles: 5, mode: AddressingMode::ZeroPage },
        ),
        0x68 => Some(
            Opcode { code, mnemonic: "PLA", len: 1, cycles: 4, mode: AddressingMode::NoneAddressing },
        ),
        0x69 => Some(
            Opcode { code, mnemonic: "ADC", len: 2, cycles: 2, mode: AddressingMode::Immediate },
        ),
        0x6A => Some(
            Opcode { code, mnemonic: "ROR", len: 1, cycles: 2, mode: AddressingMode::NoneAddressing },
        ),
        0x6C => Some(
            Opcode { code, mnemonic: "JMP", len: 3, cycles: 5, mode: AddressingMode::NoneAddressing },
        ),
        0x6D => Some(
            Opcode { code, mnemonic: "ADC", len: 3, cycles: 4, mode: AddressingMode::Absolute },
        ),
        0x6E => Some(
            Opcode { code, mnemonic: "ROR", len: 3, cycles: 6, mode: AddressingMode::Absolute },
        ),
        0x70 => Some(
            Opcode { code, mnemonic: "BVS", len: 2, cycles: 2, mode: AddressingMode::NoneAddressing },
        ),
        0x71 => Some(
            Opcode { code, mnemonic: "ADC", len: 2, cycles: 5, mode: AddressingMode::Indirect_Y },
        ),
        0x75 => Some(
            Opcode { code, mnemonic: "ADC", len: 2, cycles: 4, mode: AddressingMode::ZeroPage_X },
        ),
        0x76 => Some(
            Opcode { code, mnemonic: "ROR", len: 2, cycles: 6, mode: AddressingMode::ZeroPage_X },
        ),
        0x78 => Some(
            Opcode { code, mnemonic: "SEI", len: 1, cycles: 2, mode: AddressingMode::NoneAddressing },
        ),
        0x79 => Some(
            Opcode { code, mnemonic: "ADC", len: 3, cycles: 4, mode: AddressingMode::Absolute_Y },
        ),
        0x7D => Some(
            Opcode { code, mnemonic: "ADC", len: 3, cycles: 4, mode: AddressingMode::Absolute_X },
        ),
        0x7E => Some(
            Opcode { code, mnemonic: "ROR", len: 3, cycles: 7, mode: AddressingMode::Absolute_X },
        ),
        0x81 => Some(
            Opcode { code, mnemonic: "STA", len: 2, cycles: 6, mode: AddressingMode::Indirect_X },
        ),
        0x84 => Some(
            Opcode { code, mnemonic: "STY", len: 2, cycles: 3, mode: AddressingMode::ZeroPage },
        ),
        0x85 => Some(
            Opcode { code, mnemonic: "STA", len: 2, cycles: 3, mode: AddressingMode::ZeroPage },
        ),
        0x86 => Some(
            Opcode { code, mnemonic: "STX", len: 2, cycles: 3, mode: AddressingMode::ZeroPage },
        ),
        0x88 => Some(
            Opcode { code, mnemonic: "DEY", len: 1, cycles: 2, mode: AddressingMode::NoneAddressing },
        ),
        0x8A => Some(
            Opcode { code, mnemonic: "TXA", len: 1, cycles: 2, mode: AddressingMode::NoneAddressing },
        ),
        0x8C => Some(
            Opcode { code, mnemonic: "STY", len: 3, cycles: 4, mode: AddressingMode::Absolute },
        ),
        0x8D => Some(
            Opcode { code, mnemonic: "STA", len: 3, cycles: 4, mode: AddressingMode::Absolute },
        ),
        0x8E => Some(
            Opcode { code, mnemonic: "STX", len: 3, cycles: 4, mode: AddressingMode::Absolute },
        ),
        0x90 => Some(
            Opcode { code, mnemonic: "BCC", len: 2, cycles: 2, mode: AddressingMode::NoneAddressing },
        ),
        0x91 => Some(
            Opcode { code, mnemonic: "STA", len: 2, cycles: 6, mode: AddressingMode::Indirect_Y },
        ),
        0x94 => Some(
            Opcode { code, mnemonic: "STY", len: 2, cycles: 4, mode: AddressingMode::ZeroPage_X },
        ),
        0x95 => Some(
            Opcode { code, mnemonic: "STA", len: 2, cycles: 4, mode: AddressingMode::ZeroPage_X },
        ),
        0x96 => Some(
            Opcode { code, mnemonic: "STX", len: 2, cycles: 4, mode: AddressingMode::ZeroPage_Y },
        ),
        0x98 => Some(
            Opcode { code, mnemonic: "TYA", len: 1, cycles: 2, mode: AddressingMode::NoneAddressing },
        ),
        0x99 => Some(
            Opcode { code, mnemonic: "STA", len: 3, cycles: 5, mode: AddressingMode::Absolute_Y },
        ),
        0x9A => Some(
            Opcode { code, mnemonic: "TXS", len: 1, cycles: 2, mode: AddressingMode::NoneAddressing },
        ),
        0x9D => Some(
            Opcode { code, mnemonic: "STA", len: 3, cycles: 5, mode: AddressingMode::Absolute_X },
        ),
        0xA0 => Some(
            Opcode { code, mnemonic: "LDY", len: 2, cycles: 2, mode: AddressingMode::Immediate },
        ),
        0xA1 => Some(
            Opcode { code, mnemonic: "LDA", len: 2, cycles: 6, mode: AddressingMode::Indirect_X },
        ),
        0xA2 => Some(
            Opcode { code, mnemonic: "LDX", len: 2, cycles: 2, mode: AddressingMode::Immediate },
        ),
        0xA4 => Some(
            Opcode { code, mnemonic: "LDY", len: 2, cycles: 3, mode: AddressingMode::ZeroPage },
        ),
        0xA5 => Some(
            Opcode { code, mnemonic: "LDA", len: 2, cycles: 3, mode: AddressingMode::ZeroPage },
        ),
        0xA6 => Some(
            Opcode { code, mnemonic: "LDX", len: 2, cycles: 3, mode: AddressingMode::ZeroPage },
        ),
        0xA8 => Some(
            Opcode { code, mnemonic: "TAY", len: 1, cycles: 2, mode: AddressingMode::NoneAddressing },
        ),
        0xA9 => Some(
            Opcode { code, mnemonic: "LDA", len: 2, cycles: 2, mode: AddressingMode::Immediate },
        ),
        0xAA => Some(
            Opcode { code, mnemonic: "TAX", len: 1, cycles: 2, mode: AddressingMode::NoneAddressing },
        ),
        0xAC => Some(
            Opcode { code, mnemonic: "LDY", len: 3, cycles: 4, mode: AddressingMode::Absolute },
        ),
        0xAD => Some(
            Opcode { code, mnemonic: "LDA", len: 3, cycles: 4, mode: AddressingMode::Absolute },
        ),
        0xAE => Some(
            Opcode { code, mnemonic: "LDX", len: 3, cycles: 4, mode: AddressingMode::Absolute },
        ),
        0xB0 => Some(
            Opcode { code, mnemonic: "BCS", len: 2, cycles: 2, mode: AddressingMode::NoneAddressing },
        ),
        0xB1 => Some(
            Opcode { code, mnemonic: "LDA", len: 2, cycles: 5, mode: AddressingMode::Indirect_Y },
        ),
        0xB4 => Some(
            Opcode { code, mnemonic: "LDY", len: 2, cycles: 4, mode: AddressingMode::ZeroPage_X },
        ),
        0xB5 => Some(
            Opcode { code, mnemonic: "LDA", len: 2, cycles: 4, mode: AddressingMode::ZeroPage_X },
        ),
        0xB6 => Some(
            Opcode { code, mnemonic: "LDX", len: 2, cycles: 4, mode: AddressingMode::ZeroPage_Y },
        ),
        0xB8 => Some(
            Opcode { code, mnemonic: "CLV", len: 1, cycles: 2, mode: AddressingMode::NoneAddressing },
        ),
        0xB9 => Some(
            Opcode { code, mnemonic: "LDA", len: 3, cycles: 4, mode: AddressingMode::Absolute_Y },
        ),
        0xBA => Some(
            Opcode { code, mnemonic: "TSX", len: 1, cycles: 2, mode: AddressingMode::NoneAddressing },
        ),
        0xBC => Some(
            Opcode { code, mnemonic: "LDY", len: 3, cycles: 4, mode: AddressingMode::Absolute_X },
        ),
        0xBD => Some(
            Opcode { code, mnemonic: "LDA", len: 3, cycles: 4, mode: AddressingMode::Absolute_X },
        ),
        0xBE => Some(
            Opcode { code, mnemonic: "LDX", len: 3, cycles: 4, mode: AddressingMode::Absolute_Y },
        ),
        0xC0 => Some(
            Opcode { code, mnemonic: "CPY", len: 2, cycles: 2, mode: AddressingMode::Immediate },
        ),
        0xC1 => Some(
            Opcode { code, mnemonic: "CMP", len: 2, cycles: 6, mode: AddressingMode::Indirect_X },
        ),
        0xC4 => Some(
            Opcode { code, mnemonic: "CPY", len: 2, cycles: 3, mode: AddressingMode::ZeroPage },
        ),
        0xC5 => Some(
            Opcode { code, mnemonic: "CMP", len: 2, cycles: 3, mode: AddressingMode::ZeroPage },
        ),
        0xC6 => Some(
            Opcode { code, mnemonic: "DEC", len: 2, cycles: 5, mode: AddressingMode::ZeroPage },
        ),
        0xC8 => Some(
            Opcode { code, mnemonic: "INY", len: 1, cycles: 2, mode: AddressingMode::NoneAddressing },
        ),
        0xC9 => Some(
            Opcode { code, mnemonic: "CMP", len: 2, cycles: 2, mode: AddressingMode::Immediate },
        ),
        0xCA => Some(
            Opcode { code, mnemonic: "DEX", len: 1, cycles: 2, mode: AddressingMode::NoneAddressing },
        ),
        0xCC => Some(
            Opcode { code, mnemonic: "CPY", len: 3, cycles: 4, mode: AddressingMode::Absolute },
        ),
        0xCD => Some(
            Opcode { code, mnemonic: "CMP", len: 3, cycles: 4, mode: AddressingMode::Absolute },
        ),
        0xCE => Some(
            Opcode { code, mnemonic: "DEC", len: 3, cycles: 6, mode: AddressingMode::Absolute },
        ),
        0xD0 => Some(
            Opcode { code, mnemonic: "BNE", len: 2, cycles: 2, mode: AddressingMode::NoneAddressing },
        ),
        0xD1 => Some(
            Opcode { code, mnemonic: "CMP", len: 2, cycles: 5, mode: AddressingMode::Indirect_Y },
        ),
        0xD5 => Some(
            Opcode { code, mnemonic: "CMP", len: 2, cycles: 4, mode: AddressingMode::ZeroPage_X },
        ),
        0xD6 => Some(
            Opcode { code, mnemonic: "DEC", len: 2, cycles: 6, mode: AddressingMode::ZeroPage_X },
        ),
        0xD8 => Some(
            Opcode { code, mnemonic: "CLD", len: 1, cycles: 2, mode: AddressingMode::NoneAddressing },
        ),
        0xD9 => Some(
            Opcode { code, mnemonic: "CMP", len: 3, cycles: 4, mode: AddressingMode::Absolute_Y },
        ),
        0xDD => Some(
            Opcode { code, mnemonic: "CMP", len: 3, cycles: 4, mode: AddressingMode::Absolute_X },
        ),
        0xDE => Some(
            Opcode { code, mnemonic: "DEC", len: 3, cycles: 7, mode: AddressingMode::Absolute_X },
        ),
        0xE0 => Some(
            Opcode { code, mnemonic: "CPX", len: 2, cycles: 2, mode: AddressingMode::Immediate },
        ),
        0xE1 => Some(
            Opcode { code, mnemonic: "SBC", len: 2, cycles: 6, mode: AddressingMode::Indirect_X },
        ),
        0xE4 => Some(
            Opcode { code, mnemonic: "CPX", len: 2, cycles: 3, mode: AddressingMode::ZeroPage },
        ),
        0xE5 => Some(
            Opcode { code, mnemonic: "SBC", len: 2, cycles: 3, mode: AddressingMode::ZeroPage },
        ),
        0xE6 => Some(
            Opcode { code, mnemonic: "INC", len: 2, cycles: 5, mode: AddressingMode::ZeroPage },
        ),
        0xE8 => Some(
            Opcode { code, mnemonic: "INX", len: 1, cycles: 2, mode: AddressingMode::NoneAddressing },
        ),
        0xE9 => Some(
            Opcode { code, mnemonic: "SBC", len: 2, cycles: 2, mode: AddressingMode::Immediate },
        ),
        0xEA => Some(
            Opcode { code, mnemonic: "NOP", len: 1, cycles: 2, mode: AddressingMode::NoneAddressing },
        ),
        0xEC => Some(
            Opcode { code, mnemonic: "CPX", len: 3, cycles: 4, mode: AddressingMode::Absolute },
        ),
        0xED => Some(
            Opcode { code, mnemonic: "SBC", len: 3, cycles: 4, mode: AddressingMode::Absolute },
        ),
        0xEE => Some(
            Opcode { code, mnemonic: "INC", len: 3, cycles: 6, mode: AddressingMode::Absolute },
        ),
        0xF0 => Some(
            Opcode { code, mnemonic: "BEQ", len: 2, cycles: 2, mode: AddressingMode::NoneAddressing },
        ),
        0xF1 => Some(
            Opcode { code, mnemonic: "SBC", len: 2, cycles: 5, mode: AddressingMode::Indirect_Y },
        ),
        0xF5 => Some(
            Opcode { code, mnemonic: "SBC", len: 2, cycles: 4, mode: AddressingMode::ZeroPage_X },
        ),
        0xF6 => Some(
            Opcode { code, mnemonic: "INC", len: 2, cycles: 6, mode: AddressingMode::ZeroPage_X },
        ),
        0xF8 => Some(
            Opcode { code, mnemonic: "SED", len: 1, cycles: 2, mode: AddressingMode::NoneAddressing },
        ),
        0xF9 => Some(
            Opcode { code, mnemonic: "SBC", len: 3, cycles: 4, mode: AddressingMode::Absolute_Y },
        ),
        0xFD => Some(
            Opcode { code, mnemonic: "SBC", len: 3, cycles: 4, mode: AddressingMode::Absolute_X },
        ),
        0xFE => Some(
            Opcode { code, mnemonic: "INC", len: 3, cycles: 7, mode: AddressingMode::Absolute_X },
        ),
        _ => None,
    }
}

/// Looks `code` up in the instruction table.
pub fn lookup(code: u8) -> (row: Option<Opcode>)
    ensures
        row == opcode_table(code),
{
    match code {
        0x00 => Some(Opcode::new(code, "BRK", 1, 7, AddressingMode::NoneAddressing)),
        0x01 => Some(Opcode::new(code, "ORA", 2, 6, AddressingMode::Indirect_X)),
        0x05 => Some(Opcode::new(code, "ORA", 2, 3, AddressingMode::ZeroPage)),
        0x06 => Some(Opcode::new(code, "ASL", 2, 5, AddressingMode::ZeroPage)),
        0x08 => Some(Opcode::new(code, "PHP", 1, 3, AddressingMode::NoneAddressing)),
        0x09 => Some(Opcode::new(code, "ORA", 2, 2, AddressingMode::Immediate)),
        0x0A => Some(Opcode::new(code, "ASL", 1, 2, AddressingMode::NoneAddressing)),
        0x0D => Some(Opcode::new(code, "ORA", 3, 4, AddressingMode::Absolute)),
        0x0E => Some(Opcode::new(code, "ASL", 3, 6, AddressingMode::Absolute)),
        0x10 => Some(Opcode::new(code, "BPL", 2, 2, AddressingMode::NoneAddressing)),
        0x11 => Some(Opcode::new(code, "ORA", 2, 5, AddressingMode::Indirect_Y)),
        0x15 => Some(Opcode::new(code, "ORA", 2, 4, AddressingMode::ZeroPage_X)),
        0x16 => Some(Opcode::new(code, "ASL", 2, 6, AddressingMode::ZeroPage_X)),
        0x18 => Some(Opcode::new(code, "CLC", 1, 2, AddressingMode::NoneAddressing)),
        0x19 => Some(Opcode::new(code, "ORA", 3, 4, AddressingMode::Absolute_Y)),
        0x1D => Some(Opcode::new(code, "ORA", 3, 4, AddressingMode::Absolute_X)),
        0x1E => Some(Opcode::new(code, "ASL", 3, 7, AddressingMode::Absolute_X)),
        0x20 => Some(Opcode::new(code, "JSR", 3, 6, AddressingMode::NoneAddressing)),
        0x21 => Some(Opcode::new(code, "AND", 2, 6, AddressingMode::Indirect_X)),
        0x24 => Some(Opcode::new(code, "BIT", 2, 3, AddressingMode::ZeroPage)),
        0x25 => Some(Opcode::new(code, "AND", 2, 3, AddressingMode::ZeroPage)),
        0x26 => Some(Opcode::new(code, "ROL", 2, 5, AddressingMode::ZeroPage)),
        0x28 => Some(Opcode::new(code, "PLP", 1, 4, AddressingMode::NoneAddressing)),
        0x29 => Some(Opcode::new(code, "AND", 2, 2, AddressingMode::Immediate)),
        0x2A => Some(Opcode::new(code, "ROL", 1, 2, AddressingMode::NoneAddressing)),
        0x2C => Some(Opcode::new(code, "BIT", 3, 4, AddressingMode::Absolute)),
        0x2D => Some(Opcode::new(code, "AND", 3, 4, AddressingMode::Absolute)),
        0x2E => Some(Opcode::new(code, "ROL", 3, 6, AddressingMode::Absolute)),
        0x30 => Some(Opcode::new(code, "BMI", 2, 2, AddressingMode::NoneAddressing)),
        0x31 => Some(Opcode::new(code, "AND", 2, 5, AddressingMode::Indirect_Y)),
        0x35 => Some(Opcode::new(code, "AND", 2, 4, AddressingMode::ZeroPage_X)),
        0x36 => Some(Opcode::new(code, "ROL", 2, 6, AddressingMode::ZeroPage_X)),
        0x38 => Some(Opcode::new(code, "SEC", 1, 2, AddressingMode::NoneAddressing)),
        0x39 => Some(Opcode::new(code, "AND", 3, 4, AddressingMode::Absolute_Y)),
        0x3D => Some(Opcode::new(code, "AND", 3, 4, AddressingMode::Absolute_X)),
        0x3E => Some(Opcode::new(code, "ROL", 3, 7, AddressingMode::Absolute_X)),
        0x40 => Some(Opcode::new(code, "RTI", 1, 6, AddressingMode::NoneAddressing)),
        0x41 => Some(Opcode::new(code, "EOR", 2, 6, AddressingMode::Indirect_X)),
        0x45 => Some(Opcode::new(code, "EOR", 2, 3, AddressingMode::ZeroPage)),
        0x46 => Some(Opcode::new(code, "LSR", 2, 5, AddressingMode::ZeroPage)),
        0x48 => Some(Opcode::new(code, "PHA", 1, 3, AddressingMode::NoneAddressing)),
        0x49 => Some(Opcode::new(code, "EOR", 2, 2, AddressingMode::Immediate)),
        0x4A => Some(Opcode::new(code, "LSR", 1, 2, AddressingMode::NoneAddressing)),
        0x4C => Some(Opcode::new(code, "JMP", 3, 3, AddressingMode::NoneAddressing)),
        0x4D => Some(Opcode::new(code, "EOR", 3, 4, AddressingMode::Absolute)),
        0x4E => Some(Opcode::new(code, "LSR", 3, 6, AddressingMode::Absolute)),
        0x50 => Some(Opcode::new(code, "BVC", 2, 2, AddressingMode::NoneAddressing)),
        0x51 => Some(Opcode::new(code, "EOR", 2, 5, AddressingMode::Indirect_Y)),
        0x55 => Some(Opcode::new(code, "EOR", 2, 4, AddressingMode::ZeroPage_X)),
        0x56 => Some(Opcode::new(code, "LSR", 2, 6, AddressingMode::ZeroPage_X)),
        0x58 => Some(Opcode::new(code, "CLI", 1, 2, AddressingMode::NoneAddressing)),
        0x59 => Some(Opcode::new(code, "EOR", 3, 4, AddressingMode::Absolute_Y)),
        0x5D => Some(Opcode::new(code, "EOR", 3, 4, AddressingMode::Absolute_X)),
        0x5E => Some(Opcode::new(code, "LSR", 3, 7, AddressingMode::Absolute_X)),
        0x60 => Some(Opcode::new(code, "RTS", 1, 6, AddressingMode::NoneAddressing)),
        0x61 => Some(Opcode::new(code, "ADC", 2, 6, AddressingMode::Indirect_X)),
        0x65 => Some(Opcode::new(code, "ADC", 2, 3, AddressingMode::ZeroPage)),
        0x66 => Some(Opcode::new(code, "ROR", 2, 5, AddressingMode::ZeroPage)),
        0x68 => Some(Opcode::new(code, "PLA", 1, 4, AddressingMode::NoneAddressing)),
        0x69 => Some(Opcode::new(code, "ADC", 2, 2, AddressingMode::Immediate)),
        0x6A => Some(Opcode::new(code, "ROR", 1, 2, AddressingMode::NoneAddressing)),
        0x6C => Some(Opcode::new(code, "JMP", 3, 5, AddressingMode::NoneAddressing)),
        0x6D => Some(Opcode::new(code, "ADC", 3, 4, AddressingMode::Absolute)),
        0x6E => Some(Opcode::new(code, "ROR", 3, 6, AddressingMode::Absolute)),
        0x70 => Some(Opcode::new(code, "BVS", 2, 2, AddressingMode::NoneAddressing)),
        0x71 => Some(Opcode::new(code, "ADC", 2, 5, AddressingMode::Indirect_Y)),
        0x75 => Some(Opcode::new(code, "ADC", 2, 4, AddressingMode::ZeroPage_X)),
        0x76 => Some(Opcode::new(code, "ROR", 2, 6, AddressingMode::ZeroPage_X)),
        0x78 => Some(Opcode::new(code, "SEI", 1, 2, AddressingMode::NoneAddressing)),
        0x79 => Some(Opcode::new(code, "ADC", 3, 4, AddressingMode::Absolute_Y)),
        0x7D => Some(Opcode::new(code, "ADC", 3, 4, AddressingMode::Absolute_X)),
        0x7E => Some(Opcode::new(code, "ROR", 3, 7, AddressingMode::Absolute_X)),
        0x81 => Some(Opcode::new(code, "STA", 2, 6, AddressingMode::Indirect_X)),
        0x84 => Some(Opcode::new(code, "STY", 2, 3, AddressingMode::ZeroPage)),
        0x85 => Some(Opcode::new(code, "STA", 2, 3, AddressingMode::ZeroPage)),
        0x86 => Some(Opcode::new(code, "STX", 2, 3, AddressingMode::ZeroPage)),
        0x88 => Some(Opcode::new(code, "DEY", 1, 2, AddressingMode::NoneAddressing)),
        0x8A => Some(Opcode::new(code, "TXA", 1, 2, AddressingMode::NoneAddressing)),
        0x8C => Some(Opcode::new(code, "STY", 3, 4, AddressingMode::Absolute)),
        0x8D => Some(Opcode::new(code, "STA", 3, 4, AddressingMode::Absolute)),
        0x8E => Some(Opcode::new(code, "STX", 3, 4, AddressingMode::Absolute)),
        0x90 => Some(Opcode::new(code, "BCC", 2, 2, AddressingMode::NoneAddressing)),
        0x91 => Some(Opcode::new(code, "STA", 2, 6, AddressingMode::Indirect_Y)),
        0x94 => Some(Opcode::new(code, "STY", 2, 4, AddressingMode::ZeroPage_X)),
        0x95 => Some(Opcode::new(code, "STA", 2, 4, AddressingMode::ZeroPage_X)),
        0x96 => Some(Opcode::new(code, "STX", 2, 4, AddressingMode::ZeroPage_Y)),
        0x98 => Some(Opcode::new(code, "TYA", 1, 2, AddressingMode::NoneAddressing)),
        0x99 => Some(Opcode::new(code, "STA", 3, 5, AddressingMode::Absolute_Y)),
        0x9A => Some(Opcode::new(code, "TXS", 1, 2, AddressingMode::NoneAddressing)),
        0x9D => Some(Opcode::new(code, "STA", 3, 5, AddressingMode::Absolute_X)),
        0xA0 => Some(Opcode::new(code, "LDY", 2, 2, AddressingMode::Immediate)),
        0xA1 => Some(Opcode::new(code, "LDA", 2, 6, AddressingMode::Indirect_X)),
        0xA2 => Some(Opcode::new(code, "LDX", 2, 2, AddressingMode::Immediate)),
        0xA4 => Some(Opcode::new(code, "LDY", 2, 3, AddressingMode::ZeroPage)),
        0xA5 => Some(Opcode::new(code, "LDA", 2, 3, AddressingMode::ZeroPage)),
        0xA6 => Some(Opcode::new(code, "LDX", 2, 3, AddressingMode::ZeroPage)),
        0xA8 => Some(Opcode::new(code, "TAY", 1, 2, AddressingMode::NoneAddressing)),
        0xA9 => Some(Opcode::new(code, "LDA", 2, 2, AddressingMode::Immediate)),
        0xAA => Some(Opcode::new(code, "TAX", 1, 2, AddressingMode::NoneAddressing)),
        0xAC => Some(Opcode::new(code, "LDY", 3, 4, AddressingMode::Absolute)),
        0xAD => Some(Opcode::new(code, "LDA", 3, 4, AddressingMode::Absolute)),
        0xAE => Some(Opcode::new(code, "LDX", 3, 4, AddressingMode::Absolute)),
        0xB0 => Some(Opcode::new(code, "BCS", 2, 2, AddressingMode::NoneAddressing)),
        0xB1 => Some(Opcode::new(code, "LDA", 2, 5, AddressingMode::Indirect_Y)),
        0xB4 => Some(Opcode::new(code, "LDY", 2, 4, AddressingMode::ZeroPage_X)),
        0xB5 => Some(Opcode::new(code, "LDA", 2, 4, AddressingMode::ZeroPage_X)),
        0xB6 => Some(Opcode::new(code, "LDX", 2, 4, AddressingMode::ZeroPage_Y)),
        0xB8 => Some(Opcode::new(code, "CLV", 1, 2, AddressingMode::NoneAddressing)),
        0xB9 => Some(Opcode::new(code, "LDA", 3, 4, AddressingMode::Absolute_Y)),
        0xBA => Some(Opcode::new(code, "TSX", 1, 2, AddressingMode::NoneAddressing)),
        0xBC => Some(Opcode::new(code, "LDY", 3, 4, AddressingMode::Absolute_X)),
        0xBD => Some(Opcode::new(code, "LDA", 3, 4, AddressingMode::Absolute_X)),
        0xBE => Some(Opcode::new(code, "LDX", 3, 4, AddressingMode::Absolute_Y)),
        0xC0 => Some(Opcode::new(code, "CPY", 2, 2, AddressingMode::Immediate)),
        0xC1 => Some(Opcode::new(code, "CMP", 2, 6, AddressingMode::Indirect_X)),
        0xC4 => Some(Opcode::new(code, "CPY", 2, 3, AddressingMode::ZeroPage)),
        0xC5 => Some(Opcode::new(code, "CMP", 2, 3, AddressingMode::ZeroPage)),
        0xC6 => Some(Opcode::new(code, "DEC", 2, 5, AddressingMode::ZeroPage)),
        0xC8 => Some(Opcode::new(code, "INY", 1, 2, AddressingMode::NoneAddressing)),
        0xC9 => Some(Opcode::new(code, "CMP", 2, 2, AddressingMode::Immediate)),
        0xCA => Some(Opcode::new(code, "DEX", 1, 2, AddressingMode::NoneAddressing)),
        0xCC => Some(Opcode::new(code, "CPY", 3, 4, AddressingMode::Absolute)),
        0xCD => Some(Opcode::new(code, "CMP", 3, 4, AddressingMode::Absolute)),
        0xCE => Some(Opcode::new(code, "DEC", 3, 6, AddressingMode::Absolute)),
        0xD0 => Some(Opcode::new(code, "BNE", 2, 2, AddressingMode::NoneAddressing)),
        0xD1 => Some(Opcode::new(code, "CMP", 2, 5, AddressingMode::Indirect_Y)),
        0xD5 => Some(Opcode::new(code, "CMP", 2, 4, AddressingMode::ZeroPage_X)),
        0xD6 => Some(Opcode::new(code, "DEC", 2, 6, AddressingMode::ZeroPage_X)),
        0xD8 => Some(Opcode::new(code, "CLD", 1, 2, AddressingMode::NoneAddressing)),
        0xD9 => Some(Opcode::new(code, "CMP", 3, 4, AddressingMode::Absolute_Y)),
        0xDD => Some(Opcode::new(code, "CMP", 3, 4, AddressingMode::Absolute_X)),
        0xDE => Some(Opcode::new(code, "DEC", 3, 7, AddressingMode::Absolute_X)),
        0xE0 => Some(Opcode::new(code, "CPX", 2, 2, AddressingMode::Immediate)),
        0xE1 => Some(Opcode::new(code, "SBC", 2, 6, AddressingMode::Indirect_X)),
        0xE4 => Some(Opcode::new(code, "CPX", 2, 3, AddressingMode::ZeroPage)),
        0xE5 => Some(Opcode::new(code, "SBC", 2, 3, AddressingMode::ZeroPage)),
        0xE6 => Some(Opcode::new(code, "INC", 2, 5, AddressingMode::ZeroPage)),
        0xE8 => Some(Opcode::new(code, "INX", 1, 2, AddressingMode::NoneAddressing)),
        0xE9 => Some(Opcode::new(code, "SBC", 2, 2, AddressingMode::Immediate)),
        0xEA => Some(Opcode::new(code, "NOP", 1, 2, AddressingMode::NoneAddressing)),
        0xEC => Some(Opcode::new(code, "CPX", 3, 4, AddressingMode::Absolute)),
        0xED => Some(Opcode::new(code, "SBC", 3, 4, AddressingMode::Absolute)),
        0xEE => Some(Opcode::new(code, "INC", 3, 6, AddressingMode::Absolute)),
        0xF0 => Some(Opcode::new(code, "BEQ", 2, 2, AddressingMode::NoneAddressing)),
        0xF1 => Some(Opcode::new(code, "SBC", 2, 5, AddressingMode::Indirect_Y)),
        0xF5 => Some(Opcode::new(code, "SBC", 2, 4, AddressingMode::ZeroPage_X)),
        0xF6 => Some(Opcode::new(code, "INC", 2, 6, AddressingMode::ZeroPage_X)),
        0xF8 => Some(Opcode::new(code, "SED", 1, 2, AddressingMode::NoneAddressing)),
        0xF9 => Some(Opcode::new(code, "SBC", 3, 4, AddressingMode::Absolute_Y)),
        0xFD => Some(Opcode::new(code, "SBC", 3, 4, AddressingMode::Absolute_X)),
        0xFE => Some(Opcode::new(code, "INC", 3, 7, AddressingMode::Absolute_X)),
        _ => None,
    }
}

/// Every row is filed under its own opcode byte, is one to three bytes long
/// and costs between two and seven cycles.
pub proof fn lemma_table_rows(code: u8)
    ensures
        opcode_table(code) matches Some(row) ==> {
            &&& row.code == code
            &&& 1 <= row.len <= 3
            &&& 2 <= row.cycles <= 7
        },
{
}

/// An instruction that computes an operand address is two bytes long where
/// the operand is one byte (immediate, zero page, indirect) and three bytes
/// long where it is an address (absolute).
pub proof fn lemma_operand_length(code: u8)
    ensures
        opcode_table(code) matches Some(row) ==> (match row.mode {
            AddressingMode::Immediate => row.len == 2,
            AddressingMode::ZeroPage => row.len == 2,
            AddressingMode::ZeroPage_X => row.len == 2,
            AddressingMode::ZeroPage_Y => row.len == 2,
            AddressingMode::Indirect_X => row.len == 2,
            AddressingMode::Indirect_Y => row.len == 2,
            AddressingMode::Absolute => row.len == 3,
            AddressingMode::Absolute_X => row.len == 3,
            AddressingMode::Absolute_Y => row.len == 3,
            AddressingMode::NoneAddressing => true,
        }),
{
}

} // verus!
