//! Mnemonics of the opcodes, for the debugger.

use vstd::prelude::*;

verus! {

/// The mnemonic shown for an opcode ("???" when there is none).
pub open spec fn opcode_name_spec(opcode: u8) -> &'static str {
    match opcode {
        0x31 => "LD SP, $0xFFFE",
        0xAF => "XOR A",
        0x21 => "LD HL, *2bytes",
        0x77 => "LD (HL), A",
        0x11 => "LD DE,*16bit",
        0x0E => "LD C, *1byte",
        0x3E => "LD A, *1byte",
        0x06 => "LD B, *1byte",
        0x2E => "LD L, *1byte",
        0x1E => "LD E, *1byte",
        0x16 => "LD D, *1byte",
        0x7B => "LD A, E",
        0x7C => "LD A, H",
        0x7D => "LD A, L",
        0x78 => "LD A, B",
        0x1A => "LD A, (DE)",
        0x4F => "LD C,A",
        0x67 => "LD H,A",
        0x57 => "LD D,A",
        0x32 => "LD (HL-), A",
        0x22 => "LD (HL+), A",
        0xF0 => "LD A, ($ff00+n)",
        0xE2 => "LD ($ff00+C), A",
        0xE0 => "LD ($ff00+n), A",
        0xCB => "CB function",
        0x17 => "RLA",
        0x20 => "JR NZ,*one byte",
        0x28 => "JR Z,*",
        0x18 => "JR n",
        0x0C => "INC C",
        0x04 => "INC B",
        0xCD => "CALL",
        0xC9 => "RET",
        0xC5 => "PUSH BC",
        0xC1 => "POP nn",
        0x05 => "DEC B",
        0x0D => "DEC C",
        0x1D => "DEC E",
        0x3D => "DEC A",
        0x15 => "DEC D",
        0x13 => "INC DE",
        0x23 => "INC HL",
        0x24 => "INC H",
        0xFE => "CP #",
        0xBE => "CP (HL)",
        0xEA => "LD (nn),A",
        0x90 => "SUB B",
        0x00 => "NOP",
        0xCE => "ADC A,#",
        0x66 => "LD H,(hl)",
        0xCC => "CALL Z, nn",
        0x0B => "DEB BC",
        0x03 => "INC BC",
        0x73 => "LD (HL),E",
        0x08 => "LD (nn), SP",
        0x1F => "RRA",
        0x88 => " ADC A,B",
        0x89 => " ADC A,C ",
        0x6E => "LD L,(hl)",
        0xE6 => "AND #",
        0xC3 => " JP nn ",
        0xF3 => "DI -Interrupts are disabled after instruction after DI is executed.",
        0x36 => "LD (HL),n",
        0x2A => " LDI A,(HL)",
        0x47 => " LD B,A",
        0x02 => "LD (BC), A",
        0xFD => "No operation?",
        0x6D => "LD L,L",
        0x6C => "LD L,H",
        0x71 => "LD (HL), C",
        0x3C => "INC A",
        0xE1 => "POP HL",
        0x55 => "LD D,L",
        0x56 => "LD D,(HL)",
        0x5A => "LD E,D",
        0x61 => "LD H,C",
        0x5B => "LD E,E",
        0x49 => "LD C,C",
        0x5E => "LD E,(HL)",
        0x58 => "LD E,B",
        0x5C => "LD E,H",
        0x51 => "LD D,C",
        0x50 => "LD D,B",
        0x4C => "LD C,H",
        0x4E => "LD C,(HL)",
        0x59 => "LD E,C",
        0x53 => "LD D,E",
        0x52 => "LD D,D",
        0x4D => "LD C,L",
        0x54 => "LD D,H",
        0xD3 => "No operation?",
        0xA6 => "AND (HL)",
        0x5D => "LD E,L",
        0x3A => "LD A, (HL-)",
        0x40 => "LD B,B",
        0x43 => "LD B,E",
        0x38 => "JR C,*one byte",
        0xC2 => "JP NZ,nn",
        0xF4 => "No operation?",
        0x7F => " LD A,A",
        0x74 => " LD (HL),H",
        0x75 => " LD (HL),L",
        0x72 => " LD (HL),D",
        0x76 => "HALT Power down CPU until interrupt occurs",
        0x79 => "LD A,C",
        0xF1 => "POP AF",
        0xB1 => "OR C",
        0x3F => "CCF",
        0x42 => " LD B,D",
        0x46 => "LD B,(HL)",
        0xB5 => "OR L",
        0x70 => " LD (HL),B",
        0x48 => " LD C,B",
        0xC4 => "CALL NZ, nn",
        0x69 => " LD L,C",
        0x6A => " LD L,D",
        0x6F => " LD L,A",
        0xD1 => "POP DE",
        0x5F => " LD E,A",
        0x92 => " SUB D",
        0x97 => " SUB A",
        0x91 => " SUB C",
        0x93 => " SUB E",
        0x94 => " SUB H",
        0x95 => " SUB L",
        0x96 => " SUB (HL)",
        0x41 => " LD B,C",
        0x44 => "LD B,H",
        0xE5 => "PUSH HL",
        0xF5 => "PUSH AF",
        0xD5 => " PUSH DE",
        0x01 => "LD BC, nn",
        0xFA => "LD A, (nn)",
        0x2C => "INC L",
        0xA8 => " XOR B",
        0xA9 => " XOR C",
        0xAA => " XOR D",
        0xAB => " XOR E",
        0xAC => " XOR H",
        0xAD => " XOR L",
        0xD6 => " SUB n",
        0xB7 => "OR A",
        0xB0 => "OR B",
        0xB2 => "OR D",
        0xB3 => "OR E",
        0xB4 => "OR H",
        0x2D => "DEC L",
        0x25 => "DEC H",
        0xAE => " XOR (HL)",
        0xEE => " XOR n",
        0x26 => "LD H, *1byte",
        0x30 => "JR NC,*one byte",
        0x7A => "LD A, D",
        0xD0 => "RET NC",
        0xC0 => "RET NZ",
        0xC8 => "RET Z",
        0xD8 => "RET C",
        0xB6 => "OR (HL)",
        0xF6 => "OR n",
        0x35 => "DEC (HL)",
        0x09 => "ADD HL, BC",
        0x19 => "ADD HL, DE",
        0x29 => "ADD HL, HL",
        0xE9 => " JP (HL)",
        0xF8 => "LDHL SP,n",
        0x62 => "LD H,D",
        0x6B => "LD L,E",
        0x12 => "LD (DE), A",
        0x1C => "INC E",
        0x14 => "INC D",
        0x7E => "LD A, (HL)",
        0xF9 => "LD SP, HL",
        0x33 => "INC SP",
        0x3B => "DEC SP",
        0x39 => "ADD HL, SP",
        0xE8 => "ADD SP, n",
        0xDE => "SCB A,n",
        0xBB => "CP E",
        0x1B => "DEC DE",
        0x2B => "DEC HL",
        0x45 => "LD B, L",
        0x4A => "LD C, D",
        0x4B => "LD C, E",
        0x37 => "SCF",
        0xB8 => "CP B",
        0xB9 => "CP C",
        0xBA => "CP D",
        0xBC => "CP H",
        0xBD => "CP L",
        0xBF => "CP A",
        0x87 => "ADD A, A",
        0x80 => "ADD A, B",
        0x81 => "ADD A, C",
        0x82 => "ADD A, D",
        0x83 => "ADD A, E",
        0x84 => "ADD A, H",
        0x85 => "ADD A, L",
        0x86 => "ADD A, (HL)",
        0xC6 => "ADD A, #",
        0x8F => "ADC A, A",
        0x8A => "ADC A, D",
        0x8B => "ADC A, E",
        0x8C => "ADC A, H",
        0x8D => "ADC A, L",
        0x8E => "ADC A, (HL)",
        0x9F => "SBC A, A",
        0x98 => "SBC A, B",
        0x99 => "SBC A, C",
        0x9A => "SBC A, D",
        0x9B => "SBC A, E",
        0x9C => "SBC A, H",
        0x9D => "SBC A, L",
        0x9E => "SBC A, (HL)",
        0xA7 => "AND A",
        0xA0 => "AND B",
        0xA1 => "AND C",
        0xA2 => "AND D",
        0xA3 => "AND E",
        0xA4 => "AND H",
        0xA5 => "AND L",
        0x0F => "RRCA",
        0xD7 => "RST $10",
        0xDF => "RST $18",
        0xE7 => "RST $20",
        0xEF => "RST $28",
        0xF7 => "RST $30",
        0xFF => "RST $38",
        0xFB => "EI",
        _ => "???",
    }
}

/// The mnemonic shown for an opcode.
pub fn opcode_name(opcode: u8) -> (r: String)
    ensures
        r@ == opcode_name_spec(opcode)@,
{
    let result: &str = match opcode {
        0x31 => "LD SP, $0xFFFE",
        0xAF => "XOR A",
        0x21 => "LD HL, *2bytes",
        0x77 => "LD (HL), A",
        0x11 => "LD DE,*16bit",
        0x0E => "LD C, *1byte",
        0x3E => "LD A, *1byte",
        0x06 => "LD B, *1byte",
        0x2E => "LD L, *1byte",
        0x1E => "LD E, *1byte",
        0x16 => "LD D, *1byte",
        0x7B => "LD A, E",
        0x7C => "LD A, H",
        0x7D => "LD A, L",
        0x78 => "LD A, B",
        0x1A => "LD A, (DE)",
        0x4F => "LD C,A",
        0x67 => "LD H,A",
        0x57 => "LD D,A",
        0x32 => "LD (HL-), A",
        0x22 => "LD (HL+), A",
        0xF0 => "LD A, ($ff00+n)",
        0xE2 => "LD ($ff00+C), A",
        0xE0 => "LD ($ff00+n), A",
        0xCB => "CB function",
        0x17 => "RLA",
        0x20 => "JR NZ,*one byte",
        0x28 => "JR Z,*",
        0x18 => "JR n",
        0x0C => "INC C",
        0x04 => "INC B",
        0xCD => "CALL",
        0xC9 => "RET",
        0xC5 => "PUSH BC",
        0xC1 => "POP nn",
        0x05 => "DEC B",
        0x0D => "DEC C",
        0x1D => "DEC E",
        0x3D => "DEC A",
        0x15 => "DEC D",
        0x13 => "INC DE",
        0x23 => "INC HL",
        0x24 => "INC H",
        0xFE => "CP #",
        0xBE => "CP (HL)",
        0xEA => "LD (nn),A",
        0x90 => "SUB B",
        0x00 => "NOP",
        0xCE => "ADC A,#",
        0x66 => "LD H,(hl)",
        0xCC => "CALL Z, nn",
        0x0B => "DEB BC",
        0x03 => "INC BC",
        0x73 => "LD (HL),E",
        0x08 => "LD (nn), SP",
        0x1F => "RRA",
        0x88 => " ADC A,B",
        0x89 => " ADC A,C ",
        0x6E => "LD L,(hl)",
        0xE6 => "AND #",
        0xC3 => " JP nn ",
        0xF3 => "DI -Interrupts are disabled after instruction after DI is executed.",
        0x36 => "LD (HL),n",
        0x2A => " LDI A,(HL)",
        0x47 => " LD B,A",
        0x02 => "LD (BC), A",
        0xFD => "No operation?",
        0x6D => "LD L,L",
        0x6C => "LD L,H",
        0x71 => "LD (HL), C",
        0x3C => "INC A",
        0xE1 => "POP HL",
        0x55 => "LD D,L",
        0x56 => "LD D,(HL)",
        0x5A => "LD E,D",
        0x61 => "LD H,C",
        0x5B => "LD E,E",
        0x49 => "LD C,C",
        0x5E => "LD E,(HL)",
        0x58 => "LD E,B",
        0x5C => "LD E,H",
        0x51 => "LD D,C",
        0x50 => "LD D,B",
        0x4C => "LD C,H",
        0x4E => "LD C,(HL)",
        0x59 => "LD E,C",
        0x53 => "LD D,E",
        0x52 => "LD D,D",
        0x4D => "LD C,L",
        0x54 => "LD D,H",
        0xD3 => "No operation?",
        0xA6 => "AND (HL)",
        0x5D => "LD E,L",
        0x3A => "LD A, (HL-)",
        0x40 => "LD B,B",
        0x43 => "LD B,E",
        0x38 => "JR C,*one byte",
        0xC2 => "JP NZ,nn",
        0xF4 => "No operation?",
        0x7F => " LD A,A",
        0x74 => " LD (HL),H",
        0x75 => " LD (HL),L",
        0x72 => " LD (HL),D",
        0x76 => "HALT Power down CPU until interrupt occurs",
        0x79 => "LD A,C",
        0xF1 => "POP AF",
        0xB1 => "OR C",
        0x3F => "CCF",
        0x42 => " LD B,D",
        0x46 => "LD B,(HL)",
        0xB5 => "OR L",
        0x70 => " LD (HL),B",
        0x48 => " LD C,B",
        0xC4 => "CALL NZ, nn",
        0x69 => " LD L,C",
        0x6A => " LD L,D",
        0x6F => " LD L,A",
        0xD1 => "POP DE",
        0x5F => " LD E,A",
        0x92 => " SUB D",
        0x97 => " SUB A",
        0x91 => " SUB C",
        0x93 => " SUB E",
        0x94 => " SUB H",
        0x95 => " SUB L",
        0x96 => " SUB (HL)",
        0x41 => " LD B,C",
        0x44 => "LD B,H",
        0xE5 => "PUSH HL",
        0xF5 => "PUSH AF",
        0xD5 => " PUSH DE",
        0x01 => "LD BC, nn",
        0xFA => "LD A, (nn)",
        0x2C => "INC L",
        0xA8 => " XOR B",
        0xA9 => " XOR C",
        0xAA => " XOR D",
        0xAB => " XOR E",
        0xAC => " XOR H",
        0xAD => " XOR L",
        0xD6 => " SUB n",
        0xB7 => "OR A",
        0xB0 => "OR B",
        0xB2 => "OR D",
        0xB3 => "OR E",
        0xB4 => "OR H",
        0x2D => "DEC L",
        0x25 => "DEC H",
        0xAE => " XOR (HL)",
        0xEE => " XOR n",
        0x26 => "LD H, *1byte",
        0x30 => "JR NC,*one byte",
        0x7A => "LD A, D",
        0xD0 => "RET NC",
        0xC0 => "RET NZ",
        0xC8 => "RET Z",
        0xD8 => "RET C",
        0xB6 => "OR (HL)",
        0xF6 => "OR n",
        0x35 => "DEC (HL)",
        0x09 => "ADD HL, BC",
        0x19 => "ADD HL, DE",
        0x29 => "ADD HL, HL",
        0xE9 => " JP (HL)",
        0xF8 => "LDHL SP,n",
        0x62 => "LD H,D",
        0x6B => "LD L,E",
        0x12 => "LD (DE), A",
        0x1C => "INC E",
        0x14 => "INC D",
        0x7E => "LD A, (HL)",
        0xF9 => "LD SP, HL",
        0x33 => "INC SP",
        0x3B => "DEC SP",
        0x39 => "ADD HL, SP",
        0xE8 => "ADD SP, n",
        0xDE => "SCB A,n",
        0xBB => "CP E",
        0x1B => "DEC DE",
        0x2B => "DEC HL",
        0x45 => "LD B, L",
        0x4A => "LD C, D",
        0x4B => "LD C, E",
        0x37 => "SCF",
        0xB8 => "CP B",
        0xB9 => "CP C",
        0xBA => "CP D",
        0xBC => "CP H",
        0xBD => "CP L",
        0xBF => "CP A",
        0x87 => "ADD A, A",
        0x80 => "ADD A, B",
        0x81 => "ADD A, C",
        0x82 => "ADD A, D",
        0x83 => "ADD A, E",
        0x84 => "ADD A, H",
        0x85 => "ADD A, L",
        0x86 => "ADD A, (HL)",
        0xC6 => "ADD A, #",
        0x8F => "ADC A, A",
        0x8A => "ADC A, D",
        0x8B => "ADC A, E",
        0x8C => "ADC A, H",
        0x8D => "ADC A, L",
        0x8E => "ADC A, (HL)",
        0x9F => "SBC A, A",
        0x98 => "SBC A, B",
        0x99 => "SBC A, C",
        0x9A => "SBC A, D",
        0x9B => "SBC A, E",
        0x9C => "SBC A, H",
        0x9D => "SBC A, L",
        0x9E => "SBC A, (HL)",
        0xA7 => "AND A",
        0xA0 => "AND B",
        0xA1 => "AND C",
        0xA2 => "AND D",
        0xA3 => "AND E",
        0xA4 => "AND H",
        0xA5 => "AND L",
        0x0F => "RRCA",
        0xD7 => "RST $10",
        0xDF => "RST $18",
        0xE7 => "RST $20",
        0xEF => "RST $28",
        0xF7 => "RST $30",
        0xFF => "RST $38",
        0xFB => "EI",
        _ => "???",
    };
    result.to_owned()
}

} // verus!
