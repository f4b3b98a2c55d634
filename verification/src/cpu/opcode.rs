use crate::cpu::address_mode::AddressMode;
use crate::cpu::instruction::Instruction;
use vstd::prelude::*;

verus! {

/// What one opcode byte stands for: the instruction, how it finds its
/// operand, and how many cycles it takes before any penalty.
#[derive(Clone, Copy, Debug, PartialEq, Eq, Structural)]
pub struct Opcode {
    pub instruction: Instruction,
    pub address_mode: AddressMode,
    pub cycles: u8,
}

/// Shorthand for an entry of the table.
pub open spec fn entry(instruction: Instruction, address_mode: AddressMode, cycles: u8) -> Opcode {
    Opcode { instruction, address_mode, cycles }
}

/// The table of the 151 official opcodes. A byte that is none of them
/// decodes to the invalid instruction, which takes two cycles.
pub open spec fn decode(opcode: u8) -> Opcode {
    match opcode {
        0x00 => entry(Instruction::BRK, AddressMode::Imp, 7),
        0x01 => entry(Instruction::ORA, AddressMode::IndX, 6),
        0x05 => entry(Instruction::ORA, AddressMode::Zpg, 3),
        0x06 => entry(Instruction::ASL, AddressMode::Zpg, 5),
        0x08 => entry(Instruction::PHP, AddressMode::Imp, 3),
        0x09 => entry(Instruction::ORA, AddressMode::Imm, 2),
        0x0A => entry(Instruction::ASL, AddressMode::Acc, 2),
        0x0D => entry(Instruction::ORA, AddressMode::Abs, 4),
        0x0E => entry(Instruction::ASL, AddressMode::Abs, 6),
        0x10 => entry(Instruction::BPL, AddressMode::Rel, 2),
        0x11 => entry(Instruction::ORA, AddressMode::IndY, 5),
        0x15 => entry(Instruction::ORA, AddressMode::ZpgX, 4),
        0x16 => entry(Instruction::ASL, AddressMode::ZpgX, 6),
        0x18 => entry(Instruction::CLC, AddressMode::Imp, 2),
        0x19 => entry(Instruction::ORA, AddressMode::AbsY, 4),
        0x1D => entry(Instruction::ORA, AddressMode::AbsX, 4),
        0x1E => entry(Instruction::ASL, AddressMode::AbsX, 7),
        0x20 => entry(Instruction::JSR, AddressMode::Abs, 6),
        0x21 => entry(Instruction::AND, AddressMode::IndX, 6),
        0x24 => entry(Instruction::BIT, AddressMode::Zpg, 3),
        0x25 => entry(Instruction::AND, AddressMode::Zpg, 3),
        0x26 => entry(Instruction::ROL, AddressMode::Zpg, 5),
        0x28 => entry(Instruction::PLP, AddressMode::Imp, 4),
        0x29 => entry(Instruction::AND, AddressMode::Imm, 2),
        0x2A => entry(Instruction::ROL, AddressMode::Acc, 2),
        0x2C => entry(Instruction::BIT, AddressMode::Abs, 4),
        0x2D => entry(Instruction::AND, AddressMode::Abs, 4),
        0x2E => entry(Instruction::ROL, AddressMode::Abs, 6),
        0x30 => entry(Instruction::BMI, AddressMode::Rel, 2),
        0x31 => entry(Instruction::AND, AddressMode::IndY, 5),
        0x35 => entry(Instruction::AND, AddressMode::ZpgX, 4),
        0x36 => entry(Instruction::ROL, AddressMode::ZpgX, 6),
        0x38 => entry(Instruction::SEC, AddressMode::Imp, 2),
        0x39 => entry(Instruction::AND, AddressMode::AbsY, 4),
        0x3D => entry(Instruction::AND, AddressMode::AbsX, 4),
        0x3E => entry(Instruction::ROL, AddressMode::AbsX, 7),
        0x40 => entry(Instruction::RTI, AddressMode::Imp, 6),
        0x41 => entry(Instruction::EOR, AddressMode::IndX, 6),
        0x45 => entry(Instruction::EOR, AddressMode::Zpg, 3),
        0x46 => entry(Instruction::LSR, AddressMode::Zpg, 5),
        0x48 => entry(Instruction::PHA, AddressMode::Imp, 3),
        0x49 => entry(Instruction::EOR, AddressMode::Imm, 2),
        0x4A => entry(Instruction::LSR, AddressMode::Acc, 2),
        0x4C => entry(Instruction::JMP, AddressMode::Abs, 3),
        0x4D => entry(Instruction::EOR, AddressMode::Abs, 4),
        0x4E => entry(Instruction::LSR, AddressMode::Abs, 6),
        0x50 => entry(Instruction::BVC, AddressMode::Rel, 2),
        0x51 => entry(Instruction::EOR, AddressMode::IndY, 5),
        0x55 => entry(Instruction::EOR, AddressMode::ZpgX, 4),
        0x56 => entry(Instruction::LSR, AddressMode::ZpgX, 6),
        0x58 => entry(Instruction::CLI, AddressMode::Imp, 2),
        0x59 => entry(Instruction::EOR, AddressMode::AbsY, 4),
        0x5D => entry(Instruction::EOR, AddressMode::AbsX, 4),
        0x5E => entry(Instruction::LSR, AddressMode::AbsX, 7),
        0x60 => entry(Instruction::RTS, AddressMode::Imp, 6),
        0x61 => entry(Instruction::ADC, AddressMode::IndX, 6),
        0x65 => entry(Instruction::ADC, AddressMode::Zpg, 3),
        0x66 => entry(Instruction::ROR, AddressMode::Zpg, 5),
        0x68 => entry(Instruction::PLA, AddressMode::Imp, 4),
        0x69 => entry(Instruction::ADC, AddressMode::Imm, 2),
        0x6A => entry(Instruction::ROR, AddressMode::Acc, 2),
        0x6C => entry(Instruction::JMP, AddressMode::Ind, 5),
        0x6D => entry(Instruction::ADC, AddressMode::Abs, 4),
        0x6E => entry(Instruction::ROR, AddressMode::Abs, 6),
        0x70 => entry(Instruction::BVS, AddressMode::Rel, 2),
        0x71 => entry(Instruction::ADC, AddressMode::IndY, 5),
        0x75 => entry(Instruction::ADC, AddressMode::ZpgX, 4),
        0x76 => entry(Instruction::ROR, AddressMode::ZpgX, 6),
        0x78 => entry(Instruction::SEI, AddressMode::Imp, 2),
        0x79 => entry(Instruction::ADC, AddressMode::AbsY, 4),
        0x7D => entry(Instruction::ADC, AddressMode::AbsX, 4),
        0x7E => entry(Instruction::ROR, AddressMode::AbsX, 7),
        0x81 => entry(Instruction::STA, AddressMode::IndX, 6),
        0x84 => entry(Instruction::STY, AddressMode::Zpg, 3),
        0x85 => entry(Instruction::STA, AddressMode::Zpg, 3),
        0x86 => entry(Instruction::STX, AddressMode::Zpg, 3),
        0x88 => entry(Instruction::DEY, AddressMode::Imp, 2),
        0x8A => entry(Instruction::TXA, AddressMode::Imp, 2),
        0x8C => entry(Instruction::STY, AddressMode::Abs, 4),
        0x8D => entry(Instruction::STA, AddressMode::Abs, 4),
        0x8E => entry(Instruction::STX, AddressMode::Abs, 4),
        0x90 => entry(Instruction::BCC, AddressMode::Rel, 2),
        0x91 => entry(Instruction::STA, AddressMode::IndY, 6),
        0x94 => entry(Instruction::STY, AddressMode::ZpgX, 4),
        0x95 => entry(Instruction::STA, AddressMode::ZpgX, 4),
        0x96 => entry(Instruction::STX, AddressMode::ZpgY, 4),
        0x98 => entry(Instruction::TYA, AddressMode::Imp, 2),
        0x99 => entry(Instruction::STA, AddressMode::AbsY, 5),
        0x9A => entry(Instruction::TXS, AddressMode::Imp, 2),
        0x9D => entry(Instruction::STA, AddressMode::AbsX, 5),
        0xA0 => entry(Instruction::LDY, AddressMode::Imm, 2),
        0xA1 => entry(Instruction::LDA, AddressMode::IndX, 6),
        0xA2 => entry(Instruction::LDX, AddressMode::Imm, 2),
        0xA4 => entry(Instruction::LDY, AddressMode::Zpg, 3),
        0xA5 => entry(Instruction::LDA, AddressMode::Zpg, 3),
        0xA6 => entry(Instruction::LDX, AddressMode::Zpg, 3),
        0xA8 => entry(Instruction::TAY, AddressMode::Imp, 2),
        0xA9 => entry(Instruction::LDA, AddressMode::Imm, 2),
        0xAA => entry(Instruction::TAX, AddressMode::Imp, 2),
        0xAC => entry(Instruction::LDY, AddressMode::Abs, 4),
        0xAD => entry(Instruction::LDA, AddressMode::Abs, 4),
        0xAE => entry(Instruction::LDX, AddressMode::Abs, 4),
        0xB0 => entry(Instruction::BCS, AddressMode::Rel, 2),
        0xB1 => entry(Instruction::LDA, AddressMode::IndY, 5),
        0xB4 => entry(Instruction::LDY, AddressMode::ZpgX, 4),
        0xB5 => entry(Instruction::LDA, AddressMode::ZpgX, 4),
        0xB6 => entry(Instruction::LDX, AddressMode::ZpgY, 4),
        0xB8 => entry(Instruction::CLV, AddressMode::Imp, 2),
        0xB9 => entry(Instruction::LDA, AddressMode::AbsY, 4),
        0xBA => entry(Instruction::TSX, AddressMode::Imp, 2),
        0xBC => entry(Instruction::LDY, AddressMode::AbsX, 4),
        0xBD => entry(Instruction::LDA, AddressMode::AbsX, 4),
        0xBE => entry(Instruction::LDX, AddressMode::AbsY, 4),
        0xC0 => entry(Instruction::CPY, AddressMode::Imm, 2),
        0xC1 => entry(Instruction::CMP, AddressMode::IndX, 6),
        0xC4 => entry(Instruction::CPY, AddressMode::Zpg, 3),
        0xC5 => entry(Instruction::CMP, AddressMode::Zpg, 3),
        0xC6 => entry(Instruction::DEC, AddressMode::Zpg, 5),
        0xC8 => entry(Instruction::INY, AddressMode::Imp, 2),
        0xC9 => entry(Instruction::CMP, AddressMode::Imm, 2),
        0xCA => entry(Instruction::DEX, AddressMode::Imp, 2),
        0xCC => entry(Instruction::CPY, AddressMode::Abs, 4),
        0xCD => entry(Instruction::CMP, AddressMode::Abs, 4),
        0xCE => entry(Instruction::DEC, AddressMode::Abs, 6),
        0xD0 => entry(Instruction::BNE, AddressMode::Rel, 2),
        0xD1 => entry(Instruction::CMP, AddressMode::IndY, 5),
        0xD5 => entry(Instruction::CMP, AddressMode::ZpgX, 4),
        0xD6 => entry(Instruction::DEC, AddressMode::ZpgX, 6),
        0xD8 => entry(Instruction::CLD, AddressMode::Imp, 2),
        0xD9 => entry(Instruction::CMP, AddressMode::AbsY, 4),
        0xDD => entry(Instruction::CMP, AddressMode::AbsX, 4),
        0xDE => entry(Instruction::DEC, AddressMode::AbsX, 7),
        0xE0 => entry(Instruction::CPX, AddressMode::Imm, 2),
        0xE1 => entry(Instruction::SBC, AddressMode::IndX, 6),
        0xE4 => entry(Instruction::CPX, AddressMode::Zpg, 3),
        0xE5 => entry(Instruction::SBC, AddressMode::Zpg, 3),
        0xE6 => entry(Instruction::INC, AddressMode::Zpg, 5),
        0xE8 => entry(Instruction::INX, AddressMode::Imp, 2),
        0xE9 => entry(Instruction::SBC, AddressMode::Imm, 2),
        0xEA => entry(Instruction::NOP, AddressMode::Imp, 2),
        0xEC => entry(Instruction::CPX, AddressMode::Abs, 4),
        0xED => entry(Instruction::SBC, AddressMode::Abs, 4),
        0xEE => entry(Instruction::INC, AddressMode::Abs, 6),
        0xF0 => entry(Instruction::BEQ, AddressMode::Rel, 2),
        0xF1 => entry(Instruction::SBC, AddressMode::IndY, 5),
        0xF5 => entry(Instruction::SBC, AddressMode::ZpgX, 4),
        0xF6 => entry(Instruction::INC, AddressMode::ZpgX, 6),
        0xF8 => entry(Instruction::SED, AddressMode::Imp, 2),
        0xF9 => entry(Instruction::SBC, AddressMode::AbsY, 4),
        0xFD => entry(Instruction::SBC, AddressMode::AbsX, 4),
        0xFE => entry(Instruction::INC, AddressMode::AbsX, 7),
        _ => entry(Instruction::Invalid, AddressMode::Invalid, 2),
    }
}

/// Every entry of the table takes from two to seven cycles, and only the
/// invalid instruction has the invalid address mode.
pub proof fn lemma_decode_bounds(opcode: u8)
    ensures
        2 <= decode(opcode).cycles <= 7,
        (decode(opcode).instruction == Instruction::Invalid) == (decode(opcode).address_mode
            == AddressMode::Invalid),
{
}

fn make(instruction: Instruction, address_mode: AddressMode, cycles: u8) -> (opcode: Opcode)
    ensures
        opcode == entry(instruction, address_mode, cycles),
{
    Opcode { instruction, address_mode, cycles }
}

fn lookup(opcode: u8) -> (decoded: Opcode)
    ensures
        decoded == decode(opcode),
{
    match opcode {
        0x00 => make(Instruction::BRK, AddressMode::Imp, 7),
        0x01 => make(Instruction::ORA, AddressMode::IndX, 6),
        0x05 => make(Instruction::ORA, AddressMode::Zpg, 3),
        0x06 => make(Instruction::ASL, AddressMode::Zpg, 5),
        0x08 => make(Instruction::PHP, AddressMode::Imp, 3),
        0x09 => make(Instruction::ORA, AddressMode::Imm, 2),
        0x0A => make(Instruction::ASL, AddressMode::Acc, 2),
        0x0D => make(Instruction::ORA, AddressMode::Abs, 4),
        0x0E => make(Instruction::ASL, AddressMode::Abs, 6),
        0x10 => make(Instruction::BPL, AddressMode::Rel, 2),
        0x11 => make(Instruction::ORA, AddressMode::IndY, 5),
        0x15 => make(Instruction::ORA, AddressMode::ZpgX, 4),
        0x16 => make(Instruction::ASL, AddressMode::ZpgX, 6),
        0x18 => make(Instruction::CLC, AddressMode::Imp, 2),
        0x19 => make(Instruction::ORA, AddressMode::AbsY, 4),
        0x1D => make(Instruction::ORA, AddressMode::AbsX, 4),
        0x1E => make(Instruction::ASL, AddressMode::AbsX, 7),
        0x20 => make(Instruction::JSR, AddressMode::Abs, 6),
        0x21 => make(Instruction::AND, AddressMode::IndX, 6),
        0x24 => make(Instruction::BIT, AddressMode::Zpg, 3),
        0x25 => make(Instruction::AND, AddressMode::Zpg, 3),
        0x26 => make(Instruction::ROL, AddressMode::Zpg, 5),
        0x28 => make(Instruction::PLP, AddressMode::Imp, 4),
        0x29 => make(Instruction::AND, AddressMode::Imm, 2),
        0x2A => make(Instruction::ROL, AddressMode::Acc, 2),
        0x2C => make(Instruction::BIT, AddressMode::Abs, 4),
        0x2D => make(Instruction::AND, AddressMode::Abs, 4),
        0x2E => make(Instruction::ROL, AddressMode::Abs, 6),
        0x30 => make(Instruction::BMI, AddressMode::Rel, 2),
        0x31 => make(Instruction::AND, AddressMode::IndY, 5),
        0x35 => make(Instruction::AND, AddressMode::ZpgX, 4),
        0x36 => make(Instruction::ROL, AddressMode::ZpgX, 6),
        0x38 => make(Instruction::SEC, AddressMode::Imp, 2),
        0x39 => make(Instruction::AND, AddressMode::AbsY, 4),
        0x3D => make(Instruction::AND, AddressMode::AbsX, 4),
        0x3E => make(Instruction::ROL, AddressMode::AbsX, 7),
        0x40 => make(Instruction::RTI, AddressMode::Imp, 6),
        0x41 => make(Instruction::EOR, AddressMode::IndX, 6),
        0x45 => make(Instruction::EOR, AddressMode::Zpg, 3),
        0x46 => make(Instruction::LSR, AddressMode::Zpg, 5),
        0x48 => make(Instruction::PHA, AddressMode::Imp, 3),
        0x49 => make(Instruction::EOR, AddressMode::Imm, 2),
        0x4A => make(Instruction::LSR, AddressMode::Acc, 2),
        0x4C => make(Instruction::JMP, AddressMode::Abs, 3),
        0x4D => make(Instruction::EOR, AddressMode::Abs, 4),
        0x4E => make(Instruction::LSR, AddressMode::Abs, 6),
        0x50 => make(Instruction::BVC, AddressMode::Rel, 2),
        0x51 => make(Instruction::EOR, AddressMode::IndY, 5),
        0x55 => make(Instruction::EOR, AddressMode::ZpgX, 4),
        0x56 => make(Instruction::LSR, AddressMode::ZpgX, 6),
        0x58 => make(Instruction::CLI, AddressMode::Imp, 2),
        0x59 => make(Instruction::EOR, AddressMode::AbsY, 4),
        0x5D => make(Instruction::EOR, AddressMode::AbsX, 4),
        0x5E => make(Instruction::LSR, AddressMode::AbsX, 7),
        0x60 => make(Instruction::RTS, AddressMode::Imp, 6),
        0x61 => make(Instruction::ADC, AddressMode::IndX, 6),
        0x65 => make(Instruction::ADC, AddressMode::Zpg, 3),
        0x66 => make(Instruction::ROR, AddressMode::Zpg, 5),
        0x68 => make(Instruction::PLA, AddressMode::Imp, 4),
        0x69 => make(Instruction::ADC, AddressMode::Imm, 2),
        0x6A => make(Instruction::ROR, AddressMode::Acc, 2),
        0x6C => make(Instruction::JMP, AddressMode::Ind, 5),
        0x6D => make(Instruction::ADC, AddressMode::Abs, 4),
        0x6E => make(Instruction::ROR, AddressMode::Abs, 6),
        0x70 => make(Instruction::BVS, AddressMode::Rel, 2),
        0x71 => make(Instruction::ADC, AddressMode::IndY, 5),
        0x75 => make(Instruction::ADC, AddressMode::ZpgX, 4),
        0x76 => make(Instruction::ROR, AddressMode::ZpgX, 6),
        0x78 => make(Instruction::SEI, AddressMode::Imp, 2),
        0x79 => make(Instruction::ADC, AddressMode::AbsY, 4),
        0x7D => make(Instruction::ADC, AddressMode::AbsX, 4),
        0x7E => make(Instruction::ROR, AddressMode::AbsX, 7),
        0x81 => make(Instruction::STA, AddressMode::IndX, 6),
        0x84 => make(Instruction::STY, AddressMode::Zpg, 3),
        0x85 => make(Instruction::STA, AddressMode::Zpg, 3),
        0x86 => make(Instruction::STX, AddressMode::Zpg, 3),
        0x88 => make(Instruction::DEY, AddressMode::Imp, 2),
        0x8A => make(Instruction::TXA, AddressMode::Imp, 2),
        0x8C => make(Instruction::STY, AddressMode::Abs, 4),
        0x8D => make(Instruction::STA, AddressMode::Abs, 4),
        0x8E => make(Instruction::STX, AddressMode::Abs, 4),
        0x90 => make(Instruction::BCC, AddressMode::Rel, 2),
        0x91 => make(Instruction::STA, AddressMode::IndY, 6),
        0x94 => make(Instruction::STY, AddressMode::ZpgX, 4),
        0x95 => make(Instruction::STA, AddressMode::ZpgX, 4),
        0x96 => make(Instruction::STX, AddressMode::ZpgY, 4),
        0x98 => make(Instruction::TYA, AddressMode::Imp, 2),
        0x99 => make(Instruction::STA, AddressMode::AbsY, 5),
        0x9A => make(Instruction::TXS, AddressMode::Imp, 2),
        0x9D => make(Instruction::STA, AddressMode::AbsX, 5),
        0xA0 => make(Instruction::LDY, AddressMode::Imm, 2),
        0xA1 => make(Instruction::LDA, AddressMode::IndX, 6),
        0xA2 => make(Instruction::LDX, AddressMode::Imm, 2),
        0xA4 => make(Instruction::LDY, AddressMode::Zpg, 3),
        0xA5 => make(Instruction::LDA, AddressMode::Zpg, 3),
        0xA6 => make(Instruction::LDX, AddressMode::Zpg, 3),
        0xA8 => make(Instruction::TAY, AddressMode::Imp, 2),
        0xA9 => make(Instruction::LDA, AddressMode::Imm, 2),
        0xAA => make(Instruction::TAX, AddressMode::Imp, 2),
        0xAC => make(Instruction::LDY, AddressMode::Abs, 4),
        0xAD => make(Instruction::LDA, AddressMode::Abs, 4),
        0xAE => make(Instruction::LDX, AddressMode::Abs, 4),
        0xB0 => make(Instruction::BCS, AddressMode::Rel, 2),
        0xB1 => make(Instruction::LDA, AddressMode::IndY, 5),
        0xB4 => make(Instruction::LDY, AddressMode::ZpgX, 4),
        0xB5 => make(Instruction::LDA, AddressMode::ZpgX, 4),
        0xB6 => make(Instruction::LDX, AddressMode::ZpgY, 4),
        0xB8 => make(Instruction::CLV, AddressMode::Imp, 2),
        0xB9 => make(Instruction::LDA, AddressMode::AbsY, 4),
        0xBA => make(Instruction::TSX, AddressMode::Imp, 2),
        0xBC => make(Instruction::LDY, AddressMode::AbsX, 4),
        0xBD => make(Instruction::LDA, AddressMode::AbsX, 4),
        0xBE => make(Instruction::LDX, AddressMode::AbsY, 4),
        0xC0 => make(Instruction::CPY, AddressMode::Imm, 2),
        0xC1 => make(Instruction::CMP, AddressMode::IndX, 6),
        0xC4 => make(Instruction::CPY, AddressMode::Zpg, 3),
        0xC5 => make(Instruction::CMP, AddressMode::Zpg, 3),
        0xC6 => make(Instruction::DEC, AddressMode::Zpg, 5),
        0xC8 => make(Instruction::INY, AddressMode::Imp, 2),
        0xC9 => make(Instruction::CMP, AddressMode::Imm, 2),
        0xCA => make(Instruction::DEX, AddressMode::Imp, 2),
        0xCC => make(Instruction::CPY, AddressMode::Abs, 4),
        0xCD => make(Instruction::CMP, AddressMode::Abs, 4),
        0xCE => make(Instruction::DEC, AddressMode::Abs, 6),
        0xD0 => make(Instruction::BNE, AddressMode::Rel, 2),
        0xD1 => make(Instruction::CMP, AddressMode::IndY, 5),
        0xD5 => make(Instruction::CMP, AddressMode::ZpgX, 4),
        0xD6 => make(Instruction::DEC, AddressMode::ZpgX, 6),
        0xD8 => make(Instruction::CLD, AddressMode::Imp, 2),
        0xD9 => make(Instruction::CMP, AddressMode::AbsY, 4),
        0xDD => make(Instruction::CMP, AddressMode::AbsX, 4),
        0xDE => make(Instruction::DEC, AddressMode::AbsX, 7),
        0xE0 => make(Instruction::CPX, AddressMode::Imm, 2),
        0xE1 => make(Instruction::SBC, AddressMode::IndX, 6),
        0xE4 => make(Instruction::CPX, AddressMode::Zpg, 3),
        0xE5 => make(Instruction::SBC, AddressMode::Zpg, 3),
        0xE6 => make(Instruction::INC, AddressMode::Zpg, 5),
        0xE8 => make(Instruction::INX, AddressMode::Imp, 2),
        0xE9 => make(Instruction::SBC, AddressMode::Imm, 2),
        0xEA => make(Instruction::NOP, AddressMode::Imp, 2),
        0xEC => make(Instruction::CPX, AddressMode::Abs, 4),
        0xED => make(Instruction::SBC, AddressMode::Abs, 4),
        0xEE => make(Instruction::INC, AddressMode::Abs, 6),
        0xF0 => make(Instruction::BEQ, AddressMode::Rel, 2),
        0xF1 => make(Instruction::SBC, AddressMode::IndY, 5),
        0xF5 => make(Instruction::SBC, AddressMode::ZpgX, 4),
        0xF6 => make(Instruction::INC, AddressMode::ZpgX, 6),
        0xF8 => make(Instruction::SED, AddressMode::Imp, 2),
        0xF9 => make(Instruction::SBC, AddressMode::AbsY, 4),
        0xFD => make(Instruction::SBC, AddressMode::AbsX, 4),
        0xFE => make(Instruction::INC, AddressMode::AbsX, 7),
        _ => make(Instruction::Invalid, AddressMode::Invalid, 2),
    }
}

/// Looks an opcode byte up in the table.
pub fn opcode_mapper(opcode: u8) -> (decoded: Opcode)
    ensures
        decoded == decode(opcode),
        2 <= decoded.cycles <= 7,
        (decoded.instruction == Instruction::Invalid) == (decoded.address_mode
            == AddressMode::Invalid),
{
    proof {
        lemma_decode_bounds(opcode);
    }
    lookup(opcode)
}

} // verus!
