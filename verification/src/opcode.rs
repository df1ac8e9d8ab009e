//! The 65C816 opcode catalog: the mnemonic and the addressing mode of each of
//! the 256 opcode bytes.

use vstd::prelude::*;

verus! {

/// How an instruction's operand bytes are interpreted.
#[derive(Debug, Clone, Copy, PartialEq, Eq, Structural)]
pub enum AddrMode {
    Implied,
    Immediate,
    ImmediateByte,
    Absolute,
    AbsoluteLong,
    AbsoluteIndexedX,
    AbsoluteIndexedY,
    AbsoluteIndexedLong,
    AbsoluteIndirect,
    AbsoluteIndirectLong,
    AbsoluteIndexedIndirect,
    Direct,
    DirectIndexedX,
    DirectIndexedY,
    DirectIndirect,
    DirectIndirectLong,
    DirectIndexedIndirect,
    DirectIndirectIndexed,
    DirectIndirectIndexedLong,
    StackRelative,
    StackRelativeIndirectIndexed,
    Relative,
    RelativeLong,
    BlockMove,
}

/// The three-letter instruction names.
#[derive(Debug, Clone, Copy, PartialEq, Eq, Structural)]
pub enum Mnemonic {
    ADC,
    AND,
    ASL,
    BCC,
    BCS,
    BEQ,
    BIT,
    BMI,
    BNE,
    BPL,
    BRA,
    BRK,
    BRL,
    BVC,
    BVS,
    CLC,
    CLD,
    CLI,
    CLV,
    CMP,
    COP,
    CPX,
    CPY,
    DEC,
    DEX,
    DEY,
    EOR,
    INC,
    INX,
    INY,
    JML,
    JMP,
    JSL,
    JSR,
    LDA,
    LDX,
    LDY,
    LSR,
    MVN,
    MVP,
    NOP,
    ORA,
    PEA,
    PEI,
    PER,
    PHA,
    PHB,
    PHD,
    PHK,
    PHP,
    PHX,
    PHY,
    PLA,
    PLB,
    PLD,
    PLP,
    PLX,
    PLY,
    REP,
    ROL,
    ROR,
    RTI,
    RTL,
    RTS,
    SBC,
    SEC,
    SED,
    SEI,
    SEP,
    STA,
    STP,
    STX,
    STY,
    STZ,
    TAX,
    TAY,
    TCD,
    TCS,
    TDC,
    TRB,
    TSB,
    TSC,
    TSX,
    TXA,
    TXS,
    TXY,
    TYA,
    TYX,
    WAI,
    WDM,
    XBA,
    XCE,
}

impl Mnemonic {
    /// The name as it is written in assembler source.
    pub open spec fn text(self) -> Seq<char> {
        match self {
            Mnemonic::ADC => "ADC"@,
            Mnemonic::AND => "AND"@,
            Mnemonic::ASL => "ASL"@,
            Mnemonic::BCC => "BCC"@,
            Mnemonic::BCS => "BCS"@,
            Mnemonic::BEQ => "BEQ"@,
            Mnemonic::BIT => "BIT"@,
            Mnemonic::BMI => "BMI"@,
            Mnemonic::BNE => "BNE"@,
            Mnemonic::BPL => "BPL"@,
            Mnemonic::BRA => "BRA"@,
            Mnemonic::BRK => "BRK"@,
            Mnemonic::BRL => "BRL"@,
            Mnemonic::BVC => "BVC"@,
            Mnemonic::BVS => "BVS"@,
            Mnemonic::CLC => "CLC"@,
            Mnemonic::CLD => "CLD"@,
            Mnemonic::CLI => "CLI"@,
            Mnemonic::CLV => "CLV"@,
            Mnemonic::CMP => "CMP"@,
            Mnemonic::COP => "COP"@,
            Mnemonic::CPX => "CPX"@,
            Mnemonic::CPY => "CPY"@,
            Mnemonic::DEC => "DEC"@,
            Mnemonic::DEX => "DEX"@,
            Mnemonic::DEY => "DEY"@,
            Mnemonic::EOR => "EOR"@,
            Mnemonic::INC => "INC"@,
            Mnemonic::INX => "INX"@,
            Mnemonic::INY => "INY"@,
            Mnemonic::JML => "JML"@,
            Mnemonic::JMP => "JMP"@,
            Mnemonic::JSL => "JSL"@,
            Mnemonic::JSR => "JSR"@,
            Mnemonic::LDA => "LDA"@,
            Mnemonic::LDX => "LDX"@,
            Mnemonic::LDY => "LDY"@,
            Mnemonic::LSR => "LSR"@,
            Mnemonic::MVN => "MVN"@,
            Mnemonic::MVP => "MVP"@,
            Mnemonic::NOP => "NOP"@,
            Mnemonic::ORA => "ORA"@,
            Mnemonic::PEA => "PEA"@,
            Mnemonic::PEI => "PEI"@,
            Mnemonic::PER => "PER"@,
            Mnemonic::PHA => "PHA"@,
            Mnemonic::PHB => "PHB"@,
            Mnemonic::PHD => "PHD"@,
            Mnemonic::PHK => "PHK"@,
            Mnemonic::PHP => "PHP"@,
            Mnemonic::PHX => "PHX"@,
            Mnemonic::PHY => "PHY"@,
            Mnemonic::PLA => "PLA"@,
            Mnemonic::PLB => "PLB"@,
            Mnemonic::PLD => "PLD"@,
            Mnemonic::PLP => "PLP"@,
            Mnemonic::PLX => "PLX"@,
            Mnemonic::PLY => "PLY"@,
            Mnemonic::REP => "REP"@,
            Mnemonic::ROL => "ROL"@,
            Mnemonic::ROR => "ROR"@,
            Mnemonic::RTI => "RTI"@,
            Mnemonic::RTL => "RTL"@,
            Mnemonic::RTS => "RTS"@,
            Mnemonic::SBC => "SBC"@,
            Mnemonic::SEC => "SEC"@,
            Mnemonic::SED => "SED"@,
            Mnemonic::SEI => "SEI"@,
            Mnemonic::SEP => "SEP"@,
            Mnemonic::STA => "STA"@,
            Mnemonic::STP => "STP"@,
            Mnemonic::STX => "STX"@,
            Mnemonic::STY => "STY"@,
            Mnemonic::STZ => "STZ"@,
            Mnemonic::TAX => "TAX"@,
            Mnemonic::TAY => "TAY"@,
            Mnemonic::TCD => "TCD"@,
            Mnemonic::TCS => "TCS"@,
            Mnemonic::TDC => "TDC"@,
            Mnemonic::TRB => "TRB"@,
            Mnemonic::TSB => "TSB"@,
            Mnemonic::TSC => "TSC"@,
            Mnemonic::TSX => "TSX"@,
            Mnemonic::TXA => "TXA"@,
            Mnemonic::TXS => "TXS"@,
            Mnemonic::TXY => "TXY"@,
            Mnemonic::TYA => "TYA"@,
            Mnemonic::TYX => "TYX"@,
            Mnemonic::WAI => "WAI"@,
            Mnemonic::WDM => "WDM"@,
            Mnemonic::XBA => "XBA"@,
            Mnemonic::XCE => "XCE"@,
        }
    }

    /// The text of `text`.
    pub fn as_str(&self) -> (r: &'static str)
        ensures
            r@ == self.text(),
    {
        match self {
            Mnemonic::ADC => "ADC",
            Mnemonic::AND => "AND",
            Mnemonic::ASL => "ASL",
            Mnemonic::BCC => "BCC",
            Mnemonic::BCS => "BCS",
            Mnemonic::BEQ => "BEQ",
            Mnemonic::BIT => "BIT",
            Mnemonic::BMI => "BMI",
            Mnemonic::BNE => "BNE",
            Mnemonic::BPL => "BPL",
            Mnemonic::BRA => "BRA",
            Mnemonic::BRK => "BRK",
            Mnemonic::BRL => "BRL",
            Mnemonic::BVC => "BVC",
            Mnemonic::BVS => "BVS",
            Mnemonic::CLC => "CLC",
            Mnemonic::CLD => "CLD",
            Mnemonic::CLI => "CLI",
            Mnemonic::CLV => "CLV",
            Mnemonic::CMP => "CMP",
            Mnemonic::COP => "COP",
            Mnemonic::CPX => "CPX",
            Mnemonic::CPY => "CPY",
            Mnemonic::DEC => "DEC",
            Mnemonic::DEX => "DEX",
            Mnemonic::DEY => "DEY",
            Mnemonic::EOR => "EOR",
            Mnemonic::INC => "INC",
            Mnemonic::INX => "INX",
            Mnemonic::INY => "INY",
            Mnemonic::JML => "JML",
            Mnemonic::JMP => "JMP",
            Mnemonic::JSL => "JSL",
            Mnemonic::JSR => "JSR",
            Mnemonic::LDA => "LDA",
            Mnemonic::LDX => "LDX",
            Mnemonic::LDY => "LDY",
            Mnemonic::LSR => "LSR",
            Mnemonic::MVN => "MVN",
            Mnemonic::MVP => "MVP",
            Mnemonic::NOP => "NOP",
            Mnemonic::ORA => "ORA",
            Mnemonic::PEA => "PEA",
            Mnemonic::PEI => "PEI",
            Mnemonic::PER => "PER",
            Mnemonic::PHA => "PHA",
            Mnemonic::PHB => "PHB",
            Mnemonic::PHD => "PHD",
            Mnemonic::PHK => "PHK",
            Mnemonic::PHP => "PHP",
            Mnemonic::PHX => "PHX",
            Mnemonic::PHY => "PHY",
            Mnemonic::PLA => "PLA",
            Mnemonic::PLB => "PLB",
            Mnemonic::PLD => "PLD",
            Mnemonic::PLP => "PLP",
            Mnemonic::PLX => "PLX",
            Mnemonic::PLY => "PLY",
            Mnemonic::REP => "REP",
            Mnemonic::ROL => "ROL",
            Mnemonic::ROR => "ROR",
            Mnemonic::RTI => "RTI",
            Mnemonic::RTL => "RTL",
            Mnemonic::RTS => "RTS",
            Mnemonic::SBC => "SBC",
            Mnemonic::SEC => "SEC",
            Mnemonic::SED => "SED",
            Mnemonic::SEI => "SEI",
            Mnemonic::SEP => "SEP",
            Mnemonic::STA => "STA",
            Mnemonic::STP => "STP",
            Mnemonic::STX => "STX",
            Mnemonic::STY => "STY",
            Mnemonic::STZ => "STZ",
            Mnemonic::TAX => "TAX",
            Mnemonic::TAY => "TAY",
            Mnemonic::TCD => "TCD",
            Mnemonic::TCS => "TCS",
            Mnemonic::TDC => "TDC",
            Mnemonic::TRB => "TRB",
            Mnemonic::TSB => "TSB",
            Mnemonic::TSC => "TSC",
            Mnemonic::TSX => "TSX",
            Mnemonic::TXA => "TXA",
            Mnemonic::TXS => "TXS",
            Mnemonic::TXY => "TXY",
            Mnemonic::TYA => "TYA",
            Mnemonic::TYX => "TYX",
            Mnemonic::WAI => "WAI",
            Mnemonic::WDM => "WDM",
            Mnemonic::XBA => "XBA",
            Mnemonic::XCE => "XCE",
        }
    }
}

/// One entry of the catalog.
#[derive(Debug, Clone, Copy, PartialEq, Eq, Structural)]
pub struct Opcode {
    pub name: Mnemonic,
    pub addr_mode: AddrMode,
}

/// The catalog itself, as a function of the opcode byte.
pub open spec fn opcode_table(byte: u8) -> Opcode {
    match byte {
        0x00u8 => Opcode { name: Mnemonic::BRK, addr_mode: AddrMode::ImmediateByte },
        0x01u8 => Opcode { name: Mnemonic::ORA, addr_mode: AddrMode::DirectIndexedIndirect },
        0x02u8 => Opcode { name: Mnemonic::COP, addr_mode: AddrMode::ImmediateByte },
        0x03u8 => Opcode { name: Mnemonic::ORA, addr_mode: AddrMode::StackRelative },
        0x04u8 => Opcode { name: Mnemonic::TSB, addr_mode: AddrMode::Direct },
        0x05u8 => Opcode { name: Mnemonic::ORA, addr_mode: AddrMode::Direct },
        0x06u8 => Opcode { name: Mnemonic::ASL, addr_mode: AddrMode::Direct },
        0x07u8 => Opcode { name: Mnemonic::ORA, addr_mode: AddrMode::DirectIndirectLong },
        0x08u8 => Opcode { name: Mnemonic::PHP, addr_mode: AddrMode::Implied },
        0x09u8 => Opcode { name: Mnemonic::ORA, addr_mode: AddrMode::Immediate },
        0x0Au8 => Opcode { name: Mnemonic::ASL, addr_mode: AddrMode::Implied },
        0x0Bu8 => Opcode { name: Mnemonic::PHD, addr_mode: AddrMode::Implied },
        0x0Cu8 => Opcode { name: Mnemonic::TSB, addr_mode: AddrMode::Absolute },
        0x0Du8 => Opcode { name: Mnemonic::ORA, addr_mode: AddrMode::Absolute },
        0x0Eu8 => Opcode { name: Mnemonic::ASL, addr_mode: AddrMode::Absolute },
        0x0Fu8 => Opcode { name: Mnemonic::ORA, addr_mode: AddrMode::AbsoluteLong },
        0x10u8 => Opcode { name: Mnemonic::BPL, addr_mode: AddrMode::Relative },
        0x11u8 => Opcode { name: Mnemonic::ORA, addr_mode: AddrMode::DirectIndirectIndexed },
        0x12u8 => Opcode { name: Mnemonic::ORA, addr_mode: AddrMode::DirectIndirect },
        0x13u8 => Opcode { name: Mnemonic::ORA, addr_mode: AddrMode::StackRelativeIndirectIndexed },
        0x14u8 => Opcode { name: Mnemonic::TRB, addr_mode: AddrMode::Direct },
        0x15u8 => Opcode { name: Mnemonic::ORA, addr_mode: AddrMode::DirectIndexedX },
        0x16u8 => Opcode { name: Mnemonic::ASL, addr_mode: AddrMode::DirectIndexedX },
        0x17u8 => Opcode { name: Mnemonic::ORA, addr_mode: AddrMode::DirectIndirectIndexedLong },
        0x18u8 => Opcode { name: Mnemonic::CLC, addr_mode: AddrMode::Implied },
        0x19u8 => Opcode { name: Mnemonic::ORA, addr_mode: AddrMode::AbsoluteIndexedY },
        0x1Au8 => Opcode { name: Mnemonic::INC, addr_mode: AddrMode::Implied },
        0x1Bu8 => Opcode { name: Mnemonic::TCS, addr_mode: AddrMode::Implied },
        0x1Cu8 => Opcode { name: Mnemonic::TRB, addr_mode: AddrMode::Absolute },
        0x1Du8 => Opcode { name: Mnemonic::ORA, addr_mode: AddrMode::AbsoluteIndexedX },
        0x1Eu8 => Opcode { name: Mnemonic::ASL, addr_mode: AddrMode::AbsoluteIndexedX },
        0x1Fu8 => Opcode { name: Mnemonic::ORA, addr_mode: AddrMode::AbsoluteIndexedLong },
        0x20u8 => Opcode { name: Mnemonic::JSR, addr_mode: AddrMode::Absolute },
        0x21u8 => Opcode { name: Mnemonic::AND, addr_mode: AddrMode::DirectIndexedIndirect },
        0x22u8 => Opcode { name: Mnemonic::JSL, addr_mode: AddrMode::AbsoluteLong },
        0x23u8 => Opcode { name: Mnemonic::AND, addr_mode: AddrMode::StackRelative },
        0x24u8 => Opcode { name: Mnemonic::BIT, addr_mode: AddrMode::Direct },
        0x25u8 => Opcode { name: Mnemonic::AND, addr_mode: AddrMode::Direct },
        0x26u8 => Opcode { name: Mnemonic::ROL, addr_mode: AddrMode::Direct },
        0x27u8 => Opcode { name: Mnemonic::AND, addr_mode: AddrMode::DirectIndirectLong },
        0x28u8 => Opcode { name: Mnemonic::PLP, addr_mode: AddrMode::Implied },
        0x29u8 => Opcode { name: Mnemonic::AND, addr_mode: AddrMode::Immediate },
        0x2Au8 => Opcode { name: Mnemonic::ROL, addr_mode: AddrMode::Implied },
        0x2Bu8 => Opcode { name: Mnemonic::PLD, addr_mode: AddrMode::Implied },
        0x2Cu8 => Opcode { name: Mnemonic::BIT, addr_mode: AddrMode::Absolute },
        0x2Du8 => Opcode { name: Mnemonic::AND, addr_mode: AddrMode::Absolute },
        0x2Eu8 => Opcode { name: Mnemonic::ROL, addr_mode: AddrMode::Absolute },
        0x2Fu8 => Opcode { name: Mnemonic::AND, addr_mode: AddrMode::AbsoluteLong },
        0x30u8 => Opcode { name: Mnemonic::BMI, addr_mode: AddrMode::Relative },
        0x31u8 => Opcode { name: Mnemonic::AND, addr_mode: AddrMode::DirectIndirectIndexed },
        0x32u8 => Opcode { name: Mnemonic::AND, addr_mode: AddrMode::DirectIndirect },
        0x33u8 => Opcode { name: Mnemonic::AND, addr_mode: AddrMode::StackRelativeIndirectIndexed },
        0x34u8 => Opcode { name: Mnemonic::BIT, addr_mode: AddrMode::DirectIndexedX },
        0x35u8 => Opcode { name: Mnemonic::AND, addr_mode: AddrMode::DirectIndexedX },
        0x36u8 => Opcode { name: Mnemonic::ROL, addr_mode: AddrMode::DirectIndexedX },
        0x37u8 => Opcode { name: Mnemonic::AND, addr_mode: AddrMode::DirectIndirectIndexedLong },
        0x38u8 => Opcode { name: Mnemonic::SEC, addr_mode: AddrMode::Implied },
        0x39u8 => Opcode { name: Mnemonic::AND, addr_mode: AddrMode::AbsoluteIndexedY },
        0x3Au8 => Opcode { name: Mnemonic::DEC, addr_mode: AddrMode::Implied },
        0x3Bu8 => Opcode { name: Mnemonic::TSC, addr_mode: AddrMode::Implied },
        0x3Cu8 => Opcode { name: Mnemonic::BIT, addr_mode: AddrMode::AbsoluteIndexedX },
        0x3Du8 => Opcode { name: Mnemonic::AND, addr_mode: AddrMode::AbsoluteIndexedX },
        0x3Eu8 => Opcode { name: Mnemonic::ROL, addr_mode: AddrMode::AbsoluteIndexedX },
        0x3Fu8 => Opcode { name: Mnemonic::AND, addr_mode: AddrMode::AbsoluteIndexedLong },
        0x40u8 => Opcode { name: Mnemonic::RTI, addr_mode: AddrMode::Implied },
        0x41u8 => Opcode { name: Mnemonic::EOR, addr_mode: AddrMode::DirectIndexedIndirect },
        0x42u8 => Opcode { name: Mnemonic::WDM, addr_mode: AddrMode::ImmediateByte },
        0x43u8 => Opcode { name: Mnemonic::EOR, addr_mode: AddrMode::StackRelative },
        0x44u8 => Opcode { name: Mnemonic::MVP, addr_mode: AddrMode::BlockMove },
        0x45u8 => Opcode { name: Mnemonic::EOR, addr_mode: AddrMode::Direct },
        0x46u8 => Opcode { name: Mnemonic::LSR, addr_mode: AddrMode::Direct },
        0x47u8 => Opcode { name: Mnemonic::EOR, addr_mode: AddrMode::DirectIndirectLong },
        0x48u8 => Opcode { name: Mnemonic::PHA, addr_mode: AddrMode::Implied },
        0x49u8 => Opcode { name: Mnemonic::EOR, addr_mode: AddrMode::Immediate },
        0x4Au8 => Opcode { name: Mnemonic::LSR, addr_mode: AddrMode::Implied },
        0x4Bu8 => Opcode { name: Mnemonic::PHK, addr_mode: AddrMode::Implied },
        0x4Cu8 => Opcode { name: Mnemonic::JMP, addr_mode: AddrMode::Absolute },
        0x4Du8 => Opcode { name: Mnemonic::EOR, addr_mode: AddrMode::Absolute },
        0x4Eu8 => Opcode { name: Mnemonic::LSR, addr_mode: AddrMode::Absolute },
        0x4Fu8 => Opcode { name: Mnemonic::EOR, addr_mode: AddrMode::AbsoluteLong },
        0x50u8 => Opcode { name: Mnemonic::BVC, addr_mode: AddrMode::Relative },
        0x51u8 => Opcode { name: Mnemonic::EOR, addr_mode: AddrMode::DirectIndirectIndexed },
        0x52u8 => Opcode { name: Mnemonic::EOR, addr_mode: AddrMode::DirectIndirect },
        0x53u8 => Opcode { name: Mnemonic::EOR, addr_mode: AddrMode::StackRelativeIndirectIndexed },
        0x54u8 => Opcode { name: Mnemonic::MVN, addr_mode: AddrMode::BlockMove },
        0x55u8 => Opcode { name: Mnemonic::EOR, addr_mode: AddrMode::DirectIndexedX },
        0x56u8 => Opcode { name: Mnemonic::LSR, addr_mode: AddrMode::DirectIndexedX },
        0x57u8 => Opcode { name: Mnemonic::EOR, addr_mode: AddrMode::DirectIndirectIndexedLong },
        0x58u8 => Opcode { name: Mnemonic::CLI, addr_mode: AddrMode::Implied },
        0x59u8 => Opcode { name: Mnemonic::EOR, addr_mode: AddrMode::AbsoluteIndexedY },
        0x5Au8 => Opcode { name: Mnemonic::PHY, addr_mode: AddrMode::Implied },
        0x5Bu8 => Opcode { name: Mnemonic::TCD, addr_mode: AddrMode::Implied },
        0x5Cu8 => Opcode { name: Mnemonic::JML, addr_mode: AddrMode::AbsoluteLong },
        0x5Du8 => Opcode { name: Mnemonic::EOR, addr_mode: AddrMode::AbsoluteIndexedX },
        0x5Eu8 => Opcode { name: Mnemonic::LSR, addr_mode: AddrMode::AbsoluteIndexedX },
        0x5Fu8 => Opcode { name: Mnemonic::EOR, addr_mode: AddrMode::AbsoluteIndexedLong },
        0x60u8 => Opcode { name: Mnemonic::RTS, addr_mode: AddrMode::Implied },
        0x61u8 => Opcode { name: Mnemonic::ADC, addr_mode: AddrMode::DirectIndexedIndirect },
        0x62u8 => Opcode { name: Mnemonic::PER, addr_mode: AddrMode::RelativeLong },
        0x63u8 => Opcode { name: Mnemonic::ADC, addr_mode: AddrMode::StackRelative },
        0x64u8 => Opcode { name: Mnemonic::STZ, addr_mode: AddrMode::Direct },
        0x65u8 => Opcode { name: Mnemonic::ADC, addr_mode: AddrMode::Direct },
        0x66u8 => Opcode { name: Mnemonic::ROR, addr_mode: AddrMode::Direct },
        0x67u8 => Opcode { name: Mnemonic::ADC, addr_mode: AddrMode::DirectIndirectLong },
        0x68u8 => Opcode { name: Mnemonic::PLA, addr_mode: AddrMode::Implied },
        0x69u8 => Opcode { name: Mnemonic::ADC, addr_mode: AddrMode::Immediate },
        0x6Au8 => Opcode { name: Mnemonic::ROR, addr_mode: AddrMode::Implied },
        0x6Bu8 => Opcode { name: Mnemonic::RTL, addr_mode: AddrMode::Implied },
        0x6Cu8 => Opcode { name: Mnemonic::JMP, addr_mode: AddrMode::AbsoluteIndirect },
        0x6Du8 => Opcode { name: Mnemonic::ADC, addr_mode: AddrMode::Absolute },
        0x6Eu8 => Opcode { name: Mnemonic::ROR, addr_mode: AddrMode::Absolute },
        0x6Fu8 => Opcode { name: Mnemonic::ADC, addr_mode: AddrMode::AbsoluteLong },
        0x70u8 => Opcode { name: Mnemonic::BVS, addr_mode: AddrMode::Relative },
        0x71u8 => Opcode { name: Mnemonic::ADC, addr_mode: AddrMode::DirectIndirectIndexed },
        0x72u8 => Opcode { name: Mnemonic::ADC, addr_mode: AddrMode::DirectIndirect },
        0x73u8 => Opcode { name: Mnemonic::ADC, addr_mode: AddrMode::StackRelativeIndirectIndexed },
        0x74u8 => Opcode { name: Mnemonic::STZ, addr_mode: AddrMode::DirectIndexedX },
        0x75u8 => Opcode { name: Mnemonic::ADC, addr_mode: AddrMode::DirectIndexedX },
        0x76u8 => Opcode { name: Mnemonic::ROR, addr_mode: AddrMode::DirectIndexedX },
        0x77u8 => Opcode { name: Mnemonic::ADC, addr_mode: AddrMode::DirectIndirectIndexedLong },
        0x78u8 => Opcode { name: Mnemonic::SEI, addr_mode: AddrMode::Implied },
        0x79u8 => Opcode { name: Mnemonic::ADC, addr_mode: AddrMode::AbsoluteIndexedY },
        0x7Au8 => Opcode { name: Mnemonic::PLY, addr_mode: AddrMode::Implied },
        0x7Bu8 => Opcode { name: Mnemonic::TDC, addr_mode: AddrMode::Implied },
        0x7Cu8 => Opcode { name: Mnemonic::JMP, addr_mode: AddrMode::AbsoluteIndexedIndirect },
        0x7Du8 => Opcode { name: Mnemonic::ADC, addr_mode: AddrMode::AbsoluteIndexedX },
        0x7Eu8 => Opcode { name: Mnemonic::ROR, addr_mode: AddrMode::AbsoluteIndexedX },
        0x7Fu8 => Opcode { name: Mnemonic::ADC, addr_mode: AddrMode::AbsoluteIndexedLong },
        0x80u8 => Opcode { name: Mnemonic::BRA, addr_mode: AddrMode::Relative },
        0x81u8 => Opcode { name: Mnemonic::STA, addr_mode: AddrMode::DirectIndexedIndirect },
        0x82u8 => Opcode { name: Mnemonic::BRL, addr_mode: AddrMode::RelativeLong },
        0x83u8 => Opcode { name: Mnemonic::STA, addr_mode: AddrMode::StackRelative },
        0x84u8 => Opcode { name: Mnemonic::STY, addr_mode: AddrMode::Direct },
        0x85u8 => Opcode { name: Mnemonic::STA, addr_mode: AddrMode::Direct },
        0x86u8 => Opcode { name: Mnemonic::STX, addr_mode: AddrMode::Direct },
        0x87u8 => Opcode { name: Mnemonic::STA, addr_mode: AddrMode::DirectIndirectLong },
        0x88u8 => Opcode { name: Mnemonic::DEY, addr_mode: AddrMode::Implied },
        0x89u8 => Opcode { name: Mnemonic::BIT, addr_mode: AddrMode::Immediate },
        0x8Au8 => Opcode { name: Mnemonic::TXA, addr_mode: AddrMode::Implied },
        0x8Bu8 => Opcode { name: Mnemonic::PHB, addr_mode: AddrMode::Implied },
        0x8Cu8 => Opcode { name: Mnemonic::STY, addr_mode: AddrMode::Absolute },
        0x8Du8 => Opcode { name: Mnemonic::STA, addr_mode: AddrMode::Absolute },
        0x8Eu8 => Opcode { name: Mnemonic::STX, addr_mode: AddrMode::Absolute },
        0x8Fu8 => Opcode { name: Mnemonic::STA, addr_mode: AddrMode::AbsoluteLong },
        0x90u8 => Opcode { name: Mnemonic::BCC, addr_mode: AddrMode::Relative },
        0x91u8 => Opcode { name: Mnemonic::STA, addr_mode: AddrMode::DirectIndirectIndexed },
        0x92u8 => Opcode { name: Mnemonic::STA, addr_mode: AddrMode::DirectIndirect },
        0x93u8 => Opcode { name: Mnemonic::STA, addr_mode: AddrMode::StackRelativeIndirectIndexed },
        0x94u8 => Opcode { name: Mnemonic::STY, addr_mode: AddrMode::DirectIndexedX },
        0x95u8 => Opcode { name: Mnemonic::STA, addr_mode: AddrMode::DirectIndexedX },
        0x96u8 => Opcode { name: Mnemonic::STX, addr_mode: AddrMode::DirectIndexedY },
        0x97u8 => Opcode { name: Mnemonic::STA, addr_mode: AddrMode::DirectIndirectIndexedLong },
        0x98u8 => Opcode { name: Mnemonic::TYA, addr_mode: AddrMode::Implied },
        0x99u8 => Opcode { name: Mnemonic::STA, addr_mode: AddrMode::AbsoluteIndexedY },
        0x9Au8 => Opcode { name: Mnemonic::TXS, addr_mode: AddrMode::Implied },
        0x9Bu8 => Opcode { name: Mnemonic::TXY, addr_mode: AddrMode::Implied },
        0x9Cu8 => Opcode { name: Mnemonic::STZ, addr_mode: AddrMode::Absolute },
        0x9Du8 => Opcode { name: Mnemonic::STA, addr_mode: AddrMode::AbsoluteIndexedX },
        0x9Eu8 => Opcode { name: Mnemonic::STZ, addr_mode: AddrMode::AbsoluteIndexedX },
        0x9Fu8 => Opcode { name: Mnemonic::STA, addr_mode: AddrMode::AbsoluteIndexedLong },
        0xA0u8 => Opcode { name: Mnemonic::LDY, addr_mode: AddrMode::Immediate },
        0xA1u8 => Opcode { name: Mnemonic::LDA, addr_mode: AddrMode::DirectIndexedIndirect },
        0xA2u8 => Opcode { name: Mnemonic::LDX, addr_mode: AddrMode::Immediate },
        0xA3u8 => Opcode { name: Mnemonic::LDA, addr_mode: AddrMode::StackRelative },
        0xA4u8 => Opcode { name: Mnemonic::LDY, addr_mode: AddrMode::Direct },
        0xA5u8 => Opcode { name: Mnemonic::LDA, addr_mode: AddrMode::Direct },
        0xA6u8 => Opcode { name: Mnemonic::LDX, addr_mode: AddrMode::Direct },
        0xA7u8 => Opcode { name: Mnemonic::LDA, addr_mode: AddrMode::DirectIndirectLong },
        0xA8u8 => Opcode { name: Mnemonic::TAY, addr_mode: AddrMode::Implied },
        0xA9u8 => Opcode { name: Mnemonic::LDA, addr_mode: AddrMode::Immediate },
        0xAAu8 => Opcode { name: Mnemonic::TAX, addr_mode: AddrMode::Implied },
        0xABu8 => Opcode { name: Mnemonic::PLB, addr_mode: AddrMode::Implied },
        0xACu8 => Opcode { name: Mnemonic::LDY, addr_mode: AddrMode::Absolute },
        0xADu8 => Opcode { name: Mnemonic::LDA, addr_mode: AddrMode::Absolute },
        0xAEu8 => Opcode { name: Mnemonic::LDX, addr_mode: AddrMode::Absolute },
        0xAFu8 => Opcode { name: Mnemonic::LDA, addr_mode: AddrMode::AbsoluteLong },
        0xB0u8 => Opcode { name: Mnemonic::BCS, addr_mode: AddrMode::Relative },
        0xB1u8 => Opcode { name: Mnemonic::LDA, addr_mode: AddrMode::DirectIndirectIndexed },
        0xB2u8 => Opcode { name: Mnemonic::LDA, addr_mode: AddrMode::DirectIndirect },
        0xB3u8 => Opcode { name: Mnemonic::LDA, addr_mode: AddrMode::StackRelativeIndirectIndexed },
        0xB4u8 => Opcode { name: Mnemonic::LDY, addr_mode: AddrMode::DirectIndexedX },
        0xB5u8 => Opcode { name: Mnemonic::LDA, addr_mode: AddrMode::DirectIndexedX },
        0xB6u8 => Opcode { name: Mnemonic::LDX, addr_mode: AddrMode::DirectIndexedY },
        0xB7u8 => Opcode { name: Mnemonic::LDA, addr_mode: AddrMode::DirectIndirectIndexedLong },
        0xB8u8 => Opcode { name: Mnemonic::CLV, addr_mode: AddrMode::Implied },
        0xB9u8 => Opcode { name: Mnemonic::LDA, addr_mode: AddrMode::AbsoluteIndexedY },
        0xBAu8 => Opcode { name: Mnemonic::TSX, addr_mode: AddrMode::Implied },
        0xBBu8 => Opcode { name: Mnemonic::TYX, addr_mode: AddrMode::Implied },
        0xBCu8 => Opcode { name: Mnemonic::LDY, addr_mode: AddrMode::AbsoluteIndexedX },
        0xBDu8 => Opcode { name: Mnemonic::LDA, addr_mode: AddrMode::AbsoluteIndexedX },
        0xBEu8 => Opcode { name: Mnemonic::LDX, addr_mode: AddrMode::AbsoluteIndexedY },
        0xBFu8 => Opcode { name: Mnemonic::LDA, addr_mode: AddrMode::AbsoluteIndexedLong },
        0xC0u8 => Opcode { name: Mnemonic::CPY, addr_mode: AddrMode::Immediate },
        0xC1u8 => Opcode { name: Mnemonic::CMP, addr_mode: AddrMode::DirectIndexedIndirect },
        0xC2u8 => Opcode { name: Mnemonic::REP, addr_mode: AddrMode::ImmediateByte },
        0xC3u8 => Opcode { name: Mnemonic::CMP, addr_mode: AddrMode::StackRelative },
        0xC4u8 => Opcode { name: Mnemonic::CPY, addr_mode: AddrMode::Direct },
        0xC5u8 => Opcode { name: Mnemonic::CMP, addr_mode: AddrMode::Direct },
        0xC6u8 => Opcode { name: Mnemonic::DEC, addr_mode: AddrMode::Direct },
        0xC7u8 => Opcode { name: Mnemonic::CMP, addr_mode: AddrMode::DirectIndirectLong },
        0xC8u8 => Opcode { name: Mnemonic::INY, addr_mode: AddrMode::Implied },
        0xC9u8 => Opcode { name: Mnemonic::CMP, addr_mode: AddrMode::Immediate },
        0xCAu8 => Opcode { name: Mnemonic::DEX, addr_mode: AddrMode::Implied },
        0xCBu8 => Opcode { name: Mnemonic::WAI, addr_mode: AddrMode::Implied },
        0xCCu8 => Opcode { name: Mnemonic::CPY, addr_mode: AddrMode::Absolute },
        0xCDu8 => Opcode { name: Mnemonic::CMP, addr_mode: AddrMode::Absolute },
        0xCEu8 => Opcode { name: Mnemonic::DEC, addr_mode: AddrMode::Absolute },
        0xCFu8 => Opcode { name: Mnemonic::CMP, addr_mode: AddrMode::AbsoluteLong },
        0xD0u8 => Opcode { name: Mnemonic::BNE, addr_mode: AddrMode::Relative },
        0xD1u8 => Opcode { name: Mnemonic::CMP, addr_mode: AddrMode::DirectIndirectIndexed },
        0xD2u8 => Opcode { name: Mnemonic::CMP, addr_mode: AddrMode::DirectIndirect },
        0xD3u8 => Opcode { name: Mnemonic::CMP, addr_mode: AddrMode::StackRelativeIndirectIndexed },
        0xD4u8 => Opcode { name: Mnemonic::PEI, addr_mode: AddrMode::DirectIndirect },
        0xD5u8 => Opcode { name: Mnemonic::CMP, addr_mode: AddrMode::DirectIndexedX },
        0xD6u8 => Opcode { name: Mnemonic::DEC, addr_mode: AddrMode::DirectIndexedX },
        0xD7u8 => Opcode { name: Mnemonic::CMP, addr_mode: AddrMode::DirectIndirectIndexedLong },
        0xD8u8 => Opcode { name: Mnemonic::CLD, addr_mode: AddrMode::Implied },
        0xD9u8 => Opcode { name: Mnemonic::CMP, addr_mode: AddrMode::AbsoluteIndexedY },
        0xDAu8 => Opcode { name: Mnemonic::PHX, addr_mode: AddrMode::Implied },
        0xDBu8 => Opcode { name: Mnemonic::STP, addr_mode: AddrMode::Implied },
        0xDCu8 => Opcode { name: Mnemonic::JML, addr_mode: AddrMode::AbsoluteIndirectLong },
        0xDDu8 => Opcode { name: Mnemonic::CMP, addr_mode: AddrMode::AbsoluteIndexedX },
        0xDEu8 => Opcode { name: Mnemonic::DEC, addr_mode: AddrMode::AbsoluteIndexedX },
        0xDFu8 => Opcode { name: Mnemonic::CMP, addr_mode: AddrMode::AbsoluteIndexedLong },
        0xE0u8 => Opcode { name: Mnemonic::CPX, addr_mode: AddrMode::Immediate },
        0xE1u8 => Opcode { name: Mnemonic::SBC, addr_mode: AddrMode::DirectIndexedIndirect },
        0xE2u8 => Opcode { name: Mnemonic::SEP, addr_mode: AddrMode::ImmediateByte },
        0xE3u8 => Opcode { name: Mnemonic::SBC, addr_mode: AddrMode::StackRelative },
        0xE4u8 => Opcode { name: Mnemonic::CPX, addr_mode: AddrMode::Direct },
        0xE5u8 => Opcode { name: Mnemonic::SBC, addr_mode: AddrMode::Direct },
        0xE6u8 => Opcode { name: Mnemonic::INC, addr_mode: AddrMode::Direct },
        0xE7u8 => Opcode { name: Mnemonic::SBC, addr_mode: AddrMode::DirectIndirectLong },
        0xE8u8 => Opcode { name: Mnemonic::INX, addr_mode: AddrMode::Implied },
        0xE9u8 => Opcode { name: Mnemonic::SBC, addr_mode: AddrMode::Immediate },
        0xEAu8 => Opcode { name: Mnemonic::NOP, addr_mode: AddrMode::Implied },
        0xEBu8 => Opcode { name: Mnemonic::XBA, addr_mode: AddrMode::Implied },
        0xECu8 => Opcode { name: Mnemonic::CPX, addr_mode: AddrMode::Absolute },
        0xEDu8 => Opcode { name: Mnemonic::SBC, addr_mode: AddrMode::Absolute },
        0xEEu8 => Opcode { name: Mnemonic::INC, addr_mode: AddrMode::Absolute },
        0xEFu8 => Opcode { name: Mnemonic::SBC, addr_mode: AddrMode::AbsoluteLong },
        0xF0u8 => Opcode { name: Mnemonic::BEQ, addr_mode: AddrMode::Relative },
        0xF1u8 => Opcode { name: Mnemonic::SBC, addr_mode: AddrMode::DirectIndirectIndexed },
        0xF2u8 => Opcode { name: Mnemonic::SBC, addr_mode: AddrMode::DirectIndirect },
        0xF3u8 => Opcode { name: Mnemonic::SBC, addr_mode: AddrMode::StackRelativeIndirectIndexed },
        0xF4u8 => Opcode { name: Mnemonic::PEA, addr_mode: AddrMode::Absolute },
        0xF5u8 => Opcode { name: Mnemonic::SBC, addr_mode: AddrMode::DirectIndexedX },
        0xF6u8 => Opcode { name: Mnemonic::INC, addr_mode: AddrMode::DirectIndexedX },
        0xF7u8 => Opcode { name: Mnemonic::SBC, addr_mode: AddrMode::DirectIndirectIndexedLong },
        0xF8u8 => Opcode { name: Mnemonic::SED, addr_mode: AddrMode::Implied },
        0xF9u8 => Opcode { name: Mnemonic::SBC, addr_mode: AddrMode::AbsoluteIndexedY },
        0xFAu8 => Opcode { name: Mnemonic::PLX, addr_mode: AddrMode::Implied },
        0xFBu8 => Opcode { name: Mnemonic::XCE, addr_mode: AddrMode::Implied },
        0xFCu8 => Opcode { name: Mnemonic::JSR, addr_mode: AddrMode::AbsoluteIndexedIndirect },
        0xFDu8 => Opcode { name: Mnemonic::SBC, addr_mode: AddrMode::AbsoluteIndexedX },
        0xFEu8 => Opcode { name: Mnemonic::INC, addr_mode: AddrMode::AbsoluteIndexedX },
        0xFFu8 => Opcode { name: Mnemonic::SBC, addr_mode: AddrMode::AbsoluteIndexedLong },
    }
}

impl Opcode {
    /// Looks an opcode byte up in the catalog.
    pub fn from_byte(byte: u8) -> (r: Opcode)
        ensures
            r == opcode_table(byte),
    {
        match byte {
            0x00u8 => Opcode { name: Mnemonic::BRK, addr_mode: AddrMode::ImmediateByte },
            0x01u8 => Opcode { name: Mnemonic::ORA, addr_mode: AddrMode::DirectIndexedIndirect },
            0x02u8 => Opcode { name: Mnemonic::COP, addr_mode: AddrMode::ImmediateByte },
            0x03u8 => Opcode { name: Mnemonic::ORA, addr_mode: AddrMode::StackRelative },
            0x04u8 => Opcode { name: Mnemonic::TSB, addr_mode: AddrMode::Direct },
            0x05u8 => Opcode { name: Mnemonic::ORA, addr_mode: AddrMode::Direct },
            0x06u8 => Opcode { name: Mnemonic::ASL, addr_mode: AddrMode::Direct },
            0x07u8 => Opcode { name: Mnemonic::ORA, addr_mode: AddrMode::DirectIndirectLong },
            0x08u8 => Opcode { name: Mnemonic::PHP, addr_mode: AddrMode::Implied },
            0x09u8 => Opcode { name: Mnemonic::ORA, addr_mode: AddrMode::Immediate },
            0x0Au8 => Opcode { name: Mnemonic::ASL, addr_mode: AddrMode::Implied },
            0x0Bu8 => Opcode { name: Mnemonic::PHD, addr_mode: AddrMode::Implied },
            0x0Cu8 => Opcode { name: Mnemonic::TSB, addr_mode: AddrMode::Absolute },
            0x0Du8 => Opcode { name: Mnemonic::ORA, addr_mode: AddrMode::Absolute },
            0x0Eu8 => Opcode { name: Mnemonic::ASL, addr_mode: AddrMode::Absolute },
            0x0Fu8 => Opcode { name: Mnemonic::ORA, addr_mode: AddrMode::AbsoluteLong },
            0x10u8 => Opcode { name: Mnemonic::BPL, addr_mode: AddrMode::Relative },
            0x11u8 => Opcode { name: Mnemonic::ORA, addr_mode: AddrMode::DirectIndirectIndexed },
            0x12u8 => Opcode { name: Mnemonic::ORA, addr_mode: AddrMode::DirectIndirect },
            0x13u8 => Opcode {
                name: Mnemonic::ORA,
                addr_mode: AddrMode::StackRelativeIndirectIndexed,
            },
            0x14u8 => Opcode { name: Mnemonic::TRB, addr_mode: AddrMode::Direct },
            0x15u8 => Opcode { name: Mnemonic::ORA, addr_mode: AddrMode::DirectIndexedX },
            0x16u8 => Opcode { name: Mnemonic::ASL, addr_mode: AddrMode::DirectIndexedX },
            0x17u8 => Opcode {
                name: Mnemonic::ORA,
                addr_mode: AddrMode::DirectIndirectIndexedLong,
            },
            0x18u8 => Opcode { name: Mnemonic::CLC, addr_mode: AddrMode::Implied },
            0x19u8 => Opcode { name: Mnemonic::ORA, addr_mode: AddrMode::AbsoluteIndexedY },
            0x1Au8 => Opcode { name: Mnemonic::INC, addr_mode: AddrMode::Implied },
            0x1Bu8 => Opcode { name: Mnemonic::TCS, addr_mode: AddrMode::Implied },
            0x1Cu8 => Opcode { name: Mnemonic::TRB, addr_mode: AddrMode::Absolute },
            0x1Du8 => Opcode { name: Mnemonic::ORA, addr_mode: AddrMode::AbsoluteIndexedX },
            0x1Eu8 => Opcode { name: Mnemonic::ASL, addr_mode: AddrMode::AbsoluteIndexedX },
            0x1Fu8 => Opcode { name: Mnemonic::ORA, addr_mode: AddrMode::AbsoluteIndexedLong },
            0x20u8 => Opcode { name: Mnemonic::JSR, addr_mode: AddrMode::Absolute },
            0x21u8 => Opcode { name: Mnemonic::AND, addr_mode: AddrMode::DirectIndexedIndirect },
            0x22u8 => Opcode { name: Mnemonic::JSL, addr_mode: AddrMode::AbsoluteLong },
            0x23u8 => Opcode { name: Mnemonic::AND, addr_mode: AddrMode::StackRelative },
            0x24u8 => Opcode { name: Mnemonic::BIT, addr_mode: AddrMode::Direct },
            0x25u8 => Opcode { name: Mnemonic::AND, addr_mode: AddrMode::Direct },
            0x26u8 => Opcode { name: Mnemonic::ROL, addr_mode: AddrMode::Direct },
            0x27u8 => Opcode { name: Mnemonic::AND, addr_mode: AddrMode::DirectIndirectLong },
            0x28u8 => Opcode { name: Mnemonic::PLP, addr_mode: AddrMode::Implied },
            0x29u8 => Opcode { name: Mnemonic::AND, addr_mode: AddrMode::Immediate },
            0x2Au8 => Opcode { name: Mnemonic::ROL, addr_mode: AddrMode::Implied },
            0x2Bu8 => Opcode { name: Mnemonic::PLD, addr_mode: AddrMode::Implied },
            0x2Cu8 => Opcode { name: Mnemonic::BIT, addr_mode: AddrMode::Absolute },
            0x2Du8 => Opcode { name: Mnemonic::AND, addr_mode: AddrMode::Absolute },
            0x2Eu8 => Opcode { name: Mnemonic::ROL, addr_mode: AddrMode::Absolute },
            0x2Fu8 => Opcode { name: Mnemonic::AND, addr_mode: AddrMode::AbsoluteLong },
            0x30u8 => Opcode { name: Mnemonic::BMI, addr_mode: AddrMode::Relative },
            0x31u8 => Opcode { name: Mnemonic::AND, addr_mode: AddrMode::DirectIndirectIndexed },
            0x32u8 => Opcode { name: Mnemonic::AND, addr_mode: AddrMode::DirectIndirect },
            0x33u8 => Opcode {
                name: Mnemonic::AND,
                addr_mode: AddrMode::StackRelativeIndirectIndexed,
            },
            0x34u8 => Opcode { name: Mnemonic::BIT, addr_mode: AddrMode::DirectIndexedX },
            0x35u8 => Opcode { name: Mnemonic::AND, addr_mode: AddrMode::DirectIndexedX },
            0x36u8 => Opcode { name: Mnemonic::ROL, addr_mode: AddrMode::DirectIndexedX },
            0x37u8 => Opcode {
                name: Mnemonic::AND,
                addr_mode: AddrMode::DirectIndirectIndexedLong,
            },
            0x38u8 => Opcode { name: Mnemonic::SEC, addr_mode: AddrMode::Implied },
            0x39u8 => Opcode { name: Mnemonic::AND, addr_mode: AddrMode::AbsoluteIndexedY },
            0x3Au8 => Opcode { name: Mnemonic::DEC, addr_mode: AddrMode::Implied },
            0x3Bu8 => Opcode { name: Mnemonic::TSC, addr_mode: AddrMode::Implied },
            0x3Cu8 => Opcode { name: Mnemonic::BIT, addr_mode: AddrMode::AbsoluteIndexedX },
            0x3Du8 => Opcode { name: Mnemonic::AND, addr_mode: AddrMode::AbsoluteIndexedX },
            0x3Eu8 => Opcode { name: Mnemonic::ROL, addr_mode: AddrMode::AbsoluteIndexedX },
            0x3Fu8 => Opcode { name: Mnemonic::AND, addr_mode: AddrMode::AbsoluteIndexedLong },
            0x40u8 => Opcode { name: Mnemonic::RTI, addr_mode: AddrMode::Implied },
            0x41u8 => Opcode { name: Mnemonic::EOR, addr_mode: AddrMode::DirectIndexedIndirect },
            0x42u8 => Opcode { name: Mnemonic::WDM, addr_mode: AddrMode::ImmediateByte },
            0x43u8 => Opcode { name: Mnemonic::EOR, addr_mode: AddrMode::StackRelative },
            0x44u8 => Opcode { name: Mnemonic::MVP, addr_mode: AddrMode::BlockMove },
            0x45u8 => Opcode { name: Mnemonic::EOR, addr_mode: AddrMode::Direct },
            0x46u8 => Opcode { name: Mnemonic::LSR, addr_mode: AddrMode::Direct },
            0x47u8 => Opcode { name: Mnemonic::EOR, addr_mode: AddrMode::DirectIndirectLong },
            0x48u8 => Opcode { name: Mnemonic::PHA, addr_mode: AddrMode::Implied },
            0x49u8 => Opcode { name: Mnemonic::EOR, addr_mode: AddrMode::Immediate },
            0x4Au8 => Opcode { name: Mnemonic::LSR, addr_mode: AddrMode::Implied },
            0x4Bu8 => Opcode { name: Mnemonic::PHK, addr_mode: AddrMode::Implied },
            0x4Cu8 => Opcode { name: Mnemonic::JMP, addr_mode: AddrMode::Absolute },
            0x4Du8 => Opcode { name: Mnemonic::EOR, addr_mode: AddrMode::Absolute },
            0x4Eu8 => Opcode { name: Mnemonic::LSR, addr_mode: AddrMode::Absolute },
            0x4Fu8 => Opcode { name: Mnemonic::EOR, addr_mode: AddrMode::AbsoluteLong },
            0x50u8 => Opcode { name: Mnemonic::BVC, addr_mode: AddrMode::Relative },
            0x51u8 => Opcode { name: Mnemonic::EOR, addr_mode: AddrMode::DirectIndirectIndexed },
            0x52u8 => Opcode { name: Mnemonic::EOR, addr_mode: AddrMode::DirectIndirect },
            0x53u8 => Opcode {
                name: Mnemonic::EOR,
                addr_mode: AddrMode::StackRelativeIndirectIndexed,
            },
            0x54u8 => Opcode { name: Mnemonic::MVN, addr_mode: AddrMode::BlockMove },
            0x55u8 => Opcode { name: Mnemonic::EOR, addr_mode: AddrMode::DirectIndexedX },
            0x56u8 => Opcode { name: Mnemonic::LSR, addr_mode: AddrMode::DirectIndexedX },
            0x57u8 => Opcode {
                name: Mnemonic::EOR,
                addr_mode: AddrMode::DirectIndirectIndexedLong,
            },
            0x58u8 => Opcode { name: Mnemonic::CLI, addr_mode: AddrMode::Implied },
            0x59u8 => Opcode { name: Mnemonic::EOR, addr_mode: AddrMode::AbsoluteIndexedY },
            0x5Au8 => Opcode { name: Mnemonic::PHY, addr_mode: AddrMode::Implied },
            0x5Bu8 => Opcode { name: Mnemonic::TCD, addr_mode: AddrMode::Implied },
            0x5Cu8 => Opcode { name: Mnemonic::JML, addr_mode: AddrMode::AbsoluteLong },
            0x5Du8 => Opcode { name: Mnemonic::EOR, addr_mode: AddrMode::AbsoluteIndexedX },
            0x5Eu8 => Opcode { name: Mnemonic::LSR, addr_mode: AddrMode::AbsoluteIndexedX },
            0x5Fu8 => Opcode { name: Mnemonic::EOR, addr_mode: AddrMode::AbsoluteIndexedLong },
            0x60u8 => Opcode { name: Mnemonic::RTS, addr_mode: AddrMode::Implied },
            0x61u8 => Opcode { name: Mnemonic::ADC, addr_mode: AddrMode::DirectIndexedIndirect },
            0x62u8 => Opcode { name: Mnemonic::PER, addr_mode: AddrMode::RelativeLong },
            0x63u8 => Opcode { name: Mnemonic::ADC, addr_mode: AddrMode::StackRelative },
            0x64u8 => Opcode { name: Mnemonic::STZ, addr_mode: AddrMode::Direct },
            0x65u8 => Opcode { name: Mnemonic::ADC, addr_mode: AddrMode::Direct },
            0x66u8 => Opcode { name: Mnemonic::ROR, addr_mode: AddrMode::Direct },
            0x67u8 => Opcode { name: Mnemonic::ADC, addr_mode: AddrMode::DirectIndirectLong },
            0x68u8 => Opcode { name: Mnemonic::PLA, addr_mode: AddrMode::Implied },
            0x69u8 => Opcode { name: Mnemonic::ADC, addr_mode: AddrMode::Immediate },
            0x6Au8 => Opcode { name: Mnemonic::ROR, addr_mode: AddrMode::Implied },
            0x6Bu8 => Opcode { name: Mnemonic::RTL, addr_mode: AddrMode::Implied },
            0x6Cu8 => Opcode { name: Mnemonic::JMP, addr_mode: AddrMode::AbsoluteIndirect },
            0x6Du8 => Opcode { name: Mnemonic::ADC, addr_mode: AddrMode::Absolute },
            0x6Eu8 => Opcode { name: Mnemonic::ROR, addr_mode: AddrMode::Absolute },
            0x6Fu8 => Opcode { name: Mnemonic::ADC, addr_mode: AddrMode::AbsoluteLong },
            0x70u8 => Opcode { name: Mnemonic::BVS, addr_mode: AddrMode::Relative },
            0x71u8 => Opcode { name: Mnemonic::ADC, addr_mode: AddrMode::DirectIndirectIndexed },
            0x72u8 => Opcode { name: Mnemonic::ADC, addr_mode: AddrMode::DirectIndirect },
            0x73u8 => Opcode {
                name: Mnemonic::ADC,
                addr_mode: AddrMode::StackRelativeIndirectIndexed,
            },
            0x74u8 => Opcode { name: Mnemonic::STZ, addr_mode: AddrMode::DirectIndexedX },
            0x75u8 => Opcode { name: Mnemonic::ADC, addr_mode: AddrMode::DirectIndexedX },
            0x76u8 => Opcode { name: Mnemonic::ROR, addr_mode: AddrMode::DirectIndexedX },
            0x77u8 => Opcode {
                name: Mnemonic::ADC,
                addr_mode: AddrMode::DirectIndirectIndexedLong,
            },
            0x78u8 => Opcode { name: Mnemonic::SEI, addr_mode: AddrMode::Implied },
            0x79u8 => Opcode { name: Mnemonic::ADC, addr_mode: AddrMode::AbsoluteIndexedY },
            0x7Au8 => Opcode { name: Mnemonic::PLY, addr_mode: AddrMode::Implied },
            0x7Bu8 => Opcode { name: Mnemonic::TDC, addr_mode: AddrMode::Implied },
            0x7Cu8 => Opcode { name: Mnemonic::JMP, addr_mode: AddrMode::AbsoluteIndexedIndirect },
            0x7Du8 => Opcode { name: Mnemonic::ADC, addr_mode: AddrMode::AbsoluteIndexedX },
            0x7Eu8 => Opcode { name: Mnemonic::ROR, addr_mode: AddrMode::AbsoluteIndexedX },
            0x7Fu8 => Opcode { name: Mnemonic::ADC, addr_mode: AddrMode::AbsoluteIndexedLong },
            0x80u8 => Opcode { name: Mnemonic::BRA, addr_mode: AddrMode::Relative },
            0x81u8 => Opcode { name: Mnemonic::STA, addr_mode: AddrMode::DirectIndexedIndirect },
            0x82u8 => Opcode { name: Mnemonic::BRL, addr_mode: AddrMode::RelativeLong },
            0x83u8 => Opcode { name: Mnemonic::STA, addr_mode: AddrMode::StackRelative },
            0x84u8 => Opcode { name: Mnemonic::STY, addr_mode: AddrMode::Direct },
            0x85u8 => Opcode { name: Mnemonic::STA, addr_mode: AddrMode::Direct },
            0x86u8 => Opcode { name: Mnemonic::STX, addr_mode: AddrMode::Direct },
            0x87u8 => Opcode { name: Mnemonic::STA, addr_mode: AddrMode::DirectIndirectLong },
            0x88u8 => Opcode { name: Mnemonic::DEY, addr_mode: AddrMode::Implied },
            0x89u8 => Opcode { name: Mnemonic::BIT, addr_mode: AddrMode::Immediate },
            0x8Au8 => Opcode { name: Mnemonic::TXA, addr_mode: AddrMode::Implied },
            0x8Bu8 => Opcode { name: Mnemonic::PHB, addr_mode: AddrMode::Implied },
            0x8Cu8 => Opcode { name: Mnemonic::STY, addr_mode: AddrMode::Absolute },
            0x8Du8 => Opcode { name: Mnemonic::STA, addr_mode: AddrMode::Absolute },
            0x8Eu8 => Opcode { name: Mnemonic::STX, addr_mode: AddrMode::Absolute },
            0x8Fu8 => Opcode { name: Mnemonic::STA, addr_mode: AddrMode::AbsoluteLong },
            0x90u8 => Opcode { name: Mnemonic::BCC, addr_mode: AddrMode::Relative },
            0x91u8 => Opcode { name: Mnemonic::STA, addr_mode: AddrMode::DirectIndirectIndexed },
            0x92u8 => Opcode { name: Mnemonic::STA, addr_mode: AddrMode::DirectIndirect },
            0x93u8 => Opcode {
                name: Mnemonic::STA,
                addr_mode: AddrMode::StackRelativeIndirectIndexed,
            },
            0x94u8 => Opcode { name: Mnemonic::STY, addr_mode: AddrMode::DirectIndexedX },
            0x95u8 => Opcode { name: Mnemonic::STA, addr_mode: AddrMode::DirectIndexedX },
            0x96u8 => Opcode { name: Mnemonic::STX, addr_mode: AddrMode::DirectIndexedY },
            0x97u8 => Opcode {
                name: Mnemonic::STA,
                addr_mode: AddrMode::DirectIndirectIndexedLong,
            },
            0x98u8 => Opcode { name: Mnemonic::TYA, addr_mode: AddrMode::Implied },
            0x99u8 => Opcode { name: Mnemonic::STA, addr_mode: AddrMode::AbsoluteIndexedY },
            0x9Au8 => Opcode { name: Mnemonic::TXS, addr_mode: AddrMode::Implied },
            0x9Bu8 => Opcode { name: Mnemonic::TXY, addr_mode: AddrMode::Implied },
            0x9Cu8 => Opcode { name: Mnemonic::STZ, addr_mode: AddrMode::Absolute },
            0x9Du8 => Opcode { name: Mnemonic::STA, addr_mode: AddrMode::AbsoluteIndexedX },
            0x9Eu8 => Opcode { name: Mnemonic::STZ, addr_mode: AddrMode::AbsoluteIndexedX },
            0x9Fu8 => Opcode { name: Mnemonic::STA, addr_mode: AddrMode::AbsoluteIndexedLong },
            0xA0u8 => Opcode { name: Mnemonic::LDY, addr_mode: AddrMode::Immediate },
            0xA1u8 => Opcode { name: Mnemonic::LDA, addr_mode: AddrMode::DirectIndexedIndirect },
            0xA2u8 => Opcode { name: Mnemonic::LDX, addr_mode: AddrMode::Immediate },
            0xA3u8 => Opcode { name: Mnemonic::LDA, addr_mode: AddrMode::StackRelative },
            0xA4u8 => Opcode { name: Mnemonic::LDY, addr_mode: AddrMode::Direct },
            0xA5u8 => Opcode { name: Mnemonic::LDA, addr_mode: AddrMode::Direct },
            0xA6u8 => Opcode { name: Mnemonic::LDX, addr_mode: AddrMode::Direct },
            0xA7u8 => Opcode { name: Mnemonic::LDA, addr_mode: AddrMode::DirectIndirectLong },
            0xA8u8 => Opcode { name: Mnemonic::TAY, addr_mode: AddrMode::Implied },
            0xA9u8 => Opcode { name: Mnemonic::LDA, addr_mode: AddrMode::Immediate },
            0xAAu8 => Opcode { name: Mnemonic::TAX, addr_mode: AddrMode::Implied },
            0xABu8 => Opcode { name: Mnemonic::PLB, addr_mode: AddrMode::Implied },
            0xACu8 => Opcode { name: Mnemonic::LDY, addr_mode: AddrMode::Absolute },
            0xADu8 => Opcode { name: Mnemonic::LDA, addr_mode: AddrMode::Absolute },
            0xAEu8 => Opcode { name: Mnemonic::LDX, addr_mode: AddrMode::Absolute },
            0xAFu8 => Opcode { name: Mnemonic::LDA, addr_mode: AddrMode::AbsoluteLong },
            0xB0u8 => Opcode { name: Mnemonic::BCS, addr_mode: AddrMode::Relative },
            0xB1u8 => Opcode { name: Mnemonic::LDA, addr_mode: AddrMode::DirectIndirectIndexed },
            0xB2u8 => Opcode { name: Mnemonic::LDA, addr_mode: AddrMode::DirectIndirect },
            0xB3u8 => Opcode {
                name: Mnemonic::LDA,
                addr_mode: AddrMode::StackRelativeIndirectIndexed,
            },
            0xB4u8 => Opcode { name: Mnemonic::LDY, addr_mode: AddrMode::DirectIndexedX },
            0xB5u8 => Opcode { name: Mnemonic::LDA, addr_mode: AddrMode::DirectIndexedX },
            0xB6u8 => Opcode { name: Mnemonic::LDX, addr_mode: AddrMode::DirectIndexedY },
            0xB7u8 => Opcode {
                name: Mnemonic::LDA,
                addr_mode: AddrMode::DirectIndirectIndexedLong,
            },
            0xB8u8 => Opcode { name: Mnemonic::CLV, addr_mode: AddrMode::Implied },
            0xB9u8 => Opcode { name: Mnemonic::LDA, addr_mode: AddrMode::AbsoluteIndexedY },
            0xBAu8 => Opcode { name: Mnemonic::TSX, addr_mode: AddrMode::Implied },
            0xBBu8 => Opcode { name: Mnemonic::TYX, addr_mode: AddrMode::Implied },
            0xBCu8 => Opcode { name: Mnemonic::LDY, addr_mode: AddrMode::AbsoluteIndexedX },
            0xBDu8 => Opcode { name: Mnemonic::LDA, addr_mode: AddrMode::AbsoluteIndexedX },
            0xBEu8 => Opcode { name: Mnemonic::LDX, addr_mode: AddrMode::AbsoluteIndexedY },
            0xBFu8 => Opcode { name: Mnemonic::LDA, addr_mode: AddrMode::AbsoluteIndexedLong },
            0xC0u8 => Opcode { name: Mnemonic::CPY, addr_mode: AddrMode::Immediate },
            0xC1u8 => Opcode { name: Mnemonic::CMP, addr_mode: AddrMode::DirectIndexedIndirect },
            0xC2u8 => Opcode { name: Mnemonic::REP, addr_mode: AddrMode::ImmediateByte },
            0xC3u8 => Opcode { name: Mnemonic::CMP, addr_mode: AddrMode::StackRelative },
            0xC4u8 => Opcode { name: Mnemonic::CPY, addr_mode: AddrMode::Direct },
            0xC5u8 => Opcode { name: Mnemonic::CMP, addr_mode: AddrMode::Direct },
            0xC6u8 => Opcode { name: Mnemonic::DEC, addr_mode: AddrMode::Direct },
            0xC7u8 => Opcode { name: Mnemonic::CMP, addr_mode: AddrMode::DirectIndirectLong },
            0xC8u8 => Opcode { name: Mnemonic::INY, addr_mode: AddrMode::Implied },
            0xC9u8 => Opcode { name: Mnemonic::CMP, addr_mode: AddrMode::Immediate },
            0xCAu8 => Opcode { name: Mnemonic::DEX, addr_mode: AddrMode::Implied },
            0xCBu8 => Opcode { name: Mnemonic::WAI, addr_mode: AddrMode::Implied },
            0xCCu8 => Opcode { name: Mnemonic::CPY, addr_mode: AddrMode::Absolute },
            0xCDu8 => Opcode { name: Mnemonic::CMP, addr_mode: AddrMode::Absolute },
            0xCEu8 => Opcode { name: Mnemonic::DEC, addr_mode: AddrMode::Absolute },
            0xCFu8 => Opcode { name: Mnemonic::CMP, addr_mode: AddrMode::AbsoluteLong },
            0xD0u8 => Opcode { name: Mnemonic::BNE, addr_mode: AddrMode::Relative },
            0xD1u8 => Opcode { name: Mnemonic::CMP, addr_mode: AddrMode::DirectIndirectIndexed },
            0xD2u8 => Opcode { name: Mnemonic::CMP, addr_mode: AddrMode::DirectIndirect },
            0xD3u8 => Opcode {
                name: Mnemonic::CMP,
                addr_mode: AddrMode::StackRelativeIndirectIndexed,
            },
            0xD4u8 => Opcode { name: Mnemonic::PEI, addr_mode: AddrMode::DirectIndirect },
            0xD5u8 => Opcode { name: Mnemonic::CMP, addr_mode: AddrMode::DirectIndexedX },
            0xD6u8 => Opcode { name: Mnemonic::DEC, addr_mode: AddrMode::DirectIndexedX },
            0xD7u8 => Opcode {
                name: Mnemonic::CMP,
                addr_mode: AddrMode::DirectIndirectIndexedLong,
            },
            0xD8u8 => Opcode { name: Mnemonic::CLD, addr_mode: AddrMode::Implied },
            0xD9u8 => Opcode { name: Mnemonic::CMP, addr_mode: AddrMode::AbsoluteIndexedY },
            0xDAu8 => Opcode { name: Mnemonic::PHX, addr_mode: AddrMode::Implied },
            0xDBu8 => Opcode { name: Mnemonic::STP, addr_mode: AddrMode::Implied },
            0xDCu8 => Opcode { name: Mnemonic::JML, addr_mode: AddrMode::AbsoluteIndirectLong },
            0xDDu8 => Opcode { name: Mnemonic::CMP, addr_mode: AddrMode::AbsoluteIndexedX },
            0xDEu8 => Opcode { name: Mnemonic::DEC, addr_mode: AddrMode::AbsoluteIndexedX },
            0xDFu8 => Opcode { name: Mnemonic::CMP, addr_mode: AddrMode::AbsoluteIndexedLong },
            0xE0u8 => Opcode { name: Mnemonic::CPX, addr_mode: AddrMode::Immediate },
            0xE1u8 => Opcode { name: Mnemonic::SBC, addr_mode: AddrMode::DirectIndexedIndirect },
            0xE2u8 => Opcode { name: Mnemonic::SEP, addr_mode: AddrMode::ImmediateByte },
            0xE3u8 => Opcode { name: Mnemonic::SBC, addr_mode: AddrMode::StackRelative },
            0xE4u8 => Opcode { name: Mnemonic::CPX, addr_mode: AddrMode::Direct },
            0xE5u8 => Opcode { name: Mnemonic::SBC, addr_mode: AddrMode::Direct },
            0xE6u8 => Opcode { name: Mnemonic::INC, addr_mode: AddrMode::Direct },
            0xE7u8 => Opcode { name: Mnemonic::SBC, addr_mode: AddrMode::DirectIndirectLong },
            0xE8u8 => Opcode { name: Mnemonic::INX, addr_mode: AddrMode::Implied },
            0xE9u8 => Opcode { name: Mnemonic::SBC, addr_mode: AddrMode::Immediate },
            0xEAu8 => Opcode { name: Mnemonic::NOP, addr_mode: AddrMode::Implied },
            0xEBu8 => Opcode { name: Mnemonic::XBA, addr_mode: AddrMode::Implied },
            0xECu8 => Opcode { name: Mnemonic::CPX, addr_mode: AddrMode::Absolute },
            0xEDu8 => Opcode { name: Mnemonic::SBC, addr_mode: AddrMode::Absolute },
            0xEEu8 => Opcode { name: Mnemonic::INC, addr_mode: AddrMode::Absolute },
            0xEFu8 => Opcode { name: Mnemonic::SBC, addr_mode: AddrMode::AbsoluteLong },
            0xF0u8 => Opcode { name: Mnemonic::BEQ, addr_mode: AddrMode::Relative },
            0xF1u8 => Opcode { name: Mnemonic::SBC, addr_mode: AddrMode::DirectIndirectIndexed },
            0xF2u8 => Opcode { name: Mnemonic::SBC, addr_mode: AddrMode::DirectIndirect },
            0xF3u8 => Opcode {
                name: Mnemonic::SBC,
                addr_mode: AddrMode::StackRelativeIndirectIndexed,
            },
            0xF4u8 => Opcode { name: Mnemonic::PEA, addr_mode: AddrMode::Absolute },
            0xF5u8 => Opcode { name: Mnemonic::SBC, addr_mode: AddrMode::DirectIndexedX },
            0xF6u8 => Opcode { name: Mnemonic::INC, addr_mode: AddrMode::DirectIndexedX },
            0xF7u8 => Opcode {
                name: Mnemonic::SBC,
                addr_mode: AddrMode::DirectIndirectIndexedLong,
            },
            0xF8u8 => Opcode { name: Mnemonic::SED, addr_mode: AddrMode::Implied },
            0xF9u8 => Opcode { name: Mnemonic::SBC, addr_mode: AddrMode::AbsoluteIndexedY },
            0xFAu8 => Opcode { name: Mnemonic::PLX, addr_mode: AddrMode::Implied },
            0xFBu8 => Opcode { name: Mnemonic::XCE, addr_mode: AddrMode::Implied },
            0xFCu8 => Opcode { name: Mnemonic::JSR, addr_mode: AddrMode::AbsoluteIndexedIndirect },
            0xFDu8 => Opcode { name: Mnemonic::SBC, addr_mode: AddrMode::AbsoluteIndexedX },
            0xFEu8 => Opcode { name: Mnemonic::INC, addr_mode: AddrMode::AbsoluteIndexedX },
            0xFFu8 => Opcode { name: Mnemonic::SBC, addr_mode: AddrMode::AbsoluteIndexedLong },
        }
    }
}

} // verus!
