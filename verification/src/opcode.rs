//! The instruction set: one name for each opcode byte the processor knows,
//! and for each its mnemonic, length, base cycle count and addressing mode.

use vstd::prelude::*;
use crate::addressing::MemoryAccessMode;

verus! {

/// An opcode the processor knows, named by mnemonic and addressing mode.
#[derive(PartialEq, Eq, Hash, Debug, Copy, Clone, Structural)]
pub enum OpcodeType {
    Brk,
    AdcI,
    AdcZp,
    AdcZpx,
    AdcA,
    AdcAx,
    AdcAy,
    AdcIx,
    AdcIy,
    AndI,
    AndZp,
    AndZpx,
    AndA,
    AndAx,
    AndAy,
    AndIx,
    AndIy,
    AslAcc,
    AslZp,
    AslZpx,
    AslA,
    AslAx,
    LsrAcc,
    LsrZp,
    LsrZpx,
    LsrA,
    LsrAx,
    Bcc,
    Bcs,
    Beq,
    BitZp,
    BitA,
    Bmi,
    Bne,
    Bpl,
    Bvc,
    Bvs,
    Clc,
    Cld,
    Cli,
    Clv,
    CmpI,
    CmpZp,
    CmpZpx,
    CmpA,
    CmpAx,
    CmpAy,
    CmpIx,
    CmpIy,
    CpxI,
    CpxZp,
    CpxA,
    CpyI,
    CpyZp,
    CpyA,
    DecZp,
    DecZpx,
    DecA,
    DecAx,
    Dex,
    Dey,
    IncZp,
    IncZpx,
    IncA,
    IncAx,
    Inx,
    Iny,
    EorI,
    EorZp,
    EorZpx,
    EorA,
    EorAx,
    EorAy,
    EorIx,
    EorIy,
    JmpA,
    JmpInd,
    Jsr,
    LdaI,
    LdaZp,
    LdaZpx,
    LdaA,
    LdaAx,
    LdaAy,
    LdaIx,
    LdaIy,
    LdxI,
    LdxZp,
    LdxZpy,
    LdxA,
    LdxAy,
    LdyI,
    LdyZp,
    LdyZpx,
    LdyA,
    LdyAx,
    NopHlt,
    Nop,
    Nop1,
    Nop2,
    Nop3,
    Nop4,
    Nop5,
    Nop6,
    OraI,
    OraZp,
    OraZpx,
    OraA,
    OraAx,
    OraAy,
    OraIx,
    OraIy,
    Pha,
    Php,
    Pla,
    Plp,
    RolAcc,
    RolZp,
    RolZpx,
    RolA,
    RolAx,
    RorAcc,
    RorZp,
    RorZpx,
    RorA,
    RorAx,
    Rti,
    Rts,
    SbcI,
    SbcZp,
    SbcZpx,
    SbcA,
    SbcAx,
    SbcAy,
    SbcIx,
    SbcIy,
    Sec,
    Sed,
    Sei,
    StaZp,
    StaZpx,
    StaA,
    StaAx,
    StaAy,
    StaIx,
    StaIy,
    StxZp,
    StxZpy,
    StxA,
    StyZp,
    StyZpx,
    StyA,
    Tax,
    Tay,
    Tsx,
    Txa,
    Txs,
    Tya,
    AsoZp,
    AsoZpx,
    AsoA,
    AsoAx,
    AsoAy,
    AsoIx,
    AsoIy,
    RlaZp,
    RlaZpx,
    RlaA,
    RlaAx,
    RlaAy,
    RlaIx,
    RlaIy,
    LseZp,
    LseZpx,
    LseA,
    LseAx,
    LseAy,
    LseIx,
    LseIy,
    RraZp,
    RraZpx,
    RraA,
    RraAx,
    RraAy,
    RraIx,
    RraIy,
    AxsZp,
    AxsZpy,
    AxsA,
    AxsIx,
    LaxZp,
    LaxZpy,
    LaxA,
    LaxAy,
    LaxIx,
    LaxIy,
    Skb,
    Skb1,
    Skb2,
    Skb3,
    Skb4,
    Skb5,
    Skb6,
    Skb7,
    Skb8,
    Skb9,
    Skb10,
    Skb11,
    Skb12,
    Skb13,
    Skb14,
    Skb15,
    Skb16,
    Skb17,
    Skb18,
    Skb19,
    Skb20,
    Sbc1I,
    DcmZp,
    DcmZpx,
    DcmA,
    DcmAx,
    DcmAy,
    DcmIx,
    DcmIy,
    InsZp,
    InsZpx,
    InsA,
    InsAx,
    InsAy,
    InsIx,
    InsIy,
    AxaAy,
    AxaIy,
    Say,
}

impl OpcodeType {
    /// The opcode that a byte encodes, where it encodes one.
    pub open spec fn spec_from_u8(value: u8) -> Option<OpcodeType> {
        match value {
            0x00 => Some(OpcodeType::Brk),
            0x01 => Some(OpcodeType::OraIx),
            0x02 => Some(OpcodeType::NopHlt),
            0x03 => Some(OpcodeType::AsoIx),
            0x04 => Some(OpcodeType::Skb4),
            0x05 => Some(OpcodeType::OraZp),
            0x06 => Some(OpcodeType::AslZp),
            0x07 => Some(OpcodeType::AsoZp),
            0x08 => Some(OpcodeType::Php),
            0x09 => Some(OpcodeType::OraI),
            0x0A => Some(OpcodeType::AslAcc),
            0x0C => Some(OpcodeType::Skb14),
            0x0D => Some(OpcodeType::OraA),
            0x0E => Some(OpcodeType::AslA),
            0x0F => Some(OpcodeType::AsoA),
            0x10 => Some(OpcodeType::Bpl),
            0x11 => Some(OpcodeType::OraIy),
            0x13 => Some(OpcodeType::AsoIy),
            0x14 => Some(OpcodeType::Skb5),
            0x15 => Some(OpcodeType::OraZpx),
            0x16 => Some(OpcodeType::AslZpx),
            0x17 => Some(OpcodeType::AsoZpx),
            0x18 => Some(OpcodeType::Clc),
            0x19 => Some(OpcodeType::OraAy),
            0x1A => Some(OpcodeType::Nop1),
            0x1B => Some(OpcodeType::AsoAy),
            0x1C => Some(OpcodeType::Skb15),
            0x1D => Some(OpcodeType::OraAx),
            0x1E => Some(OpcodeType::AslAx),
            0x1F => Some(OpcodeType::AsoAx),
            0x20 => Some(OpcodeType::Jsr),
            0x21 => Some(OpcodeType::AndIx),
            0x23 => Some(OpcodeType::RlaIx),
            0x24 => Some(OpcodeType::BitZp),
            0x25 => Some(OpcodeType::AndZp),
            0x26 => Some(OpcodeType::RolZp),
            0x27 => Some(OpcodeType::RlaZp),
            0x28 => Some(OpcodeType::Plp),
            0x29 => Some(OpcodeType::AndI),
            0x2A => Some(OpcodeType::RolAcc),
            0x2C => Some(OpcodeType::BitA),
            0x2D => Some(OpcodeType::AndA),
            0x2E => Some(OpcodeType::RolA),
            0x2F => Some(OpcodeType::RlaA),
            0x30 => Some(OpcodeType::Bmi),
            0x31 => Some(OpcodeType::AndIy),
            0x33 => Some(OpcodeType::RlaIy),
            0x34 => Some(OpcodeType::Skb6),
            0x35 => Some(OpcodeType::AndZpx),
            0x36 => Some(OpcodeType::RolZpx),
            0x37 => Some(OpcodeType::RlaZpx),
            0x38 => Some(OpcodeType::Sec),
            0x39 => Some(OpcodeType::AndAy),
            0x3A => Some(OpcodeType::Nop2),
            0x3B => Some(OpcodeType::RlaAy),
            0x3C => Some(OpcodeType::Skb16),
            0x3D => Some(OpcodeType::AndAx),
            0x3E => Some(OpcodeType::RolAx),
            0x3F => Some(OpcodeType::RlaAx),
            0x40 => Some(OpcodeType::Rti),
            0x41 => Some(OpcodeType::EorIx),
            0x43 => Some(OpcodeType::LseIx),
            0x44 => Some(OpcodeType::Skb7),
            0x45 => Some(OpcodeType::EorZp),
            0x46 => Some(OpcodeType::LsrZp),
            0x47 => Some(OpcodeType::LseZp),
            0x48 => Some(OpcodeType::Pha),
            0x49 => Some(OpcodeType::EorI),
            0x4A => Some(OpcodeType::LsrAcc),
            0x4C => Some(OpcodeType::JmpA),
            0x4D => Some(OpcodeType::EorA),
            0x4E => Some(OpcodeType::LsrA),
            0x4F => Some(OpcodeType::LseA),
            0x50 => Some(OpcodeType::Bvc),
            0x51 => Some(OpcodeType::EorIy),
            0x53 => Some(OpcodeType::LseIy),
            0x54 => Some(OpcodeType::Skb8),
            0x55 => Some(OpcodeType::EorZpx),
            0x56 => Some(OpcodeType::LsrZpx),
            0x57 => Some(OpcodeType::LseZpx),
            0x58 => Some(OpcodeType::Cli),
            0x59 => Some(OpcodeType::EorAy),
            0x5A => Some(OpcodeType::Nop3),
            0x5B => Some(OpcodeType::LseAy),
            0x5C => Some(OpcodeType::Skb17),
            0x5D => Some(OpcodeType::EorAx),
            0x5E => Some(OpcodeType::LsrAx),
            0x5F => Some(OpcodeType::LseAx),
            0x60 => Some(OpcodeType::Rts),
            0x61 => Some(OpcodeType::AdcIx),
            0x63 => Some(OpcodeType::RraIx),
            0x64 => Some(OpcodeType::Skb9),
            0x65 => Some(OpcodeType::AdcZp),
            0x66 => Some(OpcodeType::RorZp),
            0x67 => Some(OpcodeType::RraZp),
            0x68 => Some(OpcodeType::Pla),
            0x69 => Some(OpcodeType::AdcI),
            0x6A => Some(OpcodeType::RorAcc),
            0x6C => Some(OpcodeType::JmpInd),
            0x6D => Some(OpcodeType::AdcA),
            0x6E => Some(OpcodeType::RorA),
            0x6F => Some(OpcodeType::RraA),
            0x70 => Some(OpcodeType::Bvs),
            0x71 => Some(OpcodeType::AdcIy),
            0x73 => Some(OpcodeType::RraIy),
            0x74 => Some(OpcodeType::Skb10),
            0x75 => Some(OpcodeType::AdcZpx),
            0x76 => Some(OpcodeType::RorZpx),
            0x77 => Some(OpcodeType::RraZpx),
            0x78 => Some(OpcodeType::Sei),
            0x79 => Some(OpcodeType::AdcAy),
            0x7A => Some(OpcodeType::Nop4),
            0x7B => Some(OpcodeType::RraAy),
            0x7C => Some(OpcodeType::Skb18),
            0x7D => Some(OpcodeType::AdcAx),
            0x7E => Some(OpcodeType::RorAx),
            0x7F => Some(OpcodeType::RraAx),
            0x80 => Some(OpcodeType::Skb),
            0x81 => Some(OpcodeType::StaIx),
            0x82 => Some(OpcodeType::Skb1),
            0x83 => Some(OpcodeType::AxsIx),
            0x84 => Some(OpcodeType::StyZp),
            0x85 => Some(OpcodeType::StaZp),
            0x86 => Some(OpcodeType::StxZp),
            0x87 => Some(OpcodeType::AxsZp),
            0x88 => Some(OpcodeType::Dey),
            0x89 => Some(OpcodeType::Skb13),
            0x8A => Some(OpcodeType::Txa),
            0x8C => Some(OpcodeType::StyA),
            0x8D => Some(OpcodeType::StaA),
            0x8E => Some(OpcodeType::StxA),
            0x8F => Some(OpcodeType::AxsA),
            0x90 => Some(OpcodeType::Bcc),
            0x91 => Some(OpcodeType::StaIy),
            0x93 => Some(OpcodeType::AxaIy),
            0x94 => Some(OpcodeType::StyZpx),
            0x95 => Some(OpcodeType::StaZpx),
            0x96 => Some(OpcodeType::StxZpy),
            0x97 => Some(OpcodeType::AxsZpy),
            0x98 => Some(OpcodeType::Tya),
            0x99 => Some(OpcodeType::StaAy),
            0x9A => Some(OpcodeType::Txs),
            0x9C => Some(OpcodeType::Say),
            0x9D => Some(OpcodeType::StaAx),
            0x9F => Some(OpcodeType::AxaAy),
            0xA0 => Some(OpcodeType::LdyI),
            0xA1 => Some(OpcodeType::LdaIx),
            0xA2 => Some(OpcodeType::LdxI),
            0xA3 => Some(OpcodeType::LaxIx),
            0xA4 => Some(OpcodeType::LdyZp),
            0xA5 => Some(OpcodeType::LdaZp),
            0xA6 => Some(OpcodeType::LdxZp),
            0xA7 => Some(OpcodeType::LaxZp),
            0xA8 => Some(OpcodeType::Tay),
            0xA9 => Some(OpcodeType::LdaI),
            0xAA => Some(OpcodeType::Tax),
            0xAC => Some(OpcodeType::LdyA),
            0xAD => Some(OpcodeType::LdaA),
            0xAE => Some(OpcodeType::LdxA),
            0xAF => Some(OpcodeType::LaxA),
            0xB0 => Some(OpcodeType::Bcs),
            0xB1 => Some(OpcodeType::LdaIy),
            0xB3 => Some(OpcodeType::LaxIy),
            0xB4 => Some(OpcodeType::LdyZpx),
            0xB5 => Some(OpcodeType::LdaZpx),
            0xB6 => Some(OpcodeType::LdxZpy),
            0xB7 => Some(OpcodeType::LaxZpy),
            0xB8 => Some(OpcodeType::Clv),
            0xB9 => Some(OpcodeType::LdaAy),
            0xBA => Some(OpcodeType::Tsx),
            0xBC => Some(OpcodeType::LdyAx),
            0xBD => Some(OpcodeType::LdaAx),
            0xBE => Some(OpcodeType::LdxAy),
            0xBF => Some(OpcodeType::LaxAy),
            0xC0 => Some(OpcodeType::CpyI),
            0xC1 => Some(OpcodeType::CmpIx),
            0xC2 => Some(OpcodeType::Skb2),
            0xC3 => Some(OpcodeType::DcmIx),
            0xC4 => Some(OpcodeType::CpyZp),
            0xC5 => Some(OpcodeType::CmpZp),
            0xC6 => Some(OpcodeType::DecZp),
            0xC7 => Some(OpcodeType::DcmZp),
            0xC8 => Some(OpcodeType::Iny),
            0xC9 => Some(OpcodeType::CmpI),
            0xCA => Some(OpcodeType::Dex),
            0xCC => Some(OpcodeType::CpyA),
            0xCD => Some(OpcodeType::CmpA),
            0xCE => Some(OpcodeType::DecA),
            0xCF => Some(OpcodeType::DcmA),
            0xD0 => Some(OpcodeType::Bne),
            0xD1 => Some(OpcodeType::CmpIy),
            0xD3 => Some(OpcodeType::DcmIy),
            0xD4 => Some(OpcodeType::Skb11),
            0xD5 => Some(OpcodeType::CmpZpx),
            0xD6 => Some(OpcodeType::DecZpx),
            0xD7 => Some(OpcodeType::DcmZpx),
            0xD8 => Some(OpcodeType::Cld),
            0xD9 => Some(OpcodeType::CmpAy),
            0xDA => Some(OpcodeType::Nop5),
            0xDB => Some(OpcodeType::DcmAy),
            0xDC => Some(OpcodeType::Skb19),
            0xDD => Some(OpcodeType::CmpAx),
            0xDE => Some(OpcodeType::DecAx),
            0xDF => Some(OpcodeType::DcmAx),
            0xE0 => Some(OpcodeType::CpxI),
            0xE1 => Some(OpcodeType::SbcIx),
            0xE2 => Some(OpcodeType::Skb3),
            0xE3 => Some(OpcodeType::InsIx),
            0xE4 => Some(OpcodeType::CpxZp),
            0xE5 => Some(OpcodeType::SbcZp),
            0xE6 => Some(OpcodeType::IncZp),
            0xE7 => Some(OpcodeType::InsZp),
            0xE8 => Some(OpcodeType::Inx),
            0xE9 => Some(OpcodeType::SbcI),
            0xEA => Some(OpcodeType::Nop),
            0xEB => Some(OpcodeType::Sbc1I),
            0xEC => Some(OpcodeType::CpxA),
            0xED => Some(OpcodeType::SbcA),
            0xEE => Some(OpcodeType::IncA),
            0xEF => Some(OpcodeType::InsA),
            0xF0 => Some(OpcodeType::Beq),
            0xF1 => Some(OpcodeType::SbcIy),
            0xF3 => Some(OpcodeType::InsIy),
            0xF4 => Some(OpcodeType::Skb12),
            0xF5 => Some(OpcodeType::SbcZpx),
            0xF6 => Some(OpcodeType::IncZpx),
            0xF7 => Some(OpcodeType::InsZpx),
            0xF8 => Some(OpcodeType::Sed),
            0xF9 => Some(OpcodeType::SbcAy),
            0xFA => Some(OpcodeType::Nop6),
            0xFB => Some(OpcodeType::InsAy),
            0xFC => Some(OpcodeType::Skb20),
            0xFD => Some(OpcodeType::SbcAx),
            0xFE => Some(OpcodeType::IncAx),
            0xFF => Some(OpcodeType::InsAx),
            _ => None,
        }
    }

    /// The byte that encodes the opcode.
    pub open spec fn spec_to_u8(self) -> u8 {
        match self {
            OpcodeType::Brk => 0x00,
            OpcodeType::AdcI => 0x69,
            OpcodeType::AdcZp => 0x65,
            OpcodeType::AdcZpx => 0x75,
            OpcodeType::AdcA => 0x6D,
            OpcodeType::AdcAx => 0x7D,
            OpcodeType::AdcAy => 0x79,
            OpcodeType::AdcIx => 0x61,
            OpcodeType::AdcIy => 0x71,
            OpcodeType::AndI => 0x29,
            OpcodeType::AndZp => 0x25,
            OpcodeType::AndZpx => 0x35,
            OpcodeType::AndA => 0x2D,
            OpcodeType::AndAx => 0x3D,
            OpcodeType::AndAy => 0x39,
            OpcodeType::AndIx => 0x21,
            OpcodeType::AndIy => 0x31,
            OpcodeType::AslAcc => 0x0A,
            OpcodeType::AslZp => 0x06,
            OpcodeType::AslZpx => 0x16,
            OpcodeType::AslA => 0x0E,
            OpcodeType::AslAx => 0x1E,
            OpcodeType::LsrAcc => 0x4A,
            OpcodeType::LsrZp => 0x46,
            OpcodeType::LsrZpx => 0x56,
            OpcodeType::LsrA => 0x4E,
            OpcodeType::LsrAx => 0x5E,
            OpcodeType::Bcc => 0x90,
            OpcodeType::Bcs => 0xB0,
            OpcodeType::Beq => 0xF0,
            OpcodeType::BitZp => 0x24,
            OpcodeType::BitA => 0x2C,
            OpcodeType::Bmi => 0x30,
            OpcodeType::Bne => 0xD0,
            OpcodeType::Bpl => 0x10,
            OpcodeType::Bvc => 0x50,
            OpcodeType::Bvs => 0x70,
            OpcodeType::Clc => 0x18,
            OpcodeType::Cld => 0xD8,
            OpcodeType::Cli => 0x58,
            OpcodeType::Clv => 0xB8,
            OpcodeType::CmpI => 0xC9,
            OpcodeType::CmpZp => 0xC5,
            OpcodeType::CmpZpx => 0xD5,
            OpcodeType::CmpA => 0xCD,
            OpcodeType::CmpAx => 0xDD,
            OpcodeType::CmpAy => 0xD9,
            OpcodeType::CmpIx => 0xC1,
            OpcodeType::CmpIy => 0xD1,
            OpcodeType::CpxI => 0xE0,
            OpcodeType::CpxZp => 0xE4,
            OpcodeType::CpxA => 0xEC,
            OpcodeType::CpyI => 0xC0,
            OpcodeType::CpyZp => 0xC4,
            OpcodeType::CpyA => 0xCC,
            OpcodeType::DecZp => 0xC6,
            OpcodeType::DecZpx => 0xD6,
            OpcodeType::DecA => 0xCE,
            OpcodeType::DecAx => 0xDE,
            OpcodeType::Dex => 0xCA,
            OpcodeType::Dey => 0x88,
            OpcodeType::IncZp => 0xE6,
            OpcodeType::IncZpx => 0xF6,
            OpcodeType::IncA => 0xEE,
            OpcodeType::IncAx => 0xFE,
            OpcodeType::Inx => 0xE8,
            OpcodeType::Iny => 0xC8,
            OpcodeType::EorI => 0x49,
            OpcodeType::EorZp => 0x45,
            OpcodeType::EorZpx => 0x55,
            OpcodeType::EorA => 0x4D,
            OpcodeType::EorAx => 0x5D,
            OpcodeType::EorAy => 0x59,
            OpcodeType::EorIx => 0x41,
            OpcodeType::EorIy => 0x51,
            OpcodeType::JmpA => 0x4C,
            OpcodeType::JmpInd => 0x6C,
            OpcodeType::Jsr => 0x20,
            OpcodeType::LdaI => 0xA9,
            OpcodeType::LdaZp => 0xA5,
            OpcodeType::LdaZpx => 0xB5,
            OpcodeType::LdaA => 0xAD,
            OpcodeType::LdaAx => 0xBD,
            OpcodeType::LdaAy => 0xB9,
            OpcodeType::LdaIx => 0xA1,
            OpcodeType::LdaIy => 0xB1,
            OpcodeType::LdxI => 0xA2,
            OpcodeType::LdxZp => 0xA6,
            OpcodeType::LdxZpy => 0xB6,
            OpcodeType::LdxA => 0xAE,
            OpcodeType::LdxAy => 0xBE,
            OpcodeType::LdyI => 0xA0,
            OpcodeType::LdyZp => 0xA4,
            OpcodeType::LdyZpx => 0xB4,
            OpcodeType::LdyA => 0xAC,
            OpcodeType::LdyAx => 0xBC,
            OpcodeType::NopHlt => 0x02,
            OpcodeType::Nop => 0xEA,
            OpcodeType::Nop1 => 0x1A,
            OpcodeType::Nop2 => 0x3A,
            OpcodeType::Nop3 => 0x5A,
            OpcodeType::Nop4 => 0x7A,
            OpcodeType::Nop5 => 0xDA,
            OpcodeType::Nop6 => 0xFA,
            OpcodeType::OraI => 0x09,
            OpcodeType::OraZp => 0x05,
            OpcodeType::OraZpx => 0x15,
            OpcodeType::OraA => 0x0D,
            OpcodeType::OraAx => 0x1D,
            OpcodeType::OraAy => 0x19,
            OpcodeType::OraIx => 0x01,
            OpcodeType::OraIy => 0x11,
            OpcodeType::Pha => 0x48,
            OpcodeType::Php => 0x08,
            OpcodeType::Pla => 0x68,
            OpcodeType::Plp => 0x28,
            OpcodeType::RolAcc => 0x2A,
            OpcodeType::RolZp => 0x26,
            OpcodeType::RolZpx => 0x36,
            OpcodeType::RolA => 0x2E,
            OpcodeType::RolAx => 0x3E,
            OpcodeType::RorAcc => 0x6A,
            OpcodeType::RorZp => 0x66,
            OpcodeType::RorZpx => 0x76,
            OpcodeType::RorA => 0x6E,
            OpcodeType::RorAx => 0x7E,
            OpcodeType::Rti => 0x40,
            OpcodeType::Rts => 0x60,
            OpcodeType::SbcI => 0xE9,
            OpcodeType::SbcZp => 0xE5,
            OpcodeType::SbcZpx => 0xF5,
            OpcodeType::SbcA => 0xED,
            OpcodeType::SbcAx => 0xFD,
            OpcodeType::SbcAy => 0xF9,
            OpcodeType::SbcIx => 0xE1,
            OpcodeType::SbcIy => 0xF1,
            OpcodeType::Sec => 0x38,
            OpcodeType::Sed => 0xF8,
            OpcodeType::Sei => 0x78,
            OpcodeType::StaZp => 0x85,
            OpcodeType::StaZpx => 0x95,
            OpcodeType::StaA => 0x8D,
            OpcodeType::StaAx => 0x9D,
            OpcodeType::StaAy => 0x99,
            OpcodeType::StaIx => 0x81,
            OpcodeType::StaIy => 0x91,
            OpcodeType::StxZp => 0x86,
            OpcodeType::StxZpy => 0x96,
            OpcodeType::StxA => 0x8E,
            OpcodeType::StyZp => 0x84,
            OpcodeType::StyZpx => 0x94,
            OpcodeType::StyA => 0x8C,
            OpcodeType::Tax => 0xAA,
            OpcodeType::Tay => 0xA8,
            OpcodeType::Tsx => 0xBA,
            OpcodeType::Txa => 0x8A,
            OpcodeType::Txs => 0x9A,
            OpcodeType::Tya => 0x98,
            OpcodeType::AsoZp => 0x07,
            OpcodeType::AsoZpx => 0x17,
            OpcodeType::AsoA => 0x0F,
            OpcodeType::AsoAx => 0x1F,
            OpcodeType::AsoAy => 0x1B,
            OpcodeType::AsoIx => 0x03,
            OpcodeType::AsoIy => 0x13,
            OpcodeType::RlaZp => 0x27,
            OpcodeType::RlaZpx => 0x37,
            OpcodeType::RlaA => 0x2F,
            OpcodeType::RlaAx => 0x3F,
            OpcodeType::RlaAy => 0x3B,
            OpcodeType::RlaIx => 0x23,
            OpcodeType::RlaIy => 0x33,
            OpcodeType::LseZp => 0x47,
            OpcodeType::LseZpx => 0x57,
            OpcodeType::LseA => 0x4F,
            OpcodeType::LseAx => 0x5F,
            OpcodeType::LseAy => 0x5B,
            OpcodeType::LseIx => 0x43,
            OpcodeType::LseIy => 0x53,
            OpcodeType::RraZp => 0x67,
            OpcodeType::RraZpx => 0x77,
            OpcodeType::RraA => 0x6F,
            OpcodeType::RraAx => 0x7F,
            OpcodeType::RraAy => 0x7B,
            OpcodeType::RraIx => 0x63,
            OpcodeType::RraIy => 0x73,
            OpcodeType::AxsZp => 0x87,
            OpcodeType::AxsZpy => 0x97,
            OpcodeType::AxsA => 0x8F,
            OpcodeType::AxsIx => 0x83,
            OpcodeType::LaxZp => 0xA7,
            OpcodeType::LaxZpy => 0xB7,
            OpcodeType::LaxA => 0xAF,
            OpcodeType::LaxAy => 0xBF,
            OpcodeType::LaxIx => 0xA3,
            OpcodeType::LaxIy => 0xB3,
            OpcodeType::Skb => 0x80,
            OpcodeType::Skb1 => 0x82,
            OpcodeType::Skb2 => 0xC2,
            OpcodeType::Skb3 => 0xE2,
            OpcodeType::Skb4 => 0x04,
            OpcodeType::Skb5 => 0x14,
            OpcodeType::Skb6 => 0x34,
            OpcodeType::Skb7 => 0x44,
            OpcodeType::Skb8 => 0x54,
            OpcodeType::Skb9 => 0x64,
            OpcodeType::Skb10 => 0x74,
            OpcodeType::Skb11 => 0xD4,
            OpcodeType::Skb12 => 0xF4,
            OpcodeType::Skb13 => 0x89,
            OpcodeType::Skb14 => 0x0C,
            OpcodeType::Skb15 => 0x1C,
            OpcodeType::Skb16 => 0x3C,
            OpcodeType::Skb17 => 0x5C,
            OpcodeType::Skb18 => 0x7C,
            OpcodeType::Skb19 => 0xDC,
            OpcodeType::Skb20 => 0xFC,
            OpcodeType::Sbc1I => 0xEB,
            OpcodeType::DcmZp => 0xC7,
            OpcodeType::DcmZpx => 0xD7,
            OpcodeType::DcmA => 0xCF,
            OpcodeType::DcmAx => 0xDF,
            OpcodeType::DcmAy => 0xDB,
            OpcodeType::DcmIx => 0xC3,
            OpcodeType::DcmIy => 0xD3,
            OpcodeType::InsZp => 0xE7,
            OpcodeType::InsZpx => 0xF7,
            OpcodeType::InsA => 0xEF,
            OpcodeType::InsAx => 0xFF,
            OpcodeType::InsAy => 0xFB,
            OpcodeType::InsIx => 0xE3,
            OpcodeType::InsIy => 0xF3,
            OpcodeType::AxaAy => 0x9F,
            OpcodeType::AxaIy => 0x93,
            OpcodeType::Say => 0x9C,
        }
    }

    /// The opcode that a byte encodes, where it encodes one.
    #[verifier::when_used_as_spec(spec_from_u8)]
    pub fn from_u8(value: u8) -> (opcode: Option<OpcodeType>)
        ensures
            opcode == Self::spec_from_u8(value),
    {
        match value {
            0x00 => Some(OpcodeType::Brk),
            0x01 => Some(OpcodeType::OraIx),
            0x02 => Some(OpcodeType::NopHlt),
            0x03 => Some(OpcodeType::AsoIx),
            0x04 => Some(OpcodeType::Skb4),
            0x05 => Some(OpcodeType::OraZp),
            0x06 => Some(OpcodeType::AslZp),
            0x07 => Some(OpcodeType::AsoZp),
            0x08 => Some(OpcodeType::Php),
            0x09 => Some(OpcodeType::OraI),
            0x0A => Some(OpcodeType::AslAcc),
            0x0C => Some(OpcodeType::Skb14),
            0x0D => Some(OpcodeType::OraA),
            0x0E => Some(OpcodeType::AslA),
            0x0F => Some(OpcodeType::AsoA),
            0x10 => Some(OpcodeType::Bpl),
            0x11 => Some(OpcodeType::OraIy),
            0x13 => Some(OpcodeType::AsoIy),
            0x14 => Some(OpcodeType::Skb5),
            0x15 => Some(OpcodeType::OraZpx),
            0x16 => Some(OpcodeType::AslZpx),
            0x17 => Some(OpcodeType::AsoZpx),
            0x18 => Some(OpcodeType::Clc),
            0x19 => Some(OpcodeType::OraAy),
            0x1A => Some(OpcodeType::Nop1),
            0x1B => Some(OpcodeType::AsoAy),
            0x1C => Some(OpcodeType::Skb15),
            0x1D => Some(OpcodeType::OraAx),
            0x1E => Some(OpcodeType::AslAx),
            0x1F => Some(OpcodeType::AsoAx),
            0x20 => Some(OpcodeType::Jsr),
            0x21 => Some(OpcodeType::AndIx),
            0x23 => Some(OpcodeType::RlaIx),
            0x24 => Some(OpcodeType::BitZp),
            0x25 => Some(OpcodeType::AndZp),
            0x26 => Some(OpcodeType::RolZp),
            0x27 => Some(OpcodeType::RlaZp),
            0x28 => Some(OpcodeType::Plp),
            0x29 => Some(OpcodeType::AndI),
            0x2A => Some(OpcodeType::RolAcc),
            0x2C => Some(OpcodeType::BitA),
            0x2D => Some(OpcodeType::AndA),
            0x2E => Some(OpcodeType::RolA),
            0x2F => Some(OpcodeType::RlaA),
            0x30 => Some(OpcodeType::Bmi),
            0x31 => Some(OpcodeType::AndIy),
            0x33 => Some(OpcodeType::RlaIy),
            0x34 => Some(OpcodeType::Skb6),
            0x35 => Some(OpcodeType::AndZpx),
            0x36 => Some(OpcodeType::RolZpx),
            0x37 => Some(OpcodeType::RlaZpx),
            0x38 => Some(OpcodeType::Sec),
            0x39 => Some(OpcodeType::AndAy),
            0x3A => Some(OpcodeType::Nop2),
            0x3B => Some(OpcodeType::RlaAy),
            0x3C => Some(OpcodeType::Skb16),
            0x3D => Some(OpcodeType::AndAx),
            0x3E => Some(OpcodeType::RolAx),
            0x3F => Some(OpcodeType::RlaAx),
            0x40 => Some(OpcodeType::Rti),
            0x41 => Some(OpcodeType::EorIx),
            0x43 => Some(OpcodeType::LseIx),
            0x44 => Some(OpcodeType::Skb7),
            0x45 => Some(OpcodeType::EorZp),
            0x46 => Some(OpcodeType::LsrZp),
            0x47 => Some(OpcodeType::LseZp),
            0x48 => Some(OpcodeType::Pha),
            0x49 => Some(OpcodeType::EorI),
            0x4A => Some(OpcodeType::LsrAcc),
            0x4C => Some(OpcodeType::JmpA),
            0x4D => Some(OpcodeType::EorA),
            0x4E => Some(OpcodeType::LsrA),
            0x4F => Some(OpcodeType::LseA),
            0x50 => Some(OpcodeType::Bvc),
            0x51 => Some(OpcodeType::EorIy),
            0x53 => Some(OpcodeType::LseIy),
            0x54 => Some(OpcodeType::Skb8),
            0x55 => Some(OpcodeType::EorZpx),
            0x56 => Some(OpcodeType::LsrZpx),
            0x57 => Some(OpcodeType::LseZpx),
            0x58 => Some(OpcodeType::Cli),
            0x59 => Some(OpcodeType::EorAy),
            0x5A => Some(OpcodeType::Nop3),
            0x5B => Some(OpcodeType::LseAy),
            0x5C => Some(OpcodeType::Skb17),
            0x5D => Some(OpcodeType::EorAx),
            0x5E => Some(OpcodeType::LsrAx),
            0x5F => Some(OpcodeType::LseAx),
            0x60 => Some(OpcodeType::Rts),
            0x61 => Some(OpcodeType::AdcIx),
            0x63 => Some(OpcodeType::RraIx),
            0x64 => Some(OpcodeType::Skb9),
            0x65 => Some(OpcodeType::AdcZp),
            0x66 => Some(OpcodeType::RorZp),
            0x67 => Some(OpcodeType::RraZp),
            0x68 => Some(OpcodeType::Pla),
            0x69 => Some(OpcodeType::AdcI),
            0x6A => Some(OpcodeType::RorAcc),
            0x6C => Some(OpcodeType::JmpInd),
            0x6D => Some(OpcodeType::AdcA),
            0x6E => Some(OpcodeType::RorA),
            0x6F => Some(OpcodeType::RraA),
            0x70 => Some(OpcodeType::Bvs),
            0x71 => Some(OpcodeType::AdcIy),
            0x73 => Some(OpcodeType::RraIy),
            0x74 => Some(OpcodeType::Skb10),
            0x75 => Some(OpcodeType::AdcZpx),
            0x76 => Some(OpcodeType::RorZpx),
            0x77 => Some(OpcodeType::RraZpx),
            0x78 => Some(OpcodeType::Sei),
            0x79 => Some(OpcodeType::AdcAy),
            0x7A => Some(OpcodeType::Nop4),
            0x7B => Some(OpcodeType::RraAy),
            0x7C => Some(OpcodeType::Skb18),
            0x7D => Some(OpcodeType::AdcAx),
            0x7E => Some(OpcodeType::RorAx),
            0x7F => Some(OpcodeType::RraAx),
            0x80 => Some(OpcodeType::Skb),
            0x81 => Some(OpcodeType::StaIx),
            0x82 => Some(OpcodeType::Skb1),
            0x83 => Some(OpcodeType::AxsIx),
            0x84 => Some(OpcodeType::StyZp),
            0x85 => Some(OpcodeType::StaZp),
            0x86 => Some(OpcodeType::StxZp),
            0x87 => Some(OpcodeType::AxsZp),
            0x88 => Some(OpcodeType::Dey),
            0x89 => Some(OpcodeType::Skb13),
            0x8A => Some(OpcodeType::Txa),
            0x8C => Some(OpcodeType::StyA),
            0x8D => Some(OpcodeType::StaA),
            0x8E => Some(OpcodeType::StxA),
            0x8F => Some(OpcodeType::AxsA),
            0x90 => Some(OpcodeType::Bcc),
            0x91 => Some(OpcodeType::StaIy),
            0x93 => Some(OpcodeType::AxaIy),
            0x94 => Some(OpcodeType::StyZpx),
            0x95 => Some(OpcodeType::StaZpx),
            0x96 => Some(OpcodeType::StxZpy),
            0x97 => Some(OpcodeType::AxsZpy),
            0x98 => Some(OpcodeType::Tya),
            0x99 => Some(OpcodeType::StaAy),
            0x9A => Some(OpcodeType::Txs),
            0x9C => Some(OpcodeType::Say),
            0x9D => Some(OpcodeType::StaAx),
            0x9F => Some(OpcodeType::AxaAy),
            0xA0 => Some(OpcodeType::LdyI),
            0xA1 => Some(OpcodeType::LdaIx),
            0xA2 => Some(OpcodeType::LdxI),
            0xA3 => Some(OpcodeType::LaxIx),
            0xA4 => Some(OpcodeType::LdyZp),
            0xA5 => Some(OpcodeType::LdaZp),
            0xA6 => Some(OpcodeType::LdxZp),
            0xA7 => Some(OpcodeType::LaxZp),
            0xA8 => Some(OpcodeType::Tay),
            0xA9 => Some(OpcodeType::LdaI),
            0xAA => Some(OpcodeType::Tax),
            0xAC => Some(OpcodeType::LdyA),
            0xAD => Some(OpcodeType::LdaA),
            0xAE => Some(OpcodeType::LdxA),
            0xAF => Some(OpcodeType::LaxA),
            0xB0 => Some(OpcodeType::Bcs),
            0xB1 => Some(OpcodeType::LdaIy),
            0xB3 => Some(OpcodeType::LaxIy),
            0xB4 => Some(OpcodeType::LdyZpx),
            0xB5 => Some(OpcodeType::LdaZpx),
            0xB6 => Some(OpcodeType::LdxZpy),
            0xB7 => Some(OpcodeType::LaxZpy),
            0xB8 => Some(OpcodeType::Clv),
            0xB9 => Some(OpcodeType::LdaAy),
            0xBA => Some(OpcodeType::Tsx),
            0xBC => Some(OpcodeType::LdyAx),
            0xBD => Some(OpcodeType::LdaAx),
            0xBE => Some(OpcodeType::LdxAy),
            0xBF => Some(OpcodeType::LaxAy),
            0xC0 => Some(OpcodeType::CpyI),
            0xC1 => Some(OpcodeType::CmpIx),
            0xC2 => Some(OpcodeType::Skb2),
            0xC3 => Some(OpcodeType::DcmIx),
            0xC4 => Some(OpcodeType::CpyZp),
            0xC5 => Some(OpcodeType::CmpZp),
            0xC6 => Some(OpcodeType::DecZp),
            0xC7 => Some(OpcodeType::DcmZp),
            0xC8 => Some(OpcodeType::Iny),
            0xC9 => Some(OpcodeType::CmpI),
            0xCA => Some(OpcodeType::Dex),
            0xCC => Some(OpcodeType::CpyA),
            0xCD => Some(OpcodeType::CmpA),
            0xCE => Some(OpcodeType::DecA),
            0xCF => Some(OpcodeType::DcmA),
            0xD0 => Some(OpcodeType::Bne),
            0xD1 => Some(OpcodeType::CmpIy),
            0xD3 => Some(OpcodeType::DcmIy),
            0xD4 => Some(OpcodeType::Skb11),
            0xD5 => Some(OpcodeType::CmpZpx),
            0xD6 => Some(OpcodeType::DecZpx),
            0xD7 => Some(OpcodeType::DcmZpx),
            0xD8 => Some(OpcodeType::Cld),
            0xD9 => Some(OpcodeType::CmpAy),
            0xDA => Some(OpcodeType::Nop5),
            0xDB => Some(OpcodeType::DcmAy),
            0xDC => Some(OpcodeType::Skb19),
            0xDD => Some(OpcodeType::CmpAx),
            0xDE => Some(OpcodeType::DecAx),
            0xDF => Some(OpcodeType::DcmAx),
            0xE0 => Some(OpcodeType::CpxI),
            0xE1 => Some(OpcodeType::SbcIx),
            0xE2 => Some(OpcodeType::Skb3),
            0xE3 => Some(OpcodeType::InsIx),
            0xE4 => Some(OpcodeType::CpxZp),
            0xE5 => Some(OpcodeType::SbcZp),
            0xE6 => Some(OpcodeType::IncZp),
            0xE7 => Some(OpcodeType::InsZp),
            0xE8 => Some(OpcodeType::Inx),
            0xE9 => Some(OpcodeType::SbcI),
            0xEA => Some(OpcodeType::Nop),
            0xEB => Some(OpcodeType::Sbc1I),
            0xEC => Some(OpcodeType::CpxA),
            0xED => Some(OpcodeType::SbcA),
            0xEE => Some(OpcodeType::IncA),
            0xEF => Some(OpcodeType::InsA),
            0xF0 => Some(OpcodeType::Beq),
            0xF1 => Some(OpcodeType::SbcIy),
            0xF3 => Some(OpcodeType::InsIy),
            0xF4 => Some(OpcodeType::Skb12),
            0xF5 => Some(OpcodeType::SbcZpx),
            0xF6 => Some(OpcodeType::IncZpx),
            0xF7 => Some(OpcodeType::InsZpx),
            0xF8 => Some(OpcodeType::Sed),
            0xF9 => Some(OpcodeType::SbcAy),
            0xFA => Some(OpcodeType::Nop6),
            0xFB => Some(OpcodeType::InsAy),
            0xFC => Some(OpcodeType::Skb20),
            0xFD => Some(OpcodeType::SbcAx),
            0xFE => Some(OpcodeType::IncAx),
            0xFF => Some(OpcodeType::InsAx),
            _ => None,
        }
    }

    /// The byte that encodes the opcode.
    pub fn to_u8(self) -> (value: u8)
        ensures
            value == self.spec_to_u8(),
    {
        match self {
            OpcodeType::Brk => 0x00,
            OpcodeType::AdcI => 0x69,
            OpcodeType::AdcZp => 0x65,
            OpcodeType::AdcZpx => 0x75,
            OpcodeType::AdcA => 0x6D,
            OpcodeType::AdcAx => 0x7D,
            OpcodeType::AdcAy => 0x79,
            OpcodeType::AdcIx => 0x61,
            OpcodeType::AdcIy => 0x71,
            OpcodeType::AndI => 0x29,
            OpcodeType::AndZp => 0x25,
            OpcodeType::AndZpx => 0x35,
            OpcodeType::AndA => 0x2D,
            OpcodeType::AndAx => 0x3D,
            OpcodeType::AndAy => 0x39,
            OpcodeType::AndIx => 0x21,
            OpcodeType::AndIy => 0x31,
            OpcodeType::AslAcc => 0x0A,
            OpcodeType::AslZp => 0x06,
            OpcodeType::AslZpx => 0x16,
            OpcodeType::AslA => 0x0E,
            OpcodeType::AslAx => 0x1E,
            OpcodeType::LsrAcc => 0x4A,
            OpcodeType::LsrZp => 0x46,
            OpcodeType::LsrZpx => 0x56,
            OpcodeType::LsrA => 0x4E,
            OpcodeType::LsrAx => 0x5E,
            OpcodeType::Bcc => 0x90,
            OpcodeType::Bcs => 0xB0,
            OpcodeType::Beq => 0xF0,
            OpcodeType::BitZp => 0x24,
            OpcodeType::BitA => 0x2C,
            OpcodeType::Bmi => 0x30,
            OpcodeType::Bne => 0xD0,
            OpcodeType::Bpl => 0x10,
            OpcodeType::Bvc => 0x50,
            OpcodeType::Bvs => 0x70,
            OpcodeType::Clc => 0x18,
            OpcodeType::Cld => 0xD8,
            OpcodeType::Cli => 0x58,
            OpcodeType::Clv => 0xB8,
            OpcodeType::CmpI => 0xC9,
            OpcodeType::CmpZp => 0xC5,
            OpcodeType::CmpZpx => 0xD5,
            OpcodeType::CmpA => 0xCD,
            OpcodeType::CmpAx => 0xDD,
            OpcodeType::CmpAy => 0xD9,
            OpcodeType::CmpIx => 0xC1,
            OpcodeType::CmpIy => 0xD1,
            OpcodeType::CpxI => 0xE0,
            OpcodeType::CpxZp => 0xE4,
            OpcodeType::CpxA => 0xEC,
            OpcodeType::CpyI => 0xC0,
            OpcodeType::CpyZp => 0xC4,
            OpcodeType::CpyA => 0xCC,
            OpcodeType::DecZp => 0xC6,
            OpcodeType::DecZpx => 0xD6,
            OpcodeType::DecA => 0xCE,
            OpcodeType::DecAx => 0xDE,
            OpcodeType::Dex => 0xCA,
            OpcodeType::Dey => 0x88,
            OpcodeType::IncZp => 0xE6,
            OpcodeType::IncZpx => 0xF6,
            OpcodeType::IncA => 0xEE,
            OpcodeType::IncAx => 0xFE,
            OpcodeType::Inx => 0xE8,
            OpcodeType::Iny => 0xC8,
            OpcodeType::EorI => 0x49,
            OpcodeType::EorZp => 0x45,
            OpcodeType::EorZpx => 0x55,
            OpcodeType::EorA => 0x4D,
            OpcodeType::EorAx => 0x5D,
            OpcodeType::EorAy => 0x59,
            OpcodeType::EorIx => 0x41,
            OpcodeType::EorIy => 0x51,
            OpcodeType::JmpA => 0x4C,
            OpcodeType::JmpInd => 0x6C,
            OpcodeType::Jsr => 0x20,
            OpcodeType::LdaI => 0xA9,
            OpcodeType::LdaZp => 0xA5,
            OpcodeType::LdaZpx => 0xB5,
            OpcodeType::LdaA => 0xAD,
            OpcodeType::LdaAx => 0xBD,
            OpcodeType::LdaAy => 0xB9,
            OpcodeType::LdaIx => 0xA1,
            OpcodeType::LdaIy => 0xB1,
            OpcodeType::LdxI => 0xA2,
            OpcodeType::LdxZp => 0xA6,
            OpcodeType::LdxZpy => 0xB6,
            OpcodeType::LdxA => 0xAE,
            OpcodeType::LdxAy => 0xBE,
            OpcodeType::LdyI => 0xA0,
            OpcodeType::LdyZp => 0xA4,
            OpcodeType::LdyZpx => 0xB4,
            OpcodeType::LdyA => 0xAC,
            OpcodeType::LdyAx => 0xBC,
            OpcodeType::NopHlt => 0x02,
            OpcodeType::Nop => 0xEA,
            OpcodeType::Nop1 => 0x1A,
            OpcodeType::Nop2 => 0x3A,
            OpcodeType::Nop3 => 0x5A,
            OpcodeType::Nop4 => 0x7A,
            OpcodeType::Nop5 => 0xDA,
            OpcodeType::Nop6 => 0xFA,
            OpcodeType::OraI => 0x09,
            OpcodeType::OraZp => 0x05,
            OpcodeType::OraZpx => 0x15,
            OpcodeType::OraA => 0x0D,
            OpcodeType::OraAx => 0x1D,
            OpcodeType::OraAy => 0x19,
            OpcodeType::OraIx => 0x01,
            OpcodeType::OraIy => 0x11,
            OpcodeType::Pha => 0x48,
            OpcodeType::Php => 0x08,
            OpcodeType::Pla => 0x68,
            OpcodeType::Plp => 0x28,
            OpcodeType::RolAcc => 0x2A,
            OpcodeType::RolZp => 0x26,
            OpcodeType::RolZpx => 0x36,
            OpcodeType::RolA => 0x2E,
            OpcodeType::RolAx => 0x3E,
            OpcodeType::RorAcc => 0x6A,
            OpcodeType::RorZp => 0x66,
            OpcodeType::RorZpx => 0x76,
            OpcodeType::RorA => 0x6E,
            OpcodeType::RorAx => 0x7E,
            OpcodeType::Rti => 0x40,
            OpcodeType::Rts => 0x60,
            OpcodeType::SbcI => 0xE9,
            OpcodeType::SbcZp => 0xE5,
            OpcodeType::SbcZpx => 0xF5,
            OpcodeType::SbcA => 0xED,
            OpcodeType::SbcAx => 0xFD,
            OpcodeType::SbcAy => 0xF9,
            OpcodeType::SbcIx => 0xE1,
            OpcodeType::SbcIy => 0xF1,
            OpcodeType::Sec => 0x38,
            OpcodeType::Sed => 0xF8,
            OpcodeType::Sei => 0x78,
            OpcodeType::StaZp => 0x85,
            OpcodeType::StaZpx => 0x95,
            OpcodeType::StaA => 0x8D,
            OpcodeType::StaAx => 0x9D,
            OpcodeType::StaAy => 0x99,
            OpcodeType::StaIx => 0x81,
            OpcodeType::StaIy => 0x91,
            OpcodeType::StxZp => 0x86,
            OpcodeType::StxZpy => 0x96,
            OpcodeType::StxA => 0x8E,
            OpcodeType::StyZp => 0x84,
            OpcodeType::StyZpx => 0x94,
            OpcodeType::StyA => 0x8C,
            OpcodeType::Tax => 0xAA,
            OpcodeType::Tay => 0xA8,
            OpcodeType::Tsx => 0xBA,
            OpcodeType::Txa => 0x8A,
            OpcodeType::Txs => 0x9A,
            OpcodeType::Tya => 0x98,
            OpcodeType::AsoZp => 0x07,
            OpcodeType::AsoZpx => 0x17,
            OpcodeType::AsoA => 0x0F,
            OpcodeType::AsoAx => 0x1F,
            OpcodeType::AsoAy => 0x1B,
            OpcodeType::AsoIx => 0x03,
            OpcodeType::AsoIy => 0x13,
            OpcodeType::RlaZp => 0x27,
            OpcodeType::RlaZpx => 0x37,
            OpcodeType::RlaA => 0x2F,
            OpcodeType::RlaAx => 0x3F,
            OpcodeType::RlaAy => 0x3B,
            OpcodeType::RlaIx => 0x23,
            OpcodeType::RlaIy => 0x33,
            OpcodeType::LseZp => 0x47,
            OpcodeType::LseZpx => 0x57,
            OpcodeType::LseA => 0x4F,
            OpcodeType::LseAx => 0x5F,
            OpcodeType::LseAy => 0x5B,
            OpcodeType::LseIx => 0x43,
            OpcodeType::LseIy => 0x53,
            OpcodeType::RraZp => 0x67,
            OpcodeType::RraZpx => 0x77,
            OpcodeType::RraA => 0x6F,
            OpcodeType::RraAx => 0x7F,
            OpcodeType::RraAy => 0x7B,
            OpcodeType::RraIx => 0x63,
            OpcodeType::RraIy => 0x73,
            OpcodeType::AxsZp => 0x87,
            OpcodeType::AxsZpy => 0x97,
            OpcodeType::AxsA => 0x8F,
            OpcodeType::AxsIx => 0x83,
            OpcodeType::LaxZp => 0xA7,
            OpcodeType::LaxZpy => 0xB7,
            OpcodeType::LaxA => 0xAF,
            OpcodeType::LaxAy => 0xBF,
            OpcodeType::LaxIx => 0xA3,
            OpcodeType::LaxIy => 0xB3,
            OpcodeType::Skb => 0x80,
            OpcodeType::Skb1 => 0x82,
            OpcodeType::Skb2 => 0xC2,
            OpcodeType::Skb3 => 0xE2,
            OpcodeType::Skb4 => 0x04,
            OpcodeType::Skb5 => 0x14,
            OpcodeType::Skb6 => 0x34,
            OpcodeType::Skb7 => 0x44,
            OpcodeType::Skb8 => 0x54,
            OpcodeType::Skb9 => 0x64,
            OpcodeType::Skb10 => 0x74,
            OpcodeType::Skb11 => 0xD4,
            OpcodeType::Skb12 => 0xF4,
            OpcodeType::Skb13 => 0x89,
            OpcodeType::Skb14 => 0x0C,
            OpcodeType::Skb15 => 0x1C,
            OpcodeType::Skb16 => 0x3C,
            OpcodeType::Skb17 => 0x5C,
            OpcodeType::Skb18 => 0x7C,
            OpcodeType::Skb19 => 0xDC,
            OpcodeType::Skb20 => 0xFC,
            OpcodeType::Sbc1I => 0xEB,
            OpcodeType::DcmZp => 0xC7,
            OpcodeType::DcmZpx => 0xD7,
            OpcodeType::DcmA => 0xCF,
            OpcodeType::DcmAx => 0xDF,
            OpcodeType::DcmAy => 0xDB,
            OpcodeType::DcmIx => 0xC3,
            OpcodeType::DcmIy => 0xD3,
            OpcodeType::InsZp => 0xE7,
            OpcodeType::InsZpx => 0xF7,
            OpcodeType::InsA => 0xEF,
            OpcodeType::InsAx => 0xFF,
            OpcodeType::InsAy => 0xFB,
            OpcodeType::InsIx => 0xE3,
            OpcodeType::InsIy => 0xF3,
            OpcodeType::AxaAy => 0x9F,
            OpcodeType::AxaIy => 0x93,
            OpcodeType::Say => 0x9C,
        }
    }
}

/// What the processor needs to know of an opcode before it runs it.
#[derive(Debug, Clone, Copy)]
pub struct Opcode {
    pub code: OpcodeType,
    pub name: &'static str,
    pub length: u8,
    pub cycles: u8,
    pub memory_mode: MemoryAccessMode,
}

impl Opcode {
    /// A table entry with the given fields.
    pub fn new(
        code: OpcodeType,
        name: &'static str,
        length: u8,
        cycles: u8,
        memory_mode: MemoryAccessMode,
    ) -> (opcode: Opcode)
        ensures
            opcode == (Opcode { code, name, length, cycles, memory_mode }),
    {
        Opcode { code, name, length, cycles, memory_mode }
    }

    /// The table entry of an opcode: its mnemonic, its length in bytes (1
    /// to 3), its base cycle count and its addressing mode.
    pub open spec fn spec_of(code: OpcodeType) -> Opcode {
        match code {
            OpcodeType::Brk => Opcode { code, name: "BRK", length: 1, cycles: 7, memory_mode: MemoryAccessMode::Implied },
            OpcodeType::AdcI => Opcode { code, name: "ADC", length: 2, cycles: 2, memory_mode: MemoryAccessMode::Immediate },
            OpcodeType::AdcZp => Opcode { code, name: "ADC", length: 2, cycles: 3, memory_mode: MemoryAccessMode::ZeroPage },
            OpcodeType::AdcZpx => Opcode { code, name: "ADC", length: 2, cycles: 4, memory_mode: MemoryAccessMode::ZeroPageX },
            OpcodeType::AdcA => Opcode { code, name: "ADC", length: 3, cycles: 4, memory_mode: MemoryAccessMode::Absolute },
            OpcodeType::AdcAx => Opcode { code, name: "ADC", length: 3, cycles: 4, memory_mode: MemoryAccessMode::AbsoluteX(true) },
            OpcodeType::AdcAy => Opcode { code, name: "ADC", length: 3, cycles: 4, memory_mode: MemoryAccessMode::AbsoluteY(true) },
            OpcodeType::AdcIx => Opcode { code, name: "ADC", length: 2, cycles: 6, memory_mode: MemoryAccessMode::IndirectX },
            OpcodeType::AdcIy => Opcode { code, name: "ADC", length: 2, cycles: 5, memory_mode: MemoryAccessMode::IndirectY(true) },
            OpcodeType::AndI => Opcode { code, name: "AND", length: 2, cycles: 2, memory_mode: MemoryAccessMode::Immediate },
            OpcodeType::AndZp => Opcode { code, name: "AND", length: 2, cycles: 3, memory_mode: MemoryAccessMode::ZeroPage },
            OpcodeType::AndZpx => Opcode { code, name: "AND", length: 2, cycles: 4, memory_mode: MemoryAccessMode::ZeroPageX },
            OpcodeType::AndA => Opcode { code, name: "AND", length: 3, cycles: 4, memory_mode: MemoryAccessMode::Absolute },
            OpcodeType::AndAx => Opcode { code, name: "AND", length: 3, cycles: 4, memory_mode: MemoryAccessMode::AbsoluteX(true) },
            OpcodeType::AndAy => Opcode { code, name: "AND", length: 3, cycles: 4, memory_mode: MemoryAccessMode::AbsoluteY(true) },
            OpcodeType::AndIx => Opcode { code, name: "AND", length: 2, cycles: 6, memory_mode: MemoryAccessMode::IndirectX },
            OpcodeType::AndIy => Opcode { code, name: "AND", length: 2, cycles: 5, memory_mode: MemoryAccessMode::IndirectY(true) },
            OpcodeType::AslAcc => Opcode { code, name: "ASL", length: 1, cycles: 2, memory_mode: MemoryAccessMode::Accumulator },
            OpcodeType::AslZp => Opcode { code, name: "ASL", length: 2, cycles: 5, memory_mode: MemoryAccessMode::ZeroPage },
            OpcodeType::AslZpx => Opcode { code, name: "ASL", length: 2, cycles: 6, memory_mode: MemoryAccessMode::ZeroPageX },
            OpcodeType::AslA => Opcode { code, name: "ASL", length: 3, cycles: 6, memory_mode: MemoryAccessMode::Absolute },
            OpcodeType::AslAx => Opcode { code, name: "ASL", length: 3, cycles: 7, memory_mode: MemoryAccessMode::AbsoluteX(false) },
            OpcodeType::LsrAcc => Opcode { code, name: "LSR", length: 1, cycles: 2, memory_mode: MemoryAccessMode::Accumulator },
            OpcodeType::LsrZp => Opcode { code, name: "LSR", length: 2, cycles: 5, memory_mode: MemoryAccessMode::ZeroPage },
            OpcodeType::LsrZpx => Opcode { code, name: "LSR", length: 2, cycles: 6, memory_mode: MemoryAccessMode::ZeroPageX },
            OpcodeType::LsrA => Opcode { code, name: "LSR", length: 3, cycles: 6, memory_mode: MemoryAccessMode::Absolute },
            OpcodeType::LsrAx => Opcode { code, name: "LSR", length: 3, cycles: 7, memory_mode: MemoryAccessMode::AbsoluteX(false) },
            OpcodeType::Bcc => Opcode { code, name: "BCC", length: 2, cycles: 2, memory_mode: MemoryAccessMode::Relative(true) },
            OpcodeType::Bcs => Opcode { code, name: "BCS", length: 2, cycles: 2, memory_mode: MemoryAccessMode::Relative(true) },
            OpcodeType::Beq => Opcode { code, name: "BEQ", length: 2, cycles: 2, memory_mode: MemoryAccessMode::Relative(true) },
            OpcodeType::BitZp => Opcode { code, name: "BIT", length: 2, cycles: 3, memory_mode: MemoryAccessMode::ZeroPage },
            OpcodeType::BitA => Opcode { code, name: "BIT", length: 3, cycles: 4, memory_mode: MemoryAccessMode::Absolute },
            OpcodeType::Bmi => Opcode { code, name: "BMI", length: 2, cycles: 2, memory_mode: MemoryAccessMode::Relative(true) },
            OpcodeType::Bne => Opcode { code, name: "BNE", length: 2, cycles: 2, memory_mode: MemoryAccessMode::Relative(true) },
            OpcodeType::Bpl => Opcode { code, name: "BPL", length: 2, cycles: 2, memory_mode: MemoryAccessMode::Relative(true) },
            OpcodeType::Bvc => Opcode { code, name: "BVC", length: 2, cycles: 2, memory_mode: MemoryAccessMode::Relative(true) },
            OpcodeType::Bvs => Opcode { code, name: "BVS", length: 2, cycles: 2, memory_mode: MemoryAccessMode::Relative(true) },
            OpcodeType::Clc => Opcode { code, name: "CLC", length: 1, cycles: 2, memory_mode: MemoryAccessMode::Implied },
            OpcodeType::Cld => Opcode { code, name: "CLD", length: 1, cycles: 2, memory_mode: MemoryAccessMode::Implied },
            OpcodeType::Cli => Opcode { code, name: "CLI", length: 1, cycles: 2, memory_mode: MemoryAccessMode::Implied },
            OpcodeType::Clv => Opcode { code, name: "CLV", length: 1, cycles: 2, memory_mode: MemoryAccessMode::Implied },
            OpcodeType::CmpI => Opcode { code, name: "CMP", length: 2, cycles: 2, memory_mode: MemoryAccessMode::Immediate },
            OpcodeType::CmpZp => Opcode { code, name: "CMP", length: 2, cycles: 3, memory_mode: MemoryAccessMode::ZeroPage },
            OpcodeType::CmpZpx => Opcode { code, name: "CMP", length: 2, cycles: 4, memory_mode: MemoryAccessMode::ZeroPageX },
            OpcodeType::CmpA => Opcode { code, name: "CMP", length: 3, cycles: 4, memory_mode: MemoryAccessMode::Absolute },
            OpcodeType::CmpAx => Opcode { code, name: "CMP", length: 3, cycles: 4, memory_mode: MemoryAccessMode::AbsoluteX(true) },
            OpcodeType::CmpAy => Opcode { code, name: "CMP", length: 3, cycles: 4, memory_mode: MemoryAccessMode::AbsoluteY(true) },
            OpcodeType::CmpIx => Opcode { code, name: "CMP", length: 2, cycles: 6, memory_mode: MemoryAccessMode::IndirectX },
            OpcodeType::CmpIy => Opcode { code, name: "CMP", length: 2, cycles: 5, memory_mode: MemoryAccessMode::IndirectY(true) },
            OpcodeType::CpxI => Opcode { code, name: "CPX", length: 2, cycles: 2, memory_mode: MemoryAccessMode::Immediate },
            OpcodeType::CpxZp => Opcode { code, name: "CPX", length: 2, cycles: 3, memory_mode: MemoryAccessMode::ZeroPage },
            OpcodeType::CpxA => Opcode { code, name: "CPX", length: 3, cycles: 4, memory_mode: MemoryAccessMode::Absolute },
            OpcodeType::CpyI => Opcode { code, name: "CPY", length: 2, cycles: 2, memory_mode: MemoryAccessMode::Immediate },
            OpcodeType::CpyZp => Opcode { code, name: "CPY", length: 2, cycles: 3, memory_mode: MemoryAccessMode::ZeroPage },
            OpcodeType::CpyA => Opcode { code, name: "CPY", length: 3, cycles: 4, memory_mode: MemoryAccessMode::Absolute },
            OpcodeType::DecZp => Opcode { code, name: "DEC", length: 2, cycles: 5, memory_mode: MemoryAccessMode::ZeroPage },
            OpcodeType::DecZpx => Opcode { code, name: "DEC", length: 2, cycles: 6, memory_mode: MemoryAccessMode::ZeroPageX },
            OpcodeType::DecA => Opcode { code, name: "DEC", length: 3, cycles: 6, memory_mode: MemoryAccessMode::Absolute },
            OpcodeType::DecAx => Opcode { code, name: "DEC", length: 3, cycles: 7, memory_mode: MemoryAccessMode::AbsoluteX(false) },
            OpcodeType::Dex => Opcode { code, name: "DEX", length: 1, cycles: 2, memory_mode: MemoryAccessMode::Implied },
            OpcodeType::Dey => Opcode { code, name: "DEY", length: 1, cycles: 2, memory_mode: MemoryAccessMode::Implied },
            OpcodeType::EorI => Opcode { code, name: "EOR", length: 2, cycles: 2, memory_mode: MemoryAccessMode::Immediate },
            OpcodeType::EorZp => Opcode { code, name: "EOR", length: 2, cycles: 3, memory_mode: MemoryAccessMode::ZeroPage },
            OpcodeType::EorZpx => Opcode { code, name: "EOR", length: 2, cycles: 4, memory_mode: MemoryAccessMode::ZeroPageX },
            OpcodeType::EorA => Opcode { code, name: "EOR", length: 3, cycles: 4, memory_mode: MemoryAccessMode::Absolute },
            OpcodeType::EorAx => Opcode { code, name: "EOR", length: 3, cycles: 4, memory_mode: MemoryAccessMode::AbsoluteX(true) },
            OpcodeType::EorAy => Opcode { code, name: "EOR", length: 3, cycles: 4, memory_mode: MemoryAccessMode::AbsoluteY(true) },
            OpcodeType::EorIx => Opcode { code, name: "EOR", length: 2, cycles: 6, memory_mode: MemoryAccessMode::IndirectX },
            OpcodeType::EorIy => Opcode { code, name: "EOR", length: 2, cycles: 5, memory_mode: MemoryAccessMode::IndirectY(true) },
            OpcodeType::IncZp => Opcode { code, name: "INC", length: 2, cycles: 5, memory_mode: MemoryAccessMode::ZeroPage },
            OpcodeType::IncZpx => Opcode { code, name: "INC", length: 2, cycles: 6, memory_mode: MemoryAccessMode::ZeroPageX },
            OpcodeType::IncA => Opcode { code, name: "INC", length: 3, cycles: 6, memory_mode: MemoryAccessMode::Absolute },
            OpcodeType::IncAx => Opcode { code, name: "INC", length: 3, cycles: 7, memory_mode: MemoryAccessMode::AbsoluteX(false) },
            OpcodeType::Inx => Opcode { code, name: "INX", length: 1, cycles: 2, memory_mode: MemoryAccessMode::Implied },
            OpcodeType::Iny => Opcode { code, name: "INY", length: 1, cycles: 2, memory_mode: MemoryAccessMode::Implied },
            OpcodeType::JmpA => Opcode { code, name: "JMP", length: 3, cycles: 3, memory_mode: MemoryAccessMode::Absolute },
            OpcodeType::JmpInd => Opcode { code, name: "JMP", length: 3, cycles: 5, memory_mode: MemoryAccessMode::Indirect },
            OpcodeType::Jsr => Opcode { code, name: "JSR", length: 3, cycles: 6, memory_mode: MemoryAccessMode::Absolute },
            OpcodeType::LdaI => Opcode { code, name: "LDA", length: 2, cycles: 2, memory_mode: MemoryAccessMode::Immediate },
            OpcodeType::LdaZp => Opcode { code, name: "LDA", length: 2, cycles: 3, memory_mode: MemoryAccessMode::ZeroPage },
            OpcodeType::LdaZpx => Opcode { code, name: "LDA", length: 2, cycles: 4, memory_mode: MemoryAccessMode::ZeroPageX },
            OpcodeType::LdaA => Opcode { code, name: "LDA", length: 3, cycles: 4, memory_mode: MemoryAccessMode::Absolute },
            OpcodeType::LdaAx => Opcode { code, name: "LDA", length: 3, cycles: 4, memory_mode: MemoryAccessMode::AbsoluteX(true) },
            OpcodeType::LdaAy => Opcode { code, name: "LDA", length: 3, cycles: 4, memory_mode: MemoryAccessMode::AbsoluteY(true) },
            OpcodeType::LdaIx => Opcode { code, name: "LDA", length: 2, cycles: 6, memory_mode: MemoryAccessMode::IndirectX },
            OpcodeType::LdaIy => Opcode { code, name: "LDA", length: 2, cycles: 5, memory_mode: MemoryAccessMode::IndirectY(true) },
            OpcodeType::LdxI => Opcode { code, name: "LDX", length: 2, cycles: 2, memory_mode: MemoryAccessMode::Immediate },
            OpcodeType::LdxZp => Opcode { code, name: "LDX", length: 2, cycles: 3, memory_mode: MemoryAccessMode::ZeroPage },
            OpcodeType::LdxZpy => Opcode { code, name: "LDX", length: 2, cycles: 4, memory_mode: MemoryAccessMode::ZeroPageY },
            OpcodeType::LdxA => Opcode { code, name: "LDX", length: 3, cycles: 4, memory_mode: MemoryAccessMode::Absolute },
            OpcodeType::LdxAy => Opcode { code, name: "LDX", length: 3, cycles: 4, memory_mode: MemoryAccessMode::AbsoluteY(true) },
            OpcodeType::LdyI => Opcode { code, name: "LDY", length: 2, cycles: 2, memory_mode: MemoryAccessMode::Immediate },
            OpcodeType::LdyZp => Opcode { code, name: "LDY", length: 2, cycles: 3, memory_mode: MemoryAccessMode::ZeroPage },
            OpcodeType::LdyZpx => Opcode { code, name: "LDY", length: 2, cycles: 4, memory_mode: MemoryAccessMode::ZeroPageX },
            OpcodeType::LdyA => Opcode { code, name: "LDY", length: 3, cycles: 4, memory_mode: MemoryAccessMode::Absolute },
            OpcodeType::LdyAx => Opcode { code, name: "LDY", length: 3, cycles: 4, memory_mode: MemoryAccessMode::AbsoluteX(true) },
            OpcodeType::NopHlt => Opcode { code, name: "HLT", length: 1, cycles: 2, memory_mode: MemoryAccessMode::Implied },
            OpcodeType::Nop => Opcode { code, name: "NOP", length: 1, cycles: 2, memory_mode: MemoryAccessMode::Implied },
            OpcodeType::Nop1 => Opcode { code, name: "NOP1", length: 1, cycles: 2, memory_mode: MemoryAccessMode::Implied },
            OpcodeType::Nop2 => Opcode { code, name: "NOP2", length: 1, cycles: 2, memory_mode: MemoryAccessMode::Implied },
            OpcodeType::Nop3 => Opcode { code, name: "NOP3", length: 1, cycles: 2, memory_mode: MemoryAccessMode::Implied },
            OpcodeType::Nop4 => Opcode { code, name: "NOP4", length: 1, cycles: 2, memory_mode: MemoryAccessMode::Implied },
            OpcodeType::Nop5 => Opcode { code, name: "NOP5", length: 1, cycles: 2, memory_mode: MemoryAccessMode::Implied },
            OpcodeType::Nop6 => Opcode { code, name: "NOP6", length: 1, cycles: 2, memory_mode: MemoryAccessMode::Implied },
            OpcodeType::OraI => Opcode { code, name: "ORA", length: 2, cycles: 2, memory_mode: MemoryAccessMode::Immediate },
            OpcodeType::OraZp => Opcode { code, name: "ORA", length: 2, cycles: 3, memory_mode: MemoryAccessMode::ZeroPage },
            OpcodeType::OraZpx => Opcode { code, name: "ORA", length: 2, cycles: 4, memory_mode: MemoryAccessMode::ZeroPageX },
            OpcodeType::OraA => Opcode { code, name: "ORA", length: 3, cycles: 4, memory_mode: MemoryAccessMode::Absolute },
            OpcodeType::OraAx => Opcode { code, name: "ORA", length: 3, cycles: 4, memory_mode: MemoryAccessMode::AbsoluteX(true) },
            OpcodeType::OraAy => Opcode { code, name: "ORA", length: 3, cycles: 4, memory_mode: MemoryAccessMode::AbsoluteY(true) },
            OpcodeType::OraIx => Opcode { code, name: "ORA", length: 2, cycles: 6, memory_mode: MemoryAccessMode::IndirectX },
            OpcodeType::OraIy => Opcode { code, name: "ORA", length: 2, cycles: 5, memory_mode: MemoryAccessMode::IndirectY(true) },
            OpcodeType::Pha => Opcode { code, name: "PHA", length: 1, cycles: 3, memory_mode: MemoryAccessMode::Implied },
            OpcodeType::Php => Opcode { code, name: "PHP", length: 1, cycles: 3, memory_mode: MemoryAccessMode::Implied },
            OpcodeType::Pla => Opcode { code, name: "PLA", length: 1, cycles: 4, memory_mode: MemoryAccessMode::Implied },
            OpcodeType::Plp => Opcode { code, name: "PLP", length: 1, cycles: 4, memory_mode: MemoryAccessMode::Implied },
            OpcodeType::RolAcc => Opcode { code, name: "ROL", length: 1, cycles: 2, memory_mode: MemoryAccessMode::Accumulator },
            OpcodeType::RolZp => Opcode { code, name: "ROL", length: 2, cycles: 5, memory_mode: MemoryAccessMode::ZeroPage },
            OpcodeType::RolZpx => Opcode { code, name: "ROL", length: 2, cycles: 6, memory_mode: MemoryAccessMode::ZeroPageX },
            OpcodeType::RolA => Opcode { code, name: "ROL", length: 3, cycles: 6, memory_mode: MemoryAccessMode::Absolute },
            OpcodeType::RolAx => Opcode { code, name: "ROL", length: 3, cycles: 7, memory_mode: MemoryAccessMode::AbsoluteX(false) },
            OpcodeType::RorAcc => Opcode { code, name: "ROR", length: 1, cycles: 2, memory_mode: MemoryAccessMode::Accumulator },
            OpcodeType::RorZp => Opcode { code, name: "ROR", length: 2, cycles: 5, memory_mode: MemoryAccessMode::ZeroPage },
            OpcodeType::RorZpx => Opcode { code, name: "ROR", length: 2, cycles: 6, memory_mode: MemoryAccessMode::ZeroPageX },
            OpcodeType::RorA => Opcode { code, name: "ROR", length: 3, cycles: 6, memory_mode: MemoryAccessMode::Absolute },
            OpcodeType::RorAx => Opcode { code, name: "ROR", length: 3, cycles: 7, memory_mode: MemoryAccessMode::AbsoluteX(false) },
            OpcodeType::Rti => Opcode { code, name: "RTI", length: 1, cycles: 6, memory_mode: MemoryAccessMode::Implied },
            OpcodeType::Rts => Opcode { code, name: "RTS", length: 1, cycles: 6, memory_mode: MemoryAccessMode::Implied },
            OpcodeType::SbcI => Opcode { code, name: "SBC", length: 2, cycles: 2, memory_mode: MemoryAccessMode::Immediate },
            OpcodeType::SbcZp => Opcode { code, name: "SBC", length: 2, cycles: 3, memory_mode: MemoryAccessMode::ZeroPage },
            OpcodeType::SbcZpx => Opcode { code, name: "SBC", length: 2, cycles: 4, memory_mode: MemoryAccessMode::ZeroPageX },
            OpcodeType::SbcA => Opcode { code, name: "SBC", length: 3, cycles: 4, memory_mode: MemoryAccessMode::Absolute },
            OpcodeType::SbcAx => Opcode { code, name: "SBC", length: 3, cycles: 4, memory_mode: MemoryAccessMode::AbsoluteX(true) },
            OpcodeType::SbcAy => Opcode { code, name: "SBC", length: 3, cycles: 4, memory_mode: MemoryAccessMode::AbsoluteY(true) },
            OpcodeType::SbcIx => Opcode { code, name: "SBC", length: 2, cycles: 6, memory_mode: MemoryAccessMode::IndirectX },
            OpcodeType::SbcIy => Opcode { code, name: "SBC", length: 2, cycles: 5, memory_mode: MemoryAccessMode::IndirectY(true) },
            OpcodeType::Sec => Opcode { code, name: "SEC", length: 1, cycles: 2, memory_mode: MemoryAccessMode::Implied },
            OpcodeType::Sed => Opcode { code, name: "SED", length: 1, cycles: 2, memory_mode: MemoryAccessMode::Implied },
            OpcodeType::Sei => Opcode { code, name: "SEI", length: 1, cycles: 2, memory_mode: MemoryAccessMode::Implied },
            OpcodeType::StaZp => Opcode { code, name: "STA", length: 2, cycles: 3, memory_mode: MemoryAccessMode::ZeroPage },
            OpcodeType::StaZpx => Opcode { code, name: "STA", length: 2, cycles: 4, memory_mode: MemoryAccessMode::ZeroPageX },
            OpcodeType::StaA => Opcode { code, name: "STA", length: 3, cycles: 4, memory_mode: MemoryAccessMode::Absolute },
            OpcodeType::StaAx => Opcode { code, name: "STA", length: 3, cycles: 5, memory_mode: MemoryAccessMode::AbsoluteX(false) },
            OpcodeType::StaAy => Opcode { code, name: "STA", length: 3, cycles: 5, memory_mode: MemoryAccessMode::AbsoluteY(false) },
            OpcodeType::StaIx => Opcode { code, name: "STA", length: 2, cycles: 6, memory_mode: MemoryAccessMode::IndirectX },
            OpcodeType::StaIy => Opcode { code, name: "STA", length: 2, cycles: 6, memory_mode: MemoryAccessMode::IndirectY(false) },
            OpcodeType::StxZp => Opcode { code, name: "STX", length: 2, cycles: 3, memory_mode: MemoryAccessMode::ZeroPage },
            OpcodeType::StxZpy => Opcode { code, name: "STX", length: 2, cycles: 4, memory_mode: MemoryAccessMode::ZeroPageY },
            OpcodeType::StxA => Opcode { code, name: "STX", length: 3, cycles: 4, memory_mode: MemoryAccessMode::Absolute },
            OpcodeType::StyZp => Opcode { code, name: "STY", length: 2, cycles: 3, memory_mode: MemoryAccessMode::ZeroPage },
            OpcodeType::StyZpx => Opcode { code, name: "STY", length: 2, cycles: 4, memory_mode: MemoryAccessMode::ZeroPageX },
            OpcodeType::StyA => Opcode { code, name: "STX", length: 3, cycles: 4, memory_mode: MemoryAccessMode::Absolute },
            OpcodeType::Tax => Opcode { code, name: "TAX", length: 1, cycles: 2, memory_mode: MemoryAccessMode::Implied },
            OpcodeType::Tay => Opcode { code, name: "TAY", length: 1, cycles: 2, memory_mode: MemoryAccessMode::Implied },
            OpcodeType::Tsx => Opcode { code, name: "TSX", length: 1, cycles: 2, memory_mode: MemoryAccessMode::Implied },
            OpcodeType::Txa => Opcode { code, name: "TXA", length: 1, cycles: 2, memory_mode: MemoryAccessMode::Implied },
            OpcodeType::Txs => Opcode { code, name: "TXS", length: 1, cycles: 2, memory_mode: MemoryAccessMode::Implied },
            OpcodeType::Tya => Opcode { code, name: "TYA", length: 1, cycles: 2, memory_mode: MemoryAccessMode::Implied },
            OpcodeType::AsoZp => Opcode { code, name: "ASO", length: 2, cycles: 5, memory_mode: MemoryAccessMode::ZeroPage },
            OpcodeType::AsoZpx => Opcode { code, name: "ASO", length: 2, cycles: 6, memory_mode: MemoryAccessMode::ZeroPageX },
            OpcodeType::AsoA => Opcode { code, name: "ASO", length: 3, cycles: 6, memory_mode: MemoryAccessMode::Absolute },
            OpcodeType::AsoAx => Opcode { code, name: "ASO", length: 3, cycles: 7, memory_mode: MemoryAccessMode::AbsoluteX(false) },
            OpcodeType::AsoAy => Opcode { code, name: "ASO", length: 3, cycles: 7, memory_mode: MemoryAccessMode::AbsoluteY(false) },
            OpcodeType::AsoIx => Opcode { code, name: "ASO", length: 2, cycles: 8, memory_mode: MemoryAccessMode::IndirectX },
            OpcodeType::AsoIy => Opcode { code, name: "ASO", length: 2, cycles: 8, memory_mode: MemoryAccessMode::IndirectY(false) },
            OpcodeType::RlaZp => Opcode { code, name: "RLA", length: 2, cycles: 5, memory_mode: MemoryAccessMode::ZeroPage },
            OpcodeType::RlaZpx => Opcode { code, name: "RLA", length: 2, cycles: 6, memory_mode: MemoryAccessMode::ZeroPageX },
            OpcodeType::RlaA => Opcode { code, name: "RLA", length: 3, cycles: 6, memory_mode: MemoryAccessMode::Absolute },
            OpcodeType::RlaAx => Opcode { code, name: "RLA", length: 3, cycles: 7, memory_mode: MemoryAccessMode::AbsoluteX(false) },
            OpcodeType::RlaAy => Opcode { code, name: "RLA", length: 3, cycles: 7, memory_mode: MemoryAccessMode::AbsoluteY(false) },
            OpcodeType::RlaIx => Opcode { code, name: "RLA", length: 2, cycles: 8, memory_mode: MemoryAccessMode::IndirectX },
            OpcodeType::RlaIy => Opcode { code, name: "RLA", length: 2, cycles: 8, memory_mode: MemoryAccessMode::IndirectY(false) },
            OpcodeType::LseZp => Opcode { code, name: "LSE", length: 2, cycles: 5, memory_mode: MemoryAccessMode::ZeroPage },
            OpcodeType::LseZpx => Opcode { code, name: "LSE", length: 2, cycles: 6, memory_mode: MemoryAccessMode::ZeroPageX },
            OpcodeType::LseA => Opcode { code, name: "LSE", length: 3, cycles: 6, memory_mode: MemoryAccessMode::Absolute },
            OpcodeType::LseAx => Opcode { code, name: "LSE", length: 3, cycles: 7, memory_mode: MemoryAccessMode::AbsoluteX(false) },
            OpcodeType::LseAy => Opcode { code, name: "LSE", length: 3, cycles: 7, memory_mode: MemoryAccessMode::AbsoluteY(false) },
            OpcodeType::LseIx => Opcode { code, name: "LSE", length: 2, cycles: 8, memory_mode: MemoryAccessMode::IndirectX },
            OpcodeType::LseIy => Opcode { code, name: "LSE", length: 2, cycles: 8, memory_mode: MemoryAccessMode::IndirectY(false) },
            OpcodeType::RraZp => Opcode { code, name: "RRA", length: 2, cycles: 5, memory_mode: MemoryAccessMode::ZeroPage },
            OpcodeType::RraZpx => Opcode { code, name: "RRA", length: 2, cycles: 6, memory_mode: MemoryAccessMode::ZeroPageX },
            OpcodeType::RraA => Opcode { code, name: "RRA", length: 3, cycles: 6, memory_mode: MemoryAccessMode::Absolute },
            OpcodeType::RraAx => Opcode { code, name: "RRA", length: 3, cycles: 7, memory_mode: MemoryAccessMode::AbsoluteX(false) },
            OpcodeType::RraAy => Opcode { code, name: "RRA", length: 3, cycles: 7, memory_mode: MemoryAccessMode::AbsoluteY(false) },
            OpcodeType::RraIx => Opcode { code, name: "RRA", length: 2, cycles: 8, memory_mode: MemoryAccessMode::IndirectX },
            OpcodeType::RraIy => Opcode { code, name: "RRA", length: 2, cycles: 8, memory_mode: MemoryAccessMode::IndirectY(false) },
            OpcodeType::AxsZp => Opcode { code, name: "AXS", length: 2, cycles: 3, memory_mode: MemoryAccessMode::ZeroPage },
            OpcodeType::AxsZpy => Opcode { code, name: "AXS", length: 2, cycles: 4, memory_mode: MemoryAccessMode::ZeroPageY },
            OpcodeType::AxsA => Opcode { code, name: "AXS", length: 3, cycles: 4, memory_mode: MemoryAccessMode::Absolute },
            OpcodeType::AxsIx => Opcode { code, name: "AXS", length: 2, cycles: 6, memory_mode: MemoryAccessMode::IndirectX },
            OpcodeType::LaxZp => Opcode { code, name: "LAX", length: 2, cycles: 3, memory_mode: MemoryAccessMode::ZeroPage },
            OpcodeType::LaxZpy => Opcode { code, name: "LAX", length: 2, cycles: 4, memory_mode: MemoryAccessMode::ZeroPageY },
            OpcodeType::LaxA => Opcode { code, name: "LAX", length: 3, cycles: 4, memory_mode: MemoryAccessMode::Absolute },
            OpcodeType::LaxAy => Opcode { code, name: "LAX", length: 3, cycles: 4, memory_mode: MemoryAccessMode::AbsoluteY(true) },
            OpcodeType::LaxIx => Opcode { code, name: "LAX", length: 2, cycles: 6, memory_mode: MemoryAccessMode::IndirectX },
            OpcodeType::LaxIy => Opcode { code, name: "LAX", length: 2, cycles: 5, memory_mode: MemoryAccessMode::IndirectY(true) },
            OpcodeType::Skb => Opcode { code, name: "SKB", length: 2, cycles: 2, memory_mode: MemoryAccessMode::Immediate },
            OpcodeType::Skb1 => Opcode { code, name: "SKB1", length: 2, cycles: 2, memory_mode: MemoryAccessMode::Immediate },
            OpcodeType::Skb2 => Opcode { code, name: "SKB2", length: 2, cycles: 2, memory_mode: MemoryAccessMode::Immediate },
            OpcodeType::Skb3 => Opcode { code, name: "SKB3", length: 2, cycles: 2, memory_mode: MemoryAccessMode::Immediate },
            OpcodeType::Skb13 => Opcode { code, name: "SKB13", length: 2, cycles: 2, memory_mode: MemoryAccessMode::Immediate },
            OpcodeType::Skb4 => Opcode { code, name: "SKB4", length: 2, cycles: 3, memory_mode: MemoryAccessMode::ZeroPage },
            OpcodeType::Skb5 => Opcode { code, name: "SKB5", length: 2, cycles: 4, memory_mode: MemoryAccessMode::ZeroPageX },
            OpcodeType::Skb6 => Opcode { code, name: "SKB6", length: 2, cycles: 4, memory_mode: MemoryAccessMode::ZeroPageX },
            OpcodeType::Skb7 => Opcode { code, name: "SKB7", length: 2, cycles: 3, memory_mode: MemoryAccessMode::ZeroPage },
            OpcodeType::Skb8 => Opcode { code, name: "SKB8", length: 2, cycles: 4, memory_mode: MemoryAccessMode::ZeroPageX },
            OpcodeType::Skb9 => Opcode { code, name: "SKB9", length: 2, cycles: 3, memory_mode: MemoryAccessMode::ZeroPage },
            OpcodeType::Skb10 => Opcode { code, name: "SKB10", length: 2, cycles: 4, memory_mode: MemoryAccessMode::ZeroPageX },
            OpcodeType::Skb11 => Opcode { code, name: "SKB11", length: 2, cycles: 4, memory_mode: MemoryAccessMode::ZeroPageX },
            OpcodeType::Skb12 => Opcode { code, name: "SKB12", length: 2, cycles: 4, memory_mode: MemoryAccessMode::ZeroPageX },
            OpcodeType::Skb14 => Opcode { code, name: "SKB14", length: 3, cycles: 4, memory_mode: MemoryAccessMode::Absolute },
            OpcodeType::Skb15 => Opcode { code, name: "SKB15", length: 3, cycles: 4, memory_mode: MemoryAccessMode::AbsoluteX(true) },
            OpcodeType::Skb16 => Opcode { code, name: "SKB16", length: 3, cycles: 4, memory_mode: MemoryAccessMode::AbsoluteX(true) },
            OpcodeType::Skb17 => Opcode { code, name: "SKB17", length: 3, cycles: 4, memory_mode: MemoryAccessMode::AbsoluteX(true) },
            OpcodeType::Skb18 => Opcode { code, name: "SKB18", length: 3, cycles: 4, memory_mode: MemoryAccessMode::AbsoluteX(true) },
            OpcodeType::Skb19 => Opcode { code, name: "SKB19", length: 3, cycles: 4, memory_mode: MemoryAccessMode::AbsoluteX(true) },
            OpcodeType::Skb20 => Opcode { code, name: "SKB20", length: 3, cycles: 4, memory_mode: MemoryAccessMode::AbsoluteX(true) },
            OpcodeType::Sbc1I => Opcode { code, name: "SBC1", length: 2, cycles: 2, memory_mode: MemoryAccessMode::Immediate },
            OpcodeType::DcmZp => Opcode { code, name: "DCM", length: 2, cycles: 5, memory_mode: MemoryAccessMode::ZeroPage },
            OpcodeType::DcmZpx => Opcode { code, name: "DCM", length: 2, cycles: 6, memory_mode: MemoryAccessMode::ZeroPageX },
            OpcodeType::DcmA => Opcode { code, name: "DCM", length: 3, cycles: 6, memory_mode: MemoryAccessMode::Absolute },
            OpcodeType::DcmAx => Opcode { code, name: "DCM", length: 3, cycles: 7, memory_mode: MemoryAccessMode::AbsoluteX(false) },
            OpcodeType::DcmAy => Opcode { code, name: "DCM", length: 3, cycles: 7, memory_mode: MemoryAccessMode::AbsoluteY(false) },
            OpcodeType::DcmIx => Opcode { code, name: "DCM", length: 2, cycles: 8, memory_mode: MemoryAccessMode::IndirectX },
            OpcodeType::DcmIy => Opcode { code, name: "DCM", length: 2, cycles: 8, memory_mode: MemoryAccessMode::IndirectY(false) },
            OpcodeType::InsZp => Opcode { code, name: "INS", length: 2, cycles: 5, memory_mode: MemoryAccessMode::ZeroPage },
            OpcodeType::InsZpx => Opcode { code, name: "INS", length: 2, cycles: 6, memory_mode: MemoryAccessMode::ZeroPageX },
            OpcodeType::InsA => Opcode { code, name: "INS", length: 3, cycles: 6, memory_mode: MemoryAccessMode::Absolute },
            OpcodeType::InsAx => Opcode { code, name: "INS", length: 3, cycles: 7, memory_mode: MemoryAccessMode::AbsoluteX(false) },
            OpcodeType::InsAy => Opcode { code, name: "INS", length: 3, cycles: 7, memory_mode: MemoryAccessMode::AbsoluteY(false) },
            OpcodeType::InsIx => Opcode { code, name: "INS", length: 2, cycles: 8, memory_mode: MemoryAccessMode::IndirectX },
            OpcodeType::InsIy => Opcode { code, name: "INS", length: 2, cycles: 8, memory_mode: MemoryAccessMode::IndirectY(false) },
            OpcodeType::AxaAy => Opcode { code, name: "AXA", length: 3, cycles: 5, memory_mode: MemoryAccessMode::AbsoluteY(false) },
            OpcodeType::AxaIy => Opcode { code, name: "AXA", length: 2, cycles: 6, memory_mode: MemoryAccessMode::IndirectY(false) },
            OpcodeType::Say => Opcode { code, name: "SAY", length: 3, cycles: 5, memory_mode: MemoryAccessMode::AbsoluteX(false) },
        }
    }

    /// Looks an opcode up in the table.
    #[verifier::rlimit(100)]
    pub fn of(code: OpcodeType) -> (opcode: Opcode)
        ensures
            opcode == Self::spec_of(code),
            1 <= opcode.length <= 3,
            1 <= opcode.cycles <= 8,
    {
        match code {
            OpcodeType::Brk => Opcode { code, name: "BRK", length: 1, cycles: 7, memory_mode: MemoryAccessMode::Implied },
            OpcodeType::AdcI => Opcode { code, name: "ADC", length: 2, cycles: 2, memory_mode: MemoryAccessMode::Immediate },
            OpcodeType::AdcZp => Opcode { code, name: "ADC", length: 2, cycles: 3, memory_mode: MemoryAccessMode::ZeroPage },
            OpcodeType::AdcZpx => Opcode { code, name: "ADC", length: 2, cycles: 4, memory_mode: MemoryAccessMode::ZeroPageX },
            OpcodeType::AdcA => Opcode { code, name: "ADC", length: 3, cycles: 4, memory_mode: MemoryAccessMode::Absolute },
            OpcodeType::AdcAx => Opcode { code, name: "ADC", length: 3, cycles: 4, memory_mode: MemoryAccessMode::AbsoluteX(true) },
            OpcodeType::AdcAy => Opcode { code, name: "ADC", length: 3, cycles: 4, memory_mode: MemoryAccessMode::AbsoluteY(true) },
            OpcodeType::AdcIx => Opcode { code, name: "ADC", length: 2, cycles: 6, memory_mode: MemoryAccessMode::IndirectX },
            OpcodeType::AdcIy => Opcode { code, name: "ADC", length: 2, cycles: 5, memory_mode: MemoryAccessMode::IndirectY(true) },
            OpcodeType::AndI => Opcode { code, name: "AND", length: 2, cycles: 2, memory_mode: MemoryAccessMode::Immediate },
            OpcodeType::AndZp => Opcode { code, name: "AND", length: 2, cycles: 3, memory_mode: MemoryAccessMode::ZeroPage },
            OpcodeType::AndZpx => Opcode { code, name: "AND", length: 2, cycles: 4, memory_mode: MemoryAccessMode::ZeroPageX },
            OpcodeType::AndA => Opcode { code, name: "AND", length: 3, cycles: 4, memory_mode: MemoryAccessMode::Absolute },
            OpcodeType::AndAx => Opcode { code, name: "AND", length: 3, cycles: 4, memory_mode: MemoryAccessMode::AbsoluteX(true) },
            OpcodeType::AndAy => Opcode { code, name: "AND", length: 3, cycles: 4, memory_mode: MemoryAccessMode::AbsoluteY(true) },
            OpcodeType::AndIx => Opcode { code, name: "AND", length: 2, cycles: 6, memory_mode: MemoryAccessMode::IndirectX },
            OpcodeType::AndIy => Opcode { code, name: "AND", length: 2, cycles: 5, memory_mode: MemoryAccessMode::IndirectY(true) },
            OpcodeType::AslAcc => Opcode { code, name: "ASL", length: 1, cycles: 2, memory_mode: MemoryAccessMode::Accumulator },
            OpcodeType::AslZp => Opcode { code, name: "ASL", length: 2, cycles: 5, memory_mode: MemoryAccessMode::ZeroPage },
            OpcodeType::AslZpx => Opcode { code, name: "ASL", length: 2, cycles: 6, memory_mode: MemoryAccessMode::ZeroPageX },
            OpcodeType::AslA => Opcode { code, name: "ASL", length: 3, cycles: 6, memory_mode: MemoryAccessMode::Absolute },
            OpcodeType::AslAx => Opcode { code, name: "ASL", length: 3, cycles: 7, memory_mode: MemoryAccessMode::AbsoluteX(false) },
            OpcodeType::LsrAcc => Opcode { code, name: "LSR", length: 1, cycles: 2, memory_mode: MemoryAccessMode::Accumulator },
            OpcodeType::LsrZp => Opcode { code, name: "LSR", length: 2, cycles: 5, memory_mode: MemoryAccessMode::ZeroPage },
            OpcodeType::LsrZpx => Opcode { code, name: "LSR", length: 2, cycles: 6, memory_mode: MemoryAccessMode::ZeroPageX },
            OpcodeType::LsrA => Opcode { code, name: "LSR", length: 3, cycles: 6, memory_mode: MemoryAccessMode::Absolute },
            OpcodeType::LsrAx => Opcode { code, name: "LSR", length: 3, cycles: 7, memory_mode: MemoryAccessMode::AbsoluteX(false) },
            OpcodeType::Bcc => Opcode { code, name: "BCC", length: 2, cycles: 2, memory_mode: MemoryAccessMode::Relative(true) },
            OpcodeType::Bcs => Opcode { code, name: "BCS", length: 2, cycles: 2, memory_mode: MemoryAccessMode::Relative(true) },
            OpcodeType::Beq => Opcode { code, name: "BEQ", length: 2, cycles: 2, memory_mode: MemoryAccessMode::Relative(true) },
            OpcodeType::BitZp => Opcode { code, name: "BIT", length: 2, cycles: 3, memory_mode: MemoryAccessMode::ZeroPage },
            OpcodeType::BitA => Opcode { code, name: "BIT", length: 3, cycles: 4, memory_mode: MemoryAccessMode::Absolute },
            OpcodeType::Bmi => Opcode { code, name: "BMI", length: 2, cycles: 2, memory_mode: MemoryAccessMode::Relative(true) },
            OpcodeType::Bne => Opcode { code, name: "BNE", length: 2, cycles: 2, memory_mode: MemoryAccessMode::Relative(true) },
            OpcodeType::Bpl => Opcode { code, name: "BPL", length: 2, cycles: 2, memory_mode: MemoryAccessMode::Relative(true) },
            OpcodeType::Bvc => Opcode { code, name: "BVC", length: 2, cycles: 2, memory_mode: MemoryAccessMode::Relative(true) },
            OpcodeType::Bvs => Opcode { code, name: "BVS", length: 2, cycles: 2, memory_mode: MemoryAccessMode::Relative(true) },
            OpcodeType::Clc => Opcode { code, name: "CLC", length: 1, cycles: 2, memory_mode: MemoryAccessMode::Implied },
            OpcodeType::Cld => Opcode { code, name: "CLD", length: 1, cycles: 2, memory_mode: MemoryAccessMode::Implied },
            OpcodeType::Cli => Opcode { code, name: "CLI", length: 1, cycles: 2, memory_mode: MemoryAccessMode::Implied },
            OpcodeType::Clv => Opcode { code, name: "CLV", length: 1, cycles: 2, memory_mode: MemoryAccessMode::Implied },
            OpcodeType::CmpI => Opcode { code, name: "CMP", length: 2, cycles: 2, memory_mode: MemoryAccessMode::Immediate },
            OpcodeType::CmpZp => Opcode { code, name: "CMP", length: 2, cycles: 3, memory_mode: MemoryAccessMode::ZeroPage },
            OpcodeType::CmpZpx => Opcode { code, name: "CMP", length: 2, cycles: 4, memory_mode: MemoryAccessMode::ZeroPageX },
            OpcodeType::CmpA => Opcode { code, name: "CMP", length: 3, cycles: 4, memory_mode: MemoryAccessMode::Absolute },
            OpcodeType::CmpAx => Opcode { code, name: "CMP", length: 3, cycles: 4, memory_mode: MemoryAccessMode::AbsoluteX(true) },
            OpcodeType::CmpAy => Opcode { code, name: "CMP", length: 3, cycles: 4, memory_mode: MemoryAccessMode::AbsoluteY(true) },
            OpcodeType::CmpIx => Opcode { code, name: "CMP", length: 2, cycles: 6, memory_mode: MemoryAccessMode::IndirectX },
            OpcodeType::CmpIy => Opcode { code, name: "CMP", length: 2, cycles: 5, memory_mode: MemoryAccessMode::IndirectY(true) },
            OpcodeType::CpxI => Opcode { code, name: "CPX", length: 2, cycles: 2, memory_mode: MemoryAccessMode::Immediate },
            OpcodeType::CpxZp => Opcode { code, name: "CPX", length: 2, cycles: 3, memory_mode: MemoryAccessMode::ZeroPage },
            OpcodeType::CpxA => Opcode { code, name: "CPX", length: 3, cycles: 4, memory_mode: MemoryAccessMode::Absolute },
            OpcodeType::CpyI => Opcode { code, name: "CPY", length: 2, cycles: 2, memory_mode: MemoryAccessMode::Immediate },
            OpcodeType::CpyZp => Opcode { code, name: "CPY", length: 2, cycles: 3, memory_mode: MemoryAccessMode::ZeroPage },
            OpcodeType::CpyA => Opcode { code, name: "CPY", length: 3, cycles: 4, memory_mode: MemoryAccessMode::Absolute },
            OpcodeType::DecZp => Opcode { code, name: "DEC", length: 2, cycles: 5, memory_mode: MemoryAccessMode::ZeroPage },
            OpcodeType::DecZpx => Opcode { code, name: "DEC", length: 2, cycles: 6, memory_mode: MemoryAccessMode::ZeroPageX },
            OpcodeType::DecA => Opcode { code, name: "DEC", length: 3, cycles: 6, memory_mode: MemoryAccessMode::Absolute },
            OpcodeType::DecAx => Opcode { code, name: "DEC", length: 3, cycles: 7, memory_mode: MemoryAccessMode::AbsoluteX(false) },
            OpcodeType::Dex => Opcode { code, name: "DEX", length: 1, cycles: 2, memory_mode: MemoryAccessMode::Implied },
            OpcodeType::Dey => Opcode { code, name: "DEY", length: 1, cycles: 2, memory_mode: MemoryAccessMode::Implied },
            OpcodeType::EorI => Opcode { code, name: "EOR", length: 2, cycles: 2, memory_mode: MemoryAccessMode::Immediate },
            OpcodeType::EorZp => Opcode { code, name: "EOR", length: 2, cycles: 3, memory_mode: MemoryAccessMode::ZeroPage },
            OpcodeType::EorZpx => Opcode { code, name: "EOR", length: 2, cycles: 4, memory_mode: MemoryAccessMode::ZeroPageX },
            OpcodeType::EorA => Opcode { code, name: "EOR", length: 3, cycles: 4, memory_mode: MemoryAccessMode::Absolute },
            OpcodeType::EorAx => Opcode { code, name: "EOR", length: 3, cycles: 4, memory_mode: MemoryAccessMode::AbsoluteX(true) },
            OpcodeType::EorAy => Opcode { code, name: "EOR", length: 3, cycles: 4, memory_mode: MemoryAccessMode::AbsoluteY(true) },
            OpcodeType::EorIx => Opcode { code, name: "EOR", length: 2, cycles: 6, memory_mode: MemoryAccessMode::IndirectX },
            OpcodeType::EorIy => Opcode { code, name: "EOR", length: 2, cycles: 5, memory_mode: MemoryAccessMode::IndirectY(true) },
            OpcodeType::IncZp => Opcode { code, name: "INC", length: 2, cycles: 5, memory_mode: MemoryAccessMode::ZeroPage },
            OpcodeType::IncZpx => Opcode { code, name: "INC", length: 2, cycles: 6, memory_mode: MemoryAccessMode::ZeroPageX },
            OpcodeType::IncA => Opcode { code, name: "INC", length: 3, cycles: 6, memory_mode: MemoryAccessMode::Absolute },
            OpcodeType::IncAx => Opcode { code, name: "INC", length: 3, cycles: 7, memory_mode: MemoryAccessMode::AbsoluteX(false) },
            OpcodeType::Inx => Opcode { code, name: "INX", length: 1, cycles: 2, memory_mode: MemoryAccessMode::Implied },
            OpcodeType::Iny => Opcode { code, name: "INY", length: 1, cycles: 2, memory_mode: MemoryAccessMode::Implied },
            OpcodeType::JmpA => Opcode { code, name: "JMP", length: 3, cycles: 3, memory_mode: MemoryAccessMode::Absolute },
            OpcodeType::JmpInd => Opcode { code, name: "JMP", length: 3, cycles: 5, memory_mode: MemoryAccessMode::Indirect },
            OpcodeType::Jsr => Opcode { code, name: "JSR", length: 3, cycles: 6, memory_mode: MemoryAccessMode::Absolute },
            OpcodeType::LdaI => Opcode { code, name: "LDA", length: 2, cycles: 2, memory_mode: MemoryAccessMode::Immediate },
            OpcodeType::LdaZp => Opcode { code, name: "LDA", length: 2, cycles: 3, memory_mode: MemoryAccessMode::ZeroPage },
            OpcodeType::LdaZpx => Opcode { code, name: "LDA", length: 2, cycles: 4, memory_mode: MemoryAccessMode::ZeroPageX },
            OpcodeType::LdaA => Opcode { code, name: "LDA", length: 3, cycles: 4, memory_mode: MemoryAccessMode::Absolute },
            OpcodeType::LdaAx => Opcode { code, name: "LDA", length: 3, cycles: 4, memory_mode: MemoryAccessMode::AbsoluteX(true) },
            OpcodeType::LdaAy => Opcode { code, name: "LDA", length: 3, cycles: 4, memory_mode: MemoryAccessMode::AbsoluteY(true) },
            OpcodeType::LdaIx => Opcode { code, name: "LDA", length: 2, cycles: 6, memory_mode: MemoryAccessMode::IndirectX },
            OpcodeType::LdaIy => Opcode { code, name: "LDA", length: 2, cycles: 5, memory_mode: MemoryAccessMode::IndirectY(true) },
            OpcodeType::LdxI => Opcode { code, name: "LDX", length: 2, cycles: 2, memory_mode: MemoryAccessMode::Immediate },
            OpcodeType::LdxZp => Opcode { code, name: "LDX", length: 2, cycles: 3, memory_mode: MemoryAccessMode::ZeroPage },
            OpcodeType::LdxZpy => Opcode { code, name: "LDX", length: 2, cycles: 4, memory_mode: MemoryAccessMode::ZeroPageY },
            OpcodeType::LdxA => Opcode { code, name: "LDX", length: 3, cycles: 4, memory_mode: MemoryAccessMode::Absolute },
            OpcodeType::LdxAy => Opcode { code, name: "LDX", length: 3, cycles: 4, memory_mode: MemoryAccessMode::AbsoluteY(true) },
            OpcodeType::LdyI => Opcode { code, name: "LDY", length: 2, cycles: 2, memory_mode: MemoryAccessMode::Immediate },
            OpcodeType::LdyZp => Opcode { code, name: "LDY", length: 2, cycles: 3, memory_mode: MemoryAccessMode::ZeroPage },
            OpcodeType::LdyZpx => Opcode { code, name: "LDY", length: 2, cycles: 4, memory_mode: MemoryAccessMode::ZeroPageX },
            OpcodeType::LdyA => Opcode { code, name: "LDY", length: 3, cycles: 4, memory_mode: MemoryAccessMode::Absolute },
            OpcodeType::LdyAx => Opcode { code, name: "LDY", length: 3, cycles: 4, memory_mode: MemoryAccessMode::AbsoluteX(true) },
            OpcodeType::NopHlt => Opcode { code, name: "HLT", length: 1, cycles: 2, memory_mode: MemoryAccessMode::Implied },
            OpcodeType::Nop => Opcode { code, name: "NOP", length: 1, cycles: 2, memory_mode: MemoryAccessMode::Implied },
            OpcodeType::Nop1 => Opcode { code, name: "NOP1", length: 1, cycles: 2, memory_mode: MemoryAccessMode::Implied },
            OpcodeType::Nop2 => Opcode { code, name: "NOP2", length: 1, cycles: 2, memory_mode: MemoryAccessMode::Implied },
            OpcodeType::Nop3 => Opcode { code, name: "NOP3", length: 1, cycles: 2, memory_mode: MemoryAccessMode::Implied },
            OpcodeType::Nop4 => Opcode { code, name: "NOP4", length: 1, cycles: 2, memory_mode: MemoryAccessMode::Implied },
            OpcodeType::Nop5 => Opcode { code, name: "NOP5", length: 1, cycles: 2, memory_mode: MemoryAccessMode::Implied },
            OpcodeType::Nop6 => Opcode { code, name: "NOP6", length: 1, cycles: 2, memory_mode: MemoryAccessMode::Implied },
            OpcodeType::OraI => Opcode { code, name: "ORA", length: 2, cycles: 2, memory_mode: MemoryAccessMode::Immediate },
            OpcodeType::OraZp => Opcode { code, name: "ORA", length: 2, cycles: 3, memory_mode: MemoryAccessMode::ZeroPage },
            OpcodeType::OraZpx => Opcode { code, name: "ORA", length: 2, cycles: 4, memory_mode: MemoryAccessMode::ZeroPageX },
            OpcodeType::OraA => Opcode { code, name: "ORA", length: 3, cycles: 4, memory_mode: MemoryAccessMode::Absolute },
            OpcodeType::OraAx => Opcode { code, name: "ORA", length: 3, cycles: 4, memory_mode: MemoryAccessMode::AbsoluteX(true) },
            OpcodeType::OraAy => Opcode { code, name: "ORA", length: 3, cycles: 4, memory_mode: MemoryAccessMode::AbsoluteY(true) },
            OpcodeType::OraIx => Opcode { code, name: "ORA", length: 2, cycles: 6, memory_mode: MemoryAccessMode::IndirectX },
            OpcodeType::OraIy => Opcode { code, name: "ORA", length: 2, cycles: 5, memory_mode: MemoryAccessMode::IndirectY(true) },
            OpcodeType::Pha => Opcode { code, name: "PHA", length: 1, cycles: 3, memory_mode: MemoryAccessMode::Implied },
            OpcodeType::Php => Opcode { code, name: "PHP", length: 1, cycles: 3, memory_mode: MemoryAccessMode::Implied },
            OpcodeType::Pla => Opcode { code, name: "PLA", length: 1, cycles: 4, memory_mode: MemoryAccessMode::Implied },
            OpcodeType::Plp => Opcode { code, name: "PLP", length: 1, cycles: 4, memory_mode: MemoryAccessMode::Implied },
            OpcodeType::RolAcc => Opcode { code, name: "ROL", length: 1, cycles: 2, memory_mode: MemoryAccessMode::Accumulator },
            OpcodeType::RolZp => Opcode { code, name: "ROL", length: 2, cycles: 5, memory_mode: MemoryAccessMode::ZeroPage },
            OpcodeType::RolZpx => Opcode { code, name: "ROL", length: 2, cycles: 6, memory_mode: MemoryAccessMode::ZeroPageX },
            OpcodeType::RolA => Opcode { code, name: "ROL", length: 3, cycles: 6, memory_mode: MemoryAccessMode::Absolute },
            OpcodeType::RolAx => Opcode { code, name: "ROL", length: 3, cycles: 7, memory_mode: MemoryAccessMode::AbsoluteX(false) },
            OpcodeType::RorAcc => Opcode { code, name: "ROR", length: 1, cycles: 2, memory_mode: MemoryAccessMode::Accumulator },
            OpcodeType::RorZp => Opcode { code, name: "ROR", length: 2, cycles: 5, memory_mode: MemoryAccessMode::ZeroPage },
            OpcodeType::RorZpx => Opcode { code, name: "ROR", length: 2, cycles: 6, memory_mode: MemoryAccessMode::ZeroPageX },
            OpcodeType::RorA => Opcode { code, name: "ROR", length: 3, cycles: 6, memory_mode: MemoryAccessMode::Absolute },
            OpcodeType::RorAx => Opcode { code, name: "ROR", length: 3, cycles: 7, memory_mode: MemoryAccessMode::AbsoluteX(false) },
            OpcodeType::Rti => Opcode { code, name: "RTI", length: 1, cycles: 6, memory_mode: MemoryAccessMode::Implied },
            OpcodeType::Rts => Opcode { code, name: "RTS", length: 1, cycles: 6, memory_mode: MemoryAccessMode::Implied },
            OpcodeType::SbcI => Opcode { code, name: "SBC", length: 2, cycles: 2, memory_mode: MemoryAccessMode::Immediate },
            OpcodeType::SbcZp => Opcode { code, name: "SBC", length: 2, cycles: 3, memory_mode: MemoryAccessMode::ZeroPage },
            OpcodeType::SbcZpx => Opcode { code, name: "SBC", length: 2, cycles: 4, memory_mode: MemoryAccessMode::ZeroPageX },
            OpcodeType::SbcA => Opcode { code, name: "SBC", length: 3, cycles: 4, memory_mode: MemoryAccessMode::Absolute },
            OpcodeType::SbcAx => Opcode { code, name: "SBC", length: 3, cycles: 4, memory_mode: MemoryAccessMode::AbsoluteX(true) },
            OpcodeType::SbcAy => Opcode { code, name: "SBC", length: 3, cycles: 4, memory_mode: MemoryAccessMode::AbsoluteY(true) },
            OpcodeType::SbcIx => Opcode { code, name: "SBC", length: 2, cycles: 6, memory_mode: MemoryAccessMode::IndirectX },
            OpcodeType::SbcIy => Opcode { code, name: "SBC", length: 2, cycles: 5, memory_mode: MemoryAccessMode::IndirectY(true) },
            OpcodeType::Sec => Opcode { code, name: "SEC", length: 1, cycles: 2, memory_mode: MemoryAccessMode::Implied },
            OpcodeType::Sed => Opcode { code, name: "SED", length: 1, cycles: 2, memory_mode: MemoryAccessMode::Implied },
            OpcodeType::Sei => Opcode { code, name: "SEI", length: 1, cycles: 2, memory_mode: MemoryAccessMode::Implied },
            OpcodeType::StaZp => Opcode { code, name: "STA", length: 2, cycles: 3, memory_mode: MemoryAccessMode::ZeroPage },
            OpcodeType::StaZpx => Opcode { code, name: "STA", length: 2, cycles: 4, memory_mode: MemoryAccessMode::ZeroPageX },
            OpcodeType::StaA => Opcode { code, name: "STA", length: 3, cycles: 4, memory_mode: MemoryAccessMode::Absolute },
            OpcodeType::StaAx => Opcode { code, name: "STA", length: 3, cycles: 5, memory_mode: MemoryAccessMode::AbsoluteX(false) },
            OpcodeType::StaAy => Opcode { code, name: "STA", length: 3, cycles: 5, memory_mode: MemoryAccessMode::AbsoluteY(false) },
            OpcodeType::StaIx => Opcode { code, name: "STA", length: 2, cycles: 6, memory_mode: MemoryAccessMode::IndirectX },
            OpcodeType::StaIy => Opcode { code, name: "STA", length: 2, cycles: 6, memory_mode: MemoryAccessMode::IndirectY(false) },
            OpcodeType::StxZp => Opcode { code, name: "STX", length: 2, cycles: 3, memory_mode: MemoryAccessMode::ZeroPage },
            OpcodeType::StxZpy => Opcode { code, name: "STX", length: 2, cycles: 4, memory_mode: MemoryAccessMode::ZeroPageY },
            OpcodeType::StxA => Opcode { code, name: "STX", length: 3, cycles: 4, memory_mode: MemoryAccessMode::Absolute },
            OpcodeType::StyZp => Opcode { code, name: "STY", length: 2, cycles: 3, memory_mode: MemoryAccessMode::ZeroPage },
            OpcodeType::StyZpx => Opcode { code, name: "STY", length: 2, cycles: 4, memory_mode: MemoryAccessMode::ZeroPageX },
            OpcodeType::StyA => Opcode { code, name: "STX", length: 3, cycles: 4, memory_mode: MemoryAccessMode::Absolute },
            OpcodeType::Tax => Opcode { code, name: "TAX", length: 1, cycles: 2, memory_mode: MemoryAccessMode::Implied },
            OpcodeType::Tay => Opcode { code, name: "TAY", length: 1, cycles: 2, memory_mode: MemoryAccessMode::Implied },
            OpcodeType::Tsx => Opcode { code, name: "TSX", length: 1, cycles: 2, memory_mode: MemoryAccessMode::Implied },
            OpcodeType::Txa => Opcode { code, name: "TXA", length: 1, cycles: 2, memory_mode: MemoryAccessMode::Implied },
            OpcodeType::Txs => Opcode { code, name: "TXS", length: 1, cycles: 2, memory_mode: MemoryAccessMode::Implied },
            OpcodeType::Tya => Opcode { code, name: "TYA", length: 1, cycles: 2, memory_mode: MemoryAccessMode::Implied },
            OpcodeType::AsoZp => Opcode { code, name: "ASO", length: 2, cycles: 5, memory_mode: MemoryAccessMode::ZeroPage },
            OpcodeType::AsoZpx => Opcode { code, name: "ASO", length: 2, cycles: 6, memory_mode: MemoryAccessMode::ZeroPageX },
            OpcodeType::AsoA => Opcode { code, name: "ASO", length: 3, cycles: 6, memory_mode: MemoryAccessMode::Absolute },
            OpcodeType::AsoAx => Opcode { code, name: "ASO", length: 3, cycles: 7, memory_mode: MemoryAccessMode::AbsoluteX(false) },
            OpcodeType::AsoAy => Opcode { code, name: "ASO", length: 3, cycles: 7, memory_mode: MemoryAccessMode::AbsoluteY(false) },
            OpcodeType::AsoIx => Opcode { code, name: "ASO", length: 2, cycles: 8, memory_mode: MemoryAccessMode::IndirectX },
            OpcodeType::AsoIy => Opcode { code, name: "ASO", length: 2, cycles: 8, memory_mode: MemoryAccessMode::IndirectY(false) },
            OpcodeType::RlaZp => Opcode { code, name: "RLA", length: 2, cycles: 5, memory_mode: MemoryAccessMode::ZeroPage },
            OpcodeType::RlaZpx => Opcode { code, name: "RLA", length: 2, cycles: 6, memory_mode: MemoryAccessMode::ZeroPageX },
            OpcodeType::RlaA => Opcode { code, name: "RLA", length: 3, cycles: 6, memory_mode: MemoryAccessMode::Absolute },
            OpcodeType::RlaAx => Opcode { code, name: "RLA", length: 3, cycles: 7, memory_mode: MemoryAccessMode::AbsoluteX(false) },
            OpcodeType::RlaAy => Opcode { code, name: "RLA", length: 3, cycles: 7, memory_mode: MemoryAccessMode::AbsoluteY(false) },
            OpcodeType::RlaIx => Opcode { code, name: "RLA", length: 2, cycles: 8, memory_mode: MemoryAccessMode::IndirectX },
            OpcodeType::RlaIy => Opcode { code, name: "RLA", length: 2, cycles: 8, memory_mode: MemoryAccessMode::IndirectY(false) },
            OpcodeType::LseZp => Opcode { code, name: "LSE", length: 2, cycles: 5, memory_mode: MemoryAccessMode::ZeroPage },
            OpcodeType::LseZpx => Opcode { code, name: "LSE", length: 2, cycles: 6, memory_mode: MemoryAccessMode::ZeroPageX },
            OpcodeType::LseA => Opcode { code, name: "LSE", length: 3, cycles: 6, memory_mode: MemoryAccessMode::Absolute },
            OpcodeType::LseAx => Opcode { code, name: "LSE", length: 3, cycles: 7, memory_mode: MemoryAccessMode::AbsoluteX(false) },
            OpcodeType::LseAy => Opcode { code, name: "LSE", length: 3, cycles: 7, memory_mode: MemoryAccessMode::AbsoluteY(false) },
            OpcodeType::LseIx => Opcode { code, name: "LSE", length: 2, cycles: 8, memory_mode: MemoryAccessMode::IndirectX },
            OpcodeType::LseIy => Opcode { code, name: "LSE", length: 2, cycles: 8, memory_mode: MemoryAccessMode::IndirectY(false) },
            OpcodeType::RraZp => Opcode { code, name: "RRA", length: 2, cycles: 5, memory_mode: MemoryAccessMode::ZeroPage },
            OpcodeType::RraZpx => Opcode { code, name: "RRA", length: 2, cycles: 6, memory_mode: MemoryAccessMode::ZeroPageX },
            OpcodeType::RraA => Opcode { code, name: "RRA", length: 3, cycles: 6, memory_mode: MemoryAccessMode::Absolute },
            OpcodeType::RraAx => Opcode { code, name: "RRA", length: 3, cycles: 7, memory_mode: MemoryAccessMode::AbsoluteX(false) },
            OpcodeType::RraAy => Opcode { code, name: "RRA", length: 3, cycles: 7, memory_mode: MemoryAccessMode::AbsoluteY(false) },
            OpcodeType::RraIx => Opcode { code, name: "RRA", length: 2, cycles: 8, memory_mode: MemoryAccessMode::IndirectX },
            OpcodeType::RraIy => Opcode { code, name: "RRA", length: 2, cycles: 8, memory_mode: MemoryAccessMode::IndirectY(false) },
            OpcodeType::AxsZp => Opcode { code, name: "AXS", length: 2, cycles: 3, memory_mode: MemoryAccessMode::ZeroPage },
            OpcodeType::AxsZpy => Opcode { code, name: "AXS", length: 2, cycles: 4, memory_mode: MemoryAccessMode::ZeroPageY },
            OpcodeType::AxsA => Opcode { code, name: "AXS", length: 3, cycles: 4, memory_mode: MemoryAccessMode::Absolute },
            OpcodeType::AxsIx => Opcode { code, name: "AXS", length: 2, cycles: 6, memory_mode: MemoryAccessMode::IndirectX },
            OpcodeType::LaxZp => Opcode { code, name: "LAX", length: 2, cycles: 3, memory_mode: MemoryAccessMode::ZeroPage },
            OpcodeType::LaxZpy => Opcode { code, name: "LAX", length: 2, cycles: 4, memory_mode: MemoryAccessMode::ZeroPageY },
            OpcodeType::LaxA => Opcode { code, name: "LAX", length: 3, cycles: 4, memory_mode: MemoryAccessMode::Absolute },
            OpcodeType::LaxAy => Opcode { code, name: "LAX", length: 3, cycles: 4, memory_mode: MemoryAccessMode::AbsoluteY(true) },
            OpcodeType::LaxIx => Opcode { code, name: "LAX", length: 2, cycles: 6, memory_mode: MemoryAccessMode::IndirectX },
            OpcodeType::LaxIy => Opcode { code, name: "LAX", length: 2, cycles: 5, memory_mode: MemoryAccessMode::IndirectY(true) },
            OpcodeType::Skb => Opcode { code, name: "SKB", length: 2, cycles: 2, memory_mode: MemoryAccessMode::Immediate },
            OpcodeType::Skb1 => Opcode { code, name: "SKB1", length: 2, cycles: 2, memory_mode: MemoryAccessMode::Immediate },
            OpcodeType::Skb2 => Opcode { code, name: "SKB2", length: 2, cycles: 2, memory_mode: MemoryAccessMode::Immediate },
            OpcodeType::Skb3 => Opcode { code, name: "SKB3", length: 2, cycles: 2, memory_mode: MemoryAccessMode::Immediate },
            OpcodeType::Skb13 => Opcode { code, name: "SKB13", length: 2, cycles: 2, memory_mode: MemoryAccessMode::Immediate },
            OpcodeType::Skb4 => Opcode { code, name: "SKB4", length: 2, cycles: 3, memory_mode: MemoryAccessMode::ZeroPage },
            OpcodeType::Skb5 => Opcode { code, name: "SKB5", length: 2, cycles: 4, memory_mode: MemoryAccessMode::ZeroPageX },
            OpcodeType::Skb6 => Opcode { code, name: "SKB6", length: 2, cycles: 4, memory_mode: MemoryAccessMode::ZeroPageX },
            OpcodeType::Skb7 => Opcode { code, name: "SKB7", length: 2, cycles: 3, memory_mode: MemoryAccessMode::ZeroPage },
            OpcodeType::Skb8 => Opcode { code, name: "SKB8", length: 2, cycles: 4, memory_mode: MemoryAccessMode::ZeroPageX },
            OpcodeType::Skb9 => Opcode { code, name: "SKB9", length: 2, cycles: 3, memory_mode: MemoryAccessMode::ZeroPage },
            OpcodeType::Skb10 => Opcode { code, name: "SKB10", length: 2, cycles: 4, memory_mode: MemoryAccessMode::ZeroPageX },
            OpcodeType::Skb11 => Opcode { code, name: "SKB11", length: 2, cycles: 4, memory_mode: MemoryAccessMode::ZeroPageX },
            OpcodeType::Skb12 => Opcode { code, name: "SKB12", length: 2, cycles: 4, memory_mode: MemoryAccessMode::ZeroPageX },
            OpcodeType::Skb14 => Opcode { code, name: "SKB14", length: 3, cycles: 4, memory_mode: MemoryAccessMode::Absolute },
            OpcodeType::Skb15 => Opcode { code, name: "SKB15", length: 3, cycles: 4, memory_mode: MemoryAccessMode::AbsoluteX(true) },
            OpcodeType::Skb16 => Opcode { code, name: "SKB16", length: 3, cycles: 4, memory_mode: MemoryAccessMode::AbsoluteX(true) },
            OpcodeType::Skb17 => Opcode { code, name: "SKB17", length: 3, cycles: 4, memory_mode: MemoryAccessMode::AbsoluteX(true) },
            OpcodeType::Skb18 => Opcode { code, name: "SKB18", length: 3, cycles: 4, memory_mode: MemoryAccessMode::AbsoluteX(true) },
            OpcodeType::Skb19 => Opcode { code, name: "SKB19", length: 3, cycles: 4, memory_mode: MemoryAccessMode::AbsoluteX(true) },
            OpcodeType::Skb20 => Opcode { code, name: "SKB20", length: 3, cycles: 4, memory_mode: MemoryAccessMode::AbsoluteX(true) },
            OpcodeType::Sbc1I => Opcode { code, name: "SBC1", length: 2, cycles: 2, memory_mode: MemoryAccessMode::Immediate },
            OpcodeType::DcmZp => Opcode { code, name: "DCM", length: 2, cycles: 5, memory_mode: MemoryAccessMode::ZeroPage },
            OpcodeType::DcmZpx => Opcode { code, name: "DCM", length: 2, cycles: 6, memory_mode: MemoryAccessMode::ZeroPageX },
            OpcodeType::DcmA => Opcode { code, name: "DCM", length: 3, cycles: 6, memory_mode: MemoryAccessMode::Absolute },
            OpcodeType::DcmAx => Opcode { code, name: "DCM", length: 3, cycles: 7, memory_mode: MemoryAccessMode::AbsoluteX(false) },
            OpcodeType::DcmAy => Opcode { code, name: "DCM", length: 3, cycles: 7, memory_mode: MemoryAccessMode::AbsoluteY(false) },
            OpcodeType::DcmIx => Opcode { code, name: "DCM", length: 2, cycles: 8, memory_mode: MemoryAccessMode::IndirectX },
            OpcodeType::DcmIy => Opcode { code, name: "DCM", length: 2, cycles: 8, memory_mode: MemoryAccessMode::IndirectY(false) },
            OpcodeType::InsZp => Opcode { code, name: "INS", length: 2, cycles: 5, memory_mode: MemoryAccessMode::ZeroPage },
            OpcodeType::InsZpx => Opcode { code, name: "INS", length: 2, cycles: 6, memory_mode: MemoryAccessMode::ZeroPageX },
            OpcodeType::InsA => Opcode { code, name: "INS", length: 3, cycles: 6, memory_mode: MemoryAccessMode::Absolute },
            OpcodeType::InsAx => Opcode { code, name: "INS", length: 3, cycles: 7, memory_mode: MemoryAccessMode::AbsoluteX(false) },
            OpcodeType::InsAy => Opcode { code, name: "INS", length: 3, cycles: 7, memory_mode: MemoryAccessMode::AbsoluteY(false) },
            OpcodeType::InsIx => Opcode { code, name: "INS", length: 2, cycles: 8, memory_mode: MemoryAccessMode::IndirectX },
            OpcodeType::InsIy => Opcode { code, name: "INS", length: 2, cycles: 8, memory_mode: MemoryAccessMode::IndirectY(false) },
            OpcodeType::AxaAy => Opcode { code, name: "AXA", length: 3, cycles: 5, memory_mode: MemoryAccessMode::AbsoluteY(false) },
            OpcodeType::AxaIy => Opcode { code, name: "AXA", length: 2, cycles: 6, memory_mode: MemoryAccessMode::IndirectY(false) },
            OpcodeType::Say => Opcode { code, name: "SAY", length: 3, cycles: 5, memory_mode: MemoryAccessMode::AbsoluteX(false) },
        }
    }
}

/// Decoding the byte of an opcode gives the opcode back.
#[verifier::rlimit(100)]
pub proof fn lemma_opcode_byte_decodes(code: OpcodeType)
    ensures
        OpcodeType::spec_from_u8(code.spec_to_u8()) == Some(code),
{
}

} // verus!
