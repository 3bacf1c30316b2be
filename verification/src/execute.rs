//! The fetch-decode-execute step.

use vstd::prelude::*;
use crate::cpu::{CpuInterrupt, CpuView, CPU};
use crate::opcode::{Opcode, OpcodeType};

verus! {

/// The byte at the program counter is no opcode that the processor knows.
#[derive(Debug, Clone, Copy, PartialEq, Eq, Structural)]
pub struct UnknownOpcode {
    pub code: u8,
}

/// What an instruction does, whatever its addressing mode.
#[derive(Debug, Clone, Copy, PartialEq, Eq, Structural)]
pub enum Mnemonic {
    Adc,
    Sbc,
    And,
    Eor,
    Ora,
    Bit,
    Cmp,
    Cpx,
    Cpy,
    Dec,
    Dex,
    Dey,
    Inc,
    Inx,
    Iny,
    Asl,
    Lsr,
    Rol,
    Ror,
    Lda,
    Ldx,
    Ldy,
    Sta,
    Stx,
    Sty,
    Tax,
    Tay,
    Tsx,
    Txa,
    Txs,
    Tya,
    Brk,
    Bcc,
    Bcs,
    Beq,
    Bne,
    Bmi,
    Bpl,
    Bvc,
    Bvs,
    Jmp,
    Jsr,
    Rti,
    Rts,
    Nop,
    Clc,
    Cld,
    Cli,
    Clv,
    Sec,
    Sed,
    Sei,
    Pha,
    Php,
    Pla,
    Plp,
    Aso,
    Rla,
    Lse,
    Rra,
    Axs,
    Lax,
    Skb,
    Dcm,
    Ins,
    Axa,
    Say,
}

impl OpcodeType {
    /// The instruction that the opcode encodes.
    #[verifier::allow_in_spec]
    pub fn mnemonic(self) -> Mnemonic
        returns
            (match self {
                OpcodeType::AdcI | OpcodeType::AdcZp | OpcodeType::AdcZpx | OpcodeType::AdcA
                | OpcodeType::AdcAx | OpcodeType::AdcAy | OpcodeType::AdcIx | OpcodeType::AdcIy => Mnemonic::Adc,
                OpcodeType::SbcI | OpcodeType::SbcZp | OpcodeType::SbcZpx | OpcodeType::SbcA
                | OpcodeType::SbcAx | OpcodeType::SbcAy | OpcodeType::SbcIx | OpcodeType::SbcIy
                | OpcodeType::Sbc1I => Mnemonic::Sbc,
                OpcodeType::AndI | OpcodeType::AndZp | OpcodeType::AndZpx | OpcodeType::AndA
                | OpcodeType::AndAx | OpcodeType::AndAy | OpcodeType::AndIx | OpcodeType::AndIy => Mnemonic::And,
                OpcodeType::EorI | OpcodeType::EorZp | OpcodeType::EorZpx | OpcodeType::EorA
                | OpcodeType::EorAx | OpcodeType::EorAy | OpcodeType::EorIx | OpcodeType::EorIy => Mnemonic::Eor,
                OpcodeType::OraI | OpcodeType::OraZp | OpcodeType::OraZpx | OpcodeType::OraA
                | OpcodeType::OraAx | OpcodeType::OraAy | OpcodeType::OraIx | OpcodeType::OraIy => Mnemonic::Ora,
                OpcodeType::BitZp | OpcodeType::BitA => Mnemonic::Bit,
                OpcodeType::CmpI | OpcodeType::CmpZp | OpcodeType::CmpZpx | OpcodeType::CmpA
                | OpcodeType::CmpAx | OpcodeType::CmpAy | OpcodeType::CmpIx | OpcodeType::CmpIy => Mnemonic::Cmp,
                OpcodeType::CpxI | OpcodeType::CpxZp | OpcodeType::CpxA => Mnemonic::Cpx,
                OpcodeType::CpyI | OpcodeType::CpyZp | OpcodeType::CpyA => Mnemonic::Cpy,
                OpcodeType::DecZp | OpcodeType::DecZpx | OpcodeType::DecA | OpcodeType::DecAx => Mnemonic::Dec,
                OpcodeType::Dex => Mnemonic::Dex,
                OpcodeType::Dey => Mnemonic::Dey,
                OpcodeType::IncZp | OpcodeType::IncZpx | OpcodeType::IncA | OpcodeType::IncAx => Mnemonic::Inc,
                OpcodeType::Inx => Mnemonic::Inx,
                OpcodeType::Iny => Mnemonic::Iny,
                OpcodeType::AslAcc | OpcodeType::AslZp | OpcodeType::AslZpx | OpcodeType::AslA
                | OpcodeType::AslAx => Mnemonic::Asl,
                OpcodeType::LsrAcc | OpcodeType::LsrZp | OpcodeType::LsrZpx | OpcodeType::LsrA
                | OpcodeType::LsrAx => Mnemonic::Lsr,
                OpcodeType::RolAcc | OpcodeType::RolZp | OpcodeType::RolZpx | OpcodeType::RolA
                | OpcodeType::RolAx => Mnemonic::Rol,
                OpcodeType::RorAcc | OpcodeType::RorZp | OpcodeType::RorZpx | OpcodeType::RorA
                | OpcodeType::RorAx => Mnemonic::Ror,
                OpcodeType::LdaI | OpcodeType::LdaZp | OpcodeType::LdaZpx | OpcodeType::LdaA
                | OpcodeType::LdaAx | OpcodeType::LdaAy | OpcodeType::LdaIx | OpcodeType::LdaIy => Mnemonic::Lda,
                OpcodeType::LdxI | OpcodeType::LdxZp | OpcodeType::LdxZpy | OpcodeType::LdxA
                | OpcodeType::LdxAy => Mnemonic::Ldx,
                OpcodeType::LdyI | OpcodeType::LdyZp | OpcodeType::LdyZpx | OpcodeType::LdyA
                | OpcodeType::LdyAx => Mnemonic::Ldy,
                OpcodeType::StaZp | OpcodeType::StaZpx | OpcodeType::StaA | OpcodeType::StaAx
                | OpcodeType::StaAy | OpcodeType::StaIx | OpcodeType::StaIy => Mnemonic::Sta,
                OpcodeType::StxZp | OpcodeType::StxZpy | OpcodeType::StxA => Mnemonic::Stx,
                OpcodeType::StyZp | OpcodeType::StyZpx | OpcodeType::StyA => Mnemonic::Sty,
                OpcodeType::Tax => Mnemonic::Tax,
                OpcodeType::Tay => Mnemonic::Tay,
                OpcodeType::Tsx => Mnemonic::Tsx,
                OpcodeType::Txa => Mnemonic::Txa,
                OpcodeType::Txs => Mnemonic::Txs,
                OpcodeType::Tya => Mnemonic::Tya,
                OpcodeType::Brk => Mnemonic::Brk,
                OpcodeType::Bcc => Mnemonic::Bcc,
                OpcodeType::Bcs => Mnemonic::Bcs,
                OpcodeType::Beq => Mnemonic::Beq,
                OpcodeType::Bne => Mnemonic::Bne,
                OpcodeType::Bmi => Mnemonic::Bmi,
                OpcodeType::Bpl => Mnemonic::Bpl,
                OpcodeType::Bvc => Mnemonic::Bvc,
                OpcodeType::Bvs => Mnemonic::Bvs,
                OpcodeType::JmpA | OpcodeType::JmpInd => Mnemonic::Jmp,
                OpcodeType::Jsr => Mnemonic::Jsr,
                OpcodeType::Rti => Mnemonic::Rti,
                OpcodeType::Rts => Mnemonic::Rts,
                OpcodeType::Nop | OpcodeType::Nop1 | OpcodeType::Nop2 | OpcodeType::Nop3
                | OpcodeType::Nop4 | OpcodeType::Nop5 | OpcodeType::Nop6 | OpcodeType::NopHlt => Mnemonic::Nop,
                OpcodeType::Clc => Mnemonic::Clc,
                OpcodeType::Cld => Mnemonic::Cld,
                OpcodeType::Cli => Mnemonic::Cli,
                OpcodeType::Clv => Mnemonic::Clv,
                OpcodeType::Sec => Mnemonic::Sec,
                OpcodeType::Sed => Mnemonic::Sed,
                OpcodeType::Sei => Mnemonic::Sei,
                OpcodeType::Pha => Mnemonic::Pha,
                OpcodeType::Php => Mnemonic::Php,
                OpcodeType::Pla => Mnemonic::Pla,
                OpcodeType::Plp => Mnemonic::Plp,
                OpcodeType::AsoZp | OpcodeType::AsoZpx | OpcodeType::AsoA | OpcodeType::AsoAx
                | OpcodeType::AsoAy | OpcodeType::AsoIx | OpcodeType::AsoIy => Mnemonic::Aso,
                OpcodeType::RlaZp | OpcodeType::RlaZpx | OpcodeType::RlaA | OpcodeType::RlaAx
                | OpcodeType::RlaAy | OpcodeType::RlaIx | OpcodeType::RlaIy => Mnemonic::Rla,
                OpcodeType::LseZp | OpcodeType::LseZpx | OpcodeType::LseA | OpcodeType::LseAx
                | OpcodeType::LseAy | OpcodeType::LseIx | OpcodeType::LseIy => Mnemonic::Lse,
                OpcodeType::RraZp | OpcodeType::RraZpx | OpcodeType::RraA | OpcodeType::RraAx
                | OpcodeType::RraAy | OpcodeType::RraIx | OpcodeType::RraIy => Mnemonic::Rra,
                OpcodeType::AxsZp | OpcodeType::AxsZpy | OpcodeType::AxsA | OpcodeType::AxsIx => Mnemonic::Axs,
                OpcodeType::LaxZp | OpcodeType::LaxZpy | OpcodeType::LaxA | OpcodeType::LaxAy
                | OpcodeType::LaxIx | OpcodeType::LaxIy => Mnemonic::Lax,
                OpcodeType::Skb | OpcodeType::Skb1 | OpcodeType::Skb2 | OpcodeType::Skb3
                | OpcodeType::Skb4 | OpcodeType::Skb5 | OpcodeType::Skb6 | OpcodeType::Skb7
                | OpcodeType::Skb8 | OpcodeType::Skb9 | OpcodeType::Skb10 | OpcodeType::Skb11
                | OpcodeType::Skb12 | OpcodeType::Skb13 | OpcodeType::Skb14 | OpcodeType::Skb15
                | OpcodeType::Skb16 | OpcodeType::Skb17 | OpcodeType::Skb18 | OpcodeType::Skb19
                | OpcodeType::Skb20 => Mnemonic::Skb,
                OpcodeType::DcmZp | OpcodeType::DcmZpx | OpcodeType::DcmA | OpcodeType::DcmAx
                | OpcodeType::DcmAy | OpcodeType::DcmIx | OpcodeType::DcmIy => Mnemonic::Dcm,
                OpcodeType::InsZp | OpcodeType::InsZpx | OpcodeType::InsA | OpcodeType::InsAx
                | OpcodeType::InsAy | OpcodeType::InsIx | OpcodeType::InsIy => Mnemonic::Ins,
                OpcodeType::AxaAy | OpcodeType::AxaIy => Mnemonic::Axa,
                OpcodeType::Say => Mnemonic::Say,
            }),
    {
        match self {
            OpcodeType::AdcI | OpcodeType::AdcZp | OpcodeType::AdcZpx | OpcodeType::AdcA
            | OpcodeType::AdcAx | OpcodeType::AdcAy | OpcodeType::AdcIx | OpcodeType::AdcIy => Mnemonic::Adc,
            OpcodeType::SbcI | OpcodeType::SbcZp | OpcodeType::SbcZpx | OpcodeType::SbcA
            | OpcodeType::SbcAx | OpcodeType::SbcAy | OpcodeType::SbcIx | OpcodeType::SbcIy
            | OpcodeType::Sbc1I => Mnemonic::Sbc,
            OpcodeType::AndI | OpcodeType::AndZp | OpcodeType::AndZpx | OpcodeType::AndA
            | OpcodeType::AndAx | OpcodeType::AndAy | OpcodeType::AndIx | OpcodeType::AndIy => Mnemonic::And,
            OpcodeType::EorI | OpcodeType::EorZp | OpcodeType::EorZpx | OpcodeType::EorA
            | OpcodeType::EorAx | OpcodeType::EorAy | OpcodeType::EorIx | OpcodeType::EorIy => Mnemonic::Eor,
            OpcodeType::OraI | OpcodeType::OraZp | OpcodeType::OraZpx | OpcodeType::OraA
            | OpcodeType::OraAx | OpcodeType::OraAy | OpcodeType::OraIx | OpcodeType::OraIy => Mnemonic::Ora,
            OpcodeType::BitZp | OpcodeType::BitA => Mnemonic::Bit,
            OpcodeType::CmpI | OpcodeType::CmpZp | OpcodeType::CmpZpx | OpcodeType::CmpA
            | OpcodeType::CmpAx | OpcodeType::CmpAy | OpcodeType::CmpIx | OpcodeType::CmpIy => Mnemonic::Cmp,
            OpcodeType::CpxI | OpcodeType::CpxZp | OpcodeType::CpxA => Mnemonic::Cpx,
            OpcodeType::CpyI | OpcodeType::CpyZp | OpcodeType::CpyA => Mnemonic::Cpy,
            OpcodeType::DecZp | OpcodeType::DecZpx | OpcodeType::DecA | OpcodeType::DecAx => Mnemonic::Dec,
            OpcodeType::Dex => Mnemonic::Dex,
            OpcodeType::Dey => Mnemonic::Dey,
            OpcodeType::IncZp | OpcodeType::IncZpx | OpcodeType::IncA | OpcodeType::IncAx => Mnemonic::Inc,
            OpcodeType::Inx => Mnemonic::Inx,
            OpcodeType::Iny => Mnemonic::Iny,
            OpcodeType::AslAcc | OpcodeType::AslZp | OpcodeType::AslZpx | OpcodeType::AslA
            | OpcodeType::AslAx => Mnemonic::Asl,
            OpcodeType::LsrAcc | OpcodeType::LsrZp | OpcodeType::LsrZpx | OpcodeType::LsrA
            | OpcodeType::LsrAx => Mnemonic::Lsr,
            OpcodeType::RolAcc | OpcodeType::RolZp | OpcodeType::RolZpx | OpcodeType::RolA
            | OpcodeType::RolAx => Mnemonic::Rol,
            OpcodeType::RorAcc | OpcodeType::RorZp | OpcodeType::RorZpx | OpcodeType::RorA
            | OpcodeType::RorAx => Mnemonic::Ror,
            OpcodeType::LdaI | OpcodeType::LdaZp | OpcodeType::LdaZpx | OpcodeType::LdaA
            | OpcodeType::LdaAx | OpcodeType::LdaAy | OpcodeType::LdaIx | OpcodeType::LdaIy => Mnemonic::Lda,
            OpcodeType::LdxI | OpcodeType::LdxZp | OpcodeType::LdxZpy | OpcodeType::LdxA
            | OpcodeType::LdxAy => Mnemonic::Ldx,
            OpcodeType::LdyI | OpcodeType::LdyZp | OpcodeType::LdyZpx | OpcodeType::LdyA
            | OpcodeType::LdyAx => Mnemonic::Ldy,
            OpcodeType::StaZp | OpcodeType::StaZpx | OpcodeType::StaA | OpcodeType::StaAx
            | OpcodeType::StaAy | OpcodeType::StaIx | OpcodeType::StaIy => Mnemonic::Sta,
            OpcodeType::StxZp | OpcodeType::StxZpy | OpcodeType::StxA => Mnemonic::Stx,
            OpcodeType::StyZp | OpcodeType::StyZpx | OpcodeType::StyA => Mnemonic::Sty,
            OpcodeType::Tax => Mnemonic::Tax,
            OpcodeType::Tay => Mnemonic::Tay,
            OpcodeType::Tsx => Mnemonic::Tsx,
            OpcodeType::Txa => Mnemonic::Txa,
            OpcodeType::Txs => Mnemonic::Txs,
            OpcodeType::Tya => Mnemonic::Tya,
            OpcodeType::Brk => Mnemonic::Brk,
            OpcodeType::Bcc => Mnemonic::Bcc,
            OpcodeType::Bcs => Mnemonic::Bcs,
            OpcodeType::Beq => Mnemonic::Beq,
            OpcodeType::Bne => Mnemonic::Bne,
            OpcodeType::Bmi => Mnemonic::Bmi,
            OpcodeType::Bpl => Mnemonic::Bpl,
            OpcodeType::Bvc => Mnemonic::Bvc,
            OpcodeType::Bvs => Mnemonic::Bvs,
            OpcodeType::JmpA | OpcodeType::JmpInd => Mnemonic::Jmp,
            OpcodeType::Jsr => Mnemonic::Jsr,
            OpcodeType::Rti => Mnemonic::Rti,
            OpcodeType::Rts => Mnemonic::Rts,
            OpcodeType::Nop | OpcodeType::Nop1 | OpcodeType::Nop2 | OpcodeType::Nop3
            | OpcodeType::Nop4 | OpcodeType::Nop5 | OpcodeType::Nop6 | OpcodeType::NopHlt => Mnemonic::Nop,
            OpcodeType::Clc => Mnemonic::Clc,
            OpcodeType::Cld => Mnemonic::Cld,
            OpcodeType::Cli => Mnemonic::Cli,
            OpcodeType::Clv => Mnemonic::Clv,
            OpcodeType::Sec => Mnemonic::Sec,
            OpcodeType::Sed => Mnemonic::Sed,
            OpcodeType::Sei => Mnemonic::Sei,
            OpcodeType::Pha => Mnemonic::Pha,
            OpcodeType::Php => Mnemonic::Php,
            OpcodeType::Pla => Mnemonic::Pla,
            OpcodeType::Plp => Mnemonic::Plp,
            OpcodeType::AsoZp | OpcodeType::AsoZpx | OpcodeType::AsoA | OpcodeType::AsoAx
            | OpcodeType::AsoAy | OpcodeType::AsoIx | OpcodeType::AsoIy => Mnemonic::Aso,
            OpcodeType::RlaZp | OpcodeType::RlaZpx | OpcodeType::RlaA | OpcodeType::RlaAx
            | OpcodeType::RlaAy | OpcodeType::RlaIx | OpcodeType::RlaIy => Mnemonic::Rla,
            OpcodeType::LseZp | OpcodeType::LseZpx | OpcodeType::LseA | OpcodeType::LseAx
            | OpcodeType::LseAy | OpcodeType::LseIx | OpcodeType::LseIy => Mnemonic::Lse,
            OpcodeType::RraZp | OpcodeType::RraZpx | OpcodeType::RraA | OpcodeType::RraAx
            | OpcodeType::RraAy | OpcodeType::RraIx | OpcodeType::RraIy => Mnemonic::Rra,
            OpcodeType::AxsZp | OpcodeType::AxsZpy | OpcodeType::AxsA | OpcodeType::AxsIx => Mnemonic::Axs,
            OpcodeType::LaxZp | OpcodeType::LaxZpy | OpcodeType::LaxA | OpcodeType::LaxAy
            | OpcodeType::LaxIx | OpcodeType::LaxIy => Mnemonic::Lax,
            OpcodeType::Skb | OpcodeType::Skb1 | OpcodeType::Skb2 | OpcodeType::Skb3
            | OpcodeType::Skb4 | OpcodeType::Skb5 | OpcodeType::Skb6 | OpcodeType::Skb7
            | OpcodeType::Skb8 | OpcodeType::Skb9 | OpcodeType::Skb10 | OpcodeType::Skb11
            | OpcodeType::Skb12 | OpcodeType::Skb13 | OpcodeType::Skb14 | OpcodeType::Skb15
            | OpcodeType::Skb16 | OpcodeType::Skb17 | OpcodeType::Skb18 | OpcodeType::Skb19
            | OpcodeType::Skb20 => Mnemonic::Skb,
            OpcodeType::DcmZp | OpcodeType::DcmZpx | OpcodeType::DcmA | OpcodeType::DcmAx
            | OpcodeType::DcmAy | OpcodeType::DcmIx | OpcodeType::DcmIy => Mnemonic::Dcm,
            OpcodeType::InsZp | OpcodeType::InsZpx | OpcodeType::InsA | OpcodeType::InsAx
            | OpcodeType::InsAy | OpcodeType::InsIx | OpcodeType::InsIy => Mnemonic::Ins,
            OpcodeType::AxaAy | OpcodeType::AxaIy => Mnemonic::Axa,
            OpcodeType::Say => Mnemonic::Say,
        }
    }
}

impl CpuView {
    /// The machine after the instruction's own work, with the program
    /// counter standing on the byte after the opcode. Arithmetic is told
    /// apart here; the other instructions follow.
    #[verifier::opaque]
    pub open spec fn run_instruction(self, mnemonic: Mnemonic, metadata: Opcode) -> CpuView {
        match mnemonic {
            Mnemonic::Adc => self.adc(metadata.memory_mode),
            Mnemonic::Sbc => self.sbc(metadata.memory_mode),
            Mnemonic::Dec => self.dec(metadata.memory_mode),
            Mnemonic::Dex => self.dex(metadata.memory_mode),
            Mnemonic::Dey => self.dey(metadata.memory_mode),
            Mnemonic::Inc => self.inc(metadata.memory_mode).0,
            Mnemonic::Inx => self.inx(metadata.memory_mode),
            Mnemonic::Iny => self.iny(metadata.memory_mode),
            _ => self.run_logic(mnemonic, metadata),
        }
    }

    /// Logic and comparisons; the other instructions follow.
    #[verifier::opaque]
    pub open spec fn run_logic(self, mnemonic: Mnemonic, metadata: Opcode) -> CpuView {
        match mnemonic {
            Mnemonic::And => self.and(metadata.memory_mode),
            Mnemonic::Eor => self.eor(metadata.memory_mode),
            Mnemonic::Ora => self.ora(metadata.memory_mode),
            Mnemonic::Bit => self.bit(metadata.memory_mode),
            Mnemonic::Cmp => self.cmp(metadata.memory_mode),
            Mnemonic::Cpx => self.cpx(metadata.memory_mode),
            Mnemonic::Cpy => self.cpy(metadata.memory_mode),
            _ => self.run_shift_or_load(mnemonic, metadata),
        }
    }

    /// Shifts, rotations and loads; the other instructions follow.
    #[verifier::opaque]
    pub open spec fn run_shift_or_load(self, mnemonic: Mnemonic, metadata: Opcode) -> CpuView {
        match mnemonic {
            Mnemonic::Asl => self.asl(metadata.memory_mode).0,
            Mnemonic::Lsr => self.lsr(metadata.memory_mode).0,
            Mnemonic::Rol => self.rol(metadata.memory_mode).0,
            Mnemonic::Ror => self.ror(metadata.memory_mode).0,
            Mnemonic::Lda => self.lda(metadata.memory_mode),
            Mnemonic::Ldx => self.ldx(metadata.memory_mode),
            Mnemonic::Ldy => self.ldy(metadata.memory_mode),
            _ => self.run_store_or_transfer(mnemonic, metadata),
        }
    }

    /// Stores and register transfers; the other instructions follow.
    #[verifier::opaque]
    pub open spec fn run_store_or_transfer(self, mnemonic: Mnemonic, metadata: Opcode) -> CpuView {
        match mnemonic {
            Mnemonic::Sta => self.sta(metadata.memory_mode),
            Mnemonic::Stx => self.stx(metadata.memory_mode),
            Mnemonic::Sty => self.sty(metadata.memory_mode),
            Mnemonic::Tax => self.tax(metadata.memory_mode),
            Mnemonic::Tay => self.tay(metadata.memory_mode),
            Mnemonic::Tsx => self.tsx(metadata.memory_mode),
            Mnemonic::Txa => self.txa(metadata.memory_mode),
            Mnemonic::Txs => self.txs(metadata.memory_mode),
            Mnemonic::Tya => self.tya(metadata.memory_mode),
            _ => self.run_branch(mnemonic, metadata),
        }
    }

    /// Branches; the other instructions follow.
    #[verifier::opaque]
    pub open spec fn run_branch(self, mnemonic: Mnemonic, metadata: Opcode) -> CpuView {
        match mnemonic {
            Mnemonic::Bcc => self.bcc(metadata.memory_mode),
            Mnemonic::Bcs => self.bcs(metadata.memory_mode),
            Mnemonic::Beq => self.beq(metadata.memory_mode),
            Mnemonic::Bne => self.bne(metadata.memory_mode),
            Mnemonic::Bmi => self.bmi(metadata.memory_mode),
            Mnemonic::Bpl => self.bpl(metadata.memory_mode),
            Mnemonic::Bvc => self.bvc(metadata.memory_mode),
            Mnemonic::Bvs => self.bvs(metadata.memory_mode),
            _ => self.run_jump(mnemonic, metadata),
        }
    }

    /// Jumps, calls, returns and the software interrupt; the other
    /// instructions follow.
    #[verifier::opaque]
    pub open spec fn run_jump(self, mnemonic: Mnemonic, metadata: Opcode) -> CpuView {
        match mnemonic {
            Mnemonic::Brk => self.brk(),
            Mnemonic::Jmp => self.jmp(metadata.memory_mode),
            Mnemonic::Jsr => self.jsr(metadata),
            Mnemonic::Rti => self.rti(metadata.memory_mode),
            Mnemonic::Rts => self.rts(metadata.memory_mode),
            Mnemonic::Nop => self.nop(metadata.memory_mode),
            _ => self.run_flag_or_stack(mnemonic, metadata),
        }
    }

    /// Flag and stack instructions; the other instructions follow.
    #[verifier::opaque]
    pub open spec fn run_flag_or_stack(self, mnemonic: Mnemonic, metadata: Opcode) -> CpuView {
        match mnemonic {
            Mnemonic::Clc => self.clc(metadata.memory_mode),
            Mnemonic::Cld => self.cld(metadata.memory_mode),
            Mnemonic::Cli => self.cli(metadata.memory_mode),
            Mnemonic::Clv => self.clv(metadata.memory_mode),
            Mnemonic::Sec => self.sec(metadata.memory_mode),
            Mnemonic::Sed => self.sed(metadata.memory_mode),
            Mnemonic::Sei => self.sei(metadata.memory_mode),
            Mnemonic::Pha => self.pha(metadata.memory_mode),
            Mnemonic::Php => self.php(metadata.memory_mode),
            Mnemonic::Pla => self.pla(metadata.memory_mode),
            Mnemonic::Plp => self.plp(metadata.memory_mode),
            _ => self.run_unofficial(mnemonic, metadata),
        }
    }

    /// The instructions outside the official set. Every other instruction
    /// was told apart before.
    #[verifier::opaque]
    pub open spec fn run_unofficial(self, mnemonic: Mnemonic, metadata: Opcode) -> CpuView {
        match mnemonic {
            Mnemonic::Aso => self.aso(metadata.memory_mode),
            Mnemonic::Rla => self.rla(metadata.memory_mode),
            Mnemonic::Lse => self.lse(metadata.memory_mode),
            Mnemonic::Rra => self.rra(metadata.memory_mode),
            Mnemonic::Axs => self.axs(metadata.memory_mode),
            Mnemonic::Lax => self.lax(metadata.memory_mode),
            Mnemonic::Skb => self.skb(metadata.memory_mode),
            Mnemonic::Dcm => self.dcm(metadata.memory_mode),
            Mnemonic::Ins => self.ins(metadata.memory_mode),
            Mnemonic::Axa => self.axa(metadata.memory_mode),
            Mnemonic::Say => self.say(metadata.memory_mode),
            _ => self,
        }
    }

    /// The machine with the program counter moved past the opcode byte.
    pub open spec fn past_opcode(self) -> CpuView {
        CpuView { program_pointer: self.program_pointer.wrapping_add(1), ..self }
    }

    /// The machine after an instruction has done its work: its base cycles
    /// are counted and pass on the bus, and where the instruction left the
    /// program counter on its operand, the counter moves past the operand.
    pub open spec fn finish_instruction(self, operand_pointer: u16, metadata: Opcode) -> CpuView {
        let cpu = CpuView {
            cycles: self.cycles.wrapping_add(metadata.cycles as u64),
            ..self
        }.bus_tick(metadata.cycles as u64);
        if cpu.program_pointer == operand_pointer {
            CpuView {
                program_pointer: cpu.program_pointer.wrapping_add(
                    metadata.length.wrapping_sub(1) as u16,
                ),
                ..cpu
            }
        } else {
            cpu
        }
    }

    /// The bus cycles that passed between two states of the machine.
    pub open spec fn elapsed_since(self, before: CpuView) -> u64 {
        self.bus.cpu_cycles.wrapping_sub(before.bus.cpu_cycles)
    }

    /// The machine after one instruction, and the bus cycles it took; or,
    /// where the byte at the program counter is no known opcode, the
    /// machine after that byte was read, and the byte.
    #[verifier::opaque]
    pub open spec fn execute_opcode(self) -> (CpuView, Result<u64, UnknownOpcode>) {
        let (cpu, byte) = self.bus_read(self.program_pointer);
        match OpcodeType::spec_from_u8(byte) {
            None => (cpu, Err(UnknownOpcode { code: byte })),
            Some(opcode) => {
                let metadata = Opcode::spec_of(opcode);
                let fetched = cpu.past_opcode();
                let done = fetched.run_instruction(opcode.mnemonic(), metadata).finish_instruction(
                    fetched.program_pointer,
                    metadata,
                );
                (done, Ok(done.elapsed_since(self)))
            },
        }
    }

    /// The machine after the pending interrupt of the picture unit was
    /// taken and lowered.
    pub open spec fn service_nmi(self) -> CpuView {
        let cpu = self.interrupt(CpuInterrupt::nmi());
        CpuView { bus: cpu.bus.nmi_handled(), ..cpu }
    }

    /// One step of the machine: the pending interrupt is served where
    /// there is one, else one instruction runs.
    #[verifier::opaque]
    pub open spec fn cpu_step(self) -> (CpuView, Result<u64, UnknownOpcode>) {
        if self.bus.ppu.nmi_interrupt {
            (self.service_nmi(), Ok(self.service_nmi().elapsed_since(self)))
        } else {
            self.execute_opcode()
        }
    }
}

impl CPU {
    fn run_instruction(&mut self, mnemonic: Mnemonic, metadata: &Opcode)
        requires
            old(self)@.wf(),
        ensures
            final(self)@ == old(self)@.run_instruction(mnemonic, *metadata),
            final(self)@.wf(),
            old(self)@.bus.ppu.precedes(final(self)@.bus.ppu),
    {
        reveal(CpuView::run_instruction);
        match mnemonic {
            Mnemonic::Adc => {
                self.adc(metadata.memory_mode);
            },
            Mnemonic::Sbc => {
                self.sbc(metadata.memory_mode);
            },
            Mnemonic::Dec => {
                self.dec(metadata.memory_mode);
            },
            Mnemonic::Dex => {
                self.dex(metadata.memory_mode);
            },
            Mnemonic::Dey => {
                self.dey(metadata.memory_mode);
            },
            Mnemonic::Inc => {
                let _ = self.inc(metadata.memory_mode);
            },
            Mnemonic::Inx => {
                self.inx(metadata.memory_mode);
            },
            Mnemonic::Iny => {
                self.iny(metadata.memory_mode);
            },
            _ => {
                self.run_logic(mnemonic, metadata);
            },
        }
    }

    fn run_logic(&mut self, mnemonic: Mnemonic, metadata: &Opcode)
        requires
            old(self)@.wf(),
        ensures
            final(self)@ == old(self)@.run_logic(mnemonic, *metadata),
            final(self)@.wf(),
            old(self)@.bus.ppu.precedes(final(self)@.bus.ppu),
    {
        reveal(CpuView::run_logic);
        match mnemonic {
            Mnemonic::And => {
                self.and(metadata.memory_mode);
            },
            Mnemonic::Eor => {
                self.eor(metadata.memory_mode);
            },
            Mnemonic::Ora => {
                self.ora(metadata.memory_mode);
            },
            Mnemonic::Bit => {
                self.bit(metadata.memory_mode);
            },
            Mnemonic::Cmp => {
                self.cmp(metadata.memory_mode);
            },
            Mnemonic::Cpx => {
                self.cpx(metadata.memory_mode);
            },
            Mnemonic::Cpy => {
                self.cpy(metadata.memory_mode);
            },
            _ => {
                self.run_shift_or_load(mnemonic, metadata);
            },
        }
    }

    fn run_shift_or_load(&mut self, mnemonic: Mnemonic, metadata: &Opcode)
        requires
            old(self)@.wf(),
        ensures
            final(self)@ == old(self)@.run_shift_or_load(mnemonic, *metadata),
            final(self)@.wf(),
            old(self)@.bus.ppu.precedes(final(self)@.bus.ppu),
    {
        reveal(CpuView::run_shift_or_load);
        match mnemonic {
            Mnemonic::Asl => {
                let _ = self.asl(metadata.memory_mode);
            },
            Mnemonic::Lsr => {
                let _ = self.lsr(metadata.memory_mode);
            },
            Mnemonic::Rol => {
                let _ = self.rol(metadata.memory_mode);
            },
            Mnemonic::Ror => {
                let _ = self.ror(metadata.memory_mode);
            },
            Mnemonic::Lda => {
                self.lda(metadata.memory_mode);
            },
            Mnemonic::Ldx => {
                self.ldx(metadata.memory_mode);
            },
            Mnemonic::Ldy => {
                self.ldy(metadata.memory_mode);
            },
            _ => {
                self.run_store_or_transfer(mnemonic, metadata);
            },
        }
    }

    fn run_store_or_transfer(&mut self, mnemonic: Mnemonic, metadata: &Opcode)
        requires
            old(self)@.wf(),
        ensures
            final(self)@ == old(self)@.run_store_or_transfer(mnemonic, *metadata),
            final(self)@.wf(),
            old(self)@.bus.ppu.precedes(final(self)@.bus.ppu),
    {
        reveal(CpuView::run_store_or_transfer);
        match mnemonic {
            Mnemonic::Sta => {
                self.sta(metadata.memory_mode);
            },
            Mnemonic::Stx => {
                self.stx(metadata.memory_mode);
            },
            Mnemonic::Sty => {
                self.sty(metadata.memory_mode);
            },
            Mnemonic::Tax => {
                self.tax(metadata.memory_mode);
            },
            Mnemonic::Tay => {
                self.tay(metadata.memory_mode);
            },
            Mnemonic::Tsx => {
                self.tsx(metadata.memory_mode);
            },
            Mnemonic::Txa => {
                self.txa(metadata.memory_mode);
            },
            Mnemonic::Txs => {
                self.txs(metadata.memory_mode);
            },
            Mnemonic::Tya => {
                self.tya(metadata.memory_mode);
            },
            _ => {
                self.run_branch(mnemonic, metadata);
            },
        }
    }

    fn run_branch(&mut self, mnemonic: Mnemonic, metadata: &Opcode)
        requires
            old(self)@.wf(),
        ensures
            final(self)@ == old(self)@.run_branch(mnemonic, *metadata),
            final(self)@.wf(),
            old(self)@.bus.ppu.precedes(final(self)@.bus.ppu),
    {
        reveal(CpuView::run_branch);
        match mnemonic {
            Mnemonic::Bcc => {
                self.bcc(metadata.memory_mode);
            },
            Mnemonic::Bcs => {
                self.bcs(metadata.memory_mode);
            },
            Mnemonic::Beq => {
                self.beq(metadata.memory_mode);
            },
            Mnemonic::Bne => {
                self.bne(metadata.memory_mode);
            },
            Mnemonic::Bmi => {
                self.bmi(metadata.memory_mode);
            },
            Mnemonic::Bpl => {
                self.bpl(metadata.memory_mode);
            },
            Mnemonic::Bvc => {
                self.bvc(metadata.memory_mode);
            },
            Mnemonic::Bvs => {
                self.bvs(metadata.memory_mode);
            },
            _ => {
                self.run_jump(mnemonic, metadata);
            },
        }
    }

    fn run_jump(&mut self, mnemonic: Mnemonic, metadata: &Opcode)
        requires
            old(self)@.wf(),
        ensures
            final(self)@ == old(self)@.run_jump(mnemonic, *metadata),
            final(self)@.wf(),
            old(self)@.bus.ppu.precedes(final(self)@.bus.ppu),
    {
        reveal(CpuView::run_jump);
        match mnemonic {
            Mnemonic::Brk => {
                self.brk();
            },
            Mnemonic::Jmp => {
                self.jmp(metadata.memory_mode);
            },
            Mnemonic::Jsr => {
                self.jsr(metadata);
            },
            Mnemonic::Rti => {
                self.rti(metadata.memory_mode);
            },
            Mnemonic::Rts => {
                self.rts(metadata.memory_mode);
            },
            Mnemonic::Nop => {
                self.nop(metadata.memory_mode);
            },
            _ => {
                self.run_flag_or_stack(mnemonic, metadata);
            },
        }
    }

    fn run_flag_or_stack(&mut self, mnemonic: Mnemonic, metadata: &Opcode)
        requires
            old(self)@.wf(),
        ensures
            final(self)@ == old(self)@.run_flag_or_stack(mnemonic, *metadata),
            final(self)@.wf(),
            old(self)@.bus.ppu.precedes(final(self)@.bus.ppu),
    {
        reveal(CpuView::run_flag_or_stack);
        match mnemonic {
            Mnemonic::Clc => {
                self.clc(metadata.memory_mode);
            },
            Mnemonic::Cld => {
                self.cld(metadata.memory_mode);
            },
            Mnemonic::Cli => {
                self.cli(metadata.memory_mode);
            },
            Mnemonic::Clv => {
                self.clv(metadata.memory_mode);
            },
            Mnemonic::Sec => {
                self.sec(metadata.memory_mode);
            },
            Mnemonic::Sed => {
                self.sed(metadata.memory_mode);
            },
            Mnemonic::Sei => {
                self.sei(metadata.memory_mode);
            },
            Mnemonic::Pha => {
                self.pha(metadata.memory_mode);
            },
            Mnemonic::Php => {
                self.php(metadata.memory_mode);
            },
            Mnemonic::Pla => {
                self.pla(metadata.memory_mode);
            },
            Mnemonic::Plp => {
                self.plp(metadata.memory_mode);
            },
            _ => {
                self.run_unofficial(mnemonic, metadata);
            },
        }
    }

    fn run_unofficial(&mut self, mnemonic: Mnemonic, metadata: &Opcode)
        requires
            old(self)@.wf(),
        ensures
            final(self)@ == old(self)@.run_unofficial(mnemonic, *metadata),
            final(self)@.wf(),
            old(self)@.bus.ppu.precedes(final(self)@.bus.ppu),
    {
        reveal(CpuView::run_unofficial);
        match mnemonic {
            Mnemonic::Aso => {
                self.aso(metadata.memory_mode);
            },
            Mnemonic::Rla => {
                self.rla(metadata.memory_mode);
            },
            Mnemonic::Lse => {
                self.lse(metadata.memory_mode);
            },
            Mnemonic::Rra => {
                self.rra(metadata.memory_mode);
            },
            Mnemonic::Axs => {
                self.axs(metadata.memory_mode);
            },
            Mnemonic::Lax => {
                self.lax(metadata.memory_mode);
            },
            Mnemonic::Skb => {
                self.skb(metadata.memory_mode);
            },
            Mnemonic::Dcm => {
                self.dcm(metadata.memory_mode);
            },
            Mnemonic::Ins => {
                self.ins(metadata.memory_mode);
            },
            Mnemonic::Axa => {
                self.axa(metadata.memory_mode);
            },
            Mnemonic::Say => {
                self.say(metadata.memory_mode);
            },
            _ => {},
        }
    }

    fn finish_instruction(&mut self, operand_pointer: u16, metadata: &Opcode)
        requires
            old(self)@.wf(),
        ensures
            final(self)@ == old(self)@.finish_instruction(operand_pointer, *metadata),
            final(self)@.wf(),
            old(self)@.bus.ppu.precedes(final(self)@.bus.ppu),
            metadata.cycles >= 1 ==> old(self)@.bus.ppu.strictly_precedes(final(self)@.bus.ppu),
    {
        self.cycles = self.cycles.wrapping_add(metadata.cycles as u64);
        self.bus.tick(metadata.cycles as u64);
        if self.program_pointer == operand_pointer {
            self.program_pointer = self.program_pointer.wrapping_add(
                metadata.length.wrapping_sub(1) as u16,
            );
        }
    }

    /// Fetches, decodes and runs the instruction at the program counter.
    pub fn execute_opcode(&mut self) -> (result: Result<u64, UnknownOpcode>)
        requires
            old(self)@.wf(),
        ensures
            (final(self)@, result) == old(self)@.execute_opcode(),
            final(self)@.wf(),
            old(self)@.bus.ppu.precedes(final(self)@.bus.ppu),
            result is Ok ==> old(self)@.bus.ppu.strictly_precedes(final(self)@.bus.ppu),
    {
        reveal(CpuView::execute_opcode);
        let cycles = self.bus.cpu_cycles;
        let byte = self.bus.read_memory_u8(self.program_pointer);
        let opcode = match OpcodeType::from_u8(byte) {
            Some(opcode) => opcode,
            None => {
                return Err(UnknownOpcode { code: byte });
            },
        };
        self.program_pointer = self.program_pointer.wrapping_add(1);
        let opcode_metadata = Opcode::of(opcode);
        let program_pointer = self.program_pointer;
        self.run_instruction(opcode.mnemonic(), &opcode_metadata);
        self.finish_instruction(program_pointer, &opcode_metadata);
        Ok(self.bus.cpu_cycles.wrapping_sub(cycles))
    }

    /// Runs the machine for one step and reports the bus cycles it took.
    pub fn cpu_step(&mut self) -> (result: Result<u64, UnknownOpcode>)
        requires
            old(self)@.wf(),
        ensures
            (final(self)@, result) == old(self)@.cpu_step(),
            final(self)@.wf(),
            old(self)@.bus.ppu.precedes(final(self)@.bus.ppu),
            result is Ok ==> old(self)@.bus.ppu.strictly_precedes(final(self)@.bus.ppu),
    {
        reveal(CpuView::cpu_step);
        if self.bus.poll_nmi_interrupt() {
            let cycles = self.bus.cpu_cycles;
            self.interrupt(CpuInterrupt::nmi());
            self.bus.nmi_handled();
            return Ok(self.bus.cpu_cycles.wrapping_sub(cycles));
        }
        self.execute_opcode()
    }
}

} // verus!
