use dendynes::addressing::MemoryAccessMode;
use dendynes::execute::Mnemonic;
use dendynes::opcode::{Opcode, OpcodeType};

#[test]
fn opcode_bytes_round_trip() {
    let mut known = 0;
    for byte in 0..=255u8 {
        if let Some(opcode) = OpcodeType::from_u8(byte) {
            known += 1;
            assert_eq!(opcode.to_u8(), byte);
            assert_eq!(Opcode::of(opcode).code, opcode);
        }
    }
    assert_eq!(known, 235);
}

#[test]
fn some_bytes_are_no_opcode() {
    for byte in [0x0Bu8, 0x12, 0x22, 0x4B, 0x6B, 0x8B, 0x9B, 0x9E, 0xAB, 0xBB, 0xCB, 0xF2] {
        assert_eq!(OpcodeType::from_u8(byte), None);
    }
}

#[test]
fn table_entries() {
    let lda = Opcode::of(OpcodeType::from_u8(0xA9).unwrap());
    assert_eq!(lda.code, OpcodeType::LdaI);
    assert_eq!(lda.name, "LDA");
    assert_eq!(lda.length, 2);
    assert_eq!(lda.cycles, 2);
    assert_eq!(lda.memory_mode, MemoryAccessMode::Immediate);
    let sta = Opcode::of(OpcodeType::StaAx);
    assert_eq!((sta.name, sta.length, sta.cycles), ("STA", 3, 5));
    assert_eq!(sta.memory_mode, MemoryAccessMode::AbsoluteX(false));
    let brk = Opcode::of(OpcodeType::Brk);
    assert_eq!((brk.name, brk.length, brk.cycles), ("BRK", 1, 7));
    assert_eq!(brk.memory_mode, MemoryAccessMode::Implied);
    let jmp = Opcode::of(OpcodeType::JmpInd);
    assert_eq!((jmp.length, jmp.cycles, jmp.memory_mode), (3, 5, MemoryAccessMode::Indirect));
    let bne = Opcode::of(OpcodeType::Bne);
    assert_eq!(bne.memory_mode, MemoryAccessMode::Relative(true));
    let made = Opcode::new(OpcodeType::Nop, "NOP", 1, 2, MemoryAccessMode::Implied);
    let nop = Opcode::of(OpcodeType::Nop);
    assert_eq!((made.code, made.name, made.length, made.cycles, made.memory_mode),
        (nop.code, nop.name, nop.length, nop.cycles, nop.memory_mode));
}

#[test]
fn lengths_follow_the_addressing_mode() {
    for byte in 0..=255u8 {
        if let Some(opcode) = OpcodeType::from_u8(byte) {
            let entry = Opcode::of(opcode);
            let expected = match entry.memory_mode {
                MemoryAccessMode::Implied | MemoryAccessMode::Accumulator => 1,
                MemoryAccessMode::Absolute
                | MemoryAccessMode::AbsoluteX(_)
                | MemoryAccessMode::AbsoluteY(_)
                | MemoryAccessMode::Indirect => 3,
                _ => 2,
            };
            assert_eq!(entry.length, expected);
            assert!(entry.cycles >= 2 && entry.cycles <= 8);
        }
    }
}

#[test]
fn mnemonics() {
    assert_eq!(OpcodeType::AdcIy.mnemonic(), Mnemonic::Adc);
    assert_eq!(OpcodeType::Sbc1I.mnemonic(), Mnemonic::Sbc);
    assert_eq!(OpcodeType::NopHlt.mnemonic(), Mnemonic::Nop);
    assert_eq!(OpcodeType::Skb20.mnemonic(), Mnemonic::Skb);
    assert_eq!(OpcodeType::Say.mnemonic(), Mnemonic::Say);
}

#[test]
fn addressing_mode_helpers() {
    assert!(MemoryAccessMode::AbsoluteX(true).can_page_cross());
    assert!(MemoryAccessMode::AbsoluteY(true).can_page_cross());
    assert!(MemoryAccessMode::IndirectY(true).can_page_cross());
    assert!(MemoryAccessMode::Relative(true).can_page_cross());
    assert!(!MemoryAccessMode::AbsoluteX(false).can_page_cross());
    assert!(!MemoryAccessMode::Absolute.can_page_cross());
    assert!(!MemoryAccessMode::IndirectX.can_page_cross());
    assert!(!MemoryAccessMode::page_crossed(0x1200, 0x12FF));
    assert!(MemoryAccessMode::page_crossed(0x12FF, 0x1300));
    assert!(MemoryAccessMode::page_crossed(0xFFFF, 0x0000));
    assert!(!MemoryAccessMode::page_crossed(0x0001_1234, 0x1200));
}
