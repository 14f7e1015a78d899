use chip8::error::Chip8Error;
use chip8::opcode::{Instruction, OpCode};

#[test]
fn parse_splits_a_word_into_its_fields() {
    let op = OpCode::parse(0xD12F);
    assert_eq!(op, OpCode { h: 0xD, x: 0x1, y: 0x2, n: 0xF, nnn: 0x12F, kk: 0x2F });
    let op = OpCode::parse(0x0000);
    assert_eq!(op, OpCode { h: 0, x: 0, y: 0, n: 0, nnn: 0, kk: 0 });
    let op = OpCode::parse(0xFFFF);
    assert_eq!(op, OpCode { h: 0xF, x: 0xF, y: 0xF, n: 0xF, nnn: 0xFFF, kk: 0xFF });
    let op = OpCode::parse(0x8AB4);
    assert_eq!(op, OpCode { h: 0x8, x: 0xA, y: 0xB, n: 0x4, nnn: 0xAB4, kk: 0xB4 });
}

#[test]
fn parse_fields_spell_the_word_for_every_word() {
    for word in 0..=0xFFFFu16 {
        let op = OpCode::parse(word);
        assert!(op.h < 16 && op.x < 16 && op.y < 16 && op.n < 16);
        let spelled = (op.h as u16) << 12 | (op.x as u16) << 8 | (op.y as u16) << 4 | op.n as u16;
        assert_eq!(spelled, word);
        assert_eq!(op.nnn, word & 0x0FFF);
        assert_eq!(op.kk as u16, word & 0x00FF);
    }
}

#[test]
fn decode_knows_every_instruction() {
    assert_eq!(Instruction::decode(0x00E0), Ok(Instruction::Cls));
    assert_eq!(Instruction::decode(0x00EE), Ok(Instruction::Ret));
    assert_eq!(Instruction::decode(0x1ABC), Ok(Instruction::Jump { addr: 0xABC }));
    assert_eq!(Instruction::decode(0x2FFF), Ok(Instruction::Call { addr: 0xFFF }));
    assert_eq!(Instruction::decode(0x3A12), Ok(Instruction::SkipEqByte { x: 0xA, kk: 0x12 }));
    assert_eq!(Instruction::decode(0x4B34), Ok(Instruction::SkipNeByte { x: 0xB, kk: 0x34 }));
    assert_eq!(Instruction::decode(0x5120), Ok(Instruction::SkipEqReg { x: 1, y: 2 }));
    assert_eq!(Instruction::decode(0x60FF), Ok(Instruction::LoadByte { x: 0, kk: 0xFF }));
    assert_eq!(Instruction::decode(0x7E01), Ok(Instruction::AddByte { x: 0xE, kk: 1 }));
    assert_eq!(Instruction::decode(0x8120), Ok(Instruction::LoadReg { x: 1, y: 2 }));
    assert_eq!(Instruction::decode(0x8121), Ok(Instruction::Or { x: 1, y: 2 }));
    assert_eq!(Instruction::decode(0x8122), Ok(Instruction::And { x: 1, y: 2 }));
    assert_eq!(Instruction::decode(0x8123), Ok(Instruction::Xor { x: 1, y: 2 }));
    assert_eq!(Instruction::decode(0x8124), Ok(Instruction::AddReg { x: 1, y: 2 }));
    assert_eq!(Instruction::decode(0x8125), Ok(Instruction::Sub { x: 1, y: 2 }));
    assert_eq!(Instruction::decode(0x8126), Ok(Instruction::ShiftRight { x: 1 }));
    assert_eq!(Instruction::decode(0x8127), Ok(Instruction::SubNeg { x: 1, y: 2 }));
    assert_eq!(Instruction::decode(0x812E), Ok(Instruction::ShiftLeft { x: 1 }));
    assert_eq!(Instruction::decode(0x9120), Ok(Instruction::SkipNeReg { x: 1, y: 2 }));
    assert_eq!(Instruction::decode(0xA123), Ok(Instruction::LoadIndex { addr: 0x123 }));
    assert_eq!(Instruction::decode(0xB123), Ok(Instruction::JumpOffset { addr: 0x123 }));
    assert_eq!(Instruction::decode(0xC30F), Ok(Instruction::Random { x: 3, kk: 0x0F }));
    assert_eq!(Instruction::decode(0xD125), Ok(Instruction::Draw { x: 1, y: 2, n: 5 }));
    assert_eq!(Instruction::decode(0xE49E), Ok(Instruction::SkipKey { x: 4 }));
    assert_eq!(Instruction::decode(0xE4A1), Ok(Instruction::SkipNoKey { x: 4 }));
    assert_eq!(Instruction::decode(0xF507), Ok(Instruction::LoadDelay { x: 5 }));
    assert_eq!(Instruction::decode(0xF50A), Ok(Instruction::WaitKey { x: 5 }));
    assert_eq!(Instruction::decode(0xF515), Ok(Instruction::SetDelay { x: 5 }));
    assert_eq!(Instruction::decode(0xF518), Ok(Instruction::SetSound { x: 5 }));
    assert_eq!(Instruction::decode(0xF51E), Ok(Instruction::AddIndex { x: 5 }));
    assert_eq!(Instruction::decode(0xF529), Ok(Instruction::LoadFont { x: 5 }));
    assert_eq!(Instruction::decode(0xF533), Ok(Instruction::StoreBcd { x: 5 }));
    assert_eq!(Instruction::decode(0xF555), Ok(Instruction::StoreRegs { x: 5 }));
    assert_eq!(Instruction::decode(0xF565), Ok(Instruction::LoadRegs { x: 5 }));
}

#[test]
fn decode_refuses_words_that_stand_for_nothing() {
    for word in [
        0x0000u16, 0x0123, 0x00E1, 0x00EF, 0x01E0, 0x5121, 0x512F, 0x8128, 0x812D, 0x812F, 0x9121,
        0xE000, 0xE19F, 0xE1A0, 0xF000, 0xF108, 0xF100, 0xF1FF, 0xF166,
    ] {
        assert_eq!(Instruction::decode(word), Err(Chip8Error::UnknownOpcode));
    }
}

#[test]
fn decode_knows_exactly_the_mapped_words() {
    let mut known: u32 = 0;
    for word in 0..=0xFFFFu16 {
        if Instruction::decode(word).is_ok() {
            known += 1;
        }
    }
    // Ten groups take every word; the others take one word per register
    // number or pair of them.
    let whole_groups = 10 * 4096;
    let zero = 2;
    let pairs = 2 * 256;
    let arithmetic = 9 * 256;
    let keys = 2 * 16;
    let misc = 9 * 16;
    assert_eq!(known, whole_groups + zero + pairs + arithmetic + keys + misc);
}

#[test]
fn from_fields_agrees_with_decode() {
    for word in [0x00E0u16, 0x1234, 0x8AB4, 0xF065, 0xFFFF, 0x5AB1] {
        assert_eq!(Instruction::from_fields(OpCode::parse(word)), Instruction::decode(word));
    }
}
