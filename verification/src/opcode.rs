use vstd::prelude::*;
use crate::error::Chip8Error;

verus! {

/// The fields of a 16-bit instruction word.
#[derive(Clone, Copy, Debug, PartialEq, Eq, Structural)]
pub struct OpCode {
    /// Bits 12 to 15: the instruction group.
    pub h: u8,
    /// Bits 8 to 11: most often a register number.
    pub x: u8,
    /// Bits 4 to 7: most often a second register number.
    pub y: u8,
    /// Bits 0 to 3.
    pub n: u8,
    /// Bits 0 to 11: an address.
    pub nnn: u16,
    /// Bits 0 to 7: a byte operand.
    pub kk: u8,
}

impl OpCode {
    /// The fields of `instruction`, each as the number that its bits spell.
    pub open spec fn fields_of(instruction: u16) -> OpCode {
        OpCode {
            h: (instruction / 4096) as u8,
            x: (instruction / 256 % 16) as u8,
            y: (instruction / 16 % 16) as u8,
            n: (instruction % 16) as u8,
            nnn: (instruction % 4096) as u16,
            kk: (instruction % 256) as u8,
        }
    }

    /// Whether the fields are those of some instruction word.
    pub open spec fn wf(self) -> bool {
        &&& self.h < 16
        &&& self.x < 16
        &&& self.y < 16
        &&& self.n < 16
        &&& self.nnn == self.x * 256 + self.y * 16 + self.n
        &&& self.kk == self.y * 16 + self.n
    }

    /// The instruction word that the fields came from.
    pub open spec fn word(self) -> int {
        self.h * 4096 + self.x * 256 + self.y * 16 + self.n
    }

    /// Splits an instruction word into its fields.
    pub fn parse(instruction: u16) -> (op: OpCode)
        ensures
            op == Self::fields_of(instruction),
            op.wf(),
            op.word() == instruction,
    {
        assert((instruction & 0xF000) >> 12 == instruction / 4096) by (bit_vector);
        assert((instruction & 0x0F00) >> 8 == instruction / 256 % 16) by (bit_vector);
        assert((instruction & 0x00F0) >> 4 == instruction / 16 % 16) by (bit_vector);
        assert(instruction & 0x000F == instruction % 16) by (bit_vector);
        assert(instruction & 0x0FFF == instruction % 4096) by (bit_vector);
        assert(instruction & 0x00FF == instruction % 256) by (bit_vector);
        OpCode {
            h: ((instruction & 0xF000) >> 12) as u8,
            x: ((instruction & 0x0F00) >> 8) as u8,
            y: ((instruction & 0x00F0) >> 4) as u8,
            n: (instruction & 0x000F) as u8,
            nnn: instruction & 0x0FFF,
            kk: (instruction & 0x00FF) as u8,
        }
    }
}

/// The instructions of the machine, each with its operands: `x` and `y`
/// are register numbers, `kk` a byte, `addr` an address, `n` a sprite's
/// height.
#[derive(Clone, Copy, Debug, PartialEq, Eq, Structural)]
pub enum Instruction {
    /// `00E0`: clear the screen.
    Cls,
    /// `00EE`: return from a subroutine.
    Ret,
    /// `1nnn`: jump to `addr`.
    Jump { addr: u16 },
    /// `2nnn`: call the subroutine at `addr`.
    Call { addr: u16 },
    /// `3xkk`: skip the next instruction if `Vx` equals `kk`.
    SkipEqByte { x: u8, kk: u8 },
    /// `4xkk`: skip the next instruction if `Vx` differs from `kk`.
    SkipNeByte { x: u8, kk: u8 },
    /// `5xy0`: skip the next instruction if `Vx` equals `Vy`.
    SkipEqReg { x: u8, y: u8 },
    /// `6xkk`: put `kk` into `Vx`.
    LoadByte { x: u8, kk: u8 },
    /// `7xkk`: add `kk` to `Vx`, without a carry flag.
    AddByte { x: u8, kk: u8 },
    /// `8xy0`: copy `Vy` into `Vx`.
    LoadReg { x: u8, y: u8 },
    /// `8xy1`: `Vx` becomes `Vx` or `Vy`, bit by bit.
    Or { x: u8, y: u8 },
    /// `8xy2`: `Vx` becomes `Vx` and `Vy`, bit by bit.
    And { x: u8, y: u8 },
    /// `8xy3`: `Vx` becomes `Vx` exclusive-or `Vy`, bit by bit.
    Xor { x: u8, y: u8 },
    /// `8xy4`: add `Vy` to `Vx`; `VF` tells whether the sum carried.
    AddReg { x: u8, y: u8 },
    /// `8xy5`: subtract `Vy` from `Vx`; `VF` tells whether nothing was borrowed.
    Sub { x: u8, y: u8 },
    /// `8xy6`: shift `Vx` right by one; `VF` takes the bit shifted out.
    ShiftRight { x: u8 },
    /// `8xy7`: `Vx` becomes `Vy` minus `Vx`; `VF` tells whether nothing was borrowed.
    SubNeg { x: u8, y: u8 },
    /// `8xyE`: shift `Vx` left by one; `VF` takes the bit shifted out.
    ShiftLeft { x: u8 },
    /// `9xy0`: skip the next instruction if `Vx` differs from `Vy`.
    SkipNeReg { x: u8, y: u8 },
    /// `Annn`: put `addr` into `I`.
    LoadIndex { addr: u16 },
    /// `Bnnn`: jump to `addr` plus `V0`.
    JumpOffset { addr: u16 },
    /// `Cxkk`: put a random byte, masked by `kk`, into `Vx`.
    Random { x: u8, kk: u8 },
    /// `Dxyn`: draw the `n`-byte sprite at `I` at column `Vx`, row `Vy`.
    Draw { x: u8, y: u8, n: u8 },
    /// `Ex9E`: skip the next instruction if the key `Vx` is down.
    SkipKey { x: u8 },
    /// `ExA1`: skip the next instruction if the key `Vx` is not down.
    SkipNoKey { x: u8 },
    /// `Fx07`: copy the delay timer into `Vx`.
    LoadDelay { x: u8 },
    /// `Fx0A`: wait for a key press and put the key into `Vx`.
    WaitKey { x: u8 },
    /// `Fx15`: copy `Vx` into the delay timer.
    SetDelay { x: u8 },
    /// `Fx18`: copy `Vx` into the sound timer.
    SetSound { x: u8 },
    /// `Fx1E`: add `Vx` to `I`.
    AddIndex { x: u8 },
    /// `Fx29`: point `I` at the font sprite of the digit `Vx`.
    LoadFont { x: u8 },
    /// `Fx33`: store the decimal digits of `Vx` at `I`, `I + 1`, `I + 2`.
    StoreBcd { x: u8 },
    /// `Fx55`: store `V0` to `Vx` in memory from `I` on.
    StoreRegs { x: u8 },
    /// `Fx65`: load `V0` to `Vx` from memory from `I` on.
    LoadRegs { x: u8 },
}

impl Instruction {
    /// Whether the operands are in the range that an instruction word can
    /// hold: register numbers and sprite heights below 16, addresses
    /// below 4096.
    pub open spec fn wf(self) -> bool {
        match self {
            Instruction::Cls | Instruction::Ret => true,
            Instruction::Jump { addr }
            | Instruction::Call { addr }
            | Instruction::LoadIndex { addr }
            | Instruction::JumpOffset { addr } => addr < 4096,
            Instruction::SkipEqByte { x, .. }
            | Instruction::SkipNeByte { x, .. }
            | Instruction::LoadByte { x, .. }
            | Instruction::AddByte { x, .. }
            | Instruction::Random { x, .. }
            | Instruction::ShiftRight { x }
            | Instruction::ShiftLeft { x }
            | Instruction::SkipKey { x }
            | Instruction::SkipNoKey { x }
            | Instruction::LoadDelay { x }
            | Instruction::WaitKey { x }
            | Instruction::SetDelay { x }
            | Instruction::SetSound { x }
            | Instruction::AddIndex { x }
            | Instruction::LoadFont { x }
            | Instruction::StoreBcd { x }
            | Instruction::StoreRegs { x }
            | Instruction::LoadRegs { x } => x < 16,
            Instruction::SkipEqReg { x, y }
            | Instruction::LoadReg { x, y }
            | Instruction::Or { x, y }
            | Instruction::And { x, y }
            | Instruction::Xor { x, y }
            | Instruction::AddReg { x, y }
            | Instruction::Sub { x, y }
            | Instruction::SubNeg { x, y }
            | Instruction::SkipNeReg { x, y } => x < 16 && y < 16,
            Instruction::Draw { x, y, n } => x < 16 && y < 16 && n < 16,
        }
    }

    /// Tells whether the operands are in range.
    pub fn is_valid(&self) -> (valid: bool)
        ensures
            valid == self.wf(),
    {
        match *self {
            Instruction::Cls | Instruction::Ret => true,
            Instruction::Jump { addr }
            | Instruction::Call { addr }
            | Instruction::LoadIndex { addr }
            | Instruction::JumpOffset { addr } => addr < 4096,
            Instruction::SkipEqByte { x, .. }
            | Instruction::SkipNeByte { x, .. }
            | Instruction::LoadByte { x, .. }
            | Instruction::AddByte { x, .. }
            | Instruction::Random { x, .. }
            | Instruction::ShiftRight { x }
            | Instruction::ShiftLeft { x }
            | Instruction::SkipKey { x }
            | Instruction::SkipNoKey { x }
            | Instruction::LoadDelay { x }
            | Instruction::WaitKey { x }
            | Instruction::SetDelay { x }
            | Instruction::SetSound { x }
            | Instruction::AddIndex { x }
            | Instruction::LoadFont { x }
            | Instruction::StoreBcd { x }
            | Instruction::StoreRegs { x }
            | Instruction::LoadRegs { x } => x < 16,
            Instruction::SkipEqReg { x, y }
            | Instruction::LoadReg { x, y }
            | Instruction::Or { x, y }
            | Instruction::And { x, y }
            | Instruction::Xor { x, y }
            | Instruction::AddReg { x, y }
            | Instruction::Sub { x, y }
            | Instruction::SubNeg { x, y }
            | Instruction::SkipNeReg { x, y } => x < 16 && y < 16,
            Instruction::Draw { x, y, n } => x < 16 && y < 16 && n < 16,
        }
    }

    /// The instruction that the fields `op` stand for, if they stand for one.
    /// The group `h` decides; the groups 0, 8, E and F hold several
    /// instructions, told apart by the low bits.
    pub open spec fn of_fields(op: OpCode) -> Option<Instruction> {
        let OpCode { h, x, y, n, nnn, kk } = op;
        if h == 0x0 {
            if nnn == 0x0E0 {
                Some(Instruction::Cls)
            } else if nnn == 0x0EE {
                Some(Instruction::Ret)
            } else {
                None
            }
        } else if h == 0x1 {
            Some(Instruction::Jump { addr: nnn })
        } else if h == 0x2 {
            Some(Instruction::Call { addr: nnn })
        } else if h == 0x3 {
            Some(Instruction::SkipEqByte { x, kk })
        } else if h == 0x4 {
            Some(Instruction::SkipNeByte { x, kk })
        } else if h == 0x5 {
            if n == 0 {
                Some(Instruction::SkipEqReg { x, y })
            } else {
                None
            }
        } else if h == 0x6 {
            Some(Instruction::LoadByte { x, kk })
        } else if h == 0x7 {
            Some(Instruction::AddByte { x, kk })
        } else if h == 0x8 {
            if n == 0x0 {
                Some(Instruction::LoadReg { x, y })
            } else if n == 0x1 {
                Some(Instruction::Or { x, y })
            } else if n == 0x2 {
                Some(Instruction::And { x, y })
            } else if n == 0x3 {
                Some(Instruction::Xor { x, y })
            } else if n == 0x4 {
                Some(Instruction::AddReg { x, y })
            } else if n == 0x5 {
                Some(Instruction::Sub { x, y })
            } else if n == 0x6 {
                Some(Instruction::ShiftRight { x })
            } else if n == 0x7 {
                Some(Instruction::SubNeg { x, y })
            } else if n == 0xE {
                Some(Instruction::ShiftLeft { x })
            } else {
                None
            }
        } else if h == 0x9 {
            if n == 0 {
                Some(Instruction::SkipNeReg { x, y })
            } else {
                None
            }
        } else if h == 0xA {
            Some(Instruction::LoadIndex { addr: nnn })
        } else if h == 0xB {
            Some(Instruction::JumpOffset { addr: nnn })
        } else if h == 0xC {
            Some(Instruction::Random { x, kk })
        } else if h == 0xD {
            Some(Instruction::Draw { x, y, n })
        } else if h == 0xE {
            if kk == 0x9E {
                Some(Instruction::SkipKey { x })
            } else if kk == 0xA1 {
                Some(Instruction::SkipNoKey { x })
            } else {
                None
            }
        } else if h == 0xF {
            if kk == 0x07 {
                Some(Instruction::LoadDelay { x })
            } else if kk == 0x0A {
                Some(Instruction::WaitKey { x })
            } else if kk == 0x15 {
                Some(Instruction::SetDelay { x })
            } else if kk == 0x18 {
                Some(Instruction::SetSound { x })
            } else if kk == 0x1E {
                Some(Instruction::AddIndex { x })
            } else if kk == 0x29 {
                Some(Instruction::LoadFont { x })
            } else if kk == 0x33 {
                Some(Instruction::StoreBcd { x })
            } else if kk == 0x55 {
                Some(Instruction::StoreRegs { x })
            } else if kk == 0x65 {
                Some(Instruction::LoadRegs { x })
            } else {
                None
            }
        } else {
            None
        }
    }

    /// The instruction that the word `instruction` stands for, if any.
    pub open spec fn of_word(instruction: u16) -> Option<Instruction> {
        Self::of_fields(OpCode::fields_of(instruction))
    }

    /// Decodes parsed fields: the instruction they stand for, or
    /// `UnknownOpcode` where they stand for none.
    pub fn from_fields(op: OpCode) -> (r: Result<Instruction, Chip8Error>)
        ensures
            match Self::of_fields(op) {
                Some(instr) => r == Ok::<Instruction, Chip8Error>(instr),
                None => r == Err::<Instruction, Chip8Error>(Chip8Error::UnknownOpcode),
            },
    {
        let OpCode { h, x, y, n, nnn, kk } = op;
        let unknown = Err(Chip8Error::UnknownOpcode);
        match h {
            0x0 => match nnn {
                0x0E0 => Ok(Instruction::Cls),
                0x0EE => Ok(Instruction::Ret),
                _ => unknown,
            },
            0x1 => Ok(Instruction::Jump { addr: nnn }),
            0x2 => Ok(Instruction::Call { addr: nnn }),
            0x3 => Ok(Instruction::SkipEqByte { x, kk }),
            0x4 => Ok(Instruction::SkipNeByte { x, kk }),
            0x5 => match n {
                0x0 => Ok(Instruction::SkipEqReg { x, y }),
                _ => unknown,
            },
            0x6 => Ok(Instruction::LoadByte { x, kk }),
            0x7 => Ok(Instruction::AddByte { x, kk }),
            0x8 => match n {
                0x0 => Ok(Instruction::LoadReg { x, y }),
                0x1 => Ok(Instruction::Or { x, y }),
                0x2 => Ok(Instruction::And { x, y }),
                0x3 => Ok(Instruction::Xor { x, y }),
                0x4 => Ok(Instruction::AddReg { x, y }),
                0x5 => Ok(Instruction::Sub { x, y }),
                0x6 => Ok(Instruction::ShiftRight { x }),
                0x7 => Ok(Instruction::SubNeg { x, y }),
                0xE => Ok(Instruction::ShiftLeft { x }),
                _ => unknown,
            },
            0x9 => match n {
                0x0 => Ok(Instruction::SkipNeReg { x, y }),
                _ => unknown,
            },
            0xA => Ok(Instruction::LoadIndex { addr: nnn }),
            0xB => Ok(Instruction::JumpOffset { addr: nnn }),
            0xC => Ok(Instruction::Random { x, kk }),
            0xD => Ok(Instruction::Draw { x, y, n }),
            0xE => match kk {
                0x9E => Ok(Instruction::SkipKey { x }),
                0xA1 => Ok(Instruction::SkipNoKey { x }),
                _ => unknown,
            },
            0xF => match kk {
                0x07 => Ok(Instruction::LoadDelay { x }),
                0x0A => Ok(Instruction::WaitKey { x }),
                0x15 => Ok(Instruction::SetDelay { x }),
                0x18 => Ok(Instruction::SetSound { x }),
                0x1E => Ok(Instruction::AddIndex { x }),
                0x29 => Ok(Instruction::LoadFont { x }),
                0x33 => Ok(Instruction::StoreBcd { x }),
                0x55 => Ok(Instruction::StoreRegs { x }),
                0x65 => Ok(Instruction::LoadRegs { x }),
                _ => unknown,
            },
            _ => unknown,
        }
    }

    /// Decodes an instruction word: the instruction it stands for, with
    /// operands in range, or `UnknownOpcode` where it stands for none.
    pub fn decode(instruction: u16) -> (r: Result<Instruction, Chip8Error>)
        ensures
            match Self::of_word(instruction) {
                Some(instr) => r == Ok::<Instruction, Chip8Error>(instr) && instr.wf(),
                None => r == Err::<Instruction, Chip8Error>(Chip8Error::UnknownOpcode),
            },
    {
        Self::from_fields(OpCode::parse(instruction))
    }
}

/// Every instruction that well-formed fields stand for has its operands
/// in range.
pub proof fn lemma_decoded_operands_in_range(op: OpCode)
    requires
        op.wf(),
    ensures
        Instruction::of_fields(op) matches Some(instr) ==> instr.wf(),
{
}

/// The fields of every instruction word are well formed, and spell the
/// word again.
pub proof fn lemma_fields_well_formed(word: u16)
    ensures
        OpCode::fields_of(word).wf(),
        OpCode::fields_of(word).word() == word,
{
    assert(word / 4096 < 16 && word / 256 % 16 < 16 && word / 16 % 16 < 16 && word % 16 < 16
        && word % 4096 == (word / 256 % 16) * 256 + (word / 16 % 16) * 16 + word % 16 && word % 256
        == (word / 16 % 16) * 16 + word % 16 && word == (word / 4096) * 4096 + (word / 256 % 16)
        * 256 + (word / 16 % 16) * 16 + word % 16) by (bit_vector);
}

/// Every instruction that a word stands for has its operands in range.
pub proof fn lemma_word_operands_in_range(word: u16)
    ensures
        Instruction::of_word(word) matches Some(instr) ==> instr.wf(),
{
    lemma_fields_well_formed(word);
    lemma_decoded_operands_in_range(OpCode::fields_of(word));
}

} // verus!
