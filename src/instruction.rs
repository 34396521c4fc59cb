//! The instruction set, and the decoding of 16-bit words into it.
use vstd::prelude::*;
use crate::error::AppError;

verus! {

/// One decoded instruction. `x` and `y` name registers, `kk` is an
/// immediate byte, `nnn` a 12-bit address and `n` a 4-bit count.
#[derive(Debug, Clone, Copy, PartialEq, Eq, Structural)]
pub enum Instruction {
    /// `0nnn`: legacy machine-code call, ignored.
    Sys { nnn: u16 },
    /// `00E0`: unlight the whole display.
    Clear,
    /// `00EE`: return from a subroutine.
    Return,
    /// `1nnn`: jump to `nnn`.
    Jump { nnn: u16 },
    /// `2nnn`: call the subroutine at `nnn`.
    Call { nnn: u16 },
    /// `3xkk`: skip the next instruction if `Vx == kk`.
    SkipEqByte { x: u8, kk: u8 },
    /// `4xkk`: skip the next instruction if `Vx != kk`.
    SkipNeByte { x: u8, kk: u8 },
    /// `5xy_`: skip the next instruction if `Vx == Vy`; the low nibble is
    /// not read.
    SkipEqReg { x: u8, y: u8 },
    /// `6xkk`: `Vx = kk`.
    LoadByte { x: u8, kk: u8 },
    /// `7xkk`: `Vx = Vx + kk`, wrapping, flag untouched.
    AddByte { x: u8, kk: u8 },
    /// `8xy0`: `Vx = Vy`.
    LoadReg { x: u8, y: u8 },
    /// `8xy1`: `Vx = Vx | Vy`.
    Or { x: u8, y: u8 },
    /// `8xy2`: `Vx = Vx & Vy`.
    And { x: u8, y: u8 },
    /// `8xy3`: `Vx = Vx ^ Vy`.
    Xor { x: u8, y: u8 },
    /// `8xy4`: `Vx = Vx + Vy`, wrapping, `VF = carry`.
    AddReg { x: u8, y: u8 },
    /// `8xy5`: `Vx = Vx - Vy`, wrapping, `VF = not borrow`.
    SubReg { x: u8, y: u8 },
    /// `8xy6`: `Vx = Vx >> 1`, `VF = the bit shifted out`.
    ShiftRight { x: u8, y: u8 },
    /// `8xy7`: `Vx = Vy - Vx`, wrapping, `VF = not borrow`.
    SubNeg { x: u8, y: u8 },
    /// `8xyE`: `Vx = Vx << 1`, wrapping, `VF = the bit shifted out`.
    ShiftLeft { x: u8, y: u8 },
    /// `9xy_`: skip the next instruction if `Vx != Vy`; the low nibble is
    /// not read.
    SkipNeReg { x: u8, y: u8 },
    /// `Annn`: `I = nnn`.
    LoadI { nnn: u16 },
    /// `Bnnn`: jump to `nnn + V0`.
    JumpV0 { nnn: u16 },
    /// `Cxkk`: `Vx = random byte & kk`.
    Random { x: u8, kk: u8 },
    /// `Dxyn`: draw the `n`-byte sprite at `I` at `(Vx, Vy)`, `VF = collision`.
    Draw { x: u8, y: u8, n: u8 },
    /// `Ex9E`: skip the next instruction if key `Vx` is down.
    SkipKey { x: u8 },
    /// `ExA1`: skip the next instruction if key `Vx` is up.
    SkipNoKey { x: u8 },
    /// `Fx07`: `Vx = delay timer`.
    LoadDelay { x: u8 },
    /// `Fx0A`: wait for a key press and store its index in `Vx`.
    WaitKey { x: u8 },
    /// `Fx15`: `delay timer = Vx`.
    SetDelay { x: u8 },
    /// `Fx18`: `sound timer = Vx`.
    SetSound { x: u8 },
    /// `Fx1E`: `I = I + Vx`, wrapping.
    AddI { x: u8 },
    /// `Fx29`: `I = address of the font sprite of digit Vx`.
    LoadFont { x: u8 },
    /// `Fx33`: store the decimal digits of `Vx` at `I`, `I+1`, `I+2`.
    StoreBcd { x: u8 },
    /// `Fx55`: store `V0..=Vx` at `I..=I+x`.
    StoreRegs { x: u8 },
    /// `Fx65`: load `V0..=Vx` from `I..=I+x`.
    LoadRegs { x: u8 },
}

/// Top four bits of an opcode: its class.
pub open spec fn op_class(op: u16) -> u16 {
    op >> 12u16
}

/// Second nibble of an opcode: the first register operand.
pub open spec fn op_x(op: u16) -> u8 {
    ((op >> 8u16) & 0x000Fu16) as u8
}

/// Third nibble of an opcode: the second register operand.
pub open spec fn op_y(op: u16) -> u8 {
    ((op >> 4u16) & 0x000Fu16) as u8
}

/// Low nibble of an opcode.
pub open spec fn op_n(op: u16) -> u8 {
    (op & 0x000Fu16) as u8
}

/// Low byte of an opcode.
pub open spec fn op_kk(op: u16) -> u8 {
    (op & 0x00FFu16) as u8
}

/// Low twelve bits of an opcode: an address.
pub open spec fn op_nnn(op: u16) -> u16 {
    op & 0x0FFFu16
}

impl Instruction {
    /// Operands are in range: registers and counts are nibbles, addresses
    /// are twelve bits wide.
    pub open spec fn wf(self) -> bool {
        match self {
            Instruction::Sys { nnn } => nnn < 0x1000,
            Instruction::Jump { nnn } => nnn < 0x1000,
            Instruction::Call { nnn } => nnn < 0x1000,
            Instruction::LoadI { nnn } => nnn < 0x1000,
            Instruction::JumpV0 { nnn } => nnn < 0x1000,
            Instruction::SkipEqByte { x, kk } => x < 16,
            Instruction::SkipNeByte { x, kk } => x < 16,
            Instruction::LoadByte { x, kk } => x < 16,
            Instruction::AddByte { x, kk } => x < 16,
            Instruction::Random { x, kk } => x < 16,
            Instruction::SkipEqReg { x, y } => x < 16 && y < 16,
            Instruction::LoadReg { x, y } => x < 16 && y < 16,
            Instruction::Or { x, y } => x < 16 && y < 16,
            Instruction::And { x, y } => x < 16 && y < 16,
            Instruction::Xor { x, y } => x < 16 && y < 16,
            Instruction::AddReg { x, y } => x < 16 && y < 16,
            Instruction::SubReg { x, y } => x < 16 && y < 16,
            Instruction::ShiftRight { x, y } => x < 16 && y < 16,
            Instruction::SubNeg { x, y } => x < 16 && y < 16,
            Instruction::ShiftLeft { x, y } => x < 16 && y < 16,
            Instruction::SkipNeReg { x, y } => x < 16 && y < 16,
            Instruction::Draw { x, y, n } => x < 16 && y < 16 && n < 16,
            Instruction::SkipKey { x } => x < 16,
            Instruction::SkipNoKey { x } => x < 16,
            Instruction::LoadDelay { x } => x < 16,
            Instruction::WaitKey { x } => x < 16,
            Instruction::SetDelay { x } => x < 16,
            Instruction::SetSound { x } => x < 16,
            Instruction::AddI { x } => x < 16,
            Instruction::LoadFont { x } => x < 16,
            Instruction::StoreBcd { x } => x < 16,
            Instruction::StoreRegs { x } => x < 16,
            Instruction::LoadRegs { x } => x < 16,
            _ => true,
        }
    }
}

/// The instruction that an opcode denotes, if any.
pub open spec fn decode_spec(op: u16) -> Option<Instruction> {
    let x = op_x(op);
    let y = op_y(op);
    let n = op_n(op);
    let kk = op_kk(op);
    let nnn = op_nnn(op);
    let class = op_class(op);
    if class == 0 {
        if op == 0x00E0 {
            Some(Instruction::Clear)
        } else if op == 0x00EE {
            Some(Instruction::Return)
        } else {
            Some(Instruction::Sys { nnn })
        }
    } else if class == 1 {
        Some(Instruction::Jump { nnn })
    } else if class == 2 {
        Some(Instruction::Call { nnn })
    } else if class == 3 {
        Some(Instruction::SkipEqByte { x, kk })
    } else if class == 4 {
        Some(Instruction::SkipNeByte { x, kk })
    } else if class == 5 {
        Some(Instruction::SkipEqReg { x, y })
    } else if class == 6 {
        Some(Instruction::LoadByte { x, kk })
    } else if class == 7 {
        Some(Instruction::AddByte { x, kk })
    } else if class == 8 {
        if n == 0x0 {
            Some(Instruction::LoadReg { x, y })
        } else if n == 0x1 {
            Some(Instruction::Or { x, y })
        } else if n == 0x2 {
            Some(Instruction::And { x, y })
        } else if n == 0x3 {
            Some(Instruction::Xor { x, y })
        } else if n == 0x4 {
            Some(Instruction::AddReg { x, y })
        } else if n == 0x5 {
            Some(Instruction::SubReg { x, y })
        } else if n == 0x6 {
            Some(Instruction::ShiftRight { x, y })
        } else if n == 0x7 {
            Some(Instruction::SubNeg { x, y })
        } else if n == 0xE {
            Some(Instruction::ShiftLeft { x, y })
        } else {
            None
        }
    } else if class == 9 {
        Some(Instruction::SkipNeReg { x, y })
    } else if class == 0xA {
        Some(Instruction::LoadI { nnn })
    } else if class == 0xB {
        Some(Instruction::JumpV0 { nnn })
    } else if class == 0xC {
        Some(Instruction::Random { x, kk })
    } else if class == 0xD {
        Some(Instruction::Draw { x, y, n })
    } else if class == 0xE {
        if kk == 0x9E {
            Some(Instruction::SkipKey { x })
        } else if kk == 0xA1 {
            Some(Instruction::SkipNoKey { x })
        } else {
            None
        }
    } else if kk == 0x07 {
        Some(Instruction::LoadDelay { x })
    } else if kk == 0x0A {
        Some(Instruction::WaitKey { x })
    } else if kk == 0x15 {
        Some(Instruction::SetDelay { x })
    } else if kk == 0x18 {
        Some(Instruction::SetSound { x })
    } else if kk == 0x1E {
        Some(Instruction::AddI { x })
    } else if kk == 0x29 {
        Some(Instruction::LoadFont { x })
    } else if kk == 0x33 {
        Some(Instruction::StoreBcd { x })
    } else if kk == 0x55 {
        Some(Instruction::StoreRegs { x })
    } else if kk == 0x65 {
        Some(Instruction::LoadRegs { x })
    } else {
        None
    }
}

proof fn lemma_fields_in_range(op: u16)
    ensures
        op_x(op) < 16,
        op_y(op) < 16,
        op_n(op) < 16,
        op_nnn(op) < 0x1000,
        op_class(op) < 16,
{
    assert(((op >> 8u16) & 0x000Fu16) < 16) by (bit_vector);
    assert(((op >> 4u16) & 0x000Fu16) < 16) by (bit_vector);
    assert((op & 0x000Fu16) < 16) by (bit_vector);
    assert((op & 0x0FFFu16) < 0x1000) by (bit_vector);
    assert((op >> 12u16) < 16) by (bit_vector);
}

/// Decodes a 16-bit opcode; a word that is no instruction is an
/// `IllegalOpcode` error carrying the word.
pub fn decode(opcode: u16) -> (r: Result<Instruction, AppError>)
    ensures
        r == (match decode_spec(opcode) {
            Some(ins) => Ok(ins),
            None => Err(AppError::IllegalOpcode { opcode }),
        }),
        r matches Ok(ins) ==> ins.wf(),
{
    proof {
        lemma_fields_in_range(opcode);
    }
    let x = ((opcode >> 8u16) & 0x000Fu16) as u8;
    let y = ((opcode >> 4u16) & 0x000Fu16) as u8;
    let n = (opcode & 0x000Fu16) as u8;
    let kk = (opcode & 0x00FFu16) as u8;
    let nnn = opcode & 0x0FFFu16;
    let class = opcode >> 12u16;
    let decoded = if class == 0 {
        if opcode == 0x00E0 {
            Some(Instruction::Clear)
        } else if opcode == 0x00EE {
            Some(Instruction::Return)
        } else {
            Some(Instruction::Sys { nnn })
        }
    } else if class == 1 {
        Some(Instruction::Jump { nnn })
    } else if class == 2 {
        Some(Instruction::Call { nnn })
    } else if class == 3 {
        Some(Instruction::SkipEqByte { x, kk })
    } else if class == 4 {
        Some(Instruction::SkipNeByte { x, kk })
    } else if class == 5 {
        Some(Instruction::SkipEqReg { x, y })
    } else if class == 6 {
        Some(Instruction::LoadByte { x, kk })
    } else if class == 7 {
        Some(Instruction::AddByte { x, kk })
    } else if class == 8 {
        match n {
            0x0 => Some(Instruction::LoadReg { x, y }),
            0x1 => Some(Instruction::Or { x, y }),
            0x2 => Some(Instruction::And { x, y }),
            0x3 => Some(Instruction::Xor { x, y }),
            0x4 => Some(Instruction::AddReg { x, y }),
            0x5 => Some(Instruction::SubReg { x, y }),
            0x6 => Some(Instruction::ShiftRight { x, y }),
            0x7 => Some(Instruction::SubNeg { x, y }),
            0xE => Some(Instruction::ShiftLeft { x, y }),
            _ => None,
        }
    } else if class == 9 {
        Some(Instruction::SkipNeReg { x, y })
    } else if class == 0xA {
        Some(Instruction::LoadI { nnn })
    } else if class == 0xB {
        Some(Instruction::JumpV0 { nnn })
    } else if class == 0xC {
        Some(Instruction::Random { x, kk })
    } else if class == 0xD {
        Some(Instruction::Draw { x, y, n })
    } else if class == 0xE {
        match kk {
            0x9E => Some(Instruction::SkipKey { x }),
            0xA1 => Some(Instruction::SkipNoKey { x }),
            _ => None,
        }
    } else {
        match kk {
            0x07 => Some(Instruction::LoadDelay { x }),
            0x0A => Some(Instruction::WaitKey { x }),
            0x15 => Some(Instruction::SetDelay { x }),
            0x18 => Some(Instruction::SetSound { x }),
            0x1E => Some(Instruction::AddI { x }),
            0x29 => Some(Instruction::LoadFont { x }),
            0x33 => Some(Instruction::StoreBcd { x }),
            0x55 => Some(Instruction::StoreRegs { x }),
            0x65 => Some(Instruction::LoadRegs { x }),
            _ => None,
        }
    };
    match decoded {
        Some(ins) => Ok(ins),
        None => Err(AppError::IllegalOpcode { opcode }),
    }
}

} // verus!
