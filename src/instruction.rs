use vstd::prelude::*;

verus! {

/// One decoded CHIP-8 instruction. `x` and `y` name registers, `kk` is an
/// immediate byte, `nnn` an address and `n` a sprite height.
#[derive(Debug, Clone, Copy, PartialEq, Eq, Structural)]
pub enum Instruction {
    /// 00E0: clear the screen.
    Clear,
    /// 00EE: return from a subroutine.
    Return,
    /// 1nnn: jump to nnn.
    Jump(u16),
    /// 2nnn: call the subroutine at nnn.
    Call(u16),
    /// 3xkk: skip the next instruction if Vx == kk.
    SkipEqImm(u8, u8),
    /// 4xkk: skip the next instruction if Vx != kk.
    SkipNeImm(u8, u8),
    /// 5xy0: skip the next instruction if Vx == Vy.
    SkipEqReg(u8, u8),
    /// 6xkk: Vx = kk.
    LoadImm(u8, u8),
    /// 7xkk: Vx = Vx + kk, wrapping, VF untouched.
    AddImm(u8, u8),
    /// 8xy0: Vx = Vy.
    Move(u8, u8),
    /// 8xy1: Vx = Vx | Vy.
    Or(u8, u8),
    /// 8xy2: Vx = Vx & Vy.
    And(u8, u8),
    /// 8xy3: Vx = Vx ^ Vy.
    Xor(u8, u8),
    /// 8xy4: Vx = Vx + Vy, wrapping; VF = carry.
    AddReg(u8, u8),
    /// 8xy5: Vx = Vx - Vy, wrapping; VF = no borrow.
    SubReg(u8, u8),
    /// 8xy6: VF = low bit of Vx; Vx = Vx >> 1.
    ShiftRight(u8),
    /// 8xy7: Vx = Vy - Vx, wrapping; VF = no borrow.
    SubNeg(u8, u8),
    /// 8xyE: VF = high bit of Vx; Vx = Vx << 1.
    ShiftLeft(u8),
    /// 9xy0: skip the next instruction if Vx != Vy.
    SkipNeReg(u8, u8),
    /// Annn: I = nnn.
    LoadIndex(u16),
    /// Bnnn: jump to nnn + V0.
    JumpOffset(u16),
    /// Cxkk: Vx = random byte & kk.
    Random(u8, u8),
    /// Dxyn: draw the n-byte sprite at memory[I..I+n] at (Vx, Vy); VF = collision.
    Draw(u8, u8, u8),
    /// Ex9E: skip the next instruction if key Vx is pressed.
    SkipKey(u8),
    /// ExA1: skip the next instruction if key Vx is not pressed.
    SkipNoKey(u8),
    /// Fx07: Vx = delay timer.
    ReadDelay(u8),
    /// Fx0A: wait for a key press and put the key in Vx.
    WaitKey(u8),
    /// Fx15: delay timer = Vx.
    SetDelay(u8),
    /// Fx18: sound timer = Vx.
    SetSound(u8),
    /// Fx1E: I = I + Vx, wrapping within 16 bits.
    AddIndex(u8),
    /// Fx29: I = address of the font glyph for digit Vx.
    FontChar(u8),
    /// Fx33: memory[I..I+3] = the decimal digits of Vx.
    StoreBcd(u8),
    /// Fx55: memory[I..=I+x] = V0..=Vx.
    StoreRegs(u8),
    /// Fx65: V0..=Vx = memory[I..=I+x].
    LoadRegs(u8),
}

/// The instruction family: the top nibble.
pub open spec fn op_family(op: u16) -> u16 {
    (op & 0xF000) >> 12u16
}

/// The address operand: the low 12 bits.
pub open spec fn op_nnn(op: u16) -> u16 {
    op & 0x0FFF
}

/// The immediate byte: the low 8 bits.
pub open spec fn op_kk(op: u16) -> u8 {
    (op & 0x00FF) as u8
}

/// The first register index: bits 8 to 11.
pub open spec fn op_x(op: u16) -> u8 {
    ((op & 0x0F00) >> 8u16) as u8
}

/// The second register index: bits 4 to 7.
pub open spec fn op_y(op: u16) -> u8 {
    ((op & 0x00F0) >> 4u16) as u8
}

/// The small immediate: bits 0 to 3.
pub open spec fn op_n(op: u16) -> u8 {
    (op & 0x000F) as u8
}

/// The instruction that the 16-bit word `op` encodes, if any.
pub open spec fn decoded(op: u16) -> Option<Instruction> {
    let f = op_family(op);
    let x = op_x(op);
    let y = op_y(op);
    let n = op_n(op);
    let kk = op_kk(op);
    let nnn = op_nnn(op);
    if f == 0x0 {
        if op == 0x00E0 {
            Some(Instruction::Clear)
        } else if op == 0x00EE {
            Some(Instruction::Return)
        } else {
            None
        }
    } else if f == 0x1 {
        Some(Instruction::Jump(nnn))
    } else if f == 0x2 {
        Some(Instruction::Call(nnn))
    } else if f == 0x3 {
        Some(Instruction::SkipEqImm(x, kk))
    } else if f == 0x4 {
        Some(Instruction::SkipNeImm(x, kk))
    } else if f == 0x5 {
        if n == 0 {
            Some(Instruction::SkipEqReg(x, y))
        } else {
            None
        }
    } else if f == 0x6 {
        Some(Instruction::LoadImm(x, kk))
    } else if f == 0x7 {
        Some(Instruction::AddImm(x, kk))
    } else if f == 0x8 {
        if n == 0x0 {
            Some(Instruction::Move(x, y))
        } else if n == 0x1 {
            Some(Instruction::Or(x, y))
        } else if n == 0x2 {
            Some(Instruction::And(x, y))
        } else if n == 0x3 {
            Some(Instruction::Xor(x, y))
        } else if n == 0x4 {
            Some(Instruction::AddReg(x, y))
        } else if n == 0x5 {
            Some(Instruction::SubReg(x, y))
        } else if n == 0x6 {
            Some(Instruction::ShiftRight(x))
        } else if n == 0x7 {
            Some(Instruction::SubNeg(x, y))
        } else if n == 0xE {
            Some(Instruction::ShiftLeft(x))
        } else {
            None
        }
    } else if f == 0x9 {
        if n == 0 {
            Some(Instruction::SkipNeReg(x, y))
        } else {
            None
        }
    } else if f == 0xA {
        Some(Instruction::LoadIndex(nnn))
    } else if f == 0xB {
        Some(Instruction::JumpOffset(nnn))
    } else if f == 0xC {
        Some(Instruction::Random(x, kk))
    } else if f == 0xD {
        Some(Instruction::Draw(x, y, n))
    } else if f == 0xE {
        if kk == 0x9E {
            Some(Instruction::SkipKey(x))
        } else if kk == 0xA1 {
            Some(Instruction::SkipNoKey(x))
        } else {
            None
        }
    } else {
        if kk == 0x07 {
            Some(Instruction::ReadDelay(x))
        } else if kk == 0x0A {
            Some(Instruction::WaitKey(x))
        } else if kk == 0x15 {
            Some(Instruction::SetDelay(x))
        } else if kk == 0x18 {
            Some(Instruction::SetSound(x))
        } else if kk == 0x1E {
            Some(Instruction::AddIndex(x))
        } else if kk == 0x29 {
            Some(Instruction::FontChar(x))
        } else if kk == 0x33 {
            Some(Instruction::StoreBcd(x))
        } else if kk == 0x55 {
            Some(Instruction::StoreRegs(x))
        } else if kk == 0x65 {
            Some(Instruction::LoadRegs(x))
        } else {
            None
        }
    }
}

impl Instruction {
    /// Whether the instruction clears the screen, or is a jump, call,
    /// return, skip or key wait.
    pub open spec fn is_flow(self) -> bool {
        match self {
            Instruction::Clear
            | Instruction::Return
            | Instruction::Jump(..)
            | Instruction::Call(..)
            | Instruction::SkipEqImm(..)
            | Instruction::SkipNeImm(..)
            | Instruction::SkipEqReg(..)
            | Instruction::SkipNeReg(..)
            | Instruction::JumpOffset(..)
            | Instruction::SkipKey(..)
            | Instruction::SkipNoKey(..)
            | Instruction::WaitKey(..) => true,
            _ => false,
        }
    }

    /// Whether the instruction computes a register from registers, an
    /// immediate or a random byte.
    pub open spec fn is_alu(self) -> bool {
        match self {
            Instruction::LoadImm(..)
            | Instruction::AddImm(..)
            | Instruction::Move(..)
            | Instruction::Or(..)
            | Instruction::And(..)
            | Instruction::Xor(..)
            | Instruction::AddReg(..)
            | Instruction::SubReg(..)
            | Instruction::SubNeg(..)
            | Instruction::ShiftRight(..)
            | Instruction::ShiftLeft(..)
            | Instruction::Random(..) => true,
            _ => false,
        }
    }

    /// Whether the instruction works on the index register, the timers,
    /// memory or the screen.
    pub open spec fn is_system(self) -> bool {
        match self {
            Instruction::LoadIndex(..)
            | Instruction::ReadDelay(..)
            | Instruction::SetDelay(..)
            | Instruction::SetSound(..)
            | Instruction::AddIndex(..)
            | Instruction::FontChar(..)
            | Instruction::Draw(..)
            | Instruction::StoreBcd(..)
            | Instruction::StoreRegs(..)
            | Instruction::LoadRegs(..) => true,
            _ => false,
        }
    }

    /// Every operand fits its field: registers and heights in a nibble,
    /// addresses in 12 bits.
    pub open spec fn wf(self) -> bool {
        match self {
            Instruction::Jump(nnn) | Instruction::Call(nnn) | Instruction::LoadIndex(nnn)
            | Instruction::JumpOffset(nnn) => nnn < 0x1000,
            Instruction::SkipEqImm(x, _) | Instruction::SkipNeImm(x, _) | Instruction::LoadImm(
                x,
                _,
            ) | Instruction::AddImm(x, _) | Instruction::Random(x, _) => x < 16,
            Instruction::SkipEqReg(x, y) | Instruction::Move(x, y) | Instruction::Or(x, y)
            | Instruction::And(x, y) | Instruction::Xor(x, y) | Instruction::AddReg(x, y)
            | Instruction::SubReg(x, y) | Instruction::SubNeg(x, y) | Instruction::SkipNeReg(
                x,
                y,
            ) => x < 16 && y < 16,
            Instruction::Draw(x, y, n) => x < 16 && y < 16 && n < 16,
            Instruction::ShiftRight(x) | Instruction::ShiftLeft(x) | Instruction::SkipKey(x)
            | Instruction::SkipNoKey(x) | Instruction::ReadDelay(x) | Instruction::WaitKey(x)
            | Instruction::SetDelay(x) | Instruction::SetSound(x) | Instruction::AddIndex(x)
            | Instruction::FontChar(x) | Instruction::StoreBcd(x) | Instruction::StoreRegs(x)
            | Instruction::LoadRegs(x) => x < 16,
            Instruction::Clear | Instruction::Return => true,
        }
    }
}

/// Decodes a 16-bit instruction word: the top nibble selects the family,
/// and families 0, 5, 8, 9, E and F are told apart further by their low
/// nibble or low byte. A word that matches no instruction gives `None`.
pub fn decode(op: u16) -> (r: Option<Instruction>)
    ensures
        r == decoded(op),
        r matches Some(ins) ==> ins.wf(),
{
    let f = (op & 0xF000) >> 12;
    let nnn = op & 0x0FFF;
    let kk = (op & 0x00FF) as u8;
    let x = ((op & 0x0F00) >> 8) as u8;
    let y = ((op & 0x00F0) >> 4) as u8;
    let n = (op & 0x000F) as u8;
    assert(op & 0x0FFF < 0x1000) by (bit_vector);
    assert((op & 0x0F00) >> 8u16 < 16) by (bit_vector);
    assert((op & 0x00F0) >> 4u16 < 16) by (bit_vector);
    assert(op & 0x000F < 16) by (bit_vector);
    assert((op & 0xF000) >> 12u16 < 16) by (bit_vector);
    if f == 0x0 {
        if op == 0x00E0 {
            Some(Instruction::Clear)
        } else if op == 0x00EE {
            Some(Instruction::Return)
        } else {
            None
        }
    } else if f == 0x1 {
        Some(Instruction::Jump(nnn))
    } else if f == 0x2 {
        Some(Instruction::Call(nnn))
    } else if f == 0x3 {
        Some(Instruction::SkipEqImm(x, kk))
    } else if f == 0x4 {
        Some(Instruction::SkipNeImm(x, kk))
    } else if f == 0x5 {
        if n == 0 {
            Some(Instruction::SkipEqReg(x, y))
        } else {
            None
        }
    } else if f == 0x6 {
        Some(Instruction::LoadImm(x, kk))
    } else if f == 0x7 {
        Some(Instruction::AddImm(x, kk))
    } else if f == 0x8 {
        match n {
            0x0 => Some(Instruction::Move(x, y)),
            0x1 => Some(Instruction::Or(x, y)),
            0x2 => Some(Instruction::And(x, y)),
            0x3 => Some(Instruction::Xor(x, y)),
            0x4 => Some(Instruction::AddReg(x, y)),
            0x5 => Some(Instruction::SubReg(x, y)),
            0x6 => Some(Instruction::ShiftRight(x)),
            0x7 => Some(Instruction::SubNeg(x, y)),
            0xE => Some(Instruction::ShiftLeft(x)),
            _ => None,
        }
    } else if f == 0x9 {
        if n == 0 {
            Some(Instruction::SkipNeReg(x, y))
        } else {
            None
        }
    } else if f == 0xA {
        Some(Instruction::LoadIndex(nnn))
    } else if f == 0xB {
        Some(Instruction::JumpOffset(nnn))
    } else if f == 0xC {
        Some(Instruction::Random(x, kk))
    } else if f == 0xD {
        Some(Instruction::Draw(x, y, n))
    } else if f == 0xE {
        match kk {
            0x9E => Some(Instruction::SkipKey(x)),
            0xA1 => Some(Instruction::SkipNoKey(x)),
            _ => None,
        }
    } else {
        match kk {
            0x07 => Some(Instruction::ReadDelay(x)),
            0x0A => Some(Instruction::WaitKey(x)),
            0x15 => Some(Instruction::SetDelay(x)),
            0x18 => Some(Instruction::SetSound(x)),
            0x1E => Some(Instruction::AddIndex(x)),
            0x29 => Some(Instruction::FontChar(x)),
            0x33 => Some(Instruction::StoreBcd(x)),
            0x55 => Some(Instruction::StoreRegs(x)),
            0x65 => Some(Instruction::LoadRegs(x)),
            _ => None,
        }
    }
}

} // verus!
