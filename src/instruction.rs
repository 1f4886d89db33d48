use vstd::prelude::*;

verus! {

/// One decoded instruction. `x` and `y` name registers (0 to 15), `kk` is a
/// byte operand, `nnn` a 12-bit address and `n` a sprite height.
#[derive(Debug, Clone, Copy, PartialEq, Eq, Structural)]
pub enum Instruction {
    /// `00E0`: turn every pixel off.
    Clear,
    /// `00EE`: pop the return address off the call stack.
    Return,
    /// `1nnn`: continue at `nnn`.
    Jump { nnn: u16 },
    /// `2nnn`: push the address of the next instruction, continue at `nnn`.
    Call { nnn: u16 },
    /// `3xkk`: skip the next instruction when `Vx == kk`.
    SkipEqByte { x: u8, kk: u8 },
    /// `4xkk`: skip the next instruction when `Vx != kk`.
    SkipNeByte { x: u8, kk: u8 },
    /// `5xy0`: skip the next instruction when `Vx == Vy`.
    SkipEqReg { x: u8, y: u8 },
    /// `6xkk`: `Vx = kk`.
    LoadByte { x: u8, kk: u8 },
    /// `7xkk`: `Vx += kk`, wrapping, flag untouched.
    AddByte { x: u8, kk: u8 },
    /// `8xy0`: `Vx = Vy`.
    LoadReg { x: u8, y: u8 },
    /// `8xy1`: `Vx |= Vy`.
    Or { x: u8, y: u8 },
    /// `8xy2`: `Vx &= Vy`.
    And { x: u8, y: u8 },
    /// `8xy3`: `Vx ^= Vy`.
    Xor { x: u8, y: u8 },
    /// `8xy4`: `Vx += Vy`, flag set to the carry.
    AddReg { x: u8, y: u8 },
    /// `8xy5`: `Vx -= Vy`, flag set when there is no borrow.
    SubReg { x: u8, y: u8 },
    /// `8xy6`: `Vx >>= 1`, flag set to the bit shifted out.
    ShiftRight { x: u8 },
    /// `8xyE`: `Vx <<= 1`, flag set to the bit shifted out.
    ShiftLeft { x: u8 },
    /// `9xy0`: skip the next instruction when `Vx != Vy`.
    SkipNeReg { x: u8, y: u8 },
    /// `Annn`: `I = nnn`.
    LoadIndex { nnn: u16 },
    /// `Cxkk`: `Vx` = a random byte masked by `kk`.
    Random { x: u8, kk: u8 },
    /// `Dxyn`: draw the `n`-row sprite at `I` at `(Vx, Vy)`, flag set on collision.
    Draw { x: u8, y: u8, n: u8 },
    /// `Fx1E`: `I += Vx`, wrapping at 16 bits.
    AddIndex { x: u8 },
    /// `Fx55`: store `V0` to `Vx` at `I` onwards.
    StoreRegs { x: u8 },
    /// `Fx65`: load `V0` to `Vx` from `I` onwards.
    LoadRegs { x: u8 },
}

/// The low twelve bits of an opcode: an address.
pub open spec fn nnn_of(op: u16) -> u16 {
    op & 0x0FFF
}

/// The low byte of an opcode.
pub open spec fn kk_of(op: u16) -> u8 {
    (op & 0x00FF) as u8
}

/// Bits 8 to 11 of an opcode: the first register.
pub open spec fn x_of(op: u16) -> u8 {
    ((op & 0x0F00) >> 8u16) as u8
}

/// Bits 4 to 7 of an opcode: the second register.
pub open spec fn y_of(op: u16) -> u8 {
    ((op & 0x00F0) >> 4u16) as u8
}

/// The low four bits of an opcode.
pub open spec fn n_of(op: u16) -> u8 {
    (op & 0x000F) as u8
}

/// The instruction that `op` encodes, if any.
pub open spec fn decode_spec(op: u16) -> Option<Instruction> {
    let (nnn, kk, x, y, n) = (nnn_of(op), kk_of(op), x_of(op), y_of(op), n_of(op));
    let group = op & 0xF000;
    if group == 0x0000 {
        if kk == 0xE0 {
            Some(Instruction::Clear)
        } else if kk == 0xEE {
            Some(Instruction::Return)
        } else {
            None
        }
    } else if group == 0x1000 {
        Some(Instruction::Jump { nnn })
    } else if group == 0x2000 {
        Some(Instruction::Call { nnn })
    } else if group == 0x3000 {
        Some(Instruction::SkipEqByte { x, kk })
    } else if group == 0x4000 {
        Some(Instruction::SkipNeByte { x, kk })
    } else if group == 0x5000 {
        Some(Instruction::SkipEqReg { x, y })
    } else if group == 0x6000 {
        Some(Instruction::LoadByte { x, kk })
    } else if group == 0x7000 {
        Some(Instruction::AddByte { x, kk })
    } else if group == 0x8000 {
        if n == 0x0 {
            Some(Instruction::LoadReg { x, y })
        } else if n == 0x1 {
            Some(Instruction::Or { x, y })
        } else if n == 0x2 {
            Some(Instruction::And { x, y })
        } else if n == 0x3 {
            Some(Instruction::Xor { x, y })
        } else if n == 0x4 {
            Some(Instruction::AddReg { x, y })
        } else if n == 0x5 {
            Some(Instruction::SubReg { x, y })
        } else if n == 0x6 {
            Some(Instruction::ShiftRight { x })
        } else if n == 0xE {
            Some(Instruction::ShiftLeft { x })
        } else {
            None
        }
    } else if group == 0x9000 {
        Some(Instruction::SkipNeReg { x, y })
    } else if group == 0xA000 {
        Some(Instruction::LoadIndex { nnn })
    } else if group == 0xC000 {
        Some(Instruction::Random { x, kk })
    } else if group == 0xD000 {
        Some(Instruction::Draw { x, y, n })
    } else if group == 0xF000 {
        if kk == 0x1E {
            Some(Instruction::AddIndex { x })
        } else if kk == 0x55 {
            Some(Instruction::StoreRegs { x })
        } else if kk == 0x65 {
            Some(Instruction::LoadRegs { x })
        } else {
            None
        }
    } else {
        None
    }
}

/// The operand fields of every opcode are in range.
pub proof fn lemma_fields_bounded(op: u16)
    ensures
        nnn_of(op) < 0x1000,
        x_of(op) < 16,
        y_of(op) < 16,
        n_of(op) < 16,
{
    assert(op & 0x0FFF < 0x1000) by (bit_vector);
    assert((op & 0x0F00) >> 8u16 < 16) by (bit_vector);
    assert((op & 0x00F0) >> 4u16 < 16) by (bit_vector);
    assert(op & 0x000F < 16) by (bit_vector);
}

/// Every register operand of a decoded instruction is below 16.
pub open spec fn operands_bounded(ins: Instruction) -> bool {
    match ins {
        Instruction::SkipEqByte { x, .. } | Instruction::SkipNeByte { x, .. }
        | Instruction::LoadByte { x, .. } | Instruction::AddByte { x, .. }
        | Instruction::ShiftRight { x } | Instruction::ShiftLeft { x }
        | Instruction::Random { x, .. } | Instruction::AddIndex { x }
        | Instruction::StoreRegs { x } | Instruction::LoadRegs { x } => x < 16,
        Instruction::SkipEqReg { x, y } | Instruction::LoadReg { x, y }
        | Instruction::Or { x, y } | Instruction::And { x, y } | Instruction::Xor { x, y }
        | Instruction::AddReg { x, y } | Instruction::SubReg { x, y }
        | Instruction::SkipNeReg { x, y } => x < 16 && y < 16,
        Instruction::Draw { x, y, n } => x < 16 && y < 16 && n < 16,
        _ => true,
    }
}

/// Decodes `op`; `None` when it is no instruction of the set.
pub fn decode(op: u16) -> (r: Option<Instruction>)
    ensures
        r == decode_spec(op),
        r matches Some(ins) ==> operands_bounded(ins),
{
    proof {
        lemma_fields_bounded(op);
    }
    let nnn: u16 = op & 0x0FFF;
    let kk: u8 = (op & 0x00FF) as u8;
    let x: u8 = ((op & 0x0F00) >> 8u16) as u8;
    let y: u8 = ((op & 0x00F0) >> 4u16) as u8;
    let n: u8 = (op & 0x000F) as u8;
    match op & 0xF000 {
        0x0000 => match kk {
            0xE0 => Some(Instruction::Clear),
            0xEE => Some(Instruction::Return),
            _ => None,
        },
        0x1000 => Some(Instruction::Jump { nnn }),
        0x2000 => Some(Instruction::Call { nnn }),
        0x3000 => Some(Instruction::SkipEqByte { x, kk }),
        0x4000 => Some(Instruction::SkipNeByte { x, kk }),
        0x5000 => Some(Instruction::SkipEqReg { x, y }),
        0x6000 => Some(Instruction::LoadByte { x, kk }),
        0x7000 => Some(Instruction::AddByte { x, kk }),
        0x8000 => match n {
            0x0 => Some(Instruction::LoadReg { x, y }),
            0x1 => Some(Instruction::Or { x, y }),
            0x2 => Some(Instruction::And { x, y }),
            0x3 => Some(Instruction::Xor { x, y }),
            0x4 => Some(Instruction::AddReg { x, y }),
            0x5 => Some(Instruction::SubReg { x, y }),
            0x6 => Some(Instruction::ShiftRight { x }),
            0xE => Some(Instruction::ShiftLeft { x }),
            _ => None,
        },
        0x9000 => Some(Instruction::SkipNeReg { x, y }),
        0xA000 => Some(Instruction::LoadIndex { nnn }),
        0xC000 => Some(Instruction::Random { x, kk }),
        0xD000 => Some(Instruction::Draw { x, y, n }),
        0xF000 => match kk {
            0x1E => Some(Instruction::AddIndex { x }),
            0x55 => Some(Instruction::StoreRegs { x }),
            0x65 => Some(Instruction::LoadRegs { x }),
            _ => None,
        },
        _ => None,
    }
}

} // verus!
