//! The instruction set and its decoder.

use vstd::prelude::*;

verus! {

/// One decoded instruction. `x` and `y` name registers, `nn` is an 8-bit
/// constant, `addr` a 12-bit address and `height` a number of sprite rows.
#[derive(Clone, Copy, Debug, PartialEq, Eq, Structural)]
pub enum Opcode {
    /// `00E0`: clear the screen.
    ClearScreen,
    /// `00EE`: return from a subroutine.
    Return,
    /// `1NNN`: jump to `addr`.
    Jump { addr: u16 },
    /// `2NNN`: call the subroutine at `addr`.
    CallSub { addr: u16 },
    /// `3XNN`: skip the next instruction if `Vx == nn`.
    SkipIfEqualConst { x: usize, nn: u8 },
    /// `4XNN`: skip the next instruction if `Vx != nn`.
    SkipIfNotEqualConst { x: usize, nn: u8 },
    /// `5XY_`: skip the next instruction if `Vx == Vy`.
    SkipIfEqual { x: usize, y: usize },
    /// `6XNN`: `Vx = nn`.
    SetConst { x: usize, nn: u8 },
    /// `7XNN`: `Vx += nn`, wrapping, flag untouched.
    AddConst { x: usize, nn: u8 },
    /// `8XY0`: `Vx = Vy`.
    Assign { x: usize, y: usize },
    /// `8XY1`: `Vx |= Vy`.
    AssignOr { x: usize, y: usize },
    /// `8XY2`: `Vx &= Vy`.
    AssignAnd { x: usize, y: usize },
    /// `8XY3`: `Vx ^= Vy`.
    AssignXor { x: usize, y: usize },
    /// `8XY4`: `Vx += Vy`, `VF` = carry.
    AssignAdd { x: usize, y: usize },
    /// `8XY5`: `Vx -= Vy`, `VF` = no borrow.
    AssignSub { x: usize, y: usize },
    /// `8XY6`: `Vx >>= 1`, `VF` = the bit shifted out.
    AssignShift { x: usize },
    /// `8XY7`: `Vx = Vy - Vx`, `VF` = no borrow.
    AssignRevSub { x: usize, y: usize },
    /// `8XYE`: `Vx <<= 1`, `VF` = the bit shifted out.
    AssignRevShift { x: usize },
    /// `9XY_`: skip the next instruction if `Vx != Vy`.
    SkipIfNotEqual { x: usize, y: usize },
    /// `ANNN`: `I = addr`.
    RegAssign { addr: u16 },
    /// `DXYN`: draw a sprite of `height` rows at (`Vx`, `Vy`).
    Draw { x: usize, y: usize, height: u8 },
    /// `EX9E`: skip the next instruction if key `Vx` is down.
    SkipIfPress { x: usize },
    /// `EXA1`: skip the next instruction if key `Vx` is up.
    SkipIfNotPress { x: usize },
    /// `FX0A`: wait for a key to be pressed and released, store it in `Vx`.
    AssignKey { x: usize },
    /// `FX07`: `Vx` = delay timer.
    AssignDelayTimer { x: usize },
    /// `FX15`: delay timer = `Vx`.
    DelayTimerAssign { x: usize },
    /// `FX18`: sound timer = `Vx`.
    SoundTimerAssign { x: usize },
    /// `FX1E`: `I += Vx`.
    RegAssignAdd { x: usize },
    /// `FX29`: `I` = address of the glyph of digit `Vx`.
    RegAssignFont { x: usize },
    /// `FX33`: store the three decimal digits of `Vx` at `I`, `I+1`, `I+2`.
    BinaryCodedDecimal { x: usize },
    /// `FX55`: store `V0..=Vx` at `I`.
    RegDump { x: usize },
    /// `FX65`: load `V0..=Vx` from `I`.
    RegLoad { x: usize },
}

/// Why a word is no instruction.
#[derive(Clone, Copy, Debug, PartialEq, Eq, Structural)]
pub enum DecodeError {
    /// No instruction has this bit pattern; the word is carried along.
    InvalidOpcode(u16),
}

/// The opcode class: the high nibble of the word.
pub open spec fn class_of(raw: u16) -> int {
    raw as int / 0x1000
}

/// The `x` field: bits 8 to 11.
pub open spec fn x_of(raw: u16) -> int {
    (raw as int / 0x100) % 0x10
}

/// The `y` field: bits 4 to 7.
pub open spec fn y_of(raw: u16) -> int {
    (raw as int / 0x10) % 0x10
}

/// The `n` field: the low nibble.
pub open spec fn n_of(raw: u16) -> int {
    raw as int % 0x10
}

/// The `nn` field: the low byte.
pub open spec fn nn_of(raw: u16) -> int {
    raw as int % 0x100
}

/// The `nnn` field: the low twelve bits.
pub open spec fn nnn_of(raw: u16) -> int {
    raw as int % 0x1000
}

/// The instruction that a class-8 word selects with its low nibble.
pub open spec fn decoded_alu(raw: u16) -> Option<Opcode> {
    let x = x_of(raw) as usize;
    let y = y_of(raw) as usize;
    let n = n_of(raw);
    if n == 0x0 {
        Some(Opcode::Assign { x, y })
    } else if n == 0x1 {
        Some(Opcode::AssignOr { x, y })
    } else if n == 0x2 {
        Some(Opcode::AssignAnd { x, y })
    } else if n == 0x3 {
        Some(Opcode::AssignXor { x, y })
    } else if n == 0x4 {
        Some(Opcode::AssignAdd { x, y })
    } else if n == 0x5 {
        Some(Opcode::AssignSub { x, y })
    } else if n == 0x6 {
        Some(Opcode::AssignShift { x })
    } else if n == 0x7 {
        Some(Opcode::AssignRevSub { x, y })
    } else if n == 0xE {
        Some(Opcode::AssignRevShift { x })
    } else {
        None
    }
}

/// The instruction that a class-F word selects with its low byte.
pub open spec fn decoded_misc(raw: u16) -> Option<Opcode> {
    let x = x_of(raw) as usize;
    let nn = nn_of(raw);
    if nn == 0x07 {
        Some(Opcode::AssignDelayTimer { x })
    } else if nn == 0x0A {
        Some(Opcode::AssignKey { x })
    } else if nn == 0x15 {
        Some(Opcode::DelayTimerAssign { x })
    } else if nn == 0x18 {
        Some(Opcode::SoundTimerAssign { x })
    } else if nn == 0x1E {
        Some(Opcode::RegAssignAdd { x })
    } else if nn == 0x29 {
        Some(Opcode::RegAssignFont { x })
    } else if nn == 0x33 {
        Some(Opcode::BinaryCodedDecimal { x })
    } else if nn == 0x55 {
        Some(Opcode::RegDump { x })
    } else if nn == 0x65 {
        Some(Opcode::RegLoad { x })
    } else {
        None
    }
}

/// The instruction that `raw` encodes, if it encodes one. Classes 0, 8, E and
/// F select by a second field; the others take every word of their class.
pub open spec fn decoded(raw: u16) -> Option<Opcode> {
    let class = class_of(raw);
    let x = x_of(raw) as usize;
    let y = y_of(raw) as usize;
    let n = n_of(raw) as u8;
    let nn = nn_of(raw) as u8;
    let nnn = nnn_of(raw) as u16;
    if class == 0x0 {
        if nnn == 0x0E0 {
            Some(Opcode::ClearScreen)
        } else if nnn == 0x0EE {
            Some(Opcode::Return)
        } else {
            None
        }
    } else if class == 0x1 {
        Some(Opcode::Jump { addr: nnn })
    } else if class == 0x2 {
        Some(Opcode::CallSub { addr: nnn })
    } else if class == 0x3 {
        Some(Opcode::SkipIfEqualConst { x, nn })
    } else if class == 0x4 {
        Some(Opcode::SkipIfNotEqualConst { x, nn })
    } else if class == 0x5 {
        Some(Opcode::SkipIfEqual { x, y })
    } else if class == 0x6 {
        Some(Opcode::SetConst { x, nn })
    } else if class == 0x7 {
        Some(Opcode::AddConst { x, nn })
    } else if class == 0x8 {
        decoded_alu(raw)
    } else if class == 0x9 {
        Some(Opcode::SkipIfNotEqual { x, y })
    } else if class == 0xA {
        Some(Opcode::RegAssign { addr: nnn })
    } else if class == 0xD {
        Some(Opcode::Draw { x, y, height: n })
    } else if class == 0xE {
        if nn == 0x9E {
            Some(Opcode::SkipIfPress { x })
        } else if nn == 0xA1 {
            Some(Opcode::SkipIfNotPress { x })
        } else {
            None
        }
    } else if class == 0xF {
        decoded_misc(raw)
    } else {
        None
    }
}

/// What decoding `raw` gives: its instruction, or the word itself as the
/// error.
pub open spec fn decode_result(raw: u16) -> Result<Opcode, DecodeError> {
    match decoded(raw) {
        Some(op) => Ok(op),
        None => Err(DecodeError::InvalidOpcode(raw)),
    }
}

impl Opcode {
    /// The fields are in range: register numbers below 16, addresses below
    /// 4096, sprite heights below 16.
    pub open spec fn wf(self) -> bool {
        match self {
            Opcode::ClearScreen | Opcode::Return => true,
            Opcode::Jump { addr } | Opcode::CallSub { addr } | Opcode::RegAssign { addr } => addr
                < 0x1000,
            Opcode::SkipIfEqualConst { x, .. }
            | Opcode::SkipIfNotEqualConst { x, .. }
            | Opcode::SetConst { x, .. }
            | Opcode::AddConst { x, .. } => x < 16,
            Opcode::SkipIfEqual { x, y }
            | Opcode::Assign { x, y }
            | Opcode::AssignOr { x, y }
            | Opcode::AssignAnd { x, y }
            | Opcode::AssignXor { x, y }
            | Opcode::AssignAdd { x, y }
            | Opcode::AssignSub { x, y }
            | Opcode::AssignRevSub { x, y }
            | Opcode::SkipIfNotEqual { x, y } => x < 16 && y < 16,
            Opcode::Draw { x, y, height } => x < 16 && y < 16 && height < 16,
            Opcode::AssignShift { x }
            | Opcode::AssignRevShift { x }
            | Opcode::SkipIfPress { x }
            | Opcode::SkipIfNotPress { x }
            | Opcode::AssignKey { x }
            | Opcode::AssignDelayTimer { x }
            | Opcode::DelayTimerAssign { x }
            | Opcode::SoundTimerAssign { x }
            | Opcode::RegAssignAdd { x }
            | Opcode::RegAssignFont { x }
            | Opcode::BinaryCodedDecimal { x }
            | Opcode::RegDump { x }
            | Opcode::RegLoad { x } => x < 16,
        }
    }

    /// Decodes one instruction word.
    pub fn try_from(raw: u16) -> (res: Result<Opcode, DecodeError>)
        ensures
            res == decode_result(raw),
            res matches Ok(op) ==> op.wf(),
    {
        let code: u16 = raw & 0xF000;
        let x: usize = ((raw & 0x0F00) >> 8) as usize;
        let y: usize = ((raw & 0x00F0) >> 4) as usize;
        let nnn: u16 = raw & 0x0FFF;
        let nn: u8 = (raw & 0x00FF) as u8;
        let n: u8 = (raw & 0x000F) as u8;
        proof {
            lemma_fields(raw);
        }
        let invalid = Err(DecodeError::InvalidOpcode(raw));
        match code {
            0x0000 => match nnn {
                0x00E0 => Ok(Opcode::ClearScreen),
                0x00EE => Ok(Opcode::Return),
                _ => invalid,
            },
            0x1000 => Ok(Opcode::Jump { addr: nnn }),
            0x2000 => Ok(Opcode::CallSub { addr: nnn }),
            0x3000 => Ok(Opcode::SkipIfEqualConst { x, nn }),
            0x4000 => Ok(Opcode::SkipIfNotEqualConst { x, nn }),
            0x5000 => Ok(Opcode::SkipIfEqual { x, y }),
            0x6000 => Ok(Opcode::SetConst { x, nn }),
            0x7000 => Ok(Opcode::AddConst { x, nn }),
            0x8000 => match n {
                0x0 => Ok(Opcode::Assign { x, y }),
                0x1 => Ok(Opcode::AssignOr { x, y }),
                0x2 => Ok(Opcode::AssignAnd { x, y }),
                0x3 => Ok(Opcode::AssignXor { x, y }),
                0x4 => Ok(Opcode::AssignAdd { x, y }),
                0x5 => Ok(Opcode::AssignSub { x, y }),
                0x6 => Ok(Opcode::AssignShift { x }),
                0x7 => Ok(Opcode::AssignRevSub { x, y }),
                0xE => Ok(Opcode::AssignRevShift { x }),
                _ => invalid,
            },
            0x9000 => Ok(Opcode::SkipIfNotEqual { x, y }),
            0xA000 => Ok(Opcode::RegAssign { addr: nnn }),
            0xD000 => Ok(Opcode::Draw { x, y, height: n }),
            0xE000 => match nn {
                0x9E => Ok(Opcode::SkipIfPress { x }),
                0xA1 => Ok(Opcode::SkipIfNotPress { x }),
                _ => invalid,
            },
            0xF000 => match nn {
                0x07 => Ok(Opcode::AssignDelayTimer { x }),
                0x0A => Ok(Opcode::AssignKey { x }),
                0x15 => Ok(Opcode::DelayTimerAssign { x }),
                0x18 => Ok(Opcode::SoundTimerAssign { x }),
                0x1E => Ok(Opcode::RegAssignAdd { x }),
                0x29 => Ok(Opcode::RegAssignFont { x }),
                0x33 => Ok(Opcode::BinaryCodedDecimal { x }),
                0x55 => Ok(Opcode::RegDump { x }),
                0x65 => Ok(Opcode::RegLoad { x }),
                _ => invalid,
            },
            _ => invalid,
        }
    }
}

/// Every instruction that a word decodes to has its fields in range.
pub proof fn lemma_decoded_wf(raw: u16)
    ensures
        decoded(raw) matches Some(op) ==> op.wf(),
{
}

/// The masks and shifts of the decoder cut out the fields that the
/// arithmetic definitions name.
proof fn lemma_fields(raw: u16)
    ensures
        (raw & 0xF000) as int == class_of(raw) * 0x1000,
        0 <= class_of(raw) < 0x10,
        ((raw & 0x0F00) >> 8) as int == x_of(raw),
        ((raw & 0x00F0) >> 4) as int == y_of(raw),
        (raw & 0x0FFF) as int == nnn_of(raw),
        (raw & 0x00FF) as int == nn_of(raw),
        (raw & 0x000F) as int == n_of(raw),
{
    assert((raw & 0xF000) == (raw / 0x1000) * 0x1000) by (bit_vector);
    assert(raw / 0x1000 < 0x10) by (bit_vector);
    assert(((raw & 0x0F00) >> 8) == (raw / 0x100) % 0x10) by (bit_vector);
    assert(((raw & 0x00F0) >> 4) == (raw / 0x10) % 0x10) by (bit_vector);
    assert((raw & 0x0FFF) == raw % 0x1000) by (bit_vector);
    assert((raw & 0x00FF) == raw % 0x100) by (bit_vector);
    assert((raw & 0x000F) == raw % 0x10) by (bit_vector);
}

} // verus!
