//! The decoder: from a 16-bit instruction word to a structured operation.

use vstd::prelude::*;

verus! {

/// One decoded instruction.
///
/// `x` and `y` are register indices, `byte` is an 8-bit immediate and
/// `address` is a 12-bit address.
#[derive(Clone, Copy, Debug, PartialEq, Eq, Structural)]
pub enum Operation {
    /// `0000`: end the program.
    Halt,
    /// `00EE`: return from a subroutine.
    Return,
    /// `1nnn`: jump to `nnn`.
    Jump { address: u16 },
    /// `2nnn`: call the subroutine at `nnn`.
    Call { address: u16 },
    /// `3xkk`: skip the next instruction if `Vx == kk`.
    SkipEqual { x: u8, byte: u8 },
    /// `4xkk`: skip the next instruction if `Vx != kk`.
    SkipNotEqual { x: u8, byte: u8 },
    /// `5xy0`: skip the next instruction if `Vx == Vy`.
    SkipEqualRegister { x: u8, y: u8 },
    /// `6xkk`: `Vx = kk`.
    Load { x: u8, byte: u8 },
    /// `7xkk`: `Vx = Vx + kk`, without touching the flag register.
    Add { x: u8, byte: u8 },
    /// `8xy0`: `Vx = Vy`.
    LoadRegister { x: u8, y: u8 },
    /// `8xy1`: `Vx = Vx | Vy`.
    Or { x: u8, y: u8 },
    /// `8xy2`: `Vx = Vx & Vy`.
    And { x: u8, y: u8 },
    /// `8xy3`: `Vx = Vx ^ Vy`.
    Xor { x: u8, y: u8 },
    /// `8xy4`: `Vx = Vx + Vy`, `VF` = carry.
    AddRegister { x: u8, y: u8 },
    /// `8xy5`: `Vx = Vx - Vy`, `VF` = no borrow.
    Subtract { x: u8, y: u8 },
    /// `8xy6`: `Vx = Vx >> 1`, `VF` = the bit shifted out.
    ShiftRight { x: u8 },
    /// `8xy7`: `Vx = Vy - Vx`, `VF` = no borrow.
    SubtractFrom { x: u8, y: u8 },
    /// `8xyE`: `Vx = Vx << 1`, `VF` = the bit shifted out.
    ShiftLeft { x: u8 },
    /// `9xy0`: skip the next instruction if `Vx != Vy`.
    SkipNotEqualRegister { x: u8, y: u8 },
    /// `Bnnn`: jump to `V0 + nnn`.
    JumpOffset { address: u16 },
    /// A CHIP-8 instruction that the executor has no handler for: screen,
    /// keyboard, timers, random numbers, the index register and what uses it.
    Unimplemented { word: u16 },
    /// A word that is no CHIP-8 instruction.
    UnknownOpcode { word: u16 },
}

impl Operation {
    /// Register indices are below 16 and addresses below 4096.
    pub open spec fn valid(self) -> bool {
        match self {
            Operation::Halt | Operation::Return => true,
            Operation::Jump { address }
            | Operation::Call { address }
            | Operation::JumpOffset { address } => address < 4096,
            Operation::SkipEqual { x, .. }
            | Operation::SkipNotEqual { x, .. }
            | Operation::Load { x, .. }
            | Operation::Add { x, .. }
            | Operation::ShiftRight { x }
            | Operation::ShiftLeft { x } => x < 16,
            Operation::SkipEqualRegister { x, y }
            | Operation::LoadRegister { x, y }
            | Operation::Or { x, y }
            | Operation::And { x, y }
            | Operation::Xor { x, y }
            | Operation::AddRegister { x, y }
            | Operation::Subtract { x, y }
            | Operation::SubtractFrom { x, y }
            | Operation::SkipNotEqualRegister { x, y } => x < 16 && y < 16,
            Operation::Unimplemented { .. } | Operation::UnknownOpcode { .. } => true,
        }
    }

    /// Whether the operation is valid: what a caller that builds an
    /// operation by hand checks before handing it to the executor.
    pub fn is_valid(&self) -> (valid: bool)
        ensures
            valid == self.valid(),
    {
        match *self {
            Operation::Halt | Operation::Return => true,
            Operation::Jump { address }
            | Operation::Call { address }
            | Operation::JumpOffset { address } => address < 4096,
            Operation::SkipEqual { x, .. }
            | Operation::SkipNotEqual { x, .. }
            | Operation::Load { x, .. }
            | Operation::Add { x, .. }
            | Operation::ShiftRight { x }
            | Operation::ShiftLeft { x } => x < 16,
            Operation::SkipEqualRegister { x, y }
            | Operation::LoadRegister { x, y }
            | Operation::Or { x, y }
            | Operation::And { x, y }
            | Operation::Xor { x, y }
            | Operation::AddRegister { x, y }
            | Operation::Subtract { x, y }
            | Operation::SubtractFrom { x, y }
            | Operation::SkipNotEqualRegister { x, y } => x < 16 && y < 16,
            Operation::Unimplemented { .. } | Operation::UnknownOpcode { .. } => true,
        }
    }
}

/// The operation class `c`: the top nibble of the word.
pub open spec fn class_field(word: u16) -> u8 {
    (word / 0x1000) as u8
}

/// The register index `x`: bits 8 to 11.
pub open spec fn x_field(word: u16) -> u8 {
    ((word / 0x100) % 0x10) as u8
}

/// The register index `y`: bits 4 to 7.
pub open spec fn y_field(word: u16) -> u8 {
    ((word / 0x10) % 0x10) as u8
}

/// The nibble `n`: bits 0 to 3.
pub open spec fn n_field(word: u16) -> u8 {
    (word % 0x10) as u8
}

/// The immediate byte `kk`: the low byte.
pub open spec fn kk_field(word: u16) -> u8 {
    (word % 0x100) as u8
}

/// The address `nnn`: the low 12 bits.
pub open spec fn nnn_field(word: u16) -> u16 {
    (word % 0x1000) as u16
}

/// The operation class `c` of `word`.
pub fn class_of(word: u16) -> (c: u8)
    ensures
        c == class_field(word),
        c < 16,
{
    assert(word >> 12 == word / 0x1000) by (bit_vector);
    (word >> 12) as u8
}

/// The register index `x` of `word`.
pub fn x_of(word: u16) -> (x: u8)
    ensures
        x == x_field(word),
        x < 16,
{
    assert((word >> 8) & 0xF == (word / 0x100) % 0x10) by (bit_vector);
    ((word >> 8) & 0xF) as u8
}

/// The register index `y` of `word`.
pub fn y_of(word: u16) -> (y: u8)
    ensures
        y == y_field(word),
        y < 16,
{
    assert((word >> 4) & 0xF == (word / 0x10) % 0x10) by (bit_vector);
    ((word >> 4) & 0xF) as u8
}

/// The low nibble `n` of `word`.
pub fn n_of(word: u16) -> (n: u8)
    ensures
        n == n_field(word),
        n < 16,
{
    assert(word & 0xF == word % 0x10) by (bit_vector);
    (word & 0xF) as u8
}

/// The low byte `kk` of `word`.
pub fn kk_of(word: u16) -> (kk: u8)
    ensures
        kk == kk_field(word),
{
    assert(word & 0xFF == word % 0x100) by (bit_vector);
    (word & 0xFF) as u8
}

/// The low 12 bits `nnn` of `word`.
pub fn nnn_of(word: u16) -> (nnn: u16)
    ensures
        nnn == nnn_field(word),
        nnn < 4096,
{
    assert(word & 0xFFF == word % 0x1000) by (bit_vector);
    word & 0xFFF
}

/// Whether `word` is a CHIP-8 instruction outside the executor's table:
/// `00E0`, `Annn`, `Cxkk`, `Dxyn`, `Ex9E`, `ExA1` and the `Fx` family
/// (`07`, `0A`, `15`, `18`, `1E`, `29`, `33`, `55`, `65`).
pub open spec fn names_unimplemented(word: u16) -> bool {
    let c = class_field(word);
    let kk = kk_field(word);
    ||| word == 0x00E0
    ||| c == 0xA
    ||| c == 0xC
    ||| c == 0xD
    ||| c == 0xE && (kk == 0x9E || kk == 0xA1)
    ||| c == 0xF && (kk == 0x07 || kk == 0x0A || kk == 0x15 || kk == 0x18 || kk == 0x1E
        || kk == 0x29 || kk == 0x33 || kk == 0x55 || kk == 0x65)
}

/// The register-to-register operation `8xyn`, by its low nibble.
pub open spec fn decoded_arithmetic(word: u16) -> Operation {
    let x = x_field(word);
    let y = y_field(word);
    let n = n_field(word);
    if n == 0x0 {
        Operation::LoadRegister { x, y }
    } else if n == 0x1 {
        Operation::Or { x, y }
    } else if n == 0x2 {
        Operation::And { x, y }
    } else if n == 0x3 {
        Operation::Xor { x, y }
    } else if n == 0x4 {
        Operation::AddRegister { x, y }
    } else if n == 0x5 {
        Operation::Subtract { x, y }
    } else if n == 0x6 {
        Operation::ShiftRight { x }
    } else if n == 0x7 {
        Operation::SubtractFrom { x, y }
    } else if n == 0xE {
        Operation::ShiftLeft { x }
    } else {
        Operation::UnknownOpcode { word }
    }
}

/// The operation that `word` encodes: the instruction table.
///
/// A word that matches no row is `Unimplemented` where it is a CHIP-8
/// instruction all the same, and `UnknownOpcode` otherwise; both carry the word.
pub open spec fn decoded(word: u16) -> Operation {
    let c = class_field(word);
    let x = x_field(word);
    let y = y_field(word);
    let n = n_field(word);
    let byte = kk_field(word);
    let address = nnn_field(word);
    if word == 0x0000 {
        Operation::Halt
    } else if word == 0x00EE {
        Operation::Return
    } else if c == 0x1 {
        Operation::Jump { address }
    } else if c == 0x2 {
        Operation::Call { address }
    } else if c == 0x3 {
        Operation::SkipEqual { x, byte }
    } else if c == 0x4 {
        Operation::SkipNotEqual { x, byte }
    } else if c == 0x5 && n == 0 {
        Operation::SkipEqualRegister { x, y }
    } else if c == 0x6 {
        Operation::Load { x, byte }
    } else if c == 0x7 {
        Operation::Add { x, byte }
    } else if c == 0x8 {
        decoded_arithmetic(word)
    } else if c == 0x9 && n == 0 {
        Operation::SkipNotEqualRegister { x, y }
    } else if c == 0xB {
        Operation::JumpOffset { address }
    } else if names_unimplemented(word) {
        Operation::Unimplemented { word }
    } else {
        Operation::UnknownOpcode { word }
    }
}

/// Decodes one instruction word. Never fails: a word outside the table
/// comes back as `Unimplemented` or `UnknownOpcode`.
pub fn decode(word: u16) -> (op: Operation)
    ensures
        op == decoded(word),
        op.valid(),
{
    let x = x_of(word);
    let y = y_of(word);
    let n = n_of(word);
    let byte = kk_of(word);
    let address = nnn_of(word);
    match class_of(word) {
        0x0 => match word {
            0x0000 => Operation::Halt,
            0x00EE => Operation::Return,
            0x00E0 => Operation::Unimplemented { word },
            _ => Operation::UnknownOpcode { word },
        },
        0x1 => Operation::Jump { address },
        0x2 => Operation::Call { address },
        0x3 => Operation::SkipEqual { x, byte },
        0x4 => Operation::SkipNotEqual { x, byte },
        0x5 => if n == 0 {
            Operation::SkipEqualRegister { x, y }
        } else {
            Operation::UnknownOpcode { word }
        },
        0x6 => Operation::Load { x, byte },
        0x7 => Operation::Add { x, byte },
        0x8 => match n {
            0x0 => Operation::LoadRegister { x, y },
            0x1 => Operation::Or { x, y },
            0x2 => Operation::And { x, y },
            0x3 => Operation::Xor { x, y },
            0x4 => Operation::AddRegister { x, y },
            0x5 => Operation::Subtract { x, y },
            0x6 => Operation::ShiftRight { x },
            0x7 => Operation::SubtractFrom { x, y },
            0xE => Operation::ShiftLeft { x },
            _ => Operation::UnknownOpcode { word },
        },
        0x9 => if n == 0 {
            Operation::SkipNotEqualRegister { x, y }
        } else {
            Operation::UnknownOpcode { word }
        },
        0xA | 0xC | 0xD => Operation::Unimplemented { word },
        0xB => Operation::JumpOffset { address },
        0xE => match byte {
            0x9E | 0xA1 => Operation::Unimplemented { word },
            _ => Operation::UnknownOpcode { word },
        },
        _ => match byte {
            0x07 | 0x0A | 0x15 | 0x18 | 0x1E | 0x29 | 0x33 | 0x55 | 0x65 => Operation::Unimplemented {
                word,
            },
            _ => Operation::UnknownOpcode { word },
        },
    }
}

} // verus!
