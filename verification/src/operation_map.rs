use crate::opcode::{op_byte, op_family, op_n, Opcode};
use vstd::prelude::*;

verus! {

/// The execution routine an instruction word dispatches to. Every word
/// resolves to exactly one routine; a word with no defined routine resolves
/// to `Unknown`, which the driver reports as a fatal error.
#[derive(Debug, Clone, Copy, PartialEq, Eq, Structural)]
pub enum Operation {
    ClearDisplay,
    Return,
    Jump,
    Call,
    SkipIfEqual,
    SkipNotEqual,
    SkipEqualRegisters,
    LoadByte,
    AddByte,
    LoadRegister,
    BitwiseOr,
    BitwiseAnd,
    BitwiseXor,
    AddRegisters,
    SubtractRegisters,
    ShiftRight,
    SubtractNegative,
    ShiftLeft,
    SkipNotEqualRegisters,
    LoadRegisterI,
    JumpRegister0,
    RandomByte,
    Draw,
    SkipIfKey,
    SkipIfNotKey,
    ReadDelayTimer,
    WaitForKey,
    SetDelayTimer,
    SetSoundTimer,
    AddRegisterI,
    SpriteAddress,
    StoreBcd,
    StoreRegisters,
    ReadRegisters,
    Unknown,
}

/// The two-level dispatch rule: the first nibble is the primary key; for
/// primary keys 0x0, 0x8 and 0xE the fourth nibble is the secondary key, for
/// primary key 0xF the low byte is. Pure and total.
pub open spec fn spec_operation(w: (u8, u8)) -> Operation {
    let family = op_family(w);
    let sub = op_n(w);
    if family == 0x0 {
        if sub == 0x0 {
            Operation::ClearDisplay
        } else if sub == 0xe {
            Operation::Return
        } else {
            Operation::Unknown
        }
    } else if family == 0x1 {
        Operation::Jump
    } else if family == 0x2 {
        Operation::Call
    } else if family == 0x3 {
        Operation::SkipIfEqual
    } else if family == 0x4 {
        Operation::SkipNotEqual
    } else if family == 0x5 {
        Operation::SkipEqualRegisters
    } else if family == 0x6 {
        Operation::LoadByte
    } else if family == 0x7 {
        Operation::AddByte
    } else if family == 0x8 {
        if sub == 0x0 {
            Operation::LoadRegister
        } else if sub == 0x1 {
            Operation::BitwiseOr
        } else if sub == 0x2 {
            Operation::BitwiseAnd
        } else if sub == 0x3 {
            Operation::BitwiseXor
        } else if sub == 0x4 {
            Operation::AddRegisters
        } else if sub == 0x5 {
            Operation::SubtractRegisters
        } else if sub == 0x6 {
            Operation::ShiftRight
        } else if sub == 0x7 {
            Operation::SubtractNegative
        } else if sub == 0xe {
            Operation::ShiftLeft
        } else {
            Operation::Unknown
        }
    } else if family == 0x9 {
        Operation::SkipNotEqualRegisters
    } else if family == 0xa {
        Operation::LoadRegisterI
    } else if family == 0xb {
        Operation::JumpRegister0
    } else if family == 0xc {
        Operation::RandomByte
    } else if family == 0xd {
        Operation::Draw
    } else if family == 0xe {
        if sub == 0x1 {
            Operation::SkipIfNotKey
        } else if sub == 0xe {
            Operation::SkipIfKey
        } else {
            Operation::Unknown
        }
    } else {
        let low = op_byte(w);
        if low == 0x07 {
            Operation::ReadDelayTimer
        } else if low == 0x0a {
            Operation::WaitForKey
        } else if low == 0x15 {
            Operation::SetDelayTimer
        } else if low == 0x18 {
            Operation::SetSoundTimer
        } else if low == 0x1e {
            Operation::AddRegisterI
        } else if low == 0x29 {
            Operation::SpriteAddress
        } else if low == 0x33 {
            Operation::StoreBcd
        } else if low == 0x55 {
            Operation::StoreRegisters
        } else if low == 0x65 {
            Operation::ReadRegisters
        } else {
            Operation::Unknown
        }
    }
}

/// Resolve an instruction word to its execution routine: a pure lookup,
/// deterministic for a given word, with no mutation.
pub fn function_from_instruction(ins: &Opcode) -> (r: Operation)
    ensures
        r == spec_operation(ins@),
{
    let (family, _x, _y, sub) = ins.nibbles();
    match family {
        0x0 => match sub {
            0x0 => Operation::ClearDisplay,
            0xe => Operation::Return,
            _ => Operation::Unknown,
        },
        0x1 => Operation::Jump,
        0x2 => Operation::Call,
        0x3 => Operation::SkipIfEqual,
        0x4 => Operation::SkipNotEqual,
        0x5 => Operation::SkipEqualRegisters,
        0x6 => Operation::LoadByte,
        0x7 => Operation::AddByte,
        0x8 => match sub {
            0x0 => Operation::LoadRegister,
            0x1 => Operation::BitwiseOr,
            0x2 => Operation::BitwiseAnd,
            0x3 => Operation::BitwiseXor,
            0x4 => Operation::AddRegisters,
            0x5 => Operation::SubtractRegisters,
            0x6 => Operation::ShiftRight,
            0x7 => Operation::SubtractNegative,
            0xe => Operation::ShiftLeft,
            _ => Operation::Unknown,
        },
        0x9 => Operation::SkipNotEqualRegisters,
        0xa => Operation::LoadRegisterI,
        0xb => Operation::JumpRegister0,
        0xc => Operation::RandomByte,
        0xd => Operation::Draw,
        0xe => match sub {
            0x1 => Operation::SkipIfNotKey,
            0xe => Operation::SkipIfKey,
            _ => Operation::Unknown,
        },
        _ => match ins.byte() {
            0x07 => Operation::ReadDelayTimer,
            0x0a => Operation::WaitForKey,
            0x15 => Operation::SetDelayTimer,
            0x18 => Operation::SetSoundTimer,
            0x1e => Operation::AddRegisterI,
            0x29 => Operation::SpriteAddress,
            0x33 => Operation::StoreBcd,
            0x55 => Operation::StoreRegisters,
            0x65 => Operation::ReadRegisters,
            _ => Operation::Unknown,
        },
    }
}

} // verus!
