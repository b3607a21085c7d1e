use crate::bits::{U12, U4};
use vstd::prelude::*;

verus! {

/// One decoded instruction. `register`, `register1`, `register2`, `x_r`,
/// `y_r` and `key` name general-purpose registers (0x0 to 0xF).
#[derive(Debug, Clone, Copy, PartialEq, Eq, Structural)]
pub enum Instruction {
    ClearScreen,
    Return,
    Jump { dest: U12 },
    CallSubroutine { dest: U12 },
    SkipEQ { register: U4, value: u8 },
    SkipNEQ { register: U4, value: u8 },
    SkipEQR { register1: U4, register2: U4 },
    SkipNEQR { register1: U4, register2: U4 },
    SetRegister { register: U4, value: u8 },
    AddToRegister { register: U4, value: u8 },
    SetIndexRegister { value: U12 },
    MovRegister { register1: U4, register2: U4 },
    BinaryOr { register1: U4, register2: U4 },
    BinaryAnd { register1: U4, register2: U4 },
    BinaryXor { register1: U4, register2: U4 },
    Add { register1: U4, register2: U4 },
    SubtractForward { register1: U4, register2: U4 },
    SubtractBackward { register1: U4, register2: U4 },
    ShiftRight { register1: U4, register2: U4 },
    ShiftLeft { register1: U4, register2: U4 },
    Random { register: U4, value: u8 },
    Draw { x_r: U4, y_r: U4, height: U4 },
    SkipPressed { key: U4 },
    SkipNotPressed { key: U4 },
    GetDelayTimer { register: U4 },
    GetKey { register: U4 },
    FontChar { register: U4 },
    SetDelayTimer { register: U4 },
    SetSoundTimer { register: U4 },
    AddToIndex { register: U4 },
    RegToDecimal { register: U4 },
    StoreMemory { register: U4 },
    LoadMemory { register: U4 },
}

/// Every register operand of the instruction is below 16, and every address
/// operand fits in 12 bits: what the decoder produces.
pub open spec fn operands_in_range(i: Instruction) -> bool {
    match i {
        Instruction::ClearScreen | Instruction::Return => true,
        Instruction::Jump { dest } | Instruction::CallSubroutine { dest } => dest < 0x1000,
        Instruction::SetIndexRegister { value } => value < 0x1000,
        Instruction::SkipEQ { register, .. }
        | Instruction::SkipNEQ { register, .. }
        | Instruction::SetRegister { register, .. }
        | Instruction::AddToRegister { register, .. }
        | Instruction::Random { register, .. }
        | Instruction::GetDelayTimer { register }
        | Instruction::GetKey { register }
        | Instruction::FontChar { register }
        | Instruction::SetDelayTimer { register }
        | Instruction::SetSoundTimer { register }
        | Instruction::AddToIndex { register }
        | Instruction::RegToDecimal { register }
        | Instruction::StoreMemory { register }
        | Instruction::LoadMemory { register } => register < 16,
        Instruction::SkipPressed { key } | Instruction::SkipNotPressed { key } => key < 16,
        Instruction::SkipEQR { register1, register2 }
        | Instruction::SkipNEQR { register1, register2 }
        | Instruction::MovRegister { register1, register2 }
        | Instruction::BinaryOr { register1, register2 }
        | Instruction::BinaryAnd { register1, register2 }
        | Instruction::BinaryXor { register1, register2 }
        | Instruction::Add { register1, register2 }
        | Instruction::SubtractForward { register1, register2 }
        | Instruction::SubtractBackward { register1, register2 }
        | Instruction::ShiftRight { register1, register2 }
        | Instruction::ShiftLeft { register1, register2 } => register1 < 16 && register2 < 16,
        Instruction::Draw { x_r, y_r, height } => x_r < 16 && y_r < 16 && height < 16,
    }
}

} // verus!
