use crate::bits::{get_nibble, get_nibbles, nibble_group};
use crate::instruction::{operands_in_range, Instruction};
use vstd::prelude::*;

verus! {

/// The top nibble: the instruction's category.
pub open spec fn opcode_of(w: u16) -> nat {
    nibble_group(w, 0, 1)
}

/// The second nibble, the `x` register operand.
pub open spec fn x_of(w: u16) -> u8 {
    nibble_group(w, 1, 1) as u8
}

/// The third nibble, the `y` register operand.
pub open spec fn y_of(w: u16) -> u8 {
    nibble_group(w, 2, 1) as u8
}

/// The lowest nibble, `n`.
pub open spec fn n_of(w: u16) -> u8 {
    nibble_group(w, 3, 1) as u8
}

/// The low byte, `kk`.
pub open spec fn kk_of(w: u16) -> u8 {
    nibble_group(w, 2, 2) as u8
}

/// The low 12 bits, `nnn`.
pub open spec fn nnn_of(w: u16) -> u16 {
    nibble_group(w, 1, 3) as u16
}

/// The instruction that a 16-bit word encodes, or `None` where the word is
/// not in the opcode table.
pub open spec fn decoded(w: u16) -> Option<Instruction> {
    let op = opcode_of(w);
    let x = x_of(w);
    let y = y_of(w);
    if op == 0x0 {
        if nnn_of(w) == 0x0e0 {
            Some(Instruction::ClearScreen)
        } else if nnn_of(w) == 0x0ee {
            Some(Instruction::Return)
        } else {
            None
        }
    } else if op == 0x1 {
        Some(Instruction::Jump { dest: nnn_of(w) })
    } else if op == 0x2 {
        Some(Instruction::CallSubroutine { dest: nnn_of(w) })
    } else if op == 0x3 {
        Some(Instruction::SkipEQ { register: x, value: kk_of(w) })
    } else if op == 0x4 {
        Some(Instruction::SkipNEQ { register: x, value: kk_of(w) })
    } else if op == 0x5 {
        if n_of(w) == 0 {
            Some(Instruction::SkipEQR { register1: x, register2: y })
        } else {
            None
        }
    } else if op == 0x6 {
        Some(Instruction::SetRegister { register: x, value: kk_of(w) })
    } else if op == 0x7 {
        Some(Instruction::AddToRegister { register: x, value: kk_of(w) })
    } else if op == 0x8 {
        let n = n_of(w);
        if n == 0x0 {
            Some(Instruction::MovRegister { register1: x, register2: y })
        } else if n == 0x1 {
            Some(Instruction::BinaryOr { register1: x, register2: y })
        } else if n == 0x2 {
            Some(Instruction::BinaryAnd { register1: x, register2: y })
        } else if n == 0x3 {
            Some(Instruction::BinaryXor { register1: x, register2: y })
        } else if n == 0x4 {
            Some(Instruction::Add { register1: x, register2: y })
        } else if n == 0x5 {
            Some(Instruction::SubtractForward { register1: x, register2: y })
        } else if n == 0x6 {
            Some(Instruction::ShiftRight { register1: x, register2: y })
        } else if n == 0x7 {
            Some(Instruction::SubtractBackward { register1: x, register2: y })
        } else if n == 0xe {
            Some(Instruction::ShiftLeft { register1: x, register2: y })
        } else {
            None
        }
    } else if op == 0x9 {
        if n_of(w) == 0 {
            Some(Instruction::SkipNEQR { register1: x, register2: y })
        } else {
            None
        }
    } else if op == 0xa {
        Some(Instruction::SetIndexRegister { value: nnn_of(w) })
    } else if op == 0xc {
        Some(Instruction::Random { register: x, value: kk_of(w) })
    } else if op == 0xd {
        Some(Instruction::Draw { x_r: x, y_r: y, height: n_of(w) })
    } else if op == 0xe {
        if kk_of(w) == 0x9e {
            Some(Instruction::SkipPressed { key: x })
        } else if kk_of(w) == 0xa1 {
            Some(Instruction::SkipNotPressed { key: x })
        } else {
            None
        }
    } else if op == 0xf {
        let kk = kk_of(w);
        if kk == 0x07 {
            Some(Instruction::GetDelayTimer { register: x })
        } else if kk == 0x0a {
            Some(Instruction::GetKey { register: x })
        } else if kk == 0x15 {
            Some(Instruction::SetDelayTimer { register: x })
        } else if kk == 0x18 {
            Some(Instruction::SetSoundTimer { register: x })
        } else if kk == 0x1e {
            Some(Instruction::AddToIndex { register: x })
        } else if kk == 0x29 {
            Some(Instruction::FontChar { register: x })
        } else if kk == 0x33 {
            Some(Instruction::RegToDecimal { register: x })
        } else if kk == 0x55 {
            Some(Instruction::StoreMemory { register: x })
        } else if kk == 0x65 {
            Some(Instruction::LoadMemory { register: x })
        } else {
            None
        }
    } else {
        None
    }
}

/// Decodes one instruction word. Total: every word yields an instruction
/// or `None`.
pub fn decode(instruction: u16) -> (r: Option<Instruction>)
    ensures
        r == decoded(instruction),
        r matches Some(i) ==> operands_in_range(i),
{
    proof {
        vstd::arithmetic::power2::lemma2_to64();
    }
    let x = get_nibble(instruction, 1);
    let y = get_nibble(instruction, 2);
    match get_nibble(instruction, 0) {
        0x0 => match get_nibbles(instruction, 1, 3) {
            0x0e0 => Some(Instruction::ClearScreen),
            0x0ee => Some(Instruction::Return),
            _ => None,
        },
        0x1 => Some(Instruction::Jump { dest: get_nibbles(instruction, 1, 3) }),
        0x2 => Some(Instruction::CallSubroutine { dest: get_nibbles(instruction, 1, 3) }),
        0x3 => Some(Instruction::SkipEQ { register: x, value: get_nibbles(instruction, 2, 2) as u8 }),
        0x4 => Some(Instruction::SkipNEQ { register: x, value: get_nibbles(instruction, 2, 2) as u8 }),
        0x5 => match get_nibble(instruction, 3) {
            0 => Some(Instruction::SkipEQR { register1: x, register2: y }),
            _ => None,
        },
        0x6 => Some(Instruction::SetRegister { register: x, value: get_nibbles(instruction, 2, 2) as u8 }),
        0x7 => Some(Instruction::AddToRegister { register: x, value: get_nibbles(instruction, 2, 2) as u8 }),
        0x8 => match get_nibble(instruction, 3) {
            0x0 => Some(Instruction::MovRegister { register1: x, register2: y }),
            0x1 => Some(Instruction::BinaryOr { register1: x, register2: y }),
            0x2 => Some(Instruction::BinaryAnd { register1: x, register2: y }),
            0x3 => Some(Instruction::BinaryXor { register1: x, register2: y }),
            0x4 => Some(Instruction::Add { register1: x, register2: y }),
            0x5 => Some(Instruction::SubtractForward { register1: x, register2: y }),
            0x6 => Some(Instruction::ShiftRight { register1: x, register2: y }),
            0x7 => Some(Instruction::SubtractBackward { register1: x, register2: y }),
            0xe => Some(Instruction::ShiftLeft { register1: x, register2: y }),
            _ => None,
        },
        0x9 => match get_nibble(instruction, 3) {
            0 => Some(Instruction::SkipNEQR { register1: x, register2: y }),
            _ => None,
        },
        0xa => Some(Instruction::SetIndexRegister { value: get_nibbles(instruction, 1, 3) }),
        0xc => Some(Instruction::Random { register: x, value: get_nibbles(instruction, 2, 2) as u8 }),
        0xd => Some(Instruction::Draw { x_r: x, y_r: y, height: get_nibble(instruction, 3) }),
        0xe => match get_nibbles(instruction, 2, 2) {
            0x9e => Some(Instruction::SkipPressed { key: x }),
            0xa1 => Some(Instruction::SkipNotPressed { key: x }),
            _ => None,
        },
        0xf => match get_nibbles(instruction, 2, 2) {
            0x07 => Some(Instruction::GetDelayTimer { register: x }),
            0x0a => Some(Instruction::GetKey { register: x }),
            0x15 => Some(Instruction::SetDelayTimer { register: x }),
            0x18 => Some(Instruction::SetSoundTimer { register: x }),
            0x1e => Some(Instruction::AddToIndex { register: x }),
            0x29 => Some(Instruction::FontChar { register: x }),
            0x33 => Some(Instruction::RegToDecimal { register: x }),
            0x55 => Some(Instruction::StoreMemory { register: x }),
            0x65 => Some(Instruction::LoadMemory { register: x }),
            _ => None,
        },
        _ => None,
    }
}

} // verus!
