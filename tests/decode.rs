use chip8::{decode, Instruction};

#[test]
fn working_instructions() {
    assert_eq!(decode(0xa2e0).unwrap(), Instruction::SetIndexRegister { value: 0x2e0 });
    assert_eq!(decode(0xdeaf).unwrap(), Instruction::Draw { x_r: 0xe, y_r: 0xa, height: 0xf });
    assert_eq!(decode(0x7abc).unwrap(), Instruction::AddToRegister { register: 0xa, value: 0xbc });
}

#[test]
fn every_word_decodes_or_is_refused() {
    let mut known = 0u32;
    for w in 0u32..=0xffff {
        if decode(w as u16).is_some() {
            known += 1;
        }
    }
    // 1nnn, 2nnn, 3xkk, 4xkk, 6xkk, 7xkk, Annn, Cxkk, Dxyn: 9 * 4096 words;
    // 00E0, 00EE; 5xy0, 9xy0: 2 * 256; 8xy_ with 9 suffixes: 9 * 256;
    // Ex9E, ExA1: 32; Fx__ with 9 suffixes: 144.
    assert_eq!(known, 9 * 4096 + 2 + 2 * 256 + 9 * 256 + 32 + 144);
}

#[test]
fn opcode_table() {
    assert_eq!(decode(0x00e0), Some(Instruction::ClearScreen));
    assert_eq!(decode(0x00ee), Some(Instruction::Return));
    assert_eq!(decode(0x0123), None);
    assert_eq!(decode(0x1abc), Some(Instruction::Jump { dest: 0xabc }));
    assert_eq!(decode(0x2abc), Some(Instruction::CallSubroutine { dest: 0xabc }));
    assert_eq!(decode(0x3a12), Some(Instruction::SkipEQ { register: 0xa, value: 0x12 }));
    assert_eq!(decode(0x4a12), Some(Instruction::SkipNEQ { register: 0xa, value: 0x12 }));
    assert_eq!(decode(0x5ab0), Some(Instruction::SkipEQR { register1: 0xa, register2: 0xb }));
    assert_eq!(decode(0x5ab1), None);
    assert_eq!(decode(0x6a12), Some(Instruction::SetRegister { register: 0xa, value: 0x12 }));
    assert_eq!(decode(0x8ab0), Some(Instruction::MovRegister { register1: 0xa, register2: 0xb }));
    assert_eq!(decode(0x8ab1), Some(Instruction::BinaryOr { register1: 0xa, register2: 0xb }));
    assert_eq!(decode(0x8ab2), Some(Instruction::BinaryAnd { register1: 0xa, register2: 0xb }));
    assert_eq!(decode(0x8ab3), Some(Instruction::BinaryXor { register1: 0xa, register2: 0xb }));
    assert_eq!(decode(0x8ab4), Some(Instruction::Add { register1: 0xa, register2: 0xb }));
    assert_eq!(decode(0x8ab5), Some(Instruction::SubtractForward { register1: 0xa, register2: 0xb }));
    assert_eq!(decode(0x8ab6), Some(Instruction::ShiftRight { register1: 0xa, register2: 0xb }));
    assert_eq!(decode(0x8ab7), Some(Instruction::SubtractBackward { register1: 0xa, register2: 0xb }));
    assert_eq!(decode(0x8abe), Some(Instruction::ShiftLeft { register1: 0xa, register2: 0xb }));
    assert_eq!(decode(0x8ab8), None);
    assert_eq!(decode(0x9ab0), Some(Instruction::SkipNEQR { register1: 0xa, register2: 0xb }));
    assert_eq!(decode(0xb123), None);
    assert_eq!(decode(0xca0f), Some(Instruction::Random { register: 0xa, value: 0x0f }));
    assert_eq!(decode(0xe39e), Some(Instruction::SkipPressed { key: 3 }));
    assert_eq!(decode(0xe3a1), Some(Instruction::SkipNotPressed { key: 3 }));
    assert_eq!(decode(0xe3a2), None);
    assert_eq!(decode(0xf307), Some(Instruction::GetDelayTimer { register: 3 }));
    assert_eq!(decode(0xf30a), Some(Instruction::GetKey { register: 3 }));
    assert_eq!(decode(0xf315), Some(Instruction::SetDelayTimer { register: 3 }));
    assert_eq!(decode(0xf318), Some(Instruction::SetSoundTimer { register: 3 }));
    assert_eq!(decode(0xf31e), Some(Instruction::AddToIndex { register: 3 }));
    assert_eq!(decode(0xf329), Some(Instruction::FontChar { register: 3 }));
    assert_eq!(decode(0xf333), Some(Instruction::RegToDecimal { register: 3 }));
    assert_eq!(decode(0xf355), Some(Instruction::StoreMemory { register: 3 }));
    assert_eq!(decode(0xf365), Some(Instruction::LoadMemory { register: 3 }));
    assert_eq!(decode(0xf366), None);
}
