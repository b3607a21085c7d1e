use crate::instruction::Instruction;
use vstd::prelude::*;

verus! {

/// Bytes of addressable memory.
pub const MEMORY_SIZE: usize = 4096;

/// Address at which a program image is loaded and execution starts.
pub const INIT_INDEX: usize = 0x200;

/// Width of the display in pixels.
pub const SCREEN_WIDTH: usize = 64;

/// Height of the display in pixels.
pub const SCREEN_HEIGHT: usize = 32;

/// Nanoseconds between two timer decrements: one sixtieth of a second.
pub const TIMER_PERIOD_NANOS: u64 = 16_666_666;

/// The flag register, overwritten by several arithmetic instructions.
pub const FLAG: usize = 0xf;

/// What one executed instruction asks of the host.
#[derive(Debug, Clone, Copy, PartialEq, Eq, Structural)]
pub enum Cycle {
    /// The display changed and should be presented again.
    RedrawRequested,
    /// Nothing to present.
    Complete,
}

/// A fatal condition: the machine cannot go on.
#[derive(Debug, Clone, Copy, PartialEq, Eq, Structural)]
pub enum Fault {
    /// The program counter left the program region.
    PcOutOfBounds { pc: usize },
    /// The word fetched at `address` is not in the opcode table.
    UnknownInstruction { word: u16, address: usize },
    /// A return was executed with an empty call stack; `pc` is the program
    /// counter after the return instruction.
    StackUnderflow { pc: usize },
    /// An instruction would read or write memory past its end, starting
    /// from the index register's value `index`.
    AddressOutOfRange { index: u16 },
}

/// The abstract state of the machine: everything but the random generator.
#[verifier::ext_equal]
pub ghost struct MachineState {
    pub registers: Seq<u8>,
    pub memory: Seq<u8>,
    pub pc: usize,
    pub index: u16,
    pub delay: u8,
    pub sound: u8,
    pub display: Seq<Seq<bool>>,
    pub stack: Seq<usize>,
    pub last_clock: u64,
}

/// The sixteen 5-byte glyphs of the hexadecimal digits 0 to F.
pub open spec fn font() -> Seq<u8> {
    seq![
        0xF0u8, 0x90u8, 0x90u8, 0x90u8, 0xF0u8,
        0x20u8, 0x60u8, 0x20u8, 0x20u8, 0x70u8,
        0xF0u8, 0x10u8, 0xF0u8, 0x80u8, 0xF0u8,
        0xF0u8, 0x10u8, 0xF0u8, 0x10u8, 0xF0u8,
        0x90u8, 0x90u8, 0xF0u8, 0x10u8, 0x10u8,
        0xF0u8, 0x80u8, 0xF0u8, 0x10u8, 0xF0u8,
        0xF0u8, 0x80u8, 0xF0u8, 0x90u8, 0xF0u8,
        0xF0u8, 0x10u8, 0x20u8, 0x40u8, 0x40u8,
        0xF0u8, 0x90u8, 0xF0u8, 0x90u8, 0xF0u8,
        0xF0u8, 0x90u8, 0xF0u8, 0x10u8, 0xF0u8,
        0xF0u8, 0x90u8, 0xF0u8, 0x90u8, 0x90u8,
        0xE0u8, 0x90u8, 0xE0u8, 0x90u8, 0xE0u8,
        0xF0u8, 0x80u8, 0x80u8, 0x80u8, 0xF0u8,
        0xE0u8, 0x90u8, 0x90u8, 0x90u8, 0xE0u8,
        0xF0u8, 0x80u8, 0xF0u8, 0x80u8, 0xF0u8,
        0xF0u8, 0x80u8, 0xF0u8, 0x80u8, 0x80u8,
    ]
}

/// A display with every pixel off.
pub open spec fn blank_display() -> Seq<Seq<bool>> {
    Seq::new(SCREEN_HEIGHT as nat, |y: int| Seq::new(SCREEN_WIDTH as nat, |x: int| false))
}

/// The state right after construction: font at address 0, the rest of
/// memory zero, everything else zero or empty, the timer baseline `start`.
pub open spec fn initial_state(start: u64) -> MachineState {
    MachineState {
        registers: Seq::new(16, |i: int| 0u8),
        memory: Seq::new(
            MEMORY_SIZE as nat,
            |i: int|
                if i < font().len() {
                    font()[i]
                } else {
                    0u8
                },
        ),
        pc: INIT_INDEX,
        index: 0,
        delay: 0,
        sound: 0,
        display: blank_display(),
        stack: Seq::empty(),
        last_clock: start,
    }
}

/// The shape every reachable state has.
pub open spec fn well_formed(s: MachineState) -> bool {
    &&& s.registers.len() == 16
    &&& s.memory.len() == MEMORY_SIZE
    &&& s.display.len() == SCREEN_HEIGHT
    &&& forall|y: int| 0 <= y < SCREEN_HEIGHT ==> (#[trigger] s.display[y]).len() == SCREEN_WIDTH
}

/// The program counter may be fetched from: the whole word lies in the
/// program region.
pub open spec fn pc_in_bounds(pc: usize) -> bool {
    INIT_INDEX <= pc < MEMORY_SIZE - 1
}

/// The word stored big-endian at `pc`.
pub open spec fn word_at(memory: Seq<u8>, pc: int) -> u16 {
    (memory[pc] as int * 256 + memory[pc + 1] as int) as u16
}

/// Timer update at instant `now` (nanoseconds): where at least one timer
/// period has passed since the last update, both timers count down by one,
/// stopping at zero, and `now` becomes the new baseline.
pub open spec fn tick(s: MachineState, now: u64) -> MachineState {
    if now >= s.last_clock && now - s.last_clock >= TIMER_PERIOD_NANOS {
        MachineState {
            delay: if s.delay > 0 { (s.delay - 1) as u8 } else { 0 },
            sound: if s.sound > 0 { (s.sound - 1) as u8 } else { 0 },
            last_clock: now,
            ..s
        }
    } else {
        s
    }
}

/// Bit `k` (0 is the least significant) of `b`.
pub open spec fn bit_of(b: u8, k: u8) -> bool {
    (b >> k) & 1u8 == 1u8
}

/// Whether the sprite of `height` rows read from `memory` at `index` and
/// anchored at (`ax`, `ay`) has a set bit on pixel (`px`, `py`).
pub open spec fn sprite_covers(
    memory: Seq<u8>,
    index: int,
    height: int,
    ax: int,
    ay: int,
    px: int,
    py: int,
) -> bool {
    &&& ay <= py < ay + height
    &&& ax <= px < ax + 8
    &&& bit_of(memory[index + py - ay], (7 - (px - ax)) as u8)
}

/// The display after XOR-ing the sprite onto it; pixels off the grid are
/// dropped.
pub open spec fn drawn(s: MachineState, ax: int, ay: int, height: int) -> Seq<Seq<bool>> {
    Seq::new(
        SCREEN_HEIGHT as nat,
        |py: int|
            Seq::new(
                SCREEN_WIDTH as nat,
                |px: int|
                    s.display[py][px] != sprite_covers(
                        s.memory,
                        s.index as int,
                        height,
                        ax,
                        ay,
                        px,
                        py,
                    ),
            ),
    )
}

/// Whether `count` bytes from `index` lie in memory.
pub open spec fn range_fits(index: u16, count: int) -> bool {
    index as int + count <= MEMORY_SIZE
}

/// The three decimal digits of `v`, most significant first.
pub open spec fn bcd_digits(v: u8) -> Seq<u8> {
    seq![(v / 100) as u8, ((v / 10) % 10) as u8, (v % 10) as u8]
}

/// `memory` with `bytes` written from `at` on.
pub open spec fn write_bytes(memory: Seq<u8>, at: int, bytes: Seq<u8>) -> Seq<u8> {
    Seq::new(
        memory.len(),
        |i: int|
            if at <= i < at + bytes.len() {
                bytes[i - at]
            } else {
                memory[i]
            },
    )
}

/// `s` with register `r` set to `v`.
pub open spec fn set_reg(s: MachineState, r: u8, v: u8) -> MachineState {
    MachineState { registers: s.registers.update(r as int, v), ..s }
}

/// `s` with register `r` set to `v`, then the flag register set to `f`.
pub open spec fn set_reg_flag(s: MachineState, r: u8, v: u8, f: u8) -> MachineState {
    MachineState { registers: s.registers.update(r as int, v).update(FLAG as int, f), ..s }
}

/// `s` with the program counter moved past one more instruction where `cond`
/// holds.
pub open spec fn skip_if(s: MachineState, cond: bool) -> MachineState {
    if cond {
        MachineState { pc: (s.pc + 2) as usize, ..s }
    } else {
        s
    }
}

/// The result of executing `ins` in state `s`, after the program counter has
/// moved past it, with `key` the key held down (if any) and `random` the byte
/// a random instruction draws.
pub open spec fn next_state(s: MachineState, ins: Instruction, key: Option<u8>, random: u8) -> Result<
    (MachineState, Cycle),
    Fault,
> {
    let regs = s.registers;
    match ins {
        Instruction::ClearScreen => Ok(
            (MachineState { display: blank_display(), ..s }, Cycle::RedrawRequested),
        ),
        Instruction::Return => if s.stack.len() == 0 {
            Err(Fault::StackUnderflow { pc: s.pc })
        } else {
            Ok(
                (
                    MachineState { pc: s.stack.last(), stack: s.stack.drop_last(), ..s },
                    Cycle::Complete,
                ),
            )
        },
        Instruction::Jump { dest } => Ok((MachineState { pc: dest as usize, ..s }, Cycle::Complete)),
        Instruction::CallSubroutine { dest } => Ok(
            (MachineState { pc: dest as usize, stack: s.stack.push(s.pc), ..s }, Cycle::Complete),
        ),
        Instruction::SkipEQ { register, value } => Ok(
            (skip_if(s, regs[register as int] == value), Cycle::Complete),
        ),
        Instruction::SkipNEQ { register, value } => Ok(
            (skip_if(s, regs[register as int] != value), Cycle::Complete),
        ),
        Instruction::SkipEQR { register1, register2 } => Ok(
            (skip_if(s, regs[register1 as int] == regs[register2 as int]), Cycle::Complete),
        ),
        Instruction::SkipNEQR { register1, register2 } => Ok(
            (skip_if(s, regs[register1 as int] != regs[register2 as int]), Cycle::Complete),
        ),
        Instruction::SetRegister { register, value } => Ok(
            (set_reg(s, register, value), Cycle::Complete),
        ),
        Instruction::AddToRegister { register, value } => Ok(
            (
                set_reg(s, register, ((regs[register as int] + value) % 256) as u8),
                Cycle::Complete,
            ),
        ),
        Instruction::SetIndexRegister { value } => Ok(
            (MachineState { index: value, ..s }, Cycle::Complete),
        ),
        Instruction::MovRegister { register1, register2 } => Ok(
            (set_reg(s, register1, regs[register2 as int]), Cycle::Complete),
        ),
        Instruction::BinaryOr { register1, register2 } => Ok(
            (set_reg(s, register1, regs[register1 as int] | regs[register2 as int]), Cycle::Complete),
        ),
        Instruction::BinaryAnd { register1, register2 } => Ok(
            (set_reg(s, register1, regs[register1 as int] & regs[register2 as int]), Cycle::Complete),
        ),
        Instruction::BinaryXor { register1, register2 } => Ok(
            (set_reg(s, register1, regs[register1 as int] ^ regs[register2 as int]), Cycle::Complete),
        ),
        Instruction::Add { register1, register2 } => {
            let sum = regs[register1 as int] + regs[register2 as int];
            Ok(
                (
                    set_reg_flag(
                        s,
                        register1,
                        (sum % 256) as u8,
                        if sum > 255 { 1 } else { 0 },
                    ),
                    Cycle::Complete,
                ),
            )
        },
        Instruction::SubtractForward { register1, register2 } => {
            let a = regs[register1 as int];
            let b = regs[register2 as int];
            Ok(
                (
                    set_reg_flag(
                        s,
                        register1,
                        ((a - b + 256) % 256) as u8,
                        if a < b { 0 } else { 1 },
                    ),
                    Cycle::Complete,
                ),
            )
        },
        Instruction::SubtractBackward { register1, register2 } => {
            let a = regs[register1 as int];
            let b = regs[register2 as int];
            Ok(
                (
                    set_reg_flag(
                        s,
                        register1,
                        ((b - a + 256) % 256) as u8,
                        if b < a { 0 } else { 1 },
                    ),
                    Cycle::Complete,
                ),
            )
        },
        Instruction::ShiftRight { register1, register2: _ } => Ok(
            (set_reg(s, register1, regs[register1 as int] / 2), Cycle::Complete),
        ),
        Instruction::ShiftLeft { register1, register2: _ } => Ok(
            (set_reg(s, register1, ((regs[register1 as int] * 2) % 256) as u8), Cycle::Complete),
        ),
        Instruction::Random { register, value } => Ok(
            (set_reg(s, register, random & value), Cycle::Complete),
        ),
        Instruction::Draw { x_r, y_r, height } => if height > 0 && !range_fits(
            s.index,
            height as int,
        ) {
            Err(Fault::AddressOutOfRange { index: s.index })
        } else {
            let ax = regs[x_r as int] % 64;
            let ay = regs[y_r as int] % 32;
            Ok(
                (
                    MachineState { display: drawn(s, ax as int, ay as int, height as int), ..s },
                    Cycle::RedrawRequested,
                ),
            )
        },
        Instruction::SkipPressed { key: r } => Ok(
            (skip_if(s, key == Some(regs[r as int])), Cycle::Complete),
        ),
        Instruction::SkipNotPressed { key: r } => Ok(
            (skip_if(s, key != Some(regs[r as int])), Cycle::Complete),
        ),
        Instruction::GetDelayTimer { register } => Ok(
            (set_reg(s, register, s.delay), Cycle::Complete),
        ),
        Instruction::GetKey { register } => match key {
            Some(k) => Ok((set_reg(s, register, k), Cycle::Complete)),
            None => Ok((MachineState { pc: (s.pc - 2) as usize, ..s }, Cycle::Complete)),
        },
        Instruction::FontChar { register } => Ok(
            (
                MachineState { index: ((regs[register as int] % 16) * 5) as u16, ..s },
                Cycle::Complete,
            ),
        ),
        Instruction::SetDelayTimer { register } => Ok(
            (MachineState { delay: regs[register as int], ..s }, Cycle::Complete),
        ),
        Instruction::SetSoundTimer { register } => Ok(
            (MachineState { sound: regs[register as int], ..s }, Cycle::Complete),
        ),
        Instruction::AddToIndex { register } => {
            let sum = s.index + regs[register as int];
            Ok(
                (
                    MachineState {
                        index: (sum % 0x10000) as u16,
                        registers: regs.update(FLAG as int, if sum > 0xFFFF { 1u8 } else { 0u8 }),
                        ..s
                    },
                    Cycle::Complete,
                ),
            )
        },
        Instruction::RegToDecimal { register } => if !range_fits(s.index, 3) {
            Err(Fault::AddressOutOfRange { index: s.index })
        } else {
            Ok(
                (
                    MachineState {
                        memory: write_bytes(s.memory, s.index as int, bcd_digits(regs[register as int])),
                        ..s
                    },
                    Cycle::Complete,
                ),
            )
        },
        Instruction::StoreMemory { register } => if !range_fits(s.index, register + 1) {
            Err(Fault::AddressOutOfRange { index: s.index })
        } else {
            Ok(
                (
                    MachineState {
                        memory: write_bytes(
                            s.memory,
                            s.index as int,
                            regs.subrange(0, register + 1),
                        ),
                        ..s
                    },
                    Cycle::Complete,
                ),
            )
        },
        Instruction::LoadMemory { register } => if !range_fits(s.index, register + 1) {
            Err(Fault::AddressOutOfRange { index: s.index })
        } else {
            Ok(
                (
                    MachineState {
                        registers: Seq::new(
                            16,
                            |i: int|
                                if i <= register {
                                    s.memory[s.index + i]
                                } else {
                                    regs[i]
                                },
                        ),
                        ..s
                    },
                    Cycle::Complete,
                ),
            )
        },
    }
}

} // verus!
