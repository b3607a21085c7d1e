use crate::decode::{decode, decoded};
use crate::instruction::{operands_in_range, Instruction};
use crate::random::{next_byte, seeded_rng};
use crate::state::{
    bcd_digits, bit_of, blank_display, drawn, font, initial_state, next_state, pc_in_bounds,
    range_fits, set_reg_flag, sprite_covers, tick, word_at, write_bytes, Cycle, Fault,
    MachineState, FLAG, INIT_INDEX, MEMORY_SIZE, SCREEN_HEIGHT, SCREEN_WIDTH, TIMER_PERIOD_NANOS,
};
use vstd::prelude::*;

verus! {

/// The display: 32 rows of 64 pixels, `true` for a lit pixel.
pub type Screen = [[bool; 64]; 32];

/// The machine: registers, memory, program counter, index register, timers,
/// display, call stack, timer baseline and random generator.
pub struct Chip8 {
    pub registers: [u8; 16],
    pub memory: [u8; 4096],
    pub pc: usize,
    pub index_register: u16,
    pub delay_timer: u8,
    pub sound_timer: u8,
    pub display: Screen,
    pub stack: Vec<usize>,
    /// Instant of the last timer update, in nanoseconds on the host's clock.
    pub last_clock: u64,
    /// The random generator, seeded with zero.
    pub rng: rand::rngs::StdRng,
}

/// The display as rows of pixels.
pub open spec fn screen_view(d: Screen) -> Seq<Seq<bool>> {
    d@.map_values(|row: [bool; 64]| row@)
}

impl View for Chip8 {
    type V = MachineState;

    open spec fn view(&self) -> MachineState {
        MachineState {
            registers: self.registers@,
            memory: self.memory@,
            pc: self.pc,
            index: self.index_register,
            delay: self.delay_timer,
            sound: self.sound_timer,
            display: screen_view(self.display),
            stack: self.stack@,
            last_clock: self.last_clock,
        }
    }
}

/// `post` and `r` are what executing `ins` in `pre` gives: on success the
/// next state and the redraw signal, on a fault the state left as it was.
pub open spec fn executed(
    pre: MachineState,
    post: MachineState,
    r: Result<Cycle, Fault>,
    ins: Instruction,
    key: Option<u8>,
    random: u8,
) -> bool {
    match next_state(pre, ins, key, random) {
        Ok(p) => post == p.0 && r == Ok::<Cycle, Fault>(p.1),
        Err(e) => post == pre && r == Err::<Cycle, Fault>(e),
    }
}

/// The display while a sprite is being drawn: the sprite's rows before
/// `rows`, and the first `cols` columns of row `rows`, have been applied.
spec fn drawn_partial(
    s: MachineState,
    ax: int,
    ay: int,
    height: int,
    rows: int,
    cols: int,
) -> Seq<Seq<bool>> {
    Seq::new(
        SCREEN_HEIGHT as nat,
        |py: int|
            Seq::new(
                SCREEN_WIDTH as nat,
                |px: int|
                    s.display[py][px] != (sprite_covers(
                        s.memory,
                        s.index as int,
                        height,
                        ax,
                        ay,
                        px,
                        py,
                    ) && (py - ay < rows || (py - ay == rows && px - ax < cols))),
            ),
    )
}

/// The frame after the display is written into it: byte `4 * p` for pixel
/// `p`, counted row by row, is 255 where the pixel is lit and 0 where not.
pub open spec fn rendered(display: Seq<Seq<bool>>, frame: Seq<u8>) -> Seq<u8> {
    Seq::new(
        frame.len(),
        |i: int|
            if i < SCREEN_WIDTH * SCREEN_HEIGHT * 4 && i % 4 == 0 {
                if display[(i / 4) / 64][(i / 4) % 64] {
                    255u8
                } else {
                    0u8
                }
            } else {
                frame[i]
            },
    )
}

/// Wrapping byte addition and subtraction as arithmetic modulo 256.
proof fn lemma_wrapping_u8(a: u8, b: u8)
    ensures
        a.wrapping_add(b) == ((a + b) % 256) as u8,
        (a.wrapping_add(b) < a) == (a + b > 255),
        a.wrapping_sub(b) == ((a - b + 256) % 256) as u8,
{
}

/// The program counter can move one instruction either way.
pub open spec fn pc_steppable(pc: usize) -> bool {
    2 <= pc <= usize::MAX - 2
}

impl Chip8 {
    /// A machine with the font loaded, the program counter at the program
    /// start, everything else cleared, and `start` as the timer baseline.
    pub fn new(start: u64) -> (r: Self)
        ensures
            r@ == initial_state(start),
    {
        let font_bytes: [u8; 80] = [
            0xF0, 0x90, 0x90, 0x90, 0xF0,
            0x20, 0x60, 0x20, 0x20, 0x70,
            0xF0, 0x10, 0xF0, 0x80, 0xF0,
            0xF0, 0x10, 0xF0, 0x10, 0xF0,
            0x90, 0x90, 0xF0, 0x10, 0x10,
            0xF0, 0x80, 0xF0, 0x10, 0xF0,
            0xF0, 0x80, 0xF0, 0x90, 0xF0,
            0xF0, 0x10, 0x20, 0x40, 0x40,
            0xF0, 0x90, 0xF0, 0x90, 0xF0,
            0xF0, 0x90, 0xF0, 0x10, 0xF0,
            0xF0, 0x90, 0xF0, 0x90, 0x90,
            0xE0, 0x90, 0xE0, 0x90, 0xE0,
            0xF0, 0x80, 0x80, 0x80, 0xF0,
            0xE0, 0x90, 0x90, 0x90, 0xE0,
            0xF0, 0x80, 0xF0, 0x80, 0xF0,
            0xF0, 0x80, 0xF0, 0x80, 0x80,
        ];
        assert(font_bytes@ == font());
        let mut memory: [u8; 4096] = [0; 4096];
        let mut i: usize = 0;
        while i < 80
            invariant
                i <= 80,
                font_bytes@ == font(),
                forall|j: int| 0 <= j < i ==> memory@[j] == font()[j],
                forall|j: int| i <= j < MEMORY_SIZE ==> memory@[j] == 0,
            decreases 80 - i,
        {
            memory[i] = font_bytes[i];
            i += 1;
        }
        let chip8 = Chip8 {
            registers: [0; 16],
            memory,
            pc: INIT_INDEX,
            index_register: 0,
            delay_timer: 0,
            sound_timer: 0,
            display: [[false; 64]; 32],
            stack: Vec::new(),
            last_clock: start,
            rng: seeded_rng(0),
        };
        assert(chip8@.memory =~= initial_state(start).memory);
        assert(chip8@.registers =~= initial_state(start).registers);
        assert(chip8@.display =~~= blank_display());
        assert(chip8@ =~= initial_state(start));
        chip8
    }

    /// The word at the program counter, high byte first.
    pub fn get_instruction(&self) -> (r: u16)
        requires
            self.pc + 1 < MEMORY_SIZE,
        ensures
            r == word_at(self.memory@, self.pc as int),
    {
        (self.memory[self.pc] as u16) * 256 + (self.memory[self.pc + 1] as u16)
    }

    /// Whether an instruction can be fetched at the program counter.
    pub fn pc_inbounds(&self) -> (r: bool)
        ensures
            r == pc_in_bounds(self.pc),
    {
        self.pc >= INIT_INDEX && self.pc < MEMORY_SIZE - 1
    }

    /// Whether the sound timer is running.
    pub fn should_beep(&self) -> (r: bool)
        ensures
            r == (self.sound_timer > 0),
    {
        self.sound_timer > 0
    }

    /// Writes `v` to register `r` and `f` to the flag register.
    fn set_with_flag(&mut self, r: u8, v: u8, f: u8)
        requires
            r < 16,
        ensures
            final(self).rng == old(self).rng,
            final(self)@ == set_reg_flag(old(self)@, r, v, f),
    {
        self.registers[r as usize] = v;
        self.registers[FLAG] = f;
        assert(self@.registers =~= set_reg_flag(old(self)@, r, v, f).registers);
    }

    /// Copies registers `0..=r` to memory from the index register on.
    fn store_range(&mut self, r: u8)
        requires
            r < 16,
            range_fits(old(self).index_register, r + 1),
        ensures
            final(self).rng == old(self).rng,
            final(self)@ == (MachineState {
                memory: write_bytes(
                    old(self)@.memory,
                    old(self).index_register as int,
                    old(self)@.registers.subrange(0, r + 1),
                ),
                ..old(self)@
            }),
    {
        let base = self.index_register as usize;
        let mut i: usize = 0;
        while i <= r as usize
            invariant
                r < 16,
                base == old(self).index_register,
                base + r + 1 <= MEMORY_SIZE,
                i <= r + 1,
                self.rng == old(self).rng,
                self@ == (MachineState {
                    memory: write_bytes(
                        old(self)@.memory,
                        base as int,
                        old(self)@.registers.subrange(0, i as int),
                    ),
                    ..old(self)@
                }),
            decreases r + 1 - i,
        {
            self.memory[base + i] = self.registers[i];
            i += 1;
            assert(self@.memory =~= write_bytes(
                old(self)@.memory,
                base as int,
                old(self)@.registers.subrange(0, i as int),
            ));
        }
    }

    /// Copies memory from the index register on into registers `0..=r`.
    fn load_range(&mut self, r: u8)
        requires
            r < 16,
            range_fits(old(self).index_register, r + 1),
        ensures
            final(self).rng == old(self).rng,
            final(self)@ == (MachineState {
                registers: Seq::new(
                    16,
                    |i: int|
                        if i <= r {
                            old(self)@.memory[old(self).index_register + i]
                        } else {
                            old(self)@.registers[i]
                        },
                ),
                ..old(self)@
            }),
    {
        let base = self.index_register as usize;
        let mut i: usize = 0;
        while i <= r as usize
            invariant
                r < 16,
                base == old(self).index_register,
                base + r + 1 <= MEMORY_SIZE,
                i <= r + 1,
                self.rng == old(self).rng,
                self@ == (MachineState {
                    registers: Seq::new(
                        16,
                        |j: int|
                            if j < i {
                                old(self)@.memory[base + j]
                            } else {
                                old(self)@.registers[j]
                            },
                    ),
                    ..old(self)@
                }),
            decreases r + 1 - i,
        {
            self.registers[i] = self.memory[base + i];
            i += 1;
            assert(self@.registers =~= Seq::new(
                16,
                |j: int|
                    if j < i {
                        old(self)@.memory[base + j]
                    } else {
                        old(self)@.registers[j]
                    },
            ));
        }
        assert(self@.registers =~= Seq::new(
            16,
            |j: int|
                if j <= r {
                    old(self)@.memory[base + j]
                } else {
                    old(self)@.registers[j]
                },
        ));
    }

    /// XORs the sprite of `height` rows at the index register onto the
    /// display, anchored at (`ax`, `ay`), clipping at the edges.
    fn draw_sprite(&mut self, ax: u8, ay: u8, height: u8)
        requires
            ax < 64,
            ay < 32,
            height < 16,
            height == 0 || range_fits(old(self).index_register, height as int),
        ensures
            final(self).rng == old(self).rng,
            final(self)@ == (MachineState {
                display: drawn(old(self)@, ax as int, ay as int, height as int),
                ..old(self)@
            }),
    {
        let ghost s0 = self@;
        let base = self.index_register as usize;
        let mut row: u8 = 0;
        assert(screen_view(self.display) =~~= drawn_partial(s0, ax as int, ay as int, height as int, 0, 0));
        while row < height
            invariant
                ax < 64,
                ay < 32,
                height < 16,
                row <= height,
                self.rng == old(self).rng,
                base == s0.index,
                height == 0 || base + height <= MEMORY_SIZE,
                s0 == old(self)@,
                self@ == (MachineState {
                    display: drawn_partial(s0, ax as int, ay as int, height as int, row as int, 0),
                    ..s0
                }),
            decreases height - row,
        {
            let sprite = self.memory[base + row as usize];
            let py: u8 = ay + row;
            let mut col: u8 = 0;
            while col < 8
                invariant
                    ax < 64,
                    ay < 32,
                    row < height < 16,
                    col <= 8,
                    self.rng == old(self).rng,
                    py == ay + row,
                    base == s0.index,
                    base + height <= MEMORY_SIZE,
                    sprite == s0.memory[base + row],
                    self@ == (MachineState {
                        display: drawn_partial(
                            s0,
                            ax as int,
                            ay as int,
                            height as int,
                            row as int,
                            col as int,
                        ),
                        ..s0
                    }),
                decreases 8 - col,
            {
                let px: u8 = ax + col;
                let lit = (sprite >> (7 - col)) & 1 == 1;
                assert(lit == bit_of(sprite, (7 - col) as u8));
                let ghost prev = screen_view(self.display);
                let ghost next = drawn_partial(
                    s0,
                    ax as int,
                    ay as int,
                    height as int,
                    row as int,
                    col + 1,
                );
                assert(sprite_covers(
                    s0.memory,
                    s0.index as int,
                    height as int,
                    ax as int,
                    ay as int,
                    px as int,
                    py as int,
                ) == lit);
                if px < 64 && py < 32 && lit {
                    let mut line = self.display[py as usize];
                    line[px as usize] = !line[px as usize];
                    self.display[py as usize] = line;
                    assert(screen_view(self.display) =~~= prev.update(
                        py as int,
                        prev[py as int].update(px as int, !prev[py as int][px as int]),
                    ));
                }
                assert forall|y: int, x: int|
                    0 <= y < SCREEN_HEIGHT && 0 <= x < SCREEN_WIDTH implies #[trigger] screen_view(
                        self.display,
                    )[y][x] == next[y][x] by {
                    if y == py && x == px {
                    } else {
                    }
                }
                col += 1;
                assert(screen_view(self.display) =~~= next);
            }
            row += 1;
            assert(drawn_partial(s0, ax as int, ay as int, height as int, (row - 1) as int, 8)
                =~~= drawn_partial(s0, ax as int, ay as int, height as int, row as int, 0));
        }
        assert(drawn_partial(s0, ax as int, ay as int, height as int, row as int, 0) =~~= drawn(
            s0,
            ax as int,
            ay as int,
            height as int,
        ));
    }

    /// Writes the three decimal digits of `v` from the index register on.
    fn store_bcd(&mut self, v: u8)
        requires
            range_fits(old(self).index_register, 3),
        ensures
            final(self).rng == old(self).rng,
            final(self)@ == (MachineState {
                memory: write_bytes(old(self)@.memory, old(self).index_register as int, bcd_digits(v)),
                ..old(self)@
            }),
    {
        let base = self.index_register as usize;
        self.memory[base] = v / 100;
        self.memory[base + 1] = (v / 10) % 10;
        self.memory[base + 2] = v % 10;
        assert(self@.memory =~= write_bytes(old(self)@.memory, base as int, bcd_digits(v)));
    }

    /// Executes one decoded instruction, the program counter having already
    /// moved past it. `key_pressed` is the key held down, if any; `random` is
    /// the byte a `Random` instruction masks into its register.
    pub fn step(
        &mut self,
        instruction: Instruction,
        key_pressed: Option<u8>,
        random: u8,
    ) -> (r: Result<Cycle, Fault>)
        requires
            operands_in_range(instruction),
            pc_steppable(old(self).pc),
        ensures
            executed(old(self)@, final(self)@, r, instruction, key_pressed, random),
            final(self).rng == old(self).rng,
    {
        match instruction {
            Instruction::ClearScreen
            | Instruction::Return
            | Instruction::Jump { .. }
            | Instruction::CallSubroutine { .. }
            | Instruction::SkipEQ { .. }
            | Instruction::SkipNEQ { .. }
            | Instruction::SkipEQR { .. }
            | Instruction::SkipNEQR { .. }
            | Instruction::SkipPressed { .. }
            | Instruction::SkipNotPressed { .. }
            | Instruction::GetKey { .. } => self.step_control(instruction, key_pressed, random),
            Instruction::SetIndexRegister { .. }
            | Instruction::Draw { .. }
            | Instruction::FontChar { .. }
            | Instruction::AddToIndex { .. }
            | Instruction::RegToDecimal { .. }
            | Instruction::StoreMemory { .. }
            | Instruction::LoadMemory { .. } => self.step_memory(instruction, key_pressed, random),
            Instruction::Add { .. }
            | Instruction::SubtractForward { .. }
            | Instruction::SubtractBackward { .. }
            | Instruction::ShiftRight { .. }
            | Instruction::ShiftLeft { .. } => self.step_arithmetic(instruction, key_pressed, random),
            _ => self.step_registers(instruction, key_pressed, random),
        }
    }

    /// Control flow: jumps, calls, returns, skips, key waits and clearing
    /// the display.
    fn step_control(
        &mut self,
        instruction: Instruction,
        key_pressed: Option<u8>,
        random: u8,
    ) -> (r: Result<Cycle, Fault>)
        requires
            operands_in_range(instruction),
            pc_steppable(old(self).pc),
            instruction is ClearScreen || instruction is Return || instruction is Jump ||
                instruction is CallSubroutine || instruction is SkipEQ || instruction is SkipNEQ ||
                instruction is SkipEQR || instruction is SkipNEQR || instruction is SkipPressed ||
                instruction is SkipNotPressed || instruction is GetKey,
        ensures
            executed(old(self)@, final(self)@, r, instruction, key_pressed, random),
            final(self).rng == old(self).rng,
    {
        match instruction {
            Instruction::ClearScreen => {
                self.display = [[false; 64]; 32];
                assert(screen_view(self.display) =~~= blank_display());
                return Ok(Cycle::RedrawRequested);
            },
            Instruction::Return => {
                match self.stack.pop() {
                    Some(dest) => {
                        self.pc = dest;
                    },
                    None => {
                        return Err(Fault::StackUnderflow { pc: self.pc });
                    },
                }
            },
            Instruction::Jump { dest } => {
                self.pc = dest as usize;
            },
            Instruction::CallSubroutine { dest } => {
                self.stack.push(self.pc);
                self.pc = dest as usize;
            },
            Instruction::SkipEQ { register, value } => {
                if self.registers[register as usize] == value {
                    self.pc += 2;
                }
            },
            Instruction::SkipNEQ { register, value } => {
                if self.registers[register as usize] != value {
                    self.pc += 2;
                }
            },
            Instruction::SkipEQR { register1, register2 } => {
                if self.registers[register1 as usize] == self.registers[register2 as usize] {
                    self.pc += 2;
                }
            },
            Instruction::SkipNEQR { register1, register2 } => {
                if self.registers[register1 as usize] != self.registers[register2 as usize] {
                    self.pc += 2;
                }
            },
            Instruction::SkipPressed { key } => {
                if let Some(k) = key_pressed {
                    if self.registers[key as usize] == k {
                        self.pc += 2;
                    }
                }
            },
            Instruction::SkipNotPressed { key } => {
                if let Some(k) = key_pressed {
                    if self.registers[key as usize] != k {
                        self.pc += 2;
                    }
                } else {
                    self.pc += 2;
                }
            },
            Instruction::GetKey { register } => {
                if let Some(k) = key_pressed {
                    self.registers[register as usize] = k;
                } else {
                    self.pc -= 2;
                }
            },
            _ => {},
        }
        Ok(Cycle::Complete)
    }

    /// Register moves, bitwise logic, random bytes and timer transfers.
    fn step_registers(
        &mut self,
        instruction: Instruction,
        key_pressed: Option<u8>,
        random: u8,
    ) -> (r: Result<Cycle, Fault>)
        requires
            operands_in_range(instruction),
            pc_steppable(old(self).pc),
            instruction is SetRegister || instruction is AddToRegister ||
                instruction is MovRegister || instruction is BinaryOr ||
                instruction is BinaryAnd || instruction is BinaryXor || instruction is Random ||
                instruction is GetDelayTimer || instruction is SetDelayTimer ||
                instruction is SetSoundTimer,
        ensures
            executed(old(self)@, final(self)@, r, instruction, key_pressed, random),
            final(self).rng == old(self).rng,
    {
        match instruction {
            Instruction::SetRegister { register, value } => {
                self.registers[register as usize] = value;
            },
            Instruction::AddToRegister { register, value } => {
                self.registers[register as usize] = self.registers[register as usize].wrapping_add(
                    value,
                );
            },
            Instruction::MovRegister { register1, register2 } => {
                self.registers[register1 as usize] = self.registers[register2 as usize];
            },
            Instruction::BinaryOr { register1, register2 } => {
                self.registers[register1 as usize] = self.registers[register1 as usize]
                    | self.registers[register2 as usize];
            },
            Instruction::BinaryAnd { register1, register2 } => {
                self.registers[register1 as usize] = self.registers[register1 as usize]
                    & self.registers[register2 as usize];
            },
            Instruction::BinaryXor { register1, register2 } => {
                self.registers[register1 as usize] = self.registers[register1 as usize]
                    ^ self.registers[register2 as usize];
            },
            Instruction::Random { register, value } => {
                self.registers[register as usize] = random & value;
            },
            Instruction::GetDelayTimer { register } => {
                self.registers[register as usize] = self.delay_timer;
            },
            Instruction::SetDelayTimer { register } => {
                self.delay_timer = self.registers[register as usize];
            },
            Instruction::SetSoundTimer { register } => {
                self.sound_timer = self.registers[register as usize];
            },
            _ => {},
        }
        Ok(Cycle::Complete)
    }

    /// Arithmetic that sets the flag register, and shifts.
    #[verifier::spinoff_prover]
    fn step_arithmetic(
        &mut self,
        instruction: Instruction,
        key_pressed: Option<u8>,
        random: u8,
    ) -> (r: Result<Cycle, Fault>)
        requires
            operands_in_range(instruction),
            pc_steppable(old(self).pc),
            instruction is Add || instruction is SubtractForward ||
                instruction is SubtractBackward || instruction is ShiftRight ||
                instruction is ShiftLeft,
        ensures
            executed(old(self)@, final(self)@, r, instruction, key_pressed, random),
            final(self).rng == old(self).rng,
    {
        match instruction {
            Instruction::Add { register1, register2 } => {
                let a = self.registers[register1 as usize];
                let b = self.registers[register2 as usize];
                let sum = a.wrapping_add(b);
                proof {
                    lemma_wrapping_u8(a, b);
                }
                self.set_with_flag(register1, sum, if sum < a { 1 } else { 0 });
            },
            Instruction::SubtractForward { register1, register2 } => {
                let a = self.registers[register1 as usize];
                let b = self.registers[register2 as usize];
                proof {
                    lemma_wrapping_u8(a, b);
                }
                self.set_with_flag(register1, a.wrapping_sub(b), if a < b { 0 } else { 1 });
            },
            Instruction::SubtractBackward { register1, register2 } => {
                let a = self.registers[register1 as usize];
                let b = self.registers[register2 as usize];
                proof {
                    lemma_wrapping_u8(b, a);
                }
                self.set_with_flag(register1, b.wrapping_sub(a), if b < a { 0 } else { 1 });
            },
            Instruction::ShiftRight { register1, register2: _ } => {
                let a = self.registers[register1 as usize];
                assert(a >> 1u8 == a / 2) by (bit_vector);
                self.registers[register1 as usize] = a >> 1u8;
            },
            Instruction::ShiftLeft { register1, register2: _ } => {
                let a = self.registers[register1 as usize];
                assert(a << 1u8 == ((a * 2) % 256) as u8) by (bit_vector);
                self.registers[register1 as usize] = a << 1u8;
            },
            _ => {},
        }
        Ok(Cycle::Complete)
    }

    /// The index register, memory transfers and sprite drawing.
    fn step_memory(
        &mut self,
        instruction: Instruction,
        key_pressed: Option<u8>,
        random: u8,
    ) -> (r: Result<Cycle, Fault>)
        requires
            operands_in_range(instruction),
            pc_steppable(old(self).pc),
            instruction is SetIndexRegister || instruction is Draw || instruction is FontChar ||
                instruction is AddToIndex || instruction is RegToDecimal ||
                instruction is StoreMemory || instruction is LoadMemory,
        ensures
            executed(old(self)@, final(self)@, r, instruction, key_pressed, random),
            final(self).rng == old(self).rng,
    {
        match instruction {
            Instruction::SetIndexRegister { value } => {
                self.index_register = value;
            },
            Instruction::Draw { x_r, y_r, height } => {
                if height > 0 && self.index_register as usize + height as usize > MEMORY_SIZE {
                    return Err(Fault::AddressOutOfRange { index: self.index_register });
                }
                let ax = self.registers[x_r as usize] % 64;
                let ay = self.registers[y_r as usize] % 32;
                self.draw_sprite(ax, ay, height);
                return Ok(Cycle::RedrawRequested);
            },
            Instruction::FontChar { register } => {
                let v = self.registers[register as usize];
                assert(v & 0xf == v % 16) by (bit_vector);
                self.index_register = ((v & 0xf) as u16) * 5;
            },
            Instruction::AddToIndex { register } => {
                let saved = self.index_register;
                self.index_register = saved.wrapping_add(self.registers[register as usize] as u16);
                self.registers[FLAG] = if self.index_register < saved { 1 } else { 0 };
            },
            Instruction::RegToDecimal { register } => {
                if self.index_register as usize + 3 > MEMORY_SIZE {
                    return Err(Fault::AddressOutOfRange { index: self.index_register });
                }
                let v = self.registers[register as usize];
                self.store_bcd(v);
            },
            Instruction::StoreMemory { register } => {
                if self.index_register as usize + register as usize + 1 > MEMORY_SIZE {
                    return Err(Fault::AddressOutOfRange { index: self.index_register });
                }
                self.store_range(register);
            },
            Instruction::LoadMemory { register } => {
                if self.index_register as usize + register as usize + 1 > MEMORY_SIZE {
                    return Err(Fault::AddressOutOfRange { index: self.index_register });
                }
                self.load_range(register);
            },
            _ => {},
        }
        Ok(Cycle::Complete)
    }

    /// Executes one decoded instruction, drawing a byte from the machine's
    /// generator where the instruction is `Random`.
    pub fn execute(&mut self, instruction: Instruction, key_pressed: Option<u8>) -> (r: Result<
        Cycle,
        Fault,
    >)
        requires
            operands_in_range(instruction),
            pc_steppable(old(self).pc),
        ensures
            exists|random: u8|
                executed(old(self)@, final(self)@, r, instruction, key_pressed, random),
            !(instruction is Random) ==> executed(
                old(self)@,
                final(self)@,
                r,
                instruction,
                key_pressed,
                0,
            ),
    {
        let random = if let Instruction::Random { .. } = instruction {
            next_byte(&mut self.rng)
        } else {
            0
        };
        // Drawing a byte changes the generator alone, which the view leaves out.
        assert(self@ == old(self)@);
        self.step(instruction, key_pressed, random)
    }

    /// Counts both timers down by one where a timer period has passed since
    /// the last update at instant `now` (nanoseconds).
    pub fn update_timers(&mut self, now: u64)
        ensures
            final(self)@ == tick(old(self)@, now),
            final(self).rng == old(self).rng,
    {
        if now >= self.last_clock && now - self.last_clock >= TIMER_PERIOD_NANOS {
            if self.delay_timer > 0 {
                self.delay_timer -= 1;
            }
            if self.sound_timer > 0 {
                self.sound_timer -= 1;
            }
            self.last_clock = now;
        }
    }

    /// One machine cycle at instant `now` (nanoseconds): check the program
    /// counter, update the timers, fetch the word, move past it, decode it
    /// and execute it.
    pub fn cycle(&mut self, key_pressed: Option<u8>, now: u64) -> (r: Result<Cycle, Fault>)
        ensures
            !pc_in_bounds(old(self).pc) ==> r == Err::<Cycle, Fault>(
                Fault::PcOutOfBounds { pc: old(self).pc },
            ) && final(self)@ == old(self)@,
            pc_in_bounds(old(self).pc) ==> ({
                let fetched = MachineState {
                    pc: (old(self).pc + 2) as usize,
                    ..tick(old(self)@, now)
                };
                let word = word_at(old(self)@.memory, old(self).pc as int);
                match decoded(word) {
                    None => r == Err::<Cycle, Fault>(
                        Fault::UnknownInstruction { word, address: old(self).pc },
                    ) && final(self)@ == fetched,
                    Some(ins) => exists|random: u8|
                        executed(fetched, final(self)@, r, ins, key_pressed, random),
                }
            }),
    {
        if !self.pc_inbounds() {
            return Err(Fault::PcOutOfBounds { pc: self.pc });
        }
        self.update_timers(now);
        let address = self.pc;
        let word = self.get_instruction();
        self.pc += 2;
        match decode(word) {
            Some(instruction) => self.execute(instruction, key_pressed),
            None => Err(Fault::UnknownInstruction { word, address }),
        }
    }

    /// Copies as much of `program` as fits into memory from the program
    /// start on, returning how many bytes were copied.
    pub fn read_program(&mut self, program: &[u8]) -> (r: usize)
        ensures
            r == if program@.len() < MEMORY_SIZE - INIT_INDEX {
                program@.len() as int
            } else {
                MEMORY_SIZE - INIT_INDEX
            },
            final(self)@ == (MachineState {
                memory: write_bytes(old(self)@.memory, INIT_INDEX as int, program@.take(r as int)),
                ..old(self)@
            }),
            final(self).rng == old(self).rng,
    {
        let n: usize = if program.len() < MEMORY_SIZE - INIT_INDEX {
            program.len()
        } else {
            MEMORY_SIZE - INIT_INDEX
        };
        let mut i: usize = 0;
        while i < n
            invariant
                i <= n <= program@.len(),
                n <= MEMORY_SIZE - INIT_INDEX,
                self.rng == old(self).rng,
                self@ == (MachineState {
                    memory: write_bytes(old(self)@.memory, INIT_INDEX as int, program@.take(i as int)),
                    ..old(self)@
                }),
            decreases n - i,
        {
            self.memory[INIT_INDEX + i] = program[i];
            i += 1;
            assert(self@.memory =~= write_bytes(
                old(self)@.memory,
                INIT_INDEX as int,
                program@.take(i as int),
            ));
        }
        n
    }

    /// Writes the display into an RGBA frame of 64 by 32 pixels: the first
    /// byte of each pixel becomes 255 where the pixel is lit and 0 where it
    /// is not; the other bytes are left as they were.
    pub fn draw(&self, frame: &mut [u8])
        requires
            old(frame)@.len() >= SCREEN_WIDTH * SCREEN_HEIGHT * 4,
        ensures
            final(frame)@ == rendered(screen_view(self.display), old(frame)@),
    {
        let mut p: usize = 0;
        while p < SCREEN_WIDTH * SCREEN_HEIGHT
            invariant
                p <= SCREEN_WIDTH * SCREEN_HEIGHT,
                frame@.len() == old(frame)@.len(),
                old(frame)@.len() >= SCREEN_WIDTH * SCREEN_HEIGHT * 4,
                forall|i: int|
                    0 <= i < frame@.len() ==> #[trigger] frame@[i] == if i < 4 * p && i % 4 == 0 {
                        rendered(screen_view(self.display), old(frame)@)[i]
                    } else {
                        old(frame)@[i]
                    },
            decreases SCREEN_WIDTH * SCREEN_HEIGHT - p,
        {
            let x = p % SCREEN_WIDTH;
            let y = p / SCREEN_WIDTH;
            let i = x * 4 + y * SCREEN_WIDTH * 4;
            assert(i == 4 * p);
            assert(i % 4 == 0 && i / 4 == p);
            assert(screen_view(self.display)[y as int][x as int] == self.display[y as int][x as int]);
            frame[i] = if self.display[y][x] { 255 } else { 0 };
            p += 1;
        }
        assert(frame@ =~= rendered(screen_view(self.display), old(frame)@));
    }

    /// The program as stored: from the program start, each word with its
    /// address and decoding, up to the first zero word or the end of memory.
    pub fn program_listing(&self) -> (r: Vec<(usize, u16, Option<Instruction>)>)
        ensures
            r@.len() <= (MEMORY_SIZE - INIT_INDEX) / 2,
            forall|k: int|
                0 <= k < r@.len() ==> {
                    let address = INIT_INDEX + 2 * k;
                    let word = word_at(self.memory@, address);
                    &&& #[trigger] r@[k] == (address as usize, word, decoded(word))
                    &&& word != 0
                },
            r@.len() < (MEMORY_SIZE - INIT_INDEX) / 2 ==> word_at(
                self.memory@,
                INIT_INDEX + 2 * r@.len(),
            ) == 0,
    {
        let mut listing: Vec<(usize, u16, Option<Instruction>)> = Vec::new();
        let mut address: usize = INIT_INDEX;
        while address < MEMORY_SIZE - 1
            invariant
                INIT_INDEX <= address <= MEMORY_SIZE,
                address % 2 == 0,
                listing@.len() == (address - INIT_INDEX) / 2,
                forall|k: int|
                    0 <= k < listing@.len() ==> {
                        let a = INIT_INDEX + 2 * k;
                        let word = word_at(self.memory@, a);
                        &&& #[trigger] listing@[k] == (a as usize, word, decoded(word))
                        &&& word != 0
                    },
            decreases MEMORY_SIZE - address,
        {
            let word = (self.memory[address] as u16) * 256 + (self.memory[address + 1] as u16);
            assert(word == word_at(self.memory@, address as int));
            if word == 0 {
                return listing;
            }
            listing.push((address, word, decode(word)));
            address += 2;
        }
        listing
    }
}

} // verus!

