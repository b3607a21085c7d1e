//! A CHIP-8 virtual machine: nibble extraction, instruction decoding, and a
//! verified state-transition function over registers, memory, call stack,
//! timers and a monochrome display.

mod bits;
mod chip8;
mod decode;
mod instruction;
mod laws;
mod random;
mod state;

pub use bits::{get_nibble, get_nibbles, n_set_bits, nibble_group, U12, U4};
pub use chip8::{executed, pc_steppable, rendered, screen_view, Chip8, Screen};
pub use decode::{decode, decoded, kk_of, n_of, nnn_of, opcode_of, x_of, y_of};
pub use instruction::{operands_in_range, Instruction};
pub use state::{
    bcd_digits, bit_of, blank_display, drawn, font, initial_state, next_state, pc_in_bounds,
    range_fits, set_reg, set_reg_flag, skip_if, sprite_covers, tick, well_formed, word_at,
    write_bytes, Cycle, Fault, MachineState, FLAG, INIT_INDEX, MEMORY_SIZE, SCREEN_HEIGHT,
    SCREEN_WIDTH, TIMER_PERIOD_NANOS,
};
pub use laws::{
    lemma_add_to_index_flag, lemma_draw_twice, lemma_nibble_round_trip, lemma_store_then_load,
    lemma_timer_rate, ticks,
};
