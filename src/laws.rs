use crate::bits::nibble_group;
use crate::instruction::Instruction;
use crate::state::{
    drawn, next_state, range_fits, sprite_covers, tick, well_formed, MachineState, FLAG,
    TIMER_PERIOD_NANOS,
};
use vstd::arithmetic::power2::{lemma2_to64, pow2};
use vstd::prelude::*;

verus! {

/// The four single nibbles of a word, put back in place, give the word; and
/// the group of all four nibbles is the word itself.
pub proof fn lemma_nibble_round_trip(w: u16)
    ensures
        nibble_group(w, 0, 1) * 0x1000 + nibble_group(w, 1, 1) * 0x100 + nibble_group(w, 2, 1)
            * 0x10 + nibble_group(w, 3, 1) == w,
        nibble_group(w, 0, 4) == w,
{
    lemma2_to64();
    assert(pow2(0) == 1 && pow2(4) == 16 && pow2(8) == 256 && pow2(12) == 4096 && pow2(16)
        == 65536);
    assert((w / 4096) % 16 * 4096 + ((w / 256) % 16) * 256 + ((w / 16) % 16) * 16 + (w / 1) % 16
        == w) by (bit_vector);
    assert(w as nat / 1 == w as nat);
    assert(w as nat % 0x10000 == w as nat);
    assert(nibble_group(w, 0, 4) == (w as nat / pow2(0)) % pow2(16));
}

/// Drawing the same sprite twice at the same place gives back the state
/// from before the first draw: each touched pixel is XOR-ed twice.
pub proof fn lemma_draw_twice(
    s: MachineState,
    x_r: u8,
    y_r: u8,
    height: u8,
    key: Option<u8>,
    random: u8,
)
    requires
        well_formed(s),
        x_r < 16,
        y_r < 16,
        height < 16,
        next_state(s, Instruction::Draw { x_r, y_r, height }, key, random) is Ok,
    ensures
        ({
            let ins = Instruction::Draw { x_r, y_r, height };
            let once = next_state(s, ins, key, random)->Ok_0.0;
            &&& next_state(once, ins, key, random) is Ok
            &&& next_state(once, ins, key, random)->Ok_0.0 == s
        }),
{
    let ins = Instruction::Draw { x_r, y_r, height };
    let once = next_state(s, ins, key, random)->Ok_0.0;
    let ax = (s.registers[x_r as int] % 64) as int;
    let ay = (s.registers[y_r as int] % 32) as int;
    assert(once.registers == s.registers && once.memory == s.memory && once.index == s.index);
    let twice = next_state(once, ins, key, random)->Ok_0.0;
    assert(twice.display =~~= s.display) by {
        assert forall|py: int, px: int| 0 <= py < 32 && 0 <= px < 64 implies #[trigger] twice.display[py][px]
            == s.display[py][px] by {
            let c = sprite_covers(s.memory, s.index as int, height as int, ax, ay, px, py);
            assert(once.display[py][px] == (s.display[py][px] != c));
            assert(twice.display[py][px] == (once.display[py][px] != c));
        }
    }
    assert(twice =~= s);
}

/// Storing registers `0..=x` to memory, then changing every register, then
/// loading `0..=x` back restores those registers exactly.
pub proof fn lemma_store_then_load(
    s: MachineState,
    changed: Seq<u8>,
    x: u8,
    key: Option<u8>,
    random: u8,
)
    requires
        well_formed(s),
        x < 16,
        range_fits(s.index, x + 1),
        changed.len() == 16,
    ensures
        ({
            let stored = next_state(s, Instruction::StoreMemory { register: x }, key, random);
            let cleared = MachineState { registers: changed, ..stored->Ok_0.0 };
            let loaded = next_state(cleared, Instruction::LoadMemory { register: x }, key, random);
            &&& stored is Ok
            &&& loaded is Ok
            &&& loaded->Ok_0.0.registers.subrange(0, x + 1) == s.registers.subrange(0, x + 1)
        }),
{
    let stored = next_state(s, Instruction::StoreMemory { register: x }, key, random);
    let cleared = MachineState { registers: changed, ..stored->Ok_0.0 };
    let loaded = next_state(cleared, Instruction::LoadMemory { register: x }, key, random);
    assert(loaded->Ok_0.0.registers.subrange(0, x + 1) =~= s.registers.subrange(0, x + 1));
}

/// The state after timer updates at each instant of `nows`, in order.
pub open spec fn ticks(s: MachineState, nows: Seq<u64>) -> MachineState
    decreases nows.len(),
{
    if nows.len() == 0 {
        s
    } else {
        tick(ticks(s, nows.drop_last()), nows.last())
    }
}

/// Over any run of timer updates at instants no later than `bound`, each
/// timer has counted down at most once per timer period elapsed from the
/// baseline to `bound`, however many updates there were.
pub proof fn lemma_timer_rate(s: MachineState, nows: Seq<u64>, bound: u64)
    requires
        s.last_clock <= bound,
        forall|i: int| 0 <= i < nows.len() ==> nows[i] <= bound,
    ensures
        ticks(s, nows).delay <= s.delay,
        ticks(s, nows).sound <= s.sound,
        (s.delay - ticks(s, nows).delay) * TIMER_PERIOD_NANOS <= bound - s.last_clock,
        (s.sound - ticks(s, nows).sound) * TIMER_PERIOD_NANOS <= bound - s.last_clock,
    decreases nows.len(),
{
    lemma_ticks_baseline(s, nows, bound);
}

/// The induction behind `lemma_timer_rate`: the count-downs so far fit in
/// the time from the first baseline to the current one.
proof fn lemma_ticks_baseline(s: MachineState, nows: Seq<u64>, bound: u64)
    requires
        s.last_clock <= bound,
        forall|i: int| 0 <= i < nows.len() ==> nows[i] <= bound,
    ensures
        s.last_clock <= ticks(s, nows).last_clock <= bound,
        ticks(s, nows).delay <= s.delay,
        ticks(s, nows).sound <= s.sound,
        (s.delay - ticks(s, nows).delay) * TIMER_PERIOD_NANOS <= ticks(s, nows).last_clock
            - s.last_clock,
        (s.sound - ticks(s, nows).sound) * TIMER_PERIOD_NANOS <= ticks(s, nows).last_clock
            - s.last_clock,
    decreases nows.len(),
{
    if nows.len() > 0 {
        let prefix = nows.drop_last();
        assert forall|i: int| 0 <= i < prefix.len() implies prefix[i] <= bound by {
            assert(prefix[i] == nows[i]);
        }
        lemma_ticks_baseline(s, prefix, bound);
        assert(nows.last() == nows[nows.len() - 1]);
    }
}

/// Adding a register to the index register sets the flag register to 1
/// exactly when the 16-bit sum overflows, and to 0 otherwise; the index
/// wraps modulo 2^16.
pub proof fn lemma_add_to_index_flag(s: MachineState, r: u8, key: Option<u8>, random: u8)
    requires
        well_formed(s),
        r < 16,
    ensures
        ({
            let t = next_state(s, Instruction::AddToIndex { register: r }, key, random);
            let sum = s.index + s.registers[r as int];
            &&& t is Ok
            &&& t->Ok_0.0.registers[FLAG as int] == if sum > 0xFFFF {
                1u8
            } else {
                0u8
            }
            &&& t->Ok_0.0.index == sum % 0x10000
        }),
{
}

} // verus!
