use vstd::arithmetic::power2::{lemma2_to64, pow2};
use vstd::bits::{
    lemma_u16_low_bits_mask_is_mod, lemma_u16_pow2_no_overflow, lemma_u16_shl_is_mul,
    lemma_u16_shr_is_div, low_bits_mask,
};
use vstd::prelude::*;

verus! {

/// A 4-bit value held in a byte.
pub type U4 = u8;

/// A 12-bit value held in a 16-bit word.
pub type U12 = u16;

/// The group of `width` nibbles of `w` that starts at nibble `index`, where
/// nibble 0 is the most significant, shifted down to the low bits.
pub open spec fn nibble_group(w: u16, index: nat, width: nat) -> nat {
    (w as nat / pow2(4 * (4 - index - width) as nat)) % pow2(4 * width)
}

/// A mask with the low `num_bits` bits set.
pub fn n_set_bits(num_bits: u8) -> (r: u16)
    requires
        num_bits < 16,
    ensures
        r == pow2(num_bits as nat) - 1,
        r == low_bits_mask(num_bits as nat),
{
    proof {
        lemma_u16_pow2_no_overflow(num_bits as nat);
        lemma_u16_shl_is_mul(1u16, num_bits as u16);
    }
    (1u16 << num_bits) - 1
}

/// The `num_nibbles` nibbles of `instruction` starting at nibble `index`
/// (0 is the most significant), right-aligned.
pub fn get_nibbles(instruction: u16, index: u8, num_nibbles: u8) -> (r: u16)
    requires
        1 <= num_nibbles <= 4,
        index + num_nibbles <= 4,
    ensures
        r == nibble_group(instruction, index as nat, num_nibbles as nat),
{
    let right_index: u8 = index + num_nibbles - 1;
    let shift: u16 = ((3 - right_index) * 4) as u16;
    let shifted = instruction >> shift;
    proof {
        lemma_u16_shr_is_div(instruction, shift);
        lemma2_to64();
        assert(shift as nat == 4 * (4 - index - num_nibbles) as nat);
    }
    if num_nibbles == 4 {
        proof {
            assert(shift == 0);
            assert(instruction as nat % 0x10000 == instruction as nat);
            assert(pow2(0) == 1 && pow2(16) == 0x10000);
            assert(instruction as nat / 1 == instruction as nat);
            assert(nibble_group(instruction, 0, 4) == instruction as nat);
        }
        shifted
    } else {
        let mask = n_set_bits(num_nibbles * 4);
        proof {
            lemma_u16_low_bits_mask_is_mod(shifted, (num_nibbles * 4) as nat);
            lemma_u16_pow2_no_overflow((num_nibbles * 4) as nat);
            assert((num_nibbles * 4) as nat == 4 * num_nibbles as nat);
            assert(shifted as nat == instruction as nat / pow2(4 * (4 - index - num_nibbles) as nat));
            assert((shifted & mask) as nat == shifted as nat % pow2(4 * num_nibbles as nat));
        }
        shifted & mask
    }
}

/// The single nibble of `instruction` at `index` (0 is the most significant).
pub fn get_nibble(instruction: u16, index: u8) -> (r: u8)
    requires
        index <= 3,
    ensures
        r == nibble_group(instruction, index as nat, 1),
        r < 16,
{
    let v = get_nibbles(instruction, index, 1);
    proof {
        lemma2_to64();
    }
    v as u8
}

} // verus!
