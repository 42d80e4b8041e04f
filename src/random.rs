use vstd::arithmetic::div_mod::{
    lemma_add_mod_noop, lemma_mod_add_multiples_vanish, lemma_small_mod,
};
use vstd::prelude::*;

verus! {

/// Multiplier of the 64-bit linear congruential step.
pub const PCG_MULTIPLIER: u64 = 6364136223846793005;

/// The state after one step: `state * PCG_MULTIPLIER + (inc | 1)` modulo 2^64.
pub open spec fn pcg_next_state(state: u64, inc: u64) -> u64 {
    ((state as int * PCG_MULTIPLIER as int + (inc | 1) as int) % 0x1_0000_0000_0000_0000) as u64
}

/// `x` rotated right by `r` places, for `r < 32`.
pub open spec fn rotate_right_u32(x: u32, r: u32) -> u32 {
    ((x >> r) | (x << ((32 - r) % 32) as u32)) as u32
}

/// The 32-bit word drawn from a state: the xorshift of the state, rotated right by its top
/// five bits.
pub open spec fn pcg_output(state: u64) -> u32 {
    rotate_right_u32((((state >> 18u64) ^ state) >> 27u64) as u32, (state >> 59u64) as u32)
}

/// A multiply and an add that both wrap give `a * b + c` modulo 2^64.
proof fn lemma_wrapping_mul_add(a: u64, b: u64, c: u64)
    ensures
        a.wrapping_mul(b).wrapping_add(c) == ((a as int * b as int + c as int)
            % 0x1_0000_0000_0000_0000) as u64,
{
    let m: int = 0x1_0000_0000_0000_0000;
    let product = a.wrapping_mul(b);
    lemma_add_mod_noop(a as int * b as int, c as int, m);
    lemma_small_mod(product as nat, m as nat);
    lemma_small_mod(c as nat, m as nat);
    if product + c >= m {
        lemma_mod_add_multiples_vanish(product + c - m, m);
        lemma_small_mod((product + c - m) as nat, m as nat);
    } else {
        lemma_small_mod((product + c) as nat, m as nat);
    }
}

#[allow(non_camel_case_types)]
struct Pcg32_random_t {
    state: u64,
    inc: u64,
}

impl Pcg32_random_t {
    /// Draws a word and advances the state by one step.
    fn pcg32_random_r(&mut self) -> (r: u32)
        ensures
            r == pcg_output(old(self).state),
            final(self).state == pcg_next_state(old(self).state, old(self).inc),
            final(self).inc == old(self).inc,
    {
        let old_state = self.state;
        let inc = self.inc;
        let next_state = old_state.wrapping_mul(PCG_MULTIPLIER).wrapping_add(inc | 1);
        proof {
            lemma_wrapping_mul_add(old_state, PCG_MULTIPLIER, inc | 1);
        }
        self.state = next_state;
        let xor_shifted: u32 = (#[verifier::truncate] ((((old_state >> 18u64) ^ old_state)
            >> 27u64) as u32));
        let rot: u32 = (#[verifier::truncate] ((old_state >> 59u64) as u32));
        assert(rot < 32) by (bit_vector)
            requires
                rot == (old_state >> 59u64) as u32,
        ;
        (xor_shifted >> rot) | (xor_shifted << ((32 - rot) % 32))
    }
}

/// The word `x` with its four bytes in reverse order.
pub open spec fn byte_swap_u32(x: u32) -> u32 {
    let b0 = x & 0xff;
    let b1 = (x >> 8u32) & 0xff;
    let b2 = (x >> 16u32) & 0xff;
    let b3 = (x >> 24u32) & 0xff;
    (b3 | (b2 << 8u32) | (b1 << 16u32) | (b0 << 24u32)) as u32
}

/// Bit pattern of the `f32` in [1, 2) whose 23 mantissa bits are the top 23 bits of the
/// byte-swapped word `w`: sign 0, exponent 127.
pub open spec fn unit_interval_bits(w: u32) -> u32 {
    (0x3F80_0000u32 | (byte_swap_u32(w) >> 9u32)) as u32
}

/// Odd multiplier that spreads consecutive pixel indices over the whole 64-bit seed space.
pub const PIXEL_SEED_STRIDE: u64 = 0x9E37_79B9_7F4A_7C15;

/// The seed of the generator of pixel `index` in a render seeded with `base_seed`.
pub open spec fn pixel_seed(base_seed: u64, index: u64) -> u64 {
    ((base_seed as int + index as int * PIXEL_SEED_STRIDE as int) % 0x1_0000_0000_0000_0000) as u64
}

/// A permuted congruential generator: a 64-bit state and an increment, advanced on every draw.
/// Its view is the pair (state, increment).
#[allow(non_camel_case_types)]
pub struct Rand_generator {
    pcg32_struct: Pcg32_random_t,
}

impl View for Rand_generator {
    type V = (u64, u64);

    closed spec fn view(&self) -> (u64, u64) {
        (self.pcg32_struct.state, self.pcg32_struct.inc)
    }
}

impl Rand_generator {
    /// A generator whose state is `state` and whose increment is the low 16 bits of `state`.
    pub fn new(state: u64) -> (r: Self)
        ensures
            r@ == (state, state & 65535),
    {
        let inc = state & 65535;
        Rand_generator { pcg32_struct: Pcg32_random_t { state, inc } }
    }

    /// The generator of pixel `index` (row-major) in a render seeded with `base_seed`: it
    /// depends on these two numbers alone, so a pixel draws the same values whichever worker
    /// renders it and in whatever order.
    pub fn for_pixel(base_seed: u64, index: u64) -> (r: Self)
        ensures
            r@ == (pixel_seed(base_seed, index), pixel_seed(base_seed, index) & 65535),
    {
        let seed = index.wrapping_mul(PIXEL_SEED_STRIDE).wrapping_add(base_seed);
        proof {
            lemma_wrapping_mul_add(index, PIXEL_SEED_STRIDE, base_seed);
        }
        Rand_generator::new(seed)
    }
}

/// Draws the next 32-bit output as an `i32` (the same bits) and advances the generator.
pub fn random_i32(rand_generator: &mut Rand_generator) -> (r: i32)
    ensures
        r == pcg_output(old(rand_generator)@.0) as i32,
        final(rand_generator)@ == (
            pcg_next_state(old(rand_generator)@.0, old(rand_generator)@.1),
            old(rand_generator)@.1,
        ),
{
    rand_generator.pcg32_struct.pcg32_random_r() as i32
}

/// Draws the next output and returns the bit pattern of a uniform `f32` in [1, 2) made from
/// it; subtracting 1 from that float gives a uniform value in [0, 1).
pub fn random_f32_bits(rand_generator: &mut Rand_generator) -> (r: u32)
    ensures
        r == unit_interval_bits(pcg_output(old(rand_generator)@.0)),
        r >> 23u32 == 127,
        final(rand_generator)@ == (
            pcg_next_state(old(rand_generator)@.0, old(rand_generator)@.1),
            old(rand_generator)@.1,
        ),
{
    let w = rand_generator.pcg32_struct.pcg32_random_r();
    let swapped: u32 = ((w >> 24u32) & 0xff) | (((w >> 16u32) & 0xff) << 8u32) | (((w >> 8u32)
        & 0xff) << 16u32) | ((w & 0xff) << 24u32);
    let bits: u32 = (127u32 << 23u32) | (swapped >> 9u32);
    assert(bits == unit_interval_bits(w) && bits >> 23u32 == 127) by (bit_vector)
        requires
            swapped == ((w >> 24u32) & 0xff) | (((w >> 16u32) & 0xff) << 8u32) | (((w >> 8u32)
                & 0xff) << 16u32) | ((w & 0xff) << 24u32),
            bits == (127u32 << 23u32) | (swapped >> 9u32),
    ;
    bits
}

} // verus!
