//! Entropy mixing and a downward-growing stack model used when building
//! a fresh user stack image.
//!
//! The stack builder records the machine words it pushes, highest
//! address first; writing those words into real memory is the hardware
//! edge and stays outside the verified library.

use crate::devices::{rng_step, RNG_SEED};
use vstd::prelude::*;

verus! {

/// The mixing state after folding in the first `n` entropy words,
/// starting from the fixed seed.
pub open spec fn mix_state(entropy: Seq<u64>, n: int) -> u64
    decreases n,
{
    if n <= 0 {
        RNG_SEED
    } else {
        rng_step(mix_state(entropy, n - 1) ^ entropy[n - 1])
    }
}

/// The low word `generate_random_bytes` derives from `entropy`.
pub open spec fn mix_low(entropy: Seq<u64>) -> u64 {
    mix_state(entropy, entropy.len() as int)
}

/// The high word `generate_random_bytes` derives from `entropy`.
pub open spec fn mix_high(entropy: Seq<u64>) -> u64 {
    rng_step(mix_low(entropy))
}

/// Deterministically derive sixteen bytes of startup entropy, as two
/// machine words, from the given entropy inputs.
pub fn generate_random_bytes(entropy: &[u64]) -> (r: (u64, u64))
    ensures
        r.0 == mix_low(entropy@),
        r.1 == mix_high(entropy@),
{
    let mut state: u64 = RNG_SEED;
    let n = entropy.len();
    let mut i: usize = 0;
    while i < n
        invariant
            i <= n,
            n == entropy@.len(),
            state == mix_state(entropy@, i as int),
        decreases n - i,
    {
        state = state ^ entropy[i];
        state = state.wrapping_mul(0x5851f42d4c957f2d);
        state = state ^ (state >> 33);
        i = i + 1;
    }

    let random_low = state;
    state = state.wrapping_mul(0x5851f42d4c957f2d);
    state = state ^ (state >> 33);
    let random_high = state;

    (random_low, random_high)
}

/// A stack that grows downward from a fixed top address, recording each
/// machine word it pushes instead of writing memory.
///
/// The recorded words stand in push order, so the word pushed `k`-th
/// belongs at address `top - (k + 1) * size_of::<usize>()`.
pub struct DownwardStack {
    sp: usize,
    bottom: usize,
    words: Vec<usize>,
}

impl DownwardStack {
    /// The current stack pointer.
    pub closed spec fn sp_spec(&self) -> usize {
        self.sp
    }

    /// The lowest address the stack may grow to.
    pub closed spec fn bottom_spec(&self) -> usize {
        self.bottom
    }

    /// The words pushed so far, in push order.
    pub closed spec fn words_spec(&self) -> Seq<usize> {
        self.words@
    }

    /// Create an empty stack growing down from `stack_top`.
    pub fn new(stack_top: usize, buffer_bottom: usize) -> (ds: DownwardStack)
        ensures
            ds.sp_spec() == stack_top,
            ds.bottom_spec() == buffer_bottom,
            ds.words_spec() == Seq::<usize>::empty(),
    {
        DownwardStack { sp: stack_top, bottom: buffer_bottom, words: Vec::new() }
    }

    /// Push one machine word, moving the stack pointer down by the word
    /// size. The stack must have room: running past its bottom is a
    /// programming error.
    pub fn push(&mut self, val: usize)
        requires
            old(self).bottom_spec() + vstd::layout::size_of::<usize>() <= old(self).sp_spec(),
        ensures
            final(self).sp_spec() == old(self).sp_spec() - vstd::layout::size_of::<usize>(),
            final(self).bottom_spec() == old(self).bottom_spec(),
            final(self).words_spec() == old(self).words_spec().push(val),
    {
        vstd::layout::layout_for_type_is_valid::<usize>();
        let word = core::mem::size_of::<usize>();
        self.sp = self.sp - word;
        self.words.push(val);
    }

    /// The current stack pointer.
    pub fn sp(&self) -> (sp: usize)
        ensures
            sp == self.sp_spec(),
    {
        self.sp
    }
}

} // verus!
