//! Per-task pseudorandom streams.

use vstd::prelude::*;

verus! {

/// Multiplier of the linear congruential step (Knuth's MMIX constants).
pub const LCG_MULTIPLIER: u64 = 6364136223846793005;

/// Increment of the linear congruential step.
pub const LCG_INCREMENT: u64 = 1442695040888963407;

/// Mixed into a task index to form the generator's first state.
pub const SEED_MIX: u64 = 0x853c_49e6_748f_ea9b;

/// A source of uniformly distributed 32-bit words.
pub trait RNG {
    /// The next word of the stream.
    fn uniform_u32(&mut self) -> u32;
}

/// The state that follows `s`.
pub open spec fn lcg_next(s: u64) -> u64 {
    ((s as int * LCG_MULTIPLIER as int + LCG_INCREMENT as int) % 0x1_0000_0000_0000_0000) as u64
}

/// The word drawn from state `s`: its high 32 bits.
pub open spec fn lcg_output(s: u64) -> u32 {
    (s / 0x1_0000_0000) as u32
}

/// The state after `n` steps from `s`.
pub open spec fn lcg_advance(s: u64, n: nat) -> u64
    decreases n,
{
    if n == 0 {
        s
    } else {
        lcg_next(lcg_advance(s, (n - 1) as nat))
    }
}

/// The first `n` words of the stream that starts in state `s`.
pub open spec fn lcg_stream(s: u64, n: nat) -> Seq<u32>
    decreases n,
{
    if n == 0 {
        Seq::empty()
    } else {
        lcg_stream(s, (n - 1) as nat).push(lcg_output(lcg_advance(s, n)))
    }
}

/// The first state of the generator of task `task_idx`.
pub open spec fn task_seed(task_idx: u64) -> u64 {
    task_idx ^ SEED_MIX
}

/// A linear congruential generator; each task owns one.
#[derive(Clone, Copy, Debug)]
pub struct PseudoRNG {
    state: u64,
}

impl View for PseudoRNG {
    type V = u64;

    closed spec fn view(&self) -> u64 {
        self.state
    }
}

impl PseudoRNG {
    /// The generator of task `task_idx`: its stream depends on the index alone.
    pub fn new(task_idx: u64) -> (r: PseudoRNG)
        ensures
            r@ == task_seed(task_idx),
    {
        PseudoRNG { state: task_idx ^ SEED_MIX }
    }

    /// Steps the state and returns the high half of the new state.
    pub fn next_u32(&mut self) -> (r: u32)
        ensures
            final(self)@ == lcg_next(old(self)@),
            r == lcg_output(final(self)@),
    {
        let product: u64 = self.state.wrapping_mul(LCG_MULTIPLIER);
        self.state = product.wrapping_add(LCG_INCREMENT);
        proof {
            let s = old(self)@ as int;
            let m = 0x1_0000_0000_0000_0000int;
            assert(product as int == (s * LCG_MULTIPLIER as int) % m);
            assert(self.state as int == (product as int + LCG_INCREMENT as int) % m);
            vstd::arithmetic::div_mod::lemma_add_mod_noop(
                s * LCG_MULTIPLIER as int,
                LCG_INCREMENT as int,
                m,
            );
            vstd::arithmetic::div_mod::lemma_small_mod(LCG_INCREMENT as nat, m as nat);
        }
        let state: u64 = self.state;
        assert((state >> 32u64) as u32 == (state / 0x1_0000_0000u64) as u32) by (bit_vector);
        (self.state >> 32) as u32
    }
}

impl RNG for PseudoRNG {
    fn uniform_u32(&mut self) -> (r: u32)
        ensures
            final(self)@ == lcg_next(old(self)@),
            r == lcg_output(final(self)@),
    {
        self.next_u32()
    }
}

/// Two tasks with different indices start from different states, so no
/// stream is shared between tasks.
pub proof fn lemma_task_seeds_distinct(a: u64, b: u64)
    requires
        a != b,
    ensures
        task_seed(a) != task_seed(b),
{
    assert(a ^ SEED_MIX != b ^ SEED_MIX) by (bit_vector)
        requires
            a != b,
    ;
}

} // verus!

verus! {

/// Reproducibility: a task's generator depends on the task index alone, so
/// two renders with the same task count draw the same words in every task,
/// while tasks with different indices start from different states.
pub proof fn lemma_task_streams(a: u64, b: u64, n: nat)
    ensures
        a == b ==> lcg_stream(task_seed(a), n) == lcg_stream(task_seed(b), n),
        a != b ==> task_seed(a) != task_seed(b),
{
    if a != b {
        lemma_task_seeds_distinct(a, b);
    }
}

} // verus!
