//! How an image is split into independent rendering tasks.

use vstd::prelude::*;

verus! {

/// Number of pixels that one task covers at least, when the image is large.
pub const PIXELS_PER_TASK: u64 = 256;

/// Number of tasks handed to each worker thread at least.
pub const TASKS_PER_CPU: u64 = 32;

/// `2` to the power `k`.
pub open spec fn pow2(k: nat) -> nat
    decreases k,
{
    if k == 0 {
        1
    } else {
        2 * pow2((k - 1) as nat)
    }
}

/// `t` is a power of two.
pub open spec fn is_pow2(t: int) -> bool {
    exists|k: nat| pow2(k) == t
}

/// The smallest power of two that is at least `x`: `t` is one.
pub open spec fn is_next_pow2(t: int, x: int) -> bool {
    &&& is_pow2(t)
    &&& t >= x
    &&& (t == 1 || t < 2 * x)
}

/// The number of tasks must cover each thread many times and keep each task
/// small: the larger of the two demands.
pub open spec fn task_base(num_cpus: int, num_pixels: int) -> int {
    let by_cpus = TASKS_PER_CPU * num_cpus;
    let by_pixels = num_pixels / PIXELS_PER_TASK as int;
    if by_cpus >= by_pixels {
        by_cpus
    } else {
        by_pixels
    }
}

/// Number of tasks for an image of `num_pixels` pixels rendered by
/// `num_cpus` threads: the next power of two at or above
/// `max(32 * num_cpus, num_pixels / 256)`.
pub fn task_count(num_cpus: u32, num_pixels: u64) -> (t: u64)
    ensures
        is_next_pow2(t as int, task_base(num_cpus as int, num_pixels as int)),
{
    let by_cpus: u64 = TASKS_PER_CPU * (num_cpus as u64);
    let by_pixels: u64 = num_pixels / PIXELS_PER_TASK;
    let base: u64 = if by_cpus >= by_pixels {
        by_cpus
    } else {
        by_pixels
    };
    assert(base <= 0x100_0000_0000_0000) by {
        assert(by_pixels <= 0x100_0000_0000_0000);
    }
    let mut t: u64 = 1;
    let ghost mut k: nat = 0;
    while t < base
        invariant
            base <= 0x100_0000_0000_0000,
            t == pow2(k),
            1 <= t,
            t == 1 || t < 2 * base,
        decreases 2 * base - t,
    {
        t = t * 2;
        proof {
            k = k + 1;
            assert(pow2(k) == 2 * pow2((k - 1) as nat));
        }
    }
    t
}

/// The task count is a power of two, at least `max(32 * cpus, pixels / 256)`,
/// and no larger than it need be: halving it would fall below that bound.
pub proof fn lemma_task_count(num_cpus: u32, num_pixels: u64, t: u64)
    requires
        is_next_pow2(t as int, task_base(num_cpus as int, num_pixels as int)),
    ensures
        is_pow2(t as int),
        t >= TASKS_PER_CPU * num_cpus,
        t >= num_pixels / PIXELS_PER_TASK,
        t == 1 || t / 2 < task_base(num_cpus as int, num_pixels as int),
{
}

} // verus!
