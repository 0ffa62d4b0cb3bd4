//! A fast random number generator of low quality.

use vstd::prelude::*;
use core::sync::atomic::{AtomicU64, Ordering};
use crate::common::sync::InitOnce;
use crate::common::time::UnixEpochTime;

verus! {

/// The multiplier of xorshift*.
pub const XORSHIFT_MULTIPLIER: u64 = 0x2545f4914f6cdd1d;

/// The state that follows `state`.
pub open spec fn next_state(state: u64) -> u64 {
    let first = state ^ (state >> 12);
    let second = first ^ (first << 25);
    second ^ (second >> 27)
}

/// The state that a generator seeded with `seed` starts in: the seed, or
/// all ones where the seed is zero.
pub open spec fn initial_state(seed: u64) -> u64 {
    if seed > 0 {
        seed
    } else {
        u64::MAX
    }
}

/// Computes `next_state(state)`.
pub fn advance(state: u64) -> (next: u64)
    ensures
        next == next_state(state),
{
    let mut value = state;
    value = value ^ (value >> 12);
    value = value ^ (value << 25);
    value = value ^ (value >> 27);
    value
}

/// The number that the generator puts out on reaching `state`.
pub fn output(state: u64) -> (number: u64)
    ensures
        number == vstd::wrapping::u64_specs::wrapping_mul(state, XORSHIFT_MULTIPLIER),
{
    state.wrapping_mul(XORSHIFT_MULTIPLIER)
}

/// A state that is not zero is never followed by zero, so a generator that
/// starts in a state that is not zero never gets stuck.
pub proof fn lemma_state_stays_nonzero(state: u64)
    requires
        state != 0,
    ensures
        next_state(state) != 0,
{
    assert(next_state(state) != 0) by (bit_vector)
        requires
            state != 0,
    ;
}

/// `AtomicU64::fetch_update` with the step of the generator: replaces the
/// state by the state that follows it, in one atomic step, and returns the
/// state that was replaced. What that state was depends on the other cores.
#[verifier::external_body]
fn step_state(state: &AtomicU64) -> (previous: u64) {
    match state.fetch_update(Ordering::SeqCst, Ordering::SeqCst, |old| Some(advance(old))) {
        Ok(previous) => previous,
        Err(previous) => previous,
    }
}

/// Computes `initial_state(seed)`.
pub fn seed_state(seed: u64) -> (state: u64)
    ensures
        state == initial_state(seed),
        state != 0,
{
    // seed must be nonzero
    if seed > 0 {
        seed
    } else {
        u64::MAX
    }
}

/// Xorshift*
pub struct XorshiftStar {
    state: AtomicU64,
    first: Ghost<u64>,
}

impl XorshiftStar {
    /// The state that the generator was created in.
    pub closed spec fn first_state(&self) -> u64 {
        self.first@
    }

    /// A generator that starts in `initial_state(seed)`.
    pub fn new(seed: u64) -> (generator: Self)
        ensures
            generator.first_state() == initial_state(seed),
            generator.first_state() != 0,
    {
        let state = seed_state(seed);
        XorshiftStar { state: AtomicU64::new(state), first: Ghost(state) }
    }

    /// Moves the generator on by one state and returns the number of the new
    /// state.
    pub fn next(&self) -> u64 {
        let previous = step_state(&self.state);
        output(advance(previous))
    }
}

/// The seed that the weak generator is started with.
pub open spec fn weak_seed(time: UnixEpochTime, time_stamp: u64) -> u64 {
    time.0 ^ time_stamp
}

/// Computes `weak_seed(time, time_stamp)`.
pub fn mix_seed(time: UnixEpochTime, time_stamp: u64) -> (seed: u64)
    ensures
        seed == weak_seed(time, time_stamp),
{
    time.millis() ^ time_stamp
}

/// Starts the weak generator of `gate` with a seed made of the time and the
/// time stamp counter.
///
/// The generator is started once: `completed` is what the caller has just
/// read from `gate.is_completed()`, and a caller that has read `true` must
/// not call.
pub fn weak_initialize(
    completed: bool,
    gate: &InitOnce<XorshiftStar>,
    time: UnixEpochTime,
    time_stamp: u64,
)
    requires
        !completed,
{
    let make = || -> (generator: XorshiftStar)
        ensures
            generator.first_state() == initial_state(weak_seed(time, time_stamp)),
        { XorshiftStar::new(mix_seed(time, time_stamp)) };
    let _ = gate.initialize(make);
}

/// A handle to the weak generator of `gate`, if it has been started.
pub fn weak<'a>(gate: &'a InitOnce<XorshiftStar>) -> Option<WeakRng<'a>> {
    WeakRng::of(gate.get())
}

/// A handle to a generator that is shared by all cores.
#[derive(Clone, Copy)]
pub struct WeakRng<'a>(&'a XorshiftStar);

impl<'a> WeakRng<'a> {
    /// The generator that the handle leads to.
    pub closed spec fn generator(&self) -> &'a XorshiftStar {
        self.0
    }

    pub fn new(rng: &'a XorshiftStar) -> (handle: Self)
        ensures
            handle.generator() == rng,
    {
        WeakRng(rng)
    }

    /// A handle to the generator that was found, if one was found.
    pub fn of(found: Option<&'a XorshiftStar>) -> (handle: Option<Self>)
        ensures
            match found {
                Some(rng) => handle matches Some(made) && made.generator() == rng,
                None => handle is None,
            },
    {
        match found {
            Some(generator) => Some(WeakRng::new(generator)),
            None => None,
        }
    }

    pub fn next(&self) -> u64 {
        self.0.next()
    }
}

} // verus!
