//! A source of draws that can be repeated.
//!
//! Sampling takes a number from the caller with every choice. Where the
//! caller has no source of its own, this one gives the same numbers for the
//! same seed, so that a sampled transcript can be made again.

use vstd::prelude::*;

verus! {

/// The state that a seed of zero stands for: the generator cannot leave a
/// state of zero.
pub const ZERO_SEED: u64 = 0x9E37_79B9_7F4A_7C15;

/// The state that follows `state`: three shifts, each folded back into the
/// state.
pub open spec fn spec_next_state(state: u64) -> u64 {
    let a = state ^ (state << 13);
    let b = a ^ (a >> 7);
    b ^ (b << 17)
}

/// The state that a generator seeded with `seed` starts from.
pub open spec fn spec_seeded(seed: u64) -> u64 {
    if seed == 0 {
        ZERO_SEED
    } else {
        seed
    }
}

/// A state other than zero is followed by a state other than zero.
pub proof fn lemma_state_stays_alive(state: u64)
    requires
        state != 0,
    ensures
        spec_next_state(state) != 0,
{
    let a = state ^ (state << 13);
    let b = a ^ (a >> 7);
    assert(state != 0 ==> state ^ (state << 13) != 0) by (bit_vector);
    assert(a != 0 ==> a ^ (a >> 7) != 0) by (bit_vector);
    assert(b != 0 ==> b ^ (b << 17) != 0) by (bit_vector);
}

/// A generator of draws that is fixed by its seed.
pub struct SeededDraws {
    state: u64,
}

impl SeededDraws {
    #[verifier::type_invariant]
    spec fn inv(self) -> bool {
        self.state != 0
    }

    /// The state of the generator: the draw that it gave last, or what its
    /// seed stands for where it gave none.
    pub closed spec fn spec_state(self) -> u64 {
        self.state
    }

    /// The generator for `seed`.
    pub fn new(seed: u64) -> (draws: SeededDraws)
        ensures
            draws.spec_state() == spec_seeded(seed),
    {
        if seed == 0 {
            SeededDraws { state: ZERO_SEED }
        } else {
            SeededDraws { state: seed }
        }
    }

    /// The next draw: the state that follows the state of the generator,
    /// which becomes its state.
    pub fn next_draw(&mut self) -> (draw: u64)
        ensures
            draw == spec_next_state(old(self).spec_state()),
            final(self).spec_state() == draw,
            draw != 0,
    {
        proof {
            use_type_invariant(&*self);
            lemma_state_stays_alive(self.state);
        }
        let a: u64 = self.state ^ (self.state << 13);
        let b: u64 = a ^ (a >> 7);
        let next: u64 = b ^ (b << 17);
        *self = SeededDraws { state: next };
        next
    }
}

} // verus!
