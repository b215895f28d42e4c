//! The generation counter and the rule that decides what a waiting consumer may
//! take from the slot.

use vstd::prelude::*;

verus! {

/// The generation that follows `generation`: one more, and zero after `u32::MAX`.
pub open spec fn spec_next_generation(generation: u32) -> u32 {
    if generation == u32::MAX {
        0
    } else {
        (generation + 1) as u32
    }
}

/// The generation reached from `generation` by `steps` announces.
pub open spec fn spec_advance(generation: u32, steps: nat) -> u32
    decreases steps,
{
    if steps == 0 {
        generation
    } else {
        spec_next_generation(spec_advance(generation, (steps - 1) as nat))
    }
}

/// What a consumer that waits for `target` takes from a slot that holds
/// `message` at generation `generation`: the message once the counter has
/// reached the target, nothing before.
pub open spec fn spec_delivery<T>(target: u32, generation: u32, message: Option<T>) -> Option<T> {
    if target <= generation {
        message
    } else {
        None
    }
}

/// Computes the generation that an announce moves the counter to.
pub fn next_generation(generation: u32) -> (next: u32)
    ensures
        next == spec_next_generation(generation),
{
    if generation == u32::MAX {
        0
    } else {
        generation + 1
    }
}

/// Decides what a registered consumer takes, from the counter and the slot as
/// it observed them.
pub fn delivery<T: Copy>(target: u32, generation: u32, message: Option<T>) -> (taken: Option<T>)
    ensures
        taken == spec_delivery(target, generation, message),
{
    if target <= generation {
        message
    } else {
        None
    }
}

/// Counting up from `generation` through `steps` announces gives
/// `generation + steps` modulo 2^32. In particular the counter never goes down
/// except where it wraps to zero.
pub proof fn lemma_advance_is_modular(generation: u32, steps: nat)
    ensures
        spec_advance(generation, steps) as int == (generation as int + steps as int) % 0x1_0000_0000,
        generation + steps <= u32::MAX ==> spec_advance(generation, steps) == generation + steps,
    decreases steps,
{
    if steps > 0 {
        lemma_advance_is_modular(generation, (steps - 1) as nat);
        let before = generation as int + steps as int - 1;
        assert((before % 0x1_0000_0000 + 1) % 0x1_0000_0000 == (before + 1) % 0x1_0000_0000) by {
            vstd::arithmetic::div_mod::lemma_add_mod_noop(before, 1, 0x1_0000_0000);
        }
    }
}

} // verus!
