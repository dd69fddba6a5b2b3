use vstd::prelude::*;

use crate::attack::{sound_index, wut_sound_to_play, AttackSound};

verus! {

/// Relies on rand 0.8's `Rng::gen_range` with the thread-local generator: on the
/// non-empty range `0..n` it returns a value below `n` (it panics on an empty range).
#[verifier::external_body]
fn random_below(n: usize) -> (r: usize)
    requires
        n > 0,
    ensures
        r < n,
{
    rand::Rng::gen_range(&mut rand::thread_rng(), 0..n)
}

/// Picks one of `n` interchangeable variants (of a sound) at random; `None` when there
/// is none to pick.
pub fn choose_variant(n: usize) -> (r: Option<usize>)
    ensures
        n == 0 ==> r is None,
        n > 0 ==> (r matches Some(i) && i < n),
{
    if n == 0 {
        None
    } else {
        Some(random_below(n))
    }
}

/// Which clip an attack sound plays: a hit or a miss picks its pitch from the reaction
/// delay; a swing picks one of its `slash_variants` clips at random.
pub fn play_attack_sound(sound: AttackSound, slash_variants: usize) -> (r: Option<usize>)
    ensures
        match sound {
            AttackSound::Hit(delay) => r == Some(sound_index(delay)),
            AttackSound::Miss(delay) => r == Some(sound_index(delay)),
            AttackSound::Slash => (slash_variants == 0 ==> r is None) && (slash_variants > 0 ==> (
            r matches Some(i) && i < slash_variants)),
        },
{
    match sound {
        AttackSound::Hit(delay) => Some(wut_sound_to_play(delay)),
        AttackSound::Miss(delay) => Some(wut_sound_to_play(delay)),
        AttackSound::Slash => choose_variant(slash_variants),
    }
}

} // verus!
