use vstd::prelude::*;

use crate::attack::{
    fury_bounds, fury_delay, fury_scale, next_position, resolve_spec, Attack, AttackPosition,
    INITIAL_ATTACK_DELAY, INITIAL_EXTEND_SCALE, MINIMUM_ATTACK_DELAY, MINIMUM_EXTEND_SCALE,
};

verus! {

/// Delay and weapon length after a sequence of swing outcomes (`true` for a hit).
pub open spec fn fury_after(delay: int, scale: int, outcomes: Seq<bool>) -> (int, int)
    decreases outcomes.len(),
{
    if outcomes.len() == 0 {
        (delay, scale)
    } else {
        let prev = fury_after(delay, scale, outcomes.drop_last());
        (fury_delay(prev.0, outcomes.last()), fury_scale(prev.1, outcomes.last()))
    }
}

/// The attack after a sequence of swing resolutions.
pub open spec fn resolve_all(a: Attack, outcomes: Seq<bool>) -> Attack
    decreases outcomes.len(),
{
    if outcomes.len() == 0 {
        a
    } else {
        resolve_spec(resolve_all(a, outcomes.drop_last()), outcomes.last())
    }
}

/// Hits and misses in any order keep the delay within its floor and starting value,
/// and the weapon length within its floor and starting value.
pub proof fn lemma_fury_stays_in_bounds(delay: int, scale: int, outcomes: Seq<bool>)
    requires
        fury_bounds(delay, scale),
    ensures
        fury_bounds(fury_after(delay, scale, outcomes).0, fury_after(delay, scale, outcomes).1),
    decreases outcomes.len(),
{
    if outcomes.len() > 0 {
        lemma_fury_stays_in_bounds(delay, scale, outcomes.drop_last());
    }
}

/// Each hit brings the delay and the length at least a fifth of the way down to their
/// floors; each miss raises them by a fifth (rounded down) or to their ceilings.
pub proof fn lemma_fury_step_is_geometric(delay: int, scale: int)
    requires
        fury_bounds(delay, scale),
    ensures
        5 * (fury_delay(delay, true) - MINIMUM_ATTACK_DELAY) <= 4 * (delay - MINIMUM_ATTACK_DELAY),
        5 * (fury_scale(scale, true) - MINIMUM_EXTEND_SCALE) <= 4 * (scale - MINIMUM_EXTEND_SCALE),
        fury_delay(delay, false) == INITIAL_ATTACK_DELAY || 5 * fury_delay(delay, false) >= 6 * delay - 4,
        fury_scale(scale, false) == INITIAL_EXTEND_SCALE || 5 * fury_scale(scale, false) >= 6 * scale - 4,
{
}

/// Upper bounds on the delay and the weapon length after `k` hits from the ceiling:
/// four fifths per hit, rounded down, as the formula does.
pub open spec fn hit_delay_bound(k: nat) -> int
    decreases k,
{
    if k == 0 { INITIAL_ATTACK_DELAY as int } else { hit_delay_bound((k - 1) as nat) * 4 / 5 }
}

pub open spec fn hit_scale_bound(k: nat) -> int
    decreases k,
{
    if k == 0 { INITIAL_EXTEND_SCALE as int } else { hit_scale_bound((k - 1) as nat) * 4 / 5 }
}

/// Lower bounds on the delay and the weapon length after `k` misses from the floor:
/// six fifths per miss, rounded down.
pub open spec fn miss_delay_bound(k: nat) -> int
    decreases k,
{
    if k == 0 { MINIMUM_ATTACK_DELAY as int } else { miss_delay_bound((k - 1) as nat) * 6 / 5 }
}

pub open spec fn miss_scale_bound(k: nat) -> int
    decreases k,
{
    if k == 0 { MINIMUM_EXTEND_SCALE as int } else { miss_scale_bound((k - 1) as nat) * 6 / 5 }
}

proof fn lemma_bound_values()
    ensures
        hit_delay_bound(16) == 56294,
        hit_delay_bound(17) == 45035,
        hit_scale_bound(9) == 1072,
        hit_scale_bound(10) == 857,
        miss_delay_bound(20) == 1916841,
        miss_delay_bound(21) == 2300209,
        miss_scale_bound(11) == 7423,
        miss_scale_bound(12) == 8907,
{
    assert(hit_delay_bound(0) == 2000000);
    assert(hit_delay_bound(1) == 1600000);
    assert(hit_delay_bound(2) == 1280000);
    assert(hit_delay_bound(3) == 1024000);
    assert(hit_delay_bound(4) == 819200);
    assert(hit_delay_bound(5) == 655360);
    assert(hit_delay_bound(6) == 524288);
    assert(hit_delay_bound(7) == 419430);
    assert(hit_delay_bound(8) == 335544);
    assert(hit_delay_bound(9) == 268435);
    assert(hit_delay_bound(10) == 214748);
    assert(hit_delay_bound(11) == 171798);
    assert(hit_delay_bound(12) == 137438);
    assert(hit_delay_bound(13) == 109950);
    assert(hit_delay_bound(14) == 87960);
    assert(hit_delay_bound(15) == 70368);
    assert(hit_delay_bound(16) == 56294);
    assert(hit_delay_bound(17) == 45035);
    assert(hit_scale_bound(0) == 8000);
    assert(hit_scale_bound(1) == 6400);
    assert(hit_scale_bound(2) == 5120);
    assert(hit_scale_bound(3) == 4096);
    assert(hit_scale_bound(4) == 3276);
    assert(hit_scale_bound(5) == 2620);
    assert(hit_scale_bound(6) == 2096);
    assert(hit_scale_bound(7) == 1676);
    assert(hit_scale_bound(8) == 1340);
    assert(hit_scale_bound(9) == 1072);
    assert(hit_scale_bound(10) == 857);
    assert(miss_delay_bound(0) == 50000);
    assert(miss_delay_bound(1) == 60000);
    assert(miss_delay_bound(2) == 72000);
    assert(miss_delay_bound(3) == 86400);
    assert(miss_delay_bound(4) == 103680);
    assert(miss_delay_bound(5) == 124416);
    assert(miss_delay_bound(6) == 149299);
    assert(miss_delay_bound(7) == 179158);
    assert(miss_delay_bound(8) == 214989);
    assert(miss_delay_bound(9) == 257986);
    assert(miss_delay_bound(10) == 309583);
    assert(miss_delay_bound(11) == 371499);
    assert(miss_delay_bound(12) == 445798);
    assert(miss_delay_bound(13) == 534957);
    assert(miss_delay_bound(14) == 641948);
    assert(miss_delay_bound(15) == 770337);
    assert(miss_delay_bound(16) == 924404);
    assert(miss_delay_bound(17) == 1109284);
    assert(miss_delay_bound(18) == 1331140);
    assert(miss_delay_bound(19) == 1597368);
    assert(miss_delay_bound(20) == 1916841);
    assert(miss_delay_bound(21) == 2300209);
    assert(miss_scale_bound(0) == 1000);
    assert(miss_scale_bound(1) == 1200);
    assert(miss_scale_bound(2) == 1440);
    assert(miss_scale_bound(3) == 1728);
    assert(miss_scale_bound(4) == 2073);
    assert(miss_scale_bound(5) == 2487);
    assert(miss_scale_bound(6) == 2984);
    assert(miss_scale_bound(7) == 3580);
    assert(miss_scale_bound(8) == 4296);
    assert(miss_scale_bound(9) == 5155);
    assert(miss_scale_bound(10) == 6186);
    assert(miss_scale_bound(11) == 7423);
    assert(miss_scale_bound(12) == 8907);
}

proof fn lemma_hit_progress(delay: int, scale: int, outcomes: Seq<bool>)
    requires
        fury_bounds(delay, scale),
        forall|i: int| 0 <= i < outcomes.len() ==> outcomes[i],
    ensures
        ({
            let r = fury_after(delay, scale, outcomes);
            let k = outcomes.len();
            &&& fury_bounds(r.0, r.1)
            &&& (k >= 17 ==> r.0 == MINIMUM_ATTACK_DELAY)
            &&& (k < 17 ==> r.0 == MINIMUM_ATTACK_DELAY || r.0 <= hit_delay_bound(k))
            &&& (k >= 10 ==> r.1 == MINIMUM_EXTEND_SCALE)
            &&& (k < 10 ==> r.1 == MINIMUM_EXTEND_SCALE || r.1 <= hit_scale_bound(k))
        }),
    decreases outcomes.len(),
{
    lemma_bound_values();
    if outcomes.len() > 0 {
        let prev = outcomes.drop_last();
        lemma_hit_progress(delay, scale, prev);
        let p = fury_after(delay, scale, prev);
        let k = prev.len();
        if k < 17 && p.0 != MINIMUM_ATTACK_DELAY {
            assert(p.0 * 4 / 5 <= hit_delay_bound(k) * 4 / 5) by (nonlinear_arith)
                requires
                    p.0 <= hit_delay_bound(k),
            ;
        }
        if k < 10 && p.1 != MINIMUM_EXTEND_SCALE {
            assert(p.1 * 4 / 5 <= hit_scale_bound(k) * 4 / 5) by (nonlinear_arith)
                requires
                    p.1 <= hit_scale_bound(k),
            ;
        }
    }
}

proof fn lemma_miss_progress(delay: int, scale: int, outcomes: Seq<bool>)
    requires
        fury_bounds(delay, scale),
        forall|i: int| 0 <= i < outcomes.len() ==> !outcomes[i],
    ensures
        ({
            let r = fury_after(delay, scale, outcomes);
            let k = outcomes.len();
            &&& fury_bounds(r.0, r.1)
            &&& (k >= 21 ==> r.0 == INITIAL_ATTACK_DELAY)
            &&& (k < 21 ==> r.0 == INITIAL_ATTACK_DELAY || r.0 >= miss_delay_bound(k))
            &&& (k >= 12 ==> r.1 == INITIAL_EXTEND_SCALE)
            &&& (k < 12 ==> r.1 == INITIAL_EXTEND_SCALE || r.1 >= miss_scale_bound(k))
        }),
    decreases outcomes.len(),
{
    lemma_bound_values();
    if outcomes.len() > 0 {
        let prev = outcomes.drop_last();
        lemma_miss_progress(delay, scale, prev);
        let p = fury_after(delay, scale, prev);
        let k = prev.len();
        if k < 21 && p.0 != INITIAL_ATTACK_DELAY {
            assert(p.0 * 6 / 5 >= miss_delay_bound(k) * 6 / 5) by (nonlinear_arith)
                requires
                    p.0 >= miss_delay_bound(k),
            ;
        }
        if k < 12 && p.1 != INITIAL_EXTEND_SCALE {
            assert(p.1 * 6 / 5 >= miss_scale_bound(k) * 6 / 5) by (nonlinear_arith)
                requires
                    p.1 >= miss_scale_bound(k),
            ;
        }
    }
}

/// A run of 17 hits or more, from any admitted state, drives the delay and the weapon
/// length to their floors exactly (the length already after 10); further hits keep them there.
pub proof fn lemma_hit_run_reaches_floor(delay: int, scale: int, outcomes: Seq<bool>)
    requires
        fury_bounds(delay, scale),
        outcomes.len() >= 17,
        forall|i: int| 0 <= i < outcomes.len() ==> outcomes[i],
    ensures
        fury_after(delay, scale, outcomes) == (MINIMUM_ATTACK_DELAY as int, MINIMUM_EXTEND_SCALE as int),
{
    lemma_hit_progress(delay, scale, outcomes);
}

/// A run of 21 misses or more, from any admitted state, drives the delay and the
/// weapon length back to their starting values exactly (the length already after 12),
/// and never past them.
pub proof fn lemma_miss_run_reaches_ceiling(delay: int, scale: int, outcomes: Seq<bool>)
    requires
        fury_bounds(delay, scale),
        outcomes.len() >= 21,
        forall|i: int| 0 <= i < outcomes.len() ==> !outcomes[i],
    ensures
        fury_after(delay, scale, outcomes) == (INITIAL_ATTACK_DELAY as int, INITIAL_EXTEND_SCALE as int),
{
    lemma_miss_progress(delay, scale, outcomes);
}

/// Resolving swings applies the fury formula to the attack's own delay and length.
pub proof fn lemma_resolutions_apply_fury(a: Attack, outcomes: Seq<bool>)
    requires
        a.wf(),
    ensures
        resolve_all(a, outcomes).attack_delay as int == fury_after(a.attack_delay as int, a.extend_scale as int, outcomes).0,
        resolve_all(a, outcomes).extend_scale as int == fury_after(a.attack_delay as int, a.extend_scale as int, outcomes).1,
        fury_bounds(resolve_all(a, outcomes).attack_delay as int, resolve_all(a, outcomes).extend_scale as int),
    decreases outcomes.len(),
{
    if outcomes.len() > 0 {
        lemma_resolutions_apply_fury(a, outcomes.drop_last());
    }
}

/// Across consecutive successful swings the side strictly alternates: after an even
/// number it is the side the chain started on, after an odd number the other one.
pub proof fn lemma_hits_alternate_sides(a: Attack, outcomes: Seq<bool>)
    requires
        forall|i: int| 0 <= i < outcomes.len() ==> outcomes[i],
    ensures
        resolve_all(a, outcomes).position == if outcomes.len() % 2 == 0 {
            a.position
        } else {
            next_position(a.position)
        },
        outcomes.len() > 0 ==> resolve_all(a, outcomes).position != resolve_all(a, outcomes.drop_last()).position,
    decreases outcomes.len(),
{
    if outcomes.len() > 0 {
        lemma_hits_alternate_sides(a, outcomes.drop_last());
    }
}

/// A missed swing never switches the side.
pub proof fn lemma_miss_keeps_side(a: Attack)
    ensures
        resolve_spec(a, false).position == a.position,
{
}

} // verus!
