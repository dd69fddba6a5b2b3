use vstd::prelude::*;

use crate::geometry::Vec2;
use crate::movement::{
    clamp_speed, MovementController, PlayerMovementState, COYOTE_WINDOW, JUMP_DURATION,
    JUMP_HANG_GRAVITY_SCALE, JUMP_IMPULSE,
};

verus! {

/// The controller after a run of ticks, each with the same ground-probe result.
pub open spec fn ticks(c: MovementController, dts: Seq<u64>, ground_contact: bool) -> MovementController
    decreases dts.len(),
{
    if dts.len() == 0 {
        c
    } else {
        ticks(c, dts.drop_last(), ground_contact).tick_spec(dts.last(), ground_contact)
    }
}

/// The time a run of ticks covers.
pub open spec fn total(dts: Seq<u64>) -> int
    decreases dts.len(),
{
    if dts.len() == 0 {
        0
    } else {
        total(dts.drop_last()) + dts.last()
    }
}

/// What a jump that is granted does to the controller.
pub open spec fn jump_effect(c: MovementController) -> MovementController {
    MovementController {
        grounded: false,
        coyote: None,
        state: PlayerMovementState::Jump(JUMP_DURATION),
        velocity: Vec2 { x: c.velocity.x, y: clamp_speed(c.velocity.y + JUMP_IMPULSE) as i64 },
        gravity_scale: JUMP_HANG_GRAVITY_SCALE,
        ..c
    }
}

proof fn lemma_tick_wf(c: MovementController, dt: u64, ground_contact: bool)
    requires
        c.wf(),
    ensures
        c.tick_spec(dt, ground_contact).wf(),
{
}

proof fn lemma_total_nonneg(dts: Seq<u64>)
    ensures
        total(dts) >= 0,
    decreases dts.len(),
{
    if dts.len() > 0 {
        lemma_total_nonneg(dts.drop_last());
    }
}

/// Ticks keep the controller well formed.
pub proof fn lemma_ticks_wf(c: MovementController, dts: Seq<u64>, ground_contact: bool)
    requires
        c.wf(),
    ensures
        ticks(c, dts, ground_contact).wf(),
    decreases dts.len(),
{
    if dts.len() > 0 {
        lemma_ticks_wf(c, dts.drop_last(), ground_contact);
        lemma_tick_wf(ticks(c, dts.drop_last(), ground_contact), dts.last(), ground_contact);
    }
}

proof fn lemma_airborne_coyote(c: MovementController, dts: Seq<u64>)
    requires
        c.wf(),
        c.grounded,
        c.coyote == Some(COYOTE_WINDOW),
    ensures
        ({
            let a = ticks(c, dts, false);
            &&& a.wf()
            &&& !a.is_dashing()
            &&& (dts.len() > 0 ==> !a.grounded)
            &&& (total(dts) < COYOTE_WINDOW ==> a.coyote == Some((COYOTE_WINDOW - total(dts)) as u64))
            &&& (total(dts) >= COYOTE_WINDOW ==> a.coyote is None)
        }),
    decreases dts.len(),
{
    lemma_total_nonneg(dts);
    if dts.len() > 0 {
        lemma_airborne_coyote(c, dts.drop_last());
        lemma_total_nonneg(dts.drop_last());
        lemma_tick_wf(ticks(c, dts.drop_last(), false), dts.last(), false);
    }
}

/// A jump asked for a time after leaving the ground is granted exactly as on the
/// ground (the same impulse, the same transition) while that time is under the coyote
/// window, and is silently ignored once the window has passed.
pub proof fn lemma_coyote_jump(c: MovementController, dts: Seq<u64>)
    requires
        c.wf(),
        c.grounded,
        c.coyote == Some(COYOTE_WINDOW),
    ensures
        c.jump_start_spec() == jump_effect(c),
        total(dts) < COYOTE_WINDOW ==> ticks(c, dts, false).jump_start_spec() == jump_effect(ticks(c, dts, false)),
        total(dts) >= COYOTE_WINDOW ==> ticks(c, dts, false).jump_start_spec() == ticks(c, dts, false),
{
    lemma_airborne_coyote(c, dts);
    if dts.len() == 0 {
        assert(total(dts) == 0);
    }
}

proof fn lemma_airborne_keeps_dash_used(c: MovementController, dts: Seq<u64>)
    requires
        c.wf(),
        c.dashing_used,
        !c.grounded,
    ensures
        ticks(c, dts, false).wf(),
        ticks(c, dts, false).dashing_used,
        !ticks(c, dts, false).grounded,
    decreases dts.len(),
{
    if dts.len() > 0 {
        lemma_airborne_keeps_dash_used(c, dts.drop_last());
        lemma_tick_wf(ticks(c, dts.drop_last(), false), dts.last(), false);
    }
}

/// Two dashes without touching the ground in between change the controller at most
/// once: right after a dash a second one does nothing, and so it stays however long
/// the player is in the air.
pub proof fn lemma_dash_single_use(c: MovementController, dts: Seq<u64>)
    requires
        c.wf(),
    ensures
        c.dash_start_spec().dash_start_spec() == c.dash_start_spec(),
        c.dash_start_spec() != c ==> ticks(c.dash_start_spec(), dts, false).dash_start_spec() == ticks(
            c.dash_start_spec(),
            dts,
            false,
        ),
{
    if c.dash_start_spec() != c {
        lemma_airborne_keeps_dash_used(c.dash_start_spec(), dts);
    }
}

} // verus!
