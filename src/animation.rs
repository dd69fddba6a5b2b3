use vstd::prelude::*;

use crate::movement::PlayerMovementState;

verus! {

/// A ping-pong animation position: `frame` runs up to the last frame, then back to zero.
pub open spec fn animation_ok(reverse: bool, frame: usize, num_frames: usize) -> bool {
    num_frames >= 2 && frame < num_frames && (!reverse ==> frame < num_frames - 1) && (reverse ==> frame > 0)
}

/// Advances a ping-pong animation by one frame, turning round at either end.
pub fn reversible_animation(reverse: &mut bool, frame: &mut usize, num_frames: usize)
    requires
        animation_ok(*old(reverse), *old(frame), num_frames),
    ensures
        animation_ok(*final(reverse), *final(frame), num_frames),
        *old(reverse) ==> *final(frame) == *old(frame) - 1 && *final(reverse) == (*final(frame) > 0),
        !*old(reverse) ==> *final(frame) == *old(frame) + 1 && *final(reverse) == (*final(frame) == num_frames - 1),
{
    if *reverse {
        *frame = *frame - 1;
        if *frame == 0 {
            *reverse = false;
        }
    } else {
        *frame = *frame + 1;
        if *frame == num_frames - 1 {
            *reverse = true;
        }
    }
}

/// Frame counts of the player's sprite sheets.
pub const IDLE_FRAME_NUM: usize = 10;
pub const RUN_FRAME_NUM: usize = 32;
pub const JUMP_FRAME_NUM: usize = 34;

/// What a sprite sheet needs to be animated: a frame within it (and, standing, a
/// ping-pong position).
pub open spec fn sprite_ok(state: PlayerMovementState, frame: usize) -> bool {
    match state {
        PlayerMovementState::Idle(reverse) => animation_ok(reverse, frame, IDLE_FRAME_NUM),
        PlayerMovementState::Run => frame < RUN_FRAME_NUM,
        PlayerMovementState::Jump(_) => frame < JUMP_FRAME_NUM,
        PlayerMovementState::Dash(_) => true,
    }
}

/// Advances the player's sprite on the animation clocks' ticks (`fast_tick` for
/// running, `slow_tick` for standing and jumping). Standing ping-pongs, running and
/// jumping loop, dashing holds. Returns whether a footstep is heard: running onto the
/// fifth frame, or onto the twentieth while on the ground.
pub fn update_player_sprite_animation(
    state: &mut PlayerMovementState,
    frame: &mut usize,
    grounded: bool,
    fast_tick: bool,
    slow_tick: bool,
) -> (step: bool)
    requires
        sprite_ok(*old(state), *old(frame)),
    ensures
        sprite_ok(*final(state), *final(frame)),
        match *old(state) {
            PlayerMovementState::Idle(reverse) => if slow_tick {
                *final(state) matches PlayerMovementState::Idle(r) && (if reverse {
                    *final(frame) == *old(frame) - 1 && r == (*final(frame) > 0)
                } else {
                    *final(frame) == *old(frame) + 1 && r == (*final(frame) == IDLE_FRAME_NUM - 1)
                }) && !step
            } else {
                *final(state) == *old(state) && *final(frame) == *old(frame) && !step
            },
            PlayerMovementState::Run => *final(state) == *old(state) && if fast_tick || slow_tick {
                *final(frame) == (*old(frame) + 1) % (RUN_FRAME_NUM as int)
                    && step == (*final(frame) == 4 || (*final(frame) == 19 && grounded))
            } else {
                *final(frame) == *old(frame) && !step
            },
            PlayerMovementState::Jump(_) => *final(state) == *old(state) && !step && if slow_tick {
                *final(frame) == (*old(frame) + 1) % (JUMP_FRAME_NUM as int)
            } else {
                *final(frame) == *old(frame)
            },
            PlayerMovementState::Dash(_) => *final(state) == *old(state) && *final(frame) == *old(frame) && !step,
        },
{
    if !fast_tick && !slow_tick {
        return false;
    }
    match *state {
        PlayerMovementState::Idle(reverse) => {
            if !slow_tick {
                return false;
            }
            let mut r = reverse;
            reversible_animation(&mut r, frame, IDLE_FRAME_NUM);
            *state = PlayerMovementState::Idle(r);
            false
        },
        PlayerMovementState::Run => {
            *frame = (*frame + 1) % RUN_FRAME_NUM;
            *frame == 4 || (*frame == 19 && grounded)
        },
        PlayerMovementState::Jump(_) => {
            if slow_tick {
                *frame = (*frame + 1) % JUMP_FRAME_NUM;
            }
            false
        },
        PlayerMovementState::Dash(_) => false,
    }
}

} // verus!
