use vstd::prelude::*;

use crate::geometry::Vec2;

verus! {

/// The part of the arena the camera's centre may show (thousandths of a unit).
pub const FLOOR_MIN_X: i64 = -290_000;
pub const FLOOR_MAX_X: i64 = 290_000;
pub const FLOOR_MIN_Y: i64 = -120_000;
pub const FLOOR_MAX_Y: i64 = 160_000;

pub open spec fn clamp(v: int, lo: int, hi: int) -> int {
    if v < lo { lo } else if v > hi { hi } else { v }
}

/// Where the camera heads for: the player, held within the arena's bounds.
pub fn camera_target(player: Vec2) -> (r: Vec2)
    ensures
        r.x == clamp(player.x as int, FLOOR_MIN_X as int, FLOOR_MAX_X as int),
        r.y == clamp(player.y as int, FLOOR_MIN_Y as int, FLOOR_MAX_Y as int),
{
    let x = if player.x < FLOOR_MIN_X {
        FLOOR_MIN_X
    } else if player.x > FLOOR_MAX_X {
        FLOOR_MAX_X
    } else {
        player.x
    };
    let y = if player.y < FLOOR_MIN_Y {
        FLOOR_MIN_Y
    } else if player.y > FLOOR_MAX_Y {
        FLOOR_MAX_Y
    } else {
        player.y
    };
    Vec2 { x, y }
}

} // verus!
