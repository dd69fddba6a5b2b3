use vstd::prelude::*;

use crate::geometry::{in_world, Vec2};

verus! {

/// A contact normal (any length) is admissible ground when its angle from straight up
/// is at most thirty degrees: it points up and cos² of the angle is at least 3/4.
pub open spec fn walkable(n: Vec2) -> bool {
    n.y > 0 && n.y * n.y >= 3 * (n.x * n.x)
}

/// Whether a contact normal counts as ground.
pub fn is_walkable(normal: Vec2) -> (r: bool)
    requires
        in_world(normal),
    ensures
        r == walkable(normal),
{
    if normal.y <= 0 {
        return false;
    }
    let x: i128 = normal.x as i128;
    let y: i128 = normal.y as i128;
    assert(0 <= x * x <= 1_000_000_000_000_000_000) by (nonlinear_arith)
        requires
            -1_000_000_000 <= x <= 1_000_000_000,
    ;
    assert(0 <= y * y <= 1_000_000_000_000_000_000) by (nonlinear_arith)
        requires
            -1_000_000_000 <= y <= 1_000_000_000,
    ;
    y * y >= 3 * (x * x)
}

/// The grounded flag from the ground probe's hits: grounded exactly when some hit's
/// normal is admissible ground.
pub fn update_grounded(normals: &Vec<Vec2>) -> (r: bool)
    requires
        forall|i: int| 0 <= i < normals.len() ==> in_world(#[trigger] normals@[i]),
    ensures
        r == exists|i: int| 0 <= i < normals.len() && walkable(#[trigger] normals@[i]),
{
    let mut i: usize = 0;
    while i < normals.len()
        invariant
            i <= normals.len(),
            forall|j: int| 0 <= j < normals.len() ==> in_world(#[trigger] normals@[j]),
            forall|j: int| 0 <= j < i ==> !walkable(#[trigger] normals@[j]),
        decreases normals.len() - i,
    {
        if is_walkable(normals[i]) {
            return true;
        }
        i = i + 1;
    }
    false
}

} // verus!
