use vstd::prelude::*;

use crate::geometry::Vec2;

verus! {

/// A diagonal unit vector's components, in thousandths (1000 / sqrt(2), rounded).
pub const DIAGONAL_COMPONENT: i64 = 707;

pub open spec fn axis(neg: bool, pos: bool) -> int {
    (if pos { 1int } else { 0int }) - (if neg { 1int } else { 0int })
}

/// The unit direction (thousandths) that four held buttons point to, if any.
pub fn input_to_direction(left: bool, right: bool, up: bool, down: bool) -> (r: Option<Vec2>)
    ensures
        ({
            let h = axis(left, right);
            let v = axis(down, up);
            r == if h == 0 && v == 0 {
                None
            } else if h != 0 && v != 0 {
                Some(Vec2 { x: (h * DIAGONAL_COMPONENT) as i64, y: (v * DIAGONAL_COMPONENT) as i64 })
            } else {
                Some(Vec2 { x: (h * 1000) as i64, y: (v * 1000) as i64 })
            }
        }),
{
    let h: i64 = (if right { 1i64 } else { 0i64 }) - (if left { 1i64 } else { 0i64 });
    let v: i64 = (if up { 1i64 } else { 0i64 }) - (if down { 1i64 } else { 0i64 });
    if h == 0 && v == 0 {
        None
    } else if h != 0 && v != 0 {
        Some(Vec2 { x: h * DIAGONAL_COMPONENT, y: v * DIAGONAL_COMPONENT })
    } else {
        Some(Vec2 { x: h * 1000, y: v * 1000 })
    }
}

} // verus!
