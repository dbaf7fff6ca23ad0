use vstd::prelude::*;

verus! {

/// World-space centre of an entity.
#[derive(Clone, Copy, Debug, PartialEq, Eq)]
pub struct Transform {
    pub x: i64,
    pub y: i64,
}

/// Extents of an entity's axis-aligned bounding box.
#[derive(Clone, Copy, Debug, PartialEq, Eq)]
pub struct Size {
    pub width: i64,
    pub height: i64,
}

pub open spec fn abs(v: int) -> int {
    if v < 0 {
        -v
    } else {
        v
    }
}

/// Two centred boxes meet when, on each axis, the distance between their
/// centres is at most the sum of their half extents.
pub open spec fn overlaps(a: Transform, a_size: Size, b: Transform, b_size: Size) -> bool {
    &&& 2 * abs(a.x - b.x) <= a_size.width + b_size.width
    &&& 2 * abs(a.y - b.y) <= a_size.height + b_size.height
}

fn abs_diff(a: i64, b: i64) -> (r: i128)
    ensures
        r == abs(a - b),
{
    let d = a as i128 - b as i128;
    if d < 0 {
        -d
    } else {
        d
    }
}

/// Tests whether two centred boxes intersect.
pub fn intersects(a: &Transform, a_size: &Size, b: &Transform, b_size: &Size) -> (r: bool)
    ensures
        r == overlaps(*a, *a_size, *b, *b_size),
{
    let dx = abs_diff(a.x, b.x);
    let dy = abs_diff(a.y, b.y);
    2 * dx <= a_size.width as i128 + b_size.width as i128 && 2 * dy <= a_size.height as i128
        + b_size.height as i128
}

} // verus!
