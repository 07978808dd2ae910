//! Voxel coordinates, the bounds test and the isometric projection.

use ruscii::spatial::Vec2;
use vstd::prelude::*;

verus! {

/// A voxel coordinate: the triple `(x, y, z)`.
pub type Vec3 = (isize, isize, isize);

/// `ruscii::spatial::Vec2`, a position on the terminal screen, with its two
/// public `i32` fields `x` and `y`.
#[verifier::external_type_specification]
pub struct ExVec2(Vec2);

/// Whether every axis of `coord` lies in `[0, dim)` for the matching axis of
/// `dimensions`.
pub open spec fn in_bounds(coord: Vec3, dimensions: Vec3) -> bool {
    &&& 0 <= coord.0 < dimensions.0
    &&& 0 <= coord.1 < dimensions.1
    &&& 0 <= coord.2 < dimensions.2
}

/// The screen column of a voxel under the isometric projection.
pub open spec fn screen_x(coord: Vec3) -> int {
    (coord.0 - coord.1) * 2
}

/// The screen row of a voxel under the isometric projection.
pub open spec fn screen_y(coord: Vec3) -> int {
    (coord.0 + coord.1) - coord.2
}

/// Whether the projection of `coord` can be written as a `Vec2`, whose
/// components are `i32`.
pub open spec fn projects(coord: Vec3) -> bool {
    &&& i32::MIN <= screen_x(coord) <= i32::MAX
    &&& i32::MIN <= screen_y(coord) <= i32::MAX
}

/// The screen position of a voxel: `x = (x - y) * 2`, `y = (x + y) - z`.
pub open spec fn screen_of(coord: Vec3) -> Vec2 {
    Vec2 { x: screen_x(coord) as i32, y: screen_y(coord) as i32 }
}

/// Tests whether `coord` lies inside a grid of the given `dimensions`.
pub fn contains(coord: Vec3, dimensions: Vec3) -> (inside: bool)
    ensures
        inside == in_bounds(coord, dimensions),
{
    let (x, y, z) = coord;
    let (mx, my, mz) = dimensions;
    0 <= x && x < mx && 0 <= y && y < my && 0 <= z && z < mz
}

/// Tests whether `coord` has a screen position, that is, whether
/// [`coord_to_screen`] may be called on it.
pub fn fits_screen(coord: Vec3) -> (ok: bool)
    ensures
        ok == projects(coord),
{
    let (x, y, z) = coord;
    let sx: i128 = (x as i128 - y as i128) * 2;
    let sy: i128 = (x as i128 + y as i128) - z as i128;
    i32::MIN as i128 <= sx && sx <= i32::MAX as i128 && i32::MIN as i128 <= sy && sy
        <= i32::MAX as i128
}

/// Calls `ruscii::spatial::Vec2::xy`, which converts each argument with
/// `to_i32().unwrap()`. For an `isize` within the range of `i32` the
/// conversion yields the same number; outside that range it panics, which
/// the precondition excludes.
#[verifier::external_body]
fn vec2_xy(x: isize, y: isize) -> (v: Vec2)
    requires
        i32::MIN <= x <= i32::MAX,
        i32::MIN <= y <= i32::MAX,
    ensures
        v.x == x,
        v.y == y,
{
    Vec2::xy(x, y)
}

/// Projects a voxel onto the screen.
pub fn coord_to_screen(coord: Vec3) -> (pos: Vec2)
    requires
        projects(coord),
    ensures
        pos == screen_of(coord),
        pos.x == (coord.0 - coord.1) * 2,
        pos.y == (coord.0 + coord.1) - coord.2,
{
    let (x, y, z) = coord;
    let sx: i128 = (x as i128 - y as i128) * 2;
    let sy: i128 = (x as i128 + y as i128) - z as i128;
    vec2_xy(sx as isize, sy as isize)
}

} // verus!
