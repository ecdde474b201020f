use vstd::prelude::*;

verus! {

/// Nano-pixels in one pixel.
pub const PX: i64 = 1_000_000_000;

/// The images a body is drawn with.
#[derive(Clone, Copy, Debug, PartialEq, Eq, Structural)]
pub enum Texture {
    Plane,
    Ground,
    Obstacle,
}

/// A point in nano-pixels; `z` only orders drawing.
#[derive(Clone, Copy, Debug, PartialEq, Eq, Structural)]
pub struct Point3 {
    pub x: i64,
    pub y: i64,
    pub z: i64,
}

/// Where a body stands: its centre, a whole vertical scale factor, and
/// whether it is drawn turned upside down.
#[derive(Clone, Copy, Debug, PartialEq, Eq, Structural)]
pub struct Transform {
    pub translation: Point3,
    pub scale_y: i32,
    pub flipped: bool,
}

/// The size of a body's collision box, in nano-pixels.
#[derive(Clone, Copy, Debug, PartialEq, Eq, Structural)]
pub struct Collidable {
    pub width: i64,
    pub height: i64,
}

/// A drawn body with a collision box.
#[derive(Clone, Copy, Debug, PartialEq, Eq, Structural)]
pub struct CollidableSpriteBundle {
    pub texture: Texture,
    pub transform: Transform,
    pub collidable: Collidable,
}

impl CollidableSpriteBundle {
    /// A body at `position`, of unit scale, with the given collision size.
    pub fn new(texture: Texture, collision_size: Collidable, position: Point3, flipped: bool) -> (r:
        Self)
        ensures
            r.texture == texture,
            r.collidable == collision_size,
            r.transform.translation == position,
            r.transform.scale_y == 1,
            r.transform.flipped == flipped,
    {
        CollidableSpriteBundle {
            texture,
            transform: Transform { translation: position, scale_y: 1, flipped },
            collidable: collision_size,
        }
    }
}

pub open spec fn abs(a: int) -> int {
    if a < 0 {
        -a
    } else {
        a
    }
}

/// Two axis-aligned boxes overlap when, on each axis, the distance of their
/// centres is below the sum of their half extents.
pub open spec fn boxes_overlap(a_pos: Point3, a_size: Collidable, b_pos: Point3, b_size: Collidable) -> bool {
    &&& 2 * abs(a_pos.x - b_pos.x) < a_size.width + b_size.width
    &&& 2 * abs(a_pos.y - b_pos.y) < a_size.height + b_size.height
}

fn abs_diff(a: i64, b: i64) -> (r: i128)
    ensures
        r == abs(a - b),
{
    let d = (a as i128) - (b as i128);
    if d < 0 {
        -d
    } else {
        d
    }
}

/// Whether two boxes, given by centre and size, overlap.
pub fn collide(a_pos: Point3, a_size: Collidable, b_pos: Point3, b_size: Collidable) -> (r: bool)
    ensures
        r == boxes_overlap(a_pos, a_size, b_pos, b_size),
{
    let dx = abs_diff(a_pos.x, b_pos.x);
    let dy = abs_diff(a_pos.y, b_pos.y);
    2 * dx < (a_size.width as i128) + (b_size.width as i128) && 2 * dy < (a_size.height as i128)
        + (b_size.height as i128)
}

} // verus!
