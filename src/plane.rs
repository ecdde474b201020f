use vstd::prelude::*;
use crate::geometry::{Collidable, CollidableSpriteBundle, Point3, Texture, PX};

verus! {

/// Velocity gained by a jump: 1000 px/s, in milli-pixels per second.
pub const JUMP_VELOCITY: i64 = 1_000_000;

/// Ceiling on the velocity right after a jump: 800 px/s.
pub const MAX_VELOCITY: i64 = 800_000;

/// Gravity, -2000 px/s²: the velocity changes by this many milli-pixels per
/// second in each microsecond.
pub const GRAVITY: i64 = -2;

/// The plane's vertical velocity, in milli-pixels per second (up is positive).
#[derive(Clone, Copy, Debug, PartialEq, Eq, Structural)]
pub struct Plane {
    pub velocity: i64,
}

impl Default for Plane {
    fn default() -> (r: Self)
        ensures
            r.velocity == 0,
    {
        Plane { velocity: 0 }
    }
}

/// The plane's body together with its velocity.
#[derive(Clone, Copy, Debug, PartialEq, Eq, Structural)]
pub struct PlaneEntity {
    pub body: CollidableSpriteBundle,
    pub plane: Plane,
}

/// The plane's starting centre, (-200, 100, 100) px.
pub const PLANE_START_X: i64 = -200 * PX;
pub const PLANE_START_Y: i64 = 100 * PX;
pub const PLANE_START_Z: i64 = 100 * PX;

/// The plane's collision box, 80 by 70 px.
pub const PLANE_WIDTH: i64 = 80 * PX;
pub const PLANE_HEIGHT: i64 = 70 * PX;

pub open spec fn spec_plane_initial_position() -> Point3 {
    Point3 { x: PLANE_START_X, y: PLANE_START_Y, z: PLANE_START_Z }
}

pub open spec fn spec_plane_size() -> Collidable {
    Collidable { width: PLANE_WIDTH, height: PLANE_HEIGHT }
}

/// Where the plane starts and where a restart puts it back.
pub fn plane_initial_position() -> (r: Point3)
    ensures
        r == spec_plane_initial_position(),
{
    Point3 { x: PLANE_START_X, y: PLANE_START_Y, z: PLANE_START_Z }
}

/// The plane's collision box.
pub fn plane_size() -> (r: Collidable)
    ensures
        r == spec_plane_size(),
{
    Collidable { width: PLANE_WIDTH, height: PLANE_HEIGHT }
}

/// The plane as it is first placed: at its initial position, at rest.
pub open spec fn spec_initial_plane() -> PlaneEntity {
    PlaneEntity {
        body: CollidableSpriteBundle {
            texture: Texture::Plane,
            transform: crate::geometry::Transform {
                translation: spec_plane_initial_position(),
                scale_y: 1,
                flipped: false,
            },
            collidable: spec_plane_size(),
        },
        plane: Plane { velocity: 0 },
    }
}

pub fn initial_plane() -> (r: PlaneEntity)
    ensures
        r == spec_initial_plane(),
{
    PlaneEntity {
        body: CollidableSpriteBundle::new(Texture::Plane, plane_size(), plane_initial_position(), false),
        plane: Plane::default(),
    }
}

pub open spec fn min(a: int, b: int) -> int {
    if a < b {
        a
    } else {
        b
    }
}

/// The velocity once a requested jump is applied: the impulse is added and
/// the sum capped from above only.
pub open spec fn jumped_velocity(v: int, jump: bool) -> int {
    if jump {
        min(v + JUMP_VELOCITY, MAX_VELOCITY as int)
    } else {
        v
    }
}

/// The velocity after one tick of `dt` microseconds: jump first, then gravity.
pub open spec fn integrated_velocity(v: int, jump: bool, dt: int) -> int {
    jumped_velocity(v, jump) + GRAVITY * dt
}

/// The height after one tick of `dt` microseconds at velocity `v`.
pub open spec fn integrated_y(y: int, scale: int, v: int, dt: int) -> int {
    y + scale * v * dt
}

} // verus!
