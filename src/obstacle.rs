use vstd::prelude::*;
use crate::geometry::{Collidable, CollidableSpriteBundle, Point3, Texture, Transform, PX};

verus! {

/// Scrolling speed of every obstacle, 500 px/s: nano-pixels per microsecond.
pub const OBSTACLE_SPEED: i64 = 500_000;

/// An obstacle whose centre passes left of this line is recycled.
pub const LEFT_EDGE: i64 = -800 * PX;

/// How far a boundary strip jumps to the right when it is recycled.
pub const WRAP_SHIFT: i64 = 1600 * PX;

/// Where a new obstacle appears: just off the right edge, above or below.
pub const SPAWN_X: i64 = 800 * PX;
pub const SPAWN_Y: i64 = 200 * PX;
pub const SPAWN_Z: i64 = 500_000_000;

/// The collision box of a spawned obstacle, 70 by 200 px.
pub const OBSTACLE_WIDTH: i64 = 70 * PX;
pub const OBSTACLE_HEIGHT: i64 = 200 * PX;

/// The floor and ceiling strips: 800 by 30 px, centred at y = ±220 px.
pub const BOUND_WIDTH: i64 = 800 * PX;
pub const BOUND_HEIGHT: i64 = 30 * PX;
pub const BOUND_Y: i64 = 220 * PX;
pub const BOUND_Z: i64 = PX;

/// A boundary strip wraps around; an active obstacle is removed once it
/// leaves the screen.
#[derive(Clone, Copy, Debug, PartialEq, Eq, Structural)]
pub enum ObstacleKind {
    Bound,
    Active,
}

#[derive(Clone, Copy, Debug, PartialEq, Eq, Structural)]
pub struct Obstacle {
    pub body: CollidableSpriteBundle,
    pub kind: ObstacleKind,
}

impl Obstacle {
    pub open spec fn x(self) -> int {
        self.body.transform.translation.x as int
    }

    pub open spec fn with_x(self, x: int) -> Obstacle {
        Obstacle {
            body: CollidableSpriteBundle {
                transform: Transform {
                    translation: Point3 { x: x as i64, ..self.body.transform.translation },
                    ..self.body.transform
                },
                ..self.body
            },
            ..self
        }
    }
}

/// One obstacle after a scroll of `dt` microseconds: `None` when it is
/// removed.
pub open spec fn scroll_one(o: Obstacle, dt: int) -> Option<Obstacle> {
    let x = o.x() - OBSTACLE_SPEED * dt;
    if x < LEFT_EDGE {
        match o.kind {
            ObstacleKind::Bound => Some(o.with_x(x + WRAP_SHIFT)),
            ObstacleKind::Active => None,
        }
    } else {
        Some(o.with_x(x))
    }
}

/// All obstacles after a scroll of `dt` microseconds, in their order.
pub open spec fn scroll_all(s: Seq<Obstacle>, dt: int) -> Seq<Obstacle>
    decreases s.len(),
{
    if s.len() == 0 {
        seq![]
    } else {
        let rest = scroll_all(s.drop_last(), dt);
        match scroll_one(s.last(), dt) {
            Some(o) => rest.push(o),
            None => rest,
        }
    }
}

/// A scroll of `dt` microseconds stays within machine integers.
pub open spec fn scroll_fits(s: Seq<Obstacle>, dt: int) -> bool {
    forall|i: int| 0 <= i < s.len() ==> i64::MIN <= (#[trigger] s[i]).x() - OBSTACLE_SPEED * dt
}

/// The boundary strips among `s`, in their order.
pub open spec fn bounds_of(s: Seq<Obstacle>) -> Seq<Obstacle>
    decreases s.len(),
{
    if s.len() == 0 {
        seq![]
    } else if s.last().kind == ObstacleKind::Bound {
        bounds_of(s.drop_last()).push(s.last())
    } else {
        bounds_of(s.drop_last())
    }
}

/// The number of boundary strips among `s`.
pub open spec fn count_bounds(s: Seq<Obstacle>) -> nat {
    bounds_of(s).len()
}

/// A spawned obstacle, above the gap (and drawn upside down) or below it.
pub open spec fn spec_spawned_obstacle(up: bool) -> Obstacle {
    Obstacle {
        body: CollidableSpriteBundle {
            texture: Texture::Obstacle,
            transform: Transform {
                translation: Point3 { x: SPAWN_X, y: if up { SPAWN_Y } else { (-SPAWN_Y) as i64 }, z: SPAWN_Z },
                scale_y: 1,
                flipped: up,
            },
            collidable: Collidable { width: OBSTACLE_WIDTH, height: OBSTACLE_HEIGHT },
        },
        kind: ObstacleKind::Active,
    }
}

/// The obstacle that a spawn creates, facing as `up` says.
pub fn create_obstacle(up: bool) -> (r: Obstacle)
    ensures
        r == spec_spawned_obstacle(up),
{
    let y = if up {
        SPAWN_Y
    } else {
        -SPAWN_Y
    };
    Obstacle {
        body: CollidableSpriteBundle::new(
            Texture::Obstacle,
            Collidable { width: OBSTACLE_WIDTH, height: OBSTACLE_HEIGHT },
            Point3 { x: SPAWN_X, y, z: SPAWN_Z },
            up,
        ),
        kind: ObstacleKind::Active,
    }
}

/// Relies on rand::random::<bool> (thread-local generator, uniform over
/// both values): a fair coin. Nothing is known of the value drawn.
#[verifier::external_body]
pub(crate) fn coin_flip() -> (r: bool) {
    rand::random::<bool>()
}

/// A new obstacle whose facing is drawn at random.
pub fn create_random_obstacle() -> (r: Obstacle)
    ensures
        r == spec_spawned_obstacle(true) || r == spec_spawned_obstacle(false),
{
    let up = coin_flip();
    create_obstacle(up)
}

pub open spec fn spec_bound(x: i64, top: bool) -> Obstacle {
    Obstacle {
        body: CollidableSpriteBundle {
            texture: Texture::Ground,
            transform: Transform {
                translation: Point3 { x, y: if top { BOUND_Y } else { (-BOUND_Y) as i64 }, z: BOUND_Z },
                scale_y: 1,
                flipped: top,
            },
            collidable: Collidable { width: BOUND_WIDTH, height: BOUND_HEIGHT },
        },
        kind: ObstacleKind::Bound,
    }
}

/// The four boundary strips as first placed: floor and ceiling at x = 0 and
/// at x = 800 px.
pub open spec fn spec_initial_bounds() -> Seq<Obstacle> {
    seq![spec_bound(0, false), spec_bound(0, true), spec_bound(BOUND_WIDTH, false), spec_bound(BOUND_WIDTH, true)]
}

fn bound(x: i64, top: bool) -> (r: Obstacle)
    ensures
        r == spec_bound(x, top),
{
    let y = if top {
        BOUND_Y
    } else {
        -BOUND_Y
    };
    Obstacle {
        body: CollidableSpriteBundle::new(
            Texture::Ground,
            Collidable { width: BOUND_WIDTH, height: BOUND_HEIGHT },
            Point3 { x, y, z: BOUND_Z },
            top,
        ),
        kind: ObstacleKind::Bound,
    }
}

pub fn initial_bounds() -> (r: Vec<Obstacle>)
    ensures
        r@ == spec_initial_bounds(),
{
    let mut v: Vec<Obstacle> = Vec::new();
    v.push(bound(0, false));
    v.push(bound(0, true));
    v.push(bound(BOUND_WIDTH, false));
    v.push(bound(BOUND_WIDTH, true));
    assert(v@ =~= spec_initial_bounds());
    v
}

} // verus!
