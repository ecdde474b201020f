use vstd::prelude::*;
use crate::geometry::{boxes_overlap, collide, Point3, Transform};
use crate::obstacle::{
    bounds_of, create_obstacle, initial_bounds, coin_flip, scroll_all, scroll_fits, spec_initial_bounds,
    spec_spawned_obstacle, Obstacle, ObstacleKind, LEFT_EDGE, OBSTACLE_SPEED, WRAP_SHIFT,
};
use crate::plane::{
    initial_plane, integrated_velocity, integrated_y, plane_initial_position, spec_initial_plane,
    spec_plane_initial_position, Plane, PlaneEntity, GRAVITY, JUMP_VELOCITY, MAX_VELOCITY,
};
use crate::spawn::{score_label, score_text, ScoreCounter, SpawnTimer, STARTING_SCORE};
use vstd::string::StringExecFns;

verus! {

/// The whole state of a game, as values.
pub struct GameView {
    pub plane: PlaneEntity,
    pub obstacles: Seq<Obstacle>,
    pub score: ScoreCounter,
    pub score_text: Seq<char>,
    pub spawn_timer: SpawnTimer,
    pub paused: bool,
    pub game_over_message: bool,
}

/// The score line before the first spawn.
pub open spec fn initial_score_text() -> Seq<char> {
    seq!['S', 'c', 'o', 'r', 'e', ':', ' ']
}

/// Whether the plane's box overlaps the obstacle's box.
pub open spec fn plane_hits(p: PlaneEntity, o: Obstacle) -> bool {
    boxes_overlap(
        p.body.transform.translation,
        p.body.collidable,
        o.body.transform.translation,
        o.body.collidable,
    )
}

impl GameView {
    pub open spec fn wf(self) -> bool {
        self.spawn_timer.wf()
    }

    pub open spec fn spec_initial() -> GameView {
        GameView {
            plane: spec_initial_plane(),
            obstacles: spec_initial_bounds(),
            score: ScoreCounter { score: STARTING_SCORE },
            score_text: initial_score_text(),
            spawn_timer: SpawnTimer::spec_new(),
            paused: false,
            game_over_message: false,
        }
    }

    /// The time that the simulation sees in a frame of `dt` microseconds: none
    /// while paused.
    pub open spec fn sim_dt(self, dt: int) -> int {
        if self.paused {
            0
        } else {
            dt
        }
    }

    pub open spec fn velocity_fits(self, jump: bool, dt: int) -> bool {
        i64::MIN <= integrated_velocity(self.plane.plane.velocity as int, jump, dt)
    }

    pub open spec fn with_velocity(self, jump: bool, dt: int) -> GameView {
        GameView {
            plane: PlaneEntity {
                plane: Plane {
                    velocity: integrated_velocity(self.plane.plane.velocity as int, jump, dt) as i64,
                },
                ..self.plane
            },
            ..self
        }
    }

    pub open spec fn new_y(self, dt: int) -> int {
        integrated_y(
            self.plane.body.transform.translation.y as int,
            self.plane.body.transform.scale_y as int,
            self.plane.plane.velocity as int,
            dt,
        )
    }

    pub open spec fn position_fits(self, dt: int) -> bool {
        i64::MIN <= self.new_y(dt) <= i64::MAX
    }

    pub open spec fn with_plane_translation(self, p: Point3) -> GameView {
        GameView {
            plane: PlaneEntity {
                body: crate::geometry::CollidableSpriteBundle {
                    transform: Transform { translation: p, ..self.plane.body.transform },
                    ..self.plane.body
                },
                ..self.plane
            },
            ..self
        }
    }

    pub open spec fn with_position(self, dt: int) -> GameView {
        self.with_plane_translation(
            Point3 { y: self.new_y(dt) as i64, ..self.plane.body.transform.translation },
        )
    }

    pub open spec fn scrolled(self, dt: int) -> GameView {
        GameView { obstacles: scroll_all(self.obstacles, dt), ..self }
    }

    pub open spec fn spawn_fits(self, dt: int) -> bool {
        self.spawn_timer.fires(dt) ==> self.score.score < i32::MAX
    }

    /// The spawn schedule advanced by `dt` microseconds; a spawned obstacle
    /// faces as `up` says.
    pub open spec fn spawned(self, dt: int, up: bool) -> GameView {
        let t = self.spawn_timer.advanced(dt);
        if self.spawn_timer.fires(dt) {
            let score = self.score.score + 1;
            GameView {
                score: ScoreCounter { score: score as i32 },
                score_text: score_label(score),
                obstacles: self.obstacles.push(spec_spawned_obstacle(up)),
                spawn_timer: t.shortened(),
                ..self
            }
        } else {
            GameView { spawn_timer: t, ..self }
        }
    }

    /// Whether the plane overlaps some obstacle.
    pub open spec fn hits(self) -> bool {
        exists|i: int| 0 <= i < self.obstacles.len() && #[trigger] plane_hits(self.plane, self.obstacles[i])
    }

    pub open spec fn collision_checked(self) -> GameView {
        if !self.paused && self.hits() {
            GameView { paused: true, game_over_message: true, ..self }
        } else {
            self
        }
    }

    pub open spec fn restarted(self) -> GameView {
        GameView {
            plane: PlaneEntity {
                plane: Plane { velocity: 0 },
                ..self.with_plane_translation(spec_plane_initial_position()).plane
            },
            obstacles: bounds_of(self.obstacles),
            score: ScoreCounter { score: STARTING_SCORE },
            spawn_timer: SpawnTimer::spec_new(),
            paused: false,
            game_over_message: false,
            ..self
        }
    }

    /// Whether one frame of `dt` microseconds stays within machine integers.
    pub open spec fn tick_fits(self, dt: int, jump: bool) -> bool {
        let d = self.sim_dt(dt);
        &&& self.velocity_fits(jump, d)
        &&& self.with_velocity(jump, d).position_fits(d)
        &&& scroll_fits(self.obstacles, dt)
        &&& self.spawn_fits(d)
    }

    /// One frame: motion, scrolling, spawning, collision, restart, in this order.
    pub open spec fn after_tick(self, dt: int, jump: bool, restart: bool, up: bool) -> GameView {
        let d = self.sim_dt(dt);
        let g = self.with_velocity(jump, d).with_position(d).scrolled(dt).spawned(d, up).collision_checked();
        if restart {
            g.restarted()
        } else {
            g
        }
    }
}

/// The state of a running game.
pub struct Game {
    pub plane: PlaneEntity,
    pub obstacles: Vec<Obstacle>,
    pub score: ScoreCounter,
    pub score_text: String,
    pub spawn_timer: SpawnTimer,
    pub paused: bool,
    pub game_over_message: bool,
}

impl View for Game {
    type V = GameView;

    open spec fn view(&self) -> GameView {
        GameView {
            plane: self.plane,
            obstacles: self.obstacles@,
            score: self.score,
            score_text: self.score_text@,
            spawn_timer: self.spawn_timer,
            paused: self.paused,
            game_over_message: self.game_over_message,
        }
    }
}

/// `scale * v * dt`, which always fits in an `i128`.
fn scaled_travel(scale: i32, v: i64, dt_us: u32) -> (r: i128)
    ensures
        r == scale * v * dt_us,
        -0x4000_0000_0000_0000_0000_0000_0000_0000 <= r <= 0x4000_0000_0000_0000_0000_0000_0000_0000,
{
    let v = v as i128;
    let dt = dt_us as i128;
    let scale = scale as i128;
    assert(-0x8000_0000_0000_0000_0000_0000 <= v * dt <= 0x8000_0000_0000_0000_0000_0000) by (nonlinear_arith)
        requires
            i64::MIN <= v <= i64::MAX,
            0 <= dt <= u32::MAX,
    ;
    let vd = v * dt;
    assert(-0x4000_0000_0000_0000_0000_0000_0000_0000 <= scale * vd <= 0x4000_0000_0000_0000_0000_0000_0000_0000) by (nonlinear_arith)
        requires
            -0x8000_0000_0000_0000_0000_0000 <= vd <= 0x8000_0000_0000_0000_0000_0000,
            i32::MIN <= scale <= i32::MAX,
    ;
    let d = scale * vd;
    assert(d == scale * v * dt) by (nonlinear_arith)
        requires
            d == scale * vd,
            vd == v * dt,
    ;
    d
}

impl Game {
    /// The scene at startup: the plane at rest at its starting point, the four
    /// boundary strips, the starting score and a fresh spawn timer.
    pub fn new() -> (r: Game)
        ensures
            r@ == GameView::spec_initial(),
            r@.wf(),
    {
        proof {
            reveal_strlit("Score: ");
        }
        let g = Game {
            plane: initial_plane(),
            obstacles: initial_bounds(),
            score: ScoreCounter::default(),
            score_text: String::from_str("Score: "),
            spawn_timer: SpawnTimer::new(),
            paused: false,
            game_over_message: false,
        };
        assert(g.score_text@ =~= initial_score_text());
        g
    }

    /// Applies a requested jump, then gravity, over `dt_us` microseconds.
    pub fn update_plane_velocity(&mut self, jump: bool, dt_us: u32)
        requires
            old(self)@.velocity_fits(jump, dt_us as int),
        ensures
            final(self)@ == old(self)@.with_velocity(jump, dt_us as int),
    {
        let v = self.plane.plane.velocity;
        let v1 = if jump {
            if v >= MAX_VELOCITY - JUMP_VELOCITY {
                MAX_VELOCITY
            } else {
                v + JUMP_VELOCITY
            }
        } else {
            v
        };
        self.plane.plane.velocity = v1 + GRAVITY * (dt_us as i64);
    }

    /// Moves the plane vertically by its scaled velocity over `dt_us`
    /// microseconds.
    pub fn update_plane_position(&mut self, dt_us: u32)
        requires
            old(self)@.position_fits(dt_us as int),
        ensures
            final(self)@ == old(self)@.with_position(dt_us as int),
    {
        let d = scaled_travel(self.plane.body.transform.scale_y, self.plane.plane.velocity, dt_us);
        let y = (self.plane.body.transform.translation.y as i128) + d;
        self.plane.body.transform.translation.y = y as i64;
    }

    /// Scrolls every obstacle left by `dt_us` microseconds of travel; past
    /// the left edge a boundary strip jumps right and an active obstacle is
    /// removed.
    pub fn update_obstacles(&mut self, dt_us: u32)
        requires
            scroll_fits(old(self)@.obstacles, dt_us as int),
        ensures
            final(self)@ == old(self)@.scrolled(dt_us as int),
    {
        let ghost s = self.obstacles@;
        let step = OBSTACLE_SPEED * (dt_us as i64);
        let mut kept: Vec<Obstacle> = Vec::new();
        let mut i: usize = 0;
        while i < self.obstacles.len()
            invariant
                0 <= i <= s.len(),
                s == self.obstacles@,
                step == OBSTACLE_SPEED * dt_us,
                scroll_fits(s, dt_us as int),
                kept@ == scroll_all(s.take(i as int), dt_us as int),
            decreases s.len() - i,
        {
            let o = self.obstacles[i];
            assert(i64::MIN <= s[i as int].x() - OBSTACLE_SPEED * dt_us);
            let x = o.body.transform.translation.x - step;
            assert(s.take(i + 1).drop_last() =~= s.take(i as int));
            if x < LEFT_EDGE {
                match o.kind {
                    ObstacleKind::Bound => {
                        let mut moved = o;
                        moved.body.transform.translation.x = x + WRAP_SHIFT;
                        kept.push(moved);
                    },
                    ObstacleKind::Active => {},
                }
            } else {
                let mut moved = o;
                moved.body.transform.translation.x = x;
                kept.push(moved);
            }
            i = i + 1;
        }
        assert(s.take(s.len() as int) =~= s);
        self.obstacles = kept;
    }

    /// Advances the spawn timer by `dt_us`; when it finishes, the score goes up
    /// by one and its line is redrawn, an obstacle facing as `up` says enters
    /// at the right, and the interval shrinks.
    pub fn spawn_obstacles(&mut self, dt_us: u32, up: bool)
        requires
            old(self)@.wf(),
            old(self)@.spawn_fits(dt_us as int),
        ensures
            final(self)@ == old(self)@.spawned(dt_us as int, up),
            final(self)@.wf(),
    {
        let fired = self.spawn_timer.tick(dt_us);
        if fired {
            self.score.score = self.score.score + 1;
            self.score_text = score_text(self.score.score);
            self.obstacles.push(create_obstacle(up));
            self.spawn_timer.shorten();
        }
    }

    /// Unless the game is already over, ends it when the plane overlaps any
    /// obstacle: the clock pauses and the game-over message appears.
    pub fn check_game_over(&mut self)
        ensures
            final(self)@ == old(self)@.collision_checked(),
    {
        if self.paused {
            return;
        }
        let mut hit = false;
        let mut i: usize = 0;
        while i < self.obstacles.len()
            invariant
                0 <= i <= self.obstacles@.len(),
                hit == exists|j: int| 0 <= j < i && #[trigger] plane_hits(self.plane, self.obstacles@[j]),
            decreases self.obstacles@.len() - i,
        {
            let o = &self.obstacles[i];
            let h = collide(
                self.plane.body.transform.translation,
                self.plane.body.collidable,
                o.body.transform.translation,
                o.body.collidable,
            );
            assert(h == plane_hits(self.plane, self.obstacles@[i as int]));
            hit = hit || h;
            i = i + 1;
        }
        if hit {
            self.paused = true;
            self.game_over_message = true;
        }
    }

    /// Starts over: clock running, starting spawn interval, active obstacles
    /// and the game-over message gone, plane back at its start and at rest,
    /// starting score. Boundary strips stay where they are.
    pub fn restart(&mut self)
        ensures
            final(self)@ == old(self)@.restarted(),
    {
        let ghost s = self.obstacles@;
        let mut kept: Vec<Obstacle> = Vec::new();
        let mut i: usize = 0;
        while i < self.obstacles.len()
            invariant
                0 <= i <= s.len(),
                s == self.obstacles@,
                kept@ == bounds_of(s.take(i as int)),
            decreases s.len() - i,
        {
            let o = self.obstacles[i];
            assert(s.take(i + 1).drop_last() =~= s.take(i as int));
            match o.kind {
                ObstacleKind::Bound => kept.push(o),
                ObstacleKind::Active => {},
            }
            i = i + 1;
        }
        assert(s.take(s.len() as int) =~= s);
        self.obstacles = kept;
        self.paused = false;
        self.spawn_timer = SpawnTimer::new();
        self.game_over_message = false;
        self.plane.body.transform.translation = plane_initial_position();
        self.plane.plane.velocity = 0;
        self.score.score = STARTING_SCORE;
    }

    /// Whether `tick` may run a frame of `dt_us` microseconds from this state:
    /// every value it computes fits in its machine integer.
    pub fn can_tick(&self, dt_us: u32, jump: bool) -> (r: bool)
        ensures
            r == self@.tick_fits(dt_us as int, jump),
    {
        let d: u32 = if self.paused {
            0
        } else {
            dt_us
        };
        let v = self.plane.plane.velocity;
        let v1: i64 = if jump {
            if v >= MAX_VELOCITY - JUMP_VELOCITY {
                MAX_VELOCITY
            } else {
                v + JUMP_VELOCITY
            }
        } else {
            v
        };
        let v2 = (v1 as i128) + (GRAVITY as i128) * (d as i128);
        if v2 < i64::MIN as i128 {
            return false;
        }
        let y = (self.plane.body.transform.translation.y as i128) + scaled_travel(
            self.plane.body.transform.scale_y,
            v2 as i64,
            d,
        );
        if y < i64::MIN as i128 || y > i64::MAX as i128 {
            return false;
        }
        let step = (OBSTACLE_SPEED as i128) * (dt_us as i128);
        let mut i: usize = 0;
        while i < self.obstacles.len()
            invariant
                0 <= i <= self.obstacles@.len(),
                step == OBSTACLE_SPEED * dt_us,
                forall|j: int| 0 <= j < i ==> i64::MIN <= (#[trigger] self.obstacles@[j]).x() - OBSTACLE_SPEED * dt_us,
            decreases self.obstacles@.len() - i,
        {
            if (self.obstacles[i].body.transform.translation.x as i128) - step < i64::MIN as i128 {
                assert(!(i64::MIN <= self.obstacles@[i as int].x() - OBSTACLE_SPEED * dt_us));
                return false;
            }
            i = i + 1;
        }
        let fires = (self.spawn_timer.elapsed_us as u128) + (d as u128) >= self.spawn_timer.interval_us as u128;
        !fires || self.score.score < i32::MAX
    }

    /// One frame of `dt_us` microseconds: motion, scrolling, spawning,
    /// collision, then restart when `restart` is pressed. Motion and spawning
    /// see no time while the game is over; scrolling always does.
    pub fn tick(&mut self, dt_us: u32, jump: bool, restart: bool, up: bool)
        requires
            old(self)@.wf(),
            old(self)@.tick_fits(dt_us as int, jump),
        ensures
            final(self)@ == old(self)@.after_tick(dt_us as int, jump, restart, up),
            final(self)@.wf(),
    {
        let d: u32 = if self.paused {
            0
        } else {
            dt_us
        };
        self.update_plane_velocity(jump, d);
        self.update_plane_position(d);
        self.update_obstacles(dt_us);
        self.spawn_obstacles(d, up);
        self.check_game_over();
        if restart {
            self.restart();
        }
    }

    /// One frame as `tick` runs it, with the facing of a spawned obstacle
    /// drawn at random.
    pub fn step(&mut self, dt_us: u32, jump: bool, restart: bool)
        requires
            old(self)@.wf(),
            old(self)@.tick_fits(dt_us as int, jump),
        ensures
            final(self)@ == old(self)@.after_tick(dt_us as int, jump, restart, true) || final(self)@
                == old(self)@.after_tick(dt_us as int, jump, restart, false),
            final(self)@.wf(),
    {
        let up = coin_flip();
        self.tick(dt_us, jump, restart, up);
    }
}

} // verus!
