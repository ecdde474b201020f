use vstd::prelude::*;
use crate::game::GameView;
use crate::obstacle::{
    bounds_of, count_bounds, scroll_all, scroll_one, spec_spawned_obstacle, Obstacle, ObstacleKind, LEFT_EDGE,
};
use crate::plane::{jumped_velocity, spec_plane_initial_position, GRAVITY, MAX_VELOCITY};
use crate::spawn::{
    interval_after_spawns, MIN_SPAWN_INTERVAL, SPAWN_INTERVAL_DECREMENT, STARTING_SCORE,
    STARTING_SPAWN_INTERVAL,
};

verus! {

/// Right after a jump the velocity is at most `MAX_VELOCITY`, whatever it was
/// before; and from a velocity at most `MAX_VELOCITY`, no frame, whatever its
/// inputs, ends with a velocity above it.
pub proof fn lemma_velocity_clamp(g: GameView, dt: nat, jump: bool, restart: bool, up: bool)
    ensures
        jumped_velocity(g.plane.plane.velocity as int, true) <= MAX_VELOCITY,
        g.plane.plane.velocity <= MAX_VELOCITY && g.tick_fits(dt as int, jump) ==> g.after_tick(
            dt as int,
            jump,
            restart,
            up,
        ).plane.plane.velocity <= MAX_VELOCITY,
{
}

/// Without a jump, a frame of `dt` microseconds changes the velocity by
/// exactly `GRAVITY * dt`, so it strictly drops whenever time passes; in a
/// running game no later stage of the frame touches it unless it restarts.
pub proof fn lemma_gravity(g: GameView, dt: nat, up: bool)
    requires
        g.velocity_fits(false, dt as int),
    ensures
        g.with_velocity(false, dt as int).plane.plane.velocity == g.plane.plane.velocity + GRAVITY * dt,
        dt > 0 ==> g.with_velocity(false, dt as int).plane.plane.velocity < g.plane.plane.velocity,
        !g.paused ==> g.after_tick(dt as int, false, false, up).plane.plane.velocity == g.plane.plane.velocity
            + GRAVITY * dt,
{
}

proof fn lemma_scroll_keeps_bounds(s: Seq<Obstacle>, dt: int)
    ensures
        bounds_of(scroll_all(s, dt)).len() == bounds_of(s).len(),
    decreases s.len(),
{
    if s.len() > 0 {
        lemma_scroll_keeps_bounds(s.drop_last(), dt);
        let rest = scroll_all(s.drop_last(), dt);
        match scroll_one(s.last(), dt) {
            Some(o) => {
                assert(rest.push(o).drop_last() =~= rest);
            },
            None => {},
        }
    }
}

proof fn lemma_bounds_of_all_bound(s: Seq<Obstacle>)
    ensures
        forall|i: int| 0 <= i < bounds_of(s).len() ==> (#[trigger] bounds_of(s)[i]).kind == ObstacleKind::Bound,
        bounds_of(bounds_of(s)) == bounds_of(s),
    decreases s.len(),
{
    if s.len() > 0 {
        lemma_bounds_of_all_bound(s.drop_last());
        let b = bounds_of(s.drop_last());
        if s.last().kind == ObstacleKind::Bound {
            assert(b.push(s.last()).drop_last() =~= b);
        }
    }
}

/// Scrolling never destroys a boundary strip: one past the left edge comes
/// back `WRAP_SHIFT` further right, and over a whole frame the number of
/// boundary strips stays the same.
pub proof fn lemma_bounds_never_destroyed(g: GameView, dt: nat, jump: bool, restart: bool, up: bool)
    ensures
        forall|o: Obstacle|
            o.kind == ObstacleKind::Bound && o.x() - crate::obstacle::OBSTACLE_SPEED * dt < LEFT_EDGE
                ==> #[trigger] scroll_one(o, dt as int) == Some(
                o.with_x(o.x() - crate::obstacle::OBSTACLE_SPEED * dt + crate::obstacle::WRAP_SHIFT),
            ),
        count_bounds(scroll_all(g.obstacles, dt as int)) == count_bounds(g.obstacles),
        count_bounds(g.after_tick(dt as int, jump, restart, up).obstacles) == count_bounds(g.obstacles),
{
    let d = g.sim_dt(dt as int);
    lemma_scroll_keeps_bounds(g.obstacles, dt as int);
    let g3 = g.with_velocity(jump, d).with_position(d).scrolled(dt as int);
    let s = g3.obstacles;
    let pushed = s.push(spec_spawned_obstacle(up));
    assert(pushed.drop_last() =~= s);
    let g5 = g3.spawned(d, up).collision_checked();
    lemma_bounds_of_all_bound(g5.obstacles);
}

proof fn lemma_scroll_drops_gone(s: Seq<Obstacle>, dt: nat)
    ensures
        forall|i: int|
            0 <= i < scroll_all(s, dt as int).len() ==> (#[trigger] scroll_all(s, dt as int)[i]).kind
                == ObstacleKind::Active ==> scroll_all(s, dt as int)[i].x() >= LEFT_EDGE,
    decreases s.len(),
{
    if s.len() > 0 {
        lemma_scroll_drops_gone(s.drop_last(), dt);
        let rest = scroll_all(s.drop_last(), dt as int);
        let o = s.last();
        let x = o.x() - crate::obstacle::OBSTACLE_SPEED * dt;
        assert(x <= o.x()) by (nonlinear_arith)
            requires
                x == o.x() - crate::obstacle::OBSTACLE_SPEED * dt,
                dt >= 0,
        ;
        match scroll_one(o, dt as int) {
            Some(n) => {
                assert(rest.push(n).drop_last() =~= rest);
            },
            None => {},
        }
    }
}

/// An active obstacle that scrolls past the left edge is removed: none that
/// stays in the store, and so none that a collision check looks at, stands
/// left of the edge.
pub proof fn lemma_active_despawn(s: Seq<Obstacle>, dt: nat)
    ensures
        forall|o: Obstacle|
            o.kind == ObstacleKind::Active && o.x() - crate::obstacle::OBSTACLE_SPEED * dt < LEFT_EDGE
                ==> #[trigger] scroll_one(o, dt as int) == None::<Obstacle>,
        forall|i: int|
            0 <= i < scroll_all(s, dt as int).len() ==> (#[trigger] scroll_all(s, dt as int)[i]).kind
                == ObstacleKind::Active ==> scroll_all(s, dt as int)[i].x() >= LEFT_EDGE,
{
    lemma_scroll_drops_gone(s, dt);
}

/// The spawn interval starts at 500 ms and after `n` spawns is
/// `500 ms - n * 5 ms`, as long as that stays above the 50 ms floor; it never
/// grows from one spawn to the next, and a frame that spawns moves it one
/// step along this sequence.
pub proof fn lemma_spawn_interval_ramp(n: nat, g: GameView, dt: nat, up: bool)
    ensures
        n <= 90 ==> interval_after_spawns(n) == STARTING_SPAWN_INTERVAL - n * SPAWN_INTERVAL_DECREMENT,
        interval_after_spawns(n + 1) <= interval_after_spawns(n),
        g.wf() && g.spawn_timer.interval_us == interval_after_spawns(n) && g.spawn_timer.fires(dt as int)
            ==> g.spawned(dt as int, up).spawn_timer.interval_us == interval_after_spawns(n + 1),
    decreases n,
{
    if n > 0 {
        lemma_spawn_interval_ramp((n - 1) as nat, g, dt, up);
    }
    assert(MIN_SPAWN_INTERVAL <= interval_after_spawns(n + 1));
}

/// Between restarts the spawn interval never grows: no frame without a
/// restart lengthens it.
pub proof fn lemma_interval_never_grows(g: GameView, dt: nat, jump: bool, up: bool)
    requires
        g.wf(),
    ensures
        g.after_tick(dt as int, jump, false, up).spawn_timer.interval_us <= g.spawn_timer.interval_us,
{
}

/// Once the game is over, frames without a restart leave it over: the clock
/// stays paused and no second game-over message appears.
pub proof fn lemma_game_over_is_stable(g: GameView, dt: nat, jump: bool, up: bool)
    requires
        g.paused,
    ensures
        g.collision_checked() == g,
        g.after_tick(dt as int, jump, false, up).paused,
        g.after_tick(dt as int, jump, false, up).game_over_message == g.game_over_message,
{
}

/// A frame with a restart ends with the plane at its starting point and at
/// rest, the starting score, only boundary strips, no game-over message, the
/// starting spawn interval and the clock running.
pub proof fn lemma_restart_resets(g: GameView, dt: nat, jump: bool, up: bool)
    ensures
        g.after_tick(dt as int, jump, true, up).plane.body.transform.translation == spec_plane_initial_position(),
        g.after_tick(dt as int, jump, true, up).plane.plane.velocity == 0,
        g.after_tick(dt as int, jump, true, up).score.score == STARTING_SCORE,
        forall|i: int|
            0 <= i < g.after_tick(dt as int, jump, true, up).obstacles.len() ==> (#[trigger] g.after_tick(
                dt as int,
                jump,
                true,
                up,
            ).obstacles[i]).kind == ObstacleKind::Bound,
        !g.after_tick(dt as int, jump, true, up).game_over_message,
        g.after_tick(dt as int, jump, true, up).spawn_timer.interval_us == STARTING_SPAWN_INTERVAL,
        !g.after_tick(dt as int, jump, true, up).paused,
{
    let d = g.sim_dt(dt as int);
    let g5 = g.with_velocity(jump, d).with_position(d).scrolled(dt as int).spawned(d, up).collision_checked();
    lemma_bounds_of_all_bound(g5.obstacles);
}

} // verus!
