use flappy_plane::game::Game;
use flappy_plane::geometry::{collide, Collidable, CollidableSpriteBundle, Point3, Texture, PX};
use flappy_plane::obstacle::{create_obstacle, create_random_obstacle, Obstacle, ObstacleKind, LEFT_EDGE};
use flappy_plane::plane::{Plane, MAX_VELOCITY, PLANE_START_X, PLANE_START_Y, PLANE_START_Z};
use flappy_plane::spawn::{score_text, ScoreCounter, SpawnTimer, STARTING_SPAWN_INTERVAL};

fn p(x: i64, y: i64) -> Point3 {
    Point3 { x: x * PX, y: y * PX, z: 0 }
}

fn size(w: i64, h: i64) -> Collidable {
    Collidable { width: w * PX, height: h * PX }
}

fn obstacle_at(x: i64, kind: ObstacleKind) -> Obstacle {
    Obstacle {
        body: CollidableSpriteBundle::new(Texture::Ground, size(800, 30), Point3 { x, y: -220 * PX, z: PX }, false),
        kind,
    }
}

fn start_position() -> Point3 {
    Point3 { x: PLANE_START_X, y: PLANE_START_Y, z: PLANE_START_Z }
}

#[test]
fn aabb_overlap_near_boxes() {
    assert!(collide(p(0, 0), size(80, 70), p(50, 0), size(70, 200)));
}

#[test]
fn aabb_no_overlap_far_boxes() {
    assert!(!collide(p(0, 0), size(80, 70), p(200, 0), size(70, 200)));
}

#[test]
fn aabb_touching_edges_do_not_overlap() {
    assert!(!collide(p(0, 0), size(80, 70), p(75, 0), size(70, 200)));
    assert!(collide(p(0, 0), size(80, 70), Point3 { x: 75 * PX - 1, y: 0, z: 0 }, size(70, 200)));
    assert!(!collide(p(0, 0), size(80, 70), p(0, 135), size(70, 200)));
}

#[test]
fn defaults() {
    assert_eq!(Plane::default().velocity, 0);
    assert_eq!(ScoreCounter::default().score, -4);
    let t = SpawnTimer::new();
    assert_eq!(t.interval_us, 500_000);
    assert_eq!(t.elapsed_us, 0);
}

#[test]
fn initial_scene() {
    let g = Game::new();
    assert_eq!(g.plane.body.transform.translation, start_position());
    assert_eq!(g.plane.body.collidable, size(80, 70));
    assert_eq!(g.plane.plane.velocity, 0);
    assert_eq!(g.obstacles.len(), 4);
    assert!(g.obstacles.iter().all(|o| o.kind == ObstacleKind::Bound));
    assert_eq!(g.obstacles[1].body.transform.translation, Point3 { x: 0, y: 220 * PX, z: PX });
    assert!(g.obstacles[1].body.transform.flipped);
    assert_eq!(g.obstacles[2].body.transform.translation, Point3 { x: 800 * PX, y: -220 * PX, z: PX });
    assert_eq!(g.score.score, -4);
    assert_eq!(g.score_text, "Score: ");
    assert!(!g.paused);
    assert!(!g.game_over_message);
}

#[test]
fn jump_is_capped_at_max_velocity() {
    let mut g = Game::new();
    g.update_plane_velocity(true, 0);
    assert_eq!(g.plane.plane.velocity, MAX_VELOCITY);
    g.update_plane_velocity(true, 0);
    assert_eq!(g.plane.plane.velocity, 800_000);
    g.plane.plane.velocity = -500_000;
    g.update_plane_velocity(true, 0);
    assert_eq!(g.plane.plane.velocity, 500_000);
}

#[test]
fn jump_then_gravity() {
    let mut g = Game::new();
    // 800 px/s after the jump, then 10 ms of -2000 px/s² takes 20 px/s off.
    g.update_plane_velocity(true, 10_000);
    assert_eq!(g.plane.plane.velocity, 780_000);
}

#[test]
fn gravity_without_jump_keeps_falling() {
    let mut g = Game::new();
    let mut last = g.plane.plane.velocity;
    for _ in 0..5 {
        g.update_plane_velocity(false, 16_000);
        assert_eq!(g.plane.plane.velocity, last - 32_000);
        assert!(g.plane.plane.velocity < last);
        last = g.plane.plane.velocity;
    }
    assert_eq!(last, -160_000);
}

#[test]
fn position_follows_scaled_velocity() {
    let mut g = Game::new();
    g.plane.plane.velocity = 800_000;
    g.update_plane_position(1_000);
    assert_eq!(g.plane.body.transform.translation.y, 100 * PX + 800_000_000);
    g.plane.body.transform.scale_y = 2;
    g.plane.plane.velocity = -1_000_000;
    g.update_plane_position(500_000);
    assert_eq!(g.plane.body.transform.translation.y, 100 * PX + 800_000_000 - 1000 * PX);
}

#[test]
fn boundary_wraps_by_two_screens() {
    let mut g = Game::new();
    g.obstacles = vec![obstacle_at(-801 * PX, ObstacleKind::Bound)];
    g.update_obstacles(0);
    assert_eq!(g.obstacles.len(), 1);
    assert_eq!(g.obstacles[0].body.transform.translation.x, 799 * PX);
}

#[test]
fn boundary_scrolled_past_edge_comes_back() {
    let mut g = Game::new();
    g.obstacles = vec![obstacle_at(-301 * PX, ObstacleKind::Bound)];
    // One second at 500 px/s takes it to -801 px.
    g.update_obstacles(1_000_000);
    assert_eq!(g.obstacles.len(), 1);
    assert_eq!(g.obstacles[0].body.transform.translation.x, 799 * PX);
}

#[test]
fn obstacle_exactly_at_edge_stays() {
    let mut g = Game::new();
    g.obstacles = vec![obstacle_at(-799 * PX, ObstacleKind::Active)];
    g.update_obstacles(2_000);
    assert_eq!(g.obstacles.len(), 1);
    assert_eq!(g.obstacles[0].body.transform.translation.x, LEFT_EDGE);
}

#[test]
fn active_obstacle_despawns_past_edge() {
    let mut g = Game::new();
    g.obstacles = vec![
        obstacle_at(-799 * PX, ObstacleKind::Active),
        obstacle_at(0, ObstacleKind::Active),
        obstacle_at(-799 * PX, ObstacleKind::Bound),
    ];
    g.update_obstacles(4_000);
    assert_eq!(g.obstacles.len(), 2);
    assert_eq!(g.obstacles[0].kind, ObstacleKind::Active);
    assert_eq!(g.obstacles[0].body.transform.translation.x, -2 * PX);
    assert_eq!(g.obstacles[1].kind, ObstacleKind::Bound);
    assert_eq!(g.obstacles[1].body.transform.translation.x, 799 * PX);
}

#[test]
fn despawned_obstacle_is_not_collided_with() {
    let mut g = Game::new();
    g.obstacles = vec![obstacle_at(-799 * PX, ObstacleKind::Active)];
    g.plane.body.transform.translation = Point3 { x: -801 * PX, y: -220 * PX, z: 0 };
    g.update_obstacles(4_000);
    assert!(g.obstacles.is_empty());
    g.check_game_over();
    assert!(!g.paused);
    assert!(!g.game_over_message);
}

#[test]
fn score_increments_and_display_clamps() {
    let mut g = Game::new();
    assert_eq!(g.score.score, -4);
    let mut shown = Vec::new();
    for _ in 0..5 {
        let dt = g.spawn_timer.interval_us as u32;
        g.spawn_obstacles(dt, true);
        shown.push((g.score.score, g.score_text.clone()));
    }
    assert_eq!(shown[0], (-3, "Score: 0".to_string()));
    assert_eq!(shown[3], (0, "Score: 0".to_string()));
    assert_eq!(shown[4], (1, "Score: 1".to_string()));
}

#[test]
fn score_text_digits() {
    assert_eq!(score_text(-4), "Score: 0");
    assert_eq!(score_text(0), "Score: 0");
    assert_eq!(score_text(7), "Score: 7");
    assert_eq!(score_text(10), "Score: 10");
    assert_eq!(score_text(2_147_483_647), "Score: 2147483647");
}

#[test]
fn spawn_creates_active_obstacle_at_right_edge() {
    let mut g = Game::new();
    g.spawn_obstacles(500_000, false);
    assert_eq!(g.obstacles.len(), 5);
    let o = g.obstacles[4];
    assert_eq!(o, create_obstacle(false));
    assert_eq!(o.kind, ObstacleKind::Active);
    assert_eq!(o.body.transform.translation.x, 800 * PX);
    assert_eq!(o.body.transform.translation.y, -200 * PX);
    assert_eq!(o.body.collidable, size(70, 200));
    assert!(!o.body.transform.flipped);
    let up = create_obstacle(true);
    assert_eq!(up.body.transform.translation.y, 200 * PX);
    assert!(up.body.transform.flipped);
}

#[test]
fn random_obstacle_faces_either_way() {
    for _ in 0..20 {
        let o = create_random_obstacle();
        assert!(o == create_obstacle(true) || o == create_obstacle(false));
    }
}

#[test]
fn no_spawn_before_interval() {
    let mut g = Game::new();
    g.spawn_obstacles(499_999, true);
    assert_eq!(g.score.score, -4);
    assert_eq!(g.obstacles.len(), 4);
    assert_eq!(g.spawn_timer.elapsed_us, 499_999);
    g.spawn_obstacles(3, true);
    assert_eq!(g.score.score, -3);
    assert_eq!(g.spawn_timer.elapsed_us, 2);
    assert_eq!(g.spawn_timer.interval_us, 495_000);
}

#[test]
fn spawn_interval_ramp() {
    let mut g = Game::new();
    assert_eq!(g.spawn_timer.interval_us, STARTING_SPAWN_INTERVAL);
    for n in 1..=90u64 {
        let dt = g.spawn_timer.interval_us as u32;
        g.spawn_obstacles(dt, true);
        assert_eq!(g.spawn_timer.interval_us, 500_000 - n * 5_000);
    }
    assert_eq!(g.spawn_timer.interval_us, 50_000);
    g.spawn_obstacles(50_000, true);
    assert_eq!(g.spawn_timer.interval_us, 50_000);
}

#[test]
fn collision_pauses_once() {
    let mut g = Game::new();
    g.plane.body.transform.translation = Point3 { x: 0, y: -200 * PX, z: 0 };
    g.check_game_over();
    assert!(g.paused);
    assert!(g.game_over_message);
    for _ in 0..3 {
        assert!(g.can_tick(16_000, true));
        g.tick(16_000, true, false, true);
        assert!(g.paused);
        assert!(g.game_over_message);
    }
}

#[test]
fn no_collision_in_open_air() {
    let mut g = Game::new();
    g.check_game_over();
    assert!(!g.paused);
    assert!(!g.game_over_message);
}

#[test]
fn paused_game_freezes_plane_and_timer_but_scrolls() {
    let mut g = Game::new();
    g.paused = true;
    let y = g.plane.body.transform.translation.y;
    g.tick(100_000, false, false, true);
    assert_eq!(g.plane.body.transform.translation.y, y);
    assert_eq!(g.plane.plane.velocity, 0);
    assert_eq!(g.spawn_timer.elapsed_us, 0);
    assert_eq!(g.obstacles[0].body.transform.translation.x, -50 * PX);
}

#[test]
fn falling_plane_hits_floor() {
    let mut g = Game::new();
    let mut frames = 0;
    while !g.paused && frames < 1000 {
        assert!(g.can_tick(16_000, false));
        g.tick(16_000, false, false, false);
        frames += 1;
    }
    assert!(g.paused);
    assert!(g.game_over_message);
    assert!(frames > 1);
}

#[test]
fn restart_resets_exactly() {
    let mut g = Game::new();
    g.spawn_obstacles(500_000, true);
    g.spawn_obstacles(495_000, false);
    g.plane.body.transform.translation = Point3 { x: 0, y: -200 * PX, z: 0 };
    g.plane.plane.velocity = -300_000;
    g.check_game_over();
    assert!(g.paused);
    let before: Vec<Obstacle> = g.obstacles.iter().copied().filter(|o| o.kind == ObstacleKind::Bound).collect();
    g.restart();
    assert_eq!(g.plane.body.transform.translation, start_position());
    assert_eq!(g.plane.plane.velocity, 0);
    assert_eq!(g.score.score, -4);
    assert_eq!(g.obstacles, before);
    assert!(!g.game_over_message);
    assert_eq!(g.spawn_timer.interval_us, 500_000);
    assert!(!g.paused);
}

#[test]
fn restart_within_tick() {
    let mut g = Game::new();
    g.paused = true;
    g.game_over_message = true;
    g.tick(10_000, false, true, true);
    assert!(!g.paused);
    assert!(!g.game_over_message);
    assert_eq!(g.plane.body.transform.translation, start_position());
    assert_eq!(g.obstacles.len(), 4);
}

#[test]
fn step_spawns_with_random_facing() {
    let mut g = Game::new();
    g.plane.plane.velocity = 0;
    g.step(500_000, false, false);
    assert_eq!(g.score.score, -3);
    let o = g.obstacles[4];
    assert!(o == create_obstacle(true) || o == create_obstacle(false));
}

#[test]
fn can_tick_refuses_overflow() {
    let mut g = Game::new();
    g.plane.plane.velocity = i64::MIN + 10;
    assert!(!g.can_tick(1_000, false));
    assert!(g.can_tick(0, false));
    let mut h = Game::new();
    h.obstacles[0].body.transform.translation.x = i64::MIN + 5;
    assert!(!h.can_tick(1, false));
    let mut s = Game::new();
    s.score.score = i32::MAX;
    assert!(!s.can_tick(500_000, false));
    assert!(s.can_tick(1_000, false));
}
