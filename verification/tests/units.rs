use tile_cat::bug::{make_bug, Bug};
use tile_cat::bullet::{despawn_bullet, move_bullet, spawn_bullet, Bullet, BulletFireEvent};
use tile_cat::cat::{
    animate_cat, build_ground_cat, confine_cat, fire_bullet_cat, jump_cat, move_cat,
    toggle_cat_gun, Cat, EntityDirection, InputFrame,
};
use tile_cat::geom::Viewport;
use tile_cat::ground::{despawn_temp_ground, spawn_beneath_cat, spawn_ground, Ground, GroundBuildEvent};
use tile_cat::stats::Stats;
use tile_cat::timer::{Timer, TimerMode};

fn view_800_600() -> Viewport {
    Viewport::from_window(800, 600)
}

#[test]
fn window_converts_to_milliunits_exactly() {
    let v = view_800_600();
    assert_eq!(v.width, 200_000);
    assert_eq!(v.height, 150_000);
}

#[test]
fn repeating_timer_fires_and_keeps_overshoot() {
    let mut t = Timer::repeating(840);
    t.tick(500);
    assert!(!t.just_finished);
    assert_eq!(t.elapsed_ms, 500);
    t.tick(500);
    assert!(t.just_finished);
    assert_eq!(t.elapsed_ms, 160);
    t.tick(100);
    assert!(!t.just_finished);
}

#[test]
fn once_timer_saturates_and_reports_one_finish() {
    let mut t = Timer::new(120, TimerMode::Once);
    assert!(!t.finished());
    t.tick(119);
    assert!(!t.finished());
    assert!(!t.just_finished);
    t.tick(1);
    assert!(t.finished());
    assert!(t.just_finished);
    t.tick(50);
    assert!(t.finished());
    assert!(!t.just_finished);
    assert_eq!(t.elapsed_ms, 120);
    t.reset();
    assert!(!t.finished());
    assert_eq!(t.elapsed_ms, 0);
}

#[test]
fn difficulty_step_scenario() {
    // Score 149 with divisor 50 and step 0.15 gives 1.30; 150 gives 1.45
    // (the multiplier is held in hundredths).
    let mut s = Stats { score: 149, hearts: 5, difficulty: 100 };
    s.step_difficulty();
    assert_eq!(s.difficulty, 130);
    s.score = 150;
    s.step_difficulty();
    assert_eq!(s.difficulty, 145);
}

#[test]
fn difficulty_clamps_and_then_skips_recompute() {
    let mut s = Stats { score: 100_000, hearts: 5, difficulty: 100 };
    s.step_difficulty();
    assert_eq!(s.difficulty, 400);
    s.score = 200_000;
    s.step_difficulty();
    assert_eq!(s.difficulty, 400);
}

#[test]
fn difficulty_non_decreasing_over_a_run() {
    let mut s = Stats::new();
    let mut last = s.difficulty;
    for _ in 0..300 {
        s.add_score(5);
        s.step_difficulty();
        assert!(s.difficulty >= last);
        assert!(s.difficulty <= 400);
        last = s.difficulty;
    }
    assert_eq!(s.difficulty, 400);
}

#[test]
fn hearts_never_underflow() {
    let mut s = Stats::new();
    assert_eq!(s.hearts, 5);
    for _ in 0..5 {
        s.record_escape();
    }
    assert_eq!(s.hearts, 0);
    s.record_escape();
    assert_eq!(s.hearts, 0);
}

#[test]
fn reset_stats_starts_a_fresh_run() {
    let mut s = Stats { score: 777, hearts: 0, difficulty: 400 };
    s.reset_stats();
    assert_eq!(s.score, 0);
    assert_eq!(s.hearts, 5);
    assert_eq!(s.difficulty, 100);
}

#[test]
fn baseline_terrain_tiles_the_width() {
    let v = view_800_600();
    let row = spawn_ground(v);
    // floor(200 / 16) blocks of width 16 units.
    assert_eq!(row.len(), 12);
    for (i, g) in row.iter().enumerate() {
        assert_eq!(g.y, -75_000);
        assert!(!g.temporary);
        assert_eq!(g.x, -100_000 + 8_000 + 4_000 + (i as i64) * 16_000);
    }
}

#[test]
fn eviction_keeps_the_four_most_recent() {
    // Scenario: five sequential build actions at distinct positions leave
    // exactly the four most recently placed temporary blocks.
    let mut pool: Vec<Ground> = Vec::new();
    for i in 0..5i64 {
        let ev = GroundBuildEvent { x: i * 20_000, y: 0 };
        pool.push(spawn_beneath_cat(&ev));
        despawn_temp_ground(&mut pool);
        assert!(pool.iter().filter(|g| g.temporary).count() <= 4);
    }
    assert_eq!(pool.len(), 4);
    let xs: Vec<i64> = pool.iter().map(|g| g.x).collect();
    assert_eq!(xs, vec![20_000, 40_000, 60_000, 80_000]);
}

#[test]
fn eviction_spares_baseline_blocks() {
    let v = view_800_600();
    let mut pool = spawn_ground(v);
    let baseline = pool.len();
    for i in 0..7i64 {
        let ev = GroundBuildEvent { x: i * 20_000, y: 0 };
        pool.push(spawn_beneath_cat(&ev));
        despawn_temp_ground(&mut pool);
    }
    assert_eq!(pool.iter().filter(|g| !g.temporary).count(), baseline);
    assert_eq!(pool.iter().filter(|g| g.temporary).count(), 4);
}

#[test]
fn placed_block_sits_beneath_the_actor() {
    let ev = GroundBuildEvent { x: 5_000, y: -10_000 };
    let g = spawn_beneath_cat(&ev);
    assert_eq!(g.x, 5_000);
    // Half actor size plus half block width below the actor's center.
    assert_eq!(g.y, -10_000 - 8_000 - 8_000);
    assert!(g.temporary);
}

#[test]
fn movement_integrates_impulse_friction_and_gravity() {
    let mut c = Cat::new();
    let mut input = InputFrame::idle();
    input.right_impulses = 1;
    move_cat(&mut c, &input, 1000);
    // One impulse of 25 units/s, damped to four fifths, over one second.
    assert_eq!(c.vx, 20_000);
    assert_eq!(c.px, 20_000);
    // Gravity of 200.8 units/s^2 over one second.
    assert_eq!(c.vy, -200_800);
    assert_eq!(c.py, -200_800);
    assert!(matches!(c.direction, EntityDirection::Right));
}

#[test]
fn simultaneous_sources_add_impulses() {
    let mut c = Cat::new();
    let mut input = InputFrame::idle();
    input.right_impulses = 2;
    move_cat(&mut c, &input, 0);
    assert_eq!(c.vx, 40_000);
    input.right_impulses = 0;
    input.left_impulses = 1;
    move_cat(&mut c, &input, 0);
    // (40_000 - 25_000) * 4 / 5
    assert_eq!(c.vx, 12_000);
    assert!(matches!(c.direction, EntityDirection::Left));
}

#[test]
fn jump_scenario_with_and_without_weapon() {
    // Scenario: at rest with the jump permission, a jump press sets the
    // fixed impulse and clears the permission; the weapon costs part of it.
    let mut c = Cat::new();
    c.can_jump = true;
    jump_cat(&mut c, true);
    assert!(!c.can_jump);
    assert_eq!(c.vy, 80_000);

    let mut armed = Cat::new();
    armed.can_jump = true;
    armed.has_gun = true;
    jump_cat(&mut armed, true);
    assert_eq!(armed.vy, 70_000);

    let mut resting = Cat::new();
    resting.can_jump = false;
    resting.vy = 0;
    jump_cat(&mut resting, true);
    assert_eq!(resting.vy, 0);
}

#[test]
fn landing_on_terrain_restores_the_jump() {
    let v = view_800_600();
    let block = Ground { x: 0, y: -75_000, temporary: false, flora: false };
    let mut c = Cat::new();
    c.py = -66_000;
    c.vy = -5_000;
    confine_cat(&mut c, &vec![block], v);
    // Snapped onto the block's surface, fall zeroed, jump granted.
    assert_eq!(c.py, -59_000);
    assert_eq!(c.vy, 0);
    assert!(c.can_jump);
}

#[test]
fn bottom_screen_clamp_lands_the_actor() {
    let v = view_800_600();
    let mut c = Cat::new();
    c.py = -80_000;
    c.vy = -9_000;
    confine_cat(&mut c, &Vec::new(), v);
    assert_eq!(c.py, 8_000 - 75_000);
    assert_eq!(c.vy, 0);
    assert!(c.can_jump);
}

#[test]
fn side_and_top_clamps_only_move() {
    let v = view_800_600();
    let mut c = Cat::new();
    c.px = 1_000_000;
    c.py = 1_000_000;
    c.vy = 3_000;
    confine_cat(&mut c, &Vec::new(), v);
    assert_eq!(c.px, 100_000 - 8_000);
    assert_eq!(c.py, 75_000 - 8_000);
    assert_eq!(c.vy, 3_000);
    assert!(!c.can_jump);
}

#[test]
fn overlapping_blocks_snap_to_the_highest_surface() {
    let v = view_800_600();
    let low = Ground { x: 0, y: -75_000, temporary: false, flora: false };
    let high = Ground { x: 2_000, y: -71_000, temporary: true, flora: false };
    let mut c = Cat::new();
    c.py = -64_000;
    confine_cat(&mut c, &vec![low, high], v);
    assert_eq!(c.py, -71_000 + 16_000);

    // The same terrain in the other order snaps the same way.
    let mut d = Cat::new();
    d.py = -64_000;
    confine_cat(&mut d, &vec![high, low], v);
    assert_eq!(d.py, -71_000 + 16_000);
}

#[test]
fn weapon_toggle_is_an_involution() {
    let mut c = Cat::new();
    assert!(!c.has_gun);
    toggle_cat_gun(&mut c, true);
    assert!(c.has_gun);
    toggle_cat_gun(&mut c, true);
    assert!(!c.has_gun);
    toggle_cat_gun(&mut c, false);
    assert!(!c.has_gun);
}

#[test]
fn fire_needs_weapon_and_cooldown() {
    let mut c = Cat::new();
    let mut cooldown = Timer::new(120, TimerMode::Once);
    // No weapon: nothing happens, the cooldown does not even advance.
    assert!(fire_bullet_cat(&mut c, &mut cooldown, true, 500).is_none());
    assert_eq!(cooldown.elapsed_ms, 0);

    c.has_gun = true;
    // Cooldown not yet elapsed on this tick.
    assert!(fire_bullet_cat(&mut c, &mut cooldown, true, 60).is_none());
    assert!(!c.is_firing);
    // Now it elapses, the shot goes out and the cooldown restarts.
    let ev = fire_bullet_cat(&mut c, &mut cooldown, true, 60).expect("shot");
    assert_eq!(ev.direction, 1);
    assert!(c.is_firing);
    assert_eq!(cooldown.elapsed_ms, 0);
    // Held past the next cooldown: the pose ends, a new shot goes out.
    c.direction = EntityDirection::Left;
    let ev2 = fire_bullet_cat(&mut c, &mut cooldown, true, 120).expect("second shot");
    assert_eq!(ev2.direction, -1);
}

#[test]
fn build_request_carries_the_position() {
    let mut c = Cat::new();
    c.px = 7_000;
    c.py = -3_000;
    assert!(build_ground_cat(&c, false).is_none());
    let ev = build_ground_cat(&c, true).expect("request");
    assert_eq!((ev.x, ev.y), (7_000, -3_000));
}

#[test]
fn sprite_frames_follow_the_actor_state() {
    let mut c = Cat::new();
    c.can_jump = true;
    assert_eq!(animate_cat(&c), 0);
    c.can_jump = false;
    assert_eq!(animate_cat(&c), 1);
    c.has_gun = true;
    assert_eq!(animate_cat(&c), 3);
    c.can_jump = true;
    assert_eq!(animate_cat(&c), 2);
    c.is_firing = true;
    assert_eq!(animate_cat(&c), 4);
}

#[test]
fn bullet_spawns_offset_from_the_actor() {
    let (b, spark) = spawn_bullet(10_000, 2_000, &BulletFireEvent { direction: -1 });
    assert_eq!(b.x, 10_000 - 16_000);
    assert_eq!(b.y, 2_000 - 2_500);
    assert_eq!(b.direction, -1);
    assert!(!b.doomed);
    assert_eq!(spark.x, 10_000 - 15_500);
    assert_eq!(spark.timer.duration_ms, 20);
}

#[test]
fn bullet_past_the_far_edge_is_flagged_not_moved() {
    let v = view_800_600();
    let inside = Bullet { x: 90_000, y: 0, direction: 1, doomed: false };
    let outside = Bullet { x: 108_100, y: 0, direction: 1, doomed: false };
    let mut pool = vec![inside, outside];
    move_bullet(&mut pool, v, 16);
    assert_eq!(pool[0].x, 90_000 + 6_400);
    assert!(!pool[0].doomed);
    assert_eq!(pool[1].x, 108_100);
    assert!(pool[1].doomed);
    despawn_bullet(&mut pool);
    assert_eq!(pool.len(), 1);
    assert_eq!(pool[0].x, 96_400);
}

#[test]
fn leftward_bullet_despawns_past_the_left_edge() {
    let v = view_800_600();
    let mut pool = vec![Bullet { x: -108_100, y: 0, direction: -1, doomed: false }];
    move_bullet(&mut pool, v, 16);
    assert!(pool[0].doomed);
    despawn_bullet(&mut pool);
    assert!(pool.is_empty());
}

#[test]
fn crawler_spawns_on_the_terrain_line() {
    let v = view_800_600();
    let b = make_bug(2, 500, true, 1500, v);
    assert!(!b.can_fly);
    assert_eq!(b.x, -100_000 - 8_000);
    assert_eq!(b.y, -75_000 + 16_000);
    assert_eq!(b.wander_vel, 0);
}

#[test]
fn flier_spawns_within_the_padded_band() {
    let v = view_800_600();
    let up = make_bug(0, 500, false, 1500, v);
    assert!(up.can_fly);
    assert_eq!(up.y, (75_000 - 16_000) * 500 / 1000);
    let down = make_bug(1, 500, true, 1500, v);
    assert_eq!(down.y, -((75_000 - 16_000) * 500 / 1000));
}

#[test]
fn bug_speed_scales_with_difficulty() {
    let v = view_800_600();
    let mut b = make_bug(2, 0, false, 2000, v);
    let x0 = b.x;
    tile_cat::bug::move_bug(&mut b, 1000, 100, 0);
    assert_eq!(b.x - x0, 20_000);
    let x1 = b.x;
    tile_cat::bug::move_bug(&mut b, 1000, 400, 0);
    assert_eq!(b.x - x1, 80_000);
}

#[test]
fn wander_rerolls_when_its_timer_fires() {
    let v = view_800_600();
    let mut b = make_bug(0, 0, false, 1000, v);
    let y0 = b.y;
    // Timer fires after a full second; the re-roll applies immediately.
    tile_cat::bug::move_bug(&mut b, 1000, 100, 1);
    assert_eq!(b.wander_vel, 1);
    assert_eq!(b.y - y0, 15_000);
    // Crawler never takes a re-roll.
    let mut c = make_bug(2, 0, false, 1000, v);
    tile_cat::bug::move_bug(&mut c, 1000, 100, 1);
    assert_eq!(c.wander_vel, 0);
}

#[test]
fn confinement_clamps_and_stills_the_wander() {
    let v = view_800_600();
    let mut b = make_bug(0, 0, false, 1000, v);
    b.y = 80_000;
    b.wander_vel = 1;
    tile_cat::bug::confine_bug(&mut b, v);
    assert_eq!(b.y, 75_000 - 8_000);
    assert_eq!(b.wander_vel, 0);
    b.y = -80_000;
    b.wander_vel = -1;
    tile_cat::bug::confine_bug(&mut b, v);
    assert_eq!(b.y, 16_000 - 75_000);
    assert_eq!(b.wander_vel, 0);
}

#[test]
fn kills_award_once_per_qualifying_pair() {
    // Scenario: a projectile and an agent within the collision threshold
    // are both removed, and the score rises by the reward exactly once per
    // qualifying pair.
    let v = view_800_600();
    let b_near = Bullet { x: 0, y: 0, direction: 1, doomed: false };
    let b_far = Bullet { x: 90_000, y: 0, direction: 1, doomed: false };
    let g_near = make_bug_at(v, 5_000, 5_000);
    let g_far = make_bug_at(v, -90_000, 0);
    let mut bullets = vec![b_near, b_far];
    let mut bugs = vec![g_near, g_far];
    let mut stats = Stats::new();
    tile_cat::bug::eat_bullet_bug(&mut bullets, &mut bugs, &mut stats);
    assert_eq!(stats.score, 5);
    assert_eq!(bullets.len(), 1);
    assert_eq!(bullets[0].x, 90_000);
    assert_eq!(bugs.len(), 1);
    assert_eq!(bugs[0].x, -90_000);
}

#[test]
fn one_projectile_can_fell_two_agents() {
    let v = view_800_600();
    let mut bullets = vec![Bullet { x: 0, y: 0, direction: 1, doomed: false }];
    let mut bugs = vec![make_bug_at(v, 4_000, 0), make_bug_at(v, -4_000, 0)];
    let mut stats = Stats::new();
    tile_cat::bug::eat_bullet_bug(&mut bullets, &mut bugs, &mut stats);
    assert_eq!(stats.score, 10);
    assert!(bullets.is_empty());
    assert!(bugs.is_empty());
}

#[test]
fn collision_at_exactly_the_threshold_misses() {
    let v = view_800_600();
    let mut bullets = vec![Bullet { x: 0, y: 0, direction: 1, doomed: false }];
    let mut bugs = vec![make_bug_at(v, 16_000, 0)];
    let mut stats = Stats::new();
    tile_cat::bug::eat_bullet_bug(&mut bullets, &mut bugs, &mut stats);
    assert_eq!(stats.score, 0);
    assert_eq!(bugs.len(), 1);
}

fn make_bug_at(v: Viewport, x: i64, y: i64) -> Bug {
    let mut b = make_bug(0, 0, false, 1500, v);
    b.x = x;
    b.y = y;
    b
}
