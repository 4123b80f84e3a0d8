use tile_cat::bug::make_bug;
use tile_cat::bullet::Bullet;
use tile_cat::cat::InputFrame;
use tile_cat::geom::Viewport;
use tile_cat::phase::{GameState, SimulationState};
use tile_cat::world::World;

fn view() -> Viewport {
    Viewport::from_window(800, 600)
}

fn running_world() -> World {
    let mut w = World::new(view());
    w.enter_game();
    w
}

#[test]
fn entering_play_spawns_actor_and_terrain() {
    let w = running_world();
    assert!(matches!(w.game, GameState::Game));
    assert!(matches!(w.sim, SimulationState::Running));
    let cat = w.cat.expect("actor spawned");
    assert_eq!((cat.px, cat.py), (0, 0));
    assert_eq!(w.grounds.len(), 12);
    assert_eq!(w.stats.score, 0);
    assert_eq!(w.stats.hearts, 5);
    assert_eq!(w.stats.difficulty, 100);
}

#[test]
fn leaving_play_tears_everything_down() {
    let mut w = running_world();
    w.tick(&InputFrame::idle(), 840);
    w.exit_game();
    assert!(w.cat.is_none());
    assert!(w.bugs.is_empty());
    assert!(w.bullets.is_empty());
    assert!(w.sparks.is_empty());
    assert!(w.grounds.is_empty());
    assert!(matches!(w.sim, SimulationState::InActive));
}

#[test]
fn paused_tick_leaves_the_world_alone() {
    let mut w = running_world();
    w.tick(&InputFrame::idle(), 100);
    w.toggle_pause();
    assert!(matches!(w.sim, SimulationState::Paused));
    let cat_before = w.cat.expect("actor");
    let score_before = w.stats.score;
    let bugs_before = w.bugs.len();
    let grounds_before = w.grounds.len();
    let spawn_before = w.bug_spawn_timer.elapsed_ms;
    w.tick(&InputFrame::idle(), 840);
    assert_eq!(w.cat.expect("actor"), cat_before);
    assert_eq!(w.stats.score, score_before);
    assert_eq!(w.bugs.len(), bugs_before);
    assert_eq!(w.grounds.len(), grounds_before);
    assert_eq!(w.bug_spawn_timer.elapsed_ms, spawn_before);
    // Resuming returns the phase to Running.
    w.toggle_pause();
    assert!(matches!(w.sim, SimulationState::Running));
}

#[test]
fn pause_toggle_twice_is_identity() {
    let mut w = running_world();
    w.toggle_pause();
    w.toggle_pause();
    assert!(matches!(w.sim, SimulationState::Running));
    // Outside play the toggle does nothing.
    w.exit_game();
    w.toggle_pause();
    assert!(matches!(w.sim, SimulationState::InActive));
}

#[test]
fn pause_edge_through_the_input_frame() {
    let mut w = running_world();
    let mut input = InputFrame::idle();
    input.pause_pressed = true;
    // The pausing tick still simulates (the phase was Running at entry),
    // then the phase flips; the next tick is gated.
    w.tick(&input, 16);
    assert!(matches!(w.sim, SimulationState::Paused));
    let cat_before = w.cat.expect("actor");
    w.tick(&input, 16);
    assert!(matches!(w.sim, SimulationState::Running));
    assert_eq!(w.cat.expect("actor"), cat_before);
}

#[test]
fn spawner_cadence_brings_agents_within_the_band() {
    let mut w = running_world();
    let half_height = view().height / 2;
    let mut spawned = 0;
    for _ in 0..40 {
        let before = w.bugs.len();
        w.tick(&InputFrame::idle(), 840);
        // Escapes can shrink the pool, but the cadence adds exactly one.
        for b in &w.bugs {
            assert!(b.y >= 16_000 - half_height);
            assert!(b.y <= half_height - 8_000);
        }
        if w.bugs.len() > before {
            spawned += 1;
            let newest = w.bugs.last().expect("spawned agent");
            assert_eq!(newest.x, -view().width / 2 - 8_000);
            assert!((1000..2000).contains(&(newest.wander_timer.duration_ms)));
        }
    }
    assert!(spawned > 0);
}

#[test]
fn escape_costs_a_heart_on_the_same_tick() {
    let mut w = running_world();
    let mut runaway = make_bug(2, 0, false, 1500, view());
    runaway.x = view().width / 2 + 9_000;
    w.bugs.push(runaway);
    w.tick_core(&InputFrame::idle(), 16, &vec![0i8], 0, 0, false, 1500);
    assert!(w.bugs.is_empty());
    assert_eq!(w.stats.hearts, 4);
    assert!(matches!(w.sim, SimulationState::Running));
}

#[test]
fn last_heart_ends_the_run_on_the_same_tick() {
    // Scenario: hearts at one, one agent escapes; hearts reach zero and
    // the phase goes inactive with the game over, all in the same tick.
    let mut w = running_world();
    w.stats.hearts = 1;
    let mut runaway = make_bug(2, 0, false, 1500, view());
    runaway.x = view().width / 2 + 9_000;
    w.bugs.push(runaway);
    w.tick_core(&InputFrame::idle(), 16, &vec![0i8], 0, 0, false, 1500);
    assert_eq!(w.stats.hearts, 0);
    assert!(matches!(w.sim, SimulationState::InActive));
    assert!(matches!(w.game, GameState::GameOver));
}

#[test]
fn out_of_bounds_projectile_still_kills_then_disappears() {
    // Scenario: a projectile already past the far bound still registers
    // its kill this tick, and the destroy-event consumer removes it by the
    // end of the same tick.
    let mut w = running_world();
    let far_x = view().width / 2 + 8_100;
    w.bullets.push(Bullet { x: far_x, y: 0, direction: 1, doomed: false });
    let mut victim = make_bug(0, 0, false, 1500, view());
    victim.x = far_x - 2_000;
    victim.y = 0;
    w.bugs.push(victim);
    let score_before = w.stats.score;
    w.tick_core(&InputFrame::idle(), 16, &vec![0i8], 0, 0, false, 1500);
    assert_eq!(w.stats.score, score_before + 5);
    assert!(w.bugs.is_empty());
    assert!(w.bullets.is_empty());
}

#[test]
fn kill_through_a_full_tick_awards_the_reward() {
    let mut w = running_world();
    w.bullets.push(Bullet { x: 0, y: 40_000, direction: 1, doomed: false });
    let mut victim = make_bug(0, 0, false, 1500, view());
    victim.x = -3_000;
    victim.y = 40_000;
    w.bugs.push(victim);
    w.tick_core(&InputFrame::idle(), 16, &vec![0i8], 0, 0, false, 1500);
    assert_eq!(w.stats.score, 5);
    assert!(w.bugs.is_empty());
    assert!(w.bullets.is_empty());
    assert_eq!(w.stats.difficulty, 100);
}

#[test]
fn build_action_through_ticks_respects_the_cap() {
    // Scenario: five sequential build actions at distinct positions leave
    // exactly the four most recent temporary blocks.
    let mut w = running_world();
    let baseline = w.grounds.len();
    let mut build = InputFrame::idle();
    build.build_pressed = true;
    let mut right = build;
    right.right_impulses = 2;
    for i in 0..5 {
        let input = if i == 0 { build } else { right };
        w.tick_core(&input, 100, &no_rolls_for(&w), 0, 0, false, 1500);
        let temps = w.grounds.iter().filter(|g| g.temporary).count();
        assert!(temps <= 4);
    }
    let temp_xs: Vec<i64> =
        w.grounds.iter().filter(|g| g.temporary).map(|g| g.x).collect();
    assert_eq!(temp_xs.len(), 4);
    // Positions strictly increase: these are the four newest placements,
    // the first one is gone.
    for pair in temp_xs.windows(2) {
        assert!(pair[0] < pair[1]);
    }
    assert_eq!(w.grounds.iter().filter(|g| !g.temporary).count(), baseline);
}

#[test]
fn fire_spawns_projectile_and_spark_next_tick() {
    let mut w = running_world();
    let mut arm = InputFrame::idle();
    arm.toggle_weapon_pressed = true;
    w.tick_core(&arm, 120, &no_rolls_for(&w), 0, 0, false, 1500);
    assert!(w.cat.expect("actor").has_gun);
    let mut fire = InputFrame::idle();
    fire.fire_pressed = true;
    w.tick_core(&fire, 120, &no_rolls_for(&w), 0, 0, false, 1500);
    assert_eq!(w.bullets.len(), 1);
    assert_eq!(w.sparks.len(), 1);
    assert_eq!(w.bullets[0].direction, 1);
    let cat = w.cat.expect("actor");
    assert_eq!(w.bullets[0].x, cat.px + 16_000);
    assert_eq!(w.bullets[0].y, cat.py - 2_500);
    // The spark's one-shot lifetime elapses within the next tick.
    w.tick_core(&InputFrame::idle(), 120, &no_rolls_for(&w), 0, 0, false, 1500);
    assert!(w.sparks.is_empty());
}

#[test]
fn resize_regenerates_baseline_and_pushes_crawlers_down() {
    let mut w = running_world();
    let mut build = InputFrame::idle();
    build.build_pressed = true;
    w.tick_core(&build, 100, &no_rolls_for(&w), 0, 0, false, 1500);
    let temps_before: Vec<i64> =
        w.grounds.iter().filter(|g| g.temporary).map(|g| g.x).collect();
    let mut crawler = make_bug(2, 0, false, 1500, view());
    crawler.x = 0;
    w.bugs.push(crawler);
    let mut flier = make_bug(0, 300, false, 1500, view());
    flier.x = 0;
    w.bugs.push(flier);

    let wider = Viewport::from_window(1024, 600);
    w.resize(wider);
    assert_eq!(w.view, wider);
    // Temporary blocks survive in order; the baseline is regenerated for
    // the new width: floor(256 / 16) blocks.
    let temps_after: Vec<i64> =
        w.grounds.iter().filter(|g| g.temporary).map(|g| g.x).collect();
    assert_eq!(temps_after, temps_before);
    assert_eq!(w.grounds.iter().filter(|g| !g.temporary).count(), 16);
    // Crawlers are forced downward; fliers are left alone.
    assert_eq!(w.bugs[0].wander_vel, -1);
    assert_eq!(w.bugs[1].wander_vel, 0);
}

#[test]
fn difficulty_feeds_back_into_agent_speed_through_ticks() {
    let mut w = running_world();
    w.stats.score = 995;
    w.stats.difficulty = 385;
    let mut bug = make_bug(2, 0, false, 1500, view());
    bug.x = -50_000;
    w.bugs.push(bug);
    let x0 = w.bugs[0].x;
    w.tick_core(&InputFrame::idle(), 100, &vec![0i8], 0, 0, false, 1500);
    // 20 units/s at multiplier 3.85 over 100 ms.
    assert_eq!(w.bugs[0].x - x0, 7_700);
}

#[test]
fn absent_actor_is_a_silent_no_op() {
    let mut w = running_world();
    w.cat = None;
    let mut input = InputFrame::idle();
    input.jump_pressed = true;
    input.fire_pressed = true;
    input.build_pressed = true;
    let grounds_before = w.grounds.len();
    w.tick(&input, 100);
    assert!(w.cat.is_none());
    assert_eq!(w.grounds.len(), grounds_before);
    assert!(w.bullets.is_empty());
    assert!(matches!(w.sim, SimulationState::Running));
}

fn no_rolls_for(w: &World) -> Vec<i8> {
    vec![0; w.bugs.len()]
}

#[test]
fn full_run_keeps_its_invariants() {
    let mut w = running_world();
    let mut input = InputFrame::idle();
    input.right_impulses = 1;
    input.toggle_weapon_pressed = true;
    let mut last_difficulty = w.stats.difficulty;
    for i in 0..200 {
        input.jump_pressed = i % 3 == 0;
        input.fire_pressed = i % 2 == 0;
        input.build_pressed = i % 7 == 0;
        input.toggle_weapon_pressed = i % 11 == 0;
        w.tick(&input, 120);
        assert!(w.grounds.iter().filter(|g| g.temporary).count() <= 4);
        assert!(w.stats.hearts <= 5);
        assert!(w.stats.difficulty >= last_difficulty);
        assert!(w.stats.difficulty <= 400);
        last_difficulty = w.stats.difficulty;
        if matches!(w.game, GameState::GameOver) {
            break;
        }
        let cat = w.cat.expect("actor");
        assert!(cat.px.abs() <= 100_000 - 8_000);
    }
}
