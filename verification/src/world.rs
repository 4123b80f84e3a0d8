//! The owned world state and the tick that drives it: one record holds the
//! actor, the entity pools, the progression counters, the two state
//! machines and the global timers, and every per-tick subsystem runs to
//! completion once per tick in a fixed order.

use vstd::prelude::*;

use crate::bug::{self, Bug};
use crate::bullet::{self, Bullet, BulletSpark};
use crate::cat::{self, Cat, InputFrame};
use crate::geom::Viewport;
use crate::ground::{self, Ground};
use crate::phase::{toggled, GameState, SimulationState};
use crate::stats::Stats;
use crate::timer::{Timer, TimerMode};

verus! {

/// The whole simulation state, owned by one record and passed by reference
/// into each subsystem, in place of ambient globals.
pub struct World {
    pub game: GameState,
    pub sim: SimulationState,
    pub view: Viewport,
    pub cat: Option<Cat>,
    pub bugs: Vec<Bug>,
    pub bullets: Vec<Bullet>,
    pub sparks: Vec<BulletSpark>,
    pub grounds: Vec<Ground>,
    pub stats: Stats,
    pub bug_spawn_timer: Timer,
    pub fire_timer: Timer,
}

impl World {
    /// The invariant that holds between ticks: every entity valid and in
    /// its band, the multiplier current with the score, the temporary
    /// terrain within its cap, and the simulation running only during play.
    pub open spec fn wf(self) -> bool {
        &&& self.view.wf()
        &&& (self.cat matches Some(c) ==> c.wf() && c.confined())
        &&& (forall|i: int|
            0 <= i < self.bugs@.len() ==> (#[trigger] self.bugs@[i]).wf()
                && self.bugs@[i].in_band())
        &&& (forall|i: int| 0 <= i < self.bullets@.len() ==> (#[trigger] self.bullets@[i]).wf())
        &&& (forall|i: int| 0 <= i < self.sparks@.len() ==> (#[trigger] self.sparks@[i]).wf())
        &&& (forall|i: int| 0 <= i < self.grounds@.len() ==> (#[trigger] self.grounds@[i]).wf())
        &&& self.stats.wf()
        &&& self.stats.difficulty_current()
        &&& self.bug_spawn_timer.wf()
        &&& self.fire_timer.wf()
        &&& ground::temp_count(self.grounds@) <= ground::MAX_TEMP_GROUND
        &&& (self.sim is Running ==> self.game is Game)
    }

    /// A fresh world at the main menu: nothing spawned, nothing running.
    /// The global timers exist from the start, as the engine inserts them
    /// once: the spawner at its cadence, the refire cooldown not yet
    /// elapsed.
    pub fn new(view: Viewport) -> (w: World)
        requires
            view.wf(),
        ensures
            w.wf(),
            w.game == GameState::MainMenu,
            w.sim == SimulationState::InActive,
            w.view == view,
            w.cat is None,
            w.bugs@.len() == 0,
            w.bullets@.len() == 0,
            w.sparks@.len() == 0,
            w.grounds@.len() == 0,
            w.stats == Stats::new_spec(),
            w.bug_spawn_timer == Timer::repeating_spec(bug::BUG_SPAWN_RATE_MS),
            w.fire_timer == (Timer {
                mode: TimerMode::Once,
                duration_ms: cat::FIRE_COOLDOWN_MS,
                elapsed_ms: 0,
                just_finished: false,
            }),
    {
        World {
            game: GameState::MainMenu,
            sim: SimulationState::InActive,
            view,
            cat: None,
            bugs: Vec::new(),
            bullets: Vec::new(),
            sparks: Vec::new(),
            grounds: Vec::new(),
            stats: Stats::new(),
            bug_spawn_timer: Timer::repeating(bug::BUG_SPAWN_RATE_MS),
            fire_timer: Timer::new(cat::FIRE_COOLDOWN_MS, TimerMode::Once),
        }
    }

    /// Entering the play state: stats reset for the fresh run, the actor
    /// spawned at the origin, the baseline terrain generated, all hostile
    /// and transient pools empty, and the simulation set running. The
    /// global timers carry over.
    pub fn enter_game(&mut self)
        requires
            old(self).wf(),
        ensures
            final(self).wf(),
            final(self).game == GameState::Game,
            final(self).sim == SimulationState::Running,
            final(self).view == old(self).view,
            final(self).cat == Some(Cat::new_spec()),
            final(self).bugs@.len() == 0,
            final(self).bullets@.len() == 0,
            final(self).sparks@.len() == 0,
            final(self).stats == Stats::new_spec(),
            final(self).grounds@.len() == ground::baseline_count(old(self).view),
            forall|i: int|
                0 <= i < final(self).grounds@.len() ==> {
                    &&& (#[trigger] final(self).grounds@[i]).x == ground::baseline_x(
                        old(self).view,
                        i,
                    )
                    &&& final(self).grounds@[i].y == ground::baseline_y(old(self).view)
                    &&& !final(self).grounds@[i].temporary
                },
            ground::temp_count(final(self).grounds@) == 0,
            final(self).bug_spawn_timer == old(self).bug_spawn_timer,
            final(self).fire_timer == old(self).fire_timer,
    {
        self.stats.reset_stats();
        self.cat = Some(Cat::new());
        self.bugs = Vec::new();
        self.bullets = Vec::new();
        self.sparks = Vec::new();
        self.grounds = ground::spawn_ground(self.view);
        self.game = GameState::Game;
        crate::phase::start_simulation(&mut self.sim);
    }

    /// Leaving the play state: bulk teardown of the actor, every pool and
    /// all terrain, independent of any individual timer, and the
    /// simulation set inactive. Stats stay readable (the game-over screen
    /// shows the score).
    pub fn exit_game(&mut self)
        requires
            old(self).wf(),
        ensures
            final(self).wf(),
            final(self).game == GameState::MainMenu,
            final(self).sim == SimulationState::InActive,
            final(self).view == old(self).view,
            final(self).cat is None,
            final(self).bugs@.len() == 0,
            final(self).bullets@.len() == 0,
            final(self).sparks@.len() == 0,
            final(self).grounds@.len() == 0,
            final(self).stats == old(self).stats,
            final(self).bug_spawn_timer == old(self).bug_spawn_timer,
            final(self).fire_timer == old(self).fire_timer,
    {
        self.cat = None;
        self.bugs = Vec::new();
        self.bullets = Vec::new();
        self.sparks = Vec::new();
        self.grounds = Vec::new();
        self.game = GameState::MainMenu;
        crate::phase::stop_simulation(&mut self.sim);
    }

    /// The pause toggle, honored only during play: `Running` and `Paused`
    /// swap, and nothing else of the world is touched.
    pub fn toggle_pause(&mut self)
        requires
            old(self).wf(),
        ensures
            final(self).wf(),
            final(self).sim == (if old(self).game is Game {
                toggled(old(self).sim)
            } else {
                old(self).sim
            }),
            final(self).game == old(self).game,
            final(self).view == old(self).view,
            final(self).cat == old(self).cat,
            final(self).bugs@ == old(self).bugs@,
            final(self).bullets@ == old(self).bullets@,
            final(self).sparks@ == old(self).sparks@,
            final(self).grounds@ == old(self).grounds@,
            final(self).stats == old(self).stats,
            final(self).bug_spawn_timer == old(self).bug_spawn_timer,
            final(self).fire_timer == old(self).fire_timer,
    {
        if matches!(self.game, GameState::Game) {
            crate::phase::toggle_simulation(&mut self.sim);
        }
    }
}

/// The actor's part of a tick: movement, jump, confinement against the
/// terrain, weapon toggle, then the fire pass on the refire cooldown; the
/// build request reads the settled position. Yields the new actor, the new
/// cooldown and the two events.
pub open spec fn cat_pipeline(
    c: Cat,
    t: Timer,
    input: InputFrame,
    grounds: Seq<Ground>,
    view: Viewport,
    dt: int,
) -> (Cat, Timer, Option<crate::bullet::BulletFireEvent>, Option<
    crate::ground::GroundBuildEvent,
>) {
    let c1 = cat::moved_cat(c, input, dt);
    let c2 = cat::jumped_cat(c1, input.jump_pressed);
    let c3 = cat::confined_cat(c2, grounds, view);
    let c4 = cat::gun_toggled(c3, input.toggle_weapon_pressed);
    let fire = cat::fire_step(c4, t, input.fire_pressed, dt);
    let c5 = fire.0;
    let build = if input.build_pressed {
        Option::Some(crate::ground::GroundBuildEvent { x: c5.px, y: c5.py })
    } else {
        Option::None
    };
    (c5, fire.1, fire.2, build)
}

/// The terrain pool after a tick's build event, if any: the new temporary
/// block appended, then oldest-first eviction back to the cap.
pub open spec fn grounds_after_build(
    gs: Seq<Ground>,
    build: Option<crate::ground::GroundBuildEvent>,
) -> Seq<Ground> {
    match build {
        Option::None => gs,
        Option::Some(ev) => ground::evict_spec(gs.push(ground::built_block_spec(ev))),
    }
}

/// The whole agent pool after movement and confinement, each agent with
/// its own wander re-roll.
pub open spec fn stepped_bugs(
    zs: Seq<Bug>,
    dt: int,
    difficulty: u32,
    rolls: Seq<i8>,
    view: Viewport,
) -> Seq<Bug> {
    Seq::new(zs.len(), |i: int| bug::stepped_bug(zs[i], dt, difficulty, rolls[i], view))
}

/// Both pools after the combat passes: collision kills, then the
/// projectile destroy-event consumer; for the agents also escapes and the
/// animation frames. Takes the moved projectiles and the stepped agents.
pub open spec fn pools_after_combat(
    bs_moved: Seq<Bullet>,
    zs_stepped: Seq<Bug>,
    view: Viewport,
    dt: int,
) -> (Seq<Bullet>, Seq<Bug>) {
    let b2 = bullet::undoomed(bug::surviving_bullets(bs_moved, zs_stepped));
    let z2 = bug::surviving_bugs(zs_stepped, bs_moved);
    let z3 = bug::remaining_bugs(z2, view);
    let z4 = z3.map_values(|b: Bug| bug::animated_bug(b, dt));
    (b2, z4)
}

/// The run's counters at the end of a tick: the kill rewards added to the
/// score, a heart lost per escape, and the difficulty multiplier
/// recomputed from the final score unless it already stands at the bound.
pub open spec fn stats_after(
    st: Stats,
    bs_moved: Seq<Bullet>,
    zs_stepped: Seq<Bug>,
    view: Viewport,
) -> Stats {
    let score1 = crate::stats::sat_add(
        st.score,
        crate::stats::KILL_REWARD * bug::kill_pair_count(bs_moved, zs_stepped),
    );
    let z2 = bug::surviving_bugs(zs_stepped, bs_moved);
    let z3 = bug::remaining_bugs(z2, view);
    let hearts1 = bug::hearts_after(st.hearts, z2.len() - z3.len());
    let diff1 = if st.difficulty >= crate::stats::DIFFICULTY_UPPER_LIMIT {
        st.difficulty as int
    } else {
        crate::stats::difficulty_of(score1 as u64)
    };
    Stats { score: score1 as u64, hearts: hearts1 as u8, difficulty: diff1 as u32 }
}

/// The two state machines at the end of a tick: hearts reaching zero
/// forces the game over on the same tick; a pause request applies last and
/// only while the game is still in play.
pub open spec fn phase_after(
    st1: Stats,
    game: GameState,
    sim: SimulationState,
    pause_pressed: bool,
) -> (GameState, SimulationState) {
    let g1 = if st1.hearts == 0 {
        GameState::GameOver
    } else {
        game
    };
    let s1 = if st1.hearts == 0 {
        SimulationState::InActive
    } else {
        sim
    };
    let s2 = if pause_pressed && g1 is Game {
        toggled(s1)
    } else {
        s1
    };
    (g1, s2)
}

/// The fate of a projectile already past the far bound when a tick's
/// movement pass runs: it is flagged but stays at its position, any agent
/// it overlaps is still killed by the same tick's collision pass, and the
/// destroy-event consumer removes it from the pool before the tick ends.
pub proof fn lemma_out_of_bounds_bullet_fate(
    bs: Seq<Bullet>,
    zs: Seq<Bug>,
    view: Viewport,
    dt: int,
    i: int,
)
    requires
        0 <= i < bs.len(),
        bullet::out_of_bounds(bs[i], view),
    ensures
        ({
            let moved = bullet::moved_bullets(bs, view, dt);
            &&& moved[i].x == bs[i].x
            &&& moved[i].y == bs[i].y
            &&& moved[i].doomed
            &&& forall|j: int|
                0 <= j < zs.len() && bug::hits(moved[i], #[trigger] zs[j])
                    ==> !bug::bug_survives(zs[j], moved)
            &&& forall|k: int|
                0 <= k < pools_after_combat(moved, zs, view, dt).0.len()
                    ==> (#[trigger] pools_after_combat(moved, zs, view, dt).0[k]) != moved[i]
        }),
{
    let moved = bullet::moved_bullets(bs, view, dt);
    assert(moved[i] == bullet::moved_bullet(bs[i], view, dt));
    assert forall|j: int|
        0 <= j < zs.len() && bug::hits(moved[i], #[trigger] zs[j]) implies !bug::bug_survives(
        zs[j],
        moved,
    ) by {
        assert(0 <= i < moved.len() && bug::hits(moved[i], zs[j]));
    }
    broadcast use vstd::seq_lib::group_filter_ensures;

    assert forall|k: int|
        0 <= k < pools_after_combat(moved, zs, view, dt).0.len() implies (
    #[trigger] pools_after_combat(moved, zs, view, dt).0[k]) != moved[i] by {
        assert(!pools_after_combat(moved, zs, view, dt).0[k].doomed);
    }
}

impl World {
    /// What a tick leaves unchanged while the simulation is not running:
    /// everything but the pause toggle.
    pub open spec fn gated_tick_spec(self, w0: World, input: InputFrame) -> bool {
        &&& self.cat == w0.cat
        &&& self.bugs@ == w0.bugs@
        &&& self.bullets@ == w0.bullets@
        &&& self.sparks@ == w0.sparks@
        &&& self.grounds@ == w0.grounds@
        &&& self.stats == w0.stats
        &&& self.bug_spawn_timer == w0.bug_spawn_timer
        &&& self.fire_timer == w0.fire_timer
        &&& self.game == w0.game
        &&& self.sim == (if input.pause_pressed && w0.game is Game {
            toggled(w0.sim)
        } else {
            w0.sim
        })
    }

    /// One tick of the simulation, with every random draw of the tick
    /// handed in: one wander re-roll per agent, and the spawner's
    /// archetype, vertical fraction, side and wander period. Fully
    /// deterministic in its arguments; `tick` wraps it with the draws.
    ///
    /// Subsystem order within the tick: actor movement, jump, confinement,
    /// weapon toggle, fire, build request; terrain placement and eviction;
    /// projectile bound-check and motion; agent wander, motion and
    /// confinement; collision kills; the projectile destroy-event
    /// consumer; escapes; spark lifetimes; agent animation; the deferred
    /// spawns (this tick's fired projectile and, on the spawner's cadence,
    /// a new agent — both first seen by next tick's passes); the
    /// difficulty recompute; game over on life exhaustion; the pause
    /// toggle last.
    #[verifier::rlimit(100)]
    #[verifier::spinoff_prover]
    pub fn tick_core(
        &mut self,
        input: &InputFrame,
        dt: u32,
        rolls: &Vec<i8>,
        selector: u64,
        vfrac_permille: u64,
        neg: bool,
        period_ms: u64,
    )
        requires
            old(self).wf(),
            dt <= crate::geom::MAX_TICK_MS,
            rolls@.len() == old(self).bugs@.len(),
            forall|i: int| 0 <= i < rolls@.len() ==> -1 <= #[trigger] rolls@[i] <= 1,
            selector < bug::BUG_KIND_COUNT,
            vfrac_permille < 1000,
            bug::BUG_WANDER_MIN_MS <= period_ms <= bug::BUG_WANDER_MAX_MS,
        ensures
            final(self).wf(),
            final(self).view == old(self).view,
            old(self).sim != SimulationState::Running ==> final(self).gated_tick_spec(
                *old(self),
                *input,
            ),
            (old(self).sim == SimulationState::Running && old(self).cat is None) ==> ({
                let w0 = *old(self);
                let b1 = bullet::moved_bullets(w0.bullets@, w0.view, dt as int);
                let z1 = stepped_bugs(w0.bugs@, dt as int, w0.stats.difficulty, rolls@, w0.view);
                let pools = pools_after_combat(b1, z1, w0.view, dt as int);
                let st1 = stats_after(w0.stats, b1, z1, w0.view);
                let ts1 = w0.bug_spawn_timer.spec_tick(dt as int);
                let z_final = if ts1.just_finished {
                    pools.1.push(
                        bug::spawned_bug_spec(selector, vfrac_permille, neg, period_ms, w0.view),
                    )
                } else {
                    pools.1
                };
                let ph = phase_after(st1, w0.game, w0.sim, input.pause_pressed);
                &&& final(self).cat is None
                &&& final(self).fire_timer == w0.fire_timer
                &&& final(self).grounds@ == w0.grounds@
                &&& final(self).bullets@ == pools.0
                &&& final(self).bugs@ == z_final
                &&& final(self).sparks@ == bullet::surviving_sparks(w0.sparks@, dt as int)
                &&& final(self).stats == st1
                &&& final(self).bug_spawn_timer == ts1
                &&& final(self).game == ph.0
                &&& final(self).sim == ph.1
            }),
            old(self).sim == SimulationState::Running ==> (old(self).cat matches Some(c0) ==> ({
                let w0 = *old(self);
                let cp = cat_pipeline(c0, w0.fire_timer, *input, w0.grounds@, w0.view, dt as int);
                let c5 = cp.0;
                let b1 = bullet::moved_bullets(w0.bullets@, w0.view, dt as int);
                let z1 = stepped_bugs(w0.bugs@, dt as int, w0.stats.difficulty, rolls@, w0.view);
                let pools = pools_after_combat(b1, z1, w0.view, dt as int);
                let st1 = stats_after(w0.stats, b1, z1, w0.view);
                let s1 = bullet::surviving_sparks(w0.sparks@, dt as int);
                let b_final = match cp.2 {
                    Option::None => pools.0,
                    Option::Some(ev) => pools.0.push(
                        bullet::spawned_bullet(c5.px as int, c5.py as int, ev.direction as int),
                    ),
                };
                let s_final = match cp.2 {
                    Option::None => s1,
                    Option::Some(ev) => s1.push(
                        bullet::spawned_spark(c5.px as int, c5.py as int, ev.direction as int),
                    ),
                };
                let ts1 = w0.bug_spawn_timer.spec_tick(dt as int);
                let z_final = if ts1.just_finished {
                    pools.1.push(
                        bug::spawned_bug_spec(selector, vfrac_permille, neg, period_ms, w0.view),
                    )
                } else {
                    pools.1
                };
                let ph = phase_after(st1, w0.game, w0.sim, input.pause_pressed);
                &&& final(self).cat == Some(c5)
                &&& final(self).fire_timer == cp.1
                &&& final(self).grounds@ == grounds_after_build(w0.grounds@, cp.3)
                &&& final(self).bullets@ == b_final
                &&& final(self).bugs@ == z_final
                &&& final(self).sparks@ == s_final
                &&& final(self).stats == st1
                &&& final(self).bug_spawn_timer == ts1
                &&& final(self).game == ph.0
                &&& final(self).sim == ph.1
            })),
    {
        let ghost w0 = *self;
        if self.sim != SimulationState::Running {
            if input.pause_pressed && matches!(self.game, GameState::Game) {
                crate::phase::toggle_simulation(&mut self.sim);
            }
            return;
        }

        // Actor passes, and the events they emit.
        let mut fire_ev: Option<crate::bullet::BulletFireEvent> = None;
        let mut build_ev: Option<crate::ground::GroundBuildEvent> = None;
        let mut cat_px: i64 = 0;
        let mut cat_py: i64 = 0;
        match self.cat {
            Some(c_in) => {
                let mut c = c_in;
                cat::move_cat(&mut c, input, dt);
                cat::jump_cat(&mut c, input.jump_pressed);
                cat::confine_cat(&mut c, &self.grounds, self.view);
                cat::toggle_cat_gun(&mut c, input.toggle_weapon_pressed);
                fire_ev = cat::fire_bullet_cat(
                    &mut c,
                    &mut self.fire_timer,
                    input.fire_pressed,
                    dt,
                );
                build_ev = cat::build_ground_cat(&c, input.build_pressed);
                cat_px = c.px;
                cat_py = c.py;
                self.cat = Some(c);
            }
            None => {}
        }

        // A build request places one temporary block, then eviction brings
        // the pool back to the cap.
        match build_ev {
            Some(ev) => {
                let g = ground::spawn_beneath_cat(&ev);
                self.grounds.push(g);
                let ghost pushed = self.grounds@;
                ground::despawn_temp_ground(&mut self.grounds);
                proof {
                    ground::lemma_evict_preserves_wf(pushed);
                }
            }
            None => {}
        }

        // Projectiles: bound check and motion in one pass.
        bullet::move_bullet(&mut self.bullets, self.view, dt);
        let ghost b1 = self.bullets@;

        // Agents: wander re-rolls, motion, confinement.
        let diff0: u32 = self.stats.difficulty;
        bug::step_bugs(&mut self.bugs, dt, diff0, rolls, self.view);
        proof {
            assert(self.bugs@ =~= stepped_bugs(w0.bugs@, dt as int, diff0, rolls@, w0.view));
        }
        let ghost z1 = self.bugs@;

        // Collision kills: both parties despawn, the score rises.
        bug::eat_bullet_bug(&mut self.bullets, &mut self.bugs, &mut self.stats);
        proof {
            assert forall|i: int| 0 <= i < self.bullets@.len() implies (#[trigger] self.bullets@[i]).wf() by {
                assert(b1.contains(self.bullets@[i]));
                let j = choose|j: int| 0 <= j < b1.len() && b1[j] == self.bullets@[i];
                assert(b1[j].wf());
            }
            assert forall|i: int| 0 <= i < self.bugs@.len() implies (#[trigger] self.bugs@[i]).wf()
                && self.bugs@[i].pre_escape_band() by {
                assert(z1.contains(self.bugs@[i]));
                let j = choose|j: int| 0 <= j < z1.len() && z1[j] == self.bugs@[i];
                assert(z1[j].wf() && z1[j].pre_escape_band());
            }
        }

        // The deferred-destroy consumer removes what the bound check
        // flagged, after the kill detection above saw it.
        let ghost b2 = self.bullets@;
        bullet::despawn_bullet(&mut self.bullets);
        proof {
            assert forall|i: int| 0 <= i < self.bullets@.len() implies (#[trigger] self.bullets@[i]).wf() by {
                assert(b2.contains(self.bullets@[i]));
                let j = choose|j: int| 0 <= j < b2.len() && b2[j] == self.bullets@[i];
                assert(b2[j].wf());
            }
        }

        // Escapes cost hearts.
        bug::despawn_bug(&mut self.bugs, &mut self.stats, self.view);

        // Transient sparks run out.
        bullet::despawn_spark(&mut self.sparks, dt);

        // Animation frames toggle.
        let ghost z3 = self.bugs@;
        bug::animate_bug(&mut self.bugs, dt);
        proof {
            assert forall|i: int| 0 <= i < self.bugs@.len() implies (#[trigger] self.bugs@[i]).in_band() by {
                assert(self.bugs@[i] == bug::animated_bug(z3[i], dt as int));
                assert(z3[i].in_band());
            }
        }

        // Deferred spawns from this tick's fire event: the projectile and
        // its spark appear now and are first seen by next tick's passes.
        match fire_ev {
            Some(ev) => {
                let (b, s) = bullet::spawn_bullet(cat_px, cat_py, &ev);
                self.bullets.push(b);
                self.sparks.push(s);
            }
            None => {}
        }

        // The spawner's cadence brings one new agent.
        self.bug_spawn_timer.tick(dt);
        if self.bug_spawn_timer.just_finished {
            let nb = bug::make_bug(selector, vfrac_permille, neg, period_ms, self.view);
            self.bugs.push(nb);
        }

        // Difficulty recompute from the final score.
        proof {
            crate::stats::lemma_difficulty_of_bounded(self.stats.score);
            if w0.stats.difficulty >= crate::stats::DIFFICULTY_UPPER_LIMIT {
                crate::stats::lemma_difficulty_saturates(w0.stats.score, self.stats.score);
            }
        }
        self.stats.step_difficulty();

        // Life exhaustion ends the run on the same tick.
        if self.stats.hearts == 0 {
            crate::phase::stop_simulation(&mut self.sim);
            self.game = GameState::GameOver;
        }

        // The pause toggle applies last, and only if the run did not just
        // end.
        if input.pause_pressed && matches!(self.game, GameState::Game) {
            crate::phase::toggle_simulation(&mut self.sim);
        }
    }

    /// The layout-change reaction: the viewport changes, the baseline
    /// terrain is destroyed and regenerated for the new width as a single
    /// ordered pair, temporary blocks survive with their order, and
    /// crawling agents are forced downward so they settle onto the new
    /// terrain line.
    pub fn resize(&mut self, new_view: Viewport)
        requires
            old(self).wf(),
            new_view.wf(),
        ensures
            final(self).wf(),
            final(self).view == new_view,
            final(self).grounds@.len() == ground::temp_only(old(self).grounds@).len()
                + ground::baseline_count(new_view),
            forall|i: int|
                0 <= i < ground::temp_only(old(self).grounds@).len()
                    ==> (#[trigger] final(self).grounds@[i]) == ground::temp_only(
                    old(self).grounds@,
                )[i],
            forall|i: int|
                ground::temp_only(old(self).grounds@).len() <= i < final(self).grounds@.len()
                    ==> {
                    let t = ground::temp_only(old(self).grounds@).len() as int;
                    &&& (#[trigger] final(self).grounds@[i]).x == ground::baseline_x(
                        new_view,
                        i - t,
                    )
                    &&& final(self).grounds@[i].y == ground::baseline_y(new_view)
                    &&& !final(self).grounds@[i].temporary
                },
            ground::temp_count(final(self).grounds@) == ground::temp_count(old(self).grounds@),
            final(self).bugs@ == old(self).bugs@.map_values(|b: Bug| bug::pushed_down(b)),
            final(self).cat == old(self).cat,
            final(self).bullets@ == old(self).bullets@,
            final(self).sparks@ == old(self).sparks@,
            final(self).stats == old(self).stats,
            final(self).game == old(self).game,
            final(self).sim == old(self).sim,
            final(self).bug_spawn_timer == old(self).bug_spawn_timer,
            final(self).fire_timer == old(self).fire_timer,
    {
        self.view = new_view;

        let ghost gs = self.grounds@;
        let n = self.grounds.len();
        let mut kept: Vec<Ground> = Vec::new();
        let mut i: usize = 0;
        while i < n
            invariant
                n == gs.len(),
                self.grounds@ == gs,
                i <= n,
                forall|j: int| 0 <= j < n ==> (#[trigger] gs[j]).wf(),
                kept@ == ground::temp_only(gs.subrange(0, i as int)),
                forall|j: int| 0 <= j < kept@.len() ==> (#[trigger] kept@[j]).wf(),
            decreases n - i,
        {
            proof {
                reveal(Seq::filter);
                assert(gs.subrange(0, i as int + 1).drop_last() =~= gs.subrange(0, i as int));
                assert(gs[i as int].wf());
            }
            let g = self.grounds[i];
            if g.temporary {
                kept.push(g);
            }
            i = i + 1;
        }
        proof {
            assert(gs.subrange(0, n as int) =~= gs);
        }

        let mut base: Vec<Ground> = ground::spawn_ground(self.view);
        let ghost base0 = base@;
        let ghost kept0 = kept@;
        let bn = base.len();
        let mut j: usize = 0;
        while j < bn
            invariant
                bn == base0.len(),
                base@ == base0,
                j <= bn,
                kept@ == kept0 + base0.subrange(0, j as int),
                forall|k: int| 0 <= k < bn ==> (#[trigger] base0[k]).wf(),
                forall|k: int| 0 <= k < kept@.len() ==> (#[trigger] kept@[k]).wf(),
            decreases bn - j,
        {
            let g = base[j];
            proof {
                assert(base0[j as int].wf());
                assert(kept0 + base0.subrange(0, j as int + 1) =~= (kept0 + base0.subrange(
                    0,
                    j as int,
                )).push(base0[j as int]));
            }
            kept.push(g);
            j = j + 1;
        }
        proof {
            assert(base0.subrange(0, bn as int) =~= base0);
            ground::lemma_temp_count_add(kept0, base0);
            ground::lemma_temp_count_temp_only(gs);
            ground::lemma_temp_count_is_filter_len(gs);
        }
        self.grounds = kept;

        bug::push_down_flightless_bug(&mut self.bugs);
        proof {
            assert forall|k: int| 0 <= k < self.bugs@.len() implies (#[trigger] self.bugs@[k]).wf()
                && self.bugs@[k].in_band() by {
                assert(self.bugs@[k] == bug::pushed_down(old(self).bugs@[k]));
                assert(old(self).bugs@[k].wf() && old(self).bugs@[k].in_band());
            }
        }
    }

    /// One tick of the simulation: draws this tick's random values (one
    /// wander re-roll per agent, and the spawner's draws), then runs the
    /// deterministic core on them. The clauses here hold for every outcome
    /// of the draws; `tick_core` pins the rest down exactly.
    pub fn tick(&mut self, input: &InputFrame, dt: u32)
        requires
            old(self).wf(),
            dt <= crate::geom::MAX_TICK_MS,
        ensures
            final(self).wf(),
            final(self).view == old(self).view,
            old(self).sim != SimulationState::Running ==> final(self).gated_tick_spec(
                *old(self),
                *input,
            ),
            ground::temp_count(final(self).grounds@) <= ground::MAX_TEMP_GROUND,
            final(self).stats.hearts <= crate::stats::INITIAL_HEART_COUNT,
            old(self).sim == SimulationState::Running ==> final(self).stats.hearts <= old(
                self,
            ).stats.hearts,
            final(self).stats.score >= old(self).stats.score,
            final(self).stats.difficulty >= old(self).stats.difficulty,
            final(self).stats.difficulty <= crate::stats::DIFFICULTY_UPPER_LIMIT,
            old(self).sim == SimulationState::Running ==> (final(self).stats.hearts == 0
                ==> final(self).game == GameState::GameOver && final(self).sim
                == SimulationState::InActive),
            old(self).sim == SimulationState::Running ==> forall|i: int|
                0 <= i < final(self).bullets@.len()
                    ==> !(#[trigger] final(self).bullets@[i]).doomed,
    {
        let ghost w0 = *self;
        let mut rolls: Vec<i8> = Vec::new();
        let n = self.bugs.len();
        while rolls.len() < n
            invariant
                rolls@.len() <= n,
                forall|i: int| 0 <= i < rolls@.len() ==> -1 <= #[trigger] rolls@[i] <= 1,
            decreases n - rolls@.len(),
        {
            let r: u64 = crate::rng::rand_range_u64(0, 3);
            rolls.push((r as i8) - 1);
        }
        let selector = crate::rng::rand_range_u64(0, bug::BUG_KIND_COUNT);
        let vfrac = crate::rng::rand_range_u64(0, 1000);
        let neg = crate::rng::rand_bool();
        let period = crate::rng::rand_range_u64(bug::BUG_WANDER_MIN_MS, bug::BUG_WANDER_MAX_MS);
        self.tick_core(input, dt, &rolls, selector, vfrac, neg, period);
        proof {
            broadcast use vstd::seq_lib::group_filter_ensures;

            if w0.sim == SimulationState::Running {
                let b1 = bullet::moved_bullets(w0.bullets@, w0.view, dt as int);
                let z1 = stepped_bugs(w0.bugs@, dt as int, w0.stats.difficulty, rolls@, w0.view);
                let st1 = stats_after(w0.stats, b1, z1, w0.view);
                assert(st1.score >= w0.stats.score);
                if w0.stats.difficulty < crate::stats::DIFFICULTY_UPPER_LIMIT {
                    crate::stats::lemma_difficulty_of_monotone(w0.stats.score, st1.score);
                    crate::stats::lemma_difficulty_of_bounded(st1.score);
                }
            }
        }
    }
}

} // verus!
