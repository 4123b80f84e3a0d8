//! Hostile agents ("bugs"): spawned off the left screen edge on a repeating
//! timer, advancing rightward at a difficulty-scaled speed, wandering
//! vertically when flight-capable, confined to a vertical band, killed by
//! projectiles for score, and costing a heart when they escape past the far
//! edge.

use vstd::prelude::*;

use crate::bullet::Bullet;
use crate::geom::{close_within, scale_ms, Viewport};
use crate::stats::{sat_add, Stats, KILL_REWARD};
use crate::timer::Timer;

verus! {

/// Agent sprite edge length, in milli-units.
pub const BUG_SIZE: i64 = 16_000;

/// Half the agent size, in milli-units.
pub const BUG_HALF_SIZE: i64 = 8_000;

/// Spawner cadence, in milliseconds.
pub const BUG_SPAWN_RATE_MS: u32 = 840;

/// Horizontal base speed, in milli-units per second, at multiplier 1.0.
pub const BUG_SPEED: i64 = 20_000;

/// Vertical wander base speed, in milli-units per second, at multiplier 1.0.
pub const BUG_VERTICAL_SPEED: i64 = 15_000;

/// Horizontal base speed per hundredth of difficulty: BUG_SPEED / 100.
pub const BUG_SPEED_PER_CENT: i64 = 200;

/// Vertical base speed per hundredth of difficulty: BUG_VERTICAL_SPEED / 100.
pub const BUG_VERTICAL_SPEED_PER_CENT: i64 = 150;

/// Animation frame toggle cadence, in milliseconds.
pub const BUG_ANIMATION_INTERVAL_MS: u32 = 400;

/// Shortest and longest wander re-roll period, in milliseconds.
pub const BUG_WANDER_MIN_MS: u64 = 1_000;

pub const BUG_WANDER_MAX_MS: u64 = 2_000;

/// Vertical margin of the spawn band and of the confinement band's floor,
/// in milli-units.
pub const SPAWN_HORIZONTAL_PADDING: i64 = 16_000;

/// Agent coordinates stay within this bound.
pub const BUG_COORD_LIMIT: i64 = 14_000_000;

/// How many agent archetypes exist; the last one is the crawler.
pub const BUG_KIND_COUNT: u64 = 3;

/// One hostile agent.
#[derive(Clone, Copy, PartialEq, Eq, Structural, Debug)]
pub struct Bug {
    pub x: i64,
    pub y: i64,
    /// Flight-capable agents wander vertically; crawlers keep to the
    /// terrain line unless a layout change pushes them down.
    pub can_fly: bool,
    /// Current vertical wander contribution: -1, 0 or 1.
    pub wander_vel: i8,
    /// Re-rolls the wander contribution each time it fires.
    pub wander_timer: Timer,
    /// Toggles the two animation frames.
    pub anim_timer: Timer,
    pub frame: u8,
}

impl Bug {
    pub open spec fn wf(self) -> bool {
        &&& -BUG_COORD_LIMIT <= self.x <= BUG_COORD_LIMIT
        &&& -BUG_COORD_LIMIT <= self.y <= BUG_COORD_LIMIT
        &&& -1 <= self.wander_vel <= 1
        &&& self.wander_timer.wf()
        &&& self.anim_timer.wf()
        &&& self.frame <= 1
    }

    /// Between ticks an agent sits close to the viewport: spawning places
    /// it at the edge, confinement clamps it vertically, and escape removes
    /// it as soon as it passes the far edge.
    pub open spec fn in_band(self) -> bool {
        &&& -13_000_000 <= self.x <= 12_600_000
        &&& -12_600_000 <= self.y <= 12_600_000
    }

    /// Where an agent can sit between movement and the escape pass: one
    /// step of travel looser than `in_band` on the far side.
    pub open spec fn pre_escape_band(self) -> bool {
        &&& -13_000_000 <= self.x <= 12_700_000
        &&& -12_600_000 <= self.y <= 12_600_000
    }
}

/// Vertical spawn position: crawlers start on the terrain line; fliers at a
/// random fraction of the padded half height, on a random side.
pub open spec fn spawn_y(selector: u64, vfrac_permille: u64, neg: bool, view: Viewport) -> int {
    if selector == BUG_KIND_COUNT - 1 {
        -view.height / 2 + SPAWN_HORIZONTAL_PADDING
    } else {
        let amplitude = view.height / 2 - SPAWN_HORIZONTAL_PADDING;
        let offset = (amplitude * vfrac_permille) / 1000;
        if neg {
            -offset
        } else {
            offset
        }
    }
}

/// The agent a spawner firing with the given draws creates.
pub open spec fn spawned_bug_spec(
    selector: u64,
    vfrac_permille: u64,
    neg: bool,
    period_ms: u64,
    view: Viewport,
) -> Bug {
    Bug {
        x: (-view.width / 2 - BUG_HALF_SIZE) as i64,
        y: spawn_y(selector, vfrac_permille, neg, view) as i64,
        can_fly: selector != BUG_KIND_COUNT - 1,
        wander_vel: 0,
        wander_timer: Timer::repeating_spec(period_ms as u32),
        anim_timer: Timer::repeating_spec(BUG_ANIMATION_INTERVAL_MS),
        frame: 0,
    }
}

/// Builds the agent a spawner firing draws: archetype, vertical placement
/// fraction, side, and wander period all come from random draws and are
/// taken as arguments, so every outcome is covered.
pub fn make_bug(selector: u64, vfrac_permille: u64, neg: bool, period_ms: u64, view: Viewport)
    -> (b: Bug)
    requires
        selector < BUG_KIND_COUNT,
        vfrac_permille < 1000,
        BUG_WANDER_MIN_MS <= period_ms <= BUG_WANDER_MAX_MS,
        view.wf(),
    ensures
        b == spawned_bug_spec(selector, vfrac_permille, neg, period_ms, view),
        b.wf(),
        b.in_band(),
{
    let y: i64 = if selector == BUG_KIND_COUNT - 1 {
        -(view.height / 2) + SPAWN_HORIZONTAL_PADDING
    } else {
        let amplitude: i64 = view.height / 2 - SPAWN_HORIZONTAL_PADDING;
        proof {
            vstd::arithmetic::mul::lemma_mul_upper_bound(
                amplitude as int,
                12_484_000,
                vfrac_permille as int,
                999,
            );
            vstd::arithmetic::div_mod::lemma_div_is_ordered(
                amplitude as int * vfrac_permille as int,
                12_484_000int * 999,
                1000,
            );
        }
        let offset: i64 = ((amplitude as u64 * vfrac_permille) / 1000) as i64;
        if neg {
            -offset
        } else {
            offset
        }
    };
    Bug {
        x: -(view.width / 2) - BUG_HALF_SIZE,
        y,
        can_fly: selector != BUG_KIND_COUNT - 1,
        wander_vel: 0,
        wander_timer: Timer::repeating(period_ms as u32),
        anim_timer: Timer::repeating(BUG_ANIMATION_INTERVAL_MS),
        frame: 0,
    }
}

/// One agent after the movement pass: its wander timer advances (a firing
/// re-rolls the wander contribution of a flier), then the position advances
/// at the difficulty-scaled speeds.
pub open spec fn moved_bug(b: Bug, dt: int, difficulty: u32, reroll: i8) -> Bug {
    let t1 = b.wander_timer.spec_tick(dt);
    let wv = if t1.just_finished && b.can_fly {
        reroll
    } else {
        b.wander_vel
    };
    let dx = scale_ms(BUG_SPEED_PER_CENT * difficulty, dt);
    let dy = scale_ms(wv * BUG_VERTICAL_SPEED_PER_CENT * difficulty, dt);
    Bug { x: (b.x + dx) as i64, y: (b.y + dy) as i64, wander_vel: wv, wander_timer: t1, ..b }
}

/// Movement pass of one agent; the wander re-roll value is drawn outside
/// and handed in.
pub fn move_bug(b: &mut Bug, dt: u32, difficulty: u32, reroll: i8)
    requires
        old(b).wf(),
        old(b).in_band(),
        dt <= crate::geom::MAX_TICK_MS,
        100 <= difficulty <= 400,
        -1 <= reroll <= 1,
    ensures
        *final(b) == moved_bug(*old(b), dt as int, difficulty, reroll),
        final(b).wf(),
{
    b.wander_timer.tick(dt);
    if b.wander_timer.just_finished && b.can_fly {
        b.wander_vel = reroll;
    }
    let dx: i64 = crate::geom::mul_ms(BUG_SPEED_PER_CENT * (difficulty as i64), dt);
    let vspeed: i64 = BUG_VERTICAL_SPEED_PER_CENT * (difficulty as i64);
    let wspeed: i64 = if b.wander_vel == 1 {
        vspeed
    } else if b.wander_vel == -1 {
        -vspeed
    } else {
        0
    };
    proof {
        assert(wspeed == b.wander_vel * BUG_VERTICAL_SPEED_PER_CENT * difficulty)
            by (nonlinear_arith)
            requires
                -1 <= b.wander_vel <= 1,
                wspeed == (if b.wander_vel == 1int {
                    BUG_VERTICAL_SPEED_PER_CENT * difficulty
                } else if b.wander_vel == -1int {
                    -(BUG_VERTICAL_SPEED_PER_CENT * difficulty)
                } else {
                    0int
                }),
        ;
    }
    let dy: i64 = crate::geom::mul_ms(wspeed, dt);
    b.x = b.x + dx;
    b.y = b.y + dy;
}

/// One agent after vertical confinement: the position is clamped into the
/// band and a clamp zeroes the wander contribution.
pub open spec fn confined_bug(b: Bug, view: Viewport) -> Bug {
    let y_min = SPAWN_HORIZONTAL_PADDING - view.height / 2;
    let y_max = view.height / 2 - BUG_HALF_SIZE;
    let b1 = if b.y < y_min {
        Bug { y: y_min as i64, wander_vel: 0, ..b }
    } else {
        b
    };
    if b1.y > y_max {
        Bug { y: y_max as i64, wander_vel: 0, ..b1 }
    } else {
        b1
    }
}

/// Confinement pass of one agent.
pub fn confine_bug(b: &mut Bug, view: Viewport)
    requires
        old(b).wf(),
        view.wf(),
    ensures
        *final(b) == confined_bug(*old(b), view),
        final(b).wf(),
        -12_600_000 <= final(b).y <= 12_600_000,
{
    let y_min: i64 = SPAWN_HORIZONTAL_PADDING - view.height / 2;
    let y_max: i64 = view.height / 2 - BUG_HALF_SIZE;
    if b.y < y_min {
        b.y = y_min;
        b.wander_vel = 0;
    }
    if b.y > y_max {
        b.y = y_max;
        b.wander_vel = 0;
    }
}

/// One agent after movement and confinement, the two passes of a tick that
/// change where it stands.
pub open spec fn stepped_bug(b: Bug, dt: int, difficulty: u32, reroll: i8, view: Viewport)
    -> Bug {
    confined_bug(moved_bug(b, dt, difficulty, reroll), view)
}

/// Movement and confinement over the whole pool; the wander re-roll values
/// are drawn outside, one per agent, and handed in.
pub fn step_bugs(bugs: &mut Vec<Bug>, dt: u32, difficulty: u32, rolls: &Vec<i8>, view: Viewport)
    requires
        old(bugs)@.len() == rolls@.len(),
        forall|i: int|
            0 <= i < old(bugs)@.len() ==> (#[trigger] old(bugs)@[i]).wf()
                && old(bugs)@[i].in_band(),
        forall|i: int| 0 <= i < rolls@.len() ==> -1 <= #[trigger] rolls@[i] <= 1,
        dt <= crate::geom::MAX_TICK_MS,
        100 <= difficulty <= 400,
        view.wf(),
    ensures
        final(bugs)@.len() == old(bugs)@.len(),
        forall|i: int|
            0 <= i < final(bugs)@.len() ==> #[trigger] final(bugs)@[i] == stepped_bug(
                old(bugs)@[i],
                dt as int,
                difficulty,
                rolls@[i],
                view,
            ),
        forall|i: int|
            0 <= i < final(bugs)@.len() ==> (#[trigger] final(bugs)@[i]).wf()
                && final(bugs)@[i].pre_escape_band(),
{
    let ghost bs = bugs@;
    let n = bugs.len();
    let mut i: usize = 0;
    while i < n
        invariant
            n == bs.len(),
            bugs@.len() == n,
            rolls@.len() == n,
            i <= n,
            dt <= crate::geom::MAX_TICK_MS,
            100 <= difficulty <= 400,
            view.wf(),
            forall|j: int| 0 <= j < n ==> (#[trigger] bs[j]).wf() && bs[j].in_band(),
            forall|j: int| 0 <= j < n ==> -1 <= #[trigger] rolls@[j] <= 1,
            forall|j: int|
                0 <= j < i ==> #[trigger] bugs@[j] == stepped_bug(
                    bs[j],
                    dt as int,
                    difficulty,
                    rolls@[j],
                    view,
                ),
            forall|j: int|
                0 <= j < i ==> (#[trigger] bugs@[j]).wf() && bugs@[j].pre_escape_band(),
            forall|j: int| i <= j < n ==> bugs@[j] == bs[j],
        decreases n - i,
    {
        let mut b = bugs[i];
        proof {
            assert(bs[i as int].wf() && bs[i as int].in_band());
            crate::geom::lemma_scale_ms_bounds(
                BUG_SPEED_PER_CENT * difficulty,
                dt as int,
            );
        }
        move_bug(&mut b, dt, difficulty, rolls[i]);
        confine_bug(&mut b, view);
        bugs.set(i, b);
        i = i + 1;
    }
}

/// Whether an agent has crossed the far screen edge (by its half size
/// beyond it), costing the player a heart.
pub open spec fn escaped(b: Bug, view: Viewport) -> bool {
    b.x - BUG_HALF_SIZE > view.width / 2
}

/// The agents still on screen.
pub open spec fn remaining_bugs(bs: Seq<Bug>, view: Viewport) -> Seq<Bug> {
    bs.filter(|b: Bug| !escaped(b, view))
}

/// Hearts left after `n` escapes: each escape costs one, never below zero.
pub open spec fn hearts_after(h: u8, n: int) -> int {
    if n <= h {
        h - n
    } else {
        0
    }
}

/// Hearts never leave their band, and an escape with no hearts left
/// leaves them at zero: the counter cannot underflow.
pub proof fn lemma_hearts_bounds(h: u8, n: int)
    requires
        h <= crate::stats::INITIAL_HEART_COUNT,
        0 <= n,
    ensures
        0 <= hearts_after(h, n) <= crate::stats::INITIAL_HEART_COUNT,
        h == 0 ==> hearts_after(h, n) == 0,
{
}

/// Escape pass: every agent past the far edge despawns and costs one heart
/// (hearts never drop below zero). Score and difficulty are untouched.
pub fn despawn_bug(bugs: &mut Vec<Bug>, stats: &mut Stats, view: Viewport)
    requires
        view.wf(),
        forall|i: int|
            0 <= i < old(bugs)@.len() ==> (#[trigger] old(bugs)@[i]).wf()
                && old(bugs)@[i].pre_escape_band(),
    ensures
        final(bugs)@ == remaining_bugs(old(bugs)@, view),
        forall|i: int|
            0 <= i < final(bugs)@.len() ==> (#[trigger] final(bugs)@[i]).wf()
                && final(bugs)@[i].in_band(),
        final(stats).hearts == hearts_after(
            old(stats).hearts,
            old(bugs)@.len() - remaining_bugs(old(bugs)@, view).len(),
        ),
        final(stats).score == old(stats).score,
        final(stats).difficulty == old(stats).difficulty,
        final(stats).hearts <= old(stats).hearts,
{
    let ghost bs = bugs@;
    let ghost h0 = stats.hearts;
    let n = bugs.len();
    let mut out: Vec<Bug> = Vec::new();
    let mut i: usize = 0;
    while i < n
        invariant
            n == bs.len(),
            bugs@ == bs,
            i <= n,
            view.wf(),
            forall|j: int| 0 <= j < n ==> (#[trigger] bs[j]).wf() && bs[j].pre_escape_band(),
            out@ == remaining_bugs(bs.subrange(0, i as int), view),
            forall|j: int|
                0 <= j < out@.len() ==> (#[trigger] out@[j]).wf() && out@[j].in_band(),
            out@.len() <= i,
            stats.hearts == hearts_after(h0, i - out@.len()),
            stats.score == old(stats).score,
            stats.difficulty == old(stats).difficulty,
            h0 == old(stats).hearts,
        decreases n - i,
    {
        proof {
            reveal(Seq::filter);
            assert(bs.subrange(0, i as int + 1).drop_last() =~= bs.subrange(0, i as int));
            broadcast use vstd::seq_lib::group_filter_ensures;

            assert(bs[i as int].wf());
        }
        let b = bugs[i];
        if b.x - BUG_HALF_SIZE > view.width / 2 {
            if stats.hearts > 0 {
                stats.hearts = stats.hearts - 1;
            }
        } else {
            out.push(b);
        }
        i = i + 1;
    }
    proof {
        assert(bs.subrange(0, n as int) =~= bs);
    }
    *bugs = out;
}

/// One agent after a layout change: crawlers are forced downward so they
/// settle onto the regenerated terrain line.
pub open spec fn pushed_down(b: Bug) -> Bug {
    if !b.can_fly {
        Bug { wander_vel: -1i8, ..b }
    } else {
        b
    }
}

/// Layout-change pass over the pool.
pub fn push_down_flightless_bug(bugs: &mut Vec<Bug>)
    ensures
        final(bugs)@ == old(bugs)@.map_values(|b: Bug| pushed_down(b)),
{
    let ghost bs = bugs@;
    let n = bugs.len();
    let mut i: usize = 0;
    while i < n
        invariant
            n == bs.len(),
            bugs@.len() == n,
            i <= n,
            forall|j: int| 0 <= j < i ==> bugs@[j] == pushed_down(bs[j]),
            forall|j: int| i <= j < n ==> bugs@[j] == bs[j],
        decreases n - i,
    {
        let b = bugs[i];
        if !b.can_fly {
            bugs.set(i, Bug { wander_vel: -1, ..b });
        }
        i = i + 1;
    }
    proof {
        assert(bugs@ =~= bs.map_values(|b: Bug| pushed_down(b)));
    }
}

/// One agent after the animation pass: the frame toggles each time the
/// animation timer fires, independent of motion.
pub open spec fn animated_bug(b: Bug, dt: int) -> Bug {
    let t1 = b.anim_timer.spec_tick(dt);
    let f = if t1.just_finished {
        if b.frame == 0 {
            1u8
        } else {
            0u8
        }
    } else {
        b.frame
    };
    Bug { anim_timer: t1, frame: f, ..b }
}

/// Animation pass over the pool.
pub fn animate_bug(bugs: &mut Vec<Bug>, dt: u32)
    requires
        dt <= crate::geom::MAX_TICK_MS,
        forall|i: int| 0 <= i < old(bugs)@.len() ==> (#[trigger] old(bugs)@[i]).wf(),
    ensures
        final(bugs)@ == old(bugs)@.map_values(|b: Bug| animated_bug(b, dt as int)),
        forall|i: int| 0 <= i < final(bugs)@.len() ==> (#[trigger] final(bugs)@[i]).wf(),
{
    let ghost bs = bugs@;
    let n = bugs.len();
    let mut i: usize = 0;
    while i < n
        invariant
            n == bs.len(),
            bugs@.len() == n,
            i <= n,
            dt <= crate::geom::MAX_TICK_MS,
            forall|j: int| 0 <= j < n ==> (#[trigger] bs[j]).wf(),
            forall|j: int| 0 <= j < i ==> bugs@[j] == animated_bug(bs[j], dt as int),
            forall|j: int| i <= j < n ==> bugs@[j] == bs[j],
            forall|j: int| 0 <= j < i ==> (#[trigger] bugs@[j]).wf(),
        decreases n - i,
    {
        let mut b = bugs[i];
        proof {
            assert(bs[i as int].wf());
        }
        b.anim_timer.tick(dt);
        if b.anim_timer.just_finished {
            b.frame = if b.frame == 0 {
                1
            } else {
                0
            };
        }
        bugs.set(i, b);
        i = i + 1;
    }
    proof {
        assert(bugs@ =~= bs.map_values(|b: Bug| animated_bug(b, dt as int)));
    }
}

/// Whether a projectile and an agent collide: their positions lie strictly
/// within one agent size of each other.
pub open spec fn hits(b: Bullet, g: Bug) -> bool {
    close_within(b.x as int, b.y as int, g.x as int, g.y as int, BUG_SIZE as int)
}

/// A projectile not in collision with any agent of the pool.
pub open spec fn bullet_survives(b: Bullet, gs: Seq<Bug>) -> bool {
    forall|j: int| 0 <= j < gs.len() ==> !hits(b, #[trigger] gs[j])
}

/// An agent not in collision with any projectile of the pool.
pub open spec fn bug_survives(g: Bug, bs: Seq<Bullet>) -> bool {
    forall|i: int| 0 <= i < bs.len() ==> !hits(#[trigger] bs[i], g)
}

/// The projectiles that took part in no collision this tick.
pub open spec fn surviving_bullets(bs: Seq<Bullet>, gs: Seq<Bug>) -> Seq<Bullet> {
    bs.filter(|b: Bullet| bullet_survives(b, gs))
}

/// The agents that took part in no collision this tick.
pub open spec fn surviving_bugs(gs: Seq<Bug>, bs: Seq<Bullet>) -> Seq<Bug> {
    gs.filter(|g: Bug| bug_survives(g, bs))
}

/// How many agents of the pool one projectile collides with.
pub open spec fn hit_count_for_bullet(b: Bullet, gs: Seq<Bug>) -> nat
    decreases gs.len(),
{
    if gs.len() == 0 {
        0
    } else {
        hit_count_for_bullet(b, gs.drop_last()) + if hits(b, gs.last()) {
            1nat
        } else {
            0nat
        }
    }
}

/// How many projectile-agent pairs of the two pools are in collision.
pub open spec fn kill_pair_count(bs: Seq<Bullet>, gs: Seq<Bug>) -> nat
    decreases bs.len(),
{
    if bs.len() == 0 {
        0
    } else {
        kill_pair_count(bs.drop_last(), gs) + hit_count_for_bullet(bs.last(), gs)
    }
}

/// Collision pass: every projectile-agent pair strictly within the
/// collision threshold despawns both and awards the kill reward, once per
/// qualifying pair. Both pools are judged against their state at entry, so
/// one projectile can fell several agents in the same tick and the order of
/// the pools does not matter. Hearts and difficulty are untouched.
pub fn eat_bullet_bug(bullets: &mut Vec<Bullet>, bugs: &mut Vec<Bug>, stats: &mut Stats)
    requires
        forall|i: int| 0 <= i < old(bullets)@.len() ==> (#[trigger] old(bullets)@[i]).wf(),
        forall|i: int| 0 <= i < old(bugs)@.len() ==> (#[trigger] old(bugs)@[i]).wf(),
    ensures
        final(bullets)@ == surviving_bullets(old(bullets)@, old(bugs)@),
        final(bugs)@ == surviving_bugs(old(bugs)@, old(bullets)@),
        final(stats).score == sat_add(
            old(stats).score,
            KILL_REWARD * kill_pair_count(old(bullets)@, old(bugs)@),
        ),
        final(stats).hearts == old(stats).hearts,
        final(stats).difficulty == old(stats).difficulty,
        final(stats).score >= old(stats).score,
        forall|i: int|
            0 <= i < final(bullets)@.len() ==> old(bullets)@.contains(
                #[trigger] final(bullets)@[i],
            ),
        forall|i: int|
            0 <= i < final(bugs)@.len() ==> old(bugs)@.contains(#[trigger] final(bugs)@[i]),
{
    let ghost bs = bullets@;
    let ghost gs = bugs@;
    let ghost s0 = stats.score;
    let nb = bullets.len();
    let ng = bugs.len();

    let mut i: usize = 0;
    while i < nb
        invariant
            nb == bs.len(),
            ng == gs.len(),
            bullets@ == bs,
            bugs@ == gs,
            i <= nb,
            forall|k: int| 0 <= k < nb ==> (#[trigger] bs[k]).wf(),
            forall|k: int| 0 <= k < ng ==> (#[trigger] gs[k]).wf(),
            stats.score == sat_add(s0, KILL_REWARD * kill_pair_count(bs.subrange(0, i as int), gs)),
            stats.hearts == old(stats).hearts,
            stats.difficulty == old(stats).difficulty,
            s0 == old(stats).score,
            stats.score >= s0,
        decreases nb - i,
    {
        let b = bullets[i];
        proof {
            assert(bs[i as int].wf());
        }
        let mut j: usize = 0;
        while j < ng
            invariant
                nb == bs.len(),
                ng == gs.len(),
                bullets@ == bs,
                bugs@ == gs,
                i < nb,
                j <= ng,
                b == bs[i as int],
                forall|k: int| 0 <= k < nb ==> (#[trigger] bs[k]).wf(),
                forall|k: int| 0 <= k < ng ==> (#[trigger] gs[k]).wf(),
                stats.score == sat_add(
                    s0,
                    KILL_REWARD * kill_pair_count(bs.subrange(0, i as int), gs)
                        + KILL_REWARD * hit_count_for_bullet(b, gs.subrange(0, j as int)),
                ),
                stats.hearts == old(stats).hearts,
                stats.difficulty == old(stats).difficulty,
                s0 == old(stats).score,
                stats.score >= s0,
            decreases ng - j,
        {
            let g = bugs[j];
            proof {
                assert(gs[j as int].wf());
                assert(gs.subrange(0, j as int + 1).drop_last() =~= gs.subrange(0, j as int));
            }
            if crate::geom::is_close_within(b.x, b.y, g.x, g.y, BUG_SIZE) {
                stats.add_score(KILL_REWARD);
            }
            j = j + 1;
        }
        proof {
            assert(gs.subrange(0, ng as int) =~= gs);
            assert(bs.subrange(0, i as int + 1).drop_last() =~= bs.subrange(0, i as int));
        }
        i = i + 1;
    }
    proof {
        assert(bs.subrange(0, nb as int) =~= bs);
    }

    let mut out_bullets: Vec<Bullet> = Vec::new();
    let mut i: usize = 0;
    while i < nb
        invariant
            nb == bs.len(),
            ng == gs.len(),
            bullets@ == bs,
            bugs@ == gs,
            i <= nb,
            forall|k: int| 0 <= k < nb ==> (#[trigger] bs[k]).wf(),
            forall|k: int| 0 <= k < ng ==> (#[trigger] gs[k]).wf(),
            out_bullets@ == surviving_bullets(bs.subrange(0, i as int), gs),
            forall|k: int|
                0 <= k < out_bullets@.len() ==> bs.contains(#[trigger] out_bullets@[k]),
        decreases nb - i,
    {
        proof {
            reveal(Seq::filter);
            assert(bs.subrange(0, i as int + 1).drop_last() =~= bs.subrange(0, i as int));
            assert(bs[i as int].wf());
        }
        let b = bullets[i];
        let mut alive: bool = true;
        let mut j: usize = 0;
        while j < ng
            invariant
                ng == gs.len(),
                bugs@ == gs,
                j <= ng,
                b.wf(),
                forall|k: int| 0 <= k < ng ==> (#[trigger] gs[k]).wf(),
                alive == bullet_survives(b, gs.subrange(0, j as int)),
            decreases ng - j,
        {
            let g = bugs[j];
            proof {
                assert(gs[j as int].wf());
            }
            let hit = crate::geom::is_close_within(b.x, b.y, g.x, g.y, BUG_SIZE);
            proof {
                let s0 = gs.subrange(0, j as int);
                let s1 = gs.subrange(0, j as int + 1);
                assert(s1[j as int] == gs[j as int]);
                if !hit && bullet_survives(b, s0) {
                    assert forall|k: int| 0 <= k < s1.len() implies !hits(
                        b,
                        #[trigger] s1[k],
                    ) by {
                        if k < j {
                            assert(s1[k] == s0[k]);
                        } else {
                            assert(s1[k] == gs[j as int]);
                        }
                    }
                }
            }
            if hit {
                alive = false;
            }
            j = j + 1;
        }
        proof {
            assert(gs.subrange(0, ng as int) =~= gs);
        }
        if alive {
            proof {
                assert(bs[i as int] == b);
            }
            out_bullets.push(b);
        }
        i = i + 1;
    }
    proof {
        assert(bs.subrange(0, nb as int) =~= bs);
    }

    let mut out_bugs: Vec<Bug> = Vec::new();
    let mut i: usize = 0;
    while i < ng
        invariant
            nb == bs.len(),
            ng == gs.len(),
            bullets@ == bs,
            bugs@ == gs,
            i <= ng,
            forall|k: int| 0 <= k < nb ==> (#[trigger] bs[k]).wf(),
            forall|k: int| 0 <= k < ng ==> (#[trigger] gs[k]).wf(),
            out_bugs@ == surviving_bugs(gs.subrange(0, i as int), bs),
            forall|k: int| 0 <= k < out_bugs@.len() ==> gs.contains(#[trigger] out_bugs@[k]),
        decreases ng - i,
    {
        proof {
            reveal(Seq::filter);
            assert(gs.subrange(0, i as int + 1).drop_last() =~= gs.subrange(0, i as int));
            assert(gs[i as int].wf());
        }
        let g = bugs[i];
        let mut alive: bool = true;
        let mut j: usize = 0;
        while j < nb
            invariant
                nb == bs.len(),
                bullets@ == bs,
                j <= nb,
                g.wf(),
                forall|k: int| 0 <= k < nb ==> (#[trigger] bs[k]).wf(),
                alive == bug_survives(g, bs.subrange(0, j as int)),
            decreases nb - j,
        {
            let b = bullets[j];
            proof {
                assert(bs[j as int].wf());
            }
            let hit = crate::geom::is_close_within(b.x, b.y, g.x, g.y, BUG_SIZE);
            proof {
                let s0 = bs.subrange(0, j as int);
                let s1 = bs.subrange(0, j as int + 1);
                assert(s1[j as int] == bs[j as int]);
                if !hit && bug_survives(g, s0) {
                    assert forall|k: int| 0 <= k < s1.len() implies !hits(
                        #[trigger] s1[k],
                        g,
                    ) by {
                        if k < j {
                            assert(s1[k] == s0[k]);
                        } else {
                            assert(s1[k] == bs[j as int]);
                        }
                    }
                }
            }
            if hit {
                alive = false;
            }
            j = j + 1;
        }
        proof {
            assert(bs.subrange(0, nb as int) =~= bs);
        }
        if alive {
            proof {
                assert(gs[i as int] == g);
            }
            out_bugs.push(g);
        }
        i = i + 1;
    }
    proof {
        assert(gs.subrange(0, ng as int) =~= gs);
    }

    *bullets = out_bullets;
    *bugs = out_bugs;
}

} // verus!
