//! Projectiles and their cosmetic muzzle sparks. A projectile already past
//! the far screen edge is flagged for destruction instead of moving, and is
//! removed by a dedicated consumer later in the same tick, so same-tick
//! collision detection still sees it at its true position.

use vstd::prelude::*;

use crate::geom::{scale_ms, Viewport};
use crate::timer::{Timer, TimerMode};

verus! {

/// Projectile sprite edge length, in milli-units.
pub const BULLET_SIZE: i64 = 16_000;

/// Half the projectile size, in milli-units.
pub const BULLET_HALF_SIZE: i64 = 8_000;

/// Projectile speed, in milli-units per second.
pub const BULLET_SPEED: i64 = 400_000;

/// The projectile spawns this far below the actor's center, in milli-units.
pub const BULLET_Y_OFFSET: i64 = 2_500;

/// The spark spawns this far beyond the actor's half size, in milli-units.
pub const BULLET_SPARK_X_OFFSET: i64 = 7_500;

/// Lifetime of the cosmetic spark, in milliseconds.
pub const BULLET_SPARK_DURATION_MS: u32 = 20;

/// Projectile coordinates stay within this bound: spawning starts them
/// inside the viewport and the bound check stops them one step past it.
pub const BULLET_COORD_LIMIT: i64 = 14_000_000;

/// A projectile: position, direction multiplier, and the deferred-destroy
/// flag the bound check raises.
#[derive(Clone, Copy, PartialEq, Eq, Structural, Debug)]
pub struct Bullet {
    pub x: i64,
    pub y: i64,
    pub direction: i8,
    pub doomed: bool,
}

impl Bullet {
    pub open spec fn wf(self) -> bool {
        &&& -BULLET_COORD_LIMIT <= self.x <= BULLET_COORD_LIMIT
        &&& -BULLET_COORD_LIMIT <= self.y <= BULLET_COORD_LIMIT
        &&& (self.direction == 1 || self.direction == -1)
    }
}

/// A purely cosmetic muzzle spark with its one-shot lifetime.
#[derive(Clone, Copy, PartialEq, Eq, Structural, Debug)]
pub struct BulletSpark {
    pub x: i64,
    pub y: i64,
    pub timer: Timer,
}

impl BulletSpark {
    pub open spec fn wf(self) -> bool {
        &&& -BULLET_COORD_LIMIT <= self.x <= BULLET_COORD_LIMIT
        &&& -BULLET_COORD_LIMIT <= self.y <= BULLET_COORD_LIMIT
        &&& self.timer.wf()
    }
}

/// A fire action: carries the facing-direction multiplier (`1` or `-1`).
#[derive(Clone, Copy, PartialEq, Eq, Structural, Debug)]
pub struct BulletFireEvent {
    pub direction: i8,
}

/// The projectile a fire event at actor position `(px, py)` creates.
pub open spec fn spawned_bullet(px: int, py: int, direction: int) -> Bullet {
    Bullet {
        x: (px + direction * (crate::cat::CAT_HALF_SIZE + BULLET_HALF_SIZE)) as i64,
        y: (py - BULLET_Y_OFFSET) as i64,
        direction: direction as i8,
        doomed: false,
    }
}

/// The spark the same fire event creates, further along the direction.
pub open spec fn spawned_spark(px: int, py: int, direction: int) -> BulletSpark {
    BulletSpark {
        x: (px + direction * (crate::cat::CAT_HALF_SIZE + BULLET_SPARK_X_OFFSET)) as i64,
        y: (py - BULLET_Y_OFFSET) as i64,
        timer: Timer {
            mode: TimerMode::Once,
            duration_ms: BULLET_SPARK_DURATION_MS,
            elapsed_ms: 0,
            just_finished: false,
        },
    }
}

/// Spawns the projectile and its spark from a fire event and the actor's
/// current position.
pub fn spawn_bullet(px: i64, py: i64, ev: &BulletFireEvent) -> (r: (Bullet, BulletSpark))
    requires
        -13_200_000 <= px <= 13_200_000,
        -13_200_000 <= py <= 13_200_000,
        ev.direction == 1 || ev.direction == -1,
    ensures
        r.0 == spawned_bullet(px as int, py as int, ev.direction as int),
        r.1 == spawned_spark(px as int, py as int, ev.direction as int),
        r.0.wf(),
        r.1.wf(),
{
    let dir: i64 = if ev.direction >= 0 { 1 } else { -1 };
    let b = Bullet {
        x: px + dir * (crate::cat::CAT_HALF_SIZE + BULLET_HALF_SIZE),
        y: py - BULLET_Y_OFFSET,
        direction: ev.direction,
        doomed: false,
    };
    let s = BulletSpark {
        x: px + dir * (crate::cat::CAT_HALF_SIZE + BULLET_SPARK_X_OFFSET),
        y: py - BULLET_Y_OFFSET,
        timer: Timer::new(BULLET_SPARK_DURATION_MS, TimerMode::Once),
    };
    (b, s)
}

/// Whether a projectile already lies past the far screen edge in its
/// direction of travel (by its half size beyond the edge).
pub open spec fn out_of_bounds(b: Bullet, view: Viewport) -> bool {
    if b.direction >= 0 {
        b.x > view.width / 2 + BULLET_HALF_SIZE
    } else {
        b.x < -(view.width / 2) - BULLET_HALF_SIZE
    }
}

/// One projectile after the movement pass: a projectile past the far edge
/// is flagged and stays put (so same-tick collision still sees it); any
/// other advances at its fixed speed.
pub open spec fn moved_bullet(b: Bullet, view: Viewport, dt: int) -> Bullet {
    if out_of_bounds(b, view) {
        Bullet { doomed: true, ..b }
    } else {
        Bullet { x: (b.x + scale_ms(b.direction * BULLET_SPEED, dt)) as i64, ..b }
    }
}

/// The whole projectile pool after the movement pass.
pub open spec fn moved_bullets(bs: Seq<Bullet>, view: Viewport, dt: int) -> Seq<Bullet> {
    bs.map_values(|b: Bullet| moved_bullet(b, view, dt))
}

/// Movement and bound check over the whole pool, in one pass.
pub fn move_bullet(bullets: &mut Vec<Bullet>, view: Viewport, dt: u32)
    requires
        view.wf(),
        dt <= crate::geom::MAX_TICK_MS,
        forall|i: int| 0 <= i < old(bullets)@.len() ==> (#[trigger] old(bullets)@[i]).wf(),
    ensures
        final(bullets)@ == moved_bullets(old(bullets)@, view, dt as int),
        forall|i: int| 0 <= i < final(bullets)@.len() ==> (#[trigger] final(bullets)@[i]).wf(),
{
    let ghost bs = bullets@;
    let n = bullets.len();
    let mut i: usize = 0;
    while i < n
        invariant
            n == bs.len(),
            bullets@.len() == n,
            i <= n,
            view.wf(),
            dt <= crate::geom::MAX_TICK_MS,
            forall|j: int| 0 <= j < n ==> (#[trigger] bs[j]).wf(),
            forall|j: int|
                0 <= j < i ==> bullets@[j] == moved_bullet(bs[j], view, dt as int),
            forall|j: int| i <= j < n ==> bullets@[j] == bs[j],
            forall|j: int| 0 <= j < i ==> (#[trigger] bullets@[j]).wf(),
        decreases n - i,
    {
        let b = bullets[i];
        proof {
            assert(bs[i as int].wf());
        }
        let past_edge: bool = if b.direction >= 0 {
            b.x > view.width / 2 + BULLET_HALF_SIZE
        } else {
            b.x < -(view.width / 2) - BULLET_HALF_SIZE
        };
        if past_edge {
            bullets.set(i, Bullet { doomed: true, ..b });
        } else {
            let speed: i64 = if b.direction >= 0 { BULLET_SPEED } else { -BULLET_SPEED };
            let nx: i64 = b.x + crate::geom::mul_ms(speed, dt);
            bullets.set(i, Bullet { x: nx, ..b });
        }
        i = i + 1;
    }
    proof {
        assert(bullets@ =~= moved_bullets(bs, view, dt as int));
    }
}

/// The projectile pool without its flagged members.
pub open spec fn undoomed(bs: Seq<Bullet>) -> Seq<Bullet> {
    bs.filter(|b: Bullet| !b.doomed)
}

/// The destroy-event consumer: removes every projectile the bound check
/// flagged this tick.
pub fn despawn_bullet(bullets: &mut Vec<Bullet>)
    ensures
        final(bullets)@ == undoomed(old(bullets)@),
        forall|i: int|
            0 <= i < final(bullets)@.len() ==> !(#[trigger] final(bullets)@[i]).doomed,
        forall|i: int|
            0 <= i < final(bullets)@.len() ==> old(bullets)@.contains(
                #[trigger] final(bullets)@[i],
            ),
{
    let ghost bs = bullets@;
    let n = bullets.len();
    let mut out: Vec<Bullet> = Vec::new();
    let mut i: usize = 0;
    while i < n
        invariant
            n == bs.len(),
            bullets@ == bs,
            i <= n,
            out@ == undoomed(bs.subrange(0, i as int)),
            forall|j: int| 0 <= j < out@.len() ==> bs.contains(#[trigger] out@[j]),
        decreases n - i,
    {
        proof {
            reveal(Seq::filter);
            assert(bs.subrange(0, i as int + 1).drop_last() =~= bs.subrange(0, i as int));
        }
        let b = bullets[i];
        if !b.doomed {
            proof {
                assert(bs[i as int] == b);
            }
            out.push(b);
        }
        i = i + 1;
    }
    proof {
        assert(bs.subrange(0, n as int) =~= bs);
        broadcast use vstd::seq_lib::group_filter_ensures;
    }
    *bullets = out;
}

/// One spark after its lifetime advances by `dt`.
pub open spec fn ticked_spark(s: BulletSpark, dt: int) -> BulletSpark {
    BulletSpark { timer: s.timer.spec_tick(dt), ..s }
}

/// The spark pool after a tick: every lifetime advances, and sparks whose
/// one-shot timer elapsed this tick go away.
pub open spec fn surviving_sparks(ss: Seq<BulletSpark>, dt: int) -> Seq<BulletSpark> {
    ss.map_values(|s: BulletSpark| ticked_spark(s, dt)).filter(
        |s: BulletSpark| !s.timer.just_finished,
    )
}

/// Advances every spark's lifetime and removes those that elapsed.
pub fn despawn_spark(sparks: &mut Vec<BulletSpark>, dt: u32)
    requires
        dt <= crate::geom::MAX_TICK_MS,
        forall|i: int| 0 <= i < old(sparks)@.len() ==> (#[trigger] old(sparks)@[i]).wf(),
    ensures
        final(sparks)@ == surviving_sparks(old(sparks)@, dt as int),
        forall|i: int| 0 <= i < final(sparks)@.len() ==> (#[trigger] final(sparks)@[i]).wf(),
{
    let ghost ss = sparks@;
    let ghost ticked = ss.map_values(|s: BulletSpark| ticked_spark(s, dt as int));
    let n = sparks.len();
    let mut out: Vec<BulletSpark> = Vec::new();
    let mut i: usize = 0;
    while i < n
        invariant
            n == ss.len(),
            sparks@ == ss,
            i <= n,
            dt <= crate::geom::MAX_TICK_MS,
            forall|j: int| 0 <= j < n ==> (#[trigger] ss[j]).wf(),
            ticked == ss.map_values(|s: BulletSpark| ticked_spark(s, dt as int)),
            out@ == ticked.subrange(0, i as int).filter(
                |s: BulletSpark| !s.timer.just_finished,
            ),
            forall|j: int| 0 <= j < out@.len() ==> (#[trigger] out@[j]).wf(),
        decreases n - i,
    {
        proof {
            reveal(Seq::filter);
            assert(ticked.subrange(0, i as int + 1).drop_last() =~= ticked.subrange(
                0,
                i as int,
            ));
            assert(ticked[i as int] == ticked_spark(ss[i as int], dt as int));
        }
        let mut s = sparks[i];
        s.timer.tick(dt);
        proof {
            assert(s == ticked[i as int]);
        }
        if !s.timer.just_finished {
            out.push(s);
        }
        i = i + 1;
    }
    proof {
        assert(ticked.subrange(0, n as int) =~= ticked);
    }
    *sparks = out;
}

} // verus!
