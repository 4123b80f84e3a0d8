//! The player-controlled kinematic actor: velocity integration under
//! gravity and friction, edge-triggered jumping, screen confinement,
//! terrain-surface collision, the weapon toggle, the refire cooldown and
//! the build action.

use vstd::prelude::*;

use crate::bullet::BulletFireEvent;
use crate::geom::{scale_ms, within_dist, Viewport};
use crate::ground::{Ground, GroundBuildEvent, GROUND_WIDTH};
use crate::timer::Timer;

verus! {

/// Actor sprite edge length, in milli-units.
pub const CAT_SIZE: i64 = 16_000;

/// Half the actor size, in milli-units.
pub const CAT_HALF_SIZE: i64 = 8_000;

/// Horizontal impulse one input source adds per tick, in milli-units per
/// second.
pub const CAT_SPEED: i64 = 25_000;

/// Upward impulse of a jump, in milli-units per second.
pub const CAT_JUMP_FORCE: i64 = 80_000;

/// Jump impulse lost while the weapon is equipped.
pub const CAT_GUN_WEIGHT: i64 = 10_000;

/// Downward acceleration, in milli-units per second squared.
pub const GRAVITY: i64 = 200_800;

/// Falling speed saturates here, in milli-units per second (a machine
/// bound far beyond anything reachable before landing).
pub const FALL_SPEED_LIMIT: i64 = 10_000_000;

/// Horizontal speed stays within this bound, in milli-units per second.
pub const SIDE_SPEED_LIMIT: i64 = 100_000_000;

/// After confinement the actor sits within this coordinate bound.
pub const CAT_CONFINED_LIMIT: i64 = 13_000_000;

/// The terrain broad phase accepts a block whose top surface lies within
/// this distance of the actor's bottom point: one and a half block heights.
pub const MAX_COLLISION_DIST: i64 = 12_000;

/// Refire cooldown of the weapon, in milliseconds.
pub const FIRE_COOLDOWN_MS: u32 = 120;

#[derive(Clone, Copy, PartialEq, Eq, Structural, Debug)]
pub enum EntityDirection {
    Left,
    Right,
}

/// The resolved action signals of one tick. Multiple simultaneous input
/// sources (keyboard, gamepad) asserting a movement are additive, so the
/// movement actions carry a source count rather than a flag; the others are
/// edge signals.
#[derive(Clone, Copy, PartialEq, Eq, Structural, Debug)]
pub struct InputFrame {
    pub left_impulses: u8,
    pub right_impulses: u8,
    pub jump_pressed: bool,
    pub fire_pressed: bool,
    pub toggle_weapon_pressed: bool,
    pub build_pressed: bool,
    pub pause_pressed: bool,
}

impl InputFrame {
    /// A frame with no action asserted.
    pub fn idle() -> (f: InputFrame)
        ensures
            f == (InputFrame {
                left_impulses: 0u8,
                right_impulses: 0u8,
                jump_pressed: false,
                fire_pressed: false,
                toggle_weapon_pressed: false,
                build_pressed: false,
                pause_pressed: false,
            }),
    {
        InputFrame {
            left_impulses: 0,
            right_impulses: 0,
            jump_pressed: false,
            fire_pressed: false,
            toggle_weapon_pressed: false,
            build_pressed: false,
            pause_pressed: false,
        }
    }
}

/// The player actor.
#[derive(Clone, Copy, PartialEq, Eq, Structural, Debug)]
pub struct Cat {
    pub px: i64,
    pub py: i64,
    pub vx: i64,
    pub vy: i64,
    pub direction: EntityDirection,
    pub can_jump: bool,
    pub has_gun: bool,
    pub is_firing: bool,
}

impl Cat {
    /// Validity bounds: position and velocity within machine limits, and an
    /// actor allowed to jump is never still rising.
    pub open spec fn wf(self) -> bool {
        &&& -crate::geom::POS_LIMIT_MU <= self.px <= crate::geom::POS_LIMIT_MU
        &&& -crate::geom::POS_LIMIT_MU <= self.py <= crate::geom::POS_LIMIT_MU
        &&& -SIDE_SPEED_LIMIT <= self.vx <= SIDE_SPEED_LIMIT
        &&& -FALL_SPEED_LIMIT <= self.vy <= CAT_JUMP_FORCE + 20_000
        &&& (self.can_jump ==> self.vy <= 0)
    }

    /// After confinement the actor sits in the confinement band.
    pub open spec fn confined(self) -> bool {
        &&& -CAT_CONFINED_LIMIT <= self.px <= CAT_CONFINED_LIMIT
        &&& -CAT_CONFINED_LIMIT <= self.py <= CAT_CONFINED_LIMIT
    }

    /// The actor as spawned on entering the play state: at the origin, at
    /// rest, facing right, unarmed, and not yet allowed to jump (the first
    /// landing grants that).
    pub fn new() -> (c: Cat)
        ensures
            c == Cat::new_spec(),
            c.wf(),
            c.confined(),
    {
        Cat {
            px: 0,
            py: 0,
            vx: 0,
            vy: 0,
            direction: EntityDirection::Right,
            can_jump: false,
            has_gun: false,
            is_firing: false,
        }
    }

    pub open spec fn new_spec() -> Cat {
        Cat {
            px: 0,
            py: 0,
            vx: 0,
            vy: 0,
            direction: EntityDirection::Right,
            can_jump: false,
            has_gun: false,
            is_firing: false,
        }
    }
}

/// Exponential horizontal damping toward zero: four fifths of the speed
/// survive each tick, truncated toward zero.
pub open spec fn friction_of(v: int) -> int {
    if v >= 0 {
        (v * 4) / 5
    } else {
        -(((-v) * 4) / 5)
    }
}

fn friction_step(v: i64) -> (r: i64)
    requires
        -200_000_000 <= v <= 200_000_000,
    ensures
        r == friction_of(v as int),
        v >= 0 ==> 0 <= r <= v,
        v < 0 ==> v <= r <= 0,
{
    let mag: u64 = if v >= 0 {
        v as u64
    } else {
        (-v) as u64
    };
    proof {
        vstd::arithmetic::div_mod::lemma_div_is_ordered(
            mag as int * 4,
            mag as int * 5,
            5,
        );
        vstd::arithmetic::div_mod::lemma_div_by_multiple(mag as int, 5);
    }
    let q: u64 = (mag * 4) / 5;
    if v >= 0 {
        q as i64
    } else {
        -(q as i64)
    }
}

/// The actor after input impulses, gravity, friction and position
/// integration — the movement pass of one tick.
pub open spec fn moved_cat(c: Cat, input: InputFrame, dt: int) -> Cat {
    let dir = if input.left_impulses > 0 {
        EntityDirection::Left
    } else if input.right_impulses > 0 {
        EntityDirection::Right
    } else {
        c.direction
    };
    let vx1 = c.vx + input.right_impulses * CAT_SPEED - input.left_impulses * CAT_SPEED;
    let vx2 = friction_of(vx1);
    let fallen = c.vy - scale_ms(GRAVITY as int, dt);
    let vy1 = if fallen < -FALL_SPEED_LIMIT {
        -FALL_SPEED_LIMIT as int
    } else {
        fallen
    };
    Cat {
        px: (c.px + scale_ms(vx2, dt)) as i64,
        py: (c.py + scale_ms(vy1, dt)) as i64,
        vx: vx2 as i64,
        vy: vy1 as i64,
        direction: dir,
        ..c
    }
}

/// Movement pass: horizontal input adds fixed impulses (one per source,
/// additive), gravity pulls the vertical speed down, friction damps the
/// horizontal speed, then the position integrates the velocity.
pub fn move_cat(cat: &mut Cat, input: &InputFrame, dt: u32)
    requires
        old(cat).wf(),
        old(cat).confined(),
        dt <= crate::geom::MAX_TICK_MS,
    ensures
        *final(cat) == moved_cat(*old(cat), *input, dt as int),
        final(cat).wf(),
{
    if input.right_impulses > 0 {
        cat.direction = EntityDirection::Right;
    }
    if input.left_impulses > 0 {
        cat.direction = EntityDirection::Left;
    }
    let vx1: i64 = cat.vx + (input.right_impulses as i64) * CAT_SPEED
        - (input.left_impulses as i64) * CAT_SPEED;
    let vx2: i64 = friction_step(vx1);
    let fallen: i64 = cat.vy - crate::geom::mul_ms(GRAVITY, dt);
    let vy1: i64 = if fallen < -FALL_SPEED_LIMIT {
        -FALL_SPEED_LIMIT
    } else {
        fallen
    };
    cat.vx = vx2;
    cat.vy = vy1;
    cat.px = cat.px + crate::geom::mul_ms(vx2, dt);
    cat.py = cat.py + crate::geom::mul_ms(vy1, dt);
}

/// The actor after the jump pass: an edge-triggered jump is honored only
/// while the actor may jump; it adds the fixed upward impulse, less the
/// weapon penalty if one is equipped, and clears the permission until the
/// next landing.
pub open spec fn jumped_cat(c: Cat, jump_pressed: bool) -> Cat {
    if jump_pressed && c.can_jump {
        let v1 = c.vy + CAT_JUMP_FORCE;
        let v2 = if c.has_gun {
            v1 - CAT_GUN_WEIGHT
        } else {
            v1
        };
        Cat { vy: v2 as i64, can_jump: false, ..c }
    } else {
        c
    }
}

/// Jump pass.
pub fn jump_cat(cat: &mut Cat, jump_pressed: bool)
    requires
        old(cat).wf(),
    ensures
        *final(cat) == jumped_cat(*old(cat), jump_pressed),
        final(cat).wf(),
{
    if jump_pressed && cat.can_jump {
        cat.vy = cat.vy + CAT_JUMP_FORCE;
        if cat.has_gun {
            cat.vy = cat.vy - CAT_GUN_WEIGHT;
        }
        cat.can_jump = false;
    }
}

/// Lower vertical screen bound for the actor's center.
pub open spec fn cat_y_min(view: Viewport) -> int {
    CAT_HALF_SIZE - view.height / 2
}

pub open spec fn cat_y_max(view: Viewport) -> int {
    view.height / 2 - CAT_HALF_SIZE
}

pub open spec fn cat_x_min(view: Viewport) -> int {
    CAT_HALF_SIZE - view.width / 2
}

pub open spec fn cat_x_max(view: Viewport) -> int {
    view.width / 2 - CAT_HALF_SIZE
}

/// The actor clamped to the screen: the bottom clamp lands the actor
/// (zeroing the fall and granting the jump), the top and side clamps only
/// move it.
pub open spec fn screen_clamped(c: Cat, view: Viewport) -> Cat {
    let c1 = if c.py < cat_y_min(view) {
        Cat { py: cat_y_min(view) as i64, vy: 0, can_jump: true, ..c }
    } else {
        c
    };
    let c2 = if c1.py > cat_y_max(view) {
        Cat { py: cat_y_max(view) as i64, ..c1 }
    } else {
        c1
    };
    let c3 = if c2.px < cat_x_min(view) {
        Cat { px: cat_x_min(view) as i64, ..c2 }
    } else {
        c2
    };
    if c3.px > cat_x_max(view) {
        Cat { px: cat_x_max(view) as i64, ..c3 }
    } else {
        c3
    }
}

/// The terrain broad phase: the actor's footprint overlaps the block's
/// footprint horizontally, and the actor's bottom point lies within one and
/// a half block heights of the block's top surface. A generous tolerance
/// policy, deliberately not an exact box intersection.
pub open spec fn ground_supports(px: int, py: int, g: Ground) -> bool {
    let cbx = px;
    let cby = py - CAT_HALF_SIZE;
    let gtx = g.x as int;
    let gty = g.y + GROUND_WIDTH / 2;
    &&& cbx + CAT_HALF_SIZE >= gtx - GROUND_WIDTH / 2
    &&& cbx - CAT_SIZE <= gtx + GROUND_WIDTH / 2
    &&& within_dist(cbx, cby, gtx, gty, MAX_COLLISION_DIST as int)
}

/// The surface an accepted block snaps the actor up to.
pub open spec fn support_surface(g: Ground) -> int {
    g.y + GROUND_WIDTH
}

/// The highest surface among the blocks that support the actor, if any.
/// Ties among overlapping blocks are resolved toward the highest surface,
/// which keeps snapping deterministic under stacked or adjacent blocks.
pub open spec fn best_surface(px: int, py: int, gs: Seq<Ground>) -> Option<int>
    decreases gs.len(),
{
    if gs.len() == 0 {
        None
    } else {
        let rest = best_surface(px, py, gs.drop_last());
        if ground_supports(px, py, gs.last()) {
            let s = support_surface(gs.last());
            match rest {
                Option::None => Option::Some(s),
                Option::Some(r) => Option::Some(if r >= s { r } else { s }),
            }
        } else {
            rest
        }
    }
}

/// Any supporting surface lies within the broad-phase tolerance of the
/// actor's vertical position.
pub proof fn lemma_best_surface_near(px: int, py: int, gs: Seq<Ground>)
    ensures
        best_surface(px, py, gs) matches Option::Some(s) ==> py - MAX_COLLISION_DIST
            <= s <= py + MAX_COLLISION_DIST,
    decreases gs.len(),
{
    if gs.len() > 0 {
        lemma_best_surface_near(px, py, gs.drop_last());
        let g = gs.last();
        if ground_supports(px, py, g) {
            crate::geom::lemma_dist_bounds_components(
                px,
                py - CAT_HALF_SIZE,
                g.x as int,
                g.y + GROUND_WIDTH / 2,
                MAX_COLLISION_DIST as int,
            );
        }
    }
}

/// The actor snapped onto the best supporting surface, if its center lies
/// below that surface: landing zeroes the fall and grants the jump.
pub open spec fn ground_snapped(c: Cat, gs: Seq<Ground>) -> Cat {
    match best_surface(c.px as int, c.py as int, gs) {
        Option::None => c,
        Option::Some(s) => if c.py < s {
            Cat { py: s as i64, vy: 0, can_jump: true, ..c }
        } else {
            c
        },
    }
}

/// The whole confinement pass: screen clamps, then terrain collision
/// against the clamped position.
pub open spec fn confined_cat(c: Cat, gs: Seq<Ground>, view: Viewport) -> Cat {
    ground_snapped(screen_clamped(c, view), gs)
}

/// Confinement pass over the screen and the terrain pool.
pub fn confine_cat(cat: &mut Cat, grounds: &Vec<Ground>, view: Viewport)
    requires
        old(cat).wf(),
        view.wf(),
        forall|i: int| 0 <= i < grounds@.len() ==> (#[trigger] grounds@[i]).wf(),
    ensures
        *final(cat) == confined_cat(*old(cat), grounds@, view),
        final(cat).wf(),
        final(cat).confined(),
{
    let y_min: i64 = CAT_HALF_SIZE - view.height / 2;
    let y_max: i64 = view.height / 2 - CAT_HALF_SIZE;
    let x_min: i64 = CAT_HALF_SIZE - view.width / 2;
    let x_max: i64 = view.width / 2 - CAT_HALF_SIZE;

    if cat.py < y_min {
        cat.py = y_min;
        cat.vy = 0;
        cat.can_jump = true;
    }
    if cat.py > y_max {
        cat.py = y_max;
    }
    if cat.px < x_min {
        cat.px = x_min;
    }
    if cat.px > x_max {
        cat.px = x_max;
    }
    proof {
        assert(*cat == screen_clamped(*old(cat), view));
    }

    let ghost gs = grounds@;
    let px = cat.px;
    let py = cat.py;
    let cby: i64 = py - CAT_HALF_SIZE;
    let n = grounds.len();
    let mut best: Option<i64> = None;
    let mut i: usize = 0;
    while i < n
        invariant
            n == gs.len(),
            grounds@ == gs,
            forall|j: int| 0 <= j < n ==> (#[trigger] gs[j]).wf(),
            i <= n,
            -CAT_CONFINED_LIMIT <= px <= CAT_CONFINED_LIMIT,
            -CAT_CONFINED_LIMIT <= py <= CAT_CONFINED_LIMIT,
            cby == py - CAT_HALF_SIZE,
            best_surface(px as int, py as int, gs.subrange(0, i as int)) == match best {
                Option::None => Option::<int>::None,
                Option::Some(s) => Option::<int>::Some(s as int),
            },
            best matches Option::Some(s) ==> -31_000_000 <= s <= 31_000_000,
        decreases n - i,
    {
        let g = grounds[i];
        proof {
            assert(gs[i as int].wf());
            assert(gs.subrange(0, i as int + 1).drop_last() =~= gs.subrange(0, i as int));
        }
        let gtx: i64 = g.x;
        let gty: i64 = g.y + GROUND_WIDTH / 2;
        let overlaps: bool = px + CAT_HALF_SIZE >= gtx - GROUND_WIDTH / 2 && px - CAT_SIZE
            <= gtx + GROUND_WIDTH / 2;
        if overlaps && crate::geom::is_within_dist(px, cby, gtx, gty, MAX_COLLISION_DIST) {
            let s: i64 = g.y + GROUND_WIDTH;
            best = match best {
                Option::None => Some(s),
                Option::Some(b) => Some(if b >= s { b } else { s }),
            };
        }
        i = i + 1;
    }
    proof {
        assert(gs.subrange(0, n as int) =~= gs);
        lemma_best_surface_near(px as int, py as int, gs);
    }
    if let Some(s) = best {
        if cat.py < s {
            cat.py = s;
            cat.vy = 0;
            cat.can_jump = true;
        }
    }
}

/// The actor with its weapon toggled on an edge-triggered request.
pub open spec fn gun_toggled(c: Cat, pressed: bool) -> Cat {
    if pressed {
        Cat { has_gun: !c.has_gun, ..c }
    } else {
        c
    }
}

/// Weapon toggle pass.
pub fn toggle_cat_gun(cat: &mut Cat, toggle_pressed: bool)
    ensures
        *final(cat) == gun_toggled(*old(cat), toggle_pressed),
{
    if toggle_pressed {
        cat.has_gun = !cat.has_gun;
    }
}

/// Toggling the weapon twice returns it to its original state: the toggle
/// is an involution.
pub proof fn lemma_gun_toggle_involution(c: Cat)
    ensures
        gun_toggled(gun_toggled(c, true), true) == c,
{
}

/// The facing-direction multiplier a fire event carries.
pub open spec fn direction_multiplier(d: EntityDirection) -> int {
    match d {
        EntityDirection::Right => 1,
        EntityDirection::Left => -1,
    }
}

/// The fire pass on actor and cooldown: without a weapon nothing happens
/// (the cooldown does not even advance); otherwise the cooldown advances,
/// an elapsed cooldown ends the firing pose, and a fire request with the
/// cooldown elapsed emits a fire event, restarts the cooldown and enters
/// the firing pose.
pub open spec fn fire_step(c: Cat, t: Timer, pressed: bool, dt: int) -> (Cat, Timer, Option<
    BulletFireEvent,
>) {
    if !c.has_gun {
        (c, t, Option::None)
    } else {
        let t1 = t.spec_tick(dt);
        let c1 = if t1.just_finished {
            Cat { is_firing: false, ..c }
        } else {
            c
        };
        if pressed && t1.spec_finished() {
            (
                Cat { is_firing: true, ..c1 },
                t1.spec_reset(),
                Option::Some(
                    BulletFireEvent { direction: direction_multiplier(c.direction) as i8 },
                ),
            )
        } else {
            (c1, t1, Option::None)
        }
    }
}

/// Fire pass.
pub fn fire_bullet_cat(cat: &mut Cat, fire_timer: &mut Timer, fire_pressed: bool, dt: u32) -> (ev:
    Option<BulletFireEvent>)
    requires
        old(cat).wf(),
        old(fire_timer).wf(),
        dt <= crate::geom::MAX_TICK_MS,
    ensures
        *final(cat) == fire_step(*old(cat), *old(fire_timer), fire_pressed, dt as int).0,
        *final(fire_timer) == fire_step(*old(cat), *old(fire_timer), fire_pressed, dt as int).1,
        ev == fire_step(*old(cat), *old(fire_timer), fire_pressed, dt as int).2,
        final(cat).wf(),
        final(fire_timer).wf(),
        ev matches Some(e) ==> e.direction == 1 || e.direction == -1,
{
    if !cat.has_gun {
        return None;
    }
    fire_timer.tick(dt);
    if fire_timer.just_finished {
        cat.is_firing = false;
    }
    if fire_pressed && fire_timer.finished() {
        let dir: i8 = match cat.direction {
            EntityDirection::Right => 1,
            EntityDirection::Left => -1,
        };
        fire_timer.reset();
        cat.is_firing = true;
        return Some(BulletFireEvent { direction: dir });
    }
    None
}

/// The build pass: an edge-triggered build request asks for a temporary
/// block beneath the actor's current position.
pub fn build_ground_cat(cat: &Cat, build_pressed: bool) -> (ev: Option<GroundBuildEvent>)
    ensures
        ev == if build_pressed {
            Option::Some(GroundBuildEvent { x: cat.px, y: cat.py })
        } else {
            Option::<GroundBuildEvent>::None
        },
{
    if build_pressed {
        Some(GroundBuildEvent { x: cat.px, y: cat.py })
    } else {
        None
    }
}

/// Which sprite frame presents the actor: the bare and armed standing
/// frames, their airborne successors, and the firing pose.
pub open spec fn cat_sprite_index(c: Cat) -> int {
    if c.is_firing && c.has_gun {
        4
    } else {
        (if c.can_jump {
            0int
        } else {
            1int
        }) + (if c.has_gun {
            2int
        } else {
            0int
        })
    }
}

/// Sprite frame selection for presentation; reads the actor only.
pub fn animate_cat(cat: &Cat) -> (idx: u8)
    ensures
        idx == cat_sprite_index(*cat),
{
    if cat.is_firing && cat.has_gun {
        4
    } else {
        let base: u8 = if cat.has_gun {
            2
        } else {
            0
        };
        if cat.can_jump {
            base
        } else {
            base + 1
        }
    }
}

} // verus!
