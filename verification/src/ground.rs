//! Terrain: a persistent baseline row of blocks tiling the visible width,
//! plus a capped pool of player-placed temporary blocks with oldest-first
//! eviction. After every placement the number of temporary blocks is brought
//! back to at most `MAX_TEMP_GROUND`.

use vstd::prelude::*;

use crate::geom::Viewport;
use crate::rng::rand_range_u64;

verus! {

/// Width of one terrain block, in milli-units.
pub const GROUND_WIDTH: i64 = 16_000;

/// Height of one terrain block, in milli-units.
pub const GROUND_HEIGHT: i64 = 8_000;

/// Cap on simultaneously existing temporary blocks.
pub const MAX_TEMP_GROUND: usize = 4;

/// Chance, in thousandths, that a baseline block carries a decorative plant.
pub const FLORA_SPAWN_PERMILLE: u64 = 120;

/// Terrain block coordinates stay within this bound.
pub const GROUND_COORD_LIMIT: i64 = 30_000_000;

/// One terrain block: a baseline tile or a player-placed temporary block,
/// optionally carrying a purely decorative plant.
#[derive(Clone, Copy, PartialEq, Eq, Structural, Debug)]
pub struct Ground {
    pub x: i64,
    pub y: i64,
    pub temporary: bool,
    pub flora: bool,
}

impl Ground {
    pub open spec fn wf(self) -> bool {
        &&& -GROUND_COORD_LIMIT <= self.x <= GROUND_COORD_LIMIT
        &&& -GROUND_COORD_LIMIT <= self.y <= GROUND_COORD_LIMIT
    }
}

/// A build action: the actor's position at the moment of the request.
#[derive(Clone, Copy, PartialEq, Eq, Structural, Debug)]
pub struct GroundBuildEvent {
    pub x: i64,
    pub y: i64,
}

/// How many blocks of a pool are temporary.
pub open spec fn temp_count(gs: Seq<Ground>) -> nat
    decreases gs.len(),
{
    if gs.len() == 0 {
        0
    } else {
        temp_count(gs.drop_first()) + if gs.first().temporary {
            1nat
        } else {
            0nat
        }
    }
}

/// Counting temporaries distributes over appending one block.
pub proof fn lemma_temp_count_push(gs: Seq<Ground>, g: Ground)
    ensures
        temp_count(gs.push(g)) == temp_count(gs) + if g.temporary {
            1nat
        } else {
            0nat
        },
    decreases gs.len(),
{
    if gs.len() == 0 {
        assert(gs.push(g).drop_first() =~= gs);
    } else {
        lemma_temp_count_push(gs.drop_first(), g);
        assert(gs.push(g).drop_first() =~= gs.drop_first().push(g));
    }
}

/// The pool with its first `n` temporary blocks removed (insertion order,
/// not spatial order); permanent blocks are untouched.
pub open spec fn drop_oldest_temps(gs: Seq<Ground>, n: nat) -> Seq<Ground>
    decreases gs.len(),
{
    if n == 0 || gs.len() == 0 {
        gs
    } else if gs.first().temporary {
        drop_oldest_temps(gs.drop_first(), (n - 1) as nat)
    } else {
        seq![gs.first()] + drop_oldest_temps(gs.drop_first(), n)
    }
}

/// What eviction leaves: if the cap is respected the pool is unchanged,
/// otherwise the oldest surviving temporaries go until exactly the cap
/// remain.
pub open spec fn evict_spec(gs: Seq<Ground>) -> Seq<Ground> {
    if temp_count(gs) <= MAX_TEMP_GROUND {
        gs
    } else {
        drop_oldest_temps(gs, (temp_count(gs) - MAX_TEMP_GROUND) as nat)
    }
}

/// Dropping `n` oldest temporaries lowers the temporary count by `n`
/// (to zero if fewer than `n` exist).
pub proof fn lemma_drop_oldest_temp_count(gs: Seq<Ground>, n: nat)
    ensures
        temp_count(drop_oldest_temps(gs, n)) == if n <= temp_count(gs) {
            (temp_count(gs) - n) as nat
        } else {
            0nat
        },
    decreases gs.len(),
{
    if n == 0 || gs.len() == 0 {
    } else if gs.first().temporary {
        lemma_drop_oldest_temp_count(gs.drop_first(), (n - 1) as nat);
    } else {
        lemma_drop_oldest_temp_count(gs.drop_first(), n);
        let rest = drop_oldest_temps(gs.drop_first(), n);
        assert((seq![gs.first()] + rest).drop_first() =~= rest);
    }
}

/// After eviction runs, at most the cap of temporary blocks remains; a pool
/// over the cap is brought back to exactly the cap.
pub proof fn lemma_eviction_bounds_temporaries(gs: Seq<Ground>)
    ensures
        temp_count(evict_spec(gs)) <= MAX_TEMP_GROUND,
        temp_count(gs) > MAX_TEMP_GROUND ==> temp_count(evict_spec(gs))
            == MAX_TEMP_GROUND,
{
    if temp_count(gs) > MAX_TEMP_GROUND {
        lemma_drop_oldest_temp_count(gs, (temp_count(gs) - MAX_TEMP_GROUND) as nat);
    }
}

/// Every block that survives dropping is one of the original pool.
pub proof fn lemma_drop_oldest_contains(gs: Seq<Ground>, n: nat)
    ensures
        forall|i: int|
            0 <= i < drop_oldest_temps(gs, n).len() ==> gs.contains(
                #[trigger] drop_oldest_temps(gs, n)[i],
            ),
    decreases gs.len(),
{
    let out = drop_oldest_temps(gs, n);
    if n == 0 || gs.len() == 0 {
        assert forall|i: int| 0 <= i < out.len() implies gs.contains(#[trigger] out[i]) by {
            assert(gs[i] == out[i]);
        }
    } else if gs.first().temporary {
        lemma_drop_oldest_contains(gs.drop_first(), (n - 1) as nat);
        let rest = drop_oldest_temps(gs.drop_first(), (n - 1) as nat);
        assert forall|i: int| 0 <= i < out.len() implies gs.contains(#[trigger] out[i]) by {
            assert(rest[i] == out[i]);
            assert(gs.drop_first().contains(rest[i]));
            let j = choose|j: int|
                0 <= j < gs.drop_first().len() && gs.drop_first()[j] == rest[i];
            assert(gs.drop_first()[j] == gs[j + 1]);
            assert(gs[j + 1] == out[i]);
        }
    } else {
        lemma_drop_oldest_contains(gs.drop_first(), n);
        let rest = drop_oldest_temps(gs.drop_first(), n);
        assert forall|i: int| 0 <= i < out.len() implies gs.contains(#[trigger] out[i]) by {
            if i == 0 {
                assert(out[0] == gs[0]);
            } else {
                assert(out[i] == rest[i - 1]);
                assert(gs.drop_first().contains(rest[i - 1]));
                let j = choose|j: int|
                    0 <= j < gs.drop_first().len() && gs.drop_first()[j] == rest[i - 1];
                assert(gs.drop_first()[j] == gs[j + 1]);
                assert(gs[j + 1] == out[i]);
            }
        }
    }
}

/// Eviction keeps only blocks of the original pool, so their validity
/// carries over.
pub proof fn lemma_evict_preserves_wf(gs: Seq<Ground>)
    requires
        forall|i: int| 0 <= i < gs.len() ==> (#[trigger] gs[i]).wf(),
    ensures
        forall|i: int| 0 <= i < evict_spec(gs).len() ==> (#[trigger] evict_spec(gs)[i]).wf(),
{
    if temp_count(gs) > MAX_TEMP_GROUND {
        let n = (temp_count(gs) - MAX_TEMP_GROUND) as nat;
        lemma_drop_oldest_contains(gs, n);
        assert forall|i: int| 0 <= i < evict_spec(gs).len() implies (#[trigger] evict_spec(
            gs,
        )[i]).wf() by {
            assert(gs.contains(drop_oldest_temps(gs, n)[i]));
            let j = choose|j: int| 0 <= j < gs.len() && gs[j] == drop_oldest_temps(gs, n)[i];
            assert(gs[j].wf());
        }
    }
}

/// Counting temporaries distributes over concatenation.
pub proof fn lemma_temp_count_add(a: Seq<Ground>, b: Seq<Ground>)
    ensures
        temp_count(a + b) == temp_count(a) + temp_count(b),
    decreases a.len(),
{
    if a.len() == 0 {
        assert(a + b =~= b);
    } else {
        lemma_temp_count_add(a.drop_first(), b);
        assert((a + b).drop_first() =~= a.drop_first() + b);
    }
}

/// The blocks of a pool that are temporary.
pub open spec fn temp_only(gs: Seq<Ground>) -> Seq<Ground> {
    gs.filter(|g: Ground| g.temporary)
}

/// The temporary count is the length of the temporary sub-pool.
pub proof fn lemma_temp_count_is_filter_len(gs: Seq<Ground>)
    ensures
        temp_count(gs) == temp_only(gs).len(),
    decreases gs.len(),
{
    reveal(Seq::filter);
    if gs.len() > 0 {
        lemma_temp_count_is_filter_len(gs.drop_last());
        lemma_temp_count_push(gs.drop_last(), gs.last());
        assert(gs.drop_last().push(gs.last()) =~= gs);
    }
}

/// Keeping only the temporary blocks keeps the temporary count.
pub proof fn lemma_temp_count_temp_only(gs: Seq<Ground>)
    ensures
        temp_count(temp_only(gs)) == temp_count(gs),
    decreases gs.len(),
{
    reveal(Seq::filter);
    if gs.len() > 0 {
        lemma_temp_count_temp_only(gs.drop_last());
        lemma_temp_count_push(gs.drop_last(), gs.last());
        assert(gs.drop_last().push(gs.last()) =~= gs);
        if gs.last().temporary {
            lemma_temp_count_push(temp_only(gs.drop_last()), gs.last());
        }
    }
}

/// Number of baseline blocks that tile the visible width.
pub open spec fn baseline_count(view: Viewport) -> int {
    view.width / GROUND_WIDTH
}

/// Horizontal center of the `i`-th baseline block: the row starts at the
/// left screen edge, shifted by half the spare width so the row sits evenly.
pub open spec fn baseline_x(view: Viewport, i: int) -> int {
    -view.width / 2 + GROUND_WIDTH / 2 + (view.width % GROUND_WIDTH) / 2
        + i * GROUND_WIDTH
}

/// Vertical center of every baseline block: the bottom screen edge.
pub open spec fn baseline_y(view: Viewport) -> int {
    -view.height / 2
}

/// Generates the baseline terrain row for a viewport. Which blocks carry a
/// decorative plant is drawn at random; everything else is exact.
pub fn spawn_ground(view: Viewport) -> (r: Vec<Ground>)
    requires
        view.wf(),
    ensures
        r@.len() == baseline_count(view),
        forall|i: int|
            0 <= i < r@.len() ==> {
                &&& (#[trigger] r@[i]).x == baseline_x(view, i)
                &&& r@[i].y == baseline_y(view)
                &&& !r@[i].temporary
                &&& r@[i].wf()
            },
        temp_count(r@) == 0,
{
    let count: usize = (view.width / GROUND_WIDTH) as usize;
    let initial_x: i64 = -(view.width / 2) + GROUND_WIDTH / 2
        + (view.width % GROUND_WIDTH) / 2;
    let y: i64 = -(view.height / 2);
    let mut r: Vec<Ground> = Vec::new();
    let mut i: usize = 0;
    while i < count
        invariant
            view.wf(),
            count == baseline_count(view),
            count <= 2000,
            initial_x == -view.width / 2 + GROUND_WIDTH / 2
                + (view.width % GROUND_WIDTH) / 2,
            -16_000_000 <= initial_x <= 16_000_000,
            y == baseline_y(view),
            -13_000_000 <= y <= 0,
            i <= count,
            r@.len() == i,
            forall|j: int|
                0 <= j < i ==> {
                    &&& (#[trigger] r@[j]).x == baseline_x(view, j)
                    &&& r@[j].y == baseline_y(view)
                    &&& !r@[j].temporary
                    &&& r@[j].wf()
                },
            temp_count(r@) == 0,
        decreases count - i,
    {
        let roll: u64 = rand_range_u64(0, 1000);
        let g = Ground {
            x: initial_x + (i as i64) * GROUND_WIDTH,
            y,
            temporary: false,
            flora: roll < FLORA_SPAWN_PERMILLE,
        };
        proof {
            lemma_temp_count_push(r@, g);
        }
        r.push(g);
        i = i + 1;
    }
    r
}

/// The temporary block a build action at `ev` creates.
pub open spec fn built_block_spec(ev: GroundBuildEvent) -> Ground {
    Ground {
        x: ev.x,
        y: (ev.y - crate::cat::CAT_HALF_SIZE - GROUND_WIDTH / 2) as i64,
        temporary: true,
        flora: false,
    }
}

/// The temporary block a build action creates: directly beneath the actor's
/// footprint, offset by half the actor size plus half a block height.
pub fn spawn_beneath_cat(ev: &GroundBuildEvent) -> (g: Ground)
    requires
        -29_000_000 <= ev.x <= 29_000_000,
        -29_000_000 <= ev.y <= 29_000_000,
    ensures
        g == built_block_spec(*ev),
        g.temporary,
        g.wf(),
{
    Ground {
        x: ev.x,
        y: ev.y - crate::cat::CAT_HALF_SIZE - GROUND_WIDTH / 2,
        temporary: true,
        flora: false,
    }
}

/// Evicts the oldest surviving temporary blocks until at most the cap
/// remain. Permanent baseline blocks are never evicted.
pub fn despawn_temp_ground(grounds: &mut Vec<Ground>)
    ensures
        final(grounds)@ == evict_spec(old(grounds)@),
        temp_count(final(grounds)@) <= MAX_TEMP_GROUND,
{
    proof {
        lemma_eviction_bounds_temporaries(old(grounds)@);
    }
    let ghost gs = grounds@;
    let n = grounds.len();

    let mut cnt: usize = 0;
    let mut i: usize = 0;
    while i < n
        invariant
            n == gs.len(),
            grounds@ == gs,
            i <= n,
            cnt == temp_count(gs.subrange(0, i as int)),
            cnt <= i,
        decreases n - i,
    {
        proof {
            assert(gs.subrange(0, i as int + 1).drop_last() =~= gs.subrange(0, i as int));
            lemma_temp_count_push(gs.subrange(0, i as int), gs[i as int]);
            assert(gs.subrange(0, i as int).push(gs[i as int])
                =~= gs.subrange(0, i as int + 1));
        }
        if grounds[i].temporary {
            cnt = cnt + 1;
        }
        i = i + 1;
    }
    proof {
        assert(gs.subrange(0, n as int) =~= gs);
    }

    if cnt <= MAX_TEMP_GROUND {
        return;
    }
    let to_drop: usize = cnt - MAX_TEMP_GROUND;

    let mut out: Vec<Ground> = Vec::new();
    let mut dropped: usize = 0;
    let mut i: usize = 0;
    while i < n
        invariant
            n == gs.len(),
            grounds@ == gs,
            i <= n,
            dropped <= to_drop,
            out@ + drop_oldest_temps(
                gs.subrange(i as int, n as int),
                (to_drop - dropped) as nat,
            ) == drop_oldest_temps(gs, to_drop as nat),
        decreases n - i,
    {
        let ghost rest = gs.subrange(i as int, n as int);
        proof {
            assert(rest.drop_first() =~= gs.subrange(i as int + 1, n as int));
        }
        if grounds[i].temporary && dropped < to_drop {
            dropped = dropped + 1;
        } else {
            let g = grounds[i];
            proof {
                let tail = drop_oldest_temps(
                    rest.drop_first(),
                    (to_drop - dropped) as nat,
                );
                if g.temporary {
                    assert(drop_oldest_temps(rest, (to_drop - dropped) as nat)
                        =~= rest);
                    assert(out@ + rest =~= out@.push(g) + rest.drop_first());
                    assert(drop_oldest_temps(rest.drop_first(), 0nat)
                        =~= rest.drop_first());
                } else {
                    assert(drop_oldest_temps(rest, (to_drop - dropped) as nat)
                        =~= seq![g] + tail);
                    assert(out@ + (seq![g] + tail) =~= out@.push(g) + tail);
                }
            }
            out.push(g);
        }
        i = i + 1;
    }
    proof {
        assert(gs.subrange(n as int, n as int) =~= Seq::<Ground>::empty());
        assert(out@ + Seq::<Ground>::empty() =~= out@);
    }
    *grounds = out;
}

} // verus!
