//! The ray caster: fixed-step marching from the player's position along a
//! given angle. Each step advances the ray by `STEP_FP` fixed-point units
//! and accumulates that much distance, until the ray's position is occupied
//! (out of the matrix counts as occupied, so a ray cannot escape) or the
//! accumulated distance reaches `MAX_RANGE_FP`. The reported distance is
//! therefore quantized to whole steps — an accepted trade-off of the
//! fixed-step scheme over exact grid traversal.
//!
//! A ray that starts inside a wall advances once before the first test, so
//! it reports one step of distance; the choice is fixed here and kept
//! consistent so near-wall columns render stably.

use crate::map::GridMap;
use crate::player::{fp_scale, Player, MAX_POS};
use crate::trig::{spec_cos, spec_sin, cos_fixed, sin_fixed, FP_ONE};
use vstd::prelude::*;

verus! {

/// Length of one marching step, in fixed-point world units (a tenth of a
/// cell).
pub const STEP_FP: i64 = 100;

/// The maximum cast range, in fixed-point world units (twenty cells).
pub const MAX_RANGE_FP: i64 = 20000;

/// How many whole steps fit in the maximum range.
pub const MAX_STEPS: i64 = 200;

/// The result of one cast: the distance marched, and which axis the ray
/// crossed last. This caster does not track the crossing axis and
/// always reports `false` — a purely cosmetic simplification that only
/// flattens shading between perpendicular wall faces.
pub struct RayHit {
    pub distance: i64,
    pub is_vertical: bool,
}

/// The fixed-point advance of one step along angle `a`, per axis.
pub open spec fn step_dx(a: int) -> int {
    fp_scale(spec_cos(a) * STEP_FP)
}

/// The fixed-point advance of one step along angle `a`, per axis.
pub open spec fn step_dy(a: int) -> int {
    fp_scale(spec_sin(a) * STEP_FP)
}

/// Whether the ray from `(ox, oy)` with per-step advance `(dx, dy)` stands
/// on an occupied position after `k` steps.
pub open spec fn ray_blocked_at(m: GridMap, ox: int, oy: int, dx: int, dy: int, k: int) -> bool {
    m.spec_is_wall(ox + k * dx, oy + k * dy)
}

/// The first step index in `[k, MAX_STEPS]` at which the ray stands on an
/// occupied position, or `MAX_STEPS` if it reaches none before the range
/// runs out.
pub open spec fn first_blocked_step(
    m: GridMap,
    ox: int,
    oy: int,
    dx: int,
    dy: int,
    k: int,
) -> int
    decreases MAX_STEPS - k,
{
    if k >= MAX_STEPS {
        MAX_STEPS as int
    } else if ray_blocked_at(m, ox, oy, dx, dy, k) {
        k
    } else {
        first_blocked_step(m, ox, oy, dx, dy, k + 1)
    }
}

/// The distance the marcher has accumulated after `k` whole steps.
pub open spec fn marched_distance(k: int) -> int {
    k * STEP_FP
}

/// The march's distance is monotonically non-decreasing in the number of
/// steps taken, never negative, and never exceeds the maximum range while
/// the step budget lasts.
pub proof fn lemma_march_monotonic(k1: int, k2: int)
    requires
        0 <= k1 <= k2,
    ensures
        0 <= marched_distance(k1) <= marched_distance(k2),
        k2 <= MAX_STEPS ==> marched_distance(k2) <= MAX_RANGE_FP,
{
    assert(0 <= k1 * STEP_FP <= k2 * STEP_FP) by (nonlinear_arith)
        requires
            0 <= k1 <= k2,
    ;
    if k2 <= MAX_STEPS {
        assert(k2 * STEP_FP <= MAX_RANGE_FP) by (nonlinear_arith)
            requires
                k2 <= MAX_STEPS,
        ;
    }
}

/// The step count `cast_ray` marches from `p` along `a` against `m`:
/// the first blocked step, counted from one.
pub open spec fn spec_cast_steps(p: Player, m: GridMap, a: int) -> int {
    first_blocked_step(m, p.x as int, p.y as int, step_dx(a), step_dy(a), 1)
}

/// The distance `cast_ray` reports: the step count times the step length.
pub open spec fn spec_cast_distance(p: Player, m: GridMap, a: int) -> int {
    spec_cast_steps(p, m, a) * STEP_FP
}

/// `first_blocked_step` is bracketed by its starting index and `MAX_STEPS`,
/// no earlier index it passed is blocked, and when it stops short of
/// `MAX_STEPS` the index it returns is blocked.
pub proof fn lemma_first_blocked_step_props(
    m: GridMap,
    ox: int,
    oy: int,
    dx: int,
    dy: int,
    k: int,
)
    requires
        1 <= k <= MAX_STEPS,
    ensures
        k <= first_blocked_step(m, ox, oy, dx, dy, k) <= MAX_STEPS,
        forall|j: int|
            k <= j < first_blocked_step(m, ox, oy, dx, dy, k) ==> !ray_blocked_at(
                m,
                ox,
                oy,
                dx,
                dy,
                j,
            ),
        first_blocked_step(m, ox, oy, dx, dy, k) < MAX_STEPS ==> ray_blocked_at(
            m,
            ox,
            oy,
            dx,
            dy,
            first_blocked_step(m, ox, oy, dx, dy, k),
        ),
    decreases MAX_STEPS - k,
{
    if k < MAX_STEPS && !ray_blocked_at(m, ox, oy, dx, dy, k) {
        lemma_first_blocked_step_props(m, ox, oy, dx, dy, k + 1);
    }
}

/// A blocked step that every earlier index passed open is the first
/// blocked step.
proof fn lemma_first_blocked_step_finds(
    m: GridMap,
    ox: int,
    oy: int,
    dx: int,
    dy: int,
    i: int,
    k: int,
)
    requires
        1 <= i <= k <= MAX_STEPS,
        ray_blocked_at(m, ox, oy, dx, dy, k),
        forall|j: int| i <= j < k ==> !ray_blocked_at(m, ox, oy, dx, dy, j),
    ensures
        first_blocked_step(m, ox, oy, dx, dy, i) == k,
    decreases k - i,
{
    if i < k {
        lemma_first_blocked_step_finds(m, ox, oy, dx, dy, i + 1, k);
    }
}

/// A ray that stands open at every step before the range runs out reports
/// the full step count.
proof fn lemma_first_blocked_step_none(m: GridMap, ox: int, oy: int, dx: int, dy: int, i: int)
    requires
        1 <= i <= MAX_STEPS,
        forall|j: int| i <= j < MAX_STEPS ==> !ray_blocked_at(m, ox, oy, dx, dy, j),
    ensures
        first_blocked_step(m, ox, oy, dx, dy, i) == MAX_STEPS,
    decreases MAX_STEPS - i,
{
    if i < MAX_STEPS {
        lemma_first_blocked_step_none(m, ox, oy, dx, dy, i + 1);
    }
}

/// Casts a ray from the player's position along `angle`, marching in fixed
/// steps until an occupied position or the maximum range. The reported
/// distance is the exact step count times the step length: every earlier
/// step stood on open ground, and a distance short of the maximum means the
/// final step stands on an occupied cell.
pub fn cast_ray(player: &Player, map: &GridMap, angle: i64) -> (r: RayHit)
    requires
        map.wf(),
        player.wf(),
    ensures
        r.distance == spec_cast_distance(*player, *map, angle as int),
        STEP_FP <= r.distance <= MAX_RANGE_FP,
        !r.is_vertical,
{
    let c: i64 = cos_fixed(angle);
    let s: i64 = sin_fixed(angle);
    proof {
        lemma_step_bound(c as int);
        lemma_step_bound(s as int);
    }
    let dx: i64 = (c * STEP_FP) / FP_ONE;
    let dy: i64 = (s * STEP_FP) / FP_ONE;
    let mut rx: i64 = player.x;
    let mut ry: i64 = player.y;
    let mut k: i64 = 0;
    let mut distance: i64 = 0;
    while distance < MAX_RANGE_FP
        invariant
            map.wf(),
            -MAX_POS <= player.x <= MAX_POS,
            -MAX_POS <= player.y <= MAX_POS,
            dx == step_dx(angle as int),
            dy == step_dy(angle as int),
            -STEP_FP <= dx <= STEP_FP,
            -STEP_FP <= dy <= STEP_FP,
            0 <= k <= MAX_STEPS,
            distance == k * STEP_FP,
            rx == player.x + k * dx,
            ry == player.y + k * dy,
            player.x - MAX_RANGE_FP <= rx <= player.x + MAX_RANGE_FP,
            player.y - MAX_RANGE_FP <= ry <= player.y + MAX_RANGE_FP,
            forall|j: int|
                1 <= j <= k ==> !ray_blocked_at(
                    *map,
                    player.x as int,
                    player.y as int,
                    dx as int,
                    dy as int,
                    j,
                ),
        decreases MAX_RANGE_FP - distance,
    {
        proof {
            assert((k + 1) * dx == k * dx + dx) by (nonlinear_arith);
            assert((k + 1) * dy == k * dy + dy) by (nonlinear_arith);
            assert((k + 1) * STEP_FP == k * STEP_FP + STEP_FP) by (nonlinear_arith);
            assert(-MAX_RANGE_FP <= (k + 1) * dx <= MAX_RANGE_FP) by (nonlinear_arith)
                requires
                    0 <= k + 1 <= MAX_STEPS,
                    -STEP_FP <= dx <= STEP_FP,
            ;
            assert(-MAX_RANGE_FP <= (k + 1) * dy <= MAX_RANGE_FP) by (nonlinear_arith)
                requires
                    0 <= k + 1 <= MAX_STEPS,
                    -STEP_FP <= dy <= STEP_FP,
            ;
        }
        rx = rx + dx;
        ry = ry + dy;
        k = k + 1;
        distance = distance + STEP_FP;
        if map.is_wall(rx, ry) {
            proof {
                lemma_first_blocked_step_finds(
                    *map,
                    player.x as int,
                    player.y as int,
                    dx as int,
                    dy as int,
                    1,
                    k as int,
                );
            }
            return RayHit { distance, is_vertical: false };
        }
    }
    proof {
        lemma_first_blocked_step_none(
            *map,
            player.x as int,
            player.y as int,
            dx as int,
            dy as int,
            1,
        );
    }
    RayHit { distance: MAX_RANGE_FP, is_vertical: false }
}

/// One marching step never advances an axis by more than the step length.
proof fn lemma_step_bound(c: int)
    requires
        -FP_ONE <= c <= FP_ONE,
    ensures
        -STEP_FP <= fp_scale(c * STEP_FP) <= STEP_FP,
{
    assert(-STEP_FP * FP_ONE <= c * STEP_FP <= STEP_FP * FP_ONE) by (nonlinear_arith)
        requires
            -FP_ONE <= c <= FP_ONE,
    ;
    assert(-STEP_FP <= fp_scale(c * STEP_FP) <= STEP_FP) by (nonlinear_arith)
        requires
            -STEP_FP * FP_ONE <= c * STEP_FP <= STEP_FP * FP_ONE,
    ;
}

} // verus!
