//! The player: a fixed-point world position and a facing angle, mutated
//! only by rotation and by forward or backward translation. A translation
//! is validated against the grid's occupancy test before it is applied:
//! a blocked move is a strict no-op on both coordinates at once, so the
//! position can never come to rest inside a wall it did not start in.
//!
//! The candidate position is tested only at the step's end, not along the
//! path; with the fractional-cell step sizes of the input loop that is
//! sound, but a single very long step could cross a thin wall. That is a
//! known, accepted limitation of the scheme, not a fault to mask.

use crate::map::GridMap;
use crate::trig::{
    norm_angle, normalize_angle, spec_cos, spec_sin, cos_fixed, sin_fixed, FP_ONE,
    TWO_PI_FP,
};
use vstd::arithmetic::div_mod::{lemma_add_mod_noop_right, lemma_mod_twice};
use vstd::prelude::*;

verus! {

/// Bound on the magnitude of a player coordinate: exactly the fixed-point
/// span of the largest admissible map (`MAX_CELLS * FP_ONE`), so any open
/// position fits and no translation or squared distance can overflow.
pub const MAX_POS: i64 = 1_000_000_000;

/// Bound on the magnitude of one translation, in fixed-point world units.
pub const MAX_MOVE: i64 = 0x8000_0000;

/// One fixed-point product scaled back down to fixed point: `v / FP_ONE`
/// rounded toward zero, exactly as the machine division rounds.
pub open spec fn fp_scale(v: int) -> int {
    if v >= 0 {
        v / (FP_ONE as int)
    } else {
        -((-v) / (FP_ONE as int))
    }
}

/// Where a forward move of `distance` from `p` would land.
pub open spec fn forward_target(p: Player, distance: int) -> (int, int) {
    (p.x + fp_scale(spec_cos(p.angle as int) * distance), p.y + fp_scale(
        spec_sin(p.angle as int) * distance,
    ))
}

/// Where a backward move of `distance` from `p` would land.
pub open spec fn backward_target(p: Player, distance: int) -> (int, int) {
    (p.x - fp_scale(spec_cos(p.angle as int) * distance), p.y - fp_scale(
        spec_sin(p.angle as int) * distance,
    ))
}

/// The player's state: fixed-point position and milliradian facing angle,
/// kept reduced to one turn.
pub struct Player {
    pub x: i64,
    pub y: i64,
    pub angle: i64,
}

impl Player {
    /// Coordinates within the fixed bound and the angle reduced.
    pub open spec fn wf(self) -> bool {
        &&& -MAX_POS <= self.x <= MAX_POS
        &&& -MAX_POS <= self.y <= MAX_POS
        &&& 0 <= self.angle < TWO_PI_FP
    }

    /// A player at the given fixed-point position, facing `angle`
    /// milliradians (any value; it is reduced to one turn).
    pub fn new(x: i64, y: i64, angle: i64) -> (p: Player)
        requires
            -MAX_POS <= x <= MAX_POS,
            -MAX_POS <= y <= MAX_POS,
        ensures
            p.x == x,
            p.y == y,
            p.angle == norm_angle(angle as int),
            p.wf(),
    {
        Player { x, y, angle: normalize_angle(angle) }
    }

    /// The occupancy of a candidate position, by the grid's own test.
    fn collides(&self, x: i64, y: i64, map: &GridMap) -> (r: bool)
        requires
            map.wf(),
        ensures
            r == map.spec_is_wall(x as int, y as int),
    {
        map.is_wall(x, y)
    }

    /// Moves along the facing angle by `distance`, unless the landing
    /// position is occupied; a blocked move changes nothing. A position
    /// outside every wall stays outside every wall.
    pub fn move_forward(&mut self, distance: i64, map: &GridMap)
        requires
            map.wf(),
            old(self).wf(),
            -MAX_MOVE <= distance <= MAX_MOVE,
        ensures
            final(self).angle == old(self).angle,
            ({
                let (tx, ty) = forward_target(*old(self), distance as int);
                if map.spec_is_wall(tx, ty) {
                    *final(self) == *old(self)
                } else {
                    final(self).x == tx && final(self).y == ty
                }
            }),
            !map.spec_is_wall(old(self).x as int, old(self).y as int) ==> !map.spec_is_wall(
                final(self).x as int,
                final(self).y as int,
            ),
            final(self).wf(),
            *final(self) == spec_move(*old(self), *map, true, distance as int),
    {
        let (new_x, new_y) = self.step_target(distance);
        if !self.collides(new_x, new_y, map) {
            proof {
                map.lemma_open_position_in_bounds(new_x as int, new_y as int);
            }
            self.x = new_x;
            self.y = new_y;
        }
    }

    /// Moves against the facing angle by `distance`, with the same
    /// validation and no-op behaviour as `move_forward`.
    pub fn move_backward(&mut self, distance: i64, map: &GridMap)
        requires
            map.wf(),
            old(self).wf(),
            -MAX_MOVE <= distance <= MAX_MOVE,
        ensures
            final(self).angle == old(self).angle,
            ({
                let (tx, ty) = backward_target(*old(self), distance as int);
                if map.spec_is_wall(tx, ty) {
                    *final(self) == *old(self)
                } else {
                    final(self).x == tx && final(self).y == ty
                }
            }),
            !map.spec_is_wall(old(self).x as int, old(self).y as int) ==> !map.spec_is_wall(
                final(self).x as int,
                final(self).y as int,
            ),
            final(self).wf(),
            *final(self) == spec_move(*old(self), *map, false, distance as int),
    {
        let (new_x, new_y) = self.step_target(-distance);
        proof {
            lemma_scale_negate(spec_cos(self.angle as int), distance as int);
            lemma_scale_negate(spec_sin(self.angle as int), distance as int);
        }
        if !self.collides(new_x, new_y, map) {
            proof {
                map.lemma_open_position_in_bounds(new_x as int, new_y as int);
            }
            self.x = new_x;
            self.y = new_y;
        }
    }

    /// The landing position of a forward move by `distance` (negative for
    /// a backward move), without committing it.
    fn step_target(&self, distance: i64) -> (t: (i64, i64))
        requires
            self.wf(),
            -MAX_MOVE <= distance <= MAX_MOVE,
        ensures
            (t.0 as int, t.1 as int) == forward_target(*self, distance as int),
            -MAX_POS - MAX_MOVE <= t.0 as int <= MAX_POS + MAX_MOVE,
            -MAX_POS - MAX_MOVE <= t.1 as int <= MAX_POS + MAX_MOVE,
    {
        let c: i64 = cos_fixed(self.angle);
        let s: i64 = sin_fixed(self.angle);
        proof {
            lemma_product_bound(c as int, distance as int);
            lemma_product_bound(s as int, distance as int);
            lemma_scale_bound(c as int * distance as int);
            lemma_scale_bound(s as int * distance as int);
        }
        let dx: i64 = (c * distance) / FP_ONE;
        let dy: i64 = (s * distance) / FP_ONE;
        (self.x + dx, self.y + dy)
    }

    /// Turns by `delta` milliradians, unconditionally; the stored angle is
    /// the sum reduced to one turn, and the position does not move.
    pub fn rotate(&mut self, delta: i64)
        requires
            old(self).wf(),
        ensures
            final(self).x == old(self).x,
            final(self).y == old(self).y,
            final(self).angle == norm_angle(old(self).angle + delta),
            final(self).wf(),
    {
        let reduced: i64 = delta % TWO_PI_FP;
        let a: i64 = normalize_angle(self.angle + reduced);
        proof {
            let m = TWO_PI_FP as int;
            crate::trig::lemma_trunc_rem_congruent(delta as int, m);
            lemma_mod_twice(delta as int, m);
            lemma_add_mod_noop_right(self.angle as int, reduced as int, m);
            lemma_add_mod_noop_right(self.angle as int, delta as int, m);
        }
        self.angle = a;
    }
}

/// One validated move as a value: where the player ends up after a forward
/// (or, with `forward == false`, backward) move of `distance`, with the
/// same blocked-move no-op rule as the executable moves.
pub open spec fn spec_move(p: Player, m: GridMap, forward: bool, distance: int) -> Player {
    let t = if forward {
        forward_target(p, distance)
    } else {
        backward_target(p, distance)
    };
    if m.spec_is_wall(t.0, t.1) {
        p
    } else {
        Player { x: t.0 as i64, y: t.1 as i64, angle: p.angle }
    }
}

/// The player state after a whole sequence of forward/backward moves, each
/// a direction flag and a fixed-point distance, applied in order.
pub open spec fn apply_moves(p: Player, m: GridMap, moves: Seq<(bool, int)>) -> Player
    decreases moves.len(),
{
    if moves.len() == 0 {
        p
    } else {
        apply_moves(spec_move(p, m, moves[0].0, moves[0].1), m, moves.subrange(
            1,
            moves.len() as int,
        ))
    }
}

/// One validated move keeps the player out of every wall and keeps the
/// state well-formed.
proof fn lemma_move_preserves(p: Player, m: GridMap, forward: bool, distance: int)
    requires
        p.wf(),
        m.wf(),
        -MAX_MOVE <= distance <= MAX_MOVE,
        !m.spec_is_wall(p.x as int, p.y as int),
    ensures
        spec_move(p, m, forward, distance).wf(),
        spec_move(p, m, forward, distance).angle == p.angle,
        !m.spec_is_wall(
            spec_move(p, m, forward, distance).x as int,
            spec_move(p, m, forward, distance).y as int,
        ),
{
    let t = if forward {
        forward_target(p, distance)
    } else {
        backward_target(p, distance)
    };
    if !m.spec_is_wall(t.0, t.1) {
        m.lemma_open_position_in_bounds(t.0, t.1);
    }
}

/// The movement invariant: however many validated forward and backward
/// moves are applied, in any order, a player who starts outside every wall
/// never comes to stand in one.
pub proof fn lemma_movement_invariant(p: Player, m: GridMap, moves: Seq<(bool, int)>)
    requires
        p.wf(),
        m.wf(),
        !m.spec_is_wall(p.x as int, p.y as int),
        forall|j: int| 0 <= j < moves.len() ==> -MAX_MOVE <= (#[trigger] moves[j]).1 <= MAX_MOVE,
    ensures
        apply_moves(p, m, moves).wf(),
        !m.spec_is_wall(apply_moves(p, m, moves).x as int, apply_moves(p, m, moves).y as int),
    decreases moves.len(),
{
    if moves.len() > 0 {
        lemma_move_preserves(p, m, moves[0].0, moves[0].1);
        lemma_movement_invariant(
            spec_move(p, m, moves[0].0, moves[0].1),
            m,
            moves.subrange(1, moves.len() as int),
        );
    }
}

/// A fixed-point cosine or sine times a bounded distance stays within the
/// product of the bounds.
proof fn lemma_product_bound(c: int, d: int)
    requires
        -FP_ONE <= c <= FP_ONE,
        -MAX_MOVE <= d <= MAX_MOVE,
    ensures
        -FP_ONE * MAX_MOVE <= c * d <= FP_ONE * MAX_MOVE,
{
    assert(-FP_ONE * MAX_MOVE <= c * d <= FP_ONE * MAX_MOVE) by (nonlinear_arith)
        requires
            -FP_ONE <= c <= FP_ONE,
            -MAX_MOVE <= d <= MAX_MOVE,
    ;
}

/// Scaling a bounded product back down keeps it within `MAX_MOVE`.
proof fn lemma_scale_bound(v: int)
    requires
        -FP_ONE * MAX_MOVE <= v <= FP_ONE * MAX_MOVE,
    ensures
        -MAX_MOVE <= fp_scale(v) <= MAX_MOVE,
{
    assert(-MAX_MOVE <= fp_scale(v) <= MAX_MOVE) by (nonlinear_arith)
        requires
            -FP_ONE * MAX_MOVE <= v <= FP_ONE * MAX_MOVE,
    ;
}

/// Rounding toward zero commutes with negation: the backward step is the
/// exact mirror of the forward one.
proof fn lemma_scale_negate(c: int, d: int)
    ensures
        fp_scale(c * -d) == -fp_scale(c * d),
{
    assert(c * -d == -(c * d)) by (nonlinear_arith);
}

} // verus!
