//! The projector: for each screen column it derives the column's ray angle
//! from the facing angle and the field of view, casts a ray, corrects the
//! raw distance for fisheye distortion, and turns the corrected distance
//! into a vertical wall strip — a start row, a height, and a repeating
//! horizontal texture coordinate. It computes geometry only; blitting the
//! strips, the sky, the floor and every other drawable is the business of
//! the host around the engine.

use crate::map::{ConfigError, GridMap};
use crate::player::{fp_scale, Player, MAX_POS};
use crate::raycaster::{cast_ray, spec_cast_distance, RayHit, MAX_RANGE_FP};
use crate::trig::{spec_cos, cos_fixed, lemma_cos_zero, FP_ONE, TWO_PI_FP};
use vstd::arithmetic::div_mod::lemma_mod_division_less_than_divisor;
use vstd::prelude::*;

verus! {

/// The field of view, in milliradians: sixty degrees.
pub const FOV_FP: i64 = 1047;

/// Upper bound on each screen dimension, in pixels.
pub const MAX_SCREEN: i64 = 1000000;

/// The floor put under a corrected distance before dividing by it: one
/// thousandth of a world unit, so a grazing or degenerate ray yields a very
/// tall strip instead of a fault.
pub const MIN_DIST_FP: i64 = 1;

/// Fixed-point distance within which the key counts as picked up: half a
/// world unit.
pub const PICKUP_RANGE_FP: i64 = 500;

/// One column's projection output: the column's pixel x, the strip's first
/// row (negative when the wall overflows the screen), its pixel height, and
/// a fixed-point horizontal texture coordinate in `[0, FP_ONE)`.
pub struct Strip {
    pub x: i64,
    pub start: i64,
    pub height: i64,
    pub texture_x: i64,
}

/// The projection parameters: the render target's dimensions in pixels.
pub struct Renderer {
    pub screen_width: i64,
    pub screen_height: i64,
}

/// The corrected distance for a ray hit at `d` whose angle differs from
/// the facing angle by `diff`: the raw distance scaled by the cosine of
/// the offset.
pub open spec fn spec_corrected_distance(d: int, diff: int) -> int {
    fp_scale(d * spec_cos(diff))
}

/// A corrected distance with the positive floor applied.
pub open spec fn spec_clamp_distance(c: int) -> int {
    if c < MIN_DIST_FP {
        MIN_DIST_FP as int
    } else {
        c
    }
}

impl Renderer {
    /// Both screen dimensions are positive and within the supported range.
    pub open spec fn wf(self) -> bool {
        &&& 0 < self.screen_width <= MAX_SCREEN
        &&& 0 < self.screen_height <= MAX_SCREEN
    }

    /// Accepts a render target's dimensions; a zero-or-negative or
    /// oversized viewport is rejected here, once, so the per-column path
    /// never divides by zero.
    pub fn new(screen_width: i64, screen_height: i64) -> (r: Result<Renderer, ConfigError>)
        ensures
            r is Ok <==> (0 < screen_width <= MAX_SCREEN && 0 < screen_height <= MAX_SCREEN),
            r matches Ok(ren) ==> ren == (Renderer { screen_width, screen_height }) && ren.wf(),
            r matches Err(e) ==> if screen_width <= 0 || screen_height <= 0 {
                e == ConfigError::ZeroViewport
            } else {
                e == ConfigError::ViewportTooLarge
            },
    {
        if screen_width <= 0 || screen_height <= 0 {
            Err(ConfigError::ZeroViewport)
        } else if screen_width > MAX_SCREEN || screen_height > MAX_SCREEN {
            Err(ConfigError::ViewportTooLarge)
        } else {
            Ok(Renderer { screen_width, screen_height })
        }
    }

    /// The ray angle of column `x`: the facing angle plus the column's
    /// share of the field of view, centered so that the middle column
    /// looks straight ahead.
    pub open spec fn spec_column_angle(self, facing: int, x: int) -> int {
        facing + (x * (FOV_FP as int)) / (self.screen_width as int) - (FOV_FP as int) / 2
    }

    /// Computes the ray angle for one screen column.
    pub fn column_angle(&self, facing: i64, x: i64) -> (a: i64)
        requires
            self.wf(),
            0 <= x < self.screen_width,
            0 <= facing < TWO_PI_FP,
        ensures
            a as int == self.spec_column_angle(facing as int, x as int),
            facing - FOV_FP <= a <= facing + FOV_FP,
    {
        proof {
            lemma_column_share_bounds(x as int, self.screen_width as int);
        }
        facing + (x * FOV_FP) / self.screen_width - FOV_FP / 2
    }

    /// Half the projected strip height for a corrected distance: half the
    /// screen height, as world units of one screen height, divided by the
    /// clamped distance.
    pub open spec fn spec_half_strip_height(self, c: int) -> int {
        (self.screen_height * FP_ONE) / (2 * spec_clamp_distance(c))
    }

    /// Projects one column's ray result to a wall strip. The strip is
    /// vertically centered on the horizon: its start plus half its height
    /// is exactly half the screen height, for every distance. The texture
    /// coordinate is the raw distance's fractional world unit, so the
    /// pattern repeats along a wall rather than stretching.
    pub fn project_column(&self, x: i64, raw_distance: i64, corrected_distance: i64) -> (s: Strip)
        requires
            self.wf(),
            0 <= raw_distance <= MAX_RANGE_FP,
            -MAX_RANGE_FP <= corrected_distance <= MAX_RANGE_FP,
        ensures
            s.x == x,
            s.height == 2 * self.spec_half_strip_height(corrected_distance as int),
            s.start == (self.screen_height as int) / 2 - self.spec_half_strip_height(
                corrected_distance as int,
            ),
            s.start + s.height / 2 == (self.screen_height as int) / 2,
            s.texture_x == (raw_distance as int) % (FP_ONE as int),
            0 <= s.texture_x < FP_ONE,
    {
        let clamped: i64 = if corrected_distance < MIN_DIST_FP {
            MIN_DIST_FP
        } else {
            corrected_distance
        };
        proof {
            lemma_half_height_bounds(self.screen_height as int, clamped as int);
        }
        let half: i64 = (self.screen_height * FP_ONE) / (2 * clamped);
        let start: i64 = self.screen_height / 2 - half;
        let height: i64 = 2 * half;
        proof {
            assert((2 * (half as int)) / 2 == half as int) by (nonlinear_arith);
            lemma_mod_division_less_than_divisor(raw_distance as int, FP_ONE as int);
        }
        let texture_x: i64 = raw_distance % FP_ONE;
        Strip { x, start, height, texture_x }
    }

    /// What `render_scene` promises of the strip it emits for column `i`:
    /// the ray was cast at the column's angle, the distance was corrected
    /// by the cosine of the column's offset from the facing angle, and the
    /// strip is the projection of that corrected distance.
    pub open spec fn strip_matches(self, p: Player, m: GridMap, s: Strip, i: int) -> bool {
        let ang = self.spec_column_angle(p.angle as int, i);
        let raw = spec_cast_distance(p, m, ang);
        let corr = spec_corrected_distance(raw, ang - p.angle);
        &&& s.x == i
        &&& s.height == 2 * self.spec_half_strip_height(corr)
        &&& s.start == (self.screen_height as int) / 2 - self.spec_half_strip_height(corr)
        &&& s.start + s.height / 2 == (self.screen_height as int) / 2
        &&& s.texture_x == raw % (FP_ONE as int)
    }

    /// Casts one ray per screen column against the map from the player's
    /// position and returns the projected wall strips, left to right, one
    /// per column. Pure geometry: the caller blits them.
    pub fn render_scene(&self, player: &Player, map: &GridMap) -> (v: Vec<Strip>)
        requires
            self.wf(),
            player.wf(),
            map.wf(),
        ensures
            v@.len() == self.screen_width,
            forall|i: int|
                0 <= i < v@.len() ==> self.strip_matches(*player, *map, #[trigger] v@[i], i),
    {
        let mut v: Vec<Strip> = Vec::new();
        let mut x: i64 = 0;
        while x < self.screen_width
            invariant
                self.wf(),
                player.wf(),
                map.wf(),
                0 <= x <= self.screen_width,
                v@.len() == x,
                forall|i: int|
                    0 <= i < v@.len() ==> self.strip_matches(*player, *map, #[trigger] v@[i], i),
            decreases self.screen_width - x,
        {
            let ang: i64 = self.column_angle(player.angle, x);
            let hit: RayHit = cast_ray(player, map, ang);
            let corrected: i64 = fisheye_correct(hit.distance, ang - player.angle);
            let strip: Strip = self.project_column(x, hit.distance, corrected);
            v.push(strip);
            x = x + 1;
        }
        v
    }
}

/// Corrects a raw ray distance for fisheye distortion: scales it by the
/// fixed-point cosine of the ray's angular offset from the facing angle.
/// For the column that looks straight ahead (offset exactly zero) the
/// corrected distance equals the raw distance.
pub fn fisheye_correct(distance: i64, angle_diff: i64) -> (r: i64)
    requires
        0 <= distance <= MAX_RANGE_FP,
    ensures
        r as int == spec_corrected_distance(distance as int, angle_diff as int),
        -MAX_RANGE_FP <= r <= MAX_RANGE_FP,
        angle_diff == 0 ==> r == distance,
{
    let c: i64 = cos_fixed(angle_diff);
    proof {
        assert(-MAX_RANGE_FP * FP_ONE <= distance as int * (c as int) <= MAX_RANGE_FP * FP_ONE)
            by (nonlinear_arith)
            requires
                0 <= distance <= MAX_RANGE_FP,
                -FP_ONE <= c <= FP_ONE,
        ;
        assert(-MAX_RANGE_FP <= fp_scale(distance as int * (c as int)) <= MAX_RANGE_FP)
            by (nonlinear_arith)
            requires
                -MAX_RANGE_FP * FP_ONE <= distance as int * (c as int) <= MAX_RANGE_FP * FP_ONE,
        ;
        if angle_diff == 0 {
            lemma_cos_zero();
            assert(fp_scale(distance as int * (FP_ONE as int)) == distance as int)
                by (nonlinear_arith)
                requires
                    0 <= distance,
            ;
        }
    }
    (distance * c) / FP_ONE
}

/// The fisheye correction is the identity at the view's center: a ray cast
/// exactly along the facing angle keeps its raw distance, since the cosine
/// of a zero offset is exactly one.
pub proof fn lemma_fisheye_center_identity(d: int)
    requires
        0 <= d,
    ensures
        spec_corrected_distance(d, 0) == d,
{
    lemma_cos_zero();
    assert(fp_scale(d * (FP_ONE as int)) == d) by (nonlinear_arith)
        requires
            0 <= d,
    ;
}

/// Whether the player stands within pickup range of the key: the squared
/// fixed-point distance to the key is under the squared pickup range.
pub fn key_in_pickup_range(player: &Player, map: &GridMap) -> (r: bool)
    requires
        player.wf(),
        -MAX_POS <= map.key_position.0 <= MAX_POS,
        -MAX_POS <= map.key_position.1 <= MAX_POS,
    ensures
        r == ((player.x - map.key_position.0) * (player.x - map.key_position.0) + (player.y
            - map.key_position.1) * (player.y - map.key_position.1) < PICKUP_RANGE_FP
            * PICKUP_RANGE_FP),
{
    let dx: i64 = player.x - map.key_position.0;
    let dy: i64 = player.y - map.key_position.1;
    proof {
        lemma_square_bound(dx as int);
        lemma_square_bound(dy as int);
    }
    dx * dx + dy * dy < PICKUP_RANGE_FP * PICKUP_RANGE_FP
}

/// The square of a coordinate difference stays within `i64` range.
proof fn lemma_square_bound(d: int)
    requires
        -2 * MAX_POS <= d <= 2 * MAX_POS,
    ensures
        0 <= d * d <= 4 * (MAX_POS * MAX_POS),
{
    assert(0 <= d * d <= 4 * (MAX_POS * MAX_POS)) by (nonlinear_arith)
        requires
            -2 * MAX_POS <= d <= 2 * MAX_POS,
    ;
}

/// A column's share of the field of view is bracketed by the whole field
/// of view.
proof fn lemma_column_share_bounds(x: int, w: int)
    requires
        0 <= x < w,
        0 < w,
    ensures
        0 <= (x * FOV_FP) / w <= FOV_FP,
{
    assert(0 <= (x * FOV_FP) / w <= FOV_FP) by (nonlinear_arith)
        requires
            0 <= x < w,
            0 < w,
    ;
}

/// The half strip height is non-negative and no more than half the
/// fixed-point screen height.
proof fn lemma_half_height_bounds(h: int, c: int)
    requires
        0 < h <= MAX_SCREEN,
        MIN_DIST_FP <= c,
    ensures
        0 <= (h * FP_ONE) / (2 * c) <= (h * FP_ONE) / 2,
{
    assert(0 <= (h * FP_ONE) / (2 * c) <= (h * FP_ONE) / 2) by (nonlinear_arith)
        requires
            0 < h <= MAX_SCREEN,
            1 <= c,
    ;
}
} // verus!
