use vstd::prelude::*;

use crate::geometry::{
    clamp_int, clamp_to_circle, clamp_to_circle_spec, fits, floor_div, in_disk, isqrt, isqrt_spec, sq,
    Point,
};
use crate::RATIO_SCALE;

verus! {

/// How many points the wave crest is sampled at, from just after the left end to the right end.
pub const WAVE_SAMPLES: usize = 64;

/// A full turn, in millionths of a radian.
pub const TAU_MICRORAD: u64 = 6_283_185;

/// How fast the wave phase turns: 2.2 radians a second, in millionths of a radian a millisecond.
pub const WAVE_SPEED: u64 = 2200;

/// The chord that the water surface rests on, for a fill strictly between empty and full.
#[derive(Clone, Copy, Debug, PartialEq, Eq, Structural)]
pub struct WaterSegment {
    pub left: Point,
    pub right: Point,
    /// The sine of the right end's angle, `1 - 2 * ratio`, scaled by `RATIO_SCALE`.
    pub level: i32,
}

/// What the water layer draws.
#[derive(Clone, Copy, Debug, PartialEq, Eq, Structural)]
pub enum WaterFill {
    /// Nothing: the gauge is empty.
    Empty,
    /// The whole disk: the gauge is full.
    Disk,
    /// A region under a wavy surface on this chord.
    Wave(WaterSegment),
}

/// A chord exists only strictly between empty and full.
pub open spec fn has_segment(ratio: int) -> bool {
    0 < ratio < RATIO_SCALE
}

pub open spec fn level_of(ratio: int) -> int {
    RATIO_SCALE - 2 * ratio
}

/// How far below the center the chord lies: `radius * (1 - 2 * ratio)`, rounded toward zero
/// so that the chord never reaches the top or the bottom of the circle.
pub open spec fn drop_of(radius: int, ratio: int) -> int {
    let level = level_of(ratio);
    if level >= 0 {
        radius * level / RATIO_SCALE as int
    } else {
        -(radius * -level / RATIO_SCALE as int)
    }
}

/// Half the chord's length.
pub open spec fn half_chord(radius: int, ratio: int) -> int {
    isqrt_spec(sq(radius) - sq(drop_of(radius, ratio)))
}

/// `seg` is the chord for `ratio` on the circle.
pub open spec fn is_segment_of(seg: WaterSegment, center: Point, radius: int, ratio: int) -> bool {
    &&& seg.level == level_of(ratio)
    &&& seg.left.x == center.x - half_chord(radius, ratio)
    &&& seg.right.x == center.x + half_chord(radius, ratio)
    &&& seg.left.y == center.y + drop_of(radius, ratio)
    &&& seg.right.y == center.y + drop_of(radius, ratio)
}

/// Wave strength, scaled by `RATIO_SCALE`: `4 * ratio * (1 - ratio)` held to `[0, 1]`.
pub open spec fn strength_spec(ratio: int) -> int {
    clamp_int(
        4 * ratio * (RATIO_SCALE - ratio) / RATIO_SCALE as int,
        0,
        RATIO_SCALE as int,
    )
}

/// Edge damping at sample `i` of `n`, scaled by `RATIO_SCALE`: `4 * t * (1 - t)`, `t = i / n`.
pub open spec fn edge_spec(i: int, n: int) -> int {
    clamp_int(4 * i * (n - i) * RATIO_SCALE / (n * n), 0, RATIO_SCALE as int)
}

/// The wave's amplitude: 0.055 of the radius, times the strength.
pub open spec fn wave_amplitude(radius: int, ratio: int) -> int {
    radius * 55 * strength_spec(ratio) / (1000 * RATIO_SCALE)
}

/// The sway's amplitude: 0.035 of the radius, times the strength.
pub open spec fn sway_amplitude(radius: int, ratio: int) -> int {
    radius * 35 * strength_spec(ratio) / (1000 * RATIO_SCALE)
}

/// The crest's `x` at sample `i`.
pub open spec fn crest_x(center: Point, radius: int, ratio: int, i: int) -> int {
    let h = half_chord(radius, ratio);
    center.x - h + 2 * h * i / WAVE_SAMPLES as int
}

/// The crest's `y` at sample `i`, before it is held inside the circle: the chord's height,
/// plus the damped wobble, plus a sway that tilts the two ends in opposite directions.
/// `sway_sine` is the sine of the sway phase and `wobble` the wobble at the sample, both
/// scaled by `RATIO_SCALE`.
pub open spec fn crest_raw_y(
    center: Point,
    radius: int,
    ratio: int,
    sway_sine: int,
    wobble: int,
    i: int,
) -> int {
    let n = WAVE_SAMPLES as int;
    let s = RATIO_SCALE as int;
    let sway = sway_amplitude(radius, ratio) * sway_sine / s;
    center.y + drop_of(radius, ratio) + wave_amplitude(radius, ratio) * edge_spec(i, n) * wobble / (s
        * s) + sway * (n - 2 * i) / n
}

/// The crest's `y` at sample `i`.
pub open spec fn crest_y(
    center: Point,
    radius: int,
    ratio: int,
    sway_sine: int,
    wobble: int,
    i: int,
) -> int {
    clamp_to_circle_spec(
        center.x as int,
        center.y as int,
        radius,
        crest_x(center, radius, ratio, i),
        crest_raw_y(center, radius, ratio, sway_sine, wobble, i),
    )
}

/// The wave phase after `elapsed_ms` milliseconds, in `[0, TAU_MICRORAD)`.
pub open spec fn phase_at(elapsed_ms: int) -> int {
    (elapsed_ms * WAVE_SPEED) % TAU_MICRORAD as int
}

/// Where the chord lies for `ratio`, or `None` when the gauge is empty or full.
pub fn water_segment(center: Point, radius: i32, ratio: u32) -> (r: Option<WaterSegment>)
    requires
        fits(center, radius as int),
    ensures
        r.is_some() == has_segment(ratio as int),
        r matches Some(seg) ==> is_segment_of(seg, center, radius as int, ratio as int),
        r matches Some(seg) ==> in_disk(
            seg.left.x as int,
            seg.left.y as int,
            center.x as int,
            center.y as int,
            radius as int,
        ) && in_disk(
            seg.right.x as int,
            seg.right.y as int,
            center.x as int,
            center.y as int,
            radius as int,
        ),
        has_segment(ratio as int) ==> {
            &&& 0 <= half_chord(radius as int, ratio as int) <= radius
            &&& -radius <= drop_of(radius as int, ratio as int) <= radius
        },
        r matches Some(seg) ==> (radius > 0 ==> seg.left.x < seg.right.x),
{
    if ratio == 0 || ratio >= RATIO_SCALE {
        return None;
    }
    let level: i32 = RATIO_SCALE as i32 - 2 * ratio as i32;
    let rr = radius as i128;
    let magnitude = if level >= 0 {
        level as i128
    } else {
        -(level as i128)
    };
    assert(0 <= rr * magnitude <= 0x8000_0000 * 10000) by (nonlinear_arith)
        requires
            0 <= magnitude < 10000,
            0 <= rr <= 0x8000_0000,
    ;
    let scaled = rr * magnitude / RATIO_SCALE as i128;
    assert(0 <= scaled <= rr && (rr > 0 ==> scaled < rr)) by (nonlinear_arith)
        requires
            scaled == rr * magnitude / 10000,
            0 <= magnitude < 10000,
            rr >= 0,
    ;
    let drop = if level >= 0 {
        scaled
    } else {
        -scaled
    };
    assert(-rr <= drop <= rr);
    assert(0 <= rr * rr - drop * drop <= rr * rr <= 0x4000_0000_0000_0000) by (nonlinear_arith)
        requires
            -rr <= drop <= rr,
            0 <= rr <= 0x8000_0000,
    ;
    assert(rr > 0 ==> rr * rr - drop * drop >= 1) by (nonlinear_arith)
        requires
            rr > 0 ==> -rr < drop < rr,
    ;
    let half = isqrt((rr * rr - drop * drop) as u64);
    assert(rr > 0 ==> half >= 1) by (nonlinear_arith)
        requires
            rr > 0 ==> rr * rr - drop * drop >= 1,
            rr * rr - drop * drop < (half + 1) * (half + 1),
            half >= 0,
    ;
    assert(half <= rr) by (nonlinear_arith)
        requires
            half * half <= rr * rr - drop * drop,
            half >= 0,
            rr >= 0,
    ;
    assert((0 - half) * (0 - half) + drop * drop <= rr * rr) by (nonlinear_arith)
        requires
            half * half <= rr * rr - drop * drop,
    ;
    let y = (center.y as i128 + drop) as i32;
    let left = Point { x: (center.x as i128 - half as i128) as i32, y };
    let right = Point { x: (center.x as i128 + half as i128) as i32, y };
    Some(WaterSegment { left, right, level })
}

/// What the water layer draws for `ratio`: nothing when empty, the disk when full (or above),
/// else the region under the chord of `water_segment`.
pub fn water_fill(center: Point, radius: i32, ratio: u32) -> (r: WaterFill)
    requires
        fits(center, radius as int),
    ensures
        r is Empty <==> ratio == 0,
        r is Disk <==> ratio >= RATIO_SCALE,
        r is Wave <==> has_segment(ratio as int),
        r matches WaterFill::Wave(seg) ==> is_segment_of(seg, center, radius as int, ratio as int),
{
    if ratio == 0 {
        WaterFill::Empty
    } else if ratio >= RATIO_SCALE {
        WaterFill::Disk
    } else {
        match water_segment(center, radius, ratio) {
            Some(seg) => WaterFill::Wave(seg),
            None => WaterFill::Empty,
        }
    }
}

/// Wave strength for `ratio` (see `strength_spec`): strongest half full, none when empty or full.
pub fn wave_strength(ratio: u32) -> (r: u32)
    ensures
        r == strength_spec(ratio as int),
        r <= RATIO_SCALE,
{
    if ratio >= RATIO_SCALE {
        assert(4 * ratio * (RATIO_SCALE - ratio) <= 0) by (nonlinear_arith)
            requires
                ratio >= 10000,
        ;
        assert(4 * ratio * (RATIO_SCALE - ratio) / RATIO_SCALE as int <= 0) by (nonlinear_arith)
            requires
                4 * ratio * (RATIO_SCALE - ratio) <= 0,
        ;
        return 0;
    }
    let r = ratio as u64;
    assert(4 * r * (10000 - r) <= 4 * 10000 * 10000) by (nonlinear_arith)
        requires
            r <= 10000,
    ;
    let v = 4 * r * (RATIO_SCALE as u64 - r) / RATIO_SCALE as u64;
    assert(v <= RATIO_SCALE) by (nonlinear_arith)
        requires
            v == 4 * r * (10000 - r) / 10000,
            r <= 10000,
    ;
    v as u32
}

/// Edge damping at sample `i` of `n` (see `edge_spec`): none in the middle, full at the ends.
pub fn edge_damping(i: usize, n: usize) -> (r: u32)
    requires
        0 < n <= 0x1_0000,
        i <= n,
    ensures
        r == edge_spec(i as int, n as int),
        r <= RATIO_SCALE,
{
    let ii = i as u128;
    let nn = n as u128;
    assert(0 <= 4 * ii * (nn - ii) * 10000 <= 4 * 0x1_0000 * 0x1_0000 * 10000) by (nonlinear_arith)
        requires
            ii <= nn <= 0x1_0000,
    ;
    assert(4 * ii * (nn - ii) <= nn * nn) by (nonlinear_arith)
        requires
            ii <= nn,
    ;
    assert(4 * ii * (nn - ii) * 10000 / (nn * nn) <= 10000) by (nonlinear_arith)
        requires
            4 * ii * (nn - ii) <= nn * nn,
            nn > 0,
    ;
    assert(0 < nn * nn <= 0x1_0000 * 0x1_0000) by (nonlinear_arith)
        requires
            0 < nn <= 0x1_0000,
    ;
    (4 * ii * (nn - ii) * RATIO_SCALE as u128 / (nn * nn)) as u32
}

/// The wave crest for `ratio`, one point per sample, or `None` when there is no chord.
/// `wobble` holds the wobble at each sample and `sway_sine` the sine of the sway phase,
/// both scaled by `RATIO_SCALE`.
/// Every point lies in the disk, so the wave never pokes out of the gauge.
pub fn wave_crest(
    center: Point,
    radius: i32,
    ratio: u32,
    sway_sine: i32,
    wobble: &Vec<i32>,
) -> (r: Option<Vec<Point>>)
    requires
        fits(center, radius as int),
        wobble@.len() == WAVE_SAMPLES,
    ensures
        r.is_some() == has_segment(ratio as int),
        r matches Some(points) ==> {
            &&& points@.len() == WAVE_SAMPLES
            &&& forall|k: int|
                0 <= k < WAVE_SAMPLES ==> {
                    &&& (#[trigger] points@[k]).x == crest_x(center, radius as int, ratio as int, k + 1)
                    &&& points@[k].y == crest_y(
                        center,
                        radius as int,
                        ratio as int,
                        sway_sine as int,
                        wobble@[k] as int,
                        k + 1,
                    )
                    &&& in_disk(
                        points@[k].x as int,
                        points@[k].y as int,
                        center.x as int,
                        center.y as int,
                        radius as int,
                    )
                }
        },
{
    let seg = match water_segment(center, radius, ratio) {
        Some(seg) => seg,
        None => {
            return None;
        },
    };
    let ghost h = half_chord(radius as int, ratio as int);
    let half = seg.right.x as i64 - center.x as i64;
    let strength = wave_strength(ratio) as i128;
    let rr = radius as i128;
    let s = RATIO_SCALE as i128;
    assert(0 <= rr * 55 * strength <= 0x8000_0000 * 55 * 10000) by (nonlinear_arith)
        requires
            0 <= rr <= 0x8000_0000,
            0 <= strength <= 10000,
    ;
    let amplitude = rr * 55 * strength / (1000 * s);
    assert(0 <= rr * 35 * strength <= 0x8000_0000 * 35 * 10000) by (nonlinear_arith)
        requires
            0 <= rr <= 0x8000_0000,
            0 <= strength <= 10000,
    ;
    let sway_amp = rr * 35 * strength / (1000 * s);
    assert(0 <= amplitude <= rr && 0 <= sway_amp <= rr) by (nonlinear_arith)
        requires
            amplitude == rr * 55 * strength / (10_000_000 as int),
            sway_amp == rr * 35 * strength / (10_000_000 as int),
            0 <= strength <= 10000,
            0 <= rr,
    ;
    assert(-rr * 0x8000_0000 <= sway_amp * sway_sine <= rr * 0x8000_0000) by (nonlinear_arith)
        requires
            0 <= sway_amp <= rr,
            -0x8000_0000 <= sway_sine <= 0x8000_0000,
    ;
    let sway = floor_div(sway_amp * sway_sine as i128, s);
    assert(-rr * 0x8000_0000 <= sway <= rr * 0x8000_0000) by (nonlinear_arith)
        requires
            sway == sway_amp * sway_sine / (10000 as int),
            -rr * 0x8000_0000 <= sway_amp * sway_sine <= rr * 0x8000_0000,
            rr >= 0,
    ;
    let n = WAVE_SAMPLES;
    let mut points: Vec<Point> = Vec::new();
    let mut i: usize = 1;
    while i <= n
        invariant
            1 <= i <= n + 1,
            n == WAVE_SAMPLES,
            fits(center, radius as int),
            wobble@.len() == WAVE_SAMPLES,
            points@.len() == i - 1,
            half == h,
            h == half_chord(radius as int, ratio as int),
            0 <= h <= radius,
            seg.left.y == center.y + drop_of(radius as int, ratio as int),
            strength == strength_spec(ratio as int),
            amplitude == wave_amplitude(radius as int, ratio as int),
            0 <= amplitude <= rr,
            rr == radius,
            s == RATIO_SCALE,
            sway == sway_amplitude(radius as int, ratio as int) * sway_sine / (s as int),
            -rr * 0x8000_0000 <= sway <= rr * 0x8000_0000,
            -rr <= seg.left.y - center.y <= rr,
            forall|k: int|
                0 <= k < i - 1 ==> {
                    &&& (#[trigger] points@[k]).x == crest_x(center, radius as int, ratio as int, k + 1)
                    &&& points@[k].y == crest_y(
                        center,
                        radius as int,
                        ratio as int,
                        sway_sine as int,
                        wobble@[k] as int,
                        k + 1,
                    )
                    &&& in_disk(
                        points@[k].x as int,
                        points@[k].y as int,
                        center.x as int,
                        center.y as int,
                        radius as int,
                    )
                },
        decreases n + 1 - i,
    {
        let ii = i as i128;
        let nn = n as i128;
        assert(0 <= 2 * half * ii <= 2 * 0x8000_0000 * 64) by (nonlinear_arith)
            requires
                0 <= half <= 0x8000_0000,
                0 <= ii <= 64,
        ;
        let step = 2 * half as i128 * ii / nn;
        assert(0 <= step <= 2 * half) by (nonlinear_arith)
            requires
                step == 2 * half * ii / (nn as int),
                0 <= ii <= nn,
                nn > 0,
                half >= 0,
        ;
        let xl = center.x as i128 - half as i128 + step;
        assert(center.x - radius <= xl <= center.x + radius);
        let x = xl as i32;
        assert((x - center.x) * (x - center.x) <= radius * radius) by (nonlinear_arith)
            requires
                x == center.x - h + step,
                0 <= step <= 2 * h,
                0 <= h <= radius,
        ;
        let edge = edge_damping(i, n) as i128;
        let w = wobble[i - 1] as i128;
        assert(-rr * 10000 * 0x8000_0000 <= amplitude * edge * w <= rr * 10000 * 0x8000_0000)
            by (nonlinear_arith)
            requires
                0 <= amplitude <= rr,
                0 <= edge <= 10000,
                -0x8000_0000 <= w <= 0x8000_0000,
        ;
        assert(0 <= amplitude * edge <= rr * 10000) by (nonlinear_arith)
            requires
                0 <= amplitude <= rr,
                0 <= edge <= 10000,
        ;
        let lift = floor_div(amplitude * edge * w, s * s);
        assert(-rr * 10000 * 0x8000_0000 <= lift <= rr * 10000 * 0x8000_0000) by (nonlinear_arith)
            requires
                lift == amplitude * edge * w / (100_000_000 as int),
                -rr * 10000 * 0x8000_0000 <= amplitude * edge * w <= rr * 10000 * 0x8000_0000,
                rr >= 0,
        ;
        assert(-rr * 0x8000_0000 * 64 <= sway * (nn - 2 * ii) <= rr * 0x8000_0000 * 64)
            by (nonlinear_arith)
            requires
                -rr * 0x8000_0000 <= sway <= rr * 0x8000_0000,
                -64 <= nn - 2 * ii <= 64,
                rr >= 0,
        ;
        let tilt = floor_div(sway * (nn - 2 * ii), nn);
        assert(-rr * 0x8000_0000 * 64 <= tilt <= rr * 0x8000_0000 * 64) by (nonlinear_arith)
            requires
                tilt == sway * (nn - 2 * ii) / (nn as int),
                -rr * 0x8000_0000 * 64 <= sway * (nn - 2 * ii) <= rr * 0x8000_0000 * 64,
                nn == 64,
                rr >= 0,
        ;
        let raw = seg.left.y as i128 + lift + tilt;
        assert(-0x8000_0000 * 0x8000_0000 * 0x1_0000 <= raw <= 0x8000_0000 * 0x8000_0000 * 0x1_0000)
            by (nonlinear_arith)
            requires
                raw == seg.left.y + lift + tilt,
                -rr * 10000 * 0x8000_0000 <= lift <= rr * 10000 * 0x8000_0000,
                -rr * 0x8000_0000 * 64 <= tilt <= rr * 0x8000_0000 * 64,
                0 <= rr <= 0x8000_0000,
                -0x8000_0000 <= seg.left.y <= 0x8000_0000,
        ;
        let y = clamp_to_circle(center, radius, x, raw as i64);
        assert(-0x8000_0000 <= y <= 0x7fff_ffff) by (nonlinear_arith)
            requires
                in_disk(x as int, y as int, center.x as int, center.y as int, radius as int),
                fits(center, radius as int),
        ;
        points.push(Point { x, y: y as i32 });
        i = i + 1;
    }
    Some(points)
}

/// The wave phase after `elapsed_ms` milliseconds of animation, wrapped into a turn.
pub fn wave_phase_at(elapsed_ms: u64) -> (r: u32)
    ensures
        r == phase_at(elapsed_ms as int),
        r < TAU_MICRORAD,
{
    ((elapsed_ms as u128 * WAVE_SPEED as u128) % TAU_MICRORAD as u128) as u32
}

/// Over ratios in `[0, 1]`: the chord exists exactly strictly between; an empty gauge fills
/// nothing and a full one fills the whole disk (see `water_fill`).
pub proof fn fill_cases(ratio: int)
    requires
        0 <= ratio <= RATIO_SCALE,
    ensures
        has_segment(ratio) <==> (ratio != 0 && ratio != RATIO_SCALE),
        ratio == 0 ==> !has_segment(ratio),
        ratio == RATIO_SCALE ==> !has_segment(ratio) && ratio >= RATIO_SCALE,
{
}

} // verus!
