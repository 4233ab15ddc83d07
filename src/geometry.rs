use vstd::prelude::*;

verus! {

/// Coordinates and lengths count thousandths of a pixel.
pub const UNITS_PER_PIXEL: i32 = 1000;

/// The smallest radius that a layout gives: one pixel.
pub const MIN_RADIUS: i32 = 1000;

/// A point on the canvas, in thousandths of a pixel; `y` grows downwards.
#[derive(Clone, Copy, Debug, PartialEq, Eq, Structural)]
pub struct Point {
    pub x: i32,
    pub y: i32,
}

/// A width and a height, in thousandths of a pixel.
#[derive(Clone, Copy, Debug, PartialEq, Eq, Structural)]
pub struct Size {
    pub width: i32,
    pub height: i32,
}

/// A rectangle given by its top-left corner and its size.
#[derive(Clone, Copy, Debug, PartialEq, Eq, Structural)]
pub struct Rect {
    pub x: i32,
    pub y: i32,
    pub width: i32,
    pub height: i32,
}

pub open spec fn sq(v: int) -> int {
    v * v
}

pub open spec fn min_int(a: int, b: int) -> int {
    if a <= b {
        a
    } else {
        b
    }
}

pub open spec fn max_int(a: int, b: int) -> int {
    if a >= b {
        a
    } else {
        b
    }
}

pub open spec fn clamp_int(v: int, lo: int, hi: int) -> int {
    if v < lo {
        lo
    } else if v > hi {
        hi
    } else {
        v
    }
}

/// Whether `(x, y)` lies in the closed disk of radius `r` around `(cx, cy)`.
pub open spec fn in_disk(x: int, y: int, cx: int, cy: int, r: int) -> bool {
    0 <= r && sq(x - cx) + sq(y - cy) <= sq(r)
}

/// The circle fits the coordinate range.
pub open spec fn fits(center: Point, radius: int) -> bool {
    &&& radius >= 0
    &&& center.x - radius >= i32::MIN
    &&& center.x + radius <= i32::MAX
    &&& center.y - radius >= i32::MIN
    &&& center.y + radius <= i32::MAX
}

/// The radius of the gauge on a canvas of `size`: just under half the shorter side.
pub open spec fn radius_of(size: Size) -> int {
    max_int(min_int(size.width as int, size.height as int) * 495 / 1000, MIN_RADIUS as int)
}

pub open spec fn center_x_of(size: Size) -> int {
    size.width / 2
}

pub open spec fn center_y_of(size: Size) -> int {
    size.height / 2
}

/// The radius of the gear and of the resize handle, for a gauge of radius `r`.
pub open spec fn button_radius(r: int) -> int {
    r * 22 / 100
}

/// How far the gear and the handle sit from the center along each axis.
pub open spec fn button_offset(r: int) -> int {
    r * 55 / 100
}

/// `s` is the integer square root of `v`.
pub open spec fn is_root(v: int, s: int) -> bool {
    0 <= s && s * s <= v < (s + 1) * (s + 1)
}

/// The largest `s` with `s * s <= v`.
pub open spec fn isqrt_spec(v: int) -> int {
    choose|s: int| is_root(v, s)
}

/// `y` held inside the circle's column at `x`; unchanged where `x` is outside the circle.
pub open spec fn clamp_to_circle_spec(cx: int, cy: int, r: int, x: int, y: int) -> int {
    let inside = sq(r) - sq(x - cx);
    if inside < 0 {
        y
    } else {
        clamp_int(y, cy - isqrt_spec(inside), cy + isqrt_spec(inside))
    }
}

proof fn lemma_isqrt_unique(v: int, s: int)
    requires
        0 <= s,
        s * s <= v < (s + 1) * (s + 1),
    ensures
        isqrt_spec(v) == s,
{
    let t = isqrt_spec(v);
    assert(is_root(v, s));
    assert(is_root(v, t));
    if t < s {
        assert((t + 1) * (t + 1) <= s * s) by (nonlinear_arith)
            requires
                0 <= t < s,
        ;
    } else if t > s {
        assert((s + 1) * (s + 1) <= t * t) by (nonlinear_arith)
            requires
                0 <= s < t,
        ;
    }
}

proof fn lemma_square_bound(v: int)
    requires
        -0x1_0000_0000 <= v <= 0x1_0000_0000,
    ensures
        0 <= v * v <= 0x1_0000_0000_0000_0000,
{
    assert(0 <= v * v <= 0x1_0000_0000_0000_0000) by (nonlinear_arith)
        requires
            -0x1_0000_0000 <= v <= 0x1_0000_0000,
    ;
}

/// `a / b` rounded down, for a positive `b`.
pub fn floor_div(a: i128, b: i128) -> (r: i128)
    requires
        b > 0,
    ensures
        r == a / b,
{
    proof {
        let q = a / b;
        assert(a == q * b + a % b && 0 <= a % b < b) by {
            vstd::arithmetic::div_mod::lemma_fundamental_div_mod(a as int, b as int);
        }
        assert(i128::MIN <= q <= i128::MAX) by (nonlinear_arith)
            requires
                a == q * b + a % b,
                0 <= a % b < b,
                b > 0,
                i128::MIN <= a <= i128::MAX,
        ;
    }
    match a.checked_div_euclid(b) {
        Some(q) => q,
        None => 0,
    }
}

/// The largest `s` with `s * s <= v`.
pub fn isqrt(v: u64) -> (r: u64)
    ensures
        r as int == isqrt_spec(v as int),
        r * r <= v < (r + 1) * (r + 1),
{
    let mut lo: u128 = 0;
    let mut hi: u128 = 0x1_0000_0000;
    assert(hi * hi > v);
    while hi - lo > 1
        invariant
            lo < hi <= 0x1_0000_0000,
            lo * lo <= v,
            v < hi * hi,
        decreases hi - lo,
    {
        let mid = lo + (hi - lo) / 2;
        assert(mid * mid <= 0x1_0000_0000 * 0x1_0000_0000) by (nonlinear_arith)
            requires
                mid <= 0x1_0000_0000,
        ;
        if mid * mid <= v as u128 {
            lo = mid;
        } else {
            hi = mid;
        }
    }
    proof {
        assert(hi == lo + 1);
        lemma_isqrt_unique(v as int, lo as int);
    }
    lo as u64
}

/// Whether `p` lies in the closed disk of radius `r` around `c`.
pub fn within(p: Point, c: Point, r: i32) -> (b: bool)
    ensures
        b == in_disk(p.x as int, p.y as int, c.x as int, c.y as int, r as int),
{
    if r < 0 {
        return false;
    }
    let dx = p.x as i128 - c.x as i128;
    let dy = p.y as i128 - c.y as i128;
    let rr = r as i128;
    proof {
        lemma_square_bound(dx as int);
        lemma_square_bound(dy as int);
        lemma_square_bound(rr as int);
    }
    dx * dx + dy * dy <= rr * rr
}

/// The gauge's center and radius on a canvas of `size`.
pub fn circle_layout(size: Size) -> (r: (Point, i32))
    ensures
        r.0.x == center_x_of(size),
        r.0.y == center_y_of(size),
        r.1 == radius_of(size),
        r.1 >= MIN_RADIUS,
        fits(r.0, r.1 as int),
        r.0.x + button_offset(r.1 as int) <= i32::MAX,
        r.0.y - button_offset(r.1 as int) >= i32::MIN,
        r.0.y + button_offset(r.1 as int) <= i32::MAX,
{
    let m: i64 = if size.width <= size.height {
        size.width as i64
    } else {
        size.height as i64
    };
    let radius: i32 = if m <= 0 {
        assert(m * 495 / 1000 <= 0) by (nonlinear_arith)
            requires
                m <= 0,
        ;
        MIN_RADIUS
    } else {
        assert(0 <= m * 495 / 1000 <= m) by (nonlinear_arith)
            requires
                m > 0,
        ;
        let scaled = (m * 495 / 1000) as i32;
        if scaled >= MIN_RADIUS {
            scaled
        } else {
            MIN_RADIUS
        }
    };
    let cx = floor_div(size.width as i128, 2) as i32;
    let cy = floor_div(size.height as i128, 2) as i32;
    let (offset, _) = button_metrics(radius);
    assert(radius == MIN_RADIUS || (radius <= size.width * 495 / 1000 && radius <= size.height * 495
        / 1000));
    assert(fits(Point { x: cx, y: cy }, radius as int) && cx + offset <= i32::MAX && cy - offset
        >= i32::MIN && cy + offset <= i32::MAX) by (nonlinear_arith)
        requires
            cx == size.width / 2,
            cy == size.height / 2,
            -0x8000_0000 <= size.width < 0x8000_0000,
            -0x8000_0000 <= size.height < 0x8000_0000,
            radius == 1000 || (radius <= size.width * 495 / 1000 && radius <= size.height * 495
                / 1000),
            radius >= 1000,
            0 <= offset <= radius,
    ;
    (Point { x: cx, y: cy }, radius)
}

/// The gear button's center and radius, in the upper-right quarter of the gauge.
pub fn gear_layout(center: Point, radius: i32) -> (r: (Point, i32))
    requires
        radius >= 0,
        center.x + button_offset(radius as int) <= i32::MAX,
        center.y - button_offset(radius as int) >= i32::MIN,
    ensures
        r.0.x == center.x + button_offset(radius as int),
        r.0.y == center.y - button_offset(radius as int),
        r.1 == button_radius(radius as int),
{
    let (offset, size) = button_metrics(radius);
    (Point { x: center.x + offset, y: center.y - offset }, size)
}

/// The resize handle's center and radius, in the lower-right quarter of the gauge.
pub fn resize_layout(center: Point, radius: i32) -> (r: (Point, i32))
    requires
        radius >= 0,
        center.x + button_offset(radius as int) <= i32::MAX,
        center.y + button_offset(radius as int) <= i32::MAX,
    ensures
        r.0.x == center.x + button_offset(radius as int),
        r.0.y == center.y + button_offset(radius as int),
        r.1 == button_radius(radius as int),
{
    let (offset, size) = button_metrics(radius);
    (Point { x: center.x + offset, y: center.y + offset }, size)
}

/// The offset and the radius of a button, for a gauge of radius `radius`.
fn button_metrics(radius: i32) -> (r: (i32, i32))
    requires
        radius >= 0,
    ensures
        r.0 == button_offset(radius as int),
        r.1 == button_radius(radius as int),
        0 <= r.0 <= radius,
        0 <= r.1 <= radius,
{
    let rr = radius as i64;
    assert(0 <= rr * 55 / 100 <= rr && 0 <= rr * 22 / 100 <= rr) by (nonlinear_arith)
        requires
            rr >= 0,
    ;
    ((rr * 55 / 100) as i32, (rr * 22 / 100) as i32)
}

/// `y` held inside the circle's column at `x` (see `clamp_to_circle_spec`).
pub fn clamp_to_circle(center: Point, radius: i32, x: i32, y: i64) -> (r: i64)
    requires
        radius >= 0,
    ensures
        r == clamp_to_circle_spec(center.x as int, center.y as int, radius as int, x as int, y as int),
        sq(x - center.x) <= sq(radius as int) ==> in_disk(
            x as int,
            r as int,
            center.x as int,
            center.y as int,
            radius as int,
        ),
{
    let dx = x as i64 - center.x as i64;
    let rr = radius as i64;
    proof {
        lemma_square_bound(dx as int);
        lemma_square_bound(rr as int);
    }
    let inside = rr as i128 * rr as i128 - dx as i128 * dx as i128;
    if inside < 0 {
        return y;
    }
    assert(inside <= rr * rr <= 0x4000_0000_0000_0000) by (nonlinear_arith)
        requires
            0 <= rr <= 0x8000_0000,
            inside <= rr * rr,
    ;
    let d = isqrt(inside as u64);
    assert(d <= rr) by (nonlinear_arith)
        requires
            d * d <= inside,
            inside <= rr * rr,
            d >= 0,
            rr >= 0,
    ;
    let lo = center.y as i64 - d as i64;
    let hi = center.y as i64 + d as i64;
    let out = if y < lo {
        lo
    } else if y > hi {
        hi
    } else {
        y
    };
    assert(sq(out - center.y) <= d * d) by (nonlinear_arith)
        requires
            lo <= out <= hi,
            lo == center.y - d,
            hi == center.y + d,
    ;
    out
}

/// The gear and the resize handle lie inside the gauge and apart from each other: a button's
/// center is `button_offset` away along both axes, so its distance to the gauge's center plus
/// its radius is at most the gauge's radius; the two centers are `2 * button_offset` apart,
/// more than the two radii together.
pub proof fn buttons_inside_gauge(r: int)
    requires
        r >= MIN_RADIUS,
    ensures
        0 <= button_radius(r) <= r,
        2 * sq(button_offset(r)) <= sq(r - button_radius(r)),
        2 * button_offset(r) > 2 * button_radius(r),
{
    let off = button_offset(r);
    let br = button_radius(r);
    vstd::arithmetic::div_mod::lemma_fundamental_div_mod(r * 55, 100);
    vstd::arithmetic::div_mod::lemma_fundamental_div_mod(r * 22, 100);
    assert(0 <= (r * 55) % 100 < 100 && 0 <= (r * 22) % 100 < 100);
    assert(100 * off <= 55 * r < 100 * off + 100);
    assert(100 * br <= 22 * r < 100 * br + 100);
    assert(0 <= br <= r) by (nonlinear_arith)
        requires
            100 * br <= 22 * r < 100 * br + 100,
            r >= 1000,
    ;
    assert(2 * (off * off) <= (r - br) * (r - br)) by (nonlinear_arith)
        requires
            0 <= 100 * off <= 55 * r,
            100 * br <= 22 * r,
            r >= 1000,
    ;
    assert(off > br) by (nonlinear_arith)
        requires
            55 * r < 100 * off + 100,
            100 * br <= 22 * r,
            r >= 1000,
    ;
}

} // verus!
