//! Fixed-point points and the exact interpolation used to bend the cat.

use vstd::prelude::*;

verus! {

/// Design-space units per unit of the illustration's coordinate system.
pub const UNIT: i64 = 1_000_000;

/// Width of the illustration's canvas, in design units.
pub const DESIGN_WIDTH: i128 = 24_860_000;

/// Height of the illustration's canvas, in design units.
pub const DESIGN_HEIGHT: i128 = 13_950_000;

/// Distance from the canvas's left edge to the design-space origin.
pub const DESIGN_ORIGIN_X: i128 = 9_870_000;

/// Distance from the canvas's top edge to the design-space origin.
pub const DESIGN_ORIGIN_Y: i128 = 6_999_000;

/// Largest magnitude of a corner handed to `lerp_skew` (2^24).
pub const ANCHOR_LIMIT: i128 = 0x100_0000;

/// Largest magnitude of a point that `lerp_skew` returns (2^94).
pub const SKEW_LIMIT: i128 = 0x4000_0000_0000_0000_0000_0000;

/// A point of design space, both coordinates in units of 1/`UNIT`.
#[derive(Clone, Copy, Debug, PartialEq, Eq, Structural)]
pub struct Point {
    pub x: i128,
    pub y: i128,
}

impl Point {
    /// Both coordinates lie in `[-lim, lim]`.
    pub open spec fn within(self, lim: int) -> bool {
        -lim <= self.x <= lim && -lim <= self.y <= lim
    }
}

/// The point lies on the illustration's canvas.
pub open spec fn in_design(p: Point) -> bool {
    -DESIGN_ORIGIN_X <= p.x <= DESIGN_WIDTH - DESIGN_ORIGIN_X && -DESIGN_ORIGIN_Y <= p.y
        <= DESIGN_HEIGHT - DESIGN_ORIGIN_Y
}

/// Builds a point.
pub fn pt(x: i128, y: i128) -> (r: Point)
    ensures
        r.x == x,
        r.y == y,
{
    Point { x, y }
}

/// The cursor as a fraction of the monitor: `x / width` across, `y / height`
/// down. The fraction is not clamped: a cursor on another monitor lies
/// outside [0, 1].
#[derive(Clone, Copy, Debug, PartialEq, Eq, Structural)]
pub struct NormalizedCursor {
    pub x: i32,
    pub y: i32,
    pub width: u32,
    pub height: u32,
}

impl NormalizedCursor {
    pub open spec fn wf(self) -> bool {
        self.width > 0 && self.height > 0
    }
}

/// Division rounded towards negative infinity.
pub fn floor_div(a: i128, b: i128) -> (q: i128)
    requires
        b > 0,
    ensures
        q == a / b,
{
    proof {
        lemma_div_magnitude(a as int, b as int);
    }
    match a.checked_div_euclid(b) {
        Some(q) => q,
        None => 0,
    }
}

/// Largest magnitude of a value handed to `lerp` (2^80).
pub const LERP_LIMIT: i128 = 0x1_0000_0000_0000_0000_0000;

/// Largest magnitude of an interpolation parameter's numerator and
/// denominator (2^32).
pub const POS_LIMIT: i128 = 0x1_0000_0000;

/// The interpolation from `start` to `end` at `pos_num / pos_den`, multiplied
/// by `pos_den`.
pub open spec fn lerp_scaled(start: int, end: int, pos_num: int, pos_den: int) -> int {
    start * (pos_den - pos_num) + end * pos_num
}

/// Linear interpolation from `start` to `end` at position
/// `pos_num / pos_den`, kept exact by returning the value times `pos_den`.
pub fn lerp(start: i128, end: i128, pos_num: i128, pos_den: i128) -> (r: i128)
    requires
        -LERP_LIMIT <= start <= LERP_LIMIT,
        -LERP_LIMIT <= end <= LERP_LIMIT,
        -POS_LIMIT <= pos_num <= POS_LIMIT,
        0 < pos_den <= POS_LIMIT,
    ensures
        r == lerp_scaled(start as int, end as int, pos_num as int, pos_den as int),
{
    let rest = pos_den - pos_num;
    proof {
        lemma_lerp_bounds(start as int, end as int, pos_num as int, pos_den as int, LERP_LIMIT as int);
        lemma_mul_bound(start as int, rest as int, LERP_LIMIT as int, 2 * POS_LIMIT);
        lemma_mul_bound(end as int, pos_num as int, LERP_LIMIT as int, POS_LIMIT as int);
    }
    start * rest + end * pos_num
}

/// The bilinear blend of four corner values at `(u / du, v / dv)`, multiplied
/// by `du * dv`: each corner weighted by the area of the opposite cell.
pub open spec fn bilinear(
    top_left: int,
    top_right: int,
    bottom_left: int,
    bottom_right: int,
    u: int,
    du: int,
    v: int,
    dv: int,
) -> int {
    top_left * (du - u) * (dv - v) + top_right * u * (dv - v) + bottom_left * (du - u) * v
        + bottom_right * u * v
}

/// The point that `lerp_skew` gives for these corners and this cursor.
pub open spec fn skew_point(
    top_left: Point,
    top_right: Point,
    bottom_left: Point,
    bottom_right: Point,
    c: NormalizedCursor,
) -> Point {
    let d = c.width * c.height;
    Point {
        x: (bilinear(
            top_left.x as int,
            top_right.x as int,
            bottom_left.x as int,
            bottom_right.x as int,
            c.x as int,
            c.width as int,
            c.y as int,
            c.height as int,
        ) / d) as i128,
        y: (bilinear(
            top_left.y as int,
            top_right.y as int,
            bottom_left.y as int,
            bottom_right.y as int,
            c.x as int,
            c.width as int,
            c.y as int,
            c.height as int,
        ) / d) as i128,
    }
}

/// A product of two bounded factors is bounded by the product of the bounds.
proof fn lemma_mul_bound(a: int, b: int, la: int, lb: int)
    requires
        -la <= a <= la,
        -lb <= b <= lb,
    ensures
        -(la * lb) <= a * b <= la * lb,
{
    assert(-(la * lb) <= a * b <= la * lb) by (nonlinear_arith)
        requires
            -la <= a <= la,
            -lb <= b <= lb,
    ;
}

proof fn lemma_lerp_bounds(start: int, end: int, pos_num: int, pos_den: int, lim: int)
    requires
        -lim <= start <= lim,
        -lim <= end <= lim,
        0 <= lim,
        -POS_LIMIT <= pos_num <= POS_LIMIT,
        0 < pos_den <= POS_LIMIT,
    ensures
        -(3 * POS_LIMIT * lim) <= lerp_scaled(start, end, pos_num, pos_den) <= 3 * POS_LIMIT * lim,
{
    let rest = pos_den - pos_num;
    lemma_mul_bound(start, rest, lim, 2 * POS_LIMIT);
    lemma_mul_bound(end, pos_num, lim, POS_LIMIT as int);
    assert(lim * (2 * POS_LIMIT) + lim * POS_LIMIT == 3 * POS_LIMIT * lim) by (nonlinear_arith);
}

/// Rounding down by a positive divisor never grows a magnitude.
pub proof fn lemma_div_magnitude(a: int, d: int)
    requires
        d >= 1,
    ensures
        a >= 0 ==> 0 <= a / d <= a,
        a < 0 ==> a <= a / d < 0,
{
    vstd::arithmetic::div_mod::lemma_fundamental_div_mod(a, d);
    let q = a / d;
    let r = a % d;
    assert(0 <= r < d);
    if a >= 0 {
        assert(0 <= q <= a) by (nonlinear_arith)
            requires
                a == d * q + r,
                0 <= r < d,
                d >= 1,
                a >= 0,
        ;
    } else {
        assert(a <= q < 0) by (nonlinear_arith)
            requires
                a == d * q + r,
                0 <= r < d,
                d >= 1,
                a < 0,
        ;
    }
}

/// The bilinear blend, written as two nested interpolations either way round.
pub proof fn lemma_bilinear_nested(a: int, b: int, c: int, d: int, u: int, du: int, v: int, dv: int)
    ensures
        bilinear(a, b, c, d, u, du, v, dv) == lerp_scaled(
            lerp_scaled(a, b, u, du),
            lerp_scaled(c, d, u, du),
            v,
            dv,
        ),
        bilinear(a, b, c, d, u, du, v, dv) == lerp_scaled(
            lerp_scaled(a, c, v, dv),
            lerp_scaled(b, d, v, dv),
            u,
            du,
        ),
{
    let p = du - u;
    let q = dv - v;
    assert((a * p + b * u) * q == a * p * q + b * u * q) by (nonlinear_arith);
    assert((c * p + d * u) * v == c * p * v + d * u * v) by (nonlinear_arith);
    assert((a * q + c * v) * p == a * p * q + c * p * v) by (nonlinear_arith);
    assert((b * q + d * v) * u == b * u * q + d * u * v) by (nonlinear_arith);
}

/// The rounded blend of corners within `ANCHOR_LIMIT` lies within `SKEW_LIMIT`.
pub proof fn lemma_skew_bounds(a: int, b: int, c: int, d: int, u: int, du: int, v: int, dv: int)
    requires
        -ANCHOR_LIMIT <= a <= ANCHOR_LIMIT,
        -ANCHOR_LIMIT <= b <= ANCHOR_LIMIT,
        -ANCHOR_LIMIT <= c <= ANCHOR_LIMIT,
        -ANCHOR_LIMIT <= d <= ANCHOR_LIMIT,
        -POS_LIMIT <= u <= POS_LIMIT,
        0 < du <= POS_LIMIT,
        -POS_LIMIT <= v <= POS_LIMIT,
        0 < dv <= POS_LIMIT,
    ensures
        du * dv >= 1,
        -SKEW_LIMIT <= bilinear(a, b, c, d, u, du, v, dv) / (du * dv) <= SKEW_LIMIT,
{
    let lim = ANCHOR_LIMIT as int;
    assert(du * dv >= 1) by (nonlinear_arith)
        requires
            0 < du,
            0 < dv,
    ;
    lemma_bilinear_nested(a, b, c, d, u, du, v, dv);
    lemma_lerp_bounds(a, b, u, du, lim);
    lemma_lerp_bounds(c, d, u, du, lim);
    lemma_lerp_bounds(lerp_scaled(a, b, u, du), lerp_scaled(c, d, u, du), v, dv, 3 * POS_LIMIT * lim);
    lemma_div_magnitude(bilinear(a, b, c, d, u, du, v, dv), du * dv);
}

/// Blends four corner points by the cursor fraction: across by `x`, down by
/// `y`, rounding the exact result down to the grid of design units.
pub fn lerp_skew(
    topleft: Point,
    topright: Point,
    bottomleft: Point,
    bottomright: Point,
    cursor: &NormalizedCursor,
) -> (r: Point)
    requires
        topleft.within(ANCHOR_LIMIT as int),
        topright.within(ANCHOR_LIMIT as int),
        bottomleft.within(ANCHOR_LIMIT as int),
        bottomright.within(ANCHOR_LIMIT as int),
        cursor.wf(),
    ensures
        r == skew_point(topleft, topright, bottomleft, bottomright, *cursor),
        r.within(SKEW_LIMIT as int),
{
    let cx = cursor.x as i128;
    let cy = cursor.y as i128;
    let dx = cursor.width as i128;
    let dy = cursor.height as i128;
    let ghost lim = ANCHOR_LIMIT as int;
    proof {
        lemma_lerp_bounds(topleft.x as int, topright.x as int, cx as int, dx as int, lim);
        lemma_lerp_bounds(bottomleft.x as int, bottomright.x as int, cx as int, dx as int, lim);
        lemma_lerp_bounds(topleft.y as int, bottomleft.y as int, cy as int, dy as int, lim);
        lemma_lerp_bounds(topright.y as int, bottomright.y as int, cy as int, dy as int, lim);
    }
    let lerptop = lerp(topleft.x as i128, topright.x as i128, cx, dx);
    let lerpbottom = lerp(bottomleft.x as i128, bottomright.x as i128, cx, dx);
    let lerpedx = lerp(lerptop, lerpbottom, cy, dy);

    let lerpleft = lerp(topleft.y as i128, bottomleft.y as i128, cy, dy);
    let lerpright = lerp(topright.y as i128, bottomright.y as i128, cy, dy);
    let lerpedy = lerp(lerpleft, lerpright, cx, dx);

    proof {
        assert(0 < dx * dy <= POS_LIMIT * POS_LIMIT) by (nonlinear_arith)
            requires
                0 < dx <= POS_LIMIT,
                0 < dy <= POS_LIMIT,
        ;
    }
    let d = dx * dy;
    let qx = floor_div(lerpedx, d);
    let qy = floor_div(lerpedy, d);
    proof {
        let bx = bilinear(
            topleft.x as int,
            topright.x as int,
            bottomleft.x as int,
            bottomright.x as int,
            cx as int,
            dx as int,
            cy as int,
            dy as int,
        );
        let by = bilinear(
            topleft.y as int,
            topright.y as int,
            bottomleft.y as int,
            bottomright.y as int,
            cx as int,
            dx as int,
            cy as int,
            dy as int,
        );
        lemma_bilinear_nested(
            topleft.x as int,
            topright.x as int,
            bottomleft.x as int,
            bottomright.x as int,
            cx as int,
            dx as int,
            cy as int,
            dy as int,
        );
        lemma_bilinear_nested(
            topleft.y as int,
            topright.y as int,
            bottomleft.y as int,
            bottomright.y as int,
            cx as int,
            dx as int,
            cy as int,
            dy as int,
        );
        assert(lerpedx == bx);
        assert(lerpedy == by);
        lemma_lerp_bounds(lerptop as int, lerpbottom as int, cy as int, dy as int, 3 * POS_LIMIT * lim);
        lemma_lerp_bounds(lerpleft as int, lerpright as int, cx as int, dx as int, 3 * POS_LIMIT * lim);
        lemma_div_magnitude(bx, dx * dy);
        lemma_div_magnitude(by, dx * dy);
    }
    Point { x: qx, y: qy }
}


/// The cursor at pixel `(x, y)` of a `width` by `height` monitor.
pub open spec fn cursor_at(x: i32, y: i32, width: u32, height: u32) -> NormalizedCursor {
    NormalizedCursor { x, y, width, height }
}

/// Each corner of the screen maps exactly onto its corner point.
pub proof fn lemma_skew_corners(
    top_left: Point,
    top_right: Point,
    bottom_left: Point,
    bottom_right: Point,
    width: u32,
    height: u32,
)
    requires
        width > 0,
        height > 0,
        width <= i32::MAX,
        height <= i32::MAX,
    ensures
        skew_point(top_left, top_right, bottom_left, bottom_right, cursor_at(0, 0, width, height))
            == top_left,
        skew_point(
            top_left,
            top_right,
            bottom_left,
            bottom_right,
            cursor_at(width as i32, 0, width, height),
        ) == top_right,
        skew_point(
            top_left,
            top_right,
            bottom_left,
            bottom_right,
            cursor_at(0, height as i32, width, height),
        ) == bottom_left,
        skew_point(
            top_left,
            top_right,
            bottom_left,
            bottom_right,
            cursor_at(width as i32, height as i32, width, height),
        ) == bottom_right,
{
    let w = width as int;
    let h = height as int;
    assert(w * h > 0) by (nonlinear_arith)
        requires
            w > 0,
            h > 0,
    ;
    assert forall|a: int, b: int, c: int, d: int|
        #![trigger bilinear(a, b, c, d, 0, w, 0, h)]
        #![trigger bilinear(a, b, c, d, w, w, 0, h)]
        #![trigger bilinear(a, b, c, d, 0, w, h, h)]
        #![trigger bilinear(a, b, c, d, w, w, h, h)]
        bilinear(a, b, c, d, 0, w, 0, h) / (w * h) == a && bilinear(a, b, c, d, w, w, 0, h) / (
        w * h) == b && bilinear(a, b, c, d, 0, w, h, h) / (w * h) == c && bilinear(
            a,
            b,
            c,
            d,
            w,
            w,
            h,
            h,
        ) / (w * h) == d by {
        assert(bilinear(a, b, c, d, 0, w, 0, h) == a * (w * h)) by (nonlinear_arith);
        assert(bilinear(a, b, c, d, w, w, 0, h) == b * (w * h)) by (nonlinear_arith);
        assert(bilinear(a, b, c, d, 0, w, h, h) == c * (w * h)) by (nonlinear_arith);
        assert(bilinear(a, b, c, d, w, w, h, h) == d * (w * h)) by (nonlinear_arith);
        vstd::arithmetic::div_mod::lemma_div_multiples_vanish(a, w * h);
        vstd::arithmetic::div_mod::lemma_div_multiples_vanish(b, w * h);
        vstd::arithmetic::div_mod::lemma_div_multiples_vanish(c, w * h);
        vstd::arithmetic::div_mod::lemma_div_multiples_vanish(d, w * h);
    }
}

/// The blend is symmetric under swapping the two axes of the screen.
proof fn lemma_bilinear_transpose(a: int, b: int, c: int, d: int, u: int, du: int, v: int, dv: int)
    ensures
        bilinear(a, b, c, d, u, du, v, dv) == bilinear(a, c, b, d, v, dv, u, du),
{
    assert(a * (du - u) * (dv - v) == a * (dv - v) * (du - u)) by (nonlinear_arith);
    assert(b * u * (dv - v) == b * (dv - v) * u) by (nonlinear_arith);
    assert(c * (du - u) * v == c * v * (du - u)) by (nonlinear_arith);
    assert(d * u * v == d * v * u) by (nonlinear_arith);
}

/// The magnitude of an integer.
pub open spec fn mag(x: int) -> int {
    if x < 0 {
        -x
    } else {
        x
    }
}

/// The blend is affine in `u`: a part that depends on `v` alone plus `u`
/// times the slope across at height `v`.
proof fn lemma_bilinear_affine_u(a: int, b: int, c: int, d: int, u: int, du: int, v: int, dv: int)
    ensures
        bilinear(a, b, c, d, u, du, v, dv) == a * du * (dv - v) + c * du * v + u * ((b - a) * (dv
            - v) + (d - c) * v),
{
    let q = dv - v;
    assert(a * (du - u) * q == a * du * q - u * (a * q)) by (nonlinear_arith);
    assert(b * u * q == u * (b * q)) by (nonlinear_arith);
    assert(c * (du - u) * v == c * du * v - u * (c * v)) by (nonlinear_arith);
    assert(d * u * v == u * (d * v)) by (nonlinear_arith);
    assert(u * (b * q) - u * (a * q) + u * (d * v) - u * (c * v) == u * ((b - a) * q + (d - c) * v))
        by (nonlinear_arith);
}

/// Moving along `u` alone, between any two positions, changes the blend by at
/// most `k * dv` per unit moved.
proof fn lemma_bilinear_move_u(a: int, b: int, c: int, d: int, u1: int, u2: int, du: int, v: int, dv: int, k: int)
    requires
        0 <= v <= dv,
        mag(b - a) <= k,
        mag(d - c) <= k,
    ensures
        mag(bilinear(a, b, c, d, u1, du, v, dv) - bilinear(a, b, c, d, u2, du, v, dv)) <= k * dv
            * mag(u1 - u2),
{
    lemma_bilinear_affine_u(a, b, c, d, u1, du, v, dv);
    lemma_bilinear_affine_u(a, b, c, d, u2, du, v, dv);
    let slope = (b - a) * (dv - v) + (d - c) * v;
    assert(-(k * dv) <= slope <= k * dv) by (nonlinear_arith)
        requires
            slope == (b - a) * (dv - v) + (d - c) * v,
            0 <= v <= dv,
            -k <= b - a <= k,
            -k <= d - c <= k,
    ;
    assert(u1 * slope - u2 * slope == (u1 - u2) * slope) by (nonlinear_arith);
    assert(mag((u1 - u2) * slope) <= k * dv * mag(u1 - u2)) by (nonlinear_arith)
        requires
            -(k * dv) <= slope <= k * dv,
            mag(u1 - u2) == if u1 - u2 < 0 { -(u1 - u2) } else { u1 - u2 },
            mag((u1 - u2) * slope) == if (u1 - u2) * slope < 0 { -((u1 - u2) * slope) } else { (u1 - u2) * slope },
    ;
}

/// Lipschitz continuity of the exact blend over the screen: between any two
/// cursor positions on it, the blend (times `du * dv`) changes by at most `k`
/// times the distance moved, each axis counted in its own fraction, when
/// every pair of neighbouring corners differs by at most `k`.
pub proof fn lemma_bilinear_lipschitz(
    a: int,
    b: int,
    c: int,
    d: int,
    u1: int,
    v1: int,
    u2: int,
    v2: int,
    du: int,
    dv: int,
    k: int,
)
    requires
        0 <= u1 <= du,
        0 <= u2 <= du,
        0 <= v1 <= dv,
        0 <= v2 <= dv,
        mag(b - a) <= k,
        mag(d - c) <= k,
        mag(c - a) <= k,
        mag(d - b) <= k,
    ensures
        mag(bilinear(a, b, c, d, u1, du, v1, dv) - bilinear(a, b, c, d, u2, du, v2, dv)) <= k * (
        mag(u1 - u2) * dv + mag(v1 - v2) * du),
{
    lemma_bilinear_move_u(a, b, c, d, u1, u2, du, v1, dv, k);
    lemma_bilinear_transpose(a, b, c, d, u2, du, v1, dv);
    lemma_bilinear_transpose(a, b, c, d, u2, du, v2, dv);
    lemma_bilinear_move_u(a, c, b, d, v1, v2, dv, u2, du, k);
    assert(k * dv * mag(u1 - u2) + k * du * mag(v1 - v2) == k * (mag(u1 - u2) * dv + mag(v1 - v2)
        * du)) by (nonlinear_arith);
}

/// Lipschitz continuity of `lerp_skew` over the screen: between any two
/// cursor positions on it, each coordinate of the blended point moves by at
/// most `k` times the distance moved (each axis as a fraction of the
/// screen), plus one grid unit of rounding; written here multiplied through
/// by `width * height`.
pub proof fn lemma_skew_lipschitz(
    top_left: Point,
    top_right: Point,
    bottom_left: Point,
    bottom_right: Point,
    c1: NormalizedCursor,
    c2: NormalizedCursor,
    k: int,
)
    requires
        top_left.within(ANCHOR_LIMIT as int),
        top_right.within(ANCHOR_LIMIT as int),
        bottom_left.within(ANCHOR_LIMIT as int),
        bottom_right.within(ANCHOR_LIMIT as int),
        c1.wf(),
        c2.width == c1.width,
        c2.height == c1.height,
        0 <= c1.x <= c1.width,
        0 <= c2.x <= c1.width,
        0 <= c1.y <= c1.height,
        0 <= c2.y <= c1.height,
        mag(top_right.x - top_left.x) <= k,
        mag(bottom_right.x - bottom_left.x) <= k,
        mag(bottom_left.x - top_left.x) <= k,
        mag(bottom_right.x - top_right.x) <= k,
        mag(top_right.y - top_left.y) <= k,
        mag(bottom_right.y - bottom_left.y) <= k,
        mag(bottom_left.y - top_left.y) <= k,
        mag(bottom_right.y - top_right.y) <= k,
    ensures
        ({
            let p1 = skew_point(top_left, top_right, bottom_left, bottom_right, c1);
            let p2 = skew_point(top_left, top_right, bottom_left, bottom_right, c2);
            let dd = c1.width * c1.height;
            let reach = k * (mag(c1.x - c2.x) * c1.height + mag(c1.y - c2.y) * c1.width);
            &&& mag(p1.x - p2.x) * dd <= reach + dd
            &&& mag(p1.y - p2.y) * dd <= reach + dd
        }),
{
    let (du, dv) = (c1.width as int, c1.height as int);
    let (u1, v1, u2, v2) = (c1.x as int, c1.y as int, c2.x as int, c2.y as int);
    let (ax, bx, cx, dx) = (top_left.x as int, top_right.x as int, bottom_left.x as int, bottom_right.x as int);
    let (ay, by, cy, dy) = (top_left.y as int, top_right.y as int, bottom_left.y as int, bottom_right.y as int);
    lemma_bilinear_lipschitz(ax, bx, cx, dx, u1, v1, u2, v2, du, dv, k);
    lemma_bilinear_lipschitz(ay, by, cy, dy, u1, v1, u2, v2, du, dv, k);
    lemma_skew_bounds(ax, bx, cx, dx, u1, du, v1, dv);
    lemma_skew_bounds(ax, bx, cx, dx, u2, du, v2, dv);
    lemma_skew_bounds(ay, by, cy, dy, u1, du, v1, dv);
    lemma_skew_bounds(ay, by, cy, dy, u2, du, v2, dv);
    let reach = k * (mag(u1 - u2) * dv + mag(v1 - v2) * du);
    lemma_floor_div_gap(bilinear(ax, bx, cx, dx, u1, du, v1, dv), bilinear(ax, bx, cx, dx, u2, du, v2, dv), reach, du * dv);
    lemma_floor_div_gap(bilinear(ay, by, cy, dy, u1, du, v1, dv), bilinear(ay, by, cy, dy, u2, du, v2, dv), reach, du * dv);
}

/// Two values within `m` of each other, rounded down by the same divisor,
/// land within `m / dd` plus one of each other.
proof fn lemma_floor_div_gap(x1: int, x2: int, m: int, dd: int)
    requires
        dd >= 1,
        mag(x1 - x2) <= m,
    ensures
        mag(x1 / dd - x2 / dd) * dd <= m + dd,
{
    vstd::arithmetic::div_mod::lemma_fundamental_div_mod(x1, dd);
    vstd::arithmetic::div_mod::lemma_fundamental_div_mod(x2, dd);
    let q1 = x1 / dd;
    let q2 = x2 / dd;
    let r1 = x1 % dd;
    let r2 = x2 % dd;
    assert(mag(q1 - q2) * dd <= m + dd) by (nonlinear_arith)
        requires
            x1 == dd * q1 + r1,
            x2 == dd * q2 + r2,
            0 <= r1 < dd,
            0 <= r2 < dd,
            -m <= x1 - x2 <= m,
            mag(q1 - q2) == if q1 - q2 < 0 { -(q1 - q2) } else { q1 - q2 },
    ;
}

} // verus!
