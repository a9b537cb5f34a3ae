//! How the cat leans towards the cursor: the bend of the arm, the skew of the
//! body and the parallax of the face, all as functions of the cursor alone.

use vstd::prelude::*;

use crate::geometry::{lerp_skew, skew_point, NormalizedCursor, Point, ANCHOR_LIMIT, SKEW_LIMIT};
use crate::shapes::Segment;

verus! {

/// Where the body outline starts, across.
pub const START_X: i128 = 200000;

/// Where the body outline starts, down.
pub const START_Y: i128 = -407000;

/// The arm's end point in the pose its handles were drawn for, across,
/// relative to the start of the body outline.
pub const ARM_X: i128 = -3634000;

/// The same, down.
pub const ARM_Y: i128 = 2338000;

/// Denominator of the parallax factors below.
pub const TF_SCALE_DEN: i128 = 10000;

/// How far the body follows the arm's lean, in parts of `TF_SCALE_DEN`.
pub const BODY_TF_SCALE: i128 = 400;

/// How far the eyes follow the arm's lean, in parts of `TF_SCALE_DEN`.
pub const EYE_TF_SCALE: i128 = 1200;

/// How far the mouth follows the arm's lean, in parts of `TF_SCALE_DEN`.
pub const MOUTH_TF_SCALE: i128 = 1050;

/// How far the mouse follows the arm's lean: all the way.
pub const MOUSE_TF_SCALE: i128 = 10000;

/// Largest magnitude of any coordinate of a pose (2^96).
pub const POSE_LIMIT: i128 = 0x1_0000_0000_0000_0000_0000_0000;

/// The arm's end point when the cursor is in the top-left corner of the
/// screen, and likewise for the other three corners.
pub open spec fn anchor_top_left() -> Point {
    Point { x: -1665000i128, y: 5405000i128 }
}

pub open spec fn anchor_top_right() -> Point {
    Point { x: -8363000i128, y: 2681000i128 }
}

pub open spec fn anchor_bottom_left() -> Point {
    Point { x: 2281000i128, y: 1676000i128 }
}

pub open spec fn anchor_bottom_right() -> Point {
    Point { x: -5605000i128, y: -51000i128 }
}

/// `base + slope * fraction`, with the cursor's horizontal fraction, rounded down.
pub open spec fn affine_across(base: int, slope: int, c: NormalizedCursor) -> int {
    base + (slope * c.x) / (c.width as int)
}

/// `p` scaled by `k / TF_SCALE_DEN`, each coordinate rounded down.
pub open spec fn scaled(p: Point, k: int) -> Point {
    Point { x: ((p.x * k) / (TF_SCALE_DEN as int)) as i128, y: ((p.y * k) / (TF_SCALE_DEN as int)) as i128 }
}

pub open spec fn plus(p: Point, q: Point) -> Point {
    Point { x: (p.x + q.x) as i128, y: (p.y + q.y) as i128 }
}

pub open spec fn minus(p: Point, q: Point) -> Point {
    Point { x: (p.x - q.x) as i128, y: (p.y - q.y) as i128 }
}

/// The deformed geometry of one frame.
#[derive(Clone, Copy, Debug, PartialEq, Eq, Structural)]
pub struct Pose {
    /// The end point of the arm, blended from the four anchors.
    pub paw: Point,
    /// The two control points of the curve from the shoulder to `paw`.
    pub reach_in: Point,
    pub reach_out: Point,
    /// The first control point of the curve from `paw` back up the body.
    pub elbow: Point,
    /// How far the arm's end moved from the designed pose.
    pub lean: Point,
    /// Translations of the body, eyes, mouth and mouse groups.
    pub body_offset: Point,
    pub eye_offset: Point,
    pub mouth_offset: Point,
    pub mouse_offset: Point,
}

/// The pose for a cursor position.
pub open spec fn spec_pose(c: NormalizedCursor) -> Pose {
    let paw = skew_point(
        anchor_top_left(),
        anchor_top_right(),
        anchor_bottom_left(),
        anchor_bottom_right(),
        c,
    );
    let arm = Point { x: ARM_X, y: ARM_Y };
    let handle_in = Point {
        x: affine_across(-2424000, 2000000, c) as i128,
        y: affine_across(2681000, -1600000, c) as i128,
    };
    let handle_out = Point {
        x: affine_across(-1090000, -1000000, c) as i128,
        y: affine_across(1732000, 2000000, c) as i128,
    };
    let lean = minus(paw, Point { x: (START_X + ARM_X) as i128, y: (START_Y + ARM_Y) as i128 });
    Pose {
        paw,
        reach_in: plus(paw, minus(handle_in, arm)),
        reach_out: plus(paw, minus(handle_out, arm)),
        elbow: Point {
            x: affine_across(-5165000, -1500000, c) as i128,
            y: affine_across(844000, -1000000, c) as i128,
        },
        lean,
        body_offset: scaled(lean, BODY_TF_SCALE as int),
        eye_offset: scaled(lean, EYE_TF_SCALE as int),
        mouth_offset: scaled(lean, MOUTH_TF_SCALE as int),
        mouse_offset: scaled(lean, MOUSE_TF_SCALE as int),
    }
}

impl Pose {
    /// Every coordinate lies within `POSE_LIMIT`.
    pub open spec fn wf(self) -> bool {
        &&& self.paw.within(POSE_LIMIT as int)
        &&& self.reach_in.within(POSE_LIMIT as int)
        &&& self.reach_out.within(POSE_LIMIT as int)
        &&& self.elbow.within(POSE_LIMIT as int)
        &&& self.lean.within(POSE_LIMIT as int)
        &&& self.body_offset.within(POSE_LIMIT as int)
        &&& self.eye_offset.within(POSE_LIMIT as int)
        &&& self.mouth_offset.within(POSE_LIMIT as int)
        &&& self.mouse_offset.within(POSE_LIMIT as int)
    }
}

/// `base + slope * x / width`, rounded down.
fn affine(base: i128, slope: i128, c: &NormalizedCursor) -> (r: i128)
    requires
        c.wf(),
        -0x100_0000 <= base <= 0x100_0000,
        -0x100_0000 <= slope <= 0x100_0000,
    ensures
        r == affine_across(base as int, slope as int, *c),
        -0x100_0000_0000_0000 <= r <= 0x100_0000_0000_0000,
{
    let x = c.x as i128;
    let w = c.width as i128;
    proof {
        lemma_affine_bounds(base as int, slope as int, *c);
        assert(-0x80_0000_0000_0000 <= slope * x <= 0x80_0000_0000_0000) by (nonlinear_arith)
            requires
                -0x100_0000 <= slope <= 0x100_0000,
                -0x8000_0000 <= x <= 0x8000_0000,
        ;
    }
    base + crate::geometry::floor_div(slope * x, w)
}

/// A point scaled by `k / TF_SCALE_DEN`, rounded down.
fn scale_point(p: Point, k: i128) -> (r: Point)
    requires
        p.within(POSE_LIMIT as int),
        0 <= k <= TF_SCALE_DEN,
    ensures
        r == scaled(p, k as int),
        r.within(POSE_LIMIT as int),
{
    proof {
        assert(-POSE_LIMIT * TF_SCALE_DEN <= p.x * k <= POSE_LIMIT * TF_SCALE_DEN) by (nonlinear_arith)
            requires
                -POSE_LIMIT <= p.x <= POSE_LIMIT,
                0 <= k <= TF_SCALE_DEN,
        ;
        assert(-POSE_LIMIT * TF_SCALE_DEN <= p.y * k <= POSE_LIMIT * TF_SCALE_DEN) by (nonlinear_arith)
            requires
                -POSE_LIMIT <= p.y <= POSE_LIMIT,
                0 <= k <= TF_SCALE_DEN,
        ;
        assert(-POSE_LIMIT <= (p.x * k) / (TF_SCALE_DEN as int) <= POSE_LIMIT) by (nonlinear_arith)
            requires
                -POSE_LIMIT * TF_SCALE_DEN <= p.x * k <= POSE_LIMIT * TF_SCALE_DEN,
        ;
        assert(-POSE_LIMIT <= (p.y * k) / (TF_SCALE_DEN as int) <= POSE_LIMIT) by (nonlinear_arith)
            requires
                -POSE_LIMIT * TF_SCALE_DEN <= p.y * k <= POSE_LIMIT * TF_SCALE_DEN,
        ;
    }
    let u = TF_SCALE_DEN;
    Point { x: crate::geometry::floor_div(p.x * k, u), y: crate::geometry::floor_div(p.y * k, u) }
}

/// Computes the pose for a cursor position.
pub fn pose(cursor: &NormalizedCursor) -> (r: Pose)
    requires
        cursor.wf(),
    ensures
        r == spec_pose(*cursor),
        r.wf(),
{
    let paw = lerp_skew(
        Point { x: -1665000, y: 5405000 },
        Point { x: -8363000, y: 2681000 },
        Point { x: 2281000, y: 1676000 },
        Point { x: -5605000, y: -51000 },
        cursor,
    );
    // The farther left the cursor, the farther right the paw reaches; only
    // the horizontal position bends the arm, as a vertical term twists the
    // curve's handles out of shape.
    let in_x = affine(-2424000, 2000000, cursor);
    let in_y = affine(2681000, -1600000, cursor);
    let out_x = affine(-1090000, -1000000, cursor);
    let out_y = affine(1732000, 2000000, cursor);
    let elbow_x = affine(-5165000, -1500000, cursor);
    let elbow_y = affine(844000, -1000000, cursor);
    let reach_in = Point { x: paw.x + (in_x - ARM_X), y: paw.y + (in_y - ARM_Y) };
    let reach_out = Point { x: paw.x + (out_x - ARM_X), y: paw.y + (out_y - ARM_Y) };
    let lean = Point { x: paw.x - (START_X + ARM_X), y: paw.y - (START_Y + ARM_Y) };
    let r = Pose {
        paw,
        reach_in,
        reach_out,
        elbow: Point { x: elbow_x, y: elbow_y },
        lean,
        body_offset: scale_point(lean, BODY_TF_SCALE),
        eye_offset: scale_point(lean, EYE_TF_SCALE),
        mouth_offset: scale_point(lean, MOUTH_TF_SCALE),
        mouse_offset: scale_point(lean, MOUSE_TF_SCALE),
    };
    r
}


/// The outline of the body and arm: from the shoulder down to the paw, which
/// follows the cursor, and round the back to the tail.
pub open spec fn body_outline_spec(p: Pose) -> Seq<Segment> {
    seq![
        Segment::MoveTo(Point { x: START_X, y: START_Y }),
        Segment::CubicTo(p.reach_in, p.reach_out, p.paw),
        Segment::CubicTo(p.elbow, Point { x: -985000i128, y: -5213000i128 }, Point { x: 2261000i128, y: -5721000i128 }),
        Segment::CubicTo(Point { x: 2732000i128, y: -6014000i128 }, Point { x: 3229000i128, y: -6891000i128 }, Point { x: 3514000i128, y: -6899000i128 }),
        Segment::CubicTo(Point { x: 3763000i128, y: -6887000i128 }, Point { x: 3999700i128, y: -6035000i128 }, Point { x: 4257000i128, y: -5603000i128 }),
        Segment::CubicTo(Point { x: 5875000i128, y: -5403000i128 }, Point { x: 7987000i128, y: -4278000i128 }, Point { x: 9310000i128, y: -3289000i128 }),
        Segment::CubicTo(Point { x: 9449000i128, y: -3200000i128 }, Point { x: 10763000i128, y: -4026000i128 }, Point { x: 11005000i128, y: -3912000i128 }),
        Segment::CubicTo(Point { x: 11182000i128, y: -3802000i128 }, Point { x: 11078000i128, y: -2014000i128 }, Point { x: 10467000i128, y: -976000i128 }),
        Segment::CubicTo(Point { x: 10996000i128, y: -160000i128 }, Point { x: 11772000i128, y: 874000i128 }, Point { x: 11793000i128, y: 2282000i128 }),
    ]
}

/// Where the filled body is closed off: a point held still against the body's
/// lean, so that the closing edge does not slide with it.
pub open spec fn body_close_point(p: Pose) -> Point {
    Point { x: (-1974000 - p.body_offset.x) as i128, y: (-450000 - p.body_offset.y) as i128 }
}

/// The outline of the body and arm, drawn as a stroke.
pub fn body_outline(p: &Pose) -> (r: Vec<Segment>)
    ensures
        r@ == body_outline_spec(*p),
{
    let mut path: Vec<Segment> = Vec::new();
    path.push(Segment::MoveTo(Point { x: START_X, y: START_Y }));
    path.push(Segment::CubicTo(p.reach_in, p.reach_out, p.paw));
    path.push(Segment::CubicTo(p.elbow, Point { x: -985000i128, y: -5213000i128 }, Point { x: 2261000i128, y: -5721000i128 }));
    path.push(Segment::CubicTo(Point { x: 2732000i128, y: -6014000i128 }, Point { x: 3229000i128, y: -6891000i128 }, Point { x: 3514000i128, y: -6899000i128 }));
    path.push(Segment::CubicTo(Point { x: 3763000i128, y: -6887000i128 }, Point { x: 3999700i128, y: -6035000i128 }, Point { x: 4257000i128, y: -5603000i128 }));
    path.push(Segment::CubicTo(Point { x: 5875000i128, y: -5403000i128 }, Point { x: 7987000i128, y: -4278000i128 }, Point { x: 9310000i128, y: -3289000i128 }));
    path.push(Segment::CubicTo(Point { x: 9449000i128, y: -3200000i128 }, Point { x: 10763000i128, y: -4026000i128 }, Point { x: 11005000i128, y: -3912000i128 }));
    path.push(Segment::CubicTo(Point { x: 11182000i128, y: -3802000i128 }, Point { x: 11078000i128, y: -2014000i128 }, Point { x: 10467000i128, y: -976000i128 }));
    path.push(Segment::CubicTo(Point { x: 10996000i128, y: -160000i128 }, Point { x: 11772000i128, y: 874000i128 }, Point { x: 11793000i128, y: 2282000i128 }));
    proof {
        assert(path@ =~= body_outline_spec(*p));
    }
    path
}

/// The body as a filled shape: the outline, then one straight edge back to
/// the start.
pub fn body_fill(p: &Pose) -> (r: Vec<Segment>)
    requires
        p.wf(),
    ensures
        r@ == body_outline_spec(*p) + seq![Segment::LineTo(body_close_point(*p)), Segment::Close],
{
    let mut path = body_outline(p);
    path.push(Segment::LineTo(Point { x: -1974000 - p.body_offset.x, y: -450000 - p.body_offset.y }));
    path.push(Segment::Close);
    proof {
        assert(path@ =~= body_outline_spec(*p) + seq![
            Segment::LineTo(body_close_point(*p)),
            Segment::Close,
        ]);
    }
    path
}

/// With the cursor in the top-left corner of the screen the paw sits exactly
/// on the top-left anchor, and in the bottom-right corner exactly on the
/// bottom-right anchor.
pub proof fn lemma_pose_corners(width: u32, height: u32)
    requires
        width > 0,
        height > 0,
        width <= i32::MAX,
        height <= i32::MAX,
    ensures
        spec_pose(crate::geometry::cursor_at(0, 0, width, height)).paw == anchor_top_left(),
        spec_pose(crate::geometry::cursor_at(width as i32, 0, width, height)).paw
            == anchor_top_right(),
        spec_pose(crate::geometry::cursor_at(0, height as i32, width, height)).paw
            == anchor_bottom_left(),
        spec_pose(crate::geometry::cursor_at(width as i32, height as i32, width, height)).paw
            == anchor_bottom_right(),
{
    crate::geometry::lemma_skew_corners(
        anchor_top_left(),
        anchor_top_right(),
        anchor_bottom_left(),
        anchor_bottom_right(),
        width,
        height,
    );
}

/// The arm's curve handles follow the cursor's horizontal fraction alone:
/// two cursors in the same column give the same handles relative to the paw.
pub proof fn lemma_arm_ignores_height(a: NormalizedCursor, b: NormalizedCursor)
    requires
        a.wf(),
        b.wf(),
        a.x == b.x,
        a.width == b.width,
    ensures
        spec_pose(a).elbow == spec_pose(b).elbow,
        spec_pose(a).reach_in.x - spec_pose(a).paw.x == spec_pose(b).reach_in.x - spec_pose(b).paw.x,
        spec_pose(a).reach_in.y - spec_pose(a).paw.y == spec_pose(b).reach_in.y - spec_pose(b).paw.y,
        spec_pose(a).reach_out.x - spec_pose(a).paw.x == spec_pose(b).reach_out.x - spec_pose(b).paw.x,
        spec_pose(a).reach_out.y - spec_pose(a).paw.y == spec_pose(b).reach_out.y - spec_pose(b).paw.y,
{
    lemma_pose_exact(a);
    lemma_pose_exact(b);
}

/// The casts in `spec_pose`'s paw and handles lose nothing.
proof fn lemma_pose_exact(c: NormalizedCursor)
    requires
        c.wf(),
    ensures
        -SKEW_LIMIT <= spec_pose(c).paw.x <= SKEW_LIMIT,
        -SKEW_LIMIT <= spec_pose(c).paw.y <= SKEW_LIMIT,
        spec_pose(c).reach_in.x == spec_pose(c).paw.x + affine_across(-2424000, 2000000, c) - ARM_X,
        spec_pose(c).reach_in.y == spec_pose(c).paw.y + affine_across(2681000, -1600000, c) - ARM_Y,
        spec_pose(c).reach_out.x == spec_pose(c).paw.x + affine_across(-1090000, -1000000, c) - ARM_X,
        spec_pose(c).reach_out.y == spec_pose(c).paw.y + affine_across(1732000, 2000000, c) - ARM_Y,
{
    let (u, du, v, dv) = (c.x as int, c.width as int, c.y as int, c.height as int);
    crate::geometry::lemma_skew_bounds(-1665000, -8363000, 2281000, -5605000, u, du, v, dv);
    crate::geometry::lemma_skew_bounds(5405000, 2681000, 1676000, -51000, u, du, v, dv);
    lemma_affine_bounds(-2424000, 2000000, c);
    lemma_affine_bounds(2681000, -1600000, c);
    lemma_affine_bounds(-1090000, -1000000, c);
    lemma_affine_bounds(1732000, 2000000, c);
}

proof fn lemma_affine_bounds(base: int, slope: int, c: NormalizedCursor)
    requires
        c.wf(),
        -0x100_0000 <= base <= 0x100_0000,
        -0x100_0000 <= slope <= 0x100_0000,
    ensures
        -0x100_0000_0000_0000 <= affine_across(base, slope, c) <= 0x100_0000_0000_0000,
{
    let x = c.x as int;
    assert(-0x80_0000_0000_0000 <= slope * x <= 0x80_0000_0000_0000) by (nonlinear_arith)
        requires
            -0x100_0000 <= slope <= 0x100_0000,
            -0x8000_0000 <= x <= 0x8000_0000,
    ;
    crate::geometry::lemma_div_magnitude(slope * x, c.width as int);
}

} // verus!
