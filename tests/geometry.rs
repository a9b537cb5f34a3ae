use bongo_cat::geometry::{floor_div, lerp, lerp_skew, pt, NormalizedCursor, Point};
use bongo_cat::pose::{body_fill, body_outline, pose};
use bongo_cat::shapes::Segment;

fn cursor(x: i32, y: i32, width: u32, height: u32) -> NormalizedCursor {
    NormalizedCursor { x, y, width, height }
}

#[test]
fn floor_div_rounds_down() {
    assert_eq!(floor_div(7, 2), 3);
    assert_eq!(floor_div(-7, 2), -4);
    assert_eq!(floor_div(-8, 2), -4);
    assert_eq!(floor_div(0, 5), 0);
}

#[test]
fn lerp_is_scaled_by_denominator() {
    assert_eq!(lerp(10, 20, 1, 4), 50);
    assert_eq!(lerp(10, 20, 0, 4), 40);
    assert_eq!(lerp(10, 20, 4, 4), 80);
    assert_eq!(lerp(-10, 10, 1, 2), 0);
}

#[test]
fn skew_reproduces_corners() {
    let tl = pt(-1665000, 5405000);
    let tr = pt(-8363000, 2681000);
    let bl = pt(2281000, 1676000);
    let br = pt(-5605000, -51000);
    assert_eq!(lerp_skew(tl, tr, bl, br, &cursor(0, 0, 1920, 1080)), tl);
    assert_eq!(lerp_skew(tl, tr, bl, br, &cursor(1920, 0, 1920, 1080)), tr);
    assert_eq!(lerp_skew(tl, tr, bl, br, &cursor(0, 1080, 1920, 1080)), bl);
    assert_eq!(lerp_skew(tl, tr, bl, br, &cursor(1920, 1080, 1920, 1080)), br);
}

#[test]
fn skew_blends_bilinearly() {
    let r = lerp_skew(pt(0, 0), pt(100, 0), pt(0, 100), pt(100, 100), &cursor(1, 1, 2, 2));
    assert_eq!(r, pt(50, 50));
    let r = lerp_skew(pt(0, 0), pt(100, 0), pt(0, 100), pt(100, 300), &cursor(1, 1, 2, 2));
    assert_eq!(r, pt(50, 100));
    // one third across, rounded down
    let r = lerp_skew(pt(0, 0), pt(-100, 0), pt(0, 0), pt(-100, 0), &cursor(1, 0, 3, 1));
    assert_eq!(r, pt(-34, 0));
}

#[test]
fn skew_moves_little_per_pixel() {
    let tl = pt(-1665000, 5405000);
    let tr = pt(-8363000, 2681000);
    let bl = pt(2281000, 1676000);
    let br = pt(-5605000, -51000);
    let mut prev = lerp_skew(tl, tr, bl, br, &cursor(0, 500, 1920, 1080));
    for x in 1..=1920 {
        let p = lerp_skew(tl, tr, bl, br, &cursor(x, 500, 1920, 1080));
        assert!((p.x - prev.x).abs() <= 7886000 / 1920 + 1);
        assert!((p.y - prev.y).abs() <= 2724000 / 1920 + 1);
        prev = p;
    }
}

#[test]
fn skew_tolerates_cursor_off_screen() {
    let tl = pt(-1665000, 5405000);
    let tr = pt(-8363000, 2681000);
    let bl = pt(2281000, 1676000);
    let br = pt(-5605000, -51000);
    let r = lerp_skew(tl, tr, bl, br, &cursor(-1920, 0, 1920, 1080));
    assert_eq!(r, pt(-1665000 - (-8363000 + 1665000), 5405000 - (2681000 - 5405000)));
    let _ = lerp_skew(tl, tr, bl, br, &cursor(i32::MAX, i32::MIN, 1, 1));
}

#[test]
fn pose_corner_paws() {
    assert_eq!(pose(&cursor(0, 0, 1920, 1080)).paw, pt(-1665000, 5405000));
    assert_eq!(pose(&cursor(1920, 1080, 1920, 1080)).paw, pt(-5605000, -51000));
}

#[test]
fn pose_arm_follows_horizontal_fraction_only() {
    let a = pose(&cursor(0, 0, 10000, 10000));
    assert_eq!(a.elbow, pt(-5165000, 844000));
    let b = pose(&cursor(10000, 0, 10000, 10000));
    assert_eq!(b.elbow, pt(-6665000, -156000));
    let c = pose(&cursor(10000, 70, 10000, 10000));
    assert_eq!(b.elbow, c.elbow);
    // handles relative to the paw: -2.424 + 2.0 x minus the designed arm end
    assert_eq!(a.reach_in, pt(a.paw.x + (-2424000 + 3634000), a.paw.y + (2681000 - 2338000)));
    assert_eq!(b.reach_out, pt(b.paw.x + (-2090000 + 3634000), b.paw.y + (3732000 - 2338000)));
}

#[test]
fn pose_parallax_offsets() {
    let p = pose(&cursor(0, 0, 100, 100));
    // paw (-1.665, 5.405) less the designed arm end (-3.434, 1.931)
    assert_eq!(p.lean, pt(1769000, 3474000));
    assert_eq!(p.eye_offset, pt(212280, 416880));
    assert_eq!(p.mouth_offset, pt(185745, 364770));
    assert_eq!(p.body_offset, pt(70760, 138960));
    assert_eq!(p.mouse_offset, p.lean);
}

#[test]
fn body_fill_closes_the_outline() {
    let p = pose(&cursor(50, 50, 10000, 10000));
    let outline = body_outline(&p);
    let fill = body_fill(&p);
    assert_eq!(outline.len(), 9);
    assert_eq!(fill.len(), 11);
    assert_eq!(&fill[..9], &outline[..]);
    assert_eq!(
        fill[9],
        Segment::LineTo(Point { x: -1974000 - p.body_offset.x, y: -450000 - p.body_offset.y })
    );
    assert_eq!(fill[10], Segment::Close);
    assert_eq!(outline[0], Segment::MoveTo(pt(200000, -407000)));
    assert_eq!(outline[1], Segment::CubicTo(p.reach_in, p.reach_out, p.paw));
}

#[test]
fn skew_midpoint_is_mean_of_anchors() {
    // (-3.338, 2.42775): the mean of the four anchors, exactly
    assert_eq!(pose(&cursor(1, 1, 2, 2)).paw, pt(-3338000, 2427750));
    assert_eq!(pose(&cursor(960, 540, 1920, 1080)).paw, pt(-3338000, 2427750));
}
