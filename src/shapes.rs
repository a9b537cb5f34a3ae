//! The vector shapes of the illustration, as fixed-point path segments.

use vstd::prelude::*;

use crate::geometry::{in_design, Point};

verus! {

/// One step of a path: a new sub-path, a straight line, a cubic bezier curve
/// with two control points and an end point, or closing the sub-path.
#[derive(Clone, Copy, Debug, PartialEq, Eq, Structural)]
pub enum Segment {
    MoveTo(Point),
    LineTo(Point),
    CubicTo(Point, Point, Point),
    Close,
}

/// Every point the segment names lies on the canvas.
pub open spec fn segment_in_design(s: Segment) -> bool {
    match s {
        Segment::MoveTo(p) => in_design(p),
        Segment::LineTo(p) => in_design(p),
        Segment::CubicTo(c1, c2, p) => in_design(c1) && in_design(c2) && in_design(p),
        Segment::Close => true,
    }
}

/// The path opens with a move and stays on the canvas.
pub open spec fn path_well_formed(s: Seq<Segment>) -> bool {
    &&& s.len() > 0
    &&& s[0] is MoveTo
    &&& forall|i: int| 0 <= i < s.len() ==> segment_in_design(#[trigger] s[i])
}

fn move_to(x: i128, y: i128) -> (r: Segment)
    ensures
        r == mv(x as int, y as int),
{
    Segment::MoveTo(Point { x, y })
}

fn line_to(x: i128, y: i128) -> (r: Segment)
    ensures
        r == ln(x as int, y as int),
{
    Segment::LineTo(Point { x, y })
}

fn cubic_to(x1: i128, y1: i128, x2: i128, y2: i128, x: i128, y: i128) -> (r: Segment)
    ensures
        r == cb(x1 as int, y1 as int, x2 as int, y2 as int, x as int, y as int),
{
    Segment::CubicTo(Point { x: x1, y: y1 }, Point { x: x2, y: y2 }, Point { x, y })
}

/// Appends a segment that stays on the canvas.
fn push_in(path: &mut Vec<Segment>, s: Segment)
    requires
        old(path)@.len() > 0 ==> path_well_formed(old(path)@),
        old(path)@.len() == 0 ==> s is MoveTo,
        segment_in_design(s),
    ensures
        final(path)@ == old(path)@.push(s),
        path_well_formed(final(path)@),
{
    path.push(s);
    proof {
        assert forall|i: int| 0 <= i < path@.len() implies segment_in_design(#[trigger] path@[i]) by {
            if i < old(path)@.len() {
                assert(path@[i] == old(path)@[i]);
            }
        }
    }
}

/// A move to `(x, y)`.
pub open spec fn mv(x: int, y: int) -> Segment {
    Segment::MoveTo(Point { x: x as i128, y: y as i128 })
}

/// A line to `(x, y)`.
pub open spec fn ln(x: int, y: int) -> Segment {
    Segment::LineTo(Point { x: x as i128, y: y as i128 })
}

/// A cubic curve through controls `(x1, y1)` and `(x2, y2)` to `(x, y)`.
pub open spec fn cb(x1: int, y1: int, x2: int, y2: int, x: int, y: int) -> Segment {
    Segment::CubicTo(
        Point { x: x1 as i128, y: y1 as i128 },
        Point { x: x2 as i128, y: y2 as i128 },
        Point { x: x as i128, y: y as i128 },
    )
}

/// The segments of `eyes`.
pub open spec fn eyes_path() -> Seq<Segment> {
    seq![
        mv(1247000, -2605000),
        cb(1250000, -2630000, 1273000, -2981000, 1551000, -2979000),
        cb(1791000, -2976000, 1836000, -2693000, 1831000, -2589000),
        cb(1836000, -2359000, 1662000, -2239000, 1540000, -2239000),
        cb(1436000, -2237000, 1246000, -2336000, 1247000, -2604000),
        mv(5811000, -1094000),
        cb(5813000, -1276000, 5934000, -1531000, 6133000, -1529000),
        cb(6356000, -1530000, 6455000, -1276000, 6456000, -1081000),
        cb(6465000, -877000, 6314000, -687000, 6142000, -693000),
        cb(5978000, -688000, 5807000, -849000, 5813000, -1094000),
        Segment::Close,
    ]
}

/// Both eyes, the left one open and the right one closed.
pub fn eyes() -> (r: Vec<Segment>)
    ensures
        r@ == eyes_path(),
        path_well_formed(r@),
{
    let mut p: Vec<Segment> = Vec::new();
    push_in(&mut p, move_to(1247000, -2605000));
    push_in(&mut p, cubic_to(1250000, -2630000, 1273000, -2981000, 1551000, -2979000));
    push_in(&mut p, cubic_to(1791000, -2976000, 1836000, -2693000, 1831000, -2589000));
    push_in(&mut p, cubic_to(1836000, -2359000, 1662000, -2239000, 1540000, -2239000));
    push_in(&mut p, cubic_to(1436000, -2237000, 1246000, -2336000, 1247000, -2604000));
    push_in(&mut p, move_to(5811000, -1094000));
    push_in(&mut p, cubic_to(5813000, -1276000, 5934000, -1531000, 6133000, -1529000));
    push_in(&mut p, cubic_to(6356000, -1530000, 6455000, -1276000, 6456000, -1081000));
    push_in(&mut p, cubic_to(6465000, -877000, 6314000, -687000, 6142000, -693000));
    push_in(&mut p, cubic_to(5978000, -688000, 5807000, -849000, 5813000, -1094000));
    push_in(&mut p, Segment::Close);
    proof {
        assert(p@ =~= eyes_path());
    }
    p
}

/// The segments of `mouth`.
pub open spec fn mouth_path() -> Seq<Segment> {
    seq![
        mv(2529000, -2441000),
        cb(2521000, -2191000, 2897000, -1800000, 3331000, -2133000),
        cb(3544000, -1458000, 4132000, -1757000, 4281000, -2005000),
        cb(4313000, -2046000, 4308000, -2080000, 4291000, -2095000),
        cb(4196000, -2163000, 4085000, -1867000, 3709000, -1884000),
        cb(3438000, -1889000, 3431000, -2180000, 3418000, -2217000),
        cb(3406000, -2273000, 3363000, -2284000, 3320000, -2258000),
        cb(3287000, -2245000, 3191000, -2091000, 2919000, -2165000),
        cb(2715000, -2260000, 2681000, -2417000, 2659000, -2483000),
        cb(2630000, -2602000, 2527000, -2584000, 2529000, -2440000),
    ]
}

/// The mouth.
pub fn mouth() -> (r: Vec<Segment>)
    ensures
        r@ == mouth_path(),
        path_well_formed(r@),
{
    let mut p: Vec<Segment> = Vec::new();
    push_in(&mut p, move_to(2529000, -2441000));
    push_in(&mut p, cubic_to(2521000, -2191000, 2897000, -1800000, 3331000, -2133000));
    push_in(&mut p, cubic_to(3544000, -1458000, 4132000, -1757000, 4281000, -2005000));
    push_in(&mut p, cubic_to(4313000, -2046000, 4308000, -2080000, 4291000, -2095000));
    push_in(&mut p, cubic_to(4196000, -2163000, 4085000, -1867000, 3709000, -1884000));
    push_in(&mut p, cubic_to(3438000, -1889000, 3431000, -2180000, 3418000, -2217000));
    push_in(&mut p, cubic_to(3406000, -2273000, 3363000, -2284000, 3320000, -2258000));
    push_in(&mut p, cubic_to(3287000, -2245000, 3191000, -2091000, 2919000, -2165000));
    push_in(&mut p, cubic_to(2715000, -2260000, 2681000, -2417000, 2659000, -2483000));
    push_in(&mut p, cubic_to(2630000, -2602000, 2527000, -2584000, 2529000, -2440000));
    proof {
        assert(p@ =~= mouth_path());
    }
    p
}

/// The segments of `table`.
pub open spec fn table_path() -> Seq<Segment> {
    seq![
        mv(-9766000, -1696000),
        ln(14889000, 2846000),
        ln(14889000, 6821000),
        ln(-9766000, 6854000),
        Segment::Close,
    ]
}

/// The table top.
pub fn table() -> (r: Vec<Segment>)
    ensures
        r@ == table_path(),
        path_well_formed(r@),
{
    let mut p: Vec<Segment> = Vec::new();
    push_in(&mut p, move_to(-9766000, -1696000));
    push_in(&mut p, line_to(14889000, 2846000));
    push_in(&mut p, line_to(14889000, 6821000));
    push_in(&mut p, line_to(-9766000, 6854000));
    push_in(&mut p, Segment::Close);
    proof {
        assert(p@ =~= table_path());
    }
    p
}

/// The segments of `mousepad`.
pub open spec fn mousepad_path() -> Seq<Segment> {
    seq![
        mv(-1141000, 5256000),
        cb(-1356000, 5470000, -1763000, 5471000, -2044000, 5357000),
        ln(-8169000, 2876000),
        cb(-8286000, 2829000, -8330000, 2595000, -8240000, 2506000),
        ln(-5722000, 24000),
        cb(-5571000, -125000, -5297000, -103000, -5090000, -60000),
        ln(2032000, 1425000),
        cb(2195000, 1459000, 2377000, 1754000, 2259000, 1872000),
        Segment::Close,
    ]
}

/// The mouse pad.
pub fn mousepad() -> (r: Vec<Segment>)
    ensures
        r@ == mousepad_path(),
        path_well_formed(r@),
{
    let mut p: Vec<Segment> = Vec::new();
    push_in(&mut p, move_to(-1141000, 5256000));
    push_in(&mut p, cubic_to(-1356000, 5470000, -1763000, 5471000, -2044000, 5357000));
    push_in(&mut p, line_to(-8169000, 2876000));
    push_in(&mut p, cubic_to(-8286000, 2829000, -8330000, 2595000, -8240000, 2506000));
    push_in(&mut p, line_to(-5722000, 24000));
    push_in(&mut p, cubic_to(-5571000, -125000, -5297000, -103000, -5090000, -60000));
    push_in(&mut p, line_to(2032000, 1425000));
    push_in(&mut p, cubic_to(2195000, 1459000, 2377000, 1754000, 2259000, 1872000));
    push_in(&mut p, Segment::Close);
    proof {
        assert(p@ =~= mousepad_path());
    }
    p
}

/// The segments of `mouse`.
pub open spec fn mouse_path() -> Seq<Segment> {
    seq![
        mv(-4403000, 2977000),
        cb(-4504000, 2931000, -4856000, 2379000, -4414000, 1363000),
        cb(-4079000, 878000, -3362000, 161000, -2463000, 477000),
        cb(-1976000, 671000, -1411000, 1452000, -1976000, 2319000),
        cb(-2517000, 3077000, -3355000, 3721000, -4400000, 2975000),
        ln(-3709000, 2056000),
        Segment::Close,
    ]
}

/// The body of the mouse.
pub fn mouse() -> (r: Vec<Segment>)
    ensures
        r@ == mouse_path(),
        path_well_formed(r@),
{
    let mut p: Vec<Segment> = Vec::new();
    push_in(&mut p, move_to(-4403000, 2977000));
    push_in(&mut p, cubic_to(-4504000, 2931000, -4856000, 2379000, -4414000, 1363000));
    push_in(&mut p, cubic_to(-4079000, 878000, -3362000, 161000, -2463000, 477000));
    push_in(&mut p, cubic_to(-1976000, 671000, -1411000, 1452000, -1976000, 2319000));
    push_in(&mut p, cubic_to(-2517000, 3077000, -3355000, 3721000, -4400000, 2975000));
    push_in(&mut p, line_to(-3709000, 2056000));
    push_in(&mut p, Segment::Close);
    proof {
        assert(p@ =~= mouse_path());
    }
    p
}

/// The segments of `mouse_wheel`.
pub open spec fn mouse_wheel_path() -> Seq<Segment> {
    seq![
        mv(-4107000, 2429000),
        cb(-4070000, 2375000, -3996000, 2346000, -3950000, 2376000),
        cb(-3910000, 2403000, -3907000, 2481000, -3950000, 2542000),
        cb(-4017000, 2633000, -4077000, 2648000, -4129000, 2610000),
        cb(-4174000, 2578000, -4167000, 2498000, -4107000, 2429000),
        Segment::Close,
    ]
}

/// The scroll wheel of the mouse.
pub fn mouse_wheel() -> (r: Vec<Segment>)
    ensures
        r@ == mouse_wheel_path(),
        path_well_formed(r@),
{
    let mut p: Vec<Segment> = Vec::new();
    push_in(&mut p, move_to(-4107000, 2429000));
    push_in(&mut p, cubic_to(-4070000, 2375000, -3996000, 2346000, -3950000, 2376000));
    push_in(&mut p, cubic_to(-3910000, 2403000, -3907000, 2481000, -3950000, 2542000));
    push_in(&mut p, cubic_to(-4017000, 2633000, -4077000, 2648000, -4129000, 2610000));
    push_in(&mut p, cubic_to(-4174000, 2578000, -4167000, 2498000, -4107000, 2429000));
    push_in(&mut p, Segment::Close);
    proof {
        assert(p@ =~= mouse_wheel_path());
    }
    p
}

/// The segments of `mouse_button_left`.
pub open spec fn mouse_button_left_path() -> Seq<Segment> {
    seq![
        mv(-4399000, 2976000),
        ln(-3537000, 1828000),
        ln(-2182000, 2577000),
        cb(-2577000, 3037000, -3354000, 3721000, -4401000, 2976000),
    ]
}

/// The primary button of the mouse, drawn when it is held down.
pub fn mouse_button_left() -> (r: Vec<Segment>)
    ensures
        r@ == mouse_button_left_path(),
        path_well_formed(r@),
{
    let mut p: Vec<Segment> = Vec::new();
    push_in(&mut p, move_to(-4399000, 2976000));
    push_in(&mut p, line_to(-3537000, 1828000));
    push_in(&mut p, line_to(-2182000, 2577000));
    push_in(&mut p, cubic_to(-2577000, 3037000, -3354000, 3721000, -4401000, 2976000));
    proof {
        assert(p@ =~= mouse_button_left_path());
    }
    p
}

/// The segments of `mouse_button_right`.
pub open spec fn mouse_button_right_path() -> Seq<Segment> {
    seq![
        mv(-4402000, 2975000),
        ln(-3539000, 1820000),
        ln(-4361000, 1304000),
        cb(-4574000, 1586000, -4821000, 2562000, -4406000, 2978000),
        Segment::Close,
    ]
}

/// The secondary button of the mouse, drawn when it is held down.
pub fn mouse_button_right() -> (r: Vec<Segment>)
    ensures
        r@ == mouse_button_right_path(),
        path_well_formed(r@),
{
    let mut p: Vec<Segment> = Vec::new();
    push_in(&mut p, move_to(-4402000, 2975000));
    push_in(&mut p, line_to(-3539000, 1820000));
    push_in(&mut p, line_to(-4361000, 1304000));
    push_in(&mut p, cubic_to(-4574000, 1586000, -4821000, 2562000, -4406000, 2978000));
    push_in(&mut p, Segment::Close);
    proof {
        assert(p@ =~= mouse_button_right_path());
    }
    p
}

/// The segments of `left_hand`.
pub open spec fn left_hand_path() -> Seq<Segment> {
    seq![
        mv(7063000, 1350000),
        cb(6898000, 293000, 6467000, -2050000, 7581000, -2295000),
        cb(8715000, -2570000, 9464000, -1238000, 9717000, -15000),
    ]
}

/// The outline of the arm resting over the keyboard.
pub fn left_hand() -> (r: Vec<Segment>)
    ensures
        r@ == left_hand_path(),
        path_well_formed(r@),
{
    let mut p: Vec<Segment> = Vec::new();
    push_in(&mut p, move_to(7063000, 1350000));
    push_in(&mut p, cubic_to(6898000, 293000, 6467000, -2050000, 7581000, -2295000));
    push_in(&mut p, cubic_to(8715000, -2570000, 9464000, -1238000, 9717000, -15000));
    proof {
        assert(p@ =~= left_hand_path());
    }
    p
}

/// The segments of `paws`.
pub open spec fn paws_path() -> Seq<Segment> {
    seq![
        mv(7848000, -1372000),
        cb(7983000, -1405000, 8068000, -1284000, 8097000, -1163000),
        cb(8116000, -1090000, 8138000, -897000, 7981000, -845000),
        cb(7837000, -816000, 7755000, -974000, 7725000, -1073000),
        cb(7696000, -1168000, 7713000, -1332000, 7848000, -1372000),
        Segment::Close,
        mv(7459000, -694000),
        cb(7652000, -725000, 7697000, -489000, 7706000, -434000),
        cb(7722000, -338000, 7706000, -112000, 7506000, -96000),
        cb(7363000, -81000, 7283000, -230000, 7267000, -364000),
        cb(7245000, -498000, 7303000, -677000, 7458000, -693000),
        Segment::Close,
        mv(8506000, -792000),
        cb(8658000, -819000, 8780000, -692000, 8802000, -518000),
        cb(8824000, -344000, 8734000, -204000, 8613000, -186000),
        cb(8492000, -168000, 8400000, -262000, 8356000, -438000),
        cb(8312000, -614000, 8388000, -767000, 8503000, -792000),
        Segment::Close,
        mv(8093000, -164000),
        cb(8319000, -204000, 8520000, 60000, 8571000, 271000),
        cb(8622000, 482000, 8634000, 944000, 8327000, 975000),
        cb(8020000, 1006000, 7877000, 642000, 7834000, 451000),
        cb(7791000, 260000, 7836000, -100000, 8085000, -161000),
        Segment::Close,
    ]
}

/// The four pads of the paw resting over the keyboard.
pub fn paws() -> (r: Vec<Segment>)
    ensures
        r@ == paws_path(),
        path_well_formed(r@),
{
    let mut p: Vec<Segment> = Vec::new();
    push_in(&mut p, move_to(7848000, -1372000));
    push_in(&mut p, cubic_to(7983000, -1405000, 8068000, -1284000, 8097000, -1163000));
    push_in(&mut p, cubic_to(8116000, -1090000, 8138000, -897000, 7981000, -845000));
    push_in(&mut p, cubic_to(7837000, -816000, 7755000, -974000, 7725000, -1073000));
    push_in(&mut p, cubic_to(7696000, -1168000, 7713000, -1332000, 7848000, -1372000));
    push_in(&mut p, Segment::Close);
    push_in(&mut p, move_to(7459000, -694000));
    push_in(&mut p, cubic_to(7652000, -725000, 7697000, -489000, 7706000, -434000));
    push_in(&mut p, cubic_to(7722000, -338000, 7706000, -112000, 7506000, -96000));
    push_in(&mut p, cubic_to(7363000, -81000, 7283000, -230000, 7267000, -364000));
    push_in(&mut p, cubic_to(7245000, -498000, 7303000, -677000, 7458000, -693000));
    push_in(&mut p, Segment::Close);
    push_in(&mut p, move_to(8506000, -792000));
    push_in(&mut p, cubic_to(8658000, -819000, 8780000, -692000, 8802000, -518000));
    push_in(&mut p, cubic_to(8824000, -344000, 8734000, -204000, 8613000, -186000));
    push_in(&mut p, cubic_to(8492000, -168000, 8400000, -262000, 8356000, -438000));
    push_in(&mut p, cubic_to(8312000, -614000, 8388000, -767000, 8503000, -792000));
    push_in(&mut p, Segment::Close);
    push_in(&mut p, move_to(8093000, -164000));
    push_in(&mut p, cubic_to(8319000, -204000, 8520000, 60000, 8571000, 271000));
    push_in(&mut p, cubic_to(8622000, 482000, 8634000, 944000, 8327000, 975000));
    push_in(&mut p, cubic_to(8020000, 1006000, 7877000, 642000, 7834000, 451000));
    push_in(&mut p, cubic_to(7791000, 260000, 7836000, -100000, 8085000, -161000));
    push_in(&mut p, Segment::Close);
    proof {
        assert(p@ =~= paws_path());
    }
    p
}

/// The segments of `table_line_left`.
pub open spec fn table_line_left_path() -> Seq<Segment> {
    seq![
        mv(-9770000, -1696000),
        ln(2992000, 647000),
    ]
}

/// The table edge to the left of the cat.
pub fn table_line_left() -> (r: Vec<Segment>)
    ensures
        r@ == table_line_left_path(),
        path_well_formed(r@),
{
    let mut p: Vec<Segment> = Vec::new();
    push_in(&mut p, move_to(-9770000, -1696000));
    push_in(&mut p, line_to(2992000, 647000));
    proof {
        assert(p@ =~= table_line_left_path());
    }
    p
}

/// The segments of `table_line_right`.
pub open spec fn table_line_right_path() -> Seq<Segment> {
    seq![
        mv(2995000, 643000),
        ln(14892000, 2852000),
    ]
}

/// The table edge to the right of the cat.
pub fn table_line_right() -> (r: Vec<Segment>)
    ensures
        r@ == table_line_right_path(),
        path_well_formed(r@),
{
    let mut p: Vec<Segment> = Vec::new();
    push_in(&mut p, move_to(2995000, 643000));
    push_in(&mut p, line_to(14892000, 2852000));
    proof {
        assert(p@ =~= table_line_right_path());
    }
    p
}

/// The segments of `key_space`.
pub open spec fn key_space_path() -> Seq<Segment> {
    seq![
        mv(4256000, 1406000),
        ln(5863000, 1787000),
        cb(5971000, 1799000, 6046000, 1866000, 5983000, 1941000),
        ln(5546000, 2669000),
        cb(5488000, 2753000, 5392000, 2778000, 5317000, 2757000),
        ln(3560000, 2286000),
        cb(3498000, 2265000, 3473000, 2199000, 3509000, 2134000),
        ln(4066000, 1461000),
        cb(4107000, 1409000, 4151000, 1385000, 4257000, 1406000),
        Segment::Close,
    ]
}

/// The space bar.
pub fn key_space() -> (r: Vec<Segment>)
    ensures
        r@ == key_space_path(),
        path_well_formed(r@),
{
    let mut p: Vec<Segment> = Vec::new();
    push_in(&mut p, move_to(4256000, 1406000));
    push_in(&mut p, line_to(5863000, 1787000));
    push_in(&mut p, cubic_to(5971000, 1799000, 6046000, 1866000, 5983000, 1941000));
    push_in(&mut p, line_to(5546000, 2669000));
    push_in(&mut p, cubic_to(5488000, 2753000, 5392000, 2778000, 5317000, 2757000));
    push_in(&mut p, line_to(3560000, 2286000));
    push_in(&mut p, cubic_to(3498000, 2265000, 3473000, 2199000, 3509000, 2134000));
    push_in(&mut p, line_to(4066000, 1461000));
    push_in(&mut p, cubic_to(4107000, 1409000, 4151000, 1385000, 4257000, 1406000));
    push_in(&mut p, Segment::Close);
    proof {
        assert(p@ =~= key_space_path());
    }
    p
}

/// The segments of `key_d`.
pub open spec fn key_d_path() -> Seq<Segment> {
    seq![
        mv(6528000, 1925000),
        ln(7398000, 2135000),
        cb(7474000, 2154000, 7500000, 2204000, 7462000, 2271000),
        ln(7085000, 3033000),
        cb(7021000, 3110000, 6955000, 3124000, 6848000, 3103000),
        ln(5978000, 2900000),
        cb(5912000, 2865000, 5887000, 2820000, 5905000, 2744000),
        ln(6347000, 1990000),
        cb(6381000, 1928000, 6458000, 1907000, 6528000, 1923000),
        Segment::Close,
        mv(7165000, 2268000),
        ln(6859000, 2911000),
        cb(6353000, 2810000, 6234000, 2726000, 6258000, 2561000),
        cb(6298000, 2380000, 6375000, 2286000, 6483000, 2204000),
        cb(6632000, 2075000, 6963000, 2105000, 7165000, 2262000),
        Segment::Close,
    ]
}

/// The key cap labelled d.
pub fn key_d() -> (r: Vec<Segment>)
    ensures
        r@ == key_d_path(),
        path_well_formed(r@),
{
    let mut p: Vec<Segment> = Vec::new();
    push_in(&mut p, move_to(6528000, 1925000));
    push_in(&mut p, line_to(7398000, 2135000));
    push_in(&mut p, cubic_to(7474000, 2154000, 7500000, 2204000, 7462000, 2271000));
    push_in(&mut p, line_to(7085000, 3033000));
    push_in(&mut p, cubic_to(7021000, 3110000, 6955000, 3124000, 6848000, 3103000));
    push_in(&mut p, line_to(5978000, 2900000));
    push_in(&mut p, cubic_to(5912000, 2865000, 5887000, 2820000, 5905000, 2744000));
    push_in(&mut p, line_to(6347000, 1990000));
    push_in(&mut p, cubic_to(6381000, 1928000, 6458000, 1907000, 6528000, 1923000));
    push_in(&mut p, Segment::Close);
    push_in(&mut p, move_to(7165000, 2268000));
    push_in(&mut p, line_to(6859000, 2911000));
    push_in(&mut p, cubic_to(6353000, 2810000, 6234000, 2726000, 6258000, 2561000));
    push_in(&mut p, cubic_to(6298000, 2380000, 6375000, 2286000, 6483000, 2204000));
    push_in(&mut p, cubic_to(6632000, 2075000, 6963000, 2105000, 7165000, 2262000));
    push_in(&mut p, Segment::Close);
    proof {
        assert(p@ =~= key_d_path());
    }
    p
}

/// The segments of `key_s`.
pub open spec fn key_s_path() -> Seq<Segment> {
    seq![
        mv(8120000, 2307000),
        ln(9019000, 2524000),
        cb(9121000, 2554000, 9118000, 2645000, 9099000, 2689000),
        ln(8763000, 3484000),
        cb(8733000, 3545000, 8681000, 3586000, 8592000, 3570000),
        ln(7637000, 3343000),
        cb(7573000, 3325000, 7491000, 3276000, 7518000, 3154000),
        ln(7885000, 2416000),
        cb(7936000, 2330000, 8029000, 2282000, 8120000, 2304000),
        Segment::Close,
        mv(8706000, 2812000),
        cb(8775000, 2572000, 8389000, 2312000, 8205000, 2555000),
        cb(8142000, 2708000, 8162000, 2825000, 8363000, 2982000),
        cb(8622000, 3168000, 8462000, 3359000, 8424000, 3369000),
        cb(8294000, 3415000, 8159000, 3421000, 7994000, 3263000),
    ]
}

/// The key cap labelled s.
pub fn key_s() -> (r: Vec<Segment>)
    ensures
        r@ == key_s_path(),
        path_well_formed(r@),
{
    let mut p: Vec<Segment> = Vec::new();
    push_in(&mut p, move_to(8120000, 2307000));
    push_in(&mut p, line_to(9019000, 2524000));
    push_in(&mut p, cubic_to(9121000, 2554000, 9118000, 2645000, 9099000, 2689000));
    push_in(&mut p, line_to(8763000, 3484000));
    push_in(&mut p, cubic_to(8733000, 3545000, 8681000, 3586000, 8592000, 3570000));
    push_in(&mut p, line_to(7637000, 3343000));
    push_in(&mut p, cubic_to(7573000, 3325000, 7491000, 3276000, 7518000, 3154000));
    push_in(&mut p, line_to(7885000, 2416000));
    push_in(&mut p, cubic_to(7936000, 2330000, 8029000, 2282000, 8120000, 2304000));
    push_in(&mut p, Segment::Close);
    push_in(&mut p, move_to(8706000, 2812000));
    push_in(&mut p, cubic_to(8775000, 2572000, 8389000, 2312000, 8205000, 2555000));
    push_in(&mut p, cubic_to(8142000, 2708000, 8162000, 2825000, 8363000, 2982000));
    push_in(&mut p, cubic_to(8622000, 3168000, 8462000, 3359000, 8424000, 3369000));
    push_in(&mut p, cubic_to(8294000, 3415000, 8159000, 3421000, 7994000, 3263000));
    proof {
        assert(p@ =~= key_s_path());
    }
    p
}

/// The segments of `key_a`.
pub open spec fn key_a_path() -> Seq<Segment> {
    seq![
        mv(9622000, 2667000),
        cb(9925300, 2745300, 10228700, 2823700, 10532000, 2902000),
        cb(10615000, 2928000, 10658000, 2968000, 10643000, 3041000),
        ln(10393000, 3894000),
        cb(10370000, 3967000, 10286000, 3995000, 10210000, 3981000),
        ln(9245000, 3740000),
        cb(9156000, 3715000, 9125000, 3640000, 9140000, 3574000),
        ln(9450000, 2755000),
        cb(9479000, 2676000, 9577000, 2663000, 9619000, 2667000),
        Segment::Close,
        mv(9658000, 2794000),
        ln(9770000, 3772000),
        ln(10403000, 3025000),
        ln(10130000, 3344000),
        ln(9914000, 3208000),
    ]
}

/// The key cap labelled a.
pub fn key_a() -> (r: Vec<Segment>)
    ensures
        r@ == key_a_path(),
        path_well_formed(r@),
{
    let mut p: Vec<Segment> = Vec::new();
    push_in(&mut p, move_to(9622000, 2667000));
    push_in(&mut p, cubic_to(9925300, 2745300, 10228700, 2823700, 10532000, 2902000));
    push_in(&mut p, cubic_to(10615000, 2928000, 10658000, 2968000, 10643000, 3041000));
    push_in(&mut p, line_to(10393000, 3894000));
    push_in(&mut p, cubic_to(10370000, 3967000, 10286000, 3995000, 10210000, 3981000));
    push_in(&mut p, line_to(9245000, 3740000));
    push_in(&mut p, cubic_to(9156000, 3715000, 9125000, 3640000, 9140000, 3574000));
    push_in(&mut p, line_to(9450000, 2755000));
    push_in(&mut p, cubic_to(9479000, 2676000, 9577000, 2663000, 9619000, 2667000));
    push_in(&mut p, Segment::Close);
    push_in(&mut p, move_to(9658000, 2794000));
    push_in(&mut p, line_to(9770000, 3772000));
    push_in(&mut p, line_to(10403000, 3025000));
    push_in(&mut p, line_to(10130000, 3344000));
    push_in(&mut p, line_to(9914000, 3208000));
    proof {
        assert(p@ =~= key_a_path());
    }
    p
}

/// The segments of `key_r`.
pub open spec fn key_r_path() -> Seq<Segment> {
    seq![
        mv(4632000, 2915000),
        ln(5567000, 3149000),
        cb(5634000, 3177000, 5636000, 3249000, 5608000, 3294000),
        ln(5092000, 4183000),
        cb(5029000, 4285000, 4930000, 4316000, 4801000, 4293000),
        ln(3804000, 4061000),
        cb(3741000, 4049000, 3700000, 3973000, 3745000, 3900000),
        ln(4334000, 2997000),
        cb(4392000, 2907000, 4523000, 2895000, 4624000, 2914000),
        Segment::Close,
        mv(5240000, 3216000),
        ln(4708000, 4068000),
        ln(4955000, 4055000),
        cb(4678000, 4088000, 4128000, 4088000, 4180000, 3819000),
        cb(4293000, 3508000, 4518000, 3441000, 5006000, 3585000),
        ln(4716000, 3516000),
        ln(4644000, 3103000),
    ]
}

/// The key cap labelled r.
pub fn key_r() -> (r: Vec<Segment>)
    ensures
        r@ == key_r_path(),
        path_well_formed(r@),
{
    let mut p: Vec<Segment> = Vec::new();
    push_in(&mut p, move_to(4632000, 2915000));
    push_in(&mut p, line_to(5567000, 3149000));
    push_in(&mut p, cubic_to(5634000, 3177000, 5636000, 3249000, 5608000, 3294000));
    push_in(&mut p, line_to(5092000, 4183000));
    push_in(&mut p, cubic_to(5029000, 4285000, 4930000, 4316000, 4801000, 4293000));
    push_in(&mut p, line_to(3804000, 4061000));
    push_in(&mut p, cubic_to(3741000, 4049000, 3700000, 3973000, 3745000, 3900000));
    push_in(&mut p, line_to(4334000, 2997000));
    push_in(&mut p, cubic_to(4392000, 2907000, 4523000, 2895000, 4624000, 2914000));
    push_in(&mut p, Segment::Close);
    push_in(&mut p, move_to(5240000, 3216000));
    push_in(&mut p, line_to(4708000, 4068000));
    push_in(&mut p, line_to(4955000, 4055000));
    push_in(&mut p, cubic_to(4678000, 4088000, 4128000, 4088000, 4180000, 3819000));
    push_in(&mut p, cubic_to(4293000, 3508000, 4518000, 3441000, 5006000, 3585000));
    push_in(&mut p, line_to(4716000, 3516000));
    push_in(&mut p, line_to(4644000, 3103000));
    proof {
        assert(p@ =~= key_r_path());
    }
    p
}

/// The segments of `key_e`.
pub open spec fn key_e_path() -> Seq<Segment> {
    seq![
        mv(6220000, 3296000),
        ln(7165000, 3500000),
        cb(7242000, 3518000, 7262000, 3595000, 7232000, 3665000),
        ln(6800000, 4561000),
        cb(6749000, 4643000, 6671000, 4672000, 6572000, 4640000),
        ln(5543000, 4419000),
        cb(5451000, 4405000, 5419000, 4323000, 5460000, 4247000),
        ln(5964000, 3385000),
        cb(6026000, 3294000, 6130000, 3276000, 6220000, 3296000),
        Segment::Close,
        mv(5792000, 4299000),
        ln(6451000, 4450000),
        ln(6251000, 4404000),
        ln(6547000, 3975000),
        ln(6071000, 3869000),
        ln(6735000, 4023000),
        ln(6735000, 4023000),
        ln(6548000, 3975000),
        cb(6803000, 3622000, 6700000, 3440000, 6269000, 3431000),
    ]
}

/// The key cap labelled e.
pub fn key_e() -> (r: Vec<Segment>)
    ensures
        r@ == key_e_path(),
        path_well_formed(r@),
{
    let mut p: Vec<Segment> = Vec::new();
    push_in(&mut p, move_to(6220000, 3296000));
    push_in(&mut p, line_to(7165000, 3500000));
    push_in(&mut p, cubic_to(7242000, 3518000, 7262000, 3595000, 7232000, 3665000));
    push_in(&mut p, line_to(6800000, 4561000));
    push_in(&mut p, cubic_to(6749000, 4643000, 6671000, 4672000, 6572000, 4640000));
    push_in(&mut p, line_to(5543000, 4419000));
    push_in(&mut p, cubic_to(5451000, 4405000, 5419000, 4323000, 5460000, 4247000));
    push_in(&mut p, line_to(5964000, 3385000));
    push_in(&mut p, cubic_to(6026000, 3294000, 6130000, 3276000, 6220000, 3296000));
    push_in(&mut p, Segment::Close);
    push_in(&mut p, move_to(5792000, 4299000));
    push_in(&mut p, line_to(6451000, 4450000));
    push_in(&mut p, line_to(6251000, 4404000));
    push_in(&mut p, line_to(6547000, 3975000));
    push_in(&mut p, line_to(6071000, 3869000));
    push_in(&mut p, line_to(6735000, 4023000));
    push_in(&mut p, line_to(6735000, 4023000));
    push_in(&mut p, line_to(6548000, 3975000));
    push_in(&mut p, cubic_to(6803000, 3622000, 6700000, 3440000, 6269000, 3431000));
    proof {
        assert(p@ =~= key_e_path());
    }
    p
}

/// The segments of `key_w`.
pub open spec fn key_w_path() -> Seq<Segment> {
    seq![
        mv(7743000, 3660000),
        ln(8665000, 3864000),
        cb(8764000, 3888000, 8794000, 3959000, 8769000, 4033000),
        ln(8400000, 5013000),
        cb(8353000, 5097000, 8270000, 5083000, 8196000, 5066000),
        ln(7209000, 4834000),
        cb(7118000, 4817000, 7045000, 4743000, 7092000, 4622000),
        ln(7505000, 3744000),
        cb(7546000, 3658000, 7649000, 3640000, 7743000, 3660000),
        Segment::Close,
        mv(7226000, 4534000),
        ln(7905000, 3827000),
        ln(7905000, 4519000),
        ln(7768000, 4691000),
        ln(8417000, 3885000),
        ln(8414000, 4871000),
    ]
}

/// The key cap labelled w.
pub fn key_w() -> (r: Vec<Segment>)
    ensures
        r@ == key_w_path(),
        path_well_formed(r@),
{
    let mut p: Vec<Segment> = Vec::new();
    push_in(&mut p, move_to(7743000, 3660000));
    push_in(&mut p, line_to(8665000, 3864000));
    push_in(&mut p, cubic_to(8764000, 3888000, 8794000, 3959000, 8769000, 4033000));
    push_in(&mut p, line_to(8400000, 5013000));
    push_in(&mut p, cubic_to(8353000, 5097000, 8270000, 5083000, 8196000, 5066000));
    push_in(&mut p, line_to(7209000, 4834000));
    push_in(&mut p, cubic_to(7118000, 4817000, 7045000, 4743000, 7092000, 4622000));
    push_in(&mut p, line_to(7505000, 3744000));
    push_in(&mut p, cubic_to(7546000, 3658000, 7649000, 3640000, 7743000, 3660000));
    push_in(&mut p, Segment::Close);
    push_in(&mut p, move_to(7226000, 4534000));
    push_in(&mut p, line_to(7905000, 3827000));
    push_in(&mut p, line_to(7905000, 4519000));
    push_in(&mut p, line_to(7768000, 4691000));
    push_in(&mut p, line_to(8417000, 3885000));
    push_in(&mut p, line_to(8414000, 4871000));
    proof {
        assert(p@ =~= key_w_path());
    }
    p
}

/// The segments of `key_q`.
pub open spec fn key_q_path() -> Seq<Segment> {
    seq![
        mv(9300000, 4010000),
        ln(10286000, 4248000),
        cb(10367000, 4265000, 10397000, 4303000, 10382000, 4369000),
        ln(10127000, 5362000),
        cb(10094000, 5463000, 10006000, 5494000, 9906000, 5466000),
        ln(8869000, 5218000),
        cb(8789000, 5201000, 8750000, 5125000, 8777000, 5049000),
        ln(9107000, 4129000),
        cb(9146000, 4032000, 9205000, 3995000, 9300000, 4010000),
        Segment::Close,
        mv(9444000, 4295000),
        cb(9183000, 4445000, 9131000, 4747000, 9206000, 4979000),
        cb(9457000, 5579000, 9983000, 5038000, 10032000, 4769000),
        cb(10127000, 4457000, 9833000, 4073000, 9444000, 4295000),
        ln(9271000, 4154000),
        ln(9673000, 4481000),
    ]
}

/// The key cap labelled q.
pub fn key_q() -> (r: Vec<Segment>)
    ensures
        r@ == key_q_path(),
        path_well_formed(r@),
{
    let mut p: Vec<Segment> = Vec::new();
    push_in(&mut p, move_to(9300000, 4010000));
    push_in(&mut p, line_to(10286000, 4248000));
    push_in(&mut p, cubic_to(10367000, 4265000, 10397000, 4303000, 10382000, 4369000));
    push_in(&mut p, line_to(10127000, 5362000));
    push_in(&mut p, cubic_to(10094000, 5463000, 10006000, 5494000, 9906000, 5466000));
    push_in(&mut p, line_to(8869000, 5218000));
    push_in(&mut p, cubic_to(8789000, 5201000, 8750000, 5125000, 8777000, 5049000));
    push_in(&mut p, line_to(9107000, 4129000));
    push_in(&mut p, cubic_to(9146000, 4032000, 9205000, 3995000, 9300000, 4010000));
    push_in(&mut p, Segment::Close);
    push_in(&mut p, move_to(9444000, 4295000));
    push_in(&mut p, cubic_to(9183000, 4445000, 9131000, 4747000, 9206000, 4979000));
    push_in(&mut p, cubic_to(9457000, 5579000, 9983000, 5038000, 10032000, 4769000));
    push_in(&mut p, cubic_to(10127000, 4457000, 9833000, 4073000, 9444000, 4295000));
    push_in(&mut p, line_to(9271000, 4154000));
    push_in(&mut p, line_to(9673000, 4481000));
    proof {
        assert(p@ =~= key_q_path());
    }
    p
}

/// The segments of `key_7`.
pub open spec fn key_7_path() -> Seq<Segment> {
    seq![
        mv(3694000, 4273000),
        ln(4200000, 4405000),
        cb(4255000, 4419000, 4286000, 4471000, 4259000, 4508000),
        ln(3898000, 5056000),
        cb(3854000, 5106000, 3785000, 5133000, 3699000, 5116000),
        ln(3203000, 4968000),
        cb(3156000, 4951000, 3140000, 4884000, 3180000, 4828000),
        ln(3554000, 4321000),
        cb(3590000, 4279000, 3638000, 4261000, 3694000, 4273000),
        Segment::Close,
        mv(3735000, 4991000),
        cb(3647000, 4963000, 3374000, 4889000, 3480000, 4785000),
        ln(3840000, 4413000),
    ]
}

/// The key cap labelled 7.
pub fn key_7() -> (r: Vec<Segment>)
    ensures
        r@ == key_7_path(),
        path_well_formed(r@),
{
    let mut p: Vec<Segment> = Vec::new();
    push_in(&mut p, move_to(3694000, 4273000));
    push_in(&mut p, line_to(4200000, 4405000));
    push_in(&mut p, cubic_to(4255000, 4419000, 4286000, 4471000, 4259000, 4508000));
    push_in(&mut p, line_to(3898000, 5056000));
    push_in(&mut p, cubic_to(3854000, 5106000, 3785000, 5133000, 3699000, 5116000));
    push_in(&mut p, line_to(3203000, 4968000));
    push_in(&mut p, cubic_to(3156000, 4951000, 3140000, 4884000, 3180000, 4828000));
    push_in(&mut p, line_to(3554000, 4321000));
    push_in(&mut p, cubic_to(3590000, 4279000, 3638000, 4261000, 3694000, 4273000));
    push_in(&mut p, Segment::Close);
    push_in(&mut p, move_to(3735000, 4991000));
    push_in(&mut p, cubic_to(3647000, 4963000, 3374000, 4889000, 3480000, 4785000));
    push_in(&mut p, line_to(3840000, 4413000));
    proof {
        assert(p@ =~= key_7_path());
    }
    p
}

/// The segments of `key_6`.
pub open spec fn key_6_path() -> Seq<Segment> {
    seq![
        mv(4209000, 5075000),
        ln(4518000, 4594000),
        cb(4543000, 4562000, 4574000, 4517000, 4647000, 4530000),
        ln(5176000, 4644000),
        cb(5250000, 4662000, 5268000, 4708000, 5241000, 4753000),
        ln(4936000, 5296000),
        cb(4910000, 5347000, 4866000, 5375000, 4806000, 5358000),
        ln(4239000, 5206000),
        cb(4178000, 5188000, 4175000, 5136000, 4209000, 5075000),
        Segment::Close,
        mv(4619000, 5174000),
        cb(4808000, 5114000, 5049000, 4800000, 4907000, 4717000),
        cb(4808000, 4656000, 4692000, 4709000, 4650000, 4797000),
        cb(4584000, 4928000, 4699000, 5009000, 4837000, 5013000),
    ]
}

/// The key cap labelled 6.
pub fn key_6() -> (r: Vec<Segment>)
    ensures
        r@ == key_6_path(),
        path_well_formed(r@),
{
    let mut p: Vec<Segment> = Vec::new();
    push_in(&mut p, move_to(4209000, 5075000));
    push_in(&mut p, line_to(4518000, 4594000));
    push_in(&mut p, cubic_to(4543000, 4562000, 4574000, 4517000, 4647000, 4530000));
    push_in(&mut p, line_to(5176000, 4644000));
    push_in(&mut p, cubic_to(5250000, 4662000, 5268000, 4708000, 5241000, 4753000));
    push_in(&mut p, line_to(4936000, 5296000));
    push_in(&mut p, cubic_to(4910000, 5347000, 4866000, 5375000, 4806000, 5358000));
    push_in(&mut p, line_to(4239000, 5206000));
    push_in(&mut p, cubic_to(4178000, 5188000, 4175000, 5136000, 4209000, 5075000));
    push_in(&mut p, Segment::Close);
    push_in(&mut p, move_to(4619000, 5174000));
    push_in(&mut p, cubic_to(4808000, 5114000, 5049000, 4800000, 4907000, 4717000));
    push_in(&mut p, cubic_to(4808000, 4656000, 4692000, 4709000, 4650000, 4797000));
    push_in(&mut p, cubic_to(4584000, 4928000, 4699000, 5009000, 4837000, 5013000));
    proof {
        assert(p@ =~= key_6_path());
    }
    p
}

/// The segments of `key_5`.
pub open spec fn key_5_path() -> Seq<Segment> {
    seq![
        mv(5663000, 4735000),
        ln(6159000, 4862000),
        cb(6214000, 4875000, 6254000, 4936000, 6228000, 4983000),
        ln(5929000, 5553000),
        cb(5897000, 5608000, 5850000, 5618000, 5807000, 5610000),
        ln(5222000, 5460000),
        cb(5178000, 5444000, 5166000, 5380000, 5195000, 5326000),
        ln(5495000, 4788000),
        cb(5541000, 4730000, 5591000, 4718000, 5665000, 4736000),
        Segment::Close,
        mv(5498000, 5312000),
        ln(5722000, 5348000),
        ln(5842000, 5159000),
        cb(5580000, 5152000, 5604000, 4910000, 5835000, 4863000),
    ]
}

/// The key cap labelled 5.
pub fn key_5() -> (r: Vec<Segment>)
    ensures
        r@ == key_5_path(),
        path_well_formed(r@),
{
    let mut p: Vec<Segment> = Vec::new();
    push_in(&mut p, move_to(5663000, 4735000));
    push_in(&mut p, line_to(6159000, 4862000));
    push_in(&mut p, cubic_to(6214000, 4875000, 6254000, 4936000, 6228000, 4983000));
    push_in(&mut p, line_to(5929000, 5553000));
    push_in(&mut p, cubic_to(5897000, 5608000, 5850000, 5618000, 5807000, 5610000));
    push_in(&mut p, line_to(5222000, 5460000));
    push_in(&mut p, cubic_to(5178000, 5444000, 5166000, 5380000, 5195000, 5326000));
    push_in(&mut p, line_to(5495000, 4788000));
    push_in(&mut p, cubic_to(5541000, 4730000, 5591000, 4718000, 5665000, 4736000));
    push_in(&mut p, Segment::Close);
    push_in(&mut p, move_to(5498000, 5312000));
    push_in(&mut p, line_to(5722000, 5348000));
    push_in(&mut p, line_to(5842000, 5159000));
    push_in(&mut p, cubic_to(5580000, 5152000, 5604000, 4910000, 5835000, 4863000));
    proof {
        assert(p@ =~= key_5_path());
    }
    p
}

/// The segments of `key_4`.
pub open spec fn key_4_path() -> Seq<Segment> {
    seq![
        mv(6606000, 4983000),
        ln(7136000, 5112000),
        cb(7189000, 5124000, 7224000, 5172000, 7202000, 5221000),
        ln(6916000, 5796000),
        cb(6899000, 5831000, 6859000, 5843000, 6808000, 5833000),
        ln(6284000, 5721000),
        cb(6232000, 5696000, 6212000, 5650000, 6228000, 5607000),
        ln(6492000, 5031000),
        cb(6509000, 4995000, 6561000, 4971000, 6604000, 4981000),
        Segment::Close,
        mv(6722000, 5093000),
        ln(6546000, 5477000),
        ln(6661000, 5229000),
        ln(6567000, 5212000),
        cb(6966000, 5278000, 6882000, 5332000, 6694000, 5652000),
    ]
}

/// The key cap labelled 4.
pub fn key_4() -> (r: Vec<Segment>)
    ensures
        r@ == key_4_path(),
        path_well_formed(r@),
{
    let mut p: Vec<Segment> = Vec::new();
    push_in(&mut p, move_to(6606000, 4983000));
    push_in(&mut p, line_to(7136000, 5112000));
    push_in(&mut p, cubic_to(7189000, 5124000, 7224000, 5172000, 7202000, 5221000));
    push_in(&mut p, line_to(6916000, 5796000));
    push_in(&mut p, cubic_to(6899000, 5831000, 6859000, 5843000, 6808000, 5833000));
    push_in(&mut p, line_to(6284000, 5721000));
    push_in(&mut p, cubic_to(6232000, 5696000, 6212000, 5650000, 6228000, 5607000));
    push_in(&mut p, line_to(6492000, 5031000));
    push_in(&mut p, cubic_to(6509000, 4995000, 6561000, 4971000, 6604000, 4981000));
    push_in(&mut p, Segment::Close);
    push_in(&mut p, move_to(6722000, 5093000));
    push_in(&mut p, line_to(6546000, 5477000));
    push_in(&mut p, line_to(6661000, 5229000));
    push_in(&mut p, line_to(6567000, 5212000));
    push_in(&mut p, cubic_to(6966000, 5278000, 6882000, 5332000, 6694000, 5652000));
    proof {
        assert(p@ =~= key_4_path());
    }
    p
}

/// The segments of `key_3`.
pub open spec fn key_3_path() -> Seq<Segment> {
    seq![
        mv(7574000, 5175000),
        ln(8127000, 5309000),
        cb(8166000, 5329000, 8198000, 5361000, 8189000, 5423000),
        ln(7960000, 5961000),
        cb(7935000, 6022000, 7906000, 6041000, 7838000, 6035000),
        ln(7287000, 5914000),
        cb(7235000, 5901000, 7203000, 5842000, 7224000, 5790000),
        ln(7458000, 5247000),
        cb(7486000, 5195000, 7516000, 5178000, 7559000, 5178000),
        Segment::Close,
        mv(7840000, 5389000),
        cb(7695000, 5363000, 7555000, 5480000, 7738000, 5614000),
        cb(7576000, 5642000, 7473000, 5754000, 7542000, 5851000),
        cb(7607000, 5939000, 7734000, 5965000, 7848000, 5853000),
    ]
}

/// The key cap labelled 3.
pub fn key_3() -> (r: Vec<Segment>)
    ensures
        r@ == key_3_path(),
        path_well_formed(r@),
{
    let mut p: Vec<Segment> = Vec::new();
    push_in(&mut p, move_to(7574000, 5175000));
    push_in(&mut p, line_to(8127000, 5309000));
    push_in(&mut p, cubic_to(8166000, 5329000, 8198000, 5361000, 8189000, 5423000));
    push_in(&mut p, line_to(7960000, 5961000));
    push_in(&mut p, cubic_to(7935000, 6022000, 7906000, 6041000, 7838000, 6035000));
    push_in(&mut p, line_to(7287000, 5914000));
    push_in(&mut p, cubic_to(7235000, 5901000, 7203000, 5842000, 7224000, 5790000));
    push_in(&mut p, line_to(7458000, 5247000));
    push_in(&mut p, cubic_to(7486000, 5195000, 7516000, 5178000, 7559000, 5178000));
    push_in(&mut p, Segment::Close);
    push_in(&mut p, move_to(7840000, 5389000));
    push_in(&mut p, cubic_to(7695000, 5363000, 7555000, 5480000, 7738000, 5614000));
    push_in(&mut p, cubic_to(7576000, 5642000, 7473000, 5754000, 7542000, 5851000));
    push_in(&mut p, cubic_to(7607000, 5939000, 7734000, 5965000, 7848000, 5853000));
    proof {
        assert(p@ =~= key_3_path());
    }
    p
}

/// The segments of `key_2`.
pub open spec fn key_2_path() -> Seq<Segment> {
    seq![
        mv(8523000, 5421000),
        ln(9040000, 5548000),
        cb(9110000, 5574000, 9123000, 5626000, 9118000, 5670000),
        ln(8940000, 6250000),
        cb(8908000, 6325000, 8881000, 6351000, 8823000, 6341000),
        ln(8225000, 6169000),
        cb(8184000, 6143000, 8159000, 6086000, 8181000, 6033000),
        ln(8389000, 5484000),
        cb(8425000, 5416000, 8459000, 5401000, 8525000, 5421000),
        Segment::Close,
        mv(8572000, 5570000),
        ln(8862000, 5584000),
        cb(8578000, 5778000, 8322000, 6150000, 8747000, 6094000),
    ]
}

/// The key cap labelled 2.
pub fn key_2() -> (r: Vec<Segment>)
    ensures
        r@ == key_2_path(),
        path_well_formed(r@),
{
    let mut p: Vec<Segment> = Vec::new();
    push_in(&mut p, move_to(8523000, 5421000));
    push_in(&mut p, line_to(9040000, 5548000));
    push_in(&mut p, cubic_to(9110000, 5574000, 9123000, 5626000, 9118000, 5670000));
    push_in(&mut p, line_to(8940000, 6250000));
    push_in(&mut p, cubic_to(8908000, 6325000, 8881000, 6351000, 8823000, 6341000));
    push_in(&mut p, line_to(8225000, 6169000));
    push_in(&mut p, cubic_to(8184000, 6143000, 8159000, 6086000, 8181000, 6033000));
    push_in(&mut p, line_to(8389000, 5484000));
    push_in(&mut p, cubic_to(8425000, 5416000, 8459000, 5401000, 8525000, 5421000));
    push_in(&mut p, Segment::Close);
    push_in(&mut p, move_to(8572000, 5570000));
    push_in(&mut p, line_to(8862000, 5584000));
    push_in(&mut p, cubic_to(8578000, 5778000, 8322000, 6150000, 8747000, 6094000));
    proof {
        assert(p@ =~= key_2_path());
    }
    p
}

/// The segments of `key_1`.
pub open spec fn key_1_path() -> Seq<Segment> {
    seq![
        mv(9421000, 5644000),
        ln(10004000, 5776000),
        cb(10049000, 5799000, 10059300, 5835000, 10049000, 5892000),
        ln(9904000, 6466000),
        cb(9889000, 6519000, 9843000, 6528000, 9803000, 6525000),
        ln(9223000, 6386000),
        cb(9175000, 6368000, 9140000, 6348000, 9135000, 6284000),
        ln(9315000, 5715000),
        cb(9333000, 5664000, 9361000, 5635000, 9417000, 5640000),
        Segment::Close,
        mv(9576000, 6327000),
        ln(9728000, 5800000),
    ]
}

/// The key cap labelled 1.
pub fn key_1() -> (r: Vec<Segment>)
    ensures
        r@ == key_1_path(),
        path_well_formed(r@),
{
    let mut p: Vec<Segment> = Vec::new();
    push_in(&mut p, move_to(9421000, 5644000));
    push_in(&mut p, line_to(10004000, 5776000));
    push_in(&mut p, cubic_to(10049000, 5799000, 10059300, 5835000, 10049000, 5892000));
    push_in(&mut p, line_to(9904000, 6466000));
    push_in(&mut p, cubic_to(9889000, 6519000, 9843000, 6528000, 9803000, 6525000));
    push_in(&mut p, line_to(9223000, 6386000));
    push_in(&mut p, cubic_to(9175000, 6368000, 9140000, 6348000, 9135000, 6284000));
    push_in(&mut p, line_to(9315000, 5715000));
    push_in(&mut p, cubic_to(9333000, 5664000, 9361000, 5635000, 9417000, 5640000));
    push_in(&mut p, Segment::Close);
    push_in(&mut p, move_to(9576000, 6327000));
    push_in(&mut p, line_to(9728000, 5800000));
    proof {
        assert(p@ =~= key_1_path());
    }
    p
}

/// The smallest box holding `b` and `p`.
pub open spec fn extend(b: Option<(Point, Point)>, p: Point) -> Option<(Point, Point)> {
    match b {
        None => Some((p, p)),
        Some((lo, hi)) => Some(
            (
                Point { x: if p.x < lo.x { p.x } else { lo.x }, y: if p.y < lo.y { p.y } else { lo.y } },
                Point { x: if p.x > hi.x { p.x } else { hi.x }, y: if p.y > hi.y { p.y } else { hi.y } },
            ),
        ),
    }
}

/// The smallest box holding `b` and every point the segment names.
pub open spec fn extend_segment(b: Option<(Point, Point)>, s: Segment) -> Option<(Point, Point)> {
    match s {
        Segment::MoveTo(p) => extend(b, p),
        Segment::LineTo(p) => extend(b, p),
        Segment::CubicTo(c1, c2, p) => extend(extend(extend(b, c1), c2), p),
        Segment::Close => b,
    }
}

/// The bounding box of every point a path names, control points included, as
/// its lowest and highest corner; `None` for a path that names no point.
pub open spec fn path_bounds(s: Seq<Segment>) -> Option<(Point, Point)>
    decreases s.len(),
{
    if s.len() == 0 {
        None
    } else {
        extend_segment(path_bounds(s.drop_last()), s.last())
    }
}

pub open spec fn box_in_design(b: Option<(Point, Point)>) -> bool {
    match b {
        None => true,
        Some((lo, hi)) => in_design(lo) && in_design(hi),
    }
}

proof fn lemma_bounds_in_design(s: Seq<Segment>)
    requires
        forall|i: int| 0 <= i < s.len() ==> segment_in_design(#[trigger] s[i]),
    ensures
        box_in_design(path_bounds(s)),
        s.len() > 0 && s[0] is MoveTo ==> path_bounds(s) is Some,
    decreases s.len(),
{
    if s.len() > 0 {
        let t = s.drop_last();
        assert forall|i: int| 0 <= i < t.len() implies segment_in_design(#[trigger] t[i]) by {
            assert(t[i] == s[i]);
        }
        lemma_bounds_in_design(t);
        assert(segment_in_design(s[s.len() - 1]));
        if s.len() > 1 && s[0] is MoveTo {
            assert(t[0] == s[0]);
        }
    }
}

fn extend_point(b: Option<(Point, Point)>, p: Point) -> (r: Option<(Point, Point)>)
    ensures
        r == extend(b, p),
{
    match b {
        None => Some((p, p)),
        Some((lo, hi)) => Some(
            (
                Point { x: if p.x < lo.x { p.x } else { lo.x }, y: if p.y < lo.y { p.y } else { lo.y } },
                Point { x: if p.x > hi.x { p.x } else { hi.x }, y: if p.y > hi.y { p.y } else { hi.y } },
            ),
        ),
    }
}

/// The bounding box of a path, control points included.
pub fn bounds(path: &Vec<Segment>) -> (r: Option<(Point, Point)>)
    ensures
        r == path_bounds(path@),
{
    let mut acc: Option<(Point, Point)> = None;
    let mut i: usize = 0;
    while i < path.len()
        invariant
            i <= path@.len(),
            acc == path_bounds(path@.subrange(0, i as int)),
        decreases path@.len() - i,
    {
        let s = path[i];
        acc = match s {
            Segment::MoveTo(p) => extend_point(acc, p),
            Segment::LineTo(p) => extend_point(acc, p),
            Segment::CubicTo(c1, c2, p) => extend_point(extend_point(extend_point(acc, c1), c2), p),
            Segment::Close => acc,
        };
        proof {
            assert(path@.subrange(0, i + 1).drop_last() =~= path@.subrange(0, i as int));
        }
        i = i + 1;
    }
    proof {
        assert(path@.subrange(0, i as int) =~= path@);
    }
    acc
}

/// The centre of a box, rounded down.
pub open spec fn box_center(lo: Point, hi: Point) -> Point {
    Point { x: ((lo.x + hi.x) / 2) as i128, y: ((lo.y + hi.y) / 2) as i128 }
}

/// The translation that carries the centre of `from`'s bounding box onto the
/// centre of `to`'s.
pub open spec fn center_shift(from: Seq<Segment>, to: Seq<Segment>) -> Point {
    let a = path_bounds(from).unwrap();
    let b = path_bounds(to).unwrap();
    let ca = box_center(a.0, a.1);
    let cb = box_center(b.0, b.1);
    Point { x: (cb.x - ca.x) as i128, y: (cb.y - ca.y) as i128 }
}

/// The translation that carries the centre of `from`'s bounding box onto the
/// centre of `to`'s: how far a paw moves to press a key. It is the whole
/// distance between the centres, so its vertical part grows with how far
/// down the keyboard the key sits and no separate vertical term is added.
pub fn press_offset(from: &Vec<Segment>, to: &Vec<Segment>) -> (r: Point)
    requires
        path_well_formed(from@),
        path_well_formed(to@),
    ensures
        r == center_shift(from@, to@),
{
    proof {
        lemma_bounds_in_design(from@);
        lemma_bounds_in_design(to@);
    }
    let a = bounds(from);
    let b = bounds(to);
    match (a, b) {
        (Some((alo, ahi)), Some((blo, bhi))) => {
            let cax = crate::geometry::floor_div(alo.x + ahi.x, 2);
            let cay = crate::geometry::floor_div(alo.y + ahi.y, 2);
            let cbx = crate::geometry::floor_div(blo.x + bhi.x, 2);
            let cby = crate::geometry::floor_div(blo.y + bhi.y, 2);
            proof {
                crate::geometry::lemma_div_magnitude(alo.x + ahi.x, 2);
                crate::geometry::lemma_div_magnitude(alo.y + ahi.y, 2);
                crate::geometry::lemma_div_magnitude(blo.x + bhi.x, 2);
                crate::geometry::lemma_div_magnitude(blo.y + bhi.y, 2);
            }
            Point { x: cbx - cax, y: cby - cay }
        },
        _ => Point { x: 0, y: 0 },
    }
}

} // verus!
