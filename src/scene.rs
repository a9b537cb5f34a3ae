//! The draw list of one frame: which shape is painted where, in which
//! colours, back to front.

use vstd::prelude::*;

use crate::geometry::{NormalizedCursor, Point};
use crate::input::ClickStates;
use crate::pose::{body_fill, body_outline, body_outline_spec, pose, spec_pose, Pose};
use crate::shapes::{
    center_shift, eyes, eyes_path, key_1, key_1_path, key_2, key_2_path, key_3, key_3_path, key_4,
    key_4_path, key_5, key_5_path, key_6, key_6_path, key_7, key_7_path, key_a, key_a_path, key_d,
    key_d_path, key_e, key_e_path, key_q, key_q_path, key_r, key_r_path, key_s, key_s_path,
    key_space, key_space_path, key_w, key_w_path, left_hand, left_hand_path, mouse,
    mouse_button_left, mouse_button_left_path, mouse_button_right, mouse_button_right_path,
    mouse_path, mouse_wheel, mouse_wheel_path, mousepad, mousepad_path, mouth, mouth_path,
    path_well_formed, paws, paws_path, press_offset, table, table_line_left, table_line_left_path,
    table_line_right, table_line_right_path, table_path, Segment,
};

verus! {

/// How many key caps the keyboard shows.
pub const KEY_COUNT: usize = 15;

/// The palette.
#[derive(Clone, Copy, Debug, PartialEq, Eq, Structural)]
pub enum Color {
    White,
    Black,
    Blue,
    Pink,
    PinkStroke,
    MousepadFill,
    MousepadStroke,
}

/// Red, green, blue and alpha of each colour.
pub open spec fn color_rgba(c: Color) -> [u8; 4] {
    match c {
        Color::White => [255, 255, 255, 255],
        Color::Black => [0, 0, 0, 255],
        Color::Blue => [56, 143, 255, 150],
        Color::Pink => [255, 138, 202, 255],
        Color::PinkStroke => [223, 65, 143, 255],
        Color::MousepadFill => [169, 168, 170, 255],
        Color::MousepadStroke => [108, 108, 110, 255],
    }
}

impl Color {
    /// Red, green, blue and alpha.
    pub fn rgba(self) -> (r: [u8; 4])
        ensures
            r == color_rgba(self),
    {
        match self {
            Color::White => [255, 255, 255, 255],
            Color::Black => [0, 0, 0, 255],
            Color::Blue => [56, 143, 255, 150],
            Color::Pink => [255, 138, 202, 255],
            Color::PinkStroke => [223, 65, 143, 255],
            Color::MousepadFill => [169, 168, 170, 255],
            Color::MousepadStroke => [108, 108, 110, 255],
        }
    }
}

/// The shapes a frame is made of.
#[derive(Clone, Copy, Debug, PartialEq, Eq, Structural)]
pub enum Shape {
    Table,
    Mousepad,
    Mouse,
    MouseWheel,
    TableLineLeft,
    BodyFill,
    BodyOutline,
    TableLineRight,
    /// The key cap with this index, below `KEY_COUNT`.
    Key(usize),
    LeftHand,
    Paws,
    Eyes,
    Mouth,
    MouseButtonLeft,
    MouseButtonRight,
}

/// One shape to paint: translated by `offset` in design space, filled and
/// then stroked with the colours given.
#[derive(Clone, Copy, Debug, PartialEq, Eq, Structural)]
pub struct DrawOp {
    pub shape: Shape,
    pub offset: Point,
    pub fill: Option<Color>,
    pub stroke: Option<Color>,
}

pub open spec fn op(shape: Shape, offset: Point, fill: Option<Color>, stroke: Option<Color>) -> DrawOp {
    DrawOp { shape, offset, fill, stroke }
}

pub open spec fn origin() -> Point {
    Point { x: 0, y: 0 }
}

/// The key caps, all plain but the highlighted one.
pub open spec fn key_ops(highlight: Option<usize>) -> Seq<DrawOp> {
    Seq::new(
        KEY_COUNT as nat,
        |i: int|
            op(
                Shape::Key(i as usize),
                origin(),
                Some(if highlight == Some(i as usize) { Color::Blue } else { Color::White }),
                Some(Color::Black),
            ),
    )
}

/// The frame's draw list, back to front: the table and the mouse, the body,
/// the keyboard, the paw (at `hand`), the face, then the pressed buttons.
pub open spec fn scene_spec(p: Pose, clicks: ClickStates, highlight: Option<usize>, hand: Point) -> Seq<
    DrawOp,
> {
    let wheel = if clicks.middle_click { Color::Blue } else { Color::MousepadFill };
    let back = seq![
        op(Shape::Table, origin(), Some(Color::White), Some(Color::Black)),
        op(Shape::Mousepad, origin(), Some(Color::MousepadFill), Some(Color::MousepadStroke)),
        op(Shape::Mouse, p.mouse_offset, Some(Color::White), Some(Color::Black)),
        op(Shape::MouseWheel, p.mouse_offset, Some(wheel), Some(Color::Black)),
        op(Shape::TableLineLeft, origin(), None, Some(Color::Black)),
        op(Shape::BodyFill, p.body_offset, Some(Color::White), None),
        op(Shape::BodyOutline, p.body_offset, None, Some(Color::Black)),
        op(Shape::TableLineRight, origin(), None, Some(Color::Black)),
    ];
    let front = seq![
        op(Shape::LeftHand, hand, None, Some(Color::Black)),
        op(Shape::Paws, hand, Some(Color::Pink), Some(Color::PinkStroke)),
        op(Shape::Eyes, p.eye_offset, Some(Color::Black), None),
        op(Shape::Mouth, p.mouth_offset, Some(Color::Black), None),
    ];
    let left = if clicks.left_click {
        seq![op(Shape::MouseButtonLeft, p.mouse_offset, Some(Color::Blue), None)]
    } else {
        seq![]
    };
    let right = if clicks.right_click {
        seq![op(Shape::MouseButtonRight, p.mouse_offset, Some(Color::Blue), None)]
    } else {
        seq![]
    };
    back + key_ops(highlight) + front + left + right
}

/// Builds the draw list of `scene_spec`.
pub fn scene(p: &Pose, clicks: &ClickStates, highlight: Option<usize>, hand: Point) -> (r: Vec<DrawOp>)
    ensures
        r@ == scene_spec(*p, *clicks, highlight, hand),
{
    let ghost spec_scene = scene_spec(*p, *clicks, highlight, hand);
    let wheel = if clicks.middle_click { Color::Blue } else { Color::MousepadFill };
    let o = Point { x: 0, y: 0 };
    let mut ops: Vec<DrawOp> = Vec::new();
    ops.push(DrawOp { shape: Shape::Table, offset: o, fill: Some(Color::White), stroke: Some(Color::Black) });
    ops.push(
        DrawOp {
            shape: Shape::Mousepad,
            offset: o,
            fill: Some(Color::MousepadFill),
            stroke: Some(Color::MousepadStroke),
        },
    );
    ops.push(DrawOp { shape: Shape::Mouse, offset: p.mouse_offset, fill: Some(Color::White), stroke: Some(Color::Black) });
    ops.push(DrawOp { shape: Shape::MouseWheel, offset: p.mouse_offset, fill: Some(wheel), stroke: Some(Color::Black) });
    ops.push(DrawOp { shape: Shape::TableLineLeft, offset: o, fill: None, stroke: Some(Color::Black) });
    ops.push(DrawOp { shape: Shape::BodyFill, offset: p.body_offset, fill: Some(Color::White), stroke: None });
    ops.push(DrawOp { shape: Shape::BodyOutline, offset: p.body_offset, fill: None, stroke: Some(Color::Black) });
    ops.push(DrawOp { shape: Shape::TableLineRight, offset: o, fill: None, stroke: Some(Color::Black) });
    let ghost back = ops@;
    let mut i: usize = 0;
    while i < KEY_COUNT
        invariant
            i <= KEY_COUNT,
            back.len() == 8,
            o == origin(),
            ops@ == back + key_ops(highlight).subrange(0, i as int),
        decreases KEY_COUNT - i,
    {
        let lit = match highlight {
            Some(k) => k == i,
            None => false,
        };
        let fill = if lit { Color::Blue } else { Color::White };
        let ghost before = ops@;
        ops.push(DrawOp { shape: Shape::Key(i), offset: o, fill: Some(fill), stroke: Some(Color::Black) });
        proof {
            assert(lit == (highlight == Some(i)));
            assert(key_ops(highlight)[i as int] == op(
                Shape::Key(i),
                origin(),
                Some(fill),
                Some(Color::Black),
            ));
            assert(ops@ == before.push(key_ops(highlight)[i as int]));
            assert(key_ops(highlight).subrange(0, i + 1) =~= key_ops(highlight).subrange(0, i as int).push(
                key_ops(highlight)[i as int],
            ));
            assert(ops@ =~= back + key_ops(highlight).subrange(0, i + 1));
        }
        i = i + 1;
    }
    proof {
        assert(key_ops(highlight).subrange(0, KEY_COUNT as int) =~= key_ops(highlight));
    }
    ops.push(DrawOp { shape: Shape::LeftHand, offset: hand, fill: None, stroke: Some(Color::Black) });
    ops.push(DrawOp { shape: Shape::Paws, offset: hand, fill: Some(Color::Pink), stroke: Some(Color::PinkStroke) });
    ops.push(DrawOp { shape: Shape::Eyes, offset: p.eye_offset, fill: Some(Color::Black), stroke: None });
    ops.push(DrawOp { shape: Shape::Mouth, offset: p.mouth_offset, fill: Some(Color::Black), stroke: None });
    if clicks.left_click {
        ops.push(DrawOp { shape: Shape::MouseButtonLeft, offset: p.mouse_offset, fill: Some(Color::Blue), stroke: None });
    }
    if clicks.right_click {
        ops.push(DrawOp { shape: Shape::MouseButtonRight, offset: p.mouse_offset, fill: Some(Color::Blue), stroke: None });
    }
    proof {
        assert(ops@ =~= spec_scene);
    }
    ops
}

/// The segments of the key cap with index `i`.
pub open spec fn key_path(i: int) -> Seq<Segment> {
    if i == 0 {
        key_space_path()
    } else if i == 1 {
        key_d_path()
    } else if i == 2 {
        key_s_path()
    } else if i == 3 {
        key_a_path()
    } else if i == 4 {
        key_r_path()
    } else if i == 5 {
        key_e_path()
    } else if i == 6 {
        key_w_path()
    } else if i == 7 {
        key_q_path()
    } else if i == 8 {
        key_7_path()
    } else if i == 9 {
        key_6_path()
    } else if i == 10 {
        key_5_path()
    } else if i == 11 {
        key_4_path()
    } else if i == 12 {
        key_3_path()
    } else if i == 13 {
        key_2_path()
    } else {
        key_1_path()
    }
}

/// The key cap with index `i`: the space bar, then D, S, A, R, E, W, Q and
/// the digits 7 down to 1.
pub fn key_shape(i: usize) -> (r: Vec<Segment>)
    requires
        i < KEY_COUNT,
    ensures
        r@ == key_path(i as int),
        path_well_formed(r@),
{
    match i {
        0 => key_space(),
        1 => key_d(),
        2 => key_s(),
        3 => key_a(),
        4 => key_r(),
        5 => key_e(),
        6 => key_w(),
        7 => key_q(),
        8 => key_7(),
        9 => key_6(),
        10 => key_5(),
        11 => key_4(),
        12 => key_3(),
        13 => key_2(),
        _ => key_1(),
    }
}

/// The key cap lit while any key is held: picked by a random draw, never by
/// which key it is, so the overlay does not echo what is typed.
pub fn pick_key(draw: u64) -> (r: usize)
    ensures
        r == draw % (KEY_COUNT as u64),
        r < KEY_COUNT,
{
    (draw % (KEY_COUNT as u64)) as usize
}

/// Every key cap is picked by exactly the draws congruent to its index: over
/// any run of `KEY_COUNT` consecutive draws each key is picked once, so a
/// uniform draw picks each key equally often.
pub proof fn lemma_pick_key_cycles(start: u64, k: usize)
    requires
        k < KEY_COUNT,
        start <= u64::MAX - KEY_COUNT,
    ensures
        exists|j: int| 0 <= j < KEY_COUNT && #[trigger] ((start + j) % (KEY_COUNT as int)) == k,
        forall|j1: int, j2: int|
            0 <= j1 < j2 < KEY_COUNT ==> #[trigger] ((start + j1) % (KEY_COUNT as int)) != #[trigger] ((
            start + j2) % (KEY_COUNT as int)),
{
    let n = KEY_COUNT as int;
    let st = start as int;
    let kk = k as int;
    vstd::arithmetic::div_mod::lemma_fundamental_div_mod(st, n);
    let q = st / n;
    let r = st % n;
    if kk >= r {
        let j = kk - r;
        assert(st + j == q * n + kk) by (nonlinear_arith)
            requires
                st == n * q + r,
                j == kk - r,
        ;
        vstd::arithmetic::div_mod::lemma_fundamental_div_mod_converse(st + j, n, q, kk);
        assert((start + j) % (KEY_COUNT as int) == k);
    } else {
        let j = kk - r + n;
        assert(st + j == (q + 1) * n + kk) by (nonlinear_arith)
            requires
                st == n * q + r,
                j == kk - r + n,
        ;
        vstd::arithmetic::div_mod::lemma_fundamental_div_mod_converse(st + j, n, q + 1, kk);
        assert((start + j) % (KEY_COUNT as int) == k);
    }
    assert forall|j1: int, j2: int|
        0 <= j1 < j2 < n implies #[trigger] ((start + j1) % n) != #[trigger] ((start + j2) % n) by {
        if (start + j1) % n == (start + j2) % n {
            vstd::arithmetic::div_mod::lemma_fundamental_div_mod(start + j1, n);
            vstd::arithmetic::div_mod::lemma_fundamental_div_mod(start + j2, n);
            let q1 = (start + j1) / n;
            let q2 = (start + j2) / n;
            assert(false) by (nonlinear_arith)
                requires
                    start + j1 == n * q1 + (start + j1) % n,
                    start + j2 == n * q2 + (start + j2) % n,
                    (start + j1) % n == (start + j2) % n,
                    0 < j2 - j1 < n,
            ;
        }
    }
}

/// The segments of a shape in a pose.
pub open spec fn shape_path(shape: Shape, p: Pose) -> Seq<Segment> {
    match shape {
        Shape::Table => table_path(),
        Shape::Mousepad => mousepad_path(),
        Shape::Mouse => mouse_path(),
        Shape::MouseWheel => mouse_wheel_path(),
        Shape::TableLineLeft => table_line_left_path(),
        Shape::BodyFill => body_outline_spec(p) + seq![
            Segment::LineTo(crate::pose::body_close_point(p)),
            Segment::Close,
        ],
        Shape::BodyOutline => body_outline_spec(p),
        Shape::TableLineRight => table_line_right_path(),
        Shape::Key(i) => key_path(i as int),
        Shape::LeftHand => left_hand_path(),
        Shape::Paws => paws_path(),
        Shape::Eyes => eyes_path(),
        Shape::Mouth => mouth_path(),
        Shape::MouseButtonLeft => mouse_button_left_path(),
        Shape::MouseButtonRight => mouse_button_right_path(),
    }
}

/// The path of a shape, for a pose.
pub fn outline(shape: Shape, p: &Pose) -> (r: Vec<Segment>)
    requires
        p.wf(),
        shape matches Shape::Key(i) ==> i < KEY_COUNT,
    ensures
        r@ == shape_path(shape, *p),
        shape != Shape::BodyOutline && shape != Shape::BodyFill ==> path_well_formed(r@),
{
    match shape {
        Shape::Table => table(),
        Shape::Mousepad => mousepad(),
        Shape::Mouse => mouse(),
        Shape::MouseWheel => mouse_wheel(),
        Shape::TableLineLeft => table_line_left(),
        Shape::BodyFill => body_fill(p),
        Shape::BodyOutline => body_outline(p),
        Shape::TableLineRight => table_line_right(),
        Shape::Key(i) => key_shape(i),
        Shape::LeftHand => left_hand(),
        Shape::Paws => paws(),
        Shape::Eyes => eyes(),
        Shape::Mouth => mouth(),
        Shape::MouseButtonLeft => mouse_button_left(),
        Shape::MouseButtonRight => mouse_button_right(),
    }
}

/// The key lit in a frame: one picked by the draw while any key is held.
pub open spec fn lit_key(clicks: ClickStates, draw: u64) -> Option<usize> {
    if clicks.other_click {
        Some((draw % (KEY_COUNT as u64)) as usize)
    } else {
        None
    }
}

/// Where the paw is drawn: with the body, or, while a key is held, moved
/// from its resting place onto the lit key.
pub open spec fn paw_offset(c: NormalizedCursor, clicks: ClickStates, draw: u64) -> Point {
    if clicks.other_click {
        center_shift(paws_path(), key_path((draw % (KEY_COUNT as u64)) as int))
    } else {
        spec_pose(c).body_offset
    }
}

/// The draw list of one frame, for a cursor, the buttons and keys held, and
/// a random draw that picks the key to light while any key is held. The paw
/// rests with the body, or, while a key is held, moves onto the lit key.
pub fn draw_bongo(cursor: &NormalizedCursor, clicks: &ClickStates, key_draw: u64) -> (r: Vec<DrawOp>)
    requires
        cursor.wf(),
    ensures
        r@ == scene_spec(
            spec_pose(*cursor),
            *clicks,
            lit_key(*clicks, key_draw),
            paw_offset(*cursor, *clicks, key_draw),
        ),
{
    let p = pose(cursor);
    if clicks.other_click {
        let k = pick_key(key_draw);
        let hand = press_offset(&paws(), &key_shape(k));
        scene(&p, clicks, Some(k), hand)
    } else {
        scene(&p, clicks, None, p.body_offset)
    }
}

} // verus!
