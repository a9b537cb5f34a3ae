use bongo_cat::geometry::{pt, NormalizedCursor, Point};
use bongo_cat::input::{AnimationState, ClickStates, Sample, TickAction};
use bongo_cat::pose::pose;
use bongo_cat::scene::{draw_bongo, key_shape, outline, pick_key, Color, DrawOp, Shape, KEY_COUNT};
use bongo_cat::shapes::{bounds, key_d, key_space, paws, press_offset, table, Segment};

fn cursor(x: i32, y: i32, width: u32, height: u32) -> NormalizedCursor {
    NormalizedCursor { x, y, width, height }
}

fn shapes_of(ops: &[DrawOp]) -> Vec<Shape> {
    ops.iter().map(|o| o.shape).collect()
}

#[test]
fn quiet_frame_is_neutral() {
    // cursor in the middle of the screen, nothing pressed, away from the overlay
    let mut st = AnimationState::new(1920, 1080);
    st.opacity = 60;
    let s = Sample {
        mouse_x: 960,
        mouse_y: 540,
        left_click: false,
        right_click: false,
        middle_click: false,
        any_key: false,
        quit_key: false,
    };
    for _ in 0..5 {
        assert_eq!(st.tick(&s), TickAction::Redraw);
    }
    assert_eq!(st.opacity, 100);
    assert_eq!(st.tick(&s), TickAction::Idle);

    let c = st.cursor();
    let ops = draw_bongo(&c, &st.clicks, 12345);
    let p = pose(&c);
    assert_eq!(ops.len(), 8 + KEY_COUNT + 4);
    assert!(ops.iter().all(|o| o.fill != Some(Color::Blue)));
    let hand: Vec<&DrawOp> =
        ops.iter().filter(|o| o.shape == Shape::LeftHand || o.shape == Shape::Paws).collect();
    assert_eq!(hand.len(), 2);
    assert!(hand.iter().all(|o| o.offset == p.body_offset));
    assert!(!shapes_of(&ops).contains(&Shape::MouseButtonLeft));
    assert!(!shapes_of(&ops).contains(&Shape::MouseButtonRight));
}

#[test]
fn draw_order_back_to_front() {
    let clicks = ClickStates { left_click: true, right_click: true, other_click: false, middle_click: true };
    let ops = draw_bongo(&cursor(3, 4, 10, 10), &clicks, 0);
    let mut expected = vec![
        Shape::Table,
        Shape::Mousepad,
        Shape::Mouse,
        Shape::MouseWheel,
        Shape::TableLineLeft,
        Shape::BodyFill,
        Shape::BodyOutline,
        Shape::TableLineRight,
    ];
    for i in 0..KEY_COUNT {
        expected.push(Shape::Key(i));
    }
    expected.extend([
        Shape::LeftHand,
        Shape::Paws,
        Shape::Eyes,
        Shape::Mouth,
        Shape::MouseButtonLeft,
        Shape::MouseButtonRight,
    ]);
    assert_eq!(shapes_of(&ops), expected);
    assert_eq!(ops[3].fill, Some(Color::Blue));
    let p = pose(&cursor(3, 4, 10, 10));
    assert_eq!(ops[ops.len() - 1].offset, p.mouse_offset);
    assert_eq!(ops[ops.len() - 1].fill, Some(Color::Blue));
}

#[test]
fn wheel_is_plain_without_middle_click() {
    let ops = draw_bongo(&cursor(3, 4, 10, 10), &ClickStates::new(), 0);
    assert_eq!(ops[3].shape, Shape::MouseWheel);
    assert_eq!(ops[3].fill, Some(Color::MousepadFill));
}

#[test]
fn held_key_lights_one_key_and_moves_paw() {
    let clicks = ClickStates { left_click: false, right_click: false, other_click: true, middle_click: false };
    let ops = draw_bongo(&cursor(3, 4, 10, 10), &clicks, 17);
    let lit: Vec<&DrawOp> = ops.iter().filter(|o| o.fill == Some(Color::Blue)).collect();
    assert_eq!(lit.len(), 1);
    assert_eq!(lit[0].shape, Shape::Key(17 % KEY_COUNT));
    let hand = ops.iter().find(|o| o.shape == Shape::Paws).unwrap();
    assert_eq!(hand.offset, press_offset(&paws(), &key_shape(2)));
    assert_ne!(hand.offset, pose(&cursor(3, 4, 10, 10)).body_offset);
}

#[test]
fn pick_key_is_uniform_over_draws() {
    let mut counts = vec![0u32; KEY_COUNT];
    for d in 0..(KEY_COUNT as u64 * 100) {
        counts[pick_key(d)] += 1;
    }
    assert!(counts.iter().all(|&c| c == 100));

    let mut counts = vec![0u32; KEY_COUNT];
    let mut x: u64 = 0x9E37_79B9_7F4A_7C15;
    for _ in 0..15000 {
        x ^= x << 13;
        x ^= x >> 7;
        x ^= x << 17;
        counts[pick_key(x)] += 1;
    }
    assert!(counts.iter().all(|&c| c > 800 && c < 1200));
}

#[test]
fn table_bounds() {
    let t = table();
    assert_eq!(t[0], Segment::MoveTo(pt(-9766000, -1696000)));
    assert_eq!(bounds(&t), Some((pt(-9766000, -1696000), pt(14889000, 6854000))));
    assert_eq!(bounds(&paws()), Some((pt(7245000, -1405000), pt(8824000, 1006000))));
    assert_eq!(bounds(&Vec::new()), None);
}

#[test]
fn press_offset_joins_centres() {
    let a = vec![Segment::MoveTo(pt(0, 0)), Segment::LineTo(pt(10, 20))];
    let b = vec![
        Segment::MoveTo(pt(100, 100)),
        Segment::CubicTo(pt(90, 130), pt(120, 100), pt(110, 110)),
        Segment::Close,
    ];
    // centres (5, 10) and (105, 115)
    assert_eq!(press_offset(&a, &b), Point { x: 100, y: 105 });
    assert_eq!(press_offset(&a, &a), Point { x: 0, y: 0 });
}

#[test]
fn every_shape_has_a_path() {
    let p = pose(&cursor(1, 1, 2, 2));
    for i in 0..KEY_COUNT {
        let k = outline(Shape::Key(i), &p);
        assert!(matches!(k[0], Segment::MoveTo(_)));
    }
    assert_eq!(outline(Shape::Key(0), &p), key_space());
    assert_eq!(outline(Shape::Paws, &p), paws());
    assert_eq!(key_shape(1), key_d());
    assert_ne!(key_shape(1), key_space());
}

#[test]
fn palette() {
    assert_eq!(Color::Blue.rgba(), [56, 143, 255, 150]);
    assert_eq!(Color::MousepadStroke.rgba(), [108, 108, 110, 255]);
}
