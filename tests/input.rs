use bongo_cat::input::{
    next_opacity, AnimationState, ClickStates, Sample, TickAction, FULL_OPACITY, MIN_OPACITY,
};

fn still(x: i32, y: i32) -> Sample {
    Sample {
        mouse_x: x,
        mouse_y: y,
        left_click: false,
        right_click: false,
        middle_click: false,
        any_key: false,
        quit_key: false,
    }
}

#[test]
fn click_states_start_released() {
    let c = ClickStates::new();
    assert!(!c.left_click && !c.right_click && !c.middle_click && !c.other_click);
}

#[test]
fn opacity_fades_while_hovering() {
    let mut o = FULL_OPACITY;
    let mut seen = vec![o];
    for _ in 0..10 {
        let n = next_opacity(o, true);
        assert!(n <= o && n >= MIN_OPACITY);
        o = n;
        seen.push(o);
    }
    assert_eq!(seen, vec![100, 92, 84, 76, 68, 60, 52, 44, 40, 40, 40]);
}

#[test]
fn opacity_recovers_when_away() {
    let mut o = MIN_OPACITY;
    let mut seen = vec![o];
    for _ in 0..10 {
        let n = next_opacity(o, false);
        assert!(n >= o && n <= FULL_OPACITY);
        o = n;
        seen.push(o);
    }
    assert_eq!(seen, vec![40, 48, 56, 64, 72, 80, 88, 96, 100, 100, 100]);
}

#[test]
fn window_sits_in_bottom_right_corner() {
    let st = AnimationState::new(1920, 1080);
    assert_eq!(st.window_x, 1920 - 410);
    assert_eq!(st.window_y, 1080 - 290);
    assert_eq!(st.opacity, 100);
}

#[test]
fn tick_redraws_on_change_only() {
    let mut st = AnimationState::new(1920, 1080);
    assert_eq!(st.tick(&still(0, 0)), TickAction::Idle);
    assert_eq!(st.tick(&still(10, 0)), TickAction::Redraw);
    assert_eq!(st.mouse_x, 10);
    assert_eq!(st.tick(&still(10, 0)), TickAction::Idle);
    let mut s = still(10, 0);
    s.middle_click = true;
    assert_eq!(st.tick(&s), TickAction::Redraw);
    assert!(st.clicks.middle_click);
    s.any_key = true;
    assert_eq!(st.tick(&s), TickAction::Redraw);
    assert!(st.clicks.other_click);
}

#[test]
fn tick_hover_fades_the_overlay() {
    let mut st = AnimationState::new(1920, 1080);
    // inside the window at (1510..1870, 790..1030)
    assert_eq!(st.tick(&still(1600, 900)), TickAction::Redraw);
    assert!(st.hovering);
    assert_eq!(st.opacity, 100);
    assert_eq!(st.tick(&still(1600, 900)), TickAction::Redraw);
    assert_eq!(st.opacity, 92);
    for _ in 0..20 {
        st.tick(&still(1600, 900));
    }
    assert_eq!(st.opacity, 40);
    assert_eq!(st.tick(&still(1600, 900)), TickAction::Idle);
}

#[test]
fn hover_edges() {
    let mut st = AnimationState::new(1920, 1080);
    st.tick(&still(1510, 790));
    assert!(st.hovering);
    st.tick(&still(1870, 790));
    assert!(!st.hovering);
    st.tick(&still(1869, 1029));
    assert!(st.hovering);
    st.tick(&still(1869, 1030));
    assert!(!st.hovering);
}

#[test]
fn quit_needs_focus() {
    let mut st = AnimationState::new(1920, 1080);
    let mut s = still(5, 5);
    s.quit_key = true;
    s.any_key = true;
    assert_eq!(st.tick(&s), TickAction::Redraw);
    st.set_focus(true);
    let before = st;
    assert_eq!(st.tick(&s), TickAction::Exit);
    assert_eq!(st, before);
}

#[test]
fn cursor_is_a_fraction_of_the_monitor() {
    let mut st = AnimationState::new(1920, 1080);
    st.tick(&still(960, 540));
    let c = st.cursor();
    assert_eq!((c.x, c.y, c.width, c.height), (960, 540, 1920, 1080));
}
