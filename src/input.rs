//! Sampling of the pointer and keyboard, and the per-tick redraw decision.

use vstd::prelude::*;

use crate::geometry::NormalizedCursor;

verus! {

/// Which buttons and keys are held down during the current tick.
#[derive(Clone, Copy, Debug, PartialEq, Eq, Structural)]
pub struct ClickStates {
    pub left_click: bool,
    pub right_click: bool,
    pub other_click: bool,
    pub middle_click: bool,
}

impl ClickStates {
    /// Nothing pressed.
    pub fn new() -> (r: Self)
        ensures
            !r.left_click,
            !r.right_click,
            !r.other_click,
            !r.middle_click,
    {
        ClickStates { left_click: false, right_click: false, other_click: false, middle_click: false }
    }
}

/// Width of the overlay window, in pixels.
pub const WIN_WIDTH: i64 = 360;

/// Height of the overlay window, in pixels.
pub const WIN_HEIGHT: i64 = 240;

/// Gap between the overlay and the bottom-right corner of the monitor.
pub const OFFSET: i64 = 50;

/// Lowest opacity, in hundredths, reached while the cursor rests on the overlay.
pub const MIN_OPACITY: u32 = 40;

/// Full opacity, in hundredths.
pub const FULL_OPACITY: u32 = 100;

/// Change of opacity per tick, in hundredths.
pub const OPACITY_ANIM_SPEED: u32 = 8;

/// One step of the hover fade: towards `MIN_OPACITY` while the cursor is
/// over the overlay, towards `FULL_OPACITY` otherwise, never past either.
pub open spec fn spec_next_opacity(opacity: u32, hovering: bool) -> u32 {
    if hovering {
        if opacity >= MIN_OPACITY + OPACITY_ANIM_SPEED {
            (opacity - OPACITY_ANIM_SPEED) as u32
        } else {
            MIN_OPACITY
        }
    } else {
        if opacity + OPACITY_ANIM_SPEED <= FULL_OPACITY {
            (opacity + OPACITY_ANIM_SPEED) as u32
        } else {
            FULL_OPACITY
        }
    }
}

/// The opacity after one tick.
pub fn next_opacity(opacity: u32, hovering: bool) -> (r: u32)
    requires
        opacity <= FULL_OPACITY,
    ensures
        r == spec_next_opacity(opacity, hovering),
{
    if hovering {
        if opacity >= MIN_OPACITY + OPACITY_ANIM_SPEED {
            opacity - OPACITY_ANIM_SPEED
        } else {
            MIN_OPACITY
        }
    } else {
        if opacity + OPACITY_ANIM_SPEED <= FULL_OPACITY {
            opacity + OPACITY_ANIM_SPEED
        } else {
            FULL_OPACITY
        }
    }
}

/// The opacity after `n` ticks with the same hover state.
pub open spec fn opacity_after(opacity: u32, hovering: bool, n: nat) -> u32
    decreases n,
{
    if n == 0 {
        opacity
    } else {
        spec_next_opacity(opacity_after(opacity, hovering, (n - 1) as nat), hovering)
    }
}

/// While the cursor stays over the overlay the opacity never rises and never
/// drops below `MIN_OPACITY`; while it stays away the opacity never falls and
/// never exceeds `FULL_OPACITY`. Either way it stays within both bounds, and
/// after enough ticks it rests on the bound it moves towards.
pub proof fn lemma_opacity_runs(opacity: u32, hovering: bool, m: nat, n: nat)
    requires
        MIN_OPACITY <= opacity <= FULL_OPACITY,
        m <= n,
    ensures
        MIN_OPACITY <= opacity_after(opacity, hovering, n) <= FULL_OPACITY,
        hovering ==> opacity_after(opacity, hovering, n) <= opacity_after(opacity, hovering, m),
        !hovering ==> opacity_after(opacity, hovering, n) >= opacity_after(opacity, hovering, m),
        n >= (FULL_OPACITY - MIN_OPACITY) as int / OPACITY_ANIM_SPEED as int + 1 ==> opacity_after(
            opacity,
            hovering,
            n,
        ) == if hovering {
            MIN_OPACITY
        } else {
            FULL_OPACITY
        },
    decreases n,
{
    if n > 0 {
        let k = (n - 1) as nat;
        if m < n {
            lemma_opacity_runs(opacity, hovering, m, k);
        } else {
            lemma_opacity_runs(opacity, hovering, k, k);
        }
        lemma_opacity_close(opacity, hovering, k);
    }
}

/// After `n` ticks the opacity is within `n` steps of where it started, or on
/// the bound it moves towards.
proof fn lemma_opacity_close(opacity: u32, hovering: bool, n: nat)
    requires
        MIN_OPACITY <= opacity <= FULL_OPACITY,
    ensures
        hovering ==> opacity_after(opacity, hovering, n) == MIN_OPACITY || opacity_after(
            opacity,
            hovering,
            n,
        ) == opacity - n * OPACITY_ANIM_SPEED,
        !hovering ==> opacity_after(opacity, hovering, n) == FULL_OPACITY || opacity_after(
            opacity,
            hovering,
            n,
        ) == opacity + n * OPACITY_ANIM_SPEED,
        MIN_OPACITY <= opacity_after(opacity, hovering, n) <= FULL_OPACITY,
    decreases n,
{
    if n > 0 {
        lemma_opacity_close(opacity, hovering, (n - 1) as nat);
    }
}

/// What the sampler reads from the input devices in one tick.
#[derive(Clone, Copy, Debug, PartialEq, Eq, Structural)]
pub struct Sample {
    /// Cursor position in physical pixels.
    pub mouse_x: i32,
    pub mouse_y: i32,
    pub left_click: bool,
    pub right_click: bool,
    pub middle_click: bool,
    /// Any key of the keyboard is held.
    pub any_key: bool,
    /// The quit key is held.
    pub quit_key: bool,
}

/// What the host loop does after a tick.
#[derive(Clone, Copy, Debug, PartialEq, Eq, Structural)]
pub enum TickAction {
    /// Nothing changed.
    Idle,
    /// Something visible changed: draw a new frame.
    Redraw,
    /// The quit key was pressed while the overlay had focus.
    Exit,
}

/// The sampler's memory between ticks.
#[derive(Clone, Copy, Debug, PartialEq, Eq, Structural)]
pub struct AnimationState {
    pub mouse_x: i32,
    pub mouse_y: i32,
    pub clicks: ClickStates,
    /// Whether the cursor was over the overlay at the last tick.
    pub hovering: bool,
    /// Opacity of the overlay, in hundredths.
    pub opacity: u32,
    pub focused: bool,
    /// The monitor's size and the overlay's top-left corner on it.
    pub monitor_width: u32,
    pub monitor_height: u32,
    pub window_x: i64,
    pub window_y: i64,
}

/// The cursor lies over the overlay placed at `(x, y)`.
pub open spec fn over_window(x: i64, y: i64, mouse_x: i32, mouse_y: i32) -> bool {
    x <= mouse_x < x + WIN_WIDTH && y <= mouse_y < y + WIN_HEIGHT
}

/// The state after a tick that did not quit.
pub open spec fn spec_tick(st: AnimationState, s: Sample) -> AnimationState {
    AnimationState {
        mouse_x: s.mouse_x,
        mouse_y: s.mouse_y,
        clicks: ClickStates {
            left_click: s.left_click,
            right_click: s.right_click,
            other_click: s.any_key,
            middle_click: s.middle_click,
        },
        hovering: over_window(st.window_x, st.window_y, s.mouse_x, s.mouse_y),
        opacity: spec_next_opacity(st.opacity, st.hovering),
        ..st
    }
}

impl AnimationState {
    pub open spec fn wf(self) -> bool {
        &&& MIN_OPACITY <= self.opacity <= FULL_OPACITY
        &&& self.monitor_width > 0
        &&& self.monitor_height > 0
        &&& self.window_x == self.monitor_width - (WIN_WIDTH + OFFSET)
        &&& self.window_y == self.monitor_height - (WIN_HEIGHT + OFFSET)
    }

    /// Whether the state is well formed: opacity in range, a monitor with
    /// area, and the overlay in its corner.
    pub fn valid(&self) -> (r: bool)
        ensures
            r == self.wf(),
    {
        MIN_OPACITY <= self.opacity && self.opacity <= FULL_OPACITY && self.monitor_width > 0
            && self.monitor_height > 0 && self.window_x == self.monitor_width as i64 - (WIN_WIDTH
            + OFFSET) && self.window_y == self.monitor_height as i64 - (WIN_HEIGHT + OFFSET)
    }

    /// The state at start-up on a monitor of the given size: overlay in the
    /// bottom-right corner, fully opaque, nothing pressed.
    pub fn new(monitor_width: u32, monitor_height: u32) -> (r: Self)
        requires
            monitor_width > 0,
            monitor_height > 0,
        ensures
            r.wf(),
            r.mouse_x == 0 && r.mouse_y == 0,
            !r.clicks.left_click && !r.clicks.right_click,
            !r.clicks.middle_click && !r.clicks.other_click,
            !r.hovering,
            r.opacity == FULL_OPACITY,
            !r.focused,
            r.monitor_width == monitor_width && r.monitor_height == monitor_height,
    {
        AnimationState {
            mouse_x: 0,
            mouse_y: 0,
            clicks: ClickStates::new(),
            hovering: false,
            opacity: FULL_OPACITY,
            focused: false,
            monitor_width,
            monitor_height,
            window_x: monitor_width as i64 - (WIN_WIDTH + OFFSET),
            window_y: monitor_height as i64 - (WIN_HEIGHT + OFFSET),
        }
    }

    /// Records whether the overlay has input focus.
    pub fn set_focus(&mut self, focused: bool)
        ensures
            *final(self) == (AnimationState { focused, ..*old(self) }),
    {
        self.focused = focused;
    }

    /// The cursor as a fraction of the monitor.
    pub fn cursor(&self) -> (r: NormalizedCursor)
        requires
            self.wf(),
        ensures
            r == (NormalizedCursor {
                x: self.mouse_x,
                y: self.mouse_y,
                width: self.monitor_width,
                height: self.monitor_height,
            }),
            r.wf(),
    {
        NormalizedCursor {
            x: self.mouse_x,
            y: self.mouse_y,
            width: self.monitor_width,
            height: self.monitor_height,
        }
    }

    /// Takes in one sample. With focus and the quit key held, asks to exit
    /// and changes nothing. Otherwise records the cursor and buttons, steps
    /// the fade by the previous hover state, works out the new hover state,
    /// and asks for a redraw exactly when any of these changed.
    pub fn tick(&mut self, s: &Sample) -> (r: TickAction)
        requires
            old(self).wf(),
        ensures
            final(self).wf(),
            old(self).focused && s.quit_key ==> r == TickAction::Exit && *final(self) == *old(self),
            !(old(self).focused && s.quit_key) ==> {
                &&& *final(self) == spec_tick(*old(self), *s)
                &&& r != TickAction::Exit
                &&& (r == TickAction::Redraw <==> *final(self) != *old(self))
            },
    {
        if self.focused && s.quit_key {
            return TickAction::Exit;
        }
        let x = s.mouse_x as i64;
        let y = s.mouse_y as i64;
        let hovering = x >= self.window_x && x < self.window_x + WIN_WIDTH && y >= self.window_y && y
            < self.window_y + WIN_HEIGHT;
        let next = AnimationState {
            mouse_x: s.mouse_x,
            mouse_y: s.mouse_y,
            clicks: ClickStates {
                left_click: s.left_click,
                right_click: s.right_click,
                other_click: s.any_key,
                middle_click: s.middle_click,
            },
            hovering,
            opacity: next_opacity(self.opacity, self.hovering),
            ..*self
        };
        let changed = next != *self;
        *self = next;
        if changed {
            TickAction::Redraw
        } else {
            TickAction::Idle
        }
    }
}

} // verus!
