//! Input handling of the interactive view: left-button drag pans, the mouse
//! wheel zooms at the pointer, arrow keys pan, `+`/`=` and `-` zoom, and `q`
//! quits. The decisions are made here; the caller applies the resulting
//! action to its floating-point view (centre and zoom).

use vstd::prelude::*;

verus! {

/// A key press, as far as the view distinguishes keys.
#[derive(Clone, Copy, Debug, PartialEq, Eq)]
pub enum KeyInput {
    Char(char),
    Left,
    Right,
    Up,
    Down,
    Other,
}

/// The kind of a mouse event.
#[derive(Clone, Copy, Debug, PartialEq, Eq)]
pub enum MouseInput {
    ScrollUp,
    ScrollDown,
    LeftDown,
    LeftUp,
    LeftDrag,
    Other,
}

/// A terminal event.
#[derive(Clone, Copy, Debug, PartialEq, Eq)]
pub enum InputEvent {
    Key(KeyInput),
    Mouse { kind: MouseInput, column: u16, row: u16 },
    Resize,
    Other,
}

/// What the view must do in answer to an event.
#[derive(Clone, Copy, Debug, PartialEq, Eq)]
pub enum ViewAction {
    /// Nothing changes but a redraw.
    Redraw,
    /// Leave the view.
    Quit,
    /// Zoom in by one step, keeping the world point under `anchor` (the last
    /// pressed mouse position, or the screen centre when `None`) fixed.
    ZoomIn { anchor: Option<(i16, i16)> },
    /// Zoom out by one step around `anchor`, as for `ZoomIn`.
    ZoomOut { anchor: Option<(i16, i16)> },
    /// Move the centre by `cells_x`, `cells_y` terminal cells (arrow keys).
    Pan { cells_x: i32, cells_y: i32 },
    /// Zoom in by one step keeping the point under the pointer fixed.
    ZoomInAt { column: u16, row: u16 },
    /// Zoom out by one step keeping the point under the pointer fixed.
    ZoomOutAt { column: u16, row: u16 },
    /// Drag the view: the centre moves against the pointer's motion of
    /// `dx`, `dy` cells.
    Drag { dx: i16, dy: i16 },
}

/// The pointer state of the interactive view.
#[derive(Clone, Copy, Debug, PartialEq, Eq)]
pub struct InputState {
    /// The left button is held.
    pub dragging: bool,
    /// Last pointer position seen while the button was held.
    pub last_mouse: Option<(i16, i16)>,
    /// The user asked to leave.
    pub quit: bool,
}

/// The state before any event.
pub open spec fn spec_initial_state() -> InputState {
    InputState { dragging: false, last_mouse: None, quit: false }
}

/// The state of a view that has just started.
pub fn initial_state() -> (s: InputState)
    ensures
        s == spec_initial_state(),
{
    InputState { dragging: false, last_mouse: None, quit: false }
}

/// Action of a key press.
pub open spec fn spec_key_action(s: InputState, k: KeyInput) -> ViewAction {
    match k {
        KeyInput::Char(c) => {
            if c == 'q' {
                ViewAction::Quit
            } else if c == '+' || c == '=' {
                ViewAction::ZoomIn { anchor: s.last_mouse }
            } else if c == '-' {
                ViewAction::ZoomOut { anchor: s.last_mouse }
            } else {
                ViewAction::Redraw
            }
        },
        KeyInput::Left => ViewAction::Pan { cells_x: -10i32, cells_y: 0i32 },
        KeyInput::Right => ViewAction::Pan { cells_x: 10i32, cells_y: 0i32 },
        KeyInput::Up => ViewAction::Pan { cells_x: 0i32, cells_y: -5i32 },
        KeyInput::Down => ViewAction::Pan { cells_x: 0i32, cells_y: 5i32 },
        KeyInput::Other => ViewAction::Redraw,
    }
}

/// A drag event cannot overflow the `i16` pointer arithmetic.
pub open spec fn event_ok(s: InputState, ev: InputEvent) -> bool {
    match ev {
        InputEvent::Mouse { kind: MouseInput::LeftDrag, column, row } => {
            s.dragging ==> match s.last_mouse {
                Some(l) => {
                    &&& i16::MIN <= column as i16 - l.0 <= i16::MAX
                    &&& i16::MIN <= row as i16 - l.1 <= i16::MAX
                },
                None => true,
            }
        },
        _ => true,
    }
}

/// Next pointer state and action for an event.
pub open spec fn spec_step(s: InputState, ev: InputEvent) -> (InputState, ViewAction) {
    match ev {
        InputEvent::Key(k) => {
            let a = spec_key_action(s, k);
            (InputState { quit: s.quit || a == ViewAction::Quit, ..s }, a)
        },
        InputEvent::Mouse { kind, column, row } => match kind {
            MouseInput::ScrollUp => (s, ViewAction::ZoomInAt { column, row }),
            MouseInput::ScrollDown => (s, ViewAction::ZoomOutAt { column, row }),
            MouseInput::LeftDown => (
                InputState { dragging: true, last_mouse: Some((column as i16, row as i16)), ..s },
                ViewAction::Redraw,
            ),
            MouseInput::LeftUp => (
                InputState { dragging: false, last_mouse: None, ..s },
                ViewAction::Redraw,
            ),
            MouseInput::LeftDrag => {
                if !s.dragging {
                    (s, ViewAction::Redraw)
                } else {
                    let p = (column as i16, row as i16);
                    match s.last_mouse {
                        Some(l) => (
                            InputState { last_mouse: Some(p), ..s },
                            ViewAction::Drag { dx: (p.0 - l.0) as i16, dy: (p.1 - l.1) as i16 },
                        ),
                        None => (InputState { last_mouse: Some(p), ..s }, ViewAction::Redraw),
                    }
                }
            },
            MouseInput::Other => (s, ViewAction::Redraw),
        },
        InputEvent::Resize => (s, ViewAction::Redraw),
        InputEvent::Other => (s, ViewAction::Redraw),
    }
}

/// Action of a key press.
fn key_action(s: &InputState, k: KeyInput) -> (a: ViewAction)
    ensures
        a == spec_key_action(*s, k),
{
    match k {
        KeyInput::Char(c) => {
            if c == 'q' {
                ViewAction::Quit
            } else if c == '+' || c == '=' {
                ViewAction::ZoomIn { anchor: s.last_mouse }
            } else if c == '-' {
                ViewAction::ZoomOut { anchor: s.last_mouse }
            } else {
                ViewAction::Redraw
            }
        },
        KeyInput::Left => ViewAction::Pan { cells_x: -10i32, cells_y: 0i32 },
        KeyInput::Right => ViewAction::Pan { cells_x: 10i32, cells_y: 0i32 },
        KeyInput::Up => ViewAction::Pan { cells_x: 0i32, cells_y: -5i32 },
        KeyInput::Down => ViewAction::Pan { cells_x: 0i32, cells_y: 5i32 },
        KeyInput::Other => ViewAction::Redraw,
    }
}

/// Updates the pointer state for an event and returns the view action.
pub fn handle_event(s: &mut InputState, ev: InputEvent) -> (a: ViewAction)
    requires
        event_ok(*old(s), ev),
    ensures
        (*final(s), a) == spec_step(*old(s), ev),
{
    match ev {
        InputEvent::Key(k) => {
            let a = key_action(s, k);
            if let ViewAction::Quit = a {
                s.quit = true;
            }
            a
        },
        InputEvent::Mouse { kind, column, row } => match kind {
            MouseInput::ScrollUp => ViewAction::ZoomInAt { column, row },
            MouseInput::ScrollDown => ViewAction::ZoomOutAt { column, row },
            MouseInput::LeftDown => {
                s.dragging = true;
                s.last_mouse = Some((column as i16, row as i16));
                ViewAction::Redraw
            },
            MouseInput::LeftUp => {
                s.dragging = false;
                s.last_mouse = None;
                ViewAction::Redraw
            },
            MouseInput::LeftDrag => {
                if s.dragging {
                    let nx = column as i16;
                    let ny = row as i16;
                    match s.last_mouse {
                        Some((lx, ly)) => {
                            let dx = nx - lx;
                            let dy = ny - ly;
                            s.last_mouse = Some((nx, ny));
                            ViewAction::Drag { dx, dy }
                        },
                        None => {
                            s.last_mouse = Some((nx, ny));
                            ViewAction::Redraw
                        },
                    }
                } else {
                    ViewAction::Redraw
                }
            },
            MouseInput::Other => ViewAction::Redraw,
        },
        InputEvent::Resize => ViewAction::Redraw,
        InputEvent::Other => ViewAction::Redraw,
    }
}

/// Only the `q` key sets the quit flag, and once set it stays set.
pub proof fn lemma_quit_only_on_q(s: InputState, ev: InputEvent)
    ensures
        spec_step(s, ev).0.quit == (s.quit || ev == InputEvent::Key(KeyInput::Char('q'))),
{
}

/// Releasing the left button ends the drag: the next drag event moves
/// nothing.
pub proof fn lemma_release_ends_drag(s: InputState, up: InputEvent, drag: InputEvent)
    requires
        up matches InputEvent::Mouse { kind: MouseInput::LeftUp, .. },
        drag matches InputEvent::Mouse { kind: MouseInput::LeftDrag, .. },
    ensures
        spec_step(spec_step(s, up).0, drag) == (spec_step(s, up).0, ViewAction::Redraw),
{
}

/// Dragging pans by the pointer's total motion: after a press at `p0` and
/// drags to `p1` and then `p2`, the two drag offsets add up to `p2 - p0`.
pub proof fn lemma_drag_telescopes(s: InputState, c0: u16, r0: u16, c1: u16, r1: u16, c2: u16, r2: u16)
    requires
        i16::MIN <= c1 as i16 - c0 as i16 <= i16::MAX,
        i16::MIN <= r1 as i16 - r0 as i16 <= i16::MAX,
        i16::MIN <= c2 as i16 - c1 as i16 <= i16::MAX,
        i16::MIN <= r2 as i16 - r1 as i16 <= i16::MAX,
    ensures
        ({
            let (s1, _) = spec_step(
                s,
                InputEvent::Mouse { kind: MouseInput::LeftDown, column: c0, row: r0 },
            );
            let (s2, a1) = spec_step(
                s1,
                InputEvent::Mouse { kind: MouseInput::LeftDrag, column: c1, row: r1 },
            );
            let (_, a2) = spec_step(
                s2,
                InputEvent::Mouse { kind: MouseInput::LeftDrag, column: c2, row: r2 },
            );
            &&& a1 matches ViewAction::Drag { dx: dx1, dy: dy1 }
            &&& a2 matches ViewAction::Drag { dx: dx2, dy: dy2 }
            &&& dx1 + dx2 == c2 as i16 - c0 as i16
            &&& dy1 + dy2 == r2 as i16 - r0 as i16
        }),
{
}


/// Keyboard zoom keeps the current pointer state as its anchor: `+` or `=`
/// zooms in and `-` zooms out around exactly `last_mouse`, without changing
/// the pointer state.
pub proof fn lemma_key_zoom_anchor(s: InputState, c: char)
    ensures
        (c == '+' || c == '=') ==> spec_step(s, InputEvent::Key(KeyInput::Char(c))) == (
            s,
            ViewAction::ZoomIn { anchor: s.last_mouse },
        ),
        c == '-' ==> spec_step(s, InputEvent::Key(KeyInput::Char(c))) == (
            s,
            ViewAction::ZoomOut { anchor: s.last_mouse },
        ),
{
}

/// After the left button is pressed at `(column, row)`, a keyboard zoom is
/// anchored at that very point, column first.
pub proof fn lemma_press_then_zoom_anchor(s: InputState, column: u16, row: u16, c: char)
    requires
        c == '+' || c == '=' || c == '-',
    ensures
        ({
            let s1 = spec_step(s, InputEvent::Mouse { kind: MouseInput::LeftDown, column, row }).0;
            let a = spec_step(s1, InputEvent::Key(KeyInput::Char(c))).1;
            &&& a matches ViewAction::ZoomIn { anchor } ==> anchor == Some((column as i16, row as i16))
            &&& a matches ViewAction::ZoomOut { anchor } ==> anchor == Some((column as i16, row as i16))
            &&& (a is ZoomIn || a is ZoomOut)
        }),
{
}

/// Arrow keys pan by fixed steps: ten cells sideways, five cells up or down,
/// in the direction of the key.
pub proof fn lemma_arrow_pans(s: InputState)
    ensures
        spec_step(s, InputEvent::Key(KeyInput::Left)).1 == (ViewAction::Pan { cells_x: -10i32, cells_y: 0i32 }),
        spec_step(s, InputEvent::Key(KeyInput::Right)).1 == (ViewAction::Pan { cells_x: 10i32, cells_y: 0i32 }),
        spec_step(s, InputEvent::Key(KeyInput::Up)).1 == (ViewAction::Pan { cells_x: 0i32, cells_y: -5i32 }),
        spec_step(s, InputEvent::Key(KeyInput::Down)).1 == (ViewAction::Pan { cells_x: 0i32, cells_y: 5i32 }),
{
}

} // verus!
