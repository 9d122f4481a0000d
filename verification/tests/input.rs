use galaxy::input::{handle_event, initial_state, InputEvent, KeyInput, MouseInput, ViewAction};

fn mouse(kind: MouseInput, column: u16, row: u16) -> InputEvent {
    InputEvent::Mouse { kind, column, row }
}

#[test]
fn keys_map_to_view_actions() {
    let mut s = initial_state();
    assert_eq!(handle_event(&mut s, InputEvent::Key(KeyInput::Char('+'))), ViewAction::ZoomIn { anchor: None });
    assert_eq!(handle_event(&mut s, InputEvent::Key(KeyInput::Char('='))), ViewAction::ZoomIn { anchor: None });
    assert_eq!(handle_event(&mut s, InputEvent::Key(KeyInput::Char('-'))), ViewAction::ZoomOut { anchor: None });
    assert_eq!(handle_event(&mut s, InputEvent::Key(KeyInput::Left)), ViewAction::Pan { cells_x: -10, cells_y: 0 });
    assert_eq!(handle_event(&mut s, InputEvent::Key(KeyInput::Right)), ViewAction::Pan { cells_x: 10, cells_y: 0 });
    assert_eq!(handle_event(&mut s, InputEvent::Key(KeyInput::Up)), ViewAction::Pan { cells_x: 0, cells_y: -5 });
    assert_eq!(handle_event(&mut s, InputEvent::Key(KeyInput::Down)), ViewAction::Pan { cells_x: 0, cells_y: 5 });
    assert_eq!(handle_event(&mut s, InputEvent::Key(KeyInput::Char('x'))), ViewAction::Redraw);
    assert!(!s.quit);
    assert_eq!(handle_event(&mut s, InputEvent::Key(KeyInput::Char('q'))), ViewAction::Quit);
    assert!(s.quit);
}

#[test]
fn wheel_zooms_at_the_pointer() {
    let mut s = initial_state();
    assert_eq!(handle_event(&mut s, mouse(MouseInput::ScrollUp, 3, 4)), ViewAction::ZoomInAt { column: 3, row: 4 });
    assert_eq!(handle_event(&mut s, mouse(MouseInput::ScrollDown, 5, 6)), ViewAction::ZoomOutAt { column: 5, row: 6 });
    assert_eq!(s, initial_state());
}

#[test]
fn drag_pans_by_pointer_motion() {
    let mut s = initial_state();
    assert_eq!(handle_event(&mut s, mouse(MouseInput::LeftDown, 10, 10)), ViewAction::Redraw);
    assert!(s.dragging);
    assert_eq!(s.last_mouse, Some((10, 10)));
    // keyboard zoom anchors at the pressed position
    assert_eq!(handle_event(&mut s, InputEvent::Key(KeyInput::Char('+'))), ViewAction::ZoomIn { anchor: Some((10, 10)) });
    assert_eq!(handle_event(&mut s, mouse(MouseInput::LeftDrag, 13, 8)), ViewAction::Drag { dx: 3, dy: -2 });
    assert_eq!(handle_event(&mut s, mouse(MouseInput::LeftDrag, 12, 12)), ViewAction::Drag { dx: -1, dy: 4 });
    assert_eq!(handle_event(&mut s, mouse(MouseInput::LeftUp, 12, 12)), ViewAction::Redraw);
    assert!(!s.dragging);
    assert_eq!(s.last_mouse, None);
    assert_eq!(handle_event(&mut s, mouse(MouseInput::LeftDrag, 20, 20)), ViewAction::Redraw);
    assert_eq!(s.last_mouse, None);
}

#[test]
fn other_events_only_redraw() {
    let mut s = initial_state();
    assert_eq!(handle_event(&mut s, InputEvent::Resize), ViewAction::Redraw);
    assert_eq!(handle_event(&mut s, InputEvent::Other), ViewAction::Redraw);
    assert_eq!(handle_event(&mut s, mouse(MouseInput::Other, 1, 1)), ViewAction::Redraw);
    assert_eq!(s, initial_state());
}
