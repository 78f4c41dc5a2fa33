//! End-to-end tests of the input session state machine.

use wayscriber::board::BoardMode;
use wayscriber::color::Color;
use wayscriber::events::{Key, MouseButton};
use wayscriber::shape::{FontDescriptor, FontStyle, FontWeight, Shape};
use wayscriber::state::{DrawingState, InputState};
use wayscriber::tool::Tool;

fn session_with(color: Color, thickness: u32) -> InputState {
    let font = FontDescriptor::new(String::from("Sans"), FontWeight::Bold, FontStyle::Normal);
    InputState::with_defaults(color, thickness, 16, font, true, 20, 25)
}

fn session() -> InputState {
    session_with(Color::rgb(1, 2, 3), 2)
}

fn active_shapes(s: &InputState) -> &Vec<Shape> {
    &s.canvas_set.active_frame().shapes
}

#[test]
fn initial_state_defaults() {
    let s = session();
    assert!(matches!(s.state, DrawingState::Idle));
    assert_eq!(s.current_color, Color::rgb(1, 2, 3));
    assert_eq!(s.current_thickness, 2);
    assert_eq!(s.board_mode(), BoardMode::Transparent);
    assert!(!s.should_exit);
    assert!(s.needs_redraw);
    assert!(!s.show_help);
    assert_eq!(s.screen_width, 0);
    assert_eq!(s.screen_height, 0);
    assert_eq!(s.board_previous_color, None);
    assert!(active_shapes(&s).is_empty());
}

#[test]
fn update_screen_dimensions_sets_fields() {
    let mut s = session();
    s.update_screen_dimensions(1920, 1080);
    assert_eq!(s.screen_width, 1920);
    assert_eq!(s.screen_height, 1080);
}

#[test]
fn left_press_starts_drawing_with_anchor() {
    let mut s = session();
    s.on_mouse_press(MouseButton::Left, 7, 9);
    match &s.state {
        DrawingState::Drawing { tool, start_x, start_y, points } => {
            assert_eq!(*tool, Tool::Pen);
            assert_eq!(*start_x, 7);
            assert_eq!(*start_y, 9);
            assert_eq!(points, &vec![(7, 9)]);
        }
        other => panic!("expected Drawing, got {:?}", other),
    }
}

#[test]
fn degenerate_rect_is_persisted() {
    let mut s = session();
    s.on_key_press(Key::Ctrl);
    s.on_mouse_press(MouseButton::Left, 12, 34);
    s.on_mouse_release(MouseButton::Left, 12, 34);
    assert!(matches!(s.state, DrawingState::Idle));
    assert_eq!(active_shapes(&s).len(), 1);
    match &active_shapes(&s)[0] {
        Shape::Rect { x, y, w, h, .. } => {
            assert_eq!((*x, *y, *w, *h), (12, 34, 0, 0));
        }
        other => panic!("expected Rect, got {:?}", other),
    }
}

#[test]
fn rect_normalization_is_symmetric() {
    for (ax, ay, bx, by) in [(10, 10, 50, 30), (50, 30, 10, 10)] {
        let mut s = session();
        s.on_key_press(Key::Ctrl);
        s.on_mouse_press(MouseButton::Left, ax, ay);
        s.on_mouse_motion(bx, by);
        s.on_mouse_release(MouseButton::Left, bx, by);
        match &active_shapes(&s)[0] {
            Shape::Rect { x, y, w, h, .. } => {
                assert_eq!((*x, *y, *w, *h), (10, 10, 40, 20));
            }
            other => panic!("expected Rect, got {:?}", other),
        }
    }
}

#[test]
fn ellipse_normalization_is_symmetric() {
    for (ax, ay, bx, by) in [(10, 10, 50, 30), (50, 30, 10, 10)] {
        let mut s = session();
        s.on_key_press(Key::Tab);
        s.on_mouse_press(MouseButton::Left, ax, ay);
        s.on_mouse_release(MouseButton::Left, bx, by);
        match &active_shapes(&s)[0] {
            Shape::Ellipse { cx, cy, rx, ry, .. } => {
                assert_eq!((*cx, *cy, *rx, *ry), (30, 20, 20, 10));
            }
            other => panic!("expected Ellipse, got {:?}", other),
        }
    }
}

#[test]
fn line_and_arrow_keep_endpoints() {
    let mut s = session();
    s.on_key_press(Key::Shift);
    s.on_mouse_press(MouseButton::Left, 5, 6);
    s.on_mouse_release(MouseButton::Left, -7, 8);
    match &active_shapes(&s)[0] {
        Shape::Line { x1, y1, x2, y2, color, thick } => {
            assert_eq!((*x1, *y1, *x2, *y2), (5, 6, -7, 8));
            assert_eq!(*color, Color::rgb(1, 2, 3));
            assert_eq!(*thick, 2);
        }
        other => panic!("expected Line, got {:?}", other),
    }
    s.on_key_press(Key::Ctrl);
    s.on_mouse_press(MouseButton::Left, 1, 2);
    s.on_mouse_release(MouseButton::Left, 3, 4);
    match &active_shapes(&s)[1] {
        Shape::Arrow { x1, y1, x2, y2, arrow_length, arrow_angle, .. } => {
            assert_eq!((*x1, *y1, *x2, *y2), (1, 2, 3, 4));
            assert_eq!(*arrow_length, 20);
            assert_eq!(*arrow_angle, 25);
        }
        other => panic!("expected Arrow, got {:?}", other),
    }
}

#[test]
fn pen_motion_accumulates_points() {
    let mut s = session();
    s.on_mouse_press(MouseButton::Left, 0, 0);
    s.on_mouse_motion(1, 1);
    s.on_mouse_motion(2, 3);
    s.on_mouse_release(MouseButton::Left, 2, 3);
    match &active_shapes(&s)[0] {
        Shape::Freehand { points, .. } => {
            assert_eq!(points, &vec![(0, 0), (1, 1), (2, 3)]);
        }
        other => panic!("expected Freehand, got {:?}", other),
    }
}

#[test]
fn non_pen_motion_keeps_single_anchor_point() {
    let mut s = session();
    s.on_key_press(Key::Ctrl);
    s.on_mouse_press(MouseButton::Left, 0, 0);
    s.on_mouse_motion(9, 9);
    s.on_mouse_motion(20, 20);
    match &s.state {
        DrawingState::Drawing { points, .. } => assert_eq!(points.len(), 1),
        other => panic!("expected Drawing, got {:?}", other),
    }
}

#[test]
fn freehand_preview_matches_persisted_shape() {
    let mut s = session();
    s.on_mouse_press(MouseButton::Left, 0, 0);
    for i in 1..40 {
        s.on_mouse_motion(i, 2 * i);
    }
    let borrowed: Vec<(i32, i32)> = s.freehand_points().unwrap().clone();
    let preview = s.get_provisional_shape(39, 78).unwrap();
    s.on_mouse_release(MouseButton::Left, 39, 78);
    match (&preview, &active_shapes(&s)[0]) {
        (Shape::Freehand { points: pre, .. }, Shape::Freehand { points: fin, .. }) => {
            assert_eq!(pre, fin);
            assert_eq!(&borrowed, fin);
        }
        other => panic!("expected two Freehands, got {:?}", other),
    }
}

#[test]
fn preview_of_rect_matches_release() {
    let mut s = session();
    s.on_key_press(Key::Ctrl);
    s.on_mouse_press(MouseButton::Left, 50, 30);
    let preview = s.get_provisional_shape(10, 10).unwrap();
    s.on_mouse_release(MouseButton::Left, 10, 10);
    assert_eq!(&preview, &active_shapes(&s)[0]);
}

#[test]
fn no_preview_while_idle_or_typing() {
    let mut s = session();
    assert!(s.get_provisional_shape(5, 5).is_none());
    assert!(s.freehand_points().is_none());
    s.on_key_press(Key::Char('t'));
    assert!(s.get_provisional_shape(5, 5).is_none());
}

#[test]
fn right_click_cancels_drawing() {
    let mut s = session();
    s.on_mouse_press(MouseButton::Left, 1, 1);
    s.on_mouse_press(MouseButton::Right, 2, 2);
    assert!(matches!(s.state, DrawingState::Idle));
    assert!(active_shapes(&s).is_empty());
    // while idle, right-click stays a no-op
    s.on_mouse_press(MouseButton::Right, 2, 2);
    assert!(matches!(s.state, DrawingState::Idle));
    assert!(!s.should_exit);
}

#[test]
fn escape_cancels_drawing_and_requests_exit_when_idle() {
    let mut s = session();
    s.on_mouse_press(MouseButton::Left, 1, 1);
    s.on_key_press(Key::Escape);
    assert!(matches!(s.state, DrawingState::Idle));
    assert!(!s.should_exit);
    s.on_key_press(Key::Escape);
    assert!(s.should_exit);
}

#[test]
fn release_of_other_buttons_is_ignored() {
    let mut s = session();
    s.on_mouse_press(MouseButton::Left, 1, 1);
    s.on_mouse_release(MouseButton::Right, 9, 9);
    s.on_mouse_release(MouseButton::Middle, 9, 9);
    assert!(matches!(s.state, DrawingState::Drawing { .. }));
    assert!(active_shapes(&s).is_empty());
}

#[test]
fn thickness_saturates_at_twenty() {
    let mut s = session_with(Color::rgb(0, 0, 0), 19);
    s.on_key_press(Key::Plus);
    assert_eq!(s.current_thickness, 20);
    s.on_key_press(Key::Plus);
    assert_eq!(s.current_thickness, 20);
    s.on_key_press(Key::Equals);
    assert_eq!(s.current_thickness, 20);
}

#[test]
fn thickness_saturates_at_one() {
    let mut s = session_with(Color::rgb(0, 0, 0), 2);
    s.on_key_press(Key::Minus);
    assert_eq!(s.current_thickness, 1);
    s.on_key_press(Key::Minus);
    assert_eq!(s.current_thickness, 1);
    s.on_key_press(Key::Underscore);
    assert_eq!(s.current_thickness, 1);
}

#[test]
fn color_keys_select_colors_case_insensitively() {
    let table = [
        ('r', Color::rgb(255, 0, 0)),
        ('G', Color::rgb(0, 255, 0)),
        ('b', Color::rgb(0, 0, 255)),
        ('Y', Color::rgb(255, 255, 0)),
        ('o', Color::rgb(255, 165, 0)),
        ('P', Color::rgb(255, 105, 180)),
        ('w', Color::rgb(255, 255, 255)),
        ('K', Color::rgb(0, 0, 0)),
    ];
    for (key, expected) in table {
        let mut s = session();
        s.on_key_press(Key::Char(key));
        assert_eq!(s.current_color, expected, "key {:?}", key);
    }
}

#[test]
fn color_keys_ignored_while_ctrl_held() {
    let mut s = session();
    s.on_key_press(Key::Ctrl);
    s.on_key_press(Key::Char('r'));
    assert_eq!(s.current_color, Color::rgb(1, 2, 3));
    s.on_key_release(Key::Ctrl);
    s.on_key_press(Key::Char('x'));
    assert_eq!(s.current_color, Color::rgb(1, 2, 3));
}

#[test]
fn clear_key_empties_active_frame() {
    let mut s = session();
    s.on_mouse_press(MouseButton::Left, 1, 1);
    s.on_mouse_release(MouseButton::Left, 2, 2);
    assert_eq!(active_shapes(&s).len(), 1);
    s.on_key_press(Key::Char('e'));
    assert!(active_shapes(&s).is_empty());
}

#[test]
fn undo_removes_last_shape_and_empty_undo_is_noop() {
    let mut s = session();
    s.on_mouse_press(MouseButton::Left, 1, 1);
    s.on_mouse_release(MouseButton::Left, 2, 2);
    s.on_key_press(Key::Shift);
    s.on_mouse_press(MouseButton::Left, 3, 3);
    s.on_mouse_release(MouseButton::Left, 4, 4);
    s.on_key_release(Key::Shift);
    assert_eq!(active_shapes(&s).len(), 2);
    s.on_key_press(Key::Ctrl);
    s.on_key_press(Key::Char('z'));
    assert_eq!(active_shapes(&s).len(), 1);
    assert!(matches!(active_shapes(&s)[0], Shape::Freehand { .. }));
    s.on_key_press(Key::Char('z'));
    assert!(active_shapes(&s).is_empty());
    // empty history: undo is a harmless no-op
    s.on_key_press(Key::Char('z'));
    assert!(active_shapes(&s).is_empty());
}

#[test]
fn ctrl_q_requests_exit_and_redraw() {
    let mut s = session();
    s.needs_redraw = false;
    s.on_key_press(Key::Ctrl);
    s.on_key_press(Key::Char('q'));
    assert!(s.should_exit);
    assert!(s.needs_redraw);
}

#[test]
fn f10_toggles_help_overlay() {
    let mut s = session();
    s.on_key_press(Key::F10);
    assert!(s.show_help);
    s.on_key_press(Key::F10);
    assert!(!s.show_help);
}

#[test]
fn modifier_keys_track_press_and_release() {
    let mut s = session();
    s.on_key_press(Key::Shift);
    s.on_key_press(Key::Ctrl);
    s.on_key_press(Key::Alt);
    s.on_key_press(Key::Tab);
    assert!(s.modifiers.shift && s.modifiers.ctrl && s.modifiers.alt && s.modifiers.tab);
    s.on_key_release(Key::Shift);
    s.on_key_release(Key::Ctrl);
    s.on_key_release(Key::Alt);
    s.on_key_release(Key::Tab);
    assert!(!s.modifiers.shift && !s.modifiers.ctrl && !s.modifiers.alt && !s.modifiers.tab);
    // releasing a key never pressed is a no-op, not an error
    s.on_key_release(Key::Shift);
    assert!(!s.modifiers.shift);
}

#[test]
fn needs_redraw_is_level_triggered() {
    let mut s = session();
    s.needs_redraw = false;
    s.on_mouse_motion(5, 5);
    assert!(!s.needs_redraw, "motion while idle requests no redraw");
    s.on_mouse_press(MouseButton::Left, 1, 1);
    assert!(s.needs_redraw);
    s.on_mouse_motion(5, 5);
    assert!(s.needs_redraw, "setting the flag again is idempotent");
}
