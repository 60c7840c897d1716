use rust_desktop::input::{
    handle_keyboard, handle_mouse, parse_button, parse_key, Button, Key, KeyboardOp, MouseOp,
};

#[test]
fn mouse_move_needs_both_coordinates() {
    let (op, res) = handle_mouse("move", Some(3), None, None);
    assert!(op.is_none());
    assert_eq!(res.status, "error");
    assert_eq!(res.error.as_deref(), Some("x and y required"));

    let (op, res) = handle_mouse("move", None, Some(4), None);
    assert!(op.is_none());
    assert_eq!(res.error.as_deref(), Some("x and y required"));
}

#[test]
fn mouse_move_decides_absolute_move() {
    let (op, res) = handle_mouse("move", Some(3), Some(4), None);
    assert_eq!(op, Some(MouseOp::MoveTo { x: 3, y: 4 }));
    assert_eq!(res.status, "moved");
    assert_eq!(res.data, None);
    assert_eq!(res.error, None);
}

#[test]
fn right_click_decides_one_right_button_click() {
    let (op, res) = handle_mouse("click", None, None, Some("right"));
    assert_eq!(op, Some(MouseOp::Click { button: Button::Right }));
    assert_eq!(res.status, "clicked");
    assert_eq!(res.data, None);
    assert_eq!(res.error, None);
}

#[test]
fn click_defaults_to_left_button() {
    let (op, _) = handle_mouse("click", None, None, None);
    assert_eq!(op, Some(MouseOp::Click { button: Button::Left }));

    let (op, _) = handle_mouse("click", None, None, Some("unrecognized"));
    assert_eq!(op, Some(MouseOp::Click { button: Button::Left }));
}

#[test]
fn click_recognizes_every_named_button() {
    assert_eq!(parse_button(Some("left")), Button::Left);
    assert_eq!(parse_button(Some("right")), Button::Right);
    assert_eq!(parse_button(Some("middle")), Button::Middle);
    assert_eq!(parse_button(Some("scroll_up")), Button::ScrollUp);
    assert_eq!(parse_button(Some("scroll_down")), Button::ScrollDown);
}

#[test]
fn unknown_mouse_action_errors() {
    let (op, res) = handle_mouse("drag", None, None, None);
    assert!(op.is_none());
    assert_eq!(res.status, "error");
    assert_eq!(res.error.as_deref(), Some("unknown mouse action"));
}

#[test]
fn type_action_types_text_verbatim() {
    let (op, res) = handle_keyboard("type", Some("Hello, world!"), None);
    match op {
        Some(KeyboardOp::TypeText { text }) => assert_eq!(text, "Hello, world!"),
        other => panic!("unexpected operation: {:?}", other),
    }
    assert_eq!(res.status, "typed");
    assert_eq!(res.data, None);
    assert_eq!(res.error, None);
}

#[test]
fn type_action_requires_text() {
    let (op, res) = handle_keyboard("type", None, Some("enter"));
    assert!(op.is_none());
    assert_eq!(res.status, "error");
    assert_eq!(res.error.as_deref(), Some("text required"));
}

#[test]
fn press_recognizes_every_named_key() {
    assert_eq!(parse_key("enter"), Key::Return);
    assert_eq!(parse_key("tab"), Key::Tab);
    assert_eq!(parse_key("space"), Key::Space);
    assert_eq!(parse_key("backspace"), Key::Backspace);
    assert_eq!(parse_key("escape"), Key::Escape);
}

#[test]
fn press_folds_key_name_case() {
    assert_eq!(parse_key("ENTER"), Key::Return);
    assert_eq!(parse_key("Tab"), Key::Tab);
    assert_eq!(parse_key("EsCaPe"), Key::Escape);
}

#[test]
fn press_lowercases_unicode_key_names() {
    // The Kelvin sign lowercases to an ASCII "k".
    assert_eq!(parse_key("bac\u{212a}space"), Key::Backspace);
}

#[test]
fn press_unknown_key_behaves_like_enter() {
    let (op_unknown, res_unknown) = handle_keyboard("press", None, Some("unknown_key"));
    let (op_enter, res_enter) = handle_keyboard("press", None, Some("enter"));
    assert_eq!(op_unknown, op_enter);
    assert_eq!(op_unknown, Some(KeyboardOp::Press { key: Key::Return }));
    assert_eq!(res_unknown.status, res_enter.status);
    assert_eq!(res_unknown.status, "pressed");
}

#[test]
fn press_requires_key() {
    let (op, res) = handle_keyboard("press", Some("text"), None);
    assert!(op.is_none());
    assert_eq!(res.status, "error");
    assert_eq!(res.error.as_deref(), Some("key required"));
}

#[test]
fn unknown_keyboard_action_errors() {
    let (op, res) = handle_keyboard("shortcut", None, None);
    assert!(op.is_none());
    assert_eq!(res.status, "error");
    assert_eq!(res.error.as_deref(), Some("unknown keyboard action"));
}
