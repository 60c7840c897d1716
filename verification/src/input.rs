//! Input synthesis decisions: mouse move/click and keyboard type/press.
//!
//! The handlers decide which synthetic event the caller should emit;
//! the caller emits it and prints the envelope.

use vstd::prelude::*;
use vstd::string::StringExecFns;
use crate::envelope::CommandResult;
use crate::text::{lower_of, lowercase, str_eq};

verus! {

/// A mouse button a click can use.
#[derive(Debug, PartialEq, Eq, Structural, Clone, Copy)]
pub enum Button {
    Left,
    Right,
    Middle,
    ScrollUp,
    ScrollDown,
}

/// A key name the press action recognizes.
#[derive(Debug, PartialEq, Eq, Structural, Clone, Copy)]
pub enum Key {
    Return,
    Tab,
    Space,
    Backspace,
    Escape,
}

/// The mouse event the caller should synthesize.
#[derive(Debug, PartialEq, Eq, Structural, Clone, Copy)]
pub enum MouseOp {
    /// Move the pointer to absolute screen coordinates.
    MoveTo { x: i32, y: i32 },
    /// Click the given button once.
    Click { button: Button },
}

/// The keyboard event the caller should synthesize.
#[derive(Debug, PartialEq)]
pub enum KeyboardOp {
    /// Type the text verbatim.
    TypeText { text: String },
    /// Press the given key once.
    Press { key: Key },
}

/// The button a click uses: recognized names select their button, an
/// absent or unrecognized name selects the left button.
pub open spec fn button_for(b: Option<&str>) -> Button {
    match b {
        None => Button::Left,
        Some(s) => if s@ == "right"@ {
            Button::Right
        } else if s@ == "middle"@ {
            Button::Middle
        } else if s@ == "scroll_up"@ {
            Button::ScrollUp
        } else if s@ == "scroll_down"@ {
            Button::ScrollDown
        } else {
            Button::Left
        },
    }
}

/// The key a press uses, from the lowercased key name; any name outside
/// the recognized set falls back to the enter key.
pub open spec fn key_for(k: Seq<char>) -> Key {
    let l = lower_of(k);
    if l == "enter"@ {
        Key::Return
    } else if l == "tab"@ {
        Key::Tab
    } else if l == "space"@ {
        Key::Space
    } else if l == "backspace"@ {
        Key::Backspace
    } else if l == "escape"@ {
        Key::Escape
    } else {
        Key::Return
    }
}

/// Executable button selection.
pub fn parse_button(b: Option<&str>) -> (r: Button)
    ensures
        r == button_for(b),
{
    match b {
        None => Button::Left,
        Some(s) => {
            if str_eq(s, "right") {
                Button::Right
            } else if str_eq(s, "middle") {
                Button::Middle
            } else if str_eq(s, "scroll_up") {
                Button::ScrollUp
            } else if str_eq(s, "scroll_down") {
                Button::ScrollDown
            } else {
                Button::Left
            }
        },
    }
}

/// Executable key selection.
pub fn parse_key(k: &str) -> (r: Key)
    ensures
        r == key_for(k@),
{
    let lowered = lowercase(k);
    let l = lowered.as_str();
    if str_eq(l, "enter") {
        Key::Return
    } else if str_eq(l, "tab") {
        Key::Tab
    } else if str_eq(l, "space") {
        Key::Space
    } else if str_eq(l, "backspace") {
        Key::Backspace
    } else if str_eq(l, "escape") {
        Key::Escape
    } else {
        Key::Return
    }
}

/// Mouse command handler.
///
/// `move` needs both coordinates and decides a pointer move; `click`
/// decides exactly one click of the selected button; unknown actions
/// fail and decide no event.
pub fn handle_mouse(action: &str, x: Option<i32>, y: Option<i32>, button: Option<&str>)
    -> (r: (Option<MouseOp>, CommandResult))
    ensures
        r.1.wf(),
        action@ == "move"@ && x is Some && y is Some
            ==> r.0 == Some((MouseOp::MoveTo { x: x->0, y: y->0 }))
                && r.1.status@ == "moved"@ && r.1.data is None && r.1.error is None,
        action@ == "move"@ && (x is None || y is None)
            ==> r.0 is None && r.1.status@ == "error"@ && r.1.data is None
                && (r.1.error matches Some(e) && e@ == "x and y required"@),
        action@ != "move"@ && action@ == "click"@
            ==> r.0 == Some((MouseOp::Click { button: button_for(button) }))
                && r.1.status@ == "clicked"@ && r.1.data is None && r.1.error is None,
        action@ != "move"@ && action@ != "click"@
            ==> r.0 is None && r.1.status@ == "error"@ && r.1.data is None
                && (r.1.error matches Some(e) && e@ == "unknown mouse action"@),
{
    proof {
        crate::envelope::lemma_statuses_not_error();
    }
    if str_eq(action, "move") {
        if x.is_some() && y.is_some() {
            let op = MouseOp::MoveTo { x: x.unwrap(), y: y.unwrap() };
            return (Some(op), CommandResult::success("moved", None));
        } else {
            return (None, CommandResult::error("x and y required"));
        }
    }
    if str_eq(action, "click") {
        let op = MouseOp::Click { button: parse_button(button) };
        return (Some(op), CommandResult::success("clicked", None));
    }
    (None, CommandResult::error("unknown mouse action"))
}

/// Keyboard command handler.
///
/// `type` needs literal text and decides typing it verbatim; `press`
/// needs a key name and decides one press of the selected key; unknown
/// actions fail and decide no event.
pub fn handle_keyboard(action: &str, text: Option<&str>, key: Option<&str>)
    -> (r: (Option<KeyboardOp>, CommandResult))
    ensures
        r.1.wf(),
        action@ == "type"@ && text is Some
            ==> (r.0 matches Some(op) && op matches KeyboardOp::TypeText { text: t }
                    && t@ == (text->0)@)
                && r.1.status@ == "typed"@ && r.1.data is None && r.1.error is None,
        action@ == "type"@ && text is None
            ==> r.0 is None && r.1.status@ == "error"@ && r.1.data is None
                && (r.1.error matches Some(e) && e@ == "text required"@),
        action@ != "type"@ && action@ == "press"@ && key is Some
            ==> r.0 == Some((KeyboardOp::Press { key: key_for((key->0)@) }))
                && r.1.status@ == "pressed"@ && r.1.data is None && r.1.error is None,
        action@ != "type"@ && action@ == "press"@ && key is None
            ==> r.0 is None && r.1.status@ == "error"@ && r.1.data is None
                && (r.1.error matches Some(e) && e@ == "key required"@),
        action@ != "type"@ && action@ != "press"@
            ==> r.0 is None && r.1.status@ == "error"@ && r.1.data is None
                && (r.1.error matches Some(e) && e@ == "unknown keyboard action"@),
{
    proof {
        crate::envelope::lemma_statuses_not_error();
    }
    if str_eq(action, "type") {
        match text {
            Some(t) => {
                let op = KeyboardOp::TypeText { text: String::from_str(t) };
                return (Some(op), CommandResult::success("typed", None));
            },
            None => {
                return (None, CommandResult::error("text required"));
            },
        }
    }
    if str_eq(action, "press") {
        match key {
            Some(k) => {
                let op = KeyboardOp::Press { key: parse_key(k) };
                return (Some(op), CommandResult::success("pressed", None));
            },
            None => {
                return (None, CommandResult::error("key required"));
            },
        }
    }
    (None, CommandResult::error("unknown keyboard action"))
}

/// Pressing an unrecognized key name falls back to the enter key: any
/// key name whose lowercase form is none of the other recognized names
/// selects the key that the name "enter" stands for.
pub proof fn lemma_unknown_key_falls_back_to_enter(k: Seq<char>)
    ensures
        lower_of(k) != "tab"@ && lower_of(k) != "space"@ && lower_of(k) != "backspace"@
            && lower_of(k) != "escape"@ ==> key_for(k) == Key::Return,
{
}

} // verus!
