//! Which window events reach the editor, and as what.

use vstd::prelude::*;

verus! {

/// A mouse button, as far as the editor tells them apart.
#[derive(Debug, Clone, Copy, PartialEq, Eq, Structural)]
pub enum MouseButtonKind {
    Left,
    Right,
    Other,
}

/// A mouse action on the canvas.
#[derive(Debug, Clone, Copy, PartialEq, Eq, Structural)]
pub enum CanvasInput {
    /// Left button pressed: `AppState::on_canvas_press`.
    Press,
    /// Left button released: `AppState::on_canvas_release`.
    Release,
    /// Right button pressed: `AppState::on_canvas_right_click`.
    RightClick,
}

/// What a mouse button event does on the canvas. Presses over the user
/// interface are the interface's; a left release always ends a drag, even
/// over the interface.
pub fn route_mouse_button(button: MouseButtonKind, pressed: bool, pointer_over_ui: bool) -> (r: Option<CanvasInput>)
    ensures
        r == (match button {
            MouseButtonKind::Left =>
                if pressed {
                    if pointer_over_ui { None } else { Some(CanvasInput::Press) }
                } else {
                    Some(CanvasInput::Release)
                },
            MouseButtonKind::Right =>
                if pressed && !pointer_over_ui { Some(CanvasInput::RightClick) } else { None },
            MouseButtonKind::Other => None,
        }),
{
    match button {
        MouseButtonKind::Left => {
            if pressed {
                if pointer_over_ui {
                    None
                } else {
                    Some(CanvasInput::Press)
                }
            } else {
                Some(CanvasInput::Release)
            }
        },
        MouseButtonKind::Right => {
            if pressed && !pointer_over_ui {
                Some(CanvasInput::RightClick)
            } else {
                None
            }
        },
        MouseButtonKind::Other => None,
    }
}

/// Whether a key event stops editing: Escape pressed while the user
/// interface does not take the keyboard.
pub fn key_stops_edit(pressed: bool, keyboard_taken_by_ui: bool, is_escape: bool) -> (b: bool)
    ensures
        b == (pressed && !keyboard_taken_by_ui && is_escape),
{
    pressed && !keyboard_taken_by_ui && is_escape
}

} // verus!
