//! Event types with integer payloads.

use vstd::prelude::*;

verus! {

/// Input from mouse and keyboard, with buttons and keys as numbers.
#[derive(Debug)]
pub enum InputEvent {
    MouseMove(i32, i32),
    MousePressed(i32),
    MouseReleased(i32),
    KeyPressed(i32),
    KeyReleased(i32),
}

/// What happened to a window.
#[derive(Debug)]
pub enum WindowEvent {
    /// The window has a new size, as width and height.
    WindowResized(usize, usize),
    /// The window was asked to close.
    WindowClose,
}

} // verus!
