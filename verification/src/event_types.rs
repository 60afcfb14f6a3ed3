//! Event types to send on the channels.

use vstd::prelude::*;

verus! {

/// What happened to a window.
#[derive(Debug)]
pub enum WindowEvent {
    /// The window has a new size, as width and height.
    WindowResized(usize, usize),
    /// The window was asked to close.
    WindowClose,
}

} // verus!
