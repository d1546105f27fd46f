//! Frames of the mouse cursor sprite: (animation index, action index).
use vstd::prelude::*;

verus! {

/// A cursor frame: animation index and action index in the cursor sprite.
#[derive(Clone, Copy, Debug, PartialEq, Eq, Structural)]
pub struct CursorFrame(pub usize, pub usize);

/// The frames below are the ones the client uses, by name.

pub fn cursor_normal() -> (r: CursorFrame)
    ensures
        r == CursorFrame(0, 0),
{
    CursorFrame(0, 0)
}

pub fn cursor_click() -> (r: CursorFrame)
    ensures
        r == CursorFrame(0, 2),
{
    CursorFrame(0, 2)
}

pub fn cursor_stop() -> (r: CursorFrame)
    ensures
        r == CursorFrame(0, 8),
{
    CursorFrame(0, 8)
}

pub fn cursor_target() -> (r: CursorFrame)
    ensures
        r == CursorFrame(1, 10),
{
    CursorFrame(1, 10)
}

} // verus!
