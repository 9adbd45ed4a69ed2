//! The messages that the input stage sends to the simulation stage, and the
//! window events that they are made from.
use vstd::prelude::*;

verus! {

/// A position in window coordinates, in pixels.
#[derive(Clone, Copy, Debug, PartialEq, Eq, Structural)]
pub struct Point {
    pub x: i32,
    pub y: i32,
}

/// The difference of two positions. It is wide enough for any two points.
#[derive(Clone, Copy, Debug, PartialEq, Eq, Structural)]
pub struct Offset {
    pub dx: i64,
    pub dy: i64,
}

/// The size of a window, in pixels.
#[derive(Clone, Copy, Debug, PartialEq, Eq, Structural)]
pub struct Size {
    pub width: u32,
    pub height: u32,
}

#[derive(Clone, Copy, Debug, PartialEq, Eq, Structural)]
pub enum MouseButton {
    Left,
    Right,
    Middle,
    Other(u16),
}

#[derive(Clone, Copy, Debug, PartialEq, Eq, Structural)]
pub enum ElementState {
    Pressed,
    Released,
}

/// What the window system reports, reduced to what the input stage reads.
#[derive(Clone, Copy, Debug, PartialEq, Eq, Structural)]
pub enum WindowEvent {
    MouseInput { state: ElementState, button: MouseButton },
    CursorEntered,
    CursorLeft,
    CursorMoved { position: Point },
    Resized(Size),
    /// Any event that the input stage has no use for.
    Other,
}

/// One message of the input stage.
#[derive(Clone, Copy, Debug, PartialEq, Eq, Structural)]
pub enum InputMessage {
    CursorPressed { button: MouseButton, pos: Point },
    CursorReleased { button: MouseButton, pos: Point },
    CursorEntered,
    CursorLeft,
    /// The cursor is at `pos`, `delta` away from where it was last reported.
    CursorMoved { pos: Point, delta: Offset },
    WindowResized(Size),
}

impl Point {
    /// The offset that leads from `from` to `self`.
    pub open spec fn offset_from(self, from: Point) -> Offset {
        Offset { dx: (self.x - from.x) as i64, dy: (self.y - from.y) as i64 }
    }

    /// Computes the offset that leads from `from` to `self`.
    pub fn delta_from(&self, from: Point) -> (delta: Offset)
        ensures
            delta == self.offset_from(from),
            delta.dx == self.x - from.x,
            delta.dy == self.y - from.y,
    {
        Offset { dx: self.x as i64 - from.x as i64, dy: self.y as i64 - from.y as i64 }
    }
}

} // verus!
