//! The event processor: consumes raw input events in order, remembers where
//! the cursor is, and says which record each event calls for.
use vstd::prelude::*;

verus! {

#[derive(Debug, Clone, Copy, PartialEq, Eq, Structural)]
pub enum MouseButton {
    Left,
    Right,
    Middle,
    Other,
}

/// A raw input event, as the global input hook delivers it. Keys carry their
/// symbolic name.
#[derive(Debug)]
pub enum InputEvent {
    MouseMove { x: i32, y: i32 },
    ButtonPress(MouseButton),
    ButtonRelease(MouseButton),
    KeyPress(String),
    KeyRelease(String),
    Wheel,
}

/// The record an event calls for.
#[derive(Debug)]
pub enum Action {
    /// No record.
    Nothing,
    /// A click record at this cursor position.
    Click { x: i32, y: i32 },
    /// A key record for this key.
    Key(String),
}

/// The processor's memory: the last known cursor position.
pub struct Processor {
    pub last_x: i32,
    pub last_y: i32,
}

/// The record that `ev` calls for when the cursor was last seen at `p`.
pub open spec fn action_of(p: Processor, ev: InputEvent) -> Action {
    match ev {
        InputEvent::ButtonPress(MouseButton::Left) => Action::Click { x: p.last_x, y: p.last_y },
        InputEvent::KeyPress(k) => Action::Key(k),
        _ => Action::Nothing,
    }
}

/// The processor after `ev`: only a mouse move changes it.
pub open spec fn after_event(p: Processor, ev: InputEvent) -> Processor {
    match ev {
        InputEvent::MouseMove { x, y } => Processor { last_x: x, last_y: y },
        _ => p,
    }
}

impl Processor {
    /// A processor that places the cursor at the origin until it moves.
    pub fn new() -> (r: Processor)
        ensures
            r.last_x == 0,
            r.last_y == 0,
    {
        Processor { last_x: 0, last_y: 0 }
    }

    /// Takes in the next event and returns the record it calls for.
    pub fn step(&mut self, ev: InputEvent) -> (r: Action)
        ensures
            r == action_of(*old(self), ev),
            *final(self) == after_event(*old(self), ev),
    {
        match ev {
            InputEvent::MouseMove { x, y } => {
                self.last_x = x;
                self.last_y = y;
                Action::Nothing
            },
            InputEvent::ButtonPress(MouseButton::Left) => Action::Click {
                x: self.last_x,
                y: self.last_y,
            },
            InputEvent::KeyPress(k) => Action::Key(k),
            _ => Action::Nothing,
        }
    }
}

} // verus!
