//! Input events: a flat record with a one-character kind code and three
//! machine-word payload slots, and its total conversion to tagged variants.
use vstd::prelude::*;

verus! {

/// Scancode of the backspace key.
pub const K_BKSP: usize = 0x0E;

/// Scancode of the F1 key: enters the debug console.
pub const K_F1: usize = 0x3B;

/// Scancode of the F2 key: leaves the debug console.
pub const K_F2: usize = 0x3C;

/// The kind code of a key event.
pub const EVENT_KEY: char = 'k';

/// A flat input event: kind code plus three payload slots.
#[derive(Clone, Copy, PartialEq, Eq, Structural, Debug)]
pub struct Event {
    pub code: char,
    pub a: usize,
    pub b: usize,
    pub c: usize,
}

/// A key press or release. `character` is the translated character, or
/// the NUL character when the key has none; `scancode` is the raw code.
#[derive(Clone, Copy, PartialEq, Eq, Structural, Debug)]
pub struct KeyEvent {
    pub character: char,
    pub scancode: usize,
    pub pressed: bool,
}

/// The tagged form of an event. Every flat record converts to exactly one
/// variant; kinds this core does not inspect stay behind `Unknown`.
#[derive(Clone, Copy, PartialEq, Eq, Structural, Debug)]
pub enum EventOption {
    Key(KeyEvent),
    Unknown(Event),
}

/// The character stored in payload slot `a`: the low byte as a character.
pub open spec fn char_of_slot(a: usize) -> char {
    (a as u8) as char
}

/// The tagged variant of a flat event.
pub open spec fn spec_to_option(e: Event) -> EventOption {
    if e.code == EVENT_KEY {
        EventOption::Key(
            KeyEvent { character: char_of_slot(e.a), scancode: e.b, pressed: e.c > 0 },
        )
    } else {
        EventOption::Unknown(e)
    }
}

impl KeyEvent {
    /// The flat record of this key event, as an IRQ handler would push it.
    pub fn to_event(self) -> (e: Event)
        ensures
            e.code == EVENT_KEY,
            e.a == self.character as usize,
            e.b == self.scancode,
            e.c == if self.pressed { 1usize } else { 0usize },
    {
        Event {
            code: EVENT_KEY,
            a: self.character as usize,
            b: self.scancode,
            c: if self.pressed { 1 } else { 0 },
        }
    }
}

impl Event {
    /// Convert the flat record to its tagged variant; total on all records.
    pub fn to_option(self) -> (r: EventOption)
        ensures
            r == spec_to_option(self),
    {
        if self.code == EVENT_KEY {
            EventOption::Key(
                KeyEvent { character: (self.a as u8) as char, scancode: self.b, pressed: self.c > 0 },
            )
        } else {
            EventOption::Unknown(self)
        }
    }
}

} // verus!
