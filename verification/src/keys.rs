//! What the terminal tells insh: the keys which are pressed, what is pasted, and its size.

use vstd::prelude::*;

verus! {

/// A key on the keyboard.
#[derive(Clone, Copy, Debug, PartialEq, Eq, Structural)]
pub enum Key {
    /// A key which types a character.
    Char(char),
    /// The enter key.
    CarriageReturn,
    /// The backspace key.
    Backspace,
    /// The tab key.
    HorizontalTab,
    /// The escape key.
    Escape,
    /// The up arrow.
    Up,
    /// The down arrow.
    Down,
    /// The left arrow.
    Left,
    /// The right arrow.
    Right,
    /// The home key.
    Home,
    /// The end key.
    End,
}

/// The keys held down along with a key: shift, control and alt.
#[derive(Clone, Copy, Debug, PartialEq, Eq, Structural)]
pub struct KeyMods {
    /// Whether shift is held.
    pub shift: bool,
    /// Whether control is held.
    pub control: bool,
    /// Whether alt is held.
    pub alt: bool,
}

/// No modifier held.
pub open spec fn no_mods() -> KeyMods {
    KeyMods { shift: false, control: false, alt: false }
}

/// Shift held on its own.
pub open spec fn shift_mods() -> KeyMods {
    KeyMods { shift: true, control: false, alt: false }
}

/// Control held on its own.
pub open spec fn control_mods() -> KeyMods {
    KeyMods { shift: false, control: true, alt: false }
}

impl KeyMods {
    /// Return that no modifier is held.
    pub fn none() -> (m: KeyMods)
        ensures
            m == no_mods(),
    {
        KeyMods { shift: false, control: false, alt: false }
    }

    /// Return that shift is held on its own.
    pub fn shift() -> (m: KeyMods)
        ensures
            m == shift_mods(),
    {
        KeyMods { shift: true, control: false, alt: false }
    }

    /// Return that control is held on its own.
    pub fn control() -> (m: KeyMods)
        ensures
            m == control_mods(),
    {
        KeyMods { shift: false, control: true, alt: false }
    }

    /// Return whether no modifier is held.
    pub fn is_none(&self) -> (r: bool)
        ensures
            r == (*self == no_mods()),
    {
        !self.shift && !self.control && !self.alt
    }

    /// Return whether shift is held on its own.
    pub fn is_shift(&self) -> (r: bool)
        ensures
            r == (*self == shift_mods()),
    {
        self.shift && !self.control && !self.alt
    }

    /// Return whether control is held on its own.
    pub fn is_control(&self) -> (r: bool)
        ensures
            r == (*self == control_mods()),
    {
        !self.shift && self.control && !self.alt
    }
}

/// A key being pressed, along with what was held down with it.
#[derive(Clone, Copy, Debug, PartialEq, Eq, Structural)]
pub struct KeyEvent {
    /// The key.
    pub key: Key,
    /// What was held down with it.
    pub mods: KeyMods,
}

/// How big something on the screen is.
#[derive(Clone, Copy, Debug, Default, PartialEq, Eq, Structural)]
pub struct Size {
    /// The number of rows.
    pub rows: usize,
    /// The number of columns.
    pub columns: usize,
}

impl Size {
    /// Return a size.
    pub fn new(rows: usize, columns: usize) -> (s: Size)
        ensures
            s.rows == rows,
            s.columns == columns,
    {
        Size { rows, columns }
    }
}

/// Something the terminal reports.
#[derive(Debug, PartialEq, Eq)]
pub enum TermEvent {
    /// A key was pressed.
    KeyEvent(KeyEvent),
    /// Some text was pasted.
    Paste(String),
    /// The terminal changed size.
    Resize(Size),
}

} // verus!
