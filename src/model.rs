use vstd::prelude::*;

verus! {

/// A gesture on a rotary knob.
#[derive(Clone, Copy, Debug, PartialEq, Eq, Structural)]
pub enum KnobAction {
    RotateCcw,
    Press,
    RotateCw,
}

impl KnobAction {
    /// Offset of the gesture within the three ids a knob occupies.
    pub open spec fn spec_code(self) -> u8 {
        match self {
            KnobAction::RotateCcw => 0,
            KnobAction::Press => 1,
            KnobAction::RotateCw => 2,
        }
    }

    pub fn code(self) -> (r: u8)
        ensures
            r == self.spec_code(),
    {
        match self {
            KnobAction::RotateCcw => 0,
            KnobAction::Press => 1,
            KnobAction::RotateCw => 2,
        }
    }
}

/// A physical control of the pad: a button of the grid, or a gesture on a knob.
#[derive(Clone, Copy, Debug, PartialEq, Eq, Structural)]
pub enum Key {
    Button(u8),
    Knob(u8, KnobAction),
}

/// A single modifier key.
#[derive(Clone, Copy, Debug, PartialEq, Eq, Structural)]
pub enum Modifier {
    Ctrl,
    Shift,
    Alt,
    Win,
    RightCtrl,
    RightShift,
    RightAlt,
    RightWin,
}

impl Modifier {
    /// The modifier's bit in a modifier mask.
    pub open spec fn spec_code(self) -> u8 {
        match self {
            Modifier::Ctrl => 0x01,
            Modifier::Shift => 0x02,
            Modifier::Alt => 0x04,
            Modifier::Win => 0x08,
            Modifier::RightCtrl => 0x10,
            Modifier::RightShift => 0x20,
            Modifier::RightAlt => 0x40,
            Modifier::RightWin => 0x80,
        }
    }

    pub fn code(self) -> (r: u8)
        ensures
            r == self.spec_code(),
    {
        match self {
            Modifier::Ctrl => 0x01,
            Modifier::Shift => 0x02,
            Modifier::Alt => 0x04,
            Modifier::Win => 0x08,
            Modifier::RightCtrl => 0x10,
            Modifier::RightShift => 0x20,
            Modifier::RightAlt => 0x40,
            Modifier::RightWin => 0x80,
        }
    }
}

/// A set of modifier keys, one bit per modifier.
#[derive(Clone, Copy, Debug, PartialEq, Eq, Structural)]
pub struct Modifiers {
    pub bits: u8,
}

impl Modifiers {
    pub fn empty() -> (r: Modifiers)
        ensures
            r.bits == 0,
    {
        Modifiers { bits: 0 }
    }

    /// The set with `m` added.
    pub fn with(self, m: Modifier) -> (r: Modifiers)
        ensures
            r.bits == self.bits | m.spec_code(),
    {
        Modifiers { bits: self.bits | m.code() }
    }

    pub fn as_u8(self) -> (r: u8)
        ensures
            r == self.bits,
    {
        self.bits
    }
}

/// A mouse button.
#[derive(Clone, Copy, Debug, PartialEq, Eq, Structural)]
pub enum MouseButton {
    Left,
    Right,
    Middle,
}

impl MouseButton {
    /// The button's bit in a button mask.
    pub open spec fn spec_code(self) -> u8 {
        match self {
            MouseButton::Left => 0x01,
            MouseButton::Right => 0x02,
            MouseButton::Middle => 0x04,
        }
    }

    pub fn code(self) -> (r: u8)
        ensures
            r == self.spec_code(),
    {
        match self {
            MouseButton::Left => 0x01,
            MouseButton::Right => 0x02,
            MouseButton::Middle => 0x04,
        }
    }
}

/// A set of mouse buttons, one bit per button.
#[derive(Clone, Copy, Debug, PartialEq, Eq, Structural)]
pub struct MouseButtons {
    pub bits: u8,
}

impl MouseButtons {
    pub fn empty() -> (r: MouseButtons)
        ensures
            r.bits == 0,
    {
        MouseButtons { bits: 0 }
    }

    /// The set with `b` added.
    pub fn with(self, b: MouseButton) -> (r: MouseButtons)
        ensures
            r.bits == self.bits | b.spec_code(),
    {
        MouseButtons { bits: self.bits | b.code() }
    }

    pub fn is_empty(self) -> (r: bool)
        ensures
            r == (self.bits == 0),
    {
        self.bits == 0
    }

    pub fn as_u8(self) -> (r: u8)
        ensures
            r == self.bits,
    {
        self.bits
    }
}

/// One chord of a key-press macro: modifiers held, and an optional key code.
#[derive(Clone, Copy, Debug, PartialEq, Eq, Structural)]
pub struct Accord {
    pub modifiers: Modifiers,
    pub code: Option<u8>,
}

impl Accord {
    /// The key code as it goes on the wire: 0 where there is none.
    pub open spec fn spec_code_byte(self) -> u8 {
        match self.code {
            Some(c) => c,
            None => 0,
        }
    }

    pub fn code_byte(&self) -> (r: u8)
        ensures
            r == self.spec_code_byte(),
    {
        match self.code {
            Some(c) => c,
            None => 0,
        }
    }
}

/// What a mouse macro does.
#[derive(Clone, Copy, Debug, PartialEq, Eq, Structural)]
pub enum MouseAction {
    Click(MouseButtons),
    WheelUp,
    WheelDown,
}

/// A mouse action, with the modifier held while it happens.
#[derive(Clone, Copy, Debug, PartialEq, Eq, Structural)]
pub struct MouseEvent(pub MouseAction, pub Option<Modifier>);

/// The modifier byte of a wheel event: 0 where there is none.
pub open spec fn modifier_byte(m: Option<Modifier>) -> u8 {
    match m {
        Some(m) => m.spec_code(),
        None => 0,
    }
}

pub fn modifier_to_byte(m: Option<Modifier>) -> (r: u8)
    ensures
        r == modifier_byte(m),
{
    match m {
        Some(m) => m.code(),
        None => 0,
    }
}

/// The action bound to a key on a layer.
#[derive(Clone, Debug)]
pub enum Macro {
    Keyboard(Vec<Accord>),
    Media(u16),
    Mouse(MouseEvent),
}

/// The tag byte that names the kind of a macro on the wire.
pub open spec fn macro_kind(m: Macro) -> u8 {
    match m {
        Macro::Keyboard(_) => 1,
        Macro::Media(_) => 2,
        Macro::Mouse(_) => 3,
    }
}

impl Macro {
    pub fn kind(&self) -> (r: u8)
        ensures
            r == macro_kind(*self),
    {
        match self {
            Macro::Keyboard(_) => 1,
            Macro::Media(_) => 2,
            Macro::Mouse(_) => 3,
        }
    }
}

} // verus!
