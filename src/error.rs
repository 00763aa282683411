use vstd::prelude::*;

verus! {

/// Why a binding or a request was refused before anything was sent.
#[derive(Clone, Copy, Debug, PartialEq, Eq, Structural)]
pub enum KeyboardError {
    /// The layer is past the last one the device has.
    InvalidLayer,
    /// The button index is past the device's grid.
    InvalidKeyIndex,
    /// The knob index is past the device's knobs.
    InvalidKnobIndex,
    /// The key-press sequence has more chords than the device stores.
    SequenceTooLong,
    /// A click macro names no button.
    EmptyClick,
    /// The device's protocol for this feature is not known.
    Unsupported,
}

/// The sentence shown to the user for each error.
pub open spec fn error_text(e: KeyboardError) -> Seq<char> {
    match e {
        KeyboardError::InvalidLayer => "invalid layer index"@,
        KeyboardError::InvalidKeyIndex => "invalid key index"@,
        KeyboardError::InvalidKnobIndex => "invalid knob index"@,
        KeyboardError::SequenceTooLong => "macro sequence is too long"@,
        KeyboardError::EmptyClick => "buttons must be given for click macro"@,
        KeyboardError::Unsupported => "If you have a device which supports backlight LEDs, please let us know at https://github.com/kriomant/ch57x-keyboard-tool/issues/60. We'll be glad to help you reverse-engineer it."@,
    }
}

impl KeyboardError {
    /// A sentence for the user.
    pub fn message(&self) -> (r: &'static str)
        ensures
            r@ == error_text(*self),
    {
        match self {
            KeyboardError::InvalidLayer => "invalid layer index",
            KeyboardError::InvalidKeyIndex => "invalid key index",
            KeyboardError::InvalidKnobIndex => "invalid knob index",
            KeyboardError::SequenceTooLong => "macro sequence is too long",
            KeyboardError::EmptyClick => "buttons must be given for click macro",
            KeyboardError::Unsupported => "If you have a device which supports backlight LEDs, please let us know at https://github.com/kriomant/ch57x-keyboard-tool/issues/60. We'll be glad to help you reverse-engineer it.",
        }
    }
}

} // verus!
