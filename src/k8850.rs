use vstd::prelude::*;

use crate::error::KeyboardError;
use crate::model::{
    macro_kind, modifier_byte, modifier_to_byte, Accord, Key, Macro, Modifier, MouseAction,
    MouseEvent,
};

verus! {

/// Number of buttons in the grid; knob ids start right after them.
pub const KEY_BASE: u8 = 12;

/// Number of knobs.
pub const KNOB_COUNT: u8 = 4;

/// Highest layer index the device accepts.
pub const MAX_LAYER: u8 = 15;

/// Most chords one key-press macro may hold.
pub const MAX_CHORDS: usize = 18;

/// Output endpoint to try first when the device is opened.
pub const PREFERRED_ENDPOINT: u8 = 0x04;

/// Whether the key's index lies inside the device's buttons or knobs.
pub open spec fn key_in_range(key: Key, base: u8) -> bool {
    match key {
        Key::Button(n) => n < base,
        Key::Knob(n, _) => n < KNOB_COUNT,
    }
}

/// The key id: buttons count from 1, then each knob takes three ids, one per gesture.
pub open spec fn key_id(key: Key, base: u8) -> int {
    match key {
        Key::Button(n) => n + 1,
        Key::Knob(n, action) => base + 1 + 3 * n + action.spec_code(),
    }
}

/// The error for a key whose index is out of range.
pub open spec fn key_error(key: Key) -> KeyboardError {
    match key {
        Key::Button(_) => KeyboardError::InvalidKeyIndex,
        Key::Knob(_, _) => KeyboardError::InvalidKnobIndex,
    }
}

impl Key {
    /// The key id on a device with `base` buttons.
    pub fn to_key_id_8850(self, base: u8) -> (r: Result<u8, KeyboardError>)
        requires
            key_in_range(self, base) ==> key_id(self, base) <= u8::MAX,
        ensures
            match r {
                Ok(id) => key_in_range(self, base) && id == key_id(self, base),
                Err(e) => !key_in_range(self, base) && e == key_error(self),
            },
    {
        match self {
            Key::Button(n) => {
                if n >= base {
                    Err(KeyboardError::InvalidKeyIndex)
                } else {
                    Ok(n + 1)
                }
            },
            Key::Knob(n, action) => {
                if n >= KNOB_COUNT {
                    Err(KeyboardError::InvalidKnobIndex)
                } else {
                    Ok(base + 1 + 3 * n + action.code())
                }
            },
        }
    }
}

/// What is wrong with the macro itself, if anything.
pub open spec fn macro_error(m: Macro) -> Option<KeyboardError> {
    match m {
        Macro::Keyboard(presses) => if presses@.len() > MAX_CHORDS {
            Some(KeyboardError::SequenceTooLong)
        } else {
            None
        },
        Macro::Mouse(MouseEvent(MouseAction::Click(buttons), _)) => if buttons.bits == 0 {
            Some(KeyboardError::EmptyClick)
        } else {
            None
        },
        _ => None,
    }
}

/// Whether the macro is a click that names no button.
pub open spec fn is_empty_click(m: Macro) -> bool {
    m matches Macro::Mouse(MouseEvent(MouseAction::Click(buttons), _)) && buttons.bits == 0
}

/// The first check that a binding fails, in the order layer, key, macro.
pub open spec fn bind_error(layer: u8, key: Key, m: Macro) -> Option<KeyboardError> {
    if layer > MAX_LAYER {
        Some(KeyboardError::InvalidLayer)
    } else if !key_in_range(key, KEY_BASE) {
        Some(key_error(key))
    } else {
        macro_error(m)
    }
}

/// The length byte of a key-press macro. A single chord without a key code is a
/// modifier held across what follows, which the firmware marks with 0.
pub open spec fn length_byte(presses: Seq<Accord>) -> u8 {
    if presses.len() == 1 && presses[0].code is None {
        0
    } else {
        presses.len() as u8
    }
}

/// Each chord as two bytes, modifier mask then key code, in order.
pub open spec fn chord_bytes(presses: Seq<Accord>) -> Seq<u8>
    decreases presses.len(),
{
    if presses.len() == 0 {
        Seq::empty()
    } else {
        chord_bytes(presses.drop_last()) + seq![
            presses.last().modifiers.bits,
            presses.last().spec_code_byte(),
        ]
    }
}

/// The part of the data frame that depends on the kind of macro.
pub open spec fn payload(m: Macro) -> Seq<u8> {
    match m {
        Macro::Keyboard(presses) => seq![length_byte(presses@)] + chord_bytes(presses@),
        Macro::Media(code) => seq![0u8, (code % 256) as u8, (code / 256) as u8, 0u8, 0u8, 0u8, 0u8],
        Macro::Mouse(MouseEvent(MouseAction::Click(buttons), _)) => seq![0x01u8, 0u8, buttons.bits],
        Macro::Mouse(MouseEvent(MouseAction::WheelUp, modifier)) => seq![
            0x03u8,
            modifier_byte(modifier),
            0u8,
            0u8,
            0u8,
            0x01u8,
        ],
        Macro::Mouse(MouseEvent(MouseAction::WheelDown, modifier)) => seq![
            0x03u8,
            modifier_byte(modifier),
            0u8,
            0u8,
            0u8,
            0xffu8,
        ],
    }
}

/// The ten header bytes: report marker, bind opcode, key id, layer counted from 1,
/// macro kind, and five reserved zeros.
pub open spec fn header(layer: u8, key: Key, m: Macro) -> Seq<u8> {
    seq![
        0x03u8,
        0xfeu8,
        key_id(key, KEY_BASE) as u8,
        (layer + 1) as u8,
        macro_kind(m),
        0u8,
        0u8,
        0u8,
        0u8,
        0u8,
    ]
}

/// The frame that carries a binding.
pub open spec fn data_frame(layer: u8, key: Key, m: Macro) -> Seq<u8> {
    header(layer, key, m) + payload(m)
}

/// The frame that commits a binding.
pub open spec fn terminator() -> Seq<u8> {
    seq![0x03u8, 0xfdu8, 0xfeu8, 0xffu8]
}

/// Checks a binding and builds the frames that program it, in the order they are
/// sent: the data frame, then the terminator. Nothing is built when a check fails.
pub fn bind_key(layer: u8, key: Key, expansion: &Macro) -> (r: Result<Vec<Vec<u8>>, KeyboardError>)
    ensures
        match r {
            Ok(frames) => {
                &&& bind_error(layer, key, *expansion) is None
                &&& frames@.len() == 2
                &&& frames@[0]@ == data_frame(layer, key, *expansion)
                &&& frames@[1]@ == terminator()
            },
            Err(e) => bind_error(layer, key, *expansion) == Some(e),
        },
        r matches Ok(frames) ==> frames@[0]@[3] == layer + 1,
        r matches Ok(frames) ==> frames@[0]@[2] == key_id(key, KEY_BASE),
        r matches Ok(frames) ==> frames@[0]@[4] == macro_kind(*expansion),
        r == Err::<Vec<Vec<u8>>, KeyboardError>(KeyboardError::InvalidLayer) <==> layer
            > MAX_LAYER,
        r == Err::<Vec<Vec<u8>>, KeyboardError>(KeyboardError::InvalidKeyIndex) <==> (layer
            <= MAX_LAYER && key is Button && key->Button_0 >= KEY_BASE),
        r == Err::<Vec<Vec<u8>>, KeyboardError>(KeyboardError::InvalidKnobIndex) <==> (layer
            <= MAX_LAYER && key is Knob && key->Knob_0 >= KNOB_COUNT),
        r == Err::<Vec<Vec<u8>>, KeyboardError>(KeyboardError::SequenceTooLong) <==> (layer
            <= MAX_LAYER && key_in_range(key, KEY_BASE) && *expansion is Keyboard
            && expansion->Keyboard_0@.len() > MAX_CHORDS),
        r == Err::<Vec<Vec<u8>>, KeyboardError>(KeyboardError::EmptyClick) <==> (layer
            <= MAX_LAYER && key_in_range(key, KEY_BASE) && is_empty_click(*expansion)),
        *expansion matches Macro::Keyboard(presses) ==> (r matches Ok(frames) ==> {
            &&& presses@.len() <= MAX_CHORDS
            &&& frames@[0]@[10] == (if presses@.len() == 1 && presses@[0].code is None {
                0
            } else {
                presses@.len()
            })
        }),
        *expansion matches Macro::Media(code) ==> (r matches Ok(frames) ==> frames@[0]@[11] + 256
            * frames@[0]@[12] == code),
        *expansion matches Macro::Mouse(MouseEvent(MouseAction::Click(buttons), _)) ==> (r matches Ok(
            frames,
        ) ==> buttons.bits != 0 && frames@[0]@[12] == buttons.bits),
{
    if layer > MAX_LAYER {
        return Err(KeyboardError::InvalidLayer);
    }
    let id = match key.to_key_id_8850(KEY_BASE) {
        Ok(id) => id,
        Err(e) => return Err(e),
    };
    let mut msg: Vec<u8> = vec![0x03, 0xfe, id, layer + 1, expansion.kind(), 0, 0, 0, 0, 0];
    assert(msg@ == header(layer, key, *expansion));
    match expansion {
        Macro::Keyboard(presses) => {
            if presses.len() > MAX_CHORDS {
                return Err(KeyboardError::SequenceTooLong);
            }
            if presses.len() == 1 && presses[0].code.is_none() {
                msg.push(0);
            } else {
                msg.push(presses.len() as u8);
            }
            let ghost prefix = msg@;
            assert(prefix == header(layer, key, *expansion) + seq![length_byte(presses@)]);
            let mut i: usize = 0;
            while i < presses.len()
                invariant
                    i <= presses@.len(),
                    msg@ == prefix + chord_bytes(presses@.take(i as int)),
                decreases presses@.len() - i,
            {
                let chord: Accord = presses[i];
                msg.push(chord.modifiers.as_u8());
                msg.push(chord.code_byte());
                proof {
                    let next = presses@.take(i + 1);
                    assert(next.drop_last() =~= presses@.take(i as int));
                    assert(next.last() == chord);
                    assert(msg@ =~= prefix + chord_bytes(next));
                }
                i += 1;
            }
            assert(presses@.take(presses@.len() as int) =~= presses@);
            assert(msg@ =~= data_frame(layer, key, *expansion));
        },
        Macro::Media(code) => {
            let low: u8 = (*code % 256) as u8;
            let high: u8 = (*code / 256) as u8;
            msg.push(0);
            msg.push(low);
            msg.push(high);
            msg.push(0);
            msg.push(0);
            msg.push(0);
            msg.push(0);
            assert(msg@ =~= data_frame(layer, key, *expansion));
        },
        Macro::Mouse(MouseEvent(MouseAction::Click(buttons), _)) => {
            if buttons.is_empty() {
                return Err(KeyboardError::EmptyClick);
            }
            msg.push(0x01);
            msg.push(0);
            msg.push(buttons.as_u8());
            assert(msg@ =~= data_frame(layer, key, *expansion));
        },
        Macro::Mouse(MouseEvent(MouseAction::WheelUp, modifier)) => {
            msg.push(0x03);
            msg.push(modifier_to_byte(*modifier));
            msg.push(0);
            msg.push(0);
            msg.push(0);
            msg.push(0x01);
            assert(msg@ =~= data_frame(layer, key, *expansion));
        },
        Macro::Mouse(MouseEvent(MouseAction::WheelDown, modifier)) => {
            msg.push(0x03);
            msg.push(modifier_to_byte(*modifier));
            msg.push(0);
            msg.push(0);
            msg.push(0);
            msg.push(0xff);
            assert(msg@ =~= data_frame(layer, key, *expansion));
        },
    }
    Ok(vec![msg, vec![0x03, 0xfd, 0xfe, 0xff]])
}

/// Backlight control: the device's protocol for it is not known, so every
/// request is refused and nothing is sent.
pub fn set_led(level: u8) -> (r: Result<Vec<Vec<u8>>, KeyboardError>)
    ensures
        r == Err::<Vec<Vec<u8>>, KeyboardError>(KeyboardError::Unsupported),
{
    Err(KeyboardError::Unsupported)
}

/// Scrolling up and scrolling down with the same modifier, on the same key and
/// layer, give data frames of one length that differ only in the last byte, the
/// wheel delta: 0x01 for up, 0xff (-1 as a byte) for down.
pub proof fn wheel_frames_differ_in_delta(layer: u8, key: Key, modifier: Option<Modifier>)
    ensures
        data_frame(layer, key, Macro::Mouse(MouseEvent(MouseAction::WheelUp, modifier))).len()
            == data_frame(layer, key, Macro::Mouse(MouseEvent(MouseAction::WheelDown, modifier))).len(),
        data_frame(layer, key, Macro::Mouse(MouseEvent(MouseAction::WheelUp, modifier))).last()
            == 0x01,
        data_frame(layer, key, Macro::Mouse(MouseEvent(MouseAction::WheelDown, modifier))).last()
            == 0xff,
        forall|i: int|
            0 <= i < data_frame(layer, key, Macro::Mouse(MouseEvent(MouseAction::WheelUp, modifier))).len()
                - 1 ==> #[trigger] data_frame(
                layer,
                key,
                Macro::Mouse(MouseEvent(MouseAction::WheelUp, modifier)),
            )[i] == data_frame(layer, key, Macro::Mouse(MouseEvent(MouseAction::WheelDown, modifier)))[i],
{
}

} // verus!
