use ch57x_keyboard::error::KeyboardError;
use ch57x_keyboard::k8850::{bind_key, set_led, KEY_BASE, MAX_CHORDS, MAX_LAYER};
use ch57x_keyboard::model::{
    Accord, Key, KnobAction, Macro, Modifier, Modifiers, MouseAction, MouseButton, MouseButtons,
    MouseEvent,
};

fn data_frame(layer: u8, key: Key, m: &Macro) -> Vec<u8> {
    let frames = bind_key(layer, key, m).expect("binding should be accepted");
    assert_eq!(frames.len(), 2);
    assert_eq!(frames[1], vec![0x03, 0xfd, 0xfe, 0xff]);
    frames[0].clone()
}

fn chord(modifiers: Modifiers, code: Option<u8>) -> Accord {
    Accord { modifiers, code }
}

#[test]
fn media_binding_on_first_button() {
    let frame = data_frame(0, Key::Button(0), &Macro::Media(0x00E9));
    assert_eq!(
        frame,
        vec![0x03, 0xfe, 1, 1, 2, 0, 0, 0, 0, 0, 0, 0xE9, 0x00, 0, 0, 0, 0]
    );
}

#[test]
fn layer_past_last_is_rejected() {
    let r = bind_key(16, Key::Button(0), &Macro::Media(0x00E9));
    assert_eq!(r, Err(KeyboardError::InvalidLayer));
}

#[test]
fn led_is_unsupported_for_every_level() {
    for level in [0u8, 1, 5, 255] {
        assert_eq!(set_led(level), Err(KeyboardError::Unsupported));
    }
}

#[test]
fn layer_byte_is_layer_plus_one() {
    for layer in 0..=MAX_LAYER {
        let frame = data_frame(layer, Key::Button(3), &Macro::Media(1));
        assert_eq!(frame[3], layer + 1);
    }
}

#[test]
fn button_ids_count_from_one() {
    for n in 0..KEY_BASE {
        let frame = data_frame(2, Key::Button(n), &Macro::Media(1));
        assert_eq!(frame[2], n + 1);
    }
}

#[test]
fn button_past_grid_is_rejected() {
    for n in [KEY_BASE, KEY_BASE + 1, 255] {
        assert_eq!(
            bind_key(0, Key::Button(n), &Macro::Media(1)),
            Err(KeyboardError::InvalidKeyIndex)
        );
    }
}

#[test]
fn knob_ids_follow_buttons() {
    let actions = [
        (KnobAction::RotateCcw, 0u8),
        (KnobAction::Press, 1u8),
        (KnobAction::RotateCw, 2u8),
    ];
    for n in 0..4u8 {
        for (action, code) in actions {
            let frame = data_frame(0, Key::Knob(n, action), &Macro::Media(1));
            assert_eq!(frame[2], KEY_BASE + 1 + 3 * n + code);
        }
    }
    assert_eq!(data_frame(0, Key::Knob(0, KnobAction::RotateCcw), &Macro::Media(1))[2], 13);
    assert_eq!(data_frame(0, Key::Knob(3, KnobAction::RotateCw), &Macro::Media(1))[2], 24);
}

#[test]
fn knob_past_last_is_rejected() {
    assert_eq!(
        bind_key(0, Key::Knob(4, KnobAction::Press), &Macro::Media(1)),
        Err(KeyboardError::InvalidKnobIndex)
    );
}

#[test]
fn layer_is_checked_before_key() {
    assert_eq!(
        bind_key(20, Key::Button(200), &Macro::Media(1)),
        Err(KeyboardError::InvalidLayer)
    );
}

#[test]
fn single_bare_modifier_has_length_zero() {
    let ctrl = Modifiers::empty().with(Modifier::Ctrl);
    let frame = data_frame(0, Key::Button(1), &Macro::Keyboard(vec![chord(ctrl, None)]));
    assert_eq!(frame, vec![0x03, 0xfe, 2, 1, 1, 0, 0, 0, 0, 0, 0, 0x01, 0]);
}

#[test]
fn single_chord_with_code_has_length_one() {
    let frame = data_frame(
        0,
        Key::Button(1),
        &Macro::Keyboard(vec![chord(Modifiers::empty(), Some(0x04))]),
    );
    assert_eq!(&frame[10..], &[1, 0, 0x04]);
}

#[test]
fn chords_are_written_in_order() {
    let shift = Modifiers::empty().with(Modifier::Shift);
    let both = shift.with(Modifier::RightAlt);
    let presses = vec![
        chord(shift, Some(0x04)),
        chord(Modifiers::empty(), Some(0x05)),
        chord(both, None),
    ];
    let frame = data_frame(3, Key::Button(11), &Macro::Keyboard(presses));
    assert_eq!(
        frame,
        vec![0x03, 0xfe, 12, 4, 1, 0, 0, 0, 0, 0, 3, 0x02, 0x04, 0x00, 0x05, 0x42, 0x00]
    );
}

#[test]
fn empty_key_sequence_has_length_zero_and_no_chords() {
    let frame = data_frame(0, Key::Button(0), &Macro::Keyboard(vec![]));
    assert_eq!(frame.len(), 11);
    assert_eq!(frame[10], 0);
}

#[test]
fn longest_sequence_is_accepted() {
    let presses = vec![chord(Modifiers::empty(), Some(0x1e)); MAX_CHORDS];
    let frame = data_frame(0, Key::Button(0), &Macro::Keyboard(presses));
    assert_eq!(frame[10], 18);
    assert_eq!(frame.len(), 11 + 2 * 18);
}

#[test]
fn too_long_sequence_is_rejected() {
    let presses = vec![chord(Modifiers::empty(), Some(0x1e)); MAX_CHORDS + 1];
    assert_eq!(
        bind_key(0, Key::Button(0), &Macro::Keyboard(presses)),
        Err(KeyboardError::SequenceTooLong)
    );
}

#[test]
fn media_code_is_little_endian() {
    for code in [0u16, 1, 0x00E9, 0x0183, 0x1234, 0xff00, 0xffff] {
        let frame = data_frame(0, Key::Button(0), &Macro::Media(code));
        assert_eq!(frame[10], 0);
        assert_eq!(u16::from_le_bytes([frame[11], frame[12]]), code);
        assert_eq!(&frame[13..], &[0, 0, 0, 0]);
    }
}

#[test]
fn click_keeps_button_mask() {
    let buttons = MouseButtons::empty()
        .with(MouseButton::Left)
        .with(MouseButton::Middle);
    let m = Macro::Mouse(MouseEvent(MouseAction::Click(buttons), None));
    let frame = data_frame(1, Key::Button(5), &m);
    assert_eq!(frame, vec![0x03, 0xfe, 6, 2, 3, 0, 0, 0, 0, 0, 0x01, 0, 0x05]);
}

#[test]
fn click_without_buttons_is_rejected() {
    let m = Macro::Mouse(MouseEvent(
        MouseAction::Click(MouseButtons::empty()),
        Some(Modifier::Ctrl),
    ));
    assert_eq!(bind_key(0, Key::Button(0), &m), Err(KeyboardError::EmptyClick));
}

#[test]
fn wheel_directions_differ_only_in_delta() {
    for modifier in [None, Some(Modifier::Ctrl), Some(Modifier::RightWin)] {
        let up = data_frame(
            2,
            Key::Knob(1, KnobAction::RotateCw),
            &Macro::Mouse(MouseEvent(MouseAction::WheelUp, modifier)),
        );
        let down = data_frame(
            2,
            Key::Knob(1, KnobAction::RotateCw),
            &Macro::Mouse(MouseEvent(MouseAction::WheelDown, modifier)),
        );
        assert_eq!(up.len(), down.len());
        let last = up.len() - 1;
        assert_eq!(up[..last], down[..last]);
        assert_eq!(up[last], 0x01);
        assert_eq!(down[last], 0xff);
    }
}

#[test]
fn wheel_carries_modifier_byte() {
    let m = Macro::Mouse(MouseEvent(MouseAction::WheelDown, Some(Modifier::Alt)));
    let frame = data_frame(0, Key::Button(0), &m);
    assert_eq!(&frame[10..], &[0x03, 0x04, 0, 0, 0, 0xff]);
}

#[test]
fn error_messages_name_the_problem() {
    assert_eq!(KeyboardError::InvalidLayer.message(), "invalid layer index");
    assert_eq!(KeyboardError::InvalidKnobIndex.message(), "invalid knob index");
    assert!(KeyboardError::Unsupported.message().contains("backlight LEDs"));
    assert!(KeyboardError::Unsupported.message().contains("issues/60"));
}
