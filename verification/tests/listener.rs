use keytap::event::{event_mask, EventField, EventType};
use keytap::flags::{
    EventFlags, MASK_ALPHA_SHIFT, MASK_COMMAND, MASK_CONTROL, MASK_SECONDARY_FN, MASK_SHIFT,
};
use keytap::keymap::{Key, Keymap};
use keytap::listener::{
    button_key, is_pressed, keycode_of, Decision, Hotkey, KeyEvent, ListenerState, TapEvent,
};
use keytap::modifiers::{Modifier, Modifiers};

const A: i64 = 0x00;
const CMD_RIGHT: i64 = 0x36;
const SHIFT_LEFT: i64 = 0x38;
const CAPS_LOCK: i64 = 0x39;
const CTRL_LEFT: i64 = 0x3B;
const SHIFT_RIGHT: i64 = 0x3C;
const CTRL_RIGHT: i64 = 0x3E;
const FUNCTION: i64 = 0x3F;
const MISSION_CONTROL: i64 = 0xA0;

const KEY_A: Key = Key::Keyboard(1);
const KEY_CAPS: Key = Key::Keyboard(2);

fn keymap() -> Keymap {
    Keymap::new(
        vec![(A as u16, KEY_A), (CAPS_LOCK as u16, KEY_CAPS)],
        vec![
            (CMD_RIGHT as u16, Modifiers::single(Modifier::CmdRight)),
            (SHIFT_LEFT as u16, Modifiers::single(Modifier::ShiftLeft)),
            (CTRL_LEFT as u16, Modifiers::single(Modifier::CtrlLeft)),
            (SHIFT_RIGHT as u16, Modifiers::single(Modifier::ShiftRight)),
            (CTRL_RIGHT as u16, Modifiers::single(Modifier::CtrlRight)),
            (FUNCTION as u16, Modifiers::single(Modifier::Fn)),
        ],
    )
}

fn set(keys: &[Modifier]) -> Modifiers {
    let mut r = Modifiers::empty();
    for k in keys {
        r.insert(Modifiers::single(*k));
    }
    r
}

fn state(keys: &[Modifier]) -> ListenerState {
    let mut s = ListenerState::new();
    s.current_modifiers = set(keys);
    s
}

fn handle(s: &mut ListenerState, kind: EventType, bits: u64, field: i64) -> Decision {
    s.handle_event(TapEvent { kind, flags: EventFlags { bits }, field }, &keymap())
}

fn key_event(keys: &[Modifier], key: Key, is_key_down: bool) -> KeyEvent {
    KeyEvent { modifiers: set(keys), key: Some(key), is_key_down, changed_modifier: None }
}

const SILENT: Decision = Decision { query: None, emit: None };

#[test]
fn event_mask_asks_for_keys_and_buttons() {
    assert_eq!(event_mask(), 0x0600_1C1E);
}

#[test]
fn event_types_by_number() {
    assert_eq!(EventType::from_code(1), EventType::LeftMouseDown);
    assert_eq!(EventType::from_code(2), EventType::LeftMouseUp);
    assert_eq!(EventType::from_code(3), EventType::RightMouseDown);
    assert_eq!(EventType::from_code(4), EventType::RightMouseUp);
    assert_eq!(EventType::from_code(10), EventType::KeyDown);
    assert_eq!(EventType::from_code(11), EventType::KeyUp);
    assert_eq!(EventType::from_code(12), EventType::FlagsChanged);
    assert_eq!(EventType::from_code(25), EventType::OtherMouseDown);
    assert_eq!(EventType::from_code(26), EventType::OtherMouseUp);
    assert_eq!(EventType::from_code(4294967294), EventType::TapDisabledByTimeout);
    assert_eq!(EventType::from_code(4294967295), EventType::TapDisabledByUserInput);
    assert_eq!(EventType::from_code(0), EventType::Other);
    assert_eq!(EventType::from_code(22), EventType::Other);
}

#[test]
fn fields_of_events() {
    assert_eq!(EventType::KeyDown.field(), Some(EventField::KeyboardKeycode));
    assert_eq!(EventType::KeyUp.field(), Some(EventField::KeyboardKeycode));
    assert_eq!(EventType::FlagsChanged.field(), Some(EventField::KeyboardKeycode));
    assert_eq!(EventType::OtherMouseDown.field(), Some(EventField::MouseButtonNumber));
    assert_eq!(EventType::OtherMouseUp.field(), Some(EventField::MouseButtonNumber));
    assert_eq!(EventType::LeftMouseDown.field(), None);
    assert_eq!(EventType::Other.field(), None);
}

#[test]
fn keycodes_are_sixteen_bits() {
    assert_eq!(keycode_of(0x3F), 0x3F);
    assert_eq!(keycode_of(0x1_0005), 5);
    assert_eq!(keycode_of(-1), 0xFFFF);
    assert_eq!(keycode_of(i64::MIN), 0);
}

#[test]
fn first_row_of_a_keymap_counts() {
    let k = Keymap::new(
        vec![(7, KEY_A), (7, KEY_CAPS)],
        vec![(7, Modifiers::empty()), (7, Modifiers::single(Modifier::Fn))],
    );
    assert_eq!(k.keycode_to_key(7), Some(KEY_A));
    assert_eq!(k.keycode_to_key(8), None);
    assert_eq!(k.keycode_to_modifier(7), Some(Modifiers::empty()));
    assert_eq!(k.keycode_to_modifier(8), None);
}

#[test]
fn key_press_and_release() {
    let mut s = state(&[]);
    assert_eq!(
        handle(&mut s, EventType::KeyDown, MASK_CONTROL, A),
        Decision {
            query: Some(Hotkey { modifiers: set(&[Modifier::CtrlLeft]), key: Some(KEY_A) }),
            emit: Some(key_event(&[Modifier::CtrlLeft], KEY_A, true)),
        }
    );
    assert_eq!(s.current_modifiers, set(&[Modifier::CtrlLeft]));
    assert_eq!(
        handle(&mut s, EventType::KeyUp, MASK_CONTROL, A),
        Decision {
            query: Some(Hotkey { modifiers: set(&[Modifier::CtrlLeft]), key: Some(KEY_A) }),
            emit: Some(key_event(&[Modifier::CtrlLeft], KEY_A, false)),
        }
    );
}

#[test]
fn unnamed_key_is_silent_but_reconciles() {
    for kind in [EventType::KeyDown, EventType::KeyUp] {
        let mut s = state(&[Modifier::CmdLeft]);
        assert_eq!(handle(&mut s, kind, MASK_SHIFT, MISSION_CONTROL), SILENT);
        assert_eq!(s.current_modifiers, set(&[Modifier::ShiftLeft]));
    }
}

#[test]
fn modifier_press_and_release() {
    let mut s = state(&[]);
    let d = handle(&mut s, EventType::FlagsChanged, MASK_CONTROL, CTRL_LEFT);
    let held = set(&[Modifier::CtrlLeft]);
    assert_eq!(
        d,
        Decision {
            query: Some(Hotkey { modifiers: held, key: None }),
            emit: Some(KeyEvent {
                modifiers: held,
                key: None,
                is_key_down: true,
                changed_modifier: Some(held),
            }),
        }
    );
    let d = handle(&mut s, EventType::FlagsChanged, 0, CTRL_LEFT);
    assert_eq!(
        d,
        Decision {
            query: None,
            emit: Some(KeyEvent {
                modifiers: Modifiers::empty(),
                key: None,
                is_key_down: false,
                changed_modifier: Some(held),
            }),
        }
    );
    assert!(s.current_modifiers.is_empty());
}

#[test]
fn press_of_the_right_side_finds_the_left_side_put_down() {
    let mut s = state(&[]);
    let d = handle(&mut s, EventType::FlagsChanged, MASK_CONTROL, CTRL_RIGHT);
    let both = set(&[Modifier::CtrlLeft, Modifier::CtrlRight]);
    assert_eq!(s.current_modifiers, both);
    assert_eq!(d.emit.unwrap().modifiers, both);
    assert_eq!(d.emit.unwrap().changed_modifier, Some(set(&[Modifier::CtrlRight])));
}

#[test]
fn released_side_stays_while_the_other_is_held() {
    let mut s = state(&[Modifier::ShiftLeft, Modifier::ShiftRight]);
    let d = handle(&mut s, EventType::FlagsChanged, MASK_SHIFT, SHIFT_RIGHT);
    assert!(d.emit.unwrap().is_key_down);
    assert_eq!(s.current_modifiers, set(&[Modifier::ShiftLeft, Modifier::ShiftRight]));
    let d = handle(&mut s, EventType::FlagsChanged, 0, SHIFT_LEFT);
    assert!(!d.emit.unwrap().is_key_down);
    assert!(s.current_modifiers.is_empty());
}

#[test]
fn modifier_traffic_alone_clears_a_stale_key() {
    let mut s = state(&[Modifier::CmdLeft]);
    let d = handle(&mut s, EventType::FlagsChanged, MASK_SHIFT, SHIFT_LEFT);
    assert_eq!(s.current_modifiers, set(&[Modifier::ShiftLeft]));
    assert_eq!(
        d.query,
        Some(Hotkey { modifiers: set(&[Modifier::ShiftLeft]), key: None })
    );
}

#[test]
fn missed_press_does_not_invert_the_release() {
    let mut s = state(&[]);
    let d = handle(&mut s, EventType::FlagsChanged, 0, CMD_RIGHT);
    assert!(!d.emit.unwrap().is_key_down);
    assert!(s.current_modifiers.is_empty());
    let mut s = state(&[Modifier::CmdRight]);
    let d = handle(&mut s, EventType::FlagsChanged, MASK_COMMAND, CMD_RIGHT);
    assert!(d.emit.unwrap().is_key_down);
    assert_eq!(s.current_modifiers, set(&[Modifier::CmdRight]));
}

#[test]
fn function_key_press_and_release() {
    let mut s = state(&[]);
    let d = handle(&mut s, EventType::FlagsChanged, MASK_SECONDARY_FN, FUNCTION);
    assert_eq!(d.query, Some(Hotkey { modifiers: set(&[Modifier::Fn]), key: None }));
    assert!(d.emit.unwrap().is_key_down);
    let d = handle(&mut s, EventType::FlagsChanged, 0, FUNCTION);
    assert_eq!(d.query, None);
    assert_eq!(d.emit.unwrap().modifiers, Modifiers::empty());
    assert!(!d.emit.unwrap().is_key_down);
}

#[test]
fn function_key_without_a_name_is_silent() {
    let unnamed = Keymap::new(vec![], vec![]);
    for (keys, bits) in [
        (state(&[]), MASK_SECONDARY_FN),
        (state(&[Modifier::Fn]), 0),
        (state(&[Modifier::Fn]), MASK_SECONDARY_FN),
    ] {
        let mut s = keys;
        let event = TapEvent {
            kind: EventType::FlagsChanged,
            flags: EventFlags { bits },
            field: FUNCTION,
        };
        assert_eq!(s.handle_event(event, &unnamed), SILENT);
    }
}

#[test]
fn lock_key_is_told_with_what_was_held_before() {
    let mut s = state(&[Modifier::CtrlLeft]);
    let d = handle(&mut s, EventType::FlagsChanged, MASK_ALPHA_SHIFT | MASK_SECONDARY_FN, CAPS_LOCK);
    let before = set(&[Modifier::CtrlLeft, Modifier::Fn]);
    assert_eq!(d.query, Some(Hotkey { modifiers: before, key: Some(KEY_CAPS) }));
    assert_eq!(
        d.emit,
        Some(key_event(&[Modifier::CtrlLeft, Modifier::Fn], KEY_CAPS, true))
    );
    assert_eq!(s.current_modifiers, set(&[Modifier::Fn]));
    let d = handle(&mut s, EventType::FlagsChanged, 0, CAPS_LOCK);
    assert_eq!(d.emit, Some(key_event(&[], KEY_CAPS, false)));
    assert!(s.current_modifiers.is_empty());
}

#[test]
fn clicks_are_told_with_modifiers_only() {
    for (kind, key, down) in [
        (EventType::LeftMouseDown, Key::MouseLeft, true),
        (EventType::LeftMouseUp, Key::MouseLeft, false),
        (EventType::RightMouseDown, Key::MouseRight, true),
        (EventType::RightMouseUp, Key::MouseRight, false),
    ] {
        assert_eq!(handle(&mut state(&[]), kind, 0, 0), SILENT);
        assert_eq!(handle(&mut state(&[Modifier::CmdLeft]), kind, MASK_ALPHA_SHIFT, 0), SILENT);
        assert_eq!(
            handle(&mut state(&[Modifier::CmdRight]), kind, MASK_COMMAND, 0),
            Decision { query: None, emit: Some(key_event(&[Modifier::CmdRight], key, down)) }
        );
    }
}

#[test]
fn other_buttons_are_told_by_number() {
    assert_eq!(button_key(2), Some(Key::MouseMiddle));
    assert_eq!(button_key(3), Some(Key::MouseX1));
    assert_eq!(button_key(4), Some(Key::MouseX2));
    for number in [-1, 0, 1, 5, 0x1_0002] {
        assert_eq!(button_key(number), None);
        assert_eq!(handle(&mut state(&[]), EventType::OtherMouseDown, 0, number), SILENT);
    }
    assert_eq!(
        handle(&mut state(&[]), EventType::OtherMouseDown, 0, 2),
        Decision { query: None, emit: Some(key_event(&[], Key::MouseMiddle, true)) }
    );
    assert_eq!(
        handle(&mut state(&[]), EventType::OtherMouseUp, MASK_SHIFT, 4),
        Decision { query: None, emit: Some(key_event(&[Modifier::ShiftLeft], Key::MouseX2, false)) }
    );
}

#[test]
fn other_events_only_reconcile() {
    let mut s = state(&[Modifier::ShiftRight]);
    assert_eq!(handle(&mut s, EventType::Other, MASK_CONTROL, 0), SILENT);
    assert_eq!(s.current_modifiers, set(&[Modifier::CtrlLeft]));
}

#[test]
fn first_group_decides_a_press() {
    let two = set(&[Modifier::CmdLeft, Modifier::ShiftLeft]);
    assert!(is_pressed(two, EventFlags { bits: MASK_COMMAND }));
    assert!(!is_pressed(two, EventFlags { bits: MASK_SHIFT }));
    assert!(!is_pressed(Modifiers::empty(), EventFlags { bits: u64::MAX }));
}
