//! What the user of the listener is told of each event, by the event's own numbers.

use crate::event::EventType;
use crate::flags::{every_group_has_its_own_bit, EventFlags};
use crate::keymap::{Key, Keymap};
use crate::listener::{
    answer, button, button_key, is_pressed, keycode, keycode_of, settled, went_down, Decision,
    Hotkey, KeyEvent, ListenerState, TapEvent,
};
use crate::modifiers::{Group, Modifier, Modifiers};
use crate::reconcile::{
    every_group_is_reconciled_by_its_own_bit, only_the_function_key_is_reported_by_its_bit,
    reconciled,
};
use vstd::prelude::*;

verus! {

/// Two integers have one keycode exactly when they differ by a multiple of 65536, and a keycode is
/// its own integer.
pub proof fn keycodes_are_integers_up_to_their_high_bits(a: i64, b: i64, code: u16)
    ensures
        keycode(a) == keycode(b) <==> (a - b) % 0x1_0000 == 0,
        keycode(a) == code <==> (a - code) % 0x1_0000 == 0,
        keycode(code as i64) == code,
{
}

/// `keycode_of` keeps an integer up to a multiple of 65536.
pub proof fn keycode_differs_by_the_high_bits(field: i64, r: u16)
    requires
        call_ensures(keycode_of, (field,), r),
    ensures
        (field - r) % 0x1_0000 == 0,
{
}

/// Three numbers name a button, each its own, and no other number does.
pub proof fn three_numbers_name_buttons(number: i64, r: Option<Key>)
    requires
        call_ensures(button_key, (number,), r),
    ensures
        r is Some <==> 2 <= number <= 4,
        r == Some(Key::MouseMiddle) <==> number == 2,
        r == Some(Key::MouseX1) <==> number == 3,
        r == Some(Key::MouseX2) <==> number == 4,
        button(number) == r,
{
}

/// The views show every field of what they are views of.
pub proof fn views_show_every_field(event: KeyEvent, hotkey: Hotkey, decision: Decision)
    ensures
        event@.modifiers == event.modifiers@,
        event@.key == event.key,
        event@.is_key_down == event.is_key_down,
        event@.changed_modifier is Some <==> event.changed_modifier is Some,
        event.changed_modifier is Some ==> event@.changed_modifier->0
            == event.changed_modifier->0@,
        hotkey@.modifiers == hotkey.modifiers@,
        hotkey@.key == hotkey.key,
        decision@.query is Some <==> decision.query is Some,
        decision.query is Some ==> decision@.query->0 == decision.query->0@,
        decision@.emit is Some <==> decision.emit is Some,
        decision.emit is Some ==> decision@.emit->0 == decision.emit->0@,
{
}

/// A listener starts with nothing tracked.
pub proof fn new_listener_tracks_nothing(r: ListenerState, m: Modifier)
    requires
        call_ensures(ListenerState::new, (), r),
    ensures
        !r.current_modifiers@.contains(m),
{
}

/// Changed modifier keys are down exactly when the bit of their own group is set, whatever the
/// other bits are. Where they are of several groups, Command counts before Shift, Shift before
/// Control, Control before Option, and Option before the function key; no keys are never down.
pub proof fn changed_keys_are_down_by_their_own_bit(changed: Set<Modifier>, flags: EventFlags)
    ensures
        ({
            let cmd = changed.contains(Modifier::CmdLeft) || changed.contains(Modifier::CmdRight);
            let shift = changed.contains(Modifier::ShiftLeft) || changed.contains(
                Modifier::ShiftRight,
            );
            let ctrl = changed.contains(Modifier::CtrlLeft) || changed.contains(
                Modifier::CtrlRight,
            );
            let opt = changed.contains(Modifier::OptLeft) || changed.contains(Modifier::OptRight);
            let function_key = changed.contains(Modifier::Fn);
            let down = went_down(changed, flags);
            &&& cmd ==> (down <==> flags.bits & 0x0010_0000 != 0)
            &&& !cmd && shift ==> (down <==> flags.bits & 0x0002_0000 != 0)
            &&& !cmd && !shift && ctrl ==> (down <==> flags.bits & 0x0004_0000 != 0)
            &&& !cmd && !shift && !ctrl && opt ==> (down <==> flags.bits & 0x0008_0000 != 0)
            &&& !cmd && !shift && !ctrl && !opt && function_key ==> (down <==> flags.bits
                & 0x0080_0000 != 0)
            &&& !cmd && !shift && !ctrl && !opt && !function_key ==> !down
        }),
{
    every_group_has_its_own_bit(flags);
    lemma_meets(changed, Group::Cmd, Modifier::CmdLeft, Modifier::CmdRight);
    lemma_meets(changed, Group::Shift, Modifier::ShiftLeft, Modifier::ShiftRight);
    lemma_meets(changed, Group::Ctrl, Modifier::CtrlLeft, Modifier::CtrlRight);
    lemma_meets(changed, Group::Opt, Modifier::OptLeft, Modifier::OptRight);
    lemma_meets(changed, Group::Fn, Modifier::Fn, Modifier::Fn);
}

/// Changed keys meet a group exactly when one of its keys is among them.
proof fn lemma_meets(changed: Set<Modifier>, group: Group, left: Modifier, right: Modifier)
    requires
        forall|m: Modifier| #[trigger] m.group() == group <==> m == left || m == right,
    ensures
        changed.disjoint(group.members()) <==> !changed.contains(left) && !changed.contains(right),
{
    assert(group.members().contains(left) && group.members().contains(right));
}

/// `is_pressed` answers by the bit of the one group that the keys are of.
pub proof fn one_groups_keys_are_pressed_by_its_bit(
    changed: Modifiers,
    flags: EventFlags,
    m: Modifier,
    r: bool,
)
    requires
        call_ensures(is_pressed, (changed, flags), r),
        changed@.contains(m),
        forall|o: Modifier| #[trigger] changed@.contains(o) ==> o.group() == m.group(),
    ensures
        r <==> match m {
            Modifier::CmdLeft | Modifier::CmdRight => flags.bits & 0x0010_0000 != 0,
            Modifier::ShiftLeft | Modifier::ShiftRight => flags.bits & 0x0002_0000 != 0,
            Modifier::CtrlLeft | Modifier::CtrlRight => flags.bits & 0x0004_0000 != 0,
            Modifier::OptLeft | Modifier::OptRight => flags.bits & 0x0008_0000 != 0,
            Modifier::Fn => flags.bits & 0x0080_0000 != 0,
        },
{
    changed_keys_are_down_by_their_own_bit(changed@, flags);
    assert(forall|o: Modifier| o.group() != m.group() ==> !changed@.contains(o));
}

/// A named key that goes down or up is told and asked for, under its own name, with the keys that
/// reconciling leaves; it is told as down exactly when it went down. An unnamed one is neither.
pub proof fn keys_are_told_as_they_go(
    current: Set<Modifier>,
    event: TapEvent,
    keymap: Keymap,
    code: u16,
)
    requires
        event.kind == EventType::KeyDown || event.kind == EventType::KeyUp,
        (event.field - code) % 0x1_0000 == 0,
    ensures
        ({
            let a = answer(current, event, keymap);
            &&& a.emit is Some <==> keymap.key(code) is Some
            &&& a.query is Some <==> keymap.key(code) is Some
            &&& a.emit is Some ==> {
                &&& a.emit->0.key == keymap.key(code)
                &&& a.emit->0.is_key_down <==> event.kind == EventType::KeyDown
                &&& a.emit->0.changed_modifier is None
                &&& a.emit->0.modifiers == reconciled(current, event.flags)
                &&& a.query->0.key == keymap.key(code)
                &&& a.query->0.modifiers == reconciled(current, event.flags)
            }
        }),
        settled(current, event, keymap) == reconciled(current, event.flags),
{
    keycodes_are_integers_up_to_their_high_bits(event.field, event.field, code);
}

/// The press and the release of a key are told alike, but for which of the two it is.
pub proof fn press_and_release_differ_in_direction_only(
    current: Set<Modifier>,
    flags: EventFlags,
    field: i64,
    keymap: Keymap,
)
    ensures
        ({
            let press = answer(current, TapEvent { kind: EventType::KeyDown, flags, field }, keymap);
            let release = answer(current, TapEvent { kind: EventType::KeyUp, flags, field }, keymap);
            &&& press.query == release.query
            &&& press.emit is Some <==> release.emit is Some
            &&& press.emit is Some ==> {
                &&& press.emit->0.is_key_down && !release.emit->0.is_key_down
                &&& press.emit->0.key == release.emit->0.key
                &&& press.emit->0.modifiers == release.emit->0.modifiers
            }
        }),
{
}

/// A change of modifier keys of one group is told as the keymap's row for the keycode, and as a
/// press exactly when the group's own bit is set; a hotkey is asked for on a press only.
pub proof fn modifier_changes_are_told_by_their_own_bit(
    current: Set<Modifier>,
    event: TapEvent,
    keymap: Keymap,
    code: u16,
    m: Modifier,
)
    requires
        event.kind == EventType::FlagsChanged,
        (event.field - code) % 0x1_0000 == 0,
        keymap.key(code) is None,
        keymap.modifier(code) matches Some(changed) && changed.contains(m) && (forall|o: Modifier|
            #[trigger] changed.contains(o) ==> o.group() == m.group()),
    ensures
        ({
            let a = answer(current, event, keymap);
            let down = match m {
                Modifier::CmdLeft | Modifier::CmdRight => event.flags.bits & 0x0010_0000 != 0,
                Modifier::ShiftLeft | Modifier::ShiftRight => event.flags.bits & 0x0002_0000 != 0,
                Modifier::CtrlLeft | Modifier::CtrlRight => event.flags.bits & 0x0004_0000 != 0,
                Modifier::OptLeft | Modifier::OptRight => event.flags.bits & 0x0008_0000 != 0,
                Modifier::Fn => event.flags.bits & 0x0080_0000 != 0,
            };
            &&& a.emit is Some
            &&& a.emit->0.is_key_down <==> down
            &&& a.emit->0.key is None
            &&& a.emit->0.changed_modifier == keymap.modifier(code)
            &&& a.query is Some <==> down
            &&& settled(current, event, keymap).contains(m) <==> down
        }),
{
    keycodes_are_integers_up_to_their_high_bits(event.field, event.field, code);
    let changed = keymap.modifier(code)->0;
    changed_keys_are_down_by_their_own_bit(changed, event.flags);
    assert(forall|o: Modifier| o.group() != m.group() ==> !changed.contains(o));
}

/// A change of any modifier keys is told, and asked for if it is a press, with what is tracked
/// after it; only the changed keys are tracked otherwise than reconciling leaves them, and they are
/// so exactly when they are down. The function key is told by its bit.
pub proof fn modifier_changes_are_told_with_what_is_held(
    current: Set<Modifier>,
    event: TapEvent,
    keymap: Keymap,
    code: u16,
    m: Modifier,
)
    requires
        event.kind == EventType::FlagsChanged,
        (event.field - code) % 0x1_0000 == 0,
        keymap.key(code) is None,
        keymap.modifier(code) is Some,
    ensures
        ({
            let a = answer(current, event, keymap);
            let changed = keymap.modifier(code)->0;
            let down = went_down(changed, event.flags);
            let after = settled(current, event, keymap);
            &&& a.emit is Some
            &&& a.emit->0.is_key_down <==> down
            &&& a.emit->0.key is None
            &&& a.emit->0.changed_modifier == Some(changed)
            &&& a.emit->0.modifiers.contains(m) <==> if m == Modifier::Fn {
                event.flags.bits & 0x0080_0000 != 0
            } else {
                after.contains(m)
            }
            &&& a.query is Some <==> down
            &&& a.query is Some ==> a.query->0.key is None && a.query->0.modifiers
                == a.emit->0.modifiers
            &&& after.contains(m) <==> if changed.contains(m) {
                down
            } else {
                reconciled(current, event.flags).contains(m)
            }
        }),
{
    keycodes_are_integers_up_to_their_high_bits(event.field, event.field, code);
    only_the_function_key_is_reported_by_its_bit(
        settled(current, event, keymap),
        event.flags,
        m,
    );
}

/// A change of flags by a keycode that stands for nothing is not told.
pub proof fn unnamed_changes_are_not_told(
    current: Set<Modifier>,
    event: TapEvent,
    keymap: Keymap,
    code: u16,
)
    requires
        event.kind == EventType::FlagsChanged,
        (event.field - code) % 0x1_0000 == 0,
        keymap.key(code) is None,
        keymap.modifier(code) is None,
    ensures
        answer(current, event, keymap).emit is None,
        answer(current, event, keymap).query is None,
        settled(current, event, keymap) == reconciled(current, event.flags),
{
    keycodes_are_integers_up_to_their_high_bits(event.field, event.field, code);
}

/// A lock key is told and asked for under its name, as down exactly when the lock's bit is set,
/// with what was tracked before but the function key by its bit.
pub proof fn lock_keys_are_told_by_their_bit(
    current: Set<Modifier>,
    event: TapEvent,
    keymap: Keymap,
    code: u16,
    m: Modifier,
)
    requires
        event.kind == EventType::FlagsChanged,
        (event.field - code) % 0x1_0000 == 0,
        keymap.key(code) is Some,
    ensures
        ({
            let a = answer(current, event, keymap);
            &&& a.emit is Some && a.query is Some
            &&& a.emit->0.key == keymap.key(code) && a.query->0.key == keymap.key(code)
            &&& a.emit->0.is_key_down <==> event.flags.bits & 0x0001_0000 != 0
            &&& a.emit->0.changed_modifier is None
            &&& a.emit->0.modifiers.contains(m) <==> if m == Modifier::Fn {
                event.flags.bits & 0x0080_0000 != 0
            } else {
                current.contains(m)
            }
            &&& a.query->0.modifiers == a.emit->0.modifiers
        }),
        settled(current, event, keymap) == reconciled(current, event.flags),
{
    keycodes_are_integers_up_to_their_high_bits(event.field, event.field, code);
    every_group_has_its_own_bit(event.flags);
    only_the_function_key_is_reported_by_its_bit(current, event.flags, m);
}

/// The left and the right button are told exactly when the bit of a modifier group is set, each as
/// itself and as it goes, and they are never asked for.
pub proof fn main_buttons_are_told_with_modifiers(
    current: Set<Modifier>,
    event: TapEvent,
    keymap: Keymap,
)
    requires
        event.kind == EventType::LeftMouseDown || event.kind == EventType::LeftMouseUp
            || event.kind == EventType::RightMouseDown || event.kind == EventType::RightMouseUp,
    ensures
        ({
            let a = answer(current, event, keymap);
            let left = event.kind == EventType::LeftMouseDown || event.kind
                == EventType::LeftMouseUp;
            let down = event.kind == EventType::LeftMouseDown || event.kind
                == EventType::RightMouseDown;
            &&& a.query is None
            &&& a.emit is Some <==> event.flags.bits & 0x009E_0000 != 0
            &&& a.emit is Some ==> {
                &&& a.emit->0.key == Some(
                    if left {
                        Key::MouseLeft
                    } else {
                        Key::MouseRight
                    },
                )
                &&& a.emit->0.is_key_down <==> down
                &&& a.emit->0.changed_modifier is None
                &&& a.emit->0.modifiers == reconciled(current, event.flags)
            }
        }),
        settled(current, event, keymap) == reconciled(current, event.flags),
{
    let bits = event.flags.bits;
    let now = reconciled(current, event.flags);
    every_group_is_reconciled_by_its_own_bit(current, event.flags);
    assert(bits & 0x009E_0000 != 0 <==> (bits & 0x0010_0000 != 0 || bits & 0x0002_0000 != 0 || bits
        & 0x0004_0000 != 0 || bits & 0x0008_0000 != 0 || bits & 0x0080_0000 != 0)) by (bit_vector);
    if bits & 0x009E_0000 == 0 {
        assert(now =~= Set::<Modifier>::empty());
    }
}

/// The other buttons are told exactly when their number is two, three or four, whatever modifiers
/// are held, each as itself and as it goes, and they are never asked for.
pub proof fn other_buttons_are_told_always(
    current: Set<Modifier>,
    event: TapEvent,
    keymap: Keymap,
)
    requires
        event.kind == EventType::OtherMouseDown || event.kind == EventType::OtherMouseUp,
    ensures
        ({
            let a = answer(current, event, keymap);
            &&& a.query is None
            &&& a.emit is Some <==> 2 <= event.field <= 4
            &&& a.emit is Some ==> {
                &&& event.field == 2 ==> a.emit->0.key == Some(Key::MouseMiddle)
                &&& event.field == 3 ==> a.emit->0.key == Some(Key::MouseX1)
                &&& event.field == 4 ==> a.emit->0.key == Some(Key::MouseX2)
                &&& a.emit->0.is_key_down <==> event.kind == EventType::OtherMouseDown
                &&& a.emit->0.changed_modifier is None
                &&& a.emit->0.modifiers == reconciled(current, event.flags)
            }
        }),
        settled(current, event, keymap) == reconciled(current, event.flags),
{
}

/// Of anything that is no input, nothing is told and nothing is asked.
pub proof fn other_events_are_not_told(current: Set<Modifier>, event: TapEvent, keymap: Keymap)
    requires
        event.kind == EventType::Other || event.kind == EventType::TapDisabledByTimeout
            || event.kind == EventType::TapDisabledByUserInput,
    ensures
        answer(current, event, keymap).emit is None,
        answer(current, event, keymap).query is None,
        settled(current, event, keymap) == reconciled(current, event.flags),
{
}

/// A call of `handle_event` for a key: what comes back names the key of the keycode's row, as down
/// exactly when it went down, and asks for it together with the modifier keys told.
pub proof fn a_call_tells_a_key(
    state: &mut ListenerState,
    event: TapEvent,
    keymap: &Keymap,
    decision: Decision,
    code: u16,
)
    requires
        call_ensures(ListenerState::handle_event, (state, event, keymap), decision),
        event.kind == EventType::KeyDown || event.kind == EventType::KeyUp,
        (event.field - code) % 0x1_0000 == 0,
    ensures
        decision.emit is Some <==> keymap.key(code) is Some,
        decision.query is Some <==> keymap.key(code) is Some,
        decision.emit is Some ==> {
            &&& decision.emit->0.key == keymap.key(code)
            &&& decision.emit->0.is_key_down <==> event.kind == EventType::KeyDown
            &&& decision.emit->0.changed_modifier is None
            &&& decision.emit->0.modifiers@ == final(state).current_modifiers@
            &&& decision.query->0.key == keymap.key(code)
            &&& decision.query->0.modifiers@ == final(state).current_modifiers@
        },
        final(state).current_modifiers@ == reconciled(old(state).current_modifiers@, event.flags),
{
    keys_are_told_as_they_go(old(state).current_modifiers@, event, *keymap, code);
}

/// A call of `handle_event` for modifier keys of one group: they are told as the keycode's row, as
/// down exactly when the group's own bit is set, and asked for on a press only.
pub proof fn a_call_tells_a_modifier_change(
    state: &mut ListenerState,
    event: TapEvent,
    keymap: &Keymap,
    decision: Decision,
    code: u16,
    m: Modifier,
)
    requires
        call_ensures(ListenerState::handle_event, (state, event, keymap), decision),
        event.kind == EventType::FlagsChanged,
        (event.field - code) % 0x1_0000 == 0,
        keymap.key(code) is None,
        keymap.modifier(code) matches Some(changed) && changed.contains(m) && (forall|o: Modifier|
            #[trigger] changed.contains(o) ==> o.group() == m.group()),
    ensures
        ({
            let down = match m {
                Modifier::CmdLeft | Modifier::CmdRight => event.flags.bits & 0x0010_0000 != 0,
                Modifier::ShiftLeft | Modifier::ShiftRight => event.flags.bits & 0x0002_0000 != 0,
                Modifier::CtrlLeft | Modifier::CtrlRight => event.flags.bits & 0x0004_0000 != 0,
                Modifier::OptLeft | Modifier::OptRight => event.flags.bits & 0x0008_0000 != 0,
                Modifier::Fn => event.flags.bits & 0x0080_0000 != 0,
            };
            &&& decision.emit is Some
            &&& decision.emit->0.is_key_down <==> down
            &&& decision.emit->0.key is None
            &&& decision.emit->0.changed_modifier is Some
            &&& decision.emit->0.changed_modifier->0@ == keymap.modifier(code)->0
            &&& decision.query is Some <==> down
            &&& decision.query is Some ==> decision.query->0.key is None
                && decision.query->0.modifiers@ == decision.emit->0.modifiers@
            &&& final(state).current_modifiers@.contains(m) <==> down
        }),
        forall|o: Modifier|
            o != Modifier::Fn ==> (#[trigger] decision.emit->0.modifiers@.contains(o)
                <==> final(state).current_modifiers@.contains(o)),
        decision.emit->0.modifiers@.contains(Modifier::Fn) <==> event.flags.bits & 0x0080_0000 != 0,
        forall|o: Modifier|
            o.group() != m.group() ==> (#[trigger] final(state).current_modifiers@.contains(o)
                <==> reconciled(old(state).current_modifiers@, event.flags).contains(o)),
{
    let current = old(state).current_modifiers@;
    modifier_changes_are_told_by_their_own_bit(current, event, *keymap, code, m);
    modifier_changes_are_told_with_what_is_held(current, event, *keymap, code, Modifier::Fn);
    assert forall|o: Modifier| o != Modifier::Fn implies (
    #[trigger] decision.emit->0.modifiers@.contains(o) <==> final(state).current_modifiers@.contains(o)) by {
        modifier_changes_are_told_with_what_is_held(current, event, *keymap, code, o);
    }
    assert forall|o: Modifier| o.group() != m.group() implies (#[trigger] final(state).current_modifiers@.contains(o) <==> reconciled(current, event.flags).contains(o)) by {
        modifier_changes_are_told_with_what_is_held(current, event, *keymap, code, o);
    }
}

/// A call of `handle_event` for a lock key: it is told and asked for under the name in its row, as
/// down exactly when the lock's bit is set, with what was tracked before.
pub proof fn a_call_tells_a_lock_key(
    state: &mut ListenerState,
    event: TapEvent,
    keymap: &Keymap,
    decision: Decision,
    code: u16,
)
    requires
        call_ensures(ListenerState::handle_event, (state, event, keymap), decision),
        event.kind == EventType::FlagsChanged,
        (event.field - code) % 0x1_0000 == 0,
        keymap.key(code) is Some,
    ensures
        decision.emit is Some && decision.query is Some,
        decision.emit->0.key == keymap.key(code),
        decision.query->0.key == keymap.key(code),
        decision.emit->0.is_key_down <==> event.flags.bits & 0x0001_0000 != 0,
        decision.emit->0.changed_modifier is None,
        decision.query->0.modifiers@ == decision.emit->0.modifiers@,
        forall|o: Modifier|
            o != Modifier::Fn ==> (#[trigger] decision.emit->0.modifiers@.contains(o) <==> old(state).current_modifiers@.contains(o)),
        decision.emit->0.modifiers@.contains(Modifier::Fn) <==> event.flags.bits & 0x0080_0000 != 0,
        final(state).current_modifiers@ == reconciled(old(state).current_modifiers@, event.flags),
{
    let current = old(state).current_modifiers@;
    lock_keys_are_told_by_their_bit(current, event, *keymap, code, Modifier::Fn);
    assert forall|o: Modifier| o != Modifier::Fn implies (
    #[trigger] decision.emit->0.modifiers@.contains(o) <==> current.contains(o)) by {
        lock_keys_are_told_by_their_bit(current, event, *keymap, code, o);
    }
}

/// A call of `handle_event` for the left or the right button: it is told exactly when a modifier
/// group's bit is set, with what is then tracked, and never asked for.
pub proof fn a_call_tells_a_main_button(
    state: &mut ListenerState,
    event: TapEvent,
    keymap: &Keymap,
    decision: Decision,
)
    requires
        call_ensures(ListenerState::handle_event, (state, event, keymap), decision),
        event.kind == EventType::LeftMouseDown || event.kind == EventType::LeftMouseUp
            || event.kind == EventType::RightMouseDown || event.kind == EventType::RightMouseUp,
    ensures
        decision.query is None,
        decision.emit is Some <==> event.flags.bits & 0x009E_0000 != 0,
        decision.emit is Some ==> {
            &&& decision.emit->0.key == Some(Key::MouseLeft) <==> (event.kind
                == EventType::LeftMouseDown || event.kind == EventType::LeftMouseUp)
            &&& decision.emit->0.key == Some(Key::MouseRight) <==> (event.kind
                == EventType::RightMouseDown || event.kind == EventType::RightMouseUp)
            &&& decision.emit->0.is_key_down <==> (event.kind == EventType::LeftMouseDown
                || event.kind == EventType::RightMouseDown)
            &&& decision.emit->0.changed_modifier is None
            &&& decision.emit->0.modifiers@ == final(state).current_modifiers@
        },
        final(state).current_modifiers@ == reconciled(old(state).current_modifiers@, event.flags),
{
    main_buttons_are_told_with_modifiers(old(state).current_modifiers@, event, *keymap);
}

/// A call of `handle_event` for another button: it is told exactly when its number is two, three or
/// four, whatever modifiers are held, and never asked for.
pub proof fn a_call_tells_another_button(
    state: &mut ListenerState,
    event: TapEvent,
    keymap: &Keymap,
    decision: Decision,
)
    requires
        call_ensures(ListenerState::handle_event, (state, event, keymap), decision),
        event.kind == EventType::OtherMouseDown || event.kind == EventType::OtherMouseUp,
    ensures
        decision.query is None,
        decision.emit is Some <==> 2 <= event.field <= 4,
        decision.emit is Some ==> {
            &&& decision.emit->0.key == Some(Key::MouseMiddle) <==> event.field == 2
            &&& decision.emit->0.key == Some(Key::MouseX1) <==> event.field == 3
            &&& decision.emit->0.key == Some(Key::MouseX2) <==> event.field == 4
            &&& decision.emit->0.is_key_down <==> event.kind == EventType::OtherMouseDown
            &&& decision.emit->0.changed_modifier is None
            &&& decision.emit->0.modifiers@ == final(state).current_modifiers@
        },
        final(state).current_modifiers@ == reconciled(old(state).current_modifiers@, event.flags),
{
    other_buttons_are_told_always(old(state).current_modifiers@, event, *keymap);
}

/// A call of `handle_event` for what is no input, or for a change of flags by a keycode without a
/// row, only reconciles.
pub proof fn a_call_is_silent_on_the_rest(
    state: &mut ListenerState,
    event: TapEvent,
    keymap: &Keymap,
    decision: Decision,
    code: u16,
)
    requires
        call_ensures(ListenerState::handle_event, (state, event, keymap), decision),
        (event.field - code) % 0x1_0000 == 0,
        event.kind == EventType::Other || event.kind == EventType::TapDisabledByTimeout
            || event.kind == EventType::TapDisabledByUserInput || (event.kind
            == EventType::FlagsChanged && keymap.key(code) is None && keymap.modifier(
            code,
        ) is None),
    ensures
        decision.emit is None,
        decision.query is None,
        final(state).current_modifiers@ == reconciled(old(state).current_modifiers@, event.flags),
{
    let current = old(state).current_modifiers@;
    if event.kind == EventType::FlagsChanged {
        unnamed_changes_are_not_told(current, event, *keymap, code);
    } else {
        other_events_are_not_told(current, event, *keymap);
    }
}

} // verus!
