//! What the listener does with an event: what it tracks, reports and blocks.

use crate::event::EventType;
use crate::flags::{flags_have_alpha_shift, EventFlags, MASK_ALPHA_SHIFT};
use crate::keymap::{Key, Keymap};
use crate::modifiers::{Group, Modifier, Modifiers};
use crate::reconcile::{
    reconcile_modifiers, reconciled, reconciled_keys_are_reported_unchanged, reported,
    reported_modifiers,
};
use vstd::prelude::*;

verus! {

/// What the listener tells its user of one event.
#[derive(Clone, Copy, Debug, PartialEq, Eq)]
pub struct KeyEvent {
    /// The modifier keys held.
    pub modifiers: Modifiers,
    /// The key or button, unless the event is about a modifier key alone.
    pub key: Option<Key>,
    pub is_key_down: bool,
    /// The modifier key that went down or up, where the event is about one.
    pub changed_modifier: Option<Modifiers>,
}

/// A combination of keys that may be one that other applications must not see.
#[derive(Clone, Copy, Debug, PartialEq, Eq)]
pub struct Hotkey {
    pub modifiers: Modifiers,
    pub key: Option<Key>,
}

/// What is to be done with an event.
#[derive(Clone, Copy, Debug, PartialEq, Eq)]
pub struct Decision {
    /// The event is blocked if this is a blocking hotkey.
    pub query: Option<Hotkey>,
    /// What the user is told.
    pub emit: Option<KeyEvent>,
}

/// A `KeyEvent`, with its modifier keys as sets.
pub struct KeyReport {
    pub modifiers: Set<Modifier>,
    pub key: Option<Key>,
    pub is_key_down: bool,
    pub changed_modifier: Option<Set<Modifier>>,
}

/// A `Hotkey`, with its modifier keys as a set.
pub struct Combination {
    pub modifiers: Set<Modifier>,
    pub key: Option<Key>,
}

/// A `Decision`, with its modifier keys as sets.
pub struct Answer {
    pub query: Option<Combination>,
    pub emit: Option<KeyReport>,
}

impl View for KeyEvent {
    type V = KeyReport;

    open spec fn view(&self) -> KeyReport {
        KeyReport {
            modifiers: self.modifiers@,
            key: self.key,
            is_key_down: self.is_key_down,
            changed_modifier: match self.changed_modifier {
                Some(m) => Some(m@),
                None => None,
            },
        }
    }
}

impl View for Hotkey {
    type V = Combination;

    open spec fn view(&self) -> Combination {
        Combination { modifiers: self.modifiers@, key: self.key }
    }
}

impl View for Decision {
    type V = Answer;

    open spec fn view(&self) -> Answer {
        Answer {
            query: match self.query {
                Some(q) => Some(q@),
                None => None,
            },
            emit: match self.emit {
                Some(e) => Some(e@),
                None => None,
            },
        }
    }
}

/// The low sixteen bits of an event's integer, as a number.
pub open spec fn keycode(field: i64) -> u16 {
    (field as int % 0x1_0000) as u16
}

/// The keycode in an event's integer.
pub fn keycode_of(field: i64) -> (r: u16)
    ensures
        r == keycode(field),
{
    proof {
        assert(field as u16 == field as u64 % 0x1_0000) by (bit_vector);
        assert(field as u64 == if field < 0 {
            field + 0x1_0000_0000_0000_0000
        } else {
            field as int
        }) by (bit_vector);
    }
    #[verifier::truncate]
    let r: u16 = field as u16;
    r
}

/// The button that a mouse with more than two calls by a number.
pub open spec fn button(number: i64) -> Option<Key> {
    if number == 2 {
        Some(Key::MouseMiddle)
    } else if number == 3 {
        Some(Key::MouseX1)
    } else if number == 4 {
        Some(Key::MouseX2)
    } else {
        None
    }
}

/// The button that a mouse with more than two calls by a number.
pub fn button_key(number: i64) -> (r: Option<Key>)
    ensures
        r == button(number),
{
    match number {
        2 => Some(Key::MouseMiddle),
        3 => Some(Key::MouseX1),
        4 => Some(Key::MouseX2),
        _ => None,
    }
}

/// The group that decides whether the changed keys went down: the first that they have a key of.
pub open spec fn deciding_group(changed: Set<Modifier>) -> Option<Group> {
    if !changed.disjoint(Group::Cmd.members()) {
        Some(Group::Cmd)
    } else if !changed.disjoint(Group::Shift.members()) {
        Some(Group::Shift)
    } else if !changed.disjoint(Group::Ctrl.members()) {
        Some(Group::Ctrl)
    } else if !changed.disjoint(Group::Opt.members()) {
        Some(Group::Opt)
    } else if !changed.disjoint(Group::Fn.members()) {
        Some(Group::Fn)
    } else {
        None
    }
}

/// The changed keys are down: the flags hold the group that decides.
pub open spec fn went_down(changed: Set<Modifier>, flags: EventFlags) -> bool {
    match deciding_group(changed) {
        Some(group) => flags.held(group),
        None => false,
    }
}

/// Whether the changed modifier keys went down or up.
///
/// The flags do not tell the sides of a group apart. While one side stays held, the release of the
/// other reads as a press.
pub fn is_pressed(changed: Modifiers, flags: EventFlags) -> (r: bool)
    ensures
        r == went_down(changed@, flags),
{
    if changed.intersects(Modifiers::of_group(Group::Cmd)) {
        flags.holds_group(Group::Cmd)
    } else if changed.intersects(Modifiers::of_group(Group::Shift)) {
        flags.holds_group(Group::Shift)
    } else if changed.intersects(Modifiers::of_group(Group::Ctrl)) {
        flags.holds_group(Group::Ctrl)
    } else if changed.intersects(Modifiers::of_group(Group::Opt)) {
        flags.holds_group(Group::Opt)
    } else if changed.intersects(Modifiers::of_group(Group::Fn)) {
        flags.holds_group(Group::Fn)
    } else {
        false
    }
}

/// An input event as the tap delivers it.
#[derive(Clone, Copy, Debug, PartialEq, Eq, Structural)]
pub struct TapEvent {
    pub kind: EventType,
    pub flags: EventFlags,
    /// The integer that `EventType::field` names; of no meaning where it names none.
    pub field: i64,
}

/// The modifier keys that an event is about: those of its keycode, unless that is a lock key.
pub open spec fn changed_modifier(event: TapEvent, keymap: Keymap) -> Option<Set<Modifier>> {
    if event.kind == EventType::FlagsChanged && keymap.key(keycode(event.field)) is None {
        keymap.modifier(keycode(event.field))
    } else {
        None
    }
}

/// The keys tracked after an event: those that its flags leave, and with or without the modifier
/// keys that the event is about.
pub open spec fn settled(current: Set<Modifier>, event: TapEvent, keymap: Keymap) -> Set<Modifier> {
    let now = reconciled(current, event.flags);
    match changed_modifier(event, keymap) {
        Some(changed) => if went_down(changed, event.flags) {
            now.union(changed)
        } else {
            now.difference(changed)
        },
        None => now,
    }
}

/// Neither a hotkey nor anything to tell.
pub open spec fn silence() -> Answer {
    Answer { query: None, emit: None }
}

/// Something to tell of a key, without a hotkey.
pub open spec fn tell(modifiers: Set<Modifier>, key: Key, is_key_down: bool) -> Answer {
    Answer {
        query: None,
        emit: Some(
            KeyReport { modifiers, key: Some(key), is_key_down, changed_modifier: None },
        ),
    }
}

/// Something to tell of a key that may be part of a hotkey.
pub open spec fn ask_and_tell(modifiers: Set<Modifier>, key: Key, is_key_down: bool) -> Answer {
    Answer {
        query: Some(Combination { modifiers, key: Some(key) }),
        ..tell(modifiers, key, is_key_down)
    }
}

/// What is to be done with an event that comes when `current` is tracked.
pub open spec fn answer(current: Set<Modifier>, event: TapEvent, keymap: Keymap) -> Answer {
    let now = reconciled(current, event.flags);
    match event.kind {
        EventType::KeyDown | EventType::KeyUp => match keymap.key(keycode(event.field)) {
            Some(key) => ask_and_tell(now, key, event.kind == EventType::KeyDown),
            None => silence(),
        },
        EventType::FlagsChanged => match (
            keymap.key(keycode(event.field)),
            changed_modifier(event, keymap),
        ) {
            (Some(key), _) => ask_and_tell(
                reported(current, event.flags),
                key,
                event.flags.has(MASK_ALPHA_SHIFT),
            ),
            (None, Some(changed)) => {
                let modifiers = reported(settled(current, event, keymap), event.flags);
                let is_key_down = went_down(changed, event.flags);
                Answer {
                    query: if is_key_down {
                        Some(Combination { modifiers, key: None })
                    } else {
                        None
                    },
                    emit: Some(
                        KeyReport {
                            modifiers,
                            key: None,
                            is_key_down,
                            changed_modifier: Some(changed),
                        },
                    ),
                }
            },
            (None, None) => silence(),
        },
        EventType::LeftMouseDown | EventType::LeftMouseUp => if now == Set::<Modifier>::empty() {
            silence()
        } else {
            tell(now, Key::MouseLeft, event.kind == EventType::LeftMouseDown)
        },
        EventType::RightMouseDown | EventType::RightMouseUp => if now == Set::<
            Modifier,
        >::empty() {
            silence()
        } else {
            tell(now, Key::MouseRight, event.kind == EventType::RightMouseDown)
        },
        EventType::OtherMouseDown | EventType::OtherMouseUp => match button(event.field) {
            Some(key) => tell(now, key, event.kind == EventType::OtherMouseDown),
            None => silence(),
        },
        EventType::TapDisabledByTimeout | EventType::TapDisabledByUserInput | EventType::Other =>
        silence(),
    }
}

impl Decision {
    /// Neither a hotkey nor anything to tell.
    fn silent() -> (r: Decision)
        ensures
            r@ == silence(),
    {
        Decision { query: None, emit: None }
    }

    /// Something to tell of a key, without a hotkey.
    fn telling(modifiers: Modifiers, key: Key, is_key_down: bool) -> (r: Decision)
        ensures
            r@ == tell(modifiers@, key, is_key_down),
    {
        Decision {
            query: None,
            emit: Some(
                KeyEvent { modifiers, key: Some(key), is_key_down, changed_modifier: None },
            ),
        }
    }

    /// Something to tell of a key that may be part of a hotkey.
    fn asking(modifiers: Modifiers, key: Key, is_key_down: bool) -> (r: Decision)
        ensures
            r@ == ask_and_tell(modifiers@, key, is_key_down),
    {
        Decision {
            query: Some(Hotkey { modifiers, key: Some(key) }),
            emit: Some(
                KeyEvent { modifiers, key: Some(key), is_key_down, changed_modifier: None },
            ),
        }
    }
}

/// What the listener keeps from one event to the next.
#[derive(Clone, Copy, Debug, PartialEq, Eq)]
pub struct ListenerState {
    /// The modifier keys taken to be held.
    pub current_modifiers: Modifiers,
}

impl ListenerState {
    /// A listener that has seen no event.
    pub fn new() -> (r: ListenerState)
        ensures
            r.current_modifiers@ == Set::<Modifier>::empty(),
    {
        ListenerState { current_modifiers: Modifiers::empty() }
    }

    /// Takes an input event in and says what is to be done with it.
    pub fn handle_event(&mut self, event: TapEvent, keymap: &Keymap) -> (decision: Decision)
        ensures
            final(self).current_modifiers@ == settled(
                old(self).current_modifiers@,
                event,
                *keymap,
            ),
            decision@ == answer(old(self).current_modifiers@, event, *keymap),
    {
        let before = reported_modifiers(self.current_modifiers, event.flags);
        reconcile_modifiers(&mut self.current_modifiers, event.flags);
        proof {
            reconciled_keys_are_reported_unchanged(old(self).current_modifiers@, event.flags);
        }
        let modifiers = self.current_modifiers;
        match event.kind {
            EventType::KeyDown | EventType::KeyUp => {
                // A keycode without a name tells nothing: the keys that do special things.
                match keymap.keycode_to_key(keycode_of(event.field)) {
                    Some(key) => Decision::asking(modifiers, key, event.kind == EventType::KeyDown),
                    None => Decision::silent(),
                }
            },
            EventType::FlagsChanged => {
                let code: u16 = keycode_of(event.field);
                match keymap.keycode_to_key(code) {
                    // A lock key changes flags, but it is not held.
                    Some(key) => Decision::asking(
                        before,
                        key,
                        flags_have_alpha_shift(event.flags),
                    ),
                    None => match keymap.keycode_to_modifier(code) {
                        Some(changed) => self.change_modifier(changed, event.flags),
                        // What is reported of the function key is read off the flags, so without
                        // a row of its own it shows no change.
                        None => Decision::silent(),
                    },
                }
            },
            // A plain click is not worth telling.
            EventType::LeftMouseDown | EventType::LeftMouseUp => if modifiers.is_empty() {
                Decision::silent()
            } else {
                Decision::telling(
                    modifiers,
                    Key::MouseLeft,
                    event.kind == EventType::LeftMouseDown,
                )
            },
            EventType::RightMouseDown | EventType::RightMouseUp => if modifiers.is_empty() {
                Decision::silent()
            } else {
                Decision::telling(
                    modifiers,
                    Key::MouseRight,
                    event.kind == EventType::RightMouseDown,
                )
            },
            EventType::OtherMouseDown | EventType::OtherMouseUp => match button_key(event.field) {
                Some(key) => Decision::telling(
                    modifiers,
                    key,
                    event.kind == EventType::OtherMouseDown,
                ),
                None => Decision::silent(),
            },
            EventType::TapDisabledByTimeout
            | EventType::TapDisabledByUserInput
            | EventType::Other => Decision::silent(),
        }
    }

    /// Takes the press or release of modifier keys in.
    ///
    /// Whether the keys are down is read off the flags and not off what was tracked, so that one
    /// missed event does not turn the following ones round.
    fn change_modifier(&mut self, changed: Modifiers, flags: EventFlags) -> (decision: Decision)
        ensures
            final(self).current_modifiers@ == if went_down(changed@, flags) {
                old(self).current_modifiers@.union(changed@)
            } else {
                old(self).current_modifiers@.difference(changed@)
            },
            decision@ == (Answer {
                query: if went_down(changed@, flags) {
                    Some(
                        Combination {
                            modifiers: reported(final(self).current_modifiers@, flags),
                            key: None,
                        },
                    )
                } else {
                    None
                },
                emit: Some(
                    KeyReport {
                        modifiers: reported(final(self).current_modifiers@, flags),
                        key: None,
                        is_key_down: went_down(changed@, flags),
                        changed_modifier: Some(changed@),
                    },
                ),
            }),
    {
        let is_key_down = is_pressed(changed, flags);
        if is_key_down {
            self.current_modifiers.insert(changed);
        } else {
            self.current_modifiers.remove(changed);
        }
        let modifiers = reported_modifiers(self.current_modifiers, flags);
        // A hotkey of modifier keys alone is one when it goes down.
        let query = if is_key_down {
            Some(Hotkey { modifiers, key: None })
        } else {
            None
        };
        Decision {
            query,
            emit: Some(
                KeyEvent { modifiers, key: None, is_key_down, changed_modifier: Some(changed) },
            ),
        }
    }
}

} // verus!
