//! The kinds of events that reach an event tap.

use vstd::prelude::*;

verus! {

/// The kind of an event.
#[derive(Clone, Copy, Debug, PartialEq, Eq, Structural)]
pub enum EventType {
    LeftMouseDown,
    LeftMouseUp,
    RightMouseDown,
    RightMouseUp,
    KeyDown,
    KeyUp,
    FlagsChanged,
    OtherMouseDown,
    OtherMouseUp,
    /// Not an input: the tap was turned off because it was slow.
    TapDisabledByTimeout,
    /// Not an input: the tap was turned off by the user's own input.
    TapDisabledByUserInput,
    /// Anything that the listener takes no part in.
    Other,
}

/// An integer that an event carries.
#[derive(Clone, Copy, Debug, PartialEq, Eq, Structural)]
pub enum EventField {
    KeyboardKeycode,
    MouseButtonNumber,
}

pub const LEFT_MOUSE_DOWN: u32 = 1;

pub const LEFT_MOUSE_UP: u32 = 2;

pub const RIGHT_MOUSE_DOWN: u32 = 3;

pub const RIGHT_MOUSE_UP: u32 = 4;

pub const KEY_DOWN: u32 = 10;

pub const KEY_UP: u32 = 11;

pub const FLAGS_CHANGED: u32 = 12;

pub const OTHER_MOUSE_DOWN: u32 = 25;

pub const OTHER_MOUSE_UP: u32 = 26;

pub const TAP_DISABLED_BY_TIMEOUT: u32 = 0xFFFF_FFFE;

pub const TAP_DISABLED_BY_USER_INPUT: u32 = 0xFFFF_FFFF;

/// The kind that the window server means by a number.
pub open spec fn event_type(code: u32) -> EventType {
    if code == LEFT_MOUSE_DOWN {
        EventType::LeftMouseDown
    } else if code == LEFT_MOUSE_UP {
        EventType::LeftMouseUp
    } else if code == RIGHT_MOUSE_DOWN {
        EventType::RightMouseDown
    } else if code == RIGHT_MOUSE_UP {
        EventType::RightMouseUp
    } else if code == KEY_DOWN {
        EventType::KeyDown
    } else if code == KEY_UP {
        EventType::KeyUp
    } else if code == FLAGS_CHANGED {
        EventType::FlagsChanged
    } else if code == OTHER_MOUSE_DOWN {
        EventType::OtherMouseDown
    } else if code == OTHER_MOUSE_UP {
        EventType::OtherMouseUp
    } else if code == TAP_DISABLED_BY_TIMEOUT {
        EventType::TapDisabledByTimeout
    } else if code == TAP_DISABLED_BY_USER_INPUT {
        EventType::TapDisabledByUserInput
    } else {
        EventType::Other
    }
}

impl EventType {
    /// The notice that the tap was turned off.
    pub open spec fn is_tap_disabled(self) -> bool {
        self == EventType::TapDisabledByTimeout || self == EventType::TapDisabledByUserInput
    }

    /// An input of the keyboard or of a mouse button.
    pub open spec fn is_input(self) -> bool {
        !self.is_tap_disabled() && self != EventType::Other
    }

    /// The kind of an event by its number.
    pub fn from_code(code: u32) -> (r: EventType)
        ensures
            r == event_type(code),
    {
        match code {
            LEFT_MOUSE_DOWN => EventType::LeftMouseDown,
            LEFT_MOUSE_UP => EventType::LeftMouseUp,
            RIGHT_MOUSE_DOWN => EventType::RightMouseDown,
            RIGHT_MOUSE_UP => EventType::RightMouseUp,
            KEY_DOWN => EventType::KeyDown,
            KEY_UP => EventType::KeyUp,
            FLAGS_CHANGED => EventType::FlagsChanged,
            OTHER_MOUSE_DOWN => EventType::OtherMouseDown,
            OTHER_MOUSE_UP => EventType::OtherMouseUp,
            TAP_DISABLED_BY_TIMEOUT => EventType::TapDisabledByTimeout,
            TAP_DISABLED_BY_USER_INPUT => EventType::TapDisabledByUserInput,
            _ => EventType::Other,
        }
    }

    /// The integer of an event of this kind that the listener reads.
    pub fn field(self) -> (r: Option<EventField>)
        ensures
            r == match self {
                EventType::KeyDown | EventType::KeyUp | EventType::FlagsChanged => Some(
                    EventField::KeyboardKeycode,
                ),
                EventType::OtherMouseDown | EventType::OtherMouseUp => Some(
                    EventField::MouseButtonNumber,
                ),
                _ => None,
            },
    {
        match self {
            EventType::KeyDown | EventType::KeyUp | EventType::FlagsChanged => Some(
                EventField::KeyboardKeycode,
            ),
            EventType::OtherMouseDown | EventType::OtherMouseUp => Some(
                EventField::MouseButtonNumber,
            ),
            _ => None,
        }
    }
}

/// The kinds of events that the tap asks for, as one bit for each number.
pub fn event_mask() -> (mask: u64)
    ensures
        forall|code: u32|
            code < 64 ==> (mask & (1u64 << code) != 0) == (#[trigger] event_type(code)).is_input(),
{
    let mask: u64 = (1u64 << KEY_DOWN) | (1u64 << KEY_UP) | (1u64 << FLAGS_CHANGED) | (1u64
        << LEFT_MOUSE_DOWN) | (1u64 << LEFT_MOUSE_UP) | (1u64 << RIGHT_MOUSE_DOWN) | (1u64
        << RIGHT_MOUSE_UP) | (1u64 << OTHER_MOUSE_DOWN) | (1u64 << OTHER_MOUSE_UP);
    proof {
        assert forall|code: u32| code < 64 implies (mask & (1u64 << code) != 0) == (
        #[trigger] event_type(code)).is_input() by {
            assert((((1u64 << 10u32) | (1u64 << 11u32) | (1u64 << 12u32) | (1u64 << 1u32) | (1u64
                << 2u32) | (1u64 << 3u32) | (1u64 << 4u32) | (1u64 << 25u32) | (1u64 << 26u32))
                & (1u64 << code) != 0) == (code == 10 || code == 11 || code == 12 || code == 1
                || code == 2 || code == 3 || code == 4 || code == 25 || code == 26))
                by (bit_vector)
                requires
                    code < 64,
            ;
        }
    }
    mask
}

/// Every kind has its own number, and every other number means a kind that the listener takes no
/// part in.
pub proof fn every_kind_has_its_own_number(code: u32)
    ensures
        event_type(code) == EventType::LeftMouseDown <==> code == 1,
        event_type(code) == EventType::LeftMouseUp <==> code == 2,
        event_type(code) == EventType::RightMouseDown <==> code == 3,
        event_type(code) == EventType::RightMouseUp <==> code == 4,
        event_type(code) == EventType::KeyDown <==> code == 10,
        event_type(code) == EventType::KeyUp <==> code == 11,
        event_type(code) == EventType::FlagsChanged <==> code == 12,
        event_type(code) == EventType::OtherMouseDown <==> code == 25,
        event_type(code) == EventType::OtherMouseUp <==> code == 26,
        event_type(code) == EventType::TapDisabledByTimeout <==> code == 0xFFFF_FFFE,
        event_type(code) == EventType::TapDisabledByUserInput <==> code == 0xFFFF_FFFF,
        event_type(code).is_tap_disabled() <==> code >= 0xFFFF_FFFE,
        event_type(code).is_input() <==> (1 <= code <= 4 || 10 <= code <= 12 || 25 <= code <= 26),
{
}

/// `from_code` tells two different numbers apart exactly when one of them is a kind's own.
pub proof fn numbers_are_told_apart(a: u32, b: u32, of_a: EventType, of_b: EventType)
    requires
        call_ensures(EventType::from_code, (a,), of_a),
        call_ensures(EventType::from_code, (b,), of_b),
    ensures
        of_a == event_type(a),
        of_a == of_b <==> (a == b || (of_a == EventType::Other && of_b == EventType::Other)),
{
}

/// The tap asks for the nine kinds of keyboard and button events and for no other.
pub proof fn mask_has_one_bit_for_each_input(mask: u64, code: u32)
    requires
        call_ensures(event_mask, (), mask),
        code < 64,
    ensures
        mask & (1u64 << code) != 0 <==> (1 <= code <= 4 || 10 <= code <= 12 || 25 <= code <= 26),
{
    every_kind_has_its_own_number(code);
}

/// A keycode is read of the keyboard's events, a button number of those of the buttons that have
/// no event of their own, and nothing of any other.
pub proof fn fields_are_those_of_the_kind(code: u32, kind: EventType, field: Option<EventField>)
    requires
        call_ensures(EventType::from_code, (code,), kind),
        call_ensures(EventType::field, (kind,), field),
    ensures
        field == Some(EventField::KeyboardKeycode) <==> 10 <= code <= 12,
        field == Some(EventField::MouseButtonNumber) <==> 25 <= code <= 26,
{
    every_kind_has_its_own_number(code);
}

} // verus!
