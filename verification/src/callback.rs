//! What the tap's callback does with whatever it is handed, and what holds of it.

use crate::event::{event_type, every_kind_has_its_own_number, EventType};
use crate::flags::EventFlags;
use crate::keymap::Keymap;
use crate::listener::{answer, settled, silence, Answer, Decision, ListenerState, TapEvent};
use crate::modifiers::{Modifier, Modifiers};
use crate::reconcile::{reconcile_modifiers, reconciled};
use crate::telling::{
    keys_are_told_as_they_go, lock_keys_are_told_by_their_bit,
    modifier_changes_are_told_by_their_own_bit,
};
use vstd::prelude::*;

verus! {

/// The way that an event takes through the callback. It is settled before the listener's state is
/// locked, so that a tap comes back on whatever has become of the lock.
#[derive(Clone, Copy, Debug, PartialEq, Eq, Structural)]
pub enum Route {
    /// The tap was turned off. Turn it on again first, if `reenable_tap`; then let the state take
    /// the flags of the session in.
    Recover { reenable_tap: bool },
    /// An event of that kind: let the state take it in, with the event's own flags.
    Deliver(EventType),
}

/// What becomes of an event for other applications.
#[derive(Clone, Copy, Debug, PartialEq, Eq, Structural)]
pub enum Verdict {
    Pass,
    Block,
}

/// The way of an event, by its number and by whether the callback has been given the tap.
pub open spec fn routed(code: u32, tap_known: bool) -> Route {
    if event_type(code).is_tap_disabled() {
        Route::Recover { reenable_tap: tap_known }
    } else {
        Route::Deliver(event_type(code))
    }
}

/// The way of an event, by its number and by whether the callback has been given the tap.
pub fn route(code: u32, tap_known: bool) -> (r: Route)
    ensures
        r == routed(code, tap_known),
{
    match EventType::from_code(code) {
        EventType::TapDisabledByTimeout | EventType::TapDisabledByUserInput => Route::Recover {
            reenable_tap: tap_known,
        },
        kind => Route::Deliver(kind),
    }
}

/// The keys tracked after an event has gone its way.
pub open spec fn tracked_after(
    current: Set<Modifier>,
    route: Route,
    flags: EventFlags,
    field: i64,
    keymap: Keymap,
) -> Set<Modifier> {
    match route {
        Route::Recover { .. } => reconciled(current, flags),
        Route::Deliver(kind) => settled(current, TapEvent { kind, flags, field }, keymap),
    }
}

/// What is to be done with an event on its way.
pub open spec fn response(
    current: Set<Modifier>,
    route: Route,
    flags: EventFlags,
    field: i64,
    keymap: Keymap,
) -> Answer {
    match route {
        Route::Recover { .. } => silence(),
        Route::Deliver(kind) => answer(current, TapEvent { kind, flags, field }, keymap),
    }
}

/// An event is blocked exactly when a hotkey was asked for and it is a blocking one.
pub open spec fn judged(answer: Option<Answer>, is_blocking: bool) -> Verdict {
    match answer {
        Some(a) => if a.query is Some && is_blocking {
            Verdict::Block
        } else {
            Verdict::Pass
        },
        None => Verdict::Pass,
    }
}

impl ListenerState {
    /// Takes an event in on its way: `flags` are those of the session where the tap is recovered,
    /// and the event's own otherwise.
    pub fn respond(&mut self, route: Route, flags: EventFlags, field: i64, keymap: &Keymap) -> (r:
        Decision)
        ensures
            final(self).current_modifiers@ == tracked_after(
                old(self).current_modifiers@,
                route,
                flags,
                field,
                *keymap,
            ),
            r@ == response(old(self).current_modifiers@, route, flags, field, *keymap),
    {
        match route {
            Route::Recover { .. } => {
                // Events may have been missed while the tap was off.
                reconcile_modifiers(&mut self.current_modifiers, flags);
                Decision { query: None, emit: None }
            },
            Route::Deliver(kind) => self.handle_event(TapEvent { kind, flags, field }, keymap),
        }
    }
}

/// What becomes of an event. There is no decision where the state could not be locked, and
/// `is_blocking` counts only where the decision asks for it.
pub fn verdict(decision: Option<Decision>, is_blocking: bool) -> (r: Verdict)
    ensures
        r == judged(
            match decision {
                Some(d) => Some(d@),
                None => None,
            },
            is_blocking,
        ),
{
    match decision {
        Some(d) => if d.query.is_some() && is_blocking {
            Verdict::Block
        } else {
            Verdict::Pass
        },
        None => Verdict::Pass,
    }
}

/// A notice that the tap was turned off turns it on again whenever the tap is known, brings the
/// tracked keys into line with the session, and is passed on untold.
pub proof fn disabled_tap_is_recovered(
    code: u32,
    tap_known: bool,
    current: Set<Modifier>,
    flags: EventFlags,
    field: i64,
    keymap: Keymap,
    is_blocking: bool,
)
    requires
        event_type(code).is_tap_disabled(),
    ensures
        routed(code, tap_known) == (Route::Recover { reenable_tap: tap_known }),
        tracked_after(current, routed(code, tap_known), flags, field, keymap) == reconciled(
            current,
            flags,
        ),
        response(current, routed(code, tap_known), flags, field, keymap).emit is None,
        judged(
            Some(response(current, routed(code, tap_known), flags, field, keymap)),
            is_blocking,
        ) == Verdict::Pass,
{
}

/// Where the state cannot be locked, every event is passed on.
pub proof fn unlockable_state_blocks_nothing(is_blocking: bool)
    ensures
        judged(None, is_blocking) == Verdict::Pass,
{
}

/// `route` recovers the tap on the two last numbers, turning it on exactly when it is known, and
/// delivers every other number as its own kind.
pub proof fn routes_go_by_the_number(code: u32, tap_known: bool, r: Route, kind: EventType)
    requires
        call_ensures(route, (code, tap_known), r),
        call_ensures(EventType::from_code, (code,), kind),
    ensures
        r is Recover <==> code >= 0xFFFF_FFFE,
        r is Recover ==> r->reenable_tap == tap_known,
        r is Deliver ==> r->Deliver_0 == kind,
        r == routed(code, tap_known),
{
}

/// A recovered tap only reconciles; a delivered event is taken in as it would be by
/// `handle_event`.
pub proof fn responses_are_those_of_the_way(
    current: Set<Modifier>,
    reenable_tap: bool,
    kind: EventType,
    flags: EventFlags,
    field: i64,
    keymap: Keymap,
)
    ensures
        response(current, Route::Recover { reenable_tap }, flags, field, keymap).emit is None,
        response(current, Route::Recover { reenable_tap }, flags, field, keymap).query is None,
        tracked_after(current, Route::Recover { reenable_tap }, flags, field, keymap)
            == reconciled(current, flags),
        response(current, Route::Deliver(kind), flags, field, keymap) == answer(
            current,
            TapEvent { kind, flags, field },
            keymap,
        ),
        tracked_after(current, Route::Deliver(kind), flags, field, keymap) == settled(
            current,
            TapEvent { kind, flags, field },
            keymap,
        ),
{
}

/// A call of `respond` for a delivered event does what a call of `handle_event` for it does.
pub proof fn delivered_events_are_handled(
    one: &mut ListenerState,
    other: &mut ListenerState,
    event: TapEvent,
    keymap: &Keymap,
    responded: Decision,
    handled: Decision,
)
    requires
        old(one).current_modifiers@ == old(other).current_modifiers@,
        call_ensures(
            ListenerState::respond,
            (one, Route::Deliver(event.kind), event.flags, event.field, keymap),
            responded,
        ),
        call_ensures(ListenerState::handle_event, (other, event, keymap), handled),
    ensures
        responded@ == handled@,
        final(one).current_modifiers@ == final(other).current_modifiers@,
{
    assert(event == TapEvent { kind: event.kind, flags: event.flags, field: event.field });
}

/// A call of `respond` for a tap that was turned off tells nothing and asks nothing, and leaves
/// what a call of `reconcile_modifiers` leaves.
pub proof fn recovery_only_reconciles(
    state: &mut ListenerState,
    current: &mut Modifiers,
    reenable_tap: bool,
    flags: EventFlags,
    field: i64,
    keymap: &Keymap,
    decision: Decision,
)
    requires
        old(state).current_modifiers@ == old(current)@,
        call_ensures(
            ListenerState::respond,
            (state, Route::Recover { reenable_tap }, flags, field, keymap),
            decision,
        ),
        call_ensures(reconcile_modifiers, (current, flags), ()),
    ensures
        decision.emit is None,
        decision.query is None,
        final(state).current_modifiers@ == final(current)@,
{
}

/// `verdict` blocks exactly when there is a decision that asks for a hotkey and the hotkey is a
/// blocking one, whatever is told.
pub proof fn verdicts_go_by_the_question(decision: Option<Decision>, is_blocking: bool, r: Verdict)
    requires
        call_ensures(verdict, (decision, is_blocking), r),
    ensures
        r == Verdict::Block <==> (is_blocking && decision is Some && decision->0.query is Some),
        r == Verdict::Pass <==> !(is_blocking && decision is Some && decision->0.query is Some),
{
}

/// Decisions that both ask, or both do not, are judged the same: what is told makes no difference.
pub proof fn same_question_same_verdict(
    one: Decision,
    other: Decision,
    is_blocking: bool,
    of_one: Verdict,
    of_other: Verdict,
)
    requires
        one.query is Some <==> other.query is Some,
        call_ensures(verdict, (Some(one), is_blocking), of_one),
        call_ensures(verdict, (Some(other), is_blocking), of_other),
    ensures
        of_one == of_other,
{
}

/// Whatever the callback is handed: a named key is blocked, pressed or released or locked, exactly
/// when its hotkey is a blocking one.
pub proof fn named_keys_are_blocked_by_their_hotkey(
    code: u32,
    tap_known: bool,
    current: Set<Modifier>,
    flags: EventFlags,
    field: i64,
    keymap: Keymap,
    keycode: u16,
    is_blocking: bool,
)
    requires
        10 <= code <= 12,
        (field - keycode) % 0x1_0000 == 0,
        keymap.key(keycode) is Some,
    ensures
        judged(
            Some(response(current, routed(code, tap_known), flags, field, keymap)),
            is_blocking,
        ) == Verdict::Block <==> is_blocking,
{
    every_kind_has_its_own_number(code);
    let event = TapEvent { kind: event_type(code), flags, field };
    if code == 12 {
        lock_keys_are_told_by_their_bit(current, event, keymap, keycode, Modifier::Fn);
    } else {
        keys_are_told_as_they_go(current, event, keymap, keycode);
    }
}

/// Whatever the callback is handed: a change of modifier keys of one group is blocked exactly when
/// the group's own bit is set and the hotkey is a blocking one.
pub proof fn modifier_presses_are_blocked_by_their_hotkey(
    tap_known: bool,
    current: Set<Modifier>,
    flags: EventFlags,
    field: i64,
    keymap: Keymap,
    keycode: u16,
    m: Modifier,
    is_blocking: bool,
)
    requires
        (field - keycode) % 0x1_0000 == 0,
        keymap.key(keycode) is None,
        keymap.modifier(keycode) matches Some(changed) && changed.contains(m) && (forall|
            o: Modifier,
        | #[trigger]
            changed.contains(o) ==> o.group() == m.group()),
    ensures
        judged(
            Some(response(current, routed(12, tap_known), flags, field, keymap)),
            is_blocking,
        ) == Verdict::Block <==> is_blocking && match m {
            Modifier::CmdLeft | Modifier::CmdRight => flags.bits & 0x0010_0000 != 0,
            Modifier::ShiftLeft | Modifier::ShiftRight => flags.bits & 0x0002_0000 != 0,
            Modifier::CtrlLeft | Modifier::CtrlRight => flags.bits & 0x0004_0000 != 0,
            Modifier::OptLeft | Modifier::OptRight => flags.bits & 0x0008_0000 != 0,
            Modifier::Fn => flags.bits & 0x0080_0000 != 0,
        },
{
    every_kind_has_its_own_number(12);
    let event = TapEvent { kind: EventType::FlagsChanged, flags, field };
    modifier_changes_are_told_by_their_own_bit(current, event, keymap, keycode, m);
}

/// Whatever the callback is handed: anything but the keyboard's events is passed on.
pub proof fn only_the_keyboard_is_blocked(
    code: u32,
    tap_known: bool,
    current: Set<Modifier>,
    flags: EventFlags,
    field: i64,
    keymap: Keymap,
    is_blocking: bool,
)
    requires
        code < 10 || code > 12,
    ensures
        judged(
            Some(response(current, routed(code, tap_known), flags, field, keymap)),
            is_blocking,
        ) == Verdict::Pass,
{
    every_kind_has_its_own_number(code);
}

} // verus!
