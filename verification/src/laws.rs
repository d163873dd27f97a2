//! What holds of the listener from one event to the next.

use crate::callback::{tracked_after, Route};
use crate::event::EventType;
use crate::flags::EventFlags;
use crate::keymap::Keymap;
use crate::listener::{
    answer, changed_modifier, deciding_group, keycode, settled, silence, went_down, TapEvent,
};
use crate::modifiers::{Group, Modifier};
use crate::reconcile::{
    agrees, function_key_follows_the_flags, reconciled, reconciled_keys_are_reported_unchanged,
    reconciling_is_idempotent, reconciling_restores_agreement, reported,
};
use vstd::prelude::*;

verus! {

/// Every row of the keymap names modifier keys of one group.
pub open spec fn one_group_each(keymap: Keymap) -> bool {
    forall|code: u16| #[trigger] keymap.modifier(code) matches Some(changed) ==> exists|g: Group|
        changed.subset_of(#[trigger] g.members())
}

/// Changed keys of one group are decided by that group.
proof fn lemma_deciding_group(changed: Set<Modifier>, g: Group)
    requires
        changed.subset_of(g.members()),
    ensures
        deciding_group(changed) == if changed.disjoint(g.members()) {
            None
        } else {
            Some(g)
        },
{
    assert forall|o: Group| o != g implies #[trigger] changed.disjoint(o.members()) by {}
}

/// Whatever was tracked, and whatever was missed, after every event the tracked keys agree with
/// its flags.
pub proof fn every_event_restores_agreement(
    current: Set<Modifier>,
    route: Route,
    flags: EventFlags,
    field: i64,
    keymap: Keymap,
)
    requires
        one_group_each(keymap),
    ensures
        agrees(tracked_after(current, route, flags, field, keymap), flags),
{
    let now = reconciled(current, flags);
    let after = tracked_after(current, route, flags, field, keymap);
    reconciling_restores_agreement(current, flags);
    if let Route::Deliver(kind) = route {
        let event = TapEvent { kind, flags, field };
        if let Some(changed) = changed_modifier(event, keymap) {
            let g = choose|g: Group| changed.subset_of(#[trigger] g.members());
            lemma_deciding_group(changed, g);
            assert forall|o: Group| #[trigger] flags.held(o) == !after.disjoint(o.members()) by {
                assert(flags.held(o) == !now.disjoint(o.members()));
                if !now.disjoint(o.members()) {
                    let m = choose|m: Modifier| now.contains(m) && o.members().contains(m);
                    assert(after.contains(m));
                }
            }
        }
    }
}

/// The release of modifier keys leaves what reconciling leaves.
pub proof fn release_only_reconciles(current: Set<Modifier>, event: TapEvent, keymap: Keymap)
    requires
        one_group_each(keymap),
        answer(current, event, keymap).emit matches Some(e) && !e.is_key_down,
    ensures
        settled(current, event, keymap) == reconciled(current, event.flags),
{
    if let Some(changed) = changed_modifier(event, keymap) {
        let g = choose|g: Group| changed.subset_of(#[trigger] g.members());
        lemma_deciding_group(changed, g);
        assert(settled(current, event, keymap) =~= reconciled(current, event.flags));
    }
}

/// The modifier keys that an event is about are tracked after it exactly when they went down.
pub proof fn changed_keys_are_as_the_flags_say(
    current: Set<Modifier>,
    event: TapEvent,
    keymap: Keymap,
    m: Modifier,
)
    requires
        changed_modifier(event, keymap) matches Some(changed) && changed.contains(m),
    ensures
        settled(current, event, keymap).contains(m) == went_down(
            changed_modifier(event, keymap)->0,
            event.flags,
        ),
{
}

/// Whether a modifier key is told as down does not depend on what was tracked: one missed event
/// does not turn the following ones round.
pub proof fn missed_events_do_not_invert_later_ones(
    one: Set<Modifier>,
    other: Set<Modifier>,
    event: TapEvent,
    keymap: Keymap,
)
    requires
        changed_modifier(event, keymap) is Some,
    ensures
        answer(one, event, keymap).emit matches Some(a) && answer(other, event, keymap).emit
            matches Some(b) && a.is_key_down == b.is_key_down && a.changed_modifier
            == b.changed_modifier && a.key == b.key,
{
}

/// While one side of a group stays held, the other keeps its place when it is released; both go
/// when the group does.
pub proof fn sides_are_released_together(
    current: Set<Modifier>,
    event: TapEvent,
    keymap: Keymap,
    group: Group,
)
    requires
        one_group_each(keymap),
        !current.disjoint(group.members()),
    ensures
        event.flags.held(group) ==> forall|m: Modifier|
            m.group() == group && current.contains(m) ==> #[trigger] settled(
                current,
                event,
                keymap,
            ).contains(m),
        !event.flags.held(group) ==> settled(current, event, keymap).disjoint(group.members()),
{
    let after = settled(current, event, keymap);
    every_event_restores_agreement(
        current,
        Route::Deliver(event.kind),
        event.flags,
        event.field,
        keymap,
    );
    assert(tracked_after(
        current,
        Route::Deliver(event.kind),
        event.flags,
        event.field,
        keymap,
    ) == after);
    if event.flags.held(group) {
        if let Some(changed) = changed_modifier(event, keymap) {
            let g = choose|g: Group| changed.subset_of(#[trigger] g.members());
            lemma_deciding_group(changed, g);
        }
    } else {
        assert(event.flags.held(group) == !after.disjoint(group.members()));
    }
}

/// A lock key leaves no trace among the tracked keys.
pub proof fn lock_keys_are_not_tracked(current: Set<Modifier>, event: TapEvent, keymap: Keymap)
    requires
        keymap.key(keycode(event.field)) is Some,
    ensures
        settled(current, event, keymap) == reconciled(current, event.flags),
{
}

/// What is told of an event holds the function key exactly when its flags do.
pub proof fn told_function_key_follows_the_flags(
    current: Set<Modifier>,
    event: TapEvent,
    keymap: Keymap,
)
    ensures
        answer(current, event, keymap).emit matches Some(e) ==> e.modifiers.contains(Modifier::Fn)
            == event.flags.held(Group::Fn),
{
    reconciled_keys_are_reported_unchanged(current, event.flags);
    function_key_follows_the_flags(current, event.flags);
    function_key_follows_the_flags(reconciled(current, event.flags), event.flags);
    function_key_follows_the_flags(settled(current, event, keymap), event.flags);
}

/// The modifier keys told of an event are those tracked after it. A lock key is left out: it is
/// told with what was tracked before.
pub proof fn what_is_told_is_what_is_tracked(
    current: Set<Modifier>,
    event: TapEvent,
    keymap: Keymap,
)
    requires
        one_group_each(keymap),
        !(event.kind == EventType::FlagsChanged && keymap.key(keycode(event.field)) is Some),
    ensures
        answer(current, event, keymap).emit matches Some(e) ==> e.modifiers == settled(
            current,
            event,
            keymap,
        ),
{
    let after = settled(current, event, keymap);
    if changed_modifier(event, keymap) is Some {
        every_event_restores_agreement(
            current,
            Route::Deliver(event.kind),
            event.flags,
            event.field,
            keymap,
        );
        assert(event.flags.held(Group::Fn) == !after.disjoint(Group::Fn.members()));
        assert(after.contains(Modifier::Fn) == event.flags.held(Group::Fn)) by {
            assert(Group::Fn.members().contains(Modifier::Fn));
            if event.flags.held(Group::Fn) {
                let m = choose|m: Modifier|
                    after.contains(m) && Group::Fn.members().contains(m);
                assert(m == Modifier::Fn);
            }
        }
        assert(reported(after, event.flags) =~= after);
    }
}

/// Whatever is told names a key or a modifier key.
pub proof fn what_is_told_names_something(current: Set<Modifier>, event: TapEvent, keymap: Keymap)
    ensures
        answer(current, event, keymap).emit matches Some(e) ==> e.key is Some
            || e.changed_modifier is Some,
{
}

/// A hotkey that is asked for is the combination that is told.
pub proof fn what_is_asked_is_told(current: Set<Modifier>, event: TapEvent, keymap: Keymap)
    ensures
        answer(current, event, keymap).query matches Some(q) ==> answer(
            current,
            event,
            keymap,
        ).emit matches Some(e) && e.modifiers == q.modifiers && e.key == q.key,
{
}

/// The release of a key asks for the hotkey that its press asked for exactly when the modifier keys
/// held come out the same at both; then both are blocked or neither is. A modifier key let go in
/// between changes what is asked. `between` is whatever is tracked when the release comes, and
/// `later` are its flags.
pub proof fn release_is_judged_as_the_press(
    current: Set<Modifier>,
    flags: EventFlags,
    between: Set<Modifier>,
    later: EventFlags,
    field: i64,
    keymap: Keymap,
)
    requires
        keymap.key(keycode(field)) is Some,
    ensures
        ({
            let press = TapEvent { kind: EventType::KeyDown, flags, field };
            let release = TapEvent { kind: EventType::KeyUp, flags: later, field };
            answer(between, release, keymap).query == answer(current, press, keymap).query
                <==> reconciled(between, later) == reconciled(current, flags)
        }),
{
    let press = TapEvent { kind: EventType::KeyDown, flags, field };
    let release = TapEvent { kind: EventType::KeyUp, flags: later, field };
    let asked = answer(current, press, keymap).query;
    let asked_again = answer(between, release, keymap).query;
    assert(asked->0.modifiers == reconciled(current, flags));
    assert(asked_again->0.modifiers == reconciled(between, later));
}

/// A release that follows its press at once, with the same flags, asks for the same hotkey.
pub proof fn prompt_release_is_judged_as_the_press(
    current: Set<Modifier>,
    flags: EventFlags,
    field: i64,
    keymap: Keymap,
)
    ensures
        ({
            let press = TapEvent { kind: EventType::KeyDown, flags, field };
            let release = TapEvent { kind: EventType::KeyUp, flags, field };
            answer(settled(current, press, keymap), release, keymap).query == answer(
                current,
                press,
                keymap,
            ).query
        }),
{
    reconciling_is_idempotent(current, flags);
}

/// Mouse buttons and the release of modifier keys are never blocked.
pub proof fn only_keys_and_presses_can_be_blocked(
    current: Set<Modifier>,
    event: TapEvent,
    keymap: Keymap,
)
    requires
        answer(current, event, keymap).query is Some,
    ensures
        event.kind == EventType::KeyDown || event.kind == EventType::KeyUp || event.kind
            == EventType::FlagsChanged,
        changed_modifier(event, keymap) matches Some(changed) ==> went_down(changed, event.flags),
{
}

/// A left or right click is told exactly when a modifier key is held.
pub proof fn plain_clicks_are_not_told(current: Set<Modifier>, event: TapEvent, keymap: Keymap)
    requires
        event.kind == EventType::LeftMouseDown || event.kind == EventType::LeftMouseUp
            || event.kind == EventType::RightMouseDown || event.kind == EventType::RightMouseUp,
    ensures
        answer(current, event, keymap).emit is Some <==> exists|g: Group|
            #[trigger] event.flags.held(g),
{
    let now = reconciled(current, event.flags);
    reconciling_restores_agreement(current, event.flags);
    if exists|g: Group| #[trigger] event.flags.held(g) {
        let g = choose|g: Group| #[trigger] event.flags.held(g);
        let m = choose|m: Modifier| now.contains(m) && g.members().contains(m);
        assert(now.contains(m));
    } else {
        assert(now =~= Set::<Modifier>::empty());
    }
}

/// A key that the keymap does not name is passed on untold.
pub proof fn unnamed_keys_are_not_told(current: Set<Modifier>, event: TapEvent, keymap: Keymap)
    requires
        event.kind == EventType::KeyDown || event.kind == EventType::KeyUp,
        keymap.key(keycode(event.field)) is None,
    ensures
        answer(current, event, keymap) == silence(),
        settled(current, event, keymap) == reconciled(current, event.flags),
{
}

} // verus!
