use keytap::callback::{route, verdict, Route, Verdict};
use keytap::event::{EventType, TAP_DISABLED_BY_TIMEOUT, TAP_DISABLED_BY_USER_INPUT};
use keytap::flags::{EventFlags, MASK_COMMAND};
use keytap::keymap::{Key, Keymap};
use keytap::listener::{Decision, ListenerState};
use keytap::modifiers::{Modifier, Modifiers};

/// The tap, and the state behind a lock that may be unusable.
struct Context {
    tap: Option<bool>,
    state: Option<ListenerState>,
}

fn make_ctx() -> Context {
    Context { tap: Some(false), state: Some(ListenerState::new()) }
}

fn deliver_tap_disabled(ctx: &mut Context, code: u32) {
    let way = route(code, ctx.tap.is_some());
    match way {
        Route::Recover { reenable_tap } => {
            if reenable_tap {
                ctx.tap = Some(true);
            }
        }
        Route::Deliver(kind) => panic!("{kind:?} is no pseudo-event"),
    }
    let keymap = Keymap::new(vec![], vec![]);
    let decision =
        ctx.state.as_mut().map(|s| s.respond(way, EventFlags { bits: 0 }, 0, &keymap));
    assert_eq!(
        verdict(decision, true),
        Verdict::Pass,
        "pseudo-events must be passed through, not blocked"
    );
}

#[test]
fn tap_disabled_pseudo_event_reenables_tap() {
    for event_type in [TAP_DISABLED_BY_TIMEOUT, TAP_DISABLED_BY_USER_INPUT] {
        let mut ctx = make_ctx();
        assert!(ctx.tap != Some(true));

        deliver_tap_disabled(&mut ctx, event_type);

        assert!(
            ctx.tap == Some(true),
            "callback must re-enable the tap after {event_type:?}"
        );
    }
}

#[test]
fn tap_reenabled_even_with_poisoned_state_mutex() {
    let mut ctx = make_ctx();
    ctx.state = None;
    assert!(ctx.state.is_none(), "mutex should be poisoned");
    assert!(ctx.tap != Some(true));

    deliver_tap_disabled(&mut ctx, TAP_DISABLED_BY_TIMEOUT);

    assert!(
        ctx.tap == Some(true),
        "re-enable must happen even when the state lock is unusable"
    );
}

#[test]
fn tap_disabled_pseudo_event_reconciles_modifiers() {
    let mut ctx = make_ctx();
    ctx.state.as_mut().unwrap().current_modifiers =
        Modifiers::single(Modifier::CtrlLeft).union(Modifiers::single(Modifier::ShiftRight));

    deliver_tap_disabled(&mut ctx, TAP_DISABLED_BY_TIMEOUT);

    assert_eq!(
        ctx.state.unwrap().current_modifiers,
        Modifiers::empty(),
        "stale modifiers must be reconciled away on tap-disable"
    );
}

#[test]
fn unknown_tap_is_not_turned_on() {
    assert_eq!(
        route(TAP_DISABLED_BY_TIMEOUT, false),
        Route::Recover { reenable_tap: false }
    );
}

#[test]
fn input_is_delivered() {
    assert_eq!(route(10, true), Route::Deliver(EventType::KeyDown));
    assert_eq!(route(12, false), Route::Deliver(EventType::FlagsChanged));
    assert_eq!(route(5, true), Route::Deliver(EventType::Other));
}

#[test]
fn hotkeys_are_blocked() {
    let keymap = Keymap::new(vec![(9, Key::Keyboard(9))], vec![]);
    let mut s = ListenerState::new();
    let flags = EventFlags { bits: MASK_COMMAND };
    let press = s.respond(route(10, true), flags, 9, &keymap);
    assert_eq!(verdict(Some(press), true), Verdict::Block);
    assert_eq!(verdict(Some(press), false), Verdict::Pass);
    let release = s.respond(route(11, true), flags, 9, &keymap);
    assert_eq!(release.query, press.query);
    let click = s.respond(route(1, true), flags, 0, &keymap);
    assert!(click.emit.is_some());
    assert_eq!(verdict(Some(click), true), Verdict::Pass);
}

#[test]
fn modifier_let_go_in_between_changes_what_is_asked() {
    let keymap = Keymap::new(
        vec![(9, Key::Keyboard(9))],
        vec![(0x37, Modifiers::single(Modifier::CmdLeft))],
    );
    let mut s = ListenerState::new();
    let press = s.respond(route(10, true), EventFlags { bits: MASK_COMMAND }, 9, &keymap);
    s.respond(route(12, true), EventFlags { bits: 0 }, 0x37, &keymap);
    let release = s.respond(route(11, true), EventFlags { bits: 0 }, 9, &keymap);
    assert!(release.query.is_some());
    assert_ne!(release.query, press.query);

    let press = s.respond(route(10, true), EventFlags { bits: MASK_COMMAND }, 9, &keymap);
    s.respond(route(1, true), EventFlags { bits: MASK_COMMAND }, 0, &keymap);
    let release = s.respond(route(11, true), EventFlags { bits: MASK_COMMAND }, 9, &keymap);
    assert_eq!(release.query, press.query);
}

#[test]
fn nothing_is_blocked_without_a_decision() {
    let none: Option<Decision> = None;
    assert_eq!(verdict(none, true), Verdict::Pass);
    assert_eq!(verdict(none, false), Verdict::Pass);
}
