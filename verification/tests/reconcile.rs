use keytap::flags::{
    flags_have_alpha_shift, flags_have_fn, EventFlags, MASK_ALPHA_SHIFT, MASK_ALTERNATE,
    MASK_COMMAND, MASK_CONTROL, MASK_SECONDARY_FN, MASK_SHIFT,
};
use keytap::modifiers::{Group, Modifier, Modifiers};
use keytap::reconcile::{reconcile_modifiers, reported_modifiers};

fn set(keys: &[Modifier]) -> Modifiers {
    let mut r = Modifiers::empty();
    for k in keys {
        r.insert(Modifiers::single(*k));
    }
    r
}

fn reconciled(keys: &[Modifier], bits: u64) -> Modifiers {
    let mut r = set(keys);
    reconcile_modifiers(&mut r, EventFlags { bits });
    r
}

#[test]
fn masks_are_those_of_the_window_server() {
    assert_eq!(MASK_ALPHA_SHIFT, 65536);
    assert_eq!(MASK_SHIFT, 131072);
    assert_eq!(MASK_CONTROL, 262144);
    assert_eq!(MASK_ALTERNATE, 524288);
    assert_eq!(MASK_COMMAND, 1048576);
    assert_eq!(MASK_SECONDARY_FN, 8388608);
}

#[test]
fn flags_tell_the_groups() {
    let flags = EventFlags { bits: MASK_COMMAND | MASK_SECONDARY_FN | 0x100 };
    assert!(flags.holds_group(Group::Cmd));
    assert!(flags.holds_group(Group::Fn));
    assert!(!flags.holds_group(Group::Shift));
    assert!(!flags.holds_group(Group::Ctrl));
    assert!(!flags.holds_group(Group::Opt));
    assert!(flags_have_fn(flags));
    assert!(!flags_have_alpha_shift(flags));
    assert!(flags_have_alpha_shift(EventFlags { bits: MASK_ALPHA_SHIFT }));
    assert!(flags.contains(MASK_COMMAND | MASK_SECONDARY_FN));
    assert!(!flags.contains(MASK_COMMAND | MASK_SHIFT));
}

#[test]
fn stale_keys_go() {
    assert!(reconciled(&[Modifier::CtrlLeft, Modifier::ShiftRight, Modifier::Fn], 0).is_empty());
    assert_eq!(
        reconciled(&[Modifier::CtrlLeft, Modifier::ShiftRight], MASK_SHIFT),
        set(&[Modifier::ShiftRight])
    );
}

#[test]
fn missed_presses_go_to_the_left() {
    let all = MASK_COMMAND | MASK_SHIFT | MASK_CONTROL | MASK_ALTERNATE | MASK_SECONDARY_FN;
    assert_eq!(
        reconciled(&[], all),
        set(&[
            Modifier::CmdLeft,
            Modifier::ShiftLeft,
            Modifier::CtrlLeft,
            Modifier::OptLeft,
            Modifier::Fn
        ])
    );
}

#[test]
fn known_sides_stay() {
    assert_eq!(reconciled(&[Modifier::OptRight], MASK_ALTERNATE), set(&[Modifier::OptRight]));
    assert_eq!(
        reconciled(&[Modifier::OptRight, Modifier::OptLeft], MASK_ALTERNATE),
        set(&[Modifier::OptRight, Modifier::OptLeft])
    );
}

#[test]
fn reconciling_again_changes_nothing() {
    for bits in [0, MASK_CONTROL, MASK_SHIFT | MASK_SECONDARY_FN, u64::MAX] {
        let mut once = reconciled(&[Modifier::CmdRight, Modifier::ShiftRight], bits);
        let before = once;
        reconcile_modifiers(&mut once, EventFlags { bits });
        assert_eq!(once, before);
    }
}

#[test]
fn caps_lock_is_no_modifier() {
    assert!(reconciled(&[], MASK_ALPHA_SHIFT).is_empty());
}

#[test]
fn function_key_is_reported_by_the_flags() {
    let with = EventFlags { bits: MASK_SECONDARY_FN };
    let without = EventFlags { bits: 0 };
    let both = set(&[Modifier::CmdLeft, Modifier::Fn]);
    let cmd = set(&[Modifier::CmdLeft]);
    assert_eq!(reported_modifiers(cmd, with), both);
    assert_eq!(reported_modifiers(both, with), both);
    assert_eq!(reported_modifiers(cmd, without), cmd);
    assert_eq!(reported_modifiers(both, without), cmd);
}
