use keytap::modifiers::{Group, Modifier, Modifiers};

const ALL: [Modifier; 9] = [
    Modifier::CmdLeft,
    Modifier::CmdRight,
    Modifier::ShiftLeft,
    Modifier::ShiftRight,
    Modifier::CtrlLeft,
    Modifier::CtrlRight,
    Modifier::OptLeft,
    Modifier::OptRight,
    Modifier::Fn,
];

#[test]
fn empty_set_holds_nothing() {
    let empty = Modifiers::empty();
    assert!(empty.is_empty());
    for m in ALL {
        assert!(!empty.contains(Modifiers::single(m)));
        assert!(!empty.intersects(Modifiers::single(m)));
    }
    assert!(empty.contains(Modifiers::empty()));
    assert!(!empty.intersects(Modifiers::empty()));
}

#[test]
fn single_keys_are_distinct() {
    for a in ALL {
        assert!(!Modifiers::single(a).is_empty());
        for b in ALL {
            let (x, y) = (Modifiers::single(a), Modifiers::single(b));
            assert_eq!(x == y, a == b);
            assert_eq!(x.contains(y), a == b);
            assert_eq!(x.intersects(y), a == b);
        }
    }
}

#[test]
fn groups_hold_both_sides() {
    let ctrl = Modifiers::of_group(Group::Ctrl);
    assert_eq!(
        ctrl,
        Modifiers::single(Modifier::CtrlLeft).union(Modifiers::single(Modifier::CtrlRight))
    );
    assert_eq!(Modifiers::of_group(Group::Fn), Modifiers::single(Modifier::Fn));
    assert!(ctrl.intersects(Modifiers::single(Modifier::CtrlRight)));
    assert!(!ctrl.intersects(Modifiers::of_group(Group::Shift)));
    assert!(!Modifiers::single(Modifier::CtrlLeft).contains(ctrl));
}

#[test]
fn groups_fall_back_to_the_left() {
    assert_eq!(Group::Cmd.fallback_key(), Modifier::CmdLeft);
    assert_eq!(Group::Shift.fallback_key(), Modifier::ShiftLeft);
    assert_eq!(Group::Ctrl.fallback_key(), Modifier::CtrlLeft);
    assert_eq!(Group::Opt.fallback_key(), Modifier::OptLeft);
    assert_eq!(Group::Fn.fallback_key(), Modifier::Fn);
}

#[test]
fn insert_and_remove() {
    let mut m = Modifiers::empty();
    m.insert(Modifiers::of_group(Group::Cmd));
    m.insert(Modifiers::single(Modifier::Fn));
    assert!(m.contains(Modifiers::single(Modifier::CmdRight)));
    m.remove(Modifiers::single(Modifier::CmdRight));
    assert_eq!(
        m,
        Modifiers::single(Modifier::CmdLeft).union(Modifiers::single(Modifier::Fn))
    );
    m.remove(Modifiers::single(Modifier::OptLeft));
    assert_eq!(m.difference(Modifiers::of_group(Group::Cmd)), Modifiers::single(Modifier::Fn));
    m.remove(m);
    assert!(m.is_empty());
}
