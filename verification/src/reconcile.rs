//! Bringing the tracked modifier keys into line with an event's flags.

use crate::flags::{every_group_has_its_own_bit, flags_have_fn, EventFlags};
use crate::modifiers::{Group, Modifier, Modifiers};
use vstd::prelude::*;

verus! {

/// What is tracked once `flags` have been taken into account: of a group that is not held,
/// nothing; of a group that is held, the keys tracked so far, or its fallback key where there were
/// none.
pub open spec fn reconciled(current: Set<Modifier>, flags: EventFlags) -> Set<Modifier> {
    Set::new(
        |m: Modifier|
            flags.held(m.group()) && (current.contains(m) || (m == m.group().fallback()
                && current.disjoint(m.group().members()))),
    )
}

/// The tracked keys as an event reports them: the function key is in exactly when `flags` hold it.
pub open spec fn reported(current: Set<Modifier>, flags: EventFlags) -> Set<Modifier> {
    if flags.held(Group::Fn) {
        current.insert(Modifier::Fn)
    } else {
        current.remove(Modifier::Fn)
    }
}

/// The tracked keys and the flags agree on which groups are held.
pub open spec fn agrees(current: Set<Modifier>, flags: EventFlags) -> bool {
    forall|g: Group| #[trigger] flags.held(g) == !current.disjoint(g.members())
}

/// Brings the tracked keys of one group into line with the flags.
fn reconcile_group(current: &mut Modifiers, flags: EventFlags, group: Group)
    ensures
        forall|m: Modifier|
            m.group() != group ==> (#[trigger] final(current)@.contains(m) == old(
                current,
            )@.contains(m)),
        forall|m: Modifier|
            m.group() == group ==> (#[trigger] final(current)@.contains(m) == reconciled(
                old(current)@,
                flags,
            ).contains(m)),
{
    let members = Modifiers::of_group(group);
    if !flags.holds_group(group) {
        // A missed release: nothing of the group is held any more.
        current.remove(members);
    } else if !current.intersects(members) {
        // A missed press: the side is not known.
        current.insert(Modifiers::single(group.fallback_key()));
    }
}

/// Brings the tracked keys into line with the flags of the system.
///
/// A release that was missed (the tap was off, the screen was locked) leaves a key tracked that is
/// no longer held; a press that was missed leaves a held group untracked. The first is cleared, the
/// second is put down to the left side.
pub fn reconcile_modifiers(current: &mut Modifiers, flags: EventFlags)
    ensures
        final(current)@ == reconciled(old(current)@, flags),
{
    reconcile_group(current, flags, Group::Ctrl);
    reconcile_group(current, flags, Group::Shift);
    reconcile_group(current, flags, Group::Cmd);
    reconcile_group(current, flags, Group::Opt);
    reconcile_group(current, flags, Group::Fn);
    assert(current@ =~= reconciled(old(current)@, flags));
}

/// The tracked keys as an event reports them.
pub fn reported_modifiers(current: Modifiers, flags: EventFlags) -> (r: Modifiers)
    ensures
        r@ == reported(current@, flags),
{
    let function_key = Modifiers::single(Modifier::Fn);
    let r = if flags_have_fn(flags) {
        current.union(function_key)
    } else {
        current.difference(function_key)
    };
    assert(r@ =~= reported(current@, flags));
    r
}

/// After reconciling, the tracked keys and the flags agree, whatever was missed before.
pub proof fn reconciling_restores_agreement(current: Set<Modifier>, flags: EventFlags)
    ensures
        agrees(reconciled(current, flags), flags),
{
    let r = reconciled(current, flags);
    assert forall|g: Group| #[trigger] flags.held(g) == !r.disjoint(g.members()) by {
        if flags.held(g) {
            if current.disjoint(g.members()) {
                assert(r.contains(g.fallback()) && g.members().contains(g.fallback()));
            } else {
                let m = choose|m: Modifier| current.contains(m) && g.members().contains(m);
                assert(r.contains(m));
            }
        }
    }
}

/// Keys that already agree with the flags are left as they are.
pub proof fn reconciling_keeps_what_agrees(current: Set<Modifier>, flags: EventFlags)
    requires
        agrees(current, flags),
    ensures
        reconciled(current, flags) == current,
{
    assert forall|m: Modifier| reconciled(current, flags).contains(m) == current.contains(m) by {
        let g = m.group();
        assert(flags.held(g) == !current.disjoint(g.members()));
        assert(g.members().contains(m));
    }
    assert(reconciled(current, flags) =~= current);
}

/// Reconciling twice against the same flags is reconciling once.
pub proof fn reconciling_is_idempotent(current: Set<Modifier>, flags: EventFlags)
    ensures
        reconciled(reconciled(current, flags), flags) == reconciled(current, flags),
{
    reconciling_restores_agreement(current, flags);
    reconciling_keeps_what_agrees(reconciled(current, flags), flags);
}

/// When no group is held, nothing stays tracked: a key whose release was missed is not stuck.
pub proof fn stale_keys_are_cleared(current: Set<Modifier>, flags: EventFlags)
    requires
        forall|g: Group| !flags.held(g),
    ensures
        reconciled(current, flags) == Set::<Modifier>::empty(),
{
    assert(reconciled(current, flags) =~= Set::<Modifier>::empty());
}

/// The sides known of a held group are kept.
pub proof fn known_sides_are_kept(current: Set<Modifier>, flags: EventFlags, group: Group)
    requires
        flags.held(group),
        !current.disjoint(group.members()),
    ensures
        reconciled(current, flags).intersect(group.members()) == current.intersect(group.members()),
{
    assert(reconciled(current, flags).intersect(group.members()) =~= current.intersect(
        group.members(),
    ));
}

/// A held group of which no key is tracked is put down to its fallback key alone.
pub proof fn missed_press_falls_back(current: Set<Modifier>, flags: EventFlags, group: Group)
    requires
        flags.held(group),
        current.disjoint(group.members()),
    ensures
        reconciled(current, flags).intersect(group.members()) == set![group.fallback()],
{
    assert forall|m: Modifier| group.members().contains(m) implies !current.contains(m) by {}
    assert(reconciled(current, flags).intersect(group.members()) =~= set![group.fallback()]);
}

/// What is reported holds the function key exactly when the flags do.
pub proof fn function_key_follows_the_flags(current: Set<Modifier>, flags: EventFlags)
    ensures
        reported(current, flags).contains(Modifier::Fn) == flags.held(Group::Fn),
        reported(current, flags).remove(Modifier::Fn) == current.remove(Modifier::Fn),
{
    assert(reported(current, flags).remove(Modifier::Fn) =~= current.remove(Modifier::Fn));
}

/// Reconciled keys are reported as they are.
pub proof fn reconciled_keys_are_reported_unchanged(current: Set<Modifier>, flags: EventFlags)
    ensures
        reported(reconciled(current, flags), flags) == reconciled(current, flags),
{
    assert(Group::Fn.members() =~= set![Modifier::Fn]);
    assert(reported(reconciled(current, flags), flags) =~= reconciled(current, flags));
}

/// What becomes of the two sides of a group, by whether its bit is set: with the bit clear, neither
/// stays; with the bit set, the sides that were there stay as they were, and where there was none
/// the left one comes.
pub open spec fn sides_follow_the_bit(
    bit: bool,
    left_before: bool,
    right_before: bool,
    left: bool,
    right: bool,
) -> bool {
    &&& left || right <==> bit
    &&& bit && (left_before || right_before) ==> left == left_before && right == right_before
    &&& bit && !left_before && !right_before ==> left && !right
}

/// Each group is reconciled by its own bit in the flags and by its own keys, whatever the other
/// bits and keys are.
pub proof fn every_group_is_reconciled_by_its_own_bit(current: Set<Modifier>, flags: EventFlags)
    ensures
        ({
            let r = reconciled(current, flags);
            &&& sides_follow_the_bit(
                flags.bits & 0x0010_0000 != 0,
                current.contains(Modifier::CmdLeft),
                current.contains(Modifier::CmdRight),
                r.contains(Modifier::CmdLeft),
                r.contains(Modifier::CmdRight),
            )
            &&& sides_follow_the_bit(
                flags.bits & 0x0002_0000 != 0,
                current.contains(Modifier::ShiftLeft),
                current.contains(Modifier::ShiftRight),
                r.contains(Modifier::ShiftLeft),
                r.contains(Modifier::ShiftRight),
            )
            &&& sides_follow_the_bit(
                flags.bits & 0x0004_0000 != 0,
                current.contains(Modifier::CtrlLeft),
                current.contains(Modifier::CtrlRight),
                r.contains(Modifier::CtrlLeft),
                r.contains(Modifier::CtrlRight),
            )
            &&& sides_follow_the_bit(
                flags.bits & 0x0008_0000 != 0,
                current.contains(Modifier::OptLeft),
                current.contains(Modifier::OptRight),
                r.contains(Modifier::OptLeft),
                r.contains(Modifier::OptRight),
            )
            &&& r.contains(Modifier::Fn) <==> flags.bits & 0x0080_0000 != 0
        }),
{
    every_group_has_its_own_bit(flags);
    lemma_untouched_group(current, Group::Cmd, Modifier::CmdLeft, Modifier::CmdRight);
    lemma_untouched_group(current, Group::Shift, Modifier::ShiftLeft, Modifier::ShiftRight);
    lemma_untouched_group(current, Group::Ctrl, Modifier::CtrlLeft, Modifier::CtrlRight);
    lemma_untouched_group(current, Group::Opt, Modifier::OptLeft, Modifier::OptRight);
    lemma_untouched_group(current, Group::Fn, Modifier::Fn, Modifier::Fn);
}

/// Nothing of a group is tracked exactly when neither of its keys is.
proof fn lemma_untouched_group(
    current: Set<Modifier>,
    group: Group,
    left: Modifier,
    right: Modifier,
)
    requires
        forall|m: Modifier| #[trigger] m.group() == group <==> m == left || m == right,
    ensures
        current.disjoint(group.members()) <==> !current.contains(left) && !current.contains(right),
{
    assert(group.members().contains(left) && group.members().contains(right));
}

/// Everything but the function key is reported as it is tracked, and the function key by its bit.
pub proof fn only_the_function_key_is_reported_by_its_bit(
    current: Set<Modifier>,
    flags: EventFlags,
    m: Modifier,
)
    ensures
        reported(current, flags).contains(m) <==> if m == Modifier::Fn {
            flags.bits & 0x0080_0000 != 0
        } else {
            current.contains(m)
        },
{
    every_group_has_its_own_bit(flags);
}

/// What `reported_modifiers` returns is what was tracked, but for the function key.
pub proof fn reported_keys_are_the_tracked_ones(
    current: Modifiers,
    flags: EventFlags,
    r: Modifiers,
    m: Modifier,
)
    requires
        call_ensures(reported_modifiers, (current, flags), r),
    ensures
        r@.contains(m) <==> if m == Modifier::Fn {
            flags.bits & 0x0080_0000 != 0
        } else {
            current@.contains(m)
        },
{
    only_the_function_key_is_reported_by_its_bit(current@, flags, m);
}

/// A call of `reconcile_modifiers` treats each group by its own bit and its own keys.
pub proof fn a_call_reconciles_every_group(current: &mut Modifiers, flags: EventFlags)
    requires
        call_ensures(reconcile_modifiers, (current, flags), ()),
    ensures
        sides_follow_the_bit(
            flags.bits & 0x0010_0000 != 0,
            old(current)@.contains(Modifier::CmdLeft),
            old(current)@.contains(Modifier::CmdRight),
            final(current)@.contains(Modifier::CmdLeft),
            final(current)@.contains(Modifier::CmdRight),
        ),
        sides_follow_the_bit(
            flags.bits & 0x0002_0000 != 0,
            old(current)@.contains(Modifier::ShiftLeft),
            old(current)@.contains(Modifier::ShiftRight),
            final(current)@.contains(Modifier::ShiftLeft),
            final(current)@.contains(Modifier::ShiftRight),
        ),
        sides_follow_the_bit(
            flags.bits & 0x0004_0000 != 0,
            old(current)@.contains(Modifier::CtrlLeft),
            old(current)@.contains(Modifier::CtrlRight),
            final(current)@.contains(Modifier::CtrlLeft),
            final(current)@.contains(Modifier::CtrlRight),
        ),
        sides_follow_the_bit(
            flags.bits & 0x0008_0000 != 0,
            old(current)@.contains(Modifier::OptLeft),
            old(current)@.contains(Modifier::OptRight),
            final(current)@.contains(Modifier::OptLeft),
            final(current)@.contains(Modifier::OptRight),
        ),
        final(current)@.contains(Modifier::Fn) <==> flags.bits & 0x0080_0000 != 0,
{
    every_group_is_reconciled_by_its_own_bit(old(current)@, flags);
}

} // verus!
