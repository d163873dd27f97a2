//! Modifier keys, and sets of them.

use vstd::prelude::*;

verus! {

/// A modifier key on one side of the keyboard. The function key has no side.
#[derive(Clone, Copy, Debug, PartialEq, Eq, Structural)]
pub enum Modifier {
    CmdLeft,
    CmdRight,
    ShiftLeft,
    ShiftRight,
    CtrlLeft,
    CtrlRight,
    OptLeft,
    OptRight,
    Fn,
}

/// The keys that share one bit of an event's flags.
#[derive(Clone, Copy, Debug, PartialEq, Eq, Structural)]
pub enum Group {
    Cmd,
    Shift,
    Ctrl,
    Opt,
    Fn,
}

impl Modifier {
    /// The group that the key belongs to.
    pub open spec fn group(self) -> Group {
        match self {
            Modifier::CmdLeft | Modifier::CmdRight => Group::Cmd,
            Modifier::ShiftLeft | Modifier::ShiftRight => Group::Shift,
            Modifier::CtrlLeft | Modifier::CtrlRight => Group::Ctrl,
            Modifier::OptLeft | Modifier::OptRight => Group::Opt,
            Modifier::Fn => Group::Fn,
        }
    }

    /// The key's own bit in a packed set.
    spec fn bit(self) -> u16 {
        match self {
            Modifier::CmdLeft => 0x001,
            Modifier::CmdRight => 0x002,
            Modifier::ShiftLeft => 0x004,
            Modifier::ShiftRight => 0x008,
            Modifier::CtrlLeft => 0x010,
            Modifier::CtrlRight => 0x020,
            Modifier::OptLeft => 0x040,
            Modifier::OptRight => 0x080,
            Modifier::Fn => 0x100,
        }
    }
}

impl Group {
    /// The left key of a group that has sides, the function key of its own.
    pub open spec fn fallback(self) -> Modifier {
        match self {
            Group::Cmd => Modifier::CmdLeft,
            Group::Shift => Modifier::ShiftLeft,
            Group::Ctrl => Modifier::CtrlLeft,
            Group::Opt => Modifier::OptLeft,
            Group::Fn => Modifier::Fn,
        }
    }

    /// The key of the group that stands for it when the side is not known.
    pub fn fallback_key(self) -> (r: Modifier)
        ensures
            r == self.fallback(),
    {
        match self {
            Group::Cmd => Modifier::CmdLeft,
            Group::Shift => Modifier::ShiftLeft,
            Group::Ctrl => Modifier::CtrlLeft,
            Group::Opt => Modifier::OptLeft,
            Group::Fn => Modifier::Fn,
        }
    }

    /// The keys of the group.
    pub open spec fn members(self) -> Set<Modifier> {
        Set::new(|m: Modifier| m.group() == self)
    }
}

/// A set of modifier keys, one bit for each.
#[derive(Clone, Copy, Debug, Eq)]
pub struct Modifiers {
    bits: u16,
}

/// The keys whose bits are set in `bits`.
spec fn unpacked(bits: u16) -> Set<Modifier> {
    Set::new(|m: Modifier| bits & m.bit() != 0)
}

/// No bit is set but those of the nine keys.
spec fn only_keys(bits: u16) -> bool {
    bits & !0x1ffu16 == 0
}

impl View for Modifiers {
    type V = Set<Modifier>;

    closed spec fn view(&self) -> Set<Modifier> {
        unpacked(self.bits)
    }
}

/// One of the nine keys' bits.
spec fn is_key_bit(bit: u16) -> bool {
    bit == 0x001 || bit == 0x002 || bit == 0x004 || bit == 0x008 || bit == 0x010 || bit == 0x020
        || bit == 0x040 || bit == 0x080 || bit == 0x100
}

/// Every key of one packed set is in another exactly when its bits are.
proof fn lemma_subset(a: u16, b: u16)
    requires
        only_keys(a),
    ensures
        (b & a == a) == unpacked(a).subset_of(unpacked(b)),
{
    if b & a == a {
        assert forall|m: Modifier| unpacked(a).contains(m) implies unpacked(b).contains(m) by {
            let bit = m.bit();
            assert(b & bit != 0) by (bit_vector)
                requires
                    b & a == a,
                    a & bit != 0,
            ;
        }
    }
    if unpacked(a).subset_of(unpacked(b)) {
        assert forall|m: Modifier| a & #[trigger] m.bit() != 0 implies b & m.bit() != 0 by {
            assert(unpacked(a).contains(m));
            assert(unpacked(b).contains(m));
        }
        assert(a & Modifier::CmdLeft.bit() != 0 ==> b & Modifier::CmdLeft.bit() != 0);
        assert(a & Modifier::CmdRight.bit() != 0 ==> b & Modifier::CmdRight.bit() != 0);
        assert(a & Modifier::ShiftLeft.bit() != 0 ==> b & Modifier::ShiftLeft.bit() != 0);
        assert(a & Modifier::ShiftRight.bit() != 0 ==> b & Modifier::ShiftRight.bit() != 0);
        assert(a & Modifier::CtrlLeft.bit() != 0 ==> b & Modifier::CtrlLeft.bit() != 0);
        assert(a & Modifier::CtrlRight.bit() != 0 ==> b & Modifier::CtrlRight.bit() != 0);
        assert(a & Modifier::OptLeft.bit() != 0 ==> b & Modifier::OptLeft.bit() != 0);
        assert(a & Modifier::OptRight.bit() != 0 ==> b & Modifier::OptRight.bit() != 0);
        assert(a & Modifier::Fn.bit() != 0 ==> b & Modifier::Fn.bit() != 0);
        assert(b & a == a) by (bit_vector)
            requires
                a & !0x1ffu16 == 0,
                a & 0x001 != 0 ==> b & 0x001 != 0,
                a & 0x002 != 0 ==> b & 0x002 != 0,
                a & 0x004 != 0 ==> b & 0x004 != 0,
                a & 0x008 != 0 ==> b & 0x008 != 0,
                a & 0x010 != 0 ==> b & 0x010 != 0,
                a & 0x020 != 0 ==> b & 0x020 != 0,
                a & 0x040 != 0 ==> b & 0x040 != 0,
                a & 0x080 != 0 ==> b & 0x080 != 0,
                a & 0x100 != 0 ==> b & 0x100 != 0,
        ;
    }
}

/// The bitwise operations act on the keys as the set operations do.
proof fn lemma_operations(a: u16, b: u16)
    ensures
        unpacked(a | b) == unpacked(a).union(unpacked(b)),
        unpacked(a & b) == unpacked(a).intersect(unpacked(b)),
        unpacked(a & !b) == unpacked(a).difference(unpacked(b)),
        only_keys(a) && only_keys(b) ==> only_keys(a | b),
        only_keys(a) ==> only_keys(a & b) && only_keys(a & !b),
{
    assert forall|m: Modifier|
        #![trigger unpacked(a).contains(m)]
        #![trigger unpacked(b).contains(m)]
        ((a | b) & m.bit() != 0) == (a & m.bit() != 0 || b & m.bit() != 0) && ((a & b) & m.bit()
            != 0) == (a & m.bit() != 0 && b & m.bit() != 0) && ((a & !b) & m.bit() != 0) == (a
            & m.bit() != 0 && b & m.bit() == 0) by {
        let bit = m.bit();
        assert(((a | b) & bit != 0) == (a & bit != 0 || b & bit != 0) && ((a & b) & bit != 0) == (a
            & bit != 0 && b & bit != 0) && ((a & !b) & bit != 0) == (a & bit != 0 && b & bit == 0))
            by (bit_vector)
            requires
                is_key_bit(bit),
        ;
    }
    assert(unpacked(a | b) =~= unpacked(a).union(unpacked(b)));
    assert(unpacked(a & b) =~= unpacked(a).intersect(unpacked(b)));
    assert(unpacked(a & !b) =~= unpacked(a).difference(unpacked(b)));
    assert((a & !0x1ffu16 == 0 && b & !0x1ffu16 == 0 ==> (a | b) & !0x1ffu16 == 0) && (a & !0x1ffu16
        == 0 ==> (a & b) & !0x1ffu16 == 0 && (a & !b) & !0x1ffu16 == 0)) by (bit_vector);
}

/// A packed set holds no key exactly when it is zero.
proof fn lemma_empty(a: u16)
    requires
        only_keys(a),
    ensures
        (a == 0) == (unpacked(a) == Set::<Modifier>::empty()),
{
    assert(only_keys(0)) by {
        assert(0u16 & !0x1ffu16 == 0) by (bit_vector);
    }
    assert(unpacked(0) =~= Set::<Modifier>::empty()) by {
        assert forall|m: Modifier| !unpacked(0).contains(m) by {
            let bit = m.bit();
            assert(0u16 & bit == 0) by (bit_vector);
        }
    }
    lemma_subset(a, 0);
    assert(0u16 & a == 0) by (bit_vector);
}

/// Equal sets hold the same keys.
impl PartialEq for Modifiers {
    fn eq(&self, other: &Modifiers) -> (r: bool) {
        proof {
            use_type_invariant(self);
            use_type_invariant(other);
            if self@ == other@ {
                let (a, b) = (self.bits, other.bits);
                lemma_subset(a, b);
                lemma_subset(b, a);
                assert(a == b) by (bit_vector)
                    requires
                        b & a == a,
                        a & b == b,
                ;
            }
        }
        self.bits == other.bits
    }
}

impl vstd::std_specs::cmp::PartialEqSpecImpl for Modifiers {
    open spec fn obeys_eq_spec() -> bool {
        true
    }

    open spec fn eq_spec(&self, other: &Modifiers) -> bool {
        self@ == other@
    }
}

impl Modifiers {
    /// The nine keys' bits are the only ones in use.
    #[verifier::type_invariant]
    spec fn wf(self) -> bool {
        only_keys(self.bits)
    }

    /// The set of no key.
    pub fn empty() -> (r: Modifiers)
        ensures
            r@ == Set::<Modifier>::empty(),
    {
        proof {
            assert(0u16 & !0x1ffu16 == 0) by (bit_vector);
            lemma_empty(0);
        }
        Modifiers { bits: 0 }
    }

    /// The set of one key.
    pub fn single(m: Modifier) -> (r: Modifiers)
        ensures
            r@ == set![m],
    {
        let bits: u16 = match m {
            Modifier::CmdLeft => 0x001,
            Modifier::CmdRight => 0x002,
            Modifier::ShiftLeft => 0x004,
            Modifier::ShiftRight => 0x008,
            Modifier::CtrlLeft => 0x010,
            Modifier::CtrlRight => 0x020,
            Modifier::OptLeft => 0x040,
            Modifier::OptRight => 0x080,
            Modifier::Fn => 0x100,
        };
        proof {
            assert(bits & !0x1ffu16 == 0) by (bit_vector)
                requires
                    is_key_bit(bits),
            ;
            assert forall|o: Modifier| #[trigger] unpacked(bits).contains(o) == (o == m) by {
                let bit = o.bit();
                assert((bits & bit != 0) == (bits == bit)) by (bit_vector)
                    requires
                        is_key_bit(bits),
                        is_key_bit(bit),
                ;
            }
            assert(unpacked(bits) =~= set![m]);
        }
        Modifiers { bits }
    }

    /// Both sides of a group, or the function key for its own.
    pub fn of_group(group: Group) -> (r: Modifiers)
        ensures
            r@ == group.members(),
    {
        let r = match group {
            Group::Cmd => Modifiers::single(Modifier::CmdLeft).union(
                Modifiers::single(Modifier::CmdRight),
            ),
            Group::Shift => Modifiers::single(Modifier::ShiftLeft).union(
                Modifiers::single(Modifier::ShiftRight),
            ),
            Group::Ctrl => Modifiers::single(Modifier::CtrlLeft).union(
                Modifiers::single(Modifier::CtrlRight),
            ),
            Group::Opt => Modifiers::single(Modifier::OptLeft).union(
                Modifiers::single(Modifier::OptRight),
            ),
            Group::Fn => Modifiers::single(Modifier::Fn),
        };
        assert(r@ =~= group.members());
        r
    }

    /// Whether no key is in the set.
    pub fn is_empty(&self) -> (r: bool)
        ensures
            r == (self@ == Set::<Modifier>::empty()),
    {
        proof {
            use_type_invariant(self);
            lemma_empty(self.bits);
        }
        self.bits == 0
    }

    /// Whether every key of `other` is in the set.
    pub fn contains(&self, other: Modifiers) -> (r: bool)
        ensures
            r == other@.subset_of(self@),
    {
        proof {
            use_type_invariant(&other);
            lemma_subset(other.bits, self.bits);
        }
        self.bits & other.bits == other.bits
    }

    /// Whether some key of `other` is in the set.
    pub fn intersects(&self, other: Modifiers) -> (r: bool)
        ensures
            r == !self@.disjoint(other@),
    {
        proof {
            use_type_invariant(self);
            lemma_operations(self.bits, other.bits);
            lemma_empty(self.bits & other.bits);
            let both = self@.intersect(other@);
            if self@.disjoint(other@) {
                assert(both =~= Set::<Modifier>::empty());
            } else {
                let m = choose|m: Modifier| self@.contains(m) && other@.contains(m);
                assert(both.contains(m));
            }
        }
        self.bits & other.bits != 0
    }

    /// The keys of either set.
    pub fn union(self, other: Modifiers) -> (r: Modifiers)
        ensures
            r@ == self@.union(other@),
    {
        proof {
            use_type_invariant(&self);
            use_type_invariant(&other);
            lemma_operations(self.bits, other.bits);
        }
        Modifiers { bits: self.bits | other.bits }
    }

    /// The keys of the set that are not in `other`.
    pub fn difference(self, other: Modifiers) -> (r: Modifiers)
        ensures
            r@ == self@.difference(other@),
    {
        proof {
            use_type_invariant(&self);
            lemma_operations(self.bits, other.bits);
        }
        Modifiers { bits: self.bits & !other.bits }
    }

    /// Adds the keys of `other`.
    pub fn insert(&mut self, other: Modifiers)
        ensures
            final(self)@ == old(self)@.union(other@),
    {
        *self = self.union(other);
    }

    /// Takes the keys of `other` out.
    pub fn remove(&mut self, other: Modifiers)
        ensures
            final(self)@ == old(self)@.difference(other@),
    {
        *self = self.difference(other);
    }
}

/// A group is its left and its right key, or the function key alone; it falls back to the left.
pub proof fn groups_are_two_sides_of_one_key()
    ensures
        forall|m: Modifier|
            #![trigger m.group()]
            {
                &&& m.group() == Group::Cmd <==> m == Modifier::CmdLeft || m == Modifier::CmdRight
                &&& m.group() == Group::Shift <==> m == Modifier::ShiftLeft || m
                    == Modifier::ShiftRight
                &&& m.group() == Group::Ctrl <==> m == Modifier::CtrlLeft || m
                    == Modifier::CtrlRight
                &&& m.group() == Group::Opt <==> m == Modifier::OptLeft || m == Modifier::OptRight
                &&& m.group() == Group::Fn <==> m == Modifier::Fn
            },
        Group::Cmd.fallback() == Modifier::CmdLeft,
        Group::Shift.fallback() == Modifier::ShiftLeft,
        Group::Ctrl.fallback() == Modifier::CtrlLeft,
        Group::Opt.fallback() == Modifier::OptLeft,
        Group::Fn.fallback() == Modifier::Fn,
{
}

/// Every key is a member of exactly one group.
pub proof fn every_key_is_in_one_group(m: Modifier, g: Group)
    ensures
        g.members().contains(m) <==> g == m.group(),
        g.members().contains(g.fallback()),
{
}

/// `contains`, `intersects`, `is_empty` and `==` go by the single keys of the two sets.
pub proof fn tests_go_by_single_keys(
    a: &Modifiers,
    b: Modifiers,
    contains: bool,
    intersects: bool,
    is_empty: bool,
)
    requires
        call_ensures(Modifiers::contains, (a, b), contains),
        call_ensures(Modifiers::intersects, (a, b), intersects),
        call_ensures(Modifiers::is_empty, (a,), is_empty),
    ensures
        contains <==> (forall|m: Modifier| b@.contains(m) ==> a@.contains(m)),
        intersects <==> (exists|m: Modifier| a@.contains(m) && b@.contains(m)),
        is_empty <==> (forall|m: Modifier| !a@.contains(m)),
        vstd::std_specs::cmp::PartialEqSpec::eq_spec(a, &b) <==> (forall|m: Modifier|
            a@.contains(m) == b@.contains(m)),
{
    if forall|m: Modifier| !a@.contains(m) {
        assert(a@ =~= Set::<Modifier>::empty());
    }
    if forall|m: Modifier| a@.contains(m) == b@.contains(m) {
        assert(a@ =~= b@);
    }
}

/// What is built holds the keys that it should and no others.
pub proof fn sets_hold_what_they_are_built_of(
    a: Modifiers,
    b: Modifiers,
    one: Modifier,
    group: Group,
    empty: Modifiers,
    single: Modifiers,
    of_group: Modifiers,
    union: Modifiers,
    difference: Modifiers,
)
    requires
        call_ensures(Modifiers::empty, (), empty),
        call_ensures(Modifiers::single, (one,), single),
        call_ensures(Modifiers::of_group, (group,), of_group),
        call_ensures(Modifiers::union, (a, b), union),
        call_ensures(Modifiers::difference, (a, b), difference),
    ensures
        forall|m: Modifier| !empty@.contains(m),
        forall|m: Modifier| single@.contains(m) <==> m == one,
        forall|m: Modifier| of_group@.contains(m) <==> m.group() == group,
        forall|m: Modifier| union@.contains(m) <==> a@.contains(m) || b@.contains(m),
        forall|m: Modifier| difference@.contains(m) <==> a@.contains(m) && !b@.contains(m),
{
}

/// Inserting and removing change the keys of the other set and no others.
pub proof fn changes_touch_the_other_sets_keys_only(
    a: &mut Modifiers,
    b: &mut Modifiers,
    other: Modifiers,
    m: Modifier,
)
    requires
        call_ensures(Modifiers::insert, (a, other), ()),
        call_ensures(Modifiers::remove, (b, other), ()),
    ensures
        final(a)@.contains(m) <==> old(a)@.contains(m) || other@.contains(m),
        final(b)@.contains(m) <==> old(b)@.contains(m) && !other@.contains(m),
{
}

/// A group falls back to its left key, or to the function key for its own.
pub proof fn groups_fall_back_to_the_left(group: Group, r: Modifier)
    requires
        call_ensures(Group::fallback_key, (group,), r),
    ensures
        r.group() == group,
        r != Modifier::CmdRight,
        r != Modifier::ShiftRight,
        r != Modifier::CtrlRight,
        r != Modifier::OptRight,
{
}

} // verus!
