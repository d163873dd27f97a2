//! The flags that the window server puts on an event.

use crate::modifiers::Group;
use vstd::prelude::*;

verus! {

/// Caps Lock is on.
pub const MASK_ALPHA_SHIFT: u64 = 0x0001_0000;

/// A Shift key is held.
pub const MASK_SHIFT: u64 = 0x0002_0000;

/// A Control key is held.
pub const MASK_CONTROL: u64 = 0x0004_0000;

/// An Option key is held.
pub const MASK_ALTERNATE: u64 = 0x0008_0000;

/// A Command key is held.
pub const MASK_COMMAND: u64 = 0x0010_0000;

/// The function key is held.
pub const MASK_SECONDARY_FN: u64 = 0x0080_0000;

/// The flags of one event, as the window server gives them. They tell which groups of modifier
/// keys are held, not on which side.
#[derive(Clone, Copy, Debug, PartialEq, Eq, Structural)]
pub struct EventFlags {
    pub bits: u64,
}

impl Group {
    /// The bit that says that a key of the group is held.
    pub open spec fn mask(self) -> u64 {
        match self {
            Group::Cmd => MASK_COMMAND,
            Group::Shift => MASK_SHIFT,
            Group::Ctrl => MASK_CONTROL,
            Group::Opt => MASK_ALTERNATE,
            Group::Fn => MASK_SECONDARY_FN,
        }
    }
}

impl EventFlags {
    /// All bits of `mask` are set.
    pub open spec fn has(self, mask: u64) -> bool {
        self.bits & mask == mask
    }

    /// A key of the group is held.
    pub open spec fn held(self, group: Group) -> bool {
        self.has(group.mask())
    }

    /// Whether all bits of `mask` are set.
    pub fn contains(self, mask: u64) -> (r: bool)
        ensures
            r == self.has(mask),
    {
        self.bits & mask == mask
    }

    /// Whether a key of the group is held.
    pub fn holds_group(self, group: Group) -> (r: bool)
        ensures
            r == self.held(group),
    {
        match group {
            Group::Cmd => self.contains(MASK_COMMAND),
            Group::Shift => self.contains(MASK_SHIFT),
            Group::Ctrl => self.contains(MASK_CONTROL),
            Group::Opt => self.contains(MASK_ALTERNATE),
            Group::Fn => flags_have_fn(self),
        }
    }
}

/// Whether the function key is held.
pub fn flags_have_fn(flags: EventFlags) -> (r: bool)
    ensures
        r == flags.held(Group::Fn),
{
    flags.contains(MASK_SECONDARY_FN)
}

/// Whether Caps Lock is on.
pub fn flags_have_alpha_shift(flags: EventFlags) -> (r: bool)
    ensures
        r == flags.has(MASK_ALPHA_SHIFT),
{
    flags.contains(MASK_ALPHA_SHIFT)
}

/// Whether a group is held depends on its own bit alone, whatever the other bits are.
pub proof fn every_group_has_its_own_bit(flags: EventFlags)
    ensures
        flags.held(Group::Cmd) <==> flags.bits & 0x0010_0000 != 0,
        flags.held(Group::Shift) <==> flags.bits & 0x0002_0000 != 0,
        flags.held(Group::Ctrl) <==> flags.bits & 0x0004_0000 != 0,
        flags.held(Group::Opt) <==> flags.bits & 0x0008_0000 != 0,
        flags.held(Group::Fn) <==> flags.bits & 0x0080_0000 != 0,
        flags.has(MASK_ALPHA_SHIFT) <==> flags.bits & 0x0001_0000 != 0,
{
    let bits = flags.bits;
    assert(bits & 0x0010_0000 == 0x0010_0000 <==> bits & 0x0010_0000 != 0) by (bit_vector);
    assert(bits & 0x0002_0000 == 0x0002_0000 <==> bits & 0x0002_0000 != 0) by (bit_vector);
    assert(bits & 0x0004_0000 == 0x0004_0000 <==> bits & 0x0004_0000 != 0) by (bit_vector);
    assert(bits & 0x0008_0000 == 0x0008_0000 <==> bits & 0x0008_0000 != 0) by (bit_vector);
    assert(bits & 0x0080_0000 == 0x0080_0000 <==> bits & 0x0080_0000 != 0) by (bit_vector);
    assert(bits & 0x0001_0000 == 0x0001_0000 <==> bits & 0x0001_0000 != 0) by (bit_vector);
}

/// The functions that read flags answer by the bit they are named after.
pub proof fn readers_go_by_their_bit(
    flags: EventFlags,
    cmd: bool,
    shift: bool,
    ctrl: bool,
    opt: bool,
    function_key: bool,
    also_function_key: bool,
    alpha_shift: bool,
)
    requires
        call_ensures(EventFlags::holds_group, (flags, Group::Cmd), cmd),
        call_ensures(EventFlags::holds_group, (flags, Group::Shift), shift),
        call_ensures(EventFlags::holds_group, (flags, Group::Ctrl), ctrl),
        call_ensures(EventFlags::holds_group, (flags, Group::Opt), opt),
        call_ensures(EventFlags::holds_group, (flags, Group::Fn), function_key),
        call_ensures(flags_have_fn, (flags,), also_function_key),
        call_ensures(flags_have_alpha_shift, (flags,), alpha_shift),
    ensures
        cmd <==> flags.bits & 0x0010_0000 != 0,
        shift <==> flags.bits & 0x0002_0000 != 0,
        ctrl <==> flags.bits & 0x0004_0000 != 0,
        opt <==> flags.bits & 0x0008_0000 != 0,
        function_key <==> flags.bits & 0x0080_0000 != 0,
        also_function_key <==> flags.bits & 0x0080_0000 != 0,
        alpha_shift <==> flags.bits & 0x0001_0000 != 0,
{
    every_group_has_its_own_bit(flags);
}

/// A mask is contained exactly when none of its bits is missing.
pub proof fn contained_masks_miss_no_bit(flags: EventFlags, mask: u64, r: bool)
    requires
        call_ensures(EventFlags::contains, (flags, mask), r),
    ensures
        r <==> mask & !flags.bits == 0,
{
    let bits = flags.bits;
    assert(bits & mask == mask <==> mask & !bits == 0) by (bit_vector);
}

} // verus!
