//! Keys, and the table that names them by keycode.

use crate::modifiers::{Modifier, Modifiers};
use vstd::prelude::*;

verus! {

/// A key or mouse button that an event is about.
#[derive(Clone, Copy, Debug, PartialEq, Eq, Structural)]
pub enum Key {
    /// A key of the keyboard, by the number that the keymap gives it.
    Keyboard(u16),
    MouseLeft,
    MouseRight,
    MouseMiddle,
    MouseX1,
    MouseX2,
}

/// What the keycodes of the keyboard stand for.
pub struct Keymap {
    keys: Vec<(u16, Key)>,
    modifiers: Vec<(u16, Modifiers)>,
}

/// The entry of the first row with that keycode.
pub open spec fn lookup<T>(table: Seq<(u16, T)>, keycode: u16) -> Option<T>
    decreases table.len(),
{
    if table.len() == 0 {
        None
    } else if table[0].0 == keycode {
        Some(table[0].1)
    } else {
        lookup(table.drop_first(), keycode)
    }
}

/// Looks a keycode up in a table.
fn find<T: Copy>(table: &Vec<(u16, T)>, keycode: u16) -> (r: Option<T>)
    ensures
        r == lookup(table@, keycode),
{
    let mut i: usize = 0;
    assert(table@.skip(0) =~= table@);
    while i < table.len()
        invariant
            i <= table.len(),
            lookup(table@, keycode) == lookup(table@.skip(i as int), keycode),
        decreases table.len() - i,
    {
        assert(table@.skip(i as int).drop_first() =~= table@.skip(i + 1));
        if table[i].0 == keycode {
            return Some(table[i].1);
        }
        i += 1;
    }
    None
}

impl Keymap {
    /// The rows that name keys.
    pub closed spec fn key_rows(self) -> Seq<(u16, Key)> {
        self.keys@
    }

    /// The rows that name modifier keys.
    pub closed spec fn modifier_rows(self) -> Seq<(u16, Modifiers)> {
        self.modifiers@
    }

    /// The key of a keycode.
    pub open spec fn key(self, keycode: u16) -> Option<Key> {
        lookup(self.key_rows(), keycode)
    }

    /// The modifier keys of a keycode.
    pub open spec fn modifier(self, keycode: u16) -> Option<Set<Modifier>> {
        match lookup(self.modifier_rows(), keycode) {
            Some(m) => Some(m@),
            None => None,
        }
    }

    /// A keymap of the given rows; of two rows with one keycode the first counts.
    pub fn new(keys: Vec<(u16, Key)>, modifiers: Vec<(u16, Modifiers)>) -> (r: Keymap)
        ensures
            r.key_rows() == keys@,
            r.modifier_rows() == modifiers@,
    {
        Keymap { keys, modifiers }
    }

    /// The key of a keycode, lock keys among them.
    pub fn keycode_to_key(&self, keycode: u16) -> (r: Option<Key>)
        ensures
            r == self.key(keycode),
    {
        find(&self.keys, keycode)
    }

    /// The modifier key of a keycode.
    pub fn keycode_to_modifier(&self, keycode: u16) -> (r: Option<Modifiers>)
        ensures
            r == lookup(self.modifier_rows(), keycode),
    {
        find(&self.modifiers, keycode)
    }
}

/// A keycode stands for what the first row with it says.
pub proof fn first_row_counts(keymap: Keymap, keycode: u16, i: int)
    ensures
        0 <= i < keymap.key_rows().len() && keymap.key_rows()[i].0 == keycode && (forall|j: int|
            0 <= j < i ==> (#[trigger] keymap.key_rows()[j]).0 != keycode) ==> keymap.key(keycode)
            == Some(keymap.key_rows()[i].1),
        0 <= i < keymap.modifier_rows().len() && keymap.modifier_rows()[i].0 == keycode && (forall|
            j: int,
        |
            0 <= j < i ==> (#[trigger] keymap.modifier_rows()[j]).0 != keycode)
            ==> keymap.modifier(keycode) == Some(keymap.modifier_rows()[i].1@),
{
    if 0 <= i < keymap.key_rows().len() && keymap.key_rows()[i].0 == keycode && (forall|j: int|
        0 <= j < i ==> (#[trigger] keymap.key_rows()[j]).0 != keycode) {
        lemma_lookup_first(keymap.key_rows(), keycode, i);
    }
    if 0 <= i < keymap.modifier_rows().len() && keymap.modifier_rows()[i].0 == keycode && (forall|
        j: int,
    |
        0 <= j < i ==> (#[trigger] keymap.modifier_rows()[j]).0 != keycode) {
        lemma_lookup_first(keymap.modifier_rows(), keycode, i);
    }
}

/// A keycode that no row has stands for nothing.
pub proof fn keycodes_without_a_row_are_unnamed(keymap: Keymap, keycode: u16)
    ensures
        (forall|j: int|
            0 <= j < keymap.key_rows().len() ==> (#[trigger] keymap.key_rows()[j]).0 != keycode)
            ==> keymap.key(keycode) is None,
        (forall|j: int|
            0 <= j < keymap.modifier_rows().len() ==> (#[trigger] keymap.modifier_rows()[j]).0
                != keycode) ==> keymap.modifier(keycode) is None,
{
    if forall|j: int|
        0 <= j < keymap.key_rows().len() ==> (#[trigger] keymap.key_rows()[j]).0 != keycode {
        lemma_lookup_none(keymap.key_rows(), keycode);
    }
    if forall|j: int|
        0 <= j < keymap.modifier_rows().len() ==> (#[trigger] keymap.modifier_rows()[j]).0
            != keycode {
        lemma_lookup_none(keymap.modifier_rows(), keycode);
    }
}

/// What is looked up is what the keymap was made of, and names the keycode's own row.
pub proof fn lookups_give_rows(
    keys: Vec<(u16, Key)>,
    modifiers: Vec<(u16, Modifiers)>,
    keymap: Keymap,
    keycode: u16,
    key: Option<Key>,
    modifier: Option<Modifiers>,
)
    requires
        call_ensures(Keymap::new, (keys, modifiers), keymap),
        call_ensures(Keymap::keycode_to_key, (&keymap, keycode), key),
        call_ensures(Keymap::keycode_to_modifier, (&keymap, keycode), modifier),
    ensures
        key is Some <==> exists|i: int| 0 <= i < keys@.len() && (#[trigger] keys@[i]).0 == keycode,
        key is Some ==> keys@.contains((keycode, key->0)),
        modifier is Some <==> exists|i: int|
            0 <= i < modifiers@.len() && (#[trigger] modifiers@[i]).0 == keycode,
        modifier is Some ==> modifiers@.contains((keycode, modifier->0)),
        key == keymap.key(keycode),
        keymap.modifier(keycode) == match modifier {
            Some(m) => Some(m@),
            None => None,
        },
{
    lemma_lookup_row(keys@, keycode);
    lemma_lookup_row(modifiers@, keycode);
}

/// A lookup finds the first row with the keycode.
proof fn lemma_lookup_first<T>(table: Seq<(u16, T)>, keycode: u16, i: int)
    requires
        0 <= i < table.len(),
        table[i].0 == keycode,
        forall|j: int| 0 <= j < i ==> (#[trigger] table[j]).0 != keycode,
    ensures
        lookup(table, keycode) == Some(table[i].1),
    decreases table.len(),
{
    if i > 0 {
        assert(table[0].0 != keycode);
        assert forall|j: int| 0 <= j < i - 1 implies (#[trigger] table.drop_first()[j]).0
            != keycode by {
            assert(table.drop_first()[j] == table[j + 1]);
        }
        lemma_lookup_first(table.drop_first(), keycode, i - 1);
    }
}

/// A lookup finds nothing where no row has the keycode.
proof fn lemma_lookup_none<T>(table: Seq<(u16, T)>, keycode: u16)
    requires
        forall|j: int| 0 <= j < table.len() ==> (#[trigger] table[j]).0 != keycode,
    ensures
        lookup(table, keycode) is None,
    decreases table.len(),
{
    if table.len() > 0 {
        assert(table[0].0 != keycode);
        assert forall|j: int| 0 <= j < table.drop_first().len() implies (
        #[trigger] table.drop_first()[j]).0 != keycode by {
            assert(table.drop_first()[j] == table[j + 1]);
        }
        lemma_lookup_none(table.drop_first(), keycode);
    }
}

/// A lookup finds something exactly where a row has the keycode, and it is such a row's entry.
proof fn lemma_lookup_row<T>(table: Seq<(u16, T)>, keycode: u16)
    ensures
        lookup(table, keycode) is Some <==> exists|i: int|
            0 <= i < table.len() && (#[trigger] table[i]).0 == keycode,
        lookup(table, keycode) is Some ==> table.contains((keycode, lookup(table, keycode)->0)),
    decreases table.len(),
{
    if lookup(table, keycode) is Some {
        if table[0].0 == keycode {
            assert(table[0] == (keycode, lookup(table, keycode)->0));
        } else {
            let rest = table.drop_first();
            lemma_lookup_row(rest, keycode);
            let i = choose|i: int|
                0 <= i < rest.len() && rest[i] == (keycode, lookup(rest, keycode)->0);
            assert(table[i + 1] == rest[i]);
        }
    } else if exists|i: int| 0 <= i < table.len() && (#[trigger] table[i]).0 == keycode {
        let i = choose|i: int| 0 <= i < table.len() && (#[trigger] table[i]).0 == keycode;
        let rest = table.drop_first();
        assert(i > 0);
        assert(rest[i - 1] == table[i]);
        lemma_lookup_row(rest, keycode);
    }
}

} // verus!
