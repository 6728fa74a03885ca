//! Keypad messages and the mapping from host key labels to keypad codes.

use vstd::prelude::*;

verus! {

/// Number of keys on the keypad; every key code is below this.
pub const KEY_COUNT: u8 = 16;

/// A key transition reported to the simulation core.
#[derive(Clone, Copy, Debug, PartialEq, Eq, Structural)]
pub enum KeyboardMessage {
    Down(u8),
    Up(u8),
}

impl KeyboardMessage {
    /// The message for pressing `key`.
    pub fn down(key: u8) -> (r: Self)
        requires
            key < KEY_COUNT,
        ensures
            r == KeyboardMessage::Down(key),
    {
        KeyboardMessage::Down(key)
    }

    /// The message for releasing `key`.
    pub fn up(key: u8) -> (r: Self)
        requires
            key < KEY_COUNT,
        ensures
            r == KeyboardMessage::Up(key),
    {
        KeyboardMessage::Up(key)
    }
}

/// The standard layout: the left-hand 4x4 block of a QWERTY keyboard stands
/// for the hexadecimal keypad
/// `1 2 3 C / 4 5 6 D / 7 8 9 E / A 0 B F`.
pub open spec fn layout_code(c: char) -> Option<u8> {
    match c {
        '1' => Some(0x1u8),
        '2' => Some(0x2u8),
        '3' => Some(0x3u8),
        '4' => Some(0xCu8),
        'q' => Some(0x4u8),
        'w' => Some(0x5u8),
        'e' => Some(0x6u8),
        'r' => Some(0xDu8),
        'a' => Some(0x7u8),
        's' => Some(0x8u8),
        'd' => Some(0x9u8),
        'f' => Some(0xEu8),
        'z' => Some(0xAu8),
        'x' => Some(0x0u8),
        'c' => Some(0xBu8),
        'v' => Some(0xFu8),
        _ => None,
    }
}

/// The code of the first entry whose label is `c`, if any.
pub open spec fn first_code(entries: Seq<(char, u8)>, c: char) -> Option<u8>
    decreases entries.len(),
{
    if entries.len() == 0 {
        None
    } else if entries[0].0 == c {
        Some(entries[0].1)
    } else {
        first_code(entries.drop_first(), c)
    }
}

/// An immutable table from host key labels to keypad codes.
pub struct KeyMap {
    entries: Vec<(char, u8)>,
}

impl KeyMap {
    /// The code that the one-character label `c` stands for.
    pub closed spec fn code_of(self, c: char) -> Option<u8> {
        first_code(self.entries@, c)
    }

    /// Every code in the table is a keypad key.
    #[verifier::type_invariant]
    spec fn wf(self) -> bool {
        forall|c: char| #[trigger] first_code(self.entries@, c) is Some ==> first_code(self.entries@, c)->0 < KEY_COUNT
    }

    /// What a host label maps to: a label of one character that the table
    /// holds maps to its code, every other label to nothing.
    pub open spec fn lookup(self, label: Seq<char>) -> Option<u8> {
        if label.len() == 1 {
            self.code_of(label[0])
        } else {
            None
        }
    }

    /// The map of the standard layout.
    pub fn new() -> (m: Self)
        ensures
            forall|c: char| #[trigger] m.code_of(c) == layout_code(c),
    {
        let entries: Vec<(char, u8)> = vec![
            ('1', 0x1),
            ('2', 0x2),
            ('3', 0x3),
            ('4', 0xC),
            ('q', 0x4),
            ('w', 0x5),
            ('e', 0x6),
            ('r', 0xD),
            ('a', 0x7),
            ('s', 0x8),
            ('d', 0x9),
            ('f', 0xE),
            ('z', 0xA),
            ('x', 0x0),
            ('c', 0xB),
            ('v', 0xF),
        ];
        assert forall|c: char| #[trigger] first_code(entries@, c) == layout_code(c) by {
            reveal_with_fuel(first_code, 17);
        }
        KeyMap { entries }
    }

    /// The code of a single character.
    fn code(&self, c: char) -> (r: Option<u8>)
        ensures
            r == self.code_of(c),
    {
        let mut i: usize = 0;
        assert(self.entries@.skip(0) =~= self.entries@);
        while i < self.entries.len()
            invariant
                i <= self.entries@.len(),
                first_code(self.entries@, c) == first_code(self.entries@.skip(i as int), c),
            decreases self.entries@.len() - i,
        {
            let (k, v) = self.entries[i];
            if k == c {
                return Some(v);
            }
            assert(self.entries@.skip(i as int).drop_first() =~= self.entries@.skip(i + 1));
            i = i + 1;
        }
        None
    }

    /// Looks a host key label up.
    pub fn key(&self, label: &str) -> (r: Option<u8>)
        ensures
            r == self.lookup(label@),
            r matches Some(k) ==> k < KEY_COUNT,
    {
        proof {
            use_type_invariant(self);
        }
        let mut chars = label.chars();
        match chars.next() {
            None => None,
            Some(c) => match chars.next() {
                None => self.code(c),
                Some(_) => None,
            },
        }
    }
}

impl Default for KeyMap {
    fn default() -> (m: Self)
        ensures
            forall|c: char| #[trigger] m.code_of(c) == layout_code(c),
    {
        KeyMap::new()
    }
}

/// Looking a label up is total: every label maps either to nothing or,
/// being one character, to the one code that the standard layout gives that
/// character, which is a keypad key.
pub proof fn lemma_lookup_total(m: KeyMap, label: Seq<char>)
    requires
        forall|c: char| #[trigger] m.code_of(c) == layout_code(c),
    ensures
        m.lookup(label) is None || (label.len() == 1 && m.lookup(label) == layout_code(label[0])
            && m.lookup(label)->0 < KEY_COUNT),
{
    if label.len() == 1 {
        assert(m.code_of(label[0]) == layout_code(label[0]));
    }
}

} // verus!
