//! The playable characters.

use vstd::prelude::*;
use vstd::string::StrSliceExecFns;

verus! {

/// A playable character.
#[derive(Debug, PartialEq, Eq, Clone, Copy, Structural)]
pub enum Character {
    Ironclad,
    Silent,
    Defect,
    Watcher,
}

/// Why a text names no character.
#[derive(Debug)]
pub enum Error {
    /// The text, which is no character's name.
    ParseCharacter(String),
}

/// Number of characters.
pub const CHARACTERS: usize = 4;

/// The index of a character.
pub open spec fn character_index(character: Character) -> int {
    match character {
        Character::Ironclad => 0,
        Character::Silent => 1,
        Character::Defect => 2,
        Character::Watcher => 3,
    }
}

/// Number of basic cards in a character's first deck.
pub open spec fn basic_cards(character: Character) -> int {
    match character {
        Character::Ironclad => 9,
        Character::Silent => 10,
        Character::Defect => 8,
        Character::Watcher => 8,
    }
}

/// Number of basic cards in a character's first deck.
pub fn basics(character: Character) -> (count: usize)
    ensures
        count == basic_cards(character),
{
    match character {
        Character::Ironclad => 9,
        Character::Silent => 10,
        Character::Defect => 8,
        Character::Watcher => 8,
    }
}

/// Whether two texts hold the same characters.
pub fn same_text(a: &str, b: &str) -> (same: bool)
    ensures
        same == (a@ == b@),
{
    let len = a.unicode_len();
    if len != b.unicode_len() {
        return false;
    }
    let mut i: usize = 0;
    while i < len
        invariant
            i <= len,
            len == a@.len(),
            len == b@.len(),
            forall|j: int| 0 <= j < i ==> a@[j] == b@[j],
        decreases len - i,
    {
        if a.get_char(i) != b.get_char(i) {
            return false;
        }
        i = i + 1;
    }
    assert(a@ =~= b@);
    true
}

/// The character that a text names, by its name in capitals with or
/// without `THE_` before it.
pub open spec fn named_character(text: Seq<char>) -> Option<Character> {
    if text == "IRONCLAD"@ || text == "THE_IRONCLAD"@ {
        Some(Character::Ironclad)
    } else if text == "SILENT"@ || text == "THE_SILENT"@ {
        Some(Character::Silent)
    } else if text == "DEFECT"@ || text == "THE_DEFECT"@ {
        Some(Character::Defect)
    } else if text == "WATCHER"@ || text == "THE_WATCHER"@ {
        Some(Character::Watcher)
    } else {
        None
    }
}

impl Character {
    /// The character that `s` names; the text itself as the error where it
    /// names none.
    pub fn parse(s: &str) -> (r: Result<Self, Error>)
        ensures
            match r {
                Ok(character) => named_character(s@) == Some(character),
                Err(Error::ParseCharacter(text)) => named_character(s@) is None && text@ == s@,
            },
    {
        if same_text(s, "IRONCLAD") || same_text(s, "THE_IRONCLAD") {
            Ok(Character::Ironclad)
        } else if same_text(s, "SILENT") || same_text(s, "THE_SILENT") {
            Ok(Character::Silent)
        } else if same_text(s, "DEFECT") || same_text(s, "THE_DEFECT") {
            Ok(Character::Defect)
        } else if same_text(s, "WATCHER") || same_text(s, "THE_WATCHER") {
            Ok(Character::Watcher)
        } else {
            Err(Error::ParseCharacter(s.to_owned()))
        }
    }

    /// The index of the character.
    pub fn index(self) -> (index: usize)
        ensures
            index == character_index(self),
    {
        match self {
            Character::Ironclad => 0,
            Character::Silent => 1,
            Character::Defect => 2,
            Character::Watcher => 3,
        }
    }
}

impl std::str::FromStr for Character {
    type Err = Error;

    fn from_str(s: &str) -> (r: Result<Self, Error>)
        ensures
            match r {
                Ok(character) => named_character(s@) == Some(character),
                Err(Error::ParseCharacter(text)) => named_character(s@) is None && text@ == s@,
            },
    {
        Character::parse(s)
    }
}

} // verus!
