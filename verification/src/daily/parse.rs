//! A day's climb out of a line of text: the fields, separated by commas,
//! are the date, the character, the three modifiers and the seed string,
//! and after them, if they are there, the seed as a number and the lists
//! of the paths without combat.

use vstd::prelude::*;
use vstd::string::StringSliceAdditionalSpecFns;
use vstd::utf8::decode_utf8;
use super::modifier::{
    named_difficulty_mod, named_generic_mod, named_starter_mod, DifficultyMod, GenericMod,
    StarterMod,
};
use super::Daily;
use crate::character::{named_character, Character};
use crate::neow::{bonuses, NeowBonuses};
use crate::rng::{xs128_from, Rng};
use crate::seed::{decode, decoded, encode, encoded, parsed, Seed, SeedString};

verus! {

/// The comma that separates the fields.
pub const COMMA: u8 = 44;

/// The index of the first comma from index `from` on; the length of the
/// text if there is none.
pub open spec fn comma(bytes: Seq<u8>, from: int) -> int
    decreases bytes.len() - from,
{
    if from >= bytes.len() || from < 0 {
        bytes.len() as int
    } else if bytes[from] == COMMA {
        from
    } else {
        comma(bytes, from + 1)
    }
}

/// The first field of a text: what stands before the first comma.
pub open spec fn head(bytes: Seq<u8>) -> Seq<u8> {
    bytes.subrange(0, comma(bytes, 0))
}

/// What stands after the first comma of a text, if there is a comma.
pub open spec fn tail(bytes: Seq<u8>) -> Option<Seq<u8>> {
    if comma(bytes, 0) < bytes.len() {
        Some(bytes.subrange(comma(bytes, 0) + 1, bytes.len() as int))
    } else {
        None
    }
}

/// The first comma lies in the text or at its end.
pub proof fn lemma_comma(bytes: Seq<u8>, from: int)
    requires
        0 <= from <= bytes.len(),
    ensures
        from <= comma(bytes, from) <= bytes.len(),
        comma(bytes, from) < bytes.len() ==> bytes[comma(bytes, from)] == COMMA,
    decreases bytes.len() - from,
{
    if from < bytes.len() && bytes[from] != COMMA {
        lemma_comma(bytes, from + 1);
    }
}

/// The first field of a text and, if a comma follows it, the rest of the
/// text after the comma.
pub fn split_field<'a>(s: &'a str) -> (r: (&'a str, Option<&'a str>))
    ensures
        r.0.spec_bytes() == head(s.spec_bytes()),
        match r.1 {
            Some(rest) => tail(s.spec_bytes()) == Some(rest.spec_bytes()),
            None => tail(s.spec_bytes()) is None,
        },
{
    let bytes = s.as_bytes();
    let mut at: usize = 0;
    while at < bytes.len() && bytes[at] != COMMA
        invariant
            at <= bytes@.len(),
            bytes@ == s.spec_bytes(),
            comma(bytes@, at as int) == comma(bytes@, 0),
        decreases bytes@.len() - at,
    {
        at = at + 1;
    }
    proof {
        lemma_comma(bytes@, 0);
    }
    if at == bytes.len() {
        assert(s.spec_bytes().subrange(0, at as int) =~= s.spec_bytes());
        return (s, None);
    }
    proof {
        vstd::utf8::encode_utf8_valid_utf8(s@);
        vstd::utf8::is_char_boundary_iff_not_is_continuation_byte(s.spec_bytes(), at as int);
    }
    let (first, rest) = s.split_at(at);
    proof {
        let t = rest.spec_bytes();
        vstd::utf8::encode_utf8_valid_utf8(rest@);
        assert(t[0] == COMMA);
        reveal_with_fuel(vstd::utf8::valid_utf8, 2);
        reveal_with_fuel(vstd::utf8::is_char_boundary, 2);
        assert(vstd::utf8::is_leading_byte_width_1(t[0]));
        assert(vstd::utf8::length_of_first_scalar(t) == 1);
        assert(vstd::utf8::valid_utf8(vstd::utf8::pop_first_scalar(t)));
        assert(vstd::utf8::is_char_boundary(t, 1));
    }
    let (_, after) = rest.split_at(1);
    assert(after.spec_bytes() =~= s.spec_bytes().subrange(at + 1, s.spec_bytes().len() as int));
    (first, Some(after))
}

/// The error of `str::parse::<i64>`, of which nothing is seen from here.
#[verifier::external_type_specification]
#[verifier::external_body]
pub struct ExParseIntError(std::num::ParseIntError);

/// The number for which `str::parse::<i64>` reads a text, if it reads it
/// as one.
pub uninterp spec fn decimal_i64(text: Seq<char>) -> Option<i64>;

/// Calls `str::parse::<i64>`: whether the text is read as a number, and as
/// which, depends on the text alone.
#[verifier::external_body]
fn parse_i64(s: &str) -> (r: Result<i64, std::num::ParseIntError>)
    ensures
        match r {
            Ok(value) => decimal_i64(s@) == Some(value),
            Err(_) => decimal_i64(s@) is None,
        },
{
    s.parse::<i64>()
}

/// Why a line of text is no day's climb.
#[derive(Debug)]
pub enum Error {
    NoDate,
    NoCharacter,
    NoStarterMod,
    NoGenericMod,
    NoDifficultyMod,
    NoSeedString,
    /// The seventh field is no number.
    ParseSeed(std::num::ParseIntError),
    ParseCharacter(crate::character::Error),
    ParseDailyModifier(crate::daily::modifier::Error),
    ParseSeedString(crate::seed::Error),
    /// The seed of the seventh field has another seed string than the one
    /// of the sixth.
    InconsistentSeeds(Seed, SeedString),
}

/// Why a line of text is no day's climb, with the text of the field at
/// fault where the error holds it.
pub ghost enum Fault {
    NoCharacter,
    NoStarterMod,
    NoGenericMod,
    NoDifficultyMod,
    NoSeedString,
    ParseSeed,
    ParseCharacter(Seq<char>),
    ParseStarterMod(Seq<char>),
    ParseGenericMod(Seq<char>),
    ParseDifficultyMod(Seq<char>),
    ParseSeedString(crate::seed::Error),
    InconsistentSeeds(i64, Seq<u8>),
    /// No line of text gives this one.
    Other,
}

/// What a day's climb holds.
pub ghost struct DailyView {
    pub date: Seq<char>,
    pub character: Character,
    pub starter_mod: StarterMod,
    pub generic_mod: GenericMod,
    pub difficulty_mod: DifficultyMod,
    pub seed_string: Seq<u8>,
    pub seed: i64,
    pub no_combat_paths: Option<Seq<char>>,
    pub no_combat_paths_ascension: Option<Seq<char>>,
    pub neow_bonuses: NeowBonuses,
}

/// The field with index `index` of a text, if the text has as many
/// fields.
pub open spec fn field(bytes: Seq<u8>, index: int) -> Option<Seq<u8>>
    decreases index,
{
    if index <= 0 {
        Some(head(bytes))
    } else {
        match tail(bytes) {
            Some(rest) => field(rest, index - 1),
            None => None,
        }
    }
}

/// The text of an optional field.
pub open spec fn text_of(bytes: Option<Seq<u8>>) -> Option<Seq<char>> {
    match bytes {
        Some(b) => Some(decode_utf8(b)),
        None => None,
    }
}

/// The seed of a day: that of the seventh field, whose seed string must be
/// that of the sixth; that of the seed string where there is no seventh
/// field.
pub open spec fn parsed_seed(string: Seq<u8>, number: Option<Seq<u8>>) -> Result<i64, Fault> {
    match number {
        Some(text) => match decimal_i64(decode_utf8(text)) {
            Some(seed) => if encoded(seed as u64 as int) == string {
                Ok(seed)
            } else {
                Err(Fault::InconsistentSeeds(seed, string))
            },
            None => Err(Fault::ParseSeed),
        },
        None => Ok(decoded(string)),
    }
}

/// The day's climb for which a line of text stands, or why it stands for
/// none: the first field that is missing or cannot be read decides.
pub open spec fn parsed_daily(bytes: Seq<u8>) -> Result<DailyView, Fault> {
    if field(bytes, 1) is None {
        Err(Fault::NoCharacter)
    } else if named_character(decode_utf8(field(bytes, 1)->0)) is None {
        Err(Fault::ParseCharacter(decode_utf8(field(bytes, 1)->0)))
    } else if field(bytes, 2) is None {
        Err(Fault::NoStarterMod)
    } else if named_starter_mod(decode_utf8(field(bytes, 2)->0)) is None {
        Err(Fault::ParseStarterMod(decode_utf8(field(bytes, 2)->0)))
    } else if field(bytes, 3) is None {
        Err(Fault::NoGenericMod)
    } else if named_generic_mod(decode_utf8(field(bytes, 3)->0)) is None {
        Err(Fault::ParseGenericMod(decode_utf8(field(bytes, 3)->0)))
    } else if field(bytes, 4) is None {
        Err(Fault::NoDifficultyMod)
    } else if named_difficulty_mod(decode_utf8(field(bytes, 4)->0)) is None {
        Err(Fault::ParseDifficultyMod(decode_utf8(field(bytes, 4)->0)))
    } else if field(bytes, 5) is None {
        Err(Fault::NoSeedString)
    } else {
        match parsed(field(bytes, 5)->0) {
            Err(fault) => Err(Fault::ParseSeedString(fault)),
            Ok(string) => match parsed_seed(string, field(bytes, 6)) {
                Err(fault) => Err(fault),
                Ok(seed) => Ok(
                    DailyView {
                        date: decode_utf8(field(bytes, 0)->0),
                        character: named_character(decode_utf8(field(bytes, 1)->0))->0,
                        starter_mod: named_starter_mod(decode_utf8(field(bytes, 2)->0))->0,
                        generic_mod: named_generic_mod(decode_utf8(field(bytes, 3)->0))->0,
                        difficulty_mod: named_difficulty_mod(decode_utf8(field(bytes, 4)->0))->0,
                        seed_string: string,
                        seed,
                        no_combat_paths: text_of(field(bytes, 7)),
                        no_combat_paths_ascension: text_of(field(bytes, 8)),
                        neow_bonuses: bonuses(xs128_from(seed)),
                    },
                ),
            },
        }
    }
}

/// The fault for which an error stands.
pub open spec fn fault_of(error: Error) -> Fault {
    match error {
        Error::NoDate => Fault::Other,
        Error::NoCharacter => Fault::NoCharacter,
        Error::NoStarterMod => Fault::NoStarterMod,
        Error::NoGenericMod => Fault::NoGenericMod,
        Error::NoDifficultyMod => Fault::NoDifficultyMod,
        Error::NoSeedString => Fault::NoSeedString,
        Error::ParseSeed(_) => Fault::ParseSeed,
        Error::ParseCharacter(crate::character::Error::ParseCharacter(text)) => Fault::ParseCharacter(
            text@,
        ),
        Error::ParseDailyModifier(crate::daily::modifier::Error::ParseStarterMod(text)) => {
            Fault::ParseStarterMod(text@)
        },
        Error::ParseDailyModifier(crate::daily::modifier::Error::ParseGenericMod(text)) => {
            Fault::ParseGenericMod(text@)
        },
        Error::ParseDailyModifier(crate::daily::modifier::Error::ParseDifficultyMod(text)) => {
            Fault::ParseDifficultyMod(text@)
        },
        Error::ParseSeedString(fault) => Fault::ParseSeedString(fault),
        Error::InconsistentSeeds(seed, string) => Fault::InconsistentSeeds(seed.seed, string.seed@),
    }
}

/// An optional text as an owned text.
fn owned(text: Option<&str>) -> (r: Option<String>)
    ensures
        match r {
            Some(s) => text is Some && s@ == text->0@,
            None => text is None,
        },
{
    match text {
        Some(t) => Some(t.to_owned()),
        None => None,
    }
}

/// Whether the two hold the same thirteen bytes.
fn same_bytes(a: &[u8; 13], b: &[u8; 13]) -> (r: bool)
    ensures
        r == (a@ == b@),
{
    let mut i: usize = 0;
    while i < 13
        invariant
            i <= 13,
            forall|j: int| 0 <= j < i ==> a[j] == b[j],
        decreases 13 - i,
    {
        if a[i] != b[i] {
            return false;
        }
        i = i + 1;
    }
    assert(a@ =~= b@);
    true
}

/// The next field of what is left of a line, if anything is left; what is
/// left after it is kept in `rest`.
fn next_field<'a>(rest: &mut Option<&'a str>) -> (r: Option<&'a str>)
    ensures
        match *old(rest) {
            Some(text) => {
                &&& r is Some
                &&& r->0.spec_bytes() == head(text.spec_bytes())
                &&& match *final(rest) {
                    Some(after) => tail(text.spec_bytes()) == Some(after.spec_bytes()),
                    None => tail(text.spec_bytes()) is None,
                }
            },
            None => r is None && *final(rest) is None,
        },
{
    match *rest {
        Some(text) => {
            let (first, after) = split_field(text);
            *rest = after;
            Some(first)
        },
        None => None,
    }
}

/// What is left of a line after its first `index` fields.
pub open spec fn left_after(bytes: Seq<u8>, index: int) -> Option<Seq<u8>>
    decreases index,
{
    if index <= 0 {
        Some(bytes)
    } else {
        match left_after(bytes, index - 1) {
            Some(rest) => tail(rest),
            None => None,
        }
    }
}

/// The field with a given index is the first field of what is left after
/// the fields before it.
pub proof fn lemma_field(bytes: Seq<u8>, index: int)
    requires
        0 <= index,
    ensures
        field(bytes, index) == match left_after(bytes, index) {
            Some(rest) => Some(head(rest)),
            None => None,
        },
        index > 0 ==> left_after(bytes, index) == match tail(bytes) {
            Some(rest) => left_after(rest, index - 1),
            None => None,
        },
    decreases index,
{
    if index > 0 {
        lemma_field(bytes, index - 1);
        match tail(bytes) {
            Some(rest) => {
                lemma_field(rest, index - 1);
                if index > 1 {
                    lemma_field(rest, index - 2);
                }
            },
            None => {
                lemma_left_after_none(bytes, index - 1);
            },
        }
    }
}

/// Where nothing is left after the first field, nothing is left after any
/// later field.
pub proof fn lemma_left_after_none(bytes: Seq<u8>, index: int)
    requires
        0 <= index,
        tail(bytes) is None,
    ensures
        index >= 1 ==> left_after(bytes, index) is None,
    decreases index,
{
    reveal_with_fuel(left_after, 3);
    if index > 1 {
        lemma_left_after_none(bytes, index - 1);
    }
}

impl Daily {
    /// What the day's climb holds.
    pub open spec fn view(&self) -> DailyView {
        DailyView {
            date: self.date@,
            character: self.character,
            starter_mod: self.starter_mod,
            generic_mod: self.generic_mod,
            difficulty_mod: self.difficulty_mod,
            seed_string: self.seed_string.seed@,
            seed: self.seed.seed,
            no_combat_paths: match self.no_combat_paths {
                Some(text) => Some(text@),
                None => None,
            },
            no_combat_paths_ascension: match self.no_combat_paths_ascension {
                Some(text) => Some(text@),
                None => None,
            },
            neow_bonuses: self.neow_bonuses,
        }
    }

    /// The day's climb for which `s` stands. The fields are read in their
    /// order, and the first that is missing or cannot be read is the
    /// error.
    #[verifier::rlimit(60)]
    pub fn parse(s: &str) -> (r: Result<Self, Error>)
        ensures
            match r {
                Ok(daily) => parsed_daily(s.spec_bytes()) == Ok::<DailyView, Fault>(daily.view()),
                Err(error) => parsed_daily(s.spec_bytes()) == Err::<DailyView, Fault>(
                    fault_of(error),
                ),
            },
    {
        let ghost bytes = s.spec_bytes();
        proof {
            lemma_field(bytes, 0);
            lemma_field(bytes, 1);
            lemma_field(bytes, 2);
            lemma_field(bytes, 3);
            lemma_field(bytes, 4);
            lemma_field(bytes, 5);
            lemma_field(bytes, 6);
            lemma_field(bytes, 7);
            lemma_field(bytes, 8);
        }
        let mut rest: Option<&str> = Some(s);
        let date = match next_field(&mut rest) {
            Some(field) => field,
            None => {
                return Err(Error::NoDate);
            },
        };
        assert(date.spec_bytes() == field(bytes, 0)->0);
        assert(match rest {
            Some(after) => left_after(bytes, 1) == Some(after.spec_bytes()),
            None => left_after(bytes, 1) is None,
        });
        let character_text = match next_field(&mut rest) {
            Some(field) => field,
            None => {
                return Err(Error::NoCharacter);
            },
        };
        proof {
            vstd::utf8::encode_utf8_decode_utf8(character_text@);
        }
        assert(match rest {
            Some(after) => left_after(bytes, 2) == Some(after.spec_bytes()),
            None => left_after(bytes, 2) is None,
        });
        let character = match Character::parse(character_text) {
            Ok(character) => character,
            Err(error) => {
                return Err(Error::ParseCharacter(error));
            },
        };
        let starter_text = match next_field(&mut rest) {
            Some(field) => field,
            None => {
                return Err(Error::NoStarterMod);
            },
        };
        proof {
            vstd::utf8::encode_utf8_decode_utf8(starter_text@);
        }
        assert(match rest {
            Some(after) => left_after(bytes, 3) == Some(after.spec_bytes()),
            None => left_after(bytes, 3) is None,
        });
        let starter_mod = match StarterMod::parse(starter_text) {
            Ok(starter_mod) => starter_mod,
            Err(error) => {
                return Err(Error::ParseDailyModifier(error));
            },
        };
        let generic_text = match next_field(&mut rest) {
            Some(field) => field,
            None => {
                return Err(Error::NoGenericMod);
            },
        };
        proof {
            vstd::utf8::encode_utf8_decode_utf8(generic_text@);
        }
        assert(match rest {
            Some(after) => left_after(bytes, 4) == Some(after.spec_bytes()),
            None => left_after(bytes, 4) is None,
        });
        let generic_mod = match GenericMod::parse(generic_text) {
            Ok(generic_mod) => generic_mod,
            Err(error) => {
                return Err(Error::ParseDailyModifier(error));
            },
        };
        let difficulty_text = match next_field(&mut rest) {
            Some(field) => field,
            None => {
                return Err(Error::NoDifficultyMod);
            },
        };
        proof {
            vstd::utf8::encode_utf8_decode_utf8(difficulty_text@);
        }
        assert(match rest {
            Some(after) => left_after(bytes, 5) == Some(after.spec_bytes()),
            None => left_after(bytes, 5) is None,
        });
        let difficulty_mod = match DifficultyMod::parse(difficulty_text) {
            Ok(difficulty_mod) => difficulty_mod,
            Err(error) => {
                return Err(Error::ParseDailyModifier(error));
            },
        };
        let seed_text = match next_field(&mut rest) {
            Some(field) => field,
            None => {
                return Err(Error::NoSeedString);
            },
        };
        assert(match rest {
            Some(after) => left_after(bytes, 6) == Some(after.spec_bytes()),
            None => left_after(bytes, 6) is None,
        });
        let seed_string = match SeedString::parse(seed_text) {
            Ok(seed_string) => seed_string,
            Err(error) => {
                return Err(Error::ParseSeedString(error));
            },
        };
        let seed: Seed = match next_field(&mut rest) {
            Some(number) => {
                proof {
                    vstd::utf8::encode_utf8_decode_utf8(number@);
                }
                let seed = match parse_i64(number) {
                    Ok(seed) => Seed { seed },
                    Err(error) => {
                        return Err(Error::ParseSeed(error));
                    },
                };
                let other_seed_string = encode(seed);
                if !same_bytes(&seed_string.seed, &other_seed_string.seed) {
                    return Err(Error::InconsistentSeeds(seed, seed_string));
                }
                seed
            },
            None => decode(&seed_string.seed),
        };
        assert(match rest {
            Some(after) => left_after(bytes, 7) == Some(after.spec_bytes()),
            None => left_after(bytes, 7) is None,
        });
        let no_combat_paths = next_field(&mut rest);
        assert(match rest {
            Some(after) => left_after(bytes, 8) == Some(after.spec_bytes()),
            None => left_after(bytes, 8) is None,
        });
        let no_combat_paths_ascension = next_field(&mut rest);
        proof {
            vstd::utf8::encode_utf8_decode_utf8(date@);
            if no_combat_paths is Some {
                vstd::utf8::encode_utf8_decode_utf8(no_combat_paths->0@);
            }
            if no_combat_paths_ascension is Some {
                vstd::utf8::encode_utf8_decode_utf8(no_combat_paths_ascension->0@);
            }
        }
        let rng = Rng::from_seed(seed.seed);
        let neow_bonuses = NeowBonuses::generate(rng);
        Ok(
            Daily {
                date: date.to_owned(),
                character,
                starter_mod,
                generic_mod,
                difficulty_mod,
                seed_string,
                seed,
                no_combat_paths: owned(no_combat_paths),
                no_combat_paths_ascension: owned(no_combat_paths_ascension),
                neow_bonuses,
            },
        )
    }
}

impl std::str::FromStr for Daily {
    type Err = Error;

    fn from_str(s: &str) -> (r: Result<Self, Error>)
        ensures
            match r {
                Ok(daily) => parsed_daily(s.spec_bytes()) == Ok::<DailyView, Fault>(daily.view()),
                Err(error) => parsed_daily(s.spec_bytes()) == Err::<DailyView, Fault>(
                    fault_of(error),
                ),
            },
    {
        Daily::parse(s)
    }
}

} // verus!
