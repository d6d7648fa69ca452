//! The three modifiers of a daily climb.

use vstd::prelude::*;
use crate::character::same_text;

verus! {

/// The modifier of the first deck.
#[derive(Debug, PartialEq, Eq, Clone, Copy, Structural)]
pub enum StarterMod {
    Insanity,
    Heirloom,
    Draft,
    Specialized,
    Chimera,
    SealedDeck,
    AllStar,
}

/// The modifier of the cards and relics on offer.
#[derive(Debug, PartialEq, Eq, Clone, Copy, Structural)]
pub enum GenericMod {
    PurpleCards,
    Flight,
    BlueCards,
    ColorlessCards,
    RedCards,
    GreenCards,
    Vintage,
    Hoarder,
    ControlledChaos,
}

/// The modifier that makes the climb harder.
#[derive(Debug, PartialEq, Eq, Clone, Copy, Structural)]
pub enum DifficultyMod {
    DeadlyEvents,
    Midas,
    Terminal,
    Lethality,
    NightTerrors,
}

/// Why a text names no modifier: the text itself, by the kind of modifier
/// that was looked for.
#[derive(Debug)]
pub enum Error {
    ParseStarterMod(String),
    ParseGenericMod(String),
    ParseDifficultyMod(String),
}

/// The modifier of the first deck that a text names.
pub open spec fn named_starter_mod(text: Seq<char>) -> Option<StarterMod> {
    if text == "Insanity"@ {
        Some(StarterMod::Insanity)
    } else if text == "Heirloom"@ {
        Some(StarterMod::Heirloom)
    } else if text == "Draft"@ {
        Some(StarterMod::Draft)
    } else if text == "Specialized"@ {
        Some(StarterMod::Specialized)
    } else if text == "Chimera"@ {
        Some(StarterMod::Chimera)
    } else if text == "SealedDeck"@ {
        Some(StarterMod::SealedDeck)
    } else if text == "Allstar"@ {
        Some(StarterMod::AllStar)
    } else {
        None
    }
}

/// The modifier of the offers that a text names.
pub open spec fn named_generic_mod(text: Seq<char>) -> Option<GenericMod> {
    if text == "Purple Cards"@ {
        Some(GenericMod::PurpleCards)
    } else if text == "Flight"@ {
        Some(GenericMod::Flight)
    } else if text == "Blue Cards"@ {
        Some(GenericMod::BlueCards)
    } else if text == "Colorless Cards"@ {
        Some(GenericMod::ColorlessCards)
    } else if text == "Red Cards"@ {
        Some(GenericMod::RedCards)
    } else if text == "Green Cards"@ {
        Some(GenericMod::GreenCards)
    } else if text == "Vintage"@ {
        Some(GenericMod::Vintage)
    } else if text == "Hoarder"@ {
        Some(GenericMod::Hoarder)
    } else if text == "ControlledChaos"@ {
        Some(GenericMod::ControlledChaos)
    } else {
        None
    }
}

/// The modifier of the difficulty that a text names.
pub open spec fn named_difficulty_mod(text: Seq<char>) -> Option<DifficultyMod> {
    if text == "DeadlyEvents"@ {
        Some(DifficultyMod::DeadlyEvents)
    } else if text == "Midas"@ {
        Some(DifficultyMod::Midas)
    } else if text == "Terminal"@ {
        Some(DifficultyMod::Terminal)
    } else if text == "Lethality"@ {
        Some(DifficultyMod::Lethality)
    } else if text == "Night Terrors"@ {
        Some(DifficultyMod::NightTerrors)
    } else {
        None
    }
}

impl StarterMod {
    /// The modifier that `s` names; the text itself as the error where it
    /// names none.
    pub fn parse(s: &str) -> (r: Result<Self, Error>)
        ensures
            match r {
                Ok(m) => named_starter_mod(s@) == Some(m),
                Err(Error::ParseStarterMod(text)) => named_starter_mod(s@) is None && text@ == s@,
                Err(_) => false,
            },
    {
        if same_text(s, "Insanity") {
            Ok(StarterMod::Insanity)
        } else if same_text(s, "Heirloom") {
            Ok(StarterMod::Heirloom)
        } else if same_text(s, "Draft") {
            Ok(StarterMod::Draft)
        } else if same_text(s, "Specialized") {
            Ok(StarterMod::Specialized)
        } else if same_text(s, "Chimera") {
            Ok(StarterMod::Chimera)
        } else if same_text(s, "SealedDeck") {
            Ok(StarterMod::SealedDeck)
        } else if same_text(s, "Allstar") {
            Ok(StarterMod::AllStar)
        } else {
            Err(Error::ParseStarterMod(s.to_owned()))
        }
    }
}

impl GenericMod {
    /// The modifier that `s` names; the text itself as the error where it
    /// names none.
    pub fn parse(s: &str) -> (r: Result<Self, Error>)
        ensures
            match r {
                Ok(m) => named_generic_mod(s@) == Some(m),
                Err(Error::ParseGenericMod(text)) => named_generic_mod(s@) is None && text@ == s@,
                Err(_) => false,
            },
    {
        if same_text(s, "Purple Cards") {
            Ok(GenericMod::PurpleCards)
        } else if same_text(s, "Flight") {
            Ok(GenericMod::Flight)
        } else if same_text(s, "Blue Cards") {
            Ok(GenericMod::BlueCards)
        } else if same_text(s, "Colorless Cards") {
            Ok(GenericMod::ColorlessCards)
        } else if same_text(s, "Red Cards") {
            Ok(GenericMod::RedCards)
        } else if same_text(s, "Green Cards") {
            Ok(GenericMod::GreenCards)
        } else if same_text(s, "Vintage") {
            Ok(GenericMod::Vintage)
        } else if same_text(s, "Hoarder") {
            Ok(GenericMod::Hoarder)
        } else if same_text(s, "ControlledChaos") {
            Ok(GenericMod::ControlledChaos)
        } else {
            Err(Error::ParseGenericMod(s.to_owned()))
        }
    }
}

impl DifficultyMod {
    /// The modifier that `s` names; the text itself as the error where it
    /// names none.
    pub fn parse(s: &str) -> (r: Result<Self, Error>)
        ensures
            match r {
                Ok(m) => named_difficulty_mod(s@) == Some(m),
                Err(Error::ParseDifficultyMod(text)) => named_difficulty_mod(s@) is None && text@
                    == s@,
                Err(_) => false,
            },
    {
        if same_text(s, "DeadlyEvents") {
            Ok(DifficultyMod::DeadlyEvents)
        } else if same_text(s, "Midas") {
            Ok(DifficultyMod::Midas)
        } else if same_text(s, "Terminal") {
            Ok(DifficultyMod::Terminal)
        } else if same_text(s, "Lethality") {
            Ok(DifficultyMod::Lethality)
        } else if same_text(s, "Night Terrors") {
            Ok(DifficultyMod::NightTerrors)
        } else {
            Err(Error::ParseDifficultyMod(s.to_owned()))
        }
    }
}

impl std::str::FromStr for StarterMod {
    type Err = Error;

    fn from_str(s: &str) -> (r: Result<Self, Error>)
        ensures
            match r {
                Ok(m) => named_starter_mod(s@) == Some(m),
                Err(Error::ParseStarterMod(text)) => named_starter_mod(s@) is None && text@ == s@,
                Err(_) => false,
            },
    {
        StarterMod::parse(s)
    }
}

impl std::str::FromStr for GenericMod {
    type Err = Error;

    fn from_str(s: &str) -> (r: Result<Self, Error>)
        ensures
            match r {
                Ok(m) => named_generic_mod(s@) == Some(m),
                Err(Error::ParseGenericMod(text)) => named_generic_mod(s@) is None && text@ == s@,
                Err(_) => false,
            },
    {
        GenericMod::parse(s)
    }
}

impl std::str::FromStr for DifficultyMod {
    type Err = Error;

    fn from_str(s: &str) -> (r: Result<Self, Error>)
        ensures
            match r {
                Ok(m) => named_difficulty_mod(s@) == Some(m),
                Err(Error::ParseDifficultyMod(text)) => named_difficulty_mod(s@) is None && text@ == s@,
                Err(_) => false,
            },
    {
        DifficultyMod::parse(s)
    }
}

} // verus!
