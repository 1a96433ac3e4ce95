//! The races of characters.

use crate::text::{chars_of, same_text};
use vstd::prelude::*;

verus! {

/// The race of a character.
#[derive(Clone, Copy, Debug, PartialEq, Eq, PartialOrd, Ord, Hash, Structural)]
pub enum Race {
    Hyur,
    Elezen,
    Lalafell,
    Miqote,
    Roegadyn,
    Aura,
    Hrothgar,
    Viera,
}

impl Race {
    /// The name of this race as profiles show it.
    pub open spec fn name(self) -> Seq<char> {
        match self {
            Race::Hyur => "Hyur"@,
            Race::Elezen => "Elezen"@,
            Race::Lalafell => "Lalafell"@,
            Race::Miqote => "Miqo'te"@,
            Race::Roegadyn => "Roegadyn"@,
            Race::Aura => "Au Ra"@,
            Race::Hrothgar => "Hrothgar"@,
            Race::Viera => "Viera"@,
        }
    }

    /// The race that profiles show as `text`, if any.
    pub open spec fn named(text: Seq<char>) -> Option<Race> {
        if text == "Hyur"@ {
            Some(Race::Hyur)
        } else if text == "Elezen"@ {
            Some(Race::Elezen)
        } else if text == "Lalafell"@ {
            Some(Race::Lalafell)
        } else if text == "Miqo'te"@ {
            Some(Race::Miqote)
        } else if text == "Roegadyn"@ {
            Some(Race::Roegadyn)
        } else if text == "Au Ra"@ {
            Some(Race::Aura)
        } else if text == "Hrothgar"@ {
            Some(Race::Hrothgar)
        } else if text == "Viera"@ {
            Some(Race::Viera)
        } else {
            None
        }
    }

    /// The name of this race as profiles show it.
    pub fn as_str(&self) -> (text: &'static str)
        ensures
            text@ == self.name(),
    {
        match self {
            Race::Hyur => "Hyur",
            Race::Elezen => "Elezen",
            Race::Lalafell => "Lalafell",
            Race::Miqote => "Miqo'te",
            Race::Roegadyn => "Roegadyn",
            Race::Aura => "Au Ra",
            Race::Hrothgar => "Hrothgar",
            Race::Viera => "Viera",
        }
    }

    /// Looks a race up by its name, letter for letter.
    pub fn from_chars(text: &Vec<char>) -> (found: Option<Race>)
        ensures
            found == Race::named(text@),
    {
        if same_text(text, "Hyur") {
            Some(Race::Hyur)
        } else if same_text(text, "Elezen") {
            Some(Race::Elezen)
        } else if same_text(text, "Lalafell") {
            Some(Race::Lalafell)
        } else if same_text(text, "Miqo'te") {
            Some(Race::Miqote)
        } else if same_text(text, "Roegadyn") {
            Some(Race::Roegadyn)
        } else if same_text(text, "Au Ra") {
            Some(Race::Aura)
        } else if same_text(text, "Hrothgar") {
            Some(Race::Hrothgar)
        } else if same_text(text, "Viera") {
            Some(Race::Viera)
        } else {
            None
        }
    }

    /// Looks a race up by its name, letter for letter.
    pub fn parse(text: &str) -> (found: Option<Race>)
        ensures
            found == Race::named(text@),
    {
        let chars = chars_of(text);
        Race::from_chars(&chars)
    }

    /// Looking up the name of a value gives that value back.
    pub proof fn law_name_round_trip(value: Race)
        ensures
            Race::named(value.name()) == Some(value),
    {
        reveal_strlit("Hyur");
        reveal_strlit("Elezen");
        reveal_strlit("Lalafell");
        reveal_strlit("Miqo'te");
        reveal_strlit("Roegadyn");
        reveal_strlit("Au Ra");
        reveal_strlit("Hrothgar");
        reveal_strlit("Viera");
        assert("Hyur"@.len() == 4 && "Hyur"@[0] == 'H');
        assert("Elezen"@.len() == 6 && "Elezen"@[0] == 'E');
        assert("Lalafell"@.len() == 8 && "Lalafell"@[0] == 'L');
        assert("Miqo'te"@.len() == 7 && "Miqo'te"@[0] == 'M');
        assert("Roegadyn"@.len() == 8 && "Roegadyn"@[0] == 'R');
        assert("Au Ra"@.len() == 5 && "Au Ra"@[0] == 'A');
        assert("Hrothgar"@.len() == 8 && "Hrothgar"@[0] == 'H');
        assert("Viera"@.len() == 5 && "Viera"@[0] == 'V');
    }

    /// A text is accepted only if it is the name of the value found, so every
    /// other text is rejected.
    pub proof fn law_named_only(text: Seq<char>)
        ensures
            match Race::named(text) {
                Some(value) => value.name() == text,
                None => forall|value: Race| value.name() != text,
            },
    {
    }
}

} // verus!
