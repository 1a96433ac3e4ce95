//! The clans, two to each race.

use crate::text::{chars_of, same_text};
use vstd::prelude::*;

verus! {

/// The clan of a character: one of the two of its race.
#[derive(Clone, Copy, Debug, PartialEq, Eq, PartialOrd, Ord, Hash, Structural)]
pub enum Clan {
    Midlander,
    Highlander,
    Wildwood,
    Duskwight,
    Plainsfolk,
    Dunesfolk,
    SeekerOfTheSun,
    KeeperOfTheMoon,
    SeaWolf,
    Hellsguard,
    Raen,
    Xaela,
    Helions,
    TheLost,
    Rava,
    Veena,
}

impl Clan {
    /// The name of this clan as profiles show it.
    pub open spec fn name(self) -> Seq<char> {
        match self {
            Clan::Midlander => "Midlander"@,
            Clan::Highlander => "Highlander"@,
            Clan::Wildwood => "Wildwood"@,
            Clan::Duskwight => "Duskwight"@,
            Clan::Plainsfolk => "Plainsfolk"@,
            Clan::Dunesfolk => "Dunesfolk"@,
            Clan::SeekerOfTheSun => "Seeker of the Sun"@,
            Clan::KeeperOfTheMoon => "Keeper of the Moon"@,
            Clan::SeaWolf => "Sea Wolf"@,
            Clan::Hellsguard => "Hellsguard"@,
            Clan::Raen => "Raen"@,
            Clan::Xaela => "Xaela"@,
            Clan::Helions => "Helions"@,
            Clan::TheLost => "The Lost"@,
            Clan::Rava => "Rava"@,
            Clan::Veena => "Veena"@,
        }
    }

    /// The clan that profiles show as `text`, if any.
    pub open spec fn named(text: Seq<char>) -> Option<Clan> {
        if text == "Midlander"@ {
            Some(Clan::Midlander)
        } else if text == "Highlander"@ {
            Some(Clan::Highlander)
        } else if text == "Wildwood"@ {
            Some(Clan::Wildwood)
        } else if text == "Duskwight"@ {
            Some(Clan::Duskwight)
        } else if text == "Plainsfolk"@ {
            Some(Clan::Plainsfolk)
        } else if text == "Dunesfolk"@ {
            Some(Clan::Dunesfolk)
        } else if text == "Seeker of the Sun"@ {
            Some(Clan::SeekerOfTheSun)
        } else if text == "Keeper of the Moon"@ {
            Some(Clan::KeeperOfTheMoon)
        } else if text == "Sea Wolf"@ {
            Some(Clan::SeaWolf)
        } else if text == "Hellsguard"@ {
            Some(Clan::Hellsguard)
        } else if text == "Raen"@ {
            Some(Clan::Raen)
        } else if text == "Xaela"@ {
            Some(Clan::Xaela)
        } else if text == "Helions"@ {
            Some(Clan::Helions)
        } else if text == "The Lost"@ {
            Some(Clan::TheLost)
        } else if text == "Rava"@ {
            Some(Clan::Rava)
        } else if text == "Veena"@ {
            Some(Clan::Veena)
        } else {
            None
        }
    }

    /// The name of this clan as profiles show it.
    pub fn as_str(&self) -> (text: &'static str)
        ensures
            text@ == self.name(),
    {
        match self {
            Clan::Midlander => "Midlander",
            Clan::Highlander => "Highlander",
            Clan::Wildwood => "Wildwood",
            Clan::Duskwight => "Duskwight",
            Clan::Plainsfolk => "Plainsfolk",
            Clan::Dunesfolk => "Dunesfolk",
            Clan::SeekerOfTheSun => "Seeker of the Sun",
            Clan::KeeperOfTheMoon => "Keeper of the Moon",
            Clan::SeaWolf => "Sea Wolf",
            Clan::Hellsguard => "Hellsguard",
            Clan::Raen => "Raen",
            Clan::Xaela => "Xaela",
            Clan::Helions => "Helions",
            Clan::TheLost => "The Lost",
            Clan::Rava => "Rava",
            Clan::Veena => "Veena",
        }
    }

    /// Looks a clan up by its name, letter for letter.
    pub fn from_chars(text: &Vec<char>) -> (found: Option<Clan>)
        ensures
            found == Clan::named(text@),
    {
        if same_text(text, "Midlander") {
            Some(Clan::Midlander)
        } else if same_text(text, "Highlander") {
            Some(Clan::Highlander)
        } else if same_text(text, "Wildwood") {
            Some(Clan::Wildwood)
        } else if same_text(text, "Duskwight") {
            Some(Clan::Duskwight)
        } else if same_text(text, "Plainsfolk") {
            Some(Clan::Plainsfolk)
        } else if same_text(text, "Dunesfolk") {
            Some(Clan::Dunesfolk)
        } else if same_text(text, "Seeker of the Sun") {
            Some(Clan::SeekerOfTheSun)
        } else if same_text(text, "Keeper of the Moon") {
            Some(Clan::KeeperOfTheMoon)
        } else if same_text(text, "Sea Wolf") {
            Some(Clan::SeaWolf)
        } else if same_text(text, "Hellsguard") {
            Some(Clan::Hellsguard)
        } else if same_text(text, "Raen") {
            Some(Clan::Raen)
        } else if same_text(text, "Xaela") {
            Some(Clan::Xaela)
        } else if same_text(text, "Helions") {
            Some(Clan::Helions)
        } else if same_text(text, "The Lost") {
            Some(Clan::TheLost)
        } else if same_text(text, "Rava") {
            Some(Clan::Rava)
        } else if same_text(text, "Veena") {
            Some(Clan::Veena)
        } else {
            None
        }
    }

    /// Looks a clan up by its name, letter for letter.
    pub fn parse(text: &str) -> (found: Option<Clan>)
        ensures
            found == Clan::named(text@),
    {
        let chars = chars_of(text);
        Clan::from_chars(&chars)
    }

    /// Looking up the name of a value gives that value back.
    pub proof fn law_name_round_trip(value: Clan)
        ensures
            Clan::named(value.name()) == Some(value),
    {
        reveal_strlit("Midlander");
        reveal_strlit("Highlander");
        reveal_strlit("Wildwood");
        reveal_strlit("Duskwight");
        reveal_strlit("Plainsfolk");
        reveal_strlit("Dunesfolk");
        reveal_strlit("Seeker of the Sun");
        reveal_strlit("Keeper of the Moon");
        reveal_strlit("Sea Wolf");
        reveal_strlit("Hellsguard");
        reveal_strlit("Raen");
        reveal_strlit("Xaela");
        reveal_strlit("Helions");
        reveal_strlit("The Lost");
        reveal_strlit("Rava");
        reveal_strlit("Veena");
        assert("Midlander"@.len() == 9 && "Midlander"@[0] == 'M' && "Midlander"@[2] == 'd');
        assert("Highlander"@.len() == 10 && "Highlander"@[0] == 'H' && "Highlander"@[2] == 'g');
        assert("Wildwood"@.len() == 8 && "Wildwood"@[0] == 'W' && "Wildwood"@[2] == 'l');
        assert("Duskwight"@.len() == 9 && "Duskwight"@[0] == 'D' && "Duskwight"@[2] == 's');
        assert("Plainsfolk"@.len() == 10 && "Plainsfolk"@[0] == 'P' && "Plainsfolk"@[2] == 'a');
        assert("Dunesfolk"@.len() == 9 && "Dunesfolk"@[0] == 'D' && "Dunesfolk"@[2] == 'n');
        assert("Seeker of the Sun"@.len() == 17 && "Seeker of the Sun"@[0] == 'S'
            && "Seeker of the Sun"@[2] == 'e');
        assert("Keeper of the Moon"@.len() == 18 && "Keeper of the Moon"@[0] == 'K'
            && "Keeper of the Moon"@[2] == 'e');
        assert("Sea Wolf"@.len() == 8 && "Sea Wolf"@[0] == 'S' && "Sea Wolf"@[2] == 'a');
        assert("Hellsguard"@.len() == 10 && "Hellsguard"@[0] == 'H' && "Hellsguard"@[2] == 'l');
        assert("Raen"@.len() == 4 && "Raen"@[0] == 'R' && "Raen"@[2] == 'e');
        assert("Xaela"@.len() == 5 && "Xaela"@[0] == 'X' && "Xaela"@[2] == 'e');
        assert("Helions"@.len() == 7 && "Helions"@[0] == 'H' && "Helions"@[2] == 'l');
        assert("The Lost"@.len() == 8 && "The Lost"@[0] == 'T' && "The Lost"@[2] == 'e');
        assert("Rava"@.len() == 4 && "Rava"@[0] == 'R' && "Rava"@[2] == 'v');
        assert("Veena"@.len() == 5 && "Veena"@[0] == 'V' && "Veena"@[2] == 'e');
    }

    /// A text is accepted only if it is the name of the value found, so every
    /// other text is rejected.
    pub proof fn law_named_only(text: Seq<char>)
        ensures
            match Clan::named(text) {
                Some(value) => value.name() == text,
                None => forall|value: Clan| value.name() != text,
            },
    {
    }
}

} // verus!
