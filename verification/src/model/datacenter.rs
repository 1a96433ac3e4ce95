//! The data centers, each a group of worlds.

use crate::text::{chars_of, same_text};
use vstd::prelude::*;

verus! {

/// A data center: a group of worlds.
#[derive(Clone, Copy, Debug, PartialEq, Eq, PartialOrd, Ord, Hash, Structural)]
pub enum Datacenter {
    Aether,
    Chaos,
    Crystal,
    Dynamis,
    Elemental,
    Gaia,
    Light,
    Mana,
    Materia,
    Meteor,
    Primal,
}

impl Datacenter {
    /// The name under which the directory lists this data center.
    pub open spec fn name(self) -> Seq<char> {
        match self {
            Datacenter::Aether => "Aether"@,
            Datacenter::Chaos => "Chaos"@,
            Datacenter::Crystal => "Crystal"@,
            Datacenter::Dynamis => "Dynamis"@,
            Datacenter::Elemental => "Elemental"@,
            Datacenter::Gaia => "Gaia"@,
            Datacenter::Light => "Light"@,
            Datacenter::Mana => "Mana"@,
            Datacenter::Materia => "Materia"@,
            Datacenter::Meteor => "Meteor"@,
            Datacenter::Primal => "Primal"@,
        }
    }

    /// The data center that the directory lists under `text`, if any.
    pub open spec fn named(text: Seq<char>) -> Option<Datacenter> {
        if text == "Aether"@ {
            Some(Datacenter::Aether)
        } else if text == "Chaos"@ {
            Some(Datacenter::Chaos)
        } else if text == "Crystal"@ {
            Some(Datacenter::Crystal)
        } else if text == "Dynamis"@ {
            Some(Datacenter::Dynamis)
        } else if text == "Elemental"@ {
            Some(Datacenter::Elemental)
        } else if text == "Gaia"@ {
            Some(Datacenter::Gaia)
        } else if text == "Light"@ {
            Some(Datacenter::Light)
        } else if text == "Mana"@ {
            Some(Datacenter::Mana)
        } else if text == "Materia"@ {
            Some(Datacenter::Materia)
        } else if text == "Meteor"@ {
            Some(Datacenter::Meteor)
        } else if text == "Primal"@ {
            Some(Datacenter::Primal)
        } else {
            None
        }
    }

    /// The name under which the directory lists this data center.
    pub fn as_str(&self) -> (text: &'static str)
        ensures
            text@ == self.name(),
    {
        match self {
            Datacenter::Aether => "Aether",
            Datacenter::Chaos => "Chaos",
            Datacenter::Crystal => "Crystal",
            Datacenter::Dynamis => "Dynamis",
            Datacenter::Elemental => "Elemental",
            Datacenter::Gaia => "Gaia",
            Datacenter::Light => "Light",
            Datacenter::Mana => "Mana",
            Datacenter::Materia => "Materia",
            Datacenter::Meteor => "Meteor",
            Datacenter::Primal => "Primal",
        }
    }

    /// Looks a data center up by its name, letter for letter.
    pub fn from_chars(text: &Vec<char>) -> (found: Option<Datacenter>)
        ensures
            found == Datacenter::named(text@),
    {
        if same_text(text, "Aether") {
            Some(Datacenter::Aether)
        } else if same_text(text, "Chaos") {
            Some(Datacenter::Chaos)
        } else if same_text(text, "Crystal") {
            Some(Datacenter::Crystal)
        } else if same_text(text, "Dynamis") {
            Some(Datacenter::Dynamis)
        } else if same_text(text, "Elemental") {
            Some(Datacenter::Elemental)
        } else if same_text(text, "Gaia") {
            Some(Datacenter::Gaia)
        } else if same_text(text, "Light") {
            Some(Datacenter::Light)
        } else if same_text(text, "Mana") {
            Some(Datacenter::Mana)
        } else if same_text(text, "Materia") {
            Some(Datacenter::Materia)
        } else if same_text(text, "Meteor") {
            Some(Datacenter::Meteor)
        } else if same_text(text, "Primal") {
            Some(Datacenter::Primal)
        } else {
            None
        }
    }

    /// Looks a data center up by its name, letter for letter.
    pub fn parse(text: &str) -> (found: Option<Datacenter>)
        ensures
            found == Datacenter::named(text@),
    {
        let chars = chars_of(text);
        Datacenter::from_chars(&chars)
    }

    /// Looking up the name of a value gives that value back.
    pub proof fn law_name_round_trip(value: Datacenter)
        ensures
            Datacenter::named(value.name()) == Some(value),
    {
        reveal_strlit("Aether");
        reveal_strlit("Chaos");
        reveal_strlit("Crystal");
        reveal_strlit("Dynamis");
        reveal_strlit("Elemental");
        reveal_strlit("Gaia");
        reveal_strlit("Light");
        reveal_strlit("Mana");
        reveal_strlit("Materia");
        reveal_strlit("Meteor");
        reveal_strlit("Primal");
        assert("Aether"@.len() == 6 && "Aether"@[0] == 'A');
        assert("Chaos"@.len() == 5 && "Chaos"@[0] == 'C');
        assert("Crystal"@.len() == 7 && "Crystal"@[0] == 'C');
        assert("Dynamis"@.len() == 7 && "Dynamis"@[0] == 'D');
        assert("Elemental"@.len() == 9 && "Elemental"@[0] == 'E');
        assert("Gaia"@.len() == 4 && "Gaia"@[0] == 'G');
        assert("Light"@.len() == 5 && "Light"@[0] == 'L');
        assert("Mana"@.len() == 4 && "Mana"@[0] == 'M');
        assert("Materia"@.len() == 7 && "Materia"@[0] == 'M');
        assert("Meteor"@.len() == 6 && "Meteor"@[0] == 'M');
        assert("Primal"@.len() == 6 && "Primal"@[0] == 'P');
    }

    /// A text is accepted only if it is the name of the value found, so every
    /// other text is rejected.
    pub proof fn law_named_only(text: Seq<char>)
        ensures
            match Datacenter::named(text) {
                Some(value) => value.name() == text,
                None => forall|value: Datacenter| value.name() != text,
            },
    {
    }
}

} // verus!
