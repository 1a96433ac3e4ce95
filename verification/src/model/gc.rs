//! The grand companies by which a search can filter.

use crate::text::{chars_of, same_text};
use vstd::prelude::*;

verus! {

/// A grand company, or none.
#[derive(Clone, Copy, Debug, PartialEq, Eq, PartialOrd, Ord, Hash, Structural)]
pub enum GrandCompany {
    Unaffiliated,
    Maelstrom,
    TwinAdder,
    ImmortalFlames,
}

impl GrandCompany {
    /// The name of this company.
    pub open spec fn name(self) -> Seq<char> {
        match self {
            GrandCompany::Unaffiliated => "Unaffiliated"@,
            GrandCompany::Maelstrom => "Maelstrom"@,
            GrandCompany::TwinAdder => "Order of the Twin Adder"@,
            GrandCompany::ImmortalFlames => "Immortal Flames"@,
        }
    }

    /// The company named `text`, if any.
    pub open spec fn named(text: Seq<char>) -> Option<GrandCompany> {
        if text == "Unaffiliated"@ {
            Some(GrandCompany::Unaffiliated)
        } else if text == "Maelstrom"@ {
            Some(GrandCompany::Maelstrom)
        } else if text == "Order of the Twin Adder"@ {
            Some(GrandCompany::TwinAdder)
        } else if text == "Immortal Flames"@ {
            Some(GrandCompany::ImmortalFlames)
        } else {
            None
        }
    }

    /// The name of this company.
    pub fn as_str(&self) -> (text: &'static str)
        ensures
            text@ == self.name(),
    {
        match self {
            GrandCompany::Unaffiliated => "Unaffiliated",
            GrandCompany::Maelstrom => "Maelstrom",
            GrandCompany::TwinAdder => "Order of the Twin Adder",
            GrandCompany::ImmortalFlames => "Immortal Flames",
        }
    }

    /// Looks a company up by its name, letter for letter.
    pub fn from_chars(text: &Vec<char>) -> (found: Option<GrandCompany>)
        ensures
            found == GrandCompany::named(text@),
    {
        if same_text(text, "Unaffiliated") {
            Some(GrandCompany::Unaffiliated)
        } else if same_text(text, "Maelstrom") {
            Some(GrandCompany::Maelstrom)
        } else if same_text(text, "Order of the Twin Adder") {
            Some(GrandCompany::TwinAdder)
        } else if same_text(text, "Immortal Flames") {
            Some(GrandCompany::ImmortalFlames)
        } else {
            None
        }
    }

    /// Looks a company up by its name, letter for letter.
    pub fn parse(text: &str) -> (found: Option<GrandCompany>)
        ensures
            found == GrandCompany::named(text@),
    {
        let chars = chars_of(text);
        GrandCompany::from_chars(&chars)
    }

    /// Looking up the name of a value gives that value back.
    pub proof fn law_name_round_trip(value: GrandCompany)
        ensures
            GrandCompany::named(value.name()) == Some(value),
    {
        reveal_strlit("Unaffiliated");
        reveal_strlit("Maelstrom");
        reveal_strlit("Order of the Twin Adder");
        reveal_strlit("Immortal Flames");
        assert("Unaffiliated"@.len() == 12);
        assert("Maelstrom"@.len() == 9);
        assert("Order of the Twin Adder"@.len() == 23);
        assert("Immortal Flames"@.len() == 15);
    }

    /// A text is accepted only if it is the name of the value found, so every
    /// other text is rejected.
    pub proof fn law_named_only(text: Seq<char>)
        ensures
            match GrandCompany::named(text) {
                Some(value) => value.name() == text,
                None => forall|value: GrandCompany| value.name() != text,
            },
    {
    }

    /// The number of this company in a query.
    pub open spec fn id(self) -> Seq<char> {
        match self {
            GrandCompany::Unaffiliated => "0"@,
            GrandCompany::Maelstrom => "1"@,
            GrandCompany::TwinAdder => "2"@,
            GrandCompany::ImmortalFlames => "3"@,
        }
    }

    /// The number of this company in a query.
    pub fn id_str(&self) -> (text: &'static str)
        ensures
            text@ == self.id(),
    {
        match self {
            GrandCompany::Unaffiliated => "0",
            GrandCompany::Maelstrom => "1",
            GrandCompany::TwinAdder => "2",
            GrandCompany::ImmortalFlames => "3",
        }
    }
}

} // verus!
