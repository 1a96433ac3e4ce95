//! The genders of characters.

use crate::text::{chars_of, same_text};
use vstd::prelude::*;

verus! {

/// The gender of a character.
#[derive(Clone, Copy, Debug, PartialEq, Eq, PartialOrd, Ord, Hash, Structural)]
pub enum Gender {
    Male,
    Female,
}

impl Gender {
    /// The sign with which profiles show this gender.
    pub open spec fn sign(self) -> Seq<char> {
        match self {
            Gender::Male => "♂"@,
            Gender::Female => "♀"@,
        }
    }

    /// The gender that profiles show with the sign `text`, if any.
    pub open spec fn signed(text: Seq<char>) -> Option<Gender> {
        if text == "♂"@ {
            Some(Gender::Male)
        } else if text == "♀"@ {
            Some(Gender::Female)
        } else {
            None
        }
    }

    /// The sign with which profiles show this gender.
    pub fn as_str(&self) -> (text: &'static str)
        ensures
            text@ == self.sign(),
    {
        match self {
            Gender::Male => "♂",
            Gender::Female => "♀",
        }
    }

    /// Looks a gender up by its sign.
    pub fn from_chars(text: &Vec<char>) -> (found: Option<Gender>)
        ensures
            found == Gender::signed(text@),
    {
        if same_text(text, "♂") {
            Some(Gender::Male)
        } else if same_text(text, "♀") {
            Some(Gender::Female)
        } else {
            None
        }
    }

    /// Looks a gender up by its sign.
    pub fn parse(text: &str) -> (found: Option<Gender>)
        ensures
            found == Gender::signed(text@),
    {
        let chars = chars_of(text);
        Gender::from_chars(&chars)
    }

    /// Looking up the sign of a value gives that value back.
    pub proof fn law_sign_round_trip(value: Gender)
        ensures
            Gender::signed(value.sign()) == Some(value),
    {
        reveal_strlit("♂");
        reveal_strlit("♀");
        assert("♂"@.len() == 1 && "♂"@[0] == '♂');
        assert("♀"@.len() == 1 && "♀"@[0] == '♀');
    }

    /// A text is accepted only if it is the sign of the value found, so every
    /// other text is rejected.
    pub proof fn law_signed_only(text: Seq<char>)
        ensures
            match Gender::signed(text) {
                Some(value) => value.sign() == text,
                None => forall|value: Gender| value.sign() != text,
            },
    {
    }
}

} // verus!
