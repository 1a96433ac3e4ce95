//! The languages by which a search can filter.

use crate::text::{chars_of, same_text};
use vstd::prelude::*;

verus! {

/// A language that a character's player writes in.
#[derive(Clone, Copy, Debug, PartialEq, Eq, PartialOrd, Ord, Hash, Structural)]
pub enum Language {
    Japanese,
    English,
    German,
    French,
}

impl Language {
    /// The code of this language in a query.
    pub open spec fn code(self) -> Seq<char> {
        match self {
            Language::Japanese => "ja"@,
            Language::English => "en"@,
            Language::German => "de"@,
            Language::French => "fr"@,
        }
    }

    /// The language with the code `text`, if any.
    pub open spec fn coded(text: Seq<char>) -> Option<Language> {
        if text == "ja"@ {
            Some(Language::Japanese)
        } else if text == "en"@ {
            Some(Language::English)
        } else if text == "de"@ {
            Some(Language::German)
        } else if text == "fr"@ {
            Some(Language::French)
        } else {
            None
        }
    }

    /// The code of this language in a query.
    pub fn as_str(&self) -> (text: &'static str)
        ensures
            text@ == self.code(),
    {
        match self {
            Language::Japanese => "ja",
            Language::English => "en",
            Language::German => "de",
            Language::French => "fr",
        }
    }

    /// Looks a language up by its code.
    pub fn from_chars(text: &Vec<char>) -> (found: Option<Language>)
        ensures
            found == Language::coded(text@),
    {
        if same_text(text, "ja") {
            Some(Language::Japanese)
        } else if same_text(text, "en") {
            Some(Language::English)
        } else if same_text(text, "de") {
            Some(Language::German)
        } else if same_text(text, "fr") {
            Some(Language::French)
        } else {
            None
        }
    }

    /// Looks a language up by its code.
    pub fn parse(text: &str) -> (found: Option<Language>)
        ensures
            found == Language::coded(text@),
    {
        let chars = chars_of(text);
        Language::from_chars(&chars)
    }

    /// Looking up the code of a value gives that value back.
    pub proof fn law_code_round_trip(value: Language)
        ensures
            Language::coded(value.code()) == Some(value),
    {
        reveal_strlit("ja");
        reveal_strlit("en");
        reveal_strlit("de");
        reveal_strlit("fr");
        assert("ja"@.len() == 2 && "ja"@[0] == 'j');
        assert("en"@.len() == 2 && "en"@[0] == 'e');
        assert("de"@.len() == 2 && "de"@[0] == 'd');
        assert("fr"@.len() == 2 && "fr"@[0] == 'f');
    }

    /// A text is accepted only if it is the code of the value found, so every
    /// other text is rejected.
    pub proof fn law_coded_only(text: Seq<char>)
        ensures
            match Language::coded(text) {
                Some(value) => value.code() == text,
                None => forall|value: Language| value.code() != text,
            },
    {
    }
}

} // verus!
