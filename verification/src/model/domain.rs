//! The regional sites of the directory.

use crate::text::{chars_of, same_text};
use std::str::FromStr;
use vstd::prelude::*;
use vstd::string::StringExecFns;

verus! {

/// The text that was offered as a domain code and is none.
#[derive(Clone, Debug)]
pub struct DomainParseError(String);

impl DomainParseError {
    /// The rejected text.
    pub closed spec fn text(&self) -> Seq<char> {
        self.0@
    }

    /// The rejected text.
    pub fn input(&self) -> (s: &str)
        ensures
            s@ == self.text(),
    {
        self.0.as_str()
    }

    /// A sentence that names the rejected text.
    pub fn message(&self) -> (s: String)
        ensures
            s@ == "Invalid domain string '"@ + self.text() + "'"@,
    {
        let mut s = "Invalid domain string '".to_owned();
        s.append(self.0.as_str());
        s.append("'");
        s
    }
}

/// A regional site of the directory.
#[derive(Clone, Copy, Debug, PartialEq, Eq, PartialOrd, Ord, Hash, Structural)]
pub enum Domain {
    Japan,
    NorthAmerica,
    Europe,
    France,
    Germany,
}

impl Domain {
    /// The code of this domain in a host name.
    pub open spec fn code(self) -> Seq<char> {
        match self {
            Domain::Japan => "jp"@,
            Domain::NorthAmerica => "na"@,
            Domain::Europe => "eu"@,
            Domain::France => "fr"@,
            Domain::Germany => "de"@,
        }
    }

    /// The domain that `code` stands for, if any.
    pub open spec fn decoded(code: Seq<char>) -> Option<Domain> {
        if code == "jp"@ {
            Some(Domain::Japan)
        } else if code == "na"@ {
            Some(Domain::NorthAmerica)
        } else if code == "eu"@ {
            Some(Domain::Europe)
        } else if code == "fr"@ {
            Some(Domain::France)
        } else if code == "de"@ {
            Some(Domain::Germany)
        } else {
            None
        }
    }

    /// The code of this domain in a host name.
    pub fn to_string(&self) -> (code: &'static str)
        ensures
            code@ == self.code(),
    {
        match self {
            Domain::Japan => "jp",
            Domain::NorthAmerica => "na",
            Domain::Europe => "eu",
            Domain::France => "fr",
            Domain::Germany => "de",
        }
    }

    /// Decodes a domain code. Any text but the five codes is handed back in
    /// the error.
    pub fn parse(code: &str) -> (decoded: Result<Domain, DomainParseError>)
        ensures
            match decoded {
                Ok(domain) => Domain::decoded(code@) == Some(domain),
                Err(e) => Domain::decoded(code@) is None && e.text() == code@,
            },
    {
        let chars = chars_of(code);
        if same_text(&chars, "jp") {
            Ok(Domain::Japan)
        } else if same_text(&chars, "na") {
            Ok(Domain::NorthAmerica)
        } else if same_text(&chars, "eu") {
            Ok(Domain::Europe)
        } else if same_text(&chars, "fr") {
            Ok(Domain::France)
        } else if same_text(&chars, "de") {
            Ok(Domain::Germany)
        } else {
            Err(DomainParseError(code.to_owned()))
        }
    }

    /// Decoding the code of a domain gives that domain back.
    pub proof fn law_code_round_trip(domain: Domain)
        ensures
            Domain::decoded(domain.code()) == Some(domain),
    {
        reveal_strlit("jp");
        reveal_strlit("na");
        reveal_strlit("eu");
        reveal_strlit("fr");
        reveal_strlit("de");
        assert("jp"@[0] == 'j');
        assert("na"@[0] == 'n');
        assert("eu"@[0] == 'e');
        assert("fr"@[0] == 'f');
        assert("de"@[0] == 'd');
    }

    /// A text decodes to a domain only if it is that domain's code, so every
    /// text that is none of the five codes is rejected.
    pub proof fn law_decoded_only_codes(code: Seq<char>)
        ensures
            match Domain::decoded(code) {
                Some(domain) => domain.code() == code,
                None => forall|domain: Domain| domain.code() != code,
            },
    {
    }
}

impl FromStr for Domain {
    type Err = DomainParseError;

    /// Decodes a domain code, as `Domain::parse` does.
    fn from_str(s: &str) -> (decoded: Result<Domain, DomainParseError>)
        ensures
            match decoded {
                Ok(domain) => Domain::decoded(s@) == Some(domain),
                Err(e) => Domain::decoded(s@) is None && e.text() == s@,
            },
    {
        Domain::parse(s)
    }
}

} // verus!
