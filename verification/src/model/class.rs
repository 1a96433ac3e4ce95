//! The classes and jobs of a character.

use crate::text::{chars_of, same_text};
use vstd::prelude::*;

verus! {

/// A class or a job.
#[derive(Clone, Copy, Debug, PartialEq, Eq, PartialOrd, Ord, Hash, Structural)]
pub enum ClassType {
    Paladin,
    Gladiator,
    Warrior,
    Marauder,
    DarkKnight,
    Gunbreaker,
    WhiteMage,
    Conjurer,
    Scholar,
    Astrologian,
    Sage,
    Monk,
    Pugilist,
    Dragoon,
    Lancer,
    Ninja,
    Rogue,
    Samurai,
    Reaper,
    Viper,
    Bard,
    Archer,
    Machinist,
    Dancer,
    BlackMage,
    Thaumaturge,
    Summoner,
    Arcanist,
    RedMage,
    Pictomancer,
    BlueMage,
    Carpenter,
    Blacksmith,
    Armorer,
    Goldsmith,
    Leatherworker,
    Weaver,
    Alchemist,
    Culinarian,
    Miner,
    Botanist,
    Fisher,
}

impl ClassType {
    /// The name of this class as the class listing shows it.
    pub open spec fn name(self) -> Seq<char> {
        match self {
            ClassType::Paladin => "Paladin"@,
            ClassType::Gladiator => "Gladiator"@,
            ClassType::Warrior => "Warrior"@,
            ClassType::Marauder => "Marauder"@,
            ClassType::DarkKnight => "Dark Knight"@,
            ClassType::Gunbreaker => "Gunbreaker"@,
            ClassType::WhiteMage => "White Mage"@,
            ClassType::Conjurer => "Conjurer"@,
            ClassType::Scholar => "Scholar"@,
            ClassType::Astrologian => "Astrologian"@,
            ClassType::Sage => "Sage"@,
            ClassType::Monk => "Monk"@,
            ClassType::Pugilist => "Pugilist"@,
            ClassType::Dragoon => "Dragoon"@,
            ClassType::Lancer => "Lancer"@,
            ClassType::Ninja => "Ninja"@,
            ClassType::Rogue => "Rogue"@,
            ClassType::Samurai => "Samurai"@,
            ClassType::Reaper => "Reaper"@,
            ClassType::Viper => "Viper"@,
            ClassType::Bard => "Bard"@,
            ClassType::Archer => "Archer"@,
            ClassType::Machinist => "Machinist"@,
            ClassType::Dancer => "Dancer"@,
            ClassType::BlackMage => "Black Mage"@,
            ClassType::Thaumaturge => "Thaumaturge"@,
            ClassType::Summoner => "Summoner"@,
            ClassType::Arcanist => "Arcanist"@,
            ClassType::RedMage => "Red Mage"@,
            ClassType::Pictomancer => "Pictomancer"@,
            ClassType::BlueMage => "Blue Mage"@,
            ClassType::Carpenter => "Carpenter"@,
            ClassType::Blacksmith => "Blacksmith"@,
            ClassType::Armorer => "Armorer"@,
            ClassType::Goldsmith => "Goldsmith"@,
            ClassType::Leatherworker => "Leatherworker"@,
            ClassType::Weaver => "Weaver"@,
            ClassType::Alchemist => "Alchemist"@,
            ClassType::Culinarian => "Culinarian"@,
            ClassType::Miner => "Miner"@,
            ClassType::Botanist => "Botanist"@,
            ClassType::Fisher => "Fisher"@,
        }
    }

    /// The class that the listing shows as `text`, if any.
    pub open spec fn named(text: Seq<char>) -> Option<ClassType> {
        if text == "Paladin"@ {
            Some(ClassType::Paladin)
        } else if text == "Gladiator"@ {
            Some(ClassType::Gladiator)
        } else if text == "Warrior"@ {
            Some(ClassType::Warrior)
        } else if text == "Marauder"@ {
            Some(ClassType::Marauder)
        } else if text == "Dark Knight"@ {
            Some(ClassType::DarkKnight)
        } else if text == "Gunbreaker"@ {
            Some(ClassType::Gunbreaker)
        } else if text == "White Mage"@ {
            Some(ClassType::WhiteMage)
        } else if text == "Conjurer"@ {
            Some(ClassType::Conjurer)
        } else if text == "Scholar"@ {
            Some(ClassType::Scholar)
        } else if text == "Astrologian"@ {
            Some(ClassType::Astrologian)
        } else if text == "Sage"@ {
            Some(ClassType::Sage)
        } else if text == "Monk"@ {
            Some(ClassType::Monk)
        } else if text == "Pugilist"@ {
            Some(ClassType::Pugilist)
        } else if text == "Dragoon"@ {
            Some(ClassType::Dragoon)
        } else if text == "Lancer"@ {
            Some(ClassType::Lancer)
        } else if text == "Ninja"@ {
            Some(ClassType::Ninja)
        } else if text == "Rogue"@ {
            Some(ClassType::Rogue)
        } else if text == "Samurai"@ {
            Some(ClassType::Samurai)
        } else if text == "Reaper"@ {
            Some(ClassType::Reaper)
        } else if text == "Viper"@ {
            Some(ClassType::Viper)
        } else if text == "Bard"@ {
            Some(ClassType::Bard)
        } else if text == "Archer"@ {
            Some(ClassType::Archer)
        } else if text == "Machinist"@ {
            Some(ClassType::Machinist)
        } else if text == "Dancer"@ {
            Some(ClassType::Dancer)
        } else if text == "Black Mage"@ {
            Some(ClassType::BlackMage)
        } else if text == "Thaumaturge"@ {
            Some(ClassType::Thaumaturge)
        } else if text == "Summoner"@ {
            Some(ClassType::Summoner)
        } else if text == "Arcanist"@ {
            Some(ClassType::Arcanist)
        } else if text == "Red Mage"@ {
            Some(ClassType::RedMage)
        } else if text == "Pictomancer"@ {
            Some(ClassType::Pictomancer)
        } else if text == "Blue Mage"@ {
            Some(ClassType::BlueMage)
        } else if text == "Carpenter"@ {
            Some(ClassType::Carpenter)
        } else if text == "Blacksmith"@ {
            Some(ClassType::Blacksmith)
        } else if text == "Armorer"@ {
            Some(ClassType::Armorer)
        } else if text == "Goldsmith"@ {
            Some(ClassType::Goldsmith)
        } else if text == "Leatherworker"@ {
            Some(ClassType::Leatherworker)
        } else if text == "Weaver"@ {
            Some(ClassType::Weaver)
        } else if text == "Alchemist"@ {
            Some(ClassType::Alchemist)
        } else if text == "Culinarian"@ {
            Some(ClassType::Culinarian)
        } else if text == "Miner"@ {
            Some(ClassType::Miner)
        } else if text == "Botanist"@ {
            Some(ClassType::Botanist)
        } else if text == "Fisher"@ {
            Some(ClassType::Fisher)
        } else {
            None
        }
    }

    /// The name of this class as the class listing shows it.
    pub fn as_str(&self) -> (text: &'static str)
        ensures
            text@ == self.name(),
    {
        match self {
            ClassType::Paladin => "Paladin",
            ClassType::Gladiator => "Gladiator",
            ClassType::Warrior => "Warrior",
            ClassType::Marauder => "Marauder",
            ClassType::DarkKnight => "Dark Knight",
            ClassType::Gunbreaker => "Gunbreaker",
            ClassType::WhiteMage => "White Mage",
            ClassType::Conjurer => "Conjurer",
            ClassType::Scholar => "Scholar",
            ClassType::Astrologian => "Astrologian",
            ClassType::Sage => "Sage",
            ClassType::Monk => "Monk",
            ClassType::Pugilist => "Pugilist",
            ClassType::Dragoon => "Dragoon",
            ClassType::Lancer => "Lancer",
            ClassType::Ninja => "Ninja",
            ClassType::Rogue => "Rogue",
            ClassType::Samurai => "Samurai",
            ClassType::Reaper => "Reaper",
            ClassType::Viper => "Viper",
            ClassType::Bard => "Bard",
            ClassType::Archer => "Archer",
            ClassType::Machinist => "Machinist",
            ClassType::Dancer => "Dancer",
            ClassType::BlackMage => "Black Mage",
            ClassType::Thaumaturge => "Thaumaturge",
            ClassType::Summoner => "Summoner",
            ClassType::Arcanist => "Arcanist",
            ClassType::RedMage => "Red Mage",
            ClassType::Pictomancer => "Pictomancer",
            ClassType::BlueMage => "Blue Mage",
            ClassType::Carpenter => "Carpenter",
            ClassType::Blacksmith => "Blacksmith",
            ClassType::Armorer => "Armorer",
            ClassType::Goldsmith => "Goldsmith",
            ClassType::Leatherworker => "Leatherworker",
            ClassType::Weaver => "Weaver",
            ClassType::Alchemist => "Alchemist",
            ClassType::Culinarian => "Culinarian",
            ClassType::Miner => "Miner",
            ClassType::Botanist => "Botanist",
            ClassType::Fisher => "Fisher",
        }
    }

    /// Looks a class up by its name, letter for letter.
    pub fn from_chars(text: &Vec<char>) -> (found: Option<ClassType>)
        ensures
            found == ClassType::named(text@),
    {
        if same_text(text, "Paladin") {
            Some(ClassType::Paladin)
        } else if same_text(text, "Gladiator") {
            Some(ClassType::Gladiator)
        } else if same_text(text, "Warrior") {
            Some(ClassType::Warrior)
        } else if same_text(text, "Marauder") {
            Some(ClassType::Marauder)
        } else if same_text(text, "Dark Knight") {
            Some(ClassType::DarkKnight)
        } else if same_text(text, "Gunbreaker") {
            Some(ClassType::Gunbreaker)
        } else if same_text(text, "White Mage") {
            Some(ClassType::WhiteMage)
        } else if same_text(text, "Conjurer") {
            Some(ClassType::Conjurer)
        } else if same_text(text, "Scholar") {
            Some(ClassType::Scholar)
        } else if same_text(text, "Astrologian") {
            Some(ClassType::Astrologian)
        } else if same_text(text, "Sage") {
            Some(ClassType::Sage)
        } else if same_text(text, "Monk") {
            Some(ClassType::Monk)
        } else if same_text(text, "Pugilist") {
            Some(ClassType::Pugilist)
        } else if same_text(text, "Dragoon") {
            Some(ClassType::Dragoon)
        } else if same_text(text, "Lancer") {
            Some(ClassType::Lancer)
        } else if same_text(text, "Ninja") {
            Some(ClassType::Ninja)
        } else if same_text(text, "Rogue") {
            Some(ClassType::Rogue)
        } else if same_text(text, "Samurai") {
            Some(ClassType::Samurai)
        } else if same_text(text, "Reaper") {
            Some(ClassType::Reaper)
        } else if same_text(text, "Viper") {
            Some(ClassType::Viper)
        } else if same_text(text, "Bard") {
            Some(ClassType::Bard)
        } else if same_text(text, "Archer") {
            Some(ClassType::Archer)
        } else if same_text(text, "Machinist") {
            Some(ClassType::Machinist)
        } else if same_text(text, "Dancer") {
            Some(ClassType::Dancer)
        } else if same_text(text, "Black Mage") {
            Some(ClassType::BlackMage)
        } else if same_text(text, "Thaumaturge") {
            Some(ClassType::Thaumaturge)
        } else if same_text(text, "Summoner") {
            Some(ClassType::Summoner)
        } else if same_text(text, "Arcanist") {
            Some(ClassType::Arcanist)
        } else if same_text(text, "Red Mage") {
            Some(ClassType::RedMage)
        } else if same_text(text, "Pictomancer") {
            Some(ClassType::Pictomancer)
        } else if same_text(text, "Blue Mage") {
            Some(ClassType::BlueMage)
        } else if same_text(text, "Carpenter") {
            Some(ClassType::Carpenter)
        } else if same_text(text, "Blacksmith") {
            Some(ClassType::Blacksmith)
        } else if same_text(text, "Armorer") {
            Some(ClassType::Armorer)
        } else if same_text(text, "Goldsmith") {
            Some(ClassType::Goldsmith)
        } else if same_text(text, "Leatherworker") {
            Some(ClassType::Leatherworker)
        } else if same_text(text, "Weaver") {
            Some(ClassType::Weaver)
        } else if same_text(text, "Alchemist") {
            Some(ClassType::Alchemist)
        } else if same_text(text, "Culinarian") {
            Some(ClassType::Culinarian)
        } else if same_text(text, "Miner") {
            Some(ClassType::Miner)
        } else if same_text(text, "Botanist") {
            Some(ClassType::Botanist)
        } else if same_text(text, "Fisher") {
            Some(ClassType::Fisher)
        } else {
            None
        }
    }

    /// Looks a class up by its name, letter for letter.
    pub fn parse(text: &str) -> (found: Option<ClassType>)
        ensures
            found == ClassType::named(text@),
    {
        let chars = chars_of(text);
        ClassType::from_chars(&chars)
    }

    /// Looking up the name of a value gives that value back.
    pub proof fn law_name_round_trip(value: ClassType)
        ensures
            ClassType::named(value.name()) == Some(value),
    {
        reveal_strlit("Paladin");
        reveal_strlit("Gladiator");
        reveal_strlit("Warrior");
        reveal_strlit("Marauder");
        reveal_strlit("Dark Knight");
        reveal_strlit("Gunbreaker");
        reveal_strlit("White Mage");
        reveal_strlit("Conjurer");
        reveal_strlit("Scholar");
        reveal_strlit("Astrologian");
        reveal_strlit("Sage");
        reveal_strlit("Monk");
        reveal_strlit("Pugilist");
        reveal_strlit("Dragoon");
        reveal_strlit("Lancer");
        reveal_strlit("Ninja");
        reveal_strlit("Rogue");
        reveal_strlit("Samurai");
        reveal_strlit("Reaper");
        reveal_strlit("Viper");
        reveal_strlit("Bard");
        reveal_strlit("Archer");
        reveal_strlit("Machinist");
        reveal_strlit("Dancer");
        reveal_strlit("Black Mage");
        reveal_strlit("Thaumaturge");
        reveal_strlit("Summoner");
        reveal_strlit("Arcanist");
        reveal_strlit("Red Mage");
        reveal_strlit("Pictomancer");
        reveal_strlit("Blue Mage");
        reveal_strlit("Carpenter");
        reveal_strlit("Blacksmith");
        reveal_strlit("Armorer");
        reveal_strlit("Goldsmith");
        reveal_strlit("Leatherworker");
        reveal_strlit("Weaver");
        reveal_strlit("Alchemist");
        reveal_strlit("Culinarian");
        reveal_strlit("Miner");
        reveal_strlit("Botanist");
        reveal_strlit("Fisher");
        assert("Paladin"@.len() == 7 && "Paladin"@[0] == 'P' && "Paladin"@[6] == 'n');
        assert("Gladiator"@.len() == 9 && "Gladiator"@[0] == 'G' && "Gladiator"@[6] == 't');
        assert("Warrior"@.len() == 7 && "Warrior"@[0] == 'W' && "Warrior"@[6] == 'r');
        assert("Marauder"@.len() == 8 && "Marauder"@[0] == 'M' && "Marauder"@[6] == 'e');
        assert("Dark Knight"@.len() == 11 && "Dark Knight"@[0] == 'D' && "Dark Knight"@[6] == 'n');
        assert("Gunbreaker"@.len() == 10 && "Gunbreaker"@[0] == 'G' && "Gunbreaker"@[6] == 'a');
        assert("White Mage"@.len() == 10 && "White Mage"@[0] == 'W' && "White Mage"@[6] == 'M');
        assert("Conjurer"@.len() == 8 && "Conjurer"@[0] == 'C' && "Conjurer"@[6] == 'e');
        assert("Scholar"@.len() == 7 && "Scholar"@[0] == 'S' && "Scholar"@[6] == 'r');
        assert("Astrologian"@.len() == 11 && "Astrologian"@[0] == 'A' && "Astrologian"@[6] == 'o');
        assert("Sage"@.len() == 4 && "Sage"@[0] == 'S');
        assert("Monk"@.len() == 4 && "Monk"@[0] == 'M');
        assert("Pugilist"@.len() == 8 && "Pugilist"@[0] == 'P' && "Pugilist"@[6] == 's');
        assert("Dragoon"@.len() == 7 && "Dragoon"@[0] == 'D' && "Dragoon"@[6] == 'n');
        assert("Lancer"@.len() == 6 && "Lancer"@[0] == 'L');
        assert("Ninja"@.len() == 5 && "Ninja"@[0] == 'N');
        assert("Rogue"@.len() == 5 && "Rogue"@[0] == 'R');
        assert("Samurai"@.len() == 7 && "Samurai"@[0] == 'S' && "Samurai"@[6] == 'i');
        assert("Reaper"@.len() == 6 && "Reaper"@[0] == 'R');
        assert("Viper"@.len() == 5 && "Viper"@[0] == 'V');
        assert("Bard"@.len() == 4 && "Bard"@[0] == 'B');
        assert("Archer"@.len() == 6 && "Archer"@[0] == 'A');
        assert("Machinist"@.len() == 9 && "Machinist"@[0] == 'M' && "Machinist"@[6] == 'i');
        assert("Dancer"@.len() == 6 && "Dancer"@[0] == 'D');
        assert("Black Mage"@.len() == 10 && "Black Mage"@[0] == 'B' && "Black Mage"@[6] == 'M');
        assert("Thaumaturge"@.len() == 11 && "Thaumaturge"@[0] == 'T' && "Thaumaturge"@[6] == 't');
        assert("Summoner"@.len() == 8 && "Summoner"@[0] == 'S' && "Summoner"@[6] == 'e');
        assert("Arcanist"@.len() == 8 && "Arcanist"@[0] == 'A' && "Arcanist"@[6] == 's');
        assert("Red Mage"@.len() == 8 && "Red Mage"@[0] == 'R' && "Red Mage"@[6] == 'g');
        assert("Pictomancer"@.len() == 11 && "Pictomancer"@[0] == 'P' && "Pictomancer"@[6] == 'a');
        assert("Blue Mage"@.len() == 9 && "Blue Mage"@[0] == 'B' && "Blue Mage"@[6] == 'a');
        assert("Carpenter"@.len() == 9 && "Carpenter"@[0] == 'C' && "Carpenter"@[6] == 't');
        assert("Blacksmith"@.len() == 10 && "Blacksmith"@[0] == 'B' && "Blacksmith"@[6] == 'm');
        assert("Armorer"@.len() == 7 && "Armorer"@[0] == 'A' && "Armorer"@[6] == 'r');
        assert("Goldsmith"@.len() == 9 && "Goldsmith"@[0] == 'G' && "Goldsmith"@[6] == 'i');
        assert("Leatherworker"@.len() == 13 && "Leatherworker"@[0] == 'L'
            && "Leatherworker"@[6] == 'r');
        assert("Weaver"@.len() == 6 && "Weaver"@[0] == 'W');
        assert("Alchemist"@.len() == 9 && "Alchemist"@[0] == 'A' && "Alchemist"@[6] == 'i');
        assert("Culinarian"@.len() == 10 && "Culinarian"@[0] == 'C' && "Culinarian"@[6] == 'r');
        assert("Miner"@.len() == 5 && "Miner"@[0] == 'M');
        assert("Botanist"@.len() == 8 && "Botanist"@[0] == 'B' && "Botanist"@[6] == 's');
        assert("Fisher"@.len() == 6 && "Fisher"@[0] == 'F');
    }

    /// A text is accepted only if it is the name of the value found, so every
    /// other text is rejected.
    pub proof fn law_named_only(text: Seq<char>)
        ensures
            match ClassType::named(text) {
                Some(value) => value.name() == text,
                None => forall|value: ClassType| value.name() != text,
            },
    {
    }

    /// How many classes and jobs there are.
    pub open spec fn count() -> nat {
        42
    }

    /// The place of this class in the list of all classes, from 0.
    pub open spec fn ordinal(self) -> nat {
        match self {
            ClassType::Paladin => 0,
            ClassType::Gladiator => 1,
            ClassType::Warrior => 2,
            ClassType::Marauder => 3,
            ClassType::DarkKnight => 4,
            ClassType::Gunbreaker => 5,
            ClassType::WhiteMage => 6,
            ClassType::Conjurer => 7,
            ClassType::Scholar => 8,
            ClassType::Astrologian => 9,
            ClassType::Sage => 10,
            ClassType::Monk => 11,
            ClassType::Pugilist => 12,
            ClassType::Dragoon => 13,
            ClassType::Lancer => 14,
            ClassType::Ninja => 15,
            ClassType::Rogue => 16,
            ClassType::Samurai => 17,
            ClassType::Reaper => 18,
            ClassType::Viper => 19,
            ClassType::Bard => 20,
            ClassType::Archer => 21,
            ClassType::Machinist => 22,
            ClassType::Dancer => 23,
            ClassType::BlackMage => 24,
            ClassType::Thaumaturge => 25,
            ClassType::Summoner => 26,
            ClassType::Arcanist => 27,
            ClassType::RedMage => 28,
            ClassType::Pictomancer => 29,
            ClassType::BlueMage => 30,
            ClassType::Carpenter => 31,
            ClassType::Blacksmith => 32,
            ClassType::Armorer => 33,
            ClassType::Goldsmith => 34,
            ClassType::Leatherworker => 35,
            ClassType::Weaver => 36,
            ClassType::Alchemist => 37,
            ClassType::Culinarian => 38,
            ClassType::Miner => 39,
            ClassType::Botanist => 40,
            ClassType::Fisher => 41,
        }
    }

    /// The place of this class in the list of all classes, from 0.
    pub fn index(self) -> (i: usize)
        ensures
            i == self.ordinal(),
            i < ClassType::count(),
    {
        match self {
            ClassType::Paladin => 0,
            ClassType::Gladiator => 1,
            ClassType::Warrior => 2,
            ClassType::Marauder => 3,
            ClassType::DarkKnight => 4,
            ClassType::Gunbreaker => 5,
            ClassType::WhiteMage => 6,
            ClassType::Conjurer => 7,
            ClassType::Scholar => 8,
            ClassType::Astrologian => 9,
            ClassType::Sage => 10,
            ClassType::Monk => 11,
            ClassType::Pugilist => 12,
            ClassType::Dragoon => 13,
            ClassType::Lancer => 14,
            ClassType::Ninja => 15,
            ClassType::Rogue => 16,
            ClassType::Samurai => 17,
            ClassType::Reaper => 18,
            ClassType::Viper => 19,
            ClassType::Bard => 20,
            ClassType::Archer => 21,
            ClassType::Machinist => 22,
            ClassType::Dancer => 23,
            ClassType::BlackMage => 24,
            ClassType::Thaumaturge => 25,
            ClassType::Summoner => 26,
            ClassType::Arcanist => 27,
            ClassType::RedMage => 28,
            ClassType::Pictomancer => 29,
            ClassType::BlueMage => 30,
            ClassType::Carpenter => 31,
            ClassType::Blacksmith => 32,
            ClassType::Armorer => 33,
            ClassType::Goldsmith => 34,
            ClassType::Leatherworker => 35,
            ClassType::Weaver => 36,
            ClassType::Alchemist => 37,
            ClassType::Culinarian => 38,
            ClassType::Miner => 39,
            ClassType::Botanist => 40,
            ClassType::Fisher => 41,
        }
    }

    /// The base class that this job grows out of and shares its level with,
    /// where this is such a job.
    pub open spec fn base(self) -> Option<ClassType> {
        match self {
            ClassType::Paladin => Some(ClassType::Gladiator),
            ClassType::Warrior => Some(ClassType::Marauder),
            ClassType::WhiteMage => Some(ClassType::Conjurer),
            ClassType::Monk => Some(ClassType::Pugilist),
            ClassType::Dragoon => Some(ClassType::Lancer),
            ClassType::Ninja => Some(ClassType::Rogue),
            ClassType::Bard => Some(ClassType::Archer),
            ClassType::BlackMage => Some(ClassType::Thaumaturge),
            ClassType::Summoner => Some(ClassType::Arcanist),
            _ => None,
        }
    }

    /// The base class that this job grows out of, where this is such a job.
    pub fn base_class(self) -> (base: Option<ClassType>)
        ensures
            base == self.base(),
    {
        match self {
            ClassType::Paladin => Some(ClassType::Gladiator),
            ClassType::Warrior => Some(ClassType::Marauder),
            ClassType::WhiteMage => Some(ClassType::Conjurer),
            ClassType::Monk => Some(ClassType::Pugilist),
            ClassType::Dragoon => Some(ClassType::Lancer),
            ClassType::Ninja => Some(ClassType::Rogue),
            ClassType::Bard => Some(ClassType::Archer),
            ClassType::BlackMage => Some(ClassType::Thaumaturge),
            ClassType::Summoner => Some(ClassType::Arcanist),
            _ => None,
        }
    }

    /// No two classes share a place in the list.
    pub proof fn law_ordinal_distinct(a: ClassType, b: ClassType)
        ensures
            a.ordinal() == b.ordinal() ==> a == b,
            a.ordinal() < ClassType::count(),
    {
    }

    /// No two jobs grow out of the same base class.
    pub proof fn law_base_of_one_job(a: ClassType, b: ClassType)
        requires
            a.base() is Some,
            a.base() == b.base(),
        ensures
            a == b,
    {
    }

    /// A base class is no job that grows out of another, and never the job itself.
    pub proof fn law_base_is_plain(job: ClassType)
        ensures
            match job.base() {
                Some(base) => base.base() is None && base != job,
                None => true,
            },
    {
    }
}

/// How far a character has come in one class.
#[derive(Clone, Copy, Debug, PartialEq, Eq, Structural)]
pub struct ClassInfo {
    /// The level reached.
    pub level: u32,
    /// The experience gathered on this level; none at the highest level.
    pub current_xp: Option<u64>,
    /// The experience that the next level takes; none at the highest level.
    pub max_xp: Option<u64>,
}

impl View for ClassInfo {
    type V = ClassInfo;

    open spec fn view(&self) -> ClassInfo {
        *self
    }
}

impl View for ClassType {
    type V = ClassType;

    open spec fn view(&self) -> ClassType {
        *self
    }
}

/// What a character has reached in each class: for each class that the
/// listing shows, its `ClassInfo`, or `None` where the class was never played.
#[derive(Clone, Debug, PartialEq, Eq)]
pub struct Classes {
    entries: [Option<Option<ClassInfo>>; 42],
}

impl View for Classes {
    type V = Map<ClassType, Option<ClassInfo>>;

    closed spec fn view(&self) -> Map<ClassType, Option<ClassInfo>> {
        Map::new(
            |class: ClassType| self.entries@[class.ordinal() as int] is Some,
            |class: ClassType| self.entries@[class.ordinal() as int]->0,
        )
    }
}

/// Whether taking down `info` under `class` writes the entry of `key`: a
/// line writes under its own class, and a line that holds a reading writes
/// under the base class too, where its class is a job that grows out of one.
pub open spec fn writes(class: ClassType, info: Option<ClassInfo>, key: ClassType) -> bool {
    key == class || (info is Some && class.base() == Some(key))
}

/// `classes` after one line of the listing was taken down: `info` stands
/// under `class`. Where `class` is a job that grows out of a base class and
/// the line holds a reading, the reading stands under that base class too; a
/// job that was never played leaves its base class as it is.
pub open spec fn recorded(
    classes: Map<ClassType, Option<ClassInfo>>,
    class: ClassType,
    info: Option<ClassInfo>,
) -> Map<ClassType, Option<ClassInfo>> {
    match class.base() {
        Some(base) if info is Some => classes.insert(base, info).insert(class, info),
        _ => classes.insert(class, info),
    }
}

/// What a query for `class` finds in `classes`: a class that is missing and
/// one that was never played both give `None`.
pub open spec fn looked_up(classes: Map<ClassType, Option<ClassInfo>>, class: ClassType) -> Option<
    ClassInfo,
> {
    if classes.dom().contains(class) {
        classes[class]
    } else {
        None
    }
}

impl Classes {
    /// A listing without any class.
    pub fn new() -> (classes: Classes)
        ensures
            classes@ == Map::<ClassType, Option<ClassInfo>>::empty(),
    {
        let classes = Classes { entries: [None; 42] };
        proof {
            assert forall|class: ClassType| !#[trigger] classes@.dom().contains(class) by {
                ClassType::law_ordinal_distinct(class, class);
            }
            assert(classes@ =~= Map::<ClassType, Option<ClassInfo>>::empty());
        }
        classes
    }

    /// Sets the entry of `class`, whatever stood there.
    pub fn insert(&mut self, class: ClassType, info: Option<ClassInfo>)
        ensures
            final(self)@ == old(self)@.insert(class, info),
    {
        let i: usize = class.index();
        self.entries.set(i, Some(info));
        proof {
            assert forall|other: ClassType| other != class implies other.ordinal()
                != class.ordinal() by {
                ClassType::law_ordinal_distinct(other, class);
            }
            assert(self@ =~= old(self)@.insert(class, info));
        }
    }

    /// Takes down one line of the listing: `info` stands under `class`
    /// afterwards. Where `class` is a job that grows out of a base class and
    /// `info` is a reading, the reading stands under that base class too; a
    /// job that was never played leaves its base class as it is.
    pub fn record(&mut self, class: ClassType, info: Option<ClassInfo>)
        ensures
            final(self)@ == recorded(old(self)@, class, info),
    {
        if info.is_some() {
            match class.base_class() {
                Some(base) => {
                    self.insert(base, info);
                },
                None => {},
            }
        }
        self.insert(class, info);
    }

    /// Whether the listing showed `class`, played or not.
    pub fn contains(&self, class: ClassType) -> (found: bool)
        ensures
            found == self@.dom().contains(class),
    {
        self.entries[class.index()].is_some()
    }

    /// What the character has reached in `class`; `None` where the class is
    /// missing or was never played.
    pub fn get(&self, class: ClassType) -> (info: Option<ClassInfo>)
        ensures
            info == looked_up(self@, class),
    {
        match self.entries[class.index()] {
            Some(info) => info,
            None => None,
        }
    }
}

/// A job and its base class show the same reading once a reading of the job
/// was taken down: a query for either finds that reading.
pub proof fn law_job_and_base_agree(
    classes: Map<ClassType, Option<ClassInfo>>,
    job: ClassType,
    info: ClassInfo,
)
    requires
        job.base() is Some,
    ensures
        looked_up(recorded(classes, job, Some(info)), job) == Some(info),
        looked_up(recorded(classes, job, Some(info)), job.base()->0) == Some(info),
{
    ClassType::law_base_is_plain(job);
}

/// A job that was never played leaves its base class as it is: the base
/// class keeps its own reading, and a query for the job finds nothing.
pub proof fn law_blank_job_leaves_base(classes: Map<ClassType, Option<ClassInfo>>, job: ClassType)
    requires
        job.base() is Some,
    ensures
        looked_up(recorded(classes, job, None), job) is None,
        looked_up(recorded(classes, job, None), job.base()->0) == looked_up(
            classes,
            job.base()->0,
        ),
{
    ClassType::law_base_is_plain(job);
}

/// Taking down a line changes the entries that it writes and no others: a
/// query for any other class finds what it found before.
pub proof fn law_line_writes_no_other(
    classes: Map<ClassType, Option<ClassInfo>>,
    class: ClassType,
    info: Option<ClassInfo>,
    other: ClassType,
)
    ensures
        writes(class, info, other) ==> looked_up(recorded(classes, class, info), other) == info,
        !writes(class, info, other) ==> looked_up(recorded(classes, class, info), other)
            == looked_up(classes, other),
{
    ClassType::law_base_is_plain(class);
}

} // verus!
