//! The worlds on which characters live.

use crate::text::{chars_of, same_text};
use vstd::prelude::*;

verus! {

/// A world: the home of a character.
#[derive(Clone, Copy, Debug, PartialEq, Eq, PartialOrd, Ord, Hash, Structural)]
pub enum Server {
    Adamantoise,
    Aegis,
    Alexander,
    Alpha,
    Anima,
    Asura,
    Atomos,
    Bahamut,
    Balmung,
    Behemoth,
    Belias,
    Bismarck,
    Brynhildr,
    Cactuar,
    Carbuncle,
    Cerberus,
    Chocobo,
    Coeurl,
    Cuchulainn,
    Diabolos,
    Durandal,
    Excalibur,
    Exodus,
    Faerie,
    Famfrit,
    Fenrir,
    Garuda,
    Gilgamesh,
    Goblin,
    Golem,
    Gungnir,
    Hades,
    Halicarnassus,
    Hyperion,
    Ifrit,
    Ixion,
    Jenova,
    Kraken,
    Kujata,
    Lamia,
    Leviathan,
    Lich,
    Louisoix,
    Maduin,
    Malboro,
    Mandragora,
    Marilith,
    Masamune,
    Mateus,
    Midgardsormr,
    Moogle,
    Odin,
    Omega,
    Pandaemonium,
    Phantom,
    Phoenix,
    Rafflesia,
    Ragnarok,
    Raiden,
    Ramuh,
    Ravana,
    Ridill,
    Sagittarius,
    Sargatanas,
    Sephirot,
    Seraph,
    Shinryu,
    Shiva,
    Siren,
    Sophia,
    Spriggan,
    Tiamat,
    Titan,
    Tonberry,
    Twintania,
    Typhon,
    Ultima,
    Ultros,
    Unicorn,
    Valefor,
    Yojimbo,
    Zalera,
    Zeromus,
    Zodiark,
    Zurvan,
}

impl Server {
    /// The name under which the directory lists this world.
    pub open spec fn name(self) -> Seq<char> {
        match self {
            Server::Adamantoise => "Adamantoise"@,
            Server::Aegis => "Aegis"@,
            Server::Alexander => "Alexander"@,
            Server::Alpha => "Alpha"@,
            Server::Anima => "Anima"@,
            Server::Asura => "Asura"@,
            Server::Atomos => "Atomos"@,
            Server::Bahamut => "Bahamut"@,
            Server::Balmung => "Balmung"@,
            Server::Behemoth => "Behemoth"@,
            Server::Belias => "Belias"@,
            Server::Bismarck => "Bismarck"@,
            Server::Brynhildr => "Brynhildr"@,
            Server::Cactuar => "Cactuar"@,
            Server::Carbuncle => "Carbuncle"@,
            Server::Cerberus => "Cerberus"@,
            Server::Chocobo => "Chocobo"@,
            Server::Coeurl => "Coeurl"@,
            Server::Cuchulainn => "Cuchulainn"@,
            Server::Diabolos => "Diabolos"@,
            Server::Durandal => "Durandal"@,
            Server::Excalibur => "Excalibur"@,
            Server::Exodus => "Exodus"@,
            Server::Faerie => "Faerie"@,
            Server::Famfrit => "Famfrit"@,
            Server::Fenrir => "Fenrir"@,
            Server::Garuda => "Garuda"@,
            Server::Gilgamesh => "Gilgamesh"@,
            Server::Goblin => "Goblin"@,
            Server::Golem => "Golem"@,
            Server::Gungnir => "Gungnir"@,
            Server::Hades => "Hades"@,
            Server::Halicarnassus => "Halicarnassus"@,
            Server::Hyperion => "Hyperion"@,
            Server::Ifrit => "Ifrit"@,
            Server::Ixion => "Ixion"@,
            Server::Jenova => "Jenova"@,
            Server::Kraken => "Kraken"@,
            Server::Kujata => "Kujata"@,
            Server::Lamia => "Lamia"@,
            Server::Leviathan => "Leviathan"@,
            Server::Lich => "Lich"@,
            Server::Louisoix => "Louisoix"@,
            Server::Maduin => "Maduin"@,
            Server::Malboro => "Malboro"@,
            Server::Mandragora => "Mandragora"@,
            Server::Marilith => "Marilith"@,
            Server::Masamune => "Masamune"@,
            Server::Mateus => "Mateus"@,
            Server::Midgardsormr => "Midgardsormr"@,
            Server::Moogle => "Moogle"@,
            Server::Odin => "Odin"@,
            Server::Omega => "Omega"@,
            Server::Pandaemonium => "Pandaemonium"@,
            Server::Phantom => "Phantom"@,
            Server::Phoenix => "Phoenix"@,
            Server::Rafflesia => "Rafflesia"@,
            Server::Ragnarok => "Ragnarok"@,
            Server::Raiden => "Raiden"@,
            Server::Ramuh => "Ramuh"@,
            Server::Ravana => "Ravana"@,
            Server::Ridill => "Ridill"@,
            Server::Sagittarius => "Sagittarius"@,
            Server::Sargatanas => "Sargatanas"@,
            Server::Sephirot => "Sephirot"@,
            Server::Seraph => "Seraph"@,
            Server::Shinryu => "Shinryu"@,
            Server::Shiva => "Shiva"@,
            Server::Siren => "Siren"@,
            Server::Sophia => "Sophia"@,
            Server::Spriggan => "Spriggan"@,
            Server::Tiamat => "Tiamat"@,
            Server::Titan => "Titan"@,
            Server::Tonberry => "Tonberry"@,
            Server::Twintania => "Twintania"@,
            Server::Typhon => "Typhon"@,
            Server::Ultima => "Ultima"@,
            Server::Ultros => "Ultros"@,
            Server::Unicorn => "Unicorn"@,
            Server::Valefor => "Valefor"@,
            Server::Yojimbo => "Yojimbo"@,
            Server::Zalera => "Zalera"@,
            Server::Zeromus => "Zeromus"@,
            Server::Zodiark => "Zodiark"@,
            Server::Zurvan => "Zurvan"@,
        }
    }

    /// The world that the directory lists under `text`, if any.
    pub open spec fn named(text: Seq<char>) -> Option<Server> {
        if text == "Adamantoise"@ {
            Some(Server::Adamantoise)
        } else if text == "Aegis"@ {
            Some(Server::Aegis)
        } else if text == "Alexander"@ {
            Some(Server::Alexander)
        } else if text == "Alpha"@ {
            Some(Server::Alpha)
        } else if text == "Anima"@ {
            Some(Server::Anima)
        } else if text == "Asura"@ {
            Some(Server::Asura)
        } else if text == "Atomos"@ {
            Some(Server::Atomos)
        } else if text == "Bahamut"@ {
            Some(Server::Bahamut)
        } else if text == "Balmung"@ {
            Some(Server::Balmung)
        } else if text == "Behemoth"@ {
            Some(Server::Behemoth)
        } else if text == "Belias"@ {
            Some(Server::Belias)
        } else if text == "Bismarck"@ {
            Some(Server::Bismarck)
        } else if text == "Brynhildr"@ {
            Some(Server::Brynhildr)
        } else if text == "Cactuar"@ {
            Some(Server::Cactuar)
        } else if text == "Carbuncle"@ {
            Some(Server::Carbuncle)
        } else if text == "Cerberus"@ {
            Some(Server::Cerberus)
        } else if text == "Chocobo"@ {
            Some(Server::Chocobo)
        } else if text == "Coeurl"@ {
            Some(Server::Coeurl)
        } else if text == "Cuchulainn"@ {
            Some(Server::Cuchulainn)
        } else if text == "Diabolos"@ {
            Some(Server::Diabolos)
        } else if text == "Durandal"@ {
            Some(Server::Durandal)
        } else if text == "Excalibur"@ {
            Some(Server::Excalibur)
        } else if text == "Exodus"@ {
            Some(Server::Exodus)
        } else if text == "Faerie"@ {
            Some(Server::Faerie)
        } else if text == "Famfrit"@ {
            Some(Server::Famfrit)
        } else if text == "Fenrir"@ {
            Some(Server::Fenrir)
        } else if text == "Garuda"@ {
            Some(Server::Garuda)
        } else if text == "Gilgamesh"@ {
            Some(Server::Gilgamesh)
        } else if text == "Goblin"@ {
            Some(Server::Goblin)
        } else if text == "Golem"@ {
            Some(Server::Golem)
        } else if text == "Gungnir"@ {
            Some(Server::Gungnir)
        } else if text == "Hades"@ {
            Some(Server::Hades)
        } else if text == "Halicarnassus"@ {
            Some(Server::Halicarnassus)
        } else if text == "Hyperion"@ {
            Some(Server::Hyperion)
        } else if text == "Ifrit"@ {
            Some(Server::Ifrit)
        } else if text == "Ixion"@ {
            Some(Server::Ixion)
        } else if text == "Jenova"@ {
            Some(Server::Jenova)
        } else if text == "Kraken"@ {
            Some(Server::Kraken)
        } else if text == "Kujata"@ {
            Some(Server::Kujata)
        } else if text == "Lamia"@ {
            Some(Server::Lamia)
        } else if text == "Leviathan"@ {
            Some(Server::Leviathan)
        } else if text == "Lich"@ {
            Some(Server::Lich)
        } else if text == "Louisoix"@ {
            Some(Server::Louisoix)
        } else if text == "Maduin"@ {
            Some(Server::Maduin)
        } else if text == "Malboro"@ {
            Some(Server::Malboro)
        } else if text == "Mandragora"@ {
            Some(Server::Mandragora)
        } else if text == "Marilith"@ {
            Some(Server::Marilith)
        } else if text == "Masamune"@ {
            Some(Server::Masamune)
        } else if text == "Mateus"@ {
            Some(Server::Mateus)
        } else if text == "Midgardsormr"@ {
            Some(Server::Midgardsormr)
        } else if text == "Moogle"@ {
            Some(Server::Moogle)
        } else if text == "Odin"@ {
            Some(Server::Odin)
        } else if text == "Omega"@ {
            Some(Server::Omega)
        } else if text == "Pandaemonium"@ {
            Some(Server::Pandaemonium)
        } else if text == "Phantom"@ {
            Some(Server::Phantom)
        } else if text == "Phoenix"@ {
            Some(Server::Phoenix)
        } else if text == "Rafflesia"@ {
            Some(Server::Rafflesia)
        } else if text == "Ragnarok"@ {
            Some(Server::Ragnarok)
        } else if text == "Raiden"@ {
            Some(Server::Raiden)
        } else if text == "Ramuh"@ {
            Some(Server::Ramuh)
        } else if text == "Ravana"@ {
            Some(Server::Ravana)
        } else if text == "Ridill"@ {
            Some(Server::Ridill)
        } else if text == "Sagittarius"@ {
            Some(Server::Sagittarius)
        } else if text == "Sargatanas"@ {
            Some(Server::Sargatanas)
        } else if text == "Sephirot"@ {
            Some(Server::Sephirot)
        } else if text == "Seraph"@ {
            Some(Server::Seraph)
        } else if text == "Shinryu"@ {
            Some(Server::Shinryu)
        } else if text == "Shiva"@ {
            Some(Server::Shiva)
        } else if text == "Siren"@ {
            Some(Server::Siren)
        } else if text == "Sophia"@ {
            Some(Server::Sophia)
        } else if text == "Spriggan"@ {
            Some(Server::Spriggan)
        } else if text == "Tiamat"@ {
            Some(Server::Tiamat)
        } else if text == "Titan"@ {
            Some(Server::Titan)
        } else if text == "Tonberry"@ {
            Some(Server::Tonberry)
        } else if text == "Twintania"@ {
            Some(Server::Twintania)
        } else if text == "Typhon"@ {
            Some(Server::Typhon)
        } else if text == "Ultima"@ {
            Some(Server::Ultima)
        } else if text == "Ultros"@ {
            Some(Server::Ultros)
        } else if text == "Unicorn"@ {
            Some(Server::Unicorn)
        } else if text == "Valefor"@ {
            Some(Server::Valefor)
        } else if text == "Yojimbo"@ {
            Some(Server::Yojimbo)
        } else if text == "Zalera"@ {
            Some(Server::Zalera)
        } else if text == "Zeromus"@ {
            Some(Server::Zeromus)
        } else if text == "Zodiark"@ {
            Some(Server::Zodiark)
        } else if text == "Zurvan"@ {
            Some(Server::Zurvan)
        } else {
            None
        }
    }

    /// The name under which the directory lists this world.
    pub fn as_str(&self) -> (text: &'static str)
        ensures
            text@ == self.name(),
    {
        match self {
            Server::Adamantoise => "Adamantoise",
            Server::Aegis => "Aegis",
            Server::Alexander => "Alexander",
            Server::Alpha => "Alpha",
            Server::Anima => "Anima",
            Server::Asura => "Asura",
            Server::Atomos => "Atomos",
            Server::Bahamut => "Bahamut",
            Server::Balmung => "Balmung",
            Server::Behemoth => "Behemoth",
            Server::Belias => "Belias",
            Server::Bismarck => "Bismarck",
            Server::Brynhildr => "Brynhildr",
            Server::Cactuar => "Cactuar",
            Server::Carbuncle => "Carbuncle",
            Server::Cerberus => "Cerberus",
            Server::Chocobo => "Chocobo",
            Server::Coeurl => "Coeurl",
            Server::Cuchulainn => "Cuchulainn",
            Server::Diabolos => "Diabolos",
            Server::Durandal => "Durandal",
            Server::Excalibur => "Excalibur",
            Server::Exodus => "Exodus",
            Server::Faerie => "Faerie",
            Server::Famfrit => "Famfrit",
            Server::Fenrir => "Fenrir",
            Server::Garuda => "Garuda",
            Server::Gilgamesh => "Gilgamesh",
            Server::Goblin => "Goblin",
            Server::Golem => "Golem",
            Server::Gungnir => "Gungnir",
            Server::Hades => "Hades",
            Server::Halicarnassus => "Halicarnassus",
            Server::Hyperion => "Hyperion",
            Server::Ifrit => "Ifrit",
            Server::Ixion => "Ixion",
            Server::Jenova => "Jenova",
            Server::Kraken => "Kraken",
            Server::Kujata => "Kujata",
            Server::Lamia => "Lamia",
            Server::Leviathan => "Leviathan",
            Server::Lich => "Lich",
            Server::Louisoix => "Louisoix",
            Server::Maduin => "Maduin",
            Server::Malboro => "Malboro",
            Server::Mandragora => "Mandragora",
            Server::Marilith => "Marilith",
            Server::Masamune => "Masamune",
            Server::Mateus => "Mateus",
            Server::Midgardsormr => "Midgardsormr",
            Server::Moogle => "Moogle",
            Server::Odin => "Odin",
            Server::Omega => "Omega",
            Server::Pandaemonium => "Pandaemonium",
            Server::Phantom => "Phantom",
            Server::Phoenix => "Phoenix",
            Server::Rafflesia => "Rafflesia",
            Server::Ragnarok => "Ragnarok",
            Server::Raiden => "Raiden",
            Server::Ramuh => "Ramuh",
            Server::Ravana => "Ravana",
            Server::Ridill => "Ridill",
            Server::Sagittarius => "Sagittarius",
            Server::Sargatanas => "Sargatanas",
            Server::Sephirot => "Sephirot",
            Server::Seraph => "Seraph",
            Server::Shinryu => "Shinryu",
            Server::Shiva => "Shiva",
            Server::Siren => "Siren",
            Server::Sophia => "Sophia",
            Server::Spriggan => "Spriggan",
            Server::Tiamat => "Tiamat",
            Server::Titan => "Titan",
            Server::Tonberry => "Tonberry",
            Server::Twintania => "Twintania",
            Server::Typhon => "Typhon",
            Server::Ultima => "Ultima",
            Server::Ultros => "Ultros",
            Server::Unicorn => "Unicorn",
            Server::Valefor => "Valefor",
            Server::Yojimbo => "Yojimbo",
            Server::Zalera => "Zalera",
            Server::Zeromus => "Zeromus",
            Server::Zodiark => "Zodiark",
            Server::Zurvan => "Zurvan",
        }
    }

    /// Looks a world up by its name, letter for letter.
    pub fn from_chars(text: &Vec<char>) -> (found: Option<Server>)
        ensures
            found == Server::named(text@),
    {
        if same_text(text, "Adamantoise") {
            Some(Server::Adamantoise)
        } else if same_text(text, "Aegis") {
            Some(Server::Aegis)
        } else if same_text(text, "Alexander") {
            Some(Server::Alexander)
        } else if same_text(text, "Alpha") {
            Some(Server::Alpha)
        } else if same_text(text, "Anima") {
            Some(Server::Anima)
        } else if same_text(text, "Asura") {
            Some(Server::Asura)
        } else if same_text(text, "Atomos") {
            Some(Server::Atomos)
        } else if same_text(text, "Bahamut") {
            Some(Server::Bahamut)
        } else if same_text(text, "Balmung") {
            Some(Server::Balmung)
        } else if same_text(text, "Behemoth") {
            Some(Server::Behemoth)
        } else if same_text(text, "Belias") {
            Some(Server::Belias)
        } else if same_text(text, "Bismarck") {
            Some(Server::Bismarck)
        } else if same_text(text, "Brynhildr") {
            Some(Server::Brynhildr)
        } else if same_text(text, "Cactuar") {
            Some(Server::Cactuar)
        } else if same_text(text, "Carbuncle") {
            Some(Server::Carbuncle)
        } else if same_text(text, "Cerberus") {
            Some(Server::Cerberus)
        } else if same_text(text, "Chocobo") {
            Some(Server::Chocobo)
        } else if same_text(text, "Coeurl") {
            Some(Server::Coeurl)
        } else if same_text(text, "Cuchulainn") {
            Some(Server::Cuchulainn)
        } else if same_text(text, "Diabolos") {
            Some(Server::Diabolos)
        } else if same_text(text, "Durandal") {
            Some(Server::Durandal)
        } else if same_text(text, "Excalibur") {
            Some(Server::Excalibur)
        } else if same_text(text, "Exodus") {
            Some(Server::Exodus)
        } else if same_text(text, "Faerie") {
            Some(Server::Faerie)
        } else if same_text(text, "Famfrit") {
            Some(Server::Famfrit)
        } else if same_text(text, "Fenrir") {
            Some(Server::Fenrir)
        } else if same_text(text, "Garuda") {
            Some(Server::Garuda)
        } else if same_text(text, "Gilgamesh") {
            Some(Server::Gilgamesh)
        } else if same_text(text, "Goblin") {
            Some(Server::Goblin)
        } else if same_text(text, "Golem") {
            Some(Server::Golem)
        } else if same_text(text, "Gungnir") {
            Some(Server::Gungnir)
        } else if same_text(text, "Hades") {
            Some(Server::Hades)
        } else if same_text(text, "Halicarnassus") {
            Some(Server::Halicarnassus)
        } else if same_text(text, "Hyperion") {
            Some(Server::Hyperion)
        } else if same_text(text, "Ifrit") {
            Some(Server::Ifrit)
        } else if same_text(text, "Ixion") {
            Some(Server::Ixion)
        } else if same_text(text, "Jenova") {
            Some(Server::Jenova)
        } else if same_text(text, "Kraken") {
            Some(Server::Kraken)
        } else if same_text(text, "Kujata") {
            Some(Server::Kujata)
        } else if same_text(text, "Lamia") {
            Some(Server::Lamia)
        } else if same_text(text, "Leviathan") {
            Some(Server::Leviathan)
        } else if same_text(text, "Lich") {
            Some(Server::Lich)
        } else if same_text(text, "Louisoix") {
            Some(Server::Louisoix)
        } else if same_text(text, "Maduin") {
            Some(Server::Maduin)
        } else if same_text(text, "Malboro") {
            Some(Server::Malboro)
        } else if same_text(text, "Mandragora") {
            Some(Server::Mandragora)
        } else if same_text(text, "Marilith") {
            Some(Server::Marilith)
        } else if same_text(text, "Masamune") {
            Some(Server::Masamune)
        } else if same_text(text, "Mateus") {
            Some(Server::Mateus)
        } else if same_text(text, "Midgardsormr") {
            Some(Server::Midgardsormr)
        } else if same_text(text, "Moogle") {
            Some(Server::Moogle)
        } else if same_text(text, "Odin") {
            Some(Server::Odin)
        } else if same_text(text, "Omega") {
            Some(Server::Omega)
        } else if same_text(text, "Pandaemonium") {
            Some(Server::Pandaemonium)
        } else if same_text(text, "Phantom") {
            Some(Server::Phantom)
        } else if same_text(text, "Phoenix") {
            Some(Server::Phoenix)
        } else if same_text(text, "Rafflesia") {
            Some(Server::Rafflesia)
        } else if same_text(text, "Ragnarok") {
            Some(Server::Ragnarok)
        } else if same_text(text, "Raiden") {
            Some(Server::Raiden)
        } else if same_text(text, "Ramuh") {
            Some(Server::Ramuh)
        } else if same_text(text, "Ravana") {
            Some(Server::Ravana)
        } else if same_text(text, "Ridill") {
            Some(Server::Ridill)
        } else if same_text(text, "Sagittarius") {
            Some(Server::Sagittarius)
        } else if same_text(text, "Sargatanas") {
            Some(Server::Sargatanas)
        } else if same_text(text, "Sephirot") {
            Some(Server::Sephirot)
        } else if same_text(text, "Seraph") {
            Some(Server::Seraph)
        } else if same_text(text, "Shinryu") {
            Some(Server::Shinryu)
        } else if same_text(text, "Shiva") {
            Some(Server::Shiva)
        } else if same_text(text, "Siren") {
            Some(Server::Siren)
        } else if same_text(text, "Sophia") {
            Some(Server::Sophia)
        } else if same_text(text, "Spriggan") {
            Some(Server::Spriggan)
        } else if same_text(text, "Tiamat") {
            Some(Server::Tiamat)
        } else if same_text(text, "Titan") {
            Some(Server::Titan)
        } else if same_text(text, "Tonberry") {
            Some(Server::Tonberry)
        } else if same_text(text, "Twintania") {
            Some(Server::Twintania)
        } else if same_text(text, "Typhon") {
            Some(Server::Typhon)
        } else if same_text(text, "Ultima") {
            Some(Server::Ultima)
        } else if same_text(text, "Ultros") {
            Some(Server::Ultros)
        } else if same_text(text, "Unicorn") {
            Some(Server::Unicorn)
        } else if same_text(text, "Valefor") {
            Some(Server::Valefor)
        } else if same_text(text, "Yojimbo") {
            Some(Server::Yojimbo)
        } else if same_text(text, "Zalera") {
            Some(Server::Zalera)
        } else if same_text(text, "Zeromus") {
            Some(Server::Zeromus)
        } else if same_text(text, "Zodiark") {
            Some(Server::Zodiark)
        } else if same_text(text, "Zurvan") {
            Some(Server::Zurvan)
        } else {
            None
        }
    }

    /// Looks a world up by its name, letter for letter.
    pub fn parse(text: &str) -> (found: Option<Server>)
        ensures
            found == Server::named(text@),
    {
        let chars = chars_of(text);
        Server::from_chars(&chars)
    }

    /// Looking up the name of a value gives that value back.
    pub proof fn law_name_round_trip(value: Server)
        ensures
            Server::named(value.name()) == Some(value),
    {
        reveal_strlit("Adamantoise");
        reveal_strlit("Aegis");
        reveal_strlit("Alexander");
        reveal_strlit("Alpha");
        reveal_strlit("Anima");
        reveal_strlit("Asura");
        reveal_strlit("Atomos");
        reveal_strlit("Bahamut");
        reveal_strlit("Balmung");
        reveal_strlit("Behemoth");
        reveal_strlit("Belias");
        reveal_strlit("Bismarck");
        reveal_strlit("Brynhildr");
        reveal_strlit("Cactuar");
        reveal_strlit("Carbuncle");
        reveal_strlit("Cerberus");
        reveal_strlit("Chocobo");
        reveal_strlit("Coeurl");
        reveal_strlit("Cuchulainn");
        reveal_strlit("Diabolos");
        reveal_strlit("Durandal");
        reveal_strlit("Excalibur");
        reveal_strlit("Exodus");
        reveal_strlit("Faerie");
        reveal_strlit("Famfrit");
        reveal_strlit("Fenrir");
        reveal_strlit("Garuda");
        reveal_strlit("Gilgamesh");
        reveal_strlit("Goblin");
        reveal_strlit("Golem");
        reveal_strlit("Gungnir");
        reveal_strlit("Hades");
        reveal_strlit("Halicarnassus");
        reveal_strlit("Hyperion");
        reveal_strlit("Ifrit");
        reveal_strlit("Ixion");
        reveal_strlit("Jenova");
        reveal_strlit("Kraken");
        reveal_strlit("Kujata");
        reveal_strlit("Lamia");
        reveal_strlit("Leviathan");
        reveal_strlit("Lich");
        reveal_strlit("Louisoix");
        reveal_strlit("Maduin");
        reveal_strlit("Malboro");
        reveal_strlit("Mandragora");
        reveal_strlit("Marilith");
        reveal_strlit("Masamune");
        reveal_strlit("Mateus");
        reveal_strlit("Midgardsormr");
        reveal_strlit("Moogle");
        reveal_strlit("Odin");
        reveal_strlit("Omega");
        reveal_strlit("Pandaemonium");
        reveal_strlit("Phantom");
        reveal_strlit("Phoenix");
        reveal_strlit("Rafflesia");
        reveal_strlit("Ragnarok");
        reveal_strlit("Raiden");
        reveal_strlit("Ramuh");
        reveal_strlit("Ravana");
        reveal_strlit("Ridill");
        reveal_strlit("Sagittarius");
        reveal_strlit("Sargatanas");
        reveal_strlit("Sephirot");
        reveal_strlit("Seraph");
        reveal_strlit("Shinryu");
        reveal_strlit("Shiva");
        reveal_strlit("Siren");
        reveal_strlit("Sophia");
        reveal_strlit("Spriggan");
        reveal_strlit("Tiamat");
        reveal_strlit("Titan");
        reveal_strlit("Tonberry");
        reveal_strlit("Twintania");
        reveal_strlit("Typhon");
        reveal_strlit("Ultima");
        reveal_strlit("Ultros");
        reveal_strlit("Unicorn");
        reveal_strlit("Valefor");
        reveal_strlit("Yojimbo");
        reveal_strlit("Zalera");
        reveal_strlit("Zeromus");
        reveal_strlit("Zodiark");
        reveal_strlit("Zurvan");
        assert("Adamantoise"@.len() == 11 && "Adamantoise"@[0] == 'A' && "Adamantoise"@[2] == 'a'
            && "Adamantoise"@[3] == 'm');
        assert("Aegis"@.len() == 5 && "Aegis"@[0] == 'A' && "Aegis"@[2] == 'g'
            && "Aegis"@[3] == 'i');
        assert("Alexander"@.len() == 9 && "Alexander"@[0] == 'A' && "Alexander"@[2] == 'e'
            && "Alexander"@[3] == 'x');
        assert("Alpha"@.len() == 5 && "Alpha"@[0] == 'A' && "Alpha"@[2] == 'p'
            && "Alpha"@[3] == 'h');
        assert("Anima"@.len() == 5 && "Anima"@[0] == 'A' && "Anima"@[2] == 'i'
            && "Anima"@[3] == 'm');
        assert("Asura"@.len() == 5 && "Asura"@[0] == 'A' && "Asura"@[2] == 'u'
            && "Asura"@[3] == 'r');
        assert("Atomos"@.len() == 6 && "Atomos"@[0] == 'A' && "Atomos"@[2] == 'o'
            && "Atomos"@[3] == 'm');
        assert("Bahamut"@.len() == 7 && "Bahamut"@[0] == 'B' && "Bahamut"@[2] == 'h'
            && "Bahamut"@[3] == 'a');
        assert("Balmung"@.len() == 7 && "Balmung"@[0] == 'B' && "Balmung"@[2] == 'l'
            && "Balmung"@[3] == 'm');
        assert("Behemoth"@.len() == 8 && "Behemoth"@[0] == 'B' && "Behemoth"@[2] == 'h'
            && "Behemoth"@[3] == 'e');
        assert("Belias"@.len() == 6 && "Belias"@[0] == 'B' && "Belias"@[2] == 'l'
            && "Belias"@[3] == 'i');
        assert("Bismarck"@.len() == 8 && "Bismarck"@[0] == 'B' && "Bismarck"@[2] == 's'
            && "Bismarck"@[3] == 'm');
        assert("Brynhildr"@.len() == 9 && "Brynhildr"@[0] == 'B' && "Brynhildr"@[2] == 'y'
            && "Brynhildr"@[3] == 'n');
        assert("Cactuar"@.len() == 7 && "Cactuar"@[0] == 'C' && "Cactuar"@[2] == 'c'
            && "Cactuar"@[3] == 't');
        assert("Carbuncle"@.len() == 9 && "Carbuncle"@[0] == 'C' && "Carbuncle"@[2] == 'r'
            && "Carbuncle"@[3] == 'b');
        assert("Cerberus"@.len() == 8 && "Cerberus"@[0] == 'C' && "Cerberus"@[2] == 'r'
            && "Cerberus"@[3] == 'b');
        assert("Chocobo"@.len() == 7 && "Chocobo"@[0] == 'C' && "Chocobo"@[2] == 'o'
            && "Chocobo"@[3] == 'c');
        assert("Coeurl"@.len() == 6 && "Coeurl"@[0] == 'C' && "Coeurl"@[2] == 'e'
            && "Coeurl"@[3] == 'u');
        assert("Cuchulainn"@.len() == 10 && "Cuchulainn"@[0] == 'C' && "Cuchulainn"@[2] == 'c'
            && "Cuchulainn"@[3] == 'h');
        assert("Diabolos"@.len() == 8 && "Diabolos"@[0] == 'D' && "Diabolos"@[2] == 'a'
            && "Diabolos"@[3] == 'b');
        assert("Durandal"@.len() == 8 && "Durandal"@[0] == 'D' && "Durandal"@[2] == 'r'
            && "Durandal"@[3] == 'a');
        assert("Excalibur"@.len() == 9 && "Excalibur"@[0] == 'E' && "Excalibur"@[2] == 'c'
            && "Excalibur"@[3] == 'a');
        assert("Exodus"@.len() == 6 && "Exodus"@[0] == 'E' && "Exodus"@[2] == 'o'
            && "Exodus"@[3] == 'd');
        assert("Faerie"@.len() == 6 && "Faerie"@[0] == 'F' && "Faerie"@[2] == 'e'
            && "Faerie"@[3] == 'r');
        assert("Famfrit"@.len() == 7 && "Famfrit"@[0] == 'F' && "Famfrit"@[2] == 'm'
            && "Famfrit"@[3] == 'f');
        assert("Fenrir"@.len() == 6 && "Fenrir"@[0] == 'F' && "Fenrir"@[2] == 'n'
            && "Fenrir"@[3] == 'r');
        assert("Garuda"@.len() == 6 && "Garuda"@[0] == 'G' && "Garuda"@[2] == 'r'
            && "Garuda"@[3] == 'u');
        assert("Gilgamesh"@.len() == 9 && "Gilgamesh"@[0] == 'G' && "Gilgamesh"@[2] == 'l'
            && "Gilgamesh"@[3] == 'g');
        assert("Goblin"@.len() == 6 && "Goblin"@[0] == 'G' && "Goblin"@[2] == 'b'
            && "Goblin"@[3] == 'l');
        assert("Golem"@.len() == 5 && "Golem"@[0] == 'G' && "Golem"@[2] == 'l'
            && "Golem"@[3] == 'e');
        assert("Gungnir"@.len() == 7 && "Gungnir"@[0] == 'G' && "Gungnir"@[2] == 'n'
            && "Gungnir"@[3] == 'g');
        assert("Hades"@.len() == 5 && "Hades"@[0] == 'H' && "Hades"@[2] == 'd'
            && "Hades"@[3] == 'e');
        assert("Halicarnassus"@.len() == 13 && "Halicarnassus"@[0] == 'H'
            && "Halicarnassus"@[2] == 'l' && "Halicarnassus"@[3] == 'i');
        assert("Hyperion"@.len() == 8 && "Hyperion"@[0] == 'H' && "Hyperion"@[2] == 'p'
            && "Hyperion"@[3] == 'e');
        assert("Ifrit"@.len() == 5 && "Ifrit"@[0] == 'I' && "Ifrit"@[2] == 'r'
            && "Ifrit"@[3] == 'i');
        assert("Ixion"@.len() == 5 && "Ixion"@[0] == 'I' && "Ixion"@[2] == 'i'
            && "Ixion"@[3] == 'o');
        assert("Jenova"@.len() == 6 && "Jenova"@[0] == 'J' && "Jenova"@[2] == 'n'
            && "Jenova"@[3] == 'o');
        assert("Kraken"@.len() == 6 && "Kraken"@[0] == 'K' && "Kraken"@[2] == 'a'
            && "Kraken"@[3] == 'k');
        assert("Kujata"@.len() == 6 && "Kujata"@[0] == 'K' && "Kujata"@[2] == 'j'
            && "Kujata"@[3] == 'a');
        assert("Lamia"@.len() == 5 && "Lamia"@[0] == 'L' && "Lamia"@[2] == 'm'
            && "Lamia"@[3] == 'i');
        assert("Leviathan"@.len() == 9 && "Leviathan"@[0] == 'L' && "Leviathan"@[2] == 'v'
            && "Leviathan"@[3] == 'i');
        assert("Lich"@.len() == 4 && "Lich"@[0] == 'L' && "Lich"@[2] == 'c' && "Lich"@[3] == 'h');
        assert("Louisoix"@.len() == 8 && "Louisoix"@[0] == 'L' && "Louisoix"@[2] == 'u'
            && "Louisoix"@[3] == 'i');
        assert("Maduin"@.len() == 6 && "Maduin"@[0] == 'M' && "Maduin"@[2] == 'd'
            && "Maduin"@[3] == 'u');
        assert("Malboro"@.len() == 7 && "Malboro"@[0] == 'M' && "Malboro"@[2] == 'l'
            && "Malboro"@[3] == 'b');
        assert("Mandragora"@.len() == 10 && "Mandragora"@[0] == 'M' && "Mandragora"@[2] == 'n'
            && "Mandragora"@[3] == 'd');
        assert("Marilith"@.len() == 8 && "Marilith"@[0] == 'M' && "Marilith"@[2] == 'r'
            && "Marilith"@[3] == 'i');
        assert("Masamune"@.len() == 8 && "Masamune"@[0] == 'M' && "Masamune"@[2] == 's'
            && "Masamune"@[3] == 'a');
        assert("Mateus"@.len() == 6 && "Mateus"@[0] == 'M' && "Mateus"@[2] == 't'
            && "Mateus"@[3] == 'e');
        assert("Midgardsormr"@.len() == 12 && "Midgardsormr"@[0] == 'M'
            && "Midgardsormr"@[2] == 'd' && "Midgardsormr"@[3] == 'g');
        assert("Moogle"@.len() == 6 && "Moogle"@[0] == 'M' && "Moogle"@[2] == 'o'
            && "Moogle"@[3] == 'g');
        assert("Odin"@.len() == 4 && "Odin"@[0] == 'O' && "Odin"@[2] == 'i' && "Odin"@[3] == 'n');
        assert("Omega"@.len() == 5 && "Omega"@[0] == 'O' && "Omega"@[2] == 'e'
            && "Omega"@[3] == 'g');
        assert("Pandaemonium"@.len() == 12 && "Pandaemonium"@[0] == 'P'
            && "Pandaemonium"@[2] == 'n' && "Pandaemonium"@[3] == 'd');
        assert("Phantom"@.len() == 7 && "Phantom"@[0] == 'P' && "Phantom"@[2] == 'a'
            && "Phantom"@[3] == 'n');
        assert("Phoenix"@.len() == 7 && "Phoenix"@[0] == 'P' && "Phoenix"@[2] == 'o'
            && "Phoenix"@[3] == 'e');
        assert("Rafflesia"@.len() == 9 && "Rafflesia"@[0] == 'R' && "Rafflesia"@[2] == 'f'
            && "Rafflesia"@[3] == 'f');
        assert("Ragnarok"@.len() == 8 && "Ragnarok"@[0] == 'R' && "Ragnarok"@[2] == 'g'
            && "Ragnarok"@[3] == 'n');
        assert("Raiden"@.len() == 6 && "Raiden"@[0] == 'R' && "Raiden"@[2] == 'i'
            && "Raiden"@[3] == 'd');
        assert("Ramuh"@.len() == 5 && "Ramuh"@[0] == 'R' && "Ramuh"@[2] == 'm'
            && "Ramuh"@[3] == 'u');
        assert("Ravana"@.len() == 6 && "Ravana"@[0] == 'R' && "Ravana"@[2] == 'v'
            && "Ravana"@[3] == 'a');
        assert("Ridill"@.len() == 6 && "Ridill"@[0] == 'R' && "Ridill"@[2] == 'd'
            && "Ridill"@[3] == 'i');
        assert("Sagittarius"@.len() == 11 && "Sagittarius"@[0] == 'S' && "Sagittarius"@[2] == 'g'
            && "Sagittarius"@[3] == 'i');
        assert("Sargatanas"@.len() == 10 && "Sargatanas"@[0] == 'S' && "Sargatanas"@[2] == 'r'
            && "Sargatanas"@[3] == 'g');
        assert("Sephirot"@.len() == 8 && "Sephirot"@[0] == 'S' && "Sephirot"@[2] == 'p'
            && "Sephirot"@[3] == 'h');
        assert("Seraph"@.len() == 6 && "Seraph"@[0] == 'S' && "Seraph"@[2] == 'r'
            && "Seraph"@[3] == 'a');
        assert("Shinryu"@.len() == 7 && "Shinryu"@[0] == 'S' && "Shinryu"@[2] == 'i'
            && "Shinryu"@[3] == 'n');
        assert("Shiva"@.len() == 5 && "Shiva"@[0] == 'S' && "Shiva"@[2] == 'i'
            && "Shiva"@[3] == 'v');
        assert("Siren"@.len() == 5 && "Siren"@[0] == 'S' && "Siren"@[2] == 'r'
            && "Siren"@[3] == 'e');
        assert("Sophia"@.len() == 6 && "Sophia"@[0] == 'S' && "Sophia"@[2] == 'p'
            && "Sophia"@[3] == 'h');
        assert("Spriggan"@.len() == 8 && "Spriggan"@[0] == 'S' && "Spriggan"@[2] == 'r'
            && "Spriggan"@[3] == 'i');
        assert("Tiamat"@.len() == 6 && "Tiamat"@[0] == 'T' && "Tiamat"@[2] == 'a'
            && "Tiamat"@[3] == 'm');
        assert("Titan"@.len() == 5 && "Titan"@[0] == 'T' && "Titan"@[2] == 't'
            && "Titan"@[3] == 'a');
        assert("Tonberry"@.len() == 8 && "Tonberry"@[0] == 'T' && "Tonberry"@[2] == 'n'
            && "Tonberry"@[3] == 'b');
        assert("Twintania"@.len() == 9 && "Twintania"@[0] == 'T' && "Twintania"@[2] == 'i'
            && "Twintania"@[3] == 'n');
        assert("Typhon"@.len() == 6 && "Typhon"@[0] == 'T' && "Typhon"@[2] == 'p'
            && "Typhon"@[3] == 'h');
        assert("Ultima"@.len() == 6 && "Ultima"@[0] == 'U' && "Ultima"@[2] == 't'
            && "Ultima"@[3] == 'i');
        assert("Ultros"@.len() == 6 && "Ultros"@[0] == 'U' && "Ultros"@[2] == 't'
            && "Ultros"@[3] == 'r');
        assert("Unicorn"@.len() == 7 && "Unicorn"@[0] == 'U' && "Unicorn"@[2] == 'i'
            && "Unicorn"@[3] == 'c');
        assert("Valefor"@.len() == 7 && "Valefor"@[0] == 'V' && "Valefor"@[2] == 'l'
            && "Valefor"@[3] == 'e');
        assert("Yojimbo"@.len() == 7 && "Yojimbo"@[0] == 'Y' && "Yojimbo"@[2] == 'j'
            && "Yojimbo"@[3] == 'i');
        assert("Zalera"@.len() == 6 && "Zalera"@[0] == 'Z' && "Zalera"@[2] == 'l'
            && "Zalera"@[3] == 'e');
        assert("Zeromus"@.len() == 7 && "Zeromus"@[0] == 'Z' && "Zeromus"@[2] == 'r'
            && "Zeromus"@[3] == 'o');
        assert("Zodiark"@.len() == 7 && "Zodiark"@[0] == 'Z' && "Zodiark"@[2] == 'd'
            && "Zodiark"@[3] == 'i');
        assert("Zurvan"@.len() == 6 && "Zurvan"@[0] == 'Z' && "Zurvan"@[2] == 'r'
            && "Zurvan"@[3] == 'v');
    }

    /// A text is accepted only if it is the name of the value found, so every
    /// other text is rejected.
    pub proof fn law_named_only(text: Seq<char>)
        ensures
            match Server::named(text) {
                Some(value) => value.name() == text,
                None => forall|value: Server| value.name() != text,
            },
    {
    }
}

} // verus!
