//! Field decoders: from the text that a node holds to the value it stands
//! for. Each decoder has a specification over plain text and meets it
//! exactly.

use crate::model::clan::Clan;
use crate::model::class::{ClassInfo, ClassType};
use crate::model::datacenter::Datacenter;
use crate::model::error::{outcome, SearchError, SearchFailure};
use crate::model::gender::Gender;
use crate::model::race::Race;
use crate::model::server::Server;
use crate::text::{
    chars_of, first_digit_run, first_digits, is_space, lemma_first_match, lemma_first_word,
    lemma_no_word_at_end, lemma_replace_once, lemma_space_before_word, occurs_at, parse_number,
    parse_unsigned, replace, replace_text, same_text, split, split_text, split_words, string_of,
    strip_prefix_text, trim_end, trim_end_text, views, without_prefix, words,
};
use vstd::prelude::*;

verus! {

/// Where a character lives.
#[derive(Clone, Copy, Debug, PartialEq, Eq, Structural)]
pub struct HomeInfo {
    pub server: Server,
    pub datacenter: Datacenter,
}

impl View for HomeInfo {
    type V = HomeInfo;

    open spec fn view(&self) -> HomeInfo {
        *self
    }
}

/// What a character is.
#[derive(Clone, Copy, Debug, PartialEq, Eq, PartialOrd, Ord, Hash, Structural)]
pub struct CharInfo {
    pub race: Race,
    pub clan: Clan,
    pub gender: Gender,
}

impl View for CharInfo {
    type V = CharInfo;

    open spec fn view(&self) -> CharInfo {
        *self
    }
}

/// The text of an optional string.
pub open spec fn text_in(value: Option<&str>) -> Option<Seq<char>> {
    match value {
        Some(text) => Some(text@),
        None => None,
    }
}

/// The text of an optional owned string.
pub open spec fn text_within(value: Option<String>) -> Option<Seq<char>> {
    match value {
        Some(text) => Some(text@),
        None => None,
    }
}

/// The number that `text` spells, where it fits in 32 bits; else the failure
/// of `field`.
pub open spec fn u32_from(text: Seq<char>, field: Seq<char>) -> Result<u32, SearchFailure> {
    match parse_unsigned(text, 0xFFFF_FFFF) {
        Some(n) => Ok(n as u32),
        None => Err(SearchFailure::InvalidData(field)),
    }
}

/// The number that `text` spells, where it fits in 16 bits; else the failure
/// of `field`.
pub open spec fn u16_from(text: Seq<char>, field: Seq<char>) -> Result<u16, SearchFailure> {
    match parse_unsigned(text, 0xFFFF) {
        Some(n) => Ok(n as u16),
        None => Err(SearchFailure::InvalidData(field)),
    }
}

/// Reads `text` as a number of 32 bits.
pub fn decode_u32(text: &Vec<char>, field: &str) -> (number: Result<u32, SearchError>)
    ensures
        outcome(number) == u32_from(text@, field@),
{
    match parse_number(text, 0xFFFF_FFFF) {
        Some(n) => Ok(n as u32),
        None => Err(SearchError::invalid(field)),
    }
}

/// Reads `text` as a number of 16 bits.
pub fn decode_u16(text: &Vec<char>, field: &str) -> (number: Result<u16, SearchError>)
    ensures
        outcome(number) == u16_from(text@, field@),
{
    match parse_number(text, 0xFFFF) {
        Some(n) => Ok(n as u16),
        None => Err(SearchError::invalid(field)),
    }
}

/// What an item of a parameter list shows.
#[derive(Clone, Copy, Debug, PartialEq, Eq, Structural)]
pub enum ParamKind {
    /// The highest HP.
    Hp,
    /// The highest MP, or GP or CP, which a gatherer or a crafter has in the
    /// place of MP.
    Mp,
    /// Something else.
    Other,
}

/// What an item shows, told by how many marks of each kind it holds: HP
/// where it holds exactly one mark of HP; else MP where it holds exactly one
/// mark of MP, of GP or of CP.
pub open spec fn param_kind_of(hp_marks: nat, mp_marks: nat, gp_marks: nat, cp_marks: nat)
    -> ParamKind {
    if hp_marks == 1 {
        ParamKind::Hp
    } else if mp_marks == 1 || gp_marks == 1 || cp_marks == 1 {
        ParamKind::Mp
    } else {
        ParamKind::Other
    }
}

/// Tells what an item of a parameter list shows.
pub fn classify_param(hp_marks: usize, mp_marks: usize, gp_marks: usize, cp_marks: usize) -> (kind:
    ParamKind)
    ensures
        kind == param_kind_of(hp_marks as nat, mp_marks as nat, gp_marks as nat, cp_marks as nat),
{
    if hp_marks == 1 {
        ParamKind::Hp
    } else if mp_marks == 1 || gp_marks == 1 || cp_marks == 1 {
        ParamKind::Mp
    } else {
        ParamKind::Other
    }
}

/// HP and MP, where a parameter list gave both.
pub open spec fn params_from(hp: Option<u32>, mp: Option<u32>) -> Result<(u32, u32), SearchFailure> {
    match (hp, mp) {
        (Some(hp), Some(mp)) => Ok((hp, mp)),
        _ => Err(SearchFailure::InvalidData("character__param"@)),
    }
}

/// Takes HP and MP as read off a parameter list; both must be there.
pub fn decode_params(hp: Option<u32>, mp: Option<u32>) -> (params: Result<(u32, u32), SearchError>)
    ensures
        outcome(params) == params_from(hp, mp),
{
    match (hp, mp) {
        (Some(hp), Some(mp)) => Ok((hp, mp)),
        _ => Err(SearchError::invalid("character__param")),
    }
}

/// The user id in the target of a profile link: the first run of digits in
/// it, as long as it can be, read as a number of 32 bits.
pub open spec fn user_id_from(href: Option<Seq<char>>) -> Result<u32, SearchFailure> {
    match href {
        None => Err(SearchFailure::InvalidData("missing user profile href"@)),
        Some(href) => u32_from(first_digits(href), "user id"@),
    }
}

/// Reads the user id out of the target of a profile link. Fails where the
/// link has no target, the target holds no digit, or the digits spell a
/// number beyond 32 bits.
pub fn decode_user_id(href: Option<&str>) -> (id: Result<u32, SearchError>)
    ensures
        outcome(id) == user_id_from(text_in(href)),
{
    match href {
        None => Err(SearchError::invalid("missing user profile href")),
        Some(href) => {
            let chars = chars_of(href);
            let run = first_digit_run(&chars);
            decode_u32(&run, "user id")
        },
    }
}

/// The home that two names stand for; the failure names the one that is
/// unknown, the world first.
pub open spec fn home_named(server: Seq<char>, datacenter: Seq<char>) -> Result<
    HomeInfo,
    SearchFailure,
> {
    match Server::named(server) {
        None => Err(SearchFailure::InvalidData("server"@)),
        Some(server) => match Datacenter::named(datacenter) {
            None => Err(SearchFailure::InvalidData("datacenter"@)),
            Some(datacenter) => Ok(HomeInfo { server, datacenter }),
        },
    }
}

/// Looks up a world and a data center by their names.
pub fn decode_home_names(server: &Vec<char>, datacenter: &Vec<char>) -> (home: Result<
    HomeInfo,
    SearchError,
>)
    ensures
        outcome(home) == home_named(server@, datacenter@),
{
    match Server::from_chars(server) {
        None => Err(SearchError::invalid("server")),
        Some(server) => match Datacenter::from_chars(datacenter) {
            None => Err(SearchError::invalid("datacenter")),
            Some(datacenter) => Ok(HomeInfo { server, datacenter }),
        },
    }
}

/// The home in a line of a result list, which reads `World [Data center]`:
/// the text is cut at each ` [`, which must give two pieces, and the second
/// piece loses the brackets that close it.
pub open spec fn listed_home_from(text: Seq<char>) -> Result<HomeInfo, SearchFailure> {
    let parts = split(text, " ["@);
    if parts.len() != 2 {
        Err(SearchFailure::InvalidData("entry__world"@))
    } else {
        home_named(parts[0], trim_end(parts[1], ']'))
    }
}

/// Reads the home out of a line of a result list.
pub fn decode_listed_home(text: &str) -> (home: Result<HomeInfo, SearchError>)
    ensures
        outcome(home) == listed_home_from(text@),
{
    let chars = chars_of(text);
    let pat = chars_of(" [");
    let parts = split_text(&chars, &pat);
    if parts.len() != 2 {
        return Err(SearchError::invalid("entry__world"));
    }
    assert(views(parts@)[0] == parts@[0]@ && views(parts@)[1] == parts@[1]@);
    let datacenter = trim_end_text(&parts[1], ']');
    decode_home_names(&parts[0], &datacenter)
}

/// `text` without square brackets.
pub open spec fn without_brackets(text: Seq<char>) -> Seq<char> {
    replace(replace(text, "["@, ""@), "]"@, ""@)
}

/// Removes the square brackets from `text`.
pub fn strip_brackets(text: &Vec<char>) -> (out: Vec<char>)
    ensures
        out@ == without_brackets(text@),
{
    let open = chars_of("[");
    let close = chars_of("]");
    let nothing = chars_of("");
    let opened = replace_text(text, &open, &nothing);
    replace_text(&opened, &close, &nothing)
}

/// The home on a profile page, which reads `World [Data center]` and may go
/// on after a no-break space: of what stands before the first no-break
/// space, the first two words, without their brackets. Fewer than two words
/// are a failure.
pub open spec fn home_from(text: Seq<char>) -> Result<HomeInfo, SearchFailure> {
    let names = words(split(text, "\u{A0}"@)[0]);
    if names.len() < 2 {
        Err(SearchFailure::InvalidData("frame__chara__world"@))
    } else {
        home_named(without_brackets(names[0]), without_brackets(names[1]))
    }
}

/// Reads the home out of the world line of a profile page.
pub fn decode_home(text: &str) -> (home: Result<HomeInfo, SearchError>)
    ensures
        outcome(home) == home_from(text@),
{
    let chars = chars_of(text);
    let pat = chars_of("\u{A0}");
    let parts = split_text(&chars, &pat);
    assert(views(parts@)[0] == parts@[0]@);
    let names = split_words(&parts[0]);
    if names.len() < 2 {
        return Err(SearchError::invalid("frame__chara__world"));
    }
    assert(views(names@)[0] == names@[0]@ && views(names@)[1] == names@[1]@);
    let server = strip_brackets(&names[0]);
    let datacenter = strip_brackets(&names[1]);
    decode_home_names(&server, &datacenter)
}

/// The address of a portrait: the source of its image, which must be there.
pub open spec fn image_source_from(source: Option<Seq<char>>) -> Result<Seq<char>, SearchFailure> {
    match source {
        Some(source) => Ok(source),
        None => Err(SearchFailure::InvalidData("missing image source"@)),
    }
}

/// Takes the source of an image as the address of a portrait.
pub fn decode_image_source(source: Option<String>) -> (url: Result<String, SearchError>)
    ensures
        outcome(url) == image_source_from(text_within(source)),
{
    match source {
        Some(source) => Ok(source),
        None => Err(SearchError::invalid("missing image source")),
    }
}

/// The name of a free company: the text of its node without the label
/// `Free Company` in front, where the label is there.
pub open spec fn free_company_from(text: Seq<char>) -> Seq<char> {
    without_prefix(text, "Free Company"@)
}

/// Reads the name of a free company.
pub fn decode_free_company(text: &str) -> (name: String)
    ensures
        name@ == free_company_from(text@),
{
    let chars = chars_of(text);
    let label = chars_of("Free Company");
    let name = strip_prefix_text(&chars, &label);
    string_of(&name)
}

/// The block that names race, clan and gender, made ready for cutting into
/// words: every line break becomes a space, and so does every ` / `, which
/// sets the clan off from the gender.
pub open spec fn char_block(inner: Seq<char>) -> Seq<char> {
    replace(replace(inner, "<br>"@, " "@), " / "@, " "@)
}

/// The names in the block: the words that are left when line breaks and
/// bars have become spaces.
pub open spec fn char_words(inner: Seq<char>) -> Seq<Seq<char>> {
    words(char_block(inner))
}

/// What three or four names say of a character. Three names are race, clan
/// and gender. Four names stand for the one race whose name has two words:
/// the first two are passed over, the race is Au Ra, and the last two are
/// clan and gender. Any other number of names is a failure, as is a name
/// that is unknown, the first such name deciding.
pub open spec fn char_info_named(names: Seq<Seq<char>>) -> Result<CharInfo, SearchFailure> {
    if names.len() == 4 {
        match Clan::named(names[2]) {
            None => Err(SearchFailure::InvalidData("clan"@)),
            Some(clan) => match Gender::signed(names[3]) {
                None => Err(SearchFailure::InvalidData("gender"@)),
                Some(gender) => Ok(CharInfo { race: Race::Aura, clan, gender }),
            },
        }
    } else if names.len() == 3 {
        match Race::named(names[0]) {
            None => Err(SearchFailure::InvalidData("race"@)),
            Some(race) => match Clan::named(names[1]) {
                None => Err(SearchFailure::InvalidData("clan"@)),
                Some(clan) => match Gender::signed(names[2]) {
                    None => Err(SearchFailure::InvalidData("gender"@)),
                    Some(gender) => Ok(CharInfo { race, clan, gender }),
                },
            },
        }
    } else {
        Err(SearchFailure::InvalidData("character block name"@))
    }
}

/// What the block that names race, clan and gender says of a character.
pub open spec fn char_info_from(inner: Seq<char>) -> Result<CharInfo, SearchFailure> {
    char_info_named(char_words(inner))
}

/// Looks up a clan and a gender by their names.
fn decode_clan_gender(race: Race, clan: &Vec<char>, gender: &Vec<char>) -> (info: Result<
    CharInfo,
    SearchError,
>)
    ensures
        outcome(info) == (match Clan::named(clan@) {
            None => Err(SearchFailure::InvalidData("clan"@)),
            Some(clan) => match Gender::signed(gender@) {
                None => Err(SearchFailure::InvalidData("gender"@)),
                Some(gender) => Ok(CharInfo { race, clan, gender }),
            },
        }),
{
    match Clan::from_chars(clan) {
        None => Err(SearchError::invalid("clan")),
        Some(clan) => match Gender::from_chars(gender) {
            None => Err(SearchError::invalid("gender")),
            Some(gender) => Ok(CharInfo { race, clan, gender }),
        },
    }
}

/// Decodes race, clan and gender from three or four names.
pub fn decode_char_names(names: &Vec<Vec<char>>) -> (info: Result<CharInfo, SearchError>)
    ensures
        outcome(info) == char_info_named(views(names@)),
{
    if names.len() == 4 {
        assert(views(names@)[2] == names@[2]@ && views(names@)[3] == names@[3]@);
        decode_clan_gender(Race::Aura, &names[2], &names[3])
    } else if names.len() == 3 {
        assert(views(names@)[0] == names@[0]@ && views(names@)[1] == names@[1]@ && views(
            names@,
        )[2] == names@[2]@);
        match Race::from_chars(&names[0]) {
            None => Err(SearchError::invalid("race")),
            Some(race) => decode_clan_gender(race, &names[1], &names[2]),
        }
    } else {
        Err(SearchError::invalid("character block name"))
    }
}

/// Cuts the block that names race, clan and gender into its names.
pub fn split_char_block(inner: &str) -> (names: Vec<Vec<char>>)
    ensures
        views(names@) == char_words(inner@),
{
    let space = chars_of(" ");
    let line_break = chars_of("<br>");
    let bar = chars_of(" / ");
    let chars = chars_of(inner);
    let lines = replace_text(&chars, &line_break, &space);
    let block = replace_text(&lines, &bar, &space);
    split_words(&block)
}

/// Decodes race, clan and gender from the block that names them.
pub fn decode_char_info(inner: &str) -> (info: Result<CharInfo, SearchError>)
    ensures
        outcome(info) == char_info_from(inner@),
{
    let names = split_char_block(inner);
    decode_char_names(&names)
}

/// The identifier in the target of an item link, such as
/// `/lodestone/playguide/db/item/23c482f7f46/`: cut at each `/`, the target
/// must give seven pieces, and the identifier is the sixth.
pub open spec fn gear_link_from(href: Option<Seq<char>>) -> Result<Seq<char>, SearchFailure> {
    match href {
        None => Err(SearchFailure::InvalidData("missing gear link"@)),
        Some(href) => {
            let parts = split(href, "/"@);
            if parts.len() != 7 {
                Err(SearchFailure::InvalidData("invalid gear link"@))
            } else {
                Ok(parts[5])
            }
        },
    }
}

/// Reads the identifier of an item out of the target of its link.
pub fn decode_gear_link(href: Option<&str>) -> (id: Result<String, SearchError>)
    ensures
        outcome(id) == gear_link_from(text_in(href)),
{
    match href {
        None => Err(SearchError::invalid("missing gear link")),
        Some(href) => {
            let chars = chars_of(href);
            let slash = chars_of("/");
            let parts = split_text(&chars, &slash);
            if parts.len() != 7 {
                return Err(SearchError::invalid("invalid gear link"));
            }
            assert(views(parts@)[5] == parts@[5]@);
            Ok(string_of(&parts[5]))
        },
    }
}

/// One side of an experience reading: `--` stands for no value; any other
/// text is a number, in which commas may group the digits.
pub open spec fn xp_from(text: Seq<char>) -> Result<Option<u64>, SearchFailure> {
    if text == "--"@ {
        Ok(None)
    } else {
        match parse_unsigned(replace(text, ","@, ""@), 0xFFFF_FFFF_FFFF_FFFF) {
            Some(n) => Ok(Some(n as u64)),
            None => Err(SearchFailure::InvalidData("character__job__exp"@)),
        }
    }
}

/// Reads one side of an experience reading.
pub fn decode_xp(text: &Vec<char>) -> (xp: Result<Option<u64>, SearchError>)
    ensures
        outcome(xp) == xp_from(text@),
{
    if same_text(text, "--") {
        return Ok(None);
    }
    let comma = chars_of(",");
    let nothing = chars_of("");
    let digits = replace_text(text, &comma, &nothing);
    match parse_number(&digits, 0xFFFF_FFFF_FFFF_FFFF) {
        Some(n) => Ok(Some(n)),
        None => Err(SearchError::invalid("character__job__exp")),
    }
}

/// An experience reading, which reads `gathered / needed`: the text is cut
/// at each ` / `, which must give two pieces or more, and the first two are
/// the two sides.
pub open spec fn experience_from(text: Seq<char>) -> Result<
    (Option<u64>, Option<u64>),
    SearchFailure,
> {
    let parts = split(text, " / "@);
    if parts.len() < 2 {
        Err(SearchFailure::InvalidData("character__job__exp"@))
    } else {
        match xp_from(parts[0]) {
            Err(e) => Err(e),
            Ok(current) => match xp_from(parts[1]) {
                Err(e) => Err(e),
                Ok(max) => Ok((current, max)),
            },
        }
    }
}

/// Reads an experience reading.
pub fn decode_experience(text: &str) -> (xp: Result<(Option<u64>, Option<u64>), SearchError>)
    ensures
        outcome(xp) == experience_from(text@),
{
    let chars = chars_of(text);
    let bar = chars_of(" / ");
    let parts = split_text(&chars, &bar);
    if parts.len() < 2 {
        return Err(SearchError::invalid("character__job__exp"));
    }
    assert(views(parts@)[0] == parts@[0]@ && views(parts@)[1] == parts@[1]@);
    match decode_xp(&parts[0]) {
        Err(e) => Err(e),
        Ok(current) => match decode_xp(&parts[1]) {
            Err(e) => Err(e),
            Ok(max) => Ok((current, max)),
        },
    }
}

/// What a line of the class listing says of a class. A level of `-` stands
/// for a class that was never played. Else the experience reading must have
/// its two sides, the level must be a number of 32 bits, and the two sides
/// must be readable, the first of these to fail deciding.
pub open spec fn class_info_from(level: Seq<char>, experience: Seq<char>) -> Result<
    Option<ClassInfo>,
    SearchFailure,
> {
    if level == "-"@ {
        Ok(None)
    } else if split(experience, " / "@).len() < 2 {
        Err(SearchFailure::InvalidData("character__job__exp"@))
    } else {
        match u32_from(level, "character__job__level"@) {
            Err(e) => Err(e),
            Ok(level) => match experience_from(experience) {
                Err(e) => Err(e),
                Ok(xp) => Ok(Some(ClassInfo { level, current_xp: xp.0, max_xp: xp.1 })),
            },
        }
    }
}

/// Whether a level stands for a class that was never played.
pub fn level_is_blank(level: &str) -> (blank: bool)
    ensures
        blank == (level@ == "-"@),
{
    let chars = chars_of(level);
    same_text(&chars, "-")
}

/// Reads level and experience of a class that was played.
pub fn decode_class_info(level: &str, experience: &str) -> (info: Result<
    Option<ClassInfo>,
    SearchError,
>)
    ensures
        outcome(info) == class_info_from(level@, experience@),
{
    if level_is_blank(level) {
        return Ok(None);
    }
    let chars = chars_of(experience);
    let bar = chars_of(" / ");
    let parts = split_text(&chars, &bar);
    if parts.len() < 2 {
        return Err(SearchError::invalid("character__job__exp"));
    }
    let level_chars = chars_of(level);
    match decode_u32(&level_chars, "character__job__level") {
        Err(e) => Err(e),
        Ok(level) => match decode_experience(experience) {
            Err(e) => Err(e),
            Ok(xp) => Ok(Some(ClassInfo { level, current_xp: xp.0, max_xp: xp.1 })),
        },
    }
}

/// The class that a line of the listing names. The line may name two
/// classes, as in `Paladin / Gladiator`: the first counts.
pub open spec fn class_from(name: Seq<char>) -> Result<ClassType, SearchFailure> {
    match ClassType::named(split(name, " / "@)[0]) {
        Some(class) => Ok(class),
        None => Err(SearchFailure::InvalidData("character__job__name"@)),
    }
}

/// Reads the class that a line of the listing names.
pub fn decode_class(name: &str) -> (class: Result<ClassType, SearchError>)
    ensures
        outcome(class) == class_from(name@),
{
    let chars = chars_of(name);
    let bar = chars_of(" / ");
    let parts = split_text(&chars, &bar);
    assert(views(parts@)[0] == parts@[0]@);
    match ClassType::from_chars(&parts[0]) {
        Some(class) => Ok(class),
        None => Err(SearchError::invalid("character__job__name")),
    }
}

/// Three names are read by their places: race, clan, gender.
pub proof fn law_three_names_by_place(names: Seq<Seq<char>>)
    requires
        names.len() == 3,
    ensures
        match char_info_named(names) {
            Ok(info) => Race::named(names[0]) == Some(info.race) && Clan::named(names[1]) == Some(
                info.clan,
            ) && Gender::signed(names[2]) == Some(info.gender),
            Err(e) => (Race::named(names[0]) is None || Clan::named(names[1]) is None
                || Gender::signed(names[2]) is None) && e is InvalidData,
        },
{
}

/// Of four names the first two are passed over, whatever they are: the race
/// is Au Ra, and the last two are clan and gender.
pub proof fn law_four_names_skip_two(names: Seq<Seq<char>>)
    requires
        names.len() == 4,
    ensures
        match char_info_named(names) {
            Ok(info) => info.race == Race::Aura && Clan::named(names[2]) == Some(info.clan)
                && Gender::signed(names[3]) == Some(info.gender),
            Err(e) => (Clan::named(names[2]) is None || Gender::signed(names[3]) is None)
                && e is InvalidData,
        },
{
}

/// Any number of names but three or four is a failure: two names and five
/// names among them.
pub proof fn law_other_counts_fail(names: Seq<Seq<char>>)
    requires
        names.len() != 3,
        names.len() != 4,
    ensures
        char_info_named(names) == Err::<CharInfo, SearchFailure>(
            SearchFailure::InvalidData("character block name"@),
        ),
{
}

/// A target gives an identifier exactly when it has seven pieces between
/// its slashes, and the identifier is then the sixth piece.
pub proof fn law_gear_link_seven_pieces(href: Seq<char>)
    ensures
        split(href, "/"@).len() == 7 ==> gear_link_from(Some(href)) == Ok::<
            Seq<char>,
            SearchFailure,
        >(split(href, "/"@)[5]),
        split(href, "/"@).len() != 7 ==> gear_link_from(Some(href)) == Err::<
            Seq<char>,
            SearchFailure,
        >(SearchFailure::InvalidData("invalid gear link"@)),
{
}

/// A text in which ` [` does not occur is one piece, and gives no home.
pub proof fn law_home_needs_bracket(text: Seq<char>)
    requires
        forall|i: int| !occurs_at(text, " ["@, i),
    ensures
        listed_home_from(text) == Err::<HomeInfo, SearchFailure>(
            SearchFailure::InvalidData("entry__world"@),
        ),
{
    reveal_strlit(" [");
    lemma_first_match(text, " ["@, 0);
}

/// Whether a text holds neither `<` nor `/`, the characters that line
/// breaks and bars are made of.
pub open spec fn unmarked(text: Seq<char>) -> bool {
    forall|i: int| 0 <= i < text.len() ==> #[trigger] text[i] != '<' && text[i] != '/'
}

/// Whether a name is one word: it is not empty and holds no white space,
/// no `<` and no `/`.
pub open spec fn one_word(name: Seq<char>) -> bool {
    name.len() > 0 && unmarked(name) && forall|i: int|
        0 <= i < name.len() ==> !is_space(#[trigger] name[i])
}

/// In a block that reads head, line break, clan, bar, gender, the line
/// break and the bar become one space each and nothing else changes.
pub proof fn lemma_block_joined(head: Seq<char>, clan: Seq<char>, gender: Seq<char>)
    requires
        unmarked(head),
        one_word(clan),
        one_word(gender),
    ensures
        char_block(head + "<br>"@ + clan + " / "@ + gender) == head + " "@ + clan + " "@ + gender,
{
    reveal_strlit("<br>");
    reveal_strlit(" / ");
    reveal_strlit(" ");
    let line_break = "<br>"@;
    let bar = " / "@;
    let space = " "@;
    let s = head + line_break + clan + bar + gender;
    let at = head.len() as int;
    assert(s.subrange(at, at + 4) =~= line_break);
    assert forall|i: int| i != at implies !occurs_at(s, line_break, i) by {
        if occurs_at(s, line_break, i) {
            assert(s.subrange(i, i + 4)[0] == s[i]);
            assert(line_break[0] == '<');
            if i < at {
                assert(s[i] == head[i]);
            } else if i < at + 4 {
                assert(s[i] == line_break[i - at]);
            } else if i < at + 4 + clan.len() {
                assert(s[i] == clan[i - at - 4]);
            } else if i < at + 4 + clan.len() + 3 {
                assert(s[i] == bar[i - at - 4 - clan.len()]);
            } else {
                assert(s[i] == gender[i - at - 4 - clan.len() - 3]);
            }
        }
    }
    lemma_replace_once(s, line_break, space, at);
    let t = head + space + clan + bar + gender;
    assert(s.subrange(0, at) + space + s.subrange(at + 4, s.len() as int) =~= t);
    let p = at + 1 + clan.len();
    assert(t.subrange(p, p + 3) =~= bar);
    assert forall|i: int| i != p implies !occurs_at(t, bar, i) by {
        if occurs_at(t, bar, i) {
            assert(t.subrange(i, i + 3)[1] == t[i + 1]);
            assert(bar[1] == '/');
            let k = i + 1;
            if k < at {
                assert(t[k] == head[k]);
            } else if k < at + 1 {
                assert(t[k] == space[k - at]);
            } else if k < p {
                assert(t[k] == clan[k - at - 1]);
            } else if k < p + 3 {
                assert(t[k] == bar[k - p]);
            } else {
                assert(t[k] == gender[k - p - 3]);
            }
        }
    }
    lemma_replace_once(t, bar, space, p);
    assert(t.subrange(0, p) + space + t.subrange(p + 3, t.len() as int) =~= head + space + clan
        + space + gender);
}

/// A block that reads race, line break, clan, bar, gender, each of them one
/// word, gives exactly these three names, and so is decoded by their
/// places.
pub proof fn law_block_of_three_names(race: Seq<char>, clan: Seq<char>, gender: Seq<char>)
    requires
        one_word(race),
        one_word(clan),
        one_word(gender),
    ensures
        char_words(race + "<br>"@ + clan + " / "@ + gender) == seq![race, clan, gender],
        char_info_from(race + "<br>"@ + clan + " / "@ + gender) == char_info_named(
            seq![race, clan, gender],
        ),
        forall|r: Race, c: Clan, g: Gender|
            Race::named(race) == Some(r) && Clan::named(clan) == Some(c) && Gender::signed(gender)
                == Some(g) ==> char_info_from(race + "<br>"@ + clan + " / "@ + gender) == Ok::<
                CharInfo,
                SearchFailure,
            >(CharInfo { race: r, clan: c, gender: g }),
{
    reveal_strlit(" ");
    lemma_block_joined(race, clan, gender);
    let space = " "@;
    let u = race + space + clan + space + gender;
    let a = race.len() as int;
    let b = a + 1 + clan.len();
    assert forall|k: int| 0 <= k < a implies !is_space(#[trigger] u[k]) by {
        assert(u[k] == race[k]);
    }
    assert forall|k: int| a + 1 <= k < b implies !is_space(#[trigger] u[k]) by {
        assert(u[k] == clan[k - a - 1]);
    }
    assert forall|k: int| b + 1 <= k < u.len() implies !is_space(#[trigger] u[k]) by {
        assert(u[k] == gender[k - b - 1]);
    }
    assert(u[a] == space[0] && u[b] == space[0]);
    lemma_first_word(u, 0, a);
    lemma_space_before_word(u, a);
    lemma_first_word(u, a + 1, b);
    lemma_space_before_word(u, b);
    lemma_first_word(u, b + 1, u.len() as int);
    lemma_no_word_at_end(u);
    assert(u.subrange(0, a) =~= race);
    assert(u.subrange(a + 1, b) =~= clan);
    assert(u.subrange(b + 1, u.len() as int) =~= gender);
    assert(words(u) =~= seq![race, clan, gender]);
}

/// A block that starts with a race of two words, then reads line break,
/// clan, bar, gender, each one word, gives four names. The two words of the
/// race are passed over, whatever they are: the race is Au Ra, and clan and
/// gender are decoded from the last two names.
pub proof fn law_block_of_four_names(
    first: Seq<char>,
    second: Seq<char>,
    clan: Seq<char>,
    gender: Seq<char>,
)
    requires
        one_word(first),
        one_word(second),
        one_word(clan),
        one_word(gender),
    ensures
        char_words(first + " "@ + second + "<br>"@ + clan + " / "@ + gender) == seq![
            first,
            second,
            clan,
            gender,
        ],
        char_info_from(first + " "@ + second + "<br>"@ + clan + " / "@ + gender)
            == char_info_named(seq![first, second, clan, gender]),
        forall|c: Clan, g: Gender|
            Clan::named(clan) == Some(c) && Gender::signed(gender) == Some(g) ==> char_info_from(
                first + " "@ + second + "<br>"@ + clan + " / "@ + gender,
            ) == Ok::<CharInfo, SearchFailure>(CharInfo { race: Race::Aura, clan: c, gender: g }),
{
    reveal_strlit(" ");
    let space = " "@;
    let head = first + space + second;
    assert forall|i: int| 0 <= i < head.len() implies #[trigger] head[i] != '<' && head[i]
        != '/' by {
        if i < first.len() {
            assert(head[i] == first[i]);
        } else if i == first.len() {
            assert(head[i] == space[0]);
        } else {
            assert(head[i] == second[i - first.len() - 1]);
        }
    }
    lemma_block_joined(head, clan, gender);
    let u = first + space + second + space + clan + space + gender;
    assert(head + space + clan + space + gender =~= u);
    let a = first.len() as int;
    let b = a + 1 + second.len();
    let c = b + 1 + clan.len();
    assert forall|k: int| 0 <= k < a implies !is_space(#[trigger] u[k]) by {
        assert(u[k] == first[k]);
    }
    assert forall|k: int| a + 1 <= k < b implies !is_space(#[trigger] u[k]) by {
        assert(u[k] == second[k - a - 1]);
    }
    assert forall|k: int| b + 1 <= k < c implies !is_space(#[trigger] u[k]) by {
        assert(u[k] == clan[k - b - 1]);
    }
    assert forall|k: int| c + 1 <= k < u.len() implies !is_space(#[trigger] u[k]) by {
        assert(u[k] == gender[k - c - 1]);
    }
    assert(u[a] == space[0] && u[b] == space[0] && u[c] == space[0]);
    lemma_first_word(u, 0, a);
    lemma_space_before_word(u, a);
    lemma_first_word(u, a + 1, b);
    lemma_space_before_word(u, b);
    lemma_first_word(u, b + 1, c);
    lemma_space_before_word(u, c);
    lemma_first_word(u, c + 1, u.len() as int);
    lemma_no_word_at_end(u);
    assert(u.subrange(0, a) =~= first);
    assert(u.subrange(a + 1, b) =~= second);
    assert(u.subrange(b + 1, c) =~= clan);
    assert(u.subrange(c + 1, u.len() as int) =~= gender);
    assert(words(u) =~= seq![first, second, clan, gender]);
}

} // verus!
