use lodestone::fields::{
    classify_param, decode_params, ParamKind, decode_char_info, decode_char_names, decode_class, decode_class_info, decode_experience,
    decode_free_company, decode_gear_link, decode_home, decode_image_source, decode_listed_home,
    decode_u16, decode_u32, decode_user_id, decode_xp, level_is_blank, split_char_block,
    strip_brackets, CharInfo, HomeInfo,
};
use lodestone::model::clan::Clan;
use lodestone::model::class::{ClassInfo, ClassType};
use lodestone::model::datacenter::Datacenter;
use lodestone::model::gender::Gender;
use lodestone::model::profile::{Profile, SearchError};
use lodestone::model::race::Race;
use lodestone::model::server::Server;

fn cs(s: &str) -> Vec<char> {
    s.chars().collect()
}

fn invalid(field: &str) -> SearchError {
    SearchError::InvalidData(field.to_string())
}

#[test]
fn numbers_of_32_and_16_bits() {
    assert_eq!(decode_u32(&cs("4294967295"), "f"), Ok(4294967295));
    assert_eq!(decode_u32(&cs("4294967296"), "f"), Err(invalid("f")));
    assert_eq!(decode_u32(&cs("12,3"), "hp"), Err(invalid("hp")));
    assert_eq!(decode_u16(&cs("65535"), "f"), Ok(65535));
    assert_eq!(decode_u16(&cs("65536"), "f"), Err(invalid("f")));
    assert_eq!(decode_u16(&cs(""), "f"), Err(invalid("f")));
}

#[test]
fn user_id_is_the_first_digit_run() {
    assert_eq!(decode_user_id(Some("/lodestone/character/12345/")), Ok(12345));
    assert_eq!(decode_user_id(Some("/lodestone/character/12345/class_job/9/")), Ok(12345));
    assert_eq!(decode_user_id(Some("77")), Ok(77));
}

#[test]
fn user_id_failures() {
    assert_eq!(decode_user_id(None), Err(invalid("missing user profile href")));
    assert_eq!(decode_user_id(Some("/lodestone/character/")), Err(invalid("user id")));
    assert_eq!(decode_user_id(Some("/c/99999999999/")), Err(invalid("user id")));
}

#[test]
fn listed_home_splits_server_and_datacenter() {
    assert_eq!(
        decode_listed_home("Gilgamesh [Primal]"),
        Ok(HomeInfo { server: Server::Gilgamesh, datacenter: Datacenter::Primal })
    );
    assert_eq!(
        decode_listed_home("Cerberus [Chaos]]]"),
        Ok(HomeInfo { server: Server::Cerberus, datacenter: Datacenter::Chaos })
    );
}

#[test]
fn listed_home_failures() {
    assert_eq!(decode_listed_home("Gilgamesh"), Err(invalid("entry__world")));
    assert_eq!(decode_listed_home("Gilgamesh[Primal]"), Err(invalid("entry__world")));
    assert_eq!(decode_listed_home("Gilgamesh [Primal] [x]"), Err(invalid("entry__world")));
    assert_eq!(decode_listed_home("Nowhere [Primal]"), Err(invalid("server")));
    assert_eq!(decode_listed_home("Gilgamesh [Nowhere]"), Err(invalid("datacenter")));
    assert_eq!(decode_listed_home("Gilgamesh [Primal] "), Err(invalid("datacenter")));
}

#[test]
fn page_home_reads_the_first_two_words() {
    let home = HomeInfo { server: Server::Gilgamesh, datacenter: Datacenter::Aether };
    assert_eq!(decode_home("Gilgamesh [Aether]"), Ok(home));
    assert_eq!(decode_home("  Gilgamesh   [Aether]\u{A0}Traveling"), Ok(home));
    assert_eq!(decode_home("Gilgamesh [Aether] more words"), Ok(home));
    assert_eq!(string(&strip_brackets(&cs("[[Aether]"))), "Aether");
}

fn string(chars: &Vec<char>) -> String {
    chars.iter().collect()
}

#[test]
fn page_home_failures() {
    assert_eq!(decode_home("Gilgamesh"), Err(invalid("frame__chara__world")));
    assert_eq!(decode_home(""), Err(invalid("frame__chara__world")));
    assert_eq!(decode_home("Gilgamesh\u{A0}[Aether]"), Err(invalid("frame__chara__world")));
    assert_eq!(decode_home("Nowhere [Aether]"), Err(invalid("server")));
    assert_eq!(decode_home("Gilgamesh [Nowhere]"), Err(invalid("datacenter")));
}

#[test]
fn image_source_must_be_there() {
    assert_eq!(decode_image_source(Some("https://x/y.jpg".to_string())), Ok("https://x/y.jpg".to_string()));
    assert_eq!(decode_image_source(None), Err(invalid("missing image source")));
}

#[test]
fn free_company_loses_its_label() {
    assert_eq!(decode_free_company("Free CompanyThe Guild"), "The Guild");
    assert_eq!(decode_free_company("The Guild"), "The Guild");
    assert_eq!(decode_free_company("Free Company"), "");
}

#[test]
fn three_names_are_race_clan_gender() {
    let expected = CharInfo { race: Race::Lalafell, clan: Clan::Dunesfolk, gender: Gender::Female };
    assert_eq!(decode_char_info("Lalafell<br>Dunesfolk / ♀"), Ok(expected));
    assert_eq!(decode_char_info(" Lalafell <br> Dunesfolk / ♀\n"), Ok(expected));
    assert_eq!(
        decode_char_names(&vec![cs("Lalafell"), cs("Dunesfolk"), cs("♀")]),
        Ok(expected)
    );
    assert_eq!(
        decode_char_info("Hyur<br>Midlander / ♂"),
        Ok(CharInfo { race: Race::Hyur, clan: Clan::Midlander, gender: Gender::Male })
    );
    assert_eq!(
        decode_char_names(&vec![cs("Miqo'te"), cs("Seeker of the Sun"), cs("♀")]),
        Ok(CharInfo { race: Race::Miqote, clan: Clan::SeekerOfTheSun, gender: Gender::Female })
    );
    assert_eq!(
        split_char_block("Hyur<br>Midlander / ♂"),
        vec![cs("Hyur"), cs("Midlander"), cs("♂")]
    );
}

#[test]
fn four_names_are_the_two_word_race() {
    let expected = CharInfo { race: Race::Aura, clan: Clan::Xaela, gender: Gender::Female };
    assert_eq!(decode_char_names(&vec![cs("Au"), cs("Ra"), cs("Xaela"), cs("♀")]), Ok(expected));
    assert_eq!(decode_char_names(&vec![cs("x"), cs("y"), cs("Xaela"), cs("♀")]), Ok(expected));
    assert_eq!(decode_char_info("Au Ra<br>Xaela / ♀"), Ok(expected));
    assert_eq!(decode_char_info("Au\nRa<br>Xaela / ♀"), Ok(expected));
    assert_eq!(
        decode_char_info("A B<br>Raen / ♀"),
        Ok(CharInfo { race: Race::Aura, clan: Clan::Raen, gender: Gender::Female })
    );
    assert_eq!(
        split_char_block("Au Ra<br>Raen / ♂"),
        vec![cs("Au"), cs("Ra"), cs("Raen"), cs("♂")]
    );
}

#[test]
fn two_or_five_names_fail() {
    let wrong = Err(invalid("character block name"));
    assert_eq!(decode_char_names(&vec![cs("Hyur"), cs("Midlander")]), wrong);
    assert_eq!(
        decode_char_names(&vec![cs("Au"), cs("Ra"), cs("Xaela"), cs("♀"), cs("x")]),
        wrong
    );
    assert_eq!(decode_char_names(&vec![]), wrong);
    assert_eq!(decode_char_info("Hyur<br>Midlander"), wrong);
    assert_eq!(decode_char_info("a<br>b<br>c<br>d<br>e"), wrong);
    assert_eq!(decode_char_info("Hyur<br>Midlander/♂"), wrong);
    assert_eq!(decode_char_info("Miqo'te<br>Seeker of the Sun / ♀"), wrong);
    assert_eq!(decode_char_info("Au Ra<br>Raen / ♂ x"), wrong);
    assert_eq!(decode_char_info(""), wrong);
}

#[test]
fn unknown_names_fail_in_order() {
    assert_eq!(decode_char_info("Elf<br>Nobody / x"), Err(invalid("race")));
    assert_eq!(decode_char_info("Hyur<br>Nobody / x"), Err(invalid("clan")));
    assert_eq!(decode_char_info("Hyur<br>Midlander / x"), Err(invalid("gender")));
    assert_eq!(
        decode_char_names(&vec![cs("Au"), cs("Ra"), cs("Nobody"), cs("x")]),
        Err(invalid("clan"))
    );
    assert_eq!(
        decode_char_names(&vec![cs("Au"), cs("Ra"), cs("Raen"), cs("x")]),
        Err(invalid("gender"))
    );
}

#[test]
fn gear_link_with_seven_segments() {
    assert_eq!(
        decode_gear_link(Some("/lodestone/playguide/db/item/23c482f7f46/")),
        Ok("23c482f7f46".to_string())
    );
    assert_eq!(Profile::parse_gear_link(Some("a/b/c/d/e/f/g")), Ok("f".to_string()));
    assert_eq!(Profile::parse_gear_link(Some("//////")), Ok("".to_string()));
}

#[test]
fn gear_link_with_six_or_eight_segments_fails() {
    let wrong = Err(invalid("invalid gear link"));
    assert_eq!(Profile::parse_gear_link(Some("/lodestone/playguide/db/item/23c482f7f46")), wrong);
    assert_eq!(Profile::parse_gear_link(Some("/lodestone/playguide/db/item/23c482f7f46/x/")), wrong);
    assert_eq!(Profile::parse_gear_link(Some("")), wrong);
    assert_eq!(Profile::parse_gear_link(None), Err(invalid("missing gear link")));
    assert_eq!(decode_gear_link(None), Err(invalid("missing gear link")));
}

#[test]
fn experience_with_numbers_and_placeholders() {
    assert_eq!(decode_experience("1,234 / 2,000"), Ok((Some(1234), Some(2000))));
    assert_eq!(decode_experience("-- / --"), Ok((None, None)));
    assert_eq!(decode_experience("0 / 300"), Ok((Some(0), Some(300))));
    assert_eq!(decode_experience("12 / -- / 7"), Ok((Some(12), None)));
    assert_eq!(decode_xp(&cs("18,446,744,073,709,551,615")), Ok(Some(u64::MAX)));
}

#[test]
fn experience_failures() {
    let wrong = Err(invalid("character__job__exp"));
    assert_eq!(decode_experience("1234"), wrong);
    assert_eq!(decode_experience("1234/2000"), wrong);
    assert_eq!(decode_experience("a / 2"), wrong);
    assert_eq!(decode_experience("1 / b"), wrong);
    assert_eq!(decode_experience(" / "), wrong);
    assert_eq!(decode_xp(&cs("-")), Err(invalid("character__job__exp")));
}

#[test]
fn class_info_of_a_line() {
    assert!(level_is_blank("-"));
    assert!(!level_is_blank("--"));
    assert_eq!(decode_class_info("-", "anything"), Ok(None));
    assert_eq!(
        decode_class_info("90", "-- / --"),
        Ok(Some(ClassInfo { level: 90, current_xp: None, max_xp: None }))
    );
    assert_eq!(
        decode_class_info("25", "1,234 / 2,000"),
        Ok(Some(ClassInfo { level: 25, current_xp: Some(1234), max_xp: Some(2000) }))
    );
}

#[test]
fn class_info_failures_in_order() {
    assert_eq!(decode_class_info("x", "12"), Err(invalid("character__job__exp")));
    assert_eq!(decode_class_info("x", "a / b"), Err(invalid("character__job__level")));
    assert_eq!(decode_class_info("5", "a / 2"), Err(invalid("character__job__exp")));
}

#[test]
fn class_name_takes_the_first_of_two() {
    assert_eq!(decode_class("Paladin / Gladiator"), Ok(ClassType::Paladin));
    assert_eq!(decode_class("Gladiator"), Ok(ClassType::Gladiator));
    assert_eq!(decode_class("Dark Knight"), Ok(ClassType::DarkKnight));
    assert_eq!(decode_class("Nobody / Paladin"), Err(invalid("character__job__name")));
    assert_eq!(decode_class(""), Err(invalid("character__job__name")));
}

#[test]
fn parameter_items_are_told_by_their_marks() {
    assert_eq!(classify_param(1, 0, 0, 0), ParamKind::Hp);
    assert_eq!(classify_param(1, 1, 1, 1), ParamKind::Hp);
    assert_eq!(classify_param(0, 1, 0, 0), ParamKind::Mp);
    assert_eq!(classify_param(0, 0, 1, 0), ParamKind::Mp);
    assert_eq!(classify_param(2, 0, 0, 1), ParamKind::Mp);
    assert_eq!(classify_param(0, 0, 0, 0), ParamKind::Other);
    assert_eq!(classify_param(2, 2, 2, 2), ParamKind::Other);
    assert_eq!(decode_params(Some(5), Some(6)), Ok((5, 6)));
    assert_eq!(decode_params(None, Some(6)), Err(invalid("character__param")));
    assert_eq!(decode_params(Some(5), None), Err(invalid("character__param")));
    assert_eq!(decode_params(None, None), Err(invalid("character__param")));
}
