use lodestone::model::clan::Clan;
use lodestone::model::class::{ClassInfo, ClassType, Classes};
use lodestone::model::datacenter::Datacenter;
use lodestone::model::domain::Domain;
use lodestone::model::gc::GrandCompany;
use lodestone::model::gender::Gender;
use lodestone::model::language::Language;
use lodestone::model::race::Race;
use lodestone::model::server::Server;
use std::str::FromStr;

#[test]
fn domain_codes_round_trip() {
    let all = [
        (Domain::Japan, "jp"),
        (Domain::NorthAmerica, "na"),
        (Domain::Europe, "eu"),
        (Domain::France, "fr"),
        (Domain::Germany, "de"),
    ];
    for (domain, code) in all {
        assert_eq!(domain.to_string(), code);
        assert_eq!(Domain::parse(code).unwrap(), domain);
        assert_eq!(Domain::from_str(domain.to_string()).unwrap(), domain);
    }
}

#[test]
fn domain_rejects_any_other_text() {
    for text in ["", "JP", "jpn", " jp", "us", "naa"] {
        let e = Domain::parse(text).unwrap_err();
        assert_eq!(e.input(), text);
        assert!(Domain::from_str(text).is_err());
    }
    assert_eq!(
        Domain::parse("xx").unwrap_err().message(),
        "Invalid domain string 'xx'"
    );
}

#[test]
fn servers_and_datacenters_by_name() {
    assert_eq!(Server::parse("Gilgamesh"), Some(Server::Gilgamesh));
    assert_eq!(Server::parse("Zurvan"), Some(Server::Zurvan));
    assert_eq!(Server::parse("gilgamesh"), None);
    assert_eq!(Server::parse(""), None);
    assert_eq!(Server::Midgardsormr.as_str(), "Midgardsormr");
    assert_eq!(Server::parse(Server::Pandaemonium.as_str()), Some(Server::Pandaemonium));
    assert_eq!(Datacenter::parse("Primal"), Some(Datacenter::Primal));
    assert_eq!(Datacenter::parse("Primal]"), None);
    assert_eq!(Datacenter::Aether.as_str(), "Aether");
}

#[test]
fn races_clans_and_genders_by_name() {
    assert_eq!(Race::parse("Au Ra"), Some(Race::Aura));
    assert_eq!(Race::parse("Miqo'te"), Some(Race::Miqote));
    assert_eq!(Race::parse("Aura"), None);
    assert_eq!(Race::Hyur.as_str(), "Hyur");
    assert_eq!(Clan::parse("Seeker of the Sun"), Some(Clan::SeekerOfTheSun));
    assert_eq!(Clan::parse("Raen"), Some(Clan::Raen));
    assert_eq!(Clan::parse("Seeker"), None);
    assert_eq!(Gender::parse("♂"), Some(Gender::Male));
    assert_eq!(Gender::parse("♀"), Some(Gender::Female));
    assert_eq!(Gender::parse("m"), None);
    assert_eq!(Gender::Female.as_str(), "♀");
}

#[test]
fn languages_and_companies_have_their_codes() {
    assert_eq!(Language::Japanese.as_str(), "ja");
    assert_eq!(Language::English.as_str(), "en");
    assert_eq!(Language::German.as_str(), "de");
    assert_eq!(Language::French.as_str(), "fr");
    assert_eq!(Language::parse("en"), Some(Language::English));
    assert_eq!(Language::parse("english"), None);
    assert_eq!(GrandCompany::Unaffiliated.id_str(), "0");
    assert_eq!(GrandCompany::Maelstrom.id_str(), "1");
    assert_eq!(GrandCompany::TwinAdder.id_str(), "2");
    assert_eq!(GrandCompany::ImmortalFlames.id_str(), "3");
    assert_eq!(GrandCompany::parse("Immortal Flames"), Some(GrandCompany::ImmortalFlames));
    assert_eq!(GrandCompany::parse("Unaffiliated"), Some(GrandCompany::Unaffiliated));
}

#[test]
fn classes_by_name_and_base() {
    assert_eq!(ClassType::parse("Dark Knight"), Some(ClassType::DarkKnight));
    assert_eq!(ClassType::parse("Paladin"), Some(ClassType::Paladin));
    assert_eq!(ClassType::parse("Paladin / Gladiator"), None);
    assert_eq!(ClassType::WhiteMage.as_str(), "White Mage");
    assert_eq!(ClassType::Paladin.base_class(), Some(ClassType::Gladiator));
    assert_eq!(ClassType::Warrior.base_class(), Some(ClassType::Marauder));
    assert_eq!(ClassType::WhiteMage.base_class(), Some(ClassType::Conjurer));
    assert_eq!(ClassType::Monk.base_class(), Some(ClassType::Pugilist));
    assert_eq!(ClassType::Dragoon.base_class(), Some(ClassType::Lancer));
    assert_eq!(ClassType::Ninja.base_class(), Some(ClassType::Rogue));
    assert_eq!(ClassType::Bard.base_class(), Some(ClassType::Archer));
    assert_eq!(ClassType::BlackMage.base_class(), Some(ClassType::Thaumaturge));
    assert_eq!(ClassType::Summoner.base_class(), Some(ClassType::Arcanist));
    assert_eq!(ClassType::Scholar.base_class(), None);
    assert_eq!(ClassType::Gladiator.base_class(), None);
    assert_eq!(ClassType::Paladin.index(), 0);
    assert_eq!(ClassType::Fisher.index(), 41);
}

#[test]
fn recording_a_job_sets_its_base_class_too() {
    let info = Some(ClassInfo { level: 70, current_xp: Some(10), max_xp: Some(20) });
    let mut classes = Classes::new();
    assert_eq!(classes.get(ClassType::Paladin), None);
    assert!(!classes.contains(ClassType::Paladin));
    classes.record(ClassType::Paladin, info);
    assert_eq!(classes.get(ClassType::Paladin), info);
    assert_eq!(classes.get(ClassType::Gladiator), info);
    assert!(classes.contains(ClassType::Gladiator));
    assert_eq!(classes.get(ClassType::Marauder), None);
    assert!(!classes.contains(ClassType::Marauder));
}

#[test]
fn recording_a_base_class_leaves_the_job_alone() {
    let low = Some(ClassInfo { level: 12, current_xp: Some(1), max_xp: Some(2) });
    let mut classes = Classes::new();
    classes.record(ClassType::Gladiator, low);
    assert_eq!(classes.get(ClassType::Gladiator), low);
    assert_eq!(classes.get(ClassType::Paladin), None);
    classes.record(ClassType::Dancer, None);
    assert!(classes.contains(ClassType::Dancer));
    assert_eq!(classes.get(ClassType::Dancer), None);
}

#[test]
fn insert_replaces_what_stood_there() {
    let a = Some(ClassInfo { level: 1, current_xp: None, max_xp: None });
    let b = Some(ClassInfo { level: 2, current_xp: None, max_xp: None });
    let mut classes = Classes::new();
    classes.insert(ClassType::Miner, a);
    classes.insert(ClassType::Miner, b);
    assert_eq!(classes.get(ClassType::Miner), b);
    assert_eq!(classes, {
        let mut other = Classes::new();
        other.insert(ClassType::Miner, b);
        other
    });
}

#[test]
fn a_job_never_played_leaves_its_base_class() {
    let own = Some(ClassInfo { level: 15, current_xp: Some(100), max_xp: Some(200) });
    let mut classes = Classes::new();
    classes.record(ClassType::Gladiator, own);
    classes.record(ClassType::Paladin, None);
    assert_eq!(classes.get(ClassType::Gladiator), own);
    assert_eq!(classes.get(ClassType::Paladin), None);
    assert!(classes.contains(ClassType::Paladin));
    let mut classes = Classes::new();
    classes.record(ClassType::Paladin, None);
    assert!(!classes.contains(ClassType::Gladiator));
    assert!(classes.contains(ClassType::Paladin));
}

#[test]
fn the_last_reading_of_a_job_counts_for_both() {
    let low = Some(ClassInfo { level: 15, current_xp: Some(100), max_xp: Some(200) });
    let high = Some(ClassInfo { level: 60, current_xp: Some(1), max_xp: Some(2) });
    let pairs = [
        (ClassType::Paladin, ClassType::Gladiator),
        (ClassType::Warrior, ClassType::Marauder),
        (ClassType::WhiteMage, ClassType::Conjurer),
        (ClassType::Monk, ClassType::Pugilist),
        (ClassType::Dragoon, ClassType::Lancer),
        (ClassType::Ninja, ClassType::Rogue),
        (ClassType::Bard, ClassType::Archer),
        (ClassType::BlackMage, ClassType::Thaumaturge),
        (ClassType::Summoner, ClassType::Arcanist),
    ];
    for (job, base) in pairs {
        let mut classes = Classes::new();
        classes.record(ClassType::Fisher, low);
        classes.record(base, low);
        classes.record(job, low);
        classes.record(job, high);
        assert_eq!(classes.get(job), high);
        assert_eq!(classes.get(base), high);
        assert_eq!(classes.get(ClassType::Fisher), low);
        assert_eq!(classes.get(ClassType::Scholar), None);
    }
}
