use lodestone::model::attribute::{Attribute, Attributes};
use lodestone::model::clan::Clan;
use lodestone::model::class::{ClassInfo, ClassType};
use lodestone::model::datacenter::Datacenter;
use lodestone::model::gear::{Gear, GearSet, GearSlot, Slot};
use lodestone::model::gender::Gender;
use lodestone::model::profile::{ensure_node, LightProfile, Profile, SearchError};
use lodestone::model::race::Race;
use lodestone::model::server::Server;
use select::document::Document;
use select::predicate::{Class, Name};

const MAIN_PAGE: &str = r#"<!DOCTYPE html>
<html><head><title>Profile</title></head><body>
<div class="frame__chara">
<div class="frame__chara__face"><img src="https://img.example/face.jpg" alt=""></div>
<div class="frame__chara__box">
<p class="frame__chara__title">Mammeteer</p>
<p class="frame__chara__name">Tataru Taru</p>
<p class="frame__chara__world"><i class="xiv-lds"></i>Gilgamesh [Aether]</p>
</div>
</div>
<div class="character__detail__image"><a href="https://img.example/full.jpg"><img src="https://img.example/full_640.jpg"></a></div>
<div class="character-block"><div class="character-block__box"><p class="character-block__title">Race/Clan/Gender</p><p class="character-block__name">Lalafell<br>Dunesfolk / ♀</p></div></div>
<div class="character-block"><div class="character-block__box"><p class="character-block__title">Nameday</p><p class="character-block__birth">14th Sun of the 6th Astral Moon</p><p class="character-block__title">Guardian</p><p class="character-block__name">Nald'thal, the Traders</p></div></div>
<div class="character-block"><div class="character-block__box"><p class="character-block__title">City-state</p><p class="character-block__name">Ul'dah</p></div></div>
<div class="character__param"><ul>
<li><div><p class="character__param__text character__param__text__hp--en-us">HP</p><span>45678</span></div></li>
<li><div><p class="character__param__text character__param__text__gp--en-us">GP</p><span>900</span></div></li>
<li><div><p class="character__param__text">Other</p><span>oops</span></div></li>
</ul></div>
<div class="character__profile__data">
<table class="character__param__list"><tbody>
<tr><th><span class="js__tooltip">Strength</span></th><td>321</td></tr>
<tr><th><span class="js__tooltip">Critical Hit Rate</span></th><td>2045</td></tr>
<tr><th><span class="js__tooltip">Strength</span></th><td>322</td></tr>
</tbody></table>
</div>
<div class="character__detail__icon">
<div class="icon-c--0 ic_reflection_box"><div class="db-tooltip"><div class="db-tooltip__bt_item_detail"><a href="/lodestone/playguide/db/item/aaa111/">Details</a></div><div class="db-tooltip__item__txt"><div class="db-tooltip__item__mirage"><p>Wooden Ladle<a href="/lodestone/playguide/db/item/bbb222/" class="db-tooltip__item__mirage__btn"></a></p></div><h2 class="db-tooltip__item__name">Frying Pan</h2></div></div></div>
<div class="icon-c--1 ic_reflection_box"></div>
<div class="icon-c--2 ic_reflection_box"><div class="db-tooltip"><div class="db-tooltip__bt_item_detail"><a href="/lodestone/playguide/db/item/ccc333/">Details</a></div><div class="db-tooltip__item__txt"><h2 class="db-tooltip__item__name">Chef's Hat</h2></div></div></div>
</div>
</body></html>"#;

const CLASS_PAGE: &str = r#"<!DOCTYPE html>
<html><body>
<div class="character__content"><ul>
<li><div class="character__job__level">90</div><div class="character__job__name">Paladin / Gladiator</div><div class="character__job__exp">-- / --</div></li>
<li><div class="character__job__level">25</div><div class="character__job__name">Marauder</div><div class="character__job__exp">1,234 / 2,000</div></li>
</ul></div>
<div class="character__content"><ul>
<li><div class="character__job__level">-</div><div class="character__job__name">Dark Knight</div><div class="character__job__exp">- / -</div></li>
</ul></div>
<div class="character__content"><ul>
<li><div class="character__job__level">80</div><div class="character__job__name">Culinarian</div><div class="character__job__exp">500 / 1,000,000</div></li>
</ul></div>
<div class="character__content"><ul></ul></div>
<div class="character__content"><ul>
<li><div class="character__job__level">1</div><div class="character__job__name">Fisher</div><div class="character__job__exp">0 / 300</div></li>
<li><div class="character__job__level">bad</div><div class="character__job__name">Nobody</div></li>
</ul></div>
</body></html>"#;

fn missing(query: &str) -> SearchError {
    SearchError::NodeNotFound(query.to_string())
}

fn invalid(field: &str) -> SearchError {
    SearchError::InvalidData(field.to_string())
}

#[test]
fn profile_is_decoded_field_by_field() {
    let profile = Profile::get(7654321, MAIN_PAGE, CLASS_PAGE).unwrap();
    assert_eq!(profile.user_id, 7654321);
    assert_eq!(profile.free_company, None);
    assert_eq!(profile.title, Some("Mammeteer".to_string()));
    assert_eq!(profile.name, "Tataru Taru");
    assert_eq!(profile.nameday, "14th Sun of the 6th Astral Moon");
    assert_eq!(profile.guardian, "Nald'thal, the Traders");
    assert_eq!(profile.city_state, "Ul'dah");
    assert_eq!(profile.server, Server::Gilgamesh);
    assert_eq!(profile.datacenter, Datacenter::Aether);
    assert_eq!(profile.race, Race::Lalafell);
    assert_eq!(profile.clan, Clan::Dunesfolk);
    assert_eq!(profile.gender, Gender::Female);
    assert_eq!(profile.hp, 45678);
    assert_eq!(profile.mp, 900);
    assert_eq!(profile.face_portrait_url, "https://img.example/face.jpg");
    assert_eq!(profile.portrait_url, "https://img.example/full_640.jpg");
}

#[test]
fn profile_attributes_keep_the_last_reading() {
    let profile = Profile::get(1, MAIN_PAGE, CLASS_PAGE).unwrap();
    assert_eq!(profile.attributes.get("Strength"), Some(Attribute { level: 322 }));
    assert_eq!(profile.attributes.get("Critical Hit Rate"), Some(Attribute { level: 2045 }));
    assert_eq!(profile.attributes.get("Dexterity"), None);
    assert!(profile.attributes.contains("Strength"));
    assert!(!profile.attributes.contains("strength"));
}

#[test]
fn profile_gear_has_the_slots_in_use() {
    let profile = Profile::get(1, MAIN_PAGE, CLASS_PAGE).unwrap();
    assert_eq!(
        profile.gear.get(Slot::PrimaryWeapon),
        Some(&GearSlot {
            gear: Gear { lodestone_id: "aaa111".to_string(), name: "Frying Pan".to_string() },
            glamour: Some(Gear {
                lodestone_id: "bbb222".to_string(),
                name: "Wooden Ladle".to_string()
            }),
        })
    );
    assert_eq!(
        profile.gear.get(Slot::Head),
        Some(&GearSlot {
            gear: Gear { lodestone_id: "ccc333".to_string(), name: "Chef's Hat".to_string() },
            glamour: None,
        })
    );
    assert_eq!(profile.gear.get(Slot::SecondaryWeapon), None);
    assert!(!profile.gear.contains(Slot::SecondaryWeapon));
    assert!(!profile.gear.contains(Slot::Body));
    assert!(profile.gear.contains(Slot::Head));
}

#[test]
fn profile_classes_come_from_the_first_four_lists() {
    let profile = Profile::get(1, MAIN_PAGE, CLASS_PAGE).unwrap();
    let top = ClassInfo { level: 90, current_xp: None, max_xp: None };
    assert_eq!(profile.class_info(ClassType::Paladin), Some(top));
    assert_eq!(profile.class_info(ClassType::Gladiator), Some(top));
    assert_eq!(profile.level(ClassType::Paladin), Some(90));
    assert_eq!(profile.level(ClassType::Gladiator), Some(90));
    assert_eq!(
        profile.class_info(ClassType::Marauder),
        Some(ClassInfo { level: 25, current_xp: Some(1234), max_xp: Some(2000) })
    );
    assert_eq!(profile.level(ClassType::Warrior), None);
    assert_eq!(profile.level(ClassType::DarkKnight), None);
    assert!(profile.all_class_info().contains(ClassType::DarkKnight));
    assert_eq!(
        profile.class_info(ClassType::Culinarian),
        Some(ClassInfo { level: 80, current_xp: Some(500), max_xp: Some(1000000) })
    );
    assert_eq!(profile.level(ClassType::Fisher), None);
    assert!(!profile.all_class_info().contains(ClassType::Fisher));
    assert_eq!(profile.all_class_info().get(ClassType::Marauder), profile.class_info(ClassType::Marauder));
}

#[test]
fn profile_with_free_company() {
    let main = MAIN_PAGE.replace(
        "<div class=\"character__detail__icon\">",
        "<div class=\"character__freecompany__name\"><p>Free Company</p><h4><a href=\"/x/\">Scions</a></h4></div><div class=\"character__detail__icon\">",
    );
    let profile = Profile::get(1, &main, CLASS_PAGE).unwrap();
    assert_eq!(profile.free_company, Some("Scions".to_string()));
}

#[test]
fn profile_without_title() {
    let main = MAIN_PAGE.replace("<p class=\"frame__chara__title\">Mammeteer</p>", "");
    let profile = Profile::get(1, &main, CLASS_PAGE).unwrap();
    assert_eq!(profile.title, None);
    assert_eq!(profile.name, "Tataru Taru");
}

#[test]
fn profile_fails_on_the_first_field_that_fails() {
    assert_eq!(
        Profile::get(1, "<html></html>", CLASS_PAGE),
        Err(missing("Class(\"character-block__name\")(0)"))
    );
    let main = MAIN_PAGE.replace("frame__chara__name", "frame__chara__nom");
    assert_eq!(Profile::get(1, &main, CLASS_PAGE), Err(missing("Class(\"frame__chara__name\")(0)")));
    let main = MAIN_PAGE.replace("<p class=\"character-block__name\">Ul'dah</p>", "");
    assert_eq!(
        Profile::get(1, &main, CLASS_PAGE),
        Err(missing("Class(\"character-block__name\")(2)"))
    );
    let main = MAIN_PAGE.replace("Gilgamesh [Aether]", "Gilgamesh");
    assert_eq!(Profile::get(1, &main, CLASS_PAGE), Err(invalid("frame__chara__world")));
    let main = MAIN_PAGE.replace("Lalafell<br>", "");
    assert_eq!(Profile::get(1, &main, CLASS_PAGE), Err(invalid("character block name")));
}

#[test]
fn profile_fails_on_bad_parameters() {
    let main = MAIN_PAGE.replace("<span>45678</span>", "<span>many</span>");
    assert_eq!(Profile::get(1, &main, CLASS_PAGE), Err(invalid("character__param")));
    let main = MAIN_PAGE.replace("<span>45678</span>", "");
    assert_eq!(Profile::get(1, &main, CLASS_PAGE), Err(missing("Name(\"span\")(0)")));
    let main = MAIN_PAGE.replace("character__param__text__gp--en-us", "x");
    assert_eq!(Profile::get(1, &main, CLASS_PAGE), Err(invalid("character__param")));
    let main = MAIN_PAGE.replace("character__param__text__gp--en-us", "character__param__text__cp--en-us");
    assert_eq!(Profile::get(1, &main, CLASS_PAGE).unwrap().mp, 900);
    let main = MAIN_PAGE.replace("character__param__text__gp--en-us", "character__param__text__mp--en-us");
    assert_eq!(Profile::get(1, &main, CLASS_PAGE).unwrap().mp, 900);
}

#[test]
fn profile_fails_on_bad_attributes_gear_and_pictures() {
    let main = MAIN_PAGE.replace("<td>2045</td>", "<td>70000</td>");
    assert_eq!(Profile::get(1, &main, CLASS_PAGE), Err(invalid("character__profile__data")));
    let main = MAIN_PAGE.replace("/lodestone/playguide/db/item/ccc333/", "/lodestone/playguide/db/item/ccc333");
    assert_eq!(Profile::get(1, &main, CLASS_PAGE), Err(invalid("invalid gear link")));
    let main = MAIN_PAGE.replace("<a href=\"/lodestone/playguide/db/item/ccc333/\">Details</a>", "<a>Details</a>");
    assert_eq!(Profile::get(1, &main, CLASS_PAGE), Err(invalid("missing gear link")));
    let main = MAIN_PAGE.replace("<h2 class=\"db-tooltip__item__name\">Chef's Hat</h2>", "Chef's Hat");
    assert_eq!(
        Profile::get(1, &main, CLASS_PAGE),
        Err(missing("Class(\"db-tooltip__item__name\")(0)"))
    );
    let main = MAIN_PAGE.replace("<img src=\"https://img.example/face.jpg\" alt=\"\">", "<img alt=\"\">");
    assert_eq!(Profile::get(1, &main, CLASS_PAGE), Err(invalid("missing image source")));
    let main = MAIN_PAGE.replace("<img src=\"https://img.example/full_640.jpg\">", "");
    assert_eq!(
        Profile::get(1, &main, CLASS_PAGE),
        Err(missing("Class(class).descendant(Name(\"img\"))(0)"))
    );
}

#[test]
fn profile_fails_on_a_bad_class_line() {
    let classes = CLASS_PAGE.replace("<div class=\"character__job__exp\">1,234 / 2,000</div>", "");
    assert_eq!(
        Profile::get(1, MAIN_PAGE, &classes),
        Err(missing("Class(\"character__job__exp\")(0)"))
    );
    let classes = CLASS_PAGE.replace("Marauder", "Plunderer");
    assert_eq!(Profile::get(1, MAIN_PAGE, &classes), Err(invalid("character__job__name")));
    let classes = CLASS_PAGE.replace(">25<", ">2 5<");
    assert_eq!(Profile::get(1, MAIN_PAGE, &classes), Err(invalid("character__job__level")));
    let classes = CLASS_PAGE.replace("1,234 / 2,000", "1,234");
    assert_eq!(Profile::get(1, MAIN_PAGE, &classes), Err(invalid("character__job__exp")));
}

#[test]
fn upgraded_job_shares_its_reading_with_the_base_class() {
    let page = r#"<div class="character__content"><ul>
<li><div class="character__job__level">53</div><div class="character__job__name">Summoner / Arcanist</div><div class="character__job__exp">10 / 20</div></li>
</ul></div>"#;
    let profile = Profile::get(1, MAIN_PAGE, page).unwrap();
    let info = Some(ClassInfo { level: 53, current_xp: Some(10), max_xp: Some(20) });
    assert_eq!(profile.class_info(ClassType::Summoner), info);
    assert_eq!(profile.class_info(ClassType::Arcanist), info);
    assert_eq!(profile.class_info(ClassType::Scholar), None);
}

#[test]
fn job_never_played_leaves_the_reading_of_its_base_class() {
    let page = "<div class='character__content'><ul><li><b class='character__job__level'>15</b><b class='character__job__name'>Gladiator</b><b class='character__job__exp'>100 / 200</b></li><li><b class='character__job__level'>-</b><b class='character__job__name'>Paladin</b></li></ul></div>";
    let profile = Profile::get(1, MAIN_PAGE, page).unwrap();
    assert_eq!(
        profile.class_info(ClassType::Gladiator),
        Some(ClassInfo { level: 15, current_xp: Some(100), max_xp: Some(200) })
    );
    assert_eq!(profile.class_info(ClassType::Paladin), None);
    assert!(profile.all_class_info().contains(ClassType::Paladin));
}

#[test]
fn name_block_of_the_two_word_race() {
    let main = MAIN_PAGE.replace("Lalafell<br>Dunesfolk / ♀", "Au Ra<br>Raen / ♂");
    let profile = Profile::get(1, &main, CLASS_PAGE).unwrap();
    assert_eq!(profile.race, Race::Aura);
    assert_eq!(profile.clan, Clan::Raen);
    assert_eq!(profile.gender, Gender::Male);
}

#[test]
fn ensure_node_picks_by_place() {
    let doc = Document::from("<ul><li>a</li><li>b</li></ul>");
    let items: Vec<_> = doc.find(Name("li")).collect();
    assert_eq!(ensure_node(&items, 1, "q").unwrap().text(), "b");
    assert_eq!(ensure_node(&items, 0, "q").unwrap().text(), "a");
    assert_eq!(ensure_node(&items, 2, "Name(\"li\")(2)").unwrap_err(), missing("Name(\"li\")(2)"));
    assert_eq!(ensure_node(&Vec::new(), 0, "q").unwrap_err(), missing("q"));
}

const ENTRY: &str = r#"<div class="ldst__main"><div class="entry"><a href="/lodestone/character/24680/" class="entry__link"><div class="entry__chara__face"><img src="https://img.example/24680.jpg" alt=""></div><div class="entry__box entry__box--world"><p class="entry__name">Alphinaud Leveilleur</p><p class="entry__world"><i class="xiv-lds"></i>Gilgamesh [Primal]</p></div></a></div></div>"#;

fn light(markup: &str) -> Result<LightProfile, SearchError> {
    let doc = Document::from(markup);
    let entry = doc.find(Class("entry")).next().unwrap();
    LightProfile::create_from(&entry)
}

#[test]
fn light_profile_from_an_entry() {
    assert_eq!(
        light(ENTRY),
        Ok(LightProfile {
            user_id: 24680,
            name: "Alphinaud Leveilleur".to_string(),
            server: Server::Gilgamesh,
            datacenter: Datacenter::Primal,
            face_portrait_url: "https://img.example/24680.jpg".to_string(),
        })
    );
}

#[test]
fn light_profile_failures() {
    assert_eq!(
        light(&ENTRY.replace("entry__world", "entry__welt")),
        Err(missing("Class(\"entry__world\")(0)"))
    );
    assert_eq!(light(&ENTRY.replace("Gilgamesh [Primal]", "Gilgamesh")), Err(invalid("entry__world")));
    assert_eq!(
        light(&ENTRY.replace("entry__link", "entry__lien")),
        Err(missing("Class(\"entry__link\")(0)"))
    );
    assert_eq!(
        light(&ENTRY.replace("href=\"/lodestone/character/24680/\"", "")),
        Err(invalid("missing user profile href"))
    );
    assert_eq!(light(&ENTRY.replace("24680/", "x/")), Err(invalid("user id")));
    assert_eq!(
        light(&ENTRY.replace("entry__name", "entry__nom")),
        Err(missing("Class(\"entry__name\")(0)"))
    );
    assert_eq!(
        light(&ENTRY.replace("entry__chara__face", "entry__chara__visage")),
        Err(missing("Class(class).descendant(Name(\"img\"))(0)"))
    );
    assert_eq!(
        light(&ENTRY.replace("src=\"https://img.example/24680.jpg\"", "")),
        Err(invalid("missing image source"))
    );
}

#[test]
fn error_messages() {
    assert_eq!(missing("Class(\"x\")(0)").message(), "Node not found: Class(\"x\")(0)");
    assert_eq!(invalid("entry__world").message(), "Invalid data found while parsing 'entry__world'");
    assert_eq!(SearchError::invalid("a"), invalid("a"));
    assert_eq!(SearchError::missing("b"), missing("b"));
}

#[test]
fn attributes_and_gear_sets_by_hand() {
    let mut attributes = Attributes::new();
    assert_eq!(attributes.get("Mind"), None);
    attributes.insert("Mind".to_string(), Attribute { level: 5 });
    attributes.insert("Piety".to_string(), Attribute { level: 6 });
    attributes.insert("Mind".to_string(), Attribute { level: 7 });
    assert_eq!(attributes.get("Mind"), Some(Attribute { level: 7 }));
    assert_eq!(attributes.get("Piety"), Some(Attribute { level: 6 }));
    let mut gear = GearSet::new();
    assert_eq!(gear.get(Slot::Ring1), None);
    let ring = GearSlot {
        gear: Gear { lodestone_id: "r1".to_string(), name: "Ring".to_string() },
        glamour: None,
    };
    gear.insert(Slot::Ring1, ring.clone());
    assert_eq!(gear.get(Slot::Ring1), Some(&ring));
    assert_eq!(gear.get(Slot::Ring2), None);
    assert_eq!(Slot::Glasses.marker_str(), "icon-c--glasses");
    assert_eq!(Slot::Legs.marker_str(), "icon-c--6");
    assert_eq!(Slot::all().len(), 14);
    assert_eq!(Slot::Soul.index(), 13);
}

#[test]
fn attributes_are_equal_in_any_order() {
    let mut a = Attributes::new();
    a.insert("Mind".to_string(), Attribute { level: 5 });
    a.insert("Piety".to_string(), Attribute { level: 6 });
    let mut b = Attributes::new();
    b.insert("Piety".to_string(), Attribute { level: 1 });
    b.insert("Mind".to_string(), Attribute { level: 5 });
    assert!(a != b);
    assert!(!a.within(&b));
    b.insert("Piety".to_string(), Attribute { level: 6 });
    assert!(a == b);
    assert!(a.within(&b) && b.within(&a));
    b.insert("Vitality".to_string(), Attribute { level: 9 });
    assert!(a != b);
    assert!(a.within(&b));
    assert!(!b.within(&a));
    assert!(Attributes::new() == Attributes::new());
    assert!(Attributes::new().within(&a));
}
