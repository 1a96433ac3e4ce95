use lodestone::model::datacenter::Datacenter;
use lodestone::model::domain::Domain;
use lodestone::model::gc::GrandCompany;
use lodestone::model::language::Language;
use lodestone::model::server::Server;
use lodestone::markup::fits_parser;
use lodestone::model::profile::SearchError;
use lodestone::search::{
    full_results, light_results, light_results_and_failures, result_ids, LineFailure, ProfilePages,
    SearchBuilder,
};

#[test]
fn new_builder_has_no_criteria() {
    let b = SearchBuilder::new();
    assert_eq!(b.chosen_domain(), None);
    assert_eq!(b.chosen_server(), None);
    assert_eq!(b.chosen_datacenter(), None);
    assert_eq!(b.chosen_character(), None);
    assert!(b.chosen_languages().is_empty());
    assert!(b.chosen_grand_companies().is_empty());
    assert_eq!(b.url(), "https://na.finalfantasyxiv.com/lodestone/character/?");
}

#[test]
fn server_after_datacenter_clears_the_datacenter() {
    let b = SearchBuilder::new().datacenter(Datacenter::Primal).server(Server::Gilgamesh);
    assert_eq!(b.chosen_server(), Some(Server::Gilgamesh));
    assert_eq!(b.chosen_datacenter(), None);
    assert_eq!(b.url(), "https://na.finalfantasyxiv.com/lodestone/character/?worldname=Gilgamesh");
}

#[test]
fn datacenter_after_server_clears_the_server() {
    let b = SearchBuilder::new().server(Server::Gilgamesh).datacenter(Datacenter::Primal);
    assert_eq!(b.chosen_server(), None);
    assert_eq!(b.chosen_datacenter(), Some(Datacenter::Primal));
    assert_eq!(b.url(), "https://na.finalfantasyxiv.com/lodestone/character/?worldname=_dc_Primal");
}

#[test]
fn later_choices_replace_earlier_ones() {
    let b = SearchBuilder::new()
        .domain(Domain::Japan)
        .domain(Domain::Europe)
        .character("First")
        .character("Second Name");
    assert_eq!(b.chosen_domain(), Some(Domain::Europe));
    assert_eq!(b.chosen_character(), Some("Second Name"));
    assert_eq!(b.url(), "https://eu.finalfantasyxiv.com/lodestone/character/?q=Second Name");
}

#[test]
fn languages_and_companies_are_sets() {
    let b = SearchBuilder::new()
        .lang(Language::English)
        .lang(Language::Japanese)
        .lang(Language::English)
        .grand_company(GrandCompany::TwinAdder)
        .grand_company(GrandCompany::TwinAdder)
        .grand_company(GrandCompany::Unaffiliated);
    assert_eq!(b.chosen_languages(), &vec![Language::English, Language::Japanese]);
    assert_eq!(
        b.chosen_grand_companies(),
        &vec![GrandCompany::TwinAdder, GrandCompany::Unaffiliated]
    );
    assert_eq!(
        b.url(),
        "https://na.finalfantasyxiv.com/lodestone/character/?blog_lang=en&blog_lang=ja&gcid=2&gcid=0"
    );
}

#[test]
fn url_with_every_kind_of_term() {
    let b = SearchBuilder::new()
        .domain(Domain::Germany)
        .character("Y'shtola")
        .server(Server::Shiva)
        .lang(Language::German)
        .lang(Language::French)
        .grand_company(GrandCompany::Maelstrom)
        .grand_company(GrandCompany::ImmortalFlames);
    assert_eq!(
        b.url(),
        "https://de.finalfantasyxiv.com/lodestone/character/?q=Y'shtola&worldname=Shiva&blog_lang=de&blog_lang=fr&gcid=1&gcid=3"
    );
}

#[test]
fn url_loses_every_trailing_ampersand() {
    let b = SearchBuilder::new().character("a&&");
    assert_eq!(b.url(), "https://na.finalfantasyxiv.com/lodestone/character/?q=a");
    let b = SearchBuilder::new().domain(Domain::France).character("");
    assert_eq!(b.url(), "https://fr.finalfantasyxiv.com/lodestone/character/?q=");
}

fn entry(id: &str, name: &str, world: &str) -> String {
    format!(
        "<div class=\"entry\"><a href=\"/lodestone/character/{}/\" class=\"entry__link\"><div class=\"entry__chara__face\"><img src=\"https://img.example/{}.jpg\"></div><div class=\"entry__box\"><p class=\"entry__name\">{}</p><p class=\"entry__world\">{}</p></div></a></div>",
        id, id, name, world
    )
}

fn listing(entries: &[String]) -> String {
    format!(
        "<html><body><div class=\"ldst__main\"><div class=\"ldst__window\">{}</div></div><div class=\"entry\">outside</div></body></html>",
        entries.concat()
    )
}

#[test]
fn malformed_entry_is_left_out() {
    let page = listing(&[
        entry("11", "First One", "Gilgamesh [Aether]"),
        entry("22", "Second One", "Gilgamesh"),
        entry("33", "Third One", "Odin [Light]"),
    ]);
    let found = light_results(&page);
    assert_eq!(found.len(), 2);
    assert_eq!(found[0].user_id, 11);
    assert_eq!(found[0].name, "First One");
    assert_eq!(found[0].server, Server::Gilgamesh);
    assert_eq!(found[0].datacenter, Datacenter::Aether);
    assert_eq!(found[0].face_portrait_url, "https://img.example/11.jpg");
    assert_eq!(found[1].user_id, 33);
    assert_eq!(found[1].name, "Third One");
    assert_eq!(found[1].server, Server::Odin);
    assert_eq!(found[1].datacenter, Datacenter::Light);
}

#[test]
fn listing_without_good_entries_is_empty() {
    assert!(light_results("").is_empty());
    assert!(light_results("<div class=\"ldst__main\"></div>").is_empty());
    let page = listing(&[entry("x", "No Id", "Gilgamesh [Aether]")]);
    assert!(light_results(&page).is_empty());
    let outside = format!("<html><body>{}</body></html>", entry("5", "Out", "Odin [Light]"));
    assert!(light_results(&outside).is_empty());
}

#[test]
fn result_ids_come_from_the_links() {
    let page = listing(&[
        entry("11", "First One", "Gilgamesh [Aether]"),
        entry("none", "Second One", "Gilgamesh [Aether]"),
        entry("99999999999", "Too Large", "Gilgamesh [Aether]"),
        entry("33", "Third One", "nowhere"),
    ]);
    assert_eq!(result_ids(&page), vec![11, 33]);
    assert_eq!(result_ids("<a class=\"entry__link\">no target</a>"), Vec::<u32>::new());
    assert_eq!(result_ids("<a class=\"entry__link\" href=\"/a/b7c8/\"></a>"), vec![7]);
}

#[test]
fn full_results_leave_out_what_does_not_decode() {
    let pages = vec![
        ProfilePages { user_id: 1, main: "<html></html>".to_string(), class_job: "".to_string() },
        ProfilePages { user_id: 2, main: "".to_string(), class_job: "".to_string() },
    ];
    assert!(full_results(&pages).is_empty());
    assert!(full_results(&Vec::new()).is_empty());
}

#[test]
fn failures_are_kept_beside_the_profiles() {
    let page = listing(&[
        entry("11", "First One", "Gilgamesh [Aether]"),
        entry("22", "Second One", "Gilgamesh"),
        entry("x", "Third One", "Odin [Light]"),
        entry("44", "Fourth One", "Odin [Light]"),
    ]);
    let found = light_results_and_failures(&page);
    assert_eq!(found.profiles, light_results(&page));
    assert_eq!(found.profiles.len(), 2);
    assert_eq!(found.profiles[1].user_id, 44);
    assert_eq!(
        found.failures,
        vec![
            LineFailure { line: 1, error: SearchError::InvalidData("entry__world".to_string()) },
            LineFailure { line: 2, error: SearchError::InvalidData("user id".to_string()) },
        ]
    );
    assert!(light_results_and_failures("").failures.is_empty());
}

#[test]
fn pages_of_common_size_fit_the_parser() {
    assert!(fits_parser(""));
    assert!(fits_parser("<html></html>"));
}

#[test]
fn a_copy_of_a_builder_holds_the_same_criteria() {
    let b = SearchBuilder::new()
        .domain(Domain::Japan)
        .character("Name")
        .server(Server::Odin)
        .lang(Language::French)
        .grand_company(GrandCompany::Maelstrom);
    let c = b.clone();
    assert_eq!(c.url(), b.url());
    assert_eq!(c.chosen_languages(), b.chosen_languages());
    assert_eq!(SearchBuilder::default().url(), SearchBuilder::new().url());
}
