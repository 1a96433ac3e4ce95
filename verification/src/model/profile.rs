//! Profiles: what the directory says of one character, and how that is read
//! off its pages.

use crate::fields::{
    char_info_from, class_from, class_info_from, classify_param, decode_char_info, decode_class,
    decode_class_info, decode_free_company, decode_gear_link, decode_home, decode_image_source,
    decode_listed_home, decode_params, decode_u16, decode_u32, decode_user_id, free_company_from,
    gear_link_from, home_from, image_source_from, level_is_blank, listed_home_from, param_kind_of,
    params_from, text_in, text_within, u16_from, u32_from, user_id_from, CharInfo, HomeInfo,
    ParamKind,
};
use crate::markup::{
    all_on_page, attribute_of, find_class, find_class_child_name, find_class_descendant_name,
    find_name,
    found_below, found_in_page, from_parser, inner_markup_of, node_attr, node_inner_markup,
    node_text, on_parsed_page, page_find_class, page_find_class_descendant_name, page_of,
    page_sized, parse_page, parsed, text_of, Selector,
};
use crate::model::attribute::{Attribute, Attributes};
use crate::model::clan::Clan;
use crate::model::class::{
    law_line_writes_no_other, looked_up, recorded, writes, ClassInfo, ClassType, Classes,
};
use crate::model::datacenter::Datacenter;
pub use crate::model::error::{outcome, SearchError, SearchFailure};
use crate::model::gear::{Gear, GearSet, GearSlot, GearSlotView, GearView, Slot};
use crate::model::gender::Gender;
use crate::model::race::Race;
use crate::model::server::Server;
use crate::text::chars_of;
use select::document::Document;
use select::node::Node;
use vstd::prelude::*;

verus! {

/// The node at place `nth` among the nodes that a query found, or the
/// failure that names the query.
pub open spec fn nth_found(found: Seq<Node>, nth: int, query: Seq<char>) -> Result<
    Node,
    SearchFailure,
> {
    if 0 <= nth < found.len() {
        Ok(found[nth])
    } else {
        Err(SearchFailure::NodeNotFound(query))
    }
}

/// Picks the node at place `nth` among the nodes that a query found. Where
/// the query found too few, the failure names the query.
pub fn ensure_node<'a>(found: &Vec<Node<'a>>, nth: usize, query: &str) -> (node: Result<
    Node<'a>,
    SearchError,
>)
    ensures
        match node {
            Ok(node) => nth_found(found@, nth as int, query@) == Ok::<Node, SearchFailure>(node),
            Err(e) => nth_found(found@, nth as int, query@) == Err::<Node, SearchFailure>(e@),
        },
{
    if nth < found.len() {
        Ok(found[nth])
    } else {
        Err(SearchError::missing(query))
    }
}

/// The first node of `class` below `node`, or the failure that names `query`.
pub open spec fn first_of_class(node: Node, class: Seq<char>, query: Seq<char>) -> Result<
    Node,
    SearchFailure,
> {
    nth_found(found_below(node, Selector::Class(class)), 0, query)
}

/// Finds the first node of `class` below `node`.
fn first_class_below<'a>(node: &Node<'a>, class: &str, query: &str) -> (first: Result<
    Node<'a>,
    SearchError,
>)
    requires
        on_parsed_page(*node),
    ensures
        match first {
            Ok(first) => first_of_class(*node, class@, query@) == Ok::<Node, SearchFailure>(first)
                && page_of(first) == page_of(*node),
            Err(e) => first_of_class(*node, class@, query@) == Err::<Node, SearchFailure>(e@),
        },
{
    let found = find_class(node, class);
    ensure_node(&found, 0, query)
}

/// What a line of a result list says of a character.
#[derive(Clone, Debug, PartialEq, Eq)]
pub struct LightProfile {
    /// The id of the profile.
    pub user_id: u32,
    /// The name of the character.
    pub name: String,
    /// The world on which the character lives.
    pub server: Server,
    /// The data center of that world.
    pub datacenter: Datacenter,
    /// The address of the picture of the character's face.
    pub face_portrait_url: String,
}

/// What a `LightProfile` holds, as plain values.
pub struct LightProfileView {
    pub user_id: u32,
    pub name: Seq<char>,
    pub server: Server,
    pub datacenter: Datacenter,
    pub face_portrait_url: Seq<char>,
}

impl View for LightProfile {
    type V = LightProfileView;

    open spec fn view(&self) -> LightProfileView {
        LightProfileView {
            user_id: self.user_id,
            name: self.name@,
            server: self.server,
            datacenter: self.datacenter,
            face_portrait_url: self.face_portrait_url@,
        }
    }
}

impl LightProfile {
    /// The user id in a line: read off the target of its first profile link.
    pub open spec fn user_id_at(entry: Node) -> Result<u32, SearchFailure> {
        match first_of_class(entry, "entry__link"@, "Class(\"entry__link\")(0)"@) {
            Err(e) => Err(e),
            Ok(link) => user_id_from(attribute_of(link, "href"@)),
        }
    }

    /// The home in a line: read off the text of its first world node.
    pub open spec fn home_at(entry: Node) -> Result<HomeInfo, SearchFailure> {
        match first_of_class(entry, "entry__world"@, "Class(\"entry__world\")(0)"@) {
            Err(e) => Err(e),
            Ok(world) => listed_home_from(text_of(world)),
        }
    }

    /// The name in a line: the text of its first name node.
    pub open spec fn name_at(entry: Node) -> Result<Seq<char>, SearchFailure> {
        match first_of_class(entry, "entry__name"@, "Class(\"entry__name\")(0)"@) {
            Err(e) => Err(e),
            Ok(name) => Ok(text_of(name)),
        }
    }

    /// The address of the picture in a line: the source of the first image
    /// below a node of `class`.
    pub open spec fn image_url_at(entry: Node, class: Seq<char>) -> Result<
        Seq<char>,
        SearchFailure,
    > {
        match nth_found(
            found_below(entry, Selector::ClassDescendantName(class, "img"@)),
            0,
            "Class(class).descendant(Name(\"img\"))(0)"@,
        ) {
            Err(e) => Err(e),
            Ok(image) => image_source_from(attribute_of(image, "src"@)),
        }
    }

    /// What a line of a result list says of a character: home, user id, name
    /// and picture are read in this order, and the first that fails decides
    /// the failure.
    pub open spec fn decoded(entry: Node) -> Result<LightProfileView, SearchFailure> {
        match LightProfile::home_at(entry) {
            Err(e) => Err(e),
            Ok(home) => match LightProfile::user_id_at(entry) {
                Err(e) => Err(e),
                Ok(user_id) => match LightProfile::name_at(entry) {
                    Err(e) => Err(e),
                    Ok(name) => match LightProfile::image_url_at(entry, "entry__chara__face"@) {
                        Err(e) => Err(e),
                        Ok(face_portrait_url) => Ok(
                            LightProfileView {
                                user_id,
                                name,
                                server: home.server,
                                datacenter: home.datacenter,
                                face_portrait_url,
                            },
                        ),
                    },
                },
            },
        }
    }

    /// Decodes one line of a result list. Nothing is handed back unless
    /// every field could be read. The line must lie on a page that the
    /// parser built: on a page put together by hand a walk through the tree
    /// may not end.
    pub fn create_from(node: &Node<'_>) -> (profile: Result<LightProfile, SearchError>)
        requires
            on_parsed_page(*node),
        ensures
            outcome(profile) == LightProfile::decoded(*node),
    {
        let home_info = LightProfile::parse_home(node)?;
        let user_id = LightProfile::parse_user_id(node)?;
        let name = LightProfile::parse_name(node)?;
        let face_portrait_url = LightProfile::parse_image_url(node, "entry__chara__face")?;
        Ok(
            LightProfile {
                user_id,
                name,
                server: home_info.server,
                datacenter: home_info.datacenter,
                face_portrait_url,
            },
        )
    }

    /// Reads the user id off the first profile link of a line.
    fn parse_user_id(node: &Node<'_>) -> (id: Result<u32, SearchError>)
        requires
            on_parsed_page(*node),
        ensures
            outcome(id) == LightProfile::user_id_at(*node),
    {
        let link = first_class_below(node, "entry__link", "Class(\"entry__link\")(0)")?;
        match node_attr(&link, "href") {
            Some(href) => decode_user_id(Some(href.as_str())),
            None => decode_user_id(None),
        }
    }

    /// Reads the home off the first world node of a line.
    fn parse_home(node: &Node<'_>) -> (home: Result<HomeInfo, SearchError>)
        requires
            on_parsed_page(*node),
        ensures
            outcome(home) == LightProfile::home_at(*node),
    {
        let world = first_class_below(node, "entry__world", "Class(\"entry__world\")(0)")?;
        let text = node_text(&world);
        decode_listed_home(text.as_str())
    }

    /// Reads the name off the first name node of a line.
    fn parse_name(node: &Node<'_>) -> (name: Result<String, SearchError>)
        requires
            on_parsed_page(*node),
        ensures
            outcome(name) == LightProfile::name_at(*node),
    {
        let name = first_class_below(node, "entry__name", "Class(\"entry__name\")(0)")?;
        Ok(node_text(&name))
    }

    /// Reads the address of the picture below the first node of `class`.
    fn parse_image_url(node: &Node<'_>, class: &str) -> (url: Result<String, SearchError>)
        requires
            on_parsed_page(*node),
        ensures
            outcome(url) == LightProfile::image_url_at(*node, class@),
    {
        let found = find_class_descendant_name(node, class, "img");
        let image = ensure_node(&found, 0, "Class(class).descendant(Name(\"img\"))(0)")?;
        decode_image_source(node_attr(&image, "src"))
    }
}

/// The node at place `nth` among the nodes of `class` on `page`, or the
/// failure that names `query`.
pub open spec fn nth_of_class(page: &Document, class: Seq<char>, nth: int, query: Seq<char>)
    -> Result<Node, SearchFailure> {
    nth_found(found_in_page(page, Selector::Class(class)), nth, query)
}

/// Finds the node at place `nth` among the nodes of `class` on `page`.
fn nth_class_on<'a>(page: &'a Document, class: &str, nth: usize, query: &str) -> (node: Result<
    Node<'a>,
    SearchError,
>)
    ensures
        match node {
            Ok(node) => nth_of_class(page, class@, nth as int, query@) == Ok::<
                Node,
                SearchFailure,
            >(node) && page_of(node) == *page,
            Err(e) => nth_of_class(page, class@, nth as int, query@) == Err::<Node, SearchFailure>(
                e@,
            ),
        },
{
    let found = page_find_class(page, class);
    ensure_node(&found, nth, query)
}

/// The text of the node at place `nth` among the nodes of `class` on `page`.
pub open spec fn text_of_class(page: &Document, class: Seq<char>, nth: int, query: Seq<char>)
    -> Result<Seq<char>, SearchFailure> {
    match nth_of_class(page, class, nth, query) {
        Err(e) => Err(e),
        Ok(node) => Ok(text_of(node)),
    }
}

/// Reads the text of the node at place `nth` among the nodes of `class`.
fn class_text_on(page: &Document, class: &str, nth: usize, query: &str) -> (text: Result<
    String,
    SearchError,
>)
    requires
        from_parser(page),
    ensures
        outcome(text) == text_of_class(page, class@, nth as int, query@),
{
    let node = nth_class_on(page, class, nth, query)?;
    Ok(node_text(&node))
}

/// All that the directory says of one character.
#[derive(Clone, Debug, PartialEq, Eq)]
pub struct Profile {
    /// The id of the profile.
    pub user_id: u32,
    /// The free company of the character, if it is in one.
    pub free_company: Option<String>,
    /// The title of the character, if it shows one.
    pub title: Option<String>,
    /// The name of the character.
    pub name: String,
    /// The nameday of the character.
    pub nameday: String,
    /// The guardian of the character.
    pub guardian: String,
    /// The city-state of the character.
    pub city_state: String,
    /// The world on which the character lives.
    pub server: Server,
    /// The data center of that world.
    pub datacenter: Datacenter,
    /// The race of the character.
    pub race: Race,
    /// The clan of the character: one of the two of its race.
    pub clan: Clan,
    /// The gender of the character.
    pub gender: Gender,
    /// The highest HP.
    pub hp: u32,
    /// The highest MP; for a crafter or a gatherer the page shows CP or GP
    /// in this place, and that reading stands here.
    pub mp: u32,
    /// The attributes and their values.
    pub attributes: Attributes,
    /// What each slot holds.
    pub gear: GearSet,
    /// The address of the picture of the character's face.
    pub face_portrait_url: String,
    /// The address of the picture of the character.
    pub portrait_url: String,
    /// What the character has reached in each class.
    pub classes: Classes,
}

/// What a `Profile` holds, as plain values.
pub struct ProfileView {
    pub user_id: u32,
    pub free_company: Option<Seq<char>>,
    pub title: Option<Seq<char>>,
    pub name: Seq<char>,
    pub nameday: Seq<char>,
    pub guardian: Seq<char>,
    pub city_state: Seq<char>,
    pub server: Server,
    pub datacenter: Datacenter,
    pub race: Race,
    pub clan: Clan,
    pub gender: Gender,
    pub hp: u32,
    pub mp: u32,
    pub attributes: Map<Seq<char>, Attribute>,
    pub gear: Map<Slot, GearSlotView>,
    pub face_portrait_url: Seq<char>,
    pub portrait_url: Seq<char>,
    pub classes: Map<ClassType, Option<ClassInfo>>,
}

impl View for Profile {
    type V = ProfileView;

    open spec fn view(&self) -> ProfileView {
        ProfileView {
            user_id: self.user_id,
            free_company: text_within(self.free_company),
            title: text_within(self.title),
            name: self.name@,
            nameday: self.nameday@,
            guardian: self.guardian@,
            city_state: self.city_state@,
            server: self.server,
            datacenter: self.datacenter,
            race: self.race,
            clan: self.clan,
            gender: self.gender,
            hp: self.hp,
            mp: self.mp,
            attributes: self.attributes@,
            gear: self.gear@,
            face_portrait_url: self.face_portrait_url@,
            portrait_url: self.portrait_url@,
            classes: self.classes@,
        }
    }
}

impl Profile {
    /// The level of the character in `class`; `None` where the class is
    /// missing from the listing or was never played. A job and the base
    /// class it grows out of show the same level.
    pub fn level(&self, class: ClassType) -> (level: Option<u32>)
        ensures
            level == (match looked_up(self.classes@, class) {
                Some(info) => Some(info.level),
                None => None,
            }),
    {
        match self.class_info(class) {
            Some(v) => Some(v.level),
            None => None,
        }
    }

    /// What the character has reached in `class`.
    pub fn class_info(&self, class: ClassType) -> (info: Option<ClassInfo>)
        ensures
            info == looked_up(self.classes@, class),
    {
        self.classes.get(class)
    }

    /// The whole class listing.
    pub fn all_class_info(&self) -> (classes: &Classes)
        ensures
            classes@ == self.classes@,
    {
        &self.classes
    }

    /// The free company on a page: read off the first node that names one,
    /// if there is such a node.
    pub open spec fn free_company_in(page: &Document) -> Option<Seq<char>> {
        let found = found_in_page(page, Selector::Class("character__freecompany__name"@));
        if found.len() > 0 {
            Some(free_company_from(text_of(found[0])))
        } else {
            None
        }
    }

    /// The title on a page: the text of the first title node, if there is
    /// one.
    pub open spec fn title_in(page: &Document) -> Option<Seq<char>> {
        let found = found_in_page(page, Selector::Class("frame__chara__title"@));
        if found.len() > 0 {
            Some(text_of(found[0]))
        } else {
            None
        }
    }

    /// The name on a page.
    pub open spec fn name_in(page: &Document) -> Result<Seq<char>, SearchFailure> {
        text_of_class(page, "frame__chara__name"@, 0, "Class(\"frame__chara__name\")(0)"@)
    }

    /// The nameday on a page.
    pub open spec fn nameday_in(page: &Document) -> Result<Seq<char>, SearchFailure> {
        text_of_class(
            page,
            "character-block__birth"@,
            0,
            "Class(\"character-block__birth\")(0)"@,
        )
    }

    /// The guardian on a page: the second of the name blocks.
    pub open spec fn guardian_in(page: &Document) -> Result<Seq<char>, SearchFailure> {
        text_of_class(page, "character-block__name"@, 1, "Class(\"character-block__name\")(1)"@)
    }

    /// The city-state on a page: the third of the name blocks.
    pub open spec fn city_state_in(page: &Document) -> Result<Seq<char>, SearchFailure> {
        text_of_class(page, "character-block__name"@, 2, "Class(\"character-block__name\")(2)"@)
    }

    /// The home on a page: read off the text of the first world node.
    pub open spec fn home_in(page: &Document) -> Result<HomeInfo, SearchFailure> {
        match text_of_class(
            page,
            "frame__chara__world"@,
            0,
            "Class(\"frame__chara__world\")(0)"@,
        ) {
            Err(e) => Err(e),
            Ok(text) => home_from(text),
        }
    }

    /// Race, clan and gender on a page: read off the markup inside the first
    /// of the name blocks.
    pub open spec fn char_info_in(page: &Document) -> Result<CharInfo, SearchFailure> {
        match nth_of_class(
            page,
            "character-block__name"@,
            0,
            "Class(\"character-block__name\")(0)"@,
        ) {
            Err(e) => Err(e),
            Ok(block) => char_info_from(inner_markup_of(block)),
        }
    }

    /// The address of a picture on a page: the source of the first image
    /// below a node of `class`.
    pub open spec fn image_url_in(page: &Document, class: Seq<char>) -> Result<
        Seq<char>,
        SearchFailure,
    > {
        match nth_found(
            found_in_page(page, Selector::ClassDescendantName(class, "img"@)),
            0,
            "Class(class).descendant(Name(\"img\"))(0)"@,
        ) {
            Err(e) => Err(e),
            Ok(image) => image_source_from(attribute_of(image, "src"@)),
        }
    }

    /// Reads the free company, if the page names one.
    fn parse_free_company(doc: &Document) -> (name: Option<String>)
        requires
            from_parser(doc),
        ensures
            text_within(name) == Profile::free_company_in(doc),
    {
        let found = page_find_class(doc, "character__freecompany__name");
        if found.len() > 0 {
            let text = node_text(&found[0]);
            Some(decode_free_company(text.as_str()))
        } else {
            None
        }
    }

    /// Reads the title, if the page shows one.
    fn parse_title(doc: &Document) -> (title: Option<String>)
        requires
            from_parser(doc),
        ensures
            text_within(title) == Profile::title_in(doc),
    {
        let found = page_find_class(doc, "frame__chara__title");
        if found.len() > 0 {
            Some(node_text(&found[0]))
        } else {
            None
        }
    }

    /// Reads the name of the character.
    fn parse_name(doc: &Document) -> (name: Result<String, SearchError>)
        requires
            from_parser(doc),
        ensures
            outcome(name) == Profile::name_in(doc),
    {
        class_text_on(doc, "frame__chara__name", 0, "Class(\"frame__chara__name\")(0)")
    }

    /// Reads the nameday.
    fn parse_nameday(doc: &Document) -> (nameday: Result<String, SearchError>)
        requires
            from_parser(doc),
        ensures
            outcome(nameday) == Profile::nameday_in(doc),
    {
        class_text_on(doc, "character-block__birth", 0, "Class(\"character-block__birth\")(0)")
    }

    /// Reads the guardian.
    fn parse_guardian(doc: &Document) -> (guardian: Result<String, SearchError>)
        requires
            from_parser(doc),
        ensures
            outcome(guardian) == Profile::guardian_in(doc),
    {
        class_text_on(doc, "character-block__name", 1, "Class(\"character-block__name\")(1)")
    }

    /// Reads the city-state.
    fn parse_city_state(doc: &Document) -> (city_state: Result<String, SearchError>)
        requires
            from_parser(doc),
        ensures
            outcome(city_state) == Profile::city_state_in(doc),
    {
        class_text_on(doc, "character-block__name", 2, "Class(\"character-block__name\")(2)")
    }

    /// Reads world and data center.
    fn parse_home_info(doc: &Document) -> (home: Result<HomeInfo, SearchError>)
        requires
            from_parser(doc),
        ensures
            outcome(home) == Profile::home_in(doc),
    {
        let text = class_text_on(
            doc,
            "frame__chara__world",
            0,
            "Class(\"frame__chara__world\")(0)",
        )?;
        decode_home(text.as_str())
    }

    /// Reads race, clan and gender.
    fn parse_char_info(doc: &Document) -> (info: Result<CharInfo, SearchError>)
        requires
            from_parser(doc),
        ensures
            outcome(info) == Profile::char_info_in(doc),
    {
        let block = nth_class_on(
            doc,
            "character-block__name",
            0,
            "Class(\"character-block__name\")(0)",
        )?;
        let inner = node_inner_markup(&block);
        decode_char_info(inner.as_str())
    }

    /// Reads the address of the picture below the first node of `class`.
    fn parse_image_url(doc: &Document, class: &str) -> (url: Result<String, SearchError>)
        requires
            from_parser(doc),
        ensures
            outcome(url) == Profile::image_url_in(doc, class@),
    {
        let found = page_find_class_descendant_name(doc, class, "img");
        let image = ensure_node(&found, 0, "Class(class).descendant(Name(\"img\"))(0)")?;
        decode_image_source(node_attr(&image, "src"))
    }

    /// Reads the identifier of an item out of the target of its link: cut at
    /// each `/`, the target must give seven pieces, and the identifier is
    /// the sixth.
    pub fn parse_gear_link(href: Option<&str>) -> (id: Result<String, SearchError>)
        ensures
            outcome(id) == gear_link_from(text_in(href)),
    {
        decode_gear_link(href)
    }
}

/// How many nodes of `class` lie below `node`.
pub open spec fn count_of_class(node: Node, class: Seq<char>) -> nat {
    found_below(node, Selector::Class(class)).len()
}

impl Profile {
    /// What an item of the parameter list shows, told by the marks below it.
    pub open spec fn kind_at(item: Node) -> ParamKind {
        param_kind_of(
            count_of_class(item, "character__param__text__hp--en-us"@),
            count_of_class(item, "character__param__text__mp--en-us"@),
            count_of_class(item, "character__param__text__gp--en-us"@),
            count_of_class(item, "character__param__text__cp--en-us"@),
        )
    }

    /// The number that an item of the parameter list shows: the text of its
    /// first `span`, read as a number of 32 bits.
    pub open spec fn param_at(item: Node) -> Result<u32, SearchFailure> {
        match nth_found(found_below(item, Selector::Name("span"@)), 0, "Name(\"span\")(0)"@) {
            Err(e) => Err(e),
            Ok(span) => u32_from(text_of(span), "character__param"@),
        }
    }

    /// The HP and MP readings after the items of a parameter list were gone
    /// through in order, starting from the readings `hp` and `mp`: an item
    /// that shows HP sets the one, an item that shows MP the other, any other
    /// item is passed over, and the first number that cannot be read ends it
    /// all.
    pub open spec fn params_after(items: Seq<Node>, hp: Option<u32>, mp: Option<u32>) -> Result<
        (Option<u32>, Option<u32>),
        SearchFailure,
    >
        decreases items.len(),
    {
        if items.len() == 0 {
            Ok((hp, mp))
        } else {
            match Profile::kind_at(items[0]) {
                ParamKind::Hp => match Profile::param_at(items[0]) {
                    Err(e) => Err(e),
                    Ok(value) => Profile::params_after(items.drop_first(), Some(value), mp),
                },
                ParamKind::Mp => match Profile::param_at(items[0]) {
                    Err(e) => Err(e),
                    Ok(value) => Profile::params_after(items.drop_first(), hp, Some(value)),
                },
                ParamKind::Other => Profile::params_after(items.drop_first(), hp, mp),
            }
        }
    }

    /// HP and MP on a page: the readings of the items of the first parameter
    /// list, both of which must be there.
    pub open spec fn params_in(page: &Document) -> Result<(u32, u32), SearchFailure> {
        match nth_of_class(page, "character__param"@, 0, "Class(\"character__param\")(0)"@) {
            Err(e) => Err(e),
            Ok(block) => match Profile::params_after(
                found_below(block, Selector::Name("li"@)),
                None,
                None,
            ) {
                Err(e) => Err(e),
                Ok(found) => params_from(found.0, found.1),
            },
        }
    }

    /// Reads the number that an item of the parameter list shows.
    fn read_param(item: &Node<'_>) -> (value: Result<u32, SearchError>)
        requires
            on_parsed_page(*item),
        ensures
            outcome(value) == Profile::param_at(*item),
    {
        let found = find_name(item, "span");
        let span = ensure_node(&found, 0, "Name(\"span\")(0)")?;
        let text = node_text(&span);
        let chars = chars_of(text.as_str());
        decode_u32(&chars, "character__param")
    }

    /// Tells what an item of the parameter list shows.
    fn item_kind(item: &Node<'_>) -> (kind: ParamKind)
        requires
            on_parsed_page(*item),
        ensures
            kind == Profile::kind_at(*item),
    {
        classify_param(
            find_class(item, "character__param__text__hp--en-us").len(),
            find_class(item, "character__param__text__mp--en-us").len(),
            find_class(item, "character__param__text__gp--en-us").len(),
            find_class(item, "character__param__text__cp--en-us").len(),
        )
    }

    /// Reads HP and MP off the first parameter list.
    fn parse_char_param(doc: &Document) -> (params: Result<(u32, u32), SearchError>)
        requires
            from_parser(doc),
        ensures
            outcome(params) == Profile::params_in(doc),
    {
        let attr_block = nth_class_on(
            doc,
            "character__param",
            0,
            "Class(\"character__param\")(0)",
        )?;
        let items = find_name(&attr_block, "li");
        let mut hp: Option<u32> = None;
        let mut mp: Option<u32> = None;
        let mut i: usize = 0;
        assert(items@.skip(0) =~= items@);
        while i < items.len()
            invariant
                i <= items.len(),
                nth_of_class(doc, "character__param"@, 0, "Class(\"character__param\")(0)"@)
                    == Ok::<Node, SearchFailure>(attr_block),
                items@ == found_below(attr_block, Selector::Name("li"@)),
                from_parser(doc),
                all_on_page(items@, doc),
                Profile::params_after(items@.skip(i as int), hp, mp) == Profile::params_after(
                    items@,
                    None,
                    None,
                ),
            decreases items.len() - i,
        {
            let item = items[i];
            assert(items@.skip(i as int)[0] == item);
            assert(items@.skip(i as int).drop_first() =~= items@.skip(i + 1));
            match Profile::item_kind(&item) {
                ParamKind::Hp => {
                    hp = Some(Profile::read_param(&item)?);
                },
                ParamKind::Mp => {
                    mp = Some(Profile::read_param(&item)?);
                },
                ParamKind::Other => {},
            }
            i += 1;
        }
        decode_params(hp, mp)
    }

    /// What a row of the attribute table says: the text of its first `span`
    /// names the attribute, and the text of its first `td`, read as a number
    /// of 16 bits, is its value.
    pub open spec fn attribute_at(row: Node) -> Result<(Seq<char>, Attribute), SearchFailure> {
        match nth_found(found_below(row, Selector::Name("span"@)), 0, "Name(\"span\")(0)"@) {
            Err(e) => Err(e),
            Ok(name) => match nth_found(
                found_below(row, Selector::Name("td"@)),
                0,
                "Name(\"td\")(0)"@,
            ) {
                Err(e) => Err(e),
                Ok(value) => match u16_from(text_of(value), "character__profile__data"@) {
                    Err(e) => Err(e),
                    Ok(level) => Ok((text_of(name), Attribute { level })),
                },
            },
        }
    }

    /// The attributes after the rows of a table were taken down in order on
    /// top of `attributes`; the first row that cannot be read ends it all.
    pub open spec fn attributes_after(rows: Seq<Node>, attributes: Map<Seq<char>, Attribute>)
        -> Result<Map<Seq<char>, Attribute>, SearchFailure>
        decreases rows.len(),
    {
        if rows.len() == 0 {
            Ok(attributes)
        } else {
            match Profile::attribute_at(rows[0]) {
                Err(e) => Err(e),
                Ok(reading) => Profile::attributes_after(
                    rows.drop_first(),
                    attributes.insert(reading.0, reading.1),
                ),
            }
        }
    }

    /// The attributes on a page: what the rows of the first attribute block
    /// say.
    pub open spec fn attributes_in(page: &Document) -> Result<
        Map<Seq<char>, Attribute>,
        SearchFailure,
    > {
        match nth_of_class(
            page,
            "character__profile__data"@,
            0,
            "Class(\"character__profile__data\")(0)"@,
        ) {
            Err(e) => Err(e),
            Ok(block) => Profile::attributes_after(
                found_below(block, Selector::Name("tr"@)),
                Map::empty(),
            ),
        }
    }

    /// Reads one row of the attribute table.
    fn read_attribute(row: &Node<'_>) -> (reading: Result<(String, Attribute), SearchError>)
        requires
            on_parsed_page(*row),
        ensures
            outcome(reading) == Profile::attribute_at(*row),
    {
        let spans = find_name(row, "span");
        let name = ensure_node(&spans, 0, "Name(\"span\")(0)")?;
        let cells = find_name(row, "td");
        let value = ensure_node(&cells, 0, "Name(\"td\")(0)")?;
        let text = node_text(&value);
        let chars = chars_of(text.as_str());
        let level = decode_u16(&chars, "character__profile__data")?;
        Ok((node_text(&name), Attribute { level }))
    }

    /// Reads the attributes off the first attribute block.
    fn parse_attributes(doc: &Document) -> (attributes: Result<Attributes, SearchError>)
        requires
            from_parser(doc),
        ensures
            outcome(attributes) == Profile::attributes_in(doc),
    {
        let block = nth_class_on(
            doc,
            "character__profile__data",
            0,
            "Class(\"character__profile__data\")(0)",
        )?;
        let rows = find_name(&block, "tr");
        let mut attributes = Attributes::new();
        let mut i: usize = 0;
        assert(rows@.skip(0) =~= rows@);
        while i < rows.len()
            invariant
                i <= rows.len(),
                nth_of_class(
                    doc,
                    "character__profile__data"@,
                    0,
                    "Class(\"character__profile__data\")(0)"@,
                ) == Ok::<Node, SearchFailure>(block),
                rows@ == found_below(block, Selector::Name("tr"@)),
                from_parser(doc),
                all_on_page(rows@, doc),
                Profile::attributes_after(rows@.skip(i as int), attributes@)
                    == Profile::attributes_after(rows@, Map::empty()),
            decreases rows.len() - i,
        {
            let row = rows[i];
            assert(rows@.skip(i as int)[0] == row);
            assert(rows@.skip(i as int).drop_first() =~= rows@.skip(i + 1));
            let reading = Profile::read_attribute(&row)?;
            attributes.insert(reading.0, reading.1);
            i += 1;
        }
        Ok(attributes)
    }
}

/// What an optional `Gear` holds, as plain text.
pub open spec fn gear_within(gear: Option<Gear>) -> Option<GearView> {
    match gear {
        Some(gear) => Some(gear@),
        None => None,
    }
}

impl Profile {
    /// The piece shown in place of the piece worn, read off the text box of
    /// a slot: none where the box has no node for one; else the first such
    /// node gives the name, and the target of its first button the
    /// identifier.
    pub open spec fn glamour_at(text_box: Node) -> Result<Option<GearView>, SearchFailure> {
        let found = found_below(text_box, Selector::Class("db-tooltip__item__mirage"@));
        if found.len() == 0 {
            Ok(None)
        } else {
            match first_of_class(
                found[0],
                "db-tooltip__item__mirage__btn"@,
                "Class(\"db-tooltip__item__mirage__btn\")(0)"@,
            ) {
                Err(e) => Err(e),
                Ok(button) => match gear_link_from(attribute_of(button, "href"@)) {
                    Err(e) => Err(e),
                    Ok(id) => Ok(Some(GearView { lodestone_id: id, name: text_of(found[0]) })),
                },
            }
        }
    }

    /// What the box of a slot says: the item link and the text box must be
    /// there, the target of the link gives the identifier, the name node in
    /// the text box gives the name, and the text box may show a second
    /// piece; the first of these to fail decides the failure.
    pub open spec fn gear_slot_at(slot_box: Node) -> Result<GearSlotView, SearchFailure> {
        match nth_found(
            found_below(
                slot_box,
                Selector::ClassChildName("db-tooltip__bt_item_detail"@, "a"@),
            ),
            0,
            "Class(\"db-tooltip__bt_item_detail\").child(Name(\"a\"))(0)"@,
        ) {
            Err(e) => Err(e),
            Ok(link) => match first_of_class(
                slot_box,
                "db-tooltip__item__txt"@,
                "Class(\"db-tooltip__item__txt\")(0)"@,
            ) {
                Err(e) => Err(e),
                Ok(text_box) => match gear_link_from(attribute_of(link, "href"@)) {
                    Err(e) => Err(e),
                    Ok(id) => match first_of_class(
                        text_box,
                        "db-tooltip__item__name"@,
                        "Class(\"db-tooltip__item__name\")(0)"@,
                    ) {
                        Err(e) => Err(e),
                        Ok(name) => match Profile::glamour_at(text_box) {
                            Err(e) => Err(e),
                            Ok(glamour) => Ok(
                                GearSlotView {
                                    gear: GearView { lodestone_id: id, name: text_of(name) },
                                    glamour,
                                },
                            ),
                        },
                    },
                },
            },
        }
    }

    /// The equipment after `slots` were looked for on `page` in order, on
    /// top of `gear`. A slot whose marker is on no node, or whose first box
    /// has no text, holds nothing and is passed over; the first box that
    /// cannot be read ends it all.
    pub open spec fn gear_after(page: &Document, slots: Seq<Slot>, gear: Map<Slot, GearSlotView>)
        -> Result<Map<Slot, GearSlotView>, SearchFailure>
        decreases slots.len(),
    {
        if slots.len() == 0 {
            Ok(gear)
        } else {
            let found = found_in_page(page, Selector::Class(slots[0].marker()));
            if found.len() == 0 || text_of(found[0]).len() == 0 {
                Profile::gear_after(page, slots.drop_first(), gear)
            } else {
                match Profile::gear_slot_at(found[0]) {
                    Err(e) => Err(e),
                    Ok(worn) => Profile::gear_after(
                        page,
                        slots.drop_first(),
                        gear.insert(slots[0], worn),
                    ),
                }
            }
        }
    }

    /// The equipment on a page: what the boxes of all slots say.
    pub open spec fn gear_in(page: &Document) -> Result<Map<Slot, GearSlotView>, SearchFailure> {
        Profile::gear_after(page, Slot::every(), Map::empty())
    }

    /// Reads the identifier of an item off the target of a link.
    fn read_link(node: &Node<'_>) -> (id: Result<String, SearchError>)
        ensures
            outcome(id) == gear_link_from(attribute_of(*node, "href"@)),
    {
        match node_attr(node, "href") {
            Some(href) => Profile::parse_gear_link(Some(href.as_str())),
            None => Profile::parse_gear_link(None),
        }
    }

    /// Reads the piece shown in place of the piece worn, if there is one.
    fn read_glamour(text_box: &Node<'_>) -> (glamour: Result<Option<Gear>, SearchError>)
        requires
            on_parsed_page(*text_box),
        ensures
            match glamour {
                Ok(glamour) => Profile::glamour_at(*text_box) == Ok::<
                    Option<GearView>,
                    SearchFailure,
                >(gear_within(glamour)),
                Err(e) => Profile::glamour_at(*text_box) == Err::<Option<GearView>, SearchFailure>(
                    e@,
                ),
            },
    {
        let found = find_class(text_box, "db-tooltip__item__mirage");
        if found.len() == 0 {
            return Ok(None);
        }
        let glamour_data = found[0];
        let glamour_link = first_class_below(
            &glamour_data,
            "db-tooltip__item__mirage__btn",
            "Class(\"db-tooltip__item__mirage__btn\")(0)",
        )?;
        let lodestone_id = Profile::read_link(&glamour_link)?;
        Ok(Some(Gear { lodestone_id, name: node_text(&glamour_data) }))
    }

    /// Reads what the box of a slot says.
    fn read_gear_slot(slot_box: &Node<'_>) -> (worn: Result<GearSlot, SearchError>)
        requires
            on_parsed_page(*slot_box),
        ensures
            outcome(worn) == Profile::gear_slot_at(*slot_box),
    {
        let links = find_class_child_name(slot_box, "db-tooltip__bt_item_detail", "a");
        let gear_link = ensure_node(
            &links,
            0,
            "Class(\"db-tooltip__bt_item_detail\").child(Name(\"a\"))(0)",
        )?;
        let text_box = first_class_below(
            slot_box,
            "db-tooltip__item__txt",
            "Class(\"db-tooltip__item__txt\")(0)",
        )?;
        let lodestone_id = Profile::read_link(&gear_link)?;
        let name = first_class_below(
            &text_box,
            "db-tooltip__item__name",
            "Class(\"db-tooltip__item__name\")(0)",
        )?;
        let gear = Gear { lodestone_id, name: node_text(&name) };
        let glamour = Profile::read_glamour(&text_box)?;
        Ok(GearSlot { gear, glamour })
    }

    /// Reads the equipment, slot by slot.
    fn parse_gear(doc: &Document) -> (gear: Result<GearSet, SearchError>)
        requires
            from_parser(doc),
        ensures
            outcome(gear) == Profile::gear_in(doc),
    {
        let mut gear = GearSet::new();
        let slots = Slot::all();
        let mut i: usize = 0;
        assert(slots@.skip(0) =~= slots@);
        while i < 14
            invariant
                i <= 14,
                slots@ == Slot::every(),
                slots@.len() == 14,
                from_parser(doc),
                Profile::gear_after(doc, slots@.skip(i as int), gear@) == Profile::gear_in(doc),
            decreases 14 - i,
        {
            let slot = slots[i];
            assert(slots@.skip(i as int)[0] == slot);
            assert(slots@.skip(i as int).drop_first() =~= slots@.skip(i + 1));
            let found = page_find_class(doc, slot.marker_str());
            if found.len() > 0 {
                let node = found[0];
                if !node_text(&node).as_str().is_empty() {
                    let gear_slot = Profile::read_gear_slot(&node)?;
                    gear.insert(slot, gear_slot);
                }
            }
            i += 1;
        }
        Ok(gear)
    }

    /// What a line of the class listing says of a class that the level
    /// `level` stands for: nothing where the class was never played, else
    /// what the level and the first experience node of the line say.
    pub open spec fn class_info_at(item: Node, level: Seq<char>) -> Result<
        Option<ClassInfo>,
        SearchFailure,
    > {
        if level == "-"@ {
            Ok(None)
        } else {
            match first_of_class(
                item,
                "character__job__exp"@,
                "Class(\"character__job__exp\")(0)"@,
            ) {
                Err(e) => Err(e),
                Ok(experience) => class_info_from(level, text_of(experience)),
            }
        }
    }

    /// What a line of the class listing says: its first name node and its
    /// first level node must be there; then the reading is decoded, and the
    /// class looked up last.
    pub open spec fn class_line_at(item: Node) -> Result<
        (ClassType, Option<ClassInfo>),
        SearchFailure,
    > {
        match first_of_class(
            item,
            "character__job__name"@,
            "Class(\"character__job__name\")(0)"@,
        ) {
            Err(e) => Err(e),
            Ok(name) => match first_of_class(
                item,
                "character__job__level"@,
                "Class(\"character__job__level\")(0)"@,
            ) {
                Err(e) => Err(e),
                Ok(level) => match Profile::class_info_at(item, text_of(level)) {
                    Err(e) => Err(e),
                    Ok(info) => match class_from(text_of(name)) {
                        Err(e) => Err(e),
                        Ok(class) => Ok((class, info)),
                    },
                },
            },
        }
    }

    /// The listing after `items` were taken down in order on top of
    /// `classes`; the first line that cannot be read ends it all.
    pub open spec fn classes_after_lines(
        items: Seq<Node>,
        classes: Map<ClassType, Option<ClassInfo>>,
    ) -> Result<Map<ClassType, Option<ClassInfo>>, SearchFailure>
        decreases items.len(),
    {
        if items.len() == 0 {
            Ok(classes)
        } else {
            match Profile::class_line_at(items[0]) {
                Err(e) => Err(e),
                Ok(line) => Profile::classes_after_lines(
                    items.drop_first(),
                    recorded(classes, line.0, line.1),
                ),
            }
        }
    }

    /// The lines of one list of the listing: the `li` items below it.
    pub open spec fn lines_of(list: Node) -> Seq<Node> {
        found_below(list, Selector::Name("li"@))
    }

    /// The listing after the lines of each of `lists` were taken down, list
    /// after list, on top of `classes`.
    pub open spec fn classes_after_lists(
        lists: Seq<Node>,
        classes: Map<ClassType, Option<ClassInfo>>,
    ) -> Result<Map<ClassType, Option<ClassInfo>>, SearchFailure>
        decreases lists.len(),
    {
        if lists.len() == 0 {
            Ok(classes)
        } else {
            match Profile::classes_after_lines(Profile::lines_of(lists[0]), classes) {
                Err(e) => Err(e),
                Ok(next) => Profile::classes_after_lists(lists.drop_first(), next),
            }
        }
    }

    /// The content blocks of a class page that hold the listing: the first
    /// four, or all where there are fewer.
    pub open spec fn class_lists_in(page: &Document) -> Seq<Node> {
        let found = found_in_page(page, Selector::Class("character__content"@));
        if found.len() > 4 {
            found.take(4)
        } else {
            found
        }
    }

    /// The class listing on a class page.
    pub open spec fn classes_in(page: &Document) -> Result<
        Map<ClassType, Option<ClassInfo>>,
        SearchFailure,
    > {
        Profile::classes_after_lists(Profile::class_lists_in(page), Map::empty())
    }

    /// Reads level and experience off a line of the class listing.
    fn read_class_info(item: &Node<'_>, level: &str) -> (info: Result<
        Option<ClassInfo>,
        SearchError,
    >)
        requires
            on_parsed_page(*item),
        ensures
            outcome(info) == Profile::class_info_at(*item, level@),
    {
        if level_is_blank(level) {
            return Ok(None);
        }
        let experience = first_class_below(
            item,
            "character__job__exp",
            "Class(\"character__job__exp\")(0)",
        )?;
        let text = node_text(&experience);
        decode_class_info(level, text.as_str())
    }

    /// Reads one line of the class listing.
    fn read_class_line(item: &Node<'_>) -> (line: Result<
        (ClassType, Option<ClassInfo>),
        SearchError,
    >)
        requires
            on_parsed_page(*item),
        ensures
            outcome(line) == Profile::class_line_at(*item),
    {
        let name = first_class_below(
            item,
            "character__job__name",
            "Class(\"character__job__name\")(0)",
        )?;
        let level = first_class_below(
            item,
            "character__job__level",
            "Class(\"character__job__level\")(0)",
        )?;
        let level_text = node_text(&level);
        let classinfo = Profile::read_class_info(item, level_text.as_str())?;
        let name_text = node_text(&name);
        let class = decode_class(name_text.as_str())?;
        Ok((class, classinfo))
    }

    /// Takes down the lines of one list, in order.
    fn read_class_lines(items: &Vec<Node<'_>>, classes: &mut Classes) -> (done: Result<
        (),
        SearchError,
    >)
        requires
            forall|i: int| 0 <= i < items@.len() ==> on_parsed_page(#[trigger] items@[i]),
        ensures
            match done {
                Ok(_) => Profile::classes_after_lines(items@, old(classes)@) == Ok::<
                    Map<ClassType, Option<ClassInfo>>,
                    SearchFailure,
                >(final(classes)@),
                Err(e) => Profile::classes_after_lines(items@, old(classes)@) == Err::<
                    Map<ClassType, Option<ClassInfo>>,
                    SearchFailure,
                >(e@),
            },
    {
        let mut i: usize = 0;
        assert(items@.skip(0) =~= items@);
        while i < items.len()
            invariant
                i <= items.len(),
                forall|j: int| 0 <= j < items@.len() ==> on_parsed_page(#[trigger] items@[j]),
                Profile::classes_after_lines(items@.skip(i as int), classes@)
                    == Profile::classes_after_lines(items@, old(classes)@),
            decreases items.len() - i,
        {
            let item = items[i];
            assert(items@.skip(i as int)[0] == item);
            assert(items@.skip(i as int).drop_first() =~= items@.skip(i + 1));
            let line = Profile::read_class_line(&item)?;
            classes.record(line.0, line.1);
            i += 1;
        }
        Ok(())
    }

    /// Reads the class listing off the first four content blocks.
    fn parse_classes(doc: &Document) -> (classes: Result<Classes, SearchError>)
        requires
            from_parser(doc),
        ensures
            outcome(classes) == Profile::classes_in(doc),
    {
        let mut classes = Classes::new();
        let found = page_find_class(doc, "character__content");
        let n: usize = if found.len() > 4 {
            4
        } else {
            found.len()
        };
        let ghost lists = Profile::class_lists_in(doc);
        assert(lists =~= found@.take(n as int));
        let mut i: usize = 0;
        assert(lists.skip(0) =~= lists);
        while i < n
            invariant
                i <= n,
                n <= found.len(),
                lists == found@.take(n as int),
                lists == Profile::class_lists_in(doc),
                from_parser(doc),
                all_on_page(found@, doc),
                Profile::classes_after_lists(lists.skip(i as int), classes@)
                    == Profile::classes_in(doc),
            decreases n - i,
        {
            let list = found[i];
            assert(lists.skip(i as int)[0] == list);
            assert(lists.skip(i as int).drop_first() =~= lists.skip(i + 1));
            let items = find_name(&list, "li");
            Profile::read_class_lines(&items, &mut classes)?;
            i += 1;
        }
        Ok(classes)
    }

    /// What two pages say of the character with the id `user_id`: `main` is
    /// its profile page and `class_page` its class page. The fields are read
    /// in a fixed order, and the first that fails decides the failure.
    pub open spec fn decoded(user_id: u32, main: &Document, class_page: &Document) -> Result<
        ProfileView,
        SearchFailure,
    > {
        match Profile::char_info_in(main) {
            Err(e) => Err(e),
            Ok(char_info) => match Profile::home_in(main) {
                Err(e) => Err(e),
                Ok(home) => match Profile::params_in(main) {
                    Err(e) => Err(e),
                    Ok(params) => match Profile::name_in(main) {
                        Err(e) => Err(e),
                        Ok(name) => match Profile::nameday_in(main) {
                            Err(e) => Err(e),
                            Ok(nameday) => match Profile::guardian_in(main) {
                                Err(e) => Err(e),
                                Ok(guardian) => match Profile::city_state_in(main) {
                                    Err(e) => Err(e),
                                    Ok(city_state) => match Profile::attributes_in(main) {
                                        Err(e) => Err(e),
                                        Ok(attributes) => match Profile::gear_in(main) {
                                            Err(e) => Err(e),
                                            Ok(gear) => match Profile::image_url_in(
                                                main,
                                                "frame__chara__face"@,
                                            ) {
                                                Err(e) => Err(e),
                                                Ok(face_portrait_url) => match Profile::image_url_in(
                                                    main,
                                                    "character__detail__image"@,
                                                ) {
                                                    Err(e) => Err(e),
                                                    Ok(portrait_url) => match Profile::classes_in(
                                                        class_page,
                                                    ) {
                                                        Err(e) => Err(e),
                                                        Ok(classes) => Ok(
                                                            ProfileView {
                                                                user_id,
                                                                free_company:
                                                                    Profile::free_company_in(main),
                                                                title: Profile::title_in(main),
                                                                name,
                                                                nameday,
                                                                guardian,
                                                                city_state,
                                                                server: home.server,
                                                                datacenter: home.datacenter,
                                                                race: char_info.race,
                                                                clan: char_info.clan,
                                                                gender: char_info.gender,
                                                                hp: params.0,
                                                                mp: params.1,
                                                                attributes,
                                                                gear,
                                                                face_portrait_url,
                                                                portrait_url,
                                                                classes,
                                                            },
                                                        ),
                                                    },
                                                },
                                            },
                                        },
                                    },
                                },
                            },
                        },
                    },
                },
            },
        }
    }

    /// Decodes the profile of the character with the id `user_id` from the
    /// text of its two pages: the profile page and the class page. Nothing
    /// is handed back unless every field could be read. Each text must be
    /// short enough for the parser, which `fits_parser` tells.
    pub fn get(user_id: u32, main_markup: &str, class_markup: &str) -> (profile: Result<
        Profile,
        SearchError,
    >)
        requires
            page_sized(main_markup@),
            page_sized(class_markup@),
        ensures
            outcome(profile) == Profile::decoded(
                user_id,
                &parsed(main_markup@),
                &parsed(class_markup@),
            ),
    {
        let main_doc = parse_page(main_markup);
        let classes_doc = parse_page(class_markup);
        Profile::from_pages(user_id, &main_doc, &classes_doc)
    }

    /// Decodes the profile of the character with the id `user_id` from its
    /// two pages.
    fn from_pages(user_id: u32, main_doc: &Document, classes_doc: &Document) -> (profile:
        Result<Profile, SearchError>)
        requires
            from_parser(main_doc),
            from_parser(classes_doc),
        ensures
            outcome(profile) == Profile::decoded(user_id, main_doc, classes_doc),
    {
        let char_info = Profile::parse_char_info(main_doc)?;
        let home_info = Profile::parse_home_info(main_doc)?;
        let (hp, mp) = Profile::parse_char_param(main_doc)?;
        let free_company = Profile::parse_free_company(main_doc);
        let title = Profile::parse_title(main_doc);
        let name = Profile::parse_name(main_doc)?;
        let nameday = Profile::parse_nameday(main_doc)?;
        let guardian = Profile::parse_guardian(main_doc)?;
        let city_state = Profile::parse_city_state(main_doc)?;
        let attributes = Profile::parse_attributes(main_doc)?;
        let gear = Profile::parse_gear(main_doc)?;
        let face_portrait_url = Profile::parse_image_url(main_doc, "frame__chara__face")?;
        let portrait_url = Profile::parse_image_url(main_doc, "character__detail__image")?;
        let classes = Profile::parse_classes(classes_doc)?;
        Ok(
            Profile {
                user_id,
                free_company,
                title,
                name,
                nameday,
                guardian,
                city_state,
                server: home_info.server,
                datacenter: home_info.datacenter,
                race: char_info.race,
                clan: char_info.clan,
                gender: char_info.gender,
                hp,
                mp,
                attributes,
                gear,
                face_portrait_url,
                portrait_url,
                classes,
            },
        )
    }
}

/// Whether a line of the listing can be read and writes the entry of
/// `class`: it names `class`, or it holds a reading and names a job that
/// grows out of `class`.
pub open spec fn line_writes(item: Node, class: ClassType) -> bool {
    match Profile::class_line_at(item) {
        Ok(line) => writes(line.0, line.1, class),
        Err(_) => false,
    }
}

/// Lines that do not write the entry of a class leave it as it was.
pub proof fn law_other_lines_leave_class(
    items: Seq<Node>,
    classes: Map<ClassType, Option<ClassInfo>>,
    class: ClassType,
)
    requires
        Profile::classes_after_lines(items, classes) is Ok,
        forall|j: int| 0 <= j < items.len() ==> !line_writes(#[trigger] items[j], class),
    ensures
        looked_up(Profile::classes_after_lines(items, classes)->Ok_0, class) == looked_up(
            classes,
            class,
        ),
    decreases items.len(),
{
    if items.len() > 0 {
        let line = Profile::class_line_at(items[0])->Ok_0;
        assert(!line_writes(items[0], class));
        law_line_writes_no_other(classes, line.0, line.1, class);
        assert forall|j: int| 0 <= j < items.drop_first().len() implies !line_writes(
            #[trigger] items.drop_first()[j],
            class,
        ) by {
            assert(items.drop_first()[j] == items[j + 1]);
        }
        law_other_lines_leave_class(items.drop_first(), recorded(classes, line.0, line.1), class);
    }
}

/// The last line of a list that writes the entry of a class decides what a
/// query for that class finds: the reading of that line.
pub proof fn law_last_line_decides(
    items: Seq<Node>,
    classes: Map<ClassType, Option<ClassInfo>>,
    at: int,
    class: ClassType,
)
    requires
        0 <= at < items.len(),
        Profile::classes_after_lines(items, classes) is Ok,
        line_writes(items[at], class),
        forall|j: int| at < j < items.len() ==> !line_writes(#[trigger] items[j], class),
    ensures
        looked_up(Profile::classes_after_lines(items, classes)->Ok_0, class)
            == Profile::class_line_at(items[at])->Ok_0.1,
    decreases items.len(),
{
    let rest = items.drop_first();
    let first = Profile::class_line_at(items[0])->Ok_0;
    let next = recorded(classes, first.0, first.1);
    if at == 0 {
        law_line_writes_no_other(classes, first.0, first.1, class);
        assert forall|j: int| 0 <= j < rest.len() implies !line_writes(
            #[trigger] rest[j],
            class,
        ) by {
            assert(rest[j] == items[j + 1]);
        }
        law_other_lines_leave_class(rest, next, class);
    } else {
        assert(rest[at - 1] == items[at]);
        assert forall|j: int| at - 1 < j < rest.len() implies !line_writes(
            #[trigger] rest[j],
            class,
        ) by {
            assert(rest[j] == items[j + 1]);
        }
        law_last_line_decides(rest, next, at - 1, class);
    }
}

/// Where a line of a list holds a reading of a job that grows out of a base
/// class, and no later line of the list writes the entry of that job or of
/// that base class, the listing shows the reading under both: a query for
/// the job and a query for its base class find the same.
pub proof fn law_job_line_sets_base(
    items: Seq<Node>,
    classes: Map<ClassType, Option<ClassInfo>>,
    at: int,
)
    requires
        0 <= at < items.len(),
        Profile::classes_after_lines(items, classes) is Ok,
        Profile::class_line_at(items[at]) is Ok,
        Profile::class_line_at(items[at])->Ok_0.0.base() is Some,
        Profile::class_line_at(items[at])->Ok_0.1 is Some,
        forall|j: int|
            at < j < items.len() ==> !line_writes(
                #[trigger] items[j],
                Profile::class_line_at(items[at])->Ok_0.0,
            ) && !line_writes(items[j], Profile::class_line_at(items[at])->Ok_0.0.base()->0),
    ensures
        looked_up(
            Profile::classes_after_lines(items, classes)->Ok_0,
            Profile::class_line_at(items[at])->Ok_0.0,
        ) == Profile::class_line_at(items[at])->Ok_0.1,
        looked_up(
            Profile::classes_after_lines(items, classes)->Ok_0,
            Profile::class_line_at(items[at])->Ok_0.0.base()->0,
        ) == Profile::class_line_at(items[at])->Ok_0.1,
{
    let job = Profile::class_line_at(items[at])->Ok_0.0;
    law_last_line_decides(items, classes, at, job);
    law_last_line_decides(items, classes, at, job.base()->0);
}

/// Lists whose lines do not write the entry of a class leave it as it was.
pub proof fn law_other_lists_leave_class(
    lists: Seq<Node>,
    classes: Map<ClassType, Option<ClassInfo>>,
    class: ClassType,
)
    requires
        Profile::classes_after_lists(lists, classes) is Ok,
        forall|l: int, j: int|
            0 <= l < lists.len() && 0 <= j < Profile::lines_of(lists[l]).len() ==> !line_writes(
                #[trigger] Profile::lines_of(lists[l])[j],
                class,
            ),
    ensures
        looked_up(Profile::classes_after_lists(lists, classes)->Ok_0, class) == looked_up(
            classes,
            class,
        ),
    decreases lists.len(),
{
    if lists.len() > 0 {
        let items = Profile::lines_of(lists[0]);
        let next = Profile::classes_after_lines(items, classes)->Ok_0;
        assert forall|j: int| 0 <= j < items.len() implies !line_writes(
            #[trigger] items[j],
            class,
        ) by {
            assert(!line_writes(Profile::lines_of(lists[0])[j], class));
        }
        law_other_lines_leave_class(items, classes, class);
        assert forall|l: int, j: int|
            0 <= l < lists.drop_first().len() && 0 <= j < Profile::lines_of(
                lists.drop_first()[l],
            ).len() implies !line_writes(
            #[trigger] Profile::lines_of(lists.drop_first()[l])[j],
            class,
        ) by {
            assert(lists.drop_first()[l] == lists[l + 1]);
            assert(!line_writes(Profile::lines_of(lists[l + 1])[j], class));
        }
        law_other_lists_leave_class(lists.drop_first(), next, class);
    }
}

/// The last line of a class page that writes the entry of a class decides
/// what a query for that class finds: where line `at` of list `list` writes
/// it, and no later line of that list and no line of a later list does, the
/// query finds the reading of that line.
pub proof fn law_last_line_on_page_decides(
    lists: Seq<Node>,
    classes: Map<ClassType, Option<ClassInfo>>,
    list: int,
    at: int,
    class: ClassType,
)
    requires
        0 <= list < lists.len(),
        0 <= at < Profile::lines_of(lists[list]).len(),
        Profile::classes_after_lists(lists, classes) is Ok,
        line_writes(Profile::lines_of(lists[list])[at], class),
        forall|l: int, j: int|
            list <= l < lists.len() && 0 <= j < Profile::lines_of(lists[l]).len() && (l > list
                || j > at) ==> !line_writes(#[trigger] Profile::lines_of(lists[l])[j], class),
    ensures
        looked_up(Profile::classes_after_lists(lists, classes)->Ok_0, class)
            == Profile::class_line_at(Profile::lines_of(lists[list])[at])->Ok_0.1,
    decreases lists.len(),
{
    let items = Profile::lines_of(lists[0]);
    let next = Profile::classes_after_lines(items, classes)->Ok_0;
    let rest = lists.drop_first();
    if list == 0 {
        assert forall|j: int| at < j < items.len() implies !line_writes(
            #[trigger] items[j],
            class,
        ) by {
            assert(!line_writes(Profile::lines_of(lists[0])[j], class));
        }
        law_last_line_decides(items, classes, at, class);
        assert forall|l: int, j: int|
            0 <= l < rest.len() && 0 <= j < Profile::lines_of(rest[l]).len() implies !line_writes(
            #[trigger] Profile::lines_of(rest[l])[j],
            class,
        ) by {
            assert(rest[l] == lists[l + 1]);
            assert(!line_writes(Profile::lines_of(lists[l + 1])[j], class));
        }
        law_other_lists_leave_class(rest, next, class);
    } else {
        assert(rest[list - 1] == lists[list]);
        assert forall|l: int, j: int|
            list - 1 <= l < rest.len() && 0 <= j < Profile::lines_of(rest[l]).len() && (l > list
                - 1 || j > at) implies !line_writes(
            #[trigger] Profile::lines_of(rest[l])[j],
            class,
        ) by {
            assert(rest[l] == lists[l + 1]);
            assert(!line_writes(Profile::lines_of(lists[l + 1])[j], class));
        }
        law_last_line_on_page_decides(rest, next, list - 1, at, class);
    }
}

/// Where a class page holds a reading of a job that grows out of a base
/// class, in line `at` of list `list`, and no later line of the page writes
/// the entry of that job or of that base class, the listing shows the reading
/// under both the job and its base class, whatever earlier lines said.
pub proof fn law_job_shares_reading_with_base(
    lists: Seq<Node>,
    classes: Map<ClassType, Option<ClassInfo>>,
    list: int,
    at: int,
)
    requires
        0 <= list < lists.len(),
        0 <= at < Profile::lines_of(lists[list]).len(),
        Profile::classes_after_lists(lists, classes) is Ok,
        Profile::class_line_at(Profile::lines_of(lists[list])[at]) is Ok,
        Profile::class_line_at(Profile::lines_of(lists[list])[at])->Ok_0.0.base() is Some,
        Profile::class_line_at(Profile::lines_of(lists[list])[at])->Ok_0.1 is Some,
        forall|l: int, j: int|
            list <= l < lists.len() && 0 <= j < Profile::lines_of(lists[l]).len() && (l > list
                || j > at) ==> !line_writes(
                #[trigger] Profile::lines_of(lists[l])[j],
                Profile::class_line_at(Profile::lines_of(lists[list])[at])->Ok_0.0,
            ) && !line_writes(
                Profile::lines_of(lists[l])[j],
                Profile::class_line_at(Profile::lines_of(lists[list])[at])->Ok_0.0.base()->0,
            ),
    ensures
        looked_up(
            Profile::classes_after_lists(lists, classes)->Ok_0,
            Profile::class_line_at(Profile::lines_of(lists[list])[at])->Ok_0.0,
        ) == Profile::class_line_at(Profile::lines_of(lists[list])[at])->Ok_0.1,
        looked_up(
            Profile::classes_after_lists(lists, classes)->Ok_0,
            Profile::class_line_at(Profile::lines_of(lists[list])[at])->Ok_0.0.base()->0,
        ) == Profile::class_line_at(Profile::lines_of(lists[list])[at])->Ok_0.1,
{
    let job = Profile::class_line_at(Profile::lines_of(lists[list])[at])->Ok_0.0;
    law_last_line_on_page_decides(lists, classes, list, at, job);
    law_last_line_on_page_decides(lists, classes, list, at, job.base()->0);
}

} // verus!
