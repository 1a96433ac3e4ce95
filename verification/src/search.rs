//! Searching the character directory: the criteria of a search, the address
//! that asks for it, and what the answer says.

use crate::fields::{decode_user_id, user_id_from};
use crate::markup::{
    all_on_page, attribute_of, found_in_page, from_parser, node_attr, page_find_class,
    page_find_class_descendant_class, page_sized, parse_page, parsed, Selector,
};
use crate::model::datacenter::Datacenter;
use crate::model::domain::Domain;
use crate::model::gc::GrandCompany;
use crate::model::language::Language;
use crate::model::error::{SearchError, SearchFailure};
use crate::model::profile::{LightProfile, LightProfileView, Profile, ProfileView};
use crate::model::server::Server;
use crate::text::{chars_of, string_of, trim_end, trim_end_text};
use select::document::Document;
use select::node::Node;
use vstd::prelude::*;
use vstd::string::StringExecFns;

verus! {

/// The criteria of a search, as plain values.
pub struct SearchCriteria {
    /// The regional site to ask; North America where none is chosen.
    pub domain: Option<Domain>,
    /// The world to search on.
    pub server: Option<Server>,
    /// The data center to search on.
    pub datacenter: Option<Datacenter>,
    /// The name to search for.
    pub character: Option<Seq<char>>,
    /// The languages to filter by, in the order in which they were chosen,
    /// each once.
    pub languages: Seq<Language>,
    /// The grand companies to filter by, in the order in which they were
    /// chosen, each once.
    pub grand_companies: Seq<GrandCompany>,
}

/// One term of a query: a key, its value, and the `&` that closes the term.
pub open spec fn query_term(key: Seq<char>, value: Seq<char>) -> Seq<char> {
    key + value + "&"@
}

/// Appends one term of a query to `url`.
fn append_term(url: &mut String, key: &str, value: &str)
    ensures
        final(url)@ == old(url)@ + query_term(key@, value@),
{
    url.append(key);
    url.append(value);
    url.append("&");
    assert(url@ =~= old(url)@ + query_term(key@, value@));
}

/// The query terms for `languages`, one after the other.
pub open spec fn language_terms(languages: Seq<Language>) -> Seq<char>
    decreases languages.len(),
{
    if languages.len() == 0 {
        Seq::empty()
    } else {
        language_terms(languages.drop_last()) + query_term("blog_lang="@, languages.last().code())
    }
}

/// The query terms for `companies`, one after the other.
pub open spec fn company_terms(companies: Seq<GrandCompany>) -> Seq<char>
    decreases companies.len(),
{
    if companies.len() == 0 {
        Seq::empty()
    } else {
        company_terms(companies.drop_last()) + query_term("gcid="@, companies.last().id())
    }
}

impl SearchCriteria {
    /// No criterion at all.
    pub open spec fn empty() -> SearchCriteria {
        SearchCriteria {
            domain: None,
            server: None,
            datacenter: None,
            character: None,
            languages: Seq::empty(),
            grand_companies: Seq::empty(),
        }
    }

    /// These criteria with `domain` as the site to ask.
    pub open spec fn with_domain(self, domain: Domain) -> SearchCriteria {
        SearchCriteria { domain: Some(domain), ..self }
    }

    /// These criteria with `name` as the name to search for.
    pub open spec fn with_character(self, name: Seq<char>) -> SearchCriteria {
        SearchCriteria { character: Some(name), ..self }
    }

    /// These criteria with `datacenter` as the place to search, and no world.
    pub open spec fn with_datacenter(self, datacenter: Datacenter) -> SearchCriteria {
        SearchCriteria { datacenter: Some(datacenter), server: None, ..self }
    }

    /// These criteria with `server` as the place to search, and no data
    /// center.
    pub open spec fn with_server(self, server: Server) -> SearchCriteria {
        SearchCriteria { server: Some(server), datacenter: None, ..self }
    }

    /// These criteria with `language` among the languages.
    pub open spec fn with_language(self, language: Language) -> SearchCriteria {
        if self.languages.contains(language) {
            self
        } else {
            SearchCriteria { languages: self.languages.push(language), ..self }
        }
    }

    /// These criteria with `company` among the grand companies.
    pub open spec fn with_grand_company(self, company: GrandCompany) -> SearchCriteria {
        if self.grand_companies.contains(company) {
            self
        } else {
            SearchCriteria { grand_companies: self.grand_companies.push(company), ..self }
        }
    }

    /// Whether at most one of world and data center is chosen.
    pub open spec fn exclusive(self) -> bool {
        !(self.server is Some && self.datacenter is Some)
    }

    /// What holds of the criteria of every search: at most one of world and
    /// data center is chosen, and no language and no grand company is held
    /// twice.
    pub open spec fn well_formed(self) -> bool {
        self.exclusive() && self.languages.no_duplicates()
            && self.grand_companies.no_duplicates()
    }

    /// The query term for the name, if one is chosen.
    pub open spec fn character_term(self) -> Seq<char> {
        match self.character {
            Some(name) => query_term("q="@, name),
            None => Seq::empty(),
        }
    }

    /// The query term for the data center, if one is chosen.
    pub open spec fn datacenter_term(self) -> Seq<char> {
        match self.datacenter {
            Some(datacenter) => query_term("worldname=_dc_"@, datacenter.name()),
            None => Seq::empty(),
        }
    }

    /// The query term for the world, if one is chosen.
    pub open spec fn server_term(self) -> Seq<char> {
        match self.server {
            Some(server) => query_term("worldname="@, server.name()),
            None => Seq::empty(),
        }
    }

    /// The code of the site to ask.
    pub open spec fn domain_code(self) -> Seq<char> {
        match self.domain {
            Some(domain) => domain.code(),
            None => Domain::NorthAmerica.code(),
        }
    }

    /// The address with every term in place, each term closed by `&`.
    pub open spec fn address_with_terms(self) -> Seq<char> {
        "https://"@ + self.domain_code() + ".finalfantasyxiv.com/lodestone/character/?"@
            + self.character_term() + self.datacenter_term() + self.server_term()
            + language_terms(self.languages) + company_terms(self.grand_companies)
    }

    /// The address that asks the directory for these criteria: the address
    /// with every term in place, without any `&` at its end.
    pub open spec fn address(self) -> Seq<char> {
        trim_end(self.address_with_terms(), '&')
    }

    /// After a data center, a world takes its place: the world is chosen
    /// and no data center is.
    pub proof fn law_server_after_datacenter(self, datacenter: Datacenter, server: Server)
        ensures
            self.with_datacenter(datacenter).with_server(server).server == Some(server),
            self.with_datacenter(datacenter).with_server(server).datacenter is None,
    {
    }

    /// After a world, a data center takes its place: the data center is
    /// chosen and no world is.
    pub proof fn law_datacenter_after_server(self, server: Server, datacenter: Datacenter)
        ensures
            self.with_server(server).with_datacenter(datacenter).datacenter == Some(datacenter),
            self.with_server(server).with_datacenter(datacenter).server is None,
    {
    }

    /// Every step keeps criteria well formed, and the empty criteria are well
    /// formed: no step brings back the world or the data center that
    /// another shut out, and none adds what is held already.
    pub proof fn law_well_formed_kept(
        self,
        domain: Domain,
        name: Seq<char>,
        datacenter: Datacenter,
        server: Server,
        language: Language,
        company: GrandCompany,
    )
        requires
            self.well_formed(),
        ensures
            SearchCriteria::empty().well_formed(),
            self.with_domain(domain).well_formed(),
            self.with_character(name).well_formed(),
            self.with_datacenter(datacenter).well_formed(),
            self.with_server(server).well_formed(),
            self.with_language(language).well_formed(),
            self.with_grand_company(company).well_formed(),
    {
    }

    /// World and data center shut each other out: no criteria hold both
    /// right after one of the two was chosen, and no other step brings the
    /// second back.
    pub proof fn law_exclusive(
        self,
        domain: Domain,
        name: Seq<char>,
        datacenter: Datacenter,
        server: Server,
        language: Language,
        company: GrandCompany,
    )
        ensures
            SearchCriteria::empty().exclusive(),
            self.with_datacenter(datacenter).exclusive(),
            self.with_server(server).exclusive(),
            self.exclusive() ==> self.with_domain(domain).exclusive() && self.with_character(
                name,
            ).exclusive() && self.with_language(language).exclusive()
                && self.with_grand_company(company).exclusive(),
    {
    }
}

/// Assembles the criteria of a search, step by step. Whatever the steps, at
/// most one of world and data center is chosen, and no language and no
/// grand company is held twice.
#[derive(Debug)]
pub struct SearchBuilder {
    domain: Option<Domain>,
    server: Option<Server>,
    datacenter: Option<Datacenter>,
    character: Option<String>,
    lang: Vec<Language>,
    gc: Vec<GrandCompany>,
}

impl View for SearchBuilder {
    type V = SearchCriteria;

    closed spec fn view(&self) -> SearchCriteria {
        SearchCriteria {
            domain: self.domain,
            server: self.server,
            datacenter: self.datacenter,
            character: match self.character {
                Some(name) => Some(name@),
                None => None,
            },
            languages: self.lang@,
            grand_companies: self.gc@,
        }
    }
}

/// A copy of `items`.
fn copied<T: Copy>(items: &Vec<T>) -> (copy: Vec<T>)
    ensures
        copy@ == items@,
{
    let mut copy: Vec<T> = Vec::new();
    let mut i: usize = 0;
    while i < items.len()
        invariant
            i <= items.len(),
            copy@ == items@.subrange(0, i as int),
        decreases items.len() - i,
    {
        copy.push(items[i]);
        i += 1;
        assert(copy@ =~= items@.subrange(0, i as int));
    }
    assert(items@.subrange(0, items.len() as int) =~= items@);
    copy
}

impl Clone for SearchBuilder {
    /// A builder with the same criteria.
    fn clone(&self) -> (builder: SearchBuilder)
        ensures
            builder@ == self@,
    {
        proof {
            use_type_invariant(self);
        }
        SearchBuilder {
            domain: self.domain,
            server: self.server,
            datacenter: self.datacenter,
            character: match &self.character {
                Some(name) => Some(name.clone()),
                None => None,
            },
            lang: copied(&self.lang),
            gc: copied(&self.gc),
        }
    }
}

impl Default for SearchBuilder {
    /// A search without any criterion.
    fn default() -> (builder: SearchBuilder)
        ensures
            builder@ == SearchCriteria::empty(),
    {
        SearchBuilder::new()
    }
}

impl SearchBuilder {
    /// What holds of every builder: its criteria are well formed.
    #[verifier::type_invariant]
    closed spec fn holds(&self) -> bool {
        self@.well_formed()
    }

    /// A search without any criterion.
    pub fn new() -> (builder: SearchBuilder)
        ensures
            builder@ == SearchCriteria::empty(),
            builder@.well_formed(),
    {
        SearchBuilder {
            domain: None,
            server: None,
            datacenter: None,
            character: None,
            lang: Vec::new(),
            gc: Vec::new(),
        }
    }

    /// Chooses the regional site to ask; a later choice replaces an earlier
    /// one.
    pub fn domain(self, domain: Domain) -> (builder: SearchBuilder)
        ensures
            builder@ == self@.with_domain(domain),
            builder@.well_formed(),
    {
        proof {
            use_type_invariant(&self);
        }
        let SearchBuilder { domain: _, server, datacenter, character, lang, gc } = self;
        SearchBuilder { domain: Some(domain), server, datacenter, character, lang, gc }
    }

    /// Chooses the name to search for; a later choice replaces an earlier
    /// one.
    pub fn character(self, name: &str) -> (builder: SearchBuilder)
        ensures
            builder@ == self@.with_character(name@),
            builder@.well_formed(),
    {
        proof {
            use_type_invariant(&self);
        }
        let SearchBuilder { domain, server, datacenter, character: _, lang, gc } = self;
        SearchBuilder { domain, server, datacenter, character: Some(name.to_owned()), lang, gc }
    }

    /// Chooses a data center to search on, in place of any world or data
    /// center chosen before.
    pub fn datacenter(self, datacenter: Datacenter) -> (builder: SearchBuilder)
        ensures
            builder@ == self@.with_datacenter(datacenter),
            builder@.well_formed(),
    {
        proof {
            use_type_invariant(&self);
        }
        let SearchBuilder { domain, server: _, datacenter: _, character, lang, gc } = self;
        SearchBuilder { domain, server: None, datacenter: Some(datacenter), character, lang, gc }
    }

    /// Chooses a world to search on, in place of any world or data center
    /// chosen before.
    pub fn server(self, server: Server) -> (builder: SearchBuilder)
        ensures
            builder@ == self@.with_server(server),
            builder@.well_formed(),
    {
        proof {
            use_type_invariant(&self);
        }
        let SearchBuilder { domain, server: _, datacenter: _, character, lang, gc } = self;
        SearchBuilder { domain, server: Some(server), datacenter: None, character, lang, gc }
    }

    /// Adds a language to filter by; one that is held already is not added
    /// again.
    pub fn lang(self, lang: Language) -> (builder: SearchBuilder)
        ensures
            builder@ == self@.with_language(lang),
            builder@.well_formed(),
    {
        proof {
            use_type_invariant(&self);
        }
        let mut i: usize = 0;
        while i < self.lang.len()
            invariant
                i <= self.lang.len(),
                self@.well_formed(),
                forall|j: int| 0 <= j < i ==> self.lang@[j] != lang,
            decreases self.lang.len() - i,
        {
            if self.lang[i] == lang {
                return self;
            }
            i += 1;
        }
        let SearchBuilder { domain, server, datacenter, character, lang: held, gc } = self;
        let mut languages = held;
        languages.push(lang);
        SearchBuilder { domain, server, datacenter, character, lang: languages, gc }
    }

    /// Adds a grand company to filter by; one that is held already is not
    /// added again.
    pub fn grand_company(self, gc: GrandCompany) -> (builder: SearchBuilder)
        ensures
            builder@ == self@.with_grand_company(gc),
            builder@.well_formed(),
    {
        proof {
            use_type_invariant(&self);
        }
        let mut i: usize = 0;
        while i < self.gc.len()
            invariant
                i <= self.gc.len(),
                self@.well_formed(),
                forall|j: int| 0 <= j < i ==> self.gc@[j] != gc,
            decreases self.gc.len() - i,
        {
            if self.gc[i] == gc {
                return self;
            }
            i += 1;
        }
        let SearchBuilder { domain, server, datacenter, character, lang, gc: held } = self;
        let mut companies = held;
        companies.push(gc);
        SearchBuilder { domain, server, datacenter, character, lang, gc: companies }
    }

    /// The site chosen, if any.
    pub fn chosen_domain(&self) -> (domain: Option<Domain>)
        ensures
            domain == self@.domain,
            self@.well_formed(),
    {
        proof {
            use_type_invariant(self);
        }
        self.domain
    }

    /// The world chosen, if any; none where a data center is chosen.
    pub fn chosen_server(&self) -> (server: Option<Server>)
        ensures
            server == self@.server,
            self@.well_formed(),
    {
        proof {
            use_type_invariant(self);
        }
        self.server
    }

    /// The data center chosen, if any; none where a world is chosen.
    pub fn chosen_datacenter(&self) -> (datacenter: Option<Datacenter>)
        ensures
            datacenter == self@.datacenter,
            self@.well_formed(),
    {
        proof {
            use_type_invariant(self);
        }
        self.datacenter
    }

    /// The name chosen, if any.
    pub fn chosen_character(&self) -> (name: Option<&str>)
        ensures
            match name {
                Some(name) => self@.character == Some(name@),
                None => self@.character is None,
            },
            self@.well_formed(),
    {
        proof {
            use_type_invariant(self);
        }
        match &self.character {
            Some(name) => Some(name.as_str()),
            None => None,
        }
    }

    /// The languages chosen, in the order in which they were chosen, each
    /// once.
    pub fn chosen_languages(&self) -> (languages: &Vec<Language>)
        ensures
            languages@ == self@.languages,
            self@.well_formed(),
    {
        proof {
            use_type_invariant(self);
        }
        &self.lang
    }

    /// The grand companies chosen, in the order in which they were chosen,
    /// each once.
    pub fn chosen_grand_companies(&self) -> (companies: &Vec<GrandCompany>)
        ensures
            companies@ == self@.grand_companies,
            self@.well_formed(),
    {
        proof {
            use_type_invariant(self);
        }
        &self.gc
    }

    /// The start of the address: scheme, host and path.
    fn url_start(&self) -> (url: String)
        ensures
            url@ == "https://"@ + self@.domain_code()
                + ".finalfantasyxiv.com/lodestone/character/?"@,
    {
        let mut url = "https://".to_owned();
        match self.domain {
            Some(domain) => url.append(domain.to_string()),
            None => url.append(Domain::NorthAmerica.to_string()),
        }
        url.append(".finalfantasyxiv.com/lodestone/character/?");
        url
    }

    /// Appends the terms for name, data center and world.
    fn append_single_terms(&self, url: &mut String)
        ensures
            final(url)@ == old(url)@ + self@.character_term() + self@.datacenter_term()
                + self@.server_term(),
    {
        match &self.character {
            Some(name) => append_term(url, "q=", name.as_str()),
            None => {},
        }
        assert(url@ =~= old(url)@ + self@.character_term());
        let ghost named = url@;
        match self.datacenter {
            Some(dc) => append_term(url, "worldname=_dc_", dc.as_str()),
            None => {},
        }
        assert(url@ =~= named + self@.datacenter_term());
        let ghost placed = url@;
        match self.server {
            Some(s) => append_term(url, "worldname=", s.as_str()),
            None => {},
        }
        assert(url@ =~= placed + self@.server_term());
    }

    /// Appends the terms for the languages.
    fn append_language_terms(&self, url: &mut String)
        ensures
            final(url)@ == old(url)@ + language_terms(self@.languages),
    {
        let mut i: usize = 0;
        assert(self.lang@.subrange(0, 0) =~= Seq::<Language>::empty());
        assert(url@ =~= old(url)@ + language_terms(self.lang@.subrange(0, 0)));
        while i < self.lang.len()
            invariant
                i <= self.lang.len(),
                url@ == old(url)@ + language_terms(self.lang@.subrange(0, i as int)),
            decreases self.lang.len() - i,
        {
            append_term(url, "blog_lang=", self.lang[i].as_str());
            i += 1;
            proof {
                let longer = self.lang@.subrange(0, i as int);
                assert(longer.drop_last() =~= self.lang@.subrange(0, i - 1));
                assert(url@ =~= old(url)@ + language_terms(longer));
            }
        }
        assert(self.lang@.subrange(0, i as int) =~= self.lang@);
    }

    /// Appends the terms for the grand companies.
    fn append_company_terms(&self, url: &mut String)
        ensures
            final(url)@ == old(url)@ + company_terms(self@.grand_companies),
    {
        let mut i: usize = 0;
        assert(self.gc@.subrange(0, 0) =~= Seq::<GrandCompany>::empty());
        assert(url@ =~= old(url)@ + company_terms(self.gc@.subrange(0, 0)));
        while i < self.gc.len()
            invariant
                i <= self.gc.len(),
                url@ == old(url)@ + company_terms(self.gc@.subrange(0, i as int)),
            decreases self.gc.len() - i,
        {
            append_term(url, "gcid=", self.gc[i].id_str());
            i += 1;
            proof {
                let longer = self.gc@.subrange(0, i as int);
                assert(longer.drop_last() =~= self.gc@.subrange(0, i - 1));
                assert(url@ =~= old(url)@ + company_terms(longer));
            }
        }
        assert(self.gc@.subrange(0, i as int) =~= self.gc@);
    }

    /// The address that asks the directory for this search.
    pub fn url(&self) -> (url: String)
        ensures
            url@ == self@.address(),
            self@.well_formed(),
    {
        proof {
            use_type_invariant(self);
        }
        let mut url = self.url_start();
        self.append_single_terms(&mut url);
        self.append_language_terms(&mut url);
        self.append_company_terms(&mut url);
        let chars = chars_of(url.as_str());
        let trimmed = trim_end_text(&chars, '&');
        string_of(&trimmed)
    }
}

/// What each of `profiles` holds, as plain values.
pub open spec fn light_views(profiles: Seq<LightProfile>) -> Seq<LightProfileView> {
    Seq::new(profiles.len(), |i: int| profiles[i]@)
}

/// What each of `profiles` holds, as plain values.
pub open spec fn profile_views(profiles: Seq<Profile>) -> Seq<ProfileView> {
    Seq::new(profiles.len(), |i: int| profiles[i]@)
}

/// The profiles after `entries` were decoded in order, on top of `found`: a
/// line that decodes adds its profile, a line that does not is passed over.
pub open spec fn light_results_after(entries: Seq<Node>, found: Seq<LightProfileView>) -> Seq<
    LightProfileView,
>
    decreases entries.len(),
{
    if entries.len() == 0 {
        found
    } else {
        match LightProfile::decoded(entries[0]) {
            Ok(profile) => light_results_after(entries.drop_first(), found.push(profile)),
            Err(_) => light_results_after(entries.drop_first(), found),
        }
    }
}

/// The lines of a result page: the entries below its result list.
pub open spec fn result_entries_in(page: &Document) -> Seq<Node> {
    found_in_page(page, Selector::ClassDescendantClass("ldst__main"@, "entry"@))
}

/// The profiles on a result page: those of its lines that decode, in the
/// order of the page.
pub open spec fn light_results_in(page: &Document) -> Seq<LightProfileView> {
    light_results_after(result_entries_in(page), Seq::empty())
}

/// A line that does not decode changes nothing: the page gives what it
/// would give without that line.
pub proof fn law_failed_line_is_left_out(
    entries: Seq<Node>,
    found: Seq<LightProfileView>,
    at: int,
)
    requires
        0 <= at < entries.len(),
        LightProfile::decoded(entries[at]) is Err,
    ensures
        light_results_after(entries, found) == light_results_after(entries.remove(at), found),
    decreases entries.len(),
{
    if at == 0 {
        assert(entries.remove(0) =~= entries.drop_first());
    } else {
        let next = match LightProfile::decoded(entries[0]) {
            Ok(profile) => found.push(profile),
            Err(_) => found,
        };
        assert(entries.remove(at)[0] == entries[0]);
        assert(entries.remove(at).drop_first() =~= entries.drop_first().remove(at - 1));
        law_failed_line_is_left_out(entries.drop_first(), next, at - 1);
    }
}

/// Every line that decodes gives one profile: where all lines decode, the
/// page gives as many profiles as it has lines, on top of those it started
/// with.
pub proof fn law_good_lines_all_kept(entries: Seq<Node>, found: Seq<LightProfileView>)
    requires
        forall|i: int| 0 <= i < entries.len() ==> LightProfile::decoded(#[trigger] entries[i]) is Ok,
    ensures
        light_results_after(entries, found).len() == found.len() + entries.len(),
    decreases entries.len(),
{
    if entries.len() > 0 {
        assert(LightProfile::decoded(entries[0]) is Ok);
        assert forall|i: int| 0 <= i < entries.drop_first().len() implies LightProfile::decoded(
            #[trigger] entries.drop_first()[i],
        ) is Ok by {
            assert(entries.drop_first()[i] == entries[i + 1]);
        }
        law_good_lines_all_kept(
            entries.drop_first(),
            found.push(LightProfile::decoded(entries[0])->Ok_0),
        );
    }
}

/// A line of a result page that could not be decoded.
#[derive(Clone, Debug, PartialEq, Eq)]
pub struct LineFailure {
    /// The place of the line among the lines of the page, from 0.
    pub line: usize,
    /// Why the line could not be decoded.
    pub error: SearchError,
}

/// What a result page gave: the profiles of the lines that decode, and the
/// failures of the lines that do not, each in the order of the page.
#[derive(Clone, Debug, PartialEq, Eq)]
pub struct LightListing {
    pub profiles: Vec<LightProfile>,
    pub failures: Vec<LineFailure>,
}

/// What each of `failures` holds, as plain values: the place of the line and
/// its failure.
pub open spec fn failure_views(failures: Seq<LineFailure>) -> Seq<(int, SearchFailure)> {
    Seq::new(failures.len(), |i: int| (failures[i].line as int, failures[i].error@))
}

/// The failures among the first `n` of `entries`: each line that does not
/// decode, by its place, with its failure.
pub open spec fn light_failures_among(entries: Seq<Node>, n: int) -> Seq<(int, SearchFailure)>
    decreases n,
{
    if n <= 0 {
        Seq::empty()
    } else {
        match LightProfile::decoded(entries[n - 1]) {
            Ok(_) => light_failures_among(entries, n - 1),
            Err(e) => light_failures_among(entries, n - 1).push((n - 1, e)),
        }
    }
}

/// The failures on a result page: those of its lines that do not decode, in
/// the order of the page.
pub open spec fn light_failures_in(page: &Document) -> Seq<(int, SearchFailure)> {
    light_failures_among(result_entries_in(page), result_entries_in(page).len() as int)
}

/// Decodes the lines of a result page, and keeps the failure of each line
/// that cannot be decoded beside the profiles of those that can. The text
/// must be short enough for the parser, which `fits_parser` tells.
pub fn light_results_and_failures(markup: &str) -> (listing: LightListing)
    requires
        page_sized(markup@),
    ensures
        light_views(listing.profiles@) == light_results_in(&parsed(markup@)),
        failure_views(listing.failures@) == light_failures_in(&parsed(markup@)),
{
    let page = parse_page(markup);
    let entries = page_find_class_descendant_class(&page, "ldst__main", "entry");
    let mut profiles: Vec<LightProfile> = Vec::new();
    let mut failures: Vec<LineFailure> = Vec::new();
    let mut i: usize = 0;
    assert(entries@.skip(0) =~= entries@);
    assert(light_views(profiles@) =~= Seq::<LightProfileView>::empty());
    assert(failure_views(failures@) =~= Seq::<(int, SearchFailure)>::empty());
    while i < entries.len()
        invariant
            i <= entries.len(),
            from_parser(&page),
            all_on_page(entries@, &page),
            light_results_after(entries@.skip(i as int), light_views(profiles@))
                == light_results_after(entries@, Seq::empty()),
            failure_views(failures@) == light_failures_among(entries@, i as int),
        decreases entries.len() - i,
    {
        let entry = entries[i];
        assert(entries@.skip(i as int)[0] == entry);
        assert(entries@.skip(i as int).drop_first() =~= entries@.skip(i + 1));
        let ghost before = light_views(profiles@);
        let ghost failed = failure_views(failures@);
        match LightProfile::create_from(&entry) {
            Ok(profile) => {
                profiles.push(profile);
                assert(light_views(profiles@) =~= before.push(profile@));
                assert(failure_views(failures@) =~= failed);
            },
            Err(error) => {
                failures.push(LineFailure { line: i, error });
                assert(failure_views(failures@) =~= failed.push((i as int, error@)));
            },
        }
        i += 1;
    }
    LightListing { profiles, failures }
}

/// Decodes the lines of a result page. A line that cannot be decoded is left
/// out; it does not fail the page. The text must be short enough for the
/// parser, which `fits_parser` tells.
pub fn light_results(markup: &str) -> (profiles: Vec<LightProfile>)
    requires
        page_sized(markup@),
    ensures
        light_views(profiles@) == light_results_in(&parsed(markup@)),
{
    light_results_and_failures(markup).profiles
}

/// The user ids after `links` were read in order, on top of `found`: a link
/// whose target gives an id adds it, any other link is passed over.
pub open spec fn result_ids_after(links: Seq<Node>, found: Seq<u32>) -> Seq<u32>
    decreases links.len(),
{
    if links.len() == 0 {
        found
    } else {
        match user_id_from(attribute_of(links[0], "href"@)) {
            Ok(id) => result_ids_after(links.drop_first(), found.push(id)),
            Err(_) => result_ids_after(links.drop_first(), found),
        }
    }
}

/// The user ids on a result page: those that its profile links give, in the
/// order of the page.
pub open spec fn result_ids_in(page: &Document) -> Seq<u32> {
    result_ids_after(found_in_page(page, Selector::Class("entry__link"@)), Seq::empty())
}

/// Reads the user ids off the profile links of a result page. A link that
/// gives no id is left out. The text must be short enough for the parser,
/// which `fits_parser` tells.
pub fn result_ids(markup: &str) -> (ids: Vec<u32>)
    requires
        page_sized(markup@),
    ensures
        ids@ == result_ids_in(&parsed(markup@)),
{
    let page = parse_page(markup);
    let links = page_find_class(&page, "entry__link");
    let mut ids: Vec<u32> = Vec::new();
    let mut i: usize = 0;
    assert(links@.skip(0) =~= links@);
    while i < links.len()
        invariant
            i <= links.len(),
            result_ids_after(links@.skip(i as int), ids@) == result_ids_after(
                links@,
                Seq::empty(),
            ),
        decreases links.len() - i,
    {
        let link = links[i];
        assert(links@.skip(i as int)[0] == link);
        assert(links@.skip(i as int).drop_first() =~= links@.skip(i + 1));
        let id = match node_attr(&link, "href") {
            Some(href) => decode_user_id(Some(href.as_str())),
            None => decode_user_id(None),
        };
        match id {
            Ok(id) => {
                ids.push(id);
            },
            Err(_) => {},
        }
        i += 1;
    }
    ids
}

/// The text of the two pages of one character.
#[derive(Clone, Debug, PartialEq, Eq)]
pub struct ProfilePages {
    /// The id of the profile.
    pub user_id: u32,
    /// The text of the profile page.
    pub main: String,
    /// The text of the class page.
    pub class_job: String,
}

/// The profiles after `pages` were decoded in order, on top of `found`: a
/// pair of pages that decodes adds its profile, a pair that does not is
/// passed over.
pub open spec fn full_results_after(pages: Seq<ProfilePages>, found: Seq<ProfileView>) -> Seq<
    ProfileView,
>
    decreases pages.len(),
{
    if pages.len() == 0 {
        found
    } else {
        match Profile::decoded(
            pages[0].user_id,
            &parsed(pages[0].main@),
            &parsed(pages[0].class_job@),
        ) {
            Ok(profile) => full_results_after(pages.drop_first(), found.push(profile)),
            Err(_) => full_results_after(pages.drop_first(), found),
        }
    }
}

/// Decodes the profiles of the characters whose pages are given. A
/// character whose pages cannot be decoded is left out; it does not fail the
/// others. Each text must be short enough for the parser, which
/// `fits_parser` tells.
pub fn full_results(pages: &Vec<ProfilePages>) -> (profiles: Vec<Profile>)
    requires
        forall|i: int|
            0 <= i < pages@.len() ==> page_sized((#[trigger] pages@[i]).main@) && page_sized(
                pages@[i].class_job@,
            ),
    ensures
        profile_views(profiles@) == full_results_after(pages@, Seq::empty()),
{
    let mut profiles: Vec<Profile> = Vec::new();
    let mut i: usize = 0;
    assert(pages@.skip(0) =~= pages@);
    assert(profile_views(profiles@) =~= Seq::<ProfileView>::empty());
    while i < pages.len()
        invariant
            i <= pages.len(),
            forall|j: int|
                0 <= j < pages@.len() ==> page_sized((#[trigger] pages@[j]).main@) && page_sized(
                    pages@[j].class_job@,
                ),
            full_results_after(pages@.skip(i as int), profile_views(profiles@))
                == full_results_after(pages@, Seq::empty()),
        decreases pages.len() - i,
    {
        assert(pages@.skip(i as int)[0] == pages@[i as int]);
        assert(pages@.skip(i as int).drop_first() =~= pages@.skip(i + 1));
        let ghost before = profile_views(profiles@);
        match Profile::get(pages[i].user_id, pages[i].main.as_str(), pages[i].class_job.as_str()) {
            Ok(profile) => {
                profiles.push(profile);
                assert(profile_views(profiles@) =~= before.push(profile@));
            },
            Err(_) => {},
        }
        i += 1;
    }
    profiles
}

} // verus!
